//! The command lines for the external `ffmpeg` program. It is not linked
//! in: the caller runs the system's one with these arguments.

use vstd::prelude::*;
use crate::outside::texts;

verus! {

/// The name of the program to run.
pub const PROGRAM: &'static str = "ffmpeg";

/// The arguments that extract the audio of `inputfile` into
/// `outputfile`: the video streams are skipped, and nothing is printed.
pub open spec fn audio_arguments(inputfile: Seq<char>, outputfile: Seq<char>) -> Seq<Seq<char>> {
    seq!["-i"@, inputfile, "-vn"@, "-loglevel"@, "quiet"@, outputfile]
}

/// The arguments that copy the streams of `inputfile` into the MP4
/// container `outputfile`, and print nothing.
pub open spec fn remux_arguments(inputfile: Seq<char>, outputfile: Seq<char>) -> Seq<Seq<char>> {
    seq![
        "-i"@,
        inputfile,
        "-acodec"@,
        "copy"@,
        "-vcodec"@,
        "copy"@,
        "-loglevel"@,
        "quiet"@,
        outputfile,
    ]
}

/// The arguments for converting `inputfile` to audio only.
pub fn to_audio(inputfile: &str, outputfile: &str) -> (r: Vec<String>)
    ensures
        texts(r@) == audio_arguments(inputfile@, outputfile@),
{
    let mut args: Vec<String> = Vec::new();
    args.push("-i".to_owned());
    args.push(inputfile.to_owned());
    args.push("-vn".to_owned());
    args.push("-loglevel".to_owned());
    args.push("quiet".to_owned());
    args.push(outputfile.to_owned());
    assert(texts(args@) =~= audio_arguments(inputfile@, outputfile@));
    args
}

/// The arguments for converting `inputfile` from a transport stream to
/// MP4.
pub fn ts_to_mp4(inputfile: &str, outputfile: &str) -> (r: Vec<String>)
    ensures
        texts(r@) == remux_arguments(inputfile@, outputfile@),
{
    let mut args: Vec<String> = Vec::new();
    args.push("-i".to_owned());
    args.push(inputfile.to_owned());
    args.push("-acodec".to_owned());
    args.push("copy".to_owned());
    args.push("-vcodec".to_owned());
    args.push("copy".to_owned());
    args.push("-loglevel".to_owned());
    args.push("quiet".to_owned());
    args.push(outputfile.to_owned());
    assert(texts(args@) =~= remux_arguments(inputfile@, outputfile@));
    args
}

} // verus!
