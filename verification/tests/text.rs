use yaydl::text::{contains, decimal_chars, from_chars, is_one_of, replace_chars, slice_chars, split_on, to_chars, trim};

fn chars(s: &str) -> Vec<char> {
    s.chars().collect()
}

#[test]
fn chars_round_trip() {
    assert_eq!(to_chars("häl lo"), chars("häl lo"));
    assert_eq!(from_chars(&chars("häl lo")), "häl lo");
    assert_eq!(to_chars(""), Vec::<char>::new());
}

#[test]
fn trim_removes_white_space_at_both_ends_only() {
    assert_eq!(trim(&chars("  a b \n")), chars("a b"));
    assert_eq!(trim(&chars("\u{2003}x\u{a0}")), chars("x"));
    assert_eq!(trim(&chars("   ")), chars(""));
    assert_eq!(trim(&chars("")), chars(""));
    assert_eq!(trim(&chars("ab")), chars("ab"));
}

#[test]
fn replace_chars_replaces_each_occurrence() {
    assert_eq!(replace_chars(&chars("a:b:c"), &chars(":"), &chars("_")), chars("a_b_c"));
    assert_eq!(replace_chars(&chars("a:b|c"), &chars(":|"), &chars("")), chars("abc"));
    assert_eq!(replace_chars(&chars("a:b"), &chars(":"), &chars("--")), chars("a--b"));
    assert_eq!(replace_chars(&chars("abc"), &chars(""), &chars("_")), chars("abc"));
}

#[test]
fn is_one_of_finds_members() {
    assert!(is_one_of('b', &chars("abc")));
    assert!(!is_one_of('d', &chars("abc")));
    assert!(!is_one_of('d', &chars("")));
}

#[test]
fn split_keeps_empty_pieces() {
    assert_eq!(split_on(&chars("/a//b/"), '/'), vec![chars(""), chars("a"), chars(""), chars("b"), chars("")]);
    assert_eq!(split_on(&chars("abc"), '/'), vec![chars("abc")]);
    assert_eq!(split_on(&chars(""), '/'), vec![chars("")]);
}

#[test]
fn contains_finds_runs() {
    assert!(contains(&chars("video/webm"), &chars("/webm")));
    assert!(contains(&chars("video/webm"), &chars("")));
    assert!(contains(&chars("abc"), &chars("abc")));
    assert!(!contains(&chars("video/mp4"), &chars("/webm")));
    assert!(!contains(&chars("ab"), &chars("abc")));
}

#[test]
fn slice_takes_a_range() {
    assert_eq!(slice_chars(&chars("abcdef"), 1, 4), chars("bcd"));
    assert_eq!(slice_chars(&chars("abcdef"), 2, 2), chars(""));
}

#[test]
fn decimal_writes_numbers() {
    assert_eq!(decimal_chars(0), chars("0"));
    assert_eq!(decimal_chars(7), chars("7"));
    assert_eq!(decimal_chars(10), chars("10"));
    assert_eq!(decimal_chars(65535), chars("65535"));
}

#[test]
fn trim_knows_exactly_the_white_space_characters() {
    for n in 0..=0x10FFFFu32 {
        if let Some(c) = char::from_u32(n) {
            let listed = (0x09..=0x0D).contains(&n)
                || n == 0x20
                || n == 0x85
                || n == 0xA0
                || n == 0x1680
                || (0x2000..=0x200A).contains(&n)
                || n == 0x2028
                || n == 0x2029
                || n == 0x202F
                || n == 0x205F
                || n == 0x3000;
            assert_eq!(trim(&vec![c]).is_empty(), listed, "U+{:04X}", n);
        }
    }
}
