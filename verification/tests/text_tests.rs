use rustpub::text::{extension_of, from_chars, join_path_str, parse_decimal_u32, replace_all_str, to_chars};

#[test]
fn chars_round_trip() {
    let cs = to_chars("héllo");
    assert_eq!(cs, vec!['h', 'é', 'l', 'l', 'o']);
    assert_eq!(from_chars(&cs, 1, 4), "éll");
    assert_eq!(from_chars(&cs, 2, 2), "");
}

#[test]
fn replace_removes_every_occurrence() {
    assert_eq!(replace_all_str("photo.jpg", ".jpg", ""), "photo");
    assert_eq!(replace_all_str("a.jpg.jpg", ".jpg", ""), "a");
    assert_eq!(replace_all_str("x.png_y.png", ".png", ""), "x_y");
    assert_eq!(replace_all_str("aaa", "aa", "b"), "ba");
    assert_eq!(replace_all_str("plain", ".gif", ""), "plain");
    assert_eq!(replace_all_str("", ".gif", ""), "");
}

#[test]
fn replace_does_not_rescan_its_output() {
    assert_eq!(replace_all_str("a..jpgjpg", ".jpg", ""), "a.jpg");
}

#[test]
fn extension_follows_the_path_rules() {
    assert_eq!(extension_of("photo.jpg"), Some("jpg".to_string()));
    assert_eq!(extension_of("archive.tar.gz"), Some("gz".to_string()));
    assert_eq!(extension_of("README"), None);
    assert_eq!(extension_of(".hidden"), None);
    assert_eq!(extension_of(".hidden.txt"), Some("txt".to_string()));
    assert_eq!(extension_of("trailing."), Some("".to_string()));
    assert_eq!(extension_of(".."), None);
    assert_eq!(extension_of("."), None);
}

#[test]
fn join_puts_one_separator() {
    assert_eq!(join_path_str("/tmp/rustpub_x", "a.png"), "/tmp/rustpub_x/a.png");
    assert_eq!(join_path_str("/tmp/", "a.png"), "/tmp/a.png");
    assert_eq!(join_path_str("", "a.png"), "a.png");
}

#[test]
fn parse_reads_decimal_numbers() {
    assert_eq!(parse_decimal_u32("800"), Some(800));
    assert_eq!(parse_decimal_u32("+42"), Some(42));
    assert_eq!(parse_decimal_u32("007"), Some(7));
    assert_eq!(parse_decimal_u32("4294967295"), Some(u32::MAX));
    assert_eq!(parse_decimal_u32("0"), Some(0));
}

#[test]
fn parse_refuses_what_std_refuses() {
    for s in ["", "+", "-", "-5", "4294967296", "99999999999999999999", "12a", " 12", "1.5", "++1"] {
        assert_eq!(parse_decimal_u32(s), s.parse::<u32>().ok(), "{:?}", s);
        assert_eq!(parse_decimal_u32(s), None, "{:?}", s);
    }
}

#[test]
fn parse_agrees_with_std() {
    for s in ["1", "+0", "65535", "4294967295", "0000000000001", "1234567890"] {
        assert_eq!(parse_decimal_u32(s), s.parse::<u32>().ok(), "{:?}", s);
    }
}
