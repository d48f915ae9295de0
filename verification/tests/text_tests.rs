use installer::text::{
    blank, chars_of, decimal_string, join, lines, signed_decimal_string, text_contains, text_of,
    trim_end_matches, trim_start_matches, white_space,
};

#[test]
fn decimal_of_numbers() {
    assert_eq!(decimal_string(0), "0");
    assert_eq!(decimal_string(7), "7");
    assert_eq!(decimal_string(10), "10");
    assert_eq!(decimal_string(513), "513");
    assert_eq!(decimal_string(1234567890), "1234567890");
    assert_eq!(decimal_string(u64::MAX), "18446744073709551615");
}

#[test]
fn signed_decimal_of_numbers() {
    assert_eq!(signed_decimal_string(0), "0");
    assert_eq!(signed_decimal_string(1), "1");
    assert_eq!(signed_decimal_string(-1), "-1");
    assert_eq!(signed_decimal_string(127), "127");
    assert_eq!(signed_decimal_string(i32::MAX), "2147483647");
    assert_eq!(signed_decimal_string(i32::MIN), "-2147483648");
}

#[test]
fn chars_and_text_round_trip() {
    let chars = chars_of("héllo wörld");
    assert_eq!(chars.len(), 11);
    assert_eq!(text_of(&chars, 0, 11), "héllo wörld");
    assert_eq!(text_of(&chars, 1, 5), "éllo");
    assert_eq!(text_of(&chars, 4, 4), "");
}

#[test]
fn contains_finds_substrings() {
    assert!(text_contains("/dev/nvme0n1", "nvme"));
    assert!(text_contains("/dev/mmcblk0", "mmcblk"));
    assert!(!text_contains("/dev/sda", "nvme"));
    assert!(text_contains("abc", ""));
    assert!(text_contains("", ""));
    assert!(!text_contains("", "a"));
    assert!(!text_contains("nvm", "nvme"));
    assert!(text_contains("nvme", "nvme"));
    assert!(text_contains("xxnvme", "nvme"));
    assert!(!text_contains("nvmxe", "nvme"));
    assert!(text_contains("aab", "ab"));
}

#[test]
fn trim_end_removes_every_trailing_slash() {
    assert_eq!(trim_end_matches("/mnt/root", '/'), "/mnt/root");
    assert_eq!(trim_end_matches("/mnt/root/", '/'), "/mnt/root");
    assert_eq!(trim_end_matches("/mnt/root///", '/'), "/mnt/root");
    assert_eq!(trim_end_matches("///", '/'), "");
    assert_eq!(trim_end_matches("", '/'), "");
}

#[test]
fn trim_start_removes_every_leading_slash() {
    assert_eq!(trim_start_matches("boot", '/'), "boot");
    assert_eq!(trim_start_matches("/boot/efi", '/'), "boot/efi");
    assert_eq!(trim_start_matches("///boot/", '/'), "boot/");
    assert_eq!(trim_start_matches("/", '/'), "");
    assert_eq!(trim_start_matches("", '/'), "");
}

#[test]
fn white_space_agrees_with_the_standard_library() {
    let mut code: u32 = 0;
    while code <= 0x11000 {
        if let Some(c) = char::from_u32(code) {
            assert_eq!(white_space(c), c.is_whitespace(), "U+{:04X}", code);
        }
        code += 1;
    }
}

#[test]
fn blank_texts() {
    assert!(blank(""));
    assert!(blank("   "));
    assert!(blank(" \t\r\n"));
    assert!(blank("\u{3000}\u{a0}"));
    assert!(!blank(" a "));
    assert!(!blank("_"));
}

#[test]
fn lines_agree_with_the_standard_library() {
    let samples = [
        "",
        "a",
        "a\n",
        "a\nb",
        "a\nb\n",
        "\n",
        "\n\n",
        "a\r\nb\r\n",
        "a\rb",
        "a\r",
        "a\r\n",
        "\r\n",
        "\r",
        "a\n\nb",
        "a\r\r\nb",
        "one two\n  \nthree\n\n",
        "\nstart",
        "ünï\ncödé\r\n",
    ];
    for sample in samples {
        let expected: Vec<String> = sample.lines().map(|l| l.to_string()).collect();
        assert_eq!(lines(sample), expected, "{:?}", sample);
    }
}

#[test]
fn lines_of_plain_output() {
    assert_eq!(lines("first\nsecond\r\nthird"), vec!["first", "second", "third"]);
    assert_eq!(lines("only\r"), vec!["only\r"]);
    assert!(lines("").is_empty());
}

#[test]
fn join_puts_the_separator_between() {
    let none: Vec<String> = Vec::new();
    assert_eq!(join(&none, " "), "");
    assert_eq!(join(&vec!["a".to_string()], " "), "a");
    assert_eq!(join(&vec!["a".to_string(), "b".to_string(), "c".to_string()], " "), "a b c");
    assert_eq!(join(&vec!["".to_string(), "".to_string()], ", "), ", ");
}
