use gptvoice::text::{
    chars_of, consists_of, contains_white_space, decimal_text, eq_ignore_ascii_case, find,
    is_after, is_white_space, joined, only_digits, parse_u64, replace, same, same_option, split,
    starts_with, strip_prefix, strip_suffix, text_of, to_ascii_lowercase, trim,
};

#[test]
fn white_space_is_what_the_standard_library_says() {
    for code in 0..=0x10_ffff_u32 {
        if let Some(character) = char::from_u32(code) {
            assert_eq!(is_white_space(character), character.is_whitespace(), "{code:x}");
        }
    }
}

#[test]
fn text_functions_agree_with_the_standard_library() {
    let samples = [
        "", " ", "a", " a b ", "token=1", "aa", "aaaa", "ab:c:", "::", "-1", "+7", "007",
        "18446744073709551615", "18446744073709551616", "Ärger\u{a0}", "\u{3000}x\u{2003}",
        "HeLLo WÖRLD",
    ];
    for sample in samples {
        assert_eq!(trim(sample), sample.trim());
        assert_eq!(contains_white_space(sample), sample.chars().any(char::is_whitespace));
        assert_eq!(consists_of(sample, 'a'), sample.chars().all(|c| c == 'a'));
        assert_eq!(split(sample, ':'), sample.split(':').collect::<Vec<_>>());
        assert_eq!(parse_u64(sample), sample.parse::<u64>().ok());
        assert_eq!(only_digits(sample), sample.chars().all(|c| c.is_ascii_digit()));
        assert_eq!(to_ascii_lowercase(sample), sample.to_ascii_lowercase());
        assert_eq!(replace(sample, "aa", "b"), sample.replace("aa", "b"));
        for other in samples {
            assert_eq!(starts_with(sample, other), sample.starts_with(other));
            assert_eq!(strip_prefix(sample, other).as_deref(), sample.strip_prefix(other));
            assert_eq!(strip_suffix(sample, other).as_deref(), sample.strip_suffix(other));
            assert_eq!(
                find(sample, other),
                sample.find(other).map(|at| sample[..at].chars().count())
            );
            assert_eq!(is_after(sample, other), sample > other);
            assert_eq!(same(sample, other), sample == other);
            assert_eq!(eq_ignore_ascii_case(sample, other), sample.eq_ignore_ascii_case(other));
            assert_eq!(joined(sample, other), format!("{sample}{other}"));
        }
    }
    for value in [0, 9, 10, 99, 1_000, u64::MAX] {
        assert_eq!(decimal_text(value), value.to_string());
        assert_eq!(parse_u64(&decimal_text(value)), Some(value));
    }
    assert!(same_option(&Some("a".to_owned()), &Some("a".to_owned())));
    assert!(!same_option(&Some("a".to_owned()), &None));
    assert_eq!(text_of(&chars_of("añb"), 1, 2), "ñ");
}
