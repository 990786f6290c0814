use frun::text::{contains_text, decimal};

#[test]
fn decimal_writes_numbers() {
    for n in [0u64, 7, 9, 10, 99, 100, 1000, 65535, 4294967295, u64::MAX] {
        assert_eq!(decimal(n), format!("{}", n));
    }
}

#[test]
fn decimal_notations_differ() {
    for m in 0..200u64 {
        for n in 0..m {
            assert_ne!(decimal(m), decimal(n));
        }
    }
}

#[test]
fn contains_text_finds_parts() {
    for (text, part) in [
        ("", ""),
        ("abc", ""),
        ("abc", "a"),
        ("abc", "c"),
        ("abc", "abc"),
        ("aab", "ab"),
        ("müßig", "üß"),
        ("abc", "abcd"),
        ("abc", "ac"),
        ("", "a"),
        ("abab", "bb"),
    ] {
        assert_eq!(contains_text(text, part), text.contains(part), "{:?} in {:?}", part, text);
    }
}
