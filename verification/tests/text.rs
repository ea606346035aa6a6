use whosinbot::util::text::{chars_of, concatenate, decimal_string, join, str_eq, string_of, white_space};

#[test]
fn white_space_is_what_std_calls_white_space() {
    for code in 0..=0x10FFFF_u32 {
        if let Some(c) = char::from_u32(code) {
            assert_eq!(c.is_whitespace(), white_space(c), "for U+{:04X}", code);
        }
    }
}

#[test]
fn decimal_numerals() {
    assert_eq!("0", decimal_string(0));
    assert_eq!("7", decimal_string(7));
    assert_eq!("10", decimal_string(10));
    assert_eq!("1024", decimal_string(1024));
    assert_eq!("18446744073709551615", decimal_string(u64::MAX));
    for n in [9, 99, 100, 101, 909, 123456789, 1 << 40] {
        assert_eq!(n.to_string(), decimal_string(n));
    }
}

#[test]
fn joined_texts() {
    let parts = |texts: &[&str]| texts.iter().map(|t| t.to_string()).collect::<Vec<_>>();
    assert_eq!("", join(&parts(&[]), ", "));
    assert_eq!("a", join(&parts(&["a"]), ", "));
    assert_eq!("a, b", join(&parts(&["a", "b"]), ", "));
    assert_eq!("a, , c", join(&parts(&["a", "", "c"]), ", "));
    assert_eq!("abc", join(&parts(&["a", "b", "c"]), ""));
}

#[test]
fn characters_and_back() {
    let chars = chars_of("héllo 🍺");
    assert_eq!(vec!['h', 'é', 'l', 'l', 'o', ' ', '🍺'], chars);
    assert_eq!("héllo 🍺", string_of(&chars, 0, 7));
    assert_eq!("llo", string_of(&chars, 2, 5));
    assert_eq!("", string_of(&chars, 3, 3));
    assert_eq!("🍺", string_of(&chars, 6, 7));
}

#[test]
fn equal_and_joined_slices() {
    assert!(str_eq("", ""));
    assert!(str_eq("abc", "abc"));
    assert!(!str_eq("abc", "abd"));
    assert!(!str_eq("abc", "ab"));
    assert_eq!("abcd", concatenate("ab", "cd"));
    assert_eq!("ab", concatenate("ab", ""));
}
