use otp_auth::compare::constant_time_compare;

#[test]
fn equal_strings_compare_equal() {
    assert!(constant_time_compare("abc", "abc"));
    assert!(constant_time_compare("", ""));
    let digest = "ba7816bf8f01cfea414140de5dae2223b00361a396177a9cb410ff61f20015ad";
    assert!(constant_time_compare(digest, digest));
}

#[test]
fn a_difference_is_found_wherever_it_stands() {
    let base = "0123456789abcdef0123456789abcdef";
    for at in 0..base.len() {
        let mut bytes = base.as_bytes().to_vec();
        bytes[at] = b'x';
        let other = String::from_utf8(bytes).unwrap();
        assert!(!constant_time_compare(base, &other), "difference at {}", at);
        assert!(!constant_time_compare(&other, base), "difference at {}", at);
    }
}

#[test]
fn a_single_bit_of_difference_is_found() {
    assert!(!constant_time_compare("a", "c"));
    assert!(!constant_time_compare("abc", "abd"));
    assert!(!constant_time_compare("Abc", "abc"));
}

#[test]
fn strings_of_unequal_length_are_never_equal() {
    assert!(!constant_time_compare("abc", "abcd"));
    assert!(!constant_time_compare("abc", "abcdef"));
    assert!(!constant_time_compare("abcdef", "abc"));
    assert!(!constant_time_compare("", "anything"));
    assert!(!constant_time_compare("anything", ""));
    assert!(!constant_time_compare("abd", "abcdef"));
    let digest = "ba7816bf8f01cfea414140de5dae2223b00361a396177a9cb410ff61f20015ad";
    assert!(!constant_time_compare(digest, &digest[..63]));
    assert!(!constant_time_compare(&digest[..1], digest));
}

#[test]
fn comparison_agrees_with_equality() {
    let words = ["", "a", "b", "ab", "ba", "abc", "abd", "é", "e", "abc\0", "abcé"];
    for a in words {
        for b in words {
            assert_eq!(constant_time_compare(a, b), a == b, "{:?} {:?}", a, b);
        }
    }
}

#[test]
fn text_outside_ascii_is_compared_by_its_bytes() {
    assert!(constant_time_compare("héllo", "héllo"));
    assert!(!constant_time_compare("héllo", "hèllo"));
}
