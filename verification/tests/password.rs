use otp_auth::errors::ServiceError;
use otp_auth::password::{
    argon2_password_hash, bcrypt_password_hash, has_argon2_format, password_hash, verify_hash,
};

#[test]
fn bcrypt_hash_verifies() {
    let hash = password_hash("hunter22", true).unwrap();
    assert!(hash.starts_with("$2b$12$"));
    assert_eq!(hash.len(), 60);
    assert!(!has_argon2_format(&hash));
    assert!(verify_hash("hunter22", &hash, true));
    assert!(!verify_hash("hunter23", &hash, true));
}

#[test]
fn bcrypt_hash_verifies_under_the_other_selector() {
    let hash = password_hash("hunter22", true).unwrap();
    assert!(verify_hash("hunter22", &hash, false));
    assert!(!verify_hash("", &hash, false));
}

#[test]
fn argon2_hash_verifies() {
    let hash = password_hash("hunter22", false).unwrap();
    assert!(hash.starts_with("$argon2"));
    assert!(has_argon2_format(&hash));
    assert!(verify_hash("hunter22", &hash, false));
    assert!(!verify_hash("Hunter22", &hash, false));
}

#[test]
fn argon2_hash_verifies_under_the_other_selector() {
    let hash = password_hash("hunter22", false).unwrap();
    assert!(verify_hash("hunter22", &hash, true));
    assert!(!verify_hash("hunter2", &hash, true));
}

#[test]
fn argon2_hashing_takes_every_password_of_ordinary_length() {
    for password in ["", "a", "hunter22", "pässwörd ✓"] {
        let hash = password_hash(password, false).unwrap();
        assert!(verify_hash(password, &hash, false), "{:?}", password);
    }
    let long = "x".repeat(100_000);
    let hash = password_hash(&long, false).unwrap();
    assert!(verify_hash(&long, &hash, true));
}

#[test]
fn argon2_takes_a_salt_of_eight_bytes_or_more() {
    assert!(argon2_password_hash("password", b"1234567").is_err());
    assert!(argon2_password_hash("password", b"12345678").is_ok());
    assert!(argon2_password_hash("", b"12345678").is_ok());
}

#[test]
fn bcrypt_hash_shows_the_work_factor() {
    let hash = password_hash("hunter22", true).unwrap();
    assert_eq!(&hash[..7], "$2b$12$");
}

#[test]
fn bcrypt_hash_with_a_given_salt_is_fixed() {
    let salt = [38u8, 113, 212, 141, 108, 213, 195, 166, 201, 38, 20, 13, 47, 40, 104, 18];
    let a = bcrypt_password_hash("My S3cre7 P@55w0rd!", &salt).unwrap();
    let b = bcrypt_password_hash("My S3cre7 P@55w0rd!", &salt).unwrap();
    assert_eq!(a, b);
    assert_eq!(a.len(), 60);
    assert!(a.starts_with("$2b$12$HlFShUxTu4ZHHfOLJwfmCe"));
    let expected = bcrypt::hash_with_salt("My S3cre7 P@55w0rd!", 12, salt)
        .unwrap()
        .format_for_version(bcrypt::Version::TwoB);
    assert_eq!(a, expected);
    assert!(verify_hash("My S3cre7 P@55w0rd!", &a, false));
    assert!(!verify_hash("My S3cre7 P@55w0rd", &a, false));
    let other = bcrypt_password_hash("My S3cre7 P@55w0rd!", &[7u8; 16]).unwrap();
    assert_ne!(a, other);
}

#[test]
fn bcrypt_takes_a_salt_of_sixteen_bytes_only() {
    let failed = Err(ServiceError::ProcessError("Password hashing failed".to_string()));
    assert_eq!(bcrypt_password_hash("password", &[1u8; 15]), failed);
    assert_eq!(bcrypt_password_hash("password", &[1u8; 17]), failed);
    assert_eq!(bcrypt_password_hash("password", &[]), failed);
}

#[test]
fn bcrypt_hashing_takes_every_password() {
    for password in ["", "hunter22", "pässwörd ✓"] {
        let hash = password_hash(password, true).unwrap();
        assert!(verify_hash(password, &hash, true), "{:?}", password);
    }
    let long = "x".repeat(200);
    let hash = password_hash(&long, true).unwrap();
    assert!(verify_hash(&long, &hash, true));
}

#[test]
fn two_bcrypt_hashes_of_one_password_differ() {
    let a = password_hash("hunter22", true).unwrap();
    let b = password_hash("hunter22", true).unwrap();
    assert_ne!(a, b);
}

#[test]
fn two_hashes_of_one_password_differ() {
    let a = password_hash("hunter22", false).unwrap();
    let b = password_hash("hunter22", false).unwrap();
    assert_ne!(a, b);
}

#[test]
fn argon2_hash_with_a_given_salt_is_fixed() {
    let a = argon2_password_hash("password", b"somesalt").unwrap();
    let b = argon2_password_hash("password", b"somesalt").unwrap();
    assert_eq!(a, b);
    assert!(a.starts_with("$argon2id$v=19$m=19456,t=2,p=1$c29tZXNhbHQ$"));
    assert!(verify_hash("password", &a, false));
    let c = argon2_password_hash("password", b"othersalt").unwrap();
    assert_ne!(a, c);
}

#[test]
fn argon2_refuses_a_short_salt() {
    assert_eq!(
        argon2_password_hash("password", b"short"),
        Err(ServiceError::ProcessError("Password hashing failed".to_string()))
    );
}

#[test]
fn known_hashes_verify() {
    let argon = "$argon2i$v=19$m=4096,t=3,p=1$c29tZXNhbHQ$iWh06vD8Fy27wf9npn6FXWiCX4K6pW6Ue1Bnzz07Z8A";
    assert!(verify_hash("password", argon, true));
    assert!(!verify_hash("passwore", argon, true));
    let bcrypt = "$2y$05$bvIG6Nmid91Mu9RcmmWZfO5HJIMCT8riNW0hEp8f6/FuA2/mHZFpe";
    assert!(verify_hash("password", bcrypt, false));
    assert!(!verify_hash("passwore", bcrypt, false));
}

#[test]
fn a_hash_that_cannot_be_read_matches_nothing() {
    for hash in ["", "hunter22", "$argon2", "$argon2id$broken", "$2b$12$short", "$1$md5$x"] {
        assert!(!verify_hash("hunter22", hash, true), "{:?}", hash);
        assert!(!verify_hash("hunter22", hash, false), "{:?}", hash);
    }
}

#[test]
fn format_is_read_from_the_first_characters() {
    assert!(has_argon2_format("$argon2"));
    assert!(has_argon2_format("$argon2id$v=19$"));
    assert!(!has_argon2_format("$argon"));
    assert!(!has_argon2_format("$argon3id"));
    assert!(!has_argon2_format("argon2id"));
    assert!(!has_argon2_format(""));
    assert!(!has_argon2_format("$2b$12$abcdefghij"));
    assert!(!has_argon2_format("é$argon2"));
}
