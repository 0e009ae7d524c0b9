use auth_core::models::{RegisterUser, UserType};
use auth_core::validate::{is_valid_email, validate_register};

fn request(first: &str, last: &str, email: &str, password: &str) -> RegisterUser {
    RegisterUser {
        first_name: first.to_string(),
        last_name: last.to_string(),
        user_type: UserType::Worker,
        user_tags: Vec::new(),
        email_id: email.to_string(),
        password: password.to_string(),
    }
}

#[test]
fn accepts_well_formed_addresses() {
    for email in [
        "naruto@leaf.io",
        "a@b.co",
        "kakashi@gmail.com",
        "first.last@example.org",
        "user+tag@sub.domain.example",
        "x_y-z@host",
        "UPPER.case@Example.COM",
        "digits123@42.example",
        "o'brien@irish.example",
    ] {
        assert!(is_valid_email(email), "should accept {email}");
    }
}

#[test]
fn rejects_malformed_addresses() {
    for email in [
        "",
        "no-at-sign",
        "@leaf.io",
        "naruto@",
        "two@@leaf.io",
        "two@at@leaf.io",
        "naruto@.leaf.io",
        "naruto@leaf.io.",
        "naruto@leaf..io",
        "naruto@-leaf.io",
        "naruto@leaf-.io",
        "naruto@le af.io",
        "na ruto@leaf.io",
        "naruto@leaf_io",
        "(naruto)@leaf.io",
    ] {
        assert!(!is_valid_email(email), "should reject {email}");
    }
}

#[test]
fn local_part_length_is_bounded() {
    let local_64 = "a".repeat(64);
    let local_65 = "a".repeat(65);
    assert!(is_valid_email(&format!("{local_64}@leaf.io")));
    assert!(!is_valid_email(&format!("{local_65}@leaf.io")));
}

#[test]
fn domain_length_is_bounded() {
    // 128 labels of one letter, dot-joined: 255 characters in all.
    let domain_255 = vec!["a"; 128].join(".");
    assert_eq!(domain_255.len(), 255);
    assert!(is_valid_email(&format!("naruto@{domain_255}")));
    let domain_256 = format!("a{domain_255}");
    assert!(!is_valid_email(&format!("naruto@{domain_256}")));
}

#[test]
fn addresses_are_ascii_only() {
    assert!(!is_valid_email("nærūto@leaf.io"));
    assert!(!is_valid_email("naruto@lēaf.io"));
}

#[test]
fn name_length_counts_characters_not_bytes() {
    assert!(validate_register(&request("日本語", "def", "a@b.co", "pw")).is_ok());
    let e = validate_register(&request("日本", "def", "a@b.co", "pw")).unwrap_err();
    assert_eq!(e.field, "first_name");
}

#[test]
fn names_need_three_characters() {
    assert!(validate_register(&request("abc", "def", "a@b.co", "pw")).is_ok());
    let e = validate_register(&request("ab", "def", "a@b.co", "pw")).unwrap_err();
    assert_eq!(e.field, "first_name");
    assert_eq!(e.rule, "length_min_3");
    let e = validate_register(&request("abc", "de", "a@b.co", "pw")).unwrap_err();
    assert_eq!(e.field, "last_name");
    assert_eq!(e.rule, "length_min_3");
}

#[test]
fn validation_fails_fast_in_field_order() {
    // Both names too short and the email malformed: the first field wins.
    let e = validate_register(&request("a", "b", "bad", "")).unwrap_err();
    assert_eq!(e.field, "first_name");
    // First name fine, last name too short, email malformed: the last name wins.
    let e = validate_register(&request("abc", "b", "bad", "")).unwrap_err();
    assert_eq!(e.field, "last_name");
    // Names fine: the email is reported before the empty password.
    let e = validate_register(&request("abc", "def", "bad", "")).unwrap_err();
    assert_eq!(e.field, "email_id");
    let e = validate_register(&request("abc", "def", "a@b.co", "")).unwrap_err();
    assert_eq!(e.field, "password");
    assert_eq!(e.rule, "non_empty");
}
