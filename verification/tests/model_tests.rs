use auth_core::models::{UserTags, UserType};
use auth_core::site::{file_home, CORS};

#[test]
fn user_type_names_round_trip() {
    assert!(matches!(
        UserType::from_name("Customer"),
        Some(UserType::Customer)
    ));
    assert!(matches!(UserType::from_name("Worker"), Some(UserType::Worker)));
    assert!(UserType::from_name("customer").is_none());
    assert!(UserType::from_name("Admin").is_none());
    assert_eq!(UserType::Customer.name(), "Customer");
    assert_eq!(UserType::Worker.name(), "Worker");
}

#[test]
fn tag_enumeration_is_closed_and_named() {
    let variants = UserTags::variants();
    assert_eq!(
        variants,
        vec![
            "WebDevelopment",
            "MobileDevelopment",
            "MachineLearning",
            "DeepLearning",
            "FullStackDevelopment",
            "CoreBlockchainDevelopment",
        ]
    );
    for name in &variants {
        let tag = UserTags::from_name(name).expect("every listed tag parses");
        assert_eq!(&tag.name(), name);
    }
    assert!(UserTags::from_name("Gardening").is_none());
    assert!(UserTags::from_name("").is_none());
}

#[test]
fn file_home_serves_the_upload_form() {
    let page = file_home();
    assert!(page.starts_with("<html>"));
    assert!(page.contains("multipart/form-data"));
    assert!(page.contains("somefile"));
    assert!(page.trim_end().ends_with("</html>"));
}

#[test]
fn cors_policy_sets_four_headers() {
    let headers = CORS::headers();
    assert_eq!(
        headers,
        vec![
            ("Access-Control-Allow-Origin", "*"),
            ("Access-Control-Allow-Methods", "POST, GET, PATCH, OPTIONS"),
            ("Access-Control-Allow-Headers", "*"),
            ("Access-Control-Allow-Credentials", "true"),
        ]
    );
}
