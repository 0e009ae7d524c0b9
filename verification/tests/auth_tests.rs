use auth_core::auth::{AuthService, AuthenticationError};
use auth_core::crypto::CredentialHasher;
use auth_core::models::{DeleteUser, LoginUser, RegisterUser, UserType};
use auth_core::store::UserStore;

fn service() -> AuthService {
    AuthService::new(UserStore::new(), CredentialHasher::new())
}

fn naruto_request() -> RegisterUser {
    RegisterUser {
        first_name: "naruto".to_string(),
        last_name: "uzumaki".to_string(),
        user_type: UserType::Customer,
        user_tags: Vec::new(),
        email_id: "naruto@leaf.io".to_string(),
        password: "Rasengan1!".to_string(),
    }
}

#[test]
fn register_returns_sanitized_record() {
    let mut svc = service();
    let su = svc.register(naruto_request()).unwrap();
    assert_eq!(su.first_name, "naruto");
    assert_eq!(su.last_name, "uzumaki");
    assert_eq!(su.email_id, "naruto@leaf.io");
    assert!(matches!(su.user_type, UserType::Customer));
    assert!(su.user_tags.is_empty());
    assert!(su.user_id.is_some());
    assert!(su.created_at.is_some());
    assert_eq!(su.created_at, su.updated_at);
    assert_eq!(svc.len(), 1);
}

#[test]
fn second_register_with_same_email_already_exists() {
    let mut svc = service();
    assert!(svc.register(naruto_request()).is_ok());
    let mut again = naruto_request();
    again.first_name = "menma".to_string();
    again.password = "Another1!".to_string();
    let r = svc.register(again);
    assert!(matches!(r, Err(AuthenticationError::UserAlreadyExists)));
    assert_eq!(svc.len(), 1);
}

#[test]
fn login_with_correct_credentials_succeeds() {
    let mut svc = service();
    assert!(svc.register(naruto_request()).is_ok());
    let su = svc
        .login(&LoginUser {
            username: "naruto@leaf.io".to_string(),
            password: "Rasengan1!".to_string(),
        })
        .unwrap();
    assert_eq!(su.email_id, "naruto@leaf.io");
    assert_eq!(su.first_name, "naruto");
}

#[test]
fn login_with_wrong_password_mismatches() {
    let mut svc = service();
    assert!(svc.register(naruto_request()).is_ok());
    let r = svc.login(&LoginUser {
        username: "naruto@leaf.io".to_string(),
        password: "wrong".to_string(),
    });
    assert!(matches!(r, Err(AuthenticationError::PasswordMismatch)));
}

#[test]
fn login_with_unknown_email_not_found() {
    let svc = service();
    let r = svc.login(&LoginUser {
        username: "nobody@leaf.io".to_string(),
        password: "whatever".to_string(),
    });
    assert!(matches!(r, Err(AuthenticationError::NotFound)));
}

#[test]
fn delete_then_login_not_found() {
    let mut svc = service();
    assert!(svc.register(naruto_request()).is_ok());
    let r = svc.delete(&DeleteUser {
        username: "naruto@leaf.io".to_string(),
    });
    assert!(r.is_ok());
    assert_eq!(svc.len(), 0);
    assert!(svc.find_by_email("naruto@leaf.io").is_none());
    let r = svc.login(&LoginUser {
        username: "naruto@leaf.io".to_string(),
        password: "Rasengan1!".to_string(),
    });
    assert!(matches!(r, Err(AuthenticationError::NotFound)));
}

#[test]
fn delete_unknown_email_not_found_not_store_error() {
    let mut svc = service();
    let r = svc.delete(&DeleteUser {
        username: "never@registered.io".to_string(),
    });
    assert!(matches!(r, Err(AuthenticationError::NotFound)));
}

#[test]
fn delete_keeps_other_records() {
    let mut svc = service();
    assert!(svc.register(naruto_request()).is_ok());
    let mut other = naruto_request();
    other.first_name = "sasuke".to_string();
    other.last_name = "uchiha".to_string();
    other.email_id = "sasuke@leaf.io".to_string();
    other.password = "Chidori1!".to_string();
    assert!(svc.register(other).is_ok());
    assert!(svc
        .delete(&DeleteUser {
            username: "naruto@leaf.io".to_string(),
        })
        .is_ok());
    assert_eq!(svc.len(), 1);
    assert!(svc.find_by_email("sasuke@leaf.io").is_some());
    assert!(svc
        .login(&LoginUser {
            username: "sasuke@leaf.io".to_string(),
            password: "Chidori1!".to_string(),
        })
        .is_ok());
}

#[test]
fn short_first_name_fails_validation_without_store_access() {
    let mut svc = service();
    let mut req = naruto_request();
    req.first_name = "ab".to_string();
    let r = svc.register(req);
    match r {
        Err(AuthenticationError::ValidationError(e)) => {
            assert_eq!(e.field, "first_name");
            assert_eq!(e.rule, "length_min_3");
        }
        other => panic!("expected a validation error, got {:?}", other),
    }
    assert_eq!(svc.len(), 0);
}

#[test]
fn invalid_email_fails_validation() {
    let mut svc = service();
    let mut req = naruto_request();
    req.email_id = "not-an-email".to_string();
    let r = svc.register(req);
    match r {
        Err(AuthenticationError::ValidationError(e)) => {
            assert_eq!(e.field, "email_id");
            assert_eq!(e.rule, "email");
        }
        other => panic!("expected a validation error, got {:?}", other),
    }
}

#[test]
fn empty_password_fails_validation() {
    let mut svc = service();
    let mut req = naruto_request();
    req.password = String::new();
    let r = svc.register(req);
    match r {
        Err(AuthenticationError::ValidationError(e)) => {
            assert_eq!(e.field, "password");
            assert_eq!(e.rule, "non_empty");
        }
        other => panic!("expected a validation error, got {:?}", other),
    }
}

#[test]
fn registered_email_can_be_reused_after_delete() {
    let mut svc = service();
    assert!(svc.register(naruto_request()).is_ok());
    assert!(svc
        .delete(&DeleteUser {
            username: "naruto@leaf.io".to_string(),
        })
        .is_ok());
    assert!(svc.register(naruto_request()).is_ok());
    assert_eq!(svc.len(), 1);
}
