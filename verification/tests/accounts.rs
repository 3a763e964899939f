use royalboard::user::{verify_password, AuthRow, CredentialError, UserDbModel};

fn row(hash: String) -> AuthRow {
    AuthRow {
        user: UserDbModel {
            id: 4,
            name: Some("N".to_string()),
            email: "n@x.y".to_string(),
            remember_token: None,
            phone: None,
            roles: None,
        },
        password_hash: hash,
    }
}

#[test]
fn password_checks() {
    let h = bcrypt::hash("secret", 4).unwrap();
    assert_eq!(verify_password("secret", &h), Ok(true));
    assert_eq!(verify_password("wrong", &h), Ok(false));
    assert_eq!(verify_password("secret", "not-a-hash"), Err(CredentialError::UnusableHash));
}

#[test]
fn login_with_matching_password_yields_the_account() {
    let h = bcrypt::hash("secret", 4).unwrap();
    let u = UserDbModel::check_credentials(Some(row(h.clone())), "secret").unwrap();
    assert_eq!(u.id, 4);
}

#[test]
fn login_with_wrong_password_fails() {
    let h = bcrypt::hash("secret", 4).unwrap();
    assert!(UserDbModel::check_credentials(Some(row(h)), "other").is_none());
}

#[test]
fn login_with_unusable_hash_or_no_row_fails() {
    assert!(UserDbModel::check_credentials(Some(row("plain".to_string())), "plain").is_none());
    assert!(UserDbModel::check_credentials(None, "x").is_none());
}

#[test]
fn accept_checked_follows_the_check() {
    assert!(UserDbModel::accept_checked(Some(row(String::new())), Ok(true)).is_some());
    assert!(UserDbModel::accept_checked(Some(row(String::new())), Ok(false)).is_none());
    assert!(UserDbModel::accept_checked(Some(row(String::new())), Err(CredentialError::UnusableHash)).is_none());
    assert!(UserDbModel::accept_checked(None, Ok(true)).is_none());
}

#[test]
fn remember_token_is_recorded() {
    let mut u = row(String::new()).user;
    u.set_remember_token("remember_1".to_string());
    assert_eq!(u.remember_token.as_deref(), Some("remember_1"));
    assert_eq!(u.id, 4);
}
