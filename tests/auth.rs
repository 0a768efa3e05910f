use kla::{AuthType, Error};

#[test]
fn bearer_is_verbatim() {
    assert_eq!(AuthType::bearer_from_string(" t ".to_string()), AuthType::Bearer(" t ".to_string()));
}

#[test]
fn basic_splits_at_first_colon() {
    assert_eq!(
        AuthType::basic_from_string("alice:secret"),
        Ok(AuthType::Basic { username: "alice".to_string(), password: "secret".to_string() })
    );
    assert_eq!(
        AuthType::basic_from_string("alice:se:cret"),
        Ok(AuthType::Basic { username: "alice".to_string(), password: "se:cret".to_string() })
    );
}

#[test]
fn basic_without_password_or_user_is_refused() {
    assert!(matches!(AuthType::basic_from_string("alice"), Err(Error::InvalidArguments(_))));
    assert!(matches!(AuthType::basic_from_string(":secret"), Err(Error::InvalidArguments(_))));
    assert!(matches!(AuthType::basic_from_string(""), Err(Error::InvalidArguments(_))));
    assert_eq!(
        AuthType::basic_from_string("alice:"),
        Err(Error::InvalidArguments("Invalid basic authentication, no password was provided".to_string()))
    );
    assert_eq!(
        AuthType::basic_from_string(":secret"),
        Err(Error::InvalidArguments("Invalid basic authentication, no username was provided".to_string()))
    );
}
