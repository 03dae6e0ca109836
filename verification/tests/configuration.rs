use loopback_oauth::configuration::{
    configure, is_client_secret_file_name, validate_client_secret, ClientSecret, Installed,
};
use loopback_oauth::error::AuthError;

fn secret(client_id: &str, client_secret: &str) -> ClientSecret {
    ClientSecret {
        installed: Installed {
            client_id: client_id.to_string(),
            client_secret: client_secret.to_string(),
            redirect_uris: vec!["http://localhost".to_string()],
            auth_uri: "https://accounts.google.com/o/oauth2/auth".to_string(),
            token_uri: "https://oauth2.googleapis.com/token".to_string(),
        },
    }
}

#[test]
fn file_names_of_credentials() {
    assert!(is_client_secret_file_name("client_secret.json"));
    assert!(is_client_secret_file_name("client_secret_123-abc.apps.googleusercontent.com.json"));
    assert!(!is_client_secret_file_name("client_secret.json.bak"));
    assert!(!is_client_secret_file_name("my_client_secret.json"));
    assert!(!is_client_secret_file_name("client_secret"));
    assert!(!is_client_secret_file_name(".json"));
    assert!(!is_client_secret_file_name(""));
    assert!(!is_client_secret_file_name("Client_secret.json"));
}

#[test]
fn credentials_with_an_empty_field_are_invalid() {
    assert_eq!(validate_client_secret(secret("id", "secret")), Ok(secret("id", "secret")));
    assert_eq!(validate_client_secret(secret("", "secret")), Err(AuthError::InvalidConfiguration));
    assert_eq!(validate_client_secret(secret("id", "")), Err(AuthError::InvalidConfiguration));
    assert_eq!(validate_client_secret(secret("", "")), Err(AuthError::InvalidConfiguration));
}

#[test]
fn no_candidate_is_an_invalid_configuration() {
    assert_eq!(configure(Vec::new()), Err(AuthError::InvalidConfiguration));
    assert_eq!(configure(vec![None, None]), Err(AuthError::InvalidConfiguration));
    assert_eq!(
        configure(vec![None, Some(secret("", "s")), Some(secret("i", ""))]),
        Err(AuthError::InvalidConfiguration)
    );
}

#[test]
fn first_usable_candidate_is_taken() {
    assert_eq!(configure(vec![Some(secret("a", "b"))]), Ok(secret("a", "b")));
    assert_eq!(
        configure(vec![
            None,
            Some(secret("", "x")),
            Some(secret("first", "1")),
            Some(secret("second", "2")),
            None,
        ]),
        Ok(secret("first", "1"))
    );
    assert_eq!(
        configure(vec![Some(secret("first", "1")), Some(secret("second", "2"))]),
        Ok(secret("first", "1"))
    );
}
