use argon2::password_hash::{PasswordHasher, SaltString};
use argon2::Argon2;
use zero2prod::newsletters::{
    basic_authentication, get_confirmed_subscribers, publish_newsletter, validate_credentials,
    BodyData, Content, Credentials, PublishError,
};
use zero2prod::store::{Credential, Store, SubscriberRow, SubscriberStatus};

fn hash_of(password: &str) -> String {
    let salt = SaltString::from_b64("c29tZXNhbHRzb21lc2FsdA").unwrap();
    Argon2::default().hash_password(password.as_bytes(), &salt).unwrap().to_string()
}

fn store_with_operator(username: &str, password: &str) -> Store {
    let mut store = Store::new();
    store.users.push(Credential {
        user_id: 42,
        username: username.to_string(),
        password_hash: hash_of(password),
    });
    store
}

fn row(id: u128, email: &str, status: SubscriberStatus) -> SubscriberRow {
    SubscriberRow {
        id,
        email: email.to_string(),
        name: "Subscriber".to_string(),
        subscribed_at: 0,
        status,
    }
}

fn issue() -> BodyData {
    BodyData {
        title: "Issue 1".to_string(),
        content: Content { html: "<p>hi</p>".to_string(), text: "hi".to_string() },
    }
}

fn basic_header(username: &str, password: &str) -> String {
    format!("Basic {}", base64::encode(format!("{}:{}", username, password)))
}

#[test]
fn basic_authentication_decodes_a_well_formed_header() {
    let header = basic_header("operator", "everything has to start somewhere");
    let credentials = basic_authentication(Some(&header)).unwrap();
    assert_eq!(credentials.username, "operator");
    assert_eq!(credentials.password, "everything has to start somewhere");
}

#[test]
fn basic_authentication_keeps_later_colons_in_the_password() {
    let header = format!("Basic {}", base64::encode("user:pa:ss"));
    let credentials = basic_authentication(Some(&header)).unwrap();
    assert_eq!(credentials.username, "user");
    assert_eq!(credentials.password, "pa:ss");
}

#[test]
fn basic_authentication_reports_each_failure() {
    assert_eq!(
        basic_authentication(None).unwrap_err(),
        "The 'Authorization' header was missing"
    );
    let bearer = "Bearer abc".to_string();
    assert_eq!(
        basic_authentication(Some(&bearer)).unwrap_err(),
        "The authorization scheme was not 'Basic'."
    );
    let bad_base64 = "Basic !!!".to_string();
    assert_eq!(
        basic_authentication(Some(&bad_base64)).unwrap_err(),
        "Failed to base64-decode 'Basic' credentials."
    );
    let bad_utf8 = format!("Basic {}", base64::encode([0xffu8, 0xfe, 0xfd]));
    assert_eq!(
        basic_authentication(Some(&bad_utf8)).unwrap_err(),
        "The decoded credential string is not valid UTF8."
    );
    let no_colon = format!("Basic {}", base64::encode("useronly"));
    assert_eq!(
        basic_authentication(Some(&no_colon)).unwrap_err(),
        "A password must be provided in 'Basic' auth."
    );
}

#[test]
fn validate_credentials_accepts_the_right_password() {
    let store = store_with_operator("operator", "correct horse");
    let credentials = Credentials {
        username: "operator".to_string(),
        password: "correct horse".to_string(),
    };
    assert_eq!(validate_credentials(credentials, &store).unwrap(), 42);
}

#[test]
fn validate_credentials_rejects_a_wrong_password() {
    let store = store_with_operator("operator", "correct horse");
    let credentials = Credentials {
        username: "operator".to_string(),
        password: "wrong horse".to_string(),
    };
    let e = validate_credentials(credentials, &store).unwrap_err();
    assert!(matches!(&e, PublishError::AuthError(m) if m == "Invalid password"));
    assert_eq!(e.status_code(), 401);
}

#[test]
fn validate_credentials_rejects_an_unknown_username() {
    let store = store_with_operator("operator", "correct horse");
    let credentials = Credentials {
        username: "stranger".to_string(),
        password: "correct horse".to_string(),
    };
    let e = validate_credentials(credentials, &store).unwrap_err();
    assert!(matches!(&e, PublishError::AuthError(m) if m == "Unknown Username"));
}

#[test]
fn validate_credentials_reports_a_corrupted_stored_hash() {
    let mut store = Store::new();
    store.users.push(Credential {
        user_id: 7,
        username: "operator".to_string(),
        password_hash: "not a phc string".to_string(),
    });
    let credentials = Credentials {
        username: "operator".to_string(),
        password: "anything".to_string(),
    };
    let e = validate_credentials(credentials, &store).unwrap_err();
    assert!(matches!(&e, PublishError::Unexpected(m) if m == "Failed to parse the stored password hash."));
    assert_eq!(e.status_code(), 500);
}

#[test]
fn get_confirmed_subscribers_revalidates_stored_addresses() {
    let mut store = Store::new();
    store.subscribers.push(row(1, "pending@example.com", SubscriberStatus::Pending));
    store.subscribers.push(row(2, "ursula@example.com", SubscriberStatus::Confirmed));
    store.subscribers.push(row(3, "corrupted", SubscriberStatus::Confirmed));
    let entries = get_confirmed_subscribers(&store);
    assert_eq!(entries.len(), 2);
    assert!(matches!(&entries[0], Ok(s) if s.email.as_str() == "ursula@example.com"));
    assert!(entries[1].is_err());
}

#[test]
fn publish_sends_to_every_confirmed_valid_subscriber_and_skips_the_rest() {
    let mut store = store_with_operator("operator", "pw");
    store.subscribers.push(row(1, "pending@example.com", SubscriberStatus::Pending));
    store.subscribers.push(row(2, "first@example.com", SubscriberStatus::Confirmed));
    store.subscribers.push(row(3, "corrupted", SubscriberStatus::Confirmed));
    store.subscribers.push(row(4, "second@example.com", SubscriberStatus::Confirmed));
    let header = basic_header("operator", "pw");
    let (sent, outcome) = publish_newsletter(&store, &issue(), Some(&header), &Vec::new());
    assert!(outcome.is_ok());
    let recipients: Vec<&str> = sent.iter().map(|e| e.as_str()).collect();
    assert_eq!(recipients, vec!["first@example.com", "second@example.com"]);
}

#[test]
fn publish_stops_at_the_first_refused_send() {
    let mut store = store_with_operator("operator", "pw");
    store.subscribers.push(row(1, "first@example.com", SubscriberStatus::Confirmed));
    store.subscribers.push(row(2, "second@example.com", SubscriberStatus::Confirmed));
    store.subscribers.push(row(3, "third@example.com", SubscriberStatus::Confirmed));
    let header = basic_header("operator", "pw");
    let outcomes = vec![true, false, true];
    let (sent, outcome) = publish_newsletter(&store, &issue(), Some(&header), &outcomes);
    let recipients: Vec<&str> = sent.iter().map(|e| e.as_str()).collect();
    assert_eq!(recipients, vec!["first@example.com"]);
    let e = outcome.unwrap_err();
    assert!(matches!(e, PublishError::SendEmailError));
    assert_eq!(e.status_code(), 500);
    assert!(e.www_authenticate().is_none());
}

#[test]
fn publish_without_authorization_is_401_with_a_challenge() {
    let mut store = store_with_operator("operator", "pw");
    store.subscribers.push(row(1, "ursula@example.com", SubscriberStatus::Confirmed));
    let (sent, outcome) = publish_newsletter(&store, &issue(), None, &Vec::new());
    assert_eq!(sent.len(), 0);
    let e = outcome.unwrap_err();
    assert_eq!(e.status_code(), 401);
    assert_eq!(e.www_authenticate().unwrap(), "Basic realm=\"publish\"");
    assert_eq!(e.message(), "The 'Authorization' header was missing");
}

#[test]
fn publish_with_a_wrong_password_sends_nothing() {
    let mut store = store_with_operator("operator", "pw");
    store.subscribers.push(row(1, "ursula@example.com", SubscriberStatus::Confirmed));
    let header = basic_header("operator", "not the password");
    let (sent, outcome) = publish_newsletter(&store, &issue(), Some(&header), &Vec::new());
    assert_eq!(sent.len(), 0);
    let e = outcome.unwrap_err();
    assert_eq!(e.status_code(), 401);
    assert_eq!(e.www_authenticate().unwrap(), "Basic realm=\"publish\"");
}
