use zero2prod::store::{Store, SubscriberStatus};
use zero2prod::subscriptions::{
    complete_subscribe, confirmation_email, generate_subscription_token, insert_subscriber,
    parse_new_subscriber, store_token, subscribe, token_well_formed, FormData, SubscribeError,
};
use zero2prod::subscriptions_confirm::{confirm, Parameters};

fn form(name: &str, email: &str) -> FormData {
    FormData { name: name.to_string(), email: email.to_string() }
}

#[test]
fn token_is_25_alphanumeric_characters() {
    let token = generate_subscription_token();
    assert_eq!(token.chars().count(), 25);
    assert!(token.chars().all(|c| c.is_ascii_alphanumeric()));
    assert!(token_well_formed(&token));
}

#[test]
fn tokens_are_drawn_fresh() {
    let a = generate_subscription_token();
    let b = generate_subscription_token();
    assert_ne!(a, b);
}

#[test]
fn confirmation_email_embeds_the_link() {
    let message = confirmation_email("https://news.example.com", "tok123");
    let link = "https://news.example.com/subscriptions/confirm?subscription_token=tok123";
    assert_eq!(message.subject, "Welcome!");
    assert_eq!(
        message.text_body,
        format!("Welcome to our newsletter!\nVisit {} to confirm your subscription.", link)
    );
    assert_eq!(
        message.html_body,
        format!(
            "Welcome to our newsletter!<br />Click <a href=\"{}\">here</a> to confirm your subscription.",
            link
        )
    );
}

#[test]
fn parse_new_subscriber_checks_both_fields() {
    assert!(parse_new_subscriber(form("Ursula", "ursula@example.com")).is_ok());
    assert!(parse_new_subscriber(form("", "ursula@example.com")).is_err());
    assert!(parse_new_subscriber(form("Ursula", "not-an-email")).is_err());
}

#[test]
fn subscribe_stages_a_valid_registration() {
    let r = subscribe(form("Ursula", "ursula@example.com"), "https://news.example.com");
    let Ok(request) = r else { panic!("a well-formed registration was refused") };
    assert_eq!(request.new_subscriber.name.as_str(), "Ursula");
    assert_eq!(request.new_subscriber.email.as_str(), "ursula@example.com");
    assert!(token_well_formed(&request.subscription_token));
    assert!(request.email.text_body.contains(request.subscription_token.as_str()));
}

#[test]
fn subscribe_rejects_malformed_input_with_400_and_no_store_change() {
    let store = Store::new();
    let r = subscribe(form("", "not-an-email"), "https://news.example.com");
    let Err(e) = r else { panic!("a malformed registration was accepted") };
    assert_eq!(e.status_code(), 400);
    assert!(matches!(e, SubscribeError::ValidationError(_)));
    // Nothing was staged, so the store is exactly as it was.
    assert_eq!(store.subscribers.len(), 0);
    assert_eq!(store.tokens.len(), 0);
}

#[test]
fn refused_email_send_leaves_no_rows_behind() {
    let mut store = Store::new();
    let r = subscribe(form("Ursula", "ursula@example.com"), "https://news.example.com");
    let Ok(request) = r else { panic!("a well-formed registration was refused") };
    let outcome = complete_subscribe(&mut store, request, false);
    assert!(matches!(outcome, Err(SubscribeError::SendEmailError)));
    assert_eq!(store.subscribers.len(), 0);
    assert_eq!(store.tokens.len(), 0);
}

#[test]
fn accepted_email_send_commits_exactly_one_pending_row_and_token() {
    let mut store = Store::new();
    let r = subscribe(form("Ursula", "ursula@example.com"), "https://news.example.com");
    let Ok(request) = r else { panic!("a well-formed registration was refused") };
    let id = request.subscriber_id;
    let token = request.subscription_token.clone();
    let outcome = complete_subscribe(&mut store, request, true);
    assert!(outcome.is_ok());
    assert_eq!(store.subscribers.len(), 1);
    assert_eq!(store.subscribers[0].id, id);
    assert_eq!(store.subscribers[0].email, "ursula@example.com");
    assert_eq!(store.subscribers[0].name, "Ursula");
    assert_eq!(store.subscribers[0].status, SubscriberStatus::Pending);
    assert_eq!(store.tokens.len(), 1);
    assert_eq!(store.tokens[0].token, token);
    assert_eq!(store.tokens[0].subscriber_id, id);
}

#[test]
fn repeated_registration_with_the_same_email_creates_independent_rows() {
    let mut store = Store::new();
    for _ in 0..2 {
        let r = subscribe(form("Ursula", "ursula@example.com"), "https://news.example.com");
        let Ok(request) = r else { panic!("a well-formed registration was refused") };
        complete_subscribe(&mut store, request, true).unwrap();
    }
    assert_eq!(store.subscribers.len(), 2);
    assert_eq!(store.tokens.len(), 2);
    assert_ne!(store.subscribers[0].id, store.subscribers[1].id);
    assert_eq!(store.subscribers[0].email, store.subscribers[1].email);
}

#[test]
fn insert_subscriber_refuses_a_taken_identifier() {
    let mut store = Store::new();
    let subscriber =
        parse_new_subscriber(form("Ursula", "ursula@example.com")).unwrap();
    assert!(insert_subscriber(&mut store, &subscriber, 7, 1000).is_ok());
    let again = insert_subscriber(&mut store, &subscriber, 7, 2000);
    assert!(matches!(again, Err(SubscribeError::InsertSubscriberError)));
    assert_eq!(store.subscribers.len(), 1);
}

#[test]
fn store_token_refuses_duplicates_and_unknown_subscribers() {
    let mut store = Store::new();
    let subscriber =
        parse_new_subscriber(form("Ursula", "ursula@example.com")).unwrap();
    insert_subscriber(&mut store, &subscriber, 7, 1000).unwrap();
    let token = generate_subscription_token();
    assert!(store_token(&mut store, 7, &token).is_ok());
    // Same token again.
    assert!(store_token(&mut store, 7, &token).is_err());
    // Unknown subscriber.
    let other = generate_subscription_token();
    assert!(store_token(&mut store, 8, &other).is_err());
    // Malformed token.
    assert!(store_token(&mut store, 7, &"short".to_string()).is_err());
    assert_eq!(store.tokens.len(), 1);
}

#[test]
fn subscribe_error_reports_its_status_and_message() {
    assert_eq!(SubscribeError::SendEmailError.status_code(), 500);
    assert_eq!(SubscribeError::SendEmailError.message(), "Failed to send a confirmation email.");
    assert_eq!(SubscribeError::PoolError.status_code(), 500);
    assert_eq!(
        SubscribeError::PoolError.message(),
        "Failed to acquire a Postgres connection from the pool"
    );
    assert_eq!(SubscribeError::InsertSubscriberError.status_code(), 500);
    assert_eq!(SubscribeError::TransactionCommitError.status_code(), 500);
    let validation = SubscribeError::ValidationError("bad".to_string());
    assert_eq!(validation.status_code(), 400);
    assert_eq!(validation.message(), "bad");
}

#[test]
fn confirm_flips_exactly_the_referenced_subscriber() {
    let mut store = Store::new();
    for (name, email) in [("Ursula", "ursula@example.com"), ("Arthur", "arthur@example.com")] {
        let r = subscribe(form(name, email), "https://news.example.com");
        let Ok(request) = r else { panic!("a well-formed registration was refused") };
        complete_subscribe(&mut store, request, true).unwrap();
    }
    let token = store.tokens[1].token.clone();
    let r = confirm(&mut store, &Parameters { subscription_token: token });
    assert!(r.is_ok());
    assert_eq!(store.subscribers[0].status, SubscriberStatus::Pending);
    assert_eq!(store.subscribers[1].status, SubscriberStatus::Confirmed);
    assert_eq!(store.tokens.len(), 2);
}

#[test]
fn confirm_is_idempotent() {
    let mut store = Store::new();
    let r = subscribe(form("Ursula", "ursula@example.com"), "https://news.example.com");
    let Ok(request) = r else { panic!("a well-formed registration was refused") };
    let token = request.subscription_token.clone();
    complete_subscribe(&mut store, request, true).unwrap();
    confirm(&mut store, &Parameters { subscription_token: token.clone() }).unwrap();
    assert_eq!(store.subscribers[0].status, SubscriberStatus::Confirmed);
    confirm(&mut store, &Parameters { subscription_token: token }).unwrap();
    assert_eq!(store.subscribers[0].status, SubscriberStatus::Confirmed);
}

#[test]
fn confirm_with_unknown_token_reports_success_and_changes_nothing() {
    let mut store = Store::new();
    let r = subscribe(form("Ursula", "ursula@example.com"), "https://news.example.com");
    let Ok(request) = r else { panic!("a well-formed registration was refused") };
    complete_subscribe(&mut store, request, true).unwrap();
    let r = confirm(
        &mut store,
        &Parameters { subscription_token: "missingmissingmissingmiss".to_string() },
    );
    assert!(r.is_ok());
    assert_eq!(store.subscribers[0].status, SubscriberStatus::Pending);
}
