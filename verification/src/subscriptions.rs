//! The subscriber registry: validates a registration form, stages a new
//! pending subscription with a fresh confirmation token, composes the
//! confirmation email, and commits the registration only once the email was
//! accepted for sending.

use vstd::prelude::*;
use crate::domain::{
    valid_new_subscriber, valid_subscriber_name, NewSubscriber, SubscriberEmail,
    SubscriberName,
};
use crate::store::{
    is_ascii_alphanumeric_char, valid_token, Store, StoreModel, SubscriberRow, SubscriberRowModel,
    SubscriberStatus, TokenRow, TokenRowModel, TOKEN_LENGTH,
};
use rand::distributions::{Alphanumeric, DistString};

verus! {

use vstd::string::StrSliceExecFns;
use vstd::string::StringExecFns;

/// The registration form as the subscription endpoint receives it.
pub struct FormData {
    pub email: String,
    pub name: String,
}

/// Failure to record a confirmation token.
#[derive(Debug)]
pub struct StoreTokenError;

/// Everything that can go wrong while handling a registration.
#[derive(Debug)]
pub enum SubscribeError {
    ValidationError(String),
    StoreTokenError(StoreTokenError),
    SendEmailError,
    PoolError,
    InsertSubscriberError,
    TransactionCommitError,
}

impl SubscribeError {
    /// The HTTP status the error maps to: bad input is the caller's fault,
    /// everything else is a server fault.
    pub fn status_code(&self) -> (code: u16)
        ensures
            code == (match *self {
                SubscribeError::ValidationError(_) => 400u16,
                _ => 500u16,
            }),
    {
        match self {
            SubscribeError::ValidationError(_) => 400,
            _ => 500,
        }
    }

    /// A short description of the error; only the validation message echoes
    /// caller input.
    pub fn message(&self) -> (r: String)
        ensures
            r@ == (match *self {
                SubscribeError::ValidationError(e) => e@,
                SubscribeError::StoreTokenError(
                    _,
                ) => "Failed to store the confirmation token for a new subscriber."@,
                SubscribeError::SendEmailError => "Failed to send a confirmation email."@,
                SubscribeError::PoolError => "Failed to acquire a Postgres connection from the pool"@,
                SubscribeError::InsertSubscriberError => "Failed to insert new subscriber in the database."@,
                SubscribeError::TransactionCommitError => "Failed to commit SQL transaction to store a new subscriber."@,
            }),
    {
        match self {
            SubscribeError::ValidationError(e) => e.clone(),
            SubscribeError::StoreTokenError(_) => String::from_str(
                "Failed to store the confirmation token for a new subscriber.",
            ),
            SubscribeError::SendEmailError => String::from_str(
                "Failed to send a confirmation email.",
            ),
            SubscribeError::PoolError => String::from_str(
                "Failed to acquire a Postgres connection from the pool",
            ),
            SubscribeError::InsertSubscriberError => String::from_str(
                "Failed to insert new subscriber in the database.",
            ),
            SubscribeError::TransactionCommitError => String::from_str(
                "Failed to commit SQL transaction to store a new subscriber.",
            ),
        }
    }
}

/// Parses the two form fields into a validated registration request.
pub fn parse_new_subscriber(form: FormData) -> (r: Result<NewSubscriber, String>)
    ensures
        r is Ok <==> valid_new_subscriber(form.name@, form.email@),
        r is Ok ==> r->Ok_0.name@ == form.name@ && r->Ok_0.email@ == form.email@,
        r is Err ==> r->Err_0@ == (if !valid_subscriber_name(form.name@) {
            form.name@ + " is not a valid subscriber name."@
        } else {
            form.email@ + " is not a valid subscriber email."@
        }),
{
    let FormData { email, name } = form;
    let name = match SubscriberName::parse(name) {
        Ok(n) => n,
        Err(e) => {
            return Err(e);
        },
    };
    let email = match SubscriberEmail::parse(email) {
        Ok(e) => e,
        Err(e) => {
            return Err(e);
        },
    };
    Ok(NewSubscriber { email, name })
}

/// Relies on rand's `Alphanumeric` distribution through
/// `DistString::sample_string` with `thread_rng`: the sample is one uniformly
/// drawn ASCII letter or digit.
#[verifier::external_body]
fn sample_alphanumeric_char() -> (r: String)
    ensures
        r@.len() == 1,
        is_ascii_alphanumeric_char(r@[0]),
{
    Alphanumeric.sample_string(&mut rand::thread_rng(), 1)
}

/// Draws a fresh 25-character alphanumeric confirmation token.
pub fn generate_subscription_token() -> (t: String)
    ensures
        valid_token(t@),
{
    let mut t = String::new();
    let mut i: usize = 0;
    while i < TOKEN_LENGTH
        invariant
            t@.len() == i,
            0 <= i <= TOKEN_LENGTH,
            forall|j: int| 0 <= j < i ==> is_ascii_alphanumeric_char(#[trigger] t@[j]),
        decreases TOKEN_LENGTH - i,
    {
        let piece = sample_alphanumeric_char();
        t.append(piece.as_str());
        i += 1;
    }
    t
}

/// Relies on `uuid::Uuid::new_v4`, read back through `Uuid::as_u128`, for a
/// fresh random subscriber identifier; nothing is assumed of the drawn value.
#[verifier::external_body]
fn generate_subscriber_id() -> u128 {
    uuid::Uuid::new_v4().as_u128()
}

/// Relies on `chrono::Utc::now`, read back through
/// `DateTime::timestamp_millis`, for the registration timestamp; nothing is
/// assumed of the clock value.
#[verifier::external_body]
fn current_timestamp_millis() -> i64 {
    chrono::Utc::now().timestamp_millis()
}

/// The confirmation message sent to a new subscriber.
pub struct ConfirmationEmail {
    pub subject: String,
    pub html_body: String,
    pub text_body: String,
}

/// The confirmation link embeds the service's base URL and the token.
pub open spec fn confirmation_link(base_url: Seq<char>, token: Seq<char>) -> Seq<char> {
    base_url + "/subscriptions/confirm?subscription_token="@ + token
}

/// The plain-text body of the confirmation email.
pub open spec fn confirmation_text_body(link: Seq<char>) -> Seq<char> {
    "Welcome to our newsletter!\nVisit "@ + link + " to confirm your subscription."@
}

/// The HTML body of the confirmation email.
pub open spec fn confirmation_html_body(link: Seq<char>) -> Seq<char> {
    "Welcome to our newsletter!<br />Click <a href=\""@ + link
        + "\">here</a> to confirm your subscription."@
}

/// Composes the confirmation email for a fresh token.
pub fn confirmation_email(base_url: &str, subscription_token: &str) -> (r: ConfirmationEmail)
    ensures
        r.subject@ == "Welcome!"@,
        r.text_body@ == confirmation_text_body(confirmation_link(base_url@, subscription_token@)),
        r.html_body@ == confirmation_html_body(confirmation_link(base_url@, subscription_token@)),
{
    let mut link = base_url.to_owned();
    link.append("/subscriptions/confirm?subscription_token=");
    link.append(subscription_token);
    let mut text_body = String::from_str("Welcome to our newsletter!\nVisit ");
    text_body.append(link.as_str());
    text_body.append(" to confirm your subscription.");
    let mut html_body = String::from_str("Welcome to our newsletter!<br />Click <a href=\"");
    html_body.append(link.as_str());
    html_body.append("\">here</a> to confirm your subscription.");
    proof {
        assert(text_body@ =~= confirmation_text_body(
            confirmation_link(base_url@, subscription_token@),
        ));
        assert(html_body@ =~= confirmation_html_body(
            confirmation_link(base_url@, subscription_token@),
        ));
    }
    ConfirmationEmail { subject: String::from_str("Welcome!"), html_body, text_body }
}

/// A registration that was validated and staged but not yet committed: the
/// caller sends `email` and then completes the registration with the send's
/// outcome.
pub struct SubscriptionRequest {
    pub new_subscriber: NewSubscriber,
    pub subscriber_id: u128,
    pub subscribed_at: i64,
    pub subscription_token: String,
    pub email: ConfirmationEmail,
}

/// Validates a registration form and stages a new pending subscription:
/// draws a fresh identifier, timestamp and confirmation token, and composes
/// the confirmation email. Nothing is persisted; a malformed form is
/// rejected with no side effect at all.
pub fn subscribe(form: FormData, base_url: &str) -> (r: Result<
    SubscriptionRequest,
    SubscribeError,
>)
    ensures
        r is Ok <==> valid_new_subscriber(form.name@, form.email@),
        r is Ok ==> ({
            let req = r->Ok_0;
            &&& req.new_subscriber.name@ == form.name@
            &&& req.new_subscriber.email@ == form.email@
            &&& valid_token(req.subscription_token@)
            &&& req.email.subject@ == "Welcome!"@
            &&& req.email.text_body@ == confirmation_text_body(
                confirmation_link(base_url@, req.subscription_token@),
            )
            &&& req.email.html_body@ == confirmation_html_body(
                confirmation_link(base_url@, req.subscription_token@),
            )
        }),
        r is Err ==> (r->Err_0 matches SubscribeError::ValidationError(m) && m@ == (
        if !valid_subscriber_name(form.name@) {
            form.name@ + " is not a valid subscriber name."@
        } else {
            form.email@ + " is not a valid subscriber email."@
        })),
{
    let new_subscriber = match parse_new_subscriber(form) {
        Ok(ns) => ns,
        Err(e) => {
            return Err(SubscribeError::ValidationError(e));
        },
    };
    let subscriber_id = generate_subscriber_id();
    let subscribed_at = current_timestamp_millis();
    let subscription_token = generate_subscription_token();
    let email = confirmation_email(base_url, subscription_token.as_str());
    Ok(
        SubscriptionRequest {
            new_subscriber,
            subscriber_id,
            subscribed_at,
            subscription_token,
            email,
        },
    )
}

/// Inserts a new pending subscription row; refused if the identifier is
/// already taken.
pub fn insert_subscriber(
    store: &mut Store,
    subscriber: &NewSubscriber,
    subscriber_id: u128,
    subscribed_at: i64,
) -> (r: Result<(), SubscribeError>)
    requires
        old(store)@.wf(),
    ensures
        final(store)@.wf(),
        old(store)@.has_subscriber_id(subscriber_id) ==> final(store)@ == old(store)@ && r == Err::<
            (),
            SubscribeError,
        >(SubscribeError::InsertSubscriberError),
        !old(store)@.has_subscriber_id(subscriber_id) ==> r is Ok && final(store)@ == (StoreModel {
            subscribers: old(store)@.subscribers.push(
                SubscriberRowModel {
                    id: subscriber_id,
                    email: subscriber.email@,
                    name: subscriber.name@,
                    subscribed_at,
                    status: SubscriberStatus::Pending,
                },
            ),
            ..old(store)@
        }),
{
    if store.contains_subscriber_id(subscriber_id) {
        return Err(SubscribeError::InsertSubscriberError);
    }
    let row = SubscriberRow {
        id: subscriber_id,
        email: String::from_str(subscriber.email.as_str()),
        name: String::from_str(subscriber.name.as_str()),
        subscribed_at,
        status: SubscriberStatus::Pending,
    };
    store.subscribers.push(row);
    proof {
        assert(store@.subscribers =~= old(store)@.subscribers.push(
            SubscriberRowModel {
                id: subscriber_id,
                email: subscriber.email@,
                name: subscriber.name@,
                subscribed_at,
                status: SubscriberStatus::Pending,
            },
        ));
        assert(store@ =~= (StoreModel {
            subscribers: store@.subscribers,
            ..old(store)@
        }));
        assert forall|i: int| 0 <= i < store@.tokens.len() implies store@.has_subscriber_id(
            (#[trigger] store@.tokens[i]).subscriber_id,
        ) by {
            assert(old(store)@.has_subscriber_id(old(store)@.tokens[i].subscriber_id));
            let w = choose|w: int|
                0 <= w < old(store)@.subscribers.len() && old(store)@.subscribers[w].id == old(
                    store,
                )@.tokens[i].subscriber_id;
            assert(store@.subscribers[w].id == store@.tokens[i].subscriber_id);
        }
    }
    Ok(())
}

/// Records a confirmation token for a subscriber; refused if the token is
/// malformed or already present, or if no such subscriber exists.
pub fn store_token(
    store: &mut Store,
    subscriber_id: u128,
    subscription_token: &String,
) -> (r: Result<(), StoreTokenError>)
    requires
        old(store)@.wf(),
    ensures
        final(store)@.wf(),
        ({
            let ok = valid_token(subscription_token@) && !old(store)@.has_token(
                subscription_token@,
            ) && old(store)@.has_subscriber_id(subscriber_id);
            if ok {
                r is Ok && final(store)@ == (StoreModel {
                    tokens: old(store)@.tokens.push(
                        TokenRowModel { token: subscription_token@, subscriber_id },
                    ),
                    ..old(store)@
                })
            } else {
                r is Err && final(store)@ == old(store)@
            }
        }),
{
    if !token_well_formed(subscription_token.as_str()) {
        return Err(StoreTokenError);
    }
    if store.contains_token(subscription_token) {
        return Err(StoreTokenError);
    }
    if !store.contains_subscriber_id(subscriber_id) {
        return Err(StoreTokenError);
    }
    store.tokens.push(
        TokenRow { token: String::from_str(subscription_token.as_str()), subscriber_id },
    );
    proof {
        assert(store@.tokens =~= old(store)@.tokens.push(
            TokenRowModel { token: subscription_token@, subscriber_id },
        ));
        assert(store@ =~= (StoreModel { tokens: store@.tokens, ..old(store)@ }));
        assert forall|i: int| 0 <= i < store@.tokens.len() implies store@.has_subscriber_id(
            (#[trigger] store@.tokens[i]).subscriber_id,
        ) by {
            if i < old(store)@.tokens.len() {
                assert(old(store)@.has_subscriber_id(old(store)@.tokens[i].subscriber_id));
            }
        }
    }
    Ok(())
}

/// Whether a string is a well-formed confirmation token.
pub fn token_well_formed(t: &str) -> (b: bool)
    ensures
        b == valid_token(t@),
{
    let n = t.unicode_len();
    if n != TOKEN_LENGTH {
        return false;
    }
    let mut i: usize = 0;
    while i < n
        invariant
            n == t@.len(),
            0 <= i <= n,
            forall|j: int| 0 <= j < i ==> is_ascii_alphanumeric_char(#[trigger] t@[j]),
        decreases n - i,
    {
        let c = t.get_char(i);
        if !(('0' <= c && c <= '9') || ('A' <= c && c <= 'Z') || ('a' <= c && c <= 'z')) {
            return false;
        }
        i += 1;
    }
    true
}

/// Commits a staged registration once its confirmation email was sent: if
/// the transport did not accept the email, nothing at all is persisted;
/// otherwise exactly one pending subscription row and one token row
/// referencing it are added atomically.
pub fn complete_subscribe(
    store: &mut Store,
    request: SubscriptionRequest,
    email_accepted: bool,
) -> (r: Result<(), SubscribeError>)
    requires
        old(store)@.wf(),
    ensures
        final(store)@.wf(),
        ({
            let m0 = old(store)@;
            if m0.has_subscriber_id(request.subscriber_id) {
                final(store)@ == m0 && r == Err::<(), SubscribeError>(
                    SubscribeError::InsertSubscriberError,
                )
            } else if !valid_token(request.subscription_token@) || m0.has_token(
                request.subscription_token@,
            ) {
                final(store)@ == m0 && r matches Err(SubscribeError::StoreTokenError(_))
            } else if !email_accepted {
                final(store)@ == m0 && r == Err::<(), SubscribeError>(SubscribeError::SendEmailError)
            } else {
                final(store)@ == m0.after_subscribe(
                    request.new_subscriber.name@,
                    request.new_subscriber.email@,
                    request.subscriber_id,
                    request.subscribed_at,
                    request.subscription_token@,
                ) && r is Ok
            }
        }),
{
    if store.contains_subscriber_id(request.subscriber_id) {
        return Err(SubscribeError::InsertSubscriberError);
    }
    if !token_well_formed(request.subscription_token.as_str()) || store.contains_token(
        &request.subscription_token,
    ) {
        return Err(SubscribeError::StoreTokenError(StoreTokenError));
    }
    if !email_accepted {
        return Err(SubscribeError::SendEmailError);
    }
    let ghost m0 = store@;
    if insert_subscriber(
        store,
        &request.new_subscriber,
        request.subscriber_id,
        request.subscribed_at,
    ).is_err() {
        proof {
            assert(false);
        }
        return Err(SubscribeError::InsertSubscriberError);
    }
    proof {
        assert(store@.has_subscriber_id(request.subscriber_id)) by {
            assert(store@.subscribers[store@.subscribers.len() - 1].id == request.subscriber_id);
        }
        assert(!store@.has_token(request.subscription_token@));
    }
    if store_token(store, request.subscriber_id, &request.subscription_token).is_err() {
        proof {
            assert(false);
        }
        return Err(SubscribeError::StoreTokenError(StoreTokenError));
    }
    proof {
        assert(store@ =~= m0.after_subscribe(
            request.new_subscriber.name@,
            request.new_subscriber.email@,
            request.subscriber_id,
            request.subscribed_at,
            request.subscription_token@,
        ));
    }
    Ok(())
}

/// A successful registration creates exactly one new subscription row, with
/// status `Pending`, and exactly one new token row, which references that
/// subscription and no other; every pre-existing row and the user table are
/// left untouched, and the store's invariants are preserved.
pub proof fn lemma_subscribe_registers_once(
    m: StoreModel,
    name: Seq<char>,
    email: Seq<char>,
    id: u128,
    at: i64,
    token: Seq<char>,
)
    requires
        m.wf(),
        !m.has_subscriber_id(id),
        !m.has_token(token),
        valid_token(token),
    ensures
        ({
            let m1 = m.after_subscribe(name, email, id, at, token);
            &&& m1.wf()
            &&& m1.subscribers.len() == m.subscribers.len() + 1
            &&& m1.subscribers[m1.subscribers.len() - 1] == (SubscriberRowModel {
                id,
                email,
                name,
                subscribed_at: at,
                status: SubscriberStatus::Pending,
            })
            &&& forall|i: int|
                0 <= i < m.subscribers.len() ==> m1.subscribers[i] == (
                #[trigger] m.subscribers[i])
            &&& m1.tokens.len() == m.tokens.len() + 1
            &&& m1.tokens[m1.tokens.len() - 1] == (TokenRowModel { token, subscriber_id: id })
            &&& forall|i: int| 0 <= i < m.tokens.len() ==> m1.tokens[i] == (#[trigger] m.tokens[i])
            &&& m1.users == m.users
            &&& m1.token_owner(token) == Some(id)
        }),
{
    let m1 = m.after_subscribe(name, email, id, at, token);
    assert forall|i: int| 0 <= i < m1.tokens.len() implies m1.has_subscriber_id(
        (#[trigger] m1.tokens[i]).subscriber_id,
    ) by {
        if i < m.tokens.len() {
            assert(m.has_subscriber_id(m.tokens[i].subscriber_id));
            let w = choose|w: int|
                0 <= w < m.subscribers.len() && m.subscribers[w].id == m.tokens[i].subscriber_id;
            assert(m1.subscribers[w].id == m1.tokens[i].subscriber_id);
        } else {
            assert(m1.subscribers[m1.subscribers.len() - 1].id == id);
        }
    }
    assert(m1.has_token(token)) by {
        assert(m1.tokens[m1.tokens.len() - 1].token == token);
    }
    let c = choose|c: int| 0 <= c < m1.tokens.len() && m1.tokens[c].token == token;
    if c != m1.tokens.len() - 1 {
        assert(m.tokens[c].token == token);
        assert(false);
    }
}

} // verus!
