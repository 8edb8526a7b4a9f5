//! The newsletter dispatcher: authenticates the caller through HTTP Basic
//! credentials checked against a stored memory-hard hash, loads the
//! confirmed subscribers, and fans the issue out to them one by one,
//! stopping at the first transport failure.

use vstd::prelude::*;
use crate::domain::{valid_email, SubscriberEmail};
use crate::store::{Credential, CredentialModel, Store, StoreModel, SubscriberRowModel};
use argon2::PasswordVerifier;

verus! {

use vstd::string::StrSliceExecFns;
use vstd::string::StringExecFns;
use vstd::utf8::valid_utf8;
use vstd::utf8::decode_utf8;

/// A newsletter issue as the publishing endpoint receives it.
pub struct BodyData {
    pub title: String,
    pub content: Content,
}

/// The two renderings of a newsletter issue.
pub struct Content {
    pub html: String,
    pub text: String,
}

/// A confirmed subscriber whose stored address passed re-validation.
pub struct ConfirmedSubscriber {
    pub email: SubscriberEmail,
}

/// Everything that can go wrong while publishing an issue.
#[derive(Debug)]
pub enum PublishError {
    GetSubscriberError,
    SendEmailError,
    AuthError(String),
    Unexpected(String),
}

impl PublishError {
    /// The HTTP status the error maps to: missing or bad credentials are the
    /// caller's fault, everything else is a server fault.
    pub fn status_code(&self) -> (code: u16)
        ensures
            code == (match *self {
                PublishError::AuthError(_) => 401u16,
                _ => 500u16,
            }),
    {
        match self {
            PublishError::AuthError(_) => 401,
            _ => 500,
        }
    }

    /// The challenge header that accompanies an authentication failure.
    pub fn www_authenticate(&self) -> (r: Option<String>)
        ensures
            r is Some <==> self matches PublishError::AuthError(_),
            r matches Some(v) ==> v@ == "Basic realm=\"publish\""@,
    {
        match self {
            PublishError::AuthError(_) => Some(String::from_str("Basic realm=\"publish\"")),
            _ => None,
        }
    }

    /// A short description of the error; only the authentication message
    /// echoes caller-facing detail.
    pub fn message(&self) -> (r: String)
        ensures
            r@ == (match *self {
                PublishError::GetSubscriberError => "Failed to get subscribers in the database."@,
                PublishError::SendEmailError => "Failed to send a confirmation email."@,
                PublishError::AuthError(e) => e@,
                PublishError::Unexpected(e) => e@,
            }),
    {
        match self {
            PublishError::GetSubscriberError => String::from_str(
                "Failed to get subscribers in the database.",
            ),
            PublishError::SendEmailError => String::from_str("Failed to send a confirmation email."),
            PublishError::AuthError(e) => e.clone(),
            PublishError::Unexpected(e) => e.clone(),
        }
    }
}

/// A username and password taken from an Authorization header.
#[derive(Debug)]
pub struct Credentials {
    pub username: String,
    pub password: String,
}

/// What the standard-alphabet base64 decoding of a string yields, if it
/// decodes at all.
pub uninterp spec fn base64_decoding(s: Seq<char>) -> Option<Seq<u8>>;

/// Whether a stored password hash parses as a PHC string.
pub uninterp spec fn phc_hash_parses(hash: Seq<char>) -> bool;

/// Whether a password matches a stored PHC hash under Argon2 verification.
pub uninterp spec fn argon2_verifies(hash: Seq<char>, password: Seq<char>) -> bool;

/// Relies on `base64::decode_config` with the standard alphabet: whether the
/// input decodes, and to which bytes, depends on its characters alone.
#[verifier::external_body]
fn base64_decode_standard(segment: &str) -> (r: Option<Vec<u8>>)
    ensures
        r is Some <==> base64_decoding(segment@) is Some,
        r matches Some(bytes) ==> bytes@ == base64_decoding(segment@)->0,
{
    match base64::decode_config(segment, base64::STANDARD) {
        Ok(bytes) => Some(bytes),
        Err(_) => None,
    }
}

/// Relies on `String::from_utf8` as std documents it: it succeeds exactly on
/// valid UTF-8 input and returns the characters that input encodes.
#[verifier::external_body]
fn utf8_string(bytes: Vec<u8>) -> (r: Option<String>)
    ensures
        r is Some <==> valid_utf8(bytes@),
        r matches Some(s) ==> s@ == decode_utf8(bytes@),
{
    match String::from_utf8(bytes) {
        Ok(s) => Some(s),
        Err(_) => None,
    }
}

/// Outcome of checking a password against a stored hash.
enum PasswordCheck {
    InvalidHash,
    Verified,
    Rejected,
}

/// Relies on `argon2::PasswordHash::new` and Argon2's
/// `PasswordVerifier::verify_password`: whether a PHC string parses, and
/// whether a password matches it, depend on the two strings alone, since
/// the PHC string embeds the algorithm, the salt and the cost parameters.
#[verifier::external_body]
fn check_password(stored_hash: &str, password: &str) -> (r: PasswordCheck)
    ensures
        r == (if !phc_hash_parses(stored_hash@) {
            PasswordCheck::InvalidHash
        } else if argon2_verifies(stored_hash@, password@) {
            PasswordCheck::Verified
        } else {
            PasswordCheck::Rejected
        }),
{
    match argon2::PasswordHash::new(stored_hash) {
        Err(_) => PasswordCheck::InvalidHash,
        Ok(parsed) => match argon2::Argon2::default().verify_password(
            password.as_bytes(),
            &parsed,
        ) {
            Ok(()) => PasswordCheck::Verified,
            Err(_) => PasswordCheck::Rejected,
        },
    }
}

/// The first `:` of the decoded credential string stands at position `k`.
pub open spec fn found_colon_at(s: Seq<char>, k: int) -> bool {
    &&& 0 <= k < s.len()
    &&& s[k] == ':'
    &&& forall|j: int| 0 <= j < k ==> s[j] != ':'
}

/// What decoding an Authorization header yields: a username and password on
/// success, the error message otherwise.
pub open spec fn basic_auth_spec(authorization: Option<Seq<char>>) -> Result<
    (Seq<char>, Seq<char>),
    Seq<char>,
> {
    match authorization {
        None => Err("The 'Authorization' header was missing"@),
        Some(h) => {
            if !(h.len() >= 6 && h.subrange(0, 6) == "Basic "@) {
                Err("The authorization scheme was not 'Basic'."@)
            } else {
                match base64_decoding(h.skip(6)) {
                    None => Err("Failed to base64-decode 'Basic' credentials."@),
                    Some(bytes) => {
                        if !valid_utf8(bytes) {
                            Err("The decoded credential string is not valid UTF8."@)
                        } else {
                            let s = decode_utf8(bytes);
                            if exists|k: int| found_colon_at(s, k) {
                                let k = choose|k: int| found_colon_at(s, k);
                                Ok((s.take(k), s.skip(k + 1)))
                            } else {
                                Err("A password must be provided in 'Basic' auth."@)
                            }
                        }
                    },
                }
            }
        },
    }
}

/// The view of an optional header value.
pub open spec fn header_view(authorization: Option<&String>) -> Option<Seq<char>> {
    match authorization {
        Some(h) => Some(h@),
        None => None,
    }
}

fn str_starts_with(s: &str, prefix: &str) -> (b: bool)
    ensures
        b == (s@.len() >= prefix@.len() && s@.subrange(0, prefix@.len() as int) == prefix@),
{
    let n = prefix.unicode_len();
    if s.unicode_len() < n {
        return false;
    }
    let mut i: usize = 0;
    while i < n
        invariant
            n == prefix@.len(),
            s@.len() >= n,
            0 <= i <= n,
            forall|j: int| 0 <= j < i ==> s@[j] == prefix@[j],
        decreases n - i,
    {
        if s.get_char(i) != prefix.get_char(i) {
            proof {
                assert(s@.subrange(0, n as int)[i as int] != prefix@[i as int]);
            }
            return false;
        }
        i += 1;
    }
    proof {
        assert(s@.subrange(0, n as int) =~= prefix@);
    }
    true
}

/// Takes a username and password out of an `Authorization: Basic` header
/// value: the payload must be standard base64 of a UTF-8 string with a `:`
/// between username and password.
#[verifier::loop_isolation(false)]
pub fn basic_authentication(authorization: Option<&String>) -> (r: Result<Credentials, String>)
    ensures
        r is Ok <==> basic_auth_spec(header_view(authorization)) is Ok,
        r matches Ok(c) ==> c.username@ == basic_auth_spec(header_view(authorization))->Ok_0.0
            && c.password@ == basic_auth_spec(header_view(authorization))->Ok_0.1,
        r matches Err(m) ==> m@ == basic_auth_spec(header_view(authorization))->Err_0,
{
    let h = match authorization {
        None => {
            return Err(String::from_str("The 'Authorization' header was missing"));
        },
        Some(h) => h,
    };
    if !str_starts_with(h.as_str(), "Basic ") {
        proof {
            reveal_strlit("Basic ");
        }
        return Err(String::from_str("The authorization scheme was not 'Basic'."));
    }
    proof {
        reveal_strlit("Basic ");
    }
    let segment = h.as_str().substring_char(6, h.as_str().unicode_len());
    proof {
        assert(segment@ =~= h@.skip(6));
    }
    let bytes = match base64_decode_standard(segment) {
        None => {
            return Err(String::from_str("Failed to base64-decode 'Basic' credentials."));
        },
        Some(bytes) => bytes,
    };
    let ghost bytes_view = bytes@;
    let decoded = match utf8_string(bytes) {
        None => {
            return Err(String::from_str("The decoded credential string is not valid UTF8."));
        },
        Some(s) => s,
    };
    let n = decoded.as_str().unicode_len();
    let mut i: usize = 0;
    while i < n
        invariant
            n == decoded@.len(),
            0 <= i <= n,
            forall|j: int| 0 <= j < i ==> decoded@[j] != ':',
        decreases n - i,
    {
        if decoded.as_str().get_char(i) == ':' {
            proof {
                assert(found_colon_at(decoded@, i as int));
                let k = choose|k: int| found_colon_at(decoded@, k);
                if k != i as int {
                    assert(decoded@[k] == ':');
                    assert(false);
                }
                assert(decoded@.subrange(0, i as int) =~= decoded@.take(i as int));
                assert(decoded@.subrange(i + 1, n as int) =~= decoded@.skip(i + 1));
            }
            let username = String::from_str(decoded.as_str().substring_char(0, i));
            let password = String::from_str(decoded.as_str().substring_char(i + 1, n));
            return Ok(Credentials { username, password });
        }
        i += 1;
    }
    proof {
        if exists|k: int| found_colon_at(decoded@, k) {
            let k = choose|k: int| found_colon_at(decoded@, k);
            assert(decoded@[k] == ':');
            assert(false);
        }
    }
    Err(String::from_str("A password must be provided in 'Basic' auth."))
}

/// The credential at position `k` is the first whose username matches.
pub open spec fn found_user_at(users: Seq<CredentialModel>, username: Seq<char>, k: int) -> bool {
    &&& 0 <= k < users.len()
    &&& users[k].username == username
    &&& forall|j: int| 0 <= j < k ==> (#[trigger] users[j]).username != username
}

/// Some stored credential carries this username.
pub open spec fn user_exists(users: Seq<CredentialModel>, username: Seq<char>) -> bool {
    exists|k: int| found_user_at(users, username, k)
}

/// The first stored credential carrying this username.
pub open spec fn matching_user(users: Seq<CredentialModel>, username: Seq<char>) -> CredentialModel {
    users[choose|k: int| found_user_at(users, username, k)]
}

/// Credential validation succeeds: the username is known, its stored hash
/// parses, and the password matches.
pub open spec fn validate_succeeds(
    users: Seq<CredentialModel>,
    username: Seq<char>,
    password: Seq<char>,
) -> bool {
    &&& user_exists(users, username)
    &&& phc_hash_parses(matching_user(users, username).password_hash)
    &&& argon2_verifies(matching_user(users, username).password_hash, password)
}

/// `r` is exactly what credential validation decides for this username and
/// password against these stored credentials.
pub open spec fn validate_outcome_matches(
    users: Seq<CredentialModel>,
    username: Seq<char>,
    password: Seq<char>,
    r: Result<u128, PublishError>,
) -> bool {
    if !user_exists(users, username) {
        r matches Err(PublishError::AuthError(m)) && m@ == "Unknown Username"@
    } else {
        let u = matching_user(users, username);
        if !phc_hash_parses(u.password_hash) {
            r matches Err(PublishError::Unexpected(m)) && m@
                == "Failed to parse the stored password hash."@
        } else if argon2_verifies(u.password_hash, password) {
            r == Ok::<u128, PublishError>(u.user_id)
        } else {
            r matches Err(PublishError::AuthError(m)) && m@ == "Invalid password"@
        }
    }
}

/// `e` is exactly the failure that credential validation decides on for
/// this username and password; false when validation would succeed.
pub open spec fn validate_failure_matches(
    users: Seq<CredentialModel>,
    username: Seq<char>,
    password: Seq<char>,
    e: PublishError,
) -> bool {
    if !user_exists(users, username) {
        e matches PublishError::AuthError(m) && m@ == "Unknown Username"@
    } else {
        let u = matching_user(users, username);
        if !phc_hash_parses(u.password_hash) {
            e matches PublishError::Unexpected(m) && m@
                == "Failed to parse the stored password hash."@
        } else if argon2_verifies(u.password_hash, password) {
            false
        } else {
            e matches PublishError::AuthError(m) && m@ == "Invalid password"@
        }
    }
}

/// Checks the offered username and password against the stored credentials.
/// When the username is unknown, a verification against a fixed placeholder
/// hash is still performed, so that the failure takes as long as a
/// verification against a stored hash would.
pub fn validate_credentials(credentials: Credentials, store: &Store) -> (r: Result<
    u128,
    PublishError,
>)
    ensures
        validate_outcome_matches(store@.users, credentials.username@, credentials.password@, r),
        r is Ok <==> validate_succeeds(
            store@.users,
            credentials.username@,
            credentials.password@,
        ),
{
    let n = store.users.len();
    let mut i: usize = 0;
    while i < n
        invariant
            n == store.users.len(),
            0 <= i <= n,
            forall|j: int| 0 <= j < i ==> (#[trigger] store@.users[j]).username
                != credentials.username@,
        decreases n - i,
    {
        if store.users[i].username == credentials.username {
            proof {
                assert(store@.users[i as int].username == credentials.username@);
                assert(found_user_at(store@.users, credentials.username@, i as int));
                let k = choose|k: int|
                    found_user_at(store@.users, credentials.username@, k);
                if k != i as int {
                    assert(store@.users[k].username == credentials.username@);
                    assert(false);
                }
            }
            match check_password(store.users[i].password_hash.as_str(), credentials.password.as_str()) {
                PasswordCheck::InvalidHash => {
                    return Err(
                        PublishError::Unexpected(
                            String::from_str("Failed to parse the stored password hash."),
                        ),
                    );
                },
                PasswordCheck::Verified => {
                    return Ok(store.users[i].user_id);
                },
                PasswordCheck::Rejected => {
                    return Err(PublishError::AuthError(String::from_str("Invalid password")));
                },
            }
        }
        i += 1;
    }
    proof {
        if user_exists(store@.users, credentials.username@) {
            let k = choose|k: int| found_user_at(store@.users, credentials.username@, k);
            assert(store@.users[k].username == credentials.username@);
            assert(false);
        }
    }
    let placeholder =
        "$argon2id$v=19$m=19456,t=2,p=1$c29tZXNhbHRzb21lc2FsdA$eHh4eHh4eHh4eHh4eHh4eHh4eHh4eHh4eHh4eHh4eHg";
    let _ = check_password(placeholder, credentials.password.as_str());
    Err(PublishError::AuthError(String::from_str("Unknown Username")))
}

/// A row whose subscription was confirmed.
pub open spec fn is_confirmed(s: SubscriberRowModel) -> bool {
    s.status == crate::store::SubscriberStatus::Confirmed
}

/// A row whose stored address still passes validation.
pub open spec fn is_deliverable(s: SubscriberRowModel) -> bool {
    valid_email(s.email)
}

/// The confirmed subscription rows, in store order.
pub open spec fn confirmed_rows(m: StoreModel) -> Seq<SubscriberRowModel> {
    m.subscribers.filter(|s: SubscriberRowModel| is_confirmed(s))
}

/// The confirmed rows whose stored address is still valid, in store order.
pub open spec fn eligible_rows(m: StoreModel) -> Seq<SubscriberRowModel> {
    confirmed_rows(m).filter(|s: SubscriberRowModel| is_deliverable(s))
}

/// The dispatch plan: the addresses an issue goes out to, in store order.
pub open spec fn eligible_emails(m: StoreModel) -> Seq<Seq<char>> {
    eligible_rows(m).map_values(|s: SubscriberRowModel| s.email)
}

/// The addresses of a dispatched batch.
pub open spec fn email_views(v: Seq<SubscriberEmail>) -> Seq<Seq<char>> {
    v.map_values(|e: SubscriberEmail| e@)
}

/// Whether the transport accepts send number `j`; a send past the end of
/// the recorded outcomes counts as accepted.
pub open spec fn outcome_ok(outcomes: Seq<bool>, j: int) -> bool {
    j >= outcomes.len() || outcomes[j]
}

proof fn lemma_filter_one<A>(s: Seq<A>, x: A, pred: spec_fn(A) -> bool)
    ensures
        s.push(x).filter(pred) == (if pred(x) {
            s.filter(pred).push(x)
        } else {
            s.filter(pred)
        }),
{
    reveal(Seq::filter);
    assert(s.push(x).drop_last() =~= s);
    assert(s.push(x).last() == x);
}

proof fn lemma_filter_member<A>(s: Seq<A>, pred: spec_fn(A) -> bool, x: A)
    requires
        s.filter(pred).contains(x),
    ensures
        s.contains(x),
        pred(x),
    decreases s.len(),
{
    reveal(Seq::filter);
    if s.len() > 0 {
        if pred(s.last()) && x == s.last() {
            assert(s[s.len() - 1] == x);
        } else {
            let f = s.drop_last().filter(pred);
            if pred(s.last()) {
                assert(s.filter(pred) == f.push(s.last()));
                let j = choose|j: int|
                    0 <= j < s.filter(pred).len() && s.filter(pred)[j] == x;
                assert(f[j] == x);
            }
            lemma_filter_member(s.drop_last(), pred, x);
            let w = choose|w: int| 0 <= w < s.drop_last().len() && s.drop_last()[w] == x;
            assert(s[w] == x);
        }
    }
}

/// Loads every confirmed subscriber and re-validates its stored address:
/// one entry per confirmed row, in store order, holding the validated
/// address or the validation message of a corrupted one.
#[verifier::loop_isolation(false)]
pub fn get_confirmed_subscribers(store: &Store) -> (r: Vec<Result<ConfirmedSubscriber, String>>)
    ensures
        r@.len() == confirmed_rows(store@).len(),
        forall|i: int|
            0 <= i < r@.len() ==> ((#[trigger] r@[i]) is Ok <==> valid_email(
                confirmed_rows(store@)[i].email,
            )),
        forall|i: int|
            0 <= i < r@.len() && r@[i] is Ok ==> (#[trigger] r@[i])->Ok_0.email@ == confirmed_rows(
                store@,
            )[i].email,
        forall|i: int|
            0 <= i < r@.len() && r@[i] is Err ==> (#[trigger] r@[i])->Err_0@ == confirmed_rows(
                store@,
            )[i].email + " is not a valid subscriber email."@,
{
    let n = store.subscribers.len();
    let mut r: Vec<Result<ConfirmedSubscriber, String>> = Vec::new();
    let mut i: usize = 0;
    while i < n
        invariant
            0 <= i <= n,
            n == store.subscribers.len(),
            r@.len() == confirmed_prefix(store@, i as int).len(),
            forall|j: int|
                0 <= j < r@.len() ==> ((#[trigger] r@[j]) is Ok <==> valid_email(
                    confirmed_prefix(store@, i as int)[j].email,
                )),
            forall|j: int|
                0 <= j < r@.len() && r@[j] is Ok ==> (#[trigger] r@[j])->Ok_0.email@
                    == confirmed_prefix(store@, i as int)[j].email,
            forall|j: int|
                0 <= j < r@.len() && r@[j] is Err ==> (#[trigger] r@[j])->Err_0@
                    == confirmed_prefix(store@, i as int)[j].email
                    + " is not a valid subscriber email."@,
        decreases n - i,
    {
        let ghost prev = confirmed_prefix(store@, i as int);
        let ghost row = store@.subscribers[i as int];
        proof {
            assert(store@.subscribers.take(i + 1) =~= store@.subscribers.take(i as int).push(row));
            lemma_filter_one(
                store@.subscribers.take(i as int),
                row,
                |s: SubscriberRowModel| is_confirmed(s),
            );
        }
        match store.subscribers[i].status {
            crate::store::SubscriberStatus::Confirmed => {
                match SubscriberEmail::parse(String::from_str(store.subscribers[i].email.as_str())) {
                    Ok(email) => {
                        r.push(Ok(ConfirmedSubscriber { email }));
                    },
                    Err(message) => {
                        r.push(Err(message));
                    },
                }
                proof {
                    assert(confirmed_prefix(store@, i + 1) =~= prev.push(row));
                }
            },
            crate::store::SubscriberStatus::Pending => {
                proof {
                    assert(confirmed_prefix(store@, i + 1) =~= prev);
                }
            },
        }
        i += 1;
    }
    proof {
        assert(store@.subscribers.take(n as int) =~= store@.subscribers);
        assert(confirmed_prefix(store@, n as int) =~= confirmed_rows(store@));
    }
    r
}

/// The confirmed rows among the first `i` subscription rows.
spec fn confirmed_prefix(m: StoreModel, i: int) -> Seq<SubscriberRowModel> {
    m.subscribers.take(i).filter(|s: SubscriberRowModel| is_confirmed(s))
}

/// The addresses among the first `i` confirmed rows that an issue goes out
/// to.
spec fn eligible_prefix(m: StoreModel, i: int) -> Seq<Seq<char>> {
    confirmed_rows(m).take(i).filter(|s: SubscriberRowModel| is_deliverable(s)).map_values(
        |s: SubscriberRowModel| s.email,
    )
}

/// Publishes an issue: authenticates the caller, loads the confirmed
/// subscribers, skips any whose stored address no longer validates, and
/// dispatches to the rest one by one, in store order, stopping at the first
/// send the transport refuses. Entry `j` of `transport_accepts` records
/// whether the transport accepted send number `j`; sends past the end of
/// the record count as accepted. Returns the addresses dispatched to, in
/// order, beside the outcome.
#[verifier::loop_isolation(false)]
pub fn publish_newsletter(
    store: &Store,
    body: &BodyData,
    authorization: Option<&String>,
    transport_accepts: &Vec<bool>,
) -> (r: (Vec<SubscriberEmail>, Result<(), PublishError>))
    ensures
        ({
            let auth = basic_auth_spec(header_view(authorization));
            &&& auth matches Err(m) ==> r.0@ == Seq::<SubscriberEmail>::empty() && (
            r.1 matches Err(PublishError::AuthError(mm)) && mm@ == m)
            &&& auth matches Ok(up) ==> ({
                if !validate_succeeds(store@.users, up.0, up.1) {
                    r.0@ == Seq::<SubscriberEmail>::empty() && (r.1 matches Err(e)
                        && validate_failure_matches(store@.users, up.0, up.1, e))
                } else {
                    let eligible = eligible_emails(store@);
                    let k = r.0@.len() as int;
                    &&& k <= eligible.len()
                    &&& email_views(r.0@) == eligible.take(k)
                    &&& forall|j: int| 0 <= j < k ==> outcome_ok(transport_accepts@, j)
                    &&& if k == eligible.len() {
                        r.1 is Ok
                    } else {
                        !outcome_ok(transport_accepts@, k) && r.1 == Err::<(), PublishError>(
                            PublishError::SendEmailError,
                        )
                    }
                }
            })
        }),
{
    let credentials = match basic_authentication(authorization) {
        Err(m) => {
            return (Vec::new(), Err(PublishError::AuthError(m)));
        },
        Ok(c) => c,
    };
    let ghost uname = credentials.username@;
    let ghost pw = credentials.password@;
    match validate_credentials(credentials, store) {
        Err(e) => {
            return (Vec::new(), Err(e));
        },
        Ok(_user_id) => {},
    }
    let subscribers = get_confirmed_subscribers(store);
    let mut sent: Vec<SubscriberEmail> = Vec::new();
    let n = subscribers.len();
    let mut i: usize = 0;
    while i < n
        invariant
            0 <= i <= n,
            n == confirmed_rows(store@).len(),
            sent@.len() <= i,
            email_views(sent@) == eligible_prefix(store@, i as int),
            forall|j: int| 0 <= j < sent@.len() ==> outcome_ok(transport_accepts@, j),
        decreases n - i,
    {
        let ghost prev = eligible_prefix(store@, i as int);
        let ghost row = confirmed_rows(store@)[i as int];
        proof {
            assert(confirmed_rows(store@).take(i + 1) =~= confirmed_rows(store@).take(
                i as int,
            ).push(row));
            lemma_filter_one(
                confirmed_rows(store@).take(i as int),
                row,
                |s: SubscriberRowModel| is_deliverable(s),
            );
        }
        match &subscribers[i] {
            Ok(subscriber) => {
                let idx = sent.len();
                let accepted = if idx < transport_accepts.len() {
                    transport_accepts[idx]
                } else {
                    true
                };
                if !accepted {
                    proof {
                        lemma_eligible_prefix_is_plan_prefix(store@, i as int);
                        let c = confirmed_rows(store@);
                        let d = (|s: SubscriberRowModel| is_deliverable(s));
                        assert(valid_email(row.email));
                        assert(c.skip(i as int)[0] == row);
                        c.skip(i as int).lemma_filter_contains(d, 0);
                        Seq::filter_distributes_over_add(c.take(i as int), c.skip(i as int), d);
                        assert(c.take(i as int) + c.skip(i as int) =~= c);
                        assert(eligible_rows(store@) == c.take(i as int).filter(d) + c.skip(
                            i as int,
                        ).filter(d));
                        assert(c.skip(i as int).filter(d).len() > 0);
                        assert(sent@.len() < eligible_emails(store@).len());
                    }
                    return (sent, Err(PublishError::SendEmailError));
                }
                sent.push(subscriber.email.duplicate());
                proof {
                    assert(subscribers@[i as int] is Ok);
                    assert(valid_email(row.email));
                    assert(subscriber.email@ == row.email);
                    assert(confirmed_rows(store@).take(i as int).push(row).filter(
                        |s: SubscriberRowModel| is_deliverable(s),
                    ) == confirmed_rows(store@).take(i as int).filter(
                        |s: SubscriberRowModel| is_deliverable(s),
                    ).push(row));
                    assert(eligible_prefix(store@, i + 1) =~= prev.push(row.email));
                    assert(email_views(sent@) =~= prev.push(subscriber.email@));
                    assert(email_views(sent@) =~= eligible_prefix(store@, i + 1));
                }
            },
            Err(_) => {
                proof {
                    assert(eligible_prefix(store@, i + 1) =~= prev);
                }
            },
        }
        i += 1;
    }
    proof {
        assert(confirmed_rows(store@).take(n as int) =~= confirmed_rows(store@));
        assert(eligible_prefix(store@, n as int) =~= eligible_emails(store@));
        assert(email_views(sent@).len() == sent@.len());
        assert(eligible_emails(store@).take(sent@.len() as int) =~= eligible_emails(store@));
    }
    (sent, Ok(()))
}

/// What was dispatched before position `i` of the confirmed rows is a
/// prefix of the whole dispatch plan.
proof fn lemma_eligible_prefix_is_plan_prefix(m: StoreModel, i: int)
    requires
        0 <= i <= confirmed_rows(m).len(),
    ensures
        eligible_prefix(m, i).len() <= eligible_emails(m).len(),
        eligible_emails(m).take(eligible_prefix(m, i).len() as int) == eligible_prefix(m, i),
{
    let c = confirmed_rows(m);
    let pred = (|s: SubscriberRowModel| is_deliverable(s));
    Seq::filter_distributes_over_add(c.take(i), c.skip(i), pred);
    assert(c.take(i) + c.skip(i) =~= c);
    assert(eligible_rows(m) == c.take(i).filter(pred) + c.skip(i).filter(pred));
    let k = eligible_prefix(m, i).len() as int;
    assert(eligible_emails(m).take(k) =~= eligible_prefix(m, i));
}

/// Entry `j` of the dispatch plan is the address of a row of the store that
/// is confirmed and still carries a valid address.
pub open spec fn plan_entry_sound(m: StoreModel, j: int) -> bool {
    &&& eligible_emails(m)[j] == eligible_rows(m)[j].email
    &&& m.subscribers.contains(eligible_rows(m)[j])
    &&& eligible_rows(m)[j].status == crate::store::SubscriberStatus::Confirmed
    &&& valid_email(eligible_rows(m)[j].email)
}

/// Exactly the confirmed subscribers with a valid stored address are in the
/// dispatch plan: each such row's address appears in it, and every entry of
/// it is such a row's address, so a pending subscriber or one with a
/// corrupted stored address contributes nothing.
pub proof fn lemma_eligible_recipients(m: StoreModel)
    ensures
        forall|i: int|
            0 <= i < m.subscribers.len() && (#[trigger] m.subscribers[i]).status
                == crate::store::SubscriberStatus::Confirmed && valid_email(
                m.subscribers[i].email,
            ) ==> eligible_emails(m).contains(m.subscribers[i].email),
        forall|j: int| 0 <= j < eligible_emails(m).len() ==> #[trigger] plan_entry_sound(m, j),
{
    broadcast use vstd::seq_lib::group_filter_ensures;

    let cpred = (|s: SubscriberRowModel| is_confirmed(s));
    let dpred = (|s: SubscriberRowModel| is_deliverable(s));
    assert forall|i: int|
        0 <= i < m.subscribers.len() && (#[trigger] m.subscribers[i]).status
            == crate::store::SubscriberStatus::Confirmed && valid_email(
            m.subscribers[i].email,
        ) implies eligible_emails(m).contains(m.subscribers[i].email) by {
        let row = m.subscribers[i];
        assert(cpred(row));
        assert(confirmed_rows(m).contains(row));
        let a = choose|a: int| 0 <= a < confirmed_rows(m).len() && confirmed_rows(m)[a] == row;
        assert(dpred(row));
        assert(eligible_rows(m).contains(row));
        let b = choose|b: int| 0 <= b < eligible_rows(m).len() && eligible_rows(m)[b] == row;
        assert(eligible_emails(m)[b] == row.email);
    }
    assert forall|j: int| 0 <= j < eligible_emails(m).len() implies #[trigger] plan_entry_sound(
        m,
        j,
    ) by {
        let row = eligible_rows(m)[j];
        assert(eligible_rows(m).contains(row));
        lemma_filter_member(confirmed_rows(m), dpred, row);
        lemma_filter_member(m.subscribers, cpred, row);
    }
}

} // verus!
