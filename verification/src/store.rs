//! In-memory image of the transactional row store that the service keeps its
//! state in: subscription rows, confirmation-token rows and operator
//! credentials, together with the invariants the store upholds.

use vstd::prelude::*;

verus! {

/// Lifecycle state of a subscription; the transition is one-directional,
/// from `Pending` to `Confirmed`.
#[derive(Clone, Copy, PartialEq, Eq, Structural, Debug)]
pub enum SubscriberStatus {
    Pending,
    Confirmed,
}

/// One row of the subscriptions table.
pub struct SubscriberRow {
    pub id: u128,
    pub email: String,
    pub name: String,
    pub subscribed_at: i64,
    pub status: SubscriberStatus,
}

/// The mathematical image of a subscription row.
pub struct SubscriberRowModel {
    pub id: u128,
    pub email: Seq<char>,
    pub name: Seq<char>,
    pub subscribed_at: i64,
    pub status: SubscriberStatus,
}

impl View for SubscriberRow {
    type V = SubscriberRowModel;

    open spec fn view(&self) -> SubscriberRowModel {
        SubscriberRowModel {
            id: self.id,
            email: self.email@,
            name: self.name@,
            subscribed_at: self.subscribed_at,
            status: self.status,
        }
    }
}

/// One row of the confirmation-token table, linking an opaque token to the
/// subscriber it was issued for.
pub struct TokenRow {
    pub token: String,
    pub subscriber_id: u128,
}

/// The mathematical image of a token row.
pub struct TokenRowModel {
    pub token: Seq<char>,
    pub subscriber_id: u128,
}

impl View for TokenRow {
    type V = TokenRowModel;

    open spec fn view(&self) -> TokenRowModel {
        TokenRowModel { token: self.token@, subscriber_id: self.subscriber_id }
    }
}

/// One row of the users table: an operator credential with a memory-hard
/// password hash in PHC string form.
pub struct Credential {
    pub user_id: u128,
    pub username: String,
    pub password_hash: String,
}

/// The mathematical image of a credential row.
pub struct CredentialModel {
    pub user_id: u128,
    pub username: Seq<char>,
    pub password_hash: Seq<char>,
}

impl View for Credential {
    type V = CredentialModel;

    open spec fn view(&self) -> CredentialModel {
        CredentialModel {
            user_id: self.user_id,
            username: self.username@,
            password_hash: self.password_hash@,
        }
    }
}

/// A confirmation token is 25 alphanumeric ASCII characters drawn from a
/// cryptographically strong source.
pub const TOKEN_LENGTH: usize = 25;

/// An ASCII letter or digit.
pub open spec fn is_ascii_alphanumeric_char(c: char) -> bool {
    ||| ('0' <= c && c <= '9')
    ||| ('A' <= c && c <= 'Z')
    ||| ('a' <= c && c <= 'z')
}

/// A well-formed confirmation token.
pub open spec fn valid_token(s: Seq<char>) -> bool {
    &&& s.len() == TOKEN_LENGTH
    &&& forall|i: int| 0 <= i < s.len() ==> is_ascii_alphanumeric_char(#[trigger] s[i])
}

/// The whole store.
pub struct Store {
    pub subscribers: Vec<SubscriberRow>,
    pub tokens: Vec<TokenRow>,
    pub users: Vec<Credential>,
}

/// The mathematical image of the whole store.
#[verifier::ext_equal]
pub struct StoreModel {
    pub subscribers: Seq<SubscriberRowModel>,
    pub tokens: Seq<TokenRowModel>,
    pub users: Seq<CredentialModel>,
}

impl View for Store {
    type V = StoreModel;

    open spec fn view(&self) -> StoreModel {
        StoreModel {
            subscribers: self.subscribers@.map_values(|r: SubscriberRow| r@),
            tokens: self.tokens@.map_values(|r: TokenRow| r@),
            users: self.users@.map_values(|r: Credential| r@),
        }
    }
}

impl StoreModel {
    /// Some subscription row carries this identifier.
    pub open spec fn has_subscriber_id(self, id: u128) -> bool {
        exists|i: int| 0 <= i < self.subscribers.len() && self.subscribers[i].id == id
    }

    /// Some token row carries this token.
    pub open spec fn has_token(self, token: Seq<char>) -> bool {
        exists|i: int| 0 <= i < self.tokens.len() && self.tokens[i].token == token
    }

    /// The invariants the store upholds: subscriber identifiers are unique,
    /// tokens are unique and well formed, and a token row exists only if the
    /// subscription row it references exists.
    pub open spec fn wf(self) -> bool {
        &&& forall|i: int, j: int|
            0 <= i < j < self.subscribers.len() ==> (#[trigger] self.subscribers[i]).id != (
            #[trigger] self.subscribers[j]).id
        &&& forall|i: int, j: int|
            0 <= i < j < self.tokens.len() ==> (#[trigger] self.tokens[i]).token != (
            #[trigger] self.tokens[j]).token
        &&& forall|i: int|
            0 <= i < self.tokens.len() ==> self.has_subscriber_id(
                (#[trigger] self.tokens[i]).subscriber_id,
            )
        &&& forall|i: int| 0 <= i < self.tokens.len() ==> valid_token((#[trigger] self.tokens[i]).token)
    }

    /// The store after a successful registration: one new pending
    /// subscription row and one new token row referencing it.
    pub open spec fn after_subscribe(
        self,
        name: Seq<char>,
        email: Seq<char>,
        id: u128,
        at: i64,
        token: Seq<char>,
    ) -> StoreModel {
        StoreModel {
            subscribers: self.subscribers.push(
                SubscriberRowModel {
                    id,
                    email,
                    name,
                    subscribed_at: at,
                    status: SubscriberStatus::Pending,
                },
            ),
            tokens: self.tokens.push(TokenRowModel { token, subscriber_id: id }),
            users: self.users,
        }
    }

    /// The subscriber a token row references, if the token is present.
    pub open spec fn token_owner(self, token: Seq<char>) -> Option<u128> {
        if self.has_token(token) {
            let i = choose|i: int| 0 <= i < self.tokens.len() && self.tokens[i].token == token;
            Some(self.tokens[i].subscriber_id)
        } else {
            None
        }
    }

    /// The store with every subscription row that carries `id` advanced to
    /// `Confirmed`; under `wf` there is at most one such row.
    pub open spec fn confirmed_at(self, id: u128) -> StoreModel {
        StoreModel {
            subscribers: Seq::new(
                self.subscribers.len(),
                |i: int|
                    if self.subscribers[i].id == id {
                        SubscriberRowModel {
                            id: self.subscribers[i].id,
                            email: self.subscribers[i].email,
                            name: self.subscribers[i].name,
                            subscribed_at: self.subscribers[i].subscribed_at,
                            status: SubscriberStatus::Confirmed,
                        }
                    } else {
                        self.subscribers[i]
                    },
            ),
            tokens: self.tokens,
            users: self.users,
        }
    }

    /// The store after a confirmation call: unchanged for an unknown token,
    /// otherwise with the referenced subscriber advanced to `Confirmed`.
    pub open spec fn after_confirm(self, token: Seq<char>) -> StoreModel {
        match self.token_owner(token) {
            Some(id) => self.confirmed_at(id),
            None => self,
        }
    }
}

impl Store {
    /// An empty store.
    pub fn new() -> (s: Store)
        ensures
            s@.subscribers == Seq::<SubscriberRowModel>::empty(),
            s@.tokens == Seq::<TokenRowModel>::empty(),
            s@.users == Seq::<CredentialModel>::empty(),
            s@.wf(),
    {
        let s = Store { subscribers: Vec::new(), tokens: Vec::new(), users: Vec::new() };
        proof {
            assert(s@.subscribers =~= Seq::<SubscriberRowModel>::empty());
            assert(s@.tokens =~= Seq::<TokenRowModel>::empty());
            assert(s@.users =~= Seq::<CredentialModel>::empty());
        }
        s
    }

    /// Whether some subscription row carries `id`.
    pub fn contains_subscriber_id(&self, id: u128) -> (r: bool)
        ensures
            r == self@.has_subscriber_id(id),
    {
        let n = self.subscribers.len();
        let mut i: usize = 0;
        while i < n
            invariant
                n == self.subscribers.len(),
                0 <= i <= n,
                forall|j: int| 0 <= j < i ==> (#[trigger] self@.subscribers[j]).id != id,
            decreases n - i,
        {
            if self.subscribers[i].id == id {
                proof {
                    assert(self@.subscribers[i as int].id == id);
                }
                return true;
            }
            i += 1;
        }
        false
    }

    /// Whether some token row carries `token`.
    pub fn contains_token(&self, token: &String) -> (r: bool)
        ensures
            r == self@.has_token(token@),
    {
        let n = self.tokens.len();
        let mut i: usize = 0;
        while i < n
            invariant
                n == self.tokens.len(),
                0 <= i <= n,
                forall|j: int| 0 <= j < i ==> (#[trigger] self@.tokens[j]).token != token@,
            decreases n - i,
        {
            if self.tokens[i].token == *token {
                proof {
                    assert(self@.tokens[i as int].token == token@);
                }
                return true;
            }
            i += 1;
        }
        false
    }
}

} // verus!
