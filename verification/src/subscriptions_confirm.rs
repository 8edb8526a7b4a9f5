//! The confirmation handler: exchanges a confirmation token for the
//! subscriber it was issued to and advances that subscriber's status from
//! `Pending` to `Confirmed`. The transition is idempotent, and an unknown
//! token is answered with success and no state change.

use vstd::prelude::*;
use crate::store::{
    valid_token, Store, StoreModel, SubscriberRow, SubscriberRowModel, SubscriberStatus,
};

verus! {

/// The query parameters of the confirmation endpoint.
pub struct Parameters {
    pub subscription_token: String,
}

/// Failure of the confirmation handler. The in-memory store cannot fail, so
/// no verified path produces this; callers that persist elsewhere map their
/// persistence faults onto it.
#[derive(Debug)]
pub enum ConfirmError {
    PersistenceFailure,
}

/// Confirms the subscription the token was issued for: the referenced
/// subscriber's status becomes `Confirmed`, every other row stays untouched,
/// and an unknown token changes nothing. Always reports success.
pub fn confirm(store: &mut Store, parameters: &Parameters) -> (r: Result<(), ConfirmError>)
    requires
        old(store)@.wf(),
    ensures
        final(store)@.wf(),
        final(store)@ == old(store)@.after_confirm(parameters.subscription_token@),
        r is Ok,
{
    let ghost m0 = store@;
    let n = store.tokens.len();
    let mut i: usize = 0;
    let mut owner: Option<u128> = None;
    while i < n
        invariant
            store == old(store),
            n == store.tokens.len(),
            0 <= i <= n,
            owner is None ==> forall|j: int|
                0 <= j < i ==> (#[trigger] store@.tokens[j]).token
                    != parameters.subscription_token@,
            owner matches Some(sid) ==> exists|j: int|
                0 <= j < i && (#[trigger] store@.tokens[j]).token == parameters.subscription_token@
                    && store@.tokens[j].subscriber_id == sid,
        decreases n - i,
    {
        if owner.is_none() && store.tokens[i].token == parameters.subscription_token {
            owner = Some(store.tokens[i].subscriber_id);
            proof {
                assert(store@.tokens[i as int].token == parameters.subscription_token@);
            }
        }
        i += 1;
    }
    match owner {
        None => {
            proof {
                assert(!m0.has_token(parameters.subscription_token@));
            }
            Ok(())
        },
        Some(sid) => {
            proof {
                assert(m0.has_token(parameters.subscription_token@));
                let c = choose|c: int|
                    0 <= c < m0.tokens.len() && m0.tokens[c].token
                        == parameters.subscription_token@;
                let w = choose|w: int|
                    0 <= w < m0.tokens.len() && m0.tokens[w].token
                        == parameters.subscription_token@ && m0.tokens[w].subscriber_id == sid;
                if c != w {
                    assert(m0.tokens[c].token == m0.tokens[w].token);
                    assert(false);
                }
                assert(m0.token_owner(parameters.subscription_token@) == Some(sid));
            }
            let m = store.subscribers.len();
            let mut j: usize = 0;
            while j < m
                invariant
                    m == store.subscribers.len(),
                    0 <= j <= m,
                    store@.tokens == m0.tokens,
                    store@.users == m0.users,
                    m0.subscribers.len() == m,
                    forall|k: int|
                        0 <= k < j ==> store@.subscribers[k] == (
                        if m0.subscribers[k].id == sid {
                            SubscriberRowModel {
                                id: m0.subscribers[k].id,
                                email: m0.subscribers[k].email,
                                name: m0.subscribers[k].name,
                                subscribed_at: m0.subscribers[k].subscribed_at,
                                status: SubscriberStatus::Confirmed,
                            }
                        } else {
                            (#[trigger] m0.subscribers[k])
                        }),
                    forall|k: int|
                        j <= k < m ==> store@.subscribers[k] == (#[trigger] m0.subscribers[k]),
                decreases m - j,
            {
                if store.subscribers[j].id == sid {
                    let email = store.subscribers[j].email.clone();
                    let name = store.subscribers[j].name.clone();
                    let subscribed_at = store.subscribers[j].subscribed_at;
                    store.subscribers[j] = SubscriberRow {
                        id: sid,
                        email,
                        name,
                        subscribed_at,
                        status: SubscriberStatus::Confirmed,
                    };
                }
                j += 1;
            }
            proof {
                assert(store@ =~= m0.confirmed_at(sid));
                assert forall|k: int| 0 <= k < store@.tokens.len() implies store@.has_subscriber_id(
                    (#[trigger] store@.tokens[k]).subscriber_id,
                ) by {
                    assert(m0.has_subscriber_id(m0.tokens[k].subscriber_id));
                    let w = choose|w: int|
                        0 <= w < m0.subscribers.len() && m0.subscribers[w].id
                            == m0.tokens[k].subscriber_id;
                    assert(store@.subscribers[w].id == store@.tokens[k].subscriber_id);
                }
            }
            Ok(())
        },
    }
}

/// After a successful registration, confirming with the very token that the
/// registration issued advances exactly the newly registered subscriber to
/// `Confirmed`: every row that existed before is left untouched, and the
/// token and user tables keep their contents.
pub proof fn lemma_subscribe_then_confirm(
    m: StoreModel,
    name: Seq<char>,
    email: Seq<char>,
    id: u128,
    at: i64,
    token: Seq<char>,
)
    requires
        m.wf(),
        !m.has_subscriber_id(id),
        !m.has_token(token),
        valid_token(token),
    ensures
        ({
            let m1 = m.after_subscribe(name, email, id, at, token);
            let m2 = m1.after_confirm(token);
            &&& m2.subscribers.len() == m.subscribers.len() + 1
            &&& m2.subscribers[m2.subscribers.len() - 1] == (SubscriberRowModel {
                id,
                email,
                name,
                subscribed_at: at,
                status: SubscriberStatus::Confirmed,
            })
            &&& forall|i: int|
                0 <= i < m.subscribers.len() ==> m2.subscribers[i] == (
                #[trigger] m.subscribers[i])
            &&& m2.tokens == m1.tokens
            &&& m2.users == m.users
        }),
{
    let m1 = m.after_subscribe(name, email, id, at, token);
    crate::subscriptions::lemma_subscribe_registers_once(m, name, email, id, at, token);
    assert(m1.token_owner(token) == Some(id));
    let m2 = m1.after_confirm(token);
    assert(m2 == m1.confirmed_at(id));
    assert forall|i: int| 0 <= i < m.subscribers.len() implies m2.subscribers[i] == (
    #[trigger] m.subscribers[i]) by {
        assert(m.subscribers[i].id != id);
        assert(m1.subscribers[i] == m.subscribers[i]);
    }
    assert(m1.subscribers[m1.subscribers.len() - 1].id == id);
}

} // verus!
