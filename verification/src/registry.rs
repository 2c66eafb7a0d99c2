use vstd::prelude::*;
use tokio_util::sync::CancellationToken;
use crate::keyed::{
    lemma_pairs_map_domain, lemma_pairs_map_len, lemma_pairs_map_push, lemma_pairs_map_remove,
    lemma_pairs_map_remove_absent, lemma_pairs_map_update, pairs_has, pairs_map, pairs_unique,
};

verus! {

/// tokio_util's cancellation token: a clonable trigger shared by every
/// clone; opaque to the verifier.
#[verifier::external_type_specification]
#[verifier::external_body]
pub struct ExCancellationToken(CancellationToken);

/// Relies on tokio_util::sync::CancellationToken::cancel: fires the
/// trigger for every clone of the token. Cancellation is idempotent and
/// returns nothing, so there is nothing to state of the result.
#[verifier::external_body]
fn cancel_token(token: &CancellationToken) {
    token.cancel();
}

/// The process-wide shutdown registry: every live tapplet server is
/// reachable by its integer id, so external actions can cancel it. Viewed
/// as the map from id to cancel handle.
pub struct ShutdownTokens {
    entries: Vec<(i32, CancellationToken)>,
}

impl View for ShutdownTokens {
    type V = Map<i32, CancellationToken>;

    closed spec fn view(&self) -> Map<i32, CancellationToken> {
        pairs_map(self.entries@)
    }
}

impl ShutdownTokens {
    pub closed spec fn wf(&self) -> bool {
        pairs_unique(self.entries@)
    }

    pub fn new() -> (r: Self)
        ensures
            r.wf(),
            r@ == Map::<i32, CancellationToken>::empty(),
    {
        ShutdownTokens { entries: Vec::new() }
    }

    fn find_index(&self, id: i32) -> (r: Option<usize>)
        ensures
            match r {
                Some(i) => i < self.entries@.len() && self.entries@[i as int].0 == id,
                None => !pairs_has(self.entries@, id),
            },
    {
        let n = self.entries.len();
        let mut i: usize = 0;
        while i < n
            invariant
                0 <= i <= n,
                n == self.entries@.len(),
                forall|k: int| 0 <= k < i ==> (#[trigger] self.entries@[k]).0 != id,
            decreases n - i,
        {
            if self.entries[i].0 == id {
                return Some(i);
            }
            i = i + 1;
        }
        None
    }

    /// Whether a live server is registered under `id`.
    pub fn contains(&self, id: i32) -> (r: bool)
        ensures
            r == self@.contains_key(id),
    {
        proof {
            lemma_pairs_map_domain(self.entries@, id);
        }
        match self.find_index(id) {
            Some(i) => {
                proof {
                    assert(pairs_has(self.entries@, id));
                }
                true
            },
            None => false,
        }
    }

    /// The number of registered servers.
    pub fn len(&self) -> (r: usize)
        requires
            self.wf(),
        ensures
            r == self@.len(),
    {
        proof {
            lemma_pairs_map_len(self.entries@);
        }
        self.entries.len()
    }

    /// Inserts or replaces the cancel handle for `id`. A previous handle
    /// under the same id is first triggered, so at most one server stays
    /// live per id.
    pub fn register(&mut self, id: i32, token: CancellationToken)
        requires
            old(self).wf(),
        ensures
            final(self).wf(),
            final(self)@ == old(self)@.insert(id, token),
    {
        match self.find_index(id) {
            Some(i) => {
                cancel_token(&self.entries[i].1);
                proof {
                    lemma_pairs_map_update(self.entries@, i as int, (id, token));
                }
                self.entries[i] = (id, token);
                proof {
                    assert(pairs_unique(self.entries@));
                }
            },
            None => {
                proof {
                    lemma_pairs_map_push(self.entries@, (id, token));
                }
                self.entries.push((id, token));
                proof {
                    assert forall|a: int, b: int|
                        0 <= a < b < self.entries@.len() implies (#[trigger] self.entries@[a]).0
                        != (#[trigger] self.entries@[b]).0 by {
                        if b == self.entries@.len() - 1 {
                            assert(self.entries@[a].0 != id);
                        }
                    }
                }
            },
        }
    }

    /// Triggers and removes the cancel handle for `id`, reporting whether
    /// anything was cancelled.
    pub fn cancel(&mut self, id: i32) -> (r: bool)
        requires
            old(self).wf(),
        ensures
            final(self).wf(),
            final(self)@ == old(self)@.remove(id),
            r == old(self)@.contains_key(id),
    {
        proof {
            lemma_pairs_map_domain(self.entries@, id);
        }
        match self.find_index(id) {
            Some(i) => {
                cancel_token(&self.entries[i].1);
                proof {
                    assert(pairs_has(self.entries@, id));
                    lemma_pairs_map_remove(self.entries@, i as int);
                    assert(forall|a: int, b: int|
                        0 <= a < b < self.entries@.remove(i as int).len() ==> (
                        #[trigger] self.entries@.remove(i as int)[a]).0 != (
                        #[trigger] self.entries@.remove(i as int)[b]).0);
                }
                self.entries.remove(i);
                true
            },
            None => {
                proof {
                    lemma_pairs_map_remove_absent(self.entries@, id);
                }
                false
            },
        }
    }

    /// Triggers every registered handle and empties the registry.
    pub fn cancel_all(&mut self)
        requires
            old(self).wf(),
        ensures
            final(self).wf(),
            final(self)@ == Map::<i32, CancellationToken>::empty(),
    {
        let n = self.entries.len();
        let mut i: usize = 0;
        while i < n
            invariant
                n == self.entries@.len(),
            decreases n - i,
        {
            cancel_token(&self.entries[i].1);
            i = i + 1;
        }
        self.entries = Vec::new();
    }
}

/// Law: cancelling an id a second time has no further effect on the
/// registry: the entry is already gone, so the repeated call removes
/// nothing and reports that nothing was cancelled.
pub proof fn lemma_cancel_idempotent(m: Map<i32, CancellationToken>, id: i32)
    ensures
        m.remove(id).remove(id) == m.remove(id),
        !m.remove(id).contains_key(id),
{
    assert(m.remove(id).remove(id) =~= m.remove(id));
}

/// Law: registering a second handle under an id leaves exactly the second
/// handle in the registry; the first is no longer reachable.
pub proof fn lemma_register_replaces(
    m: Map<i32, CancellationToken>,
    id: i32,
    first: CancellationToken,
    second: CancellationToken,
)
    ensures
        m.insert(id, first).insert(id, second) == m.insert(id, second),
        m.insert(id, first).insert(id, second)[id] == second,
{
    assert(m.insert(id, first).insert(id, second) =~= m.insert(id, second));
}

} // verus!
