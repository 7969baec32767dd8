//! The task registry and its cancellation tokens.
//!
//! The registry maps a task's correlation id to the cancellation flag shared
//! with the running task body.  An entry is inserted when a task starts and
//! removed exactly once when it terminates; a stop request sets the flag if
//! the id is present and is a harmless no-op otherwise.  The registry is the
//! only state shared across tasks; the surrounding application serializes
//! access to it with a mutex whose critical sections are the O(1) operations
//! below.

use vstd::map::*;
use vstd::prelude::*;

use crate::error::AppError;

verus! {

/// A write-once cancellation flag: settable, observable, never reset.
#[derive(Clone, Copy, Debug)]
pub struct CancellationToken {
    cancelled: bool,
}

impl CancellationToken {
    /// Whether the flag has been set.
    pub closed spec fn spec_is_set(&self) -> bool {
        self.cancelled
    }

    /// A fresh, unset token.
    pub fn new() -> (r: Self)
        ensures
            !r.spec_is_set(),
    {
        CancellationToken { cancelled: false }
    }

    /// Request cancellation.  Idempotent: the flag only ever goes up.
    pub fn set(&mut self)
        ensures
            final(self).spec_is_set(),
    {
        self.cancelled = true;
    }

    /// Observe the flag at a cooperative checkpoint.
    pub fn is_set(&self) -> (r: bool)
        ensures
            r == self.spec_is_set(),
    {
        self.cancelled
    }
}

struct RegistryEntry {
    id: String,
    token: CancellationToken,
}

/// The mapping from live task id to its cancellation flag.
///
/// Its view is a `Map<Seq<char>, bool>` from id to "cancellation requested";
/// at most one entry exists per id.
pub struct TaskRegistry {
    entries: Vec<RegistryEntry>,
}

/// What `cancel` does to the registry's contents: set the flag of a present
/// id, leave an absent id alone.
pub open spec fn spec_cancel(m: Map<Seq<char>, bool>, id: Seq<char>) -> Map<Seq<char>, bool> {
    if m.contains_key(id) {
        m.insert(id, true)
    } else {
        m
    }
}

impl TaskRegistry {
    /// Ids are pairwise distinct.
    pub closed spec fn wf(&self) -> bool {
        forall|i: int, j: int|
            0 <= i < self.entries@.len() && 0 <= j < self.entries@.len() && i != j ==> (
            #[trigger] self.entries@[i].id@) != (#[trigger] self.entries@[j].id@)
    }

    spec fn has_id(&self, k: Seq<char>) -> bool {
        exists|i: int| 0 <= i < self.entries@.len() && (#[trigger] self.entries@[i].id@) == k
    }

    spec fn idx_of(&self, k: Seq<char>) -> int {
        choose|i: int| 0 <= i < self.entries@.len() && (#[trigger] self.entries@[i].id@) == k
    }

    /// The registry's contents: task id to "cancellation requested".
    pub closed spec fn view(&self) -> Map<Seq<char>, bool> {
        Map::new(
            |k: Seq<char>| self.has_id(k),
            |k: Seq<char>| self.entries@[self.idx_of(k)].token.cancelled,
        )
    }

    proof fn lemma_unique_idx(&self, i: int)
        requires
            self.wf(),
            0 <= i < self.entries@.len(),
        ensures
            self.has_id(self.entries@[i].id@),
            self.idx_of(self.entries@[i].id@) == i,
    {
        let k = self.entries@[i].id@;
        assert(self.has_id(k));
        let j = self.idx_of(k);
        assert(0 <= j < self.entries@.len() && self.entries@[j].id@ == k);
        if i != j {
            assert(self.entries@[i].id@ != self.entries@[j].id@);
        }
    }

    /// An empty registry, as the application starts with.
    pub fn new() -> (r: Self)
        ensures
            r.wf(),
            r@ == Map::<Seq<char>, bool>::empty(),
    {
        let r = TaskRegistry { entries: Vec::new() };
        proof {
            assert_maps_equal!(r.view(), Map::<Seq<char>, bool>::empty());
        }
        r
    }

    /// The index of `id`'s entry, if one exists.
    fn find_index(&self, id: &str) -> (r: Option<usize>)
        requires
            self.wf(),
        ensures
            match r {
                Some(i) => i < self.entries@.len() && self.entries@[i as int].id@ == id@
                    && self@.contains_key(id@) && self.idx_of(id@) == i,
                None => !self@.contains_key(id@),
            },
    {
        let mut i: usize = 0;
        while i < self.entries.len()
            invariant
                self.wf(),
                i <= self.entries@.len(),
                forall|j: int| 0 <= j < i ==> (#[trigger] self.entries@[j].id@) != id@,
            decreases self.entries@.len() - i,
        {
            if crate::text::str_eq(self.entries[i].id.as_str(), id) {
                proof {
                    self.lemma_unique_idx(i as int);
                }
                return Some(i);
            }
            i = i + 1;
        }
        proof {
            if self.has_id(id@) {
                let w = choose|j: int|
                    0 <= j < self.entries@.len() && (#[trigger] self.entries@[j].id@) == id@;
                assert(self.entries@[w].id@ != id@);
            }
        }
        None
    }

    /// Whether `id` is currently registered.
    pub fn contains(&self, id: &str) -> (r: bool)
        requires
            self.wf(),
        ensures
            r == self@.contains_key(id@),
    {
        self.find_index(id).is_some()
    }

    /// Register a fresh task id with an unset token.
    ///
    /// Fails (and changes nothing) if the id is already registered: ids are
    /// freshly generated, so a collision is a logic error upstream.
    pub fn register(&mut self, id: &str) -> (r: Result<(), AppError>)
        requires
            old(self).wf(),
        ensures
            final(self).wf(),
            match r {
                Ok(()) => !old(self)@.contains_key(id@) && final(self)@ == old(self)@.insert(
                    id@,
                    false,
                ),
                Err(e) => old(self)@.contains_key(id@) && final(self)@ == old(self)@ && e matches
                    AppError::Internal(_),
            },
    {
        if self.contains(id) {
            return Err(
                AppError::Internal(
                    String::from_str("task id is already registered: ").concat(id),
                ),
            );
        }
        let ghost pre = *self;
        self.entries.push(
            RegistryEntry { id: String::from_str(id), token: CancellationToken::new() },
        );
        proof {
            let n = pre.entries@.len() as int;
            assert forall|i: int, j: int|
                0 <= i < self.entries@.len() && 0 <= j < self.entries@.len() && i != j implies (
            #[trigger] self.entries@[i].id@) != (#[trigger] self.entries@[j].id@) by {
                if i < n && j < n {
                    assert(pre.entries@[i].id@ != pre.entries@[j].id@);
                } else if i == n {
                    assert(pre.has_id(pre.entries@[j].id@)) by { pre.lemma_unique_idx(j); }
                } else if j == n {
                    assert(pre.has_id(pre.entries@[i].id@)) by { pre.lemma_unique_idx(i); }
                }
            }
            assert forall|k: Seq<char>| #[trigger]
                self.has_id(k) == (pre.has_id(k) || k == id@) by {
                if self.has_id(k) {
                    let w = choose|i: int|
                        0 <= i < self.entries@.len() && (#[trigger] self.entries@[i].id@) == k;
                    if w < n {
                        assert(pre.entries@[w].id@ == k);
                    }
                } else {
                    if pre.has_id(k) {
                        let w = choose|i: int|
                            0 <= i < pre.entries@.len() && (#[trigger] pre.entries@[i].id@) == k;
                        assert(self.entries@[w].id@ == k);
                    }
                    assert(self.entries@[n].id@ == id@);
                }
            }
            assert forall|k: Seq<char>| self.has_id(k) implies self.entries@[self.idx_of(
                k,
            )].token.cancelled == (if k == id@ {
                false
            } else {
                pre.entries@[pre.idx_of(k)].token.cancelled
            }) by {
                let w = self.idx_of(k);
                assert(0 <= w < self.entries@.len() && self.entries@[w].id@ == k);
                if k == id@ {
                    self.lemma_unique_idx(n);
                    assert(w == n);
                } else {
                    assert(w < n);
                    assert(pre.entries@[w].id@ == k);
                    pre.lemma_unique_idx(w);
                }
            }
            assert_maps_equal!(self.view(), pre.view().insert(id@, false));
        }
        Ok(())
    }

    /// Request cancellation of `id`'s task.
    ///
    /// Sets the flag if the id is registered; a stop request for an unknown
    /// or already-finished id changes nothing and is not an error.  Returns
    /// whether the id was found.
    pub fn cancel(&mut self, id: &str) -> (found: bool)
        requires
            old(self).wf(),
        ensures
            final(self).wf(),
            found == old(self)@.contains_key(id@),
            final(self)@ == spec_cancel(old(self)@, id@),
    {
        let ghost pre = *self;
        match self.find_index(id) {
            Some(i) => {
                let entry = &mut self.entries[i];
                entry.token.set();
                proof {
                    assert(self.entries@ == pre.entries@.update(
                        pre.idx_of(id@),
                        self.entries@[pre.idx_of(id@)],
                    ));
                    assert forall|a: int, b: int|
                        0 <= a < self.entries@.len() && 0 <= b < self.entries@.len() && a != b
                        implies (#[trigger] self.entries@[a].id@) != (
                    #[trigger] self.entries@[b].id@) by {
                        assert(self.entries@[a].id@ == pre.entries@[a].id@);
                        assert(self.entries@[b].id@ == pre.entries@[b].id@);
                    }
                    assert forall|k: Seq<char>| #[trigger] self.has_id(k) == pre.has_id(k) by {
                        if self.has_id(k) {
                            let w = choose|x: int|
                                0 <= x < self.entries@.len() && (#[trigger] self.entries@[x].id@)
                                    == k;
                            assert(pre.entries@[w].id@ == k);
                        }
                        if pre.has_id(k) {
                            let w = choose|x: int|
                                0 <= x < pre.entries@.len() && (#[trigger] pre.entries@[x].id@)
                                    == k;
                            assert(self.entries@[w].id@ == k);
                        }
                    }
                    assert forall|k: Seq<char>| self.has_id(k) implies self.entries@[self.idx_of(
                        k,
                    )].token.cancelled == (if k == id@ {
                        true
                    } else {
                        pre.entries@[pre.idx_of(k)].token.cancelled
                    }) by {
                        let w = self.idx_of(k);
                        assert(0 <= w < self.entries@.len() && self.entries@[w].id@ == k);
                        assert(pre.entries@[w].id@ == k);
                        pre.lemma_unique_idx(w);
                        if k == id@ {
                            assert(w == pre.idx_of(id@));
                        }
                    }
                    assert_maps_equal!(self.view(), pre.view().insert(id@, true));
                }
                true
            },
            None => {
                false
            },
        }
    }

    /// Observe `id`'s flag: `None` if the id is not registered.
    pub fn is_cancelled(&self, id: &str) -> (r: Option<bool>)
        requires
            self.wf(),
        ensures
            match r {
                Some(b) => self@.contains_key(id@) && b == self@[id@],
                None => !self@.contains_key(id@),
            },
    {
        match self.find_index(id) {
            Some(i) => Some(self.entries[i].token.is_set()),
            None => None,
        }
    }

    /// Remove `id`'s entry; a no-op if the id is absent.
    ///
    /// The owning task calls this exactly once, on every exit path.
    pub fn deregister(&mut self, id: &str)
        requires
            old(self).wf(),
        ensures
            final(self).wf(),
            final(self)@ == old(self)@.remove(id@),
    {
        let ghost pre = *self;
        match self.find_index(id) {
            Some(i) => {
                self.entries.remove(i);
                proof {
                    let n = pre.entries@.len() as int;
                    let ii = i as int;
                    assert forall|a: int, b: int|
                        0 <= a < self.entries@.len() && 0 <= b < self.entries@.len() && a != b
                        implies (#[trigger] self.entries@[a].id@) != (
                    #[trigger] self.entries@[b].id@) by {
                        let pa = if a < ii { a } else { a + 1 };
                        let pb = if b < ii { b } else { b + 1 };
                        assert(self.entries@[a] == pre.entries@[pa]);
                        assert(self.entries@[b] == pre.entries@[pb]);
                        assert(pre.entries@[pa].id@ != pre.entries@[pb].id@);
                    }
                    assert forall|k: Seq<char>| #[trigger]
                        self.has_id(k) == (pre.has_id(k) && k != id@) by {
                        if self.has_id(k) {
                            let w = choose|x: int|
                                0 <= x < self.entries@.len() && (#[trigger] self.entries@[x].id@)
                                    == k;
                            let pw = if w < ii { w } else { w + 1 };
                            assert(pre.entries@[pw].id@ == k);
                            if k == id@ {
                                pre.lemma_unique_idx(pw);
                                assert(pw == ii);
                            }
                        }
                        if pre.has_id(k) && k != id@ {
                            let w = choose|x: int|
                                0 <= x < pre.entries@.len() && (#[trigger] pre.entries@[x].id@)
                                    == k;
                            if w < ii {
                                assert(self.entries@[w].id@ == k);
                            } else {
                                assert(w != ii);
                                assert(self.entries@[w - 1].id@ == k);
                            }
                        }
                    }
                    assert forall|k: Seq<char>| self.has_id(k) implies self.entries@[self.idx_of(
                        k,
                    )].token.cancelled == pre.entries@[pre.idx_of(k)].token.cancelled by {
                        let w = self.idx_of(k);
                        assert(0 <= w < self.entries@.len() && self.entries@[w].id@ == k);
                        let pw = if w < ii { w } else { w + 1 };
                        assert(self.entries@[w] == pre.entries@[pw]);
                        pre.lemma_unique_idx(pw);
                    }
                    assert_maps_equal!(self.view(), pre.view().remove(id@));
                }
            },
            None => {
                proof {
                    assert_maps_equal!(pre.view().remove(id@), pre.view());
                }
            },
        }
    }
}

/// Law: cancelling is idempotent — a second stop request changes nothing.
pub proof fn lemma_cancel_idempotent(m: Map<Seq<char>, bool>, id: Seq<char>)
    ensures
        spec_cancel(spec_cancel(m, id), id) == spec_cancel(m, id),
{
    if m.contains_key(id) {
        assert_maps_equal!(spec_cancel(spec_cancel(m, id), id), spec_cancel(m, id));
    }
}

/// Law: after a task deregisters, cancelling its id is a safe no-op, and a
/// second deregistration would change nothing either.
pub proof fn lemma_cancel_after_deregister(m: Map<Seq<char>, bool>, id: Seq<char>)
    ensures
        !m.remove(id).contains_key(id),
        spec_cancel(m.remove(id), id) == m.remove(id),
        m.remove(id).remove(id) == m.remove(id),
{
    assert_maps_equal!(m.remove(id).remove(id), m.remove(id));
}

} // verus!
