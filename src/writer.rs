use vstd::prelude::*;

use crate::config::PdfImageFormat;
use crate::naming::{file_name_spec, image_name};

verus! {

/// Where one item of a write batch stands.
#[derive(Clone, Copy, Debug, PartialEq, Eq, Structural)]
pub enum ItemState {
    /// Its work has not started.
    Pending,
    /// Its encode and write are under way.
    Running,
    /// Its file was written.
    Written,
    /// Its encode or write failed.
    Failed,
    /// It started after a failure was known, and did no I/O.
    Skipped,
}

/// Whether an item has completed, by writing, failing or skipping.
pub open spec fn is_done(s: ItemState) -> bool {
    s == ItemState::Written || s == ItemState::Failed || s == ItemState::Skipped
}

/// How many items have completed.
pub open spec fn done_count(s: Seq<ItemState>) -> nat
    decreases s.len(),
{
    if s.len() == 0 {
        0
    } else {
        done_count(s.drop_last()) + if is_done(s.last()) { 1nat } else { 0nat }
    }
}

/// Whether some item failed.
pub open spec fn any_failed(s: Seq<ItemState>) -> bool {
    exists|i: int| 0 <= i < s.len() && s[i] == ItemState::Failed
}

proof fn lemma_done_count_update(s: Seq<ItemState>, i: int, v: ItemState)
    requires
        0 <= i < s.len(),
    ensures
        done_count(s.update(i, v)) + (if is_done(s[i]) { 1int } else { 0int })
            == done_count(s) + (if is_done(v) { 1int } else { 0int }),
    decreases s.len(),
{
    let u = s.update(i, v);
    if i == s.len() - 1 {
        assert(u.drop_last() =~= s.drop_last());
    } else {
        lemma_done_count_update(s.drop_last(), i, v);
        assert(u.drop_last() =~= s.drop_last().update(i, v));
    }
}

proof fn lemma_done_count_all(s: Seq<ItemState>)
    requires
        forall|i: int| 0 <= i < s.len() ==> is_done(#[trigger] s[i]),
    ensures
        done_count(s) == s.len(),
    decreases s.len(),
{
    if s.len() > 0 {
        lemma_done_count_all(s.drop_last());
    }
}

proof fn lemma_done_count_none(s: Seq<ItemState>)
    requires
        forall|i: int| 0 <= i < s.len() ==> #[trigger] s[i] == ItemState::Pending,
    ensures
        done_count(s) == 0,
    decreases s.len(),
{
    if s.len() > 0 {
        lemma_done_count_none(s.drop_last());
    }
}

/// The shared state of one batch of image writes: each item's progress, the
/// fail-fast flag, the progress counter and the first failure observed.
/// Items are numbered from 0 within the batch; item `k` holds the page with
/// global index `starting_index + k`.
pub struct WriteBatch {
    starting_index: u16,
    states: Vec<ItemState>,
    in_error: bool,
    completed: usize,
    first_error: Option<usize>,
}

impl WriteBatch {
    pub closed spec fn starting_index_spec(&self) -> u16 {
        self.starting_index
    }

    pub closed spec fn states_spec(&self) -> Seq<ItemState> {
        self.states@
    }

    pub closed spec fn in_error_spec(&self) -> bool {
        self.in_error
    }

    pub closed spec fn completed_spec(&self) -> nat {
        self.completed as nat
    }

    pub closed spec fn first_error_spec(&self) -> Option<usize> {
        self.first_error
    }

    /// The counter counts completed items; the flag is up exactly when an item
    /// failed, and the first failure recorded is such an item; no item skips
    /// while the flag is down; global indices fit in a `u16`.
    pub open spec fn wf(&self) -> bool {
        let s = self.states_spec();
        &&& self.completed_spec() == done_count(s)
        &&& self.in_error_spec() <==> any_failed(s)
        &&& self.in_error_spec() <==> self.first_error_spec().is_some()
        &&& self.first_error_spec() matches Some(i) ==> i < s.len() && s[i as int] == ItemState::Failed
        &&& (exists|i: int| 0 <= i < s.len() && s[i] == ItemState::Skipped) ==> self.in_error_spec()
        &&& self.starting_index_spec() + s.len() <= u16::MAX + 1
    }

    /// A batch of `count` pending items for pages `starting_index ..`.
    pub fn new(starting_index: u16, count: usize) -> (r: WriteBatch)
        requires
            starting_index + count <= u16::MAX + 1,
        ensures
            r.wf(),
            r.starting_index_spec() == starting_index,
            r.states_spec() == Seq::new(count as nat, |i: int| ItemState::Pending),
            !r.in_error_spec(),
            r.completed_spec() == 0,
            r.first_error_spec().is_none(),
    {
        let mut states: Vec<ItemState> = Vec::new();
        let mut k: usize = 0;
        while k < count
            invariant
                k <= count,
                states@ == Seq::new(k as nat, |i: int| ItemState::Pending),
            decreases count - k,
        {
            states.push(ItemState::Pending);
            k = k + 1;
            assert(states@ =~= Seq::new(k as nat, |i: int| ItemState::Pending));
        }
        proof {
            lemma_done_count_none(states@);
        }
        WriteBatch { starting_index, states, in_error: false, completed: 0, first_error: None }
    }

    /// The number of items in the batch.
    pub fn len(&self) -> (r: usize)
        ensures
            r == self.states_spec().len(),
    {
        self.states.len()
    }

    /// Where item `item` stands.
    pub fn state(&self, item: usize) -> (r: ItemState)
        requires
            item < self.states_spec().len(),
        ensures
            r == self.states_spec()[item as int],
    {
        self.states[item]
    }

    /// Checks the fail-fast flag as item `item` starts: `true` when its I/O is to
    /// go ahead; otherwise it is marked skipped and counted as completed.
    pub fn begin(&mut self, item: usize) -> (go: bool)
        requires
            old(self).wf(),
            item < old(self).states_spec().len(),
            old(self).states_spec()[item as int] == ItemState::Pending,
        ensures
            final(self).wf(),
            go == !old(self).in_error_spec(),
            final(self).states_spec() == old(self).states_spec().update(
                item as int,
                if go { ItemState::Running } else { ItemState::Skipped },
            ),
            final(self).completed_spec() == old(self).completed_spec() + if go { 0nat } else { 1nat },
            final(self).in_error_spec() == old(self).in_error_spec(),
            final(self).first_error_spec() == old(self).first_error_spec(),
            final(self).starting_index_spec() == old(self).starting_index_spec(),
    {
        let ghost s = self.states@;
        proof {
            lemma_done_count_update(s, item as int, if self.in_error { ItemState::Skipped } else { ItemState::Running });
            assert(done_count(s) <= s.len()) by {
                lemma_done_count_le(s);
            }
        }
        if self.in_error {
            self.states.set(item, ItemState::Skipped);
            self.completed = self.completed + 1;
            proof {
                let t = self.states@;
                let w = choose|i: int| 0 <= i < s.len() && s[i] == ItemState::Failed;
                assert(t[w] == ItemState::Failed);
                let f = self.first_error.unwrap();
                assert(t[f as int] == ItemState::Failed);
            }
            false
        } else {
            self.states.set(item, ItemState::Running);
            proof {
                let t = self.states@;
                assert forall|i: int| 0 <= i < t.len() implies t[i] != ItemState::Failed && t[i] != ItemState::Skipped by {
                    if i != item {
                        assert(t[i] == s[i]);
                    }
                }
            }
            true
        }
    }

    /// Records how the I/O of a running item ended; the first failure raises the
    /// flag and is remembered.
    pub fn finish(&mut self, item: usize, ok: bool)
        requires
            old(self).wf(),
            item < old(self).states_spec().len(),
            old(self).states_spec()[item as int] == ItemState::Running,
        ensures
            final(self).wf(),
            final(self).states_spec() == old(self).states_spec().update(
                item as int,
                if ok { ItemState::Written } else { ItemState::Failed },
            ),
            final(self).completed_spec() == old(self).completed_spec() + 1,
            final(self).in_error_spec() == (old(self).in_error_spec() || !ok),
            final(self).first_error_spec() == if old(self).first_error_spec().is_none() && !ok {
                Some(item)
            } else {
                old(self).first_error_spec()
            },
            final(self).starting_index_spec() == old(self).starting_index_spec(),
    {
        let ghost s = self.states@;
        let v = if ok { ItemState::Written } else { ItemState::Failed };
        proof {
            lemma_done_count_update(s, item as int, v);
            lemma_done_count_le(s);
        }
        self.states.set(item, v);
        self.completed = self.completed + 1;
        if !ok {
            self.in_error = true;
            if self.first_error.is_none() {
                self.first_error = Some(item);
            }
            assert(self.states@[item as int] == ItemState::Failed);
        }
        proof {
            let t = self.states@;
            if let Some(f) = self.first_error {
                if f != item {
                    assert(t[f as int] == s[f as int]);
                }
            }
            if any_failed(s) {
                let w = choose|i: int| 0 <= i < s.len() && s[i] == ItemState::Failed;
                assert(t[w] == ItemState::Failed);
            }
            if any_failed(t) && ok {
                let w = choose|i: int| 0 <= i < t.len() && t[i] == ItemState::Failed;
                assert(s[w] == ItemState::Failed);
            }
            if exists|i: int| 0 <= i < t.len() && t[i] == ItemState::Skipped {
                let w = choose|i: int| 0 <= i < t.len() && t[i] == ItemState::Skipped;
                assert(s[w] == ItemState::Skipped);
            }
        }
    }

    /// The progress counter: items completed so far, skipped ones included.
    pub fn completed(&self) -> (r: usize)
        ensures
            r == self.completed_spec(),
    {
        self.completed
    }

    /// Whether a failure has been observed.
    pub fn in_error(&self) -> (r: bool)
        ensures
            r == self.in_error_spec(),
    {
        self.in_error
    }

    /// The global page index of item `item`.
    pub fn global_index(&self, item: usize) -> (r: u16)
        requires
            self.wf(),
            item < self.states_spec().len(),
        ensures
            r == self.starting_index_spec() + item,
    {
        self.starting_index + item as u16
    }

    /// The file name of item `item`, from its global page index.
    pub fn file_name(&self, item: usize, format: PdfImageFormat) -> (r: String)
        requires
            self.wf(),
            item < self.states_spec().len(),
        ensures
            r@ == file_name_spec((self.starting_index_spec() + item) as nat, format),
    {
        image_name(self.global_index(item), format)
    }

    /// The batch's outcome: the first failed item, or success when none failed.
    pub fn outcome(&self) -> (r: Result<(), usize>)
        requires
            self.wf(),
        ensures
            r.is_ok() <==> !any_failed(self.states_spec()),
            r matches Err(i) ==> Some(i) == self.first_error_spec()
                && self.states_spec()[i as int] == ItemState::Failed,
    {
        match self.first_error {
            Some(i) => Err(i),
            None => Ok(()),
        }
    }
}

proof fn lemma_done_count_le(s: Seq<ItemState>)
    ensures
        done_count(s) <= s.len(),
    decreases s.len(),
{
    if s.len() > 0 {
        lemma_done_count_le(s.drop_last());
    }
}

/// Once every item of a batch has completed, the counter has counted each of
/// them, skipped ones included, and the batch reports a failure exactly when
/// some item failed; an item is skipped only when some item failed.
pub proof fn lemma_batch_accounts_every_item(b: WriteBatch)
    requires
        b.wf(),
        forall|i: int| 0 <= i < b.states_spec().len() ==> is_done(#[trigger] b.states_spec()[i]),
    ensures
        b.completed_spec() == b.states_spec().len(),
        b.first_error_spec().is_some() <==> any_failed(b.states_spec()),
        forall|i: int| 0 <= i < b.states_spec().len() && #[trigger] b.states_spec()[i] == ItemState::Skipped
            ==> any_failed(b.states_spec()),
{
    lemma_done_count_all(b.states_spec());
}

} // verus!
