use vstd::prelude::*;

use crate::keyed::StrMap;

verus! {

/// How a call with a given key is admitted.
pub enum Admission<C> {
    /// No call with this key is in flight: this caller runs the operation
    /// and fills the cell it registered.
    Lead,
    /// A call with this key is in flight: this caller waits on its cell.
    Follow(C),
}

/// The pending table of a request deduplicator: for each key in flight, the
/// shared cell that will hold the single execution's result. A key leaves the
/// table once its result is settled, so a later call runs again: this is a
/// window for concurrent calls, not a cache.
pub struct RequestDeduplicator<C> {
    pending: StrMap<C>,
}

/// The table after a call with key `k` registered `c`, when it led.
pub open spec fn join_table<C>(m: Map<Seq<char>, C>, k: Seq<char>, c: C) -> Map<Seq<char>, C> {
    if m.contains_key(k) {
        m
    } else {
        m.insert(k, c)
    }
}

/// How many of the calls, made one after the other with key `k` and the
/// cells `cells`, lead.
pub open spec fn leaders<C>(m: Map<Seq<char>, C>, k: Seq<char>, cells: Seq<C>) -> nat
    decreases cells.len(),
{
    if cells.len() == 0 {
        0
    } else {
        (if m.contains_key(k) { 0nat } else { 1nat }) + leaders(
            join_table(m, k, cells[0]),
            k,
            cells.drop_first(),
        )
    }
}

/// The table after the calls with key `k` and the cells `cells`.
pub open spec fn joined<C>(m: Map<Seq<char>, C>, k: Seq<char>, cells: Seq<C>) -> Map<Seq<char>, C>
    decreases cells.len(),
{
    if cells.len() == 0 {
        m
    } else {
        joined(join_table(m, k, cells[0]), k, cells.drop_first())
    }
}

impl<C: Clone> RequestDeduplicator<C> {
    pub closed spec fn table(&self) -> Map<Seq<char>, C> {
        self.pending.view()
    }

    pub closed spec fn wf(&self) -> bool {
        self.pending.wf()
    }

    pub fn new() -> (r: Self)
        ensures
            r.wf(),
            r.table() == Map::<Seq<char>, C>::empty(),
    {
        RequestDeduplicator { pending: StrMap::new() }
    }

    /// Admits a call with `key`. When a call with that key is in flight, the
    /// caller follows it and gets a clone of its cell; otherwise `cell` is
    /// registered under the key and the caller leads.
    pub fn join(&mut self, key: String, cell: C) -> (r: Admission<C>)
        requires
            old(self).wf(),
        ensures
            final(self).wf(),
            final(self).table() == join_table(old(self).table(), key@, cell),
            old(self).table().contains_key(key@) ==> (r matches Admission::Follow(c) && cloned(
                old(self).table()[key@],
                c,
            )),
            !old(self).table().contains_key(key@) ==> r is Lead,
    {
        match self.pending.get(&key) {
            Some(c) => Admission::Follow(c.clone()),
            None => {
                self.pending.insert(key, cell);
                Admission::Lead
            },
        }
    }

    /// Drops `key` once its result is settled, so that a later call with it
    /// runs again.
    pub fn settle(&mut self, key: &String)
        requires
            old(self).wf(),
        ensures
            final(self).wf(),
            final(self).table() == old(self).table().remove(key@),
    {
        let _ = self.pending.remove(key);
    }

    /// Forgets every call in flight.
    pub fn clear(&mut self)
        ensures
            final(self).wf(),
            final(self).table() == Map::<Seq<char>, C>::empty(),
    {
        self.pending.clear();
    }

    /// Whether a call with `key` is in flight.
    pub fn is_pending(&self, key: &String) -> (r: bool)
        requires
            self.wf(),
        ensures
            r == self.table().contains_key(key@),
    {
        self.pending.contains(key)
    }
}

impl<C: Clone> Default for RequestDeduplicator<C> {
    fn default() -> (r: Self)
        ensures
            r.wf(),
            r.table() == Map::<Seq<char>, C>::empty(),
    {
        Self::new()
    }
}

/// However many calls with one key arrive while it is in flight, exactly one
/// of them leads, that is runs the operation (none when an earlier call
/// already leads); and every one of them ends up with the same cell, that of
/// the leader, to read the result from.
pub proof fn lemma_one_execution_per_key<C>(m: Map<Seq<char>, C>, k: Seq<char>, cells: Seq<C>)
    ensures
        leaders(m, k, cells) == if cells.len() > 0 && !m.contains_key(k) { 1nat } else { 0nat },
        cells.len() > 0 || m.contains_key(k) ==> joined(m, k, cells).contains_key(k) && joined(m, k, cells)[k] == if m.contains_key(k) {
            m[k]
        } else {
            cells[0]
        },
    decreases cells.len(),
{
    if cells.len() > 0 {
        let m1 = join_table(m, k, cells[0]);
        lemma_one_execution_per_key(m1, k, cells.drop_first());
    }
}

/// Calls with different keys never affect each other: admitting one key
/// leaves whether another is in flight, and its cell, unchanged.
pub proof fn lemma_keys_independent<C>(m: Map<Seq<char>, C>, k1: Seq<char>, k2: Seq<char>, c: C)
    requires
        k1 != k2,
    ensures
        join_table(m, k1, c).contains_key(k2) == m.contains_key(k2),
        m.contains_key(k2) ==> join_table(m, k1, c)[k2] == m[k2],
        !join_table(m, k1, c).contains_key(k2) ==> !join_table(m, k1, c).remove(k1).contains_key(k2),
{
}

} // verus!
