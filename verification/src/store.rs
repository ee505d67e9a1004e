use vstd::prelude::*;

use crate::entity::EntryTypes;
use crate::entity::LinkTypes;

verus! {

/// How a record entered the store: as a fresh creation, or as an update
/// superseding the record with the given id.
#[derive(Clone, Copy, Debug, PartialEq, Eq, Structural)]
pub enum RecordOrigin {
    Create,
    Update(usize),
}

/// One committed record together with the bookkeeping the store keeps for
/// it: the records superseding it and the tombstones placed on it.
#[derive(Clone, Debug)]
pub struct RecordEntry {
    pub content: EntryTypes,
    pub author: u64,
    pub origin: RecordOrigin,
    /// Ids of records superseding this one, in order of observation.
    pub updates: Vec<usize>,
    /// Opaque marks of the tombstones placed on this record.
    pub deletes: Vec<u64>,
}

/// A directed, typed graph edge between two records. A deleted edge stays
/// in place but no longer shows up in lookups.
#[derive(Clone, Copy, Debug, PartialEq, Eq, Structural)]
pub struct Edge {
    pub base: usize,
    pub target: usize,
    pub link_type: LinkTypes,
    pub deleted: bool,
}

/// A local snapshot of the append-only replicated record store: records
/// identified by their position of appearance, and the graph edges between
/// them. Appending is the only way records and edges come in, so a record
/// can only be superseded by a record observed after it.
#[derive(Clone, Debug)]
pub struct RecordStore {
    pub records: Vec<RecordEntry>,
    pub edges: Vec<Edge>,
}

/// Whether an origin placed at position `i` points strictly backward:
/// an update supersedes a record observed before it.
pub open spec fn origin_points_back(origin: RecordOrigin, i: int) -> bool {
    match origin {
        RecordOrigin::Update(o) => o < i,
        RecordOrigin::Create => true,
    }
}

impl RecordStore {
    /// Well-formedness: every update pointer leads strictly forward to an
    /// existing record, every update origin points strictly backward,
    /// and every edge endpoint exists.
    pub open spec fn wf(self) -> bool {
        &&& forall|i: int, j: int|
            0 <= i < self.records@.len() && 0 <= j < self.records@[i].updates@.len()
                ==> i < #[trigger] self.records@[i].updates@[j] < self.records@.len()
        &&& forall|i: int|
            0 <= i < self.records@.len() ==> origin_points_back(
                (#[trigger] self.records@[i]).origin,
                i,
            )
        &&& forall|e: int|
            0 <= e < self.edges@.len()
                ==> (#[trigger] self.edges@[e]).base < self.records@.len()
                    && self.edges@[e].target < self.records@.len()
    }
}

/// The live revision of the record first published under `id`: follow the
/// chain of updates, taking the last observed update at each step; any
/// tombstone along the way kills the whole chain.
pub open spec fn live_revision(s: RecordStore, id: usize) -> Option<usize>
    decreases s.records@.len() - id,
        when s.wf()
{
    if id >= s.records@.len() {
        None
    } else if s.records@[id as int].deletes@.len() > 0 {
        None
    } else if s.records@[id as int].updates@.len() > 0 {
        live_revision(s, s.records@[id as int].updates@.last())
    } else {
        Some(id)
    }
}

/// The author of the original publication of the chain that `id` lies
/// on: follow the update origins back to the creating record.
pub open spec fn original_author(s: RecordStore, id: usize) -> u64
    decreases id,
        when s.wf() && id < s.records@.len()
{
    match s.records@[id as int].origin {
        RecordOrigin::Update(o) => original_author(s, o),
        RecordOrigin::Create => s.records@[id as int].author,
    }
}

/// The content of the live revision reached from `id`, if any.
pub open spec fn live_content(s: RecordStore, id: usize) -> Option<EntryTypes> {
    match live_revision(s, id) {
        Some(l) => Some(s.records@[l as int].content),
        None => None,
    }
}

/// The targets of the first `n` edges of kind `link_type` rooted at
/// `base`, in order of appearance, deleted edges excluded.
pub open spec fn edge_targets_upto(s: RecordStore, base: usize, link_type: LinkTypes, n: int) -> Seq<
    usize,
>
    decreases n,
{
    if n <= 0 {
        Seq::empty()
    } else {
        let prev = edge_targets_upto(s, base, link_type, n - 1);
        let e = s.edges@[n - 1];
        if e.base == base && e.link_type == link_type && !e.deleted {
            prev.push(e.target)
        } else {
            prev
        }
    }
}

/// The targets of all live edges of kind `link_type` rooted at `base`.
pub open spec fn edge_targets(s: RecordStore, base: usize, link_type: LinkTypes) -> Seq<usize> {
    edge_targets_upto(s, base, link_type, s.edges@.len() as int)
}

/// `post` is `pre` with one fresh record appended under `id`.
pub open spec fn appended_record(
    pre: RecordStore,
    post: RecordStore,
    id: usize,
    content: EntryTypes,
    author: u64,
    origin: RecordOrigin,
) -> bool {
    &&& id == pre.records@.len()
    &&& post.records@.len() == pre.records@.len() + 1
    &&& forall|i: int| 0 <= i < pre.records@.len() ==> post.records@[i] == pre.records@[i]
    &&& post.records@[id as int].content == content
    &&& post.records@[id as int].author == author
    &&& post.records@[id as int].origin == origin
    &&& post.records@[id as int].updates@.len() == 0
    &&& post.records@[id as int].deletes@.len() == 0
}

/// `post` is `pre` with a fresh record appended under `id` and registered
/// as the latest update of `original`.
pub open spec fn updated_record(
    pre: RecordStore,
    post: RecordStore,
    original: usize,
    id: usize,
    content: EntryTypes,
    author: u64,
) -> bool {
    &&& id == pre.records@.len()
    &&& post.records@.len() == pre.records@.len() + 1
    &&& forall|i: int|
        0 <= i < pre.records@.len() && i != original ==> post.records@[i] == pre.records@[i]
    &&& post.records@[original as int].content == pre.records@[original as int].content
    &&& post.records@[original as int].author == pre.records@[original as int].author
    &&& post.records@[original as int].origin == pre.records@[original as int].origin
    &&& post.records@[original as int].deletes@ == pre.records@[original as int].deletes@
    &&& post.records@[original as int].updates@ == pre.records@[original as int].updates@.push(id)
    &&& post.records@[id as int].content == content
    &&& post.records@[id as int].author == author
    &&& post.records@[id as int].origin == (RecordOrigin::Update(original))
    &&& post.records@[id as int].updates@.len() == 0
    &&& post.records@[id as int].deletes@.len() == 0
}

/// `post` is `pre` with one more tombstone mark on the record under `id`.
pub open spec fn tombstoned_record(pre: RecordStore, post: RecordStore, id: usize, mark: u64) -> bool {
    &&& post.records@.len() == pre.records@.len()
    &&& forall|i: int|
        0 <= i < pre.records@.len() && i != id ==> post.records@[i] == pre.records@[i]
    &&& post.records@[id as int].content == pre.records@[id as int].content
    &&& post.records@[id as int].author == pre.records@[id as int].author
    &&& post.records@[id as int].origin == pre.records@[id as int].origin
    &&& post.records@[id as int].updates@ == pre.records@[id as int].updates@
    &&& post.records@[id as int].deletes@ == pre.records@[id as int].deletes@.push(mark)
}

/// An element-for-element copy of a list of record ids.
pub fn copy_ids(ids: &Vec<usize>) -> (r: Vec<usize>)
    ensures
        r@ == ids@,
{
    let mut r: Vec<usize> = Vec::new();
    let mut i: usize = 0;
    while i < ids.len()
        invariant
            i <= ids@.len(),
            r@ == ids@.take(i as int),
        decreases ids@.len() - i,
    {
        r.push(ids[i]);
        proof {
            assert(r@ =~= ids@.take(i + 1));
        }
        i = i + 1;
    }
    proof {
        assert(ids@.take(ids@.len() as int) =~= ids@);
    }
    r
}

/// An element-for-element copy of a list of tombstone marks.
pub fn copy_marks(marks: &Vec<u64>) -> (r: Vec<u64>)
    ensures
        r@ == marks@,
{
    let mut r: Vec<u64> = Vec::new();
    let mut i: usize = 0;
    while i < marks.len()
        invariant
            i <= marks@.len(),
            r@ == marks@.take(i as int),
        decreases marks@.len() - i,
    {
        r.push(marks[i]);
        proof {
            assert(r@ =~= marks@.take(i + 1));
        }
        i = i + 1;
    }
    proof {
        assert(marks@.take(marks@.len() as int) =~= marks@);
    }
    r
}

impl RecordStore {
    /// An empty store.
    pub fn new() -> (s: RecordStore)
        ensures
            s.wf(),
            s.records@.len() == 0,
            s.edges@.len() == 0,
    {
        RecordStore { records: Vec::new(), edges: Vec::new() }
    }

    /// Append a record, returning its id. The record starts live: no
    /// updates, no tombstones.
    pub fn put_record(&mut self, content: EntryTypes, author: u64, origin: RecordOrigin) -> (id:
        usize)
        requires
            old(self).wf(),
            origin_points_back(origin, old(self).records@.len() as int),
        ensures
            final(self).wf(),
            id == old(self).records@.len(),
            final(self).records@.len() == old(self).records@.len() + 1,
            forall|i: int|
                0 <= i < old(self).records@.len() ==> final(self).records@[i] == old(self).records@[i],
            final(self).records@[id as int].content == content,
            final(self).records@[id as int].author == author,
            final(self).records@[id as int].origin == origin,
            final(self).records@[id as int].updates@.len() == 0,
            final(self).records@[id as int].deletes@.len() == 0,
            final(self).edges@ == old(self).edges@,
    {
        let id = self.records.len();
        self.records.push(
            RecordEntry { content, author, origin, updates: Vec::new(), deletes: Vec::new() },
        );
        id
    }

    /// Append a record that supersedes `original`, and register it in the
    /// original's update list.
    pub fn update_record(&mut self, original: usize, content: EntryTypes, author: u64) -> (id:
        usize)
        requires
            old(self).wf(),
            original < old(self).records@.len(),
        ensures
            final(self).wf(),
            id == old(self).records@.len(),
            final(self).records@.len() == old(self).records@.len() + 1,
            forall|i: int|
                0 <= i < old(self).records@.len() && i != original ==> final(self).records@[i] == old(
                    self,
                ).records@[i],
            final(self).records@[original as int].content == old(self).records@[original as int].content,
            final(self).records@[original as int].author == old(self).records@[original as int].author,
            final(self).records@[original as int].origin == old(self).records@[original as int].origin,
            final(self).records@[original as int].deletes@ == old(
                self,
            ).records@[original as int].deletes@,
            final(self).records@[original as int].updates@ == old(
                self,
            ).records@[original as int].updates@.push(id),
            final(self).records@[id as int].content == content,
            final(self).records@[id as int].author == author,
            final(self).records@[id as int].origin == (RecordOrigin::Update(original)),
            final(self).records@[id as int].updates@.len() == 0,
            final(self).records@[id as int].deletes@.len() == 0,
            final(self).edges@ == old(self).edges@,
    {
        let id = self.records.len();
        self.records.push(
            RecordEntry {
                content,
                author,
                origin: RecordOrigin::Update(original),
                updates: Vec::new(),
                deletes: Vec::new(),
            },
        );
        let entry = &mut self.records[original];
        entry.updates.push(id);
        id
    }

    /// Place a tombstone on the record first published under `id`.
    pub fn add_tombstone(&mut self, id: usize, mark: u64)
        requires
            old(self).wf(),
            id < old(self).records@.len(),
        ensures
            final(self).wf(),
            final(self).records@.len() == old(self).records@.len(),
            forall|i: int|
                0 <= i < old(self).records@.len() && i != id ==> final(self).records@[i] == old(
                    self,
                ).records@[i],
            final(self).records@[id as int].content == old(self).records@[id as int].content,
            final(self).records@[id as int].author == old(self).records@[id as int].author,
            final(self).records@[id as int].origin == old(self).records@[id as int].origin,
            final(self).records@[id as int].updates@ == old(self).records@[id as int].updates@,
            final(self).records@[id as int].deletes@ == old(self).records@[id as int].deletes@.push(mark),
            final(self).edges@ == old(self).edges@,
    {
        let entry = &mut self.records[id];
        entry.deletes.push(mark);
    }

    /// Append a live edge from `base` to `target`.
    pub fn create_edge(&mut self, base: usize, target: usize, link_type: LinkTypes)
        requires
            old(self).wf(),
            base < old(self).records@.len(),
            target < old(self).records@.len(),
        ensures
            final(self).wf(),
            final(self).records@ == old(self).records@,
            final(self).edges@ == old(self).edges@.push(
                (Edge { base, target, link_type, deleted: false }),
            ),
    {
        self.edges.push(Edge { base, target, link_type, deleted: false });
    }

    /// The record first published under `id`, with its store bookkeeping.
    pub fn get_record(&self, id: usize) -> (r: Option<&RecordEntry>)
        ensures
            match r {
                Some(entry) => id < self.records@.len() && *entry == self.records@[id as int],
                None => id >= self.records@.len(),
            },
    {
        if id < self.records.len() {
            Some(&self.records[id])
        } else {
            None
        }
    }

    /// The targets of all live edges of the given kind rooted at `base`.
    pub fn get_edges(&self, base: usize, link_type: LinkTypes) -> (r: Vec<usize>)
        ensures
            r@ == edge_targets(*self, base, link_type),
    {
        let mut r: Vec<usize> = Vec::new();
        let mut i: usize = 0;
        while i < self.edges.len()
            invariant
                i <= self.edges@.len(),
                r@ == edge_targets_upto(*self, base, link_type, i as int),
            decreases self.edges@.len() - i,
        {
            let e = self.edges[i];
            if e.base == base && e.link_type == link_type && !e.deleted {
                r.push(e.target);
            }
            i = i + 1;
        }
        r
    }

    /// Follow the update origins from `id` back to the creating record
    /// and return its author.
    pub fn resolve_original_author(&self, id: usize) -> (a: u64)
        requires
            self.wf(),
            id < self.records@.len(),
        ensures
            a == original_author(*self, id),
    {
        let mut cur = id;
        loop
            invariant
                cur < self.records@.len(),
                original_author(*self, cur) == original_author(*self, id),
            decreases cur,
        {
            match self.records[cur].origin {
                RecordOrigin::Update(o) => {
                    assert(o < cur);
                    cur = o;
                },
                RecordOrigin::Create => {
                    return self.records[cur].author;
                },
            }
        }
    }

    /// Follow the update chain from `id` to the live revision, if any.
    /// This is the version resolver: a tombstone anywhere on the chain
    /// makes the whole chain dead.
    pub fn resolve_latest(&self, id: usize) -> (r: Option<usize>)
        requires
            self.wf(),
        ensures
            r == live_revision(*self, id),
    {
        if id >= self.records.len() {
            return None;
        }
        let mut cur = id;
        loop
            invariant
                self.wf(),
                cur < self.records@.len(),
                live_revision(*self, id) == live_revision(*self, cur),
            decreases self.records@.len() - cur,
        {
            let entry = &self.records[cur];
            if entry.deletes.len() > 0 {
                return None;
            }
            if entry.updates.len() == 0 {
                return Some(cur);
            }
            let next = entry.updates[entry.updates.len() - 1];
            assert(cur < next < self.records@.len());
            cur = next;
        }
    }
}

} // verus!
