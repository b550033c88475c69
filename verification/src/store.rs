//! The transform store: the sole data structure holding frame state.
//!
//! The store maps child-frame identifiers to transform records.  Keys are
//! unique and records keep their insertion order, which is the order the
//! render pipeline walks them in.  The store hands out snapshots that are
//! independent copies: mutating a snapshot never changes the store.

use vstd::prelude::*;
use crate::fbits::TransformBits;
use crate::dynamic::{DynamicMap, DynShape, map_clone};

verus! {

/// One parent -> child spatial transform with its free-form attributes.
pub struct TransformRecord {
    pub parent_frame_id: String,
    pub child_frame_id: String,
    pub transform: TransformBits,
    /// Whether the transform varies over time; decides which of the two
    /// transform batches the record is published in.
    pub active_transform: bool,
    /// Semi-structured attributes; may be absent.
    pub metadata: Option<DynamicMap>,
}

/// Mathematical shape of a [`TransformRecord`].
pub ghost struct RecordShape {
    pub parent_frame_id: Seq<char>,
    pub child_frame_id: Seq<char>,
    pub transform: TransformBits,
    pub active_transform: bool,
    pub metadata: Option<Seq<(Seq<char>, DynShape)>>,
}

impl DeepView for TransformRecord {
    type V = RecordShape;

    open spec fn deep_view(&self) -> RecordShape {
        RecordShape {
            parent_frame_id: self.parent_frame_id@,
            child_frame_id: self.child_frame_id@,
            transform: self.transform,
            active_transform: self.active_transform,
            metadata: self.metadata.deep_view(),
        }
    }
}

/// An independent copy of a record, equal in shape to the original.
pub fn record_clone(r: &TransformRecord) -> (c: TransformRecord)
    ensures
        c.deep_view() == r.deep_view(),
{
    TransformRecord {
        parent_frame_id: r.parent_frame_id.clone(),
        child_frame_id: r.child_frame_id.clone(),
        transform: r.transform,
        active_transform: r.active_transform,
        metadata: match &r.metadata {
            Some(m) => Some(map_clone(m)),
            None => None,
        },
    }
}

/// Child-frame identifiers are unique keys of the sequence.
pub open spec fn unique_children(s: Seq<RecordShape>) -> bool {
    forall|i: int, j: int|
        0 <= i < j < s.len() ==> #[trigger] s[i].child_frame_id != #[trigger] s[j].child_frame_id
}

/// Whether some record in `s` has child-frame identifier `id`.
pub open spec fn has_child(s: Seq<RecordShape>, id: Seq<char>) -> bool {
    exists|i: int| 0 <= i < s.len() && s[i].child_frame_id == id
}

/// The index of the record with child-frame identifier `id`; meaningful
/// only when exactly one exists.
pub open spec fn index_of_child(s: Seq<RecordShape>, id: Seq<char>) -> int {
    choose|i: int| 0 <= i < s.len() && s[i].child_frame_id == id
}

/// The record with child-frame identifier `id`, if any.
pub open spec fn lookup_child(s: Seq<RecordShape>, id: Seq<char>) -> Option<RecordShape> {
    if has_child(s, id) {
        Some(s[index_of_child(s, id)])
    } else {
        None
    }
}

/// Inserting into a keyed sequence: a record whose key is already present
/// replaces the old record in place; a new key is appended at the end.
pub open spec fn shape_insert(s: Seq<RecordShape>, r: RecordShape) -> Seq<RecordShape> {
    if has_child(s, r.child_frame_id) {
        s.update(index_of_child(s, r.child_frame_id), r)
    } else {
        s.push(r)
    }
}

/// Loading a batch: every record inserted in order, later records with the
/// same key shadowing earlier ones.
pub open spec fn shape_load(s: Seq<RecordShape>, rs: Seq<RecordShape>) -> Seq<RecordShape>
    decreases rs.len(),
{
    if rs.len() == 0 {
        s
    } else {
        shape_insert(shape_load(s, rs.subrange(0, rs.len() - 1)), rs[rs.len() - 1])
    }
}

/// Owned mapping from child-frame identifier to transform record.
pub struct TransformStore {
    pub records: Vec<TransformRecord>,
}

impl TransformStore {
    /// The records the store holds, in iteration order.
    pub open spec fn contents(&self) -> Seq<RecordShape> {
        self.records.deep_view()
    }

    /// Well-formed: child-frame identifiers are unique keys.
    pub open spec fn wf(&self) -> bool {
        unique_children(self.contents())
    }

    /// An empty store.
    pub fn new() -> (r: TransformStore)
        ensures
            r.contents() == Seq::<RecordShape>::empty(),
            r.wf(),
    {
        let r = TransformStore { records: Vec::new() };
        proof {
            assert(r.contents() =~= Seq::<RecordShape>::empty());
        }
        r
    }

    /// How many records the store holds.
    pub fn len(&self) -> (n: usize)
        ensures
            n == self.contents().len(),
    {
        self.records.len()
    }

    /// Inserts one record: replaces the record with the same child-frame
    /// identifier if one exists, else appends.
    pub fn insert(&mut self, r: TransformRecord)
        requires
            old(self).wf(),
        ensures
            final(self).contents() == shape_insert(old(self).contents(), r.deep_view()),
            final(self).wf(),
    {
        let ghost s0 = self.contents();
        let ghost rv = r.deep_view();
        let n = self.records.len();
        let mut i: usize = 0;
        while i < n
            invariant
                self == old(self),
                self.wf(),
                s0 == self.contents(),
                rv == r.deep_view(),
                n == s0.len(),
                0 <= i <= n,
                forall|k: int| 0 <= k < i ==> #[trigger] s0[k].child_frame_id != rv.child_frame_id,
            decreases n - i,
        {
            if self.records[i].child_frame_id == r.child_frame_id {
                proof {
                    assert(s0[i as int].child_frame_id == rv.child_frame_id);
                    assert(has_child(s0, rv.child_frame_id));
                    let w = index_of_child(s0, rv.child_frame_id);
                    assert(0 <= w < s0.len() && s0[w].child_frame_id == rv.child_frame_id);
                    assert(w == i as int) by {
                        if w < i as int {
                            assert(s0[w].child_frame_id != rv.child_frame_id);
                        }
                        if w > i as int {
                            assert(s0[i as int].child_frame_id != s0[w].child_frame_id);
                        }
                    }
                }
                self.records[i] = r;
                proof {
                    assert(self.contents() =~= s0.update(i as int, rv));
                    assert forall|p: int, q: int|
                        0 <= p < q < self.contents().len() implies #[trigger] self.contents()[p].child_frame_id
                        != #[trigger] self.contents()[q].child_frame_id by {
                        assert(s0[p].child_frame_id != s0[q].child_frame_id);
                        assert(self.contents()[p].child_frame_id == (if p == i as int {
                            rv.child_frame_id
                        } else {
                            s0[p].child_frame_id
                        }));
                        assert(self.contents()[q].child_frame_id == (if q == i as int {
                            rv.child_frame_id
                        } else {
                            s0[q].child_frame_id
                        }));
                    }
                }
                return ;
            }
            i += 1;
        }
        proof {
            assert(!has_child(s0, rv.child_frame_id));
        }
        self.records.push(r);
        proof {
            assert(self.contents() =~= s0.push(rv));
        }
    }

    /// Inserts every record of a batch, in order.
    pub fn load(&mut self, batch: &Vec<TransformRecord>)
        requires
            old(self).wf(),
        ensures
            final(self).contents() == shape_load(old(self).contents(), batch.deep_view()),
            final(self).wf(),
    {
        let ghost s0 = old(self).contents();
        let ghost bv = batch.deep_view();
        let n = batch.len();
        proof {
            assert(bv.subrange(0, 0) =~= Seq::<RecordShape>::empty());
        }
        for i in 0..n
            invariant
                n == batch@.len(),
                bv == batch.deep_view(),
                bv.len() == n,
                forall|k: int| 0 <= k < n ==> #[trigger] bv[k] == batch@[k].deep_view(),
                self.contents() == shape_load(s0, bv.subrange(0, i as int)),
                self.wf(),
        {
            proof {
                let p = bv.subrange(0, i + 1);
                assert(p.subrange(0, p.len() - 1) =~= bv.subrange(0, i as int));
                assert(p[p.len() - 1] == bv[i as int]);
            }
            self.insert(record_clone(&batch[i]));
        }
        proof {
            assert(bv.subrange(0, n as int) =~= bv);
        }
    }

    /// The record stored under a child-frame identifier, if any.
    pub fn get(&self, child: &String) -> (r: Option<&TransformRecord>)
        requires
            self.wf(),
        ensures
            r matches Some(rec) ==> lookup_child(self.contents(), child@) == Some(rec.deep_view()),
            r is None ==> lookup_child(self.contents(), child@) is None,
    {
        let ghost s = self.contents();
        let n = self.records.len();
        let mut i: usize = 0;
        while i < n
            invariant
                self.wf(),
                s == self.contents(),
                n == s.len(),
                0 <= i <= n,
                forall|k: int| 0 <= k < i ==> #[trigger] s[k].child_frame_id != child@,
            decreases n - i,
        {
            if self.records[i].child_frame_id == *child {
                proof {
                    assert(s[i as int].child_frame_id == child@);
                    assert(has_child(s, child@));
                    let w = index_of_child(s, child@);
                    assert(0 <= w < s.len() && s[w].child_frame_id == child@);
                    assert(w == i as int) by {
                        if w < i as int {
                            assert(s[w].child_frame_id != child@);
                        }
                        if w > i as int {
                            assert(s[i as int].child_frame_id != s[w].child_frame_id);
                        }
                    }
                }
                return Some(&self.records[i]);
            }
            i += 1;
        }
        proof {
            assert(!has_child(s, child@));
        }
        None
    }

    /// A snapshot: an independent, deep copy of every record, in store
    /// order.  The caller owns the result; mutating it cannot change the
    /// store.
    pub fn snapshot(&self) -> (r: Vec<TransformRecord>)
        ensures
            r.deep_view() == self.contents(),
    {
        let mut out: Vec<TransformRecord> = Vec::new();
        let n = self.records.len();
        for i in 0..n
            invariant
                n == self.records@.len(),
                out@.len() == i,
                forall|k: int|
                    0 <= k < i ==> #[trigger] out@[k].deep_view() == self.records@[
                        k
                    ].deep_view(),
        {
            out.push(record_clone(&self.records[i]));
        }
        proof {
            assert(out.deep_view() =~= self.contents());
        }
        out
    }
}

} // verus!
