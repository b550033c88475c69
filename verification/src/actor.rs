//! The state manager: exclusive owner of the transform store.
//!
//! All reads and mutations of the store go through [`StateManager::handle`],
//! one command at a time, each processed to full completion before the
//! next.  The surrounding process delivers commands over a channel in FIFO
//! order and sends each reply back on a dedicated one-shot channel; this
//! module holds the decisions, so that whatever delivers the commands, a
//! snapshot observes every command handled before it.

use vstd::prelude::*;
use crate::store::{
    RecordShape, TransformRecord, TransformStore, has_child, index_of_child, lookup_child,
    shape_insert, shape_load, unique_children,
};

verus! {

/// A command for the state manager.
pub enum Command {
    /// Replace or extend the store contents with an externally parsed
    /// scenario: every record is inserted in order.
    LoadScenario(Vec<TransformRecord>),
    /// Request an independent snapshot of the full store.
    GetAllTransforms,
}

/// The state manager's reply to one command.
pub enum Reply {
    /// The scenario was loaded.
    Loaded,
    /// The requested snapshot.
    Snapshot(Vec<TransformRecord>),
}

/// Exclusive owner of the transform store; serializes every access.
pub struct StateManager {
    pub store: TransformStore,
}

impl StateManager {
    pub open spec fn contents(&self) -> Seq<RecordShape> {
        self.store.contents()
    }

    pub open spec fn wf(&self) -> bool {
        self.store.wf()
    }

    /// A manager over an empty store.
    pub fn new() -> (r: StateManager)
        ensures
            r.contents() == Seq::<RecordShape>::empty(),
            r.wf(),
    {
        StateManager { store: TransformStore::new() }
    }

    /// Handles one command to full completion.  A load inserts every record
    /// of the batch in order; a snapshot request leaves the store unchanged
    /// and replies with an independent copy of its full contents.
    pub fn handle(&mut self, cmd: Command) -> (reply: Reply)
        requires
            old(self).wf(),
        ensures
            final(self).wf(),
            cmd matches Command::LoadScenario(batch) ==> {
                &&& final(self).contents() == shape_load(old(self).contents(), batch.deep_view())
                &&& reply == Reply::Loaded
            },
            cmd matches Command::GetAllTransforms ==> {
                &&& final(self).contents() == old(self).contents()
                &&& reply matches Reply::Snapshot(snap) && snap.deep_view() == old(
                    self,
                ).contents()
            },
    {
        match cmd {
            Command::LoadScenario(batch) => {
                self.store.load(&batch);
                Reply::Loaded
            },
            Command::GetAllTransforms => Reply::Snapshot(self.store.snapshot()),
        }
    }
}

/// Inserting one record into a sequence with unique keys: keys stay unique,
/// the inserted record is found under its key, and every other key still
/// maps to what it mapped to before.
pub proof fn lemma_insert_properties(s: Seq<RecordShape>, r: RecordShape)
    requires
        unique_children(s),
    ensures
        unique_children(shape_insert(s, r)),
        lookup_child(shape_insert(s, r), r.child_frame_id) == Some(r),
        forall|id: Seq<char>|
            id != r.child_frame_id ==> #[trigger] lookup_child(shape_insert(s, r), id)
                == lookup_child(s, id),
{
    let t = shape_insert(s, r);
    if has_child(s, r.child_frame_id) {
        let w = index_of_child(s, r.child_frame_id);
        assert(0 <= w < s.len() && s[w].child_frame_id == r.child_frame_id);
        assert(t == s.update(w, r));
        assert(forall|k: int| 0 <= k < t.len() ==> #[trigger] t[k].child_frame_id == s[
            k
        ].child_frame_id);
        assert(unique_children(t));
        // the inserted record is found under its own key
        assert(t[w].child_frame_id == r.child_frame_id);
        assert(has_child(t, r.child_frame_id));
        let w2 = index_of_child(t, r.child_frame_id);
        assert(0 <= w2 < t.len() && t[w2].child_frame_id == r.child_frame_id);
        assert(w2 == w);
        // every other key is untouched
        assert forall|id: Seq<char>|
            id != r.child_frame_id implies #[trigger] lookup_child(t, id) == lookup_child(
            s,
            id,
        ) by {
            if has_child(s, id) {
                let k = index_of_child(s, id);
                assert(0 <= k < s.len() && s[k].child_frame_id == id);
                assert(k != w);
                assert(t[k] == s[k]);
                assert(has_child(t, id));
                let k2 = index_of_child(t, id);
                assert(0 <= k2 < t.len() && t[k2].child_frame_id == id);
                assert(k2 == k);
            } else {
                assert(!has_child(t, id));
            }
        }
    } else {
        let n = s.len() as int;
        assert(t == s.push(r));
        assert(forall|k: int| 0 <= k < n ==> #[trigger] s[k].child_frame_id
            != r.child_frame_id);
        assert(unique_children(t));
        assert(t[n].child_frame_id == r.child_frame_id);
        assert(has_child(t, r.child_frame_id));
        let w2 = index_of_child(t, r.child_frame_id);
        assert(0 <= w2 < t.len() && t[w2].child_frame_id == r.child_frame_id);
        assert(w2 == n);
        assert forall|id: Seq<char>|
            id != r.child_frame_id implies #[trigger] lookup_child(t, id) == lookup_child(
            s,
            id,
        ) by {
            if has_child(s, id) {
                let k = index_of_child(s, id);
                assert(0 <= k < s.len() && s[k].child_frame_id == id);
                assert(t[k] == s[k]);
                assert(has_child(t, id));
                let k2 = index_of_child(t, id);
                assert(0 <= k2 < t.len() && t[k2].child_frame_id == id);
                assert(k2 == k);
            } else {
                assert(!has_child(t, id));
            }
        }
    }
}

/// Loading a batch into a sequence with unique keys keeps the keys unique.
pub proof fn lemma_load_unique(s: Seq<RecordShape>, batch: Seq<RecordShape>)
    requires
        unique_children(s),
    ensures
        unique_children(shape_load(s, batch)),
    decreases batch.len(),
{
    if batch.len() > 0 {
        lemma_load_unique(s, batch.subrange(0, batch.len() - 1));
        lemma_insert_properties(
            shape_load(s, batch.subrange(0, batch.len() - 1)),
            batch[batch.len() - 1],
        );
    }
}

/// The actor serializes: a snapshot requested after a scenario load
/// observes the loaded data.  For every record of the batch that is the
/// last one under its key, looking its key up in the store contents after
/// the load — which is exactly what the following snapshot replies with —
/// yields that record.
pub proof fn lemma_load_then_get_observes(
    s: Seq<RecordShape>,
    batch: Seq<RecordShape>,
    i: int,
)
    requires
        unique_children(s),
        0 <= i < batch.len(),
        forall|j: int|
            i < j < batch.len() ==> #[trigger] batch[j].child_frame_id != batch[
                i
            ].child_frame_id,
    ensures
        lookup_child(shape_load(s, batch), batch[i].child_frame_id) == Some(batch[i]),
    decreases batch.len(),
{
    let n = batch.len() as int;
    let prefix = batch.subrange(0, n - 1);
    lemma_load_unique(s, prefix);
    lemma_insert_properties(shape_load(s, prefix), batch[n - 1]);
    if i == n - 1 {
    } else {
        assert(batch[n - 1].child_frame_id != batch[i].child_frame_id);
        assert(prefix[i] == batch[i]);
        lemma_load_then_get_observes(s, prefix, i);
    }
}

} // verus!
