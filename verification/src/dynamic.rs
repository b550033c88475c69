//! Semi-structured per-frame attributes.
//!
//! A frame's attributes are an ordered map from string keys to dynamically
//! typed values.  Neither the presence nor the type of any key is
//! guaranteed; the decoder in [`crate::metadata`] projects such a map into a
//! typed descriptor without ever failing.

use vstd::prelude::*;
use crate::fbits::F64Bits;

verus! {

/// A dynamically typed attribute value: a tagged union over strings,
/// booleans, 64-bit integers, binary64 reals, arrays of further values, and
/// an explicit "no value" tag.
pub enum DynamicValue {
    Unset,
    Str(String),
    Bool(bool),
    Int(i64),
    Float(F64Bits),
    Array(Vec<DynamicValue>),
}

/// Mathematical shape of a [`DynamicValue`]: strings become character
/// sequences, arrays become sequences of shapes.
pub ghost enum DynShape {
    Unset,
    Str(Seq<char>),
    Bool(bool),
    Int(i64),
    Float(u64),
    Array(Seq<DynShape>),
}

/// The shape of a dynamic value, down to every nested array element.
pub open spec fn dyn_shape(v: DynamicValue) -> DynShape
    decreases v,
    via dyn_shape_decreases
{
    match v {
        DynamicValue::Unset => DynShape::Unset,
        DynamicValue::Str(s) => DynShape::Str(s@),
        DynamicValue::Bool(b) => DynShape::Bool(b),
        DynamicValue::Int(i) => DynShape::Int(i),
        DynamicValue::Float(f) => DynShape::Float(f.bits),
        DynamicValue::Array(elems) => DynShape::Array(dyn_shape_seq(elems@)),
    }
}

/// The shapes of a sequence of dynamic values, element by element.
pub open spec fn dyn_shape_seq(s: Seq<DynamicValue>) -> Seq<DynShape>
    decreases s,
{
    if s.len() == 0 {
        Seq::empty()
    } else {
        dyn_shape_seq(s.subrange(0, s.len() - 1)).push(dyn_shape(s[s.len() - 1]))
    }
}

#[via_fn]
proof fn dyn_shape_decreases(v: DynamicValue) {
    match v {
        DynamicValue::Array(elems) => {
            assert(decreases_to!(v => v->Array_0));
            assert(decreases_to!(v->Array_0 => (v->Array_0)@));
        },
        _ => {},
    }
}

/// `dyn_shape_seq` is the element-wise image of `dyn_shape`.
pub proof fn lemma_dyn_shape_seq(s: Seq<DynamicValue>)
    ensures
        dyn_shape_seq(s).len() == s.len(),
        forall|i: int| 0 <= i < s.len() ==> dyn_shape_seq(s)[i] == dyn_shape(s[i]),
    decreases s.len(),
{
    if s.len() > 0 {
        lemma_dyn_shape_seq(s.subrange(0, s.len() - 1));
    }
}

impl DeepView for DynamicValue {
    type V = DynShape;

    open spec fn deep_view(&self) -> DynShape {
        dyn_shape(*self)
    }
}

/// An ordered mapping from string keys to dynamic values.  Entries keep
/// their insertion order; a later entry with the same key shadows an
/// earlier one when the map is decoded.
pub struct DynamicMap {
    pub entries: Vec<(String, DynamicValue)>,
}

impl DeepView for DynamicMap {
    type V = Seq<(Seq<char>, DynShape)>;

    open spec fn deep_view(&self) -> Seq<(Seq<char>, DynShape)> {
        self.entries.deep_view()
    }
}

impl DynamicMap {
    /// An attribute map with no entries.
    pub fn new() -> (r: DynamicMap)
        ensures
            r.deep_view() == Seq::<(Seq<char>, DynShape)>::empty(),
    {
        let r = DynamicMap { entries: Vec::new() };
        proof {
            assert(r.deep_view() =~= Seq::<(Seq<char>, DynShape)>::empty());
        }
        r
    }

    /// Appends one entry; it shadows any earlier entry with the same key.
    pub fn push(&mut self, key: String, value: DynamicValue)
        ensures
            final(self).deep_view() == old(self).deep_view().push((key@, value.deep_view())),
    {
        self.entries.push((key, value));
        proof {
            assert(self.deep_view() =~= old(self).deep_view().push(
                (self.entries@.last().0@, self.entries@.last().1.deep_view()),
            ));
        }
    }
}

/// An independent copy of a dynamic value, equal in shape to the original.
pub fn dyn_clone(v: &DynamicValue) -> (r: DynamicValue)
    ensures
        r.deep_view() == v.deep_view(),
    decreases *v,
{
    match v {
        DynamicValue::Unset => DynamicValue::Unset,
        DynamicValue::Str(s) => DynamicValue::Str(s.clone()),
        DynamicValue::Bool(b) => DynamicValue::Bool(*b),
        DynamicValue::Int(i) => DynamicValue::Int(*i),
        DynamicValue::Float(f) => DynamicValue::Float(*f),
        DynamicValue::Array(elems) => {
            let mut out: Vec<DynamicValue> = Vec::new();
            let n = elems.len();
            for i in 0..n
                invariant
                    *v == DynamicValue::Array(*elems),
                    n == elems@.len(),
                    out@.len() == i,
                    forall|j: int|
                        0 <= j < i ==> #[trigger] dyn_shape(out@[j]) == dyn_shape(elems@[j]),
            {
                proof {
                    assert(decreases_to!(*v => (*v)->Array_0));
                    assert(decreases_to!((*v)->Array_0 => ((*v)->Array_0)@));
                    assert(decreases_to!(elems@ => elems@[i as int]));
                }
                out.push(dyn_clone(&elems[i]));
            }
            let r = DynamicValue::Array(out);
            proof {
                lemma_dyn_shape_seq(out@);
                lemma_dyn_shape_seq(elems@);
                assert(dyn_shape_seq(out@) =~= dyn_shape_seq(elems@));
            }
            r
        },
    }
}

/// An independent copy of an attribute map, equal in shape to the original.
pub fn map_clone(m: &DynamicMap) -> (r: DynamicMap)
    ensures
        r.deep_view() == m.deep_view(),
{
    let mut entries: Vec<(String, DynamicValue)> = Vec::new();
    let n = m.entries.len();
    for i in 0..n
        invariant
            n == m.entries@.len(),
            entries@.len() == i,
            forall|j: int|
                0 <= j < i ==> #[trigger] entries@[j].deep_view() == m.entries@[j].deep_view(),
    {
        let key = m.entries[i].0.clone();
        let value = dyn_clone(&m.entries[i].1);
        entries.push((key, value));
    }
    let r = DynamicMap { entries };
    proof {
        assert(r.deep_view() =~= m.deep_view());
    }
    r
}

} // verus!
