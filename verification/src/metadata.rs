//! Tolerant projection of a frame's attribute map into a typed
//! visualization descriptor.
//!
//! Decoding is total: an absent map yields the default descriptor, unknown
//! keys are ignored, and a recognized key whose value carries the wrong tag
//! leaves the corresponding field at its default.  No input is ever
//! rejected.

use vstd::prelude::*;
use vstd::string::StringExecFns;
use crate::fbits::{F64Bits, Rgba, F64_ONE_BITS, F64_POS_ZERO_BITS};
use crate::dynamic::{
    DynamicMap, DynamicValue, DynShape, dyn_shape, dyn_shape_seq, lemma_dyn_shape_seq,
};

verus! {

/// Default marker shape: an externally supplied mesh resource.
pub const DEFAULT_MESH_TYPE: i32 = 10;

/// Bit pattern of 0.001, the default mesh scale factor.
pub const DEFAULT_MESH_SCALE_BITS: u64 = 0x3F50_624D_D2F1_A9FC;

/// Typed visualization descriptor of one frame, rebuilt from the frame's
/// attribute map on every render tick.
pub struct VisualizationMetadata {
    /// Frames reachable next; `None` is distinct from an empty collection
    /// and means the attribute was absent or carried no string element.
    pub next_frame: Option<Vec<String>>,
    /// Free-form classification of the frame.
    pub frame_type: Option<String>,
    /// Whether a mesh marker may be emitted for the frame.
    pub visualize_mesh: bool,
    /// Whether a zone marker may be emitted for the frame.
    pub visualize_zone: bool,
    /// Zone radius; 0.0 is a disabling sentinel, not a valid radius.
    pub zone: F64Bits,
    /// Marker shape of the mesh marker.
    pub mesh_type: i32,
    /// Resource path of the mesh, relative to the configured asset base.
    pub mesh_path: Option<String>,
    /// Uniform mesh scale factor; the sentinel 0.0 means "use 1.0".
    pub mesh_scale: F64Bits,
    /// Mesh marker color.
    pub mesh_color: Rgba,
}

/// Mathematical shape of a [`VisualizationMetadata`].
pub ghost struct MetaShape {
    pub next_frame: Option<Seq<Seq<char>>>,
    pub frame_type: Option<Seq<char>>,
    pub visualize_mesh: bool,
    pub visualize_zone: bool,
    pub zone: u64,
    pub mesh_type: i32,
    pub mesh_path: Option<Seq<char>>,
    pub mesh_scale: u64,
    pub mesh_color: Rgba,
}

impl DeepView for VisualizationMetadata {
    type V = MetaShape;

    open spec fn deep_view(&self) -> MetaShape {
        MetaShape {
            next_frame: self.next_frame.deep_view(),
            frame_type: self.frame_type.deep_view(),
            visualize_mesh: self.visualize_mesh,
            visualize_zone: self.visualize_zone,
            zone: self.zone.bits,
            mesh_type: self.mesh_type,
            mesh_path: self.mesh_path.deep_view(),
            mesh_scale: self.mesh_scale.bits,
            mesh_color: self.mesh_color,
        }
    }
}

/// The descriptor every field of which is at its default: nothing is
/// visualized, the zone radius is the disabling sentinel, the mesh shape is
/// an external resource at scale 0.001, colored opaque white.
pub open spec fn default_meta() -> MetaShape {
    MetaShape {
        next_frame: None,
        frame_type: None,
        visualize_mesh: false,
        visualize_zone: false,
        zone: F64_POS_ZERO_BITS,
        mesh_type: DEFAULT_MESH_TYPE,
        mesh_path: None,
        mesh_scale: DEFAULT_MESH_SCALE_BITS,
        mesh_color: Rgba {
            r: F64Bits { bits: F64_ONE_BITS },
            g: F64Bits { bits: F64_ONE_BITS },
            b: F64Bits { bits: F64_ONE_BITS },
            a: F64Bits { bits: F64_ONE_BITS },
        },
    }
}

/// The string elements of an array of dynamic values, in order; elements of
/// any other tag are dropped.
pub open spec fn string_items(s: Seq<DynShape>) -> Seq<Seq<char>>
    decreases s.len(),
{
    if s.len() == 0 {
        Seq::empty()
    } else {
        let prefix = string_items(s.subrange(0, s.len() - 1));
        match s[s.len() - 1] {
            DynShape::Str(t) => prefix.push(t),
            _ => prefix,
        }
    }
}

/// One decoding step: the effect of a single attribute entry on the
/// descriptor decoded so far.  A recognized key whose value carries the
/// expected tag overwrites the field; any other entry changes nothing.
pub open spec fn apply_entry(m: MetaShape, key: Seq<char>, v: DynShape) -> MetaShape {
    if key == "next_frame"@ {
        match v {
            DynShape::Array(items) => {
                let strs = string_items(items);
                if strs.len() > 0 {
                    MetaShape { next_frame: Some(strs), ..m }
                } else {
                    m
                }
            },
            _ => m,
        }
    } else if key == "frame_type"@ {
        match v {
            DynShape::Str(t) => MetaShape { frame_type: Some(t), ..m },
            _ => m,
        }
    } else if key == "visualize_mesh"@ {
        match v {
            DynShape::Bool(b) => MetaShape { visualize_mesh: b, ..m },
            _ => m,
        }
    } else if key == "visualize_zone"@ {
        match v {
            DynShape::Bool(b) => MetaShape { visualize_zone: b, ..m },
            _ => m,
        }
    } else if key == "zone"@ {
        match v {
            DynShape::Float(bits) => MetaShape { zone: bits, ..m },
            _ => m,
        }
    } else if key == "mesh_type"@ {
        match v {
            DynShape::Int(i) => {
                if -0x8000_0000 <= i && i <= 0x7FFF_FFFF {
                    MetaShape { mesh_type: i as i32, ..m }
                } else {
                    m
                }
            },
            _ => m,
        }
    } else if key == "mesh_path"@ {
        match v {
            DynShape::Str(t) => MetaShape { mesh_path: Some(t), ..m },
            _ => m,
        }
    } else if key == "mesh_scale"@ {
        match v {
            DynShape::Float(bits) => MetaShape { mesh_scale: bits, ..m },
            _ => m,
        }
    } else if key == "mesh_r"@ {
        match v {
            DynShape::Float(bits) => MetaShape {
                mesh_color: Rgba { r: F64Bits { bits }, ..m.mesh_color },
                ..m
            },
            _ => m,
        }
    } else if key == "mesh_g"@ {
        match v {
            DynShape::Float(bits) => MetaShape {
                mesh_color: Rgba { g: F64Bits { bits }, ..m.mesh_color },
                ..m
            },
            _ => m,
        }
    } else if key == "mesh_b"@ {
        match v {
            DynShape::Float(bits) => MetaShape {
                mesh_color: Rgba { b: F64Bits { bits }, ..m.mesh_color },
                ..m
            },
            _ => m,
        }
    } else if key == "mesh_a"@ {
        match v {
            DynShape::Float(bits) => MetaShape {
                mesh_color: Rgba { a: F64Bits { bits }, ..m.mesh_color },
                ..m
            },
            _ => m,
        }
    } else {
        m
    }
}

/// The descriptor decoded from an entry sequence: every entry applied in
/// order to the default descriptor, later entries shadowing earlier ones.
pub open spec fn decode_entries(s: Seq<(Seq<char>, DynShape)>) -> MetaShape
    decreases s.len(),
{
    if s.len() == 0 {
        default_meta()
    } else {
        apply_entry(
            decode_entries(s.subrange(0, s.len() - 1)),
            s[s.len() - 1].0,
            s[s.len() - 1].1,
        )
    }
}

/// The descriptor decoded from an attribute map that may be absent: an
/// absent map decodes to the default descriptor.
pub open spec fn decode_shape(m: Option<Seq<(Seq<char>, DynShape)>>) -> MetaShape {
    match m {
        Some(entries) => decode_entries(entries),
        None => default_meta(),
    }
}

/// Decoding an absent attribute map yields the all-default descriptor.
pub proof fn lemma_decode_absent_is_default()
    ensures
        decode_shape(None) == default_meta(),
{
}

/// Unfolds one step of `decode_entries` at index `i`.
proof fn lemma_decode_entries_step(s: Seq<(Seq<char>, DynShape)>, i: int)
    requires
        0 <= i < s.len(),
    ensures
        decode_entries(s.subrange(0, i + 1)) == apply_entry(
            decode_entries(s.subrange(0, i)),
            s[i].0,
            s[i].1,
        ),
{
    let p = s.subrange(0, i + 1);
    assert(p.subrange(0, p.len() - 1) =~= s.subrange(0, i));
    assert(p[p.len() - 1] == s[i]);
}

/// Unfolds one step of `string_items` at index `i`.
proof fn lemma_string_items_step(s: Seq<DynShape>, i: int)
    requires
        0 <= i < s.len(),
    ensures
        string_items(s.subrange(0, i + 1)) == (match s[i] {
            DynShape::Str(t) => string_items(s.subrange(0, i)).push(t),
            _ => string_items(s.subrange(0, i)),
        }),
{
    let p = s.subrange(0, i + 1);
    assert(p.subrange(0, p.len() - 1) =~= s.subrange(0, i));
    assert(p[p.len() - 1] == s[i]);
}

/// The all-default descriptor.
pub fn default_metadata() -> (r: VisualizationMetadata)
    ensures
        r.deep_view() == default_meta(),
{
    VisualizationMetadata {
        next_frame: None,
        frame_type: None,
        visualize_mesh: false,
        visualize_zone: false,
        zone: F64Bits { bits: F64_POS_ZERO_BITS },
        mesh_type: DEFAULT_MESH_TYPE,
        mesh_path: None,
        mesh_scale: F64Bits { bits: DEFAULT_MESH_SCALE_BITS },
        mesh_color: Rgba {
            r: F64Bits { bits: F64_ONE_BITS },
            g: F64Bits { bits: F64_ONE_BITS },
            b: F64Bits { bits: F64_ONE_BITS },
            a: F64Bits { bits: F64_ONE_BITS },
        },
    }
}

/// Collects the string elements of an array value, in order, dropping
/// elements of any other tag.
fn collect_string_items(elems: &Vec<DynamicValue>) -> (r: Vec<String>)
    ensures
        r.deep_view() == string_items(dyn_shape_seq(elems@)),
{
    let mut strs: Vec<String> = Vec::new();
    let n = elems.len();
    proof {
        lemma_dyn_shape_seq(elems@);
        assert(dyn_shape_seq(elems@).subrange(0, 0) =~= Seq::<DynShape>::empty());
        assert(strs.deep_view() =~= string_items(dyn_shape_seq(elems@).subrange(0, 0)));
    }
    for j in 0..n
        invariant
            n == elems@.len(),
            dyn_shape_seq(elems@).len() == n,
            forall|k: int|
                0 <= k < n ==> dyn_shape_seq(elems@)[k] == dyn_shape(#[trigger] elems@[k]),
            strs.deep_view() == string_items(dyn_shape_seq(elems@).subrange(0, j as int)),
    {
        proof {
            lemma_string_items_step(dyn_shape_seq(elems@), j as int);
        }
        let ghost prev = strs.deep_view();
        match &elems[j] {
            DynamicValue::Str(t) => {
                strs.push(t.clone());
                proof {
                    assert(strs.deep_view() =~= prev.push(t@));
                }
            },
            _ => {},
        }
    }
    proof {
        assert(dyn_shape_seq(elems@).subrange(0, n as int) =~= dyn_shape_seq(elems@));
    }
    strs
}

/// Decodes a frame's attribute map, which may be absent, into a typed
/// descriptor.  Total: no input is rejected, no entry is reported; a
/// recognized key whose value carries the wrong tag leaves its field at the
/// default.
pub fn decode_metadata(metadata: &Option<DynamicMap>) -> (r: VisualizationMetadata)
    ensures
        r.deep_view() == decode_shape(metadata.deep_view()),
{
    let mut r = default_metadata();
    match metadata {
        None => r,
        Some(map) => {
            let key_next_frame = String::from_str("next_frame");
            let key_frame_type = String::from_str("frame_type");
            let key_visualize_mesh = String::from_str("visualize_mesh");
            let key_visualize_zone = String::from_str("visualize_zone");
            let key_zone = String::from_str("zone");
            let key_mesh_type = String::from_str("mesh_type");
            let key_mesh_path = String::from_str("mesh_path");
            let key_mesh_scale = String::from_str("mesh_scale");
            let key_mesh_r = String::from_str("mesh_r");
            let key_mesh_g = String::from_str("mesh_g");
            let key_mesh_b = String::from_str("mesh_b");
            let key_mesh_a = String::from_str("mesh_a");
            let ghost dv = map.deep_view();
            let n = map.entries.len();
            proof {
                assert(dv.subrange(0, 0) =~= Seq::<(Seq<char>, DynShape)>::empty());
            }
            for i in 0..n
                invariant
                    n == map.entries@.len(),
                    dv == map.deep_view(),
                    dv.len() == n,
                    forall|k: int|
                        0 <= k < n ==> #[trigger] dv[k] == (
                            map.entries@[k].0@,
                            dyn_shape(map.entries@[k].1),
                        ),
                    r.deep_view() == decode_entries(dv.subrange(0, i as int)),
                    key_next_frame@ == "next_frame"@,
                    key_frame_type@ == "frame_type"@,
                    key_visualize_mesh@ == "visualize_mesh"@,
                    key_visualize_zone@ == "visualize_zone"@,
                    key_zone@ == "zone"@,
                    key_mesh_type@ == "mesh_type"@,
                    key_mesh_path@ == "mesh_path"@,
                    key_mesh_scale@ == "mesh_scale"@,
                    key_mesh_r@ == "mesh_r"@,
                    key_mesh_g@ == "mesh_g"@,
                    key_mesh_b@ == "mesh_b"@,
                    key_mesh_a@ == "mesh_a"@,
            {
                proof {
                    lemma_decode_entries_step(dv, i as int);
                }
                let ghost prev = r.deep_view();
                let ghost key = dv[i as int].0;
                let ghost value = dv[i as int].1;
                let entry = &map.entries[i];
                if entry.0 == key_next_frame {
                    match &entry.1 {
                        DynamicValue::Array(elems) => {
                            let strs = collect_string_items(elems);
                            if strs.len() > 0 {
                                r.next_frame = Some(strs);
                            }
                        },
                        _ => {},
                    }
                } else if entry.0 == key_frame_type {
                    match &entry.1 {
                        DynamicValue::Str(t) => {
                            r.frame_type = Some(t.clone());
                        },
                        _ => {},
                    }
                } else if entry.0 == key_visualize_mesh {
                    match &entry.1 {
                        DynamicValue::Bool(b) => {
                            r.visualize_mesh = *b;
                        },
                        _ => {},
                    }
                } else if entry.0 == key_visualize_zone {
                    match &entry.1 {
                        DynamicValue::Bool(b) => {
                            r.visualize_zone = *b;
                        },
                        _ => {},
                    }
                } else if entry.0 == key_zone {
                    match &entry.1 {
                        DynamicValue::Float(f) => {
                            r.zone = *f;
                        },
                        _ => {},
                    }
                } else if entry.0 == key_mesh_type {
                    match &entry.1 {
                        DynamicValue::Int(iv) => {
                            if -0x8000_0000i64 <= *iv && *iv <= 0x7FFF_FFFFi64 {
                                r.mesh_type = *iv as i32;
                            }
                        },
                        _ => {},
                    }
                } else if entry.0 == key_mesh_path {
                    match &entry.1 {
                        DynamicValue::Str(t) => {
                            r.mesh_path = Some(t.clone());
                        },
                        _ => {},
                    }
                } else if entry.0 == key_mesh_scale {
                    match &entry.1 {
                        DynamicValue::Float(f) => {
                            r.mesh_scale = *f;
                        },
                        _ => {},
                    }
                } else if entry.0 == key_mesh_r {
                    match &entry.1 {
                        DynamicValue::Float(f) => {
                            r.mesh_color.r = *f;
                        },
                        _ => {},
                    }
                } else if entry.0 == key_mesh_g {
                    match &entry.1 {
                        DynamicValue::Float(f) => {
                            r.mesh_color.g = *f;
                        },
                        _ => {},
                    }
                } else if entry.0 == key_mesh_b {
                    match &entry.1 {
                        DynamicValue::Float(f) => {
                            r.mesh_color.b = *f;
                        },
                        _ => {},
                    }
                } else if entry.0 == key_mesh_a {
                    match &entry.1 {
                        DynamicValue::Float(f) => {
                            r.mesh_color.a = *f;
                        },
                        _ => {},
                    }
                }
                proof {
                    assert(r.deep_view() == apply_entry(prev, key, value));
                }
            }
            proof {
                assert(dv.subrange(0, n as int) =~= dv);
            }
            r
        },
    }
}

} // verus!
