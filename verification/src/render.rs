//! The per-tick render pipeline.
//!
//! Once per tick the pipeline walks a snapshot of the transform store in
//! store order and synthesizes four independent message batches: active
//! transforms, static transforms, zone markers and mesh markers.  Every
//! transform entry of one tick carries the single timestamp captured for
//! that tick.  Marker identities are drawn from one shared counter, so the
//! identifiers of the tick's combined mesh and zone output are unique and
//! contiguous, starting at 1.  Empty batches are meaningful output — they
//! clear stale entries downstream — and are produced, not suppressed.

use vstd::prelude::*;
use vstd::string::StringExecFns;
use crate::fbits::{f64_bits_is_zero, vec3_ones, F64Bits, Rgba, TransformBits, Vec3Bits,
    F64_ONE_BITS};
use crate::metadata::{decode_metadata, decode_shape, MetaShape};
use crate::store::{RecordShape, TransformRecord};

verus! {

/// Marker shape of a zone: a sphere.
pub const ZONE_MARKER_TYPE: i32 = 2;

/// Marker shape that indicates an externally supplied mesh resource, for
/// which a resource location is built.
pub const MESH_RESOURCE_MARKER_TYPE: i32 = 10;

/// Fixed lifetime of every emitted marker, in seconds.
pub const MARKER_LIFETIME_SEC: i32 = 2;

/// Zone marker color: translucent green.  Red and blue channels are 0.0,
/// the green channel is 255.0 and the alpha channel 0.15.
pub const ZONE_COLOR_R_BITS: u64 = 0x0000_0000_0000_0000;

pub const ZONE_COLOR_G_BITS: u64 = 0x406F_E000_0000_0000;

pub const ZONE_COLOR_B_BITS: u64 = 0x0000_0000_0000_0000;

pub const ZONE_COLOR_A_BITS: u64 = 0x3FC3_3333_3333_3333;

/// One instant of time, captured once per tick.
#[derive(Clone, Copy, PartialEq, Eq, Structural, Debug)]
pub struct Timestamp {
    pub sec: i32,
    pub nanosec: u32,
}

/// One transform entry of a tick: the record's transform stamped with the
/// tick's timestamp, filed under the parent frame.
pub struct StampedTransform {
    pub stamp: Timestamp,
    /// The parent frame the entry is filed under.
    pub frame_id: String,
    pub child_frame_id: String,
    pub transform: TransformBits,
}

/// Mathematical shape of a [`StampedTransform`].
pub ghost struct StampedShape {
    pub stamp: Timestamp,
    pub frame_id: Seq<char>,
    pub child_frame_id: Seq<char>,
    pub transform: TransformBits,
}

impl DeepView for StampedTransform {
    type V = StampedShape;

    open spec fn deep_view(&self) -> StampedShape {
        StampedShape {
            stamp: self.stamp,
            frame_id: self.frame_id@,
            child_frame_id: self.child_frame_id@,
            transform: self.transform,
        }
    }
}

/// One marker of a tick.  The parts every marker shares — identity pose at
/// the child frame's origin, zero header stamp, empty namespace, the fixed
/// lifetime of [`MARKER_LIFETIME_SEC`] seconds — are not repeated here; the
/// transport fills them in.
pub struct MarkerDescriptor {
    /// The child frame the marker is attached to.
    pub frame_id: String,
    /// Identity within the tick's combined mesh and zone output.
    pub id: i32,
    pub marker_type: i32,
    pub scale: Vec3Bits,
    pub color: Rgba,
    /// Resource location, present exactly when the marker shape indicates
    /// an external resource.
    pub mesh_resource: Option<String>,
}

/// Mathematical shape of a [`MarkerDescriptor`].
pub ghost struct MarkerShape {
    pub frame_id: Seq<char>,
    pub id: i32,
    pub marker_type: i32,
    pub scale: Vec3Bits,
    pub color: Rgba,
    pub mesh_resource: Option<Seq<char>>,
}

impl DeepView for MarkerDescriptor {
    type V = MarkerShape;

    open spec fn deep_view(&self) -> MarkerShape {
        MarkerShape {
            frame_id: self.frame_id@,
            id: self.id,
            marker_type: self.marker_type,
            scale: self.scale,
            color: self.color,
            mesh_resource: self.mesh_resource.deep_view(),
        }
    }
}

/// The four message batches of one tick.
pub struct TickOutput {
    pub active_transforms: Vec<StampedTransform>,
    pub static_transforms: Vec<StampedTransform>,
    pub zone_markers: Vec<MarkerDescriptor>,
    pub mesh_markers: Vec<MarkerDescriptor>,
}

/// Ghost state of the tick as it walks the snapshot: the four batches
/// built so far and the next marker identity to hand out.
pub ghost struct TickShape {
    pub active_transforms: Seq<StampedShape>,
    pub static_transforms: Seq<StampedShape>,
    pub zone_markers: Seq<MarkerShape>,
    pub mesh_markers: Seq<MarkerShape>,
    pub next_id: int,
}

/// A mesh marker may be emitted for a frame exactly when the decoded
/// attributes ask for one and name a mesh path.
pub open spec fn mesh_eligible(m: MetaShape) -> bool {
    m.visualize_mesh && m.mesh_path is Some
}

/// A zone marker may be emitted for a frame exactly when the decoded
/// attributes ask for one and the zone radius is not the disabling
/// sentinel 0.0.
pub open spec fn zone_eligible(m: MetaShape) -> bool {
    m.visualize_zone && !f64_bits_is_zero(m.zone)
}

/// The transform entry a record projects to.
pub open spec fn transform_entry(r: RecordShape, stamp: Timestamp) -> StampedShape {
    StampedShape {
        stamp,
        frame_id: r.parent_frame_id,
        child_frame_id: r.child_frame_id,
        transform: r.transform,
    }
}

/// The mesh scale broadcast to all three axes, unless it is the sentinel
/// 0.0, which means (1.0, 1.0, 1.0).
pub open spec fn mesh_scale_vector(bits: u64) -> Vec3Bits {
    if f64_bits_is_zero(bits) {
        Vec3Bits {
            x: F64Bits { bits: F64_ONE_BITS },
            y: F64Bits { bits: F64_ONE_BITS },
            z: F64Bits { bits: F64_ONE_BITS },
        }
    } else {
        Vec3Bits {
            x: F64Bits { bits },
            y: F64Bits { bits },
            z: F64Bits { bits },
        }
    }
}

/// The resource location of a mesh marker: the configured base location
/// joined with the mesh path, present exactly when the marker shape
/// indicates an external resource.
pub open spec fn mesh_resource_location(m: MetaShape, base: Seq<char>) -> Option<Seq<char>> {
    if m.mesh_type == MESH_RESOURCE_MARKER_TYPE {
        Some(base + "/"@ + m.mesh_path->0)
    } else {
        None
    }
}

/// The mesh marker a record emits.
pub open spec fn mesh_marker(r: RecordShape, m: MetaShape, id: i32, base: Seq<char>) -> MarkerShape {
    MarkerShape {
        frame_id: r.child_frame_id,
        id,
        marker_type: m.mesh_type,
        scale: mesh_scale_vector(m.mesh_scale),
        color: m.mesh_color,
        mesh_resource: mesh_resource_location(m, base),
    }
}

/// The zone marker a record emits: a sphere scaled uniformly to the zone
/// radius, in the fixed translucent green.
pub open spec fn zone_marker(r: RecordShape, m: MetaShape, id: i32) -> MarkerShape {
    MarkerShape {
        frame_id: r.child_frame_id,
        id,
        marker_type: ZONE_MARKER_TYPE,
        scale: Vec3Bits {
            x: F64Bits { bits: m.zone },
            y: F64Bits { bits: m.zone },
            z: F64Bits { bits: m.zone },
        },
        color: Rgba {
            r: F64Bits { bits: ZONE_COLOR_R_BITS },
            g: F64Bits { bits: ZONE_COLOR_G_BITS },
            b: F64Bits { bits: ZONE_COLOR_B_BITS },
            a: F64Bits { bits: ZONE_COLOR_A_BITS },
        },
        mesh_resource: None,
    }
}

/// The tick before any record is walked: four empty batches, the next
/// marker identity 1.
pub open spec fn tick_empty() -> TickShape {
    TickShape {
        active_transforms: Seq::empty(),
        static_transforms: Seq::empty(),
        zone_markers: Seq::empty(),
        mesh_markers: Seq::empty(),
        next_id: 1,
    }
}

/// The effect of one record on the tick: its transform entry is appended
/// to the active or the static batch per `active_transform`; then a mesh
/// marker is emitted if the record is mesh-eligible, then a zone marker if
/// it is zone-eligible, each drawing the next identity from the shared
/// counter.
pub open spec fn tick_step(t: TickShape, r: RecordShape, stamp: Timestamp, base: Seq<char>) -> TickShape {
    let m = decode_shape(r.metadata);
    let t1 = if r.active_transform {
        TickShape { active_transforms: t.active_transforms.push(transform_entry(r, stamp)), ..t }
    } else {
        TickShape { static_transforms: t.static_transforms.push(transform_entry(r, stamp)), ..t }
    };
    let t2 = if mesh_eligible(m) {
        TickShape {
            mesh_markers: t1.mesh_markers.push(mesh_marker(r, m, t1.next_id as i32, base)),
            next_id: t1.next_id + 1,
            ..t1
        }
    } else {
        t1
    };
    if zone_eligible(m) {
        TickShape {
            zone_markers: t2.zone_markers.push(zone_marker(r, m, t2.next_id as i32)),
            next_id: t2.next_id + 1,
            ..t2
        }
    } else {
        t2
    }
}

/// The full tick over a snapshot: every record applied in store order.
pub open spec fn render_shape(s: Seq<RecordShape>, stamp: Timestamp, base: Seq<char>) -> TickShape
    decreases s.len(),
{
    if s.len() == 0 {
        tick_empty()
    } else {
        tick_step(
            render_shape(s.subrange(0, s.len() - 1), stamp, base),
            s[s.len() - 1],
            stamp,
            base,
        )
    }
}

/// Unfolds one step of `render_shape` at index `i`.
pub proof fn lemma_render_step(s: Seq<RecordShape>, stamp: Timestamp, base: Seq<char>, i: int)
    requires
        0 <= i < s.len(),
    ensures
        render_shape(s.subrange(0, i + 1), stamp, base) == tick_step(
            render_shape(s.subrange(0, i), stamp, base),
            s[i],
            stamp,
            base,
        ),
{
    let p = s.subrange(0, i + 1);
    assert(p.subrange(0, p.len() - 1) =~= s.subrange(0, i));
    assert(p[p.len() - 1] == s[i]);
}

/// Each record adds at most two markers, so the counter stays small.
proof fn lemma_next_id_bound(s: Seq<RecordShape>, stamp: Timestamp, base: Seq<char>)
    ensures
        1 <= render_shape(s, stamp, base).next_id <= 1 + 2 * s.len(),
    decreases s.len(),
{
    if s.len() > 0 {
        lemma_next_id_bound(s.subrange(0, s.len() - 1), stamp, base);
    }
}

/// The mesh scale sentinel: a mesh is scaled uniformly by its scale
/// factor, except that the sentinel 0.0 means unit scale (1.0, 1.0, 1.0).
pub proof fn lemma_mesh_scale_sentinel(bits: u64)
    ensures
        f64_bits_is_zero(bits) ==> mesh_scale_vector(bits) == (Vec3Bits {
            x: F64Bits { bits: F64_ONE_BITS },
            y: F64Bits { bits: F64_ONE_BITS },
            z: F64Bits { bits: F64_ONE_BITS },
        }),
        !f64_bits_is_zero(bits) ==> mesh_scale_vector(bits) == (Vec3Bits {
            x: F64Bits { bits },
            y: F64Bits { bits },
            z: F64Bits { bits },
        }),
{
}

/// Marker emission, record by record: walking record `i` appends exactly
/// one mesh marker to the tick's mesh batch if the record is mesh-eligible
/// — the decoded attributes ask for a mesh and name a path — and none
/// otherwise; and exactly one zone marker to the zone batch if it is
/// zone-eligible — the decoded attributes ask for a zone and the radius is
/// not 0.0 — and none otherwise.
pub proof fn lemma_marker_emission(s: Seq<RecordShape>, stamp: Timestamp, base: Seq<char>, i: int)
    requires
        0 <= i < s.len(),
    ensures
        ({
            let before = render_shape(s.subrange(0, i), stamp, base);
            let after = render_shape(s.subrange(0, i + 1), stamp, base);
            let m = decode_shape(s[i].metadata);
            &&& after.mesh_markers == (if mesh_eligible(m) {
                before.mesh_markers.push(mesh_marker(s[i], m, before.next_id as i32, base))
            } else {
                before.mesh_markers
            })
            &&& after.zone_markers == (if zone_eligible(m) {
                before.zone_markers.push(
                    zone_marker(
                        s[i],
                        m,
                        (before.next_id + (if mesh_eligible(m) {
                            1int
                        } else {
                            0int
                        })) as i32,
                    ),
                )
            } else {
                before.zone_markers
            })
        }),
{
    lemma_render_step(s, stamp, base, i);
}

/// How many records of the snapshot are zone-eligible.
pub open spec fn count_zone_eligible(s: Seq<RecordShape>) -> int
    decreases s.len(),
{
    if s.len() == 0 {
        0
    } else {
        count_zone_eligible(s.subrange(0, s.len() - 1)) + (if zone_eligible(
            decode_shape(s[s.len() - 1].metadata),
        ) {
            1int
        } else {
            0int
        })
    }
}

/// How many records of the snapshot are mesh-eligible.
pub open spec fn count_mesh_eligible(s: Seq<RecordShape>) -> int
    decreases s.len(),
{
    if s.len() == 0 {
        0
    } else {
        count_mesh_eligible(s.subrange(0, s.len() - 1)) + (if mesh_eligible(
            decode_shape(s[s.len() - 1].metadata),
        ) {
            1int
        } else {
            0int
        })
    }
}

/// Over the whole tick: the zone batch holds exactly one marker per
/// zone-eligible record and the mesh batch exactly one per mesh-eligible
/// record — a marker is emitted for a record if and only if the record is
/// eligible.
pub proof fn lemma_marker_counts(s: Seq<RecordShape>, stamp: Timestamp, base: Seq<char>)
    ensures
        render_shape(s, stamp, base).zone_markers.len() == count_zone_eligible(s),
        render_shape(s, stamp, base).mesh_markers.len() == count_mesh_eligible(s),
    decreases s.len(),
{
    if s.len() > 0 {
        lemma_marker_counts(s.subrange(0, s.len() - 1), stamp, base);
    }
}

/// The transform entries a snapshot projects to, restricted to records
/// whose `active_transform` flag equals `active`, in store order.
pub open spec fn expected_transforms(s: Seq<RecordShape>, stamp: Timestamp, active: bool) -> Seq<
    StampedShape,
>
    decreases s.len(),
{
    if s.len() == 0 {
        Seq::empty()
    } else {
        let p = expected_transforms(s.subrange(0, s.len() - 1), stamp, active);
        if s[s.len() - 1].active_transform == active {
            p.push(transform_entry(s[s.len() - 1], stamp))
        } else {
            p
        }
    }
}

/// Transform partition: every record of the snapshot appears in exactly
/// one of the two transform batches, exactly once — the active batch holds
/// precisely the projections of the records with `active_transform` set,
/// the static batch precisely those without, both in store order, and the
/// two batch lengths add up to the snapshot length.
pub proof fn lemma_transform_partition(s: Seq<RecordShape>, stamp: Timestamp, base: Seq<char>)
    ensures
        render_shape(s, stamp, base).active_transforms == expected_transforms(s, stamp, true),
        render_shape(s, stamp, base).static_transforms == expected_transforms(s, stamp, false),
        render_shape(s, stamp, base).active_transforms.len() + render_shape(
            s,
            stamp,
            base,
        ).static_transforms.len() == s.len(),
    decreases s.len(),
{
    if s.len() > 0 {
        lemma_transform_partition(s.subrange(0, s.len() - 1), stamp, base);
    }
}

/// Marker identities: within one tick's combined mesh and zone output the
/// identifiers are unique and contiguous, starting at 1 — every identifier
/// lies in `1 ..= total` where `total` is the combined number of markers,
/// no identifier repeats within a batch or across the two batches, and the
/// identity counter ends at `total + 1`.
pub proof fn lemma_marker_identities(s: Seq<RecordShape>, stamp: Timestamp, base: Seq<char>)
    requires
        s.len() <= 0x3FFF_FFFF,
    ensures
        ({
            let out = render_shape(s, stamp, base);
            let total = out.zone_markers.len() + out.mesh_markers.len();
            &&& out.next_id == 1 + total
            &&& forall|k: int|
                0 <= k < out.mesh_markers.len() ==> 1 <= (#[trigger] out.mesh_markers[k].id) as int
                    <= total
            &&& forall|k: int|
                0 <= k < out.zone_markers.len() ==> 1 <= (#[trigger] out.zone_markers[k].id) as int
                    <= total
            &&& forall|k: int, l: int|
                0 <= k < l < out.mesh_markers.len() ==> (#[trigger] out.mesh_markers[k].id) != (
                #[trigger] out.mesh_markers[l].id)
            &&& forall|k: int, l: int|
                0 <= k < l < out.zone_markers.len() ==> (#[trigger] out.zone_markers[k].id) != (
                #[trigger] out.zone_markers[l].id)
            &&& forall|k: int, l: int|
                0 <= k < out.mesh_markers.len() && 0 <= l < out.zone_markers.len() ==> (
                #[trigger] out.mesh_markers[k].id) != (#[trigger] out.zone_markers[l].id)
        }),
    decreases s.len(),
{
    if s.len() > 0 {
        let prefix = s.subrange(0, s.len() - 1);
        lemma_marker_identities(prefix, stamp, base);
        lemma_next_id_bound(prefix, stamp, base);
        let before = render_shape(prefix, stamp, base);
        let out = render_shape(s, stamp, base);
        assert(before.next_id <= 1 + 2 * prefix.len());
    }
}

/// Renders one tick from a snapshot: classifies every record in store
/// order into the active or static transform batch, stamps every entry
/// with the tick's single timestamp, and emits the eligible mesh and zone
/// markers with identities drawn from one shared counter starting at 1.
pub fn render_tick(snapshot: &Vec<TransformRecord>, stamp: Timestamp, mesh_base: &str) -> (out:
    TickOutput)
    requires
        snapshot@.len() <= 0x3FFF_FFFF,
    ensures
        out.active_transforms.deep_view() == render_shape(
            snapshot.deep_view(),
            stamp,
            mesh_base@,
        ).active_transforms,
        out.static_transforms.deep_view() == render_shape(
            snapshot.deep_view(),
            stamp,
            mesh_base@,
        ).static_transforms,
        out.zone_markers.deep_view() == render_shape(
            snapshot.deep_view(),
            stamp,
            mesh_base@,
        ).zone_markers,
        out.mesh_markers.deep_view() == render_shape(
            snapshot.deep_view(),
            stamp,
            mesh_base@,
        ).mesh_markers,
{
    let ghost sv = snapshot.deep_view();
    let ghost bv = mesh_base@;
    let mut active_transforms: Vec<StampedTransform> = Vec::new();
    let mut static_transforms: Vec<StampedTransform> = Vec::new();
    let mut zone_markers: Vec<MarkerDescriptor> = Vec::new();
    let mut mesh_markers: Vec<MarkerDescriptor> = Vec::new();
    let mut id: i32 = 0;
    let n = snapshot.len();
    proof {
        assert(sv.subrange(0, 0) =~= Seq::<RecordShape>::empty());
        assert(active_transforms.deep_view() =~= Seq::<StampedShape>::empty());
        assert(static_transforms.deep_view() =~= Seq::<StampedShape>::empty());
        assert(zone_markers.deep_view() =~= Seq::<MarkerShape>::empty());
        assert(mesh_markers.deep_view() =~= Seq::<MarkerShape>::empty());
    }
    for i in 0..n
        invariant
            n == snapshot@.len(),
            n <= 0x3FFF_FFFF,
            sv == snapshot.deep_view(),
            bv == mesh_base@,
            sv.len() == n,
            forall|k: int| 0 <= k < n ==> #[trigger] sv[k] == snapshot@[k].deep_view(),
            active_transforms.deep_view() == render_shape(
                sv.subrange(0, i as int),
                stamp,
                bv,
            ).active_transforms,
            static_transforms.deep_view() == render_shape(
                sv.subrange(0, i as int),
                stamp,
                bv,
            ).static_transforms,
            zone_markers.deep_view() == render_shape(
                sv.subrange(0, i as int),
                stamp,
                bv,
            ).zone_markers,
            mesh_markers.deep_view() == render_shape(
                sv.subrange(0, i as int),
                stamp,
                bv,
            ).mesh_markers,
            id as int == render_shape(sv.subrange(0, i as int), stamp, bv).next_id - 1,
            id as int <= 2 * i,
    {
        proof {
            lemma_render_step(sv, stamp, bv, i as int);
        }
        let ghost before = render_shape(sv.subrange(0, i as int), stamp, bv);
        let ghost after = render_shape(sv.subrange(0, i + 1), stamp, bv);
        let ghost rv = sv[i as int];
        let ghost m = decode_shape(rv.metadata);
        let record = &snapshot[i];
        let meta = decode_metadata(&record.metadata);
        proof {
            assert(record.deep_view() == rv);
            assert(meta.deep_view() == m);
        }
        let entry = StampedTransform {
            stamp,
            frame_id: record.parent_frame_id.clone(),
            child_frame_id: record.child_frame_id.clone(),
            transform: record.transform,
        };
        proof {
            assert(entry.deep_view() == transform_entry(rv, stamp));
        }
        if record.active_transform {
            let ghost prev = active_transforms.deep_view();
            active_transforms.push(entry);
            proof {
                assert(active_transforms.deep_view() =~= prev.push(transform_entry(rv, stamp)));
            }
        } else {
            let ghost prev = static_transforms.deep_view();
            static_transforms.push(entry);
            proof {
                assert(static_transforms.deep_view() =~= prev.push(transform_entry(rv, stamp)));
            }
        }
        if meta.visualize_mesh {
            match &meta.mesh_path {
                Some(path) => {
                    id = id + 1;
                    let scale = if !meta.mesh_scale.is_zero() {
                        Vec3Bits { x: meta.mesh_scale, y: meta.mesh_scale, z: meta.mesh_scale }
                    } else {
                        vec3_ones()
                    };
                    let mesh_resource = if meta.mesh_type == MESH_RESOURCE_MARKER_TYPE {
                        let mut uri = String::from_str(mesh_base);
                        uri.append("/");
                        uri.append(path.as_str());
                        proof {
                            assert(uri@ =~= bv + "/"@ + path@);
                        }
                        Some(uri)
                    } else {
                        None
                    };
                    let marker = MarkerDescriptor {
                        frame_id: record.child_frame_id.clone(),
                        id,
                        marker_type: meta.mesh_type,
                        scale,
                        color: meta.mesh_color,
                        mesh_resource,
                    };
                    let ghost prev = mesh_markers.deep_view();
                    proof {
                        assert(marker.deep_view() == mesh_marker(rv, m, id, bv));
                    }
                    mesh_markers.push(marker);
                    proof {
                        assert(mesh_markers.deep_view() =~= prev.push(mesh_marker(rv, m, id, bv)));
                    }
                },
                None => {},
            }
        }
        if meta.visualize_zone {
            if !meta.zone.is_zero() {
                id = id + 1;
                let marker = MarkerDescriptor {
                    frame_id: record.child_frame_id.clone(),
                    id,
                    marker_type: ZONE_MARKER_TYPE,
                    scale: Vec3Bits { x: meta.zone, y: meta.zone, z: meta.zone },
                    color: Rgba {
                        r: F64Bits { bits: ZONE_COLOR_R_BITS },
                        g: F64Bits { bits: ZONE_COLOR_G_BITS },
                        b: F64Bits { bits: ZONE_COLOR_B_BITS },
                        a: F64Bits { bits: ZONE_COLOR_A_BITS },
                    },
                    mesh_resource: None,
                };
                let ghost prev = zone_markers.deep_view();
                proof {
                    assert(marker.deep_view() == zone_marker(rv, m, id));
                }
                zone_markers.push(marker);
                proof {
                    assert(zone_markers.deep_view() =~= prev.push(zone_marker(rv, m, id)));
                }
            }
        }
        proof {
            assert(active_transforms.deep_view() == after.active_transforms);
            assert(static_transforms.deep_view() == after.static_transforms);
            assert(mesh_markers.deep_view() == after.mesh_markers);
            assert(zone_markers.deep_view() == after.zone_markers);
            assert(id as int == after.next_id - 1);
        }
    }
    proof {
        assert(sv.subrange(0, n as int) =~= sv);
    }
    TickOutput { active_transforms, static_transforms, zone_markers, mesh_markers }
}

/// One tick of the pipeline around the snapshot request: when the store
/// was unavailable this tick — the health check or the snapshot request
/// failed — nothing at all is published and the next tick retries; when a
/// snapshot arrived, the four batches rendered from it are published.
pub fn run_tick(snapshot: &Option<Vec<TransformRecord>>, stamp: Timestamp, mesh_base: &str) -> (out:
    Option<TickOutput>)
    requires
        snapshot matches Some(s) ==> s@.len() <= 0x3FFF_FFFF,
    ensures
        snapshot is None ==> out is None,
        snapshot matches Some(s) ==> out matches Some(t) && {
            &&& t.active_transforms.deep_view() == render_shape(
                s.deep_view(),
                stamp,
                mesh_base@,
            ).active_transforms
            &&& t.static_transforms.deep_view() == render_shape(
                s.deep_view(),
                stamp,
                mesh_base@,
            ).static_transforms
            &&& t.zone_markers.deep_view() == render_shape(
                s.deep_view(),
                stamp,
                mesh_base@,
            ).zone_markers
            &&& t.mesh_markers.deep_view() == render_shape(
                s.deep_view(),
                stamp,
                mesh_base@,
            ).mesh_markers
        },
{
    match snapshot {
        None => None,
        Some(s) => Some(render_tick(s, stamp, mesh_base)),
    }
}

} // verus!
