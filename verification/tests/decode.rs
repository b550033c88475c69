use transform_viz::dynamic::{DynamicMap, DynamicValue};
use transform_viz::fbits::F64Bits;
use transform_viz::metadata::{decode_metadata, DEFAULT_MESH_SCALE_BITS, DEFAULT_MESH_TYPE};

fn fbits(x: f64) -> DynamicValue {
    DynamicValue::Float(F64Bits { bits: x.to_bits() })
}

fn s(text: &str) -> String {
    String::from(text)
}

#[test]
fn decode_absent_map_is_default() {
    let r = decode_metadata(&None);
    assert!(r.next_frame.is_none());
    assert!(r.frame_type.is_none());
    assert!(!r.visualize_mesh);
    assert!(!r.visualize_zone);
    assert_eq!(r.zone.bits, (0.0f64).to_bits());
    assert_eq!(r.mesh_type, DEFAULT_MESH_TYPE);
    assert_eq!(r.mesh_type, 10);
    assert!(r.mesh_path.is_none());
    assert_eq!(r.mesh_scale.bits, DEFAULT_MESH_SCALE_BITS);
    assert_eq!(r.mesh_scale.bits, (0.001f64).to_bits());
    assert_eq!(r.mesh_color.r.bits, (1.0f64).to_bits());
    assert_eq!(r.mesh_color.g.bits, (1.0f64).to_bits());
    assert_eq!(r.mesh_color.b.bits, (1.0f64).to_bits());
    assert_eq!(r.mesh_color.a.bits, (1.0f64).to_bits());
}

#[test]
fn decode_empty_map_is_default() {
    let m = DynamicMap::new();
    let r = decode_metadata(&Some(m));
    assert!(r.next_frame.is_none());
    assert!(!r.visualize_mesh);
    assert!(!r.visualize_zone);
    assert_eq!(r.zone.bits, (0.0f64).to_bits());
}

#[test]
fn decode_reads_every_recognized_key() {
    let mut m = DynamicMap::new();
    m.push(
        s("next_frame"),
        DynamicValue::Array(vec![DynamicValue::Str(s("a")), DynamicValue::Str(s("b"))]),
    );
    m.push(s("frame_type"), DynamicValue::Str(s("gripper")));
    m.push(s("visualize_mesh"), DynamicValue::Bool(true));
    m.push(s("visualize_zone"), DynamicValue::Bool(true));
    m.push(s("zone"), fbits(0.5));
    m.push(s("mesh_type"), DynamicValue::Int(1));
    m.push(s("mesh_path"), DynamicValue::Str(s("box.stl")));
    m.push(s("mesh_scale"), fbits(2.5));
    m.push(s("mesh_r"), fbits(0.25));
    m.push(s("mesh_g"), fbits(0.5));
    m.push(s("mesh_b"), fbits(0.75));
    m.push(s("mesh_a"), fbits(1.0));
    let r = decode_metadata(&Some(m));
    assert_eq!(r.next_frame, Some(vec![s("a"), s("b")]));
    assert_eq!(r.frame_type, Some(s("gripper")));
    assert!(r.visualize_mesh);
    assert!(r.visualize_zone);
    assert_eq!(r.zone.bits, (0.5f64).to_bits());
    assert_eq!(r.mesh_type, 1);
    assert_eq!(r.mesh_path, Some(s("box.stl")));
    assert_eq!(r.mesh_scale.bits, (2.5f64).to_bits());
    assert_eq!(r.mesh_color.r.bits, (0.25f64).to_bits());
    assert_eq!(r.mesh_color.g.bits, (0.5f64).to_bits());
    assert_eq!(r.mesh_color.b.bits, (0.75f64).to_bits());
    assert_eq!(r.mesh_color.a.bits, (1.0f64).to_bits());
}

#[test]
fn decode_zone_with_wrong_tag_stays_default() {
    let mut m = DynamicMap::new();
    m.push(s("visualize_zone"), DynamicValue::Bool(true));
    m.push(s("zone"), DynamicValue::Str(s("0.5")));
    let r = decode_metadata(&Some(m));
    assert!(r.visualize_zone);
    assert_eq!(r.zone.bits, (0.0f64).to_bits());
}

#[test]
fn decode_bool_with_wrong_tag_stays_default() {
    let mut m = DynamicMap::new();
    m.push(s("visualize_mesh"), DynamicValue::Int(1));
    m.push(s("visualize_zone"), DynamicValue::Str(s("true")));
    m.push(s("mesh_path"), DynamicValue::Int(7));
    m.push(s("mesh_scale"), DynamicValue::Unset);
    let r = decode_metadata(&Some(m));
    assert!(!r.visualize_mesh);
    assert!(!r.visualize_zone);
    assert!(r.mesh_path.is_none());
    assert_eq!(r.mesh_scale.bits, (0.001f64).to_bits());
}

#[test]
fn decode_next_frame_drops_non_string_elements() {
    let mut m = DynamicMap::new();
    m.push(
        s("next_frame"),
        DynamicValue::Array(vec![
            DynamicValue::Int(1),
            DynamicValue::Str(s("a")),
            DynamicValue::Bool(false),
            DynamicValue::Str(s("b")),
        ]),
    );
    let r = decode_metadata(&Some(m));
    assert_eq!(r.next_frame, Some(vec![s("a"), s("b")]));
}

#[test]
fn decode_next_frame_without_strings_stays_none() {
    let mut m = DynamicMap::new();
    m.push(
        s("next_frame"),
        DynamicValue::Array(vec![DynamicValue::Int(1), DynamicValue::Bool(true)]),
    );
    let r = decode_metadata(&Some(m));
    assert!(r.next_frame.is_none());

    let mut m2 = DynamicMap::new();
    m2.push(s("next_frame"), DynamicValue::Array(vec![]));
    let r2 = decode_metadata(&Some(m2));
    assert!(r2.next_frame.is_none());

    let mut m3 = DynamicMap::new();
    m3.push(s("next_frame"), DynamicValue::Str(s("a")));
    let r3 = decode_metadata(&Some(m3));
    assert!(r3.next_frame.is_none());
}

#[test]
fn decode_unknown_keys_are_ignored() {
    let mut m = DynamicMap::new();
    m.push(s("color"), DynamicValue::Str(s("red")));
    m.push(s("weight"), fbits(1.5));
    m.push(s("zone"), fbits(0.25));
    let r = decode_metadata(&Some(m));
    assert_eq!(r.zone.bits, (0.25f64).to_bits());
    assert!(!r.visualize_zone);
    assert!(r.frame_type.is_none());
}

#[test]
fn decode_later_entry_shadows_earlier() {
    let mut m = DynamicMap::new();
    m.push(s("zone"), fbits(0.25));
    m.push(s("zone"), fbits(0.5));
    let r = decode_metadata(&Some(m));
    assert_eq!(r.zone.bits, (0.5f64).to_bits());
}

#[test]
fn decode_mismatch_after_match_keeps_earlier_value() {
    let mut m = DynamicMap::new();
    m.push(s("zone"), fbits(0.25));
    m.push(s("zone"), DynamicValue::Str(s("oops")));
    let r = decode_metadata(&Some(m));
    assert_eq!(r.zone.bits, (0.25f64).to_bits());
}

#[test]
fn decode_mesh_type_out_of_range_stays_default() {
    let mut m = DynamicMap::new();
    m.push(s("mesh_type"), DynamicValue::Int(1i64 << 40));
    let r = decode_metadata(&Some(m));
    assert_eq!(r.mesh_type, 10);
}

#[test]
fn decode_negative_zero_zone_is_kept_verbatim() {
    let mut m = DynamicMap::new();
    m.push(s("zone"), fbits(-0.0));
    let r = decode_metadata(&Some(m));
    assert_eq!(r.zone.bits, (-0.0f64).to_bits());
}
