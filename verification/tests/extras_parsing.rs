//! The extras payload grammar: well-formed payloads, defaults,
//! malformed texts, and the fixed-point number reading.

use boxes_game::blender_types::BMaterial;
use boxes_game::extras::{ColliderKind, ExtrasPayload, RigidBodyKind};
use boxes_game::json::parse_extras;
use boxes_game::materials::ColorReveal;
use boxes_game::math::Vec3i;
use boxes_game::platforms::{PlatformKind, StartEnd};
use boxes_game::OutOfBoundsBehavior;

#[test]
fn empty_object_is_all_defaults() {
    let p = parse_extras("{}").expect("empty object parses");
    assert_eq!(p, ExtrasPayload::empty());
}

#[test]
fn whitespace_around_object_is_accepted() {
    let p = parse_extras("  \n\t { } \r\n ").expect("padded empty object parses");
    assert_eq!(p, ExtrasPayload::empty());
}

#[test]
fn full_payload_parses() {
    let text = r#"{
        "rigid_body": "Dynamic",
        "collider": "Cuboid",
        "cube_size": [1.0, 2.5, 0.25],
        "is_spawn_point": true,
        "color_reveal": "Green",
        "out_of_bounds_behavior": "Respawn",
        "hold_point": true,
        "goal": false,
        "target": true,
        "material": "Goal",
        "platform_behavior": "MoveLinear",
        "start_end": "Start",
        "animation_offset": 1.5
    }"#;
    let p = parse_extras(text).expect("full payload parses");
    assert_eq!(p.rigid_body, Some(RigidBodyKind::Dynamic));
    assert_eq!(p.collider, Some(ColliderKind::Cuboid));
    assert_eq!(p.cube_size, Some(Vec3i { x: 1000, y: 2500, z: 250 }));
    assert!(p.is_spawn_point);
    assert_eq!(p.color_reveal, Some(ColorReveal::Green));
    assert_eq!(p.out_of_bounds_behavior, Some(OutOfBoundsBehavior::Respawn));
    assert!(p.hold_point);
    assert!(!p.goal);
    assert!(p.target);
    assert_eq!(p.material, Some(BMaterial::Goal));
    assert_eq!(p.platform_behavior, Some(PlatformKind::MoveLinear));
    assert_eq!(p.start_end, Some(StartEnd::Start));
    assert_eq!(p.animation_offset, 1500);
}

#[test]
fn null_fields_stay_unset() {
    let p = parse_extras(r#"{"rigid_body": null, "cube_size": null, "material": null}"#)
        .expect("null fields parse");
    assert_eq!(p, ExtrasPayload::empty());
}

#[test]
fn unknown_keys_are_skipped() {
    let p = parse_extras(r#"{"custom_note": "hello, world", "goal": true, "editor_data": [1, [2, 3], {"a": "}"}], "other": -12.5}"#)
        .expect("unknown keys never fail a payload");
    assert!(p.goal);
    assert!(!p.target);
}

#[test]
fn string_escapes_decode() {
    let p = parse_extras("{\"note\": \"a \\\"quoted\\\" \\\\ path\\n\", \"target\": true}")
        .expect("escaped strings parse");
    assert!(p.target);
}

#[test]
fn malformed_texts_are_refused() {
    // Not an object at all.
    assert_eq!(parse_extras(""), None);
    assert_eq!(parse_extras("42"), None);
    assert_eq!(parse_extras("level data"), None);
    // Broken structure.
    assert_eq!(parse_extras("{"), None);
    assert_eq!(parse_extras(r#"{"goal": true"#), None);
    assert_eq!(parse_extras(r#"{"goal" true}"#), None);
    assert_eq!(parse_extras(r#"{"goal": true,}"#), None);
    assert_eq!(parse_extras(r#"{"goal": true} extra"#), None);
    // Wrong value shapes on known keys.
    assert_eq!(parse_extras(r#"{"goal": "yes"}"#), None);
    assert_eq!(parse_extras(r#"{"rigid_body": "Bouncy"}"#), None);
    assert_eq!(parse_extras(r#"{"collider": true}"#), None);
    assert_eq!(parse_extras(r#"{"cube_size": [1, 2]}"#), None);
    assert_eq!(parse_extras(r#"{"cube_size": [1, 2, "three"]}"#), None);
    assert_eq!(parse_extras(r#"{"animation_offset": -1}"#), None);
    assert_eq!(parse_extras(r#"{"animation_offset": "soon"}"#), None);
    // Exponents are outside the accepted grammar.
    assert_eq!(parse_extras(r#"{"animation_offset": 1e3}"#), None);
}

#[test]
fn duplicate_known_key_is_refused() {
    assert_eq!(parse_extras(r#"{"goal": true, "goal": true}"#), None);
    assert_eq!(parse_extras(r#"{"material": null, "material": null}"#), None);
    // Unknown keys may repeat freely.
    let p = parse_extras(r#"{"note": 1, "note": 2, "target": true}"#).expect("parses");
    assert!(p.target);
}

#[test]
fn numbers_read_as_milli_units() {
    let p = parse_extras(r#"{"cube_size": [0.001, -2, 3.14159]}"#).expect("parses");
    // Three fraction digits are kept; the rest are dropped.
    assert_eq!(p.cube_size, Some(Vec3i { x: 1, y: -2000, z: 3141 }));
    let p = parse_extras(r#"{"animation_offset": 0}"#).expect("parses");
    assert_eq!(p.animation_offset, 0);
    let p = parse_extras(r#"{"animation_offset": 0.25}"#).expect("parses");
    assert_eq!(p.animation_offset, 250);
}

#[test]
fn overlong_numbers_are_refused() {
    assert_eq!(
        parse_extras(r#"{"animation_offset": 10000000000000000}"#),
        None,
        "sixteen integer digits pass the accepted range"
    );
}

#[test]
fn mesh_extras_slice() {
    let p = parse_extras(r#"{"material": "Goal", "start_end": "End", "animation_offset": 2}"#)
        .expect("parses");
    let m = p.mesh_extras();
    assert_eq!(m.material, Some(BMaterial::Goal));
    assert_eq!(m.start_end, Some(StartEnd::End));
    assert_eq!(m.animation_offset, 2000);
}
