//! End-to-end checks of the byte codec: the string writer, framed scopes,
//! the empty-marker protocol, texture remaps, understep tolerance, and raw
//! passthrough.

use distance_bytes::component::golden_simples::GoldenSimples;
use distance_bytes::component::transform::Transform;
use distance_bytes::decode::{read_game_object, read_game_object_with_warnings};
use distance_bytes::domain::{Component, ComponentData, GameObject, RawComponentData};
use distance_bytes::encode::write_game_object;
use distance_bytes::error::{EncodeError, WarningKind};
use distance_bytes::ids::ComponentId;
use distance_bytes::varint::push_varlen;
use distance_bytes::datetime::DistanceDateTime;
use distance_bytes::marks::scope_mark_string;
use distance_bytes::reader::Deserializer;
use distance_bytes::widestr::{push_string, read_string, WideStr};

fn wide(s: &str) -> WideStr {
    WideStr::from_units(s.encode_utf16().collect())
}

#[test]
fn test_write() {
    let s = "Nitronic";
    let mut buf: Vec<u8> = Vec::new();
    push_string(&mut buf, &wide(s));
    let expected: Vec<u8> = vec![
        0x10, 0x4e, 0x00, 0x69, 0x00, 0x74, 0x00, 0x72, 0x00, 0x6f, 0x00, 0x6e, 0x00, 0x69,
        0x00, 0x63, 0x00,
    ];
    assert_eq!(buf, expected);
}

#[test]
fn test_writing_then_reading_yields_original() {
    let original = "Rush";
    let mut buf: Vec<u8> = Vec::new();
    push_string(&mut buf, &wide(original));
    let (deserialized, end) = read_string(&buf, 0).unwrap();
    assert_eq!(end, buf.len());
    assert_eq!(deserialized, wide(original));
}

#[test]
fn surrogate_pair_string_roundtrip() {
    let original = "a\u{1F697}b";
    let mut buf: Vec<u8> = Vec::new();
    push_string(&mut buf, &wide(original));
    let (deserialized, _) = read_string(&buf, 0).unwrap();
    assert_eq!(deserialized, wide(original));
}

#[test]
fn unpaired_surrogate_is_fatal() {
    let bad = WideStr::from_units(vec![0xD800]);
    let mut buf: Vec<u8> = Vec::new();
    push_string(&mut buf, &bad);
    assert!(read_string(&buf, 0).is_err());
}

#[test]
fn varint_prefix_lengths() {
    for (value, bytes) in [
        (0u64, 1usize),
        (1, 1),
        (127, 1),
        (128, 2),
        (16_383, 2),
        (16_384, 3),
        (2_097_151, 3),
    ] {
        let mut buf: Vec<u8> = Vec::new();
        push_varlen(&mut buf, value);
        assert_eq!(buf.len(), bytes, "length {value}");
        let (back, end) = distance_bytes::varint::read_varlen(&buf, 0).unwrap();
        assert_eq!(back, value);
        assert_eq!(end, bytes);
    }
    let mut buf: Vec<u8> = Vec::new();
    push_varlen(&mut buf, 300);
    assert_eq!(buf, vec![0xAC, 0x02]);
}

fn minimal_game_object_bytes() -> Vec<u8> {
    let mut b: Vec<u8> = Vec::new();
    b.extend_from_slice(&66666666i32.to_le_bytes());
    b.extend_from_slice(&12i64.to_le_bytes());
    b.extend_from_slice(&[0x02, 0x41, 0x00]); // name "A"
    b.push(0x00); // empty prefab
    b.extend_from_slice(&1u32.to_le_bytes()); // guid
    b.extend_from_slice(&0i32.to_le_bytes()); // no components
    b
}

#[test]
fn minimal_game_object_decodes_and_reencodes() {
    let bytes = minimal_game_object_bytes();
    let go = read_game_object(&bytes).unwrap();
    assert_eq!(go.name, wide("A"));
    assert_eq!(go.guid, 1);
    assert!(go.components.is_empty());
    let reencoded = write_game_object(&go).unwrap();
    assert_eq!(reencoded, bytes);
}

/// Wrap component payload bytes into a one-component game object.
fn object_with_component(id: i32, version: i32, payload: &[u8], declared_len: Option<i64>) -> Vec<u8> {
    let comp_payload_len = 12 + payload.len() as i64;
    let comp_len = declared_len.unwrap_or(comp_payload_len);
    let mut comp: Vec<u8> = Vec::new();
    comp.extend_from_slice(&32323232i32.to_le_bytes());
    comp.extend_from_slice(&comp_len.to_le_bytes());
    comp.extend_from_slice(&id.to_le_bytes());
    comp.extend_from_slice(&version.to_le_bytes());
    comp.extend_from_slice(&7u32.to_le_bytes()); // component guid
    comp.extend_from_slice(payload);
    let mut body: Vec<u8> = Vec::new();
    body.extend_from_slice(&[0x02, 0x41, 0x00]); // name "A"
    body.push(0x00);
    body.extend_from_slice(&9u32.to_le_bytes());
    body.extend_from_slice(&1i32.to_le_bytes());
    body.extend_from_slice(&comp);
    let mut b: Vec<u8> = Vec::new();
    b.extend_from_slice(&66666666i32.to_le_bytes());
    b.extend_from_slice(&(body.len() as i64).to_le_bytes());
    b.extend_from_slice(&body);
    b
}

#[test]
fn empty_marker_transform_roundtrips() {
    // A transform whose position, rotation and scale are all the empty
    // marker, with an empty children scope.
    let mut payload: Vec<u8> = Vec::new();
    for _ in 0..3 {
        payload.extend_from_slice(&0x7FFF_FFFDi32.to_le_bytes());
    }
    payload.extend_from_slice(&55555555i32.to_le_bytes());
    payload.extend_from_slice(&4i64.to_le_bytes());
    payload.extend_from_slice(&0i32.to_le_bytes());
    let bytes = object_with_component(1, 0, &payload, None);
    let go = read_game_object(&bytes).unwrap();
    match &go.components[0].data {
        ComponentData::Transform(t) => {
            assert_eq!(t.position, None);
            assert_eq!(t.rotation, None);
            assert_eq!(t.scale, None);
        }
        other => panic!("not a transform: {other:?}"),
    }
    let reencoded = write_game_object(&go).unwrap();
    // The position slot sits after the component header; it must hold the
    // empty marker again.
    let pos_slot = bytes.len() - payload.len();
    assert_eq!(&reencoded[pos_slot..pos_slot + 4], &[0xFD, 0xFF, 0xFF, 0x7F]);
    let again = read_game_object(&reencoded).unwrap();
    assert_eq!(again, go);
}

#[test]
fn golden_simples_texture_remap() {
    // On-wire version 2, imageIndex 46: decodes to 72.
    let mut payload: Vec<u8> = Vec::new();
    payload.extend_from_slice(&46i32.to_le_bytes()); // imageIndex
    payload.extend_from_slice(&3i32.to_le_bytes()); // emitIndex
    payload.extend_from_slice(&0i32.to_le_bytes()); // preset Custom
    for _ in 0..6 {
        payload.extend_from_slice(&0u32.to_le_bytes()); // textureScale + textureOffset
    }
    payload.extend_from_slice(&[0, 0, 0, 0]); // flip, world, diffuse, bump
    payload.push(1); // disableReflect
    payload.extend_from_slice(&[0, 0]); // collision, additive
    payload.extend_from_slice(&[0, 0]); // multiplicative, invert
    let bytes = object_with_component(131, 2, &payload, None);
    let go = read_game_object(&bytes).unwrap();
    let gs = match &go.components[0].data {
        ComponentData::GoldenSimples(g) => g,
        other => panic!("not golden simples: {other:?}"),
    };
    assert_eq!(gs.image_index, 72);
    assert_eq!(gs.emit_index, 3);
    assert_eq!(go.components[0].version, 4);
    let reencoded = write_game_object(&go).unwrap();
    let again = read_game_object(&reencoded).unwrap();
    match &again.components[0].data {
        ComponentData::GoldenSimples(g) => assert_eq!(g.image_index, 72),
        other => panic!("not golden simples: {other:?}"),
    }
}

#[test]
fn scope_understep_is_tolerated_and_warned() {
    // A custom-name component whose scope declares 40 bytes but whose
    // schema consumes only 3: the reader must warn and continue exactly at
    // the declared end.
    let mut payload = vec![0x02, 0x41, 0x00]; // name "A"
    let declared = 12 + 40;
    payload.extend_from_slice(&[0u8; 37]); // unread tail
    let bytes = object_with_component(99, 0, &payload, Some(declared));
    let (go, warnings) = read_game_object_with_warnings(&bytes).unwrap();
    match &go.components[0].data {
        ComponentData::CustomName(n) => {
            assert_eq!(n.custom_name, Some(wide("A")));
        }
        other => panic!("not a custom name: {other:?}"),
    }
    let understeps: Vec<_> = warnings
        .iter()
        .filter(|w| w.kind == WarningKind::ScopeUnderstep)
        .collect();
    assert_eq!(understeps.len(), 1);
    // The warning carries the scopes still open at the time: the
    // enclosing game object.
    assert_eq!(understeps[0].scope_stack, vec![66666666]);
}

#[test]
fn unknown_component_passthrough() {
    // Kind 9 (a light) is known but carries no typed schema: its payload
    // must survive byte for byte.
    let payload: Vec<u8> = vec![0xDE, 0xAD, 0xBE, 0xEF, 0x01, 0x02, 0x03];
    let bytes = object_with_component(9, 5, &payload, None);
    let go = read_game_object(&bytes).unwrap();
    assert_eq!(go.components[0].id, ComponentId::Light);
    assert_eq!(go.components[0].version, 5);
    match &go.components[0].data {
        ComponentData::Raw(RawComponentData(data)) => assert_eq!(data, &payload),
        other => panic!("not raw: {other:?}"),
    }
    let reencoded = write_game_object(&go).unwrap();
    let tail = &reencoded[reencoded.len() - payload.len()..];
    assert_eq!(tail, &payload[..]);
    let again = read_game_object(&reencoded).unwrap();
    assert_eq!(again, go);
}

#[test]
fn unknown_component_id_is_skipped() {
    let bytes = object_with_component(5000, 1, &[1, 2, 3], None);
    let (go, warnings) = read_game_object_with_warnings(&bytes).unwrap();
    assert!(go.components.is_empty());
    assert!(warnings.iter().any(|w| w.kind == WarningKind::UnknownComponentId));
}

#[test]
fn event_listener_hash_version_becomes_name() {
    let mut payload: Vec<u8> = Vec::new();
    payload.extend_from_slice(&1234i32.to_le_bytes());
    let bytes = object_with_component(138, 0, &payload, None);
    let go = read_game_object(&bytes).unwrap();
    match &go.components[0].data {
        ComponentData::ZEventListener(z) => {
            assert_eq!(z.event_name, wide("Event 1234"));
        }
        other => panic!("not a listener: {other:?}"),
    }
}

#[test]
fn negative_scope_length_is_fatal() {
    let mut b: Vec<u8> = Vec::new();
    b.extend_from_slice(&66666666i32.to_le_bytes());
    b.extend_from_slice(&(-5i64).to_le_bytes());
    b.extend_from_slice(&[0u8; 16]);
    assert!(read_game_object(&b).is_err());
}

#[test]
fn nested_children_roundtrip() {
    // A parent whose transform carries one child: encode, decode, and the
    // trees must agree.
    let child = GameObject {
        name: wide("child"),
        guid: 2,
        components: Vec::new(),
    };
    let t = Transform {
        position: None,
        rotation: None,
        scale: None,
        children: vec![child],
    };
    let parent = GameObject {
        name: wide("parent"),
        guid: 1,
        components: vec![Component {
            id: ComponentId::Transform,
            version: 0,
            guid: 3,
            data: ComponentData::Transform(t),
        }],
    };
    let bytes = write_game_object(&parent).unwrap();
    let back = read_game_object(&bytes).unwrap();
    assert_eq!(back, parent);
    let bytes2 = write_game_object(&back).unwrap();
    assert_eq!(bytes2, bytes);
}

#[test]
fn golden_simples_current_version_roundtrip() {
    let gs = GoldenSimples::default();
    let go = GameObject {
        name: wide("g"),
        guid: 1,
        components: vec![Component {
            id: ComponentId::GoldenSimples,
            version: 4,
            guid: 9,
            data: ComponentData::GoldenSimples(gs),
        }],
    };
    let bytes = write_game_object(&go).unwrap();
    let back = read_game_object(&bytes).unwrap();
    assert_eq!(back, go);
    assert_eq!(write_game_object(&back).unwrap(), bytes);
}

#[test]
fn datetime_file_time_conversions() {
    let dt = DistanceDateTime::from_windows_file_time(132_500_000_000_000_000).unwrap();
    assert_eq!(dt.to_windows_file_time(), Some(132_500_000_000_000_000));
    assert!(DistanceDateTime::from_windows_file_time(-1).is_none());
}

#[test]
fn scope_mark_names() {
    assert_eq!(scope_mark_string(66666666), "GameObject");
    assert_eq!(scope_mark_string(11111111), "Array");
    assert_eq!(scope_mark_string(0x7FFF_FFFD), "Empty");
    assert_eq!(scope_mark_string(5), "INVALID");
}

#[test]
fn mismatched_component_kind_is_rejected() {
    let t = Transform { position: None, rotation: None, scale: None, children: Vec::new() };
    let c = Component {
        id: ComponentId::Light,
        version: 0,
        guid: 5,
        data: ComponentData::Transform(t),
    };
    let go = GameObject { name: wide("A"), guid: 1, components: vec![c] };
    let r = write_game_object(&go);
    assert!(matches!(r, Err(EncodeError::MismatchedComponentKind)));
}

#[test]
fn i32_array_elements_read_back() {
    let mut buf: Vec<u8> = Vec::new();
    buf.extend_from_slice(&44444444i32.to_le_bytes());
    buf.extend_from_slice(&16i64.to_le_bytes());
    buf.extend_from_slice(&11111111i32.to_le_bytes());
    buf.extend_from_slice(&2i32.to_le_bytes());
    buf.extend_from_slice(&7i32.to_le_bytes());
    buf.extend_from_slice(&(-3i32).to_le_bytes());
    let mut d = Deserializer::new(&buf);
    d.enter_scope().unwrap();
    let vals = d.read_i32_array().unwrap();
    assert_eq!(vals, vec![7, -3]);
}
