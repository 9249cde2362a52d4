//! The encoder: a game object becomes one framed scope holding its header,
//! its component count, and each component as its own scope — typed kinds
//! through their schemas at their stored version, untypable kinds as their
//! preserved bytes.

use crate::domain::{Component, ComponentData, GameObject};
use crate::error::EncodeError;
use crate::ids::spec_component_id_i32;
use crate::marks::{MARK_CHILDREN, MARK_COMPONENT_CANONICAL, MARK_GAME_OBJECT};
use crate::widestr::{enc_string, string_encodable, WideStr};
use crate::wire::{enc_i32_raw, enc_scope, enc_u32_raw};
use crate::writer::Serializer;
use vstd::prelude::*;

verus! {

/// Wire bytes of a whole game object: one scope, its payload the header
/// fields and the components.
pub open spec fn enc_game_object(go: GameObject) -> Seq<u8>
    decreases go, 2int,
{
    enc_scope(
        MARK_GAME_OBJECT,
        enc_string(go.name@) + enc_string(Seq::empty()) + enc_u32_raw(go.guid) + enc_i32_raw(
            go.components@.len() as i32,
        ) + enc_component_list(go.components@),
    )
}

/// Wire bytes of the components, in order.
pub open spec fn enc_component_list(s: Seq<Component>) -> Seq<u8>
    decreases s, 1int,
{
    if s.len() == 0 {
        Seq::empty()
    } else {
        enc_component(s[0]) + enc_component_list(s.subrange(1, s.len() as int))
    }
}

/// Wire bytes of one component: its own scope around the kind, version and
/// id slots, then the payload at the stored version. The writer always
/// opens the scope with the canonical component mark.
pub open spec fn enc_component(c: Component) -> Seq<u8>
    decreases c, 1int,
{
    enc_scope(
        MARK_COMPONENT_CANONICAL,
        enc_i32_raw(spec_component_id_i32(c.id)) + enc_i32_raw(c.version) + enc_u32_raw(c.guid)
            + enc_component_payload(c),
    )
}

/// Wire bytes of a component's payload.
pub open spec fn enc_component_payload(c: Component) -> Seq<u8>
    decreases c, 0int,
{
    match c.data {
        ComponentData::Transform(t) => crate::component::transform::enc_transform(t, c.version),
        ComponentData::MeshRenderer(m) => crate::component::mesh_renderer::enc_mesh_renderer(
            m,
            c.version,
        ),
        ComponentData::SphereCollider(s) => crate::component::colliders::enc_sphere_collider(
            s,
            c.version,
        ),
        ComponentData::BoxCollider(b) => crate::component::colliders::enc_box_collider(
            b,
            c.version,
        ),
        ComponentData::CapsuleCollider(cc) => crate::component::colliders::enc_capsule_collider(
            cc,
            c.version,
        ),
        ComponentData::TrackLink(t) => crate::component::track_link::enc_track_link(t, c.version),
        ComponentData::Group(g) => crate::component::group::enc_group(g, c.version),
        ComponentData::CustomName(n) => crate::component::custom_name::enc_custom_name(n),
        ComponentData::ProfileProgress(p) => crate::component::profile::enc_profile_progress(
            p,
            c.version,
        ),
        ComponentData::CarReplayData(r) => crate::component::car::enc_car_replay_data(
            r,
            c.version,
        ),
        ComponentData::GoldenSimples(g) => crate::component::golden_simples::enc_golden_simples(
            g,
            c.version,
        ),
        ComponentData::ZEventTrigger(z) => crate::component::events::enc_z_event_trigger(
            z,
            c.version,
        ),
        ComponentData::ZEventListener(z) => crate::component::events::enc_z_event_listener(
            z,
            c.version,
        ),
        ComponentData::ProfileStats(p) => crate::component::profile::enc_profile_stats(
            p,
            c.version,
        ),
        ComponentData::LevelInfos(l) => crate::component::level::enc_level_infos(l),
        ComponentData::Animated(a) => crate::component::animated::enc_animated(a, c.version),
        ComponentData::Raw(r) => r.0@,
    }
}

/// Wire bytes of a children list: its own scope around the count and the
/// child objects.
pub open spec fn enc_children(s: Seq<GameObject>) -> Seq<u8>
    decreases s, 3int,
{
    enc_scope(MARK_CHILDREN, enc_i32_raw(s.len() as i32) + enc_game_object_list(s))
}

/// Wire bytes of the child objects, in order.
pub open spec fn enc_game_object_list(s: Seq<GameObject>) -> Seq<u8>
    decreases s, 2int,
{
    if s.len() == 0 {
        Seq::empty()
    } else {
        enc_game_object(s[0]) + enc_game_object_list(s.subrange(1, s.len() as int))
    }
}

/// Whether a game object and its subtree fit the wire: every count in an
/// `i32`, every string within the length prefix.
pub open spec fn game_object_encodable(go: GameObject) -> bool
    decreases go, 1int,
{
    string_encodable(go.name@) && go.components@.len() <= i32::MAX && forall|i: int|
        0 <= i < go.components@.len() ==> component_encodable(#[trigger] go.components@[i])
}

/// Whether one component fits the wire at its stored version: its kind
/// slot agrees with its payload variant, and the payload itself fits.
pub open spec fn component_encodable(c: Component) -> bool
    decreases c, 1int,
{
    c.wf() && component_payload_encodable(c)
}

/// Whether a component's payload fits the wire at its stored version.
pub open spec fn component_payload_encodable(c: Component) -> bool
    decreases c, 0int,
{
    match c.data {
        ComponentData::Transform(t) => crate::component::transform::transform_encodable(
            t,
            c.version,
        ),
        ComponentData::MeshRenderer(m) => crate::component::mesh_renderer::mesh_renderer_encodable(
            m,
            c.version,
        ),
        ComponentData::Group(g) => g.encodable(),
        ComponentData::CustomName(n) => n.encodable(),
        ComponentData::ProfileProgress(p) => crate::component::profile::profile_progress_encodable(
            p,
            c.version,
        ),
        ComponentData::CarReplayData(r) => crate::component::car::car_replay_data_encodable(
            r,
            c.version,
        ),
        ComponentData::ZEventTrigger(z) => c.version == 2 ==> z.encodable(),
        ComponentData::ZEventListener(z) => c.version >= 1 ==> z.encodable(),
        ComponentData::ProfileStats(p) => crate::component::profile::profile_stats_encodable(
            p,
            c.version,
        ),
        ComponentData::LevelInfos(l) => crate::component::level::level_infos_encodable(l),
        _ => true,
    }
}

/// Write one component into its scope.
pub fn write_component(w: &mut Serializer, c: &Component) -> (r: Result<(), EncodeError>)
    requires
        old(w).wf(),
    ensures
        final(w).wf(),
        r is Ok ==> final(w).scope_stack@ == old(w).scope_stack@,
        r is Ok <==> component_encodable(*c),
        r is Ok ==> final(w).out@ == old(w).out@ + enc_component(*c),
    decreases *c, 2int,
{
    if !c.kind_agrees() {
        return Err(EncodeError::MismatchedComponentKind);
    }
    let ghost base = w.out@;
    w.start_scope(MARK_COMPONENT_CANONICAL);
    w.put_i32_raw(c.id.to_i32());
    w.put_i32_raw(c.version);
    w.put_u32_raw(c.guid);
    let ghost head = enc_i32_raw(spec_component_id_i32(c.id)) + enc_i32_raw(c.version)
        + enc_u32_raw(c.guid);
    write_component_payload(w, c)?;
    proof {
        let mark_bytes = crate::bytes_le::le32(crate::bytes_le::i32_bits(
            MARK_COMPONENT_CANONICAL,
        ));
        let payload = head + enc_component_payload(*c);
        assert(w.out@ =~= ((base + mark_bytes) + crate::bytes_le::le64(0)) + payload);
    }
    w.end_scope();
    proof {
        let payload = head + enc_component_payload(*c);
        vstd::bytes::lemma_auto_spec_u32_to_from_le_bytes();
        vstd::bytes::lemma_auto_spec_u64_to_from_le_bytes();
        crate::writer::lemma_scope_compose(base, MARK_COMPONENT_CANONICAL, payload);
        assert(w.out@ =~= base + enc_scope(MARK_COMPONENT_CANONICAL, payload));
        assert(enc_scope(MARK_COMPONENT_CANONICAL, payload) == enc_component(*c));
    }
    Ok(())
}

/// Write a component's payload at its stored version.
fn write_component_payload(w: &mut Serializer, c: &Component) -> (r: Result<(), EncodeError>)
    requires
        old(w).wf(),
    ensures
        final(w).wf(),
        r is Ok ==> final(w).scope_stack@ == old(w).scope_stack@,
        r is Ok <==> component_payload_encodable(*c),
        r is Ok ==> final(w).out@ == old(w).out@ + enc_component_payload(*c),
    decreases *c, 0int,
{
    match &c.data {
        ComponentData::Transform(t) => {
            t.write(w, c.version)?;
        },
        ComponentData::MeshRenderer(m) => {
            m.write(w, c.version)?;
        },
        ComponentData::SphereCollider(s) => {
            s.write(w, c.version);
        },
        ComponentData::BoxCollider(b) => {
            b.write(w, c.version);
        },
        ComponentData::CapsuleCollider(cc) => {
            cc.write(w, c.version);
        },
        ComponentData::TrackLink(t) => {
            t.write(w, c.version);
        },
        ComponentData::Group(g) => {
            g.write(w, c.version)?;
        },
        ComponentData::CustomName(n) => {
            n.write(w, c.version)?;
        },
        ComponentData::ProfileProgress(p) => {
            p.write(w, c.version)?;
        },
        ComponentData::CarReplayData(r) => {
            r.write(w, c.version)?;
        },
        ComponentData::GoldenSimples(g) => {
            g.write(w, c.version);
        },
        ComponentData::ZEventTrigger(z) => {
            z.write(w, c.version)?;
        },
        ComponentData::ZEventListener(z) => {
            z.write(w, c.version)?;
        },
        ComponentData::ProfileStats(p) => {
            p.write(w, c.version)?;
        },
        ComponentData::LevelInfos(l) => {
            l.write(w, c.version)?;
        },
        ComponentData::Animated(a) => {
            a.write(w, c.version);
        },
        ComponentData::Raw(r) => {
            w.put_bytes(&r.0);
        },
    }
    Ok(())
}

/// Write a whole game object into its scope.
pub fn write_game_object_into(w: &mut Serializer, go: &GameObject) -> (r: Result<
    (),
    EncodeError,
>)
    requires
        old(w).wf(),
    ensures
        final(w).wf(),
        r is Ok ==> final(w).scope_stack@ == old(w).scope_stack@,
        r is Ok <==> game_object_encodable(*go),
        r is Ok ==> final(w).out@ == old(w).out@ + enc_game_object(*go),
    decreases *go, 2int,
{
    if go.name.units.len() as u64 > 0x3_FFFF_FFFFu64 {
        return Err(EncodeError::StringTooLong);
    }
    if go.components.len() > i32::MAX as usize {
        return Err(EncodeError::CountTooLarge);
    }
    let ghost base = w.out@;
    w.start_scope(MARK_GAME_OBJECT);
    let res_name = w.put_string(&go.name);
    proof {
        assert(res_name is Ok);
    }
    let empty = WideStr::new();
    let res_prefab = w.put_string(&empty);
    proof {
        assert(res_prefab is Ok);
    }
    w.put_u32_raw(go.guid);
    let n = go.components.len();
    w.put_i32_raw(n as i32);
    let ghost head = enc_string(go.name@) + enc_string(Seq::<u16>::empty()) + enc_u32_raw(go.guid)
        + enc_i32_raw(go.components@.len() as i32);
    let ghost list_base = w.out@;
    let mut i: usize = 0;
    while i < n
        invariant
            i <= n,
            n == go.components@.len(),
            w.wf(),
            w.scope_stack@ == old(w).scope_stack@.push((base.len() + 12) as usize),
            w.out@ == list_base + enc_component_list(go.components@.take(i as int)),
            forall|j: int| 0 <= j < i ==> component_encodable(#[trigger] go.components@[j]),
        decreases n - i,
    {
        write_component(w, &go.components[i])?;
        i = i + 1;
        proof {
            lemma_component_list_take_snoc(go.components@, i as int);
        }
    }
    proof {
        assert(go.components@.take(n as int) =~= go.components@);
        let mark_bytes = crate::bytes_le::le32(crate::bytes_le::i32_bits(MARK_GAME_OBJECT));
        let payload = head + enc_component_list(go.components@);
        assert(w.out@ =~= ((base + mark_bytes) + crate::bytes_le::le64(0)) + payload);
    }
    w.end_scope();
    proof {
        let payload = head + enc_component_list(go.components@);
        vstd::bytes::lemma_auto_spec_u32_to_from_le_bytes();
        vstd::bytes::lemma_auto_spec_u64_to_from_le_bytes();
        crate::writer::lemma_scope_compose(base, MARK_GAME_OBJECT, payload);
        assert(w.out@ =~= base + enc_scope(MARK_GAME_OBJECT, payload));
        assert(enc_scope(MARK_GAME_OBJECT, payload) == enc_game_object(*go));
    }
    Ok(())
}

/// Extending the written prefix of a component list by one appends that
/// component's bytes.
proof fn lemma_component_list_take_snoc(s: Seq<Component>, i: int)
    requires
        0 < i <= s.len(),
    ensures
        enc_component_list(s.take(i)) =~= enc_component_list(s.take(i - 1)) + enc_component(
            s[i - 1],
        ),
    decreases i,
{
    let a = s.take(i);
    let b = s.take(i - 1);
    if i == 1 {
        assert(a =~= seq![s[0]]);
        assert(b =~= Seq::<Component>::empty());
        assert(a.subrange(1, a.len() as int) =~= Seq::<Component>::empty());
        assert(enc_component_list(a) == enc_component(a[0]) + enc_component_list(
            a.subrange(1, a.len() as int),
        ));
        assert(enc_component_list(a) =~= enc_component_list(b) + enc_component(s[0]));
    } else {
        assert(enc_component_list(a) == enc_component(a[0]) + enc_component_list(
            a.subrange(1, a.len() as int),
        ));
        assert(enc_component_list(b) == enc_component(b[0]) + enc_component_list(
            b.subrange(1, b.len() as int),
        ));
        assert(a.subrange(1, a.len() as int) =~= s.subrange(1, s.len() as int).take(i - 1));
        assert(b.subrange(1, b.len() as int) =~= s.subrange(1, s.len() as int).take(i - 2));
        lemma_component_list_take_snoc(s.subrange(1, s.len() as int), i - 1);
        assert(s.subrange(1, s.len() as int)[i - 2] == s[i - 1]);
        assert(a[0] == b[0]);
    }
}

/// Extending the written prefix of a child list by one appends that
/// child's bytes.
proof fn lemma_game_object_list_take_snoc(s: Seq<GameObject>, i: int)
    requires
        0 < i <= s.len(),
    ensures
        enc_game_object_list(s.take(i)) =~= enc_game_object_list(s.take(i - 1)) + enc_game_object(
            s[i - 1],
        ),
    decreases i,
{
    let a = s.take(i);
    let b = s.take(i - 1);
    if i == 1 {
        assert(a =~= seq![s[0]]);
        assert(b =~= Seq::<GameObject>::empty());
        assert(a.subrange(1, a.len() as int) =~= Seq::<GameObject>::empty());
        assert(enc_game_object_list(a) == enc_game_object(a[0]) + enc_game_object_list(
            a.subrange(1, a.len() as int),
        ));
        assert(enc_game_object_list(a) =~= enc_game_object_list(b) + enc_game_object(s[0]));
    } else {
        assert(enc_game_object_list(a) == enc_game_object(a[0]) + enc_game_object_list(
            a.subrange(1, a.len() as int),
        ));
        assert(enc_game_object_list(b) == enc_game_object(b[0]) + enc_game_object_list(
            b.subrange(1, b.len() as int),
        ));
        assert(a.subrange(1, a.len() as int) =~= s.subrange(1, s.len() as int).take(i - 1));
        assert(b.subrange(1, b.len() as int) =~= s.subrange(1, s.len() as int).take(i - 2));
        lemma_game_object_list_take_snoc(s.subrange(1, s.len() as int), i - 1);
        assert(s.subrange(1, s.len() as int)[i - 2] == s[i - 1]);
        assert(a[0] == b[0]);
    }
}

/// Write a children list into its scope.
pub fn write_children(w: &mut Serializer, children: &Vec<GameObject>) -> (r: Result<
    (),
    EncodeError,
>)
    requires
        old(w).wf(),
    ensures
        final(w).wf(),
        r is Ok ==> final(w).scope_stack@ == old(w).scope_stack@,
        r is Ok <==> children@.len() <= i32::MAX && (forall|i: int|
            0 <= i < children@.len() ==> game_object_encodable(#[trigger] children@[i])),
        r is Ok ==> final(w).out@ == old(w).out@ + enc_children(children@),
    decreases *children, 3int,
{
    if children.len() > i32::MAX as usize {
        return Err(EncodeError::CountTooLarge);
    }
    let ghost base = w.out@;
    w.start_scope(MARK_CHILDREN);
    let n = children.len();
    w.put_i32_raw(n as i32);
    let ghost head = enc_i32_raw(children@.len() as i32);
    let ghost list_base = w.out@;
    let mut i: usize = 0;
    while i < n
        invariant
            i <= n,
            n == children@.len(),
            w.wf(),
            w.scope_stack@ == old(w).scope_stack@.push((base.len() + 12) as usize),
            w.out@ == list_base + enc_game_object_list(children@.take(i as int)),
            forall|j: int| 0 <= j < i ==> game_object_encodable(#[trigger] children@[j]),
        decreases n - i,
    {
        write_game_object_into(w, &children[i])?;
        i = i + 1;
        proof {
            lemma_game_object_list_take_snoc(children@, i as int);
        }
    }
    proof {
        assert(children@.take(n as int) =~= children@);
        let mark_bytes = crate::bytes_le::le32(crate::bytes_le::i32_bits(MARK_CHILDREN));
        let payload = head + enc_game_object_list(children@);
        assert(w.out@ =~= ((base + mark_bytes) + crate::bytes_le::le64(0)) + payload);
    }
    w.end_scope();
    proof {
        let payload = head + enc_game_object_list(children@);
        vstd::bytes::lemma_auto_spec_u32_to_from_le_bytes();
        vstd::bytes::lemma_auto_spec_u64_to_from_le_bytes();
        crate::writer::lemma_scope_compose(base, MARK_CHILDREN, payload);
        assert(w.out@ =~= base + enc_scope(MARK_CHILDREN, payload));
        assert(enc_scope(MARK_CHILDREN, payload) == enc_children(children@));
    }
    Ok(())
}

/// Encode a game object to bytes: exactly its wire encoding, or the error
/// that says what does not fit.
pub fn write_game_object(go: &GameObject) -> (r: Result<Vec<u8>, EncodeError>)
    ensures
        r matches Ok(bytes) ==> game_object_encodable(*go) && bytes@ == enc_game_object(*go),
        r is Err ==> !game_object_encodable(*go),
{
    let mut w = Serializer::new();
    write_game_object_into(&mut w, go)?;
    proof {
        assert(w.out@ =~= enc_game_object(*go));
    }
    Ok(w.out)
}

} // verus!
