//! The decoder: reads the framed stream back into the object tree,
//! tolerating structural drift. Unknown component kinds inside a known
//! component mark are preserved as raw bytes; a component whose kind cannot
//! be placed at all is skipped whole.

use crate::bytes_le::{i32_of_bits, le32_at};
use crate::domain::{Component, ComponentData, GameObject, RawComponentData};
use crate::error::{DecodeError, Warning, WarningKind};
use crate::ids::{spec_component_id_from_i32, spec_component_id_implemented, ComponentId};
use crate::marks::{
    is_typed_component_mark, MARK_BUILTIN_COMPONENT, MARK_CHILDREN, MARK_COMPONENT_CANONICAL,
    MARK_GAME_OBJECT, MARK_SERIAL_COMPONENT, MARK_UNKNOWN_COMPONENT,
};
use crate::reader::{guarded_read, scope_header, Deserializer};
use crate::widestr::parse_string;
use vstd::prelude::*;

verus! {

/// What the header of a game-object scope holds: past the scope frame, the
/// name, the historical prefab slot, the guid slot and the declared
/// component count, with the position past them. The two integer slots are
/// guarded by the scope's declared end.
pub open spec fn parse_game_object_header(data: Seq<u8>, pos: int) -> Result<
    (Seq<u16>, u32, i32, int),
    DecodeError,
> {
    match scope_header(data, pos) {
        Err(e) => Err(e),
        Ok((mark, len, np)) => {
            let end = np + len;
            match parse_string(data, np) {
                Err(e) => Err(e),
                Ok((name, p1)) => match parse_string(data, p1) {
                    Err(e) => Err(e),
                    Ok((prefab, p2)) => match guarded_read(data, true, end, p2, 4) {
                        Err(e) => Err(e),
                        Ok((r3, p3)) => {
                            let guid = if r3 {
                                le32_at(data, p2)
                            } else {
                                0u32
                            };
                            match guarded_read(data, true, end, p3, 4) {
                                Err(e) => Err(e),
                                Ok((r4, p4)) => Ok(
                                    (
                                        name,
                                        guid,
                                        if r4 {
                                            i32_of_bits(le32_at(data, p3))
                                        } else {
                                            0
                                        },
                                        p4,
                                    ),
                                ),
                            }
                        },
                    },
                },
            }
        },
    }
}

/// What the three header slots of a typed component scope hold: the kind
/// slot, the version slot and the guid slot, each a read guarded by the
/// scope's declared end `top_end`.
pub open spec fn parse_component_header(data: Seq<u8>, top_end: int, pos: int) -> Result<
    (i32, i32, u32, int),
    DecodeError,
> {
    match guarded_read(data, true, top_end, pos, 4) {
        Err(e) => Err(e),
        Ok((r1, p1)) => {
            let raw_id = if r1 {
                i32_of_bits(le32_at(data, pos))
            } else {
                0
            };
            match guarded_read(data, true, top_end, p1, 4) {
                Err(e) => Err(e),
                Ok((r2, p2)) => {
                    let version = if r2 {
                        i32_of_bits(le32_at(data, p1))
                    } else {
                        0
                    };
                    match guarded_read(data, true, top_end, p2, 4) {
                        Err(e) => Err(e),
                        Ok((r3, p3)) => Ok(
                            (
                                raw_id,
                                version,
                                if r3 {
                                    le32_at(data, p2)
                                } else {
                                    0u32
                                },
                                p3,
                            ),
                        ),
                    }
                },
            }
        },
    }
}

/// The version slot the decoder stores: a typed kind's current version
/// constant, the wire's own version for every other kind.
pub open spec fn spec_stored_version(id: ComponentId, wire_version: i32) -> i32 {
    if spec_component_id_implemented(id) {
        id.spec_implemented_version()
    } else {
        wire_version
    }
}

/// Decode the single game object a byte stream holds.
pub fn read_game_object(data: &Vec<u8>) -> (r: Result<GameObject, DecodeError>)
    ensures
        r matches Ok(go) ==> crate::domain::game_object_wf(go),
        r matches Ok(go) ==> (parse_game_object_header(data@, 0) matches Ok((name, guid, count, _))
            && go.name@ == name && go.guid == guid && 0 <= count && go.components@.len()
            <= count),
        (parse_game_object_header(data@, 0) matches Ok((name, guid, count, _)) && count < 0)
            ==> r == Err::<GameObject, DecodeError>(DecodeError::NegativeCount),
        parse_game_object_header(data@, 0) matches Ok((name, guid, count, hdr_end)) ==> (count
            == 0 ==> (r matches Ok(go) && go.name@ == name && go.guid == guid && go.components@
            =~= Seq::<Component>::empty())),
{
    let (go, _) = read_game_object_with_warnings(data)?;
    Ok(go)
}

/// Decode the single game object a byte stream holds, together with the
/// warnings recorded while tolerating drift.
pub fn read_game_object_with_warnings(data: &Vec<u8>) -> (r: Result<
    (GameObject, Vec<Warning>),
    DecodeError,
>)
    ensures
        r matches Ok(p) ==> crate::domain::game_object_wf(p.0),
        r matches Ok(p) ==> (parse_game_object_header(data@, 0) matches Ok((name, guid, count, _))
            && p.0.name@ == name && p.0.guid == guid && 0 <= count && p.0.components@.len()
            <= count),
        (parse_game_object_header(data@, 0) matches Ok((name, guid, count, _)) && count < 0)
            ==> r == Err::<(GameObject, Vec<Warning>), DecodeError>(DecodeError::NegativeCount),
        parse_game_object_header(data@, 0) matches Ok((name, guid, count, hdr_end)) ==> (count
            == 0 ==> (r matches Ok(p) && p.0.name@ == name && p.0.guid == guid && p.0.components@
            =~= Seq::<Component>::empty())),
{
    let mut d = Deserializer::new(data);
    // A nested object costs a twelve-byte scope header per level, so no
    // stream can nest deeper than this.
    let fuel = data.len() / 12 + 2;
    let go = read_game_object_scope(&mut d, fuel)?;
    Ok((go, d.warnings))
}

/// Read one game-object scope: its header fields, its components, and the
/// tolerant exit to its declared end.
pub fn read_game_object_scope(d: &mut Deserializer, fuel: usize) -> (r: Result<
    GameObject,
    DecodeError,
>)
    ensures
        final(d).data == old(d).data,
        old(d).extends(*final(d)),
        r is Ok ==> final(d).scopes@ == old(d).scopes@,
        r matches Ok(go) ==> crate::domain::game_object_wf(go) && (scope_header(
            old(d).data@,
            old(d).pos as int,
        ) matches Ok((m, len, np)) && final(d).pos == np + len),
        r matches Ok(go) ==> (parse_game_object_header(old(d).data@, old(d).pos as int) matches Ok(
            (name, guid, count, _),
        ) && go.name@ == name && go.guid == guid && 0 <= count && go.components@.len()
            <= count),
        (parse_game_object_header(old(d).data@, old(d).pos as int) matches Ok(
            (name, guid, count, _),
        ) && count < 0) ==> r == Err::<GameObject, DecodeError>(DecodeError::NegativeCount),
        parse_game_object_header(old(d).data@, old(d).pos as int) matches Ok(
            (name, guid, count, hdr_end),
        ) ==> (count == 0 ==> (r matches Ok(go) && go.name@ == name && go.guid == guid
            && go.components@ =~= Seq::<Component>::empty())),
    decreases fuel, 4int,
{
    d.enter_scope_expect(MARK_GAME_OBJECT)?;
    let ghost pushed = d.scopes@.last();
    let name = d.read_set_string()?;
    let _prefab = d.read_set_string()?;
    let guid = d.read_set_u32(0)?;
    let num_components = d.read_set_i32(0)?;
    let ghost hdr_end = d.pos as int;
    proof {
        assert(parse_game_object_header(old(d).data@, old(d).pos as int) == Ok::<
            (Seq<u16>, u32, i32, int),
            DecodeError,
        >((name@, guid, num_components, hdr_end)));
    }
    if num_components < 0 {
        return Err(DecodeError::NegativeCount);
    }
    let mut components: Vec<Component> = Vec::new();
    let n = num_components as usize;
    let mut i: usize = 0;
    while i < n
        invariant
            i <= n,
            0 <= num_components,
            n == num_components as usize,
            parse_game_object_header(old(d).data@, old(d).pos as int) == Ok::<
                (Seq<u16>, u32, i32, int),
                DecodeError,
            >((name@, guid, num_components, hdr_end)),
            d.data == old(d).data,
            d.scopes@ == old(d).scopes@.push(pushed),
            old(d).warnings@.is_prefix_of(d.warnings@),
            components@.len() <= i,
            forall|j: int|
                0 <= j < components@.len() ==> crate::domain::component_wf_rec(
                    #[trigger] components@[j],
                ),
        decreases n - i,
    {
        if let Some(c) = read_component(d, fuel)? {
            components.push(c);
        }
        i = i + 1;
    }
    d.exit_scope();
    Ok(GameObject { name, guid, components })
}

/// Read one component scope. A typed header with a known kind dispatches
/// to its schema; a known kind outside the typed set keeps its payload
/// verbatim; anything else is skipped to the scope end and dropped.
pub fn read_component(d: &mut Deserializer, fuel: usize) -> (r: Result<
    Option<Component>,
    DecodeError,
>)
    ensures
        final(d).data == old(d).data,
        old(d).extends(*final(d)),
        r is Ok ==> final(d).scopes@ == old(d).scopes@,
        r matches Ok(c) ==> (scope_header(old(d).data@, old(d).pos as int) matches Ok(
            (m, len, np),
        ) && final(d).pos == np + len),
        r matches Ok(Some(c)) ==> crate::domain::component_wf_rec(c),
        match scope_header(old(d).data@, old(d).pos as int) {
            Ok((mark, len, np)) => {
                &&& (is_typed_component_mark(mark) && r is Ok ==> (parse_component_header(
                    old(d).data@,
                    np + len,
                    np,
                ) matches Ok((raw_id, ver, guid, _)) && ((r matches Ok(Some(c))) <==> (
                spec_component_id_from_i32(raw_id as int) matches Some(k) && k
                    != ComponentId::Invalid_)) && (r matches Ok(Some(c))
                    ==> spec_component_id_from_i32(raw_id as int) == Some(c.id) && c.guid == guid
                    && c.version == spec_stored_version(c.id, ver)) && (
                spec_component_id_from_i32(raw_id as int) is None ==> exists|j: int|
                    old(d).warnings@.len() <= j < final(d).warnings@.len()
                        && final(d).warnings@[j].kind == WarningKind::UnknownComponentId)))
                &&& (!is_typed_component_mark(mark) && r is Ok ==> (r matches Ok(c2) && c2 is None
                    && exists|j: int|
                    old(d).warnings@.len() <= j < final(d).warnings@.len()
                        && final(d).warnings@[j].kind == (if mark == MARK_UNKNOWN_COMPONENT {
                        WarningKind::NamedUnknownComponent
                    } else {
                        WarningKind::InvalidComponentMark
                    })))
            },
            Err(_) => true,
        },
    decreases fuel, 3int,
{
    let mark = d.enter_scope()?;
    let ghost pushed = d.scopes@.last();
    let mut id = ComponentId::Invalid_;
    let mut version: i32 = 0;
    if mark == MARK_BUILTIN_COMPONENT || mark == MARK_SERIAL_COMPONENT || mark
        == MARK_COMPONENT_CANONICAL {
        let raw_id = d.read_set_i32(0)?;
        match ComponentId::from_i32(raw_id) {
            Some(known) => {
                id = known;
            },
            Option::None => {
                d.record_warning(WarningKind::UnknownComponentId, 0, raw_id);
            },
        }
        version = d.read_set_i32(0)?;
    } else if mark == MARK_UNKNOWN_COMPONENT {
        let _name = d.read_set_string()?;
        d.record_warning(WarningKind::NamedUnknownComponent, 0, mark);
    } else {
        d.record_warning(WarningKind::InvalidComponentMark, 0, mark);
    }
    let guid = d.read_set_u32(0)?;
    if matches!(id, ComponentId::Invalid_) {
        d.exit_scope();
        return Ok(Option::None);
    }
    let is_default = d.is_empty_scope();
    let c = read_component_data(d, id, version, guid, is_default, fuel)?;
    d.exit_scope();
    Ok(Some(c))
}

/// Build a component from its header and payload: the typed dispatch.
#[verifier::rlimit(100)]
#[verifier::spinoff_prover]
fn read_component_data(
    d: &mut Deserializer,
    id: ComponentId,
    version: i32,
    guid: u32,
    is_default: bool,
    fuel: usize,
) -> (r: Result<Component, DecodeError>)
    requires
        !(id matches ComponentId::Invalid_),
    ensures
        final(d).data == old(d).data,
        old(d).extends(*final(d)),
        r is Ok ==> final(d).scopes@ == old(d).scopes@,
        r matches Ok(c) ==> crate::domain::component_wf_rec(c),
        r matches Ok(c) ==> c.id == id && c.guid == guid && c.version == spec_stored_version(
            id,
            version,
        ),
        r matches Ok(c) ==> (!spec_component_id_implemented(id) && is_default ==> (c.data matches
            ComponentData::Raw(raw) && raw.0@ =~= Seq::<u8>::empty() && final(d).pos == old(
            d,
        ).pos)),
        r matches Ok(c) ==> (!spec_component_id_implemented(id) && !is_default ==> (c.data matches
            ComponentData::Raw(raw) && ((!old(d).has_scope() || old(d).pos >= old(d).top_end())
            ==> raw.0@ =~= Seq::<u8>::empty() && final(d).pos == old(d).pos) && ((old(
            d,
        ).has_scope() && old(d).pos < old(d).top_end()) ==> raw.0@ == old(d).data@.subrange(
            old(d).pos as int,
            old(d).top_end(),
        ) && final(d).pos == old(d).top_end()))),
    decreases fuel, 2int,
{
    let (data, version_out) = match id {
        ComponentId::Transform => {
            let t = if is_default {
                crate::component::transform::Transform::default()
            } else {
                crate::component::transform::Transform::read(d, version, fuel)?
            };
            (ComponentData::Transform(t), crate::component::transform::Transform::version())
        },
        ComponentId::MeshRenderer => {
            let v = if is_default {
                crate::component::mesh_renderer::MeshRenderer::default()
            } else {
                crate::component::mesh_renderer::MeshRenderer::read(d, version)?
            };
            (ComponentData::MeshRenderer(v), crate::component::mesh_renderer::MeshRenderer::version())
        },
        ComponentId::SphereCollider => {
            let v = if is_default {
                crate::component::colliders::SphereCollider::default()
            } else {
                crate::component::colliders::SphereCollider::read(d, version)?
            };
            (ComponentData::SphereCollider(v), crate::component::colliders::SphereCollider::version())
        },
        ComponentId::BoxCollider => {
            let v = if is_default {
                crate::component::colliders::BoxCollider::default()
            } else {
                crate::component::colliders::BoxCollider::read(d, version)?
            };
            (ComponentData::BoxCollider(v), crate::component::colliders::BoxCollider::version())
        },
        ComponentId::CapsuleCollider => {
            let v = if is_default {
                crate::component::colliders::CapsuleCollider::default()
            } else {
                crate::component::colliders::CapsuleCollider::read(d, version)?
            };
            (ComponentData::CapsuleCollider(v), crate::component::colliders::CapsuleCollider::version())
        },
        ComponentId::TrackLink => {
            let v = if is_default {
                crate::component::track_link::TrackLink::default()
            } else {
                crate::component::track_link::TrackLink::read(d, version)?
            };
            (ComponentData::TrackLink(v), crate::component::track_link::TrackLink::version())
        },
        ComponentId::Group => {
            let v = if is_default {
                crate::component::group::Group {
                    links: Vec::new(),
                    inspect_children: crate::enums::GroupInspectChildrenType::NoneValue,
                }
            } else {
                crate::component::group::Group::read(d, version)?
            };
            (ComponentData::Group(v), crate::component::group::Group::version())
        },
        ComponentId::CustomName => {
            let v = if is_default {
                crate::component::custom_name::CustomName { custom_name: Option::None }
            } else {
                crate::component::custom_name::CustomName::read(d, version)?
            };
            (ComponentData::CustomName(v), crate::component::custom_name::CustomName::version())
        },
        ComponentId::ProfileProgress => {
            let v = if is_default {
                crate::component::profile::ProfileProgress::default()
            } else {
                crate::component::profile::ProfileProgress::read(d, version)?
            };
            (ComponentData::ProfileProgress(v), crate::component::profile::ProfileProgress::version())
        },
        ComponentId::CarReplayData => {
            let v = if is_default {
                crate::component::car::CarReplayData::default()
            } else {
                crate::component::car::CarReplayData::read(d, version)?
            };
            (ComponentData::CarReplayData(v), crate::component::car::CarReplayData::version())
        },
        ComponentId::GoldenSimples => {
            let v = if is_default {
                crate::component::golden_simples::GoldenSimples::default()
            } else {
                crate::component::golden_simples::GoldenSimples::read(d, version)?
            };
            (ComponentData::GoldenSimples(v), crate::component::golden_simples::GoldenSimples::version())
        },
        ComponentId::ZEventTrigger => {
            let v = if is_default {
                crate::component::events::ZEventTrigger::default()
            } else {
                crate::component::events::ZEventTrigger::read(d, version)?
            };
            (ComponentData::ZEventTrigger(v), crate::component::events::ZEventTrigger::version())
        },
        ComponentId::ZEventListener => {
            let v = if is_default {
                crate::component::events::ZEventListener::default()
            } else {
                crate::component::events::ZEventListener::read(d, version)?
            };
            (ComponentData::ZEventListener(v), crate::component::events::ZEventListener::version())
        },
        ComponentId::ProfileStats => {
            let v = if is_default {
                crate::component::profile::ProfileStats::default()
            } else {
                crate::component::profile::ProfileStats::read(d, version)?
            };
            (ComponentData::ProfileStats(v), crate::component::profile::ProfileStats::version())
        },
        ComponentId::LevelInfos => {
            let v = if is_default {
                crate::component::level::LevelInfos(Vec::new())
            } else {
                crate::component::level::LevelInfos::read(d, version)?
            };
            (ComponentData::LevelInfos(v), crate::component::level::LevelInfos::version())
        },
        ComponentId::Animated => {
            let v = if is_default {
                crate::component::animated::Animated::default()
            } else {
                crate::component::animated::Animated::read(d, version)?
            };
            (ComponentData::Animated(v), crate::component::animated::Animated::version())
        },
        _ => {
            proof {
                assert(!spec_component_id_implemented(id));
            }
            let bytes = if is_default {
                Vec::new()
            } else {
                d.read_raw_remainder()?
            };
            (ComponentData::Raw(RawComponentData(bytes)), version)
        },
    };
    Ok(Component { id, version: version_out, guid, data })
}

/// Read a children scope: the count, then that many child objects.
pub fn read_children(d: &mut Deserializer, fuel: usize) -> (r: Result<
    Vec<GameObject>,
    DecodeError,
>)
    ensures
        final(d).data == old(d).data,
        old(d).extends(*final(d)),
        r is Ok ==> final(d).scopes@ == old(d).scopes@,
        r matches Ok(children) ==> forall|i: int|
            0 <= i < children@.len() ==> crate::domain::game_object_wf(
                #[trigger] children@[i],
            ),
        r is Ok ==> (scope_header(old(d).data@, old(d).pos as int) matches Ok((m, len, np))
            && final(d).pos == np + len),
        r matches Ok(children) ==> (scope_header(old(d).data@, old(d).pos as int) matches Ok(
            (m, len, np),
        ) && guarded_read(old(d).data@, true, np + len, np, 4) matches Ok((rd, _))
            && children@.len() == {
            let cnt = if rd {
                i32_of_bits(le32_at(old(d).data@, np))
            } else {
                0
            };
            if cnt > 0 {
                cnt as int
            } else {
                0
            }
        }),
        scope_header(old(d).data@, old(d).pos as int) matches Ok((m, len, np)) ==> (guarded_read(
            old(d).data@,
            true,
            np + len,
            np,
            4,
        ) matches Ok((rd, q)) ==> {
            let cnt = if rd {
                i32_of_bits(le32_at(old(d).data@, np))
            } else {
                0
            };
            &&& (cnt < 0 ==> r == Err::<Vec<GameObject>, DecodeError>(DecodeError::NegativeCount))
            &&& (cnt == 0 ==> (r matches Ok(children) && children@ =~= Seq::<
                GameObject,
            >::empty()))
        }),
    decreases fuel, 0int,
{
    d.enter_scope_expect(MARK_CHILDREN)?;
    let ghost pushed = d.scopes@.last();
    let num_children = d.read_set_i32(0)?;
    if num_children < 0 {
        return Err(DecodeError::NegativeCount);
    }
    let mut children: Vec<GameObject> = Vec::new();
    if num_children > 0 {
        let n = num_children as usize;
        let mut i: usize = 0;
        while i < n
            invariant
                i <= n,
                0 < num_children,
                n == num_children as usize,
                scope_header(old(d).data@, old(d).pos as int) matches Ok((m, len, np)) ==> (
                guarded_read(old(d).data@, true, np + len, np, 4) matches Ok((rd, q))
                    && num_children == (if rd {
                    i32_of_bits(le32_at(old(d).data@, np))
                } else {
                    0
                })),
                d.data == old(d).data,
                d.scopes@ == old(d).scopes@.push(pushed),
                old(d).warnings@.is_prefix_of(d.warnings@),
                children@.len() == i,
                forall|j: int|
                    0 <= j < children@.len() ==> crate::domain::game_object_wf(
                        #[trigger] children@[j],
                    ),
            decreases n - i,
        {
            if fuel == 0 {
                return Err(DecodeError::NestingTooDeep);
            }
            let child = read_game_object_scope(d, fuel - 1)?;
            children.push(child);
            i = i + 1;
        }
    }
    d.exit_scope();
    Ok(children)
}

} // verus!
