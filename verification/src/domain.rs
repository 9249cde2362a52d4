//! The decoded object tree: game objects, their components, and the opaque
//! byte cell that preserves a component the schema set does not type.

use crate::component::animated::Animated;
use crate::component::car::CarReplayData;
use crate::component::colliders::{BoxCollider, CapsuleCollider, SphereCollider};
use crate::component::custom_name::CustomName;
use crate::component::events::{ZEventListener, ZEventTrigger};
use crate::component::golden_simples::GoldenSimples;
use crate::component::group::Group;
use crate::component::level::LevelInfos;
use crate::component::mesh_renderer::MeshRenderer;
use crate::component::profile::{ProfileProgress, ProfileStats};
use crate::component::track_link::TrackLink;
use crate::component::transform::Transform;
use crate::ids::{spec_component_id_i32, spec_component_id_implemented, ComponentId};
use crate::widestr::WideStr;
use vstd::prelude::*;

verus! {

/// A component the schema set does not type: its payload, byte for byte.
#[derive(Debug, Clone, PartialEq, Eq, Hash, Default)]
pub struct RawComponentData(pub Vec<u8>);

/// The payload of a component: a typed schema value for the implemented
/// kinds, the preserved bytes for every other.
#[derive(Debug, PartialEq)]
pub enum ComponentData {
    Transform(Transform),
    MeshRenderer(MeshRenderer),
    SphereCollider(SphereCollider),
    BoxCollider(BoxCollider),
    CapsuleCollider(CapsuleCollider),
    TrackLink(TrackLink),
    Group(Group),
    CustomName(CustomName),
    ProfileProgress(ProfileProgress),
    CarReplayData(CarReplayData),
    GoldenSimples(GoldenSimples),
    ZEventTrigger(ZEventTrigger),
    ZEventListener(ZEventListener),
    ProfileStats(ProfileStats),
    LevelInfos(LevelInfos),
    Animated(Animated),
    Raw(RawComponentData),
}

/// A component: its kind, the schema version it carries, its unique id in
/// the file, and its payload.
#[derive(Debug, PartialEq)]
pub struct Component {
    pub id: ComponentId,
    pub version: i32,
    pub guid: u32,
    pub data: ComponentData,
}

/// A payload variant agrees with a component kind: each typed kind with
/// its schema, the raw cell with exactly the untypable kinds.
pub open spec fn data_matches_id(id: ComponentId, data: ComponentData) -> bool {
    match data {
        ComponentData::Transform(_) => id == ComponentId::Transform,
        ComponentData::MeshRenderer(_) => id == ComponentId::MeshRenderer,
        ComponentData::SphereCollider(_) => id == ComponentId::SphereCollider,
        ComponentData::BoxCollider(_) => id == ComponentId::BoxCollider,
        ComponentData::CapsuleCollider(_) => id == ComponentId::CapsuleCollider,
        ComponentData::TrackLink(_) => id == ComponentId::TrackLink,
        ComponentData::Group(_) => id == ComponentId::Group,
        ComponentData::CustomName(_) => id == ComponentId::CustomName,
        ComponentData::ProfileProgress(_) => id == ComponentId::ProfileProgress,
        ComponentData::CarReplayData(_) => id == ComponentId::CarReplayData,
        ComponentData::GoldenSimples(_) => id == ComponentId::GoldenSimples,
        ComponentData::ZEventTrigger(_) => id == ComponentId::ZEventTrigger,
        ComponentData::ZEventListener(_) => id == ComponentId::ZEventListener,
        ComponentData::ProfileStats(_) => id == ComponentId::ProfileStats,
        ComponentData::LevelInfos(_) => id == ComponentId::LevelInfos,
        ComponentData::Animated(_) => id == ComponentId::Animated,
        ComponentData::Raw(_) => !spec_component_id_implemented(id) && id
            != ComponentId::Invalid_,
    }
}

impl Component {
    /// The kind and the payload variant agree.
    pub open spec fn wf(self) -> bool {
        data_matches_id(self.id, self.data)
    }

    /// Whether the kind slot and the payload variant agree.
    pub fn kind_agrees(&self) -> (r: bool)
        ensures
            r == data_matches_id(self.id, self.data),
    {
        match &self.data {
            ComponentData::Transform(_) => matches!(self.id, ComponentId::Transform),
            ComponentData::MeshRenderer(_) => matches!(self.id, ComponentId::MeshRenderer),
            ComponentData::SphereCollider(_) => matches!(self.id, ComponentId::SphereCollider),
            ComponentData::BoxCollider(_) => matches!(self.id, ComponentId::BoxCollider),
            ComponentData::CapsuleCollider(_) => matches!(self.id, ComponentId::CapsuleCollider),
            ComponentData::TrackLink(_) => matches!(self.id, ComponentId::TrackLink),
            ComponentData::Group(_) => matches!(self.id, ComponentId::Group),
            ComponentData::CustomName(_) => matches!(self.id, ComponentId::CustomName),
            ComponentData::ProfileProgress(_) => matches!(self.id, ComponentId::ProfileProgress),
            ComponentData::CarReplayData(_) => matches!(self.id, ComponentId::CarReplayData),
            ComponentData::GoldenSimples(_) => matches!(self.id, ComponentId::GoldenSimples),
            ComponentData::ZEventTrigger(_) => matches!(self.id, ComponentId::ZEventTrigger),
            ComponentData::ZEventListener(_) => matches!(self.id, ComponentId::ZEventListener),
            ComponentData::ProfileStats(_) => matches!(self.id, ComponentId::ProfileStats),
            ComponentData::LevelInfos(_) => matches!(self.id, ComponentId::LevelInfos),
            ComponentData::Animated(_) => matches!(self.id, ComponentId::Animated),
            ComponentData::Raw(_) => !self.id.is_implemented() && !matches!(
                self.id,
                ComponentId::Invalid_,
            ),
        }
    }
}

/// A named node of the object tree: its components in order, and, through
/// a transform component, its children.
#[derive(Debug, PartialEq)]
pub struct GameObject {
    pub name: WideStr,
    pub guid: u32,
    pub components: Vec<Component>,
}

impl Default for GameObject {
    fn default() -> (r: Self)
        ensures
            r.name@ =~= Seq::<u16>::empty(),
            r.guid == 0,
            r.components@ =~= Seq::<Component>::empty(),
    {
        GameObject { name: WideStr::new(), guid: 0, components: Vec::new() }
    }
}

/// Every component of the tree, recursively, pairs its kind with its
/// payload.
pub open spec fn game_object_wf(go: GameObject) -> bool
    decreases go,
{
    forall|i: int|
        0 <= i < go.components@.len() ==> component_wf_rec(#[trigger] go.components@[i])
}

pub open spec fn component_wf_rec(c: Component) -> bool
    decreases c,
{
    c.wf() && match c.data {
        ComponentData::Transform(t) => forall|i: int|
            0 <= i < t.children@.len() ==> game_object_wf(#[trigger] t.children@[i]),
        _ => true,
    }
}

} // verus!
