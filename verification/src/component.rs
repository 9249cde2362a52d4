//! The typed component schemas. Each schema states its wire layout once as
//! a spec encoding, version branches included; its writer is proved to emit
//! exactly those bytes and its reader walks the same fields with the same
//! guards.

pub mod animated;
pub mod car;
pub mod colliders;
pub mod custom_name;
pub mod events;
pub mod golden_simples;
pub mod level;
pub mod mesh_renderer;
pub mod group;
pub mod profile;
pub mod track_link;
pub mod transform;
