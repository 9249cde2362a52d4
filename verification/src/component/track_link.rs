//! A link between track pieces.

use crate::error::{DecodeError, EncodeError};
use crate::reader::Deserializer;
use crate::wire::{enc_bool, enc_u32_field, enc_u32_raw};
use crate::writer::Serializer;
use vstd::prelude::*;

verus! {

#[derive(Debug, Clone, Copy, PartialEq, Eq, Hash, Structural)]
pub struct TrackLink {
    /// Reference to the owning track-link parent.
    pub parent: u32,
    /// Reference to the linked track link.
    pub link: u32,
    /// Reference to the manipulator node between connected links.
    pub manipulator_node: u32,
    pub owned_node_between_connected_links: bool,
}

impl Default for TrackLink {
    fn default() -> (r: Self)
        ensures
            r == (TrackLink {
                parent: 0u32,
                link: 0u32,
                manipulator_node: 0u32,
                owned_node_between_connected_links: false,
            }),
    {
        TrackLink { parent: 0, link: 0, manipulator_node: 0, owned_node_between_connected_links: false }
    }
}

/// Wire bytes of a track link at `version`. Version 1 stores three raw
/// references; version 2 stores two references, the node id as a `u32`
/// field, and an ownership flag; other versions store nothing.
pub open spec fn enc_track_link(t: TrackLink, version: i32) -> Seq<u8> {
    if version == 1 {
        enc_u32_raw(t.parent) + enc_u32_raw(t.link) + enc_u32_raw(t.manipulator_node)
    } else if version == 2 {
        enc_u32_raw(t.parent) + enc_u32_raw(t.link) + enc_u32_field(t.manipulator_node)
            + enc_bool(t.owned_node_between_connected_links)
    } else {
        Seq::empty()
    }
}

/// What a track link read holds at `version`: three raw references at
/// version 1; two references, an optional node id and the ownership flag
/// at version 2; nothing at any other version.
pub open spec fn parse_track_link(
    data: Seq<u8>,
    has_scope: bool,
    top_end: int,
    pos: int,
    version: i32,
) -> Result<(TrackLink, int), DecodeError> {
    if version == 1 {
        match crate::reader::guarded_read(data, has_scope, top_end, pos, 4) {
            Err(e) => Err(e),
            Ok((r1, p1)) => {
                let parent = if r1 {
                    crate::bytes_le::le32_at(data, pos)
                } else {
                    0u32
                };
                match crate::reader::guarded_read(data, has_scope, top_end, p1, 4) {
                    Err(e) => Err(e),
                    Ok((r2, p2)) => {
                        let link = if r2 {
                            crate::bytes_le::le32_at(data, p1)
                        } else {
                            0u32
                        };
                        match crate::reader::guarded_read(data, has_scope, top_end, p2, 4) {
                            Err(e) => Err(e),
                            Ok((r3, p3)) => {
                                let node = if r3 {
                                    crate::bytes_le::le32_at(data, p2)
                                } else {
                                    0u32
                                };
                                Ok(
                                    (
                                        TrackLink {
                                            parent,
                                            link,
                                            manipulator_node: node,
                                            owned_node_between_connected_links: false,
                                        },
                                        p3,
                                    ),
                                )
                            },
                        }
                    },
                }
            },
        }
    } else if version == 2 {
        match crate::reader::guarded_read(data, has_scope, top_end, pos, 4) {
            Err(e) => Err(e),
            Ok((r1, p1)) => {
                let parent = if r1 {
                    crate::bytes_le::le32_at(data, pos)
                } else {
                    0u32
                };
                match crate::reader::guarded_read(data, has_scope, top_end, p1, 4) {
                    Err(e) => Err(e),
                    Ok((r2, p2)) => {
                        let link = if r2 {
                            crate::bytes_le::le32_at(data, p1)
                        } else {
                            0u32
                        };
                        match crate::reader::get_u32_spec(data, has_scope, top_end, p2, 0) {
                            Err(e) => Err(e),
                            Ok((node, p3)) => match crate::reader::get_bool_spec(
                                data,
                                has_scope,
                                top_end,
                                p3,
                                false,
                            ) {
                                Err(e) => Err(e),
                                Ok((owned, p4)) => Ok(
                                    (
                                        TrackLink {
                                            parent,
                                            link,
                                            manipulator_node: node,
                                            owned_node_between_connected_links: owned,
                                        },
                                        p4,
                                    ),
                                ),
                            },
                        }
                    },
                }
            },
        }
    } else {
        Ok(
            (
                TrackLink {
                    parent: 0u32,
                    link: 0u32,
                    manipulator_node: 0u32,
                    owned_node_between_connected_links: false,
                },
                pos,
            ),
        )
    }
}

impl TrackLink {
    /// Current schema version.
    pub fn version() -> (v: i32)
        ensures
            v == 2,
    {
        2
    }

    pub fn write(&self, w: &mut Serializer, version: i32)
        requires
            old(w).wf(),
        ensures
            final(w).wf(),
            final(w).scope_stack@ == old(w).scope_stack@,
            final(w).out@ == old(w).out@ + enc_track_link(*self, version),
    {
        if version == 1 {
            w.put_u32_raw(self.parent);
            w.put_u32_raw(self.link);
            w.put_u32_raw(self.manipulator_node);
        } else if version == 2 {
            w.put_u32_raw(self.parent);
            w.put_u32_raw(self.link);
            w.put_u32_field(self.manipulator_node);
            w.put_bool(self.owned_node_between_connected_links);
        }
        proof {
            assert(final(w).out@ =~= old(w).out@ + enc_track_link(*self, version));
        }
    }

    pub fn read(d: &mut Deserializer, version: i32) -> (r: Result<TrackLink, DecodeError>)
        ensures
            old(d).keeps(*final(d)),
            match parse_track_link(
                old(d).data@,
                old(d).has_scope(),
                old(d).top_end(),
                old(d).pos as int,
                version,
            ) {
                Ok((t, p)) => r matches Ok(t2) && t2 == t && final(d).pos == p,
                Err(e) => r matches Err(e2) && e2 == e,
            },
    {
        let mut t = TrackLink::default();
        if version == 1 {
            t.parent = d.get_reference(t.parent)?;
            t.link = d.get_reference(t.link)?;
            t.manipulator_node = d.get_reference(t.manipulator_node)?;
        } else if version == 2 {
            t.parent = d.get_reference(t.parent)?;
            t.link = d.get_reference(t.link)?;
            t.manipulator_node = d.get_u32(t.manipulator_node)?;
            t.owned_node_between_connected_links = d.get_bool(
                t.owned_node_between_connected_links,
            )?;
        }
        Ok(t)
    }
}

} // verus!
