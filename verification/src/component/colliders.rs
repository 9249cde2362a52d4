//! The three primitive collider schemas. Before their current versions
//! they carried two legacy fields (a trigger flag and a physic material
//! name), which are skipped on read and written back as constants.

use crate::error::{DecodeError, EncodeError};
use crate::floatbits::{spec_ones_vector3, spec_zeros_vector3, ones_vector3, zeros_vector3, Vector3, F32_ONE};
use crate::reader::Deserializer;
use crate::wire::{enc_bool, enc_empty, enc_f32_field, enc_i32_field, enc_vector3};
use crate::writer::Serializer;
use vstd::prelude::*;

verus! {

/// The two legacy collider fields: `IsTrigger` false, no material name.
pub open spec fn enc_serial_collider_deprecated() -> Seq<u8> {
    enc_bool(false) + enc_empty()
}

/// Write the legacy collider fields.
pub fn put_serial_collider_deprecated(w: &mut Serializer)
    requires
        old(w).wf(),
    ensures
        final(w).wf(),
        final(w).scope_stack@ == old(w).scope_stack@,
        final(w).out@ == old(w).out@ + enc_serial_collider_deprecated(),
{
    w.put_bool(false);
    w.put_empty();
    proof {
        assert(final(w).out@ =~= old(w).out@ + enc_serial_collider_deprecated());
    }
}

/// What skipping the legacy fields consumes: the trigger-flag slot, then
/// the nullable material-name slot; the position past them.
pub open spec fn skip_deprecated_spec(
    data: Seq<u8>,
    has_scope: bool,
    top_end: int,
    pos: int,
) -> Result<int, DecodeError> {
    match crate::reader::get_bool_spec(data, has_scope, top_end, pos, false) {
        Err(e) => Err(e),
        Ok((f, p1)) => match crate::reader::get_string_field_spec(data, p1, Option::None) {
            Err(e) => Err(e),
            Ok((s, p2)) => Ok(p2),
        },
    }
}

/// Skip the legacy collider fields on read.
pub fn skip_serial_collider_deprecated(d: &mut Deserializer) -> (r: Result<(), DecodeError>)
    ensures
        old(d).keeps(*final(d)),
        match skip_deprecated_spec(
            old(d).data@,
            old(d).has_scope(),
            old(d).top_end(),
            old(d).pos as int,
        ) {
            Ok(p) => r is Ok && final(d).pos == p,
            Err(e) => r matches Err(e2) && e2 == e,
        },
{
    let _ = d.get_bool(false)?;
    let _ = d.get_string_field(Option::None)?;
    Ok(())
}

/// An axis-aligned box collider.
#[derive(Debug, Clone, Copy, PartialEq, Eq, Structural)]
pub struct BoxCollider {
    pub center: Vector3,
    pub size: Vector3,
}

impl Default for BoxCollider {
    fn default() -> (r: Self)
        ensures
            r.center == spec_zeros_vector3(),
            r.size == spec_ones_vector3(),
    {
        BoxCollider { center: zeros_vector3(), size: ones_vector3() }
    }
}

/// Wire bytes of a box collider at `version`: center; an ignored extents
/// vector at version 0; size; the legacy fields before version 2.
pub open spec fn enc_box_collider(b: BoxCollider, version: i32) -> Seq<u8> {
    enc_vector3(b.center) + (if version == 0 {
        enc_vector3(spec_zeros_vector3())
    } else {
        Seq::empty()
    }) + enc_vector3(b.size) + (if version < 2 {
        enc_serial_collider_deprecated()
    } else {
        Seq::empty()
    })
}

/// What a box collider read holds at `version`: the center, an ignored
/// extents vector at version 0, the size, and the skipped legacy fields
/// before version 2.
pub open spec fn parse_box_collider(
    data: Seq<u8>,
    has_scope: bool,
    top_end: int,
    pos: int,
    version: i32,
) -> Result<(BoxCollider, int), DecodeError> {
    match crate::reader::get_vector3_spec(data, has_scope, top_end, pos, spec_zeros_vector3()) {
        Err(e) => Err(e),
        Ok((center, p1)) => match (if version == 0 {
            crate::reader::get_vector3_spec(data, has_scope, top_end, p1, spec_zeros_vector3())
        } else {
            Ok((spec_zeros_vector3(), p1))
        }) {
            Err(e) => Err(e),
            Ok((ignored, p2)) => match crate::reader::get_vector3_spec(
                data,
                has_scope,
                top_end,
                p2,
                spec_ones_vector3(),
            ) {
                Err(e) => Err(e),
                Ok((size, p3)) => match (if version < 2 {
                    skip_deprecated_spec(data, has_scope, top_end, p3)
                } else {
                    Ok(p3)
                }) {
                    Err(e) => Err(e),
                    Ok(p4) => Ok((BoxCollider { center, size }, p4)),
                },
            },
        },
    }
}

impl BoxCollider {
    /// Current schema version.
    pub fn version() -> (v: i32)
        ensures
            v == 2,
    {
        2
    }

    pub fn write(&self, w: &mut Serializer, version: i32)
        requires
            old(w).wf(),
        ensures
            final(w).wf(),
            final(w).scope_stack@ == old(w).scope_stack@,
            final(w).out@ == old(w).out@ + enc_box_collider(*self, version),
    {
        w.put_vector3(&self.center);
        if version == 0 {
            let zeros = zeros_vector3();
            w.put_vector3(&zeros);
        }
        w.put_vector3(&self.size);
        if version < 2 {
            put_serial_collider_deprecated(w);
        }
        proof {
            assert(final(w).out@ =~= old(w).out@ + enc_box_collider(*self, version));
        }
    }

    pub fn read(d: &mut Deserializer, version: i32) -> (r: Result<BoxCollider, DecodeError>)
        ensures
            old(d).keeps(*final(d)),
            match parse_box_collider(
                old(d).data@,
                old(d).has_scope(),
                old(d).top_end(),
                old(d).pos as int,
                version,
            ) {
                Ok((b, p)) => r matches Ok(b2) && b2 == b && final(d).pos == p,
                Err(e) => r matches Err(e2) && e2 == e,
            },
    {
        let mut b = BoxCollider::default();
        b.center = d.get_vector3(b.center)?;
        if version == 0 {
            let _ = d.get_vector3(zeros_vector3())?;
        }
        b.size = d.get_vector3(b.size)?;
        if version < 2 {
            skip_serial_collider_deprecated(d)?;
        }
        Ok(b)
    }
}

/// A capsule collider.
#[derive(Debug, Clone, Copy, PartialEq, Eq, Structural)]
pub struct CapsuleCollider {
    pub center: Vector3,
    /// Radius, as f32 bits.
    pub radius: u32,
    /// Height, as f32 bits.
    pub height: u32,
    pub direction: i32,
}

impl Default for CapsuleCollider {
    fn default() -> (r: Self)
        ensures
            r.center == spec_zeros_vector3(),
            r.radius == F32_ONE,
            r.height == F32_ONE,
            r.direction == 0,
    {
        CapsuleCollider {
            center: zeros_vector3(),
            radius: F32_ONE,
            height: F32_ONE,
            direction: 0,
        }
    }
}

/// Wire bytes of a capsule collider at `version`.
pub open spec fn enc_capsule_collider(c: CapsuleCollider, version: i32) -> Seq<u8> {
    enc_vector3(c.center) + enc_f32_field(c.radius) + enc_f32_field(c.height) + enc_i32_field(
        c.direction,
    ) + (if version < 1 {
        enc_serial_collider_deprecated()
    } else {
        Seq::empty()
    })
}

/// What a capsule collider read holds at `version`: center, radius,
/// height, direction, and the skipped legacy fields before version 1.
pub open spec fn parse_capsule_collider(
    data: Seq<u8>,
    has_scope: bool,
    top_end: int,
    pos: int,
    version: i32,
) -> Result<(CapsuleCollider, int), DecodeError> {
    match crate::reader::get_vector3_spec(data, has_scope, top_end, pos, spec_zeros_vector3()) {
        Err(e) => Err(e),
        Ok((center, p1)) => match crate::reader::get_u32_spec(data, has_scope, top_end, p1, F32_ONE) {
            Err(e) => Err(e),
            Ok((radius, p2)) => match crate::reader::get_u32_spec(
                data,
                has_scope,
                top_end,
                p2,
                F32_ONE,
            ) {
                Err(e) => Err(e),
                Ok((height, p3)) => match crate::reader::get_i32_spec(
                    data,
                    has_scope,
                    top_end,
                    p3,
                    0,
                ) {
                    Err(e) => Err(e),
                    Ok((direction, p4)) => match (if version < 1 {
                        skip_deprecated_spec(data, has_scope, top_end, p4)
                    } else {
                        Ok(p4)
                    }) {
                        Err(e) => Err(e),
                        Ok(p5) => Ok((CapsuleCollider { center, radius, height, direction }, p5)),
                    },
                },
            },
        },
    }
}

impl CapsuleCollider {
    /// Current schema version.
    pub fn version() -> (v: i32)
        ensures
            v == 1,
    {
        1
    }

    pub fn write(&self, w: &mut Serializer, version: i32)
        requires
            old(w).wf(),
        ensures
            final(w).wf(),
            final(w).scope_stack@ == old(w).scope_stack@,
            final(w).out@ == old(w).out@ + enc_capsule_collider(*self, version),
    {
        w.put_vector3(&self.center);
        w.put_f32_field(self.radius);
        w.put_f32_field(self.height);
        w.put_i32_field(self.direction);
        if version < 1 {
            put_serial_collider_deprecated(w);
        }
        proof {
            assert(final(w).out@ =~= old(w).out@ + enc_capsule_collider(*self, version));
        }
    }

    pub fn read(d: &mut Deserializer, version: i32) -> (r: Result<CapsuleCollider, DecodeError>)
        ensures
            old(d).keeps(*final(d)),
            match parse_capsule_collider(
                old(d).data@,
                old(d).has_scope(),
                old(d).top_end(),
                old(d).pos as int,
                version,
            ) {
                Ok((c, p)) => r matches Ok(c2) && c2 == c && final(d).pos == p,
                Err(e) => r matches Err(e2) && e2 == e,
            },
    {
        let mut c = CapsuleCollider::default();
        c.center = d.get_vector3(c.center)?;
        c.radius = d.get_f32(c.radius)?;
        c.height = d.get_f32(c.height)?;
        c.direction = d.get_i32(c.direction)?;
        if version < 1 {
            skip_serial_collider_deprecated(d)?;
        }
        Ok(c)
    }
}

/// A sphere collider.
#[derive(Debug, Clone, Copy, PartialEq, Eq, Structural)]
pub struct SphereCollider {
    pub center: Vector3,
    /// Radius, as f32 bits.
    pub radius: u32,
}

impl Default for SphereCollider {
    fn default() -> (r: Self)
        ensures
            r.center == spec_zeros_vector3(),
            r.radius == F32_ONE,
    {
        SphereCollider { center: zeros_vector3(), radius: F32_ONE }
    }
}

/// Wire bytes of a sphere collider at `version`.
pub open spec fn enc_sphere_collider(c: SphereCollider, version: i32) -> Seq<u8> {
    enc_vector3(c.center) + enc_f32_field(c.radius) + (if version < 1 {
        enc_serial_collider_deprecated()
    } else {
        Seq::empty()
    })
}

/// What a sphere collider read holds at `version`: center, radius, and
/// the skipped legacy fields before version 1.
pub open spec fn parse_sphere_collider(
    data: Seq<u8>,
    has_scope: bool,
    top_end: int,
    pos: int,
    version: i32,
) -> Result<(SphereCollider, int), DecodeError> {
    match crate::reader::get_vector3_spec(data, has_scope, top_end, pos, spec_zeros_vector3()) {
        Err(e) => Err(e),
        Ok((center, p1)) => match crate::reader::get_u32_spec(data, has_scope, top_end, p1, F32_ONE) {
            Err(e) => Err(e),
            Ok((radius, p2)) => match (if version < 1 {
                skip_deprecated_spec(data, has_scope, top_end, p2)
            } else {
                Ok(p2)
            }) {
                Err(e) => Err(e),
                Ok(p3) => Ok((SphereCollider { center, radius }, p3)),
            },
        },
    }
}

impl SphereCollider {
    /// Current schema version.
    pub fn version() -> (v: i32)
        ensures
            v == 1,
    {
        1
    }

    pub fn write(&self, w: &mut Serializer, version: i32)
        requires
            old(w).wf(),
        ensures
            final(w).wf(),
            final(w).scope_stack@ == old(w).scope_stack@,
            final(w).out@ == old(w).out@ + enc_sphere_collider(*self, version),
    {
        w.put_vector3(&self.center);
        w.put_f32_field(self.radius);
        if version < 1 {
            put_serial_collider_deprecated(w);
        }
        proof {
            assert(final(w).out@ =~= old(w).out@ + enc_sphere_collider(*self, version));
        }
    }

    pub fn read(d: &mut Deserializer, version: i32) -> (r: Result<SphereCollider, DecodeError>)
        ensures
            old(d).keeps(*final(d)),
            match parse_sphere_collider(
                old(d).data@,
                old(d).has_scope(),
                old(d).top_end(),
                old(d).pos as int,
                version,
            ) {
                Ok((c, p)) => r matches Ok(c2) && c2 == c && final(d).pos == p,
                Err(e) => r matches Err(e2) && e2 == e,
            },
    {
        let mut c = SphereCollider::default();
        c.center = d.get_vector3(c.center)?;
        c.radius = d.get_f32(c.radius)?;
        if version < 1 {
            skip_serial_collider_deprecated(d)?;
        }
        Ok(c)
    }
}

} // verus!
