//! The transform schema: position, rotation, scale, and the child objects
//! of the node. On read, non-finite components fall back to the canonical
//! defaults, and finite scale components are clamped away from zero.

use crate::error::{DecodeError, EncodeError};
use crate::floatbits::{
    default_quaternion, f32_clamp_scale, f32_scale_clamp, ones_vector3, quaternion_finite,
    quaternion_is_finite, spec_default_quaternion, spec_ones_vector3, spec_zeros_vector3,
    vector3_finite, vector3_is_finite, zeros_vector3, Quaternion, Vector3,
};
use crate::domain::GameObject;
use crate::reader::Deserializer;
use crate::wire::{enc_quaternion, enc_vector3};
use crate::writer::Serializer;
use vstd::prelude::*;

verus! {

/// A position read back: non-finite components turn the whole vector into
/// the origin.
pub open spec fn spec_normalize_position(v: Vector3) -> Vector3 {
    if vector3_finite(v) {
        v
    } else {
        spec_zeros_vector3()
    }
}

/// A rotation read back: any non-finite component yields the identity.
pub open spec fn spec_normalize_rotation(q: Quaternion) -> Quaternion {
    if quaternion_finite(q) {
        q
    } else {
        spec_default_quaternion()
    }
}

/// A scale read back: non-finite turns into the unit scale; finite
/// components are clamped to at least `1e-5` in magnitude.
pub open spec fn spec_normalize_scale(v: Vector3) -> Vector3 {
    if vector3_finite(v) {
        Vector3 { x: f32_scale_clamp(v.x), y: f32_scale_clamp(v.y), z: f32_scale_clamp(v.z) }
    } else {
        spec_ones_vector3()
    }
}

pub fn normalize_position(v: Vector3) -> (r: Vector3)
    ensures
        r == spec_normalize_position(v),
{
    if vector3_is_finite(&v) {
        v
    } else {
        zeros_vector3()
    }
}

pub fn normalize_rotation(q: Quaternion) -> (r: Quaternion)
    ensures
        r == spec_normalize_rotation(q),
{
    if quaternion_is_finite(&q) {
        q
    } else {
        default_quaternion()
    }
}

pub fn normalize_scale(v: Vector3) -> (r: Vector3)
    ensures
        r == spec_normalize_scale(v),
{
    if vector3_is_finite(&v) {
        Vector3 { x: f32_clamp_scale(v.x), y: f32_clamp_scale(v.y), z: f32_clamp_scale(v.z) }
    } else {
        ones_vector3()
    }
}

/// What an optional vector field holds on read: the empty marker is
/// absence; otherwise three reads guarded by the scope end.
pub open spec fn parse_opt_vector3(
    data: Seq<u8>,
    has_scope: bool,
    top_end: int,
    pos: int,
    cur: Vector3,
) -> Result<(Option<Vector3>, int), DecodeError> {
    if crate::reader::peek_is_empty(data, pos) {
        Ok((Option::None, pos + 4))
    } else {
        match crate::reader::get_vector3_spec(data, has_scope, top_end, pos, cur) {
            Err(e) => Err(e),
            Ok((v, np)) => Ok((Some(v), np)),
        }
    }
}

/// What an optional quaternion field holds on read, by the same rule.
pub open spec fn parse_opt_quaternion(
    data: Seq<u8>,
    has_scope: bool,
    top_end: int,
    pos: int,
    cur: Quaternion,
) -> Result<(Option<Quaternion>, int), DecodeError> {
    if crate::reader::peek_is_empty(data, pos) {
        Ok((Option::None, pos + 4))
    } else {
        match crate::reader::get_quaternion_spec(data, has_scope, top_end, pos, cur) {
            Err(e) => Err(e),
            Ok((q, np)) => Ok((Some(q), np)),
        }
    }
}

/// What the three transform fields hold on read: position, rotation and
/// scale in that order, each optional through the empty marker, each
/// present value normalized.
pub open spec fn parse_transform_fields(
    data: Seq<u8>,
    has_scope: bool,
    top_end: int,
    pos: int,
) -> Result<((Option<Vector3>, Option<Quaternion>, Option<Vector3>), int), DecodeError> {
    match parse_opt_vector3(data, has_scope, top_end, pos, spec_zeros_vector3()) {
        Err(e) => Err(e),
        Ok((p, p1)) => match parse_opt_quaternion(
            data,
            has_scope,
            top_end,
            p1,
            spec_default_quaternion(),
        ) {
            Err(e) => Err(e),
            Ok((q, p2)) => match parse_opt_vector3(data, has_scope, top_end, p2, spec_ones_vector3()) {
                Err(e) => Err(e),
                Ok((s, p3)) => Ok(
                    (
                        (
                            match p {
                                Option::None => Option::None,
                                Some(v) => Some(spec_normalize_position(v)),
                            },
                            match q {
                                Option::None => Option::None,
                                Some(x) => Some(spec_normalize_rotation(x)),
                            },
                            match s {
                                Option::None => Option::None,
                                Some(v) => Some(spec_normalize_scale(v)),
                            },
                        ),
                        p3,
                    ),
                ),
            },
        },
    }
}

/// The node transform, and through it the node's children. The three
/// fields are optional on the wire: absence travels as the empty marker.
#[derive(Debug, PartialEq)]
pub struct Transform {
    pub position: Option<Vector3>,
    pub rotation: Option<Quaternion>,
    pub scale: Option<Vector3>,
    pub children: Vec<GameObject>,
}

impl Default for Transform {
    fn default() -> (r: Self)
        ensures
            r.position is None,
            r.rotation is None,
            r.scale is None,
            r.children@ =~= Seq::<GameObject>::empty(),
    {
        Transform {
            position: Option::None,
            rotation: Option::None,
            scale: Option::None,
            children: Vec::new(),
        }
    }
}

/// An optional vector field: absence is the empty marker.
pub open spec fn enc_vector3_opt(v: Option<Vector3>) -> Seq<u8> {
    match v {
        Option::None => crate::wire::enc_empty(),
        Some(x) => enc_vector3(x),
    }
}

/// An optional quaternion field: absence is the empty marker.
pub open spec fn enc_quaternion_opt(q: Option<Quaternion>) -> Seq<u8> {
    match q {
        Option::None => crate::wire::enc_empty(),
        Some(x) => enc_quaternion(x),
    }
}

/// Wire bytes of a transform: the three fields, then the children scope.
pub open spec fn enc_transform(t: Transform, version: i32) -> Seq<u8>
    decreases t,
{
    enc_vector3_opt(t.position) + enc_quaternion_opt(t.rotation) + enc_vector3_opt(t.scale)
        + crate::encode::enc_children(t.children@)
}

/// Whether a transform and its subtree fit the wire.
pub open spec fn transform_encodable(t: Transform, version: i32) -> bool
    decreases t,
{
    t.children@.len() <= i32::MAX && forall|i: int|
        0 <= i < t.children@.len() ==> crate::encode::game_object_encodable(
            #[trigger] t.children@[i],
        )
}

impl Transform {
    /// Current schema version.
    pub fn version() -> (v: i32)
        ensures
            v == 0,
    {
        0
    }

    pub fn write(&self, w: &mut Serializer, version: i32) -> (r: Result<(), EncodeError>)
        requires
            old(w).wf(),
        ensures
            final(w).wf(),
            r is Ok ==> final(w).scope_stack@ == old(w).scope_stack@,
            r is Ok <==> transform_encodable(*self, version),
            r is Ok ==> final(w).out@ == old(w).out@ + enc_transform(*self, version),
        decreases *self,
    {
        let ghost base = w.out@;
        match &self.position {
            Option::None => w.put_empty(),
            Some(v) => w.put_vector3(v),
        }
        match &self.rotation {
            Option::None => w.put_empty(),
            Some(q) => w.put_quaternion(q),
        }
        match &self.scale {
            Option::None => w.put_empty(),
            Some(v) => w.put_vector3(v),
        }
        let ghost head = enc_vector3_opt(self.position) + enc_quaternion_opt(self.rotation)
            + enc_vector3_opt(self.scale);
        proof {
            assert(w.out@ =~= base + head);
        }
        crate::encode::write_children(w, &self.children)?;
        proof {
            crate::wire::lemma_grow(base, head, crate::encode::enc_children(self.children@));
        }
        Ok(())
    }

    pub fn read(d: &mut Deserializer, version: i32, fuel: usize) -> (r: Result<
        Transform,
        DecodeError,
    >)
        ensures
            final(d).data == old(d).data,
            r is Ok ==> final(d).scopes@ == old(d).scopes@,
            old(d).extends(*final(d)),
            r matches Ok(t) ==> forall|i: int|
                0 <= i < t.children@.len() ==> crate::domain::game_object_wf(
                    #[trigger] t.children@[i],
                ),
            r matches Ok(t) ==> (parse_transform_fields(
                old(d).data@,
                old(d).has_scope(),
                old(d).top_end(),
                old(d).pos as int,
            ) matches Ok((f, p)) && t.position == f.0 && t.rotation == f.1 && t.scale == f.2 && (
            crate::reader::scope_header(old(d).data@, p) matches Ok((cm, clen, cnp))
                && final(d).pos == cnp + clen && (crate::reader::guarded_read(
                old(d).data@,
                true,
                cnp + clen,
                cnp,
                4,
            ) matches Ok((rd, _)) && t.children@.len() == {
                let cnt = if rd {
                    crate::bytes_le::i32_of_bits(crate::bytes_le::le32_at(old(d).data@, cnp))
                } else {
                    0
                };
                if cnt > 0 {
                    cnt as int
                } else {
                    0
                }
            }))),
            parse_transform_fields(
                old(d).data@,
                old(d).has_scope(),
                old(d).top_end(),
                old(d).pos as int,
            ) matches Ok((f, p)) ==> (crate::reader::scope_header(old(d).data@, p) matches Ok(
                (cm, clen, cnp),
            ) ==> (crate::reader::guarded_read(old(d).data@, true, cnp + clen, cnp, 4) matches Ok(
                (rd, q),
            ) ==> {
                let cnt = if rd {
                    crate::bytes_le::i32_of_bits(crate::bytes_le::le32_at(old(d).data@, cnp))
                } else {
                    0
                };
                &&& (cnt < 0 ==> r == Err::<Transform, DecodeError>(DecodeError::NegativeCount))
                &&& (cnt == 0 ==> (r matches Ok(t) && t.position == f.0 && t.rotation == f.1
                    && t.scale == f.2 && t.children@ =~= Seq::<GameObject>::empty()
                    && final(d).pos == cnp + clen))
            })),
        decreases fuel, 1int,
    {
        let mut t = Transform::default();
        if !d.empty_marker() {
            let v = d.get_vector3(zeros_vector3())?;
            t.position = Some(normalize_position(v));
        }
        if !d.empty_marker() {
            let q = d.get_quaternion(default_quaternion())?;
            t.rotation = Some(normalize_rotation(q));
        }
        if !d.empty_marker() {
            let v = d.get_vector3(ones_vector3())?;
            t.scale = Some(normalize_scale(v));
        }
        proof {
            assert(parse_transform_fields(
                old(d).data@,
                old(d).has_scope(),
                old(d).top_end(),
                old(d).pos as int,
            ) == Ok::<((Option<Vector3>, Option<Quaternion>, Option<Vector3>), int), DecodeError>(
                ((t.position, t.rotation, t.scale), d.pos as int),
            ));
        }
        t.children = crate::decode::read_children(d, fuel)?;
        Ok(t)
    }
}

} // verus!
