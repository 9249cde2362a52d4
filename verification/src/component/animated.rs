//! The animator schemas: the shared animation base (timing curve and
//! trigger behavior, with a legacy pre-version-8 curve form), and the
//! animated-object component built on it.

use crate::enums::{
    spec_animated_motion_type_i32, spec_animated_translate_type_i32,
    spec_animator_base_curve_type_i32, spec_animator_base_extrapolation_type_obsolete_i32,
    spec_animator_base_trigger_action_i32, spec_curve_opposite, AnimatedMotionType,
    AnimatedTranslateType, AnimatorBaseCurveType, AnimatorBaseExtrapolationTypeObsolete,
    AnimatorBaseTriggerAction,
};
use crate::error::{DecodeError, EncodeError};
use crate::floatbits::{zeros_vector3, spec_zeros_vector3, Vector3, F32_ONE};
use crate::reader::Deserializer;
use crate::wire::{enc_bool, enc_f32_field, enc_i32_field, enc_vector3};
use crate::writer::Serializer;
use vstd::prelude::*;

verus! {

/// Shared animation state: the timing curve, its ping-pong return leg, and
/// what trigger edges do.
#[derive(Debug, Clone, Copy, PartialEq, Eq, Hash, Structural)]
pub struct AnimatorBase {
    /// As f32 bits.
    pub delay: u32,
    /// As f32 bits.
    pub duration: u32,
    /// As f32 bits.
    pub time_offset: u32,
    pub loop_: bool,
    pub extend: bool,
    pub curve_type: AnimatorBaseCurveType,
    /// As f32 bits.
    pub editor_animation_t: u32,
    pub custom_pong_values: bool,
    /// As f32 bits.
    pub pong_delay: u32,
    /// As f32 bits.
    pub pong_duration: u32,
    pub pong_curve_type: AnimatorBaseCurveType,
    pub default_action: AnimatorBaseTriggerAction,
    pub on_action: AnimatorBaseTriggerAction,
    pub on_wait_for_animation_finish: bool,
    pub on_reset: bool,
    pub off_action: AnimatorBaseTriggerAction,
    pub off_wait_for_animation_finish: bool,
    pub off_reset: bool,
}

impl Default for AnimatorBase {
    fn default() -> (r: Self)
        ensures
            r == spec_animator_base_default(),
    {
        AnimatorBase {
            delay: F32_ONE,
            duration: F32_ONE,
            time_offset: 0,
            loop_: true,
            extend: false,
            curve_type: AnimatorBaseCurveType::EaseInOut,
            editor_animation_t: 0,
            custom_pong_values: false,
            pong_delay: F32_ONE,
            pong_duration: F32_ONE,
            pong_curve_type: AnimatorBaseCurveType::EaseInOut,
            default_action: AnimatorBaseTriggerAction::PingPong,
            on_action: AnimatorBaseTriggerAction::NoneValue,
            on_wait_for_animation_finish: false,
            on_reset: false,
            off_action: AnimatorBaseTriggerAction::NoneValue,
            off_wait_for_animation_finish: false,
            off_reset: false,
        }
    }
}

pub open spec fn spec_animator_base_default() -> AnimatorBase {
    AnimatorBase {
        delay: F32_ONE,
        duration: F32_ONE,
        time_offset: 0,
        loop_: true,
        extend: false,
        curve_type: AnimatorBaseCurveType::EaseInOut,
        editor_animation_t: 0,
        custom_pong_values: false,
        pong_delay: F32_ONE,
        pong_duration: F32_ONE,
        pong_curve_type: AnimatorBaseCurveType::EaseInOut,
        default_action: AnimatorBaseTriggerAction::PingPong,
        on_action: AnimatorBaseTriggerAction::NoneValue,
        on_wait_for_animation_finish: false,
        on_reset: false,
        off_action: AnimatorBaseTriggerAction::NoneValue,
        off_wait_for_animation_finish: false,
        off_reset: false,
    }
}

/// The modern ping-pong upgrade a legacy animator goes through after
/// reading: play actions become ping-pong, and the default action follows
/// unless some edge action was upgraded.
pub open spec fn spec_upgrade_ping_pong(b: AnimatorBase, apply: bool) -> AnimatorBase {
    if !apply {
        b
    } else {
        let on_up = b.on_action == AnimatorBaseTriggerAction::Play || b.on_action
            == AnimatorBaseTriggerAction::PlayReverse;
        let off_up = b.off_action == AnimatorBaseTriggerAction::Play || b.off_action
            == AnimatorBaseTriggerAction::PlayReverse;
        let default_up = (!on_up && !off_up) || b.default_action
            == AnimatorBaseTriggerAction::Play || b.default_action
            == AnimatorBaseTriggerAction::PlayReverse;
        AnimatorBase {
            on_action: if on_up {
                AnimatorBaseTriggerAction::PingPong
            } else {
                b.on_action
            },
            off_action: if off_up {
                AnimatorBaseTriggerAction::PingPong
            } else {
                b.off_action
            },
            default_action: if default_up {
                AnimatorBaseTriggerAction::PingPong
            } else {
                b.default_action
            },
            ..b
        }
    }
}

/// Apply the legacy ping-pong upgrade.
pub fn upgrade_to_new_ping_pong(b: AnimatorBase, apply: bool) -> (r: AnimatorBase)
    ensures
        r == spec_upgrade_ping_pong(b, apply),
{
    if !apply {
        return b;
    }
    let mut out = b;
    let mut flag = false;
    if matches!(b.on_action, AnimatorBaseTriggerAction::Play | AnimatorBaseTriggerAction::PlayReverse) {
        out.on_action = AnimatorBaseTriggerAction::PingPong;
        flag = true;
    }
    if matches!(b.off_action, AnimatorBaseTriggerAction::Play | AnimatorBaseTriggerAction::PlayReverse) {
        out.off_action = AnimatorBaseTriggerAction::PingPong;
        flag = true;
    }
    if !flag || matches!(b.default_action, AnimatorBaseTriggerAction::Play | AnimatorBaseTriggerAction::PlayReverse) {
        out.default_action = AnimatorBaseTriggerAction::PingPong;
    }
    out
}

/// What an enum slot holding a curve type yields on read: the optional
/// `i32` decoded through the curve-type mapping, an unknown value fatal.
pub open spec fn parse_curve_type_field(
    data: Seq<u8>,
    has_scope: bool,
    top_end: int,
    pos: int,
    cur: AnimatorBaseCurveType,
) -> Result<(AnimatorBaseCurveType, int), DecodeError> {
    match crate::reader::get_i32_spec(
        data,
        has_scope,
        top_end,
        pos,
        spec_animator_base_curve_type_i32(cur),
    ) {
        Err(e) => Err(e),
        Ok((n, np)) => match crate::enums::spec_animator_base_curve_type_from_i32(n as int) {
            Some(v) => Ok((v, np)),
            Option::None => Err(DecodeError::UnknownEnumValue),
        },
    }
}

/// What an enum slot holding a trigger action yields on read.
pub open spec fn parse_trigger_action_field(
    data: Seq<u8>,
    has_scope: bool,
    top_end: int,
    pos: int,
    cur: AnimatorBaseTriggerAction,
) -> Result<(AnimatorBaseTriggerAction, int), DecodeError> {
    match crate::reader::get_i32_spec(
        data,
        has_scope,
        top_end,
        pos,
        spec_animator_base_trigger_action_i32(cur),
    ) {
        Err(e) => Err(e),
        Ok((n, np)) => match crate::enums::spec_animator_base_trigger_action_from_i32(n as int) {
            Some(v) => Ok((v, np)),
            Option::None => Err(DecodeError::UnknownEnumValue),
        },
    }
}

/// What a modern curve block read yields over `cur`: each timing field in
/// order, and, when the custom-pong flag came back false, the pong leg
/// defaulted from the forward leg with the opposite curve.
pub open spec fn parse_animator_curve(
    data: Seq<u8>,
    has_scope: bool,
    top_end: int,
    pos: int,
    cur: AnimatorBase,
) -> Result<(AnimatorBase, int), DecodeError> {
    match crate::reader::get_u32_spec(data, has_scope, top_end, pos, cur.delay) {
        Err(e) => Err(e),
        Ok((delay, p1)) => match crate::reader::get_u32_spec(data, has_scope, top_end, p1, cur.duration) {
            Err(e) => Err(e),
            Ok((duration, p2)) => match crate::reader::get_u32_spec(
                data,
                has_scope,
                top_end,
                p2,
                cur.time_offset,
            ) {
                Err(e) => Err(e),
                Ok((time_offset, p3)) => match crate::reader::get_bool_spec(
                    data,
                    has_scope,
                    top_end,
                    p3,
                    cur.loop_,
                ) {
                    Err(e) => Err(e),
                    Ok((loop_, p4)) => match crate::reader::get_bool_spec(
                        data,
                        has_scope,
                        top_end,
                        p4,
                        cur.extend,
                    ) {
                        Err(e) => Err(e),
                        Ok((extend, p5)) => match parse_curve_type_field(
                            data,
                            has_scope,
                            top_end,
                            p5,
                            cur.curve_type,
                        ) {
                            Err(e) => Err(e),
                            Ok((curve_type, p6)) => match crate::reader::get_u32_spec(
                                data,
                                has_scope,
                                top_end,
                                p6,
                                cur.editor_animation_t,
                            ) {
                                Err(e) => Err(e),
                                Ok((eat, p7)) => match crate::reader::get_bool_spec(
                                    data,
                                    has_scope,
                                    top_end,
                                    p7,
                                    cur.custom_pong_values,
                                ) {
                                    Err(e) => Err(e),
                                    Ok((cpv, p8)) => match crate::reader::get_u32_spec(
                                        data,
                                        has_scope,
                                        top_end,
                                        p8,
                                        cur.pong_delay,
                                    ) {
                                        Err(e) => Err(e),
                                        Ok((pd, p9)) => match crate::reader::get_u32_spec(
                                            data,
                                            has_scope,
                                            top_end,
                                            p9,
                                            cur.pong_duration,
                                        ) {
                                            Err(e) => Err(e),
                                            Ok((pdur, p10)) => match parse_curve_type_field(
                                                data,
                                                has_scope,
                                                top_end,
                                                p10,
                                                cur.pong_curve_type,
                                            ) {
                                                Err(e) => Err(e),
                                                Ok((pct, p11)) => Ok(
                                                    (
                                                        AnimatorBase {
                                                            delay,
                                                            duration,
                                                            time_offset,
                                                            loop_,
                                                            extend,
                                                            curve_type,
                                                            editor_animation_t: eat,
                                                            custom_pong_values: cpv,
                                                            pong_delay: if cpv {
                                                                pd
                                                            } else {
                                                                delay
                                                            },
                                                            pong_duration: if cpv {
                                                                pdur
                                                            } else {
                                                                duration
                                                            },
                                                            pong_curve_type: if cpv {
                                                                pct
                                                            } else {
                                                                spec_curve_opposite(curve_type)
                                                            },
                                                            ..cur
                                                        },
                                                        p11,
                                                    ),
                                                ),
                                            },
                                        },
                                    },
                                },
                            },
                        },
                    },
                },
            },
        },
    }
}

/// Wire bytes of the modern curve block.
pub open spec fn enc_animator_curve(g: AnimatorBase) -> Seq<u8> {
    enc_f32_field(g.delay)
        + enc_f32_field(g.duration)
        + enc_f32_field(g.time_offset)
        + enc_bool(g.loop_)
        + enc_bool(g.extend)
        + enc_i32_field(spec_animator_base_curve_type_i32(g.curve_type))
        + enc_f32_field(g.editor_animation_t)
        + enc_bool(g.custom_pong_values)
        + enc_f32_field(g.pong_delay)
        + enc_f32_field(g.pong_duration)
        + enc_i32_field(spec_animator_base_curve_type_i32(g.pong_curve_type))
}

impl AnimatorBase {
    #[verifier::rlimit(100)]
    #[verifier::spinoff_prover]
    pub fn write_curve(&self, w: &mut Serializer)
        requires
            old(w).wf(),
        ensures
            final(w).wf(),
            final(w).scope_stack@ == old(w).scope_stack@,
            final(w).out@ == old(w).out@ + enc_animator_curve(*self),
    {
        let ghost base = w.out@;
        let ghost mut acc = Seq::<u8>::empty();
        proof {
            assert(w.out@ =~= base + acc);
        }
        w.put_f32_field(self.delay);
        proof {
            let e = enc_f32_field(self.delay);
            crate::wire::lemma_grow(base, acc, e);
            acc = acc + e;
            assert(w.out@ =~= base + acc);
        }
        w.put_f32_field(self.duration);
        proof {
            let e = enc_f32_field(self.duration);
            crate::wire::lemma_grow(base, acc, e);
            acc = acc + e;
            assert(w.out@ =~= base + acc);
        }
        w.put_f32_field(self.time_offset);
        proof {
            let e = enc_f32_field(self.time_offset);
            crate::wire::lemma_grow(base, acc, e);
            acc = acc + e;
            assert(w.out@ =~= base + acc);
        }
        w.put_bool(self.loop_);
        proof {
            let e = enc_bool(self.loop_);
            crate::wire::lemma_grow(base, acc, e);
            acc = acc + e;
            assert(w.out@ =~= base + acc);
        }
        w.put_bool(self.extend);
        proof {
            let e = enc_bool(self.extend);
            crate::wire::lemma_grow(base, acc, e);
            acc = acc + e;
            assert(w.out@ =~= base + acc);
        }
        w.put_i32_field(self.curve_type.to_i32());
        proof {
            let e = enc_i32_field(spec_animator_base_curve_type_i32(self.curve_type));
            crate::wire::lemma_grow(base, acc, e);
            acc = acc + e;
            assert(w.out@ =~= base + acc);
        }
        w.put_f32_field(self.editor_animation_t);
        proof {
            let e = enc_f32_field(self.editor_animation_t);
            crate::wire::lemma_grow(base, acc, e);
            acc = acc + e;
            assert(w.out@ =~= base + acc);
        }
        w.put_bool(self.custom_pong_values);
        proof {
            let e = enc_bool(self.custom_pong_values);
            crate::wire::lemma_grow(base, acc, e);
            acc = acc + e;
            assert(w.out@ =~= base + acc);
        }
        w.put_f32_field(self.pong_delay);
        proof {
            let e = enc_f32_field(self.pong_delay);
            crate::wire::lemma_grow(base, acc, e);
            acc = acc + e;
            assert(w.out@ =~= base + acc);
        }
        w.put_f32_field(self.pong_duration);
        proof {
            let e = enc_f32_field(self.pong_duration);
            crate::wire::lemma_grow(base, acc, e);
            acc = acc + e;
            assert(w.out@ =~= base + acc);
        }
        w.put_i32_field(self.pong_curve_type.to_i32());
        proof {
            let e = enc_i32_field(spec_animator_base_curve_type_i32(self.pong_curve_type));
            crate::wire::lemma_grow(base, acc, e);
            acc = acc + e;
            assert(w.out@ =~= base + acc);
        }
        proof {
            assert(acc == enc_animator_curve(*self));
        }
    }
    #[verifier::rlimit(100)]
    #[verifier::spinoff_prover]
    pub fn read_curve(cur: AnimatorBase, d: &mut Deserializer) -> (r: Result<AnimatorBase, DecodeError>)
        ensures
            old(d).keeps(*final(d)),
            match parse_animator_curve(
                old(d).data@,
                old(d).has_scope(),
                old(d).top_end(),
                old(d).pos as int,
                cur,
            ) {
                Ok((b, p)) => r matches Ok(b2) && b2 == b && final(d).pos == p,
                Err(e) => r matches Err(e2) && e2 == e,
            },
    {
        let mut x = cur;
        x.delay = d.get_f32(x.delay)?;
        x.duration = d.get_f32(x.duration)?;
        x.time_offset = d.get_f32(x.time_offset)?;
        x.loop_ = d.get_bool(x.loop_)?;
        x.extend = d.get_bool(x.extend)?;
        let n = d.get_i32(x.curve_type.to_i32())?;
        x.curve_type = match AnimatorBaseCurveType::from_i32(n) {
            Some(v) => v,
            Option::None => {
                return Err(DecodeError::UnknownEnumValue);
            },
        };
        x.editor_animation_t = d.get_f32(x.editor_animation_t)?;
        x.custom_pong_values = d.get_bool(x.custom_pong_values)?;
        x.pong_delay = d.get_f32(x.pong_delay)?;
        x.pong_duration = d.get_f32(x.pong_duration)?;
        let n = d.get_i32(x.pong_curve_type.to_i32())?;
        x.pong_curve_type = match AnimatorBaseCurveType::from_i32(n) {
            Some(v) => v,
            Option::None => {
                return Err(DecodeError::UnknownEnumValue);
            },
        };
        if !x.custom_pong_values {
            x.pong_delay = x.delay;
            x.pong_duration = x.duration;
            x.pong_curve_type = x.curve_type.opposite();
        }
        proof {
            assert(parse_animator_curve(
                old(d).data@,
                old(d).has_scope(),
                old(d).top_end(),
                old(d).pos as int,
                cur,
            ) == Ok::<(AnimatorBase, int), DecodeError>((x, d.pos as int)));
        }
        Ok(x)
    }
}

/// What a legacy curve block read yields over `cur`: the obsolete
/// extrapolation slot decides `extend` and whether the ping-pong upgrade
/// applies (the second result); very old forms carry a centered flag in
/// place of the animation parameter; the read pong curve is flipped, and a
/// false custom-pong flag defaults the pong leg from the forward leg.
pub open spec fn parse_animator_curve_old(
    data: Seq<u8>,
    has_scope: bool,
    top_end: int,
    pos: int,
    cur: AnimatorBase,
    old_animation_t: bool,
) -> Result<((AnimatorBase, bool), int), DecodeError> {
    match crate::reader::get_u32_spec(data, has_scope, top_end, pos, cur.delay) {
        Err(e) => Err(e),
        Ok((delay, p1)) => match crate::reader::get_u32_spec(data, has_scope, top_end, p1, cur.duration) {
            Err(e) => Err(e),
            Ok((duration, p2)) => match crate::reader::get_u32_spec(
                data,
                has_scope,
                top_end,
                p2,
                cur.time_offset,
            ) {
                Err(e) => Err(e),
                Ok((time_offset, p3)) => match crate::reader::get_bool_spec(
                    data,
                    has_scope,
                    top_end,
                    p3,
                    cur.loop_,
                ) {
                    Err(e) => Err(e),
                    Ok((loop_, p4)) => match crate::reader::get_i32_spec(
                        data,
                        has_scope,
                        top_end,
                        p4,
                        spec_animator_base_extrapolation_type_obsolete_i32(
                            AnimatorBaseExtrapolationTypeObsolete::PingPong,
                        ),
                    ) {
                        Err(e) => Err(e),
                        Ok((en, p5)) => match crate::enums::spec_animator_base_extrapolation_type_obsolete_from_i32(
                            en as int,
                        ) {
                            Option::None => Err(DecodeError::UnknownEnumValue),
                            Some(ext) => match parse_curve_type_field(
                                data,
                                has_scope,
                                top_end,
                                p5,
                                cur.curve_type,
                            ) {
                                Err(e) => Err(e),
                                Ok((curve_type, p6)) => match (if old_animation_t {
                                    match crate::reader::get_bool_spec(
                                        data,
                                        has_scope,
                                        top_end,
                                        p6,
                                        false,
                                    ) {
                                        Err(e) => Err(e),
                                        Ok((centered, p7)) => Ok(
                                            (
                                                if centered {
                                                    0x3F00_0000u32
                                                } else {
                                                    0u32
                                                },
                                                p7,
                                            ),
                                        ),
                                    }
                                } else {
                                    crate::reader::get_u32_spec(
                                        data,
                                        has_scope,
                                        top_end,
                                        p6,
                                        cur.editor_animation_t,
                                    )
                                }) {
                                    Err(e) => Err(e),
                                    Ok((eat, p8)) => match crate::reader::get_bool_spec(
                                        data,
                                        has_scope,
                                        top_end,
                                        p8,
                                        cur.custom_pong_values,
                                    ) {
                                        Err(e) => Err(e),
                                        Ok((cpv, p9)) => match crate::reader::get_u32_spec(
                                            data,
                                            has_scope,
                                            top_end,
                                            p9,
                                            cur.pong_delay,
                                        ) {
                                            Err(e) => Err(e),
                                            Ok((pd, p10)) => match crate::reader::get_u32_spec(
                                                data,
                                                has_scope,
                                                top_end,
                                                p10,
                                                cur.pong_duration,
                                            ) {
                                                Err(e) => Err(e),
                                                Ok((pdur, p11)) => match parse_curve_type_field(
                                                    data,
                                                    has_scope,
                                                    top_end,
                                                    p11,
                                                    cur.pong_curve_type,
                                                ) {
                                                    Err(e) => Err(e),
                                                    Ok((pct, p12)) => Ok(
                                                        (
                                                            (
                                                                AnimatorBase {
                                                                    delay,
                                                                    duration,
                                                                    time_offset,
                                                                    loop_,
                                                                    extend: ext
                                                                        == AnimatorBaseExtrapolationTypeObsolete::Extend,
                                                                    curve_type,
                                                                    editor_animation_t: eat,
                                                                    custom_pong_values: cpv,
                                                                    pong_delay: if cpv {
                                                                        pd
                                                                    } else {
                                                                        delay
                                                                    },
                                                                    pong_duration: if cpv {
                                                                        pdur
                                                                    } else {
                                                                        duration
                                                                    },
                                                                    pong_curve_type: if cpv {
                                                                        spec_curve_opposite(pct)
                                                                    } else {
                                                                        spec_curve_opposite(
                                                                            curve_type,
                                                                        )
                                                                    },
                                                                    ..cur
                                                                },
                                                                ext
                                                                    == AnimatorBaseExtrapolationTypeObsolete::PingPong,
                                                            ),
                                                            p12,
                                                        ),
                                                    ),
                                                },
                                            },
                                        },
                                    },
                                },
                            },
                        },
                    },
                },
            },
        },
    }
}

/// Wire bytes of the legacy curve block; the extrapolation slot is written as ping-pong, and very old forms carry a centered flag instead of the animation parameter.
pub open spec fn enc_animator_curve_old(g: AnimatorBase, old_animation_t: bool) -> Seq<u8> {
    enc_f32_field(g.delay)
        + enc_f32_field(g.duration)
        + enc_f32_field(g.time_offset)
        + enc_bool(g.loop_)
        + enc_i32_field(spec_animator_base_extrapolation_type_obsolete_i32(AnimatorBaseExtrapolationTypeObsolete::PingPong))
        + enc_i32_field(spec_animator_base_curve_type_i32(g.curve_type))
        + (if old_animation_t { enc_bool(false) } else { Seq::empty() })
        + (if !old_animation_t { enc_f32_field(g.editor_animation_t) } else { Seq::empty() })
        + enc_bool(g.custom_pong_values)
        + enc_f32_field(g.pong_delay)
        + enc_f32_field(g.pong_duration)
        + enc_i32_field(spec_animator_base_curve_type_i32(g.pong_curve_type))
}

impl AnimatorBase {
    #[verifier::rlimit(100)]
    #[verifier::spinoff_prover]
    pub fn write_curve_old(&self, w: &mut Serializer, old_animation_t: bool)
        requires
            old(w).wf(),
        ensures
            final(w).wf(),
            final(w).scope_stack@ == old(w).scope_stack@,
            final(w).out@ == old(w).out@ + enc_animator_curve_old(*self, old_animation_t),
    {
        let ghost base = w.out@;
        let ghost mut acc = Seq::<u8>::empty();
        proof {
            assert(w.out@ =~= base + acc);
        }
        w.put_f32_field(self.delay);
        proof {
            let e = enc_f32_field(self.delay);
            crate::wire::lemma_grow(base, acc, e);
            acc = acc + e;
            assert(w.out@ =~= base + acc);
        }
        w.put_f32_field(self.duration);
        proof {
            let e = enc_f32_field(self.duration);
            crate::wire::lemma_grow(base, acc, e);
            acc = acc + e;
            assert(w.out@ =~= base + acc);
        }
        w.put_f32_field(self.time_offset);
        proof {
            let e = enc_f32_field(self.time_offset);
            crate::wire::lemma_grow(base, acc, e);
            acc = acc + e;
            assert(w.out@ =~= base + acc);
        }
        w.put_bool(self.loop_);
        proof {
            let e = enc_bool(self.loop_);
            crate::wire::lemma_grow(base, acc, e);
            acc = acc + e;
            assert(w.out@ =~= base + acc);
        }
        w.put_i32_field(AnimatorBaseExtrapolationTypeObsolete::PingPong.to_i32());
        proof {
            let e = enc_i32_field(spec_animator_base_extrapolation_type_obsolete_i32(AnimatorBaseExtrapolationTypeObsolete::PingPong));
            crate::wire::lemma_grow(base, acc, e);
            acc = acc + e;
            assert(w.out@ =~= base + acc);
        }
        w.put_i32_field(self.curve_type.to_i32());
        proof {
            let e = enc_i32_field(spec_animator_base_curve_type_i32(self.curve_type));
            crate::wire::lemma_grow(base, acc, e);
            acc = acc + e;
            assert(w.out@ =~= base + acc);
        }
        if old_animation_t {
            w.put_bool(false);
        }
        proof {
            let e = if old_animation_t { enc_bool(false) } else { Seq::<u8>::empty() };
            crate::wire::lemma_grow(base, acc, e);
            acc = acc + e;
            assert(w.out@ =~= base + acc);
        }
        if !old_animation_t {
            w.put_f32_field(self.editor_animation_t);
        }
        proof {
            let e = if !old_animation_t { enc_f32_field(self.editor_animation_t) } else { Seq::<u8>::empty() };
            crate::wire::lemma_grow(base, acc, e);
            acc = acc + e;
            assert(w.out@ =~= base + acc);
        }
        w.put_bool(self.custom_pong_values);
        proof {
            let e = enc_bool(self.custom_pong_values);
            crate::wire::lemma_grow(base, acc, e);
            acc = acc + e;
            assert(w.out@ =~= base + acc);
        }
        w.put_f32_field(self.pong_delay);
        proof {
            let e = enc_f32_field(self.pong_delay);
            crate::wire::lemma_grow(base, acc, e);
            acc = acc + e;
            assert(w.out@ =~= base + acc);
        }
        w.put_f32_field(self.pong_duration);
        proof {
            let e = enc_f32_field(self.pong_duration);
            crate::wire::lemma_grow(base, acc, e);
            acc = acc + e;
            assert(w.out@ =~= base + acc);
        }
        w.put_i32_field(self.pong_curve_type.to_i32());
        proof {
            let e = enc_i32_field(spec_animator_base_curve_type_i32(self.pong_curve_type));
            crate::wire::lemma_grow(base, acc, e);
            acc = acc + e;
            assert(w.out@ =~= base + acc);
        }
        proof {
            assert(acc == enc_animator_curve_old(*self, old_animation_t));
        }
    }
    #[verifier::rlimit(100)]
    #[verifier::spinoff_prover]
    pub fn read_curve_old(cur: AnimatorBase, d: &mut Deserializer, old_animation_t: bool) -> (r: Result<(AnimatorBase, bool), DecodeError>)
        ensures
            old(d).keeps(*final(d)),
            match parse_animator_curve_old(
                old(d).data@,
                old(d).has_scope(),
                old(d).top_end(),
                old(d).pos as int,
                cur,
                old_animation_t,
            ) {
                Ok((b, p)) => r matches Ok(b2) && b2 == b && final(d).pos == p,
                Err(e) => r matches Err(e2) && e2 == e,
            },
    {
        let mut x = cur;
        x.delay = d.get_f32(x.delay)?;
        x.duration = d.get_f32(x.duration)?;
        x.time_offset = d.get_f32(x.time_offset)?;
        x.loop_ = d.get_bool(x.loop_)?;
        let e0 = AnimatorBaseExtrapolationTypeObsolete::PingPong;
        let en = d.get_i32(e0.to_i32())?;
        let extrapolation = match AnimatorBaseExtrapolationTypeObsolete::from_i32(en) {
            Some(v) => v,
            Option::None => {
                return Err(DecodeError::UnknownEnumValue);
            },
        };
        x.extend = extrapolation == AnimatorBaseExtrapolationTypeObsolete::Extend;
        let n = d.get_i32(x.curve_type.to_i32())?;
        x.curve_type = match AnimatorBaseCurveType::from_i32(n) {
            Some(v) => v,
            Option::None => {
                return Err(DecodeError::UnknownEnumValue);
            },
        };
        if old_animation_t {
            let centered = d.get_bool(false)?;
            x.editor_animation_t = if centered { 0x3F00_0000 } else { 0 };
        }
        if !old_animation_t {
            x.editor_animation_t = d.get_f32(x.editor_animation_t)?;
        }
        x.custom_pong_values = d.get_bool(x.custom_pong_values)?;
        x.pong_delay = d.get_f32(x.pong_delay)?;
        x.pong_duration = d.get_f32(x.pong_duration)?;
        let n = d.get_i32(x.pong_curve_type.to_i32())?;
        x.pong_curve_type = match AnimatorBaseCurveType::from_i32(n) {
            Some(v) => v,
            Option::None => {
                return Err(DecodeError::UnknownEnumValue);
            },
        };
        x.pong_curve_type = x.pong_curve_type.opposite();
        if !x.custom_pong_values {
            x.pong_delay = x.delay;
            x.pong_duration = x.duration;
            x.pong_curve_type = x.curve_type.opposite();
        }
        let apply = extrapolation == AnimatorBaseExtrapolationTypeObsolete::PingPong;
        proof {
            assert(parse_animator_curve_old(
                old(d).data@,
                old(d).has_scope(),
                old(d).top_end(),
                old(d).pos as int,
                cur,
                old_animation_t,
            ) == Ok::<((AnimatorBase, bool), int), DecodeError>(((x, apply), d.pos as int)));
        }
        Ok((x, apply))
    }
}

/// What a trigger block read yields over `cur`: the default, on and off
/// actions with their wait and reset flags, in the fixed field order.
pub open spec fn parse_animator_trigger(
    data: Seq<u8>,
    has_scope: bool,
    top_end: int,
    pos: int,
    cur: AnimatorBase,
) -> Result<(AnimatorBase, int), DecodeError> {
    match parse_trigger_action_field(data, has_scope, top_end, pos, cur.default_action) {
        Err(e) => Err(e),
        Ok((da, p1)) => match parse_trigger_action_field(data, has_scope, top_end, p1, cur.on_action) {
            Err(e) => Err(e),
            Ok((ona, p2)) => match crate::reader::get_bool_spec(
                data,
                has_scope,
                top_end,
                p2,
                cur.on_wait_for_animation_finish,
            ) {
                Err(e) => Err(e),
                Ok((onw, p3)) => match crate::reader::get_bool_spec(
                    data,
                    has_scope,
                    top_end,
                    p3,
                    cur.on_reset,
                ) {
                    Err(e) => Err(e),
                    Ok((onr, p4)) => match parse_trigger_action_field(
                        data,
                        has_scope,
                        top_end,
                        p4,
                        cur.off_action,
                    ) {
                        Err(e) => Err(e),
                        Ok((offa, p5)) => match crate::reader::get_bool_spec(
                            data,
                            has_scope,
                            top_end,
                            p5,
                            cur.off_wait_for_animation_finish,
                        ) {
                            Err(e) => Err(e),
                            Ok((offw, p6)) => match crate::reader::get_bool_spec(
                                data,
                                has_scope,
                                top_end,
                                p6,
                                cur.off_reset,
                            ) {
                                Err(e) => Err(e),
                                Ok((offr, p7)) => Ok(
                                    (
                                        AnimatorBase {
                                            default_action: da,
                                            on_action: ona,
                                            on_wait_for_animation_finish: onw,
                                            on_reset: onr,
                                            off_action: offa,
                                            off_wait_for_animation_finish: offw,
                                            off_reset: offr,
                                            ..cur
                                        },
                                        p7,
                                    ),
                                ),
                            },
                        },
                    },
                },
            },
        },
    }
}

/// Wire bytes of the trigger block.
pub open spec fn enc_animator_trigger(g: AnimatorBase) -> Seq<u8> {
    enc_i32_field(spec_animator_base_trigger_action_i32(g.default_action))
        + enc_i32_field(spec_animator_base_trigger_action_i32(g.on_action))
        + enc_bool(g.on_wait_for_animation_finish)
        + enc_bool(g.on_reset)
        + enc_i32_field(spec_animator_base_trigger_action_i32(g.off_action))
        + enc_bool(g.off_wait_for_animation_finish)
        + enc_bool(g.off_reset)
}

impl AnimatorBase {
    #[verifier::rlimit(100)]
    #[verifier::spinoff_prover]
    pub fn write_trigger(&self, w: &mut Serializer)
        requires
            old(w).wf(),
        ensures
            final(w).wf(),
            final(w).scope_stack@ == old(w).scope_stack@,
            final(w).out@ == old(w).out@ + enc_animator_trigger(*self),
    {
        let ghost base = w.out@;
        let ghost mut acc = Seq::<u8>::empty();
        proof {
            assert(w.out@ =~= base + acc);
        }
        w.put_i32_field(self.default_action.to_i32());
        proof {
            let e = enc_i32_field(spec_animator_base_trigger_action_i32(self.default_action));
            crate::wire::lemma_grow(base, acc, e);
            acc = acc + e;
            assert(w.out@ =~= base + acc);
        }
        w.put_i32_field(self.on_action.to_i32());
        proof {
            let e = enc_i32_field(spec_animator_base_trigger_action_i32(self.on_action));
            crate::wire::lemma_grow(base, acc, e);
            acc = acc + e;
            assert(w.out@ =~= base + acc);
        }
        w.put_bool(self.on_wait_for_animation_finish);
        proof {
            let e = enc_bool(self.on_wait_for_animation_finish);
            crate::wire::lemma_grow(base, acc, e);
            acc = acc + e;
            assert(w.out@ =~= base + acc);
        }
        w.put_bool(self.on_reset);
        proof {
            let e = enc_bool(self.on_reset);
            crate::wire::lemma_grow(base, acc, e);
            acc = acc + e;
            assert(w.out@ =~= base + acc);
        }
        w.put_i32_field(self.off_action.to_i32());
        proof {
            let e = enc_i32_field(spec_animator_base_trigger_action_i32(self.off_action));
            crate::wire::lemma_grow(base, acc, e);
            acc = acc + e;
            assert(w.out@ =~= base + acc);
        }
        w.put_bool(self.off_wait_for_animation_finish);
        proof {
            let e = enc_bool(self.off_wait_for_animation_finish);
            crate::wire::lemma_grow(base, acc, e);
            acc = acc + e;
            assert(w.out@ =~= base + acc);
        }
        w.put_bool(self.off_reset);
        proof {
            let e = enc_bool(self.off_reset);
            crate::wire::lemma_grow(base, acc, e);
            acc = acc + e;
            assert(w.out@ =~= base + acc);
        }
        proof {
            assert(acc == enc_animator_trigger(*self));
        }
    }
    pub fn read_trigger(cur: AnimatorBase, d: &mut Deserializer) -> (r: Result<AnimatorBase, DecodeError>)
        ensures
            old(d).keeps(*final(d)),
    {
        let mut x = cur;
        let n = d.get_i32(x.default_action.to_i32())?;
        x.default_action = match AnimatorBaseTriggerAction::from_i32(n) {
            Some(v) => v,
            Option::None => {
                return Err(DecodeError::UnknownEnumValue);
            },
        };
        let n = d.get_i32(x.on_action.to_i32())?;
        x.on_action = match AnimatorBaseTriggerAction::from_i32(n) {
            Some(v) => v,
            Option::None => {
                return Err(DecodeError::UnknownEnumValue);
            },
        };
        x.on_wait_for_animation_finish = d.get_bool(x.on_wait_for_animation_finish)?;
        x.on_reset = d.get_bool(x.on_reset)?;
        let n = d.get_i32(x.off_action.to_i32())?;
        x.off_action = match AnimatorBaseTriggerAction::from_i32(n) {
            Some(v) => v,
            Option::None => {
                return Err(DecodeError::UnknownEnumValue);
            },
        };
        x.off_wait_for_animation_finish = d.get_bool(x.off_wait_for_animation_finish)?;
        x.off_reset = d.get_bool(x.off_reset)?;
        Ok(x)
    }
}

/// An animated object: its motion, per-frame transform animation, and the
/// animator base driving it.
#[derive(Debug, Clone, Copy, PartialEq, Eq, Structural)]
pub struct Animated {
    pub base: AnimatorBase,
    pub motion: AnimatedMotionType,
    pub scale: bool,
    pub scale_exponent: Vector3,
    pub rotate: bool,
    pub rotate_axis: Vector3,
    pub center_point: Vector3,
    /// As f32 bits.
    pub rotate_magnitude: u32,
    pub translate_type: AnimatedTranslateType,
    pub translate_vector: Vector3,
    /// As f32 bits.
    pub follow_distance: u32,
    pub follow_percent_of_track: bool,
    pub rotate_global: bool,
    /// As f32 bits.
    pub double_pivot_distance: u32,
    pub wrap_around: bool,
    pub projectile_velocity: Vector3,
    pub projectile_gravity: Vector3,
    pub animate_physics: bool,
    pub always_animate: bool,
}

impl Default for Animated {
    fn default() -> (r: Self)
        ensures
            r == spec_animated_default(),
    {
        Animated {
            base: AnimatorBase::default(),
            motion: AnimatedMotionType::Hinge,
            scale: false,
            scale_exponent: Vector3 { x: 0, y: F32_ONE, z: 0 },
            rotate: true,
            rotate_axis: Vector3 { x: 0, y: F32_ONE, z: 0 },
            center_point: zeros_vector3(),
            rotate_magnitude: 0x42B4_0000,
            translate_type: AnimatedTranslateType::NoneValue,
            translate_vector: Vector3 { x: 0, y: 0x4120_0000, z: 0 },
            follow_distance: 0x42C8_0000,
            follow_percent_of_track: true,
            rotate_global: false,
            double_pivot_distance: 0,
            wrap_around: true,
            projectile_velocity: Vector3 { x: 0, y: 0x4248_0000, z: 0x41C8_0000 },
            projectile_gravity: Vector3 { x: 0, y: 0xC1C8_0000, z: 0 },
            animate_physics: true,
            always_animate: false,
        }
    }
}

pub open spec fn spec_animated_default() -> Animated {
    Animated {
        base: spec_animator_base_default(),
        motion: AnimatedMotionType::Hinge,
        scale: false,
        scale_exponent: Vector3 { x: 0, y: F32_ONE, z: 0 },
        rotate: true,
        rotate_axis: Vector3 { x: 0, y: F32_ONE, z: 0 },
        center_point: spec_zeros_vector3(),
        rotate_magnitude: 0x42B4_0000,
        translate_type: AnimatedTranslateType::NoneValue,
        translate_vector: Vector3 { x: 0, y: 0x4120_0000, z: 0 },
        follow_distance: 0x42C8_0000,
        follow_percent_of_track: true,
        rotate_global: false,
        double_pivot_distance: 0,
        wrap_around: true,
        projectile_velocity: Vector3 { x: 0, y: 0x4248_0000, z: 0x41C8_0000 },
        projectile_gravity: Vector3 { x: 0, y: 0xC1C8_0000, z: 0 },
        animate_physics: true,
        always_animate: false,
    }
}

/// What an enum slot holding a motion type yields on read.
pub open spec fn parse_motion_type_field(
    data: Seq<u8>,
    has_scope: bool,
    top_end: int,
    pos: int,
    cur: AnimatedMotionType,
) -> Result<(AnimatedMotionType, int), DecodeError> {
    match crate::reader::get_i32_spec(data, has_scope, top_end, pos, spec_animated_motion_type_i32(cur)) {
        Err(e) => Err(e),
        Ok((n, np)) => match crate::enums::spec_animated_motion_type_from_i32(n as int) {
            Some(v) => Ok((v, np)),
            Option::None => Err(DecodeError::UnknownEnumValue),
        },
    }
}

/// What an enum slot holding a translate type yields on read.
pub open spec fn parse_translate_type_field(
    data: Seq<u8>,
    has_scope: bool,
    top_end: int,
    pos: int,
    cur: AnimatedTranslateType,
) -> Result<(AnimatedTranslateType, int), DecodeError> {
    match crate::reader::get_i32_spec(
        data,
        has_scope,
        top_end,
        pos,
        spec_animated_translate_type_i32(cur),
    ) {
        Err(e) => Err(e),
        Ok((n, np)) => match crate::enums::spec_animated_translate_type_from_i32(n as int) {
            Some(v) => Ok((v, np)),
            Option::None => Err(DecodeError::UnknownEnumValue),
        },
    }
}

/// What the legacy head of an animated record yields over `x0` at
/// `version`: motion, scale, rotation axis, and before version 4 the old
/// transform layout, whose two booleans derive the translate type (Local,
/// then FollowTrack from version 2) and whose presence clears the
/// percent-of-track flag.
pub open spec fn parse_animated_head(
    data: Seq<u8>,
    has_scope: bool,
    top_end: int,
    pos: int,
    version: i32,
    x0: Animated,
) -> Result<(Animated, int), DecodeError> {
    match parse_motion_type_field(data, has_scope, top_end, pos, x0.motion) {
        Err(e) => Err(e),
        Ok((motion, p1)) => {
            let x1 = Animated { motion, ..x0 };
            match (if version >= 1 {
                crate::reader::get_bool_spec(data, has_scope, top_end, p1, x1.scale)
            } else {
                Ok((x1.scale, p1))
            }) {
                Err(e) => Err(e),
                Ok((scale, p2)) => {
                    let x2 = Animated { scale, ..x1 };
                    match (if version >= 1 {
                        crate::reader::get_vector3_spec(data, has_scope, top_end, p2, x2.scale_exponent)
                    } else {
                        Ok((x2.scale_exponent, p2))
                    }) {
                        Err(e) => Err(e),
                        Ok((scale_exponent, p3)) => {
                            let x3 = Animated { scale_exponent, ..x2 };
                            match crate::reader::get_bool_spec(data, has_scope, top_end, p3, x3.rotate) {
                                Err(e) => Err(e),
                                Ok((rotate, p4)) => {
                                    let x4 = Animated { rotate, ..x3 };
                                    match crate::reader::get_vector3_spec(
                                        data,
                                        has_scope,
                                        top_end,
                                        p4,
                                        x4.rotate_axis,
                                    ) {
                                        Err(e) => Err(e),
                                        Ok((rotate_axis, p5)) => {
                                            let x5 = Animated { rotate_axis, ..x4 };
                                            match (if version < 4 {
                                                crate::reader::get_vector3_spec(
                                                    data,
                                                    has_scope,
                                                    top_end,
                                                    p5,
                                                    x5.center_point,
                                                )
                                            } else {
                                                Ok((x5.center_point, p5))
                                            }) {
                                                Err(e) => Err(e),
                                                Ok((center_point, p6)) => {
                                                    let x6 = Animated { center_point, ..x5 };
                                                    match (if version < 4 {
                                                        crate::reader::get_u32_spec(
                                                            data,
                                                            has_scope,
                                                            top_end,
                                                            p6,
                                                            x6.rotate_magnitude,
                                                        )
                                                    } else {
                                                        Ok((x6.rotate_magnitude, p6))
                                                    }) {
                                                        Err(e) => Err(e),
                                                        Ok((rotate_magnitude, p7)) => {
                                                            let x7 = Animated { rotate_magnitude, ..x6 };
                                                            match (if version < 4 {
                                                                match crate::reader::get_bool_spec(
                                                                    data,
                                                                    has_scope,
                                                                    top_end,
                                                                    p7,
                                                                    false,
                                                                ) {
                                                                    Err(e) => Err(e),
                                                                    Ok((tr, p8)) => Ok(
                                                                        (
                                                                            if tr {
                                                                                AnimatedTranslateType::Local
                                                                            } else {
                                                                                AnimatedTranslateType::NoneValue
                                                                            },
                                                                            p8,
                                                                        ),
                                                                    ),
                                                                }
                                                            } else {
                                                                Ok((x7.translate_type, p7))
                                                            }) {
                                                                Err(e) => Err(e),
                                                                Ok((translate_type, p9)) => {
                                                                    let x8 = Animated { translate_type, ..x7 };
                                                                    match (if version < 4 {
                                                                        crate::reader::get_vector3_spec(
                                                                            data,
                                                                            has_scope,
                                                                            top_end,
                                                                            p9,
                                                                            x8.translate_vector,
                                                                        )
                                                                    } else {
                                                                        Ok((x8.translate_vector, p9))
                                                                    }) {
                                                                        Err(e) => Err(e),
                                                                        Ok((translate_vector, p10)) => {
                                                                            let x9 = Animated { translate_vector, ..x8 };
                                                                            match (if version < 4 && version >= 2 {
                                                                                match crate::reader::get_bool_spec(
                                                                                    data,
                                                                                    has_scope,
                                                                                    top_end,
                                                                                    p10,
                                                                                    false,
                                                                                ) {
                                                                                    Err(e) => Err(e),
                                                                                    Ok((mv, p11)) => Ok(
                                                                                        (
                                                                                            if mv {
                                                                                                AnimatedTranslateType::FollowTrack
                                                                                            } else {
                                                                                                x9.translate_type
                                                                                            },
                                                                                            p11,
                                                                                        ),
                                                                                    ),
                                                                                }
                                                                            } else {
                                                                                Ok((x9.translate_type, p10))
                                                                            }) {
                                                                                Err(e) => Err(e),
                                                                                Ok((tt2, p12)) => {
                                                                                    let x10 = Animated { translate_type: tt2, ..x9 };
                                                                                    match (if version < 4 && version >= 2 {
                                                                                        crate::reader::get_u32_spec(
                                                                                            data,
                                                                                            has_scope,
                                                                                            top_end,
                                                                                            p12,
                                                                                            x10.follow_distance,
                                                                                        )
                                                                                    } else {
                                                                                        Ok((x10.follow_distance, p12))
                                                                                    }) {
                                                                                        Err(e) => Err(e),
                                                                                        Ok((follow_distance, p13)) => Ok(
                                                                                            (
                                                                                                Animated {
                                                                                                    follow_distance,
                                                                                                    follow_percent_of_track: if version < 4 {
                                                                                                        false
                                                                                                    } else {
                                                                                                        x10.follow_percent_of_track
                                                                                                    },
                                                                                                    ..x10
                                                                                                },
                                                                                                p13,
                                                                                            ),
                                                                                        ),
                                                                                    }
                                                                                },
                                                                            }
                                                                        },
                                                                    }
                                                                },
                                                            }
                                                        },
                                                    }
                                                },
                                            }
                                        },
                                    }
                                },
                            }
                        },
                    }
                },
            }
        },
    }
}

/// What the modern block of an animated record yields over `x0` at
/// `version`: the version-4 transform layout, the pivot and track fields,
/// and the projectile vectors; before version 9 (from 4) the
/// percent-of-track flag is cleared rather than read.
pub open spec fn parse_animated_modern(
    data: Seq<u8>,
    has_scope: bool,
    top_end: int,
    pos: int,
    version: i32,
    x0: Animated,
) -> Result<(Animated, int), DecodeError> {
    match (if version >= 5 {
        crate::reader::get_bool_spec(data, has_scope, top_end, pos, x0.rotate_global)
    } else {
        Ok((x0.rotate_global, pos))
    }) {
        Err(e) => Err(e),
        Ok((rotate_global, p1)) => {
            let x1 = Animated { rotate_global, ..x0 };
            match (if version >= 4 {
                crate::reader::get_u32_spec(data, has_scope, top_end, p1, x1.rotate_magnitude)
            } else {
                Ok((x1.rotate_magnitude, p1))
            }) {
                Err(e) => Err(e),
                Ok((rotate_magnitude, p2)) => {
                    let x2 = Animated { rotate_magnitude, ..x1 };
                    match (if version >= 4 {
                        crate::reader::get_vector3_spec(data, has_scope, top_end, p2, x2.center_point)
                    } else {
                        Ok((x2.center_point, p2))
                    }) {
                        Err(e) => Err(e),
                        Ok((center_point, p3)) => {
                            let x3 = Animated { center_point, ..x2 };
                            match (if version >= 4 {
                                parse_translate_type_field(data, has_scope, top_end, p3, x3.translate_type)
                            } else {
                                Ok((x3.translate_type, p3))
                            }) {
                                Err(e) => Err(e),
                                Ok((translate_type, p4)) => {
                                    let x4 = Animated { translate_type, ..x3 };
                                    match (if version >= 4 {
                                        crate::reader::get_vector3_spec(
                                            data,
                                            has_scope,
                                            top_end,
                                            p4,
                                            x4.translate_vector,
                                        )
                                    } else {
                                        Ok((x4.translate_vector, p4))
                                    }) {
                                        Err(e) => Err(e),
                                        Ok((translate_vector, p5)) => {
                                            let x5 = Animated { translate_vector, ..x4 };
                                            match (if version >= 4 {
                                                crate::reader::get_u32_spec(
                                                    data,
                                                    has_scope,
                                                    top_end,
                                                    p5,
                                                    x5.follow_distance,
                                                )
                                            } else {
                                                Ok((x5.follow_distance, p5))
                                            }) {
                                                Err(e) => Err(e),
                                                Ok((follow_distance, p6)) => {
                                                    let x6 = Animated { follow_distance, ..x5 };
                                                    match (if version >= 11 {
                                                        crate::reader::get_u32_spec(
                                                            data,
                                                            has_scope,
                                                            top_end,
                                                            p6,
                                                            x6.double_pivot_distance,
                                                        )
                                                    } else {
                                                        Ok((x6.double_pivot_distance, p6))
                                                    }) {
                                                        Err(e) => Err(e),
                                                        Ok((double_pivot_distance, p7)) => {
                                                            let x7 = Animated { double_pivot_distance, ..x6 };
                                                            match (if version >= 9 {
                                                                crate::reader::get_bool_spec(
                                                                    data,
                                                                    has_scope,
                                                                    top_end,
                                                                    p7,
                                                                    x7.follow_percent_of_track,
                                                                )
                                                            } else {
                                                                Ok(
                                                                    (
                                                                        if version >= 4 {
                                                                            false
                                                                        } else {
                                                                            x7.follow_percent_of_track
                                                                        },
                                                                        p7,
                                                                    ),
                                                                )
                                                            }) {
                                                                Err(e) => Err(e),
                                                                Ok((fpt, p8)) => {
                                                                    let x8 = Animated { follow_percent_of_track: fpt, ..x7 };
                                                                    match (if version >= 10 {
                                                                        crate::reader::get_bool_spec(
                                                                            data,
                                                                            has_scope,
                                                                            top_end,
                                                                            p8,
                                                                            x8.wrap_around,
                                                                        )
                                                                    } else {
                                                                        Ok((x8.wrap_around, p8))
                                                                    }) {
                                                                        Err(e) => Err(e),
                                                                        Ok((wrap_around, p9)) => {
                                                                            let x9 = Animated { wrap_around, ..x8 };
                                                                            match (if version == 4 {
                                                                                crate::reader::get_vector3_spec(
                                                                                    data,
                                                                                    has_scope,
                                                                                    top_end,
                                                                                    p9,
                                                                                    x9.projectile_velocity,
                                                                                )
                                                                            } else {
                                                                                Ok((x9.projectile_velocity, p9))
                                                                            }) {
                                                                                Err(e) => Err(e),
                                                                                Ok((projectile_velocity, p10)) => {
                                                                                    let x10 = Animated { projectile_velocity, ..x9 };
                                                                                    match (if version >= 4 {
                                                                                        crate::reader::get_vector3_spec(
                                                                                            data,
                                                                                            has_scope,
                                                                                            top_end,
                                                                                            p10,
                                                                                            x10.projectile_gravity,
                                                                                        )
                                                                                    } else {
                                                                                        Ok((x10.projectile_gravity, p10))
                                                                                    }) {
                                                                                        Err(e) => Err(e),
                                                                                        Ok((projectile_gravity, p11)) => Ok(
                                                                                            (
                                                                                                Animated { projectile_gravity, ..x10 },
                                                                                                p11,
                                                                                            ),
                                                                                        ),
                                                                                    }
                                                                                },
                                                                            }
                                                                        },
                                                                    }
                                                                },
                                                            }
                                                        },
                                                    }
                                                },
                                            }
                                        },
                                    }
                                },
                            }
                        },
                    }
                },
            }
        },
    }
}

/// What a whole animated-object read yields at `version`, starting from
/// the defaults: the legacy head, the modern block, then the curve block
/// of that era (legacy curves decide the ping-pong upgrade), the physics
/// flags, and from version 3 the trigger block.
pub open spec fn parse_animated(
    data: Seq<u8>,
    has_scope: bool,
    top_end: int,
    pos: int,
    version: i32,
) -> Result<(Animated, int), DecodeError> {
    match parse_animated_head(data, has_scope, top_end, pos, version, spec_animated_default()) {
        Err(e) => Err(e),
        Ok((xa, pa)) => match parse_animated_modern(data, has_scope, top_end, pa, version, xa) {
            Err(e) => Err(e),
            Ok((xb, pb)) => match (if version >= 8 {
                match parse_animator_curve(data, has_scope, top_end, pb, xb.base) {
                    Err(e) => Err(e),
                    Ok((b, p)) => Ok(((b, false), p)),
                }
            } else {
                parse_animator_curve_old(data, has_scope, top_end, pb, xb.base, version < 6)
            }) {
                Err(e) => Err(e),
                Ok(((base1, apply), pc)) => {
                    let xc = Animated { base: base1, ..xb };
                    match (if version >= 7 {
                        crate::reader::get_bool_spec(data, has_scope, top_end, pc, xc.animate_physics)
                    } else {
                        Ok((xc.animate_physics, pc))
                    }) {
                        Err(e) => Err(e),
                        Ok((animate_physics, pd)) => {
                            let xd = Animated { animate_physics, ..xc };
                            match (if version >= 7 {
                                crate::reader::get_bool_spec(data, has_scope, top_end, pd, xd.always_animate)
                            } else {
                                Ok((xd.always_animate, pd))
                            }) {
                                Err(e) => Err(e),
                                Ok((always_animate, pe)) => {
                                    let xe = Animated { always_animate, ..xd };
                                    match (if version >= 3 {
                                        parse_animator_trigger(data, has_scope, top_end, pe, xe.base)
                                    } else {
                                        Ok((xe.base, pe))
                                    }) {
                                        Err(e) => Err(e),
                                        Ok((base2, pf)) => Ok(
                                            (
                                                Animated {
                                                    base: if version < 8 {
                                                        spec_upgrade_ping_pong(base2, apply)
                                                    } else {
                                                        base2
                                                    },
                                                    ..xe
                                                },
                                                pf,
                                            ),
                                        ),
                                    }
                                },
                            }
                        },
                    }
                },
            },
        },
    }
}

/// Wire bytes of an animated object at `version`: old and new transform layouts, then the curve block of that era, then the trigger block.
pub open spec fn enc_animated(g: Animated, version: i32) -> Seq<u8> {
    enc_i32_field(spec_animated_motion_type_i32(g.motion))
        + (if version >= 1 { enc_bool(g.scale) } else { Seq::empty() })
        + (if version >= 1 { enc_vector3(g.scale_exponent) } else { Seq::empty() })
        + enc_bool(g.rotate)
        + enc_vector3(g.rotate_axis)
        + (if version < 4 { enc_vector3(g.center_point) } else { Seq::empty() })
        + (if version < 4 { enc_f32_field(g.rotate_magnitude) } else { Seq::empty() })
        + (if version < 4 { enc_bool(false) } else { Seq::empty() })
        + (if version < 4 { enc_vector3(g.translate_vector) } else { Seq::empty() })
        + (if version < 4 && version >= 2 { enc_bool(false) } else { Seq::empty() })
        + (if version < 4 && version >= 2 { enc_f32_field(g.follow_distance) } else { Seq::empty() })
        + (if version < 4 { Seq::<u8>::empty() } else { Seq::empty() })
        + (if version >= 5 { enc_bool(g.rotate_global) } else { Seq::empty() })
        + (if version >= 4 { enc_f32_field(g.rotate_magnitude) } else { Seq::empty() })
        + (if version >= 4 { enc_vector3(g.center_point) } else { Seq::empty() })
        + (if version >= 4 { enc_i32_field(spec_animated_translate_type_i32(g.translate_type)) } else { Seq::empty() })
        + (if version >= 4 { enc_vector3(g.translate_vector) } else { Seq::empty() })
        + (if version >= 4 { enc_f32_field(g.follow_distance) } else { Seq::empty() })
        + (if version >= 11 { enc_f32_field(g.double_pivot_distance) } else { Seq::empty() })
        + (if version >= 9 { enc_bool(g.follow_percent_of_track) } else { Seq::empty() })
        + (if version >= 10 { enc_bool(g.wrap_around) } else { Seq::empty() })
        + (if version == 4 { enc_vector3(g.projectile_velocity) } else { Seq::empty() })
        + (if version >= 4 { enc_vector3(g.projectile_gravity) } else { Seq::empty() })
        + (if version >= 8 { enc_animator_curve(g.base) } else { Seq::empty() })
        + (if version < 8 { enc_animator_curve_old(g.base, version < 6) } else { Seq::empty() })
        + (if version >= 7 { enc_bool(g.animate_physics) } else { Seq::empty() })
        + (if version >= 7 { enc_bool(g.always_animate) } else { Seq::empty() })
        + (if version >= 3 { enc_animator_trigger(g.base) } else { Seq::empty() })
}

impl Animated {
    /// Current schema version.
    pub fn version() -> (v: i32)
        ensures
            v == 11,
    {
        11
    }

    #[verifier::rlimit(100)]
    #[verifier::spinoff_prover]
    pub fn write(&self, w: &mut Serializer, version: i32)
        requires
            old(w).wf(),
        ensures
            final(w).wf(),
            final(w).scope_stack@ == old(w).scope_stack@,
            final(w).out@ == old(w).out@ + enc_animated(*self, version),
    {
        let ghost base = w.out@;
        let ghost mut acc = Seq::<u8>::empty();
        proof {
            assert(w.out@ =~= base + acc);
        }
        w.put_i32_field(self.motion.to_i32());
        proof {
            let e = enc_i32_field(spec_animated_motion_type_i32(self.motion));
            crate::wire::lemma_grow(base, acc, e);
            acc = acc + e;
            assert(w.out@ =~= base + acc);
        }
        if version >= 1 {
            w.put_bool(self.scale);
        }
        proof {
            let e = if version >= 1 { enc_bool(self.scale) } else { Seq::<u8>::empty() };
            crate::wire::lemma_grow(base, acc, e);
            acc = acc + e;
            assert(w.out@ =~= base + acc);
        }
        if version >= 1 {
            w.put_vector3(&self.scale_exponent);
        }
        proof {
            let e = if version >= 1 { enc_vector3(self.scale_exponent) } else { Seq::<u8>::empty() };
            crate::wire::lemma_grow(base, acc, e);
            acc = acc + e;
            assert(w.out@ =~= base + acc);
        }
        w.put_bool(self.rotate);
        proof {
            let e = enc_bool(self.rotate);
            crate::wire::lemma_grow(base, acc, e);
            acc = acc + e;
            assert(w.out@ =~= base + acc);
        }
        w.put_vector3(&self.rotate_axis);
        proof {
            let e = enc_vector3(self.rotate_axis);
            crate::wire::lemma_grow(base, acc, e);
            acc = acc + e;
            assert(w.out@ =~= base + acc);
        }
        if version < 4 {
            w.put_vector3(&self.center_point);
        }
        proof {
            let e = if version < 4 { enc_vector3(self.center_point) } else { Seq::<u8>::empty() };
            crate::wire::lemma_grow(base, acc, e);
            acc = acc + e;
            assert(w.out@ =~= base + acc);
        }
        if version < 4 {
            w.put_f32_field(self.rotate_magnitude);
        }
        proof {
            let e = if version < 4 { enc_f32_field(self.rotate_magnitude) } else { Seq::<u8>::empty() };
            crate::wire::lemma_grow(base, acc, e);
            acc = acc + e;
            assert(w.out@ =~= base + acc);
        }
        if version < 4 {
            w.put_bool(false);
        }
        proof {
            let e = if version < 4 { enc_bool(false) } else { Seq::<u8>::empty() };
            crate::wire::lemma_grow(base, acc, e);
            acc = acc + e;
            assert(w.out@ =~= base + acc);
        }
        if version < 4 {
            w.put_vector3(&self.translate_vector);
        }
        proof {
            let e = if version < 4 { enc_vector3(self.translate_vector) } else { Seq::<u8>::empty() };
            crate::wire::lemma_grow(base, acc, e);
            acc = acc + e;
            assert(w.out@ =~= base + acc);
        }
        if version < 4 && version >= 2 {
            w.put_bool(false);
        }
        proof {
            let e = if version < 4 && version >= 2 { enc_bool(false) } else { Seq::<u8>::empty() };
            crate::wire::lemma_grow(base, acc, e);
            acc = acc + e;
            assert(w.out@ =~= base + acc);
        }
        if version < 4 && version >= 2 {
            w.put_f32_field(self.follow_distance);
        }
        proof {
            let e = if version < 4 && version >= 2 { enc_f32_field(self.follow_distance) } else { Seq::<u8>::empty() };
            crate::wire::lemma_grow(base, acc, e);
            acc = acc + e;
            assert(w.out@ =~= base + acc);
        }
        if version < 4 {
        }
        proof {
            let e = if version < 4 { Seq::<u8>::empty() } else { Seq::<u8>::empty() };
            crate::wire::lemma_grow(base, acc, e);
            acc = acc + e;
            assert(w.out@ =~= base + acc);
        }
        if version >= 5 {
            w.put_bool(self.rotate_global);
        }
        proof {
            let e = if version >= 5 { enc_bool(self.rotate_global) } else { Seq::<u8>::empty() };
            crate::wire::lemma_grow(base, acc, e);
            acc = acc + e;
            assert(w.out@ =~= base + acc);
        }
        if version >= 4 {
            w.put_f32_field(self.rotate_magnitude);
        }
        proof {
            let e = if version >= 4 { enc_f32_field(self.rotate_magnitude) } else { Seq::<u8>::empty() };
            crate::wire::lemma_grow(base, acc, e);
            acc = acc + e;
            assert(w.out@ =~= base + acc);
        }
        if version >= 4 {
            w.put_vector3(&self.center_point);
        }
        proof {
            let e = if version >= 4 { enc_vector3(self.center_point) } else { Seq::<u8>::empty() };
            crate::wire::lemma_grow(base, acc, e);
            acc = acc + e;
            assert(w.out@ =~= base + acc);
        }
        if version >= 4 {
            w.put_i32_field(self.translate_type.to_i32());
        }
        proof {
            let e = if version >= 4 { enc_i32_field(spec_animated_translate_type_i32(self.translate_type)) } else { Seq::<u8>::empty() };
            crate::wire::lemma_grow(base, acc, e);
            acc = acc + e;
            assert(w.out@ =~= base + acc);
        }
        if version >= 4 {
            w.put_vector3(&self.translate_vector);
        }
        proof {
            let e = if version >= 4 { enc_vector3(self.translate_vector) } else { Seq::<u8>::empty() };
            crate::wire::lemma_grow(base, acc, e);
            acc = acc + e;
            assert(w.out@ =~= base + acc);
        }
        if version >= 4 {
            w.put_f32_field(self.follow_distance);
        }
        proof {
            let e = if version >= 4 { enc_f32_field(self.follow_distance) } else { Seq::<u8>::empty() };
            crate::wire::lemma_grow(base, acc, e);
            acc = acc + e;
            assert(w.out@ =~= base + acc);
        }
        if version >= 11 {
            w.put_f32_field(self.double_pivot_distance);
        }
        proof {
            let e = if version >= 11 { enc_f32_field(self.double_pivot_distance) } else { Seq::<u8>::empty() };
            crate::wire::lemma_grow(base, acc, e);
            acc = acc + e;
            assert(w.out@ =~= base + acc);
        }
        if version >= 9 {
            w.put_bool(self.follow_percent_of_track);
        }
        proof {
            let e = if version >= 9 { enc_bool(self.follow_percent_of_track) } else { Seq::<u8>::empty() };
            crate::wire::lemma_grow(base, acc, e);
            acc = acc + e;
            assert(w.out@ =~= base + acc);
        }
        if version >= 10 {
            w.put_bool(self.wrap_around);
        }
        proof {
            let e = if version >= 10 { enc_bool(self.wrap_around) } else { Seq::<u8>::empty() };
            crate::wire::lemma_grow(base, acc, e);
            acc = acc + e;
            assert(w.out@ =~= base + acc);
        }
        if version == 4 {
            w.put_vector3(&self.projectile_velocity);
        }
        proof {
            let e = if version == 4 { enc_vector3(self.projectile_velocity) } else { Seq::<u8>::empty() };
            crate::wire::lemma_grow(base, acc, e);
            acc = acc + e;
            assert(w.out@ =~= base + acc);
        }
        if version >= 4 {
            w.put_vector3(&self.projectile_gravity);
        }
        proof {
            let e = if version >= 4 { enc_vector3(self.projectile_gravity) } else { Seq::<u8>::empty() };
            crate::wire::lemma_grow(base, acc, e);
            acc = acc + e;
            assert(w.out@ =~= base + acc);
        }
        if version >= 8 {
            self.base.write_curve(w);
        }
        proof {
            let e = if version >= 8 { enc_animator_curve(self.base) } else { Seq::<u8>::empty() };
            crate::wire::lemma_grow(base, acc, e);
            acc = acc + e;
            assert(w.out@ =~= base + acc);
        }
        if version < 8 {
            self.base.write_curve_old(w, version < 6);
        }
        proof {
            let e = if version < 8 { enc_animator_curve_old(self.base, version < 6) } else { Seq::<u8>::empty() };
            crate::wire::lemma_grow(base, acc, e);
            acc = acc + e;
            assert(w.out@ =~= base + acc);
        }
        if version >= 7 {
            w.put_bool(self.animate_physics);
        }
        proof {
            let e = if version >= 7 { enc_bool(self.animate_physics) } else { Seq::<u8>::empty() };
            crate::wire::lemma_grow(base, acc, e);
            acc = acc + e;
            assert(w.out@ =~= base + acc);
        }
        if version >= 7 {
            w.put_bool(self.always_animate);
        }
        proof {
            let e = if version >= 7 { enc_bool(self.always_animate) } else { Seq::<u8>::empty() };
            crate::wire::lemma_grow(base, acc, e);
            acc = acc + e;
            assert(w.out@ =~= base + acc);
        }
        if version >= 3 {
            self.base.write_trigger(w);
        }
        proof {
            let e = if version >= 3 { enc_animator_trigger(self.base) } else { Seq::<u8>::empty() };
            crate::wire::lemma_grow(base, acc, e);
            acc = acc + e;
            assert(w.out@ =~= base + acc);
        }
        proof {
            assert(acc == enc_animated(*self, version));
        }
    }
    /// Read the legacy head block, starting from the defaults.
    #[verifier::rlimit(100)]
    #[verifier::spinoff_prover]
    fn read_head(d: &mut Deserializer, version: i32) -> (r: Result<Animated, DecodeError>)
        ensures
            old(d).keeps(*final(d)),
            match parse_animated_head(
                old(d).data@,
                old(d).has_scope(),
                old(d).top_end(),
                old(d).pos as int,
                version,
                spec_animated_default(),
            ) {
                Ok((a, p)) => r matches Ok(a2) && a2 == a && final(d).pos == p,
                Err(e) => r matches Err(e2) && e2 == e,
            },
    {
        let ghost hs = old(d).has_scope();
        let ghost te = old(d).top_end();
        let mut x = Animated::default();
        let n = d.get_i32(x.motion.to_i32())?;
        x.motion = match AnimatedMotionType::from_i32(n) {
            Some(v) => v,
            Option::None => {
                return Err(DecodeError::UnknownEnumValue);
            },
        };
        if version >= 1 {
            x.scale = d.get_bool(x.scale)?;
        }
        if version >= 1 {
            x.scale_exponent = d.get_vector3(x.scale_exponent)?;
        }
        x.rotate = d.get_bool(x.rotate)?;
        x.rotate_axis = d.get_vector3(x.rotate_axis)?;
        if version < 4 {
            x.center_point = d.get_vector3(x.center_point)?;
        }
        if version < 4 {
            x.rotate_magnitude = d.get_f32(x.rotate_magnitude)?;
        }
        if version < 4 {
            let tr = d.get_bool(false)?;
            x.translate_type = if tr {
                AnimatedTranslateType::Local
            } else {
                AnimatedTranslateType::NoneValue
            };
        }
        if version < 4 {
            x.translate_vector = d.get_vector3(x.translate_vector)?;
        }
        if version < 4 && version >= 2 {
            let mv = d.get_bool(false)?;
            if mv {
                x.translate_type = AnimatedTranslateType::FollowTrack;
            }
        }
        if version < 4 && version >= 2 {
            x.follow_distance = d.get_f32(x.follow_distance)?;
        }
        if version < 4 {
            x.follow_percent_of_track = false;
        }
        proof {
            assert(parse_animated_head(
                old(d).data@,
                hs,
                te,
                old(d).pos as int,
                version,
                spec_animated_default(),
            ) == Ok::<(Animated, int), DecodeError>((x, d.pos as int)));
        }
        Ok(x)
    }

    /// Read the modern block over the value the head produced.
    fn read_modern(d: &mut Deserializer, version: i32, x0: Animated) -> (r: Result<
        Animated,
        DecodeError,
    >)
        ensures
            old(d).keeps(*final(d)),
    {
        let mut x = x0;
        if version >= 5 {
            x.rotate_global = d.get_bool(x.rotate_global)?;
        }
        if version >= 4 {
            x.rotate_magnitude = d.get_f32(x.rotate_magnitude)?;
        }
        if version >= 4 {
            x.center_point = d.get_vector3(x.center_point)?;
        }
        if version >= 4 {
            let n = d.get_i32(x.translate_type.to_i32())?;
            x.translate_type = match AnimatedTranslateType::from_i32(n) {
                Some(v) => v,
                Option::None => {
                    return Err(DecodeError::UnknownEnumValue);
                },
            };
        }
        if version >= 4 {
            x.translate_vector = d.get_vector3(x.translate_vector)?;
        }
        if version >= 4 {
            x.follow_distance = d.get_f32(x.follow_distance)?;
        }
        if version >= 11 {
            x.double_pivot_distance = d.get_f32(x.double_pivot_distance)?;
        }
        if version >= 9 {
            x.follow_percent_of_track = d.get_bool(x.follow_percent_of_track)?;
        } else {
            if version >= 4 {
                x.follow_percent_of_track = false;
            }
        }
        if version >= 10 {
            x.wrap_around = d.get_bool(x.wrap_around)?;
        }
        if version == 4 {
            x.projectile_velocity = d.get_vector3(x.projectile_velocity)?;
        }
        if version >= 4 {
            x.projectile_gravity = d.get_vector3(x.projectile_gravity)?;
        }
        Ok(x)
    }

    pub fn read(d: &mut Deserializer, version: i32) -> (r: Result<Animated, DecodeError>)
        ensures
            old(d).keeps(*final(d)),
    {
        let mut x = Animated::read_head(d, version)?;
        x = Animated::read_modern(d, version, x)?;
        let mut apply_ping_pong = false;
        if version >= 8 {
            x.base = AnimatorBase::read_curve(x.base, d)?;
        }
        if version < 8 {
            let (nb, ap) = AnimatorBase::read_curve_old(x.base, d, version < 6)?;
            x.base = nb;
            apply_ping_pong = ap;
        }
        if version >= 7 {
            x.animate_physics = d.get_bool(x.animate_physics)?;
        }
        if version >= 7 {
            x.always_animate = d.get_bool(x.always_animate)?;
        }
        if version >= 3 {
            x.base = AnimatorBase::read_trigger(x.base, d)?;
        }
        if version < 8 {
            x.base = upgrade_to_new_ping_pong(x.base, apply_ping_pong);
        }
        Ok(x)
    }
}

} // verus!
