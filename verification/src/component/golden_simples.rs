//! The golden-simples schema: an editor building block whose texture
//! indices were renumbered as the texture set grew. On read at an old
//! version, an index at or past that version's texture count is shifted up
//! by the number of textures added since.

use crate::enums::{
    spec_golden_simples_presets_from_i32, spec_golden_simples_presets_i32, GoldenSimplesPresets,
};
use crate::error::{DecodeError, EncodeError};
use crate::floatbits::{
    spec_ones_vector3, spec_zeros_vector3, Vector3, F32_ONE,
};
use crate::reader::Deserializer;
use crate::wire::{enc_bool, enc_f32_field, enc_i32_field, enc_vector3};
use crate::writer::Serializer;
use vstd::prelude::*;

verus! {

/// Textures in the current set.
pub const TEXTURE_COUNT: i32 = 72;

/// Textures in the set at on-wire version 1.
pub const TEXTURE_COUNT_VERSION_1: i32 = 35;

/// Textures in the set at on-wire version 2.
pub const TEXTURE_COUNT_VERSION_2: i32 = 46;

/// Textures in the set at on-wire version 3.
pub const TEXTURE_COUNT_VERSION_3: i32 = 55;

/// Wrap an integer into `i32` range, as two's-complement addition does.
pub open spec fn i32_wrap(x: int) -> i32 {
    (((x + 0x8000_0000) % 0x1_0000_0000) - 0x8000_0000) as i32
}

/// The texture count the set had at an on-wire version; zero (no remap)
/// at versions that used the current numbering.
pub open spec fn spec_texture_count_at(version: i32) -> i32 {
    if version == 1 {
        TEXTURE_COUNT_VERSION_1
    } else if version == 2 {
        TEXTURE_COUNT_VERSION_2
    } else if version == 3 {
        TEXTURE_COUNT_VERSION_3
    } else {
        0
    }
}

/// The remap a read image index goes through: at versions 1 to 3, an index
/// at or past that version's texture count moves up by the textures added
/// since, wrapping as the engine's 32-bit addition would.
pub open spec fn spec_remap_image_index(idx: i32, version: i32) -> i32 {
    let t = spec_texture_count_at(version);
    if t > 0 && idx >= t {
        i32_wrap(idx + TEXTURE_COUNT - t)
    } else {
        idx
    }
}

/// Apply the texture-index remap for a wire version.
pub fn remap_image_index(idx: i32, version: i32) -> (r: i32)
    ensures
        r == spec_remap_image_index(idx, version),
{
    let t: i32 = if version == 1 {
        TEXTURE_COUNT_VERSION_1
    } else if version == 2 {
        TEXTURE_COUNT_VERSION_2
    } else if version == 3 {
        TEXTURE_COUNT_VERSION_3
    } else {
        0
    };
    if t > 0 && idx >= t {
        let s: i64 = (idx as i64) + ((TEXTURE_COUNT - t) as i64);
        let wrapped: i32 = if s > i32::MAX as i64 {
            ((s - 0x1_0000_0000i64) as i32)
        } else {
            (s as i32)
        };
        proof {
            let x = idx + TEXTURE_COUNT - t;
            assert(wrapped == i32_wrap(x)) by (nonlinear_arith)
                requires
                    0 < x < 0x8000_0000 + 37,
                    wrapped == if x > 0x7FFF_FFFF {
                        x - 0x1_0000_0000
                    } else {
                        x
                    },
            ;
        }
        wrapped
    } else {
        idx
    }
}

/// What the first slots of a golden-simples record hold on read: the
/// image index with its version remap applied, and the emit index, which
/// before version 1 mirrors the raw image index.
pub open spec fn parse_golden_prefix(
    data: Seq<u8>,
    has_scope: bool,
    top_end: int,
    pos: int,
    version: i32,
) -> Result<((i32, i32), int), DecodeError> {
    match crate::reader::get_i32_spec(data, has_scope, top_end, pos, 0) {
        Err(e) => Err(e),
        Ok((idx, p1)) => {
            if version < 1 {
                Ok(((idx, idx), p1))
            } else {
                match crate::reader::get_i32_spec(data, has_scope, top_end, p1, 0) {
                    Err(e) => Err(e),
                    Ok((emit, p2)) => Ok(((spec_remap_image_index(idx, version), emit), p2)),
                }
            }
        },
    }
}

/// What a whole golden-simples read holds at `version`: the remapped
/// prefix, then each field in schema order under that version's gates,
/// with an unrecognized preset integer fatal.
pub open spec fn parse_golden_simples(
    data: Seq<u8>,
    has_scope: bool,
    top_end: int,
    pos: int,
    version: i32,
) -> Result<(GoldenSimples, int), DecodeError> {
    match parse_golden_prefix(data, has_scope, top_end, pos, version) {
        Err(e) => Err(e),
        Ok((ix, p2)) => match (if version >= 1 {
            match crate::reader::get_i32_spec(
                data,
                has_scope,
                top_end,
                p2,
                spec_golden_simples_presets_i32(GoldenSimplesPresets::Custom),
            ) {
                Err(e) => Err(e),
                Ok((n, p3)) => match spec_golden_simples_presets_from_i32(n as int) {
                    Some(pr) => Ok((pr, p3)),
                    Option::None => Err(DecodeError::UnknownEnumValue),
                },
            }
        } else {
            Ok((GoldenSimplesPresets::Custom, p2))
        }) {
            Err(e) => Err(e),
            Ok((preset, p4)) => match crate::reader::get_vector3_spec(
                data,
                has_scope,
                top_end,
                p4,
                spec_ones_vector3(),
            ) {
                Err(e) => Err(e),
                Ok((tscale, p5)) => match crate::reader::get_vector3_spec(
                    data,
                    has_scope,
                    top_end,
                    p5,
                    spec_zeros_vector3(),
                ) {
                    Err(e) => Err(e),
                    Ok((toff, p6)) => match crate::reader::get_bool_spec(
                        data,
                        has_scope,
                        top_end,
                        p6,
                        false,
                    ) {
                        Err(e) => Err(e),
                        Ok((flip, p7)) => match crate::reader::get_bool_spec(
                            data,
                            has_scope,
                            top_end,
                            p7,
                            false,
                        ) {
                            Err(e) => Err(e),
                            Ok((world, p8)) => match crate::reader::get_bool_spec(
                                data,
                                has_scope,
                                top_end,
                                p8,
                                false,
                            ) {
                                Err(e) => Err(e),
                                Ok((ddiff, p9)) => match crate::reader::get_bool_spec(
                                    data,
                                    has_scope,
                                    top_end,
                                    p9,
                                    false,
                                ) {
                                    Err(e) => Err(e),
                                    Ok((dbump, p10)) => match (if version >= 3 {
                                        crate::reader::get_u32_spec(
                                            data,
                                            has_scope,
                                            top_end,
                                            p10,
                                            F32_ONE,
                                        )
                                    } else {
                                        Ok((F32_ONE, p10))
                                    }) {
                                        Err(e) => Err(e),
                                        Ok((bstr, p11)) => match crate::reader::get_bool_spec(
                                            data,
                                            has_scope,
                                            top_end,
                                            p11,
                                            true,
                                        ) {
                                            Err(e) => Err(e),
                                            Ok((drefl, p12)) => match (if version >= 1 {
                                                match crate::reader::get_bool_spec(
                                                    data,
                                                    has_scope,
                                                    top_end,
                                                    p12,
                                                    false,
                                                ) {
                                                    Err(e) => Err(e),
                                                    Ok((dcol, p13)) => match crate::reader::get_bool_spec(
                                                        data,
                                                        has_scope,
                                                        top_end,
                                                        p13,
                                                        false,
                                                    ) {
                                                        Err(e) => Err(e),
                                                        Ok((addt, p14)) => Ok(((dcol, addt), p14)),
                                                    },
                                                }
                                            } else {
                                                Ok(((false, false), p12))
                                            }) {
                                                Err(e) => Err(e),
                                                Ok((ca, p15)) => match (if version >= 2 {
                                                    match crate::reader::get_bool_spec(
                                                        data,
                                                        has_scope,
                                                        top_end,
                                                        p15,
                                                        false,
                                                    ) {
                                                        Err(e) => Err(e),
                                                        Ok((mt, p16)) => match crate::reader::get_bool_spec(
                                                            data,
                                                            has_scope,
                                                            top_end,
                                                            p16,
                                                            false,
                                                        ) {
                                                            Err(e) => Err(e),
                                                            Ok((ie, p17)) => Ok(((mt, ie), p17)),
                                                        },
                                                    }
                                                } else {
                                                    Ok(((false, false), p15))
                                                }) {
                                                    Err(e) => Err(e),
                                                    Ok((mi, p18)) => Ok(
                                                        (
                                                            GoldenSimples {
                                                                image_index: ix.0,
                                                                emit_index: ix.1,
                                                                preset,
                                                                texture_scale: tscale,
                                                                texture_offset: toff,
                                                                flip_texture_uv: flip,
                                                                world_mapped: world,
                                                                disable_diffuse: ddiff,
                                                                disable_bump: dbump,
                                                                bump_strength: bstr,
                                                                disable_reflect: drefl,
                                                                disable_collision: ca.0,
                                                                additive_transparency: ca.1,
                                                                multiplicative_transparency: mi.0,
                                                                invert_emit: mi.1,
                                                            },
                                                            p18,
                                                        ),
                                                    ),
                                                },
                                            },
                                        },
                                    },
                                },
                            },
                        },
                    },
                },
            },
        },
    }
}

/// A golden-simples building block.
#[derive(Debug, Clone, Copy, PartialEq, Eq, Structural)]
pub struct GoldenSimples {
    pub image_index: i32,
    pub emit_index: i32,
    pub preset: GoldenSimplesPresets,
    pub texture_scale: Vector3,
    pub texture_offset: Vector3,
    pub flip_texture_uv: bool,
    pub world_mapped: bool,
    pub disable_diffuse: bool,
    pub disable_bump: bool,
    /// Bump strength, as f32 bits.
    pub bump_strength: u32,
    pub disable_reflect: bool,
    pub disable_collision: bool,
    pub additive_transparency: bool,
    pub multiplicative_transparency: bool,
    pub invert_emit: bool,
}

impl Default for GoldenSimples {
    fn default() -> (r: Self)
        ensures
            r == spec_golden_simples_default(),
    {
        GoldenSimples {
            image_index: 0,
            emit_index: 0,
            preset: GoldenSimplesPresets::Custom,
            texture_scale: crate::floatbits::ones_vector3(),
            texture_offset: crate::floatbits::zeros_vector3(),
            flip_texture_uv: false,
            world_mapped: false,
            disable_diffuse: false,
            disable_bump: false,
            bump_strength: F32_ONE,
            disable_reflect: true,
            disable_collision: false,
            additive_transparency: false,
            multiplicative_transparency: false,
            invert_emit: false,
        }
    }
}

pub open spec fn spec_golden_simples_default() -> GoldenSimples {
    GoldenSimples {
        image_index: 0,
        emit_index: 0,
        preset: GoldenSimplesPresets::Custom,
        texture_scale: spec_ones_vector3(),
        texture_offset: spec_zeros_vector3(),
        flip_texture_uv: false,
        world_mapped: false,
        disable_diffuse: false,
        disable_bump: false,
        bump_strength: F32_ONE,
        disable_reflect: true,
        disable_collision: false,
        additive_transparency: false,
        multiplicative_transparency: false,
        invert_emit: false,
    }
}

/// Wire bytes of a golden-simples record at `version`, field for field in
/// schema order with that version's gates.
pub open spec fn enc_golden_simples(g: GoldenSimples, version: i32) -> Seq<u8> {
    enc_i32_field(g.image_index) + (if version >= 1 {
        enc_i32_field(g.emit_index)
    } else {
        Seq::empty()
    }) + (if version >= 1 {
        enc_i32_field(spec_golden_simples_presets_i32(g.preset))
    } else {
        Seq::empty()
    }) + enc_vector3(g.texture_scale) + enc_vector3(g.texture_offset) + enc_bool(g.flip_texture_uv)
        + enc_bool(g.world_mapped) + enc_bool(g.disable_diffuse) + enc_bool(g.disable_bump) + (
    if version >= 3 {
        enc_f32_field(g.bump_strength)
    } else {
        Seq::empty()
    }) + enc_bool(g.disable_reflect) + (if version >= 1 {
        enc_bool(g.disable_collision) + enc_bool(g.additive_transparency)
    } else {
        Seq::empty()
    }) + (if version >= 2 {
        enc_bool(g.multiplicative_transparency) + enc_bool(g.invert_emit)
    } else {
        Seq::empty()
    })
}

impl GoldenSimples {
    /// Current schema version.
    pub fn version() -> (v: i32)
        ensures
            v == 4,
    {
        4
    }

    #[verifier::rlimit(100)]
    #[verifier::spinoff_prover]
    pub fn write(&self, w: &mut Serializer, version: i32)
        requires
            old(w).wf(),
        ensures
            final(w).wf(),
            final(w).scope_stack@ == old(w).scope_stack@,
            final(w).out@ == old(w).out@ + enc_golden_simples(*self, version),
    {
        let ghost base = w.out@;
        w.put_i32_field(self.image_index);
        let ghost mut acc = enc_i32_field(self.image_index);
        proof {
            assert(w.out@ == base + acc);
        }
        if version >= 1 {
            w.put_i32_field(self.emit_index);
        }
        proof {
            let e = if version >= 1 {
                enc_i32_field(self.emit_index)
            } else {
                Seq::<u8>::empty()
            };
            crate::wire::lemma_grow(base, acc, e);
            acc = acc + e;
            assert(w.out@ == base + acc);
        }
        if version >= 1 {
            w.put_i32_field(self.preset.to_i32());
        }
        proof {
            let e = if version >= 1 {
                enc_i32_field(spec_golden_simples_presets_i32(self.preset))
            } else {
                Seq::<u8>::empty()
            };
            crate::wire::lemma_grow(base, acc, e);
            acc = acc + e;
            assert(w.out@ == base + acc);
        }
        w.put_vector3(&self.texture_scale);
        proof {
            crate::wire::lemma_grow(base, acc, enc_vector3(self.texture_scale));
            acc = acc + enc_vector3(self.texture_scale);
            assert(w.out@ == base + acc);
        }
        w.put_vector3(&self.texture_offset);
        proof {
            crate::wire::lemma_grow(base, acc, enc_vector3(self.texture_offset));
            acc = acc + enc_vector3(self.texture_offset);
            assert(w.out@ == base + acc);
        }
        w.put_bool(self.flip_texture_uv);
        proof {
            crate::wire::lemma_grow(base, acc, enc_bool(self.flip_texture_uv));
            acc = acc + enc_bool(self.flip_texture_uv);
            assert(w.out@ == base + acc);
        }
        w.put_bool(self.world_mapped);
        proof {
            crate::wire::lemma_grow(base, acc, enc_bool(self.world_mapped));
            acc = acc + enc_bool(self.world_mapped);
            assert(w.out@ == base + acc);
        }
        w.put_bool(self.disable_diffuse);
        proof {
            crate::wire::lemma_grow(base, acc, enc_bool(self.disable_diffuse));
            acc = acc + enc_bool(self.disable_diffuse);
            assert(w.out@ == base + acc);
        }
        w.put_bool(self.disable_bump);
        proof {
            crate::wire::lemma_grow(base, acc, enc_bool(self.disable_bump));
            acc = acc + enc_bool(self.disable_bump);
            assert(w.out@ == base + acc);
        }
        if version >= 3 {
            w.put_f32_field(self.bump_strength);
        }
        proof {
            let e = if version >= 3 {
                enc_f32_field(self.bump_strength)
            } else {
                Seq::<u8>::empty()
            };
            crate::wire::lemma_grow(base, acc, e);
            acc = acc + e;
            assert(w.out@ == base + acc);
        }
        w.put_bool(self.disable_reflect);
        proof {
            crate::wire::lemma_grow(base, acc, enc_bool(self.disable_reflect));
            acc = acc + enc_bool(self.disable_reflect);
            assert(w.out@ == base + acc);
        }
        if version >= 1 {
            w.put_bool(self.disable_collision);
            w.put_bool(self.additive_transparency);
        }
        proof {
            let e = if version >= 1 {
                enc_bool(self.disable_collision) + enc_bool(self.additive_transparency)
            } else {
                Seq::<u8>::empty()
            };
            if version >= 1 {
                crate::wire::lemma_grow(
                    base + acc,
                    enc_bool(self.disable_collision),
                    enc_bool(self.additive_transparency),
                );
            }
            crate::wire::lemma_grow(base, acc, e);
            acc = acc + e;
            assert(w.out@ == base + acc);
        }
        if version >= 2 {
            w.put_bool(self.multiplicative_transparency);
            w.put_bool(self.invert_emit);
        }
        proof {
            let e = if version >= 2 {
                enc_bool(self.multiplicative_transparency) + enc_bool(self.invert_emit)
            } else {
                Seq::<u8>::empty()
            };
            if version >= 2 {
                crate::wire::lemma_grow(
                    base + acc,
                    enc_bool(self.multiplicative_transparency),
                    enc_bool(self.invert_emit),
                );
            }
            crate::wire::lemma_grow(base, acc, e);
            acc = acc + e;
            assert(w.out@ == base + acc);
            assert(acc == enc_golden_simples(*self, version));
        }
    }

    #[verifier::rlimit(100)]
    #[verifier::spinoff_prover]
    pub fn read(d: &mut Deserializer, version: i32) -> (r: Result<GoldenSimples, DecodeError>)
        ensures
            old(d).keeps(*final(d)),
            match parse_golden_simples(
                old(d).data@,
                old(d).has_scope(),
                old(d).top_end(),
                old(d).pos as int,
                version,
            ) {
                Ok((g2, p)) => r matches Ok(g) && g == g2 && final(d).pos == p,
                Err(e) => r matches Err(e2) && e2 == e,
            },
    {
        let mut g = GoldenSimples::default();
        g.image_index = d.get_i32(g.image_index)?;
        if version < 1 {
            g.emit_index = g.image_index;
        } else {
            g.emit_index = d.get_i32(g.emit_index)?;
            g.image_index = remap_image_index(g.image_index, version);
        }
        proof {
            assert(parse_golden_prefix(
                old(d).data@,
                old(d).has_scope(),
                old(d).top_end(),
                old(d).pos as int,
                version,
            ) == Ok::<((i32, i32), int), DecodeError>(
                ((g.image_index, g.emit_index), d.pos as int),
            ));
        }
        if version >= 1 {
            let n = d.get_i32(g.preset.to_i32())?;
            g.preset = match GoldenSimplesPresets::from_i32(n) {
                Some(p) => p,
                Option::None => {
                    return Err(DecodeError::UnknownEnumValue);
                },
            };
        } else {
            g.preset = GoldenSimplesPresets::Custom;
        }
        g.texture_scale = d.get_vector3(g.texture_scale)?;
        g.texture_offset = d.get_vector3(g.texture_offset)?;
        g.flip_texture_uv = d.get_bool(g.flip_texture_uv)?;
        g.world_mapped = d.get_bool(g.world_mapped)?;
        g.disable_diffuse = d.get_bool(g.disable_diffuse)?;
        g.disable_bump = d.get_bool(g.disable_bump)?;
        if version >= 3 {
            g.bump_strength = d.get_f32(g.bump_strength)?;
        }
        g.disable_reflect = d.get_bool(g.disable_reflect)?;
        if version >= 1 {
            g.disable_collision = d.get_bool(g.disable_collision)?;
            g.additive_transparency = d.get_bool(g.additive_transparency)?;
        }
        if version >= 2 {
            g.multiplicative_transparency = d.get_bool(g.multiplicative_transparency)?;
            g.invert_emit = d.get_bool(g.invert_emit)?;
        }
        proof {
            assert(parse_golden_simples(
                old(d).data@,
                old(d).has_scope(),
                old(d).top_end(),
                old(d).pos as int,
                version,
            ) == Ok::<(GoldenSimples, int), DecodeError>((g, d.pos as int)));
        }
        Ok(g)
    }
}

/// The concrete renumberings the rule fixes: an index at a version's
/// texture count lands on the current count's first added slot.
pub proof fn lemma_remap_examples()
    ensures
        spec_remap_image_index(46, 2) == 72,
        spec_remap_image_index(35, 1) == 72,
        spec_remap_image_index(55, 3) == 72,
        spec_remap_image_index(34, 1) == 34,
        spec_remap_image_index(10, 4) == 10,
{
}

} // verus!
