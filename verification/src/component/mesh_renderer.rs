//! The mesh-renderer schema: material names and color overrides. Before
//! version 1 it carried lightmap and shadow fields that are now constants.

use crate::error::{DecodeError, EncodeError};
use crate::floatbits::{zeros_vector3, spec_zeros_vector3, Color, F32_ONE};
use crate::reader::Deserializer;
use crate::widestr::{opt_str_encodable, opt_units, WideStr};
use crate::wire::{
    enc_array_header, enc_bool, enc_color, enc_each, enc_i32_field, enc_string_field,
    enc_vector3, lemma_enc_each_take_snoc,
};
use crate::writer::Serializer;
use vstd::prelude::*;

verus! {

/// A named color override within a material.
#[derive(Debug, Clone, PartialEq, Eq, Hash)]
pub struct MaterialColorInfo {
    pub name: Option<WideStr>,
    pub color: Color,
}

impl Default for MaterialColorInfo {
    fn default() -> (r: Self)
        ensures
            r.name is None,
            r.color == (Color { r: F32_ONE, g: F32_ONE, b: F32_ONE, a: F32_ONE }),
    {
        MaterialColorInfo {
            name: Option::None,
            color: Color { r: F32_ONE, g: F32_ONE, b: F32_ONE, a: F32_ONE },
        }
    }
}

/// Wire bytes of a color override: its name, then the color.
pub open spec fn enc_material_color_info(m: MaterialColorInfo) -> Seq<u8> {
    enc_string_field(opt_units(m.name)) + enc_color(m.color)
}

impl MaterialColorInfo {
    pub open spec fn encodable(self) -> bool {
        opt_str_encodable(self.name)
    }

    pub fn write(&self, w: &mut Serializer) -> (r: Result<(), EncodeError>)
        requires
            old(w).wf(),
        ensures
            final(w).wf(),
            final(w).scope_stack@ == old(w).scope_stack@,
            r is Ok <==> self.encodable(),
            r is Ok ==> final(w).out@ == old(w).out@ + enc_material_color_info(*self),
    {
        w.put_string_field(&self.name)?;
        w.put_color(&self.color);
        Ok(())
    }

    /// On read, the color starts from opaque white before the channels
    /// arrive, whatever it held before.
    pub fn read(d: &mut Deserializer) -> (r: Result<MaterialColorInfo, DecodeError>)
        ensures
            old(d).keeps(*final(d)),
    {
        let mut x = MaterialColorInfo::default();
        x.name = d.get_string_field(x.name)?;
        x.color = Color { r: F32_ONE, g: F32_ONE, b: F32_ONE, a: F32_ONE };
        x.color = d.get_color(x.color)?;
        Ok(x)
    }
}

/// One material: its name and its color overrides.
#[derive(Debug, Clone, PartialEq, Eq, Hash)]
pub struct MaterialInfo {
    pub mat_name: Option<WideStr>,
    pub colors: Vec<MaterialColorInfo>,
}

impl Default for MaterialInfo {
    fn default() -> (r: Self)
        ensures
            r.mat_name is None,
            r.colors@ =~= Seq::<MaterialColorInfo>::empty(),
    {
        MaterialInfo { mat_name: Option::None, colors: Vec::new() }
    }
}

/// Wire bytes of a material: its name, then the override array.
pub open spec fn enc_material_info(m: MaterialInfo) -> Seq<u8> {
    enc_string_field(opt_units(m.mat_name)) + enc_array_header(m.colors@.len() as i32) + enc_each(
        m.colors@,
        |c: MaterialColorInfo| enc_material_color_info(c),
    )
}

/// Whether a material fits the wire.
pub open spec fn material_info_encodable(m: MaterialInfo) -> bool {
    opt_str_encodable(m.mat_name) && m.colors@.len() <= i32::MAX && forall|i: int|
        0 <= i < m.colors@.len() ==> (#[trigger] m.colors@[i]).encodable()
}

impl MaterialInfo {
    pub fn write(&self, w: &mut Serializer) -> (r: Result<(), EncodeError>)
        requires
            old(w).wf(),
        ensures
            final(w).wf(),
            final(w).scope_stack@ == old(w).scope_stack@,
            r is Ok ==> material_info_encodable(*self) && final(w).out@ == old(w).out@
                + enc_material_info(*self),
            r is Err ==> !material_info_encodable(*self),
    {
        if self.colors.len() > i32::MAX as usize {
            return Err(EncodeError::CountTooLarge);
        }
        let n = self.colors.len();
        let mut i: usize = 0;
        while i < n
            invariant
                i <= n,
                n == self.colors@.len(),
                w.wf(),
                w.out@ == old(w).out@,
                w.scope_stack@ == old(w).scope_stack@,
                forall|j: int| 0 <= j < i ==> (#[trigger] self.colors@[j]).encodable(),
            decreases n - i,
        {
            match &self.colors[i].name {
                Option::None => {},
                Some(s) => {
                    if s.units.len() as u64 > 0x3_FFFF_FFFFu64 {
                        return Err(EncodeError::StringTooLong);
                    }
                },
            }
            i = i + 1;
        }
        w.put_string_field(&self.mat_name)?;
        let hr = w.put_array_header(n);
        proof {
            assert(hr is Ok);
        }
        let ghost base = w.out@;
        let mut i: usize = 0;
        while i < n
            invariant
                i <= n,
                n == self.colors@.len(),
                forall|j: int| 0 <= j < n ==> (#[trigger] self.colors@[j]).encodable(),
                w.wf(),
                w.scope_stack@ == old(w).scope_stack@,
                w.out@ == base + enc_each(
                    self.colors@.take(i as int),
                    |c: MaterialColorInfo| enc_material_color_info(c),
                ),
            decreases n - i,
        {
            let res = self.colors[i].write(w);
            proof {
                assert(res is Ok);
            }
            i = i + 1;
            proof {
                lemma_enc_each_take_snoc(
                    self.colors@,
                    |c: MaterialColorInfo| enc_material_color_info(c),
                    i as int,
                );
            }
        }
        proof {
            assert(self.colors@.take(n as int) =~= self.colors@);
        }
        Ok(())
    }

    pub fn read(d: &mut Deserializer) -> (r: Result<MaterialInfo, DecodeError>)
        ensures
            final(d).data == old(d).data,
            final(d).scopes@ == old(d).scopes@,
            old(d).extends(*final(d)),
    {
        let mut x = MaterialInfo::default();
        x.mat_name = d.get_string_field(x.mat_name)?;
        let len = d.read_array_start()?;
        if len > 0 {
            let n = len as usize;
            let mut i: usize = 0;
            while i < n
                invariant
                    d.data == old(d).data,
                    d.scopes@ == old(d).scopes@,
                    old(d).warnings@.is_prefix_of(d.warnings@),
                decreases n - i,
            {
                let c = MaterialColorInfo::read(d)?;
                x.colors.push(c);
                i = i + 1;
            }
        }
        Ok(x)
    }
}

/// Bytes of a material array: header, then each material.
pub open spec fn enc_material_array(s: Seq<MaterialInfo>) -> Seq<u8> {
    enc_array_header(s.len() as i32) + enc_each(s, |m: MaterialInfo| enc_material_info(m))
}

/// Whether a material array fits the wire.
pub open spec fn material_array_encodable(s: Seq<MaterialInfo>) -> bool {
    s.len() <= i32::MAX && forall|i: int|
        0 <= i < s.len() ==> material_info_encodable(#[trigger] s[i])
}

/// Write a material array.
fn put_material_array(w: &mut Serializer, mats: &Vec<MaterialInfo>) -> (r: Result<
    (),
    EncodeError,
>)
    requires
        old(w).wf(),
    ensures
        final(w).wf(),
        final(w).scope_stack@ == old(w).scope_stack@,
        r is Ok ==> material_array_encodable(mats@) && final(w).out@ == old(w).out@
            + enc_material_array(mats@),
        r is Err ==> !material_array_encodable(mats@),
{
    if mats.len() > i32::MAX as usize {
        return Err(EncodeError::CountTooLarge);
    }
    let n = mats.len();
    let mut i: usize = 0;
    while i < n
        invariant
            i <= n,
            n == mats@.len(),
            w.wf(),
            w.out@ == old(w).out@,
            w.scope_stack@ == old(w).scope_stack@,
            forall|j: int| 0 <= j < i ==> material_info_encodable(#[trigger] mats@[j]),
        decreases n - i,
    {
        if !material_info_encodable_check(&mats[i]) {
            return Err(EncodeError::StringTooLong);
        }
        i = i + 1;
    }
    let hr = w.put_array_header(n);
    proof {
        assert(hr is Ok);
    }
    let ghost base = w.out@;
    let mut i: usize = 0;
    while i < n
        invariant
            i <= n,
            n == mats@.len(),
            forall|j: int| 0 <= j < n ==> material_info_encodable(#[trigger] mats@[j]),
            w.wf(),
            w.scope_stack@ == old(w).scope_stack@,
            w.out@ == base + enc_each(mats@.take(i as int), |m: MaterialInfo| enc_material_info(m)),
        decreases n - i,
    {
        let res = mats[i].write(w);
        proof {
            assert(res is Ok);
        }
        i = i + 1;
        proof {
            lemma_enc_each_take_snoc(mats@, |m: MaterialInfo| enc_material_info(m), i as int);
        }
    }
    proof {
        assert(mats@.take(n as int) =~= mats@);
    }
    Ok(())
}

/// Whether a material fits the wire, decided at run time.
fn material_info_encodable_check(m: &MaterialInfo) -> (r: bool)
    ensures
        r == material_info_encodable(*m),
{
    match &m.mat_name {
        Option::None => {},
        Some(s) => {
            if s.units.len() as u64 > 0x3_FFFF_FFFFu64 {
                return false;
            }
        },
    }
    if m.colors.len() > i32::MAX as usize {
        return false;
    }
    let n = m.colors.len();
    let mut i: usize = 0;
    while i < n
        invariant
            i <= n,
            n == m.colors@.len(),
            forall|j: int| 0 <= j < i ==> (#[trigger] m.colors@[j]).encodable(),
        decreases n - i,
    {
        match &m.colors[i].name {
            Option::None => {},
            Some(s) => {
                if s.units.len() as u64 > 0x3_FFFF_FFFFu64 {
                    return false;
                }
            },
        }
        i = i + 1;
    }
    true
}

/// Read a material array.
fn read_material_array(d: &mut Deserializer) -> (r: Result<Vec<MaterialInfo>, DecodeError>)
    ensures
        final(d).data == old(d).data,
        final(d).scopes@ == old(d).scopes@,
        old(d).extends(*final(d)),
{
    let len = d.read_array_start()?;
    let mut mats: Vec<MaterialInfo> = Vec::new();
    if len <= 0 {
        return Ok(mats);
    }
    let n = len as usize;
    let mut i: usize = 0;
    while i < n
        invariant
            d.data == old(d).data,
            d.scopes@ == old(d).scopes@,
            old(d).warnings@.is_prefix_of(d.warnings@),
        decreases n - i,
    {
        let m = MaterialInfo::read(d)?;
        mats.push(m);
        i = i + 1;
    }
    Ok(mats)
}

/// A mesh renderer: its materials.
#[derive(Debug, Clone, PartialEq, Eq, Hash)]
pub struct MeshRenderer {
    pub material_infos: Vec<MaterialInfo>,
}

impl Default for MeshRenderer {
    fn default() -> (r: Self)
        ensures
            r.material_infos@ =~= Seq::<MaterialInfo>::empty(),
    {
        MeshRenderer { material_infos: Vec::new() }
    }
}

/// Wire bytes of a mesh renderer at `version`: before version 1 the materials sit between now-constant shadow and lightmap fields.
pub open spec fn enc_mesh_renderer(g: MeshRenderer, version: i32) -> Seq<u8> {
    (if version < 1 { enc_bool(false) } else { Seq::empty() })
        + (if version < 1 { enc_bool(false) } else { Seq::empty() })
        + (if version < 1 { enc_material_array(g.material_infos@) } else { Seq::empty() })
        + (if version < 1 { enc_i32_field(0) } else { Seq::empty() })
        + (if version < 1 { enc_vector3(spec_zeros_vector3()) } else { Seq::empty() })
        + (if version < 1 { enc_bool(false) } else { Seq::empty() })
        + (if version >= 1 { enc_material_array(g.material_infos@) } else { Seq::empty() })
}
/// Every collection and string fits its wire count at this version.
pub open spec fn mesh_renderer_encodable(g: MeshRenderer, version: i32) -> bool {
    (version < 1 ==> material_array_encodable(g.material_infos@))
    && (version >= 1 ==> material_array_encodable(g.material_infos@))
}

impl MeshRenderer {
    /// Current schema version.
    pub fn version() -> (v: i32)
        ensures
            v == 2,
    {
        2
    }

    #[verifier::rlimit(100)]
    #[verifier::spinoff_prover]
    pub fn write(&self, w: &mut Serializer, version: i32) -> (r: Result<(), EncodeError>)
        requires
            old(w).wf(),
        ensures
            final(w).wf(),
            final(w).scope_stack@ == old(w).scope_stack@,
            r is Ok <==> mesh_renderer_encodable(*self, version),
            r is Ok ==> final(w).out@ == old(w).out@ + enc_mesh_renderer(*self, version),
    {
        let ghost base = w.out@;
        let ghost mut acc = Seq::<u8>::empty();
        proof {
            assert(w.out@ =~= base + acc);
        }
        if version < 1 {
            w.put_bool(false);
        }
        proof {
            let e = if version < 1 { enc_bool(false) } else { Seq::<u8>::empty() };
            crate::wire::lemma_grow(base, acc, e);
            acc = acc + e;
            assert(w.out@ =~= base + acc);
        }
        if version < 1 {
            w.put_bool(false);
        }
        proof {
            let e = if version < 1 { enc_bool(false) } else { Seq::<u8>::empty() };
            crate::wire::lemma_grow(base, acc, e);
            acc = acc + e;
            assert(w.out@ =~= base + acc);
        }
        if version < 1 {
            put_material_array(w, &self.material_infos)?;
        }
        proof {
            let e = if version < 1 { enc_material_array(self.material_infos@) } else { Seq::<u8>::empty() };
            crate::wire::lemma_grow(base, acc, e);
            acc = acc + e;
            assert(w.out@ =~= base + acc);
        }
        if version < 1 {
            w.put_i32_field(0);
        }
        proof {
            let e = if version < 1 { enc_i32_field(0) } else { Seq::<u8>::empty() };
            crate::wire::lemma_grow(base, acc, e);
            acc = acc + e;
            assert(w.out@ =~= base + acc);
        }
        if version < 1 {
            let zeros = zeros_vector3();
            w.put_vector3(&zeros);
        }
        proof {
            let e = if version < 1 { enc_vector3(spec_zeros_vector3()) } else { Seq::<u8>::empty() };
            crate::wire::lemma_grow(base, acc, e);
            acc = acc + e;
            assert(w.out@ =~= base + acc);
        }
        if version < 1 {
            w.put_bool(false);
        }
        proof {
            let e = if version < 1 { enc_bool(false) } else { Seq::<u8>::empty() };
            crate::wire::lemma_grow(base, acc, e);
            acc = acc + e;
            assert(w.out@ =~= base + acc);
        }
        if version >= 1 {
            put_material_array(w, &self.material_infos)?;
        }
        proof {
            let e = if version >= 1 { enc_material_array(self.material_infos@) } else { Seq::<u8>::empty() };
            crate::wire::lemma_grow(base, acc, e);
            acc = acc + e;
            assert(w.out@ =~= base + acc);
        }
        proof {
            assert(acc == enc_mesh_renderer(*self, version));
        }
        Ok(())
    }
    pub fn read(d: &mut Deserializer, version: i32) -> (r: Result<MeshRenderer, DecodeError>)
        ensures
            final(d).data == old(d).data,
            final(d).scopes@ == old(d).scopes@,
            old(d).extends(*final(d)),
    {
        let mut x = MeshRenderer::default();
        if version < 1 {
            let _ = d.get_bool(false)?;
        }
        if version < 1 {
            let _ = d.get_bool(false)?;
        }
        if version < 1 {
            x.material_infos = read_material_array(d)?;
        }
        if version < 1 {
            let _ = d.get_i32(0)?;
        }
        if version < 1 {
            let _ = d.get_vector3(zeros_vector3())?;
        }
        if version < 1 {
            let _ = d.get_bool(false)?;
        }
        if version >= 1 {
            x.material_infos = read_material_array(d)?;
        }
        Ok(x)
    }
}

} // verus!
