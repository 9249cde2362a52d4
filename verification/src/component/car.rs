//! The car description and replay schemas: paint colors, driver name, and
//! the opaque replay buffers a recorded run carries.

use crate::error::{DecodeError, EncodeError};
use crate::floatbits::Color;
use crate::reader::Deserializer;
use crate::widestr::{opt_str_encodable, opt_units, WideStr};
use crate::wire::{enc_array_header, enc_bool, enc_color, enc_i32_field, enc_i64_field,
    enc_string_field};
use crate::writer::{enc_i32_fields, enc_u8s, Serializer};
use vstd::prelude::*;

verus! {

/// The four paint colors of a car.
#[derive(Debug, Clone, Copy, PartialEq, Eq, Hash, Structural)]
pub struct CarColors {
    pub primary: Color,
    pub secondary: Color,
    pub glow: Color,
    pub sparkle: Color,
}

impl Default for CarColors {
    fn default() -> (r: Self)
        ensures
            r == spec_car_colors_default(),
    {
        let black = Color { r: 0, g: 0, b: 0, a: 0 };
        CarColors { primary: black, secondary: black, glow: black, sparkle: black }
    }
}

pub open spec fn spec_car_colors_default() -> CarColors {
    let black = Color { r: 0, g: 0, b: 0, a: 0 };
    CarColors { primary: black, secondary: black, glow: black, sparkle: black }
}

/// Wire bytes of the four car colors, each four `f32` channels.
pub open spec fn enc_car_colors(g: CarColors) -> Seq<u8> {
    enc_color(g.primary)
        + enc_color(g.secondary)
        + enc_color(g.glow)
        + enc_color(g.sparkle)
}
impl CarColors {
    pub fn write(&self, w: &mut Serializer)
        requires
            old(w).wf(),
        ensures
            final(w).wf(),
            final(w).scope_stack@ == old(w).scope_stack@,
            final(w).out@ == old(w).out@ + enc_car_colors(*self),
    {
        let ghost base = w.out@;
        let ghost mut acc = Seq::<u8>::empty();
        proof {
            assert(w.out@ =~= base + acc);
        }
        w.put_color(&self.primary);
        proof {
            let e = enc_color(self.primary);
            crate::wire::lemma_grow(base, acc, e);
            acc = acc + e;
            assert(w.out@ =~= base + acc);
        }
        w.put_color(&self.secondary);
        proof {
            let e = enc_color(self.secondary);
            crate::wire::lemma_grow(base, acc, e);
            acc = acc + e;
            assert(w.out@ =~= base + acc);
        }
        w.put_color(&self.glow);
        proof {
            let e = enc_color(self.glow);
            crate::wire::lemma_grow(base, acc, e);
            acc = acc + e;
            assert(w.out@ =~= base + acc);
        }
        w.put_color(&self.sparkle);
        proof {
            let e = enc_color(self.sparkle);
            crate::wire::lemma_grow(base, acc, e);
            acc = acc + e;
            assert(w.out@ =~= base + acc);
        }
        proof {
            assert(acc == enc_car_colors(*self));
        }
    }
    pub fn read(d: &mut Deserializer) -> (r: Result<CarColors, DecodeError>)
        ensures
            old(d).keeps(*final(d)),
    {
        let mut x = CarColors::default();
        x.primary = read_color(d, x.primary)?;
        x.secondary = read_color(d, x.secondary)?;
        x.glow = read_color(d, x.glow)?;
        x.sparkle = read_color(d, x.sparkle)?;
        Ok(x)
    }
}

/// Read a color through the reader's channel fields.
fn read_color(d: &mut Deserializer, cur: Color) -> (r: Result<Color, DecodeError>)
    ensures
        old(d).keeps(*final(d)),
{
    d.get_color(cur)
}

/// A car: its model name and colors. The version slot in its wire form
/// is a constant zero.
#[derive(Debug, Clone, PartialEq, Eq, Hash)]
pub struct CarData {
    pub name: Option<WideStr>,
    pub colors: CarColors,
}

impl Default for CarData {
    fn default() -> (r: Self)
        ensures
            r.name is None,
            r.colors == spec_car_colors_default(),
    {
        CarData { name: Option::None, colors: CarColors::default() }
    }
}

/// Wire bytes of a car: a zero version slot, the name, the colors.
pub open spec fn enc_car_data(g: CarData) -> Seq<u8> {
    enc_i32_field(0)
        + enc_string_field(opt_units(g.name))
        + enc_car_colors(g.colors)
}
/// Every collection and string fits its wire count at this version.
pub open spec fn car_data_encodable(g: CarData) -> bool {
    (opt_str_encodable(g.name))
}

impl CarData {
    pub fn write(&self, w: &mut Serializer) -> (r: Result<(), EncodeError>)
        requires
            old(w).wf(),
        ensures
            final(w).wf(),
            final(w).scope_stack@ == old(w).scope_stack@,
            r is Ok <==> car_data_encodable(*self),
            r is Ok ==> final(w).out@ == old(w).out@ + enc_car_data(*self),
    {
        let ghost base = w.out@;
        let ghost mut acc = Seq::<u8>::empty();
        proof {
            assert(w.out@ =~= base + acc);
        }
        w.put_i32_field(0);
        proof {
            let e = enc_i32_field(0);
            crate::wire::lemma_grow(base, acc, e);
            acc = acc + e;
            assert(w.out@ =~= base + acc);
        }
        w.put_string_field(&self.name)?;
        proof {
            let e = enc_string_field(opt_units(self.name));
            crate::wire::lemma_grow(base, acc, e);
            acc = acc + e;
            assert(w.out@ =~= base + acc);
        }
        self.colors.write(w);
        proof {
            let e = enc_car_colors(self.colors);
            crate::wire::lemma_grow(base, acc, e);
            acc = acc + e;
            assert(w.out@ =~= base + acc);
        }
        proof {
            assert(acc == enc_car_data(*self));
        }
        Ok(())
    }
    pub fn read(d: &mut Deserializer) -> (r: Result<CarData, DecodeError>)
        ensures
            old(d).keeps(*final(d)),
    {
        let mut x = CarData::default();
        let _ = d.get_i32(0)?;
        x.name = d.get_string_field(x.name)?;
        x.colors = CarColors::read(d)?;
        Ok(x)
    }
}

/// A recorded run: identity, timing, and the opaque replay buffers.
#[derive(Debug, Clone, PartialEq, Eq, Hash)]
pub struct CarReplayData {
    pub name: Option<WideStr>,
    pub steam_id: i64,
    pub steam_name: Option<WideStr>,
    pub finish_value: i32,
    pub replay_length_ms: i32,
    pub car_data: CarData,
    pub player_event_versions: Vec<i32>,
    pub event_buffer: Vec<u8>,
    pub transform_buffer: Vec<u8>,
    pub directive_buffer: Vec<u8>,
    pub state_buffer: Vec<u8>,
    pub data_was_truncated: bool,
}

impl Default for CarReplayData {
    fn default() -> (r: Self)
        ensures
            r.name is None && r.steam_id == 0 && r.steam_name is None && r.finish_value == 0
                && r.replay_length_ms == 0 && r.car_data.name is None && r.car_data.colors
                == spec_car_colors_default() && r.player_event_versions@ =~= Seq::<i32>::empty()
                && r.event_buffer@ =~= Seq::<u8>::empty() && r.transform_buffer@ =~= Seq::<
                u8,
            >::empty() && r.directive_buffer@ =~= Seq::<u8>::empty() && r.state_buffer@ =~= Seq::<
                u8,
            >::empty() && !r.data_was_truncated,
    {
        CarReplayData {
            name: Option::None,
            steam_id: 0,
            steam_name: Option::None,
            finish_value: 0,
            replay_length_ms: 0,
            car_data: CarData::default(),
            player_event_versions: Vec::new(),
            event_buffer: Vec::new(),
            transform_buffer: Vec::new(),
            directive_buffer: Vec::new(),
            state_buffer: Vec::new(),
            data_was_truncated: false,
        }
    }
}

/// Wire bytes of a replay at `version`: the buffers split differently before version 5, and versions 1 to 4 carried a now-empty eye-state array.
pub open spec fn enc_car_replay_data(g: CarReplayData, version: i32) -> Seq<u8> {
    enc_string_field(opt_units(g.name))
        + (if version >= 2 { enc_i64_field(g.steam_id) } else { Seq::empty() })
        + (if version >= 2 { enc_string_field(opt_units(g.steam_name)) } else { Seq::empty() })
        + (if version >= 3 { enc_i32_field(g.finish_value) } else { Seq::empty() })
        + (if version >= 3 { enc_i32_field(g.replay_length_ms) } else { Seq::empty() })
        + enc_car_data(g.car_data)
        + (enc_array_header(g.player_event_versions@.len() as i32) + enc_i32_fields(g.player_event_versions@))
        + (enc_array_header(g.event_buffer@.len() as i32) + enc_u8s(g.event_buffer@))
        + (if version >= 5 { enc_array_header(g.transform_buffer@.len() as i32) + enc_u8s(g.transform_buffer@) } else { Seq::empty() })
        + (if version >= 5 { enc_array_header(g.directive_buffer@.len() as i32) + enc_u8s(g.directive_buffer@) } else { Seq::empty() })
        + (if version < 5 { enc_array_header(g.state_buffer@.len() as i32) + enc_u8s(g.state_buffer@) } else { Seq::empty() })
        + (if 1 <= version && version <= 4 { enc_array_header(0) } else { Seq::empty() })
        + (if version >= 7 { enc_bool(g.data_was_truncated) } else { Seq::empty() })
}
/// Every collection and string fits its wire count at this version.
pub open spec fn car_replay_data_encodable(g: CarReplayData, version: i32) -> bool {
    (opt_str_encodable(g.name))
    && (version >= 2 ==> opt_str_encodable(g.steam_name))
    && (car_data_encodable(g.car_data))
    && (g.player_event_versions@.len() <= i32::MAX)
    && (g.event_buffer@.len() <= i32::MAX)
    && (version >= 5 ==> g.transform_buffer@.len() <= i32::MAX)
    && (version >= 5 ==> g.directive_buffer@.len() <= i32::MAX)
    && (version < 5 ==> g.state_buffer@.len() <= i32::MAX)
}

impl CarReplayData {
    /// Current schema version.
    pub fn version() -> (v: i32)
        ensures
            v == 7,
    {
        7
    }

    #[verifier::rlimit(100)]
    #[verifier::spinoff_prover]
    pub fn write(&self, w: &mut Serializer, version: i32) -> (r: Result<(), EncodeError>)
        requires
            old(w).wf(),
        ensures
            final(w).wf(),
            final(w).scope_stack@ == old(w).scope_stack@,
            r is Ok <==> car_replay_data_encodable(*self, version),
            r is Ok ==> final(w).out@ == old(w).out@ + enc_car_replay_data(*self, version),
    {
        let ghost base = w.out@;
        let ghost mut acc = Seq::<u8>::empty();
        proof {
            assert(w.out@ =~= base + acc);
        }
        w.put_string_field(&self.name)?;
        proof {
            let e = enc_string_field(opt_units(self.name));
            crate::wire::lemma_grow(base, acc, e);
            acc = acc + e;
            assert(w.out@ =~= base + acc);
        }
        if version >= 2 {
            w.put_i64_field(self.steam_id);
        }
        proof {
            let e = if version >= 2 { enc_i64_field(self.steam_id) } else { Seq::<u8>::empty() };
            crate::wire::lemma_grow(base, acc, e);
            acc = acc + e;
            assert(w.out@ =~= base + acc);
        }
        if version >= 2 {
            w.put_string_field(&self.steam_name)?;
        }
        proof {
            let e = if version >= 2 { enc_string_field(opt_units(self.steam_name)) } else { Seq::<u8>::empty() };
            crate::wire::lemma_grow(base, acc, e);
            acc = acc + e;
            assert(w.out@ =~= base + acc);
        }
        if version >= 3 {
            w.put_i32_field(self.finish_value);
        }
        proof {
            let e = if version >= 3 { enc_i32_field(self.finish_value) } else { Seq::<u8>::empty() };
            crate::wire::lemma_grow(base, acc, e);
            acc = acc + e;
            assert(w.out@ =~= base + acc);
        }
        if version >= 3 {
            w.put_i32_field(self.replay_length_ms);
        }
        proof {
            let e = if version >= 3 { enc_i32_field(self.replay_length_ms) } else { Seq::<u8>::empty() };
            crate::wire::lemma_grow(base, acc, e);
            acc = acc + e;
            assert(w.out@ =~= base + acc);
        }
        self.car_data.write(w)?;
        proof {
            let e = enc_car_data(self.car_data);
            crate::wire::lemma_grow(base, acc, e);
            acc = acc + e;
            assert(w.out@ =~= base + acc);
        }
        w.put_i32_array(&self.player_event_versions)?;
        proof {
            let e = enc_array_header(self.player_event_versions@.len() as i32) + enc_i32_fields(self.player_event_versions@);
            crate::wire::lemma_grow(base + acc, enc_array_header(self.player_event_versions@.len() as i32), enc_i32_fields(self.player_event_versions@));
            crate::wire::lemma_grow(base, acc, e);
            acc = acc + e;
            assert(w.out@ =~= base + acc);
        }
        w.put_u8_array(&self.event_buffer)?;
        proof {
            let e = enc_array_header(self.event_buffer@.len() as i32) + enc_u8s(self.event_buffer@);
            crate::wire::lemma_grow(base + acc, enc_array_header(self.event_buffer@.len() as i32), enc_u8s(self.event_buffer@));
            crate::wire::lemma_grow(base, acc, e);
            acc = acc + e;
            assert(w.out@ =~= base + acc);
        }
        if version >= 5 {
            w.put_u8_array(&self.transform_buffer)?;
        }
        proof {
            let e = if version >= 5 { enc_array_header(self.transform_buffer@.len() as i32) + enc_u8s(self.transform_buffer@) } else { Seq::<u8>::empty() };
            if version >= 5 {
                crate::wire::lemma_grow(base + acc, enc_array_header(self.transform_buffer@.len() as i32), enc_u8s(self.transform_buffer@));
            }
            crate::wire::lemma_grow(base, acc, e);
            acc = acc + e;
            assert(w.out@ =~= base + acc);
        }
        if version >= 5 {
            w.put_u8_array(&self.directive_buffer)?;
        }
        proof {
            let e = if version >= 5 { enc_array_header(self.directive_buffer@.len() as i32) + enc_u8s(self.directive_buffer@) } else { Seq::<u8>::empty() };
            if version >= 5 {
                crate::wire::lemma_grow(base + acc, enc_array_header(self.directive_buffer@.len() as i32), enc_u8s(self.directive_buffer@));
            }
            crate::wire::lemma_grow(base, acc, e);
            acc = acc + e;
            assert(w.out@ =~= base + acc);
        }
        if version < 5 {
            w.put_u8_array(&self.state_buffer)?;
        }
        proof {
            let e = if version < 5 { enc_array_header(self.state_buffer@.len() as i32) + enc_u8s(self.state_buffer@) } else { Seq::<u8>::empty() };
            if version < 5 {
                crate::wire::lemma_grow(base + acc, enc_array_header(self.state_buffer@.len() as i32), enc_u8s(self.state_buffer@));
            }
            crate::wire::lemma_grow(base, acc, e);
            acc = acc + e;
            assert(w.out@ =~= base + acc);
        }
        if 1 <= version && version <= 4 {
            let r_empty = w.put_array_header(0); proof { assert(r_empty is Ok); }
        }
        proof {
            let e = if 1 <= version && version <= 4 { enc_array_header(0) } else { Seq::<u8>::empty() };
            crate::wire::lemma_grow(base, acc, e);
            acc = acc + e;
            assert(w.out@ =~= base + acc);
        }
        if version >= 7 {
            w.put_bool(self.data_was_truncated);
        }
        proof {
            let e = if version >= 7 { enc_bool(self.data_was_truncated) } else { Seq::<u8>::empty() };
            crate::wire::lemma_grow(base, acc, e);
            acc = acc + e;
            assert(w.out@ =~= base + acc);
        }
        proof {
            assert(acc == enc_car_replay_data(*self, version));
        }
        Ok(())
    }
    pub fn read(d: &mut Deserializer, version: i32) -> (r: Result<CarReplayData, DecodeError>)
        ensures
            final(d).data == old(d).data,
            final(d).scopes@ == old(d).scopes@,
            old(d).extends(*final(d)),
    {
        let mut x = CarReplayData::default();
        x.name = d.get_string_field(x.name)?;
        if version >= 2 {
            x.steam_id = d.get_i64(x.steam_id)?;
        }
        if version >= 2 {
            x.steam_name = d.get_string_field(x.steam_name)?;
        }
        if version >= 3 {
            x.finish_value = d.get_i32(x.finish_value)?;
        }
        if version >= 3 {
            x.replay_length_ms = d.get_i32(x.replay_length_ms)?;
        }
        x.car_data = CarData::read(d)?;
        x.player_event_versions = d.read_i32_array()?;
        x.event_buffer = d.read_u8_array()?;
        if version >= 5 {
            x.transform_buffer = d.read_u8_array()?;
        }
        if version >= 5 {
            x.directive_buffer = d.read_u8_array()?;
        }
        if version < 5 {
            x.state_buffer = d.read_u8_array()?;
        }
        if 1 <= version && version <= 4 {
            let _ = d.read_u8_array()?;
        }
        if version >= 7 {
            x.data_was_truncated = d.get_bool(x.data_was_truncated)?;
        }
        Ok(x)
    }
}

} // verus!
