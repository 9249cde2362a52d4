//! The level catalog schemas: a level's metadata record, and the
//! length-prefixed list of records that shares one element version. The
//! per-mode availability dictionary is kept as a vector of pairs whose
//! keys stay unique, in insertion order.

use crate::bytes_le::{bits_to_i64, i64_bits, i64_of_bits, i64_to_bits};
use crate::datetime::DistanceDateTime;
use crate::enums::{
    spec_level_difficulty_i32, spec_level_type_i32, spec_music_cue_id_i32, LevelDifficulty,
    LevelType, MusicCueId,
};
use crate::error::{DecodeError, EncodeError};
use crate::reader::Deserializer;
use crate::widestr::{opt_str_encodable, opt_units, WideStr};
use crate::wire::{
    enc_bool, enc_datetime, enc_dict_header, enc_each, enc_f32_field, enc_i32_field,
    enc_i64_field, enc_string_field, lemma_enc_each_take_snoc,
};
use crate::writer::Serializer;
use vstd::prelude::*;

verus! {

/// The keys of a mode dictionary are pairwise distinct.
pub open spec fn mode_keys_unique(s: Seq<(i32, bool)>) -> bool {
    forall|i: int, j: int| 0 <= i < j < s.len() ==> (#[trigger] s[i]).0 != (#[trigger] s[j]).0
}

/// Insert or replace by key, as a map insert does.
pub fn upsert_mode(entries: &mut Vec<(i32, bool)>, key: i32, val: bool)
    requires
        mode_keys_unique(old(entries)@),
    ensures
        mode_keys_unique(final(entries)@),
{
    let n = entries.len();
    let mut i: usize = 0;
    while i < n
        invariant
            i <= n,
            n == entries@.len(),
            mode_keys_unique(entries@),
            forall|j: int| 0 <= j < i ==> (#[trigger] entries@[j]).0 != key,
        decreases n - i,
    {
        if entries[i].0 == key {
            let ghost olds = entries@;
            entries[i] = (key, val);
            proof {
                assert forall|a: int, b: int|
                    0 <= a < b < entries@.len() implies (#[trigger] entries@[a]).0 != (
                #[trigger] entries@[b]).0 by {
                    assert(olds[a].0 != olds[b].0);
                }
            }
            return;
        }
        i = i + 1;
    }
    entries.push((key, val));
    proof {
        assert forall|a: int, b: int|
            0 <= a < b < entries@.len() implies (#[trigger] entries@[a]).0 != (
        #[trigger] entries@[b]).0 by {
            if b < entries@.len() - 1 {
                assert(old(entries)@[a].0 != old(entries)@[b].0);
            }
        }
    }
}

/// Bytes of a mode dictionary: the dictionary header, then each key as an
/// `i32` field and each value as a boolean. An absent dictionary is
/// written empty.
pub open spec fn enc_modes(m: Option<Seq<(i32, bool)>>) -> Seq<u8> {
    match m {
        Option::None => enc_dict_header(0),
        Some(s) => enc_dict_header(s.len() as i32) + enc_each(
            s,
            |p: (i32, bool)| enc_i32_field(p.0) + enc_bool(p.1),
        ),
    }
}

/// Whether a mode dictionary fits its wire count.
pub open spec fn modes_encodable(m: Option<Seq<(i32, bool)>>) -> bool {
    match m {
        Option::None => true,
        Some(s) => s.len() <= i32::MAX,
    }
}

/// Write a mode dictionary.
fn put_modes(w: &mut Serializer, m: &Option<Vec<(i32, bool)>>) -> (r: Result<(), EncodeError>)
    requires
        old(w).wf(),
    ensures
        final(w).wf(),
        final(w).scope_stack@ == old(w).scope_stack@,
        r is Ok <==> modes_encodable(spec_mode_view(*m)),
        r is Ok ==> final(w).out@ == old(w).out@ + enc_modes(spec_mode_view(*m)),
{
    match m {
        Option::None => {
            let res = w.put_dict_header(0);
            proof {
                assert(res is Ok);
            }
            Ok(())
        },
        Some(entries) => {
            w.put_dict_header(entries.len())?;
            let ghost base = w.out@;
            let n = entries.len();
            let mut i: usize = 0;
            while i < n
                invariant
                    i <= n,
                    n == entries@.len(),
                    w.wf(),
                    w.scope_stack@ == old(w).scope_stack@,
                    w.out@ == base + enc_each(
                        entries@.take(i as int),
                        |p: (i32, bool)| enc_i32_field(p.0) + enc_bool(p.1),
                    ),
                decreases n - i,
            {
                let ghost step_base = w.out@;
                w.put_i32_field(entries[i].0);
                w.put_bool(entries[i].1);
                proof {
                    crate::wire::lemma_grow(
                        step_base,
                        enc_i32_field(entries@[i as int].0),
                        enc_bool(entries@[i as int].1),
                    );
                }
                i = i + 1;
                proof {
                    lemma_enc_each_take_snoc(
                        entries@,
                        |p: (i32, bool)| enc_i32_field(p.0) + enc_bool(p.1),
                        i as int,
                    );
                }
            }
            proof {
                assert(entries@.take(n as int) =~= entries@);
            }
            Ok(())
        },
    }
}

/// The mode table a nullable entry vector denotes.
pub open spec fn spec_mode_view(m: Option<Vec<(i32, bool)>>) -> Option<Seq<(i32, bool)>> {
    match m {
        Option::None => Option::None,
        Some(v) => Some(v@),
    }
}

/// Read a mode dictionary; the result is always present, as the reader
/// allocates the table before filling it.
fn read_modes(d: &mut Deserializer) -> (r: Result<Option<Vec<(i32, bool)>>, DecodeError>)
    ensures
        final(d).data == old(d).data,
        final(d).scopes@ == old(d).scopes@,
        old(d).extends(*final(d)),
        r matches Ok(m) ==> m matches Some(entries) && mode_keys_unique(entries@),
{
    let len = d.read_dictionary_start()?;
    let mut entries: Vec<(i32, bool)> = Vec::new();
    if len <= 0 {
        return Ok(Some(entries));
    }
    let n = len as usize;
    let mut i: usize = 0;
    while i < n
        invariant
            d.data == old(d).data,
            d.scopes@ == old(d).scopes@,
            old(d).warnings@.is_prefix_of(d.warnings@),
            mode_keys_unique(entries@),
        decreases n - i,
    {
        let k = d.get_i32(-1)?;
        let v = d.get_bool(false)?;
        upsert_mode(&mut entries, k, v);
        i = i + 1;
    }
    Ok(Some(entries))
}

/// One level's catalog record.
#[derive(Debug, Clone, PartialEq, Eq)]
pub struct LevelInfo {
    pub level_name: Option<WideStr>,
    pub relative_path: Option<WideStr>,
    pub file_name_without_extension: Option<WideStr>,
    pub level_version_date_time: DistanceDateTime,
    pub file_last_write_date_time: DistanceDateTime,
    /// Availability per game mode, keyed by mode id; keys unique, in
    /// first-insertion order.
    pub modes: Option<Vec<(i32, bool)>>,
    /// As f32 bits.
    pub bronze_time: u32,
    pub bronze_points: i32,
    /// As f32 bits.
    pub silver_time: u32,
    pub silver_points: i32,
    /// As f32 bits.
    pub gold_time: u32,
    pub gold_points: i32,
    /// As f32 bits.
    pub diamond_time: u32,
    pub diamond_points: i32,
    pub infinite_cooldown: bool,
    pub disable_flying: bool,
    pub disable_jumping: bool,
    pub disable_boosting: bool,
    pub disable_jet_rotating: bool,
    pub difficulty: LevelDifficulty,
    pub level_type: LevelType,
    /// As the bit pattern of the signed value on the wire.
    pub workshop_creator_id: u64,
    pub music_cue_id: MusicCueId,
    pub description: Option<WideStr>,
    pub creator_name: Option<WideStr>,
}

impl Default for LevelInfo {
    fn default() -> (r: Self)
        ensures
            r.level_name is None && r.relative_path is None && r.file_name_without_extension
                is None,
            r.level_version_date_time.0 == 0 && r.file_last_write_date_time.0 == 0,
            r.modes is None,
            r.bronze_time == 0 && r.bronze_points == 0 && r.silver_time == 0 && r.silver_points
                == 0 && r.gold_time == 0 && r.gold_points == 0 && r.diamond_time == 0
                && r.diamond_points == 0,
            !r.infinite_cooldown && !r.disable_flying && !r.disable_jumping && !r.disable_boosting
                && !r.disable_jet_rotating,
            r.difficulty == LevelDifficulty::Casual,
            r.level_type == LevelType::NoneValue,
            r.workshop_creator_id == 0,
            r.music_cue_id == MusicCueId::NoneValue,
            r.description is None && r.creator_name is None,
    {
        LevelInfo {
            level_name: Option::None,
            relative_path: Option::None,
            file_name_without_extension: Option::None,
            level_version_date_time: DistanceDateTime(0),
            file_last_write_date_time: DistanceDateTime(0),
            modes: Option::None,
            bronze_time: 0,
            bronze_points: 0,
            silver_time: 0,
            silver_points: 0,
            gold_time: 0,
            gold_points: 0,
            diamond_time: 0,
            diamond_points: 0,
            infinite_cooldown: false,
            disable_flying: false,
            disable_jumping: false,
            disable_boosting: false,
            disable_jet_rotating: false,
            difficulty: LevelDifficulty::Casual,
            level_type: LevelType::NoneValue,
            workshop_creator_id: 0,
            music_cue_id: MusicCueId::NoneValue,
            description: Option::None,
            creator_name: Option::None,
        }
    }
}

/// Wire bytes of a level record at `version`.
pub open spec fn enc_level_info(g: LevelInfo, version: i32) -> Seq<u8> {
    (if version >= 0 { enc_string_field(opt_units(g.level_name)) } else { Seq::empty() })
        + (if version >= 0 { enc_string_field(opt_units(g.relative_path)) } else { Seq::empty() })
        + (if version >= 0 { enc_string_field(opt_units(g.file_name_without_extension)) } else { Seq::empty() })
        + (if version >= 0 { enc_datetime(g.level_version_date_time.0) } else { Seq::empty() })
        + (if version >= 0 { enc_datetime(g.file_last_write_date_time.0) } else { Seq::empty() })
        + (if version >= 0 { enc_modes(spec_mode_view(g.modes)) } else { Seq::empty() })
        + (if version >= 0 { enc_f32_field(g.bronze_time) } else { Seq::empty() })
        + (if version >= 0 { enc_i32_field(g.bronze_points) } else { Seq::empty() })
        + (if version >= 0 { enc_f32_field(g.silver_time) } else { Seq::empty() })
        + (if version >= 0 { enc_i32_field(g.silver_points) } else { Seq::empty() })
        + (if version >= 0 { enc_f32_field(g.gold_time) } else { Seq::empty() })
        + (if version >= 0 { enc_i32_field(g.gold_points) } else { Seq::empty() })
        + (if version >= 0 { enc_f32_field(g.diamond_time) } else { Seq::empty() })
        + (if version >= 0 { enc_i32_field(g.diamond_points) } else { Seq::empty() })
        + (if version >= 0 { enc_bool(g.infinite_cooldown) } else { Seq::empty() })
        + (if version >= 0 { enc_bool(g.disable_flying) } else { Seq::empty() })
        + (if version >= 0 { enc_bool(g.disable_jumping) } else { Seq::empty() })
        + (if version >= 0 { enc_bool(g.disable_boosting) } else { Seq::empty() })
        + (if version >= 0 { enc_bool(g.disable_jet_rotating) } else { Seq::empty() })
        + (if version >= 0 { enc_i32_field(spec_level_difficulty_i32(g.difficulty)) } else { Seq::empty() })
        + (if version >= 0 { enc_i32_field(spec_level_type_i32(g.level_type)) } else { Seq::empty() })
        + (if version >= 0 { enc_i64_field(i64_of_bits(g.workshop_creator_id)) } else { Seq::empty() })
        + (if version >= 0 { enc_i32_field(spec_music_cue_id_i32(g.music_cue_id)) } else { Seq::empty() })
        + (if version >= 1 { enc_string_field(opt_units(g.description)) } else { Seq::empty() })
        + (if version >= 2 { enc_string_field(opt_units(g.creator_name)) } else { Seq::empty() })
}
/// Every collection and string fits its wire count at this version.
pub open spec fn level_info_encodable(g: LevelInfo, version: i32) -> bool {
    (version >= 0 ==> opt_str_encodable(g.level_name))
    && (version >= 0 ==> opt_str_encodable(g.relative_path))
    && (version >= 0 ==> opt_str_encodable(g.file_name_without_extension))
    && (version >= 0 ==> modes_encodable(spec_mode_view(g.modes)))
    && (version >= 1 ==> opt_str_encodable(g.description))
    && (version >= 2 ==> opt_str_encodable(g.creator_name))
}

impl LevelInfo {
    /// Current schema version.
    pub fn version() -> (v: i32)
        ensures
            v == 2,
    {
        2
    }

    #[verifier::rlimit(100)]
    #[verifier::spinoff_prover]
    pub fn write(&self, w: &mut Serializer, version: i32) -> (r: Result<(), EncodeError>)
        requires
            old(w).wf(),
        ensures
            final(w).wf(),
            final(w).scope_stack@ == old(w).scope_stack@,
            r is Ok <==> level_info_encodable(*self, version),
            r is Ok ==> final(w).out@ == old(w).out@ + enc_level_info(*self, version),
    {
        let ghost base = w.out@;
        let ghost mut acc = Seq::<u8>::empty();
        proof {
            assert(w.out@ =~= base + acc);
        }
        if version >= 0 {
            w.put_string_field(&self.level_name)?;
        }
        proof {
            let e = if version >= 0 { enc_string_field(opt_units(self.level_name)) } else { Seq::<u8>::empty() };
            crate::wire::lemma_grow(base, acc, e);
            acc = acc + e;
            assert(w.out@ =~= base + acc);
        }
        if version >= 0 {
            w.put_string_field(&self.relative_path)?;
        }
        proof {
            let e = if version >= 0 { enc_string_field(opt_units(self.relative_path)) } else { Seq::<u8>::empty() };
            crate::wire::lemma_grow(base, acc, e);
            acc = acc + e;
            assert(w.out@ =~= base + acc);
        }
        if version >= 0 {
            w.put_string_field(&self.file_name_without_extension)?;
        }
        proof {
            let e = if version >= 0 { enc_string_field(opt_units(self.file_name_without_extension)) } else { Seq::<u8>::empty() };
            crate::wire::lemma_grow(base, acc, e);
            acc = acc + e;
            assert(w.out@ =~= base + acc);
        }
        if version >= 0 {
            w.put_datetime(self.level_version_date_time.0);
        }
        proof {
            let e = if version >= 0 { enc_datetime(self.level_version_date_time.0) } else { Seq::<u8>::empty() };
            crate::wire::lemma_grow(base, acc, e);
            acc = acc + e;
            assert(w.out@ =~= base + acc);
        }
        if version >= 0 {
            w.put_datetime(self.file_last_write_date_time.0);
        }
        proof {
            let e = if version >= 0 { enc_datetime(self.file_last_write_date_time.0) } else { Seq::<u8>::empty() };
            crate::wire::lemma_grow(base, acc, e);
            acc = acc + e;
            assert(w.out@ =~= base + acc);
        }
        if version >= 0 {
            put_modes(w, &self.modes)?;
        }
        proof {
            let e = if version >= 0 { enc_modes(spec_mode_view(self.modes)) } else { Seq::<u8>::empty() };
            crate::wire::lemma_grow(base, acc, e);
            acc = acc + e;
            assert(w.out@ =~= base + acc);
        }
        if version >= 0 {
            w.put_f32_field(self.bronze_time);
        }
        proof {
            let e = if version >= 0 { enc_f32_field(self.bronze_time) } else { Seq::<u8>::empty() };
            crate::wire::lemma_grow(base, acc, e);
            acc = acc + e;
            assert(w.out@ =~= base + acc);
        }
        if version >= 0 {
            w.put_i32_field(self.bronze_points);
        }
        proof {
            let e = if version >= 0 { enc_i32_field(self.bronze_points) } else { Seq::<u8>::empty() };
            crate::wire::lemma_grow(base, acc, e);
            acc = acc + e;
            assert(w.out@ =~= base + acc);
        }
        if version >= 0 {
            w.put_f32_field(self.silver_time);
        }
        proof {
            let e = if version >= 0 { enc_f32_field(self.silver_time) } else { Seq::<u8>::empty() };
            crate::wire::lemma_grow(base, acc, e);
            acc = acc + e;
            assert(w.out@ =~= base + acc);
        }
        if version >= 0 {
            w.put_i32_field(self.silver_points);
        }
        proof {
            let e = if version >= 0 { enc_i32_field(self.silver_points) } else { Seq::<u8>::empty() };
            crate::wire::lemma_grow(base, acc, e);
            acc = acc + e;
            assert(w.out@ =~= base + acc);
        }
        if version >= 0 {
            w.put_f32_field(self.gold_time);
        }
        proof {
            let e = if version >= 0 { enc_f32_field(self.gold_time) } else { Seq::<u8>::empty() };
            crate::wire::lemma_grow(base, acc, e);
            acc = acc + e;
            assert(w.out@ =~= base + acc);
        }
        if version >= 0 {
            w.put_i32_field(self.gold_points);
        }
        proof {
            let e = if version >= 0 { enc_i32_field(self.gold_points) } else { Seq::<u8>::empty() };
            crate::wire::lemma_grow(base, acc, e);
            acc = acc + e;
            assert(w.out@ =~= base + acc);
        }
        if version >= 0 {
            w.put_f32_field(self.diamond_time);
        }
        proof {
            let e = if version >= 0 { enc_f32_field(self.diamond_time) } else { Seq::<u8>::empty() };
            crate::wire::lemma_grow(base, acc, e);
            acc = acc + e;
            assert(w.out@ =~= base + acc);
        }
        if version >= 0 {
            w.put_i32_field(self.diamond_points);
        }
        proof {
            let e = if version >= 0 { enc_i32_field(self.diamond_points) } else { Seq::<u8>::empty() };
            crate::wire::lemma_grow(base, acc, e);
            acc = acc + e;
            assert(w.out@ =~= base + acc);
        }
        if version >= 0 {
            w.put_bool(self.infinite_cooldown);
        }
        proof {
            let e = if version >= 0 { enc_bool(self.infinite_cooldown) } else { Seq::<u8>::empty() };
            crate::wire::lemma_grow(base, acc, e);
            acc = acc + e;
            assert(w.out@ =~= base + acc);
        }
        if version >= 0 {
            w.put_bool(self.disable_flying);
        }
        proof {
            let e = if version >= 0 { enc_bool(self.disable_flying) } else { Seq::<u8>::empty() };
            crate::wire::lemma_grow(base, acc, e);
            acc = acc + e;
            assert(w.out@ =~= base + acc);
        }
        if version >= 0 {
            w.put_bool(self.disable_jumping);
        }
        proof {
            let e = if version >= 0 { enc_bool(self.disable_jumping) } else { Seq::<u8>::empty() };
            crate::wire::lemma_grow(base, acc, e);
            acc = acc + e;
            assert(w.out@ =~= base + acc);
        }
        if version >= 0 {
            w.put_bool(self.disable_boosting);
        }
        proof {
            let e = if version >= 0 { enc_bool(self.disable_boosting) } else { Seq::<u8>::empty() };
            crate::wire::lemma_grow(base, acc, e);
            acc = acc + e;
            assert(w.out@ =~= base + acc);
        }
        if version >= 0 {
            w.put_bool(self.disable_jet_rotating);
        }
        proof {
            let e = if version >= 0 { enc_bool(self.disable_jet_rotating) } else { Seq::<u8>::empty() };
            crate::wire::lemma_grow(base, acc, e);
            acc = acc + e;
            assert(w.out@ =~= base + acc);
        }
        if version >= 0 {
            w.put_i32_field(self.difficulty.to_i32());
        }
        proof {
            let e = if version >= 0 { enc_i32_field(spec_level_difficulty_i32(self.difficulty)) } else { Seq::<u8>::empty() };
            crate::wire::lemma_grow(base, acc, e);
            acc = acc + e;
            assert(w.out@ =~= base + acc);
        }
        if version >= 0 {
            w.put_i32_field(self.level_type.to_i32());
        }
        proof {
            let e = if version >= 0 { enc_i32_field(spec_level_type_i32(self.level_type)) } else { Seq::<u8>::empty() };
            crate::wire::lemma_grow(base, acc, e);
            acc = acc + e;
            assert(w.out@ =~= base + acc);
        }
        if version >= 0 {
            let wid = bits_to_i64(self.workshop_creator_id);
            w.put_i64_field(wid);
        }
        proof {
            let e = if version >= 0 { enc_i64_field(i64_of_bits(self.workshop_creator_id)) } else { Seq::<u8>::empty() };
            crate::wire::lemma_grow(base, acc, e);
            acc = acc + e;
            assert(w.out@ =~= base + acc);
        }
        if version >= 0 {
            w.put_i32_field(self.music_cue_id.to_i32());
        }
        proof {
            let e = if version >= 0 { enc_i32_field(spec_music_cue_id_i32(self.music_cue_id)) } else { Seq::<u8>::empty() };
            crate::wire::lemma_grow(base, acc, e);
            acc = acc + e;
            assert(w.out@ =~= base + acc);
        }
        if version >= 1 {
            w.put_string_field(&self.description)?;
        }
        proof {
            let e = if version >= 1 { enc_string_field(opt_units(self.description)) } else { Seq::<u8>::empty() };
            crate::wire::lemma_grow(base, acc, e);
            acc = acc + e;
            assert(w.out@ =~= base + acc);
        }
        if version >= 2 {
            w.put_string_field(&self.creator_name)?;
        }
        proof {
            let e = if version >= 2 { enc_string_field(opt_units(self.creator_name)) } else { Seq::<u8>::empty() };
            crate::wire::lemma_grow(base, acc, e);
            acc = acc + e;
            assert(w.out@ =~= base + acc);
        }
        proof {
            assert(acc == enc_level_info(*self, version));
        }
        Ok(())
    }
    pub fn read(d: &mut Deserializer, version: i32) -> (r: Result<LevelInfo, DecodeError>)
        ensures
            final(d).data == old(d).data,
            final(d).scopes@ == old(d).scopes@,
            old(d).extends(*final(d)),
    {
        let mut x = LevelInfo::default();
        if version >= 0 {
            x.level_name = d.get_string_field(x.level_name)?;
        }
        if version >= 0 {
            x.relative_path = d.get_string_field(x.relative_path)?;
        }
        if version >= 0 {
            x.file_name_without_extension = d.get_string_field(x.file_name_without_extension)?;
        }
        if version >= 0 {
            x.level_version_date_time = crate::datetime::DistanceDateTime(d.get_datetime(x.level_version_date_time.0)?);
        }
        if version >= 0 {
            x.file_last_write_date_time = crate::datetime::DistanceDateTime(d.get_datetime(x.file_last_write_date_time.0)?);
        }
        if version >= 0 {
            x.modes = read_modes(d)?;
        }
        if version >= 0 {
            x.bronze_time = d.get_f32(x.bronze_time)?;
        }
        if version >= 0 {
            x.bronze_points = d.get_i32(x.bronze_points)?;
        }
        if version >= 0 {
            x.silver_time = d.get_f32(x.silver_time)?;
        }
        if version >= 0 {
            x.silver_points = d.get_i32(x.silver_points)?;
        }
        if version >= 0 {
            x.gold_time = d.get_f32(x.gold_time)?;
        }
        if version >= 0 {
            x.gold_points = d.get_i32(x.gold_points)?;
        }
        if version >= 0 {
            x.diamond_time = d.get_f32(x.diamond_time)?;
        }
        if version >= 0 {
            x.diamond_points = d.get_i32(x.diamond_points)?;
        }
        if version >= 0 {
            x.infinite_cooldown = d.get_bool(x.infinite_cooldown)?;
        }
        if version >= 0 {
            x.disable_flying = d.get_bool(x.disable_flying)?;
        }
        if version >= 0 {
            x.disable_jumping = d.get_bool(x.disable_jumping)?;
        }
        if version >= 0 {
            x.disable_boosting = d.get_bool(x.disable_boosting)?;
        }
        if version >= 0 {
            x.disable_jet_rotating = d.get_bool(x.disable_jet_rotating)?;
        }
        if version >= 0 {
            let n = d.get_i32(x.difficulty.to_i32())?;
            x.difficulty = match LevelDifficulty::from_i32(n) {
                Some(v) => v,
                Option::None => {
                    return Err(DecodeError::UnknownEnumValue);
                },
            };
        }
        if version >= 0 {
            let n = d.get_i32(x.level_type.to_i32())?;
            x.level_type = match LevelType::from_i32(n) {
                Some(v) => v,
                Option::None => {
                    return Err(DecodeError::UnknownEnumValue);
                },
            };
        }
        if version >= 0 {
            let cur = bits_to_i64(x.workshop_creator_id);
            let wid = d.get_i64(cur)?;
            x.workshop_creator_id = i64_to_bits(wid);
        }
        if version >= 0 {
            let n = d.get_i32(x.music_cue_id.to_i32())?;
            x.music_cue_id = match MusicCueId::from_i32(n) {
                Some(v) => v,
                Option::None => {
                    return Err(DecodeError::UnknownEnumValue);
                },
            };
        }
        if version >= 1 {
            x.description = d.get_string_field(x.description)?;
        }
        if version >= 2 {
            x.creator_name = d.get_string_field(x.creator_name)?;
        }
        Ok(x)
    }
}

/// The level catalog: a count, a shared element version, then the
/// records. Its producer writes the element-version slot as zero.
#[derive(Debug, Clone, PartialEq, Eq, Default)]
pub struct LevelInfos(pub Vec<LevelInfo>);

/// Bytes of the catalog's records at element version `pv`.
pub open spec fn enc_level_info_list(s: Seq<LevelInfo>, pv: i32) -> Seq<u8> {
    enc_each(s, |li: LevelInfo| enc_level_info(li, pv))
}

/// Wire bytes of the catalog.
pub open spec fn enc_level_infos(g: LevelInfos) -> Seq<u8> {
    enc_i32_field(g.0@.len() as i32) + enc_i32_field(0) + enc_level_info_list(g.0@, 0)
}

/// Every record fits the wire at the written element version.
pub open spec fn level_infos_encodable(g: LevelInfos) -> bool {
    g.0@.len() <= i32::MAX && forall|i: int|
        0 <= i < g.0@.len() ==> level_info_encodable(#[trigger] g.0@[i], 0)
}

impl LevelInfos {
    /// Current schema version.
    pub fn version() -> (v: i32)
        ensures
            v == 0,
    {
        0
    }

    pub fn write(&self, w: &mut Serializer, version: i32) -> (r: Result<(), EncodeError>)
        requires
            old(w).wf(),
        ensures
            final(w).wf(),
            final(w).scope_stack@ == old(w).scope_stack@,
            r is Ok ==> level_infos_encodable(*self) && final(w).out@ == old(w).out@
                + enc_level_infos(*self),
            r is Err ==> !level_infos_encodable(*self),
    {
        if self.0.len() > i32::MAX as usize {
            return Err(EncodeError::CountTooLarge);
        }
        let n = self.0.len();
        let mut i: usize = 0;
        while i < n
            invariant
                i <= n,
                n == self.0@.len(),
                w.wf(),
                w.out@ == old(w).out@,
                w.scope_stack@ == old(w).scope_stack@,
                forall|j: int| 0 <= j < i ==> level_info_encodable(#[trigger] self.0@[j], 0),
            decreases n - i,
        {
            if !level_info_encodable_check(&self.0[i]) {
                return Err(EncodeError::StringTooLong);
            }
            i = i + 1;
        }
        w.put_i32_field(n as i32);
        w.put_i32_field(0);
        let ghost base = w.out@;
        let mut i: usize = 0;
        while i < n
            invariant
                i <= n,
                n == self.0@.len(),
                forall|j: int| 0 <= j < n ==> level_info_encodable(#[trigger] self.0@[j], 0),
                w.wf(),
                w.scope_stack@ == old(w).scope_stack@,
                w.out@ == base + enc_each(
                    self.0@.take(i as int),
                    |li: LevelInfo| enc_level_info(li, 0),
                ),
            decreases n - i,
        {
            let res = self.0[i].write(w, 0);
            proof {
                assert(res is Ok);
            }
            i = i + 1;
            proof {
                lemma_enc_each_take_snoc(self.0@, |li: LevelInfo| enc_level_info(li, 0), i as int);
            }
        }
        proof {
            assert(self.0@.take(n as int) =~= self.0@);
        }
        Ok(())
    }

    pub fn read(d: &mut Deserializer, version: i32) -> (r: Result<LevelInfos, DecodeError>)
        ensures
            final(d).data == old(d).data,
            final(d).scopes@ == old(d).scopes@,
            old(d).extends(*final(d)),
    {
        let count = d.get_i32(0)?;
        let pv = d.get_i32(0)?;
        if count < 0 {
            return Err(DecodeError::NegativeCount);
        }
        let n = count as usize;
        let mut records: Vec<LevelInfo> = Vec::new();
        let mut i: usize = 0;
        while i < n
            invariant
                d.data == old(d).data,
                d.scopes@ == old(d).scopes@,
                old(d).warnings@.is_prefix_of(d.warnings@),
            decreases n - i,
        {
            let li = LevelInfo::read(d, pv)?;
            records.push(li);
            i = i + 1;
        }
        Ok(LevelInfos(records))
    }
}

/// Whether a record fits the wire at element version zero, decided at run
/// time.
fn level_info_encodable_check(li: &LevelInfo) -> (r: bool)
    ensures
        r == level_info_encodable(*li, 0),
{
    let str_ok = |s: &Option<WideStr>| -> (ok: bool)
        ensures
            ok == opt_str_encodable(*s),
        {
            match s {
                Option::None => true,
                Some(w) => w.units.len() as u64 <= 0x3_FFFF_FFFFu64,
            }
        };
    if !str_ok(&li.level_name) {
        return false;
    }
    if !str_ok(&li.relative_path) {
        return false;
    }
    if !str_ok(&li.file_name_without_extension) {
        return false;
    }
    match &li.modes {
        Option::None => {},
        Some(entries) => {
            if entries.len() > i32::MAX as usize {
                return false;
            }
        },
    }
    true
}

} // verus!
