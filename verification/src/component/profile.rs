//! The player-profile schemas: accumulated statistics, play times, and
//! per-level progress keyed by relative level path. The progress table is
//! kept as a vector of pairs whose keys stay unique, in insertion order.

use crate::enums::{spec_medal_status_i32, MedalStatus};
use crate::error::{DecodeError, EncodeError};
use crate::reader::Deserializer;
use crate::widestr::{opt_str_encodable, opt_units, string_encodable, WideStr};
use crate::wire::{
    enc_array_header, enc_bool, enc_each, enc_f64_raw, enc_i32_field, enc_i64_field,
    enc_string_field, enc_u32_field, lemma_enc_each_take_snoc,
};
use crate::widestr::enc_string;
use crate::writer::{enc_f64s, enc_i32_fields, enc_string_fields, string_fields_encodable,
    Serializer};
use vstd::prelude::*;

verus! {

/// Lifetime driving statistics.
#[derive(Debug, Clone, Copy, PartialEq, Eq, Hash, Structural)]
pub struct PlayerStats {
    pub total_deaths_count: i64,
    pub deaths_by_laser_count: i64,
    pub deaths_by_reset_count: i64,
    pub deaths_by_impact_count: i64,
    pub deaths_by_overheat_count: i64,
    pub deaths_by_kill_grid_count: i64,
    /// Seconds or meters, as f64 bits.
    pub car_as_gibs_time: u64,
    /// Seconds or meters, as f64 bits.
    pub meters_driven: u64,
    /// Seconds or meters, as f64 bits.
    pub meters_driven_forward: u64,
    /// Seconds or meters, as f64 bits.
    pub meters_driven_reverse: u64,
    /// Seconds or meters, as f64 bits.
    pub meters_airborne_flying: u64,
    /// Seconds or meters, as f64 bits.
    pub meters_airborne_not_flying: u64,
    /// Seconds or meters, as f64 bits.
    pub meters_wall_riding: u64,
    /// Seconds or meters, as f64 bits.
    pub meters_ceiling_riding: u64,
    /// Seconds or meters, as f64 bits.
    pub meters_grinding: u64,
    /// Seconds or meters, as f64 bits.
    pub boost_held_down_time: u64,
    /// Seconds or meters, as f64 bits.
    pub grip_held_down_time: u64,
    pub split_count: i64,
    pub impact_count: i64,
    pub checkpoints_hit_count: i64,
    pub jump_count: i64,
    pub wings_open_count: i64,
    pub wings_close_count: i64,
    pub horn_count: i64,
    pub trick_count: i64,
    pub total_points: i64,
    pub broken_lamp_count: i64,
    pub broken_pumpkin_count: i64,
    pub broken_egg_count: i64,
    /// As f64 bits.
    pub top_speed_meters_per_second: u64,
    /// As f64 bits.
    pub top_forward_speed_meters_per_second: u64,
    /// As f64 bits.
    pub top_reverse_speed_meters_per_second: u64,
    pub cooldown_trigger_hit_count: i64,
}

impl Default for PlayerStats {
    fn default() -> (r: Self)
        ensures
            r == spec_player_stats_default(),
    {
        PlayerStats {
            total_deaths_count: 0,
            deaths_by_laser_count: 0,
            deaths_by_reset_count: 0,
            deaths_by_impact_count: 0,
            deaths_by_overheat_count: 0,
            deaths_by_kill_grid_count: 0,
            car_as_gibs_time: 0,
            meters_driven: 0,
            meters_driven_forward: 0,
            meters_driven_reverse: 0,
            meters_airborne_flying: 0,
            meters_airborne_not_flying: 0,
            meters_wall_riding: 0,
            meters_ceiling_riding: 0,
            meters_grinding: 0,
            boost_held_down_time: 0,
            grip_held_down_time: 0,
            split_count: 0,
            impact_count: 0,
            checkpoints_hit_count: 0,
            jump_count: 0,
            wings_open_count: 0,
            wings_close_count: 0,
            horn_count: 0,
            trick_count: 0,
            total_points: 0,
            broken_lamp_count: 0,
            broken_pumpkin_count: 0,
            broken_egg_count: 0,
            top_speed_meters_per_second: 0,
            top_forward_speed_meters_per_second: 0,
            top_reverse_speed_meters_per_second: 0,
            cooldown_trigger_hit_count: 0,
        }
    }
}

pub open spec fn spec_player_stats_default() -> PlayerStats {
    PlayerStats {
        total_deaths_count: 0,
        deaths_by_laser_count: 0,
        deaths_by_reset_count: 0,
        deaths_by_impact_count: 0,
        deaths_by_overheat_count: 0,
        deaths_by_kill_grid_count: 0,
        car_as_gibs_time: 0,
        meters_driven: 0,
        meters_driven_forward: 0,
        meters_driven_reverse: 0,
        meters_airborne_flying: 0,
        meters_airborne_not_flying: 0,
        meters_wall_riding: 0,
        meters_ceiling_riding: 0,
        meters_grinding: 0,
        boost_held_down_time: 0,
        grip_held_down_time: 0,
        split_count: 0,
        impact_count: 0,
        checkpoints_hit_count: 0,
        jump_count: 0,
        wings_open_count: 0,
        wings_close_count: 0,
        horn_count: 0,
        trick_count: 0,
        total_points: 0,
        broken_lamp_count: 0,
        broken_pumpkin_count: 0,
        broken_egg_count: 0,
        top_speed_meters_per_second: 0,
        top_forward_speed_meters_per_second: 0,
        top_reverse_speed_meters_per_second: 0,
        cooldown_trigger_hit_count: 0,
    }
}

/// Wire bytes of the statistics block at `version`.
pub open spec fn enc_player_stats(g: PlayerStats, version: i32) -> Seq<u8> {
    (if version >= 0 { enc_i64_field(g.total_deaths_count) } else { Seq::empty() })
        + (if version >= 0 { enc_i64_field(g.deaths_by_laser_count) } else { Seq::empty() })
        + (if version >= 0 { enc_i64_field(g.deaths_by_reset_count) } else { Seq::empty() })
        + (if version >= 0 { enc_i64_field(g.deaths_by_impact_count) } else { Seq::empty() })
        + (if version >= 0 { enc_i64_field(g.deaths_by_overheat_count) } else { Seq::empty() })
        + (if version >= 0 { enc_i64_field(g.deaths_by_kill_grid_count) } else { Seq::empty() })
        + (if version >= 0 { enc_f64_raw(g.car_as_gibs_time) } else { Seq::empty() })
        + (if version >= 0 { enc_f64_raw(g.meters_driven) } else { Seq::empty() })
        + (if version >= 0 { enc_f64_raw(g.meters_driven_forward) } else { Seq::empty() })
        + (if version >= 0 { enc_f64_raw(g.meters_driven_reverse) } else { Seq::empty() })
        + (if version >= 0 { enc_f64_raw(g.meters_airborne_flying) } else { Seq::empty() })
        + (if version >= 0 { enc_f64_raw(g.meters_airborne_not_flying) } else { Seq::empty() })
        + (if version >= 0 { enc_f64_raw(g.meters_wall_riding) } else { Seq::empty() })
        + (if version >= 0 { enc_f64_raw(g.meters_ceiling_riding) } else { Seq::empty() })
        + (if version >= 0 { enc_f64_raw(g.meters_grinding) } else { Seq::empty() })
        + (if version >= 0 { enc_f64_raw(g.boost_held_down_time) } else { Seq::empty() })
        + (if version >= 0 { enc_f64_raw(g.grip_held_down_time) } else { Seq::empty() })
        + (if version >= 0 { enc_i64_field(g.split_count) } else { Seq::empty() })
        + (if version >= 0 { enc_i64_field(g.impact_count) } else { Seq::empty() })
        + (if version >= 0 { enc_i64_field(g.checkpoints_hit_count) } else { Seq::empty() })
        + (if version >= 0 { enc_i64_field(g.jump_count) } else { Seq::empty() })
        + (if version >= 0 { enc_i64_field(g.wings_open_count) } else { Seq::empty() })
        + (if version >= 0 { enc_i64_field(g.wings_close_count) } else { Seq::empty() })
        + (if version >= 0 { enc_i64_field(g.horn_count) } else { Seq::empty() })
        + (if version >= 0 { enc_i64_field(g.trick_count) } else { Seq::empty() })
        + (if version >= 0 { enc_i64_field(g.total_points) } else { Seq::empty() })
        + (if version >= 0 { enc_i64_field(g.broken_lamp_count) } else { Seq::empty() })
        + (if version >= 0 { enc_i64_field(g.broken_pumpkin_count) } else { Seq::empty() })
        + (if version >= 0 { enc_i64_field(g.broken_egg_count) } else { Seq::empty() })
        + (if version >= 1 { enc_f64_raw(g.top_speed_meters_per_second) } else { Seq::empty() })
        + (if version >= 1 { enc_f64_raw(g.top_forward_speed_meters_per_second) } else { Seq::empty() })
        + (if version >= 1 { enc_f64_raw(g.top_reverse_speed_meters_per_second) } else { Seq::empty() })
        + (if version >= 1 { enc_i64_field(g.cooldown_trigger_hit_count) } else { Seq::empty() })
}

impl PlayerStats {
    /// Current schema version.
    pub fn version() -> (v: i32)
        ensures
            v == 1,
    {
        1
    }

    #[verifier::rlimit(100)]
    #[verifier::spinoff_prover]
    pub fn write(&self, w: &mut Serializer, version: i32)
        requires
            old(w).wf(),
        ensures
            final(w).wf(),
            final(w).scope_stack@ == old(w).scope_stack@,
            final(w).out@ == old(w).out@ + enc_player_stats(*self, version),
    {
        let ghost base = w.out@;
        let ghost mut acc = Seq::<u8>::empty();
        proof {
            assert(w.out@ =~= base + acc);
        }
        if version >= 0 {
            w.put_i64_field(self.total_deaths_count);
        }
        proof {
            let e = if version >= 0 { enc_i64_field(self.total_deaths_count) } else { Seq::<u8>::empty() };
            crate::wire::lemma_grow(base, acc, e);
            acc = acc + e;
            assert(w.out@ =~= base + acc);
        }
        if version >= 0 {
            w.put_i64_field(self.deaths_by_laser_count);
        }
        proof {
            let e = if version >= 0 { enc_i64_field(self.deaths_by_laser_count) } else { Seq::<u8>::empty() };
            crate::wire::lemma_grow(base, acc, e);
            acc = acc + e;
            assert(w.out@ =~= base + acc);
        }
        if version >= 0 {
            w.put_i64_field(self.deaths_by_reset_count);
        }
        proof {
            let e = if version >= 0 { enc_i64_field(self.deaths_by_reset_count) } else { Seq::<u8>::empty() };
            crate::wire::lemma_grow(base, acc, e);
            acc = acc + e;
            assert(w.out@ =~= base + acc);
        }
        if version >= 0 {
            w.put_i64_field(self.deaths_by_impact_count);
        }
        proof {
            let e = if version >= 0 { enc_i64_field(self.deaths_by_impact_count) } else { Seq::<u8>::empty() };
            crate::wire::lemma_grow(base, acc, e);
            acc = acc + e;
            assert(w.out@ =~= base + acc);
        }
        if version >= 0 {
            w.put_i64_field(self.deaths_by_overheat_count);
        }
        proof {
            let e = if version >= 0 { enc_i64_field(self.deaths_by_overheat_count) } else { Seq::<u8>::empty() };
            crate::wire::lemma_grow(base, acc, e);
            acc = acc + e;
            assert(w.out@ =~= base + acc);
        }
        if version >= 0 {
            w.put_i64_field(self.deaths_by_kill_grid_count);
        }
        proof {
            let e = if version >= 0 { enc_i64_field(self.deaths_by_kill_grid_count) } else { Seq::<u8>::empty() };
            crate::wire::lemma_grow(base, acc, e);
            acc = acc + e;
            assert(w.out@ =~= base + acc);
        }
        if version >= 0 {
            w.put_f64_raw(self.car_as_gibs_time);
        }
        proof {
            let e = if version >= 0 { enc_f64_raw(self.car_as_gibs_time) } else { Seq::<u8>::empty() };
            crate::wire::lemma_grow(base, acc, e);
            acc = acc + e;
            assert(w.out@ =~= base + acc);
        }
        if version >= 0 {
            w.put_f64_raw(self.meters_driven);
        }
        proof {
            let e = if version >= 0 { enc_f64_raw(self.meters_driven) } else { Seq::<u8>::empty() };
            crate::wire::lemma_grow(base, acc, e);
            acc = acc + e;
            assert(w.out@ =~= base + acc);
        }
        if version >= 0 {
            w.put_f64_raw(self.meters_driven_forward);
        }
        proof {
            let e = if version >= 0 { enc_f64_raw(self.meters_driven_forward) } else { Seq::<u8>::empty() };
            crate::wire::lemma_grow(base, acc, e);
            acc = acc + e;
            assert(w.out@ =~= base + acc);
        }
        if version >= 0 {
            w.put_f64_raw(self.meters_driven_reverse);
        }
        proof {
            let e = if version >= 0 { enc_f64_raw(self.meters_driven_reverse) } else { Seq::<u8>::empty() };
            crate::wire::lemma_grow(base, acc, e);
            acc = acc + e;
            assert(w.out@ =~= base + acc);
        }
        if version >= 0 {
            w.put_f64_raw(self.meters_airborne_flying);
        }
        proof {
            let e = if version >= 0 { enc_f64_raw(self.meters_airborne_flying) } else { Seq::<u8>::empty() };
            crate::wire::lemma_grow(base, acc, e);
            acc = acc + e;
            assert(w.out@ =~= base + acc);
        }
        if version >= 0 {
            w.put_f64_raw(self.meters_airborne_not_flying);
        }
        proof {
            let e = if version >= 0 { enc_f64_raw(self.meters_airborne_not_flying) } else { Seq::<u8>::empty() };
            crate::wire::lemma_grow(base, acc, e);
            acc = acc + e;
            assert(w.out@ =~= base + acc);
        }
        if version >= 0 {
            w.put_f64_raw(self.meters_wall_riding);
        }
        proof {
            let e = if version >= 0 { enc_f64_raw(self.meters_wall_riding) } else { Seq::<u8>::empty() };
            crate::wire::lemma_grow(base, acc, e);
            acc = acc + e;
            assert(w.out@ =~= base + acc);
        }
        if version >= 0 {
            w.put_f64_raw(self.meters_ceiling_riding);
        }
        proof {
            let e = if version >= 0 { enc_f64_raw(self.meters_ceiling_riding) } else { Seq::<u8>::empty() };
            crate::wire::lemma_grow(base, acc, e);
            acc = acc + e;
            assert(w.out@ =~= base + acc);
        }
        if version >= 0 {
            w.put_f64_raw(self.meters_grinding);
        }
        proof {
            let e = if version >= 0 { enc_f64_raw(self.meters_grinding) } else { Seq::<u8>::empty() };
            crate::wire::lemma_grow(base, acc, e);
            acc = acc + e;
            assert(w.out@ =~= base + acc);
        }
        if version >= 0 {
            w.put_f64_raw(self.boost_held_down_time);
        }
        proof {
            let e = if version >= 0 { enc_f64_raw(self.boost_held_down_time) } else { Seq::<u8>::empty() };
            crate::wire::lemma_grow(base, acc, e);
            acc = acc + e;
            assert(w.out@ =~= base + acc);
        }
        if version >= 0 {
            w.put_f64_raw(self.grip_held_down_time);
        }
        proof {
            let e = if version >= 0 { enc_f64_raw(self.grip_held_down_time) } else { Seq::<u8>::empty() };
            crate::wire::lemma_grow(base, acc, e);
            acc = acc + e;
            assert(w.out@ =~= base + acc);
        }
        if version >= 0 {
            w.put_i64_field(self.split_count);
        }
        proof {
            let e = if version >= 0 { enc_i64_field(self.split_count) } else { Seq::<u8>::empty() };
            crate::wire::lemma_grow(base, acc, e);
            acc = acc + e;
            assert(w.out@ =~= base + acc);
        }
        if version >= 0 {
            w.put_i64_field(self.impact_count);
        }
        proof {
            let e = if version >= 0 { enc_i64_field(self.impact_count) } else { Seq::<u8>::empty() };
            crate::wire::lemma_grow(base, acc, e);
            acc = acc + e;
            assert(w.out@ =~= base + acc);
        }
        if version >= 0 {
            w.put_i64_field(self.checkpoints_hit_count);
        }
        proof {
            let e = if version >= 0 { enc_i64_field(self.checkpoints_hit_count) } else { Seq::<u8>::empty() };
            crate::wire::lemma_grow(base, acc, e);
            acc = acc + e;
            assert(w.out@ =~= base + acc);
        }
        if version >= 0 {
            w.put_i64_field(self.jump_count);
        }
        proof {
            let e = if version >= 0 { enc_i64_field(self.jump_count) } else { Seq::<u8>::empty() };
            crate::wire::lemma_grow(base, acc, e);
            acc = acc + e;
            assert(w.out@ =~= base + acc);
        }
        if version >= 0 {
            w.put_i64_field(self.wings_open_count);
        }
        proof {
            let e = if version >= 0 { enc_i64_field(self.wings_open_count) } else { Seq::<u8>::empty() };
            crate::wire::lemma_grow(base, acc, e);
            acc = acc + e;
            assert(w.out@ =~= base + acc);
        }
        if version >= 0 {
            w.put_i64_field(self.wings_close_count);
        }
        proof {
            let e = if version >= 0 { enc_i64_field(self.wings_close_count) } else { Seq::<u8>::empty() };
            crate::wire::lemma_grow(base, acc, e);
            acc = acc + e;
            assert(w.out@ =~= base + acc);
        }
        if version >= 0 {
            w.put_i64_field(self.horn_count);
        }
        proof {
            let e = if version >= 0 { enc_i64_field(self.horn_count) } else { Seq::<u8>::empty() };
            crate::wire::lemma_grow(base, acc, e);
            acc = acc + e;
            assert(w.out@ =~= base + acc);
        }
        if version >= 0 {
            w.put_i64_field(self.trick_count);
        }
        proof {
            let e = if version >= 0 { enc_i64_field(self.trick_count) } else { Seq::<u8>::empty() };
            crate::wire::lemma_grow(base, acc, e);
            acc = acc + e;
            assert(w.out@ =~= base + acc);
        }
        if version >= 0 {
            w.put_i64_field(self.total_points);
        }
        proof {
            let e = if version >= 0 { enc_i64_field(self.total_points) } else { Seq::<u8>::empty() };
            crate::wire::lemma_grow(base, acc, e);
            acc = acc + e;
            assert(w.out@ =~= base + acc);
        }
        if version >= 0 {
            w.put_i64_field(self.broken_lamp_count);
        }
        proof {
            let e = if version >= 0 { enc_i64_field(self.broken_lamp_count) } else { Seq::<u8>::empty() };
            crate::wire::lemma_grow(base, acc, e);
            acc = acc + e;
            assert(w.out@ =~= base + acc);
        }
        if version >= 0 {
            w.put_i64_field(self.broken_pumpkin_count);
        }
        proof {
            let e = if version >= 0 { enc_i64_field(self.broken_pumpkin_count) } else { Seq::<u8>::empty() };
            crate::wire::lemma_grow(base, acc, e);
            acc = acc + e;
            assert(w.out@ =~= base + acc);
        }
        if version >= 0 {
            w.put_i64_field(self.broken_egg_count);
        }
        proof {
            let e = if version >= 0 { enc_i64_field(self.broken_egg_count) } else { Seq::<u8>::empty() };
            crate::wire::lemma_grow(base, acc, e);
            acc = acc + e;
            assert(w.out@ =~= base + acc);
        }
        if version >= 1 {
            w.put_f64_raw(self.top_speed_meters_per_second);
        }
        proof {
            let e = if version >= 1 { enc_f64_raw(self.top_speed_meters_per_second) } else { Seq::<u8>::empty() };
            crate::wire::lemma_grow(base, acc, e);
            acc = acc + e;
            assert(w.out@ =~= base + acc);
        }
        if version >= 1 {
            w.put_f64_raw(self.top_forward_speed_meters_per_second);
        }
        proof {
            let e = if version >= 1 { enc_f64_raw(self.top_forward_speed_meters_per_second) } else { Seq::<u8>::empty() };
            crate::wire::lemma_grow(base, acc, e);
            acc = acc + e;
            assert(w.out@ =~= base + acc);
        }
        if version >= 1 {
            w.put_f64_raw(self.top_reverse_speed_meters_per_second);
        }
        proof {
            let e = if version >= 1 { enc_f64_raw(self.top_reverse_speed_meters_per_second) } else { Seq::<u8>::empty() };
            crate::wire::lemma_grow(base, acc, e);
            acc = acc + e;
            assert(w.out@ =~= base + acc);
        }
        if version >= 1 {
            w.put_i64_field(self.cooldown_trigger_hit_count);
        }
        proof {
            let e = if version >= 1 { enc_i64_field(self.cooldown_trigger_hit_count) } else { Seq::<u8>::empty() };
            crate::wire::lemma_grow(base, acc, e);
            acc = acc + e;
            assert(w.out@ =~= base + acc);
        }
        proof {
            assert(acc == enc_player_stats(*self, version));
        }
    }
    pub fn read(d: &mut Deserializer, version: i32) -> (r: Result<PlayerStats, DecodeError>)
        ensures
            old(d).keeps(*final(d)),
    {
        let mut x = PlayerStats::default();
        if version >= 0 {
            x.total_deaths_count = d.get_i64(x.total_deaths_count)?;
        }
        if version >= 0 {
            x.deaths_by_laser_count = d.get_i64(x.deaths_by_laser_count)?;
        }
        if version >= 0 {
            x.deaths_by_reset_count = d.get_i64(x.deaths_by_reset_count)?;
        }
        if version >= 0 {
            x.deaths_by_impact_count = d.get_i64(x.deaths_by_impact_count)?;
        }
        if version >= 0 {
            x.deaths_by_overheat_count = d.get_i64(x.deaths_by_overheat_count)?;
        }
        if version >= 0 {
            x.deaths_by_kill_grid_count = d.get_i64(x.deaths_by_kill_grid_count)?;
        }
        if version >= 0 {
            x.car_as_gibs_time = d.get_f64(x.car_as_gibs_time)?;
        }
        if version >= 0 {
            x.meters_driven = d.get_f64(x.meters_driven)?;
        }
        if version >= 0 {
            x.meters_driven_forward = d.get_f64(x.meters_driven_forward)?;
        }
        if version >= 0 {
            x.meters_driven_reverse = d.get_f64(x.meters_driven_reverse)?;
        }
        if version >= 0 {
            x.meters_airborne_flying = d.get_f64(x.meters_airborne_flying)?;
        }
        if version >= 0 {
            x.meters_airborne_not_flying = d.get_f64(x.meters_airborne_not_flying)?;
        }
        if version >= 0 {
            x.meters_wall_riding = d.get_f64(x.meters_wall_riding)?;
        }
        if version >= 0 {
            x.meters_ceiling_riding = d.get_f64(x.meters_ceiling_riding)?;
        }
        if version >= 0 {
            x.meters_grinding = d.get_f64(x.meters_grinding)?;
        }
        if version >= 0 {
            x.boost_held_down_time = d.get_f64(x.boost_held_down_time)?;
        }
        if version >= 0 {
            x.grip_held_down_time = d.get_f64(x.grip_held_down_time)?;
        }
        if version >= 0 {
            x.split_count = d.get_i64(x.split_count)?;
        }
        if version >= 0 {
            x.impact_count = d.get_i64(x.impact_count)?;
        }
        if version >= 0 {
            x.checkpoints_hit_count = d.get_i64(x.checkpoints_hit_count)?;
        }
        if version >= 0 {
            x.jump_count = d.get_i64(x.jump_count)?;
        }
        if version >= 0 {
            x.wings_open_count = d.get_i64(x.wings_open_count)?;
        }
        if version >= 0 {
            x.wings_close_count = d.get_i64(x.wings_close_count)?;
        }
        if version >= 0 {
            x.horn_count = d.get_i64(x.horn_count)?;
        }
        if version >= 0 {
            x.trick_count = d.get_i64(x.trick_count)?;
        }
        if version >= 0 {
            x.total_points = d.get_i64(x.total_points)?;
        }
        if version >= 0 {
            x.broken_lamp_count = d.get_i64(x.broken_lamp_count)?;
        }
        if version >= 0 {
            x.broken_pumpkin_count = d.get_i64(x.broken_pumpkin_count)?;
        }
        if version >= 0 {
            x.broken_egg_count = d.get_i64(x.broken_egg_count)?;
        }
        if version >= 1 {
            x.top_speed_meters_per_second = d.get_f64(x.top_speed_meters_per_second)?;
        }
        if version >= 1 {
            x.top_forward_speed_meters_per_second = d.get_f64(x.top_forward_speed_meters_per_second)?;
        }
        if version >= 1 {
            x.top_reverse_speed_meters_per_second = d.get_f64(x.top_reverse_speed_meters_per_second)?;
        }
        if version >= 1 {
            x.cooldown_trigger_hit_count = d.get_i64(x.cooldown_trigger_hit_count)?;
        }
        Ok(x)
    }
}

/// Bytes of a medal-array payload: each medal its wire integer, as an
/// `i32` field.
pub open spec fn enc_medal_fields(s: Seq<MedalStatus>) -> Seq<u8> {
    enc_each(s, |m: MedalStatus| enc_i32_field(spec_medal_status_i32(m)))
}

/// Write an array of medals.
pub fn put_medal_array(w: &mut Serializer, vals: &Vec<MedalStatus>) -> (r: Result<
    (),
    EncodeError,
>)
    requires
        old(w).wf(),
    ensures
        final(w).wf(),
        final(w).scope_stack@ == old(w).scope_stack@,
        match r {
            Ok(()) => vals@.len() <= i32::MAX && final(w).out@ == old(w).out@ + enc_array_header(
                vals@.len() as i32,
            ) + enc_medal_fields(vals@),
            Err(e) => vals@.len() > i32::MAX && final(w).out@ == old(w).out@,
        },
{
    w.put_array_header(vals.len())?;
    let ghost base = w.out@;
    let n = vals.len();
    let mut i: usize = 0;
    while i < n
        invariant
            i <= n,
            n == vals@.len(),
            w.wf(),
            w.scope_stack@ == old(w).scope_stack@,
            w.out@ == base + enc_each(
                vals@.take(i as int),
                |m: MedalStatus| enc_i32_field(spec_medal_status_i32(m)),
            ),
        decreases n - i,
    {
        w.put_i32_field(vals[i].to_i32());
        i = i + 1;
        proof {
            lemma_enc_each_take_snoc(
                vals@,
                |m: MedalStatus| enc_i32_field(spec_medal_status_i32(m)),
                i as int,
            );
        }
    }
    proof {
        assert(vals@.take(n as int) =~= vals@);
    }
    Ok(())
}

/// Read an array of medals; an unknown wire value is fatal.
pub fn read_medal_array(d: &mut Deserializer) -> (r: Result<Vec<MedalStatus>, DecodeError>)
    ensures
        final(d).data == old(d).data,
        final(d).scopes@ == old(d).scopes@,
        old(d).extends(*final(d)),
{
    let len = d.read_array_start()?;
    let mut vals: Vec<MedalStatus> = Vec::new();
    if len <= 0 {
        return Ok(vals);
    }
    let n = len as usize;
    let mut i: usize = 0;
    while i < n
        invariant
            d.data == old(d).data,
            d.scopes@ == old(d).scopes@,
            old(d).warnings@.is_prefix_of(d.warnings@),
        decreases n - i,
    {
        let m = MedalStatus::NoneValue;
        let v = d.get_i32(m.to_i32())?;
        match MedalStatus::from_i32(v) {
            Some(ms) => {
                vals.push(ms);
            },
            Option::None => {
                return Err(DecodeError::UnknownEnumValue);
            },
        }
        i = i + 1;
    }
    Ok(vals)
}

/// Progress on one level: its medals and best results per mode.
#[derive(Debug, Clone, PartialEq, Eq, Hash)]
pub struct LevelProgress {
    pub last_played_level_version: Option<WideStr>,
    pub prompted_to_vote_on_level: bool,
    pub medals: Vec<MedalStatus>,
    pub top_results: Vec<i32>,
    pub time_last_played: i64,
}

impl Default for LevelProgress {
    fn default() -> (r: Self)
        ensures
            r.last_played_level_version is None,
            !r.prompted_to_vote_on_level,
            r.medals@ =~= Seq::<MedalStatus>::empty(),
            r.top_results@ =~= Seq::<i32>::empty(),
            r.time_last_played == 0,
    {
        LevelProgress {
            last_played_level_version: Option::None,
            prompted_to_vote_on_level: false,
            medals: Vec::new(),
            top_results: Vec::new(),
            time_last_played: 0,
        }
    }
}

/// Wire bytes of a level-progress record at `version`.
pub open spec fn enc_level_progress(g: LevelProgress, version: i32) -> Seq<u8> {
    (if version >= 0 { enc_string_field(opt_units(g.last_played_level_version)) } else { Seq::empty() })
        + (if version >= 0 { enc_bool(g.prompted_to_vote_on_level) } else { Seq::empty() })
        + (if version >= 0 { enc_array_header(g.medals@.len() as i32) + enc_medal_fields(g.medals@) } else { Seq::empty() })
        + (if version >= 0 { enc_array_header(g.top_results@.len() as i32) + enc_i32_fields(g.top_results@) } else { Seq::empty() })
        + (if version >= 1 { enc_i64_field(g.time_last_played) } else { Seq::empty() })
}
/// Every collection and string fits its wire count at this version.
pub open spec fn level_progress_encodable(g: LevelProgress, version: i32) -> bool {
    (version >= 0 ==> opt_str_encodable(g.last_played_level_version))
    && (version >= 0 ==> g.medals@.len() <= i32::MAX)
    && (version >= 0 ==> g.top_results@.len() <= i32::MAX)
}

impl LevelProgress {
    /// Current schema version.
    pub fn version() -> (v: i32)
        ensures
            v == 1,
    {
        1
    }

    #[verifier::rlimit(100)]
    #[verifier::spinoff_prover]
    pub fn write(&self, w: &mut Serializer, version: i32) -> (r: Result<(), EncodeError>)
        requires
            old(w).wf(),
        ensures
            final(w).wf(),
            final(w).scope_stack@ == old(w).scope_stack@,
            r is Ok <==> level_progress_encodable(*self, version),
            r is Ok ==> final(w).out@ == old(w).out@ + enc_level_progress(*self, version),
    {
        let ghost base = w.out@;
        let ghost mut acc = Seq::<u8>::empty();
        proof {
            assert(w.out@ =~= base + acc);
        }
        if version >= 0 {
            w.put_string_field(&self.last_played_level_version)?;
        }
        proof {
            let e = if version >= 0 { enc_string_field(opt_units(self.last_played_level_version)) } else { Seq::<u8>::empty() };
            crate::wire::lemma_grow(base, acc, e);
            acc = acc + e;
            assert(w.out@ =~= base + acc);
        }
        if version >= 0 {
            w.put_bool(self.prompted_to_vote_on_level);
        }
        proof {
            let e = if version >= 0 { enc_bool(self.prompted_to_vote_on_level) } else { Seq::<u8>::empty() };
            crate::wire::lemma_grow(base, acc, e);
            acc = acc + e;
            assert(w.out@ =~= base + acc);
        }
        if version >= 0 {
            put_medal_array(w, &self.medals)?;
        }
        proof {
            let e = if version >= 0 { enc_array_header(self.medals@.len() as i32) + enc_medal_fields(self.medals@) } else { Seq::<u8>::empty() };
            if version >= 0 {
                crate::wire::lemma_grow(base + acc, enc_array_header(self.medals@.len() as i32), enc_medal_fields(self.medals@));
            }
            crate::wire::lemma_grow(base, acc, e);
            acc = acc + e;
            assert(w.out@ =~= base + acc);
        }
        if version >= 0 {
            w.put_i32_array(&self.top_results)?;
        }
        proof {
            let e = if version >= 0 { enc_array_header(self.top_results@.len() as i32) + enc_i32_fields(self.top_results@) } else { Seq::<u8>::empty() };
            if version >= 0 {
                crate::wire::lemma_grow(base + acc, enc_array_header(self.top_results@.len() as i32), enc_i32_fields(self.top_results@));
            }
            crate::wire::lemma_grow(base, acc, e);
            acc = acc + e;
            assert(w.out@ =~= base + acc);
        }
        if version >= 1 {
            w.put_i64_field(self.time_last_played);
        }
        proof {
            let e = if version >= 1 { enc_i64_field(self.time_last_played) } else { Seq::<u8>::empty() };
            crate::wire::lemma_grow(base, acc, e);
            acc = acc + e;
            assert(w.out@ =~= base + acc);
        }
        proof {
            assert(acc == enc_level_progress(*self, version));
        }
        Ok(())
    }
    pub fn read(d: &mut Deserializer, version: i32) -> (r: Result<LevelProgress, DecodeError>)
        ensures
            final(d).data == old(d).data,
            final(d).scopes@ == old(d).scopes@,
            old(d).extends(*final(d)),
    {
        let mut x = LevelProgress::default();
        if version >= 0 {
            x.last_played_level_version = d.get_string_field(x.last_played_level_version)?;
        }
        if version >= 0 {
            x.prompted_to_vote_on_level = d.get_bool(x.prompted_to_vote_on_level)?;
        }
        if version >= 0 {
            x.medals = read_medal_array(d)?;
        }
        if version >= 0 {
            x.top_results = d.read_i32_array()?;
        }
        if version >= 1 {
            x.time_last_played = d.get_i64(x.time_last_played)?;
        }
        x.medals.resize(17, MedalStatus::NoneValue);
        x.top_results.resize(17, -1);
        Ok(x)
    }
}

/// Profile-wide accumulated statistics and play times. The nested
/// statistics block is written with a zero version slot, as its producer
/// does.
#[derive(Debug, Clone, PartialEq, Eq, Hash)]
pub struct ProfileStats {
    pub accumulated_player_stats: PlayerStats,
    /// As f64 bits.
    pub total_play_time: u64,
    /// As f64 bits.
    pub level_editor_work_time: u64,
    /// As f64 bits.
    pub level_editor_play_time: u64,
    /// Per game mode, as f64 bits.
    pub solo_mode_play_times: Vec<u64>,
    /// Per game mode, as f64 bits.
    pub splitscreen_mode_play_times: Vec<u64>,
    /// Per game mode, as f64 bits.
    pub online_mode_play_times: Vec<u64>,
    /// As f64 bits.
    pub adventure_start_mode_time: u64,
    pub trackmogrify_modifiers: Vec<Option<WideStr>>,
}

impl Default for ProfileStats {
    fn default() -> (r: Self)
        ensures
            r.accumulated_player_stats == spec_player_stats_default(),
            r.total_play_time == 0 && r.level_editor_work_time == 0 && r.level_editor_play_time
                == 0 && r.adventure_start_mode_time == 0,
            r.solo_mode_play_times@ =~= Seq::<u64>::empty(),
            r.splitscreen_mode_play_times@ =~= Seq::<u64>::empty(),
            r.online_mode_play_times@ =~= Seq::<u64>::empty(),
            r.trackmogrify_modifiers@ =~= Seq::<Option<WideStr>>::empty(),
    {
        ProfileStats {
            accumulated_player_stats: PlayerStats::default(),
            total_play_time: 0,
            level_editor_work_time: 0,
            level_editor_play_time: 0,
            solo_mode_play_times: Vec::new(),
            splitscreen_mode_play_times: Vec::new(),
            online_mode_play_times: Vec::new(),
            adventure_start_mode_time: 0,
            trackmogrify_modifiers: Vec::new(),
        }
    }
}

/// Wire bytes of the profile statistics at `version`.
pub open spec fn enc_profile_stats(g: ProfileStats, version: i32) -> Seq<u8> {
    (if version >= 0 { enc_i32_field(0) + enc_player_stats(g.accumulated_player_stats, 0) } else { Seq::empty() })
        + (if version >= 0 { enc_f64_raw(g.total_play_time) } else { Seq::empty() })
        + (if version >= 0 { enc_f64_raw(g.level_editor_work_time) } else { Seq::empty() })
        + (if version >= 0 { enc_f64_raw(g.level_editor_play_time) } else { Seq::empty() })
        + (if version >= 0 { enc_array_header(g.solo_mode_play_times@.len() as i32) + enc_f64s(g.solo_mode_play_times@) } else { Seq::empty() })
        + (if version >= 0 { enc_array_header(g.splitscreen_mode_play_times@.len() as i32) + enc_f64s(g.splitscreen_mode_play_times@) } else { Seq::empty() })
        + (if version >= 0 { enc_array_header(g.online_mode_play_times@.len() as i32) + enc_f64s(g.online_mode_play_times@) } else { Seq::empty() })
        + (if version >= 1 { enc_f64_raw(g.adventure_start_mode_time) } else { Seq::empty() })
        + (if version >= 1 { enc_array_header(g.trackmogrify_modifiers@.len() as i32) + enc_string_fields(g.trackmogrify_modifiers@) } else { Seq::empty() })
}
/// Every collection and string fits its wire count at this version.
pub open spec fn profile_stats_encodable(g: ProfileStats, version: i32) -> bool {
    (version >= 0 ==> g.solo_mode_play_times@.len() <= i32::MAX)
    && (version >= 0 ==> g.splitscreen_mode_play_times@.len() <= i32::MAX)
    && (version >= 0 ==> g.online_mode_play_times@.len() <= i32::MAX)
    && (version >= 1 ==> g.trackmogrify_modifiers@.len() <= i32::MAX && string_fields_encodable(g.trackmogrify_modifiers@))
}

impl ProfileStats {
    /// Current schema version.
    pub fn version() -> (v: i32)
        ensures
            v == 1,
    {
        1
    }

    #[verifier::rlimit(100)]
    #[verifier::spinoff_prover]
    pub fn write(&self, w: &mut Serializer, version: i32) -> (r: Result<(), EncodeError>)
        requires
            old(w).wf(),
        ensures
            final(w).wf(),
            final(w).scope_stack@ == old(w).scope_stack@,
            r is Ok <==> profile_stats_encodable(*self, version),
            r is Ok ==> final(w).out@ == old(w).out@ + enc_profile_stats(*self, version),
    {
        let ghost base = w.out@;
        let ghost mut acc = Seq::<u8>::empty();
        proof {
            assert(w.out@ =~= base + acc);
        }
        if version >= 0 {
            w.put_i32_field(0);
            self.accumulated_player_stats.write(w, 0);
        }
        proof {
            let e = if version >= 0 { enc_i32_field(0) + enc_player_stats(self.accumulated_player_stats, 0) } else { Seq::<u8>::empty() };
            if version >= 0 {
                crate::wire::lemma_grow(base + acc, enc_i32_field(0), enc_player_stats(self.accumulated_player_stats, 0));
            }
            crate::wire::lemma_grow(base, acc, e);
            acc = acc + e;
            assert(w.out@ =~= base + acc);
        }
        if version >= 0 {
            w.put_f64_raw(self.total_play_time);
        }
        proof {
            let e = if version >= 0 { enc_f64_raw(self.total_play_time) } else { Seq::<u8>::empty() };
            crate::wire::lemma_grow(base, acc, e);
            acc = acc + e;
            assert(w.out@ =~= base + acc);
        }
        if version >= 0 {
            w.put_f64_raw(self.level_editor_work_time);
        }
        proof {
            let e = if version >= 0 { enc_f64_raw(self.level_editor_work_time) } else { Seq::<u8>::empty() };
            crate::wire::lemma_grow(base, acc, e);
            acc = acc + e;
            assert(w.out@ =~= base + acc);
        }
        if version >= 0 {
            w.put_f64_raw(self.level_editor_play_time);
        }
        proof {
            let e = if version >= 0 { enc_f64_raw(self.level_editor_play_time) } else { Seq::<u8>::empty() };
            crate::wire::lemma_grow(base, acc, e);
            acc = acc + e;
            assert(w.out@ =~= base + acc);
        }
        if version >= 0 {
            w.put_f64_array(&self.solo_mode_play_times)?;
        }
        proof {
            let e = if version >= 0 { enc_array_header(self.solo_mode_play_times@.len() as i32) + enc_f64s(self.solo_mode_play_times@) } else { Seq::<u8>::empty() };
            if version >= 0 {
                crate::wire::lemma_grow(base + acc, enc_array_header(self.solo_mode_play_times@.len() as i32), enc_f64s(self.solo_mode_play_times@));
            }
            crate::wire::lemma_grow(base, acc, e);
            acc = acc + e;
            assert(w.out@ =~= base + acc);
        }
        if version >= 0 {
            w.put_f64_array(&self.splitscreen_mode_play_times)?;
        }
        proof {
            let e = if version >= 0 { enc_array_header(self.splitscreen_mode_play_times@.len() as i32) + enc_f64s(self.splitscreen_mode_play_times@) } else { Seq::<u8>::empty() };
            if version >= 0 {
                crate::wire::lemma_grow(base + acc, enc_array_header(self.splitscreen_mode_play_times@.len() as i32), enc_f64s(self.splitscreen_mode_play_times@));
            }
            crate::wire::lemma_grow(base, acc, e);
            acc = acc + e;
            assert(w.out@ =~= base + acc);
        }
        if version >= 0 {
            w.put_f64_array(&self.online_mode_play_times)?;
        }
        proof {
            let e = if version >= 0 { enc_array_header(self.online_mode_play_times@.len() as i32) + enc_f64s(self.online_mode_play_times@) } else { Seq::<u8>::empty() };
            if version >= 0 {
                crate::wire::lemma_grow(base + acc, enc_array_header(self.online_mode_play_times@.len() as i32), enc_f64s(self.online_mode_play_times@));
            }
            crate::wire::lemma_grow(base, acc, e);
            acc = acc + e;
            assert(w.out@ =~= base + acc);
        }
        if version >= 1 {
            w.put_f64_raw(self.adventure_start_mode_time);
        }
        proof {
            let e = if version >= 1 { enc_f64_raw(self.adventure_start_mode_time) } else { Seq::<u8>::empty() };
            crate::wire::lemma_grow(base, acc, e);
            acc = acc + e;
            assert(w.out@ =~= base + acc);
        }
        if version >= 1 {
            w.put_string_array(&self.trackmogrify_modifiers)?;
        }
        proof {
            let e = if version >= 1 { enc_array_header(self.trackmogrify_modifiers@.len() as i32) + enc_string_fields(self.trackmogrify_modifiers@) } else { Seq::<u8>::empty() };
            if version >= 1 {
                crate::wire::lemma_grow(base + acc, enc_array_header(self.trackmogrify_modifiers@.len() as i32), enc_string_fields(self.trackmogrify_modifiers@));
            }
            crate::wire::lemma_grow(base, acc, e);
            acc = acc + e;
            assert(w.out@ =~= base + acc);
        }
        proof {
            assert(acc == enc_profile_stats(*self, version));
        }
        Ok(())
    }
    pub fn read(d: &mut Deserializer, version: i32) -> (r: Result<ProfileStats, DecodeError>)
        ensures
            final(d).data == old(d).data,
            final(d).scopes@ == old(d).scopes@,
            old(d).extends(*final(d)),
    {
        let mut x = ProfileStats::default();
        if version >= 0 {
            let psv = d.get_i32(0)?;
            x.accumulated_player_stats = PlayerStats::read(d, psv)?;
        }
        if version >= 0 {
            x.total_play_time = d.get_f64(x.total_play_time)?;
        }
        if version >= 0 {
            x.level_editor_work_time = d.get_f64(x.level_editor_work_time)?;
        }
        if version >= 0 {
            x.level_editor_play_time = d.get_f64(x.level_editor_play_time)?;
        }
        if version >= 0 {
            x.solo_mode_play_times = d.read_f64_array()?;
        }
        if version >= 0 {
            x.splitscreen_mode_play_times = d.read_f64_array()?;
        }
        if version >= 0 {
            x.online_mode_play_times = d.read_f64_array()?;
        }
        if version >= 1 {
            x.adventure_start_mode_time = d.get_f64(x.adventure_start_mode_time)?;
        }
        if version >= 1 {
            x.trackmogrify_modifiers = d.read_string_array()?;
        }
        if version >= 0 {
            x.solo_mode_play_times.resize(17, 0);
            x.splitscreen_mode_play_times.resize(17, 0);
            x.online_mode_play_times.resize(17, 0);
        }
        Ok(x)
    }
}

/// The keys of a progress table are pairwise distinct.
pub open spec fn progress_keys_unique(s: Seq<(WideStr, LevelProgress)>) -> bool {
    forall|i: int, j: int| 0 <= i < j < s.len() ==> (#[trigger] s[i]).0@ != (#[trigger] s[j]).0@
}

/// Insert or replace by key, as a map insert does, keeping keys unique and
/// first-insertion order.
pub fn upsert_progress(
    entries: &mut Vec<(WideStr, LevelProgress)>,
    key: WideStr,
    val: LevelProgress,
)
    requires
        progress_keys_unique(old(entries)@),
    ensures
        progress_keys_unique(final(entries)@),
{
    let n = entries.len();
    let mut i: usize = 0;
    while i < n
        invariant
            i <= n,
            n == entries@.len(),
            progress_keys_unique(entries@),
            forall|j: int| 0 <= j < i ==> (#[trigger] entries@[j]).0@ != key@,
        decreases n - i,
    {
        if crate::component::events::eq_units(&entries[i].0, &key) {
            let ghost olds = entries@;
            entries[i] = (key, val);
            proof {
                assert forall|a: int, b: int|
                    0 <= a < b < entries@.len() implies (#[trigger] entries@[a]).0@ != (
                #[trigger] entries@[b]).0@ by {
                    assert(olds[a].0@ != olds[b].0@);
                }
            }
            return;
        }
        i = i + 1;
    }
    entries.push((key, val));
    proof {
        assert forall|a: int, b: int|
            0 <= a < b < entries@.len() implies (#[trigger] entries@[a]).0@ != (
        #[trigger] entries@[b]).0@ by {
            if b < entries@.len() - 1 {
                assert(old(entries)@[a].0@ != old(entries)@[b].0@);
            }
        }
    }
}

/// Bytes of the progress entries: each key, then its record at the given
/// element version.
pub open spec fn enc_progress_entries(s: Seq<(WideStr, LevelProgress)>, pv: i32) -> Seq<u8> {
    enc_each(s, |p: (WideStr, LevelProgress)| enc_string(p.0@) + enc_level_progress(p.1, pv))
}

/// Every entry's key and record fit the wire.
pub open spec fn progress_entries_encodable(s: Seq<(WideStr, LevelProgress)>, pv: i32) -> bool {
    forall|i: int|
        0 <= i < s.len() ==> string_encodable((#[trigger] s[i]).0@) && level_progress_encodable(
            s[i].1,
            pv,
        )
}

/// Write the progress table: its count, the element version, then the
/// entries.
fn put_progress_entries(
    w: &mut Serializer,
    entries: &Vec<(WideStr, LevelProgress)>,
) -> (r: Result<(), EncodeError>)
    requires
        old(w).wf(),
    ensures
        final(w).wf(),
        final(w).scope_stack@ == old(w).scope_stack@,
        r is Ok <==> entries@.len() <= i32::MAX && progress_entries_encodable(entries@, 1),
        r is Ok ==> final(w).out@ == old(w).out@ + enc_i32_field(entries@.len() as i32)
            + enc_i32_field(1) + enc_progress_entries(entries@, 1),
{
    if entries.len() > i32::MAX as usize {
        return Err(EncodeError::CountTooLarge);
    }
    let n = entries.len();
    let mut i: usize = 0;
    while i < n
        invariant
            i <= n,
            n == entries@.len(),
            w.wf(),
            w.out@ == old(w).out@,
            w.scope_stack@ == old(w).scope_stack@,
            forall|j: int|
                0 <= j < i ==> string_encodable((#[trigger] entries@[j]).0@)
                    && level_progress_encodable(entries@[j].1, 1),
        decreases n - i,
    {
        let e = &entries[i];
        if e.0.units.len() as u64 > 0x3_FFFF_FFFFu64 {
            return Err(EncodeError::StringTooLong);
        }
        if e.1.medals.len() > i32::MAX as usize {
            return Err(EncodeError::CountTooLarge);
        }
        if e.1.top_results.len() > i32::MAX as usize {
            return Err(EncodeError::CountTooLarge);
        }
        match &e.1.last_played_level_version {
            Option::None => {},
            Some(s) => {
                if s.units.len() as u64 > 0x3_FFFF_FFFFu64 {
                    return Err(EncodeError::StringTooLong);
                }
            },
        }
        i = i + 1;
    }
    assert(progress_entries_encodable(entries@, 1));
    w.put_i32_field(n as i32);
    w.put_i32_field(1);
    let ghost base = w.out@;
    let mut i: usize = 0;
    while i < n
        invariant
            i <= n,
            n == entries@.len(),
            progress_entries_encodable(entries@, 1),
            w.wf(),
            w.scope_stack@ == old(w).scope_stack@,
            w.out@ == base + enc_each(
                entries@.take(i as int),
                |p: (WideStr, LevelProgress)| enc_string(p.0@) + enc_level_progress(p.1, 1),
            ),
        decreases n - i,
    {
        let ghost step_base = w.out@;
        let res1 = w.put_string(&entries[i].0);
        proof {
            assert(res1 is Ok);
        }
        let res2 = entries[i].1.write(w, 1);
        proof {
            assert(res2 is Ok);
            crate::wire::lemma_grow(
                step_base,
                enc_string(entries@[i as int].0@),
                enc_level_progress(entries@[i as int].1, 1),
            );
        }
        i = i + 1;
        proof {
            lemma_enc_each_take_snoc(
                entries@,
                |p: (WideStr, LevelProgress)| enc_string(p.0@) + enc_level_progress(p.1, 1),
                i as int,
            );
        }
    }
    proof {
        assert(entries@.take(n as int) =~= entries@);
        crate::wire::lemma_grow(
            base.subrange(0, base.len() - enc_i32_field(1).len() as int),
            enc_i32_field(1),
            enc_progress_entries(entries@, 1),
        );
    }
    Ok(())
}

/// Read the progress table: a missing key is fatal; duplicate keys keep
/// the later record, as a map insert would.
fn read_progress_entries(d: &mut Deserializer) -> (r: Result<
    Vec<(WideStr, LevelProgress)>,
    DecodeError,
>)
    ensures
        final(d).data == old(d).data,
        final(d).scopes@ == old(d).scopes@,
        old(d).extends(*final(d)),
        r matches Ok(entries) ==> progress_keys_unique(entries@),
{
    let count = d.get_i32(0)?;
    let pv = d.get_i32(1)?;
    let mut entries: Vec<(WideStr, LevelProgress)> = Vec::new();
    if count <= 0 {
        return Ok(entries);
    }
    let n = count as usize;
    let mut i: usize = 0;
    while i < n
        invariant
            d.data == old(d).data,
            d.scopes@ == old(d).scopes@,
            old(d).warnings@.is_prefix_of(d.warnings@),
            progress_keys_unique(entries@),
        decreases n - i,
    {
        let key = match d.get_string_field(Option::None)? {
            Some(k) => k,
            Option::None => {
                return Err(DecodeError::MissingDictionaryKey);
            },
        };
        let lp = LevelProgress::read(d, pv)?;
        upsert_progress(&mut entries, key, lp);
        i = i + 1;
    }
    Ok(entries)
}

/// The profile's progression: per-level progress plus unlock state. At
/// versions before 2 the medal count travelled as an `i32` and the
/// adventure-finished count as a flag; the writer emits those legacy slots
/// as its producer did.
#[derive(Debug, Clone, PartialEq, Eq)]
pub struct ProfileProgress {
    /// Per-level progress, keyed by relative level path; keys unique, in
    /// first-insertion order.
    pub relative_level_paths_to_progress: Vec<(WideStr, LevelProgress)>,
    pub total_medal_count: i64,
    pub adventure_index: i32,
    pub finished_adventure_count: i64,
    pub unlocked_levels: Vec<Option<WideStr>>,
    pub total_levels_attempted_count: i64,
    pub total_levels_finished_count: i64,
    pub completed_tricks: Vec<Option<WideStr>>,
    pub unlocked_adventure_levels: Vec<Option<WideStr>>,
    pub finished_lost_to_echoes_count: i64,
    pub unlocked_campaign_plus: bool,
    pub unlocked_lost_to_echoes: bool,
    pub unseen_levels: Vec<Option<WideStr>>,
    pub interceptor_piece_flags: u32,
    pub stored_unseen_car_flags: u32,
    pub crab_flags: u32,
}

impl Default for ProfileProgress {
    fn default() -> (r: Self)
        ensures
            r.relative_level_paths_to_progress@ =~= Seq::<(WideStr, LevelProgress)>::empty(),
            r.total_medal_count == 0 && r.adventure_index == 0 && r.finished_adventure_count == 0,
            r.unlocked_levels@ =~= Seq::<Option<WideStr>>::empty(),
            r.total_levels_attempted_count == 0 && r.total_levels_finished_count == 0,
            r.completed_tricks@ =~= Seq::<Option<WideStr>>::empty(),
            r.unlocked_adventure_levels@ =~= Seq::<Option<WideStr>>::empty(),
            r.finished_lost_to_echoes_count == 0,
            !r.unlocked_campaign_plus && !r.unlocked_lost_to_echoes,
            r.unseen_levels@ =~= Seq::<Option<WideStr>>::empty(),
            r.interceptor_piece_flags == 0 && r.stored_unseen_car_flags == 0 && r.crab_flags == 0,
    {
        ProfileProgress {
            relative_level_paths_to_progress: Vec::new(),
            total_medal_count: 0,
            adventure_index: 0,
            finished_adventure_count: 0,
            unlocked_levels: Vec::new(),
            total_levels_attempted_count: 0,
            total_levels_finished_count: 0,
            completed_tricks: Vec::new(),
            unlocked_adventure_levels: Vec::new(),
            finished_lost_to_echoes_count: 0,
            unlocked_campaign_plus: false,
            unlocked_lost_to_echoes: false,
            unseen_levels: Vec::new(),
            interceptor_piece_flags: 0,
            stored_unseen_car_flags: 0,
            crab_flags: 0,
        }
    }
}

/// Wire bytes of the profile progression at `version`.
pub open spec fn enc_profile_progress(g: ProfileProgress, version: i32) -> Seq<u8> {
    (enc_i32_field(g.relative_level_paths_to_progress@.len() as i32) + enc_i32_field(1) + enc_progress_entries(g.relative_level_paths_to_progress@, 1))
        + (if version < 2 { enc_i32_field(0) } else { Seq::empty() })
        + (if version < 2 { enc_i32_field(g.adventure_index) } else { Seq::empty() })
        + (if version == 1 { enc_bool(false) } else { Seq::empty() })
        + (if version == 1 { enc_array_header(g.unlocked_levels@.len() as i32) + enc_string_fields(g.unlocked_levels@) } else { Seq::empty() })
        + (if version >= 2 { enc_array_header(g.unlocked_levels@.len() as i32) + enc_string_fields(g.unlocked_levels@) } else { Seq::empty() })
        + (if version >= 2 { enc_i64_field(g.total_medal_count) } else { Seq::empty() })
        + (if version >= 2 { enc_i32_field(g.adventure_index) } else { Seq::empty() })
        + (if version >= 2 { enc_i64_field(g.finished_adventure_count) } else { Seq::empty() })
        + (if version >= 2 { enc_i64_field(g.total_levels_attempted_count) } else { Seq::empty() })
        + (if version >= 2 { enc_i64_field(g.total_levels_finished_count) } else { Seq::empty() })
        + (if version >= 3 { enc_array_header(g.completed_tricks@.len() as i32) + enc_string_fields(g.completed_tricks@) } else { Seq::empty() })
        + (if version >= 4 { enc_array_header(g.unlocked_adventure_levels@.len() as i32) + enc_string_fields(g.unlocked_adventure_levels@) } else { Seq::empty() })
        + (if version >= 4 { enc_i64_field(g.finished_lost_to_echoes_count) } else { Seq::empty() })
        + (if version >= 5 { enc_bool(g.unlocked_campaign_plus) } else { Seq::empty() })
        + (if version >= 5 { enc_bool(g.unlocked_lost_to_echoes) } else { Seq::empty() })
        + (if version >= 6 { enc_array_header(g.unseen_levels@.len() as i32) + enc_string_fields(g.unseen_levels@) } else { Seq::empty() })
        + (if version >= 6 { enc_bool(false) } else { Seq::empty() })
        + (if version >= 7 { enc_bool(false) } else { Seq::empty() })
        + (if version >= 7 { enc_bool(false) } else { Seq::empty() })
        + (if version >= 8 { enc_u32_field(g.interceptor_piece_flags) } else { Seq::empty() })
        + (if version >= 9 { enc_u32_field(g.stored_unseen_car_flags) } else { Seq::empty() })
        + (if version >= 11 { enc_u32_field(g.crab_flags) } else { Seq::empty() })
}
/// Every collection and string fits its wire count at this version.
pub open spec fn profile_progress_encodable(g: ProfileProgress, version: i32) -> bool {
    (g.relative_level_paths_to_progress@.len() <= i32::MAX && progress_entries_encodable(g.relative_level_paths_to_progress@, 1))
    && (version == 1 ==> g.unlocked_levels@.len() <= i32::MAX && string_fields_encodable(g.unlocked_levels@))
    && (version >= 2 ==> g.unlocked_levels@.len() <= i32::MAX && string_fields_encodable(g.unlocked_levels@))
    && (version >= 3 ==> g.completed_tricks@.len() <= i32::MAX && string_fields_encodable(g.completed_tricks@))
    && (version >= 4 ==> g.unlocked_adventure_levels@.len() <= i32::MAX && string_fields_encodable(g.unlocked_adventure_levels@))
    && (version >= 6 ==> g.unseen_levels@.len() <= i32::MAX && string_fields_encodable(g.unseen_levels@))
}

impl ProfileProgress {
    /// Current schema version.
    pub fn version() -> (v: i32)
        ensures
            v == 11,
    {
        11
    }

    #[verifier::rlimit(100)]
    #[verifier::spinoff_prover]
    pub fn write(&self, w: &mut Serializer, version: i32) -> (r: Result<(), EncodeError>)
        requires
            old(w).wf(),
        ensures
            final(w).wf(),
            final(w).scope_stack@ == old(w).scope_stack@,
            r is Ok <==> profile_progress_encodable(*self, version),
            r is Ok ==> final(w).out@ == old(w).out@ + enc_profile_progress(*self, version),
    {
        let ghost base = w.out@;
        let ghost mut acc = Seq::<u8>::empty();
        proof {
            assert(w.out@ =~= base + acc);
        }
        put_progress_entries(w, &self.relative_level_paths_to_progress)?;
        proof {
            let e = enc_i32_field(self.relative_level_paths_to_progress@.len() as i32) + enc_i32_field(1) + enc_progress_entries(self.relative_level_paths_to_progress@, 1);
            crate::wire::lemma_grow(base, acc, e);
            acc = acc + e;
            assert(w.out@ =~= base + acc);
        }
        if version < 2 {
            w.put_i32_field(0);
        }
        proof {
            let e = if version < 2 { enc_i32_field(0) } else { Seq::<u8>::empty() };
            crate::wire::lemma_grow(base, acc, e);
            acc = acc + e;
            assert(w.out@ =~= base + acc);
        }
        if version < 2 {
            w.put_i32_field(self.adventure_index);
        }
        proof {
            let e = if version < 2 { enc_i32_field(self.adventure_index) } else { Seq::<u8>::empty() };
            crate::wire::lemma_grow(base, acc, e);
            acc = acc + e;
            assert(w.out@ =~= base + acc);
        }
        if version == 1 {
            w.put_bool(false);
        }
        proof {
            let e = if version == 1 { enc_bool(false) } else { Seq::<u8>::empty() };
            crate::wire::lemma_grow(base, acc, e);
            acc = acc + e;
            assert(w.out@ =~= base + acc);
        }
        if version == 1 {
            w.put_string_array(&self.unlocked_levels)?;
        }
        proof {
            let e = if version == 1 { enc_array_header(self.unlocked_levels@.len() as i32) + enc_string_fields(self.unlocked_levels@) } else { Seq::<u8>::empty() };
            if version == 1 {
                crate::wire::lemma_grow(base + acc, enc_array_header(self.unlocked_levels@.len() as i32), enc_string_fields(self.unlocked_levels@));
            }
            crate::wire::lemma_grow(base, acc, e);
            acc = acc + e;
            assert(w.out@ =~= base + acc);
        }
        if version >= 2 {
            w.put_string_array(&self.unlocked_levels)?;
        }
        proof {
            let e = if version >= 2 { enc_array_header(self.unlocked_levels@.len() as i32) + enc_string_fields(self.unlocked_levels@) } else { Seq::<u8>::empty() };
            if version >= 2 {
                crate::wire::lemma_grow(base + acc, enc_array_header(self.unlocked_levels@.len() as i32), enc_string_fields(self.unlocked_levels@));
            }
            crate::wire::lemma_grow(base, acc, e);
            acc = acc + e;
            assert(w.out@ =~= base + acc);
        }
        if version >= 2 {
            w.put_i64_field(self.total_medal_count);
        }
        proof {
            let e = if version >= 2 { enc_i64_field(self.total_medal_count) } else { Seq::<u8>::empty() };
            crate::wire::lemma_grow(base, acc, e);
            acc = acc + e;
            assert(w.out@ =~= base + acc);
        }
        if version >= 2 {
            w.put_i32_field(self.adventure_index);
        }
        proof {
            let e = if version >= 2 { enc_i32_field(self.adventure_index) } else { Seq::<u8>::empty() };
            crate::wire::lemma_grow(base, acc, e);
            acc = acc + e;
            assert(w.out@ =~= base + acc);
        }
        if version >= 2 {
            w.put_i64_field(self.finished_adventure_count);
        }
        proof {
            let e = if version >= 2 { enc_i64_field(self.finished_adventure_count) } else { Seq::<u8>::empty() };
            crate::wire::lemma_grow(base, acc, e);
            acc = acc + e;
            assert(w.out@ =~= base + acc);
        }
        if version >= 2 {
            w.put_i64_field(self.total_levels_attempted_count);
        }
        proof {
            let e = if version >= 2 { enc_i64_field(self.total_levels_attempted_count) } else { Seq::<u8>::empty() };
            crate::wire::lemma_grow(base, acc, e);
            acc = acc + e;
            assert(w.out@ =~= base + acc);
        }
        if version >= 2 {
            w.put_i64_field(self.total_levels_finished_count);
        }
        proof {
            let e = if version >= 2 { enc_i64_field(self.total_levels_finished_count) } else { Seq::<u8>::empty() };
            crate::wire::lemma_grow(base, acc, e);
            acc = acc + e;
            assert(w.out@ =~= base + acc);
        }
        if version >= 3 {
            w.put_string_array(&self.completed_tricks)?;
        }
        proof {
            let e = if version >= 3 { enc_array_header(self.completed_tricks@.len() as i32) + enc_string_fields(self.completed_tricks@) } else { Seq::<u8>::empty() };
            if version >= 3 {
                crate::wire::lemma_grow(base + acc, enc_array_header(self.completed_tricks@.len() as i32), enc_string_fields(self.completed_tricks@));
            }
            crate::wire::lemma_grow(base, acc, e);
            acc = acc + e;
            assert(w.out@ =~= base + acc);
        }
        if version >= 4 {
            w.put_string_array(&self.unlocked_adventure_levels)?;
        }
        proof {
            let e = if version >= 4 { enc_array_header(self.unlocked_adventure_levels@.len() as i32) + enc_string_fields(self.unlocked_adventure_levels@) } else { Seq::<u8>::empty() };
            if version >= 4 {
                crate::wire::lemma_grow(base + acc, enc_array_header(self.unlocked_adventure_levels@.len() as i32), enc_string_fields(self.unlocked_adventure_levels@));
            }
            crate::wire::lemma_grow(base, acc, e);
            acc = acc + e;
            assert(w.out@ =~= base + acc);
        }
        if version >= 4 {
            w.put_i64_field(self.finished_lost_to_echoes_count);
        }
        proof {
            let e = if version >= 4 { enc_i64_field(self.finished_lost_to_echoes_count) } else { Seq::<u8>::empty() };
            crate::wire::lemma_grow(base, acc, e);
            acc = acc + e;
            assert(w.out@ =~= base + acc);
        }
        if version >= 5 {
            w.put_bool(self.unlocked_campaign_plus);
        }
        proof {
            let e = if version >= 5 { enc_bool(self.unlocked_campaign_plus) } else { Seq::<u8>::empty() };
            crate::wire::lemma_grow(base, acc, e);
            acc = acc + e;
            assert(w.out@ =~= base + acc);
        }
        if version >= 5 {
            w.put_bool(self.unlocked_lost_to_echoes);
        }
        proof {
            let e = if version >= 5 { enc_bool(self.unlocked_lost_to_echoes) } else { Seq::<u8>::empty() };
            crate::wire::lemma_grow(base, acc, e);
            acc = acc + e;
            assert(w.out@ =~= base + acc);
        }
        if version >= 6 {
            w.put_string_array(&self.unseen_levels)?;
        }
        proof {
            let e = if version >= 6 { enc_array_header(self.unseen_levels@.len() as i32) + enc_string_fields(self.unseen_levels@) } else { Seq::<u8>::empty() };
            if version >= 6 {
                crate::wire::lemma_grow(base + acc, enc_array_header(self.unseen_levels@.len() as i32), enc_string_fields(self.unseen_levels@));
            }
            crate::wire::lemma_grow(base, acc, e);
            acc = acc + e;
            assert(w.out@ =~= base + acc);
        }
        if version >= 6 {
            w.put_bool(false);
        }
        proof {
            let e = if version >= 6 { enc_bool(false) } else { Seq::<u8>::empty() };
            crate::wire::lemma_grow(base, acc, e);
            acc = acc + e;
            assert(w.out@ =~= base + acc);
        }
        if version >= 7 {
            w.put_bool(false);
        }
        proof {
            let e = if version >= 7 { enc_bool(false) } else { Seq::<u8>::empty() };
            crate::wire::lemma_grow(base, acc, e);
            acc = acc + e;
            assert(w.out@ =~= base + acc);
        }
        if version >= 7 {
            w.put_bool(false);
        }
        proof {
            let e = if version >= 7 { enc_bool(false) } else { Seq::<u8>::empty() };
            crate::wire::lemma_grow(base, acc, e);
            acc = acc + e;
            assert(w.out@ =~= base + acc);
        }
        if version >= 8 {
            w.put_u32_field(self.interceptor_piece_flags);
        }
        proof {
            let e = if version >= 8 { enc_u32_field(self.interceptor_piece_flags) } else { Seq::<u8>::empty() };
            crate::wire::lemma_grow(base, acc, e);
            acc = acc + e;
            assert(w.out@ =~= base + acc);
        }
        if version >= 9 {
            w.put_u32_field(self.stored_unseen_car_flags);
        }
        proof {
            let e = if version >= 9 { enc_u32_field(self.stored_unseen_car_flags) } else { Seq::<u8>::empty() };
            crate::wire::lemma_grow(base, acc, e);
            acc = acc + e;
            assert(w.out@ =~= base + acc);
        }
        if version >= 11 {
            w.put_u32_field(self.crab_flags);
        }
        proof {
            let e = if version >= 11 { enc_u32_field(self.crab_flags) } else { Seq::<u8>::empty() };
            crate::wire::lemma_grow(base, acc, e);
            acc = acc + e;
            assert(w.out@ =~= base + acc);
        }
        proof {
            assert(acc == enc_profile_progress(*self, version));
        }
        Ok(())
    }
    pub fn read(d: &mut Deserializer, version: i32) -> (r: Result<ProfileProgress, DecodeError>)
        ensures
            final(d).data == old(d).data,
            final(d).scopes@ == old(d).scopes@,
            old(d).extends(*final(d)),
    {
        let mut x = ProfileProgress::default();
        x.relative_level_paths_to_progress = read_progress_entries(d)?;
        if version < 2 {
            let _ = d.get_i32(0)?;
        }
        if version < 2 {
            x.adventure_index = d.get_i32(x.adventure_index)?;
        }
        if version == 1 {
            let f = d.get_bool(false)?;
            x.finished_adventure_count = if f { 1 } else { 0 };
        }
        if version == 1 {
            x.unlocked_levels = d.read_string_array()?;
        }
        if version >= 2 {
            x.unlocked_levels = d.read_string_array()?;
        }
        if version >= 2 {
            x.total_medal_count = d.get_i64(x.total_medal_count)?;
        }
        if version >= 2 {
            x.adventure_index = d.get_i32(x.adventure_index)?;
        }
        if version >= 2 {
            x.finished_adventure_count = d.get_i64(x.finished_adventure_count)?;
        }
        if version >= 2 {
            x.total_levels_attempted_count = d.get_i64(x.total_levels_attempted_count)?;
        }
        if version >= 2 {
            x.total_levels_finished_count = d.get_i64(x.total_levels_finished_count)?;
        }
        if version >= 3 {
            x.completed_tricks = d.read_string_array()?;
        }
        if version >= 4 {
            x.unlocked_adventure_levels = d.read_string_array()?;
        }
        if version >= 4 {
            x.finished_lost_to_echoes_count = d.get_i64(x.finished_lost_to_echoes_count)?;
        }
        if version >= 5 {
            x.unlocked_campaign_plus = d.get_bool(x.unlocked_campaign_plus)?;
        }
        if version >= 5 {
            x.unlocked_lost_to_echoes = d.get_bool(x.unlocked_lost_to_echoes)?;
        }
        if version >= 6 {
            x.unseen_levels = d.read_string_array()?;
        }
        if version >= 6 {
            let _ = d.get_bool(false)?;
        }
        if version >= 7 {
            let _ = d.get_bool(false)?;
        }
        if version >= 7 {
            let _ = d.get_bool(false)?;
        }
        if version >= 8 {
            x.interceptor_piece_flags = d.get_u32(x.interceptor_piece_flags)?;
        }
        if version >= 9 {
            x.stored_unseen_car_flags = d.get_u32(x.stored_unseen_car_flags)?;
        }
        if version >= 11 {
            x.crab_flags = d.get_u32(x.crab_flags)?;
        }
        Ok(x)
    }
}

} // verus!
