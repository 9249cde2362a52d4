//! The small wire enums: each is carried as an `i32` through its integer
//! mapping, which is part of the wire format.

use vstd::prelude::*;

verus! {


/// Spec of [`AnimatorBaseCurveType::opposite`].
pub open spec fn spec_curve_opposite(v: AnimatorBaseCurveType) -> AnimatorBaseCurveType {
    match v {
        AnimatorBaseCurveType::EaseIn => AnimatorBaseCurveType::EaseOut,
        AnimatorBaseCurveType::EaseOut => AnimatorBaseCurveType::EaseIn,
        AnimatorBaseCurveType::Quadratic => AnimatorBaseCurveType::InverseQuadratic,
        AnimatorBaseCurveType::InverseQuadratic => AnimatorBaseCurveType::Quadratic,
        other => other,
    }
}

/// The swap is its own inverse: two return legs lead back to the curve
/// itself.
pub proof fn lemma_curve_opposite_involutive(v: AnimatorBaseCurveType)
    ensures
        spec_curve_opposite(spec_curve_opposite(v)) == v,
{
}

/// Completion medal of a level mode.
#[derive(Debug, Clone, Copy, PartialEq, Eq, Hash, Structural)]
pub enum MedalStatus {
    NoneValue,
    DidNotFinish,
    Completed,
    Bronze,
    Silver,
    Gold,
    Diamond,
    Count,
}

/// The wire integer of a `MedalStatus`.
pub open spec fn spec_medal_status_i32(v: MedalStatus) -> i32 {
    match v {
        MedalStatus::NoneValue => 0,
        MedalStatus::DidNotFinish => 1,
        MedalStatus::Completed => 2,
        MedalStatus::Bronze => 3,
        MedalStatus::Silver => 4,
        MedalStatus::Gold => 5,
        MedalStatus::Diamond => 6,
        MedalStatus::Count => 7,
    }
}

/// The `MedalStatus` a wire integer denotes, if any.
pub open spec fn spec_medal_status_from_i32(n: int) -> Option<MedalStatus> {
    if n == 0 {
        Some(MedalStatus::NoneValue)
    } else if n == 1 {
        Some(MedalStatus::DidNotFinish)
    } else if n == 2 {
        Some(MedalStatus::Completed)
    } else if n == 3 {
        Some(MedalStatus::Bronze)
    } else if n == 4 {
        Some(MedalStatus::Silver)
    } else if n == 5 {
        Some(MedalStatus::Gold)
    } else if n == 6 {
        Some(MedalStatus::Diamond)
    } else if n == 7 {
        Some(MedalStatus::Count)
    } else {
        Option::None
    }
}

impl MedalStatus {
    pub fn to_i32(self) -> (r: i32)
        ensures
            r == spec_medal_status_i32(self),
    {
        match self {
            MedalStatus::NoneValue => 0,
            MedalStatus::DidNotFinish => 1,
            MedalStatus::Completed => 2,
            MedalStatus::Bronze => 3,
            MedalStatus::Silver => 4,
            MedalStatus::Gold => 5,
            MedalStatus::Diamond => 6,
            MedalStatus::Count => 7,
        }
    }

    pub fn from_i32(n: i32) -> (r: Option<MedalStatus>)
        ensures
            r == spec_medal_status_from_i32(n as int),
    {
        if n == 0 {
            Some(MedalStatus::NoneValue)
        } else if n == 1 {
            Some(MedalStatus::DidNotFinish)
        } else if n == 2 {
            Some(MedalStatus::Completed)
        } else if n == 3 {
            Some(MedalStatus::Bronze)
        } else if n == 4 {
            Some(MedalStatus::Silver)
        } else if n == 5 {
            Some(MedalStatus::Gold)
        } else if n == 6 {
            Some(MedalStatus::Diamond)
        } else if n == 7 {
            Some(MedalStatus::Count)
        } else {
            Option::None
        }
    }
}

impl Default for MedalStatus {
    fn default() -> (r: Self)
        ensures
            r == MedalStatus::NoneValue,
    {
        MedalStatus::NoneValue
    }
}

/// Declared difficulty of a level.
#[derive(Debug, Clone, Copy, PartialEq, Eq, Hash, Structural)]
pub enum LevelDifficulty {
    Casual,
    Normal,
    Advanced,
    Expert,
    Nightmare,
    NoneValue,
}

/// The wire integer of a `LevelDifficulty`.
pub open spec fn spec_level_difficulty_i32(v: LevelDifficulty) -> i32 {
    match v {
        LevelDifficulty::Casual => 0,
        LevelDifficulty::Normal => 1,
        LevelDifficulty::Advanced => 2,
        LevelDifficulty::Expert => 3,
        LevelDifficulty::Nightmare => 4,
        LevelDifficulty::NoneValue => 5,
    }
}

/// The `LevelDifficulty` a wire integer denotes, if any.
pub open spec fn spec_level_difficulty_from_i32(n: int) -> Option<LevelDifficulty> {
    if n == 0 {
        Some(LevelDifficulty::Casual)
    } else if n == 1 {
        Some(LevelDifficulty::Normal)
    } else if n == 2 {
        Some(LevelDifficulty::Advanced)
    } else if n == 3 {
        Some(LevelDifficulty::Expert)
    } else if n == 4 {
        Some(LevelDifficulty::Nightmare)
    } else if n == 5 {
        Some(LevelDifficulty::NoneValue)
    } else {
        Option::None
    }
}

impl LevelDifficulty {
    pub fn to_i32(self) -> (r: i32)
        ensures
            r == spec_level_difficulty_i32(self),
    {
        match self {
            LevelDifficulty::Casual => 0,
            LevelDifficulty::Normal => 1,
            LevelDifficulty::Advanced => 2,
            LevelDifficulty::Expert => 3,
            LevelDifficulty::Nightmare => 4,
            LevelDifficulty::NoneValue => 5,
        }
    }

    pub fn from_i32(n: i32) -> (r: Option<LevelDifficulty>)
        ensures
            r == spec_level_difficulty_from_i32(n as int),
    {
        if n == 0 {
            Some(LevelDifficulty::Casual)
        } else if n == 1 {
            Some(LevelDifficulty::Normal)
        } else if n == 2 {
            Some(LevelDifficulty::Advanced)
        } else if n == 3 {
            Some(LevelDifficulty::Expert)
        } else if n == 4 {
            Some(LevelDifficulty::Nightmare)
        } else if n == 5 {
            Some(LevelDifficulty::NoneValue)
        } else {
            Option::None
        }
    }
}

impl Default for LevelDifficulty {
    fn default() -> (r: Self)
        ensures
            r == LevelDifficulty::Casual,
    {
        LevelDifficulty::Casual
    }
}

/// Where a level comes from.
#[derive(Debug, Clone, Copy, PartialEq, Eq, Hash, Structural)]
pub enum LevelType {
    NoneValue,
    Example,
    Official,
    Workshop,
    My,
    Levels,
    Community,
    Count,
}

/// The wire integer of a `LevelType`.
pub open spec fn spec_level_type_i32(v: LevelType) -> i32 {
    match v {
        LevelType::NoneValue => 0,
        LevelType::Example => 1,
        LevelType::Official => 2,
        LevelType::Workshop => 3,
        LevelType::My => 4,
        LevelType::Levels => 5,
        LevelType::Community => 6,
        LevelType::Count => 7,
    }
}

/// The `LevelType` a wire integer denotes, if any.
pub open spec fn spec_level_type_from_i32(n: int) -> Option<LevelType> {
    if n == 0 {
        Some(LevelType::NoneValue)
    } else if n == 1 {
        Some(LevelType::Example)
    } else if n == 2 {
        Some(LevelType::Official)
    } else if n == 3 {
        Some(LevelType::Workshop)
    } else if n == 4 {
        Some(LevelType::My)
    } else if n == 5 {
        Some(LevelType::Levels)
    } else if n == 6 {
        Some(LevelType::Community)
    } else if n == 7 {
        Some(LevelType::Count)
    } else {
        Option::None
    }
}

impl LevelType {
    pub fn to_i32(self) -> (r: i32)
        ensures
            r == spec_level_type_i32(self),
    {
        match self {
            LevelType::NoneValue => 0,
            LevelType::Example => 1,
            LevelType::Official => 2,
            LevelType::Workshop => 3,
            LevelType::My => 4,
            LevelType::Levels => 5,
            LevelType::Community => 6,
            LevelType::Count => 7,
        }
    }

    pub fn from_i32(n: i32) -> (r: Option<LevelType>)
        ensures
            r == spec_level_type_from_i32(n as int),
    {
        if n == 0 {
            Some(LevelType::NoneValue)
        } else if n == 1 {
            Some(LevelType::Example)
        } else if n == 2 {
            Some(LevelType::Official)
        } else if n == 3 {
            Some(LevelType::Workshop)
        } else if n == 4 {
            Some(LevelType::My)
        } else if n == 5 {
            Some(LevelType::Levels)
        } else if n == 6 {
            Some(LevelType::Community)
        } else if n == 7 {
            Some(LevelType::Count)
        } else {
            Option::None
        }
    }
}

impl Default for LevelType {
    fn default() -> (r: Self)
        ensures
            r == LevelType::NoneValue,
    {
        LevelType::NoneValue
    }
}

/// Music cue a level starts with.
#[derive(Debug, Clone, Copy, PartialEq, Eq, Hash, Structural)]
pub enum MusicCueId {
    NoneValue,
    Grime,
    Engage,
    KaBamSon,
    Momenta,
    TheAlliance,
    Continuum,
    Drive,
    GroundZero,
    ColdWind,
    Halloween,
    Corruption,
    Storm,
    The_Tunnel,
    Darkness_Intense,
    WereLivingInASociety,
    RandomChordSomething,
    Aftermath,
    TheMonolith,
    FadedAway,
    DarknessSlight,
    Spectrum,
    GZLight,
    GZGate,
    GZInsane,
    CarolOfTheBells,
    DigitalApathy,
    TheManor,
    DevValue_,
    FFTTestLoop,
    IntroCutscene,
    AftermathLoop,
    Continuum2,
    GZInsaneSlow,
    TunnelHorror,
    SpectrumSlow,
    IntroCutsceneV2,
    NewBSAmbient,
    Convolution,
    Forge,
    DarknessIntenseV2,
    NSFinalBoot,
    Scratch,
    Flip,
    NegativeSpace,
    Abstraction,
    ForgeLoop,
    GrimeLoop,
    AbstractionLoop,
    AbstractionStrings,
    AbstractionStringsDU,
    DUEnding,
    AbandonedUtopia,
    DeeperIntoTheVoid,
    Low,
    Ambient2,
    EchoesIntro,
    TepidPants,
    Violent,
    Belly,
    Perfect,
    Sentinel,
    EchoesStorm,
    Void,
    Isolation,
    IsolationReturn,
    SecretTeleport,
    Echoes,
    EnemyIntro,
    DarkWind,
    Machine17,
    Machine17Remix,
    Observatory,
    Resonance,
    Deterence,
    Terminus,
    Mobilization,
    Collapse,
    TheOtherSide,
    twoHOTtwoPANTS,
    TotalCount_,
}

/// The wire integer of a `MusicCueId`.
pub open spec fn spec_music_cue_id_i32(v: MusicCueId) -> i32 {
    match v {
        MusicCueId::NoneValue => 0,
        MusicCueId::Grime => 1,
        MusicCueId::Engage => 2,
        MusicCueId::KaBamSon => 3,
        MusicCueId::Momenta => 4,
        MusicCueId::TheAlliance => 5,
        MusicCueId::Continuum => 6,
        MusicCueId::Drive => 7,
        MusicCueId::GroundZero => 8,
        MusicCueId::ColdWind => 9,
        MusicCueId::Halloween => 10,
        MusicCueId::Corruption => 11,
        MusicCueId::Storm => 12,
        MusicCueId::The_Tunnel => 15,
        MusicCueId::Darkness_Intense => 16,
        MusicCueId::WereLivingInASociety => 17,
        MusicCueId::RandomChordSomething => 18,
        MusicCueId::Aftermath => 19,
        MusicCueId::TheMonolith => 20,
        MusicCueId::FadedAway => 26,
        MusicCueId::DarknessSlight => 27,
        MusicCueId::Spectrum => 28,
        MusicCueId::GZLight => 29,
        MusicCueId::GZGate => 30,
        MusicCueId::GZInsane => 31,
        MusicCueId::CarolOfTheBells => 32,
        MusicCueId::DigitalApathy => 33,
        MusicCueId::TheManor => 34,
        MusicCueId::DevValue_ => 1000,
        MusicCueId::FFTTestLoop => 1001,
        MusicCueId::IntroCutscene => 1002,
        MusicCueId::AftermathLoop => 1003,
        MusicCueId::Continuum2 => 1004,
        MusicCueId::GZInsaneSlow => 1005,
        MusicCueId::TunnelHorror => 1006,
        MusicCueId::SpectrumSlow => 1007,
        MusicCueId::IntroCutsceneV2 => 1008,
        MusicCueId::NewBSAmbient => 1009,
        MusicCueId::Convolution => 1010,
        MusicCueId::Forge => 1011,
        MusicCueId::DarknessIntenseV2 => 1012,
        MusicCueId::NSFinalBoot => 1013,
        MusicCueId::Scratch => 1014,
        MusicCueId::Flip => 1015,
        MusicCueId::NegativeSpace => 1016,
        MusicCueId::Abstraction => 1017,
        MusicCueId::ForgeLoop => 1018,
        MusicCueId::GrimeLoop => 1019,
        MusicCueId::AbstractionLoop => 1020,
        MusicCueId::AbstractionStrings => 1021,
        MusicCueId::AbstractionStringsDU => 1022,
        MusicCueId::DUEnding => 1023,
        MusicCueId::AbandonedUtopia => 1024,
        MusicCueId::DeeperIntoTheVoid => 1025,
        MusicCueId::Low => 1026,
        MusicCueId::Ambient2 => 1027,
        MusicCueId::EchoesIntro => 1028,
        MusicCueId::TepidPants => 1029,
        MusicCueId::Violent => 1030,
        MusicCueId::Belly => 1031,
        MusicCueId::Perfect => 1032,
        MusicCueId::Sentinel => 1033,
        MusicCueId::EchoesStorm => 1034,
        MusicCueId::Void => 1035,
        MusicCueId::Isolation => 1036,
        MusicCueId::IsolationReturn => 1037,
        MusicCueId::SecretTeleport => 1038,
        MusicCueId::Echoes => 1040,
        MusicCueId::EnemyIntro => 1041,
        MusicCueId::DarkWind => 1042,
        MusicCueId::Machine17 => 1043,
        MusicCueId::Machine17Remix => 1044,
        MusicCueId::Observatory => 1045,
        MusicCueId::Resonance => 1046,
        MusicCueId::Deterence => 1047,
        MusicCueId::Terminus => 1048,
        MusicCueId::Mobilization => 1049,
        MusicCueId::Collapse => 1050,
        MusicCueId::TheOtherSide => 1051,
        MusicCueId::twoHOTtwoPANTS => 1052,
        MusicCueId::TotalCount_ => 1053,
    }
}

/// The `MusicCueId` a wire integer denotes, if any.
pub open spec fn spec_music_cue_id_from_i32(n: int) -> Option<MusicCueId> {
    if n == 0 {
        Some(MusicCueId::NoneValue)
    } else if n == 1 {
        Some(MusicCueId::Grime)
    } else if n == 2 {
        Some(MusicCueId::Engage)
    } else if n == 3 {
        Some(MusicCueId::KaBamSon)
    } else if n == 4 {
        Some(MusicCueId::Momenta)
    } else if n == 5 {
        Some(MusicCueId::TheAlliance)
    } else if n == 6 {
        Some(MusicCueId::Continuum)
    } else if n == 7 {
        Some(MusicCueId::Drive)
    } else if n == 8 {
        Some(MusicCueId::GroundZero)
    } else if n == 9 {
        Some(MusicCueId::ColdWind)
    } else if n == 10 {
        Some(MusicCueId::Halloween)
    } else if n == 11 {
        Some(MusicCueId::Corruption)
    } else if n == 12 {
        Some(MusicCueId::Storm)
    } else if n == 15 {
        Some(MusicCueId::The_Tunnel)
    } else if n == 16 {
        Some(MusicCueId::Darkness_Intense)
    } else if n == 17 {
        Some(MusicCueId::WereLivingInASociety)
    } else if n == 18 {
        Some(MusicCueId::RandomChordSomething)
    } else if n == 19 {
        Some(MusicCueId::Aftermath)
    } else if n == 20 {
        Some(MusicCueId::TheMonolith)
    } else if n == 26 {
        Some(MusicCueId::FadedAway)
    } else if n == 27 {
        Some(MusicCueId::DarknessSlight)
    } else if n == 28 {
        Some(MusicCueId::Spectrum)
    } else if n == 29 {
        Some(MusicCueId::GZLight)
    } else if n == 30 {
        Some(MusicCueId::GZGate)
    } else if n == 31 {
        Some(MusicCueId::GZInsane)
    } else if n == 32 {
        Some(MusicCueId::CarolOfTheBells)
    } else if n == 33 {
        Some(MusicCueId::DigitalApathy)
    } else if n == 34 {
        Some(MusicCueId::TheManor)
    } else if n == 1000 {
        Some(MusicCueId::DevValue_)
    } else if n == 1001 {
        Some(MusicCueId::FFTTestLoop)
    } else if n == 1002 {
        Some(MusicCueId::IntroCutscene)
    } else if n == 1003 {
        Some(MusicCueId::AftermathLoop)
    } else if n == 1004 {
        Some(MusicCueId::Continuum2)
    } else if n == 1005 {
        Some(MusicCueId::GZInsaneSlow)
    } else if n == 1006 {
        Some(MusicCueId::TunnelHorror)
    } else if n == 1007 {
        Some(MusicCueId::SpectrumSlow)
    } else if n == 1008 {
        Some(MusicCueId::IntroCutsceneV2)
    } else if n == 1009 {
        Some(MusicCueId::NewBSAmbient)
    } else if n == 1010 {
        Some(MusicCueId::Convolution)
    } else if n == 1011 {
        Some(MusicCueId::Forge)
    } else if n == 1012 {
        Some(MusicCueId::DarknessIntenseV2)
    } else if n == 1013 {
        Some(MusicCueId::NSFinalBoot)
    } else if n == 1014 {
        Some(MusicCueId::Scratch)
    } else if n == 1015 {
        Some(MusicCueId::Flip)
    } else if n == 1016 {
        Some(MusicCueId::NegativeSpace)
    } else if n == 1017 {
        Some(MusicCueId::Abstraction)
    } else if n == 1018 {
        Some(MusicCueId::ForgeLoop)
    } else if n == 1019 {
        Some(MusicCueId::GrimeLoop)
    } else if n == 1020 {
        Some(MusicCueId::AbstractionLoop)
    } else if n == 1021 {
        Some(MusicCueId::AbstractionStrings)
    } else if n == 1022 {
        Some(MusicCueId::AbstractionStringsDU)
    } else if n == 1023 {
        Some(MusicCueId::DUEnding)
    } else if n == 1024 {
        Some(MusicCueId::AbandonedUtopia)
    } else if n == 1025 {
        Some(MusicCueId::DeeperIntoTheVoid)
    } else if n == 1026 {
        Some(MusicCueId::Low)
    } else if n == 1027 {
        Some(MusicCueId::Ambient2)
    } else if n == 1028 {
        Some(MusicCueId::EchoesIntro)
    } else if n == 1029 {
        Some(MusicCueId::TepidPants)
    } else if n == 1030 {
        Some(MusicCueId::Violent)
    } else if n == 1031 {
        Some(MusicCueId::Belly)
    } else if n == 1032 {
        Some(MusicCueId::Perfect)
    } else if n == 1033 {
        Some(MusicCueId::Sentinel)
    } else if n == 1034 {
        Some(MusicCueId::EchoesStorm)
    } else if n == 1035 {
        Some(MusicCueId::Void)
    } else if n == 1036 {
        Some(MusicCueId::Isolation)
    } else if n == 1037 {
        Some(MusicCueId::IsolationReturn)
    } else if n == 1038 {
        Some(MusicCueId::SecretTeleport)
    } else if n == 1040 {
        Some(MusicCueId::Echoes)
    } else if n == 1041 {
        Some(MusicCueId::EnemyIntro)
    } else if n == 1042 {
        Some(MusicCueId::DarkWind)
    } else if n == 1043 {
        Some(MusicCueId::Machine17)
    } else if n == 1044 {
        Some(MusicCueId::Machine17Remix)
    } else if n == 1045 {
        Some(MusicCueId::Observatory)
    } else if n == 1046 {
        Some(MusicCueId::Resonance)
    } else if n == 1047 {
        Some(MusicCueId::Deterence)
    } else if n == 1048 {
        Some(MusicCueId::Terminus)
    } else if n == 1049 {
        Some(MusicCueId::Mobilization)
    } else if n == 1050 {
        Some(MusicCueId::Collapse)
    } else if n == 1051 {
        Some(MusicCueId::TheOtherSide)
    } else if n == 1052 {
        Some(MusicCueId::twoHOTtwoPANTS)
    } else if n == 1053 {
        Some(MusicCueId::TotalCount_)
    } else {
        Option::None
    }
}

impl MusicCueId {
    pub fn to_i32(self) -> (r: i32)
        ensures
            r == spec_music_cue_id_i32(self),
    {
        match self {
            MusicCueId::NoneValue => 0,
            MusicCueId::Grime => 1,
            MusicCueId::Engage => 2,
            MusicCueId::KaBamSon => 3,
            MusicCueId::Momenta => 4,
            MusicCueId::TheAlliance => 5,
            MusicCueId::Continuum => 6,
            MusicCueId::Drive => 7,
            MusicCueId::GroundZero => 8,
            MusicCueId::ColdWind => 9,
            MusicCueId::Halloween => 10,
            MusicCueId::Corruption => 11,
            MusicCueId::Storm => 12,
            MusicCueId::The_Tunnel => 15,
            MusicCueId::Darkness_Intense => 16,
            MusicCueId::WereLivingInASociety => 17,
            MusicCueId::RandomChordSomething => 18,
            MusicCueId::Aftermath => 19,
            MusicCueId::TheMonolith => 20,
            MusicCueId::FadedAway => 26,
            MusicCueId::DarknessSlight => 27,
            MusicCueId::Spectrum => 28,
            MusicCueId::GZLight => 29,
            MusicCueId::GZGate => 30,
            MusicCueId::GZInsane => 31,
            MusicCueId::CarolOfTheBells => 32,
            MusicCueId::DigitalApathy => 33,
            MusicCueId::TheManor => 34,
            MusicCueId::DevValue_ => 1000,
            MusicCueId::FFTTestLoop => 1001,
            MusicCueId::IntroCutscene => 1002,
            MusicCueId::AftermathLoop => 1003,
            MusicCueId::Continuum2 => 1004,
            MusicCueId::GZInsaneSlow => 1005,
            MusicCueId::TunnelHorror => 1006,
            MusicCueId::SpectrumSlow => 1007,
            MusicCueId::IntroCutsceneV2 => 1008,
            MusicCueId::NewBSAmbient => 1009,
            MusicCueId::Convolution => 1010,
            MusicCueId::Forge => 1011,
            MusicCueId::DarknessIntenseV2 => 1012,
            MusicCueId::NSFinalBoot => 1013,
            MusicCueId::Scratch => 1014,
            MusicCueId::Flip => 1015,
            MusicCueId::NegativeSpace => 1016,
            MusicCueId::Abstraction => 1017,
            MusicCueId::ForgeLoop => 1018,
            MusicCueId::GrimeLoop => 1019,
            MusicCueId::AbstractionLoop => 1020,
            MusicCueId::AbstractionStrings => 1021,
            MusicCueId::AbstractionStringsDU => 1022,
            MusicCueId::DUEnding => 1023,
            MusicCueId::AbandonedUtopia => 1024,
            MusicCueId::DeeperIntoTheVoid => 1025,
            MusicCueId::Low => 1026,
            MusicCueId::Ambient2 => 1027,
            MusicCueId::EchoesIntro => 1028,
            MusicCueId::TepidPants => 1029,
            MusicCueId::Violent => 1030,
            MusicCueId::Belly => 1031,
            MusicCueId::Perfect => 1032,
            MusicCueId::Sentinel => 1033,
            MusicCueId::EchoesStorm => 1034,
            MusicCueId::Void => 1035,
            MusicCueId::Isolation => 1036,
            MusicCueId::IsolationReturn => 1037,
            MusicCueId::SecretTeleport => 1038,
            MusicCueId::Echoes => 1040,
            MusicCueId::EnemyIntro => 1041,
            MusicCueId::DarkWind => 1042,
            MusicCueId::Machine17 => 1043,
            MusicCueId::Machine17Remix => 1044,
            MusicCueId::Observatory => 1045,
            MusicCueId::Resonance => 1046,
            MusicCueId::Deterence => 1047,
            MusicCueId::Terminus => 1048,
            MusicCueId::Mobilization => 1049,
            MusicCueId::Collapse => 1050,
            MusicCueId::TheOtherSide => 1051,
            MusicCueId::twoHOTtwoPANTS => 1052,
            MusicCueId::TotalCount_ => 1053,
        }
    }

    pub fn from_i32(n: i32) -> (r: Option<MusicCueId>)
        ensures
            r == spec_music_cue_id_from_i32(n as int),
    {
        if n == 0 {
            Some(MusicCueId::NoneValue)
        } else if n == 1 {
            Some(MusicCueId::Grime)
        } else if n == 2 {
            Some(MusicCueId::Engage)
        } else if n == 3 {
            Some(MusicCueId::KaBamSon)
        } else if n == 4 {
            Some(MusicCueId::Momenta)
        } else if n == 5 {
            Some(MusicCueId::TheAlliance)
        } else if n == 6 {
            Some(MusicCueId::Continuum)
        } else if n == 7 {
            Some(MusicCueId::Drive)
        } else if n == 8 {
            Some(MusicCueId::GroundZero)
        } else if n == 9 {
            Some(MusicCueId::ColdWind)
        } else if n == 10 {
            Some(MusicCueId::Halloween)
        } else if n == 11 {
            Some(MusicCueId::Corruption)
        } else if n == 12 {
            Some(MusicCueId::Storm)
        } else if n == 15 {
            Some(MusicCueId::The_Tunnel)
        } else if n == 16 {
            Some(MusicCueId::Darkness_Intense)
        } else if n == 17 {
            Some(MusicCueId::WereLivingInASociety)
        } else if n == 18 {
            Some(MusicCueId::RandomChordSomething)
        } else if n == 19 {
            Some(MusicCueId::Aftermath)
        } else if n == 20 {
            Some(MusicCueId::TheMonolith)
        } else if n == 26 {
            Some(MusicCueId::FadedAway)
        } else if n == 27 {
            Some(MusicCueId::DarknessSlight)
        } else if n == 28 {
            Some(MusicCueId::Spectrum)
        } else if n == 29 {
            Some(MusicCueId::GZLight)
        } else if n == 30 {
            Some(MusicCueId::GZGate)
        } else if n == 31 {
            Some(MusicCueId::GZInsane)
        } else if n == 32 {
            Some(MusicCueId::CarolOfTheBells)
        } else if n == 33 {
            Some(MusicCueId::DigitalApathy)
        } else if n == 34 {
            Some(MusicCueId::TheManor)
        } else if n == 1000 {
            Some(MusicCueId::DevValue_)
        } else if n == 1001 {
            Some(MusicCueId::FFTTestLoop)
        } else if n == 1002 {
            Some(MusicCueId::IntroCutscene)
        } else if n == 1003 {
            Some(MusicCueId::AftermathLoop)
        } else if n == 1004 {
            Some(MusicCueId::Continuum2)
        } else if n == 1005 {
            Some(MusicCueId::GZInsaneSlow)
        } else if n == 1006 {
            Some(MusicCueId::TunnelHorror)
        } else if n == 1007 {
            Some(MusicCueId::SpectrumSlow)
        } else if n == 1008 {
            Some(MusicCueId::IntroCutsceneV2)
        } else if n == 1009 {
            Some(MusicCueId::NewBSAmbient)
        } else if n == 1010 {
            Some(MusicCueId::Convolution)
        } else if n == 1011 {
            Some(MusicCueId::Forge)
        } else if n == 1012 {
            Some(MusicCueId::DarknessIntenseV2)
        } else if n == 1013 {
            Some(MusicCueId::NSFinalBoot)
        } else if n == 1014 {
            Some(MusicCueId::Scratch)
        } else if n == 1015 {
            Some(MusicCueId::Flip)
        } else if n == 1016 {
            Some(MusicCueId::NegativeSpace)
        } else if n == 1017 {
            Some(MusicCueId::Abstraction)
        } else if n == 1018 {
            Some(MusicCueId::ForgeLoop)
        } else if n == 1019 {
            Some(MusicCueId::GrimeLoop)
        } else if n == 1020 {
            Some(MusicCueId::AbstractionLoop)
        } else if n == 1021 {
            Some(MusicCueId::AbstractionStrings)
        } else if n == 1022 {
            Some(MusicCueId::AbstractionStringsDU)
        } else if n == 1023 {
            Some(MusicCueId::DUEnding)
        } else if n == 1024 {
            Some(MusicCueId::AbandonedUtopia)
        } else if n == 1025 {
            Some(MusicCueId::DeeperIntoTheVoid)
        } else if n == 1026 {
            Some(MusicCueId::Low)
        } else if n == 1027 {
            Some(MusicCueId::Ambient2)
        } else if n == 1028 {
            Some(MusicCueId::EchoesIntro)
        } else if n == 1029 {
            Some(MusicCueId::TepidPants)
        } else if n == 1030 {
            Some(MusicCueId::Violent)
        } else if n == 1031 {
            Some(MusicCueId::Belly)
        } else if n == 1032 {
            Some(MusicCueId::Perfect)
        } else if n == 1033 {
            Some(MusicCueId::Sentinel)
        } else if n == 1034 {
            Some(MusicCueId::EchoesStorm)
        } else if n == 1035 {
            Some(MusicCueId::Void)
        } else if n == 1036 {
            Some(MusicCueId::Isolation)
        } else if n == 1037 {
            Some(MusicCueId::IsolationReturn)
        } else if n == 1038 {
            Some(MusicCueId::SecretTeleport)
        } else if n == 1040 {
            Some(MusicCueId::Echoes)
        } else if n == 1041 {
            Some(MusicCueId::EnemyIntro)
        } else if n == 1042 {
            Some(MusicCueId::DarkWind)
        } else if n == 1043 {
            Some(MusicCueId::Machine17)
        } else if n == 1044 {
            Some(MusicCueId::Machine17Remix)
        } else if n == 1045 {
            Some(MusicCueId::Observatory)
        } else if n == 1046 {
            Some(MusicCueId::Resonance)
        } else if n == 1047 {
            Some(MusicCueId::Deterence)
        } else if n == 1048 {
            Some(MusicCueId::Terminus)
        } else if n == 1049 {
            Some(MusicCueId::Mobilization)
        } else if n == 1050 {
            Some(MusicCueId::Collapse)
        } else if n == 1051 {
            Some(MusicCueId::TheOtherSide)
        } else if n == 1052 {
            Some(MusicCueId::twoHOTtwoPANTS)
        } else if n == 1053 {
            Some(MusicCueId::TotalCount_)
        } else {
            Option::None
        }
    }
}

impl Default for MusicCueId {
    fn default() -> (r: Self)
        ensures
            r == MusicCueId::NoneValue,
    {
        MusicCueId::NoneValue
    }
}

/// Material preset of a golden-simples object.
#[derive(Debug, Clone, Copy, PartialEq, Eq, Hash, Structural)]
pub enum GoldenSimplesPresets {
    Custom,
    Solid,
    Shadeless,
    Emissive,
    Rock,
    Rock2,
    WetRock,
    Water,
    ReflectiveWater,
    Lava,
    Asphalt,
    RustyMetal,
    Sand,
    Ice,
    Snow,
    Turf,
    Dirt,
    Glass,
    Panel1,
    Panel2,
    Panel3,
    Empire1,
    Empire2,
    Empire3,
    Empire4,
    Infected,
    Ancient1,
    Ancient2,
    Ancient3,
    Alien,
}

/// The wire integer of a `GoldenSimplesPresets`.
pub open spec fn spec_golden_simples_presets_i32(v: GoldenSimplesPresets) -> i32 {
    match v {
        GoldenSimplesPresets::Custom => 0,
        GoldenSimplesPresets::Solid => 1,
        GoldenSimplesPresets::Shadeless => 2,
        GoldenSimplesPresets::Emissive => 3,
        GoldenSimplesPresets::Rock => 4,
        GoldenSimplesPresets::Rock2 => 5,
        GoldenSimplesPresets::WetRock => 6,
        GoldenSimplesPresets::Water => 7,
        GoldenSimplesPresets::ReflectiveWater => 8,
        GoldenSimplesPresets::Lava => 9,
        GoldenSimplesPresets::Asphalt => 10,
        GoldenSimplesPresets::RustyMetal => 11,
        GoldenSimplesPresets::Sand => 12,
        GoldenSimplesPresets::Ice => 13,
        GoldenSimplesPresets::Snow => 14,
        GoldenSimplesPresets::Turf => 15,
        GoldenSimplesPresets::Dirt => 16,
        GoldenSimplesPresets::Glass => 17,
        GoldenSimplesPresets::Panel1 => 18,
        GoldenSimplesPresets::Panel2 => 19,
        GoldenSimplesPresets::Panel3 => 20,
        GoldenSimplesPresets::Empire1 => 21,
        GoldenSimplesPresets::Empire2 => 22,
        GoldenSimplesPresets::Empire3 => 23,
        GoldenSimplesPresets::Empire4 => 24,
        GoldenSimplesPresets::Infected => 25,
        GoldenSimplesPresets::Ancient1 => 26,
        GoldenSimplesPresets::Ancient2 => 27,
        GoldenSimplesPresets::Ancient3 => 28,
        GoldenSimplesPresets::Alien => 29,
    }
}

/// The `GoldenSimplesPresets` a wire integer denotes, if any.
pub open spec fn spec_golden_simples_presets_from_i32(n: int) -> Option<GoldenSimplesPresets> {
    if n == 0 {
        Some(GoldenSimplesPresets::Custom)
    } else if n == 1 {
        Some(GoldenSimplesPresets::Solid)
    } else if n == 2 {
        Some(GoldenSimplesPresets::Shadeless)
    } else if n == 3 {
        Some(GoldenSimplesPresets::Emissive)
    } else if n == 4 {
        Some(GoldenSimplesPresets::Rock)
    } else if n == 5 {
        Some(GoldenSimplesPresets::Rock2)
    } else if n == 6 {
        Some(GoldenSimplesPresets::WetRock)
    } else if n == 7 {
        Some(GoldenSimplesPresets::Water)
    } else if n == 8 {
        Some(GoldenSimplesPresets::ReflectiveWater)
    } else if n == 9 {
        Some(GoldenSimplesPresets::Lava)
    } else if n == 10 {
        Some(GoldenSimplesPresets::Asphalt)
    } else if n == 11 {
        Some(GoldenSimplesPresets::RustyMetal)
    } else if n == 12 {
        Some(GoldenSimplesPresets::Sand)
    } else if n == 13 {
        Some(GoldenSimplesPresets::Ice)
    } else if n == 14 {
        Some(GoldenSimplesPresets::Snow)
    } else if n == 15 {
        Some(GoldenSimplesPresets::Turf)
    } else if n == 16 {
        Some(GoldenSimplesPresets::Dirt)
    } else if n == 17 {
        Some(GoldenSimplesPresets::Glass)
    } else if n == 18 {
        Some(GoldenSimplesPresets::Panel1)
    } else if n == 19 {
        Some(GoldenSimplesPresets::Panel2)
    } else if n == 20 {
        Some(GoldenSimplesPresets::Panel3)
    } else if n == 21 {
        Some(GoldenSimplesPresets::Empire1)
    } else if n == 22 {
        Some(GoldenSimplesPresets::Empire2)
    } else if n == 23 {
        Some(GoldenSimplesPresets::Empire3)
    } else if n == 24 {
        Some(GoldenSimplesPresets::Empire4)
    } else if n == 25 {
        Some(GoldenSimplesPresets::Infected)
    } else if n == 26 {
        Some(GoldenSimplesPresets::Ancient1)
    } else if n == 27 {
        Some(GoldenSimplesPresets::Ancient2)
    } else if n == 28 {
        Some(GoldenSimplesPresets::Ancient3)
    } else if n == 29 {
        Some(GoldenSimplesPresets::Alien)
    } else {
        Option::None
    }
}

impl GoldenSimplesPresets {
    pub fn to_i32(self) -> (r: i32)
        ensures
            r == spec_golden_simples_presets_i32(self),
    {
        match self {
            GoldenSimplesPresets::Custom => 0,
            GoldenSimplesPresets::Solid => 1,
            GoldenSimplesPresets::Shadeless => 2,
            GoldenSimplesPresets::Emissive => 3,
            GoldenSimplesPresets::Rock => 4,
            GoldenSimplesPresets::Rock2 => 5,
            GoldenSimplesPresets::WetRock => 6,
            GoldenSimplesPresets::Water => 7,
            GoldenSimplesPresets::ReflectiveWater => 8,
            GoldenSimplesPresets::Lava => 9,
            GoldenSimplesPresets::Asphalt => 10,
            GoldenSimplesPresets::RustyMetal => 11,
            GoldenSimplesPresets::Sand => 12,
            GoldenSimplesPresets::Ice => 13,
            GoldenSimplesPresets::Snow => 14,
            GoldenSimplesPresets::Turf => 15,
            GoldenSimplesPresets::Dirt => 16,
            GoldenSimplesPresets::Glass => 17,
            GoldenSimplesPresets::Panel1 => 18,
            GoldenSimplesPresets::Panel2 => 19,
            GoldenSimplesPresets::Panel3 => 20,
            GoldenSimplesPresets::Empire1 => 21,
            GoldenSimplesPresets::Empire2 => 22,
            GoldenSimplesPresets::Empire3 => 23,
            GoldenSimplesPresets::Empire4 => 24,
            GoldenSimplesPresets::Infected => 25,
            GoldenSimplesPresets::Ancient1 => 26,
            GoldenSimplesPresets::Ancient2 => 27,
            GoldenSimplesPresets::Ancient3 => 28,
            GoldenSimplesPresets::Alien => 29,
        }
    }

    pub fn from_i32(n: i32) -> (r: Option<GoldenSimplesPresets>)
        ensures
            r == spec_golden_simples_presets_from_i32(n as int),
    {
        if n == 0 {
            Some(GoldenSimplesPresets::Custom)
        } else if n == 1 {
            Some(GoldenSimplesPresets::Solid)
        } else if n == 2 {
            Some(GoldenSimplesPresets::Shadeless)
        } else if n == 3 {
            Some(GoldenSimplesPresets::Emissive)
        } else if n == 4 {
            Some(GoldenSimplesPresets::Rock)
        } else if n == 5 {
            Some(GoldenSimplesPresets::Rock2)
        } else if n == 6 {
            Some(GoldenSimplesPresets::WetRock)
        } else if n == 7 {
            Some(GoldenSimplesPresets::Water)
        } else if n == 8 {
            Some(GoldenSimplesPresets::ReflectiveWater)
        } else if n == 9 {
            Some(GoldenSimplesPresets::Lava)
        } else if n == 10 {
            Some(GoldenSimplesPresets::Asphalt)
        } else if n == 11 {
            Some(GoldenSimplesPresets::RustyMetal)
        } else if n == 12 {
            Some(GoldenSimplesPresets::Sand)
        } else if n == 13 {
            Some(GoldenSimplesPresets::Ice)
        } else if n == 14 {
            Some(GoldenSimplesPresets::Snow)
        } else if n == 15 {
            Some(GoldenSimplesPresets::Turf)
        } else if n == 16 {
            Some(GoldenSimplesPresets::Dirt)
        } else if n == 17 {
            Some(GoldenSimplesPresets::Glass)
        } else if n == 18 {
            Some(GoldenSimplesPresets::Panel1)
        } else if n == 19 {
            Some(GoldenSimplesPresets::Panel2)
        } else if n == 20 {
            Some(GoldenSimplesPresets::Panel3)
        } else if n == 21 {
            Some(GoldenSimplesPresets::Empire1)
        } else if n == 22 {
            Some(GoldenSimplesPresets::Empire2)
        } else if n == 23 {
            Some(GoldenSimplesPresets::Empire3)
        } else if n == 24 {
            Some(GoldenSimplesPresets::Empire4)
        } else if n == 25 {
            Some(GoldenSimplesPresets::Infected)
        } else if n == 26 {
            Some(GoldenSimplesPresets::Ancient1)
        } else if n == 27 {
            Some(GoldenSimplesPresets::Ancient2)
        } else if n == 28 {
            Some(GoldenSimplesPresets::Ancient3)
        } else if n == 29 {
            Some(GoldenSimplesPresets::Alien)
        } else {
            Option::None
        }
    }
}

impl Default for GoldenSimplesPresets {
    fn default() -> (r: Self)
        ensures
            r == GoldenSimplesPresets::Custom,
    {
        GoldenSimplesPresets::Custom
    }
}

/// How a group presents its children in the inspector.
#[derive(Debug, Clone, Copy, PartialEq, Eq, Hash, Structural)]
pub enum GroupInspectChildrenType {
    NoneValue,
    Combined,
    All,
}

/// The wire integer of a `GroupInspectChildrenType`.
pub open spec fn spec_group_inspect_children_type_i32(v: GroupInspectChildrenType) -> i32 {
    match v {
        GroupInspectChildrenType::NoneValue => 0,
        GroupInspectChildrenType::Combined => 1,
        GroupInspectChildrenType::All => 2,
    }
}

/// The `GroupInspectChildrenType` a wire integer denotes, if any.
pub open spec fn spec_group_inspect_children_type_from_i32(n: int) -> Option<GroupInspectChildrenType> {
    if n == 0 {
        Some(GroupInspectChildrenType::NoneValue)
    } else if n == 1 {
        Some(GroupInspectChildrenType::Combined)
    } else if n == 2 {
        Some(GroupInspectChildrenType::All)
    } else {
        Option::None
    }
}

impl GroupInspectChildrenType {
    pub fn to_i32(self) -> (r: i32)
        ensures
            r == spec_group_inspect_children_type_i32(self),
    {
        match self {
            GroupInspectChildrenType::NoneValue => 0,
            GroupInspectChildrenType::Combined => 1,
            GroupInspectChildrenType::All => 2,
        }
    }

    pub fn from_i32(n: i32) -> (r: Option<GroupInspectChildrenType>)
        ensures
            r == spec_group_inspect_children_type_from_i32(n as int),
    {
        if n == 0 {
            Some(GroupInspectChildrenType::NoneValue)
        } else if n == 1 {
            Some(GroupInspectChildrenType::Combined)
        } else if n == 2 {
            Some(GroupInspectChildrenType::All)
        } else {
            Option::None
        }
    }
}

impl Default for GroupInspectChildrenType {
    fn default() -> (r: Self)
        ensures
            r == GroupInspectChildrenType::NoneValue,
    {
        GroupInspectChildrenType::NoneValue
    }
}

/// Kind of motion an animated object performs.
#[derive(Debug, Clone, Copy, PartialEq, Eq, Hash, Structural)]
pub enum AnimatedMotionType {
    Spinning,
    Sliding,
    Hinge,
    Pendulum,
    Bouncing,
    Advanced,
}

/// The wire integer of a `AnimatedMotionType`.
pub open spec fn spec_animated_motion_type_i32(v: AnimatedMotionType) -> i32 {
    match v {
        AnimatedMotionType::Spinning => 0,
        AnimatedMotionType::Sliding => 1,
        AnimatedMotionType::Hinge => 2,
        AnimatedMotionType::Pendulum => 3,
        AnimatedMotionType::Bouncing => 4,
        AnimatedMotionType::Advanced => 5,
    }
}

/// The `AnimatedMotionType` a wire integer denotes, if any.
pub open spec fn spec_animated_motion_type_from_i32(n: int) -> Option<AnimatedMotionType> {
    if n == 0 {
        Some(AnimatedMotionType::Spinning)
    } else if n == 1 {
        Some(AnimatedMotionType::Sliding)
    } else if n == 2 {
        Some(AnimatedMotionType::Hinge)
    } else if n == 3 {
        Some(AnimatedMotionType::Pendulum)
    } else if n == 4 {
        Some(AnimatedMotionType::Bouncing)
    } else if n == 5 {
        Some(AnimatedMotionType::Advanced)
    } else {
        Option::None
    }
}

impl AnimatedMotionType {
    pub fn to_i32(self) -> (r: i32)
        ensures
            r == spec_animated_motion_type_i32(self),
    {
        match self {
            AnimatedMotionType::Spinning => 0,
            AnimatedMotionType::Sliding => 1,
            AnimatedMotionType::Hinge => 2,
            AnimatedMotionType::Pendulum => 3,
            AnimatedMotionType::Bouncing => 4,
            AnimatedMotionType::Advanced => 5,
        }
    }

    pub fn from_i32(n: i32) -> (r: Option<AnimatedMotionType>)
        ensures
            r == spec_animated_motion_type_from_i32(n as int),
    {
        if n == 0 {
            Some(AnimatedMotionType::Spinning)
        } else if n == 1 {
            Some(AnimatedMotionType::Sliding)
        } else if n == 2 {
            Some(AnimatedMotionType::Hinge)
        } else if n == 3 {
            Some(AnimatedMotionType::Pendulum)
        } else if n == 4 {
            Some(AnimatedMotionType::Bouncing)
        } else if n == 5 {
            Some(AnimatedMotionType::Advanced)
        } else {
            Option::None
        }
    }
}

impl Default for AnimatedMotionType {
    fn default() -> (r: Self)
        ensures
            r == AnimatedMotionType::Hinge,
    {
        AnimatedMotionType::Hinge
    }
}

/// Frame a translation animation works in.
#[derive(Debug, Clone, Copy, PartialEq, Eq, Hash, Structural)]
pub enum AnimatedTranslateType {
    NoneValue,
    Local,
    Global,
    FollowTrack,
    Projectile,
    Absolute,
}

/// The wire integer of a `AnimatedTranslateType`.
pub open spec fn spec_animated_translate_type_i32(v: AnimatedTranslateType) -> i32 {
    match v {
        AnimatedTranslateType::NoneValue => 0,
        AnimatedTranslateType::Local => 1,
        AnimatedTranslateType::Global => 2,
        AnimatedTranslateType::FollowTrack => 3,
        AnimatedTranslateType::Projectile => 4,
        AnimatedTranslateType::Absolute => 5,
    }
}

/// The `AnimatedTranslateType` a wire integer denotes, if any.
pub open spec fn spec_animated_translate_type_from_i32(n: int) -> Option<AnimatedTranslateType> {
    if n == 0 {
        Some(AnimatedTranslateType::NoneValue)
    } else if n == 1 {
        Some(AnimatedTranslateType::Local)
    } else if n == 2 {
        Some(AnimatedTranslateType::Global)
    } else if n == 3 {
        Some(AnimatedTranslateType::FollowTrack)
    } else if n == 4 {
        Some(AnimatedTranslateType::Projectile)
    } else if n == 5 {
        Some(AnimatedTranslateType::Absolute)
    } else {
        Option::None
    }
}

impl AnimatedTranslateType {
    pub fn to_i32(self) -> (r: i32)
        ensures
            r == spec_animated_translate_type_i32(self),
    {
        match self {
            AnimatedTranslateType::NoneValue => 0,
            AnimatedTranslateType::Local => 1,
            AnimatedTranslateType::Global => 2,
            AnimatedTranslateType::FollowTrack => 3,
            AnimatedTranslateType::Projectile => 4,
            AnimatedTranslateType::Absolute => 5,
        }
    }

    pub fn from_i32(n: i32) -> (r: Option<AnimatedTranslateType>)
        ensures
            r == spec_animated_translate_type_from_i32(n as int),
    {
        if n == 0 {
            Some(AnimatedTranslateType::NoneValue)
        } else if n == 1 {
            Some(AnimatedTranslateType::Local)
        } else if n == 2 {
            Some(AnimatedTranslateType::Global)
        } else if n == 3 {
            Some(AnimatedTranslateType::FollowTrack)
        } else if n == 4 {
            Some(AnimatedTranslateType::Projectile)
        } else if n == 5 {
            Some(AnimatedTranslateType::Absolute)
        } else {
            Option::None
        }
    }
}

impl Default for AnimatedTranslateType {
    fn default() -> (r: Self)
        ensures
            r == AnimatedTranslateType::NoneValue,
    {
        AnimatedTranslateType::NoneValue
    }
}

/// Easing curve of an animation leg.
#[derive(Debug, Clone, Copy, PartialEq, Eq, Hash, Structural)]
pub enum AnimatorBaseCurveType {
    Linear,
    EaseIn,
    EaseOut,
    EaseInOut,
    Quadratic,
    InverseQuadratic,
    SinWave,
}

/// The wire integer of a `AnimatorBaseCurveType`.
pub open spec fn spec_animator_base_curve_type_i32(v: AnimatorBaseCurveType) -> i32 {
    match v {
        AnimatorBaseCurveType::Linear => 0,
        AnimatorBaseCurveType::EaseIn => 1,
        AnimatorBaseCurveType::EaseOut => 2,
        AnimatorBaseCurveType::EaseInOut => 3,
        AnimatorBaseCurveType::Quadratic => 4,
        AnimatorBaseCurveType::InverseQuadratic => 5,
        AnimatorBaseCurveType::SinWave => 6,
    }
}

/// The `AnimatorBaseCurveType` a wire integer denotes, if any.
pub open spec fn spec_animator_base_curve_type_from_i32(n: int) -> Option<AnimatorBaseCurveType> {
    if n == 0 {
        Some(AnimatorBaseCurveType::Linear)
    } else if n == 1 {
        Some(AnimatorBaseCurveType::EaseIn)
    } else if n == 2 {
        Some(AnimatorBaseCurveType::EaseOut)
    } else if n == 3 {
        Some(AnimatorBaseCurveType::EaseInOut)
    } else if n == 4 {
        Some(AnimatorBaseCurveType::Quadratic)
    } else if n == 5 {
        Some(AnimatorBaseCurveType::InverseQuadratic)
    } else if n == 6 {
        Some(AnimatorBaseCurveType::SinWave)
    } else {
        Option::None
    }
}

impl AnimatorBaseCurveType {
    pub fn to_i32(self) -> (r: i32)
        ensures
            r == spec_animator_base_curve_type_i32(self),
    {
        match self {
            AnimatorBaseCurveType::Linear => 0,
            AnimatorBaseCurveType::EaseIn => 1,
            AnimatorBaseCurveType::EaseOut => 2,
            AnimatorBaseCurveType::EaseInOut => 3,
            AnimatorBaseCurveType::Quadratic => 4,
            AnimatorBaseCurveType::InverseQuadratic => 5,
            AnimatorBaseCurveType::SinWave => 6,
        }
    }

    pub fn from_i32(n: i32) -> (r: Option<AnimatorBaseCurveType>)
        ensures
            r == spec_animator_base_curve_type_from_i32(n as int),
    {
        if n == 0 {
            Some(AnimatorBaseCurveType::Linear)
        } else if n == 1 {
            Some(AnimatorBaseCurveType::EaseIn)
        } else if n == 2 {
            Some(AnimatorBaseCurveType::EaseOut)
        } else if n == 3 {
            Some(AnimatorBaseCurveType::EaseInOut)
        } else if n == 4 {
            Some(AnimatorBaseCurveType::Quadratic)
        } else if n == 5 {
            Some(AnimatorBaseCurveType::InverseQuadratic)
        } else if n == 6 {
            Some(AnimatorBaseCurveType::SinWave)
        } else {
            Option::None
        }
    }

    /// The curve a ping-pong return leg plays: ease-in and ease-out swap,
    /// quadratic and inverse-quadratic swap, everything else keeps itself.
    pub fn opposite(self) -> (r: Self)
        ensures
            r == spec_curve_opposite(self),
    {
        match self {
            AnimatorBaseCurveType::EaseIn => AnimatorBaseCurveType::EaseOut,
            AnimatorBaseCurveType::EaseOut => AnimatorBaseCurveType::EaseIn,
            AnimatorBaseCurveType::Quadratic => AnimatorBaseCurveType::InverseQuadratic,
            AnimatorBaseCurveType::InverseQuadratic => AnimatorBaseCurveType::Quadratic,
            other => other,
        }
    }

}

impl Default for AnimatorBaseCurveType {
    fn default() -> (r: Self)
        ensures
            r == AnimatorBaseCurveType::EaseInOut,
    {
        AnimatorBaseCurveType::EaseInOut
    }
}

/// What an animator does on a trigger edge.
#[derive(Debug, Clone, Copy, PartialEq, Eq, Hash, Structural)]
pub enum AnimatorBaseTriggerAction {
    NoneValue,
    Play,
    PlayReverse,
    Stop,
    PingPong,
}

/// The wire integer of a `AnimatorBaseTriggerAction`.
pub open spec fn spec_animator_base_trigger_action_i32(v: AnimatorBaseTriggerAction) -> i32 {
    match v {
        AnimatorBaseTriggerAction::NoneValue => 0,
        AnimatorBaseTriggerAction::Play => 1,
        AnimatorBaseTriggerAction::PlayReverse => 2,
        AnimatorBaseTriggerAction::Stop => 3,
        AnimatorBaseTriggerAction::PingPong => 4,
    }
}

/// The `AnimatorBaseTriggerAction` a wire integer denotes, if any.
pub open spec fn spec_animator_base_trigger_action_from_i32(n: int) -> Option<AnimatorBaseTriggerAction> {
    if n == 0 {
        Some(AnimatorBaseTriggerAction::NoneValue)
    } else if n == 1 {
        Some(AnimatorBaseTriggerAction::Play)
    } else if n == 2 {
        Some(AnimatorBaseTriggerAction::PlayReverse)
    } else if n == 3 {
        Some(AnimatorBaseTriggerAction::Stop)
    } else if n == 4 {
        Some(AnimatorBaseTriggerAction::PingPong)
    } else {
        Option::None
    }
}

impl AnimatorBaseTriggerAction {
    pub fn to_i32(self) -> (r: i32)
        ensures
            r == spec_animator_base_trigger_action_i32(self),
    {
        match self {
            AnimatorBaseTriggerAction::NoneValue => 0,
            AnimatorBaseTriggerAction::Play => 1,
            AnimatorBaseTriggerAction::PlayReverse => 2,
            AnimatorBaseTriggerAction::Stop => 3,
            AnimatorBaseTriggerAction::PingPong => 4,
        }
    }

    pub fn from_i32(n: i32) -> (r: Option<AnimatorBaseTriggerAction>)
        ensures
            r == spec_animator_base_trigger_action_from_i32(n as int),
    {
        if n == 0 {
            Some(AnimatorBaseTriggerAction::NoneValue)
        } else if n == 1 {
            Some(AnimatorBaseTriggerAction::Play)
        } else if n == 2 {
            Some(AnimatorBaseTriggerAction::PlayReverse)
        } else if n == 3 {
            Some(AnimatorBaseTriggerAction::Stop)
        } else if n == 4 {
            Some(AnimatorBaseTriggerAction::PingPong)
        } else {
            Option::None
        }
    }
}

impl Default for AnimatorBaseTriggerAction {
    fn default() -> (r: Self)
        ensures
            r == AnimatorBaseTriggerAction::NoneValue,
    {
        AnimatorBaseTriggerAction::NoneValue
    }
}

/// The legacy extrapolation field older animators carried.
#[derive(Debug, Clone, Copy, PartialEq, Eq, Hash, Structural)]
pub enum AnimatorBaseExtrapolationTypeObsolete {
    Normal,
    PingPong,
    Extend,
}

/// The wire integer of a `AnimatorBaseExtrapolationTypeObsolete`.
pub open spec fn spec_animator_base_extrapolation_type_obsolete_i32(v: AnimatorBaseExtrapolationTypeObsolete) -> i32 {
    match v {
        AnimatorBaseExtrapolationTypeObsolete::Normal => 0,
        AnimatorBaseExtrapolationTypeObsolete::PingPong => 1,
        AnimatorBaseExtrapolationTypeObsolete::Extend => 2,
    }
}

/// The `AnimatorBaseExtrapolationTypeObsolete` a wire integer denotes, if any.
pub open spec fn spec_animator_base_extrapolation_type_obsolete_from_i32(n: int) -> Option<AnimatorBaseExtrapolationTypeObsolete> {
    if n == 0 {
        Some(AnimatorBaseExtrapolationTypeObsolete::Normal)
    } else if n == 1 {
        Some(AnimatorBaseExtrapolationTypeObsolete::PingPong)
    } else if n == 2 {
        Some(AnimatorBaseExtrapolationTypeObsolete::Extend)
    } else {
        Option::None
    }
}

impl AnimatorBaseExtrapolationTypeObsolete {
    pub fn to_i32(self) -> (r: i32)
        ensures
            r == spec_animator_base_extrapolation_type_obsolete_i32(self),
    {
        match self {
            AnimatorBaseExtrapolationTypeObsolete::Normal => 0,
            AnimatorBaseExtrapolationTypeObsolete::PingPong => 1,
            AnimatorBaseExtrapolationTypeObsolete::Extend => 2,
        }
    }

    pub fn from_i32(n: i32) -> (r: Option<AnimatorBaseExtrapolationTypeObsolete>)
        ensures
            r == spec_animator_base_extrapolation_type_obsolete_from_i32(n as int),
    {
        if n == 0 {
            Some(AnimatorBaseExtrapolationTypeObsolete::Normal)
        } else if n == 1 {
            Some(AnimatorBaseExtrapolationTypeObsolete::PingPong)
        } else if n == 2 {
            Some(AnimatorBaseExtrapolationTypeObsolete::Extend)
        } else {
            Option::None
        }
    }
}

impl Default for AnimatorBaseExtrapolationTypeObsolete {
    fn default() -> (r: Self)
        ensures
            r == AnimatorBaseExtrapolationTypeObsolete::Normal,
    {
        AnimatorBaseExtrapolationTypeObsolete::Normal
    }
}

} // verus!
