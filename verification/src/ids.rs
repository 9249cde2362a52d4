//! The component kind registry: every numeric component id the wire format
//! knows, and which of them the library carries as a typed schema rather
//! than an opaque byte cell.

use vstd::prelude::*;

verus! {

/// Every known component kind. The integer mapping is part of the wire
/// format; `Invalid_` stands for an id outside the known set.
#[derive(Debug, Clone, Copy, PartialEq, Eq, Hash, Structural)]
pub enum ComponentId {
    Invalid_,
    NoneValue,
    Transform,
    MeshFilter,
    MeshRenderer,
    SkinnedMeshRenderer,
    LineRenderer,
    TrailRenderer,
    TextMesh,
    Animation,
    Light,
    LensFlare,
    ParticleSystem,
    Projector,
    MeshCollider,
    SphereCollider,
    BoxCollider,
    CapsuleCollider,
    Rigidbody,
    AudioSource,
    ConstantForce,
    BezierSplineTrack,
    TrackSegment,
    TrackLink,
    RigidbodyAxisRotationLogic,
    BackAndForthSawLogic,
    CheckpointLogic,
    LaserLogic,
    LightFlickerLogic,
    SceneryCameraLogic,
    Group,
    SkyboxAdder,
    LevelCubeMapRenderer,
    LevelGodRayCaster,
    TutorialBoxText,
    BoostPadLogic,
    CloudCreator,
    FlyingRingLogic,
    PopupBlockerLogic,
    PulseLight,
    PulseMaterial,
    SmoothRandomPosition,
    SoccerGoalLogic,
    VirusMineLogic,
    AnimateUVs,
    BrightenCarHeadlights,
    TrackManipulationNode,
    SpawnLaserLogic,
    GameData,
    GraphicsSettings,
    AudioSettings,
    ControlsSettings,
    Profile,
    LevelSet,
    ToolInputCombos,
    ColorPreset,
    LocalLeaderboard,
    AxisRotationLogic,
    ParticleEmitLogic,
    VirusSpiritSpawner,
    GlitchTrigger,
    Teleporter,
    PulseRotateOnTrigger,
    TeleporterEntrance,
    TeleporterExit,
    ControlScheme,
    DeviceToSchemeLinks,
    ObjectSpawnCircle,
    InterpolateToPositionOnTrigger,
    EngageBrokenPieces,
    GravityToggle,
    CarSpawner,
    RaceStartCarSpawner,
    LevelEditorCarSpawner,
    OnlyActiveInLevelEditor,
    InfoDisplayLogic,
    MusicTrigger,
    TabPopulator,
    AdventureAbilitySettings,
    IndicatorDisplayLogic,
    PulseCoreLogic,
    PulseAll,
    TeleporterExitCheckpoint,
    LevelSettings,
    WingCorruptionZone,
    GenerateCreditsNames,
    IntroCutsceneLightFadeIn,
    QuarantineTrigger,
    CarScreenTextDecodeTrigger,
    GlitchFieldLogic,
    FogSkyboxAmbientChangeTrigger,
    FinalCountdownLogic,
    SetActiveOnIntroCutsceneStarted,
    SphericalGravityTrigger,
    RaceEndLogic,
    EnableAbilitiesTrigger,
    SphericalGravity,
    GlobalFogLogic,
    CreditsNameOrbLogic,
    DisableLocalCarWarnings,
    CustomName,
    SplineSegment,
    WarningPulseLight,
    RumbleZone,
    HideOnVirusSpiritEvent,
    TrackAttachment,
    LevelPlaylist,
    ProfileProgress,
    GeneralSettings,
    ReplayAllPurposeTrigger,
    WorkshopPublishedFileInfos,
    WarpAnchor,
    SetActiveOnMIDIEvent,
    TurnLightOnNearCar,
    Traffic,
    TrackManipulatorNode,
    TurnLightOnNearCarTrigger,
    AudioEventTrigger,
    LevelEditorSettings,
    EmpireProximityDoorLogic,
    Biodome,
    TunnelHorrorLogic,
    LogicTrigger,
    ChangeEmissiveColorLogicTriggerListener,
    MoveLogicTriggerListener,
    RotateLogicTriggerListener,
    ScaleLogicTriggerListener,
    VirusSpiritWarpTeaserLogic,
    CarReplayData,
    LevelImageCamera,
    ParticlesGPU,
    KillGridBox,
    GoldenSimples,
    SetActiveAfterWarp,
    AmbientAudioObject,
    BiodomeAudioInterpolator,
    MoveElectricityAlongWire,
    ActivationRampLogic,
    ZEventTrigger,
    ZEventListener,
    BlackPortalLogic,
    VRSettings,
    CutsceneCamera,
    ProfileStats,
    InterpolateToRotationOnTrigger,
    MoveAlongAttachedTrack,
    ShowDuringGlitch,
    AddCameraNoise,
    CarVoiceTrigger,
    HoverScreenSpecialObjectTrigger,
    ReplaySettings,
    CutsceneCamForTrailer,
    LevelInfos,
    AchievementTrigger,
    ArenaCarSpawner,
    Animated,
    BlinkInTrigger,
    CarScreenImageTrigger,
    ExcludeFromEMP,
    InfiniteCooldownTrigger,
    DiscoverableStuntArea,
    ForceVolume,
    AdventureModeCompleteTrigger,
    CountdownTextMeshLogic,
    AbilitySignButtonColorLogic,
    GoldenAnimator,
    StuntCollectibleSpawner,
    AnimatorAudio,
    AnimatorCameraShake,
    ShardCluster,
    AdventureSpecialIntro,
    AudioEffectZone,
    CinematicCamera,
    CinematicCameraFocalPoint,
    SetAbilitiesTrigger,
    LostToEchoesIntroCutscene,
    CutsceneText,
    UltraPlanet,
    DeadCarLogic,
    RollingBarrelDropperLogic,
    AdventureFinishTrigger,
    AchievementSettings,
    InterpolateRTPCLogic,
    TriggerCooldownLogic,
    ShadowsChangedListener,
    LookAtCamera,
    InterceptorCollectable,
    CubeMapRenderer,
    RealtimeReflectionRenderer,
    VirusDropperDroneLogic,
    OnCollisionBreakApartLogic,
    CheatSettings,
    IgnoreInCullGroups,
    IgnoreInputTrigger,
    PowerPosterLogic,
    MusicZone,
    LightsFlickerLogic,
    CutsceneManagerLogic,
    FadeOut,
    Flock,
    GPSTrigger,
    ResetOnCarDeath,
    SprintMode,
    StuntMode,
    SoccerMode,
    FreeRoamMode,
    ReverseTagMode,
    LevelEditorPlayMode,
    CoopSprintMode,
    ChallengeMode,
    AdventureMode,
    SpeedAndStyleMode,
    TrackmogrifyMode,
    DemoMode,
    MainMenuMode,
    LostToEchoesMode,
    NexusMode,
    TheOtherSideMode,
}

/// The wire integer of a component id.
pub open spec fn spec_component_id_i32(v: ComponentId) -> i32 {
    match v {
        ComponentId::Invalid_ => -1i32,
        ComponentId::NoneValue => 0,
        ComponentId::Transform => 1,
        ComponentId::MeshFilter => 2,
        ComponentId::MeshRenderer => 3,
        ComponentId::SkinnedMeshRenderer => 4,
        ComponentId::LineRenderer => 5,
        ComponentId::TrailRenderer => 6,
        ComponentId::TextMesh => 7,
        ComponentId::Animation => 8,
        ComponentId::Light => 9,
        ComponentId::LensFlare => 10,
        ComponentId::ParticleSystem => 11,
        ComponentId::Projector => 12,
        ComponentId::MeshCollider => 13,
        ComponentId::SphereCollider => 14,
        ComponentId::BoxCollider => 15,
        ComponentId::CapsuleCollider => 16,
        ComponentId::Rigidbody => 17,
        ComponentId::AudioSource => 18,
        ComponentId::ConstantForce => 19,
        ComponentId::BezierSplineTrack => 20,
        ComponentId::TrackSegment => 21,
        ComponentId::TrackLink => 22,
        ComponentId::RigidbodyAxisRotationLogic => 23,
        ComponentId::BackAndForthSawLogic => 24,
        ComponentId::CheckpointLogic => 25,
        ComponentId::LaserLogic => 26,
        ComponentId::LightFlickerLogic => 27,
        ComponentId::SceneryCameraLogic => 28,
        ComponentId::Group => 29,
        ComponentId::SkyboxAdder => 30,
        ComponentId::LevelCubeMapRenderer => 31,
        ComponentId::LevelGodRayCaster => 32,
        ComponentId::TutorialBoxText => 33,
        ComponentId::BoostPadLogic => 34,
        ComponentId::CloudCreator => 35,
        ComponentId::FlyingRingLogic => 36,
        ComponentId::PopupBlockerLogic => 37,
        ComponentId::PulseLight => 38,
        ComponentId::PulseMaterial => 39,
        ComponentId::SmoothRandomPosition => 40,
        ComponentId::SoccerGoalLogic => 41,
        ComponentId::VirusMineLogic => 42,
        ComponentId::AnimateUVs => 43,
        ComponentId::BrightenCarHeadlights => 44,
        ComponentId::TrackManipulationNode => 45,
        ComponentId::SpawnLaserLogic => 46,
        ComponentId::GameData => 47,
        ComponentId::GraphicsSettings => 48,
        ComponentId::AudioSettings => 49,
        ComponentId::ControlsSettings => 50,
        ComponentId::Profile => 51,
        ComponentId::LevelSet => 52,
        ComponentId::ToolInputCombos => 53,
        ComponentId::ColorPreset => 54,
        ComponentId::LocalLeaderboard => 55,
        ComponentId::AxisRotationLogic => 56,
        ComponentId::ParticleEmitLogic => 57,
        ComponentId::VirusSpiritSpawner => 58,
        ComponentId::GlitchTrigger => 59,
        ComponentId::Teleporter => 60,
        ComponentId::PulseRotateOnTrigger => 61,
        ComponentId::TeleporterEntrance => 62,
        ComponentId::TeleporterExit => 63,
        ComponentId::ControlScheme => 64,
        ComponentId::DeviceToSchemeLinks => 65,
        ComponentId::ObjectSpawnCircle => 66,
        ComponentId::InterpolateToPositionOnTrigger => 67,
        ComponentId::EngageBrokenPieces => 68,
        ComponentId::GravityToggle => 69,
        ComponentId::CarSpawner => 70,
        ComponentId::RaceStartCarSpawner => 71,
        ComponentId::LevelEditorCarSpawner => 72,
        ComponentId::OnlyActiveInLevelEditor => 73,
        ComponentId::InfoDisplayLogic => 74,
        ComponentId::MusicTrigger => 75,
        ComponentId::TabPopulator => 76,
        ComponentId::AdventureAbilitySettings => 77,
        ComponentId::IndicatorDisplayLogic => 78,
        ComponentId::PulseCoreLogic => 79,
        ComponentId::PulseAll => 80,
        ComponentId::TeleporterExitCheckpoint => 81,
        ComponentId::LevelSettings => 82,
        ComponentId::WingCorruptionZone => 83,
        ComponentId::GenerateCreditsNames => 84,
        ComponentId::IntroCutsceneLightFadeIn => 85,
        ComponentId::QuarantineTrigger => 86,
        ComponentId::CarScreenTextDecodeTrigger => 87,
        ComponentId::GlitchFieldLogic => 88,
        ComponentId::FogSkyboxAmbientChangeTrigger => 89,
        ComponentId::FinalCountdownLogic => 90,
        ComponentId::SetActiveOnIntroCutsceneStarted => 91,
        ComponentId::SphericalGravityTrigger => 92,
        ComponentId::RaceEndLogic => 93,
        ComponentId::EnableAbilitiesTrigger => 94,
        ComponentId::SphericalGravity => 95,
        ComponentId::GlobalFogLogic => 96,
        ComponentId::CreditsNameOrbLogic => 97,
        ComponentId::DisableLocalCarWarnings => 98,
        ComponentId::CustomName => 99,
        ComponentId::SplineSegment => 100,
        ComponentId::WarningPulseLight => 101,
        ComponentId::RumbleZone => 102,
        ComponentId::HideOnVirusSpiritEvent => 103,
        ComponentId::TrackAttachment => 104,
        ComponentId::LevelPlaylist => 105,
        ComponentId::ProfileProgress => 106,
        ComponentId::GeneralSettings => 107,
        ComponentId::ReplayAllPurposeTrigger => 108,
        ComponentId::WorkshopPublishedFileInfos => 109,
        ComponentId::WarpAnchor => 110,
        ComponentId::SetActiveOnMIDIEvent => 111,
        ComponentId::TurnLightOnNearCar => 112,
        ComponentId::Traffic => 113,
        ComponentId::TrackManipulatorNode => 114,
        ComponentId::TurnLightOnNearCarTrigger => 115,
        ComponentId::AudioEventTrigger => 116,
        ComponentId::LevelEditorSettings => 117,
        ComponentId::EmpireProximityDoorLogic => 118,
        ComponentId::Biodome => 119,
        ComponentId::TunnelHorrorLogic => 120,
        ComponentId::LogicTrigger => 121,
        ComponentId::ChangeEmissiveColorLogicTriggerListener => 122,
        ComponentId::MoveLogicTriggerListener => 123,
        ComponentId::RotateLogicTriggerListener => 124,
        ComponentId::ScaleLogicTriggerListener => 125,
        ComponentId::VirusSpiritWarpTeaserLogic => 126,
        ComponentId::CarReplayData => 127,
        ComponentId::LevelImageCamera => 128,
        ComponentId::ParticlesGPU => 129,
        ComponentId::KillGridBox => 130,
        ComponentId::GoldenSimples => 131,
        ComponentId::SetActiveAfterWarp => 132,
        ComponentId::AmbientAudioObject => 133,
        ComponentId::BiodomeAudioInterpolator => 134,
        ComponentId::MoveElectricityAlongWire => 135,
        ComponentId::ActivationRampLogic => 136,
        ComponentId::ZEventTrigger => 137,
        ComponentId::ZEventListener => 138,
        ComponentId::BlackPortalLogic => 139,
        ComponentId::VRSettings => 140,
        ComponentId::CutsceneCamera => 141,
        ComponentId::ProfileStats => 142,
        ComponentId::InterpolateToRotationOnTrigger => 143,
        ComponentId::MoveAlongAttachedTrack => 144,
        ComponentId::ShowDuringGlitch => 145,
        ComponentId::AddCameraNoise => 146,
        ComponentId::CarVoiceTrigger => 147,
        ComponentId::HoverScreenSpecialObjectTrigger => 148,
        ComponentId::ReplaySettings => 149,
        ComponentId::CutsceneCamForTrailer => 150,
        ComponentId::LevelInfos => 151,
        ComponentId::AchievementTrigger => 152,
        ComponentId::ArenaCarSpawner => 153,
        ComponentId::Animated => 154,
        ComponentId::BlinkInTrigger => 155,
        ComponentId::CarScreenImageTrigger => 156,
        ComponentId::ExcludeFromEMP => 157,
        ComponentId::InfiniteCooldownTrigger => 158,
        ComponentId::DiscoverableStuntArea => 159,
        ComponentId::ForceVolume => 160,
        ComponentId::AdventureModeCompleteTrigger => 161,
        ComponentId::CountdownTextMeshLogic => 162,
        ComponentId::AbilitySignButtonColorLogic => 163,
        ComponentId::GoldenAnimator => 164,
        ComponentId::StuntCollectibleSpawner => 165,
        ComponentId::AnimatorAudio => 166,
        ComponentId::AnimatorCameraShake => 167,
        ComponentId::ShardCluster => 168,
        ComponentId::AdventureSpecialIntro => 169,
        ComponentId::AudioEffectZone => 170,
        ComponentId::CinematicCamera => 171,
        ComponentId::CinematicCameraFocalPoint => 172,
        ComponentId::SetAbilitiesTrigger => 173,
        ComponentId::LostToEchoesIntroCutscene => 174,
        ComponentId::CutsceneText => 175,
        ComponentId::UltraPlanet => 176,
        ComponentId::DeadCarLogic => 177,
        ComponentId::RollingBarrelDropperLogic => 178,
        ComponentId::AdventureFinishTrigger => 179,
        ComponentId::AchievementSettings => 180,
        ComponentId::InterpolateRTPCLogic => 181,
        ComponentId::TriggerCooldownLogic => 182,
        ComponentId::ShadowsChangedListener => 183,
        ComponentId::LookAtCamera => 184,
        ComponentId::InterceptorCollectable => 185,
        ComponentId::CubeMapRenderer => 186,
        ComponentId::RealtimeReflectionRenderer => 187,
        ComponentId::VirusDropperDroneLogic => 188,
        ComponentId::OnCollisionBreakApartLogic => 189,
        ComponentId::CheatSettings => 190,
        ComponentId::IgnoreInCullGroups => 191,
        ComponentId::IgnoreInputTrigger => 192,
        ComponentId::PowerPosterLogic => 193,
        ComponentId::MusicZone => 194,
        ComponentId::LightsFlickerLogic => 195,
        ComponentId::CutsceneManagerLogic => 196,
        ComponentId::FadeOut => 197,
        ComponentId::Flock => 198,
        ComponentId::GPSTrigger => 199,
        ComponentId::ResetOnCarDeath => 200,
        ComponentId::SprintMode => 201,
        ComponentId::StuntMode => 202,
        ComponentId::SoccerMode => 203,
        ComponentId::FreeRoamMode => 204,
        ComponentId::ReverseTagMode => 205,
        ComponentId::LevelEditorPlayMode => 206,
        ComponentId::CoopSprintMode => 207,
        ComponentId::ChallengeMode => 208,
        ComponentId::AdventureMode => 209,
        ComponentId::SpeedAndStyleMode => 210,
        ComponentId::TrackmogrifyMode => 211,
        ComponentId::DemoMode => 212,
        ComponentId::MainMenuMode => 213,
        ComponentId::LostToEchoesMode => 214,
        ComponentId::NexusMode => 215,
        ComponentId::TheOtherSideMode => 216,
    }
}

/// The component id a wire integer denotes, if any.
pub open spec fn spec_component_id_from_i32(n: int) -> Option<ComponentId> {
    if n == -1 {
        Some(ComponentId::Invalid_)
    } else if n == 0 {
        Some(ComponentId::NoneValue)
    } else if n == 1 {
        Some(ComponentId::Transform)
    } else if n == 2 {
        Some(ComponentId::MeshFilter)
    } else if n == 3 {
        Some(ComponentId::MeshRenderer)
    } else if n == 4 {
        Some(ComponentId::SkinnedMeshRenderer)
    } else if n == 5 {
        Some(ComponentId::LineRenderer)
    } else if n == 6 {
        Some(ComponentId::TrailRenderer)
    } else if n == 7 {
        Some(ComponentId::TextMesh)
    } else if n == 8 {
        Some(ComponentId::Animation)
    } else if n == 9 {
        Some(ComponentId::Light)
    } else if n == 10 {
        Some(ComponentId::LensFlare)
    } else if n == 11 {
        Some(ComponentId::ParticleSystem)
    } else if n == 12 {
        Some(ComponentId::Projector)
    } else if n == 13 {
        Some(ComponentId::MeshCollider)
    } else if n == 14 {
        Some(ComponentId::SphereCollider)
    } else if n == 15 {
        Some(ComponentId::BoxCollider)
    } else if n == 16 {
        Some(ComponentId::CapsuleCollider)
    } else if n == 17 {
        Some(ComponentId::Rigidbody)
    } else if n == 18 {
        Some(ComponentId::AudioSource)
    } else if n == 19 {
        Some(ComponentId::ConstantForce)
    } else if n == 20 {
        Some(ComponentId::BezierSplineTrack)
    } else if n == 21 {
        Some(ComponentId::TrackSegment)
    } else if n == 22 {
        Some(ComponentId::TrackLink)
    } else if n == 23 {
        Some(ComponentId::RigidbodyAxisRotationLogic)
    } else if n == 24 {
        Some(ComponentId::BackAndForthSawLogic)
    } else if n == 25 {
        Some(ComponentId::CheckpointLogic)
    } else if n == 26 {
        Some(ComponentId::LaserLogic)
    } else if n == 27 {
        Some(ComponentId::LightFlickerLogic)
    } else if n == 28 {
        Some(ComponentId::SceneryCameraLogic)
    } else if n == 29 {
        Some(ComponentId::Group)
    } else if n == 30 {
        Some(ComponentId::SkyboxAdder)
    } else if n == 31 {
        Some(ComponentId::LevelCubeMapRenderer)
    } else if n == 32 {
        Some(ComponentId::LevelGodRayCaster)
    } else if n == 33 {
        Some(ComponentId::TutorialBoxText)
    } else if n == 34 {
        Some(ComponentId::BoostPadLogic)
    } else if n == 35 {
        Some(ComponentId::CloudCreator)
    } else if n == 36 {
        Some(ComponentId::FlyingRingLogic)
    } else if n == 37 {
        Some(ComponentId::PopupBlockerLogic)
    } else if n == 38 {
        Some(ComponentId::PulseLight)
    } else if n == 39 {
        Some(ComponentId::PulseMaterial)
    } else if n == 40 {
        Some(ComponentId::SmoothRandomPosition)
    } else if n == 41 {
        Some(ComponentId::SoccerGoalLogic)
    } else if n == 42 {
        Some(ComponentId::VirusMineLogic)
    } else if n == 43 {
        Some(ComponentId::AnimateUVs)
    } else if n == 44 {
        Some(ComponentId::BrightenCarHeadlights)
    } else if n == 45 {
        Some(ComponentId::TrackManipulationNode)
    } else if n == 46 {
        Some(ComponentId::SpawnLaserLogic)
    } else if n == 47 {
        Some(ComponentId::GameData)
    } else if n == 48 {
        Some(ComponentId::GraphicsSettings)
    } else if n == 49 {
        Some(ComponentId::AudioSettings)
    } else if n == 50 {
        Some(ComponentId::ControlsSettings)
    } else if n == 51 {
        Some(ComponentId::Profile)
    } else if n == 52 {
        Some(ComponentId::LevelSet)
    } else if n == 53 {
        Some(ComponentId::ToolInputCombos)
    } else if n == 54 {
        Some(ComponentId::ColorPreset)
    } else if n == 55 {
        Some(ComponentId::LocalLeaderboard)
    } else if n == 56 {
        Some(ComponentId::AxisRotationLogic)
    } else if n == 57 {
        Some(ComponentId::ParticleEmitLogic)
    } else if n == 58 {
        Some(ComponentId::VirusSpiritSpawner)
    } else if n == 59 {
        Some(ComponentId::GlitchTrigger)
    } else if n == 60 {
        Some(ComponentId::Teleporter)
    } else if n == 61 {
        Some(ComponentId::PulseRotateOnTrigger)
    } else if n == 62 {
        Some(ComponentId::TeleporterEntrance)
    } else if n == 63 {
        Some(ComponentId::TeleporterExit)
    } else if n == 64 {
        Some(ComponentId::ControlScheme)
    } else if n == 65 {
        Some(ComponentId::DeviceToSchemeLinks)
    } else if n == 66 {
        Some(ComponentId::ObjectSpawnCircle)
    } else if n == 67 {
        Some(ComponentId::InterpolateToPositionOnTrigger)
    } else if n == 68 {
        Some(ComponentId::EngageBrokenPieces)
    } else if n == 69 {
        Some(ComponentId::GravityToggle)
    } else if n == 70 {
        Some(ComponentId::CarSpawner)
    } else if n == 71 {
        Some(ComponentId::RaceStartCarSpawner)
    } else if n == 72 {
        Some(ComponentId::LevelEditorCarSpawner)
    } else if n == 73 {
        Some(ComponentId::OnlyActiveInLevelEditor)
    } else if n == 74 {
        Some(ComponentId::InfoDisplayLogic)
    } else if n == 75 {
        Some(ComponentId::MusicTrigger)
    } else if n == 76 {
        Some(ComponentId::TabPopulator)
    } else if n == 77 {
        Some(ComponentId::AdventureAbilitySettings)
    } else if n == 78 {
        Some(ComponentId::IndicatorDisplayLogic)
    } else if n == 79 {
        Some(ComponentId::PulseCoreLogic)
    } else if n == 80 {
        Some(ComponentId::PulseAll)
    } else if n == 81 {
        Some(ComponentId::TeleporterExitCheckpoint)
    } else if n == 82 {
        Some(ComponentId::LevelSettings)
    } else if n == 83 {
        Some(ComponentId::WingCorruptionZone)
    } else if n == 84 {
        Some(ComponentId::GenerateCreditsNames)
    } else if n == 85 {
        Some(ComponentId::IntroCutsceneLightFadeIn)
    } else if n == 86 {
        Some(ComponentId::QuarantineTrigger)
    } else if n == 87 {
        Some(ComponentId::CarScreenTextDecodeTrigger)
    } else if n == 88 {
        Some(ComponentId::GlitchFieldLogic)
    } else if n == 89 {
        Some(ComponentId::FogSkyboxAmbientChangeTrigger)
    } else if n == 90 {
        Some(ComponentId::FinalCountdownLogic)
    } else if n == 91 {
        Some(ComponentId::SetActiveOnIntroCutsceneStarted)
    } else if n == 92 {
        Some(ComponentId::SphericalGravityTrigger)
    } else if n == 93 {
        Some(ComponentId::RaceEndLogic)
    } else if n == 94 {
        Some(ComponentId::EnableAbilitiesTrigger)
    } else if n == 95 {
        Some(ComponentId::SphericalGravity)
    } else if n == 96 {
        Some(ComponentId::GlobalFogLogic)
    } else if n == 97 {
        Some(ComponentId::CreditsNameOrbLogic)
    } else if n == 98 {
        Some(ComponentId::DisableLocalCarWarnings)
    } else if n == 99 {
        Some(ComponentId::CustomName)
    } else if n == 100 {
        Some(ComponentId::SplineSegment)
    } else if n == 101 {
        Some(ComponentId::WarningPulseLight)
    } else if n == 102 {
        Some(ComponentId::RumbleZone)
    } else if n == 103 {
        Some(ComponentId::HideOnVirusSpiritEvent)
    } else if n == 104 {
        Some(ComponentId::TrackAttachment)
    } else if n == 105 {
        Some(ComponentId::LevelPlaylist)
    } else if n == 106 {
        Some(ComponentId::ProfileProgress)
    } else if n == 107 {
        Some(ComponentId::GeneralSettings)
    } else if n == 108 {
        Some(ComponentId::ReplayAllPurposeTrigger)
    } else if n == 109 {
        Some(ComponentId::WorkshopPublishedFileInfos)
    } else if n == 110 {
        Some(ComponentId::WarpAnchor)
    } else if n == 111 {
        Some(ComponentId::SetActiveOnMIDIEvent)
    } else if n == 112 {
        Some(ComponentId::TurnLightOnNearCar)
    } else if n == 113 {
        Some(ComponentId::Traffic)
    } else if n == 114 {
        Some(ComponentId::TrackManipulatorNode)
    } else if n == 115 {
        Some(ComponentId::TurnLightOnNearCarTrigger)
    } else if n == 116 {
        Some(ComponentId::AudioEventTrigger)
    } else if n == 117 {
        Some(ComponentId::LevelEditorSettings)
    } else if n == 118 {
        Some(ComponentId::EmpireProximityDoorLogic)
    } else if n == 119 {
        Some(ComponentId::Biodome)
    } else if n == 120 {
        Some(ComponentId::TunnelHorrorLogic)
    } else if n == 121 {
        Some(ComponentId::LogicTrigger)
    } else if n == 122 {
        Some(ComponentId::ChangeEmissiveColorLogicTriggerListener)
    } else if n == 123 {
        Some(ComponentId::MoveLogicTriggerListener)
    } else if n == 124 {
        Some(ComponentId::RotateLogicTriggerListener)
    } else if n == 125 {
        Some(ComponentId::ScaleLogicTriggerListener)
    } else if n == 126 {
        Some(ComponentId::VirusSpiritWarpTeaserLogic)
    } else if n == 127 {
        Some(ComponentId::CarReplayData)
    } else if n == 128 {
        Some(ComponentId::LevelImageCamera)
    } else if n == 129 {
        Some(ComponentId::ParticlesGPU)
    } else if n == 130 {
        Some(ComponentId::KillGridBox)
    } else if n == 131 {
        Some(ComponentId::GoldenSimples)
    } else if n == 132 {
        Some(ComponentId::SetActiveAfterWarp)
    } else if n == 133 {
        Some(ComponentId::AmbientAudioObject)
    } else if n == 134 {
        Some(ComponentId::BiodomeAudioInterpolator)
    } else if n == 135 {
        Some(ComponentId::MoveElectricityAlongWire)
    } else if n == 136 {
        Some(ComponentId::ActivationRampLogic)
    } else if n == 137 {
        Some(ComponentId::ZEventTrigger)
    } else if n == 138 {
        Some(ComponentId::ZEventListener)
    } else if n == 139 {
        Some(ComponentId::BlackPortalLogic)
    } else if n == 140 {
        Some(ComponentId::VRSettings)
    } else if n == 141 {
        Some(ComponentId::CutsceneCamera)
    } else if n == 142 {
        Some(ComponentId::ProfileStats)
    } else if n == 143 {
        Some(ComponentId::InterpolateToRotationOnTrigger)
    } else if n == 144 {
        Some(ComponentId::MoveAlongAttachedTrack)
    } else if n == 145 {
        Some(ComponentId::ShowDuringGlitch)
    } else if n == 146 {
        Some(ComponentId::AddCameraNoise)
    } else if n == 147 {
        Some(ComponentId::CarVoiceTrigger)
    } else if n == 148 {
        Some(ComponentId::HoverScreenSpecialObjectTrigger)
    } else if n == 149 {
        Some(ComponentId::ReplaySettings)
    } else if n == 150 {
        Some(ComponentId::CutsceneCamForTrailer)
    } else if n == 151 {
        Some(ComponentId::LevelInfos)
    } else if n == 152 {
        Some(ComponentId::AchievementTrigger)
    } else if n == 153 {
        Some(ComponentId::ArenaCarSpawner)
    } else if n == 154 {
        Some(ComponentId::Animated)
    } else if n == 155 {
        Some(ComponentId::BlinkInTrigger)
    } else if n == 156 {
        Some(ComponentId::CarScreenImageTrigger)
    } else if n == 157 {
        Some(ComponentId::ExcludeFromEMP)
    } else if n == 158 {
        Some(ComponentId::InfiniteCooldownTrigger)
    } else if n == 159 {
        Some(ComponentId::DiscoverableStuntArea)
    } else if n == 160 {
        Some(ComponentId::ForceVolume)
    } else if n == 161 {
        Some(ComponentId::AdventureModeCompleteTrigger)
    } else if n == 162 {
        Some(ComponentId::CountdownTextMeshLogic)
    } else if n == 163 {
        Some(ComponentId::AbilitySignButtonColorLogic)
    } else if n == 164 {
        Some(ComponentId::GoldenAnimator)
    } else if n == 165 {
        Some(ComponentId::StuntCollectibleSpawner)
    } else if n == 166 {
        Some(ComponentId::AnimatorAudio)
    } else if n == 167 {
        Some(ComponentId::AnimatorCameraShake)
    } else if n == 168 {
        Some(ComponentId::ShardCluster)
    } else if n == 169 {
        Some(ComponentId::AdventureSpecialIntro)
    } else if n == 170 {
        Some(ComponentId::AudioEffectZone)
    } else if n == 171 {
        Some(ComponentId::CinematicCamera)
    } else if n == 172 {
        Some(ComponentId::CinematicCameraFocalPoint)
    } else if n == 173 {
        Some(ComponentId::SetAbilitiesTrigger)
    } else if n == 174 {
        Some(ComponentId::LostToEchoesIntroCutscene)
    } else if n == 175 {
        Some(ComponentId::CutsceneText)
    } else if n == 176 {
        Some(ComponentId::UltraPlanet)
    } else if n == 177 {
        Some(ComponentId::DeadCarLogic)
    } else if n == 178 {
        Some(ComponentId::RollingBarrelDropperLogic)
    } else if n == 179 {
        Some(ComponentId::AdventureFinishTrigger)
    } else if n == 180 {
        Some(ComponentId::AchievementSettings)
    } else if n == 181 {
        Some(ComponentId::InterpolateRTPCLogic)
    } else if n == 182 {
        Some(ComponentId::TriggerCooldownLogic)
    } else if n == 183 {
        Some(ComponentId::ShadowsChangedListener)
    } else if n == 184 {
        Some(ComponentId::LookAtCamera)
    } else if n == 185 {
        Some(ComponentId::InterceptorCollectable)
    } else if n == 186 {
        Some(ComponentId::CubeMapRenderer)
    } else if n == 187 {
        Some(ComponentId::RealtimeReflectionRenderer)
    } else if n == 188 {
        Some(ComponentId::VirusDropperDroneLogic)
    } else if n == 189 {
        Some(ComponentId::OnCollisionBreakApartLogic)
    } else if n == 190 {
        Some(ComponentId::CheatSettings)
    } else if n == 191 {
        Some(ComponentId::IgnoreInCullGroups)
    } else if n == 192 {
        Some(ComponentId::IgnoreInputTrigger)
    } else if n == 193 {
        Some(ComponentId::PowerPosterLogic)
    } else if n == 194 {
        Some(ComponentId::MusicZone)
    } else if n == 195 {
        Some(ComponentId::LightsFlickerLogic)
    } else if n == 196 {
        Some(ComponentId::CutsceneManagerLogic)
    } else if n == 197 {
        Some(ComponentId::FadeOut)
    } else if n == 198 {
        Some(ComponentId::Flock)
    } else if n == 199 {
        Some(ComponentId::GPSTrigger)
    } else if n == 200 {
        Some(ComponentId::ResetOnCarDeath)
    } else if n == 201 {
        Some(ComponentId::SprintMode)
    } else if n == 202 {
        Some(ComponentId::StuntMode)
    } else if n == 203 {
        Some(ComponentId::SoccerMode)
    } else if n == 204 {
        Some(ComponentId::FreeRoamMode)
    } else if n == 205 {
        Some(ComponentId::ReverseTagMode)
    } else if n == 206 {
        Some(ComponentId::LevelEditorPlayMode)
    } else if n == 207 {
        Some(ComponentId::CoopSprintMode)
    } else if n == 208 {
        Some(ComponentId::ChallengeMode)
    } else if n == 209 {
        Some(ComponentId::AdventureMode)
    } else if n == 210 {
        Some(ComponentId::SpeedAndStyleMode)
    } else if n == 211 {
        Some(ComponentId::TrackmogrifyMode)
    } else if n == 212 {
        Some(ComponentId::DemoMode)
    } else if n == 213 {
        Some(ComponentId::MainMenuMode)
    } else if n == 214 {
        Some(ComponentId::LostToEchoesMode)
    } else if n == 215 {
        Some(ComponentId::NexusMode)
    } else if n == 216 {
        Some(ComponentId::TheOtherSideMode)
    } else {
        Option::None
    }
}

/// The component kinds stored as a typed schema; every other known kind
/// is preserved as raw bytes.
pub open spec fn spec_component_id_implemented(v: ComponentId) -> bool {
    match v {
        ComponentId::Transform => true,
        ComponentId::MeshRenderer => true,
        ComponentId::SphereCollider => true,
        ComponentId::BoxCollider => true,
        ComponentId::CapsuleCollider => true,
        ComponentId::TrackLink => true,
        ComponentId::Group => true,
        ComponentId::CustomName => true,
        ComponentId::ProfileProgress => true,
        ComponentId::CarReplayData => true,
        ComponentId::GoldenSimples => true,
        ComponentId::ZEventTrigger => true,
        ComponentId::ZEventListener => true,
        ComponentId::ProfileStats => true,
        ComponentId::LevelInfos => true,
        ComponentId::Animated => true,
        _ => false,
    }
}

impl ComponentId {
    pub fn to_i32(self) -> (r: i32)
        ensures
            r == spec_component_id_i32(self),
    {
        match self {
            ComponentId::Invalid_ => -1i32,
            ComponentId::NoneValue => 0,
            ComponentId::Transform => 1,
            ComponentId::MeshFilter => 2,
            ComponentId::MeshRenderer => 3,
            ComponentId::SkinnedMeshRenderer => 4,
            ComponentId::LineRenderer => 5,
            ComponentId::TrailRenderer => 6,
            ComponentId::TextMesh => 7,
            ComponentId::Animation => 8,
            ComponentId::Light => 9,
            ComponentId::LensFlare => 10,
            ComponentId::ParticleSystem => 11,
            ComponentId::Projector => 12,
            ComponentId::MeshCollider => 13,
            ComponentId::SphereCollider => 14,
            ComponentId::BoxCollider => 15,
            ComponentId::CapsuleCollider => 16,
            ComponentId::Rigidbody => 17,
            ComponentId::AudioSource => 18,
            ComponentId::ConstantForce => 19,
            ComponentId::BezierSplineTrack => 20,
            ComponentId::TrackSegment => 21,
            ComponentId::TrackLink => 22,
            ComponentId::RigidbodyAxisRotationLogic => 23,
            ComponentId::BackAndForthSawLogic => 24,
            ComponentId::CheckpointLogic => 25,
            ComponentId::LaserLogic => 26,
            ComponentId::LightFlickerLogic => 27,
            ComponentId::SceneryCameraLogic => 28,
            ComponentId::Group => 29,
            ComponentId::SkyboxAdder => 30,
            ComponentId::LevelCubeMapRenderer => 31,
            ComponentId::LevelGodRayCaster => 32,
            ComponentId::TutorialBoxText => 33,
            ComponentId::BoostPadLogic => 34,
            ComponentId::CloudCreator => 35,
            ComponentId::FlyingRingLogic => 36,
            ComponentId::PopupBlockerLogic => 37,
            ComponentId::PulseLight => 38,
            ComponentId::PulseMaterial => 39,
            ComponentId::SmoothRandomPosition => 40,
            ComponentId::SoccerGoalLogic => 41,
            ComponentId::VirusMineLogic => 42,
            ComponentId::AnimateUVs => 43,
            ComponentId::BrightenCarHeadlights => 44,
            ComponentId::TrackManipulationNode => 45,
            ComponentId::SpawnLaserLogic => 46,
            ComponentId::GameData => 47,
            ComponentId::GraphicsSettings => 48,
            ComponentId::AudioSettings => 49,
            ComponentId::ControlsSettings => 50,
            ComponentId::Profile => 51,
            ComponentId::LevelSet => 52,
            ComponentId::ToolInputCombos => 53,
            ComponentId::ColorPreset => 54,
            ComponentId::LocalLeaderboard => 55,
            ComponentId::AxisRotationLogic => 56,
            ComponentId::ParticleEmitLogic => 57,
            ComponentId::VirusSpiritSpawner => 58,
            ComponentId::GlitchTrigger => 59,
            ComponentId::Teleporter => 60,
            ComponentId::PulseRotateOnTrigger => 61,
            ComponentId::TeleporterEntrance => 62,
            ComponentId::TeleporterExit => 63,
            ComponentId::ControlScheme => 64,
            ComponentId::DeviceToSchemeLinks => 65,
            ComponentId::ObjectSpawnCircle => 66,
            ComponentId::InterpolateToPositionOnTrigger => 67,
            ComponentId::EngageBrokenPieces => 68,
            ComponentId::GravityToggle => 69,
            ComponentId::CarSpawner => 70,
            ComponentId::RaceStartCarSpawner => 71,
            ComponentId::LevelEditorCarSpawner => 72,
            ComponentId::OnlyActiveInLevelEditor => 73,
            ComponentId::InfoDisplayLogic => 74,
            ComponentId::MusicTrigger => 75,
            ComponentId::TabPopulator => 76,
            ComponentId::AdventureAbilitySettings => 77,
            ComponentId::IndicatorDisplayLogic => 78,
            ComponentId::PulseCoreLogic => 79,
            ComponentId::PulseAll => 80,
            ComponentId::TeleporterExitCheckpoint => 81,
            ComponentId::LevelSettings => 82,
            ComponentId::WingCorruptionZone => 83,
            ComponentId::GenerateCreditsNames => 84,
            ComponentId::IntroCutsceneLightFadeIn => 85,
            ComponentId::QuarantineTrigger => 86,
            ComponentId::CarScreenTextDecodeTrigger => 87,
            ComponentId::GlitchFieldLogic => 88,
            ComponentId::FogSkyboxAmbientChangeTrigger => 89,
            ComponentId::FinalCountdownLogic => 90,
            ComponentId::SetActiveOnIntroCutsceneStarted => 91,
            ComponentId::SphericalGravityTrigger => 92,
            ComponentId::RaceEndLogic => 93,
            ComponentId::EnableAbilitiesTrigger => 94,
            ComponentId::SphericalGravity => 95,
            ComponentId::GlobalFogLogic => 96,
            ComponentId::CreditsNameOrbLogic => 97,
            ComponentId::DisableLocalCarWarnings => 98,
            ComponentId::CustomName => 99,
            ComponentId::SplineSegment => 100,
            ComponentId::WarningPulseLight => 101,
            ComponentId::RumbleZone => 102,
            ComponentId::HideOnVirusSpiritEvent => 103,
            ComponentId::TrackAttachment => 104,
            ComponentId::LevelPlaylist => 105,
            ComponentId::ProfileProgress => 106,
            ComponentId::GeneralSettings => 107,
            ComponentId::ReplayAllPurposeTrigger => 108,
            ComponentId::WorkshopPublishedFileInfos => 109,
            ComponentId::WarpAnchor => 110,
            ComponentId::SetActiveOnMIDIEvent => 111,
            ComponentId::TurnLightOnNearCar => 112,
            ComponentId::Traffic => 113,
            ComponentId::TrackManipulatorNode => 114,
            ComponentId::TurnLightOnNearCarTrigger => 115,
            ComponentId::AudioEventTrigger => 116,
            ComponentId::LevelEditorSettings => 117,
            ComponentId::EmpireProximityDoorLogic => 118,
            ComponentId::Biodome => 119,
            ComponentId::TunnelHorrorLogic => 120,
            ComponentId::LogicTrigger => 121,
            ComponentId::ChangeEmissiveColorLogicTriggerListener => 122,
            ComponentId::MoveLogicTriggerListener => 123,
            ComponentId::RotateLogicTriggerListener => 124,
            ComponentId::ScaleLogicTriggerListener => 125,
            ComponentId::VirusSpiritWarpTeaserLogic => 126,
            ComponentId::CarReplayData => 127,
            ComponentId::LevelImageCamera => 128,
            ComponentId::ParticlesGPU => 129,
            ComponentId::KillGridBox => 130,
            ComponentId::GoldenSimples => 131,
            ComponentId::SetActiveAfterWarp => 132,
            ComponentId::AmbientAudioObject => 133,
            ComponentId::BiodomeAudioInterpolator => 134,
            ComponentId::MoveElectricityAlongWire => 135,
            ComponentId::ActivationRampLogic => 136,
            ComponentId::ZEventTrigger => 137,
            ComponentId::ZEventListener => 138,
            ComponentId::BlackPortalLogic => 139,
            ComponentId::VRSettings => 140,
            ComponentId::CutsceneCamera => 141,
            ComponentId::ProfileStats => 142,
            ComponentId::InterpolateToRotationOnTrigger => 143,
            ComponentId::MoveAlongAttachedTrack => 144,
            ComponentId::ShowDuringGlitch => 145,
            ComponentId::AddCameraNoise => 146,
            ComponentId::CarVoiceTrigger => 147,
            ComponentId::HoverScreenSpecialObjectTrigger => 148,
            ComponentId::ReplaySettings => 149,
            ComponentId::CutsceneCamForTrailer => 150,
            ComponentId::LevelInfos => 151,
            ComponentId::AchievementTrigger => 152,
            ComponentId::ArenaCarSpawner => 153,
            ComponentId::Animated => 154,
            ComponentId::BlinkInTrigger => 155,
            ComponentId::CarScreenImageTrigger => 156,
            ComponentId::ExcludeFromEMP => 157,
            ComponentId::InfiniteCooldownTrigger => 158,
            ComponentId::DiscoverableStuntArea => 159,
            ComponentId::ForceVolume => 160,
            ComponentId::AdventureModeCompleteTrigger => 161,
            ComponentId::CountdownTextMeshLogic => 162,
            ComponentId::AbilitySignButtonColorLogic => 163,
            ComponentId::GoldenAnimator => 164,
            ComponentId::StuntCollectibleSpawner => 165,
            ComponentId::AnimatorAudio => 166,
            ComponentId::AnimatorCameraShake => 167,
            ComponentId::ShardCluster => 168,
            ComponentId::AdventureSpecialIntro => 169,
            ComponentId::AudioEffectZone => 170,
            ComponentId::CinematicCamera => 171,
            ComponentId::CinematicCameraFocalPoint => 172,
            ComponentId::SetAbilitiesTrigger => 173,
            ComponentId::LostToEchoesIntroCutscene => 174,
            ComponentId::CutsceneText => 175,
            ComponentId::UltraPlanet => 176,
            ComponentId::DeadCarLogic => 177,
            ComponentId::RollingBarrelDropperLogic => 178,
            ComponentId::AdventureFinishTrigger => 179,
            ComponentId::AchievementSettings => 180,
            ComponentId::InterpolateRTPCLogic => 181,
            ComponentId::TriggerCooldownLogic => 182,
            ComponentId::ShadowsChangedListener => 183,
            ComponentId::LookAtCamera => 184,
            ComponentId::InterceptorCollectable => 185,
            ComponentId::CubeMapRenderer => 186,
            ComponentId::RealtimeReflectionRenderer => 187,
            ComponentId::VirusDropperDroneLogic => 188,
            ComponentId::OnCollisionBreakApartLogic => 189,
            ComponentId::CheatSettings => 190,
            ComponentId::IgnoreInCullGroups => 191,
            ComponentId::IgnoreInputTrigger => 192,
            ComponentId::PowerPosterLogic => 193,
            ComponentId::MusicZone => 194,
            ComponentId::LightsFlickerLogic => 195,
            ComponentId::CutsceneManagerLogic => 196,
            ComponentId::FadeOut => 197,
            ComponentId::Flock => 198,
            ComponentId::GPSTrigger => 199,
            ComponentId::ResetOnCarDeath => 200,
            ComponentId::SprintMode => 201,
            ComponentId::StuntMode => 202,
            ComponentId::SoccerMode => 203,
            ComponentId::FreeRoamMode => 204,
            ComponentId::ReverseTagMode => 205,
            ComponentId::LevelEditorPlayMode => 206,
            ComponentId::CoopSprintMode => 207,
            ComponentId::ChallengeMode => 208,
            ComponentId::AdventureMode => 209,
            ComponentId::SpeedAndStyleMode => 210,
            ComponentId::TrackmogrifyMode => 211,
            ComponentId::DemoMode => 212,
            ComponentId::MainMenuMode => 213,
            ComponentId::LostToEchoesMode => 214,
            ComponentId::NexusMode => 215,
            ComponentId::TheOtherSideMode => 216,
        }
    }

    pub fn from_i32(n: i32) -> (r: Option<ComponentId>)
        ensures
            r == spec_component_id_from_i32(n as int),
    {
        if n == -1 {
            Some(ComponentId::Invalid_)
        } else if n == 0 {
            Some(ComponentId::NoneValue)
        } else if n == 1 {
            Some(ComponentId::Transform)
        } else if n == 2 {
            Some(ComponentId::MeshFilter)
        } else if n == 3 {
            Some(ComponentId::MeshRenderer)
        } else if n == 4 {
            Some(ComponentId::SkinnedMeshRenderer)
        } else if n == 5 {
            Some(ComponentId::LineRenderer)
        } else if n == 6 {
            Some(ComponentId::TrailRenderer)
        } else if n == 7 {
            Some(ComponentId::TextMesh)
        } else if n == 8 {
            Some(ComponentId::Animation)
        } else if n == 9 {
            Some(ComponentId::Light)
        } else if n == 10 {
            Some(ComponentId::LensFlare)
        } else if n == 11 {
            Some(ComponentId::ParticleSystem)
        } else if n == 12 {
            Some(ComponentId::Projector)
        } else if n == 13 {
            Some(ComponentId::MeshCollider)
        } else if n == 14 {
            Some(ComponentId::SphereCollider)
        } else if n == 15 {
            Some(ComponentId::BoxCollider)
        } else if n == 16 {
            Some(ComponentId::CapsuleCollider)
        } else if n == 17 {
            Some(ComponentId::Rigidbody)
        } else if n == 18 {
            Some(ComponentId::AudioSource)
        } else if n == 19 {
            Some(ComponentId::ConstantForce)
        } else if n == 20 {
            Some(ComponentId::BezierSplineTrack)
        } else if n == 21 {
            Some(ComponentId::TrackSegment)
        } else if n == 22 {
            Some(ComponentId::TrackLink)
        } else if n == 23 {
            Some(ComponentId::RigidbodyAxisRotationLogic)
        } else if n == 24 {
            Some(ComponentId::BackAndForthSawLogic)
        } else if n == 25 {
            Some(ComponentId::CheckpointLogic)
        } else if n == 26 {
            Some(ComponentId::LaserLogic)
        } else if n == 27 {
            Some(ComponentId::LightFlickerLogic)
        } else if n == 28 {
            Some(ComponentId::SceneryCameraLogic)
        } else if n == 29 {
            Some(ComponentId::Group)
        } else if n == 30 {
            Some(ComponentId::SkyboxAdder)
        } else if n == 31 {
            Some(ComponentId::LevelCubeMapRenderer)
        } else if n == 32 {
            Some(ComponentId::LevelGodRayCaster)
        } else if n == 33 {
            Some(ComponentId::TutorialBoxText)
        } else if n == 34 {
            Some(ComponentId::BoostPadLogic)
        } else if n == 35 {
            Some(ComponentId::CloudCreator)
        } else if n == 36 {
            Some(ComponentId::FlyingRingLogic)
        } else if n == 37 {
            Some(ComponentId::PopupBlockerLogic)
        } else if n == 38 {
            Some(ComponentId::PulseLight)
        } else if n == 39 {
            Some(ComponentId::PulseMaterial)
        } else if n == 40 {
            Some(ComponentId::SmoothRandomPosition)
        } else if n == 41 {
            Some(ComponentId::SoccerGoalLogic)
        } else if n == 42 {
            Some(ComponentId::VirusMineLogic)
        } else if n == 43 {
            Some(ComponentId::AnimateUVs)
        } else if n == 44 {
            Some(ComponentId::BrightenCarHeadlights)
        } else if n == 45 {
            Some(ComponentId::TrackManipulationNode)
        } else if n == 46 {
            Some(ComponentId::SpawnLaserLogic)
        } else if n == 47 {
            Some(ComponentId::GameData)
        } else if n == 48 {
            Some(ComponentId::GraphicsSettings)
        } else if n == 49 {
            Some(ComponentId::AudioSettings)
        } else if n == 50 {
            Some(ComponentId::ControlsSettings)
        } else if n == 51 {
            Some(ComponentId::Profile)
        } else if n == 52 {
            Some(ComponentId::LevelSet)
        } else if n == 53 {
            Some(ComponentId::ToolInputCombos)
        } else if n == 54 {
            Some(ComponentId::ColorPreset)
        } else if n == 55 {
            Some(ComponentId::LocalLeaderboard)
        } else if n == 56 {
            Some(ComponentId::AxisRotationLogic)
        } else if n == 57 {
            Some(ComponentId::ParticleEmitLogic)
        } else if n == 58 {
            Some(ComponentId::VirusSpiritSpawner)
        } else if n == 59 {
            Some(ComponentId::GlitchTrigger)
        } else if n == 60 {
            Some(ComponentId::Teleporter)
        } else if n == 61 {
            Some(ComponentId::PulseRotateOnTrigger)
        } else if n == 62 {
            Some(ComponentId::TeleporterEntrance)
        } else if n == 63 {
            Some(ComponentId::TeleporterExit)
        } else if n == 64 {
            Some(ComponentId::ControlScheme)
        } else if n == 65 {
            Some(ComponentId::DeviceToSchemeLinks)
        } else if n == 66 {
            Some(ComponentId::ObjectSpawnCircle)
        } else if n == 67 {
            Some(ComponentId::InterpolateToPositionOnTrigger)
        } else if n == 68 {
            Some(ComponentId::EngageBrokenPieces)
        } else if n == 69 {
            Some(ComponentId::GravityToggle)
        } else if n == 70 {
            Some(ComponentId::CarSpawner)
        } else if n == 71 {
            Some(ComponentId::RaceStartCarSpawner)
        } else if n == 72 {
            Some(ComponentId::LevelEditorCarSpawner)
        } else if n == 73 {
            Some(ComponentId::OnlyActiveInLevelEditor)
        } else if n == 74 {
            Some(ComponentId::InfoDisplayLogic)
        } else if n == 75 {
            Some(ComponentId::MusicTrigger)
        } else if n == 76 {
            Some(ComponentId::TabPopulator)
        } else if n == 77 {
            Some(ComponentId::AdventureAbilitySettings)
        } else if n == 78 {
            Some(ComponentId::IndicatorDisplayLogic)
        } else if n == 79 {
            Some(ComponentId::PulseCoreLogic)
        } else if n == 80 {
            Some(ComponentId::PulseAll)
        } else if n == 81 {
            Some(ComponentId::TeleporterExitCheckpoint)
        } else if n == 82 {
            Some(ComponentId::LevelSettings)
        } else if n == 83 {
            Some(ComponentId::WingCorruptionZone)
        } else if n == 84 {
            Some(ComponentId::GenerateCreditsNames)
        } else if n == 85 {
            Some(ComponentId::IntroCutsceneLightFadeIn)
        } else if n == 86 {
            Some(ComponentId::QuarantineTrigger)
        } else if n == 87 {
            Some(ComponentId::CarScreenTextDecodeTrigger)
        } else if n == 88 {
            Some(ComponentId::GlitchFieldLogic)
        } else if n == 89 {
            Some(ComponentId::FogSkyboxAmbientChangeTrigger)
        } else if n == 90 {
            Some(ComponentId::FinalCountdownLogic)
        } else if n == 91 {
            Some(ComponentId::SetActiveOnIntroCutsceneStarted)
        } else if n == 92 {
            Some(ComponentId::SphericalGravityTrigger)
        } else if n == 93 {
            Some(ComponentId::RaceEndLogic)
        } else if n == 94 {
            Some(ComponentId::EnableAbilitiesTrigger)
        } else if n == 95 {
            Some(ComponentId::SphericalGravity)
        } else if n == 96 {
            Some(ComponentId::GlobalFogLogic)
        } else if n == 97 {
            Some(ComponentId::CreditsNameOrbLogic)
        } else if n == 98 {
            Some(ComponentId::DisableLocalCarWarnings)
        } else if n == 99 {
            Some(ComponentId::CustomName)
        } else if n == 100 {
            Some(ComponentId::SplineSegment)
        } else if n == 101 {
            Some(ComponentId::WarningPulseLight)
        } else if n == 102 {
            Some(ComponentId::RumbleZone)
        } else if n == 103 {
            Some(ComponentId::HideOnVirusSpiritEvent)
        } else if n == 104 {
            Some(ComponentId::TrackAttachment)
        } else if n == 105 {
            Some(ComponentId::LevelPlaylist)
        } else if n == 106 {
            Some(ComponentId::ProfileProgress)
        } else if n == 107 {
            Some(ComponentId::GeneralSettings)
        } else if n == 108 {
            Some(ComponentId::ReplayAllPurposeTrigger)
        } else if n == 109 {
            Some(ComponentId::WorkshopPublishedFileInfos)
        } else if n == 110 {
            Some(ComponentId::WarpAnchor)
        } else if n == 111 {
            Some(ComponentId::SetActiveOnMIDIEvent)
        } else if n == 112 {
            Some(ComponentId::TurnLightOnNearCar)
        } else if n == 113 {
            Some(ComponentId::Traffic)
        } else if n == 114 {
            Some(ComponentId::TrackManipulatorNode)
        } else if n == 115 {
            Some(ComponentId::TurnLightOnNearCarTrigger)
        } else if n == 116 {
            Some(ComponentId::AudioEventTrigger)
        } else if n == 117 {
            Some(ComponentId::LevelEditorSettings)
        } else if n == 118 {
            Some(ComponentId::EmpireProximityDoorLogic)
        } else if n == 119 {
            Some(ComponentId::Biodome)
        } else if n == 120 {
            Some(ComponentId::TunnelHorrorLogic)
        } else if n == 121 {
            Some(ComponentId::LogicTrigger)
        } else if n == 122 {
            Some(ComponentId::ChangeEmissiveColorLogicTriggerListener)
        } else if n == 123 {
            Some(ComponentId::MoveLogicTriggerListener)
        } else if n == 124 {
            Some(ComponentId::RotateLogicTriggerListener)
        } else if n == 125 {
            Some(ComponentId::ScaleLogicTriggerListener)
        } else if n == 126 {
            Some(ComponentId::VirusSpiritWarpTeaserLogic)
        } else if n == 127 {
            Some(ComponentId::CarReplayData)
        } else if n == 128 {
            Some(ComponentId::LevelImageCamera)
        } else if n == 129 {
            Some(ComponentId::ParticlesGPU)
        } else if n == 130 {
            Some(ComponentId::KillGridBox)
        } else if n == 131 {
            Some(ComponentId::GoldenSimples)
        } else if n == 132 {
            Some(ComponentId::SetActiveAfterWarp)
        } else if n == 133 {
            Some(ComponentId::AmbientAudioObject)
        } else if n == 134 {
            Some(ComponentId::BiodomeAudioInterpolator)
        } else if n == 135 {
            Some(ComponentId::MoveElectricityAlongWire)
        } else if n == 136 {
            Some(ComponentId::ActivationRampLogic)
        } else if n == 137 {
            Some(ComponentId::ZEventTrigger)
        } else if n == 138 {
            Some(ComponentId::ZEventListener)
        } else if n == 139 {
            Some(ComponentId::BlackPortalLogic)
        } else if n == 140 {
            Some(ComponentId::VRSettings)
        } else if n == 141 {
            Some(ComponentId::CutsceneCamera)
        } else if n == 142 {
            Some(ComponentId::ProfileStats)
        } else if n == 143 {
            Some(ComponentId::InterpolateToRotationOnTrigger)
        } else if n == 144 {
            Some(ComponentId::MoveAlongAttachedTrack)
        } else if n == 145 {
            Some(ComponentId::ShowDuringGlitch)
        } else if n == 146 {
            Some(ComponentId::AddCameraNoise)
        } else if n == 147 {
            Some(ComponentId::CarVoiceTrigger)
        } else if n == 148 {
            Some(ComponentId::HoverScreenSpecialObjectTrigger)
        } else if n == 149 {
            Some(ComponentId::ReplaySettings)
        } else if n == 150 {
            Some(ComponentId::CutsceneCamForTrailer)
        } else if n == 151 {
            Some(ComponentId::LevelInfos)
        } else if n == 152 {
            Some(ComponentId::AchievementTrigger)
        } else if n == 153 {
            Some(ComponentId::ArenaCarSpawner)
        } else if n == 154 {
            Some(ComponentId::Animated)
        } else if n == 155 {
            Some(ComponentId::BlinkInTrigger)
        } else if n == 156 {
            Some(ComponentId::CarScreenImageTrigger)
        } else if n == 157 {
            Some(ComponentId::ExcludeFromEMP)
        } else if n == 158 {
            Some(ComponentId::InfiniteCooldownTrigger)
        } else if n == 159 {
            Some(ComponentId::DiscoverableStuntArea)
        } else if n == 160 {
            Some(ComponentId::ForceVolume)
        } else if n == 161 {
            Some(ComponentId::AdventureModeCompleteTrigger)
        } else if n == 162 {
            Some(ComponentId::CountdownTextMeshLogic)
        } else if n == 163 {
            Some(ComponentId::AbilitySignButtonColorLogic)
        } else if n == 164 {
            Some(ComponentId::GoldenAnimator)
        } else if n == 165 {
            Some(ComponentId::StuntCollectibleSpawner)
        } else if n == 166 {
            Some(ComponentId::AnimatorAudio)
        } else if n == 167 {
            Some(ComponentId::AnimatorCameraShake)
        } else if n == 168 {
            Some(ComponentId::ShardCluster)
        } else if n == 169 {
            Some(ComponentId::AdventureSpecialIntro)
        } else if n == 170 {
            Some(ComponentId::AudioEffectZone)
        } else if n == 171 {
            Some(ComponentId::CinematicCamera)
        } else if n == 172 {
            Some(ComponentId::CinematicCameraFocalPoint)
        } else if n == 173 {
            Some(ComponentId::SetAbilitiesTrigger)
        } else if n == 174 {
            Some(ComponentId::LostToEchoesIntroCutscene)
        } else if n == 175 {
            Some(ComponentId::CutsceneText)
        } else if n == 176 {
            Some(ComponentId::UltraPlanet)
        } else if n == 177 {
            Some(ComponentId::DeadCarLogic)
        } else if n == 178 {
            Some(ComponentId::RollingBarrelDropperLogic)
        } else if n == 179 {
            Some(ComponentId::AdventureFinishTrigger)
        } else if n == 180 {
            Some(ComponentId::AchievementSettings)
        } else if n == 181 {
            Some(ComponentId::InterpolateRTPCLogic)
        } else if n == 182 {
            Some(ComponentId::TriggerCooldownLogic)
        } else if n == 183 {
            Some(ComponentId::ShadowsChangedListener)
        } else if n == 184 {
            Some(ComponentId::LookAtCamera)
        } else if n == 185 {
            Some(ComponentId::InterceptorCollectable)
        } else if n == 186 {
            Some(ComponentId::CubeMapRenderer)
        } else if n == 187 {
            Some(ComponentId::RealtimeReflectionRenderer)
        } else if n == 188 {
            Some(ComponentId::VirusDropperDroneLogic)
        } else if n == 189 {
            Some(ComponentId::OnCollisionBreakApartLogic)
        } else if n == 190 {
            Some(ComponentId::CheatSettings)
        } else if n == 191 {
            Some(ComponentId::IgnoreInCullGroups)
        } else if n == 192 {
            Some(ComponentId::IgnoreInputTrigger)
        } else if n == 193 {
            Some(ComponentId::PowerPosterLogic)
        } else if n == 194 {
            Some(ComponentId::MusicZone)
        } else if n == 195 {
            Some(ComponentId::LightsFlickerLogic)
        } else if n == 196 {
            Some(ComponentId::CutsceneManagerLogic)
        } else if n == 197 {
            Some(ComponentId::FadeOut)
        } else if n == 198 {
            Some(ComponentId::Flock)
        } else if n == 199 {
            Some(ComponentId::GPSTrigger)
        } else if n == 200 {
            Some(ComponentId::ResetOnCarDeath)
        } else if n == 201 {
            Some(ComponentId::SprintMode)
        } else if n == 202 {
            Some(ComponentId::StuntMode)
        } else if n == 203 {
            Some(ComponentId::SoccerMode)
        } else if n == 204 {
            Some(ComponentId::FreeRoamMode)
        } else if n == 205 {
            Some(ComponentId::ReverseTagMode)
        } else if n == 206 {
            Some(ComponentId::LevelEditorPlayMode)
        } else if n == 207 {
            Some(ComponentId::CoopSprintMode)
        } else if n == 208 {
            Some(ComponentId::ChallengeMode)
        } else if n == 209 {
            Some(ComponentId::AdventureMode)
        } else if n == 210 {
            Some(ComponentId::SpeedAndStyleMode)
        } else if n == 211 {
            Some(ComponentId::TrackmogrifyMode)
        } else if n == 212 {
            Some(ComponentId::DemoMode)
        } else if n == 213 {
            Some(ComponentId::MainMenuMode)
        } else if n == 214 {
            Some(ComponentId::LostToEchoesMode)
        } else if n == 215 {
            Some(ComponentId::NexusMode)
        } else if n == 216 {
            Some(ComponentId::TheOtherSideMode)
        } else {
            Option::None
        }
    }

    /// The schema version the decoder stores on this kind when it is
    /// typed: the kind's current version constant.
    pub open spec fn spec_implemented_version(self) -> i32 {
        match self {
            ComponentId::Transform => 0,
            ComponentId::MeshRenderer => 2,
            ComponentId::SphereCollider => 1,
            ComponentId::BoxCollider => 2,
            ComponentId::CapsuleCollider => 1,
            ComponentId::TrackLink => 2,
            ComponentId::Group => 1,
            ComponentId::CustomName => 0,
            ComponentId::ProfileProgress => 11,
            ComponentId::CarReplayData => 7,
            ComponentId::GoldenSimples => 4,
            ComponentId::ZEventTrigger => 2,
            ComponentId::ZEventListener => 2,
            ComponentId::ProfileStats => 1,
            ComponentId::LevelInfos => 0,
            ComponentId::Animated => 11,
            _ => 0,
        }
    }

    /// Whether this kind decodes through a typed schema.
    pub fn is_implemented(self) -> (r: bool)
        ensures
            r == spec_component_id_implemented(self),
    {
        match self {
            ComponentId::Transform => true,
            ComponentId::MeshRenderer => true,
            ComponentId::SphereCollider => true,
            ComponentId::BoxCollider => true,
            ComponentId::CapsuleCollider => true,
            ComponentId::TrackLink => true,
            ComponentId::Group => true,
            ComponentId::CustomName => true,
            ComponentId::ProfileProgress => true,
            ComponentId::CarReplayData => true,
            ComponentId::GoldenSimples => true,
            ComponentId::ZEventTrigger => true,
            ComponentId::ZEventListener => true,
            ComponentId::ProfileStats => true,
            ComponentId::LevelInfos => true,
            ComponentId::Animated => true,
            _ => false,
        }
    }
}

impl Default for ComponentId {
    fn default() -> (r: Self)
        ensures
            r == ComponentId::NoneValue,
    {
        ComponentId::NoneValue
    }
}

} // verus!
