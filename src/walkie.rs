//! Radio ("walkie") hint configuration: how urgent each hint is, how long it
//! waits before playing again, how often it may repeat across missions, and
//! how its priority decays with repetition.

use vstd::prelude::*;

verus! {

/// Urgency of a radio hint, from least to most urgent.
#[derive(Clone, Copy, Debug, PartialEq, Eq, Hash)]
pub enum WalkieEventPriority {
    VeryLow,
    Low,
    Medium,
    High,
    VeryHigh,
    Urgent,
}

/// How readily a radio hint may be repeated in later missions.
#[derive(Clone, Copy, Debug, PartialEq, Eq, Hash)]
pub enum WalkieRepeatbehaviour {
    VeryLowRepeat,
    LowRepeat,
    NormalRepeat,
    HighRepeat,
    AlwaysRepeat,
}

/// The radio hints that the game can play.
#[derive(Clone, Copy, Debug, PartialEq, Eq, Hash)]
pub enum WalkieEvent {
    GearInVan,
    GhostNearHunt,
    /// Hint that the crafted repellent targets the wrong ghost, by ghost type.
    IncorrectRepellentHint(u32),
    /// Introduction of a chapter, by chapter number.
    ChapterIntro(u32),
    /// Explanation of a piece of gear, by gear kind.
    GearExplanation(u32),
    PlayerStuckAtStart,
    ErraticMovementEarly,
    DoorInteractionHesitation,
    StrugglingWithGrabDrop,
    StrugglingWithHideUnhide,
    HuntActiveNearHidingSpotNoHide,
    DarkRoomNoLightUsed,
    BreachShowcase,
    GhostShowcase,
    RoomLightsOnGearNeedsDark,
    ThermometerNonFreezingFixation,
    GearSelectedNotActivated,
    EMFNonEMF5Fixation,
    LowHealthGeneralWarning,
    VeryLowSanityNoTruckReturn,
    SanityDroppedBelowThresholdDarkness,
    SanityDroppedBelowThresholdGhost,
    QuartzCrackedFeedback,
    QuartzShatteredFeedback,
    QuartzUnusedInRelevantSituation,
    SageUnusedInRelevantSituation,
    SageActivatedIneffectively,
    SageUnusedDefensivelyDuringHunt,
    PlayerStaysHiddenTooLong,
    GhostExpelledPlayerLingers,
    HasRepellentEntersLocation,
    RepellentUsedTooFar,
    RepellentUsedGhostEnragesPlayerFlees,
    RepellentExhaustedGhostPresentCorrectType,
    GhostExpelledPlayerMissed,
    DidNotSwitchStartingGearInHotspot,
    DidNotCycleToOtherGear,
    JournalPointsToOneGhostNoCraft,
    JournalConflictingEvidence,
    FreezingTempsEvidenceConfirmed,
    FloatingOrbsEvidenceConfirmed,
    UVEctoplasmEvidenceConfirmed,
    EMFLevel5EvidenceConfirmed,
    EVPEvidenceConfirmed,
    SpiritBoxEvidenceConfirmed,
    RLPresenceEvidenceConfirmed,
    CPM500EvidenceConfirmed,
    PotentialGhostIDWithNewEvidence,
    ClearEvidenceFoundNoActionCKey,
    ClearEvidenceFoundNoActionTruck,
    InTruckWithEvidenceNoJournal,
    HuntWarningNoPlayerEvasion,
    AllObjectivesMetReminderToEndMission,
    PlayerLeavesTruckWithoutChangingLoadout,
}

/// How long a hint waits before it may play again, given how many times it
/// has played: `PerPlay(s)` waits `s` seconds per play, `CubeRootOfPlays(s)`
/// waits `s` seconds times the cube root of the plays, and `Once(s)` waits a
/// fixed `s` seconds. A count of zero plays counts as one.
#[derive(Clone, Copy, Debug, PartialEq, Eq)]
pub enum CooldownRule {
    PerPlay(u32),
    CubeRootOfPlays(u32),
    Once(u64),
}

/// The cooldown rule of each hint, grouped by rule.
pub open spec fn cooldown_of(e: WalkieEvent) -> CooldownRule {
    match e {
        WalkieEvent::GearInVan
        | WalkieEvent::ThermometerNonFreezingFixation
        | WalkieEvent::LowHealthGeneralWarning
        | WalkieEvent::GhostExpelledPlayerLingers
        | WalkieEvent::EMFNonEMF5Fixation
        | WalkieEvent::ClearEvidenceFoundNoActionCKey
        | WalkieEvent::ClearEvidenceFoundNoActionTruck
        | WalkieEvent::InTruckWithEvidenceNoJournal
        | WalkieEvent::HuntWarningNoPlayerEvasion
        | WalkieEvent::PlayerLeavesTruckWithoutChangingLoadout => CooldownRule::PerPlay(120),
        WalkieEvent::GhostNearHunt => CooldownRule::CubeRootOfPlays(120),
        WalkieEvent::ChapterIntro(_)
        | WalkieEvent::GearExplanation(_) => CooldownRule::Once(31536000),
        WalkieEvent::PlayerStuckAtStart
        | WalkieEvent::StrugglingWithGrabDrop
        | WalkieEvent::StrugglingWithHideUnhide
        | WalkieEvent::DarkRoomNoLightUsed
        | WalkieEvent::QuartzUnusedInRelevantSituation
        | WalkieEvent::SageUnusedInRelevantSituation
        | WalkieEvent::SageActivatedIneffectively
        | WalkieEvent::SageUnusedDefensivelyDuringHunt
        | WalkieEvent::GhostExpelledPlayerMissed
        | WalkieEvent::DidNotSwitchStartingGearInHotspot
        | WalkieEvent::DidNotCycleToOtherGear
        | WalkieEvent::FreezingTempsEvidenceConfirmed
        | WalkieEvent::FloatingOrbsEvidenceConfirmed
        | WalkieEvent::UVEctoplasmEvidenceConfirmed
        | WalkieEvent::EMFLevel5EvidenceConfirmed
        | WalkieEvent::EVPEvidenceConfirmed
        | WalkieEvent::SpiritBoxEvidenceConfirmed
        | WalkieEvent::RLPresenceEvidenceConfirmed
        | WalkieEvent::CPM500EvidenceConfirmed
        | WalkieEvent::PotentialGhostIDWithNewEvidence
        | WalkieEvent::AllObjectivesMetReminderToEndMission => CooldownRule::PerPlay(180),
        WalkieEvent::ErraticMovementEarly
        | WalkieEvent::DoorInteractionHesitation => CooldownRule::Once(86400),
        WalkieEvent::HuntActiveNearHidingSpotNoHide => CooldownRule::PerPlay(30),
        WalkieEvent::BreachShowcase
        | WalkieEvent::GhostShowcase => CooldownRule::PerPlay(9000),
        WalkieEvent::RoomLightsOnGearNeedsDark
        | WalkieEvent::SanityDroppedBelowThresholdDarkness
        | WalkieEvent::PlayerStaysHiddenTooLong
        | WalkieEvent::RepellentUsedGhostEnragesPlayerFlees
        | WalkieEvent::RepellentExhaustedGhostPresentCorrectType => CooldownRule::PerPlay(90),
        WalkieEvent::GearSelectedNotActivated
        | WalkieEvent::HasRepellentEntersLocation
        | WalkieEvent::JournalPointsToOneGhostNoCraft
        | WalkieEvent::JournalConflictingEvidence => CooldownRule::PerPlay(300),
        WalkieEvent::VeryLowSanityNoTruckReturn
        | WalkieEvent::QuartzCrackedFeedback
        | WalkieEvent::QuartzShatteredFeedback
        | WalkieEvent::RepellentUsedTooFar => CooldownRule::PerPlay(60),
        WalkieEvent::SanityDroppedBelowThresholdGhost => CooldownRule::PerPlay(75),
        WalkieEvent::IncorrectRepellentHint(_) => CooldownRule::PerPlay(10),
    }
}

/// Rank of a priority: 0 for `VeryLow` up to 5 for `Urgent`.
pub open spec fn priority_rank(p: WalkieEventPriority) -> nat {
    match p {
        WalkieEventPriority::VeryLow => 0,
        WalkieEventPriority::Low => 1,
        WalkieEventPriority::Medium => 2,
        WalkieEventPriority::High => 3,
        WalkieEventPriority::VeryHigh => 4,
        WalkieEventPriority::Urgent => 5,
    }
}

/// The base priority of each hint, grouped by priority.
pub open spec fn base_priority(e: WalkieEvent) -> WalkieEventPriority {
    match e {
            WalkieEvent::GhostNearHunt
            | WalkieEvent::ClearEvidenceFoundNoActionCKey
            | WalkieEvent::ClearEvidenceFoundNoActionTruck => WalkieEventPriority::VeryLow,
            WalkieEvent::GearInVan
            | WalkieEvent::ChapterIntro(_)
            | WalkieEvent::RoomLightsOnGearNeedsDark
            | WalkieEvent::EMFNonEMF5Fixation
            | WalkieEvent::SageActivatedIneffectively
            | WalkieEvent::PlayerStaysHiddenTooLong
            | WalkieEvent::JournalPointsToOneGhostNoCraft => WalkieEventPriority::Low,
            WalkieEvent::PlayerStuckAtStart
            | WalkieEvent::DoorInteractionHesitation
            | WalkieEvent::StrugglingWithGrabDrop
            | WalkieEvent::StrugglingWithHideUnhide
            | WalkieEvent::DarkRoomNoLightUsed
            | WalkieEvent::ThermometerNonFreezingFixation
            | WalkieEvent::GearSelectedNotActivated
            | WalkieEvent::LowHealthGeneralWarning
            | WalkieEvent::QuartzCrackedFeedback
            | WalkieEvent::QuartzUnusedInRelevantSituation
            | WalkieEvent::SageUnusedInRelevantSituation
            | WalkieEvent::SageUnusedDefensivelyDuringHunt
            | WalkieEvent::HasRepellentEntersLocation
            | WalkieEvent::RepellentUsedTooFar
            | WalkieEvent::RepellentUsedGhostEnragesPlayerFlees
            | WalkieEvent::RepellentExhaustedGhostPresentCorrectType
            | WalkieEvent::GhostExpelledPlayerMissed
            | WalkieEvent::DidNotSwitchStartingGearInHotspot
            | WalkieEvent::DidNotCycleToOtherGear
            | WalkieEvent::JournalConflictingEvidence
            | WalkieEvent::InTruckWithEvidenceNoJournal
            | WalkieEvent::AllObjectivesMetReminderToEndMission
            | WalkieEvent::PlayerLeavesTruckWithoutChangingLoadout => WalkieEventPriority::Medium,
            WalkieEvent::HuntActiveNearHidingSpotNoHide
            | WalkieEvent::SanityDroppedBelowThresholdDarkness
            | WalkieEvent::QuartzShatteredFeedback
            | WalkieEvent::GhostExpelledPlayerLingers => WalkieEventPriority::High,
            WalkieEvent::IncorrectRepellentHint(_)
            | WalkieEvent::GearExplanation(_)
            | WalkieEvent::BreachShowcase
            | WalkieEvent::GhostShowcase
            | WalkieEvent::VeryLowSanityNoTruckReturn
            | WalkieEvent::SanityDroppedBelowThresholdGhost
            | WalkieEvent::FreezingTempsEvidenceConfirmed
            | WalkieEvent::FloatingOrbsEvidenceConfirmed
            | WalkieEvent::UVEctoplasmEvidenceConfirmed
            | WalkieEvent::EMFLevel5EvidenceConfirmed
            | WalkieEvent::EVPEvidenceConfirmed
            | WalkieEvent::SpiritBoxEvidenceConfirmed
            | WalkieEvent::RLPresenceEvidenceConfirmed
            | WalkieEvent::CPM500EvidenceConfirmed
            | WalkieEvent::PotentialGhostIDWithNewEvidence => WalkieEventPriority::VeryHigh,
            WalkieEvent::ErraticMovementEarly
            | WalkieEvent::HuntWarningNoPlayerEvasion => WalkieEventPriority::Urgent,
    }
}

/// The repeat behaviour of each hint, grouped by behaviour.
pub open spec fn base_repeat(e: WalkieEvent) -> WalkieRepeatbehaviour {
    match e {
            WalkieEvent::GearExplanation(_)
            | WalkieEvent::ErraticMovementEarly
            | WalkieEvent::DoorInteractionHesitation
            | WalkieEvent::BreachShowcase
            | WalkieEvent::GhostShowcase
            | WalkieEvent::PlayerLeavesTruckWithoutChangingLoadout => WalkieRepeatbehaviour::VeryLowRepeat,
            WalkieEvent::StrugglingWithGrabDrop
            | WalkieEvent::StrugglingWithHideUnhide
            | WalkieEvent::DarkRoomNoLightUsed
            | WalkieEvent::ThermometerNonFreezingFixation
            | WalkieEvent::EMFNonEMF5Fixation
            | WalkieEvent::DidNotSwitchStartingGearInHotspot
            | WalkieEvent::DidNotCycleToOtherGear
            | WalkieEvent::GearInVan
            | WalkieEvent::ClearEvidenceFoundNoActionCKey
            | WalkieEvent::ClearEvidenceFoundNoActionTruck => WalkieRepeatbehaviour::LowRepeat,
            WalkieEvent::ChapterIntro(_)
            | WalkieEvent::HuntWarningNoPlayerEvasion
            | WalkieEvent::LowHealthGeneralWarning
            | WalkieEvent::HuntActiveNearHidingSpotNoHide
            | WalkieEvent::GhostNearHunt
            | WalkieEvent::QuartzCrackedFeedback
            | WalkieEvent::QuartzShatteredFeedback
            | WalkieEvent::PlayerStuckAtStart
            | WalkieEvent::GearSelectedNotActivated
            | WalkieEvent::RoomLightsOnGearNeedsDark
            | WalkieEvent::HasRepellentEntersLocation
            | WalkieEvent::RepellentUsedTooFar
            | WalkieEvent::RepellentUsedGhostEnragesPlayerFlees
            | WalkieEvent::RepellentExhaustedGhostPresentCorrectType
            | WalkieEvent::JournalConflictingEvidence
            | WalkieEvent::InTruckWithEvidenceNoJournal
            | WalkieEvent::QuartzUnusedInRelevantSituation
            | WalkieEvent::SageUnusedInRelevantSituation
            | WalkieEvent::SageActivatedIneffectively
            | WalkieEvent::SageUnusedDefensivelyDuringHunt
            | WalkieEvent::PlayerStaysHiddenTooLong => WalkieRepeatbehaviour::NormalRepeat,
            WalkieEvent::VeryLowSanityNoTruckReturn
            | WalkieEvent::FreezingTempsEvidenceConfirmed
            | WalkieEvent::FloatingOrbsEvidenceConfirmed
            | WalkieEvent::UVEctoplasmEvidenceConfirmed
            | WalkieEvent::EMFLevel5EvidenceConfirmed
            | WalkieEvent::EVPEvidenceConfirmed
            | WalkieEvent::SpiritBoxEvidenceConfirmed
            | WalkieEvent::RLPresenceEvidenceConfirmed
            | WalkieEvent::CPM500EvidenceConfirmed
            | WalkieEvent::JournalPointsToOneGhostNoCraft
            | WalkieEvent::AllObjectivesMetReminderToEndMission
            | WalkieEvent::GhostExpelledPlayerLingers
            | WalkieEvent::SanityDroppedBelowThresholdDarkness
            | WalkieEvent::SanityDroppedBelowThresholdGhost => WalkieRepeatbehaviour::HighRepeat,
            WalkieEvent::IncorrectRepellentHint(_)
            | WalkieEvent::PotentialGhostIDWithNewEvidence
            | WalkieEvent::GhostExpelledPlayerMissed => WalkieRepeatbehaviour::AlwaysRepeat,
    }
}

/// The dice threshold of each repeat behaviour: a cross-mission dice roll
/// above it suppresses the hint.
pub open spec fn threshold_of(r: WalkieRepeatbehaviour) -> u32 {
    match r {
        WalkieRepeatbehaviour::VeryLowRepeat => 1,
        WalkieRepeatbehaviour::LowRepeat => 2,
        WalkieRepeatbehaviour::NormalRepeat => 3,
        WalkieRepeatbehaviour::HighRepeat => 6,
        WalkieRepeatbehaviour::AlwaysRepeat => 12,
    }
}

/// How many priority ranks a hint loses after `plays` plays in earlier
/// missions, by its repeat behaviour.
pub open spec fn downgrade_steps(r: WalkieRepeatbehaviour, plays: u32) -> nat {
    match r {
        WalkieRepeatbehaviour::VeryLowRepeat => if plays == 0 { 0 } else { 4 },
        WalkieRepeatbehaviour::LowRepeat => if plays == 0 {
            0
        } else if plays == 1 {
            1
        } else if plays <= 3 {
            2
        } else {
            3
        },
        WalkieRepeatbehaviour::NormalRepeat => if plays <= 1 {
            0
        } else if plays <= 4 {
            1
        } else if plays <= 9 {
            2
        } else {
            3
        },
        WalkieRepeatbehaviour::HighRepeat => if plays <= 3 {
            0
        } else if plays <= 9 {
            1
        } else {
            2
        },
        WalkieRepeatbehaviour::AlwaysRepeat => 0,
    }
}

/// The rank left after dropping `steps` ranks from `p`, never below `VeryLow`.
pub open spec fn lowered_rank(p: WalkieEventPriority, steps: nat) -> nat {
    if priority_rank(p) >= steps {
        (priority_rank(p) - steps) as nat
    } else {
        0
    }
}

/// Playing a hint more often never raises its effective priority.
pub proof fn lemma_effective_priority_monotone(e: WalkieEvent, fewer: u32, more: u32)
    requires
        fewer <= more,
    ensures
        lowered_rank(base_priority(e), downgrade_steps(base_repeat(e), more)) <= lowered_rank(
            base_priority(e),
            downgrade_steps(base_repeat(e), fewer),
        ),
{
}

impl WalkieEventPriority {
    pub fn is_urgent(&self) -> (r: bool)
        ensures
            r == (*self == WalkieEventPriority::Urgent),
    {
        matches!(self, WalkieEventPriority::Urgent)
    }
}

impl WalkieRepeatbehaviour {
    /// Dice threshold for cross-mission repeat suppression: a higher threshold
    /// suppresses the hint less often.
    pub fn dice_threshold(&self) -> (r: u32)
        ensures
            r == threshold_of(*self),
    {
        match self {
            WalkieRepeatbehaviour::VeryLowRepeat => 1,
            WalkieRepeatbehaviour::LowRepeat => 2,
            WalkieRepeatbehaviour::NormalRepeat => 3,
            WalkieRepeatbehaviour::HighRepeat => 6,
            WalkieRepeatbehaviour::AlwaysRepeat => 12,
        }
    }
}

impl WalkieEvent {
    /// The rule that sets how long this hint waits before playing again.
    pub fn cooldown_rule(&self) -> (r: CooldownRule)
        ensures
            r == cooldown_of(*self),
    {
        match self {
            WalkieEvent::GearInVan => CooldownRule::PerPlay(120),
            WalkieEvent::GhostNearHunt => CooldownRule::CubeRootOfPlays(120),
            WalkieEvent::ChapterIntro(_) => CooldownRule::Once(31536000),
            WalkieEvent::GearExplanation(_) => CooldownRule::Once(31536000),
            WalkieEvent::PlayerStuckAtStart => CooldownRule::PerPlay(180),
            WalkieEvent::ErraticMovementEarly => CooldownRule::Once(86400),
            WalkieEvent::DoorInteractionHesitation => CooldownRule::Once(86400),
            WalkieEvent::StrugglingWithGrabDrop => CooldownRule::PerPlay(180),
            WalkieEvent::StrugglingWithHideUnhide => CooldownRule::PerPlay(180),
            WalkieEvent::HuntActiveNearHidingSpotNoHide => CooldownRule::PerPlay(30),
            WalkieEvent::DarkRoomNoLightUsed => CooldownRule::PerPlay(180),
            WalkieEvent::BreachShowcase => CooldownRule::PerPlay(9000),
            WalkieEvent::GhostShowcase => CooldownRule::PerPlay(9000),
            WalkieEvent::RoomLightsOnGearNeedsDark => CooldownRule::PerPlay(90),
            WalkieEvent::ThermometerNonFreezingFixation => CooldownRule::PerPlay(120),
            WalkieEvent::GearSelectedNotActivated => CooldownRule::PerPlay(300),
            WalkieEvent::LowHealthGeneralWarning => CooldownRule::PerPlay(120),
            WalkieEvent::VeryLowSanityNoTruckReturn => CooldownRule::PerPlay(60),
            WalkieEvent::SanityDroppedBelowThresholdDarkness => CooldownRule::PerPlay(90),
            WalkieEvent::SanityDroppedBelowThresholdGhost => CooldownRule::PerPlay(75),
            WalkieEvent::QuartzCrackedFeedback => CooldownRule::PerPlay(60),
            WalkieEvent::QuartzShatteredFeedback => CooldownRule::PerPlay(60),
            WalkieEvent::QuartzUnusedInRelevantSituation => CooldownRule::PerPlay(180),
            WalkieEvent::SageUnusedInRelevantSituation => CooldownRule::PerPlay(180),
            WalkieEvent::SageActivatedIneffectively => CooldownRule::PerPlay(180),
            WalkieEvent::SageUnusedDefensivelyDuringHunt => CooldownRule::PerPlay(180),
            WalkieEvent::PlayerStaysHiddenTooLong => CooldownRule::PerPlay(90),
            WalkieEvent::GhostExpelledPlayerLingers => CooldownRule::PerPlay(120),
            WalkieEvent::HasRepellentEntersLocation => CooldownRule::PerPlay(300),
            WalkieEvent::RepellentUsedTooFar => CooldownRule::PerPlay(60),
            WalkieEvent::RepellentUsedGhostEnragesPlayerFlees => CooldownRule::PerPlay(90),
            WalkieEvent::RepellentExhaustedGhostPresentCorrectType => CooldownRule::PerPlay(90),
            WalkieEvent::GhostExpelledPlayerMissed => CooldownRule::PerPlay(180),
            WalkieEvent::DidNotSwitchStartingGearInHotspot => CooldownRule::PerPlay(180),
            WalkieEvent::DidNotCycleToOtherGear => CooldownRule::PerPlay(180),
            WalkieEvent::JournalPointsToOneGhostNoCraft => CooldownRule::PerPlay(300),
            WalkieEvent::EMFNonEMF5Fixation => CooldownRule::PerPlay(120),
            WalkieEvent::JournalConflictingEvidence => CooldownRule::PerPlay(300),
            WalkieEvent::FreezingTempsEvidenceConfirmed => CooldownRule::PerPlay(180),
            WalkieEvent::FloatingOrbsEvidenceConfirmed => CooldownRule::PerPlay(180),
            WalkieEvent::UVEctoplasmEvidenceConfirmed => CooldownRule::PerPlay(180),
            WalkieEvent::EMFLevel5EvidenceConfirmed => CooldownRule::PerPlay(180),
            WalkieEvent::EVPEvidenceConfirmed => CooldownRule::PerPlay(180),
            WalkieEvent::SpiritBoxEvidenceConfirmed => CooldownRule::PerPlay(180),
            WalkieEvent::RLPresenceEvidenceConfirmed => CooldownRule::PerPlay(180),
            WalkieEvent::CPM500EvidenceConfirmed => CooldownRule::PerPlay(180),
            WalkieEvent::PotentialGhostIDWithNewEvidence => CooldownRule::PerPlay(180),
            WalkieEvent::ClearEvidenceFoundNoActionCKey => CooldownRule::PerPlay(120),
            WalkieEvent::ClearEvidenceFoundNoActionTruck => CooldownRule::PerPlay(120),
            WalkieEvent::InTruckWithEvidenceNoJournal => CooldownRule::PerPlay(120),
            WalkieEvent::HuntWarningNoPlayerEvasion => CooldownRule::PerPlay(120),
            WalkieEvent::AllObjectivesMetReminderToEndMission => CooldownRule::PerPlay(180),
            WalkieEvent::PlayerLeavesTruckWithoutChangingLoadout => CooldownRule::PerPlay(120),
            WalkieEvent::IncorrectRepellentHint(_) => CooldownRule::PerPlay(10),
        }
    }

    pub fn priority(&self) -> (r: WalkieEventPriority)
        ensures
            r == base_priority(*self),
    {
        match self {
            WalkieEvent::GearInVan => WalkieEventPriority::Low,
            WalkieEvent::GhostNearHunt => WalkieEventPriority::VeryLow,
            WalkieEvent::IncorrectRepellentHint(_) => WalkieEventPriority::VeryHigh,
            WalkieEvent::ChapterIntro(_) => WalkieEventPriority::Low,
            WalkieEvent::GearExplanation(_) => WalkieEventPriority::VeryHigh,
            WalkieEvent::PlayerStuckAtStart => WalkieEventPriority::Medium,
            WalkieEvent::ErraticMovementEarly => WalkieEventPriority::Urgent,
            WalkieEvent::DoorInteractionHesitation => WalkieEventPriority::Medium,
            WalkieEvent::StrugglingWithGrabDrop => WalkieEventPriority::Medium,
            WalkieEvent::StrugglingWithHideUnhide => WalkieEventPriority::Medium,
            WalkieEvent::HuntActiveNearHidingSpotNoHide => WalkieEventPriority::High,
            WalkieEvent::DarkRoomNoLightUsed => WalkieEventPriority::Medium,
            WalkieEvent::BreachShowcase => WalkieEventPriority::VeryHigh,
            WalkieEvent::GhostShowcase => WalkieEventPriority::VeryHigh,
            WalkieEvent::RoomLightsOnGearNeedsDark => WalkieEventPriority::Low,
            WalkieEvent::ThermometerNonFreezingFixation => WalkieEventPriority::Medium,
            WalkieEvent::GearSelectedNotActivated => WalkieEventPriority::Medium,
            WalkieEvent::EMFNonEMF5Fixation => WalkieEventPriority::Low,
            WalkieEvent::LowHealthGeneralWarning => WalkieEventPriority::Medium,
            WalkieEvent::VeryLowSanityNoTruckReturn => WalkieEventPriority::VeryHigh,
            WalkieEvent::SanityDroppedBelowThresholdDarkness => WalkieEventPriority::High,
            WalkieEvent::SanityDroppedBelowThresholdGhost => WalkieEventPriority::VeryHigh,
            WalkieEvent::QuartzCrackedFeedback => WalkieEventPriority::Medium,
            WalkieEvent::QuartzShatteredFeedback => WalkieEventPriority::High,
            WalkieEvent::QuartzUnusedInRelevantSituation => WalkieEventPriority::Medium,
            WalkieEvent::SageUnusedInRelevantSituation => WalkieEventPriority::Medium,
            WalkieEvent::SageActivatedIneffectively => WalkieEventPriority::Low,
            WalkieEvent::SageUnusedDefensivelyDuringHunt => WalkieEventPriority::Medium,
            WalkieEvent::PlayerStaysHiddenTooLong => WalkieEventPriority::Low,
            WalkieEvent::GhostExpelledPlayerLingers => WalkieEventPriority::High,
            WalkieEvent::HasRepellentEntersLocation => WalkieEventPriority::Medium,
            WalkieEvent::RepellentUsedTooFar => WalkieEventPriority::Medium,
            WalkieEvent::RepellentUsedGhostEnragesPlayerFlees => WalkieEventPriority::Medium,
            WalkieEvent::RepellentExhaustedGhostPresentCorrectType => WalkieEventPriority::Medium,
            WalkieEvent::GhostExpelledPlayerMissed => WalkieEventPriority::Medium,
            WalkieEvent::DidNotSwitchStartingGearInHotspot => WalkieEventPriority::Medium,
            WalkieEvent::DidNotCycleToOtherGear => WalkieEventPriority::Medium,
            WalkieEvent::JournalPointsToOneGhostNoCraft => WalkieEventPriority::Low,
            WalkieEvent::JournalConflictingEvidence => WalkieEventPriority::Medium,
            WalkieEvent::FreezingTempsEvidenceConfirmed => WalkieEventPriority::VeryHigh,
            WalkieEvent::FloatingOrbsEvidenceConfirmed => WalkieEventPriority::VeryHigh,
            WalkieEvent::UVEctoplasmEvidenceConfirmed => WalkieEventPriority::VeryHigh,
            WalkieEvent::EMFLevel5EvidenceConfirmed => WalkieEventPriority::VeryHigh,
            WalkieEvent::EVPEvidenceConfirmed => WalkieEventPriority::VeryHigh,
            WalkieEvent::SpiritBoxEvidenceConfirmed => WalkieEventPriority::VeryHigh,
            WalkieEvent::RLPresenceEvidenceConfirmed => WalkieEventPriority::VeryHigh,
            WalkieEvent::CPM500EvidenceConfirmed => WalkieEventPriority::VeryHigh,
            WalkieEvent::PotentialGhostIDWithNewEvidence => WalkieEventPriority::VeryHigh,
            WalkieEvent::ClearEvidenceFoundNoActionCKey => WalkieEventPriority::VeryLow,
            WalkieEvent::ClearEvidenceFoundNoActionTruck => WalkieEventPriority::VeryLow,
            WalkieEvent::InTruckWithEvidenceNoJournal => WalkieEventPriority::Medium,
            WalkieEvent::HuntWarningNoPlayerEvasion => WalkieEventPriority::Urgent,
            WalkieEvent::AllObjectivesMetReminderToEndMission => WalkieEventPriority::Medium,
            WalkieEvent::PlayerLeavesTruckWithoutChangingLoadout => WalkieEventPriority::Medium,
        }
    }

    /// The repeat behaviour configured for this hint.
    pub fn repeat_behaviour(&self) -> (r: WalkieRepeatbehaviour)
        ensures
            r == base_repeat(*self),
    {
        match self {
            WalkieEvent::ChapterIntro(_) => WalkieRepeatbehaviour::NormalRepeat,
            WalkieEvent::GearExplanation(_) => WalkieRepeatbehaviour::VeryLowRepeat,
            WalkieEvent::ErraticMovementEarly => WalkieRepeatbehaviour::VeryLowRepeat,
            WalkieEvent::DoorInteractionHesitation => WalkieRepeatbehaviour::VeryLowRepeat,
            WalkieEvent::BreachShowcase => WalkieRepeatbehaviour::VeryLowRepeat,
            WalkieEvent::GhostShowcase => WalkieRepeatbehaviour::VeryLowRepeat,
            WalkieEvent::PlayerLeavesTruckWithoutChangingLoadout => WalkieRepeatbehaviour::VeryLowRepeat,
            WalkieEvent::HuntWarningNoPlayerEvasion => WalkieRepeatbehaviour::NormalRepeat,
            WalkieEvent::VeryLowSanityNoTruckReturn => WalkieRepeatbehaviour::HighRepeat,
            WalkieEvent::LowHealthGeneralWarning => WalkieRepeatbehaviour::NormalRepeat,
            WalkieEvent::HuntActiveNearHidingSpotNoHide => WalkieRepeatbehaviour::NormalRepeat,
            WalkieEvent::FreezingTempsEvidenceConfirmed => WalkieRepeatbehaviour::HighRepeat,
            WalkieEvent::FloatingOrbsEvidenceConfirmed => WalkieRepeatbehaviour::HighRepeat,
            WalkieEvent::UVEctoplasmEvidenceConfirmed => WalkieRepeatbehaviour::HighRepeat,
            WalkieEvent::EMFLevel5EvidenceConfirmed => WalkieRepeatbehaviour::HighRepeat,
            WalkieEvent::EVPEvidenceConfirmed => WalkieRepeatbehaviour::HighRepeat,
            WalkieEvent::SpiritBoxEvidenceConfirmed => WalkieRepeatbehaviour::HighRepeat,
            WalkieEvent::RLPresenceEvidenceConfirmed => WalkieRepeatbehaviour::HighRepeat,
            WalkieEvent::CPM500EvidenceConfirmed => WalkieRepeatbehaviour::HighRepeat,
            WalkieEvent::IncorrectRepellentHint(_) => WalkieRepeatbehaviour::AlwaysRepeat,
            WalkieEvent::GhostNearHunt => WalkieRepeatbehaviour::NormalRepeat,
            WalkieEvent::QuartzCrackedFeedback => WalkieRepeatbehaviour::NormalRepeat,
            WalkieEvent::QuartzShatteredFeedback => WalkieRepeatbehaviour::NormalRepeat,
            WalkieEvent::JournalPointsToOneGhostNoCraft => WalkieRepeatbehaviour::HighRepeat,
            WalkieEvent::AllObjectivesMetReminderToEndMission => WalkieRepeatbehaviour::HighRepeat,
            WalkieEvent::GhostExpelledPlayerLingers => WalkieRepeatbehaviour::HighRepeat,
            WalkieEvent::PotentialGhostIDWithNewEvidence => WalkieRepeatbehaviour::AlwaysRepeat,
            WalkieEvent::GhostExpelledPlayerMissed => WalkieRepeatbehaviour::AlwaysRepeat,
            WalkieEvent::StrugglingWithGrabDrop => WalkieRepeatbehaviour::LowRepeat,
            WalkieEvent::StrugglingWithHideUnhide => WalkieRepeatbehaviour::LowRepeat,
            WalkieEvent::DarkRoomNoLightUsed => WalkieRepeatbehaviour::LowRepeat,
            WalkieEvent::ThermometerNonFreezingFixation => WalkieRepeatbehaviour::LowRepeat,
            WalkieEvent::EMFNonEMF5Fixation => WalkieRepeatbehaviour::LowRepeat,
            WalkieEvent::DidNotSwitchStartingGearInHotspot => WalkieRepeatbehaviour::LowRepeat,
            WalkieEvent::DidNotCycleToOtherGear => WalkieRepeatbehaviour::LowRepeat,
            WalkieEvent::PlayerStuckAtStart => WalkieRepeatbehaviour::NormalRepeat,
            WalkieEvent::GearSelectedNotActivated => WalkieRepeatbehaviour::NormalRepeat,
            WalkieEvent::RoomLightsOnGearNeedsDark => WalkieRepeatbehaviour::NormalRepeat,
            WalkieEvent::SanityDroppedBelowThresholdDarkness => WalkieRepeatbehaviour::HighRepeat,
            WalkieEvent::SanityDroppedBelowThresholdGhost => WalkieRepeatbehaviour::HighRepeat,
            WalkieEvent::HasRepellentEntersLocation => WalkieRepeatbehaviour::NormalRepeat,
            WalkieEvent::RepellentUsedTooFar => WalkieRepeatbehaviour::NormalRepeat,
            WalkieEvent::RepellentUsedGhostEnragesPlayerFlees => WalkieRepeatbehaviour::NormalRepeat,
            WalkieEvent::RepellentExhaustedGhostPresentCorrectType => WalkieRepeatbehaviour::NormalRepeat,
            WalkieEvent::JournalConflictingEvidence => WalkieRepeatbehaviour::NormalRepeat,
            WalkieEvent::InTruckWithEvidenceNoJournal => WalkieRepeatbehaviour::NormalRepeat,
            WalkieEvent::QuartzUnusedInRelevantSituation => WalkieRepeatbehaviour::NormalRepeat,
            WalkieEvent::SageUnusedInRelevantSituation => WalkieRepeatbehaviour::NormalRepeat,
            WalkieEvent::SageActivatedIneffectively => WalkieRepeatbehaviour::NormalRepeat,
            WalkieEvent::SageUnusedDefensivelyDuringHunt => WalkieRepeatbehaviour::NormalRepeat,
            WalkieEvent::PlayerStaysHiddenTooLong => WalkieRepeatbehaviour::NormalRepeat,
            WalkieEvent::GearInVan => WalkieRepeatbehaviour::LowRepeat,
            WalkieEvent::ClearEvidenceFoundNoActionCKey => WalkieRepeatbehaviour::LowRepeat,
            WalkieEvent::ClearEvidenceFoundNoActionTruck => WalkieRepeatbehaviour::LowRepeat,
        }
    }

    /// The priority of this hint once lowered for the times it was already
    /// played in earlier missions, so that fresh hints take precedence.
    /// Hints that always repeat keep their priority.
    pub fn effective_priority(&self, previous_mission_play_count: u32) -> (r: WalkieEventPriority)
        ensures
            priority_rank(r) == lowered_rank(
                base_priority(*self),
                downgrade_steps(base_repeat(*self), previous_mission_play_count),
            ),
            priority_rank(r) <= priority_rank(base_priority(*self)),
    {
        let base = self.priority();
        let repeat = self.repeat_behaviour();
        if matches!(repeat, WalkieRepeatbehaviour::AlwaysRepeat) {
            return base;
        }
        let steps: u32 = match repeat {
            WalkieRepeatbehaviour::VeryLowRepeat => match previous_mission_play_count {
                0 => 0,
                _ => 4,
            },
            WalkieRepeatbehaviour::LowRepeat => match previous_mission_play_count {
                0 => 0,
                1 => 1,
                2..=3 => 2,
                _ => 3,
            },
            WalkieRepeatbehaviour::NormalRepeat => match previous_mission_play_count {
                0..=1 => 0,
                2..=4 => 1,
                5..=9 => 2,
                _ => 3,
            },
            WalkieRepeatbehaviour::HighRepeat => match previous_mission_play_count {
                0..=3 => 0,
                4..=9 => 1,
                _ => 2,
            },
            WalkieRepeatbehaviour::AlwaysRepeat => 0,
        };
        match base {
            WalkieEventPriority::Urgent => match steps {
                0 => WalkieEventPriority::Urgent,
                1 => WalkieEventPriority::VeryHigh,
                2 => WalkieEventPriority::High,
                3 => WalkieEventPriority::Medium,
                _ => WalkieEventPriority::Low,
            },
            WalkieEventPriority::VeryHigh => match steps {
                0 => WalkieEventPriority::VeryHigh,
                1 => WalkieEventPriority::High,
                2 => WalkieEventPriority::Medium,
                3 => WalkieEventPriority::Low,
                _ => WalkieEventPriority::VeryLow,
            },
            WalkieEventPriority::High => match steps {
                0 => WalkieEventPriority::High,
                1 => WalkieEventPriority::Medium,
                2 => WalkieEventPriority::Low,
                _ => WalkieEventPriority::VeryLow,
            },
            WalkieEventPriority::Medium => match steps {
                0 => WalkieEventPriority::Medium,
                1 => WalkieEventPriority::Low,
                _ => WalkieEventPriority::VeryLow,
            },
            WalkieEventPriority::Low => match steps {
                0 => WalkieEventPriority::Low,
                _ => WalkieEventPriority::VeryLow,
            },
            WalkieEventPriority::VeryLow => WalkieEventPriority::VeryLow,
        }
    }
}

} // verus!
