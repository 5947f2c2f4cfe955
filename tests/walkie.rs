use unlight::walkie::{CooldownRule, WalkieEvent, WalkieEventPriority, WalkieRepeatbehaviour};

#[test]
fn urgent_priority_is_urgent() {
    assert!(WalkieEventPriority::Urgent.is_urgent());
    assert!(!WalkieEventPriority::VeryHigh.is_urgent());
    assert!(!WalkieEventPriority::VeryLow.is_urgent());
}

#[test]
fn dice_thresholds() {
    assert_eq!(WalkieRepeatbehaviour::VeryLowRepeat.dice_threshold(), 1);
    assert_eq!(WalkieRepeatbehaviour::LowRepeat.dice_threshold(), 2);
    assert_eq!(WalkieRepeatbehaviour::NormalRepeat.dice_threshold(), 3);
    assert_eq!(WalkieRepeatbehaviour::HighRepeat.dice_threshold(), 6);
    assert_eq!(WalkieRepeatbehaviour::AlwaysRepeat.dice_threshold(), 12);
}

#[test]
fn base_priorities() {
    assert_eq!(WalkieEvent::GearInVan.priority(), WalkieEventPriority::Low);
    assert_eq!(WalkieEvent::GhostNearHunt.priority(), WalkieEventPriority::VeryLow);
    assert_eq!(WalkieEvent::ErraticMovementEarly.priority(), WalkieEventPriority::Urgent);
    assert_eq!(WalkieEvent::GearExplanation(3).priority(), WalkieEventPriority::VeryHigh);
    assert_eq!(WalkieEvent::HuntActiveNearHidingSpotNoHide.priority(), WalkieEventPriority::High);
    assert_eq!(WalkieEvent::PlayerStuckAtStart.priority(), WalkieEventPriority::Medium);
}

#[test]
fn repeat_behaviours() {
    assert_eq!(WalkieEvent::ChapterIntro(1).repeat_behaviour(), WalkieRepeatbehaviour::NormalRepeat);
    assert_eq!(WalkieEvent::GearExplanation(0).repeat_behaviour(), WalkieRepeatbehaviour::VeryLowRepeat);
    assert_eq!(WalkieEvent::IncorrectRepellentHint(2).repeat_behaviour(), WalkieRepeatbehaviour::AlwaysRepeat);
    assert_eq!(WalkieEvent::EVPEvidenceConfirmed.repeat_behaviour(), WalkieRepeatbehaviour::HighRepeat);
    assert_eq!(WalkieEvent::GearInVan.repeat_behaviour(), WalkieRepeatbehaviour::LowRepeat);
}

#[test]
fn always_repeat_keeps_priority() {
    let e = WalkieEvent::IncorrectRepellentHint(1);
    for plays in [0u32, 1, 5, 100] {
        assert_eq!(e.effective_priority(plays), WalkieEventPriority::VeryHigh);
    }
}

#[test]
fn very_low_repeat_drops_four_levels() {
    // Urgent, very low repeat.
    let e = WalkieEvent::ErraticMovementEarly;
    assert_eq!(e.effective_priority(0), WalkieEventPriority::Urgent);
    assert_eq!(e.effective_priority(1), WalkieEventPriority::Low);
    // VeryHigh, very low repeat.
    let e = WalkieEvent::BreachShowcase;
    assert_eq!(e.effective_priority(0), WalkieEventPriority::VeryHigh);
    assert_eq!(e.effective_priority(7), WalkieEventPriority::VeryLow);
}

#[test]
fn low_repeat_steps() {
    // Medium, low repeat.
    let e = WalkieEvent::StrugglingWithGrabDrop;
    assert_eq!(e.effective_priority(0), WalkieEventPriority::Medium);
    assert_eq!(e.effective_priority(1), WalkieEventPriority::Low);
    assert_eq!(e.effective_priority(2), WalkieEventPriority::VeryLow);
    assert_eq!(e.effective_priority(3), WalkieEventPriority::VeryLow);
    assert_eq!(e.effective_priority(4), WalkieEventPriority::VeryLow);
}

#[test]
fn normal_repeat_steps() {
    // Urgent, normal repeat.
    let e = WalkieEvent::HuntWarningNoPlayerEvasion;
    assert_eq!(e.effective_priority(1), WalkieEventPriority::Urgent);
    assert_eq!(e.effective_priority(2), WalkieEventPriority::VeryHigh);
    assert_eq!(e.effective_priority(4), WalkieEventPriority::VeryHigh);
    assert_eq!(e.effective_priority(5), WalkieEventPriority::High);
    assert_eq!(e.effective_priority(9), WalkieEventPriority::High);
    assert_eq!(e.effective_priority(10), WalkieEventPriority::Medium);
}

#[test]
fn high_repeat_steps() {
    // VeryHigh, high repeat.
    let e = WalkieEvent::VeryLowSanityNoTruckReturn;
    assert_eq!(e.effective_priority(3), WalkieEventPriority::VeryHigh);
    assert_eq!(e.effective_priority(4), WalkieEventPriority::High);
    assert_eq!(e.effective_priority(9), WalkieEventPriority::High);
    assert_eq!(e.effective_priority(10), WalkieEventPriority::Medium);
    assert_eq!(e.effective_priority(u32::MAX), WalkieEventPriority::Medium);
}

#[test]
fn very_low_priority_stays_very_low() {
    let e = WalkieEvent::ClearEvidenceFoundNoActionCKey;
    assert_eq!(e.effective_priority(0), WalkieEventPriority::VeryLow);
    assert_eq!(e.effective_priority(50), WalkieEventPriority::VeryLow);
}

#[test]
fn cooldown_rules() {
    assert_eq!(WalkieEvent::GearInVan.cooldown_rule(), CooldownRule::PerPlay(120));
    assert_eq!(WalkieEvent::GhostNearHunt.cooldown_rule(), CooldownRule::CubeRootOfPlays(120));
    assert_eq!(WalkieEvent::ChapterIntro(2).cooldown_rule(), CooldownRule::Once(31_536_000));
    assert_eq!(WalkieEvent::ErraticMovementEarly.cooldown_rule(), CooldownRule::Once(86_400));
    assert_eq!(WalkieEvent::IncorrectRepellentHint(0).cooldown_rule(), CooldownRule::PerPlay(10));
    assert_eq!(WalkieEvent::BreachShowcase.cooldown_rule(), CooldownRule::PerPlay(9000));
    assert_eq!(WalkieEvent::SanityDroppedBelowThresholdGhost.cooldown_rule(), CooldownRule::PerPlay(75));
}
