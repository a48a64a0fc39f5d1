use voice_daemon::actions::{choose_action, choose_method, EnforcementAction, NotificationMethod};
use voice_daemon::clock::{Moment, LAST_SECOND};
use voice_daemon::issue::can_schedule;
use voice_daemon::levels::{
    ChaosFactor, Score, DEFAULT_CHAOS, FOUR_FIFTHS, MINUS_ZERO, ONE, ONE_FIFTH, ONE_HALF,
    THRESHOLD_WARNINGS, WARNING_THRESHOLD,
};
use voice_daemon::store::state_key;
use voice_daemon::text::{decimal, same_text};

fn word(text: &str) -> Option<String> {
    Some(text.to_string())
}

fn chaos(value: f32) -> ChaosFactor {
    ChaosFactor {
        bits: value.to_bits(),
    }
}

fn score(value: f64) -> Score {
    Score {
        bits: value.to_bits(),
    }
}

#[test]
fn notification_words() {
    use_default_method(None);
    use_default_method(word("PUBLIC"));
    use_default_method(word("Dm"));
    use_default_method(word(""));
    for spelling in ["public", "Public"] {
        assert_eq!(
            choose_method(&word(spelling), NotificationMethod::DirectMessage),
            NotificationMethod::PublicWithMention
        );
    }
    for spelling in ["dm", "DM"] {
        assert_eq!(
            choose_method(&word(spelling), NotificationMethod::PublicWithMention),
            NotificationMethod::DirectMessage
        );
    }
}

fn use_default_method(word: Option<String>) {
    for default in [
        NotificationMethod::DirectMessage,
        NotificationMethod::PublicWithMention,
    ] {
        assert_eq!(choose_method(&word, default), default);
    }
}

#[test]
fn action_words() {
    let t = Some(120);
    let default = Some(EnforcementAction::Kick { delay: Some(1) });
    let named = [
        ("mute", "Mute", EnforcementAction::Mute { duration: t }),
        ("ban", "Ban", EnforcementAction::Ban { duration: t }),
        ("kick", "Kick", EnforcementAction::Kick { delay: t }),
        (
            "voicemute",
            "VoiceMute",
            EnforcementAction::VoiceMute { duration: t },
        ),
        (
            "voicedeafen",
            "VoiceDeafen",
            EnforcementAction::VoiceDeafen { duration: t },
        ),
        (
            "voicedisconnect",
            "VoiceDisconnect",
            EnforcementAction::VoiceDisconnect { delay: t },
        ),
    ];
    for (lower, mixed, action) in named {
        assert_eq!(choose_action(&word(lower), t, default), Some(action));
        assert_eq!(choose_action(&word(mixed), t, None), Some(action));
    }
    for other in [None, word("MUTE"), word("haunt"), word("none")] {
        assert_eq!(choose_action(&other, t, default), default);
        assert_eq!(choose_action(&other, t, None), None);
    }
}

#[test]
fn action_descriptions() {
    let cases = [
        (
            EnforcementAction::VoiceMute { duration: None },
            "Voice mute for 300 seconds",
        ),
        (
            EnforcementAction::VoiceDeafen { duration: Some(9) },
            "Voice deafen for 9 seconds",
        ),
        (
            EnforcementAction::VoiceDisconnect { delay: Some(5) },
            "Voice disconnect",
        ),
        (
            EnforcementAction::Mute { duration: Some(60) },
            "Server mute for 60 seconds",
        ),
        (
            EnforcementAction::Ban { duration: None },
            "Ban for 86400 seconds",
        ),
        (EnforcementAction::Kick { delay: None }, "Kick"),
        (EnforcementAction::NoAction, "No action"),
        (
            EnforcementAction::VoiceChannelHaunt {
                teleport_count: None,
                interval: None,
                return_to_origin: None,
            },
            "Voice channel haunting: 3 teleports over 10 seconds (with return)",
        ),
        (
            EnforcementAction::VoiceChannelHaunt {
                teleport_count: Some(7),
                interval: Some(42),
                return_to_origin: Some(false),
            },
            "Voice channel haunting: 7 teleports over 42 seconds (no return)",
        ),
    ];
    for (action, text) in cases {
        assert_eq!(action.describe(), text);
    }
}

#[test]
fn immediate_actions_fall_due_now() {
    for timing in [None, Some(0), Some(1), Some(u64::MAX)] {
        for action in [
            EnforcementAction::Mute { duration: timing },
            EnforcementAction::Ban { duration: timing },
            EnforcementAction::Kick { delay: timing },
            EnforcementAction::VoiceMute { duration: timing },
            EnforcementAction::VoiceDeafen { duration: timing },
            EnforcementAction::VoiceDisconnect { delay: timing },
            EnforcementAction::VoiceChannelHaunt {
                teleport_count: Some(4),
                interval: timing,
                return_to_origin: None,
            },
        ] {
            assert_eq!(action.is_immediate(), action.delay_seconds() == 0);
            assert_eq!(action.delay_seconds(), timing.unwrap_or(0) as i64);
        }
    }
    assert!(!EnforcementAction::NoAction.is_immediate());
    assert_eq!(EnforcementAction::NoAction.delay_seconds(), 0);
}

#[test]
fn actions_beyond_the_calendar_cannot_fall_due() {
    let now = Moment { secs: 0, nanos: 5 };
    let last = EnforcementAction::Mute {
        duration: Some(LAST_SECOND as u64),
    };
    let beyond = EnforcementAction::Mute {
        duration: Some(LAST_SECOND as u64 + 1),
    };
    let back = EnforcementAction::Mute {
        duration: Some(u64::MAX),
    };
    let far_back = EnforcementAction::Mute {
        duration: Some(i64::MAX as u64 + 1),
    };
    assert!(can_schedule(&last, &now));
    assert!(!can_schedule(&beyond, &now));
    assert!(can_schedule(&back, &now));
    assert!(!can_schedule(&far_back, &now));
}

#[test]
fn marks_are_the_numbers_they_are_named_after() {
    assert_eq!(ONE_FIFTH, 0.2f32.to_bits());
    assert_eq!(DEFAULT_CHAOS, 0.3f32.to_bits());
    assert_eq!(ONE_HALF, 0.5f32.to_bits());
    assert_eq!(FOUR_FIFTHS, 0.8f32.to_bits());
    assert_eq!(ONE, 1.0f32.to_bits());
    assert_eq!(MINUS_ZERO, (-0.0f32).to_bits());
    assert_eq!(WARNING_THRESHOLD, 3.0f64.to_bits());
    assert_eq!(THRESHOLD_WARNINGS, 3.0f64 as u64);
}

#[test]
fn unit_factors_are_those_from_zero_to_one() {
    let mut bits: u32 = 0;
    loop {
        let value = f32::from_bits(bits);
        assert_eq!(ChaosFactor { bits }.unit(), (0.0..=1.0).contains(&value));
        match bits.checked_add(65_521) {
            Some(next) => bits = next,
            None => break,
        }
    }
    assert!(chaos(-0.0).unit());
    assert!(chaos(1.0).unit());
    assert!(!chaos(1.0000001).unit());
    assert!(!chaos(-1.0e-45).unit());
    assert!(!chaos(f32::NAN).unit());
    assert!(!chaos(f32::INFINITY).unit());
    assert!(!chaos(f32::NEG_INFINITY).unit());
}

#[test]
fn positive_factors_leave_something_to_chance() {
    let mut bits: u32 = 0;
    loop {
        let value = f32::from_bits(bits);
        assert_eq!(ChaosFactor { bits }.draws(), value > 0.0);
        match bits.checked_add(65_521) {
            Some(next) => bits = next,
            None => break,
        }
    }
    for value in [
        0.0,
        -0.0,
        1.0e-45,
        -1.0e-45,
        1.0,
        f32::INFINITY,
        f32::NEG_INFINITY,
        f32::NAN,
        -f32::NAN,
    ] {
        assert_eq!(chaos(value).draws(), value > 0.0);
    }
}

#[test]
fn chance_only_adds_enforcement() {
    let draws = [0.0, 1.0e-300, 0.1, 0.15, 0.29, 0.2999999999999999];
    let factor = 0.3f32 as f64;
    for base in [-1.0, 0.0, 2.5, 2.69, 2.7, 2.71, 2.9999999999999996, 3.0, 3.1, 9.0e307] {
        for draw in draws {
            let verdict = score(base + draw).exceeds_threshold();
            if score(base).exceeds_threshold() {
                assert!(verdict);
            }
            if !score(base + factor).exceeds_threshold() {
                assert!(!verdict);
            }
        }
    }
    assert!(score(2.71 + factor).exceeds_threshold());
    assert!(score(2.71 + 0.5).exceeds_threshold());
    assert!(!score(2.6 + factor).exceeds_threshold());
    assert!(score(2.6 + 0.5).exceeds_threshold());
}

#[test]
fn outlooks_change_at_the_marks() {
    let predictable = "Enforcement will be mostly predictable.";
    let some = "Enforcement will have some randomness.";
    let quite = "Enforcement will be quite unpredictable.";
    let highly = "Enforcement will be highly chaotic!";
    for (value, text) in [
        (0.0, predictable),
        (-0.0, predictable),
        (0.19, predictable),
        (f32::from_bits(ONE_FIFTH - 1), predictable),
        (0.2, some),
        (0.3, some),
        (0.49, some),
        (0.5, quite),
        (0.79, quite),
        (0.8, highly),
        (1.0, highly),
    ] {
        assert_eq!(chaos(value).outlook(), text);
    }
}

#[test]
fn scores_exceed_the_threshold_strictly() {
    for value in [
        3.0000000000000004,
        3.1,
        1.0e300,
        f64::INFINITY,
        3.0,
        2.9999999999999996,
        0.0,
        -0.0,
        -4.0,
        f64::NEG_INFINITY,
        f64::NAN,
        -f64::NAN,
    ] {
        assert_eq!(score(value).exceeds_threshold(), value > 3.0);
    }
}

#[test]
fn numbers_and_keys_in_decimal() {
    assert_eq!(decimal(0), "0");
    assert_eq!(decimal(9), "9");
    assert_eq!(decimal(10), "10");
    assert_eq!(decimal(1234567890), "1234567890");
    assert_eq!(decimal(u64::MAX), u64::MAX.to_string());
    assert_eq!(state_key(12, 3), "12:3");
    assert_ne!(state_key(12, 3), state_key(1, 23));
    assert!(same_text(&"dm".to_string(), "dm"));
    assert!(!same_text(&"dm".to_string(), "DM"));
}
