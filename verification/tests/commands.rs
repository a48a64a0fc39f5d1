use dashmap::DashMap;
use voice_daemon::actions::{EnforcementAction, NotificationMethod};
use voice_daemon::clock::{Moment, LAST_SECOND};
use voice_daemon::commands::altar::daemon_altar;
use voice_daemon::commands::appeasement::{appease, appease_walked, choose_pending};
use voice_daemon::commands::chaos::chaos_ritual;
use voice_daemon::commands::definition::{Command, Permission};
use voice_daemon::commands::summon::{summon_daemon, summon_daemon_at};
use voice_daemon::commands::warning::{private_notice, settle, warn, warn_at};
use voice_daemon::commands::{CommandError, Invocation, User};
use voice_daemon::issue::Stamps;
use voice_daemon::levels::{ChaosFactor, Score, DEFAULT_CHAOS};
use voice_daemon::messages::{Colour, Effect, Embed, EnforcementCheckRequest};
use voice_daemon::records::{GuildConfig, PendingEnforcement, UserWarningState};
use voice_daemon::script::{OnFailure, Script, Step};
use voice_daemon::store::Data;

const GUILD: u64 = 77;
const MODERATOR: u64 = 5;

fn empty() -> Data {
    Data {
        guild_defaults: GuildConfig {
            guild_id: 0,
            default_notification_method: NotificationMethod::DirectMessage,
            default_enforcement: None,
            chaos_factor: ChaosFactor { bits: 0 },
            enforcement_log_channel_id: None,
        },
        guild_configs: DashMap::new(),
        user_warning_states: DashMap::new(),
        warnings: DashMap::new(),
        pending_enforcements: DashMap::new(),
    }
}

fn bob() -> User {
    User {
        id: 42,
        name: "Bob".to_string(),
    }
}

fn here() -> Invocation {
    Invocation {
        guild_id: Some(GUILD),
        author_id: MODERATOR,
    }
}

fn nowhere() -> Invocation {
    Invocation {
        guild_id: None,
        author_id: MODERATOR,
    }
}

fn word(text: &str) -> Option<String> {
    Some(text.to_string())
}

fn stamps(n: u32) -> Stamps {
    Stamps {
        warning_id: format!("w{n}"),
        enforcement_id: format!("e{n}"),
        issued: Moment { secs: 0, nanos: 0 },
        scheduled: Moment {
            secs: 1,
            nanos: 500_000_000,
        },
    }
}

fn standing(count: usize, pending: Option<EnforcementAction>) -> UserWarningState {
    UserWarningState {
        warning_timestamps: (0..count).map(|i| format!("t{i}")).collect(),
        pending_enforcement: pending,
    }
}

fn score(value: f64) -> Score {
    Score {
        bits: value.to_bits(),
    }
}

fn chaos(value: f32) -> ChaosFactor {
    ChaosFactor {
        bits: value.to_bits(),
    }
}

fn pending(id: &str, user_id: u64, guild_id: u64, executed: bool) -> PendingEnforcement {
    PendingEnforcement {
        id: id.to_string(),
        warning_id: "w".to_string(),
        user_id,
        guild_id,
        action: EnforcementAction::Kick { delay: None },
        execute_at: "then".to_string(),
        executed,
    }
}

fn text_of(step: &Step) -> String {
    match &step.effect {
        Effect::Say { text } => text.clone(),
        other => panic!("not said: {other:?}"),
    }
}

fn embed_of(step: &Step) -> &Embed {
    match &step.effect {
        Effect::SendToChannel { embed, .. } => embed,
        Effect::Reply { embed } => embed,
        other => panic!("no embed: {other:?}"),
    }
}

/// The kinds of the effects, in order.
fn kinds(script: &Script) -> Vec<&'static str> {
    script.steps.iter().map(|s| kind(&s.effect)).collect()
}

fn kind(effect: &Effect) -> &'static str {
    match effect {
        Effect::SendToChannel { .. } => "send",
        Effect::DirectMessage { .. } => "direct",
        Effect::Reply { .. } => "reply",
        Effect::Save => "save",
        Effect::RequestCheck { .. } => "check",
        Effect::Say { .. } => "say",
    }
}

/// Carries a script out, with the given kinds of effects failing: the attempted kinds, what was
/// said last, and whether the command failed.
fn carry_out(mut script: Script, failing: &[&str]) -> (Vec<&'static str>, String, bool) {
    let mut attempted = Vec::new();
    let mut said = String::new();
    let mut failed = false;
    while let Some(effect) = script.next_effect() {
        let kind = kind(effect);
        if let Effect::Say { text } = effect {
            said = text.clone();
        }
        attempted.push(kind);
        if script.advance(!failing.contains(&kind)) {
            failed = true;
        }
    }
    (attempted, said, failed)
}

fn is_random_uuid(text: &str) -> bool {
    let b = text.as_bytes();
    b.len() == 36
        && (0..36).all(|i| match i {
            8 | 13 | 18 | 23 => b[i] == b'-',
            14 => b[i] == b'4',
            19 => b"89ab".contains(&b[i]),
            _ => b"0123456789abcdef".contains(&b[i]),
        })
}

// ---- warn ----

#[test]
fn warn_records_the_warning_and_its_enforcement() {
    let mut data = empty();
    let script = warn_at(
        &mut data,
        GUILD,
        MODERATOR,
        &bob(),
        "shouting".to_string(),
        word("public"),
        word("mute"),
        Some(5),
        stamps(1),
    )
    .unwrap();
    let warning = data.warnings.get("w1").unwrap();
    assert_eq!(warning.id, "w1");
    assert_eq!(warning.user_id, 42);
    assert_eq!(warning.issuer_id, MODERATOR);
    assert_eq!(warning.guild_id, GUILD);
    assert_eq!(warning.reason, "shouting");
    assert_eq!(warning.timestamp, "1970-01-01T00:00:00+00:00");
    assert_eq!(
        warning.notification_method,
        NotificationMethod::PublicWithMention
    );
    let action = EnforcementAction::Mute {
        duration: Some(300),
    };
    assert_eq!(warning.enforcement, Some(action));
    let pending = data.pending_enforcements.get("e1").unwrap();
    assert_eq!(pending.id, "e1");
    assert_eq!(pending.warning_id, "w1");
    assert_eq!(pending.user_id, 42);
    assert_eq!(pending.guild_id, GUILD);
    assert_eq!(pending.action, action);
    assert_eq!(pending.execute_at, "1970-01-01T00:05:01.500+00:00");
    assert!(!pending.executed);

    assert_eq!(kinds(&script), ["reply", "save", "say"]);
    let notice = embed_of(&script.steps[0]);
    assert_eq!(notice.title, "Warning Issued");
    assert_eq!(
        notice.description,
        "<@42> You have been warned for: shouting"
    );
    assert_eq!(notice.colour, Colour::Red);
    assert!(notice.fields.is_empty());
    assert_eq!(text_of(&script.steps[2]), "Warned Bob for: shouting");
}

#[test]
fn immediate_enforcement_wakes_the_task() {
    for (minutes, immediate) in [(None, true), (Some(0), true), (Some(1), false)] {
        let mut data = empty();
        let script = warn_at(
            &mut data,
            GUILD,
            MODERATOR,
            &bob(),
            "r".to_string(),
            None,
            word("Kick"),
            minutes,
            stamps(1),
        )
        .unwrap();
        if immediate {
            assert_eq!(kinds(&script), ["direct", "save", "check", "say"]);
            assert!(matches!(
                script.steps[2].effect,
                Effect::RequestCheck {
                    request: EnforcementCheckRequest::CheckUser {
                        user_id: 42,
                        guild_id: GUILD
                    }
                }
            ));
        } else {
            assert_eq!(kinds(&script), ["direct", "save", "say"]);
        }
    }
}

#[test]
fn warn_without_action_uses_the_guild_default() {
    let mut data = empty();
    let mut config = data.guild_defaults;
    config.guild_id = GUILD;
    config.default_notification_method = NotificationMethod::PublicWithMention;
    config.default_enforcement = Some(EnforcementAction::VoiceDeafen { duration: Some(7) });
    data.guild_configs.insert(GUILD, config);
    let result = warn(
        &mut data,
        &here(),
        &bob(),
        "r".to_string(),
        None,
        None,
        Some(99),
    );
    let script = result.unwrap().unwrap();
    assert_eq!(kinds(&script), ["reply", "save", "say"]);
    assert_eq!(data.warnings.len(), 1);
    assert_eq!(data.pending_enforcements.len(), 1);
    let pending = data.pending_enforcements.iter().next().unwrap();
    assert_eq!(
        pending.action,
        EnforcementAction::VoiceDeafen { duration: Some(7) }
    );
    assert!(is_random_uuid(pending.key()));
    assert_eq!(&pending.id, pending.key());
    assert!(is_random_uuid(&pending.warning_id));
    let warning = data.warnings.get(&pending.warning_id).unwrap();
    assert_eq!(warning.id, pending.warning_id);
    let issued = chrono::DateTime::parse_from_rfc3339(&warning.timestamp).unwrap();
    let due = chrono::DateTime::parse_from_rfc3339(&pending.execute_at).unwrap();
    let delay = due - issued;
    assert!(delay >= chrono::Duration::seconds(7));
    assert!(delay < chrono::Duration::seconds(60));
}

#[test]
fn warn_without_any_action_records_only_the_warning() {
    let mut data = empty();
    let script = warn(
        &mut data,
        &here(),
        &bob(),
        "r".to_string(),
        word("dm"),
        word("hug"),
        None,
    )
    .unwrap()
    .unwrap();
    assert_eq!(kinds(&script), ["direct", "save", "say"]);
    match &script.steps[0].effect {
        Effect::DirectMessage { user_id, reason } => {
            assert_eq!(*user_id, 42);
            assert_eq!(reason, "r");
        }
        _ => unreachable!(),
    }
    assert_eq!(data.warnings.len(), 1);
    assert!(data.pending_enforcements.is_empty());
}

#[test]
fn warn_is_not_carried_out_where_the_enforcement_cannot_fall_due() {
    let mut data = empty();
    let endless = warn(
        &mut data,
        &here(),
        &bob(),
        "r".to_string(),
        None,
        word("ban"),
        Some(u64::MAX / 120),
    );
    assert!(endless.unwrap().is_none());
    assert!(data.warnings.is_empty());
    assert!(data.pending_enforcements.is_empty());
}

fn stamps_at(secs: i64) -> Stamps {
    let mut stamps = stamps(1);
    stamps.scheduled = Moment { secs, nanos: 0 };
    stamps
}

#[test]
fn warn_goes_by_the_moment_it_is_handed() {
    for (secs, issued) in [
        (0, true),
        (LAST_SECOND - 300, true),
        (LAST_SECOND - 299, false),
        (LAST_SECOND, false),
    ] {
        let mut data = empty();
        let script = warn_at(
            &mut data,
            GUILD,
            MODERATOR,
            &bob(),
            "r".to_string(),
            None,
            word("mute"),
            Some(5),
            stamps_at(secs),
        );
        assert_eq!(script.is_some(), issued);
        assert_eq!(data.warnings.len(), issued as usize);
        assert_eq!(data.pending_enforcements.len(), issued as usize);
    }
}

#[test]
fn prompt_warnings_are_issued_at_any_moment() {
    for (action, minutes) in [(None, Some(9)), (word("ban"), None), (word("ban"), Some(0))] {
        let mut data = empty();
        let script = warn_at(
            &mut data,
            GUILD,
            MODERATOR,
            &bob(),
            "r".to_string(),
            None,
            action,
            minutes,
            stamps_at(LAST_SECOND),
        );
        assert!(script.is_some());
        assert_eq!(data.warnings.len(), 1);
    }
}

#[test]
fn a_default_that_does_nothing_yields_to_a_word() {
    let mut data = empty();
    let idle = Some(EnforcementAction::NoAction);
    data.guild_defaults.default_enforcement = idle;
    assert_eq!(settle(&mut data, GUILD, &None, &None, Some(2)).1, idle);
    assert_eq!(settle(&mut data, GUILD, &None, &word("hug"), None).1, idle);
    let (method, enforcement) = settle(&mut data, GUILD, &word("DM"), &word("kick"), Some(2));
    assert_eq!(method, NotificationMethod::DirectMessage);
    assert_eq!(
        enforcement,
        Some(EnforcementAction::Kick { delay: Some(120) })
    );
    let script = warn_at(
        &mut data,
        GUILD,
        MODERATOR,
        &bob(),
        "r".to_string(),
        None,
        word("kick"),
        None,
        stamps(1),
    );
    assert!(script.is_some());
    assert_eq!(data.warnings.len(), 1);
}

#[test]
fn commands_are_refused_outside_of_guilds() {
    let mut data = empty();
    let message = "This command must be used in a guild";
    let error = warn(
        &mut data,
        &nowhere(),
        &bob(),
        "r".to_string(),
        None,
        word("ban"),
        Some(u64::MAX),
    )
    .unwrap_err();
    assert_eq!(error, CommandError::NotInGuild);
    assert_eq!(error.message(), message);
    let error = summon_daemon(
        &mut data,
        &nowhere(),
        &bob(),
        &"r".to_string(),
        &standing(1, None),
        score(9.0),
    )
    .unwrap_err();
    assert_eq!(error.message(), message);
    assert!(daemon_altar(&mut data, None, 9).is_err());
    assert!(chaos_ritual(&mut data, None, chaos(0.5), "0.5").is_err());
    assert!(appease(&mut data, None, &bob(), None).is_err());
    assert!(data.warnings.is_empty());
    assert!(data.guild_configs.is_empty());
    assert!(data.user_warning_states.is_empty());
}

#[test]
fn private_notice_names_the_guild() {
    let notice = private_notice("The Guild", &"shouting".to_string());
    assert_eq!(notice.title, "Warning Received");
    assert_eq!(
        notice.description,
        "You have been warned in The Guild for: shouting"
    );
    assert_eq!(notice.colour, Colour::Red);
}

#[test]
fn failed_public_notice_ends_the_warning() {
    let warn_with = |method: &str| {
        warn_at(
            &mut empty(),
            GUILD,
            MODERATOR,
            &bob(),
            "r".to_string(),
            word(method),
            word("kick"),
            None,
            stamps(1),
        )
        .unwrap()
    };
    let (attempted, _, failed) = carry_out(warn_with("public"), &["reply"]);
    assert_eq!(attempted, ["reply"]);
    assert!(failed);
    let (attempted, _, failed) = carry_out(warn_with("public"), &["save", "check"]);
    assert_eq!(attempted, ["reply", "save", "check", "say"]);
    assert!(!failed);
    let (attempted, _, failed) = carry_out(warn_with("dm"), &["direct", "save", "check"]);
    assert_eq!(attempted, ["direct", "save", "check", "say"]);
    assert!(!failed);
    let (_, _, failed) = carry_out(warn_with("dm"), &["say"]);
    assert!(failed);
}

// ---- summon_daemon ----

#[test]
fn first_summons_chooses_and_announces_the_enforcement() {
    let mut data = empty();
    daemon_altar(&mut data, Some(GUILD), 1000).unwrap();
    let script = summon_daemon(
        &mut data,
        &here(),
        &bob(),
        &"shouting".to_string(),
        &standing(1, None),
        score(1.2),
    )
    .unwrap()
    .unwrap();
    let state = data.user_warning_states.get("42:77").unwrap();
    assert_eq!(
        state.pending_enforcement,
        Some(EnforcementAction::VoiceMute {
            duration: Some(300)
        })
    );
    assert_eq!(state.warning_timestamps, ["t0"]);
    assert!(data.warnings.is_empty());
    assert!(data.pending_enforcements.is_empty());

    assert_eq!(kinds(&script), ["send", "save", "say"]);
    assert!(matches!(
        script.steps[0].effect,
        Effect::SendToChannel {
            channel_id: 1000,
            ..
        }
    ));
    let entry = embed_of(&script.steps[0]);
    assert_eq!(entry.title, "⚠️ Voice Channel Warning");
    assert_eq!(
        entry.description,
        "<@42> has received a voice channel warning"
    );
    assert_eq!(entry.colour, Colour::Gold);
    let fields: Vec<(&str, &str, bool)> = entry
        .fields
        .iter()
        .map(|f| (f.name.as_str(), f.value.as_str(), f.inline))
        .collect();
    assert_eq!(
        fields,
        [
            ("Reason", "shouting", false),
            ("Issued By", "<@5>", true),
            ("Total Warnings", "1", true),
            (
                "🚨 If behavior continues:",
                "After ~2 more warnings, the user will receive: **Voice mute for 300 seconds**",
                false
            ),
        ]
    );
    assert_eq!(
        text_of(&script.steps[2]),
        "First thumbs down recorded for Bob with reason: shouting. Further warnings may trigger enforcement."
    );
}

#[test]
fn first_summons_prefers_the_guild_default() {
    let mut data = empty();
    data.guild_defaults.default_enforcement = Some(EnforcementAction::Kick { delay: None });
    summon_daemon(
        &mut data,
        &here(),
        &bob(),
        &"r".to_string(),
        &standing(1, None),
        score(0.0),
    )
    .unwrap()
    .unwrap();
    let state = data.user_warning_states.get("42:77").unwrap();
    assert_eq!(
        state.pending_enforcement,
        Some(EnforcementAction::Kick { delay: None })
    );
}

#[test]
fn later_summons_brings_what_was_threatened() {
    let mut data = empty();
    daemon_altar(&mut data, Some(GUILD), 1000).unwrap();
    summon_daemon(
        &mut data,
        &here(),
        &bob(),
        &"r".to_string(),
        &standing(1, None),
        score(0.0),
    )
    .unwrap()
    .unwrap();
    let threat = data
        .user_warning_states
        .get("42:77")
        .unwrap()
        .pending_enforcement;
    let mut config = data.chaotic_config(GUILD);
    config.default_enforcement = Some(EnforcementAction::Ban { duration: None });
    data.guild_configs.insert(GUILD, config);
    let script = summon_daemon_at(
        &mut data,
        GUILD,
        MODERATOR,
        &bob(),
        &"again".to_string(),
        &standing(4, threat),
        score(3.5),
        stamps(1),
    )
    .unwrap();
    let warning = data.warnings.get("w1").unwrap();
    assert_eq!(
        warning.reason,
        "Automatic enforcement after multiple voice warnings: again"
    );
    assert_eq!(
        warning.notification_method,
        NotificationMethod::PublicWithMention
    );
    assert_eq!(warning.enforcement, threat);
    assert_eq!(warning.issuer_id, MODERATOR);
    let pending = data.pending_enforcements.get("e1").unwrap();
    assert_eq!(Some(pending.action), threat);
    assert_eq!(pending.execute_at, "1970-01-01T00:05:01.500+00:00");

    assert_eq!(kinds(&script), ["send", "check", "save", "say"]);
    let entry = embed_of(&script.steps[0]);
    assert_eq!(entry.title, "🚫 Voice Channel Enforcement");
    assert_eq!(entry.colour, Colour::Red);
    assert_eq!(entry.fields.len(), 4);
    assert_eq!(entry.fields[3].name, "⚠️ Threshold Reached");
    assert_eq!(entry.fields[3].value, "Enforcement action is being applied");
    assert_eq!(
        text_of(&script.steps[3]),
        "Thumbs down recorded for Bob with reason: again. Enforcement action applied due to multiple warnings."
    );
}

#[test]
fn summons_spares_other_standings() {
    let mut data = empty();
    for key in ["4:277", "42:7", "43:77"] {
        data.user_warning_states
            .insert(key.to_string(), standing(9, None));
    }
    summon_daemon(
        &mut data,
        &here(),
        &bob(),
        &"r".to_string(),
        &standing(1, None),
        score(0.0),
    )
    .unwrap()
    .unwrap();
    assert_eq!(data.user_warning_states.len(), 4);
    for key in ["4:277", "42:7", "43:77"] {
        let state = data.user_warning_states.get(key).unwrap();
        assert_eq!(state.warning_timestamps.len(), 9);
        assert_eq!(state.pending_enforcement, None);
    }
}

#[test]
fn later_summons_below_the_threshold_only_counts() {
    let mut data = empty();
    let threat = Some(EnforcementAction::Kick { delay: None });
    let script = summon_daemon(
        &mut data,
        &here(),
        &bob(),
        &"r".to_string(),
        &standing(2, threat),
        score(3.0),
    )
    .unwrap()
    .unwrap();
    assert_eq!(kinds(&script), ["save", "say"]);
    assert_eq!(
        text_of(&script.steps[1]),
        "Thumbs down recorded for Bob with reason: r. Current warning count: 2"
    );
    assert!(data.warnings.is_empty());
    assert!(data.user_warning_states.is_empty());
}

#[test]
fn verdict_without_a_threat_enforces_nothing() {
    let mut data = empty();
    let script = summon_daemon(
        &mut data,
        &here(),
        &bob(),
        &"r".to_string(),
        &standing(5, None),
        score(4.0),
    )
    .unwrap()
    .unwrap();
    assert_eq!(kinds(&script), ["save", "say"]);
    assert_eq!(
        text_of(&script.steps[1]),
        "Thumbs down recorded for Bob with reason: r. Enforcement action applied due to multiple warnings."
    );
    assert!(data.warnings.is_empty());
    assert!(data.pending_enforcements.is_empty());
}

#[test]
fn summons_draws_identifiers_and_the_time() {
    let mut data = empty();
    let script = summon_daemon(
        &mut data,
        &here(),
        &bob(),
        &"r".to_string(),
        &standing(3, Some(EnforcementAction::NoAction)),
        score(3.2),
    )
    .unwrap()
    .unwrap();
    assert_eq!(kinds(&script), ["check", "save", "say"]);
    let pending = data.pending_enforcements.iter().next().unwrap();
    assert!(is_random_uuid(pending.key()));
    assert!(is_random_uuid(&pending.warning_id));
    assert_ne!(pending.key(), &pending.warning_id);
    let due = chrono::DateTime::parse_from_rfc3339(&pending.execute_at).unwrap();
    assert!((chrono::Utc::now() - due.to_utc()).num_seconds() < 60);
}

#[test]
fn summons_is_not_carried_out_where_the_enforcement_cannot_fall_due() {
    let mut data = empty();
    let result = summon_daemon(
        &mut data,
        &here(),
        &bob(),
        &"r".to_string(),
        &standing(
            3,
            Some(EnforcementAction::Mute {
                duration: Some(i64::MAX as u64),
            }),
        ),
        score(3.2),
    );
    assert!(result.unwrap().is_none());
    assert!(data.warnings.is_empty());
    assert!(data.pending_enforcements.is_empty());
}

#[test]
fn summons_goes_by_the_moment_it_is_handed() {
    for (secs, value, carried_out, enforced) in [
        (0, 3.2, true, true),
        (LAST_SECOND - 300, 3.2, true, true),
        (LAST_SECOND - 299, 3.2, false, false),
        (LAST_SECOND - 299, 3.0, true, false),
    ] {
        let mut data = empty();
        let script = summon_daemon_at(
            &mut data,
            GUILD,
            MODERATOR,
            &bob(),
            &"r".to_string(),
            &standing(1, None),
            score(value),
            stamps_at(secs),
        );
        assert_eq!(script.is_some(), carried_out);
        assert_eq!(data.user_warning_states.len(), carried_out as usize);
        assert_eq!(data.warnings.len(), enforced as usize);
        assert_eq!(data.pending_enforcements.len(), enforced as usize);
    }
}

#[test]
fn summons_is_logged_once_where_there_is_a_log() {
    let threat = Some(EnforcementAction::Kick { delay: None });
    let warning = "⚠️ Voice Channel Warning";
    for (count, pending, value, title) in [
        (1, None, 3.5, warning),
        (2, threat, 3.0, warning),
        (2, None, 3.5, warning),
        (2, threat, 3.5, "🚫 Voice Channel Enforcement"),
    ] {
        let mut data = empty();
        let summons = |data: &mut Data| {
            let reason = "r".to_string();
            let state = standing(count, pending);
            summon_daemon(data, &here(), &bob(), &reason, &state, score(value))
                .unwrap()
                .unwrap()
        };
        assert!(!kinds(&summons(&mut data)).contains(&"send"));
        daemon_altar(&mut data, Some(GUILD), 1000).unwrap();
        daemon_altar(&mut data, Some(GUILD + 1), 1001).unwrap();
        chaos_ritual(&mut data, Some(GUILD), chaos(0.5), "0.5").unwrap();
        let script = summons(&mut data);
        let sent = kinds(&script).iter().filter(|k| **k == "send").count();
        assert_eq!(sent, 1);
        match &script.steps[0].effect {
            Effect::SendToChannel { channel_id, embed } => {
                assert_eq!(*channel_id, 1000);
                assert_eq!(embed.title, title);
                assert_eq!(embed.fields[0].value, "r");
                assert_eq!(embed.fields[2].value, count.to_string());
            }
            _ => unreachable!(),
        }
    }
}

#[test]
fn calm_guilds_go_by_the_score() {
    for zero in [0.0, -0.0] {
        let mut data = empty();
        chaos_ritual(&mut data, Some(GUILD), chaos(zero), "0").unwrap();
        assert!(!data.chaotic_config(GUILD).chaos_factor.draws());
        for (value, enforced) in [(3.0, false), (3.0000000000000004, true)] {
            let state = standing(2, Some(EnforcementAction::Kick { delay: None }));
            let script = summon_daemon(
                &mut data,
                &here(),
                &bob(),
                &"r".to_string(),
                &state,
                score(value),
            )
            .unwrap()
            .unwrap();
            assert_eq!(kinds(&script).contains(&"check"), enforced);
            assert_eq!(kinds(&script).last(), Some(&"say"));
        }
    }
}

#[test]
fn summons_is_carried_out_whatever_fails() {
    let mut data = empty();
    daemon_altar(&mut data, Some(GUILD), 1000).unwrap();
    let script = summon_daemon_at(
        &mut data,
        GUILD,
        MODERATOR,
        &bob(),
        &"r".to_string(),
        &standing(3, Some(EnforcementAction::Kick { delay: None })),
        score(3.2),
        stamps(1),
    )
    .unwrap();
    let (attempted, _, failed) = carry_out(script, &["send", "check", "save"]);
    assert_eq!(attempted, ["send", "check", "save", "say"]);
    assert!(!failed);
}

// ---- daemon_altar and chaos_ritual ----

#[test]
fn altar_sets_the_log_channel() {
    let mut data = empty();
    let script = daemon_altar(&mut data, Some(GUILD), 31).unwrap();
    let config = *data.guild_configs.get(&GUILD).unwrap();
    assert_eq!(config.guild_id, GUILD);
    assert_eq!(config.enforcement_log_channel_id, Some(31));
    assert_eq!(config.chaos_factor.bits, DEFAULT_CHAOS);
    assert_eq!(kinds(&script), ["save", "send", "say"]);
    let trial = embed_of(&script.steps[1]);
    assert_eq!(trial.title, "✅ Enforcement Log Channel Set");
    assert_eq!(
        trial.description,
        "This channel will now receive all enforcement notifications."
    );
    assert_eq!(trial.colour, Colour::DarkGreen);
}

#[test]
fn altar_reports_how_it_went() {
    let altar = || daemon_altar(&mut empty(), Some(GUILD), 31).unwrap();
    let (attempted, said, failed) = carry_out(altar(), &["save"]);
    assert_eq!(attempted, ["save", "say"]);
    assert_eq!(
        said,
        "Failed to save configuration. Check logs for details."
    );
    assert!(!failed);
    let (attempted, said, failed) = carry_out(altar(), &["send"]);
    assert_eq!(attempted, ["save", "send", "say"]);
    assert_eq!(
        said,
        "⚠️ Set <#31> as the enforcement log channel, but couldn't send a test message. Please check bot permissions in that channel."
    );
    assert!(!failed);
    let (attempted, said, failed) = carry_out(altar(), &[]);
    assert_eq!(attempted, ["save", "send", "say"]);
    assert_eq!(said, "Successfully set <#31> as the enforcement log channel!");
    assert!(!failed);
    for failing in [&["say"][..], &["save", "say"], &["send", "say"]] {
        let (_, _, failed) = carry_out(altar(), failing);
        assert!(failed);
    }
}

#[test]
fn chaos_sets_the_factor() {
    let mut data = empty();
    let script = chaos_ritual(&mut data, Some(GUILD), chaos(0.25), "0.25").unwrap();
    assert_eq!(data.config(GUILD).chaos_factor, chaos(0.25));
    let (attempted, said, _) = carry_out(script, &[]);
    assert_eq!(attempted, ["save", "say"]);
    assert_eq!(
        said,
        "Chaos factor set to 0.25. Enforcement will have some randomness."
    );
    let script = chaos_ritual(&mut data, Some(GUILD), chaos(0.5), "0.5").unwrap();
    let (attempted, said, _) = carry_out(script, &["save"]);
    assert_eq!(attempted, ["save", "say"]);
    assert_eq!(
        said,
        "Failed to save configuration. Check logs for details."
    );
}

#[test]
fn chaos_out_of_range_is_refused() {
    let mut data = empty();
    for value in [1.5, -0.1, f32::NAN] {
        let script = chaos_ritual(&mut data, Some(GUILD), chaos(value), "x").unwrap();
        let (attempted, said, _) = carry_out(script, &[]);
        assert_eq!(attempted, ["say"]);
        assert_eq!(said, "Chaos factor must be between 0.0 and 1.0");
    }
    assert!(data.guild_configs.is_empty());
}

#[test]
fn settings_commute() {
    let mut first = empty();
    daemon_altar(&mut first, Some(GUILD), 31).unwrap();
    chaos_ritual(&mut first, Some(GUILD), chaos(0.9), "0.9").unwrap();
    let mut second = empty();
    chaos_ritual(&mut second, Some(GUILD), chaos(0.9), "0.9").unwrap();
    daemon_altar(&mut second, Some(GUILD), 31).unwrap();
    assert_eq!(first.config(GUILD), second.config(GUILD));
    assert_eq!(first.config(GUILD).chaos_factor, chaos(0.9));
    assert_eq!(first.config(GUILD).enforcement_log_channel_id, Some(31));
}

#[test]
fn last_altar_wins() {
    let mut data = empty();
    daemon_altar(&mut data, Some(GUILD), 31).unwrap();
    daemon_altar(&mut data, Some(GUILD), 32).unwrap();
    assert_eq!(data.config(GUILD).enforcement_log_channel_id, Some(32));
    assert!(data.config(GUILD).chaos_factor.unit());
}

#[test]
fn settings_stay() {
    let mut data = crowded();
    daemon_altar(&mut data, Some(GUILD), 31).unwrap();
    let (set, unset) = (data.config(GUILD), data.config(GUILD + 1));
    let reason = "r".to_string();
    warn(&mut data, &here(), &bob(), reason.clone(), None, word("kick"), None).unwrap();
    summon_daemon(&mut data, &here(), &bob(), &reason, &standing(1, None), score(4.0)).unwrap();
    appease(&mut data, Some(GUILD), &bob(), None).unwrap();
    assert_eq!(data.config(GUILD), set);
    assert_eq!(data.config(GUILD + 1), unset);
}

#[test]
fn unset_guilds_have_the_defaults() {
    let mut data = empty();
    data.guild_defaults.chaos_factor = chaos(0.75);
    assert_eq!(data.config(8).guild_id, 8);
    assert_eq!(data.config(8).chaos_factor, chaos(0.75));
    assert_eq!(data.chaotic_config(8).chaos_factor, chaos(0.3));
    assert!(data.guild_configs.is_empty());
}

// ---- appease ----

fn crowded() -> Data {
    let data = empty();
    for entry in [
        pending("a", 42, GUILD, false),
        pending("b", 42, GUILD, true),
        pending("c", 42, 78, false),
        pending("d", 43, GUILD, false),
        pending("e", 42, GUILD, false),
    ] {
        data.pending_enforcements.insert(entry.id.clone(), entry);
    }
    data
}

fn executed(data: &Data) -> Vec<String> {
    let mut ids: Vec<String> = data
        .pending_enforcements
        .iter()
        .filter(|p| p.executed)
        .map(|p| p.id.clone())
        .collect();
    ids.sort();
    ids
}

#[test]
fn appease_cancels_all_that_is_open() {
    let mut data = crowded();
    let script = appease(&mut data, Some(GUILD), &bob(), None).unwrap();
    assert_eq!(executed(&data), ["a", "b", "e"]);
    assert_eq!(data.pending_enforcements.len(), 5);
    assert_eq!(kinds(&script), ["check", "check", "save", "say"]);
    let text = text_of(&script.steps[3]);
    let mut lines: Vec<&str> = text.lines().collect();
    lines.sort();
    assert_eq!(
        lines,
        [
            "Canceled enforcement ID a for Bob",
            "Canceled enforcement ID e for Bob"
        ]
    );
    assert!(text.ends_with('\n'));
}

#[test]
fn appease_cancels_the_one_that_is_named() {
    let mut data = crowded();
    let script = appease(&mut data, Some(GUILD), &bob(), word("e")).unwrap();
    assert_eq!(executed(&data), ["b", "e"]);
    assert_eq!(kinds(&script), ["check", "save", "say"]);
    match &script.steps[0].effect {
        Effect::RequestCheck {
            request: EnforcementCheckRequest::CheckEnforcement { enforcement_id },
        } => assert_eq!(enforcement_id, "e"),
        _ => unreachable!(),
    }
    assert_eq!(
        text_of(&script.steps[2]),
        "Canceled enforcement ID e for Bob\n"
    );
}

#[test]
fn appease_finds_nothing_of_others() {
    for id in ["b", "c", "d", "z"] {
        let mut data = crowded();
        let script = appease(&mut data, Some(GUILD), &bob(), word(id)).unwrap();
        assert_eq!(executed(&data), ["b"]);
        assert_eq!(kinds(&script), ["say"]);
        assert_eq!(
            text_of(&script.steps[0]),
            "No pending enforcements found for Bob"
        );
    }
}

#[test]
fn appease_twice_finds_nothing() {
    let mut data = crowded();
    appease(&mut data, Some(GUILD), &bob(), None).unwrap();
    let script = appease(&mut data, Some(GUILD), &bob(), None).unwrap();
    assert_eq!(executed(&data), ["a", "b", "e"]);
    assert_eq!(
        text_of(&script.steps[0]),
        "No pending enforcements found for Bob"
    );
}

fn checked(script: &Script) -> Vec<String> {
    let mut ids: Vec<String> = script
        .steps
        .iter()
        .filter_map(|step| match &step.effect {
            Effect::RequestCheck {
                request: EnforcementCheckRequest::CheckEnforcement { enforcement_id },
            } => Some(enforcement_id.clone()),
            _ => None,
        })
        .collect();
    ids.sort();
    ids
}

#[test]
fn appeasing_at_once_is_appeasing_one_by_one() {
    let mut at_once = crowded();
    let script = appease(&mut at_once, Some(GUILD), &bob(), None).unwrap();
    let reply = text_of(script.steps.last().unwrap());
    let mut lines: Vec<&str> = reply.lines().collect();
    lines.sort();
    for order in [["a", "e"], ["e", "a"]] {
        let mut in_turn = crowded();
        let mut requests = Vec::new();
        let mut replies = String::new();
        for id in order {
            let script = appease(&mut in_turn, Some(GUILD), &bob(), word(id)).unwrap();
            requests.append(&mut checked(&script));
            replies.push_str(&text_of(script.steps.last().unwrap()));
        }
        requests.sort();
        assert_eq!(executed(&in_turn), executed(&at_once));
        assert_eq!(requests, checked(&script));
        let mut turn_lines: Vec<&str> = replies.lines().collect();
        turn_lines.sort();
        assert_eq!(turn_lines, lines);
    }
}

#[test]
fn warned_users_can_be_appeased() {
    let mut data = empty();
    warn(
        &mut data,
        &here(),
        &bob(),
        "r".to_string(),
        None,
        word("ban"),
        Some(10),
    )
    .unwrap()
    .unwrap();
    assert!(executed(&data).is_empty());
    let script = appease(&mut data, Some(GUILD), &bob(), None).unwrap();
    assert_eq!(executed(&data).len(), 1);
    assert_eq!(checked(&script), executed(&data));
    assert_eq!(data.warnings.len(), 1);
}

#[test]
fn appease_reports_in_the_order_of_the_walk() {
    let mut data = crowded();
    let walk = vec![
        ("e".to_string(), pending("e", 42, GUILD, false)),
        ("x".to_string(), pending("x", 42, GUILD, false)),
        ("a".to_string(), pending("a", 42, GUILD, false)),
    ];
    assert_eq!(
        choose_pending(GUILD, &bob(), &None, &walk),
        ["e", "x", "a"]
    );
    assert_eq!(
        choose_pending(GUILD, &bob(), &word("x"), &walk),
        ["x"]
    );
    let script = appease_walked(&mut data, GUILD, &bob(), &None, &walk);
    assert_eq!(executed(&data), ["a", "b", "e"]);
    assert_eq!(kinds(&script), ["check", "check", "save", "say"]);
    assert_eq!(
        text_of(&script.steps[3]),
        "Canceled enforcement ID e for Bob\nCanceled enforcement ID a for Bob\n"
    );
}

#[test]
fn appease_by_a_name_borne_twice_cancels_one() {
    let walk = vec![
        ("k1".to_string(), pending("twin", 42, GUILD, false)),
        ("k2".to_string(), pending("twin", 42, GUILD, false)),
    ];
    assert_eq!(
        choose_pending(GUILD, &bob(), &word("twin"), &walk),
        ["twin"]
    );
    assert_eq!(
        choose_pending(GUILD, &bob(), &None, &walk),
        ["twin", "twin"]
    );
}

#[test]
fn nothing_is_forgotten() {
    let mut data = crowded();
    warn(
        &mut data,
        &here(),
        &bob(),
        "r".to_string(),
        None,
        word("ban"),
        Some(10),
    )
    .unwrap()
    .unwrap();
    daemon_altar(&mut data, Some(GUILD), 31).unwrap();
    chaos_ritual(&mut data, Some(GUILD), chaos(0.5), "0.5").unwrap();
    appease(&mut data, Some(GUILD), &bob(), None).unwrap();
    assert_eq!(data.pending_enforcements.len(), 6);
    for id in ["a", "b", "c", "d", "e"] {
        assert_eq!(data.pending_enforcements.get(id).unwrap().warning_id, "w");
    }
}

// ---- definitions and scripts ----

#[test]
fn definitions_name_the_permissions() {
    let moderator = [
        Permission::KickMembers,
        Permission::BanMembers,
        Permission::MuteMembers,
        Permission::DeafenMembers,
        Permission::ModerateMembers,
    ];
    for command in [Command::SummonDaemon, Command::Warn] {
        let definition = command.definition();
        assert_eq!(definition.required_permissions, moderator);
        assert_eq!(definition.required_bot_permissions, moderator);
        assert_eq!(definition.default_member_permissions, moderator);
    }
    for command in [
        Command::DaemonAltar,
        Command::ChaosRitual,
        Command::Appease,
    ] {
        let definition = command.definition();
        assert_eq!(
            definition.required_permissions,
            [Permission::Administrator]
        );
        assert!(definition.required_bot_permissions.is_empty());
        assert!(definition.default_member_permissions.is_empty());
    }
    let names: Vec<String> = [
        Command::Ping,
        Command::SummonDaemon,
        Command::Warn,
        Command::DaemonAltar,
        Command::ChaosRitual,
        Command::Appease,
    ]
    .iter()
    .map(|c| {
        let definition = c.definition();
        assert!(definition.guild_only && definition.ephemeral && definition.slash_command);
        definition.name
    })
    .collect();
    assert_eq!(
        names,
        [
            "ping",
            "summon_daemon",
            "warn",
            "daemon_altar",
            "chaos_ritual",
            "appease"
        ]
    );
}

#[test]
fn scripts_go_on_as_their_steps_say() {
    let mut script = Script::new();
    script.add(Step::ignoring(Effect::Save));
    script.add(Step::saying_instead(Effect::Save, "instead".to_string()));
    script.add(Step::say("end".to_string()));
    assert!(matches!(script.steps[0].on_failure, OnFailure::Ignore));
    let (attempted, said, failed) = carry_out(script, &["save"]);
    assert_eq!(attempted, ["save", "save", "say"]);
    assert_eq!(said, "instead");
    assert!(!failed);
}
