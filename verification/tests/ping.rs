use voice_daemon::commands::definition::{ping, Command};
use voice_daemon::messages::Effect;

#[test]
fn test_ping_command_definition() {
    let cmd = Command::Ping.definition();
    assert_eq!(cmd.name, "ping");
    assert!(cmd
        .description
        .unwrap_or_else(Default::default)
        .contains("check if the bot is responsive"));
    assert!(cmd.guild_only);
}

#[test]
fn test_ping_command_can_be_called() {
    let cmd = Command::Ping.definition();
    assert!(cmd.slash_command);
}

#[test]
fn ping_says_pong() {
    let mut script = ping();
    match script.next_effect() {
        Some(Effect::Say { text }) => assert_eq!(text, "Pong!"),
        _ => panic!("ping says something"),
    }
    assert!(!script.advance(true));
    assert!(script.next_effect().is_none());
}
