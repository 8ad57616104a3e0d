use ploirc::{ConnectionBuilder, ReconnectionSettings};
use std::time::Duration;

#[test]
fn default_reconnection_settings() {
    let s = ReconnectionSettings::default();
    assert_eq!(
        s,
        ReconnectionSettings::Reconnect {
            max_attempts: 10,
            delay_between_attempts: Duration::from_secs(5),
            delay_after_disconnect: Duration::from_secs(60),
        }
    );
    match s {
        ReconnectionSettings::Reconnect { delay_between_attempts, delay_after_disconnect, .. } => {
            assert_eq!(delay_between_attempts.as_millis(), 5000);
            assert_eq!(delay_after_disconnect.as_millis(), 60000);
        }
        ReconnectionSettings::DoNotReconnect => panic!("default reconnects"),
    }
}

#[test]
fn builder_defaults() {
    let b: ConnectionBuilder<&'static str> = ConnectionBuilder::new("irc.example.net");
    assert_eq!(b.get_address(), "irc.example.net");
    assert_eq!(b.get_port(), 6667);
    assert_eq!(b.get_reconnect(), ReconnectionSettings::default());
    assert_eq!(b.get_encoding(), &None);
    assert!(!b.get_use_tls());
}

#[test]
fn builder_setters_change_one_thing_each() {
    let b: ConnectionBuilder<&'static str> = ConnectionBuilder::new("irc.example.net")
        .port(6697)
        .use_tls(true)
        .reconnect(ReconnectionSettings::DoNotReconnect)
        .encoding("latin-1");
    assert_eq!(b.get_address(), "irc.example.net");
    assert_eq!(b.get_port(), 6697);
    assert!(b.get_use_tls());
    assert_eq!(b.get_reconnect(), ReconnectionSettings::DoNotReconnect);
    assert_eq!(b.get_encoding(), &Some("latin-1"));
    let b = b.port(7000);
    assert_eq!(b.get_port(), 7000);
    assert!(b.get_use_tls());
    assert_eq!(b.get_encoding(), &Some("latin-1"));
}
