use ploirc::{CloseReason, Command, Notice, Phase, ReaderLoop, ReconnectionSettings};
use std::time::Duration;

fn limited(max: u32) -> ReconnectionSettings {
    ReconnectionSettings::Reconnect {
        max_attempts: max,
        delay_between_attempts: Duration::from_millis(7),
        delay_after_disconnect: Duration::from_millis(11),
    }
}

/// Drives the loop from a read that ended with the connection dropped, with
/// every event delivered and every reconnection failing, and returns the
/// commands seen until it stops (or until `limit` commands).
fn all_attempts_fail(settings: ReconnectionSettings, limit: usize) -> Vec<Command> {
    let mut l = ReaderLoop::new(settings);
    let mut seen = vec![l.command()];
    let mut cmd = l.step(false);
    while seen.len() < limit {
        seen.push(cmd);
        let ok = match cmd {
            Command::CheckClosed => false,
            Command::Reconnect => false,
            Command::Stop => break,
            _ => true,
        };
        cmd = l.step(ok);
    }
    seen
}

fn count_reconnects(cmds: &[Command]) -> usize {
    cmds.iter().filter(|c| matches!(c, Command::Reconnect)).count()
}

#[test]
fn close_reason_texts() {
    assert_eq!(CloseReason::ManuallyClosed.text(), "manually closed");
    assert_eq!(CloseReason::DoNotReconnect.text(), "do not reconnect");
    assert_eq!(CloseReason::MaxAttemptsReached.text(), "max attempts reached");
}

#[test]
fn lines_are_delivered_in_turn() {
    let mut l = ReaderLoop::new(ReconnectionSettings::default());
    assert!(matches!(l.command(), Command::ReadLine));
    assert_eq!(l.current_phase(), Phase::Reading);
    assert!(matches!(l.step(true), Command::DeliverLine));
    assert!(matches!(l.step(true), Command::ReadLine));
    assert!(matches!(l.step(true), Command::DeliverLine));
    assert!(matches!(l.step(true), Command::ReadLine));
}

#[test]
fn manual_close_is_reported_and_loop_stops() {
    let mut l = ReaderLoop::new(ReconnectionSettings::default());
    assert!(matches!(l.step(false), Command::CheckClosed));
    assert!(matches!(l.step(true), Command::Notify(Notice::Closed(CloseReason::ManuallyClosed))));
    assert!(matches!(l.step(true), Command::CheckClosed));
    assert!(matches!(l.step(true), Command::Stop));
    assert_eq!(l.current_phase(), Phase::Stopped);
    assert!(matches!(l.step(false), Command::Stop));
    assert!(matches!(l.step(true), Command::Stop));
}

#[test]
fn do_not_reconnect_closes() {
    let cmds = all_attempts_fail(ReconnectionSettings::DoNotReconnect, 100);
    assert_eq!(count_reconnects(&cmds), 0);
    assert!(!cmds.iter().any(|c| matches!(c, Command::Sleep(_))));
    assert!(matches!(cmds[0], Command::ReadLine));
    assert!(matches!(cmds[1], Command::CheckClosed));
    assert!(matches!(cmds[2], Command::MarkDisconnected));
    assert!(matches!(cmds[3], Command::Notify(Notice::Disconnected)));
    assert!(matches!(cmds[4], Command::CloseWriter));
    assert!(matches!(cmds[5], Command::Notify(Notice::Closed(CloseReason::DoNotReconnect))));
    assert!(matches!(cmds[6], Command::CheckClosed));
    assert!(matches!(cmds[7], Command::CloseWriter));
    assert!(matches!(cmds[8], Command::Stop));
    assert_eq!(cmds.len(), 9);
}

#[test]
fn stops_after_max_attempts() {
    let cmds = all_attempts_fail(limited(3), 1000);
    assert_eq!(count_reconnects(&cmds), 3);
    let n = cmds.len();
    assert!(matches!(cmds[n - 1], Command::Stop));
    assert!(matches!(cmds[n - 4], Command::Notify(Notice::Closed(CloseReason::MaxAttemptsReached))));
    assert!(matches!(cmds[n - 5], Command::CloseWriter));
    assert!(matches!(cmds[n - 6], Command::CheckClosed));
    assert!(matches!(cmds[n - 7], Command::Sleep(d) if d == Duration::from_millis(7)));
    assert!(matches!(cmds[4], Command::Sleep(d) if d == Duration::from_millis(11)));
    let errors = cmds.iter().filter(|c| matches!(c, Command::Notify(Notice::ReconnectionError))).count();
    let tries = cmds.iter().filter(|c| matches!(c, Command::Notify(Notice::Reconnecting))).count();
    assert_eq!(errors, 3);
    assert_eq!(tries, 3);
}

#[test]
fn single_attempt_limit() {
    let cmds = all_attempts_fail(limited(1), 1000);
    assert_eq!(count_reconnects(&cmds), 1);
}

#[test]
fn default_settings_make_ten_attempts() {
    let cmds = all_attempts_fail(ReconnectionSettings::default(), 10000);
    assert_eq!(count_reconnects(&cmds), 10);
    assert!(matches!(cmds[cmds.len() - 1], Command::Stop));
}

#[test]
fn zero_means_unlimited_attempts() {
    let cmds = all_attempts_fail(limited(0), 2000);
    assert_eq!(cmds.len(), 2000);
    assert!(count_reconnects(&cmds) > 300);
    assert!(!cmds.iter().any(|c| matches!(c, Command::Notify(Notice::Closed(_)))));
    assert!(!cmds.iter().any(|c| matches!(c, Command::Stop)));
}

#[test]
fn reconnection_resumes_reading() {
    let mut l = ReaderLoop::new(limited(2));
    assert!(matches!(l.step(false), Command::CheckClosed));
    assert!(matches!(l.step(false), Command::MarkDisconnected));
    assert!(matches!(l.step(true), Command::Notify(Notice::Disconnected)));
    assert!(matches!(l.step(true), Command::Sleep(_)));
    assert!(matches!(l.step(true), Command::CheckClosed));
    assert!(matches!(l.step(false), Command::Notify(Notice::Reconnecting)));
    assert_eq!(l.current_phase(), Phase::ReportingReconnecting { attempts: 1 });
    assert!(matches!(l.step(true), Command::Reconnect));
    assert!(matches!(l.step(false), Command::Notify(Notice::ReconnectionError)));
    assert!(matches!(l.step(true), Command::Sleep(_)));
    assert!(matches!(l.step(true), Command::CheckClosed));
    assert!(matches!(l.step(false), Command::Notify(Notice::Reconnecting)));
    assert_eq!(l.current_phase(), Phase::ReportingReconnecting { attempts: 2 });
    assert!(matches!(l.step(true), Command::Reconnect));
    assert!(matches!(l.step(true), Command::Notify(Notice::Reconnected)));
    assert!(matches!(l.step(true), Command::ReadLine));
    // A later drop gets a fresh set of attempts.
    assert!(matches!(l.step(false), Command::CheckClosed));
    assert!(matches!(l.step(false), Command::MarkDisconnected));
    assert!(matches!(l.step(true), Command::Notify(Notice::Disconnected)));
    assert!(matches!(l.step(true), Command::Sleep(_)));
    assert!(matches!(l.step(true), Command::CheckClosed));
    assert!(matches!(l.step(false), Command::Notify(Notice::Reconnecting)));
    assert_eq!(l.current_phase(), Phase::ReportingReconnecting { attempts: 1 });
}

#[test]
fn listener_gone_ends_loop() {
    // A message the listener refuses.
    let mut l = ReaderLoop::new(ReconnectionSettings::default());
    l.step(true);
    assert!(matches!(l.step(false), Command::CheckClosed));
    assert_eq!(l.current_phase(), Phase::CheckingClosedAtExit);
    assert!(matches!(l.step(false), Command::CloseWriter));
    assert!(matches!(l.step(true), Command::Stop));

    // A disconnection notice the listener refuses.
    let mut l = ReaderLoop::new(ReconnectionSettings::default());
    l.step(false);
    l.step(false);
    l.step(true);
    assert!(matches!(l.step(false), Command::CheckClosed));
    assert_eq!(l.current_phase(), Phase::CheckingClosedAtExit);
}

#[test]
fn exit_skips_close_when_already_closed() {
    let mut l = ReaderLoop::new(limited(1));
    l.step(true);
    l.step(false);
    assert_eq!(l.current_phase(), Phase::CheckingClosedAtExit);
    assert!(matches!(l.step(true), Command::Stop));
}

#[test]
fn close_during_reconnection_stops_attempts() {
    let mut l = ReaderLoop::new(limited(5));
    assert!(matches!(l.step(false), Command::CheckClosed));
    assert!(matches!(l.step(false), Command::MarkDisconnected));
    assert!(matches!(l.step(true), Command::Notify(Notice::Disconnected)));
    assert!(matches!(l.step(true), Command::Sleep(_)));
    assert!(matches!(l.step(true), Command::CheckClosed));
    assert!(matches!(l.step(false), Command::Notify(Notice::Reconnecting)));
    assert!(matches!(l.step(true), Command::Reconnect));
    assert!(matches!(l.step(false), Command::Notify(Notice::ReconnectionError)));
    assert!(matches!(l.step(true), Command::Sleep(_)));
    assert_eq!(l.current_phase(), Phase::WaitingBetweenAttempts { attempts: 1 });
    assert!(matches!(l.step(true), Command::CheckClosed));
    // The writer was closed while waiting: no further attempt.
    assert!(matches!(l.step(true), Command::Notify(Notice::Closed(CloseReason::ManuallyClosed))));
    assert!(matches!(l.step(true), Command::CheckClosed));
    assert!(matches!(l.step(true), Command::Stop));
}

#[test]
fn close_before_mark_is_kept() {
    let mut l = ReaderLoop::new(ReconnectionSettings::default());
    assert!(matches!(l.step(false), Command::CheckClosed));
    assert!(matches!(l.step(false), Command::MarkDisconnected));
    // The mark found the connection closed meanwhile.
    assert!(matches!(l.step(false), Command::Notify(Notice::Closed(CloseReason::ManuallyClosed))));
    assert!(matches!(l.step(true), Command::CheckClosed));
    assert!(matches!(l.step(true), Command::Stop));
}

#[test]
fn counter_restarts_after_reconnection() {
    // Two failures, a success, then a new drop: three more attempts allowed.
    let mut l = ReaderLoop::new(limited(3));
    let mut reconnects = 0;
    let mut cmd = l.command();
    let mut successes_left = 1;
    let mut failures_in_a_row = 0;
    let mut steps = 0;
    loop {
        steps += 1;
        assert!(steps < 1000);
        let ok = match cmd {
            Command::ReadLine => false,
            Command::CheckClosed => false,
            Command::Reconnect => {
                reconnects += 1;
                if failures_in_a_row == 2 && successes_left > 0 {
                    successes_left -= 1;
                    failures_in_a_row = 0;
                    true
                } else {
                    failures_in_a_row += 1;
                    false
                }
            }
            Command::Stop => break,
            _ => true,
        };
        cmd = l.step(ok);
    }
    assert_eq!(reconnects, 3 + 3);
}
