use vstd::prelude::*;
use std::time::Duration;
use crate::settings::ReconnectionSettings;

verus! {

/// Why a connection was closed, as told to the listener of events.
#[derive(Copy, Clone, Debug, PartialEq, Eq, Structural)]
pub enum CloseReason {
    /// The writer closed the connection.
    ManuallyClosed,
    /// The connection dropped and the settings forbid reconnecting.
    DoNotReconnect,
    /// Every allowed reconnection attempt failed.
    MaxAttemptsReached,
}

/// The text carried by the closing event.
pub open spec fn reason_text(r: CloseReason) -> Seq<char> {
    match r {
        CloseReason::ManuallyClosed => "manually closed"@,
        CloseReason::DoNotReconnect => "do not reconnect"@,
        CloseReason::MaxAttemptsReached => "max attempts reached"@,
    }
}

impl CloseReason {
    /// The text carried by the closing event.
    pub fn text(&self) -> (t: &'static str)
        ensures
            t@ == reason_text(*self),
    {
        match self {
            CloseReason::ManuallyClosed => "manually closed",
            CloseReason::DoNotReconnect => "do not reconnect",
            CloseReason::MaxAttemptsReached => "max attempts reached",
        }
    }
}

/// An event about the connection itself, handed to the listener.
#[derive(Copy, Clone, Debug, PartialEq, Eq, Structural)]
pub enum Notice {
    /// Connection was closed for good, for the given reason.
    Closed(CloseReason),
    /// Connection has dropped.
    Disconnected,
    /// Attempting to restore connection.
    Reconnecting,
    /// Connection was sucessfully restored.
    Reconnected,
    /// The last attempt to restore the connection failed.
    ReconnectionError,
}

/// The one outside operation that the reader loop asks for next. Each one
/// is answered by a `bool`, as its documentation says.
#[derive(Copy, Clone, Debug)]
pub enum Command {
    /// Read up to the next line feed; answer whether a non-empty line came.
    ReadLine,
    /// Decode and parse the line just read and hand it to the listener;
    /// answer whether the listener took it.
    DeliverLine,
    /// Answer whether the writer reports the connection as manually closed.
    CheckClosed,
    /// Hand the notice to the listener; answer whether the listener took it.
    Notify(Notice),
    /// Mark the writer's connection as dropped; answer whether the mark
    /// took, that is whether the connection was not closed manually.
    MarkDisconnected,
    /// Close the writer's connection, ignoring the answer.
    CloseWriter,
    /// Wait for the given time.
    Sleep(Duration),
    /// Open a new connection; answer whether it succeeded.
    Reconnect,
    /// The loop is over.
    Stop,
}

/// Where the reader loop stands: each phase waits for the answer to one
/// command.
#[derive(Copy, Clone, Debug, PartialEq, Eq, Structural)]
pub enum Phase {
    /// Reading the next line.
    Reading,
    /// Handing a line to the listener.
    Delivering,
    /// The read ended; asking whether the connection was closed on purpose.
    CheckingClosed,
    /// Telling the listener about a manual close.
    ReportingManualClose,
    /// Marking the writer as disconnected.
    MarkingDisconnected,
    /// Telling the listener about the disconnection.
    ReportingDisconnected,
    /// Closing, since the settings forbid reconnecting.
    ClosingNoReconnect,
    /// Telling the listener that no reconnection will be made.
    ReportingNoReconnect,
    /// Waiting after the disconnection, before the first attempt.
    WaitingAfterDisconnect,
    /// Before an attempt, once `attempts` attempts were counted: asking
    /// whether the connection was closed on purpose meanwhile.
    CheckingBeforeAttempt { attempts: u32 },
    /// Closing, since every allowed attempt failed.
    ClosingMaxAttempts,
    /// Telling the listener that the attempts ran out.
    ReportingMaxAttempts,
    /// Telling the listener that attempt number `attempts` starts (0 when
    /// attempts are not counted).
    ReportingReconnecting { attempts: u32 },
    /// Making attempt number `attempts`.
    Reconnecting { attempts: u32 },
    /// Telling the listener that the connection is back.
    ReportingReconnected,
    /// Telling the listener that attempt number `attempts` failed.
    ReportingReconnectionError { attempts: u32 },
    /// Waiting before the attempt after attempt number `attempts`.
    WaitingBetweenAttempts { attempts: u32 },
    /// Leaving the loop; asking whether the connection is closed already.
    CheckingClosedAtExit,
    /// Leaving the loop; closing the connection.
    ClosingAtExit,
    /// The loop is over.
    Stopped,
}

/// The phase that follows the check before an attempt, once `attempts`
/// attempts were counted and the connection is still open: the next attempt
/// when one is left, the close otherwise. A limit of 0 means no limit, and
/// then attempts are not counted.
pub open spec fn attempt_phase(settings: ReconnectionSettings, attempts: u32) -> Phase {
    match settings {
        ReconnectionSettings::DoNotReconnect => Phase::ClosingNoReconnect,
        ReconnectionSettings::Reconnect { max_attempts, .. } => {
            if max_attempts == 0 {
                Phase::ReportingReconnecting { attempts }
            } else if attempts >= max_attempts {
                Phase::ClosingMaxAttempts
            } else {
                Phase::ReportingReconnecting { attempts: (attempts + 1) as u32 }
            }
        },
    }
}

/// The phase that follows `phase` once its command answered `ok`.
pub open spec fn next_phase(settings: ReconnectionSettings, phase: Phase, ok: bool) -> Phase {
    match phase {
        Phase::Reading => if ok { Phase::Delivering } else { Phase::CheckingClosed },
        Phase::Delivering => if ok { Phase::Reading } else { Phase::CheckingClosedAtExit },
        Phase::CheckingClosed => if ok { Phase::ReportingManualClose } else { Phase::MarkingDisconnected },
        Phase::ReportingManualClose => Phase::CheckingClosedAtExit,
        Phase::MarkingDisconnected => if ok { Phase::ReportingDisconnected } else { Phase::ReportingManualClose },
        Phase::ReportingDisconnected => {
            if !ok {
                Phase::CheckingClosedAtExit
            } else if settings is DoNotReconnect {
                Phase::ClosingNoReconnect
            } else {
                Phase::WaitingAfterDisconnect
            }
        },
        Phase::ClosingNoReconnect => Phase::ReportingNoReconnect,
        Phase::ReportingNoReconnect => Phase::CheckingClosedAtExit,
        Phase::WaitingAfterDisconnect => Phase::CheckingBeforeAttempt { attempts: 0 },
        Phase::CheckingBeforeAttempt { attempts } => {
            if ok { Phase::ReportingManualClose } else { attempt_phase(settings, attempts) }
        },
        Phase::ClosingMaxAttempts => Phase::ReportingMaxAttempts,
        Phase::ReportingMaxAttempts => Phase::CheckingClosedAtExit,
        Phase::ReportingReconnecting { attempts } => {
            if ok { Phase::Reconnecting { attempts } } else { Phase::CheckingClosedAtExit }
        },
        Phase::Reconnecting { attempts } => {
            if ok { Phase::ReportingReconnected } else { Phase::ReportingReconnectionError { attempts } }
        },
        Phase::ReportingReconnected => if ok { Phase::Reading } else { Phase::CheckingClosedAtExit },
        Phase::ReportingReconnectionError { attempts } => {
            if ok { Phase::WaitingBetweenAttempts { attempts } } else { Phase::CheckingClosedAtExit }
        },
        Phase::WaitingBetweenAttempts { attempts } => Phase::CheckingBeforeAttempt { attempts },
        Phase::CheckingClosedAtExit => if ok { Phase::Stopped } else { Phase::ClosingAtExit },
        Phase::ClosingAtExit => Phase::Stopped,
        Phase::Stopped => Phase::Stopped,
    }
}

/// The command that `phase` waits on.
pub open spec fn command_for(settings: ReconnectionSettings, phase: Phase) -> Command {
    match phase {
        Phase::Reading => Command::ReadLine,
        Phase::Delivering => Command::DeliverLine,
        Phase::CheckingClosed => Command::CheckClosed,
        Phase::ReportingManualClose => Command::Notify(Notice::Closed(CloseReason::ManuallyClosed)),
        Phase::MarkingDisconnected => Command::MarkDisconnected,
        Phase::ReportingDisconnected => Command::Notify(Notice::Disconnected),
        Phase::ClosingNoReconnect => Command::CloseWriter,
        Phase::ReportingNoReconnect => Command::Notify(Notice::Closed(CloseReason::DoNotReconnect)),
        Phase::WaitingAfterDisconnect => match settings {
            ReconnectionSettings::Reconnect { delay_after_disconnect, .. } => Command::Sleep(delay_after_disconnect),
            ReconnectionSettings::DoNotReconnect => Command::Stop,
        },
        Phase::CheckingBeforeAttempt { .. } => Command::CheckClosed,
        Phase::ClosingMaxAttempts => Command::CloseWriter,
        Phase::ReportingMaxAttempts => Command::Notify(Notice::Closed(CloseReason::MaxAttemptsReached)),
        Phase::ReportingReconnecting { .. } => Command::Notify(Notice::Reconnecting),
        Phase::Reconnecting { .. } => Command::Reconnect,
        Phase::ReportingReconnected => Command::Notify(Notice::Reconnected),
        Phase::ReportingReconnectionError { .. } => Command::Notify(Notice::ReconnectionError),
        Phase::WaitingBetweenAttempts { .. } => match settings {
            ReconnectionSettings::Reconnect { delay_between_attempts, .. } => Command::Sleep(delay_between_attempts),
            ReconnectionSettings::DoNotReconnect => Command::Stop,
        },
        Phase::CheckingClosedAtExit => Command::CheckClosed,
        Phase::ClosingAtExit => Command::CloseWriter,
        Phase::Stopped => Command::Stop,
    }
}

/// The phases that belong to a reconnection episode.
pub open spec fn in_reconnection(phase: Phase) -> bool {
    ||| phase is WaitingAfterDisconnect
    ||| phase is CheckingBeforeAttempt
    ||| phase is ClosingMaxAttempts
    ||| phase is ReportingMaxAttempts
    ||| phase is ReportingReconnecting
    ||| phase is Reconnecting
    ||| phase is ReportingReconnected
    ||| phase is ReportingReconnectionError
    ||| phase is WaitingBetweenAttempts
}

/// The phases of leaving the loop.
pub open spec fn is_exit(phase: Phase) -> bool {
    ||| phase is CheckingClosedAtExit
    ||| phase is ClosingAtExit
    ||| phase is Stopped
}

/// The attempt counter that a phase carries past its first attempt, if any.
pub open spec fn attempt_count(phase: Phase) -> Option<u32> {
    match phase {
        Phase::ReportingReconnecting { attempts } => Some(attempts),
        Phase::Reconnecting { attempts } => Some(attempts),
        Phase::ReportingReconnectionError { attempts } => Some(attempts),
        Phase::WaitingBetweenAttempts { attempts } => Some(attempts),
        _ => None,
    }
}

/// What holds of every phase the loop reaches under `settings`. Without
/// reconnection, no reconnection phase is entered. With reconnection, the
/// no-reconnection phases are never entered; without a limit the counters
/// stay 0 and the give-up phases are never entered; with a limit, the
/// counter lies between 0 and the limit before an attempt, and between 1 and
/// the limit during and after one.
pub open spec fn consistent(settings: ReconnectionSettings, phase: Phase) -> bool {
    match settings {
        ReconnectionSettings::DoNotReconnect => !in_reconnection(phase),
        ReconnectionSettings::Reconnect { max_attempts, .. } => {
            &&& !(phase is ClosingNoReconnect)
            &&& !(phase is ReportingNoReconnect)
            &&& max_attempts == 0 ==> !(phase is ClosingMaxAttempts) && !(phase is ReportingMaxAttempts)
            &&& match phase {
                Phase::CheckingBeforeAttempt { attempts } =>
                    if max_attempts == 0 { attempts == 0 } else { attempts <= max_attempts },
                _ => match attempt_count(phase) {
                    Some(a) => if max_attempts == 0 { a == 0 } else { 1 <= a <= max_attempts },
                    None => true,
                },
            }
        },
    }
}

/// The reconnection loop of the connection's reader: it decides, from the
/// answer to each command, which command comes next.
pub struct ReaderLoop {
    settings: ReconnectionSettings,
    phase: Phase,
}

impl ReaderLoop {
    #[verifier::type_invariant]
    spec fn inv(self) -> bool {
        consistent(self.settings, self.phase)
    }

    /// The reconnection settings the loop follows.
    pub closed spec fn settings(&self) -> ReconnectionSettings {
        self.settings
    }

    /// The phase the loop stands in.
    pub closed spec fn phase(&self) -> Phase {
        self.phase
    }

    /// A loop about to read the first line.
    pub fn new(settings: ReconnectionSettings) -> (l: Self)
        ensures
            l.settings() == settings,
            l.phase() == Phase::Reading,
    {
        ReaderLoop { settings, phase: Phase::Reading }
    }

    /// The phase the loop stands in.
    pub fn current_phase(&self) -> (p: Phase)
        ensures
            p == self.phase(),
            consistent(self.settings(), p),
    {
        proof { use_type_invariant(self); }
        self.phase
    }

    /// The command the loop waits on.
    pub fn command(&self) -> (c: Command)
        ensures
            c == command_for(self.settings(), self.phase()),
    {
        match self.phase {
            Phase::Reading => Command::ReadLine,
            Phase::Delivering => Command::DeliverLine,
            Phase::CheckingClosed => Command::CheckClosed,
            Phase::ReportingManualClose => Command::Notify(Notice::Closed(CloseReason::ManuallyClosed)),
            Phase::MarkingDisconnected => Command::MarkDisconnected,
            Phase::ReportingDisconnected => Command::Notify(Notice::Disconnected),
            Phase::ClosingNoReconnect => Command::CloseWriter,
            Phase::ReportingNoReconnect => Command::Notify(Notice::Closed(CloseReason::DoNotReconnect)),
            Phase::WaitingAfterDisconnect => match self.settings {
                ReconnectionSettings::Reconnect { delay_after_disconnect, .. } => Command::Sleep(delay_after_disconnect),
                ReconnectionSettings::DoNotReconnect => Command::Stop,
            },
            Phase::CheckingBeforeAttempt { .. } => Command::CheckClosed,
            Phase::ClosingMaxAttempts => Command::CloseWriter,
            Phase::ReportingMaxAttempts => Command::Notify(Notice::Closed(CloseReason::MaxAttemptsReached)),
            Phase::ReportingReconnecting { .. } => Command::Notify(Notice::Reconnecting),
            Phase::Reconnecting { .. } => Command::Reconnect,
            Phase::ReportingReconnected => Command::Notify(Notice::Reconnected),
            Phase::ReportingReconnectionError { .. } => Command::Notify(Notice::ReconnectionError),
            Phase::WaitingBetweenAttempts { .. } => match self.settings {
                ReconnectionSettings::Reconnect { delay_between_attempts, .. } => Command::Sleep(delay_between_attempts),
                ReconnectionSettings::DoNotReconnect => Command::Stop,
            },
            Phase::CheckingClosedAtExit => Command::CheckClosed,
            Phase::ClosingAtExit => Command::CloseWriter,
            Phase::Stopped => Command::Stop,
        }
    }

    /// The phase after the check before an attempt found the connection
    /// open, once `attempts` attempts were counted.
    fn next_attempt(settings: ReconnectionSettings, attempts: u32) -> (p: Phase)
        ensures
            p == attempt_phase(settings, attempts),
    {
        match settings {
            ReconnectionSettings::DoNotReconnect => Phase::ClosingNoReconnect,
            ReconnectionSettings::Reconnect { max_attempts, .. } => {
                if max_attempts == 0 {
                    Phase::ReportingReconnecting { attempts }
                } else if attempts >= max_attempts {
                    Phase::ClosingMaxAttempts
                } else {
                    Phase::ReportingReconnecting { attempts: attempts + 1 }
                }
            },
        }
    }

    /// Take the answer `ok` to the pending command, move on, and return the
    /// command to perform next.
    pub fn step(&mut self, ok: bool) -> (c: Command)
        ensures
            final(self).settings() == old(self).settings(),
            final(self).phase() == next_phase(old(self).settings(), old(self).phase(), ok),
            c == command_for(final(self).settings(), final(self).phase()),
    {
        proof {
            use_type_invariant(&*self);
            lemma_step_keeps_consistent(self.settings, self.phase, ok);
        }
        let settings = self.settings;
        let next = match self.phase {
            Phase::Reading => if ok { Phase::Delivering } else { Phase::CheckingClosed },
            Phase::Delivering => if ok { Phase::Reading } else { Phase::CheckingClosedAtExit },
            Phase::CheckingClosed => if ok { Phase::ReportingManualClose } else { Phase::MarkingDisconnected },
            Phase::ReportingManualClose => Phase::CheckingClosedAtExit,
            Phase::MarkingDisconnected => if ok { Phase::ReportingDisconnected } else { Phase::ReportingManualClose },
            Phase::ReportingDisconnected => {
                if !ok {
                    Phase::CheckingClosedAtExit
                } else {
                    match settings {
                        ReconnectionSettings::DoNotReconnect => Phase::ClosingNoReconnect,
                        ReconnectionSettings::Reconnect { .. } => Phase::WaitingAfterDisconnect,
                    }
                }
            },
            Phase::ClosingNoReconnect => Phase::ReportingNoReconnect,
            Phase::ReportingNoReconnect => Phase::CheckingClosedAtExit,
            Phase::WaitingAfterDisconnect => Phase::CheckingBeforeAttempt { attempts: 0 },
            Phase::CheckingBeforeAttempt { attempts } => {
                if ok { Phase::ReportingManualClose } else { Self::next_attempt(settings, attempts) }
            },
            Phase::ClosingMaxAttempts => Phase::ReportingMaxAttempts,
            Phase::ReportingMaxAttempts => Phase::CheckingClosedAtExit,
            Phase::ReportingReconnecting { attempts } => {
                if ok { Phase::Reconnecting { attempts } } else { Phase::CheckingClosedAtExit }
            },
            Phase::Reconnecting { attempts } => {
                if ok { Phase::ReportingReconnected } else { Phase::ReportingReconnectionError { attempts } }
            },
            Phase::ReportingReconnected => if ok { Phase::Reading } else { Phase::CheckingClosedAtExit },
            Phase::ReportingReconnectionError { attempts } => {
                if ok { Phase::WaitingBetweenAttempts { attempts } } else { Phase::CheckingClosedAtExit }
            },
            Phase::WaitingBetweenAttempts { attempts } => Phase::CheckingBeforeAttempt { attempts },
            Phase::CheckingClosedAtExit => if ok { Phase::Stopped } else { Phase::ClosingAtExit },
            Phase::ClosingAtExit => Phase::Stopped,
            Phase::Stopped => Phase::Stopped,
        };
        self.phase = next;
        self.command()
    }
}

/// Every step keeps the loop consistent with its settings.
pub proof fn lemma_step_keeps_consistent(settings: ReconnectionSettings, phase: Phase, ok: bool)
    requires
        consistent(settings, phase),
    ensures
        consistent(settings, next_phase(settings, phase, ok)),
{
}

/// When the last allowed attempt has failed and its wait is over, and the
/// connection is still open, the loop closes it and then reports that the
/// attempts ran out.
pub proof fn lemma_gives_up_after_last_attempt(settings: ReconnectionSettings)
    requires
        settings is Reconnect,
        settings->max_attempts > 0,
    ensures
        ({
            let check = next_phase(settings, Phase::WaitingBetweenAttempts { attempts: settings->max_attempts }, true);
            let p = next_phase(settings, check, false);
            &&& check == Phase::CheckingBeforeAttempt { attempts: settings->max_attempts }
            &&& command_for(settings, check) is CheckClosed
            &&& p == Phase::ClosingMaxAttempts
            &&& command_for(settings, p) is CloseWriter
            &&& command_for(settings, next_phase(settings, p, true))
                == Command::Notify(Notice::Closed(CloseReason::MaxAttemptsReached))
        }),
{
}

/// With a limit of 0 the loop never gives up on reconnecting: it never
/// enters the give-up phases, nor tells that the attempts ran out.
pub proof fn lemma_unlimited_never_gives_up(settings: ReconnectionSettings, phase: Phase, ok: bool)
    requires
        settings is Reconnect,
        settings->max_attempts == 0,
        consistent(settings, phase),
    ensures
        next_phase(settings, phase, ok) != Phase::ClosingMaxAttempts,
        command_for(settings, phase) != Command::Notify(Notice::Closed(CloseReason::MaxAttemptsReached)),
{
}

/// Without reconnection, the loop never attempts one nor waits for one; a
/// reported disconnection leads to closing the connection. With
/// reconnection, it never tells that no reconnection will be made.
pub proof fn lemma_reconnection_follows_settings(settings: ReconnectionSettings, phase: Phase)
    requires
        consistent(settings, phase),
    ensures
        settings is DoNotReconnect ==> !(command_for(settings, phase) is Reconnect),
        settings is DoNotReconnect ==> !(command_for(settings, phase) is Sleep),
        settings is DoNotReconnect ==> next_phase(settings, Phase::ReportingDisconnected, true)
            == Phase::ClosingNoReconnect,
        settings is DoNotReconnect ==> command_for(settings, next_phase(settings, Phase::ClosingNoReconnect, true))
            == Command::Notify(Notice::Closed(CloseReason::DoNotReconnect)),
        settings is Reconnect ==> command_for(settings, phase)
            != Command::Notify(Notice::Closed(CloseReason::DoNotReconnect)),
{
}

/// Every reconnection attempt follows a check, made after the preceding
/// wait, that found the connection not closed manually; a close found there
/// is reported as a manual close instead of attempting.
pub proof fn lemma_attempt_only_while_open(settings: ReconnectionSettings, phase: Phase, ok: bool, attempts: u32)
    ensures
        next_phase(settings, phase, ok) is ReportingReconnecting ==> phase is CheckingBeforeAttempt && !ok,
        next_phase(settings, phase, ok) is Reconnecting ==> phase is ReportingReconnecting && ok,
        command_for(settings, Phase::CheckingBeforeAttempt { attempts }) is CheckClosed,
        next_phase(settings, Phase::CheckingBeforeAttempt { attempts }, true) == Phase::ReportingManualClose,
{
}

/// When no one listens to the events any more, the connection is dropped:
/// an event or line that the listener does not take ends the loop.
pub proof fn lemma_listener_gone_ends_loop(settings: ReconnectionSettings, phase: Phase)
    requires
        command_for(settings, phase) is Notify || command_for(settings, phase) is DeliverLine,
    ensures
        next_phase(settings, phase, false) == Phase::CheckingClosedAtExit,
{
}

/// The loop stops only once the connection is closed: it enters its last
/// phase right after finding the connection closed or after closing it.
pub proof fn lemma_stops_only_closed(settings: ReconnectionSettings, phase: Phase, ok: bool)
    requires
        phase != Phase::Stopped,
        next_phase(settings, phase, ok) == Phase::Stopped,
    ensures
        (phase == Phase::CheckingClosedAtExit && ok && command_for(settings, phase) is CheckClosed)
            || (phase == Phase::ClosingAtExit && command_for(settings, phase) is CloseWriter),
{
}

/// Once stopped, the loop stays stopped and asks for nothing more.
pub proof fn lemma_stopped_is_final(settings: ReconnectionSettings, ok: bool)
    ensures
        next_phase(settings, Phase::Stopped, ok) == Phase::Stopped,
        command_for(settings, Phase::Stopped) is Stop,
{
}

/// A manual close that the reader meets, when its read ends or when its
/// mark of the dropped connection finds it closed, is told to the listener
/// as a manual close, and the loop then heads for its exit.
pub proof fn lemma_manual_close_reported(settings: ReconnectionSettings, ok: bool)
    ensures
        next_phase(settings, Phase::Reading, false) == Phase::CheckingClosed,
        next_phase(settings, Phase::CheckingClosed, true) == Phase::ReportingManualClose,
        next_phase(settings, Phase::MarkingDisconnected, false) == Phase::ReportingManualClose,
        command_for(settings, Phase::ReportingManualClose)
            == Command::Notify(Notice::Closed(CloseReason::ManuallyClosed)),
        next_phase(settings, Phase::ReportingManualClose, ok) == Phase::CheckingClosedAtExit,
{
}

/// The loop is over: it asks for nothing more and never moves on.
pub open spec fn is_over(settings: ReconnectionSettings, phase: Phase) -> bool {
    &&& command_for(settings, phase) is Stop
    &&& forall|b: bool| #[trigger] next_phase(settings, phase, b) == phase
}

/// The loop winds down from `phase`: it asks whether the connection is
/// closed; if so it is over, and if not it closes the connection and then is
/// over, whatever the answer.
pub open spec fn winds_down(settings: ReconnectionSettings, phase: Phase) -> bool {
    &&& command_for(settings, phase) is CheckClosed
    &&& is_over(settings, next_phase(settings, phase, true))
    &&& command_for(settings, next_phase(settings, phase, false)) is CloseWriter
    &&& is_over(settings, next_phase(settings, next_phase(settings, phase, false), true))
    &&& is_over(settings, next_phase(settings, next_phase(settings, phase, false), false))
}

/// Lines flow: after a non-empty line the loop hands it to the listener;
/// once the listener took it, the loop reads the next line. A read that ends
/// leads to asking whether the connection was closed on purpose: if so, a
/// manual close is reported; if not, the connection is marked as dropped.
pub proof fn lemma_lines_flow(settings: ReconnectionSettings, phase: Phase)
    ensures
        command_for(settings, phase) is ReadLine ==> {
            let ended = next_phase(settings, phase, false);
            &&& command_for(settings, next_phase(settings, phase, true)) is DeliverLine
            &&& command_for(settings, ended) is CheckClosed
            &&& command_for(settings, next_phase(settings, ended, true))
                == Command::Notify(Notice::Closed(CloseReason::ManuallyClosed))
            &&& command_for(settings, next_phase(settings, ended, false)) is MarkDisconnected
        },
        command_for(settings, phase) is DeliverLine ==> command_for(
            settings,
            next_phase(settings, phase, true),
        ) is ReadLine,
{
}

/// A mark that took is followed by the disconnection notice; a mark that
/// found the connection closed, by a manual close notice. Once the
/// disconnection notice is taken, the loop waits the delay after a
/// disconnection when it may reconnect, and otherwise closes the connection
/// and tells that no reconnection will be made.
pub proof fn lemma_disconnection_flow(settings: ReconnectionSettings, phase: Phase)
    ensures
        command_for(settings, phase) is MarkDisconnected ==> {
            &&& command_for(settings, next_phase(settings, phase, true)) == Command::Notify(Notice::Disconnected)
            &&& command_for(settings, next_phase(settings, phase, false))
                == Command::Notify(Notice::Closed(CloseReason::ManuallyClosed))
        },
        command_for(settings, phase) == Command::Notify(Notice::Disconnected) ==> match settings {
            ReconnectionSettings::Reconnect { delay_after_disconnect, .. } => command_for(
                settings,
                next_phase(settings, phase, true),
            ) == Command::Sleep(delay_after_disconnect),
            ReconnectionSettings::DoNotReconnect => {
                &&& command_for(settings, next_phase(settings, phase, true)) is CloseWriter
                &&& command_for(settings, next_phase(settings, next_phase(settings, phase, true), true))
                    == Command::Notify(Notice::Closed(CloseReason::DoNotReconnect))
            },
        },
{
}

/// Every attempt is announced and its outcome told: a taken reconnecting
/// notice is followed by the attempt; a successful attempt by the
/// reconnected notice, a failed one by the failed-reconnection notice. Once
/// the reconnected notice is taken, the loop reads again; once the
/// failed-reconnection notice is taken, it waits the delay between attempts.
pub proof fn lemma_attempt_flow(settings: ReconnectionSettings, phase: Phase)
    ensures
        command_for(settings, phase) == Command::Notify(Notice::Reconnecting) ==> command_for(
            settings,
            next_phase(settings, phase, true),
        ) is Reconnect,
        command_for(settings, phase) is Reconnect ==> {
            &&& command_for(settings, next_phase(settings, phase, true)) == Command::Notify(Notice::Reconnected)
            &&& command_for(settings, next_phase(settings, phase, false))
                == Command::Notify(Notice::ReconnectionError)
        },
        command_for(settings, phase) == Command::Notify(Notice::Reconnected) ==> command_for(
            settings,
            next_phase(settings, phase, true),
        ) is ReadLine,
        (settings is Reconnect && command_for(settings, phase) == Command::Notify(Notice::ReconnectionError))
            ==> command_for(settings, next_phase(settings, phase, true)) == Command::Sleep(
            settings->delay_between_attempts,
        ),
{
}

/// After each wait the loop asks whether the connection was closed on
/// purpose, and if so reports a manual close. If not: without a limit it
/// announces a new attempt; with a limit it does so while attempts are
/// left, the first time always, and otherwise closes the connection and
/// tells that the attempts ran out.
pub proof fn lemma_after_wait(settings: ReconnectionSettings, phase: Phase, ok: bool)
    requires
        settings is Reconnect,
        consistent(settings, phase),
        command_for(settings, phase) is Sleep,
    ensures
        ({
            let check = next_phase(settings, phase, ok);
            let open = next_phase(settings, check, false);
            &&& command_for(settings, check) is CheckClosed
            &&& command_for(settings, next_phase(settings, check, true))
                == Command::Notify(Notice::Closed(CloseReason::ManuallyClosed))
            &&& settings->max_attempts == 0 ==> command_for(settings, open) == Command::Notify(Notice::Reconnecting)
            &&& phase is WaitingAfterDisconnect ==> command_for(settings, open) == Command::Notify(Notice::Reconnecting)
            &&& match phase {
                Phase::WaitingBetweenAttempts { attempts } => {
                    &&& attempts < settings->max_attempts ==> command_for(settings, open)
                        == Command::Notify(Notice::Reconnecting)
                    &&& (settings->max_attempts > 0 && attempts == settings->max_attempts) ==> {
                        &&& command_for(settings, open) is CloseWriter
                        &&& command_for(settings, next_phase(settings, open, true))
                            == Command::Notify(Notice::Closed(CloseReason::MaxAttemptsReached))
                    }
                },
                _ => true,
            }
        }),
{
}

/// The loop winds down whenever the listener refuses a line or a notice,
/// and after every closing notice; winding down closes a connection still
/// open and then ends the loop within two steps.
pub proof fn lemma_winding_down(settings: ReconnectionSettings, phase: Phase, ok: bool)
    ensures
        (command_for(settings, phase) is Notify || command_for(settings, phase) is DeliverLine) ==> winds_down(
            settings,
            next_phase(settings, phase, false),
        ),
        (command_for(settings, phase) matches Command::Notify(Notice::Closed(_))) ==> winds_down(
            settings,
            next_phase(settings, phase, ok),
        ),
{
    assert forall|b: bool| #[trigger] next_phase(settings, Phase::Stopped, b) == Phase::Stopped by {}
}

/// A new loop starts by reading a line.
pub proof fn lemma_starts_reading(settings: ReconnectionSettings)
    ensures
        command_for(settings, Phase::Reading) is ReadLine,
{
}

} // verus!
