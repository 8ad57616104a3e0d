use vstd::prelude::*;
use crate::reader::{
    command_for, consistent, is_exit, lemma_step_keeps_consistent, next_phase, CloseReason,
    Command, Notice, Phase,
};
use crate::settings::ReconnectionSettings;

verus! {

/// The phase the loop reaches from `start` once it took the answers `outs`
/// in turn.
pub open spec fn run_to(settings: ReconnectionSettings, start: Phase, outs: Seq<bool>) -> Phase
    decreases outs.len(),
{
    if outs.len() == 0 {
        start
    } else {
        next_phase(settings, run_to(settings, start, outs.drop_last()), outs.last())
    }
}

/// The command that the last answer of `outs` answered.
pub open spec fn last_command(settings: ReconnectionSettings, start: Phase, outs: Seq<bool>) -> Command {
    command_for(settings, run_to(settings, start, outs.drop_last()))
}

/// Whether a command hands something to the listener.
pub open spec fn is_send(c: Command) -> bool {
    c is Notify || c is DeliverLine
}

/// Whether a command is a closing notice.
pub open spec fn is_closing(c: Command) -> bool {
    match c {
        Command::Notify(Notice::Closed(_)) => true,
        _ => false,
    }
}

/// What the loop handed to the listener, in order, while it took `outs`.
pub open spec fn sends(settings: ReconnectionSettings, start: Phase, outs: Seq<bool>) -> Seq<Command>
    decreases outs.len(),
{
    if outs.len() == 0 {
        Seq::empty()
    } else {
        let before = sends(settings, start, outs.drop_last());
        let c = last_command(settings, start, outs);
        if is_send(c) { before.push(c) } else { before }
    }
}

/// Whether the listener took everything handed to it while the loop took
/// `outs`.
pub open spec fn all_sends_taken(settings: ReconnectionSettings, start: Phase, outs: Seq<bool>) -> bool
    decreases outs.len(),
{
    if outs.len() == 0 {
        true
    } else {
        all_sends_taken(settings, start, outs.drop_last())
            && (is_send(last_command(settings, start, outs)) ==> outs.last())
    }
}

/// The reconnection attempts made since the loop last started reading.
pub open spec fn attempts_since_reading(settings: ReconnectionSettings, start: Phase, outs: Seq<bool>) -> nat
    decreases outs.len(),
{
    if outs.len() == 0 {
        0
    } else if run_to(settings, start, outs) == Phase::Reading {
        0
    } else {
        attempts_since_reading(settings, start, outs.drop_last())
            + if last_command(settings, start, outs) is Reconnect { 1nat } else { 0nat }
    }
}

/// The failed reconnection attempts since the loop last started reading.
pub open spec fn failures_since_reading(settings: ReconnectionSettings, start: Phase, outs: Seq<bool>) -> nat
    decreases outs.len(),
{
    if outs.len() == 0 {
        0
    } else if run_to(settings, start, outs) == Phase::Reading {
        0
    } else {
        failures_since_reading(settings, start, outs.drop_last())
            + if last_command(settings, start, outs) is Reconnect && !outs.last() { 1nat } else { 0nat }
    }
}

/// Whether the log holds a disconnection notice with no line delivered
/// after it.
pub open spec fn disconnected_since_line(log: Seq<Command>) -> bool
    decreases log.len(),
{
    if log.len() == 0 {
        false
    } else if log.last() == Command::Notify(Notice::Disconnected) {
        true
    } else if log.last() is DeliverLine {
        false
    } else {
        disconnected_since_line(log.drop_last())
    }
}

/// Every reconnected or failed-reconnection notice comes right after a
/// reconnecting notice.
pub open spec fn results_follow_attempts(log: Seq<Command>) -> bool {
    forall|i: int|
        #![trigger log[i]]
        0 <= i < log.len() && (log[i] == Command::Notify(Notice::Reconnected) || log[i]
            == Command::Notify(Notice::ReconnectionError)) ==> i >= 1 && log[i - 1]
            == Command::Notify(Notice::Reconnecting)
}

/// Every reconnecting notice follows a disconnection notice with no line
/// delivered between them.
pub open spec fn attempts_follow_disconnection(log: Seq<Command>) -> bool {
    forall|i: int|
        #![trigger log[i]]
        0 <= i < log.len() && log[i] == Command::Notify(Notice::Reconnecting) ==> disconnected_since_line(
            log.take(i),
        )
}

/// Nothing is handed to the listener after a closing notice.
pub open spec fn closing_is_last(log: Seq<Command>) -> bool {
    forall|i: int| #![trigger log[i]] 0 <= i < log.len() && is_closing(log[i]) ==> i == log.len() - 1
}

/// The phases in which the counters of the current episode are known.
spec fn counts_match(max: u32, q: Phase, attempts: nat, failures: nat) -> bool {
    match q {
        Phase::Reading | Phase::Delivering | Phase::CheckingClosed | Phase::MarkingDisconnected
        | Phase::ReportingDisconnected | Phase::WaitingAfterDisconnect => attempts == 0 && failures == 0,
        Phase::CheckingBeforeAttempt { attempts: a } => attempts == a && failures == a,
        Phase::ReportingReconnectionError { attempts: a } => attempts == a && failures == a,
        Phase::WaitingBetweenAttempts { attempts: a } => attempts == a && failures == a,
        Phase::ReportingReconnecting { attempts: a } => attempts + 1 == a && failures + 1 == a,
        Phase::Reconnecting { attempts: a } => attempts + 1 == a && failures + 1 == a,
        Phase::ClosingMaxAttempts => attempts == max && failures == max,
        _ => true,
    }
}

/// The phases of a reconnection episode, after its disconnection notice.
spec fn after_disconnection_notice(q: Phase) -> bool {
    ||| q is WaitingAfterDisconnect
    ||| q is CheckingBeforeAttempt
    ||| q is ReportingReconnecting
    ||| q is Reconnecting
    ||| q is ReportingReconnectionError
    ||| q is WaitingBetweenAttempts
}

/// Every run keeps the loop consistent with its settings.
pub proof fn lemma_run_consistent(settings: ReconnectionSettings, start: Phase, outs: Seq<bool>)
    requires
        consistent(settings, start),
    ensures
        consistent(settings, run_to(settings, start, outs)),
    decreases outs.len(),
{
    if outs.len() > 0 {
        lemma_run_consistent(settings, start, outs.drop_last());
        lemma_step_keeps_consistent(settings, run_to(settings, start, outs.drop_last()), outs.last());
    }
}

proof fn lemma_counts(settings: ReconnectionSettings, outs: Seq<bool>)
    requires
        settings is Reconnect,
        settings->max_attempts > 0,
    ensures
        counts_match(
            settings->max_attempts,
            run_to(settings, Phase::Reading, outs),
            attempts_since_reading(settings, Phase::Reading, outs),
            failures_since_reading(settings, Phase::Reading, outs),
        ),
    decreases outs.len(),
{
    if outs.len() > 0 {
        let prev = outs.drop_last();
        lemma_counts(settings, prev);
        lemma_run_consistent(settings, Phase::Reading, prev);
    }
}

/// The loop gives up only after the allowed number of attempts, all failed,
/// since it last started reading; a successful reconnection resumes reading
/// and so starts the count again from zero. In every phase of an episode,
/// the counter it carries is the number of attempts made in the episode.
pub proof fn lemma_gives_up_only_after_max_failures(settings: ReconnectionSettings, outs: Seq<bool>)
    requires
        settings is Reconnect,
        settings->max_attempts > 0,
    ensures
        run_to(settings, Phase::Reading, outs) == Phase::ClosingMaxAttempts ==> attempts_since_reading(
            settings,
            Phase::Reading,
            outs,
        ) == settings->max_attempts && failures_since_reading(settings, Phase::Reading, outs)
            == settings->max_attempts,
        run_to(settings, Phase::Reading, outs) == Phase::Reading ==> attempts_since_reading(
            settings,
            Phase::Reading,
            outs,
        ) == 0,
        attempts_since_reading(settings, Phase::Reading, outs) <= settings->max_attempts,
        match run_to(settings, Phase::Reading, outs) {
            Phase::WaitingBetweenAttempts { attempts } => failures_since_reading(
                settings,
                Phase::Reading,
                outs,
            ) == attempts,
            Phase::CheckingBeforeAttempt { attempts } => failures_since_reading(
                settings,
                Phase::Reading,
                outs,
            ) == attempts,
            _ => true,
        },
    decreases outs.len(),
{
    lemma_counts(settings, outs);
    lemma_run_consistent(settings, Phase::Reading, outs);
    if outs.len() > 0 {
        lemma_gives_up_only_after_max_failures(settings, outs.drop_last());
        lemma_counts(settings, outs.drop_last());
        lemma_run_consistent(settings, Phase::Reading, outs.drop_last());
    }
}

/// The loop heads for its exit only right after a closing notice (a manual
/// close, no reconnection allowed, or the attempts ran out), or when the
/// listener did not take a line or a notice.
pub proof fn lemma_exit_causes(settings: ReconnectionSettings, phase: Phase, ok: bool)
    requires
        !is_exit(phase),
        is_exit(next_phase(settings, phase, ok)),
    ensures
        is_closing(command_for(settings, phase)) || (is_send(command_for(settings, phase)) && !ok),
{
}

/// Once it heads for its exit, the loop hands nothing more to the listener
/// and does not come back.
pub proof fn lemma_exit_sends_nothing(settings: ReconnectionSettings, phase: Phase, ok: bool)
    requires
        is_exit(phase),
    ensures
        is_exit(next_phase(settings, phase, ok)),
        !is_send(command_for(settings, phase)),
{
}

/// A disconnection notice is handed over only after the reader marked the
/// connection as dropped, and the mark took (the connection was not closed).
pub proof fn lemma_disconnected_after_mark(settings: ReconnectionSettings, phase: Phase, ok: bool)
    requires
        next_phase(settings, phase, ok) == Phase::ReportingDisconnected,
    ensures
        phase == Phase::MarkingDisconnected,
        ok,
        command_for(settings, phase) is MarkDisconnected,
{
}

proof fn lemma_log(settings: ReconnectionSettings, outs: Seq<bool>)
    ensures
        ({
            let q = run_to(settings, Phase::Reading, outs);
            let log = sends(settings, Phase::Reading, outs);
            &&& results_follow_attempts(log)
            &&& attempts_follow_disconnection(log)
            &&& forall|i: int| #![trigger log[i]] 0 <= i < log.len() && is_closing(log[i])
                ==> i == log.len() - 1 && is_exit(q)
            &&& (q is Reconnecting || q is ReportingReconnected || q is ReportingReconnectionError)
                ==> log.len() > 0 && log.last() == Command::Notify(Notice::Reconnecting)
            &&& after_disconnection_notice(q) ==> disconnected_since_line(log)
            &&& (is_exit(q) && all_sends_taken(settings, Phase::Reading, outs)) ==> log.len() > 0
                && is_closing(log.last())
        }),
    decreases outs.len(),
{
    if outs.len() > 0 {
        let prev = outs.drop_last();
        lemma_log(settings, prev);
        let pp = run_to(settings, Phase::Reading, prev);
        let ok = outs.last();
        let q = run_to(settings, Phase::Reading, outs);
        let old_log = sends(settings, Phase::Reading, prev);
        let log = sends(settings, Phase::Reading, outs);
        let c = command_for(settings, pp);
        assert(q == next_phase(settings, pp, ok));
        assert(c == last_command(settings, Phase::Reading, outs));
        if is_send(c) {
            assert(log == old_log.push(c));
            assert(log.drop_last() =~= old_log);
            assert forall|i: int| 0 <= i < log.len() - 1 implies log[i] == old_log[i] by {}
            assert forall|i: int|
                #![trigger log[i]]
                0 <= i < log.len() && log[i] == Command::Notify(Notice::Reconnecting) implies disconnected_since_line(
                log.take(i),
            ) by {
                if i < old_log.len() {
                    assert(log.take(i) =~= old_log.take(i));
                    assert(old_log[i] == log[i]);
                } else {
                    assert(log.take(i) =~= old_log);
                }
            }
            assert forall|i: int|
                #![trigger log[i]]
                0 <= i < log.len() && (log[i] == Command::Notify(Notice::Reconnected) || log[i]
                    == Command::Notify(Notice::ReconnectionError)) implies i >= 1 && log[i - 1]
                == Command::Notify(Notice::Reconnecting) by {
                if i < old_log.len() {
                    assert(old_log[i] == log[i]);
                    assert(old_log[i - 1] == log[i - 1]);
                }
            }
            assert forall|i: int| #![trigger log[i]] 0 <= i < log.len() && is_closing(log[i])
                implies i == log.len() - 1 && is_exit(q) by {
                if i < old_log.len() {
                    assert(old_log[i] == log[i]);
                }
            }
            if after_disconnection_notice(q) {
                assert(log.last() == c);
            }
        } else {
            assert(log == old_log);
        }
    }
}

/// The order of what the loop hands to the listener, whatever the answers:
/// every reconnected or failed-reconnection notice comes right after a
/// reconnecting notice; every reconnecting notice follows a disconnection
/// notice with no line delivered in between; nothing follows a closing
/// notice; and once the loop heads for its exit with every line and notice
/// taken, the last thing handed over was a closing notice.
pub proof fn lemma_event_order(settings: ReconnectionSettings, outs: Seq<bool>)
    ensures
        results_follow_attempts(sends(settings, Phase::Reading, outs)),
        attempts_follow_disconnection(sends(settings, Phase::Reading, outs)),
        closing_is_last(sends(settings, Phase::Reading, outs)),
        (is_exit(run_to(settings, Phase::Reading, outs)) && all_sends_taken(settings, Phase::Reading, outs))
            ==> sends(settings, Phase::Reading, outs).len() > 0 && is_closing(
            sends(settings, Phase::Reading, outs).last(),
        ),
{
    lemma_log(settings, outs);
}

} // verus!
