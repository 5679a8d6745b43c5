//! What holds of the polling cycle, step by step and over a whole cycle.

use crate::error::PanelFault;
use crate::panel::LIST_COMMAND;
use crate::poll::{answers, stopped_observation, Answer, Call, Move, Notice, Observation, Phase, PollerState, RUNNING};
use crate::servers::ServerRecord;
use crate::tolerance::Classification;
use vstd::prelude::*;

verus! {

/// The servers that a row of reports is about, in the order of the reports:
/// one entry for each observation and for each failed call.
pub open spec fn subjects(notices: Seq<Notice>) -> Seq<ServerRecord>
    decreases notices.len(),
{
    if notices.len() == 0 {
        Seq::empty()
    } else {
        let earlier = subjects(notices.drop_last());
        match notices.last() {
            Notice::Observed(observation) => earlier.push(observation.server),
            Notice::ServerFailed { server, .. } => earlier.push(server),
            Notice::Nothing | Notice::CycleSkipped(_) => earlier,
        }
    }
}

/// The observations among a row of reports, in the order of the reports.
pub open spec fn observed(notices: Seq<Notice>) -> Seq<Observation>
    decreases notices.len(),
{
    if notices.len() == 0 {
        Seq::empty()
    } else {
        let earlier = observed(notices.drop_last());
        match notices.last() {
            Notice::Observed(observation) => earlier.push(observation),
            _ => earlier,
        }
    }
}

/// Whether an answer says that the call failed.
pub open spec fn failed(answer: Answer) -> bool {
    answer matches Answer::Listed(Err(_)) || answer matches Answer::State(Err(_)) || answer matches Answer::Command(
        Err(_),
    )
}

/// Where a poller is after a row of answers, and what it reported and
/// called for on the way. An answer out of turn changes nothing.
pub open spec fn run(state: PollerState, row: Seq<Answer>) -> (PollerState, Seq<Move>)
    decreases row.len(),
{
    if row.len() == 0 {
        (state, Seq::empty())
    } else {
        let (before, moves) = run(state, row.drop_last());
        match before.step(row.last()) {
            Some((next, made)) => (next, moves.push(made)),
            None => (before, moves),
        }
    }
}

/// The reports of a row of moves.
pub open spec fn reports(moves: Seq<Move>) -> Seq<Notice> {
    moves.map_values(|made: Move| made.report)
}

/// A step keeps the poller well formed, keeps its interval and tolerance,
/// and calls for exactly what the next state waits for.
pub proof fn law_step_is_sound(state: PollerState, answer: Answer)
    requires
        state.wf(),
        answers(state.phase, answer),
    ensures
        state.step(answer) matches Some((next, made)) && {
            &&& next.wf()
            &&& next.interval_secs == state.interval_secs
            &&& next.tolerance_ms == state.tolerance_ms
            &&& made.action == next.awaited()
        },
{
}

/// A server whose power state is anything but `running` is reported as
/// stopped, without a reply time, and no command is sent to it: the poller
/// turns to the next server, or sleeps after the last.
pub proof fn law_stopped_server_gets_no_command(state: PollerState, power_state: Seq<char>)
    requires
        state.wf(),
        state.phase == Phase::Querying,
        power_state != RUNNING@,
    ensures
        state.step(Answer::State(Ok(power_state))) matches Some((next, made)) && {
            &&& made.report == Notice::Observed(stopped_observation(state.current()))
            &&& made.report matches Notice::Observed(seen) && seen.classification == Classification::Stopped
                && seen.elapsed_ms is None
            &&& !(made.action is SendCommand)
            &&& next.phase != Phase::Pinging
            &&& next.phase == Phase::Sleeping || next.cursor == state.cursor + 1
        },
{
}

/// A running server is sent the `list` command, and nothing is reported
/// until the command has come back.
pub proof fn law_running_server_is_pinged(state: PollerState)
    requires
        state.wf(),
        state.phase == Phase::Querying,
    ensures
        state.step(Answer::State(Ok(RUNNING@))) matches Some((next, made)) && {
            &&& made.report == Notice::Nothing
            &&& made.action == Call::SendCommand { identifier: state.current().identifier, command: LIST_COMMAND@ }
            &&& next.phase == Phase::Pinging
            &&& next.cursor == state.cursor
        },
{
}

/// A command that came back is classified by its reply time alone: fast up
/// to the tolerance, slow above it, and the reply time is reported with it.
pub proof fn law_reply_is_held_against_tolerance(state: PollerState, elapsed_ms: u128)
    requires
        state.wf(),
        state.phase == Phase::Pinging,
    ensures
        state.step(Answer::Command(Ok(elapsed_ms))) matches Some((next, made)) && {
            &&& made.report matches Notice::Observed(seen)
            &&& seen.server == state.current()
            &&& seen.elapsed_ms == Some(elapsed_ms)
            &&& elapsed_ms <= state.tolerance_ms ==> seen.classification == Classification::Fast
            &&& elapsed_ms > state.tolerance_ms ==> seen.classification == Classification::Slow
        },
{
}

/// A call about one server that fails is reported for that server and ends
/// its turn; the cycle goes on.
pub proof fn law_failed_call_ends_the_turn(state: PollerState, answer: Answer, error: PanelFault)
    requires
        state.wf(),
        (state.phase == Phase::Querying && answer == Answer::State(Err(error))) || (state.phase
            == Phase::Pinging && answer == Answer::Command(Err(error))),
    ensures
        state.step(answer) matches Some((next, made)) && {
            &&& made.report == Notice::ServerFailed { server: state.current(), error }
            &&& next == state.facing(state.servers, state.cursor + 1)
            &&& !(made.action is SendCommand)
        },
{
}

/// A listing that fails ends the cycle at once: the failure is reported, the
/// poller sleeps for its interval, and the next answer it takes is the end
/// of that sleep, on which it asks for the listing again.
pub proof fn law_failed_listing_skips_the_cycle(state: PollerState, error: PanelFault)
    requires
        state.wf(),
        state.phase == Phase::Listing,
    ensures
        state.step(Answer::Listed(Err(error))) matches Some((next, made)) && {
            &&& made.report == Notice::CycleSkipped(error)
            &&& made.action == Call::Sleep { seconds: state.interval_secs }
            &&& next == state.resting()
            &&& forall|answer: Answer| next.step(answer) is Some ==> answer is Woke
            &&& next.step(Answer::Woke) matches Some((again, listing)) && listing.action == Call::ListServers
                && again.phase == Phase::Listing
        },
{
}

/// What holds of a cycle that began with the listing `servers`, wherever it
/// has got to: the poller has reported on the servers before its cursor, on
/// each once and in the order of the listing; on all of them once it sleeps.
pub open spec fn cycle_so_far(servers: Seq<ServerRecord>, state: PollerState, moves: Seq<Move>) -> bool {
    &&& state.wf()
    &&& state.phase != Phase::Listing
    &&& state.phase == Phase::Sleeping ==> subjects(reports(moves)) == servers
    &&& state.phase != Phase::Sleeping ==> state.servers == servers && subjects(reports(moves)) == servers.take(
        state.cursor,
    )
}

/// One more move adds its report to the reports.
proof fn lemma_reports_push(moves: Seq<Move>, made: Move)
    ensures
        reports(moves.push(made)) == reports(moves).push(made.report),
        subjects(reports(moves.push(made))) == match made.report {
            Notice::Observed(observation) => subjects(reports(moves)).push(observation.server),
            Notice::ServerFailed { server, .. } => subjects(reports(moves)).push(server),
            Notice::Nothing | Notice::CycleSkipped(_) => subjects(reports(moves)),
        },
        observed(reports(moves.push(made))) == match made.report {
            Notice::Observed(observation) => observed(reports(moves)).push(observation),
            _ => observed(reports(moves)),
        },
{
    let longer = reports(moves).push(made.report);
    assert(longer.drop_last() =~= reports(moves));
}

/// One cycle reports on every listed server once, in the order of the
/// listing, whether the calls about it succeed or fail. Until the poller
/// sleeps again it has reported on exactly the servers before its cursor.
pub proof fn law_cycle_reports_each_server_once(
    state: PollerState,
    servers: Seq<ServerRecord>,
    rest: Seq<Answer>,
)
    requires
        state.wf(),
        state.phase == Phase::Listing,
        forall|i: int| 0 <= i < rest.len() ==> !(#[trigger] rest[i] is Woke),
    ensures
        ({
            let (end, moves) = run(state, seq![Answer::Listed(Ok(servers))] + rest);
            cycle_so_far(servers, end, moves)
        }),
    decreases rest.len(),
{
    let listed = Answer::Listed(Ok(servers));
    let row = seq![listed] + rest;
    if rest.len() == 0 {
        assert(run(state, row.drop_last()) == (state, Seq::<Move>::empty()));
        match state.step(listed) {
            Some((next, made)) => {
                lemma_reports_push(Seq::empty(), made);
            },
            None => {},
        }
        assert(servers.take(0) =~= Seq::<ServerRecord>::empty());
        if servers.len() == 0 {
            assert(servers =~= Seq::<ServerRecord>::empty());
        }
    } else {
        assert(row.drop_last() =~= seq![listed] + rest.drop_last());
        law_cycle_reports_each_server_once(state, servers, rest.drop_last());
        let (before, moves) = run(state, row.drop_last());
        match before.step(rest.last()) {
            Some((next, made)) => {
                lemma_reports_push(moves, made);
                if next.phase == Phase::Sleeping {
                    assert(servers.take(before.cursor).push(servers[before.cursor]) =~= servers);
                } else if next.cursor == before.cursor + 1 {
                    assert(servers.take(before.cursor).push(servers[before.cursor]) =~= servers.take(
                        next.cursor,
                    ));
                }
            },
            None => {},
        }
    }
}

/// As long as no call fails, every report is an observation or says
/// nothing.
pub proof fn law_unfailing_run_only_observes(state: PollerState, row: Seq<Answer>)
    requires
        forall|i: int| 0 <= i < row.len() ==> !failed(#[trigger] row[i]),
    ensures
        ({
            let (end, moves) = run(state, row);
            &&& forall|j: int|
                0 <= j < moves.len() ==> (#[trigger] moves[j]).report is Nothing || moves[j].report is Observed
            &&& observed(reports(moves)).len() == subjects(reports(moves)).len()
            &&& forall|k: int|
                0 <= k < observed(reports(moves)).len() ==> (#[trigger] observed(reports(moves))[k]).server
                    == subjects(reports(moves))[k]
        }),
    decreases row.len(),
{
    if row.len() > 0 {
        law_unfailing_run_only_observes(state, row.drop_last());
        let (before, moves) = run(state, row.drop_last());
        match before.step(row.last()) {
            Some((next, made)) => {
                lemma_reports_push(moves, made);
            },
            None => {},
        }
    }
}

/// A cycle in which no call fails ends with exactly one observation for
/// each listed server, in the order of the listing.
pub proof fn law_unfailing_cycle_observes_each_server(
    state: PollerState,
    servers: Seq<ServerRecord>,
    rest: Seq<Answer>,
)
    requires
        state.wf(),
        state.phase == Phase::Listing,
        forall|i: int| 0 <= i < rest.len() ==> !(#[trigger] rest[i] is Woke) && !failed(rest[i]),
    ensures
        ({
            let (end, moves) = run(state, seq![Answer::Listed(Ok(servers))] + rest);
            end.phase == Phase::Sleeping ==> {
                &&& observed(reports(moves)).len() == servers.len()
                &&& forall|k: int|
                    0 <= k < servers.len() ==> (#[trigger] observed(reports(moves))[k]).server == servers[k]
            }
        }),
{
    law_cycle_reports_each_server_once(state, servers, rest);
    law_unfailing_run_only_observes(state, seq![Answer::Listed(Ok(servers))] + rest);
}

} // verus!
