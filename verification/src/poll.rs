//! The polling cycle: list the servers, ask each for its power state, time a
//! console command on each running one, report, sleep, and start over.
//!
//! The cycle is a state machine. [`Poller::step`] takes the answer to the
//! call that the poller is waiting for and returns what to report and which
//! call to make next; the caller makes the calls.

use crate::error::{PanelError, PanelFault};
use crate::panel::LIST_COMMAND;
use crate::servers::{server_records, ServerInfo, ServerRecord};
use crate::tolerance::{classify_spec, classify_with, Classification, TOLERANCE_MS};
use vstd::prelude::*;
use vstd::string::StringExecFns;

verus! {

/// Seconds between two cycles, unless the caller chooses otherwise.
pub const PING_INTERVAL_SECS: u64 = 5;

/// What one cycle found out about one server.
#[derive(Debug)]
pub struct PollResult {
    server: ServerInfo,
    classification: Classification,
    elapsed_ms: Option<u128>,
}

/// What a [`PollResult`] says, as plain values.
pub struct Observation {
    pub server: ServerRecord,
    pub classification: Classification,
    pub elapsed_ms: Option<u128>,
}

/// The observation of a server that is not running: no command was sent, so
/// there is no reply time.
pub open spec fn stopped_observation(server: ServerRecord) -> Observation {
    Observation { server, classification: Classification::Stopped, elapsed_ms: None }
}

/// The observation of a running server whose reply took `elapsed_ms`.
pub open spec fn timed_observation(server: ServerRecord, elapsed_ms: u128, tolerance_ms: u128) -> Observation {
    Observation {
        server,
        classification: classify_spec(elapsed_ms as int, tolerance_ms as int),
        elapsed_ms: Some(elapsed_ms),
    }
}

impl View for PollResult {
    type V = Observation;

    closed spec fn view(&self) -> Observation {
        Observation { server: self.server@, classification: self.classification, elapsed_ms: self.elapsed_ms }
    }
}

impl PollResult {
    #[verifier::type_invariant]
    spec fn timed_unless_stopped(&self) -> bool {
        (self.classification == Classification::Stopped) <==> (self.elapsed_ms is None)
    }

    /// The result for a server that is not running.
    pub fn stopped(server: ServerInfo) -> (result: PollResult)
        ensures
            result@ == stopped_observation(server@),
    {
        PollResult { server, classification: Classification::Stopped, elapsed_ms: None }
    }

    /// The result for a running server whose reply took `elapsed_ms`, held
    /// against `tolerance_ms`.
    pub fn timed(server: ServerInfo, elapsed_ms: u128, tolerance_ms: u128) -> (result: PollResult)
        ensures
            result@ == timed_observation(server@, elapsed_ms, tolerance_ms),
    {
        PollResult { server, classification: classify_with(elapsed_ms, tolerance_ms), elapsed_ms: Some(elapsed_ms) }
    }

    /// The server that the result is about.
    pub fn server(&self) -> (server: &ServerInfo)
        ensures
            server@ == self@.server,
    {
        &self.server
    }

    /// How the server was classified.
    pub fn classification(&self) -> (class: Classification)
        ensures
            class == self@.classification,
            (class == Classification::Stopped) <==> (self@.elapsed_ms is None),
    {
        proof {
            use_type_invariant(self);
        }
        self.classification
    }

    /// The reply time in milliseconds; none for a stopped server.
    pub fn elapsed_ms(&self) -> (elapsed: Option<u128>)
        ensures
            elapsed == self@.elapsed_ms,
            (elapsed is None) <==> (self@.classification == Classification::Stopped),
    {
        proof {
            use_type_invariant(self);
        }
        self.elapsed_ms
    }
}

/// Which answer the poller is waiting for.
#[derive(Clone, Copy, Debug, PartialEq, Eq, Structural)]
pub enum Phase {
    /// Between two cycles.
    Sleeping,
    /// The list of servers was asked for.
    Listing,
    /// The power state of the current server was asked for.
    Querying,
    /// A command was sent to the current server and is being timed.
    Pinging,
}

/// A call for the caller to make.
#[derive(Debug)]
pub enum Action {
    ListServers,
    GetServerState { identifier: String },
    SendCommand { identifier: String, command: String },
    Sleep { seconds: u64 },
}

/// What an [`Action`] says, as plain values.
pub enum Call {
    ListServers,
    GetServerState { identifier: Seq<char> },
    SendCommand { identifier: Seq<char>, command: Seq<char> },
    Sleep { seconds: u64 },
}

impl View for Action {
    type V = Call;

    open spec fn view(&self) -> Call {
        match self {
            Action::ListServers => Call::ListServers,
            Action::GetServerState { identifier } => Call::GetServerState { identifier: identifier@ },
            Action::SendCommand { identifier, command } => Call::SendCommand {
                identifier: identifier@,
                command: command@,
            },
            Action::Sleep { seconds } => Call::Sleep { seconds: *seconds },
        }
    }
}

/// How a call ended.
#[derive(Debug)]
pub enum Event {
    /// The sleep is over. Also the event that starts the first cycle.
    Woke,
    /// The listing came back, or failed.
    Listed(Result<Vec<ServerInfo>, PanelError>),
    /// The power state of the current server came back, or the call failed.
    State(Result<String, PanelError>),
    /// The command came back after so many milliseconds, or the call failed.
    Command(Result<u128, PanelError>),
}

/// What an [`Event`] says, as plain values.
pub enum Answer {
    Woke,
    Listed(Result<Seq<ServerRecord>, PanelFault>),
    State(Result<Seq<char>, PanelFault>),
    Command(Result<u128, PanelFault>),
}

impl View for Event {
    type V = Answer;

    open spec fn view(&self) -> Answer {
        match self {
            Event::Woke => Answer::Woke,
            Event::Listed(Ok(servers)) => Answer::Listed(Ok(server_records(servers@))),
            Event::Listed(Err(error)) => Answer::Listed(Err(error@)),
            Event::State(Ok(state)) => Answer::State(Ok(state@)),
            Event::State(Err(error)) => Answer::State(Err(error@)),
            Event::Command(Ok(elapsed_ms)) => Answer::Command(Ok(*elapsed_ms)),
            Event::Command(Err(error)) => Answer::Command(Err(error@)),
        }
    }
}

/// What a step has to tell.
#[derive(Debug)]
pub enum Report {
    /// Nothing to tell yet.
    Nothing,
    /// A server was classified.
    Observed(PollResult),
    /// A call about one server failed; the cycle goes on with the next.
    ServerFailed { server: ServerInfo, error: PanelError },
    /// The listing failed; the cycle is over before it polled any server.
    CycleSkipped(PanelError),
}

/// What a [`Report`] says, as plain values.
pub enum Notice {
    Nothing,
    Observed(Observation),
    ServerFailed { server: ServerRecord, error: PanelFault },
    CycleSkipped(PanelFault),
}

impl View for Report {
    type V = Notice;

    open spec fn view(&self) -> Notice {
        match self {
            Report::Nothing => Notice::Nothing,
            Report::Observed(result) => Notice::Observed(result@),
            Report::ServerFailed { server, error } => Notice::ServerFailed { server: server@, error: error@ },
            Report::CycleSkipped(error) => Notice::CycleSkipped(error@),
        }
    }
}

/// What the poller hands back for one event.
#[derive(Debug)]
pub struct Step {
    pub report: Report,
    pub action: Action,
}

/// What a [`Step`] says, as plain values.
pub struct Move {
    pub report: Notice,
    pub action: Call,
}

impl View for Step {
    type V = Move;

    open spec fn view(&self) -> Move {
        Move { report: self.report@, action: self.action@ }
    }
}

/// The poller's state, as plain values.
pub struct PollerState {
    pub interval_secs: u64,
    pub tolerance_ms: u128,
    pub phase: Phase,
    /// The servers of the cycle that is under way.
    pub servers: Seq<ServerRecord>,
    /// The place in `servers` of the server that is being polled.
    pub cursor: int,
}

/// The power state in which a server is sent the command.
pub const RUNNING: &'static str = "running";

/// Whether `answer` is the answer that a poller in `phase` is waiting for.
pub open spec fn answers(phase: Phase, answer: Answer) -> bool {
    match phase {
        Phase::Sleeping => answer is Woke,
        Phase::Listing => answer is Listed,
        Phase::Querying => answer is State,
        Phase::Pinging => answer is Command,
    }
}

impl PollerState {
    /// A poller holds servers only while a cycle is under way, and then its
    /// cursor points at one of them.
    pub open spec fn wf(self) -> bool {
        match self.phase {
            Phase::Sleeping | Phase::Listing => self.servers.len() == 0 && self.cursor == 0,
            Phase::Querying | Phase::Pinging => 0 <= self.cursor < self.servers.len(),
        }
    }

    /// A poller before its first cycle.
    pub open spec fn starting(interval_secs: u64, tolerance_ms: u128) -> PollerState {
        PollerState { interval_secs, tolerance_ms, phase: Phase::Sleeping, servers: Seq::empty(), cursor: 0 }
    }

    /// The server that is being polled.
    pub open spec fn current(self) -> ServerRecord
        recommends
            0 <= self.cursor < self.servers.len(),
    {
        self.servers[self.cursor]
    }

    /// The state between two cycles: nothing of the last cycle is kept.
    pub open spec fn resting(self) -> PollerState {
        PollerState { phase: Phase::Sleeping, servers: Seq::empty(), cursor: 0, ..self }
    }

    /// The state in which the power state of the server at `cursor` of
    /// `servers` is asked for; the resting state if there is no such server.
    pub open spec fn facing(self, servers: Seq<ServerRecord>, cursor: int) -> PollerState {
        if 0 <= cursor < servers.len() {
            PollerState { phase: Phase::Querying, servers, cursor, ..self }
        } else {
            self.resting()
        }
    }

    /// The state after an answer that the poller was waiting for.
    pub open spec fn after(self, answer: Answer) -> PollerState {
        match answer {
            Answer::Woke => PollerState { phase: Phase::Listing, ..self },
            Answer::Listed(Ok(servers)) => self.facing(servers, 0),
            Answer::Listed(Err(_)) => self.resting(),
            Answer::State(Ok(state)) => if state == RUNNING@ {
                PollerState { phase: Phase::Pinging, ..self }
            } else {
                self.facing(self.servers, self.cursor + 1)
            },
            Answer::State(Err(_)) | Answer::Command(_) => self.facing(self.servers, self.cursor + 1),
        }
    }

    /// The call whose answer the poller is waiting for.
    pub open spec fn awaited(self) -> Call {
        match self.phase {
            Phase::Sleeping => Call::Sleep { seconds: self.interval_secs },
            Phase::Listing => Call::ListServers,
            Phase::Querying => Call::GetServerState { identifier: self.current().identifier },
            Phase::Pinging => Call::SendCommand {
                identifier: self.current().identifier,
                command: LIST_COMMAND@,
            },
        }
    }

    /// What the poller reports on an answer that it was waiting for.
    pub open spec fn notice(self, answer: Answer) -> Notice {
        match answer {
            Answer::Woke | Answer::Listed(Ok(_)) => Notice::Nothing,
            Answer::Listed(Err(error)) => Notice::CycleSkipped(error),
            Answer::State(Ok(state)) => if state == RUNNING@ {
                Notice::Nothing
            } else {
                Notice::Observed(stopped_observation(self.current()))
            },
            Answer::Command(Ok(elapsed_ms)) => Notice::Observed(
                timed_observation(self.current(), elapsed_ms, self.tolerance_ms),
            ),
            Answer::State(Err(error)) | Answer::Command(Err(error)) => Notice::ServerFailed {
                server: self.current(),
                error,
            },
        }
    }

    /// One step of the poller: the next state, with the report and the call
    /// that the next state waits for; nothing if `answer` is not what the
    /// poller was waiting for.
    pub open spec fn step(self, answer: Answer) -> Option<(PollerState, Move)> {
        if answers(self.phase, answer) {
            let next = self.after(answer);
            Some((next, Move { report: self.notice(answer), action: next.awaited() }))
        } else {
            None
        }
    }
}

/// The watchdog's polling cycle.
#[derive(Debug)]
pub struct Poller {
    interval_secs: u64,
    tolerance_ms: u128,
    phase: Phase,
    servers: Vec<ServerInfo>,
    cursor: usize,
}

impl View for Poller {
    type V = PollerState;

    closed spec fn view(&self) -> PollerState {
        PollerState {
            interval_secs: self.interval_secs,
            tolerance_ms: self.tolerance_ms,
            phase: self.phase,
            servers: server_records(self.servers@),
            cursor: self.cursor as int,
        }
    }
}

impl Poller {
    #[verifier::type_invariant]
    spec fn well_formed(&self) -> bool {
        self@.wf()
    }

    /// A poller before its first cycle: it sleeps, and the first
    /// [`Event::Woke`] starts the first cycle.
    pub fn new(interval_secs: u64, tolerance_ms: u128) -> (poller: Poller)
        ensures
            poller@ == PollerState::starting(interval_secs, tolerance_ms),
    {
        let poller = Poller { interval_secs, tolerance_ms, phase: Phase::Sleeping, servers: Vec::new(), cursor: 0 };
        assert(poller@.servers =~= Seq::empty());
        poller
    }

    /// Which answer the poller is waiting for.
    pub fn phase(&self) -> (phase: Phase)
        ensures
            phase == self@.phase,
            self@.wf(),
    {
        proof {
            use_type_invariant(self);
        }
        self.phase
    }

    /// The call whose answer the poller is waiting for.
    pub fn awaited(&self) -> (action: Action)
        ensures
            action@ == self@.awaited(),
    {
        proof {
            use_type_invariant(self);
        }
        match self.phase {
            Phase::Sleeping => Action::Sleep { seconds: self.interval_secs },
            Phase::Listing => Action::ListServers,
            Phase::Querying => Action::GetServerState { identifier: self.servers[self.cursor].identifier.clone() },
            Phase::Pinging => Action::SendCommand {
                identifier: self.servers[self.cursor].identifier.clone(),
                command: String::from_str(LIST_COMMAND),
            },
        }
    }

    /// Goes to sleep until the next cycle.
    fn rest(&mut self)
        ensures
            final(self)@ == old(self)@.resting(),
    {
        *self = Poller {
            interval_secs: self.interval_secs,
            tolerance_ms: self.tolerance_ms,
            phase: Phase::Sleeping,
            servers: Vec::new(),
            cursor: 0,
        };
        assert(self@.servers =~= Seq::empty());
    }

    /// Turns to the server after the current one, or goes to sleep after
    /// the last.
    fn pass_on(&mut self)
        requires
            old(self)@.phase == Phase::Querying || old(self)@.phase == Phase::Pinging,
        ensures
            final(self)@ == old(self)@.facing(old(self)@.servers, old(self)@.cursor + 1),
    {
        proof {
            use_type_invariant(&*self);
        }
        let count: usize = self.servers.len();
        if self.cursor + 1 < count {
            self.cursor = self.cursor + 1;
            self.phase = Phase::Querying;
        } else {
            self.rest();
        }
    }

    /// Takes the answer to the call that the poller is waiting for, and
    /// returns what to report and which call to make next.
    ///
    /// An event that the poller is not waiting for changes nothing and
    /// yields `None`.
    pub fn step(&mut self, event: Event) -> (step: Option<Step>)
        ensures
            old(self)@.wf(),
            final(self)@.wf(),
            match step {
                Some(step) => old(self)@.step(event@) == Some((final(self)@, step@)),
                None => old(self)@.step(event@) is None && final(self)@ == old(self)@,
            },
    {
        proof {
            use_type_invariant(&*self);
        }
        let report = match (self.phase, event) {
            (Phase::Sleeping, Event::Woke) => {
                self.phase = Phase::Listing;
                Report::Nothing
            },
            (Phase::Listing, Event::Listed(Ok(servers))) => {
                if servers.len() > 0 {
                    *self = Poller {
                        interval_secs: self.interval_secs,
                        tolerance_ms: self.tolerance_ms,
                        phase: Phase::Querying,
                        servers,
                        cursor: 0,
                    };
                } else {
                    self.rest();
                }
                Report::Nothing
            },
            (Phase::Listing, Event::Listed(Err(error))) => {
                self.rest();
                Report::CycleSkipped(error)
            },
            (Phase::Querying, Event::State(Ok(state))) => {
                if state == String::from_str(RUNNING) {
                    self.phase = Phase::Pinging;
                    Report::Nothing
                } else {
                    let server = self.servers[self.cursor].clone();
                    self.pass_on();
                    Report::Observed(PollResult::stopped(server))
                }
            },
            (Phase::Pinging, Event::Command(Ok(elapsed_ms))) => {
                let server = self.servers[self.cursor].clone();
                self.pass_on();
                Report::Observed(PollResult::timed(server, elapsed_ms, self.tolerance_ms))
            },
            (Phase::Querying, Event::State(Err(error))) | (Phase::Pinging, Event::Command(Err(error))) => {
                let server = self.servers[self.cursor].clone();
                self.pass_on();
                Report::ServerFailed { server, error }
            },
            _ => {
                return None;
            },
        };
        Some(Step { report, action: self.awaited() })
    }
}

impl Default for Poller {
    /// A poller with the usual interval and tolerance.
    fn default() -> (poller: Poller)
        ensures
            poller@ == PollerState::starting(PING_INTERVAL_SECS, TOLERANCE_MS),
    {
        Poller::new(PING_INTERVAL_SECS, TOLERANCE_MS)
    }
}

} // verus!
