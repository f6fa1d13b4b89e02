//! The session manager: idle, or active with one session.

use crate::aggregate::{aggregate, run_model, RunResult};
use crate::clock::{in_calendar, millis_of, rfc3339_text, Moment, MomentView};
use crate::sample::ResourceSample;
use crate::session::{
    law_session_ids_differ, opened_session, session_id_of, shortcut_options, OptionsView,
    ProfilingSession, SessionView, StartProfilingOptions,
};
use crate::settings::AppSettings;
use vstd::pervasive::unreached;
use vstd::prelude::*;

verus! {

/// Why a request to the session manager was turned down.
#[derive(Clone, Copy, Debug, PartialEq, Eq)]
pub enum SessionError {
    /// A start was asked for while a session was running.
    AlreadyActive,
    /// A stop was asked for while no session was running.
    NoActiveSession,
}

impl SessionError {
    /// The error in words.
    pub fn message(&self) -> (text: String)
        ensures
            text@ == match *self {
                SessionError::AlreadyActive => "Profiling session already in progress"@,
                SessionError::NoActiveSession => "No profiling session in progress"@,
            },
    {
        match self {
            SessionError::AlreadyActive => "Profiling session already in progress".to_owned(),
            SessionError::NoActiveSession => "No profiling session in progress".to_owned(),
        }
    }
}

/// What a successful start hands back.
#[derive(Clone, Debug, PartialEq, Eq)]
pub struct StartReceipt {
    pub session_id: String,
    /// When the session started, as RFC 3339 writes it.
    pub start_time: String,
}

/// What the session manager reports of itself.
#[derive(Clone, Debug, PartialEq, Eq)]
pub struct ProfilingStatus {
    pub active: bool,
    pub session_id: Option<String>,
    pub start_time: Option<String>,
    pub elapsed_ms: Option<i64>,
}

/// What a toggle did.
#[derive(Clone, Debug, PartialEq, Eq)]
pub enum Toggled {
    /// No session was running: one was started.
    Started(StartReceipt),
    /// A session was running: it was stopped, and this is its record.
    Stopped(RunResult),
}

/// The state of the session manager: the running session, if there is one,
/// and the number of the last id that was issued, if one was.
pub struct ManagerView {
    pub session: Option<SessionView>,
    pub last_issued: Option<int>,
}

/// What can be asked of the session manager.
pub enum Command {
    Start { options: OptionsView, now: MomentView },
    Stop,
    Record { sample: ResourceSample },
}

/// The number of the id that a start at `millis` milliseconds since the
/// Unix epoch issues after `last_issued`: the milliseconds, unless an id of
/// that number or a later one was issued already; then the next number.
pub open spec fn id_number_after(last_issued: Option<int>, millis: int) -> int {
    match last_issued {
        Some(last) if last >= millis => last + 1,
        _ => millis,
    }
}

/// Whether the manager can issue one more id: the numbers of ids are held in
/// 64 bits, and the last of them is never issued.
pub open spec fn ids_left(state: ManagerView) -> bool {
    state.last_issued matches Some(last) ==> last < i64::MAX
}

/// The state after `command` in the state `state`.
pub open spec fn step(state: ManagerView, command: Command) -> ManagerView {
    match command {
        Command::Start { options, now } => match state.session {
            Some(_) => state,
            None => {
                let number = id_number_after(state.last_issued, millis_of(now));
                ManagerView {
                    session: Some(opened_session(options, now, number)),
                    last_issued: Some(number),
                }
            },
        },
        Command::Stop => ManagerView { session: None, ..state },
        Command::Record { sample } => match state.session {
            Some(session) => ManagerView {
                session: Some(SessionView { samples: session.samples.push(sample), ..session }),
                ..state
            },
            None => state,
        },
    }
}

/// The state after `commands`, in order, from the state `state`.
pub open spec fn run_commands(state: ManagerView, commands: Seq<Command>) -> ManagerView
    decreases commands.len(),
{
    if commands.len() == 0 {
        state
    } else {
        step(run_commands(state, commands.drop_last()), commands.last())
    }
}

/// Why `command` is refused in the state `state`, if it is.
pub open spec fn refusal(state: ManagerView, command: Command) -> Option<SessionError> {
    match command {
        Command::Start { .. } => if state.session is Some {
            Some(SessionError::AlreadyActive)
        } else {
            None
        },
        Command::Stop => if state.session is None {
            Some(SessionError::NoActiveSession)
        } else {
            None
        },
        Command::Record { .. } => None,
    }
}

/// The error of an outcome, if it is one.
pub open spec fn error_of<T>(outcome: Result<T, SessionError>) -> Option<SessionError> {
    match outcome {
        Ok(_) => None,
        Err(error) => Some(error),
    }
}

/// The state before the command at `index` of `commands`, from the state
/// `initial`.
pub open spec fn state_before(initial: ManagerView, commands: Seq<Command>, index: int) -> ManagerView {
    run_commands(initial, commands.take(index))
}

/// Whether the command at `index` of `commands` is a start that goes
/// through.
pub open spec fn starts_at(initial: ManagerView, commands: Seq<Command>, index: int) -> bool {
    &&& 0 <= index < commands.len()
    &&& commands[index] is Start
    &&& refusal(state_before(initial, commands, index), commands[index]) is None
}

/// Whether the command at `index` of `commands` is a stop that goes
/// through.
pub open spec fn stops_at(initial: ManagerView, commands: Seq<Command>, index: int) -> bool {
    &&& 0 <= index < commands.len()
    &&& commands[index] is Stop
    &&& refusal(state_before(initial, commands, index), commands[index]) is None
}

/// The number of the id that the start at `index` of `commands` issues.
pub open spec fn issued_at(initial: ManagerView, commands: Seq<Command>, index: int) -> int
    recommends
        starts_at(initial, commands, index),
{
    id_number_after(
        state_before(initial, commands, index).last_issued,
        millis_of(commands[index]->now),
    )
}

/// A session that is running keeps running for as long as nothing stops it.
proof fn lemma_runs_until_stopped(initial: ManagerView, commands: Seq<Command>, from: int, to: int)
    requires
        0 <= from <= to <= commands.len(),
        state_before(initial, commands, from).session is Some,
        forall|k: int| from <= k < to ==> !stops_at(initial, commands, k),
    ensures
        state_before(initial, commands, to).session is Some,
    decreases to - from,
{
    if from < to {
        lemma_runs_until_stopped(initial, commands, from, to - 1);
        assert(commands.take(to).drop_last() =~= commands.take(to - 1));
        assert(!stops_at(initial, commands, to - 1));
    }
}

/// The number of the last id never goes down.
proof fn lemma_numbers_never_fall(initial: ManagerView, commands: Seq<Command>, from: int, to: int)
    requires
        0 <= from <= to <= commands.len(),
        state_before(initial, commands, from).last_issued is Some,
    ensures
        state_before(initial, commands, to).last_issued matches Some(later) && later
            >= state_before(initial, commands, from).last_issued->0,
    decreases to - from,
{
    if from < to {
        lemma_numbers_never_fall(initial, commands, from, to - 1);
        assert(commands.take(to).drop_last() =~= commands.take(to - 1));
    }
}

/// Whatever is asked of the session manager and in whatever order, no two
/// sessions run at once: between two starts that go through, a stop goes
/// through.
pub proof fn law_at_most_one_session(
    initial: ManagerView,
    commands: Seq<Command>,
    first: int,
    second: int,
)
    requires
        first < second,
        starts_at(initial, commands, first),
        starts_at(initial, commands, second),
    ensures
        exists|k: int| first < k < second && stops_at(initial, commands, k),
{
    if forall|k: int| first < k < second ==> !stops_at(initial, commands, k) {
        assert(commands.take(first + 1).drop_last() =~= commands.take(first));
        lemma_runs_until_stopped(initial, commands, first + 1, second);
    }
}

/// The ids that one manager issues are all different, whatever the clock
/// shows: of two starts that go through, the later issues the larger
/// number, and so another id.
pub proof fn law_issued_ids_increase(
    initial: ManagerView,
    commands: Seq<Command>,
    first: int,
    second: int,
)
    requires
        first < second,
        starts_at(initial, commands, first),
        starts_at(initial, commands, second),
    ensures
        issued_at(initial, commands, first) < issued_at(initial, commands, second),
        session_id_of(issued_at(initial, commands, first)) != session_id_of(
            issued_at(initial, commands, second),
        ),
{
    assert(commands.take(first + 1).drop_last() =~= commands.take(first));
    assert(state_before(initial, commands, first + 1).last_issued == Some(
        issued_at(initial, commands, first),
    ));
    lemma_numbers_never_fall(initial, commands, first + 1, second);
    law_session_ids_differ(
        issued_at(initial, commands, first),
        issued_at(initial, commands, second),
    );
}

/// An id is never behind the clock: its number is the milliseconds of the
/// start, or more.
pub proof fn law_id_follows_the_clock(last_issued: Option<int>, millis: int)
    ensures
        id_number_after(last_issued, millis) >= millis,
        last_issued matches Some(last) ==> id_number_after(last_issued, millis) > last,
        last_issued is None ==> id_number_after(last_issued, millis) == millis,
{
}

/// A start while a session is running is refused as `AlreadyActive` and
/// changes nothing: the session stays, with all its samples.
pub proof fn law_start_while_active_changes_nothing(
    state: ManagerView,
    options: OptionsView,
    now: MomentView,
)
    requires
        state.session is Some,
    ensures
        step(state, Command::Start { options, now }) == state,
        refusal(state, Command::Start { options, now }) == Some(SessionError::AlreadyActive),
{
}

/// A stop while no session is running is refused as `NoActiveSession` and
/// changes nothing.
pub proof fn law_stop_while_idle_changes_nothing(state: ManagerView)
    requires
        state.session is None,
    ensures
        step(state, Command::Stop) == state,
        refusal(state, Command::Stop) == Some(SessionError::NoActiveSession),
{
}

/// Owner of the one session that may be running, and issuer of the ids.
pub struct SessionManager {
    slot: Option<ProfilingSession>,
    last_issued: Option<i64>,
}

impl View for SessionManager {
    type V = ManagerView;

    closed spec fn view(&self) -> ManagerView {
        ManagerView {
            session: match self.slot {
                Some(session) => Some(session@),
                None => None,
            },
            last_issued: match self.last_issued {
                Some(last) => Some(last as int),
                None => None,
            },
        }
    }
}

impl SessionManager {
    /// A manager with no session, which has issued no id.
    pub fn new() -> (manager: SessionManager)
        ensures
            manager@ == (ManagerView { session: None, last_issued: None }),
    {
        SessionManager { slot: None, last_issued: None }
    }

    /// Whether a session is running.
    pub fn is_active(&self) -> (active: bool)
        ensures
            active == (self@.session is Some),
    {
        self.slot.is_some()
    }

    /// Whether the manager can issue one more id.
    pub fn has_ids_left(&self) -> (left: bool)
        ensures
            left == ids_left(self@),
    {
        match self.last_issued {
            Some(last) => last < i64::MAX,
            None => true,
        }
    }

    /// The running session.
    pub fn session(&self) -> (session: Option<&ProfilingSession>)
        ensures
            match session {
                Some(s) => self@.session == Some(s@),
                None => self@.session is None,
            },
    {
        self.slot.as_ref()
    }

    /// The number of the last id that was issued.
    pub fn last_issued(&self) -> (last: Option<i64>)
        ensures
            match last {
                Some(number) => self@.last_issued == Some(number as int),
                None => self@.last_issued is None,
            },
    {
        self.last_issued
    }

    /// Starts a session at `now`, unless one is running. Its id is `cl_` and
    /// the milliseconds of `now`, or the number after the last id where the
    /// clock has not gone on since.
    ///
    /// The numbers are held in 64 bits, so a start needs the last id to be
    /// below the largest of them; [`SessionManager::has_ids_left`] says
    /// whether it is. A moment is in the calendar, which keeps the
    /// milliseconds far below.
    pub fn start_profiling(&mut self, options: StartProfilingOptions, now: Moment) -> (outcome: Result<
        StartReceipt,
        SessionError,
    >)
        requires
            old(self)@.session is None ==> ids_left(old(self)@),
        ensures
            final(self)@ == step(old(self)@, Command::Start { options: options@, now: now@ }),
            error_of(outcome) == refusal(
                old(self)@,
                Command::Start { options: options@, now: now@ },
            ),
            old(self)@.session is None ==> (outcome matches Ok(receipt) && receipt.session_id@
                == session_id_of(id_number_after(old(self)@.last_issued, millis_of(now@)))
                && receipt.start_time@ == rfc3339_text(now@.seconds as int, now@.nanos as int)),
            in_calendar(now@.seconds, now@.nanos),
    {
        proof {
            use_type_invariant(&now);
        }
        if self.slot.is_some() {
            return Err(SessionError::AlreadyActive);
        }
        let millis = now.timestamp_millis();
        let number = match self.last_issued {
            Some(last) if last >= millis => last + 1,
            _ => millis,
        };
        let session = ProfilingSession::open(options, now, number);
        let receipt = StartReceipt {
            session_id: session.id.clone(),
            start_time: session.start_timestamp.clone(),
        };
        self.slot = Some(session);
        self.last_issued = Some(number);
        Ok(receipt)
    }

    /// Starts a session at `now` for the operator's shortcut, unless one is
    /// running: [`SessionManager::start_profiling`] with fixed options.
    pub fn start_from_shortcut(&mut self, now: Moment) -> (outcome: Result<
        StartReceipt,
        SessionError,
    >)
        requires
            old(self)@.session is None ==> ids_left(old(self)@),
        ensures
            final(self)@ == step(
                old(self)@,
                Command::Start { options: shortcut_options(), now: now@ },
            ),
            error_of(outcome) == refusal(
                old(self)@,
                Command::Start { options: shortcut_options(), now: now@ },
            ),
            old(self)@.session is None ==> (outcome matches Ok(receipt) && receipt.session_id@
                == session_id_of(id_number_after(old(self)@.last_issued, millis_of(now@)))
                && receipt.start_time@ == rfc3339_text(now@.seconds as int, now@.nanos as int)),
            in_calendar(now@.seconds, now@.nanos),
    {
        self.start_profiling(StartProfilingOptions::shortcut(), now)
    }

    /// Stops the running session at `now` and hands back its record under
    /// `settings`. The session is gone after that.
    pub fn stop_profiling(&mut self, now: Moment, settings: &AppSettings) -> (outcome: Result<
        RunResult,
        SessionError,
    >)
        ensures
            final(self)@ == step(old(self)@, Command::Stop),
            error_of(outcome) == refusal(old(self)@, Command::Stop),
            old(self)@.session matches Some(session) ==> (outcome matches Ok(run)
                && run.duration_ms == millis_of(now@) - millis_of(session.started) && run@
                == run_model(session, run.duration_ms, settings@)),
    {
        match self.slot.take() {
            Some(session) => {
                let duration_ms = session.elapsed_ms(&now);
                Ok(aggregate(session, duration_ms, settings))
            },
            None => Err(SessionError::NoActiveSession),
        }
    }

    /// Whether a session is running and, if one is, which, since when and
    /// for how long at `now`.
    pub fn get_profiling_status(&self, now: Moment) -> (status: ProfilingStatus)
        ensures
            status.active == (self@.session is Some),
            match self@.session {
                Some(session) => {
                    &&& status.session_id matches Some(id) && id@ == session.id
                    &&& status.start_time matches Some(text) && text@ == session.start_timestamp
                    &&& status.elapsed_ms == Some(
                        (millis_of(now@) - millis_of(session.started)) as i64,
                    )
                    &&& i64::MIN <= millis_of(now@) - millis_of(session.started) <= i64::MAX
                },
                None => {
                    &&& status.session_id is None
                    &&& status.start_time is None
                    &&& status.elapsed_ms is None
                },
            },
    {
        match &self.slot {
            Some(session) => ProfilingStatus {
                active: true,
                session_id: Some(session.id.clone()),
                start_time: Some(session.start_timestamp.clone()),
                elapsed_ms: Some(session.elapsed_ms(&now)),
            },
            None => ProfilingStatus {
                active: false,
                session_id: None,
                start_time: None,
                elapsed_ms: None,
            },
        }
    }

    /// Appends `sample` to the running session; does nothing where none is
    /// running. Says whether the sample was taken.
    pub fn record(&mut self, sample: ResourceSample) -> (taken: bool)
        ensures
            final(self)@ == step(old(self)@, Command::Record { sample }),
            taken == (old(self)@.session is Some),
    {
        match self.slot.take() {
            Some(session) => {
                let mut session = session;
                session.samples.push(sample);
                self.slot = Some(session);
                true
            },
            None => false,
        }
    }

    /// Stops the running session, or starts one for the operator's shortcut
    /// where none is running: [`SessionManager::stop_profiling`] or
    /// [`SessionManager::start_from_shortcut`], as the state asks.
    pub fn toggle(&mut self, now: Moment, settings: &AppSettings) -> (done: Toggled)
        requires
            old(self)@.session is None ==> ids_left(old(self)@),
        ensures
            match old(self)@.session {
                Some(session) => {
                    &&& final(self)@ == step(old(self)@, Command::Stop)
                    &&& done matches Toggled::Stopped(run) && run.duration_ms == millis_of(now@)
                        - millis_of(session.started) && run@ == run_model(
                        session,
                        run.duration_ms,
                        settings@,
                    )
                },
                None => {
                    &&& final(self)@ == step(
                        old(self)@,
                        Command::Start { options: shortcut_options(), now: now@ },
                    )
                    &&& done matches Toggled::Started(receipt) && receipt.session_id@
                        == session_id_of(
                        id_number_after(old(self)@.last_issued, millis_of(now@)),
                    ) && receipt.start_time@ == rfc3339_text(
                        now@.seconds as int,
                        now@.nanos as int,
                    )
                },
            },
            in_calendar(now@.seconds, now@.nanos),
    {
        proof {
            use_type_invariant(&now);
        }
        if self.is_active() {
            match self.stop_profiling(now, settings) {
                Ok(run) => Toggled::Stopped(run),
                Err(_) => unreached(),
            }
        } else {
            match self.start_from_shortcut(now) {
                Ok(receipt) => Toggled::Started(receipt),
                Err(_) => unreached(),
            }
        }
    }
}

} // verus!
