//! Profiling sessions: what one holds, and how one is opened.

use crate::clock::{millis_of, rfc3339_text, Moment, MomentView};
use crate::decimal::{append_decimal, decimal_text, law_decimal_texts_differ};
use crate::sample::ResourceSample;
use vstd::prelude::*;

verus! {

/// Where a session comes from, as far as the caller says.
#[derive(Clone, Debug, PartialEq, Eq)]
pub struct StartProfilingOptions {
    pub command: Option<String>,
    pub project: Option<String>,
    pub branch: Option<String>,
    pub commit: Option<String>,
}

/// What a [`StartProfilingOptions`] holds.
pub struct OptionsView {
    pub command: Option<Seq<char>>,
    pub project: Option<Seq<char>>,
    pub branch: Option<Seq<char>>,
    pub commit: Option<Seq<char>>,
}

/// The text of an optional string.
pub open spec fn text_of(value: Option<String>) -> Option<Seq<char>> {
    match value {
        Some(text) => Some(text@),
        None => None,
    }
}

impl View for StartProfilingOptions {
    type V = OptionsView;

    open spec fn view(&self) -> OptionsView {
        OptionsView {
            command: text_of(self.command),
            project: text_of(self.project),
            branch: text_of(self.branch),
            commit: text_of(self.commit),
        }
    }
}

/// A window of time in which samples are collected.
#[derive(Clone, Debug, PartialEq, Eq)]
pub struct ProfilingSession {
    pub id: String,
    pub started: Moment,
    /// `started` as RFC 3339 writes it.
    pub start_timestamp: String,
    pub command: String,
    pub project: String,
    pub branch: String,
    pub commit: String,
    /// The samples taken so far, oldest first.
    pub samples: Vec<ResourceSample>,
}

/// What a [`ProfilingSession`] holds.
pub struct SessionView {
    pub id: Seq<char>,
    pub started: MomentView,
    pub start_timestamp: Seq<char>,
    pub command: Seq<char>,
    pub project: Seq<char>,
    pub branch: Seq<char>,
    pub commit: Seq<char>,
    pub samples: Seq<ResourceSample>,
}

impl View for ProfilingSession {
    type V = SessionView;

    open spec fn view(&self) -> SessionView {
        SessionView {
            id: self.id@,
            started: self.started@,
            start_timestamp: self.start_timestamp@,
            command: self.command@,
            project: self.project@,
            branch: self.branch@,
            commit: self.commit@,
            samples: self.samples@,
        }
    }
}

/// The command of a session that names none.
pub open spec fn default_command() -> Seq<char> {
    "manual profiling"@
}

/// The command of a session that the operator's shortcut opened.
pub open spec fn shortcut_command() -> Seq<char> {
    "Global Shortcut"@
}

/// The project of a session that names none: the application itself.
pub open spec fn default_project() -> Seq<char> {
    "CarbonLint Dashboard"@
}

/// The branch of a session that names none.
pub open spec fn default_branch() -> Seq<char> {
    "main"@
}

/// The commit of a session that names none.
pub open spec fn default_commit() -> Seq<char> {
    "N/A"@
}

/// The options of a session that the operator's shortcut opens.
pub open spec fn shortcut_options() -> OptionsView {
    OptionsView {
        command: Some(shortcut_command()),
        project: Some(default_project()),
        branch: Some(default_branch()),
        commit: Some(default_commit()),
    }
}

/// The id of the number `number`: `cl_` and the number in decimal.
pub open spec fn session_id_of(number: int) -> Seq<char> {
    "cl_"@ + decimal_text(number)
}

/// Ids of different numbers are different ids.
pub proof fn law_session_ids_differ(number: int, other: int)
    requires
        number != other,
    ensures
        session_id_of(number) != session_id_of(other),
{
    if session_id_of(number) == session_id_of(other) {
        reveal_strlit("cl_");
        assert(decimal_text(number) =~= session_id_of(number).skip(3));
        assert(decimal_text(other) =~= session_id_of(other).skip(3));
        law_decimal_texts_differ(number, other);
    }
}

/// `value` where there is one, else `fallback`.
pub open spec fn or_default(value: Option<Seq<char>>, fallback: Seq<char>) -> Seq<char> {
    match value {
        Some(text) => text,
        None => fallback,
    }
}

/// The session of the id number `number` that `options` open at `now`,
/// which `start_timestamp` writes out: no samples yet, and every field that
/// the options leave out at its default.
pub open spec fn session_of(
    options: OptionsView,
    now: MomentView,
    number: int,
    start_timestamp: Seq<char>,
) -> SessionView {
    SessionView {
        id: session_id_of(number),
        started: now,
        start_timestamp,
        command: or_default(options.command, default_command()),
        project: or_default(options.project, default_project()),
        branch: or_default(options.branch, default_branch()),
        commit: or_default(options.commit, default_commit()),
        samples: Seq::empty(),
    }
}

/// The session of the id number `number` that `options` open at `now`.
pub open spec fn opened_session(options: OptionsView, now: MomentView, number: int) -> SessionView {
    session_of(options, now, number, rfc3339_text(now.seconds as int, now.nanos as int))
}

fn text_or(value: Option<String>, fallback: &str) -> (text: String)
    ensures
        text@ == or_default(text_of(value), fallback@),
{
    match value {
        Some(text) => text,
        None => fallback.to_owned(),
    }
}

impl StartProfilingOptions {
    /// Options that say nothing.
    pub fn none() -> (options: StartProfilingOptions)
        ensures
            options@ == (OptionsView { command: None, project: None, branch: None, commit: None }),
    {
        StartProfilingOptions { command: None, project: None, branch: None, commit: None }
    }

    /// The options of a session that the operator's shortcut opens.
    pub fn shortcut() -> (options: StartProfilingOptions)
        ensures
            options@ == shortcut_options(),
    {
        StartProfilingOptions {
            command: Some("Global Shortcut".to_owned()),
            project: Some("CarbonLint Dashboard".to_owned()),
            branch: Some("main".to_owned()),
            commit: Some("N/A".to_owned()),
        }
    }
}

impl ProfilingSession {
    /// Opens the session of the id number `number` at `now`.
    pub fn open(options: StartProfilingOptions, now: Moment, number: i64) -> (session:
        ProfilingSession)
        ensures
            session@ == opened_session(options@, now@, number as int),
    {
        ProfilingSession::open_with(options, now, number, now.to_rfc3339())
    }

    /// Opens the session of the id number `number` at `now`, which
    /// `start_timestamp` writes out.
    pub fn open_with(
        options: StartProfilingOptions,
        now: Moment,
        number: i64,
        start_timestamp: String,
    ) -> (session: ProfilingSession)
        ensures
            session@ == session_of(options@, now@, number as int, start_timestamp@),
    {
        let mut id = "cl_".to_owned();
        append_decimal(&mut id, number);
        ProfilingSession {
            id,
            started: now,
            start_timestamp,
            command: text_or(options.command, "manual profiling"),
            project: text_or(options.project, "CarbonLint Dashboard"),
            branch: text_or(options.branch, "main"),
            commit: text_or(options.commit, "N/A"),
            samples: Vec::new(),
        }
    }

    /// Milliseconds from the start of the session to `now`; negative where
    /// the clock has gone back since.
    pub fn elapsed_ms(&self, now: &Moment) -> (elapsed: i64)
        ensures
            elapsed == millis_of(now@) - millis_of(self@.started),
    {
        proof {
            use_type_invariant(now);
            use_type_invariant(&self.started);
        }
        now.timestamp_millis() - self.started.timestamp_millis()
    }
}

} // verus!
