//! The restream supervisor: it starts the engine, watches it, restarts it when
//! it fails and stops it on request.
//!
//! The functions here decide; running the engine, waiting and locking are left
//! to the caller, who performs the returned actions and reports what happened.

use crate::config::{
    ensure_engine_exists, missing_engine, missing_engine_message, EngineProbe, Persisted,
    PersistedConfig, RestreamConfig,
};
use crate::pairing::Pairing;
use crate::supervisor_laws::paired;
use crate::tail::{last_lines, push_tail_inner, sanitize_tail_line, sanitized, TAIL_LIMIT};
use crate::text::{decimal, decimal_text, joined, maybe_text, same_text, texts};
use std::collections::VecDeque;
use std::path::PathBuf;
use vstd::prelude::*;
use vstd::string::*;

verus! {

/// The span, in nanoseconds, in which restarts are counted: ten minutes.
pub const RESTART_WINDOW: u64 = 600_000_000_000;

/// How many restarts are made within [`RESTART_WINDOW`].
pub const MAX_RESTARTS: usize = 5;

/// The first delay before a restart, in seconds.
pub const FIRST_BACKOFF: u64 = 1;

/// The longest delay before a restart, in seconds.
pub const MAX_BACKOFF: u64 = 30;

/// How often a running engine is looked at, in milliseconds.
pub const POLL_INTERVAL_MS: u64 = 100;

/// The message for an engine that failed too often.
pub const TOO_MANY_RESTARTS: &'static str = "restream engine exceeded 5 restarts in 10 minutes";

/// The stream key that the video program is told to use. It is a local label.
pub const STREAM_KEY: &'static str = "ocvoice";

/// What the engine is doing.
#[derive(Debug)]
pub enum RestreamStatus {
    Stopped,
    Starting,
    Running { since_unix: u64 },
    Errored { message: String },
}

/// A [`RestreamStatus`], with its message as a text.
pub enum Status {
    Stopped,
    Starting,
    Running { since_unix: u64 },
    Errored { message: Seq<char> },
}

impl View for RestreamStatus {
    type V = Status;

    open spec fn view(&self) -> Status {
        match self {
            RestreamStatus::Stopped => Status::Stopped,
            RestreamStatus::Starting => Status::Starting,
            RestreamStatus::Running { since_unix } => Status::Running { since_unix: *since_unix },
            RestreamStatus::Errored { message } => Status::Errored { message: message@ },
        }
    }
}

/// The state of the supervisor.
pub struct RestreamInner {
    pub config: RestreamConfig,
    pub persisted: PersistedConfig,
    pub status: RestreamStatus,
    /// Whether there is an engine process.
    pub child: bool,
    /// Whether there is a task that watches the engine.
    pub supervisor_task: bool,
    pub tail: VecDeque<String>,
    /// Whether a stop is under way.
    pub stopping: bool,
    /// When restarts were tried, in nanoseconds of a clock that never runs
    /// backwards.
    pub restarts: VecDeque<u64>,
    /// The next delay before a restart, in seconds.
    pub next_backoff: u64,
}

/// The state of the supervisor, with its lines as texts.
#[verifier::ext_equal]
pub struct Supervision {
    pub config: RestreamConfig,
    pub persisted: Persisted,
    pub status: Status,
    pub child: bool,
    pub supervisor_task: bool,
    pub tail: Seq<Seq<char>>,
    pub stopping: bool,
    pub restarts: Seq<u64>,
    pub next_backoff: u64,
}

impl View for RestreamInner {
    type V = Supervision;

    open spec fn view(&self) -> Supervision {
        Supervision {
            config: self.config,
            persisted: self.persisted@,
            status: self.status@,
            child: self.child,
            supervisor_task: self.supervisor_task,
            tail: texts(self.tail@),
            stopping: self.stopping,
            restarts: self.restarts@,
            next_backoff: self.next_backoff,
        }
    }
}

impl Supervision {
    /// The tail and the delays keep within their limits.
    pub open spec fn wf(self) -> bool {
        &&& self.tail.len() <= TAIL_LIMIT
        &&& FIRST_BACKOFF <= self.next_backoff <= MAX_BACKOFF
    }

    /// The backend address that is in use.
    pub open spec fn backend(self) -> Option<Seq<char>> {
        maybe_text(self.config.convex_site_url)
    }

    /// Whether the engine runs, is being started or is being watched.
    pub open spec fn active(self) -> bool {
        self.status is Running || self.status is Starting || self.supervisor_task
    }

    /// With `line` at the end of the tail, as it is.
    pub open spec fn with_raw_line(self, line: Seq<char>) -> Supervision {
        Supervision { tail: last_lines(self.tail.push(line)), ..self }
    }

    /// With `line` at the end of the tail, unless it may hold a credential.
    pub open spec fn with_line(self, line: Seq<char>) -> Supervision {
        self.with_raw_line(sanitized(line, self.persisted.device_token))
    }

    /// With an error to show.
    pub open spec fn with_error(self, message: Seq<char>) -> Supervision {
        Supervision { status: Status::Errored { message }, ..self }
    }

    /// No longer watched.
    pub open spec fn unwatched(self) -> Supervision {
        Supervision { supervisor_task: false, ..self }
    }
}

/// The state of a supervisor that has just been made.
pub open spec fn initial(
    config: RestreamConfig,
    persisted: Persisted,
    engine: EngineProbe,
) -> Supervision {
    let message = missing_engine(engine.path@);
    Supervision {
        config,
        persisted,
        status: if engine.is_file {
            Status::Stopped
        } else {
            Status::Errored { message }
        },
        child: false,
        supervisor_task: false,
        tail: if engine.is_file {
            Seq::empty()
        } else {
            seq!["[supervisor] "@ + message]
        },
        stopping: false,
        restarts: Seq::empty(),
        next_backoff: FIRST_BACKOFF,
    }
}

/// Why the engine cannot be started, if it cannot.
pub open spec fn start_refusal(s: Supervision, engine: EngineProbe) -> Option<Seq<char>> {
    if !engine.is_file {
        Some(missing_engine(engine.path@))
    } else if s.backend() is None {
        Some("RESTREAM_CONVEX_URL is not configured"@)
    } else if s.persisted.device_token is None {
        Some("restream device is not paired"@)
    } else {
        None
    }
}

/// The state from which the engine is started.
pub open spec fn starting(s: Supervision) -> Supervision {
    Supervision {
        stopping: false,
        restarts: Seq::empty(),
        next_backoff: FIRST_BACKOFF,
        status: Status::Starting,
        ..s
    }
}

/// What a start request comes to.
pub enum StartDecision {
    /// There is nothing to do.
    AlreadyActive,
    /// The request is refused, and why.
    Refused(String),
    /// The engine is to be started.
    Spawn,
}

/// The engine's arguments when it is run.
pub open spec fn run_args(s: Supervision) -> Seq<Seq<char>> {
    let args = seq![
        "run"@,
        "--convex"@,
        s.backend()->0,
        "--token"@,
        s.persisted.device_token->0,
        "--port"@,
        decimal(s.config.rtmp_port as nat),
    ];
    if s.config.ffmpeg_path is Some {
        args.push("--ffmpeg"@)
    } else {
        args
    }
}

/// How the engine is to be run.
pub struct RunCommand<'a> {
    pub engine_path: &'a PathBuf,
    pub args: Vec<String>,
    /// The last argument, after `args`, if there is one.
    pub ffmpeg_path: Option<&'a PathBuf>,
}

/// The message for an engine process that could not be started.
pub fn spawn_failure_message(error: &str) -> (message: String)
    ensures
        message@ == "failed to start restream engine: "@ + error@,
{
    joined("failed to start restream engine: ", error)
}

/// The state with a running engine.
pub open spec fn running(s: Supervision, since_unix: u64) -> Supervision {
    Supervision { child: true, status: Status::Running { since_unix }, ..s }
}

/// How long after `then` `now` is; zero if it is not.
pub open spec fn elapsed(now: u64, then: u64) -> int {
    if now >= then {
        now - then
    } else {
        0
    }
}

/// The restarts that still count at `now`, of those in order of time.
pub open spec fn recent(restarts: Seq<u64>, now: u64) -> Seq<u64>
    decreases restarts.len(),
{
    if restarts.len() > 0 && elapsed(now, restarts[0]) > RESTART_WINDOW {
        recent(restarts.drop_first(), now)
    } else {
        restarts
    }
}

/// The delay that follows a delay of `backoff` seconds: twice as much, up to
/// the longest one.
pub open spec fn doubled(backoff: u64) -> u64 {
    if 2 * backoff < MAX_BACKOFF {
        (2 * backoff) as u64
    } else {
        MAX_BACKOFF
    }
}

/// A restart that is wanted at `now`: the state that follows, and the delay
/// before it, or none if there have been too many.
pub open spec fn restart(s: Supervision, now: u64) -> (Supervision, Option<u64>) {
    let tried = recent(s.restarts, now).push(now);
    let noted = Supervision { restarts: tried, ..s };
    if tried.len() > MAX_RESTARTS {
        (
            noted.with_error(TOO_MANY_RESTARTS@).with_raw_line(
                "[supervisor] "@ + TOO_MANY_RESTARTS@,
            ),
            None,
        )
    } else {
        (Supervision { next_backoff: doubled(s.next_backoff), ..noted }, Some(s.next_backoff))
    }
}

/// What has happened to an engine that is being watched.
pub enum SuperviseEvent {
    /// Watching begins, for a new engine process or without one.
    Begin,
    /// The interval between two looks at the engine is over.
    Tick,
    /// The engine still runs.
    StillRunning,
    /// The engine has ended; its exit status, for display.
    Exited(String),
    /// Why the engine cannot be watched.
    MonitorFailed(String),
    /// The delay before a restart is over.
    DelayOver,
    /// Why the engine could not be started.
    SpawnFailed(String),
}

/// What is to be done next for an engine that is being watched.
#[derive(Clone, Copy, Debug, PartialEq, Eq, Structural)]
pub enum SuperviseAction {
    /// Wait for [`POLL_INTERVAL_MS`], then report [`SuperviseEvent::Tick`].
    Watch,
    /// Look whether the engine still runs, and report it.
    Poll,
    /// Wait so many seconds, then report [`SuperviseEvent::DelayOver`].
    Sleep(u64),
    /// Start the engine. Report a failure, or begin again.
    Spawn,
    /// Watch no longer.
    Quit,
}

/// The engine has failed.
pub open spec fn failed(s: Supervision, failure: Seq<char>, now: u64) -> (
    Supervision,
    SuperviseAction,
) {
    let noted = Supervision { child: false, ..s.with_error(failure) }.with_line(
        "[supervisor] "@ + failure,
    );
    let (after, delay) = restart(noted, now);
    match delay {
        None => (after.unwatched(), SuperviseAction::Quit),
        Some(seconds) => (
            after.with_line(
                "[supervisor] Restarting in "@ + decimal(seconds as nat) + " second(s)"@,
            ),
            SuperviseAction::Sleep(seconds),
        ),
    }
}

/// Watching begins.
pub open spec fn begun(s: Supervision, now: u64) -> (Supervision, SuperviseAction) {
    if s.stopping {
        (s.unwatched(), SuperviseAction::Quit)
    } else if s.child {
        (s, SuperviseAction::Watch)
    } else {
        failed(s, "restream engine was not running"@, now)
    }
}

/// What follows an event, and what is to be done.
pub open spec fn supervised(s: Supervision, event: SuperviseEvent, now: u64) -> (
    Supervision,
    SuperviseAction,
) {
    match event {
        SuperviseEvent::Begin => begun(s, now),
        SuperviseEvent::Tick => if s.stopping {
            (s.unwatched(), SuperviseAction::Quit)
        } else {
            (s, SuperviseAction::Poll)
        },
        SuperviseEvent::StillRunning => (s, SuperviseAction::Watch),
        SuperviseEvent::Exited(status) => failed(
            s,
            "restream engine exited unexpectedly with "@ + status@,
            now,
        ),
        SuperviseEvent::MonitorFailed(error) => failed(
            s,
            "failed to monitor restream engine: "@ + error@,
            now,
        ),
        SuperviseEvent::DelayOver => if s.stopping {
            (s.unwatched(), SuperviseAction::Quit)
        } else {
            (Supervision { status: Status::Starting, ..s }, SuperviseAction::Spawn)
        },
        SuperviseEvent::SpawnFailed(error) => begun(
            s.with_error(error@).with_line("[supervisor] "@ + error@),
            now,
        ),
    }
}

/// The state in which a stop is under way.
pub open spec fn stopping(s: Supervision) -> Supervision {
    Supervision { stopping: true, supervisor_task: false, ..s }
}

/// The state after a stop that went well, or failed with an error.
pub open spec fn stopped(s: Supervision, error: Option<Seq<char>>) -> Supervision {
    let reset = Supervision {
        child: false,
        stopping: false,
        restarts: Seq::empty(),
        next_backoff: FIRST_BACKOFF,
        ..s
    };
    match error {
        Some(e) => reset.with_error(e).with_raw_line("[supervisor] "@ + e),
        None => Supervision { status: Status::Stopped, ..reset },
    }
}

/// What a stop has to deal with.
pub struct StopPlan {
    /// There is an engine process to stop.
    pub child: bool,
    /// There is a watching task to end first.
    pub task: bool,
}

/// What is shown of the supervisor.
pub struct RestreamStatusView {
    pub status: &'static str,
    /// Since when the engine runs, in Unix time.
    pub since: Option<u64>,
    pub device_linked: bool,
    pub convex_configured: bool,
    pub tail: Vec<String>,
}

/// A [`RestreamStatusView`], as texts.
#[verifier::ext_equal]
pub struct StatusReport {
    pub status: Seq<char>,
    pub since: Option<u64>,
    pub device_linked: bool,
    pub convex_configured: bool,
    pub tail: Seq<Seq<char>>,
}

impl View for RestreamStatusView {
    type V = StatusReport;

    open spec fn view(&self) -> StatusReport {
        StatusReport {
            status: self.status@,
            since: self.since,
            device_linked: self.device_linked,
            convex_configured: self.convex_configured,
            tail: texts(self.tail@),
        }
    }
}

/// Whether the engine has gone missing. A running engine has not.
pub open spec fn engine_missing(s: Supervision, engine: EngineProbe) -> bool {
    !engine.is_file && !(s.status is Running)
}

/// The word for a status.
pub open spec fn status_word(status: Status) -> Seq<char> {
    match status {
        Status::Stopped => "stopped"@,
        Status::Starting => "starting"@,
        Status::Running { .. } => "running"@,
        Status::Errored { .. } => "errored"@,
    }
}

/// What is shown of the supervisor. A missing engine is an error, and is said
/// at the end of the tail.
pub open spec fn report(s: Supervision, engine: EngineProbe) -> StatusReport {
    let line = "[supervisor] "@ + missing_engine(engine.path@);
    StatusReport {
        status: if engine_missing(s, engine) {
            "errored"@
        } else {
            status_word(s.status)
        },
        since: match s.status {
            Status::Running { since_unix } => Some(since_unix),
            _ => None,
        },
        device_linked: s.persisted.device_token is Some,
        convex_configured: s.backend() is Some,
        tail: if !engine_missing(s, engine) || (s.tail.len() > 0 && s.tail.last() == line) {
            s.tail
        } else {
            last_lines(s.tail.push(line))
        },
    }
}

/// What the setup page is told: how things stand, and the fields for the video
/// program.
pub struct SetupView {
    pub status: &'static str,
    pub device_linked: bool,
    pub convex_configured: bool,
    pub org_name: Option<String>,
    pub server: String,
    pub stream_key: &'static str,
}

/// A [`SetupView`], as texts.
pub struct SetupReport {
    pub status: Seq<char>,
    pub device_linked: bool,
    pub convex_configured: bool,
    pub org_name: Option<Seq<char>>,
    pub server: Seq<char>,
    pub stream_key: Seq<char>,
}

impl View for SetupView {
    type V = SetupReport;

    open spec fn view(&self) -> SetupReport {
        SetupReport {
            status: self.status@,
            device_linked: self.device_linked,
            convex_configured: self.convex_configured,
            org_name: maybe_text(self.org_name),
            server: self.server@,
            stream_key: self.stream_key@,
        }
    }
}

/// The address that the video program sends to.
pub open spec fn rtmp_server(port: u16) -> Seq<char> {
    "rtmp://127.0.0.1:"@ + decimal(port as nat) + "/live"@
}

/// What the setup page is told.
pub open spec fn setup_report(s: Supervision, engine: EngineProbe) -> SetupReport {
    let shown = report(s, engine);
    SetupReport {
        status: shown.status,
        device_linked: shown.device_linked,
        convex_configured: shown.convex_configured,
        org_name: s.persisted.org_name,
        server: rtmp_server(s.config.rtmp_port),
        stream_key: STREAM_KEY@,
    }
}

proof fn lemma_pushed(lines: Seq<String>, line: String)
    ensures
        texts(last_lines(lines.push(line))) == last_lines(texts(lines).push(line@)),
{
    assert(texts(lines.push(line)) =~= texts(lines).push(line@));
    assert(texts(last_lines(lines.push(line))) =~= last_lines(texts(lines).push(line@)));
}

impl RestreamInner {
    /// The supervisor of an engine that has not been started.
    pub fn new(config: RestreamConfig, persisted: PersistedConfig, engine: &EngineProbe) -> (inner:
        Self)
        ensures
            inner@.wf(),
            inner@ == initial(config, persisted@, *engine),
    {
        let mut tail: VecDeque<String> = VecDeque::new();
        let status = if engine.is_file {
            assert(texts(tail@) =~= Seq::<Seq<char>>::empty());
            RestreamStatus::Stopped
        } else {
            let message = missing_engine_message(&engine.path);
            let line = joined("[supervisor] ", &message);
            tail.push_back(line);
            assert(texts(tail@) =~= seq![line@]);
            RestreamStatus::Errored { message }
        };
        RestreamInner {
            config,
            persisted,
            status,
            child: false,
            supervisor_task: false,
            tail,
            stopping: false,
            restarts: VecDeque::new(),
            next_backoff: FIRST_BACKOFF,
        }
    }

    /// Appends a line to the tail as it is.
    fn push_raw(&mut self, line: String)
        ensures
            final(self)@ == old(self)@.with_raw_line(line@),
    {
        proof {
            lemma_pushed(self.tail@, line);
        }
        push_tail_inner(&mut self.tail, line);
    }

    /// Appends a line to the tail, unless it may hold a credential.
    pub fn push_tail(&mut self, line: &str)
        requires
            old(self)@.wf(),
        ensures
            final(self)@.wf(),
            final(self)@ == old(self)@.with_line(line@),
    {
        let shown = match &self.persisted.device_token {
            Some(token) => sanitize_tail_line(line, Some(token)),
            None => sanitize_tail_line(line, None),
        };
        self.push_raw(shown);
    }

    /// Shows an error.
    pub fn set_error(&mut self, message: String)
        requires
            old(self)@.wf(),
        ensures
            final(self)@.wf(),
            final(self)@ == old(self)@.with_error(message@),
    {
        self.status = RestreamStatus::Errored { message };
    }

    /// Notes that the watching task has ended.
    pub fn clear_supervisor_task(&mut self)
        requires
            old(self)@.wf(),
        ensures
            final(self)@.wf(),
            final(self)@ == old(self)@.unwatched(),
    {
        self.supervisor_task = false;
    }

    /// Fails if the engine cannot be started: it is missing, there is no
    /// backend, or this computer is not paired.
    pub fn validate_start_config(&self, engine: &EngineProbe) -> (result: Result<(), String>)
        ensures
            match result {
                Ok(_) => start_refusal(self@, *engine) is None,
                Err(message) => start_refusal(self@, *engine) == Some(message@),
            },
    {
        if let Err(message) = ensure_engine_exists(engine) {
            return Err(message);
        }
        if self.config.convex_site_url.is_none() {
            return Err("RESTREAM_CONVEX_URL is not configured".to_owned());
        }
        if self.persisted.device_token.is_none() {
            return Err("restream device is not paired".to_owned());
        }
        Ok(())
    }

    /// A start request: nothing happens if the engine is active already, or if
    /// it cannot be started.
    pub fn begin_start(&mut self, engine: &EngineProbe) -> (decision: StartDecision)
        requires
            old(self)@.wf(),
        ensures
            final(self)@.wf(),
            match decision {
                StartDecision::AlreadyActive => {
                    &&& old(self)@.active()
                    &&& final(self)@ == old(self)@
                },
                StartDecision::Refused(message) => {
                    &&& !old(self)@.active()
                    &&& start_refusal(old(self)@, *engine) == Some(message@)
                    &&& final(self)@ == old(self)@
                },
                StartDecision::Spawn => {
                    &&& !old(self)@.active()
                    &&& start_refusal(old(self)@, *engine) is None
                    &&& final(self)@ == starting(old(self)@)
                },
            },
    {
        let active = match self.status {
            RestreamStatus::Running { .. } => true,
            RestreamStatus::Starting => true,
            _ => false,
        };
        if active || self.supervisor_task {
            return StartDecision::AlreadyActive;
        }
        if let Err(message) = self.validate_start_config(engine) {
            return StartDecision::Refused(message);
        }
        self.stopping = false;
        self.restarts.clear();
        self.next_backoff = FIRST_BACKOFF;
        self.status = RestreamStatus::Starting;
        StartDecision::Spawn
    }

    /// How the engine is to be run, or why it cannot be.
    pub fn run_command(&self, engine: &EngineProbe) -> (result: Result<RunCommand<'_>, String>)
        ensures
            match result {
                Ok(command) => {
                    &&& start_refusal(self@, *engine) is None
                    &&& *command.engine_path == self.config.engine_path
                    &&& texts(command.args@) == run_args(self@)
                    &&& command.args@.len() == if self.config.ffmpeg_path is Some {
                        8nat
                    } else {
                        7nat
                    }
                    &&& self.config.convex_site_url matches Some(url) && command.args@[2]@ == url@
                    &&& self.persisted.device_token matches Some(token) && command.args@[4]@
                        == token@
                    &&& command.args@[6]@ == decimal(self.config.rtmp_port as nat)
                    &&& match command.ffmpeg_path {
                        Some(path) => self.config.ffmpeg_path == Some(*path),
                        None => self.config.ffmpeg_path is None,
                    }
                },
                Err(message) => start_refusal(self@, *engine) == Some(message@),
            },
    {
        if let Err(message) = self.validate_start_config(engine) {
            return Err(message);
        }
        let mut args: Vec<String> = Vec::new();
        args.push("run".to_owned());
        args.push("--convex".to_owned());
        if let Some(url) = &self.config.convex_site_url {
            args.push(url.clone());
        }
        args.push("--token".to_owned());
        if let Some(token) = &self.persisted.device_token {
            args.push(token.clone());
        }
        args.push("--port".to_owned());
        args.push(decimal_text(self.config.rtmp_port as u64));
        if self.config.ffmpeg_path.is_some() {
            args.push("--ffmpeg".to_owned());
        }
        assert(texts(args@) =~= run_args(self@));
        Ok(
            RunCommand {
                engine_path: &self.config.engine_path,
                args,
                ffmpeg_path: self.config.ffmpeg_path.as_ref(),
            },
        )
    }

    /// Notes that the engine runs.
    pub fn engine_spawned(&mut self, since_unix: u64)
        requires
            old(self)@.wf(),
        ensures
            final(self)@.wf(),
            final(self)@ == running(old(self)@, since_unix),
    {
        self.child = true;
        self.status = RestreamStatus::Running { since_unix };
    }

    /// Notes that a task watches the engine.
    pub fn watching_started(&mut self)
        requires
            old(self)@.wf(),
        ensures
            final(self)@.wf(),
            final(self)@ == (Supervision { supervisor_task: true, ..old(self)@ }),
    {
        self.supervisor_task = true;
    }

    /// Decides on a restart: the delay before it, in seconds, or none if there
    /// have been too many restarts lately.
    pub fn next_restart_delay(&mut self, now: u64) -> (delay: Option<u64>)
        requires
            old(self)@.wf(),
        ensures
            final(self)@.wf(),
            (final(self)@, delay) == restart(old(self)@, now),
    {
        let ghost before = self@;
        while self.restarts.len() > 0 && now.saturating_sub(self.restarts[0]) > RESTART_WINDOW
            invariant
                self@ == (Supervision { restarts: self.restarts@, ..before }),
                recent(before.restarts, now) == recent(self.restarts@, now),
            decreases self.restarts.len(),
        {
            let ghost all = self.restarts@;
            self.restarts.pop_front();
            assert(self.restarts@ == all.drop_first());
        }
        self.restarts.push_back(now);
        if self.restarts.len() > MAX_RESTARTS {
            self.status = RestreamStatus::Errored { message: TOO_MANY_RESTARTS.to_owned() };
            self.push_raw(joined("[supervisor] ", TOO_MANY_RESTARTS));
            return None;
        }
        let delay: u64 = self.next_backoff;
        self.next_backoff = if 2 * delay < MAX_BACKOFF {
            2 * delay
        } else {
            MAX_BACKOFF
        };
        Some(delay)
    }

    /// The engine has failed.
    fn engine_failed(&mut self, failure: String, now: u64) -> (action: SuperviseAction)
        requires
            old(self)@.wf(),
        ensures
            final(self)@.wf(),
            (final(self)@, action) == failed(old(self)@, failure@, now),
    {
        let line = joined("[supervisor] ", &failure);
        self.child = false;
        self.status = RestreamStatus::Errored { message: failure };
        self.push_tail(&line);
        match self.next_restart_delay(now) {
            None => {
                self.supervisor_task = false;
                SuperviseAction::Quit
            },
            Some(seconds) => {
                let mut line = joined("[supervisor] Restarting in ", &decimal_text(seconds));
                line.append(" second(s)");
                self.push_tail(&line);
                SuperviseAction::Sleep(seconds)
            },
        }
    }

    /// Watching begins.
    fn begin_watching(&mut self, now: u64) -> (action: SuperviseAction)
        requires
            old(self)@.wf(),
        ensures
            final(self)@.wf(),
            (final(self)@, action) == begun(old(self)@, now),
    {
        if self.stopping {
            self.supervisor_task = false;
            SuperviseAction::Quit
        } else if self.child {
            SuperviseAction::Watch
        } else {
            self.engine_failed("restream engine was not running".to_owned(), now)
        }
    }

    /// Takes note of what happened to the engine at `now`, and says what is to
    /// be done.
    pub fn supervise(&mut self, event: SuperviseEvent, now: u64) -> (action: SuperviseAction)
        requires
            old(self)@.wf(),
        ensures
            final(self)@.wf(),
            (final(self)@, action) == supervised(old(self)@, event, now),
            // Only failures count: looking at the engine and waiting do not.
            event is Tick || event is StillRunning || event is DelayOver || (event is Begin && old(
                self,
            ).child) ==> final(self).restarts@ == old(self).restarts@ && final(self).next_backoff
                == old(self).next_backoff,
    {
        match event {
            SuperviseEvent::Begin => self.begin_watching(now),
            SuperviseEvent::Tick => {
                if self.stopping {
                    self.supervisor_task = false;
                    SuperviseAction::Quit
                } else {
                    SuperviseAction::Poll
                }
            },
            SuperviseEvent::StillRunning => SuperviseAction::Watch,
            SuperviseEvent::Exited(status) => {
                let failure = joined("restream engine exited unexpectedly with ", &status);
                self.engine_failed(failure, now)
            },
            SuperviseEvent::MonitorFailed(error) => {
                let failure = joined("failed to monitor restream engine: ", &error);
                self.engine_failed(failure, now)
            },
            SuperviseEvent::DelayOver => {
                if self.stopping {
                    self.supervisor_task = false;
                    SuperviseAction::Quit
                } else {
                    self.status = RestreamStatus::Starting;
                    SuperviseAction::Spawn
                }
            },
            SuperviseEvent::SpawnFailed(error) => {
                let line = joined("[supervisor] ", &error);
                self.set_error(error);
                self.push_tail(&line);
                self.begin_watching(now)
            },
        }
    }

    /// A stop request: the watching task and then the engine are to be ended.
    pub fn begin_stop(&mut self) -> (plan: StopPlan)
        requires
            old(self)@.wf(),
        ensures
            final(self)@.wf(),
            final(self)@ == stopping(old(self)@),
            plan == (StopPlan { child: old(self)@.child, task: old(self)@.supervisor_task }),
    {
        let plan = StopPlan { child: self.child, task: self.supervisor_task };
        self.stopping = true;
        self.supervisor_task = false;
        plan
    }

    /// The end of a stop request, with what came of it.
    pub fn finish_stop(&mut self, result: &Result<(), String>)
        requires
            old(self)@.wf(),
        ensures
            final(self)@.wf(),
            final(self)@ == stopped(
                old(self)@,
                match result {
                    Ok(_) => None,
                    Err(error) => Some(error@),
                },
            ),
    {
        self.child = false;
        self.stopping = false;
        self.restarts.clear();
        self.next_backoff = FIRST_BACKOFF;
        match result {
            Err(error) => {
                self.status = RestreamStatus::Errored { message: error.clone() };
                self.push_raw(joined("[supervisor] ", error));
            },
            Ok(_) => {
                self.status = RestreamStatus::Stopped;
            },
        }
    }

    /// The word for how things stand.
    fn status_text(&self, engine: &EngineProbe) -> (word: &'static str)
        ensures
            word@ == report(self@, *engine).status,
    {
        match self.status {
            RestreamStatus::Running { .. } => "running",
            _ if !engine.is_file => "errored",
            RestreamStatus::Stopped => "stopped",
            RestreamStatus::Starting => "starting",
            RestreamStatus::Errored { .. } => "errored",
        }
    }

    /// What is shown of the supervisor.
    pub fn status(&self, engine: &EngineProbe) -> (shown: RestreamStatusView)
        requires
            self@.wf(),
        ensures
            shown@ == report(self@, *engine),
            shown.device_linked == (self.persisted.device_token is Some),
            shown.convex_configured == (self.config.convex_site_url is Some),
            engine.is_file ==> texts(shown.tail@) == texts(self.tail@),
    {
        let since = match self.status {
            RestreamStatus::Running { since_unix } => Some(since_unix),
            _ => None,
        };
        let mut tail: Vec<String> = Vec::new();
        let mut i: usize = 0;
        while i < self.tail.len()
            invariant
                i <= self.tail.len(),
                tail@ == self.tail@.take(i as int),
            decreases self.tail.len() - i,
        {
            tail.push(self.tail[i].clone());
            i = i + 1;
            assert(tail@ == self.tail@.take(i as int));
        }
        assert(self.tail@.take(i as int) == self.tail@);
        if !engine.is_file && since.is_none() {
            let line = joined("[supervisor] ", &missing_engine_message(&engine.path));
            let len: usize = tail.len();
            assert(len > 0 ==> texts(tail@).last() == tail@[len - 1]@);
            if len == 0 || !same_text(&tail[len - 1], &line) {
                proof {
                    lemma_pushed(tail@, line);
                }
                let ghost before = tail@;
                tail.push(line);
                if tail.len() > TAIL_LIMIT {
                    tail.remove(0);
                    assert(tail@ == before.push(line).skip(1));
                }
            }
        }
        RestreamStatusView {
            status: self.status_text(engine),
            since,
            device_linked: self.persisted.device_token.is_some(),
            convex_configured: self.config.convex_site_url.is_some(),
            tail,
        }
    }

    /// What the setup page is told.
    pub fn setup(&self, engine: &EngineProbe) -> (shown: SetupView)
        ensures
            shown@ == setup_report(self@, *engine),
            shown.device_linked == (self.persisted.device_token is Some),
            shown.convex_configured == (self.config.convex_site_url is Some),
            shown.server@ == "rtmp://127.0.0.1:"@ + decimal(self.config.rtmp_port as nat)
                + "/live"@,
    {
        let mut server = joined(
            "rtmp://127.0.0.1:",
            &decimal_text(self.config.rtmp_port as u64),
        );
        server.append("/live");
        SetupView {
            status: self.status_text(engine),
            device_linked: self.persisted.device_token.is_some(),
            convex_configured: self.config.convex_site_url.is_some(),
            org_name: self.persisted.org_name.clone(),
            server,
            stream_key: STREAM_KEY,
        }
    }

    /// Takes over what a pairing run brought.
    pub fn record_pairing(&mut self, convex_url: String, pairing: &Pairing)
        requires
            old(self)@.wf(),
        ensures
            final(self)@.wf(),
            final(self)@ == (Supervision {
                persisted: Persisted {
                    convex_site_url: Some(convex_url@),
                    device_token: Some(pairing.token@),
                    org_name: Some(pairing.org_name@),
                },
                ..old(self)@
            }),
            final(self)@ == paired(old(self)@, convex_url@, pairing.token@, pairing.org_name@),
    {
        self.persisted = PersistedConfig {
            convex_site_url: Some(convex_url),
            device_token: Some(pairing.token.clone()),
            org_name: Some(pairing.org_name.clone()),
        };
    }
}

} // verus!