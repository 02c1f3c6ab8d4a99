//! Starting the app when the user logs in.

use crate::config::Platform;
use crate::text::{joined, texts};
use vstd::prelude::*;
use vstd::string::*;

verus! {

/// The registry key under which Windows looks for what to start.
pub const RUN_KEY: &'static str = "HKCU\\Software\\Microsoft\\Windows\\CurrentVersion\\Run";

/// The registry value that stands for the app.
pub const RUN_VALUE: &'static str = "OCvoiceAudioRouter";

/// The launch agent up to the program.
pub const AGENT_HEAD: &'static str = "<?xml version=\"1.0\" encoding=\"UTF-8\"?>\n<!DOCTYPE plist PUBLIC \"-//Apple//DTD PLIST 1.0//EN\" \"http://www.apple.com/DTDs/PropertyList-1.0.dtd\">\n<plist version=\"1.0\">\n<dict>\n    <key>Label</key>\n    <string>dk.ocplan.audio-router</string>\n    <key>ProgramArguments</key>\n    <array>\n        <string>";

/// The launch agent from the program to its output log.
pub const AGENT_OUTPUT: &'static str = "</string>\n    </array>\n    <key>RunAtLoad</key>\n    <true/>\n    <key>KeepAlive</key>\n    <false/>\n    <key>StandardOutPath</key>\n    <string>";

/// The launch agent from its output log to its error log.
pub const AGENT_ERROR: &'static str = "/Library/Logs/ocvoice-audio-router.log</string>\n    <key>StandardErrorPath</key>\n    <string>";

/// The launch agent after its error log.
pub const AGENT_TAIL: &'static str = "/Library/Logs/ocvoice-audio-router.log</string>\n</dict>\n</plist>";

/// How the app is to be started at login.
pub enum AutostartPlan {
    /// By a launch agent: its directory, its file and what is in it.
    LaunchAgent { directory: String, file: String, contents: String },
    /// By a registry value: the arguments of `reg` that look for it, and those
    /// that add it.
    Registry { query: Vec<String>, add: Vec<String> },
    /// Not on this system.
    Unsupported,
}

/// The directory for launch agents of the user with this home directory.
pub open spec fn agents_directory(home: Seq<char>) -> Seq<char> {
    home + "/Library/LaunchAgents"@
}

/// The launch agent that starts `program` and logs below `home`.
pub open spec fn launch_agent(home: Seq<char>, program: Seq<char>) -> Seq<char> {
    AGENT_HEAD@ + program + AGENT_OUTPUT@ + home + AGENT_ERROR@ + home + AGENT_TAIL@
}

/// How `program` is to be started at login.
pub fn autostart_plan(platform: Platform, home: &str, program: &str) -> (plan: AutostartPlan)
    ensures
        match platform {
            Platform::Macos => plan matches AutostartPlan::LaunchAgent {
                directory,
                file,
                contents,
            } && directory@ == agents_directory(home@) && file@ == agents_directory(home@)
                + "/dk.ocplan.audio-router.plist"@ && contents@ == launch_agent(home@, program@),
            Platform::Windows => plan matches AutostartPlan::Registry { query, add } && texts(
                query@,
            ) == seq!["query"@, RUN_KEY@, "/v"@, RUN_VALUE@] && texts(add@) == seq![
                "add"@,
                RUN_KEY@,
                "/v"@,
                RUN_VALUE@,
                "/t"@,
                "REG_SZ"@,
                "/d"@,
                program@,
                "/f"@,
            ],
            Platform::Other => plan == AutostartPlan::Unsupported,
        },
{
    match platform {
        Platform::Macos => {
            let directory = joined(home, "/Library/LaunchAgents");
            let file = joined(&directory, "/dk.ocplan.audio-router.plist");
            let mut contents = joined(AGENT_HEAD, program);
            contents.append(AGENT_OUTPUT);
            contents.append(home);
            contents.append(AGENT_ERROR);
            contents.append(home);
            contents.append(AGENT_TAIL);
            AutostartPlan::LaunchAgent { directory, file, contents }
        },
        Platform::Windows => {
            let mut query: Vec<String> = Vec::new();
            query.push("query".to_owned());
            query.push(RUN_KEY.to_owned());
            query.push("/v".to_owned());
            query.push(RUN_VALUE.to_owned());
            assert(texts(query@) =~= seq!["query"@, RUN_KEY@, "/v"@, RUN_VALUE@]);
            let mut add: Vec<String> = Vec::new();
            add.push("add".to_owned());
            add.push(RUN_KEY.to_owned());
            add.push("/v".to_owned());
            add.push(RUN_VALUE.to_owned());
            add.push("/t".to_owned());
            add.push("REG_SZ".to_owned());
            add.push("/d".to_owned());
            add.push(program.to_owned());
            add.push("/f".to_owned());
            assert(texts(add@) =~= seq![
                "add"@,
                RUN_KEY@,
                "/v"@,
                RUN_VALUE@,
                "/t"@,
                "REG_SZ"@,
                "/d"@,
                program@,
                "/f"@,
            ]);
            AutostartPlan::Registry { query, add }
        },
        Platform::Other => AutostartPlan::Unsupported,
    }
}

/// What came of setting up the start at login.
pub enum AutostartOutcome {
    /// It had been set up before.
    AlreadyConfigured,
    /// It has been set up.
    Installed,
    /// Why the launch agent could not be written.
    AgentNotWritten(String),
    /// What `reg` said when it did not add the value.
    RegistryNotWritten(String),
    /// Why `reg` could not be run.
    RegistryNotRun(String),
    /// It cannot be set up on this system.
    Unsupported,
}

/// What has happened while the start at login is being set up.
pub enum AutostartEvent {
    /// Setting it up begins.
    Begin,
    /// The entry was looked for; whether it is there.
    Looked { present: bool },
    /// The launch agent was written, or why it could not be.
    Written(Result<(), String>),
    /// `reg` was run to add the value: whether it did or what it said instead,
    /// or why it could not be run.
    Added(Result<Result<(), String>, String>),
}

/// What is to be done next to set up the start at login.
pub enum AutostartAction {
    /// Look whether the entry is there.
    Look,
    /// Write the launch agent, or add the registry value.
    Install,
    /// Nothing more.
    Done(AutostartOutcome),
}

/// What follows an event, on a system that supports the start at login or not.
pub open spec fn autostart_next(supported: bool, event: AutostartEvent) -> AutostartAction {
    match event {
        AutostartEvent::Begin => if supported {
            AutostartAction::Look
        } else {
            AutostartAction::Done(AutostartOutcome::Unsupported)
        },
        AutostartEvent::Looked { present } => if present {
            AutostartAction::Done(AutostartOutcome::AlreadyConfigured)
        } else {
            AutostartAction::Install
        },
        AutostartEvent::Written(Ok(_)) => AutostartAction::Done(AutostartOutcome::Installed),
        AutostartEvent::Written(Err(error)) => AutostartAction::Done(
            AutostartOutcome::AgentNotWritten(error),
        ),
        AutostartEvent::Added(Ok(Ok(_))) => AutostartAction::Done(AutostartOutcome::Installed),
        AutostartEvent::Added(Ok(Err(said))) => AutostartAction::Done(
            AutostartOutcome::RegistryNotWritten(said),
        ),
        AutostartEvent::Added(Err(error)) => AutostartAction::Done(
            AutostartOutcome::RegistryNotRun(error),
        ),
    }
}

/// What is to be done after `event`.
pub fn autostart_step(supported: bool, event: AutostartEvent) -> (action: AutostartAction)
    ensures
        action == autostart_next(supported, event),
{
    match event {
        AutostartEvent::Begin => {
            if supported {
                AutostartAction::Look
            } else {
                AutostartAction::Done(AutostartOutcome::Unsupported)
            }
        },
        AutostartEvent::Looked { present } => {
            if present {
                AutostartAction::Done(AutostartOutcome::AlreadyConfigured)
            } else {
                AutostartAction::Install
            }
        },
        AutostartEvent::Written(result) => AutostartAction::Done(
            match result {
                Ok(()) => AutostartOutcome::Installed,
                Err(error) => AutostartOutcome::AgentNotWritten(error),
            },
        ),
        AutostartEvent::Added(result) => AutostartAction::Done(
            match result {
                Ok(Ok(())) => AutostartOutcome::Installed,
                Ok(Err(said)) => AutostartOutcome::RegistryNotWritten(said),
                Err(error) => AutostartOutcome::RegistryNotRun(error),
            },
        ),
    }
}

/// Whether `event` reports on `action`.
pub open spec fn reports_on(event: AutostartEvent, action: AutostartAction) -> bool {
    match action {
        AutostartAction::Look => event is Looked,
        AutostartAction::Install => event is Written || event is Added,
        AutostartAction::Done(_) => false,
    }
}

/// An entry that is there is left alone: nothing is done after it has been
/// seen, and one is installed only after it has been looked for and not found.
pub proof fn law_existing_entry_is_left_alone(supported: bool, event: AutostartEvent)
    ensures
        event matches AutostartEvent::Looked { present: true } ==> autostart_next(supported, event)
            == AutostartAction::Done(AutostartOutcome::AlreadyConfigured),
        autostart_next(supported, event) is Install ==> event == (AutostartEvent::Looked {
            present: false,
        }),
{
}

/// Whether setting up the start at login installs an entry, where one is
/// `present` or not.
pub open spec fn installs(supported: bool, present: bool) -> bool {
    &&& autostart_next(supported, AutostartEvent::Begin) is Look
    &&& autostart_next(supported, AutostartEvent::Looked { present }) is Install
}

/// Setting up the start at login is idempotent: an entry is installed where it
/// is supported and there is none, and once there is one, never again.
pub proof fn law_setup_is_idempotent(supported: bool, present: bool)
    ensures
        installs(supported, present) == (supported && !present),
        !installs(supported, present || installs(supported, present)),
{
}

/// Setting up the start at login ends, with two actions at most: one look, and
/// one installation where nothing was found.
pub proof fn law_setup_ends(supported: bool, looked: AutostartEvent, installed: AutostartEvent)
    requires
        reports_on(looked, AutostartAction::Look),
        reports_on(installed, AutostartAction::Install),
    ensures
        autostart_next(supported, AutostartEvent::Begin) is Look || autostart_next(
            supported,
            AutostartEvent::Begin,
        ) is Done,
        autostart_next(supported, looked) is Install || autostart_next(supported, looked) is Done,
        autostart_next(supported, installed) is Done,
{
}

/// The message for what came of it.
pub fn autostart_message(outcome: &AutostartOutcome) -> (message: String)
    ensures
        message@ == match outcome {
            AutostartOutcome::AlreadyConfigured => "  Auto-start: already configured"@,
            AutostartOutcome::Installed => "  Auto-start: installed (will start on login)"@,
            AutostartOutcome::AgentNotWritten(error) => "  Auto-start: failed to write plist: "@
                + error@,
            AutostartOutcome::RegistryNotWritten(error) =>
            "  Auto-start: registry write failed: "@ + error@,
            AutostartOutcome::RegistryNotRun(error) => "  Auto-start: failed: "@ + error@,
            AutostartOutcome::Unsupported => "  Auto-start: not supported on this platform"@,
        },
{
    match outcome {
        AutostartOutcome::AlreadyConfigured => "  Auto-start: already configured".to_owned(),
        AutostartOutcome::Installed => "  Auto-start: installed (will start on login)".to_owned(),
        AutostartOutcome::AgentNotWritten(error) => joined(
            "  Auto-start: failed to write plist: ",
            error,
        ),
        AutostartOutcome::RegistryNotWritten(error) => joined(
            "  Auto-start: registry write failed: ",
            error,
        ),
        AutostartOutcome::RegistryNotRun(error) => joined("  Auto-start: failed: ", error),
        AutostartOutcome::Unsupported =>
        "  Auto-start: not supported on this platform".to_owned(),
    }
}

/// The launch agent holds the program and the home directory as they are: the
/// program after its head, the directory where each of the two logs is named.
pub proof fn law_agent_names_program_and_logs(home: Seq<char>, program: Seq<char>)
    ensures
        ({
            let agent = launch_agent(home, program);
            let at = AGENT_HEAD@.len() as int;
            let output = at + program.len() + AGENT_OUTPUT@.len();
            let error = output + home.len() + AGENT_ERROR@.len();
            &&& agent.subrange(at, at + program.len()) == program
            &&& agent.subrange(output, output + home.len()) == home
            &&& agent.subrange(error, error + home.len()) == home
            &&& agent.len() == error + home.len() + AGENT_TAIL@.len()
        }),
{
    let agent = launch_agent(home, program);
    let at = AGENT_HEAD@.len() as int;
    let output = at + program.len() + AGENT_OUTPUT@.len();
    let error = output + home.len() + AGENT_ERROR@.len();
    assert(agent.subrange(at, at + program.len()) =~= program);
    assert(agent.subrange(output, output + home.len()) =~= home);
    assert(agent.subrange(error, error + home.len()) =~= home);
}

/// What is reported is what came of it: installed exactly if the entry was
/// written or added, and each failure with its own reason.
pub proof fn law_outcome_is_what_came_of_it(supported: bool, event: AutostartEvent)
    ensures
        autostart_next(supported, event) == AutostartAction::Done(AutostartOutcome::Installed)
            <==> (event matches AutostartEvent::Written(Ok(_))) || (
        event matches AutostartEvent::Added(Ok(Ok(_)))),
        event matches AutostartEvent::Written(Err(error)) ==> autostart_next(supported, event)
            == AutostartAction::Done(AutostartOutcome::AgentNotWritten(error)),
        event matches AutostartEvent::Added(Ok(Err(said))) ==> autostart_next(supported, event)
            == AutostartAction::Done(AutostartOutcome::RegistryNotWritten(said)),
        event matches AutostartEvent::Added(Err(error)) ==> autostart_next(supported, event)
            == AutostartAction::Done(AutostartOutcome::RegistryNotRun(error)),
        autostart_next(supported, event) == AutostartAction::Done(AutostartOutcome::Unsupported)
            <==> event is Begin && !supported,
{
}

} // verus!
