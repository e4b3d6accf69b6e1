//! Command decoding, decision, and response correlation.
//!
//! An inbound command event carries an identifier, a command name, and an
//! optional structured argument map. The service decides which action the
//! name asks for; the surrounding runtime performs the OS-level work and
//! reports its outcome; the response — carrying the identifier, a success
//! flag, optional output, optional error — is built here. A
//! [`PendingCommand`] is consumed by responding, so at most one response
//! can ever be produced for one accepted command, however often the work
//! behind it is retried.

use vstd::prelude::*;
use vstd::string::StringExecFns;

use crate::text::str_eq;
use crate::text::u64_to_string;
use crate::text::i64_to_string;
use crate::text::dec_of;
use crate::text::dec_of_int;

verus! {

/// One value of a command's argument map.
#[derive(Clone, Debug)]
pub enum ArgValue {
    Text(String),
    Number(u64),
}

/// A command's structured argument map: keys to plain values.
pub struct CommandArgs {
    entries: Vec<(String, ArgValue)>,
}

/// First-match lookup in an argument map.
pub open spec fn spec_lookup(entries: Seq<(Seq<char>, ArgValue)>, key: Seq<char>) -> Option<
    ArgValue,
>
    decreases entries.len(),
{
    if entries.len() == 0 {
        None
    } else if entries[0].0 == key {
        Some(entries[0].1)
    } else {
        spec_lookup(entries.drop_first(), key)
    }
}

impl CommandArgs {
    /// The entries of the map, in insertion order.
    pub closed spec fn entries_spec(&self) -> Seq<(Seq<char>, ArgValue)> {
        self.entries@.map(|i: int, e: (String, ArgValue)| (e.0@, e.1))
    }

    /// An empty argument map.
    pub fn new() -> (r: CommandArgs)
        ensures
            r.entries_spec() == Seq::<(Seq<char>, ArgValue)>::empty(),
    {
        let r = CommandArgs { entries: Vec::new() };
        proof {
            assert(r.entries_spec() =~= Seq::<(Seq<char>, ArgValue)>::empty());
        }
        r
    }

    /// Adds one entry at the end.
    pub fn insert(&mut self, key: String, value: ArgValue)
        ensures
            final(self).entries_spec() == old(self).entries_spec().push((key@, value)),
    {
        let ghost m0 = self.entries_spec();
        self.entries.push((key, value));
        proof {
            assert(self.entries_spec() =~= m0.push((key@, value)));
        }
    }

    /// The text value under a key, if the key is present and holds text.
    pub fn get_str(&self, key: &str) -> (r: Option<&String>)
        ensures
            match r {
                Some(s) => spec_lookup(self.entries_spec(), key@) == Some(ArgValue::Text(*s)),
                None => !(spec_lookup(self.entries_spec(), key@) matches Some(
                    ArgValue::Text(_),
                )),
            },
    {
        let n = self.entries.len();
        let mut i: usize = 0;
        while i < n
            invariant
                i <= n,
                n == self.entries@.len(),
                forall|j: int| 0 <= j < i ==> self.entries_spec()[j].0 != key@,
            decreases n - i,
        {
            if str_eq(self.entries[i].0.as_str(), key) {
                proof {
                    lemma_lookup_at(self.entries_spec(), key@, i as int);
                }
                match &self.entries[i].1 {
                    ArgValue::Text(s) => {
                        return Some(s);
                    },
                    ArgValue::Number(_) => {
                        return None;
                    },
                }
            }
            i += 1;
        }
        proof {
            lemma_lookup_absent(self.entries_spec(), key@);
        }
        None
    }

    /// The numeric value under a key, if the key is present and holds a
    /// number.
    pub fn get_u64(&self, key: &str) -> (r: Option<u64>)
        ensures
            match r {
                Some(n) => spec_lookup(self.entries_spec(), key@) == Some(ArgValue::Number(n)),
                None => !(spec_lookup(self.entries_spec(), key@) matches Some(
                    ArgValue::Number(_),
                )),
            },
    {
        let n = self.entries.len();
        let mut i: usize = 0;
        while i < n
            invariant
                i <= n,
                n == self.entries@.len(),
                forall|j: int| 0 <= j < i ==> self.entries_spec()[j].0 != key@,
            decreases n - i,
        {
            if str_eq(self.entries[i].0.as_str(), key) {
                proof {
                    lemma_lookup_at(self.entries_spec(), key@, i as int);
                }
                match &self.entries[i].1 {
                    ArgValue::Number(v) => {
                        return Some(*v);
                    },
                    ArgValue::Text(_) => {
                        return None;
                    },
                }
            }
            i += 1;
        }
        proof {
            lemma_lookup_absent(self.entries_spec(), key@);
        }
        None
    }
}

/// Lookup lands on the first matching key.
proof fn lemma_lookup_at(entries: Seq<(Seq<char>, ArgValue)>, key: Seq<char>, i: int)
    requires
        0 <= i < entries.len(),
        entries[i].0 == key,
        forall|j: int| 0 <= j < i ==> entries[j].0 != key,
    ensures
        spec_lookup(entries, key) == Some(entries[i].1),
    decreases i,
{
    if i > 0 {
        lemma_lookup_at(entries.drop_first(), key, i - 1);
    }
}

/// Lookup misses when no key matches.
proof fn lemma_lookup_absent(entries: Seq<(Seq<char>, ArgValue)>, key: Seq<char>)
    requires
        forall|j: int| 0 <= j < entries.len() ==> entries[j].0 != key,
    ensures
        spec_lookup(entries, key) == None::<ArgValue>,
    decreases entries.len(),
{
    if entries.len() > 0 {
        lemma_lookup_absent(entries.drop_first(), key);
    }
}

/// A decoded inbound command event.
pub struct CommandPayload {
    /// Correlation identifier; it round-trips into the response.
    pub id: String,
    /// The command name.
    pub command: String,
    /// Optional structured arguments.
    pub payload: Option<CommandArgs>,
}

/// The text argument under `key`, when the command carries one.
pub open spec fn spec_str_arg(p: CommandPayload, key: Seq<char>) -> Option<Seq<char>> {
    match p.payload {
        Some(args) => match spec_lookup(args.entries_spec(), key) {
            Some(ArgValue::Text(s)) => Some(s@),
            _ => None,
        },
        None => None,
    }
}

/// The numeric argument under `key`, when the command carries one.
pub open spec fn spec_u64_arg(p: CommandPayload, key: Seq<char>) -> Option<u64> {
    match p.payload {
        Some(args) => match spec_lookup(args.entries_spec(), key) {
            Some(ArgValue::Number(n)) => Some(n),
            _ => None,
        },
        None => None,
    }
}

/// What a command name asks the runtime to do.
pub enum CommandAction {
    /// Lock the screen.
    Lock,
    /// Unlocking needs user interaction; answered immediately.
    Unlock,
    /// Shut the machine down.
    Shutdown,
    /// Restart the machine.
    Restart,
    /// Log the current user off.
    Logoff,
    /// Put the machine to sleep.
    Sleep,
    /// Show a dialog to the user.
    ShowMessage { title: String, message: String },
    /// Run a command line and capture its output.
    Execute { command_line: String },
    /// Terminate the process with this identifier.
    KillProcess { process_id: u32 },
    /// Nothing to perform: the command is unknown or ill-formed, and this
    /// failure reason is owed as the response.
    Invalid { reason: String },
}

/// An accepted command awaiting its one response. Responding consumes the
/// value, so no second response can be produced for the same command.
pub struct PendingCommand {
    id: String,
    origin: String,
    deadline: u64,
}

/// An outbound command response: the correlation identifier, a success
/// flag, optional output, and an optional error string.
pub struct CommandResponse {
    pub id: String,
    pub success: bool,
    pub output: Option<String>,
    pub error: Option<String>,
}

impl PendingCommand {
    /// The correlation identifier the response will carry.
    pub closed spec fn spec_id(&self) -> Seq<char> {
        self.id@
    }

    /// The event name the command arrived under.
    pub closed spec fn spec_origin(&self) -> Seq<char> {
        self.origin@
    }

    /// When the response is no longer owed.
    pub closed spec fn spec_deadline(&self) -> u64 {
        self.deadline
    }

    /// Read access to the correlation identifier.
    pub fn id(&self) -> (r: &str)
        ensures
            r@ == self.spec_id(),
    {
        self.id.as_str()
    }

    /// Whether the response deadline has passed; an expired command is
    /// destroyed without a response (best effort, no retry).
    pub fn expired(&self, now: u64) -> (r: bool)
        ensures
            r == (now > self.spec_deadline()),
    {
        now > self.deadline
    }

    /// Builds the single response for this command, consuming it.
    pub fn respond(
        self,
        success: bool,
        output: Option<String>,
        error: Option<String>,
    ) -> (r: CommandResponse)
        ensures
            r.id@ == self.spec_id(),
            r.success == success,
            r.output == output,
            r.error == error,
    {
        CommandResponse { id: self.id, success, output, error }
    }
}

/// The command service: decodes inbound command events and correlates
/// responses. It holds no state beyond the registration — identifiers
/// round-trip through the payload.
pub struct Commands {}

impl Commands {
    /// Creates the command service.
    pub fn new() -> (r: Commands) {
        Commands {}
    }

    /// Accepts one inbound command: pairs the pending response with the
    /// decided action.
    pub fn accept(&self, payload: CommandPayload, origin: String, deadline: u64) -> (r: (
        PendingCommand,
        CommandAction,
    ))
        ensures
            r.0.spec_id() == payload.id@,
            r.0.spec_origin() == origin@,
            r.0.spec_deadline() == deadline,
            decide_matches(payload, r.1),
    {
        let action = decide_command(&payload);
        let pending = PendingCommand { id: payload.id, origin, deadline };
        (pending, action)
    }
}

/// The decision the command name asks for, as a relation between the
/// payload and the chosen action.
pub open spec fn decide_matches(p: CommandPayload, r: CommandAction) -> bool {
    let c = p.command@;
    if c == "LOCK"@ {
        r == CommandAction::Lock
    } else if c == "UNLOCK"@ {
        r == CommandAction::Unlock
    } else if c == "SHUTDOWN"@ {
        r == CommandAction::Shutdown
    } else if c == "RESTART"@ {
        r == CommandAction::Restart
    } else if c == "LOGOFF"@ {
        r == CommandAction::Logoff
    } else if c == "SLEEP"@ {
        r == CommandAction::Sleep
    } else if c == "MESSAGE"@ {
        r matches CommandAction::ShowMessage { title, message }
            && message@ == (match spec_str_arg(p, "message"@) {
                Some(m) => m,
                None => "No message"@,
            })
            && title@ == (match spec_str_arg(p, "title"@) {
                Some(t) => t,
                None => "Message"@,
            })
    } else if c == "EXECUTE"@ {
        match spec_str_arg(p, "command"@) {
            Some(cmd) => (r matches CommandAction::Execute { command_line }
                && command_line@ == cmd),
            None => (r matches CommandAction::Invalid { reason }
                && reason@ == "No command provided"@),
        }
    } else if c == "KILL_PROCESS"@ {
        match spec_u64_arg(p, "processId"@) {
            Some(n) => (r matches CommandAction::KillProcess { process_id }
                && process_id == n as u32),
            None => (r matches CommandAction::Invalid { reason }
                && reason@ == "No process ID provided"@),
        }
    } else {
        r matches CommandAction::Invalid { reason }
            && reason@ == "Unknown command: "@ + c
    }
}

/// Decides which action an inbound command asks for. Unknown names and
/// missing required arguments decide an immediate failure response; they
/// never fail the service.
pub fn decide_command(payload: &CommandPayload) -> (r: CommandAction)
    ensures
        decide_matches(*payload, r),
{
    let c = payload.command.as_str();
    if str_eq(c, "LOCK") {
        CommandAction::Lock
    } else if str_eq(c, "UNLOCK") {
        CommandAction::Unlock
    } else if str_eq(c, "SHUTDOWN") {
        CommandAction::Shutdown
    } else if str_eq(c, "RESTART") {
        CommandAction::Restart
    } else if str_eq(c, "LOGOFF") {
        CommandAction::Logoff
    } else if str_eq(c, "SLEEP") {
        CommandAction::Sleep
    } else if str_eq(c, "MESSAGE") {
        let message = match &payload.payload {
            Some(args) => match args.get_str("message") {
                Some(m) => m.clone(),
                None => "No message".to_owned(),
            },
            None => "No message".to_owned(),
        };
        let title = match &payload.payload {
            Some(args) => match args.get_str("title") {
                Some(t) => t.clone(),
                None => "Message".to_owned(),
            },
            None => "Message".to_owned(),
        };
        CommandAction::ShowMessage { title, message }
    } else if str_eq(c, "EXECUTE") {
        let cmd = match &payload.payload {
            Some(args) => match args.get_str("command") {
                Some(s) => Some(s.clone()),
                None => None,
            },
            None => None,
        };
        match cmd {
            Some(command_line) => CommandAction::Execute { command_line },
            None => CommandAction::Invalid { reason: "No command provided".to_owned() },
        }
    } else if str_eq(c, "KILL_PROCESS") {
        let pid = match &payload.payload {
            Some(args) => args.get_u64("processId"),
            None => None,
        };
        match pid {
            Some(n) => CommandAction::KillProcess {
                process_id: #[verifier::truncate] (n as u32),
            },
            None => CommandAction::Invalid { reason: "No process ID provided".to_owned() },
        }
    } else {
        let mut reason = "Unknown command: ".to_owned();
        reason.append(payload.command.as_str());
        CommandAction::Invalid { reason }
    }
}

/// Whether an action is performed by launching an OS task whose start is
/// the whole outcome (locking, power actions, showing a dialog).
pub open spec fn is_spawn_action(a: CommandAction) -> bool {
    ||| a == CommandAction::Lock
    ||| a == CommandAction::Shutdown
    ||| a == CommandAction::Restart
    ||| a == CommandAction::Logoff
    ||| a == CommandAction::Sleep
    ||| a matches CommandAction::ShowMessage { .. }
}

/// The success text owed when a spawned action launched.
pub open spec fn spawn_success_text(a: CommandAction) -> Seq<char> {
    match a {
        CommandAction::Lock => "Screen locked"@,
        CommandAction::Shutdown => "Shutdown initiated"@,
        CommandAction::Restart => "Restart initiated"@,
        CommandAction::Logoff => "Logoff initiated"@,
        CommandAction::Sleep => "Sleep initiated"@,
        _ => "Message displayed"@,
    }
}

/// The error prefix owed when a spawned action failed to launch.
pub open spec fn spawn_failure_prefix(a: CommandAction) -> Seq<char> {
    match a {
        CommandAction::Lock => "Failed to lock screen: "@,
        CommandAction::Shutdown => "Failed to shutdown: "@,
        CommandAction::Restart => "Failed to restart: "@,
        CommandAction::Logoff => "Failed to logoff: "@,
        CommandAction::Sleep => "Failed to sleep: "@,
        _ => "Failed to show message: "@,
    }
}

/// Whether launching the OS task for a spawned action worked.
pub enum SpawnOutcome {
    /// The task was launched.
    Launched,
    /// Launching failed, with this error text.
    Failed(String),
}

/// Builds the one response for a spawned action from its launch outcome.
pub fn spawn_response(
    pending: PendingCommand,
    action: &CommandAction,
    outcome: SpawnOutcome,
) -> (r: CommandResponse)
    requires
        is_spawn_action(*action),
    ensures
        r.id@ == pending.spec_id(),
        match outcome {
            SpawnOutcome::Launched => r.success
                && r.error is None
                && (r.output matches Some(o) && o@ == spawn_success_text(*action)),
            SpawnOutcome::Failed(e) => !r.success
                && r.output is None
                && (r.error matches Some(t) && t@ == spawn_failure_prefix(*action) + e@),
        },
{
    let ok_text: &str = match action {
        CommandAction::Lock => "Screen locked",
        CommandAction::Shutdown => "Shutdown initiated",
        CommandAction::Restart => "Restart initiated",
        CommandAction::Logoff => "Logoff initiated",
        CommandAction::Sleep => "Sleep initiated",
        _ => "Message displayed",
    };
    let fail_prefix: &str = match action {
        CommandAction::Lock => "Failed to lock screen: ",
        CommandAction::Shutdown => "Failed to shutdown: ",
        CommandAction::Restart => "Failed to restart: ",
        CommandAction::Logoff => "Failed to logoff: ",
        CommandAction::Sleep => "Failed to sleep: ",
        _ => "Failed to show message: ",
    };
    match outcome {
        SpawnOutcome::Launched => pending.respond(true, Some(ok_text.to_owned()), None),
        SpawnOutcome::Failed(e) => {
            let mut t = fail_prefix.to_owned();
            t.append(e.as_str());
            pending.respond(false, None, Some(t))
        },
    }
}

/// The immediate response for an action that needs no OS work: unlocking
/// (which requires user interaction) and invalid commands. Every other
/// action owes its response to an outcome and yields nothing here.
pub fn immediate_response(action: &CommandAction) -> (r: Option<(bool, String)>)
    ensures
        match r {
            Some(p) => match action {
                CommandAction::Unlock => p.0
                    && p.1@ == "Unlock command received (requires user interaction)"@,
                CommandAction::Invalid { reason } => !p.0 && p.1@ == reason@,
                _ => false,
            },
            None => !(*action matches CommandAction::Unlock)
                && !(*action matches CommandAction::Invalid { .. }),
        },
{
    match action {
        CommandAction::Unlock => Some(
            (true, "Unlock command received (requires user interaction)".to_owned()),
        ),
        CommandAction::Invalid { reason } => Some((false, reason.clone())),
        _ => None,
    }
}

/// What a completed command line reported back.
pub struct ExecOutput {
    /// Whether the exit status was success.
    pub success: bool,
    /// Captured standard output.
    pub stdout: String,
    /// Captured standard error.
    pub stderr: String,
    /// The exit code, when the process was not ended by a signal.
    pub exit_code: Option<i64>,
}

/// Builds the one response for an executed command line: its output on
/// success; its standard error — or its exit code when that is empty — on
/// failure; the launch error when it could not run at all.
pub fn exec_response(pending: PendingCommand, run: Result<ExecOutput, String>) -> (r:
    CommandResponse)
    ensures
        r.id@ == pending.spec_id(),
        match run {
            Ok(out) => {
                if out.success {
                    r.success && r.error is None && (r.output matches Some(o) && o@ == (
                    if out.stdout@.len() == 0 {
                        "Command executed successfully"@
                    } else {
                        out.stdout@
                    }))
                } else {
                    !r.success && (r.output matches Some(o) && o@ == out.stdout@)
                        && (r.error matches Some(t) && t@ == (if out.stderr@.len() == 0 {
                        "Command failed with exit code: "@ + (match out.exit_code {
                            Some(c) => dec_of_int(c as int),
                            None => "unknown"@,
                        })
                    } else {
                        out.stderr@
                    }))
                }
            },
            Err(e) => !r.success && r.output is None
                && (r.error matches Some(t) && t@ == "Failed to execute command: "@ + e@),
        },
{
    match run {
        Ok(out) => {
            if out.success {
                let o = if out.stdout.as_str().is_empty() {
                    "Command executed successfully".to_owned()
                } else {
                    out.stdout
                };
                pending.respond(true, Some(o), None)
            } else {
                let t = if out.stderr.as_str().is_empty() {
                    let mut t = "Command failed with exit code: ".to_owned();
                    match out.exit_code {
                        Some(c) => t.append(i64_to_string(c).as_str()),
                        None => t.append("unknown"),
                    }
                    t
                } else {
                    out.stderr
                };
                pending.respond(false, Some(out.stdout), Some(t))
            }
        },
        Err(e) => {
            let mut t = "Failed to execute command: ".to_owned();
            t.append(e.as_str());
            pending.respond(false, None, Some(t))
        },
    }
}

/// What a process-termination attempt reported back.
pub struct KillOutput {
    /// Whether the termination tool exited successfully.
    pub success: bool,
    /// Its captured standard error.
    pub stderr: String,
}

/// Builds the one response for a process termination.
pub fn kill_response(
    pending: PendingCommand,
    process_id: u32,
    run: Result<KillOutput, String>,
) -> (r: CommandResponse)
    ensures
        r.id@ == pending.spec_id(),
        match run {
            Ok(out) => {
                if out.success {
                    r.success && r.error is None && (r.output matches Some(o)
                        && o@ == "Process "@ + dec_of(process_id as nat) + " terminated"@)
                } else {
                    !r.success && r.output is None && (r.error matches Some(t)
                        && t@ == "Failed to kill process: "@ + out.stderr@)
                }
            },
            Err(e) => !r.success && r.output is None
                && (r.error matches Some(t) && t@ == "Failed to kill process: "@ + e@),
        },
{
    match run {
        Ok(out) => {
            if out.success {
                let mut o = "Process ".to_owned();
                o.append(u64_to_string(process_id as u64).as_str());
                o.append(" terminated");
                pending.respond(true, Some(o), None)
            } else {
                let mut t = "Failed to kill process: ".to_owned();
                t.append(out.stderr.as_str());
                pending.respond(false, None, Some(t))
            }
        },
        Err(e) => {
            let mut t = "Failed to kill process: ".to_owned();
            t.append(e.as_str());
            pending.respond(false, None, Some(t))
        },
    }
}

} // verus!
