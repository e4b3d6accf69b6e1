//! Command decoding, decisions, correlation and responses.

use netwatch_agent::command::{
    exec_response, immediate_response, kill_response, spawn_response, ArgValue, CommandAction,
    CommandArgs, CommandPayload, Commands, ExecOutput, KillOutput, SpawnOutcome,
};
use netwatch_agent::errors::{guard_send, SendError};
use netwatch_agent::state::ConnectionState;

fn payload(id: &str, command: &str, args: Option<CommandArgs>) -> CommandPayload {
    CommandPayload {
        id: String::from(id),
        command: String::from(command),
        payload: args,
    }
}

#[test]
fn lock_command_answers_exactly_once() {
    let commands = Commands::new();
    let (pending, action) = commands.accept(payload("abc123", "LOCK", None), String::from("command"), 60_000);
    assert_eq!(pending.id(), "abc123");
    assert!(matches!(action, CommandAction::Lock));
    // The lock operation may retry internally; its one reported outcome
    // yields the one response, and `pending` is consumed building it.
    let response = spawn_response(pending, &action, SpawnOutcome::Launched);
    assert_eq!(response.id, "abc123");
    assert!(response.success);
    assert_eq!(response.output.as_deref(), Some("Screen locked"));
    assert_eq!(response.error, None);
}

#[test]
fn failed_lock_reports_the_error() {
    let commands = Commands::new();
    let (pending, action) = commands.accept(payload("id-1", "LOCK", None), String::from("command"), 0);
    let response = spawn_response(
        pending,
        &action,
        SpawnOutcome::Failed(String::from("no session")),
    );
    assert!(!response.success);
    assert_eq!(response.output, None);
    assert_eq!(response.error.as_deref(), Some("Failed to lock screen: no session"));
}

#[test]
fn unlock_is_answered_immediately() {
    let commands = Commands::new();
    let (pending, action) = commands.accept(payload("id-2", "UNLOCK", None), String::from("command"), 0);
    let (success, text) = immediate_response(&action).expect("unlock needs no OS work");
    assert!(success);
    assert_eq!(text, "Unlock command received (requires user interaction)");
    let response = pending.respond(success, Some(text), None);
    assert_eq!(response.id, "id-2");
    assert!(response.success);
}

#[test]
fn power_commands_map_to_their_actions() {
    let commands = Commands::new();
    let (_, a) = commands.accept(payload("x", "SHUTDOWN", None), String::new(), 0);
    assert!(matches!(a, CommandAction::Shutdown));
    let (_, a) = commands.accept(payload("x", "RESTART", None), String::new(), 0);
    assert!(matches!(a, CommandAction::Restart));
    let (_, a) = commands.accept(payload("x", "LOGOFF", None), String::new(), 0);
    assert!(matches!(a, CommandAction::Logoff));
    let (_, a) = commands.accept(payload("x", "SLEEP", None), String::new(), 0);
    assert!(matches!(a, CommandAction::Sleep));
}

#[test]
fn message_command_takes_its_arguments_with_defaults() {
    let commands = Commands::new();
    let mut args = CommandArgs::new();
    args.insert(String::from("message"), ArgValue::Text(String::from("hello")));
    args.insert(String::from("title"), ArgValue::Text(String::from("Notice")));
    let (_, action) = commands.accept(payload("m1", "MESSAGE", Some(args)), String::new(), 0);
    match action {
        CommandAction::ShowMessage { title, message } => {
            assert_eq!(title, "Notice");
            assert_eq!(message, "hello");
        }
        _ => panic!("MESSAGE decides a dialog"),
    }

    let (_, action) = commands.accept(payload("m2", "MESSAGE", None), String::new(), 0);
    match action {
        CommandAction::ShowMessage { title, message } => {
            assert_eq!(title, "Message");
            assert_eq!(message, "No message");
        }
        _ => panic!("MESSAGE without arguments uses the defaults"),
    }
}

#[test]
fn execute_requires_a_command_argument() {
    let commands = Commands::new();
    let mut args = CommandArgs::new();
    args.insert(String::from("command"), ArgValue::Text(String::from("uptime")));
    let (_, action) = commands.accept(payload("e1", "EXECUTE", Some(args)), String::new(), 0);
    match action {
        CommandAction::Execute { command_line } => assert_eq!(command_line, "uptime"),
        _ => panic!("EXECUTE with a command decides a run"),
    }

    let (pending, action) = commands.accept(payload("e2", "EXECUTE", None), String::new(), 0);
    match &action {
        CommandAction::Invalid { reason } => assert_eq!(reason, "No command provided"),
        _ => panic!("EXECUTE without a command is invalid"),
    }
    let (success, text) = immediate_response(&action).expect("invalid commands answer at once");
    let response = pending.respond(success, None, Some(text));
    assert!(!response.success);
    assert_eq!(response.error.as_deref(), Some("No command provided"));
}

#[test]
fn kill_process_requires_a_numeric_id() {
    let commands = Commands::new();
    let mut args = CommandArgs::new();
    args.insert(String::from("processId"), ArgValue::Number(4242));
    let (_, action) = commands.accept(payload("k1", "KILL_PROCESS", Some(args)), String::new(), 0);
    match action {
        CommandAction::KillProcess { process_id } => assert_eq!(process_id, 4242),
        _ => panic!("KILL_PROCESS with an id decides a termination"),
    }

    let (_, action) = commands.accept(payload("k2", "KILL_PROCESS", None), String::new(), 0);
    match action {
        CommandAction::Invalid { reason } => assert_eq!(reason, "No process ID provided"),
        _ => panic!("KILL_PROCESS without an id is invalid"),
    }
}

#[test]
fn unknown_commands_are_rejected_with_their_name() {
    let commands = Commands::new();
    let (pending, action) = commands.accept(payload("u1", "FROBNICATE", None), String::new(), 0);
    match &action {
        CommandAction::Invalid { reason } => assert_eq!(reason, "Unknown command: FROBNICATE"),
        _ => panic!("unknown names are invalid"),
    }
    let (success, text) = immediate_response(&action).expect("invalid commands answer at once");
    assert!(!success);
    let response = pending.respond(success, None, Some(text));
    assert_eq!(response.error.as_deref(), Some("Unknown command: FROBNICATE"));
}

#[test]
fn executed_output_is_reported() {
    let commands = Commands::new();
    let (pending, _) = commands.accept(payload("e3", "EXECUTE", None), String::new(), 0);
    let run = Ok(ExecOutput {
        success: true,
        stdout: String::from("12:00 up 3 days"),
        stderr: String::new(),
        exit_code: Some(0),
    });
    let response = exec_response(pending, run);
    assert!(response.success);
    assert_eq!(response.output.as_deref(), Some("12:00 up 3 days"));
    assert_eq!(response.error, None);
}

#[test]
fn executed_silence_and_failures_get_their_texts() {
    let commands = Commands::new();
    let (pending, _) = commands.accept(payload("e4", "EXECUTE", None), String::new(), 0);
    let run = Ok(ExecOutput {
        success: true,
        stdout: String::new(),
        stderr: String::new(),
        exit_code: Some(0),
    });
    let response = exec_response(pending, run);
    assert_eq!(response.output.as_deref(), Some("Command executed successfully"));

    let (pending, _) = commands.accept(payload("e5", "EXECUTE", None), String::new(), 0);
    let run = Ok(ExecOutput {
        success: false,
        stdout: String::from("partial"),
        stderr: String::new(),
        exit_code: Some(3),
    });
    let response = exec_response(pending, run);
    assert!(!response.success);
    assert_eq!(response.output.as_deref(), Some("partial"));
    assert_eq!(
        response.error.as_deref(),
        Some("Command failed with exit code: 3")
    );

    let (pending, _) = commands.accept(payload("e6", "EXECUTE", None), String::new(), 0);
    let response = exec_response(pending, Err(String::from("spawn refused")));
    assert_eq!(
        response.error.as_deref(),
        Some("Failed to execute command: spawn refused")
    );
}

#[test]
fn kill_outcomes_get_their_texts() {
    let commands = Commands::new();
    let (pending, _) = commands.accept(payload("k3", "KILL_PROCESS", None), String::new(), 0);
    let run = Ok(KillOutput { success: true, stderr: String::new() });
    let response = kill_response(pending, 4242, run);
    assert!(response.success);
    assert_eq!(response.output.as_deref(), Some("Process 4242 terminated"));

    let (pending, _) = commands.accept(payload("k4", "KILL_PROCESS", None), String::new(), 0);
    let run = Ok(KillOutput { success: false, stderr: String::from("no such process") });
    let response = kill_response(pending, 4242, run);
    assert!(!response.success);
    assert_eq!(
        response.error.as_deref(),
        Some("Failed to kill process: no such process")
    );
}

#[test]
fn expired_commands_are_dropped() {
    let commands = Commands::new();
    let (pending, _) = commands.accept(payload("t1", "LOCK", None), String::from("command"), 5_000);
    assert!(!pending.expired(5_000));
    assert!(pending.expired(5_001));
}

#[test]
fn sends_are_guarded_by_the_connection_state() {
    assert_eq!(guard_send(ConnectionState::Connected), Ok(()));
    assert_eq!(guard_send(ConnectionState::Authenticated), Ok(()));
    assert_eq!(guard_send(ConnectionState::Disconnected), Err(SendError::NotConnected));
    assert_eq!(guard_send(ConnectionState::Connecting), Err(SendError::NotConnected));
    assert_eq!(guard_send(ConnectionState::Reconnecting), Err(SendError::NotConnected));
    assert_eq!(guard_send(ConnectionState::Closed), Err(SendError::NotConnected));
}
