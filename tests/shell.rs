use mini_shell::{
    split_tokens, write_output, Command, InputState, InterruptAction, IoState, Phase,
    ProcessSlot, Request, ShellError, ShellLoop, ShellState, UserInput, WriteOutputError,
};

const HELP: &str = "\n                            This is a simple shell.\n                            Available commands:\n                            help - Show this help message\n                            exit - Exit the shell\n                        ";
const LOGOUT: &str = "CTRL-D detected. Logging you out...\n";

fn words(v: &[&str]) -> Vec<String> {
    v.iter().map(|s| s.to_string()).collect()
}

fn started() -> ShellLoop {
    let mut shell = ShellLoop::new(UserInput::new());
    let effect = shell.start();
    assert_eq!(effect.output, "-> ");
    assert!(matches!(effect.request, Request::ReadLine));
    shell
}

fn line(text: &str) -> Option<String> {
    Some(text.to_string())
}

#[test]
fn tokens_drop_surrounding_and_repeated_whitespace() {
    assert_eq!(split_tokens("  ls   -la \t /tmp \n"), words(&["ls", "-la", "/tmp"]));
}

#[test]
fn tokens_split_on_unicode_whitespace() {
    assert_eq!(split_tokens("a\u{3000}b\u{a0}c"), words(&["a", "b", "c"]));
    assert_eq!(split_tokens("héllo wörld"), words(&["héllo", "wörld"]));
}

#[test]
fn tokens_of_empty_and_blank_lines() {
    assert!(split_tokens("").is_empty());
    assert!(split_tokens(" \t\r\n").is_empty());
}

#[test]
fn read_failure_means_exiting() {
    let mut input = UserInput::new();
    let (tokens, state) = input.process_input(None);
    assert!(tokens.is_none());
    assert_eq!(state, InputState::Exiting);
}

#[test]
fn zero_byte_read_means_exiting() {
    let mut input = UserInput::new();
    let (tokens, state) = input.process_input(line(""));
    assert!(tokens.is_none());
    assert_eq!(state, InputState::Exiting);
}

#[test]
fn blank_line_is_empty() {
    let mut input = UserInput::new();
    let (tokens, state) = input.process_input(line("   \t \n"));
    assert_eq!(tokens, Some(Vec::new()));
    assert_eq!(state, InputState::Empty);
    let (tokens, state) = input.process_input(line("\n"));
    assert_eq!(tokens, Some(Vec::new()));
    assert_eq!(state, InputState::Empty);
}

#[test]
fn line_with_words_is_valid() {
    let mut input = UserInput::new();
    let (tokens, state) = input.process_input(line("echo hello\n"));
    assert_eq!(tokens, Some(words(&["echo", "hello"])));
    assert_eq!(state, InputState::Valid);
}

#[test]
fn blank_line_prompts_again_without_dispatch() {
    let mut shell = started();
    let effect = shell.line_read(line("    \n"));
    assert_eq!(effect.output, "-> ");
    assert!(matches!(effect.request, Request::ReadLine));
    assert_eq!(shell.phase(), Phase::Reading);
    assert_eq!(shell.shell_state(), ShellState::Running);
}

#[test]
fn exit_ends_the_shell() {
    let mut shell = started();
    let effect = shell.line_read(line("exit\n"));
    assert_eq!(effect.output, "");
    assert!(matches!(effect.request, Request::Stop));
    assert_eq!(shell.shell_state(), ShellState::Exiting);
}

#[test]
fn exit_with_whitespace_and_extra_tokens_ends_the_shell() {
    let mut shell = started();
    let effect = shell.line_read(line("   exit  now please \n"));
    assert_eq!(effect.output, "");
    assert!(matches!(effect.request, Request::Stop));
    assert_eq!(shell.phase(), Phase::Finished);
    assert_eq!(shell.shell_state(), ShellState::Exiting);
}

#[test]
fn help_writes_the_usage_text() {
    let mut shell = started();
    let effect = shell.line_read(line("help\n"));
    assert_eq!(effect.output, format!("{}-> ", HELP));
    assert!(matches!(effect.request, Request::ReadLine));
    assert_eq!(shell.shell_state(), ShellState::Running);
}

#[test]
fn other_command_asks_for_a_spawn() {
    let mut shell = started();
    let effect = shell.line_read(line("echo hello\n"));
    assert_eq!(effect.output, "");
    match effect.request {
        Request::Spawn { program, args } => {
            assert_eq!(program, "echo");
            assert_eq!(args, words(&["hello"]));
        }
        _ => panic!("expected a spawn request"),
    }
    assert_eq!(shell.phase(), Phase::Spawning);
}

#[test]
fn child_runs_then_slot_is_empty_again() {
    let mut shell = started();
    let mut slot: ProcessSlot<u32> = ProcessSlot::new();
    shell.line_read(line("echo hello\n"));
    let effect = shell.spawned(&mut slot, 41);
    assert_eq!(effect.output, "");
    assert!(matches!(effect.request, Request::AwaitChild));
    assert!(slot.is_occupied());
    assert_eq!(shell.phase(), Phase::Waiting);
    let (effect, reaped) = shell.child_exited(&mut slot, None);
    assert_eq!(reaped, Some(41));
    assert!(!slot.is_occupied());
    assert_eq!(effect.output, "-> ");
    assert!(matches!(effect.request, Request::ReadLine));
    assert_eq!(shell.shell_state(), ShellState::Running);
}

#[test]
fn failed_wait_is_reported_and_slot_cleared() {
    let mut shell = started();
    let mut slot: ProcessSlot<u32> = ProcessSlot::new();
    shell.line_read(line("sleep 10\n"));
    shell.spawned(&mut slot, 3);
    let error = ShellError::SignalError("no child".to_string());
    let (effect, reaped) = shell.child_exited(&mut slot, Some(error));
    assert_eq!(reaped, Some(3));
    assert!(!slot.is_occupied());
    assert_eq!(
        effect.output,
        "Failed to wait for child process: Signal error: no child\n-> "
    );
}

#[test]
fn unknown_program_is_reported_and_shell_runs_on() {
    let mut shell = started();
    let slot: ProcessSlot<u32> = ProcessSlot::new();
    shell.line_read(line("not_a_real_binary_xyz\n"));
    let error = ShellError::SignalError("No such file or directory (os error 2)".to_string());
    let effect = shell.spawn_failed(&error);
    assert_eq!(
        effect.output,
        "Failed to execute command: Signal error: No such file or directory (os error 2)\n-> "
    );
    assert!(matches!(effect.request, Request::ReadLine));
    assert!(!slot.is_occupied());
    assert_eq!(shell.shell_state(), ShellState::Running);
}

#[test]
fn interrupt_while_child_runs_terminates_it() {
    let mut shell = started();
    let mut slot: ProcessSlot<u32> = ProcessSlot::new();
    shell.line_read(line("sleep 100\n"));
    shell.spawned(&mut slot, 9);
    let action = slot.on_interrupt();
    assert_eq!(action, InterruptAction::Terminate);
    assert_eq!(action.message(), "CTRL-C detected. Terminating active task.\n");
    assert!(slot.is_occupied());
    let (_, reaped) = shell.child_exited(&mut slot, None);
    assert_eq!(reaped, Some(9));
    assert!(!slot.is_occupied());
}

#[test]
fn interrupt_without_child_only_reprompts() {
    let slot: ProcessSlot<u32> = ProcessSlot::new();
    let first = slot.on_interrupt();
    let second = slot.on_interrupt();
    assert_eq!(first, InterruptAction::Reprompt);
    assert_eq!(second, InterruptAction::Reprompt);
    assert_eq!(first.message(), "\n-> ");
    assert!(!slot.is_occupied());
}

#[test]
fn handle_in_slot_can_be_changed_in_place() {
    let mut slot: ProcessSlot<u32> = ProcessSlot::new();
    assert!(slot.handle_mut().is_none());
    let mut shell = started();
    shell.line_read(line("cat\n"));
    shell.spawned(&mut slot, 5);
    if let Some(handle) = slot.handle_mut() {
        *handle = 6;
    }
    let (_, reaped) = shell.child_exited(&mut slot, None);
    assert_eq!(reaped, Some(6));
}

#[test]
fn end_of_input_logs_out_once_after_commands() {
    let mut shell = started();
    let mut slot: ProcessSlot<u32> = ProcessSlot::new();
    let mut transcript = String::new();
    transcript.push_str(&shell.line_read(line("help\n")).output);
    transcript.push_str(&shell.line_read(line("\n")).output);
    transcript.push_str(&shell.line_read(line("ls -l\n")).output);
    transcript.push_str(&shell.spawned(&mut slot, 1).output);
    transcript.push_str(&shell.child_exited(&mut slot, None).0.output);
    let last = shell.line_read(line(""));
    assert_eq!(last.output, LOGOUT);
    assert!(matches!(last.request, Request::Stop));
    assert!(!transcript.contains(LOGOUT));
    assert_eq!(shell.shell_state(), ShellState::Exiting);
}

#[test]
fn read_failure_logs_out() {
    let mut shell = started();
    let effect = shell.line_read(None);
    assert_eq!(effect.output, LOGOUT);
    assert!(matches!(effect.request, Request::Stop));
    assert_eq!(shell.phase(), Phase::Finished);
}

#[test]
fn command_from_tokens() {
    assert!(matches!(Command::from_tokens(words(&["help", "me"])), Command::Help));
    assert!(matches!(Command::from_tokens(words(&["exit"])), Command::Exit));
    match Command::from_tokens(words(&["ls", "-a", "b"])) {
        Command::External { program, args } => {
            assert_eq!(program, "ls");
            assert_eq!(args, words(&["-a", "b"]));
        }
        _ => panic!("expected an external command"),
    }
    assert!(matches!(
        Command::from_tokens(words(&["helper"])),
        Command::External { .. }
    ));
}

#[test]
fn write_output_plain_and_with_detail() {
    let mut pending = String::from("x");
    assert_eq!(write_output("-> ", &mut pending), IoState::Written);
    assert_eq!(pending, "x-> ");
    let mut pending = String::new();
    assert_eq!(
        write_output(("Failed to kill child process", "gone"), &mut pending),
        IoState::Written
    );
    assert_eq!(pending, "Failed to kill child process: gone\n");
}

#[test]
fn flush_outcome_maps_to_io_state() {
    assert_eq!(IoState::from_flush(true), IoState::Written);
    assert_eq!(
        IoState::from_flush(false),
        IoState::Error(WriteOutputError::WriteError)
    );
}

#[test]
fn shell_error_messages() {
    assert_eq!(ShellError::LockError("busy".to_string()).message(), "Lock error: busy");
    assert_eq!(ShellError::SignalError("x".to_string()).message(), "Signal error: x");
    let error: ShellError = WriteOutputError::WriteError.into();
    assert!(matches!(error, ShellError::WriteError(WriteOutputError::WriteError)));
    assert_eq!(error.message(), "Write error: WriteError");
}
