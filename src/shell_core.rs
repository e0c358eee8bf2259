//! The shell's decisions: what a line of input means, and how the loop moves
//! from reading, to running a child, to waiting for it, to the end.
//!
//! The loop is a state machine. `next` says, for a phase and an event, what
//! the loop writes, what it asks its driver to do, and how the process slot
//! changes; each step of `ShellLoop` is held to it.
use vstd::prelude::*;
use crate::input_handler::{UserInput, InputState, input_state_of, read_view, tokens_of, views_of};
use crate::process_slot::ProcessSlot;
use crate::utils::{WriteOutputError, prompt, prompt_text, write_output};

verus! {

/// Whether the shell goes on after a command.
#[derive(PartialEq, Eq, Structural, Clone, Copy, Debug)]
pub enum ShellState {
    Running,
    Exiting,
}

/// A failure that the shell reports and then survives.
#[derive(Debug)]
pub enum ShellError {
    WriteError(WriteOutputError),
    LockError(String),
    SignalError(String),
}

impl ShellError {
    /// The text that describes the failure.
    pub open spec fn description(&self) -> Seq<char> {
        match self {
            ShellError::WriteError(_) => "Write error: WriteError"@,
            ShellError::LockError(detail) => "Lock error: "@ + detail@,
            ShellError::SignalError(detail) => "Signal error: "@ + detail@,
        }
    }

    /// Describes the failure in words.
    pub fn message(&self) -> (r: String)
        ensures
            r@ == self.description(),
    {
        match self {
            ShellError::WriteError(_) => String::from_str("Write error: WriteError"),
            ShellError::LockError(detail) => String::from_str("Lock error: ").concat(detail.as_str()),
            ShellError::SignalError(detail) => String::from_str("Signal error: ").concat(
                detail.as_str(),
            ),
        }
    }
}

impl From<WriteOutputError> for ShellError {
    fn from(error: WriteOutputError) -> Self {
        ShellError::WriteError(error)
    }
}

impl vstd::std_specs::convert::FromSpecImpl<WriteOutputError> for ShellError {
    open spec fn obeys_from_spec() -> bool {
        true
    }

    open spec fn from_spec(v: WriteOutputError) -> ShellError {
        ShellError::WriteError(v)
    }
}

/// The usage text that `help` writes.
pub open spec fn help_text() -> Seq<char> {
    "\n                            This is a simple shell.\n                            Available commands:\n                            help - Show this help message\n                            exit - Exit the shell\n                        "@
}

/// The message written when the input ends.
pub open spec fn logout_text() -> Seq<char> {
    "CTRL-D detected. Logging you out...\n"@
}

/// The report of a program that could not be started.
pub open spec fn spawn_failure_text(detail: Seq<char>) -> Seq<char> {
    "Failed to execute command"@ + ": "@ + detail + "\n"@
}

/// The report of a wait on a child that failed.
pub open spec fn wait_failure_text(detail: Seq<char>) -> Seq<char> {
    "Failed to wait for child process"@ + ": "@ + detail + "\n"@
}

fn help_message() -> (r: &'static str)
    ensures
        r@ == help_text(),
{
    "\n                            This is a simple shell.\n                            Available commands:\n                            help - Show this help message\n                            exit - Exit the shell\n                        "
}

fn logout_message() -> (r: &'static str)
    ensures
        r@ == logout_text(),
{
    "CTRL-D detected. Logging you out...\n"
}

/// Tells whether two texts hold the same characters.
fn same_text(a: &str, b: &str) -> (r: bool)
    ensures
        r == (a@ == b@),
{
    let n = a.unicode_len();
    if n != b.unicode_len() {
        return false;
    }
    let mut i: usize = 0;
    while i < n
        invariant
            n == a@.len(),
            n == b@.len(),
            i <= n,
            a@.take(i as int) == b@.take(i as int),
        decreases n - i,
    {
        if a.get_char(i) != b.get_char(i) {
            return false;
        }
        assert(a@.take(i + 1) == a@.take(i as int).push(a@[i as int]));
        assert(b@.take(i + 1) == b@.take(i as int).push(b@[i as int]));
        i = i + 1;
    }
    assert(a@ == a@.take(n as int));
    assert(b@ == b@.take(n as int));
    true
}

/// What the dispatcher makes of a line with at least one token.
pub enum Command {
    /// Write the usage text.
    Help,
    /// Leave the shell.
    Exit,
    /// Run `program` with `args`, the child sharing the shell's streams.
    External { program: String, args: Vec<String> },
}

/// Whether a token list names the `help` built-in.
pub open spec fn names_help(tokens: Seq<Seq<char>>) -> bool {
    tokens[0] == "help"@
}

/// Whether a token list names the `exit` built-in.
pub open spec fn names_exit(tokens: Seq<Seq<char>>) -> bool {
    tokens[0] == "exit"@
}

impl Command {
    /// Reads a command from its tokens: the first names it, the rest are
    /// its arguments.
    pub fn from_tokens(tokens: Vec<String>) -> (r: Command)
        requires
            tokens.len() > 0,
        ensures
            names_help(views_of(tokens@)) ==> r is Help,
            names_exit(views_of(tokens@)) ==> r is Exit,
            !names_help(views_of(tokens@)) && !names_exit(views_of(tokens@)) ==> (r matches Command::External { program, args } && program@ == tokens@[0]@ && views_of(args@) == views_of(tokens@).drop_first()),
    {
        let mut args = tokens;
        let ghost all = args@;
        proof {
            reveal_strlit("help");
            reveal_strlit("exit");
            assert("help"@[0] != "exit"@[0]);
        }
        if same_text(args[0].as_str(), "help") {
            return Command::Help;
        }
        if same_text(args[0].as_str(), "exit") {
            return Command::Exit;
        }
        let program = args.remove(0);
        assert(views_of(args@) =~= views_of(all).drop_first());
        Command::External { program, args }
    }
}

/// Where the shell loop stands.
#[derive(PartialEq, Eq, Structural, Clone, Copy, Debug)]
pub enum Phase {
    /// Not started: nothing written yet.
    Idle,
    /// The prompt is out; a line is awaited.
    Reading,
    /// A program was named; the driver is starting it.
    Spawning,
    /// A child runs and sits in the process slot.
    Waiting,
    /// The shell has ended.
    Finished,
}

/// The shell state that a phase stands for.
pub open spec fn state_of(phase: Phase) -> ShellState {
    if phase == Phase::Finished {
        ShellState::Exiting
    } else {
        ShellState::Running
    }
}

/// What happens to the loop, as the contracts speak of it.
pub enum Event {
    /// The shell starts.
    Start,
    /// A read attempt ended: `None` for a failed read, an empty text at the
    /// end of the input.
    Line(Option<Seq<char>>),
    /// The named program could not be started; the text describes why.
    SpawnFailed(Seq<char>),
    /// The named program was started.
    Spawned,
    /// The wait on the child ended: `None` when the child exited, else a
    /// description of why the wait failed.
    Exited(Option<Seq<char>>),
}

/// What the loop asks its driver to do next, as the contracts speak of it.
pub enum RequestView {
    ReadLine,
    Spawn(Seq<char>, Seq<Seq<char>>),
    AwaitChild,
    Stop,
}

/// What the loop asks its driver to do next.
pub enum Request {
    /// Read one line of input.
    ReadLine,
    /// Start `program` with `args`, the child sharing the shell's streams.
    Spawn { program: String, args: Vec<String> },
    /// Wait until the child in the process slot exits.
    AwaitChild,
    /// End the shell.
    Stop,
}

impl View for Request {
    type V = RequestView;

    open spec fn view(&self) -> RequestView {
        match self {
            Request::ReadLine => RequestView::ReadLine,
            Request::Spawn { program, args } => RequestView::Spawn(program@, views_of(args@)),
            Request::AwaitChild => RequestView::AwaitChild,
            Request::Stop => RequestView::Stop,
        }
    }
}

/// How a step changes the process slot.
#[derive(PartialEq, Eq, Structural, Clone, Copy, Debug)]
pub enum SlotChange {
    Keep,
    Fill,
    Clear,
}

/// The result of one step: the next phase, what is written, what the driver
/// is asked to do, and what becomes of the process slot.
pub struct Outcome {
    pub phase: Phase,
    pub output: Seq<char>,
    pub request: RequestView,
    pub slot: SlotChange,
}

/// Whether the loop takes `event` in `phase`.
pub open spec fn accepts(phase: Phase, event: Event) -> bool {
    match event {
        Event::Start => phase == Phase::Idle,
        Event::Line(_) => phase == Phase::Reading,
        Event::SpawnFailed(_) => phase == Phase::Spawning,
        Event::Spawned => phase == Phase::Spawning,
        Event::Exited(_) => phase == Phase::Waiting,
    }
}

/// Back to the prompt, after writing `output` first.
pub open spec fn reprompt(output: Seq<char>) -> Outcome {
    Outcome {
        phase: Phase::Reading,
        output: output + prompt_text(),
        request: RequestView::ReadLine,
        slot: SlotChange::Keep,
    }
}

/// The step for a line with at least one token.
pub open spec fn dispatch_outcome(tokens: Seq<Seq<char>>) -> Outcome {
    if names_help(tokens) {
        reprompt(help_text())
    } else if names_exit(tokens) {
        Outcome {
            phase: Phase::Finished,
            output: Seq::empty(),
            request: RequestView::Stop,
            slot: SlotChange::Keep,
        }
    } else {
        Outcome {
            phase: Phase::Spawning,
            output: Seq::empty(),
            request: RequestView::Spawn(tokens[0], tokens.drop_first()),
            slot: SlotChange::Keep,
        }
    }
}

/// The step for a read attempt.
pub open spec fn line_outcome(read: Option<Seq<char>>) -> Outcome {
    match input_state_of(read) {
        InputState::Exiting => Outcome {
            phase: Phase::Finished,
            output: logout_text(),
            request: RequestView::Stop,
            slot: SlotChange::Keep,
        },
        InputState::Empty => reprompt(Seq::empty()),
        InputState::Valid => dispatch_outcome(tokens_of(read->0)),
    }
}

/// The step that the loop takes on `event`, where it accepts it.
pub open spec fn next(phase: Phase, event: Event) -> Outcome {
    match event {
        Event::Start => reprompt(Seq::empty()),
        Event::Line(read) => line_outcome(read),
        Event::SpawnFailed(detail) => reprompt(spawn_failure_text(detail)),
        Event::Spawned => Outcome {
            phase: Phase::Waiting,
            output: Seq::empty(),
            request: RequestView::AwaitChild,
            slot: SlotChange::Fill,
        },
        Event::Exited(failure) => Outcome {
            phase: Phase::Reading,
            output: match failure {
                Some(detail) => wait_failure_text(detail),
                None => Seq::empty(),
            } + prompt_text(),
            request: RequestView::ReadLine,
            slot: SlotChange::Clear,
        },
    }
}

/// What a step hands the driver: text to show, then a request.
pub struct Effect {
    pub output: String,
    pub request: Request,
}

impl Effect {
    /// Whether this effect is the one that `outcome` describes.
    pub open spec fn shows(&self, outcome: Outcome) -> bool {
        &&& self.output@ == outcome.output
        &&& self.request@ == outcome.request
    }
}

/// The description of a failure, if there is one.
pub open spec fn failure_view(error: Option<ShellError>) -> Option<Seq<char>> {
    match error {
        Some(e) => Some(e.description()),
        None => None,
    }
}

/// The shell loop: its phase and its input buffer.
pub struct ShellLoop {
    phase: Phase,
    input: UserInput,
}

impl View for ShellLoop {
    type V = Phase;

    closed spec fn view(&self) -> Phase {
        self.phase
    }
}

impl ShellLoop {
    /// A loop that has not started, reading through `input`.
    pub fn new(input: UserInput) -> (r: Self)
        ensures
            r@ == Phase::Idle,
    {
        ShellLoop { phase: Phase::Idle, input }
    }

    /// The phase the loop is in.
    pub fn phase(&self) -> (r: Phase)
        ensures
            r == self@,
    {
        self.phase
    }

    /// Whether the shell goes on.
    pub fn shell_state(&self) -> (r: ShellState)
        ensures
            r == state_of(self@),
    {
        if self.phase == Phase::Finished {
            ShellState::Exiting
        } else {
            ShellState::Running
        }
    }

    /// Starts the loop: the first prompt, then a read.
    pub fn start(&mut self) -> (r: Effect)
        requires
            old(self)@ == Phase::Idle,
        ensures
            r.shows(next(Phase::Idle, Event::Start)),
            final(self)@ == next(Phase::Idle, Event::Start).phase,
    {
        let mut output = String::new();
        write_output(prompt(), &mut output);
        self.phase = Phase::Reading;
        Effect { output, request: Request::ReadLine }
    }

    /// Takes the outcome of a read (`None` when it failed, an empty text at
    /// the end of the input): a blank line prompts again, the end of the
    /// input logs out, and a line with tokens is dispatched.
    pub fn line_read(&mut self, read: Option<String>) -> (r: Effect)
        requires
            old(self)@ == Phase::Reading,
        ensures
            r.shows(next(Phase::Reading, Event::Line(read_view(read)))),
            final(self)@ == next(Phase::Reading, Event::Line(read_view(read))).phase,
    {
        let ghost seen = read_view(read);
        let (parsed, state) = self.input.process_input(read);
        match state {
            InputState::Exiting => {
                let mut output = String::new();
                write_output(logout_message(), &mut output);
                self.phase = Phase::Finished;
                Effect { output, request: Request::Stop }
            },
            InputState::Empty => {
                let mut output = String::new();
                write_output(prompt(), &mut output);
                assert(output@ =~= Seq::<char>::empty() + prompt_text());
                Effect { output, request: Request::ReadLine }
            },
            InputState::Valid => {
                let tokens = match parsed {
                    Some(tokens) => tokens,
                    None => Vec::new(),
                };
                self.dispatch_command(tokens)
            },
        }
    }

    /// Interprets a line with at least one token: `help` writes the usage
    /// text, `exit` ends the shell, and anything else asks for a program
    /// to be started.
    pub fn dispatch_command(&mut self, tokens: Vec<String>) -> (r: Effect)
        requires
            old(self)@ == Phase::Reading,
            tokens.len() > 0,
        ensures
            r.shows(dispatch_outcome(views_of(tokens@))),
            final(self)@ == dispatch_outcome(views_of(tokens@)).phase,
    {
        let mut output = String::new();
        match Command::from_tokens(tokens) {
            Command::Help => {
                write_output(help_message(), &mut output);
                write_output(prompt(), &mut output);
                Effect { output, request: Request::ReadLine }
            },
            Command::Exit => {
                self.phase = Phase::Finished;
                Effect { output, request: Request::Stop }
            },
            Command::External { program, args } => {
                self.phase = Phase::Spawning;
                Effect { output, request: Request::Spawn { program, args } }
            },
        }
    }

    /// Reports a program that could not be started, then prompts again.
    /// The process slot is not touched.
    pub fn spawn_failed(&mut self, error: &ShellError) -> (r: Effect)
        requires
            old(self)@ == Phase::Spawning,
        ensures
            r.shows(next(Phase::Spawning, Event::SpawnFailed(error.description()))),
            final(self)@ == Phase::Reading,
    {
        let mut output = String::new();
        let detail = error.message();
        write_output(("Failed to execute command", detail.as_str()), &mut output);
        write_output(prompt(), &mut output);
        self.phase = Phase::Reading;
        Effect { output, request: Request::ReadLine }
    }

    /// Puts the child that was started into the empty process slot, then
    /// asks for it to be awaited.
    pub fn spawned<H>(&mut self, slot: &mut ProcessSlot<H>, child: H) -> (r: Effect)
        requires
            old(self)@ == Phase::Spawning,
            old(slot)@ is None,
        ensures
            r.shows(next(Phase::Spawning, Event::Spawned)),
            final(self)@ == Phase::Waiting,
            final(slot)@ == Some(child),
    {
        let _ = slot.store(child);
        self.phase = Phase::Waiting;
        Effect { output: String::new(), request: Request::AwaitChild }
    }

    /// The wait on the child ended, because it exited or because the wait
    /// failed (`wait_error`): the slot is emptied, its handle handed back,
    /// and the shell prompts again.
    pub fn child_exited<H>(&mut self, slot: &mut ProcessSlot<H>, wait_error: Option<ShellError>) -> (r: (Effect, Option<H>))
        requires
            old(self)@ == Phase::Waiting,
        ensures
            r.0.shows(next(Phase::Waiting, Event::Exited(failure_view(wait_error)))),
            final(self)@ == Phase::Reading,
            final(slot)@ is None,
            r.1 == old(slot)@,
    {
        let ghost failure = failure_view(wait_error);
        let reaped = slot.take();
        let mut output = String::new();
        match wait_error {
            Some(error) => {
                let detail = error.message();
                write_output(("Failed to wait for child process", detail.as_str()), &mut output);
            },
            None => {},
        }
        write_output(prompt(), &mut output);
        self.phase = Phase::Reading;
        (Effect { output, request: Request::ReadLine }, reaped)
    }
}

} // verus!
