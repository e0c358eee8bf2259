//! A minimal interactive command shell: tokenizing input lines, choosing
//! between built-in commands and external programs, and coordinating the
//! single foreground child with an interrupt listener.
//!
//! The library decides; a driver performs. It reads lines, shows the text
//! each step returns, starts programs, waits on them and listens for
//! interrupts, handing each outcome back to the `ShellLoop`.
pub mod input_handler;
pub mod utils;
pub mod process_slot;
pub mod shell_core;
pub mod guarantees;

pub use input_handler::{InputState, UserInput, split_tokens};
pub use process_slot::{InterruptAction, ProcessSlot};
pub use shell_core::{Command, Effect, Phase, Request, ShellError, ShellLoop, ShellState};
pub use utils::{IoState, WriteOutput, WriteOutputError, write_output};
