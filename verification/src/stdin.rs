//! Lines from standard input, and what its end means.
use vstd::prelude::*;

use crate::crash::CrashHolder;
#[allow(unused_imports)]
use crate::crash::{self, Report};
use crate::exit::ExitCode;
use crate::token;
use crate::token::Cancels;

verus! {

/// What was read from standard input.
pub enum StdinInput {
    /// A line.
    Line(String),
    /// Nothing, because reading failed.
    Failed,
    /// Nothing, because standard input was closed.
    Closed,
}

/// What to do with what was read.
pub enum StdinAction {
    /// Hand the line to the consumer, and read on.
    Consume(String),
    /// Read on.
    ReadOn,
    /// Stop reading.
    Stop,
}

/// Handles standard input.
pub struct StdinHandler<C> {
    /// Whether the whole system is asked to stop when standard input ends.
    pub shutdown_on_stdin_close: bool,
    /// What the lines are handed to.
    pub consumer: Option<C>,
}

impl<C> StdinHandler<C> {
    /// What to do with what was read: lines are consumed if there is a consumer, and reading stops
    /// at the end.
    pub open spec fn action(self, input: StdinInput) -> StdinAction {
        match input {
            StdinInput::Line(line) => if self.consumer is Some {
                StdinAction::Consume(line)
            } else {
                StdinAction::ReadOn
            },
            _ => StdinAction::Stop,
        }
    }

    /// The lines that are handed to the consumer when all of `inputs` can be read.
    pub open spec fn consumed(self, inputs: Seq<StdinInput>) -> Seq<String>
        decreases inputs.len(),
    {
        if inputs.len() == 0 {
            seq![]
        } else {
            match self.action(inputs[0]) {
                StdinAction::Consume(line) => seq![line] + self.consumed(inputs.skip(1)),
                StdinAction::ReadOn => self.consumed(inputs.skip(1)),
                StdinAction::Stop => seq![],
            }
        }
    }

    /// Handles what was read. When standard input ends, the whole system is asked to stop if the
    /// handler says so; if reading failed, a failure is reported as well.
    pub fn gobble_stdin<K: Cancels>(
        &self,
        input: StdinInput,
        crash: &mut CrashHolder,
        global: &mut K,
    ) -> (action: StdinAction)
        ensures
            token::token_path(final(global).token()) == token::token_path(old(global).token()),
            token::token_path(final(crash).token()) == token::token_path(old(crash).token()),
            action == self.action(input),
            if input is Failed && self.shutdown_on_stdin_close {
                final(crash).outcome() == crash::reported(
                    old(crash).outcome(),
                    Report::ExitCode(ExitCode::failure()),
                ) && token::token_stopped(final(crash).token())
            } else {
                *final(crash) == *old(crash)
            },
            if !(input is Line) && self.shutdown_on_stdin_close {
                token::token_stopped(final(global).token())
            } else {
                *final(global) == *old(global)
            },
    {
        match input {
            StdinInput::Line(line) => {
                if self.consumer.is_some() {
                    StdinAction::Consume(line)
                } else {
                    StdinAction::ReadOn
                }
            },
            StdinInput::Failed => {
                if self.shutdown_on_stdin_close {
                    crash.set_exit_code(ExitCode::failure());
                    global.request();
                }
                StdinAction::Stop
            },
            StdinInput::Closed => {
                if self.shutdown_on_stdin_close {
                    global.request();
                }
                StdinAction::Stop
            },
        }
    }
}

/// The consumer is handed all lines up to the end of standard input, in order, and nothing after
/// the end.
pub proof fn lemma_all_lines_consumed<C>(
    handler: StdinHandler<C>,
    lines: Seq<String>,
    end: StdinInput,
    rest: Seq<StdinInput>,
)
    requires
        !(end is Line),
    ensures
        handler.consumed(lines.map_values(|line: String| StdinInput::Line(line)) + seq![end] + rest)
            == (if handler.consumer is Some {
            lines
        } else {
            seq![]
        }),
    decreases lines.len(),
{
    let inputs = lines.map_values(|line: String| StdinInput::Line(line)) + seq![end] + rest;
    if lines.len() == 0 {
        assert(inputs[0] == end);
        assert(lines =~= seq![]);
    } else {
        let others = lines.skip(1);
        assert(inputs[0] == StdinInput::Line(lines[0]));
        assert(inputs.skip(1) =~= others.map_values(|line: String| StdinInput::Line(line)) + seq![
            end,
        ] + rest);
        lemma_all_lines_consumed(handler, others, end, rest);
        assert(lines =~= seq![lines[0]] + others);
    }
}

} // verus!
