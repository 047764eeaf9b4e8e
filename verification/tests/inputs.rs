use tokio_util::sync::CancellationToken;
use tosub::{CrashHolder, ExitCode, StdinAction, StdinHandler, StdinInput};

/// What a handler does with inputs: the lines that are consumed, whether reading stopped, whether
/// the system is asked to stop, and the exit code.
fn run(handler: &StdinHandler<()>, inputs: Vec<StdinInput>) -> (Vec<String>, bool, bool, u8) {
    let mut global = CancellationToken::new();
    let mut crash = CrashHolder::new(global.clone());
    let mut lines = vec![];
    let mut stopped = false;
    for input in inputs {
        match handler.gobble_stdin(input, &mut crash, &mut global) {
            StdinAction::Consume(line) => lines.push(line),
            StdinAction::ReadOn => {}
            StdinAction::Stop => {
                stopped = true;
                break;
            }
        }
    }
    let code = match crash.take_crash() {
        Ok(ExitCode { code }) => code,
        Err(error) => panic!("{}", error.to_string()),
    };
    (lines, stopped, global.is_cancelled(), code)
}

fn handler(shutdown_on_stdin_close: bool, consumes: bool) -> StdinHandler<()> {
    let consumer = if consumes { Some(()) } else { None };
    StdinHandler { shutdown_on_stdin_close, consumer }
}

fn lines() -> Vec<StdinInput> {
    vec![StdinInput::Line("a".to_string()), StdinInput::Line("b".to_string())]
}

fn ended_by(end: StdinInput) -> Vec<StdinInput> {
    let mut inputs = lines();
    inputs.push(end);
    inputs.push(StdinInput::Line("late".to_string()));
    inputs
}

#[test]
fn lines_are_consumed_up_to_the_end() {
    let read = vec!["a".to_string(), "b".to_string()];
    assert_eq!(run(&handler(false, true), lines()), (read.clone(), false, false, 0));
    assert_eq!(run(&handler(true, true), ended_by(StdinInput::Closed)), (read.clone(), true, true, 0));
    assert_eq!(run(&handler(true, true), ended_by(StdinInput::Failed)), (read, true, true, 1));
}

#[test]
fn lines_without_consumer_are_dropped() {
    assert_eq!(run(&handler(true, false), lines()), (vec![], false, false, 0));
    assert_eq!(run(&handler(true, false), ended_by(StdinInput::Closed)), (vec![], true, true, 0));
}

#[test]
fn end_of_input_need_not_stop_the_system() {
    let read = vec!["a".to_string(), "b".to_string()];
    assert_eq!(run(&handler(false, true), ended_by(StdinInput::Closed)), (read.clone(), true, false, 0));
    assert_eq!(run(&handler(false, true), ended_by(StdinInput::Failed)), (read, true, false, 0));
}
