//! What the manager asks of the container runtime, and how it reads the
//! runtime's answers.
//!
//! Nothing here talks to the runtime.  The functions say which request to
//! make, and turn what came back into a result.

use crate::error::{Failure, FailureView, ParseFailure, RuntimeOp};
use crate::text::{
    chars_of, find_from, first_index, lemma_first_index, lemma_first_index_in_prefix, stands_at,
};
use vstd::prelude::*;
use vstd::string::{StrSliceExecFns, StringExecFns};

verus! {

/// How the line that reports a new container begins.
pub const CREATION_MARKER: &'static str = "Container";

/// The client of the server's remote console, which runs inside the
/// container.
pub const CONSOLE_CLIENT: &'static str = "rcon-cli";

/// The first line of `output`: what stands before its first line feed.
pub open spec fn first_line(output: Seq<char>) -> Seq<char> {
    output.take(first_index(output, '\n'))
}

/// The first line of `output` that begins with `marker`.
pub open spec fn marked_line(output: Seq<char>, marker: Seq<char>) -> Option<Seq<char>>
    decreases output.len(),
{
    if marker.is_prefix_of(first_line(output)) {
        Some(first_line(output))
    } else if !output.contains('\n') {
        None
    } else {
        proof {
            lemma_first_index(output, '\n');
        }
        marked_line(output.skip(first_index(output, '\n') + 1), marker)
    }
}

/// The second field of `line`, where single blanks part the fields: what
/// stands between the first blank and the next one, or the end of the line.
pub open spec fn second_field(line: Seq<char>) -> Option<Seq<char>> {
    if !line.contains(' ') {
        None
    } else {
        let rest = line.skip(first_index(line, ' ') + 1);
        Some(rest.take(first_index(rest, ' ')))
    }
}

/// The identifier of the container that `output` reports as created: the
/// second field of the first line that begins with the creation marker.
/// There is none where no line begins with the marker, where that line has
/// no second field, and where that field is empty.
pub open spec fn container_id(output: Seq<char>) -> Option<Seq<char>> {
    match marked_line(output, CREATION_MARKER@) {
        Some(line) => match second_field(line) {
            Some(id) => if id.len() > 0 {
                Some(id)
            } else {
                None
            },
            None => None,
        },
        None => None,
    }
}

/// Reads the identifier of the new container from what the runtime printed
/// when it brought the instance up.  Output that names no container is an
/// error of its own kind, never an empty identifier.
pub fn parse_container_id(output: &str) -> (id: Result<String, Failure>)
    ensures
        match container_id(output@) {
            Some(text) => id matches Ok(found) && found@ == text,
            None => id matches Err(failure) && failure@ == FailureView::ParseError(
                ParseFailure::ContainerIdMissing,
            ),
        },
{
    let chars = chars_of(output);
    let marker = chars_of(CREATION_MARKER);
    let mut pos: usize = 0;
    assert(chars@.skip(0) =~= chars@);
    loop
        invariant
            pos <= chars.len(),
            chars@ == output@,
            marker@ == CREATION_MARKER@,
            marked_line(output@, CREATION_MARKER@) == marked_line(
                chars@.skip(pos as int),
                CREATION_MARKER@,
            ),
        decreases chars.len() - pos,
    {
        let ghost rest = chars@.skip(pos as int);
        let end = find_from(&chars, pos, '\n');
        proof {
            lemma_first_index(rest, '\n');
            assert(first_line(rest) =~= chars@.subrange(pos as int, end as int));
        }
        if marker.len() <= end - pos && stands_at(&chars, pos, &marker) {
            let ghost line = first_line(rest);
            assert(marker@.is_prefix_of(line)) by {
                assert(marker@ =~= rest.subrange(0, marker@.len() as int));
                assert(marker@ =~= line.subrange(0, marker@.len() as int));
            }
            let blank = find_from(&chars, pos, ' ');
            proof {
                lemma_first_index(line, ' ');
                lemma_first_index_in_prefix(rest, end - pos, ' ');
            }
            if blank >= end {
                return Err(Failure::ParseError(ParseFailure::ContainerIdMissing));
            }
            let next_blank = find_from(&chars, blank + 1, ' ');
            let stop = if next_blank < end {
                next_blank
            } else {
                end
            };
            proof {
                let tail = line.skip(blank - pos + 1);
                let after = chars@.skip(blank + 1);
                assert(tail =~= after.take(end - blank - 1));
                lemma_first_index_in_prefix(after, end - blank - 1, ' ');
                assert(tail.take(first_index(tail, ' ')) =~= chars@.subrange(
                    blank + 1,
                    stop as int,
                ));
            }
            if stop == blank + 1 {
                return Err(Failure::ParseError(ParseFailure::ContainerIdMissing));
            }
            let id = output.substring_char(blank + 1, stop);
            return Ok(String::from_str(id));
        }
        proof {
            if marker@.is_prefix_of(first_line(rest)) {
                let line = first_line(rest);
                assert(marker@ =~= line.subrange(0, marker@.len() as int));
                assert(marker@ =~= rest.subrange(0, marker@.len() as int));
            }
        }
        if end == chars.len() {
            return Err(Failure::ParseError(ParseFailure::ContainerIdMissing));
        }
        assert(rest.skip(end - pos + 1) =~= chars@.skip(end + 1));
        pos = end + 1;
    }
}

/// The command that runs `argv` on the server's console: the console
/// client, then the arguments as they were given.
pub open spec fn console_command(argv: Seq<Seq<char>>) -> Seq<Seq<char>> {
    seq![CONSOLE_CLIENT@] + argv
}

/// The command line that hands `argv` to the server's console.
pub fn exec_command(argv: &Vec<String>) -> (command: Vec<String>)
    ensures
        command.deep_view() == console_command(argv.deep_view()),
{
    let mut command: Vec<String> = Vec::new();
    command.push(String::from_str(CONSOLE_CLIENT));
    let mut i: usize = 0;
    while i < argv.len()
        invariant
            i <= argv.len(),
            command.len() == i + 1,
            command@[0]@ == CONSOLE_CLIENT@,
            forall|j: int| 0 <= j < i ==> command@[j + 1]@ == argv@[j]@,
        decreases argv.len() - i,
    {
        command.push(argv[i].clone());
        i += 1;
    }
    assert(command.deep_view() =~= console_command(argv.deep_view()));
    command
}

/// Which part of a container's log is asked for.
#[derive(Debug, Clone, Copy, PartialEq, Eq, Structural)]
pub struct LogRequest {
    /// Whether what the container writes to its standard output is wanted.
    pub stdout: bool,
    /// Whether the stream stays open and delivers what is logged later.
    pub follow: bool,
    /// The time, in seconds since the Unix epoch, from which on lines are wanted.
    pub since: i64,
}

/// The request for the log of a container from `since` on, a moment given
/// in seconds since the Unix epoch: standard output, kept open until the
/// caller drops it or the container stops logging.
pub fn tail_request(since: i64) -> (request: LogRequest)
    ensures
        request == (LogRequest { stdout: true, follow: true, since }),
{
    LogRequest { stdout: true, follow: true, since }
}

/// A request to the container runtime.
#[derive(Debug, Clone, PartialEq, Eq)]
pub enum RuntimeCall {
    /// Start the container `id`.
    Start { id: String },
    /// Stop the container `id`.
    Stop { id: String },
    /// Make a session that runs `command` in the container `id`, with its
    /// output attached.
    Exec { id: String, command: Vec<String> },
    /// Start the session `session`, which an `Exec` request made.
    StartExec { session: String },
    /// Stream the log of the container `id`.
    Logs { id: String, request: LogRequest },
}

/// A request to the container runtime, as plain mathematical values.
pub enum RuntimeCallView {
    Start { id: Seq<char> },
    Stop { id: Seq<char> },
    Exec { id: Seq<char>, command: Seq<Seq<char>> },
    StartExec { session: Seq<char> },
    Logs { id: Seq<char>, request: LogRequest },
}

impl View for RuntimeCall {
    type V = RuntimeCallView;

    open spec fn view(&self) -> RuntimeCallView {
        match self {
            RuntimeCall::Start { id } => RuntimeCallView::Start { id: id@ },
            RuntimeCall::Stop { id } => RuntimeCallView::Stop { id: id@ },
            RuntimeCall::Exec { id, command } => RuntimeCallView::Exec {
                id: id@,
                command: command.deep_view(),
            },
            RuntimeCall::StartExec { session } => RuntimeCallView::StartExec { session: session@ },
            RuntimeCall::Logs { id, request } => RuntimeCallView::Logs { id: id@, request: *request },
        }
    }
}

/// The operation that the request `call` asks for.
pub open spec fn op_of(call: RuntimeCallView) -> RuntimeOp {
    match call {
        RuntimeCallView::Start { .. } => RuntimeOp::Start,
        RuntimeCallView::Stop { .. } => RuntimeOp::Stop,
        RuntimeCallView::Exec { .. } => RuntimeOp::CreateExec,
        RuntimeCallView::StartExec { .. } => RuntimeOp::StartExec,
        RuntimeCallView::Logs { .. } => RuntimeOp::Logs,
    }
}

impl RuntimeCall {
    /// The operation that this request asks for.
    pub fn op(&self) -> (op: RuntimeOp)
        ensures
            op == op_of(self@),
    {
        match self {
            RuntimeCall::Start { .. } => RuntimeOp::Start,
            RuntimeCall::Stop { .. } => RuntimeOp::Stop,
            RuntimeCall::Exec { .. } => RuntimeOp::CreateExec,
            RuntimeCall::StartExec { .. } => RuntimeOp::StartExec,
            RuntimeCall::Logs { .. } => RuntimeOp::Logs,
        }
    }
}

/// How a request to the container runtime ended.
#[derive(Debug, Clone, Copy, PartialEq, Eq, Structural)]
pub enum RuntimeOutcome {
    /// No connection to the runtime could be made.
    Unreachable,
    /// The runtime was reached and failed the request.
    Failed,
    /// The container was already in the state asked for.
    Unchanged,
    /// The runtime did what was asked.
    Done,
}

/// The status with which the runtime answers a request to start a container
/// that runs, or to stop one that does not.
pub const NOT_MODIFIED: u16 = 304;

/// How a request ended that the runtime answered with the error status
/// `status_code`.
pub fn response_outcome(status_code: u16) -> (outcome: RuntimeOutcome)
    ensures
        outcome == if status_code == NOT_MODIFIED {
            RuntimeOutcome::Unchanged
        } else {
            RuntimeOutcome::Failed
        },
{
    if status_code == NOT_MODIFIED {
        RuntimeOutcome::Unchanged
    } else {
        RuntimeOutcome::Failed
    }
}

/// The result of the request `op` that ended in `outcome`.  A container that
/// was already started or stopped counts as success: starting and stopping
/// may be repeated.  An unreachable runtime and a failed request stay apart.
pub fn settle(op: RuntimeOp, outcome: RuntimeOutcome) -> (result: Result<(), Failure>)
    ensures
        match outcome {
            RuntimeOutcome::Done => result is Ok,
            RuntimeOutcome::Unchanged => result is Ok,
            RuntimeOutcome::Unreachable => result matches Err(failure) && failure@
                == FailureView::RuntimeUnavailable,
            RuntimeOutcome::Failed => result matches Err(failure) && failure@
                == FailureView::RuntimeOperationFailed(op),
        },
{
    match outcome {
        RuntimeOutcome::Done => Ok(()),
        RuntimeOutcome::Unchanged => Ok(()),
        RuntimeOutcome::Unreachable => Err(Failure::RuntimeUnavailable),
        RuntimeOutcome::Failed => Err(Failure::RuntimeOperationFailed(op)),
    }
}

/// What follows the request `call` once it ended in `outcome`: a failure,
/// nothing more (`None`), or the request to make next.  An unreachable
/// runtime and a failed request end it with their failures.  Running a
/// command takes two requests: once the session is made, with the
/// identifier `made`, it has to be started; a runtime that names no session
/// has failed to make one.  Every other request is done when it succeeds.
pub open spec fn followed(
    call: RuntimeCallView,
    outcome: RuntimeOutcome,
    made: Option<Seq<char>>,
) -> Result<Option<RuntimeCallView>, FailureView> {
    match outcome {
        RuntimeOutcome::Unreachable => Err(FailureView::RuntimeUnavailable),
        RuntimeOutcome::Failed => Err(FailureView::RuntimeOperationFailed(op_of(call))),
        _ => match call {
            RuntimeCallView::Exec { .. } => match made {
                Some(session) => Ok(Some(RuntimeCallView::StartExec { session })),
                None => Err(FailureView::RuntimeOperationFailed(RuntimeOp::CreateExec)),
            },
            _ => Ok(None),
        },
    }
}

/// Says what follows the request `call` once the runtime has answered it:
/// `outcome` is how the request ended, `made` the identifier of the session
/// that the runtime made, if it made one.
pub fn follow_up(call: &RuntimeCall, outcome: RuntimeOutcome, made: Option<String>) -> (next:
    Result<Option<RuntimeCall>, Failure>)
    ensures
        match followed(call@, outcome, made.deep_view()) {
            Ok(Some(expected)) => next matches Ok(Some(c)) && c@ == expected,
            Ok(None) => next matches Ok(None),
            Err(failure) => next matches Err(f) && f@ == failure,
        },
{
    match settle(call.op(), outcome) {
        Err(failure) => Err(failure),
        Ok(()) => match call {
            RuntimeCall::Exec { .. } => match made {
                Some(session) => Ok(Some(RuntimeCall::StartExec { session })),
                None => Err(Failure::RuntimeOperationFailed(RuntimeOp::CreateExec)),
            },
            _ => Ok(None),
        },
    }
}

} // verus!
