//! The failures that the manager reports, and the text shown for each.
//!
//! Every failure keeps its kind: a caller can tell a missing instance from
//! an unreachable runtime or from a compose file that cannot be read, and
//! only the transport turns a failure into a line of text.

use vstd::prelude::*;
use vstd::string::StringExecFns;

verus! {

/// An operation named an instance that the registry does not hold.
#[derive(Debug, Clone, PartialEq, Eq)]
pub struct NotRegistered {
    pub id: String,
}

/// A rejection that carries nothing.
#[derive(Debug, Clone, Copy, PartialEq, Eq, Structural)]
pub struct Dummy;

/// A failure reduced to the sentence that explains it.
#[derive(Debug, Clone, PartialEq, Eq)]
pub struct Error {
    reason: String,
}

impl View for Error {
    type V = Seq<char>;

    closed spec fn view(&self) -> Seq<char> {
        self.reason@
    }
}

impl Error {
    /// The error whose explanation is `reason`.
    pub fn from(reason: &str) -> (e: Error)
        ensures
            e@ == reason@,
    {
        Error { reason: String::from_str(reason) }
    }

    /// The explanation this error was made with.
    pub fn reason(&self) -> (text: &str)
        ensures
            text@ == self@,
    {
        self.reason.as_str()
    }
}

/// The step of preparing an instance's compose file that failed.
#[derive(Debug, Clone, Copy, PartialEq, Eq, Structural)]
pub enum ConfigFailure {
    /// The instance directory could not be created.
    DirectoryNotCreated,
    /// The compose file could not be created.
    ComposeNotCreated,
    /// The template could not be copied to the new compose file.
    TemplateNotCopied,
    /// The compose file could not be read.
    SourceUnreadable,
    /// The compose file does not follow the expected schema.
    SourceInvalid,
    /// The template could not be read.
    TemplateUnreadable,
    /// The template does not follow the expected schema.
    TemplateInvalid,
    /// The compose file publishes no port.
    PortMappingMissing,
    /// The first port mapping has no colon.
    PortMappingMalformed,
    /// The outside port of the first port mapping is no port number.
    PortNotANumber,
    /// The port that the instance would get is held by another instance.
    PortInUse,
    /// Every port above the baseline is held by an instance.
    PortsExhausted,
    /// The compose file could not be opened for writing.
    TargetUnwritable,
    /// The merged configuration could not be serialised.
    NotSerialized,
    /// The merged configuration could not be written.
    NotWritten,
}

/// The request to the container runtime that failed.
#[derive(Debug, Clone, Copy, PartialEq, Eq, Structural)]
pub enum RuntimeOp {
    /// Bringing the instance's compose project up.
    Up,
    /// Starting the container.
    Start,
    /// Stopping the container.
    Stop,
    /// Creating the execution session for a console command.
    CreateExec,
    /// Starting the execution session for a console command.
    StartExec,
    /// Opening the log of the container.
    Logs,
}

/// The part of the runtime's answer that could not be read.
#[derive(Debug, Clone, Copy, PartialEq, Eq, Structural)]
pub enum ParseFailure {
    /// The runtime's output is not UTF-8 text.
    OutputNotText,
    /// No line of the runtime's output names the new container.
    ContainerIdMissing,
}

/// Why an operation of the manager failed.
#[derive(Debug, Clone, PartialEq, Eq)]
pub enum Failure {
    /// The compose file could not be prepared.
    ConfigError(ConfigFailure),
    /// The container runtime could not be reached.
    RuntimeUnavailable,
    /// The runtime was reached and refused or failed the request.
    RuntimeOperationFailed(RuntimeOp),
    /// The named instance is not in the registry.
    NotRegistered(NotRegistered),
    /// An instance of that name is in the registry already.
    DuplicateInstance(String),
    /// The runtime's output could not be interpreted.
    ParseError(ParseFailure),
}

/// A failure as plain mathematical values.
pub enum FailureView {
    ConfigError(ConfigFailure),
    RuntimeUnavailable,
    RuntimeOperationFailed(RuntimeOp),
    NotRegistered(Seq<char>),
    DuplicateInstance(Seq<char>),
    ParseError(ParseFailure),
}

impl View for Failure {
    type V = FailureView;

    open spec fn view(&self) -> FailureView {
        match self {
            Failure::ConfigError(failure) => FailureView::ConfigError(*failure),
            Failure::RuntimeUnavailable => FailureView::RuntimeUnavailable,
            Failure::RuntimeOperationFailed(op) => FailureView::RuntimeOperationFailed(*op),
            Failure::NotRegistered(missing) => FailureView::NotRegistered(missing.id@),
            Failure::DuplicateInstance(name) => FailureView::DuplicateInstance(name@),
            Failure::ParseError(failure) => FailureView::ParseError(*failure),
        }
    }
}

/// The sentence that explains a configuration failure.
pub open spec fn config_reason(failure: ConfigFailure) -> Seq<char> {
    match failure {
        ConfigFailure::DirectoryNotCreated => "Error creating a new directory"@,
        ConfigFailure::ComposeNotCreated => "Error creating docker new docker compose file"@,
        ConfigFailure::TemplateNotCopied => "Error copying default contents of docker compose file"@,
        ConfigFailure::SourceUnreadable => "Error reading compose file to a string"@,
        ConfigFailure::SourceInvalid => "Error parsing YAML from compose file"@,
        ConfigFailure::TemplateUnreadable => "Error reading default compose file to string"@,
        ConfigFailure::TemplateInvalid => "Error parsing YAML from default compose file"@,
        ConfigFailure::PortMappingMissing => "Could not get \"ports\" field from YAML"@,
        ConfigFailure::PortMappingMalformed => "Port string in YAML is misformatted"@,
        ConfigFailure::PortNotANumber => "Failed parsing port"@,
        ConfigFailure::PortInUse => "Server is already registered on this port"@,
        ConfigFailure::PortsExhausted => "No port above the baseline is free"@,
        ConfigFailure::TargetUnwritable => "Failed to open compose file for updating"@,
        ConfigFailure::NotSerialized => "Failed to serialise the compose file"@,
        ConfigFailure::NotWritten => "Failed to write YAML object to file"@,
    }
}

/// The sentence that explains a failed runtime request.
pub open spec fn runtime_reason(op: RuntimeOp) -> Seq<char> {
    match op {
        RuntimeOp::Up => "Failed to run docker-compose command"@,
        RuntimeOp::Start => "Failed to start the container"@,
        RuntimeOp::Stop => "Failed to stop the container"@,
        RuntimeOp::CreateExec => "Failed creating exec for docker"@,
        RuntimeOp::StartExec => "Failed to send cmd to container"@,
        RuntimeOp::Logs => "Failed to open the log of the container"@,
    }
}

/// The sentence that explains an answer that could not be read.
pub open spec fn parse_reason(failure: ParseFailure) -> Seq<char> {
    match failure {
        ParseFailure::OutputNotText => "Failed to parse cmd output"@,
        ParseFailure::ContainerIdMissing => "Couldn't find container ID"@,
    }
}

impl Failure {
    /// The sentence that explains this failure.
    pub open spec fn reason_text(&self) -> Seq<char> {
        match self {
            Failure::ConfigError(failure) => config_reason(*failure),
            Failure::RuntimeUnavailable => "Couldn't connect to docker on default socket"@,
            Failure::RuntimeOperationFailed(op) => runtime_reason(*op),
            Failure::NotRegistered(missing) => "Server is not registered: "@ + missing.id@,
            Failure::DuplicateInstance(name) => "Server is already registered: "@ + name@,
            Failure::ParseError(failure) => parse_reason(*failure),
        }
    }

    /// The sentence that explains this failure.
    pub fn reason(&self) -> (text: String)
        ensures
            text@ == self.reason_text(),
    {
        match self {
            Failure::ConfigError(failure) => String::from_str(config_text(*failure)),
            Failure::RuntimeUnavailable => String::from_str(
                "Couldn't connect to docker on default socket",
            ),
            Failure::RuntimeOperationFailed(op) => String::from_str(runtime_text(*op)),
            Failure::NotRegistered(missing) => String::from_str("Server is not registered: ").concat(
                missing.id.as_str(),
            ),
            Failure::DuplicateInstance(name) => String::from_str(
                "Server is already registered: ",
            ).concat(name.as_str()),
            Failure::ParseError(failure) => String::from_str(parse_text(*failure)),
        }
    }

    /// This failure as the transport reports it: a missing instance keeps
    /// its own kind, every other failure becomes its explanation.
    pub fn rejection(self) -> (rejected: Rejected)
        ensures
            match self {
                Failure::NotRegistered(missing) => rejected matches Rejected::NotRegistered(m)
                    && m.id@ == missing.id@,
                _ => rejected matches Rejected::Failed(e) && e@ == self.reason_text(),
            },
    {
        match self {
            Failure::NotRegistered(missing) => Rejected::NotRegistered(missing),
            other => {
                let text = other.reason();
                Rejected::Failed(Error::from(text.as_str()))
            },
        }
    }
}

fn config_text(failure: ConfigFailure) -> (text: &'static str)
    ensures
        text@ == config_reason(failure),
{
    match failure {
        ConfigFailure::DirectoryNotCreated => "Error creating a new directory",
        ConfigFailure::ComposeNotCreated => "Error creating docker new docker compose file",
        ConfigFailure::TemplateNotCopied => "Error copying default contents of docker compose file",
        ConfigFailure::SourceUnreadable => "Error reading compose file to a string",
        ConfigFailure::SourceInvalid => "Error parsing YAML from compose file",
        ConfigFailure::TemplateUnreadable => "Error reading default compose file to string",
        ConfigFailure::TemplateInvalid => "Error parsing YAML from default compose file",
        ConfigFailure::PortMappingMissing => "Could not get \"ports\" field from YAML",
        ConfigFailure::PortMappingMalformed => "Port string in YAML is misformatted",
        ConfigFailure::PortNotANumber => "Failed parsing port",
        ConfigFailure::PortInUse => "Server is already registered on this port",
        ConfigFailure::PortsExhausted => "No port above the baseline is free",
        ConfigFailure::TargetUnwritable => "Failed to open compose file for updating",
        ConfigFailure::NotSerialized => "Failed to serialise the compose file",
        ConfigFailure::NotWritten => "Failed to write YAML object to file",
    }
}

fn runtime_text(op: RuntimeOp) -> (text: &'static str)
    ensures
        text@ == runtime_reason(op),
{
    match op {
        RuntimeOp::Up => "Failed to run docker-compose command",
        RuntimeOp::Start => "Failed to start the container",
        RuntimeOp::Stop => "Failed to stop the container",
        RuntimeOp::CreateExec => "Failed creating exec for docker",
        RuntimeOp::StartExec => "Failed to send cmd to container",
        RuntimeOp::Logs => "Failed to open the log of the container",
    }
}

fn parse_text(failure: ParseFailure) -> (text: &'static str)
    ensures
        text@ == parse_reason(failure),
{
    match failure {
        ParseFailure::OutputNotText => "Failed to parse cmd output",
        ParseFailure::ContainerIdMissing => "Couldn't find container ID",
    }
}

/// What the transport was asked to report.
#[derive(Debug, Clone, PartialEq, Eq)]
pub enum Rejected {
    /// No route matched the request.
    NotFound,
    /// The request named an instance that is not registered.
    NotRegistered(NotRegistered),
    /// The operation failed.
    Failed(Error),
    /// Anything the transport has no answer for.
    Unhandled,
}

/// The body of an error reply: a status code and one line of text.
#[derive(Debug, Clone, PartialEq, Eq)]
pub struct ErrorMessage {
    pub code: u16,
    pub message: String,
}

/// The status code of the reply to `rejected`.
pub open spec fn reply_code(rejected: Rejected) -> u16 {
    match rejected {
        Rejected::NotFound => 404,
        Rejected::NotRegistered(_) => 500,
        Rejected::Failed(_) => 500,
        Rejected::Unhandled => 418,
    }
}

/// The line of text of the reply to `rejected`.
pub open spec fn reply_text(rejected: Rejected) -> Seq<char> {
    match rejected {
        Rejected::NotFound => "NOT_FOUND"@,
        Rejected::NotRegistered(missing) => "Server is not registered: "@ + missing.id@,
        Rejected::Failed(e) => "Server Error: "@ + e@,
        Rejected::Unhandled => "Unhandled Rejection???"@,
    }
}

/// The reply that tells a client why its request was rejected.
pub fn error_message(rejected: &Rejected) -> (reply: ErrorMessage)
    ensures
        reply.code == reply_code(*rejected),
        reply.message@ == reply_text(*rejected),
{
    match rejected {
        Rejected::NotFound => ErrorMessage { code: 404, message: String::from_str("NOT_FOUND") },
        Rejected::NotRegistered(missing) => ErrorMessage {
            code: 500,
            message: String::from_str("Server is not registered: ").concat(missing.id.as_str()),
        },
        Rejected::Failed(e) => ErrorMessage {
            code: 500,
            message: String::from_str("Server Error: ").concat(e.reason()),
        },
        Rejected::Unhandled => ErrorMessage {
            code: 418,
            message: String::from_str("Unhandled Rejection???"),
        },
    }
}

} // verus!
