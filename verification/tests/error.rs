use mc_docker::error::{
    error_message, ConfigFailure, Dummy, Error, ErrorMessage, Failure, NotRegistered, ParseFailure,
    Rejected, RuntimeOp,
};

fn not_registered(id: &str) -> NotRegistered {
    NotRegistered { id: id.to_string() }
}

#[test]
fn error_from_keeps_the_reason() {
    assert_eq!(Error::from("Failed parsing port").reason(), "Failed parsing port");
    assert_eq!(Error::from("").reason(), "");
    assert_eq!(Error::from("a"), Error::from("a"));
    assert_ne!(Error::from("a"), Error::from("b"));
}

#[test]
fn dummy_carries_nothing() {
    assert_eq!(Dummy, Dummy);
}

#[test]
fn config_failures_have_their_own_sentences() {
    let expected = [
        (ConfigFailure::DirectoryNotCreated, "Error creating a new directory"),
        (ConfigFailure::ComposeNotCreated, "Error creating docker new docker compose file"),
        (ConfigFailure::TemplateNotCopied, "Error copying default contents of docker compose file"),
        (ConfigFailure::SourceUnreadable, "Error reading compose file to a string"),
        (ConfigFailure::SourceInvalid, "Error parsing YAML from compose file"),
        (ConfigFailure::TemplateUnreadable, "Error reading default compose file to string"),
        (ConfigFailure::TemplateInvalid, "Error parsing YAML from default compose file"),
        (ConfigFailure::PortMappingMissing, "Could not get \"ports\" field from YAML"),
        (ConfigFailure::PortMappingMalformed, "Port string in YAML is misformatted"),
        (ConfigFailure::PortNotANumber, "Failed parsing port"),
        (ConfigFailure::PortInUse, "Server is already registered on this port"),
        (ConfigFailure::PortsExhausted, "No port above the baseline is free"),
        (ConfigFailure::TargetUnwritable, "Failed to open compose file for updating"),
        (ConfigFailure::NotSerialized, "Failed to serialise the compose file"),
        (ConfigFailure::NotWritten, "Failed to write YAML object to file"),
    ];
    for (failure, sentence) in expected {
        assert_eq!(Failure::ConfigError(failure).reason(), sentence);
    }
    for (i, (_, a)) in expected.iter().enumerate() {
        for (_, b) in expected.iter().skip(i + 1) {
            assert_ne!(a, b);
        }
    }
}

#[test]
fn runtime_failures_have_their_own_sentences() {
    assert_eq!(Failure::RuntimeUnavailable.reason(), "Couldn't connect to docker on default socket");
    assert_eq!(
        Failure::RuntimeOperationFailed(RuntimeOp::Up).reason(),
        "Failed to run docker-compose command"
    );
    assert_eq!(
        Failure::RuntimeOperationFailed(RuntimeOp::Start).reason(),
        "Failed to start the container"
    );
    assert_eq!(
        Failure::RuntimeOperationFailed(RuntimeOp::Stop).reason(),
        "Failed to stop the container"
    );
    assert_eq!(
        Failure::RuntimeOperationFailed(RuntimeOp::CreateExec).reason(),
        "Failed creating exec for docker"
    );
    assert_eq!(
        Failure::RuntimeOperationFailed(RuntimeOp::StartExec).reason(),
        "Failed to send cmd to container"
    );
    assert_eq!(
        Failure::RuntimeOperationFailed(RuntimeOp::Logs).reason(),
        "Failed to open the log of the container"
    );
}

#[test]
fn parse_failures_have_their_own_sentences() {
    assert_eq!(
        Failure::ParseError(ParseFailure::OutputNotText).reason(),
        "Failed to parse cmd output"
    );
    assert_eq!(
        Failure::ParseError(ParseFailure::ContainerIdMissing).reason(),
        "Couldn't find container ID"
    );
}

#[test]
fn registry_failures_name_the_instance() {
    assert_eq!(
        Failure::NotRegistered(not_registered("t1")).reason(),
        "Server is not registered: t1"
    );
    assert_eq!(
        Failure::DuplicateInstance("t1".to_string()).reason(),
        "Server is already registered: t1"
    );
    assert_eq!(Failure::NotRegistered(not_registered("")).reason(), "Server is not registered: ");
}

#[test]
fn rejection_keeps_a_missing_instance_apart() {
    assert_eq!(
        Failure::NotRegistered(not_registered("t1")).rejection(),
        Rejected::NotRegistered(not_registered("t1"))
    );
    assert_eq!(
        Failure::RuntimeUnavailable.rejection(),
        Rejected::Failed(Error::from("Couldn't connect to docker on default socket"))
    );
    assert_eq!(
        Failure::DuplicateInstance("t1".to_string()).rejection(),
        Rejected::Failed(Error::from("Server is already registered: t1"))
    );
    assert_eq!(
        Failure::ConfigError(ConfigFailure::PortNotANumber).rejection(),
        Rejected::Failed(Error::from("Failed parsing port"))
    );
    assert_eq!(
        Failure::ParseError(ParseFailure::ContainerIdMissing).rejection(),
        Rejected::Failed(Error::from("Couldn't find container ID"))
    );
}

#[test]
fn error_message_for_an_unknown_route() {
    assert_eq!(
        error_message(&Rejected::NotFound),
        ErrorMessage { code: 404, message: "NOT_FOUND".to_string() }
    );
}

#[test]
fn error_message_for_a_missing_instance() {
    assert_eq!(
        error_message(&Rejected::NotRegistered(not_registered("t1"))),
        ErrorMessage { code: 500, message: "Server is not registered: t1".to_string() }
    );
}

#[test]
fn error_message_for_a_failure() {
    assert_eq!(
        error_message(&Rejected::Failed(Error::from("Failed to start the container"))),
        ErrorMessage { code: 500, message: "Server Error: Failed to start the container".to_string() }
    );
}

#[test]
fn error_message_for_anything_else() {
    assert_eq!(
        error_message(&Rejected::Unhandled),
        ErrorMessage { code: 418, message: "Unhandled Rejection???".to_string() }
    );
}
