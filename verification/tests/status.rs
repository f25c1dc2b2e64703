use mc_docker::handlers::{Exec, New};
use mc_docker::status::{
    Motd, Player, Players, Status, StatusFailure, Version, GREETING_HEAD, GREETING_TAIL,
    STATUS_REQUEST,
};
use mc_docker::ws::reply_to;
use mc_docker::Config;

#[test]
fn status_build_returns() {
    Status::build();
}

#[test]
fn status_holds_what_a_server_reports() {
    let status = Status {
        version: Version { name: "1.19".to_string() },
        players: Players {
            max: 100,
            online: 5,
            sample: vec![Player {
                name: "thinkofdeath".to_string(),
                id: "4566e69f-c907-48ee-8d71-d7ba5aa00d20".to_string(),
            }],
        },
        description: Motd { text: "Hello world".to_string() },
        favicon: "data:image/png;base64,<data>".to_string(),
    };
    assert_eq!(status.version.name, "1.19");
    assert_eq!(status.players.online, 5);
    assert_eq!(status.players.sample.len(), 1);
    assert_eq!(status.clone(), status);
}

#[test]
fn request_bodies_hold_their_fields() {
    let exec = Exec { args: vec!["list".to_string()] };
    assert_eq!(exec.args, vec!["list".to_string()]);
    let new = New {
        id: "t1".to_string(),
        path: None,
        port: Some(31001),
        version: Some("1.19.2".to_string()),
        server_type: None,
    };
    assert_eq!(new.clone(), new);
}

#[test]
fn config_holds_the_settings() {
    let config = Config {
        fb_id: "mc-docker".to_string(),
        ws_port: 7955,
        path: "/home/mc/servers".to_string(),
        modules: Vec::new(),
    };
    assert_eq!(config.ws_port, 7955);
    assert_eq!(config.clone(), config);
}

#[test]
fn greeting_wraps_the_address() {
    assert_eq!(Status::greeting("localhost:25565"), "\\x00\\x00localhost:25565\\x01");
    assert_eq!(Status::greeting(""), "\\x00\\x00\\x01");
    assert_eq!(GREETING_HEAD, r"\x00\x00");
    assert_eq!(GREETING_TAIL, r"\x01");
    assert_eq!(STATUS_REQUEST, r"\x00");
}

#[test]
fn socket_answers_by_the_message() {
    assert_eq!(reply_to("aaa"), "a");
    assert_eq!(reply_to("bbb"), "b");
    assert_eq!(reply_to("ccc"), "c");
    assert_eq!(reply_to(""), "c");
    assert_eq!(reply_to("aaaa"), "c");
    assert_eq!(reply_to("AAA"), "c");
}

#[test]
fn status_failures_have_their_own_sentences() {
    assert_eq!(StatusFailure::NoConnection.error().reason(), "Failed to open TCP stream");
    assert_eq!(StatusFailure::NoAnswer.error().reason(), "Failed to ping the server for status");
}
