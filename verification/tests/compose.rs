use mc_docker::compose::{
    port_mapping_text, read_outside_port, ComposeYaml, ContainerConfig, Env, Mc, Overrides,
    Services, GAME_PORT,
};
use mc_docker::error::ConfigFailure;

fn template() -> ComposeYaml {
    ComposeYaml {
        version: "3".to_string(),
        services: Services {
            mc: Mc {
                image: "itzg/minecraft-server".to_string(),
                ports: vec!["25565:25565".to_string()],
                environment: Env {
                    eula: "TRUE".to_string(),
                    version: "1.19.2".to_string(),
                    server_type: None,
                    motd: None,
                    difficulty: None,
                    enable_whitelist: None,
                    whitelist: None,
                    ops: None,
                    max_players: None,
                    seed: None,
                    mode: None,
                    custom_server: None,
                },
                tty: true,
                stdin_open: true,
                restart: "unless-stopped".to_string(),
                volumes: vec!["./data:/data".to_string()],
            },
        },
    }
}

fn with_ports(ports: Vec<&str>) -> ComposeYaml {
    let mut compose = template();
    compose.services.mc.ports = ports.into_iter().map(|p| p.to_string()).collect();
    compose
}

fn only_port(port: u16) -> Overrides {
    Overrides { port, version: None, server_type: None }
}

#[test]
fn game_port_is_25565() {
    assert_eq!(GAME_PORT, 25565);
}

#[test]
fn port_mapping_text_has_the_exact_form() {
    assert_eq!(port_mapping_text(31002), "31002:25565");
    assert_eq!(port_mapping_text(0), "0:25565");
    assert_eq!(port_mapping_text(65535), "65535:25565");
    assert_eq!(port_mapping_text(25565), "25565:25565");
}

#[test]
fn published_port_reads_the_outside_port_of_the_first_mapping() {
    assert_eq!(template().published_port(), Ok(25565));
    assert_eq!(with_ports(vec!["31005:25565"]).published_port(), Ok(31005));
    assert_eq!(with_ports(vec!["31005:25565", "x"]).published_port(), Ok(31005));
    assert_eq!(with_ports(vec!["8080:80:tcp"]).published_port(), Ok(8080));
    assert_eq!(with_ports(vec!["7:"]).published_port(), Ok(7));
}

#[test]
fn published_port_without_a_mapping_is_missing() {
    assert_eq!(
        with_ports(Vec::new()).published_port(),
        Err(ConfigFailure::PortMappingMissing)
    );
}

#[test]
fn published_port_without_a_colon_is_malformed() {
    assert_eq!(
        with_ports(vec!["25565"]).published_port(),
        Err(ConfigFailure::PortMappingMalformed)
    );
    assert_eq!(with_ports(vec![""]).published_port(), Err(ConfigFailure::PortMappingMalformed));
    assert_eq!(
        with_ports(vec!["25565", "31000:25565"]).published_port(),
        Err(ConfigFailure::PortMappingMalformed)
    );
}

#[test]
fn published_port_with_an_unreadable_outside_port_is_not_a_number() {
    for mapping in [":25565", "abc:25565", "70000:25565", "-1:25565", " 80:25565", "80 :25565"] {
        assert_eq!(
            with_ports(vec![mapping]).published_port(),
            Err(ConfigFailure::PortNotANumber),
            "{mapping}"
        );
    }
}

#[test]
fn read_outside_port_reads_what_stands_before_the_first_colon() {
    assert_eq!(read_outside_port("31000:25565"), Ok(31000));
    assert_eq!(read_outside_port("+31000:25565"), Ok(31000));
    assert_eq!(read_outside_port("031000:x"), Ok(31000));
    assert_eq!(read_outside_port("31000"), Err(ConfigFailure::PortMappingMalformed));
    assert_eq!(read_outside_port("x:1"), Err(ConfigFailure::PortNotANumber));
}

#[test]
fn merge_replaces_the_port_mapping_whatever_it_was() {
    let merged = template().merge(only_port(31002));
    assert_eq!(merged.services.mc.ports, vec!["31002:25565".to_string()]);
    let merged = with_ports(vec!["1:2", "3:4", "junk"]).merge(only_port(31002));
    assert_eq!(merged.services.mc.ports, vec!["31002:25565".to_string()]);
    let merged = with_ports(Vec::new()).merge(only_port(40000));
    assert_eq!(merged.services.mc.ports, vec!["40000:25565".to_string()]);
}

#[test]
fn merge_without_overrides_keeps_everything_but_the_port() {
    let mut expected = template();
    expected.services.mc.ports = vec!["31002:25565".to_string()];
    assert_eq!(template().merge(only_port(31002)), expected);
}

#[test]
fn merge_sets_the_version_only_where_one_is_given() {
    let merged = template().merge(Overrides {
        port: 31002,
        version: Some("1.20.1".to_string()),
        server_type: None,
    });
    assert_eq!(merged.services.mc.environment.version, "1.20.1");
    assert_eq!(merged.services.mc.environment.server_type, None);
    let merged = template().merge(only_port(31002));
    assert_eq!(merged.services.mc.environment.version, "1.19.2");
}

#[test]
fn merge_sets_the_server_type_only_where_one_is_given() {
    let merged = template().merge(Overrides {
        port: 31002,
        version: None,
        server_type: Some("PAPER".to_string()),
    });
    assert_eq!(merged.services.mc.environment.server_type, Some("PAPER".to_string()));
    assert_eq!(merged.services.mc.environment.version, "1.19.2");
    let mut forge = template();
    forge.services.mc.environment.server_type = Some("FORGE".to_string());
    let merged = forge.merge(only_port(31002));
    assert_eq!(merged.services.mc.environment.server_type, Some("FORGE".to_string()));
}

#[test]
fn merge_keeps_absent_entries_absent_and_present_entries_as_they_are() {
    let mut compose = template();
    compose.services.mc.environment.motd = Some("".to_string());
    compose.services.mc.environment.max_players = Some(20);
    compose.services.mc.environment.seed = Some("-42".to_string());
    let merged = compose.merge(Overrides {
        port: 31002,
        version: Some("1.20.1".to_string()),
        server_type: Some("PAPER".to_string()),
    });
    let env = &merged.services.mc.environment;
    assert_eq!(env.eula, "TRUE");
    assert_eq!(env.motd, Some("".to_string()));
    assert_eq!(env.max_players, Some(20));
    assert_eq!(env.seed, Some("-42".to_string()));
    assert_eq!(env.difficulty, None);
    assert_eq!(env.enable_whitelist, None);
    assert_eq!(env.whitelist, None);
    assert_eq!(env.ops, None);
    assert_eq!(env.mode, None);
    assert_eq!(env.custom_server, None);
    assert_eq!(merged.version, "3");
    assert_eq!(merged.services.mc.image, "itzg/minecraft-server");
    assert_eq!(merged.services.mc.restart, "unless-stopped");
    assert_eq!(merged.services.mc.volumes, vec!["./data:/data".to_string()]);
    assert!(merged.services.mc.tty);
    assert!(merged.services.mc.stdin_open);
}

#[test]
fn merge_is_idempotent() {
    let overrides = Overrides {
        port: 31002,
        version: Some("1.20.1".to_string()),
        server_type: Some("PAPER".to_string()),
    };
    let once = template().merge(overrides.clone());
    let twice = once.clone().merge(overrides);
    assert_eq!(once, twice);
}

#[test]
fn merging_a_merged_file_with_its_own_port_changes_nothing() {
    let once = template().merge(only_port(31002));
    let port = once.published_port().unwrap();
    let again = once.clone().merge(only_port(port));
    assert_eq!(once, again);
    let third = again.clone().merge(only_port(port));
    assert_eq!(again, third);
}

#[test]
fn merged_file_publishes_the_port_of_the_overrides() {
    for port in [0u16, 1, 80, 25565, 31001, 65535] {
        assert_eq!(template().merge(only_port(port)).published_port(), Ok(port));
    }
}

#[test]
fn to_config_takes_the_image_and_opens_a_terminal() {
    let config = template().to_config();
    assert_eq!(
        config,
        ContainerConfig {
            image: Some("itzg/minecraft-server".to_string()),
            tty: Some(true),
            open_stdin: Some(true),
            env: Some(Vec::new()),
            exposed_ports: Some(Vec::new()),
            volumes: Some(Vec::new()),
        }
    );
}
