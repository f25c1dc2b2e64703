//! The compose file of one instance: its typed form, the port it
//! publishes, and the merge that rewrites it for a new instance.
//!
//! The typed form keeps every optional entry of the environment as an
//! `Option`, so an entry that the file does not hold is absent in the value
//! and stays absent when the value is written again.

use crate::error::ConfigFailure;
use crate::text::{
    chars_of, decimal, find_from, first_index, is_digit, lemma_decimal_round_trip,
    lemma_first_index, lemma_first_index_is, parse_number, parse_u16, push_decimal,
};
use vstd::prelude::*;
use vstd::string::StringExecFns;

verus! {

/// The port on which the game server listens inside its container.
pub const GAME_PORT: u16 = 25565;

/// The environment of the game-server container.  `eula` and `version` are
/// always there; the other entries are there only if the file holds them.
#[derive(Debug, Clone, PartialEq, Eq)]
pub struct Env {
    pub eula: String,
    pub version: String,
    pub server_type: Option<String>,
    pub motd: Option<String>,
    pub difficulty: Option<String>,
    pub enable_whitelist: Option<String>,
    pub whitelist: Option<String>,
    pub ops: Option<String>,
    pub max_players: Option<u16>,
    pub seed: Option<String>,
    pub mode: Option<String>,
    pub custom_server: Option<String>,
}

/// The one service of the compose file: the game-server container.
#[derive(Debug, Clone, PartialEq, Eq)]
pub struct Mc {
    pub image: String,
    pub ports: Vec<String>,
    pub environment: Env,
    pub tty: bool,
    pub stdin_open: bool,
    pub restart: String,
    pub volumes: Vec<String>,
}

/// The services of the compose file.
#[derive(Debug, Clone, PartialEq, Eq)]
pub struct Services {
    pub mc: Mc,
}

/// The compose file of one instance.
#[derive(Debug, Clone, PartialEq, Eq)]
pub struct ComposeYaml {
    pub version: String,
    pub services: Services,
}

/// What a merge changes: the published port always, the game version and
/// the server variant only where one is given.
#[derive(Debug, Clone, PartialEq, Eq)]
pub struct Overrides {
    pub port: u16,
    pub version: Option<String>,
    pub server_type: Option<String>,
}

/// The settings that the container runtime is given for a container made
/// from a compose file.
#[derive(Debug, Clone, PartialEq, Eq)]
pub struct ContainerConfig {
    pub image: Option<String>,
    pub tty: Option<bool>,
    pub open_stdin: Option<bool>,
    pub env: Option<Vec<String>>,
    pub exposed_ports: Option<Vec<String>>,
    pub volumes: Option<Vec<String>>,
}

/// An `Env` as plain mathematical values.
pub struct EnvView {
    pub eula: Seq<char>,
    pub version: Seq<char>,
    pub server_type: Option<Seq<char>>,
    pub motd: Option<Seq<char>>,
    pub difficulty: Option<Seq<char>>,
    pub enable_whitelist: Option<Seq<char>>,
    pub whitelist: Option<Seq<char>>,
    pub ops: Option<Seq<char>>,
    pub max_players: Option<u16>,
    pub seed: Option<Seq<char>>,
    pub mode: Option<Seq<char>>,
    pub custom_server: Option<Seq<char>>,
}

/// An `Mc` as plain mathematical values.
pub struct McView {
    pub image: Seq<char>,
    pub ports: Seq<Seq<char>>,
    pub environment: EnvView,
    pub tty: bool,
    pub stdin_open: bool,
    pub restart: Seq<char>,
    pub volumes: Seq<Seq<char>>,
}

/// A `ComposeYaml` as plain mathematical values.
pub struct ComposeView {
    pub version: Seq<char>,
    pub mc: McView,
}

/// `Overrides` as plain mathematical values.
pub struct OverridesView {
    pub port: u16,
    pub version: Option<Seq<char>>,
    pub server_type: Option<Seq<char>>,
}

impl View for Env {
    type V = EnvView;

    open spec fn view(&self) -> EnvView {
        EnvView {
            eula: self.eula@,
            version: self.version@,
            server_type: self.server_type.deep_view(),
            motd: self.motd.deep_view(),
            difficulty: self.difficulty.deep_view(),
            enable_whitelist: self.enable_whitelist.deep_view(),
            whitelist: self.whitelist.deep_view(),
            ops: self.ops.deep_view(),
            max_players: self.max_players,
            seed: self.seed.deep_view(),
            mode: self.mode.deep_view(),
            custom_server: self.custom_server.deep_view(),
        }
    }
}

impl View for Mc {
    type V = McView;

    open spec fn view(&self) -> McView {
        McView {
            image: self.image@,
            ports: self.ports.deep_view(),
            environment: self.environment@,
            tty: self.tty,
            stdin_open: self.stdin_open,
            restart: self.restart@,
            volumes: self.volumes.deep_view(),
        }
    }
}

impl View for ComposeYaml {
    type V = ComposeView;

    open spec fn view(&self) -> ComposeView {
        ComposeView { version: self.version@, mc: self.services.mc@ }
    }
}

impl View for Overrides {
    type V = OverridesView;

    open spec fn view(&self) -> OverridesView {
        OverridesView {
            port: self.port,
            version: self.version.deep_view(),
            server_type: self.server_type.deep_view(),
        }
    }
}

/// The port mapping that publishes the game port under `port`:
/// `port`, a colon, and the game port, both in base ten.
pub open spec fn port_mapping(port: u16) -> Seq<char> {
    decimal(port as nat) + seq![':'] + decimal(GAME_PORT as nat)
}

/// The outside port of one port mapping: what stands before the first
/// colon, read as a port number.
pub open spec fn outside_port(mapping: Seq<char>) -> Result<u16, ConfigFailure> {
    if !mapping.contains(':') {
        Err(ConfigFailure::PortMappingMalformed)
    } else {
        match parse_u16(mapping.take(first_index(mapping, ':'))) {
            Some(port) => Ok(port),
            None => Err(ConfigFailure::PortNotANumber),
        }
    }
}

/// The port that a list of port mappings publishes: the outside port of
/// the first mapping.
pub open spec fn published_port(ports: Seq<Seq<char>>) -> Result<u16, ConfigFailure> {
    if ports.len() == 0 {
        Err(ConfigFailure::PortMappingMissing)
    } else {
        outside_port(ports[0])
    }
}

/// The compose file `existing` after a merge with `overrides`.
pub open spec fn merged(existing: ComposeView, overrides: OverridesView) -> ComposeView {
    ComposeView {
        mc: McView {
            ports: seq![port_mapping(overrides.port)],
            environment: EnvView {
                version: match overrides.version {
                    Some(version) => version,
                    None => existing.mc.environment.version,
                },
                server_type: match overrides.server_type {
                    Some(server_type) => Some(server_type),
                    None => existing.mc.environment.server_type,
                },
                ..existing.mc.environment
            },
            ..existing.mc
        },
        ..existing
    }
}

/// Merging twice with the same overrides gives what merging once gives.
pub proof fn lemma_merge_is_idempotent(existing: ComposeView, overrides: OverridesView)
    ensures
        merged(merged(existing, overrides), overrides) == merged(existing, overrides),
{
}

/// A merge leaves alone whatever it is not told to change: the file's
/// version, the image, the terminal flags, the restart policy, the volumes
/// and every entry of the environment but the game version and the server
/// variant.  An optional entry that is absent stays absent, one that is
/// there keeps its value.  The game version and the server variant change
/// only where the overrides hold one.
pub proof fn lemma_merge_keeps_the_rest(existing: ComposeView, overrides: OverridesView)
    ensures
        ({
            let after = merged(existing, overrides);
            let env = after.mc.environment;
            let old_env = existing.mc.environment;
            &&& after.version == existing.version
            &&& after.mc.image == existing.mc.image
            &&& after.mc.tty == existing.mc.tty
            &&& after.mc.stdin_open == existing.mc.stdin_open
            &&& after.mc.restart == existing.mc.restart
            &&& after.mc.volumes == existing.mc.volumes
            &&& env.eula == old_env.eula
            &&& env.motd == old_env.motd
            &&& env.difficulty == old_env.difficulty
            &&& env.enable_whitelist == old_env.enable_whitelist
            &&& env.whitelist == old_env.whitelist
            &&& env.ops == old_env.ops
            &&& env.max_players == old_env.max_players
            &&& env.seed == old_env.seed
            &&& env.mode == old_env.mode
            &&& env.custom_server == old_env.custom_server
            &&& overrides.version is None ==> env.version == old_env.version
            &&& overrides.server_type is None ==> env.server_type == old_env.server_type
        }),
{
}

/// A compose file that already publishes `port` in the form that a merge
/// writes is not changed by a merge that overrides nothing else.
pub proof fn lemma_merge_of_merged_file_changes_nothing(existing: ComposeView, port: u16)
    requires
        existing.mc.ports == seq![port_mapping(port)],
    ensures
        merged(existing, OverridesView { port, version: None, server_type: None }) == existing,
{
}

/// The port mapping of `port` reads back as `port`.
pub proof fn lemma_port_mapping_reads_back(port: u16)
    ensures
        outside_port(port_mapping(port)) == Ok::<u16, ConfigFailure>(port),
{
    let head = decimal(port as nat);
    let mapping = port_mapping(port);
    lemma_decimal_round_trip(port as nat);
    assert(mapping[head.len() as int] == ':');
    assert forall|j: int| 0 <= j < head.len() implies mapping[j] != ':' by {
        assert(mapping[j] == head[j]);
        assert(is_digit(head[j]));
    }
    lemma_first_index_is(mapping, ':', head.len() as int);
    assert(mapping.take(head.len() as int) =~= head);
}

/// After a merge the compose file publishes the port of the overrides.
pub proof fn lemma_merged_file_publishes_the_port(existing: ComposeView, overrides: OverridesView)
    ensures
        published_port(merged(existing, overrides).mc.ports) == Ok::<u16, ConfigFailure>(
            overrides.port,
        ),
{
    lemma_port_mapping_reads_back(overrides.port);
}

/// The text of the port mapping that publishes the game port under `port`.
pub fn port_mapping_text(port: u16) -> (mapping: String)
    ensures
        mapping@ == port_mapping(port),
{
    let mut mapping = String::new();
    push_decimal(&mut mapping, port);
    proof {
        reveal_strlit(":");
    }
    mapping.append(":");
    push_decimal(&mut mapping, GAME_PORT);
    assert(mapping@ =~= port_mapping(port));
    mapping
}

/// The outside port of the port mapping `mapping`.
pub fn read_outside_port(mapping: &str) -> (port: Result<u16, ConfigFailure>)
    ensures
        port == outside_port(mapping@),
{
    let chars = chars_of(mapping);
    let colon = find_from(&chars, 0, ':');
    proof {
        assert(chars@.skip(0) =~= chars@);
        lemma_first_index(chars@, ':');
        assert(chars@.subrange(0, colon as int) =~= chars@.take(colon as int));
    }
    if colon == chars.len() {
        return Err(ConfigFailure::PortMappingMalformed);
    }
    match parse_number(&chars, 0, colon) {
        Some(port) => Ok(port),
        None => Err(ConfigFailure::PortNotANumber),
    }
}

impl ComposeYaml {
    /// The port that this compose file publishes.  The three errors tell a
    /// file without a port mapping from a first mapping without a colon
    /// and from an outside port that is no port number.
    pub fn published_port(&self) -> (port: Result<u16, ConfigFailure>)
        ensures
            port == published_port(self@.mc.ports),
    {
        if self.services.mc.ports.len() == 0 {
            return Err(ConfigFailure::PortMappingMissing);
        }
        read_outside_port(self.services.mc.ports[0].as_str())
    }

    /// This compose file made ready for an instance: it publishes the game
    /// port under the port of the overrides, whatever it published before,
    /// takes the game version and the server variant of the overrides
    /// where they hold one, and keeps everything else.
    pub fn merge(self, overrides: Overrides) -> (result: ComposeYaml)
        ensures
            result@ == merged(self@, overrides@),
    {
        let mut result = self;
        let mut ports: Vec<String> = Vec::new();
        ports.push(port_mapping_text(overrides.port));
        assert(ports.deep_view() =~= seq![port_mapping(overrides.port)]);
        result.services.mc.ports = ports;
        match overrides.version {
            Some(version) => {
                result.services.mc.environment.version = version;
            },
            None => {},
        }
        match overrides.server_type {
            Some(server_type) => {
                result.services.mc.environment.server_type = Some(server_type);
            },
            None => {},
        }
        result
    }

    /// The container settings for this compose file: its image, with a
    /// terminal and an open standard input, and with no environment, no
    /// exposed port and no volume set.
    pub fn to_config(&self) -> (config: ContainerConfig)
        ensures
            config.image.deep_view() == Some(self@.mc.image),
            config.tty == Some(true),
            config.open_stdin == Some(true),
            config.env.deep_view() == Some(Seq::<Seq<char>>::empty()),
            config.exposed_ports.deep_view() == Some(Seq::<Seq<char>>::empty()),
            config.volumes.deep_view() == Some(Seq::<Seq<char>>::empty()),
    {
        let env: Vec<String> = Vec::new();
        let exposed_ports: Vec<String> = Vec::new();
        let volumes: Vec<String> = Vec::new();
        assert(env.deep_view() =~= Seq::<Seq<char>>::empty());
        assert(exposed_ports.deep_view() =~= Seq::<Seq<char>>::empty());
        assert(volumes.deep_view() =~= Seq::<Seq<char>>::empty());
        ContainerConfig {
            image: Some(self.services.mc.image.clone()),
            tty: Some(true),
            open_stdin: Some(true),
            env: Some(env),
            exposed_ports: Some(exposed_ports),
            volumes: Some(volumes),
        }
    }
}

} // verus!
