//! The record of one managed game-server instance, how it comes to be, and
//! what it asks of the container runtime.

use crate::cloud::Unique;
use crate::compose::{merged, published_port, ComposeView, ComposeYaml, Overrides, OverridesView};
use crate::error::{ConfigFailure, Failure, FailureView, ParseFailure};
use crate::handlers::{New, NewView};
use crate::ports::{choose_port, chosen_port, is_in_use};
use crate::runtime::{
    console_command, container_id, exec_command, parse_container_id, tail_request, LogRequest,
    RuntimeCall, RuntimeCallView,
};
use crate::status::StatusRequest;
use crate::text::text_of;
use vstd::prelude::*;
use vstd::string::StringExecFns;
use vstd::utf8::{decode_utf8, valid_utf8};

verus! {

/// The name of the compose file in an instance's directory.
pub const COMPOSE_FILE: &'static str = "docker-compose.yml";

/// The host on which the instances listen.
pub const LOCAL_HOST: &'static str = "localhost";

/// One managed instance: its unique name, the identifier that the container
/// runtime gave its container, the directory that holds its compose file,
/// and the port under which it is reached from outside.
#[derive(Debug, PartialEq, Eq)]
pub struct Server {
    pub name: String,
    pub id: String,
    pub path: String,
    pub port: u16,
}

/// What a `Server` holds, as plain mathematical values.
pub struct ServerView {
    pub name: Seq<char>,
    pub id: Seq<char>,
    pub path: Seq<char>,
    pub port: u16,
}

impl View for Server {
    type V = ServerView;

    open spec fn view(&self) -> ServerView {
        ServerView { name: self.name@, id: self.id@, path: self.path@, port: self.port }
    }
}

impl DeepView for Server {
    type V = ServerView;

    open spec fn deep_view(&self) -> ServerView {
        self@
    }
}

impl Clone for Server {
    fn clone(&self) -> (copy: Server)
        ensures
            copy@ == self@,
    {
        Server {
            name: self.name.clone(),
            id: self.id.clone(),
            path: self.path.clone(),
            port: self.port,
        }
    }
}

/// Where an instance lives: its directory and the compose file in it.
#[derive(Debug, Clone, PartialEq, Eq)]
pub struct Site {
    pub path: String,
    pub compose_path: String,
}

/// A `Site` as plain mathematical values.
pub struct SiteView {
    pub path: Seq<char>,
    pub compose_path: Seq<char>,
}

impl View for Site {
    type V = SiteView;

    open spec fn view(&self) -> SiteView {
        SiteView { path: self.path@, compose_path: self.compose_path@ }
    }
}

/// The directory of the instance `name`: the requested one, or else the
/// directory of that name under `base`.
pub open spec fn instance_path(requested: Option<Seq<char>>, base: Seq<char>, name: Seq<char>) -> Seq<
    char,
> {
    match requested {
        Some(path) => path,
        None => base + seq!['/'] + name,
    }
}

/// The compose file in the directory `path`.
pub open spec fn compose_path(path: Seq<char>) -> Seq<char> {
    path + seq!['/'] + COMPOSE_FILE@
}

/// Where the instance `name` lives.
pub fn locate(name: &str, requested: Option<&str>, base: &str) -> (site: Site)
    ensures
        site.path@ == instance_path(
            match requested {
                Some(path) => Some(path@),
                None => None,
            },
            base@,
            name@,
        ),
        site.compose_path@ == compose_path(site.path@),
{
    proof {
        reveal_strlit("/");
    }
    let path = match requested {
        Some(path) => String::from_str(path),
        None => {
            let path = String::from_str(base).concat("/").concat(name);
            assert(path@ =~= base@ + seq!['/'] + name@);
            path
        },
    };
    let file = path.clone().concat("/").concat(COMPOSE_FILE);
    assert(file@ =~= compose_path(path@));
    Site { path, compose_path: file }
}

/// What has to be written and brought up for a new instance: its name,
/// where it lives, its port, and what its compose file has to hold.
#[derive(Debug, Clone, PartialEq, Eq)]
pub struct Plan {
    pub name: String,
    pub site: Site,
    pub port: u16,
    pub compose: ComposeYaml,
}

/// A `Plan` as plain mathematical values.
pub struct PlanView {
    pub name: Seq<char>,
    pub site: SiteView,
    pub port: u16,
    pub compose: ComposeView,
}

impl View for Plan {
    type V = PlanView;

    open spec fn view(&self) -> PlanView {
        PlanView { name: self.name@, site: self.site@, port: self.port, compose: self.compose@ }
    }
}

/// The plan for the instance that `request` asks for, which lives at
/// `site`, whose compose file holds `existing` while the template holds
/// `template`, when the ports `in_use` are taken.
///
/// The compose file and then the template must publish a port.  The port is
/// chosen as `chosen_port` says; that no port is left is a failure, and so
/// is a port that is taken, whether it was requested or read from the
/// compose file.  The compose file of the plan is the merge of `existing`
/// with the port and the request's game version and server variant.
pub open spec fn planned(
    request: NewView,
    site: SiteView,
    existing: ComposeView,
    template: ComposeView,
    in_use: Set<u16>,
    baseline: u16,
) -> Result<PlanView, ConfigFailure> {
    match published_port(existing.mc.ports) {
        Err(failure) => Err(failure),
        Ok(persisted) => match published_port(template.mc.ports) {
            Err(failure) => Err(failure),
            Ok(template_port) => match chosen_port(
                request.port,
                persisted,
                template_port,
                in_use,
                baseline,
            ) {
                None => Err(ConfigFailure::PortsExhausted),
                Some(port) => if in_use.contains(port) {
                    Err(ConfigFailure::PortInUse)
                } else {
                    Ok(
                        PlanView {
                            name: request.id,
                            site,
                            port,
                            compose: merged(
                                existing,
                                OverridesView {
                                    port,
                                    version: request.version,
                                    server_type: request.server_type,
                                },
                            ),
                        },
                    )
                },
            },
        },
    }
}

/// The record of the instance of `plan` once the runtime has printed
/// `output` while bringing it up.
pub open spec fn created(plan: PlanView, output: Seq<u8>) -> Result<ServerView, FailureView> {
    if !valid_utf8(output) {
        Err(FailureView::ParseError(ParseFailure::OutputNotText))
    } else {
        match container_id(decode_utf8(output)) {
            Some(id) => Ok(
                ServerView { name: plan.name, id, path: plan.site.path, port: plan.port },
            ),
            None => Err(FailureView::ParseError(ParseFailure::ContainerIdMissing)),
        }
    }
}

impl Plan {
    /// Plans the instance that `request` asks for.  Nothing is written and
    /// nothing is started: the plan says which port the instance gets and
    /// what its compose file has to hold.
    pub fn new(
        request: New,
        site: Site,
        existing: ComposeYaml,
        template: &ComposeYaml,
        in_use: &Vec<u16>,
        baseline: u16,
    ) -> (plan: Result<Plan, Failure>)
        ensures
            match planned(request@, site@, existing@, template@, in_use@.to_set(), baseline) {
                Ok(expected) => plan matches Ok(p) && p@ == expected,
                Err(failure) => plan matches Err(f) && f@ == FailureView::ConfigError(failure),
            },
    {
        let persisted = match existing.published_port() {
            Ok(port) => port,
            Err(failure) => {
                return Err(Failure::ConfigError(failure));
            },
        };
        let template_port = match template.published_port() {
            Ok(port) => port,
            Err(failure) => {
                return Err(Failure::ConfigError(failure));
            },
        };
        let port = match choose_port(request.port, persisted, template_port, in_use, baseline) {
            Some(port) => port,
            None => {
                return Err(Failure::ConfigError(ConfigFailure::PortsExhausted));
            },
        };
        if is_in_use(in_use, port) {
            return Err(Failure::ConfigError(ConfigFailure::PortInUse));
        }
        let overrides = Overrides {
            port,
            version: request.version,
            server_type: request.server_type,
        };
        let compose = existing.merge(overrides);
        Ok(Plan { name: request.id, site, port, compose })
    }
}

impl Server {
    /// The record of the instance of `plan`, made once the runtime has
    /// brought it up and printed `output`.  The container's identifier is
    /// read from `output`; output that is no text, and output that names no
    /// container, are failures of their own.
    pub fn new(plan: Plan, output: &[u8]) -> (server: Result<Server, Failure>)
        ensures
            match created(plan@, output@) {
                Ok(expected) => server matches Ok(s) && s@ == expected,
                Err(failure) => server matches Err(f) && f@ == failure,
            },
    {
        let text = match text_of(output) {
            Some(text) => text,
            None => {
                return Err(Failure::ParseError(ParseFailure::OutputNotText));
            },
        };
        match parse_container_id(text) {
            Ok(id) => Ok(Server { name: plan.name, id, path: plan.site.path, port: plan.port }),
            Err(failure) => Err(failure),
        }
    }

    /// The request that starts this instance's container.
    pub fn start(&self) -> (call: RuntimeCall)
        ensures
            call@ == (RuntimeCallView::Start { id: self@.id }),
    {
        RuntimeCall::Start { id: self.id.clone() }
    }

    /// The request that stops this instance's container.
    pub fn stop(&self) -> (call: RuntimeCall)
        ensures
            call@ == (RuntimeCallView::Stop { id: self@.id }),
    {
        RuntimeCall::Stop { id: self.id.clone() }
    }

    /// The request that runs `cmd` on this instance's console.
    pub fn send_command(&self, cmd: &Vec<String>) -> (call: RuntimeCall)
        ensures
            call@ == (RuntimeCallView::Exec {
                id: self@.id,
                command: console_command(cmd.deep_view()),
            }),
    {
        RuntimeCall::Exec { id: self.id.clone(), command: exec_command(cmd) }
    }

    /// The request for this instance's log from `since` on, a moment given
    /// in seconds since the Unix epoch.
    pub fn output(&self, since: i64) -> (call: RuntimeCall)
        ensures
            call@ == (RuntimeCallView::Logs {
                id: self@.id,
                request: LogRequest { stdout: true, follow: true, since },
            }),
    {
        RuntimeCall::Logs { id: self.id.clone(), request: tail_request(since) }
    }

    /// Where to ask this instance's game server for its status.
    pub fn status(&self) -> (request: StatusRequest)
        ensures
            request.hostname@ == LOCAL_HOST@,
            request.port == self.port,
    {
        StatusRequest { hostname: String::from_str(LOCAL_HOST), port: self.port }
    }
}

impl Unique for Server {
    /// An instance is known by its name.
    fn uuid(&self) -> (key: String)
        ensures
            key@ == self@.name,
    {
        self.name.clone()
    }
}

} // verus!
