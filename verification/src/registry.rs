//! The registry: which instances the manager holds.
//!
//! The registry maps the name of an instance to its record.  No two records
//! share a name or a port, whatever is asked of the registry, and a record
//! that is held is never changed: it can only be taken out.
//!
//! A name is absent until an instance is created under it.  Creating takes
//! three steps, `begin`, `plan` and `complete`, with the caller's work on
//! files and on the runtime between them; while it lasts the instance
//! exists as a `Plan` in the caller's hands only, and the registry shows
//! nothing of it.  Once the record is held, starting and stopping ask the
//! runtime and leave the record alone.  `remove` makes the name absent
//! again.
//!
//! The registry lives in memory and belongs to whoever made it.  Several
//! tasks share one registry by putting it behind a lock and holding the
//! lock for the whole of each operation, for a creation from `begin` to
//! `complete`.

use crate::compose::{published_port, ComposeView, ComposeYaml};
use crate::error::{ConfigFailure, Failure, FailureView, NotRegistered};
use crate::handlers::{New, NewView};
use crate::ports::{chosen_port, is_next_free, lemma_next_free, next_free};
use crate::runtime::{container_id, console_command, LogRequest, RuntimeCall, RuntimeCallView};
use crate::server::{
    compose_path, created, instance_path, locate, planned, Plan, PlanView, Server, ServerView, Site,
    SiteView,
};
use crate::status::StatusRequest;
use vstd::prelude::*;
use vstd::string::StringExecFns;
use vstd::utf8::decode_utf8;

verus! {

/// The records of a registry, each under the name of its instance.
pub type Records = Map<Seq<char>, ServerView>;

/// Whether one of `records` holds `port`.
pub open spec fn port_held(records: Records, port: u16) -> bool {
    exists|name: Seq<char>| records.contains_key(name) && #[trigger] records[name].port == port
}

/// The ports that `records` hold.
pub open spec fn held_ports(records: Records) -> Set<u16> {
    Set::new(|port: u16| port_held(records, port))
}

/// What holds of the records of every registry: there are finitely many,
/// each stands under its own name, and no two of them share a port.
pub open spec fn well_formed(records: Records) -> bool {
    &&& records.dom().finite()
    &&& forall|name: Seq<char>| records.contains_key(name) ==> #[trigger] records[name].name == name
    &&& forall|a: Seq<char>, b: Seq<char>|
        records.contains_key(a) && records.contains_key(b) && a != b ==> #[trigger] records[a].port
            != #[trigger] records[b].port
}

/// Why `server` cannot join `records`, if it cannot: its name is taken, or
/// else its port is.
pub open spec fn insert_failure(records: Records, server: ServerView) -> Option<FailureView> {
    if records.contains_key(server.name) {
        Some(FailureView::DuplicateInstance(server.name))
    } else if port_held(records, server.port) {
        Some(FailureView::ConfigError(ConfigFailure::PortInUse))
    } else {
        None
    }
}

/// Whether a record of `records` under another name than `name` holds
/// `port`.
pub open spec fn port_held_by_other(records: Records, name: Seq<char>, port: u16) -> bool {
    exists|other: Seq<char>|
        records.contains_key(other) && other != name && #[trigger] records[other].port == port
}

/// The records after `servers` were stored one after another.  A record
/// takes the place of an earlier record of its name, so of the records of
/// one name the last one stays.  A record whose port is held under another
/// name by then is left out, and what was held under its name stays.
pub open spec fn restored(servers: Seq<ServerView>) -> Records
    decreases servers.len(),
{
    if servers.len() == 0 {
        Map::empty()
    } else {
        let earlier = restored(servers.drop_last());
        let last = servers.last();
        if port_held_by_other(earlier, last.name, last.port) {
            earlier
        } else {
            earlier.insert(last.name, last)
        }
    }
}

/// The record of `name`, or the failure that says that there is none.
pub open spec fn looked_up(records: Records, name: Seq<char>) -> Result<ServerView, FailureView> {
    if records.contains_key(name) {
        Ok(records[name])
    } else {
        Err(FailureView::NotRegistered(name))
    }
}

/// What starting the instance `name` asks of the runtime.
pub open spec fn start_call(records: Records, name: Seq<char>) -> Result<
    RuntimeCallView,
    FailureView,
> {
    match looked_up(records, name) {
        Ok(server) => Ok(RuntimeCallView::Start { id: server.id }),
        Err(failure) => Err(failure),
    }
}

/// What stopping the instance `name` asks of the runtime.
pub open spec fn stop_call(records: Records, name: Seq<char>) -> Result<
    RuntimeCallView,
    FailureView,
> {
    match looked_up(records, name) {
        Ok(server) => Ok(RuntimeCallView::Stop { id: server.id }),
        Err(failure) => Err(failure),
    }
}

/// What running `argv` on the console of the instance `name` asks of the
/// runtime.
pub open spec fn exec_call(records: Records, name: Seq<char>, argv: Seq<Seq<char>>) -> Result<
    RuntimeCallView,
    FailureView,
> {
    match looked_up(records, name) {
        Ok(server) => Ok(RuntimeCallView::Exec { id: server.id, command: console_command(argv) }),
        Err(failure) => Err(failure),
    }
}

/// What tailing the log of the instance `name` from `since` on asks of the
/// runtime.
pub open spec fn logs_call(records: Records, name: Seq<char>, since: i64) -> Result<
    RuntimeCallView,
    FailureView,
> {
    match looked_up(records, name) {
        Ok(server) => Ok(
            RuntimeCallView::Logs {
                id: server.id,
                request: LogRequest { stdout: true, follow: true, since },
            },
        ),
        Err(failure) => Err(failure),
    }
}

/// The plan for the instance that `request` asks for, or the failure that
/// refuses it: a name that is taken is refused before anything else is
/// looked at.
pub open spec fn plan_for(
    records: Records,
    request: NewView,
    site: SiteView,
    existing: ComposeView,
    template: ComposeView,
    baseline: u16,
) -> Result<PlanView, FailureView> {
    if records.contains_key(request.id) {
        Err(FailureView::DuplicateInstance(request.id))
    } else {
        match planned(request, site, existing, template, held_ports(records), baseline) {
            Ok(plan) => Ok(plan),
            Err(failure) => Err(FailureView::ConfigError(failure)),
        }
    }
}

/// The record that completes `plan` when the runtime printed `output`, or
/// the failure that keeps it out of `records`.
pub open spec fn completed(records: Records, plan: PlanView, output: Seq<u8>) -> Result<
    ServerView,
    FailureView,
> {
    match created(plan, output) {
        Err(failure) => Err(failure),
        Ok(server) => match insert_failure(records, server) {
            Some(failure) => Err(failure),
            None => Ok(server),
        },
    }
}

/// `records` after the instances `servers` were created one after another.
pub open spec fn grown(records: Records, servers: Seq<ServerView>) -> Records
    decreases servers.len(),
{
    if servers.len() == 0 {
        records
    } else {
        grown(records, servers.drop_last()).insert(servers.last().name, servers.last())
    }
}

/// The `k`-th of `servers` was created on top of `records` and the
/// instances before it: under a name that was free by then, and with the
/// port that the allocator gives without a request, the smallest port above
/// the baseline that no record held by then.
pub open spec fn created_next(
    records: Records,
    baseline: u16,
    servers: Seq<ServerView>,
    k: int,
) -> bool {
    let before = grown(records, servers.take(k));
    &&& !before.contains_key(servers[k].name)
    &&& next_free(held_ports(before), baseline) == Some(servers[k].port)
}

/// The instances `servers` were created one after another on top of
/// `records`, each without a requested port.
pub open spec fn created_in_turn(records: Records, baseline: u16, servers: Seq<ServerView>) -> bool {
    forall|k: int|
        0 <= k < servers.len() ==> #[trigger] created_next(records, baseline, servers, k)
}

/// A plan that is made without a requested port, for an instance whose
/// compose file still shows the template's port, carries the allocator's
/// port: the smallest port above the baseline that no record holds.  So an
/// instance that is created from such a plan meets what `created_in_turn`
/// asks of it.
pub proof fn lemma_fresh_plan_gets_the_next_free_port(
    records: Records,
    request: NewView,
    site: SiteView,
    existing: ComposeView,
    template: ComposeView,
    baseline: u16,
)
    requires
        request.port is None,
        published_port(existing.mc.ports) == published_port(template.mc.ports),
    ensures
        plan_for(records, request, site, existing, template, baseline) matches Ok(plan) ==> {
            &&& !records.contains_key(plan.name)
            &&& next_free(held_ports(records), baseline) == Some(plan.port)
            &&& baseline < plan.port
            &&& !port_held(records, plan.port)
        },
{
    let held = held_ports(records);
    match plan_for(records, request, site, existing, template, baseline) {
        Ok(plan) => {
            let persisted = published_port(existing.mc.ports)->Ok_0;
            assert(planned(request, site, existing, template, held, baseline) == Ok::<
                PlanView,
                ConfigFailure,
            >(plan));
            assert(chosen_port(request.port, persisted, persisted, held, baseline) == next_free(
                held,
                baseline,
            ));
            lemma_next_free(held, baseline);
            assert(is_next_free(held, baseline, plan.port));
            assert(!held.contains(plan.port));
        },
        Err(_) => {},
    }
}

/// A record whose name and port are free joins well-formed records without
/// spoiling them, and adds its port to the ports held.
pub proof fn lemma_insert_keeps_well_formed(records: Records, server: ServerView)
    requires
        well_formed(records),
        insert_failure(records, server) is None,
    ensures
        well_formed(records.insert(server.name, server)),
        held_ports(records.insert(server.name, server)) == held_ports(records).insert(server.port),
        records.insert(server.name, server).dom().len() == records.dom().len() + 1,
{
    let after = records.insert(server.name, server);
    assert forall|a: Seq<char>, b: Seq<char>|
        after.contains_key(a) && after.contains_key(b) && a != b implies #[trigger] after[a].port
        != #[trigger] after[b].port by {
        if a == server.name {
            assert(records.contains_key(b));
            assert(records[b].port != server.port);
        } else if b == server.name {
            assert(records.contains_key(a));
            assert(records[a].port != server.port);
        }
    }
    assert forall|port: u16| held_ports(after).contains(port) == held_ports(records).insert(
        server.port,
    ).contains(port) by {
        if port_held(after, port) {
            let name = choose|name: Seq<char>|
                after.contains_key(name) && #[trigger] after[name].port == port;
            if name != server.name {
                assert(records.contains_key(name) && records[name].port == port);
            }
        }
        if port_held(records, port) {
            let name = choose|name: Seq<char>|
                records.contains_key(name) && #[trigger] records[name].port == port;
            assert(after.contains_key(name) && after[name].port == port);
        }
        if port == server.port {
            assert(after.contains_key(server.name) && after[server.name].port == port);
        }
    }
    assert(held_ports(after) =~= held_ports(records).insert(server.port));
}

/// Taking a record out of well-formed records leaves them well-formed.
pub proof fn lemma_remove_keeps_well_formed(records: Records, name: Seq<char>)
    requires
        well_formed(records),
    ensures
        well_formed(records.remove(name)),
        !records.remove(name).contains_key(name),
{
}

/// Of instances that were created in turn, the first `k` were created in
/// turn.
proof fn lemma_created_in_turn_prefix(
    records: Records,
    baseline: u16,
    servers: Seq<ServerView>,
    k: int,
)
    requires
        created_in_turn(records, baseline, servers),
        0 <= k <= servers.len(),
    ensures
        created_in_turn(records, baseline, servers.take(k)),
{
    let first = servers.take(k);
    assert forall|m: int| 0 <= m < first.len() implies #[trigger] created_next(
        records,
        baseline,
        first,
        m,
    ) by {
        assert(created_next(records, baseline, servers, m));
        assert(first.take(m) =~= servers.take(m));
        assert(first[m] == servers[m]);
    }
}

/// Creating instances in turn keeps the records well-formed and adds one
/// record for each instance.
proof fn lemma_grown_is_well_formed(records: Records, baseline: u16, servers: Seq<ServerView>)
    requires
        well_formed(records),
        created_in_turn(records, baseline, servers),
    ensures
        well_formed(grown(records, servers)),
        grown(records, servers).dom().len() == records.dom().len() + servers.len(),
    decreases servers.len(),
{
    if servers.len() > 0 {
        let n = servers.len() - 1;
        let earlier = servers.drop_last();
        assert(servers.take(n) =~= earlier);
        lemma_created_in_turn_prefix(records, baseline, servers, n);
        lemma_grown_is_well_formed(records, baseline, earlier);
        let before = grown(records, earlier);
        assert(created_next(records, baseline, servers, n));
        lemma_next_free(held_ports(before), baseline);
        assert(is_next_free(held_ports(before), baseline, servers[n].port));
        assert(!held_ports(before).contains(servers[n].port));
        lemma_insert_keeps_well_formed(before, servers.last());
    }
}

/// Creating instances in turn never touches a record that was there
/// before: the new names were free.
pub proof fn lemma_grown_keeps_old_records(
    records: Records,
    baseline: u16,
    servers: Seq<ServerView>,
    name: Seq<char>,
)
    requires
        created_in_turn(records, baseline, servers),
        records.contains_key(name),
    ensures
        grown(records, servers).contains_key(name),
        grown(records, servers)[name] == records[name],
    decreases servers.len(),
{
    if servers.len() > 0 {
        let n = servers.len() - 1;
        let earlier = servers.drop_last();
        assert(servers.take(n) =~= earlier);
        lemma_created_in_turn_prefix(records, baseline, servers, n);
        lemma_grown_keeps_old_records(records, baseline, earlier, name);
        assert(created_next(records, baseline, servers, n));
    }
}

/// Each instance that was created in turn is held with the record it was
/// created with.
proof fn lemma_grown_holds_created(
    records: Records,
    baseline: u16,
    servers: Seq<ServerView>,
    i: int,
)
    requires
        created_in_turn(records, baseline, servers),
        0 <= i < servers.len(),
    ensures
        grown(records, servers).contains_key(servers[i].name),
        grown(records, servers)[servers[i].name] == servers[i],
    decreases servers.len(),
{
    let n = servers.len() - 1;
    let earlier = servers.drop_last();
    if i < n {
        assert(servers.take(n) =~= earlier);
        lemma_created_in_turn_prefix(records, baseline, servers, n);
        lemma_grown_holds_created(records, baseline, earlier, i);
        assert(earlier[i] == servers[i]);
        assert(created_next(records, baseline, servers, n));
        assert(servers[i].name != servers[n].name);
    }
}

/// The port of an instance that was created in turn lies above the
/// baseline and was held by no record and by no instance created before it.
proof fn lemma_created_port_is_new(
    records: Records,
    baseline: u16,
    servers: Seq<ServerView>,
    i: int,
    j: int,
)
    requires
        created_in_turn(records, baseline, servers),
        0 <= i < j < servers.len(),
    ensures
        baseline < servers[j].port,
        !port_held(records, servers[j].port),
        servers[i].port != servers[j].port,
{
    let first = servers.take(j);
    let before = grown(records, first);
    assert(created_next(records, baseline, servers, j));
    lemma_next_free(held_ports(before), baseline);
    assert(is_next_free(held_ports(before), baseline, servers[j].port));
    assert(!port_held(before, servers[j].port));
    lemma_created_in_turn_prefix(records, baseline, servers, j);
    lemma_grown_holds_created(records, baseline, first, i);
    assert(first[i] == servers[i]);
    assert(before.contains_key(servers[i].name) && before[servers[i].name].port
        == servers[i].port);
    if port_held(records, servers[j].port) {
        let name = choose|name: Seq<char>|
            records.contains_key(name) && #[trigger] records[name].port == servers[j].port;
        lemma_grown_keeps_old_records(records, baseline, first, name);
        assert(before.contains_key(name) && before[name].port == servers[j].port);
    }
}

/// Instances that are created one after another, without a requested port,
/// end up as so many more records whose ports are pairwise distinct and lie
/// above the baseline.  Each keeps the record it was created with, and the
/// records stay well-formed.  Starting from no records at all, these are
/// all the records there are.
pub proof fn lemma_creations_in_turn(records: Records, baseline: u16, servers: Seq<ServerView>)
    requires
        well_formed(records),
        created_in_turn(records, baseline, servers),
    ensures
        well_formed(grown(records, servers)),
        grown(records, servers).dom().len() == records.dom().len() + servers.len(),
        forall|i: int|
            0 <= i < servers.len() ==> grown(records, servers).contains_key(
                #[trigger] servers[i].name,
            ) && grown(records, servers)[servers[i].name] == servers[i],
        forall|i: int| 0 <= i < servers.len() ==> baseline < (#[trigger] servers[i]).port,
        forall|i: int| 0 <= i < servers.len() ==> !port_held(records, (#[trigger] servers[i]).port),
        forall|i: int, j: int|
            0 <= i < j < servers.len() ==> (#[trigger] servers[i]).port != (
            #[trigger] servers[j]).port,
{
    lemma_grown_is_well_formed(records, baseline, servers);
    assert forall|i: int| 0 <= i < servers.len() implies grown(records, servers).contains_key(
        #[trigger] servers[i].name,
    ) && grown(records, servers)[servers[i].name] == servers[i] by {
        lemma_grown_holds_created(records, baseline, servers, i);
    }
    assert forall|i: int| 0 <= i < servers.len() implies baseline < (#[trigger] servers[i]).port
        && !port_held(records, servers[i].port) by {
        let first = servers.take(i);
        let before = grown(records, first);
        assert(created_next(records, baseline, servers, i));
        lemma_next_free(held_ports(before), baseline);
        assert(is_next_free(held_ports(before), baseline, servers[i].port));
        assert(!port_held(before, servers[i].port));
        if port_held(records, servers[i].port) {
            let name = choose|name: Seq<char>|
                records.contains_key(name) && #[trigger] records[name].port == servers[i].port;
            lemma_created_in_turn_prefix(records, baseline, servers, i);
            lemma_grown_keeps_old_records(records, baseline, first, name);
            assert(before.contains_key(name) && before[name].port == servers[i].port);
        }
    }
    assert forall|i: int, j: int| 0 <= i < j < servers.len() implies (
    #[trigger] servers[i]).port != (#[trigger] servers[j]).port by {
        lemma_created_port_is_new(records, baseline, servers, i, j);
    }
}

/// Stopping an instance and starting it again asks the runtime twice and
/// changes no record: both requests are made, and both name the container
/// that the record held before and holds after.
pub proof fn lemma_stop_then_start(records: Records, name: Seq<char>)
    requires
        records.contains_key(name),
    ensures
        stop_call(records, name) == Ok::<RuntimeCallView, FailureView>(
            RuntimeCallView::Stop { id: records[name].id },
        ),
        start_call(records, name) == Ok::<RuntimeCallView, FailureView>(
            RuntimeCallView::Start { id: records[name].id },
        ),
{
}

/// Once an instance is removed its name is free again: a plan for that name
/// is not refused as a duplicate, and completing the plan puts the new
/// record in the old one's place, with the identifier that the runtime
/// printed for the new container.
pub proof fn lemma_remove_then_create(
    records: Records,
    request: NewView,
    site: SiteView,
    existing: ComposeView,
    template: ComposeView,
    baseline: u16,
    output: Seq<u8>,
)
    requires
        well_formed(records),
    ensures
        ({
            let removed = records.remove(request.id);
            match plan_for(removed, request, site, existing, template, baseline) {
                Err(failure) => failure is ConfigError,
                Ok(plan) => match completed(removed, plan, output) {
                    Err(failure) => failure is ParseError,
                    Ok(server) => server.name == request.id && Some(server.id) == container_id(
                        decode_utf8(output),
                    ) && well_formed(removed.insert(server.name, server)),
                },
            }
        }),
{
    let removed = records.remove(request.id);
    match plan_for(removed, request, site, existing, template, baseline) {
        Err(failure) => {},
        Ok(plan) => {
            assert(!held_ports(removed).contains(plan.port));
            match completed(removed, plan, output) {
                Err(failure) => {},
                Ok(server) => {
                    lemma_insert_keeps_well_formed(removed, server);
                },
            }
        },
    }
}

/// For a name that is not registered, starting, stopping, running a command
/// and tailing the log all end in the failure that says so, and none of
/// them asks anything of the runtime.
pub proof fn lemma_unregistered_name_is_refused(
    records: Records,
    name: Seq<char>,
    argv: Seq<Seq<char>>,
    since: i64,
)
    requires
        !records.contains_key(name),
    ensures
        start_call(records, name) == Err::<RuntimeCallView, FailureView>(
            FailureView::NotRegistered(name),
        ),
        stop_call(records, name) == Err::<RuntimeCallView, FailureView>(
            FailureView::NotRegistered(name),
        ),
        exec_call(records, name, argv) == Err::<RuntimeCallView, FailureView>(
            FailureView::NotRegistered(name),
        ),
        logs_call(records, name, since) == Err::<RuntimeCallView, FailureView>(
            FailureView::NotRegistered(name),
        ),
{
}

/// The instances that the manager holds.
#[derive(Debug)]
pub struct Registry {
    servers: Vec<Server>,
}

impl View for Registry {
    type V = Records;

    closed spec fn view(&self) -> Records {
        Map::new(
            |name: Seq<char>| self.index_of(name) is Some,
            |name: Seq<char>| self.servers[self.index_of(name)->0]@,
        )
    }
}

impl Registry {
    /// Where the record of `name` stands, if there is one.
    spec fn index_of(&self, name: Seq<char>) -> Option<int> {
        if exists|i: int| 0 <= i < self.servers.len() && self.servers[i].name@ == name {
            Some(choose|i: int| 0 <= i < self.servers.len() && self.servers[i].name@ == name)
        } else {
            None
        }
    }

    /// The names of the records, in the order of the list.
    spec fn names(&self) -> Seq<Seq<char>> {
        self.servers@.map_values(|s: Server| s.name@)
    }

    /// No two records share a name or a port.
    #[verifier::type_invariant]
    spec fn apart(&self) -> bool {
        &&& forall|i: int, j: int|
            0 <= i < j < self.servers.len() ==> self.servers[i].name@ != self.servers[j].name@
        &&& forall|i: int, j: int|
            0 <= i < j < self.servers.len() ==> self.servers[i].port != self.servers[j].port
    }

    /// How the records relate to the list that holds them.
    proof fn lemma_records(&self)
        requires
            self.apart(),
        ensures
            well_formed(self@),
            self@.dom() == self.names().to_set(),
            forall|i: int|
                0 <= i < self.servers.len() ==> self@.contains_key(#[trigger] self.servers[i].name@)
                    && self@[self.servers[i].name@] == self.servers[i]@,
            forall|name: Seq<char>|
                self@.contains_key(name) ==> exists|i: int|
                    0 <= i < self.servers.len() && self.servers[i].name@ == name,
            forall|port: u16|
                port_held(self@, port) <==> exists|i: int|
                    0 <= i < self.servers.len() && self.servers[i].port == port,
    {
        let names = self.names();
        assert forall|i: int| 0 <= i < self.servers.len() implies self@.contains_key(
            #[trigger] self.servers[i].name@,
        ) && self@[self.servers[i].name@] == self.servers[i]@ by {
            let name = self.servers[i].name@;
            assert(self.index_of(name) is Some);
        }
        assert(self@.dom() =~= names.to_set()) by {
            assert forall|name: Seq<char>| self@.dom().contains(name) implies names.to_set().contains(
                name,
            ) by {
                let i = self.index_of(name)->0;
                assert(names[i] == name);
            }
            assert forall|name: Seq<char>| names.to_set().contains(name) implies self@.dom().contains(
                name,
            ) by {
                let i = choose|i: int| 0 <= i < names.len() && names[i] == name;
                assert(self.servers[i].name@ == name);
            }
        }
        vstd::seq_lib::seq_to_set_is_finite(names);
        assert forall|port: u16| port_held(self@, port) implies exists|i: int|
            0 <= i < self.servers.len() && self.servers[i].port == port by {
            let name = choose|name: Seq<char>|
                self@.contains_key(name) && #[trigger] self@[name].port == port;
            let i = self.index_of(name)->0;
            assert(self.servers[i].port == port);
        }
        assert forall|port: u16|
            (exists|i: int|
                0 <= i < self.servers.len() && self.servers[i].port == port) implies port_held(
            self@,
            port,
        ) by {
            let i = choose|i: int| 0 <= i < self.servers.len() && self.servers[i].port == port;
            assert(self@.contains_key(self.servers[i].name@));
            assert(self@[self.servers[i].name@].port == port);
        }
    }

    /// A registry that holds no instance.
    pub fn new() -> (registry: Registry)
        ensures
            registry@ == Map::<Seq<char>, ServerView>::empty(),
            well_formed(registry@),
    {
        let registry = Registry { servers: Vec::new() };
        assert(registry@ =~= Map::<Seq<char>, ServerView>::empty());
        registry
    }

    /// Where the record of `name` stands in the list.
    fn position(&self, name: &str) -> (found: Option<usize>)
        ensures
            match found {
                Some(i) => i < self.servers.len() && self.servers[i as int].name@ == name@,
                None => forall|i: int| 0 <= i < self.servers.len() ==> self.servers[i].name@ != name@,
            },
    {
        let wanted = String::from_str(name);
        let mut i: usize = 0;
        while i < self.servers.len()
            invariant
                i <= self.servers.len(),
                wanted@ == name@,
                forall|j: int| 0 <= j < i ==> self.servers[j].name@ != name@,
            decreases self.servers.len() - i,
        {
            if self.servers[i].name == wanted {
                return Some(i);
            }
            i += 1;
        }
        None
    }

    /// Where the record that holds `port` stands in the list.
    fn holder(&self, port: u16) -> (found: Option<usize>)
        ensures
            match found {
                Some(i) => i < self.servers.len() && self.servers[i as int].port == port,
                None => forall|i: int| 0 <= i < self.servers.len() ==> self.servers[i].port != port,
            },
    {
        let mut i: usize = 0;
        while i < self.servers.len()
            invariant
                i <= self.servers.len(),
                forall|j: int| 0 <= j < i ==> self.servers[j].port != port,
            decreases self.servers.len() - i,
        {
            if self.servers[i].port == port {
                return Some(i);
            }
            i += 1;
        }
        None
    }

    /// Whether the registry holds an instance called `name`.
    pub fn contains(&self, name: &str) -> (held: bool)
        ensures
            held == self@.contains_key(name@),
            well_formed(self@),
    {
        proof {
            use_type_invariant(self);
            self.lemma_records();
        }
        self.position(name).is_some()
    }

    /// The record of the instance called `name`.
    pub fn get(&self, name: &str) -> (server: Option<&Server>)
        ensures
            match server {
                Some(s) => self@.contains_key(name@) && s@ == self@[name@],
                None => !self@.contains_key(name@),
            },
            well_formed(self@),
    {
        proof {
            use_type_invariant(self);
            self.lemma_records();
        }
        match self.position(name) {
            Some(i) => Some(&self.servers[i]),
            None => None,
        }
    }

    /// The record of the instance called `name`, or the failure that says
    /// that no such instance is registered.
    pub fn lookup(&self, name: &str) -> (server: Result<&Server, Failure>)
        ensures
            match looked_up(self@, name@) {
                Ok(expected) => server matches Ok(s) && s@ == expected,
                Err(failure) => server matches Err(f) && f@ == failure,
            },
    {
        match self.get(name) {
            Some(server) => Ok(server),
            None => Err(Failure::NotRegistered(NotRegistered { id: String::from_str(name) })),
        }
    }

    /// The ports that the instances hold: each once, in no particular order.
    pub fn ports(&self) -> (ports: Vec<u16>)
        ensures
            ports@.to_set() == held_ports(self@),
            ports@.no_duplicates(),
            ports@.len() == self@.dom().len(),
            well_formed(self@),
    {
        proof {
            use_type_invariant(self);
            self.lemma_records();
            self.lemma_count();
        }
        let mut ports: Vec<u16> = Vec::new();
        let mut i: usize = 0;
        while i < self.servers.len()
            invariant
                i <= self.servers.len(),
                ports.len() == i,
                forall|j: int| 0 <= j < i ==> ports@[j] == self.servers[j].port,
            decreases self.servers.len() - i,
        {
            ports.push(self.servers[i].port);
            i += 1;
        }
        proof {
            assert forall|port: u16| ports@.to_set().contains(port) == held_ports(self@).contains(
                port,
            ) by {
                if ports@.contains(port) {
                    let j = choose|j: int| 0 <= j < ports@.len() && ports@[j] == port;
                    assert(self.servers[j].port == port);
                }
                if port_held(self@, port) {
                    let j = choose|j: int| 0 <= j < self.servers.len() && self.servers[j].port == port;
                    assert(ports@[j] == port);
                }
            }
            assert(ports@.to_set() =~= held_ports(self@));
        }
        ports
    }

    /// The names of the instances: each once, in no particular order.
    pub fn list(&self) -> (names: Vec<String>)
        ensures
            names.deep_view().to_set() == self@.dom(),
            names.deep_view().no_duplicates(),
            names@.len() == self@.dom().len(),
            well_formed(self@),
    {
        proof {
            use_type_invariant(self);
            self.lemma_records();
            self.lemma_count();
        }
        let mut names: Vec<String> = Vec::new();
        let mut i: usize = 0;
        while i < self.servers.len()
            invariant
                i <= self.servers.len(),
                names.len() == i,
                forall|j: int| 0 <= j < i ==> names@[j]@ == self.servers[j].name@,
            decreases self.servers.len() - i,
        {
            names.push(self.servers[i].name.clone());
            i += 1;
        }
        proof {
            let views = names.deep_view();
            assert forall|name: Seq<char>| views.to_set().contains(name) == self@.dom().contains(
                name,
            ) by {
                if views.contains(name) {
                    let j = choose|j: int| 0 <= j < views.len() && views[j] == name;
                    assert(self.servers[j].name@ == name);
                }
                if self@.contains_key(name) {
                    let j = choose|j: int|
                        0 <= j < self.servers.len() && self.servers[j].name@ == name;
                    assert(views[j] == name);
                }
            }
            assert(views.to_set() =~= self@.dom());
        }
        names
    }

    /// There are as many records as entries in the list.
    proof fn lemma_count(&self)
        requires
            self.apart(),
        ensures
            self@.dom().len() == self.servers.len(),
    {
        self.lemma_records();
        assert(self.names().no_duplicates());
        self.names().unique_seq_to_set();
    }

    /// Takes `server` into the registry, unless an instance of its name or
    /// one with its port is there already.  A refused record changes
    /// nothing.
    pub fn insert(&mut self, server: Server) -> (result: Result<(), Failure>)
        ensures
            match insert_failure(old(self)@, server@) {
                Some(failure) => result matches Err(f) && f@ == failure && final(self)@ == old(
                    self,
                )@,
                None => result is Ok && final(self)@ == old(self)@.insert(server@.name, server@),
            },
            well_formed(final(self)@),
    {
        proof {
            use_type_invariant(&*self);
            self.lemma_records();
        }
        if self.position(server.name.as_str()).is_some() {
            return Err(Failure::DuplicateInstance(server.name));
        }
        if self.holder(server.port).is_some() {
            return Err(Failure::ConfigError(ConfigFailure::PortInUse));
        }
        let ghost before = *self;
        let ghost added = server@;
        let mut servers: Vec<Server> = Vec::new();
        core::mem::swap(&mut self.servers, &mut servers);
        servers.push(server);
        self.servers = servers;
        proof {
            self.lemma_records();
            assert(self@ =~= before@.insert(added.name, added)) by {
                assert forall|name: Seq<char>| self@.contains_key(name) == before@.insert(
                    added.name,
                    added,
                ).contains_key(name) by {
                    if self@.contains_key(name) {
                        let i = choose|i: int|
                            0 <= i < self.servers.len() && self.servers[i].name@ == name;
                        if i < before.servers.len() {
                            assert(before.servers[i].name@ == name);
                        }
                    }
                    if before@.contains_key(name) {
                        let i = choose|i: int|
                            0 <= i < before.servers.len() && before.servers[i].name@ == name;
                        assert(self.servers[i].name@ == name);
                    }
                    if name == added.name {
                        assert(self.servers[before.servers.len() as int].name@ == name);
                    }
                }
                assert forall|name: Seq<char>| self@.contains_key(name) implies self@[name]
                    == before@.insert(added.name, added)[name] by {
                    let i = choose|i: int|
                        0 <= i < self.servers.len() && self.servers[i].name@ == name;
                    if i < before.servers.len() {
                        assert(before.servers[i].name@ == name);
                        assert(self.servers[i] == before.servers[i]);
                    }
                }
            }
        }
        Ok(())
    }

    /// Takes the instance called `name` out of the registry, whether or not
    /// its container runs: the container is left as it is.  The result is
    /// the record that was held, if there was one.
    pub fn remove(&mut self, name: &str) -> (removed: Option<Server>)
        ensures
            final(self)@ == old(self)@.remove(name@),
            match removed {
                Some(server) => old(self)@.contains_key(name@) && server@ == old(self)@[name@],
                None => !old(self)@.contains_key(name@),
            },
            well_formed(final(self)@),
    {
        proof {
            use_type_invariant(&*self);
            self.lemma_records();
        }
        let ghost before = *self;
        match self.position(name) {
            None => {
                assert(self@ =~= before@.remove(name@));
                None
            },
            Some(at) => {
                let mut servers: Vec<Server> = Vec::new();
                core::mem::swap(&mut self.servers, &mut servers);
                let server = servers.remove(at);
                self.servers = servers;
                proof {
                    assert forall|i: int| 0 <= i < self.servers.len() implies self.servers[i] == (
                    if i < at {
                        before.servers[i]
                    } else {
                        before.servers[i + 1]
                    }) by {}
                    self.lemma_records();
                    assert(self@ =~= before@.remove(name@)) by {
                        assert forall|other: Seq<char>| self@.contains_key(other)
                            == before@.remove(name@).contains_key(other) by {
                            if self@.contains_key(other) {
                                let i = choose|i: int|
                                    0 <= i < self.servers.len() && self.servers[i].name@ == other;
                                let k = if i < at {
                                    i
                                } else {
                                    i + 1
                                };
                                assert(before.servers[k].name@ == other);
                            }
                            if before@.contains_key(other) && other != name@ {
                                let k = choose|k: int|
                                    0 <= k < before.servers.len() && before.servers[k].name@
                                        == other;
                                let i = if k < at {
                                    k
                                } else {
                                    k - 1
                                };
                                assert(self.servers[i].name@ == other);
                            }
                        }
                        assert forall|other: Seq<char>| self@.contains_key(other) implies self@[other]
                            == before@.remove(name@)[other] by {
                            let i = choose|i: int|
                                0 <= i < self.servers.len() && self.servers[i].name@ == other;
                            let k = if i < at {
                                i
                            } else {
                                i + 1
                            };
                            assert(before.servers[k].name@ == other);
                        }
                    }
                }
                Some(server)
            },
        }
    }

    /// Whether a record under another name than `name` holds `port`.
    fn held_by_other(&self, name: &str, port: u16) -> (held: bool)
        ensures
            held == port_held_by_other(self@, name@, port),
    {
        proof {
            use_type_invariant(self);
            self.lemma_records();
        }
        match self.holder(port) {
            Some(at) => {
                let same = self.servers[at].name == String::from_str(name);
                let other = !same;
                proof {
                    if other {
                        let holder = self.servers[at as int].name@;
                        assert(self@.contains_key(holder) && self@[holder].port == port);
                    } else if port_held_by_other(self@, name@, port) {
                        let o = choose|o: Seq<char>|
                            self@.contains_key(o) && o != name@ && #[trigger] self@[o].port == port;
                        let k = choose|k: int|
                            0 <= k < self.servers.len() && self.servers[k].name@ == o;
                        assert(self.servers[k].port == port);
                        assert(k == at);
                    }
                }
                other
            },
            None => {
                proof {
                    if port_held_by_other(self@, name@, port) {
                        let o = choose|o: Seq<char>|
                            self@.contains_key(o) && o != name@ && #[trigger] self@[o].port == port;
                        assert(port_held(self@, port));
                    }
                }
                false
            },
        }
    }

    /// Stores `server` under its name, in place of what was held under that
    /// name, unless a record under another name holds its port: then
    /// nothing changes.
    pub fn store(&mut self, server: Server) -> (stored: bool)
        ensures
            stored == !port_held_by_other(old(self)@, server@.name, server@.port),
            final(self)@ == if stored {
                old(self)@.insert(server@.name, server@)
            } else {
                old(self)@
            },
            well_formed(final(self)@),
    {
        proof {
            use_type_invariant(&*self);
            self.lemma_records();
        }
        if self.held_by_other(server.name.as_str(), server.port) {
            return false;
        }
        let ghost before = self@;
        let ghost added = server@;
        let _ = self.remove(server.name.as_str());
        proof {
            let removed = before.remove(added.name);
            if port_held(removed, added.port) {
                let o = choose|o: Seq<char>|
                    removed.contains_key(o) && #[trigger] removed[o].port == added.port;
                assert(before.contains_key(o) && o != added.name && before[o].port == added.port);
            }
            assert(removed.insert(added.name, added) =~= before.insert(added.name, added));
        }
        let _ = self.insert(server);
        true
    }

    /// The registry that holds `servers`, stored one after another: of the
    /// records of one name the last stays, and a record whose port another
    /// name holds by then is left out.
    pub fn restore(servers: &Vec<Server>) -> (registry: Registry)
        ensures
            registry@ == restored(servers.deep_view()),
            well_formed(registry@),
    {
        let mut registry = Registry::new();
        let mut i: usize = 0;
        assert(servers.deep_view().take(0) =~= Seq::<ServerView>::empty());
        while i < servers.len()
            invariant
                i <= servers.len(),
                registry@ == restored(servers.deep_view().take(i as int)),
                well_formed(registry@),
            decreases servers.len() - i,
        {
            proof {
                let seen = servers.deep_view().take(i + 1);
                assert(seen.drop_last() =~= servers.deep_view().take(i as int));
                assert(seen.last() == servers@[i as int]@);
            }
            let _ = registry.store(servers[i].clone());
            i += 1;
        }
        assert(servers.deep_view().take(i as int) =~= servers.deep_view());
        registry
    }

    /// The registry at the start of the manager: the records that the store
    /// handed over, or, where the store could not be read (`None`), no
    /// records at all.  A store that fails does not keep the manager from
    /// starting.
    pub fn load(stored: Option<&Vec<Server>>) -> (registry: Registry)
        ensures
            registry@ == match stored {
                Some(servers) => restored(servers.deep_view()),
                None => Map::<Seq<char>, ServerView>::empty(),
            },
            well_formed(registry@),
    {
        match stored {
            Some(servers) => Registry::restore(servers),
            None => Registry::new(),
        }
    }

    /// What starting the instance called `name` asks of the runtime.  For a
    /// name that is not registered there is nothing to ask: the failure
    /// says so.
    pub fn start(&self, name: &str) -> (call: Result<RuntimeCall, Failure>)
        ensures
            match start_call(self@, name@) {
                Ok(expected) => call matches Ok(c) && c@ == expected,
                Err(failure) => call matches Err(f) && f@ == failure,
            },
    {
        match self.lookup(name) {
            Ok(server) => Ok(server.start()),
            Err(failure) => Err(failure),
        }
    }

    /// What stopping the instance called `name` asks of the runtime.  For a
    /// name that is not registered there is nothing to ask: the failure
    /// says so.
    pub fn stop(&self, name: &str) -> (call: Result<RuntimeCall, Failure>)
        ensures
            match stop_call(self@, name@) {
                Ok(expected) => call matches Ok(c) && c@ == expected,
                Err(failure) => call matches Err(f) && f@ == failure,
            },
    {
        match self.lookup(name) {
            Ok(server) => Ok(server.stop()),
            Err(failure) => Err(failure),
        }
    }

    /// What running `argv` on the console of the instance called `name`
    /// asks of the runtime.  For a name that is not registered there is
    /// nothing to ask: the failure says so.
    pub fn exec(&self, name: &str, argv: &Vec<String>) -> (call: Result<RuntimeCall, Failure>)
        ensures
            match exec_call(self@, name@, argv.deep_view()) {
                Ok(expected) => call matches Ok(c) && c@ == expected,
                Err(failure) => call matches Err(f) && f@ == failure,
            },
    {
        match self.lookup(name) {
            Ok(server) => Ok(server.send_command(argv)),
            Err(failure) => Err(failure),
        }
    }

    /// What tailing the log of the instance called `name` from `since` on
    /// asks of the runtime: the standard output of its container, kept
    /// open.  For a name that is not registered there is nothing to ask: the
    /// failure says so.
    pub fn output(&self, name: &str, since: i64) -> (call: Result<RuntimeCall, Failure>)
        ensures
            match logs_call(self@, name@, since) {
                Ok(expected) => call matches Ok(c) && c@ == expected,
                Err(failure) => call matches Err(f) && f@ == failure,
            },
    {
        match self.lookup(name) {
            Ok(server) => Ok(server.output(since)),
            Err(failure) => Err(failure),
        }
    }

    /// Where to ask the game server of the instance called `name` for its
    /// status.
    pub fn status(&self, name: &str) -> (request: Result<StatusRequest, Failure>)
        ensures
            match looked_up(self@, name@) {
                Ok(server) => request matches Ok(r) && r.hostname@ == crate::server::LOCAL_HOST@
                    && r.port == server.port,
                Err(failure) => request matches Err(f) && f@ == failure,
            },
    {
        match self.lookup(name) {
            Ok(server) => Ok(server.status()),
            Err(failure) => Err(failure),
        }
    }

    /// The first step of creating an instance: refuses a name that is
    /// taken, and says where the instance will live, under `base` unless
    /// the request names a directory.
    pub fn begin(&self, request: &New, base: &str) -> (site: Result<Site, Failure>)
        ensures
            if self@.contains_key(request@.id) {
                site matches Err(f) && f@ == FailureView::DuplicateInstance(request@.id)
            } else {
                site matches Ok(s) && s.path@ == instance_path(request@.path, base@, request@.id)
                    && s.compose_path@ == compose_path(s.path@)
            },
    {
        if self.contains(request.id.as_str()) {
            return Err(Failure::DuplicateInstance(request.id.clone()));
        }
        let requested = match &request.path {
            Some(path) => Some(path.as_str()),
            None => None,
        };
        Ok(locate(request.id.as_str(), requested, base))
    }

    /// The second step of creating an instance: plans it against the ports
    /// that the registry holds at this moment.  `site` is where the
    /// instance lives, `existing` what its compose file holds, `template`
    /// what the template holds.
    pub fn plan(
        &self,
        request: New,
        site: Site,
        existing: ComposeYaml,
        template: &ComposeYaml,
        baseline: u16,
    ) -> (plan: Result<Plan, Failure>)
        ensures
            match plan_for(self@, request@, site@, existing@, template@, baseline) {
                Ok(expected) => plan matches Ok(p) && p@ == expected,
                Err(failure) => plan matches Err(f) && f@ == failure,
            },
    {
        if self.contains(request.id.as_str()) {
            return Err(Failure::DuplicateInstance(request.id));
        }
        let in_use = self.ports();
        Plan::new(request, site, existing, template, &in_use, baseline)
    }

    /// The last step of creating an instance: reads the container's
    /// identifier from what the runtime printed and takes the record into
    /// the registry.  The result is a copy of the record.  On any failure
    /// the registry is as it was: no part of a record is ever held.
    pub fn complete(&mut self, plan: Plan, output: &[u8]) -> (server: Result<Server, Failure>)
        ensures
            match completed(old(self)@, plan@, output@) {
                Ok(expected) => server matches Ok(s) && s@ == expected && final(self)@ == old(
                    self,
                )@.insert(expected.name, expected),
                Err(failure) => server matches Err(f) && f@ == failure && final(self)@ == old(
                    self,
                )@,
            },
            well_formed(final(self)@),
    {
        proof {
            use_type_invariant(&*self);
            self.lemma_records();
        }
        let server = match Server::new(plan, output) {
            Ok(server) => server,
            Err(failure) => {
                return Err(failure);
            },
        };
        let copy = server.clone();
        match self.insert(server) {
            Ok(()) => Ok(copy),
            Err(failure) => Err(failure),
        }
    }
}

} // verus!
