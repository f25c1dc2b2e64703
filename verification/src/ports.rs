//! Port allocation: which outside port a new instance gets.
//!
//! The allocator is a function of the set of ports in use, an optional
//! request and a baseline below which it never assigns a port by itself.

use vstd::prelude::*;

verus! {

/// The baseline used where the caller configures none.
pub const DEFAULT_BASELINE: u16 = 31000;

/// `port` lies above the baseline and no instance holds it.
pub open spec fn is_free(in_use: Set<u16>, baseline: u16, port: u16) -> bool {
    baseline < port && !in_use.contains(port)
}

/// Some port above the baseline is held by no instance.
pub open spec fn has_free(in_use: Set<u16>, baseline: u16) -> bool {
    exists|port: u16| is_free(in_use, baseline, port)
}

/// `port` is the smallest port above the baseline that no instance holds.
pub open spec fn is_next_free(in_use: Set<u16>, baseline: u16, port: u16) -> bool {
    &&& is_free(in_use, baseline, port)
    &&& forall|lower: u16| baseline < lower < port ==> in_use.contains(lower)
}

/// The smallest port above the baseline that no instance holds, if there is
/// a free port at all.
pub open spec fn next_free(in_use: Set<u16>, baseline: u16) -> Option<u16> {
    if has_free(in_use, baseline) {
        Some(choose|port: u16| is_next_free(in_use, baseline, port))
    } else {
        None
    }
}

/// The port of an instance whose compose file publishes `persisted` while
/// the template publishes `template`.  A requested port wins.  Without a
/// request, a compose file that differs from the template keeps its port,
/// and one that shows the template's port gets the next free port.
pub open spec fn chosen_port(
    requested: Option<u16>,
    persisted: u16,
    template: u16,
    in_use: Set<u16>,
    baseline: u16,
) -> Option<u16> {
    match requested {
        Some(port) => Some(port),
        None => if persisted != template {
            Some(persisted)
        } else {
            next_free(in_use, baseline)
        },
    }
}

/// `ports` were handed out one after another: each is the next free port
/// once the ports before it are in use as well.
pub open spec fn allocated_in_turn(in_use: Set<u16>, baseline: u16, ports: Seq<u16>) -> bool {
    forall|k: int|
        0 <= k < ports.len() ==> next_free(in_use.union(ports.take(k).to_set()), baseline) == Some(
            #[trigger] ports[k],
        )
}

/// Below every free port there is a smallest free port.
proof fn lemma_smallest_free_exists(in_use: Set<u16>, baseline: u16, free: u16)
    requires
        is_free(in_use, baseline, free),
    ensures
        exists|port: u16| is_next_free(in_use, baseline, port),
    decreases free,
{
    if exists|lower: u16| baseline < lower < free && !in_use.contains(lower) {
        let lower = choose|lower: u16| baseline < lower < free && !in_use.contains(lower);
        lemma_smallest_free_exists(in_use, baseline, lower);
    } else {
        assert(is_next_free(in_use, baseline, free));
    }
}

/// The next free port is the one port that is free while every port
/// between the baseline and it is in use; there is none exactly when no
/// port above the baseline is free.
pub proof fn lemma_next_free(in_use: Set<u16>, baseline: u16)
    ensures
        forall|port: u16|
            next_free(in_use, baseline) == Some(port) <==> #[trigger] is_next_free(
                in_use,
                baseline,
                port,
            ),
        next_free(in_use, baseline) is None <==> !has_free(in_use, baseline),
{
    if has_free(in_use, baseline) {
        let free = choose|port: u16| is_free(in_use, baseline, port);
        lemma_smallest_free_exists(in_use, baseline, free);
    }
    assert forall|port: u16| #[trigger]
        is_next_free(in_use, baseline, port) implies next_free(in_use, baseline) == Some(port) by {
        assert(is_free(in_use, baseline, port));
    }
}

/// Ports that are allocated one after another, without an explicit request,
/// are pairwise distinct, lie above the baseline, and were not in use
/// before.
pub proof fn lemma_ports_allocated_in_turn_are_distinct(
    in_use: Set<u16>,
    baseline: u16,
    ports: Seq<u16>,
)
    requires
        allocated_in_turn(in_use, baseline, ports),
    ensures
        forall|i: int, j: int| 0 <= i < j < ports.len() ==> ports[i] != ports[j],
        forall|i: int| 0 <= i < ports.len() ==> baseline < #[trigger] ports[i],
        forall|i: int| 0 <= i < ports.len() ==> !in_use.contains(#[trigger] ports[i]),
{
    assert forall|i: int, j: int| 0 <= i < j < ports.len() implies ports[i] != ports[j] by {
        let taken = in_use.union(ports.take(j).to_set());
        lemma_next_free(taken, baseline);
        assert(is_next_free(taken, baseline, ports[j]));
        assert(ports.take(j)[i] == ports[i]);
        assert(ports.take(j).to_set().contains(ports[i]));
    }
    assert forall|i: int| 0 <= i < ports.len() implies baseline < #[trigger] ports[i]
        && !in_use.contains(ports[i]) by {
        let taken = in_use.union(ports.take(i).to_set());
        lemma_next_free(taken, baseline);
        assert(is_next_free(taken, baseline, ports[i]));
    }
}

/// Whether some instance holds `port`.
pub fn is_in_use(in_use: &Vec<u16>, port: u16) -> (held: bool)
    ensures
        held == in_use@.to_set().contains(port),
{
    let mut i: usize = 0;
    while i < in_use.len()
        invariant
            i <= in_use.len(),
            forall|j: int| 0 <= j < i ==> in_use@[j] != port,
        decreases in_use.len() - i,
    {
        if in_use[i] == port {
            assert(in_use@.contains(port));
            return true;
        }
        i += 1;
    }
    assert(!in_use@.contains(port));
    false
}

/// The smallest port above `baseline` that is not in use; `None` exactly
/// when every port above the baseline is in use.  With no port in use the
/// result is `baseline + 1`.  The order of `in_use`, and a port that it
/// names twice, make no difference.
pub fn try_allocate(in_use: &Vec<u16>, baseline: u16) -> (port: Option<u16>)
    ensures
        port == next_free(in_use@.to_set(), baseline),
        match port {
            Some(p) => is_next_free(in_use@.to_set(), baseline, p),
            None => !has_free(in_use@.to_set(), baseline),
        },
{
    let mut candidate: u16 = baseline;
    proof {
        lemma_next_free(in_use@.to_set(), baseline);
    }
    while candidate < u16::MAX
        invariant
            baseline <= candidate,
            forall|lower: u16| baseline < lower <= candidate ==> in_use@.to_set().contains(lower),
            forall|port: u16|
                next_free(in_use@.to_set(), baseline) == Some(port) <==> #[trigger] is_next_free(
                    in_use@.to_set(),
                    baseline,
                    port,
                ),
            next_free(in_use@.to_set(), baseline) is None <==> !has_free(
                in_use@.to_set(),
                baseline,
            ),
        decreases u16::MAX - candidate,
    {
        candidate += 1;
        if !is_in_use(in_use, candidate) {
            assert(is_next_free(in_use@.to_set(), baseline, candidate));
            return Some(candidate);
        }
    }
    None
}

/// The port of a new instance: the requested one where a port is requested,
/// whoever holds it, and else the smallest port above `baseline` that is not
/// in use.
pub fn allocate(requested: Option<u16>, in_use: &Vec<u16>, baseline: u16) -> (port: u16)
    requires
        requested is None ==> has_free(in_use@.to_set(), baseline),
    ensures
        requested matches Some(p) ==> port == p,
        requested is None ==> is_next_free(in_use@.to_set(), baseline, port),
{
    match requested {
        Some(p) => p,
        None => match try_allocate(in_use, baseline) {
            Some(p) => p,
            None => baseline,
        },
    }
}

/// The port of an instance whose compose file publishes `persisted` while
/// the template publishes `template`.  A requested port wins.  Without a
/// request, a compose file that differs from the template keeps the port
/// that was written to it earlier, so that creating the same instance again
/// gives the same port.  Only a compose file that still shows the
/// template's port gets a fresh one, and `None` then says that no port
/// above the baseline is free.
pub fn choose_port(
    requested: Option<u16>,
    persisted: u16,
    template: u16,
    in_use: &Vec<u16>,
    baseline: u16,
) -> (port: Option<u16>)
    ensures
        port == chosen_port(requested, persisted, template, in_use@.to_set(), baseline),
{
    match requested {
        Some(p) => Some(p),
        None => if persisted != template {
            Some(persisted)
        } else {
            try_allocate(in_use, baseline)
        },
    }
}

} // verus!
