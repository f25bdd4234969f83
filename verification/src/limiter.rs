//! At most so many connections at a time from any one address.

use crate::addr::IpAddress;
use crate::error::PullError;
use std::collections::HashMap;
use vstd::prelude::*;

verus! {

broadcast use vstd::std_specs::hash::group_hash_axioms;

/// The connections that an address holds right now; none where the address
/// was never seen.
pub open spec fn outstanding(pools: Map<IpAddress, nat>, addr: IpAddress) -> nat {
    if pools.contains_key(addr) {
        pools[addr]
    } else {
        0
    }
}

/// An address may open one more connection while it holds fewer than `max`.
pub open spec fn has_capacity(pools: Map<IpAddress, nat>, max: nat, addr: IpAddress) -> bool {
    outstanding(pools, addr) < max
}

/// The pools after `addr` asked for a connection: its pool exists from now
/// on, and counts one more where there was room.
pub open spec fn admitted(pools: Map<IpAddress, nat>, max: nat, addr: IpAddress) -> Map<
    IpAddress,
    nat,
> {
    if has_capacity(pools, max, addr) {
        pools.insert(addr, outstanding(pools, addr) + 1)
    } else {
        pools.insert(addr, outstanding(pools, addr))
    }
}

/// The pools after a connection of `addr` ended.
pub open spec fn released(pools: Map<IpAddress, nat>, addr: IpAddress) -> Map<IpAddress, nat> {
    if outstanding(pools, addr) > 0 {
        pools.insert(addr, (outstanding(pools, addr) - 1) as nat)
    } else {
        pools
    }
}

/// No address holds more than `max` connections.
pub open spec fn within_limit(pools: Map<IpAddress, nat>, max: nat) -> bool {
    forall|addr: IpAddress| outstanding(pools, addr) <= max
}

/// The slot that one admitted connection holds until it ends.
#[derive(Debug)]
pub struct ConnectionPermit {
    addr: IpAddress,
}

impl ConnectionPermit {
    /// The address that the slot was taken from.
    pub closed spec fn spec_addr(&self) -> IpAddress {
        self.addr
    }

    /// The address that the slot was taken from.
    #[verifier::when_used_as_spec(spec_addr)]
    pub fn addr(&self) -> (res: IpAddress)
        ensures
            res == self.spec_addr(),
    {
        self.addr
    }
}

/// Counts, for each address that ever connected, the connections it holds.
/// Pools are made when an address is first seen and are never dropped.
pub struct MaxConnectionsGuard {
    max_connections: usize,
    active_v4: HashMap<u32, usize>,
    active_v6: HashMap<u128, usize>,
}

impl View for MaxConnectionsGuard {
    type V = Map<IpAddress, nat>;

    closed spec fn view(&self) -> Map<IpAddress, nat> {
        Map::new(
            |addr: IpAddress|
                match addr {
                    IpAddress::V4(bits) => self.active_v4@.contains_key(bits),
                    IpAddress::V6(bits) => self.active_v6@.contains_key(bits),
                },
            |addr: IpAddress|
                match addr {
                    IpAddress::V4(bits) => self.active_v4@[bits] as nat,
                    IpAddress::V6(bits) => self.active_v6@[bits] as nat,
                },
        )
    }
}

impl MaxConnectionsGuard {
    #[verifier::type_invariant]
    spec fn inv(&self) -> bool {
        &&& forall|bits: u32| #[trigger]
            self.active_v4@.contains_key(bits) ==> self.active_v4@[bits] <= self.max_connections
        &&& forall|bits: u128| #[trigger]
            self.active_v6@.contains_key(bits) ==> self.active_v6@[bits] <= self.max_connections
    }

    /// The most connections that one address may hold.
    pub closed spec fn spec_max_connections(&self) -> usize {
        self.max_connections
    }

    /// A guard that has seen no address yet.
    pub fn new(max_connections: usize) -> (guard: Self)
        ensures
            guard@ == Map::<IpAddress, nat>::empty(),
            guard.spec_max_connections() == max_connections,
    {
        let guard = MaxConnectionsGuard {
            max_connections,
            active_v4: HashMap::new(),
            active_v6: HashMap::new(),
        };
        assert(guard@ =~= Map::<IpAddress, nat>::empty());
        guard
    }

    /// The most connections that one address may hold.
    #[verifier::when_used_as_spec(spec_max_connections)]
    pub fn max_connections(&self) -> (res: usize)
        ensures
            res == self.spec_max_connections(),
    {
        self.max_connections
    }

    /// The connections that `addr` holds right now, never more than the
    /// limit.
    pub fn active_connections(&self, addr: &IpAddress) -> (res: usize)
        ensures
            res == outstanding(self@, *addr),
            res <= self.spec_max_connections(),
            within_limit(self@, self.spec_max_connections() as nat),
    {
        proof {
            use_type_invariant(self);
        }
        let found = match addr {
            IpAddress::V4(bits) => self.active_v4.get(bits),
            IpAddress::V6(bits) => self.active_v6.get(bits),
        };
        match found {
            Some(count) => *count,
            None => 0,
        }
    }

    /// Records that `addr` holds `count` connections. The pool is taken out
    /// of the guard while it is written to, so that the guard is whole at
    /// every step.
    fn set_active_connections(&mut self, addr: IpAddress, count: usize)
        requires
            count <= old(self).spec_max_connections(),
        ensures
            final(self).spec_max_connections() == old(self).spec_max_connections(),
            final(self)@ == old(self)@.insert(addr, count as nat),
    {
        proof {
            use_type_invariant(&*self);
        }
        match addr {
            IpAddress::V4(bits) => {
                let mut pools: HashMap<u32, usize> = HashMap::new();
                std::mem::swap(&mut self.active_v4, &mut pools);
                pools.insert(bits, count);
                std::mem::swap(&mut self.active_v4, &mut pools);
            },
            IpAddress::V6(bits) => {
                let mut pools: HashMap<u128, usize> = HashMap::new();
                std::mem::swap(&mut self.active_v6, &mut pools);
                pools.insert(bits, count);
                std::mem::swap(&mut self.active_v6, &mut pools);
            },
        }
        assert(self@ =~= old(self)@.insert(addr, count as nat));
    }

    /// Takes a slot for one connection from `addr`, without ever waiting.
    ///
    /// The slot is granted exactly when the address holds fewer connections
    /// than the limit. Either way the pool of `addr` exists afterwards, and
    /// no other address is touched.
    pub fn try_make_task_for_addr(&mut self, addr: IpAddress) -> (res: Result<
        ConnectionPermit,
        PullError,
    >)
        ensures
            final(self).spec_max_connections() == old(self).spec_max_connections(),
            final(self)@ == admitted(old(self)@, old(self).spec_max_connections() as nat, addr),
            if has_capacity(old(self)@, old(self).spec_max_connections() as nat, addr) {
                res matches Ok(permit) && permit.spec_addr() == addr
            } else {
                res == Err::<ConnectionPermit, PullError>(PullError::TooManyConnections)
            },
    {
        let held = self.active_connections(&addr);
        let granted = held < self.max_connections;
        let now: usize = if granted {
            held + 1
        } else {
            held
        };
        self.set_active_connections(addr, now);
        assert(self@ =~= admitted(old(self)@, old(self).spec_max_connections() as nat, addr));
        if granted {
            Ok(ConnectionPermit { addr })
        } else {
            Err(PullError::TooManyConnections)
        }
    }

    /// Gives back the slot of a connection that has ended, however it ended.
    pub fn release(&mut self, permit: ConnectionPermit)
        ensures
            final(self).spec_max_connections() == old(self).spec_max_connections(),
            final(self)@ == released(old(self)@, permit.spec_addr()),
    {
        let addr = permit.addr;
        let held = self.active_connections(&addr);
        if held > 0 {
            self.set_active_connections(addr, held - 1);
        }
        assert(self@ =~= released(old(self)@, addr));
    }
}

/// The pools after `n` requests in a row from `addr`, with none of its
/// connections ending in between.
pub open spec fn admitted_times(
    pools: Map<IpAddress, nat>,
    max: nat,
    addr: IpAddress,
    n: nat,
) -> Map<IpAddress, nat>
    decreases n,
{
    if n == 0 {
        pools
    } else {
        admitted(admitted_times(pools, max, addr, (n - 1) as nat), max, addr)
    }
}

/// Neither a request nor an ended connection takes any address over the
/// limit, and a guard that has seen nobody is within it.
pub proof fn lemma_limit_is_kept(pools: Map<IpAddress, nat>, max: nat, addr: IpAddress)
    requires
        within_limit(pools, max),
    ensures
        within_limit(Map::<IpAddress, nat>::empty(), max),
        within_limit(admitted(pools, max, addr), max),
        within_limit(released(pools, addr), max),
{
    assert forall|other: IpAddress| outstanding(admitted(pools, max, addr), other) <= max by {
        assert(outstanding(pools, other) <= max);
    }
    assert forall|other: IpAddress| outstanding(released(pools, addr), other) <= max by {
        assert(outstanding(pools, other) <= max);
    }
}

/// Of the requests that one address makes in a row to a fresh guard, with
/// none of its connections ending, the first `max` are granted and every
/// later one is refused: after `n` requests the address holds `n`
/// connections, or `max` if `n` is more, and the next request is granted
/// exactly when `n` is below `max`.
pub proof fn lemma_admits_exactly_the_limit(max: nat, addr: IpAddress, n: nat)
    ensures
        outstanding(admitted_times(Map::empty(), max, addr, n), addr) == if n <= max {
            n
        } else {
            max
        },
        has_capacity(admitted_times(Map::empty(), max, addr, n), max, addr) <==> n < max,
    decreases n,
{
    if n > 0 {
        lemma_admits_exactly_the_limit(max, addr, (n - 1) as nat);
    }
}

/// Once one connection of an address has ended, its next request is granted.
pub proof fn lemma_release_makes_room(pools: Map<IpAddress, nat>, max: nat, addr: IpAddress)
    requires
        within_limit(pools, max),
        outstanding(pools, addr) > 0,
    ensures
        has_capacity(released(pools, addr), max, addr),
{
    assert(outstanding(pools, addr) <= max);
}

/// What one address does leaves every other address as it was: the other
/// holds as many connections as before, and is granted or refused as before.
pub proof fn lemma_addresses_are_independent(
    pools: Map<IpAddress, nat>,
    max: nat,
    addr: IpAddress,
    other: IpAddress,
)
    requires
        addr != other,
    ensures
        outstanding(admitted(pools, max, addr), other) == outstanding(pools, other),
        outstanding(released(pools, addr), other) == outstanding(pools, other),
        has_capacity(admitted(pools, max, addr), max, other) == has_capacity(pools, max, other),
        has_capacity(released(pools, addr), max, other) == has_capacity(pools, max, other),
{
}

/// However many requests one address makes, another address is granted or
/// refused as if they had not been made.
pub proof fn lemma_saturation_blocks_nobody_else(
    pools: Map<IpAddress, nat>,
    max: nat,
    addr: IpAddress,
    other: IpAddress,
    n: nat,
)
    requires
        addr != other,
    ensures
        outstanding(admitted_times(pools, max, addr, n), other) == outstanding(pools, other),
        has_capacity(admitted_times(pools, max, addr, n), max, other) == has_capacity(
            pools,
            max,
            other,
        ),
    decreases n,
{
    if n > 0 {
        lemma_saturation_blocks_nobody_else(pools, max, addr, other, (n - 1) as nat);
        lemma_addresses_are_independent(
            admitted_times(pools, max, addr, (n - 1) as nat),
            max,
            addr,
            other,
        );
    }
}

} // verus!
