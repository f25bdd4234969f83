//! The accept loop's decisions, one accepted connection at a time.

use crate::addr::IpAddress;
use crate::allowlist::{is_addr_allowed, spec_is_addr_allowed, AllowRule};
use crate::config::{spec_is_legacy_pull, PullConfiguration, PullConfigurationImpl, RegistryUpdate};
use crate::error::{ErrorClass, PullError};
use crate::handler::{handle_request, Start};
use crate::limiter::{admitted, has_capacity, ConnectionPermit, MaxConnectionsGuard};
use vstd::prelude::*;

verus! {

/// What the loop does with a connection it has accepted.
#[derive(Debug)]
pub enum Verdict {
    /// The peer is not on the allow-list. The connection is dropped; no slot
    /// was taken for it.
    Denied,
    /// The peer is allowed but was refused, for the reason given. The
    /// connection is dropped.
    Rejected(PullError),
    /// The connection is to be handled on its own, beginning with `start`,
    /// while the loop goes on. `permit` goes back to the guard when the
    /// connection has ended, however it ended.
    Dispatch { permit: ConnectionPermit, start: Start },
}

/// The fate of a connection from `remote`, and what it does to the pools.
///
/// `failure` is how the refresh failed, if it did, `allowed` is what the
/// allow-list says of the peer, and `legacy_pull` is the mode after the
/// refresh. A failed refresh ends the loop with its failure; a peer off the
/// list is denied; and in both cases the pools stay as they were. Any other
/// peer asks for a slot, and is dispatched in the current mode if it gets
/// one, and rejected if not.
pub open spec fn decides(
    res: Result<Verdict, PullError>,
    failure: Option<PullError>,
    allowed: bool,
    legacy_pull: bool,
    timeout: u64,
    remote: IpAddress,
    max: nat,
    pools_before: Map<IpAddress, nat>,
    pools_after: Map<IpAddress, nat>,
) -> bool {
    match failure {
        Some(e) => res == Err::<Verdict, PullError>(e) && pools_after == pools_before,
        None => if !allowed {
            res == Ok::<Verdict, PullError>(Verdict::Denied) && pools_after == pools_before
        } else {
            &&& pools_after == admitted(pools_before, max, remote)
            &&& if has_capacity(pools_before, max, remote) {
                &&& res matches Ok(Verdict::Dispatch { permit, start })
                &&& permit.spec_addr() == remote
                &&& start.is_start_of(legacy_pull, timeout)
            } else {
                res == Ok::<Verdict, PullError>(Verdict::Rejected(PullError::TooManyConnections))
            }
        },
    }
}

/// Decides the fate of one accepted connection.
///
/// The configuration is refreshed first, from what the registry reported,
/// and a failure there ends the loop: it is the only `Err`. Then the peer is
/// held against the allow-list, and only a peer that passed asks the guard
/// for a slot. A connection that got its slot starts in the mode that the
/// configuration is in after the refresh.
pub fn on_connection<A, P: PullConfiguration<A>>(
    pull_config: &mut P,
    guard: &mut MaxConnectionsGuard,
    remote: IpAddress,
    update: RegistryUpdate<A>,
    timeout: u64,
    allowed_ip: &[AllowRule],
) -> (res: Result<Verdict, PullError>)
    ensures
        final(pull_config).legacy_pull() == update.legacy_after(old(pull_config).legacy_pull()),
        final(pull_config).acceptor() == update.acceptor_after(old(pull_config).acceptor()),
        final(guard).spec_max_connections() == old(guard).spec_max_connections(),
        decides(
            res,
            update.failure(),
            spec_is_addr_allowed(remote, allowed_ip@),
            final(pull_config).legacy_pull(),
            timeout,
            remote,
            old(guard).spec_max_connections() as nat,
            old(guard)@,
            final(guard)@,
        ),
{
    match pull_config.refresh(update) {
        Err(e) => {
            return Err(e);
        },
        Ok(()) => {},
    }
    if !is_addr_allowed(&remote, allowed_ip) {
        return Ok(Verdict::Denied);
    }
    let start = handle_request(pull_config.is_legacy_pull(), timeout);
    match guard.try_make_task_for_addr(remote) {
        Ok(permit) => Ok(Verdict::Dispatch { permit, start }),
        Err(error) => Ok(Verdict::Rejected(error)),
    }
}

/// Everything that the accept loop keeps between connections.
pub struct PullServer<A> {
    /// The mode and the TLS acceptor.
    pub pull_config: PullConfigurationImpl<A>,
    /// The slots taken, address by address.
    pub guard: MaxConnectionsGuard,
    /// The port to listen on, on every interface.
    pub port: u16,
    /// The seconds that a handshake or a write may take.
    pub timeout: u64,
    /// The allow-list.
    pub allowed_ip: Vec<AllowRule>,
}

/// Sets the endpoint up: the configuration as the registry and the marker
/// file are found at startup, a guard that has seen nobody, and the settings
/// as given. It takes a TLS acceptor to start: without one, `TlsInit`.
pub fn pull<A>(
    acceptor: Option<A>,
    registry_empty: bool,
    marker_exists: bool,
    port: u16,
    max_connections: usize,
    allowed_ip: Vec<AllowRule>,
    timeout: u64,
) -> (res: Result<PullServer<A>, PullError>)
    ensures
        match acceptor {
            Some(built) => {
                &&& res matches Ok(server)
                &&& server.pull_config.acceptor() == built
                &&& server.pull_config.legacy_pull() == spec_is_legacy_pull(
                    registry_empty,
                    marker_exists,
                )
                &&& server.guard@ == Map::<IpAddress, nat>::empty()
                &&& server.guard.spec_max_connections() == max_connections
                &&& server.port == port
                &&& server.timeout == timeout
                &&& server.allowed_ip == allowed_ip
            },
            None => res matches Err(e) && e == PullError::TlsInit,
        },
{
    let pull_config = match PullConfigurationImpl::new(acceptor, registry_empty, marker_exists) {
        Ok(pull_config) => pull_config,
        Err(e) => {
            return Err(e);
        },
    };
    let guard = MaxConnectionsGuard::new(max_connections);
    Ok(PullServer { pull_config, guard, port, timeout, allowed_ip })
}

/// What the accept loop saw happen on its socket.
#[derive(Debug)]
pub enum LoopEvent<A> {
    /// The socket could not be bound.
    BindFailed,
    /// Accepting a connection failed.
    AcceptFailed,
    /// A connection from `remote` was accepted, and the registry, asked to
    /// refresh itself right after, reported `update`.
    Accepted { remote: IpAddress, update: RegistryUpdate<A> },
}

impl<A> LoopEvent<A> {
    /// The failure that ends the loop on this event, if it does: a socket
    /// that cannot be bound or accepted from, or a refresh that failed.
    pub open spec fn failure(self) -> Option<PullError> {
        match self {
            LoopEvent::BindFailed => Some(PullError::Bind),
            LoopEvent::AcceptFailed => Some(PullError::Accept),
            LoopEvent::Accepted { update, .. } => update.failure(),
        }
    }
}

impl<A> PullServer<A> {
    /// The address to bind: every interface, at the configured port.
    pub fn listen_address(&self) -> (res: (IpAddress, u16))
        ensures
            res == (IpAddress::V4(0), self.port),
    {
        (IpAddress::V4(0), self.port)
    }

    /// Decides how the loop goes on after `event`.
    ///
    /// `Err` ends the loop, and comes exactly when the socket failed or the
    /// refresh did. A failing socket changes nothing. A connection that was
    /// accepted meets its fate as `on_connection` decides it, with this
    /// endpoint's configuration, guard, deadline and allow-list, and the
    /// loop goes on whatever that fate is.
    pub fn on_event(&mut self, event: LoopEvent<A>) -> (res: Result<Verdict, PullError>)
        ensures
            final(self).port == old(self).port,
            final(self).timeout == old(self).timeout,
            final(self).allowed_ip == old(self).allowed_ip,
            final(self).guard.spec_max_connections() == old(self).guard.spec_max_connections(),
            match event {
                LoopEvent::Accepted { remote, update } => {
                    &&& final(self).pull_config.legacy_pull() == update.legacy_after(
                        old(self).pull_config.legacy_pull(),
                    )
                    &&& final(self).pull_config.acceptor() == update.acceptor_after(
                        old(self).pull_config.acceptor(),
                    )
                    &&& decides(
                        res,
                        update.failure(),
                        spec_is_addr_allowed(remote, old(self).allowed_ip@),
                        final(self).pull_config.legacy_pull(),
                        old(self).timeout,
                        remote,
                        old(self).guard.spec_max_connections() as nat,
                        old(self).guard@,
                        final(self).guard@,
                    )
                },
                _ => {
                    &&& event.failure() matches Some(e)
                    &&& res == Err::<Verdict, PullError>(e)
                    &&& final(self).guard@ == old(self).guard@
                    &&& final(self).pull_config.legacy_pull() == old(self).pull_config.legacy_pull()
                    &&& final(self).pull_config.acceptor() == old(self).pull_config.acceptor()
                },
            },
    {
        match event {
            LoopEvent::BindFailed => Err(PullError::Bind),
            LoopEvent::AcceptFailed => Err(PullError::Accept),
            LoopEvent::Accepted { remote, update } => on_connection(
                &mut self.pull_config,
                &mut self.guard,
                remote,
                update,
                self.timeout,
                self.allowed_ip.as_slice(),
            ),
        }
    }
}

/// The loop ends on an event exactly when the event is a failure of the
/// socket or of the refresh, and every such failure is a fatal one. What
/// happens to a connection never ends it.
pub proof fn lemma_loop_ends_on_fatal_failures_only<A>(event: LoopEvent<A>)
    ensures
        event.failure() is Some <==> event is BindFailed || event is AcceptFailed || (
        event matches LoopEvent::Accepted { update, .. } && update.failure() is Some),
        event.failure() matches Some(e) ==> e.spec_class() == ErrorClass::Fatal,
{
}

} // verus!
