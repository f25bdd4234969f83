//! The endpoint's mode and TLS acceptor, kept in step with the registry.

use crate::error::{ErrorClass, PullError};
use vstd::prelude::*;

verus! {

/// Legacy mode is on exactly when the marker file exists and the registry
/// holds no connection.
pub open spec fn spec_is_legacy_pull(registry_empty: bool, marker_exists: bool) -> bool {
    marker_exists && registry_empty
}

/// Whether the endpoint answers in legacy mode, given whether the registry is
/// empty and whether the marker file exists.
pub fn is_legacy_pull(registry_empty: bool, marker_exists: bool) -> (res: bool)
    ensures
        res == spec_is_legacy_pull(registry_empty, marker_exists),
{
    marker_exists && registry_empty
}

/// What the caller found when it asked the registry to refresh itself.
///
/// `A` is the TLS acceptor, which this crate hands on and never looks into.
#[derive(Debug)]
pub enum RegistryUpdate<A> {
    /// The registry could not be refreshed.
    Failed,
    /// The registry is as it was.
    Unchanged,
    /// The registry has changed. `acceptor` is the one built from its trust
    /// material, or `None` where none could be built; the two flags are as
    /// found after the change.
    Changed { acceptor: Option<A>, registry_empty: bool, marker_exists: bool },
}

impl<A> RegistryUpdate<A> {
    /// A refresh fails when the registry could not be read, and when it has
    /// changed to trust material that no acceptor can be built from. Both
    /// end the accept loop.
    pub open spec fn failure(self) -> Option<PullError> {
        match self {
            RegistryUpdate::Failed => Some(PullError::RegistryRefresh),
            RegistryUpdate::Unchanged => None,
            RegistryUpdate::Changed { acceptor: None, .. } => Some(PullError::TlsInit),
            RegistryUpdate::Changed { acceptor: Some(_), .. } => None,
        }
    }

    /// The mode after a refresh that began in mode `before`: recomputed where
    /// the registry changed and an acceptor came with it, else as before.
    pub open spec fn legacy_after(self, before: bool) -> bool {
        match self {
            RegistryUpdate::Changed { acceptor: Some(_), registry_empty, marker_exists } => {
                spec_is_legacy_pull(registry_empty, marker_exists)
            },
            _ => before,
        }
    }

    /// The acceptor after a refresh that began with `before`: the new one
    /// where the registry changed and one came with it, else as before.
    pub open spec fn acceptor_after(self, before: A) -> A {
        match self {
            RegistryUpdate::Changed { acceptor: Some(built), .. } => built,
            _ => before,
        }
    }
}

/// The three things that the accept loop asks of its configuration.
pub trait PullConfiguration<A>: Sized {
    /// The mode that connections are answered in.
    spec fn legacy_pull(&self) -> bool;

    /// The acceptor that TLS connections are handed to.
    spec fn acceptor(&self) -> A;

    /// Takes in what the registry reported. A failure leaves the
    /// configuration as it was.
    fn refresh(&mut self, update: RegistryUpdate<A>) -> (res: Result<(), PullError>)
        ensures
            res == match update.failure() {
                Some(e) => Err::<(), PullError>(e),
                None => Ok::<(), PullError>(()),
            },
            final(self).legacy_pull() == update.legacy_after(old(self).legacy_pull()),
            final(self).acceptor() == update.acceptor_after(old(self).acceptor()),
    ;

    /// The acceptor for the next TLS connection.
    fn tls_acceptor(&self) -> (res: &A)
        ensures
            *res == self.acceptor(),
    ;

    /// Whether the next connection is answered in legacy mode.
    fn is_legacy_pull(&self) -> (res: bool)
        ensures
            res == self.legacy_pull(),
    ;
}

/// The configuration as last derived from the registry and the marker file.
pub struct PullConfigurationImpl<A> {
    legacy_pull: bool,
    tls_acceptor: A,
}

impl<A> PullConfigurationImpl<A> {
    /// The configuration at startup. It takes an acceptor to start: without
    /// one, `TlsInit`.
    pub fn new(acceptor: Option<A>, registry_empty: bool, marker_exists: bool) -> (res: Result<
        Self,
        PullError,
    >)
        ensures
            match acceptor {
                Some(built) => res matches Ok(config) && config.acceptor() == built
                    && config.legacy_pull() == spec_is_legacy_pull(registry_empty, marker_exists),
                None => res matches Err(e) && e == PullError::TlsInit,
            },
    {
        match acceptor {
            Some(built) => Ok(
                PullConfigurationImpl {
                    legacy_pull: is_legacy_pull(registry_empty, marker_exists),
                    tls_acceptor: built,
                },
            ),
            None => Err(PullError::TlsInit),
        }
    }
}

impl<A> PullConfiguration<A> for PullConfigurationImpl<A> {
    closed spec fn legacy_pull(&self) -> bool {
        self.legacy_pull
    }

    closed spec fn acceptor(&self) -> A {
        self.tls_acceptor
    }

    fn refresh(&mut self, update: RegistryUpdate<A>) -> (res: Result<(), PullError>) {
        match update {
            RegistryUpdate::Failed => Err(PullError::RegistryRefresh),
            RegistryUpdate::Unchanged => Ok(()),
            RegistryUpdate::Changed { acceptor: None, .. } => Err(PullError::TlsInit),
            RegistryUpdate::Changed { acceptor: Some(built), registry_empty, marker_exists } => {
                self.tls_acceptor = built;
                self.legacy_pull = is_legacy_pull(registry_empty, marker_exists);
                Ok(())
            },
        }
    }

    fn tls_acceptor(&self) -> (res: &A) {
        &self.tls_acceptor
    }

    fn is_legacy_pull(&self) -> (res: bool) {
        self.legacy_pull
    }
}

/// A refresh fails only in ways that end the accept loop.
pub proof fn lemma_refresh_failures_are_fatal<A>(update: RegistryUpdate<A>)
    ensures
        update.failure() matches Some(e) ==> e.spec_class() == ErrorClass::Fatal,
{
}

/// After a refresh that brought a change in, the endpoint is in legacy mode
/// exactly when the marker file exists and the registry is empty, whatever
/// mode it was in; a refresh that found the registry unchanged, or failed,
/// leaves the mode as it was.
pub proof fn lemma_mode_follows_registry_and_marker<A>(
    before: bool,
    built: A,
    registry_empty: bool,
    marker_exists: bool,
)
    ensures
        ({
            let changed = RegistryUpdate::Changed {
                acceptor: Some(built),
                registry_empty,
                marker_exists,
            };
            &&& changed.failure() is None
            &&& changed.legacy_after(before) == (marker_exists && registry_empty)
        }),
        ({
            let stuck = RegistryUpdate::Changed::<A> {
                acceptor: None,
                registry_empty,
                marker_exists,
            };
            stuck.legacy_after(before) == before
        }),
        RegistryUpdate::<A>::Unchanged.legacy_after(before) == before,
        RegistryUpdate::<A>::Failed.legacy_after(before) == before,
{
}

} // verus!
