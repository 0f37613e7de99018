use vstd::prelude::*;
use crate::error::Error;

verus! {

/// The root certificate store: where a TLS context is to take its trust
/// anchors from.
#[derive(Debug)]
pub enum RootCertStore<S: 'static> {
    /// A store handed over by the caller. It serves one context, which
    /// becomes its sole owner.
    Owned(S),
    /// A store that the caller keeps alive for as long as any context uses it.
    Borrowed(&'static S),
    /// No store of the caller's: bundled roots where there are any, else the
    /// platform's default verify paths.
    Default,
    /// What is left of an owned store once a context has taken it.
    Consumed,
}

/// What is to be done to a TLS context so that it trusts the right anchors.
#[derive(Debug, PartialEq, Eq)]
pub enum TrustAction<S: 'static> {
    /// Hand the store over; the context becomes its sole owner.
    InstallOwned(S),
    /// Install a reference to a store that somebody else keeps alive.
    InstallShared(&'static S),
    /// Let the platform's default verify paths decide.
    UseDefaultVerifyPaths,
}

impl<S: 'static> RootCertStore<S> {
    /// What applying this store asks of the context. `bundled` holds the
    /// roots that the build brings along or has loaded from the platform,
    /// where there are any.
    pub open spec fn action(self, bundled: Option<&'static S>) -> Result<TrustAction<S>, Error> {
        match self {
            RootCertStore::Owned(store) => Ok(TrustAction::InstallOwned(store)),
            RootCertStore::Borrowed(store) => Ok(TrustAction::InstallShared(store)),
            RootCertStore::Default => match bundled {
                Some(roots) => Ok(TrustAction::InstallShared(roots)),
                None => Ok(TrustAction::UseDefaultVerifyPaths),
            },
            RootCertStore::Consumed => Err(Error::Ownership),
        }
    }

    /// What applying this store leaves of it.
    pub open spec fn left(self) -> RootCertStore<S> {
        match self {
            RootCertStore::Owned(_) => RootCertStore::Consumed,
            other => other,
        }
    }

    /// Applies the store: says what is to be done to the context, and gives
    /// an owned store away.
    ///
    /// An owned store can be applied once. Applying it again is an error of
    /// the caller's and is reported as `Error::Ownership`; nothing is
    /// installed then.
    pub fn apply(&mut self, bundled: Option<&'static S>) -> (r: Result<TrustAction<S>, Error>)
        ensures
            r == old(self).action(bundled),
            *final(self) == old(self).left(),
    {
        let mut taken = RootCertStore::Consumed;
        core::mem::swap(self, &mut taken);
        match taken {
            RootCertStore::Owned(store) => Ok(TrustAction::InstallOwned(store)),
            RootCertStore::Borrowed(store) => {
                *self = RootCertStore::Borrowed(store);
                Ok(TrustAction::InstallShared(store))
            },
            RootCertStore::Default => {
                *self = RootCertStore::Default;
                match bundled {
                    Some(roots) => Ok(TrustAction::InstallShared(roots)),
                    None => Ok(TrustAction::UseDefaultVerifyPaths),
                }
            },
            RootCertStore::Consumed => Err(Error::Ownership),
        }
    }

    /// The store for an owned store that may be absent: absent means `Default`.
    pub open spec fn owned_or_default(store: Option<S>) -> RootCertStore<S> {
        match store {
            Some(s) => RootCertStore::Owned(s),
            None => RootCertStore::Default,
        }
    }

    /// The store for a borrowed store that may be absent: absent means `Default`.
    pub open spec fn borrowed_or_default(store: Option<&'static S>) -> RootCertStore<S> {
        match store {
            Some(s) => RootCertStore::Borrowed(s),
            None => RootCertStore::Default,
        }
    }

    /// Takes a store that may be absent into ownership.
    pub fn from_owned(store: Option<S>) -> (r: Self)
        ensures
            r == Self::owned_or_default(store),
    {
        match store {
            Some(s) => RootCertStore::Owned(s),
            None => RootCertStore::Default,
        }
    }

    /// Refers to a store that may be absent.
    pub fn from_borrowed(store: Option<&'static S>) -> (r: Self)
        ensures
            r == Self::borrowed_or_default(store),
    {
        match store {
            Some(s) => RootCertStore::Borrowed(s),
            None => RootCertStore::Default,
        }
    }

    /// Asks `provider` for a store, once, and refers to what it hands back;
    /// a provider that hands back nothing means `Default`. A caller that
    /// never needs a store never calls this, and the provider's work is
    /// never done.
    pub fn from_provider<F: FnOnce() -> Option<&'static S>>(provider: F) -> (r: Self)
        requires
            provider.requires(()),
        ensures
            exists|found: Option<&'static S>|
                provider.ensures((), found) && r == Self::borrowed_or_default(found),
    {
        let found = provider();
        Self::from_borrowed(found)
    }
}

impl<S: 'static> Default for RootCertStore<S> {
    /// No store of the caller's.
    fn default() -> (r: Self)
        ensures
            r == RootCertStore::<S>::Default,
    {
        RootCertStore::Default
    }
}

/// What the installation of a store came to. A failure of the engine is
/// passed on with the engine's own words; it is never taken for success.
pub fn installed(outcome: Result<(), String>) -> (r: Result<(), Error>)
    ensures
        r == match outcome {
            Ok(_) => Ok::<(), Error>(()),
            Err(diagnostic) => Err::<(), Error>(Error::Engine(diagnostic)),
        },
{
    match outcome {
        Ok(_) => Ok(()),
        Err(diagnostic) => Err(Error::Engine(diagnostic)),
    }
}

/// An owned store serves once: whatever it is applied to afterwards, the
/// second application and every later one is refused as an error of
/// ownership, and nothing is installed.
pub proof fn owned_store_serves_once<S>(
    store: S,
    first: Option<&'static S>,
    later: Option<&'static S>,
)
    ensures
        RootCertStore::Owned(store).action(first) == Ok::<TrustAction<S>, Error>(
            TrustAction::InstallOwned(store),
        ),
        RootCertStore::Owned(store).left().action(later) == Err::<TrustAction<S>, Error>(
            Error::Ownership,
        ),
        RootCertStore::Owned(store).left().left() == RootCertStore::Owned(store).left(),
{
}

/// A borrowed store and the default can be applied any number of times:
/// applying changes neither, and every application asks for the same.
pub proof fn shared_store_serves_again<S>(store: RootCertStore<S>, bundled: Option<&'static S>)
    requires
        store is Borrowed || store is Default,
    ensures
        store.left() == store,
        store.action(bundled) is Ok,
        store.left().action(bundled) == store.action(bundled),
{
}

} // verus!
