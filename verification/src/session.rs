//! Session lifecycle and process-wide decisions.
//!
//! A session owns the one bound automation object of the process.  The
//! foreign steps of opening one — establishing the single-threaded
//! apartment and instantiating the object — happen outside this crate; the
//! decisions around them are here and verified:
//!
//! * [`OpenGuard`] makes opening a second session while one is live a
//!   deterministic error instead of silent corruption.  The apartment is
//!   also bound to the thread that created it; calls from another thread
//!   are unsupported and the shell must not attempt them, since no local
//!   state can detect them.
//! * [`Session`] carries the name-resolution cache and the open flag;
//!   closing is idempotent.
//! * [`ProviderConfig`] is the first-call-wins choice of the two provider
//!   paths (loader component and automation provider): the first proposal
//!   is accepted for the lifetime of the process, later ones are ignored.

use vstd::prelude::*;

use crate::error::AjError;
use crate::resolve::NameCache;

verus! {

/// A live binding to the automation object: the open flag and the method
/// resolution cache.
pub struct Session {
    cache: NameCache,
    open: bool,
}

impl Session {
    /// Whether the session is open, i.e. calls may be dispatched through it.
    pub closed spec fn is_open(self) -> bool {
        self.open
    }

    /// Well-formedness of the resolution cache.
    pub closed spec fn wf(self) -> bool {
        self.cache.wf()
    }

    /// Whether this session has resolved `name` at all.
    pub closed spec fn knows_method(self, name: Seq<char>) -> bool {
        self.cache.knows(name)
    }

    /// Whether this session has resolved `name` to `id`.
    pub closed spec fn resolved(self, name: Seq<char>, id: i32) -> bool {
        self.cache.maps(name, id)
    }

    /// The cached identifier for a method name, if this session has
    /// resolved it before.  `None` means the object must be asked.
    pub fn resolve_hint(&self, name: &str) -> (r: Option<i32>)
        ensures
            match r {
                Some(id) => self.resolved(name@, id),
                None => !self.knows_method(name@),
            },
    {
        self.cache.lookup(name)
    }

    /// Settle a name lookup the automation object answered: `remote` is the
    /// identifier it returned, or `None` when it does not export the name.
    /// A failed resolution is an [`AjError::UnknownMethodError`] and leaves
    /// the cache untouched, so it is retried on next use; a successful one
    /// is cached, first recorded identifier winning.
    pub fn note_resolution(&mut self, name: &str, remote: Option<i32>) -> (r: Result<
        i32,
        AjError,
    >)
        requires
            old(self).wf(),
        ensures
            final(self).wf(),
            final(self).is_open() == old(self).is_open(),
            remote is None ==> r == Err::<i32, AjError>(AjError::UnknownMethodError)
                && *final(self) == *old(self),
            remote matches Some(id) ==> r == Ok::<i32, AjError>(id) && final(self).knows_method(
                name@,
            ) && (!old(self).knows_method(name@) ==> final(self).resolved(name@, id)) && (forall|
                n: Seq<char>,
                other: i32,
            |
                old(self).resolved(n, other) ==> final(self).resolved(n, other)),
    {
        match remote {
            Some(id) => {
                self.cache.record(name, id);
                Ok(id)
            },
            None => Err(AjError::UnknownMethodError),
        }
    }

    /// Mark the session closed.  Idempotent: closing a closed session
    /// changes nothing further, and calls must no longer be dispatched.
    pub fn close(&mut self)
        ensures
            !final(self).is_open(),
            final(self).wf() == old(self).wf(),
    {
        self.open = false;
    }
}

/// The process-wide guard against a second concurrent session.
///
/// The apartment context a session needs is process-wide and reentrant
/// unsafe, so at most one session may be live.  The shell holds one guard
/// for the process; opening through it while a session is live is rejected
/// deterministically, with the guard unchanged.
pub struct OpenGuard {
    live: bool,
}

impl OpenGuard {
    /// Whether a session opened through this guard is still live.
    pub closed spec fn is_live(self) -> bool {
        self.live
    }

    /// A guard with no live session.
    pub fn new() -> (g: OpenGuard)
        ensures
            !g.is_live(),
    {
        OpenGuard { live: false }
    }

    /// Decide an open request.  `apartment_ok` and `object_ok` report the
    /// two foreign setup steps: whether the threading apartment was
    /// established and whether the automation object was instantiated.
    ///
    /// While a session is live, a second open is rejected with
    /// [`AjError::InitializationError`] and the guard is untouched.
    /// Otherwise the session opens exactly when both setup steps succeeded,
    /// with a fresh resolution cache; a failed setup is the same error and
    /// leaves no live session behind.
    pub fn try_open(&mut self, apartment_ok: bool, object_ok: bool) -> (r: Result<
        Session,
        AjError,
    >)
        ensures
            old(self).is_live() ==> *final(self) == *old(self) && r == Err::<Session, AjError>(
                AjError::InitializationError,
            ),
            !old(self).is_live() && apartment_ok && object_ok ==> final(self).is_live() && (
            r matches Ok(s) && s.is_open() && s.wf() && forall|n: Seq<char>| !s.knows_method(n)),
            !old(self).is_live() && !(apartment_ok && object_ok) ==> !final(self).is_live() && r
                == Err::<Session, AjError>(AjError::InitializationError),
    {
        if self.live {
            Err(AjError::InitializationError)
        } else if apartment_ok && object_ok {
            self.live = true;
            Ok(Session { cache: NameCache::new(), open: true })
        } else {
            Err(AjError::InitializationError)
        }
    }

    /// Note that the live session was closed and released, allowing a later
    /// open.
    pub fn note_closed(&mut self)
        ensures
            !final(self).is_live(),
    {
        self.live = false;
    }
}

/// The first-call-wins configuration of the two provider paths.
///
/// Before any session exists, the process must associate the loader
/// component and the automation provider with itself.  The first proposed
/// pair of paths wins for the lifetime of the process; later proposals are
/// ignored without an error, as the provider's registration step cannot be
/// redone.
pub struct ProviderConfig {
    loader: String,
    provider: String,
    chosen: bool,
}

impl ProviderConfig {
    /// The accepted pair of paths, if a proposal won already.
    pub closed spec fn current(self) -> Option<(Seq<char>, Seq<char>)> {
        if self.chosen {
            Some((self.loader@, self.provider@))
        } else {
            None
        }
    }

    /// A configuration with no accepted paths yet.
    pub fn new() -> (c: ProviderConfig)
        ensures
            c.current() is None,
    {
        ProviderConfig { loader: String::new(), provider: String::new(), chosen: false }
    }

    /// Propose a pair of paths.  The first proposal is accepted and
    /// returned as the one to register; any later proposal is ignored and
    /// the accepted pair stands.
    pub fn propose(&mut self, loader: &str, provider: &str) -> (accepted: bool)
        ensures
            old(self).current() is None ==> accepted && final(self).current() == Some(
                (loader@, provider@),
            ),
            old(self).current() is Some ==> !accepted && *final(self) == *old(self),
    {
        if self.chosen {
            false
        } else {
            self.loader = loader.to_owned();
            self.provider = provider.to_owned();
            self.chosen = true;
            true
        }
    }
}

} // verus!
