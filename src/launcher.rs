use vstd::prelude::*;

use std::sync::{Arc, Mutex};

use crate::error::{KeyError, LauncherError};
use crate::key::{ApplicationEncryptionKey, ApplicationIdentity};
use crate::registry::KeyRegistry;

verus! {

#[verifier::external_type_specification]
#[verifier::external_body]
#[verifier::reject_recursive_types(T)]
pub struct ExMutex<T: ?Sized>(Mutex<T>);

/// Relies on std::sync::Mutex::new: an unlocked, unpoisoned mutex that owns `t`.
pub assume_specification<T>[ Mutex::<T>::new ](t: T) -> Mutex<T>;

/// One authenticated session: the engine of the logged-in identity behind a
/// mutual-exclusion guard, and the keys issued to attached applications.
#[verifier::reject_recursive_types(E)]
pub struct Launcher<E> {
    engine: Arc<Mutex<E>>,
    registry: KeyRegistry,
}

impl<E> View for Launcher<E> {
    type V = Map<Seq<u8>, ApplicationEncryptionKey>;

    /// The keys issued so far, by application identity.
    closed spec fn view(&self) -> Map<Seq<u8>, ApplicationEncryptionKey> {
        self.registry@
    }
}

impl<E> Launcher<E> {
    pub closed spec fn wf(&self) -> bool {
        self.registry.wf()
    }

    /// A session around a freshly authenticated engine, with no keys issued.
    fn start(engine: E) -> (r: Launcher<E>)
        ensures
            r.wf(),
            r@ == Map::<Seq<u8>, ApplicationEncryptionKey>::empty(),
    {
        Launcher { engine: Arc::new(Mutex::new(engine)), registry: KeyRegistry::new() }
    }

    /// Builds the session for a newly registered account from the outcome of
    /// the registration. A failed registration is reported as
    /// `AccountCreationFailed` with its cause unchanged, and leaves no session.
    pub fn create_account<C>(registration: Result<E, C>) -> (r: Result<Launcher<E>, LauncherError<C>>)
        ensures
            registration is Ok <==> r is Ok,
            r matches Ok(s) ==> s.wf() && s@ == Map::<Seq<u8>, ApplicationEncryptionKey>::empty(),
            registration matches Err(c) ==> r == Err::<Launcher<E>, LauncherError<C>>(
                LauncherError::AccountCreationFailed(c),
            ),
    {
        match registration {
            Ok(engine) => Ok(Launcher::start(engine)),
            Err(c) => Err(LauncherError::AccountCreationFailed(c)),
        }
    }

    /// Builds the session for an existing account from the outcome of the
    /// login. A failed login is reported as `LoginFailed` with its cause
    /// unchanged, and leaves no session.
    pub fn log_in<C>(login: Result<E, C>) -> (r: Result<Launcher<E>, LauncherError<C>>)
        ensures
            login is Ok <==> r is Ok,
            r matches Ok(s) ==> s.wf() && s@ == Map::<Seq<u8>, ApplicationEncryptionKey>::empty(),
            login matches Err(c) ==> r == Err::<Launcher<E>, LauncherError<C>>(
                LauncherError::LoginFailed(c),
            ),
    {
        match login {
            Ok(engine) => Ok(Launcher::start(engine)),
            Err(c) => Err(LauncherError::LoginFailed(c)),
        }
    }

    /// The guarded engine. Every operation on it goes through its lock.
    pub fn engine(&self) -> &Arc<Mutex<E>> {
        &self.engine
    }

    /// Issues fresh random key material to `id`, unless it already holds a key.
    pub fn issue(&mut self, id: ApplicationIdentity) -> (r: Result<ApplicationEncryptionKey, KeyError>)
        requires
            old(self).wf(),
        ensures
            final(self).wf(),
            old(self)@.contains_key(id.name@) ==> r == Err::<ApplicationEncryptionKey, KeyError>(
                KeyError::DuplicateKeyIssuance,
            ) && final(self)@ == old(self)@,
            !old(self)@.contains_key(id.name@) ==> r is Ok && final(self)@ == old(self)@.insert(
                id.name@,
                r->Ok_0,
            ),
    {
        match self.registry.lookup(&id) {
            Ok(_) => Err(KeyError::DuplicateKeyIssuance),
            Err(_) => {
                let key = ApplicationEncryptionKey::generate();
                self.registry.issue_with(id, key)
            },
        }
    }

    /// Stores the given key material for `id`, unless it already holds a key.
    pub fn issue_with(&mut self, id: ApplicationIdentity, key: ApplicationEncryptionKey) -> (r:
        Result<ApplicationEncryptionKey, KeyError>)
        requires
            old(self).wf(),
        ensures
            final(self).wf(),
            old(self)@.contains_key(id.name@) ==> r == Err::<ApplicationEncryptionKey, KeyError>(
                KeyError::DuplicateKeyIssuance,
            ) && final(self)@ == old(self)@,
            !old(self)@.contains_key(id.name@) ==> r == Ok::<ApplicationEncryptionKey, KeyError>(
                key,
            ) && final(self)@ == old(self)@.insert(id.name@, key),
    {
        self.registry.issue_with(id, key)
    }

    /// The key material held by `id`.
    pub fn lookup(&self, id: &ApplicationIdentity) -> (r: Result<ApplicationEncryptionKey, KeyError>)
        requires
            self.wf(),
        ensures
            self@.contains_key(id.name@) ==> r == Ok::<ApplicationEncryptionKey, KeyError>(
                self@[id.name@],
            ),
            !self@.contains_key(id.name@) ==> r == Err::<ApplicationEncryptionKey, KeyError>(
                KeyError::KeyNotFound,
            ),
    {
        self.registry.lookup(id)
    }

    /// Removes the key held by `id`; revoking an absent identity does nothing.
    pub fn revoke(&mut self, id: &ApplicationIdentity)
        requires
            old(self).wf(),
        ensures
            final(self).wf(),
            final(self)@ == old(self)@.remove(id.name@),
    {
        self.registry.revoke(id)
    }

    /// Number of applications that hold a key.
    pub fn attached(&self) -> (r: usize)
        requires
            self.wf(),
        ensures
            r == self@.len(),
    {
        self.registry.len()
    }
}

/// Settles an attempt to use the guarded engine: the work's result when the
/// guard was acquired, `EngineUnavailable` when it could not be, because an
/// earlier unit of work left the engine in an undefined state.
pub fn engine_access<R, C>(acquired: Option<R>) -> (r: Result<R, LauncherError<C>>)
    ensures
        acquired matches Some(v) ==> r == Ok::<R, LauncherError<C>>(v),
        acquired is None ==> r == Err::<R, LauncherError<C>>(LauncherError::EngineUnavailable),
{
    match acquired {
        Some(v) => Ok(v),
        None => Err(LauncherError::EngineUnavailable),
    }
}

/// Once `a` has been issued a key, issuing to `a` again is rejected: the
/// state after a successful `issue` or `issue_with` holds `a`, and on such a
/// state both report `DuplicateKeyIssuance` and change nothing.
pub proof fn lemma_second_issue_rejected<E>(
    before: Launcher<E>,
    after: Launcher<E>,
    a: ApplicationIdentity,
    k: ApplicationEncryptionKey,
)
    requires
        before.wf(),
        after.wf(),
        !before@.contains_key(a.name@),
        after@ == before@.insert(a.name@, k),
    ensures
        after@.contains_key(a.name@),
        after@[a.name@] == k,
{
}

/// After `revoke(a)`, `a` holds no key: `lookup(a)` reports `KeyNotFound`
/// and a new `issue(a)` succeeds, whatever `a` held before.
pub proof fn lemma_revoked_is_absent<E>(before: Launcher<E>, after: Launcher<E>, a: ApplicationIdentity)
    requires
        before.wf(),
        after.wf(),
        after@ == before@.remove(a.name@),
    ensures
        !after@.contains_key(a.name@),
{
}

/// Keys issued to two different identities are stored apart: after issuing
/// `ka` to `a` and then `kb` to `b`, looking up `a` gives `ka` and looking up
/// `b` gives `kb`; and revoking `a` leaves `b`'s key in place.
pub proof fn lemma_distinct_identities_kept_apart<E>(
    s0: Launcher<E>,
    s1: Launcher<E>,
    s2: Launcher<E>,
    a: ApplicationIdentity,
    b: ApplicationIdentity,
    ka: ApplicationEncryptionKey,
    kb: ApplicationEncryptionKey,
)
    requires
        s0.wf(),
        a.name@ != b.name@,
        !s0@.contains_key(a.name@),
        !s0@.contains_key(b.name@),
        s1@ == s0@.insert(a.name@, ka),
        s2@ == s1@.insert(b.name@, kb),
    ensures
        s2@.contains_key(a.name@) && s2@[a.name@] == ka,
        s2@.contains_key(b.name@) && s2@[b.name@] == kb,
        s2@.remove(a.name@).contains_key(b.name@) && s2@.remove(a.name@)[b.name@] == kb,
{
}

} // verus!
