//! Permission-guarded container for a single secret value.
//!
//! A [`SecKey`] owns one value of type `T` together with a borrow counter
//! and the current page-permission mode of the storage that holds the
//! value.  The mode is [`Prot::NoAccess`] exactly while the counter is 0;
//! taking a guard raises the counter and, on the transition from 0, opens
//! the storage; releasing the last guard closes it again.  The container
//! itself only decides the transitions; applying them to real pages is the
//! embedding program's job, driven by [`SecKey::current_prot`].

use vstd::prelude::*;

verus! {

/// Page-permission mode of the guarded storage.
#[derive(Clone, Copy, Debug, PartialEq, Eq, Structural)]
pub enum Prot {
    /// Neither reads nor writes are allowed.
    NoAccess,
    /// Reads are allowed, writes are not.
    ReadOnly,
    /// Both reads and writes are allowed.
    ReadWrite,
}

/// True when the mode permits reading the value.
pub open spec fn prot_readable(p: Prot) -> bool {
    p is ReadOnly || p is ReadWrite
}

/// Mode after one guard is acquired: the transition from a counter of 0
/// opens the storage with the requested mode; any later acquisition leaves
/// the mode as it is.
pub open spec fn prot_after_acquire(count: nat, prot: Prot, requested: Prot) -> Prot {
    if count == 0 {
        requested
    } else {
        prot
    }
}

/// Mode after one guard is released, where `count` is the counter before
/// the release: releasing the last guard closes the storage.
pub open spec fn prot_after_release(count: nat, prot: Prot) -> Prot {
    if count <= 1 {
        Prot::NoAccess
    } else {
        prot
    }
}

/// Container that keeps one secret value behind a permission mode and a
/// borrow counter.
pub struct SecKey<T> {
    secret: T,
    guards: usize,
    mode: Prot,
}

/// Token for a live read borrow of a [`SecKey`]; hand it back with
/// [`SecKey::release_read`] when the read is over.
pub struct SecReadGuard {
    _priv: (),
}

/// Token for a live write borrow of a [`SecKey`]; hand it back with
/// [`SecKey::release_write`] when the write is over.
pub struct SecWriteGuard {
    _priv: (),
}

impl<T> SecKey<T> {
    /// The protected value.
    pub closed spec fn value(self) -> T {
        self.secret
    }

    /// How many borrow guards are live.
    pub closed spec fn count(self) -> nat {
        self.guards as nat
    }

    /// The current page-permission mode.
    pub closed spec fn prot(self) -> Prot {
        self.mode
    }

    /// The container's invariant: the storage is inaccessible exactly
    /// while no guard is live.
    pub open spec fn wf(self) -> bool {
        self.count() == 0 <==> self.prot() is NoAccess
    }

    /// Creates a container around `t`.  The value is moved into the
    /// container's storage, so no second live copy of it remains with the
    /// caller; the storage starts closed, with no guard live.  Storage for
    /// the value is always available here, so the failing arm that would
    /// hand `t` back never has to be taken.
    pub fn new(t: T) -> (r: Result<SecKey<T>, T>)
        ensures
            r matches Ok(k) && k.wf() && k.value() == t && k.count() == 0 && k.prot()
                is NoAccess,
    {
        Ok(SecKey { secret: t, guards: 0, mode: Prot::NoAccess })
    }

    /// Raises the borrow counter and, on the transition from 0, opens the
    /// storage read-only.
    fn read_unlock(&mut self)
        requires
            old(self).wf(),
            old(self).count() < usize::MAX,
        ensures
            final(self).wf(),
            final(self).count() == old(self).count() + 1,
            final(self).prot() == prot_after_acquire(
                old(self).count(),
                old(self).prot(),
                Prot::ReadOnly,
            ),
            final(self).value() == old(self).value(),
    {
        let count = self.guards;
        self.guards = count + 1;
        if count == 0 {
            self.mode = Prot::ReadOnly;
        }
    }

    /// Raises the borrow counter and, on the transition from 0, opens the
    /// storage for reading and writing.
    fn write_unlock(&mut self)
        requires
            old(self).wf(),
            old(self).count() < usize::MAX,
        ensures
            final(self).wf(),
            final(self).count() == old(self).count() + 1,
            final(self).prot() == prot_after_acquire(
                old(self).count(),
                old(self).prot(),
                Prot::ReadWrite,
            ),
            final(self).value() == old(self).value(),
    {
        let count = self.guards;
        self.guards = count + 1;
        if count == 0 {
            self.mode = Prot::ReadWrite;
        }
    }

    /// Lowers the borrow counter; when the last guard goes, the storage is
    /// closed.  The counter is lowered before the mode is compared, so
    /// there is no moment at which the storage is open with no guard
    /// counted.
    fn lock(&mut self)
        requires
            old(self).wf(),
            old(self).count() >= 1,
        ensures
            final(self).wf(),
            final(self).count() == old(self).count() - 1,
            final(self).prot() == prot_after_release(old(self).count(), old(self).prot()),
            final(self).value() == old(self).value(),
    {
        let count = self.guards;
        self.guards = count - 1;
        if count <= 1 {
            self.mode = Prot::NoAccess;
        }
    }

    /// Takes a read borrow: the counter rises by one, and if no guard was
    /// live the storage opens read-only.  A live write guard must not be
    /// mixed with read guards; the counter does not police that, but
    /// [`SecKey::get_mut`] demands the read-write mode, so a stale write
    /// guard grants nothing once the mode has changed.
    pub fn read(&mut self) -> (g: SecReadGuard)
        requires
            old(self).wf(),
            old(self).count() < usize::MAX,
        ensures
            final(self).wf(),
            final(self).count() == old(self).count() + 1,
            final(self).prot() == prot_after_acquire(
                old(self).count(),
                old(self).prot(),
                Prot::ReadOnly,
            ),
            final(self).value() == old(self).value(),
            prot_readable(final(self).prot()),
    {
        self.read_unlock();
        SecReadGuard { _priv: () }
    }

    /// Takes a write borrow: the counter rises by one, and if no guard was
    /// live the storage opens for reading and writing.
    pub fn write(&mut self) -> (g: SecWriteGuard)
        requires
            old(self).wf(),
            old(self).count() < usize::MAX,
        ensures
            final(self).wf(),
            final(self).count() == old(self).count() + 1,
            final(self).prot() == prot_after_acquire(
                old(self).count(),
                old(self).prot(),
                Prot::ReadWrite,
            ),
            final(self).value() == old(self).value(),
            prot_readable(final(self).prot()),
    {
        self.write_unlock();
        SecWriteGuard { _priv: () }
    }

    /// Gives back a read guard: the counter falls by one, and when it
    /// reaches 0 the storage closes.
    pub fn release_read(&mut self, g: SecReadGuard)
        requires
            old(self).wf(),
            old(self).count() >= 1,
        ensures
            final(self).wf(),
            final(self).count() == old(self).count() - 1,
            final(self).prot() == prot_after_release(old(self).count(), old(self).prot()),
            final(self).value() == old(self).value(),
    {
        let SecReadGuard { _priv } = g;
        self.lock();
    }

    /// Gives back a write guard: the counter falls by one, and when it
    /// reaches 0 the storage closes.
    pub fn release_write(&mut self, g: SecWriteGuard)
        requires
            old(self).wf(),
            old(self).count() >= 1,
        ensures
            final(self).wf(),
            final(self).count() == old(self).count() - 1,
            final(self).prot() == prot_after_release(old(self).count(), old(self).prot()),
            final(self).value() == old(self).value(),
    {
        let SecWriteGuard { _priv } = g;
        self.lock();
    }

    /// Read access to the value; only open storage can be read, so a
    /// guard must be live.
    pub fn get(&self) -> (r: &T)
        requires
            prot_readable(self.prot()),
        ensures
            *r == self.value(),
    {
        &self.secret
    }

    /// Write access to the value; the storage must be open for writing,
    /// which only a write guard taken while no other guard was live
    /// arranges.
    pub fn get_mut(&mut self) -> (r: &mut T)
        requires
            old(self).prot() is ReadWrite,
        ensures
            *r == old(self).value(),
            final(self).value() == *final(r),
            final(self).count() == old(self).count(),
            final(self).prot() == old(self).prot(),
    {
        &mut self.secret
    }

    /// The current permission mode, for the embedding program to mirror
    /// onto real pages.
    pub fn current_prot(&self) -> (p: Prot)
        ensures
            p == self.prot(),
    {
        self.mode
    }

    /// How many borrow guards are live.
    pub fn guard_count(&self) -> (n: usize)
        ensures
            n == self.count(),
    {
        self.guards
    }
}

/// Law: the value a read guard exposes is the value the container was
/// created around.  Construction stores `v` exactly, acquiring a guard
/// never changes the stored value, and read access returns the stored
/// value, so what comes back is bit-equal to what went in.
pub proof fn lemma_new_then_read<T>(v: T, created: SecKey<T>, borrowed: SecKey<T>, exposed: T)
    requires
        created.value() == v,
        created.count() == 0,
        created.prot() is NoAccess,
        borrowed.value() == created.value(),
        prot_readable(borrowed.prot()),
        exposed == borrowed.value(),
    ensures
        exposed == v,
{
}

/// Law: one acquire-release cycle from a fresh container.  Acquiring the
/// first guard opens the storage with the requested readable mode, and
/// releasing that only guard closes it again.
pub proof fn lemma_guard_cycle(requested: Prot, opened: Prot, closed: Prot)
    requires
        prot_readable(requested),
        opened == prot_after_acquire(0, Prot::NoAccess, requested),
        closed == prot_after_release(1, opened),
    ensures
        opened == requested,
        prot_readable(opened),
        closed is NoAccess,
{
}

/// Law: two read guards taken together.  After both are acquired from a
/// fresh container, releasing one of them leaves the storage readable;
/// only releasing the second closes it.
pub proof fn lemma_concurrent_reads(first: Prot, second: Prot, after_one: Prot, after_two: Prot)
    requires
        first == prot_after_acquire(0, Prot::NoAccess, Prot::ReadOnly),
        second == prot_after_acquire(1, first, Prot::ReadOnly),
        after_one == prot_after_release(2, second),
        after_two == prot_after_release(1, after_one),
    ensures
        prot_readable(after_one),
        after_two is NoAccess,
{
}

} // verus!
