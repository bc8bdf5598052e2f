//! The process-wide slot for the one active peer connection, tagged with a
//! generation so that a superseded read loop can tell it has been replaced.
use vstd::prelude::*;
use crate::error::AdapterError;

verus! {

/// The registry as a value: the installed connection, if any, and the
/// generation of the latest installation.
pub struct RegistryModel<C> {
    pub connection: Option<C>,
    pub generation: nat,
}

pub open spec fn connected<C>(m: RegistryModel<C>) -> bool {
    m.connection is Some
}

/// `m` after installing `c`: it replaces what was there, under a new generation.
pub open spec fn installed<C>(m: RegistryModel<C>, c: C) -> RegistryModel<C> {
    RegistryModel { connection: Some(c), generation: m.generation + 1 }
}

/// `m` with its connection taken out; the generation stays.
pub open spec fn emptied<C>(m: RegistryModel<C>) -> RegistryModel<C> {
    RegistryModel { connection: None, generation: m.generation }
}

/// Whether generation `g` names the connection that is installed now.
pub open spec fn is_current_in<C>(m: RegistryModel<C>, g: nat) -> bool {
    m.connection is Some && m.generation == g
}

/// `m` after the read loop of generation `g` ends: the connection is cleared
/// only if it is still the one that loop served.
pub open spec fn released<C>(m: RegistryModel<C>, g: nat) -> RegistryModel<C> {
    if is_current_in(m, g) {
        emptied(m)
    } else {
        m
    }
}

pub struct ConnectionRegistry<C> {
    slot: Option<C>,
    generation: u64,
}

impl<C> View for ConnectionRegistry<C> {
    type V = RegistryModel<C>;

    closed spec fn view(&self) -> RegistryModel<C> {
        RegistryModel { connection: self.slot, generation: self.generation as nat }
    }
}

impl<C> ConnectionRegistry<C> {
    /// An empty registry at generation zero.
    pub fn new() -> (r: Self)
        ensures
            r@.connection is None,
            r@.generation == 0,
    {
        ConnectionRegistry { slot: None, generation: 0 }
    }

    /// Whether one more connection can be given a fresh generation.
    pub fn can_install(&self) -> (r: bool)
        ensures
            r == (self@.generation < u64::MAX),
    {
        self.generation < u64::MAX
    }

    /// Installs `c`, replacing any connection there; returns its generation.
    pub fn install(&mut self, c: C) -> (g: u64)
        requires
            old(self)@.generation < u64::MAX,
        ensures
            final(self)@ == installed(old(self)@, c),
            g as nat == final(self)@.generation,
    {
        self.generation = self.generation + 1;
        self.slot = Some(c);
        self.generation
    }

    /// Whether a connection is installed now.
    pub fn is_connected(&self) -> (r: bool)
        ensures
            r == connected(self@),
    {
        self.slot.is_some()
    }

    /// The generation of the latest installation.
    pub fn generation(&self) -> (r: u64)
        ensures
            r as nat == self@.generation,
    {
        self.generation
    }

    /// Whether generation `g` is the connection installed now.
    pub fn is_current(&self, g: u64) -> (r: bool)
        ensures
            r == is_current_in(self@, g as nat),
    {
        self.slot.is_some() && self.generation == g
    }

    /// Removes the connection, whichever it is.
    pub fn clear(&mut self)
        ensures
            final(self)@ == emptied(old(self)@),
    {
        self.slot = None;
    }

    /// Clears the connection only if generation `g` is still the one installed.
    pub fn release(&mut self, g: u64)
        ensures
            final(self)@ == released(old(self)@, g as nat),
    {
        if self.slot.is_some() && self.generation == g {
            self.slot = None;
        }
    }

    /// Takes the installed connection out to write to it, or fails with
    /// `ConnectionAbsent`, leaving the registry as it was, when there is none.
    /// The caller puts it back with `restore` while it still holds the lock.
    pub fn take_connection(&mut self) -> (r: Result<C, AdapterError>)
        ensures
            match old(self)@.connection {
                Some(c) => r == Ok::<C, AdapterError>(c) && final(self)@ == emptied(old(self)@),
                None => r matches Err(AdapterError::ConnectionAbsent) && final(self)@ == old(
                    self,
                )@,
            },
    {
        match self.slot.take() {
            Some(c) => Ok(c),
            None => Err(AdapterError::ConnectionAbsent),
        }
    }

    /// Puts a taken connection back under the same generation.
    pub fn restore(&mut self, c: C)
        ensures
            final(self)@ == (RegistryModel { connection: Some(c), generation: old(self)@.generation }),
    {
        self.slot = Some(c);
    }
}

/// A fresh registry is not connected; from any registry state, it is
/// connected right after an installation; and once the read loop of that
/// installation releases it, it is not connected again. (The executable
/// `install` also asks that its 64-bit generation counter has room, which
/// `can_install` tests.)
pub proof fn lemma_connect_lifecycle<C>(m: RegistryModel<C>, c: C)
    ensures
        !connected(RegistryModel::<C> { connection: None, generation: 0 }),
        connected(installed(m, c)),
        !connected(released(installed(m, c), installed(m, c).generation)),
{
}

/// A second installation supersedes the first: the connection reached
/// afterwards is the new one, and the first one's read loop, when it ends,
/// leaves the new connection in place.
pub proof fn lemma_supersede<C>(m: RegistryModel<C>, c1: C, c2: C)
    ensures
        installed(installed(m, c1), c2).connection == Some(c2),
        !is_current_in(installed(installed(m, c1), c2), installed(m, c1).generation),
        released(installed(installed(m, c1), c2), installed(m, c1).generation) == installed(
            installed(m, c1),
            c2,
        ),
{
}

} // verus!
