//! Global statistics of the allocator.
//!
//! The allocator caches most of its statistics and refreshes them only when
//! the epoch is advanced: a read gives what held at the last advance.

use crate::error::Error;
use crate::key::Key;
use crate::raw::{
    get_mib, mib2, mib_of, name_to_mib, read_call, read_usize, usize_of, Call, Lookup, Reply,
    Resolved, TargetView,
};
use crate::value::{word_bytes, word_width, ByteOrder};
use vstd::prelude::*;

verus! {

/// Access to the total number of bytes allocated by the application, by a
/// handle resolved once from `stats.allocated`.
#[derive(Clone, Copy)]
pub struct Allocated {
    mib: [usize; 2],
}

impl View for Allocated {
    type V = Seq<usize>;

    /// The words of the handle.
    closed spec fn view(&self) -> Seq<usize> {
        self.mib@
    }
}

impl Allocated {
    /// The request that resolves `stats.allocated` into the handle of a
    /// `Allocated`.
    pub fn lookup() -> (l: Lookup)
        ensures
            l.name@ == Key::StatsAllocated.path_spec(),
            l.depth == 2,
    {
        name_to_mib(Key::StatsAllocated.path()).unwrap()
    }

    /// Makes a `Allocated` from the allocator's answer to `lookup()`. It fails
    /// with the allocator's error number where the allocator does not know the
    /// key.
    pub fn new(resolved: &Resolved) -> (r: Result<Allocated, Error>)
        requires
            resolved.fits(2),
        ensures
            match r {
                Ok(a) => mib_of(resolved) == Ok::<Seq<usize>, Error>(a@),
                Err(e) => mib_of(resolved) == Err::<Seq<usize>, Error>(e),
            },
    {
        match mib2(resolved) {
            Ok(mib) => Ok(Allocated { mib }),
            Err(e) => Err(e),
        }
    }

    /// The request that reads the slot.
    pub fn get_call(&self) -> (c: Call)
        ensures
            c@ == read_call(TargetView::Mib(self@), word_width()),
    {
        get_mib(self.mib.as_slice(), word_bytes())
    }

    /// Reads the total number of bytes allocated by the application from the
    /// allocator's answer to `get_call()`.
    pub fn get(&self, reply: &Reply, order: ByteOrder) -> (r: Result<usize, Error>)
        requires
            reply.fits(word_width()),
        ensures
            r == usize_of(reply, order),
    {
        read_usize(reply, order)
    }
}

/// Access to the total number of bytes in active pages allocated by the
/// application, by a handle resolved once from `stats.active`. The value is a
/// multiple of the page size.
#[derive(Clone, Copy)]
pub struct Active {
    mib: [usize; 2],
}

impl View for Active {
    type V = Seq<usize>;

    /// The words of the handle.
    closed spec fn view(&self) -> Seq<usize> {
        self.mib@
    }
}

impl Active {
    /// The request that resolves `stats.active` into the handle of a `Active`.
    pub fn lookup() -> (l: Lookup)
        ensures
            l.name@ == Key::StatsActive.path_spec(),
            l.depth == 2,
    {
        name_to_mib(Key::StatsActive.path()).unwrap()
    }

    /// Makes a `Active` from the allocator's answer to `lookup()`. It fails
    /// with the allocator's error number where the allocator does not know the
    /// key.
    pub fn new(resolved: &Resolved) -> (r: Result<Active, Error>)
        requires
            resolved.fits(2),
        ensures
            match r {
                Ok(a) => mib_of(resolved) == Ok::<Seq<usize>, Error>(a@),
                Err(e) => mib_of(resolved) == Err::<Seq<usize>, Error>(e),
            },
    {
        match mib2(resolved) {
            Ok(mib) => Ok(Active { mib }),
            Err(e) => Err(e),
        }
    }

    /// The request that reads the slot.
    pub fn get_call(&self) -> (c: Call)
        ensures
            c@ == read_call(TargetView::Mib(self@), word_width()),
    {
        get_mib(self.mib.as_slice(), word_bytes())
    }

    /// Reads the total number of bytes in active pages allocated by the
    /// application from the allocator's answer to `get_call()`.
    pub fn get(&self, reply: &Reply, order: ByteOrder) -> (r: Result<usize, Error>)
        requires
            reply.fits(word_width()),
        ensures
            r == usize_of(reply, order),
    {
        read_usize(reply, order)
    }
}

/// Access to the total number of bytes dedicated to the allocator's metadata,
/// by a handle resolved once from `stats.metadata`.
#[derive(Clone, Copy)]
pub struct Metadata {
    mib: [usize; 2],
}

impl View for Metadata {
    type V = Seq<usize>;

    /// The words of the handle.
    closed spec fn view(&self) -> Seq<usize> {
        self.mib@
    }
}

impl Metadata {
    /// The request that resolves `stats.metadata` into the handle of a
    /// `Metadata`.
    pub fn lookup() -> (l: Lookup)
        ensures
            l.name@ == Key::StatsMetadata.path_spec(),
            l.depth == 2,
    {
        name_to_mib(Key::StatsMetadata.path()).unwrap()
    }

    /// Makes a `Metadata` from the allocator's answer to `lookup()`. It fails
    /// with the allocator's error number where the allocator does not know the
    /// key.
    pub fn new(resolved: &Resolved) -> (r: Result<Metadata, Error>)
        requires
            resolved.fits(2),
        ensures
            match r {
                Ok(a) => mib_of(resolved) == Ok::<Seq<usize>, Error>(a@),
                Err(e) => mib_of(resolved) == Err::<Seq<usize>, Error>(e),
            },
    {
        match mib2(resolved) {
            Ok(mib) => Ok(Metadata { mib }),
            Err(e) => Err(e),
        }
    }

    /// The request that reads the slot.
    pub fn get_call(&self) -> (c: Call)
        ensures
            c@ == read_call(TargetView::Mib(self@), word_width()),
    {
        get_mib(self.mib.as_slice(), word_bytes())
    }

    /// Reads the total number of bytes dedicated to the allocator's metadata
    /// from the allocator's answer to `get_call()`.
    pub fn get(&self, reply: &Reply, order: ByteOrder) -> (r: Result<usize, Error>)
        requires
            reply.fits(word_width()),
        ensures
            r == usize_of(reply, order),
    {
        read_usize(reply, order)
    }
}

/// Access to the total number of bytes in physically resident data pages mapped
/// by the allocator, by a handle resolved once from `stats.resident`.
#[derive(Clone, Copy)]
pub struct Resident {
    mib: [usize; 2],
}

impl View for Resident {
    type V = Seq<usize>;

    /// The words of the handle.
    closed spec fn view(&self) -> Seq<usize> {
        self.mib@
    }
}

impl Resident {
    /// The request that resolves `stats.resident` into the handle of a
    /// `Resident`.
    pub fn lookup() -> (l: Lookup)
        ensures
            l.name@ == Key::StatsResident.path_spec(),
            l.depth == 2,
    {
        name_to_mib(Key::StatsResident.path()).unwrap()
    }

    /// Makes a `Resident` from the allocator's answer to `lookup()`. It fails
    /// with the allocator's error number where the allocator does not know the
    /// key.
    pub fn new(resolved: &Resolved) -> (r: Result<Resident, Error>)
        requires
            resolved.fits(2),
        ensures
            match r {
                Ok(a) => mib_of(resolved) == Ok::<Seq<usize>, Error>(a@),
                Err(e) => mib_of(resolved) == Err::<Seq<usize>, Error>(e),
            },
    {
        match mib2(resolved) {
            Ok(mib) => Ok(Resident { mib }),
            Err(e) => Err(e),
        }
    }

    /// The request that reads the slot.
    pub fn get_call(&self) -> (c: Call)
        ensures
            c@ == read_call(TargetView::Mib(self@), word_width()),
    {
        get_mib(self.mib.as_slice(), word_bytes())
    }

    /// Reads the total number of bytes in physically resident data pages mapped
    /// by the allocator from the allocator's answer to `get_call()`.
    pub fn get(&self, reply: &Reply, order: ByteOrder) -> (r: Result<usize, Error>)
        requires
            reply.fits(word_width()),
        ensures
            r == usize_of(reply, order),
    {
        read_usize(reply, order)
    }
}

/// Access to the total number of bytes in active extents mapped by the
/// allocator, by a handle resolved once from `stats.mapped`.
#[derive(Clone, Copy)]
pub struct Mapped {
    mib: [usize; 2],
}

impl View for Mapped {
    type V = Seq<usize>;

    /// The words of the handle.
    closed spec fn view(&self) -> Seq<usize> {
        self.mib@
    }
}

impl Mapped {
    /// The request that resolves `stats.mapped` into the handle of a `Mapped`.
    pub fn lookup() -> (l: Lookup)
        ensures
            l.name@ == Key::StatsMapped.path_spec(),
            l.depth == 2,
    {
        name_to_mib(Key::StatsMapped.path()).unwrap()
    }

    /// Makes a `Mapped` from the allocator's answer to `lookup()`. It fails
    /// with the allocator's error number where the allocator does not know the
    /// key.
    pub fn new(resolved: &Resolved) -> (r: Result<Mapped, Error>)
        requires
            resolved.fits(2),
        ensures
            match r {
                Ok(a) => mib_of(resolved) == Ok::<Seq<usize>, Error>(a@),
                Err(e) => mib_of(resolved) == Err::<Seq<usize>, Error>(e),
            },
    {
        match mib2(resolved) {
            Ok(mib) => Ok(Mapped { mib }),
            Err(e) => Err(e),
        }
    }

    /// The request that reads the slot.
    pub fn get_call(&self) -> (c: Call)
        ensures
            c@ == read_call(TargetView::Mib(self@), word_width()),
    {
        get_mib(self.mib.as_slice(), word_bytes())
    }

    /// Reads the total number of bytes in active extents mapped by the
    /// allocator from the allocator's answer to `get_call()`.
    pub fn get(&self, reply: &Reply, order: ByteOrder) -> (r: Result<usize, Error>)
        requires
            reply.fits(word_width()),
        ensures
            r == usize_of(reply, order),
    {
        read_usize(reply, order)
    }
}

} // verus!
