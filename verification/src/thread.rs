//! Counters that the allocator keeps for each thread.
//!
//! The slots of these counters hold no count but the address of one, which
//! differs from thread to thread. Once a thread has the address of its own
//! counter it can read the counter as often as it likes without asking the
//! allocator again. The address is of use on that thread alone.

use crate::error::Error;
use crate::key::Key;
use crate::raw::{
    get_mib, mib2, mib_of, name_to_mib, read_call, read_usize, usize_of, Call, Lookup, Reply,
    Resolved, TargetView,
};
use crate::value::{word_bytes, word_width, ByteOrder};
use core::marker::PhantomData;
use std::rc::Rc;
use vstd::prelude::*;

verus! {

/// The place of a value that belongs to one thread.
///
/// It cannot be sent to another thread, nor shared with one.
#[verifier::reject_recursive_types(T)]
pub struct ThreadLocal<T> {
    addr: usize,
    thread: PhantomData<Rc<T>>,
}

impl<T> View for ThreadLocal<T> {
    type V = usize;

    /// The address of the value.
    closed spec fn view(&self) -> usize {
        self.addr
    }
}

impl<T> Clone for ThreadLocal<T> {
    /// A copy for the same thread.
    fn clone(&self) -> (r: ThreadLocal<T>)
        ensures
            r@ == self@,
    {
        ThreadLocal { addr: self.addr, thread: PhantomData }
    }
}

impl<T> Copy for ThreadLocal<T> {

}

impl<T> ThreadLocal<T> {
    /// The place at `addr`.
    pub(crate) fn at(addr: usize) -> (r: ThreadLocal<T>)
        ensures
            r@ == addr,
    {
        ThreadLocal { addr, thread: PhantomData }
    }

    /// The address of the value.
    pub fn address(&self) -> (r: usize)
        ensures
            r == self@,
    {
        self.addr
    }
}

/// Access to the total number of bytes that the calling thread has ever
/// allocated, by a handle resolved once from `thread.allocatedp`.
#[derive(Clone, Copy)]
pub struct Allocated {
    mib: [usize; 2],
}

impl View for Allocated {
    type V = Seq<usize>;

    /// The words of the handle.
    closed spec fn view(&self) -> Seq<usize> {
        self.mib@
    }
}

impl Allocated {
    /// The request that resolves `thread.allocatedp` into the handle of a
    /// `Allocated`.
    pub fn lookup() -> (l: Lookup)
        ensures
            l.name@ == Key::ThreadAllocatedp.path_spec(),
            l.depth == 2,
    {
        name_to_mib(Key::ThreadAllocatedp.path()).unwrap()
    }

    /// Makes a `Allocated` from the allocator's answer to `lookup()`. It fails
    /// with the allocator's error number where the allocator does not know the
    /// key.
    pub fn new(resolved: &Resolved) -> (r: Result<Allocated, Error>)
        requires
            resolved.fits(2),
        ensures
            match r {
                Ok(a) => mib_of(resolved) == Ok::<Seq<usize>, Error>(a@),
                Err(e) => mib_of(resolved) == Err::<Seq<usize>, Error>(e),
            },
    {
        match mib2(resolved) {
            Ok(mib) => Ok(Allocated { mib }),
            Err(e) => Err(e),
        }
    }

    /// The request that reads the slot, which holds the address of the calling
    /// thread's counter.
    pub fn get_call(&self) -> (c: Call)
        ensures
            c@ == read_call(TargetView::Mib(self@), word_width()),
    {
        get_mib(self.mib.as_slice(), word_bytes())
    }

    /// Reads the place of the counter from the allocator's answer to
    /// `get_call()`. The answer belongs to the thread that asked, and so does
    /// the result.
    pub fn get(&self, reply: &Reply, order: ByteOrder) -> (r: Result<ThreadLocal<u64>, Error>)
        requires
            reply.fits(word_width()),
        ensures
            match r {
                Ok(local) => usize_of(reply, order) == Ok::<usize, Error>(local@),
                Err(e) => usize_of(reply, order) == Err::<usize, Error>(e),
            },
    {
        match read_usize(reply, order) {
            Ok(addr) => Ok(ThreadLocal::at(addr)),
            Err(e) => Err(e),
        }
    }
}

/// Access to the total number of bytes that the calling thread has ever
/// deallocated, by a handle resolved once from `thread.deallocatedp`.
#[derive(Clone, Copy)]
pub struct Deallocated {
    mib: [usize; 2],
}

impl View for Deallocated {
    type V = Seq<usize>;

    /// The words of the handle.
    closed spec fn view(&self) -> Seq<usize> {
        self.mib@
    }
}

impl Deallocated {
    /// The request that resolves `thread.deallocatedp` into the handle of a
    /// `Deallocated`.
    pub fn lookup() -> (l: Lookup)
        ensures
            l.name@ == Key::ThreadDeallocatedp.path_spec(),
            l.depth == 2,
    {
        name_to_mib(Key::ThreadDeallocatedp.path()).unwrap()
    }

    /// Makes a `Deallocated` from the allocator's answer to `lookup()`. It
    /// fails with the allocator's error number where the allocator does not
    /// know the key.
    pub fn new(resolved: &Resolved) -> (r: Result<Deallocated, Error>)
        requires
            resolved.fits(2),
        ensures
            match r {
                Ok(a) => mib_of(resolved) == Ok::<Seq<usize>, Error>(a@),
                Err(e) => mib_of(resolved) == Err::<Seq<usize>, Error>(e),
            },
    {
        match mib2(resolved) {
            Ok(mib) => Ok(Deallocated { mib }),
            Err(e) => Err(e),
        }
    }

    /// The request that reads the slot, which holds the address of the calling
    /// thread's counter.
    pub fn get_call(&self) -> (c: Call)
        ensures
            c@ == read_call(TargetView::Mib(self@), word_width()),
    {
        get_mib(self.mib.as_slice(), word_bytes())
    }

    /// Reads the place of the counter from the allocator's answer to
    /// `get_call()`. The answer belongs to the thread that asked, and so does
    /// the result.
    pub fn get(&self, reply: &Reply, order: ByteOrder) -> (r: Result<ThreadLocal<u64>, Error>)
        requires
            reply.fits(word_width()),
        ensures
            match r {
                Ok(local) => usize_of(reply, order) == Ok::<usize, Error>(local@),
                Err(e) => usize_of(reply, order) == Err::<usize, Error>(e),
            },
    {
        match read_usize(reply, order) {
            Ok(addr) => Ok(ThreadLocal::at(addr)),
            Err(e) => Err(e),
        }
    }
}

} // verus!
