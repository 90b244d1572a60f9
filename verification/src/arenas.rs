//! Arena operations.

use crate::error::Error;
use crate::key::Key;
use crate::raw::{
    get, get_mib, mib2, mib_of, name_to_mib, read_call, read_u32, u32_of, Call, Lookup, Reply,
    Resolved, TargetView,
};
use crate::value::{ByteOrder, U32_WIDTH};
use vstd::prelude::*;

verus! {

/// The request that reads `arenas.narenas` by its key path.
pub fn narenas_call() -> (c: Call)
    ensures
        c@ == read_call(TargetView::Name(Key::ArenasNArenas.path_spec()), 4),
{
    get(Key::ArenasNArenas.path(), U32_WIDTH).unwrap()
}

/// Reads the current limit on the number of arenas from the allocator's answer
/// to `narenas_call()`.
pub fn narenas(reply: &Reply, order: ByteOrder) -> (r: Result<u32, Error>)
    requires
        reply.fits(4),
    ensures
        r == u32_of(reply, order),
{
    read_u32(reply, order)
}

/// Access to the current limit on the number of arenas, by a handle resolved
/// once from `arenas.narenas`.
#[derive(Clone, Copy)]
pub struct NArenas {
    mib: [usize; 2],
}

impl View for NArenas {
    type V = Seq<usize>;

    /// The words of the handle.
    closed spec fn view(&self) -> Seq<usize> {
        self.mib@
    }
}

impl NArenas {
    /// The request that resolves `arenas.narenas` into the handle of a
    /// `NArenas`.
    pub fn lookup() -> (l: Lookup)
        ensures
            l.name@ == Key::ArenasNArenas.path_spec(),
            l.depth == 2,
    {
        name_to_mib(Key::ArenasNArenas.path()).unwrap()
    }

    /// Makes a `NArenas` from the allocator's answer to `lookup()`. It fails
    /// with the allocator's error number where the allocator does not know the
    /// key.
    pub fn new(resolved: &Resolved) -> (r: Result<NArenas, Error>)
        requires
            resolved.fits(2),
        ensures
            match r {
                Ok(a) => mib_of(resolved) == Ok::<Seq<usize>, Error>(a@),
                Err(e) => mib_of(resolved) == Err::<Seq<usize>, Error>(e),
            },
    {
        match mib2(resolved) {
            Ok(mib) => Ok(NArenas { mib }),
            Err(e) => Err(e),
        }
    }

    /// The request that reads the slot.
    pub fn get_call(&self) -> (c: Call)
        ensures
            c@ == read_call(TargetView::Mib(self@), 4),
    {
        get_mib(self.mib.as_slice(), U32_WIDTH)
    }

    /// Reads the current limit on the number of arenas from the allocator's
    /// answer to `get_call()`.
    pub fn get(&self, reply: &Reply, order: ByteOrder) -> (r: Result<u32, Error>)
        requires
            reply.fits(4),
        ensures
            r == u32_of(reply, order),
    {
        read_u32(reply, order)
    }
}

} // verus!
