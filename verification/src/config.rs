//! The configuration that the allocator was built with.

use crate::error::Error;
use crate::key::Key;
use crate::raw::{
    get_str, get_str_mib, mib2, mib_of, name_to_mib, read_call, read_text, read_usize, text_of,
    usize_of, Call, Lookup, Reply, Resolved, TargetView,
};
use crate::value::{word_width, ByteOrder};
use vstd::prelude::*;

verus! {

/// The request that reads `config.malloc_conf` by its key path. The slot holds
/// the address of the text.
pub fn malloc_conf_call() -> (c: Call)
    ensures
        c@ == read_call(TargetView::Name(Key::MallocConf.path_spec()), word_width()),
{
    get_str(Key::MallocConf.path()).unwrap()
}

/// Reads the address of the text from the allocator's answer to
/// `malloc_conf_call()`.
pub fn malloc_conf_address(reply: &Reply, order: ByteOrder) -> (r: Result<usize, Error>)
    requires
        reply.fits(word_width()),
    ensures
        r == usize_of(reply, order),
{
    read_usize(reply, order)
}

/// Reads the run-time options that were set when the allocator was built, which
/// is empty where none were from the bytes that lie at its address, up to the
/// terminator and without it. It fails where they are not valid text.
pub fn malloc_conf(text: Vec<u8>) -> (r: Result<String, Error>)
    ensures
        match r {
            Ok(s) => text_of(text@) == Ok::<Seq<char>, Error>(s@),
            Err(e) => text_of(text@) == Err::<Seq<char>, Error>(e),
        },
{
    read_text(text)
}

/// Access to the run-time options that were set when the allocator was built,
/// which is empty where none were, by a handle resolved once from
/// `config.malloc_conf`.
#[derive(Clone, Copy)]
pub struct MallocConf {
    mib: [usize; 2],
}

impl View for MallocConf {
    type V = Seq<usize>;

    /// The words of the handle.
    closed spec fn view(&self) -> Seq<usize> {
        self.mib@
    }
}

impl MallocConf {
    /// The request that resolves `config.malloc_conf` into the handle of a
    /// `MallocConf`.
    pub fn lookup() -> (l: Lookup)
        ensures
            l.name@ == Key::MallocConf.path_spec(),
            l.depth == 2,
    {
        name_to_mib(Key::MallocConf.path()).unwrap()
    }

    /// Makes a `MallocConf` from the allocator's answer to `lookup()`. It fails
    /// with the allocator's error number where the allocator does not know the
    /// key.
    pub fn new(resolved: &Resolved) -> (r: Result<MallocConf, Error>)
        requires
            resolved.fits(2),
        ensures
            match r {
                Ok(a) => mib_of(resolved) == Ok::<Seq<usize>, Error>(a@),
                Err(e) => mib_of(resolved) == Err::<Seq<usize>, Error>(e),
            },
    {
        match mib2(resolved) {
            Ok(mib) => Ok(MallocConf { mib }),
            Err(e) => Err(e),
        }
    }

    /// The request that reads the slot, which holds the address of the text.
    pub fn get_call(&self) -> (c: Call)
        ensures
            c@ == read_call(TargetView::Mib(self@), word_width()),
    {
        get_str_mib(self.mib.as_slice())
    }

    /// Reads the address of the text from the allocator's answer to
    /// `get_call()`.
    pub fn address(&self, reply: &Reply, order: ByteOrder) -> (r: Result<usize, Error>)
        requires
            reply.fits(word_width()),
        ensures
            r == usize_of(reply, order),
    {
        read_usize(reply, order)
    }

    /// Reads the run-time options that were set when the allocator was built,
    /// which is empty where none were from the bytes that lie at its address,
    /// up to the terminator and without it. It fails where they are not valid
    /// text.
    pub fn get(&self, text: Vec<u8>) -> (r: Result<String, Error>)
        ensures
            match r {
                Ok(s) => text_of(text@) == Ok::<Seq<char>, Error>(s@),
                Err(e) => text_of(text@) == Err::<Seq<char>, Error>(e),
            },
    {
        read_text(text)
    }
}

} // verus!
