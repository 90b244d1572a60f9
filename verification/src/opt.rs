//! The run-time configuration of the allocator.
//!
//! The allocator keeps a boolean option in one byte; an option is read as
//! true where that byte is not zero.

use crate::error::Error;
use crate::key::Key;
use crate::raw::{
    bool_in, get, get_mib, get_str, get_str_mib, mib2, mib_of, name_to_mib, read_bool, read_call,
    read_text, read_u32, read_usize, text_of, u32_of, usize_of, Call, Lookup, Reply, Resolved,
    TargetView,
};
use crate::value::{word_bytes, word_width, ByteOrder, BOOL_WIDTH, U32_WIDTH};
use vstd::prelude::*;

verus! {

/// The request that reads `opt.abort` by its key path.
pub fn abort_call() -> (c: Call)
    ensures
        c@ == read_call(TargetView::Name(Key::OptAbort.path_spec()), 1),
{
    get(Key::OptAbort.path(), BOOL_WIDTH).unwrap()
}

/// Reads whether the allocator aborts on most warnings from the allocator's
/// answer to `abort_call()`.
pub fn abort(reply: &Reply) -> (r: Result<bool, Error>)
    requires
        reply.fits(1),
    ensures
        r == bool_in(reply),
{
    read_bool(reply)
}

/// Access to whether the allocator aborts on most warnings, by a handle
/// resolved once from `opt.abort`.
pub struct Abort {
    mib: [usize; 2],
}

impl View for Abort {
    type V = Seq<usize>;

    /// The words of the handle.
    closed spec fn view(&self) -> Seq<usize> {
        self.mib@
    }
}

impl Abort {
    /// The request that resolves `opt.abort` into the handle of a `Abort`.
    pub fn lookup() -> (l: Lookup)
        ensures
            l.name@ == Key::OptAbort.path_spec(),
            l.depth == 2,
    {
        name_to_mib(Key::OptAbort.path()).unwrap()
    }

    /// Makes a `Abort` from the allocator's answer to `lookup()`. It fails with
    /// the allocator's error number where the allocator does not know the key.
    pub fn new(resolved: &Resolved) -> (r: Result<Abort, Error>)
        requires
            resolved.fits(2),
        ensures
            match r {
                Ok(a) => mib_of(resolved) == Ok::<Seq<usize>, Error>(a@),
                Err(e) => mib_of(resolved) == Err::<Seq<usize>, Error>(e),
            },
    {
        match mib2(resolved) {
            Ok(mib) => Ok(Abort { mib }),
            Err(e) => Err(e),
        }
    }

    /// The request that reads the slot.
    pub fn get_call(&self) -> (c: Call)
        ensures
            c@ == read_call(TargetView::Mib(self@), 1),
    {
        get_mib(self.mib.as_slice(), BOOL_WIDTH)
    }

    /// Reads whether the allocator aborts on most warnings from the allocator's
    /// answer to `get_call()`.
    pub fn get(&self, reply: &Reply) -> (r: Result<bool, Error>)
        requires
            reply.fits(1),
        ensures
            r == bool_in(reply),
    {
        read_bool(reply)
    }
}

/// The request that reads `opt.dss` by its key path. The slot holds the address
/// of the text.
pub fn dss_call() -> (c: Call)
    ensures
        c@ == read_call(TargetView::Name(Key::OptDss.path_spec()), word_width()),
{
    get_str(Key::OptDss.path()).unwrap()
}

/// Reads the address of the text from the allocator's answer to `dss_call()`.
pub fn dss_address(reply: &Reply, order: ByteOrder) -> (r: Result<usize, Error>)
    requires
        reply.fits(word_width()),
    ensures
        r == usize_of(reply, order),
{
    read_usize(reply, order)
}

/// Reads the precedence of `sbrk` allocation as related to `mmap` allocation
/// from the bytes that lie at its address, up to the terminator and without it.
/// It fails where they are not valid text.
pub fn dss(text: Vec<u8>) -> (r: Result<String, Error>)
    ensures
        match r {
            Ok(s) => text_of(text@) == Ok::<Seq<char>, Error>(s@),
            Err(e) => text_of(text@) == Err::<Seq<char>, Error>(e),
        },
{
    read_text(text)
}

/// Access to the precedence of `sbrk` allocation as related to `mmap`
/// allocation, by a handle resolved once from `opt.dss`.
#[derive(Clone, Copy)]
pub struct Dss {
    mib: [usize; 2],
}

impl View for Dss {
    type V = Seq<usize>;

    /// The words of the handle.
    closed spec fn view(&self) -> Seq<usize> {
        self.mib@
    }
}

impl Dss {
    /// The request that resolves `opt.dss` into the handle of a `Dss`.
    pub fn lookup() -> (l: Lookup)
        ensures
            l.name@ == Key::OptDss.path_spec(),
            l.depth == 2,
    {
        name_to_mib(Key::OptDss.path()).unwrap()
    }

    /// Makes a `Dss` from the allocator's answer to `lookup()`. It fails with
    /// the allocator's error number where the allocator does not know the key.
    pub fn new(resolved: &Resolved) -> (r: Result<Dss, Error>)
        requires
            resolved.fits(2),
        ensures
            match r {
                Ok(a) => mib_of(resolved) == Ok::<Seq<usize>, Error>(a@),
                Err(e) => mib_of(resolved) == Err::<Seq<usize>, Error>(e),
            },
    {
        match mib2(resolved) {
            Ok(mib) => Ok(Dss { mib }),
            Err(e) => Err(e),
        }
    }

    /// The request that reads the slot, which holds the address of the text.
    pub fn get_call(&self) -> (c: Call)
        ensures
            c@ == read_call(TargetView::Mib(self@), word_width()),
    {
        get_str_mib(self.mib.as_slice())
    }

    /// Reads the address of the text from the allocator's answer to
    /// `get_call()`.
    pub fn address(&self, reply: &Reply, order: ByteOrder) -> (r: Result<usize, Error>)
        requires
            reply.fits(word_width()),
        ensures
            r == usize_of(reply, order),
    {
        read_usize(reply, order)
    }

    /// Reads the precedence of `sbrk` allocation as related to `mmap`
    /// allocation from the bytes that lie at its address, up to the terminator
    /// and without it. It fails where they are not valid text.
    pub fn get(&self, text: Vec<u8>) -> (r: Result<String, Error>)
        ensures
            match r {
                Ok(s) => text_of(text@) == Ok::<Seq<char>, Error>(s@),
                Err(e) => text_of(text@) == Err::<Seq<char>, Error>(e),
            },
    {
        read_text(text)
    }
}

/// The request that reads `opt.narenas` by its key path.
pub fn narenas_call() -> (c: Call)
    ensures
        c@ == read_call(TargetView::Name(Key::OptNArenas.path_spec()), 4),
{
    get(Key::OptNArenas.path(), U32_WIDTH).unwrap()
}

/// Reads the number of arenas used for automatic multiplexing of threads and
/// arenas from the allocator's answer to `narenas_call()`.
pub fn narenas(reply: &Reply, order: ByteOrder) -> (r: Result<u32, Error>)
    requires
        reply.fits(4),
    ensures
        r == u32_of(reply, order),
{
    read_u32(reply, order)
}

/// Access to the number of arenas used for automatic multiplexing of threads
/// and arenas, by a handle resolved once from `opt.narenas`.
#[derive(Clone, Copy)]
pub struct NArenas {
    mib: [usize; 2],
}

impl View for NArenas {
    type V = Seq<usize>;

    /// The words of the handle.
    closed spec fn view(&self) -> Seq<usize> {
        self.mib@
    }
}

impl NArenas {
    /// The request that resolves `opt.narenas` into the handle of a `NArenas`.
    pub fn lookup() -> (l: Lookup)
        ensures
            l.name@ == Key::OptNArenas.path_spec(),
            l.depth == 2,
    {
        name_to_mib(Key::OptNArenas.path()).unwrap()
    }

    /// Makes a `NArenas` from the allocator's answer to `lookup()`. It fails
    /// with the allocator's error number where the allocator does not know the
    /// key.
    pub fn new(resolved: &Resolved) -> (r: Result<NArenas, Error>)
        requires
            resolved.fits(2),
        ensures
            match r {
                Ok(a) => mib_of(resolved) == Ok::<Seq<usize>, Error>(a@),
                Err(e) => mib_of(resolved) == Err::<Seq<usize>, Error>(e),
            },
    {
        match mib2(resolved) {
            Ok(mib) => Ok(NArenas { mib }),
            Err(e) => Err(e),
        }
    }

    /// The request that reads the slot.
    pub fn get_call(&self) -> (c: Call)
        ensures
            c@ == read_call(TargetView::Mib(self@), 4),
    {
        get_mib(self.mib.as_slice(), U32_WIDTH)
    }

    /// Reads the number of arenas used for automatic multiplexing of threads
    /// and arenas from the allocator's answer to `get_call()`.
    pub fn get(&self, reply: &Reply, order: ByteOrder) -> (r: Result<u32, Error>)
        requires
            reply.fits(4),
        ensures
            r == u32_of(reply, order),
    {
        read_u32(reply, order)
    }
}

/// The request that reads `opt.junk` by its key path. The slot holds the
/// address of the text.
pub fn junk_call() -> (c: Call)
    ensures
        c@ == read_call(TargetView::Name(Key::OptJunk.path_spec()), word_width()),
{
    get_str(Key::OptJunk.path()).unwrap()
}

/// Reads the address of the text from the allocator's answer to `junk_call()`.
pub fn junk_address(reply: &Reply, order: ByteOrder) -> (r: Result<usize, Error>)
    requires
        reply.fits(word_width()),
    ensures
        r == usize_of(reply, order),
{
    read_usize(reply, order)
}

/// Reads the junk filling mode from the bytes that lie at its address, up to
/// the terminator and without it. It fails where they are not valid text.
pub fn junk(text: Vec<u8>) -> (r: Result<String, Error>)
    ensures
        match r {
            Ok(s) => text_of(text@) == Ok::<Seq<char>, Error>(s@),
            Err(e) => text_of(text@) == Err::<Seq<char>, Error>(e),
        },
{
    read_text(text)
}

/// Access to the junk filling mode, by a handle resolved once from `opt.junk`.
#[derive(Clone, Copy)]
pub struct Junk {
    mib: [usize; 2],
}

impl View for Junk {
    type V = Seq<usize>;

    /// The words of the handle.
    closed spec fn view(&self) -> Seq<usize> {
        self.mib@
    }
}

impl Junk {
    /// The request that resolves `opt.junk` into the handle of a `Junk`.
    pub fn lookup() -> (l: Lookup)
        ensures
            l.name@ == Key::OptJunk.path_spec(),
            l.depth == 2,
    {
        name_to_mib(Key::OptJunk.path()).unwrap()
    }

    /// Makes a `Junk` from the allocator's answer to `lookup()`. It fails with
    /// the allocator's error number where the allocator does not know the key.
    pub fn new(resolved: &Resolved) -> (r: Result<Junk, Error>)
        requires
            resolved.fits(2),
        ensures
            match r {
                Ok(a) => mib_of(resolved) == Ok::<Seq<usize>, Error>(a@),
                Err(e) => mib_of(resolved) == Err::<Seq<usize>, Error>(e),
            },
    {
        match mib2(resolved) {
            Ok(mib) => Ok(Junk { mib }),
            Err(e) => Err(e),
        }
    }

    /// The request that reads the slot, which holds the address of the text.
    pub fn get_call(&self) -> (c: Call)
        ensures
            c@ == read_call(TargetView::Mib(self@), word_width()),
    {
        get_str_mib(self.mib.as_slice())
    }

    /// Reads the address of the text from the allocator's answer to
    /// `get_call()`.
    pub fn address(&self, reply: &Reply, order: ByteOrder) -> (r: Result<usize, Error>)
        requires
            reply.fits(word_width()),
        ensures
            r == usize_of(reply, order),
    {
        read_usize(reply, order)
    }

    /// Reads the junk filling mode from the bytes that lie at its address, up
    /// to the terminator and without it. It fails where they are not valid
    /// text.
    pub fn get(&self, text: Vec<u8>) -> (r: Result<String, Error>)
        ensures
            match r {
                Ok(s) => text_of(text@) == Ok::<Seq<char>, Error>(s@),
                Err(e) => text_of(text@) == Err::<Seq<char>, Error>(e),
            },
    {
        read_text(text)
    }
}

/// The request that reads `opt.zero` by its key path.
pub fn zero_call() -> (c: Call)
    ensures
        c@ == read_call(TargetView::Name(Key::OptZero.path_spec()), 1),
{
    get(Key::OptZero.path(), BOOL_WIDTH).unwrap()
}

/// Reads whether the allocator zeroes the memory it hands out from the
/// allocator's answer to `zero_call()`.
pub fn zero(reply: &Reply) -> (r: Result<bool, Error>)
    requires
        reply.fits(1),
    ensures
        r == bool_in(reply),
{
    read_bool(reply)
}

/// Access to whether the allocator zeroes the memory it hands out, by a handle
/// resolved once from `opt.zero`.
pub struct Zero {
    mib: [usize; 2],
}

impl View for Zero {
    type V = Seq<usize>;

    /// The words of the handle.
    closed spec fn view(&self) -> Seq<usize> {
        self.mib@
    }
}

impl Zero {
    /// The request that resolves `opt.zero` into the handle of a `Zero`.
    pub fn lookup() -> (l: Lookup)
        ensures
            l.name@ == Key::OptZero.path_spec(),
            l.depth == 2,
    {
        name_to_mib(Key::OptZero.path()).unwrap()
    }

    /// Makes a `Zero` from the allocator's answer to `lookup()`. It fails with
    /// the allocator's error number where the allocator does not know the key.
    pub fn new(resolved: &Resolved) -> (r: Result<Zero, Error>)
        requires
            resolved.fits(2),
        ensures
            match r {
                Ok(a) => mib_of(resolved) == Ok::<Seq<usize>, Error>(a@),
                Err(e) => mib_of(resolved) == Err::<Seq<usize>, Error>(e),
            },
    {
        match mib2(resolved) {
            Ok(mib) => Ok(Zero { mib }),
            Err(e) => Err(e),
        }
    }

    /// The request that reads the slot.
    pub fn get_call(&self) -> (c: Call)
        ensures
            c@ == read_call(TargetView::Mib(self@), 1),
    {
        get_mib(self.mib.as_slice(), BOOL_WIDTH)
    }

    /// Reads whether the allocator zeroes the memory it hands out from the
    /// allocator's answer to `get_call()`.
    pub fn get(&self, reply: &Reply) -> (r: Result<bool, Error>)
        requires
            reply.fits(1),
        ensures
            r == bool_in(reply),
    {
        read_bool(reply)
    }
}

/// The request that reads `opt.tcache` by its key path.
pub fn tcache_call() -> (c: Call)
    ensures
        c@ == read_call(TargetView::Name(Key::OptTcache.path_spec()), 1),
{
    get(Key::OptTcache.path(), BOOL_WIDTH).unwrap()
}

/// Reads whether thread-local allocation caching is enabled from the
/// allocator's answer to `tcache_call()`.
pub fn tcache(reply: &Reply) -> (r: Result<bool, Error>)
    requires
        reply.fits(1),
    ensures
        r == bool_in(reply),
{
    read_bool(reply)
}

/// Access to whether thread-local allocation caching is enabled, by a handle
/// resolved once from `opt.tcache`.
pub struct Tcache {
    mib: [usize; 2],
}

impl View for Tcache {
    type V = Seq<usize>;

    /// The words of the handle.
    closed spec fn view(&self) -> Seq<usize> {
        self.mib@
    }
}

impl Tcache {
    /// The request that resolves `opt.tcache` into the handle of a `Tcache`.
    pub fn lookup() -> (l: Lookup)
        ensures
            l.name@ == Key::OptTcache.path_spec(),
            l.depth == 2,
    {
        name_to_mib(Key::OptTcache.path()).unwrap()
    }

    /// Makes a `Tcache` from the allocator's answer to `lookup()`. It fails
    /// with the allocator's error number where the allocator does not know the
    /// key.
    pub fn new(resolved: &Resolved) -> (r: Result<Tcache, Error>)
        requires
            resolved.fits(2),
        ensures
            match r {
                Ok(a) => mib_of(resolved) == Ok::<Seq<usize>, Error>(a@),
                Err(e) => mib_of(resolved) == Err::<Seq<usize>, Error>(e),
            },
    {
        match mib2(resolved) {
            Ok(mib) => Ok(Tcache { mib }),
            Err(e) => Err(e),
        }
    }

    /// The request that reads the slot.
    pub fn get_call(&self) -> (c: Call)
        ensures
            c@ == read_call(TargetView::Mib(self@), 1),
    {
        get_mib(self.mib.as_slice(), BOOL_WIDTH)
    }

    /// Reads whether thread-local allocation caching is enabled from the
    /// allocator's answer to `get_call()`.
    pub fn get(&self, reply: &Reply) -> (r: Result<bool, Error>)
        requires
            reply.fits(1),
        ensures
            r == bool_in(reply),
    {
        read_bool(reply)
    }
}

/// The request that reads `opt.lg_tcache_max` by its key path.
pub fn lg_tcache_max_call() -> (c: Call)
    ensures
        c@ == read_call(TargetView::Name(Key::OptLgTcacheMax.path_spec()), word_width()),
{
    get(Key::OptLgTcacheMax.path(), word_bytes()).unwrap()
}

/// Reads the largest size class, as a logarithm to base 2, that the thread
/// cache keeps from the allocator's answer to `lg_tcache_max_call()`.
pub fn lg_tcache_max(reply: &Reply, order: ByteOrder) -> (r: Result<usize, Error>)
    requires
        reply.fits(word_width()),
    ensures
        r == usize_of(reply, order),
{
    read_usize(reply, order)
}

/// Access to the largest size class, as a logarithm to base 2, that the thread
/// cache keeps, by a handle resolved once from `opt.lg_tcache_max`.
#[derive(Clone, Copy)]
pub struct LgTcacheMax {
    mib: [usize; 2],
}

impl View for LgTcacheMax {
    type V = Seq<usize>;

    /// The words of the handle.
    closed spec fn view(&self) -> Seq<usize> {
        self.mib@
    }
}

impl LgTcacheMax {
    /// The request that resolves `opt.lg_tcache_max` into the handle of a
    /// `LgTcacheMax`.
    pub fn lookup() -> (l: Lookup)
        ensures
            l.name@ == Key::OptLgTcacheMax.path_spec(),
            l.depth == 2,
    {
        name_to_mib(Key::OptLgTcacheMax.path()).unwrap()
    }

    /// Makes a `LgTcacheMax` from the allocator's answer to `lookup()`. It
    /// fails with the allocator's error number where the allocator does not
    /// know the key.
    pub fn new(resolved: &Resolved) -> (r: Result<LgTcacheMax, Error>)
        requires
            resolved.fits(2),
        ensures
            match r {
                Ok(a) => mib_of(resolved) == Ok::<Seq<usize>, Error>(a@),
                Err(e) => mib_of(resolved) == Err::<Seq<usize>, Error>(e),
            },
    {
        match mib2(resolved) {
            Ok(mib) => Ok(LgTcacheMax { mib }),
            Err(e) => Err(e),
        }
    }

    /// The request that reads the slot.
    pub fn get_call(&self) -> (c: Call)
        ensures
            c@ == read_call(TargetView::Mib(self@), word_width()),
    {
        get_mib(self.mib.as_slice(), word_bytes())
    }

    /// Reads the largest size class, as a logarithm to base 2, that the thread
    /// cache keeps from the allocator's answer to `get_call()`.
    pub fn get(&self, reply: &Reply, order: ByteOrder) -> (r: Result<usize, Error>)
        requires
            reply.fits(word_width()),
        ensures
            r == usize_of(reply, order),
    {
        read_usize(reply, order)
    }
}

} // verus!
