//! A typed layer over the control interface of a memory allocator.
//!
//! The allocator answers requests that name a slot of its registry, either
//! by a dotted key path or by a handle resolved from one. Resolving a key
//! path costs the allocator some work, so a slot that is read often is best
//! read by handle.
//!
//! This library decides what each request holds and what each answer
//! means; it makes no foreign call itself. For each operation it has a
//! function that builds the request, whose name ends in `_call` (`lookup`
//! for a resolution), and one that reads the answer. The caller hands the
//! request to the allocator and the answer back. Each slot has a type that
//! keeps its handle, and, where it is read seldom, functions that go by the
//! key path.
//!
//! An answer that reports success and holds another number of bytes or
//! words than was asked for shows that caller and allocator disagree on
//! the slot. The functions that read answers do not take such an answer:
//! `Reply::has_width` and `Resolved::has_depth` tell beforehand.

pub mod arenas;
pub mod config;
pub mod error;
pub mod key;
pub mod opt;
pub mod raw;
pub mod stats;
pub mod thread;
pub mod value;

use crate::error::Error;
use crate::key::Key;
use crate::raw::{
    bool_in, exchange_call, get, get_mib, get_set, get_set_mib, get_str, get_str_mib, mib1, mib_of,
    name_to_mib, read_bool, read_call, read_text, read_u64, read_usize, set_mib, text_of,
    u64_of, usize_of, write_call, written, written_of, Call, Lookup, Reply, Resolved, TargetView,
};
use crate::value::{
    bool_bytes, bytes_of, encode_bool, encode_u64, encode_usize, lemma_bool_of_bytes,
    lemma_bytes_of_len, lemma_radix_values, lemma_value_of_bytes, radix, word_bytes, word_width,
    ByteOrder, BOOL_WIDTH,
};
use vstd::prelude::*;

verus! {

/// The request that reads `version` by its key path. The slot holds the address
/// of the text.
pub fn version_call() -> (c: Call)
    ensures
        c@ == read_call(TargetView::Name(Key::Version.path_spec()), word_width()),
{
    get_str(Key::Version.path()).unwrap()
}

/// Reads the address of the text from the allocator's answer to
/// `version_call()`.
pub fn version_address(reply: &Reply, order: ByteOrder) -> (r: Result<usize, Error>)
    requires
        reply.fits(word_width()),
    ensures
        r == usize_of(reply, order),
{
    read_usize(reply, order)
}

/// Reads the version string of the allocator from the bytes that lie at its
/// address, up to the terminator and without it. It fails where they are not
/// valid text.
pub fn version(text: Vec<u8>) -> (r: Result<String, Error>)
    ensures
        match r {
            Ok(s) => text_of(text@) == Ok::<Seq<char>, Error>(s@),
            Err(e) => text_of(text@) == Err::<Seq<char>, Error>(e),
        },
{
    read_text(text)
}

/// Access to the version string of the allocator, by a handle resolved once
/// from `version`.
#[derive(Clone, Copy)]
pub struct Version {
    mib: [usize; 1],
}

impl View for Version {
    type V = Seq<usize>;

    /// The words of the handle.
    closed spec fn view(&self) -> Seq<usize> {
        self.mib@
    }
}

impl Version {
    /// The request that resolves `version` into the handle of a `Version`.
    pub fn lookup() -> (l: Lookup)
        ensures
            l.name@ == Key::Version.path_spec(),
            l.depth == 1,
    {
        name_to_mib(Key::Version.path()).unwrap()
    }

    /// Makes a `Version` from the allocator's answer to `lookup()`. It fails
    /// with the allocator's error number where the allocator does not know the
    /// key.
    pub fn new(resolved: &Resolved) -> (r: Result<Version, Error>)
        requires
            resolved.fits(1),
        ensures
            match r {
                Ok(a) => mib_of(resolved) == Ok::<Seq<usize>, Error>(a@),
                Err(e) => mib_of(resolved) == Err::<Seq<usize>, Error>(e),
            },
    {
        match mib1(resolved) {
            Ok(mib) => Ok(Version { mib }),
            Err(e) => Err(e),
        }
    }

    /// The request that reads the slot, which holds the address of the text.
    pub fn get_call(&self) -> (c: Call)
        ensures
            c@ == read_call(TargetView::Mib(self@), word_width()),
    {
        get_str_mib(self.mib.as_slice())
    }

    /// Reads the address of the text from the allocator's answer to
    /// `get_call()`.
    pub fn address(&self, reply: &Reply, order: ByteOrder) -> (r: Result<usize, Error>)
        requires
            reply.fits(word_width()),
        ensures
            r == usize_of(reply, order),
    {
        read_usize(reply, order)
    }

    /// Reads the version string of the allocator from the bytes that lie at its
    /// address, up to the terminator and without it. It fails where they are
    /// not valid text.
    pub fn get(&self, text: Vec<u8>) -> (r: Result<String, Error>)
        ensures
            match r {
                Ok(s) => text_of(text@) == Ok::<Seq<char>, Error>(s@),
                Err(e) => text_of(text@) == Err::<Seq<char>, Error>(e),
            },
    {
        read_text(text)
    }
}

/// What an advance of the epoch writes. It asks for a refresh; its value is
/// no amount to advance by.
pub const REFRESH: u64 = 1;

/// The request that advances the epoch by its key path: an exchange that writes
/// the constant 1, which asks for a refresh, and reads the counter.
pub fn epoch_call(order: ByteOrder) -> (c: Call)
    ensures
        c@ == exchange_call(TargetView::Name(Key::Epoch.path_spec()), bytes_of(order, 1, 8)),
        c@.read == Some(8nat),
{
    get_set(Key::Epoch.path(), encode_u64(REFRESH, order)).unwrap()
}

/// Reads the counter from the allocator's answer to `epoch_call(..)`.
pub fn epoch(reply: &Reply, order: ByteOrder) -> (r: Result<u64, Error>)
    requires
        reply.fits(8),
    ensures
        r == u64_of(reply, order),
{
    read_u64(reply, order)
}

/// Access to the epoch, the counter whose advance makes the allocator refresh
/// the statistics it caches, by a handle resolved once from `epoch`.
#[derive(Clone, Copy)]
pub struct Epoch {
    mib: [usize; 1],
}

impl View for Epoch {
    type V = Seq<usize>;

    /// The words of the handle.
    closed spec fn view(&self) -> Seq<usize> {
        self.mib@
    }
}

impl Epoch {
    /// The request that resolves `epoch` into the handle of a `Epoch`.
    pub fn lookup() -> (l: Lookup)
        ensures
            l.name@ == Key::Epoch.path_spec(),
            l.depth == 1,
    {
        name_to_mib(Key::Epoch.path()).unwrap()
    }

    /// Makes a `Epoch` from the allocator's answer to `lookup()`. It fails with
    /// the allocator's error number where the allocator does not know the key.
    pub fn new(resolved: &Resolved) -> (r: Result<Epoch, Error>)
        requires
            resolved.fits(1),
        ensures
            match r {
                Ok(a) => mib_of(resolved) == Ok::<Seq<usize>, Error>(a@),
                Err(e) => mib_of(resolved) == Err::<Seq<usize>, Error>(e),
            },
    {
        match mib1(resolved) {
            Ok(mib) => Ok(Epoch { mib }),
            Err(e) => Err(e),
        }
    }

    /// The request that advances the epoch: an exchange that writes the
    /// constant 1, which asks for a refresh, and reads the counter.
    pub fn advance_call(&self, order: ByteOrder) -> (c: Call)
        ensures
            c@ == exchange_call(TargetView::Mib(self@), bytes_of(order, 1, 8)),
            c@.read == Some(8nat),
    {
        get_set_mib(self.mib.as_slice(), encode_u64(REFRESH, order))
    }

    /// Reads the counter from the allocator's answer to `advance_call(..)`.
    pub fn advance(&self, reply: &Reply, order: ByteOrder) -> (r: Result<u64, Error>)
        requires
            reply.fits(8),
        ensures
            r == u64_of(reply, order),
    {
        read_u64(reply, order)
    }
}

/// The request that reads `background_thread` by its key path.
pub fn background_thread_call() -> (c: Call)
    ensures
        c@ == read_call(TargetView::Name(Key::BackgroundThread.path_spec()), 1),
{
    get(Key::BackgroundThread.path(), BOOL_WIDTH).unwrap()
}

/// Reads whether background worker threads are enabled from the allocator's
/// answer to `background_thread_call()`.
pub fn background_thread(reply: &Reply) -> (r: Result<bool, Error>)
    requires
        reply.fits(1),
    ensures
        r == bool_in(reply),
{
    read_bool(reply)
}

/// The request that writes `value` to `background_thread` by its key path.
pub fn set_background_thread_call(value: bool) -> (c: Call)
    ensures
        c@ == write_call(TargetView::Name(Key::BackgroundThread.path_spec()), bool_bytes(value)),
{
    crate::raw::set(Key::BackgroundThread.path(), encode_bool(value)).unwrap()
}

/// Reads the allocator's answer to `set_background_thread_call(..)`: the write
/// succeeded, or the allocator's error number is handed on.
pub fn set_background_thread(reply: &Reply) -> (r: Result<(), Error>)
    ensures
        r == written_of(reply),
{
    written(reply)
}

/// Access to whether background worker threads are enabled, by a handle
/// resolved once from `background_thread`. A write makes the allocator start or
/// retire its worker threads.
#[derive(Clone, Copy)]
pub struct BackgroundThread {
    mib: [usize; 1],
}

impl View for BackgroundThread {
    type V = Seq<usize>;

    /// The words of the handle.
    closed spec fn view(&self) -> Seq<usize> {
        self.mib@
    }
}

impl BackgroundThread {
    /// The request that resolves `background_thread` into the handle of a
    /// `BackgroundThread`.
    pub fn lookup() -> (l: Lookup)
        ensures
            l.name@ == Key::BackgroundThread.path_spec(),
            l.depth == 1,
    {
        name_to_mib(Key::BackgroundThread.path()).unwrap()
    }

    /// Makes a `BackgroundThread` from the allocator's answer to `lookup()`. It
    /// fails with the allocator's error number where the allocator does not
    /// know the key.
    pub fn new(resolved: &Resolved) -> (r: Result<BackgroundThread, Error>)
        requires
            resolved.fits(1),
        ensures
            match r {
                Ok(a) => mib_of(resolved) == Ok::<Seq<usize>, Error>(a@),
                Err(e) => mib_of(resolved) == Err::<Seq<usize>, Error>(e),
            },
    {
        match mib1(resolved) {
            Ok(mib) => Ok(BackgroundThread { mib }),
            Err(e) => Err(e),
        }
    }

    /// The request that reads the slot.
    pub fn get_call(&self) -> (c: Call)
        ensures
            c@ == read_call(TargetView::Mib(self@), 1),
    {
        get_mib(self.mib.as_slice(), BOOL_WIDTH)
    }

    /// Reads whether background worker threads are enabled from the allocator's
    /// answer to `get_call()`.
    pub fn get(&self, reply: &Reply) -> (r: Result<bool, Error>)
        requires
            reply.fits(1),
        ensures
            r == bool_in(reply),
    {
        read_bool(reply)
    }

    /// The request that writes `value` to the slot.
    pub fn set_call(&self, value: bool) -> (c: Call)
        ensures
            c@ == write_call(TargetView::Mib(self@), bool_bytes(value)),
    {
        set_mib(self.mib.as_slice(), encode_bool(value))
    }

    /// Reads the allocator's answer to `set_call(..)`: the write succeeded, or
    /// the allocator's error number is handed on.
    pub fn set(&self, reply: &Reply) -> (r: Result<(), Error>)
        ensures
            r == written_of(reply),
    {
        written(reply)
    }
}

/// The request that reads `max_background_threads` by its key path.
pub fn max_background_threads_call() -> (c: Call)
    ensures
        c@ == read_call(TargetView::Name(Key::MaxBackgroundThreads.path_spec()), word_width()),
{
    get(Key::MaxBackgroundThreads.path(), word_bytes()).unwrap()
}

/// Reads the limit on the number of background worker threads from the
/// allocator's answer to `max_background_threads_call()`.
pub fn max_background_threads(reply: &Reply, order: ByteOrder) -> (r: Result<usize, Error>)
    requires
        reply.fits(word_width()),
    ensures
        r == usize_of(reply, order),
{
    read_usize(reply, order)
}

/// The request that writes `value` to `max_background_threads` by its key path.
pub fn set_max_background_threads_call(value: usize, order: ByteOrder) -> (c: Call)
    ensures
        c@ == write_call(TargetView::Name(Key::MaxBackgroundThreads.path_spec()), bytes_of(order, value as nat, word_width())),
{
    crate::raw::set(Key::MaxBackgroundThreads.path(), encode_usize(value, order)).unwrap()
}

/// Reads the allocator's answer to `set_max_background_threads_call(..)`: the
/// write succeeded, or the allocator's error number is handed on.
pub fn set_max_background_threads(reply: &Reply) -> (r: Result<(), Error>)
    ensures
        r == written_of(reply),
{
    written(reply)
}

/// Access to the limit on the number of background worker threads, by a handle
/// resolved once from `max_background_threads`.
#[derive(Clone, Copy)]
pub struct MaxBackgroundThreads {
    mib: [usize; 1],
}

impl View for MaxBackgroundThreads {
    type V = Seq<usize>;

    /// The words of the handle.
    closed spec fn view(&self) -> Seq<usize> {
        self.mib@
    }
}

impl MaxBackgroundThreads {
    /// The request that resolves `max_background_threads` into the handle of a
    /// `MaxBackgroundThreads`.
    pub fn lookup() -> (l: Lookup)
        ensures
            l.name@ == Key::MaxBackgroundThreads.path_spec(),
            l.depth == 1,
    {
        name_to_mib(Key::MaxBackgroundThreads.path()).unwrap()
    }

    /// Makes a `MaxBackgroundThreads` from the allocator's answer to
    /// `lookup()`. It fails with the allocator's error number where the
    /// allocator does not know the key.
    pub fn new(resolved: &Resolved) -> (r: Result<MaxBackgroundThreads, Error>)
        requires
            resolved.fits(1),
        ensures
            match r {
                Ok(a) => mib_of(resolved) == Ok::<Seq<usize>, Error>(a@),
                Err(e) => mib_of(resolved) == Err::<Seq<usize>, Error>(e),
            },
    {
        match mib1(resolved) {
            Ok(mib) => Ok(MaxBackgroundThreads { mib }),
            Err(e) => Err(e),
        }
    }

    /// The request that reads the slot.
    pub fn get_call(&self) -> (c: Call)
        ensures
            c@ == read_call(TargetView::Mib(self@), word_width()),
    {
        get_mib(self.mib.as_slice(), word_bytes())
    }

    /// Reads the limit on the number of background worker threads from the
    /// allocator's answer to `get_call()`.
    pub fn get(&self, reply: &Reply, order: ByteOrder) -> (r: Result<usize, Error>)
        requires
            reply.fits(word_width()),
        ensures
            r == usize_of(reply, order),
    {
        read_usize(reply, order)
    }

    /// The request that writes `value` to the slot.
    pub fn set_call(&self, value: usize, order: ByteOrder) -> (c: Call)
        ensures
            c@ == write_call(TargetView::Mib(self@), bytes_of(order, value as nat, word_width())),
    {
        set_mib(self.mib.as_slice(), encode_usize(value, order))
    }

    /// Reads the allocator's answer to `set_call(..)`: the write succeeded, or
    /// the allocator's error number is handed on.
    pub fn set(&self, reply: &Reply) -> (r: Result<(), Error>)
        ensures
            r == written_of(reply),
    {
        written(reply)
    }
}

/// The answer of a slot that holds the bytes `data`.
pub open spec fn holds(reply: &Reply, data: Seq<u8>) -> bool {
    reply.status == 0 && reply.data@ == data
}

/// An advance returns the counter that the allocator reports, whatever it
/// is: where the allocator answers two advances with counters that differ
/// by one, so do the values returned.
pub proof fn lemma_advance_reports_counter(
    first: Reply,
    second: Reply,
    counter: u64,
    order: ByteOrder,
)
    requires
        counter < u64::MAX,
        holds(&first, bytes_of(order, counter as nat, 8)),
        holds(&second, bytes_of(order, (counter + 1) as nat, 8)),
    ensures
        first.fits(8),
        second.fits(8),
        u64_of(&first, order) == Ok::<u64, Error>(counter),
        u64_of(&second, order) == Ok::<u64, Error>((counter + 1) as u64),
{
    lemma_radix_values();
    lemma_bytes_of_len(order, counter as nat, 8);
    lemma_bytes_of_len(order, (counter + 1) as nat, 8);
    lemma_value_of_bytes(order, counter as nat, 8);
    lemma_value_of_bytes(order, (counter + 1) as nat, 8);
}

/// What is written to `background_thread` is what a read gives, as long as
/// the slot keeps the byte written: the answer to `get_call()` that holds
/// the byte of `set_call(value)` reads as `value`.
pub proof fn lemma_background_thread_round_trip(
    slot: BackgroundThread,
    value: bool,
    reply: Reply,
)
    requires
        write_call(TargetView::Mib(slot@), bool_bytes(value)).write matches Some(written)
            && holds(&reply, written),
    ensures
        reply.fits(1),
        bool_in(&reply) == Ok::<bool, Error>(value),
{
    lemma_bool_of_bytes(value);
}

/// What is written to `max_background_threads` is what a read gives, as
/// long as the slot keeps the bytes written: the answer to `get_call()`
/// that holds the bytes of `set_call(value, order)` reads as `value` in the
/// same byte order.
pub proof fn lemma_max_background_threads_round_trip(
    slot: MaxBackgroundThreads,
    value: usize,
    order: ByteOrder,
    reply: Reply,
)
    requires
        write_call(
            TargetView::Mib(slot@),
            bytes_of(order, value as nat, word_width()),
        ).write matches Some(written) && holds(&reply, written),
    ensures
        reply.fits(word_width()),
        usize_of(&reply, order) == Ok::<usize, Error>(value),
{
    lemma_radix_values();
    lemma_bytes_of_len(order, value as nat, word_width());
    assert(value as nat <= usize::MAX);
    assert((value as nat) < radix(word_width()));
    lemma_value_of_bytes(order, value as nat, word_width());
}

} // verus!
