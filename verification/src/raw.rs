//! The requests of the control interface, and the reading of its answers.
//!
//! The allocator has three entry points: one resolves a key path into a
//! handle, one reads and writes a slot by handle, one does so by key path.
//! Each of them takes raw buffers and lengths and answers with a status.
//! A `Lookup` or a `Call` says what to pass to an entry point; a `Resolved`
//! or a `Reply` holds what came back. The functions here build the former
//! and read the latter, and do the bookkeeping of sizes and the reading
//! of statuses that the entry points leave to their caller.

use crate::error::{cvt, Error, ENOENT};
use crate::key::{check_key_path, component_count, components, is_key_path};
use crate::value::{
    bool_of, decode_bool, decode_u32, decode_u64, decode_usize, value_of, word_bytes, word_width,
    ByteOrder,
};
use vstd::prelude::*;
use vstd::slice::slice_to_vec;
use vstd::utf8::{decode_utf8, valid_utf8};

verus! {

/// A request to resolve a key path into a handle.
#[derive(Clone, Debug, PartialEq, Eq)]
pub struct Lookup {
    /// The key path, terminator included.
    pub name: Vec<u8>,
    /// The number of words to make room for: one for each component.
    pub depth: usize,
}

/// The allocator's answer to a `Lookup`.
#[derive(Clone, Debug, PartialEq, Eq)]
pub struct Resolved {
    /// The status that the allocator returned.
    pub status: i32,
    /// The words that the allocator filled in, as many as it reported.
    pub mib: Vec<usize>,
}

/// The slot that a `Call` addresses.
#[derive(Clone, Debug, PartialEq, Eq)]
pub enum Target {
    /// By key path, terminator included. The allocator resolves it anew.
    Name(Vec<u8>),
    /// By a handle that was resolved before.
    Mib(Vec<usize>),
}

/// A request to read a slot, to write it, or both in one step.
#[derive(Clone, Debug, PartialEq, Eq)]
pub struct Call {
    /// The slot.
    pub target: Target,
    /// The length of the buffer to read the slot's value into, or `None`
    /// where nothing is read.
    pub read: Option<usize>,
    /// The bytes to write to the slot, or `None` where nothing is written.
    pub write: Option<Vec<u8>>,
}

/// The allocator's answer to a `Call`.
#[derive(Clone, Debug, PartialEq, Eq)]
pub struct Reply {
    /// The status that the allocator returned.
    pub status: i32,
    /// The bytes that the allocator put into the read buffer, as many as
    /// it reported. Empty where nothing was read.
    pub data: Vec<u8>,
}

/// A `Target` as a mathematical value.
pub enum TargetView {
    Name(Seq<u8>),
    Mib(Seq<usize>),
}

/// A `Call` as a mathematical value.
pub struct CallView {
    pub target: TargetView,
    pub read: Option<nat>,
    pub write: Option<Seq<u8>>,
}

impl View for Target {
    type V = TargetView;

    open spec fn view(&self) -> TargetView {
        match self {
            Target::Name(name) => TargetView::Name(name@),
            Target::Mib(mib) => TargetView::Mib(mib@),
        }
    }
}

impl View for Call {
    type V = CallView;

    open spec fn view(&self) -> CallView {
        CallView {
            target: self.target@,
            read: match self.read {
                Some(len) => Some(len as nat),
                None => None,
            },
            write: match self.write {
                Some(bytes) => Some(bytes@),
                None => None,
            },
        }
    }
}

/// The call that reads `width` bytes and writes nothing.
pub open spec fn read_call(target: TargetView, width: nat) -> CallView {
    CallView { target, read: Some(width), write: None }
}

/// The call that writes `value` and reads nothing.
pub open spec fn write_call(target: TargetView, value: Seq<u8>) -> CallView {
    CallView { target, read: None, write: Some(value) }
}

/// The call that reads the slot and writes `value` to it in one step. The
/// read buffer is as long as the value.
pub open spec fn exchange_call(target: TargetView, value: Seq<u8>) -> CallView {
    CallView { target, read: Some(value.len()), write: Some(value) }
}

impl Resolved {
    /// The answer is a failure, or it filled in `depth` words. An answer
    /// that reports success with another number of words shows that the
    /// allocator and its caller disagree on the key's shape: no handle is
    /// made from it.
    pub open spec fn fits(&self, depth: nat) -> bool {
        self.status == 0 ==> self.mib@.len() == depth
    }

    /// Tells whether the answer is a failure or filled in `depth` words.
    pub fn has_depth(&self, depth: usize) -> (r: bool)
        ensures
            r == self.fits(depth as nat),
    {
        self.status != 0 || self.mib.len() == depth
    }
}

impl Reply {
    /// The answer is a failure, or it holds `width` bytes. An answer that
    /// reports success with another length shows that the allocator and its
    /// caller disagree on the slot's type: no value is read from it.
    pub open spec fn fits(&self, width: nat) -> bool {
        self.status == 0 ==> self.data@.len() == width
    }

    /// Tells whether the answer is a failure or holds `width` bytes.
    pub fn has_width(&self, width: usize) -> (r: bool)
        ensures
            r == self.fits(width as nat),
    {
        self.status != 0 || self.data.len() == width
    }
}

/// The handle that an answer to a lookup holds, or why there is none.
pub open spec fn mib_of(resolved: &Resolved) -> Result<Seq<usize>, Error> {
    if resolved.status == 0 {
        Ok(resolved.mib@)
    } else {
        Err(Error::Resolution(resolved.status))
    }
}

/// What an answer to a write means.
pub open spec fn written_of(reply: &Reply) -> Result<(), Error> {
    if reply.status == 0 {
        Ok(())
    } else {
        Err(Error::Access(reply.status))
    }
}

/// The 64-bit value that an answer holds, or why there is none.
pub open spec fn u64_of(reply: &Reply, order: ByteOrder) -> Result<u64, Error> {
    if reply.status == 0 {
        Ok(value_of(order, reply.data@) as u64)
    } else {
        Err(Error::Access(reply.status))
    }
}

/// The 32-bit value that an answer holds, or why there is none.
pub open spec fn u32_of(reply: &Reply, order: ByteOrder) -> Result<u32, Error> {
    if reply.status == 0 {
        Ok(value_of(order, reply.data@) as u32)
    } else {
        Err(Error::Access(reply.status))
    }
}

/// The size or address that an answer holds, or why there is none.
pub open spec fn usize_of(reply: &Reply, order: ByteOrder) -> Result<usize, Error> {
    if reply.status == 0 {
        Ok(value_of(order, reply.data@) as usize)
    } else {
        Err(Error::Access(reply.status))
    }
}

/// The boolean that an answer holds, or why there is none.
pub open spec fn bool_in(reply: &Reply) -> Result<bool, Error> {
    if reply.status == 0 {
        Ok(bool_of(reply.data@))
    } else {
        Err(Error::Access(reply.status))
    }
}

/// The text that the bytes of a string slot hold, or why there is none.
pub open spec fn text_of(bytes: Seq<u8>) -> Result<Seq<char>, Error> {
    if valid_utf8(bytes) {
        Ok(decode_utf8(bytes))
    } else {
        Err(Error::Encoding)
    }
}

/// Builds the request that resolves `name` into a handle. The handle gets
/// one word for each component of the name. A name that is no key path is
/// refused here, and nothing is asked of the allocator.
pub fn name_to_mib(name: &[u8]) -> (r: Result<Lookup, Error>)
    ensures
        is_key_path(name@) ==> (r matches Ok(l) && l.name@ == name@ && l.depth == components(
            name@,
        )),
        !is_key_path(name@) ==> r == Err::<Lookup, Error>(Error::Resolution(ENOENT)),
{
    if !check_key_path(name) {
        return Err(Error::Resolution(ENOENT));
    }
    Ok(Lookup { name: slice_to_vec(name), depth: component_count(name) })
}

impl Lookup {
    /// Reads the handle from the allocator's answer to this lookup. There
    /// is a handle exactly where the allocator reported success, and then it
    /// is the words of the answer, all of them.
    pub fn handle(&self, resolved: &Resolved) -> (r: Result<Vec<usize>, Error>)
        requires
            resolved.fits(self.depth as nat),
        ensures
            match r {
                Ok(mib) => mib_of(resolved) == Ok::<Seq<usize>, Error>(mib@) && mib@.len()
                    == self.depth,
                Err(e) => mib_of(resolved) == Err::<Seq<usize>, Error>(e),
            },
    {
        match cvt(resolved.status) {
            Ok(()) => Ok(slice_to_vec(resolved.mib.as_slice())),
            Err(code) => Err(Error::Resolution(code)),
        }
    }
}

/// Reads a handle of one word from the answer to a lookup.
pub fn mib1(resolved: &Resolved) -> (r: Result<[usize; 1], Error>)
    requires
        resolved.fits(1),
    ensures
        match r {
            Ok(mib) => mib_of(resolved) == Ok::<Seq<usize>, Error>(mib@),
            Err(e) => mib_of(resolved) == Err::<Seq<usize>, Error>(e),
        },
{
    match cvt(resolved.status) {
        Ok(()) => {
            let mib: [usize; 1] = [resolved.mib[0]];
            assert(mib@ =~= resolved.mib@);
            Ok(mib)
        },
        Err(code) => Err(Error::Resolution(code)),
    }
}

/// Reads a handle of two words from the answer to a lookup.
pub fn mib2(resolved: &Resolved) -> (r: Result<[usize; 2], Error>)
    requires
        resolved.fits(2),
    ensures
        match r {
            Ok(mib) => mib_of(resolved) == Ok::<Seq<usize>, Error>(mib@),
            Err(e) => mib_of(resolved) == Err::<Seq<usize>, Error>(e),
        },
{
    match cvt(resolved.status) {
        Ok(()) => {
            let mib: [usize; 2] = [resolved.mib[0], resolved.mib[1]];
            assert(mib@ =~= resolved.mib@);
            Ok(mib)
        },
        Err(code) => Err(Error::Resolution(code)),
    }
}

/// Builds the read of `width` bytes from the slot of a handle.
pub fn get_mib(mib: &[usize], width: usize) -> (c: Call)
    ensures
        c@ == read_call(TargetView::Mib(mib@), width as nat),
{
    Call { target: Target::Mib(slice_to_vec(mib)), read: Some(width), write: None }
}

/// Builds the read of `width` bytes from the slot of a key path. A name
/// that is no key path is refused.
pub fn get(name: &[u8], width: usize) -> (r: Result<Call, Error>)
    ensures
        is_key_path(name@) ==> (r matches Ok(c) && c@ == read_call(
            TargetView::Name(name@),
            width as nat,
        )),
        !is_key_path(name@) ==> (r matches Err(e) && e == Error::Resolution(ENOENT)),
{
    if !check_key_path(name) {
        return Err(Error::Resolution(ENOENT));
    }
    Ok(Call { target: Target::Name(slice_to_vec(name)), read: Some(width), write: None })
}

/// Builds the read of the address of a string from the slot of a handle.
pub fn get_str_mib(mib: &[usize]) -> (c: Call)
    ensures
        c@ == read_call(TargetView::Mib(mib@), word_width()),
{
    get_mib(mib, word_bytes())
}

/// Builds the read of the address of a string from the slot of a key path.
/// A name that is no key path is refused.
pub fn get_str(name: &[u8]) -> (r: Result<Call, Error>)
    ensures
        is_key_path(name@) ==> (r matches Ok(c) && c@ == read_call(
            TargetView::Name(name@),
            word_width(),
        )),
        !is_key_path(name@) ==> (r matches Err(e) && e == Error::Resolution(ENOENT)),
{
    get(name, word_bytes())
}

/// Builds the write of `value` to the slot of a handle.
pub fn set_mib(mib: &[usize], value: Vec<u8>) -> (c: Call)
    ensures
        c@ == write_call(TargetView::Mib(mib@), value@),
{
    Call { target: Target::Mib(slice_to_vec(mib)), read: None, write: Some(value) }
}

/// Builds the write of `value` to the slot of a key path. A name that is
/// no key path is refused.
pub fn set(name: &[u8], value: Vec<u8>) -> (r: Result<Call, Error>)
    ensures
        is_key_path(name@) ==> (r matches Ok(c) && c@ == write_call(
            TargetView::Name(name@),
            value@,
        )),
        !is_key_path(name@) ==> (r matches Err(e) && e == Error::Resolution(ENOENT)),
{
    if !check_key_path(name) {
        return Err(Error::Resolution(ENOENT));
    }
    Ok(Call { target: Target::Name(slice_to_vec(name)), read: None, write: Some(value) })
}

/// Builds the exchange on the slot of a handle: the slot is read into a
/// buffer as long as `value`, and `value` is written, in one step.
pub fn get_set_mib(mib: &[usize], value: Vec<u8>) -> (c: Call)
    ensures
        c@ == exchange_call(TargetView::Mib(mib@), value@),
{
    let width: usize = value.len();
    Call { target: Target::Mib(slice_to_vec(mib)), read: Some(width), write: Some(value) }
}

/// Builds the exchange on the slot of a key path. A name that is no key
/// path is refused.
pub fn get_set(name: &[u8], value: Vec<u8>) -> (r: Result<Call, Error>)
    ensures
        is_key_path(name@) ==> (r matches Ok(c) && c@ == exchange_call(
            TargetView::Name(name@),
            value@,
        )),
        !is_key_path(name@) ==> (r matches Err(e) && e == Error::Resolution(ENOENT)),
{
    if !check_key_path(name) {
        return Err(Error::Resolution(ENOENT));
    }
    let width: usize = value.len();
    Ok(Call { target: Target::Name(slice_to_vec(name)), read: Some(width), write: Some(value) })
}

/// Reads the answer to a write: it succeeded, or the allocator's error
/// number is handed on.
pub fn written(reply: &Reply) -> (r: Result<(), Error>)
    ensures
        r == written_of(reply),
{
    match cvt(reply.status) {
        Ok(()) => Ok(()),
        Err(code) => Err(Error::Access(code)),
    }
}

/// Reads a 64-bit value from the answer to a read or an exchange.
pub fn read_u64(reply: &Reply, order: ByteOrder) -> (r: Result<u64, Error>)
    requires
        reply.fits(8),
    ensures
        r == u64_of(reply, order),
{
    match cvt(reply.status) {
        Ok(()) => Ok(decode_u64(reply.data.as_slice(), order)),
        Err(code) => Err(Error::Access(code)),
    }
}

/// Reads a 32-bit value from the answer to a read or an exchange.
pub fn read_u32(reply: &Reply, order: ByteOrder) -> (r: Result<u32, Error>)
    requires
        reply.fits(4),
    ensures
        r == u32_of(reply, order),
{
    match cvt(reply.status) {
        Ok(()) => Ok(decode_u32(reply.data.as_slice(), order)),
        Err(code) => Err(Error::Access(code)),
    }
}

/// Reads a size or an address from the answer to a read or an exchange.
pub fn read_usize(reply: &Reply, order: ByteOrder) -> (r: Result<usize, Error>)
    requires
        reply.fits(word_width()),
    ensures
        r == usize_of(reply, order),
{
    match cvt(reply.status) {
        Ok(()) => Ok(decode_usize(reply.data.as_slice(), order)),
        Err(code) => Err(Error::Access(code)),
    }
}

/// Reads a boolean from the answer to a read or an exchange.
pub fn read_bool(reply: &Reply) -> (r: Result<bool, Error>)
    requires
        reply.fits(1),
    ensures
        r == bool_in(reply),
{
    match cvt(reply.status) {
        Ok(()) => Ok(decode_bool(reply.data.as_slice())),
        Err(code) => Err(Error::Access(code)),
    }
}

/// `String::from_utf8` of std: the text that the bytes encode in UTF-8, or
/// nothing where they are no valid UTF-8. Validity and the decoded
/// characters are those that vstd defines.
#[verifier::external_body]
fn utf8_string(bytes: Vec<u8>) -> (r: Option<String>)
    ensures
        r.is_some() == valid_utf8(bytes@),
        r.is_some() ==> r.unwrap()@ == decode_utf8(bytes@),
{
    match String::from_utf8(bytes) {
        Ok(text) => Some(text),
        Err(_) => None,
    }
}

/// Reads the text of a string slot from its bytes, which are those that lie
/// at the address the slot holds, up to the terminator and without it.
pub fn read_text(bytes: Vec<u8>) -> (r: Result<String, Error>)
    ensures
        match r {
            Ok(text) => text_of(bytes@) == Ok::<Seq<char>, Error>(text@),
            Err(e) => text_of(bytes@) == Err::<Seq<char>, Error>(e),
        },
{
    match utf8_string(bytes) {
        Some(text) => Ok(text),
        None => Err(Error::Encoding),
    }
}

/// Two answers that are alike give the same handle, and the same requests
/// are made through it: a handle depends on nothing but the answer it was
/// read from.
pub proof fn lemma_same_answer_same_handle(first: Resolved, second: Resolved, width: nat)
    requires
        first.status == second.status,
        first.mib@ == second.mib@,
    ensures
        mib_of(&first) == mib_of(&second),
        mib_of(&first) matches Ok(a) ==> (mib_of(&second) matches Ok(b) && a == b && read_call(
            TargetView::Mib(a),
            width,
        ) == read_call(TargetView::Mib(b), width)),
{
}

/// No handle is made from a failed resolution, and a handle that is made
/// holds every word that the lookup asked for.
pub proof fn lemma_no_partial_handle(lookup: Lookup, resolved: Resolved)
    requires
        resolved.fits(lookup.depth as nat),
    ensures
        resolved.status != 0 ==> mib_of(&resolved) == Err::<Seq<usize>, Error>(
            Error::Resolution(resolved.status),
        ),
        mib_of(&resolved) matches Ok(mib) ==> mib.len() == lookup.depth,
{
}

} // verus!
