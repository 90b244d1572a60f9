//! Key paths: the dotted names of the allocator's slots.
//!
//! A key path is a byte string that ends with a zero byte. Its components
//! are parted by dots, and a handle resolved from it has one word for each
//! component.

use vstd::prelude::*;
use vstd::string::StringSliceAdditionalSpecFns;

verus! {

/// The byte that ends a key path.
pub const NUL: u8 = 0;

/// The byte that parts the components of a key path.
pub const DOT: u8 = 46;

/// A key path as the allocator takes it: a name of at least one byte, then
/// the terminator, and no terminator before the end.
pub open spec fn is_key_path(s: Seq<u8>) -> bool {
    &&& s.len() >= 2
    &&& s[s.len() - 1] == NUL
    &&& forall|i: int| 0 <= i < s.len() - 1 ==> s[i] != NUL
}

/// How many dots `s` holds.
pub open spec fn dots(s: Seq<u8>) -> nat
    decreases s.len(),
{
    if s.len() == 0 {
        0
    } else {
        dots(s.drop_last()) + if s.last() == DOT {
            1nat
        } else {
            0nat
        }
    }
}

/// How many components a key path has: one more than it has dots.
pub open spec fn components(s: Seq<u8>) -> nat {
    dots(s) + 1
}

/// The bytes of a text of ASCII characters.
pub open spec fn ascii_bytes(text: Seq<char>) -> Seq<u8> {
    Seq::new(text.len(), |i: int| text[i] as u8)
}

/// There are no more dots than bytes.
pub proof fn lemma_dots_bound(s: Seq<u8>)
    ensures
        dots(s) <= s.len(),
    decreases s.len(),
{
    if s.len() > 0 {
        lemma_dots_bound(s.drop_last());
    }
}

/// A key path has no more components than bytes.
pub proof fn lemma_components_bound(s: Seq<u8>)
    requires
        is_key_path(s),
    ensures
        1 <= components(s) <= s.len(),
{
    lemma_dots_bound(s.drop_last());
}

/// Tells whether `name` is a key path.
pub fn check_key_path(name: &[u8]) -> (r: bool)
    ensures
        r == is_key_path(name@),
{
    let n: usize = name.len();
    if n < 2 || name[n - 1] != NUL {
        return false;
    }
    let mut i: usize = 0;
    while i < n - 1
        invariant
            n == name.len(),
            n >= 2,
            i <= n - 1,
            forall|k: int| 0 <= k < i ==> name@[k] != NUL,
        decreases n - i,
    {
        if name[i] == NUL {
            return false;
        }
        i += 1;
    }
    true
}

/// Counts the dots of `name`.
pub fn count_dots(name: &[u8]) -> (r: usize)
    ensures
        r == dots(name@),
{
    let n: usize = name.len();
    let mut count: usize = 0;
    let mut i: usize = 0;
    while i < n
        invariant
            n == name.len(),
            i <= n,
            count <= i,
            count == dots(name@.subrange(0, i as int)),
        decreases n - i,
    {
        proof {
            assert(name@.subrange(0, i + 1).drop_last() =~= name@.subrange(0, i as int));
        }
        if name[i] == DOT {
            count += 1;
        }
        i += 1;
    }
    proof {
        assert(name@.subrange(0, n as int) =~= name@);
    }
    count
}

/// Counts the components of a key path.
pub fn component_count(name: &[u8]) -> (r: usize)
    requires
        is_key_path(name@),
    ensures
        r == components(name@),
{
    let n: usize = name.len();
    proof {
        lemma_components_bound(name@);
    }
    count_dots(name) + 1
}

/// The bytes of a text that holds ASCII characters only.
fn ascii(text: &'static str) -> (r: &'static [u8])
    requires
        vstd::string::is_ascii(text),
    ensures
        r@ == ascii_bytes(text@),
{
    proof {
        broadcast use vstd::string::is_ascii_spec_bytes;

        assert(text.spec_bytes() =~= ascii_bytes(text@));
    }
    text.as_bytes()
}

/// The slots of the allocator that this library knows.
#[derive(Clone, Copy, Debug, PartialEq, Eq, Structural)]
pub enum Key {
    /// `epoch`: the generation counter that gates the refresh of cached statistics.
    Epoch,
    /// `version`: the version string of the allocator.
    Version,
    /// `background_thread`: whether background worker threads are enabled.
    BackgroundThread,
    /// `max_background_threads`: the limit on the number of background worker threads.
    MaxBackgroundThreads,
    /// `config.malloc_conf`: the options that were set when the allocator was built.
    MallocConf,
    /// `stats.allocated`: bytes allocated by the application.
    StatsAllocated,
    /// `stats.active`: bytes in active pages allocated by the application.
    StatsActive,
    /// `stats.metadata`: bytes dedicated to the allocator's metadata.
    StatsMetadata,
    /// `stats.resident`: bytes in physically resident data pages mapped by the allocator.
    StatsResident,
    /// `stats.mapped`: bytes in active extents mapped by the allocator.
    StatsMapped,
    /// `arenas.narenas`: the current limit on the number of arenas.
    ArenasNArenas,
    /// `opt.narenas`: the number of arenas used for automatic multiplexing of threads.
    OptNArenas,
    /// `opt.dss`: the precedence of `sbrk` allocation as related to `mmap`.
    OptDss,
    /// `opt.junk`: the junk filling mode.
    OptJunk,
    /// `opt.zero`: whether allocated memory is zeroed.
    OptZero,
    /// `opt.tcache`: whether thread-local allocation caching is enabled.
    OptTcache,
    /// `opt.lg_tcache_max`: the largest size class (log base 2) kept in the thread cache.
    OptLgTcacheMax,
    /// `opt.abort`: whether the allocator aborts on most warnings.
    OptAbort,
    /// `thread.allocatedp`: the address of the calling thread's counter of bytes allocated.
    ThreadAllocatedp,
    /// `thread.deallocatedp`: the address of the calling thread's counter of bytes deallocated.
    ThreadDeallocatedp,
}

impl Key {
    /// The key path of the slot, terminator included.
    pub open spec fn path_spec(self) -> Seq<u8> {
        match self {
            Key::Epoch => ascii_bytes("epoch\0"@),
            Key::Version => ascii_bytes("version\0"@),
            Key::BackgroundThread => ascii_bytes("background_thread\0"@),
            Key::MaxBackgroundThreads => ascii_bytes("max_background_threads\0"@),
            Key::MallocConf => ascii_bytes("config.malloc_conf\0"@),
            Key::StatsAllocated => ascii_bytes("stats.allocated\0"@),
            Key::StatsActive => ascii_bytes("stats.active\0"@),
            Key::StatsMetadata => ascii_bytes("stats.metadata\0"@),
            Key::StatsResident => ascii_bytes("stats.resident\0"@),
            Key::StatsMapped => ascii_bytes("stats.mapped\0"@),
            Key::ArenasNArenas => ascii_bytes("arenas.narenas\0"@),
            Key::OptNArenas => ascii_bytes("opt.narenas\0"@),
            Key::OptDss => ascii_bytes("opt.dss\0"@),
            Key::OptJunk => ascii_bytes("opt.junk\0"@),
            Key::OptZero => ascii_bytes("opt.zero\0"@),
            Key::OptTcache => ascii_bytes("opt.tcache\0"@),
            Key::OptLgTcacheMax => ascii_bytes("opt.lg_tcache_max\0"@),
            Key::OptAbort => ascii_bytes("opt.abort\0"@),
            Key::ThreadAllocatedp => ascii_bytes("thread.allocatedp\0"@),
            Key::ThreadDeallocatedp => ascii_bytes("thread.deallocatedp\0"@),
        }
    }

    /// The number of components of the key path, which is the number of
    /// words of a handle resolved from it.
    pub open spec fn depth_spec(self) -> nat {
        match self {
            Key::Epoch | Key::Version | Key::BackgroundThread | Key::MaxBackgroundThreads => 1,
            _ => 2,
        }
    }

    /// The key path of the slot, terminator included.
    pub fn path(self) -> (r: &'static [u8])
        ensures
            r@ == self.path_spec(),
            is_key_path(r@),
            components(r@) == self.depth_spec(),
    {
        proof {
            lemma_key_path(self);
        }
        match self {
            Key::Epoch => {
                proof {
                    reveal_strlit("epoch\0");
                }
                ascii("epoch\0")
            },
            Key::Version => {
                proof {
                    reveal_strlit("version\0");
                }
                ascii("version\0")
            },
            Key::BackgroundThread => {
                proof {
                    reveal_strlit("background_thread\0");
                }
                ascii("background_thread\0")
            },
            Key::MaxBackgroundThreads => {
                proof {
                    reveal_strlit("max_background_threads\0");
                }
                ascii("max_background_threads\0")
            },
            Key::MallocConf => {
                proof {
                    reveal_strlit("config.malloc_conf\0");
                }
                ascii("config.malloc_conf\0")
            },
            Key::StatsAllocated => {
                proof {
                    reveal_strlit("stats.allocated\0");
                }
                ascii("stats.allocated\0")
            },
            Key::StatsActive => {
                proof {
                    reveal_strlit("stats.active\0");
                }
                ascii("stats.active\0")
            },
            Key::StatsMetadata => {
                proof {
                    reveal_strlit("stats.metadata\0");
                }
                ascii("stats.metadata\0")
            },
            Key::StatsResident => {
                proof {
                    reveal_strlit("stats.resident\0");
                }
                ascii("stats.resident\0")
            },
            Key::StatsMapped => {
                proof {
                    reveal_strlit("stats.mapped\0");
                }
                ascii("stats.mapped\0")
            },
            Key::ArenasNArenas => {
                proof {
                    reveal_strlit("arenas.narenas\0");
                }
                ascii("arenas.narenas\0")
            },
            Key::OptNArenas => {
                proof {
                    reveal_strlit("opt.narenas\0");
                }
                ascii("opt.narenas\0")
            },
            Key::OptDss => {
                proof {
                    reveal_strlit("opt.dss\0");
                }
                ascii("opt.dss\0")
            },
            Key::OptJunk => {
                proof {
                    reveal_strlit("opt.junk\0");
                }
                ascii("opt.junk\0")
            },
            Key::OptZero => {
                proof {
                    reveal_strlit("opt.zero\0");
                }
                ascii("opt.zero\0")
            },
            Key::OptTcache => {
                proof {
                    reveal_strlit("opt.tcache\0");
                }
                ascii("opt.tcache\0")
            },
            Key::OptLgTcacheMax => {
                proof {
                    reveal_strlit("opt.lg_tcache_max\0");
                }
                ascii("opt.lg_tcache_max\0")
            },
            Key::OptAbort => {
                proof {
                    reveal_strlit("opt.abort\0");
                }
                ascii("opt.abort\0")
            },
            Key::ThreadAllocatedp => {
                proof {
                    reveal_strlit("thread.allocatedp\0");
                }
                ascii("thread.allocatedp\0")
            },
            Key::ThreadDeallocatedp => {
                proof {
                    reveal_strlit("thread.deallocatedp\0");
                }
                ascii("thread.deallocatedp\0")
            },
        }
    }

    /// The number of components of the key path.
    pub fn depth(self) -> (r: usize)
        ensures
            r == self.depth_spec(),
    {
        match self {
            Key::Epoch | Key::Version | Key::BackgroundThread | Key::MaxBackgroundThreads => 1,
            _ => 2,
        }
    }
}

/// `epoch` is a key path of 1 component.
proof fn lemma_epoch()
    ensures
        is_key_path(ascii_bytes("epoch\0"@)),
        components(ascii_bytes("epoch\0"@)) == 1,
{
    reveal_strlit("epoch\0");
    reveal_with_fuel(dots, 7);
}

/// `version` is a key path of 1 component.
proof fn lemma_version()
    ensures
        is_key_path(ascii_bytes("version\0"@)),
        components(ascii_bytes("version\0"@)) == 1,
{
    reveal_strlit("version\0");
    reveal_with_fuel(dots, 9);
}

/// `background_thread` is a key path of 1 component.
proof fn lemma_background_thread()
    ensures
        is_key_path(ascii_bytes("background_thread\0"@)),
        components(ascii_bytes("background_thread\0"@)) == 1,
{
    reveal_strlit("background_thread\0");
    reveal_with_fuel(dots, 19);
}

/// `max_background_threads` is a key path of 1 component.
proof fn lemma_max_background_threads()
    ensures
        is_key_path(ascii_bytes("max_background_threads\0"@)),
        components(ascii_bytes("max_background_threads\0"@)) == 1,
{
    reveal_strlit("max_background_threads\0");
    reveal_with_fuel(dots, 24);
}

/// `config.malloc_conf` is a key path of 2 components.
proof fn lemma_malloc_conf()
    ensures
        is_key_path(ascii_bytes("config.malloc_conf\0"@)),
        components(ascii_bytes("config.malloc_conf\0"@)) == 2,
{
    reveal_strlit("config.malloc_conf\0");
    reveal_with_fuel(dots, 20);
}

/// `stats.allocated` is a key path of 2 components.
proof fn lemma_stats_allocated()
    ensures
        is_key_path(ascii_bytes("stats.allocated\0"@)),
        components(ascii_bytes("stats.allocated\0"@)) == 2,
{
    reveal_strlit("stats.allocated\0");
    reveal_with_fuel(dots, 17);
}

/// `stats.active` is a key path of 2 components.
proof fn lemma_stats_active()
    ensures
        is_key_path(ascii_bytes("stats.active\0"@)),
        components(ascii_bytes("stats.active\0"@)) == 2,
{
    reveal_strlit("stats.active\0");
    reveal_with_fuel(dots, 14);
}

/// `stats.metadata` is a key path of 2 components.
proof fn lemma_stats_metadata()
    ensures
        is_key_path(ascii_bytes("stats.metadata\0"@)),
        components(ascii_bytes("stats.metadata\0"@)) == 2,
{
    reveal_strlit("stats.metadata\0");
    reveal_with_fuel(dots, 16);
}

/// `stats.resident` is a key path of 2 components.
proof fn lemma_stats_resident()
    ensures
        is_key_path(ascii_bytes("stats.resident\0"@)),
        components(ascii_bytes("stats.resident\0"@)) == 2,
{
    reveal_strlit("stats.resident\0");
    reveal_with_fuel(dots, 16);
}

/// `stats.mapped` is a key path of 2 components.
proof fn lemma_stats_mapped()
    ensures
        is_key_path(ascii_bytes("stats.mapped\0"@)),
        components(ascii_bytes("stats.mapped\0"@)) == 2,
{
    reveal_strlit("stats.mapped\0");
    reveal_with_fuel(dots, 14);
}

/// `arenas.narenas` is a key path of 2 components.
proof fn lemma_arenas_narenas()
    ensures
        is_key_path(ascii_bytes("arenas.narenas\0"@)),
        components(ascii_bytes("arenas.narenas\0"@)) == 2,
{
    reveal_strlit("arenas.narenas\0");
    reveal_with_fuel(dots, 16);
}

/// `opt.narenas` is a key path of 2 components.
proof fn lemma_opt_narenas()
    ensures
        is_key_path(ascii_bytes("opt.narenas\0"@)),
        components(ascii_bytes("opt.narenas\0"@)) == 2,
{
    reveal_strlit("opt.narenas\0");
    reveal_with_fuel(dots, 13);
}

/// `opt.dss` is a key path of 2 components.
proof fn lemma_opt_dss()
    ensures
        is_key_path(ascii_bytes("opt.dss\0"@)),
        components(ascii_bytes("opt.dss\0"@)) == 2,
{
    reveal_strlit("opt.dss\0");
    reveal_with_fuel(dots, 9);
}

/// `opt.junk` is a key path of 2 components.
proof fn lemma_opt_junk()
    ensures
        is_key_path(ascii_bytes("opt.junk\0"@)),
        components(ascii_bytes("opt.junk\0"@)) == 2,
{
    reveal_strlit("opt.junk\0");
    reveal_with_fuel(dots, 10);
}

/// `opt.zero` is a key path of 2 components.
proof fn lemma_opt_zero()
    ensures
        is_key_path(ascii_bytes("opt.zero\0"@)),
        components(ascii_bytes("opt.zero\0"@)) == 2,
{
    reveal_strlit("opt.zero\0");
    reveal_with_fuel(dots, 10);
}

/// `opt.tcache` is a key path of 2 components.
proof fn lemma_opt_tcache()
    ensures
        is_key_path(ascii_bytes("opt.tcache\0"@)),
        components(ascii_bytes("opt.tcache\0"@)) == 2,
{
    reveal_strlit("opt.tcache\0");
    reveal_with_fuel(dots, 12);
}

/// `opt.lg_tcache_max` is a key path of 2 components.
proof fn lemma_opt_lg_tcache_max()
    ensures
        is_key_path(ascii_bytes("opt.lg_tcache_max\0"@)),
        components(ascii_bytes("opt.lg_tcache_max\0"@)) == 2,
{
    reveal_strlit("opt.lg_tcache_max\0");
    reveal_with_fuel(dots, 19);
}

/// `opt.abort` is a key path of 2 components.
proof fn lemma_opt_abort()
    ensures
        is_key_path(ascii_bytes("opt.abort\0"@)),
        components(ascii_bytes("opt.abort\0"@)) == 2,
{
    reveal_strlit("opt.abort\0");
    reveal_with_fuel(dots, 11);
}

/// `thread.allocatedp` is a key path of 2 components.
proof fn lemma_thread_allocatedp()
    ensures
        is_key_path(ascii_bytes("thread.allocatedp\0"@)),
        components(ascii_bytes("thread.allocatedp\0"@)) == 2,
{
    reveal_strlit("thread.allocatedp\0");
    reveal_with_fuel(dots, 19);
}

/// `thread.deallocatedp` is a key path of 2 components.
proof fn lemma_thread_deallocatedp()
    ensures
        is_key_path(ascii_bytes("thread.deallocatedp\0"@)),
        components(ascii_bytes("thread.deallocatedp\0"@)) == 2,
{
    reveal_strlit("thread.deallocatedp\0");
    reveal_with_fuel(dots, 21);
}

/// Every key of the table is a key path, and has as many components as the
/// table says.
pub proof fn lemma_key_path(key: Key)
    ensures
        is_key_path(key.path_spec()),
        components(key.path_spec()) == key.depth_spec(),
{
    match key {
        Key::Epoch => lemma_epoch(),
        Key::Version => lemma_version(),
        Key::BackgroundThread => lemma_background_thread(),
        Key::MaxBackgroundThreads => lemma_max_background_threads(),
        Key::MallocConf => lemma_malloc_conf(),
        Key::StatsAllocated => lemma_stats_allocated(),
        Key::StatsActive => lemma_stats_active(),
        Key::StatsMetadata => lemma_stats_metadata(),
        Key::StatsResident => lemma_stats_resident(),
        Key::StatsMapped => lemma_stats_mapped(),
        Key::ArenasNArenas => lemma_arenas_narenas(),
        Key::OptNArenas => lemma_opt_narenas(),
        Key::OptDss => lemma_opt_dss(),
        Key::OptJunk => lemma_opt_junk(),
        Key::OptZero => lemma_opt_zero(),
        Key::OptTcache => lemma_opt_tcache(),
        Key::OptLgTcacheMax => lemma_opt_lg_tcache_max(),
        Key::OptAbort => lemma_opt_abort(),
        Key::ThreadAllocatedp => lemma_thread_allocatedp(),
        Key::ThreadDeallocatedp => lemma_thread_deallocatedp(),
    }
}

} // verus!
