use jemalloc_ctl::key::{check_key_path, component_count, count_dots, Key, DOT, NUL};

const ALL: [Key; 20] = [
    Key::Epoch,
    Key::Version,
    Key::BackgroundThread,
    Key::MaxBackgroundThreads,
    Key::MallocConf,
    Key::StatsAllocated,
    Key::StatsActive,
    Key::StatsMetadata,
    Key::StatsResident,
    Key::StatsMapped,
    Key::ArenasNArenas,
    Key::OptNArenas,
    Key::OptDss,
    Key::OptJunk,
    Key::OptZero,
    Key::OptTcache,
    Key::OptLgTcacheMax,
    Key::OptAbort,
    Key::ThreadAllocatedp,
    Key::ThreadDeallocatedp,
];

#[test]
fn the_marks_of_a_key_path() {
    assert_eq!(NUL, b'\0');
    assert_eq!(DOT, b'.');
}

#[test]
fn a_terminated_name_is_a_key_path() {
    assert!(check_key_path(b"epoch\0"));
    assert!(check_key_path(b"stats.allocated\0"));
    assert!(check_key_path(b"a\0"));
    assert!(check_key_path(b"no.such.key\0"));
}

#[test]
fn a_name_without_terminator_is_no_key_path() {
    assert!(!check_key_path(b"epoch"));
    assert!(!check_key_path(b"stats.allocated"));
    assert!(!check_key_path(b"a"));
}

#[test]
fn an_empty_name_is_no_key_path() {
    assert!(!check_key_path(b""));
    assert!(!check_key_path(b"\0"));
}

#[test]
fn a_terminator_before_the_end_is_refused() {
    assert!(!check_key_path(b"stats\0allocated\0"));
    assert!(!check_key_path(b"\0\0"));
    assert!(!check_key_path(b"epoch\0\0"));
}

#[test]
fn dots_are_counted() {
    assert_eq!(count_dots(b""), 0);
    assert_eq!(count_dots(b"epoch\0"), 0);
    assert_eq!(count_dots(b"stats.allocated\0"), 1);
    assert_eq!(count_dots(b"stats.arenas.15.muzzy_decay_ms\0"), 3);
    assert_eq!(count_dots(b"..."), 3);
}

#[test]
fn components_are_one_more_than_dots() {
    assert_eq!(component_count(b"epoch\0"), 1);
    assert_eq!(component_count(b"opt.dss\0"), 2);
    assert_eq!(component_count(b"arenas.bin.2.size\0"), 4);
    assert_eq!(component_count(b".\0"), 2);
}

#[test]
fn the_table_of_key_paths() {
    assert_eq!(Key::Epoch.path(), b"epoch\0");
    assert_eq!(Key::Version.path(), b"version\0");
    assert_eq!(Key::BackgroundThread.path(), b"background_thread\0");
    assert_eq!(Key::MaxBackgroundThreads.path(), b"max_background_threads\0");
    assert_eq!(Key::MallocConf.path(), b"config.malloc_conf\0");
    assert_eq!(Key::StatsAllocated.path(), b"stats.allocated\0");
    assert_eq!(Key::StatsActive.path(), b"stats.active\0");
    assert_eq!(Key::StatsMetadata.path(), b"stats.metadata\0");
    assert_eq!(Key::StatsResident.path(), b"stats.resident\0");
    assert_eq!(Key::StatsMapped.path(), b"stats.mapped\0");
    assert_eq!(Key::ArenasNArenas.path(), b"arenas.narenas\0");
    assert_eq!(Key::OptNArenas.path(), b"opt.narenas\0");
    assert_eq!(Key::OptDss.path(), b"opt.dss\0");
    assert_eq!(Key::OptJunk.path(), b"opt.junk\0");
    assert_eq!(Key::OptZero.path(), b"opt.zero\0");
    assert_eq!(Key::OptTcache.path(), b"opt.tcache\0");
    assert_eq!(Key::OptLgTcacheMax.path(), b"opt.lg_tcache_max\0");
    assert_eq!(Key::OptAbort.path(), b"opt.abort\0");
    assert_eq!(Key::ThreadAllocatedp.path(), b"thread.allocatedp\0");
    assert_eq!(Key::ThreadDeallocatedp.path(), b"thread.deallocatedp\0");
}

#[test]
fn every_key_of_the_table_is_a_key_path() {
    for key in ALL {
        assert!(check_key_path(key.path()), "{:?}", key);
    }
}

#[test]
fn every_key_has_the_depth_of_its_path() {
    for key in ALL {
        assert_eq!(key.depth(), component_count(key.path()), "{:?}", key);
    }
    assert_eq!(Key::Epoch.depth(), 1);
    assert_eq!(Key::Version.depth(), 1);
    assert_eq!(Key::BackgroundThread.depth(), 1);
    assert_eq!(Key::MaxBackgroundThreads.depth(), 1);
    assert_eq!(Key::StatsAllocated.depth(), 2);
    assert_eq!(Key::OptLgTcacheMax.depth(), 2);
    assert_eq!(Key::ThreadDeallocatedp.depth(), 2);
}

#[test]
fn the_two_narenas_keys_differ() {
    assert_ne!(Key::ArenasNArenas, Key::OptNArenas);
    assert_ne!(Key::ArenasNArenas.path(), Key::OptNArenas.path());
}
