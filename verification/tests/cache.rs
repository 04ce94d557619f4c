use zip_bridge::cache::{init, Cache, Member, ENTRIES};
use zip_bridge::error::Error;

#[test]
fn fresh_cache_holds_nothing() {
    let cache = Cache::new();
    assert!(!cache.initialized());
    assert_eq!(cache.lookup(Member::String), None);
    assert_eq!(cache.lookup(Member::ZipEntryPtr), None);
}

#[test]
fn init_stores_every_entry() {
    let mut cache = Cache::new();
    let resolved: [Option<u64>; 10] = [
        Some(100),
        Some(101),
        Some(102),
        Some(103),
        Some(104),
        Some(105),
        Some(106),
        Some(107),
        Some(108),
        Some(109),
    ];
    assert!(init(&mut cache, &resolved).is_ok());
    assert!(cache.initialized());
    assert_eq!(cache.get(Member::String), 100);
    assert_eq!(cache.get(Member::DateUtc), 102);
    assert_eq!(cache.get(Member::ZipWriterPtr), 106);
    assert_eq!(cache.get(Member::ZipEntryPtr), 109);
}

#[test]
fn init_stops_at_the_first_failure() {
    let mut cache = Cache::new();
    let resolved: [Option<u64>; 10] = [
        Some(100),
        Some(101),
        Some(102),
        None,
        Some(104),
        None,
        Some(106),
        Some(107),
        Some(108),
        Some(109),
    ];
    match init(&mut cache, &resolved) {
        Err(Error::Initialization(name)) => {
            assert_eq!(name, "com/github/diamondminer88/zip/ZipReader")
        },
        _ => panic!("a missing class must fail the start-up"),
    }
    assert!(!cache.initialized());
    assert_eq!(cache.lookup(Member::DateUtc), Some(102));
    assert_eq!(cache.lookup(Member::ZipReader), None);
    assert_eq!(cache.lookup(Member::ZipReaderPtr), None);
    assert_eq!(cache.lookup(Member::ZipEntryPtr), None);
}

#[test]
fn members_are_numbered_in_order_of_resolution() {
    assert_eq!(ENTRIES, 10);
    let mut i: usize = 0;
    while i < ENTRIES {
        match Member::from_index(i) {
            Some(member) => assert_eq!(member.index(), i),
            None => panic!("every place has a member"),
        }
        i += 1;
    }
    assert_eq!(Member::from_index(10), None);
    assert_eq!(Member::ZipEntryCtor.index(), 8);
}

#[test]
fn members_describe_themselves() {
    assert_eq!(Member::String.class(), "java/lang/String");
    assert_eq!(Member::DateUtc.class(), "java/util/Date");
    assert_eq!(Member::DateUtc.member(), ("UTC", "(IIIIII)J"));
    assert_eq!(Member::ZipEntryCtor.member(), ("<init>", "()V"));
    assert_eq!(Member::ZipReaderPtr.member(), ("ptr", "J"));
    assert_eq!(Member::ZipWriter.member(), ("", ""));
    assert_eq!(Member::ZipEntry.class(), "com/github/diamondminer88/zip/ZipEntry");
}

#[test]
fn initialization_failure_names_the_entry() {
    let error = Error::Initialization(String::from("java/util/Date"));
    assert_eq!(error.message(), "java/util/Date");
    assert!(!error.caller_fault());
}

#[test]
fn load_answers_with_the_version_or_the_error_code() {
    let mut cache = Cache::new();
    let all: [Option<u64>; 10] = [Some(1); 10];
    assert_eq!(zip_bridge::cache::JNI_OnLoad(&mut cache, &all), 0x00010006);
    assert!(cache.initialized());
    let mut cache = Cache::new();
    let mut some: [Option<u64>; 10] = [Some(1); 10];
    some[9] = None;
    assert_eq!(zip_bridge::cache::JNI_OnLoad(&mut cache, &some), -1);
    assert!(!cache.initialized());
    assert_eq!(cache.lookup(Member::ZipEntryCtor), Some(1));
}
