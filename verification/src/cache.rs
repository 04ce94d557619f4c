//! The classes and members of the host that the bridge needs, resolved once.
//!
//! Resolving is the host's work. The cache takes the outcomes, in the order
//! in which the entries depend on each other, and keeps what was resolved.

#![allow(non_snake_case)]

use vstd::prelude::*;
use crate::error::Error;

verus! {

/// How many entries the cache has.
pub const ENTRIES: usize = 10;

/// An entry of the cache: a class of the host, or a member of one.
#[derive(Clone, Copy, Debug, PartialEq, Eq, Structural)]
pub enum Member {
    String,
    Date,
    DateUtc,
    ZipReader,
    ZipReaderPtr,
    ZipWriter,
    ZipWriterPtr,
    ZipEntry,
    ZipEntryCtor,
    ZipEntryPtr,
}

impl Member {
    /// The place of the entry in the order of resolution.
    pub open spec fn index_spec(self) -> int {
        match self {
            Member::String => 0,
            Member::Date => 1,
            Member::DateUtc => 2,
            Member::ZipReader => 3,
            Member::ZipReaderPtr => 4,
            Member::ZipWriter => 5,
            Member::ZipWriterPtr => 6,
            Member::ZipEntry => 7,
            Member::ZipEntryCtor => 8,
            Member::ZipEntryPtr => 9,
        }
    }

    /// The entry that is resolved at place `index`.
    pub open spec fn at(index: int) -> Option<Member> {
        if index == 0 {
            Some(Member::String)
        } else if index == 1 {
            Some(Member::Date)
        } else if index == 2 {
            Some(Member::DateUtc)
        } else if index == 3 {
            Some(Member::ZipReader)
        } else if index == 4 {
            Some(Member::ZipReaderPtr)
        } else if index == 5 {
            Some(Member::ZipWriter)
        } else if index == 6 {
            Some(Member::ZipWriterPtr)
        } else if index == 7 {
            Some(Member::ZipEntry)
        } else if index == 8 {
            Some(Member::ZipEntryCtor)
        } else if index == 9 {
            Some(Member::ZipEntryPtr)
        } else {
            None
        }
    }

    /// The class that the entry is, or belongs to.
    pub open spec fn class_spec(self) -> Seq<char> {
        match self {
            Member::String => "java/lang/String"@,
            Member::Date | Member::DateUtc => "java/util/Date"@,
            Member::ZipReader | Member::ZipReaderPtr => "com/github/diamondminer88/zip/ZipReader"@,
            Member::ZipWriter | Member::ZipWriterPtr => "com/github/diamondminer88/zip/ZipWriter"@,
            Member::ZipEntry | Member::ZipEntryCtor | Member::ZipEntryPtr =>
                "com/github/diamondminer88/zip/ZipEntry"@,
        }
    }

    /// The name and the signature of the member; both empty for a class.
    pub open spec fn member_spec(self) -> (Seq<char>, Seq<char>) {
        match self {
            Member::DateUtc => ("UTC"@, "(IIIIII)J"@),
            Member::ZipEntryCtor => ("<init>"@, "()V"@),
            Member::ZipReaderPtr | Member::ZipWriterPtr | Member::ZipEntryPtr => ("ptr"@, "J"@),
            _ => (""@, ""@),
        }
    }

    /// The place of the entry in the order of resolution.
    pub fn index(self) -> (index: usize)
        ensures
            index == self.index_spec(),
            index < ENTRIES,
            Member::at(index as int) == Some(self),
    {
        match self {
            Member::String => 0,
            Member::Date => 1,
            Member::DateUtc => 2,
            Member::ZipReader => 3,
            Member::ZipReaderPtr => 4,
            Member::ZipWriter => 5,
            Member::ZipWriterPtr => 6,
            Member::ZipEntry => 7,
            Member::ZipEntryCtor => 8,
            Member::ZipEntryPtr => 9,
        }
    }

    /// The entry that is resolved at place `index`, if there is such a place.
    pub fn from_index(index: usize) -> (member: Option<Member>)
        ensures
            member == Member::at(index as int),
            member is Some == (index < ENTRIES),
            member matches Some(m) ==> m.index_spec() == index,
    {
        match index {
            0 => Some(Member::String),
            1 => Some(Member::Date),
            2 => Some(Member::DateUtc),
            3 => Some(Member::ZipReader),
            4 => Some(Member::ZipReaderPtr),
            5 => Some(Member::ZipWriter),
            6 => Some(Member::ZipWriterPtr),
            7 => Some(Member::ZipEntry),
            8 => Some(Member::ZipEntryCtor),
            9 => Some(Member::ZipEntryPtr),
            _ => None,
        }
    }

    /// The class that the entry is, or belongs to.
    pub fn class(self) -> (name: &'static str)
        ensures
            name@ == self.class_spec(),
    {
        match self {
            Member::String => "java/lang/String",
            Member::Date | Member::DateUtc => "java/util/Date",
            Member::ZipReader | Member::ZipReaderPtr => "com/github/diamondminer88/zip/ZipReader",
            Member::ZipWriter | Member::ZipWriterPtr => "com/github/diamondminer88/zip/ZipWriter",
            Member::ZipEntry | Member::ZipEntryCtor | Member::ZipEntryPtr =>
                "com/github/diamondminer88/zip/ZipEntry",
        }
    }

    /// The name and the signature of the member; both empty for a class.
    pub fn member(self) -> (pair: (&'static str, &'static str))
        ensures
            (pair.0@, pair.1@) == self.member_spec(),
    {
        match self {
            Member::DateUtc => ("UTC", "(IIIIII)J"),
            Member::ZipEntryCtor => ("<init>", "()V"),
            Member::ZipReaderPtr | Member::ZipWriterPtr | Member::ZipEntryPtr => ("ptr", "J"),
            _ => ("", ""),
        }
    }
}

/// The version of the host interface that the bridge is written for.
pub const JNI_VERSION_1_6: i32 = 0x00010006;

/// What the host is told when the bridge cannot start.
pub const JNI_ERR: i32 = -1;

/// The first place from `from` on at which nothing was resolved, or the
/// length of `resolved` if there is none.
pub open spec fn missing_from(resolved: Seq<Option<u64>>, from: int) -> int
    decreases resolved.len() - from,
{
    if from < 0 || from >= resolved.len() {
        resolved.len() as int
    } else if resolved[from] is None {
        from
    } else {
        missing_from(resolved, from + 1)
    }
}

/// The first place at which nothing was resolved.
pub open spec fn first_missing(resolved: Seq<Option<u64>>) -> int {
    missing_from(resolved, 0)
}

/// What the cache holds after it was given `resolved`: everything before the
/// first failure, and nothing from there on.
pub open spec fn filled(resolved: Seq<Option<u64>>) -> Seq<Option<u64>> {
    Seq::new(
        resolved.len(),
        |i: int|
            if i < first_missing(resolved) {
                resolved[i]
            } else {
                None
            },
    )
}

/// The write-once table of what the host resolved.
pub struct Cache {
    slots: [Option<u64>; 10],
}

impl View for Cache {
    type V = Seq<Option<u64>>;

    closed spec fn view(&self) -> Seq<Option<u64>> {
        self.slots@
    }
}

impl Cache {
    /// That nothing was stored yet.
    pub open spec fn is_fresh(self) -> bool {
        forall|i: int| 0 <= i < self@.len() ==> self@[i] is None
    }

    /// That every entry was resolved.
    pub open spec fn is_complete(self) -> bool {
        forall|i: int| 0 <= i < self@.len() ==> self@[i] is Some
    }

    /// A cache in which nothing is resolved.
    pub fn new() -> (cache: Self)
        ensures
            cache.is_fresh(),
    {
        Cache { slots: [None, None, None, None, None, None, None, None, None, None] }
    }

    /// Whether every entry was resolved.
    pub fn initialized(&self) -> (complete: bool)
        ensures
            complete == self.is_complete(),
    {
        let mut i: usize = 0;
        while i < ENTRIES
            invariant
                i <= ENTRIES,
                forall|j: int| 0 <= j < i ==> self.slots@[j] is Some,
            decreases ENTRIES - i,
        {
            if self.slots[i].is_none() {
                return false;
            }
            i += 1;
        }
        true
    }

    /// What was resolved for `member`, if anything was.
    pub fn lookup(&self, member: Member) -> (id: Option<u64>)
        ensures
            id == self@[member.index_spec()],
    {
        self.slots[member.index()]
    }

    /// What was resolved for `member`. The entry must have been resolved.
    pub fn get(&self, member: Member) -> (id: u64)
        requires
            self@[member.index_spec()] is Some,
        ensures
            Some(id) == self@[member.index_spec()],
    {
        match self.slots[member.index()] {
            Some(id) => id,
            None => 0,
        }
    }
}

/// Stores what the host resolved, entry by entry, up to the first failure.
///
/// `resolved` holds, for each entry in the order of resolution, the
/// identifier that the host gave, or nothing where it found none. The
/// entries before the first failure are stored; the failure is reported
/// with the class of the entry that could not be resolved. The cache must
/// be fresh: it is filled once.
pub fn init(cache: &mut Cache, resolved: &[Option<u64>; 10]) -> (done: Result<(), Error>)
    requires
        old(cache).is_fresh(),
    ensures
        final(cache)@ == filled(resolved@),
        done is Ok == (first_missing(resolved@) == ENTRIES),
        done is Ok == final(cache).is_complete(),
        done matches Err(e) ==> e matches Error::Initialization(name) && Member::at(
            first_missing(resolved@),
        ) matches Some(m) && name@ == m.class_spec(),
{
    let mut i: usize = 0;
    while i < ENTRIES
        invariant
            i <= ENTRIES,
            resolved@.len() == ENTRIES,
            first_missing(resolved@) == missing_from(resolved@, i as int),
            forall|j: int| 0 <= j < i ==> resolved@[j] is Some && cache@[j] == resolved@[j],
            forall|j: int| i <= j < ENTRIES ==> cache@[j] is None,
        decreases ENTRIES - i,
    {
        match resolved[i] {
            Some(id) => {
                cache.slots[i] = Some(id);
            },
            None => {
                assert(first_missing(resolved@) == i);
                assert(cache@ =~= filled(resolved@));
                assert(cache@[i as int] is None);
                let name = match Member::from_index(i) {
                    Some(m) => m.class().to_owned(),
                    None => String::new(),
                };
                return Err(Error::Initialization(name));
            },
        }
        i += 1;
    }
    assert(first_missing(resolved@) == ENTRIES);
    assert(cache@ =~= filled(resolved@));
    Ok(())
}

/// Starts the bridge when the host loads it: fills the cache and answers
/// with the version of the host interface, or with the host's error code
/// where an entry could not be resolved. See `init` for what the cache
/// holds afterwards.
pub fn JNI_OnLoad(cache: &mut Cache, resolved: &[Option<u64>; 10]) -> (answer: i32)
    requires
        old(cache).is_fresh(),
    ensures
        final(cache)@ == filled(resolved@),
        answer == (if first_missing(resolved@) == ENTRIES {
            JNI_VERSION_1_6
        } else {
            JNI_ERR
        }),
        (answer == JNI_VERSION_1_6) == final(cache).is_complete(),
{
    match init(cache, resolved) {
        Ok(()) => JNI_VERSION_1_6,
        Err(_) => JNI_ERR,
    }
}

} // verus!
