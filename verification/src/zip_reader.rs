//! The archive reader: an archive that was parsed once and is asked for its
//! entries.

#![allow(non_snake_case)]

use vstd::prelude::*;
use crate::codec::{
    archive_comment, archive_has_name, archive_len, archive_names, entry_data, entry_header,
    entry_opens, entry_raw_data, entry_stat, failure, names_directory, texts, zip_comment,
    zip_data, zip_has_name, zip_header, zip_len, zip_names, zip_opens, zip_raw_data, zip_stat,
    Failure,
};
use crate::error::Error;
use crate::interop::{
    deref, drop_reference, get_field, installed, lemma_borrow_then_drop, next_address, reached,
    release_waits, released, field_after_release, set_field, take_field, Heap, HostObject,
};
use crate::lock::Turn;
use crate::zip_entry::{EntryModel, ZipEntry};

verus! {

/// An archive to read from, held as its bytes.
#[derive(Debug)]
pub struct ZipReader {
    /// The archive, byte for byte.
    pub bytes: Vec<u8>,
}

impl View for ZipReader {
    type V = Seq<u8>;

    open spec fn view(&self) -> Seq<u8> {
        self.bytes@
    }
}

/// Entry `index` of `bytes` as it is opened: nothing where the codec
/// refuses its header or its numbers, or, unless it is opened raw, does not
/// hand it out for reading. The content is unpacked, or as stored for a raw
/// entry, and missing where the codec cannot read it.
pub open spec fn entry_found(bytes: Seq<u8>, index: int, raw: bool) -> Option<EntryModel> {
    match (zip_header(bytes, index), zip_stat(bytes, index)) {
        (Some(header), Some(stat)) => if raw {
            Some(EntryModel { index: index as nat, header, stat, data: zip_raw_data(bytes, index) })
        } else if zip_opens(bytes, index) == Some(true) {
            Some(
                EntryModel {
                    index: index as nat,
                    header,
                    stat,
                    data: match zip_data(bytes, index) {
                        Some(found) => found,
                        None => None,
                    },
                },
            )
        } else {
            None
        },
        _ => None,
    }
}

/// The last entry before `upto` that the codec reads a header of and that
/// is called `name`. Entries whose header the codec refuses are passed over.
pub open spec fn last_named(bytes: Seq<u8>, name: Seq<char>, upto: int) -> Option<int>
    decreases upto,
{
    if upto <= 0 {
        None
    } else if zip_header(bytes, upto - 1) is Some && zip_header(bytes, upto - 1).unwrap().name
        == name {
        Some(upto - 1)
    } else {
        last_named(bytes, name, upto - 1)
    }
}

/// The place of the entry that a caller asks for: by `name` where one is
/// given, else by `index`. Whether the archive has an entry of that name is
/// for the codec to say; its place is that of the last such entry. Nothing
/// where the archive has no such entry; a failure where the codec fails, or
/// knows the name and yet reads no entry of that name.
pub open spec fn selected(bytes: Seq<u8>, count: nat, index: i32, name: Option<Seq<char>>) -> Result<
    Option<int>,
    (),
> {
    match name {
        Some(name) => match zip_has_name(bytes, name) {
            None => Err(()),
            Some(false) => Ok(None),
            Some(true) => match last_named(bytes, name, count as int) {
                Some(at) => Ok(Some(at)),
                None => Err(()),
            },
        },
        None => if 0 <= index < count {
            Ok(Some(index as int))
        } else {
            Ok(None)
        },
    }
}

/// The entry that opening by `index` or `name` yields: a failure of the
/// codec, no entry, or the entry.
pub open spec fn opened(bytes: Seq<u8>, index: i32, name: Option<Seq<char>>, raw: bool) -> Result<
    Option<EntryModel>,
    (),
> {
    match zip_len(bytes) {
        None => Err(()),
        Some(count) => match selected(bytes, count, index, name) {
            Err(()) => Err(()),
            Ok(None) => Ok(None),
            Ok(Some(at)) => match entry_found(bytes, at, raw) {
                Some(entry) => Ok(Some(entry)),
                None => Err(()),
            },
        },
    }
}

/// Finds the last of the first `count` entries of `bytes` that is called
/// `name`, passing over entries whose header the codec refuses.
///
/// The codec keeps its table of names to itself and hands out no place
/// with an entry, so the place is found by asking for each header in turn.
pub fn index_of(bytes: &Vec<u8>, name: &String, count: usize) -> (found: Option<usize>)
    ensures
        match last_named(bytes@, name@, count as int) {
            None => found is None,
            Some(at) => found matches Some(i) && i == at,
        },
{
    let mut i: usize = count;
    while i > 0
        invariant
            i <= count,
            last_named(bytes@, name@, count as int) == last_named(bytes@, name@, i as int),
        decreases i,
    {
        match entry_header(bytes, i - 1) {
            Err(_) => {},
            Ok(header) => {
                if header.name == *name {
                    return Some(i - 1);
                }
            },
        }
        i -= 1;
    }
    None
}

impl ZipReader {
    /// Takes `bytes` as an archive if the codec can parse them.
    pub fn parse(bytes: Vec<u8>) -> (reader: Result<ZipReader, Error>)
        ensures
            zip_len(bytes@) is Some ==> reader == Ok::<ZipReader, Error>(ZipReader { bytes }),
            zip_len(bytes@) is None ==> reader matches Err(Error::Codec(_)),
    {
        match archive_len(&bytes) {
            Ok(_) => Ok(ZipReader { bytes }),
            Err(e) => Err(Error::Codec(failure(e))),
        }
    }

    /// How many entries the archive has.
    pub fn entry_count(&self) -> (count: Result<usize, Error>)
        ensures
            match zip_len(self@) {
                Some(n) => count == Ok::<usize, Error>(n as usize) && n <= usize::MAX,
                None => count matches Err(Error::Codec(_)),
            },
    {
        match archive_len(&self.bytes) {
            Ok(n) => Ok(n),
            Err(e) => Err(Error::Codec(failure(e))),
        }
    }

    /// The comment of the archive, as bytes.
    pub fn raw_comment(&self) -> (comment: Result<Vec<u8>, Error>)
        ensures
            match zip_comment(self@) {
                Some(text) => comment matches Ok(c) && c@ == text,
                None => comment matches Err(Error::Codec(_)),
            },
    {
        match archive_comment(&self.bytes) {
            Ok(c) => Ok(c),
            Err(e) => Err(Error::Codec(failure(e))),
        }
    }

    /// The names of the entries, each once, in no stated order.
    pub fn entry_names(&self) -> (names: Result<Vec<String>, Error>)
        ensures
            match zip_names(self@) {
                Some(all) => names matches Ok(list) && texts(list@).no_duplicates() && texts(
                    list@,
                ).to_set() == all,
                None => names matches Err(Error::Codec(_)),
            },
    {
        match archive_names(&self.bytes) {
            Ok(list) => Ok(list),
            Err(e) => Err(Error::Codec(failure(e))),
        }
    }

    /// Reads entry `index` with its content, unpacked or, if `raw`, as stored.
    pub fn entry_at(&self, index: usize, raw: bool) -> (entry: Result<ZipEntry, Error>)
        ensures
            match entry_found(self@, index as int, raw) {
                Some(model) => entry matches Ok(e) && e@ == model,
                None => entry matches Err(Error::Codec(_)),
            },
            entry matches Ok(e) ==> e.header.dir == names_directory(e.header.name@),
    {
        let header = match entry_header(&self.bytes, index) {
            Ok(header) => header,
            Err(e) => {
                return Err(Error::Codec(failure(e)));
            },
        };
        let stat = match entry_stat(&self.bytes, index) {
            Ok(stat) => stat,
            Err(e) => {
                return Err(Error::Codec(failure(e)));
            },
        };
        let content = if raw {
            match entry_raw_data(&self.bytes, index) {
                Ok(data) => Ok(data),
                Err(e) => Err(failure(e).text()),
            }
        } else {
            match entry_opens(&self.bytes, index) {
                Ok(true) => {},
                Ok(false) => {
                    return Err(Error::Codec(Failure::PasswordRequired));
                },
                Err(e) => {
                    return Err(Error::Codec(failure(e)));
                },
            }
            match entry_data(&self.bytes, index) {
                Ok(Some(data)) => Ok(data),
                Ok(None) => Err(Failure::PasswordRequired.text()),
                Err(e) => Err(failure(e).text()),
            }
        };
        Ok(ZipEntry { index, header, stat, content })
    }

    /// Opens the entry called `name`, or, where no name is given, the entry
    /// at `index`. An archive without such an entry gives none.
    pub fn open_entry(&self, index: i32, name: Option<&String>, raw: bool) -> (entry: Result<
        Option<ZipEntry>,
        Error,
    >)
        ensures
            match opened(
                self@,
                index,
                match name {
                    Some(n) => Some(n@),
                    None => None,
                },
                raw,
            ) {
                Err(()) => entry matches Err(Error::Codec(_)),
                Ok(None) => entry matches Ok(None),
                Ok(Some(model)) => entry matches Ok(Some(e)) && e@ == model,
            },
            entry matches Ok(Some(e)) ==> e.header.dir == names_directory(e.header.name@),
    {
        let count = match archive_len(&self.bytes) {
            Ok(n) => n,
            Err(e) => {
                return Err(Error::Codec(failure(e)));
            },
        };
        let place = match name {
            Some(n) => match archive_has_name(&self.bytes, n.as_str()) {
                Err(e) => {
                    return Err(Error::Codec(failure(e)));
                },
                Ok(false) => None,
                Ok(true) => match index_of(&self.bytes, n, count) {
                    Some(at) => Some(at),
                    None => {
                        return Err(Error::Codec(Failure::NotFound));
                    },
                },
            },
            None => if index >= 0 && (index as usize) < count {
                Some(index as usize)
            } else {
                None
            },
        };
        match place {
            None => Ok(None),
            Some(at) => match self.entry_at(at, raw) {
                Ok(entry) => Ok(Some(entry)),
                Err(e) => Err(e),
            },
        }
    }
}

/// Opens `bytes` as an archive and installs the reader in the field of `obj`.
///
/// Bytes that the codec refuses are reported, and nothing is installed.
pub fn open(heap: &mut Heap<ZipReader>, obj: &mut HostObject, bytes: Vec<u8>) -> (done: Result<(), Error>)
    ensures
        zip_len(bytes@) is Some ==> {
            &&& done is Ok
            &&& final(heap)@ == installed(old(heap)@, ZipReader { bytes })
            &&& final(obj).field() == next_address(old(heap)@)
        },
        zip_len(bytes@) is None ==> {
            &&& done matches Err(Error::Codec(_))
            &&& final(heap)@ == old(heap)@
            &&& final(obj).field() == old(obj).field()
        },
{
    match ZipReader::parse(bytes) {
        Ok(reader) => set_field(heap, obj, reader),
        Err(e) => Err(e),
    }
}

/// Releases the reader. A reader that is closed already, or whose holder
/// failed, is no reason to fail here. The answer is whether the release
/// went through; if not, another thread is inside the reader.
pub fn close(heap: &mut Heap<ZipReader>, obj: &mut HostObject, thread: u64) -> (done: bool)
    ensures
        done == !release_waits(old(heap)@, old(obj).field(), thread),
        final(heap)@ == released(old(heap)@, old(obj).field(), thread),
        final(obj).field() == field_after_release(old(heap)@, old(obj).field(), thread),
{
    match take_field(heap, obj, thread) {
        Ok(Turn::Wait) => false,
        _ => true,
    }
}

/// How many entries the archive has.
pub fn getEntryCount(heap: &mut Heap<ZipReader>, obj: &HostObject, thread: u64) -> (outcome: Result<
    Turn<usize>,
    Error,
>)
    ensures
        final(heap)@ == old(heap)@,
        match reached(old(heap)@, obj.field(), thread) {
            Err(e) => outcome == Err::<Turn<usize>, Error>(e),
            Ok(Turn::Wait) => outcome == Ok::<Turn<usize>, Error>(Turn::Wait),
            Ok(Turn::Ready(reader)) => match zip_len(reader@) {
                Some(n) => outcome == Ok::<Turn<usize>, Error>(Turn::Ready(n as usize)),
                None => outcome matches Err(Error::Codec(_)),
            },
        },
{
    proof {
        lemma_borrow_then_drop(heap@, obj.field(), thread);
    }
    match get_field(heap, obj, thread) {
        Err(e) => Err(e),
        Ok(Turn::Wait) => Ok(Turn::Wait),
        Ok(Turn::Ready(reference)) => {
            let answer = match deref(heap, obj, thread) {
                Some(reader) => reader.entry_count(),
                None => Err(Error::ClosedHandle),
            };
            drop_reference(heap, obj, reference);
            match answer {
                Ok(n) => Ok(Turn::Ready(n)),
                Err(e) => Err(e),
            }
        },
    }
}

/// The comment of the archive, as bytes.
pub fn getRawComment(heap: &mut Heap<ZipReader>, obj: &HostObject, thread: u64) -> (outcome: Result<
    Turn<Vec<u8>>,
    Error,
>)
    ensures
        final(heap)@ == old(heap)@,
        match reached(old(heap)@, obj.field(), thread) {
            Err(e) => outcome == Err::<Turn<Vec<u8>>, Error>(e),
            Ok(Turn::Wait) => outcome == Ok::<Turn<Vec<u8>>, Error>(Turn::Wait),
            Ok(Turn::Ready(reader)) => match zip_comment(reader@) {
                Some(text) => outcome matches Ok(Turn::Ready(c)) && c@ == text,
                None => outcome matches Err(Error::Codec(_)),
            },
        },
{
    proof {
        lemma_borrow_then_drop(heap@, obj.field(), thread);
    }
    match get_field(heap, obj, thread) {
        Err(e) => Err(e),
        Ok(Turn::Wait) => Ok(Turn::Wait),
        Ok(Turn::Ready(reference)) => {
            let answer = match deref(heap, obj, thread) {
                Some(reader) => reader.raw_comment(),
                None => Err(Error::ClosedHandle),
            };
            drop_reference(heap, obj, reference);
            match answer {
                Ok(c) => Ok(Turn::Ready(c)),
                Err(e) => Err(e),
            }
        },
    }
}

/// The names of the entries, each once, in no stated order.
pub fn getEntryNames(heap: &mut Heap<ZipReader>, obj: &HostObject, thread: u64) -> (outcome: Result<
    Turn<Vec<String>>,
    Error,
>)
    ensures
        final(heap)@ == old(heap)@,
        match reached(old(heap)@, obj.field(), thread) {
            Err(e) => outcome == Err::<Turn<Vec<String>>, Error>(e),
            Ok(Turn::Wait) => outcome == Ok::<Turn<Vec<String>>, Error>(Turn::Wait),
            Ok(Turn::Ready(reader)) => match zip_names(reader@) {
                Some(all) => outcome matches Ok(Turn::Ready(list)) && texts(list@).no_duplicates()
                    && texts(list@).to_set() == all,
                None => outcome matches Err(Error::Codec(_)),
            },
        },
{
    proof {
        lemma_borrow_then_drop(heap@, obj.field(), thread);
    }
    match get_field(heap, obj, thread) {
        Err(e) => Err(e),
        Ok(Turn::Wait) => Ok(Turn::Wait),
        Ok(Turn::Ready(reference)) => {
            let answer = match deref(heap, obj, thread) {
                Some(reader) => reader.entry_names(),
                None => Err(Error::ClosedHandle),
            };
            drop_reference(heap, obj, reference);
            match answer {
                Ok(list) => Ok(Turn::Ready(list)),
                Err(e) => Err(e),
            }
        },
    }
}

/// Opens an entry of the reader behind `obj` and installs it in the field
/// of a new host object, which is returned.
///
/// The entry is the one called `name`, or, where no name is given, the one
/// at `index`; `raw` asks for its content as stored. Where the archive has
/// no such entry, none is returned and nothing is installed. The readers
/// are left as they were found.
pub fn openEntry0(
    heap: &mut Heap<ZipReader>,
    obj: &HostObject,
    thread: u64,
    entries: &mut Heap<ZipEntry>,
    index: i32,
    name: Option<&String>,
    raw: bool,
) -> (outcome: Result<Turn<Option<HostObject>>, Error>)
    ensures
        final(heap)@ == old(heap)@,
        match reached(old(heap)@, obj.field(), thread) {
            Err(e) => outcome == Err::<Turn<Option<HostObject>>, Error>(e) && final(entries)@ == old(
                entries,
            )@,
            Ok(Turn::Wait) => outcome matches Ok(Turn::Wait) && final(entries)@ == old(entries)@,
            Ok(Turn::Ready(reader)) => match opened(
                reader@,
                index,
                match name {
                    Some(n) => Some(n@),
                    None => None,
                },
                raw,
            ) {
                Err(()) => outcome matches Err(Error::Codec(_)) && final(entries)@ == old(entries)@,
                Ok(None) => outcome matches Ok(Turn::Ready(None)) && final(entries)@ == old(
                    entries,
                )@,
                Ok(Some(model)) => {
                    &&& outcome matches Ok(Turn::Ready(Some(cursor)))
                    &&& cursor.field() == next_address(old(entries)@)
                    &&& final(entries)@.len() == old(entries)@.len() + 1
                    &&& final(entries)@.subrange(0, old(entries)@.len() as int) == old(entries)@
                    &&& final(entries)@.last() matches Some(cell)
                    &&& cell.value@ == model
                    &&& cell.value.header.dir == names_directory(model.header.name)
                    &&& cell.owner is None
                    &&& !cell.poisoned
                },
            },
        },
{
    proof {
        lemma_borrow_then_drop(heap@, obj.field(), thread);
    }
    match get_field(heap, obj, thread) {
        Err(e) => Err(e),
        Ok(Turn::Wait) => Ok(Turn::Wait),
        Ok(Turn::Ready(reference)) => {
            let answer = match deref(heap, obj, thread) {
                Some(reader) => reader.open_entry(index, name, raw),
                None => Err(Error::ClosedHandle),
            };
            drop_reference(heap, obj, reference);
            match answer {
                Err(e) => Err(e),
                Ok(None) => Ok(Turn::Ready(None)),
                Ok(Some(entry)) => {
                    let mut cursor = HostObject::new();
                    let _ = set_field(entries, &mut cursor, entry);
                    assert(entries@.subrange(0, old(entries)@.len() as int) =~= old(entries)@);
                    Ok(Turn::Ready(Some(cursor)))
                },
            }
        },
    }
}

} // verus!
