//! The entry cursor: what an archive tells of one of its entries.
//!
//! An entry is read out of its archive when it is opened and then stands on
//! its own behind a handle. Content that cannot be read does not keep the
//! entry from being opened: it is reported when the content is asked for.

#![allow(non_snake_case)]

use vstd::prelude::*;
use crate::codec::{EntryHeader, EntryStat, Failure, HeaderModel, Timestamp};
use crate::error::{Error, Misuse};
use crate::interop::{
    deref, drop_reference, field_after_release, get_field, lemma_borrow_then_drop, reached,
    release_waits, released, take_field, Heap, HostObject,
};
use crate::lock::Turn;

verus! {

/// One entry of an archive, with its content.
#[derive(Debug)]
pub struct ZipEntry {
    /// The place of the entry in the archive.
    pub index: usize,
    /// Name, comment and the like.
    pub header: EntryHeader,
    /// Sizes, checksum and time stamp.
    pub stat: EntryStat,
    /// The content: unpacked, or as stored for an entry that was opened
    /// raw. Where it could not be read, the cause in words.
    pub content: Result<Vec<u8>, String>,
}

/// A `ZipEntry` as contracts see it.
pub ghost struct EntryModel {
    pub index: nat,
    pub header: HeaderModel,
    pub stat: EntryStat,
    /// The content, where it could be read.
    pub data: Option<Seq<u8>>,
}

impl View for ZipEntry {
    type V = EntryModel;

    open spec fn view(&self) -> EntryModel {
        EntryModel {
            index: self.index as nat,
            header: self.header@,
            stat: self.stat,
            data: match self.content {
                Ok(data) => Some(data@),
                Err(_) => None,
            },
        }
    }
}

/// A copy of `bytes`.
pub fn copy_bytes(bytes: &Vec<u8>) -> (copy: Vec<u8>)
    ensures
        copy@ == bytes@,
{
    let mut copy: Vec<u8> = Vec::new();
    let mut i: usize = 0;
    while i < bytes.len()
        invariant
            i <= bytes@.len(),
            copy@ == bytes@.subrange(0, i as int),
        decreases bytes@.len() - i,
    {
        copy.push(bytes[i]);
        assert(copy@ =~= bytes@.subrange(0, i + 1));
        i += 1;
    }
    assert(copy@ =~= bytes@);
    copy
}

/// The number by which callers know a compression method, from the number
/// that the archive format gives it; -1 for a method without one.
pub open spec fn compression_id(method: u16) -> i64 {
    if method == 0 {
        0
    } else if method == 8 {
        1
    } else if method == 12 {
        2
    } else if method == 93 {
        3
    } else {
        -1i64
    }
}

/// The six arguments by which the host computes the time of `modified`:
/// years since 1900, the month counted from zero, day, hour, and minute and
/// second each one less than recorded.
pub open spec fn utc_arguments(modified: Timestamp) -> Seq<i32> {
    seq![
        (modified.year - 1900) as i32,
        (modified.month - 1) as i32,
        modified.day as i32,
        modified.hour as i32,
        (modified.minute - 1) as i32,
        (modified.second - 1) as i32,
    ]
}

impl ZipEntry {
    /// A copy of the entry.
    pub fn duplicate(&self) -> (copy: ZipEntry)
        ensures
            copy@ == self@,
    {
        ZipEntry {
            index: self.index,
            header: EntryHeader {
                name: self.header.name.clone(),
                comment: self.header.comment.clone(),
                extra: copy_bytes(&self.header.extra),
                dir: self.header.dir,
                mode: self.header.mode,
                method: self.header.method,
            },
            stat: self.stat,
            content: match &self.content {
                Ok(data) => Ok(copy_bytes(data)),
                Err(cause) => Err(cause.clone()),
            },
        }
    }

    /// The content of the entry. A directory has none to give, and content
    /// that could not be read is reported with the cause that the codec gave.
    pub fn read_content(&self) -> (bytes: Result<Vec<u8>, Error>)
        ensures
            self.header.dir ==> bytes == Err::<Vec<u8>, Error>(
                Error::InvalidOperation(Misuse::ReadDirectory),
            ),
            !self.header.dir ==> match self@.data {
                Some(content) => bytes matches Ok(data) && data@ == content,
                None => bytes matches Err(Error::Codec(Failure::Io(_))),
            },
    {
        if self.header.dir {
            Err(Error::InvalidOperation(Misuse::ReadDirectory))
        } else {
            match &self.content {
                Ok(data) => Ok(copy_bytes(data)),
                Err(cause) => Err(Error::Codec(Failure::Io(cause.clone()))),
            }
        }
    }

    /// The number by which callers know the compression method of the entry.
    pub fn compression(&self) -> (id: i64)
        ensures
            id == compression_id(self.header.method),
    {
        let method: u16 = self.header.method;
        if method == 0 {
            0
        } else if method == 8 {
            1
        } else if method == 12 {
            2
        } else if method == 93 {
            3
        } else {
            -1
        }
    }

    /// The arguments by which the host computes the time of the entry.
    pub fn modified_arguments(&self) -> (arguments: [i32; 6])
        ensures
            arguments@ == utc_arguments(self.stat.modified),
    {
        let t = self.stat.modified;
        let arguments: [i32; 6] = [
            t.year as i32 - 1900,
            t.month as i32 - 1,
            t.day as i32,
            t.hour as i32,
            t.minute as i32 - 1,
            t.second as i32 - 1,
        ];
        assert(arguments@ =~= utc_arguments(self.stat.modified));
        arguments
    }
}

/// Borrows the entry behind the field of `obj` and hands out a copy of it.
///
/// The borrow is dropped before the copy is returned, so the table is left
/// as it was found.
pub fn obtain_entry(heap: &mut Heap<ZipEntry>, obj: &HostObject, thread: u64) -> (outcome: Result<
    Turn<ZipEntry>,
    Error,
>)
    ensures
        final(heap)@ == old(heap)@,
        match reached(old(heap)@, obj.field(), thread) {
            Err(e) => outcome == Err::<Turn<ZipEntry>, Error>(e),
            Ok(Turn::Wait) => outcome == Ok::<Turn<ZipEntry>, Error>(Turn::Wait),
            Ok(Turn::Ready(entry)) => outcome matches Ok(Turn::Ready(copy)) && copy@ == entry@,
        },
{
    proof {
        lemma_borrow_then_drop(heap@, obj.field(), thread);
    }
    match get_field(heap, obj, thread) {
        Err(e) => Err(e),
        Ok(Turn::Wait) => Ok(Turn::Wait),
        Ok(Turn::Ready(reference)) => {
            let copy = match deref(heap, obj, thread) {
                Some(entry) => Ok(Turn::Ready(entry.duplicate())),
                None => Err(Error::ClosedHandle),
            };
            drop_reference(heap, obj, reference);
            copy
        },
    }
}

/// The place of the entry in its archive.
pub fn getIndex(heap: &mut Heap<ZipEntry>, obj: &HostObject, thread: u64) -> (outcome: Result<
    Turn<usize>,
    Error,
>)
    ensures
        final(heap)@ == old(heap)@,
        match reached(old(heap)@, obj.field(), thread) {
            Err(e) => outcome == Err::<Turn<usize>, Error>(e),
            Ok(Turn::Wait) => outcome == Ok::<Turn<usize>, Error>(Turn::Wait),
            Ok(Turn::Ready(entry)) => outcome == Ok::<Turn<usize>, Error>(Turn::Ready(entry.index)),
        },
{
    match obtain_entry(heap, obj, thread) {
        Err(e) => Err(e),
        Ok(Turn::Wait) => Ok(Turn::Wait),
        Ok(Turn::Ready(entry)) => Ok(Turn::Ready(entry.index)),
    }
}

/// The name of the entry.
pub fn getName(heap: &mut Heap<ZipEntry>, obj: &HostObject, thread: u64) -> (outcome: Result<
    Turn<String>,
    Error,
>)
    ensures
        final(heap)@ == old(heap)@,
        match reached(old(heap)@, obj.field(), thread) {
            Err(e) => outcome == Err::<Turn<String>, Error>(e),
            Ok(Turn::Wait) => outcome == Ok::<Turn<String>, Error>(Turn::Wait),
            Ok(Turn::Ready(entry)) => outcome matches Ok(Turn::Ready(name)) && name@
                == entry@.header.name,
        },
{
    match obtain_entry(heap, obj, thread) {
        Err(e) => Err(e),
        Ok(Turn::Wait) => Ok(Turn::Wait),
        Ok(Turn::Ready(entry)) => Ok(Turn::Ready(entry.header.name)),
    }
}

/// The comment of the entry.
pub fn getComment(heap: &mut Heap<ZipEntry>, obj: &HostObject, thread: u64) -> (outcome: Result<
    Turn<String>,
    Error,
>)
    ensures
        final(heap)@ == old(heap)@,
        match reached(old(heap)@, obj.field(), thread) {
            Err(e) => outcome == Err::<Turn<String>, Error>(e),
            Ok(Turn::Wait) => outcome == Ok::<Turn<String>, Error>(Turn::Wait),
            Ok(Turn::Ready(entry)) => outcome matches Ok(Turn::Ready(comment)) && comment@
                == entry@.header.comment,
        },
{
    match obtain_entry(heap, obj, thread) {
        Err(e) => Err(e),
        Ok(Turn::Wait) => Ok(Turn::Wait),
        Ok(Turn::Ready(entry)) => Ok(Turn::Ready(entry.header.comment)),
    }
}

/// The arguments by which the host computes when the entry was last
/// modified: see `utc_arguments`.
pub fn getLastModified(heap: &mut Heap<ZipEntry>, obj: &HostObject, thread: u64) -> (outcome: Result<
    Turn<[i32; 6]>,
    Error,
>)
    ensures
        final(heap)@ == old(heap)@,
        match reached(old(heap)@, obj.field(), thread) {
            Err(e) => outcome == Err::<Turn<[i32; 6]>, Error>(e),
            Ok(Turn::Wait) => outcome == Ok::<Turn<[i32; 6]>, Error>(Turn::Wait),
            Ok(Turn::Ready(entry)) => outcome matches Ok(Turn::Ready(arguments)) && arguments@
                == utc_arguments(entry.stat.modified),
        },
{
    match obtain_entry(heap, obj, thread) {
        Err(e) => Err(e),
        Ok(Turn::Wait) => Ok(Turn::Wait),
        Ok(Turn::Ready(entry)) => Ok(Turn::Ready(entry.modified_arguments())),
    }
}

/// Whether the entry stands for a directory.
pub fn isDir(heap: &mut Heap<ZipEntry>, obj: &HostObject, thread: u64) -> (outcome: Result<
    Turn<bool>,
    Error,
>)
    ensures
        final(heap)@ == old(heap)@,
        match reached(old(heap)@, obj.field(), thread) {
            Err(e) => outcome == Err::<Turn<bool>, Error>(e),
            Ok(Turn::Wait) => outcome == Ok::<Turn<bool>, Error>(Turn::Wait),
            Ok(Turn::Ready(entry)) => outcome == Ok::<Turn<bool>, Error>(
                Turn::Ready(entry.header.dir),
            ),
        },
{
    match obtain_entry(heap, obj, thread) {
        Err(e) => Err(e),
        Ok(Turn::Wait) => Ok(Turn::Wait),
        Ok(Turn::Ready(entry)) => Ok(Turn::Ready(entry.header.dir)),
    }
}

/// The unix mode of the entry, zero where the archive records none.
pub fn getMode(heap: &mut Heap<ZipEntry>, obj: &HostObject, thread: u64) -> (outcome: Result<
    Turn<u32>,
    Error,
>)
    ensures
        final(heap)@ == old(heap)@,
        match reached(old(heap)@, obj.field(), thread) {
            Err(e) => outcome == Err::<Turn<u32>, Error>(e),
            Ok(Turn::Wait) => outcome == Ok::<Turn<u32>, Error>(Turn::Wait),
            Ok(Turn::Ready(entry)) => outcome == Ok::<Turn<u32>, Error>(
                Turn::Ready(
                    match entry.header.mode {
                        Some(mode) => mode,
                        None => 0,
                    },
                ),
            ),
        },
{
    match obtain_entry(heap, obj, thread) {
        Err(e) => Err(e),
        Ok(Turn::Wait) => Ok(Turn::Wait),
        Ok(Turn::Ready(entry)) => Ok(
            Turn::Ready(
                match entry.header.mode {
                    Some(mode) => mode,
                    None => 0,
                },
            ),
        ),
    }
}

/// The checksum that the archive records of the entry.
pub fn getCRC32(heap: &mut Heap<ZipEntry>, obj: &HostObject, thread: u64) -> (outcome: Result<
    Turn<u32>,
    Error,
>)
    ensures
        final(heap)@ == old(heap)@,
        match reached(old(heap)@, obj.field(), thread) {
            Err(e) => outcome == Err::<Turn<u32>, Error>(e),
            Ok(Turn::Wait) => outcome == Ok::<Turn<u32>, Error>(Turn::Wait),
            Ok(Turn::Ready(entry)) => outcome == Ok::<Turn<u32>, Error>(
                Turn::Ready(entry.stat.crc32),
            ),
        },
{
    match obtain_entry(heap, obj, thread) {
        Err(e) => Err(e),
        Ok(Turn::Wait) => Ok(Turn::Wait),
        Ok(Turn::Ready(entry)) => Ok(Turn::Ready(entry.stat.crc32)),
    }
}

/// The extra data that the archive records of the entry.
pub fn getExtraData(heap: &mut Heap<ZipEntry>, obj: &HostObject, thread: u64) -> (outcome: Result<
    Turn<Vec<u8>>,
    Error,
>)
    ensures
        final(heap)@ == old(heap)@,
        match reached(old(heap)@, obj.field(), thread) {
            Err(e) => outcome == Err::<Turn<Vec<u8>>, Error>(e),
            Ok(Turn::Wait) => outcome == Ok::<Turn<Vec<u8>>, Error>(Turn::Wait),
            Ok(Turn::Ready(entry)) => outcome matches Ok(Turn::Ready(extra)) && extra@
                == entry@.header.extra,
        },
{
    match obtain_entry(heap, obj, thread) {
        Err(e) => Err(e),
        Ok(Turn::Wait) => Ok(Turn::Wait),
        Ok(Turn::Ready(entry)) => Ok(Turn::Ready(entry.header.extra)),
    }
}

/// The size of the content of the entry once unpacked.
pub fn getSize(heap: &mut Heap<ZipEntry>, obj: &HostObject, thread: u64) -> (outcome: Result<
    Turn<u64>,
    Error,
>)
    ensures
        final(heap)@ == old(heap)@,
        match reached(old(heap)@, obj.field(), thread) {
            Err(e) => outcome == Err::<Turn<u64>, Error>(e),
            Ok(Turn::Wait) => outcome == Ok::<Turn<u64>, Error>(Turn::Wait),
            Ok(Turn::Ready(entry)) => outcome == Ok::<Turn<u64>, Error>(Turn::Ready(entry.stat.size)),
        },
{
    match obtain_entry(heap, obj, thread) {
        Err(e) => Err(e),
        Ok(Turn::Wait) => Ok(Turn::Wait),
        Ok(Turn::Ready(entry)) => Ok(Turn::Ready(entry.stat.size)),
    }
}

/// The size of the content of the entry as the archive stores it.
pub fn getCompressedSize(heap: &mut Heap<ZipEntry>, obj: &HostObject, thread: u64) -> (outcome: Result<
    Turn<u64>,
    Error,
>)
    ensures
        final(heap)@ == old(heap)@,
        match reached(old(heap)@, obj.field(), thread) {
            Err(e) => outcome == Err::<Turn<u64>, Error>(e),
            Ok(Turn::Wait) => outcome == Ok::<Turn<u64>, Error>(Turn::Wait),
            Ok(Turn::Ready(entry)) => outcome == Ok::<Turn<u64>, Error>(
                Turn::Ready(entry.stat.compressed_size),
            ),
        },
{
    match obtain_entry(heap, obj, thread) {
        Err(e) => Err(e),
        Ok(Turn::Wait) => Ok(Turn::Wait),
        Ok(Turn::Ready(entry)) => Ok(Turn::Ready(entry.stat.compressed_size)),
    }
}

/// The number by which callers know the compression method of the entry:
/// see `compression_id`.
pub fn _getCompression(heap: &mut Heap<ZipEntry>, obj: &HostObject, thread: u64) -> (outcome: Result<
    Turn<i64>,
    Error,
>)
    ensures
        final(heap)@ == old(heap)@,
        match reached(old(heap)@, obj.field(), thread) {
            Err(e) => outcome == Err::<Turn<i64>, Error>(e),
            Ok(Turn::Wait) => outcome == Ok::<Turn<i64>, Error>(Turn::Wait),
            Ok(Turn::Ready(entry)) => outcome == Ok::<Turn<i64>, Error>(
                Turn::Ready(compression_id(entry.header.method)),
            ),
        },
{
    match obtain_entry(heap, obj, thread) {
        Err(e) => Err(e),
        Ok(Turn::Wait) => Ok(Turn::Wait),
        Ok(Turn::Ready(entry)) => Ok(Turn::Ready(entry.compression())),
    }
}

/// Where in the archive the content of the entry starts.
pub fn getDataOffset(heap: &mut Heap<ZipEntry>, obj: &HostObject, thread: u64) -> (outcome: Result<
    Turn<u64>,
    Error,
>)
    ensures
        final(heap)@ == old(heap)@,
        match reached(old(heap)@, obj.field(), thread) {
            Err(e) => outcome == Err::<Turn<u64>, Error>(e),
            Ok(Turn::Wait) => outcome == Ok::<Turn<u64>, Error>(Turn::Wait),
            Ok(Turn::Ready(entry)) => outcome == Ok::<Turn<u64>, Error>(
                Turn::Ready(entry.stat.data_start),
            ),
        },
{
    match obtain_entry(heap, obj, thread) {
        Err(e) => Err(e),
        Ok(Turn::Wait) => Ok(Turn::Wait),
        Ok(Turn::Ready(entry)) => Ok(Turn::Ready(entry.stat.data_start)),
    }
}

/// The content of the entry. An entry that stands for a directory refuses.
pub fn read(heap: &mut Heap<ZipEntry>, obj: &HostObject, thread: u64) -> (outcome: Result<
    Turn<Vec<u8>>,
    Error,
>)
    ensures
        final(heap)@ == old(heap)@,
        match reached(old(heap)@, obj.field(), thread) {
            Err(e) => outcome == Err::<Turn<Vec<u8>>, Error>(e),
            Ok(Turn::Wait) => outcome == Ok::<Turn<Vec<u8>>, Error>(Turn::Wait),
            Ok(Turn::Ready(entry)) => if entry.header.dir {
                outcome == Err::<Turn<Vec<u8>>, Error>(Error::InvalidOperation(Misuse::ReadDirectory))
            } else {
                match entry@.data {
                    Some(content) => outcome matches Ok(Turn::Ready(data)) && data@ == content,
                    None => outcome matches Err(Error::Codec(Failure::Io(_))),
                }
            },
        },
{
    match obtain_entry(heap, obj, thread) {
        Err(e) => Err(e),
        Ok(Turn::Wait) => Ok(Turn::Wait),
        Ok(Turn::Ready(entry)) => match entry.read_content() {
            Ok(data) => Ok(Turn::Ready(data)),
            Err(e) => Err(e),
        },
    }
}

/// Releases the entry when the host lets go of its object. Whatever the
/// release reports is dropped: an entry that is closed already, or whose
/// holder failed, is no reason to fail here. The answer is whether the
/// release went through; if not, another thread is inside the entry.
pub fn _finalize(heap: &mut Heap<ZipEntry>, obj: &mut HostObject, thread: u64) -> (done: bool)
    ensures
        done == !release_waits(old(heap)@, old(obj).field(), thread),
        final(heap)@ == released(old(heap)@, old(obj).field(), thread),
        final(obj).field() == field_after_release(old(heap)@, old(obj).field(), thread),
{
    match take_field(heap, obj, thread) {
        Ok(Turn::Wait) => false,
        _ => true,
    }
}

} // verus!
