//! The archive writer: an archive that grows entry by entry.
//!
//! The writer holds the archive as the bytes that closing it would write.
//! Every change first makes sure that the codec can take those bytes up
//! again, then hands them to the codec and keeps what comes back.

#![allow(non_snake_case)]

use vstd::prelude::*;
use crate::codec::{
    appendable, archive_commented, archive_comment, archive_empty, archive_has_name, archive_len,
    archive_reopened, archive_with_aligned_file, archive_with_copy, archive_with_directory,
    archive_with_file, entry_header, failure, modest_extras, texts, zip_comment, zip_commented,
    zip_empty, zip_has_name, zip_header, zip_len, zip_reopened, zip_with_aligned_file,
    zip_with_copy, zip_with_directory, zip_with_file, Failure, EXTRA_LIMIT,
};
use crate::error::{Error, Misuse};
use crate::interop::{
    borrow_result, borrowed, cell_at, deref, drop_reference, field_after_release, get_field,
    lemma_borrow_then_drop, lemma_store_within_borrow, next_address, reached, release_result,
    released, set_field, store, take_field, value_replaced, Heap, HeapState, HostObject,
};
use crate::lock::{ReentrantReference, Turn};
use crate::zip_entry::copy_bytes;

verus! {

/// An archive to write to.
#[derive(Debug)]
pub struct ZipWriter {
    /// The archive as closing the writer would leave it.
    pub image: Vec<u8>,
    /// Whether the archive lives in memory and not in a file.
    pub in_memory: bool,
}

/// A `ZipWriter` as contracts see it.
pub ghost struct WriterModel {
    pub image: Seq<u8>,
    pub in_memory: bool,
}

impl View for ZipWriter {
    type V = WriterModel;

    open spec fn view(&self) -> WriterModel {
        WriterModel { image: self.image@, in_memory: self.in_memory }
    }
}

/// The number that the archive format gives the compression method that
/// callers know as `compression`; nothing for an id that stands for none.
pub open spec fn method_number(compression: i8) -> Option<u16> {
    if compression == 0 {
        Some(0u16)
    } else if compression == 1 {
        Some(8u16)
    } else if compression == 2 {
        Some(12u16)
    } else if compression == 3 {
        Some(93u16)
    } else {
        None
    }
}

/// What the codec makes of `image`, for an image that it can take up
/// again; nothing for one that it cannot.
pub open spec fn guarded(image: Seq<u8>, made: Option<Seq<u8>>) -> Option<Seq<u8>> {
    if appendable(image) {
        made
    } else {
        None
    }
}

/// The archive that a writer starts from: what the codec makes of the
/// `existing` bytes, or an archive without entries.
pub open spec fn started(existing: Option<Seq<u8>>) -> Option<Seq<u8>> {
    match existing {
        Some(bytes) => guarded(bytes, zip_reopened(bytes)),
        None => zip_empty(Seq::<u8>::empty()),
    }
}

/// `image` with `comment` for its comment.
pub open spec fn commented(image: Seq<u8>, comment: Seq<u8>) -> Option<Seq<u8>> {
    guarded(image, zip_commented(image, comment))
}

/// `image` with one more file; the data is aligned where `alignment` is not zero.
pub open spec fn with_entry(image: Seq<u8>, path: Seq<char>, data: Seq<u8>, method: u16, alignment: u16) -> Option<
    Seq<u8>,
> {
    guarded(
        image,
        if alignment > 0 {
            zip_with_aligned_file(image, path, data, method, alignment)
        } else {
            zip_with_file(image, path, data, method)
        },
    )
}

/// `image` with one more directory.
pub open spec fn with_directory(image: Seq<u8>, path: Seq<char>) -> Option<Seq<u8>> {
    guarded(image, zip_with_directory(image, path))
}

/// An archive with the comment of `source` and those of its first `upto`
/// entries whose name is not among `names`, each copied as it is stored.
pub open spec fn copied(source: Seq<u8>, names: Seq<Seq<char>>, upto: int) -> Option<Seq<u8>>
    decreases upto,
{
    if upto <= 0 {
        match zip_comment(source) {
            Some(comment) => zip_empty(comment),
            None => None,
        }
    } else {
        match (copied(source, names, upto - 1), zip_header(source, upto - 1)) {
            (Some(dest), Some(header)) => if names.contains(header.name) {
                Some(dest)
            } else {
                guarded(dest, zip_with_copy(dest, source, upto - 1))
            },
            _ => None,
        }
    }
}

/// What is left of `image` once the entries called by one of `names` are gone.
pub open spec fn without(image: Seq<u8>, names: Seq<Seq<char>>) -> Option<Seq<u8>> {
    match zip_len(image) {
        Some(count) => copied(image, names, count as int),
        None => None,
    }
}

/// What asking the codec for each of some names comes to.
pub ghost enum Sought {
    /// The codec knows every name.
    AllKnown,
    /// The first name that it did not answer with yes, it answered with no.
    Missing,
    /// The codec failed on the first name that it did not answer with yes.
    Failed,
}

/// What asking the codec for the first `upto` of `names`, in their order,
/// comes to.
pub open spec fn sought(image: Seq<u8>, names: Seq<Seq<char>>, upto: int) -> Sought
    decreases upto,
{
    if upto <= 0 {
        Sought::AllKnown
    } else {
        match sought(image, names, upto - 1) {
            Sought::AllKnown => match zip_has_name(image, names[upto - 1]) {
                Some(true) => Sought::AllKnown,
                Some(false) => Sought::Missing,
                None => Sought::Failed,
            },
            earlier => earlier,
        }
    }
}

/// What deleting the entries called by one of `names` comes to.
pub ghost enum Deletion {
    /// Every name was known and the archive was built anew: this is it.
    Done(Seq<u8>),
    /// A name is the name of no entry.
    Missing,
    /// The codec failed.
    Failed,
}

/// What deleting the entries of `image` called by one of `names` comes to.
pub open spec fn deletion(image: Seq<u8>, names: Seq<Seq<char>>) -> Deletion {
    match sought(image, names, names.len() as int) {
        Sought::Failed => Deletion::Failed,
        Sought::Missing => Deletion::Missing,
        Sought::AllKnown => match without(image, names) {
            Some(left) => Deletion::Done(left),
            None => Deletion::Failed,
        },
    }
}

/// What a writer hands out when it is released for its bytes.
#[derive(Debug)]
pub struct Detached {
    /// What the caller is answered: the bytes, or why it gets none.
    pub answer: Result<Vec<u8>, Error>,
    /// The archive that belongs into the writer's file, for a writer that
    /// lives in one.
    pub to_file: Option<Vec<u8>>,
}

/// What `writer` hands out when it is released for its bytes: a writer in
/// memory gives them to the caller, a writer on a file refuses them to the
/// caller and gives them for its file.
pub open spec fn detached(writer: ZipWriter) -> Detached {
    if writer.in_memory {
        Detached { answer: Ok(writer.image), to_file: None }
    } else {
        Detached {
            answer: Err(Error::InvalidOperation(Misuse::NotInMemory)),
            to_file: Some(writer.image),
        }
    }
}

/// Once a name was not known, asking for further names changes nothing.
proof fn lemma_sought_stays(image: Seq<u8>, names: Seq<Seq<char>>, stopped: int, upto: int)
    requires
        stopped <= upto,
        sought(image, names, stopped) != Sought::AllKnown,
    ensures
        sought(image, names, upto) == sought(image, names, stopped),
    decreases upto - stopped,
{
    if stopped < upto {
        lemma_sought_stays(image, names, stopped, upto - 1);
    }
}

/// Once copying has failed it stays failed, however many entries follow.
proof fn lemma_copied_stays_failed(source: Seq<u8>, names: Seq<Seq<char>>, failed: int, upto: int)
    requires
        failed <= upto,
        copied(source, names, failed) is None,
    ensures
        copied(source, names, upto) is None,
    decreases upto - failed,
{
    if failed < upto {
        lemma_copied_stays_failed(source, names, failed, upto - 1);
    }
}

/// Finds out whether the codec can take `bytes` up again and write them
/// back, and refuses them otherwise: the bytes must be an archive, the
/// codec must read the header of every entry, and no entry may carry more
/// extra data than `EXTRA_LIMIT`.
pub fn check_appendable(bytes: &Vec<u8>) -> (checked: Result<(), Error>)
    ensures
        checked is Ok == appendable(bytes@),
        checked matches Err(e) ==> e is Codec,
{
    let count = match archive_len(bytes) {
        Ok(n) => n,
        Err(e) => {
            return Err(Error::Codec(failure(e)));
        },
    };
    let mut i: usize = 0;
    while i < count
        invariant
            i <= count,
            zip_len(bytes@) == Some(count as nat),
            modest_extras(bytes@, i as int),
        decreases count - i,
    {
        match entry_header(bytes, i) {
            Err(e) => {
                assert(zip_header(bytes@, i as int) is None);
                return Err(Error::Codec(failure(e)));
            },
            Ok(header) => {
                if header.extra.len() > EXTRA_LIMIT {
                    assert(zip_header(bytes@, i as int).unwrap().extra.len() > EXTRA_LIMIT);
                    return Err(Error::Codec(Failure::OversizedExtra));
                }
            },
        }
        i += 1;
    }
    Ok(())
}

/// Whether `name` is among `names`.
pub fn contains_name(names: &Vec<String>, name: &String) -> (found: bool)
    ensures
        found == texts(names@).contains(name@),
{
    let mut i: usize = 0;
    while i < names.len()
        invariant
            i <= names@.len(),
            forall|j: int| 0 <= j < i ==> texts(names@)[j] != name@,
        decreases names@.len() - i,
    {
        if names[i] == *name {
            assert(texts(names@)[i as int] == name@);
            return true;
        }
        i += 1;
    }
    false
}

impl ZipWriter {
    /// A writer that starts from the `existing` bytes, or from nothing.
    pub fn create(existing: Option<Vec<u8>>, in_memory: bool) -> (writer: Result<ZipWriter, Error>)
        ensures
            match started(
                match existing {
                    Some(bytes) => Some(bytes@),
                    None => None,
                },
            ) {
                Some(image) => writer matches Ok(w) && w@ == (WriterModel { image, in_memory }),
                None => writer matches Err(Error::Codec(_)),
            },
    {
        let made = match existing {
            Some(bytes) => {
                match check_appendable(&bytes) {
                    Ok(()) => {},
                    Err(e) => {
                        return Err(e);
                    },
                }
                archive_reopened(&bytes)
            },
            None => archive_empty(Vec::new()),
        };
        match made {
            Ok(image) => Ok(ZipWriter { image, in_memory }),
            Err(e) => Err(Error::Codec(failure(e))),
        }
    }

    /// A copy of the writer.
    pub fn duplicate(&self) -> (copy: ZipWriter)
        ensures
            copy@ == self@,
    {
        ZipWriter { image: copy_bytes(&self.image), in_memory: self.in_memory }
    }

    /// Sets the comment of the archive.
    pub fn set_comment(&mut self, comment: Vec<u8>) -> (done: Result<(), Error>)
        ensures
            final(self).in_memory == old(self).in_memory,
            match commented(old(self).image@, comment@) {
                Some(image) => done is Ok && final(self).image@ == image,
                None => done matches Err(Error::Codec(_)) && final(self).image@ == old(self).image@,
            },
    {
        match check_appendable(&self.image) {
            Ok(()) => {},
            Err(e) => {
                return Err(e);
            },
        }
        match archive_commented(&self.image, comment) {
            Ok(image) => {
                self.image = image;
                Ok(())
            },
            Err(e) => Err(Error::Codec(failure(e))),
        }
    }

    /// Adds the file `path` with the content `data`.
    ///
    /// An id that stands for no compression method is refused before the
    /// codec is asked. The data is aligned where `alignment` is not zero.
    pub fn write_entry(&mut self, path: &str, data: &Vec<u8>, compression: i8, alignment: u16) -> (done:
        Result<(), Error>)
        ensures
            final(self).in_memory == old(self).in_memory,
            match method_number(compression) {
                None => done == Err::<(), Error>(Error::InvalidOperation(Misuse::InvalidCompression))
                    && final(self).image@ == old(self).image@,
                Some(method) => match with_entry(old(self).image@, path@, data@, method, alignment) {
                    Some(image) => done is Ok && final(self).image@ == image,
                    None => done matches Err(Error::Codec(_)) && final(self).image@ == old(
                        self,
                    ).image@,
                },
            },
    {
        let method: u16 = if compression == 0 {
            0
        } else if compression == 1 {
            8
        } else if compression == 2 {
            12
        } else if compression == 3 {
            93
        } else {
            return Err(Error::InvalidOperation(Misuse::InvalidCompression));
        };
        match check_appendable(&self.image) {
            Ok(()) => {},
            Err(e) => {
                return Err(e);
            },
        }
        let made = if alignment > 0 {
            archive_with_aligned_file(&self.image, path, data, method, alignment)
        } else {
            archive_with_file(&self.image, path, data, method)
        };
        match made {
            Ok(image) => {
                self.image = image;
                Ok(())
            },
            Err(e) => Err(Error::Codec(failure(e))),
        }
    }

    /// Adds the directory `path`.
    pub fn write_dir(&mut self, path: &str) -> (done: Result<(), Error>)
        ensures
            final(self).in_memory == old(self).in_memory,
            match with_directory(old(self).image@, path@) {
                Some(image) => done is Ok && final(self).image@ == image,
                None => done matches Err(Error::Codec(_)) && final(self).image@ == old(self).image@,
            },
    {
        match check_appendable(&self.image) {
            Ok(()) => {},
            Err(e) => {
                return Err(e);
            },
        }
        match archive_with_directory(&self.image, path) {
            Ok(image) => {
                self.image = image;
                Ok(())
            },
            Err(e) => Err(Error::Codec(failure(e))),
        }
    }

    /// Deletes the entries called by one of `names`.
    ///
    /// The codec is asked for every name first. Where it does not know one,
    /// or fails, nothing is deleted and the archive is left as it was. Else
    /// the archive is built anew from the entries that stay, each copied as
    /// it is stored; where the codec fails on the way, the archive is left
    /// as it was, too. The codec copies an entry without the extra data of
    /// its header, so data that was aligned need not be aligned afterwards.
    pub fn delete_entries(&mut self, names: &Vec<String>) -> (done: Result<(), Error>)
        ensures
            final(self).in_memory == old(self).in_memory,
            match deletion(old(self).image@, texts(names@)) {
                Deletion::Done(image) => done is Ok && final(self).image@ == image,
                Deletion::Missing => done == Err::<(), Error>(
                    Error::InvalidOperation(Misuse::MissingEntry),
                ) && final(self).image@ == old(self).image@,
                Deletion::Failed => done matches Err(Error::Codec(_)) && final(self).image@ == old(
                    self,
                ).image@,
            },
    {
        let ghost source = self.image@;
        let ghost gone = texts(names@);
        let mut k: usize = 0;
        while k < names.len()
            invariant
                k <= names@.len(),
                self.image@ == source,
                gone == texts(names@),
                sought(source, gone, k as int) == Sought::AllKnown,
            decreases names@.len() - k,
        {
            assert(gone[k as int] == names@[k as int]@);
            match archive_has_name(&self.image, names[k].as_str()) {
                Ok(true) => {},
                Ok(false) => {
                    proof {
                        lemma_sought_stays(source, gone, k + 1, names@.len() as int);
                    }
                    return Err(Error::InvalidOperation(Misuse::MissingEntry));
                },
                Err(e) => {
                    proof {
                        lemma_sought_stays(source, gone, k + 1, names@.len() as int);
                    }
                    return Err(Error::Codec(failure(e)));
                },
            }
            k += 1;
        }
        let count = match archive_len(&self.image) {
            Ok(n) => n,
            Err(e) => {
                return Err(Error::Codec(failure(e)));
            },
        };
        let comment = match archive_comment(&self.image) {
            Ok(c) => c,
            Err(e) => {
                proof {
                    lemma_copied_stays_failed(source, gone, 0, count as int);
                }
                return Err(Error::Codec(failure(e)));
            },
        };
        let mut out = match archive_empty(comment) {
            Ok(made) => made,
            Err(e) => {
                proof {
                    lemma_copied_stays_failed(source, gone, 0, count as int);
                }
                return Err(Error::Codec(failure(e)));
            },
        };
        let mut i: usize = 0;
        while i < count
            invariant
                i <= count,
                self.image@ == source,
                source == old(self).image@,
                self.in_memory == old(self).in_memory,
                gone == texts(names@),
                zip_len(source) == Some(count as nat),
                sought(source, gone, gone.len() as int) == Sought::AllKnown,
                copied(source, gone, i as int) == Some(out@),
            decreases count - i,
        {
            let header = match entry_header(&self.image, i) {
                Ok(h) => h,
                Err(e) => {
                    proof {
                        assert(copied(source, gone, i + 1) is None);
                        lemma_copied_stays_failed(source, gone, i + 1, count as int);
                    }
                    return Err(Error::Codec(failure(e)));
                },
            };
            if !contains_name(names, &header.name) {
                let made = match check_appendable(&out) {
                    Ok(()) => archive_with_copy(&out, &self.image, i),
                    Err(e) => {
                        proof {
                            assert(copied(source, gone, i + 1) is None);
                            lemma_copied_stays_failed(source, gone, i + 1, count as int);
                        }
                        return Err(e);
                    },
                };
                match made {
                    Ok(made) => {
                        out = made;
                    },
                    Err(e) => {
                        proof {
                            assert(copied(source, gone, i + 1) is None);
                            lemma_copied_stays_failed(source, gone, i + 1, count as int);
                        }
                        return Err(Error::Codec(failure(e)));
                    },
                }
            }
            i += 1;
        }
        self.image = out;
        Ok(())
    }

    /// What the writer hands out when it is released for its bytes: see
    /// `detached`.
    pub fn detach(self) -> (parts: Detached)
        ensures
            parts == detached(self),
    {
        if self.in_memory {
            Detached { answer: Ok(self.image), to_file: None }
        } else {
            Detached {
                answer: Err(Error::InvalidOperation(Misuse::NotInMemory)),
                to_file: Some(self.image),
            }
        }
    }
}

/// Borrows the writer behind the field of `obj` and hands out a copy of it,
/// together with the reference that keeps the borrow.
fn check_out(heap: &mut Heap<ZipWriter>, obj: &HostObject, thread: u64) -> (outcome: Result<
    Turn<(ReentrantReference, ZipWriter)>,
    Error,
>)
    ensures
        final(heap)@ == borrowed(old(heap)@, obj.field(), thread),
        match reached(old(heap)@, obj.field(), thread) {
            Err(e) => outcome == Err::<Turn<(ReentrantReference, ZipWriter)>, Error>(e),
            Ok(Turn::Wait) => outcome matches Ok(Turn::Wait),
            Ok(Turn::Ready(writer)) => outcome matches Ok(Turn::Ready(pair)) && pair.1@ == writer@
                && borrow_result(old(heap)@, obj.field(), thread) == Ok::<
                Turn<ReentrantReference>,
                Error,
            >(Turn::Ready(pair.0)),
        },
{
    proof {
        lemma_borrow_then_drop(heap@, obj.field(), thread);
    }
    match get_field(heap, obj, thread) {
        Err(e) => Err(e),
        Ok(Turn::Wait) => Ok(Turn::Wait),
        Ok(Turn::Ready(reference)) => match deref(heap, obj, thread) {
            Some(writer) => Ok(Turn::Ready((reference, writer.duplicate()))),
            None => Err(Error::ClosedHandle),
        },
    }
}

/// What a change of the writer behind `ptr` leaves in the table: the writer
/// with the new `image` where there is one, else everything as it was.
pub open spec fn changed(
    before: HeapState<ZipWriter>,
    after: HeapState<ZipWriter>,
    ptr: u64,
    image: Option<Seq<u8>>,
) -> bool {
    match image {
        None => after == before,
        Some(image) => {
            &&& value_replaced(before, after, ptr)
            &&& cell_at(after, ptr).unwrap().value.image@ == image
            &&& cell_at(after, ptr).unwrap().value.in_memory == cell_at(
                before,
                ptr,
            ).unwrap().value.in_memory
        },
    }
}

/// Ends a borrow that `check_out` began: stores `writer` where `keep` says
/// so, and drops the reference.
fn check_in(
    heap: &mut Heap<ZipWriter>,
    obj: &HostObject,
    thread: u64,
    reference: ReentrantReference,
    writer: ZipWriter,
    keep: bool,
    Ghost(before): Ghost<HeapState<ZipWriter>>,
)
    requires
        borrow_result(before, obj.field(), thread) == Ok::<Turn<ReentrantReference>, Error>(
            Turn::Ready(reference),
        ),
        old(heap)@ == borrowed(before, obj.field(), thread),
        writer.in_memory == cell_at(before, obj.field()).unwrap().value.in_memory,
    ensures
        changed(
            before,
            final(heap)@,
            obj.field(),
            if keep {
                Some(writer.image@)
            } else {
                None
            },
        ),
{
    proof {
        lemma_borrow_then_drop(before, obj.field(), thread);
        lemma_store_within_borrow(before, obj.field(), thread, writer);
    }
    if keep {
        let _ = store(heap, obj, thread, writer);
    }
    drop_reference(heap, obj, reference);
}

/// Makes a writer and installs it in the field of `obj`.
///
/// The writer starts from the `existing` bytes, or from nothing where none
/// are given. Bytes that the codec refuses are reported, and nothing is
/// installed.
pub fn open(heap: &mut Heap<ZipWriter>, obj: &mut HostObject, existing: Option<Vec<u8>>, in_memory: bool) -> (done:
    Result<(), Error>)
    ensures
        match started(
            match existing {
                Some(bytes) => Some(bytes@),
                None => None,
            },
        ) {
            Some(image) => {
                &&& done is Ok
                &&& final(obj).field() == next_address(old(heap)@)
                &&& final(heap)@.len() == old(heap)@.len() + 1
                &&& final(heap)@.subrange(0, old(heap)@.len() as int) == old(heap)@
                &&& final(heap)@.last() matches Some(cell)
                &&& cell.value@ == (WriterModel { image, in_memory })
                &&& cell.owner is None
                &&& !cell.poisoned
            },
            None => {
                &&& done matches Err(Error::Codec(_))
                &&& final(heap)@ == old(heap)@
                &&& final(obj).field() == old(obj).field()
            },
        },
{
    match ZipWriter::create(existing, in_memory) {
        Ok(writer) => {
            let done = set_field(heap, obj, writer);
            assert(heap@.subrange(0, old(heap)@.len() as int) =~= old(heap)@);
            done
        },
        Err(e) => Err(e),
    }
}

/// Sets the comment of the archive.
pub fn setComment(heap: &mut Heap<ZipWriter>, obj: &HostObject, thread: u64, bytes: Vec<u8>) -> (outcome:
    Result<Turn<()>, Error>)
    ensures
        match reached(old(heap)@, obj.field(), thread) {
            Err(e) => outcome == Err::<Turn<()>, Error>(e) && final(heap)@ == old(heap)@,
            Ok(Turn::Wait) => outcome matches Ok(Turn::Wait) && final(heap)@ == old(heap)@,
            Ok(Turn::Ready(writer)) => {
                let image = commented(writer.image@, bytes@);
                &&& changed(old(heap)@, final(heap)@, obj.field(), image)
                &&& image is Some ==> (outcome matches Ok(Turn::Ready(_)))
                &&& image is None ==> (outcome matches Err(Error::Codec(_)))
            },
        },
{
    let ghost before = heap@;
    proof {
        lemma_borrow_then_drop(before, obj.field(), thread);
    }
    match check_out(heap, obj, thread) {
        Err(e) => Err(e),
        Ok(Turn::Wait) => Ok(Turn::Wait),
        Ok(Turn::Ready((reference, mut writer))) => {
            let done = writer.set_comment(bytes);
            let keep = done.is_ok();
            check_in(heap, obj, thread, reference, writer, keep, Ghost(before));
            match done {
                Ok(()) => Ok(Turn::Ready(())),
                Err(e) => Err(e),
            }
        },
    }
}

/// Adds the file `path` with the content `bytes`: see `ZipWriter::write_entry`.
pub fn writeEntry(
    heap: &mut Heap<ZipWriter>,
    obj: &HostObject,
    thread: u64,
    path: &str,
    bytes: &Vec<u8>,
    compression: i8,
    alignment: u16,
) -> (outcome: Result<Turn<()>, Error>)
    ensures
        match reached(old(heap)@, obj.field(), thread) {
            Err(e) => outcome == Err::<Turn<()>, Error>(e) && final(heap)@ == old(heap)@,
            Ok(Turn::Wait) => outcome matches Ok(Turn::Wait) && final(heap)@ == old(heap)@,
            Ok(Turn::Ready(writer)) => match method_number(compression) {
                None => outcome == Err::<Turn<()>, Error>(
                    Error::InvalidOperation(Misuse::InvalidCompression),
                ) && final(heap)@ == old(heap)@,
                Some(method) => {
                    let image = with_entry(writer.image@, path@, bytes@, method, alignment);
                    &&& changed(old(heap)@, final(heap)@, obj.field(), image)
                    &&& image is Some ==> (outcome matches Ok(Turn::Ready(_)))
                    &&& image is None ==> (outcome matches Err(Error::Codec(_)))
                },
            },
        },
{
    let ghost before = heap@;
    proof {
        lemma_borrow_then_drop(before, obj.field(), thread);
    }
    match check_out(heap, obj, thread) {
        Err(e) => Err(e),
        Ok(Turn::Wait) => Ok(Turn::Wait),
        Ok(Turn::Ready((reference, mut writer))) => {
            let done = writer.write_entry(path, bytes, compression, alignment);
            let keep = done.is_ok();
            check_in(heap, obj, thread, reference, writer, keep, Ghost(before));
            match done {
                Ok(()) => Ok(Turn::Ready(())),
                Err(e) => Err(e),
            }
        },
    }
}

/// Adds the directory `path`.
pub fn writeDir(heap: &mut Heap<ZipWriter>, obj: &HostObject, thread: u64, path: &str) -> (outcome: Result<
    Turn<()>,
    Error,
>)
    ensures
        match reached(old(heap)@, obj.field(), thread) {
            Err(e) => outcome == Err::<Turn<()>, Error>(e) && final(heap)@ == old(heap)@,
            Ok(Turn::Wait) => outcome matches Ok(Turn::Wait) && final(heap)@ == old(heap)@,
            Ok(Turn::Ready(writer)) => {
                let image = with_directory(writer.image@, path@);
                &&& changed(old(heap)@, final(heap)@, obj.field(), image)
                &&& image is Some ==> (outcome matches Ok(Turn::Ready(_)))
                &&& image is None ==> (outcome matches Err(Error::Codec(_)))
            },
        },
{
    let ghost before = heap@;
    proof {
        lemma_borrow_then_drop(before, obj.field(), thread);
    }
    match check_out(heap, obj, thread) {
        Err(e) => Err(e),
        Ok(Turn::Wait) => Ok(Turn::Wait),
        Ok(Turn::Ready((reference, mut writer))) => {
            let done = writer.write_dir(path);
            let keep = done.is_ok();
            check_in(heap, obj, thread, reference, writer, keep, Ghost(before));
            match done {
                Ok(()) => Ok(Turn::Ready(())),
                Err(e) => Err(e),
            }
        },
    }
}

/// Deletes the entries called by one of `entries`: see
/// `ZipWriter::delete_entries`. A name that no entry has is reported, and
/// so is a failure of the codec; either way the writer stays as it was.
pub fn deleteEntries(heap: &mut Heap<ZipWriter>, obj: &HostObject, thread: u64, entries: &Vec<String>) -> (outcome:
    Result<Turn<()>, Error>)
    ensures
        match reached(old(heap)@, obj.field(), thread) {
            Err(e) => outcome == Err::<Turn<()>, Error>(e) && final(heap)@ == old(heap)@,
            Ok(Turn::Wait) => outcome matches Ok(Turn::Wait) && final(heap)@ == old(heap)@,
            Ok(Turn::Ready(writer)) => match deletion(writer.image@, texts(entries@)) {
                Deletion::Done(image) => outcome matches Ok(Turn::Ready(_)) && changed(
                    old(heap)@,
                    final(heap)@,
                    obj.field(),
                    Some(image),
                ),
                Deletion::Missing => outcome == Err::<Turn<()>, Error>(
                    Error::InvalidOperation(Misuse::MissingEntry),
                ) && final(heap)@ == old(heap)@,
                Deletion::Failed => outcome matches Err(Error::Codec(_)) && final(heap)@ == old(
                    heap,
                )@,
            },
        },
{
    let ghost before = heap@;
    proof {
        lemma_borrow_then_drop(before, obj.field(), thread);
    }
    match check_out(heap, obj, thread) {
        Err(e) => Err(e),
        Ok(Turn::Wait) => Ok(Turn::Wait),
        Ok(Turn::Ready((reference, mut writer))) => {
            let done = writer.delete_entries(entries);
            let keep = done.is_ok();
            check_in(heap, obj, thread, reference, writer, keep, Ghost(before));
            match done {
                Ok(()) => Ok(Turn::Ready(())),
                Err(e) => Err(e),
            }
        },
    }
}

/// Deletes the entry called `path`: `deleteEntries` with one name.
///
/// The archive is built anew from what stays, so the deleted entry leaves
/// no gap behind, whether or not `fill_void` asks for one to be filled.
pub fn deleteEntry(
    heap: &mut Heap<ZipWriter>,
    obj: &HostObject,
    thread: u64,
    path: String,
    fill_void: bool,
) -> (outcome: Result<Turn<()>, Error>)
    ensures
        match reached(old(heap)@, obj.field(), thread) {
            Err(e) => outcome == Err::<Turn<()>, Error>(e) && final(heap)@ == old(heap)@,
            Ok(Turn::Wait) => outcome matches Ok(Turn::Wait) && final(heap)@ == old(heap)@,
            Ok(Turn::Ready(writer)) => match deletion(writer.image@, seq![path@]) {
                Deletion::Done(image) => outcome matches Ok(Turn::Ready(_)) && changed(
                    old(heap)@,
                    final(heap)@,
                    obj.field(),
                    Some(image),
                ),
                Deletion::Missing => outcome == Err::<Turn<()>, Error>(
                    Error::InvalidOperation(Misuse::MissingEntry),
                ) && final(heap)@ == old(heap)@,
                Deletion::Failed => outcome matches Err(Error::Codec(_)) && final(heap)@ == old(
                    heap,
                )@,
            },
        },
{
    let mut names: Vec<String> = Vec::new();
    names.push(path);
    assert(texts(names@) =~= seq![path@]);
    deleteEntries(heap, obj, thread, &names)
}

/// Releases the writer for the bytes of its archive.
///
/// A writer in memory gives its bytes to the caller. A writer on a file
/// refuses them to the caller and gives them for its file, so that the
/// archive is finished there all the same. The writer is gone afterwards
/// either way. A writer that is closed already is reported.
pub fn toByteArray(heap: &mut Heap<ZipWriter>, obj: &mut HostObject, thread: u64) -> (outcome: Result<
    Turn<Detached>,
    Error,
>)
    ensures
        final(heap)@ == released(old(heap)@, old(obj).field(), thread),
        final(obj).field() == field_after_release(old(heap)@, old(obj).field(), thread),
        match release_result(old(heap)@, old(obj).field(), thread) {
            Err(e) => outcome == Err::<Turn<Detached>, Error>(e),
            Ok(Turn::Wait) => outcome matches Ok(Turn::Wait),
            Ok(Turn::Ready(None)) => outcome == Err::<Turn<Detached>, Error>(Error::ClosedHandle),
            Ok(Turn::Ready(Some(writer))) => outcome == Ok::<Turn<Detached>, Error>(
                Turn::Ready(detached(writer)),
            ),
        },
{
    match take_field(heap, obj, thread) {
        Err(e) => Err(e),
        Ok(Turn::Wait) => Ok(Turn::Wait),
        Ok(Turn::Ready(None)) => Err(Error::ClosedHandle),
        Ok(Turn::Ready(Some(writer))) => Ok(Turn::Ready(writer.detach())),
    }
}

/// Releases the writer and hands out the archive for the caller to put
/// where it belongs.
///
/// A writer that is closed already gives nothing and is no failure, and
/// neither is one whose holder failed. While another thread is inside the
/// writer the caller has to wait.
pub fn close(heap: &mut Heap<ZipWriter>, obj: &mut HostObject, thread: u64) -> (outcome: Turn<
    Option<ZipWriter>,
>)
    ensures
        final(heap)@ == released(old(heap)@, old(obj).field(), thread),
        final(obj).field() == field_after_release(old(heap)@, old(obj).field(), thread),
        match release_result(old(heap)@, old(obj).field(), thread) {
            Err(_) => outcome == Turn::Ready(None::<ZipWriter>),
            Ok(Turn::Wait) => outcome matches Turn::Wait,
            Ok(Turn::Ready(found)) => outcome == Turn::Ready(found),
        },
{
    match take_field(heap, obj, thread) {
        Err(_) => Turn::Ready(None),
        Ok(Turn::Wait) => Turn::Wait,
        Ok(Turn::Ready(found)) => Turn::Ready(found),
    }
}

} // verus!
