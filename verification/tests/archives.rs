use std::io::{Cursor, Read, Write};
use zip::unstable::write::FileOptionsExt;
use zip_bridge::codec::Failure;
use zip_bridge::error::{Error, Misuse, Resource};
use zip_bridge::interop::{get_field, Heap, HostObject};
use zip_bridge::lock::{ReentrantReference, Turn};
use zip_bridge::zip_entry::{
    _finalize, _getCompression, getCRC32, getComment, getCompressedSize, getDataOffset,
    getExtraData, getIndex, getLastModified, getMode, getName, getSize, isDir, obtain_entry, read,
    ZipEntry,
};
use zip_bridge::zip_reader::{
    close as close_reader, getEntryCount, getEntryNames, getRawComment, index_of,
    open as open_reader, openEntry0, ZipReader,
};
use zip_bridge::zip_writer::{
    check_appendable, close as close_writer, contains_name, deleteEntries, deleteEntry,
    open as open_writer, setComment, toByteArray, writeDir, writeEntry, ZipWriter,
};

const ME: u64 = 1;

fn ready<T>(turn: Result<Turn<T>, Error>) -> T {
    match turn {
        Ok(Turn::Ready(value)) => value,
        Ok(Turn::Wait) => panic!("nobody else holds the lock"),
        Err(error) => panic!("unexpected failure: {}", error.message()),
    }
}

fn finish(heap: &mut Heap<ZipWriter>, obj: &mut HostObject) -> Vec<u8> {
    let parts = ready(toByteArray(heap, obj, ME));
    assert!(parts.to_file.is_none());
    match parts.answer {
        Ok(bytes) => bytes,
        Err(error) => panic!("unexpected failure: {}", error.message()),
    }
}

fn data_of(entry: &ZipEntry) -> Vec<u8> {
    match &entry.content {
        Ok(data) => data.clone(),
        Err(cause) => panic!("the content cannot be read: {}", cause),
    }
}

fn new_writer(heap: &mut Heap<ZipWriter>) -> HostObject {
    let mut obj = HostObject::new();
    assert!(open_writer(heap, &mut obj, None, true).is_ok());
    obj
}

fn sample() -> Vec<u8> {
    let mut heap: Heap<ZipWriter> = Heap::new();
    let mut obj = new_writer(&mut heap);
    ready(writeEntry(&mut heap, &obj, ME, "a.txt", &b"hello".to_vec(), 0, 0));
    ready(writeDir(&mut heap, &obj, ME, "dir/"));
    finish(&mut heap, &mut obj)
}

fn three() -> Vec<u8> {
    let mut heap: Heap<ZipWriter> = Heap::new();
    let mut obj = new_writer(&mut heap);
    ready(writeEntry(&mut heap, &obj, ME, "a.txt", &b"first first first first".to_vec(), 1, 0));
    ready(writeEntry(&mut heap, &obj, ME, "b.txt", &b"second".to_vec(), 0, 0));
    ready(writeEntry(&mut heap, &obj, ME, "c.txt", &b"third third third third".to_vec(), 1, 0));
    ready(setComment(&mut heap, &obj, ME, b"three files".to_vec()));
    finish(&mut heap, &mut obj)
}

fn reader_of(heap: &mut Heap<ZipReader>, bytes: Vec<u8>) -> HostObject {
    let mut obj = HostObject::new();
    assert!(open_reader(heap, &mut obj, bytes).is_ok());
    obj
}

fn entry_by_name(bytes: &Vec<u8>, name: &str, raw: bool) -> Option<ZipEntry> {
    let reader = ZipReader { bytes: bytes.clone() };
    match reader.open_entry(0, Some(&String::from(name)), raw) {
        Ok(found) => found,
        Err(error) => panic!("unexpected failure: {}", error.message()),
    }
}

#[test]
fn reader_counts_and_opens_entries() {
    let mut readers: Heap<ZipReader> = Heap::new();
    let mut entries: Heap<ZipEntry> = Heap::new();
    let obj = reader_of(&mut readers, sample());
    assert_eq!(ready(getEntryCount(&mut readers, &obj, ME)), 2);

    let name = String::from("a.txt");
    let file = ready(openEntry0(&mut readers, &obj, ME, &mut entries, 0, Some(&name), false));
    let file = file.expect("a.txt is in the archive");
    assert!(!ready(isDir(&mut entries, &file, ME)));
    assert_eq!(ready(read(&mut entries, &file, ME)), b"hello".to_vec());
    assert_eq!(ready(getName(&mut entries, &file, ME)), "a.txt");
    assert_eq!(ready(getIndex(&mut entries, &file, ME)), 0);

    let name = String::from("dir/");
    let dir = ready(openEntry0(&mut readers, &obj, ME, &mut entries, 0, Some(&name), false));
    let dir = dir.expect("dir/ is in the archive");
    assert!(ready(isDir(&mut entries, &dir, ME)));
    assert_eq!(ready(getIndex(&mut entries, &dir, ME)), 1);
    assert!(matches!(
        read(&mut entries, &dir, ME),
        Err(Error::InvalidOperation(Misuse::ReadDirectory))
    ));
    assert_eq!(entries.len(), 2);
    assert_ne!(file.ptr(), dir.ptr());
}

#[test]
fn reader_opens_by_index_and_misses_politely() {
    let mut readers: Heap<ZipReader> = Heap::new();
    let mut entries: Heap<ZipEntry> = Heap::new();
    let obj = reader_of(&mut readers, sample());
    let second = ready(openEntry0(&mut readers, &obj, ME, &mut entries, 1, None, false));
    let second = second.expect("the archive has two entries");
    assert_eq!(ready(getName(&mut entries, &second, ME)), "dir/");
    assert!(ready(openEntry0(&mut readers, &obj, ME, &mut entries, 2, None, false)).is_none());
    assert!(ready(openEntry0(&mut readers, &obj, ME, &mut entries, -1, None, true)).is_none());
    let name = String::from("nope");
    assert!(ready(openEntry0(&mut readers, &obj, ME, &mut entries, 0, Some(&name), false)).is_none());
    assert_eq!(entries.len(), 1);
}

#[test]
fn reader_refuses_what_is_no_archive() {
    let mut readers: Heap<ZipReader> = Heap::new();
    let mut obj = HostObject::new();
    let done = open_reader(&mut readers, &mut obj, b"this is no archive".to_vec());
    assert!(matches!(done, Err(Error::Codec(Failure::InvalidArchive(_)))));
    assert!(obj.is_empty());
    assert_eq!(readers.len(), 0);
    assert!(matches!(getEntryCount(&mut readers, &obj, ME), Err(Error::ClosedHandle)));
}

#[test]
fn closed_reader_is_a_closed_handle() {
    let mut readers: Heap<ZipReader> = Heap::new();
    let mut entries: Heap<ZipEntry> = Heap::new();
    let mut obj = reader_of(&mut readers, sample());
    assert!(close_reader(&mut readers, &mut obj, ME));
    assert!(obj.is_empty());
    assert!(close_reader(&mut readers, &mut obj, ME));
    assert!(matches!(getEntryCount(&mut readers, &obj, ME), Err(Error::ClosedHandle)));
    assert!(matches!(getRawComment(&mut readers, &obj, ME), Err(Error::ClosedHandle)));
    assert!(matches!(getEntryNames(&mut readers, &obj, ME), Err(Error::ClosedHandle)));
    assert!(matches!(
        openEntry0(&mut readers, &obj, ME, &mut entries, 0, None, false),
        Err(Error::ClosedHandle)
    ));
    assert!(Error::ClosedHandle.caller_fault());
}

#[test]
fn reader_waits_for_another_thread() {
    let mut readers: Heap<ZipReader> = Heap::new();
    let mut obj = reader_of(&mut readers, sample());
    assert!(matches!(
        get_field(&mut readers, &obj, 2),
        Ok(Turn::Ready(ReentrantReference::Locked(2)))
    ));
    assert!(matches!(getEntryCount(&mut readers, &obj, ME), Ok(Turn::Wait)));
    assert!(!close_reader(&mut readers, &mut obj, ME));
    assert_eq!(ready(getEntryCount(&mut readers, &obj, 2)), 2);
}

#[test]
fn names_come_each_once() {
    let mut readers: Heap<ZipReader> = Heap::new();
    let obj = reader_of(&mut readers, three());
    let mut names = ready(getEntryNames(&mut readers, &obj, ME));
    names.sort();
    assert_eq!(names, vec!["a.txt", "b.txt", "c.txt"]);
    assert_eq!(ready(getRawComment(&mut readers, &obj, ME)), b"three files".to_vec());
}

#[test]
fn entry_tells_what_the_archive_records() {
    let mut readers: Heap<ZipReader> = Heap::new();
    let mut entries: Heap<ZipEntry> = Heap::new();
    let obj = reader_of(&mut readers, sample());
    let file = ready(openEntry0(&mut readers, &obj, ME, &mut entries, 0, None, false));
    let file = file.expect("the archive has entries");
    assert_eq!(ready(getCRC32(&mut entries, &file, ME)), 0x3610a686);
    assert_eq!(ready(getSize(&mut entries, &file, ME)), 5);
    assert_eq!(ready(getCompressedSize(&mut entries, &file, ME)), 5);
    assert_eq!(ready(_getCompression(&mut entries, &file, ME)), 0);
    assert_eq!(ready(getMode(&mut entries, &file, ME)), 0o100644);
    assert_eq!(ready(getComment(&mut entries, &file, ME)), "");
    assert_eq!(ready(getExtraData(&mut entries, &file, ME)), Vec::<u8>::new());
    assert_eq!(ready(getDataOffset(&mut entries, &file, ME)), 35);
    assert_eq!(ready(getLastModified(&mut entries, &file, ME)), [80, 0, 1, 0, -1, -1]);
    let copy = ready(obtain_entry(&mut entries, &file, ME));
    assert_eq!(copy.header.name, "a.txt");
    assert_eq!(copy.stat.modified.year, 1980);
    assert_eq!(data_of(&copy), b"hello".to_vec());
}

#[test]
fn raw_entry_gives_the_stored_bytes() {
    let bytes = three();
    let plain = entry_by_name(&bytes, "a.txt", false).expect("a.txt is there");
    let raw = entry_by_name(&bytes, "a.txt", true).expect("a.txt is there");
    assert_eq!(data_of(&plain), b"first first first first".to_vec());
    assert_eq!(plain.compression(), 1);
    assert_eq!(data_of(&raw).len() as u64, raw.stat.compressed_size);
    assert_ne!(data_of(&raw), data_of(&plain));
    assert_eq!(raw.stat, plain.stat);
    let stored = entry_by_name(&bytes, "b.txt", true).expect("b.txt is there");
    assert_eq!(data_of(&stored), b"second".to_vec());
}

#[test]
fn finalized_entry_is_closed() {
    let mut readers: Heap<ZipReader> = Heap::new();
    let mut entries: Heap<ZipEntry> = Heap::new();
    let obj = reader_of(&mut readers, sample());
    let file = ready(openEntry0(&mut readers, &obj, ME, &mut entries, 0, None, false));
    let mut file = file.expect("the archive has entries");
    assert!(_finalize(&mut entries, &mut file, ME));
    assert!(file.is_empty());
    assert!(_finalize(&mut entries, &mut file, ME));
    assert!(matches!(getName(&mut entries, &file, ME), Err(Error::ClosedHandle)));
    assert!(matches!(read(&mut entries, &file, ME), Err(Error::ClosedHandle)));
}

#[test]
fn compression_ids_map_to_the_format() {
    let entry = |method: u16| ZipEntry {
        index: 0,
        header: zip_bridge::codec::EntryHeader {
            name: String::new(),
            comment: String::new(),
            extra: Vec::new(),
            dir: false,
            mode: None,
            method,
        },
        stat: zip_bridge::codec::EntryStat {
            crc32: 0,
            size: 0,
            compressed_size: 0,
            data_start: 0,
            modified: zip_bridge::codec::Timestamp {
                year: 2024,
                month: 2,
                day: 29,
                hour: 23,
                minute: 59,
                second: 58,
            },
        },
        content: Ok(Vec::new()),
    };
    assert_eq!(entry(0).compression(), 0);
    assert_eq!(entry(8).compression(), 1);
    assert_eq!(entry(12).compression(), 2);
    assert_eq!(entry(93).compression(), 3);
    assert_eq!(entry(99).compression(), -1);
    assert_eq!(entry(1).compression(), -1);
    assert_eq!(entry(0).modified_arguments(), [124, 1, 29, 23, 58, 57]);
    assert_eq!(entry(0).duplicate().stat, entry(0).stat);
    assert!(matches!(entry(0).read_content(), Ok(data) if data.is_empty()));
}

#[test]
fn empty_writer_gives_an_empty_archive() {
    let mut heap: Heap<ZipWriter> = Heap::new();
    let mut obj = new_writer(&mut heap);
    let bytes = finish(&mut heap, &mut obj);
    assert_eq!(bytes.len(), 22);
    assert_eq!(&bytes[0..4], b"PK\x05\x06");
    let archive = zip::ZipArchive::new(Cursor::new(bytes)).expect("the codec reads its own work");
    assert_eq!(archive.len(), 0);
}

#[test]
fn written_archive_is_read_by_the_codec() {
    let mut archive = zip::ZipArchive::new(Cursor::new(three())).expect("a good archive");
    assert_eq!(archive.len(), 3);
    assert_eq!(archive.comment(), b"three files");
    let mut text = String::new();
    archive.by_name("c.txt").expect("c.txt is there").read_to_string(&mut text).expect("readable");
    assert_eq!(text, "third third third third");
    assert_eq!(archive.by_index(1).expect("b.txt is there").name(), "b.txt");
}

#[test]
fn writer_refuses_unknown_compression() {
    let mut heap: Heap<ZipWriter> = Heap::new();
    let mut obj = new_writer(&mut heap);
    let data = b"x".to_vec();
    assert!(matches!(
        writeEntry(&mut heap, &obj, ME, "x", &data, -1, 0),
        Err(Error::InvalidOperation(Misuse::InvalidCompression))
    ));
    assert!(matches!(
        writeEntry(&mut heap, &obj, ME, "x", &data, 4, 0),
        Err(Error::InvalidOperation(Misuse::InvalidCompression))
    ));
    assert_eq!(finish(&mut heap, &mut obj).len(), 22);
    assert_eq!(
        Error::InvalidOperation(Misuse::InvalidCompression).message(),
        "Invalid compression type supplied!"
    );
}

#[test]
fn aligned_entry_starts_at_a_multiple() {
    let mut heap: Heap<ZipWriter> = Heap::new();
    let mut obj = new_writer(&mut heap);
    ready(writeEntry(&mut heap, &obj, ME, "pad", &b"1".to_vec(), 0, 0));
    ready(writeEntry(&mut heap, &obj, ME, "lib.so", &b"aligned data".to_vec(), 0, 64));
    let bytes = finish(&mut heap, &mut obj);
    let entry = entry_by_name(&bytes, "lib.so", false).expect("lib.so is there");
    assert_eq!(entry.stat.data_start % 64, 0);
    assert_eq!(data_of(&entry), b"aligned data".to_vec());
    let start = entry.stat.data_start as usize;
    assert_eq!(&bytes[start..start + 12], b"aligned data");
}

#[test]
fn directory_gets_its_slash() {
    let mut heap: Heap<ZipWriter> = Heap::new();
    let mut obj = new_writer(&mut heap);
    ready(writeDir(&mut heap, &obj, ME, "docs"));
    let bytes = finish(&mut heap, &mut obj);
    let entry = entry_by_name(&bytes, "docs/", false).expect("docs/ is there");
    assert!(entry.header.dir);
    assert!(matches!(
        entry.read_content(),
        Err(Error::InvalidOperation(Misuse::ReadDirectory))
    ));
    assert_eq!(
        Error::InvalidOperation(Misuse::ReadDirectory).message(),
        "Cannot read data from a dir entry!"
    );
}

#[test]
fn writer_appends_to_what_it_was_given() {
    let mut heap: Heap<ZipWriter> = Heap::new();
    let mut obj = HostObject::new();
    assert!(open_writer(&mut heap, &mut obj, Some(sample()), true).is_ok());
    ready(writeEntry(&mut heap, &obj, ME, "more.txt", &b"more".to_vec(), 1, 0));
    let bytes = finish(&mut heap, &mut obj);
    let reader = ZipReader { bytes: bytes.clone() };
    assert!(matches!(reader.entry_count(), Ok(3)));
    assert_eq!(data_of(&entry_by_name(&bytes, "a.txt", false).expect("kept")), b"hello".to_vec());
    assert_eq!(data_of(&entry_by_name(&bytes, "more.txt", false).expect("added")), b"more".to_vec());
}

#[test]
fn writer_refuses_what_is_no_archive() {
    let mut heap: Heap<ZipWriter> = Heap::new();
    let mut obj = HostObject::new();
    let done = open_writer(&mut heap, &mut obj, Some(b"garbage".to_vec()), true);
    assert!(matches!(done, Err(Error::Codec(_))));
    assert!(!done.err().expect("it failed").caller_fault());
    assert!(obj.is_empty());
    assert_eq!(heap.len(), 0);
}

#[test]
fn closing_a_writer_twice_is_silent() {
    let mut heap: Heap<ZipWriter> = Heap::new();
    let mut obj = new_writer(&mut heap);
    ready(writeEntry(&mut heap, &obj, ME, "a.txt", &b"hello".to_vec(), 0, 0));
    match close_writer(&mut heap, &mut obj, ME) {
        Turn::Ready(Some(writer)) => {
            let reader = ZipReader { bytes: writer.image };
            assert!(matches!(reader.entry_count(), Ok(1)));
        },
        _ => panic!("the first close hands out the archive"),
    }
    assert!(obj.is_empty());
    assert!(matches!(close_writer(&mut heap, &mut obj, ME), Turn::Ready(None)));
    assert!(matches!(close_writer(&mut heap, &mut obj, ME), Turn::Ready(None)));
    assert!(matches!(
        writeDir(&mut heap, &obj, ME, "late/"),
        Err(Error::ClosedHandle)
    ));
    assert!(matches!(toByteArray(&mut heap, &mut obj, ME), Err(Error::ClosedHandle)));
}

#[test]
fn file_backed_writer_gives_its_bytes_to_its_file() {
    let mut heap: Heap<ZipWriter> = Heap::new();
    let mut obj = HostObject::new();
    assert!(open_writer(&mut heap, &mut obj, None, false).is_ok());
    ready(writeEntry(&mut heap, &obj, ME, "a.txt", &b"hello".to_vec(), 0, 0));
    let parts = ready(toByteArray(&mut heap, &mut obj, ME));
    assert!(matches!(parts.answer, Err(Error::InvalidOperation(Misuse::NotInMemory))));
    let image = parts.to_file.expect("the archive is still finished to its file");
    let reader = ZipReader { bytes: image.clone() };
    assert!(matches!(reader.entry_count(), Ok(1)));
    assert_eq!(data_of(&entry_by_name(&image, "a.txt", false).expect("it was written")), b"hello".to_vec());
    assert!(obj.is_empty());
    assert!(matches!(close_writer(&mut heap, &mut obj, ME), Turn::Ready(None)));
    assert_eq!(
        Error::InvalidOperation(Misuse::NotInMemory).message(),
        "Cannot convert an archive opened from a file into bytes!"
    );
}

#[test]
fn deleted_entry_is_gone_and_the_rest_is_untouched() {
    let before = three();
    let mut heap: Heap<ZipWriter> = Heap::new();
    let mut obj = HostObject::new();
    assert!(open_writer(&mut heap, &mut obj, Some(before.clone()), true).is_ok());
    ready(deleteEntry(&mut heap, &obj, ME, String::from("b.txt"), false));
    let after = finish(&mut heap, &mut obj);

    let reader = ZipReader { bytes: after.clone() };
    assert!(matches!(reader.entry_count(), Ok(2)));
    let mut names = reader.entry_names().ok().expect("a good archive");
    names.sort();
    assert_eq!(names, vec!["a.txt", "c.txt"]);
    assert!(entry_by_name(&after, "b.txt", false).is_none());
    assert_eq!(reader.raw_comment().ok().expect("a good archive"), b"three files".to_vec());
    for name in ["a.txt", "c.txt"] {
        let old = entry_by_name(&before, name, true).expect("it was there");
        let new = entry_by_name(&after, name, true).expect("it is still there");
        assert_eq!(data_of(&new), data_of(&old));
        assert_eq!(new.stat.crc32, old.stat.crc32);
        assert_eq!(new.stat.size, old.stat.size);
        assert_eq!(new.stat.compressed_size, old.stat.compressed_size);
        assert_eq!(new.header.method, old.header.method);
        let old = entry_by_name(&before, name, false).expect("it was there");
        let new = entry_by_name(&after, name, false).expect("it is still there");
        assert_eq!(data_of(&new), data_of(&old));
    }
}

#[test]
fn deleting_what_is_not_there_changes_nothing() {
    let before = three();
    let mut heap: Heap<ZipWriter> = Heap::new();
    let mut obj = HostObject::new();
    assert!(open_writer(&mut heap, &mut obj, Some(before), true).is_ok());
    let image = match zip_bridge::interop::get_field(&mut heap, &obj, ME) {
        Ok(Turn::Ready(reference)) => {
            let image = zip_bridge::interop::deref(&heap, &obj, ME).expect("held").image.clone();
            zip_bridge::interop::drop_reference(&mut heap, &obj, reference);
            image
        },
        _ => panic!("nobody else holds the lock"),
    };
    let done = deleteEntry(&mut heap, &obj, ME, String::from("z.txt"), true);
    assert!(matches!(done, Err(Error::InvalidOperation(Misuse::MissingEntry))));
    let names = vec![String::from("a.txt"), String::from("z.txt"), String::from("c.txt")];
    match deleteEntries(&mut heap, &obj, ME, &names) {
        Err(error) => assert_eq!(error.message(), "Cannot find the target entry to delete!"),
        Ok(_) => panic!("z.txt is not in the archive"),
    }
    let after = finish(&mut heap, &mut obj);
    assert_eq!(after, image);
    let reader = ZipReader { bytes: after };
    assert!(matches!(reader.entry_count(), Ok(3)));
}

#[test]
fn deleting_several_entries_leaves_the_rest() {
    let mut heap: Heap<ZipWriter> = Heap::new();
    let mut obj = HostObject::new();
    assert!(open_writer(&mut heap, &mut obj, Some(three()), true).is_ok());
    let names = vec![String::from("c.txt"), String::from("a.txt")];
    ready(deleteEntries(&mut heap, &obj, ME, &names));
    let after = finish(&mut heap, &mut obj);
    let reader = ZipReader { bytes: after.clone() };
    assert_eq!(reader.entry_names().ok().expect("a good archive"), vec!["b.txt"]);
    assert_eq!(data_of(&entry_by_name(&after, "b.txt", false).expect("kept")), b"second".to_vec());
}

#[test]
fn lookup_takes_the_last_of_equal_names() {
    let mut heap: Heap<ZipWriter> = Heap::new();
    let mut obj = new_writer(&mut heap);
    ready(writeEntry(&mut heap, &obj, ME, "same", &b"one".to_vec(), 0, 0));
    ready(writeEntry(&mut heap, &obj, ME, "other", &b"two".to_vec(), 0, 0));
    ready(writeEntry(&mut heap, &obj, ME, "same", &b"three".to_vec(), 0, 0));
    let bytes = finish(&mut heap, &mut obj);
    let same = String::from("same");
    assert_eq!(index_of(&bytes, &same, 3), Some(2));
    assert_eq!(index_of(&bytes, &same, 2), Some(0));
    assert_eq!(index_of(&bytes, &same, 0), None);
    assert_eq!(index_of(&bytes, &String::from("none"), 3), None);
    assert_eq!(index_of(&bytes, &same, 4), Some(2));
    assert_eq!(data_of(&entry_by_name(&bytes, "same", false).expect("it is there")), b"three".to_vec());
    let mut archive = zip::ZipArchive::new(Cursor::new(bytes)).expect("a good archive");
    let mut text = String::new();
    archive.by_name("same").expect("it is there").read_to_string(&mut text).expect("readable");
    assert_eq!(text, "three");
}

#[test]
fn names_are_found_among_names() {
    let names = vec![String::from("a"), String::from("b")];
    assert!(contains_name(&names, &String::from("b")));
    assert!(!contains_name(&names, &String::from("c")));
    assert!(!contains_name(&Vec::new(), &String::from("a")));
}

#[test]
fn writer_waits_for_another_thread() {
    let mut heap: Heap<ZipWriter> = Heap::new();
    let mut obj = new_writer(&mut heap);
    assert!(matches!(get_field(&mut heap, &obj, 2), Ok(Turn::Ready(ReentrantReference::Locked(2)))));
    assert!(matches!(writeDir(&mut heap, &obj, ME, "d/"), Ok(Turn::Wait)));
    assert!(matches!(close_writer(&mut heap, &mut obj, ME), Turn::Wait));
    assert!(matches!(toByteArray(&mut heap, &mut obj, ME), Ok(Turn::Wait)));
    ready(writeDir(&mut heap, &obj, 2, "mine/"));
    assert!(matches!(get_field(&mut heap, &obj, 2), Ok(Turn::Ready(ReentrantReference::Recursive(2)))));
    let bytes = ready(toByteArray(&mut heap, &mut obj, 2)).answer.ok().expect("it lives in memory");
    assert!(entry_by_name(&bytes, "mine/", false).is_some());
}

#[test]
fn every_known_compression_round_trips() {
    let text = b"again and again and again and again and again and again".to_vec();
    let mut heap: Heap<ZipWriter> = Heap::new();
    let mut obj = new_writer(&mut heap);
    ready(writeEntry(&mut heap, &obj, ME, "stored", &text, 0, 0));
    ready(writeEntry(&mut heap, &obj, ME, "deflated", &text, 1, 0));
    ready(writeEntry(&mut heap, &obj, ME, "bzip2", &text, 2, 0));
    ready(writeEntry(&mut heap, &obj, ME, "zstd", &text, 3, 0));
    let bytes = finish(&mut heap, &mut obj);
    let mut id: i64 = 0;
    for name in ["stored", "deflated", "bzip2", "zstd"] {
        let entry = entry_by_name(&bytes, name, false).expect("it was written");
        assert_eq!(entry.compression(), id);
        assert_eq!(data_of(&entry), text);
        assert_eq!(entry.stat.size, text.len() as u64);
        id += 1;
    }
}

fn position_of(bytes: &[u8], mark: [u8; 4]) -> usize {
    let mut at: usize = 0;
    while at + 4 <= bytes.len() {
        if bytes[at..at + 4] == mark {
            return at;
        }
        at += 1;
    }
    panic!("the archive has no such record");
}

#[test]
fn entry_marked_for_a_cipher_is_refused_without_a_fault() {
    let mut heap: Heap<ZipWriter> = Heap::new();
    let mut obj = new_writer(&mut heap);
    ready(writeEntry(&mut heap, &obj, ME, "x", &b"hi".to_vec(), 0, 0));
    let mut bytes = finish(&mut heap, &mut obj);

    let central = position_of(&bytes, [0x50, 0x4b, 0x01, 0x02]);
    let name_length = bytes[central + 28] as usize;
    assert_eq!(bytes[central + 30], 0);
    bytes[central + 30] = 11;
    let cipher_note: [u8; 11] = [0x01, 0x99, 7, 0, 2, 0, 0x41, 0x45, 3, 0, 0];
    let after_name = central + 46 + name_length;
    for (offset, byte) in cipher_note.iter().enumerate() {
        bytes.insert(after_name + offset, *byte);
    }
    let end = position_of(&bytes, [0x50, 0x4b, 0x05, 0x06]);
    bytes[end + 12] += 11;

    let reader = ZipReader { bytes };
    assert!(matches!(reader.entry_count(), Ok(1)));
    assert!(matches!(
        reader.open_entry(0, None, false),
        Err(Error::Codec(Failure::PasswordRequired))
    ));
    match reader.open_entry(0, None, true) {
        Ok(Some(entry)) => assert_eq!(data_of(&entry), b"hi".to_vec()),
        _ => panic!("the stored bytes can be had as they are"),
    }
    assert_eq!(
        Error::Codec(Failure::PasswordRequired).message(),
        "Password required to decrypt file"
    );
}

#[test]
fn encrypted_entry_is_refused() {
    let mut writer = zip::ZipWriter::new(Cursor::new(Vec::new()));
    let options = zip::write::FileOptions::default()
        .compression_method(zip::CompressionMethod::Stored)
        .with_deprecated_encryption(b"secret");
    writer.start_file("locked", options).expect("the codec can encrypt");
    writer.write_all(b"hidden").expect("the codec can write");
    let bytes = writer.finish().expect("the codec can finish").into_inner();

    let reader = ZipReader { bytes };
    let opened = reader.open_entry(0, None, false);
    assert!(matches!(opened, Err(Error::Codec(_))));
    match reader.open_entry(0, None, true) {
        Ok(Some(entry)) => {
            assert_eq!(entry.header.name, "locked");
            assert_eq!(entry.stat.size, 6);
            assert_ne!(data_of(&entry), b"hidden".to_vec());
        },
        _ => panic!("the stored bytes can be had as they are"),
    }
}

fn put_u32(bytes: &mut [u8], at: usize, value: u32) {
    bytes[at] = (value & 0xff) as u8;
    bytes[at + 1] = ((value >> 8) & 0xff) as u8;
    bytes[at + 2] = ((value >> 16) & 0xff) as u8;
    bytes[at + 3] = ((value >> 24) & 0xff) as u8;
}

fn get_u32(bytes: &[u8], at: usize) -> u32 {
    (bytes[at] as u32)
        | ((bytes[at + 1] as u32) << 8)
        | ((bytes[at + 2] as u32) << 16)
        | ((bytes[at + 3] as u32) << 24)
}

fn with_central_extra(length: usize) -> Vec<u8> {
    let mut heap: Heap<ZipWriter> = Heap::new();
    let mut obj = new_writer(&mut heap);
    ready(writeEntry(&mut heap, &obj, ME, "x", &b"hi".to_vec(), 0, 0));
    let mut bytes = finish(&mut heap, &mut obj);
    let central = position_of(&bytes, [0x50, 0x4b, 0x01, 0x02]);
    let name_length = bytes[central + 28] as usize;
    bytes[central + 30] = (length & 0xff) as u8;
    bytes[central + 31] = (length >> 8) as u8;
    let mut note = vec![0x77u8, 0x77, ((length - 4) & 0xff) as u8, ((length - 4) >> 8) as u8];
    note.resize(length, 0);
    let after_name = central + 46 + name_length;
    let tail = bytes.split_off(after_name);
    bytes.extend_from_slice(&note);
    bytes.extend_from_slice(&tail);
    let end = bytes.len() - 22;
    assert_eq!(&bytes[end..end + 4], b"PK\x05\x06");
    let size = get_u32(&bytes, end + 12);
    put_u32(&mut bytes, end + 12, size + length as u32);
    bytes
}

#[test]
fn archive_with_too_much_extra_data_is_refused_for_writing() {
    let bytes = with_central_extra(65520);
    let reader = ZipReader { bytes: bytes.clone() };
    assert!(matches!(reader.entry_count(), Ok(1)));
    match reader.open_entry(0, None, false) {
        Ok(Some(entry)) => {
            assert_eq!(entry.header.extra.len(), 65520);
            assert_eq!(data_of(&entry), b"hi".to_vec());
        },
        _ => panic!("reading is not hindered by extra data"),
    }
    assert!(matches!(check_appendable(&bytes), Err(Error::Codec(Failure::OversizedExtra))));
    let mut heap: Heap<ZipWriter> = Heap::new();
    let mut obj = HostObject::new();
    let done = open_writer(&mut heap, &mut obj, Some(bytes.clone()), true);
    assert!(matches!(done, Err(Error::Codec(Failure::OversizedExtra))));
    assert!(obj.is_empty());
    assert_eq!(heap.len(), 0);
    let mut writer = ZipWriter { image: bytes.clone(), in_memory: true };
    assert!(matches!(writer.write_dir("d/"), Err(Error::Codec(Failure::OversizedExtra))));
    assert!(matches!(
        writer.set_comment(b"c".to_vec()),
        Err(Error::Codec(Failure::OversizedExtra))
    ));
    assert!(matches!(
        writer.write_entry("f", &b"1".to_vec(), 0, 0),
        Err(Error::Codec(Failure::OversizedExtra))
    ));
    assert!(matches!(
        writer.write_entry("f", &b"1".to_vec(), 0, 4),
        Err(Error::Codec(Failure::OversizedExtra))
    ));
    assert_eq!(writer.image, bytes);
    assert_eq!(
        Error::Codec(Failure::OversizedExtra).message(),
        "Extra data exceeds extra field"
    );
}

#[test]
fn archive_with_modest_extra_data_is_taken_up() {
    let bytes = with_central_extra(65507);
    assert!(check_appendable(&bytes).is_ok());
    let mut heap: Heap<ZipWriter> = Heap::new();
    let mut obj = HostObject::new();
    assert!(open_writer(&mut heap, &mut obj, Some(bytes), true).is_ok());
    ready(writeEntry(&mut heap, &obj, ME, "more", &b"more".to_vec(), 0, 0));
    let after = finish(&mut heap, &mut obj);
    let reader = ZipReader { bytes: after.clone() };
    assert!(matches!(reader.entry_count(), Ok(2)));
    assert_eq!(data_of(&entry_by_name(&after, "x", false).expect("kept")), b"hi".to_vec());
    assert!(check_appendable(&b"no archive".to_vec()).is_err());
}

#[test]
fn damaged_content_is_reported_when_it_is_read() {
    let mut bytes = sample();
    let start = entry_by_name(&bytes, "a.txt", false).expect("it is there").stat.data_start as usize;
    assert_eq!(&bytes[start..start + 5], b"hello");
    bytes[start] = b'j';
    let mut readers: Heap<ZipReader> = Heap::new();
    let mut entries: Heap<ZipEntry> = Heap::new();
    let obj = reader_of(&mut readers, bytes);
    let name = String::from("a.txt");
    let file = ready(openEntry0(&mut readers, &obj, ME, &mut entries, 0, Some(&name), false));
    let file = file.expect("a damaged entry can still be opened");
    assert_eq!(ready(getName(&mut entries, &file, ME)), "a.txt");
    assert_eq!(ready(getSize(&mut entries, &file, ME)), 5);
    match read(&mut entries, &file, ME) {
        Err(Error::Codec(Failure::Io(cause))) => assert_eq!(cause, "Invalid checksum"),
        _ => panic!("the checksum does not fit the content"),
    }
    let raw = ready(openEntry0(&mut readers, &obj, ME, &mut entries, 0, Some(&name), true));
    let raw = raw.expect("the stored bytes can be had as they are");
    assert_eq!(ready(read(&mut entries, &raw, ME)), b"jello".to_vec());
}

#[test]
fn bad_header_of_another_entry_does_not_hinder_opening_by_name() {
    let mut bytes = three();
    let first = position_of(&bytes, [0x50, 0x4b, 0x03, 0x04]);
    let third = entry_by_name(&bytes, "c.txt", true).expect("it is there");
    let third_header = third.stat.data_start as usize - 30 - "c.txt".len();
    assert_eq!(first, 0);
    assert_eq!(&bytes[third_header..third_header + 4], b"PK\x03\x04");
    bytes[third_header] = b'X';
    let reader = ZipReader { bytes };
    match reader.open_entry(0, Some(&String::from("a.txt")), false) {
        Ok(Some(entry)) => {
            assert_eq!(entry.index, 0);
            assert_eq!(data_of(&entry), b"first first first first".to_vec());
        },
        _ => panic!("a.txt itself is in order"),
    }
    assert!(matches!(
        reader.open_entry(0, Some(&String::from("c.txt")), false),
        Err(Error::Codec(_))
    ));
    assert!(matches!(reader.open_entry(0, Some(&String::from("d.txt")), false), Ok(None)));
    assert!(matches!(reader.open_entry(2, None, true), Err(Error::Codec(_))));
}

#[test]
fn closed_handles_are_named_after_their_resource() {
    assert_eq!(Error::ClosedHandle.message_of(Resource::Reader), "Cannot use a closed reader!");
    assert_eq!(Error::ClosedHandle.message_of(Resource::Writer), "Cannot use a closed writer!");
    assert_eq!(
        Error::ClosedHandle.message_of(Resource::Entry),
        "using a closed entry, after JVM finalizer called!"
    );
    assert_eq!(
        Error::LockPoisoned.message_of(Resource::Writer),
        "poisoned lock: another task failed inside"
    );
    assert!(Error::InvalidOperation(Misuse::MissingEntry).caller_fault());
}

#[test]
fn directories_are_known_by_their_last_character() {
    let mut heap: Heap<ZipWriter> = Heap::new();
    let mut obj = new_writer(&mut heap);
    ready(writeEntry(&mut heap, &obj, ME, "slash/", &Vec::new(), 0, 0));
    ready(writeEntry(&mut heap, &obj, ME, "back\\", &Vec::new(), 0, 0));
    ready(writeEntry(&mut heap, &obj, ME, "plain", &Vec::new(), 0, 0));
    let bytes = finish(&mut heap, &mut obj);
    assert!(entry_by_name(&bytes, "slash/", false).expect("written").header.dir);
    assert!(entry_by_name(&bytes, "back\\", false).expect("written").header.dir);
    assert!(!entry_by_name(&bytes, "plain", false).expect("written").header.dir);
}

#[test]
fn filling_the_void_makes_no_difference() {
    let mut first: Heap<ZipWriter> = Heap::new();
    let mut one = HostObject::new();
    assert!(open_writer(&mut first, &mut one, Some(three()), true).is_ok());
    ready(deleteEntry(&mut first, &one, ME, String::from("a.txt"), false));
    let mut second: Heap<ZipWriter> = Heap::new();
    let mut other = HostObject::new();
    assert!(open_writer(&mut second, &mut other, Some(three()), true).is_ok());
    ready(deleteEntry(&mut second, &other, ME, String::from("a.txt"), true));
    assert_eq!(finish(&mut first, &mut one), finish(&mut second, &mut other));
}
