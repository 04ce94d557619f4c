//! The archive codec, and what this library takes on trust from it.
//!
//! An archive is held as its bytes. Every function here hands bytes to the
//! `zip` crate and brings plain values back; none of them is proved. What an
//! outside function returns for given arguments has a name, and the
//! contracts of the resources speak of those names. The functions that
//! write demand an archive that the codec can write back without a fault;
//! `zip_writer::check_appendable` finds out whether bytes are one.

use std::io::{Cursor, Read, Write};
use vstd::prelude::*;
use zip::result::ZipError;
use zip::write::FileOptions;
use zip::{CompressionMethod, ZipArchive, ZipWriter};

verus! {

/// The error type of the codec. Nothing inside it is visible here.
#[verifier::external_type_specification]
#[verifier::external_body]
pub struct ExZipError(ZipError);

/// Why the codec failed, in plain values.
#[derive(Debug)]
pub enum Failure {
    /// The entry asked for is not in the archive.
    NotFound,
    /// Reading or writing the bytes failed.
    Io(String),
    /// The bytes are not an archive.
    InvalidArchive(String),
    /// The archive uses something that the codec cannot handle.
    Unsupported(String),
    /// The entry cannot be read without a password.
    PasswordRequired,
    /// An entry carries more extra data than the codec can write back.
    OversizedExtra,
}

impl Failure {
    /// The cause in words.
    pub open spec fn text_spec(self) -> Seq<char> {
        match self {
            Failure::NotFound => "specified file not found in archive"@,
            Failure::Io(cause) => cause@,
            Failure::InvalidArchive(cause) => cause@,
            Failure::Unsupported(cause) => cause@,
            Failure::PasswordRequired => "Password required to decrypt file"@,
            Failure::OversizedExtra => "Extra data exceeds extra field"@,
        }
    }

    /// The cause in words.
    pub fn text(&self) -> (text: String)
        ensures
            text@ == self.text_spec(),
    {
        match self {
            Failure::NotFound => "specified file not found in archive".to_owned(),
            Failure::Io(cause) => cause.clone(),
            Failure::InvalidArchive(cause) => cause.clone(),
            Failure::Unsupported(cause) => cause.clone(),
            Failure::PasswordRequired => "Password required to decrypt file".to_owned(),
            Failure::OversizedExtra => "Extra data exceeds extra field".to_owned(),
        }
    }
}

/// The date and time that an entry carries.
#[derive(Clone, Copy, Debug, PartialEq, Eq, Structural)]
pub struct Timestamp {
    pub year: u16,
    pub month: u8,
    pub day: u8,
    pub hour: u8,
    pub minute: u8,
    pub second: u8,
}

/// The numbers that the archive records of an entry.
#[derive(Clone, Copy, Debug, PartialEq, Eq, Structural)]
pub struct EntryStat {
    pub crc32: u32,
    pub size: u64,
    pub compressed_size: u64,
    pub data_start: u64,
    pub modified: Timestamp,
}

/// What the archive records of an entry besides numbers.
#[derive(Debug)]
pub struct EntryHeader {
    pub name: String,
    pub comment: String,
    pub extra: Vec<u8>,
    pub dir: bool,
    pub mode: Option<u32>,
    pub method: u16,
}

/// An `EntryHeader` as contracts see it.
pub ghost struct HeaderModel {
    pub name: Seq<char>,
    pub comment: Seq<char>,
    pub extra: Seq<u8>,
    pub dir: bool,
    pub mode: Option<u32>,
    pub method: u16,
}

impl View for EntryHeader {
    type V = HeaderModel;

    open spec fn view(&self) -> HeaderModel {
        HeaderModel {
            name: self.name@,
            comment: self.comment@,
            extra: self.extra@,
            dir: self.dir,
            mode: self.mode,
            method: self.method,
        }
    }
}

/// The most extra data that an entry may carry if the codec is to write its
/// archive back: the length goes into sixteen bits together with a record
/// of up to twenty-eight bytes that the codec adds for large entries.
pub const EXTRA_LIMIT: usize = 65507;

/// That `name` is the name of a directory: it ends in a slash, forward or back.
pub open spec fn names_directory(name: Seq<char>) -> bool {
    name.len() > 0 && (name.last() == '/' || name.last() == '\\')
}

/// That the codec reads the header of each of the first `upto` entries of
/// `bytes`, and none carries more extra data than `EXTRA_LIMIT`.
pub open spec fn modest_extras(bytes: Seq<u8>, upto: int) -> bool {
    forall|i: int|
        0 <= i < upto ==> (#[trigger] zip_header(bytes, i)) is Some && zip_header(
            bytes,
            i,
        ).unwrap().extra.len() <= EXTRA_LIMIT
}

/// That `bytes` are an archive which the codec can take up again and write
/// back: every entry has a header with modest extra data.
pub open spec fn appendable(bytes: Seq<u8>) -> bool {
    zip_len(bytes) matches Some(count) && modest_extras(bytes, count as int)
}

/// The texts of `names`, in their order.
pub open spec fn texts(names: Seq<String>) -> Seq<Seq<char>> {
    names.map_values(|name: String| name@)
}

/// How many entries `ZipArchive::new` finds in `bytes`; nothing where it
/// refuses them.
pub uninterp spec fn zip_len(bytes: Seq<u8>) -> Option<nat>;

/// The comment of the archive that `ZipArchive::new` reads from `bytes`.
pub uninterp spec fn zip_comment(bytes: Seq<u8>) -> Option<Seq<u8>>;

/// The names that `ZipArchive::file_names` walks through for `bytes`.
pub uninterp spec fn zip_names(bytes: Seq<u8>) -> Option<Set<Seq<char>>>;

/// Whether `ZipArchive::by_name_decrypt` finds an entry called `name` in
/// `bytes`; nothing where `ZipArchive::new` refuses them.
pub uninterp spec fn zip_has_name(bytes: Seq<u8>, name: Seq<char>) -> Option<bool>;

/// What `ZipArchive::by_index_raw` tells of entry `index` of `bytes`, numbers apart.
pub uninterp spec fn zip_header(bytes: Seq<u8>, index: int) -> Option<HeaderModel>;

/// The numbers that `ZipArchive::by_index_raw` tells of entry `index` of `bytes`.
pub uninterp spec fn zip_stat(bytes: Seq<u8>, index: int) -> Option<EntryStat>;

/// Whether `ZipArchive::by_index_decrypt` with an empty password hands out
/// entry `index` of `bytes` for reading, or wants another password; nothing
/// where it fails.
pub uninterp spec fn zip_opens(bytes: Seq<u8>, index: int) -> Option<bool>;

/// The bytes that reading the entry got by `ZipArchive::by_index_decrypt`
/// with an empty password yields; no bytes where the codec wants another
/// password, and nothing at all where it fails.
pub uninterp spec fn zip_data(bytes: Seq<u8>, index: int) -> Option<Option<Seq<u8>>>;

/// The bytes that reading the entry got by `ZipArchive::by_index_raw` yields.
pub uninterp spec fn zip_raw_data(bytes: Seq<u8>, index: int) -> Option<Seq<u8>>;

/// The archive that `ZipWriter::new` finishes with `comment` and no entry.
pub uninterp spec fn zip_empty(comment: Seq<u8>) -> Option<Seq<u8>>;

/// The archive that `ZipWriter::new_append` finishes when given `bytes`.
pub uninterp spec fn zip_reopened(bytes: Seq<u8>) -> Option<Seq<u8>>;

/// `bytes` after `ZipWriter::set_raw_comment`.
pub uninterp spec fn zip_commented(bytes: Seq<u8>, comment: Seq<u8>) -> Option<Seq<u8>>;

/// `bytes` after `ZipWriter::start_file` and the writing of `data`.
pub uninterp spec fn zip_with_file(bytes: Seq<u8>, name: Seq<char>, data: Seq<u8>, method: u16) -> Option<
    Seq<u8>,
>;

/// `bytes` after `ZipWriter::start_file_aligned` and the writing of `data`.
pub uninterp spec fn zip_with_aligned_file(
    bytes: Seq<u8>,
    name: Seq<char>,
    data: Seq<u8>,
    method: u16,
    align: u16,
) -> Option<Seq<u8>>;

/// `bytes` after `ZipWriter::add_directory`.
pub uninterp spec fn zip_with_directory(bytes: Seq<u8>, name: Seq<char>) -> Option<Seq<u8>>;

/// `dest` after `ZipWriter::raw_copy_file` of entry `index` of `source`.
pub uninterp spec fn zip_with_copy(dest: Seq<u8>, source: Seq<u8>, index: int) -> Option<Seq<u8>>;

/// Tells the variants of `zip::result::ZipError` apart and keeps the text
/// of each. Nothing is claimed of the outcome.
#[verifier::external_body]
pub(crate) fn failure(error: ZipError) -> (cause: Failure) {
    match error {
        ZipError::FileNotFound => Failure::NotFound,
        ZipError::Io(cause) => Failure::Io(cause.to_string()),
        ZipError::InvalidArchive(cause) => Failure::InvalidArchive(cause.to_owned()),
        ZipError::UnsupportedArchive(cause) => Failure::Unsupported(cause.to_owned()),
    }
}

/// `ZipArchive::new`, then `ZipArchive::len`: the number of entries in the
/// central directory of `bytes`, or the codec's refusal of `bytes`.
#[verifier::external_body]
pub(crate) fn archive_len(bytes: &Vec<u8>) -> (found: Result<usize, ZipError>)
    ensures
        found is Ok == zip_len(bytes@) is Some,
        found matches Ok(n) ==> zip_len(bytes@) == Some(n as nat),
{
    ZipArchive::new(Cursor::new(&bytes[..])).map(|archive| archive.len())
}

/// `ZipArchive::new`, then `ZipArchive::comment`: the comment at the end of
/// the archive, copied out.
#[verifier::external_body]
pub(crate) fn archive_comment(bytes: &Vec<u8>) -> (found: Result<Vec<u8>, ZipError>)
    ensures
        found is Ok == zip_comment(bytes@) is Some,
        found matches Ok(comment) ==> zip_comment(bytes@) == Some(comment@),
{
    ZipArchive::new(Cursor::new(&bytes[..])).map(|archive| archive.comment().to_vec())
}

/// `ZipArchive::new`, then `ZipArchive::file_names`: each name of the
/// archive once. The codec walks a hash map, so the order is left open;
/// which names come is fixed by `bytes`.
#[verifier::external_body]
pub(crate) fn archive_names(bytes: &Vec<u8>) -> (found: Result<Vec<String>, ZipError>)
    ensures
        found is Ok == zip_names(bytes@) is Some,
        found matches Ok(names) ==> texts(names@).no_duplicates() && zip_names(bytes@) == Some(
            texts(names@).to_set(),
        ),
{
    ZipArchive::new(Cursor::new(&bytes[..])).map(
        |archive| archive.file_names().map(|name| name.to_owned()).collect(),
    )
}

/// `ZipArchive::new`, then `ZipArchive::by_name_decrypt` with an empty
/// password, of which only one thing is kept: whether the codec knows the
/// name. It answers `FileNotFound` for a name that is not in its table and
/// for nothing else; whatever it makes of the entry itself is dropped.
#[verifier::external_body]
pub(crate) fn archive_has_name(bytes: &Vec<u8>, name: &str) -> (found: Result<bool, ZipError>)
    ensures
        found is Ok == zip_has_name(bytes@, name@) is Some,
        found matches Ok(known) ==> zip_has_name(bytes@, name@) == Some(known),
{
    let mut archive = ZipArchive::new(Cursor::new(&bytes[..]))?;
    let known = !matches!(archive.by_name_decrypt(name, &[]), Err(ZipError::FileNotFound));
    Ok(known)
}

/// `ZipArchive::by_index_raw`, then the getters of `ZipFile` that give no
/// number: name, comment, extra data, `is_dir`, `unix_mode`, and the
/// compression method as its number in the format. `is_dir` looks at the
/// last character of the name and at nothing else.
#[allow(deprecated)]
#[verifier::external_body]
pub(crate) fn entry_header(bytes: &Vec<u8>, index: usize) -> (found: Result<EntryHeader, ZipError>)
    ensures
        found is Ok == zip_header(bytes@, index as int) is Some,
        found matches Ok(header) ==> zip_header(bytes@, index as int) == Some(header@),
        found matches Ok(header) ==> header.dir == names_directory(header.name@),
{
    let mut archive = ZipArchive::new(Cursor::new(&bytes[..]))?;
    let file = archive.by_index_raw(index)?;
    Ok(
        EntryHeader {
            name: file.name().to_owned(),
            comment: file.comment().to_owned(),
            extra: file.extra_data().to_vec(),
            dir: file.is_dir(),
            mode: file.unix_mode(),
            method: file.compression().to_u16(),
        },
    )
}

/// `ZipArchive::by_index_raw`, then the getters of `ZipFile` that give a
/// number: checksum, sizes, where the data starts, and the time stamp.
#[verifier::external_body]
pub(crate) fn entry_stat(bytes: &Vec<u8>, index: usize) -> (found: Result<EntryStat, ZipError>)
    ensures
        found is Ok == zip_stat(bytes@, index as int) is Some,
        found matches Ok(stat) ==> zip_stat(bytes@, index as int) == Some(stat),
{
    let mut archive = ZipArchive::new(Cursor::new(&bytes[..]))?;
    let file = archive.by_index_raw(index)?;
    let time = file.last_modified();
    let (year, month, day) = (time.year(), time.month(), time.day());
    let (hour, minute, second) = (time.hour(), time.minute(), time.second());
    let modified = Timestamp { year, month, day, hour, minute, second };
    let (crc32, size, compressed_size) = (file.crc32(), file.size(), file.compressed_size());
    Ok(EntryStat { crc32, size, compressed_size, data_start: file.data_start(), modified })
}

/// `ZipArchive::by_index_decrypt` with an empty password, of which it is
/// kept whether an entry came. The codec drops the password for an entry
/// that is not encrypted; nothing is read of the content.
#[verifier::external_body]
pub(crate) fn entry_opens(bytes: &Vec<u8>, index: usize) -> (found: Result<bool, ZipError>)
    ensures
        found is Ok == zip_opens(bytes@, index as int) is Some,
        found matches Ok(open) ==> zip_opens(bytes@, index as int) == Some(open),
{
    let mut archive = ZipArchive::new(Cursor::new(&bytes[..]))?;
    let open = archive.by_index_decrypt(index, &[])?.is_ok();
    Ok(open)
}

/// `ZipArchive::by_index_decrypt` with an empty password, read to the end:
/// the content of the entry as it was before compression. The codec drops
/// the password for an entry that is not encrypted, and answers with an
/// invalid password, which comes back here as no bytes, where an entry
/// cannot be read without one.
#[verifier::external_body]
pub(crate) fn entry_data(bytes: &Vec<u8>, index: usize) -> (found: Result<Option<Vec<u8>>, ZipError>)
    ensures
        found is Ok == zip_data(bytes@, index as int) is Some,
        found matches Ok(data) ==> zip_data(bytes@, index as int) == Some(
            match data {
                Some(content) => Some(content@),
                None => None,
            },
        ),
{
    let mut archive = ZipArchive::new(Cursor::new(&bytes[..]))?;
    let mut data = Vec::new();
    match archive.by_index_decrypt(index, &[])? {
        Ok(mut file) => file.read_to_end(&mut data)?,
        Err(_) => return Ok(None),
    };
    Ok(Some(data))
}

/// `ZipArchive::by_index_raw`, read to the end: the content of the entry as
/// the archive stores it.
#[verifier::external_body]
pub(crate) fn entry_raw_data(bytes: &Vec<u8>, index: usize) -> (found: Result<Vec<u8>, ZipError>)
    ensures
        found is Ok == zip_raw_data(bytes@, index as int) is Some,
        found matches Ok(data) ==> zip_raw_data(bytes@, index as int) == Some(data@),
{
    let mut archive = ZipArchive::new(Cursor::new(&bytes[..]))?;
    let mut data = Vec::new();
    archive.by_index_raw(index)?.read_to_end(&mut data)?;
    Ok(data)
}

/// `ZipWriter::new` on an empty buffer, `set_raw_comment`, `finish`: an
/// archive without entries.
#[verifier::external_body]
pub(crate) fn archive_empty(comment: Vec<u8>) -> (made: Result<Vec<u8>, ZipError>)
    ensures
        made is Ok == zip_empty(comment@) is Some,
        made matches Ok(bytes) ==> zip_empty(comment@) == Some(bytes@),
{
    let mut writer = ZipWriter::new(Cursor::new(Vec::new()));
    writer.set_raw_comment(comment);
    Ok(writer.finish()?.into_inner())
}

/// `ZipWriter::new_append`, then `finish`: the archive as the codec writes
/// it back when nothing was added. Here and below, `finish` puts the length
/// of each entry's extra data into sixteen bits after adding up to
/// twenty-eight to it, so archives with more extra data are left out.
#[verifier::external_body]
pub(crate) fn archive_reopened(bytes: &Vec<u8>) -> (made: Result<Vec<u8>, ZipError>)
    requires
        appendable(bytes@),
    ensures
        made is Ok == zip_reopened(bytes@) is Some,
        made matches Ok(out) ==> zip_reopened(bytes@) == Some(out@),
{
    let mut writer = ZipWriter::new_append(Cursor::new(bytes.clone()))?;
    Ok(writer.finish()?.into_inner())
}

/// `ZipWriter::new_append`, `set_raw_comment`, `finish`.
#[verifier::external_body]
pub(crate) fn archive_commented(bytes: &Vec<u8>, comment: Vec<u8>) -> (made: Result<Vec<u8>, ZipError>)
    requires
        appendable(bytes@),
    ensures
        made is Ok == zip_commented(bytes@, comment@) is Some,
        made matches Ok(out) ==> zip_commented(bytes@, comment@) == Some(out@),
{
    let mut writer = ZipWriter::new_append(Cursor::new(bytes.clone()))?;
    writer.set_raw_comment(comment);
    Ok(writer.finish()?.into_inner())
}

/// `ZipWriter::new_append`, `start_file` with the default options and the
/// compression method that has the number `method`, `write_all` of `data`,
/// `finish`.
#[allow(deprecated)]
#[verifier::external_body]
pub(crate) fn archive_with_file(bytes: &Vec<u8>, name: &str, data: &Vec<u8>, method: u16) -> (made: Result<
    Vec<u8>,
    ZipError,
>)
    requires
        appendable(bytes@),
    ensures
        made is Ok == zip_with_file(bytes@, name@, data@, method) is Some,
        made matches Ok(out) ==> zip_with_file(bytes@, name@, data@, method) == Some(out@),
{
    let mut writer = ZipWriter::new_append(Cursor::new(bytes.clone()))?;
    let options = FileOptions::default().compression_method(CompressionMethod::from_u16(method));
    writer.start_file(name, options)?;
    writer.write_all(data)?;
    Ok(writer.finish()?.into_inner())
}

/// As `archive_with_file`, with `start_file_aligned` in place of
/// `start_file`: the data starts at a multiple of `align`.
#[allow(deprecated)]
#[verifier::external_body]
pub(crate) fn archive_with_aligned_file(
    bytes: &Vec<u8>,
    name: &str,
    data: &Vec<u8>,
    method: u16,
    align: u16,
) -> (made: Result<Vec<u8>, ZipError>)
    requires
        appendable(bytes@),
    ensures
        made is Ok == zip_with_aligned_file(bytes@, name@, data@, method, align) is Some,
        made matches Ok(out) ==> zip_with_aligned_file(bytes@, name@, data@, method, align) == Some(
            out@,
        ),
{
    let mut writer = ZipWriter::new_append(Cursor::new(bytes.clone()))?;
    let options = FileOptions::default().compression_method(CompressionMethod::from_u16(method));
    writer.start_file_aligned(name, options, align)?;
    writer.write_all(data)?;
    Ok(writer.finish()?.into_inner())
}

/// `ZipWriter::new_append`, `add_directory` with the default options,
/// `finish`. The codec stores a directory without data, and gives it a
/// name that ends in a slash.
#[verifier::external_body]
pub(crate) fn archive_with_directory(bytes: &Vec<u8>, name: &str) -> (made: Result<Vec<u8>, ZipError>)
    requires
        appendable(bytes@),
    ensures
        made is Ok == zip_with_directory(bytes@, name@) is Some,
        made matches Ok(out) ==> zip_with_directory(bytes@, name@) == Some(out@),
{
    let mut writer = ZipWriter::new_append(Cursor::new(bytes.clone()))?;
    writer.add_directory(name, FileOptions::default())?;
    Ok(writer.finish()?.into_inner())
}

/// `ZipWriter::new_append` on `dest`, `raw_copy_file` of the entry that
/// `ZipArchive::by_index_raw` finds at `index` of `source`, `finish`: the
/// entry goes over as it is stored, without being unpacked.
#[verifier::external_body]
pub(crate) fn archive_with_copy(dest: &Vec<u8>, source: &Vec<u8>, index: usize) -> (made: Result<
    Vec<u8>,
    ZipError,
>)
    requires
        appendable(dest@),
    ensures
        made is Ok == zip_with_copy(dest@, source@, index as int) is Some,
        made matches Ok(out) ==> zip_with_copy(dest@, source@, index as int) == Some(out@),
{
    let mut from = ZipArchive::new(Cursor::new(&source[..]))?;
    let mut writer = ZipWriter::new_append(Cursor::new(dest.clone()))?;
    writer.raw_copy_file(from.by_index_raw(index)?)?;
    Ok(writer.finish()?.into_inner())
}

} // verus!
