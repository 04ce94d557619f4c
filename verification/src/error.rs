//! The failures that the bridge reports to its callers.

use vstd::prelude::*;
use crate::codec::Failure;

verus! {

/// A misuse of a resource that the resource itself refuses.
#[derive(Clone, Copy, Debug, PartialEq, Eq, Structural)]
pub enum Misuse {
    /// Bytes were asked of an entry that stands for a directory.
    ReadDirectory,
    /// A compression id outside the known ones was supplied.
    InvalidCompression,
    /// The bytes were asked of an archive that lives in a file.
    NotInMemory,
    /// An entry was to be deleted that the archive does not have.
    MissingEntry,
}

/// The kinds of resource that live behind a handle.
#[derive(Clone, Copy, Debug, PartialEq, Eq, Structural)]
pub enum Resource {
    Reader,
    Writer,
    Entry,
}

/// Every way in which an operation of the bridge can fail.
#[derive(Debug)]
pub enum Error {
    /// The handle was empty, or its value was released already.
    ClosedHandle,
    /// A holder failed while it held the lock of the cell.
    LockPoisoned,
    /// The archive codec failed, for the cause that it gave.
    Codec(Failure),
    /// A class or member could not be resolved; the text is its name.
    Initialization(String),
    /// The operation makes no sense for this resource.
    InvalidOperation(Misuse),
}

impl Error {
    /// That the caller misused the interface, as opposed to a failure of the
    /// archive, of a lock or of the start-up.
    pub open spec fn is_misuse(self) -> bool {
        self is ClosedHandle || self is InvalidOperation
    }

    /// The text that a human reads for this failure.
    pub open spec fn message_spec(self) -> Seq<char> {
        match self {
            Error::ClosedHandle => "Cannot use a closed handle!"@,
            Error::LockPoisoned => "poisoned lock: another task failed inside"@,
            Error::Codec(cause) => cause.text_spec(),
            Error::Initialization(name) => name@,
            Error::InvalidOperation(Misuse::ReadDirectory) => "Cannot read data from a dir entry!"@,
            Error::InvalidOperation(Misuse::InvalidCompression) => "Invalid compression type supplied!"@,
            Error::InvalidOperation(Misuse::NotInMemory) =>
                "Cannot convert an archive opened from a file into bytes!"@,
            Error::InvalidOperation(Misuse::MissingEntry) => "Cannot find the target entry to delete!"@,
        }
    }

    /// The text for this failure when it came from a resource of the kind
    /// `resource`: a closed handle is named after it.
    pub open spec fn message_of_spec(self, resource: Resource) -> Seq<char> {
        match self {
            Error::ClosedHandle => match resource {
                Resource::Reader => "Cannot use a closed reader!"@,
                Resource::Writer => "Cannot use a closed writer!"@,
                Resource::Entry => "using a closed entry, after JVM finalizer called!"@,
            },
            _ => self.message_spec(),
        }
    }

    /// Tells a misuse of the interface from every other failure.
    pub fn caller_fault(&self) -> (fault: bool)
        ensures
            fault == self.is_misuse(),
    {
        match self {
            Error::ClosedHandle => true,
            Error::InvalidOperation(_) => true,
            _ => false,
        }
    }

    /// The text that a human reads for this failure.
    pub fn message(&self) -> (text: String)
        ensures
            text@ == self.message_spec(),
    {
        match self {
            Error::ClosedHandle => "Cannot use a closed handle!".to_owned(),
            Error::LockPoisoned => "poisoned lock: another task failed inside".to_owned(),
            Error::Codec(cause) => cause.text(),
            Error::Initialization(name) => name.clone(),
            Error::InvalidOperation(Misuse::ReadDirectory) => "Cannot read data from a dir entry!".to_owned(),
            Error::InvalidOperation(Misuse::InvalidCompression) => "Invalid compression type supplied!".to_owned(),
            Error::InvalidOperation(Misuse::NotInMemory) =>
                "Cannot convert an archive opened from a file into bytes!".to_owned(),
            Error::InvalidOperation(Misuse::MissingEntry) =>
                "Cannot find the target entry to delete!".to_owned(),
        }
    }

    /// The text for this failure when it came from a resource of the kind
    /// `resource`: a closed handle is named after it.
    pub fn message_of(&self, resource: Resource) -> (text: String)
        ensures
            text@ == self.message_of_spec(resource),
    {
        match self {
            Error::ClosedHandle => match resource {
                Resource::Reader => "Cannot use a closed reader!".to_owned(),
                Resource::Writer => "Cannot use a closed writer!".to_owned(),
                Resource::Entry => "using a closed entry, after JVM finalizer called!".to_owned(),
            },
            _ => self.message(),
        }
    }
}

} // verus!
