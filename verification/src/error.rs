//! The error taxonomy of the mapping lifecycle and of the event primitive.

use vstd::prelude::*;

verus! {

use crate::digits::dec_seq;

/// `std::io::Error` carries the original cause of a failed link-file
/// operation.  Declared so error values can hold it; it stays opaque here.
#[verifier::external_type_specification]
#[verifier::external_body]
pub struct ExIoError(std::io::Error);

/// Everything that can go wrong while creating or opening a mapping, or while
/// re-attaching to an event primitive.
#[derive(Debug)]
pub enum ShmemError {
    /// A mapping of size zero was requested.
    MapSizeZero,
    /// `open` was called with neither an explicit id nor a link path.
    NoLinkOrOsId,
    /// A link file and an explicit id were both given but disagree.
    FlinkInvalidOsId,
    /// Creating the link file failed; the cause is preserved.
    LinkCreateFailed(std::io::Error),
    /// Writing the id into the link file failed; the cause is preserved.
    LinkWriteFailed(std::io::Error),
    /// A link file already exists and overwriting was not requested.
    LinkExists,
    /// Opening the link file for reading failed; the cause is preserved.
    LinkOpenFailed(std::io::Error),
    /// Reading the link file failed; the cause is preserved.
    LinkReadFailed(std::io::Error),
    /// A link file was expected but is absent.
    LinkDoesNotExist,
    /// An object with the explicitly chosen id already exists.
    MappingIdExists,
    /// The backend could not create the object; the OS code is preserved.
    MapCreateFailed(u32),
    /// The backend could not open the object; the OS code is preserved.
    MapOpenFailed(u32),
    /// An unclassified backend failure; the OS code is preserved.
    UnknownOsError(u32),
    /// Any other failure, described by its message.
    Unknown(String),
}

impl From<String> for ShmemError {
    fn from(value: String) -> (r: Self) {
        ShmemError::Unknown(value)
    }
}

impl vstd::std_specs::convert::FromSpecImpl<String> for ShmemError {
    open spec fn obeys_from_spec() -> bool {
        true
    }

    open spec fn from_spec(value: String) -> Self {
        ShmemError::Unknown(value)
    }
}

/// What `message` promises of its result: for errors that preserve an
/// I/O cause only the fixed prefix is pinned down (the cause's text comes
/// from the platform), everything else is given exactly.
pub open spec fn message_ok(e: &ShmemError, m: Seq<char>) -> bool {
    match e {
        ShmemError::MapSizeZero => m == "You cannot create a shared memory mapping of 0 size"@,
        ShmemError::NoLinkOrOsId => m == "Tried to open mapping without flink path or os_id"@,
        ShmemError::FlinkInvalidOsId => m
            == "Tried to open mapping from both flink and os_id but the flink did not point to the same os_id"@,
        ShmemError::LinkCreateFailed(_) => "Creating the link file failed, "@.is_prefix_of(m),
        ShmemError::LinkWriteFailed(_) => "Writing the link file failed, "@.is_prefix_of(m),
        ShmemError::LinkExists => m == "Shared memory link already exists"@,
        ShmemError::LinkOpenFailed(_) => "Opening the link file failed, "@.is_prefix_of(m),
        ShmemError::LinkReadFailed(_) => "Reading the link file failed, "@.is_prefix_of(m),
        ShmemError::LinkDoesNotExist => m == "Requested link file does not exist"@,
        ShmemError::MappingIdExists => m == "Shared memory OS specific ID already exists"@,
        ShmemError::MapCreateFailed(code) => m == "Creating the shared memory failed, os error "@
            + dec_seq(*code as nat),
        ShmemError::MapOpenFailed(code) => m == "Opening the shared memory failed, os error "@
            + dec_seq(*code as nat),
        ShmemError::UnknownOsError(code) => m == "An unexpected OS error occurred, os error "@
            + dec_seq(*code as nat),
        ShmemError::Unknown(err) => m == err@,
    }
}

/// Relies on the `Display` impl of `std::io::Error` for the diagnostic text
/// of a preserved cause.
#[verifier::external_body]
fn io_error_text(e: &std::io::Error) -> String {
    format!("{e}")
}

impl ShmemError {
    /// The unclassified error carrying this message; what conversion from a
    /// borrowed string gives.
    pub fn unknown(msg: &str) -> (r: ShmemError)
        ensures
            r matches ShmemError::Unknown(s) && s@ == msg@,
    {
        ShmemError::Unknown(msg.to_owned())
    }

    /// A human-readable description of the error.
    pub fn message(&self) -> (r: String)
        ensures
            message_ok(self, r@),
    {
        match self {
            ShmemError::MapSizeZero => "You cannot create a shared memory mapping of 0 size"
                .to_owned(),
            ShmemError::NoLinkOrOsId => "Tried to open mapping without flink path or os_id"
                .to_owned(),
            ShmemError::FlinkInvalidOsId =>
                "Tried to open mapping from both flink and os_id but the flink did not point to the same os_id"
                .to_owned(),
            ShmemError::LinkCreateFailed(err) => with_cause("Creating the link file failed, ", err),
            ShmemError::LinkWriteFailed(err) => with_cause("Writing the link file failed, ", err),
            ShmemError::LinkExists => "Shared memory link already exists".to_owned(),
            ShmemError::LinkOpenFailed(err) => with_cause("Opening the link file failed, ", err),
            ShmemError::LinkReadFailed(err) => with_cause("Reading the link file failed, ", err),
            ShmemError::LinkDoesNotExist => "Requested link file does not exist".to_owned(),
            ShmemError::MappingIdExists => "Shared memory OS specific ID already exists".to_owned(),
            ShmemError::MapCreateFailed(code) => with_code(
                "Creating the shared memory failed, os error ",
                *code,
            ),
            ShmemError::MapOpenFailed(code) => with_code(
                "Opening the shared memory failed, os error ",
                *code,
            ),
            ShmemError::UnknownOsError(code) => with_code(
                "An unexpected OS error occurred, os error ",
                *code,
            ),
            ShmemError::Unknown(err) => err.as_str().to_owned(),
        }
    }
}

/// Appends the preserved cause's text to a fixed prefix.
fn with_cause(prefix: &str, err: &std::io::Error) -> (r: String)
    ensures
        prefix@.is_prefix_of(r@),
{
    let mut s = prefix.to_owned();
    let tail = io_error_text(err);
    s.append(tail.as_str());
    proof {
        assert(prefix@ =~= s@.subrange(0, prefix@.len() as int));
    }
    s
}

/// Appends the decimal OS error code to a fixed prefix.
fn with_code(prefix: &str, code: u32) -> (r: String)
    ensures
        r@ == prefix@ + dec_seq(code as nat),
{
    let mut s = prefix.to_owned();
    s.append(crate::digits::dec_string(code).as_str());
    s
}

} // verus!
