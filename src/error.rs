use vstd::prelude::*;
use vstd::string::{to_string_from_display_ensures, StringExecFns};

verus! {

/// Makes `std::io::Error` usable here as an opaque value: errors of the file
/// system and of the storage engine are carried, never inspected.
#[verifier::external_type_specification]
#[verifier::external_body]
pub struct ExIoError(std::io::Error);

/// Why a downgrade did not complete.
#[derive(Debug)]
pub enum Error {
    /// The version marker is missing, unreadable, not a number, or holds a
    /// version that is neither the current nor the downgrade target.
    UnknownDatabaseVersion,
    /// The file system or the storage engine failed.
    Io(std::io::Error),
}

/// The message reported for `Error::UnknownDatabaseVersion`.
pub open spec fn unknown_version_message() -> Seq<char> {
    "Current database version cannot be read"@
}

/// The text placed before an I/O error's own description.
pub open spec fn io_message_prefix() -> Seq<char> {
    "Unexpected io error on DB migration: "@
}

impl Error {
    /// The human-readable message of this error. An I/O error's message
    /// embeds, verbatim, the text that the error's `to_string` gives.
    pub fn message(&self) -> (r: String)
        ensures
            self is UnknownDatabaseVersion ==> r@ == unknown_version_message(),
            self is Io ==> exists|d: String|
                to_string_from_display_ensures::<std::io::Error>(&(self->Io_0), d) && r@
                    == io_message_prefix() + d@ + "."@,
    {
        match self {
            Error::UnknownDatabaseVersion => {
                String::from_str("Current database version cannot be read")
            },
            Error::Io(err) => {
                let detail = err.to_string();
                let mut r = String::from_str("Unexpected io error on DB migration: ");
                r.append(detail.as_str());
                r.append(".");
                proof {
                    assert(r@ == io_message_prefix() + detail@ + "."@);
                    assert(to_string_from_display_ensures::<std::io::Error>(err, detail));
                }
                r
            },
        }
    }
}

impl From<std::io::Error> for Error {
    fn from(err: std::io::Error) -> (r: Error)
        ensures
            r == Error::Io(err),
    {
        Error::Io(err)
    }
}

impl vstd::std_specs::convert::FromSpecImpl<std::io::Error> for Error {
    open spec fn obeys_from_spec() -> bool {
        true
    }

    open spec fn from_spec(err: std::io::Error) -> Error {
        Error::Io(err)
    }
}

} // verus!
