//! The closed set of failure kinds of the marshaling layer.
//!
//! Every fallible operation returns one of these; nothing in the library
//! aborts. Only the entry-point bridge ever turns an error into the host's
//! non-recoverable crash signal, at the outermost boundary. Type-mismatch
//! extraction failures carry the offending value, so a failure can be
//! diagnosed without fetching the value again.

use crate::host::Host;
use crate::value::ByondValue;
use vstd::prelude::*;

verus! {

/// A failure the host itself reported, with the message it gave.
#[derive(Debug)]
pub struct ByondError {
    /// The host's error message.
    pub message: String,
}

/// Everything that can go wrong in the marshaling layer.
#[derive(Debug)]
pub enum Error {
    /// A value could not be converted to the requested type.
    InvalidConversion,
    /// A proc was called whose name is not in the host's symbol table;
    /// carries the name that failed to resolve.
    InvalidProc(Vec<u8>),
    /// A host string did not hold well-formed UTF-8.
    NonUtf8String,
    /// The host reported a failure with a specific message.
    ByondError(ByondError),
    /// The host reported a failure without any message.
    UnknownByondError,
    /// The operation is not offered by the host version in use.
    NotAvailableForThisByondVersion,
    /// The value exposes no named variables; carries the offending value.
    NotReferencable(ByondValue),
    /// A list was expected; carries the offending value.
    NotAList(ByondValue),
    /// A string was expected; carries the offending value.
    NotAString(ByondValue),
    /// A number was expected; carries the offending value.
    NotANum(ByondValue),
    /// A pointer was expected; carries the offending value.
    NotAPtr(ByondValue),
    /// A string lookup found nothing interned; carries the looked-up bytes.
    NonExistentString(Vec<u8>),
    /// The host refused to intern a string (embedded NUL byte or table
    /// exhaustion); carries the rejected bytes.
    UnableToCreateString(Vec<u8>),
}

/// The text [`Error::describe`] produces for each failure kind.
pub open spec fn describe_spec(e: Error) -> Seq<char> {
    match e {
        Error::InvalidConversion => "cannot convert value to target type"@,
        Error::InvalidProc(_) => "cannot call proc, proc does not exist"@,
        Error::NonUtf8String => "string is not utf8"@,
        Error::ByondError(b) => b.message@,
        Error::UnknownByondError => "unknown internal host error"@,
        Error::NotAvailableForThisByondVersion => "this call is not available on the current version of the host"@,
        Error::NotReferencable(_) => "cannot get a ref from this value"@,
        Error::NotAList(_) => "value is not a list"@,
        Error::NotAString(_) => "value is not a string"@,
        Error::NotANum(_) => "value is not a number"@,
        Error::NotAPtr(_) => "value is not a pointer"@,
        Error::NonExistentString(_) => "string id not found"@,
        Error::UnableToCreateString(_) => "unable to create string"@,
    }
}

impl Error {
    /// The error as text, as the bridge reports it to the host's crash
    /// facility.
    pub fn describe(&self) -> (r: String)
        ensures
            r@ == describe_spec(*self),
    {
        match self {
            Error::InvalidConversion => "cannot convert value to target type".to_owned(),
            Error::InvalidProc(_) => "cannot call proc, proc does not exist".to_owned(),
            Error::NonUtf8String => "string is not utf8".to_owned(),
            Error::ByondError(b) => b.message.clone(),
            Error::UnknownByondError => "unknown internal host error".to_owned(),
            Error::NotAvailableForThisByondVersion => "this call is not available on the current version of the host".to_owned(),
            Error::NotReferencable(_) => "cannot get a ref from this value".to_owned(),
            Error::NotAList(_) => "value is not a list".to_owned(),
            Error::NotAString(_) => "value is not a string".to_owned(),
            Error::NotANum(_) => "value is not a number".to_owned(),
            Error::NotAPtr(_) => "value is not a pointer".to_owned(),
            Error::NonExistentString(_) => "string id not found".to_owned(),
            Error::UnableToCreateString(_) => "unable to create string".to_owned(),
        }
    }

    /// Fetches the host's pending error message, as the layer does right
    /// after the host reports that an operation failed.
    pub fn get_last_byond_error(host: &Host) -> (r: Error)
        ensures
            r matches Error::ByondError(b) ==> host.last_error matches Some(m) && b.message@
                == m@,
            r matches Error::UnknownByondError ==> host.last_error is None,
            r is ByondError || r is UnknownByondError,
    {
        match &host.last_error {
            Some(m) => Error::ByondError(ByondError { message: m.clone() }),
            None => Error::UnknownByondError,
        }
    }
}

} // verus!
