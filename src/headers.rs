//! The header fields of a finished mail that delivery addressing reads.
use vstd::prelude::*;

use vec1::Vec1;

verus! {

/// The header fields that the envelope derivation knows of.
#[derive(PartialEq, Eq, Structural, Clone, Copy, Debug)]
pub enum HeaderField {
    Sender,
    From,
    To,
    Cc,
    Bcc,
}

/// A header field is present but its value fails structural validation.
#[derive(PartialEq, Eq, Structural, Clone, Copy, Debug)]
pub struct HeaderTypeError {
    pub field: HeaderField,
}

/// A mailbox as a header field holds it: the two halves of its address.
///
/// The address syntax is validated where the header is parsed.
#[derive(Clone, Debug)]
pub struct Mailbox {
    pub local_part: String,
    pub domain: String,
}

impl Mailbox {
    pub fn new(local_part: String, domain: String) -> (r: Mailbox)
        ensures
            r.local_part == local_part,
            r.domain == domain,
    {
        Mailbox { local_part, domain }
    }
}

/// What a lookup of one header field gives: `None` where the field is absent,
/// `Some(Err(..))` where it is present with a malformed value, else the typed
/// value.
pub type HeaderLookup<T> = Option<Result<T, HeaderTypeError>>;

/// The typed header fields of a mail that decide where it is delivered.
///
/// `Sender` holds one mailbox; `From`, `To`, `Cc` and `Bcc` hold ordered,
/// non-empty mailbox lists.
pub struct HeaderSet {
    pub sender: HeaderLookup<Mailbox>,
    pub from: HeaderLookup<Vec1<Mailbox>>,
    pub to: HeaderLookup<Vec1<Mailbox>>,
    pub cc: HeaderLookup<Vec1<Mailbox>>,
    pub bcc: HeaderLookup<Vec1<Mailbox>>,
}

impl HeaderSet {
    /// A header set with none of the fields present.
    pub fn new() -> (r: HeaderSet)
        ensures
            r.sender is None,
            r.from is None,
            r.to is None,
            r.cc is None,
            r.bcc is None,
    {
        HeaderSet { sender: None, from: None, to: None, cc: None, bcc: None }
    }
}

} // verus!
