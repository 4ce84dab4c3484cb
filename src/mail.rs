//! A composed mail: its header fields and its body tree.
use vstd::prelude::*;

use crate::compositor::MailBody;
use crate::headers::HeaderSet;

verus! {

/// A composed mail, ready for MIME encoding and transport.
pub struct Mail {
    pub headers: HeaderSet,
    pub body: MailBody,
}

impl Mail {
    pub fn new(headers: HeaderSet, body: MailBody) -> (r: Mail)
        ensures
            r.headers == headers,
            r.body == body,
    {
        Mail { headers, body }
    }

    pub fn headers(&self) -> (r: &HeaderSet)
        ensures
            *r == self.headers,
    {
        &self.headers
    }
}

} // verus!
