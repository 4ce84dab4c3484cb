//! Non-empty mailbox lists, held in `vec1::Vec1`.
use vstd::prelude::*;

use vec1::Vec1;

use crate::envelope::{mailbox2smtp_mailbox, smtp_of, SmtpMailbox};
use crate::headers::Mailbox;

verus! {

#[verifier::external_type_specification]
#[verifier::external_body]
#[verifier::reject_recursive_types(I)]
pub struct ExVec1<I>(vec1::Vec1<I>);

/// The mailboxes of a header field's list, in order.
pub uninterp spec fn mailbox_list(v: Vec1<Mailbox>) -> Seq<Mailbox>;

/// The mailboxes of an envelope's recipient list, in order.
pub uninterp spec fn smtp_mailbox_list(v: Vec1<SmtpMailbox>) -> Seq<SmtpMailbox>;

/// Relies on `vec1::Vec1::len`: the number of mailboxes, which `Vec1` keeps
/// at one or more.
#[verifier::external_body]
pub(crate) fn mailbox_count(v: &Vec1<Mailbox>) -> (r: usize)
    ensures
        r == mailbox_list(*v).len(),
        r >= 1,
{
    v.len()
}

/// Relies on `vec1::Vec1::len`: the number of recipients, which `Vec1` keeps
/// at one or more.
#[verifier::external_body]
pub(crate) fn smtp_mailbox_count(v: &Vec1<SmtpMailbox>) -> (r: usize)
    ensures
        r == smtp_mailbox_list(*v).len(),
        r >= 1,
{
    v.len()
}

/// Relies on `vec1::Vec1::first`: the first mailbox of the list.
#[verifier::external_body]
pub(crate) fn first_mailbox(v: &Vec1<Mailbox>) -> (r: &Mailbox)
    ensures
        *r == mailbox_list(*v)[0],
{
    v.first()
}

/// Relies on `vec1::Vec1::mapped_ref`: the list of the SMTP mailboxes of the
/// given mailboxes, one for each, in order.
#[verifier::external_body]
pub(crate) fn smtp_mailboxes(v: &Vec1<Mailbox>) -> (r: Vec1<SmtpMailbox>)
    ensures
        smtp_mailbox_list(r) == mailbox_list(*v).map_values(|m: Mailbox| smtp_of(m)),
{
    v.mapped_ref(mailbox2smtp_mailbox)
}

} // verus!
