//! Deriving the SMTP envelope (sender and recipients) from a mail's headers.
use vstd::prelude::*;

use crate::headers::{HeaderSet, HeaderTypeError, Mailbox};
use crate::lists::{
    first_mailbox, mailbox_count, mailbox_list, smtp_mailbox_count, smtp_mailbox_list, smtp_mailboxes,
};
use crate::mail::Mail;
use vec1::Vec1;

verus! {

/// A mailbox as the SMTP session takes it.
#[derive(Clone, Debug)]
pub struct SmtpMailbox {
    pub local: String,
    pub domain: String,
}

/// Why no envelope could be derived from a header set.
#[derive(PartialEq, Eq, Structural, Clone, Copy, Debug)]
pub enum EnvelopFromMailError {
    /// A field that the derivation reads is present but malformed.
    HeaderTypeError(HeaderTypeError),
    /// No `Sender` field and more than one mailbox in `From`.
    AmbiguousSender,
    /// Neither a `Sender` nor a `From` field.
    MissingSenderAndFrom,
    /// No `To` field.
    MissingRecipients,
}

/// The SMTP mailbox that stands for a header mailbox.
pub open spec fn smtp_of(m: Mailbox) -> SmtpMailbox {
    SmtpMailbox { local: m.local_part, domain: m.domain }
}

/// The envelope sender of a header set: `Sender` where present, else the one
/// mailbox of `From`.
pub open spec fn derived_sender(h: HeaderSet) -> Result<SmtpMailbox, EnvelopFromMailError> {
    match h.sender {
        Some(Ok(m)) => Ok(smtp_of(m)),
        Some(Err(e)) => Err(EnvelopFromMailError::HeaderTypeError(e)),
        None => match h.from {
            None => Err(EnvelopFromMailError::MissingSenderAndFrom),
            Some(Err(e)) => Err(EnvelopFromMailError::HeaderTypeError(e)),
            Some(Ok(v)) => if mailbox_list(v).len() > 1 {
                Err(EnvelopFromMailError::AmbiguousSender)
            } else {
                Ok(smtp_of(mailbox_list(v)[0]))
            },
        },
    }
}

/// The envelope recipients of a header set: the mailboxes of `To`, in order.
/// `Cc` and `Bcc` are not read.
pub open spec fn derived_recipients(h: HeaderSet) -> Result<Seq<SmtpMailbox>, EnvelopFromMailError> {
    match h.to {
        None => Err(EnvelopFromMailError::MissingRecipients),
        Some(Err(e)) => Err(EnvelopFromMailError::HeaderTypeError(e)),
        Some(Ok(v)) => Ok(mailbox_list(v).map_values(|m: Mailbox| smtp_of(m))),
    }
}

/// The error that derivation from a header set ends in, if any: a failure of
/// the sender's resolution comes before one of the recipients'.
pub open spec fn derivation_error(h: HeaderSet) -> Option<EnvelopFromMailError> {
    match derived_sender(h) {
        Err(e) => Some(e),
        Ok(_) => match derived_recipients(h) {
            Err(e) => Some(e),
            Ok(_) => None,
        },
    }
}

/// Sender precedence: where `Sender` holds a mailbox, it is the envelope
/// sender, whatever `From` holds.
pub proof fn lemma_sender_takes_precedence(h: HeaderSet, m: Mailbox)
    requires
        h.sender == Some(Ok::<Mailbox, HeaderTypeError>(m)),
    ensures
        derived_sender(h) == Ok::<SmtpMailbox, EnvelopFromMailError>(smtp_of(m)),
{
}

/// Without `Sender`, a `From` of exactly one mailbox gives the sender, and one
/// of more than one mailbox is `AmbiguousSender`.
pub proof fn lemma_sender_from_single_from(h: HeaderSet, v: Vec1<Mailbox>)
    requires
        h.sender is None,
        h.from == Some(Ok::<Vec1<Mailbox>, HeaderTypeError>(v)),
    ensures
        mailbox_list(v).len() == 1 ==> derived_sender(h) == Ok::<SmtpMailbox, EnvelopFromMailError>(
            smtp_of(mailbox_list(v)[0]),
        ),
        mailbox_list(v).len() > 1 ==> derived_sender(h) == Err::<SmtpMailbox, EnvelopFromMailError>(
            EnvelopFromMailError::AmbiguousSender,
        ),
{
}

/// Without `To`, no envelope is derived, and where the sender resolves the
/// error is `MissingRecipients`.
pub proof fn lemma_missing_to(h: HeaderSet)
    requires
        h.to is None,
    ensures
        derivation_error(h) is Some,
        derived_sender(h) is Ok ==> derivation_error(h) == Some(
            EnvelopFromMailError::MissingRecipients,
        ),
{
}

/// `Cc` and `Bcc` are not read: two header sets that agree on `Sender`,
/// `From` and `To` give the same sender, the same recipients and the same
/// error.
pub proof fn lemma_cc_bcc_not_read(h1: HeaderSet, h2: HeaderSet)
    requires
        h1.sender == h2.sender,
        h1.from == h2.from,
        h1.to == h2.to,
    ensures
        derived_sender(h1) == derived_sender(h2),
        derived_recipients(h1) == derived_recipients(h2),
        derivation_error(h1) == derivation_error(h2),
{
}

/// The sender and the non-empty, ordered recipient list of one delivery.
pub struct EnvelopData {
    from: SmtpMailbox,
    to: Vec1<SmtpMailbox>,
}

impl EnvelopData {
    pub closed spec fn sender(&self) -> SmtpMailbox {
        self.from
    }

    pub closed spec fn recipients(&self) -> Seq<SmtpMailbox> {
        smtp_mailbox_list(self.to)
    }

    /// An envelope has at least one recipient.
    pub open spec fn wf(&self) -> bool {
        self.recipients().len() >= 1
    }

    /// This envelope is the one derived from `h`.
    pub open spec fn is_derived_from(&self, h: HeaderSet) -> bool {
        &&& self.wf()
        &&& derived_sender(h) == Ok::<SmtpMailbox, EnvelopFromMailError>(self.sender())
        &&& derived_recipients(h) == Ok::<Seq<SmtpMailbox>, EnvelopFromMailError>(
            self.recipients(),
        )
    }

    /// An envelope given by the caller.
    pub fn new(from: SmtpMailbox, to: Vec1<SmtpMailbox>) -> (r: EnvelopData)
        ensures
            r.sender() == from,
            r.recipients() == smtp_mailbox_list(to),
            r.wf(),
    {
        smtp_mailbox_count(&to);
        EnvelopData { from, to }
    }

    /// The number of recipients, one or more.
    pub fn recipient_count(&self) -> (r: usize)
        ensures
            r == self.recipients().len(),
            r >= 1,
            self.wf(),
    {
        smtp_mailbox_count(&self.to)
    }

    pub fn split(self) -> (r: (SmtpMailbox, Vec1<SmtpMailbox>))
        ensures
            r.0 == self.sender(),
            smtp_mailbox_list(r.1) == self.recipients(),
            smtp_mailbox_list(r.1).len() >= 1,
    {
        let EnvelopData { from, to } = self;
        smtp_mailbox_count(&to);
        (from, to)
    }

    /// Derives the envelope from a header set: the sender from `Sender`, or
    /// else from a `From` that names exactly one mailbox; the recipients from
    /// `To`, in order.
    pub fn from_headers(headers: &HeaderSet) -> (r: Result<EnvelopData, EnvelopFromMailError>)
        ensures
            match derivation_error(*headers) {
                Some(e) => r == Err::<EnvelopData, EnvelopFromMailError>(e),
                None => r is Ok && r->Ok_0.is_derived_from(*headers),
            },
            headers.sender is None ==> match headers.from {
                Some(Ok(v)) => mailbox_list(v).len() >= 1,
                _ => true,
            },
            derivation_error(*headers) is None ==> match headers.to {
                Some(Ok(v)) => mailbox_list(v).len() >= 1,
                _ => true,
            },
    {
        let smtp_from = match &headers.sender {
            Some(Ok(sender)) => mailbox2smtp_mailbox(sender),
            Some(Err(e)) => return Err(EnvelopFromMailError::HeaderTypeError(*e)),
            None => match &headers.from {
                None => return Err(EnvelopFromMailError::MissingSenderAndFrom),
                Some(Err(e)) => return Err(EnvelopFromMailError::HeaderTypeError(*e)),
                Some(Ok(from)) => {
                    if mailbox_count(from) > 1 {
                        return Err(EnvelopFromMailError::AmbiguousSender);
                    }
                    mailbox2smtp_mailbox(first_mailbox(from))
                },
            },
        };
        let smtp_to = match &headers.to {
            None => return Err(EnvelopFromMailError::MissingRecipients),
            Some(Err(e)) => return Err(EnvelopFromMailError::HeaderTypeError(*e)),
            Some(Ok(to)) => {
                mailbox_count(to);
                smtp_mailboxes(to)
            },
        };
        Ok(EnvelopData { from: smtp_from, to: smtp_to })
    }
}

impl EnvelopData {
    /// Derives the envelope from the header fields of a mail.
    pub fn from_mail(mail: &Mail) -> (r: Result<EnvelopData, EnvelopFromMailError>)
        ensures
            match derivation_error(mail.headers) {
                Some(e) => r == Err::<EnvelopData, EnvelopFromMailError>(e),
                None => r is Ok && r->Ok_0.is_derived_from(mail.headers),
            },
            mail.headers.sender is None ==> match mail.headers.from {
                Some(Ok(v)) => mailbox_list(v).len() >= 1,
                _ => true,
            },
            derivation_error(mail.headers) is None ==> match mail.headers.to {
                Some(Ok(v)) => mailbox_list(v).len() >= 1,
                _ => true,
            },
    {
        EnvelopData::from_headers(mail.headers())
    }
}

/// The answer to a delivered mail request.
#[derive(PartialEq, Eq, Structural, Clone, Copy, Debug)]
pub struct MailResponse;

/// A mail to deliver, with the envelope to deliver it under where the caller
/// gives one.
pub struct MailRequest {
    mail: Mail,
    envelop_data: Option<EnvelopData>,
}

impl MailRequest {
    pub closed spec fn mail(&self) -> Mail {
        self.mail
    }

    pub closed spec fn envelop_data(&self) -> Option<EnvelopData> {
        self.envelop_data
    }

    /// A request whose envelope is derived from the mail's headers.
    pub fn new(mail: Mail) -> (r: MailRequest)
        ensures
            r.mail() == mail,
            r.envelop_data() is None,
    {
        MailRequest { mail, envelop_data: None }
    }

    /// A request delivered under the given envelope, whatever the mail's
    /// headers say.
    pub fn new_with_envelop(mail: Mail, envelop: EnvelopData) -> (r: MailRequest)
        ensures
            r.mail() == mail,
            r.envelop_data() == Some(envelop),
    {
        MailRequest { mail, envelop_data: Some(envelop) }
    }

    /// The mail and the envelope to deliver it under: the one given, else the
    /// one derived from the mail's headers.
    pub fn into_mail_with_envelop(self) -> (r: Result<(Mail, EnvelopData), EnvelopFromMailError>)
        ensures
            r is Ok ==> r->Ok_0.1.wf(),
            match self.envelop_data() {
                Some(e) => r == Ok::<(Mail, EnvelopData), EnvelopFromMailError>((self.mail(), e)),
                None => match derivation_error(self.mail().headers) {
                    Some(e) => r == Err::<(Mail, EnvelopData), EnvelopFromMailError>(e),
                    None => r is Ok && r->Ok_0.0 == self.mail() && r->Ok_0.1.is_derived_from(
                        self.mail().headers,
                    ),
                },
            },
    {
        let envelop = match self.envelop_data {
            Some(envelop) => {
                envelop.recipient_count();
                envelop
            },
            None => EnvelopData::from_mail(&self.mail)?,
        };
        Ok((self.mail, envelop))
    }
}

/// The SMTP mailbox for a header mailbox: the same local part and domain.
pub fn mailbox2smtp_mailbox(mailbox: &Mailbox) -> (r: SmtpMailbox)
    ensures
        r == smtp_of(*mailbox),
{
    SmtpMailbox { local: mailbox.local_part.clone(), domain: mailbox.domain.clone() }
}

} // verus!
