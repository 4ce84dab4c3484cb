//! Mail compositing and SMTP envelope derivation.
//!
//! `compositor` turns the alternative bodies, shared embeddings and attachments
//! produced by a template engine into one minimal multipart body tree;
//! `envelope` derives the delivery sender and recipients from a finished mail's
//! header fields.
pub mod resource;
pub mod headers;
pub mod lists;
pub mod envelope;
pub mod cid;
pub mod compositor;
pub mod mail;
pub mod template;

pub use crate::cid::{CIdError, ContentIdRegistry};
pub use crate::compositor::{compose, CompositionError, MailBody};
pub use crate::envelope::{EnvelopData, EnvelopFromMailError, MailRequest, MailResponse, SmtpMailbox};
pub use crate::headers::{HeaderField, HeaderSet, HeaderTypeError, Mailbox};
pub use crate::mail::Mail;
pub use crate::resource::{Attachment, BodyPart, ContentId, EmbeddingWithCId, MailParts, Resource};
pub use crate::template::{render_body, RenderError, TemplateEngine};
