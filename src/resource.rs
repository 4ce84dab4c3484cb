//! Resources and the parts of a mail that carry them.
use vstd::prelude::*;

verus! {

/// Content bytes with their media type.
///
/// `id` is the logical identity of the resource: two values with the same
/// `id` stand for the same content.
pub struct Resource {
    pub id: u64,
    pub media_type: String,
    pub content: Vec<u8>,
}

impl Resource {
    pub fn new(id: u64, media_type: String, content: Vec<u8>) -> (r: Resource)
        ensures
            r.id == id,
            r.media_type == media_type,
            r.content == content,
    {
        Resource { id, media_type, content }
    }
}

/// A content identifier: the token by which rendered markup refers to an
/// inline resource.
#[derive(PartialEq, Eq, Structural, Clone, Copy, Debug)]
pub struct ContentId {
    pub id: u64,
}

/// A resource paired with the content identifier under which the rendered
/// body refers to it.
pub struct EmbeddingWithCId {
    pub resource: Resource,
    pub cid: ContentId,
}

impl EmbeddingWithCId {
    pub fn new(resource: Resource, cid: ContentId) -> (r: EmbeddingWithCId)
        ensures
            r.resource == resource,
            r.cid == cid,
    {
        EmbeddingWithCId { resource, cid }
    }
}

/// A resource attached to the mail, with the file name suggested to the reader.
pub struct Attachment {
    pub resource: Resource,
    pub file_name: Option<String>,
}

impl Attachment {
    pub fn new(resource: Resource, file_name: Option<String>) -> (r: Attachment)
        ensures
            r.resource == resource,
            r.file_name == file_name,
    {
        Attachment { resource, file_name }
    }
}

/// One rendered alternative of the mail body with the embeddings that only it
/// refers to.
pub struct BodyPart {
    /// the rendered body
    pub body_resource: Resource,
    /// embeddings that this alternative's markup refers to by content id
    pub embeddings: Vec<EmbeddingWithCId>,
}

impl BodyPart {
    pub fn new(body_resource: Resource, embeddings: Vec<EmbeddingWithCId>) -> (r: BodyPart)
        ensures
            r.body_resource == body_resource,
            r.embeddings == embeddings,
    {
        BodyPart { body_resource, embeddings }
    }
}

/// What one template invocation produces.
pub struct MailParts {
    /// the alternatives, in the order of preference that the mail keeps
    pub alternative_bodies: Vec<BodyPart>,
    /// embeddings shared between the alternative bodies
    pub shared_embeddings: Vec<EmbeddingWithCId>,
    pub attachments: Vec<Attachment>,
}

impl MailParts {
    pub fn new(
        alternative_bodies: Vec<BodyPart>,
        shared_embeddings: Vec<EmbeddingWithCId>,
        attachments: Vec<Attachment>,
    ) -> (r: MailParts)
        ensures
            r.alternative_bodies == alternative_bodies,
            r.shared_embeddings == shared_embeddings,
            r.attachments == attachments,
    {
        MailParts { alternative_bodies, shared_embeddings, attachments }
    }
}

} // verus!
