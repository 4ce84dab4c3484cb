//! Compositing the parts of a mail into one minimal multipart body tree.
use vstd::prelude::*;

use crate::resource::{Attachment, BodyPart, EmbeddingWithCId, MailParts, Resource};

verus! {

/// The body tree of a composed mail.
pub enum MailBody {
    /// one resource, no multipart layer
    Single(Resource),
    /// multipart/alternative: renderings of one content, in order of preference
    Alternative(Vec<MailBody>),
    /// multipart/related: a body and the resources that it refers to inline
    Related(Box<MailBody>, Vec<EmbeddingWithCId>),
    /// multipart/mixed: a body and the files attached to it
    Mixed(Box<MailBody>, Vec<Attachment>),
}

/// Why no body could be composed.
#[derive(PartialEq, Eq, Structural, Clone, Copy, Debug)]
pub enum CompositionError {
    /// The template engine gave no alternative body.
    EmptyAlternatives,
}

/// The node for one alternative: its body alone where it has no embeddings of
/// its own, else a multipart/related of the body and those embeddings.
pub open spec fn is_alternative_node(b: MailBody, p: BodyPart) -> bool {
    if p.embeddings@.len() == 0 {
        b == MailBody::Single(p.body_resource)
    } else {
        match b {
            MailBody::Related(inner, e) => *inner == MailBody::Single(p.body_resource) && e@
                == p.embeddings@,
            _ => false,
        }
    }
}

/// The node for all alternatives: the one node unwrapped where there is one,
/// else a multipart/alternative of the nodes in the given order.
pub open spec fn is_alternatives_node(b: MailBody, ps: Seq<BodyPart>) -> bool {
    if ps.len() == 1 {
        is_alternative_node(b, ps[0])
    } else {
        match b {
            MailBody::Alternative(v) => v@.len() == ps.len() && forall|i: int|
                0 <= i < ps.len() ==> is_alternative_node(#[trigger] v@[i], ps[i]),
            _ => false,
        }
    }
}

/// The node below the attachments: the alternatives node, wrapped with the
/// shared embeddings in a multipart/related where there are any.
pub open spec fn is_related_node(b: MailBody, parts: MailParts) -> bool {
    if parts.shared_embeddings@.len() == 0 {
        is_alternatives_node(b, parts.alternative_bodies@)
    } else {
        match b {
            MailBody::Related(inner, e) => is_alternatives_node(*inner, parts.alternative_bodies@)
                && e@ == parts.shared_embeddings@,
            _ => false,
        }
    }
}

/// `b` is the composed body of `parts`: the related node, wrapped with the
/// attachments in a multipart/mixed where there are any.
pub open spec fn is_composed(b: MailBody, parts: MailParts) -> bool {
    if parts.attachments@.len() == 0 {
        is_related_node(b, parts)
    } else {
        match b {
            MailBody::Mixed(inner, a) => is_related_node(*inner, parts) && a@ == parts.attachments@,
            _ => false,
        }
    }
}

/// The alternatives node inside a composed body: what is left once the
/// multipart/mixed and multipart/related layers that `parts` call for are
/// taken off.
pub open spec fn alternatives_layer(b: MailBody, parts: MailParts) -> MailBody {
    let below_mixed = if parts.attachments@.len() == 0 {
        b
    } else {
        match b {
            MailBody::Mixed(inner, _) => *inner,
            _ => b,
        }
    };
    if parts.shared_embeddings@.len() == 0 {
        below_mixed
    } else {
        match below_mixed {
            MailBody::Related(inner, _) => *inner,
            _ => below_mixed,
        }
    }
}

/// The rendered body that the node of one alternative carries.
pub open spec fn node_body(b: MailBody) -> Option<Resource> {
    match b {
        MailBody::Single(r) => Some(r),
        MailBody::Related(inner, _) => match *inner {
            MailBody::Single(r) => Some(r),
            _ => None,
        },
        _ => None,
    }
}

/// Composing keeps the order of the alternatives: with two or more, the
/// composed body holds a multipart/alternative whose i-th node carries the
/// i-th alternative's body.
pub proof fn lemma_alternative_order_kept(b: MailBody, parts: MailParts)
    requires
        is_composed(b, parts),
        parts.alternative_bodies@.len() >= 2,
    ensures
        match alternatives_layer(b, parts) {
            MailBody::Alternative(v) => v@.len() == parts.alternative_bodies@.len() && forall|i: int|
                0 <= i < v@.len() ==> node_body(#[trigger] v@[i]) == Some(
                    parts.alternative_bodies@[i].body_resource,
                ),
            _ => false,
        },
{
    let alts = parts.alternative_bodies@;
    let layer = alternatives_layer(b, parts);
    assert(is_alternatives_node(layer, alts));
    match layer {
        MailBody::Alternative(v) => {
            assert forall|i: int| 0 <= i < v@.len() implies node_body(#[trigger] v@[i]) == Some(
                alts[i].body_resource,
            ) by {
                assert(is_alternative_node(v@[i], alts[i]));
            }
        },
        _ => {},
    }
}

/// With one alternative and no embeddings or attachments at all, composing
/// adds no multipart layer: the body is the alternative's body alone.
pub proof fn lemma_single_alternative_collapses(b: MailBody, parts: MailParts)
    requires
        is_composed(b, parts),
        parts.alternative_bodies@.len() == 1,
        parts.alternative_bodies@[0].embeddings@.len() == 0,
        parts.shared_embeddings@.len() == 0,
        parts.attachments@.len() == 0,
    ensures
        b == MailBody::Single(parts.alternative_bodies@[0].body_resource),
{
}

/// With one alternative without embeddings of its own, one shared embedding
/// and one attachment, the body is a multipart/mixed of a multipart/related
/// (the alternative's body and the shared embedding) and the attachment.
pub proof fn lemma_mixed_related_shape(b: MailBody, parts: MailParts)
    requires
        is_composed(b, parts),
        parts.alternative_bodies@.len() == 1,
        parts.alternative_bodies@[0].embeddings@.len() == 0,
        parts.shared_embeddings@.len() == 1,
        parts.attachments@.len() == 1,
    ensures
        match b {
            MailBody::Mixed(inner, a) => a@ == parts.attachments@ && match *inner {
                MailBody::Related(leaf, e) => *leaf == MailBody::Single(
                    parts.alternative_bodies@[0].body_resource,
                ) && e@ == parts.shared_embeddings@,
                _ => false,
            },
            _ => false,
        },
{
}

/// The node of one alternative.
pub fn alternative_node(part: BodyPart) -> (r: MailBody)
    ensures
        is_alternative_node(r, part),
{
    let BodyPart { body_resource, embeddings } = part;
    if embeddings.len() == 0 {
        MailBody::Single(body_resource)
    } else {
        MailBody::Related(Box::new(MailBody::Single(body_resource)), embeddings)
    }
}

/// The node of all alternatives, in their order.
pub fn alternatives_node(bodies: Vec<BodyPart>) -> (r: MailBody)
    requires
        bodies@.len() > 0,
    ensures
        is_alternatives_node(r, bodies@),
{
    let ghost parts = bodies@;
    let mut rest = bodies;
    if rest.len() == 1 {
        let part = rest.remove(0);
        return alternative_node(part);
    }
    let mut nodes: Vec<MailBody> = Vec::new();
    let mut i: usize = 0;
    assert(parts.len() == rest.len());
    while rest.len() > 0
        invariant
            i <= parts.len() <= usize::MAX,
            rest@ == parts.subrange(i as int, parts.len() as int),
            rest@.len() == parts.len() - i,
            nodes@.len() == i,
            forall|j: int| 0 <= j < i ==> is_alternative_node(#[trigger] nodes@[j], parts[j]),
        decreases rest@.len(),
    {
        let part = rest.remove(0);
        assert(part == parts[i as int]);
        nodes.push(alternative_node(part));
        i = i + 1;
        assert(rest@ =~= parts.subrange(i as int, parts.len() as int));
    }
    MailBody::Alternative(nodes)
}

/// Composes the parts of a mail into the minimal body tree that holds them:
/// multipart/alternative inside multipart/related inside multipart/mixed, each
/// layer left out where it would have one child.
pub fn compose(parts: MailParts) -> (r: Result<MailBody, CompositionError>)
    ensures
        parts.alternative_bodies@.len() == 0 ==> r == Err::<MailBody, CompositionError>(
            CompositionError::EmptyAlternatives,
        ),
        parts.alternative_bodies@.len() > 0 ==> r is Ok && is_composed(r->Ok_0, parts),
{
    let ghost whole = parts;
    let MailParts { alternative_bodies, shared_embeddings, attachments } = parts;
    if alternative_bodies.len() == 0 {
        return Err(CompositionError::EmptyAlternatives);
    }
    let body = alternatives_node(alternative_bodies);
    let body = if shared_embeddings.len() == 0 {
        body
    } else {
        MailBody::Related(Box::new(body), shared_embeddings)
    };
    let body = if attachments.len() == 0 {
        body
    } else {
        MailBody::Mixed(Box::new(body), attachments)
    };
    Ok(body)
}

} // verus!
