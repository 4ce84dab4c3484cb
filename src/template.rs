//! The capability of a template engine, and composing what it renders.
use vstd::prelude::*;

use crate::compositor::{compose, is_composed, CompositionError, MailBody};
use crate::resource::MailParts;

verus! {

/// Anything that renders, from a context, a template id and data, the
/// alternative bodies, shared embeddings and attachments of a mail.
///
/// `C` is a parameter of the trait, not of the method, so that an engine can
/// depend on one context type (one that gives access to the server's
/// configuration, say) instead of keeping a handle to it itself.
pub trait TemplateEngine<C> {
    type TemplateId: ?Sized;
    type Data: ?Sized;
    type Error;

    /// What the engine may return for these arguments; an engine that states
    /// nothing of its output may return anything.
    open spec fn renders(
        &self,
        ctx: &C,
        id: &Self::TemplateId,
        data: &Self::Data,
        r: Result<MailParts, Self::Error>,
    ) -> bool {
        true
    }

    fn use_templates(&self, ctx: &C, id: &Self::TemplateId, data: &Self::Data) -> (r: Result<
        MailParts,
        Self::Error,
    >)
        ensures
            self.renders(ctx, id, data, r),
            r is Ok ==> r->Ok_0.alternative_bodies@.len() >= 1,
    ;
}

/// An engine behind a `Box` renders as the engine itself.
impl<C, T: TemplateEngine<C>> TemplateEngine<C> for Box<T> {
    type TemplateId = T::TemplateId;
    type Data = T::Data;
    type Error = T::Error;

    open spec fn renders(
        &self,
        ctx: &C,
        id: &Self::TemplateId,
        data: &Self::Data,
        r: Result<MailParts, Self::Error>,
    ) -> bool {
        (**self).renders(ctx, id, data, r)
    }

    fn use_templates(&self, ctx: &C, id: &Self::TemplateId, data: &Self::Data) -> (r: Result<
        MailParts,
        Self::Error,
    >) {
        (**self).use_templates(ctx, id, data)
    }
}

/// An engine behind an `Arc` renders as the engine itself.
impl<C, T: TemplateEngine<C>> TemplateEngine<C> for std::sync::Arc<T> {
    type TemplateId = T::TemplateId;
    type Data = T::Data;
    type Error = T::Error;

    open spec fn renders(
        &self,
        ctx: &C,
        id: &Self::TemplateId,
        data: &Self::Data,
        r: Result<MailParts, Self::Error>,
    ) -> bool {
        (**self).renders(ctx, id, data, r)
    }

    fn use_templates(&self, ctx: &C, id: &Self::TemplateId, data: &Self::Data) -> (r: Result<
        MailParts,
        Self::Error,
    >) {
        (**self).use_templates(ctx, id, data)
    }
}

/// Why rendering a mail body failed.
pub enum RenderError<E> {
    /// The template engine failed; its error is passed on as it came.
    Engine(E),
    /// What the engine rendered could not be composed.
    Composition(CompositionError),
}

/// Composes what a template engine returned: its error is passed on
/// unchanged, its parts are composed.
pub fn compose_rendered<E>(rendered: Result<MailParts, E>) -> (r: Result<MailBody, RenderError<E>>)
    ensures
        match rendered {
            Err(e) => r == Err::<MailBody, RenderError<E>>(RenderError::Engine(e)),
            Ok(parts) => if parts.alternative_bodies@.len() == 0 {
                r == Err::<MailBody, RenderError<E>>(
                    RenderError::Composition(CompositionError::EmptyAlternatives),
                )
            } else {
                r is Ok && is_composed(r->Ok_0, parts)
            },
        },
{
    match rendered {
        Err(e) => Err(RenderError::Engine(e)),
        Ok(parts) => match compose(parts) {
            Ok(body) => Ok(body),
            Err(e) => Err(RenderError::Composition(e)),
        },
    }
}

/// Renders the parts of a mail with `engine` and composes them into one body.
pub fn render_body<C, T: TemplateEngine<C>>(
    engine: &T,
    ctx: &C,
    id: &T::TemplateId,
    data: &T::Data,
) -> (r: Result<MailBody, RenderError<T::Error>>)
    ensures
        exists|rendered: Result<MailParts, T::Error>|
            {
                &&& engine.renders(ctx, id, data, rendered)
                &&& match rendered {
                    Err(e) => r == Err::<MailBody, RenderError<T::Error>>(RenderError::Engine(e)),
                    Ok(parts) => if parts.alternative_bodies@.len() == 0 {
                        r == Err::<MailBody, RenderError<T::Error>>(
                            RenderError::Composition(CompositionError::EmptyAlternatives),
                        )
                    } else {
                        r is Ok && is_composed(r->Ok_0, parts)
                    },
                }
            },
            !(r is Err && r->Err_0 is Composition),
{
    let rendered = engine.use_templates(ctx, id, data);
    let ghost g = rendered;
    let r = compose_rendered(rendered);
    assert(engine.renders(ctx, id, data, g));
    r
}

} // verus!
