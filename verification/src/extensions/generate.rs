//! Creating a target from a rendering.

use vstd::prelude::*;

use crate::extensions::contents;
use crate::render::RenderError;
use crate::{text_of, Earth, Firma};

verus! {

/// Why a target was not generated.
#[derive(Debug)]
pub enum GenerateError {
    /// The target is already there.
    Exists,
    /// The template failed to render.
    Template(RenderError),
}

/// What generating does to a target that holds `before`, given how the
/// rendering ended: the result of the operation, and what the target holds
/// afterwards.
///
/// A target that exists is left as it was. Otherwise the target is created
/// and the text becomes the whole of it. It is created before the source
/// renders, so a failed rendering leaves it there, empty.
pub open spec fn generated(before: Option<Seq<u8>>, rendered: Result<Seq<u8>, RenderError>) -> (
    Result<(), GenerateError>,
    Option<Seq<u8>>,
) {
    match (before, rendered) {
        (Some(existing), _) => (Err(GenerateError::Exists), Some(existing)),
        (None, Ok(text)) => (Ok(()), Some(text)),
        (None, Err(cause)) => (Err(GenerateError::Template(cause)), Some(Seq::empty())),
    }
}

/// Creates `target` from a finished rendering, as [`generated`] says.
pub fn generate_rendered(rendered: Result<Vec<u8>, RenderError>, target: &mut Option<Vec<u8>>) -> (outcome:
    Result<(), GenerateError>)
    ensures
        outcome == generated(contents(*old(target)), text_of(rendered)).0,
        contents(*final(target)) == generated(contents(*old(target)), text_of(rendered)).1,
{
    if target.is_some() {
        return Err(GenerateError::Exists);
    }
    match rendered {
        Ok(text) => {
            *target = Some(text);
            Ok(())
        },
        Err(cause) => {
            *target = Some(Vec::new());
            Err(GenerateError::Template(cause))
        },
    }
}

/// Building a generate operation from a borrowed [`Earth`] value.
pub trait TeraGenerateExt<'a, T: Earth>: Sized {
    /// The source whose rendering the operation writes.
    spec fn source(&self) -> Firma<'a, T>;

    /// An operation that creates a target from what `template` renders.
    fn tera(template: &'a T) -> (operation: Self)
        ensures
            operation.source() == Firma(template),
    ;
}

/// The operation that creates a target from a rendering.
pub struct Generate<'a, T: Earth> {
    template: Firma<'a, T>,
}

impl<'a, T: Earth> TeraGenerateExt<'a, T> for Generate<'a, T> {
    closed spec fn source(&self) -> Firma<'a, T> {
        self.template
    }

    fn tera(template: &'a T) -> (operation: Self) {
        Generate { template: Firma(template) }
    }
}

impl<'a, T: Earth> Generate<'a, T> {
    /// The source whose rendering the operation writes.
    pub fn template(&self) -> (template: &Firma<'a, T>)
        ensures
            *template == self.source(),
    {
        &self.template
    }

    /// Whether executing the operation on a target that holds `before` may
    /// return `outcome` and leave the target holding `after`.
    ///
    /// With a target in place nothing is rendered and nothing written.
    /// Without one, the source renders in one of the ways open to it, and the
    /// target and the result are what [`generated`] makes of that.
    pub open spec fn forges(
        &self,
        before: Option<Seq<u8>>,
        outcome: Result<(), GenerateError>,
        after: Option<Seq<u8>>,
    ) -> bool {
        match before {
            Some(_) => outcome == Err::<(), GenerateError>(GenerateError::Exists) && after
                == before,
            None => exists|rendered: Result<Seq<u8>, RenderError>|
                self.source().may_render(rendered) && outcome == (#[trigger] generated(
                    before,
                    rendered,
                )).0 && after == generated(before, rendered).1,
        }
    }

    /// Executes the operation on `target`: renders the source and creates the
    /// target with the text as its contents.
    pub fn forge(&self, target: &mut Option<Vec<u8>>) -> (outcome: Result<(), GenerateError>)
        ensures
            self.forges(contents(*old(target)), outcome, contents(*final(target))),
            *old(target) is Some ==> outcome is Err && contents(*final(target)) == contents(
                *old(target),
            ),
    {
        if target.is_some() {
            return Err(GenerateError::Exists);
        }
        let rendered = self.template.render();
        generate_rendered(rendered, target)
    }
}

/// Generating onto a target that is already there fails, whatever the
/// source, and leaves the target holding what it held.
pub proof fn lemma_generate_keeps_existing<'a, T: Earth>(
    operation: Generate<'a, T>,
    existing: Seq<u8>,
    outcome: Result<(), GenerateError>,
    after: Option<Seq<u8>>,
)
    requires
        operation.forges(Some(existing), outcome, after),
    ensures
        outcome == Err::<(), GenerateError>(GenerateError::Exists),
        after == Some(existing),
{
}

/// Generating from a source that cannot fail, where no target exists,
/// succeeds and creates the target; what it then holds is, whole and alone,
/// a text that the source may render.
pub proof fn lemma_generate_writes_rendering<'a, T: Earth>(
    template: &'a T,
    operation: Generate<'a, T>,
    outcome: Result<(), GenerateError>,
    after: Option<Seq<u8>>,
)
    requires
        operation.source() == Firma(template),
        !template.renders(None),
        operation.forges(None, outcome, after),
    ensures
        outcome is Ok,
        after is Some,
        template.renders(after),
{
}

/// Generating from a source that can render nothing but `text`, where no
/// target exists, creates the target with exactly `text` in it.
pub proof fn lemma_generate_fixed_text<'a, T: Earth>(
    template: &'a T,
    operation: Generate<'a, T>,
    text: Seq<u8>,
    outcome: Result<(), GenerateError>,
    after: Option<Seq<u8>>,
)
    requires
        operation.source() == Firma(template),
        forall|ending: Option<Seq<u8>>| #[trigger] template.renders(ending) ==> ending == Some(text),
        operation.forges(None, outcome, after),
    ensures
        outcome is Ok,
        after == Some(text),
{
}

/// A generate that fails on a rendering passes the source's own failure on:
/// the cause it reports is one that the source may fail with. There was no
/// target before, and the one created is left empty.
pub proof fn lemma_generate_passes_failure_on<'a, T: Earth>(
    template: &'a T,
    operation: Generate<'a, T>,
    before: Option<Seq<u8>>,
    cause: RenderError,
    after: Option<Seq<u8>>,
)
    requires
        operation.source() == Firma(template),
        operation.forges(before, Err(GenerateError::Template(cause)), after),
    ensures
        template.fails_with(cause),
        before is None,
        after == Some(Seq::<u8>::empty()),
{
}

/// An operation that creates a target from what `template` renders.
pub fn generate<T: Earth>(template: &T) -> (operation: Generate<'_, T>)
    ensures
        operation.source() == Firma(template),
{
    Generate::tera(template)
}

} // verus!
