//! Appending a rendering to a target that is already there.

use vstd::prelude::*;

use crate::extensions::contents;
use crate::render::RenderError;
use crate::{text_of, Earth, Firma};

verus! {

/// Why an append did not take place.
#[derive(Debug)]
pub enum AppendError {
    /// There is no target to append to.
    Missing,
    /// The template failed to render.
    Template(RenderError),
}

/// What appending does to a target that holds `before`, given how the
/// rendering ended: the result of the operation, and what the target holds
/// afterwards.
///
/// A target that does not exist is not created. A target that exists gets the
/// text at its end, with nothing put between; a failed rendering leaves it
/// as it was.
pub open spec fn appended(before: Option<Seq<u8>>, rendered: Result<Seq<u8>, RenderError>) -> (
    Result<(), AppendError>,
    Option<Seq<u8>>,
) {
    match (before, rendered) {
        (None, _) => (Err(AppendError::Missing), None),
        (Some(existing), Ok(text)) => (Ok(()), Some(existing + text)),
        (Some(existing), Err(cause)) => (Err(AppendError::Template(cause)), Some(existing)),
    }
}

/// Appends a finished rendering to `target`, as [`appended`] says.
pub fn append_rendered(rendered: Result<Vec<u8>, RenderError>, target: &mut Option<Vec<u8>>) -> (outcome:
    Result<(), AppendError>)
    ensures
        outcome == appended(contents(*old(target)), text_of(rendered)).0,
        contents(*final(target)) == appended(contents(*old(target)), text_of(rendered)).1,
{
    match target {
        None => Err(AppendError::Missing),
        Some(bytes) => match rendered {
            Ok(text) => {
                let mut text = text;
                bytes.append(&mut text);
                Ok(())
            },
            Err(cause) => Err(AppendError::Template(cause)),
        },
    }
}

/// Building an append operation from a borrowed [`Earth`] value.
pub trait TeraAppendExt<'a, T: Earth>: Sized {
    /// The source whose rendering the operation appends.
    spec fn source(&self) -> Firma<'a, T>;

    /// An operation that appends what `template` renders.
    fn tera(template: &'a T) -> (operation: Self)
        ensures
            operation.source() == Firma(template),
    ;
}

/// The operation that appends a rendering to a target.
pub struct Append<'a, T: Earth> {
    template: Firma<'a, T>,
}

impl<'a, T: Earth> TeraAppendExt<'a, T> for Append<'a, T> {
    closed spec fn source(&self) -> Firma<'a, T> {
        self.template
    }

    fn tera(template: &'a T) -> (operation: Self) {
        Append { template: Firma(template) }
    }
}

impl<'a, T: Earth> Append<'a, T> {
    /// The source whose rendering the operation appends.
    pub fn template(&self) -> (template: &Firma<'a, T>)
        ensures
            *template == self.source(),
    {
        &self.template
    }

    /// Whether executing the operation on a target that holds `before` may
    /// return `outcome` and leave the target holding `after`.
    ///
    /// Without a target nothing is rendered and nothing created. With one, the
    /// source renders in one of the ways open to it, and the target and the
    /// result are what [`appended`] makes of that.
    pub open spec fn forges(
        &self,
        before: Option<Seq<u8>>,
        outcome: Result<(), AppendError>,
        after: Option<Seq<u8>>,
    ) -> bool {
        match before {
            None => outcome == Err::<(), AppendError>(AppendError::Missing) && after is None,
            Some(_) => exists|rendered: Result<Seq<u8>, RenderError>|
                self.source().may_render(rendered) && outcome == (#[trigger] appended(
                    before,
                    rendered,
                )).0 && after == appended(before, rendered).1,
        }
    }

    /// Executes the operation on `target`: renders the source and appends the
    /// text to what the target holds.
    pub fn forge(&self, target: &mut Option<Vec<u8>>) -> (outcome: Result<(), AppendError>)
        ensures
            self.forges(contents(*old(target)), outcome, contents(*final(target))),
            *old(target) is None ==> outcome is Err && *final(target) is None,
    {
        if target.is_none() {
            return Err(AppendError::Missing);
        }
        let rendered = self.template.render();
        append_rendered(rendered, target)
    }
}

/// Appending a source that can render nothing but `text`, to a target that
/// holds `existing`, succeeds and leaves the target holding `existing` with
/// `text` right behind it.
pub proof fn lemma_append_fixed_text<'a, T: Earth>(
    template: &'a T,
    operation: Append<'a, T>,
    text: Seq<u8>,
    existing: Seq<u8>,
    outcome: Result<(), AppendError>,
    after: Option<Seq<u8>>,
)
    requires
        operation.source() == Firma(template),
        forall|ending: Option<Seq<u8>>| #[trigger] template.renders(ending) ==> ending == Some(text),
        operation.forges(Some(existing), outcome, after),
    ensures
        outcome is Ok,
        after == Some(existing + text),
{
}

/// Appending to a target that does not exist fails, whatever the source, and
/// does not create the target.
pub proof fn lemma_append_needs_target<'a, T: Earth>(
    operation: Append<'a, T>,
    outcome: Result<(), AppendError>,
    after: Option<Seq<u8>>,
)
    requires
        operation.forges(None, outcome, after),
    ensures
        outcome == Err::<(), AppendError>(AppendError::Missing),
        after is None,
{
}

/// An append that fails on a rendering passes the source's own failure on:
/// the cause it reports is one that the source may fail with, and the target,
/// which was there, holds what it held.
pub proof fn lemma_append_passes_failure_on<'a, T: Earth>(
    template: &'a T,
    operation: Append<'a, T>,
    before: Option<Seq<u8>>,
    cause: RenderError,
    after: Option<Seq<u8>>,
)
    requires
        operation.source() == Firma(template),
        operation.forges(before, Err(AppendError::Template(cause)), after),
    ensures
        template.fails_with(cause),
        before is Some,
        after == before,
{
}

/// An operation that appends what `template` renders.
pub fn append<T: Earth>(template: &T) -> (operation: Append<'_, T>)
    ensures
        operation.source() == Firma(template),
{
    Append::tera(template)
}

} // verus!
