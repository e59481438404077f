//! Glue between a template engine and file operations.
//!
//! A value that knows how to render itself implements [`Earth`]. [`Firma`]
//! borrows such a value and stands for it wherever a source of bytes is asked
//! for. The operations under [`extensions`] take what the source renders and
//! say what becomes of a target file's contents; the target is held in
//! memory, and the file system is left to the caller.

use vstd::prelude::*;

pub mod extensions;
pub mod prelude;
pub mod render;

use crate::render::RenderError;

verus! {

/// A value that can render itself as text.
///
/// An implementation lays its fields out as a context, lets the template
/// engine render the template it belongs to into a buffer of its own, and
/// hands the outcome to [`render::settle`].
pub trait Earth {
    /// Whether rendering this value may end in `ending`: in `Some(text)` when
    /// it may write `text`, in `None` when it may fail.
    ///
    /// An implementation that does not say leaves every ending open.
    open spec fn renders(&self, ending: Option<Seq<u8>>) -> bool {
        true
    }

    /// Whether rendering this value may fail with `cause`.
    ///
    /// An implementation that does not say leaves every cause open.
    open spec fn fails_with(&self, cause: RenderError) -> bool {
        true
    }

    /// Renders the value and appends the text to `writer`.
    ///
    /// On success some text that the value may render has been appended. On
    /// failure `writer` is unchanged, so that no part of a rendering is left
    /// in it, and the failure is one that the value may fail with.
    fn tera(&self, writer: &mut Vec<u8>) -> (outcome: Result<(), RenderError>)
        ensures
            outcome is Ok ==> old(writer)@.is_prefix_of(final(writer)@) && self.renders(
                Some(written(old(writer)@, final(writer)@)),
            ),
            outcome is Err ==> final(writer)@ == old(writer)@ && self.renders(None),
            outcome matches Err(cause) ==> self.fails_with(cause),
    ;
}

/// A borrowed [`Earth`] value, seen as a plain source of bytes.
///
/// It owns nothing and copies nothing; it lives as long as the borrow.
pub struct Firma<'a, T: Earth>(pub &'a T);

impl<'a, T: Earth> Firma<'a, T> {
    /// Whether the source may render to `rendered`: to a text that the
    /// borrowed value may write, or to a failure that it may fail with.
    pub open spec fn may_render(&self, rendered: Result<Seq<u8>, RenderError>) -> bool {
        match rendered {
            Ok(text) => self.0.renders(Some(text)),
            Err(cause) => self.0.renders(None) && self.0.fails_with(cause),
        }
    }

    /// Writes the bytes of the source into `writer`: the borrowed value renders
    /// itself, once, and its success or failure is handed back as it is.
    pub fn anvil(&self, writer: &mut Vec<u8>) -> (outcome: Result<(), RenderError>)
        ensures
            outcome is Ok ==> old(writer)@.is_prefix_of(final(writer)@) && self.0.renders(
                Some(written(old(writer)@, final(writer)@)),
            ),
            outcome is Err ==> final(writer)@ == old(writer)@ && self.0.renders(None),
            outcome matches Err(cause) ==> self.0.fails_with(cause),
    {
        self.0.tera(writer)
    }

    /// Renders the source into a buffer of its own: the whole text on success,
    /// the source's own failure otherwise.
    pub fn render(&self) -> (rendered: Result<Vec<u8>, RenderError>)
        ensures
            self.may_render(text_of(rendered)),
    {
        let mut scratch: Vec<u8> = Vec::new();
        match self.anvil(&mut scratch) {
            Ok(()) => {
                assert(written(Seq::empty(), scratch@) == scratch@);
                Ok(scratch)
            },
            Err(cause) => Err(cause),
        }
    }
}

/// What was written to a sink that held `before` and now holds `after`: the
/// part of `after` behind the first `before.len()` bytes.
pub open spec fn written(before: Seq<u8>, after: Seq<u8>) -> Seq<u8> {
    after.skip(before.len() as int)
}

/// A finished rendering as plain values: the text, or the failure.
pub open spec fn text_of(rendered: Result<Vec<u8>, RenderError>) -> Result<Seq<u8>, RenderError> {
    match rendered {
        Ok(text) => Ok(text@),
        Err(cause) => Err(cause),
    }
}

} // verus!
