//! The failure of a rendering, and the last step of every rendering: handing
//! the finished text on.
//!
//! A template engine writes a template piece by piece, so a failure half-way
//! leaves the beginning of the text behind. A caller therefore lets the
//! engine write into a scratch buffer of its own, and [`settle`] passes the
//! text on only when the whole of it is there.

use vstd::prelude::*;

verus! {

/// `tera::Error`, the engine's report of a failure. It is carried back to the
/// caller and never looked into.
#[verifier::external_type_specification]
#[verifier::external_body]
pub struct ExError(tera::Error);

/// The one failure of rendering: whatever the template engine reported, be it
/// an unknown template, a variable that the context lacks, or anything else.
#[derive(Debug)]
pub struct RenderError {
    /// The engine's own report.
    pub cause: tera::Error,
}

/// Hands a finished rendering on to `writer`.
///
/// `scratch` is what the engine wrote and `verdict` how it ended. After a
/// success the whole of `scratch` is appended to `writer`; after a failure
/// `writer` is left as it was, whatever `scratch` holds, and the engine's
/// report comes back wrapped.
pub fn settle(scratch: Vec<u8>, verdict: Result<(), tera::Error>, writer: &mut Vec<u8>) -> (outcome:
    Result<(), RenderError>)
    ensures
        match verdict {
            Ok(()) => outcome is Ok && final(writer)@ == old(writer)@ + scratch@,
            Err(cause) => outcome == Err::<(), RenderError>(RenderError { cause })
                && final(writer)@ == old(writer)@,
        },
{
    match verdict {
        Ok(()) => {
            let mut scratch = scratch;
            writer.append(&mut scratch);
            Ok(())
        },
        Err(cause) => Err(RenderError { cause }),
    }
}

} // verus!
