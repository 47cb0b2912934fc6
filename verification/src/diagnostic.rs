//! Structured diagnostics.  Every failure of the engine carries the text of
//! the most specific source token available (`site`) and a message; the host
//! front end renders it as a compile error pointing at that token.

use vstd::prelude::*;

verus! {

/// A diagnostic tied to an offending token.
#[derive(Debug)]
pub struct Diagnostic {
    pub site: String,
    pub message: String,
}

/// The mathematical model of a diagnostic: both texts as character sequences.
#[verifier::ext_equal]
pub struct DiagModel {
    pub site: Seq<char>,
    pub message: Seq<char>,
}

impl View for Diagnostic {
    type V = DiagModel;

    open spec fn view(&self) -> DiagModel {
        (DiagModel { site: self.site@, message: self.message@ })
    }
}

/// Builds a diagnostic at the given token with the given message.
pub fn spanned_err(site: &String, message: &str) -> (d: Diagnostic)
    ensures
        d@ == (DiagModel { site: site@, message: message@ }),
{
    Diagnostic { site: site.clone(), message: message.to_owned() }
}

/// A fallible result, with the error replaced by its model.  Contracts of
/// the engine's functions state that this lifted value equals a spec-level
/// derivation, which pins both the success value and the diagnostic.
pub open spec fn lift<T>(r: Result<T, Diagnostic>) -> Result<T, DiagModel> {
    match r {
        Ok(v) => Ok(v),
        Err(e) => Err(e@),
    }
}

/// As [`lift`], with the success value replaced by its view as well.
pub open spec fn lift_v<T: View>(r: Result<T, Diagnostic>) -> Result<T::V, DiagModel> {
    match r {
        Ok(v) => Ok(v@),
        Err(e) => Err(e@),
    }
}

} // verus!
