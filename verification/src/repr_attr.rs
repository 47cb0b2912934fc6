//! The representation classifier.
//!
//! Scans the tokens of a `repr(...)` annotation and classifies the type's
//! layout: `C` (optionally with an integer width), a bare integer width,
//! `transparent`, or the default layout when nothing relevant is present.
//! Unrecognized layout tokens are a hard diagnostic.

use vstd::prelude::*;

use crate::datastructure::NestedMeta;
use crate::diagnostic::DiagModel;
use crate::diagnostic::Diagnostic;
use crate::diagnostic::lift;
use crate::diagnostic::spanned_err;
use crate::strutil::eq_str;

verus! {

/// The layout representation class of a type.
#[derive(Clone, Copy, PartialEq, Eq, Structural, Debug)]
pub enum ReprAttr {
    /// `repr(C)`, possibly combined with an integer width.
    C { integer_repr: bool },
    /// An integer width without `C`.
    IntegerRepr,
    /// `repr(transparent)`.
    Transparent,
    /// No recognized layout annotation.
    Rust,
}

/// The fixed set of integer-width layout qualifiers.
pub open spec fn spec_is_integer_type(s: Seq<char>) -> bool {
    ||| s == "u8"@
    ||| s == "i8"@
    ||| s == "u16"@
    ||| s == "i16"@
    ||| s == "u32"@
    ||| s == "i32"@
    ||| s == "u64"@
    ||| s == "i64"@
    ||| s == "u128"@
    ||| s == "i128"@
    ||| s == "usize"@
    ||| s == "isize"@
}

/// Whether the identifier is an integer-width layout qualifier.
pub fn is_integer_type(ident: &String) -> (r: bool)
    ensures
        r == spec_is_integer_type(ident@),
{
    eq_str(ident, "u8") || eq_str(ident, "i8") || eq_str(ident, "u16") || eq_str(ident, "i16")
        || eq_str(ident, "u32") || eq_str(ident, "i32") || eq_str(ident, "u64") || eq_str(
        ident,
        "i64",
    ) || eq_str(ident, "u128") || eq_str(ident, "i128") || eq_str(ident, "usize") || eq_str(
        ident,
        "isize",
    )
}

/// The token a diagnostic points at, for each token shape.
pub open spec fn meta_site(m: NestedMeta) -> Seq<char> {
    match m {
        NestedMeta::Word(s) => s@,
        NestedMeta::PathOther(s) => s@,
        NestedMeta::List { name, .. } => name@,
        NestedMeta::NameValueStr { name, .. } => name@,
        NestedMeta::Other => Seq::empty(),
    }
}

/// The text of the token a diagnostic points at.
pub fn meta_site_text(m: &NestedMeta) -> (s: String)
    ensures
        s@ == meta_site(*m),
{
    match m {
        NestedMeta::Word(s) => s.clone(),
        NestedMeta::PathOther(s) => s.clone(),
        NestedMeta::List { name, .. } => name.clone(),
        NestedMeta::NameValueStr { name, .. } => name.clone(),
        NestedMeta::Other => String::new(),
    }
}

/// The diagnostic for an unrecognized layout qualifier.
pub open spec fn unrecognized_repr_msg() -> Seq<char> {
    "Unrecognized repr attribute"@
}

/// Folds the `repr(...)` tokens from position `i` into the three qualifier
/// flags `(c, integer, transparent)`.
pub open spec fn spec_repr_fold(
    metas: Seq<NestedMeta>,
    i: int,
    c: bool,
    integer: bool,
    transparent: bool,
) -> Result<(bool, bool, bool), DiagModel>
    decreases metas.len() - i,
{
    if i >= metas.len() {
        Ok((c, integer, transparent))
    } else {
        match metas[i] {
            NestedMeta::Word(s) => {
                if s@ == "C"@ {
                    spec_repr_fold(metas, i + 1, true, integer, transparent)
                } else if s@ == "transparent"@ {
                    spec_repr_fold(metas, i + 1, c, integer, true)
                } else if spec_is_integer_type(s@) {
                    spec_repr_fold(metas, i + 1, c, true, transparent)
                } else {
                    Err((DiagModel { site: s@, message: unrecognized_repr_msg() }))
                }
            },
            NestedMeta::List { name, .. } => {
                if name@ == "align"@ {
                    spec_repr_fold(metas, i + 1, c, integer, transparent)
                } else {
                    Err((DiagModel { site: name@, message: unrecognized_repr_msg() }))
                }
            },
            m => Err((DiagModel { site: meta_site(m), message: unrecognized_repr_msg() })),
        }
    }
}

/// The representation class denoted by the tokens of a `repr(...)`
/// annotation.  `transparent` combined with `C` or an integer width is
/// resolved in favor of `C`/integer; the host language already rejects
/// those combinations on its own.
pub open spec fn spec_repr_attr(metas: Seq<NestedMeta>) -> Result<ReprAttr, DiagModel> {
    match spec_repr_fold(metas, 0, false, false, false) {
        Ok((c, integer, transparent)) => Ok(
            if c {
                ReprAttr::C { integer_repr: integer }
            } else if integer {
                ReprAttr::IntegerRepr
            } else if transparent {
                ReprAttr::Transparent
            } else {
                ReprAttr::Rust
            },
        ),
        Err(e) => Err(e),
    }
}

impl ReprAttr {
    /// Classifies the tokens of a `repr(...)` annotation.
    pub fn new(metas: &Vec<NestedMeta>) -> (r: Result<ReprAttr, Diagnostic>)
        ensures
            lift(r) == spec_repr_attr(metas@),
    {
        let mut c = false;
        let mut integer = false;
        let mut transparent = false;
        let n = metas.len();
        let mut i: usize = 0;
        while i < n
            invariant
                n == metas@.len(),
                i <= n,
                spec_repr_fold(metas@, 0, false, false, false) == spec_repr_fold(
                    metas@,
                    i as int,
                    c,
                    integer,
                    transparent,
                ),
            decreases n - i,
        {
            match &metas[i] {
                NestedMeta::Word(s) => {
                    if eq_str(s, "C") {
                        c = true;
                    } else if eq_str(s, "transparent") {
                        transparent = true;
                    } else if is_integer_type(s) {
                        integer = true;
                    } else {
                        return Err(spanned_err(s, "Unrecognized repr attribute"));
                    }
                },
                NestedMeta::List { name, .. } => {
                    if !eq_str(name, "align") {
                        return Err(spanned_err(name, "Unrecognized repr attribute"));
                    }
                },
                m => {
                    let site = meta_site_text(m);
                    return Err(spanned_err(&site, "Unrecognized repr attribute"));
                },
            }
            i = i + 1;
        }
        Ok(
            if c {
                ReprAttr::C { integer_repr: integer }
            } else if integer {
                ReprAttr::IntegerRepr
            } else if transparent {
                ReprAttr::Transparent
            } else {
                ReprAttr::Rust
            },
        )
    }
}

} // verus!
