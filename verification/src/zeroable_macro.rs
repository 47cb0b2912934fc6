//! The rule engine and obligation emitter.
//!
//! Given a normalized declaration and its parsed configuration, selects the
//! applicable structural rule per shape, determines the ordered set of field
//! types that must satisfy the zero-initializability obligation, and builds
//! the derivation plan: the obligated types, the bounded type parameters,
//! and the generated fragment's text.

use vstd::prelude::*;

use crate::attribute_parsing::ConfigModel;
use crate::attribute_parsing::IsBounded;
use crate::attribute_parsing::IsZeroable;
use crate::attribute_parsing::ZeroConfig;
use crate::attribute_parsing::parse_attrs_for_zeroed;
use crate::attribute_parsing::spec_parse_attrs_for_zeroed;
use crate::datastructure::DataStructure;
use crate::datastructure::DataVariant;
use crate::datastructure::MyField;
use crate::datastructure::Struct;
use crate::datastructure::disc_is_zero;
use crate::datastructure::field_ident_text;
use crate::diagnostic::DiagModel;
use crate::diagnostic::Diagnostic;
use crate::diagnostic::lift_v;
use crate::diagnostic::spanned_err;
use crate::repr_attr::ReprAttr;
use vstd::string::StringExecFns;

verus! {

/// The diagnostic for a tagged union with no cases.
pub open spec fn zero_variant_enum_err_msg() -> Seq<char> {
    "Zero variant enums cannot implement Zeroable."@
}

/// The diagnostic for a tagged union without a recognized layout annotation.
pub open spec fn repr_err_msg() -> Seq<char> {
    "Expected a `#[repr(C/<integer_type>/Transparent)]`enum"@
}

/// The diagnostic for a tagged union with no derivable zero case.
pub open spec fn enum_discr_err_msg() -> Seq<char> {
    "\nExpected either:\n\n- The first variant to have an implicit discriminant,\n\n- Any variant with an explicit `0` discriminant,\n    "@
}

/// The diagnostic for an untagged union with no fields.
pub open spec fn zero_fields_union_err_msg() -> Seq<char> {
    "Zero fields union cannot implement Zeroable."@
}

/// The diagnostic for an untagged union whose fields are all opted out.
pub open spec fn union_optout_err_msg() -> Seq<char> {
    "Expected one or more fields without a `#[zero(nonzero)]` attribute, or a `#[repr(transparent)]` attribute."@
}

/// The diagnostic for an opt-in untagged union with no field opted in.
pub open spec fn union_optin_err_msg() -> Seq<char> {
    "Expected one or more fields with a `#[zero(zeroable)]` attribute, or a `#[repr(transparent)]` attribute."@
}

/// Whether a case carries an explicit literal-zero discriminant.
pub open spec fn spec_variant_disc_zero(v: Struct) -> bool {
    match v.discriminant {
        Some(d) => disc_is_zero(d),
        None => false,
    }
}

/// The first case at or after `j` with an explicit literal-zero discriminant.
pub open spec fn spec_find_zero_variant(variants: Seq<Struct>, j: int) -> Option<int>
    decreases variants.len() - j,
{
    if j >= variants.len() {
        None
    } else if spec_variant_disc_zero(variants[j]) {
        Some(j)
    } else {
        spec_find_zero_variant(variants, j + 1)
    }
}

/// The zero case of a tagged union: under a `C`/integer layout, case 0 when
/// its discriminant is implicit or literal zero, otherwise the first later
/// case with an explicit literal-zero discriminant; under the transparent
/// layout, case 0 unconditionally.  A case-less tagged union and a tagged
/// union under the default layout are hard failures.
pub open spec fn spec_zero_variant(ds: DataStructure, repr: ReprAttr) -> Result<int, DiagModel> {
    if ds.variants@.len() == 0 {
        Err((DiagModel { site: ds.name@, message: zero_variant_enum_err_msg() }))
    } else {
        match repr {
            ReprAttr::C { .. } => spec_zero_variant_tagged(ds),
            ReprAttr::IntegerRepr => spec_zero_variant_tagged(ds),
            ReprAttr::Transparent => Ok(0),
            ReprAttr::Rust => Err((DiagModel { site: ds.name@, message: repr_err_msg() })),
        }
    }
}

/// The zero case under a `C`/integer layout, for a non-empty case list.
pub open spec fn spec_zero_variant_tagged(ds: DataStructure) -> Result<int, DiagModel> {
    if match ds.variants@[0].discriminant {
        None => true,
        Some(d) => disc_is_zero(d),
    } {
        Ok(0)
    } else {
        match spec_find_zero_variant(ds.variants@, 1) {
            Some(j) => Ok(j),
            None => Err((DiagModel { site: ds.name@, message: enum_discr_err_msg() })),
        }
    }
}

/// The declared types of a field list, in order.
pub open spec fn spec_field_tys(fields: Seq<MyField>) -> Seq<Seq<char>> {
    fields.map_values(|f: MyField| f.ty@)
}

/// The obligated types of a tagged union: the fields of its zero case.
pub open spec fn spec_enum_obligations(ds: DataStructure, repr: ReprAttr) -> Result<
    Seq<Seq<char>>,
    DiagModel,
> {
    match spec_zero_variant(ds, repr) {
        Ok(j) => Ok(spec_field_tys(ds.variants@[j].fields@)),
        Err(e) => Err(e),
    }
}

/// The types, from position `i` on, of the untagged-union fields whose
/// effective flag is required.  The flag list and the field list are walked
/// together and the shorter one ends the walk.
pub open spec fn spec_union_obligated(
    fields: Seq<MyField>,
    flags: Seq<IsZeroable>,
    i: int,
) -> Seq<Seq<char>>
    decreases fields.len() - i,
{
    if i >= fields.len() || i >= flags.len() {
        Seq::empty()
    } else if flags[i] == IsZeroable::Yes {
        seq![fields[i].ty@] + spec_union_obligated(fields, flags, i + 1)
    } else {
        spec_union_obligated(fields, flags, i + 1)
    }
}

/// The obligated types of an untagged union: under the transparent layout,
/// exactly field 0; otherwise every field whose effective flag is required,
/// which must leave at least one.  A fieldless union is a hard failure.
pub open spec fn spec_union_obligations(ds: DataStructure, cm: ConfigModel) -> Result<
    Seq<Seq<char>>,
    DiagModel,
> {
    let u = ds.variants@[0];
    if u.fields@.len() == 0 {
        Err((DiagModel { site: ds.name@, message: zero_fields_union_err_msg() }))
    } else if cm.repr_attr == ReprAttr::Transparent {
        Ok(seq![u.fields@[0].ty@])
    } else {
        let obl = spec_union_obligated(u.fields@, cm.zeroable_fields, 0);
        if obl.len() == 0 {
            Err(
                (DiagModel {
                    site: ds.name@,
                    message: if cm.default_zeroab == IsZeroable::No {
                        union_optin_err_msg()
                    } else {
                        union_optout_err_msg()
                    },
                }),
            )
        } else {
            Ok(obl)
        }
    }
}

/// The ordered set of obligated field types per type shape: all fields of a
/// record, the zero case's fields of a tagged union, the required fields of
/// an untagged union.
pub open spec fn spec_obligations(ds: DataStructure, cm: ConfigModel) -> Result<
    Seq<Seq<char>>,
    DiagModel,
> {
    match ds.data_variant {
        DataVariant::Struct => Ok(spec_field_tys(ds.variants@[0].fields@)),
        DataVariant::Enum => spec_enum_obligations(ds, cm.repr_attr),
        DataVariant::Union => spec_union_obligations(ds, cm),
    }
}

/// The type parameters that receive the zero-initializability bound: those
/// not explicitly exempted.  A parameter beyond the flag list keeps the
/// bound.
pub open spec fn spec_bounded_params(
    params: Seq<String>,
    flags: Seq<IsBounded>,
    i: int,
) -> Seq<Seq<char>>
    decreases params.len() - i,
{
    if i >= params.len() {
        Seq::empty()
    } else if i < flags.len() && flags[i] == IsBounded::No {
        spec_bounded_params(params, flags, i + 1)
    } else {
        seq![params[i]@] + spec_bounded_params(params, flags, i + 1)
    }
}

/// Copies the declared types of a field list.
fn emit_field_assertions(fields: &Vec<MyField>) -> (r: Vec<String>)
    ensures
        r.deep_view() == spec_field_tys(fields@),
{
    let n = fields.len();
    let mut out: Vec<String> = Vec::new();
    let mut i: usize = 0;
    while i < n
        invariant
            n == fields@.len(),
            i <= n,
            out.deep_view() =~= spec_field_tys(fields@).subrange(0, i as int),
        decreases n - i,
    {
        let ghost pre = out.deep_view();
        out.push(fields[i].ty.clone());
        proof {
            assert(out.deep_view() =~= pre.push(fields@[i as int].ty@));
            assert(spec_field_tys(fields@).subrange(0, i + 1) =~= pre.push(
                fields@[i as int].ty@,
            ));
        }
        i = i + 1;
    }
    assert(out.deep_view() =~= spec_field_tys(fields@));
    out
}

/// Selects the zero case of a tagged union and emits its obligations.
#[verifier::loop_isolation(false)]
fn checks_and_emit_enum_field_assertions(ds: &DataStructure, config: &ZeroConfig) -> (r: Result<
    Vec<String>,
    Diagnostic,
>)
    requires
        ds.data_variant == DataVariant::Enum,
    ensures
        ({
            let t = spec_enum_obligations(*ds, config.repr_attr);
            match r {
                Ok(v) => t == Ok::<Seq<Seq<char>>, DiagModel>(v.deep_view()),
                Err(e) => t == Err::<Seq<Seq<char>>, DiagModel>(e@),
            }
        }),
{
    if ds.variants.len() == 0 {
        return Err(spanned_err(&ds.name, "Zero variant enums cannot implement Zeroable."));
    }
    let zero_variant: usize;
    match config.repr_attr {
        ReprAttr::Transparent => {
            zero_variant = 0;
        },
        ReprAttr::Rust => {
            return Err(
                spanned_err(&ds.name, "Expected a `#[repr(C/<integer_type>/Transparent)]`enum"),
            );
        },
        _ => {
            let first_zero = match &ds.variants[0].discriminant {
                None => true,
                Some(d) => d.is_zero(),
            };
            if first_zero {
                zero_variant = 0;
            } else {
                let n = ds.variants.len();
                let mut j: usize = 1;
                let mut found: Option<usize> = None;
                while j < n
                    invariant
                        1 <= j <= n,
                        match found {
                            Some(k) => spec_find_zero_variant(ds.variants@, 1) == Some(k as int)
                                && k < n,
                            None => spec_find_zero_variant(ds.variants@, 1)
                                == spec_find_zero_variant(ds.variants@, j as int),
                        },
                    decreases n - j,
                {
                    let is_zero = match &ds.variants[j].discriminant {
                        None => false,
                        Some(d) => d.is_zero(),
                    };
                    if found.is_none() && is_zero {
                        found = Some(j);
                    }
                    j = j + 1;
                }
                match found {
                    Some(k) => {
                        zero_variant = k;
                    },
                    None => {
                        return Err(
                            spanned_err(
                                &ds.name,
                                "\nExpected either:\n\n- The first variant to have an implicit discriminant,\n\n- Any variant with an explicit `0` discriminant,\n    ",
                            ),
                        );
                    },
                }
            }
        },
    }
    Ok(emit_field_assertions(&ds.variants[zero_variant].fields))
}

/// Selects the obligated fields of an untagged union and emits them.
#[verifier::loop_isolation(false)]
fn checks_and_emit_union_field_assertions(ds: &DataStructure, config: &ZeroConfig) -> (r: Result<
    Vec<String>,
    Diagnostic,
>)
    requires
        ds.data_variant == DataVariant::Union,
        ds.wf(),
    ensures
        ({
            let t = spec_union_obligations(*ds, config@);
            match r {
                Ok(v) => t == Ok::<Seq<Seq<char>>, DiagModel>(v.deep_view()),
                Err(e) => t == Err::<Seq<Seq<char>>, DiagModel>(e@),
            }
        }),
{
    let nf = ds.variants[0].fields.len();
    if nf == 0 {
        return Err(spanned_err(&ds.name, "Zero fields union cannot implement Zeroable."));
    }
    if config.repr_attr == ReprAttr::Transparent {
        let mut out: Vec<String> = Vec::new();
        out.push(ds.variants[0].fields[0].ty.clone());
        assert(out.deep_view() =~= seq![ds.variants@[0].fields@[0].ty@]);
        return Ok(out);
    }
    let nflags = config.zeroable_fields.len();
    let mut out: Vec<String> = Vec::new();
    let mut i: usize = 0;
    while i < nf && i < nflags
        invariant
            i <= nf,
            spec_union_obligated(ds.variants@[0].fields@, config@.zeroable_fields, 0)
                =~= out.deep_view() + spec_union_obligated(
                ds.variants@[0].fields@,
                config@.zeroable_fields,
                i as int,
            ),
        decreases nf - i,
    {
        let ghost pre = out.deep_view();
        if config.zeroable_fields[i] == IsZeroable::Yes {
            out.push(ds.variants[0].fields[i].ty.clone());
            assert(out.deep_view() =~= pre.push(ds.variants@[0].fields@[i as int].ty@));
        }
        i = i + 1;
        assert(spec_union_obligated(ds.variants@[0].fields@, config@.zeroable_fields, 0)
            =~= out.deep_view() + spec_union_obligated(
            ds.variants@[0].fields@,
            config@.zeroable_fields,
            i as int,
        ));
    }
    assert(spec_union_obligated(ds.variants@[0].fields@, config@.zeroable_fields, i as int)
        =~= Seq::<Seq<char>>::empty());
    assert(out.deep_view() =~= spec_union_obligated(
        ds.variants@[0].fields@,
        config@.zeroable_fields,
        0,
    ));
    if out.len() == 0 {
        let msg: &str = if config.default_zeroab == IsZeroable::No {
            "Expected one or more fields with a `#[zero(zeroable)]` attribute, or a `#[repr(transparent)]` attribute."
        } else {
            "Expected one or more fields without a `#[zero(nonzero)]` attribute, or a `#[repr(transparent)]` attribute."
        };
        return Err(spanned_err(&ds.name, msg));
    }
    Ok(out)
}

/// Copies the type parameters that keep the default bound.
#[verifier::loop_isolation(false)]
fn bounded_params(params: &Vec<String>, flags: &Vec<IsBounded>) -> (r: Vec<String>)
    ensures
        r.deep_view() == spec_bounded_params(params@, flags@, 0),
{
    let n = params.len();
    let nflags = flags.len();
    let mut out: Vec<String> = Vec::new();
    let mut i: usize = 0;
    while i < n
        invariant
            i <= n,
            spec_bounded_params(params@, flags@, 0) =~= out.deep_view() + spec_bounded_params(
                params@,
                flags@,
                i as int,
            ),
        decreases n - i,
    {
        let ghost pre = out.deep_view();
        if !(i < nflags && flags[i] == IsBounded::No) {
            out.push(params[i].clone());
            assert(out.deep_view() =~= pre.push(params@[i as int]@));
        }
        i = i + 1;
        assert(spec_bounded_params(params@, flags@, 0) =~= out.deep_view() + spec_bounded_params(
            params@,
            flags@,
            i as int,
        ));
    }
    assert(out.deep_view() =~= spec_bounded_params(params@, flags@, 0));
    out
}

/// Copies an owned string list.
fn clone_strings(v: &Vec<String>) -> (r: Vec<String>)
    ensures
        r.deep_view() == v.deep_view(),
{
    let n = v.len();
    let mut out: Vec<String> = Vec::new();
    let mut i: usize = 0;
    while i < n
        invariant
            n == v@.len(),
            i <= n,
            out.deep_view() =~= v.deep_view().subrange(0, i as int),
        decreases n - i,
    {
        let ghost pre = out.deep_view();
        out.push(v[i].clone());
        proof {
            assert(out.deep_view() =~= pre.push(v@[i as int]@));
            assert(v.deep_view().subrange(0, i + 1) =~= pre.push(v@[i as int]@));
        }
        i = i + 1;
    }
    assert(out.deep_view() =~= v.deep_view());
    out
}

/// The heading of the generated union documentation's private-field note.
pub open spec fn docs_priv_note() -> Seq<char> {
    "# Private Fields\n\nPrivate fields are omitted in this documentation.\n\n"@
}

/// The heading of the safely zero-readable fields.
pub open spec fn docs_zeroable_header() -> Seq<char> {
    "# Zeroable Fields\n\nThese fields can be safely accessed in the return value of `Self::zeroed()`:\n\n"@
}

/// The heading of the fields that may be unsound to read when zeroed.
pub open spec fn docs_nonzero_header() -> Seq<char> {
    "# NonZero Fields\n\nThese fields may be unsound to access in the return value of `Self::zeroed()`:\n\n"@
}

/// One documentation line for a field: its identifier and declared type.
pub open spec fn spec_doc_line(f: MyField) -> Seq<char> {
    "- `"@ + field_ident_text(f.ident) + ": "@ + f.ty@ + "` \n\n"@
}

/// The documentation lines, from position `i` on, of the public fields
/// whose effective flag equals `want`.
pub open spec fn spec_doc_lines(
    fields: Seq<MyField>,
    flags: Seq<IsZeroable>,
    want: IsZeroable,
    i: int,
) -> Seq<char>
    decreases fields.len() - i,
{
    if i >= fields.len() || i >= flags.len() {
        Seq::empty()
    } else if fields[i].is_public && flags[i] == want {
        spec_doc_line(fields[i]) + spec_doc_lines(fields, flags, want, i + 1)
    } else {
        spec_doc_lines(fields, flags, want, i + 1)
    }
}

/// The number of public fields, from position `i` on, walking the field
/// and flag lists together.
pub open spec fn spec_count_pub(fields: Seq<MyField>, flags: Seq<IsZeroable>, i: int) -> int
    decreases fields.len() - i,
{
    if i >= fields.len() || i >= flags.len() {
        0
    } else if fields[i].is_public {
        1 + spec_count_pub(fields, flags, i + 1)
    } else {
        spec_count_pub(fields, flags, i + 1)
    }
}

/// The number of public fields with effective flag `want`, from `i` on.
pub open spec fn spec_count_pub_flag(
    fields: Seq<MyField>,
    flags: Seq<IsZeroable>,
    want: IsZeroable,
    i: int,
) -> int
    decreases fields.len() - i,
{
    if i >= fields.len() || i >= flags.len() {
        0
    } else if fields[i].is_public && flags[i] == want {
        1 + spec_count_pub_flag(fields, flags, want, i + 1)
    } else {
        spec_count_pub_flag(fields, flags, want, i + 1)
    }
}

/// The generated documentation of a public untagged union: which fields are
/// guaranteed safely zero-readable and which are not, with a note when
/// private fields are omitted.
pub open spec fn spec_docs_for_union(ds: DataStructure, cm: ConfigModel) -> Seq<char> {
    let fields = ds.variants@[0].fields@;
    let flags = cm.zeroable_fields;
    (if spec_count_pub(fields, flags, 0) < fields.len() {
        docs_priv_note()
    } else {
        Seq::empty()
    }) + docs_zeroable_header() + spec_doc_lines(fields, flags, IsZeroable::Yes, 0) + (
    if spec_count_pub_flag(fields, flags, IsZeroable::No, 0) > 0 {
        docs_nonzero_header() + spec_doc_lines(fields, flags, IsZeroable::No, 0)
    } else {
        Seq::empty()
    })
}

/// Renders the documentation lines of the public fields with flag `want`.
#[verifier::loop_isolation(false)]
fn doc_lines(ds: &DataStructure, config: &ZeroConfig, want: IsZeroable) -> (s: String)
    requires
        ds.variants@.len() >= 1,
    ensures
        s@ == spec_doc_lines(ds.variants@[0].fields@, config@.zeroable_fields, want, 0),
{
    let fields = &ds.variants[0].fields;
    let flags = &config.zeroable_fields;
    let nf = fields.len();
    let nflags = flags.len();
    let mut s = String::new();
    let mut i: usize = 0;
    while i < nf && i < nflags
        invariant
            i <= nf,
            spec_doc_lines(fields@, flags@, want, 0) =~= s@ + spec_doc_lines(
                fields@,
                flags@,
                want,
                i as int,
            ),
        decreases nf - i,
    {
        let ghost pre = s@;
        if fields[i].is_public && flags[i] == want {
            let ident = fields[i].ident();
            s.append("- `");
            s.append(ident.as_str());
            s.append(": ");
            s.append(fields[i].ty.as_str());
            s.append("` \n\n");
            assert(s@ =~= pre + spec_doc_line(fields@[i as int]));
        }
        i = i + 1;
        assert(spec_doc_lines(fields@, flags@, want, 0) =~= s@ + spec_doc_lines(
            fields@,
            flags@,
            want,
            i as int,
        ));
    }
    assert(s@ =~= spec_doc_lines(fields@, flags@, want, 0));
    s
}

/// Counts the public fields among the zipped field and flag lists; with
/// `want`, only those whose effective flag equals it.
#[verifier::loop_isolation(false)]
fn count_pub(ds: &DataStructure, config: &ZeroConfig, want: Option<IsZeroable>) -> (c: usize)
    requires
        ds.variants@.len() >= 1,
    ensures
        match want {
            None => c as int == spec_count_pub(ds.variants@[0].fields@, config@.zeroable_fields, 0),
            Some(w) => c as int == spec_count_pub_flag(
                ds.variants@[0].fields@,
                config@.zeroable_fields,
                w,
                0,
            ),
        },
{
    let fields = &ds.variants[0].fields;
    let flags = &config.zeroable_fields;
    let nf = fields.len();
    let nflags = flags.len();
    let mut c: usize = 0;
    let mut i: usize = 0;
    while i < nf && i < nflags
        invariant
            i <= nf,
            c <= i,
            match want {
                None => spec_count_pub(fields@, flags@, 0) == c + spec_count_pub(
                    fields@,
                    flags@,
                    i as int,
                ),
                Some(w) => spec_count_pub_flag(fields@, flags@, w, 0) == c + spec_count_pub_flag(
                    fields@,
                    flags@,
                    w,
                    i as int,
                ),
            },
        decreases nf - i,
    {
        let counted = match want {
            None => fields[i].is_public,
            Some(w) => fields[i].is_public && flags[i] == w,
        };
        if counted {
            c = c + 1;
        }
        i = i + 1;
    }
    c
}

/// Renders the documentation of a public untagged union.
pub fn docs_for_union(ds: &DataStructure, config: &ZeroConfig) -> (s: String)
    requires
        ds.data_variant == DataVariant::Union,
        ds.wf(),
    ensures
        s@ == spec_docs_for_union(*ds, config@),
{
    let nf = ds.variants[0].fields.len();
    let pub_count = count_pub(ds, config, None);
    let nonzero_count = count_pub(ds, config, Some(IsZeroable::No));
    let zeroable_lines = doc_lines(ds, config, IsZeroable::Yes);
    let nonzero_lines = doc_lines(ds, config, IsZeroable::No);
    let mut s = String::new();
    if pub_count < nf {
        s.append("# Private Fields\n\nPrivate fields are omitted in this documentation.\n\n");
    }
    s.append(
        "# Zeroable Fields\n\nThese fields can be safely accessed in the return value of `Self::zeroed()`:\n\n",
    );
    s.append(zeroable_lines.as_str());
    if nonzero_count > 0 {
        s.append(
            "# NonZero Fields\n\nThese fields may be unsound to access in the return value of `Self::zeroed()`:\n\n",
        );
        s.append(nonzero_lines.as_str());
    }
    assert(s@ =~= spec_docs_for_union(*ds, config@));
    s
}

/// The derivation plan: everything the generated fragment is built from.
#[derive(Debug)]
pub struct Derived {
    /// The name of the type being derived for.
    pub name: String,
    /// The names of all declared type parameters, in order.
    pub type_params: Vec<String>,
    /// The type parameters that receive the zero-initializability bound.
    pub bounded_params: Vec<String>,
    /// Predicate texts appended verbatim to the generated bounds.
    pub extra_predicates: Vec<String>,
    /// Verbatim auxiliary code blocks (test hook only).
    pub test_code: Vec<String>,
    /// The obligated field types, in order; one compile-time proof
    /// obligation is emitted for each.
    pub obligations: Vec<String>,
    /// Generated documentation for a public untagged union, else empty.
    pub docs: String,
}

/// The mathematical model of a [`Derived`].
#[verifier::ext_equal]
pub struct DerivedModel {
    pub name: Seq<char>,
    pub type_params: Seq<Seq<char>>,
    pub bounded_params: Seq<Seq<char>>,
    pub extra_predicates: Seq<Seq<char>>,
    pub test_code: Seq<Seq<char>>,
    pub obligations: Seq<Seq<char>>,
    pub docs: Seq<char>,
}

impl View for Derived {
    type V = DerivedModel;

    open spec fn view(&self) -> DerivedModel {
        (DerivedModel {
            name: self.name@,
            type_params: self.type_params.deep_view(),
            bounded_params: self.bounded_params.deep_view(),
            extra_predicates: self.extra_predicates.deep_view(),
            test_code: self.test_code.deep_view(),
            obligations: self.obligations.deep_view(),
            docs: self.docs@,
        })
    }
}

/// The items from position `i` on, each preceded by a comma separator.
pub open spec fn spec_join_tail(items: Seq<Seq<char>>, i: int) -> Seq<char>
    decreases items.len() - i,
{
    if i >= items.len() {
        Seq::empty()
    } else {
        ", "@ + items[i] + spec_join_tail(items, i + 1)
    }
}

/// The items joined with comma separators.
pub open spec fn spec_join_comma(items: Seq<Seq<char>>) -> Seq<char> {
    if items.len() == 0 {
        Seq::empty()
    } else {
        items[0] + spec_join_tail(items, 1)
    }
}

/// The generic argument list, or nothing when there are no parameters.
pub open spec fn spec_generics_txt(params: Seq<Seq<char>>) -> Seq<char> {
    if params.len() == 0 {
        Seq::empty()
    } else {
        "<"@ + spec_join_comma(params) + ">"@
    }
}

/// The generated bound clauses of the bounded type parameters, from `i` on.
pub open spec fn spec_bound_clauses(bounded: Seq<Seq<char>>, i: int) -> Seq<char>
    decreases bounded.len() - i,
{
    if i >= bounded.len() {
        Seq::empty()
    } else {
        " "@ + bounded[i] + ": Zeroable,"@ + spec_bound_clauses(bounded, i + 1)
    }
}

/// The verbatim extra predicate clauses, from `i` on.
pub open spec fn spec_pred_clauses(preds: Seq<Seq<char>>, i: int) -> Seq<char>
    decreases preds.len() - i,
{
    if i >= preds.len() {
        Seq::empty()
    } else {
        " "@ + preds[i] + ","@ + spec_pred_clauses(preds, i + 1)
    }
}

/// The whole generated `where` clause.
pub open spec fn spec_where_txt(bounded: Seq<Seq<char>>, preds: Seq<Seq<char>>) -> Seq<char> {
    " where"@ + spec_bound_clauses(bounded, 0) + spec_pred_clauses(preds, 0)
}

/// The verbatim auxiliary code blocks, from `i` on.
pub open spec fn spec_test_blocks(ts: Seq<Seq<char>>, i: int) -> Seq<char>
    decreases ts.len() - i,
{
    if i >= ts.len() {
        Seq::empty()
    } else {
        " { "@ + ts[i] + " }"@ + spec_test_blocks(ts, i + 1)
    }
}

/// The per-field proof obligations, from `i` on: each asks the host type
/// system to confirm the type satisfies the capability.
pub open spec fn spec_obl_blocks(obls: Seq<Seq<char>>, i: int) -> Seq<char>
    decreases obls.len() - i,
{
    if i >= obls.len() {
        Seq::empty()
    } else {
        " { let _ = <"@ + obls[i] + " as GetAssertZeroable>::GET; }"@ + spec_obl_blocks(
            obls,
            i + 1,
        )
    }
}

/// The text of the generated fragment: the obligation block and the
/// capability grant, both conditioned on the same generated bounds.
pub open spec fn spec_render(d: DerivedModel) -> Seq<char> {
    let gen = spec_generics_txt(d.type_params);
    let wh = spec_where_txt(d.bounded_params, d.extra_predicates);
    "impl"@ + gen + " "@ + d.name + gen + wh + " { const _ASSERT_IS_ZEROABLE: () ="@
        + spec_test_blocks(d.test_code, 0) + spec_obl_blocks(d.obligations, 0) + " ; }"@ + " impl"@
        + gen + " Zeroable for "@ + d.name + gen + wh + " { }"@
}

/// Appends the items joined with comma separators.
#[verifier::loop_isolation(false)]
fn append_join_comma(s: &mut String, items: &Vec<String>)
    ensures
        final(s)@ == old(s)@ + spec_join_comma(items.deep_view()),
{
    let n = items.len();
    if n == 0 {
        assert(old(s)@ + spec_join_comma(items.deep_view()) =~= old(s)@);
        return ;
    }
    s.append(items[0].as_str());
    let mut i: usize = 1;
    while i < n
        invariant
            1 <= i <= n,
            old(s)@ + spec_join_comma(items.deep_view()) =~= s@ + spec_join_tail(
                items.deep_view(),
                i as int,
            ),
        decreases n - i,
    {
        let ghost pre = s@;
        s.append(", ");
        s.append(items[i].as_str());
        assert(s@ =~= pre + (", "@ + items.deep_view()[i as int]));
        i = i + 1;
        assert(old(s)@ + spec_join_comma(items.deep_view()) =~= s@ + spec_join_tail(
            items.deep_view(),
            i as int,
        ));
    }
    assert(s@ =~= old(s)@ + spec_join_comma(items.deep_view()));
}

/// Appends the generic argument list.
fn append_generics(s: &mut String, params: &Vec<String>)
    ensures
        final(s)@ == old(s)@ + spec_generics_txt(params.deep_view()),
{
    if params.len() == 0 {
        assert(old(s)@ + spec_generics_txt(params.deep_view()) =~= old(s)@);
        return ;
    }
    s.append("<");
    append_join_comma(s, params);
    s.append(">");
    assert(s@ =~= old(s)@ + spec_generics_txt(params.deep_view()));
}

/// Appends the generated `where` clause.
#[verifier::loop_isolation(false)]
fn append_where(s: &mut String, bounded: &Vec<String>, preds: &Vec<String>)
    ensures
        final(s)@ == old(s)@ + spec_where_txt(bounded.deep_view(), preds.deep_view()),
{
    s.append(" where");
    let n = bounded.len();
    let mut i: usize = 0;
    while i < n
        invariant
            i <= n,
            old(s)@ + " where"@ + spec_bound_clauses(bounded.deep_view(), 0) =~= s@
                + spec_bound_clauses(bounded.deep_view(), i as int),
        decreases n - i,
    {
        let ghost pre = s@;
        s.append(" ");
        s.append(bounded[i].as_str());
        s.append(": Zeroable,");
        assert(s@ =~= pre + (" "@ + bounded.deep_view()[i as int] + ": Zeroable,"@));
        i = i + 1;
        assert(old(s)@ + " where"@ + spec_bound_clauses(bounded.deep_view(), 0) =~= s@
            + spec_bound_clauses(bounded.deep_view(), i as int));
    }
    let m = preds.len();
    let ghost mid = s@;
    let mut k: usize = 0;
    while k < m
        invariant
            k <= m,
            mid + spec_pred_clauses(preds.deep_view(), 0) =~= s@ + spec_pred_clauses(
                preds.deep_view(),
                k as int,
            ),
        decreases m - k,
    {
        let ghost pre = s@;
        s.append(" ");
        s.append(preds[k].as_str());
        s.append(",");
        assert(s@ =~= pre + (" "@ + preds.deep_view()[k as int] + ","@));
        k = k + 1;
        assert(mid + spec_pred_clauses(preds.deep_view(), 0) =~= s@ + spec_pred_clauses(
            preds.deep_view(),
            k as int,
        ));
    }
    assert(s@ =~= old(s)@ + spec_where_txt(bounded.deep_view(), preds.deep_view()));
}

/// Appends the auxiliary code blocks and the per-field obligations.
#[verifier::loop_isolation(false)]
fn append_blocks(s: &mut String, test_code: &Vec<String>, obls: &Vec<String>)
    ensures
        final(s)@ == old(s)@ + spec_test_blocks(test_code.deep_view(), 0) + spec_obl_blocks(
            obls.deep_view(),
            0,
        ),
{
    let n = test_code.len();
    let mut i: usize = 0;
    while i < n
        invariant
            i <= n,
            old(s)@ + spec_test_blocks(test_code.deep_view(), 0) =~= s@ + spec_test_blocks(
                test_code.deep_view(),
                i as int,
            ),
        decreases n - i,
    {
        let ghost pre = s@;
        s.append(" { ");
        s.append(test_code[i].as_str());
        s.append(" }");
        assert(s@ =~= pre + (" { "@ + test_code.deep_view()[i as int] + " }"@));
        i = i + 1;
        assert(old(s)@ + spec_test_blocks(test_code.deep_view(), 0) =~= s@ + spec_test_blocks(
            test_code.deep_view(),
            i as int,
        ));
    }
    let m = obls.len();
    let ghost mid = s@;
    let mut k: usize = 0;
    while k < m
        invariant
            k <= m,
            mid + spec_obl_blocks(obls.deep_view(), 0) =~= s@ + spec_obl_blocks(
                obls.deep_view(),
                k as int,
            ),
        decreases m - k,
    {
        let ghost pre = s@;
        s.append(" { let _ = <");
        s.append(obls[k].as_str());
        s.append(" as GetAssertZeroable>::GET; }");
        assert(s@ =~= pre + (" { let _ = <"@ + obls.deep_view()[k as int]
            + " as GetAssertZeroable>::GET; }"@));
        k = k + 1;
        assert(mid + spec_obl_blocks(obls.deep_view(), 0) =~= s@ + spec_obl_blocks(
            obls.deep_view(),
            k as int,
        ));
    }
    assert(s@ =~= old(s)@ + spec_test_blocks(test_code.deep_view(), 0) + spec_obl_blocks(
        obls.deep_view(),
        0,
    ));
}

impl Derived {
    /// Renders the generated fragment as text.
    pub fn tokens(&self) -> (s: String)
        ensures
            s@ == spec_render(self@),
    {
        let mut s = "impl".to_owned();
        append_generics(&mut s, &self.type_params);
        s.append(" ");
        s.append(self.name.as_str());
        append_generics(&mut s, &self.type_params);
        append_where(&mut s, &self.bounded_params, &self.extra_predicates);
        s.append(" { const _ASSERT_IS_ZEROABLE: () =");
        append_blocks(&mut s, &self.test_code, &self.obligations);
        s.append(" ; }");
        s.append(" impl");
        append_generics(&mut s, &self.type_params);
        s.append(" Zeroable for ");
        s.append(self.name.as_str());
        append_generics(&mut s, &self.type_params);
        append_where(&mut s, &self.bounded_params, &self.extra_predicates);
        s.append(" { }");
        assert(s@ =~= spec_render(self@));
        s
    }
}

/// The whole derivation: the parsed configuration, the per-shape rule, the
/// derivation plan; under the debug-dump flag, the rendered fragment is
/// surfaced as the diagnostic instead.
pub open spec fn spec_derive(ds: DataStructure) -> Result<DerivedModel, DiagModel> {
    match spec_parse_attrs_for_zeroed(ds) {
        Err(e) => Err(e),
        Ok(cm) => match spec_obligations(ds, cm) {
            Err(e) => Err(e),
            Ok(obl) => {
                let dm = (DerivedModel {
                    name: ds.name@,
                    type_params: ds.type_params.deep_view(),
                    bounded_params: spec_bounded_params(ds.type_params@, cm.unbounded_typarams, 0),
                    extra_predicates: cm.extra_predicates,
                    test_code: cm.test_code,
                    obligations: obl,
                    docs: if ds.data_variant == DataVariant::Union && ds.is_public {
                        spec_docs_for_union(ds, cm)
                    } else {
                        Seq::empty()
                    },
                });
                if cm.debug_print {
                    Err((DiagModel { site: ds.name@, message: spec_render(dm) }))
                } else {
                    Ok(dm)
                }
            },
        },
    }
}

/// Runs one whole derivation over a normalized declaration: parses the
/// annotations, applies the per-shape structural rule, and returns the
/// derivation plan or the first diagnostic.
pub fn derive(ds: &DataStructure) -> (r: Result<Derived, Diagnostic>)
    requires
        ds.wf(),
    ensures
        lift_v(r) == spec_derive(*ds),
{
    let config = match parse_attrs_for_zeroed(ds) {
        Ok(c) => c,
        Err(e) => {
            return Err(e);
        },
    };
    let ghost cm = config@;
    let debug_print = config.debug_print;
    let field_asserts: Vec<String> = match ds.data_variant {
        DataVariant::Struct => emit_field_assertions(&ds.variants[0].fields),
        DataVariant::Enum => match checks_and_emit_enum_field_assertions(ds, &config) {
            Ok(v) => v,
            Err(e) => {
                return Err(e);
            },
        },
        DataVariant::Union => match checks_and_emit_union_field_assertions(ds, &config) {
            Ok(v) => v,
            Err(e) => {
                return Err(e);
            },
        },
    };
    let docs: String = if ds.data_variant == DataVariant::Union && ds.is_public {
        docs_for_union(ds, &config)
    } else {
        String::new()
    };
    let bounded = bounded_params(&ds.type_params, &config.unbounded_typarams);
    let ZeroConfig { extra_predicates, test_code, .. } = config;
    let derived = Derived {
        name: ds.name.clone(),
        type_params: clone_strings(&ds.type_params),
        bounded_params: bounded,
        extra_predicates,
        test_code,
        obligations: field_asserts,
        docs,
    };
    proof {
        assert(spec_derive(*ds) matches Ok(dm) ==> dm =~= derived@);
    }
    if debug_print {
        let rendered = derived.tokens();
        let d = Diagnostic { site: ds.name.clone(), message: rendered };
        proof {
            assert(spec_derive(*ds) matches Err(e) ==> e =~= d@);
        }
        return Err(d);
    }
    Ok(derived)
}

} // verus!
