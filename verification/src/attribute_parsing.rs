//! The annotation parser.
//!
//! Walks, in order, the container-level annotations, then each variant's,
//! then each field's, applying the recognized `zero(...)` grammar and the
//! `repr(...)` classifier, and accumulates a [`ZeroConfig`].  Any annotation
//! outside the grammar, or a recognized annotation used in the wrong scope,
//! is a diagnostic naming the offending token.

use vstd::prelude::*;

use crate::datastructure::Attr;
use crate::datastructure::DataStructure;
use crate::datastructure::DataVariant;
use crate::datastructure::NestedMeta;
use crate::diagnostic::DiagModel;
use crate::diagnostic::Diagnostic;
use crate::diagnostic::lift_v;
use crate::diagnostic::spanned_err;
use crate::repr_attr::ReprAttr;
use crate::repr_attr::meta_site;
use crate::repr_attr::meta_site_text;
use crate::repr_attr::spec_repr_attr;
use crate::strutil::eq_str;
use vstd::string::StringExecFns;

verus! {

/// Whether a type parameter receives the default zero-initializability bound.
#[derive(Clone, Copy, PartialEq, Eq, Structural, Debug)]
pub enum IsBounded {
    Yes,
    No,
}

/// The tri-state effective requirement of an untagged-union field, with the
/// inherit-default state resolved away: each field's slot starts at the
/// type-level default and is overwritten by explicit field annotations.
#[derive(Clone, Copy, PartialEq, Eq, Structural, Debug)]
pub enum IsZeroable {
    Yes,
    No,
}

impl IsZeroable {
    /// `Yes` for `true`, `No` for `false`.
    pub fn new(val: bool) -> (r: IsZeroable)
        ensures
            r == (if val {
                IsZeroable::Yes
            } else {
                IsZeroable::No
            }),
    {
        if val {
            IsZeroable::Yes
        } else {
            IsZeroable::No
        }
    }
}

/// The scope an annotation appears in.
#[derive(Clone, Copy, PartialEq, Eq, Structural, Debug)]
pub enum ParseContext {
    TypeAttr,
    Variant,
    Field { pos: usize },
}

/// The accumulated derivation configuration.
pub struct ZeroConfig {
    /// Extra predicate texts appended verbatim to the generated bounds.
    pub extra_predicates: Vec<String>,
    /// Per type parameter: whether it keeps the default bound.
    pub unbounded_typarams: Vec<IsBounded>,
    /// Verbatim auxiliary code blocks (test hook only).
    pub test_code: Vec<String>,
    /// If set, derivation is aborted and the generated fragment is surfaced
    /// as the diagnostic output.
    pub debug_print: bool,
    /// Per untagged-union field: whether its obligation is required.
    pub zeroable_fields: Vec<IsZeroable>,
    /// The type-level default for unmarked untagged-union fields.
    pub default_zeroab: IsZeroable,
    /// The layout representation class.
    pub repr_attr: ReprAttr,
}

/// The mathematical model of a [`ZeroConfig`].
#[verifier::ext_equal]
pub struct ConfigModel {
    pub extra_predicates: Seq<Seq<char>>,
    pub unbounded_typarams: Seq<IsBounded>,
    pub test_code: Seq<Seq<char>>,
    pub debug_print: bool,
    pub zeroable_fields: Seq<IsZeroable>,
    pub default_zeroab: IsZeroable,
    pub repr_attr: ReprAttr,
}

impl View for ZeroConfig {
    type V = ConfigModel;

    open spec fn view(&self) -> ConfigModel {
        (ConfigModel {
            extra_predicates: self.extra_predicates.deep_view(),
            unbounded_typarams: self.unbounded_typarams@,
            test_code: self.test_code.deep_view(),
            debug_print: self.debug_print,
            zeroable_fields: self.zeroable_fields@,
            default_zeroab: self.default_zeroab,
            repr_attr: self.repr_attr,
        })
    }
}

/// The diagnostic for an annotation outside the grammar or in a wrong scope.
pub open spec fn unrecognized_msg() -> Seq<char> {
    "Unrecognized attribute"@
}

/// The diagnostic for a non-identifier inside `not_zeroable(...)`.
pub open spec fn expected_ident_msg() -> Seq<char> {
    "Expected identifier for type parameter"@
}

/// The diagnostic for an exemption naming no declared type parameter.
pub open spec fn expected_typaram_msg() -> Seq<char> {
    "Expected a type parameter"@
}

/// The diagnostic for a container default-flip outside a union with fields.
pub open spec fn nonzero_fields_err_msg() -> Seq<char> {
    "Cannot use the `#[zero(nonzero_fields)]` attribute on a struct/enum"@
}

/// The diagnostic for a field-level override outside an untagged union.
pub open spec fn field_override_err_msg(word: Seq<char>) -> Seq<char> {
    "Cannot use the `#[zero("@ + word + ")]` attribute on a struct/enum field "@
}

/// The configuration every derivation starts from: every type parameter
/// bounded, every untagged-union field required, default layout.
pub open spec fn spec_init_config(ds: DataStructure) -> ConfigModel {
    (ConfigModel {
        extra_predicates: Seq::empty(),
        unbounded_typarams: Seq::new(ds.type_params@.len(), |i: int| IsBounded::Yes),
        test_code: Seq::empty(),
        debug_print: false,
        zeroable_fields: if ds.data_variant == DataVariant::Union {
            Seq::new(ds.variants@[0].fields@.len(), |i: int| IsZeroable::Yes)
        } else {
            Seq::empty()
        },
        default_zeroab: IsZeroable::Yes,
        repr_attr: ReprAttr::Rust,
    })
}

/// The index of the first declared type parameter named `id`, from `i` on.
pub open spec fn spec_find_param(params: Seq<String>, id: Seq<char>, i: int) -> Option<int>
    decreases params.len() - i,
{
    if i >= params.len() {
        None
    } else if params[i]@ == id {
        Some(i)
    } else {
        spec_find_param(params, id, i + 1)
    }
}

/// Applies one entry of a `not_zeroable(...)` exemption list.
pub open spec fn spec_apply_not_zeroable_entry(
    ds: DataStructure,
    cm: ConfigModel,
    m: NestedMeta,
) -> Result<ConfigModel, DiagModel> {
    match m {
        NestedMeta::Word(id) => match spec_find_param(ds.type_params@, id@, 0) {
            Some(p) => Ok(
                (ConfigModel { unbounded_typarams: cm.unbounded_typarams.update(p, IsBounded::No), ..cm }),
            ),
            None => Err((DiagModel { site: id@, message: expected_typaram_msg() })),
        },
        m2 => Err((DiagModel { site: meta_site(m2), message: expected_ident_msg() })),
    }
}

/// Folds a `not_zeroable(...)` exemption list from position `i`.
pub open spec fn spec_apply_not_zeroable(
    ds: DataStructure,
    cm: ConfigModel,
    nested: Seq<NestedMeta>,
    i: int,
) -> Result<ConfigModel, DiagModel>
    decreases nested.len() - i,
{
    if i >= nested.len() {
        Ok(cm)
    } else {
        match spec_apply_not_zeroable_entry(ds, cm, nested[i]) {
            Ok(c2) => spec_apply_not_zeroable(ds, c2, nested, i + 1),
            Err(e) => Err(e),
        }
    }
}

/// Applies one token of a `zero(...)` annotation in the given scope.
pub open spec fn spec_apply_zero_meta(
    ds: DataStructure,
    cm: ConfigModel,
    m: NestedMeta,
    ctx: ParseContext,
) -> Result<ConfigModel, DiagModel> {
    match (ctx, m) {
        (ParseContext::TypeAttr, NestedMeta::NameValueStr { name, value }) => {
            if name@ == "bound"@ {
                Ok((ConfigModel { extra_predicates: cm.extra_predicates.push(value@), ..cm }))
            } else if name@ == "_test_code"@ {
                Ok((ConfigModel { test_code: cm.test_code.push(value@), ..cm }))
            } else {
                Err((DiagModel { site: name@, message: unrecognized_msg() }))
            }
        },
        (ParseContext::TypeAttr, NestedMeta::List { name, nested }) => {
            if name@ == "not_zeroable"@ {
                spec_apply_not_zeroable(ds, cm, nested@, 0)
            } else {
                Err((DiagModel { site: name@, message: unrecognized_msg() }))
            }
        },
        (ParseContext::TypeAttr, NestedMeta::Word(word)) => {
            if word@ == "debug_print"@ {
                Ok((ConfigModel { debug_print: true, ..cm }))
            } else if word@ == "nonzero_fields"@ {
                if cm.zeroable_fields.len() == 0 {
                    Err((DiagModel { site: word@, message: nonzero_fields_err_msg() }))
                } else {
                    Ok(
                        (ConfigModel {
                            default_zeroab: IsZeroable::No,
                            zeroable_fields: Seq::new(
                                cm.zeroable_fields.len(),
                                |i: int| IsZeroable::No,
                            ),
                            ..cm
                        }),
                    )
                }
            } else {
                Err((DiagModel { site: word@, message: unrecognized_msg() }))
            }
        },
        (ParseContext::Field { pos }, NestedMeta::Word(word)) => {
            if word@ == "zeroable"@ || word@ == "nonzero"@ {
                if pos < cm.zeroable_fields.len() {
                    Ok(
                        (ConfigModel {
                            zeroable_fields: cm.zeroable_fields.update(
                                pos as int,
                                if word@ == "zeroable"@ {
                                    IsZeroable::Yes
                                } else {
                                    IsZeroable::No
                                },
                            ),
                            ..cm
                        }),
                    )
                } else {
                    Err((DiagModel { site: word@, message: field_override_err_msg(word@) }))
                }
            } else {
                Err((DiagModel { site: word@, message: unrecognized_msg() }))
            }
        },
        (_, m2) => Err((DiagModel { site: meta_site(m2), message: unrecognized_msg() })),
    }
}

/// Folds the tokens of a `zero(...)` annotation from position `i`.
pub open spec fn spec_parse_zero_metas(
    ds: DataStructure,
    cm: ConfigModel,
    metas: Seq<NestedMeta>,
    i: int,
    ctx: ParseContext,
) -> Result<ConfigModel, DiagModel>
    decreases metas.len() - i,
{
    if i >= metas.len() {
        Ok(cm)
    } else {
        match spec_apply_zero_meta(ds, cm, metas[i], ctx) {
            Ok(c2) => spec_parse_zero_metas(ds, c2, metas, i + 1, ctx),
            Err(e) => Err(e),
        }
    }
}

/// Applies one whole attribute: `zero(...)` and `repr(...)` are recognized,
/// every other attribute is ignored.
pub open spec fn spec_parse_attr(
    ds: DataStructure,
    cm: ConfigModel,
    attr: Attr,
    ctx: ParseContext,
) -> Result<ConfigModel, DiagModel> {
    match attr.args {
        Some(metas) => {
            if attr.name@ == "zero"@ {
                spec_parse_zero_metas(ds, cm, metas@, 0, ctx)
            } else if attr.name@ == "repr"@ && ctx == ParseContext::TypeAttr {
                match spec_repr_attr(metas@) {
                    Ok(ra) => Ok((ConfigModel { repr_attr: ra, ..cm })),
                    Err(e) => Err(e),
                }
            } else {
                Ok(cm)
            }
        },
        None => Ok(cm),
    }
}

/// Folds a whole attribute list from position `i`.
pub open spec fn spec_parse_attrs(
    ds: DataStructure,
    cm: ConfigModel,
    attrs: Seq<Attr>,
    i: int,
    ctx: ParseContext,
) -> Result<ConfigModel, DiagModel>
    decreases attrs.len() - i,
{
    if i >= attrs.len() {
        Ok(cm)
    } else {
        match spec_parse_attr(ds, cm, attrs[i], ctx) {
            Ok(c2) => spec_parse_attrs(ds, c2, attrs, i + 1, ctx),
            Err(e) => Err(e),
        }
    }
}

/// Folds the attribute lists of the fields of variant `v`, from field `f`.
pub open spec fn spec_parse_fields(
    ds: DataStructure,
    cm: ConfigModel,
    v: int,
    f: int,
) -> Result<ConfigModel, DiagModel>
    decreases ds.variants@[v].fields@.len() - f,
{
    if f >= ds.variants@[v].fields@.len() {
        Ok(cm)
    } else {
        let field = ds.variants@[v].fields@[f];
        match spec_parse_attrs(ds, cm, field.attrs@, 0, ParseContext::Field { pos: field.index.pos }) {
            Ok(c2) => spec_parse_fields(ds, c2, v, f + 1),
            Err(e) => Err(e),
        }
    }
}

/// Folds the attribute lists of the variants and their fields, from `v`.
pub open spec fn spec_parse_variants(ds: DataStructure, cm: ConfigModel, v: int) -> Result<
    ConfigModel,
    DiagModel,
>
    decreases ds.variants@.len() - v,
{
    if v >= ds.variants@.len() {
        Ok(cm)
    } else {
        match spec_parse_attrs(ds, cm, ds.variants@[v].attrs@, 0, ParseContext::Variant) {
            Ok(c2) => match spec_parse_fields(ds, c2, v, 0) {
                Ok(c3) => spec_parse_variants(ds, c3, v + 1),
                Err(e) => Err(e),
            },
            Err(e) => Err(e),
        }
    }
}

/// The derivation configuration of a declaration: the single left-to-right
/// pass over container, variant and field annotations, or its first
/// diagnostic.
pub open spec fn spec_parse_attrs_for_zeroed(ds: DataStructure) -> Result<ConfigModel, DiagModel> {
    match spec_parse_attrs(ds, spec_init_config(ds), ds.attrs@, 0, ParseContext::TypeAttr) {
        Ok(c1) => spec_parse_variants(ds, c1, 0),
        Err(e) => Err(e),
    }
}

/// The index of the first declared type parameter with the given name.
fn find_param(params: &Vec<String>, id: &String) -> (r: Option<usize>)
    ensures
        match r {
            Some(p) => spec_find_param(params@, id@, 0) == Some(p as int) && p < params@.len(),
            None => spec_find_param(params@, id@, 0) is None,
        },
{
    let n = params.len();
    let mut i: usize = 0;
    while i < n
        invariant
            n == params@.len(),
            i <= n,
            spec_find_param(params@, id@, 0) == spec_find_param(params@, id@, i as int),
        decreases n - i,
    {
        if eq_str(&params[i], id.as_str()) {
            return Some(i);
        }
        i = i + 1;
    }
    None
}

/// Applies one token of a `zero(...)` annotation to the configuration.
#[verifier::loop_isolation(false)]
fn parse_sabi_attr(
    this: &mut ZeroConfig,
    ds: &DataStructure,
    pctx: ParseContext,
    attr: &NestedMeta,
) -> (r: Result<(), Diagnostic>)
    requires
        old(this).unbounded_typarams@.len() == ds.type_params@.len(),
    ensures
        ({
            let t = spec_apply_zero_meta(*ds, old(this)@, *attr, pctx);
            match r {
                Ok(_) => t == Ok::<ConfigModel, DiagModel>(final(this)@) && final(this).unbounded_typarams@.len() == ds.type_params@.len(),
                Err(e) => t == Err::<ConfigModel, DiagModel>(e@),
            }
        }),
{
    match pctx {
        ParseContext::TypeAttr => match attr {
            NestedMeta::NameValueStr { name, value } => {
                if eq_str(name, "bound") {
                    this.extra_predicates.push(value.clone());
                    assert(this@ =~= (ConfigModel {
                        extra_predicates: old(this)@.extra_predicates.push(value@),
                        ..old(this)@
                    })) by {
                        assert(this.extra_predicates.deep_view() =~= old(
                            this,
                        ).extra_predicates.deep_view().push(value@));
                    }
                    Ok(())
                } else if eq_str(name, "_test_code") {
                    this.test_code.push(value.clone());
                    assert(this@ =~= (ConfigModel {
                        test_code: old(this)@.test_code.push(value@),
                        ..old(this)@
                    })) by {
                        assert(this.test_code.deep_view() =~= old(
                            this,
                        ).test_code.deep_view().push(value@));
                    }
                    Ok(())
                } else {
                    Err(spanned_err(name, "Unrecognized attribute"))
                }
            },
            NestedMeta::List { name, nested } => {
                if eq_str(name, "not_zeroable") {
                    let n = nested.len();
                    let mut i: usize = 0;
                    while i < n
                        invariant
                            n == nested@.len(),
                            i <= n,
                            this.unbounded_typarams@.len() == ds.type_params@.len(),
                            spec_apply_not_zeroable(*ds, old(this)@, nested@, 0)
                                == spec_apply_not_zeroable(*ds, this@, nested@, i as int),
                        decreases n - i,
                    {
                        let ghost pre = this@;
                        match &nested[i] {
                            NestedMeta::Word(id) => {
                                match find_param(&ds.type_params, id) {
                                    Some(p) => {
                                        this.unbounded_typarams.set(p, IsBounded::No);
                                        proof {
                                            assert(this@ =~= (ConfigModel {
                                                unbounded_typarams: pre.unbounded_typarams.update(
                                                    p as int,
                                                    IsBounded::No,
                                                ),
                                                ..pre
                                            }));
                                            assert(spec_apply_not_zeroable_entry(
                                                *ds,
                                                pre,
                                                nested@[i as int],
                                            ) == Ok::<ConfigModel, DiagModel>(this@));
                                        }
                                    },
                                    None => {
                                        let d = spanned_err(id, "Expected a type parameter");
                                        proof {
                                            assert(spec_apply_not_zeroable(
                                                *ds,
                                                pre,
                                                nested@,
                                                i as int,
                                            ) == Err::<ConfigModel, DiagModel>(d@));
                                        }
                                        return Err(d);
                                    },
                                }
                            },
                            m => {
                                let site = meta_site_text(m);
                                let d = spanned_err(&site, "Expected identifier for type parameter");
                                proof {
                                    assert(spec_apply_not_zeroable(*ds, pre, nested@, i as int)
                                        == Err::<ConfigModel, DiagModel>(d@));
                                }
                                return Err(d);
                            },
                        }
                        i = i + 1;
                        assert(spec_apply_not_zeroable(*ds, pre, nested@, i - 1)
                            == spec_apply_not_zeroable(*ds, this@, nested@, i as int));
                    }
                    Ok(())
                } else {
                    Err(spanned_err(name, "Unrecognized attribute"))
                }
            },
            NestedMeta::Word(word) => {
                if eq_str(word, "debug_print") {
                    this.debug_print = true;
                    Ok(())
                } else if eq_str(word, "nonzero_fields") {
                    this.default_zeroab = IsZeroable::No;
                    if this.zeroable_fields.len() == 0 {
                        return Err(
                            spanned_err(
                                word,
                                "Cannot use the `#[zero(nonzero_fields)]` attribute on a struct/enum",
                            ),
                        );
                    }
                    let n = this.zeroable_fields.len();
                    this.zeroable_fields = vec![IsZeroable::No; n];
                    assert(this.zeroable_fields@ =~= Seq::new(
                        old(this)@.zeroable_fields.len(),
                        |i: int| IsZeroable::No,
                    ));
                    Ok(())
                } else {
                    Err(spanned_err(word, "Unrecognized attribute"))
                }
            },
            m => {
                let site = meta_site_text(m);
                Err(spanned_err(&site, "Unrecognized attribute"))
            },
        },
        ParseContext::Field { pos } => match attr {
            NestedMeta::Word(word) => {
                let is_zeroable = eq_str(word, "zeroable");
                if is_zeroable || eq_str(word, "nonzero") {
                    if pos < this.zeroable_fields.len() {
                        this.zeroable_fields.set(pos, IsZeroable::new(is_zeroable));
                        Ok(())
                    } else {
                        let mut msg = "Cannot use the `#[zero(".to_owned();
                        msg.append(word.as_str());
                        msg.append(")]` attribute on a struct/enum field ");
                        Err(Diagnostic { site: word.clone(), message: msg })
                    }
                } else {
                    Err(spanned_err(word, "Unrecognized attribute"))
                }
            },
            m => {
                let site = meta_site_text(m);
                Err(spanned_err(&site, "Unrecognized attribute"))
            },
        },
        ParseContext::Variant => {
            let site = meta_site_text(attr);
            Err(spanned_err(&site, "Unrecognized attribute"))
        },
    }
}

/// Applies one whole attribute to the configuration.
#[verifier::loop_isolation(false)]
fn parse_attr_list(
    this: &mut ZeroConfig,
    ds: &DataStructure,
    attr: &Attr,
    pctx: ParseContext,
) -> (r: Result<(), Diagnostic>)
    requires
        old(this).unbounded_typarams@.len() == ds.type_params@.len(),
    ensures
        ({
            let t = spec_parse_attr(*ds, old(this)@, *attr, pctx);
            match r {
                Ok(_) => t == Ok::<ConfigModel, DiagModel>(final(this)@) && final(this).unbounded_typarams@.len() == ds.type_params@.len(),
                Err(e) => t == Err::<ConfigModel, DiagModel>(e@),
            }
        }),
{
    match &attr.args {
        Some(metas) => {
            if eq_str(&attr.name, "zero") {
                let n = metas.len();
                let mut i: usize = 0;
                while i < n
                    invariant
                        n == metas@.len(),
                        i <= n,
                        this.unbounded_typarams@.len() == ds.type_params@.len(),
                        spec_parse_zero_metas(*ds, old(this)@, metas@, 0, pctx)
                            == spec_parse_zero_metas(*ds, this@, metas@, i as int, pctx),
                    decreases n - i,
                {
                    let ghost pre = this@;
                    match parse_sabi_attr(this, ds, pctx, &metas[i]) {
                        Ok(_) => {},
                        Err(e) => {
                            proof {
                                assert(spec_parse_zero_metas(*ds, pre, metas@, i as int, pctx)
                                    == Err::<ConfigModel, DiagModel>(e@));
                            }
                            return Err(e);
                        },
                    }
                    i = i + 1;
                    assert(spec_parse_zero_metas(*ds, pre, metas@, i - 1, pctx)
                        == spec_parse_zero_metas(*ds, this@, metas@, i as int, pctx));
                }
                Ok(())
            } else if eq_str(&attr.name, "repr") && pctx == ParseContext::TypeAttr {
                match ReprAttr::new(metas) {
                    Ok(ra) => {
                        this.repr_attr = ra;
                        Ok(())
                    },
                    Err(e) => Err(e),
                }
            } else {
                Ok(())
            }
        },
        None => Ok(()),
    }
}

/// Applies a whole attribute list to the configuration.
#[verifier::loop_isolation(false)]
fn parse_inner(
    this: &mut ZeroConfig,
    ds: &DataStructure,
    attrs: &Vec<Attr>,
    pctx: ParseContext,
) -> (r: Result<(), Diagnostic>)
    requires
        old(this).unbounded_typarams@.len() == ds.type_params@.len(),
    ensures
        ({
            let t = spec_parse_attrs(*ds, old(this)@, attrs@, 0, pctx);
            match r {
                Ok(_) => t == Ok::<ConfigModel, DiagModel>(final(this)@) && final(this).unbounded_typarams@.len() == ds.type_params@.len(),
                Err(e) => t == Err::<ConfigModel, DiagModel>(e@),
            }
        }),
{
    let n = attrs.len();
    let mut i: usize = 0;
    while i < n
        invariant
            n == attrs@.len(),
            i <= n,
            this.unbounded_typarams@.len() == ds.type_params@.len(),
            spec_parse_attrs(*ds, old(this)@, attrs@, 0, pctx) == spec_parse_attrs(
                *ds,
                this@,
                attrs@,
                i as int,
                pctx,
            ),
        decreases n - i,
    {
        let ghost pre = this@;
        match parse_attr_list(this, ds, &attrs[i], pctx) {
            Ok(_) => {},
            Err(e) => {
                proof {
                    assert(spec_parse_attrs(*ds, pre, attrs@, i as int, pctx)
                        == Err::<ConfigModel, DiagModel>(e@));
                }
                return Err(e);
            },
        }
        i = i + 1;
        assert(spec_parse_attrs(*ds, pre, attrs@, i - 1, pctx) == spec_parse_attrs(
            *ds,
            this@,
            attrs@,
            i as int,
            pctx,
        ));
    }
    Ok(())
}

/// Applies the attribute lists of the fields of variant `v`.
#[verifier::loop_isolation(false)]
fn parse_fields(this: &mut ZeroConfig, ds: &DataStructure, v: usize) -> (r: Result<(), Diagnostic>)
    requires
        old(this).unbounded_typarams@.len() == ds.type_params@.len(),
        v < ds.variants@.len(),
    ensures
        ({
            let t = spec_parse_fields(*ds, old(this)@, v as int, 0);
            match r {
                Ok(_) => t == Ok::<ConfigModel, DiagModel>(final(this)@) && final(this).unbounded_typarams@.len() == ds.type_params@.len(),
                Err(e) => t == Err::<ConfigModel, DiagModel>(e@),
            }
        }),
{
    let n = ds.variants[v].fields.len();
    let mut f: usize = 0;
    while f < n
        invariant
            v < ds.variants@.len(),
            n == ds.variants@[v as int].fields@.len(),
            f <= n,
            this.unbounded_typarams@.len() == ds.type_params@.len(),
            spec_parse_fields(*ds, old(this)@, v as int, 0) == spec_parse_fields(
                *ds,
                this@,
                v as int,
                f as int,
            ),
        decreases n - f,
    {
        let ghost pre = this@;
        let pos = ds.variants[v].fields[f].index.pos;
        match parse_inner(this, ds, &ds.variants[v].fields[f].attrs, ParseContext::Field { pos }) {
            Ok(_) => {},
            Err(e) => {
                proof {
                    assert(spec_parse_fields(*ds, pre, v as int, f as int)
                        == Err::<ConfigModel, DiagModel>(e@));
                }
                return Err(e);
            },
        }
        f = f + 1;
        assert(spec_parse_fields(*ds, pre, v as int, f - 1) == spec_parse_fields(
            *ds,
            this@,
            v as int,
            f as int,
        ));
    }
    Ok(())
}

/// Applies the attribute lists of every variant and its fields.
#[verifier::loop_isolation(false)]
fn parse_variants(this: &mut ZeroConfig, ds: &DataStructure) -> (r: Result<(), Diagnostic>)
    requires
        old(this).unbounded_typarams@.len() == ds.type_params@.len(),
    ensures
        ({
            let t = spec_parse_variants(*ds, old(this)@, 0);
            match r {
                Ok(_) => t == Ok::<ConfigModel, DiagModel>(final(this)@) && final(this).unbounded_typarams@.len() == ds.type_params@.len(),
                Err(e) => t == Err::<ConfigModel, DiagModel>(e@),
            }
        }),
{
    let n = ds.variants.len();
    let mut v: usize = 0;
    while v < n
        invariant
            n == ds.variants@.len(),
            v <= n,
            this.unbounded_typarams@.len() == ds.type_params@.len(),
            spec_parse_variants(*ds, old(this)@, 0) == spec_parse_variants(*ds, this@, v as int),
        decreases n - v,
    {
        let ghost pre = this@;
        match parse_inner(this, ds, &ds.variants[v].attrs, ParseContext::Variant) {
            Ok(_) => {},
            Err(e) => {
                proof {
                    assert(spec_parse_variants(*ds, pre, v as int)
                        == Err::<ConfigModel, DiagModel>(e@));
                }
                return Err(e);
            },
        }
        match parse_fields(this, ds, v) {
            Ok(_) => {},
            Err(e) => {
                proof {
                    assert(spec_parse_variants(*ds, pre, v as int)
                        == Err::<ConfigModel, DiagModel>(e@));
                }
                return Err(e);
            },
        }
        v = v + 1;
        assert(spec_parse_variants(*ds, pre, v - 1) == spec_parse_variants(*ds, this@, v as int));
    }
    Ok(())
}

/// Walks all annotations of the declaration, in order, and accumulates the
/// derivation configuration, or fails with the first diagnostic.
pub fn parse_attrs_for_zeroed(ds: &DataStructure) -> (r: Result<ZeroConfig, Diagnostic>)
    requires
        ds.wf(),
    ensures
        lift_v(r) == spec_parse_attrs_for_zeroed(*ds),
{
    let typaram_count = ds.type_params.len();
    let zeroable_fields: Vec<IsZeroable> = match ds.data_variant {
        DataVariant::Union => {
            let nf = ds.variants[0].fields.len();
            vec![IsZeroable::Yes; nf]
        },
        _ => Vec::new(),
    };
    let mut this = ZeroConfig {
        extra_predicates: Vec::new(),
        unbounded_typarams: vec![IsBounded::Yes; typaram_count],
        test_code: Vec::new(),
        debug_print: false,
        zeroable_fields,
        default_zeroab: IsZeroable::Yes,
        repr_attr: ReprAttr::Rust,
    };
    assert(this@ =~= spec_init_config(*ds)) by {
        assert(this.extra_predicates.deep_view() =~= Seq::<Seq<char>>::empty());
        assert(this.test_code.deep_view() =~= Seq::<Seq<char>>::empty());
        assert(this.unbounded_typarams@ =~= Seq::new(
            ds.type_params@.len(),
            |i: int| IsBounded::Yes,
        ));
        if ds.data_variant == DataVariant::Union {
            assert(this.zeroable_fields@ =~= Seq::new(
                ds.variants@[0].fields@.len(),
                |i: int| IsZeroable::Yes,
            ));
        } else {
            assert(this.zeroable_fields@ =~= Seq::<IsZeroable>::empty());
        }
    }
    match parse_inner(&mut this, ds, &ds.attrs, ParseContext::TypeAttr) {
        Ok(_) => {},
        Err(e) => {
            return Err(e);
        },
    }
    match parse_variants(&mut this, ds) {
        Ok(_) => {},
        Err(e) => {
            return Err(e);
        },
    }
    Ok(this)
}

} // verus!
