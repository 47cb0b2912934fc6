//! The uniform shape model of a type declaration.
//!
//! A record, a tagged union (enum) or an untagged union is normalized into a
//! [`DataStructure`]: a named type with an ordered list of variants, each
//! holding an ordered list of fields.  A record or untagged union always has
//! exactly one implicit variant.  Annotations are carried as plain token
//! trees ([`Attr`] and [`NestedMeta`]) and discriminants as base-ten integer
//! literals or an opaque marker.

use vstd::prelude::*;

use crate::strutil::dec_digits;
use crate::strutil::eq_str;
use crate::strutil::usize_to_dec;
use vstd::string::StringExecFns;

verus! {

/// Whether the declaration is a record, a tagged union, or an untagged union.
#[derive(Clone, Copy, PartialEq, Eq, Structural, Debug)]
pub enum DataVariant {
    Struct,
    Enum,
    Union,
}

/// The positional identity of a field: variant index and position within it.
#[derive(Clone, Copy, PartialEq, Eq, Structural, Debug)]
pub struct FieldIndex {
    pub variant: usize,
    pub pos: usize,
}

/// One token inside a list-style annotation such as `zero(...)` or `repr(...)`.
pub enum NestedMeta {
    /// A bare identifier, e.g. `transparent` or `debug_print`.
    Word(String),
    /// A path that is not a single identifier; the text is kept for diagnostics.
    PathOther(String),
    /// A nested list, e.g. `not_zeroable(T, U)` or `align(4)`.
    List { name: String, nested: Vec<NestedMeta> },
    /// A `name = "text"` pair whose value is a string literal.
    NameValueStr { name: String, value: String },
    /// Any other token (a bare literal, or a `name = <non-string>` pair).
    Other,
}

/// One attribute on a container, variant or field.  Only list-style
/// attributes (`#[name(...)]`) carry arguments; every other style is
/// ignored by the annotation parser.
pub struct Attr {
    pub name: String,
    pub args: Option<Vec<NestedMeta>>,
}

/// An explicit discriminant expression of a tagged-union case.  Zero
/// detection only recognizes base-ten integer literals; any other
/// expression shape is opaque and counts as non-zero.
pub enum Discriminant {
    IntLit(String),
    Other,
}

/// True exactly when the discriminant is the literal integer zero.
pub open spec fn disc_is_zero(d: Discriminant) -> bool {
    d matches Discriminant::IntLit(s) && s@ == "0"@
}

impl Discriminant {
    /// Whether this discriminant is the literal integer zero.
    pub fn is_zero(&self) -> (r: bool)
        ensures
            r == disc_is_zero(*self),
    {
        match self {
            Discriminant::IntLit(s) => eq_str(s, "0"),
            Discriminant::Other => false,
        }
    }
}

/// A field's identifier: a name, or its position for tuple fields.
pub enum FieldIdent {
    Index(usize),
    Named(String),
}

/// The text of a field identifier; tuple fields render as `field_<pos>`.
pub open spec fn field_ident_text(id: FieldIdent) -> Seq<char> {
    match id {
        FieldIdent::Named(n) => n@,
        FieldIdent::Index(i) => "field_"@ + dec_digits(i as nat),
    }
}

/// A normalized field.
pub struct MyField {
    pub index: FieldIndex,
    pub attrs: Vec<Attr>,
    pub is_public: bool,
    pub ident: FieldIdent,
    pub ty: String,
}

impl MyField {
    /// The identifier of this field as text.
    pub fn ident(&self) -> (s: String)
        ensures
            s@ == field_ident_text(self.ident),
    {
        match &self.ident {
            FieldIdent::Named(n) => n.clone(),
            FieldIdent::Index(i) => {
                let mut s = "field_".to_owned();
                s.append(usize_to_dec(*i).as_str());
                s
            },
        }
    }

    /// Whether the field is public.
    pub fn is_public(&self) -> (r: bool)
        ensures
            r == self.is_public,
    {
        self.is_public
    }
}

/// A variant of a tagged union, or the single implicit variant of a record
/// or untagged union.
pub struct Struct {
    pub attrs: Vec<Attr>,
    pub name: String,
    pub fields: Vec<MyField>,
    pub discriminant: Option<Discriminant>,
}

/// A normalized type declaration.
pub struct DataStructure {
    pub name: String,
    pub is_public: bool,
    /// The names of the declared type parameters, in order.  Lifetime and
    /// const parameters are not type parameters and do not appear here.
    pub type_params: Vec<String>,
    pub attrs: Vec<Attr>,
    pub data_variant: DataVariant,
    pub variants: Vec<Struct>,
}

/// A field as declared in the source construct, before normalization.
pub struct FieldDecl {
    pub name: Option<String>,
    pub is_public: bool,
    pub attrs: Vec<Attr>,
    pub ty: String,
}

/// A tagged-union case as declared in the source construct.
pub struct VariantDecl {
    pub name: String,
    pub attrs: Vec<Attr>,
    pub discriminant: Option<Discriminant>,
    pub fields: Vec<FieldDecl>,
}

/// The normalized form of one declared field.  Fields of a tagged-union
/// case inherit the container's visibility (`override_vis`); fields of a
/// record or untagged union keep their own.
pub open spec fn spec_field(
    d: FieldDecl,
    variant: usize,
    pos: int,
    override_vis: Option<bool>,
) -> MyField {
    (MyField {
        index: (FieldIndex { variant, pos: pos as usize }),
        attrs: d.attrs,
        is_public: match override_vis {
            Some(v) => v,
            None => d.is_public,
        },
        ident: match d.name {
            Some(n) => FieldIdent::Named(n),
            None => FieldIdent::Index(pos as usize),
        },
        ty: d.ty,
    })
}

/// The normalized form of an ordered field list.
pub open spec fn spec_fields(
    ds: Seq<FieldDecl>,
    variant: usize,
    override_vis: Option<bool>,
) -> Seq<MyField> {
    Seq::new(ds.len(), |i: int| spec_field(ds[i], variant, i, override_vis))
}

fn normalize_fields(decls: Vec<FieldDecl>, variant: usize, override_vis: Option<bool>) -> (r: Vec<
    MyField,
>)
    ensures
        r@ =~= spec_fields(decls@, variant, override_vis),
{
    let ghost gdecls = decls@;
    let mut out: Vec<MyField> = Vec::new();
    let mut rest = decls;
    let n = rest.len();
    let mut pos: usize = 0;
    // Consume from the front so each declaration is moved, not cloned.
    while pos < n
        invariant
            n == gdecls.len(),
            pos <= n,
            rest@ =~= gdecls.subrange(pos as int, n as int),
            out@ =~= spec_fields(gdecls, variant, override_vis).subrange(0, pos as int),
        decreases n - pos,
    {
        let d = rest.remove(0);
        assert(d == gdecls[pos as int]);
        let ident = match d.name {
            Some(n) => FieldIdent::Named(n),
            None => FieldIdent::Index(pos),
        };
        let is_public = match override_vis {
            Some(v) => v,
            None => d.is_public,
        };
        out.push(
            MyField {
                index: FieldIndex { variant, pos },
                attrs: d.attrs,
                is_public,
                ident,
                ty: d.ty,
            },
        );
        pos = pos + 1;
        assert(out@ =~= spec_fields(gdecls, variant, override_vis).subrange(0, pos as int));
    }
    assert(out@ =~= spec_fields(gdecls, variant, override_vis));
    out
}

impl DataStructure {
    /// Shape invariant: a record or untagged union has exactly one variant.
    pub open spec fn wf(&self) -> bool {
        (self.data_variant == DataVariant::Struct || self.data_variant == DataVariant::Union)
            ==> self.variants@.len() == 1
    }

    /// Whether the declared type is public.
    pub fn is_public(&self) -> (r: bool)
        ensures
            r == self.is_public,
    {
        self.is_public
    }

    /// Normalizes a record: its fields become the single implicit variant.
    pub fn new_struct(
        name: String,
        is_public: bool,
        type_params: Vec<String>,
        attrs: Vec<Attr>,
        fields: Vec<FieldDecl>,
    ) -> (r: DataStructure)
        ensures
            r.name == name,
            r.is_public == is_public,
            r.type_params == type_params,
            r.attrs == attrs,
            r.data_variant == DataVariant::Struct,
            r.variants@.len() == 1,
            r.variants@[0].name == name,
            r.variants@[0].attrs@.len() == 0,
            r.variants@[0].discriminant is None,
            r.variants@[0].fields@ == spec_fields(fields@, 0, None),
            r.wf(),
    {
        Self::single_variant(name, is_public, type_params, attrs, fields, DataVariant::Struct)
    }

    /// Normalizes an untagged union: its fields become the single implicit
    /// variant.
    pub fn new_union(
        name: String,
        is_public: bool,
        type_params: Vec<String>,
        attrs: Vec<Attr>,
        fields: Vec<FieldDecl>,
    ) -> (r: DataStructure)
        ensures
            r.name == name,
            r.is_public == is_public,
            r.type_params == type_params,
            r.attrs == attrs,
            r.data_variant == DataVariant::Union,
            r.variants@.len() == 1,
            r.variants@[0].name == name,
            r.variants@[0].attrs@.len() == 0,
            r.variants@[0].discriminant is None,
            r.variants@[0].fields@ == spec_fields(fields@, 0, None),
            r.wf(),
    {
        Self::single_variant(name, is_public, type_params, attrs, fields, DataVariant::Union)
    }

    fn single_variant(
        name: String,
        is_public: bool,
        type_params: Vec<String>,
        attrs: Vec<Attr>,
        fields: Vec<FieldDecl>,
        data_variant: DataVariant,
    ) -> (r: DataStructure)
        ensures
            r.name == name,
            r.is_public == is_public,
            r.type_params == type_params,
            r.attrs == attrs,
            r.data_variant == data_variant,
            r.variants@.len() == 1,
            r.variants@[0].name == name,
            r.variants@[0].attrs@.len() == 0,
            r.variants@[0].discriminant is None,
            r.variants@[0].fields@ == spec_fields(fields@, 0, None),
    {
        let vname = name.clone();
        let myfields = normalize_fields(fields, 0, None);
        let variant = Struct { attrs: Vec::new(), name: vname, fields: myfields, discriminant: None };
        let mut variants: Vec<Struct> = Vec::new();
        variants.push(variant);
        DataStructure { name, is_public, type_params, attrs, data_variant, variants }
    }

    /// Normalizes a tagged union: one variant per case, in declaration
    /// order.  Case fields inherit the container's visibility.
    pub fn new_enum(
        name: String,
        is_public: bool,
        type_params: Vec<String>,
        attrs: Vec<Attr>,
        cases: Vec<VariantDecl>,
    ) -> (r: DataStructure)
        ensures
            r.name == name,
            r.is_public == is_public,
            r.type_params == type_params,
            r.attrs == attrs,
            r.data_variant == DataVariant::Enum,
            r.variants@.len() == cases@.len(),
            forall|v: int|
                0 <= v < cases@.len() ==> {
                    &&& r.variants@[v].name == cases@[v].name
                    &&& r.variants@[v].attrs == cases@[v].attrs
                    &&& r.variants@[v].discriminant == cases@[v].discriminant
                    &&& r.variants@[v].fields@ == spec_fields(
                        cases@[v].fields@,
                        v as usize,
                        Some(is_public),
                    )
                },
            r.wf(),
    {
        let ghost gcases = cases@;
        let mut variants: Vec<Struct> = Vec::new();
        let mut rest = cases;
        let n = rest.len();
        let mut v: usize = 0;
        while v < n
            invariant
                n == gcases.len(),
                v <= n,
                rest@ =~= gcases.subrange(v as int, n as int),
                variants@.len() == v,
                forall|k: int|
                    0 <= k < v ==> {
                        &&& variants@[k].name == gcases[k].name
                        &&& variants@[k].attrs == gcases[k].attrs
                        &&& variants@[k].discriminant == gcases[k].discriminant
                        &&& variants@[k].fields@ == spec_fields(
                            gcases[k].fields@,
                            k as usize,
                            Some(is_public),
                        )
                    },
            decreases n - v,
        {
            let c = rest.remove(0);
            assert(c == gcases[v as int]);
            let myfields = normalize_fields(c.fields, v, Some(is_public));
            variants.push(
                Struct {
                    attrs: c.attrs,
                    name: c.name,
                    fields: myfields,
                    discriminant: c.discriminant,
                },
            );
            v = v + 1;
        }
        DataStructure { name, is_public, type_params, attrs, data_variant: DataVariant::Enum, variants }
    }
}

} // verus!
