//! Engine-level tests: the representation classifier, zero-case selection,
//! union field policies, exemptions, determinism, the rendered fragment,
//! and the generated union documentation.

use zeroable::attribute_parsing::IsZeroable;
use zeroable::attribute_parsing::parse_attrs_for_zeroed;
use zeroable::datastructure::Attr;
use zeroable::datastructure::DataStructure;
use zeroable::datastructure::Discriminant;
use zeroable::datastructure::FieldDecl;
use zeroable::datastructure::NestedMeta;
use zeroable::datastructure::VariantDecl;
use zeroable::repr_attr::ReprAttr;
use zeroable::strutil::usize_to_dec;

fn s(x: &str) -> String {
    x.to_string()
}

fn word(w: &str) -> NestedMeta {
    NestedMeta::Word(s(w))
}

fn list(name: &str, nested: Vec<NestedMeta>) -> NestedMeta {
    NestedMeta::List { name: s(name), nested }
}

fn name_value(name: &str, value: &str) -> NestedMeta {
    NestedMeta::NameValueStr { name: s(name), value: s(value) }
}

fn zero(metas: Vec<NestedMeta>) -> Attr {
    Attr { name: s("zero"), args: Some(metas) }
}

fn repr(words: Vec<&str>) -> Attr {
    Attr { name: s("repr"), args: Some(words.into_iter().map(word).collect()) }
}

fn field(name: Option<&str>, ty: &str, is_public: bool, attrs: Vec<Attr>) -> FieldDecl {
    FieldDecl { name: name.map(s), is_public, attrs, ty: s(ty) }
}

fn variant(name: &str, discriminant: Option<Discriminant>, fields: Vec<FieldDecl>) -> VariantDecl {
    VariantDecl { name: s(name), attrs: vec![], discriminant, fields }
}

fn int_lit(digits: &str) -> Discriminant {
    Discriminant::IntLit(s(digits))
}

#[test]
fn repr_classifier_cases() {
    assert_eq!(ReprAttr::new(&vec![word("C")]).unwrap(), ReprAttr::C { integer_repr: false });
    assert_eq!(
        ReprAttr::new(&vec![word("C"), word("u8")]).unwrap(),
        ReprAttr::C { integer_repr: true }
    );
    assert_eq!(
        ReprAttr::new(&vec![word("usize"), word("C")]).unwrap(),
        ReprAttr::C { integer_repr: true }
    );
    assert_eq!(ReprAttr::new(&vec![word("i128")]).unwrap(), ReprAttr::IntegerRepr);
    assert_eq!(ReprAttr::new(&vec![word("transparent")]).unwrap(), ReprAttr::Transparent);
    assert_eq!(ReprAttr::new(&vec![]).unwrap(), ReprAttr::Rust);
    // `align(..)` is not a layout qualifier and is skipped.
    assert_eq!(ReprAttr::new(&vec![list("align", vec![])]).unwrap(), ReprAttr::Rust);
    // `transparent` combined with `C` resolves to `C`; the host language
    // already rejects the combination on its own.
    assert_eq!(
        ReprAttr::new(&vec![word("transparent"), word("C")]).unwrap(),
        ReprAttr::C { integer_repr: false }
    );
    let e = ReprAttr::new(&vec![word("packed")]).unwrap_err();
    assert_eq!(e.message, s("Unrecognized repr attribute"));
    assert_eq!(e.site, s("packed"));
    let e = ReprAttr::new(&vec![name_value("align", "4")]).unwrap_err();
    assert_eq!(e.message, s("Unrecognized repr attribute"));
}

#[test]
fn repr_recognized_only_on_container() {
    // A `repr(...)` list on a field does not reclassify the layout.
    let ds = DataStructure::new_union(
        s("U"),
        false,
        vec![],
        vec![],
        vec![field(Some("a"), "u8", false, vec![repr(vec!["transparent"])])],
    );
    let config = parse_attrs_for_zeroed(&ds).unwrap();
    assert_eq!(config.repr_attr, ReprAttr::Rust);
}

#[test]
fn zero_case_selection_scan() {
    // Case 0 has discriminant 5 and a later case has an explicit 0: that
    // later case is the zero case, and only its field is obligated.
    let ds = DataStructure::new_enum(
        s("E"),
        false,
        vec![],
        vec![repr(vec!["C"])],
        vec![
            variant("A", Some(int_lit("5")), vec![field(None, "u16", false, vec![])]),
            variant("B", Some(int_lit("1")), vec![field(None, "u8", false, vec![])]),
            variant("Z", Some(int_lit("0")), vec![field(None, "u32", false, vec![])]),
        ],
    );
    let d = zeroable::zeroable_macro::derive(&ds).unwrap();
    assert_eq!(d.obligations, vec![s("u32")]);

    // No case has discriminant 0: the discriminant diagnostic.
    let ds = DataStructure::new_enum(
        s("E"),
        false,
        vec![],
        vec![repr(vec!["C"])],
        vec![
            variant("A", Some(int_lit("5")), vec![]),
            variant("B", Some(int_lit("1")), vec![]),
        ],
    );
    let e = zeroable::zeroable_macro::derive(&ds).unwrap_err();
    assert!(e.message.contains("discriminant"));
    assert_eq!(e.site, s("E"));

    // A non-literal discriminant expression counts as non-zero.
    let ds = DataStructure::new_enum(
        s("E"),
        false,
        vec![],
        vec![repr(vec!["C"])],
        vec![variant("A", Some(Discriminant::Other), vec![])],
    );
    assert!(zeroable::zeroable_macro::derive(&ds).unwrap_err().message.contains("discriminant"));
}

#[test]
fn concrete_u8_enum_scenario() {
    // #[repr(u8)] enum E { A(u16), B(NonZeroU8) }: the zero case is A.
    let ds = DataStructure::new_enum(
        s("E"),
        false,
        vec![],
        vec![repr(vec!["u8"])],
        vec![
            variant("A", None, vec![field(None, "u16", false, vec![])]),
            variant("B", None, vec![field(None, "NonZeroU8", false, vec![])]),
        ],
    );
    assert_eq!(zeroable::zeroable_macro::derive(&ds).unwrap().obligations, vec![s("u16")]);

    // B first with a nonzero discriminant, A second with an explicit 0:
    // the same single obligated type.
    let ds = DataStructure::new_enum(
        s("E"),
        false,
        vec![],
        vec![repr(vec!["u8"])],
        vec![
            variant("B", Some(int_lit("1")), vec![field(None, "NonZeroU8", false, vec![])]),
            variant("A", Some(int_lit("0")), vec![field(None, "u16", false, vec![])]),
        ],
    );
    assert_eq!(zeroable::zeroable_macro::derive(&ds).unwrap().obligations, vec![s("u16")]);
}

#[test]
fn union_default_policy() {
    // With no field annotations every union field is required by default.
    let ds = DataStructure::new_union(
        s("U"),
        false,
        vec![],
        vec![],
        vec![
            field(Some("a"), "u8", false, vec![]),
            field(Some("b"), "SomeType", false, vec![]),
        ],
    );
    assert_eq!(zeroable::zeroable_macro::derive(&ds).unwrap().obligations, vec![s("u8"), s("SomeType")]);

    // Opting one field out leaves only the other obligated.
    let ds = DataStructure::new_union(
        s("U"),
        false,
        vec![],
        vec![],
        vec![
            field(Some("a"), "u8", false, vec![]),
            field(Some("b"), "SomeType", false, vec![zero(vec![word("nonzero")])]),
        ],
    );
    assert_eq!(zeroable::zeroable_macro::derive(&ds).unwrap().obligations, vec![s("u8")]);

    // `nonzero_fields` flips the default to exempt; `zeroable` opts back in.
    let ds = DataStructure::new_union(
        s("U"),
        false,
        vec![],
        vec![zero(vec![word("nonzero_fields")])],
        vec![
            field(Some("a"), "u8", false, vec![]),
            field(Some("b"), "u16", false, vec![zero(vec![word("zeroable")])]),
        ],
    );
    assert_eq!(zeroable::zeroable_macro::derive(&ds).unwrap().obligations, vec![s("u16")]);
}

#[test]
fn transparent_shortcut_cases() {
    // A transparent union obligates exactly field 0, whatever the
    // annotations say.
    let ds = DataStructure::new_union(
        s("W"),
        false,
        vec![],
        vec![repr(vec!["transparent"])],
        vec![field(Some("a"), "u64", false, vec![zero(vec![word("nonzero")])])],
    );
    assert_eq!(zeroable::zeroable_macro::derive(&ds).unwrap().obligations, vec![s("u64")]);

    // A transparent single-case enum obligates that case's field.
    let ds = DataStructure::new_enum(
        s("W"),
        false,
        vec![],
        vec![repr(vec!["transparent"])],
        vec![variant("A", None, vec![field(None, "i32", false, vec![])])],
    );
    assert_eq!(zeroable::zeroable_macro::derive(&ds).unwrap().obligations, vec![s("i32")]);
}

#[test]
fn exemption_propagation_bounds() {
    let ds = DataStructure::new_struct(
        s("S"),
        false,
        vec![s("T"), s("U")],
        vec![zero(vec![list("not_zeroable", vec![word("U")])])],
        vec![field(Some("a"), "T", false, vec![])],
    );
    let d = zeroable::zeroable_macro::derive(&ds).unwrap();
    assert_eq!(d.bounded_params, vec![s("T")]);
    let tokens = d.tokens();
    assert!(tokens.contains("T: Zeroable,"));
    assert!(!tokens.contains("U: Zeroable"));
}

#[test]
fn derivation_is_deterministic() {
    fn model() -> DataStructure {
        DataStructure::new_enum(
            s("E"),
            true,
            vec![s("T")],
            vec![repr(vec!["C", "u8"]), zero(vec![name_value("bound", "T: Copy")])],
            vec![
                variant("A", None, vec![field(None, "T", false, vec![])]),
                variant("B", Some(int_lit("7")), vec![field(None, "u8", false, vec![])]),
            ],
        )
    }
    let first = zeroable::zeroable_macro::derive(&model()).unwrap();
    let second = zeroable::zeroable_macro::derive(&model()).unwrap();
    assert_eq!(first.tokens(), second.tokens());
    assert_eq!(first.obligations, second.obligations);
    assert_eq!(first.bounded_params, second.bounded_params);
}

#[test]
fn tokens_exact_empty_struct() {
    let ds = DataStructure::new_struct(s("Hello"), false, vec![], vec![], vec![]);
    let d = zeroable::zeroable_macro::derive(&ds).unwrap();
    assert_eq!(
        d.tokens(),
        s("impl Hello where { const _ASSERT_IS_ZEROABLE: () = ; } impl Zeroable for Hello where { }")
    );
}

#[test]
fn tokens_exact_generic_struct() {
    let ds = DataStructure::new_struct(
        s("S"),
        false,
        vec![s("T"), s("U")],
        vec![
            zero(vec![list("not_zeroable", vec![word("U")])]),
            zero(vec![name_value("bound", "X: Foo")]),
        ],
        vec![field(Some("a"), "T", false, vec![])],
    );
    let d = zeroable::zeroable_macro::derive(&ds).unwrap();
    assert_eq!(
        d.tokens(),
        s(
            "impl<T, U> S<T, U> where T: Zeroable, X: Foo, { const _ASSERT_IS_ZEROABLE: () = \
             { let _ = <T as GetAssertZeroable>::GET; } ; } impl<T, U> Zeroable for S<T, U> \
             where T: Zeroable, X: Foo, { }"
        )
    );
}

#[test]
fn debug_print_surfaces_fragment() {
    fn model(debug: bool) -> DataStructure {
        let mut attrs = vec![];
        if debug {
            attrs.push(zero(vec![word("debug_print")]));
        }
        DataStructure::new_struct(
            s("Hello"),
            false,
            vec![],
            attrs,
            vec![field(Some("a"), "u8", false, vec![])],
        )
    }
    let plain = zeroable::zeroable_macro::derive(&model(false)).unwrap();
    let e = zeroable::zeroable_macro::derive(&model(true)).unwrap_err();
    assert_eq!(e.site, s("Hello"));
    assert_eq!(e.message, plain.tokens());
}

#[test]
fn docs_for_public_union() {
    let ds = DataStructure::new_union(
        s("U"),
        true,
        vec![],
        vec![],
        vec![
            field(Some("a"), "u8", true, vec![]),
            field(Some("b"), "X", true, vec![zero(vec![word("nonzero")])]),
            field(Some("c"), "u16", false, vec![]),
        ],
    );
    let d = zeroable::zeroable_macro::derive(&ds).unwrap();
    assert_eq!(
        d.docs,
        s(
            "# Private Fields\n\nPrivate fields are omitted in this documentation.\n\n\
             # Zeroable Fields\n\nThese fields can be safely accessed in the return value \
             of `Self::zeroed()`:\n\n- `a: u8` \n\n\
             # NonZero Fields\n\nThese fields may be unsound to access in the return value \
             of `Self::zeroed()`:\n\n- `b: X` \n\n"
        )
    );

    // A private union gets no documentation.
    let ds = DataStructure::new_union(
        s("U"),
        false,
        vec![],
        vec![],
        vec![field(Some("a"), "u8", true, vec![])],
    );
    assert_eq!(zeroable::zeroable_macro::derive(&ds).unwrap().docs, s(""));

    // An all-public, all-required union gets neither the private note nor
    // the nonzero section.
    let ds = DataStructure::new_union(
        s("U"),
        true,
        vec![],
        vec![],
        vec![field(Some("a"), "u8", true, vec![])],
    );
    assert_eq!(
        zeroable::zeroable_macro::derive(&ds).unwrap().docs,
        s(
            "# Zeroable Fields\n\nThese fields can be safely accessed in the return value \
             of `Self::zeroed()`:\n\n- `a: u8` \n\n"
        )
    );
}

#[test]
fn annotation_scope_errors() {
    // An unrecognized word in the container scope.
    let ds = DataStructure::new_struct(
        s("S"),
        false,
        vec![],
        vec![zero(vec![word("frobnicate")])],
        vec![],
    );
    let e = zeroable::zeroable_macro::derive(&ds).unwrap_err();
    assert_eq!(e.message, s("Unrecognized attribute"));
    assert_eq!(e.site, s("frobnicate"));

    // An unrecognized nested list in the container scope.
    let ds = DataStructure::new_struct(
        s("S"),
        false,
        vec![],
        vec![zero(vec![list("bounds", vec![])])],
        vec![],
    );
    assert_eq!(zeroable::zeroable_macro::derive(&ds).unwrap_err().message, s("Unrecognized attribute"));

    // An unrecognized name in a `name = "value"` pair.
    let ds = DataStructure::new_struct(
        s("S"),
        false,
        vec![],
        vec![zero(vec![name_value("bond", "T: Copy")])],
        vec![],
    );
    assert_eq!(zeroable::zeroable_macro::derive(&ds).unwrap_err().message, s("Unrecognized attribute"));

    // A `name = <non-string>` pair is unrecognized in every scope.
    let ds = DataStructure::new_struct(
        s("S"),
        false,
        vec![],
        vec![zero(vec![NestedMeta::Other])],
        vec![],
    );
    assert_eq!(zeroable::zeroable_macro::derive(&ds).unwrap_err().message, s("Unrecognized attribute"));

    // Any `zero(...)` annotation on a tagged-union case is unrecognized.
    let ds = DataStructure::new_enum(
        s("E"),
        false,
        vec![],
        vec![repr(vec!["u8"])],
        vec![VariantDecl {
            name: s("A"),
            attrs: vec![zero(vec![word("zeroable")])],
            discriminant: None,
            fields: vec![],
        }],
    );
    let e = zeroable::zeroable_macro::derive(&ds).unwrap_err();
    assert_eq!(e.message, s("Unrecognized attribute"));
    assert_eq!(e.site, s("zeroable"));

    // A non-identifier inside `not_zeroable(...)`.
    let ds = DataStructure::new_struct(
        s("S"),
        false,
        vec![s("T")],
        vec![zero(vec![list("not_zeroable", vec![list("T", vec![])])])],
        vec![],
    );
    assert_eq!(zeroable::zeroable_macro::derive(&ds).unwrap_err().message, s("Expected identifier for type parameter"));

    let ds = DataStructure::new_struct(
        s("S"),
        false,
        vec![s("T")],
        vec![zero(vec![list("not_zeroable", vec![NestedMeta::PathOther(s("a::b"))])])],
        vec![],
    );
    let e = zeroable::zeroable_macro::derive(&ds).unwrap_err();
    assert_eq!(e.message, s("Expected identifier for type parameter"));
    assert_eq!(e.site, s("a::b"));

    // An exemption naming no declared type parameter.
    let ds = DataStructure::new_struct(
        s("S"),
        false,
        vec![s("T")],
        vec![zero(vec![list("not_zeroable", vec![word("Q")])])],
        vec![],
    );
    let e = zeroable::zeroable_macro::derive(&ds).unwrap_err();
    assert_eq!(e.message, s("Expected a type parameter"));
    assert_eq!(e.site, s("Q"));
}

#[test]
fn enum_requires_layout_annotation() {
    let ds = DataStructure::new_enum(
        s("E"),
        false,
        vec![],
        vec![],
        vec![variant("A", None, vec![])],
    );
    let e = zeroable::zeroable_macro::derive(&ds).unwrap_err();
    assert_eq!(e.message, s("Expected a `#[repr(C/<integer_type>/Transparent)]`enum"));
    assert_eq!(e.site, s("E"));
}

#[test]
fn later_annotations_overwrite_and_append() {
    // Flags overwrite; cumulative lists append in order.
    let ds = DataStructure::new_union(
        s("U"),
        false,
        vec![],
        vec![
            zero(vec![name_value("bound", "A: X")]),
            zero(vec![name_value("bound", "B: Y")]),
        ],
        vec![field(
            Some("a"),
            "u8",
            false,
            vec![zero(vec![word("nonzero")]), zero(vec![word("zeroable")])],
        )],
    );
    let d = zeroable::zeroable_macro::derive(&ds).unwrap();
    assert_eq!(d.extra_predicates, vec![s("A: X"), s("B: Y")]);
    assert_eq!(d.obligations, vec![s("u8")]);
}

#[test]
fn empty_annotation_lists_are_no_ops() {
    // `zero()` with no tokens, a bare attribute, and an unrelated list all
    // leave the defaults untouched.
    let ds = DataStructure::new_struct(
        s("S"),
        false,
        vec![],
        vec![
            zero(vec![]),
            Attr { name: s("inline"), args: None },
            Attr { name: s("derive"), args: Some(vec![word("Debug")]) },
        ],
        vec![field(Some("a"), "u8", false, vec![])],
    );
    let d = zeroable::zeroable_macro::derive(&ds).unwrap();
    assert_eq!(d.obligations, vec![s("u8")]);
    assert_eq!(d.extra_predicates, Vec::<String>::new());
}

#[test]
fn normalizer_shapes() {
    // Tagged-union case fields inherit the container's visibility.
    let ds = DataStructure::new_enum(
        s("E"),
        true,
        vec![],
        vec![repr(vec!["u8"])],
        vec![
            variant("A", None, vec![field(None, "u16", false, vec![])]),
            variant("B", None, vec![field(Some("x"), "u32", false, vec![])]),
        ],
    );
    assert!(ds.is_public());
    assert!(ds.variants[0].fields[0].is_public());
    assert_eq!(ds.variants[0].fields[0].index.variant, 0);
    assert_eq!(ds.variants[0].fields[0].index.pos, 0);
    assert_eq!(ds.variants[1].fields[0].index.variant, 1);
    assert_eq!(ds.variants[1].fields[0].ident(), s("x"));
    assert_eq!(ds.variants[0].fields[0].ident(), s("field_0"));

    // Record fields keep their own visibility.
    let ds = DataStructure::new_struct(
        s("S"),
        true,
        vec![],
        vec![],
        vec![field(Some("a"), "u8", false, vec![])],
    );
    assert!(!ds.variants[0].fields[0].is_public());
}

struct Probe;

impl zeroable::GetAssertZeroable for Probe {
    fn get() -> zeroable::AssertZeroable<Probe> {
        zeroable::AssertZeroable::new()
    }
}

#[test]
fn marker_is_constructible() {
    let a = <Probe as zeroable::GetAssertZeroable>::get();
    let b = a;
    let _c = b.clone();
    let _d = zeroable::AssertZeroable::<u8>::new();
}

#[test]
fn is_zeroable_new() {
    assert_eq!(IsZeroable::new(true), IsZeroable::Yes);
    assert_eq!(IsZeroable::new(false), IsZeroable::No);
}

#[test]
fn decimal_rendering() {
    assert_eq!(usize_to_dec(0), s("0"));
    assert_eq!(usize_to_dec(9), s("9"));
    assert_eq!(usize_to_dec(10), s("10"));
    assert_eq!(usize_to_dec(1234567890), s("1234567890"));
}
