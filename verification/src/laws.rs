//! The engine's general laws, stated and proved over the same spec
//! functions that the executable functions' contracts use.

use vstd::prelude::*;

use crate::attribute_parsing::ConfigModel;
use crate::attribute_parsing::IsBounded;
use crate::attribute_parsing::IsZeroable;
use crate::attribute_parsing::spec_parse_attrs_for_zeroed;
use crate::datastructure::DataStructure;
use crate::datastructure::DataVariant;
use crate::datastructure::Struct;
use crate::datastructure::disc_is_zero;
use crate::diagnostic::DiagModel;
use crate::repr_attr::ReprAttr;
use crate::zeroable_macro::DerivedModel;
use crate::zeroable_macro::enum_discr_err_msg;
use crate::zeroable_macro::spec_bounded_params;
use crate::zeroable_macro::spec_derive;
use crate::zeroable_macro::spec_field_tys;
use crate::zeroable_macro::spec_find_zero_variant;
use crate::zeroable_macro::spec_obligations;
use crate::zeroable_macro::spec_render;
use crate::zeroable_macro::spec_union_obligated;
use crate::zeroable_macro::spec_union_obligations;
use crate::zeroable_macro::spec_variant_disc_zero;
use crate::zeroable_macro::spec_zero_variant;
use crate::zeroable_macro::zero_fields_union_err_msg;
use crate::zeroable_macro::zero_variant_enum_err_msg;

verus! {

/// Derivation is deterministic: identical declarations yield identical
/// results, and on success, textually identical rendered fragments.
pub proof fn lemma_derive_deterministic(d1: DataStructure, d2: DataStructure)
    requires
        d1 == d2,
    ensures
        spec_derive(d1) == spec_derive(d2),
        spec_derive(d1) matches Ok(m1) ==> spec_derive(d2) matches Ok(m2) && spec_render(m1)
            == spec_render(m2),
{
}

proof fn lemma_bounded_all_yes(params: Seq<String>, flags: Seq<IsBounded>, i: int)
    requires
        0 <= i <= params.len(),
        forall|k: int| 0 <= k < flags.len() ==> flags[k] == IsBounded::Yes,
    ensures
        spec_bounded_params(params, flags, i) =~= Seq::new(
            (params.len() - i) as nat,
            |k: int| params[i + k]@,
        ),
    decreases params.len() - i,
{
    if i < params.len() {
        lemma_bounded_all_yes(params, flags, i + 1);
    }
}

/// Record totality: for a record whose annotations parse, and without the
/// debug-dump flag, derivation succeeds, every field of the single variant
/// is obligated in order, and with no exemptions the granted capability is
/// conditioned on nothing beyond the per-parameter bounds: every declared
/// type parameter is bounded.
pub proof fn lemma_record_totality(ds: DataStructure, cm: ConfigModel)
    requires
        ds.wf(),
        ds.data_variant == DataVariant::Struct,
        spec_parse_attrs_for_zeroed(ds) == Ok::<ConfigModel, DiagModel>(cm),
        !cm.debug_print,
    ensures
        spec_derive(ds) matches Ok(dm) && dm.obligations == spec_field_tys(
            ds.variants@[0].fields@,
        ),
        (forall|k: int|
            0 <= k < cm.unbounded_typarams.len() ==> cm.unbounded_typarams[k] == IsBounded::Yes)
            ==> (spec_derive(ds) matches Ok(dm) && dm.bounded_params
            == ds.type_params.deep_view()),
{
    if forall|k: int|
        0 <= k < cm.unbounded_typarams.len() ==> cm.unbounded_typarams[k] == IsBounded::Yes {
        lemma_bounded_all_yes(ds.type_params@, cm.unbounded_typarams, 0);
        assert(spec_bounded_params(ds.type_params@, cm.unbounded_typarams, 0)
            =~= ds.type_params.deep_view());
    }
}

proof fn lemma_find_zero_variant_least(variants: Seq<Struct>, j: int)
    requires
        0 <= j,
    ensures
        match spec_find_zero_variant(variants, j) {
            Some(k) => j <= k < variants.len() && spec_variant_disc_zero(variants[k]) && (forall|
                m: int,
            |
                j <= m < k ==> !spec_variant_disc_zero(variants[m])),
            None => forall|m: int| j <= m < variants.len() ==> !spec_variant_disc_zero(variants[m]),
        },
    decreases variants.len() - j,
{
    if j < variants.len() && !spec_variant_disc_zero(variants[j]) {
        lemma_find_zero_variant_least(variants, j + 1);
    }
}

/// Zero-case selection for a tagged union under a `C`/integer layout with
/// at least one case: if case 0's discriminant is implicit or literal zero,
/// the zero case is case 0; otherwise the zero case is the first later case
/// with an explicit literal-zero discriminant; and when no case qualifies,
/// selection fails with the discriminant diagnostic.
pub proof fn lemma_zero_case_selection(ds: DataStructure, repr: ReprAttr)
    requires
        ds.variants@.len() >= 1,
        (repr matches ReprAttr::C { .. }) || repr == ReprAttr::IntegerRepr,
    ensures
        (match ds.variants@[0].discriminant {
            None => true,
            Some(d) => disc_is_zero(d),
        }) ==> spec_zero_variant(ds, repr) == Ok::<int, DiagModel>(0),
        spec_zero_variant(ds, repr) matches Ok(j) ==> 0 <= j < ds.variants@.len(),
        !(match ds.variants@[0].discriminant {
            None => true,
            Some(d) => disc_is_zero(d),
        }) ==> match spec_zero_variant(ds, repr) {
            Ok(j) => 1 <= j < ds.variants@.len() && spec_variant_disc_zero(ds.variants@[j]) && (
            forall|m: int| 1 <= m < j ==> !spec_variant_disc_zero(ds.variants@[m])),
            Err(e) => e == (DiagModel { site: ds.name@, message: enum_discr_err_msg() }) && (forall|
                m: int,
            |
                1 <= m < ds.variants@.len() ==> !spec_variant_disc_zero(ds.variants@[m])),
        },
{
    lemma_find_zero_variant_least(ds.variants@, 1);
}

/// Transparent shortcut: under the transparent layout, a tagged union's
/// zero case is case 0 and its obligations are exactly case 0's field
/// types; an untagged union with at least one field obligates exactly its
/// field 0, whatever the per-field annotations say.
pub proof fn lemma_transparent_shortcut(ds: DataStructure, cm: ConfigModel)
    requires
        cm.repr_attr == ReprAttr::Transparent,
        ds.variants@.len() >= 1,
    ensures
        ds.data_variant == DataVariant::Enum ==> spec_zero_variant(ds, cm.repr_attr) == Ok::<
            int,
            DiagModel,
        >(0),
        ds.data_variant == DataVariant::Enum ==> spec_obligations(ds, cm) == Ok::<
            Seq<Seq<char>>,
            DiagModel,
        >(spec_field_tys(ds.variants@[0].fields@)),
        ds.data_variant == DataVariant::Union && ds.variants@[0].fields@.len() >= 1
            ==> spec_obligations(ds, cm) == Ok::<Seq<Seq<char>>, DiagModel>(
            seq![ds.variants@[0].fields@[0].ty@],
        ),
{
}

proof fn lemma_bounded_params_membership(params: Seq<String>, flags: Seq<IsBounded>, k: int)
    requires
        0 <= k <= params.len(),
        forall|i: int, j: int| 0 <= i < j < params.len() ==> params[i]@ != params[j]@,
    ensures
        forall|i: int|
            k <= i < params.len() ==> (spec_bounded_params(params, flags, k).contains(params[i]@)
                <==> !(i < flags.len() && flags[i] == IsBounded::No)),
        forall|x: Seq<char>|
            spec_bounded_params(params, flags, k).contains(x) ==> exists|i: int|
                k <= i < params.len() && params[i]@ == x,
    decreases params.len() - k,
{
    if k >= params.len() {
    } else {
        lemma_bounded_params_membership(params, flags, k + 1);
        let rest = spec_bounded_params(params, flags, k + 1);
        let whole = spec_bounded_params(params, flags, k);
        if k < flags.len() && flags[k] == IsBounded::No {
            assert(whole == rest);
            assert forall|i: int|
                k <= i < params.len() implies (whole.contains(params[i]@) <==> !(i < flags.len()
                && flags[i] == IsBounded::No)) by {
                if i == k {
                    if whole.contains(params[k]@) {
                        let w = choose|w: int| k + 1 <= w < params.len() && params[w]@ == params[k]@;
                        assert(params[k]@ != params[w]@);
                    }
                }
            }
        } else {
            assert(whole == seq![params[k]@] + rest);
            assert forall|x: Seq<char>| rest.contains(x) implies whole.contains(x) by {
                let w = choose|w: int| 0 <= w < rest.len() && rest[w] == x;
                assert(whole[w + 1] == x);
            }
            assert(whole[0] == params[k]@);
            assert(whole.contains(params[k]@));
            assert forall|x: Seq<char>| whole.contains(x) implies (x == params[k]@
                || rest.contains(x)) by {
                let w = choose|w: int| 0 <= w < whole.len() && whole[w] == x;
                if w > 0 {
                    assert(rest[w - 1] == x);
                }
            }
            assert forall|i: int|
                k <= i < params.len() implies (whole.contains(params[i]@) <==> !(i < flags.len()
                && flags[i] == IsBounded::No)) by {
                if i > k && whole.contains(params[i]@) && (i < flags.len() && flags[i]
                    == IsBounded::No) {
                    assert(params[i]@ != params[k]@);
                }
            }
        }
    }
}

/// Exemption propagation: with pairwise-distinct type parameter names, a
/// parameter flagged as exempt never appears among the bounded parameters,
/// and every other declared parameter does.
pub proof fn lemma_exemption_propagation(params: Seq<String>, flags: Seq<IsBounded>)
    requires
        forall|i: int, j: int| 0 <= i < j < params.len() ==> params[i]@ != params[j]@,
    ensures
        forall|i: int|
            0 <= i < params.len() && i < flags.len() && flags[i] == IsBounded::No
                ==> !spec_bounded_params(params, flags, 0).contains(params[i]@),
        forall|i: int|
            0 <= i < params.len() && !(i < flags.len() && flags[i] == IsBounded::No)
                ==> spec_bounded_params(params, flags, 0).contains(params[i]@),
{
    lemma_bounded_params_membership(params, flags, 0);
}

proof fn lemma_union_obligated_all_yes(
    fields: Seq<crate::datastructure::MyField>,
    flags: Seq<IsZeroable>,
    i: int,
)
    requires
        0 <= i <= fields.len(),
        flags.len() == fields.len(),
        forall|k: int| 0 <= k < flags.len() ==> flags[k] == IsZeroable::Yes,
    ensures
        spec_union_obligated(fields, flags, i) =~= Seq::new(
            (fields.len() - i) as nat,
            |k: int| fields[i + k].ty@,
        ),
    decreases fields.len() - i,
{
    if i < fields.len() {
        lemma_union_obligated_all_yes(fields, flags, i + 1);
    }
}

/// Untagged-union default: with every per-field flag at the default
/// (required) and no transparent layout, every field of the union is
/// obligated, in order.
pub proof fn lemma_union_default(ds: DataStructure, cm: ConfigModel)
    requires
        ds.wf(),
        ds.data_variant == DataVariant::Union,
        cm.repr_attr != ReprAttr::Transparent,
        ds.variants@[0].fields@.len() >= 1,
        cm.zeroable_fields.len() == ds.variants@[0].fields@.len(),
        forall|k: int| 0 <= k < cm.zeroable_fields.len() ==> cm.zeroable_fields[k] == IsZeroable::Yes,
    ensures
        spec_union_obligations(ds, cm) == Ok::<Seq<Seq<char>>, DiagModel>(
            spec_field_tys(ds.variants@[0].fields@),
        ),
{
    lemma_union_obligated_all_yes(ds.variants@[0].fields@, cm.zeroable_fields, 0);
    assert(spec_union_obligated(ds.variants@[0].fields@, cm.zeroable_fields, 0)
        =~= spec_field_tys(ds.variants@[0].fields@));
}

/// Fieldless-union rejection: an untagged union with no fields, whose
/// annotations parse, always fails with the fieldless-union diagnostic,
/// whatever the layout, the flags, or the debug-dump setting.
pub proof fn lemma_fieldless_union_rejection(ds: DataStructure, cm: ConfigModel)
    requires
        ds.wf(),
        ds.data_variant == DataVariant::Union,
        ds.variants@[0].fields@.len() == 0,
        spec_parse_attrs_for_zeroed(ds) == Ok::<ConfigModel, DiagModel>(cm),
    ensures
        spec_derive(ds) == Err::<DerivedModel, DiagModel>(
            (DiagModel { site: ds.name@, message: zero_fields_union_err_msg() }),
        ),
{
}

/// Case-less tagged-union rejection: a tagged union with no cases, whose
/// annotations parse, always fails with the case-less diagnostic,
/// independent of any layout annotation.
pub proof fn lemma_caseless_enum_rejection(ds: DataStructure, cm: ConfigModel)
    requires
        ds.data_variant == DataVariant::Enum,
        ds.variants@.len() == 0,
        spec_parse_attrs_for_zeroed(ds) == Ok::<ConfigModel, DiagModel>(cm),
    ensures
        spec_derive(ds) == Err::<DerivedModel, DiagModel>(
            (DiagModel { site: ds.name@, message: zero_variant_enum_err_msg() }),
        ),
{
}

} // verus!
