//! Properties that relate the transformations to each other and to their
//! inputs.
use vstd::prelude::*;

use crate::expand::{
    is_seal_bound, marker_ident, sealed_impl, sealed_trait, stripped, unsized_bound,
};
use crate::naming::{companion_name, unraw_spec};
use crate::syntax::{params, texts, Bound, ImplBlock, ImplExpansion, ParamModel, TraitDecl, TraitExpansion};

verus! {

/// The identifier a parameter introduces.
pub open spec fn param_name(p: ParamModel) -> Seq<char> {
    match p {
        ParamModel::Lifetime { name, .. } => name,
        ParamModel::Type { name, .. } => name,
        ParamModel::Const { name, .. } => name,
    }
}

/// The bounds written on a parameter (none for a const parameter).
pub open spec fn param_bounds(p: ParamModel) -> Seq<Seq<char>> {
    match p {
        ParamModel::Lifetime { bounds, .. } => bounds,
        ParamModel::Type { bounds, .. } => bounds,
        ParamModel::Const { .. } => Seq::empty(),
    }
}

/// Two identifiers that are equal once their raw escapes are taken off give
/// the same companion module identifier.
pub proof fn lemma_companion_name_deterministic(t1: Seq<char>, t2: Seq<char>)
    requires
        unraw_spec(t1) == unraw_spec(t2),
    ensures
        companion_name(t1) == companion_name(t2),
{
}

/// Sealing a trait and sealing an impl of it agree on the companion module:
/// the impl's companion names, as the last segment before `Sealed`, the very
/// module that the trait's expansion declares and that its added supertrait
/// refers to.
pub proof fn lemma_trait_and_impl_agree(
    d: TraitDecl,
    erase: bool,
    te: TraitExpansion,
    b: ImplBlock,
    ie: ImplExpansion,
)
    requires
        sealed_trait(te, d, erase),
        sealed_impl(ie, b),
        b.trait_ref is Some,
        unraw_spec(b.trait_ref->0.ident@) == unraw_spec(d.ident@),
    ensures
        texts(ie.companion.path.prefix@).last() == te.module.name@,
        ie.companion.path.ident@ == marker_ident(),
        match te.declaration.supertraits@.last() {
            Bound::Seal(s) => s.module@ == te.module.name@,
            Bound::Text(_) => false,
        },
{
    let t = b.trait_ref->0;
    lemma_companion_name_deterministic(t.ident@, d.ident@);
    assert(is_seal_bound(te.declaration.supertraits@.last(), companion_name(d.ident@), d.generics@));
}

/// The marker trait of a sealed trait has as many parameters as the trait,
/// in the same order. In standard mode they are the trait's parameters
/// exactly. In erasure mode lifetimes and const parameters are kept as they
/// are, and each type parameter keeps its identifier, loses its bounds and
/// default, and is bounded by `?Sized` alone.
pub proof fn lemma_generic_fidelity(d: TraitDecl, erase: bool, e: TraitExpansion)
    requires
        sealed_trait(e, d, erase),
    ensures
        params(e.module.generics@).len() == params(d.generics@).len(),
        !erase ==> params(e.module.generics@) == params(d.generics@),
        erase ==> forall|i: int|
            0 <= i < params(d.generics@).len() ==> match #[trigger] params(d.generics@)[i] {
                ParamModel::Type { name, .. } => params(e.module.generics@)[i] == ParamModel::Type {
                    name,
                    bounds: seq![unsized_bound()],
                    default: None,
                },
                p => params(e.module.generics@)[i] == p,
            },
{
}

/// The companion impl of a sealed impl introduces the same parameters as the
/// impl, in the same order and under the same identifiers, with no bounds.
pub proof fn lemma_impl_bounds_stripped(b: ImplBlock, e: ImplExpansion)
    requires
        sealed_impl(e, b),
    ensures
        params(e.companion.generics@).len() == params(b.generics@).len(),
        forall|i: int|
            0 <= i < params(b.generics@).len() ==> {
                &&& param_name(#[trigger] params(e.companion.generics@)[i]) == param_name(
                    params(b.generics@)[i],
                )
                &&& param_bounds(params(e.companion.generics@)[i]).len() == 0
            },
{
    assert forall|i: int| 0 <= i < params(b.generics@).len() implies {
        &&& param_name(#[trigger] params(e.companion.generics@)[i]) == param_name(
            params(b.generics@)[i],
        )
        &&& param_bounds(params(e.companion.generics@)[i]).len() == 0
    } by {
        assert(params(e.companion.generics@)[i] == stripped(params(b.generics@)[i]));
    }
}

} // verus!
