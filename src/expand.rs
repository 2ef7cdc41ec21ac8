//! The two transformations and the dispatch between them.
use vstd::prelude::*;

use crate::naming::{companion_name, seal_name};
use crate::syntax::{
    copy_params, copy_texts, params, texts, Bound, CompanionImpl, CompanionModule, Expansion,
    GenericParam, ImplBlock, ImplExpansion, Item, ParamModel, SealBound, SealError, TraitDecl,
    TraitExpansion, TraitRef,
};

verus! {

/// The only argument the attribute accepts.
pub open spec fn erase_keyword() -> Seq<char> {
    seq!['e', 'r', 'a', 's', 'e']
}

/// The identifier of the marker trait inside a companion module.
pub open spec fn marker_ident() -> Seq<char> {
    seq!['S', 'e', 'a', 'l', 'e', 'd']
}

/// The bound that lets a type parameter stand for an unsized type.
pub open spec fn unsized_bound() -> Seq<char> {
    seq!['?', 'S', 'i', 'z', 'e', 'd']
}

/// The identifiers of the type parameters of a parameter list, in order;
/// lifetimes and const parameters are left out.
pub open spec fn type_param_names(ps: Seq<ParamModel>) -> Seq<Seq<char>>
    decreases ps.len(),
{
    if ps.len() == 0 {
        Seq::empty()
    } else {
        let rest = type_param_names(ps.drop_last());
        match ps.last() {
            ParamModel::Type { name, .. } => rest.push(name),
            _ => rest,
        }
    }
}

/// A parameter of the marker trait in erasure mode: a type parameter loses
/// its bounds and default and accepts unsized types; lifetimes and const
/// parameters stay as they are.
pub open spec fn erased(p: ParamModel) -> ParamModel {
    match p {
        ParamModel::Type { name, .. } => ParamModel::Type {
            name,
            bounds: seq![unsized_bound()],
            default: None,
        },
        _ => p,
    }
}

/// A parameter of a companion impl: only the parameter it introduces, with
/// no bounds and no default; a const parameter keeps its type.
pub open spec fn stripped(p: ParamModel) -> ParamModel {
    match p {
        ParamModel::Lifetime { name, .. } => ParamModel::Lifetime { name, bounds: Seq::empty() },
        ParamModel::Type { name, .. } => ParamModel::Type {
            name,
            bounds: Seq::empty(),
            default: None,
        },
        ParamModel::Const { name, ty, .. } => ParamModel::Const { name, ty, default: None },
    }
}

/// The marker trait's parameters for a trait with parameters `ps`.
pub open spec fn marker_generics(ps: Seq<ParamModel>, erase: bool) -> Seq<ParamModel> {
    if erase {
        ps.map_values(|p: ParamModel| erased(p))
    } else {
        ps
    }
}

/// `b` is the marker supertrait `module::Sealed<T, ...>` over the type
/// parameters of `gs`.
pub open spec fn is_seal_bound(b: Bound, module: Seq<char>, gs: Seq<GenericParam>) -> bool {
    match b {
        Bound::Seal(s) => s.module@ == module && texts(s.args@) == type_param_names(params(gs)),
        Bound::Text(_) => false,
    }
}

/// `e` is what sealing the trait `d` gives, in erasure mode or not.
pub open spec fn sealed_trait(e: TraitExpansion, d: TraitDecl, erase: bool) -> bool {
    &&& e.module.name@ == companion_name(d.ident@)
    &&& params(e.module.generics@) == marker_generics(params(d.generics@), erase)
    &&& e.module.imports_parent == !erase
    &&& e.declaration.ident == d.ident
    &&& e.declaration.generics == d.generics
    &&& e.declaration.supertraits@.len() == d.supertraits@.len() + 1
    &&& e.declaration.supertraits@.drop_last() == d.supertraits@
    &&& is_seal_bound(
        e.declaration.supertraits@.last(),
        companion_name(d.ident@),
        d.generics@,
    )
}

/// `e` is what sealing the impl `b` of the trait `t` gives.
pub open spec fn sealed_impl_of(e: ImplExpansion, b: ImplBlock, t: TraitRef) -> bool {
    &&& params(e.companion.generics@) == params(b.generics@).map_values(
        |p: ParamModel| stripped(p),
    )
    &&& e.companion.path.leading_colon == t.leading_colon
    &&& texts(e.companion.path.prefix@) == texts(t.prefix@).push(companion_name(t.ident@))
    &&& e.companion.path.ident@ == marker_ident()
    &&& e.companion.path.args@ == t.args@
    &&& e.companion.self_ty@ == b.self_ty@
    &&& e.companion.where_clause@ == b.where_clause@
    &&& e.original == b
}

/// `e` is what sealing the impl `b` gives; `b` must name a trait.
pub open spec fn sealed_impl(e: ImplExpansion, b: ImplBlock) -> bool {
    match b.trait_ref {
        Some(t) => sealed_impl_of(e, b, t),
        None => false,
    }
}

/// `r` is the outcome of sealing `item`, in erasure mode or not.
pub open spec fn expanded(r: Result<Expansion, SealError>, item: Item, erase: bool) -> bool {
    match item {
        Item::Trait(d) => match r {
            Ok(Expansion::Trait(e)) => sealed_trait(e, d, erase),
            _ => false,
        },
        Item::Impl(b) => match b.trait_ref {
            Some(_) => match r {
                Ok(Expansion::Impl(e)) => sealed_impl(e, b),
                _ => false,
            },
            None => r matches Err(SealError::MissingTraitReference),
        },
        Item::Other => r matches Err(SealError::UnsupportedItem),
    }
}

/// The identifiers of the type parameters of `gs`, in order.
pub fn type_param_idents(gs: &Vec<GenericParam>) -> (r: Vec<String>)
    ensures
        texts(r@) == type_param_names(params(gs@)),
{
    let mut r: Vec<String> = Vec::new();
    let mut i: usize = 0;
    while i < gs.len()
        invariant
            i <= gs@.len(),
            texts(r@) == type_param_names(params(gs@.subrange(0, i as int))),
        decreases gs@.len() - i,
    {
        let ghost before = r@;
        assert(params(gs@.subrange(0, i + 1)).drop_last() =~= params(gs@.subrange(0, i as int)));
        match &gs[i] {
            GenericParam::Type { name, .. } => {
                r.push(name.clone());
                assert(texts(r@) =~= texts(before).push(name@));
            },
            _ => {},
        }
        i = i + 1;
    }
    assert(gs@.subrange(0, gs@.len() as int) =~= gs@);
    r
}

/// The marker trait's parameter for a trait's parameter in erasure mode.
pub fn erase_param(p: &GenericParam) -> (r: GenericParam)
    ensures
        r@ == erased(p@),
{
    match p {
        GenericParam::Type { name, .. } => {
            let mut bounds: Vec<String> = Vec::new();
            bounds.push(String::from_str("?Sized"));
            proof {
                reveal_strlit("?Sized");
            }
            assert(bounds@[0]@ == unsized_bound());
            assert(texts(bounds@) =~= seq![unsized_bound()]);
            GenericParam::Type { name: name.clone(), bounds, default: None }
        },
        _ => p.duplicate(),
    }
}

/// The companion impl's parameter for a parameter of the impl.
pub fn strip_param(p: &GenericParam) -> (r: GenericParam)
    ensures
        r@ == stripped(p@),
{
    let bounds: Vec<String> = Vec::new();
    assert(texts(bounds@) =~= Seq::empty());
    match p {
        GenericParam::Lifetime { name, .. } => GenericParam::Lifetime {
            name: name.clone(),
            bounds,
        },
        GenericParam::Type { name, .. } => GenericParam::Type {
            name: name.clone(),
            bounds,
            default: None,
        },
        GenericParam::Const { name, ty, .. } => GenericParam::Const {
            name: name.clone(),
            ty: ty.clone(),
            default: None,
        },
    }
}

/// The marker trait's parameters in erasure mode.
pub fn erase_params(gs: &Vec<GenericParam>) -> (r: Vec<GenericParam>)
    ensures
        params(r@) == params(gs@).map_values(|p: ParamModel| erased(p)),
{
    let mut r: Vec<GenericParam> = Vec::new();
    let mut i: usize = 0;
    while i < gs.len()
        invariant
            i <= gs@.len(),
            r@.len() == i,
            forall|j: int| 0 <= j < i ==> (#[trigger] r@[j])@ == erased(gs@[j]@),
        decreases gs@.len() - i,
    {
        r.push(erase_param(&gs[i]));
        i = i + 1;
    }
    assert(params(r@) =~= params(gs@).map_values(|p: ParamModel| erased(p)));
    r
}

/// The companion impl's parameters: those the impl introduces, unbounded.
pub fn strip_params(gs: &Vec<GenericParam>) -> (r: Vec<GenericParam>)
    ensures
        params(r@) == params(gs@).map_values(|p: ParamModel| stripped(p)),
{
    let mut r: Vec<GenericParam> = Vec::new();
    let mut i: usize = 0;
    while i < gs.len()
        invariant
            i <= gs@.len(),
            r@.len() == i,
            forall|j: int| 0 <= j < i ==> (#[trigger] r@[j])@ == stripped(gs@[j]@),
        decreases gs@.len() - i,
    {
        r.push(strip_param(&gs[i]));
        i = i + 1;
    }
    assert(params(r@) =~= params(gs@).map_values(|p: ParamModel| stripped(p)));
    r
}

/// Seals a trait: adds the marker supertrait `seal::Sealed<T, ...>` over
/// the trait's type parameters, and builds the companion module `seal` whose
/// marker trait has the trait's generic parameters (standard mode) or those
/// parameters with every type parameter relaxed to `?Sized` (erasure mode).
pub fn parse_sealed_trait(item_trait: TraitDecl, erase: bool) -> (r: TraitExpansion)
    ensures
        sealed_trait(r, item_trait, erase),
{
    let TraitDecl { ident, generics, mut supertraits } = item_trait;
    let seal = seal_name(ident.as_str());
    let args = type_param_idents(&generics);
    supertraits.push(Bound::Seal(SealBound { module: seal.clone(), args }));
    let marker = if erase {
        erase_params(&generics)
    } else {
        copy_params(&generics)
    };
    let r = TraitExpansion {
        module: CompanionModule { name: seal, generics: marker, imports_parent: !erase },
        declaration: TraitDecl { ident, generics, supertraits },
    };
    assert(r.declaration.supertraits@.drop_last() =~= item_trait.supertraits@);
    r
}

/// Seals an impl of a trait `prefix::Trait<args>`: it is accompanied by an
/// empty impl of `prefix::seal::Sealed<args>` for the same self type, with
/// the impl's own parameters stripped of their bounds and the same where
/// clause. An inherent impl is refused.
pub fn parse_sealed_impl(item_impl: ImplBlock) -> (r: Result<ImplExpansion, SealError>)
    ensures
        match r {
            Ok(e) => sealed_impl(e, item_impl),
            Err(err) => item_impl.trait_ref is None && err is MissingTraitReference,
        },
{
    let companion = match &item_impl.trait_ref {
        None => {
            return Err(SealError::MissingTraitReference);
        },
        Some(t) => {
            let seal = seal_name(t.ident.as_str());
            let mut prefix = copy_texts(&t.prefix);
            let ghost before = prefix@;
            prefix.push(seal);
            assert(texts(prefix@) =~= texts(before).push(companion_name(t.ident@)));
            let marker = String::from_str("Sealed");
            proof {
                reveal_strlit("Sealed");
            }
            assert(marker@ == marker_ident());
            CompanionImpl {
                generics: strip_params(&item_impl.generics),
                path: TraitRef {
                    leading_colon: t.leading_colon,
                    prefix,
                    ident: marker,
                    args: t.args.clone(),
                },
                self_ty: item_impl.self_ty.clone(),
                where_clause: item_impl.where_clause.clone(),
            }
        },
    };
    Ok(ImplExpansion { companion, original: item_impl })
}

/// Routes an item to the transformation of its kind; any other kind of item
/// is refused.
pub fn parse_sealed(item: Item, erase: bool) -> (r: Result<Expansion, SealError>)
    ensures
        expanded(r, item, erase),
{
    match item {
        Item::Impl(item_impl) => match parse_sealed_impl(item_impl) {
            Ok(e) => Ok(Expansion::Impl(e)),
            Err(err) => Err(err),
        },
        Item::Trait(item_trait) => Ok(Expansion::Trait(parse_sealed_trait(item_trait, erase))),
        Item::Other => Err(SealError::UnsupportedItem),
    }
}

/// The attribute's entry point. With no argument the item is sealed in
/// standard mode, with `erase` in erasure mode; any other argument is
/// refused, whatever the item.
pub fn sealed(args: Option<String>, input: Item) -> (r: Result<Expansion, SealError>)
    ensures
        match args {
            Some(a) => if a@ == erase_keyword() {
                expanded(r, input, true)
            } else {
                match r {
                    Err(SealError::InvalidArgument(x)) => x@ == a@,
                    _ => false,
                }
            },
            None => expanded(r, input, false),
        },
{
    match args {
        Some(erased) => {
            let keyword = String::from_str("erase");
            proof {
                reveal_strlit("erase");
            }
            assert(keyword@ == erase_keyword());
            if erased == keyword {
                parse_sealed(input, true)
            } else {
                Err(SealError::InvalidArgument(erased))
            }
        },
        None => parse_sealed(input, false),
    }
}

} // verus!
