//! A structured model of the items that the transformation reads and writes.
//!
//! Text that the transformation never looks inside (a bound, a type, a where
//! clause, the body of an item) is held as the source text of its tokens.
use vstd::prelude::*;

verus! {

/// One parameter of a generic parameter list.
pub enum GenericParam {
    /// `'a: 'b + 'c`
    Lifetime { name: String, bounds: Vec<String> },
    /// `T: Bound + Other = Default`
    Type { name: String, bounds: Vec<String>, default: Option<String> },
    /// `const N: usize = 3`
    Const { name: String, ty: String, default: Option<String> },
}

/// The mathematical value of a generic parameter: its texts as character
/// sequences.
pub enum ParamModel {
    Lifetime { name: Seq<char>, bounds: Seq<Seq<char>> },
    Type { name: Seq<char>, bounds: Seq<Seq<char>>, default: Option<Seq<char>> },
    Const { name: Seq<char>, ty: Seq<char>, default: Option<Seq<char>> },
}

/// The character sequences of a list of texts.
pub open spec fn texts(v: Seq<String>) -> Seq<Seq<char>> {
    v.map_values(|s: String| s@)
}

/// The character sequence of an optional text.
pub open spec fn opt_text(o: Option<String>) -> Option<Seq<char>> {
    match o {
        Some(s) => Some(s@),
        None => None,
    }
}

impl View for GenericParam {
    type V = ParamModel;

    open spec fn view(&self) -> ParamModel {
        match self {
            GenericParam::Lifetime { name, bounds } => ParamModel::Lifetime {
                name: name@,
                bounds: texts(bounds@),
            },
            GenericParam::Type { name, bounds, default } => ParamModel::Type {
                name: name@,
                bounds: texts(bounds@),
                default: opt_text(*default),
            },
            GenericParam::Const { name, ty, default } => ParamModel::Const {
                name: name@,
                ty: ty@,
                default: opt_text(*default),
            },
        }
    }
}

/// The models of a generic parameter list.
pub open spec fn params(v: Seq<GenericParam>) -> Seq<ParamModel> {
    v.map_values(|p: GenericParam| p@)
}

/// A copy of a list of texts.
pub fn copy_texts(v: &Vec<String>) -> (r: Vec<String>)
    ensures
        texts(r@) == texts(v@),
{
    let mut r: Vec<String> = Vec::new();
    let mut i: usize = 0;
    while i < v.len()
        invariant
            i <= v@.len(),
            r@.len() == i,
            forall|j: int| 0 <= j < i ==> (#[trigger] r@[j])@ == v@[j]@,
        decreases v@.len() - i,
    {
        r.push(v[i].clone());
        i = i + 1;
    }
    assert(texts(r@) =~= texts(v@));
    r
}

/// A copy of an optional text.
pub fn copy_opt_text(o: &Option<String>) -> (r: Option<String>)
    ensures
        opt_text(r) == opt_text(*o),
{
    match o {
        Some(s) => Some(s.clone()),
        None => None,
    }
}

impl GenericParam {
    /// A parameter with the same model.
    pub fn duplicate(&self) -> (r: GenericParam)
        ensures
            r@ == self@,
    {
        match self {
            GenericParam::Lifetime { name, bounds } => GenericParam::Lifetime {
                name: name.clone(),
                bounds: copy_texts(bounds),
            },
            GenericParam::Type { name, bounds, default } => GenericParam::Type {
                name: name.clone(),
                bounds: copy_texts(bounds),
                default: copy_opt_text(default),
            },
            GenericParam::Const { name, ty, default } => GenericParam::Const {
                name: name.clone(),
                ty: ty.clone(),
                default: copy_opt_text(default),
            },
        }
    }
}

/// A copy of a generic parameter list.
pub fn copy_params(v: &Vec<GenericParam>) -> (r: Vec<GenericParam>)
    ensures
        params(r@) == params(v@),
{
    let mut r: Vec<GenericParam> = Vec::new();
    let mut i: usize = 0;
    while i < v.len()
        invariant
            i <= v@.len(),
            r@.len() == i,
            forall|j: int| 0 <= j < i ==> (#[trigger] r@[j])@ == v@[j]@,
        decreases v@.len() - i,
    {
        r.push(v[i].duplicate());
        i = i + 1;
    }
    assert(params(r@) =~= params(v@));
    r
}

/// The marker supertrait `module::Sealed<args, ...>` that a sealed trait
/// requires; `args` are the trait's type parameter identifiers.
pub struct SealBound {
    pub module: String,
    pub args: Vec<String>,
}

/// One bound of a trait's supertrait list.
pub enum Bound {
    /// A bound written in the source, as its text.
    Text(String),
    /// The marker supertrait added by sealing.
    Seal(SealBound),
}

/// A trait declaration. Its items pass through untouched and are not modelled.
pub struct TraitDecl {
    pub ident: String,
    pub generics: Vec<GenericParam>,
    pub supertraits: Vec<Bound>,
}

/// A path naming a trait: `::prefix::of::Ident<args>`. `args` is the text of
/// the generic arguments on the last segment, empty when there are none.
pub struct TraitRef {
    pub leading_colon: bool,
    pub prefix: Vec<String>,
    pub ident: String,
    pub args: String,
}

/// An implementation block. Its items pass through untouched and are not
/// modelled.
pub struct ImplBlock {
    pub generics: Vec<GenericParam>,
    /// The implemented trait; `None` for an inherent impl.
    pub trait_ref: Option<TraitRef>,
    pub self_ty: String,
    /// The text of the where clause, empty when there is none.
    pub where_clause: String,
}

/// A structured item handed to the transformation.
pub enum Item {
    Trait(TraitDecl),
    Impl(ImplBlock),
    /// Any other kind of item (a function, a struct, ...).
    Other,
}

/// The companion module of a sealed trait, holding the marker trait
/// `Sealed` with the given generic parameters. `imports_parent` tells
/// whether the module brings the enclosing scope's names in (`use super::*`).
pub struct CompanionModule {
    pub name: String,
    pub generics: Vec<GenericParam>,
    pub imports_parent: bool,
}

/// What a sealed trait becomes: its companion module, then the amended
/// declaration.
pub struct TraitExpansion {
    pub module: CompanionModule,
    pub declaration: TraitDecl,
}

/// The empty impl of a marker trait that accompanies a trait impl.
pub struct CompanionImpl {
    pub generics: Vec<GenericParam>,
    pub path: TraitRef,
    pub self_ty: String,
    pub where_clause: String,
}

/// What a sealed impl becomes: the companion impl, then the original block.
pub struct ImplExpansion {
    pub companion: CompanionImpl,
    pub original: ImplBlock,
}

/// The output of the transformation.
pub enum Expansion {
    Trait(TraitExpansion),
    Impl(ImplExpansion),
}

/// Why an invocation was refused.
pub enum SealError {
    /// The argument was an identifier other than `erase`; it carries that
    /// identifier.
    InvalidArgument(String),
    /// The item is neither a trait nor an impl.
    UnsupportedItem,
    /// The impl names no trait.
    MissingTraitReference,
}

} // verus!
