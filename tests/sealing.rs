use sealed::expand::{parse_sealed, parse_sealed_impl, parse_sealed_trait, sealed};
use sealed::naming::{prefix_seal, seal_name, unraw};
use sealed::syntax::{
    Bound, Expansion, GenericParam, ImplBlock, ImplExpansion, Item, SealError, TraitDecl,
    TraitExpansion, TraitRef,
};

fn s(t: &str) -> String {
    String::from(t)
}

fn texts(v: &[&str]) -> Vec<String> {
    v.iter().map(|t| s(t)).collect()
}

fn lifetime(name: &str, bounds: &[&str]) -> GenericParam {
    GenericParam::Lifetime { name: s(name), bounds: texts(bounds) }
}

fn type_param(name: &str, bounds: &[&str]) -> GenericParam {
    GenericParam::Type { name: s(name), bounds: texts(bounds), default: None }
}

fn const_param(name: &str, ty: &str) -> GenericParam {
    GenericParam::Const { name: s(name), ty: s(ty), default: None }
}

/// `trait <ident><'a: 'b, T: Clone, const N: usize>: Send`
fn generic_trait(ident: &str) -> TraitDecl {
    TraitDecl {
        ident: s(ident),
        generics: vec![
            lifetime("'a", &["'b"]),
            type_param("T", &["Clone"]),
            const_param("N", "usize"),
        ],
        supertraits: vec![Bound::Text(s("Send"))],
    }
}

fn trait_impl(prefix: &[&str], ident: &str, args: &str) -> ImplBlock {
    ImplBlock {
        generics: vec![type_param("T", &["Bound"])],
        trait_ref: Some(TraitRef {
            leading_colon: false,
            prefix: texts(prefix),
            ident: s(ident),
            args: s(args),
        }),
        self_ty: s("Wrapper<T>"),
        where_clause: s("where T: Copy"),
    }
}

fn describe(p: &GenericParam) -> String {
    match p {
        GenericParam::Lifetime { name, bounds } => format!("L {} {:?}", name, bounds),
        GenericParam::Type { name, bounds, default } => {
            format!("T {} {:?} {:?}", name, bounds, default)
        }
        GenericParam::Const { name, ty, default } => format!("C {} {} {:?}", name, ty, default),
    }
}

fn describe_all(v: &[GenericParam]) -> Vec<String> {
    v.iter().map(describe).collect()
}

fn expect_trait(r: Result<Expansion, SealError>) -> TraitExpansion {
    match r {
        Ok(Expansion::Trait(e)) => e,
        _ => panic!("expected a trait expansion"),
    }
}

fn expect_impl(r: Result<Expansion, SealError>) -> ImplExpansion {
    match r {
        Ok(Expansion::Impl(e)) => e,
        _ => panic!("expected an impl expansion"),
    }
}

#[test]
fn naming_camel_case() {
    assert_eq!(seal_name("MyTrait"), "__seal_my_trait");
}

#[test]
fn naming_acronym_is_one_word() {
    assert_eq!(seal_name("HTTPTrait"), "__seal_http_trait");
}

#[test]
fn naming_single_word() {
    assert_eq!(seal_name("T"), "__seal_t");
    assert_eq!(seal_name("Sealed"), "__seal_sealed");
}

#[test]
fn naming_already_snake() {
    assert_eq!(seal_name("my_trait"), "__seal_my_trait");
}

#[test]
fn naming_raw_identifier() {
    assert_eq!(seal_name("r#Type"), "__seal_type");
    assert_eq!(seal_name("r#Type"), seal_name("Type"));
}

#[test]
fn naming_is_deterministic() {
    assert_eq!(seal_name("SomeLongTraitName"), seal_name("SomeLongTraitName"));
    assert_eq!(seal_name("r#SomeLongTraitName"), seal_name("SomeLongTraitName"));
}

#[test]
fn unraw_strips_only_the_escape() {
    assert_eq!(unraw("r#match"), "match");
    assert_eq!(unraw("rust"), "rust");
    assert_eq!(unraw("r"), "r");
    assert_eq!(unraw(""), "");
}

#[test]
fn prefix_seal_prepends_marker() {
    assert_eq!(prefix_seal("abc"), "__seal_abc");
    assert_eq!(prefix_seal(""), "__seal_");
}

#[test]
fn trait_standard_mode_keeps_generics() {
    let e = parse_sealed_trait(generic_trait("MyTrait"), false);
    assert_eq!(e.module.name, "__seal_my_trait");
    assert!(e.module.imports_parent);
    assert_eq!(
        describe_all(&e.module.generics),
        vec!["L 'a [\"'b\"]", "T T [\"Clone\"] None", "C N usize None"]
    );
    assert_eq!(describe_all(&e.module.generics), describe_all(&e.declaration.generics));
}

#[test]
fn trait_erase_mode_relaxes_type_params() {
    let e = parse_sealed_trait(generic_trait("MyTrait"), true);
    assert_eq!(e.module.name, "__seal_my_trait");
    assert!(!e.module.imports_parent);
    assert_eq!(
        describe_all(&e.module.generics),
        vec!["L 'a [\"'b\"]", "T T [\"?Sized\"] None", "C N usize None"]
    );
}

#[test]
fn trait_erase_mode_drops_default() {
    let d = TraitDecl {
        ident: s("Conv"),
        generics: vec![GenericParam::Type {
            name: s("U"),
            bounds: texts(&["Into<u8>", "Copy"]),
            default: Some(s("u8")),
        }],
        supertraits: vec![],
    };
    let e = parse_sealed_trait(d, true);
    assert_eq!(describe_all(&e.module.generics), vec!["T U [\"?Sized\"] None"]);
    assert_eq!(describe_all(&e.declaration.generics), vec!["T U [\"Into<u8>\", \"Copy\"] Some(\"u8\")"]);
}

#[test]
fn trait_gets_seal_supertrait_last() {
    let mut d = generic_trait("Shape");
    d.generics.push(type_param("U", &[]));
    let e = parse_sealed_trait(d, false);
    assert_eq!(e.declaration.ident, "Shape");
    assert_eq!(e.declaration.supertraits.len(), 2);
    match &e.declaration.supertraits[0] {
        Bound::Text(t) => assert_eq!(t, "Send"),
        _ => panic!("the first supertrait should be kept"),
    }
    match &e.declaration.supertraits[1] {
        Bound::Seal(b) => {
            assert_eq!(b.module, "__seal_shape");
            assert_eq!(b.args, vec!["T", "U"]);
        }
        _ => panic!("the seal supertrait should be last"),
    }
}

#[test]
fn trait_without_generics() {
    let d = TraitDecl { ident: s("A"), generics: vec![], supertraits: vec![] };
    let e = parse_sealed_trait(d, false);
    assert_eq!(e.module.name, "__seal_a");
    assert!(e.module.generics.is_empty());
    match &e.declaration.supertraits[..] {
        [Bound::Seal(b)] => {
            assert_eq!(b.module, "__seal_a");
            assert!(b.args.is_empty());
        }
        _ => panic!("expected the seal supertrait alone"),
    }
}

#[test]
fn impl_bounds_are_stripped() {
    let e = parse_sealed_impl(trait_impl(&[], "Trait", "")).ok().unwrap();
    assert_eq!(describe_all(&e.companion.generics), vec!["T T [] None"]);
    assert_eq!(e.companion.path.prefix, vec!["__seal_trait"]);
    assert_eq!(e.companion.path.ident, "Sealed");
    assert_eq!(e.companion.path.args, "");
    assert_eq!(e.companion.self_ty, "Wrapper<T>");
    assert_eq!(e.companion.where_clause, "where T: Copy");
    assert_eq!(describe_all(&e.original.generics), vec!["T T [\"Bound\"] None"]);
}

#[test]
fn impl_keeps_prefix_and_arguments() {
    let mut b = trait_impl(&["crate", "shapes"], "r#HTTPTrait", "<u8, 'static>");
    b.generics.insert(0, lifetime("'x", &["'y"]));
    b.generics.push(GenericParam::Const { name: s("K"), ty: s("u32"), default: Some(s("1")) });
    if let Some(t) = b.trait_ref.as_mut() {
        t.leading_colon = true;
    }
    let e = parse_sealed_impl(b).ok().unwrap();
    assert!(e.companion.path.leading_colon);
    assert_eq!(e.companion.path.prefix, vec!["crate", "shapes", "__seal_http_trait"]);
    assert_eq!(e.companion.path.args, "<u8, 'static>");
    assert_eq!(
        describe_all(&e.companion.generics),
        vec!["L 'x []", "T T [] None", "C K u32 None"]
    );
    assert_eq!(e.original.trait_ref.unwrap().ident, "r#HTTPTrait");
}

#[test]
fn impl_without_trait_is_refused() {
    let mut b = trait_impl(&[], "Trait", "");
    b.trait_ref = None;
    assert!(matches!(parse_sealed_impl(b), Err(SealError::MissingTraitReference)));
}

#[test]
fn trait_and_impl_agree_on_module() {
    let te = parse_sealed_trait(generic_trait("MyTrait"), false);
    let ie = parse_sealed_impl(trait_impl(&["crate"], "MyTrait", "<'static, u8, 3>")).ok().unwrap();
    assert_eq!(ie.companion.path.prefix.last().unwrap(), &te.module.name);
    let te2 = parse_sealed_trait(generic_trait("r#MyTrait"), true);
    assert_eq!(te2.module.name, te.module.name);
}

#[test]
fn argument_erase_selects_erasure() {
    let e = expect_trait(sealed(Some(s("erase")), Item::Trait(generic_trait("MyTrait"))));
    assert!(!e.module.imports_parent);
    assert_eq!(describe(&e.module.generics[1]), "T T [\"?Sized\"] None");
}

#[test]
fn no_argument_selects_standard() {
    let e = expect_trait(sealed(None, Item::Trait(generic_trait("MyTrait"))));
    assert!(e.module.imports_parent);
    assert_eq!(describe(&e.module.generics[1]), "T T [\"Clone\"] None");
}

#[test]
fn other_argument_is_refused() {
    match sealed(Some(s("foo")), Item::Trait(generic_trait("MyTrait"))) {
        Err(SealError::InvalidArgument(a)) => assert_eq!(a, "foo"),
        _ => panic!("expected InvalidArgument"),
    }
    assert!(matches!(sealed(Some(s("Erase")), Item::Other), Err(SealError::InvalidArgument(_))));
}

#[test]
fn other_item_is_refused() {
    assert!(matches!(sealed(None, Item::Other), Err(SealError::UnsupportedItem)));
    assert!(matches!(sealed(Some(s("erase")), Item::Other), Err(SealError::UnsupportedItem)));
}

#[test]
fn dispatch_routes_impls() {
    let e = expect_impl(parse_sealed(Item::Impl(trait_impl(&[], "MyTrait", "")), true));
    assert_eq!(e.companion.path.prefix, vec!["__seal_my_trait"]);
    let mut b = trait_impl(&[], "MyTrait", "");
    b.trait_ref = None;
    assert!(matches!(sealed(None, Item::Impl(b)), Err(SealError::MissingTraitReference)));
}
