//! Scenario tests for the sealing transformation on the example interface
//! sealed over exactly two implementing types.

use type_match::ast::{ArgToken, TraitAttr, TraitDecl, TraitItemDecl};
use type_match::config::SealError;
use type_match::matching::any_match;
use type_match::trait_match;

fn lol_decl(attrs: Vec<TraitAttr>) -> TraitDecl {
    TraitDecl {
        attrs,
        vis: Vec::new(),
        name: "Lol".to_string(),
        supertraits: Vec::new(),
        items: vec![TraitItemDecl::Verbatim(vec![
            "fn".to_string(),
            "lol".to_string(),
            "(".to_string(),
            ")".to_string(),
            "->".to_string(),
            "i32".to_string(),
            ";".to_string(),
        ])],
    }
}

fn seal_attr(args: Vec<ArgToken>) -> TraitAttr {
    TraitAttr { path: vec!["seal".to_string()], args }
}

fn heya_boog() -> Vec<String> {
    vec!["Heya".to_string(), "Boog".to_string()]
}

#[test]
fn enum_has_exactly_the_listed_variants_in_order() {
    let attr = seal_attr(vec![
        ArgToken::KwEnum,
        ArgToken::Equals,
        ArgToken::Name("LolEnum".to_string()),
        ArgToken::Comma,
        ArgToken::Name("upcast".to_string()),
    ]);
    let out = trait_match::sealed(&heya_boog(), &lol_decl(vec![attr])).unwrap();
    let e = out.trait_enum.unwrap();
    assert_eq!(e.name, "LolEnum");
    assert_eq!(e.variants, vec!["Heya".to_string(), "Boog".to_string()]);
    assert_eq!(out.from_impls.len(), 2);
    assert_eq!(out.from_impls[0].impl_type, "Heya");
    assert_eq!(out.from_impls[0].enum_name, "LolEnum");
    assert_eq!(out.from_impls[1].impl_type, "Boog");
}

#[test]
fn sealing_marks_every_implementor() {
    let out = trait_match::sealed(&heya_boog(), &lol_decl(vec![seal_attr(Vec::new())])).unwrap();
    assert_eq!(out.hidden.module_name, "Lol___sealed_trait_seal");
    assert_eq!(out.seal_impls.len(), 2);
    assert_eq!(out.seal_impls[0].impl_type, "Heya");
    assert_eq!(out.seal_impls[0].seal_module, "Lol___sealed_trait_seal");
    assert_eq!(out.seal_impls[1].impl_type, "Boog");
    // The sealing bound is appended to the trait's supertraits.
    assert_eq!(
        out.trait_decl.supertraits,
        vec![vec!["Lol___sealed_trait_seal".to_string(), "Sealed".to_string()]]
    );
}

#[test]
fn upcast_then_match_recovers_the_concrete_type() {
    // hrm(v) = match v.upcast() { LolEnum::Heya(_) => "Heya", LolEnum::Boog(_) => "Boog" }
    let attr = seal_attr(vec![
        ArgToken::KwEnum,
        ArgToken::Equals,
        ArgToken::Name("LolEnum".to_string()),
        ArgToken::Comma,
        ArgToken::Name("upcast".to_string()),
    ]);
    let out = trait_match::sealed(&heya_boog(), &lol_decl(vec![attr])).unwrap();
    let variants = out.trait_enum.unwrap().variants;
    // Upcasting a value of type t constructs the variant named t; matching
    // over the variants selects that arm, whose result is the variant's own
    // name.
    let hrm = |t: &str| -> String {
        let sel = any_match(&t.to_string(), &variants).unwrap();
        variants[sel].clone()
    };
    assert_eq!(hrm("Heya"), "Heya");
    assert_eq!(hrm("Boog"), "Boog");
}

#[test]
fn upcast_key_splices_the_method() {
    let attr = seal_attr(vec![
        ArgToken::Name("upcast".to_string()),
        ArgToken::Equals,
        ArgToken::Name("hrm".to_string()),
    ]);
    let out = trait_match::sealed(&heya_boog(), &lol_decl(vec![attr])).unwrap();
    assert!(out.hidden.upcast.is_some());
    assert_eq!(out.hidden.upcast.unwrap().target, "Lol___sealed_trait_enum");
    assert_eq!(out.trait_decl.items.len(), 2);
    match &out.trait_decl.items[1] {
        TraitItemDecl::UpcastMethod { method, enum_name, seal_module } => {
            assert_eq!(method, "hrm");
            assert_eq!(enum_name, "Lol___sealed_trait_enum");
            assert_eq!(seal_module, "Lol___sealed_trait_seal");
        },
        other => panic!("expected the spliced upcast method, got {:?}", other),
    }
    assert_eq!(out.upcast_impls.len(), 2);
    assert_eq!(out.upcast_impls[0].impl_type, "Heya");
    assert_eq!(out.upcast_impls[1].impl_type, "Boog");
}

#[test]
fn omitting_both_keys_still_seals_but_emits_no_enum() {
    let out = trait_match::sealed(&heya_boog(), &lol_decl(vec![seal_attr(Vec::new())])).unwrap();
    assert!(out.trait_enum.is_none());
    assert!(out.hidden.upcast.is_none());
    assert!(out.from_impls.is_empty());
    assert!(out.upcast_impls.is_empty());
    assert_eq!(out.trait_decl.items.len(), 1);
    // Sealing still happens.
    assert_eq!(out.seal_impls.len(), 2);
    assert_eq!(out.trait_decl.supertraits.len(), 1);
}

#[test]
fn strict_form_always_emits_the_enum() {
    // No seal attribute at all: the strict form still emits the enum,
    // under the mangled default name.
    let out = type_match::type_match::sealed(&heya_boog(), &lol_decl(Vec::new())).unwrap();
    let e = out.trait_enum.unwrap();
    assert_eq!(e.name, "Lol___sealed_trait_enum");
    assert_eq!(e.variants, vec!["Heya".to_string(), "Boog".to_string()]);
}

#[test]
fn repeated_keys_resolve_last_wins() {
    let attr = seal_attr(vec![
        ArgToken::KwEnum,
        ArgToken::Equals,
        ArgToken::Name("First".to_string()),
        ArgToken::Comma,
        ArgToken::KwEnum,
        ArgToken::Equals,
        ArgToken::Name("Second".to_string()),
    ]);
    let out = trait_match::sealed(&heya_boog(), &lol_decl(vec![attr])).unwrap();
    assert_eq!(out.trait_enum.unwrap().name, "Second");
}

#[test]
fn other_attributes_keep_their_order() {
    let first = TraitAttr { path: vec!["doc_like".to_string()], args: Vec::new() };
    let last = TraitAttr { path: vec!["derive_like".to_string()], args: Vec::new() };
    let decl = lol_decl(vec![first, seal_attr(vec![ArgToken::KwEnum]), last]);
    let out = trait_match::sealed(&heya_boog(), &decl).unwrap();
    assert_eq!(out.trait_decl.attrs.len(), 2);
    assert_eq!(out.trait_decl.attrs[0].path, vec!["doc_like".to_string()]);
    assert_eq!(out.trait_decl.attrs[1].path, vec!["derive_like".to_string()]);
}

#[test]
fn empty_implementor_list_is_legal() {
    let out = trait_match::sealed(&Vec::new(), &lol_decl(vec![seal_attr(vec![
        ArgToken::KwEnum,
        ArgToken::Equals,
        ArgToken::Name("Empty".to_string()),
    ])]))
    .unwrap();
    assert_eq!(out.seal_impls.len(), 0);
    assert_eq!(out.trait_enum.unwrap().variants.len(), 0);
}

#[test]
fn unsealed_returns_the_declaration_unchanged() {
    let decl = lol_decl(vec![seal_attr(vec![ArgToken::KwEnum])]);
    let out = trait_match::unsealed(&heya_boog(), decl);
    assert_eq!(out.name, "Lol");
    assert_eq!(out.attrs.len(), 1);
    assert_eq!(out.attrs[0].path, vec!["seal".to_string()]);
    assert_eq!(out.items.len(), 1);
}

#[test]
fn rendered_bundle_for_a_bare_seal() {
    let decl = TraitDecl {
        attrs: vec![seal_attr(Vec::new())],
        vis: Vec::new(),
        name: "Lol".to_string(),
        supertraits: Vec::new(),
        items: Vec::new(),
    };
    let out = trait_match::sealed(&Vec::new(), &decl).unwrap();
    let tokens = out.render();
    let expected: Vec<String> = [
        "#", "[", "allow", "(", "non_snake_case", ")", "]", "mod", "Lol___sealed_trait_seal",
        "{", "pub", "trait", "Sealed", "{", "}", "}", "trait", "Lol", ":",
        "Lol___sealed_trait_seal", "::", "Sealed", "{", "}",
    ]
    .iter()
    .map(|s| s.to_string())
    .collect();
    assert_eq!(tokens, expected);
}

#[test]
fn parse_rejects_an_unknown_key() {
    let decl = lol_decl(vec![seal_attr(vec![ArgToken::Name("frob".to_string())])]);
    let r = trait_match::sealed(&heya_boog(), &decl);
    assert_eq!(r.unwrap_err(), SealError::ExpectedKey { pos: 0 });
}

#[test]
fn strict_parse_rejects_a_bare_enum_key() {
    let decl = lol_decl(vec![seal_attr(vec![ArgToken::KwEnum])]);
    let r = type_match::type_match::sealed(&heya_boog(), &decl);
    assert_eq!(r.unwrap_err(), SealError::ExpectedEquals { pos: 1 });
}

#[test]
fn parse_rejects_a_missing_name() {
    let decl = lol_decl(vec![seal_attr(vec![ArgToken::KwEnum, ArgToken::Equals])]);
    let r = trait_match::sealed(&heya_boog(), &decl);
    assert_eq!(r.unwrap_err(), SealError::ExpectedName { pos: 2 });
}

#[test]
fn parse_rejects_a_missing_comma() {
    let decl = lol_decl(vec![seal_attr(vec![
        ArgToken::KwEnum,
        ArgToken::Equals,
        ArgToken::Name("A".to_string()),
        ArgToken::Name("B".to_string()),
    ])]);
    let r = trait_match::sealed(&heya_boog(), &decl);
    assert_eq!(r.unwrap_err(), SealError::ExpectedComma { pos: 3 });
}

#[test]
fn parse_rejects_a_stray_token() {
    let decl = lol_decl(vec![seal_attr(vec![ArgToken::Other("5".to_string())])]);
    let r = trait_match::sealed(&heya_boog(), &decl);
    assert_eq!(r.unwrap_err(), SealError::ExpectedKey { pos: 0 });
}

#[test]
fn a_parse_failure_emits_nothing() {
    // The error position counts tokens inside the attribute's argument
    // list: here the bad key follows `upcast,`.
    let decl = lol_decl(vec![seal_attr(vec![
        ArgToken::Name("upcast".to_string()),
        ArgToken::Comma,
        ArgToken::Name("frob".to_string()),
    ])]);
    let r = trait_match::sealed(&heya_boog(), &decl);
    assert_eq!(r.unwrap_err(), SealError::ExpectedKey { pos: 2 });
}
