//! The sealing transformation itself: from an implementor list, a trait
//! declaration and the parsed seal configuration to the full emitted
//! bundle.

use vstd::prelude::*;
use vstd::string::StringExecFns;

use crate::ast::{TraitDecl, TraitDeclView, TraitAttrView, TraitItemDecl, TraitItemDeclView,
    clone_attrs, clone_paths, clone_items, clone_strings, lemma_vec_push_deep};
use crate::config::{SealConfig, SealConfigView, SealError, spec_take_attr_args,
    spec_empty_config, spec_enum_name, spec_seal_name, take_attr_args};
use crate::emit::{SealOutput, SealOutputView, HiddenItems, HiddenItemsView, SealedTrait,
    UpcastTrait, UpcastTraitView, SealImpl, SealImplView, FromImpl, FromImplView, UpcastImpl,
    UpcastImplView, TraitEnum, TraitEnumView};

verus! {

/// The marker impls for an implementor list: one per implementor, in input
/// order.
pub open spec fn spec_seal_impls(seal: Seq<char>, args: Seq<Seq<char>>) -> Seq<SealImplView> {
    Seq::new(args.len(), |i: int| SealImplView { seal_module: seal, impl_type: args[i] })
}

/// The conversion impls for an implementor list: one per implementor, in
/// input order.
pub open spec fn spec_from_impls(enum_name: Seq<char>, args: Seq<Seq<char>>) -> Seq<FromImplView> {
    Seq::new(args.len(), |i: int| FromImplView { enum_name: enum_name, impl_type: args[i] })
}

/// The upcast impls for an implementor list: one per implementor, in input
/// order.
pub open spec fn spec_upcast_impls(seal: Seq<char>, enum_name: Seq<char>, args: Seq<Seq<char>>)
    -> Seq<UpcastImplView> {
    Seq::new(
        args.len(),
        |i: int| UpcastImplView { seal_module: seal, enum_name: enum_name, impl_type: args[i] },
    )
}

/// What the transformation emits for a given implementor list, trait
/// declaration, kept attribute list and configuration. `always_enum` forces
/// enum emission regardless of the configuration.
pub open spec fn spec_transform_output(
    args: Seq<Seq<char>>,
    input: TraitDeclView,
    kept_attrs: Seq<TraitAttrView>,
    c: SealConfigView,
    always_enum: bool,
) -> SealOutputView {
    let make_enum = always_enum || c.make_enum;
    let enum_name = spec_enum_name(c, input.name);
    let seal_name = spec_seal_name(input.name);
    SealOutputView {
        hidden: HiddenItemsView {
            module_name: seal_name,
            upcast: match c.upcast {
                Some(_) => Some(UpcastTraitView { target: enum_name, default: None }),
                None => None,
            },
        },
        seal_impls: spec_seal_impls(seal_name, args),
        trait_decl: TraitDeclView {
            attrs: kept_attrs,
            vis: input.vis,
            name: input.name,
            supertraits: (match c.upcast {
                Some(_) => input.supertraits.push(seq![seal_name, "Sealed"@]).push(
                    seq![seal_name, "Upcast"@],
                ),
                None => input.supertraits.push(seq![seal_name, "Sealed"@]),
            }),
            items: (match c.upcast {
                Some(m) => input.items.push(
                    TraitItemDeclView::UpcastMethod {
                        method: m,
                        enum_name: enum_name,
                        seal_module: seal_name,
                    },
                ),
                None => input.items,
            }),
        },
        trait_enum: if make_enum {
            Some(TraitEnumView { vis: input.vis, name: enum_name, variants: args })
        } else {
            None
        },
        from_impls: if make_enum {
            spec_from_impls(enum_name, args)
        } else {
            Seq::empty()
        },
        upcast_impls: match c.upcast {
            Some(_) => spec_upcast_impls(seal_name, enum_name, args),
            None => Seq::empty(),
        },
    }
}

/// The whole transformation: strip and parse the seal attributes, then
/// emit; the first attribute parse failure aborts the transformation.
pub open spec fn spec_transform(
    args: Seq<Seq<char>>,
    input: TraitDeclView,
    bare_enum: bool,
    always_enum: bool,
) -> Result<SealOutputView, SealError> {
    match spec_take_attr_args(input.attrs, 0, spec_empty_config(), bare_enum) {
        Ok(p) => Ok(spec_transform_output(args, input, p.0, p.1, always_enum)),
        Err(e) => Err(e),
    }
}

/// Build the marker impls for the implementor list.
fn build_seal_impls(seal_name: &String, args: &Vec<String>) -> (r: Vec<SealImpl>)
    ensures
        r.deep_view() == spec_seal_impls(seal_name@, args.deep_view()),
{
    let mut r: Vec<SealImpl> = Vec::new();
    let mut i: usize = 0;
    while i < args.len()
        invariant
            i <= args@.len(),
            r.deep_view().len() == i as int,
            forall|k: int|
                0 <= k < i ==> r.deep_view()[k] == (SealImplView {
                    seal_module: seal_name@,
                    impl_type: args.deep_view()[k],
                }),
        decreases args@.len() - i,
    {
        let ghost pre = r;
        let item = SealImpl { seal_module: seal_name.clone(), impl_type: args[i].clone() };
        let ghost iv = item;
        r.push(item);
        proof {
            lemma_vec_push_deep(pre, r, iv);
            assert(args.deep_view()[i as int] == args@[i as int]@);
        }
        i = i + 1;
    }
    proof {
        assert(r.deep_view() =~= spec_seal_impls(seal_name@, args.deep_view()));
    }
    r
}

/// Build the conversion impls for the implementor list.
fn build_from_impls(enum_name: &String, args: &Vec<String>) -> (r: Vec<FromImpl>)
    ensures
        r.deep_view() == spec_from_impls(enum_name@, args.deep_view()),
{
    let mut r: Vec<FromImpl> = Vec::new();
    let mut i: usize = 0;
    while i < args.len()
        invariant
            i <= args@.len(),
            r.deep_view().len() == i as int,
            forall|k: int|
                0 <= k < i ==> r.deep_view()[k] == (FromImplView {
                    enum_name: enum_name@,
                    impl_type: args.deep_view()[k],
                }),
        decreases args@.len() - i,
    {
        let ghost pre = r;
        let item = FromImpl { enum_name: enum_name.clone(), impl_type: args[i].clone() };
        let ghost iv = item;
        r.push(item);
        proof {
            lemma_vec_push_deep(pre, r, iv);
            assert(args.deep_view()[i as int] == args@[i as int]@);
        }
        i = i + 1;
    }
    proof {
        assert(r.deep_view() =~= spec_from_impls(enum_name@, args.deep_view()));
    }
    r
}

/// Build the upcast impls for the implementor list.
fn build_upcast_impls(seal_name: &String, enum_name: &String, args: &Vec<String>) -> (r: Vec<
    UpcastImpl,
>)
    ensures
        r.deep_view() == spec_upcast_impls(seal_name@, enum_name@, args.deep_view()),
{
    let mut r: Vec<UpcastImpl> = Vec::new();
    let mut i: usize = 0;
    while i < args.len()
        invariant
            i <= args@.len(),
            r.deep_view().len() == i as int,
            forall|k: int|
                0 <= k < i ==> r.deep_view()[k] == (UpcastImplView {
                    seal_module: seal_name@,
                    enum_name: enum_name@,
                    impl_type: args.deep_view()[k],
                }),
        decreases args@.len() - i,
    {
        let ghost pre = r;
        let item = UpcastImpl {
            seal_module: seal_name.clone(),
            enum_name: enum_name.clone(),
            impl_type: args[i].clone(),
        };
        let ghost iv = item;
        r.push(item);
        proof {
            lemma_vec_push_deep(pre, r, iv);
            assert(args.deep_view()[i as int] == args@[i as int]@);
        }
        i = i + 1;
    }
    proof {
        assert(r.deep_view() =~= spec_upcast_impls(seal_name@, enum_name@, args.deep_view()));
    }
    r
}

/// Run the sealing transformation on a trait declaration.
pub fn transform(args: &Vec<String>, input: &TraitDecl, bare_enum: bool, always_enum: bool) -> (r:
    Result<SealOutput, SealError>)
    ensures
        (match r {
            Ok(o) => spec_transform(args.deep_view(), input.deep_view(), bare_enum, always_enum)
                == Ok::<_, SealError>(o.deep_view()),
            Err(e) => spec_transform(args.deep_view(), input.deep_view(), bare_enum, always_enum)
                == Err::<SealOutputView, _>(e),
        }),
{
    let mut kept_attrs = clone_attrs(&input.attrs);
    let cfg = match take_attr_args(&mut kept_attrs, bare_enum) {
        Ok(c) => c,
        Err(e) => {
            return Err(e);
        },
    };
    let make_enum = always_enum || cfg.make_enum;
    let trait_enum_name = cfg.get_enum_name(input.name.as_str());
    let trait_seal_name = cfg.get_seal_name(input.name.as_str());

    let mut supertraits = clone_paths(&input.supertraits);
    let ghost supers0 = supertraits;
    let mut seal_path: Vec<String> = Vec::new();
    seal_path.push(trait_seal_name.clone());
    seal_path.push("Sealed".to_owned());
    proof {
        assert(seal_path.deep_view() =~= seq![trait_seal_name@, "Sealed"@]);
    }
    let ghost seal_path_v = seal_path;
    supertraits.push(seal_path);
    proof {
        lemma_vec_push_deep(supers0, supertraits, seal_path_v);
    }

    let mut items = clone_items(&input.items);

    let seal_impls = build_seal_impls(&trait_seal_name, args);

    let upcast_decl: Option<UpcastTrait>;
    let upcast_impls: Vec<UpcastImpl>;
    match &cfg.upcast {
        Some(m) => {
            let ghost supers1 = supertraits;
            let mut upcast_path: Vec<String> = Vec::new();
            upcast_path.push(trait_seal_name.clone());
            upcast_path.push("Upcast".to_owned());
            proof {
                assert(upcast_path.deep_view() =~= seq![trait_seal_name@, "Upcast"@]);
            }
            let ghost upcast_path_v = upcast_path;
            supertraits.push(upcast_path);
            proof {
                lemma_vec_push_deep(supers1, supertraits, upcast_path_v);
            }
            let ghost items0 = items;
            let method_item = TraitItemDecl::UpcastMethod {
                method: m.clone(),
                enum_name: trait_enum_name.clone(),
                seal_module: trait_seal_name.clone(),
            };
            let ghost method_item_v = method_item;
            items.push(method_item);
            proof {
                lemma_vec_push_deep(items0, items, method_item_v);
            }
            upcast_decl = Some(
                UpcastTrait { target: trait_enum_name.clone(), default: None },
            );
            upcast_impls = build_upcast_impls(&trait_seal_name, &trait_enum_name, args);
        },
        None => {
            upcast_decl = None;
            upcast_impls = Vec::new();
            proof {
                assert(upcast_impls.deep_view() =~= Seq::<UpcastImplView>::empty());
            }
        },
    }

    let trait_enum: Option<TraitEnum>;
    let from_impls: Vec<FromImpl>;
    if make_enum {
        let enum_vis = clone_strings(&input.vis);
        let variants = clone_strings(args);
        proof {
            assert(enum_vis.deep_view() =~= input.vis.deep_view());
            assert(variants.deep_view() =~= args.deep_view());
        }
        trait_enum = Some(
            TraitEnum { vis: enum_vis, name: trait_enum_name.clone(), variants: variants },
        );
        from_impls = build_from_impls(&trait_enum_name, args);
    } else {
        trait_enum = None;
        from_impls = Vec::new();
        proof {
            assert(from_impls.deep_view() =~= Seq::<FromImplView>::empty());
        }
    }

    let decl_vis = clone_strings(&input.vis);
    proof {
        assert(decl_vis.deep_view() =~= input.vis.deep_view());
    }
    let out = SealOutput {
        hidden: HiddenItems {
            module_name: trait_seal_name.clone(),
            seal: SealedTrait,
            upcast: upcast_decl,
        },
        seal_impls: seal_impls,
        trait_decl: TraitDecl {
            attrs: kept_attrs,
            vis: decl_vis,
            name: input.name.clone(),
            supertraits: supertraits,
            items: items,
        },
        trait_enum: trait_enum,
        from_impls: from_impls,
        upcast_impls: upcast_impls,
    };
    proof {
        let ghost sv = spec_transform_output(
            args.deep_view(),
            input.deep_view(),
            out.trait_decl.attrs.deep_view(),
            cfg.deep_view(),
            always_enum,
        );
        assert(out.trait_decl.vis.deep_view() =~= input.vis.deep_view());
        assert(out.deep_view().trait_decl == sv.trait_decl);
        assert(out.deep_view() == sv);
    }
    Ok(out)
}

} // verus!
