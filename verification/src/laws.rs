//! The library's laws: what the transformation guarantees for every
//! implementor list, trait declaration and configuration, stated over the
//! spec functions that the public contracts use.

use vstd::prelude::*;

use crate::ast::{TraitDeclView, TraitAttrView, TraitItemDeclView, spec_is_seal_attr};
use crate::config::{SealConfigView, SealError, AttrArgView, spec_apply_args, spec_apply_one,
    spec_take_attr_args, spec_parse_args, spec_empty_config, spec_seal_name};
use crate::emit::SealOutputView;
use crate::transform::{spec_transform, spec_transform_output, spec_seal_impls, spec_from_impls,
    spec_upcast_impls};

verus! {

/// Applying attribute arguments never unsets enum emission, and any
/// argument that sets the upcast name also enables enum emission.
pub proof fn lemma_apply_upcast_enables_enum(c: SealConfigView, args: Seq<AttrArgView>, i: int)
    requires
        c.upcast is Some ==> c.make_enum,
    ensures
        ({
            let d = spec_apply_args(c, args, i);
            d.upcast is Some ==> d.make_enum
        }),
    decreases args.len() - i,
{
    if i < 0 || i >= args.len() {
    } else {
        lemma_apply_upcast_enables_enum(spec_apply_one(c, args[i]), args, i + 1);
    }
}

/// Folding the seal attributes of a declaration keeps that property: a
/// configuration that asks for the upcast method always asks for the enum.
pub proof fn lemma_take_upcast_enables_enum(
    attrs: Seq<TraitAttrView>,
    i: int,
    c: SealConfigView,
    bare_enum: bool,
)
    requires
        c.upcast is Some ==> c.make_enum,
    ensures
        (match spec_take_attr_args(attrs, i, c, bare_enum) {
            Ok(p) => p.1.upcast is Some ==> p.1.make_enum,
            Err(_) => true,
        }),
    decreases attrs.len() - i,
{
    if i < 0 || i >= attrs.len() {
    } else if spec_is_seal_attr(attrs[i]) {
        match spec_parse_args(attrs[i].args, 0, bare_enum) {
            Ok(parsed) => {
                lemma_apply_upcast_enables_enum(c, parsed, 0);
                lemma_take_upcast_enables_enum(attrs, i + 1, spec_apply_args(c, parsed, 0), bare_enum);
            },
            Err(_) => {},
        }
    } else {
        lemma_take_upcast_enables_enum(attrs, i + 1, c, bare_enum);
    }
}

/// Sealing law: whenever the transformation accepts, the hidden module is
/// named by the mangled seal name, the trait gains that module's `Sealed`
/// contract as a new supertrait bound, and the emitted marker impls are
/// exactly one per listed implementor, in list order, and no others — so
/// every member of the list satisfies the sealed trait, and no type
/// outside the list can ever be given the marker the bound demands.
pub proof fn lemma_sealing(
    args: Seq<Seq<char>>,
    input: TraitDeclView,
    bare_enum: bool,
    always_enum: bool,
    out: SealOutputView,
)
    requires
        spec_transform(args, input, bare_enum, always_enum) == Ok::<SealOutputView, SealError>(out),
    ensures
        out.hidden.module_name == spec_seal_name(input.name),
        out.seal_impls.len() == args.len(),
        forall|i: int|
            0 <= i < args.len() ==> (#[trigger] out.seal_impls[i]).impl_type == args[i]
                && out.seal_impls[i].seal_module == out.hidden.module_name,
        out.trait_decl.supertraits.len() > input.supertraits.len(),
        out.trait_decl.supertraits[input.supertraits.len() as int] == seq![
            out.hidden.module_name,
            "Sealed"@,
        ],
        out.trait_decl.name == input.name,
        out.trait_decl.vis == input.vis,
{
    let t = spec_take_attr_args(input.attrs, 0, spec_empty_config(), bare_enum);
    match t {
        Ok(p) => {
            assert(out == spec_transform_output(args, input, p.0, p.1, always_enum));
            assert forall|i: int| 0 <= i < args.len() implies (#[trigger] out.seal_impls[i]).impl_type
                == args[i] && out.seal_impls[i].seal_module == out.hidden.module_name by {
                assert(spec_seal_impls(spec_seal_name(input.name), args)[i].impl_type == args[i]);
            }
            let sealed_bound = seq![spec_seal_name(input.name), "Sealed"@];
            match p.1.upcast {
                Some(_) => {
                    let s1 = input.supertraits.push(sealed_bound);
                    assert(s1[input.supertraits.len() as int] == sealed_bound);
                    assert(s1.push(seq![spec_seal_name(input.name), "Upcast"@])[
                        input.supertraits.len() as int] == sealed_bound);
                },
                None => {
                    assert(input.supertraits.push(sealed_bound)[input.supertraits.len() as int]
                        == sealed_bound);
                },
            }
        },
        Err(_) => {
            assert(false);
        },
    }
}

/// Variant law: when the variant enum is emitted, it has exactly one
/// variant per implementor, in the exact order of the list, each wrapping
/// exactly the corresponding implementing type, together with one
/// conversion impl per implementor pairing that type with this enum; the
/// form that always emits the enum always has it.
pub proof fn lemma_enum_variants(
    args: Seq<Seq<char>>,
    input: TraitDeclView,
    bare_enum: bool,
    always_enum: bool,
    out: SealOutputView,
)
    requires
        spec_transform(args, input, bare_enum, always_enum) == Ok::<SealOutputView, SealError>(out),
    ensures
        always_enum ==> out.trait_enum is Some,
        (match out.trait_enum {
            Some(e) => e.variants == args && e.vis == input.vis && out.from_impls.len()
                == args.len() && forall|i: int|
                0 <= i < args.len() ==> (#[trigger] out.from_impls[i]).impl_type == args[i]
                    && out.from_impls[i].enum_name == e.name,
            None => out.from_impls.len() == 0,
        }),
{
    let t = spec_take_attr_args(input.attrs, 0, spec_empty_config(), bare_enum);
    match t {
        Ok(p) => {
            assert(out == spec_transform_output(args, input, p.0, p.1, always_enum));
            match out.trait_enum {
                Some(e) => {
                    assert forall|i: int| 0 <= i < args.len() implies (#[trigger] out.from_impls[i])
                        .impl_type == args[i] && out.from_impls[i].enum_name == e.name by {
                        assert(spec_from_impls(e.name, args)[i].impl_type == args[i]);
                    }
                },
                None => {},
            }
        },
        Err(_) => {
            assert(false);
        },
    }
}

/// Among the arms of a match, the first one naming the sought type exists
/// whenever any arm names it.
proof fn lemma_first_occurrence(variants: Seq<Seq<char>>, t: Seq<char>, j: int)
    requires
        0 <= j < variants.len(),
        variants[j] == t,
    ensures
        exists|i: int|
            0 <= i <= j && variants[i] == t && (forall|k: int| 0 <= k < i ==> variants[k] != t),
    decreases j,
{
    if forall|k: int| 0 <= k < j ==> variants[k] != t {
        assert(0 <= j <= j && variants[j] == t && (forall|k: int| 0 <= k < j ==> variants[k] != t));
    } else {
        let j0 = choose|k: int| 0 <= k < j && variants[k] == t;
        lemma_first_occurrence(variants, t, j0);
    }
}

/// Round-trip law: a value converted into the enum can be matched back to
/// the concrete type that produced it. The conversion impl for type `t`
/// constructs the variant wrapping `t`, and an in-order match over the
/// variant list selects an arm — the first one for `t` — that wraps
/// exactly `t` and no other type.
pub proof fn lemma_round_trip(variants: Seq<Seq<char>>, t: Seq<char>)
    requires
        variants.contains(t),
    ensures
        exists|i: int|
            0 <= i < variants.len() && variants[i] == t && (forall|k: int|
                0 <= k < i ==> variants[k] != t),
{
    let j = choose|j: int| 0 <= j < variants.len() && variants[j] == t;
    lemma_first_occurrence(variants, t, j);
}

/// Upcast law: when the upcast key is given, the trait gains the hidden
/// upcast contract as a further supertrait bound and a spliced-in
/// default-bodied method forwarding to it, the enum is emitted, and for
/// every implementor the upcast impl constructs exactly the variant of
/// that implementor's type — the same pairing the conversion impl makes —
/// so calling the method on a generic value of an implementing type is
/// equivalent to explicit variant construction.
pub proof fn lemma_upcast_equivalence(
    args: Seq<Seq<char>>,
    input: TraitDeclView,
    bare_enum: bool,
    always_enum: bool,
    out: SealOutputView,
)
    requires
        spec_transform(args, input, bare_enum, always_enum) == Ok::<SealOutputView, SealError>(out),
        out.hidden.upcast is Some,
    ensures
        out.trait_enum is Some,
        out.upcast_impls.len() == args.len(),
        out.trait_decl.items.len() == input.items.len() + 1,
        (match (out.trait_decl.items.last(), out.hidden.upcast) {
            (TraitItemDeclView::UpcastMethod { method: _, enum_name, seal_module }, Some(u)) => (
            enum_name == u.target && seal_module == out.hidden.module_name),
            _ => false,
        }),
        (match out.trait_enum {
            Some(e) => forall|i: int|
                0 <= i < args.len() ==> (#[trigger] out.upcast_impls[i]).impl_type == args[i]
                    && out.upcast_impls[i].enum_name == e.name && out.from_impls[i].impl_type
                    == args[i] && out.from_impls[i].enum_name == e.name,
            None => false,
        }),
{
    let t = spec_take_attr_args(input.attrs, 0, spec_empty_config(), bare_enum);
    match t {
        Ok(p) => {
            assert(out == spec_transform_output(args, input, p.0, p.1, always_enum));
            lemma_take_upcast_enables_enum(input.attrs, 0, spec_empty_config(), bare_enum);
            assert(p.1.upcast is Some);
            assert(p.1.make_enum);
            match out.trait_enum {
                Some(e) => {
                    assert forall|i: int| 0 <= i < args.len() implies (#[trigger] out.upcast_impls[i])
                        .impl_type == args[i] && out.upcast_impls[i].enum_name == e.name
                        && out.from_impls[i].impl_type == args[i] && out.from_impls[i].enum_name
                        == e.name by {
                        assert(spec_upcast_impls(spec_seal_name(input.name), e.name, args)[i]
                            .impl_type == args[i]);
                        assert(spec_from_impls(e.name, args)[i].impl_type == args[i]);
                    }
                },
                None => {},
            }
            let m = input.items.push(
                TraitItemDeclView::UpcastMethod {
                    method: (match p.1.upcast {
                        Some(name) => name,
                        None => ""@,
                    }),
                    enum_name: (match out.trait_enum {
                        Some(e) => e.name,
                        None => ""@,
                    }),
                    seal_module: spec_seal_name(input.name),
                },
            );
            assert(out.trait_decl.items.last() == out.trait_decl.items[input.items.len() as int]);
        },
        Err(_) => {
            assert(false);
        },
    }
}

/// Default law: with the empty configuration — neither the `enum` key nor
/// the `upcast` key given — the trait is still sealed (the hidden module,
/// the marker impls and the new supertrait bound are all emitted), but no
/// enum, no conversion impl, no upcast contract and no extra method exist
/// in the output of the form that emits the enum only on request.
pub proof fn lemma_seal_only(args: Seq<Seq<char>>, input: TraitDeclView, kept: Seq<TraitAttrView>)
    ensures
        ({
            let out = spec_transform_output(args, input, kept, spec_empty_config(), false);
            out.trait_enum is None && out.from_impls.len() == 0 && out.upcast_impls.len() == 0
                && out.hidden.upcast is None && out.trait_decl.items == input.items
                && out.seal_impls.len() == args.len() && out.trait_decl.supertraits
                == input.supertraits.push(seq![out.hidden.module_name, "Sealed"@])
        }),
{
}

} // verus!
