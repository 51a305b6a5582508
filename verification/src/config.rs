//! Configuration drawn from the custom `seal(...)` attribute on a trait
//! declaration, and the deterministic name mangling used for the generated
//! items.

use vstd::prelude::*;
use vstd::string::StringExecFns;

use crate::ast::{ArgToken, ArgTokenView, TraitAttr, TraitAttrView, spec_is_seal_attr};

verus! {

/// A structured parse failure: the index of the offending token inside the
/// attribute's argument list, and what was expected there.
#[derive(Clone, Copy, Debug, PartialEq, Eq, Structural)]
pub enum SealError {
    /// A key was expected: `enum` or `upcast`.
    ExpectedKey { pos: usize },
    /// An `=` sign was expected after a key.
    ExpectedEquals { pos: usize },
    /// An identifier was expected after an `=` sign.
    ExpectedName { pos: usize },
    /// A `,` separator was expected between two arguments.
    ExpectedComma { pos: usize },
}

/// One parsed argument of the seal attribute.
#[derive(Debug)]
pub enum AttrArg {
    /// The `enum` key, with its custom name when one was given.
    Enum(Option<String>),
    /// The `upcast` key: the method name, which is the word `upcast` itself
    /// when no custom name was given.
    Upcast(String),
}

/// Mathematical value of an [`AttrArg`].
pub enum AttrArgView {
    Enum(Option<Seq<char>>),
    Upcast(Seq<char>),
}

impl DeepView for AttrArg {
    type V = AttrArgView;

    open spec fn deep_view(&self) -> AttrArgView {
        match self {
            AttrArg::Enum(n) => AttrArgView::Enum(n.deep_view()),
            AttrArg::Upcast(n) => AttrArgView::Upcast(n@),
        }
    }
}

/// The fixed separator spliced between a base name and a descriptor when
/// deriving a fresh identifier.
pub open spec fn spec_mangle(name: Seq<char>, descriptor: Seq<char>) -> Seq<char> {
    name + "___sealed_trait_"@ + descriptor
}

/// Mangle a name in a deterministic way that is unlikely to collide with any
/// user-chosen identifier: base name, fixed separator, descriptor.
pub fn mangle_name(name: &str, descriptor: &str) -> (r: String)
    ensures
        r@ == spec_mangle(name@, descriptor@),
{
    let mut out = name.to_owned();
    out.append("___sealed_trait_");
    out.append(descriptor);
    out
}

/// Mathematical value of a [`SealConfig`].
pub struct SealConfigView {
    pub enum_name: Option<Seq<char>>,
    pub upcast: Option<Seq<char>>,
    pub make_enum: bool,
}

/// Configuration from the custom attributes on the trait item.
pub struct SealConfig {
    /// Custom identifier for the generated variant enum, when one was given.
    pub enum_name: Option<String>,
    /// Name of the convenience method to splice into the trait, when the
    /// upcast key was given.
    pub upcast: Option<String>,
    /// Whether to emit the variant enum at all: set as soon as either the
    /// enum key or the upcast key appears.
    pub make_enum: bool,
}

impl DeepView for SealConfig {
    type V = SealConfigView;

    open spec fn deep_view(&self) -> SealConfigView {
        SealConfigView {
            enum_name: self.enum_name.deep_view(),
            upcast: self.upcast.deep_view(),
            make_enum: self.make_enum,
        }
    }
}

/// The enum name a configuration resolves to: the custom one when given,
/// otherwise the mangled default derived from the trait name.
pub open spec fn spec_enum_name(c: SealConfigView, trait_name: Seq<char>) -> Seq<char> {
    match c.enum_name {
        Some(n) => n,
        None => spec_mangle(trait_name, "enum"@),
    }
}

/// The name of the hidden marker module: always mangled, never configurable.
pub open spec fn spec_seal_name(trait_name: Seq<char>) -> Seq<char> {
    spec_mangle(trait_name, "seal"@)
}

impl SealConfig {
    /// The empty configuration: no keys seen yet.
    pub fn new() -> (r: Self)
        ensures
            r.deep_view() == (SealConfigView { enum_name: None, upcast: None, make_enum: false }),
    {
        Self { enum_name: None, upcast: None, make_enum: false }
    }

    /// Record a custom enum name; asking for the enum by name also enables
    /// its emission.
    pub fn rename_enum(&mut self, name: String)
        ensures
            final(self).deep_view() == (SealConfigView {
                enum_name: Some(name@),
                make_enum: true,
                ..old(self).deep_view()
            }),
    {
        self.enum_name = Some(name);
        self.make_enum = true;
    }

    /// Record the upcast method name; the upcast method returns the enum,
    /// so it implies enum emission.
    pub fn set_upcast(&mut self, upcast: String)
        ensures
            final(self).deep_view() == (SealConfigView {
                upcast: Some(upcast@),
                make_enum: true,
                ..old(self).deep_view()
            }),
    {
        self.upcast = Some(upcast);
        self.make_enum = true;
    }

    /// The name of the generated variant enum.
    pub fn get_enum_name(&self, trait_name: &str) -> (r: String)
        ensures
            r@ == spec_enum_name(self.deep_view(), trait_name@),
    {
        match self.enum_name {
            Some(ref name) => name.clone(),
            None => mangle_name(trait_name, "enum"),
        }
    }

    /// The name of the hidden module holding the sealing marker.
    pub fn get_seal_name(&self, trait_name: &str) -> (r: String)
        ensures
            r@ == spec_seal_name(trait_name@),
    {
        mangle_name(trait_name, "seal")
    }
}

/// The configuration before any argument has been applied.
pub open spec fn spec_empty_config() -> SealConfigView {
    SealConfigView { enum_name: None, upcast: None, make_enum: false }
}

/// The grammar of the seal attribute's argument list, starting at token `i`:
/// a comma-separated, possibly empty, possibly comma-terminated list of
/// `enum`, `enum = Name`, `upcast` and `upcast = name`. The bare `enum` form
/// is only part of the grammar when `bare_enum` is set.
pub open spec fn spec_parse_args(toks: Seq<ArgTokenView>, i: int, bare_enum: bool) -> Result<
    Seq<AttrArgView>,
    SealError,
>
    decreases toks.len() - i, 0int,
{
    if i < 0 || i >= toks.len() {
        Ok(Seq::empty())
    } else {
        match toks[i] {
            ArgTokenView::KwEnum => {
                if bare_enum && (i + 1 >= toks.len() || toks[i + 1] == ArgTokenView::Comma) {
                    spec_parse_rest(toks, i + 1, AttrArgView::Enum(None), bare_enum)
                } else if i + 1 < toks.len() && toks[i + 1] == ArgTokenView::Equals {
                    if i + 2 < toks.len() && toks[i + 2] is Name {
                        spec_parse_rest(
                            toks,
                            i + 3,
                            AttrArgView::Enum(Some(toks[i + 2]->Name_0)),
                            bare_enum,
                        )
                    } else {
                        Err(SealError::ExpectedName { pos: (i + 2) as usize })
                    }
                } else {
                    Err(SealError::ExpectedEquals { pos: (i + 1) as usize })
                }
            },
            ArgTokenView::Name(n) => {
                if n == "upcast"@ {
                    if i + 1 >= toks.len() || toks[i + 1] == ArgTokenView::Comma {
                        spec_parse_rest(toks, i + 1, AttrArgView::Upcast(n), bare_enum)
                    } else if toks[i + 1] == ArgTokenView::Equals {
                        if i + 2 < toks.len() && toks[i + 2] is Name {
                            spec_parse_rest(
                                toks,
                                i + 3,
                                AttrArgView::Upcast(toks[i + 2]->Name_0),
                                bare_enum,
                            )
                        } else {
                            Err(SealError::ExpectedName { pos: (i + 2) as usize })
                        }
                    } else {
                        Err(SealError::ExpectedEquals { pos: (i + 1) as usize })
                    }
                } else {
                    Err(SealError::ExpectedKey { pos: i as usize })
                }
            },
            _ => Err(SealError::ExpectedKey { pos: i as usize }),
        }
    }
}

/// After one parsed argument ending just before token `j`: either the list
/// ends, or a comma separates it from the rest of the list.
pub open spec fn spec_parse_rest(
    toks: Seq<ArgTokenView>,
    j: int,
    arg: AttrArgView,
    bare_enum: bool,
) -> Result<Seq<AttrArgView>, SealError>
    decreases toks.len() - j, 1int,
{
    if j < 0 || j >= toks.len() {
        Ok(seq![arg])
    } else if toks[j] == ArgTokenView::Comma {
        match spec_parse_args(toks, j + 1, bare_enum) {
            Ok(rest) => Ok(seq![arg] + rest),
            Err(e) => Err(e),
        }
    } else {
        Err(SealError::ExpectedComma { pos: j as usize })
    }
}

/// Whether a string holds exactly the given word.
fn is_word(s: &String, w: &str) -> (r: bool)
    ensures
        r == (s@ == w@),
{
    let ws: String = w.to_owned();
    *s == ws
}

/// Parse the argument list of a seal attribute from token `i` on.
pub fn parse_attr_args(toks: &Vec<ArgToken>, i: usize, bare_enum: bool) -> (r: Result<
    Vec<AttrArg>,
    SealError,
>)
    ensures
        (match r {
            Ok(v) => spec_parse_args(toks.deep_view(), i as int, bare_enum) == Ok::<_, SealError>(
                v.deep_view(),
            ),
            Err(e) => spec_parse_args(toks.deep_view(), i as int, bare_enum) == Err::<
                Seq<AttrArgView>,
                _,
            >(e),
        }),
    decreases toks@.len() - i, 0int,
{
    if i >= toks.len() {
        let v: Vec<AttrArg> = Vec::new();
        assert(v.deep_view() =~= Seq::<AttrArgView>::empty());
        return Ok(v);
    }
    match &toks[i] {
        ArgToken::KwEnum => {
            let at_break = i + 1 >= toks.len() || matches!(&toks[i + 1], ArgToken::Comma);
            if bare_enum && at_break {
                parse_rest(toks, i + 1, AttrArg::Enum(None), bare_enum)
            } else if i + 1 < toks.len() && matches!(&toks[i + 1], ArgToken::Equals) {
                if i + 2 < toks.len() && matches!(&toks[i + 2], ArgToken::Name(_)) {
                    match &toks[i + 2] {
                        ArgToken::Name(m) => parse_rest(
                            toks,
                            i + 3,
                            AttrArg::Enum(Some(m.clone())),
                            bare_enum,
                        ),
                        _ => Err(SealError::ExpectedName { pos: i + 2 }),
                    }
                } else {
                    Err(SealError::ExpectedName { pos: i + 2 })
                }
            } else {
                Err(SealError::ExpectedEquals { pos: i + 1 })
            }
        },
        ArgToken::Name(n) => {
            if is_word(n, "upcast") {
                let at_break = i + 1 >= toks.len() || matches!(&toks[i + 1], ArgToken::Comma);
                if at_break {
                    parse_rest(toks, i + 1, AttrArg::Upcast(n.clone()), bare_enum)
                } else if matches!(&toks[i + 1], ArgToken::Equals) {
                    if i + 2 < toks.len() && matches!(&toks[i + 2], ArgToken::Name(_)) {
                        match &toks[i + 2] {
                            ArgToken::Name(m) => parse_rest(
                                toks,
                                i + 3,
                                AttrArg::Upcast(m.clone()),
                                bare_enum,
                            ),
                            _ => Err(SealError::ExpectedName { pos: i + 2 }),
                        }
                    } else {
                        Err(SealError::ExpectedName { pos: i + 2 })
                    }
                } else {
                    Err(SealError::ExpectedEquals { pos: i + 1 })
                }
            } else {
                Err(SealError::ExpectedKey { pos: i })
            }
        },
        _ => Err(SealError::ExpectedKey { pos: i }),
    }
}

/// Parse the separator-or-end that follows one parsed argument, then the
/// rest of the list.
fn parse_rest(toks: &Vec<ArgToken>, j: usize, arg: AttrArg, bare_enum: bool) -> (r: Result<
    Vec<AttrArg>,
    SealError,
>)
    ensures
        (match r {
            Ok(v) => spec_parse_rest(toks.deep_view(), j as int, arg.deep_view(), bare_enum)
                == Ok::<_, SealError>(v.deep_view()),
            Err(e) => spec_parse_rest(toks.deep_view(), j as int, arg.deep_view(), bare_enum)
                == Err::<Seq<AttrArgView>, _>(e),
        }),
    decreases toks@.len() - j, 1int,
{
    if j >= toks.len() {
        let mut v: Vec<AttrArg> = Vec::new();
        let ghost argv = arg.deep_view();
        v.push(arg);
        assert(v.deep_view() =~= seq![argv]);
        Ok(v)
    } else if matches!(&toks[j], ArgToken::Comma) {
        match parse_attr_args(toks, j + 1, bare_enum) {
            Ok(mut rest) => {
                let ghost rest_deep = rest.deep_view();
                let ghost argv = arg.deep_view();
                rest.insert(0, arg);
                assert(rest.deep_view() =~= seq![argv] + rest_deep);
                Ok(rest)
            },
            Err(e) => Err(e),
        }
    } else {
        Err(SealError::ExpectedComma { pos: j })
    }
}

/// The effect of one parsed argument on the configuration: the last
/// occurrence of a key wins, and every key enables enum emission.
pub open spec fn spec_apply_one(c: SealConfigView, a: AttrArgView) -> SealConfigView {
    match a {
        AttrArgView::Enum(Some(n)) => SealConfigView { enum_name: Some(n), make_enum: true, ..c },
        AttrArgView::Enum(None) => SealConfigView { make_enum: true, ..c },
        AttrArgView::Upcast(n) => SealConfigView { upcast: Some(n), make_enum: true, ..c },
    }
}

/// The configuration after applying the arguments from index `i` on, left
/// to right.
pub open spec fn spec_apply_args(c: SealConfigView, args: Seq<AttrArgView>, i: int) -> SealConfigView
    decreases args.len() - i,
{
    if i < 0 || i >= args.len() {
        c
    } else {
        spec_apply_args(spec_apply_one(c, args[i]), args, i + 1)
    }
}

/// Apply a parsed argument list to the configuration, left to right.
pub fn apply_args(cfg: &mut SealConfig, args: &Vec<AttrArg>)
    ensures
        final(cfg).deep_view() == spec_apply_args(old(cfg).deep_view(), args.deep_view(), 0),
{
    let mut k: usize = 0;
    while k < args.len()
        invariant
            k <= args@.len(),
            spec_apply_args(old(cfg).deep_view(), args.deep_view(), 0) == spec_apply_args(
                cfg.deep_view(),
                args.deep_view(),
                k as int,
            ),
        decreases args@.len() - k,
    {
        match &args[k] {
            AttrArg::Enum(opt) => {
                match opt {
                    Some(name) => cfg.rename_enum(name.clone()),
                    None => {
                        cfg.make_enum = true;
                    },
                }
            },
            AttrArg::Upcast(name) => cfg.set_upcast(name.clone()),
        }
        k = k + 1;
    }
}

/// What stripping the seal attributes from an attribute list yields, from
/// index `i` on, folding the arguments of every seal attribute, in order,
/// into the configuration `c`: the kept attributes in their original
/// relative order, and the final configuration; or the first parse failure.
pub open spec fn spec_take_attr_args(
    attrs: Seq<TraitAttrView>,
    i: int,
    c: SealConfigView,
    bare_enum: bool,
) -> Result<(Seq<TraitAttrView>, SealConfigView), SealError>
    decreases attrs.len() - i,
{
    if i < 0 || i >= attrs.len() {
        Ok((Seq::empty(), c))
    } else if spec_is_seal_attr(attrs[i]) {
        match spec_parse_args(attrs[i].args, 0, bare_enum) {
            Ok(parsed) => spec_take_attr_args(attrs, i + 1, spec_apply_args(c, parsed, 0), bare_enum),
            Err(e) => Err(e),
        }
    } else {
        match spec_take_attr_args(attrs, i + 1, c, bare_enum) {
            Ok(p) => Ok((seq![attrs[i]] + p.0, p.1)),
            Err(e) => Err(e),
        }
    }
}

/// Parse out and strip the custom seal attributes: every attribute whose
/// path starts with `seal` is removed and its arguments are folded into the
/// configuration; all other attributes keep their original relative order.
/// On a parse failure the attribute list is left as it was.
pub fn take_attr_args(attrs: &mut Vec<TraitAttr>, bare_enum: bool) -> (r: Result<
    SealConfig,
    SealError,
>)
    ensures
        (match r {
            Ok(c) => spec_take_attr_args(old(attrs).deep_view(), 0, spec_empty_config(), bare_enum)
                == Ok::<_, SealError>((final(attrs).deep_view(), c.deep_view())),
            Err(e) => spec_take_attr_args(old(attrs).deep_view(), 0, spec_empty_config(), bare_enum)
                == Err::<(Seq<TraitAttrView>, SealConfigView), _>(e)
                && final(attrs).deep_view() == old(attrs).deep_view(),
        }),
{
    let ghost full = old(attrs).deep_view();
    let mut kept: Vec<TraitAttr> = Vec::new();
    let mut cfg = SealConfig::new();
    let mut i: usize = 0;
    proof {
        assert(kept.deep_view() =~= Seq::<TraitAttrView>::empty());
        let r0 = spec_take_attr_args(full, 0, spec_empty_config(), bare_enum);
        if r0 is Ok {
            assert(kept.deep_view() + r0->Ok_0.0 =~= r0->Ok_0.0);
        }
    }
    while i < attrs.len()
        invariant
            i <= attrs@.len(),
            attrs@ == old(attrs)@,
            attrs.deep_view() == full,
            (match spec_take_attr_args(full, i as int, cfg.deep_view(), bare_enum) {
                Ok(p) => spec_take_attr_args(full, 0, spec_empty_config(), bare_enum) == Ok::<
                    _,
                    SealError,
                >((kept.deep_view() + p.0, p.1)),
                Err(e) => spec_take_attr_args(full, 0, spec_empty_config(), bare_enum) == Err::<
                    (Seq<TraitAttrView>, SealConfigView),
                    _,
                >(e),
            }),
        decreases attrs@.len() - i,
    {
        let ghost cfg_before = cfg.deep_view();
        let a_is_seal = attrs[i].path.len() > 0 && is_word(&attrs[i].path[0], "seal");
        proof {
            assert(attrs@[i as int].deep_view() == full[i as int]);
            assert(a_is_seal == spec_is_seal_attr(full[i as int]));
        }
        if a_is_seal {
            match parse_attr_args(&attrs[i].args, 0, bare_enum) {
                Ok(parsed) => {
                    proof {
                        assert(spec_take_attr_args(full, i as int, cfg_before, bare_enum)
                            == spec_take_attr_args(
                            full,
                            i + 1,
                            spec_apply_args(cfg_before, parsed.deep_view(), 0),
                            bare_enum,
                        ));
                    }
                    apply_args(&mut cfg, &parsed);
                },
                Err(e) => {
                    proof {
                        assert(spec_take_attr_args(full, i as int, cfg_before, bare_enum)
                            == Err::<(Seq<TraitAttrView>, SealConfigView), SealError>(e));
                    }
                    return Err(e);
                },
            }
        } else {
            let ghost kept_deep = kept.deep_view();
            let cloned_attr = attrs[i].clone();
            kept.push(cloned_attr);
            proof {
                assert(kept.deep_view() =~= kept_deep.push(full[i as int]));
                let r2 = spec_take_attr_args(full, i + 1, cfg_before, bare_enum);
                assert(spec_take_attr_args(full, i as int, cfg_before, bare_enum) == (match r2 {
                    Ok(p) => Ok::<_, SealError>((seq![full[i as int]] + p.0, p.1)),
                    Err(e) => Err(e),
                }));
                if r2 is Ok {
                    let p0 = r2->Ok_0.0;
                    assert(kept_deep.push(full[i as int]) + p0 =~= kept_deep + (
                    seq![full[i as int]] + p0));
                }
            }
        }
        i = i + 1;
    }
    proof {
        let rn = spec_take_attr_args(full, full.len() as int, cfg.deep_view(), bare_enum);
        assert(rn == Ok::<_, SealError>((Seq::<TraitAttrView>::empty(), cfg.deep_view())));
        assert(kept.deep_view() + Seq::<TraitAttrView>::empty() =~= kept.deep_view());
    }
    *attrs = kept;
    Ok(cfg)
}

} // verus!
