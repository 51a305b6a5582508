//! The generated declaration bundle and its rendering as a stream of
//! lexemes. Every renderer appends to a token stream, modelled as a vector
//! of lexeme strings, and is proved to append exactly the tokens its spec
//! function describes.

use vstd::prelude::*;
use vstd::string::StringExecFns;

use crate::ast::{TraitAttr, TraitAttrView, ArgToken, ArgTokenView, TraitDecl, TraitDeclView,
    TraitItemDecl, TraitItemDeclView};

verus! {

/// Append one lexeme to a token stream.
fn put_string(stream: &mut Vec<String>, t: String)
    ensures
        final(stream).deep_view() == old(stream).deep_view().push(t@),
{
    let ghost pre = stream@;
    let ghost tv = t@;
    stream.push(t);
    proof {
        assert(stream@ == pre.push(stream@[pre.len() as int]));
        assert forall|k: int| 0 <= k < stream.deep_view().len() implies stream.deep_view()[k]
            == old(stream).deep_view().push(tv)[k] by {
            assert(stream.deep_view()[k] == stream@[k]@);
            if k < pre.len() {
                assert(stream@[k] == pre[k]);
                assert(old(stream).deep_view()[k] == pre[k]@);
                assert(old(stream).deep_view().push(tv)[k] == pre[k]@);
            } else {
                assert(stream@[k]@ == tv);
                assert(old(stream).deep_view().push(tv)[k] == tv);
            }
        }
        assert(stream.deep_view() =~= old(stream).deep_view().push(tv));
    }
}

/// Append one fixed lexeme to a token stream.
fn put(stream: &mut Vec<String>, t: &str)
    ensures
        final(stream).deep_view() == old(stream).deep_view().push(t@),
{
    put_string(stream, t.to_owned());
}

/// Append a sequence of lexemes, carried verbatim.
fn append_words(stream: &mut Vec<String>, words: &Vec<String>)
    ensures
        final(stream).deep_view() == old(stream).deep_view() + words.deep_view(),
{
    let ghost base = stream.deep_view();
    let mut i: usize = 0;
    while i < words.len()
        invariant
            i <= words@.len(),
            stream.deep_view() == base + words.deep_view().subrange(0, i as int),
        decreases words@.len() - i,
    {
        put_string(stream, words[i].clone());
        proof {
            assert(words.deep_view()[i as int] == words@[i as int]@);
            assert(stream.deep_view() =~= base + words.deep_view().subrange(0, i + 1));
        }
        i = i + 1;
    }
    proof {
        assert(words.deep_view().subrange(0, words.deep_view().len() as int) =~= words.deep_view());
    }
}

/// The lexemes of a path: its segments separated by `::`.
pub open spec fn spec_path_tokens_upto(path: Seq<Seq<char>>, n: int) -> Seq<Seq<char>>
    decreases n,
{
    if n <= 0 {
        Seq::empty()
    } else if n == 1 {
        seq![path[0]]
    } else {
        spec_path_tokens_upto(path, n - 1) + seq!["::"@, path[n - 1]]
    }
}

/// The lexemes of a whole path.
pub open spec fn spec_path_tokens(path: Seq<Seq<char>>) -> Seq<Seq<char>> {
    spec_path_tokens_upto(path, path.len() as int)
}

/// Append a path: segments separated by `::`.
fn render_path(stream: &mut Vec<String>, path: &Vec<String>)
    ensures
        final(stream).deep_view() == old(stream).deep_view() + spec_path_tokens(path.deep_view()),
{
    let ghost base = stream.deep_view();
    let mut i: usize = 0;
    while i < path.len()
        invariant
            i <= path@.len(),
            stream.deep_view() == base + spec_path_tokens_upto(path.deep_view(), i as int),
        decreases path@.len() - i,
    {
        if i > 0 {
            put(stream, "::");
        }
        put_string(stream, path[i].clone());
        proof {
            assert(path.deep_view()[i as int] == path@[i as int]@);
            assert(stream.deep_view() =~= base + spec_path_tokens_upto(path.deep_view(), i + 1));
        }
        i = i + 1;
    }
    proof {
        if path.deep_view().len() == 0 {
            assert(base + spec_path_tokens_upto(path.deep_view(), 0) =~= base
                + spec_path_tokens(path.deep_view()));
        }
    }
}

/// The text of one attribute argument token.
pub open spec fn spec_arg_token_text(t: ArgTokenView) -> Seq<char> {
    match t {
        ArgTokenView::KwEnum => "enum"@,
        ArgTokenView::Equals => "="@,
        ArgTokenView::Comma => ","@,
        ArgTokenView::Name(s) => s,
        ArgTokenView::Other(s) => s,
    }
}

/// The texts of the first `n` argument tokens.
pub open spec fn spec_arg_tokens_upto(args: Seq<ArgTokenView>, n: int) -> Seq<Seq<char>>
    decreases n,
{
    if n <= 0 {
        Seq::empty()
    } else {
        spec_arg_tokens_upto(args, n - 1).push(spec_arg_token_text(args[n - 1]))
    }
}

/// The lexemes of an attribute: `# [ path ( args ) ]`, with the
/// parenthesised argument list omitted when it is empty.
pub open spec fn spec_attr_tokens(a: TraitAttrView) -> Seq<Seq<char>> {
    seq!["#"@, "["@] + spec_path_tokens(a.path) + (if a.args.len() > 0 {
        seq!["("@] + spec_arg_tokens_upto(a.args, a.args.len() as int) + seq![")"@]
    } else {
        Seq::empty()
    }) + seq!["]"@]
}

/// Append one attribute argument token.
fn render_arg_token(stream: &mut Vec<String>, t: &ArgToken)
    ensures
        final(stream).deep_view() == old(stream).deep_view().push(
            spec_arg_token_text(t.deep_view()),
        ),
{
    match t {
        ArgToken::KwEnum => put(stream, "enum"),
        ArgToken::Equals => put(stream, "="),
        ArgToken::Comma => put(stream, ","),
        ArgToken::Name(s) => put_string(stream, s.clone()),
        ArgToken::Other(s) => put_string(stream, s.clone()),
    }
}

/// Append one attribute.
pub fn render_attr(stream: &mut Vec<String>, a: &TraitAttr)
    ensures
        final(stream).deep_view() == old(stream).deep_view() + spec_attr_tokens(a.deep_view()),
{
    let ghost base = stream.deep_view();
    put(stream, "#");
    put(stream, "[");
    render_path(stream, &a.path);
    if a.args.len() > 0 {
        put(stream, "(");
        let ghost mid = stream.deep_view();
        let mut i: usize = 0;
        while i < a.args.len()
            invariant
                i <= a.args@.len(),
                stream.deep_view() == mid + spec_arg_tokens_upto(a.args.deep_view(), i as int),
            decreases a.args@.len() - i,
        {
            render_arg_token(stream, &a.args[i]);
            proof {
                assert(a.args.deep_view()[i as int] == a.args@[i as int].deep_view());
                assert(stream.deep_view() =~= mid + spec_arg_tokens_upto(
                    a.args.deep_view(),
                    i + 1,
                ));
            }
            i = i + 1;
        }
        put(stream, ")");
        put(stream, "]");
        proof {
            assert(stream.deep_view() =~= base + spec_attr_tokens(a.deep_view()));
        }
    } else {
        put(stream, "]");
        proof {
            assert(stream.deep_view() =~= base + spec_attr_tokens(a.deep_view()));
        }
    }
}

/// The empty marker contract declared inside the hidden module. Its mere
/// existence as a supertrait bound is what seals the trait.
#[derive(Debug)]
pub struct SealedTrait;

/// The upcast contract declared inside the hidden module: one operation
/// turning an implementing value into the enum named `target`. When
/// `default` names a path, the operation gets a default body forwarding to
/// that path; otherwise it is a required operation.
#[derive(Debug)]
pub struct UpcastTrait {
    pub target: String,
    pub default: Option<Vec<String>>,
}

/// Mathematical value of an [`UpcastTrait`].
pub struct UpcastTraitView {
    pub target: Seq<char>,
    pub default: Option<Seq<Seq<char>>>,
}

impl DeepView for UpcastTrait {
    type V = UpcastTraitView;

    open spec fn deep_view(&self) -> UpcastTraitView {
        UpcastTraitView { target: self.target@, default: self.default.deep_view() }
    }
}

/// The hidden module: a namespace holding the items that must stay out of
/// reach of user code, so that only generated impls can satisfy them.
#[derive(Debug)]
pub struct HiddenItems {
    pub module_name: String,
    pub seal: SealedTrait,
    pub upcast: Option<UpcastTrait>,
}

/// Mathematical value of a [`HiddenItems`].
pub struct HiddenItemsView {
    pub module_name: Seq<char>,
    pub upcast: Option<UpcastTraitView>,
}

impl DeepView for HiddenItems {
    type V = HiddenItemsView;

    open spec fn deep_view(&self) -> HiddenItemsView {
        HiddenItemsView { module_name: self.module_name@, upcast: self.upcast.deep_view() }
    }
}

/// The lexemes of the marker contract: `pub trait Sealed {}`.
pub open spec fn spec_sealed_trait_tokens() -> Seq<Seq<char>> {
    seq!["pub"@, "trait"@, "Sealed"@, "{"@, "}"@]
}

/// The lexemes of the upcast contract.
pub open spec fn spec_upcast_trait_tokens(t: UpcastTraitView) -> Seq<Seq<char>> {
    match t.default {
        None => seq![
            "pub"@, "trait"@, "Upcast"@, "{"@, "fn"@, "upcast"@, "("@, "this"@, ":"@, "Self"@,
            ")"@, "->"@, "super"@, "::"@, t.target, ";"@, "}"@,
        ],
        Some(path) => seq![
            "pub"@, "trait"@, "Upcast"@, "{"@, "fn"@, "upcast"@, "("@, "self"@, ")"@, "->"@,
            t.target, "{"@,
        ] + spec_path_tokens(path) + seq!["("@, "self"@, ")"@, "}"@, "}"@],
    }
}

/// The lexemes of the hidden module.
pub open spec fn spec_hidden_items_tokens(h: HiddenItemsView) -> Seq<Seq<char>> {
    seq!["#"@, "["@, "allow"@, "("@, "non_snake_case"@, ")"@, "]"@, "mod"@, h.module_name, "{"@]
        + spec_sealed_trait_tokens() + (match h.upcast {
        Some(u) => spec_upcast_trait_tokens(u),
        None => Seq::empty(),
    }) + seq!["}"@]
}

impl SealedTrait {
    /// Emit the marker contract.
    pub fn to_tokens(&self, stream: &mut Vec<String>)
        ensures
            final(stream).deep_view() == old(stream).deep_view() + spec_sealed_trait_tokens(),
    {
        let ghost base = stream.deep_view();
        put(stream, "pub");
        put(stream, "trait");
        put(stream, "Sealed");
        put(stream, "{");
        put(stream, "}");
        proof {
            assert(stream.deep_view() =~= base + spec_sealed_trait_tokens());
        }
    }
}

impl UpcastTrait {
    /// Emit the upcast contract, with or without a default body.
    pub fn to_tokens(&self, stream: &mut Vec<String>)
        ensures
            final(stream).deep_view() == old(stream).deep_view() + spec_upcast_trait_tokens(
                self.deep_view(),
            ),
    {
        let ghost base = stream.deep_view();
        put(stream, "pub");
        put(stream, "trait");
        put(stream, "Upcast");
        put(stream, "{");
        put(stream, "fn");
        put(stream, "upcast");
        put(stream, "(");
        match &self.default {
            None => {
                put(stream, "this");
                put(stream, ":");
                put(stream, "Self");
                put(stream, ")");
                put(stream, "->");
                put(stream, "super");
                put(stream, "::");
                put_string(stream, self.target.clone());
                put(stream, ";");
                put(stream, "}");
                proof {
                    assert(stream.deep_view() =~= base + spec_upcast_trait_tokens(
                        self.deep_view(),
                    ));
                }
            },
            Some(path) => {
                put(stream, "self");
                put(stream, ")");
                put(stream, "->");
                put_string(stream, self.target.clone());
                put(stream, "{");
                render_path(stream, path);
                put(stream, "(");
                put(stream, "self");
                put(stream, ")");
                put(stream, "}");
                put(stream, "}");
                proof {
                    assert(stream.deep_view() =~= base + spec_upcast_trait_tokens(
                        self.deep_view(),
                    ));
                }
            },
        }
    }
}

impl HiddenItems {
    /// Emit the hidden module with its contracts.
    pub fn to_tokens(&self, stream: &mut Vec<String>)
        ensures
            final(stream).deep_view() == old(stream).deep_view() + spec_hidden_items_tokens(
                self.deep_view(),
            ),
    {
        let ghost base = stream.deep_view();
        put(stream, "#");
        put(stream, "[");
        put(stream, "allow");
        put(stream, "(");
        put(stream, "non_snake_case");
        put(stream, ")");
        put(stream, "]");
        put(stream, "mod");
        put_string(stream, self.module_name.clone());
        put(stream, "{");
        self.seal.to_tokens(stream);
        match &self.upcast {
            Some(u) => u.to_tokens(stream),
            None => (),
        }
        put(stream, "}");
        proof {
            assert(stream.deep_view() =~= base + spec_hidden_items_tokens(self.deep_view()));
        }
    }
}

/// One generated marker impl: `impl <seal_module>::Sealed for <impl_type> {}`.
#[derive(Debug)]
pub struct SealImpl {
    pub seal_module: String,
    pub impl_type: String,
}

/// Mathematical value of a [`SealImpl`].
pub struct SealImplView {
    pub seal_module: Seq<char>,
    pub impl_type: Seq<char>,
}

impl DeepView for SealImpl {
    type V = SealImplView;

    open spec fn deep_view(&self) -> SealImplView {
        SealImplView { seal_module: self.seal_module@, impl_type: self.impl_type@ }
    }
}

/// The lexemes of one marker impl.
pub open spec fn spec_seal_impl_tokens(s: SealImplView) -> Seq<Seq<char>> {
    seq!["impl"@, s.seal_module, "::"@, "Sealed"@, "for"@, s.impl_type, "{"@, "}"@]
}

impl SealImpl {
    /// Emit one marker impl.
    pub fn to_tokens(&self, stream: &mut Vec<String>)
        ensures
            final(stream).deep_view() == old(stream).deep_view() + spec_seal_impl_tokens(
                self.deep_view(),
            ),
    {
        let ghost base = stream.deep_view();
        put(stream, "impl");
        put_string(stream, self.seal_module.clone());
        put(stream, "::");
        put(stream, "Sealed");
        put(stream, "for");
        put_string(stream, self.impl_type.clone());
        put(stream, "{");
        put(stream, "}");
        proof {
            assert(stream.deep_view() =~= base + spec_seal_impl_tokens(self.deep_view()));
        }
    }
}

/// One generated conversion impl: `From<impl_type>` for the enum.
#[derive(Debug)]
pub struct FromImpl {
    pub enum_name: String,
    pub impl_type: String,
}

/// Mathematical value of a [`FromImpl`].
pub struct FromImplView {
    pub enum_name: Seq<char>,
    pub impl_type: Seq<char>,
}

impl DeepView for FromImpl {
    type V = FromImplView;

    open spec fn deep_view(&self) -> FromImplView {
        FromImplView { enum_name: self.enum_name@, impl_type: self.impl_type@ }
    }
}

/// The lexemes of one conversion impl: the variant named after the type
/// wraps a value of that type.
pub open spec fn spec_from_impl_tokens(f: FromImplView) -> Seq<Seq<char>> {
    seq![
        "impl"@, "::"@, "core"@, "::"@, "convert"@, "::"@, "From"@, "<"@, f.impl_type, ">"@,
        "for"@, f.enum_name, "{"@, "fn"@, "from"@, "("@, "v"@, ":"@, f.impl_type, ")"@, "->"@,
        "Self"@, "{"@, "Self"@, "::"@, f.impl_type, "("@, "v"@, ")"@, "}"@, "}"@,
    ]
}

impl FromImpl {
    /// Emit one conversion impl.
    pub fn to_tokens(&self, stream: &mut Vec<String>)
        ensures
            final(stream).deep_view() == old(stream).deep_view() + spec_from_impl_tokens(
                self.deep_view(),
            ),
    {
        let ghost base = stream.deep_view();
        put(stream, "impl");
        put(stream, "::");
        put(stream, "core");
        put(stream, "::");
        put(stream, "convert");
        put(stream, "::");
        put(stream, "From");
        put(stream, "<");
        put_string(stream, self.impl_type.clone());
        put(stream, ">");
        put(stream, "for");
        put_string(stream, self.enum_name.clone());
        put(stream, "{");
        put(stream, "fn");
        put(stream, "from");
        put(stream, "(");
        put(stream, "v");
        put(stream, ":");
        put_string(stream, self.impl_type.clone());
        put(stream, ")");
        put(stream, "->");
        put(stream, "Self");
        put(stream, "{");
        put(stream, "Self");
        put(stream, "::");
        put_string(stream, self.impl_type.clone());
        put(stream, "(");
        put(stream, "v");
        put(stream, ")");
        put(stream, "}");
        put(stream, "}");
        proof {
            assert(stream.deep_view() =~= base + spec_from_impl_tokens(self.deep_view()));
        }
    }
}

/// One generated upcast impl: the upcast contract's operation constructs
/// the matching enum variant.
#[derive(Debug)]
pub struct UpcastImpl {
    pub seal_module: String,
    pub enum_name: String,
    pub impl_type: String,
}

/// Mathematical value of an [`UpcastImpl`].
pub struct UpcastImplView {
    pub seal_module: Seq<char>,
    pub enum_name: Seq<char>,
    pub impl_type: Seq<char>,
}

impl DeepView for UpcastImpl {
    type V = UpcastImplView;

    open spec fn deep_view(&self) -> UpcastImplView {
        UpcastImplView {
            seal_module: self.seal_module@,
            enum_name: self.enum_name@,
            impl_type: self.impl_type@,
        }
    }
}

/// The lexemes of one upcast impl.
pub open spec fn spec_upcast_impl_tokens(u: UpcastImplView) -> Seq<Seq<char>> {
    seq![
        "impl"@, u.seal_module, "::"@, "Upcast"@, "for"@, u.impl_type, "{"@, "fn"@, "upcast"@,
        "("@, "this"@, ":"@, "Self"@, ")"@, "->"@, u.enum_name, "{"@, u.enum_name, "::"@,
        u.impl_type, "("@, "this"@, ")"@, "}"@, "}"@,
    ]
}

impl UpcastImpl {
    /// Emit one upcast impl.
    pub fn to_tokens(&self, stream: &mut Vec<String>)
        ensures
            final(stream).deep_view() == old(stream).deep_view() + spec_upcast_impl_tokens(
                self.deep_view(),
            ),
    {
        let ghost base = stream.deep_view();
        put(stream, "impl");
        put_string(stream, self.seal_module.clone());
        put(stream, "::");
        put(stream, "Upcast");
        put(stream, "for");
        put_string(stream, self.impl_type.clone());
        put(stream, "{");
        put(stream, "fn");
        put(stream, "upcast");
        put(stream, "(");
        put(stream, "this");
        put(stream, ":");
        put(stream, "Self");
        put(stream, ")");
        put(stream, "->");
        put_string(stream, self.enum_name.clone());
        put(stream, "{");
        put_string(stream, self.enum_name.clone());
        put(stream, "::");
        put_string(stream, self.impl_type.clone());
        put(stream, "(");
        put(stream, "this");
        put(stream, ")");
        put(stream, "}");
        put(stream, "}");
        proof {
            assert(stream.deep_view() =~= base + spec_upcast_impl_tokens(self.deep_view()));
        }
    }
}

/// The generated closed variant enum: one variant per implementor, each
/// wrapping one value of that implementing type, in input order.
#[derive(Debug)]
pub struct TraitEnum {
    pub vis: Vec<String>,
    pub name: String,
    pub variants: Vec<String>,
}

/// Mathematical value of a [`TraitEnum`].
pub struct TraitEnumView {
    pub vis: Seq<Seq<char>>,
    pub name: Seq<char>,
    pub variants: Seq<Seq<char>>,
}

impl DeepView for TraitEnum {
    type V = TraitEnumView;

    open spec fn deep_view(&self) -> TraitEnumView {
        TraitEnumView {
            vis: self.vis.deep_view(),
            name: self.name@,
            variants: self.variants.deep_view(),
        }
    }
}

/// The lexemes of the first `n` variants: `Name ( Name ) ,` each.
pub open spec fn spec_variants_upto(vs: Seq<Seq<char>>, n: int) -> Seq<Seq<char>>
    decreases n,
{
    if n <= 0 {
        Seq::empty()
    } else {
        spec_variants_upto(vs, n - 1) + seq![vs[n - 1], "("@, vs[n - 1], ")"@, ","@]
    }
}

/// The lexemes of the variant enum declaration.
pub open spec fn spec_trait_enum_tokens(e: TraitEnumView) -> Seq<Seq<char>> {
    seq![
        "#"@, "["@, "allow"@, "("@, "private_in_public"@, ")"@, "]"@, "#"@, "["@, "allow"@,
        "("@, "non_camel_case_types"@, ")"@, "]"@,
    ] + e.vis + seq!["enum"@, e.name, "{"@] + spec_variants_upto(
        e.variants,
        e.variants.len() as int,
    ) + seq!["}"@]
}

impl TraitEnum {
    /// Emit the variant enum declaration.
    pub fn to_tokens(&self, stream: &mut Vec<String>)
        ensures
            final(stream).deep_view() == old(stream).deep_view() + spec_trait_enum_tokens(
                self.deep_view(),
            ),
    {
        let ghost base = stream.deep_view();
        put(stream, "#");
        put(stream, "[");
        put(stream, "allow");
        put(stream, "(");
        put(stream, "private_in_public");
        put(stream, ")");
        put(stream, "]");
        put(stream, "#");
        put(stream, "[");
        put(stream, "allow");
        put(stream, "(");
        put(stream, "non_camel_case_types");
        put(stream, ")");
        put(stream, "]");
        append_words(stream, &self.vis);
        put(stream, "enum");
        put_string(stream, self.name.clone());
        put(stream, "{");
        let ghost mid = stream.deep_view();
        let mut i: usize = 0;
        while i < self.variants.len()
            invariant
                i <= self.variants@.len(),
                stream.deep_view() == mid + spec_variants_upto(
                    self.variants.deep_view(),
                    i as int,
                ),
            decreases self.variants@.len() - i,
        {
            put_string(stream, self.variants[i].clone());
            put(stream, "(");
            put_string(stream, self.variants[i].clone());
            put(stream, ")");
            put(stream, ",");
            proof {
                assert(self.variants.deep_view()[i as int] == self.variants@[i as int]@);
                assert(stream.deep_view() =~= mid + spec_variants_upto(
                    self.variants.deep_view(),
                    i + 1,
                ));
            }
            i = i + 1;
        }
        put(stream, "}");
        proof {
            assert(stream.deep_view() =~= base + spec_trait_enum_tokens(self.deep_view()));
        }
    }
}

/// The lexemes of one trait item: a verbatim item is its own lexemes; the
/// spliced-in convenience method forwards to the upcast contract.
pub open spec fn spec_trait_item_tokens(it: TraitItemDeclView) -> Seq<Seq<char>> {
    match it {
        TraitItemDeclView::Verbatim(toks) => toks,
        TraitItemDeclView::UpcastMethod { method, enum_name, seal_module } => seq![
            "fn"@, method, "("@, "self"@, ")"@, "->"@, enum_name, "where"@, "Self"@, ":"@,
            "::"@, "core"@, "::"@, "marker"@, "::"@, "Sized"@, ","@, "{"@, "<"@, "Self"@,
            "as"@, seal_module, "::"@, "Upcast"@, ">"@, "::"@, "upcast"@, "("@, "self"@, ")"@,
            "}"@,
        ],
    }
}

/// The lexemes of the first `n` attributes.
pub open spec fn spec_attrs_upto(attrs: Seq<TraitAttrView>, n: int) -> Seq<Seq<char>>
    decreases n,
{
    if n <= 0 {
        Seq::empty()
    } else {
        spec_attrs_upto(attrs, n - 1) + spec_attr_tokens(attrs[n - 1])
    }
}

/// The lexemes of the first `n` supertrait bounds, separated by `+`.
pub open spec fn spec_supers_upto(supers: Seq<Seq<Seq<char>>>, n: int) -> Seq<Seq<char>>
    decreases n,
{
    if n <= 0 {
        Seq::empty()
    } else if n == 1 {
        spec_path_tokens(supers[0])
    } else {
        spec_supers_upto(supers, n - 1) + seq!["+"@] + spec_path_tokens(supers[n - 1])
    }
}

/// The lexemes of the first `n` trait items.
pub open spec fn spec_items_upto(items: Seq<TraitItemDeclView>, n: int) -> Seq<Seq<char>>
    decreases n,
{
    if n <= 0 {
        Seq::empty()
    } else {
        spec_items_upto(items, n - 1) + spec_trait_item_tokens(items[n - 1])
    }
}

/// The lexemes of a whole trait declaration: attributes, visibility, name,
/// supertrait bounds and items.
pub open spec fn spec_trait_decl_tokens(d: TraitDeclView) -> Seq<Seq<char>> {
    spec_attrs_upto(d.attrs, d.attrs.len() as int) + d.vis + seq!["trait"@, d.name] + (
    if d.supertraits.len() > 0 {
        seq![":"@] + spec_supers_upto(d.supertraits, d.supertraits.len() as int)
    } else {
        Seq::empty()
    }) + seq!["{"@] + spec_items_upto(d.items, d.items.len() as int) + seq!["}"@]
}

/// Append one trait item.
fn render_trait_item(stream: &mut Vec<String>, it: &TraitItemDecl)
    ensures
        final(stream).deep_view() == old(stream).deep_view() + spec_trait_item_tokens(
            it.deep_view(),
        ),
{
    let ghost base = stream.deep_view();
    match it {
        TraitItemDecl::Verbatim(toks) => {
            append_words(stream, toks);
        },
        TraitItemDecl::UpcastMethod { method, enum_name, seal_module } => {
            put(stream, "fn");
            put_string(stream, method.clone());
            put(stream, "(");
            put(stream, "self");
            put(stream, ")");
            put(stream, "->");
            put_string(stream, enum_name.clone());
            put(stream, "where");
            put(stream, "Self");
            put(stream, ":");
            put(stream, "::");
            put(stream, "core");
            put(stream, "::");
            put(stream, "marker");
            put(stream, "::");
            put(stream, "Sized");
            put(stream, ",");
            put(stream, "{");
            put(stream, "<");
            put(stream, "Self");
            put(stream, "as");
            put_string(stream, seal_module.clone());
            put(stream, "::");
            put(stream, "Upcast");
            put(stream, ">");
            put(stream, "::");
            put(stream, "upcast");
            put(stream, "(");
            put(stream, "self");
            put(stream, ")");
            put(stream, "}");
            proof {
                assert(stream.deep_view() =~= base + spec_trait_item_tokens(it.deep_view()));
            }
        },
    }
}

impl TraitDecl {
    /// Emit the whole trait declaration.
    pub fn to_tokens(&self, stream: &mut Vec<String>)
        ensures
            final(stream).deep_view() == old(stream).deep_view() + spec_trait_decl_tokens(
                self.deep_view(),
            ),
    {
        let ghost base = stream.deep_view();
        let mut i: usize = 0;
        while i < self.attrs.len()
            invariant
                i <= self.attrs@.len(),
                stream.deep_view() == base + spec_attrs_upto(self.attrs.deep_view(), i as int),
            decreases self.attrs@.len() - i,
        {
            render_attr(stream, &self.attrs[i]);
            proof {
                assert(self.attrs.deep_view()[i as int] == self.attrs@[i as int].deep_view());
                assert(stream.deep_view() =~= base + spec_attrs_upto(
                    self.attrs.deep_view(),
                    i + 1,
                ));
            }
            i = i + 1;
        }
        append_words(stream, &self.vis);
        put(stream, "trait");
        put_string(stream, self.name.clone());
        if self.supertraits.len() > 0 {
            put(stream, ":");
            let ghost mid = stream.deep_view();
            let mut j: usize = 0;
            while j < self.supertraits.len()
                invariant
                    j <= self.supertraits@.len(),
                    stream.deep_view() == mid + spec_supers_upto(
                        self.supertraits.deep_view(),
                        j as int,
                    ),
                decreases self.supertraits@.len() - j,
            {
                if j > 0 {
                    put(stream, "+");
                }
                render_path(stream, &self.supertraits[j]);
                proof {
                    assert(self.supertraits.deep_view()[j as int]
                        == self.supertraits@[j as int].deep_view());
                    assert(stream.deep_view() =~= mid + spec_supers_upto(
                        self.supertraits.deep_view(),
                        j + 1,
                    ));
                }
                j = j + 1;
            }
        }
        put(stream, "{");
        let ghost mid2 = stream.deep_view();
        let mut k: usize = 0;
        while k < self.items.len()
            invariant
                k <= self.items@.len(),
                stream.deep_view() == mid2 + spec_items_upto(self.items.deep_view(), k as int),
            decreases self.items@.len() - k,
        {
            render_trait_item(stream, &self.items[k]);
            proof {
                assert(self.items.deep_view()[k as int] == self.items@[k as int].deep_view());
                assert(stream.deep_view() =~= mid2 + spec_items_upto(
                    self.items.deep_view(),
                    k + 1,
                ));
            }
            k = k + 1;
        }
        put(stream, "}");
        proof {
            assert(stream.deep_view() =~= base + spec_trait_decl_tokens(self.deep_view()));
        }
    }
}

/// Everything one transformation emits, in its fixed order: the hidden
/// module, the per-implementor marker impls, the re-emitted (now mutated)
/// trait declaration, the variant enum when asked for, the per-implementor
/// conversion impls, and the per-implementor upcast impls.
#[derive(Debug)]
pub struct SealOutput {
    pub hidden: HiddenItems,
    pub seal_impls: Vec<SealImpl>,
    pub trait_decl: TraitDecl,
    pub trait_enum: Option<TraitEnum>,
    pub from_impls: Vec<FromImpl>,
    pub upcast_impls: Vec<UpcastImpl>,
}

/// Mathematical value of a [`SealOutput`].
pub struct SealOutputView {
    pub hidden: HiddenItemsView,
    pub seal_impls: Seq<SealImplView>,
    pub trait_decl: TraitDeclView,
    pub trait_enum: Option<TraitEnumView>,
    pub from_impls: Seq<FromImplView>,
    pub upcast_impls: Seq<UpcastImplView>,
}

impl DeepView for SealOutput {
    type V = SealOutputView;

    open spec fn deep_view(&self) -> SealOutputView {
        SealOutputView {
            hidden: self.hidden.deep_view(),
            seal_impls: self.seal_impls.deep_view(),
            trait_decl: self.trait_decl.deep_view(),
            trait_enum: self.trait_enum.deep_view(),
            from_impls: self.from_impls.deep_view(),
            upcast_impls: self.upcast_impls.deep_view(),
        }
    }
}

/// The lexemes of the first `n` marker impls.
pub open spec fn spec_seal_impls_upto(l: Seq<SealImplView>, n: int) -> Seq<Seq<char>>
    decreases n,
{
    if n <= 0 {
        Seq::empty()
    } else {
        spec_seal_impls_upto(l, n - 1) + spec_seal_impl_tokens(l[n - 1])
    }
}

/// The lexemes of the first `n` conversion impls.
pub open spec fn spec_from_impls_upto(l: Seq<FromImplView>, n: int) -> Seq<Seq<char>>
    decreases n,
{
    if n <= 0 {
        Seq::empty()
    } else {
        spec_from_impls_upto(l, n - 1) + spec_from_impl_tokens(l[n - 1])
    }
}

/// The lexemes of the first `n` upcast impls.
pub open spec fn spec_upcast_impls_upto(l: Seq<UpcastImplView>, n: int) -> Seq<Seq<char>>
    decreases n,
{
    if n <= 0 {
        Seq::empty()
    } else {
        spec_upcast_impls_upto(l, n - 1) + spec_upcast_impl_tokens(l[n - 1])
    }
}

/// The lexemes of the whole emitted bundle, in its fixed order.
pub open spec fn spec_seal_output_tokens(o: SealOutputView) -> Seq<Seq<char>> {
    spec_hidden_items_tokens(o.hidden) + spec_seal_impls_upto(
        o.seal_impls,
        o.seal_impls.len() as int,
    ) + spec_trait_decl_tokens(o.trait_decl) + (match o.trait_enum {
        Some(e) => spec_trait_enum_tokens(e),
        None => Seq::empty(),
    }) + spec_from_impls_upto(o.from_impls, o.from_impls.len() as int) + spec_upcast_impls_upto(
        o.upcast_impls,
        o.upcast_impls.len() as int,
    )
}

impl SealOutput {
    /// Emit the whole bundle.
    pub fn to_tokens(&self, stream: &mut Vec<String>)
        ensures
            final(stream).deep_view() == old(stream).deep_view() + spec_seal_output_tokens(
                self.deep_view(),
            ),
    {
        let ghost base = stream.deep_view();
        self.hidden.to_tokens(stream);
        let ghost m1 = stream.deep_view();
        let mut i: usize = 0;
        while i < self.seal_impls.len()
            invariant
                i <= self.seal_impls@.len(),
                stream.deep_view() == m1 + spec_seal_impls_upto(
                    self.seal_impls.deep_view(),
                    i as int,
                ),
            decreases self.seal_impls@.len() - i,
        {
            let si = &self.seal_impls[i];
            si.to_tokens(stream);
            proof {
                assert(self.seal_impls.deep_view()[i as int]
                    == self.seal_impls@[i as int].deep_view());
                assert(stream.deep_view() =~= m1 + spec_seal_impls_upto(
                    self.seal_impls.deep_view(),
                    i + 1,
                ));
            }
            i = i + 1;
        }
        self.trait_decl.to_tokens(stream);
        match &self.trait_enum {
            Some(e) => e.to_tokens(stream),
            None => (),
        }
        let ghost m2 = stream.deep_view();
        let mut j: usize = 0;
        while j < self.from_impls.len()
            invariant
                j <= self.from_impls@.len(),
                stream.deep_view() == m2 + spec_from_impls_upto(
                    self.from_impls.deep_view(),
                    j as int,
                ),
            decreases self.from_impls@.len() - j,
        {
            let fi = &self.from_impls[j];
            fi.to_tokens(stream);
            proof {
                assert(self.from_impls.deep_view()[j as int]
                    == self.from_impls@[j as int].deep_view());
                assert(stream.deep_view() =~= m2 + spec_from_impls_upto(
                    self.from_impls.deep_view(),
                    j + 1,
                ));
            }
            j = j + 1;
        }
        let ghost m3 = stream.deep_view();
        let mut k: usize = 0;
        while k < self.upcast_impls.len()
            invariant
                k <= self.upcast_impls@.len(),
                stream.deep_view() == m3 + spec_upcast_impls_upto(
                    self.upcast_impls.deep_view(),
                    k as int,
                ),
            decreases self.upcast_impls@.len() - k,
        {
            let ui = &self.upcast_impls[k];
            ui.to_tokens(stream);
            proof {
                assert(self.upcast_impls.deep_view()[k as int]
                    == self.upcast_impls@[k as int].deep_view());
                assert(stream.deep_view() =~= m3 + spec_upcast_impls_upto(
                    self.upcast_impls.deep_view(),
                    k + 1,
                ));
            }
            k = k + 1;
        }
        proof {
            assert(stream.deep_view() =~= base + spec_seal_output_tokens(self.deep_view()));
        }
    }

    /// The whole bundle as one fresh token stream.
    pub fn render(&self) -> (r: Vec<String>)
        ensures
            r.deep_view() == spec_seal_output_tokens(self.deep_view()),
    {
        let mut stream: Vec<String> = Vec::new();
        proof {
            assert(stream.deep_view() =~= Seq::<Seq<char>>::empty());
        }
        self.to_tokens(&mut stream);
        proof {
            assert(Seq::<Seq<char>>::empty() + spec_seal_output_tokens(self.deep_view())
                =~= spec_seal_output_tokens(self.deep_view()));
        }
        stream
    }
}

} // verus!
