//! Plain-data model of the pieces of syntax the transformation reads and
//! writes: attribute argument tokens, attributes, and trait declarations.
//! Identifiers are carried as strings; a frontend converts the host
//! language's own syntax tree into this model and back.

use vstd::prelude::*;

verus! {

/// One token of the argument list inside a `seal(...)` attribute.
#[derive(Debug)]
pub enum ArgToken {
    /// The `enum` keyword.
    KwEnum,
    /// An `=` sign.
    Equals,
    /// A `,` separator.
    Comma,
    /// An identifier that is not a keyword.
    Name(String),
    /// Any other token, carried as its text; never accepted by the grammar.
    Other(String),
}

/// Mathematical value of an [`ArgToken`].
pub enum ArgTokenView {
    KwEnum,
    Equals,
    Comma,
    Name(Seq<char>),
    Other(Seq<char>),
}

impl DeepView for ArgToken {
    type V = ArgTokenView;

    open spec fn deep_view(&self) -> ArgTokenView {
        match self {
            ArgToken::KwEnum => ArgTokenView::KwEnum,
            ArgToken::Equals => ArgTokenView::Equals,
            ArgToken::Comma => ArgTokenView::Comma,
            ArgToken::Name(s) => ArgTokenView::Name(s@),
            ArgToken::Other(s) => ArgTokenView::Other(s@),
        }
    }
}

/// An attribute attached to a trait declaration: its path, as segments, and
/// the tokens of its parenthesised argument list (empty when the attribute
/// has no arguments).
#[derive(Debug)]
pub struct TraitAttr {
    pub path: Vec<String>,
    pub args: Vec<ArgToken>,
}

/// Mathematical value of a [`TraitAttr`].
pub struct TraitAttrView {
    pub path: Seq<Seq<char>>,
    pub args: Seq<ArgTokenView>,
}

impl DeepView for TraitAttr {
    type V = TraitAttrView;

    open spec fn deep_view(&self) -> TraitAttrView {
        TraitAttrView { path: self.path.deep_view(), args: self.args.deep_view() }
    }
}

impl Clone for ArgToken {
    /// Cloning a token keeps its value.
    fn clone(&self) -> (res: Self)
        ensures
            res.deep_view() == self.deep_view(),
    {
        match self {
            ArgToken::KwEnum => ArgToken::KwEnum,
            ArgToken::Equals => ArgToken::Equals,
            ArgToken::Comma => ArgToken::Comma,
            ArgToken::Name(s) => ArgToken::Name(s.clone()),
            ArgToken::Other(s) => ArgToken::Other(s.clone()),
        }
    }
}

/// Copy a vector of strings, value for value.
pub fn clone_strings(v: &Vec<String>) -> (r: Vec<String>)
    ensures
        r@ == v@,
{
    let mut r: Vec<String> = Vec::new();
    let mut i: usize = 0;
    while i < v.len()
        invariant
            i <= v@.len(),
            r@ == v@.subrange(0, i as int),
        decreases v@.len() - i,
    {
        r.push(v[i].clone());
        proof {
            assert(r@ =~= v@.subrange(0, i + 1));
        }
        i = i + 1;
    }
    proof {
        assert(v@.subrange(0, v@.len() as int) =~= v@);
    }
    r
}

/// Copy a vector of argument tokens, value for value.
pub fn clone_arg_tokens(v: &Vec<ArgToken>) -> (r: Vec<ArgToken>)
    ensures
        r.deep_view() == v.deep_view(),
{
    let mut r: Vec<ArgToken> = Vec::new();
    let mut i: usize = 0;
    while i < v.len()
        invariant
            i <= v@.len(),
            r.deep_view() == v.deep_view().subrange(0, i as int),
        decreases v@.len() - i,
    {
        let ghost rb_seq = r@;
        let ghost r_before = r.deep_view();
        let c = v[i].clone();
        let ghost c_val = c;
        r.push(c);
        proof {
            assert(r@ == rb_seq.push(c_val));
            assert(r_before.len() == i as int);
            assert(rb_seq.len() == i as int);
            assert forall|k: int| 0 <= k < r.deep_view().len() implies r.deep_view()[k]
                == v.deep_view().subrange(0, i + 1)[k] by {
                assert(r.deep_view()[k] == r@[k].deep_view());
                if k < i {
                    assert(rb_seq.push(c_val)[k] == rb_seq[k]);
                    assert(r_before[k] == rb_seq[k].deep_view());
                    assert(r_before[k] == v.deep_view().subrange(0, i as int)[k]);
                } else {
                    assert(rb_seq.push(c_val)[k] == c_val);
                }
                assert(v.deep_view().subrange(0, i + 1)[k] == v.deep_view()[k]);
                assert(v.deep_view()[k] == v@[k].deep_view());
            }
            assert(r.deep_view() =~= v.deep_view().subrange(0, i + 1));
        }
        i = i + 1;
    }
    proof {
        assert(v.deep_view().subrange(0, v.deep_view().len() as int) =~= v.deep_view());
    }
    r
}

impl Clone for TraitAttr {
    /// Cloning an attribute keeps its value.
    fn clone(&self) -> (res: Self)
        ensures
            res.deep_view() == self.deep_view(),
    {
        let res = TraitAttr { path: clone_strings(&self.path), args: clone_arg_tokens(&self.args) };
        proof {
            assert(res.path.deep_view() =~= self.path.deep_view());
        }
        res
    }
}

/// An attribute is a seal attribute when the first segment of its path is
/// the word `seal`.
pub open spec fn spec_is_seal_attr(a: TraitAttrView) -> bool {
    a.path.len() > 0 && a.path[0] == "seal"@
}

/// One item inside a trait declaration.
#[derive(Debug)]
pub enum TraitItemDecl {
    /// An item of the original declaration, carried through unchanged as its
    /// lexemes.
    Verbatim(Vec<String>),
    /// The spliced-in convenience method: a default-bodied method named
    /// `method` returning the enum `enum_name`, forwarding to the upcast
    /// contract inside the hidden module `seal_module`.
    UpcastMethod { method: String, enum_name: String, seal_module: String },
}

/// Mathematical value of a [`TraitItemDecl`].
pub enum TraitItemDeclView {
    Verbatim(Seq<Seq<char>>),
    UpcastMethod { method: Seq<char>, enum_name: Seq<char>, seal_module: Seq<char> },
}

impl DeepView for TraitItemDecl {
    type V = TraitItemDeclView;

    open spec fn deep_view(&self) -> TraitItemDeclView {
        match self {
            TraitItemDecl::Verbatim(toks) => TraitItemDeclView::Verbatim(toks.deep_view()),
            TraitItemDecl::UpcastMethod { method, enum_name, seal_module } => (
                TraitItemDeclView::UpcastMethod {
                    method: method@,
                    enum_name: enum_name@,
                    seal_module: seal_module@,
                }
            ),
        }
    }
}

/// The trait declaration being transformed: attributes, visibility lexemes
/// (empty for inherited visibility), name, supertrait paths and items.
#[derive(Debug)]
pub struct TraitDecl {
    pub attrs: Vec<TraitAttr>,
    pub vis: Vec<String>,
    pub name: String,
    pub supertraits: Vec<Vec<String>>,
    pub items: Vec<TraitItemDecl>,
}

/// Mathematical value of a [`TraitDecl`].
pub struct TraitDeclView {
    pub attrs: Seq<TraitAttrView>,
    pub vis: Seq<Seq<char>>,
    pub name: Seq<char>,
    pub supertraits: Seq<Seq<Seq<char>>>,
    pub items: Seq<TraitItemDeclView>,
}

impl DeepView for TraitDecl {
    type V = TraitDeclView;

    open spec fn deep_view(&self) -> TraitDeclView {
        TraitDeclView {
            attrs: self.attrs.deep_view(),
            vis: self.vis.deep_view(),
            name: self.name@,
            supertraits: self.supertraits.deep_view(),
            items: self.items.deep_view(),
        }
    }
}

/// Pushing onto a vector pushes the element's deep view onto the vector's
/// deep view.
pub proof fn lemma_vec_push_deep<T: DeepView>(pre: Vec<T>, post: Vec<T>, x: T)
    requires
        post@ == pre@.push(x),
    ensures
        post.deep_view() == pre.deep_view().push(x.deep_view()),
{
    assert forall|k: int| 0 <= k < post.deep_view().len() implies post.deep_view()[k]
        == pre.deep_view().push(x.deep_view())[k] by {
        assert(post.deep_view()[k] == post@[k].deep_view());
        if k < pre@.len() {
            assert(pre@.push(x)[k] == pre@[k]);
            assert(pre.deep_view()[k] == pre@[k].deep_view());
            assert(pre.deep_view().push(x.deep_view())[k] == pre@[k].deep_view());
        } else {
            assert(pre@.push(x)[k] == x);
            assert(pre.deep_view().push(x.deep_view())[k] == x.deep_view());
        }
    }
    assert(post.deep_view() =~= pre.deep_view().push(x.deep_view()));
}

impl Clone for TraitItemDecl {
    /// Cloning a trait item keeps its value.
    fn clone(&self) -> (res: Self)
        ensures
            res.deep_view() == self.deep_view(),
    {
        match self {
            TraitItemDecl::Verbatim(toks) => {
                let copied = clone_strings(toks);
                proof {
                    assert(copied.deep_view() =~= toks.deep_view());
                }
                TraitItemDecl::Verbatim(copied)
            },
            TraitItemDecl::UpcastMethod { method, enum_name, seal_module } => (
                TraitItemDecl::UpcastMethod {
                    method: method.clone(),
                    enum_name: enum_name.clone(),
                    seal_module: seal_module.clone(),
                }
            ),
        }
    }
}

/// Copy a vector of attributes, value for value.
pub fn clone_attrs(v: &Vec<TraitAttr>) -> (r: Vec<TraitAttr>)
    ensures
        r.deep_view() == v.deep_view(),
{
    let mut r: Vec<TraitAttr> = Vec::new();
    let mut i: usize = 0;
    proof {
        assert(r.deep_view() =~= Seq::<TraitAttrView>::empty());
    }
    while i < v.len()
        invariant
            i <= v@.len(),
            r.deep_view() == v.deep_view().subrange(0, i as int),
        decreases v@.len() - i,
    {
        let ghost pre = r;
        let c = v[i].clone();
        let ghost cv = c;
        r.push(c);
        proof {
            lemma_vec_push_deep(pre, r, cv);
            assert(v.deep_view()[i as int] == v@[i as int].deep_view());
            assert(r.deep_view() =~= v.deep_view().subrange(0, i + 1));
        }
        i = i + 1;
    }
    proof {
        assert(v.deep_view().subrange(0, v.deep_view().len() as int) =~= v.deep_view());
    }
    r
}

/// Copy a vector of paths, value for value.
pub fn clone_paths(v: &Vec<Vec<String>>) -> (r: Vec<Vec<String>>)
    ensures
        r.deep_view() == v.deep_view(),
{
    let mut r: Vec<Vec<String>> = Vec::new();
    let mut i: usize = 0;
    proof {
        assert(r.deep_view() =~= Seq::<Seq<Seq<char>>>::empty());
    }
    while i < v.len()
        invariant
            i <= v@.len(),
            r.deep_view() == v.deep_view().subrange(0, i as int),
        decreases v@.len() - i,
    {
        let ghost pre = r;
        let c = clone_strings(&v[i]);
        let ghost cv = c;
        proof {
            assert(cv.deep_view() =~= v@[i as int].deep_view());
        }
        r.push(c);
        proof {
            lemma_vec_push_deep(pre, r, cv);
            assert(v.deep_view()[i as int] == v@[i as int].deep_view());
            assert(r.deep_view() =~= v.deep_view().subrange(0, i + 1));
        }
        i = i + 1;
    }
    proof {
        assert(v.deep_view().subrange(0, v.deep_view().len() as int) =~= v.deep_view());
    }
    r
}

/// Copy a vector of trait items, value for value.
pub fn clone_items(v: &Vec<TraitItemDecl>) -> (r: Vec<TraitItemDecl>)
    ensures
        r.deep_view() == v.deep_view(),
{
    let mut r: Vec<TraitItemDecl> = Vec::new();
    let mut i: usize = 0;
    proof {
        assert(r.deep_view() =~= Seq::<TraitItemDeclView>::empty());
    }
    while i < v.len()
        invariant
            i <= v@.len(),
            r.deep_view() == v.deep_view().subrange(0, i as int),
        decreases v@.len() - i,
    {
        let ghost pre = r;
        let c = v[i].clone();
        let ghost cv = c;
        r.push(c);
        proof {
            lemma_vec_push_deep(pre, r, cv);
            assert(v.deep_view()[i as int] == v@[i as int].deep_view());
            assert(r.deep_view() =~= v.deep_view().subrange(0, i + 1));
        }
        i = i + 1;
    }
    proof {
        assert(v.deep_view().subrange(0, v.deep_view().len() as int) =~= v.deep_view());
    }
    r
}

} // verus!
