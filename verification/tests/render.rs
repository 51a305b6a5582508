//! Exact token streams for the individual renderers.

use type_match::ast::{ArgToken, TraitAttr};
use type_match::emit::{render_attr, FromImpl, SealImpl, UpcastImpl, UpcastTrait};

fn toks(words: &[&str]) -> Vec<String> {
    words.iter().map(|s| s.to_string()).collect()
}

#[test]
fn seal_impl_tokens() {
    let mut stream: Vec<String> = Vec::new();
    let imp = SealImpl { seal_module: "Lol___sealed_trait_seal".to_string(), impl_type: "Heya".to_string() };
    imp.to_tokens(&mut stream);
    assert_eq!(
        stream,
        toks(&["impl", "Lol___sealed_trait_seal", "::", "Sealed", "for", "Heya", "{", "}"])
    );
}

#[test]
fn from_impl_tokens() {
    let mut stream: Vec<String> = Vec::new();
    let imp = FromImpl { enum_name: "LolEnum".to_string(), impl_type: "Heya".to_string() };
    imp.to_tokens(&mut stream);
    assert_eq!(
        stream,
        toks(&[
            "impl", "::", "core", "::", "convert", "::", "From", "<", "Heya", ">", "for",
            "LolEnum", "{", "fn", "from", "(", "v", ":", "Heya", ")", "->", "Self", "{", "Self",
            "::", "Heya", "(", "v", ")", "}", "}",
        ])
    );
}

#[test]
fn upcast_impl_tokens() {
    let mut stream: Vec<String> = Vec::new();
    let imp = UpcastImpl {
        seal_module: "Lol___sealed_trait_seal".to_string(),
        enum_name: "LolEnum".to_string(),
        impl_type: "Boog".to_string(),
    };
    imp.to_tokens(&mut stream);
    assert_eq!(
        stream,
        toks(&[
            "impl", "Lol___sealed_trait_seal", "::", "Upcast", "for", "Boog", "{", "fn",
            "upcast", "(", "this", ":", "Self", ")", "->", "LolEnum", "{", "LolEnum", "::",
            "Boog", "(", "this", ")", "}", "}",
        ])
    );
}

#[test]
fn upcast_trait_without_default_requires_the_operation() {
    let mut stream: Vec<String> = Vec::new();
    let t = UpcastTrait { target: "LolEnum".to_string(), default: None };
    t.to_tokens(&mut stream);
    assert_eq!(
        stream,
        toks(&[
            "pub", "trait", "Upcast", "{", "fn", "upcast", "(", "this", ":", "Self", ")", "->",
            "super", "::", "LolEnum", ";", "}",
        ])
    );
}

#[test]
fn upcast_trait_with_default_forwards_to_the_path() {
    let mut stream: Vec<String> = Vec::new();
    let t = UpcastTrait {
        target: "LolEnum".to_string(),
        default: Some(vec!["helpers".to_string(), "make".to_string()]),
    };
    t.to_tokens(&mut stream);
    assert_eq!(
        stream,
        toks(&[
            "pub", "trait", "Upcast", "{", "fn", "upcast", "(", "self", ")", "->", "LolEnum",
            "{", "helpers", "::", "make", "(", "self", ")", "}", "}",
        ])
    );
}

#[test]
fn attribute_tokens_with_and_without_arguments() {
    let mut stream: Vec<String> = Vec::new();
    let bare = TraitAttr { path: vec!["doc_like".to_string()], args: Vec::new() };
    render_attr(&mut stream, &bare);
    assert_eq!(stream, toks(&["#", "[", "doc_like", "]"]));

    let mut stream2: Vec<String> = Vec::new();
    let with_args = TraitAttr {
        path: vec!["cfg_like".to_string()],
        args: vec![
            ArgToken::Name("feature".to_string()),
            ArgToken::Equals,
            ArgToken::Other("\"x\"".to_string()),
        ],
    };
    render_attr(&mut stream2, &with_args);
    assert_eq!(
        stream2,
        toks(&["#", "[", "cfg_like", "(", "feature", "=", "\"x\"", ")", "]"])
    );
}
