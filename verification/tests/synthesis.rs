use llimp::declaration::{Attr, Declaration, Item, Method};
use llimp::failure::{Failure, FailureKind};
use llimp::syntax::extract;
use llimp::synthesis::{
    opens_with_brace, parse_fragments, render, render_method, synthesize, wrap_fragment,
};
use quote::ToTokens;

const GREETER: &str = "impl Greeter for Simple {
    fn greet(&self, name: &str) -> String { /* filled in */ }
    fn exclaim(&self, text: &str) -> String { /* filled in */ }
}";

fn strings(items: &[&str]) -> Vec<String> {
    items.iter().map(|s| s.to_string()).collect()
}

fn printed_by_syn(source: &str) -> String {
    syn::parse_str::<syn::ItemImpl>(source).unwrap().to_token_stream().to_string()
}

#[test]
fn a_fragment_that_opens_a_block_is_kept() {
    assert!(opens_with_brace("{ 1 }"));
    assert!(opens_with_brace("  \n\t{ 1 }"));
    assert!(opens_with_brace("\u{a0}\u{2003}{"));
    assert!(!opens_with_brace(""));
    assert!(!opens_with_brace("   "));
    assert!(!opens_with_brace("x { }"));
    assert!(!opens_with_brace("// note\n{ 1 }"));
    assert_eq!(wrap_fragment("  { 1 }"), "  { 1 }");
}

#[test]
fn a_bare_fragment_is_put_between_braces() {
    assert_eq!(wrap_fragment("name.to_string()"), "{ name.to_string() }");
    assert_eq!(wrap_fragment(""), "{  }");
    assert_eq!(wrap_fragment("let x = { 1 }; x"), "{ let x = { 1 }; x }");
}

#[test]
fn fragments_are_read_as_blocks() {
    let read = parse_fragments(&strings(&["{ a + 1 }", "b.len()", "", "{ }"]));
    assert_eq!(read, Ok(strings(&["a + 1", "b . len ()", "", ""])));
}

#[test]
fn the_first_invalid_fragment_is_reported() {
    assert_eq!(parse_fragments(&strings(&["{ 1 }", "{ ( }", "{ ) }"])), Err(1));
    assert_eq!(parse_fragments(&strings(&["let", "{ 1 }"])), Err(0));
    assert_eq!(parse_fragments(&strings(&["{ 1 } }"])), Err(0));
    assert_eq!(parse_fragments(&strings(&["{ 1 } { 2 }"])), Err(0));
    assert_eq!(parse_fragments(&strings(&["\"open"])), Err(0));
    assert_eq!(parse_fragments(&strings(&[])), Ok(vec![]));
}

#[test]
fn each_method_gets_the_fragment_at_its_place() {
    let decl = extract("impl T for S { fn f(&self) {} fn g(&self) {} fn h(&self) {} }").unwrap();
    let text = synthesize(&decl, &strings(&["B1", "B2", "B3"])).unwrap();
    assert_eq!(
        text,
        "impl T for S { fn f (& self) { B1 } fn g (& self) { B2 } fn h (& self) { B3 } }"
    );
    let other = synthesize(&decl, &strings(&["B3", "B1", "B2"])).unwrap();
    assert_eq!(
        other,
        "impl T for S { fn f (& self) { B3 } fn g (& self) { B1 } fn h (& self) { B2 } }"
    );
}

#[test]
fn the_greeter_is_synthesized() {
    let decl = extract(GREETER).unwrap();
    let fragments = strings(&["{ format!(\"Hi {name}\") }", "{ format!(\"{text}!\") }"]);
    let text = synthesize(&decl, &fragments).unwrap();
    assert_eq!(
        text,
        "impl Greeter for Simple { fn greet (& self , name : & str) -> String { format ! (\"Hi {name}\") } fn exclaim (& self , text : & str) -> String { format ! (\"{text}!\") } }"
    );
    assert_eq!(
        text,
        printed_by_syn(
            "impl Greeter for Simple {
                fn greet(&self, name: &str) -> String { format!(\"Hi {name}\") }
                fn exclaim(&self, text: &str) -> String { format!(\"{text}!\") }
            }"
        )
    );
}

#[test]
fn too_few_fragments_fail() {
    let decl = extract(GREETER).unwrap();
    let got = synthesize(&decl, &strings(&["{ String::new() }"]));
    assert_eq!(got, Err(Failure::FragmentCount { expected: 2, found: 1 }));
    let got = synthesize(&decl, &strings(&[]));
    assert_eq!(got, Err(Failure::FragmentCount { expected: 2, found: 0 }));
}

#[test]
fn too_many_fragments_fail() {
    let decl = extract(GREETER).unwrap();
    let got = synthesize(&decl, &strings(&["{ a }", "{ b }", "{ c }"]));
    assert_eq!(got, Err(Failure::FragmentCount { expected: 2, found: 3 }));
}

#[test]
fn the_count_is_checked_before_any_fragment_is_read() {
    let decl = extract(GREETER).unwrap();
    let got = synthesize(&decl, &strings(&["{ ( }", "{ b }", "{ c }"]));
    assert_eq!(got, Err(Failure::FragmentCount { expected: 2, found: 3 }));
    let got = synthesize(&decl, &strings(&["{ ( }"]));
    assert_eq!(got, Err(Failure::FragmentCount { expected: 2, found: 1 }));
}

#[test]
fn an_invalid_body_names_its_method() {
    let decl = extract(GREETER).unwrap();
    let got = synthesize(&decl, &strings(&["{ name.to_string() }", "{ let }"]));
    assert_eq!(got, Err(Failure::UnparseableBody { index: 1, name: "exclaim".to_string() }));
    let got = synthesize(&decl, &strings(&["fn (", "{ let }"]));
    assert_eq!(got, Err(Failure::UnparseableBody { index: 0, name: "greet".to_string() }));
    let failure = got.unwrap_err();
    assert_eq!(failure.kind(), FailureKind::Validation);
    assert_eq!(
        failure.message(),
        "failed to parse generated body into a block: method greet at position 0"
    );
}

#[test]
fn the_place_counts_methods_not_items() {
    let decl = extract(
        "impl T for S { const N: usize = 1; fn f(&self) {} type A = u8; fn g(&self) {} }",
    )
    .unwrap();
    assert_eq!(decl.method_count(), 2);
    assert_eq!(decl.nth_method(1).name, "g");
    let got = synthesize(&decl, &strings(&["1", "let"]));
    assert_eq!(got, Err(Failure::UnparseableBody { index: 1, name: "g".to_string() }));
}

#[test]
fn other_items_pass_through() {
    let decl = extract(
        "impl T for S { const N: usize = 1; fn f(&self) -> usize {} type A = u8; fn g(&self) {} }",
    )
    .unwrap();
    let text = synthesize(&decl, &strings(&["Self::N", "{ }"])).unwrap();
    assert_eq!(
        text,
        "impl T for S { const N : usize = 1 ; fn f (& self) -> usize { Self :: N } type A = u8 ; fn g (& self) { } }"
    );
    assert_eq!(
        text,
        printed_by_syn(
            "impl T for S { const N: usize = 1; fn f(&self) -> usize { Self::N } type A = u8; fn g(&self) {} }"
        )
    );
}

#[test]
fn the_header_is_rebuilt() {
    let decl = extract(
        "unsafe impl<'a, T: Clone> Tr<'a> for Wrap<T> where T: Send { fn f(&'a self) -> T {} }",
    )
    .unwrap();
    let text = synthesize(&decl, &strings(&["self.0.clone()"])).unwrap();
    assert_eq!(
        text,
        "unsafe impl < 'a , T : Clone > Tr < 'a > for Wrap < T > where T : Send { fn f (& 'a self) -> T { self . 0 . clone () } }"
    );
    assert_eq!(
        text,
        printed_by_syn(
            "unsafe impl<'a, T: Clone> Tr<'a> for Wrap<T> where T: Send { fn f(&'a self) -> T { self.0.clone() } }"
        )
    );
}

#[test]
fn an_inherent_block_has_no_trait() {
    let decl = extract("impl Simple { pub fn new() -> Self {} }").unwrap();
    assert_eq!(decl.interface, None);
    let text = synthesize(&decl, &strings(&["Simple"])).unwrap();
    assert_eq!(text, "impl Simple { pub fn new () -> Self { Simple } }");
    assert_eq!(text, printed_by_syn("impl Simple { pub fn new() -> Self { Simple } }"));
}

#[test]
fn method_metadata_is_kept() {
    let source = "impl T for S {
        /// Says hello.
        #[inline]
        pub(crate) default unsafe fn f<U: Copy>(&mut self, u: U) -> U where U: Send {
            #![allow(unused)]
        }
    }";
    let decl = extract(source).unwrap();
    let text = synthesize(&decl, &strings(&["u"])).unwrap();
    assert_eq!(
        text,
        printed_by_syn(
            "impl T for S {
                /// Says hello.
                #[inline]
                pub(crate) default unsafe fn f<U: Copy>(&mut self, u: U) -> U where U: Send {
                    #![allow(unused)]
                    u
                }
            }"
        )
    );
}

#[test]
fn a_block_without_methods_needs_no_fragment() {
    let decl = extract("impl Marker for S {}").unwrap();
    assert_eq!(synthesize(&decl, &strings(&[])), Ok("impl Marker for S { }".to_string()));
    assert_eq!(
        synthesize(&decl, &strings(&["x"])),
        Err(Failure::FragmentCount { expected: 0, found: 1 })
    );
}

#[test]
fn a_method_is_rendered_from_its_pieces() {
    let method = Method {
        attrs: vec![
            Attr { inner: false, text: "# [inline]".to_string() },
            Attr { inner: true, text: "# ! [allow (unused)]".to_string() },
            Attr { inner: false, text: "# [must_use]".to_string() },
        ],
        visibility: "pub".to_string(),
        is_default: true,
        name: "f".to_string(),
        signature: "fn f ()".to_string(),
    };
    assert_eq!(
        render_method(&method, "1"),
        "# [inline] # [must_use] pub default fn f () { # ! [allow (unused)] 1 }"
    );
    let plain = Method {
        attrs: vec![],
        visibility: String::new(),
        is_default: false,
        name: "f".to_string(),
        signature: "fn f ()".to_string(),
    };
    assert_eq!(render_method(&plain, ""), "fn f () { }");
}

#[test]
fn a_declaration_is_rendered_from_its_pieces() {
    let decl = Declaration {
        is_unsafe: false,
        generics: String::new(),
        interface: Some("T".to_string()),
        self_type: "S".to_string(),
        where_clause: String::new(),
        items: vec![
            Item::Other("type A = u8 ;".to_string()),
            Item::Method(Method {
                attrs: vec![],
                visibility: String::new(),
                is_default: false,
                name: "f".to_string(),
                signature: "fn f ()".to_string(),
            }),
            Item::Other(String::new()),
        ],
    };
    assert_eq!(render(&decl, &strings(&["x"])), "impl T for S { type A = u8 ; fn f () { x } }");
}

#[test]
fn a_text_that_does_not_read_back_is_refused() {
    let decl = Declaration {
        is_unsafe: false,
        generics: String::new(),
        interface: Some("T".to_string()),
        self_type: "S {".to_string(),
        where_clause: String::new(),
        items: vec![],
    };
    let got = synthesize(&decl, &strings(&[]));
    assert_eq!(got, Err(Failure::MalformedResult));
}

#[test]
fn a_text_that_reads_back_as_another_declaration_is_refused() {
    let method = |signature: &str| {
        Item::Method(Method {
            attrs: vec![],
            visibility: String::new(),
            is_default: false,
            name: "f".to_string(),
            signature: signature.to_string(),
        })
    };
    let plain = |items: Vec<Item>| Declaration {
        is_unsafe: false,
        generics: String::new(),
        interface: Some("T".to_string()),
        self_type: "S".to_string(),
        where_clause: String::new(),
        items,
    };
    // an item that is a method, passed off as something else
    let hidden = plain(vec![Item::Other("fn g () { }".to_string()), method("fn f ()")]);
    assert_eq!(synthesize(&hidden, &strings(&["1"])), Err(Failure::MalformedResult));
    // a signature that holds a whole method
    let double = plain(vec![method("fn g () { } fn f ()")]);
    assert_eq!(synthesize(&double, &strings(&["1"])), Err(Failure::MalformedResult));
    // a type that is spelled otherwise than it is printed
    let spelled = Declaration { self_type: "Vec<u8>".to_string(), ..plain(vec![method("fn f ()")]) };
    assert_eq!(synthesize(&spelled, &strings(&["1"])), Err(Failure::MalformedResult));
    // the same, spelled as printed
    let printed = Declaration { self_type: "Vec < u8 >".to_string(), ..plain(vec![method("fn f ()")]) };
    assert_eq!(
        synthesize(&printed, &strings(&["1"])),
        Ok("impl T for Vec < u8 > { fn f () { 1 } }".to_string())
    );
}
