use llimp::declaration::{copy_option, Context, Declaration, Item, Method};
use llimp::syntax::extract;
use llimp::text::{copy_text, decimal_text, push_option_debug, push_piece, same_text};

#[test]
fn numbers_are_written_in_decimal() {
    assert_eq!(decimal_text(0), "0");
    assert_eq!(decimal_text(7), "7");
    assert_eq!(decimal_text(10), "10");
    assert_eq!(decimal_text(1234567890), "1234567890");
    assert_eq!(decimal_text(u64::MAX), "18446744073709551615");
}

#[test]
fn pieces_are_joined_by_single_spaces() {
    let mut out = String::new();
    push_piece(&mut out, "");
    assert_eq!(out, "");
    push_piece(&mut out, "impl");
    assert_eq!(out, "impl");
    push_piece(&mut out, "");
    assert_eq!(out, "impl");
    push_piece(&mut out, "T");
    push_piece(&mut out, " ");
    assert_eq!(out, "impl T  ");
}

#[test]
fn texts_are_compared_and_copied() {
    assert!(same_text("", ""));
    assert!(same_text("héllo", "héllo"));
    assert!(!same_text("a", "A"));
    assert!(!same_text("a", "ab"));
    assert_eq!(copy_text("x\ny"), "x\ny");
    assert_eq!(copy_option(&Some("x".to_string())), Some("x".to_string()));
    assert_eq!(copy_option(&None), None);
}

#[test]
fn optional_strings_are_written_as_debug_does() {
    for value in [None, Some(""), Some("plain"), Some("q\"uote\\ \n\t\r\0 \u{7f} é \u{301} '")] {
        let owned = value.map(|s| s.to_string());
        let mut out = "x=".to_string();
        push_option_debug(&mut out, &owned);
        assert_eq!(out, format!("x={:?}", owned));
    }
    let mut out = String::new();
    push_option_debug(&mut out, &Some("a\"b".to_string()));
    assert_eq!(out, "Some(\"a\\\"b\")");
}

#[test]
fn a_declaration_is_extracted() {
    let decl = extract(
        "impl<T> Greeter<T> for Simple<T> where T: Clone {
            const N: usize = 2;
            #[inline]
            pub fn greet(&self, name: &str) -> String { todo!() }
            fn exclaim<'a>(&'a self, text: &'a str) -> &'a str { #![allow(unused)] text }
        }",
    )
    .unwrap();
    assert!(!decl.is_unsafe);
    assert_eq!(decl.generics, "< T >");
    assert_eq!(decl.interface, Some("Greeter < T >".to_string()));
    assert_eq!(decl.self_type, "Simple < T >");
    assert_eq!(decl.where_clause, "where T : Clone");
    assert_eq!(decl.items.len(), 3);
    assert_eq!(decl.items[0], Item::Other("const N : usize = 2 ;".to_string()));
    match &decl.items[1] {
        Item::Method(m) => {
            assert_eq!(m.name, "greet");
            assert_eq!(m.visibility, "pub");
            assert!(!m.is_default);
            assert_eq!(m.signature, "fn greet (& self , name : & str) -> String");
            assert_eq!(m.attrs.len(), 1);
            assert!(!m.attrs[0].inner);
            assert_eq!(m.attrs[0].text, "# [inline]");
        }
        other => panic!("not a method: {other:?}"),
    }
    match &decl.items[2] {
        Item::Method(m) => {
            assert_eq!(m.name, "exclaim");
            assert_eq!(m.visibility, "");
            assert_eq!(m.signature, "fn exclaim < 'a > (& 'a self , text : & 'a str) -> & 'a str");
            assert_eq!(m.attrs.len(), 1);
            assert!(m.attrs[0].inner);
        }
        other => panic!("not a method: {other:?}"),
    }
}

#[test]
fn the_context_lists_the_signatures_in_order() {
    let decl = extract(
        "impl Tr for S { fn b(&self) {} type A = u8; fn a(&self) {} fn c() -> u8 {} const K: u8 = 0; }",
    )
    .unwrap();
    let ctx = decl.context(Some("hint".to_string()));
    assert_eq!(
        ctx,
        Context {
            interface: Some("Tr".to_string()),
            self_type: "S".to_string(),
            signatures: vec![
                "fn b (& self)".to_string(),
                "fn a (& self)".to_string(),
                "fn c () -> u8".to_string()
            ],
            hint: Some("hint".to_string()),
        }
    );
    assert_eq!(decl.method_count(), 3);
    assert_eq!(decl.nth_method(0).name, "b");
    assert_eq!(decl.nth_method(1).name, "a");
    assert_eq!(decl.nth_method(2).name, "c");
    assert_eq!(decl.context(None).hint, None);
}

#[test]
fn a_hand_made_declaration_has_a_context() {
    let method = |name: &str| {
        Item::Method(Method {
            attrs: vec![],
            visibility: String::new(),
            is_default: false,
            name: name.to_string(),
            signature: format!("fn {name} ()"),
        })
    };
    let decl = Declaration {
        is_unsafe: false,
        generics: String::new(),
        interface: None,
        self_type: "S".to_string(),
        where_clause: String::new(),
        items: vec![Item::Other("x".to_string()), method("f"), method("g")],
    };
    let ctx = decl.context(None);
    assert_eq!(ctx.interface, None);
    assert_eq!(ctx.signatures, vec!["fn f ()".to_string(), "fn g ()".to_string()]);
    assert_eq!(decl.method_count(), 2);
}

#[test]
fn contexts_are_compared_part_by_part() {
    let base = Context {
        interface: Some("T".to_string()),
        self_type: "S".to_string(),
        signatures: vec!["fn f ()".to_string(), "fn g ()".to_string()],
        hint: None,
    };
    assert!(base.same_as(&base.clone()));
    assert!(!base.same_as(&Context { interface: None, ..base.clone() }));
    assert!(!base.same_as(&Context { interface: Some("U".to_string()), ..base.clone() }));
    assert!(!base.same_as(&Context { self_type: "s".to_string(), ..base.clone() }));
    assert!(!base.same_as(&Context { hint: Some(String::new()), ..base.clone() }));
    assert!(!base.same_as(&Context { signatures: vec!["fn f ()".to_string()], ..base.clone() }));
    assert!(!base.same_as(&Context {
        signatures: vec!["fn g ()".to_string(), "fn f ()".to_string()],
        ..base.clone()
    }));
    assert!(!base.same_as(&Context {
        signatures: vec!["fn f ()".to_string(), "fn g ()".to_string(), "fn h ()".to_string()],
        ..base.clone()
    }));
}
