//! The declaration whose methods are to be filled in, held as plain text
//! pieces, and the context that identifies it.

use vstd::prelude::*;
use crate::text::{copy_text, same_text};

verus! {

/// An attribute of a method, as written.
#[derive(Clone, Debug, PartialEq, Eq)]
pub struct Attr {
    /// `true` for `#![..]`, which belongs inside the body; `false` for `#[..]`.
    pub inner: bool,
    pub text: String,
}

pub struct AttrView {
    pub inner: bool,
    pub text: Seq<char>,
}

impl View for Attr {
    type V = AttrView;

    open spec fn view(&self) -> AttrView {
        AttrView { inner: self.inner, text: self.text@ }
    }
}

/// A method of the declaration without its body.
#[derive(Clone, Debug, PartialEq, Eq)]
pub struct Method {
    pub attrs: Vec<Attr>,
    /// `pub`, `pub(crate)`, ... or empty.
    pub visibility: String,
    /// Whether the method is marked `default`.
    pub is_default: bool,
    /// The method's identifier.
    pub name: String,
    /// From `fn` (or its qualifiers) to the return type and `where` clause.
    pub signature: String,
}

pub struct MethodView {
    pub attrs: Seq<AttrView>,
    pub visibility: Seq<char>,
    pub is_default: bool,
    pub name: Seq<char>,
    pub signature: Seq<char>,
}

impl View for Method {
    type V = MethodView;

    open spec fn view(&self) -> MethodView {
        MethodView {
            attrs: attr_views(self.attrs@),
            visibility: self.visibility@,
            is_default: self.is_default,
            name: self.name@,
            signature: self.signature@,
        }
    }
}

/// One item of the declaration's body.
#[derive(Clone, Debug, PartialEq, Eq)]
pub enum Item {
    /// A method, whose body is to be generated.
    Method(Method),
    /// Anything else (constants, types, macros), passed through as written.
    Other(String),
}

pub enum ItemView {
    Method(MethodView),
    Other(Seq<char>),
}

impl View for Item {
    type V = ItemView;

    open spec fn view(&self) -> ItemView {
        match self {
            Item::Method(m) => ItemView::Method(m@),
            Item::Other(t) => ItemView::Other(t@),
        }
    }
}

/// An `impl` block: its header in pieces and its items in order.
#[derive(Clone, Debug, PartialEq, Eq)]
pub struct Declaration {
    pub is_unsafe: bool,
    /// The generic parameters with their angle brackets, or empty.
    pub generics: String,
    /// The implemented trait, if any.
    pub interface: Option<String>,
    /// The type the block is for.
    pub self_type: String,
    /// The `where` clause, or empty.
    pub where_clause: String,
    pub items: Vec<Item>,
}

pub struct DeclarationView {
    pub is_unsafe: bool,
    pub generics: Seq<char>,
    pub interface: Option<Seq<char>>,
    pub self_type: Seq<char>,
    pub where_clause: Seq<char>,
    pub items: Seq<ItemView>,
}

impl View for Declaration {
    type V = DeclarationView;

    open spec fn view(&self) -> DeclarationView {
        DeclarationView {
            is_unsafe: self.is_unsafe,
            generics: self.generics@,
            interface: text_option(self.interface),
            self_type: self.self_type@,
            where_clause: self.where_clause@,
            items: item_views(self.items@),
        }
    }
}

/// What identifies a declaration for caching and for the backend: the trait,
/// the type, the method signatures in order, and the caller's hint.
#[derive(Clone, Debug, PartialEq, Eq)]
pub struct Context {
    pub interface: Option<String>,
    pub self_type: String,
    pub signatures: Vec<String>,
    pub hint: Option<String>,
}

pub struct ContextView {
    pub interface: Option<Seq<char>>,
    pub self_type: Seq<char>,
    pub signatures: Seq<Seq<char>>,
    pub hint: Option<Seq<char>>,
}

impl View for Context {
    type V = ContextView;

    open spec fn view(&self) -> ContextView {
        ContextView {
            interface: text_option(self.interface),
            self_type: self.self_type@,
            signatures: texts(self.signatures@),
            hint: text_option(self.hint),
        }
    }
}

/// The view of each attribute of a list.
pub open spec fn attr_views(attrs: Seq<Attr>) -> Seq<AttrView> {
    Seq::new(attrs.len(), |i: int| attrs[i]@)
}

/// The view of each item of a list.
pub open spec fn item_views(items: Seq<Item>) -> Seq<ItemView> {
    Seq::new(items.len(), |i: int| items[i]@)
}

/// The characters of an optional string.
pub open spec fn text_option(o: Option<String>) -> Option<Seq<char>> {
    match o {
        Some(s) => Some(s@),
        None => None,
    }
}

/// The characters of each string of a list.
pub open spec fn texts(items: Seq<String>) -> Seq<Seq<char>> {
    Seq::new(items.len(), |i: int| items[i]@)
}

/// The methods among `items`, in the order in which they stand.
pub open spec fn methods_of(items: Seq<ItemView>) -> Seq<MethodView>
    decreases items.len(),
{
    if items.len() == 0 {
        Seq::empty()
    } else {
        let before = methods_of(items.drop_last());
        match items.last() {
            ItemView::Method(m) => before.push(m),
            ItemView::Other(_) => before,
        }
    }
}

/// The signature of each method.
pub open spec fn signatures_of(methods: Seq<MethodView>) -> Seq<Seq<char>> {
    Seq::new(methods.len(), |i: int| methods[i].signature)
}

/// The context of a declaration under a given hint.
pub open spec fn context_of(decl: DeclarationView, hint: Option<Seq<char>>) -> ContextView {
    ContextView {
        interface: decl.interface,
        self_type: decl.self_type,
        signatures: signatures_of(methods_of(decl.items)),
        hint,
    }
}

/// Taking one more item either adds its method or changes nothing.
pub proof fn lemma_methods_step(items: Seq<ItemView>, i: int)
    requires
        0 <= i < items.len(),
    ensures
        methods_of(items.take(i + 1)) == match items[i] {
            ItemView::Method(m) => methods_of(items.take(i)).push(m),
            ItemView::Other(_) => methods_of(items.take(i)),
        },
{
    assert(items.take(i + 1).drop_last() =~= items.take(i));
}

/// The methods among the first `i` items are the first methods of all.
pub proof fn lemma_methods_prefix(items: Seq<ItemView>, i: int)
    requires
        0 <= i <= items.len(),
    ensures
        methods_of(items.take(i)).len() <= methods_of(items).len(),
        methods_of(items.take(i)) == methods_of(items).take(
            methods_of(items.take(i)).len() as int,
        ),
    decreases items.len(),
{
    if i == items.len() {
        assert(items.take(i) =~= items);
        assert(methods_of(items).take(methods_of(items).len() as int) =~= methods_of(items));
    } else {
        assert(items.drop_last().take(i) =~= items.take(i));
        lemma_methods_prefix(items.drop_last(), i);
        let shorter = methods_of(items.drop_last());
        let k = methods_of(items.take(i)).len() as int;
        assert(shorter.take(k) =~= methods_of(items).take(k));
    }
}

/// A copy of an optional string.
pub fn copy_option(o: &Option<String>) -> (r: Option<String>)
    ensures
        text_option(r) == text_option(*o),
{
    match o {
        Some(s) => Some(copy_text(s.as_str())),
        None => None,
    }
}

impl Declaration {
    /// How many methods the declaration has.
    pub fn method_count(&self) -> (n: usize)
        ensures
            n == methods_of(self@.items).len(),
    {
        let mut n: usize = 0;
        let mut i: usize = 0;
        while i < self.items.len()
            invariant
                i <= self.items.len(),
                n == methods_of(self@.items.take(i as int)).len(),
                n <= i,
            decreases self.items.len() - i,
        {
            proof {
                lemma_methods_step(self@.items, i as int);
            }
            match &self.items[i] {
                Item::Method(_) => {
                    n = n + 1;
                },
                Item::Other(_) => {},
            }
            i = i + 1;
        }
        assert(self@.items.take(i as int) =~= self@.items);
        n
    }

    /// The method that stands at place `k` among the methods.
    pub fn nth_method(&self, k: usize) -> (m: &Method)
        requires
            k < methods_of(self@.items).len(),
        ensures
            m@ == methods_of(self@.items)[k as int],
    {
        let mut seen: usize = 0;
        let mut i: usize = 0;
        loop
            invariant
                i <= self.items.len(),
                seen == methods_of(self@.items.take(i as int)).len(),
                seen <= k < methods_of(self@.items).len(),
                seen <= i,
            decreases self.items.len() - i,
        {
            proof {
                if i == self.items.len() {
                    assert(self@.items.take(i as int) =~= self@.items);
                } else {
                    lemma_methods_step(self@.items, i as int);
                    lemma_methods_prefix(self@.items, i + 1);
                }
            }
            match &self.items[i] {
                Item::Method(m) => {
                    if seen == k {
                        proof {
                            let upto = methods_of(self@.items.take(i + 1));
                            assert(upto == methods_of(self@.items.take(i as int)).push(m@));
                            assert(upto[k as int] == m@);
                            assert(methods_of(self@.items).take(upto.len() as int)[k as int]
                                == methods_of(self@.items)[k as int]);
                        }
                        return m;
                    }
                    seen = seen + 1;
                },
                Item::Other(_) => {},
            }
            i = i + 1;
        }
    }

    /// The context of this declaration: its trait and type, the signatures of
    /// its methods in the order written, and `hint`.
    pub fn context(&self, hint: Option<String>) -> (ctx: Context)
        ensures
            ctx@ == context_of(self@, text_option(hint)),
    {
        let mut signatures: Vec<String> = Vec::new();
        let mut i: usize = 0;
        while i < self.items.len()
            invariant
                i <= self.items.len(),
                texts(signatures@) == signatures_of(methods_of(self@.items.take(i as int))),
            decreases self.items.len() - i,
        {
            proof {
                lemma_methods_step(self@.items, i as int);
            }
            let ghost before = signatures@;
            match &self.items[i] {
                Item::Method(m) => {
                    signatures.push(copy_text(m.signature.as_str()));
                    assert(texts(signatures@) =~= texts(before).push(m@.signature));
                    assert(signatures_of(methods_of(self@.items.take(i as int)).push(m@))
                        =~= signatures_of(methods_of(self@.items.take(i as int))).push(
                        m@.signature,
                    ));
                },
                Item::Other(_) => {},
            }
            i = i + 1;
        }
        assert(self@.items.take(i as int) =~= self@.items);
        Context {
            interface: copy_option(&self.interface),
            self_type: copy_text(self.self_type.as_str()),
            signatures,
            hint,
        }
    }
}

/// Whether two optional strings hold the same.
pub fn same_option(a: &Option<String>, b: &Option<String>) -> (r: bool)
    ensures
        r == (text_option(*a) == text_option(*b)),
{
    match (a, b) {
        (Some(x), Some(y)) => same_text(x.as_str(), y.as_str()),
        (None, None) => true,
        _ => false,
    }
}

/// Whether two lists hold the same strings in the same order.
pub fn same_texts(a: &Vec<String>, b: &Vec<String>) -> (r: bool)
    ensures
        r == (texts(a@) == texts(b@)),
{
    if a.len() != b.len() {
        assert(texts(a@).len() != texts(b@).len());
        return false;
    }
    let mut i: usize = 0;
    while i < a.len()
        invariant
            i <= a.len(),
            a.len() == b.len(),
            forall|j: int| 0 <= j < i ==> a@[j]@ == b@[j]@,
        decreases a.len() - i,
    {
        if !same_text(a[i].as_str(), b[i].as_str()) {
            assert(texts(a@)[i as int] != texts(b@)[i as int]);
            return false;
        }
        i = i + 1;
    }
    assert(texts(a@) =~= texts(b@));
    true
}

impl Context {
    /// Whether two contexts are the same in every part.
    pub fn same_as(&self, other: &Context) -> (r: bool)
        ensures
            r == (self@ == other@),
    {
        same_option(&self.interface, &other.interface) && same_text(
            self.self_type.as_str(),
            other.self_type.as_str(),
        ) && same_texts(&self.signatures, &other.signatures) && same_option(
            &self.hint,
            &other.hint,
        )
    }
}

} // verus!
