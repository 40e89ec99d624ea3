//! Validates the generated fragments against a declaration and splices them
//! into it. Either every method gets its body, in order, or nothing is
//! produced.

use vstd::prelude::*;
use vstd::string::{StrSliceExecFns, StringExecFns};
use crate::declaration::{
    attr_views, context_of, lemma_methods_prefix, lemma_methods_step, methods_of, texts, Attr,
    AttrView, Declaration, DeclarationView, Item, ItemView, Method, MethodView,
};
use crate::failure::{Failure, FailureView};
use crate::syntax::{block_statements, declaration_of, parse_block, parse_declaration};
use crate::text::{
    append_all, char_is_white_space, copy_text, is_white_space, join_pieces,
    lemma_append_all_concat, lemma_append_all_push, lemma_append_two, push_piece,
};

verus! {

/// Whether the first character of `text` that is not white space is `{`.
pub open spec fn opens_block(text: Seq<char>) -> bool
    decreases text.len(),
{
    text.len() > 0 && (text[0] == '{' || (is_white_space(text[0]) && opens_block(
        text.drop_first(),
    )))
}

/// A fragment as it is handed to the parser: as it is where it already opens
/// a block, else put between braces.
pub open spec fn wrapped(fragment: Seq<char>) -> Seq<char> {
    if opens_block(fragment) {
        fragment
    } else {
        "{ "@ + fragment + " }"@
    }
}

/// The statements of a fragment, or `None` where it is no valid body.
pub open spec fn fragment_statements(fragment: Seq<char>) -> Option<Seq<char>> {
    block_statements(wrapped(fragment))
}

/// The place of the first fragment that is no valid body, if there is one.
pub open spec fn first_invalid(fragments: Seq<Seq<char>>) -> Option<nat>
    decreases fragments.len(),
{
    if fragments.len() == 0 {
        None
    } else {
        match first_invalid(fragments.drop_last()) {
            Some(i) => Some(i),
            None => if fragment_statements(fragments.last()) is None {
                Some((fragments.len() - 1) as nat)
            } else {
                None
            },
        }
    }
}

/// The statements of each fragment, where all of them are valid bodies.
pub open spec fn all_statements(fragments: Seq<Seq<char>>) -> Seq<Seq<char>> {
    Seq::new(fragments.len(), |i: int| fragment_statements(fragments[i]).unwrap())
}

/// The texts of the attributes that are inner (or outer) ones, in order.
pub open spec fn attr_pieces(attrs: Seq<AttrView>, inner: bool) -> Seq<Seq<char>>
    decreases attrs.len(),
{
    if attrs.len() == 0 {
        Seq::empty()
    } else {
        let before = attr_pieces(attrs.drop_last(), inner);
        if attrs.last().inner == inner {
            before.push(attrs.last().text)
        } else {
            before
        }
    }
}

/// The word `default`, or nothing.
pub open spec fn default_piece(is_default: bool) -> Seq<char> {
    if is_default {
        "default"@
    } else {
        Seq::empty()
    }
}

/// The word `unsafe`, or nothing.
pub open spec fn unsafe_piece(is_unsafe: bool) -> Seq<char> {
    if is_unsafe {
        "unsafe"@
    } else {
        Seq::empty()
    }
}

/// A method with `statements` as its body: its outer attributes, visibility
/// and signature as extracted, then the body in braces, led by the method's
/// inner attributes.
pub open spec fn method_text(m: MethodView, statements: Seq<char>) -> Seq<char> {
    join_pieces(
        attr_pieces(m.attrs, false) + seq![
            m.visibility,
            default_piece(m.is_default),
            m.signature,
            "{"@,
        ] + attr_pieces(m.attrs, true) + seq![statements, "}"@],
    )
}

/// The text of item `i`: a method gets the statements whose place among
/// `statements` is the method's place among the methods; any other item is
/// passed through.
pub open spec fn item_text(items: Seq<ItemView>, statements: Seq<Seq<char>>, i: int) -> Seq<
    char,
> {
    match items[i] {
        ItemView::Method(m) => method_text(
            m,
            statements[methods_of(items.take(i)).len() as int],
        ),
        ItemView::Other(t) => t,
    }
}

/// The texts of the first `n` items.
pub open spec fn item_texts(items: Seq<ItemView>, statements: Seq<Seq<char>>, n: int) -> Seq<
    Seq<char>,
> {
    Seq::new(n as nat, |i: int| item_text(items, statements, i))
}

/// The pieces of the header: `unsafe`, `impl`, the generic parameters, the
/// trait and `for` where there is a trait, the type, the `where` clause.
pub open spec fn header_pieces(decl: DeclarationView) -> Seq<Seq<char>> {
    seq![unsafe_piece(decl.is_unsafe), "impl"@, decl.generics] + (match decl.interface {
        Some(t) => seq![t, "for"@],
        None => Seq::empty(),
    }) + seq![decl.self_type, decl.where_clause]
}

/// The declaration with each method's body replaced: the header, then the
/// items in their order between braces.
pub open spec fn rendered(decl: DeclarationView, statements: Seq<Seq<char>>) -> Seq<char> {
    join_pieces(
        header_pieces(decl) + seq!["{"@] + item_texts(
            decl.items,
            statements,
            decl.items.len() as int,
        ) + seq!["}"@],
    )
}

/// Whether a text reads back as the declaration it was made from: as an
/// `impl` block of the same trait for the same type, with methods of the
/// same signatures in the same order.
pub open spec fn reads_back(decl: DeclarationView, text: Seq<char>) -> bool {
    match declaration_of(text) {
        Some(again) => context_of(again, None) == context_of(decl, None),
        None => false,
    }
}

/// What synthesis gives for a declaration and the fragments of a response.
///
/// The number of fragments is checked first, then each fragment in order,
/// then the text that was put together.
pub open spec fn synthesis(decl: DeclarationView, fragments: Seq<Seq<char>>) -> Result<
    Seq<char>,
    FailureView,
> {
    let methods = methods_of(decl.items);
    if fragments.len() != methods.len() {
        Err(FailureView::FragmentCount { expected: methods.len(), found: fragments.len() })
    } else {
        match first_invalid(fragments) {
            Some(i) => Err(FailureView::UnparseableBody { index: i, name: methods[i as int].name }),
            None => {
                let text = rendered(decl, all_statements(fragments));
                if reads_back(decl, text) {
                    Ok(text)
                } else {
                    Err(FailureView::MalformedResult)
                }
            },
        }
    }
}

/// Whether the first character of `text` that is not white space is `{`.
pub fn opens_with_brace(text: &str) -> (r: bool)
    ensures
        r == opens_block(text@),
{
    let n = text.unicode_len();
    let mut i: usize = 0;
    assert(text@.skip(0) =~= text@);
    while i < n
        invariant
            i <= n,
            n == text@.len(),
            opens_block(text@) == opens_block(text@.skip(i as int)),
        decreases n - i,
    {
        let c = text.get_char(i);
        assert(text@.skip(i as int)[0] == c);
        if c == '{' {
            return true;
        }
        if !char_is_white_space(c) {
            return false;
        }
        assert(text@.skip(i as int).drop_first() =~= text@.skip(i + 1));
        i = i + 1;
    }
    false
}

/// Puts a fragment between braces unless it already opens a block.
pub fn wrap_fragment(fragment: &str) -> (r: String)
    ensures
        r@ == wrapped(fragment@),
{
    if opens_with_brace(fragment) {
        copy_text(fragment)
    } else {
        let mut r = copy_text("{ ");
        r.append(fragment);
        r.append(" }");
        r
    }
}

proof fn lemma_attr_pieces_step(attrs: Seq<AttrView>, inner: bool, i: int)
    requires
        0 <= i < attrs.len(),
    ensures
        attr_pieces(attrs.take(i + 1), inner) == if attrs[i].inner == inner {
            attr_pieces(attrs.take(i), inner).push(attrs[i].text)
        } else {
            attr_pieces(attrs.take(i), inner)
        },
{
    assert(attrs.take(i + 1).drop_last() =~= attrs.take(i));
}

/// Appends the attributes of one style to `out`.
fn push_attrs(out: &mut String, attrs: &Vec<Attr>, inner: bool)
    ensures
        final(out)@ == append_all(old(out)@, attr_pieces(attr_views(attrs@), inner)),
{
    let ghost all = attr_views(attrs@);
    let mut i: usize = 0;
    while i < attrs.len()
        invariant
            i <= attrs.len(),
            all == attr_views(attrs@),
            out@ == append_all(old(out)@, attr_pieces(all.take(i as int), inner)),
        decreases attrs.len() - i,
    {
        proof {
            lemma_attr_pieces_step(all, inner, i as int);
            lemma_append_all_push(
                old(out)@,
                attr_pieces(all.take(i as int), inner),
                all[i as int].text,
            );
        }
        if attrs[i].inner == inner {
            push_piece(out, attrs[i].text.as_str());
        }
        i = i + 1;
    }
    assert(all.take(i as int) =~= all);
}

/// A method with `statements` as its body.
pub fn render_method(m: &Method, statements: &str) -> (r: String)
    ensures
        r@ == method_text(m@, statements@),
{
    let mut out = String::new();
    push_attrs(&mut out, &m.attrs, false);
    push_piece(&mut out, m.visibility.as_str());
    if m.is_default {
        push_piece(&mut out, "default");
    }
    push_piece(&mut out, m.signature.as_str());
    push_piece(&mut out, "{");
    push_attrs(&mut out, &m.attrs, true);
    push_piece(&mut out, statements);
    push_piece(&mut out, "}");
    proof {
        let none = Seq::<char>::empty();
        let outer = attr_pieces(m@.attrs, false);
        let head = seq![m@.visibility, default_piece(m@.is_default)];
        let open = seq![m@.signature, "{"@];
        let inner = attr_pieces(m@.attrs, true);
        let tail = seq![statements@, "}"@];
        lemma_append_all_concat(none, outer + head + open + inner, tail);
        lemma_append_all_concat(none, outer + head + open, inner);
        lemma_append_all_concat(none, outer + head, open);
        lemma_append_all_concat(none, outer, head);
        lemma_append_two(append_all(none, outer), m@.visibility, default_piece(m@.is_default));
        lemma_append_two(append_all(none, outer + head), m@.signature, "{"@);
        lemma_append_two(append_all(none, outer + head + open + inner), statements@, "}"@);
        assert(outer + seq![
            m@.visibility,
            default_piece(m@.is_default),
            m@.signature,
            "{"@,
        ] + inner + tail =~= outer + head + open + inner + tail);
    }
    out
}

/// A first invalid fragment among the first `j` stays the first among all.
proof fn lemma_first_invalid_prefix(fragments: Seq<Seq<char>>, j: int)
    requires
        0 <= j <= fragments.len(),
        first_invalid(fragments.take(j)) is Some,
    ensures
        first_invalid(fragments) == first_invalid(fragments.take(j)),
    decreases fragments.len(),
{
    if j == fragments.len() {
        assert(fragments.take(j) =~= fragments);
    } else {
        assert(fragments.drop_last().take(j) =~= fragments.take(j));
        lemma_first_invalid_prefix(fragments.drop_last(), j);
    }
}

/// Reads every fragment as a block, in order, and stops at the first that is
/// none. Gives the statements of each, or the place of that fragment.
pub fn parse_fragments(fragments: &Vec<String>) -> (r: Result<Vec<String>, usize>)
    ensures
        match r {
            Ok(statements) => first_invalid(texts(fragments@)) is None && texts(statements@)
                == all_statements(texts(fragments@)),
            Err(i) => first_invalid(texts(fragments@)) == Some(i as nat) && i < fragments.len(),
        },
{
    let ghost all = texts(fragments@);
    let mut statements: Vec<String> = Vec::new();
    let mut k: usize = 0;
    while k < fragments.len()
        invariant
            k <= fragments.len(),
            all == texts(fragments@),
            first_invalid(all.take(k as int)) is None,
            texts(statements@) == all_statements(all.take(k as int)),
        decreases fragments.len() - k,
    {
        assert(all.take(k + 1).drop_last() =~= all.take(k as int));
        let block = wrap_fragment(fragments[k].as_str());
        match parse_block(block.as_str()) {
            Ok(parsed) => {
                let ghost before = statements@;
                statements.push(parsed);
                assert(texts(statements@) =~= texts(before).push(parsed@));
                assert(all_statements(all.take(k + 1)) =~= all_statements(
                    all.take(k as int),
                ).push(parsed@));
            },
            Err(_) => {
                proof {
                    lemma_first_invalid_prefix(all, k + 1);
                }
                return Err(k);
            },
        }
        k = k + 1;
    }
    assert(all.take(k as int) =~= all);
    Ok(statements)
}

/// The declaration with `statements[k]` as the body of its method `k`.
pub fn render(decl: &Declaration, statements: &Vec<String>) -> (r: String)
    requires
        statements.len() == methods_of(decl@.items).len(),
    ensures
        r@ == rendered(decl@, texts(statements@)),
{
    let ghost none = Seq::<char>::empty();
    let ghost bodies = texts(statements@);
    let mut out = String::new();
    if decl.is_unsafe {
        push_piece(&mut out, "unsafe");
    }
    push_piece(&mut out, "impl");
    push_piece(&mut out, decl.generics.as_str());
    let ghost lead = seq![unsafe_piece(decl@.is_unsafe), "impl"@, decl@.generics];
    let ghost named = match decl@.interface {
        Some(t) => seq![t, "for"@],
        None => Seq::<Seq<char>>::empty(),
    };
    proof {
        let empty = Seq::<Seq<char>>::empty();
        lemma_append_all_push(none, empty, unsafe_piece(decl@.is_unsafe));
        lemma_append_all_push(none, empty.push(unsafe_piece(decl@.is_unsafe)), "impl"@);
        lemma_append_all_push(
            none,
            empty.push(unsafe_piece(decl@.is_unsafe)).push("impl"@),
            decl@.generics,
        );
        assert(lead =~= empty.push(unsafe_piece(decl@.is_unsafe)).push("impl"@).push(
            decl@.generics,
        ));
        assert(out@ == append_all(none, lead));
    }
    match &decl.interface {
        Some(t) => {
            push_piece(&mut out, t.as_str());
            push_piece(&mut out, "for");
            proof {
                lemma_append_two(append_all(none, lead), t@, "for"@);
            }
        },
        None => {},
    }
    push_piece(&mut out, decl.self_type.as_str());
    push_piece(&mut out, decl.where_clause.as_str());
    push_piece(&mut out, "{");
    let ghost close = seq![decl@.self_type, decl@.where_clause];
    let ghost header = header_pieces(decl@) + seq!["{"@];
    proof {
        lemma_append_all_concat(none, lead, named);
        lemma_append_all_concat(none, lead + named, close);
        lemma_append_two(append_all(none, lead + named), decl@.self_type, decl@.where_clause);
        lemma_append_all_push(none, header_pieces(decl@), "{"@);
        assert(header =~= header_pieces(decl@).push("{"@));
        assert(out@ == append_all(none, header));
    }
    let ghost items = decl@.items;
    let mut seen: usize = 0;
    let mut i: usize = 0;
    while i < decl.items.len()
        invariant
            i <= decl.items.len(),
            items == decl@.items,
            bodies == texts(statements@),
            statements.len() == methods_of(items).len(),
            seen == methods_of(items.take(i as int)).len(),
            seen <= statements.len(),
            out@ == append_all(append_all(none, header), item_texts(items, bodies, i as int)),
        decreases decl.items.len() - i,
    {
        proof {
            lemma_methods_step(items, i as int);
            lemma_methods_prefix(items, i + 1);
            lemma_append_all_push(
                append_all(none, header),
                item_texts(items, bodies, i as int),
                item_text(items, bodies, i as int),
            );
            assert(item_texts(items, bodies, i + 1) =~= item_texts(items, bodies, i as int).push(
                item_text(items, bodies, i as int),
            ));
        }
        match &decl.items[i] {
            Item::Method(m) => {
                let text = render_method(m, statements[seen].as_str());
                push_piece(&mut out, text.as_str());
                seen = seen + 1;
            },
            Item::Other(t) => {
                push_piece(&mut out, t.as_str());
            },
        }
        i = i + 1;
    }
    push_piece(&mut out, "}");
    proof {
        let texts_all = item_texts(items, bodies, items.len() as int);
        lemma_append_all_concat(none, header, texts_all);
        lemma_append_all_push(none, header + texts_all, "}"@);
        assert((header + texts_all).push("}"@) =~= header_pieces(decl@) + seq!["{"@] + texts_all
            + seq!["}"@]);
    }
    out
}

/// Validates the fragments of a response against the declaration and splices
/// them into it.
///
/// Fails with `FragmentCount` where there are fewer or more fragments than
/// methods, before any fragment is read. Else fails with `UnparseableBody`
/// for the first fragment that is no block, naming its method. Else method
/// `k` gets fragment `k`, and the text must read back as the same
/// declaration, or the outcome is `MalformedResult`.
pub fn synthesize(decl: &Declaration, fragments: &Vec<String>) -> (r: Result<String, Failure>)
    ensures
        match r {
            Ok(text) => synthesis(decl@, texts(fragments@)) == Ok::<Seq<char>, FailureView>(
                text@,
            ),
            Err(e) => synthesis(decl@, texts(fragments@)) == Err::<Seq<char>, FailureView>(e@),
        },
{
    let expected = decl.method_count();
    if fragments.len() != expected {
        return Err(Failure::FragmentCount { expected, found: fragments.len() });
    }
    match parse_fragments(fragments) {
        Err(index) => {
            let name = copy_text(decl.nth_method(index).name.as_str());
            Err(Failure::UnparseableBody { index, name })
        },
        Ok(statements) => {
            assert(texts(statements@).len() == texts(fragments@).len());
            let text = render(decl, &statements);
            let same = match parse_declaration(text.as_str()) {
                Ok(again) => again.context(None).same_as(&decl.context(None)),
                Err(_) => false,
            };
            if same {
                Ok(text)
            } else {
                Err(Failure::MalformedResult)
            }
        },
    }
}

/// `first_invalid` gives the least place whose fragment is no valid body, and
/// `None` exactly where every fragment is one.
pub proof fn lemma_first_invalid(fragments: Seq<Seq<char>>)
    ensures
        match first_invalid(fragments) {
            Some(i) => i < fragments.len() && fragment_statements(fragments[i as int]) is None
                && forall|j: int| 0 <= j < i ==> fragment_statements(#[trigger] fragments[j]) is Some,
            None => forall|j: int|
                0 <= j < fragments.len() ==> fragment_statements(#[trigger] fragments[j]) is Some,
        },
    decreases fragments.len(),
{
    if fragments.len() > 0 {
        let shorter = fragments.drop_last();
        lemma_first_invalid(shorter);
        assert(forall|j: int| 0 <= j < shorter.len() ==> shorter[j] == fragments[j]);
    }
}

} // verus!
