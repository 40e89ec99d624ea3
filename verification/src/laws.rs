//! What holds of the pipeline as a whole, proved from the definitions of its
//! parts.

use vstd::prelude::*;
use vstd::utf8::{encode_utf8, encode_utf8_decode_utf8};
use crate::declaration::{
    context_of, lemma_methods_prefix, lemma_methods_step, methods_of, text_option, texts,
    Context, ContextView, DeclarationView,
};
use crate::failure::FailureView;
use crate::json::json_of;
use crate::key::{canonical, key_of, lemma_hex_lower_injective, list_debug, sha256_digest};
use crate::pipeline::{
    action_for, is_success, next_state, ActionView, EventView, Phase, PipelineView,
};
use crate::response::{fragments_of, reply_fragments};
use crate::syntax::declaration_of;
use crate::synthesis::{
    all_statements, fragment_statements, item_texts, lemma_first_invalid, method_text, rendered,
    synthesis,
};
use crate::text::option_debug;

verus! {

/// The key is a function of the context: two contexts with the same trait,
/// type, signatures in the same order and hint have the same key.
pub proof fn key_is_deterministic(a: Context, b: Context)
    requires
        text_option(a.interface) == text_option(b.interface),
        a.self_type@ == b.self_type@,
        texts(a.signatures@) == texts(b.signatures@),
        text_option(a.hint) == text_option(b.hint),
    ensures
        key_of(a@) == key_of(b@),
{
}

/// The hexadecimal text loses nothing of the digest: two contexts have the
/// same key exactly where SHA-256 gives their canonical texts the same
/// digest.
pub proof fn same_key_means_same_digest(a: ContextView, b: ContextView)
    ensures
        key_of(a) == key_of(b) <==> sha256_digest(encode_utf8(canonical(a))) == sha256_digest(
            encode_utf8(canonical(b)),
        ),
{
    if key_of(a) == key_of(b) {
        lemma_hex_lower_injective(
            sha256_digest(encode_utf8(canonical(a))),
            sha256_digest(encode_utf8(canonical(b))),
        );
    }
}

/// Contexts with different canonical texts hand different bytes to the
/// digest.
pub proof fn different_texts_are_different_inputs(a: ContextView, b: ContextView)
    requires
        canonical(a) != canonical(b),
    ensures
        encode_utf8(canonical(a)) != encode_utf8(canonical(b)),
{
    encode_utf8_decode_utf8(canonical(a));
    encode_utf8_decode_utf8(canonical(b));
}

/// Two contexts that differ in the type alone have different canonical
/// texts.
pub proof fn another_type_is_another_text(a: ContextView, b: ContextView)
    requires
        a.interface == b.interface,
        a.signatures == b.signatures,
        a.hint == b.hint,
        a.self_type != b.self_type,
    ensures
        canonical(a) != canonical(b),
{
    let head = "trait="@ + option_debug(a.interface) + "\nself_ty="@;
    let tail = "\nmethods="@ + list_debug(a.signatures) + "\nprompt_hint="@ + option_debug(a.hint);
    assert(canonical(a) =~= head + a.self_type + tail);
    assert(canonical(b) =~= head + b.self_type + tail);
    if canonical(a) == canonical(b) {
        assert((head + a.self_type + tail).len() == (head + b.self_type + tail).len());
        assert(a.self_type.len() == b.self_type.len());
        assert forall|k: int| 0 <= k < a.self_type.len() implies a.self_type[k]
            == b.self_type[k] by {
            assert((head + a.self_type + tail)[head.len() + k] == a.self_type[k]);
            assert((head + b.self_type + tail)[head.len() + k] == b.self_type[k]);
        }
        assert(a.self_type =~= b.self_type);
    }
}

/// Absence is marked: a context without a trait and one with a trait have
/// different canonical texts, and so have a context without a hint and one
/// with a hint, whatever else they hold.
pub proof fn absence_is_marked(a: ContextView, b: ContextView)
    ensures
        a.interface is None && b.interface is Some ==> canonical(a) != canonical(b),
        a.hint is None && b.hint is Some ==> canonical(a) != canonical(b),
{
    reveal_strlit("trait=");
    reveal_strlit("None");
    reveal_strlit("Some(");
    reveal_strlit(")");
    if a.interface is None && b.interface is Some {
        assert(canonical(a)[6] == 'N');
        assert(canonical(b)[6] == 'S');
    }
    if a.hint is None && b.hint is Some {
        assert(canonical(a).last() == 'e');
        assert(canonical(b).last() == ')');
    }
}

/// A response with fewer or more fragments than the declaration has methods
/// fails validation with `FragmentCount`, whatever the fragments hold.
pub proof fn wrong_count_fails(decl: DeclarationView, fragments: Seq<Seq<char>>)
    requires
        fragments.len() != methods_of(decl.items).len(),
    ensures
        synthesis(decl, fragments) == Err::<Seq<char>, FailureView>(
            FailureView::FragmentCount {
                expected: methods_of(decl.items).len(),
                found: fragments.len(),
            },
        ),
{
}

/// A successful synthesis used exactly one fragment for each method, every
/// fragment was a valid body, and the text reads back as an `impl` block of
/// the same trait for the same type with the same signatures in the same
/// order.
pub proof fn success_means_all_valid(decl: DeclarationView, fragments: Seq<Seq<char>>)
    requires
        synthesis(decl, fragments) is Ok,
    ensures
        fragments.len() == methods_of(decl.items).len(),
        forall|k: int|
            0 <= k < fragments.len() ==> fragment_statements(#[trigger] fragments[k]) is Some,
        synthesis(decl, fragments) == Ok::<Seq<char>, FailureView>(
            rendered(decl, all_statements(fragments)),
        ),
        declaration_of(synthesis(decl, fragments)->Ok_0) is Some,
        context_of(declaration_of(synthesis(decl, fragments)->Ok_0)->Some_0, None) == context_of(
            decl,
            None,
        ),
{
    lemma_first_invalid(fragments);
}

/// Order is preserved: in a successful synthesis the item at place `i`, where
/// it is the method at place `k` among the methods, is rendered with the
/// statements of fragment `k` and of no other.
pub proof fn method_gets_its_fragment(decl: DeclarationView, fragments: Seq<Seq<char>>, i: int)
    requires
        synthesis(decl, fragments) is Ok,
        0 <= i < decl.items.len(),
        decl.items[i] is Method,
    ensures
        ({
            let k = methods_of(decl.items.take(i)).len() as int;
            &&& 0 <= k < fragments.len()
            &&& methods_of(decl.items)[k] == decl.items[i]->Method_0
            &&& fragment_statements(fragments[k]) is Some
            &&& item_texts(decl.items, all_statements(fragments), decl.items.len() as int)[i]
                == method_text(decl.items[i]->Method_0, fragment_statements(fragments[k]).unwrap())
        }),
{
    let k = methods_of(decl.items.take(i)).len() as int;
    let upto = methods_of(decl.items.take(i + 1));
    lemma_methods_step(decl.items, i);
    lemma_methods_prefix(decl.items, i + 1);
    assert(upto[k] == decl.items[i]->Method_0);
    assert(methods_of(decl.items).take(upto.len() as int)[k] == methods_of(decl.items)[k]);
    lemma_first_invalid(fragments);
}

/// A run keeps its identity: no event changes the declaration, the context,
/// the settings, the model or the entry's name.
pub proof fn run_keeps_its_identity(p: PipelineView, event: EventView)
    ensures
        next_state(p, event) == (PipelineView { phase: next_state(p, event).phase, ..p }),
        p.well_formed() ==> next_state(p, event).well_formed(),
{
}

/// A miss in the cache while offline ends the run with `NoCachedGeneration`;
/// a hit ends it with the cached text as it is; and whatever is reported
/// while offline, no request is ever sent.
pub proof fn offline_works_from_cache_alone(p: PipelineView, event: EventView)
    requires
        p.config.is_offline(),
    ensures
        !(action_for(p, event) is Send),
        p.phase == Phase::AwaitingCache && event == EventView::CacheMiss ==> action_for(p, event)
            == ActionView::Fail(FailureView::NoCachedGeneration),
        p.phase == Phase::AwaitingCache ==> forall|text: Seq<char>|
            event == EventView::CacheHit(text) ==> action_for(p, event) == ActionView::Emit(text),
{
}

/// A hit in the cache ends the run with the cached text as it is, online or
/// offline, and nothing is sent or stored.
pub proof fn hit_returns_cached_text(p: PipelineView, text: Seq<char>)
    requires
        p.phase == Phase::AwaitingCache,
    ensures
        action_for(p, EventView::CacheHit(text)) == ActionView::Emit(text),
        next_state(p, EventView::CacheHit(text)).phase == Phase::Finished,
{
}

/// A request is sent only in answer to a cache miss, and then the run waits
/// for the reply: no second request can follow.
pub proof fn one_request_at_most(p: PipelineView, event: EventView, later: EventView)
    requires
        action_for(p, event) is Send,
    ensures
        p.phase == Phase::AwaitingCache,
        event == EventView::CacheMiss,
        !p.config.is_offline(),
        next_state(p, event).phase == Phase::AwaitingReply,
        !(action_for(next_state(p, event), later) is Send),
        next_state(next_state(p, event), later).phase == Phase::Finished,
{
}

/// Only a fully validated text is ever handed out to be stored: one that
/// was synthesized from the fragments of a successful answer, under the
/// entry's own name.
pub proof fn only_validated_text_is_stored(p: PipelineView, event: EventView)
    requires
        action_for(p, event) is Store,
    ensures
        p.phase == Phase::AwaitingReply,
        event is Reply,
        is_success(event->status),
        reply_fragments(event->body) is Ok,
        synthesis(p.declaration, reply_fragments(event->body)->Ok_0) == Ok::<
            Seq<char>,
            FailureView,
        >(action_for(p, event)->Store_text),
        action_for(p, event)->Store_entry == p.entry,
{
}

/// A failure ends the run: after it, every further event is refused.
pub proof fn failure_is_final(p: PipelineView, event: EventView, later: EventView)
    requires
        action_for(p, event) is Fail,
    ensures
        next_state(p, event).phase == Phase::Finished,
        action_for(next_state(p, event), later) == ActionView::Fail(FailureView::UnexpectedEvent),
{
}

/// Content that is not JSON is taken as one fragment, the content itself.
/// Synthesis from it can succeed only for a declaration with exactly one
/// method, and fails with `FragmentCount` for any other.
pub proof fn unstructured_content_is_one_fragment(decl: DeclarationView, content: Seq<char>)
    requires
        json_of(content) is None,
    ensures
        fragments_of(content) == seq![content],
        synthesis(decl, fragments_of(content)) is Ok ==> methods_of(decl.items).len() == 1,
        methods_of(decl.items).len() != 1 ==> synthesis(decl, fragments_of(content)) == Err::<
            Seq<char>,
            FailureView,
        >(FailureView::FragmentCount { expected: methods_of(decl.items).len(), found: 1 }),
{
}

} // verus!
