//! Reads the backend's answer: the envelope, the content it carries, and the
//! body fragments in the content.
//!
//! The content is expected to be a JSON object whose member `bodies` is an
//! array of strings. Content of any other shape, JSON or not, is taken as a
//! single fragment: the content as it came.

use vstd::prelude::*;
use crate::declaration::texts;
use crate::failure::{Failure, FailureView};
use crate::json::{json_of, Json, JsonView};
use crate::text::copy_text;

verus! {

/// The text at `choices[0].message.content` of an envelope.
pub open spec fn content_of(envelope: JsonView) -> Option<Seq<char>> {
    match envelope.member("choices"@) {
        Some(choices) => match choices.element(0) {
            Some(first) => match first.member("message"@) {
                Some(message) => match message.member("content"@) {
                    Some(content) => content.text(),
                    None => None,
                },
                None => None,
            },
            None => None,
        },
        None => None,
    }
}

/// Whether every item is a string.
pub open spec fn all_text(items: Seq<JsonView>) -> bool {
    forall|i: int| 0 <= i < items.len() ==> (#[trigger] items[i]) is Text
}

/// The characters of each item, where every item is a string.
pub open spec fn text_items(items: Seq<JsonView>) -> Seq<Seq<char>> {
    Seq::new(items.len(), |i: int| items[i]->Text_0)
}

/// The strings of the member `bodies`, where the value is an object that has
/// this member and the member is an array of strings.
pub open spec fn bodies_of(parsed: JsonView) -> Option<Seq<Seq<char>>> {
    match parsed.member("bodies"@) {
        Some(JsonView::Array(items)) => if all_text(items) {
            Some(text_items(items))
        } else {
            None
        },
        _ => None,
    }
}

/// The fragments of a content, given what the content is as JSON: the bodies
/// where it has the expected shape, else the content alone.
pub open spec fn fragments_given(content: Seq<char>, parsed: Option<JsonView>) -> Seq<
    Seq<char>,
> {
    match parsed {
        Some(value) => match bodies_of(value) {
            Some(bodies) => bodies,
            None => seq![content],
        },
        None => seq![content],
    }
}

/// The fragments of a content.
pub open spec fn fragments_of(content: Seq<char>) -> Seq<Seq<char>> {
    fragments_given(content, json_of(content))
}

/// The fragments of an answer's body, given what the body is as JSON.
pub open spec fn reply_given(envelope: Option<JsonView>) -> Result<Seq<Seq<char>>, FailureView> {
    match envelope {
        None => Err(FailureView::MalformedEnvelope),
        Some(value) => match content_of(value) {
            None => Err(FailureView::MissingContent),
            Some(content) => Ok(fragments_of(content)),
        },
    }
}

/// The fragments of an answer's body.
pub open spec fn reply_fragments(body: Seq<char>) -> Result<Seq<Seq<char>>, FailureView> {
    reply_given(json_of(body))
}

/// The text at `choices[0].message.content`, if the envelope has one.
pub fn content(envelope: &Json) -> (r: Option<&String>)
    ensures
        match r {
            Some(text) => content_of(envelope@) == Some(text@),
            None => content_of(envelope@) is None,
        },
{
    match envelope.get("choices") {
        Some(choices) => match choices.at(0) {
            Some(first) => match first.get("message") {
                Some(message) => match message.get("content") {
                    Some(content) => content.as_text(),
                    None => None,
                },
                None => None,
            },
            None => None,
        },
        None => None,
    }
}

/// The strings of the member `bodies`, if the value has the expected shape.
pub fn bodies(parsed: &Json) -> (r: Option<Vec<String>>)
    ensures
        match r {
            Some(list) => bodies_of(parsed@) == Some(texts(list@)),
            None => bodies_of(parsed@) is None,
        },
{
    match parsed.get("bodies") {
        Some(Json::Array(items)) => {
            let ghost all = parsed@.member("bodies"@).unwrap()->Array_0;
            let mut list: Vec<String> = Vec::new();
            let mut i: usize = 0;
            while i < items.len()
                invariant
                    i <= items.len(),
                    parsed@.member("bodies"@) == Some(JsonView::Array(all)),
                    all.len() == items@.len(),
                    forall|j: int| 0 <= j < all.len() ==> all[j] == (#[trigger] items@[j])@,
                    all_text(all.take(i as int)),
                    texts(list@) == text_items(all.take(i as int)),
                decreases items.len() - i,
            {
                match items[i].as_text() {
                    Some(s) => {
                        let ghost before = list@;
                        list.push(copy_text(s.as_str()));
                        assert(texts(list@) =~= texts(before).push(s@));
                        assert(all[i as int] == items@[i as int]@);
                        assert(text_items(all.take(i + 1)) =~= text_items(
                            all.take(i as int),
                        ).push(s@));
                        assert forall|j: int| 0 <= j < i + 1 implies (#[trigger] all.take(
                            i + 1,
                        )[j]) is Text by {
                            if j < i {
                                assert(all.take(i as int)[j] is Text);
                            }
                        }
                    },
                    None => {
                        assert(all[i as int] == items@[i as int]@);
                        assert(!(all[i as int] is Text));
                        return None;
                    },
                }
                i = i + 1;
            }
            assert(all.take(i as int) =~= all);
            Some(list)
        },
        _ => None,
    }
}

/// The fragments of a content, given the outcome of reading it as JSON.
pub fn fragments_from(content: &str, parsed: Option<&Json>) -> (r: Vec<String>)
    ensures
        texts(r@) == fragments_given(
            content@,
            match parsed {
                Some(value) => Some(value@),
                None => None,
            },
        ),
{
    let found = match parsed {
        Some(value) => bodies(value),
        None => None,
    };
    match found {
        Some(list) => list,
        None => {
            let mut single: Vec<String> = Vec::new();
            single.push(copy_text(content));
            assert(texts(single@) =~= seq![content@]);
            single
        },
    }
}

/// The fragments of a content.
pub fn fragments(content: &str) -> (r: Vec<String>)
    ensures
        texts(r@) == fragments_of(content@),
{
    match Json::parse(content) {
        Some(value) => fragments_from(content, Some(&value)),
        None => fragments_from(content, None),
    }
}

/// The fragments of an answer's body, given the outcome of reading the body
/// as JSON.
pub fn read_envelope(envelope: Option<&Json>) -> (r: Result<Vec<String>, Failure>)
    ensures
        match r {
            Ok(list) => reply_given(
                match envelope {
                    Some(value) => Some(value@),
                    None => None,
                },
            ) == Ok::<Seq<Seq<char>>, FailureView>(texts(list@)),
            Err(e) => reply_given(
                match envelope {
                    Some(value) => Some(value@),
                    None => None,
                },
            ) == Err::<Seq<Seq<char>>, FailureView>(e@),
        },
{
    match envelope {
        None => Err(Failure::MalformedEnvelope),
        Some(value) => match content(value) {
            None => Err(Failure::MissingContent),
            Some(text) => Ok(fragments(text.as_str())),
        },
    }
}

/// The fragments of an answer's body: `MalformedEnvelope` where the body is
/// not JSON, `MissingContent` where it holds no content, else the fragments
/// of the content.
pub fn read_reply(body: &str) -> (r: Result<Vec<String>, Failure>)
    ensures
        match r {
            Ok(list) => reply_fragments(body@) == Ok::<Seq<Seq<char>>, FailureView>(texts(list@)),
            Err(e) => reply_fragments(body@) == Err::<Seq<Seq<char>>, FailureView>(e@),
        },
{
    match Json::parse(body) {
        Some(value) => read_envelope(Some(&value)),
        None => read_envelope(None),
    }
}

} // verus!
