//! What is asked of the generative backend: where the request goes, the
//! instructions it carries, and the shape demanded of the answer.

use vstd::prelude::*;
use vstd::string::StringExecFns;
use crate::config::{Config, ConfigView};
use crate::declaration::{texts, Context, ContextView};
use crate::failure::{Failure, FailureView};
use crate::json::{
    element_views, member_views, push_element, push_member, Json, JsonView,
};
use crate::text::{copy_text, option_debug, push_option_debug};

verus! {

/// One message of the conversation sent to the backend.
#[derive(Clone, Debug, PartialEq, Eq)]
pub struct Message {
    pub role: String,
    pub content: String,
}

pub struct MessageView {
    pub role: Seq<char>,
    pub content: Seq<char>,
}

impl View for Message {
    type V = MessageView;

    open spec fn view(&self) -> MessageView {
        MessageView { role: self.role@, content: self.content@ }
    }
}

/// The view of each message of a list.
pub open spec fn message_views(messages: Seq<Message>) -> Seq<MessageView> {
    Seq::new(messages.len(), |i: int| messages[i]@)
}

/// A request to the backend, ready to be sent as an HTTP POST with the
/// credential as bearer token and [`GenerationRequest::body`] as JSON body.
#[derive(Clone, Debug, PartialEq, Eq)]
pub struct GenerationRequest {
    pub url: String,
    pub credential: String,
    pub model: String,
    pub messages: Vec<Message>,
}

pub struct GenerationRequestView {
    pub url: Seq<char>,
    pub credential: Seq<char>,
    pub model: Seq<char>,
    pub messages: Seq<MessageView>,
}

impl View for GenerationRequest {
    type V = GenerationRequestView;

    open spec fn view(&self) -> GenerationRequestView {
        GenerationRequestView {
            url: self.url@,
            credential: self.credential@,
            model: self.model@,
            messages: message_views(self.messages@),
        }
    }
}

/// The instruction that binds the backend to emit method bodies only.
pub open spec fn system_instruction() -> Seq<char> {
    "You are a Rust code generator. Return ONLY valid Rust code for method bodies.\nDo not include backticks. Follow the provided signatures exactly.\nIf something is unspecified, make reasonable, deterministic choices.\nAvoid external crates unless explicitly requested."@
}

/// The instruction that states the shape of the answer.
pub open spec fn format_instruction() -> Seq<char> {
    "Return ONLY a strict JSON object like {\"bodies\":[\"{ /* body 1 */ }\", \"{ /* body 2 */ }\"]} where each string parses as a Rust block for the corresponding method, in order."@
}

/// The items, one on each line.
pub open spec fn lines(items: Seq<Seq<char>>) -> Seq<char>
    decreases items.len(),
{
    if items.len() == 0 {
        Seq::empty()
    } else if items.len() == 1 {
        items[0]
    } else {
        lines(items.drop_last()) + "\n"@ + items.last()
    }
}

/// The hint, or nothing.
pub open spec fn hint_text(hint: Option<Seq<char>>) -> Seq<char> {
    match hint {
        Some(text) => text,
        None => Seq::empty(),
    }
}

/// The instruction that describes the declaration: its trait, its type, the
/// signatures in order, and the hint.
pub open spec fn user_instruction(ctx: ContextView) -> Seq<char> {
    "Implement the following Rust impl methods.\nDo not change signatures. Provide only the method bodies (without 'fn' lines).\nContext:\n- Trait: "@
        + option_debug(ctx.interface) + "\n- Self type: "@ + ctx.self_type + "\n- Methods:\n"@
        + lines(ctx.signatures) + "\nAdditional hint: "@ + hint_text(ctx.hint)
}

/// The three messages of a request: the system instruction, the description
/// of the declaration, and the format instruction.
pub open spec fn messages_of(ctx: ContextView) -> Seq<MessageView> {
    seq![
        MessageView { role: "system"@, content: system_instruction() },
        MessageView { role: "user"@, content: user_instruction(ctx) },
        MessageView { role: "user"@, content: format_instruction() },
    ]
}

/// The request for a context, or why none may be made: offline, no request
/// is made at all; online, a credential is needed.
pub open spec fn request_of(config: ConfigView, ctx: ContextView, model: Seq<char>) -> Result<
    GenerationRequestView,
    FailureView,
> {
    if config.is_offline() {
        Err(FailureView::NetworkDisabled)
    } else {
        match config.credential {
            None => Err(FailureView::MissingCredential),
            Some(credential) => Ok(
                GenerationRequestView {
                    url: config.endpoint() + "/chat/completions"@,
                    credential,
                    model,
                    messages: messages_of(ctx),
                },
            ),
        }
    }
}

/// The schema that the answer must obey: an object whose one member,
/// `bodies`, is required and is an array of strings.
pub open spec fn schema_view() -> JsonView {
    JsonView::Object(
        seq![
            ("name"@, JsonView::Text("impl_bodies"@)),
            (
                "schema"@,
                JsonView::Object(
                    seq![
                        ("type"@, JsonView::Text("object"@)),
                        (
                            "properties"@,
                            JsonView::Object(
                                seq![
                                    (
                                        "bodies"@,
                                        JsonView::Object(
                                            seq![
                                                ("type"@, JsonView::Text("array"@)),
                                                (
                                                    "items"@,
                                                    JsonView::Object(
                                                        seq![
                                                            ("type"@, JsonView::Text("string"@)),
                                                        ],
                                                    ),
                                                ),
                                            ],
                                        ),
                                    ),
                                ],
                            ),
                        ),
                        ("required"@, JsonView::Array(seq![JsonView::Text("bodies"@)])),
                        ("additionalProperties"@, JsonView::Bool(false)),
                    ],
                ),
            ),
            ("strict"@, JsonView::Bool(true)),
        ],
    )
}

/// A message as JSON.
pub open spec fn message_json(message: MessageView) -> JsonView {
    JsonView::Object(
        seq![
            ("role"@, JsonView::Text(message.role)),
            ("content"@, JsonView::Text(message.content)),
        ],
    )
}

/// The JSON body of a request: the model, the messages in order, and the
/// directive that asks for a JSON object under the schema.
pub open spec fn body_of(request: GenerationRequestView) -> JsonView {
    JsonView::Object(
        seq![
            ("model"@, JsonView::Text(request.model)),
            (
                "messages"@,
                JsonView::Array(
                    Seq::new(request.messages.len(), |i: int| message_json(request.messages[i])),
                ),
            ),
            (
                "response_format"@,
                JsonView::Object(
                    seq![("type"@, JsonView::Text("json_object"@)), ("schema"@, schema_view())],
                ),
            ),
        ],
    )
}

fn push_lines(out: &mut String, items: &Vec<String>)
    ensures
        final(out)@ == old(out)@ + lines(texts(items@)),
{
    let ghost all = texts(items@);
    let mut i: usize = 0;
    assert(out@ =~= old(out)@ + lines(all.take(0)));
    while i < items.len()
        invariant
            i <= items.len(),
            all == texts(items@),
            out@ == old(out)@ + lines(all.take(i as int)),
        decreases items.len() - i,
    {
        proof {
            assert(all.take(i + 1).drop_last() =~= all.take(i as int));
            assert(all.take(i + 1).last() == items@[i as int]@);
            assert(all.take(i + 1)[0] == all[0]);
        }
        if i > 0 {
            out.append("\n");
        }
        out.append(items[i].as_str());
        assert(out@ =~= old(out)@ + lines(all.take(i + 1)));
        i = i + 1;
    }
    assert(all.take(i as int) =~= all);
}

/// Writes the instruction that describes the declaration.
pub fn user_prompt(ctx: &Context) -> (r: String)
    ensures
        r@ == user_instruction(ctx@),
{
    let mut out = copy_text(
        "Implement the following Rust impl methods.\nDo not change signatures. Provide only the method bodies (without 'fn' lines).\nContext:\n- Trait: ",
    );
    push_option_debug(&mut out, &ctx.interface);
    out.append("\n- Self type: ");
    out.append(ctx.self_type.as_str());
    out.append("\n- Methods:\n");
    push_lines(&mut out, &ctx.signatures);
    out.append("\nAdditional hint: ");
    match &ctx.hint {
        Some(hint) => {
            out.append(hint.as_str());
        },
        None => {},
    }
    assert(out@ =~= user_instruction(ctx@));
    out
}

fn message(role: &str, content: String) -> (m: Message)
    ensures
        m@ == (MessageView { role: role@, content: content@ }),
{
    Message { role: copy_text(role), content }
}

/// Prepares the one request of a generation.
///
/// Fails with `NetworkDisabled` where the settings put the pipeline offline,
/// else with `MissingCredential` where no credential is configured.
pub fn prepare(config: &Config, ctx: &Context, model: &str) -> (r: Result<
    GenerationRequest,
    Failure,
>)
    ensures
        match r {
            Ok(request) => request_of(config@, ctx@, model@) == Ok::<
                GenerationRequestView,
                FailureView,
            >(request@),
            Err(e) => request_of(config@, ctx@, model@) == Err::<
                GenerationRequestView,
                FailureView,
            >(e@),
        },
{
    if config.is_offline() {
        return Err(Failure::NetworkDisabled);
    }
    match &config.credential {
        None => Err(Failure::MissingCredential),
        Some(credential) => {
            let mut url = config.endpoint();
            url.append("/chat/completions");
            let mut messages: Vec<Message> = Vec::new();
            messages.push(
                message(
                    "system",
                    copy_text(
                        "You are a Rust code generator. Return ONLY valid Rust code for method bodies.\nDo not include backticks. Follow the provided signatures exactly.\nIf something is unspecified, make reasonable, deterministic choices.\nAvoid external crates unless explicitly requested.",
                    ),
                ),
            );
            messages.push(message("user", user_prompt(ctx)));
            messages.push(
                message(
                    "user",
                    copy_text(
                        "Return ONLY a strict JSON object like {\"bodies\":[\"{ /* body 1 */ }\", \"{ /* body 2 */ }\"]} where each string parses as a Rust block for the corresponding method, in order.",
                    ),
                ),
            );
            assert(message_views(messages@) =~= messages_of(ctx@));
            Ok(
                GenerationRequest {
                    url,
                    credential: copy_text(credential.as_str()),
                    model: copy_text(model),
                    messages,
                },
            )
        },
    }
}

fn object_of_one(key: &str, value: Json) -> (r: Json)
    ensures
        r@ == JsonView::Object(seq![(key@, value@)]),
{
    let mut members: Vec<(String, Json)> = Vec::new();
    assert(member_views(members@) =~= Seq::empty());
    push_member(&mut members, key, value);
    assert(member_views(members@) =~= seq![(key@, value@)]);
    Json::object(members)
}

fn object_of_two(key: &str, value: Json, key2: &str, value2: Json) -> (r: Json)
    ensures
        r@ == JsonView::Object(seq![(key@, value@), (key2@, value2@)]),
{
    let mut members: Vec<(String, Json)> = Vec::new();
    assert(member_views(members@) =~= Seq::empty());
    push_member(&mut members, key, value);
    push_member(&mut members, key2, value2);
    assert(member_views(members@) =~= seq![(key@, value@), (key2@, value2@)]);
    Json::object(members)
}

/// The schema that the answer must obey.
pub fn schema() -> (r: Json)
    ensures
        r@ == schema_view(),
{
    let bodies = object_of_two(
        "type",
        Json::text("array"),
        "items",
        object_of_one("type", Json::text("string")),
    );
    let mut required: Vec<Json> = Vec::new();
    assert(element_views(required@) =~= Seq::empty());
    push_element(&mut required, Json::text("bodies"));
    assert(element_views(required@) =~= seq![JsonView::Text("bodies"@)]);
    let mut inner: Vec<(String, Json)> = Vec::new();
    assert(member_views(inner@) =~= Seq::empty());
    push_member(&mut inner, "type", Json::text("object"));
    push_member(&mut inner, "properties", object_of_one("bodies", bodies));
    push_member(&mut inner, "required", Json::array(required));
    push_member(&mut inner, "additionalProperties", Json::Bool(false));
    assert(member_views(inner@) =~= schema_view()->Object_0[1].1->Object_0);
    let mut outer: Vec<(String, Json)> = Vec::new();
    assert(member_views(outer@) =~= Seq::empty());
    push_member(&mut outer, "name", Json::text("impl_bodies"));
    push_member(&mut outer, "schema", Json::object(inner));
    push_member(&mut outer, "strict", Json::Bool(true));
    assert(member_views(outer@) =~= schema_view()->Object_0);
    Json::object(outer)
}

impl GenerationRequest {
    /// The JSON body to send.
    pub fn body(&self) -> (r: Json)
        ensures
            r@ == body_of(self@),
    {
        let ghost all = message_views(self.messages@);
        let mut list: Vec<Json> = Vec::new();
        let mut i: usize = 0;
        assert(element_views(list@) =~= Seq::new(0, |j: int| message_json(all[j])));
        while i < self.messages.len()
            invariant
                i <= self.messages.len(),
                all == message_views(self.messages@),
                element_views(list@) == Seq::new(i as nat, |j: int| message_json(all[j])),
            decreases self.messages.len() - i,
        {
            let m = &self.messages[i];
            let item = object_of_two(
                "role",
                Json::text(m.role.as_str()),
                "content",
                Json::text(m.content.as_str()),
            );
            let ghost before = element_views(list@);
            push_element(&mut list, item);
            assert(element_views(list@) =~= Seq::new(
                (i + 1) as nat,
                |j: int| message_json(all[j]),
            ));
            i = i + 1;
        }
        let mut members: Vec<(String, Json)> = Vec::new();
        assert(member_views(members@) =~= Seq::empty());
        push_member(&mut members, "model", Json::text(self.model.as_str()));
        push_member(&mut members, "messages", Json::array(list));
        push_member(
            &mut members,
            "response_format",
            object_of_two("type", Json::text("json_object"), "schema", schema()),
        );
        assert(member_views(members@) =~= body_of(self@)->Object_0);
        Json::object(members)
    }
}

} // verus!
