//! The pipeline as a state machine. The caller performs each action (a cache
//! lookup, the request, a cache write) and hands back what came of it; every
//! decision is taken here.
//!
//! A run goes: `Start`, then the cache lookup. A hit ends the run with the
//! cached text. A miss ends it with a failure when offline, and else leads to
//! the one request of the run, whose answer is validated and spliced into
//! the declaration; only such a fully validated text is ever handed out to
//! be stored.

use vstd::prelude::*;
use crate::config::{params_of, Config, ConfigView, GenerationParams, GenerationParamsView};
use crate::declaration::{
    context_of, methods_of, signatures_of, Context, ContextView, Declaration, DeclarationView,
};
use crate::failure::{Failure, FailureView};
use crate::key::{derive_key, entry_name, entry_name_of, key_of};
use crate::request::{prepare, request_of, GenerationRequest, GenerationRequestView};
use crate::response::{read_reply, reply_fragments};
use crate::syntax::{arguments_of, declaration_of, extract, extract_arguments};
use crate::synthesis::{synthesis, synthesize};
use crate::text::copy_text;

verus! {

/// Where a run stands.
#[derive(Clone, Copy, Debug, PartialEq, Eq, Structural)]
pub enum Phase {
    /// Nothing has been done yet.
    Ready,
    /// The cache lookup is under way.
    AwaitingCache,
    /// The request is under way.
    AwaitingReply,
    /// The run has ended, with a text or with a failure.
    Finished,
}

/// What the caller reports.
#[derive(Clone, Debug, PartialEq, Eq)]
pub enum Event {
    /// The run begins.
    Start,
    /// The cache holds this text under the entry's name.
    CacheHit(String),
    /// The cache holds no entry of that name.
    CacheMiss,
    /// The request could not be sent, or no answer came in time.
    RequestFailed,
    /// An answer came, but its body could not be read.
    UnreadableBody,
    /// The backend answered.
    Reply { status: u16, body: String },
}

pub enum EventView {
    Start,
    CacheHit(Seq<char>),
    CacheMiss,
    RequestFailed,
    UnreadableBody,
    Reply { status: u16, body: Seq<char> },
}

impl View for Event {
    type V = EventView;

    open spec fn view(&self) -> EventView {
        match self {
            Event::Start => EventView::Start,
            Event::CacheHit(text) => EventView::CacheHit(text@),
            Event::CacheMiss => EventView::CacheMiss,
            Event::RequestFailed => EventView::RequestFailed,
            Event::UnreadableBody => EventView::UnreadableBody,
            Event::Reply { status, body } => EventView::Reply { status: *status, body: body@ },
        }
    }
}

/// What the caller is to do next.
#[derive(Clone, Debug, PartialEq, Eq)]
pub enum Action {
    /// Look up the cache entry of this name and report a hit or a miss.
    Lookup { entry: String },
    /// Send this request, once, and report what came of it.
    Send(GenerationRequest),
    /// Write the text to the cache under the entry's name, then emit it.
    Store { entry: String, text: String },
    /// Emit the text as it is.
    Emit(String),
    /// Give up on this declaration.
    Fail(Failure),
}

pub enum ActionView {
    Lookup { entry: Seq<char> },
    Send(GenerationRequestView),
    Store { entry: Seq<char>, text: Seq<char> },
    Emit(Seq<char>),
    Fail(FailureView),
}

impl View for Action {
    type V = ActionView;

    open spec fn view(&self) -> ActionView {
        match self {
            Action::Lookup { entry } => ActionView::Lookup { entry: entry@ },
            Action::Send(request) => ActionView::Send(request@),
            Action::Store { entry, text } => ActionView::Store { entry: entry@, text: text@ },
            Action::Emit(text) => ActionView::Emit(text@),
            Action::Fail(failure) => ActionView::Fail(failure@),
        }
    }
}

/// One run of the pipeline for one declaration.
#[derive(Clone, Debug, PartialEq, Eq)]
pub struct Pipeline {
    declaration: Declaration,
    context: Context,
    config: Config,
    model: String,
    entry: String,
    phase: Phase,
}

pub struct PipelineView {
    pub declaration: DeclarationView,
    pub context: ContextView,
    pub config: ConfigView,
    pub model: Seq<char>,
    pub entry: Seq<char>,
    pub phase: Phase,
}

impl View for Pipeline {
    type V = PipelineView;

    closed spec fn view(&self) -> PipelineView {
        PipelineView {
            declaration: self.declaration@,
            context: self.context@,
            config: self.config@,
            model: self.model@,
            entry: self.entry@,
            phase: self.phase,
        }
    }
}

impl PipelineView {
    /// The context is the declaration's, and the entry is named by the
    /// context's key.
    pub open spec fn well_formed(self) -> bool {
        &&& self.context.interface == self.declaration.interface
        &&& self.context.self_type == self.declaration.self_type
        &&& self.context.signatures == signatures_of(methods_of(self.declaration.items))
        &&& self.entry == entry_name_of(key_of(self.context))
    }
}

/// A successful status: 200 to 299.
pub open spec fn is_success(status: u16) -> bool {
    200 <= status < 300
}

/// The run as it begins for a declaration, the caller's parameters and the
/// settings.
pub open spec fn initial(
    declaration: DeclarationView,
    params: GenerationParamsView,
    config: ConfigView,
) -> PipelineView {
    let context = context_of(declaration, params.hint);
    PipelineView {
        declaration,
        context,
        config,
        model: params.model_name(),
        entry: entry_name_of(key_of(context)),
        phase: Phase::Ready,
    }
}

/// What an answer of the backend leads to.
pub open spec fn after_reply(p: PipelineView, status: u16, body: Seq<char>) -> ActionView {
    if !is_success(status) {
        ActionView::Fail(FailureView::BadStatus(status))
    } else {
        match reply_fragments(body) {
            Err(e) => ActionView::Fail(e),
            Ok(fragments) => match synthesis(p.declaration, fragments) {
                Err(e) => ActionView::Fail(e),
                Ok(text) => ActionView::Store { entry: p.entry, text },
            },
        }
    }
}

/// What a cache miss leads to.
pub open spec fn after_miss(p: PipelineView) -> ActionView {
    if p.config.is_offline() {
        ActionView::Fail(FailureView::NoCachedGeneration)
    } else {
        match request_of(p.config, p.context, p.model) {
            Ok(request) => ActionView::Send(request),
            Err(e) => ActionView::Fail(e),
        }
    }
}

/// The action that an event leads to in a given state. An event that does
/// not fit the phase is a failure.
pub open spec fn action_for(p: PipelineView, event: EventView) -> ActionView {
    match (p.phase, event) {
        (Phase::Ready, EventView::Start) => ActionView::Lookup { entry: p.entry },
        (Phase::AwaitingCache, EventView::CacheHit(text)) => ActionView::Emit(text),
        (Phase::AwaitingCache, EventView::CacheMiss) => after_miss(p),
        (Phase::AwaitingReply, EventView::RequestFailed) => ActionView::Fail(
            FailureView::RequestFailed,
        ),
        (Phase::AwaitingReply, EventView::UnreadableBody) => ActionView::Fail(
            FailureView::UnreadableBody,
        ),
        (Phase::AwaitingReply, EventView::Reply { status, body }) => after_reply(p, status, body),
        _ => ActionView::Fail(FailureView::UnexpectedEvent),
    }
}

/// The phase after an action: a lookup and a request are waited for, anything
/// else ends the run.
pub open spec fn phase_after(action: ActionView) -> Phase {
    match action {
        ActionView::Lookup { .. } => Phase::AwaitingCache,
        ActionView::Send(_) => Phase::AwaitingReply,
        _ => Phase::Finished,
    }
}

/// The state after an event: only the phase changes.
pub open spec fn next_state(p: PipelineView, event: EventView) -> PipelineView {
    PipelineView { phase: phase_after(action_for(p, event)), ..p }
}

impl Pipeline {
    /// A run for a declaration, ready to start.
    pub fn new(declaration: Declaration, params: GenerationParams, config: Config) -> (p: Pipeline)
        ensures
            p@ == initial(declaration@, params@, config@),
            p@.well_formed(),
    {
        let model = params.model_name();
        let context = declaration.context(params.hint);
        let key = derive_key(&context);
        let entry = entry_name(key.as_str());
        Pipeline { declaration, context, config, model, entry, phase: Phase::Ready }
    }

    /// Where the run stands.
    pub fn phase(&self) -> (phase: Phase)
        ensures
            phase == self@.phase,
    {
        self.phase
    }

    /// The context of the declaration.
    pub fn context(&self) -> (ctx: &Context)
        ensures
            ctx@ == self@.context,
    {
        &self.context
    }

    /// The name of the declaration's cache entry.
    pub fn entry(&self) -> (entry: &String)
        ensures
            entry@ == self@.entry,
    {
        &self.entry
    }

    fn on_miss(&self) -> (action: Action)
        ensures
            action@ == after_miss(self@),
    {
        if self.config.is_offline() {
            return Action::Fail(Failure::NoCachedGeneration);
        }
        match prepare(&self.config, &self.context, self.model.as_str()) {
            Ok(request) => Action::Send(request),
            Err(e) => Action::Fail(e),
        }
    }

    fn on_reply(&self, status: u16, body: &str) -> (action: Action)
        ensures
            action@ == after_reply(self@, status, body@),
    {
        if status < 200 || status >= 300 {
            return Action::Fail(Failure::BadStatus(status));
        }
        match read_reply(body) {
            Err(e) => Action::Fail(e),
            Ok(fragments) => match synthesize(&self.declaration, &fragments) {
                Err(e) => Action::Fail(e),
                Ok(text) => Action::Store { entry: copy_text(self.entry.as_str()), text },
            },
        }
    }

    /// Takes the caller's report and says what to do next.
    pub fn advance(&mut self, event: Event) -> (action: Action)
        ensures
            action@ == action_for(old(self)@, event@),
            final(self)@ == next_state(old(self)@, event@),
            old(self)@.well_formed() ==> final(self)@.well_formed(),
    {
        let action = match (self.phase, event) {
            (Phase::Ready, Event::Start) => Action::Lookup {
                entry: copy_text(self.entry.as_str()),
            },
            (Phase::AwaitingCache, Event::CacheHit(text)) => Action::Emit(text),
            (Phase::AwaitingCache, Event::CacheMiss) => self.on_miss(),
            (Phase::AwaitingReply, Event::RequestFailed) => Action::Fail(Failure::RequestFailed),
            (Phase::AwaitingReply, Event::UnreadableBody) => Action::Fail(
                Failure::UnreadableBody,
            ),
            (Phase::AwaitingReply, Event::Reply { status, body }) => self.on_reply(
                status,
                body.as_str(),
            ),
            _ => Action::Fail(Failure::UnexpectedEvent),
        };
        self.phase = match &action {
            Action::Lookup { .. } => Phase::AwaitingCache,
            Action::Send(_) => Phase::AwaitingReply,
            _ => Phase::Finished,
        };
        action
    }
}

/// What setting up a run gives for the texts of the annotation's arguments
/// and of the declaration.
pub open spec fn setup(arguments: Seq<char>, source: Seq<char>, config: ConfigView) -> Result<
    PipelineView,
    FailureView,
> {
    match arguments_of(arguments) {
        None => Err(FailureView::MalformedArguments),
        Some(list) => match declaration_of(source) {
            None => Err(FailureView::MalformedDeclaration),
            Some(declaration) => Ok(initial(declaration, params_of(list), config)),
        },
    }
}

/// Sets up the run for an annotated declaration: `arguments` is the text
/// between the annotation's parentheses, `source` the text of the `impl`
/// block. Nothing is generated here; the run is driven by
/// [`Pipeline::advance`].
pub fn openai_impl(arguments: &str, source: &str, config: Config) -> (r: Result<Pipeline, Failure>)
    ensures
        match r {
            Ok(p) => setup(arguments@, source@, config@) == Ok::<PipelineView, FailureView>(p@),
            Err(e) => setup(arguments@, source@, config@) == Err::<PipelineView, FailureView>(e@),
        },
{
    let list = match extract_arguments(arguments) {
        Ok(list) => list,
        Err(e) => {
            return Err(e);
        },
    };
    let declaration = match extract(source) {
        Ok(declaration) => declaration,
        Err(e) => {
            return Err(e);
        },
    };
    Ok(Pipeline::new(declaration, GenerationParams::from_arguments(&list), config))
}

} // verus!
