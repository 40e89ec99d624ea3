//! The ways in which a generation can fail. Every failure ends the whole
//! declaration's synthesis: nothing is emitted and nothing is cached.

use vstd::prelude::*;
use vstd::string::StringExecFns;
use crate::text::{copy_text, decimal, decimal_text};

verus! {

/// The four families of failure, and one for a misuse of the pipeline.
#[derive(Clone, Copy, Debug, PartialEq, Eq, Structural)]
pub enum FailureKind {
    /// The input declaration is malformed.
    Parse,
    /// A setting is missing or forbids what was asked.
    Configuration,
    /// The request failed or the backend's answer is unusable.
    Backend,
    /// The generated fragments do not fit the declaration.
    Validation,
    /// The pipeline was handed an event that does not fit its state.
    Usage,
}

#[derive(Clone, Debug, PartialEq, Eq)]
pub enum Failure {
    /// The source text is not an `impl` block.
    MalformedDeclaration,
    /// The generation arguments are not a list of `name = "value"` pairs.
    MalformedArguments,
    /// No credential is configured.
    MissingCredential,
    /// A request was asked for while the network is disabled.
    NetworkDisabled,
    /// Offline, and the cache holds no entry for the key.
    NoCachedGeneration,
    /// The request could not be sent, or no answer came.
    RequestFailed,
    /// The backend answered with a status outside 200..=299.
    BadStatus(u16),
    /// The answer's body could not be read.
    UnreadableBody,
    /// The answer's body is not JSON.
    MalformedEnvelope,
    /// The answer holds no text at `choices[0].message.content`.
    MissingContent,
    /// The number of fragments differs from the number of methods.
    FragmentCount { expected: usize, found: usize },
    /// The fragment for the method at `index` (counting methods from zero) is
    /// not a block.
    UnparseableBody { index: usize, name: String },
    /// The synthesized declaration does not parse as an `impl` block.
    MalformedResult,
    /// The event does not fit the pipeline's state.
    UnexpectedEvent,
}

pub enum FailureView {
    MalformedDeclaration,
    MalformedArguments,
    MissingCredential,
    NetworkDisabled,
    NoCachedGeneration,
    RequestFailed,
    BadStatus(u16),
    UnreadableBody,
    MalformedEnvelope,
    MissingContent,
    FragmentCount { expected: nat, found: nat },
    UnparseableBody { index: nat, name: Seq<char> },
    MalformedResult,
    UnexpectedEvent,
}

impl View for Failure {
    type V = FailureView;

    open spec fn view(&self) -> FailureView {
        match self {
            Failure::MalformedDeclaration => FailureView::MalformedDeclaration,
            Failure::MalformedArguments => FailureView::MalformedArguments,
            Failure::MissingCredential => FailureView::MissingCredential,
            Failure::NetworkDisabled => FailureView::NetworkDisabled,
            Failure::NoCachedGeneration => FailureView::NoCachedGeneration,
            Failure::RequestFailed => FailureView::RequestFailed,
            Failure::BadStatus(code) => FailureView::BadStatus(*code),
            Failure::UnreadableBody => FailureView::UnreadableBody,
            Failure::MalformedEnvelope => FailureView::MalformedEnvelope,
            Failure::MissingContent => FailureView::MissingContent,
            Failure::FragmentCount { expected, found } => FailureView::FragmentCount {
                expected: *expected as nat,
                found: *found as nat,
            },
            Failure::UnparseableBody { index, name } => FailureView::UnparseableBody {
                index: *index as nat,
                name: name@,
            },
            Failure::MalformedResult => FailureView::MalformedResult,
            Failure::UnexpectedEvent => FailureView::UnexpectedEvent,
        }
    }
}

/// The family a failure belongs to.
pub open spec fn kind_of(f: FailureView) -> FailureKind {
    match f {
        FailureView::MalformedDeclaration | FailureView::MalformedArguments => FailureKind::Parse,
        FailureView::MissingCredential
        | FailureView::NetworkDisabled
        | FailureView::NoCachedGeneration => FailureKind::Configuration,
        FailureView::RequestFailed
        | FailureView::BadStatus(_)
        | FailureView::UnreadableBody
        | FailureView::MalformedEnvelope
        | FailureView::MissingContent => FailureKind::Backend,
        FailureView::FragmentCount { .. }
        | FailureView::UnparseableBody { .. }
        | FailureView::MalformedResult => FailureKind::Validation,
        FailureView::UnexpectedEvent => FailureKind::Usage,
    }
}

/// The diagnostic of a failure. A configuration failure names the setting; a
/// backend failure says whether the request failed or the response was bad; an
/// unparseable body names its method.
pub open spec fn message_of(f: FailureView) -> Seq<char> {
    match f {
        FailureView::MalformedDeclaration => "the declaration is not an impl block"@,
        FailureView::MalformedArguments => "the generation arguments are malformed"@,
        FailureView::MissingCredential => "missing OPENAI_API_KEY"@,
        FailureView::NetworkDisabled =>
            "network disabled (OPENAI_OFFLINE=1 or feature=no-network)"@,
        FailureView::NoCachedGeneration => "no cached generation available in offline mode"@,
        FailureView::RequestFailed => "request failed"@,
        FailureView::BadStatus(code) => "bad response: status "@ + decimal(code as nat),
        FailureView::UnreadableBody => "bad response: read body failed"@,
        FailureView::MalformedEnvelope => "bad response: parse api json"@,
        FailureView::MissingContent => "bad response: missing content"@,
        FailureView::FragmentCount { expected, found } => (if found < expected {
            "not enough bodies returned: expected "@
        } else {
            "too many bodies returned compared to fn methods: expected "@
        }) + decimal(expected) + ", found "@ + decimal(found),
        FailureView::UnparseableBody { index, name } =>
            "failed to parse generated body into a block: method "@ + name + " at position "@
                + decimal(index),
        FailureView::MalformedResult => "the synthesized declaration does not parse"@,
        FailureView::UnexpectedEvent => "the event does not fit the pipeline's state"@,
    }
}

impl Failure {
    pub fn kind(&self) -> (k: FailureKind)
        ensures
            k == kind_of(self@),
    {
        match self {
            Failure::MalformedDeclaration | Failure::MalformedArguments => FailureKind::Parse,
            Failure::MissingCredential
            | Failure::NetworkDisabled
            | Failure::NoCachedGeneration => FailureKind::Configuration,
            Failure::RequestFailed
            | Failure::BadStatus(_)
            | Failure::UnreadableBody
            | Failure::MalformedEnvelope
            | Failure::MissingContent => FailureKind::Backend,
            Failure::FragmentCount { .. }
            | Failure::UnparseableBody { .. }
            | Failure::MalformedResult => FailureKind::Validation,
            Failure::UnexpectedEvent => FailureKind::Usage,
        }
    }

    pub fn message(&self) -> (m: String)
        ensures
            m@ == message_of(self@),
    {
        match self {
            Failure::MalformedDeclaration => copy_text("the declaration is not an impl block"),
            Failure::MalformedArguments => copy_text("the generation arguments are malformed"),
            Failure::MissingCredential => copy_text("missing OPENAI_API_KEY"),
            Failure::NetworkDisabled => copy_text(
                "network disabled (OPENAI_OFFLINE=1 or feature=no-network)",
            ),
            Failure::NoCachedGeneration => copy_text(
                "no cached generation available in offline mode",
            ),
            Failure::RequestFailed => copy_text("request failed"),
            Failure::BadStatus(code) => {
                let mut m = copy_text("bad response: status ");
                m.append(decimal_text(*code as u64).as_str());
                m
            },
            Failure::UnreadableBody => copy_text("bad response: read body failed"),
            Failure::MalformedEnvelope => copy_text("bad response: parse api json"),
            Failure::MissingContent => copy_text("bad response: missing content"),
            Failure::FragmentCount { expected, found } => {
                let mut m = if *found < *expected {
                    copy_text("not enough bodies returned: expected ")
                } else {
                    copy_text("too many bodies returned compared to fn methods: expected ")
                };
                m.append(decimal_text(*expected as u64).as_str());
                m.append(", found ");
                m.append(decimal_text(*found as u64).as_str());
                m
            },
            Failure::UnparseableBody { index, name } => {
                let mut m = copy_text("failed to parse generated body into a block: method ");
                m.append(name.as_str());
                m.append(" at position ");
                m.append(decimal_text(*index as u64).as_str());
                m
            },
            Failure::MalformedResult => copy_text("the synthesized declaration does not parse"),
            Failure::UnexpectedEvent => copy_text("the event does not fit the pipeline's state"),
        }
    }
}

} // verus!
