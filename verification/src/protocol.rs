//! The operations that clients ask for and the wire formats that they speak.

use vstd::prelude::*;

verus! {

/// A family of wire formats.
#[derive(Clone, Copy, Debug, PartialEq, Eq, Structural)]
pub enum Provider {
    OpenAi,
    Claude,
    Gemini,
}

/// The wire format of a content generation.
#[derive(Clone, Copy, Debug, PartialEq, Eq, Structural)]
pub enum ContentGenerationKind {
    OpenAiResponses,
    OpenAiChatCompletions,
    ClaudeMessages,
    GeminiGenerateContent,
}

/// What a client asks for.
#[derive(Clone, Copy, Debug, PartialEq, Eq, Structural)]
pub enum Operation {
    ListModels,
    GetModel,
    CountTokens,
    GenerateContent,
    StreamGenerateContent,
    CreateEmbedding,
    CreateImage,
    EditImage,
    CompactContent,
}

/// The wire format of an operation: content generations have formats of their
/// own, every other operation that of a family.
#[derive(Clone, Copy, Debug, PartialEq, Eq, Structural)]
pub enum OperationKind {
    ContentGeneration(ContentGenerationKind),
    Provider(Provider),
}

/// An operation in a wire format.
#[derive(Clone, Copy, Debug, PartialEq, Eq, Structural)]
pub struct OperationKey {
    pub operation: Operation,
    pub kind: OperationKind,
}

impl Operation {
    /// Whether requests carry a body: all do but those that read the models.
    pub open spec fn carries_body(self) -> bool {
        !(self is ListModels) && !(self is GetModel)
    }

    /// Whether this generates content, streamed or whole.
    pub open spec fn generates_content(self) -> bool {
        self is GenerateContent || self is StreamGenerateContent
    }

    /// Whether requests carry a body.
    pub fn has_request_body(self) -> (r: bool)
        ensures
            r == self.carries_body(),
    {
        !matches!(self, Operation::ListModels | Operation::GetModel)
    }

    /// Whether this generates content.
    pub fn is_content_generation(self) -> (r: bool)
        ensures
            r == self.generates_content(),
    {
        matches!(self, Operation::GenerateContent | Operation::StreamGenerateContent)
    }
}

/// What becomes of a request for an operation.
#[derive(Clone, Copy, Debug, PartialEq, Eq, Structural)]
pub enum RouteAction {
    /// It goes to the upstream in the format that it came in.
    Passthrough,
}

/// One row of a routing table.
#[derive(Clone, Copy, Debug, PartialEq, Eq, Structural)]
pub struct Route {
    pub key: OperationKey,
    pub action: RouteAction,
}

/// A routing table.
pub type RouteList = Vec<Route>;

/// The row that passes `operation` through in the format `kind`.
pub open spec fn passed(operation: Operation, kind: OperationKind) -> Route {
    Route { key: OperationKey { operation, kind }, action: RouteAction::Passthrough }
}

/// The format of a content generation.
pub fn cg(kind: ContentGenerationKind) -> (r: OperationKind)
    ensures
        r == OperationKind::ContentGeneration(kind),
{
    OperationKind::ContentGeneration(kind)
}

/// The format of a family.
pub fn pv(provider: Provider) -> (r: OperationKind)
    ensures
        r == OperationKind::Provider(provider),
{
    OperationKind::Provider(provider)
}

/// The row that passes `operation` through in the format `kind`.
pub fn pass(operation: Operation, kind: OperationKind) -> (r: Route)
    ensures
        r == passed(operation, kind),
{
    Route { key: OperationKey { operation, kind }, action: RouteAction::Passthrough }
}

} // verus!
