//! The local-inference dispatcher: picks which of the model runtime's
//! operations a request asks for. Running the operation is the caller's.

use vstd::prelude::*;
use crate::config::ServiceConfig;
use crate::error::GatewayError;
use crate::message::InboundRequest;
use crate::text::is_concat;

verus! {

/// The operations that the model runtime offers.
#[derive(Clone, Copy, Debug, PartialEq, Eq, Structural)]
pub enum LlamaOperation {
    ChatCompletions,
    Completions,
    Embeddings,
    Models,
}

impl LlamaOperation {
    /// The path suffix that names the operation under a route's prefix.
    pub open spec fn path_suffix(self) -> Seq<char> {
        match self {
            LlamaOperation::ChatCompletions => "/chat/completions"@,
            LlamaOperation::Completions => "/completions"@,
            LlamaOperation::Embeddings => "/embeddings"@,
            LlamaOperation::Models => "/models"@,
        }
    }

    /// The path suffix that names the operation under a route's prefix.
    pub fn suffix(self) -> (text: &'static str)
        ensures
            text@ == self.path_suffix(),
    {
        match self {
            LlamaOperation::ChatCompletions => "/chat/completions",
            LlamaOperation::Completions => "/completions",
            LlamaOperation::Embeddings => "/embeddings",
            LlamaOperation::Models => "/models",
        }
    }
}

/// The path is the prefix followed by exactly the operation's suffix.
pub open spec fn selects(path: Seq<char>, prefix: Seq<char>, operation: LlamaOperation) -> bool {
    path == prefix + operation.path_suffix()
}

/// The operation that a path names under a prefix, if it names one.
pub open spec fn operation_of(path: Seq<char>, prefix: Seq<char>) -> Option<LlamaOperation> {
    if selects(path, prefix, LlamaOperation::ChatCompletions) {
        Some(LlamaOperation::ChatCompletions)
    } else if selects(path, prefix, LlamaOperation::Completions) {
        Some(LlamaOperation::Completions)
    } else if selects(path, prefix, LlamaOperation::Embeddings) {
        Some(LlamaOperation::Embeddings)
    } else if selects(path, prefix, LlamaOperation::Models) {
        Some(LlamaOperation::Models)
    } else {
        None
    }
}

/// What the dispatcher yields for a path under a prefix.
pub open spec fn llama_outcome(
    path: Seq<char>,
    prefix: Seq<char>,
) -> Result<LlamaOperation, GatewayError> {
    match operation_of(path, prefix) {
        Some(operation) => Ok(operation),
        None => Err(GatewayError::UnsupportedOperation),
    }
}

/// Picks the operation that `req` asks of the route: the one whose suffix,
/// put after the route's prefix, gives the request path exactly. Any other
/// path is an unsupported operation.
pub fn handle_llama_request(
    req: &InboundRequest,
    service_config: &ServiceConfig,
) -> (outcome: Result<LlamaOperation, GatewayError>)
    ensures
        outcome == llama_outcome(req.path@, service_config.path@),
{
    let path = req.path.as_str();
    let prefix = service_config.path.as_str();
    if is_concat(path, prefix, LlamaOperation::ChatCompletions.suffix()) {
        Ok(LlamaOperation::ChatCompletions)
    } else if is_concat(path, prefix, LlamaOperation::Completions.suffix()) {
        Ok(LlamaOperation::Completions)
    } else if is_concat(path, prefix, LlamaOperation::Embeddings.suffix()) {
        Ok(LlamaOperation::Embeddings)
    } else if is_concat(path, prefix, LlamaOperation::Models.suffix()) {
        Ok(LlamaOperation::Models)
    } else {
        Err(GatewayError::UnsupportedOperation)
    }
}

/// No two operations share a suffix.
pub proof fn lemma_suffixes_differ(a: LlamaOperation, b: LlamaOperation)
    requires
        a != b,
    ensures
        a.path_suffix() != b.path_suffix(),
{
    reveal_strlit("/chat/completions");
    reveal_strlit("/completions");
    reveal_strlit("/embeddings");
    reveal_strlit("/models");
    assert(a.path_suffix().len() != b.path_suffix().len());
}

/// A path names at most one operation under a prefix.
pub proof fn lemma_selects_one(
    path: Seq<char>,
    prefix: Seq<char>,
    a: LlamaOperation,
    b: LlamaOperation,
)
    requires
        selects(path, prefix, a),
        selects(path, prefix, b),
    ensures
        a == b,
{
    if a != b {
        lemma_suffixes_differ(a, b);
        assert(path.subrange(prefix.len() as int, path.len() as int) =~= a.path_suffix());
        assert(path.subrange(prefix.len() as int, path.len() as int) =~= b.path_suffix());
    }
}

/// Each operation is reached by its own suffix under any prefix, and by
/// nothing else: the dispatcher yields an operation exactly for the path that
/// is the prefix followed by that operation's suffix.
pub proof fn lemma_operation_routes(path: Seq<char>, prefix: Seq<char>, operation: LlamaOperation)
    ensures
        llama_outcome(prefix + operation.path_suffix(), prefix) == Ok::<LlamaOperation, GatewayError>(
            operation,
        ),
        llama_outcome(path, prefix) == Ok::<LlamaOperation, GatewayError>(operation) <==> path
            == prefix + operation.path_suffix(),
{
    let named = prefix + operation.path_suffix();
    assert(selects(named, prefix, operation));
    match operation_of(named, prefix) {
        Some(other) => {
            lemma_selects_one(named, prefix, operation, other);
        },
        None => {},
    }
    if selects(path, prefix, operation) {
        match operation_of(path, prefix) {
            Some(other) => {
                lemma_selects_one(path, prefix, operation, other);
            },
            None => {},
        }
    }
}

/// A path that is not the prefix followed by one of the four suffixes names
/// no operation.
pub proof fn lemma_other_paths_unsupported(path: Seq<char>, prefix: Seq<char>)
    requires
        forall|operation: LlamaOperation| path != prefix + operation.path_suffix(),
    ensures
        llama_outcome(path, prefix) == Err::<LlamaOperation, GatewayError>(
            GatewayError::UnsupportedOperation,
        ),
{
    assert(!selects(path, prefix, LlamaOperation::ChatCompletions));
    assert(!selects(path, prefix, LlamaOperation::Completions));
    assert(!selects(path, prefix, LlamaOperation::Embeddings));
    assert(!selects(path, prefix, LlamaOperation::Models));
}

} // verus!
