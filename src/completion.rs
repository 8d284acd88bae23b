//! Handler of completion requests.

use crate::context::{has_buffer, Context};
use crate::external::{completion_decodes, decode_completion, uri_path, url_path_of};
use crate::requests::RequestError;
use lsp_server::Request;
use lsp_types::{CompletionItem, CompletionParams};
use vstd::prelude::*;

verus! {

/// Answer to a completion request. A missing buffer degrades the answer
/// (the caller logs a warning) but is no error.
#[derive(Debug)]
pub struct CompletionOutcome {
    /// Path of the document the request is about.
    pub path: String,
    pub items: Vec<CompletionItem>,
    /// No buffer is open for `path`.
    pub missing_buffer: bool,
}

/// Answer to a completion request whose payload decoded to `decoded`.
pub fn completion_response(context: &Context, decoded: Result<CompletionParams, serde_json::Error>) -> (r:
    Result<CompletionOutcome, RequestError>)
    ensures
        match decoded {
            Ok(p) => r matches Ok(o) && o.path@ == url_path_of(p.text_document_position.text_document.uri)
                && o.items@ == Seq::<CompletionItem>::empty() && (o.missing_buffer <==> !has_buffer(
                context@,
                o.path@,
            )),
            Err(e) => r == Err::<CompletionOutcome, RequestError>(RequestError::InvalidParams(e)),
        },
{
    match decoded {
        Ok(parameters) => {
            let path = uri_path(&parameters.text_document_position.text_document.uri);
            let missing_buffer = match context.buffer(&path) {
                Some(_) => {
                    assert(has_buffer(context@, path@)) by {
                        let i = choose|i: int| 0 <= i < context@.len() && context@[i].0 == path@;
                        assert(context@[i].0 == path@);
                    }
                    false
                },
                None => true,
            };
            Ok(CompletionOutcome { path, items: Vec::new(), missing_buffer })
        },
        Err(e) => Err(RequestError::InvalidParams(e)),
    }
}

/// Handles a completion request: looks up the buffer of the document it is
/// about, and answers even when there is none.
pub fn on_completion_request(context: &Context, request: &Request) -> (r: Result<
    CompletionOutcome,
    RequestError,
>)
    ensures
        r is Ok <==> completion_decodes(request.params),
        r matches Ok(o) ==> o.items@ == Seq::<CompletionItem>::empty() && (o.missing_buffer
            <==> !has_buffer(context@, o.path@)),
{
    completion_response(context, decode_completion(&request.params))
}

} // verus!
