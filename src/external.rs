//! Declarations of the outside types that the library carries or reads, and
//! the outside calls it makes.

use vstd::prelude::*;

verus! {

#[verifier::external_type_specification]
#[verifier::external_body]
pub struct ExAnyhowError(anyhow::Error);

#[verifier::external_type_specification]
#[verifier::external_body]
pub struct ExDiagnostic(lsp_types::Diagnostic);

#[verifier::external_type_specification]
#[verifier::external_body]
pub struct ExLocation(lsp_types::Location);

#[verifier::external_type_specification]
#[verifier::external_body]
pub struct ExCompletionItem(lsp_types::CompletionItem);

#[verifier::external_type_specification]
#[verifier::external_body]
pub struct ExUrl(url::Url);

#[verifier::external_type_specification]
#[verifier::external_body]
pub struct ExValue(serde_json::Value);

#[verifier::external_type_specification]
#[verifier::external_body]
pub struct ExJsonError(serde_json::Error);

#[verifier::external_type_specification]
#[verifier::external_body]
pub struct ExRequestId(lsp_server::RequestId);

#[verifier::external_type_specification]
pub struct ExRequest(lsp_server::Request);

#[verifier::external_type_specification]
pub struct ExPosition(lsp_types::Position);

#[verifier::external_type_specification]
pub struct ExTextDocumentIdentifier(lsp_types::TextDocumentIdentifier);

#[verifier::external_type_specification]
pub struct ExTextDocumentPositionParams(lsp_types::TextDocumentPositionParams);

#[verifier::external_type_specification]
#[verifier::external_body]
pub struct ExWorkDoneProgressParams(lsp_types::WorkDoneProgressParams);

#[verifier::external_type_specification]
#[verifier::external_body]
pub struct ExPartialResultParams(lsp_types::PartialResultParams);

#[verifier::external_type_specification]
pub struct ExGotoDefinitionParams(lsp_types::GotoDefinitionParams);

#[verifier::external_type_specification]
pub struct ExReferenceContext(lsp_types::ReferenceContext);

#[verifier::external_type_specification]
pub struct ExReferenceParams(lsp_types::ReferenceParams);

#[verifier::external_type_specification]
#[verifier::external_body]
pub struct ExCompletionContext(lsp_types::CompletionContext);

#[verifier::external_type_specification]
pub struct ExCompletionParams(lsp_types::CompletionParams);

/// Whether a JSON payload has the shape of go-to-definition parameters.
pub uninterp spec fn goto_definition_decodes(v: serde_json::Value) -> bool;

/// Whether a JSON payload has the shape of find-references parameters.
pub uninterp spec fn references_decode(v: serde_json::Value) -> bool;

/// Whether a JSON payload has the shape of completion parameters.
pub uninterp spec fn completion_decodes(v: serde_json::Value) -> bool;

/// The path component of a URL.
pub uninterp spec fn url_path_of(u: url::Url) -> Seq<char>;

/// Relies on serde_json::from_value to read go-to-definition parameters out
/// of a request's JSON payload; a payload of another shape is an error, and
/// which payloads decode depends on the payload alone.
#[verifier::external_body]
pub(crate) fn decode_goto_definition(params: &serde_json::Value) -> (r: Result<
    lsp_types::GotoDefinitionParams,
    serde_json::Error,
>)
    ensures
        r is Ok <==> goto_definition_decodes(*params),
{
    serde_json::from_value::<lsp_types::GotoDefinitionParams>(params.clone())
}

/// Relies on serde_json::from_value to read find-references parameters out
/// of a request's JSON payload; a payload of another shape is an error, and
/// which payloads decode depends on the payload alone.
#[verifier::external_body]
pub(crate) fn decode_references(params: &serde_json::Value) -> (r: Result<
    lsp_types::ReferenceParams,
    serde_json::Error,
>)
    ensures
        r is Ok <==> references_decode(*params),
{
    serde_json::from_value::<lsp_types::ReferenceParams>(params.clone())
}

/// Relies on serde_json::from_value to read completion parameters out of a
/// request's JSON payload; a payload of another shape is an error, and
/// which payloads decode depends on the payload alone.
#[verifier::external_body]
pub(crate) fn decode_completion(params: &serde_json::Value) -> (r: Result<
    lsp_types::CompletionParams,
    serde_json::Error,
>)
    ensures
        r is Ok <==> completion_decodes(*params),
{
    serde_json::from_value::<lsp_types::CompletionParams>(params.clone())
}

/// Relies on url::Url::path: the path component of a document URI, a slice
/// of the URL's own text.
#[verifier::external_body]
pub(crate) fn uri_path(uri: &url::Url) -> (r: String)
    ensures
        r@ == url_path_of(*uri),
{
    uri.path().to_string()
}

/// Relies on url::Url::to_file_path: the local file path that a `file:` URI
/// names, `None` for a URI that names none.
#[verifier::external_body]
pub(crate) fn uri_file_path(uri: &url::Url) -> Option<String> {
    match uri.to_file_path() {
        Ok(p) => Some(p.display().to_string()),
        Err(()) => None,
    }
}

} // verus!
