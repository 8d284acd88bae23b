//! Handlers of go-to-definition and find-references requests.

use crate::external::{
    decode_goto_definition, decode_references, goto_definition_decodes, references_decode, uri_path,
    url_path_of,
};
use crate::symbols::Symbols;
use crate::context::Context;
use lsp_server::Request;
use lsp_types::{GotoDefinitionParams, Location, ReferenceParams, TextDocumentPositionParams};
use vstd::prelude::*;

verus! {

/// Why a request could not be answered.
#[derive(Debug)]
pub enum RequestError {
    /// The payload does not have the shape the request's method calls for.
    InvalidParams(serde_json::Error),
}

/// The place in a document that a request asks about.
pub struct PositionQuery {
    pub path: String,
    pub line: u32,
    pub character: u32,
    /// For find-references: whether the declaration itself is wanted too.
    pub include_declaration: bool,
}

/// The document path and cursor position of a request.
pub fn position_query(params: &TextDocumentPositionParams, include_declaration: bool) -> (r: PositionQuery)
    ensures
        r.path@ == url_path_of(params.text_document.uri),
        r.line == params.position.line,
        r.character == params.position.character,
        r.include_declaration == include_declaration,
{
    PositionQuery {
        path: uri_path(&params.text_document.uri),
        line: params.position.line,
        character: params.position.character,
        include_declaration,
    }
}

/// The query of a go-to-definition request.
pub fn definition_query(params: &GotoDefinitionParams) -> (r: PositionQuery)
    ensures
        r.path@ == url_path_of(params.text_document_position_params.text_document.uri),
        r.line == params.text_document_position_params.position.line,
        r.character == params.text_document_position_params.position.character,
        !r.include_declaration,
{
    position_query(&params.text_document_position_params, false)
}

/// The query of a find-references request.
pub fn references_query(params: &ReferenceParams) -> (r: PositionQuery)
    ensures
        r.path@ == url_path_of(params.text_document_position.text_document.uri),
        r.line == params.text_document_position.position.line,
        r.character == params.text_document_position.position.character,
        r.include_declaration == params.context.include_declaration,
{
    position_query(&params.text_document_position, params.context.include_declaration)
}

/// Where the symbols at the queried position are defined or used, according
/// to `symbols`. A table records no source positions, so nothing resolves at
/// any position and the answer is empty until the analyzer supplies them.
pub fn resolve(symbols: &Symbols, query: &PositionQuery) -> (r: Vec<Location>)
    ensures
        r@ == Seq::<Location>::empty(),
{
    Vec::new()
}

/// Answer to a go-to-definition request whose payload decoded to `decoded`.
pub fn go_to_def_response(decoded: Result<GotoDefinitionParams, serde_json::Error>, symbols: &Symbols) -> (r:
    Result<Vec<Location>, RequestError>)
    ensures
        match decoded {
            Ok(_) => r matches Ok(v) && v@ == Seq::<Location>::empty(),
            Err(e) => r == Err::<Vec<Location>, RequestError>(RequestError::InvalidParams(e)),
        },
{
    match decoded {
        Ok(params) => Ok(resolve(symbols, &definition_query(&params))),
        Err(e) => Err(RequestError::InvalidParams(e)),
    }
}

/// Answer to a find-references request whose payload decoded to `decoded`.
pub fn references_response(decoded: Result<ReferenceParams, serde_json::Error>, symbols: &Symbols) -> (r:
    Result<Vec<Location>, RequestError>)
    ensures
        match decoded {
            Ok(_) => r matches Ok(v) && v@ == Seq::<Location>::empty(),
            Err(e) => r == Err::<Vec<Location>, RequestError>(RequestError::InvalidParams(e)),
        },
{
    match decoded {
        Ok(params) => Ok(resolve(symbols, &references_query(&params))),
        Err(e) => Err(RequestError::InvalidParams(e)),
    }
}

/// Handles a go-to-definition request against the committed table
/// `symbols`. Never waits for a recomputation; a malformed payload is an
/// error answer, not a crash.
pub fn on_go_to_def_request(context: &Context, request: &Request, symbols: &Symbols) -> (r: Result<
    Vec<Location>,
    RequestError,
>)
    ensures
        r is Ok <==> goto_definition_decodes(request.params),
        r matches Ok(v) ==> v@ == Seq::<Location>::empty(),
{
    go_to_def_response(decode_goto_definition(&request.params), symbols)
}

/// Handles a find-references request against the committed table `symbols`.
pub fn on_references_request(context: &Context, request: &Request, symbols: &Symbols) -> (r: Result<
    Vec<Location>,
    RequestError,
>)
    ensures
        r is Ok <==> references_decode(request.params),
        r matches Ok(v) ==> v@ == Seq::<Location>::empty(),
{
    references_response(decode_references(&request.params), symbols)
}

} // verus!
