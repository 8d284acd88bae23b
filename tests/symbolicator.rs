use lsp_server::{Request, RequestId};
use lsp_types::{Diagnostic, Position, Range};
use std::collections::BTreeMap;
use symbolicator::completion::on_completion_request;
use symbolicator::context::Context;
use symbolicator::requests::{
    definition_query, on_go_to_def_request, on_references_request, references_query, RequestError,
};
use symbolicator::runner::{RunnerState, SymbolicatorRunner, WorkerStep};
use symbolicator::store::SymbolStore;
use symbolicator::symbols::{DiagnosticsReport, Symbol, Symbolicator, Symbols};

fn request(method: &str, params: &str) -> Request {
    Request {
        id: RequestId::from(1),
        method: method.to_string(),
        params: serde_json::from_str(params).unwrap(),
    }
}

fn position_payload(uri: &str, line: u32, character: u32) -> String {
    format!(
        "{{\"textDocument\":{{\"uri\":\"{}\"}},\"position\":{{\"line\":{},\"character\":{}}}}}",
        uri, line, character
    )
}

fn references_payload(uri: &str, line: u32, character: u32, with_decl: bool) -> String {
    format!(
        "{{\"textDocument\":{{\"uri\":\"{}\"}},\"position\":{{\"line\":{},\"character\":{}}},\"context\":{{\"includeDeclaration\":{}}}}}",
        uri, line, character, with_decl
    )
}

fn sym(id: u64) -> Symbol {
    Symbol::new(id).unwrap()
}

fn report_with(symbol: Symbol, message: &str) -> DiagnosticsReport {
    let mut report = BTreeMap::new();
    let range = Range::new(Position::new(0, 0), Position::new(0, 1));
    report.insert(symbol, vec![Diagnostic::new_simple(range, message.to_string())]);
    report
}

#[test]
fn symbol_zero_is_no_handle() {
    assert!(Symbol::new(0).is_none());
    assert_eq!(sym(7).id(), 7);
}

#[test]
fn symbol_order_follows_handles() {
    assert!(sym(1) < sym(2));
    assert!(sym(9) > sym(3));
    assert_eq!(sym(4), sym(4));
    let mut report = BTreeMap::new();
    report.insert(sym(5), 0u8);
    report.insert(sym(2), 1u8);
    report.insert(sym(8), 2u8);
    let keys: Vec<u64> = report.keys().map(|s| s.id()).collect();
    assert_eq!(keys, vec![2, 5, 8]);
}

#[test]
fn symbol_equal_handles_hash_equal() {
    let mut set = std::collections::HashSet::new();
    set.insert(sym(3));
    set.insert(sym(3));
    set.insert(sym(4));
    assert_eq!(set.len(), 2);
}

#[test]
fn idle_runner_never_schedules() {
    let mut runner = SymbolicatorRunner::idle();
    assert_eq!(runner.state(), RunnerState::Wait);
    assert!(runner.root().is_none());
    runner.run();
    runner.run();
    assert_eq!(runner.state(), RunnerState::Wait);
    assert_eq!(runner.next_step(), WorkerStep::Sleep);
    runner.quit();
    assert_eq!(runner.next_step(), WorkerStep::Exit);
}

#[test]
fn triggers_during_a_pass_coalesce() {
    let mut runner = SymbolicatorRunner::for_root("/proj".to_string());
    runner.run();
    assert_eq!(runner.next_step(), WorkerStep::Recompute);
    // a pass is now running; three more triggers arrive
    runner.run();
    runner.run();
    runner.run();
    assert_eq!(runner.state(), RunnerState::Run);
    assert_eq!(runner.next_step(), WorkerStep::Recompute);
    assert_eq!(runner.next_step(), WorkerStep::Sleep);
}

#[test]
fn no_pass_after_quit() {
    let mut runner = SymbolicatorRunner::for_root("/proj".to_string());
    runner.run();
    runner.quit();
    runner.run();
    runner.run();
    assert_eq!(runner.state(), RunnerState::Quit);
    assert_eq!(runner.next_step(), WorkerStep::Exit);
    runner.quit();
    assert_eq!(runner.next_step(), WorkerStep::Exit);
}

#[test]
fn waiting_runner_sleeps() {
    let mut runner = SymbolicatorRunner::for_root("/proj".to_string());
    assert_eq!(runner.next_step(), WorkerStep::Sleep);
    assert_eq!(runner.root().map(|r| r.as_str()), Some("/proj"));
}

#[test]
fn runner_from_file_uri() {
    let uri = url::Url::parse("file:///home/user/pkg").unwrap();
    let runner = SymbolicatorRunner::new(&uri).unwrap();
    assert_eq!(runner.state(), RunnerState::Wait);
    assert_eq!(runner.root().map(|r| r.as_str()), Some("/home/user/pkg"));
}

#[test]
fn runner_from_non_file_uri() {
    let uri = url::Url::parse("https://example.com/pkg").unwrap();
    assert!(SymbolicatorRunner::new(&uri).is_none());
}

#[test]
fn get_before_any_pass_is_empty() {
    let store = SymbolStore::new();
    assert!(store.get(&"/proj".to_string()).symbols().is_empty());
}

#[test]
fn analyzer_gives_empty_table_and_report() {
    let (table, report) = Symbolicator::get_symbols("/proj").unwrap();
    assert!(table.unwrap().symbols().is_empty());
    assert!(report.is_empty());
    assert!(Symbolicator::empty_symbols().symbols().is_empty());
}

#[test]
fn failed_pass_keeps_last_table() {
    let mut store = SymbolStore::new();
    let root = "/proj".to_string();
    let first = store.commit_pass(&root, Ok((Some(Symbols::new(vec![sym(1), sym(2)])), BTreeMap::new())));
    assert!(first.is_ok());
    let sent = store.commit_pass(&root, Err(anyhow::Error::msg("cannot build")));
    match sent {
        Err(e) => assert_eq!(e.to_string(), "cannot build"),
        Ok(_) => panic!("a failed pass must report its error"),
    }
    let ids: Vec<u64> = store.get(&root).symbols().iter().map(|s| s.id()).collect();
    assert_eq!(ids, vec![1, 2]);
}

#[test]
fn pass_without_table_keeps_last_table() {
    let mut store = SymbolStore::new();
    let root = "/proj".to_string();
    store.commit_pass(&root, Ok((Some(Symbols::new(vec![sym(3)])), BTreeMap::new()))).unwrap();
    let sent = store.commit_pass(&root, Ok((None, report_with(sym(3), "stale")))).unwrap();
    assert_eq!(sent.len(), 1);
    let ids: Vec<u64> = store.get(&root).symbols().iter().map(|s| s.id()).collect();
    assert_eq!(ids, vec![3]);
}

#[test]
fn successful_pass_replaces_table_and_report() {
    let mut store = SymbolStore::new();
    let root = "/proj".to_string();
    let first = store
        .commit_pass(&root, Ok((Some(Symbols::new(vec![sym(1)])), report_with(sym(1), "old"))))
        .unwrap();
    assert_eq!(first.len(), 1);
    let second = store
        .commit_pass(&root, Ok((Some(Symbols::new(vec![sym(4), sym(5)])), report_with(sym(5), "new"))))
        .unwrap();
    assert_eq!(second.len(), 1);
    assert!(second.contains_key(&sym(5)));
    assert!(!second.contains_key(&sym(1)));
    assert_eq!(second[&sym(5)][0].message, "new");
    let ids: Vec<u64> = store.get(&root).symbols().iter().map(|s| s.id()).collect();
    assert_eq!(ids, vec![4, 5]);
}

#[test]
fn store_keeps_roots_apart() {
    let mut store = SymbolStore::new();
    store.replace("/a".to_string(), Symbols::new(vec![sym(1)]));
    store.replace("/b".to_string(), Symbols::new(vec![sym(2)]));
    store.replace("/a".to_string(), Symbols::new(vec![sym(3)]));
    assert_eq!(store.get(&"/a".to_string()).symbols()[0].id(), 3);
    assert_eq!(store.get(&"/b".to_string()).symbols()[0].id(), 2);
    assert!(store.get(&"/c".to_string()).symbols().is_empty());
}

#[test]
fn five_triggers_run_one_pass() {
    let mut runner = SymbolicatorRunner::for_root("/proj".to_string());
    let mut store = SymbolStore::new();
    for _ in 0..5 {
        runner.run();
    }
    let mut passes = 0;
    let mut reports = Vec::new();
    loop {
        match runner.next_step() {
            WorkerStep::Recompute => {
                passes += 1;
                let root = runner.root().unwrap().clone();
                let outcome = Ok((Some(Symbols::new(vec![sym(11)])), report_with(sym(11), "pass")));
                reports.push(store.commit_pass(&root, outcome));
            }
            WorkerStep::Sleep | WorkerStep::Exit => break,
        }
    }
    assert_eq!(passes, 1);
    assert_eq!(reports.len(), 1);
    assert!(reports[0].is_ok());
    let ids: Vec<u64> = store.get(&"/proj".to_string()).symbols().iter().map(|s| s.id()).collect();
    assert_eq!(ids, vec![11]);
}

#[test]
fn snapshot_copies_table() {
    let table = Symbols::new(vec![sym(2), sym(6)]);
    let copy = table.snapshot();
    assert_eq!(copy.symbols(), table.symbols());
}

#[test]
fn completion_without_buffer_is_degraded() {
    let context = Context::new();
    let req = request("textDocument/completion", &position_payload("file:///proj/a.move", 3, 4));
    let outcome = on_completion_request(&context, &req).unwrap();
    assert!(outcome.missing_buffer);
    assert!(outcome.items.is_empty());
    assert_eq!(outcome.path, "/proj/a.move");
}

#[test]
fn completion_with_buffer() {
    let mut context = Context::new();
    context.open_buffer("/proj/a.move".to_string(), "module a {}".to_string());
    let req = request("textDocument/completion", &position_payload("file:///proj/a.move", 0, 0));
    let outcome = on_completion_request(&context, &req).unwrap();
    assert!(!outcome.missing_buffer);
}

#[test]
fn completion_malformed_payload() {
    let context = Context::new();
    let req = request("textDocument/completion", "{\"position\":7}");
    assert!(matches!(on_completion_request(&context, &req), Err(RequestError::InvalidParams(_))));
}

#[test]
fn go_to_def_before_any_pass_is_empty() {
    let context = Context::new();
    let store = SymbolStore::new();
    let req = request("textDocument/definition", &position_payload("file:///proj/a.move", 1, 2));
    let locations = on_go_to_def_request(&context, &req, store.get(&"/proj".to_string())).unwrap();
    assert!(locations.is_empty());
}

#[test]
fn go_to_def_malformed_payload() {
    let context = Context::new();
    let req = request("textDocument/definition", "[1,2]");
    let r = on_go_to_def_request(&context, &req, &Symbolicator::empty_symbols());
    assert!(matches!(r, Err(RequestError::InvalidParams(_))));
}

#[test]
fn references_answer_and_error() {
    let context = Context::new();
    let table = Symbols::new(vec![sym(1)]);
    let ok = request("textDocument/references", &references_payload("file:///proj/b.move", 5, 6, true));
    assert!(on_references_request(&context, &ok, &table).unwrap().is_empty());
    let bad = request("textDocument/references", &position_payload("file:///proj/b.move", 5, 6));
    assert!(matches!(on_references_request(&context, &bad, &table), Err(RequestError::InvalidParams(_))));
}

#[test]
fn definition_query_reads_position() {
    let params: lsp_types::GotoDefinitionParams =
        serde_json::from_str(&position_payload("file:///proj/src/m.move", 12, 30)).unwrap();
    let q = definition_query(&params);
    assert_eq!(q.path, "/proj/src/m.move");
    assert_eq!(q.line, 12);
    assert_eq!(q.character, 30);
    assert!(!q.include_declaration);
}

#[test]
fn references_query_reads_flag() {
    let params: lsp_types::ReferenceParams =
        serde_json::from_str(&references_payload("file:///proj/c.move", 2, 9, true)).unwrap();
    let q = references_query(&params);
    assert_eq!(q.path, "/proj/c.move");
    assert_eq!((q.line, q.character), (2, 9));
    assert!(q.include_declaration);
}

#[test]
fn context_returns_latest_buffer() {
    let mut context = Context::new();
    context.open_buffer("/p/x".to_string(), "one".to_string());
    context.open_buffer("/p/y".to_string(), "other".to_string());
    context.open_buffer("/p/x".to_string(), "two".to_string());
    assert_eq!(context.buffer(&"/p/x".to_string()).map(|s| s.as_str()), Some("two"));
    assert_eq!(context.buffer(&"/p/y".to_string()).map(|s| s.as_str()), Some("other"));
    assert!(context.buffer(&"/p/z".to_string()).is_none());
}
