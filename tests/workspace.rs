use pols::classify::{classify_document, is_def_file, is_poweron_driver, is_pro_file, FileRole};
use pols::database::{load_account_record_fields, DataType, RecordType};
use pols::includes::{get_inc_files, resolve_include, search_scope, transitive_includes};
use pols::paths::get_basename_from_uri;
use pols::registry::{handle_did_change_text_document, parse_change, ParsedText, Registry};
use pols::resolve::{definition_target, find_declarations, handle_definition, QueryType};
use pols::symbols::{get_document_symbols, handle_document_symbol, SymbolKind};
use pols::syntax::{NodeInfo, Position};

const DRIVER_URI: &str = "file:///ws/report.rg";
const DRIVER: &str = "TARGET=ACCOUNT\n\nDEFINE\n #INCLUDE \"helpers.pro\"\n #INCLUDE \"vars.def\"\n WCOUNT=NUMBER\nEND\n\nPRINT TITLE=\"Report\"\n CALL DOSOMETHING\n WCOUNT=1\nEND\n";
const HELPERS_URI: &str = "file:///ws/lib/helpers.pro";
const HELPERS: &str = "PROCEDURE DOSOMETHING\n X=1\nEND\n";
const VARS_URI: &str = "file:///ws/vars.def";
const VARS: &str = "DEFINE\n WCOUNT=NUMBER\n WLIMIT=NUMBER\nEND\n";
const OTHER_URI: &str = "file:///ws/other.pro";
const OTHER: &str = "PROCEDURE DOSOMETHING\nEND\n";

fn workspace() -> Registry {
    let mut reg = Registry::new();
    reg.upsert(DRIVER_URI, DRIVER, 1);
    reg.upsert(HELPERS_URI, HELPERS, 1);
    reg.upsert(VARS_URI, VARS, 1);
    reg.upsert(OTHER_URI, OTHER, 1);
    reg
}

#[test]
fn upsert_then_get_returns_text() {
    let mut reg = Registry::new();
    reg.upsert("file:///ws/a.rg", "TARGET=ACCOUNT", 3);
    let doc = reg.get("file:///ws/a.rg").unwrap();
    assert_eq!(doc.text, "TARGET=ACCOUNT");
    assert_eq!(doc.version, 3);
    assert_eq!(doc.uri, "file:///ws/a.rg");
    assert_eq!(doc.language_id, "poweron");
    assert!(reg.has_tree("file:///ws/a.rg"));
    reg.upsert("file:///ws/a.rg", "PROCEDURE P\nEND\n", 4);
    assert_eq!(reg.len(), 1);
    let doc = reg.get("file:///ws/a.rg").unwrap();
    assert_eq!(doc.text, "PROCEDURE P\nEND\n");
    assert_eq!(doc.version, 4);
    assert!(reg.get("file:///ws/b.rg").is_none());
    assert!(!reg.has_tree("file:///ws/b.rg"));
}

#[test]
fn remove_drops_document_and_tree() {
    let mut reg = workspace();
    reg.remove(VARS_URI);
    assert_eq!(reg.len(), 3);
    assert!(reg.get(VARS_URI).is_none());
    assert!(!reg.has_tree(VARS_URI));
    assert!(reg.get(OTHER_URI).is_some());
    reg.remove("file:///ws/none.rg");
    assert_eq!(reg.len(), 3);
}

#[test]
fn snapshot_keeps_documents() {
    let reg = workspace();
    let snap = reg.snapshot();
    assert_eq!(snap.len(), 4);
    assert_eq!(snap.get(HELPERS_URI).unwrap().text, HELPERS);
    assert!(snap.has_tree(HELPERS_URI));
}

#[test]
fn file_roles_in_workspace() {
    let reg = workspace();
    assert_eq!(classify_document(&reg, DRIVER_URI), FileRole::Driver);
    assert_eq!(classify_document(&reg, HELPERS_URI), FileRole::Library);
    assert_eq!(classify_document(&reg, VARS_URI), FileRole::IncludeTable);
    assert_eq!(classify_document(&reg, "file:///ws/none.rg"), FileRole::Unclassified);
    assert!(is_poweron_driver(&reg, DRIVER_URI));
    assert!(!is_poweron_driver(&reg, HELPERS_URI));
    assert!(is_pro_file(&reg, HELPERS_URI));
    assert!(!is_pro_file(&reg, DRIVER_URI));
    assert!(is_def_file(&reg, VARS_URI));
    assert!(!is_def_file(&reg, DRIVER_URI));
}

#[test]
fn include_literals_resolve_to_registered_uris() {
    let reg = workspace();
    assert_eq!(resolve_include(&reg, "\"helpers.pro\""), Some(HELPERS_URI.to_string()));
    assert_eq!(resolve_include(&reg, "vars.def"), Some(VARS_URI.to_string()));
    assert_eq!(resolve_include(&reg, "\"missing.pro\""), None);
    assert_eq!(get_inc_files(&reg, DRIVER_URI), vec![HELPERS_URI.to_string(), VARS_URI.to_string()]);
    assert!(get_inc_files(&reg, HELPERS_URI).is_empty());
    assert!(get_inc_files(&reg, "file:///ws/none.rg").is_empty());
}

#[test]
fn unresolved_include_is_dropped() {
    let mut reg = Registry::new();
    reg.upsert("file:///ws/a.rg", "DEFINE\n #INCLUDE \"nowhere.def\"\n WCOUNT=NUMBER\nEND\n", 1);
    assert!(get_inc_files(&reg, "file:///ws/a.rg").is_empty());
    assert!(transitive_includes(&reg, "file:///ws/a.rg", 3).is_empty());
}

#[test]
fn transitive_includes_survive_cycles() {
    let mut reg = Registry::new();
    reg.upsert("file:///ws/a.def", "DEFINE\n #INCLUDE \"b.def\"\n WA=NUMBER\nEND\n", 1);
    reg.upsert("file:///ws/b.def", "DEFINE\n #INCLUDE \"a.def\"\n #INCLUDE \"c.def\"\n WB=NUMBER\nEND\n", 1);
    reg.upsert("file:///ws/c.def", "DEFINE\n #INCLUDE \"b.def\"\n WC=NUMBER\nEND\n", 1);
    let all = transitive_includes(&reg, "file:///ws/a.def", 3);
    assert_eq!(all, vec!["file:///ws/b.def".to_string(), "file:///ws/c.def".to_string()]);
    let scope = search_scope(&reg, "file:///ws/a.def", 3);
    assert_eq!(scope.len(), 3);
    assert_eq!(scope[0], "file:///ws/a.def");
}

#[test]
fn transitive_includes_stop_at_depth() {
    let mut reg = Registry::new();
    reg.upsert("file:///ws/l0.def", "DEFINE\n #INCLUDE \"l1.def\"\nEND\n", 1);
    reg.upsert("file:///ws/l1.def", "DEFINE\n #INCLUDE \"l2.def\"\nEND\n", 1);
    reg.upsert("file:///ws/l2.def", "DEFINE\n #INCLUDE \"l3.def\"\nEND\n", 1);
    reg.upsert("file:///ws/l3.def", "DEFINE\n #INCLUDE \"l4.def\"\nEND\n", 1);
    reg.upsert("file:///ws/l4.def", "DEFINE\n WX=NUMBER\nEND\n", 1);
    let all = transitive_includes(&reg, "file:///ws/l0.def", 3);
    assert_eq!(
        all,
        vec!["file:///ws/l1.def".to_string(), "file:///ws/l2.def".to_string(), "file:///ws/l3.def".to_string()]
    );
    assert_eq!(transitive_includes(&reg, "file:///ws/l0.def", 1), vec!["file:///ws/l1.def".to_string()]);
    assert!(transitive_includes(&reg, "file:///ws/l0.def", 0).is_empty());
}

#[test]
fn driver_call_resolves_into_included_file() {
    let reg = workspace();
    let found = handle_definition(&reg, DRIVER_URI, Position { line: 9, character: 8 });
    assert_eq!(found.len(), 1);
    assert_eq!(found[0].uri, HELPERS_URI);
    assert_eq!(found[0].range.start.line, 0);
    assert_eq!(found[0].range.start.character, 10);
}

#[test]
fn driver_does_not_see_unrelated_documents() {
    let reg = workspace();
    let found = find_declarations(&reg, DRIVER_URI, QueryType::ProcedureCall, "DOSOMETHING");
    assert_eq!(found.len(), 1);
    assert_eq!(found[0].uri, HELPERS_URI);
}

#[test]
fn local_declaration_shadows_included_one() {
    let reg = workspace();
    let found = handle_definition(&reg, DRIVER_URI, Position { line: 10, character: 2 });
    assert_eq!(found.len(), 1);
    assert_eq!(found[0].uri, DRIVER_URI);
    assert_eq!(found[0].range.start.line, 5);
    let by_name = find_declarations(&reg, DRIVER_URI, QueryType::Identifier, "WCOUNT");
    assert_eq!(by_name.len(), 1);
    assert_eq!(by_name[0].uri, DRIVER_URI);
}

#[test]
fn included_variable_found_from_driver() {
    let reg = workspace();
    let found = find_declarations(&reg, DRIVER_URI, QueryType::Identifier, "WLIMIT");
    assert_eq!(found.len(), 1);
    assert_eq!(found[0].uri, VARS_URI);
    assert_eq!(found[0].range.start.line, 2);
}

#[test]
fn library_falls_back_to_whole_workspace() {
    let mut reg = workspace();
    reg.upsert("file:///ws/util.pro", "PROCEDURE MAINPROC\n CALL HELPERFN\nEND\n", 1);
    reg.upsert("file:///ws/m.pro", "PROCEDURE HELPERFN\nEND\n", 1);
    let found = handle_definition(&reg, "file:///ws/util.pro", Position { line: 1, character: 8 });
    assert_eq!(found.len(), 1);
    assert_eq!(found[0].uri, "file:///ws/m.pro");
    let both = find_declarations(&reg, HELPERS_URI, QueryType::ProcedureCall, "MISSING");
    assert!(both.is_empty());
    let anywhere = find_declarations(&reg, "file:///ws/util.pro", QueryType::ProcedureCall, "DOSOMETHING");
    assert_eq!(anywhere.len(), 2);
}

#[test]
fn name_match_is_case_sensitive() {
    let reg = workspace();
    assert!(find_declarations(&reg, DRIVER_URI, QueryType::ProcedureCall, "dosomething").is_empty());
}

#[test]
fn no_definition_off_a_name() {
    let reg = workspace();
    assert!(handle_definition(&reg, DRIVER_URI, Position { line: 0, character: 1 }).is_empty());
    assert!(handle_definition(&reg, "file:///ws/none.rg", Position { line: 0, character: 0 }).is_empty());
}

#[test]
fn definition_target_reads_node() {
    let call_name = NodeInfo {
        kind: "identifier".to_string(),
        text: "FOO".to_string(),
        parent_kind: Some("procedure_call".to_string()),
        field_text: None,
    };
    assert_eq!(definition_target(&call_name), Some(("FOO".to_string(), QueryType::ProcedureCall)));
    let variable = NodeInfo {
        kind: "identifier".to_string(),
        text: "BAR".to_string(),
        parent_kind: Some("assignment_expression".to_string()),
        field_text: None,
    };
    assert_eq!(definition_target(&variable), Some(("BAR".to_string(), QueryType::Identifier)));
    let call = NodeInfo {
        kind: "procedure_call".to_string(),
        text: "CALL BAZ".to_string(),
        parent_kind: None,
        field_text: Some("BAZ".to_string()),
    };
    assert_eq!(definition_target(&call), Some(("BAZ".to_string(), QueryType::ProcedureCall)));
    let other = NodeInfo { kind: "number".to_string(), text: "1".to_string(), parent_kind: None, field_text: None };
    assert_eq!(definition_target(&other), None);
}

#[test]
fn outline_holds_included_symbols_once() {
    let reg = workspace();
    let symbols = handle_document_symbol(&reg, DRIVER_URI).unwrap();
    let names: Vec<(&str, SymbolKind, &str)> =
        symbols.iter().map(|s| (s.name.as_str(), s.kind, s.uri.as_str())).collect();
    assert_eq!(
        names,
        vec![
            ("WCOUNT", SymbolKind::Variable, DRIVER_URI),
            ("DOSOMETHING", SymbolKind::Procedure, HELPERS_URI),
            ("WCOUNT", SymbolKind::Variable, VARS_URI),
            ("WLIMIT", SymbolKind::Variable, VARS_URI),
        ]
    );
    assert!(handle_document_symbol(&reg, "file:///ws/none.rg").is_none());
}

#[test]
fn document_symbols_of_one_file() {
    let reg = workspace();
    let symbols = get_document_symbols(&reg, VARS_URI);
    assert_eq!(symbols.len(), 2);
    assert_eq!(symbols[0].name, "WCOUNT");
    assert_eq!(symbols[1].name, "WLIMIT");
    assert_eq!(symbols[1].kind, SymbolKind::Variable);
    assert!(get_document_symbols(&reg, "file:///ws/none.rg").is_empty());
}

#[test]
fn basename_of_uri() {
    assert_eq!(get_basename_from_uri("file:///ws/lib/helpers.pro"), "helpers.pro");
    assert_eq!(get_basename_from_uri("/ws/report.rg"), "report.rg");
    assert_eq!(get_basename_from_uri("file://"), "");
    assert_eq!(get_basename_from_uri(""), "");
}

#[test]
fn account_record_table() {
    assert_eq!(RecordType::Account.as_str(), "account");
    let fields = load_account_record_fields();
    assert_eq!(fields.len(), 39);
    let number = &fields[0];
    assert_eq!(number.mnemonic, "number");
    assert_eq!(number.field_number, 1);
    assert_eq!(number.length, Some(10));
    assert_eq!(number.help_file, "00001");
    assert!(matches!(number.data_type, DataType::Character));
    assert_eq!(fields[1].mnemonic, "branch");
    assert_eq!(fields[1].field_number, 7);
    for field in fields.iter() {
        assert_eq!(field.mnemonic, field.mnemonic.to_lowercase());
    }
}

#[test]
fn variables_and_procedures_make_an_include_table() {
    let mut reg = Registry::new();
    reg.upsert("file:///ws/mixed.def", "DEFINE\n WX=NUMBER\nEND\n\nPROCEDURE DOIT\nEND\n", 1);
    assert_eq!(classify_document(&reg, "file:///ws/mixed.def"), FileRole::IncludeTable);
    assert!(is_def_file(&reg, "file:///ws/mixed.def"));
    assert!(!is_pro_file(&reg, "file:///ws/mixed.def"));
    assert!(!is_poweron_driver(&reg, "file:///ws/mixed.def"));
}

#[test]
fn symbols_span_their_declarations() {
    let reg = workspace();
    let symbols = get_document_symbols(&reg, HELPERS_URI);
    assert_eq!(symbols.len(), 1);
    assert_eq!(symbols[0].range.start.line, 0);
    assert_eq!(symbols[0].range.start.character, 0);
    assert_eq!(symbols[0].range.end.line, 2);
}

#[test]
fn change_notification_replaces_whole_text() {
    let mut reg = workspace();
    let parsed = parse_change(&vec!["PROCEDURE OTHERNAME\nEND\n".to_string(), "ignored".to_string()]);
    handle_did_change_text_document(&mut reg, HELPERS_URI, 2, parsed);
    let doc = reg.get(HELPERS_URI).unwrap();
    assert_eq!(doc.text, "PROCEDURE OTHERNAME\nEND\n");
    assert_eq!(doc.version, 2);
    assert!(find_declarations(&reg, DRIVER_URI, QueryType::ProcedureCall, "DOSOMETHING").is_empty());
    assert!(parse_change(&Vec::new()).is_none());
    handle_did_change_text_document(&mut reg, HELPERS_URI, 3, None);
    assert_eq!(reg.get(HELPERS_URI).unwrap().version, 2);
    assert_eq!(reg.len(), 4);
}

#[test]
fn role_unchanged_without_edit() {
    let mut reg = workspace();
    let before = classify_document(&reg, VARS_URI);
    reg.upsert(OTHER_URI, "DEFINE\n WZ=NUMBER\nEND\n", 2);
    reg.upsert(VARS_URI, VARS, 5);
    assert_eq!(classify_document(&reg, VARS_URI), before);
    assert_eq!(classify_document(&reg, OTHER_URI), FileRole::IncludeTable);
}

#[test]
fn empty_document_has_no_symbols() {
    let mut reg = Registry::new();
    reg.upsert("file:///ws/empty.rg", "", 1);
    assert!(reg.has_tree("file:///ws/empty.rg"));
    assert_eq!(classify_document(&reg, "file:///ws/empty.rg"), FileRole::Unclassified);
    assert!(handle_document_symbol(&reg, "file:///ws/empty.rg").unwrap().is_empty());
    assert!(transitive_includes(&reg, "file:///ws/empty.rg", 3).is_empty());
    assert!(handle_definition(&reg, "file:///ws/empty.rg", Position { line: 0, character: 0 }).is_empty());
}

#[test]
fn parsed_text_installs_like_upsert() {
    let mut reg = Registry::new();
    reg.upsert_parsed("file:///ws/p.pro", ParsedText::parse(HELPERS), 7);
    let doc = reg.get("file:///ws/p.pro").unwrap();
    assert_eq!(doc.text, HELPERS);
    assert_eq!(doc.version, 7);
    assert!(reg.has_tree("file:///ws/p.pro"));
    assert_eq!(classify_document(&reg, "file:///ws/p.pro"), FileRole::Library);
}

#[test]
fn declared_name_only_not_right_hand_side() {
    let mut reg = Registry::new();
    reg.upsert("file:///ws/v.def", "DEFINE\n WA=WB\n WB=NUMBER\nEND\n", 1);
    let symbols = get_document_symbols(&reg, "file:///ws/v.def");
    let names: Vec<&str> = symbols.iter().map(|s| s.name.as_str()).collect();
    assert_eq!(names, vec!["WA", "WB"]);
    let found = find_declarations(&reg, "file:///ws/v.def", QueryType::Identifier, "WB");
    assert_eq!(found.len(), 1);
    assert_eq!(found[0].range.start.line, 2);
}
