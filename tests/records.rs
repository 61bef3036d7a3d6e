use pols::database::{load_account_record_fields, RecordType};
use pols::records::{
    field_reference_at, find_field, handle_comlpetion, handle_hover, hover_field, node_at_point, record_type_of, word_at_point, CompletionList,
};
use pols::registry::Registry;
use pols::syntax::{NodeSummary, Position, Range};

const REPORT_URI: &str = "file:///ws/fields.rg";
const REPORT: &str = "TARGET=ACCOUNT\n\nPRINT TITLE=\"Report\"\n ACCOUNT:BRANCH\nEND\n";

fn summary(kind: &str, text: &str) -> NodeSummary {
    let p = Position { line: 0, character: 0 };
    NodeSummary { kind: kind.to_string(), text: text.to_string(), range: Range { start: p, end: p } }
}

#[test]
fn record_type_words() {
    assert_eq!(record_type_of("ACCOUNT:"), Some(RecordType::Account));
    assert_eq!(record_type_of("  account "), Some(RecordType::Account));
    assert_eq!(record_type_of("Acc:ount"), Some(RecordType::Account));
    assert_eq!(record_type_of("SHARE:"), None);
    assert_eq!(record_type_of(""), None);
}

#[test]
fn hover_field_reads_record_and_field() {
    let field = summary("field_name", "BRANCH");
    let record = summary("record_type", "ACCOUNT");
    let got = hover_field(&Some(summary("field_name", "BRANCH")), &Some(record), &None).unwrap();
    assert_eq!(got.0, "ACCOUNT");
    assert_eq!(got.1, "BRANCH");
    let nested = hover_field(
        &Some(field),
        &Some(summary("field_name", "BRANCH")),
        &Some(summary("record_type", "ACCOUNT")),
    )
    .unwrap();
    assert_eq!(nested.0, "ACCOUNT");
    assert!(hover_field(&Some(summary("identifier", "X")), &Some(summary("record_type", "A")), &None).is_none());
    assert!(hover_field(&Some(summary("field_name", "X")), &Some(summary("field_name", "X")), &None).is_none());
    assert!(hover_field(&Some(summary("field_name", "X")), &None, &None).is_none());
    assert!(hover_field(&Some(summary("field_name", "X")), &Some(summary("number", "1")), &None).is_none());
}

#[test]
fn hover_over_account_field() {
    let mut reg = Registry::new();
    reg.upsert(REPORT_URI, REPORT, 1);
    assert_eq!(node_at_point(&reg, REPORT_URI, Position { line: 3, character: 11 }), Some("field_name".to_string()));
    let found = field_reference_at(&reg, REPORT_URI, Position { line: 3, character: 11 }).unwrap();
    assert_eq!(found.record, RecordType::Account);
    assert_eq!(found.field, "branch");
    let fields = load_account_record_fields();
    let hover = handle_hover(&reg, REPORT_URI, Position { line: 3, character: 11 }, &fields).unwrap();
    assert!(hover.contents.contains("# Branch"));
    assert_eq!(hover.range.start.line, 3);
    assert_eq!(hover.range.start.character, 9);
    assert!(handle_hover(&reg, REPORT_URI, Position { line: 0, character: 1 }, &fields).is_none());
    assert!(handle_hover(&reg, "file:///ws/none.rg", Position { line: 0, character: 1 }, &fields).is_none());
}

#[test]
fn hover_over_unknown_field_is_empty() {
    let mut reg = Registry::new();
    reg.upsert(REPORT_URI, "TARGET=ACCOUNT\n\nPRINT TITLE=\"Report\"\n ACCOUNT:NOSUCHFIELD\nEND\n", 1);
    let fields = load_account_record_fields();
    let found = field_reference_at(&reg, REPORT_URI, Position { line: 3, character: 11 }).unwrap();
    assert_eq!(found.field, "nosuchfield");
    assert!(handle_hover(&reg, REPORT_URI, Position { line: 3, character: 11 }, &fields).is_none());
}

#[test]
fn find_field_by_mnemonic() {
    let fields = load_account_record_fields();
    assert_eq!(find_field(&fields, "branch").unwrap().field_number, 7);
    assert!(find_field(&fields, "BRANCH").is_none());
    assert!(find_field(&fields, "").is_none());
}

#[test]
fn word_before_cursor() {
    let mut reg = Registry::new();
    reg.upsert("file:///ws/w.rg", "TARGET=ACCOUNT\n  IF ACCOUNT:\n\n", 1);
    let at = |line: usize, character: usize| word_at_point(&reg, "file:///ws/w.rg", Position { line, character });
    assert_eq!(at(1, 13), Some("ACCOUNT:".to_string()));
    assert_eq!(at(1, 12), Some("ACCOUNT".to_string()));
    assert_eq!(at(1, 4), Some("IF".to_string()));
    assert_eq!(at(0, 6), Some("TARGET".to_string()));
    assert_eq!(at(1, 2), None);
    assert_eq!(at(1, 3), Some("I".to_string()));
    assert_eq!(at(1, 5), Some("IF".to_string()));
    assert_eq!(at(1, 14), None);
    assert_eq!(at(2, 0), None);
    assert_eq!(at(9, 0), None);
    assert_eq!(word_at_point(&reg, "file:///ws/none.rg", Position { line: 0, character: 0 }), None);
}

#[test]
fn completion_choices() {
    let mut reg = Registry::new();
    reg.upsert("file:///ws/w.rg", "TARGET=ACCOUNT\n  IF ACCOUNT:\n  X=SHARE:\n", 1);
    let pos = Position { line: 1, character: 13 };
    assert_eq!(handle_comlpetion(&reg, "file:///ws/w.rg", pos, None), Some(CompletionList::Keywords));
    assert_eq!(
        handle_comlpetion(&reg, "file:///ws/w.rg", pos, Some(":")),
        Some(CompletionList::Fields(RecordType::Account))
    );
    assert_eq!(handle_comlpetion(&reg, "file:///ws/w.rg", pos, Some("@")), None);
    assert_eq!(handle_comlpetion(&reg, "file:///ws/w.rg", Position { line: 2, character: 10 }, Some(":")), None);
}

#[test]
fn word_before_trailing_space() {
    let mut reg = Registry::new();
    reg.upsert("file:///ws/s.rg", "ab \n  \n", 1);
    assert_eq!(word_at_point(&reg, "file:///ws/s.rg", Position { line: 0, character: 3 }), Some("ab".to_string()));
    assert_eq!(word_at_point(&reg, "file:///ws/s.rg", Position { line: 1, character: 2 }), None);
}

#[test]
fn word_lookup_drops_carriage_return() {
    let mut reg = Registry::new();
    reg.upsert("file:///ws/c.rg", "ab\r\ncd\r", 1);
    let at = |line: usize, character: usize| word_at_point(&reg, "file:///ws/c.rg", Position { line, character });
    assert_eq!(at(0, 2), Some("ab".to_string()));
    assert_eq!(at(0, 3), None);
    assert_eq!(at(1, 3), Some("cd".to_string()));
    assert_eq!(at(1, 4), None);
}

#[test]
fn word_lookup_counts_bytes() {
    let mut reg = Registry::new();
    reg.upsert("file:///ws/u.rg", "\u{e9} ab", 1);
    let at = |character: usize| word_at_point(&reg, "file:///ws/u.rg", Position { line: 0, character });
    assert_eq!(at(5), Some("ab".to_string()));
    assert_eq!(at(2), Some("\u{e9}".to_string()));
    assert_eq!(at(1), None);
    assert_eq!(at(6), None);
}
