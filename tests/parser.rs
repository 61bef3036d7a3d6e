use pols::classify::{classify, FileRole};
use pols::syntax::{QueryKind, SyntaxTree};

#[test]
fn test_parser() {
    let tree = SyntaxTree::parse("TARGET=ACCOUNT").unwrap();
    assert_eq!(tree.to_sexp(), "(source_file (target_division (record_type)))");
}

#[test]
fn target_only_text_is_unclassified() {
    let tree = SyntaxTree::parse("TARGET=ACCOUNT").unwrap();
    assert_eq!(tree.text(), "TARGET=ACCOUNT");
    assert!(tree.query(QueryKind::PrintDivision).is_empty());
    assert!(tree.query(QueryKind::VariableDeclaration).is_empty());
    assert_eq!(classify(&tree), FileRole::Unclassified);
}

#[test]
fn classify_twice_gives_same_role() {
    let text = "DEFINE\n WCOUNT=NUMBER\nEND\n";
    let a = SyntaxTree::parse(text).unwrap();
    let b = SyntaxTree::parse(text).unwrap();
    assert_eq!(classify(&a), classify(&a));
    assert_eq!(classify(&a), classify(&b));
    assert_eq!(classify(&a.snapshot()), classify(&b));
}

#[test]
fn classify_roles() {
    let driver = SyntaxTree::parse("TARGET=ACCOUNT\n\nPRINT TITLE=\"Report\"\n CALL DOSOMETHING\nEND\n").unwrap();
    assert_eq!(classify(&driver), FileRole::Driver, "{}", driver.to_sexp());
    let table = SyntaxTree::parse("DEFINE\n WCOUNT=NUMBER\nEND\n").unwrap();
    assert_eq!(classify(&table), FileRole::IncludeTable, "{}", table.to_sexp());
    let library = SyntaxTree::parse("PROCEDURE DOSOMETHING\n X=1\nEND\n").unwrap();
    assert_eq!(classify(&library), FileRole::Library, "{}", library.to_sexp());
}

#[test]
fn query_captures_text_and_span() {
    let tree = SyntaxTree::parse("PROCEDURE DOSOMETHING\n X=1\nEND\n").unwrap();
    let caps = tree.query(QueryKind::ProcedureDefinition);
    assert_eq!(caps.len(), 1, "{}", tree.to_sexp());
    assert_eq!(caps[0].text, "DOSOMETHING");
    assert_eq!(caps[0].range.start.line, 0);
    assert_eq!(caps[0].range.start.character, 10);
    assert_eq!(caps[0].range.end.character, 21);
}

#[test]
fn include_literal_is_captured_with_quotes() {
    let tree = SyntaxTree::parse("DEFINE\n #INCLUDE \"helpers.pro\"\nEND\n").unwrap();
    let caps = tree.query(QueryKind::IncludeLiteral);
    assert_eq!(caps.len(), 1, "{}", tree.to_sexp());
    assert_eq!(caps[0].text, "\"helpers.pro\"");
}
