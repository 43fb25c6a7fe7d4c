//! Tests on the expression-tree model directly, including malformed trees
//! that a successful parse never produces.

use nix_services::ast::{Attr, AttrSet, Attrpath, AttrpathValue, Entry, Expr, ScanError};
use nix_services::scan::{
    enable_scan, enabled_services_of_expr, handle_attrset, handle_entry, handle_ident,
    recurse_to_attrset, scan_entries,
};

fn ident(text: &str) -> Attr {
    Attr::Ident(text.to_string())
}

fn path(segments: &[&str]) -> Attrpath {
    Attrpath { attrs: segments.iter().map(|s| ident(s)).collect() }
}

fn flat_entry(segments: &[&str], value: Expr) -> Entry {
    Entry::AttrpathValue(AttrpathValue {
        path: Some(path(segments)),
        value: Some(Box::new(value)),
    })
}

fn root(entries: Vec<Entry>) -> Expr {
    Expr::AttrSet(AttrSet { entries })
}

#[test]
fn flattened_match_on_model_tree() {
    let doc = root(vec![flat_entry(
        &["services", "foo", "enable"],
        Expr::Ident("true".to_string()),
    )]);
    assert_eq!(enabled_services_of_expr(&doc).unwrap(), vec!["foo".to_string()]);
}

#[test]
fn missing_attrpath_reports_malformed_tree() {
    let doc = root(vec![Entry::AttrpathValue(AttrpathValue {
        path: None,
        value: Some(Box::new(Expr::Ident("true".to_string()))),
    })]);
    assert!(matches!(enabled_services_of_expr(&doc), Err(ScanError::MalformedTree)));
}

#[test]
fn missing_attrpath_with_non_true_value_is_skipped() {
    // The value is inspected first: an identifier other than `true` never
    // reaches the attribute path, so the absent path is not reported.
    let doc = root(vec![Entry::AttrpathValue(AttrpathValue {
        path: None,
        value: Some(Box::new(Expr::Ident("false".to_string()))),
    })]);
    assert_eq!(enabled_services_of_expr(&doc).unwrap(), Vec::<String>::new());
}

#[test]
fn missing_value_is_skipped() {
    let doc = root(vec![Entry::AttrpathValue(AttrpathValue {
        path: Some(path(&["services", "foo", "enable"])),
        value: None,
    })]);
    assert_eq!(enabled_services_of_expr(&doc).unwrap(), Vec::<String>::new());
}

#[test]
fn missing_attrpath_inside_service_block_reports_malformed_tree() {
    let block = Expr::AttrSet(AttrSet {
        entries: vec![Entry::AttrpathValue(AttrpathValue {
            path: None,
            value: Some(Box::new(Expr::Ident("true".to_string()))),
        })],
    });
    let doc = root(vec![flat_entry(&["services", "foo"], block)]);
    assert!(matches!(enabled_services_of_expr(&doc), Err(ScanError::MalformedTree)));
}

#[test]
fn recurse_to_attrset_unwraps_nested_wrappers() {
    let doc = Expr::Lambda(Some(Box::new(Expr::LetIn(Some(Box::new(root(Vec::new())))))));
    assert!(recurse_to_attrset(&doc).is_some());
    assert!(recurse_to_attrset(&Expr::Ident("x".to_string())).is_none());
    assert!(recurse_to_attrset(&Expr::LetIn(None)).is_none());
    assert!(recurse_to_attrset(&Expr::Lambda(None)).is_none());
    assert!(recurse_to_attrset(&Expr::Other).is_none());
}

#[test]
fn handle_ident_checks_each_segment() {
    let apv = AttrpathValue {
        path: Some(path(&["services", "foo", "enable"])),
        value: Some(Box::new(Expr::Ident("true".to_string()))),
    };
    let t = "true".to_string();
    assert_eq!(handle_ident(&apv, &t).unwrap(), vec!["foo".to_string()]);
    assert_eq!(handle_ident(&apv, &"false".to_string()).unwrap(), Vec::<String>::new());

    let wrong_first = AttrpathValue { path: Some(path(&["service", "foo", "enable"])), value: None };
    assert_eq!(handle_ident(&wrong_first, &t).unwrap(), Vec::<String>::new());

    let wrong_third = AttrpathValue { path: Some(path(&["services", "foo", "disable"])), value: None };
    assert_eq!(handle_ident(&wrong_third, &t).unwrap(), Vec::<String>::new());

    let too_short = AttrpathValue { path: Some(path(&["services", "foo"])), value: None };
    assert_eq!(handle_ident(&too_short, &t).unwrap(), Vec::<String>::new());

    let dynamic_name = AttrpathValue {
        path: Some(Attrpath { attrs: vec![ident("services"), Attr::Dynamic, ident("enable")] }),
        value: None,
    };
    assert_eq!(handle_ident(&dynamic_name, &t).unwrap(), Vec::<String>::new());
}

#[test]
fn handle_entry_dispatches_on_value_kind() {
    let e = flat_entry(&["services", "foo", "enable"], Expr::Other);
    assert_eq!(handle_entry(&e, false).unwrap(), Vec::<String>::new());
    assert_eq!(handle_entry(&Entry::Other, false).unwrap(), Vec::<String>::new());
}

#[test]
fn handle_attrset_respects_the_services_flag() {
    let block = AttrSet {
        entries: vec![flat_entry(&["enable"], Expr::Ident("true".to_string()))],
    };
    let under_services = AttrpathValue { path: Some(path(&["services", "foo"])), value: None };
    assert_eq!(
        handle_attrset(&under_services, &block, false).unwrap(),
        vec!["foo".to_string()]
    );
    // Inside `services` the first segment is already the service name.
    let inside = AttrpathValue { path: Some(path(&["foo"])), value: None };
    assert_eq!(handle_attrset(&inside, &block, true).unwrap(), vec!["foo".to_string()]);
    // Outside `services` the same path matches nothing.
    assert_eq!(handle_attrset(&inside, &block, false).unwrap(), Vec::<String>::new());
}

#[test]
fn enable_scan_counts_each_qualifying_entry() {
    let entries = vec![
        flat_entry(&["enable"], Expr::Ident("true".to_string())),
        flat_entry(&["port"], Expr::Other),
        flat_entry(&["enable"], Expr::Other),
        flat_entry(&["enable"], Expr::Ident("false".to_string())),
        Entry::Other,
    ];
    let name = "svc".to_string();
    assert_eq!(
        enable_scan(&entries, 0, &name).unwrap(),
        vec!["svc".to_string(), "svc".to_string()]
    );
    assert_eq!(enable_scan(&entries, 3, &name).unwrap(), Vec::<String>::new());
}

#[test]
fn scan_entries_appends_in_document_order() {
    let entries = vec![
        flat_entry(&["services", "b", "enable"], Expr::Ident("true".to_string())),
        flat_entry(&["services", "a", "enable"], Expr::Ident("true".to_string())),
    ];
    assert_eq!(
        scan_entries(&entries, 0, false).unwrap(),
        vec!["b".to_string(), "a".to_string()]
    );
}

#[test]
fn error_messages_are_descriptive() {
    assert_eq!(ScanError::NoRootAttrSet.message(), "no attribute set found");
    assert_eq!(
        ScanError::MalformedTree.message(),
        "malformed tree: attribute entry without an attribute path"
    );
    assert_eq!(ScanError::Syntax("unexpected token".to_string()).message(), "unexpected token");
}
