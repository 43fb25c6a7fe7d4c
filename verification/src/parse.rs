//! The bridge to the external Nix parser.
//!
//! The parser (the `rnix` crate) is a collaborator that this analysis
//! consumes through one narrow interface: given source text, it yields the
//! document's root expression or a syntax error. The functions here carry
//! the parser's typed nodes over into the library's own model, one node
//! kind at a time; nothing else of the parser is relied on.

use vstd::prelude::*;

use rnix::ast::Attr as RnixAttr;
use rnix::ast::AttrSet as RnixAttrSet;
use rnix::ast::Attrpath as RnixAttrpath;
use rnix::ast::AttrpathValue as RnixAttrpathValue;
use rnix::ast::Entry as RnixEntry;
use rnix::ast::Expr as RnixExpr;
use rnix::ast::HasEntry;

verus! {

#[verifier::external_type_specification]
#[verifier::external_body]
pub struct ExNixExpr(RnixExpr);

#[verifier::external_type_specification]
#[verifier::external_body]
pub struct ExNixAttrSet(RnixAttrSet);

#[verifier::external_type_specification]
#[verifier::external_body]
pub struct ExNixEntry(RnixEntry);

#[verifier::external_type_specification]
#[verifier::external_body]
pub struct ExNixAttrpathValue(RnixAttrpathValue);

#[verifier::external_type_specification]
#[verifier::external_body]
pub struct ExNixAttrpath(RnixAttrpath);

#[verifier::external_type_specification]
#[verifier::external_body]
pub struct ExNixAttr(RnixAttr);

/// What parsing a source text yields: `None` when the text has syntax
/// errors, otherwise the document's root expression carried over into the
/// library's model. The parse result is a function of the text alone.
pub uninterp spec fn parse_of(text: Seq<char>) -> Option<crate::ast::Expr>;

/// Relies on rnix::ast::Attr and Ident::ident_token: a static identifier
/// segment keeps its literal text; a dynamic, string or token-less segment
/// is carried over as a non-matching segment.
#[verifier::external_body]
fn attr_model(a: rnix::ast::Attr) -> crate::ast::Attr {
    match a {
        rnix::ast::Attr::Ident(i) => match i.ident_token() {
            Some(t) => crate::ast::Attr::Ident(t.text().to_string()),
            None => crate::ast::Attr::Dynamic,
        },
        _ => crate::ast::Attr::Dynamic,
    }
}

/// Relies on rnix::ast::Attrpath::attrs: the path's segments, in order.
#[verifier::external_body]
fn path_model(p: rnix::ast::Attrpath) -> crate::ast::Attrpath {
    let mut attrs: Vec<crate::ast::Attr> = Vec::new();
    for a in p.attrs() {
        attrs.push(attr_model(a));
    }
    crate::ast::Attrpath { attrs }
}

/// Relies on rnix::ast::AttrpathValue::attrpath and ::value: both are
/// optional in the parse tree and stay optional in the model.
#[verifier::external_body]
fn apv_model(apv: rnix::ast::AttrpathValue) -> crate::ast::AttrpathValue {
    crate::ast::AttrpathValue {
        path: apv.attrpath().map(path_model),
        value: apv.value().map(|v| Box::new(expr_model(v))),
    }
}

/// Relies on rnix::ast::Entry: an `attrpath = value;` entry is carried
/// over; every other entry kind is opaque to the analysis.
#[verifier::external_body]
fn entry_model(e: rnix::ast::Entry) -> crate::ast::Entry {
    match e {
        rnix::ast::Entry::AttrpathValue(apv) => crate::ast::Entry::AttrpathValue(apv_model(apv)),
        _ => crate::ast::Entry::Other,
    }
}

/// Relies on rnix::ast::AttrSet::entries: the set's entries, in document
/// order.
#[verifier::external_body]
fn set_model(s: rnix::ast::AttrSet) -> crate::ast::AttrSet {
    let mut entries: Vec<crate::ast::Entry> = Vec::new();
    for e in s.entries() {
        entries.push(entry_model(e));
    }
    crate::ast::AttrSet { entries }
}

/// Relies on rnix::ast::Expr and the body accessors of LetIn and Lambda:
/// each expression kind the analysis inspects is carried over, one variant
/// at a time; every other kind is a dead end.
#[verifier::external_body]
fn expr_model(e: rnix::ast::Expr) -> crate::ast::Expr {
    match e {
        rnix::ast::Expr::AttrSet(s) => crate::ast::Expr::AttrSet(set_model(s)),
        rnix::ast::Expr::LetIn(l) => crate::ast::Expr::LetIn(l.body().map(|b| Box::new(expr_model(b)))),
        rnix::ast::Expr::Lambda(l) => crate::ast::Expr::Lambda(l.body().map(|b| Box::new(expr_model(b)))),
        rnix::ast::Expr::Ident(i) => match i.ident_token() {
            Some(t) => crate::ast::Expr::Ident(t.text().to_string()),
            None => crate::ast::Expr::Other,
        },
        _ => crate::ast::Expr::Other,
    }
}

/// Relies on rnix::Root::parse: parsing is deterministic in the source
/// text, so its outcome is named by [`parse_of`]. A text with parse errors
/// yields the first error's message; otherwise the root expression is
/// carried over into the model (a root without an expression becomes
/// [`crate::ast::Expr::Other`], which resolves to no attribute set).
#[verifier::external_body]
fn parse_expr(text: &str) -> (r: Result<crate::ast::Expr, String>)
    ensures
        match r {
            Ok(e) => parse_of(text@) == Some(e),
            Err(_) => parse_of(text@) is None,
        },
{
    match rnix::Root::parse(text).ok() {
        Ok(root) => Ok(match root.expr() {
            Some(e) => expr_model(e),
            None => crate::ast::Expr::Other,
        }),
        Err(err) => Err(err.to_string()),
    }
}

/// The entry point: parses the source text of one configuration document
/// and returns the ordered names of the services marked enabled, or the
/// single error the document forces — a syntax error with the parser's
/// message, the absence of a root attribute set, or a malformed entry.
pub fn enabled_services(text: &str) -> (r: Result<Vec<String>, crate::ast::ScanError>)
    ensures
        match parse_of(text@) {
            None => r matches Err(crate::ast::ScanError::Syntax(_)),
            Some(e) => crate::scan::result_matches(r, crate::scan::spec_enabled_services(e)),
        },
{
    match parse_expr(text) {
        Err(msg) => Err(crate::ast::ScanError::Syntax(msg)),
        Ok(e) => crate::scan::enabled_services_of_expr(&e),
    }
}

} // verus!
