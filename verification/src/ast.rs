//! The expression-tree model that the analysis walks.
//!
//! These datatypes hold, as plain values, exactly what the traversal reads
//! from a parsed Nix-like document: attribute sets with their entries in
//! document order, attribute paths as sequences of segments, identifier
//! text, and the wrapping forms (`let ... in ...`, lambdas) that may stand
//! around the document's root. Every expression kind the analysis does not
//! inspect collapses into [`Expr::Other`].

use vstd::prelude::*;

verus! {

/// One segment of an attribute path.
pub enum Attr {
    /// A static identifier segment, carrying its literal text.
    Ident(String),
    /// A dynamic or otherwise non-identifier segment; never matches.
    Dynamic,
}

/// An attribute path: an ordered, left-to-right sequence of segments.
pub struct Attrpath {
    pub attrs: Vec<Attr>,
}

/// An `attrpath = value;` entry of an attribute set.
///
/// A well-formed parse always supplies both fields; an absent field is a
/// contract violation by the tree producer and is reported as
/// [`ScanError::MalformedTree`] wherever the traversal would have to read it.
pub struct AttrpathValue {
    pub path: Option<Attrpath>,
    pub value: Option<Box<Expr>>,
}

/// One entry of an attribute set.
pub enum Entry {
    /// An `attrpath = value;` entry, the only kind the analysis inspects.
    AttrpathValue(AttrpathValue),
    /// Any other entry kind (e.g. `inherit`); always ignored.
    Other,
}

/// An attribute set: its entries in document order.
pub struct AttrSet {
    pub entries: Vec<Entry>,
}

/// An expression of the document.
pub enum Expr {
    /// An attribute set `{ ... }`.
    AttrSet(AttrSet),
    /// A `let ... in body` expression; only the body is retained.
    LetIn(Option<Box<Expr>>),
    /// A lambda; only its body is retained.
    Lambda(Option<Box<Expr>>),
    /// An identifier, carrying its literal text.
    Ident(String),
    /// Any other expression kind; a dead end for matching.
    Other,
}

/// The error taxonomy of the analysis.
#[derive(Debug)]
pub enum ScanError {
    /// The source text does not parse; carries the parser's message.
    Syntax(String),
    /// The document's root does not reduce to an attribute set.
    NoRootAttrSet,
    /// An `attrpath = value;` entry is missing its attribute path where the
    /// traversal had to read it.
    MalformedTree,
}

/// The error cases a tree traversal itself can report, at the
/// specification level.
pub enum TreeIssue {
    NoRoot,
    Malformed,
}

impl ScanError {
    /// A human-readable description of the error.
    pub fn message(&self) -> (r: String)
        ensures
            match self {
                ScanError::Syntax(m) => r@ == m@,
                ScanError::NoRootAttrSet => r@ == "no attribute set found"@,
                ScanError::MalformedTree => (r@
                    == "malformed tree: attribute entry without an attribute path"@),
            },
    {
        match self {
            ScanError::Syntax(m) => m.clone(),
            ScanError::NoRootAttrSet => "no attribute set found".to_owned(),
            ScanError::MalformedTree => {
                "malformed tree: attribute entry without an attribute path".to_owned()
            },
        }
    }
}

} // verus!
