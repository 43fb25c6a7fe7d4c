//! Extraction of enabled service names from a Nix-like configuration
//! document.
//!
//! The library walks a parsed expression tree and collects every service
//! name reachable through an attribute path of the shape
//! `services.<name>.enable = true`, in either its flattened or its nested
//! attribute-set form.

pub mod ast;
pub mod laws;
pub mod parse;
pub mod scan;
