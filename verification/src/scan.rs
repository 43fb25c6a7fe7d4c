//! The traversal and pattern-matching pass over the expression tree.
//!
//! The specification functions in this module say, node by node, which
//! service names an expression tree yields; the executable functions
//! implement the walk and are proved to return exactly those names, in
//! first-seen, left-to-right, depth-first order.

use vstd::prelude::*;

use crate::ast::{Attr, AttrSet, Attrpath, AttrpathValue, Entry, Expr, ScanError, TreeIssue};

verus! {

broadcast use
    vstd::std_specs::vec::axiom_vec_decreases_to_view,
    vstd::seq::axiom_seq_index_decreases,
    vstd::seq::axiom_seq_subrange_decreases,
;

/// Whether an attribute-path segment is a static identifier with the given
/// text.
pub open spec fn attr_is(a: Attr, text: Seq<char>) -> bool {
    match a {
        Attr::Ident(t) => t@ == text,
        Attr::Dynamic => false,
    }
}

/// The text of a static identifier segment (empty for a dynamic segment).
pub open spec fn attr_text(a: Attr) -> Seq<char> {
    match a {
        Attr::Ident(t) => t@,
        Attr::Dynamic => Seq::empty(),
    }
}

/// The attribute set a document root reduces to, unwrapping `let ... in`
/// bindings and lambda bodies; `None` when the root is no attribute set.
pub open spec fn spec_root_attrset(e: Expr) -> Option<AttrSet>
    decreases e,
{
    match e {
        Expr::AttrSet(set) => Some(set),
        Expr::LetIn(body) => match body {
            Some(b) => spec_root_attrset(*b),
            None => None,
        },
        Expr::Lambda(body) => match body {
            Some(b) => spec_root_attrset(*b),
            None => None,
        },
        _ => None,
    }
}

/// The names contributed by the flattened form `services.<name>.enable =
/// true;`, given the entry's attribute path and the literal text of its
/// identifier value.
///
/// The match fails closed: the value must be the identifier `true`, the
/// path must have at least three segments, the first must be `services`,
/// the second a static identifier (the service name), and the third
/// `enable`; segments beyond the third are ignored. An absent path is a
/// malformed tree — but only once the value has been seen to be `true`,
/// since the value is inspected first.
pub open spec fn spec_handle_ident(path: Option<Attrpath>, vtext: Seq<char>) -> Result<
    Seq<Seq<char>>,
    TreeIssue,
> {
    if vtext != "true"@ {
        Ok(Seq::empty())
    } else {
        match path {
            None => Err(TreeIssue::Malformed),
            Some(p) => {
                let attrs = p.attrs@;
                if attrs.len() >= 3 && attr_is(attrs[0], "services"@) && (attrs[1] matches Attr::Ident(_)) && attr_is(attrs[2], "enable"@) {
                    Ok(seq![attr_text(attrs[1])])
                } else {
                    Ok(Seq::empty())
                }
            },
        }
    }
}

/// The names contributed by one entry of a service block during the enable
/// scan: one copy of `name` for each `attrpath = value;` entry whose first
/// path segment is the identifier `enable` and whose value is not an
/// identifier other than `true` (a non-identifier or absent value counts
/// as enabled).
pub open spec fn spec_enable_entry(e: Entry, name: Seq<char>) -> Result<Seq<Seq<char>>, TreeIssue> {
    match e {
        Entry::AttrpathValue(apv) => match apv.path {
            None => Err(TreeIssue::Malformed),
            Some(p) => if p.attrs@.len() >= 1 && attr_is(p.attrs@[0], "enable"@) {
                match apv.value {
                    Some(v) => match *v {
                        Expr::Ident(t) => if t@ == "true"@ {
                            Ok(seq![name])
                        } else {
                            Ok(Seq::empty())
                        },
                        _ => Ok(seq![name]),
                    },
                    None => Ok(seq![name]),
                }
            } else {
                Ok(Seq::empty())
            },
        },
        Entry::Other => Ok(Seq::empty()),
    }
}

/// The enable scan over the entries directly inside one service block, in
/// document order.
pub open spec fn spec_enable_scan(es: Seq<Entry>, name: Seq<char>) -> Result<
    Seq<Seq<char>>,
    TreeIssue,
>
    decreases es.len(),
{
    if es.len() == 0 {
        Ok(Seq::empty())
    } else {
        match spec_enable_entry(es[0], name) {
            Err(i) => Err(i),
            Ok(head) => match spec_enable_scan(es.drop_first(), name) {
                Err(i) => Err(i),
                Ok(tail) => Ok(head + tail),
            },
        }
    }
}

/// The names contributed by the nested form, given the entry's attribute
/// path, its attribute-set value, and the flag that records whether the
/// walk already stands inside `services`.
///
/// Outside `services` the first path segment must be the identifier
/// `services`. If the path ends there, every entry of the set is walked
/// again with the flag set, so each nested entry names its own service at
/// the next level; if the next segment is a static identifier it is the
/// service name and the set is scanned for qualifying `enable` entries; a
/// dynamic next segment matches nothing.
pub open spec fn spec_handle_attrset(path: Option<Attrpath>, set: AttrSet, in_services: bool) -> Result<
    Seq<Seq<char>>,
    TreeIssue,
>
    decreases set, 1int,
{
    match path {
        None => Err(TreeIssue::Malformed),
        Some(p) => {
            let attrs = p.attrs@;
            if !in_services && !(attrs.len() >= 1 && attr_is(attrs[0], "services"@)) {
                Ok(Seq::empty())
            } else {
                let next: int = if in_services { 0 } else { 1 };
                if attrs.len() <= next {
                    spec_scan_entries(set.entries@, true)
                } else {
                    match attrs[next] {
                        Attr::Ident(name) => spec_enable_scan(set.entries@, name@),
                        Attr::Dynamic => Ok(Seq::empty()),
                    }
                }
            }
        },
    }
}

/// The names contributed by one entry of an attribute set: an `attrpath =
/// value;` entry dispatches on its value (identifier form or nested set);
/// every other entry kind, value kind, or absent value contributes
/// nothing.
pub open spec fn spec_handle_entry(e: Entry, in_services: bool) -> Result<Seq<Seq<char>>, TreeIssue>
    decreases e, 2int,
{
    match e {
        Entry::AttrpathValue(apv) => match apv.value {
            Some(v) => match *v {
                Expr::Ident(t) => spec_handle_ident(apv.path, t@),
                Expr::AttrSet(set) => spec_handle_attrset(apv.path, set, in_services),
                _ => Ok(Seq::empty()),
            },
            None => Ok(Seq::empty()),
        },
        Entry::Other => Ok(Seq::empty()),
    }
}

/// The names contributed by a sequence of entries, in document order; the
/// first malformed entry aborts the walk.
pub open spec fn spec_scan_entries(es: Seq<Entry>, in_services: bool) -> Result<
    Seq<Seq<char>>,
    TreeIssue,
>
    decreases es, 3int,
{
    if es.len() == 0 {
        Ok(Seq::empty())
    } else {
        match spec_handle_entry(es[0], in_services) {
            Err(i) => Err(i),
            Ok(head) => match spec_scan_entries(es.drop_first(), in_services) {
                Err(i) => Err(i),
                Ok(tail) => Ok(head + tail),
            },
        }
    }
}

/// The full analysis of one expression tree: the ordered service names, or
/// the error the tree forces.
pub open spec fn spec_enabled_services(e: Expr) -> Result<Seq<Seq<char>>, TreeIssue> {
    match spec_root_attrset(e) {
        None => Err(TreeIssue::NoRoot),
        Some(set) => spec_scan_entries(set.entries@, false),
    }
}

/// Whether an executable result returns exactly what the specification
/// walk says: the same names in the same order, or the error the
/// specification walk reports.
pub open spec fn result_matches(
    r: Result<Vec<String>, ScanError>,
    s: Result<Seq<Seq<char>>, TreeIssue>,
) -> bool {
    match s {
        Ok(names) => r matches Ok(v) && v.deep_view() == names,
        Err(TreeIssue::NoRoot) => r matches Err(ScanError::NoRootAttrSet),
        Err(TreeIssue::Malformed) => r matches Err(ScanError::MalformedTree),
    }
}

/// Compares a string against a literal.
fn text_is(s: &String, lit: &str) -> (b: bool)
    ensures
        b == (s@ == lit@),
{
    let t: String = lit.to_owned();
    *s == t
}

/// An empty result list.
fn no_names() -> (v: Vec<String>)
    ensures
        v.deep_view() == Seq::<Seq<char>>::empty(),
{
    let v: Vec<String> = Vec::new();
    proof {
        assert(v.deep_view() =~= Seq::<Seq<char>>::empty());
    }
    v
}

/// A result list holding one name.
fn one_name(name: &String) -> (v: Vec<String>)
    ensures
        v.deep_view() == seq![name@],
{
    let mut v: Vec<String> = Vec::new();
    v.push(name.clone());
    proof {
        assert(v.deep_view() =~= seq![name@]);
    }
    v
}

/// Appending result lists concatenates their viewed name sequences.
proof fn lemma_append_deep_view(v: Vec<String>, a: Vec<String>, b: Vec<String>)
    requires
        v@ == a@ + b@,
    ensures
        v.deep_view() == a.deep_view() + b.deep_view(),
{
    assert(v.deep_view() =~= a.deep_view() + b.deep_view());
}

/// Reduces a document root to the attribute set to walk, unwrapping
/// `let ... in` bindings and lambda bodies; `None` when the document has no
/// root attribute set.
pub fn recurse_to_attrset(e: &Expr) -> (r: Option<&AttrSet>)
    ensures
        match r {
            Some(set) => spec_root_attrset(*e) == Some(*set),
            None => spec_root_attrset(*e) is None,
        },
    decreases *e,
{
    match e {
        Expr::AttrSet(set) => Some(set),
        Expr::LetIn(body) => match body {
            Some(b) => recurse_to_attrset(&**b),
            None => None,
        },
        Expr::Lambda(body) => match body {
            Some(b) => recurse_to_attrset(&**b),
            None => None,
        },
        _ => None,
    }
}

/// Matches the flattened form `services.<name>.enable = true;`, given an
/// entry whose value is the identifier `name`.
pub fn handle_ident(apv: &AttrpathValue, name: &String) -> (r: Result<Vec<String>, ScanError>)
    ensures
        result_matches(r, spec_handle_ident(apv.path, name@)),
{
    if !text_is(name, "true") {
        return Ok(no_names());
    }
    match &apv.path {
        None => Err(ScanError::MalformedTree),
        Some(p) => {
            if p.attrs.len() < 3 {
                return Ok(no_names());
            }
            match (&p.attrs[0], &p.attrs[1], &p.attrs[2]) {
                (Attr::Ident(first), Attr::Ident(service), Attr::Ident(third)) => {
                    if text_is(first, "services") && text_is(third, "enable") {
                        Ok(one_name(service))
                    } else {
                        Ok(no_names())
                    }
                },
                _ => Ok(no_names()),
            }
        },
    }
}

/// Decides what one entry of a service block contributes to the enable
/// scan: one copy of `name` when the entry's path starts with `enable` and
/// its value is not an identifier other than `true`.
pub fn enable_entry(e: &Entry, name: &String) -> (r: Result<Vec<String>, ScanError>)
    ensures
        result_matches(r, spec_enable_entry(*e, name@)),
{
    match e {
        Entry::AttrpathValue(apv) => match &apv.path {
            None => Err(ScanError::MalformedTree),
            Some(p) => {
                if p.attrs.len() < 1 {
                    return Ok(no_names());
                }
                match &p.attrs[0] {
                    Attr::Ident(first) => {
                        if !text_is(first, "enable") {
                            return Ok(no_names());
                        }
                        let enabled: bool = match &apv.value {
                            Some(v) => match &**v {
                                Expr::Ident(t) => text_is(t, "true"),
                                _ => true,
                            },
                            None => true,
                        };
                        if enabled {
                            Ok(one_name(name))
                        } else {
                            Ok(no_names())
                        }
                    },
                    Attr::Dynamic => Ok(no_names()),
                }
            },
        },
        Entry::Other => Ok(no_names()),
    }
}

/// The enable scan over a service block's entries, from index `from` on,
/// in document order.
pub fn enable_scan(entries: &Vec<Entry>, from: usize, name: &String) -> (r: Result<
    Vec<String>,
    ScanError,
>)
    requires
        from <= entries@.len(),
    ensures
        result_matches(r, spec_enable_scan(entries@.skip(from as int), name@)),
    decreases entries@.len() - from,
{
    if from == entries.len() {
        proof {
            assert(entries@.skip(from as int) =~= Seq::<Entry>::empty());
        }
        return Ok(no_names());
    }
    proof {
        assert(entries@.skip(from as int)[0] == entries@[from as int]);
        assert(entries@.skip(from as int).drop_first() =~= entries@.skip(from as int + 1));
    }
    let head = match enable_entry(&entries[from], name) {
        Err(err) => {
            return Err(err);
        },
        Ok(head) => head,
    };
    let mut tail = match enable_scan(entries, from + 1, name) {
        Err(err) => {
            return Err(err);
        },
        Ok(tail) => tail,
    };
    let ghost old_head = head;
    let ghost old_tail = tail;
    let mut out = head;
    out.append(&mut tail);
    proof {
        lemma_append_deep_view(out, old_head, old_tail);
    }
    Ok(out)
}

/// Walks the entries of an attribute set, from index `from` on, collecting
/// in document order what each entry contributes.
pub fn scan_entries(entries: &Vec<Entry>, from: usize, in_services: bool) -> (r: Result<
    Vec<String>,
    ScanError,
>)
    requires
        from <= entries@.len(),
    ensures
        result_matches(r, spec_scan_entries(entries@.skip(from as int), in_services)),
    decreases entries@, 3int, entries@.len() - from,
{
    if from == entries.len() {
        proof {
            assert(entries@.skip(from as int) =~= Seq::<Entry>::empty());
        }
        return Ok(no_names());
    }
    proof {
        assert(entries@.skip(from as int)[0] == entries@[from as int]);
        assert(entries@.skip(from as int).drop_first() =~= entries@.skip(from as int + 1));
    }
    let head = match handle_entry(&entries[from], in_services) {
        Err(err) => {
            return Err(err);
        },
        Ok(head) => head,
    };
    let mut tail = match scan_entries(entries, from + 1, in_services) {
        Err(err) => {
            return Err(err);
        },
        Ok(tail) => tail,
    };
    let ghost old_head = head;
    let ghost old_tail = tail;
    let mut out = head;
    out.append(&mut tail);
    proof {
        lemma_append_deep_view(out, old_head, old_tail);
    }
    Ok(out)
}

/// Classifies one entry and dispatches: an identifier value goes to the
/// flattened-form matcher, an attribute-set value to the nested-form
/// matcher; everything else contributes nothing.
pub fn handle_entry(e: &Entry, in_services: bool) -> (r: Result<Vec<String>, ScanError>)
    ensures
        result_matches(r, spec_handle_entry(*e, in_services)),
    decreases *e, 2int, 0int,
{
    match e {
        Entry::AttrpathValue(apv) => match &apv.value {
            Some(v) => match &**v {
                Expr::Ident(t) => handle_ident(apv, t),
                Expr::AttrSet(set) => handle_attrset(apv, set, in_services),
                _ => Ok(no_names()),
            },
            None => Ok(no_names()),
        },
        Entry::Other => Ok(no_names()),
    }
}

/// Matches the nested forms `services.<name> = { enable = ...; };` and
/// `services = { <name> = { enable = ...; }; };`, threading the flag that
/// records whether the walk already stands inside `services`.
pub fn handle_attrset(apv: &AttrpathValue, set: &AttrSet, in_services: bool) -> (r: Result<
    Vec<String>,
    ScanError,
>)
    ensures
        result_matches(r, spec_handle_attrset(apv.path, *set, in_services)),
    decreases *set, 1int, 0int,
{
    match &apv.path {
        None => Err(ScanError::MalformedTree),
        Some(p) => {
            if !in_services {
                if p.attrs.len() < 1 {
                    return Ok(no_names());
                }
                match &p.attrs[0] {
                    Attr::Ident(first) => {
                        if !text_is(first, "services") {
                            return Ok(no_names());
                        }
                    },
                    Attr::Dynamic => {
                        return Ok(no_names());
                    },
                }
            }
            let next: usize = if in_services {
                0
            } else {
                1
            };
            if p.attrs.len() <= next {
                proof {
                    assert(set.entries@.skip(0) =~= set.entries@);
                }
                scan_entries(&set.entries, 0, true)
            } else {
                match &p.attrs[next] {
                    Attr::Ident(name) => {
                        proof {
                            assert(set.entries@.skip(0) =~= set.entries@);
                        }
                        enable_scan(&set.entries, 0, name)
                    },
                    Attr::Dynamic => Ok(no_names()),
                }
            }
        },
    }
}

/// The full analysis of one expression tree: resolves the root attribute
/// set and walks its entries, returning the ordered service names or the
/// error the tree forces.
pub fn enabled_services_of_expr(e: &Expr) -> (r: Result<Vec<String>, ScanError>)
    ensures
        result_matches(r, spec_enabled_services(*e)),
{
    match recurse_to_attrset(e) {
        None => Err(ScanError::NoRootAttrSet),
        Some(set) => {
            proof {
                assert(set.entries@.skip(0) =~= set.entries@);
            }
            scan_entries(&set.entries, 0, false)
        },
    }
}

} // verus!
