//! Properties of the analysis, stated and proved over the specification
//! walk.

use vstd::prelude::*;

use crate::ast::{Attrpath, Entry, Expr};
use crate::scan::{
    attr_is, spec_enable_scan, spec_enabled_services, spec_handle_entry, spec_root_attrset,
    spec_scan_entries,
};

verus! {

broadcast use
    vstd::std_specs::vec::axiom_vec_decreases_to_view,
    vstd::seq::axiom_seq_index_decreases,
    vstd::seq::axiom_seq_subrange_decreases,
;

/// Whether an attribute path holds a segment that is the identifier
/// `services`.
pub open spec fn path_mentions_services(path: Option<Attrpath>) -> bool {
    match path {
        Some(p) => exists|i: int| 0 <= i < p.attrs@.len() && attr_is(#[trigger] p.attrs@[i], "services"@),
        None => false,
    }
}

/// Whether an expression holds, anywhere, an attribute-path segment that
/// is the identifier `services`.
pub open spec fn expr_mentions_services(e: Expr) -> bool
    decreases e, 1int,
{
    match e {
        Expr::AttrSet(set) => entries_mention_services(set.entries@),
        Expr::LetIn(body) => match body {
            Some(b) => expr_mentions_services(*b),
            None => false,
        },
        Expr::Lambda(body) => match body {
            Some(b) => expr_mentions_services(*b),
            None => false,
        },
        _ => false,
    }
}

/// Whether one entry mentions `services`, in its own path or anywhere in
/// its value.
pub open spec fn entry_mentions_services(e: Entry) -> bool
    decreases e, 2int,
{
    match e {
        Entry::AttrpathValue(apv) => path_mentions_services(apv.path) || match apv.value {
            Some(v) => expr_mentions_services(*v),
            None => false,
        },
        Entry::Other => false,
    }
}

/// Whether any entry of the sequence mentions `services`.
pub open spec fn entries_mention_services(es: Seq<Entry>) -> bool
    decreases es, 3int,
{
    es.len() > 0 && (entry_mentions_services(es[0]) || entries_mention_services(es.drop_first()))
}

proof fn lemma_no_services_entry(e: Entry)
    requires
        !entry_mentions_services(e),
    ensures
        spec_handle_entry(e, false) matches Ok(names) ==> names == Seq::<Seq<char>>::empty(),
{
    match e {
        Entry::AttrpathValue(apv) => match apv.value {
            Some(v) => match *v {
                Expr::Ident(t) => {
                    if t@ == "true"@ {
                        match apv.path {
                            Some(p) => {
                                if p.attrs@.len() >= 3 && attr_is(p.attrs@[0], "services"@) {
                                    assert(path_mentions_services(apv.path));
                                }
                            },
                            None => {},
                        }
                    }
                },
                Expr::AttrSet(set) => {
                    match apv.path {
                        Some(p) => {
                            if p.attrs@.len() >= 1 && attr_is(p.attrs@[0], "services"@) {
                                assert(path_mentions_services(apv.path));
                            }
                        },
                        None => {},
                    }
                },
                _ => {},
            },
            None => {},
        },
        Entry::Other => {},
    }
}

proof fn lemma_no_services_entries(es: Seq<Entry>)
    requires
        !entries_mention_services(es),
    ensures
        spec_scan_entries(es, false) matches Ok(names) ==> names == Seq::<Seq<char>>::empty(),
    decreases es.len(),
{
    if es.len() > 0 {
        lemma_no_services_entry(es[0]);
        lemma_no_services_entries(es.drop_first());
        assert(Seq::<Seq<char>>::empty() + Seq::<Seq<char>>::empty() =~= Seq::<Seq<char>>::empty());
    }
}

proof fn lemma_no_services_root(e: Expr)
    requires
        !expr_mentions_services(e),
    ensures
        spec_root_attrset(e) matches Some(set) ==> !entries_mention_services(set.entries@),
    decreases e,
{
    match e {
        Expr::AttrSet(set) => {},
        Expr::LetIn(body) => match body {
            Some(b) => lemma_no_services_root(*b),
            None => {},
        },
        Expr::Lambda(body) => match body {
            Some(b) => lemma_no_services_root(*b),
            None => {},
        },
        _ => {},
    }
}

/// A document with no `services` attribute anywhere yields no names: when
/// the analysis succeeds at all, its result is the empty sequence.
pub proof fn lemma_no_services_means_empty(e: Expr)
    requires
        !expr_mentions_services(e),
    ensures
        spec_enabled_services(e) matches Ok(names) ==> names == Seq::<Seq<char>>::empty(),
{
    lemma_no_services_root(e);
    match spec_root_attrset(e) {
        Some(set) => lemma_no_services_entries(set.entries@),
        None => {},
    }
}

/// Wrapping a document in a `let ... in` binding or making it a lambda's
/// body does not change the analysis: both resolve to the same root.
pub proof fn lemma_wrapping_preserved(e: Expr)
    ensures
        spec_enabled_services(Expr::LetIn(Some(Box::new(e)))) == spec_enabled_services(e),
        spec_enabled_services(Expr::Lambda(Some(Box::new(e)))) == spec_enabled_services(e),
{
}

/// Whether an entry of a service block qualifies in the enable scan: an
/// `attrpath = value;` entry whose path starts with the identifier
/// `enable` and whose value is not an identifier other than `true`.
pub open spec fn enable_qualifies(e: Entry) -> bool {
    match e {
        Entry::AttrpathValue(apv) => match apv.path {
            Some(p) => p.attrs@.len() >= 1 && attr_is(p.attrs@[0], "enable"@) && match apv.value {
                Some(v) => match *v {
                    Expr::Ident(t) => t@ == "true"@,
                    _ => true,
                },
                None => true,
            },
            None => false,
        },
        Entry::Other => false,
    }
}

/// How many entries of a service block qualify in the enable scan.
pub open spec fn count_qualifying(es: Seq<Entry>) -> nat
    decreases es.len(),
{
    if es.len() == 0 {
        0
    } else {
        (if enable_qualifies(es[0]) {
            1nat
        } else {
            0nat
        }) + count_qualifying(es.drop_first())
    }
}

/// Each qualifying `enable` entry of a service block appends the service
/// name once: when the enable scan succeeds it yields exactly one copy of
/// the name per qualifying entry, so duplicate `enable` entries yield
/// duplicate names.
pub proof fn lemma_one_name_per_enable_entry(es: Seq<Entry>, name: Seq<char>)
    ensures
        spec_enable_scan(es, name) matches Ok(names) ==> {
            &&& names.len() == count_qualifying(es)
            &&& forall|i: int| 0 <= i < names.len() ==> names[i] == name
        },
    decreases es.len(),
{
    if es.len() > 0 {
        lemma_one_name_per_enable_entry(es.drop_first(), name);
    }
}

} // verus!
