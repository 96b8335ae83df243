//! Definitions, rules, and the definition book that owns the name registry
//! and an ordered sequence of definitions.

use crate::registry::DefNames;
use crate::render::{lemma_render_patterns_push, refs_registered, render_patterns, render_term};
use crate::term::{lemma_pattern_views_index, pattern_view, pattern_views, Pattern, Term};
use vstd::prelude::*;
use vstd::string::StringExecFns;

verus! {

/// A single pattern-matching equation: a definition identifier, one head
/// pattern per parameter, and a body.
#[derive(Debug)]
pub struct Rule {
    pub def_id: u64,
    pub pats: Vec<Pattern>,
    pub body: Term,
}

/// A top-level definition: an identifier and its ordered, non-empty sequence
/// of rules. All rules of one definition share the same arity; the
/// constructing pass upholds that invariant.
#[derive(Debug)]
pub struct Definition {
    pub def_id: u64,
    pub rules: Vec<Rule>,
}

/// The definition book: the name registry together with the definitions, in
/// insertion order.
pub struct DefinitionBook {
    pub def_names: DefNames,
    pub defs: Vec<Definition>,
}

/// Whether a rule's identifier is registered and every reference in its body
/// is registered.
pub open spec fn rule_registered(r: Rule, names: Map<u64, Seq<char>>) -> bool {
    names.contains_key(r.def_id) && refs_registered(r.body@, names)
}

/// Whether every rule of a definition is registered.
pub open spec fn def_registered(d: Definition, names: Map<u64, Seq<char>>) -> bool {
    forall|i: int| 0 <= i < d.rules@.len() ==> rule_registered(#[trigger] d.rules@[i], names)
}

/// Whether every definition of a book is registered in its own registry.
pub open spec fn book_registered(b: DefinitionBook) -> bool {
    forall|i: int| 0 <= i < b.defs@.len() ==> def_registered(#[trigger] b.defs@[i], b.def_names@)
}

/// The canonical text of a rule: the registered name and the patterns in
/// parentheses, then the body.
pub open spec fn render_rule(r: Rule, names: Map<u64, Seq<char>>) -> Seq<char> {
    "("@ + names[r.def_id] + render_patterns(pattern_views(r.pats@)) + ") = "@ + render_term(
        r.body@,
        names,
    )
}

/// The canonical texts of a sequence of rules, newline-joined.
pub open spec fn render_rules(rs: Seq<Rule>, names: Map<u64, Seq<char>>) -> Seq<char>
    decreases rs.len(),
{
    if rs.len() == 0 {
        Seq::empty()
    } else if rs.len() == 1 {
        render_rule(rs[0], names)
    } else {
        render_rule(rs[0], names) + "\n"@ + render_rules(rs.drop_first(), names)
    }
}

/// The canonical text of a definition: its rules, newline-joined.
pub open spec fn render_def(d: Definition, names: Map<u64, Seq<char>>) -> Seq<char> {
    render_rules(d.rules@, names)
}

/// The canonical texts of a sequence of definitions, blank-line-joined.
pub open spec fn render_defs(ds: Seq<Definition>, names: Map<u64, Seq<char>>) -> Seq<char>
    decreases ds.len(),
{
    if ds.len() == 0 {
        Seq::empty()
    } else if ds.len() == 1 {
        render_def(ds[0], names)
    } else {
        render_def(ds[0], names) + "\n\n"@ + render_defs(ds.drop_first(), names)
    }
}

/// The canonical text of a whole book, in stored order.
pub open spec fn render_book(b: DefinitionBook) -> Seq<char> {
    render_defs(b.defs@, b.def_names@)
}

/// Joining one more rule appends a newline and its text (no newline when it
/// is the first).
pub proof fn lemma_render_rules_push(rs: Seq<Rule>, r: Rule, names: Map<u64, Seq<char>>)
    ensures
        rs.len() == 0 ==> render_rules(rs.push(r), names) == render_rule(r, names),
        rs.len() > 0 ==> render_rules(rs.push(r), names) == render_rules(rs, names) + "\n"@
            + render_rule(r, names),
    decreases rs.len(),
{
    if rs.len() == 0 {
        assert(rs.push(r)[0] == r);
    } else {
        assert(rs.push(r)[0] == rs[0]);
        assert(rs.push(r).drop_first() =~= rs.drop_first().push(r));
        lemma_render_rules_push(rs.drop_first(), r, names);
        if rs.len() == 1 {
            assert(render_rules(rs.push(r), names) =~= render_rules(rs, names) + "\n"@
                + render_rule(r, names));
        } else {
            assert(render_rules(rs.push(r), names) =~= render_rules(rs, names) + "\n"@
                + render_rule(r, names));
        }
    }
}

/// Joining one more definition appends a blank line and its text (nothing
/// before it when it is the first).
pub proof fn lemma_render_defs_push(ds: Seq<Definition>, d: Definition, names: Map<u64, Seq<char>>)
    ensures
        ds.len() == 0 ==> render_defs(ds.push(d), names) == render_def(d, names),
        ds.len() > 0 ==> render_defs(ds.push(d), names) == render_defs(ds, names) + "\n\n"@
            + render_def(d, names),
    decreases ds.len(),
{
    if ds.len() == 0 {
        assert(ds.push(d)[0] == d);
    } else {
        assert(ds.push(d)[0] == ds[0]);
        assert(ds.push(d).drop_first() =~= ds.drop_first().push(d));
        lemma_render_defs_push(ds.drop_first(), d, names);
        assert(render_defs(ds.push(d), names) =~= render_defs(ds, names) + "\n\n"@ + render_def(
            d,
            names,
        ));
    }
}

impl Rule {
    /// The rule's arity: how many head patterns it matches.
    pub fn arity(&self) -> (r: usize)
        ensures
            r == self.pats@.len(),
    {
        self.pats.len()
    }

    /// The canonical text of this rule.
    pub fn to_string(&self, def_names: &DefNames) -> (r: String)
        requires
            rule_registered(*self, def_names@),
        ensures
            r@ == render_rule(*self, def_names@),
    {
        let mut s = String::from_str("(");
        let n = def_names.name(self.def_id).unwrap();
        s.append(n.as_str());
        let ghost pats_v = pattern_views(self.pats@);
        proof {
            lemma_pattern_views_index(self.pats@);
        }
        let mut i: usize = 0;
        while i < self.pats.len()
            invariant
                i <= self.pats.len(),
                pats_v == pattern_views(self.pats@),
                pats_v.len() == self.pats@.len(),
                forall|j: int|
                    0 <= j < self.pats@.len() ==> pats_v[j] == pattern_view(self.pats@[j]),
                rule_registered(*self, def_names@),
                s@ == "("@ + def_names@[self.def_id] + render_patterns(
                    pats_v.subrange(0, i as int),
                ),
            decreases self.pats.len() - i,
        {
            s.append(" ");
            let p = self.pats[i].to_string();
            s.append(p.as_str());
            proof {
                lemma_render_patterns_push(pats_v.subrange(0, i as int), pats_v[i as int]);
                assert(pats_v.subrange(0, i as int).push(pats_v[i as int]) =~= pats_v.subrange(
                    0,
                    i as int + 1,
                ));
                assert(s@ =~= "("@ + def_names@[self.def_id] + render_patterns(
                    pats_v.subrange(0, i as int + 1),
                ));
            }
            i = i + 1;
        }
        s.append(") = ");
        let b = self.body.to_string(def_names);
        s.append(b.as_str());
        proof {
            assert(pats_v.subrange(0, self.pats@.len() as int) =~= pats_v);
        }
        s
    }
}

impl Definition {
    /// The definition's arity: the arity of its first rule. A definition
    /// always carries at least one rule.
    pub fn arity(&self) -> (r: usize)
        requires
            self.rules@.len() > 0,
        ensures
            r == self.rules@[0].pats@.len(),
    {
        self.rules[0].arity()
    }

    /// The canonical text of this definition: its rules, newline-joined.
    pub fn to_string(&self, def_names: &DefNames) -> (r: String)
        requires
            def_registered(*self, def_names@),
        ensures
            r@ == render_def(*self, def_names@),
    {
        let mut s = String::new();
        let mut i: usize = 0;
        while i < self.rules.len()
            invariant
                i <= self.rules.len(),
                def_registered(*self, def_names@),
                s@ == render_rules(self.rules@.subrange(0, i as int), def_names@),
            decreases self.rules.len() - i,
        {
            if i > 0 {
                s.append("\n");
            }
            let r = self.rules[i].to_string(def_names);
            s.append(r.as_str());
            proof {
                lemma_render_rules_push(
                    self.rules@.subrange(0, i as int),
                    self.rules@[i as int],
                    def_names@,
                );
                assert(self.rules@.subrange(0, i as int).push(self.rules@[i as int])
                    =~= self.rules@.subrange(0, i as int + 1));
            }
            i = i + 1;
        }
        proof {
            assert(self.rules@.subrange(0, self.rules@.len() as int) =~= self.rules@);
        }
        s
    }
}

impl DefinitionBook {
    /// Creates an empty book with an empty registry.
    pub fn new() -> (r: DefinitionBook)
        ensures
            r.def_names.wf(),
            (r.def_names@ == Map::<u64, Seq<char>>::empty()),
            r.def_names.next_id() == 0,
            (r.defs@ == Seq::<Definition>::empty()),
    {
        DefinitionBook { def_names: DefNames::new(), defs: Vec::new() }
    }

    /// The canonical text of the whole book: its definitions in stored
    /// order, blank-line-joined.
    pub fn to_string(&self) -> (r: String)
        requires
            book_registered(*self),
        ensures
            r@ == render_book(*self),
    {
        let mut s = String::new();
        let mut i: usize = 0;
        while i < self.defs.len()
            invariant
                i <= self.defs.len(),
                book_registered(*self),
                s@ == render_defs(self.defs@.subrange(0, i as int), self.def_names@),
            decreases self.defs.len() - i,
        {
            if i > 0 {
                s.append("\n\n");
            }
            let d = self.defs[i].to_string(&self.def_names);
            s.append(d.as_str());
            proof {
                lemma_render_defs_push(
                    self.defs@.subrange(0, i as int),
                    self.defs@[i as int],
                    self.def_names@,
                );
                assert(self.defs@.subrange(0, i as int).push(self.defs@[i as int])
                    =~= self.defs@.subrange(0, i as int + 1));
            }
            i = i + 1;
        }
        proof {
            assert(self.defs@.subrange(0, self.defs@.len() as int) =~= self.defs@);
        }
        s
    }
}

} // verus!
