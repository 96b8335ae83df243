//! The substitution engine: in-place replacement of one free variable by a
//! term, with scope-correct recursion.
//!
//! Two notions of scope exist side by side in the IR. Lexical binders
//! (lambda, let, duplicate) shadow the substituted name inside the regions
//! they bind; the channel binder is scopeless with respect to this lexical
//! pass and never blocks substitution. Links resolve through channel
//! identity, never through lexical substitution.
//!
//! Substitution is single-variable and not capture-avoiding: producers must
//! alpha-rename beforehand when the replacement could be captured by a
//! binder inside the rewritten term.

use crate::term::{clone_opt_name, opt_name_view, Term, TermV};
use vstd::prelude::*;

verus! {

/// The result of replacing every free occurrence of the variable named
/// `from` in `t` by `to`.
pub open spec fn subst_spec(t: TermV, from: Seq<char>, to: TermV) -> TermV
    decreases t,
{
    match t {
        TermV::Lam { nam, bod } => {
            if nam == Some(from) {
                t
            } else {
                TermV::Lam { nam, bod: Box::new(subst_spec(*bod, from, to)) }
            }
        },
        TermV::Var { nam } => {
            if nam == from {
                to
            } else {
                t
            }
        },
        TermV::Chn { nam, bod } => TermV::Chn { nam, bod: Box::new(subst_spec(*bod, from, to)) },
        TermV::Lnk { nam } => t,
        TermV::Let { nam, val, nxt } => TermV::Let {
            nam,
            val: Box::new(subst_spec(*val, from, to)),
            nxt: if nam == from {
                nxt
            } else {
                Box::new(subst_spec(*nxt, from, to))
            },
        },
        TermV::Ref { def_id } => t,
        TermV::App { fun, arg } => TermV::App {
            fun: Box::new(subst_spec(*fun, from, to)),
            arg: Box::new(subst_spec(*arg, from, to)),
        },
        TermV::If { cond, thn, els_ } => TermV::If {
            cond: Box::new(subst_spec(*cond, from, to)),
            thn: Box::new(subst_spec(*thn, from, to)),
            els_: Box::new(subst_spec(*els_, from, to)),
        },
        TermV::Dup { fst, snd, val, nxt } => TermV::Dup {
            fst,
            snd,
            val: Box::new(subst_spec(*val, from, to)),
            nxt: if fst == Some(from) || snd == Some(from) {
                nxt
            } else {
                Box::new(subst_spec(*nxt, from, to))
            },
        },
        TermV::Sup { fst, snd } => TermV::Sup {
            fst: Box::new(subst_spec(*fst, from, to)),
            snd: Box::new(subst_spec(*snd, from, to)),
        },
        TermV::Era => t,
        TermV::Num { val } => t,
        TermV::Opx { op, fst, snd } => TermV::Opx {
            op,
            fst: Box::new(subst_spec(*fst, from, to)),
            snd: Box::new(subst_spec(*snd, from, to)),
        },
    }
}

impl Term {
    /// Substitute the occurrences of a variable in a term with the given term.
    pub fn subst(&mut self, from: &String, to: &Term)
        ensures
            final(self)@ == subst_spec(old(self)@, from@, to@),
    {
        let t = self.substituted(from, to);
        *self = t;
    }

    /// The substituted copy of `self`: every free occurrence of `from` is
    /// replaced by a structural copy of `to`.
    pub fn substituted(&self, from: &String, to: &Term) -> (r: Term)
        ensures
            r@ == subst_spec(self@, from@, to@),
        decreases *self,
    {
        match self {
            Term::Lam { nam, bod } => {
                if opt_name_is(nam, from) {
                    self.duplicate()
                } else {
                    Term::Lam { nam: clone_opt_name(nam), bod: Box::new(bod.substituted(from, to)) }
                }
            },
            Term::Var { nam } => {
                if nam.eq(from) {
                    to.duplicate()
                } else {
                    Term::Var { nam: nam.clone() }
                }
            },
            Term::Chn { nam, bod } => Term::Chn {
                nam: nam.clone(),
                bod: Box::new(bod.substituted(from, to)),
            },
            Term::Lnk { nam } => Term::Lnk { nam: nam.clone() },
            Term::Let { nam, val, nxt } => Term::Let {
                nam: nam.clone(),
                val: Box::new(val.substituted(from, to)),
                nxt: if nam.eq(from) {
                    Box::new(nxt.duplicate())
                } else {
                    Box::new(nxt.substituted(from, to))
                },
            },
            Term::Ref { def_id } => Term::Ref { def_id: *def_id },
            Term::App { fun, arg } => Term::App {
                fun: Box::new(fun.substituted(from, to)),
                arg: Box::new(arg.substituted(from, to)),
            },
            Term::If { cond, thn, els_ } => Term::If {
                cond: Box::new(cond.substituted(from, to)),
                thn: Box::new(thn.substituted(from, to)),
                els_: Box::new(els_.substituted(from, to)),
            },
            Term::Dup { fst, snd, val, nxt } => {
                let shadowed = opt_name_is(fst, from) || opt_name_is(snd, from);
                Term::Dup {
                    fst: clone_opt_name(fst),
                    snd: clone_opt_name(snd),
                    val: Box::new(val.substituted(from, to)),
                    nxt: if shadowed {
                        Box::new(nxt.duplicate())
                    } else {
                        Box::new(nxt.substituted(from, to))
                    },
                }
            },
            Term::Sup { fst, snd } => Term::Sup {
                fst: Box::new(fst.substituted(from, to)),
                snd: Box::new(snd.substituted(from, to)),
            },
            Term::Era => Term::Era,
            Term::Num { val } => Term::Num { val: *val },
            Term::Opx { op, fst, snd } => Term::Opx {
                op: *op,
                fst: Box::new(fst.substituted(from, to)),
                snd: Box::new(snd.substituted(from, to)),
            },
        }
    }
}

/// Whether an optional bound name is present and equal to `s`.
fn opt_name_is(n: &Option<String>, s: &String) -> (r: bool)
    ensures
        r == (opt_name_view(*n) == Some(s@)),
{
    match n {
        Some(x) => x.eq(s),
        None => false,
    }
}

/// Lambda shadowing: substituting a name into a lambda that binds that same
/// name leaves the whole lambda untouched.
pub proof fn lemma_subst_lambda_shadowed(nam: Seq<char>, bod: TermV, to: TermV)
    ensures
        subst_spec(TermV::Lam { nam: Some(nam), bod: Box::new(bod) }, nam, to) == (TermV::Lam {
            nam: Some(nam),
            bod: Box::new(bod),
        }),
{
}

/// A lambda binding a different name (or none) lets substitution reach its
/// body.
pub proof fn lemma_subst_lambda_open(
    nam: Option<Seq<char>>,
    bod: TermV,
    from: Seq<char>,
    to: TermV,
)
    requires
        nam != Some(from),
    ensures
        subst_spec(TermV::Lam { nam, bod: Box::new(bod) }, from, to) == (TermV::Lam {
            nam,
            bod: Box::new(subst_spec(bod, from, to)),
        }),
{
}

/// Channel scopelessness: the channel binder never blocks substitution,
/// even when its bound name equals the substituted name.
pub proof fn lemma_subst_channel_scopeless(
    nam: Seq<char>,
    bod: TermV,
    from: Seq<char>,
    to: TermV,
)
    ensures
        subst_spec(TermV::Chn { nam, bod: Box::new(bod) }, from, to) == (TermV::Chn {
            nam,
            bod: Box::new(subst_spec(bod, from, to)),
        }),
{
}

/// Let shadowing: the bound value is always substituted; the continuation is
/// substituted only when the let binds a different name.
pub proof fn lemma_subst_let_shadowed(nam: Seq<char>, val: TermV, nxt: TermV, to: TermV)
    ensures
        subst_spec(
            TermV::Let { nam, val: Box::new(val), nxt: Box::new(nxt) },
            nam,
            to,
        ) == (TermV::Let { nam, val: Box::new(subst_spec(val, nam, to)), nxt: Box::new(nxt) }),
{
}

/// Duplicate shadowing: when either bound name equals the substituted name,
/// the continuation is untouched while the value is still substituted.
pub proof fn lemma_subst_dup_shadowed(
    fst: Option<Seq<char>>,
    snd: Option<Seq<char>>,
    val: TermV,
    nxt: TermV,
    from: Seq<char>,
    to: TermV,
)
    requires
        fst == Some(from) || snd == Some(from),
    ensures
        subst_spec(
            TermV::Dup { fst, snd, val: Box::new(val), nxt: Box::new(nxt) },
            from,
            to,
        ) == (TermV::Dup { fst, snd, val: Box::new(subst_spec(val, from, to)), nxt: Box::new(nxt) }),
{
}

/// Links are never substituted: they resolve through channel identity.
pub proof fn lemma_subst_link_untouched(nam: Seq<char>, from: Seq<char>, to: TermV)
    ensures
        subst_spec(TermV::Lnk { nam }, from, to) == (TermV::Lnk { nam }),
{
}

} // verus!
