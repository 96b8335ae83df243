//! The term and pattern data model: the expression IR, rule-head patterns,
//! the mathematical view of both, curried-call construction, and
//! pattern-to-term elaboration.

use vstd::prelude::*;

verus! {

/// Tag of a symbolic numeric operation between built-in numbers.
/// The operation is only tagged here, never evaluated.
#[derive(Debug, Clone, Copy)]
pub enum Op {
    ADD,
    SUB,
    MUL,
    DIV,
    MOD,
    EQ,
    NE,
    LT,
    GT,
    AND,
    OR,
    XOR,
    NOT,
    LSH,
    RSH,
}

/// A rule-head pattern: a constructor applied to sub-patterns, a variable
/// (unnamed means a wildcard), or an exact numeral.
#[derive(Debug)]
pub enum Pattern {
    Ctr(String, Vec<Pattern>),
    Var(Option<String>),
    Num(u32),
}

/// The expression IR: a strict tree of exclusively owned nodes. Sharing is
/// expressed through the `Chn`/`Lnk` pair of variants, never through aliased
/// storage.
#[derive(Debug)]
pub enum Term {
    /// Function abstraction; an unnamed bound variable is a wildcard.
    Lam { nam: Option<String>, bod: Box<Term> },
    /// Reference to a lexically bound name.
    Var { nam: String },
    /// Like a scopeless lambda: the bound name may occur outside the body.
    Chn { nam: String, bod: Box<Term> },
    /// The use of a channel-bound name.
    Lnk { nam: String },
    /// Sequential lexical binding.
    Let { nam: String, val: Box<Term>, nxt: Box<Term> },
    /// A call to a top-level definition, resolved through the name registry.
    Ref { def_id: u64 },
    /// Application of a function to an argument.
    App { fun: Box<Term>, arg: Box<Term> },
    /// Branch on a boolean-like numeral.
    If { cond: Box<Term>, thn: Box<Term>, els_: Box<Term> },
    /// Splits one value into two independently usable bindings.
    Dup { fst: Option<String>, snd: Option<String>, val: Box<Term>, nxt: Box<Term> },
    /// Pairs two terms into one sharable superposition.
    Sup { fst: Box<Term>, snd: Box<Term> },
    /// The erased, discarded value.
    Era,
    /// A literal unsigned 32-bit number.
    Num { val: u32 },
    /// A symbolic numeric operation between two operands.
    Opx { op: Op, fst: Box<Term>, snd: Box<Term> },
}

/// The mathematical model of a term: the same tree shape with names as
/// character sequences. All contracts of this crate speak about this model.
pub ghost enum TermV {
    Lam { nam: Option<Seq<char>>, bod: Box<TermV> },
    Var { nam: Seq<char> },
    Chn { nam: Seq<char>, bod: Box<TermV> },
    Lnk { nam: Seq<char> },
    Let { nam: Seq<char>, val: Box<TermV>, nxt: Box<TermV> },
    Ref { def_id: u64 },
    App { fun: Box<TermV>, arg: Box<TermV> },
    If { cond: Box<TermV>, thn: Box<TermV>, els_: Box<TermV> },
    Dup { fst: Option<Seq<char>>, snd: Option<Seq<char>>, val: Box<TermV>, nxt: Box<TermV> },
    Sup { fst: Box<TermV>, snd: Box<TermV> },
    Era,
    Num { val: u32 },
    Opx { op: Op, fst: Box<TermV>, snd: Box<TermV> },
}

/// The mathematical model of a pattern.
pub ghost enum PatternV {
    Ctr(Seq<char>, Seq<PatternV>),
    Var(Option<Seq<char>>),
    Num(u32),
}

/// The model of an optional bound name.
pub open spec fn opt_name_view(n: Option<String>) -> Option<Seq<char>> {
    match n {
        Some(s) => Some(s@),
        None => None,
    }
}

/// The model of a term.
pub open spec fn term_view(t: Term) -> TermV
    decreases t,
{
    match t {
        Term::Lam { nam, bod } => TermV::Lam {
            nam: opt_name_view(nam),
            bod: Box::new(term_view(*bod)),
        },
        Term::Var { nam } => TermV::Var { nam: nam@ },
        Term::Chn { nam, bod } => TermV::Chn { nam: nam@, bod: Box::new(term_view(*bod)) },
        Term::Lnk { nam } => TermV::Lnk { nam: nam@ },
        Term::Let { nam, val, nxt } => TermV::Let {
            nam: nam@,
            val: Box::new(term_view(*val)),
            nxt: Box::new(term_view(*nxt)),
        },
        Term::Ref { def_id } => TermV::Ref { def_id },
        Term::App { fun, arg } => TermV::App {
            fun: Box::new(term_view(*fun)),
            arg: Box::new(term_view(*arg)),
        },
        Term::If { cond, thn, els_ } => TermV::If {
            cond: Box::new(term_view(*cond)),
            thn: Box::new(term_view(*thn)),
            els_: Box::new(term_view(*els_)),
        },
        Term::Dup { fst, snd, val, nxt } => TermV::Dup {
            fst: opt_name_view(fst),
            snd: opt_name_view(snd),
            val: Box::new(term_view(*val)),
            nxt: Box::new(term_view(*nxt)),
        },
        Term::Sup { fst, snd } => TermV::Sup {
            fst: Box::new(term_view(*fst)),
            snd: Box::new(term_view(*snd)),
        },
        Term::Era => TermV::Era,
        Term::Num { val } => TermV::Num { val },
        Term::Opx { op, fst, snd } => TermV::Opx {
            op,
            fst: Box::new(term_view(*fst)),
            snd: Box::new(term_view(*snd)),
        },
    }
}

impl View for Term {
    type V = TermV;

    open spec fn view(&self) -> TermV {
        term_view(*self)
    }
}

/// The models of a sequence of terms, in order.
pub open spec fn term_views(ts: Seq<Term>) -> Seq<TermV> {
    ts.map_values(|t: Term| term_view(t))
}

/// The model of a pattern.
pub open spec fn pattern_view(p: Pattern) -> PatternV
    decreases p,
{
    match p {
        Pattern::Ctr(nam, args) => PatternV::Ctr(nam@, pattern_views(args@)),
        Pattern::Var(nam) => PatternV::Var(opt_name_view(nam)),
        Pattern::Num(val) => PatternV::Num(val),
    }
}

/// The models of a sequence of patterns, in order.
pub open spec fn pattern_views(ps: Seq<Pattern>) -> Seq<PatternV>
    decreases ps,
{
    if ps.len() == 0 {
        Seq::empty()
    } else {
        seq![pattern_view(ps[0])] + pattern_views(ps.drop_first())
    }
}

impl View for Pattern {
    type V = PatternV;

    open spec fn view(&self) -> PatternV {
        pattern_view(*self)
    }
}

/// `pattern_views` maps each element to its model and keeps the length.
pub proof fn lemma_pattern_views_index(ps: Seq<Pattern>)
    ensures
        pattern_views(ps).len() == ps.len(),
        forall|i: int| 0 <= i < ps.len() ==> pattern_views(ps)[i] == pattern_view(ps[i]),
    decreases ps,
{
    if ps.len() > 0 {
        lemma_pattern_views_index(ps.drop_first());
    }
}

/// The left-associated application chain that folds `args` onto `f` in order:
/// no arguments yields `f` itself.
pub open spec fn call_spec(f: TermV, args: Seq<TermV>) -> TermV
    decreases args.len(),
{
    if args.len() == 0 {
        f
    } else {
        call_spec(TermV::App { fun: Box::new(f), arg: Box::new(args[0]) }, args.drop_first())
    }
}

/// A call with no arguments is the called term itself.
pub proof fn lemma_call_no_args(f: TermV)
    ensures
        call_spec(f, Seq::empty()) == f,
{
}

/// The term a pattern elaborates to: a constructor pattern becomes an
/// application chain headed by a variable named after the constructor, a
/// variable pattern becomes a variable (the wildcard name `_` if unnamed),
/// and a numeral pattern becomes a numeral.
pub open spec fn pattern_term_spec(p: PatternV) -> TermV
    decreases p,
{
    match p {
        PatternV::Ctr(nam, args) => call_spec(TermV::Var { nam }, pattern_terms_spec(args)),
        PatternV::Var(nam) => TermV::Var {
            nam: match nam {
                Some(n) => n,
                None => "_"@,
            },
        },
        PatternV::Num(val) => TermV::Num { val },
    }
}

/// Elaborates each pattern of a sequence in order.
pub open spec fn pattern_terms_spec(ps: Seq<PatternV>) -> Seq<TermV>
    decreases ps,
{
    if ps.len() == 0 {
        Seq::empty()
    } else {
        seq![pattern_term_spec(ps[0])] + pattern_terms_spec(ps.drop_first())
    }
}

/// Elaborating one more pattern appends its elaboration.
pub proof fn lemma_pattern_terms_push(ps: Seq<PatternV>, p: PatternV)
    ensures
        pattern_terms_spec(ps.push(p)) == pattern_terms_spec(ps).push(pattern_term_spec(p)),
    decreases ps,
{
    if ps.len() == 0 {
        assert(ps.push(p)[0] == p);
        assert(ps.push(p).drop_first() =~= Seq::<PatternV>::empty());
        assert(pattern_terms_spec(ps.push(p)) == seq![pattern_term_spec(p)]
            + pattern_terms_spec(Seq::<PatternV>::empty()));
        assert(seq![pattern_term_spec(p)] + Seq::<TermV>::empty() =~= Seq::<TermV>::empty().push(
            pattern_term_spec(p),
        ));
    } else {
        assert(ps.push(p)[0] == ps[0]);
        assert(ps.push(p).drop_first() =~= ps.drop_first().push(p));
        lemma_pattern_terms_push(ps.drop_first(), p);
        assert(pattern_terms_spec(ps.push(p)) =~= pattern_terms_spec(ps).push(
            pattern_term_spec(p),
        ));
    }
}

impl Term {
    /// Make a call term by folding args around a called function term with
    /// applications.
    pub fn call(called: Term, args: Vec<Term>) -> (r: Term)
        ensures
            r@ == call_spec(called@, term_views(args@)),
    {
        let ghost f0 = called@;
        let ghost args0 = term_views(args@);
        let mut args = args;
        let mut acc = called;
        while args.len() > 0
            invariant
                call_spec(acc@, term_views(args@)) == call_spec(f0, args0),
            decreases args.len(),
        {
            let ghost prev = args@;
            let arg = args.remove(0);
            let ghost prev_acc = acc@;
            acc = Term::App { fun: Box::new(acc), arg: Box::new(arg) };
            proof {
                assert(term_views(prev)[0] == arg@);
                assert(term_views(args@) =~= term_views(prev).drop_first());
                assert(acc@ == TermV::App {
                    fun: Box::new(prev_acc),
                    arg: Box::new(term_views(prev)[0]),
                });
                assert(call_spec(prev_acc, term_views(prev)) == call_spec(
                    acc@,
                    term_views(prev).drop_first(),
                ));
            }
        }
        proof {
            assert(term_views(args@) =~= Seq::<TermV>::empty());
        }
        acc
    }

    /// A structural copy: the result is equal to `self`.
    pub fn duplicate(&self) -> (r: Term)
        ensures
            r == *self,
        decreases *self,
    {
        match self {
            Term::Lam { nam, bod } => Term::Lam {
                nam: clone_opt_name(nam),
                bod: Box::new(bod.duplicate()),
            },
            Term::Var { nam } => Term::Var { nam: nam.clone() },
            Term::Chn { nam, bod } => Term::Chn {
                nam: nam.clone(),
                bod: Box::new(bod.duplicate()),
            },
            Term::Lnk { nam } => Term::Lnk { nam: nam.clone() },
            Term::Let { nam, val, nxt } => Term::Let {
                nam: nam.clone(),
                val: Box::new(val.duplicate()),
                nxt: Box::new(nxt.duplicate()),
            },
            Term::Ref { def_id } => Term::Ref { def_id: *def_id },
            Term::App { fun, arg } => Term::App {
                fun: Box::new(fun.duplicate()),
                arg: Box::new(arg.duplicate()),
            },
            Term::If { cond, thn, els_ } => Term::If {
                cond: Box::new(cond.duplicate()),
                thn: Box::new(thn.duplicate()),
                els_: Box::new(els_.duplicate()),
            },
            Term::Dup { fst, snd, val, nxt } => Term::Dup {
                fst: clone_opt_name(fst),
                snd: clone_opt_name(snd),
                val: Box::new(val.duplicate()),
                nxt: Box::new(nxt.duplicate()),
            },
            Term::Sup { fst, snd } => Term::Sup {
                fst: Box::new(fst.duplicate()),
                snd: Box::new(snd.duplicate()),
            },
            Term::Era => Term::Era,
            Term::Num { val } => Term::Num { val: *val },
            Term::Opx { op, fst, snd } => Term::Opx {
                op: *op,
                fst: Box::new(fst.duplicate()),
                snd: Box::new(snd.duplicate()),
            },
        }
    }

    /// Elaborates a pattern into the term an evaluator would see if the
    /// pattern's shape were a constructor invocation.
    pub fn from_pattern(p: &Pattern) -> (r: Term)
        ensures
            r@ == pattern_term_spec(p@),
        decreases p@,
    {
        match p {
            Pattern::Ctr(nam, args) => {
                let ghost pargs = pattern_views(args@);
                proof {
                    lemma_pattern_views_index(args@);
                }
                let mut terms: Vec<Term> = Vec::new();
                let mut i: usize = 0;
                while i < args.len()
                    invariant
                        i <= args.len(),
                        p@ == PatternV::Ctr(nam@, pargs),
                        pargs == pattern_views(args@),
                        pargs.len() == args@.len(),
                        forall|j: int| 0 <= j < args@.len() ==> pargs[j] == pattern_view(args@[j]),
                        term_views(terms@) == pattern_terms_spec(pargs.subrange(0, i as int)),
                    decreases args.len() - i,
                {
                    let ghost old_terms = terms@;
                    proof {
                        assert(decreases_to!(p@ => p@->Ctr_1));
                        assert(decreases_to!(pargs => pargs[i as int]));
                    }
                    terms.push(Term::from_pattern(&args[i]));
                    proof {
                        assert(term_views(terms@) =~= term_views(old_terms).push(
                            pattern_term_spec(pargs[i as int]),
                        ));
                        lemma_pattern_terms_push(pargs.subrange(0, i as int), pargs[i as int]);
                        assert(pargs.subrange(0, i as int).push(pargs[i as int]) =~= pargs.subrange(
                            0,
                            i as int + 1,
                        ));
                    }
                    i = i + 1;
                }
                proof {
                    assert(pargs.subrange(0, args@.len() as int) =~= pargs);
                }
                Term::call(Term::Var { nam: nam.clone() }, terms)
            },
            Pattern::Var(nam) => match nam {
                Some(n) => Term::Var { nam: n.clone() },
                None => Term::Var { nam: String::from_str("_") },
            },
            Pattern::Num(val) => Term::Num { val: *val },
        }
    }
}

/// Clones an optional bound name; the copy equals the given value.
pub(crate) fn clone_opt_name(n: &Option<String>) -> (r: Option<String>)
    ensures
        r == *n,
{
    match n {
        Some(s) => Some(s.clone()),
        None => None,
    }
}

} // verus!
