//! The renderer: deterministic, parser-compatible textual serialization of
//! terms, operators and patterns. Rendering never mutates state; a dangling
//! definition reference is excluded by precondition, since it can only arise
//! from a prior invariant violation.

use crate::registry::DefNames;
use crate::term::{call_spec, lemma_pattern_views_index, opt_name_view, pattern_view, pattern_views, Op, Pattern, PatternV, Term, TermV};
use vstd::prelude::*;
use vstd::string::StringExecFns;

verus! {

/// The decimal digit character for one digit value.
pub open spec fn dec_digit(d: nat) -> char {
    if d == 0 {
        '0'
    } else if d == 1 {
        '1'
    } else if d == 2 {
        '2'
    } else if d == 3 {
        '3'
    } else if d == 4 {
        '4'
    } else if d == 5 {
        '5'
    } else if d == 6 {
        '6'
    } else if d == 7 {
        '7'
    } else if d == 8 {
        '8'
    } else {
        '9'
    }
}

/// The decimal representation of a number, most significant digit first.
pub open spec fn dec_rep(n: nat) -> Seq<char>
    decreases n,
{
    if n < 10 {
        seq![dec_digit(n)]
    } else {
        dec_rep(n / 10).push(dec_digit(n % 10))
    }
}

/// The rendering symbol of an operator tag.
pub open spec fn op_str(op: Op) -> Seq<char> {
    match op {
        Op::ADD => "+"@,
        Op::SUB => "-"@,
        Op::MUL => "*"@,
        Op::DIV => "/"@,
        Op::MOD => "%"@,
        Op::EQ => "=="@,
        Op::NE => "!="@,
        Op::LT => "<"@,
        Op::GT => ">"@,
        Op::AND => "&"@,
        Op::OR => "|"@,
        Op::XOR => "^"@,
        Op::NOT => "~"@,
        Op::LSH => "<<"@,
        Op::RSH => ">>"@,
    }
}

/// An optional bound name renders as the name, or as the wildcard `*`.
pub open spec fn render_opt_name(n: Option<Seq<char>>) -> Seq<char> {
    match n {
        Some(s) => s,
        None => "*"@,
    }
}

/// Whether every definition reference inside the term is registered.
pub open spec fn refs_registered(t: TermV, names: Map<u64, Seq<char>>) -> bool
    decreases t,
{
    match t {
        TermV::Lam { nam, bod } => refs_registered(*bod, names),
        TermV::Var { nam } => true,
        TermV::Chn { nam, bod } => refs_registered(*bod, names),
        TermV::Lnk { nam } => true,
        TermV::Let { nam, val, nxt } => refs_registered(*val, names) && refs_registered(
            *nxt,
            names,
        ),
        TermV::Ref { def_id } => names.contains_key(def_id),
        TermV::App { fun, arg } => refs_registered(*fun, names) && refs_registered(*arg, names),
        TermV::If { cond, thn, els_ } => refs_registered(*cond, names) && refs_registered(
            *thn,
            names,
        ) && refs_registered(*els_, names),
        TermV::Dup { fst, snd, val, nxt } => refs_registered(*val, names) && refs_registered(
            *nxt,
            names,
        ),
        TermV::Sup { fst, snd } => refs_registered(*fst, names) && refs_registered(*snd, names),
        TermV::Era => true,
        TermV::Num { val } => true,
        TermV::Opx { op, fst, snd } => refs_registered(*fst, names) && refs_registered(
            *snd,
            names,
        ),
    }
}

/// The canonical text of a term, given the registered names.
pub open spec fn render_term(t: TermV, names: Map<u64, Seq<char>>) -> Seq<char>
    decreases t,
{
    match t {
        TermV::Lam { nam, bod } => "λ"@ + render_opt_name(nam) + " "@ + render_term(*bod, names),
        TermV::Var { nam } => nam,
        TermV::Chn { nam, bod } => "λ$"@ + nam + " "@ + render_term(*bod, names),
        TermV::Lnk { nam } => "$"@ + nam,
        TermV::Let { nam, val, nxt } => "let "@ + nam + " = "@ + render_term(*val, names) + "; "@
            + render_term(*nxt, names),
        TermV::Ref { def_id } => names[def_id],
        TermV::App { fun, arg } => "("@ + render_term(*fun, names) + " "@ + render_term(
            *arg,
            names,
        ) + ")"@,
        TermV::If { cond, thn, els_ } => "if "@ + render_term(*cond, names) + " then "@
            + render_term(*thn, names) + " else "@ + render_term(*els_, names),
        TermV::Dup { fst, snd, val, nxt } => "dup "@ + render_opt_name(fst) + " "@
            + render_opt_name(snd) + " = "@ + render_term(*val, names) + "; "@ + render_term(
            *nxt,
            names,
        ),
        TermV::Sup { fst, snd } => "{"@ + render_term(*fst, names) + " "@ + render_term(
            *snd,
            names,
        ) + "}"@,
        TermV::Era => "*"@,
        TermV::Num { val } => dec_rep(val as nat),
        TermV::Opx { op, fst, snd } => "("@ + op_str(op) + " "@ + render_term(*fst, names) + " "@
            + render_term(*snd, names) + ")"@,
    }
}

/// The canonical text of a pattern.
pub open spec fn render_pattern(p: PatternV) -> Seq<char>
    decreases p,
{
    match p {
        PatternV::Ctr(nam, args) => "("@ + nam + render_patterns(args) + ")"@,
        PatternV::Var(nam) => render_opt_name(nam),
        PatternV::Num(val) => dec_rep(val as nat),
    }
}

/// The texts of a sequence of patterns, each preceded by one space.
pub open spec fn render_patterns(ps: Seq<PatternV>) -> Seq<char>
    decreases ps,
{
    if ps.len() == 0 {
        Seq::empty()
    } else {
        " "@ + render_pattern(ps[0]) + render_patterns(ps.drop_first())
    }
}

/// Rendering one more pattern appends a space and its text.
pub proof fn lemma_render_patterns_push(ps: Seq<PatternV>, p: PatternV)
    ensures
        render_patterns(ps.push(p)) == render_patterns(ps) + " "@ + render_pattern(p),
    decreases ps,
{
    if ps.len() == 0 {
        assert(ps.push(p)[0] == p);
        assert(ps.push(p).drop_first() =~= Seq::<PatternV>::empty());
        assert(render_patterns(ps.push(p)) == " "@ + render_pattern(p) + render_patterns(
            Seq::<PatternV>::empty(),
        ));
        assert(render_patterns(ps.push(p)) =~= render_patterns(ps) + " "@ + render_pattern(p));
    } else {
        assert(ps.push(p)[0] == ps[0]);
        assert(ps.push(p).drop_first() =~= ps.drop_first().push(p));
        lemma_render_patterns_push(ps.drop_first(), p);
        assert(render_patterns(ps.push(p)) =~= render_patterns(ps) + " "@ + render_pattern(p));
    }
}

/// Renders one decimal digit.
fn digit_str(d: u32) -> (r: &'static str)
    requires
        d < 10,
    ensures
        r@ == seq![dec_digit(d as nat)],
{
    let r: &'static str = match d {
        0 => "0",
        1 => "1",
        2 => "2",
        3 => "3",
        4 => "4",
        5 => "5",
        6 => "6",
        7 => "7",
        8 => "8",
        _ => "9",
    };
    proof {
        reveal_strlit("0");
        reveal_strlit("1");
        reveal_strlit("2");
        reveal_strlit("3");
        reveal_strlit("4");
        reveal_strlit("5");
        reveal_strlit("6");
        reveal_strlit("7");
        reveal_strlit("8");
        reveal_strlit("9");
        assert(r@ =~= seq![dec_digit(d as nat)]);
    }
    r
}

/// Appends the decimal representation of `n`.
fn push_decimal(s: &mut String, n: u32)
    ensures
        final(s)@ == old(s)@ + dec_rep(n as nat),
    decreases n,
{
    if n >= 10 {
        push_decimal(s, n / 10);
        s.append(digit_str(n % 10));
        proof {
            assert((n / 10) as nat == (n as nat) / 10);
            assert((n % 10) as nat == (n as nat) % 10);
            assert(old(s)@ + dec_rep((n as nat) / 10) + seq![dec_digit((n as nat) % 10)] =~= old(
                s,
            )@ + dec_rep(n as nat));
        }
    } else {
        s.append(digit_str(n));
        proof {
            assert(old(s)@ + seq![dec_digit(n as nat)] =~= old(s)@ + dec_rep(n as nat));
        }
    }
}

/// Renders an optional bound name, with `*` for the wildcard.
fn opt_name_str(n: &Option<String>) -> (r: String)
    ensures
        r@ == render_opt_name(opt_name_view(*n)),
{
    match n {
        Some(s) => s.clone(),
        None => String::from_str("*"),
    }
}

impl Op {
    /// The operator's rendering symbol.
    pub fn to_string(&self) -> (r: String)
        ensures
            r@ == op_str(*self),
    {
        let s: &str = match self {
            Op::ADD => "+",
            Op::SUB => "-",
            Op::MUL => "*",
            Op::DIV => "/",
            Op::MOD => "%",
            Op::EQ => "==",
            Op::NE => "!=",
            Op::LT => "<",
            Op::GT => ">",
            Op::AND => "&",
            Op::OR => "|",
            Op::XOR => "^",
            Op::NOT => "~",
            Op::LSH => "<<",
            Op::RSH => ">>",
        };
        String::from_str(s)
    }
}

impl Term {
    /// The canonical text of this term, resolving references through the
    /// registry. Every reference must be registered; rendering a dangling
    /// reference would signal a prior invariant violation.
    pub fn to_string(&self, def_names: &DefNames) -> (r: String)
        requires
            refs_registered(self@, def_names@),
        ensures
            r@ == render_term(self@, def_names@),
        decreases *self,
    {
        match self {
            Term::Lam { nam, bod } => {
                let mut s = String::from_str("λ");
                let n = opt_name_str(nam);
                s.append(n.as_str());
                s.append(" ");
                let b = bod.to_string(def_names);
                s.append(b.as_str());
                s
            },
            Term::Var { nam } => nam.clone(),
            Term::Chn { nam, bod } => {
                let mut s = String::from_str("λ$");
                s.append(nam.as_str());
                s.append(" ");
                let b = bod.to_string(def_names);
                s.append(b.as_str());
                s
            },
            Term::Lnk { nam } => {
                let mut s = String::from_str("$");
                s.append(nam.as_str());
                s
            },
            Term::Let { nam, val, nxt } => {
                let mut s = String::from_str("let ");
                s.append(nam.as_str());
                s.append(" = ");
                let v = val.to_string(def_names);
                s.append(v.as_str());
                s.append("; ");
                let nx = nxt.to_string(def_names);
                s.append(nx.as_str());
                s
            },
            Term::Ref { def_id } => def_names.name(*def_id).unwrap(),
            Term::App { fun, arg } => {
                let mut s = String::from_str("(");
                let f = fun.to_string(def_names);
                s.append(f.as_str());
                s.append(" ");
                let a = arg.to_string(def_names);
                s.append(a.as_str());
                s.append(")");
                s
            },
            Term::If { cond, thn, els_ } => {
                let mut s = String::from_str("if ");
                let c = cond.to_string(def_names);
                s.append(c.as_str());
                s.append(" then ");
                let t = thn.to_string(def_names);
                s.append(t.as_str());
                s.append(" else ");
                let e = els_.to_string(def_names);
                s.append(e.as_str());
                s
            },
            Term::Dup { fst, snd, val, nxt } => {
                let mut s = String::from_str("dup ");
                let f = opt_name_str(fst);
                s.append(f.as_str());
                s.append(" ");
                let sn = opt_name_str(snd);
                s.append(sn.as_str());
                s.append(" = ");
                let v = val.to_string(def_names);
                s.append(v.as_str());
                s.append("; ");
                let nx = nxt.to_string(def_names);
                s.append(nx.as_str());
                s
            },
            Term::Sup { fst, snd } => {
                let mut s = String::from_str("{");
                let f = fst.to_string(def_names);
                s.append(f.as_str());
                s.append(" ");
                let sn = snd.to_string(def_names);
                s.append(sn.as_str());
                s.append("}");
                s
            },
            Term::Era => String::from_str("*"),
            Term::Num { val } => {
                let mut s = String::new();
                push_decimal(&mut s, *val);
                s
            },
            Term::Opx { op, fst, snd } => {
                let mut s = String::from_str("(");
                let o = op.to_string();
                s.append(o.as_str());
                s.append(" ");
                let f = fst.to_string(def_names);
                s.append(f.as_str());
                s.append(" ");
                let sn = snd.to_string(def_names);
                s.append(sn.as_str());
                s.append(")");
                s
            },
        }
    }
}

impl Pattern {
    /// The canonical text of this pattern.
    pub fn to_string(&self) -> (r: String)
        ensures
            r@ == render_pattern(self@),
        decreases self@,
    {
        match self {
            Pattern::Ctr(nam, args) => {
                let ghost pargs = pattern_views(args@);
                proof {
                    lemma_pattern_views_index(args@);
                }
                let mut s = String::from_str("(");
                s.append(nam.as_str());
                let mut i: usize = 0;
                while i < args.len()
                    invariant
                        i <= args.len(),
                        self@ == PatternV::Ctr(nam@, pargs),
                        pargs == pattern_views(args@),
                        pargs.len() == args@.len(),
                        forall|j: int|
                            0 <= j < args@.len() ==> pargs[j] == pattern_view(args@[j]),
                        s@ == "("@ + nam@ + render_patterns(pargs.subrange(0, i as int)),
                    decreases args.len() - i,
                {
                    proof {
                        assert(decreases_to!(self@ => self@->Ctr_1));
                        assert(decreases_to!(pargs => pargs[i as int]));
                    }
                    s.append(" ");
                    let a = args[i].to_string();
                    s.append(a.as_str());
                    proof {
                        lemma_render_patterns_push(pargs.subrange(0, i as int), pargs[i as int]);
                        assert(pargs.subrange(0, i as int).push(pargs[i as int]) =~= pargs.subrange(
                            0,
                            i as int + 1,
                        ));
                        assert(s@ =~= "("@ + nam@ + render_patterns(pargs.subrange(0, i as int + 1)));
                    }
                    i = i + 1;
                }
                s.append(")");
                proof {
                    assert(pargs.subrange(0, args@.len() as int) =~= pargs);
                }
                s
            },
            Pattern::Var(nam) => opt_name_str(nam),
            Pattern::Num(val) => {
                let mut s = String::new();
                push_decimal(&mut s, *val);
                s
            },
        }
    }
}

/// A call of two arguments renders as `((f a) b)`.
pub proof fn lemma_render_call_two(f: TermV, a: TermV, b: TermV, names: Map<u64, Seq<char>>)
    ensures
        render_term(call_spec(f, seq![a, b]), names) == "(("@ + render_term(f, names) + " "@
            + render_term(a, names) + ") "@ + render_term(b, names) + ")"@,
{
    let fa = TermV::App { fun: Box::new(f), arg: Box::new(a) };
    let fab = TermV::App { fun: Box::new(fa), arg: Box::new(b) };
    assert(seq![a, b][0] == a);
    assert(seq![a, b].drop_first() =~= seq![b]);
    assert(call_spec(f, seq![a, b]) == call_spec(fa, seq![b]));
    assert(seq![b][0] == b);
    assert(seq![b].drop_first() =~= Seq::<TermV>::empty());
    assert(call_spec(fa, seq![b]) == call_spec(fab, Seq::<TermV>::empty()));
    assert(call_spec(fab, Seq::<TermV>::empty()) == fab);
    reveal_strlit("(");
    reveal_strlit("((");
    reveal_strlit(")");
    reveal_strlit(") ");
    reveal_strlit(" ");
    assert(render_term(fab, names) == "("@ + render_term(fa, names) + " "@ + render_term(b, names)
        + ")"@);
    assert(render_term(fa, names) == "("@ + render_term(f, names) + " "@ + render_term(a, names)
        + ")"@);
    assert(render_term(fab, names) =~= "(("@ + render_term(f, names) + " "@ + render_term(
        a,
        names,
    ) + ") "@ + render_term(b, names) + ")"@);
}

} // verus!
