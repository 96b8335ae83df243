use hvm_lang::{DefNames, Definition, DefinitionBook, Op, Pattern, Rule, Term};

fn var(n: &str) -> Term {
    Term::Var { nam: n.to_string() }
}

#[test]
fn call_with_no_args_is_the_function() {
    let names = DefNames::new();
    let t = Term::call(var("f"), vec![]);
    assert_eq!(t.to_string(&names), "f");
}

#[test]
fn call_with_two_args_renders_left_associated() {
    let names = DefNames::new();
    let t = Term::call(var("f"), vec![var("a"), var("b")]);
    assert_eq!(t.to_string(&names), "((f a) b)");
}

#[test]
fn subst_lambda_same_name_is_shadowed() {
    let names = DefNames::new();
    let mut t = Term::Lam { nam: Some("x".to_string()), bod: Box::new(var("x")) };
    t.subst(&"x".to_string(), &Term::Num { val: 5 });
    assert_eq!(t.to_string(&names), "λx x");
}

#[test]
fn subst_lambda_other_name_reaches_body() {
    let names = DefNames::new();
    let mut t = Term::Lam { nam: Some("y".to_string()), bod: Box::new(var("x")) };
    t.subst(&"x".to_string(), &Term::Num { val: 5 });
    assert_eq!(t.to_string(&names), "λy 5");
}

#[test]
fn subst_channel_same_name_is_not_shadowed() {
    let names = DefNames::new();
    let mut t = Term::Chn { nam: "x".to_string(), bod: Box::new(var("x")) };
    t.subst(&"x".to_string(), &Term::Num { val: 5 });
    assert_eq!(t.to_string(&names), "λ$x 5");
}

#[test]
fn subst_skips_links() {
    let names = DefNames::new();
    let mut t = Term::Lnk { nam: "x".to_string() };
    t.subst(&"x".to_string(), &Term::Num { val: 5 });
    assert_eq!(t.to_string(&names), "$x");
}

#[test]
fn subst_dup_shadows_continuation_but_not_value() {
    let names = DefNames::new();
    let mut t = Term::Dup {
        fst: Some("x".to_string()),
        snd: Some("y".to_string()),
        val: Box::new(var("x")),
        nxt: Box::new(var("x")),
    };
    t.subst(&"x".to_string(), &Term::Num { val: 5 });
    assert_eq!(t.to_string(&names), "dup x y = 5; x");
}

#[test]
fn subst_dup_without_shadowing_reaches_continuation() {
    let names = DefNames::new();
    let mut t = Term::Dup {
        fst: Some("a".to_string()),
        snd: Some("b".to_string()),
        val: Box::new(var("x")),
        nxt: Box::new(var("x")),
    };
    t.subst(&"x".to_string(), &Term::Num { val: 5 });
    assert_eq!(t.to_string(&names), "dup a b = 5; 5");
}

#[test]
fn subst_let_shadows_continuation() {
    let names = DefNames::new();
    let mut t = Term::Let {
        nam: "x".to_string(),
        val: Box::new(var("x")),
        nxt: Box::new(var("x")),
    };
    t.subst(&"x".to_string(), &Term::Num { val: 5 });
    assert_eq!(t.to_string(&names), "let x = 5; x");
}

#[test]
fn pattern_elaboration_builds_application_chain() {
    let names = DefNames::new();
    let p = Pattern::Ctr(
        "Cons".to_string(),
        vec![Pattern::Var(Some("h".to_string())), Pattern::Var(Some("t".to_string()))],
    );
    let t = Term::from_pattern(&p);
    assert_eq!(t.to_string(&names), "((Cons h) t)");
}

#[test]
fn pattern_elaboration_wildcard_and_numeral() {
    let names = DefNames::new();
    assert_eq!(Term::from_pattern(&Pattern::Var(None)).to_string(&names), "_");
    assert_eq!(Term::from_pattern(&Pattern::Num(7)).to_string(&names), "7");
}

#[test]
fn render_lambda_wildcard_and_erasure() {
    let names = DefNames::new();
    let t = Term::Lam { nam: None, bod: Box::new(Term::Era) };
    assert_eq!(t.to_string(&names), "λ* *");
}

#[test]
fn render_let_and_conditional() {
    let names = DefNames::new();
    let t = Term::Let {
        nam: "x".to_string(),
        val: Box::new(Term::Num { val: 1 }),
        nxt: Box::new(Term::If {
            cond: Box::new(var("x")),
            thn: Box::new(Term::Num { val: 2 }),
            els_: Box::new(Term::Num { val: 3 }),
        }),
    };
    assert_eq!(t.to_string(&names), "let x = 1; if x then 2 else 3");
}

#[test]
fn render_superposition_and_duplication() {
    let names = DefNames::new();
    let t = Term::Dup {
        fst: None,
        snd: None,
        val: Box::new(Term::Sup { fst: Box::new(var("a")), snd: Box::new(var("b")) }),
        nxt: Box::new(Term::Era),
    };
    assert_eq!(t.to_string(&names), "dup * * = {a b}; *");
}

#[test]
fn render_reference_uses_registered_name() {
    let mut names = DefNames::new();
    let id = names.insert("main".to_string());
    let t = Term::App { fun: Box::new(Term::Ref { def_id: id }), arg: Box::new(var("x")) };
    assert_eq!(t.to_string(&names), "(main x)");
}

#[test]
fn render_numerals() {
    let names = DefNames::new();
    assert_eq!(Term::Num { val: 0 }.to_string(&names), "0");
    assert_eq!(Term::Num { val: 42 }.to_string(&names), "42");
    assert_eq!(Term::Num { val: 1000000 }.to_string(&names), "1000000");
    assert_eq!(Term::Num { val: u32::MAX }.to_string(&names), "4294967295");
}

#[test]
fn render_operator_symbols() {
    let symbols = [
        (Op::ADD, "+"),
        (Op::SUB, "-"),
        (Op::MUL, "*"),
        (Op::DIV, "/"),
        (Op::MOD, "%"),
        (Op::EQ, "=="),
        (Op::NE, "!="),
        (Op::LT, "<"),
        (Op::GT, ">"),
        (Op::AND, "&"),
        (Op::OR, "|"),
        (Op::XOR, "^"),
        (Op::NOT, "~"),
        (Op::LSH, "<<"),
        (Op::RSH, ">>"),
    ];
    for (op, expected) in symbols {
        assert_eq!(op.to_string(), *expected);
    }
}

#[test]
fn render_numeric_operation() {
    let names = DefNames::new();
    let t = Term::Opx {
        op: Op::ADD,
        fst: Box::new(Term::Num { val: 1 }),
        snd: Box::new(Term::Num { val: 2 }),
    };
    assert_eq!(t.to_string(&names), "(+ 1 2)");
}

#[test]
fn render_patterns() {
    let p = Pattern::Ctr(
        "Cons".to_string(),
        vec![Pattern::Var(Some("h".to_string())), Pattern::Var(None), Pattern::Num(3)],
    );
    assert_eq!(p.to_string(), "(Cons h * 3)");
    assert_eq!(Pattern::Var(None).to_string(), "*");
    assert_eq!(Pattern::Num(12).to_string(), "12");
}

#[test]
fn rule_arity_counts_patterns() {
    let r = Rule {
        def_id: 0,
        pats: vec![Pattern::Var(None), Pattern::Num(1)],
        body: Term::Era,
    };
    assert_eq!(r.arity(), 2);
    let d = Definition { def_id: 0, rules: vec![r] };
    assert_eq!(d.arity(), 2);
}

#[test]
fn book_renders_main_definition() {
    let mut book = DefinitionBook::new();
    let id = book.def_names.insert("main".to_string());
    assert_eq!(id, 0);
    book.defs.push(Definition {
        def_id: id,
        rules: vec![Rule { def_id: id, pats: vec![], body: Term::Num { val: 42 } }],
    });
    assert_eq!(book.to_string(), "(main) = 42");
}

#[test]
fn book_joins_rules_and_definitions() {
    let mut book = DefinitionBook::new();
    let id_f = book.def_names.insert("id".to_string());
    let not_f = book.def_names.insert("not".to_string());
    book.defs.push(Definition {
        def_id: id_f,
        rules: vec![Rule {
            def_id: id_f,
            pats: vec![Pattern::Var(Some("x".to_string()))],
            body: var("x"),
        }],
    });
    book.defs.push(Definition {
        def_id: not_f,
        rules: vec![
            Rule { def_id: not_f, pats: vec![Pattern::Num(0)], body: Term::Num { val: 1 } },
            Rule { def_id: not_f, pats: vec![Pattern::Num(1)], body: Term::Num { val: 0 } },
        ],
    });
    assert_eq!(book.to_string(), "(id x) = x\n\n(not 0) = 1\n(not 1) = 0");
}

#[test]
fn rule_renders_with_patterns() {
    let mut names = DefNames::new();
    let id = names.insert("head".to_string());
    let r = Rule {
        def_id: id,
        pats: vec![Pattern::Ctr(
            "Cons".to_string(),
            vec![Pattern::Var(Some("h".to_string())), Pattern::Var(None)],
        )],
        body: var("h"),
    };
    assert_eq!(r.to_string(&names), "(head (Cons h *)) = h");
}

#[test]
fn duplicate_is_structural_copy() {
    let names = DefNames::new();
    let t = Term::Lam {
        nam: Some("x".to_string()),
        bod: Box::new(Term::Opx {
            op: Op::MUL,
            fst: Box::new(var("x")),
            snd: Box::new(Term::Num { val: 2 }),
        }),
    };
    let c = t.duplicate();
    assert_eq!(c.to_string(&names), t.to_string(&names));
}
