use eww::ast::{Ast, AstType};
use eww::error::AstError;
use eww::expr::{BinOp, DynVal, SimplExpr, UnaryOp, VarName};
use eww::span::Span;

fn sp(start: usize, end: usize) -> Span {
    Span(1, start, end)
}

fn var(name: &str) -> SimplExpr {
    SimplExpr::VarRef(sp(0, 1), VarName(name.to_string()))
}

fn lit(value: &str) -> SimplExpr {
    SimplExpr::Literal(DynVal(value.to_string(), sp(0, 1)))
}

#[test]
fn node_kinds_and_spans() {
    let nodes = vec![
        (Ast::List(sp(0, 1), vec![]), AstType::List),
        (Ast::Array(sp(0, 1), vec![]), AstType::Array),
        (Ast::Keyword(sp(0, 1), "k".to_string()), AstType::Keyword),
        (Ast::Symbol(sp(0, 1), "s".to_string()), AstType::Symbol),
        (Ast::Literal(sp(0, 1), DynVal("l".to_string(), sp(0, 1))), AstType::Literal),
        (Ast::SimplExpr(sp(0, 1), var("v")), AstType::SimplExpr),
        (Ast::Comment(sp(0, 1)), AstType::Comment),
    ];
    for (node, kind) in nodes {
        assert_eq!(node.expr_type(), kind);
        assert_eq!(node.span(), sp(0, 1));
    }
    assert_eq!(AstType::IntoPrimitive.to_string(), "IntoPrimitive");
    assert_eq!(AstType::SimplExpr.to_string(), "SimplExpr");
}

#[test]
fn downcasts() {
    let s = Ast::Symbol(sp(2, 5), "foo".to_string());
    assert_eq!(s.as_symbol_ref(), Ok(&"foo".to_string()));
    assert_eq!(
        s.as_keyword_ref(),
        Err(AstError::WrongExprType(Some(sp(2, 5)), AstType::Keyword, AstType::Symbol))
    );
    assert_eq!(
        s.as_list_ref(),
        Err(AstError::WrongExprType(Some(sp(2, 5)), AstType::List, AstType::Symbol))
    );
    assert_eq!(
        s.as_literal_ref(),
        Err(AstError::WrongExprType(Some(sp(2, 5)), AstType::Literal, AstType::Symbol))
    );
    assert_eq!(s.as_symbol(), Ok("foo".to_string()));
    let k = Ast::Keyword(sp(0, 4), "bar".to_string());
    assert_eq!(k.as_keyword(), Ok("bar".to_string()));
    let l = Ast::List(sp(0, 4), vec![Ast::Comment(sp(1, 2))]);
    assert_eq!(l.as_list(), Ok(vec![Ast::Comment(sp(1, 2))]));
    let v = Ast::Literal(sp(0, 3), DynVal("x".to_string(), sp(0, 3)));
    assert_eq!(v.as_literal(), Ok(DynVal("x".to_string(), sp(0, 3))));
}

#[test]
fn as_simplexpr_lifts_literals_and_expressions_only() {
    let v = Ast::Literal(sp(0, 3), DynVal("x".to_string(), sp(0, 3)));
    assert_eq!(v.as_simplexpr(), Ok(SimplExpr::Literal(DynVal("x".to_string(), sp(0, 3)))));
    let moved = Ast::Literal(sp(0, 1), DynVal("y".to_string(), sp(5, 6)));
    let lifted = moved.as_simplexpr().unwrap();
    assert_eq!(lifted, SimplExpr::Literal(DynVal("y".to_string(), sp(0, 1))));
    assert_eq!(lifted.span(), sp(0, 1));
    let e = Ast::SimplExpr(sp(0, 3), var("a"));
    assert_eq!(e.as_simplexpr(), Ok(var("a")));
    let a = Ast::Array(sp(4, 9), vec![]);
    assert_eq!(
        a.as_simplexpr(),
        Err(AstError::WrongExprType(Some(sp(4, 9)), AstType::IntoPrimitive, AstType::Array))
    );
}

#[test]
fn document_text() {
    let node = Ast::List(
        sp(0, 20),
        vec![
            Ast::Symbol(sp(1, 4), "box".to_string()),
            Ast::Keyword(sp(5, 10), "class".to_string()),
            Ast::Literal(sp(11, 14), DynVal("a".to_string(), sp(11, 14))),
            Ast::SimplExpr(sp(15, 19), var("x")),
        ],
    );
    assert_eq!(node.to_string(), "(box :class \"a\" {x})");
    assert_eq!(Ast::Array(sp(0, 2), vec![]).to_string(), "()");
    assert_eq!(Ast::Comment(sp(0, 2)).to_string(), "");
}

#[test]
fn expression_text() {
    let sum = SimplExpr::BinOp(sp(0, 5), Box::new(var("a")), BinOp::Plus, Box::new(lit("1")));
    assert_eq!(sum.to_string(), "(a + \"1\")");
    let concat = SimplExpr::Concat(sp(0, 9), vec![lit("hi "), var("name"), lit("!")]);
    assert_eq!(concat.to_string(), "\"hi ${name}!\"");
    let call = SimplExpr::FunctionCall(sp(0, 9), "round".to_string(), vec![var("x"), lit("2")]);
    assert_eq!(call.to_string(), "round(x, \"2\")");
    let obj = SimplExpr::JsonObject(sp(0, 9), vec![(lit("k"), var("v")), (lit("j"), lit("w"))]);
    assert_eq!(obj.to_string(), "{\"k\": v, \"j\": \"w\"}");
    let arr = SimplExpr::JsonArray(sp(0, 9), vec![lit("1"), lit("2")]);
    assert_eq!(arr.to_string(), "[\"1\", \"2\"]");
    let cond = SimplExpr::IfElse(sp(0, 9), Box::new(var("c")), Box::new(var("t")), Box::new(var("e")));
    assert_eq!(cond.to_string(), "(c ? t : e)");
    let index = SimplExpr::JsonAccess(sp(0, 9), Box::new(var("j")), Box::new(lit("0")));
    assert_eq!(index.to_string(), "j[\"0\"]");
    let not = SimplExpr::UnaryOp(sp(0, 2), UnaryOp::Not, Box::new(var("b")));
    assert_eq!(not.to_string(), "!b");
    let elvis = SimplExpr::BinOp(sp(0, 5), Box::new(var("a")), BinOp::Elvis, Box::new(var("b")));
    assert_eq!(elvis.to_string(), "(a ?: b)");
}

#[test]
fn operator_tokens() {
    let ops = [
        (BinOp::Plus, "+"),
        (BinOp::Minus, "-"),
        (BinOp::Times, "*"),
        (BinOp::Div, "/"),
        (BinOp::Mod, "%"),
        (BinOp::Equals, "=="),
        (BinOp::NotEquals, "!="),
        (BinOp::And, "&&"),
        (BinOp::Or, "||"),
        (BinOp::GT, ">"),
        (BinOp::LT, "<"),
        (BinOp::Elvis, "?:"),
        (BinOp::RegexMatch, "=~"),
    ];
    for (op, text) in ops {
        assert_eq!(op.to_string(), text);
    }
    assert_eq!(UnaryOp::Not.to_string(), "!");
}

#[test]
fn synthetic_literals_have_dummy_span() {
    let e = SimplExpr::synth_string("x".to_string());
    assert_eq!(e.span(), Span::dummy());
    assert_eq!(Span::dummy(), Span(usize::MAX, usize::MAX, usize::MAX));
    let l = SimplExpr::literal(sp(3, 4), "y".to_string());
    assert_eq!(l.span(), sp(3, 4));
    let d = SimplExpr::synth_literal(DynVal("z".to_string(), sp(5, 6)));
    assert_eq!(d, SimplExpr::Literal(DynVal("z".to_string(), Span::dummy())));
    assert_eq!(d.span(), Span::dummy());
    assert_eq!(var("q").span(), sp(0, 1));
    assert_eq!(DynVal::from_string("w".to_string()).span(), Span::dummy());
}

#[test]
fn span_text() {
    assert_eq!(Span(0, 12, 305).to_string(), "12..305");
    assert_eq!(Span(3, 0, 9).to_string(), "0..9");
    assert_eq!(Span(0, 10, 100).to_string(), "10..100");
}
