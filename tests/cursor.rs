use eww::ast::{Ast, AstType};
use eww::cursor::AstIterator;
use eww::error::AstError;
use eww::expr::{DynVal, SimplExpr};
use eww::span::Span;

fn sp(start: usize, end: usize) -> Span {
    Span(0, start, end)
}

fn kw(name: &str, at: usize) -> Ast {
    Ast::Keyword(sp(at, at + 1), name.to_string())
}

fn lit(value: &str, at: usize) -> Ast {
    Ast::Literal(sp(at, at + 1), DynVal(value.to_string(), sp(at, at + 1)))
}

fn sym(name: &str, at: usize) -> Ast {
    Ast::Symbol(sp(at, at + 1), name.to_string())
}

#[test]
fn keyword_grouping_leaves_positional_tail() {
    let mut it = AstIterator::new(vec![kw("a", 0), lit("1", 1), kw("b", 2), lit("2", 3), lit("3", 4)]);
    let m = it.expect_key_values::<DynVal>().unwrap();
    assert_eq!(m.len(), 2);
    assert_eq!(m.get(&"a".to_string()), Some(&DynVal("1".to_string(), sp(1, 2))));
    assert_eq!(m.get(&"b".to_string()), Some(&DynVal("2".to_string(), sp(3, 4))));
    assert_eq!(it.next(), Some(lit("3", 4)));
    assert_eq!(it.next(), None);
}

#[test]
fn dangling_keyword_is_left_in_stream() {
    let mut it = AstIterator::new(vec![kw("a", 0)]);
    let m = it.expect_key_values::<DynVal>().unwrap();
    assert_eq!(m.len(), 0);
    assert_eq!(it.next(), Some(kw("a", 0)));
}

#[test]
fn key_values_twice_finds_nothing_more() {
    let mut it = AstIterator::new(vec![kw("a", 0), lit("1", 1), sym("x", 2)]);
    let first = it.expect_key_values::<Ast>().unwrap();
    assert_eq!(first.len(), 1);
    let second = it.expect_key_values::<Ast>().unwrap();
    assert_eq!(second.len(), 0);
    assert_eq!(it.next(), Some(sym("x", 2)));
}

#[test]
fn key_values_later_pair_wins() {
    let mut it = AstIterator::new(vec![kw("a", 0), lit("1", 1), kw("a", 2), lit("2", 3)]);
    let m = it.expect_key_values::<DynVal>().unwrap();
    assert_eq!(m.len(), 1);
    assert_eq!(m.get(&"a".to_string()), Some(&DynVal("2".to_string(), sp(3, 4))));
}

#[test]
fn key_values_conversion_error() {
    let mut it = AstIterator::new(vec![kw("a", 0), sym("x", 1)]);
    let r = it.expect_key_values::<DynVal>();
    assert_eq!(r.err(), Some(AstError::WrongExprType(Some(sp(1, 2)), AstType::Literal, AstType::Symbol)));
}

#[test]
fn key_values_as_expressions() {
    let mut it = AstIterator::new(vec![kw("a", 0), lit("1", 1)]);
    let m = it.expect_key_values::<SimplExpr>().unwrap();
    assert_eq!(m.get(&"a".to_string()), Some(&SimplExpr::Literal(DynVal("1".to_string(), sp(1, 2)))));
}

#[test]
fn expect_symbol_mismatch_keeps_node() {
    let mut it = AstIterator::new(vec![lit("1", 0), sym("x", 1)]);
    assert_eq!(
        it.expect_symbol(),
        Err(AstError::WrongExprType(Some(sp(0, 1)), AstType::Symbol, AstType::Literal))
    );
    assert_eq!(it.expect_literal(), Ok((sp(0, 1), DynVal("1".to_string(), sp(0, 1)))));
    assert_eq!(it.expect_symbol(), Ok((sp(1, 2), "x".to_string())));
    assert_eq!(it.expect_symbol(), Err(AstError::MissingNode(None)));
}

#[test]
fn expect_list_and_array() {
    let list = Ast::List(sp(0, 5), vec![sym("a", 1)]);
    let array = Ast::Array(sp(6, 9), vec![lit("1", 7)]);
    let mut it = AstIterator::new(vec![list, array]);
    assert_eq!(
        it.expect_array(),
        Err(AstError::WrongExprType(Some(sp(0, 5)), AstType::Array, AstType::List))
    );
    assert_eq!(it.expect_list(), Ok((sp(0, 5), vec![sym("a", 1)])));
    assert_eq!(
        it.expect_list(),
        Err(AstError::WrongExprType(Some(sp(6, 9)), AstType::List, AstType::Array))
    );
    assert_eq!(it.expect_array(), Ok((sp(6, 9), vec![lit("1", 7)])));
    assert_eq!(it.expect_array(), Err(AstError::MissingNode(None)));
}

#[test]
fn expect_any_consumes_and_converts() {
    let mut it = AstIterator::new(vec![sym("x", 0), lit("1", 1)]);
    assert_eq!(
        it.expect_any::<SimplExpr>(),
        Err(AstError::WrongExprType(Some(sp(0, 1)), AstType::IntoPrimitive, AstType::Symbol))
    );
    assert_eq!(it.expect_any::<DynVal>(), Ok(DynVal("1".to_string(), sp(1, 2))));
    assert_eq!(it.expect_any::<Ast>(), Err(AstError::MissingNode(None)));
}

#[test]
fn comment_is_a_mismatch_for_every_expectation() {
    let mut it = AstIterator::new(vec![Ast::Comment(sp(0, 3))]);
    assert_eq!(
        it.expect_literal(),
        Err(AstError::WrongExprType(Some(sp(0, 3)), AstType::Literal, AstType::Comment))
    );
    assert_eq!(it.next(), Some(Ast::Comment(sp(0, 3))));
}
