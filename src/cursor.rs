use crate::ast::{ast_span, ast_type, mismatch, simplexpr_of, Ast, AstType};
use crate::error::AstError;
use crate::expr::{DynVal, SimplExpr};
use crate::name_map::NameMap;
use crate::span::Span;
use vstd::prelude::*;

verus! {

/// How a value of a semantic type is read from one document node.
pub trait FromAst: Sized {
    /// The outcome of reading `e`.
    spec fn from_ast_spec(e: Ast) -> Result<Self, AstError>;

    fn from_ast(e: Ast) -> (r: Result<Self, AstError>)
        ensures
            r == Self::from_ast_spec(e),
    ;
}

impl FromAst for Ast {
    open spec fn from_ast_spec(e: Ast) -> Result<Ast, AstError> {
        Ok(e)
    }

    fn from_ast(e: Ast) -> (r: Result<Ast, AstError>) {
        Ok(e)
    }
}

impl FromAst for SimplExpr {
    open spec fn from_ast_spec(e: Ast) -> Result<SimplExpr, AstError> {
        simplexpr_of(e)
    }

    fn from_ast(e: Ast) -> (r: Result<SimplExpr, AstError>) {
        e.as_simplexpr()
    }
}

impl FromAst for DynVal {
    open spec fn from_ast_spec(e: Ast) -> Result<DynVal, AstError> {
        match e {
            Ast::Literal(_, x) => Ok(x),
            _ => Err(mismatch(e, AstType::Literal)),
        }
    }

    fn from_ast(e: Ast) -> (r: Result<DynVal, AstError>) {
        e.as_literal()
    }
}

/// `s` in reverse order.
pub open spec fn reversed(s: Seq<Ast>) -> Seq<Ast> {
    Seq::new(s.len(), |i: int| s[s.len() - 1 - i])
}

/// A cursor over document nodes that can hand the node it last gave out back to the
/// front of the stream.
pub struct AstIterator {
    /// A node that was given back; it comes out before `rest`.
    held: Option<Ast>,
    /// The nodes still to come, the next one last.
    rest: Vec<Ast>,
}

impl View for AstIterator {
    type V = Seq<Ast>;

    /// The nodes still to come, in order.
    closed spec fn view(&self) -> Seq<Ast> {
        match self.held {
            Some(a) => seq![a] + reversed(self.rest@),
            None => reversed(self.rest@),
        }
    }
}

/// The outcome of a typed read of the front of `s`: the payload and the nodes that remain,
/// or an error and `s` unchanged.
pub open spec fn typed_read<P>(s: Seq<Ast>, expected: AstType, payload: Option<P>) -> (
    Result<P, AstError>,
    Seq<Ast>,
) {
    if s.len() == 0 {
        (Err(AstError::MissingNode(None)), s)
    } else {
        match payload {
            Some(p) => (Ok(p), s.drop_first()),
            None => (Err(mismatch(s[0], expected)), s),
        }
    }
}

/// The name and value of a symbol node.
pub open spec fn symbol_payload(a: Ast) -> Option<(Span, String)> {
    match a {
        Ast::Symbol(span, x) => Some((span, x)),
        _ => None,
    }
}

/// The span and value of a literal node.
pub open spec fn literal_payload(a: Ast) -> Option<(Span, DynVal)> {
    match a {
        Ast::Literal(span, x) => Some((span, x)),
        _ => None,
    }
}

/// The span and items of a list node.
pub open spec fn list_payload(a: Ast) -> Option<(Span, Vec<Ast>)> {
    match a {
        Ast::List(span, x) => Some((span, x)),
        _ => None,
    }
}

/// The span and items of an array node.
pub open spec fn array_payload(a: Ast) -> Option<(Span, Vec<Ast>)> {
    match a {
        Ast::Array(span, x) => Some((span, x)),
        _ => None,
    }
}

/// The payload of the front of `s` under `f`, if `s` has a front.
pub open spec fn front_payload<P>(s: Seq<Ast>, f: spec_fn(Ast) -> Option<P>) -> Option<P> {
    if s.len() == 0 {
        None
    } else {
        f(s[0])
    }
}

/// A typed read either takes exactly the front node and gives its payload, or leaves the
/// nodes as they were and fails: with a missing-node error when there is no node, else with
/// a type-mismatch error at the front node that names the kind expected and the node's own.
pub proof fn lemma_typed_read_outcome<P>(s: Seq<Ast>, expected: AstType, payload: Option<P>)
    ensures
        typed_read(s, expected, payload).0 is Ok ==> s.len() > 0 && typed_read(s, expected, payload).1
            == s.drop_first(),
        typed_read(s, expected, payload).0 is Err ==> typed_read(s, expected, payload).1 == s,
        s.len() == 0 ==> typed_read(s, expected, payload).0 == Err::<P, AstError>(
            AstError::MissingNode(None),
        ),
        s.len() > 0 && payload is None ==> typed_read(s, expected, payload).0 == Err::<P, AstError>(
            AstError::WrongExprType(Some(ast_span(s[0])), expected, ast_type(s[0])),
        ),
{
}

/// The keyword-value pairs at the front of `s`, read with `T`'s conversion, and the number
/// of nodes they take. Reading stops before a node that is no keyword, before a keyword
/// with nothing after it, and at the end; it fails at the first value that does not convert.
/// A later pair with the same name overrides an earlier one.
pub open spec fn key_values<T: FromAst>(s: Seq<Ast>) -> (Result<Map<Seq<char>, T>, AstError>, nat)
    decreases s.len(),
{
    if s.len() >= 2 {
        match s[0] {
            Ast::Keyword(_, k) => match T::from_ast_spec(s[1]) {
                Err(e) => (Err(e), 2),
                Ok(v) => {
                    let (r, n) = key_values::<T>(s.skip(2));
                    (
                        match r {
                            Ok(m) => Ok(map![k@ => v].union_prefer_right(m)),
                            Err(e) => Err(e),
                        },
                        n + 2,
                    )
                },
            },
            _ => (Ok(Map::empty()), 0),
        }
    } else {
        (Ok(Map::empty()), 0)
    }
}

/// The result of the reading that follows pairs already read into `acc`, taking `c` nodes.
pub open spec fn after_pairs<T>(
    acc: Map<Seq<char>, T>,
    c: nat,
    rest: (Result<Map<Seq<char>, T>, AstError>, nat),
) -> (Result<Map<Seq<char>, T>, AstError>, nat) {
    (
        match rest.0 {
            Ok(m) => Ok(acc.union_prefer_right(m)),
            Err(e) => Err(e),
        },
        c + rest.1,
    )
}

/// Pairs read into a map, as the mapping they stand for.
pub open spec fn map_result<T>(r: Result<NameMap<T>, AstError>) -> Result<
    Map<Seq<char>, T>,
    AstError,
> {
    match r {
        Ok(m) => Ok(m@),
        Err(e) => Err(e),
    }
}

/// The pairs never take more nodes than there are.
pub proof fn lemma_key_values_len<T: FromAst>(s: Seq<Ast>)
    ensures
        key_values::<T>(s).1 <= s.len(),
    decreases s.len(),
{
    if s.len() >= 2 {
        lemma_key_values_len::<T>(s.skip(2));
    }
}

/// Once the pairs at the front of `s` have been read without error, a second reading from
/// where the first stopped finds no pair and takes no node.
pub proof fn lemma_key_values_stop<T: FromAst>(s: Seq<Ast>)
    requires
        key_values::<T>(s).0 is Ok,
    ensures
        key_values::<T>(s.skip(key_values::<T>(s).1 as int)) == (
            Ok::<Map<Seq<char>, T>, AstError>(Map::empty()),
            0nat,
        ),
    decreases s.len(),
{
    lemma_key_values_len::<T>(s);
    let n = key_values::<T>(s).1;
    if n == 0 {
        assert(s.skip(0) =~= s);
    } else {
        let t = s.skip(2);
        lemma_key_values_stop::<T>(t);
        assert(t.skip(key_values::<T>(t).1 as int) =~= s.skip(n as int));
    }
}

impl AstIterator {
    /// Nothing is held back.
    pub closed spec fn unheld(&self) -> bool {
        self.held is None
    }

    /// A cursor over `items`, in order.
    pub fn new(items: Vec<Ast>) -> (r: AstIterator)
        ensures
            r@ == items@,
            r.unheld(),
    {
        let mut items = items;
        let ghost orig = items@;
        let mut rest: Vec<Ast> = Vec::new();
        while items.len() > 0
            invariant
                items@ + reversed(rest@) =~= orig,
            decreases items@.len(),
        {
            let a = items.pop().unwrap();
            rest.push(a);
        }
        assert(reversed(rest@) =~= orig);
        AstIterator { held: None, rest }
    }

    /// Takes the next node.
    pub fn next(&mut self) -> (r: Option<Ast>)
        ensures
            final(self).unheld(),
            old(self)@.len() == 0 ==> r is None && final(self)@ == old(self)@,
            old(self)@.len() > 0 ==> r == Some(old(self)@[0]) && final(self)@
                == old(self)@.drop_first(),
    {
        match self.held.take() {
            Some(a) => {
                assert(seq![a] + reversed(self.rest@) =~= old(self)@);
                assert(reversed(self.rest@) =~= old(self)@.drop_first());
                Some(a)
            },
            None => {
                let r = self.rest.pop();
                proof {
                    if old(self)@.len() > 0 {
                        assert(reversed(self.rest@) =~= old(self)@.drop_first());
                    }
                }
                r
            },
        }
    }

    /// Gives `a` back to the front of the stream.
    fn put_back(&mut self, a: Ast)
        requires
            old(self).unheld(),
        ensures
            final(self)@ == seq![a] + old(self)@,
    {
        self.held = Some(a);
    }

    /// Takes the next node if it is a symbol, giving its span and name.
    pub fn expect_symbol(&mut self) -> (r: Result<(Span, String), AstError>)
        ensures
            (r, final(self)@) == typed_read(
                old(self)@,
                AstType::Symbol,
                front_payload(old(self)@, |a: Ast| symbol_payload(a)),
            ),
    {
        match self.next() {
            Some(Ast::Symbol(span, x)) => Ok((span, x)),
            Some(other) => {
                let span = other.span();
                let actual_type = other.expr_type();
                self.put_back(other);
                Err(AstError::WrongExprType(Some(span), AstType::Symbol, actual_type))
            },
            None => Err(AstError::MissingNode(None)),
        }
    }

    /// Takes the next node if it is a literal, giving its span and value.
    pub fn expect_literal(&mut self) -> (r: Result<(Span, DynVal), AstError>)
        ensures
            (r, final(self)@) == typed_read(
                old(self)@,
                AstType::Literal,
                front_payload(old(self)@, |a: Ast| literal_payload(a)),
            ),
    {
        match self.next() {
            Some(Ast::Literal(span, x)) => Ok((span, x)),
            Some(other) => {
                let span = other.span();
                let actual_type = other.expr_type();
                self.put_back(other);
                Err(AstError::WrongExprType(Some(span), AstType::Literal, actual_type))
            },
            None => Err(AstError::MissingNode(None)),
        }
    }

    /// Takes the next node if it is a list, giving its span and items.
    pub fn expect_list(&mut self) -> (r: Result<(Span, Vec<Ast>), AstError>)
        ensures
            (r, final(self)@) == typed_read(
                old(self)@,
                AstType::List,
                front_payload(old(self)@, |a: Ast| list_payload(a)),
            ),
    {
        match self.next() {
            Some(Ast::List(span, x)) => Ok((span, x)),
            Some(other) => {
                let span = other.span();
                let actual_type = other.expr_type();
                self.put_back(other);
                Err(AstError::WrongExprType(Some(span), AstType::List, actual_type))
            },
            None => Err(AstError::MissingNode(None)),
        }
    }

    /// Takes the next node if it is an array, giving its span and items.
    pub fn expect_array(&mut self) -> (r: Result<(Span, Vec<Ast>), AstError>)
        ensures
            (r, final(self)@) == typed_read(
                old(self)@,
                AstType::Array,
                front_payload(old(self)@, |a: Ast| array_payload(a)),
            ),
    {
        match self.next() {
            Some(Ast::Array(span, x)) => Ok((span, x)),
            Some(other) => {
                let span = other.span();
                let actual_type = other.expr_type();
                self.put_back(other);
                Err(AstError::WrongExprType(Some(span), AstType::Array, actual_type))
            },
            None => Err(AstError::MissingNode(None)),
        }
    }

    /// Takes the next node and reads it with `T`'s conversion.
    pub fn expect_any<T: FromAst>(&mut self) -> (r: Result<T, AstError>)
        ensures
            old(self)@.len() == 0 ==> r == Err::<T, AstError>(AstError::MissingNode(None))
                && final(self)@ == old(self)@,
            old(self)@.len() > 0 ==> r == T::from_ast_spec(old(self)@[0]) && final(self)@
                == old(self)@.drop_first(),
    {
        match self.next() {
            Some(a) => T::from_ast(a),
            None => Err(AstError::MissingNode(None)),
        }
    }

    /// Reads the `:keyword value` pairs at the front of the stream into a map, each value
    /// with `T`'s conversion; see `key_values`. What follows the pairs stays in the stream.
    pub fn expect_key_values<T: FromAst>(&mut self) -> (r: Result<NameMap<T>, AstError>)
        ensures
            map_result(r) == key_values::<T>(old(self)@).0,
            key_values::<T>(old(self)@).1 <= old(self)@.len(),
            final(self)@ == old(self)@.skip(key_values::<T>(old(self)@).1 as int),
            r matches Ok(m) ==> m.wf(),
    {
        let ghost orig = self@;
        let mut data: NameMap<T> = NameMap::new();
        let ghost mut c: nat = 0;
        proof {
            assert(orig.skip(0) =~= orig);
            assert(data@.union_prefer_right(key_values::<T>(orig).0->Ok_0) =~= key_values::<
                T,
            >(orig).0->Ok_0);
        }
        loop
            invariant
                orig == old(self)@,
                data.wf(),
                c <= orig.len(),
                self@ == orig.skip(c as int),
                key_values::<T>(orig) == after_pairs(data@, c, key_values::<T>(self@)),
            decreases self@.len(),
        {
            let ghost s = self@;
            proof {
                lemma_key_values_len::<T>(s);
            }
            match self.next() {
                Some(Ast::Keyword(span, kw)) => match self.next() {
                    Some(value) => {
                        let ghost k = kw@;
                        assert(s[1] == value);
                        match T::from_ast(value) {
                            Ok(v) => {
                                let ghost acc = data@;
                                let ghost rest = key_values::<T>(s.skip(2));
                                data.insert(kw, v);
                                proof {
                                    assert(s.skip(2) =~= self@);
                                    assert(orig.skip(c as int).skip(2) =~= orig.skip(c + 2int));
                                    if rest.0 is Ok {
                                        assert(acc.union_prefer_right(
                                            map![k => v].union_prefer_right(rest.0->Ok_0),
                                        ) =~= data@.union_prefer_right(rest.0->Ok_0));
                                    }
                                    c = c + 2;
                                }
                            },
                            Err(e) => {
                                proof {
                                    assert(key_values::<T>(s).0 == Err::<Map<Seq<char>, T>, AstError>(e));
                                    lemma_key_values_len::<T>(s);
                                    assert(orig.skip(c as int).skip(2) =~= orig.skip(c + 2int));
                                }
                                return Err(e);
                            },
                        }
                    },
                    None => {
                        self.put_back(Ast::Keyword(span, kw));
                        assert(self@ =~= s);
                        assert(key_values::<T>(s).1 == 0);
                        assert(data@.union_prefer_right(Map::empty()) =~= data@);
                        return Ok(data);
                    },
                },
                Some(other) => {
                    assert(!(other is Keyword));
                    self.put_back(other);
                    assert(self@ =~= s);
                    assert(key_values::<T>(s).1 == 0);
                    proof {
                        assert(data@.union_prefer_right(Map::empty()) =~= data@);
                    }
                    return Ok(data);
                },
                None => {
                    proof {
                        assert(data@.union_prefer_right(Map::empty()) =~= data@);
                    }
                    return Ok(data);
                },
            }
        }
    }
}

} // verus!
