use crate::error::AstError;
use crate::expr::{expr_text, DynVal, SimplExpr};
use crate::span::Span;
use vstd::prelude::*;
use vstd::string::StringExecFns;

verus! {

/// The kind of a document node; `IntoPrimitive` names any kind that converts into an
/// expression, and only occurs as the expected kind of an error.
#[derive(Debug, Clone, Copy, PartialEq, Eq, Structural)]
pub enum AstType {
    List,
    Array,
    Keyword,
    Symbol,
    Literal,
    SimplExpr,
    Comment,
    IntoPrimitive,
}

impl AstType {
    /// The name of the kind.
    pub fn to_string(&self) -> (r: &'static str)
        ensures
            r@ == ast_type_name(*self),
    {
        match self {
            AstType::List => "List",
            AstType::Array => "Array",
            AstType::Keyword => "Keyword",
            AstType::Symbol => "Symbol",
            AstType::Literal => "Literal",
            AstType::SimplExpr => "SimplExpr",
            AstType::Comment => "Comment",
            AstType::IntoPrimitive => "IntoPrimitive",
        }
    }
}

pub open spec fn ast_type_name(t: AstType) -> Seq<char> {
    match t {
        AstType::List => "List"@,
        AstType::Array => "Array"@,
        AstType::Keyword => "Keyword"@,
        AstType::Symbol => "Symbol"@,
        AstType::Literal => "Literal"@,
        AstType::SimplExpr => "SimplExpr"@,
        AstType::Comment => "Comment"@,
        AstType::IntoPrimitive => "IntoPrimitive"@,
    }
}

/// A node of the document language, each with its span.
#[derive(Debug, PartialEq, Eq)]
pub enum Ast {
    List(Span, Vec<Ast>),
    Array(Span, Vec<Ast>),
    Keyword(Span, String),
    Symbol(Span, String),
    Literal(Span, DynVal),
    SimplExpr(Span, SimplExpr),
    Comment(Span),
}

/// The kind of a node.
pub open spec fn ast_type(a: Ast) -> AstType {
    match a {
        Ast::List(..) => AstType::List,
        Ast::Array(..) => AstType::Array,
        Ast::Keyword(..) => AstType::Keyword,
        Ast::Symbol(..) => AstType::Symbol,
        Ast::Literal(..) => AstType::Literal,
        Ast::SimplExpr(..) => AstType::SimplExpr,
        Ast::Comment(_) => AstType::Comment,
    }
}

/// The span of a node.
pub open spec fn ast_span(a: Ast) -> Span {
    match a {
        Ast::List(span, _) => span,
        Ast::Array(span, _) => span,
        Ast::Keyword(span, _) => span,
        Ast::Symbol(span, _) => span,
        Ast::Literal(span, _) => span,
        Ast::SimplExpr(span, _) => span,
        Ast::Comment(span) => span,
    }
}

/// The error for a node `a` found where a node of kind `expected` was required.
pub open spec fn mismatch(a: Ast, expected: AstType) -> AstError {
    AstError::WrongExprType(Some(ast_span(a)), expected, ast_type(a))
}

/// A node read as an expression: a literal becomes a literal expression located at the
/// node's span, an embedded expression is itself; any other node is an error.
pub open spec fn simplexpr_of(a: Ast) -> Result<SimplExpr, AstError> {
    match a {
        Ast::Literal(span, x) => Ok(SimplExpr::Literal(DynVal(x.0, span))),
        Ast::SimplExpr(_, x) => Ok(x),
        _ => Err(mismatch(a, AstType::IntoPrimitive)),
    }
}

/// The source-like text of a node.
pub open spec fn ast_text(a: Ast) -> Seq<char>
    decreases a, 0nat,
{
    match a {
        Ast::List(_, x) => "("@ + nodes_text(x@, x@.len()) + ")"@,
        Ast::Array(_, x) => "("@ + nodes_text(x@, x@.len()) + ")"@,
        Ast::Keyword(_, x) => ":"@ + x@,
        Ast::Symbol(_, x) => x@,
        Ast::Literal(_, x) => "\""@ + x.0@ + "\""@,
        Ast::SimplExpr(_, x) => "{"@ + expr_text(x) + "}"@,
        Ast::Comment(_) => Seq::empty(),
    }
}

/// The text of the first `n` nodes of `s`, joined with single spaces.
pub open spec fn nodes_text(s: Seq<Ast>, n: nat) -> Seq<char>
    decreases s, n,
{
    if n == 0 || n > s.len() {
        Seq::empty()
    } else if n == 1 {
        ast_text(s[0])
    } else {
        nodes_text(s, (n - 1) as nat) + " "@ + ast_text(s[n - 1])
    }
}

impl Ast {
    pub fn expr_type(&self) -> (r: AstType)
        ensures
            r == ast_type(*self),
    {
        match self {
            Ast::List(..) => AstType::List,
            Ast::Array(..) => AstType::Array,
            Ast::Keyword(..) => AstType::Keyword,
            Ast::Symbol(..) => AstType::Symbol,
            Ast::Literal(..) => AstType::Literal,
            Ast::SimplExpr(..) => AstType::SimplExpr,
            Ast::Comment(_) => AstType::Comment,
        }
    }

    pub fn span(&self) -> (r: Span)
        ensures
            r == ast_span(*self),
    {
        match self {
            Ast::List(span, _) => *span,
            Ast::Array(span, _) => *span,
            Ast::Keyword(span, _) => *span,
            Ast::Symbol(span, _) => *span,
            Ast::Literal(span, _) => *span,
            Ast::SimplExpr(span, _) => *span,
            Ast::Comment(span) => *span,
        }
    }

    pub fn as_literal(self) -> (r: Result<DynVal, AstError>)
        ensures
            match self {
                Ast::Literal(_, x) => r == Ok::<DynVal, AstError>(x),
                _ => r == Err::<DynVal, AstError>(mismatch(self, AstType::Literal)),
            },
    {
        match self {
            Ast::Literal(_, x) => Ok(x),
            x => Err(AstError::WrongExprType(Some(x.span()), AstType::Literal, x.expr_type())),
        }
    }

    pub fn as_literal_ref(&self) -> (r: Result<&DynVal, AstError>)
        ensures
            match *self {
                Ast::Literal(_, x) => r matches Ok(v) && *v == x,
                _ => r == Err::<&DynVal, AstError>(mismatch(*self, AstType::Literal)),
            },
    {
        match self {
            Ast::Literal(_, x) => Ok(x),
            x => Err(AstError::WrongExprType(Some(x.span()), AstType::Literal, x.expr_type())),
        }
    }

    pub fn as_symbol(self) -> (r: Result<String, AstError>)
        ensures
            match self {
                Ast::Symbol(_, x) => r == Ok::<String, AstError>(x),
                _ => r == Err::<String, AstError>(mismatch(self, AstType::Symbol)),
            },
    {
        match self {
            Ast::Symbol(_, x) => Ok(x),
            x => Err(AstError::WrongExprType(Some(x.span()), AstType::Symbol, x.expr_type())),
        }
    }

    pub fn as_symbol_ref(&self) -> (r: Result<&String, AstError>)
        ensures
            match *self {
                Ast::Symbol(_, x) => r matches Ok(v) && *v == x,
                _ => r == Err::<&String, AstError>(mismatch(*self, AstType::Symbol)),
            },
    {
        match self {
            Ast::Symbol(_, x) => Ok(x),
            x => Err(AstError::WrongExprType(Some(x.span()), AstType::Symbol, x.expr_type())),
        }
    }

    pub fn as_keyword(self) -> (r: Result<String, AstError>)
        ensures
            match self {
                Ast::Keyword(_, x) => r == Ok::<String, AstError>(x),
                _ => r == Err::<String, AstError>(mismatch(self, AstType::Keyword)),
            },
    {
        match self {
            Ast::Keyword(_, x) => Ok(x),
            x => Err(AstError::WrongExprType(Some(x.span()), AstType::Keyword, x.expr_type())),
        }
    }

    pub fn as_keyword_ref(&self) -> (r: Result<&String, AstError>)
        ensures
            match *self {
                Ast::Keyword(_, x) => r matches Ok(v) && *v == x,
                _ => r == Err::<&String, AstError>(mismatch(*self, AstType::Keyword)),
            },
    {
        match self {
            Ast::Keyword(_, x) => Ok(x),
            x => Err(AstError::WrongExprType(Some(x.span()), AstType::Keyword, x.expr_type())),
        }
    }

    pub fn as_list(self) -> (r: Result<Vec<Ast>, AstError>)
        ensures
            match self {
                Ast::List(_, x) => r == Ok::<Vec<Ast>, AstError>(x),
                _ => r == Err::<Vec<Ast>, AstError>(mismatch(self, AstType::List)),
            },
    {
        match self {
            Ast::List(_, x) => Ok(x),
            x => Err(AstError::WrongExprType(Some(x.span()), AstType::List, x.expr_type())),
        }
    }

    pub fn as_list_ref(&self) -> (r: Result<&Vec<Ast>, AstError>)
        ensures
            match *self {
                Ast::List(_, x) => r matches Ok(v) && *v == x,
                _ => r == Err::<&Vec<Ast>, AstError>(mismatch(*self, AstType::List)),
            },
    {
        match self {
            Ast::List(_, x) => Ok(x),
            x => Err(AstError::WrongExprType(Some(x.span()), AstType::List, x.expr_type())),
        }
    }

    /// The node as an expression; see `simplexpr_of`.
    pub fn as_simplexpr(self) -> (r: Result<SimplExpr, AstError>)
        ensures
            r == simplexpr_of(self),
    {
        match self {
            Ast::Literal(span, x) => Ok(SimplExpr::Literal(DynVal(x.0, span))),
            Ast::SimplExpr(_, x) => Ok(x),
            other => Err(
                AstError::WrongExprType(Some(other.span()), AstType::IntoPrimitive, other.expr_type()),
            ),
        }
    }

    /// The source-like text of the node: lists in parentheses with their items separated by
    /// spaces, keywords after a colon, literals in quotes, expressions in braces.
    pub fn to_string(&self) -> (r: String)
        ensures
            r@ == ast_text(*self),
        decreases self, 0nat,
    {
        let mut out = String::new();
        match self {
            Ast::List(_, x) => {
                let t = nodes_string(x);
                out.append("(");
                out.append(t.as_str());
                out.append(")");
            },
            Ast::Array(_, x) => {
                let t = nodes_string(x);
                out.append("(");
                out.append(t.as_str());
                out.append(")");
            },
            Ast::Keyword(_, x) => {
                out.append(":");
                out.append(x.as_str());
            },
            Ast::Symbol(_, x) => {
                out.append(x.as_str());
            },
            Ast::Literal(_, x) => {
                out.append("\"");
                out.append(x.0.as_str());
                out.append("\"");
            },
            Ast::SimplExpr(_, x) => {
                let t = x.to_string();
                out.append("{");
                out.append(t.as_str());
                out.append("}");
            },
            Ast::Comment(_) => {},
        }
        proof {
            assert(out@ =~= ast_text(*self));
        }
        out
    }
}

/// The text of the nodes of `v`, joined with single spaces.
fn nodes_string(v: &Vec<Ast>) -> (r: String)
    ensures
        r@ == nodes_text(v@, v@.len()),
    decreases v, 0nat,
{
    let mut out = String::new();
    let mut i: usize = 0;
    while i < v.len()
        invariant
            i <= v@.len(),
            out@ == nodes_text(v@, i as nat),
        decreases v@.len() - i,
    {
        proof {
            vstd::std_specs::vec::axiom_vec_index_decreases(*v, i as int);
        }
        let t = v[i].to_string();
        if i > 0 {
            out.append(" ");
        }
        out.append(t.as_str());
        i = i + 1;
        proof {
            assert(out@ =~= nodes_text(v@, i as nat));
        }
    }
    out
}

} // verus!
