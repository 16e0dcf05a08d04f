use crate::span::Span;
use vstd::prelude::*;
use vstd::string::StringExecFns;

verus! {

/// A string-backed scalar value together with the span it was read from.
#[derive(Debug, Clone, PartialEq, Eq)]
pub struct DynVal(pub String, pub Span);

impl DynVal {
    /// A value that stems from no source text.
    pub fn from_string(s: String) -> (r: DynVal)
        ensures
            r == DynVal(s, Span::dummy_spec()),
    {
        DynVal(s, Span::dummy())
    }

    pub fn span(&self) -> (r: Span)
        ensures
            r == self.1,
    {
        self.1
    }

    /// A copy of the value, equal to it.
    pub fn duplicate(&self) -> (r: DynVal)
        ensures
            r == *self,
    {
        DynVal(self.0.clone(), self.1)
    }
}

/// The name of a variable of the expression language.
#[derive(Debug, Clone, PartialEq, Eq)]
pub struct VarName(pub String);

/// The binary operators of the expression language.
#[derive(Debug, Clone, Copy, PartialEq, Eq, Structural)]
pub enum BinOp {
    Plus,
    Minus,
    Times,
    Div,
    Mod,
    Equals,
    NotEquals,
    And,
    Or,
    GT,
    LT,
    Elvis,
    RegexMatch,
}

/// The unary operators of the expression language.
#[derive(Debug, Clone, Copy, PartialEq, Eq, Structural)]
pub enum UnaryOp {
    Not,
}

/// The token that stands for a binary operator in source text.
pub open spec fn binop_text(op: BinOp) -> Seq<char> {
    match op {
        BinOp::Plus => "+"@,
        BinOp::Minus => "-"@,
        BinOp::Times => "*"@,
        BinOp::Div => "/"@,
        BinOp::Mod => "%"@,
        BinOp::Equals => "=="@,
        BinOp::NotEquals => "!="@,
        BinOp::And => "&&"@,
        BinOp::Or => "||"@,
        BinOp::GT => ">"@,
        BinOp::LT => "<"@,
        BinOp::Elvis => "?:"@,
        BinOp::RegexMatch => "=~"@,
    }
}

/// The token that stands for a unary operator in source text.
pub open spec fn unop_text(op: UnaryOp) -> Seq<char> {
    match op {
        UnaryOp::Not => "!"@,
    }
}

impl BinOp {
    pub fn to_string(&self) -> (r: &'static str)
        ensures
            r@ == binop_text(*self),
    {
        match self {
            BinOp::Plus => "+",
            BinOp::Minus => "-",
            BinOp::Times => "*",
            BinOp::Div => "/",
            BinOp::Mod => "%",
            BinOp::Equals => "==",
            BinOp::NotEquals => "!=",
            BinOp::And => "&&",
            BinOp::Or => "||",
            BinOp::GT => ">",
            BinOp::LT => "<",
            BinOp::Elvis => "?:",
            BinOp::RegexMatch => "=~",
        }
    }
}

impl UnaryOp {
    pub fn to_string(&self) -> (r: &'static str)
        ensures
            r@ == unop_text(*self),
    {
        match self {
            UnaryOp::Not => "!",
        }
    }
}

/// A tree of the embedded expression language.
#[derive(Debug, PartialEq, Eq)]
pub enum SimplExpr {
    Literal(DynVal),
    JsonArray(Span, Vec<SimplExpr>),
    JsonObject(Span, Vec<(SimplExpr, SimplExpr)>),
    Concat(Span, Vec<SimplExpr>),
    VarRef(Span, VarName),
    BinOp(Span, Box<SimplExpr>, BinOp, Box<SimplExpr>),
    UnaryOp(Span, UnaryOp, Box<SimplExpr>),
    IfElse(Span, Box<SimplExpr>, Box<SimplExpr>, Box<SimplExpr>),
    JsonAccess(Span, Box<SimplExpr>, Box<SimplExpr>),
    FunctionCall(Span, String, Vec<SimplExpr>),
}

/// The span of an expression: a literal's is that of its value.
pub open spec fn expr_span(e: SimplExpr) -> Span {
    match e {
        SimplExpr::Literal(x) => x.1,
        SimplExpr::JsonArray(span, _) => span,
        SimplExpr::JsonObject(span, _) => span,
        SimplExpr::Concat(span, _) => span,
        SimplExpr::VarRef(span, _) => span,
        SimplExpr::BinOp(span, ..) => span,
        SimplExpr::UnaryOp(span, ..) => span,
        SimplExpr::IfElse(span, ..) => span,
        SimplExpr::JsonAccess(span, ..) => span,
        SimplExpr::FunctionCall(span, ..) => span,
    }
}

/// `text` between double quotes.
pub open spec fn quoted(text: Seq<char>) -> Seq<char> {
    "\""@ + text + "\""@
}

/// The source text of an expression.
pub open spec fn expr_text(e: SimplExpr) -> Seq<char>
    decreases e, 0nat,
{
    match e {
        SimplExpr::Literal(x) => quoted(x.0@),
        SimplExpr::Concat(_, elems) => quoted(parts_text(elems@, elems@.len())),
        SimplExpr::VarRef(_, x) => x.0@,
        SimplExpr::BinOp(_, l, op, r) => "("@ + expr_text(*l) + " "@ + binop_text(op) + " "@
            + expr_text(*r) + ")"@,
        SimplExpr::UnaryOp(_, op, x) => unop_text(op) + expr_text(*x),
        SimplExpr::IfElse(_, a, b, c) => "("@ + expr_text(*a) + " ? "@ + expr_text(*b) + " : "@
            + expr_text(*c) + ")"@,
        SimplExpr::JsonAccess(_, value, index) => expr_text(*value) + "["@ + expr_text(*index)
            + "]"@,
        SimplExpr::FunctionCall(_, name, args) => name@ + "("@ + list_text(args@, args@.len())
            + ")"@,
        SimplExpr::JsonArray(_, values) => "["@ + list_text(values@, values@.len()) + "]"@,
        SimplExpr::JsonObject(_, entries) => "{"@ + entries_text(entries@, entries@.len()) + "}"@,
    }
}

/// One fragment of an interpolated string: a literal is inlined, anything else
/// stands between `${` and `}`.
pub open spec fn part_text(e: SimplExpr) -> Seq<char>
    decreases e, 1nat,
{
    match e {
        SimplExpr::Literal(lit) => lit.0@,
        _ => "${"@ + expr_text(e) + "}"@,
    }
}

/// The first `n` fragments of an interpolated string, joined with nothing between them.
pub open spec fn parts_text(s: Seq<SimplExpr>, n: nat) -> Seq<char>
    decreases s, n,
{
    if n == 0 || n > s.len() {
        Seq::empty()
    } else {
        parts_text(s, (n - 1) as nat) + part_text(s[n - 1])
    }
}

/// The first `n` expressions of `s`, joined with `", "`.
pub open spec fn list_text(s: Seq<SimplExpr>, n: nat) -> Seq<char>
    decreases s, n,
{
    if n == 0 || n > s.len() {
        Seq::empty()
    } else if n == 1 {
        expr_text(s[0])
    } else {
        list_text(s, (n - 1) as nat) + ", "@ + expr_text(s[n - 1])
    }
}

/// The first `n` entries of an object, each as `key: value`, joined with `", "`.
pub open spec fn entries_text(s: Seq<(SimplExpr, SimplExpr)>, n: nat) -> Seq<char>
    decreases s, n,
{
    if n == 0 || n > s.len() {
        Seq::empty()
    } else if n == 1 {
        expr_text(s[0].0) + ": "@ + expr_text(s[0].1)
    } else {
        entries_text(s, (n - 1) as nat) + ", "@ + expr_text(s[n - 1].0) + ": "@ + expr_text(
            s[n - 1].1,
        )
    }
}

/// Distinct binary operators are written with distinct tokens, so the text of an operator
/// names it unambiguously.
pub proof fn lemma_binop_text_injective(a: BinOp, b: BinOp)
    ensures
        binop_text(a) == binop_text(b) ==> a == b,
{
    reveal_strlit("+");
    reveal_strlit("-");
    reveal_strlit("*");
    reveal_strlit("/");
    reveal_strlit("%");
    reveal_strlit("==");
    reveal_strlit("!=");
    reveal_strlit("&&");
    reveal_strlit("||");
    reveal_strlit(">");
    reveal_strlit("<");
    reveal_strlit("?:");
    reveal_strlit("=~");
    if binop_text(a) == binop_text(b) {
        assert(binop_text(a).len() == binop_text(b).len());
        assert(binop_text(a)[0] == binop_text(b)[0]);
        if binop_text(a).len() == 2 {
            assert(binop_text(a)[1] == binop_text(b)[1]);
        }
    }
}

impl SimplExpr {
    /// A literal expression holding `s`, located at `span`.
    pub fn literal(span: Span, s: String) -> (r: SimplExpr)
        ensures
            r == SimplExpr::Literal(DynVal(s, span)),
    {
        SimplExpr::Literal(DynVal(s, span))
    }

    /// A synthetic literal expression from a string, located nowhere in source text.
    pub fn synth_string(s: String) -> (r: SimplExpr)
        ensures
            r == SimplExpr::Literal(DynVal(s, Span::dummy_spec())),
    {
        SimplExpr::Literal(DynVal::from_string(s))
    }

    /// A synthetic literal expression holding the text of the value `s`, located nowhere
    /// in source text.
    pub fn synth_literal(s: DynVal) -> (r: SimplExpr)
        ensures
            r == SimplExpr::Literal(DynVal(s.0, Span::dummy_spec())),
    {
        SimplExpr::Literal(DynVal(s.0, Span::dummy()))
    }

    pub fn span(&self) -> (r: Span)
        ensures
            r == expr_span(*self),
    {
        match self {
            SimplExpr::Literal(x) => x.span(),
            SimplExpr::JsonArray(span, _) => *span,
            SimplExpr::JsonObject(span, _) => *span,
            SimplExpr::Concat(span, _) => *span,
            SimplExpr::VarRef(span, _) => *span,
            SimplExpr::BinOp(span, ..) => *span,
            SimplExpr::UnaryOp(span, ..) => *span,
            SimplExpr::IfElse(span, ..) => *span,
            SimplExpr::JsonAccess(span, ..) => *span,
            SimplExpr::FunctionCall(span, ..) => *span,
        }
    }

    /// The source text of the expression: literals in quotes, interpolated strings with
    /// their nested expressions between `${` and `}`, operators in parentheses.
    pub fn to_string(&self) -> (r: String)
        ensures
            r@ == expr_text(*self),
        decreases self, 0nat,
    {
        let mut out = String::new();
        match self {
            SimplExpr::Literal(x) => {
                out.append("\"");
                out.append(x.0.as_str());
                out.append("\"");
            },
            SimplExpr::Concat(_, elems) => {
                let text = parts_string(elems);
                out.append("\"");
                out.append(text.as_str());
                out.append("\"");
            },
            SimplExpr::VarRef(_, x) => {
                out.append(x.0.as_str());
            },
            SimplExpr::BinOp(_, l, op, r) => {
                let lt = l.to_string();
                let rt = r.to_string();
                out.append("(");
                out.append(lt.as_str());
                out.append(" ");
                out.append(op.to_string());
                out.append(" ");
                out.append(rt.as_str());
                out.append(")");
            },
            SimplExpr::UnaryOp(_, op, x) => {
                let xt = x.to_string();
                out.append(op.to_string());
                out.append(xt.as_str());
            },
            SimplExpr::IfElse(_, a, b, c) => {
                let at = a.to_string();
                let bt = b.to_string();
                let ct = c.to_string();
                out.append("(");
                out.append(at.as_str());
                out.append(" ? ");
                out.append(bt.as_str());
                out.append(" : ");
                out.append(ct.as_str());
                out.append(")");
            },
            SimplExpr::JsonAccess(_, value, index) => {
                let vt = value.to_string();
                let it = index.to_string();
                out.append(vt.as_str());
                out.append("[");
                out.append(it.as_str());
                out.append("]");
            },
            SimplExpr::FunctionCall(_, name, args) => {
                let at = list_string(args);
                out.append(name.as_str());
                out.append("(");
                out.append(at.as_str());
                out.append(")");
            },
            SimplExpr::JsonArray(_, values) => {
                let vt = list_string(values);
                out.append("[");
                out.append(vt.as_str());
                out.append("]");
            },
            SimplExpr::JsonObject(_, entries) => {
                let et = entries_string(entries);
                out.append("{");
                out.append(et.as_str());
                out.append("}");
            },
        }
        proof {
            assert(out@ =~= expr_text(*self));
        }
        out
    }
}

/// The fragments of an interpolated string, joined with nothing between them.
fn parts_string(v: &Vec<SimplExpr>) -> (r: String)
    ensures
        r@ == parts_text(v@, v@.len()),
    decreases v, 0nat,
{
    let mut out = String::new();
    let mut i: usize = 0;
    while i < v.len()
        invariant
            i <= v@.len(),
            out@ == parts_text(v@, i as nat),
        decreases v@.len() - i,
    {
        proof {
            vstd::std_specs::vec::axiom_vec_index_decreases(*v, i as int);
        }
        match &v[i] {
            SimplExpr::Literal(lit) => {
                out.append(lit.0.as_str());
                assert(part_text(v@[i as int]) == lit.0@);
            },
            other => {
                let t = other.to_string();
                out.append("${");
                out.append(t.as_str());
                out.append("}");
                assert(part_text(v@[i as int]) =~= "${"@ + t@ + "}"@);
            },
        }
        i = i + 1;
        proof {
            assert(out@ =~= parts_text(v@, i as nat));
        }
    }
    out
}

/// The expressions of `v`, joined with `", "`.
fn list_string(v: &Vec<SimplExpr>) -> (r: String)
    ensures
        r@ == list_text(v@, v@.len()),
    decreases v, 0nat,
{
    let mut out = String::new();
    let mut i: usize = 0;
    while i < v.len()
        invariant
            i <= v@.len(),
            out@ == list_text(v@, i as nat),
        decreases v@.len() - i,
    {
        proof {
            vstd::std_specs::vec::axiom_vec_index_decreases(*v, i as int);
        }
        let t = v[i].to_string();
        if i > 0 {
            out.append(", ");
        }
        out.append(t.as_str());
        i = i + 1;
        proof {
            assert(out@ =~= list_text(v@, i as nat));
        }
    }
    out
}

/// The entries of an object, each as `key: value`, joined with `", "`.
fn entries_string(v: &Vec<(SimplExpr, SimplExpr)>) -> (r: String)
    ensures
        r@ == entries_text(v@, v@.len()),
    decreases v, 0nat,
{
    let mut out = String::new();
    let mut i: usize = 0;
    while i < v.len()
        invariant
            i <= v@.len(),
            out@ == entries_text(v@, i as nat),
        decreases v@.len() - i,
    {
        proof {
            vstd::std_specs::vec::axiom_vec_index_decreases(*v, i as int);
        }
        let kt = v[i].0.to_string();
        let vt = v[i].1.to_string();
        if i > 0 {
            out.append(", ");
        }
        out.append(kt.as_str());
        out.append(": ");
        out.append(vt.as_str());
        i = i + 1;
        proof {
            assert(out@ =~= entries_text(v@, i as nat));
        }
    }
    out
}

} // verus!
