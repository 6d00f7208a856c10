use vstd::prelude::*;
use crate::span::{list_span, vector_span, Node, Span, Token};
use crate::types::{type_info_span, TypeInfo};

verus! {

/// A binary operator and its token.
#[derive(Debug, PartialEq)]
pub struct Binop {
    pub token: Token,
}

/// A unary operator and its token.
#[derive(Debug, PartialEq)]
pub struct Unop {
    pub token: Token,
}

#[derive(Debug, PartialEq)]
pub enum Expr {
    Binary(Binary),
    Literal(Literal),
    Paren(Box<Expr>),
    Suffixed(Suffixed),
    TypeAssertion(TypeAssertion),
    Unary(Unary),
}

/// `base :: cast`
#[derive(Debug, PartialEq)]
pub struct TypeAssertion {
    pub base: Box<Expr>,
    pub cast: TypeInfo,
}

pub type ExprList = Vec<Expr>;

/// The arguments of a call: `(a, b)`, `{...}` or `"str"`.
#[derive(Debug, PartialEq)]
pub enum Args {
    ExprList(ExprList),
    Table(TableCtor),
    Str(Token),
}

#[derive(Debug, PartialEq)]
pub enum Literal {
    Bool(Token),
    Function(FunctionExpr),
    Name(Token),
    Number(Token),
    Nil(Token),
    Str(Token),
    Table(TableCtor),
    Varargs(Token),
}

#[derive(Debug, PartialEq)]
pub enum SuffixKind {
    Call(Args),
    Computed(Box<Expr>),
    Method(Token),
    Name(Token),
}

/// `base` followed by a call, an index, a method or a field name.
#[derive(Debug, PartialEq)]
pub struct Suffixed {
    pub base: Box<Expr>,
    pub suffix_span: Span,
    pub suffix: SuffixKind,
}

#[derive(Debug, PartialEq)]
pub enum TableField {
    Array(Box<Expr>),
    Expr { span: Span, index: Box<Expr>, value: Box<Expr> },
}

#[derive(Debug, PartialEq)]
pub struct TableCtor {
    pub span: Span,
    pub fields: Vec<TableField>,
}

#[derive(Debug, PartialEq)]
pub struct Binary {
    pub left: Box<Expr>,
    pub op: Binop,
    pub right: Box<Expr>,
}

#[derive(Debug, PartialEq)]
pub struct Unary {
    pub op: Unop,
    pub expr: Box<Expr>,
}

#[derive(Debug, PartialEq)]
pub enum Param {
    Name(Token),
    Varargs(Token),
}

pub type ParamList = Vec<Param>;

/// The parameters of a function literal; its statements are bound and
/// checked in the bound representation.
#[derive(Debug, PartialEq)]
pub struct FunctionBody {
    pub span: Span,
    pub params: ParamList,
}

#[derive(Debug, PartialEq)]
pub struct FunctionExpr {
    pub span: Span,
    pub body: FunctionBody,
}

pub open spec fn literal_span(l: Literal) -> Span {
    match l {
        Literal::Bool(t) => t.span,
        Literal::Function(f) => f.span,
        Literal::Name(t) => t.span,
        Literal::Number(t) => t.span,
        Literal::Nil(t) => t.span,
        Literal::Str(t) => t.span,
        Literal::Table(t) => t.span,
        Literal::Varargs(t) => t.span,
    }
}

/// The span of an expression, combined from its children's spans.
pub open spec fn expr_span(e: Expr) -> Span
    decreases e,
{
    match e {
        Expr::Binary(b) => Span::cover(expr_span(*b.left), expr_span(*b.right)),
        Expr::Literal(l) => literal_span(l),
        Expr::Paren(inner) => expr_span(*inner),
        Expr::Suffixed(s) => Span::cover(expr_span(*s.base), s.suffix_span),
        Expr::TypeAssertion(t) => Span::cover(expr_span(*t.base), type_info_span(t.cast)),
        Expr::Unary(u) => Span::cover(u.op.token.span, expr_span(*u.expr)),
    }
}

pub open spec fn args_span(a: Args) -> Span {
    match a {
        Args::ExprList(l) => if l.len() == 0 {
            Span { start: 0, end: 0 }
        } else {
            Span { start: expr_span(l@[0]).start, end: expr_span(l@.last()).end }
        },
        Args::Table(t) => t.span,
        Args::Str(t) => t.span,
    }
}

fn span_of_expr(e: &Expr) -> (r: Span)
    ensures
        r == expr_span(*e),
    decreases e,
{
    match e {
        Expr::Binary(b) => Span::from_two_spans(span_of_expr(&b.left), span_of_expr(&b.right)),
        Expr::Literal(l) => l.span(),
        Expr::Paren(inner) => span_of_expr(inner),
        Expr::Suffixed(s) => Span::from_two_spans(span_of_expr(&s.base), s.suffix_span),
        Expr::TypeAssertion(t) => Span::from_two_spans(span_of_expr(&t.base), t.cast.span()),
        Expr::Unary(u) => Span::from_two_spans(u.op.token.span, span_of_expr(&u.expr)),
    }
}

impl Node for Expr {
    open spec fn span_of(&self) -> Span {
        expr_span(*self)
    }

    fn span(&self) -> (r: Span) {
        span_of_expr(self)
    }
}

impl Node for TypeAssertion {
    open spec fn span_of(&self) -> Span {
        Span::cover(expr_span(*self.base), type_info_span(self.cast))
    }

    fn span(&self) -> (r: Span) {
        Span::from_two_spans(span_of_expr(&self.base), self.cast.span())
    }
}

impl Node for Args {
    open spec fn span_of(&self) -> Span {
        args_span(*self)
    }

    fn span(&self) -> (r: Span) {
        match self {
            Args::ExprList(node) => vector_span(node.as_slice()),
            Args::Table(node) => node.span,
            Args::Str(node) => node.span,
        }
    }
}

impl Node for Literal {
    open spec fn span_of(&self) -> Span {
        literal_span(*self)
    }

    fn span(&self) -> (r: Span) {
        match self {
            Literal::Bool(node) => node.span(),
            Literal::Function(node) => node.span(),
            Literal::Name(node) => node.span(),
            Literal::Number(node) => node.span(),
            Literal::Nil(node) => node.span(),
            Literal::Str(node) => node.span(),
            Literal::Table(node) => node.span(),
            Literal::Varargs(node) => node.span(),
        }
    }
}

impl Node for SuffixKind {
    open spec fn span_of(&self) -> Span {
        match *self {
            SuffixKind::Call(a) => args_span(a),
            SuffixKind::Computed(e) => expr_span(*e),
            SuffixKind::Method(t) => t.span,
            SuffixKind::Name(t) => t.span,
        }
    }

    fn span(&self) -> (r: Span) {
        match self {
            SuffixKind::Call(node) => node.span(),
            SuffixKind::Computed(node) => span_of_expr(node),
            SuffixKind::Method(node) => node.span(),
            SuffixKind::Name(node) => node.span(),
        }
    }
}

impl Node for Suffixed {
    open spec fn span_of(&self) -> Span {
        Span::cover(expr_span(*self.base), self.suffix_span)
    }

    fn span(&self) -> (r: Span) {
        Span::from_two_spans(span_of_expr(&self.base), self.suffix_span)
    }
}

impl Node for TableField {
    open spec fn span_of(&self) -> Span {
        match *self {
            TableField::Array(e) => expr_span(*e),
            TableField::Expr { span, .. } => span,
        }
    }

    fn span(&self) -> (r: Span) {
        match self {
            TableField::Array(exp) => span_of_expr(exp),
            TableField::Expr { span, .. } => *span,
        }
    }
}

impl Node for TableCtor {
    open spec fn span_of(&self) -> Span {
        self.span
    }

    fn span(&self) -> (r: Span) {
        self.span
    }
}

impl Node for Binary {
    open spec fn span_of(&self) -> Span {
        Span::cover(expr_span(*self.left), expr_span(*self.right))
    }

    fn span(&self) -> (r: Span) {
        Span::from_two_spans(span_of_expr(&self.left), span_of_expr(&self.right))
    }
}

impl Node for Unary {
    open spec fn span_of(&self) -> Span {
        Span::cover(self.op.token.span, expr_span(*self.expr))
    }

    fn span(&self) -> (r: Span) {
        Span::from_two_spans(self.op.token.span(), span_of_expr(&self.expr))
    }
}

impl Node for Param {
    open spec fn span_of(&self) -> Span {
        match *self {
            Param::Name(t) => t.span,
            Param::Varargs(t) => t.span,
        }
    }

    fn span(&self) -> (r: Span) {
        match self {
            Param::Name(token) => token.span(),
            Param::Varargs(token) => token.span(),
        }
    }
}

impl Node for FunctionBody {
    open spec fn span_of(&self) -> Span {
        self.span
    }

    fn span(&self) -> (r: Span) {
        self.span
    }
}

impl Node for FunctionExpr {
    open spec fn span_of(&self) -> Span {
        self.span
    }

    fn span(&self) -> (r: Span) {
        self.span
    }
}

/// `a` lies before `b` in the source: it starts and ends no later.
pub open spec fn in_order(a: Span, b: Span) -> bool {
    a.start <= b.start && a.end <= b.end
}

/// A composite expression covers its children exactly: when its children
/// stand in source order, its span starts where its first child starts and
/// ends where its last child ends.
pub proof fn lemma_span_coverage(e: Expr)
    ensures
        match e {
            Expr::Binary(b) => in_order(expr_span(*b.left), expr_span(*b.right)) ==> expr_span(e) == (Span {
                start: expr_span(*b.left).start,
                end: expr_span(*b.right).end,
            }),
            Expr::Paren(inner) => expr_span(e) == expr_span(*inner),
            Expr::Suffixed(s) => in_order(expr_span(*s.base), s.suffix_span) ==> expr_span(e) == (Span {
                start: expr_span(*s.base).start,
                end: s.suffix_span.end,
            }),
            Expr::TypeAssertion(t) => in_order(expr_span(*t.base), type_info_span(t.cast)) ==> expr_span(e)
                == (Span { start: expr_span(*t.base).start, end: type_info_span(t.cast).end }),
            Expr::Unary(u) => in_order(u.op.token.span, expr_span(*u.expr)) ==> expr_span(e) == (Span {
                start: u.op.token.span.start,
                end: expr_span(*u.expr).end,
            }),
            Expr::Literal(l) => expr_span(e) == literal_span(l),
        },
{
}

/// A list of nodes covers its elements exactly: its span starts where the
/// first element starts and ends where the last ends.
pub proof fn lemma_list_span_coverage<N: Node>(s: Seq<N>)
    requires
        s.len() > 0,
    ensures
        list_span(s).start == s[0].span_of().start,
        list_span(s).end == s[s.len() - 1].span_of().end,
{
}

} // verus!
