use vstd::prelude::*;
use crate::span::Span;
use crate::types::TypeInfo;

verus! {

/// The kinds of literal whose type is fixed.
#[derive(Clone, Copy, Debug, PartialEq, Eq)]
pub enum LiteralKind {
    Bool,
    Nil,
    Number,
    Str,
    Varargs,
}

/// An expression of the bound representation. A name carries the text that
/// the analyzer resolves against the scope chain.
#[derive(Debug, PartialEq)]
pub enum HirExpr {
    Literal { kind: LiteralKind, span: Span },
    Name { name: String, span: Span },
    Call { callee: Box<HirExpr>, args: Vec<HirExpr>, span: Span },
    Function { params: Vec<String>, body: Vec<HirStat>, span: Span },
}

/// One variable of a `local` statement.
#[derive(Debug, PartialEq)]
pub struct LocalVariable {
    pub name: String,
    pub name_span: Span,
    pub explicit_type: Option<TypeInfo>,
    pub expr: Option<HirExpr>,
    pub expr_source: Option<Span>,
}

/// `local a [: T] [, b [: U]] [= e1 [, e2]]`, one entry per variable.
#[derive(Debug, PartialEq)]
pub struct LocalAssign {
    pub variables: Vec<LocalVariable>,
}

#[derive(Debug, PartialEq)]
pub enum HirStat {
    Local(LocalAssign),
    /// `local function name(params) body end`: the name is visible in the body.
    LocalFunction { name: String, name_span: Span, params: Vec<String>, body: Vec<HirStat> },
    Call(HirExpr),
    /// `do body end`: a nested scope.
    Do(Vec<HirStat>),
}

} // verus!
