use lunar_checker::exprs::{
    Args, Binary, Binop, Expr, FunctionBody, FunctionExpr, Literal, Param, SuffixKind, Suffixed,
    TableCtor, TableField, TypeAssertion, Unary, Unop,
};
use lunar_checker::span::{vector_span, Node, Span, Token};
use lunar_checker::types::{TypeCallback, TypeCallbackParameter, TypeInfo, TypeReference};

fn tok(start: usize, end: usize, text: &str) -> Token {
    Token::new(Span::new(start, end), text.to_string())
}

fn num(start: usize, end: usize) -> Expr {
    Expr::Literal(Literal::Number(tok(start, end, "1")))
}

fn named(start: usize, end: usize, text: &str) -> TypeInfo {
    TypeInfo::Reference(TypeReference::new(Span::new(start, end), None, tok(start, end, text)))
}

#[test]
fn from_two_spans_covers_both() {
    let s = Span::from_two_spans(Span::new(4, 9), Span::new(2, 6));
    assert_eq!(s, Span::new(2, 9));
    assert_eq!(s.start(), 2);
    assert_eq!(s.end(), 9);
}

#[test]
fn vector_span_of_empty_list_is_zero() {
    let empty: Vec<Token> = Vec::new();
    assert_eq!(vector_span(&empty), Span::new(0, 0));
}

#[test]
fn vector_span_runs_from_first_start_to_last_end() {
    let list = vec![tok(3, 5, "a"), tok(7, 8, "b"), tok(10, 14, "c")];
    assert_eq!(vector_span(&list), Span::new(3, 14));
}

#[test]
fn binary_span_covers_operands() {
    let b = Binary {
        left: Box::new(num(0, 1)),
        op: Binop { token: tok(2, 3, "+") },
        right: Box::new(num(4, 6)),
    };
    assert_eq!(b.span(), Span::new(0, 6));
    assert_eq!(Expr::Binary(b).span(), Span::new(0, 6));
}

#[test]
fn unary_span_starts_at_operator() {
    let u = Unary { op: Unop { token: tok(0, 1, "-") }, expr: Box::new(num(1, 3)) };
    assert_eq!(u.span(), Span::new(0, 3));
}

#[test]
fn paren_span_is_inner_span() {
    let e = Expr::Paren(Box::new(num(5, 7)));
    assert_eq!(e.span(), Span::new(5, 7));
}

#[test]
fn suffixed_call_span_covers_base_and_suffix() {
    let args = Args::ExprList(vec![num(6, 7), num(9, 10)]);
    assert_eq!(args.span(), Span::new(6, 10));
    let call = SuffixKind::Call(args);
    assert_eq!(call.span(), Span::new(6, 10));
    let s = Suffixed {
        base: Box::new(Expr::Literal(Literal::Name(tok(0, 5, "print")))),
        suffix_span: Span::new(5, 11),
        suffix: call,
    };
    assert_eq!(s.span(), Span::new(0, 11));
    assert_eq!(Expr::Suffixed(s).span(), Span::new(0, 11));
}

#[test]
fn type_assertion_span_covers_cast() {
    let t = TypeAssertion { base: Box::new(num(0, 1)), cast: named(5, 11, "number") };
    assert_eq!(t.span(), Span::new(0, 11));
}

#[test]
fn table_and_function_spans_are_stored() {
    let field = TableField::Expr {
        span: Span::new(1, 8),
        index: Box::new(num(2, 3)),
        value: Box::new(num(6, 7)),
    };
    assert_eq!(field.span(), Span::new(1, 8));
    let array = TableField::Array(Box::new(num(10, 11)));
    assert_eq!(array.span(), Span::new(10, 11));
    let table = TableCtor { span: Span::new(0, 12), fields: vec![field, array] };
    assert_eq!(table.span(), Span::new(0, 12));
    assert_eq!(Literal::Table(table).span(), Span::new(0, 12));
    let body = FunctionBody { span: Span::new(8, 30), params: vec![Param::Name(tok(9, 10, "a"))] };
    assert_eq!(body.span(), Span::new(8, 30));
    let f = FunctionExpr { span: Span::new(0, 30), body };
    assert_eq!(Literal::Function(f).span(), Span::new(0, 30));
}

#[test]
fn param_span_is_its_token() {
    assert_eq!(Param::Name(tok(3, 4, "a")).span(), Span::new(3, 4));
    assert_eq!(Param::Varargs(tok(6, 9, "...")).span(), Span::new(6, 9));
}

#[test]
fn type_info_spans() {
    let cb = TypeCallback::new(
        Span::new(0, 16),
        vec![TypeCallbackParameter::new(Span::new(1, 7), None, named(1, 7, "number"))],
        Box::new(named(12, 16, "nil")),
    );
    assert_eq!(cb.parameters().len(), 1);
    assert_eq!(cb.return_type().span(), Span::new(12, 16));
    assert_eq!(TypeInfo::Callback(cb).span(), Span::new(0, 16));
    assert_eq!(named(2, 8, "string").span(), Span::new(2, 8));
}
