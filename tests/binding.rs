use lunar_checker::binder::Binder;
use lunar_checker::error::AnalyzeError;
use lunar_checker::hir::{HirExpr, HirStat, LiteralKind, LocalAssign, LocalVariable};
use lunar_checker::span::Span;

fn sp(start: usize, end: usize) -> Span {
    Span::new(start, end)
}

fn name(text: &str, start: usize, end: usize) -> HirExpr {
    HirExpr::Name { name: text.to_string(), span: sp(start, end) }
}

fn call(callee: HirExpr, args: Vec<HirExpr>) -> HirStat {
    HirStat::Call(HirExpr::Call { callee: Box::new(callee), args, span: sp(0, 0) })
}

fn local(var: &str, name_span: Span, expr: Option<HirExpr>) -> HirStat {
    HirStat::Local(LocalAssign {
        variables: vec![LocalVariable { name: var.to_string(), name_span, explicit_type: None, expr, expr_source: None }],
    })
}

#[test]
fn recursive_function_name_resolves_in_its_body() {
    // local function f(n) f(n) end
    let body = vec![call(name("f", 20, 21), vec![name("n", 22, 23)])];
    let block = vec![HirStat::LocalFunction { name: "f".to_string(), name_span: sp(15, 16), params: vec!["n".to_string()], body }];
    let b = Binder::new(&block);
    assert_eq!(b.decls.len(), 2);
    assert_eq!(b.decls[0].name, "f");
    assert_eq!(b.decls[0].span, sp(15, 16));
    assert_eq!(b.uses.len(), 2);
    assert_eq!(b.uses[0].decl, Some(0));
    assert_eq!(b.uses[1].decl, Some(1));
    assert!(b.scope == vec![0]);
}

#[test]
fn variable_is_not_visible_in_its_own_initializer() {
    // local x = x
    let block = vec![local("x", sp(6, 7), Some(name("x", 10, 11)))];
    let b = Binder::new(&block);
    assert_eq!(b.uses.len(), 1);
    assert_eq!(b.uses[0].decl, None);
    assert_eq!(b.uses[0].span, sp(10, 11));
    assert_eq!(b.decls.len(), 1);
}

#[test]
fn innermost_declaration_wins_and_do_scope_ends() {
    // local a; do local a; g(a) end; g(a)
    let block = vec![
        local("g", sp(0, 1), None),
        local("a", sp(2, 3), None),
        HirStat::Do(vec![local("a", sp(10, 11), None), call(name("g", 12, 13), vec![name("a", 14, 15)])]),
        call(name("g", 20, 21), vec![name("a", 22, 23)]),
    ];
    let b = Binder::new(&block);
    assert_eq!(b.decls.len(), 3);
    let resolved: Vec<Option<usize>> = b.uses.iter().map(|u| u.decl).collect();
    assert_eq!(resolved, vec![Some(0), Some(2), Some(0), Some(1)]);
    assert_eq!(b.resolve(&"a".to_string()), Some(1));
    assert_eq!(b.resolve(&"zzz".to_string()), None);
}

#[test]
fn function_literal_parameters_are_scoped_to_its_body() {
    let f = HirExpr::Function {
        params: vec!["p".to_string()],
        body: vec![call(name("p", 30, 31), vec![])],
        span: sp(20, 40),
    };
    let block = vec![local("f", sp(6, 7), Some(f)), call(name("p", 50, 51), vec![])];
    let b = Binder::new(&block);
    assert_eq!(b.decls.len(), 2);
    assert_eq!(b.decls[0].name, "p");
    assert_eq!(b.decls[0].span, sp(20, 40));
    assert_eq!(b.uses[0].decl, Some(0));
    assert_eq!(b.uses[1].decl, None);
}

#[test]
fn unresolved_use_is_marked_not_failed() {
    let block = vec![call(name("print", 0, 5), vec![name("y", 6, 7), HirExpr::Literal { kind: LiteralKind::Nil, span: sp(9, 12) }])];
    let b = Binder::new(&block);
    assert_eq!(b.uses.len(), 2);
    assert!(b.uses.iter().all(|u| u.decl.is_none()));
}

#[test]
fn messages_name_the_problem() {
    let e = AnalyzeError::NotDefined { variable: "x".to_string(), explicit_type: "number".to_string(), span: sp(6, 7) };
    assert_eq!(e.message(), "`x` is declared as `number` but has no value");
    let e = AnalyzeError::TypeMismatch { source: "number".to_string(), target: "string".to_string(), span: sp(0, 1) };
    assert_eq!(e.message(), "expected `string`, found `number`");
    let e = AnalyzeError::Unresolved { name: "y".to_string(), span: sp(6, 7) };
    assert_eq!(e.message(), "`y` is not defined");
    assert_eq!(e.span(), sp(6, 7));
}
