use lunar_checker::analyzer::{resolve_type, Analyzer, Config};
use lunar_checker::error::AnalyzeError;
use lunar_checker::hir::{HirExpr, HirStat, LiteralKind, LocalAssign, LocalVariable};
use lunar_checker::span::{Span, Token};
use lunar_checker::ty::type_description;
use lunar_checker::types::{TypeCallback, TypeCallbackParameter, TypeInfo, TypeReference};

fn sp(start: usize, end: usize) -> Span {
    Span::new(start, end)
}

fn named_args(name: &str, args: Option<Vec<TypeInfo>>) -> TypeInfo {
    TypeInfo::Reference(TypeReference::new(sp(0, 0), args, Token::new(sp(0, 0), name.to_string())))
}

fn named(name: &str) -> TypeInfo {
    named_args(name, None)
}

fn callback(params: Vec<TypeInfo>, ret: TypeInfo) -> TypeInfo {
    let parameters = params.into_iter().map(|p| TypeCallbackParameter::new(sp(0, 0), None, p)).collect();
    TypeInfo::Callback(TypeCallback::new(sp(0, 0), parameters, Box::new(ret)))
}

fn number(start: usize, end: usize) -> HirExpr {
    HirExpr::Literal { kind: LiteralKind::Number, span: sp(start, end) }
}

fn name(text: &str, start: usize, end: usize) -> HirExpr {
    HirExpr::Name { name: text.to_string(), span: sp(start, end) }
}

fn call(callee: HirExpr, args: Vec<HirExpr>, start: usize, end: usize) -> HirExpr {
    HirExpr::Call { callee: Box::new(callee), args, span: sp(start, end) }
}

fn local(
    var: &str,
    name_span: Span,
    explicit_type: Option<TypeInfo>,
    expr: Option<HirExpr>,
    expr_source: Option<Span>,
) -> HirStat {
    HirStat::Local(LocalAssign {
        variables: vec![LocalVariable { name: var.to_string(), name_span, explicit_type, expr, expr_source }],
    })
}

fn config() -> Config {
    Config::new(".".to_string())
}

#[test]
fn missing_initializer_is_reported_at_the_name() {
    // local x: number
    let block = vec![local("x", sp(6, 7), Some(named("number")), None, None)];
    let r = Analyzer::analyze(&config(), &block);
    assert_eq!(
        r,
        Err(AnalyzeError::NotDefined {
            variable: "x".to_string(),
            explicit_type: "number".to_string(),
            span: sp(6, 7),
        })
    );
}

#[test]
fn matching_local_has_no_diagnostic() {
    // local x: number = 5
    let block = vec![local("x", sp(6, 7), Some(named("number")), Some(number(18, 19)), Some(sp(18, 19)))];
    assert_eq!(Analyzer::analyze(&config(), &block), Ok(()));
}

#[test]
fn mismatched_local_is_reported_at_the_initializer() {
    // local x: string = 5
    let block = vec![local("x", sp(6, 7), Some(named("string")), Some(number(18, 19)), Some(sp(18, 19)))];
    let r = Analyzer::analyze(&config(), &block);
    assert_eq!(
        r,
        Err(AnalyzeError::TypeMismatch {
            source: "number".to_string(),
            target: "string".to_string(),
            span: sp(18, 19),
        })
    );
}

#[test]
fn mismatch_without_recorded_initializer_span_uses_the_annotation() {
    let ty = TypeInfo::Reference(TypeReference::new(sp(9, 15), None, Token::new(sp(9, 15), "string".to_string())));
    let block = vec![local("x", sp(6, 7), Some(ty), Some(number(18, 19)), None)];
    let r = Analyzer::analyze(&config(), &block).unwrap_err();
    assert_eq!(r.span(), sp(9, 15));
}

#[test]
fn unresolved_reference_is_reported_at_its_use() {
    // print(y), with print declared and y not
    let block = vec![
        local("print", sp(6, 11), None, Some(HirExpr::Function { params: vec![], body: vec![], span: sp(14, 30) }), None),
        HirStat::Call(call(name("print", 31, 36), vec![name("y", 37, 38)], 31, 39)),
    ];
    let r = Analyzer::analyze(&config(), &block);
    assert_eq!(r, Err(AnalyzeError::Unresolved { name: "y".to_string(), span: sp(37, 38) }));
}

#[test]
fn unresolved_callee_is_reported() {
    let block = vec![HirStat::Call(call(name("print", 0, 5), vec![number(6, 7)], 0, 8))];
    let r = Analyzer::analyze(&config(), &block);
    assert_eq!(r, Err(AnalyzeError::Unresolved { name: "print".to_string(), span: sp(0, 5) }));
}

#[test]
fn recursive_local_function_resolves_itself() {
    // local function f(n) f(n) end
    let body = vec![HirStat::Call(call(name("f", 20, 21), vec![name("n", 22, 23)], 20, 24))];
    let block = vec![HirStat::LocalFunction { name: "f".to_string(), name_span: sp(15, 16), params: vec!["n".to_string()], body }];
    assert_eq!(Analyzer::analyze(&config(), &block), Ok(()));
}

#[test]
fn parameters_are_not_visible_after_the_function() {
    let block = vec![
        HirStat::LocalFunction { name: "f".to_string(), name_span: sp(15, 16), params: vec!["n".to_string()], body: vec![] },
        HirStat::Call(call(name("f", 30, 31), vec![name("n", 32, 33)], 30, 34)),
    ];
    let r = Analyzer::analyze(&config(), &block);
    assert_eq!(r, Err(AnalyzeError::Unresolved { name: "n".to_string(), span: sp(32, 33) }));
}

#[test]
fn do_block_declarations_end_with_the_block() {
    let block = vec![
        local("f", sp(6, 7), None, Some(HirExpr::Function { params: vec![], body: vec![], span: sp(10, 20) }), None),
        HirStat::Do(vec![local("x", sp(30, 31), None, Some(number(34, 35)), None)]),
        HirStat::Call(call(name("f", 40, 41), vec![name("x", 42, 43)], 40, 44)),
    ];
    let r = Analyzer::analyze(&config(), &block);
    assert_eq!(r, Err(AnalyzeError::Unresolved { name: "x".to_string(), span: sp(42, 43) }));
}

#[test]
fn working_type_of_an_unannotated_local_is_checked_later() {
    // local a = 5; local b: string = a
    let block = vec![
        local("a", sp(6, 7), None, Some(number(10, 11)), None),
        local("b", sp(18, 19), Some(named("string")), Some(name("a", 30, 31)), Some(sp(30, 31))),
    ];
    let r = Analyzer::analyze(&config(), &block);
    assert_eq!(
        r,
        Err(AnalyzeError::TypeMismatch { source: "number".to_string(), target: "string".to_string(), span: sp(30, 31) })
    );
}

#[test]
fn inner_declaration_shadows_outer() {
    // local a: string = "s"; do local a = 5; local b: number = a end
    let block = vec![
        local("a", sp(6, 7), Some(named("string")), Some(HirExpr::Literal { kind: LiteralKind::Str, span: sp(18, 21) }), None),
        HirStat::Do(vec![
            local("a", sp(30, 31), None, Some(number(34, 35)), None),
            local("b", sp(42, 43), Some(named("number")), Some(name("a", 54, 55)), Some(sp(54, 55))),
        ]),
    ];
    assert_eq!(Analyzer::analyze(&config(), &block), Ok(()));
}

#[test]
fn declaration_without_type_or_value_is_accepted() {
    let block = vec![local("x", sp(6, 7), None, None, None)];
    assert_eq!(Analyzer::analyze(&config(), &block), Ok(()));
}

#[test]
fn analysing_twice_gives_the_same_outcome() {
    let block = vec![
        local("x", sp(6, 7), Some(named("string")), Some(number(18, 19)), Some(sp(18, 19))),
        local("y", sp(26, 27), Some(named("number")), None, None),
    ];
    let first = Analyzer::analyze(&config(), &block);
    let second = Analyzer::analyze(&config(), &block);
    assert_eq!(first, second);
    assert!(matches!(first, Err(AnalyzeError::TypeMismatch { .. })));
}

#[test]
fn first_failing_variable_is_reported() {
    let block = vec![HirStat::Local(LocalAssign {
        variables: vec![
            LocalVariable { name: "a".to_string(), name_span: sp(6, 7), explicit_type: None, expr: Some(number(20, 21)), expr_source: None },
            LocalVariable { name: "b".to_string(), name_span: sp(9, 10), explicit_type: Some(named("nil")), expr: None, expr_source: None },
        ],
    })];
    let r = Analyzer::analyze(&config(), &block);
    assert_eq!(
        r,
        Err(AnalyzeError::NotDefined { variable: "b".to_string(), explicit_type: "nil".to_string(), span: sp(9, 10) })
    );
}

#[test]
fn local_function_value_mismatch_describes_callback() {
    // local f: number = function(a, b) end
    let f = HirExpr::Function { params: vec!["a".to_string(), "b".to_string()], body: vec![], span: sp(18, 40) };
    let block = vec![local("f", sp(6, 7), Some(named("number")), Some(f), Some(sp(18, 40)))];
    let r = Analyzer::analyze(&config(), &block);
    assert_eq!(
        r,
        Err(AnalyzeError::TypeMismatch {
            source: "(any, any) -> any".to_string(),
            target: "number".to_string(),
            span: sp(18, 40),
        })
    );
}

#[test]
fn descriptions_render_generics_and_callbacks() {
    let t = callback(vec![named("number"), named("string")], named("boolean"));
    assert_eq!(type_description(&t), "(number, string) -> boolean");
    let g = named_args("Map", Some(vec![named("string"), named_args("Array", Some(vec![named("number")]))]));
    assert_eq!(type_description(&g), "Map<string, Array<number>>");
    assert_eq!(type_description(&named_args("Array", Some(vec![]))), "Array");
    assert_eq!(type_description(&callback(vec![], named("any"))), "() -> any");
}

#[test]
fn resolve_type_is_reflexive_on_examples() {
    let examples = vec![
        named("number"),
        named("any"),
        named_args("Array", Some(vec![named("string")])),
        callback(vec![named("number"), callback(vec![], named("nil"))], named_args("Map", Some(vec![named("a"), named("b")]))),
    ];
    for t in examples.iter() {
        assert_eq!(resolve_type(t, t, sp(0, 1)), Ok(()));
    }
}

#[test]
fn callback_parameters_are_contravariant() {
    let target = callback(vec![named("number")], named("number"));
    let source = callback(vec![named("any")], named("number"));
    assert_eq!(resolve_type(&source, &target, sp(0, 1)), Ok(()));
}

#[test]
fn callback_mismatch_in_parameter_or_return_fails() {
    let target = callback(vec![named("number")], named("number"));
    let wrong_param = callback(vec![named("string")], named("number"));
    let wrong_ret = callback(vec![named("number")], named("string"));
    let r = resolve_type(&wrong_param, &target, sp(3, 4));
    assert_eq!(
        r,
        Err(AnalyzeError::TypeMismatch {
            source: "(string) -> number".to_string(),
            target: "(number) -> number".to_string(),
            span: sp(3, 4),
        })
    );
    assert!(resolve_type(&wrong_ret, &target, sp(3, 4)).is_err());
    let two = callback(vec![named("number"), named("number")], named("number"));
    assert!(resolve_type(&two, &target, sp(3, 4)).is_err());
}

#[test]
fn generic_arity_and_names_must_match() {
    let a1 = named_args("Array", Some(vec![named("number")]));
    let a2 = named_args("Array", Some(vec![named("number"), named("string")]));
    let bare = named("Array");
    assert!(resolve_type(&a1, &a2, sp(0, 1)).is_err());
    assert!(resolve_type(&a1, &bare, sp(0, 1)).is_err());
    assert!(resolve_type(&named("number"), &named("string"), sp(0, 1)).is_err());
    let b1 = named_args("Array", Some(vec![named("string")]));
    assert!(resolve_type(&a1, &b1, sp(0, 1)).is_err());
}

#[test]
fn any_is_compatible_both_ways() {
    let cb = callback(vec![named("number")], named("number"));
    assert_eq!(resolve_type(&named("any"), &cb, sp(0, 1)), Ok(()));
    assert_eq!(resolve_type(&cb, &named("any"), sp(0, 1)), Ok(()));
    assert!(resolve_type(&named("number"), &cb, sp(0, 1)).is_err());
}
