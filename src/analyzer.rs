use vstd::prelude::*;
use vstd::string::StringExecFns;
use crate::error::{AnalyzeError, Diag};
use crate::hir::{HirExpr, HirStat, LiteralKind, LocalAssign, LocalVariable};
use crate::span::{Node, Span, Token};
use crate::ty::{
    any_name, compat_check, compatible, describe, lemma_param_tys_of, param_tys_of, ty_of,
    type_description, Ty,
};
use crate::types::{TypeCallback, TypeCallbackParameter, TypeInfo, TypeReference};

verus! {

broadcast use vstd::std_specs::vec::group_vec_axioms;

/// The visible declarations, outermost first: a name and its working type.
pub type Env = Seq<(Seq<char>, Ty)>;

/// The innermost declaration of `name`, if any.
pub open spec fn lookup(env: Env, name: Seq<char>) -> Option<Ty>
    decreases env.len(),
{
    if env.len() == 0 {
        None
    } else if env.last().0 == name {
        Some(env.last().1)
    } else {
        lookup(env.drop_last(), name)
    }
}

pub open spec fn number_name() -> Seq<char> {
    seq!['n', 'u', 'm', 'b', 'e', 'r']
}

pub open spec fn string_name() -> Seq<char> {
    seq!['s', 't', 'r', 'i', 'n', 'g']
}

pub open spec fn boolean_name() -> Seq<char> {
    seq!['b', 'o', 'o', 'l', 'e', 'a', 'n']
}

pub open spec fn nil_name() -> Seq<char> {
    seq!['n', 'i', 'l']
}

pub open spec fn literal_ty(k: LiteralKind) -> Ty {
    match k {
        LiteralKind::Bool => Ty::Named(boolean_name(), Seq::empty()),
        LiteralKind::Nil => Ty::Named(nil_name(), Seq::empty()),
        LiteralKind::Number => Ty::Named(number_name(), Seq::empty()),
        LiteralKind::Str => Ty::Named(string_name(), Seq::empty()),
        LiteralKind::Varargs => Ty::Any,
    }
}

/// The type of a function literal or local function with `n` parameters.
pub open spec fn function_ty(n: nat) -> Ty {
    Ty::Callback(Seq::new(n, |i: int| Ty::Any), Box::new(Ty::Any))
}

/// The scope of a function body: its parameters, of type `any`.
pub open spec fn bind_params(env: Env, params: Seq<String>) -> Env {
    env + params.map_values(|p: String| (p@, Ty::Any))
}

/// Where a type mismatch of a variable is reported: its initializer if its
/// span is recorded, else its annotation.
pub open spec fn anchor(v: LocalVariable, ty: TypeInfo) -> Span {
    match v.expr_source {
        Some(s) => s,
        None => ty.span_of(),
    }
}

/// The type of an expression, or the first diagnostic found in it.
pub open spec fn infer(env: Env, e: HirExpr) -> Result<Ty, Diag>
    decreases e,
{
    match e {
        HirExpr::Literal { kind, .. } => Ok(literal_ty(kind)),
        HirExpr::Name { name, span } => match lookup(env, name@) {
            Some(t) => Ok(t),
            None => Err(Diag::Unresolved(name@, span)),
        },
        HirExpr::Call { callee, args, .. } => match infer(env, *callee) {
            Err(d) => Err(d),
            Ok(_) => match infer_list(env, args@) {
                Some(d) => Err(d),
                None => Ok(Ty::Any),
            },
        },
        HirExpr::Function { params, body, .. } => match check_stats(bind_params(env, params@), body@) {
            Err(d) => Err(d),
            Ok(_) => Ok(function_ty(params.len() as nat)),
        },
    }
}

/// The first diagnostic among a list of expressions, left to right.
pub open spec fn infer_list(env: Env, s: Seq<HirExpr>) -> Option<Diag>
    decreases s,
{
    if s.len() == 0 {
        None
    } else {
        match infer_list(env, s.drop_last()) {
            Some(d) => Some(d),
            None => match infer(env, s.last()) {
                Err(d) => Some(d),
                Ok(_) => None,
            },
        }
    }
}

/// The rule for one variable of a `local` statement: its working type, or
/// its diagnostic.
pub open spec fn check_var(env: Env, v: LocalVariable) -> Result<Ty, Diag>
    decreases v,
{
    match (v.expr, v.explicit_type) {
        (None, Some(ty)) => Err(Diag::NotDefined(v.name@, describe(ty_of(ty)), v.name_span)),
        (Some(e), Some(ty)) => match infer(env, e) {
            Err(d) => Err(d),
            Ok(t) => if compatible(t, ty_of(ty)) {
                Ok(ty_of(ty))
            } else {
                Err(Diag::Mismatch(describe(t), describe(ty_of(ty)), anchor(v, ty)))
            },
        },
        (Some(e), None) => infer(env, e),
        (None, None) => Ok(Ty::Any),
    }
}

/// The declarations that a `local` statement adds, checked left to right,
/// each initializer in the scope before the statement.
pub open spec fn check_vars(env: Env, vs: Seq<LocalVariable>) -> Result<Env, Diag>
    decreases vs,
{
    if vs.len() == 0 {
        Ok(Seq::empty())
    } else {
        match check_vars(env, vs.drop_last()) {
            Err(d) => Err(d),
            Ok(b) => match check_var(env, vs.last()) {
                Err(d) => Err(d),
                Ok(t) => Ok(b.push((vs.last().name@, t))),
            },
        }
    }
}

/// The scope after a statement, or its first diagnostic.
pub open spec fn check_stat(env: Env, s: HirStat) -> Result<Env, Diag>
    decreases s,
{
    match s {
        HirStat::Local(a) => match check_vars(env, a.variables@) {
            Err(d) => Err(d),
            Ok(b) => Ok(env + b),
        },
        HirStat::LocalFunction { name, params, body, .. } => {
            let inner = env.push((name@, function_ty(params.len() as nat)));
            match check_stats(bind_params(inner, params@), body@) {
                Err(d) => Err(d),
                Ok(_) => Ok(inner),
            }
        },
        HirStat::Call(e) => match infer(env, e) {
            Err(d) => Err(d),
            Ok(_) => Ok(env),
        },
        HirStat::Do(body) => match check_stats(env, body@) {
            Err(d) => Err(d),
            Ok(_) => Ok(env),
        },
    }
}

/// The scope after a sequence of statements, or the first diagnostic.
pub open spec fn check_stats(env: Env, s: Seq<HirStat>) -> Result<Env, Diag>
    decreases s,
{
    if s.len() == 0 {
        Ok(env)
    } else {
        match check_stats(env, s.drop_last()) {
            Err(d) => Err(d),
            Ok(e2) => check_stat(e2, s.last()),
        }
    }
}

pub proof fn lemma_infer_list_prefix(env: Env, s: Seq<HirExpr>, k: int)
    requires
        0 <= k <= s.len(),
        infer_list(env, s.subrange(0, k)) is Some,
    ensures
        infer_list(env, s) == infer_list(env, s.subrange(0, k)),
    decreases s.len() - k,
{
    if k < s.len() {
        let next = s.subrange(0, k + 1);
        assert(next.drop_last() =~= s.subrange(0, k));
        lemma_infer_list_prefix(env, s, k + 1);
    } else {
        assert(s.subrange(0, k) =~= s);
    }
}

pub proof fn lemma_check_stats_prefix(env: Env, s: Seq<HirStat>, k: int)
    requires
        0 <= k <= s.len(),
        check_stats(env, s.subrange(0, k)) is Err,
    ensures
        check_stats(env, s) == check_stats(env, s.subrange(0, k)),
    decreases s.len() - k,
{
    if k < s.len() {
        let next = s.subrange(0, k + 1);
        assert(next.drop_last() =~= s.subrange(0, k));
        lemma_check_stats_prefix(env, s, k + 1);
    } else {
        assert(s.subrange(0, k) =~= s);
    }
}

pub proof fn lemma_check_vars_prefix(env: Env, s: Seq<LocalVariable>, k: int)
    requires
        0 <= k <= s.len(),
        check_vars(env, s.subrange(0, k)) is Err,
    ensures
        check_vars(env, s) == check_vars(env, s.subrange(0, k)),
    decreases s.len() - k,
{
    if k < s.len() {
        let next = s.subrange(0, k + 1);
        assert(next.drop_last() =~= s.subrange(0, k));
        lemma_check_vars_prefix(env, s, k + 1);
    } else {
        assert(s.subrange(0, k) =~= s);
    }
}

/// The outcome of analysing a block: success, or its first diagnostic.
pub open spec fn analysis(block: Seq<HirStat>) -> Result<(), Diag> {
    match check_stats(Seq::empty(), block) {
        Err(d) => Err(d),
        Ok(_) => Ok(()),
    }
}

/// `inner` holds the declarations of `outer` first, and perhaps more.
pub open spec fn extends(outer: Env, inner: Env) -> bool {
    inner.len() >= outer.len() && inner.subrange(0, outer.len() as int) == outer
}

pub proof fn lemma_extends_trans(a: Env, b: Env, c: Env)
    requires
        extends(a, b),
        extends(b, c),
    ensures
        extends(a, c),
{
    assert(c.subrange(0, a.len() as int) =~= b.subrange(0, a.len() as int));
}

/// A type that the analyzer has found for a value: a fixed one, or one that
/// an annotation of the bound tree states.
#[derive(Clone, Copy, Debug)]
pub enum Inferred<'a> {
    Any,
    Bool,
    Nil,
    Number,
    Str,
    Function(usize),
    Declared(&'a TypeInfo),
}

pub open spec fn inferred_ty<'a>(t: Inferred<'a>) -> Ty {
    match t {
        Inferred::Any => Ty::Any,
        Inferred::Bool => literal_ty(LiteralKind::Bool),
        Inferred::Nil => literal_ty(LiteralKind::Nil),
        Inferred::Number => literal_ty(LiteralKind::Number),
        Inferred::Str => literal_ty(LiteralKind::Str),
        Inferred::Function(n) => function_ty(n as nat),
        Inferred::Declared(d) => ty_of(*d),
    }
}

/// A declaration in scope.
pub struct Binding<'a> {
    pub name: String,
    pub ty: Inferred<'a>,
}

pub open spec fn binding_view<'a>(b: Binding<'a>) -> (Seq<char>, Ty) {
    (b.name@, inferred_ty(b.ty))
}

pub open spec fn bindings_view<'a>(s: Seq<Binding<'a>>) -> Env {
    s.map_values(|b: Binding<'a>| binding_view(b))
}

/// A reference type without arguments, such as `number`.
fn named_type(text: &str, span: Span) -> (r: TypeInfo)
    requires
        text@ != any_name(),
    ensures
        ty_of(r) == Ty::Named(text@, Seq::empty()),
{
    let name = Token { span, text: String::from_str(text) };
    TypeInfo::Reference(TypeReference { span, arguments: None, name })
}

/// The annotation `(any, ..., any) -> any` with `n` parameters.
fn function_type(n: usize, span: Span) -> (r: TypeInfo)
    ensures
        ty_of(r) == function_ty(n as nat),
{
    let mut parameters: Vec<TypeCallbackParameter> = Vec::new();
    let mut i: usize = 0;
    while i < n
        invariant
            0 <= i <= n,
            parameters.len() == i,
            forall|k: int| 0 <= k < i ==> #[trigger] ty_of(parameters@[k].type_info) == Ty::Any,
        decreases n - i,
    {
        proof {
            reveal_strlit("any");
        }
        let name = Token { span, text: String::from_str("any") };
        let any = TypeInfo::Reference(TypeReference { span, arguments: None, name });
        assert(ty_of(any) == Ty::Any) by {
            assert("any"@ =~= any_name());
        }
        parameters.push(TypeCallbackParameter { span, name: None, type_info: any });
        i += 1;
    }
    proof {
        reveal_strlit("any");
        lemma_param_tys_of(parameters@);
        assert(param_tys_of(parameters@) =~= Seq::new(n as nat, |i: int| Ty::Any));
    }
    let ret_name = Token { span, text: String::from_str("any") };
    let ret = TypeInfo::Reference(TypeReference { span, arguments: None, name: ret_name });
    assert(ty_of(ret) == Ty::Any) by {
        assert("any"@ =~= any_name());
    }
    TypeInfo::Callback(TypeCallback { span, parameters, return_type: Box::new(ret) })
}

/// An annotation for a type that is not `Declared`.
fn materialize<'a>(t: Inferred<'a>, span: Span) -> (r: TypeInfo)
    requires
        !(t is Declared),
    ensures
        ty_of(r) == inferred_ty(t),
{
    proof {
        reveal_strlit("any");
        reveal_strlit("boolean");
        reveal_strlit("nil");
        reveal_strlit("number");
        reveal_strlit("string");
        assert("boolean"@ =~= boolean_name());
        assert("nil"@ =~= nil_name());
        assert("number"@ =~= number_name());
        assert("string"@ =~= string_name());
        assert(nil_name()[0] != any_name()[0]);
    }
    match t {
        Inferred::Any => {
            let name = Token { span, text: String::from_str("any") };
            let r = TypeInfo::Reference(TypeReference { span, arguments: None, name });
            assert("any"@ =~= any_name());
            r
        },
        Inferred::Bool => named_type("boolean", span),
        Inferred::Nil => named_type("nil", span),
        Inferred::Number => named_type("number", span),
        Inferred::Str => named_type("string", span),
        Inferred::Function(n) => function_type(n, span),
        Inferred::Declared(_) => vstd::pervasive::unreached(),
    }
}

/// Decides whether a value of type `t` may stand where `target` is expected.
fn compat_inferred<'a>(t: Inferred<'a>, target: &TypeInfo, span: Span) -> (r: bool)
    ensures
        r == compatible(inferred_ty(t), ty_of(*target)),
{
    match t {
        Inferred::Declared(d) => compat_check(d, target, false),
        _ => {
            let m = materialize(t, span);
            compat_check(&m, target, false)
        },
    }
}

/// The description of `t`, as diagnostics show it.
fn describe_inferred<'a>(t: Inferred<'a>, span: Span) -> (r: String)
    ensures
        r@ == describe(inferred_ty(t)),
{
    match t {
        Inferred::Declared(d) => type_description(d),
        _ => {
            let m = materialize(t, span);
            type_description(&m)
        },
    }
}

/// Checks that a value of type `source` may stand where `target` is
/// expected; otherwise reports a mismatch of the two, anchored at `span`.
pub fn resolve_type(source: &TypeInfo, target: &TypeInfo, span: Span) -> (r: Result<(), AnalyzeError>)
    ensures
        r is Ok <==> compatible(ty_of(*source), ty_of(*target)),
        r is Err ==> r->Err_0@ == Diag::Mismatch(describe(ty_of(*source)), describe(ty_of(*target)), span),
{
    if compat_check(source, target, false) {
        Ok(())
    } else {
        Err(AnalyzeError::TypeMismatch { source: type_description(source), target: type_description(target), span })
    }
}

/// The analysis context: the declarations in scope, outermost first.
pub struct Analyzer<'a> {
    pub env: Vec<Binding<'a>>,
}

impl<'a> Analyzer<'a> {
    pub open spec fn scope(&self) -> Env {
        bindings_view(self.env@)
    }

    pub fn new() -> (r: Analyzer<'a>)
        ensures
            r.scope() == Seq::<(Seq<char>, Ty)>::empty(),
    {
        let r = Analyzer { env: Vec::new() };
        assert(r.scope() =~= Seq::<(Seq<char>, Ty)>::empty());
        r
    }

    fn declare(&mut self, name: String, ty: Inferred<'a>)
        ensures
            final(self).scope() == old(self).scope().push((name@, inferred_ty(ty))),
    {
        self.env.push(Binding { name, ty });
        assert(self.scope() =~= old(self).scope().push((name@, inferred_ty(ty))));
    }

    fn leave(&mut self, len: usize)
        requires
            len <= old(self).env.len(),
        ensures
            final(self).scope() == old(self).scope().subrange(0, len as int),
            final(self).env.len() == len,
    {
        self.env.truncate(len);
        assert(self.scope() =~= old(self).scope().subrange(0, len as int));
    }

    fn declare_params(&mut self, params: &Vec<String>)
        ensures
            final(self).scope() == bind_params(old(self).scope(), params@),
    {
        let mut i: usize = 0;
        while i < params.len()
            invariant
                0 <= i <= params.len(),
                self.scope() == old(self).scope() + params@.subrange(0, i as int).map_values(
                    |p: String| (p@, Ty::Any),
                ),
            decreases params.len() - i,
        {
            self.declare(params[i].clone(), Inferred::Any);
            assert(params@.subrange(0, i as int + 1).map_values(|p: String| (p@, Ty::Any))
                =~= params@.subrange(0, i as int).map_values(|p: String| (p@, Ty::Any)).push(
                (params@[i as int]@, Ty::Any),
            ));
            assert(self.scope() =~= old(self).scope() + params@.subrange(0, i as int + 1).map_values(
                |p: String| (p@, Ty::Any),
            ));
            i += 1;
        }
        assert(params@.subrange(0, params.len() as int) =~= params@);
    }

    /// The innermost declaration of `name`.
    pub fn lookup(&self, name: &String) -> (r: Option<Inferred<'a>>)
        ensures
            match r {
                Some(t) => lookup(self.scope(), name@) == Some(inferred_ty(t)),
                None => lookup(self.scope(), name@) is None,
            },
    {
        let mut i: usize = self.env.len();
        assert(self.scope().subrange(0, i as int) =~= self.scope());
        while i > 0
            invariant
                0 <= i <= self.env.len(),
                lookup(self.scope(), name@) == lookup(self.scope().subrange(0, i as int), name@),
            decreases i,
        {
            let ghost prefix = self.scope().subrange(0, i as int);
            assert(prefix.drop_last() =~= self.scope().subrange(0, i as int - 1));
            if self.env[i - 1].name == *name {
                return Some(self.env[i - 1].ty);
            }
            i -= 1;
        }
        None
    }

    /// Infers the type of an expression; the scope is left as it was.
    pub fn infer(&mut self, e: &'a HirExpr) -> (r: Result<Inferred<'a>, AnalyzeError>)
        ensures
            final(self).scope() == old(self).scope(),
            match r {
                Ok(t) => infer(old(self).scope(), *e) == Ok::<Ty, Diag>(inferred_ty(t)),
                Err(d) => infer(old(self).scope(), *e) == Err::<Ty, Diag>(d@),
            },
        decreases e,
    {
        match e {
            HirExpr::Literal { kind, .. } => match kind {
                LiteralKind::Bool => Ok(Inferred::Bool),
                LiteralKind::Nil => Ok(Inferred::Nil),
                LiteralKind::Number => Ok(Inferred::Number),
                LiteralKind::Str => Ok(Inferred::Str),
                LiteralKind::Varargs => Ok(Inferred::Any),
            },
            HirExpr::Name { name, span } => match self.lookup(name) {
                Some(t) => Ok(t),
                None => Err(AnalyzeError::Unresolved { name: name.clone(), span: *span }),
            },
            HirExpr::Call { callee, args, .. } => {
                match self.infer(callee) {
                    Err(d) => return Err(d),
                    Ok(_) => {},
                }
                match self.infer_list(args) {
                    Some(d) => Err(d),
                    None => Ok(Inferred::Any),
                }
            },
            HirExpr::Function { params, body, .. } => {
                let len = self.env.len();
                let ghost outer = self.scope();
                self.declare_params(params);
                assert(self.env.len() >= len) by {
                    assert(self.scope().len() == outer.len() + params@.len());
                }
                let r = self.check_stats(body);
                self.leave(len);
                assert(self.scope() =~= outer);
                match r {
                    Err(d) => Err(d),
                    Ok(()) => Ok(Inferred::Function(params.len())),
                }
            },
        }
    }

    /// The first diagnostic among `args`, left to right.
    fn infer_list(&mut self, args: &'a Vec<HirExpr>) -> (r: Option<AnalyzeError>)
        ensures
            final(self).scope() == old(self).scope(),
            match r {
                Some(d) => infer_list(old(self).scope(), args@) == Some(d@),
                None => infer_list(old(self).scope(), args@) is None,
            },
        decreases args,
    {
        let mut i: usize = 0;
        while i < args.len()
            invariant
                0 <= i <= args.len(),
                self.scope() == old(self).scope(),
                infer_list(old(self).scope(), args@.subrange(0, i as int)) is None,
            decreases args.len() - i,
        {
            let ghost next = args@.subrange(0, i as int + 1);
            assert(next.drop_last() =~= args@.subrange(0, i as int));
            match self.infer(&args[i]) {
                Err(d) => {
                    assert(infer_list(old(self).scope(), next) == Some(d@));
                    assert(args@.subrange(0, i as int + 1) == next);
                    proof {
                        lemma_infer_list_prefix(old(self).scope(), args@, i as int + 1);
                    }
                    return Some(d);
                },
                Ok(_) => {},
            }
            i += 1;
        }
        assert(args@.subrange(0, args.len() as int) =~= args@);
        None
    }

    /// Applies the rule for one variable of a `local` statement.
    fn check_var(&mut self, v: &'a LocalVariable) -> (r: Result<Inferred<'a>, AnalyzeError>)
        ensures
            final(self).scope() == old(self).scope(),
            match r {
                Ok(t) => check_var(old(self).scope(), *v) == Ok::<Ty, Diag>(inferred_ty(t)),
                Err(d) => check_var(old(self).scope(), *v) == Err::<Ty, Diag>(d@),
            },
        decreases v,
    {
        match (&v.expr, &v.explicit_type) {
            (None, Some(ty)) => Err(
                AnalyzeError::NotDefined {
                    variable: v.name.clone(),
                    explicit_type: type_description(ty),
                    span: v.name_span,
                },
            ),
            (Some(e), Some(ty)) => {
                let t = match self.infer(e) {
                    Err(d) => return Err(d),
                    Ok(t) => t,
                };
                let span = match v.expr_source {
                    Some(s) => s,
                    None => ty.span(),
                };
                if compat_inferred(t, ty, span) {
                    Ok(Inferred::Declared(ty))
                } else {
                    Err(
                        AnalyzeError::TypeMismatch {
                            source: describe_inferred(t, span),
                            target: type_description(ty),
                            span,
                        },
                    )
                }
            },
            (Some(e), None) => self.infer(e),
            (None, None) => Ok(Inferred::Any),
        }
    }

    /// Checks one statement; on success the scope is the one after it.
    pub fn check_stat(&mut self, s: &'a HirStat) -> (r: Result<(), AnalyzeError>)
        ensures
            extends(old(self).scope(), final(self).scope()),
            match r {
                Ok(()) => check_stat(old(self).scope(), *s) == Ok::<Env, Diag>(final(self).scope()),
                Err(d) => check_stat(old(self).scope(), *s) == Err::<Env, Diag>(d@),
            },
        decreases s,
    {
        match s {
            HirStat::Local(a) => {
                let ghost outer = self.scope();
                let r = a.validate(self);
                assert(self.scope() =~= outer + self.scope().subrange(outer.len() as int, self.scope().len() as int));
                r
            },
            HirStat::LocalFunction { name, params, body, .. } => {
                self.declare(name.clone(), Inferred::Function(params.len()));
                let len = self.env.len();
                let ghost inner = self.scope();
                self.declare_params(params);
                assert(self.env.len() >= len) by {
                    assert(self.scope().len() == inner.len() + params@.len());
                }
                let r = self.check_stats(body);
                self.leave(len);
                assert(self.scope() =~= inner);
                assert(self.scope().subrange(0, old(self).scope().len() as int) =~= old(self).scope());
                r
            },
            HirStat::Call(e) => {
                let r = self.infer(e);
                assert(self.scope().subrange(0, self.scope().len() as int) =~= self.scope());
                match r {
                    Err(d) => Err(d),
                    Ok(_) => Ok(()),
                }
            },
            HirStat::Do(body) => {
                let len = self.env.len();
                let ghost outer = self.scope();
                let r = self.check_stats(body);
                self.leave(len);
                assert(self.scope() =~= outer);
                assert(self.scope().subrange(0, outer.len() as int) =~= outer);
                r
            },
        }
    }

    /// Checks a sequence of statements in order; on success the scope is the
    /// one after the last of them.
    pub fn check_stats(&mut self, stats: &'a Vec<HirStat>) -> (r: Result<(), AnalyzeError>)
        ensures
            extends(old(self).scope(), final(self).scope()),
            match r {
                Ok(()) => check_stats(old(self).scope(), stats@) == Ok::<Env, Diag>(final(self).scope()),
                Err(d) => check_stats(old(self).scope(), stats@) == Err::<Env, Diag>(d@),
            },
        decreases stats,
    {
        let mut i: usize = 0;
        assert(self.scope().subrange(0, self.scope().len() as int) =~= self.scope());
        assert(stats@.subrange(0, 0) =~= Seq::<HirStat>::empty());
        while i < stats.len()
            invariant
                0 <= i <= stats.len(),
                check_stats(old(self).scope(), stats@.subrange(0, i as int)) == Ok::<Env, Diag>(self.scope()),
                extends(old(self).scope(), self.scope()),
            decreases stats.len() - i,
        {
            let ghost next = stats@.subrange(0, i as int + 1);
            assert(next.drop_last() =~= stats@.subrange(0, i as int));
            let ghost before = self.scope();
            let r = self.check_stat(&stats[i]);
            proof {
                lemma_extends_trans(old(self).scope(), before, self.scope());
            }
            match r {
                Err(d) => {
                    proof {
                        lemma_check_stats_prefix(old(self).scope(), stats@, i as int + 1);
                    }
                    return Err(d);
                },
                Ok(()) => {},
            }
            i += 1;
        }
        assert(stats@.subrange(0, stats.len() as int) =~= stats@);
        Ok(())
    }
}

/// Settings of one analysis run and the base path of the module; the
/// analysis only reads them.
pub struct Config {
    pub base_path: String,
}

impl Config {
    pub fn new(base_path: String) -> (r: Config)
        ensures
            r.base_path@ == base_path@,
    {
        Config { base_path }
    }
}

impl<'a> Analyzer<'a> {
    /// Analyses a bound block from an empty scope and returns its first
    /// diagnostic, if any. The outcome depends on the block alone: each run
    /// starts from a fresh context, so analysing the same block again gives
    /// the same outcome.
    pub fn analyze(_config: &Config, block: &'a Vec<HirStat>) -> (r: Result<(), AnalyzeError>)
        ensures
            match r {
                Ok(()) => analysis(block@) is Ok,
                Err(d) => analysis(block@) == Err::<(), Diag>(d@),
            },
    {
        let mut analyzer = Analyzer::new();
        match analyzer.check_stats(block) {
            Ok(()) => Ok(()),
            Err(d) => Err(d),
        }
    }
}

impl LocalAssign {
    /// Checks each variable in order by the `local` rule, then declares them
    /// all with their working types. On a diagnostic nothing is declared.
    pub fn validate<'a>(&'a self, analyzer: &mut Analyzer<'a>) -> (r: Result<(), AnalyzeError>)
        ensures
            extends(old(analyzer).scope(), final(analyzer).scope()),
            match r {
                Ok(()) => check_vars(old(analyzer).scope(), self.variables@) == Ok::<Env, Diag>(
                    final(analyzer).scope().subrange(old(analyzer).scope().len() as int, final(analyzer).scope().len() as int),
                ),
                Err(d) => check_vars(old(analyzer).scope(), self.variables@) == Err::<Env, Diag>(d@),
            },
        decreases self,
    {
        let ghost env = analyzer.scope();
        let mut pending: Vec<Binding<'a>> = Vec::new();
        let mut i: usize = 0;
        assert(self.variables@.subrange(0, 0) =~= Seq::<LocalVariable>::empty());
        assert(bindings_view(pending@) =~= Seq::<(Seq<char>, Ty)>::empty());
        while i < self.variables.len()
            invariant
                0 <= i <= self.variables.len(),
                analyzer.scope() == env,
                old(analyzer).scope() == env,
                check_vars(env, self.variables@.subrange(0, i as int)) == Ok::<Env, Diag>(bindings_view(pending@)),
            decreases self.variables.len() - i,
        {
            let variable = &self.variables[i];
            let ghost next = self.variables@.subrange(0, i as int + 1);
            assert(next.drop_last() =~= self.variables@.subrange(0, i as int));
            match analyzer.check_var(variable) {
                Err(d) => {
                    assert(next.last() == *variable);
                    assert(check_vars(env, next) == Err::<Env, Diag>(d@));
                    proof {
                        lemma_check_vars_prefix(env, self.variables@, i as int + 1);
                    }
                    assert(analyzer.scope().subrange(0, env.len() as int) =~= env);
                    return Err(d);
                },
                Ok(t) => {
                    let ghost before = pending@;
                    pending.push(Binding { name: variable.name.clone(), ty: t });
                    assert(bindings_view(pending@) =~= bindings_view(before).push((variable.name@, inferred_ty(t))));
                },
            }
            i += 1;
        }
        assert(self.variables@.subrange(0, self.variables.len() as int) =~= self.variables@);
        let mut j: usize = 0;
        while j < pending.len()
            invariant
                0 <= j <= pending.len(),
                old(analyzer).scope() == env,
                analyzer.scope() == env + bindings_view(pending@).subrange(0, j as int),
            decreases pending.len() - j,
        {
            analyzer.declare(pending[j].name.clone(), pending[j].ty);
            assert(env + bindings_view(pending@).subrange(0, j as int + 1)
                =~= (env + bindings_view(pending@).subrange(0, j as int)).push(binding_view(pending@[j as int])));
            j += 1;
        }
        let ghost added = bindings_view(pending@);
        assert(added.subrange(0, pending.len() as int) =~= added);
        assert(analyzer.scope().subrange(0, env.len() as int) =~= env);
        assert(analyzer.scope().subrange(env.len() as int, analyzer.scope().len() as int) =~= added);
        Ok(())
    }
}

} // verus!
