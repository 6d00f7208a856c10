use vstd::prelude::*;
use crate::hir::{HirExpr, HirStat, LocalVariable};
use crate::span::Span;

verus! {

broadcast use vstd::std_specs::vec::group_vec_axioms;

/// The binder's state as a mathematical value: every declaration met so far
/// (name and span, in order of appearance), the indices of those in scope
/// (outermost first), and every name use met so far with the declaration it
/// resolves to.
pub struct BindState {
    pub decls: Seq<(Seq<char>, Span)>,
    pub scope: Seq<usize>,
    pub uses: Seq<(Seq<char>, Span, Option<usize>)>,
}

impl BindState {
    /// Every index in scope names a declaration, and every resolved use
    /// refers to a declaration of the same name.
    pub open spec fn wf(self) -> bool {
        &&& forall|k: int| 0 <= k < self.scope.len() ==> #[trigger] self.scope[k] < self.decls.len()
        &&& forall|k: int|
            0 <= k < self.uses.len() && (#[trigger] self.uses[k]).2 is Some ==> {
                let i = self.uses[k].2->0;
                i < self.decls.len() && self.decls[i as int].0 == self.uses[k].0
            }
    }

    /// `later` keeps the declarations of `self` and may add more.
    pub open spec fn grows_to(self, later: BindState) -> bool {
        later.decls.len() >= self.decls.len() && later.decls.subrange(0, self.decls.len() as int) == self.decls
    }
}

pub proof fn lemma_grows_trans(a: BindState, b: BindState, c: BindState)
    requires
        a.grows_to(b),
        b.grows_to(c),
    ensures
        a.grows_to(c),
{
    assert(c.decls.subrange(0, a.decls.len() as int) =~= b.decls.subrange(0, a.decls.len() as int));
}

/// Going back to an outer scope keeps the state well formed.
pub proof fn lemma_leave_scope(outer: BindState, inner: BindState)
    requires
        outer.wf(),
        inner.wf(),
        outer.grows_to(inner),
    ensures
        with_scope(inner, outer.scope).wf(),
        outer.grows_to(with_scope(inner, outer.scope)),
{
}

/// The innermost declaration in `scope` named `name`.
pub open spec fn resolve(decls: Seq<(Seq<char>, Span)>, scope: Seq<usize>, name: Seq<char>) -> Option<usize>
    decreases scope.len(),
{
    if scope.len() == 0 {
        None
    } else if scope.last() < decls.len() && decls[scope.last() as int].0 == name {
        Some(scope.last())
    } else {
        resolve(decls, scope.drop_last(), name)
    }
}

pub open spec fn declare(st: BindState, name: Seq<char>, span: Span) -> BindState {
    BindState {
        decls: st.decls.push((name, span)),
        scope: st.scope.push(st.decls.len() as usize),
        uses: st.uses,
    }
}

/// Declares each parameter, all at the span of their function.
pub open spec fn declare_all(st: BindState, names: Seq<String>, span: Span) -> BindState
    decreases names.len(),
{
    if names.len() == 0 {
        st
    } else {
        declare(declare_all(st, names.drop_last(), span), names.last()@, span)
    }
}

/// Leaves a nested scope: the scope goes back to `outer`, and what was
/// declared and used inside stays recorded.
pub open spec fn with_scope(st: BindState, outer: Seq<usize>) -> BindState {
    BindState { decls: st.decls, scope: outer, uses: st.uses }
}

pub open spec fn bind_expr(st: BindState, e: HirExpr) -> BindState
    decreases e,
{
    match e {
        HirExpr::Literal { .. } => st,
        HirExpr::Name { name, span } => BindState {
            decls: st.decls,
            scope: st.scope,
            uses: st.uses.push((name@, span, resolve(st.decls, st.scope, name@))),
        },
        HirExpr::Call { callee, args, .. } => bind_exprs(bind_expr(st, *callee), args@),
        HirExpr::Function { params, body, span } => with_scope(
            bind_stats(declare_all(st, params@, span), body@),
            st.scope,
        ),
    }
}

pub open spec fn bind_exprs(st: BindState, s: Seq<HirExpr>) -> BindState
    decreases s,
{
    if s.len() == 0 {
        st
    } else {
        bind_expr(bind_exprs(st, s.drop_last()), s.last())
    }
}

/// Binds the initializers of a `local` statement, in the scope before it.
pub open spec fn bind_inits(st: BindState, vs: Seq<LocalVariable>) -> BindState
    decreases vs,
{
    if vs.len() == 0 {
        st
    } else {
        let prev = bind_inits(st, vs.drop_last());
        match vs.last().expr {
            Some(e) => bind_expr(prev, e),
            None => prev,
        }
    }
}

/// Declares the variables of a `local` statement, in order.
pub open spec fn declare_vars(st: BindState, vs: Seq<LocalVariable>) -> BindState
    decreases vs.len(),
{
    if vs.len() == 0 {
        st
    } else {
        declare(declare_vars(st, vs.drop_last()), vs.last().name@, vs.last().name_span)
    }
}

pub open spec fn bind_stat(st: BindState, s: HirStat) -> BindState
    decreases s,
{
    match s {
        HirStat::Local(a) => declare_vars(bind_inits(st, a.variables@), a.variables@),
        HirStat::LocalFunction { name, name_span, params, body } => {
            let named = declare(st, name@, name_span);
            with_scope(bind_stats(declare_all(named, params@, name_span), body@), named.scope)
        },
        HirStat::Call(e) => bind_expr(st, e),
        HirStat::Do(body) => with_scope(bind_stats(st, body@), st.scope),
    }
}

pub open spec fn bind_stats(st: BindState, s: Seq<HirStat>) -> BindState
    decreases s,
{
    if s.len() == 0 {
        st
    } else {
        bind_stat(bind_stats(st, s.drop_last()), s.last())
    }
}

/// A declaration: its name and where the name stands.
pub struct Declaration {
    pub name: String,
    pub span: Span,
}

/// A use of a name and the declaration it refers to, if any is in scope.
pub struct NameUse {
    pub name: String,
    pub span: Span,
    pub decl: Option<usize>,
}

/// Builds the scopes of a bound block and resolves every name in it.
pub struct Binder {
    pub decls: Vec<Declaration>,
    pub scope: Vec<usize>,
    pub uses: Vec<NameUse>,
}

pub open spec fn decls_view(s: Seq<Declaration>) -> Seq<(Seq<char>, Span)> {
    s.map_values(|d: Declaration| (d.name@, d.span))
}

pub open spec fn uses_view(s: Seq<NameUse>) -> Seq<(Seq<char>, Span, Option<usize>)> {
    s.map_values(|u: NameUse| (u.name@, u.span, u.decl))
}

impl View for Binder {
    type V = BindState;

    open spec fn view(&self) -> BindState {
        BindState { decls: decls_view(self.decls@), scope: self.scope@, uses: uses_view(self.uses@) }
    }
}

impl Binder {
    /// Binds a block from an empty scope.
    pub fn new(block: &Vec<HirStat>) -> (r: Binder)
        ensures
            r@ == bind_stats(BindState { decls: Seq::empty(), scope: Seq::empty(), uses: Seq::empty() }, block@),
            r@.wf(),
    {
        let mut b = Binder { decls: Vec::new(), scope: Vec::new(), uses: Vec::new() };
        assert(decls_view(b.decls@) =~= Seq::empty());
        assert(uses_view(b.uses@) =~= Seq::empty());
        assert(b.scope@ =~= Seq::empty());
        b.bind_stats(block);
        b
    }

    /// The innermost declaration in scope named `name`.
    pub fn resolve(&self, name: &String) -> (r: Option<usize>)
        ensures
            r == resolve(self@.decls, self@.scope, name@),
            r is Some ==> r->0 < self@.decls.len() && self@.decls[r->0 as int].0 == name@,
    {
        let mut i: usize = self.scope.len();
        assert(self.scope@.subrange(0, i as int) =~= self.scope@);
        while i > 0
            invariant
                0 <= i <= self.scope.len(),
                resolve(self@.decls, self@.scope, name@) == resolve(self@.decls, self.scope@.subrange(0, i as int), name@),
            decreases i,
        {
            let ghost prefix = self.scope@.subrange(0, i as int);
            assert(prefix.drop_last() =~= self.scope@.subrange(0, i as int - 1));
            let idx = self.scope[i - 1];
            if idx < self.decls.len() && self.decls[idx].name == *name {
                return Some(idx);
            }
            i -= 1;
        }
        None
    }

    fn declare(&mut self, name: String, span: Span)
        ensures
            old(self)@.wf() ==> final(self)@.wf(),
            old(self)@.grows_to(final(self)@),
            final(self)@ == declare(old(self)@, name@, span),
    {
        let index = self.decls.len();
        self.decls.push(Declaration { name, span });
        self.scope.push(index);
        assert(decls_view(self.decls@) =~= decls_view(old(self).decls@).push((name@, span)));
        assert(uses_view(self.uses@) == uses_view(old(self).uses@));
        assert(self@.decls.subrange(0, old(self)@.decls.len() as int) =~= old(self)@.decls);
        assert(old(self)@.wf() ==> self@.wf()) by {
            if old(self)@.wf() {
                assert forall|k: int| 0 <= k < self@.scope.len() implies #[trigger] self@.scope[k] < self@.decls.len() by {
                    if k < old(self)@.scope.len() {
                        assert(self@.scope[k] == old(self)@.scope[k]);
                    }
                }
                assert forall|k: int|
                    0 <= k < self@.uses.len() && (#[trigger] self@.uses[k]).2 is Some implies {
                        let i = self@.uses[k].2->0;
                        i < self@.decls.len() && self@.decls[i as int].0 == self@.uses[k].0
                    } by {
                    let i = self@.uses[k].2->0;
                    assert(self@.decls[i as int] == old(self)@.decls[i as int]);
                }
            }
        }
    }

    fn declare_all(&mut self, names: &Vec<String>, span: Span)
        ensures
            old(self)@.wf() ==> final(self)@.wf(),
            old(self)@.grows_to(final(self)@),
            final(self)@ == declare_all(old(self)@, names@, span),
    {
        let mut i: usize = 0;
        assert(self@.decls.subrange(0, self@.decls.len() as int) =~= self@.decls);
        assert(names@.subrange(0, 0) =~= Seq::<String>::empty());
        while i < names.len()
            invariant
                0 <= i <= names.len(),
                self@ == declare_all(old(self)@, names@.subrange(0, i as int), span),
                old(self)@.wf() ==> self@.wf(),
                old(self)@.grows_to(self@),
            decreases names.len() - i,
        {
            assert(names@.subrange(0, i as int + 1).drop_last() =~= names@.subrange(0, i as int));
            let ghost before = self@;
            self.declare(names[i].clone(), span);
            proof {
                lemma_grows_trans(old(self)@, before, self@);
            }
            i += 1;
        }
        assert(names@.subrange(0, names.len() as int) =~= names@);
    }

    fn copy_scope(&self) -> (r: Vec<usize>)
        ensures
            r@ == self.scope@,
    {
        let mut r: Vec<usize> = Vec::new();
        let mut i: usize = 0;
        while i < self.scope.len()
            invariant
                0 <= i <= self.scope.len(),
                r@ == self.scope@.subrange(0, i as int),
            decreases self.scope.len() - i,
        {
            r.push(self.scope[i]);
            assert(r@ =~= self.scope@.subrange(0, i as int + 1));
            i += 1;
        }
        assert(self.scope@.subrange(0, i as int) =~= self.scope@);
        r
    }

    fn bind_expr(&mut self, e: &HirExpr)
        ensures
            old(self)@.wf() ==> final(self)@.wf(),
            old(self)@.grows_to(final(self)@),
            final(self)@ == bind_expr(old(self)@, *e),
        decreases e,
    {
        assert(self@.decls.subrange(0, self@.decls.len() as int) =~= self@.decls);
        match e {
            HirExpr::Literal { .. } => {},
            HirExpr::Name { name, span } => {
                let decl = self.resolve(name);
                self.uses.push(NameUse { name: name.clone(), span: *span, decl });
                assert(uses_view(self.uses@) =~= uses_view(old(self).uses@).push((name@, *span, decl)));
            },
            HirExpr::Call { callee, args, .. } => {
                self.bind_expr(callee);
                let ghost called = self@;
                self.bind_exprs(args);
                proof {
                    lemma_grows_trans(old(self)@, called, self@);
                }
            },
            HirExpr::Function { params, body, span } => {
                let outer = self.copy_scope();
                self.declare_all(params, *span);
                let ghost declared = self@;
                self.bind_stats(body);
                proof {
                    lemma_grows_trans(old(self)@, declared, self@);
                    if old(self)@.wf() {
                        lemma_leave_scope(old(self)@, self@);
                    }
                }
                self.scope = outer;
                assert(self@ =~= bind_expr(old(self)@, *e));
            },
        }
    }

    fn bind_exprs(&mut self, s: &Vec<HirExpr>)
        ensures
            old(self)@.wf() ==> final(self)@.wf(),
            old(self)@.grows_to(final(self)@),
            final(self)@ == bind_exprs(old(self)@, s@),
        decreases s,
    {
        let mut i: usize = 0;
        assert(self@.decls.subrange(0, self@.decls.len() as int) =~= self@.decls);
        assert(s@.subrange(0, 0) =~= Seq::<HirExpr>::empty());
        while i < s.len()
            invariant
                0 <= i <= s.len(),
                self@ == bind_exprs(old(self)@, s@.subrange(0, i as int)),
                old(self)@.wf() ==> self@.wf(),
                old(self)@.grows_to(self@),
            decreases s.len() - i,
        {
            assert(s@.subrange(0, i as int + 1).drop_last() =~= s@.subrange(0, i as int));
            let ghost before = self@;
            self.bind_expr(&s[i]);
            proof {
                lemma_grows_trans(old(self)@, before, self@);
            }
            i += 1;
        }
        assert(s@.subrange(0, s.len() as int) =~= s@);
    }

    fn bind_inits(&mut self, vs: &Vec<LocalVariable>)
        ensures
            old(self)@.wf() ==> final(self)@.wf(),
            old(self)@.grows_to(final(self)@),
            final(self)@ == bind_inits(old(self)@, vs@),
        decreases vs,
    {
        let mut i: usize = 0;
        assert(self@.decls.subrange(0, self@.decls.len() as int) =~= self@.decls);
        assert(vs@.subrange(0, 0) =~= Seq::<LocalVariable>::empty());
        while i < vs.len()
            invariant
                0 <= i <= vs.len(),
                self@ == bind_inits(old(self)@, vs@.subrange(0, i as int)),
                old(self)@.wf() ==> self@.wf(),
                old(self)@.grows_to(self@),
            decreases vs.len() - i,
        {
            assert(vs@.subrange(0, i as int + 1).drop_last() =~= vs@.subrange(0, i as int));
            let ghost before = self@;
            match &vs[i].expr {
                Some(e) => self.bind_expr(e),
                None => {},
            }
            proof {
                assert(self@.decls.subrange(0, self@.decls.len() as int) =~= self@.decls);
                lemma_grows_trans(old(self)@, before, self@);
            }
            i += 1;
        }
        assert(vs@.subrange(0, vs.len() as int) =~= vs@);
    }

    fn declare_vars(&mut self, vs: &Vec<LocalVariable>)
        ensures
            old(self)@.wf() ==> final(self)@.wf(),
            old(self)@.grows_to(final(self)@),
            final(self)@ == declare_vars(old(self)@, vs@),
    {
        let mut i: usize = 0;
        assert(self@.decls.subrange(0, self@.decls.len() as int) =~= self@.decls);
        assert(vs@.subrange(0, 0) =~= Seq::<LocalVariable>::empty());
        while i < vs.len()
            invariant
                0 <= i <= vs.len(),
                self@ == declare_vars(old(self)@, vs@.subrange(0, i as int)),
                old(self)@.wf() ==> self@.wf(),
                old(self)@.grows_to(self@),
            decreases vs.len() - i,
        {
            assert(vs@.subrange(0, i as int + 1).drop_last() =~= vs@.subrange(0, i as int));
            let ghost before = self@;
            self.declare(vs[i].name.clone(), vs[i].name_span);
            proof {
                lemma_grows_trans(old(self)@, before, self@);
            }
            i += 1;
        }
        assert(vs@.subrange(0, vs.len() as int) =~= vs@);
    }

    fn bind_stat(&mut self, s: &HirStat)
        ensures
            old(self)@.wf() ==> final(self)@.wf(),
            old(self)@.grows_to(final(self)@),
            final(self)@ == bind_stat(old(self)@, *s),
        decreases s,
    {
        match s {
            HirStat::Local(a) => {
                self.bind_inits(&a.variables);
                let ghost inits = self@;
                self.declare_vars(&a.variables);
                proof {
                    lemma_grows_trans(old(self)@, inits, self@);
                }
            },
            HirStat::LocalFunction { name, name_span, params, body } => {
                self.declare(name.clone(), *name_span);
                let ghost named = self@;
                let outer = self.copy_scope();
                self.declare_all(params, *name_span);
                let ghost declared = self@;
                self.bind_stats(body);
                proof {
                    lemma_grows_trans(named, declared, self@);
                    lemma_grows_trans(old(self)@, named, self@);
                    if old(self)@.wf() {
                        lemma_leave_scope(named, self@);
                    }
                }
                self.scope = outer;
                assert(self@ =~= bind_stat(old(self)@, *s));
            },
            HirStat::Call(e) => self.bind_expr(e),
            HirStat::Do(body) => {
                let outer = self.copy_scope();
                self.bind_stats(body);
                proof {
                    if old(self)@.wf() {
                        lemma_leave_scope(old(self)@, self@);
                    }
                }
                self.scope = outer;
                assert(self@ =~= bind_stat(old(self)@, *s));
            },
        }
    }

    fn bind_stats(&mut self, s: &Vec<HirStat>)
        ensures
            old(self)@.wf() ==> final(self)@.wf(),
            old(self)@.grows_to(final(self)@),
            final(self)@ == bind_stats(old(self)@, s@),
        decreases s,
    {
        let mut i: usize = 0;
        assert(self@.decls.subrange(0, self@.decls.len() as int) =~= self@.decls);
        assert(s@.subrange(0, 0) =~= Seq::<HirStat>::empty());
        while i < s.len()
            invariant
                0 <= i <= s.len(),
                self@ == bind_stats(old(self)@, s@.subrange(0, i as int)),
                old(self)@.wf() ==> self@.wf(),
                old(self)@.grows_to(self@),
            decreases s.len() - i,
        {
            assert(s@.subrange(0, i as int + 1).drop_last() =~= s@.subrange(0, i as int));
            let ghost before = self@;
            self.bind_stat(&s[i]);
            proof {
                lemma_grows_trans(old(self)@, before, self@);
            }
            i += 1;
        }
        assert(s@.subrange(0, s.len() as int) =~= s@);
    }
}

} // verus!
