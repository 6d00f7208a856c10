use vstd::prelude::*;
use vstd::string::StringExecFns;
use crate::types::{TypeCallbackParameter, TypeInfo};

verus! {

broadcast use vstd::std_specs::vec::group_vec_axioms;

/// The resolved meaning of a type annotation: the type that the checker
/// compares. A reference named `any` resolves to `Ty::Any`.
pub enum Ty {
    Any,
    Named(Seq<char>, Seq<Ty>),
    Callback(Seq<Ty>, Box<Ty>),
}

pub open spec fn any_name() -> Seq<char> {
    seq!['a', 'n', 'y']
}

/// The resolved type of an annotation.
pub open spec fn ty_of(t: TypeInfo) -> Ty
    decreases t,
{
    match t {
        TypeInfo::Reference(r) => if r.name.text@ == any_name() {
            Ty::Any
        } else {
            match r.arguments {
                Some(v) => Ty::Named(r.name.text@, tys_of(v@)),
                None => Ty::Named(r.name.text@, Seq::empty()),
            }
        },
        TypeInfo::Callback(c) => Ty::Callback(param_tys_of(c.parameters@), Box::new(ty_of(*c.return_type))),
    }
}

pub open spec fn tys_of(s: Seq<TypeInfo>) -> Seq<Ty>
    decreases s,
{
    if s.len() == 0 {
        Seq::empty()
    } else {
        tys_of(s.drop_last()).push(ty_of(s.last()))
    }
}

pub open spec fn param_tys_of(s: Seq<TypeCallbackParameter>) -> Seq<Ty>
    decreases s,
{
    if s.len() == 0 {
        Seq::empty()
    } else {
        param_tys_of(s.drop_last()).push(ty_of(s.last().type_info))
    }
}

/// Type compatibility with a direction: when `flip` is false, whether a value
/// of type `x` may stand where `y` is expected; when true, the converse.
/// `any` is compatible with everything both ways. Named types need equal
/// names and pairwise compatible arguments of equal number; callbacks need
/// equally many parameters, each target parameter compatible with the
/// source's (contravariant), and a compatible return type (covariant).
pub open spec fn compat_dir(x: Ty, y: Ty, flip: bool) -> bool
    decreases x,
{
    match (x, y) {
        (Ty::Any, _) => true,
        (_, Ty::Any) => true,
        (Ty::Named(nx, ax), Ty::Named(ny, ay)) => nx == ny && compat_seq(ax, ay, flip),
        (Ty::Callback(px, rx), Ty::Callback(py, ry)) => compat_seq(px, py, !flip) && compat_dir(*rx, *ry, flip),
        _ => false,
    }
}

/// How a type is written in a diagnostic: `name`, `name<a, b>`, or
/// `(a, b) -> r`.
pub open spec fn describe(t: Ty) -> Seq<char>
    decreases t,
{
    match t {
        Ty::Any => any_name(),
        Ty::Named(n, args) => if args.len() == 0 {
            n
        } else {
            n + seq!['<'] + describe_list(args) + seq!['>']
        },
        Ty::Callback(params, ret) => seq!['('] + describe_list(params) + seq![')', ' ', '-', '>', ' ']
            + describe(*ret),
    }
}

/// The descriptions of a list of types, separated by `, `.
pub open spec fn describe_list(s: Seq<Ty>) -> Seq<char>
    decreases s,
{
    if s.len() == 0 {
        Seq::empty()
    } else if s.len() == 1 {
        describe(s[0])
    } else {
        describe_list(s.drop_last()) + seq![',', ' '] + describe(s.last())
    }
}

/// Pairwise `compat_dir` of two lists of equal length.
pub open spec fn compat_seq(xs: Seq<Ty>, ys: Seq<Ty>, flip: bool) -> bool
    decreases xs,
{
    xs.len() == ys.len() && forall|i: int| 0 <= i < xs.len() ==> compat_dir(#[trigger] xs[i], ys[i], flip)
}

/// Whether a value of type `source` may stand where `target` is expected.
pub open spec fn compatible(source: Ty, target: Ty) -> bool {
    compat_dir(source, target, false)
}

pub proof fn lemma_tys_of(s: Seq<TypeInfo>)
    ensures
        tys_of(s).len() == s.len(),
        forall|i: int| 0 <= i < s.len() ==> #[trigger] tys_of(s)[i] == ty_of(s[i]),
    decreases s.len(),
{
    if s.len() > 0 {
        lemma_tys_of(s.drop_last());
    }
}

pub proof fn lemma_param_tys_of(s: Seq<TypeCallbackParameter>)
    ensures
        param_tys_of(s).len() == s.len(),
        forall|i: int| 0 <= i < s.len() ==> #[trigger] param_tys_of(s)[i] == ty_of(s[i].type_info),
    decreases s.len(),
{
    if s.len() > 0 {
        lemma_param_tys_of(s.drop_last());
    }
}

/// A type is compatible with itself, in either direction.
pub proof fn lemma_compat_reflexive(t: Ty, flip: bool)
    ensures
        compat_dir(t, t, flip),
    decreases t,
{
    match t {
        Ty::Any => {},
        Ty::Named(n, a) => {
            assert forall|i: int| 0 <= i < a.len() implies compat_dir(#[trigger] a[i], a[i], flip) by {
                lemma_compat_reflexive(a[i], flip);
            }
            assert(compat_seq(a, a, flip));
        },
        Ty::Callback(p, r) => {
            assert forall|i: int| 0 <= i < p.len() implies compat_dir(#[trigger] p[i], p[i], !flip) by {
                lemma_compat_reflexive(p[i], !flip);
            }
            assert(compat_seq(p, p, !flip));
            lemma_compat_reflexive(*r, flip);
        },
    }
}

/// Every annotation is compatible with itself.
pub proof fn lemma_resolve_type_reflexive(t: TypeInfo)
    ensures
        compatible(ty_of(t), ty_of(t)),
{
    lemma_compat_reflexive(ty_of(t), false);
}

/// Callback variance: a callback whose parameters are all `any` may stand
/// wherever a callback of the same arity with the same return type is
/// expected, whatever that callback's parameter types are.
pub proof fn lemma_callback_variance(params: Seq<Ty>, ret: Ty)
    ensures
        compatible(
            Ty::Callback(Seq::new(params.len(), |i: int| Ty::Any), Box::new(ret)),
            Ty::Callback(params, Box::new(ret)),
        ),
{
    let loose = Seq::new(params.len(), |i: int| Ty::Any);
    assert forall|i: int| 0 <= i < loose.len() implies compat_dir(#[trigger] loose[i], params[i], true) by {}
    assert(compat_seq(loose, params, true));
    lemma_compat_reflexive(ret, false);
}

fn is_any(t: &TypeInfo) -> (r: bool)
    ensures
        r == (ty_of(*t) is Any),
{
    match t {
        TypeInfo::Reference(r) => {
            let text = &r.name.text;
            let any = String::from_str("any");
            proof {
                reveal_strlit("any");
            }
            assert(any@ =~= any_name());
            *text == any
        },
        TypeInfo::Callback(_) => false,
    }
}

fn append_str(acc: &mut String, s: &str)
    ensures
        final(acc)@ == old(acc)@ + s@,
{
    acc.append(s);
}

/// Renders the descriptions of a list of annotations.
fn describe_infos(xs: &Vec<TypeInfo>) -> (r: String)
    ensures
        r@ == describe_list(tys_of(xs@)),
    decreases xs,
{
    proof {
        lemma_tys_of(xs@);
        reveal_strlit(", ");
        assert(", "@ =~= seq![',', ' ']);
    }
    let mut acc = String::new();
    let mut i: usize = 0;
    while i < xs.len()
        invariant
            0 <= i <= xs.len(),
            tys_of(xs@).len() == xs.len(),
            forall|k: int| 0 <= k < xs.len() ==> #[trigger] tys_of(xs@)[k] == ty_of(xs@[k]),
            acc@ == describe_list(tys_of(xs@).subrange(0, i as int)),
        decreases xs.len() - i,
    {
        let d = type_description(&xs[i]);
        let ghost prefix = tys_of(xs@).subrange(0, i as int);
        let ghost next = tys_of(xs@).subrange(0, i as int + 1);
        assert(next.drop_last() =~= prefix);
        assert(next.last() == ty_of(xs@[i as int]));
        if i > 0 {
            proof {
                reveal_strlit(", ");
                assert(", "@ =~= seq![',', ' ']);
            }
            append_str(&mut acc, ", ");
            assert(describe_list(next) == describe_list(prefix) + seq![',', ' '] + describe(next.last()));
        } else {
            assert(describe_list(next) == describe(next[0]));
        }
        append_str(&mut acc, d.as_str());
        i += 1;
    }
    assert(tys_of(xs@).subrange(0, xs.len() as int) =~= tys_of(xs@));
    acc
}

/// Renders the descriptions of a callback's parameter types.
fn describe_params(xs: &Vec<TypeCallbackParameter>) -> (r: String)
    ensures
        r@ == describe_list(param_tys_of(xs@)),
    decreases xs,
{
    proof {
        lemma_param_tys_of(xs@);
        reveal_strlit(", ");
        assert(", "@ =~= seq![',', ' ']);
    }
    let mut acc = String::new();
    let mut i: usize = 0;
    while i < xs.len()
        invariant
            0 <= i <= xs.len(),
            param_tys_of(xs@).len() == xs.len(),
            forall|k: int| 0 <= k < xs.len() ==> #[trigger] param_tys_of(xs@)[k] == ty_of(xs@[k].type_info),
            acc@ == describe_list(param_tys_of(xs@).subrange(0, i as int)),
        decreases xs.len() - i,
    {
        let d = type_description(&xs[i].type_info);
        let ghost prefix = param_tys_of(xs@).subrange(0, i as int);
        let ghost next = param_tys_of(xs@).subrange(0, i as int + 1);
        assert(next.drop_last() =~= prefix);
        assert(next.last() == ty_of(xs@[i as int].type_info));
        if i > 0 {
            proof {
                reveal_strlit(", ");
                assert(", "@ =~= seq![',', ' ']);
            }
            append_str(&mut acc, ", ");
            assert(describe_list(next) == describe_list(prefix) + seq![',', ' '] + describe(next.last()));
        } else {
            assert(describe_list(next) == describe(next[0]));
        }
        append_str(&mut acc, d.as_str());
        i += 1;
    }
    assert(param_tys_of(xs@).subrange(0, xs.len() as int) =~= param_tys_of(xs@));
    acc
}

/// The human-readable description of an annotation, as diagnostics show it.
pub fn type_description(t: &TypeInfo) -> (r: String)
    ensures
        r@ == describe(ty_of(*t)),
    decreases t,
{
    if is_any(t) {
        proof {
            reveal_strlit("any");
        }
        let r = String::from_str("any");
        assert(r@ =~= any_name());
        return r;
    }
    match t {
        TypeInfo::Reference(rx) => {
            let mut acc = rx.name.text.clone();
            match &rx.arguments {
                Some(args) => {
                    proof {
                        lemma_tys_of(args@);
                        reveal_strlit("<");
                        reveal_strlit(">");
                    }
                    if args.len() > 0 {
                        let inner = describe_infos(args);
                        append_str(&mut acc, "<");
                        append_str(&mut acc, inner.as_str());
                        append_str(&mut acc, ">");
                    }
                },
                None => {},
            }
            acc
        },
        TypeInfo::Callback(cb) => {
            proof {
                reveal_strlit("(");
                reveal_strlit(") -> ");
            }
            let mut acc = String::from_str("(");
            let params = describe_params(&cb.parameters);
            append_str(&mut acc, params.as_str());
            append_str(&mut acc, ") -> ");
            let ret = type_description(&cb.return_type);
            append_str(&mut acc, ret.as_str());
            acc
        },
    }
}

/// Decides `compat_seq` on two lists of annotations.
fn list_compat(xs: &Vec<TypeInfo>, ys: &Vec<TypeInfo>, flip: bool) -> (r: bool)
    ensures
        r == compat_seq(tys_of(xs@), tys_of(ys@), flip),
    decreases xs,
{
    proof {
        lemma_tys_of(xs@);
        lemma_tys_of(ys@);
    }
    if xs.len() != ys.len() {
        return false;
    }
    let mut i: usize = 0;
    while i < xs.len()
        invariant
            0 <= i <= xs.len(),
            xs.len() == ys.len(),
            tys_of(xs@).len() == xs.len(),
            tys_of(ys@).len() == ys.len(),
            forall|k: int| 0 <= k < xs.len() ==> #[trigger] tys_of(xs@)[k] == ty_of(xs@[k]),
            forall|k: int| 0 <= k < ys.len() ==> #[trigger] tys_of(ys@)[k] == ty_of(ys@[k]),
            forall|k: int| 0 <= k < i ==> compat_dir(#[trigger] tys_of(xs@)[k], tys_of(ys@)[k], flip),
        decreases xs.len() - i,
    {
        assert(tys_of(xs@)[i as int] == ty_of(xs@[i as int]));
        assert(tys_of(ys@)[i as int] == ty_of(ys@[i as int]));
        if !compat_check(&xs[i], &ys[i], flip) {
            assert(!compat_dir(tys_of(xs@)[i as int], tys_of(ys@)[i as int], flip));
            return false;
        }
        i += 1;
    }
    true
}

/// Decides `compat_seq` on the parameter types of two callbacks.
fn params_compat(xs: &Vec<TypeCallbackParameter>, ys: &Vec<TypeCallbackParameter>, flip: bool) -> (r: bool)
    ensures
        r == compat_seq(param_tys_of(xs@), param_tys_of(ys@), flip),
    decreases xs,
{
    proof {
        lemma_param_tys_of(xs@);
        lemma_param_tys_of(ys@);
    }
    if xs.len() != ys.len() {
        return false;
    }
    let mut i: usize = 0;
    while i < xs.len()
        invariant
            0 <= i <= xs.len(),
            xs.len() == ys.len(),
            param_tys_of(xs@).len() == xs.len(),
            param_tys_of(ys@).len() == ys.len(),
            forall|k: int| 0 <= k < xs.len() ==> #[trigger] param_tys_of(xs@)[k] == ty_of(xs@[k].type_info),
            forall|k: int| 0 <= k < ys.len() ==> #[trigger] param_tys_of(ys@)[k] == ty_of(ys@[k].type_info),
            forall|k: int| 0 <= k < i ==> compat_dir(#[trigger] param_tys_of(xs@)[k], param_tys_of(ys@)[k], flip),
        decreases xs.len() - i,
    {
        assert(param_tys_of(xs@)[i as int] == ty_of(xs@[i as int].type_info));
        assert(param_tys_of(ys@)[i as int] == ty_of(ys@[i as int].type_info));
        if !compat_check(&xs[i].type_info, &ys[i].type_info, flip) {
            assert(!compat_dir(param_tys_of(xs@)[i as int], param_tys_of(ys@)[i as int], flip));
            return false;
        }
        i += 1;
    }
    true
}

/// Decides `compat_dir` on two annotations.
pub fn compat_check(x: &TypeInfo, y: &TypeInfo, flip: bool) -> (r: bool)
    ensures
        r == compat_dir(ty_of(*x), ty_of(*y), flip),
    decreases x,
{
    if is_any(x) || is_any(y) {
        return true;
    }
    match (x, y) {
        (TypeInfo::Reference(rx), TypeInfo::Reference(ry)) => {
            if !(rx.name.text == ry.name.text) {
                return false;
            }
            match (&rx.arguments, &ry.arguments) {
                (Some(ax), Some(ay)) => list_compat(ax, ay, flip),
                (Some(ax), None) => {
                    proof {
                        lemma_tys_of(ax@);
                    }
                    assert(compat_seq(tys_of(ax@), Seq::empty(), flip) == (ax.len() == 0));
                    ax.len() == 0
                },
                (None, Some(ay)) => {
                    proof {
                        lemma_tys_of(ay@);
                    }
                    assert(compat_seq(Seq::empty(), tys_of(ay@), flip) == (ay.len() == 0));
                    ay.len() == 0
                },
                (None, None) => {
                    assert(compat_seq(Seq::<Ty>::empty(), Seq::<Ty>::empty(), flip));
                    true
                },
            }
        },
        (TypeInfo::Callback(cx), TypeInfo::Callback(cy)) => {
            params_compat(&cx.parameters, &cy.parameters, !flip)
                && compat_check(&cx.return_type, &cy.return_type, flip)
        },
        _ => false,
    }
}

} // verus!
