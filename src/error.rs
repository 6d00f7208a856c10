use vstd::prelude::*;
use vstd::string::StringExecFns;
use crate::span::Span;

verus! {

/// A diagnostic as a mathematical value: texts as character sequences.
pub enum Diag {
    NotDefined(Seq<char>, Seq<char>, Span),
    Mismatch(Seq<char>, Seq<char>, Span),
    Unresolved(Seq<char>, Span),
}

/// A diagnostic of the analyzer: its kind, the names and type descriptions
/// it reports, and the source range it points at.
#[derive(Clone, Debug, PartialEq)]
pub enum AnalyzeError {
    /// A variable has a type annotation but no initializer to check it against.
    NotDefined { variable: String, explicit_type: String, span: Span },
    /// A value of type `source` stands where `target` is expected.
    TypeMismatch { source: String, target: String, span: Span },
    /// A name is used that no enclosing scope declares.
    Unresolved { name: String, span: Span },
}

impl View for AnalyzeError {
    type V = Diag;

    open spec fn view(&self) -> Diag {
        match self {
            AnalyzeError::NotDefined { variable, explicit_type, span } => Diag::NotDefined(
                variable@,
                explicit_type@,
                *span,
            ),
            AnalyzeError::TypeMismatch { source, target, span } => Diag::Mismatch(source@, target@, *span),
            AnalyzeError::Unresolved { name, span } => Diag::Unresolved(name@, *span),
        }
    }
}

pub open spec fn tick() -> Seq<char> {
    seq!['`']
}

/// The human-readable message of a diagnostic.
pub open spec fn message_of(d: Diag) -> Seq<char> {
    match d {
        Diag::NotDefined(v, t, _) => tick() + v + "` is declared as `"@ + t + "` but has no value"@,
        Diag::Mismatch(s, t, _) => "expected `"@ + t + "`, found `"@ + s + tick(),
        Diag::Unresolved(n, _) => tick() + n + "` is not defined"@,
    }
}

fn push(acc: &mut String, s: &str)
    ensures
        final(acc)@ == old(acc)@ + s@,
{
    acc.append(s);
}

impl AnalyzeError {
    /// Renders the diagnostic as a message for a person to read.
    pub fn message(&self) -> (r: String)
        ensures
            r@ == message_of(self@),
    {
        proof {
            reveal_strlit("`");
            assert("`"@ =~= tick());
        }
        match self {
            AnalyzeError::NotDefined { variable, explicit_type, .. } => {
                let mut acc = String::from_str("`");
                push(&mut acc, variable.as_str());
                push(&mut acc, "` is declared as `");
                push(&mut acc, explicit_type.as_str());
                push(&mut acc, "` but has no value");
                acc
            },
            AnalyzeError::TypeMismatch { source, target, .. } => {
                let mut acc = String::from_str("expected `");
                push(&mut acc, target.as_str());
                push(&mut acc, "`, found `");
                push(&mut acc, source.as_str());
                push(&mut acc, "`");
                acc
            },
            AnalyzeError::Unresolved { name, .. } => {
                let mut acc = String::from_str("`");
                push(&mut acc, name.as_str());
                push(&mut acc, "` is not defined");
                acc
            },
        }
    }

    pub fn span(&self) -> (r: Span)
        ensures
            r == match self@ {
                Diag::NotDefined(_, _, s) => s,
                Diag::Mismatch(_, _, s) => s,
                Diag::Unresolved(_, s) => s,
            },
    {
        match self {
            AnalyzeError::NotDefined { span, .. } => *span,
            AnalyzeError::TypeMismatch { span, .. } => *span,
            AnalyzeError::Unresolved { span, .. } => *span,
        }
    }
}

} // verus!
