use vstd::prelude::*;

verus! {

/// A half-open range `[start, end)` of source offsets.
#[derive(Clone, Copy, Debug, PartialEq, Eq)]
pub struct Span {
    pub start: usize,
    pub end: usize,
}

pub open spec fn min_usize(a: usize, b: usize) -> usize {
    if a <= b { a } else { b }
}

pub open spec fn max_usize(a: usize, b: usize) -> usize {
    if a >= b { a } else { b }
}

impl Span {
    pub open spec fn wf(self) -> bool {
        self.start <= self.end
    }

    /// The smallest span covering both `a` and `b`.
    pub open spec fn cover(a: Span, b: Span) -> Span {
        Span { start: min_usize(a.start, b.start), end: max_usize(a.end, b.end) }
    }

    pub fn new(start: usize, end: usize) -> (r: Span)
        ensures
            r.start == start,
            r.end == end,
    {
        Span { start, end }
    }

    pub fn start(&self) -> (r: usize)
        ensures
            r == self.start,
    {
        self.start
    }

    pub fn end(&self) -> (r: usize)
        ensures
            r == self.end,
    {
        self.end
    }

    pub fn from_two_spans(a: Span, b: Span) -> (r: Span)
        ensures
            r == Span::cover(a, b),
            a.wf() && b.wf() ==> r.wf(),
            r.start <= a.start && r.start <= b.start,
            r.end >= a.end && r.end >= b.end,
    {
        let start = if a.start <= b.start { a.start } else { b.start };
        let end = if a.end >= b.end { a.end } else { b.end };
        Span { start, end }
    }
}

/// A lexical unit: its text and where it stands in the source.
#[derive(Clone, Debug, PartialEq)]
pub struct Token {
    pub span: Span,
    pub text: String,
}

impl Token {
    pub fn new(span: Span, text: String) -> (r: Token)
        ensures
            r.span == span,
            r.text@ == text@,
    {
        Token { span, text }
    }

    pub fn span(&self) -> (r: Span)
        ensures
            r == self.span,
    {
        self.span
    }
}

/// Every node of the syntax tree reports the source range it covers.
pub trait Node {
    spec fn span_of(&self) -> Span;

    fn span(&self) -> (r: Span)
        ensures
            r == self.span_of(),
    ;
}

impl Node for Token {
    open spec fn span_of(&self) -> Span {
        self.span
    }

    fn span(&self) -> (r: Span) {
        self.span
    }
}

/// The span of a list of nodes: from the first node's start to the last
/// node's end, or `Span(0, 0)` for an empty list.
pub open spec fn list_span<N: Node>(s: Seq<N>) -> Span {
    if s.len() == 0 {
        Span { start: 0, end: 0 }
    } else {
        Span { start: s[0].span_of().start, end: s.last().span_of().end }
    }
}

pub fn vector_span<N: Node>(vec: &[N]) -> (r: Span)
    ensures
        r == list_span(vec@),
{
    if vec.len() == 0 {
        Span { start: 0, end: 0 }
    } else {
        let first = vec[0].span().start;
        let last = vec[vec.len() - 1].span().end;
        Span { start: first, end: last }
    }
}

} // verus!
