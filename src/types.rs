use vstd::prelude::*;
use crate::span::{Node, Span, Token};

verus! {

/// A generic parameter of a type declaration: `Name [: constraint] [= default]`.
#[derive(Debug, PartialEq)]
pub struct TypeParameter {
    pub span: Span,
    pub name: Token,
    pub typ: Option<TypeInfo>,
    pub default: Option<TypeInfo>,
}

/// One parameter of a callback type: `[Name :] TypeInfo`.
#[derive(Debug, PartialEq)]
pub struct TypeCallbackParameter {
    pub span: Span,
    pub name: Option<Token>,
    pub type_info: TypeInfo,
}

/// A callback type: `(params) -> return_type`.
#[derive(Debug, PartialEq)]
pub struct TypeCallback {
    pub span: Span,
    pub parameters: Vec<TypeCallbackParameter>,
    pub return_type: Box<TypeInfo>,
}

/// A named type with optional generic arguments: `Name [<args>]`.
#[derive(Debug, PartialEq)]
pub struct TypeReference {
    pub span: Span,
    pub arguments: Option<Vec<TypeInfo>>,
    pub name: Token,
}

/// A type annotation as written in the source.
#[derive(Debug, PartialEq)]
pub enum TypeInfo {
    Callback(TypeCallback),
    Reference(TypeReference),
}

impl TypeParameter {
    pub fn new(span: Span, name: Token, typ: Option<TypeInfo>, default: Option<TypeInfo>) -> (r: TypeParameter)
        ensures
            r == (TypeParameter { span, name, typ, default }),
    {
        TypeParameter { span, name, typ, default }
    }

    pub fn name(&self) -> (r: &Token)
        ensures
            r == &self.name,
    {
        &self.name
    }

    pub fn typ(&self) -> (r: &Option<TypeInfo>)
        ensures
            r == &self.typ,
    {
        &self.typ
    }

    pub fn default(&self) -> (r: &Option<TypeInfo>)
        ensures
            r == &self.default,
    {
        &self.default
    }
}

impl Node for TypeParameter {
    open spec fn span_of(&self) -> Span {
        self.span
    }

    fn span(&self) -> (r: Span) {
        self.span
    }
}

impl TypeCallbackParameter {
    pub fn new(span: Span, name: Option<Token>, type_info: TypeInfo) -> (r: TypeCallbackParameter)
        ensures
            r == (TypeCallbackParameter { span, name, type_info }),
    {
        TypeCallbackParameter { span, name, type_info }
    }

    pub fn name(&self) -> (r: &Option<Token>)
        ensures
            r == &self.name,
    {
        &self.name
    }

    pub fn type_info(&self) -> (r: &TypeInfo)
        ensures
            r == &self.type_info,
    {
        &self.type_info
    }
}

impl Node for TypeCallbackParameter {
    open spec fn span_of(&self) -> Span {
        self.span
    }

    fn span(&self) -> (r: Span) {
        self.span
    }
}

impl TypeCallback {
    pub fn new(span: Span, parameters: Vec<TypeCallbackParameter>, return_type: Box<TypeInfo>) -> (r: TypeCallback)
        ensures
            r == (TypeCallback { span, parameters, return_type }),
    {
        TypeCallback { span, parameters, return_type }
    }

    pub fn parameters(&self) -> (r: &Vec<TypeCallbackParameter>)
        ensures
            r == &self.parameters,
    {
        &self.parameters
    }

    pub fn return_type(&self) -> (r: &TypeInfo)
        ensures
            *r == *self.return_type,
    {
        &self.return_type
    }
}

impl Node for TypeCallback {
    open spec fn span_of(&self) -> Span {
        self.span
    }

    fn span(&self) -> (r: Span) {
        self.span
    }
}

impl TypeReference {
    pub fn new(span: Span, arguments: Option<Vec<TypeInfo>>, name: Token) -> (r: TypeReference)
        ensures
            r == (TypeReference { span, arguments, name }),
    {
        TypeReference { span, arguments, name }
    }

    pub fn arguments(&self) -> (r: &Option<Vec<TypeInfo>>)
        ensures
            r == &self.arguments,
    {
        &self.arguments
    }

    pub fn name(&self) -> (r: &Token)
        ensures
            r == &self.name,
    {
        &self.name
    }
}

impl Node for TypeReference {
    open spec fn span_of(&self) -> Span {
        self.span
    }

    fn span(&self) -> (r: Span) {
        self.span
    }
}

pub open spec fn type_info_span(t: TypeInfo) -> Span {
    match t {
        TypeInfo::Callback(node) => node.span,
        TypeInfo::Reference(node) => node.span,
    }
}

impl Node for TypeInfo {
    open spec fn span_of(&self) -> Span {
        type_info_span(*self)
    }

    fn span(&self) -> (r: Span) {
        match self {
            TypeInfo::Callback(node) => node.span(),
            TypeInfo::Reference(node) => node.span(),
        }
    }
}

} // verus!
