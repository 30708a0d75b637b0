use vstd::prelude::*;

use crate::ctx::Ident;

verus! {

/// A source location, or the sentinel for "no location".
#[derive(Clone, Copy, Debug, PartialEq, Eq, Hash, Structural)]
pub enum Span {
    NoLocation,
    At { lo: u32, hi: u32 },
}

/// A path such as `a::b::c`; `global` marks a leading `::`.
#[derive(Clone, Debug, PartialEq, Eq)]
pub struct Path {
    pub span: Span,
    pub global: bool,
    pub segments: Vec<Ident>,
}

#[derive(Debug, PartialEq, Eq)]
pub enum TyKind {
    Path(Path),
    Tup(Vec<Ty>),
    Ref(Box<Ty>),
    Infer,
}

#[derive(Debug, PartialEq, Eq)]
pub struct Ty {
    pub span: Span,
    pub kind: TyKind,
}

/// A type parameter: its name, the trait paths that bound it, and an optional default.
#[derive(Debug, PartialEq, Eq)]
pub struct TyParam {
    pub span: Span,
    pub ident: Ident,
    pub bounds: Vec<Path>,
    pub default: Option<Ty>,
}

#[derive(Debug, PartialEq, Eq)]
pub struct Generics {
    pub span: Span,
    pub ty_params: Vec<TyParam>,
}

#[derive(Debug, PartialEq, Eq)]
pub enum ExprKind {
    Path(Path),
    Int(u64),
    Tup(Vec<Expr>),
    Call(Box<Expr>, Vec<Expr>),
    Block(Box<Block>),
}

#[derive(Debug, PartialEq, Eq)]
pub struct Expr {
    pub span: Span,
    pub kind: ExprKind,
}

#[derive(Debug, PartialEq, Eq)]
pub enum StmtKind {
    /// `let ident: ty = init;`, the type and the initialiser each optional.
    Let(Ident, Option<Ty>, Option<Expr>),
    /// An expression without a trailing `;`.
    Expr(Expr),
    /// An expression followed by `;`.
    Semi(Expr),
}

#[derive(Debug, PartialEq, Eq)]
pub struct Stmt {
    pub span: Span,
    pub kind: StmtKind,
}

/// A block: its statements in order, and the optional trailing expression.
#[derive(Debug, PartialEq, Eq)]
pub struct Block {
    pub span: Span,
    pub stmts: Vec<Stmt>,
    pub expr: Option<Box<Expr>>,
}

#[derive(Debug, PartialEq, Eq)]
pub struct Arg {
    pub span: Span,
    pub ident: Ident,
    pub ty: Ty,
}

/// What a function returns: nothing written (`Default`, at a span), or a type.
#[derive(Debug, PartialEq, Eq)]
pub enum FunctionRetTy {
    Default(Span),
    Ty(Ty),
}

#[derive(Debug, PartialEq, Eq)]
pub struct FnDecl {
    pub inputs: Vec<Arg>,
    pub output: FunctionRetTy,
}

#[derive(Debug, PartialEq, Eq)]
pub struct Method {
    pub span: Span,
    pub ident: Ident,
    pub generics: Generics,
    pub decl: FnDecl,
    pub body: Block,
}

#[derive(Debug, PartialEq, Eq)]
pub struct StructField {
    pub span: Span,
    pub ident: Ident,
    pub ty: Ty,
}

/// The one body an item has: a function or a struct.
#[derive(Debug, PartialEq, Eq)]
pub enum ItemKind {
    Fn(FnDecl, Generics, Block),
    Struct(Vec<StructField>, Generics),
}

#[derive(Debug, PartialEq, Eq)]
pub struct Item {
    pub span: Span,
    pub ident: Ident,
    pub kind: ItemKind,
}

} // verus!
