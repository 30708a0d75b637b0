use vstd::prelude::*;

use crate::ast::{Block, Expr, Span, Stmt, StmtKind, Ty};
use crate::convert::ToIdent;
use crate::ctx::{intern_post, Ctx, Ident};

verus! {

/// Builds one statement node, stamped with the builder's span.
pub struct StmtBuilder {
    pub span: Span,
}

impl StmtBuilder {
    pub fn new(span: Span) -> (r: StmtBuilder)
        ensures
            r.span == span,
    {
        StmtBuilder { span }
    }

    pub fn span(self, span: Span) -> (r: StmtBuilder)
        ensures
            r.span == span,
    {
        StmtBuilder { span }
    }

    /// An expression statement without a trailing `;`.
    pub fn build_expr(self, expr: Expr) -> (r: Stmt)
        ensures
            r.span == self.span,
            r.kind == StmtKind::Expr(expr),
    {
        Stmt { span: self.span, kind: StmtKind::Expr(expr) }
    }

    /// An expression statement followed by `;`.
    pub fn build_semi(self, expr: Expr) -> (r: Stmt)
        ensures
            r.span == self.span,
            r.kind == StmtKind::Semi(expr),
    {
        Stmt { span: self.span, kind: StmtKind::Semi(expr) }
    }

    /// Starts `let id ...;`; the binding takes this builder's span.
    pub fn let_id<I: ToIdent>(self, ctx: &mut Ctx, id: I) -> (r: StmtLetBuilder)
        requires
            old(ctx).wf(),
            id.ident_ok(old(ctx)@),
        ensures
            final(ctx).wf(),
            intern_post(old(ctx)@, id.ident_text(old(ctx)@), final(ctx)@, r.ident.name),
            r.span == self.span,
            r.ty is None,
    {
        StmtLetBuilder { span: self.span, ident: id.to_ident(ctx), ty: None }
    }
}

/// A `let` statement under construction.
pub struct StmtLetBuilder {
    pub span: Span,
    pub ident: Ident,
    pub ty: Option<Ty>,
}

impl StmtLetBuilder {
    pub fn span(self, span: Span) -> (r: StmtLetBuilder)
        ensures
            r.span == span,
            r.ident == self.ident,
            r.ty == self.ty,
    {
        StmtLetBuilder { span, ..self }
    }

    /// Gives the binding a type annotation.
    pub fn with_ty(self, ty: Ty) -> (r: StmtLetBuilder)
        ensures
            r.span == self.span,
            r.ident == self.ident,
            r.ty == Some(ty),
    {
        StmtLetBuilder { span: self.span, ident: self.ident, ty: Some(ty) }
    }

    /// `let` without an initialiser.
    pub fn build(self) -> (r: Stmt)
        ensures
            r.span == self.span,
            r.kind == StmtKind::Let(self.ident, self.ty, None),
    {
        Stmt { span: self.span, kind: StmtKind::Let(self.ident, self.ty, None) }
    }

    /// `let` with the initialiser `init`.
    pub fn build_expr(self, init: Expr) -> (r: Stmt)
        ensures
            r.span == self.span,
            r.kind == StmtKind::Let(self.ident, self.ty, Some(init)),
    {
        Stmt { span: self.span, kind: StmtKind::Let(self.ident, self.ty, Some(init)) }
    }
}

/// Accumulates the statements of a block, in order, then takes an optional tail expression.
pub struct BlockBuilder {
    pub span: Span,
    pub stmts: Vec<Stmt>,
}

impl BlockBuilder {
    pub fn new(span: Span) -> (r: BlockBuilder)
        ensures
            r.span == span,
            r.stmts@ == Seq::<Stmt>::empty(),
    {
        BlockBuilder { span, stmts: Vec::new() }
    }

    pub fn span(self, span: Span) -> (r: BlockBuilder)
        ensures
            r.span == span,
            r.stmts == self.stmts,
    {
        BlockBuilder { span, stmts: self.stmts }
    }

    pub fn with_stmt(self, stmt: Stmt) -> (r: BlockBuilder)
        ensures
            r.span == self.span,
            r.stmts@ == self.stmts@.push(stmt),
    {
        let mut stmts = self.stmts;
        stmts.push(stmt);
        BlockBuilder { span: self.span, stmts }
    }

    /// Appends `stmts`, keeping their order.
    pub fn with_stmts(self, stmts: Vec<Stmt>) -> (r: BlockBuilder)
        ensures
            r.span == self.span,
            r.stmts@ == self.stmts@ + stmts@,
    {
        let mut all = self.stmts;
        let mut rest = stmts;
        all.append(&mut rest);
        BlockBuilder { span: self.span, stmts: all }
    }

    /// Finishes the block without a tail expression.
    pub fn build(self) -> (r: Block)
        ensures
            r.span == self.span,
            r.stmts == self.stmts,
            r.expr is None,
    {
        Block { span: self.span, stmts: self.stmts, expr: None }
    }

    /// Finishes the block with `expr` as its value.
    pub fn build_expr(self, expr: Expr) -> (r: Block)
        ensures
            r.span == self.span,
            r.stmts == self.stmts,
            r.expr is Some,
            *r.expr->Some_0 == expr,
    {
        Block { span: self.span, stmts: self.stmts, expr: Some(Box::new(expr)) }
    }
}

} // verus!
