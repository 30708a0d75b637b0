use vstd::prelude::*;

use crate::ast::{Block, Expr, ExprKind, Path, Span};
use crate::convert::ToIdent;
use crate::ctx::{intern_post, Ctx};
use crate::path::{single_segment, PathBuilder};

verus! {

/// Builds one expression node, stamped with the builder's span.
pub struct ExprBuilder {
    pub span: Span,
}

impl ExprBuilder {
    pub fn new(span: Span) -> (r: ExprBuilder)
        ensures
            r.span == span,
    {
        ExprBuilder { span }
    }

    pub fn span(self, span: Span) -> (r: ExprBuilder)
        ensures
            r.span == span,
    {
        ExprBuilder { span }
    }

    pub fn build_path(self, path: Path) -> (r: Expr)
        ensures
            r.span == self.span,
            r.kind == ExprKind::Path(path),
    {
        Expr { span: self.span, kind: ExprKind::Path(path) }
    }

    /// The expression naming the single identifier `id`, such as a local variable.
    pub fn id<I: ToIdent>(self, ctx: &mut Ctx, id: I) -> (r: Expr)
        requires
            old(ctx).wf(),
            id.ident_ok(old(ctx)@),
        ensures
            final(ctx).wf(),
            r.span == self.span,
            r.kind is Path,
            single_segment(r.kind->Path_0, self.span, r.kind->Path_0.segments@[0]),
            intern_post(
                old(ctx)@,
                id.ident_text(old(ctx)@),
                final(ctx)@,
                r.kind->Path_0.segments@[0].name,
            ),
    {
        let span = self.span;
        let path = PathBuilder::new(span).id(ctx, id).build();
        assert(path.segments@ =~= seq![path.segments@[0]]);
        self.build_path(path)
    }

    /// An integer literal.
    pub fn int_lit(self, value: u64) -> (r: Expr)
        ensures
            r.span == self.span,
            r.kind == ExprKind::Int(value),
    {
        Expr { span: self.span, kind: ExprKind::Int(value) }
    }

    /// The unit value `()`.
    pub fn unit(self) -> (r: Expr)
        ensures
            r.span == self.span,
            r.kind is Tup,
            r.kind->Tup_0@ == Seq::<Expr>::empty(),
    {
        Expr { span: self.span, kind: ExprKind::Tup(Vec::new()) }
    }

    pub fn build_tuple(self, exprs: Vec<Expr>) -> (r: Expr)
        ensures
            r.span == self.span,
            r.kind == ExprKind::Tup(exprs),
    {
        Expr { span: self.span, kind: ExprKind::Tup(exprs) }
    }

    pub fn build_block(self, block: Block) -> (r: Expr)
        ensures
            r.span == self.span,
            r.kind is Block,
            *r.kind->Block_0 == block,
    {
        Expr { span: self.span, kind: ExprKind::Block(Box::new(block)) }
    }

    /// Starts a call of `callee`; the arguments follow one by one.
    pub fn call(self, callee: Expr) -> (r: ExprCallBuilder)
        ensures
            r.span == self.span,
            r.callee == callee,
            r.args@ == Seq::<Expr>::empty(),
    {
        ExprCallBuilder { span: self.span, callee, args: Vec::new() }
    }
}

/// Accumulates the arguments of a call, in order.
pub struct ExprCallBuilder {
    pub span: Span,
    pub callee: Expr,
    pub args: Vec<Expr>,
}

impl ExprCallBuilder {
    pub fn with_arg(self, arg: Expr) -> (r: ExprCallBuilder)
        ensures
            r.span == self.span,
            r.callee == self.callee,
            r.args@ == self.args@.push(arg),
    {
        let mut args = self.args;
        args.push(arg);
        ExprCallBuilder { span: self.span, callee: self.callee, args }
    }

    pub fn build(self) -> (r: Expr)
        ensures
            r.span == self.span,
            r.kind is Call,
            *r.kind->Call_0 == self.callee,
            r.kind->Call_1 == self.args,
    {
        Expr { span: self.span, kind: ExprKind::Call(Box::new(self.callee), self.args) }
    }
}

} // verus!
