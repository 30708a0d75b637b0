use vstd::prelude::*;

use crate::ast::{Arg, FnDecl, FunctionRetTy, Span, Ty};
use crate::convert::ToIdent;
use crate::ctx::{intern_post, Ctx, Ident};
use crate::path::single_segment;
use crate::ty::TyBuilder;

verus! {

/// `a` has name `x`, is stamped with `sp`, and its type is the single identifier `t` at `sp`.
pub open spec fn arg_of_named_ty(a: Arg, sp: Span, x: Ident, t: Ident) -> bool {
    &&& a.span == sp
    &&& a.ident == x
    &&& a.ty.span == sp
    &&& a.ty.kind is Path
    &&& single_segment(a.ty.kind->Path_0, sp, t)
}

/// Builds one function argument: its name first, then its type.
pub struct ArgBuilder {
    pub span: Span,
    pub ident: Ident,
}

impl ArgBuilder {
    pub fn new<I: ToIdent>(ctx: &mut Ctx, id: I, span: Span) -> (r: ArgBuilder)
        requires
            old(ctx).wf(),
            id.ident_ok(old(ctx)@),
        ensures
            final(ctx).wf(),
            intern_post(old(ctx)@, id.ident_text(old(ctx)@), final(ctx)@, r.ident.name),
            r.span == span,
    {
        ArgBuilder { span, ident: id.to_ident(ctx) }
    }

    pub fn span(self, span: Span) -> (r: ArgBuilder)
        ensures
            r.span == span,
            r.ident == self.ident,
    {
        ArgBuilder { span, ident: self.ident }
    }

    pub fn build_ty(self, ty: Ty) -> (r: Arg)
        ensures
            r.span == self.span,
            r.ident == self.ident,
            r.ty == ty,
    {
        Arg { span: self.span, ident: self.ident, ty }
    }

    /// Finishes the argument with the type named by the identifier `id`.
    pub fn ty_id<I: ToIdent>(self, ctx: &mut Ctx, id: I) -> (r: Arg)
        requires
            old(ctx).wf(),
            id.ident_ok(old(ctx)@),
        ensures
            final(ctx).wf(),
            r.ty.kind is Path,
            arg_of_named_ty(r, self.span, self.ident, r.ty.kind->Path_0.segments@[0]),
            intern_post(
                old(ctx)@,
                id.ident_text(old(ctx)@),
                final(ctx)@,
                r.ty.kind->Path_0.segments@[0].name,
            ),
    {
        let span = self.span;
        let ty = TyBuilder::new(span).id(ctx, id);
        self.build_ty(ty)
    }
}

/// Accumulates the arguments of a function declaration in order; finishing it requires
/// a choice of return type, or of none.
pub struct FnDeclBuilder {
    pub span: Span,
    pub inputs: Vec<Arg>,
}

impl FnDeclBuilder {
    pub fn new(span: Span) -> (r: FnDeclBuilder)
        ensures
            r.span == span,
            r.inputs@ == Seq::<Arg>::empty(),
    {
        FnDeclBuilder { span, inputs: Vec::new() }
    }

    pub fn span(self, span: Span) -> (r: FnDeclBuilder)
        ensures
            r.span == span,
            r.inputs == self.inputs,
    {
        FnDeclBuilder { span, inputs: self.inputs }
    }

    pub fn with_arg(self, arg: Arg) -> (r: FnDeclBuilder)
        ensures
            r.span == self.span,
            r.inputs@ == self.inputs@.push(arg),
    {
        let mut inputs = self.inputs;
        inputs.push(arg);
        FnDeclBuilder { span: self.span, inputs }
    }

    /// Appends `args`, keeping their order.
    pub fn with_args(self, args: Vec<Arg>) -> (r: FnDeclBuilder)
        ensures
            r.span == self.span,
            r.inputs@ == self.inputs@ + args@,
    {
        let mut inputs = self.inputs;
        let mut rest = args;
        inputs.append(&mut rest);
        FnDeclBuilder { span: self.span, inputs }
    }

    /// Starts an argument that, once typed, is appended here; it takes this builder's span.
    pub fn arg<I: ToIdent>(self, ctx: &mut Ctx, id: I) -> (r: FnDeclArgBuilder)
        requires
            old(ctx).wf(),
            id.ident_ok(old(ctx)@),
        ensures
            final(ctx).wf(),
            r.parent == self,
            intern_post(old(ctx)@, id.ident_text(old(ctx)@), final(ctx)@, r.arg.ident.name),
            r.arg.span == self.span,
    {
        let span = self.span;
        let arg = ArgBuilder::new(ctx, id, span);
        FnDeclArgBuilder { parent: self, arg }
    }

    /// Finishes with no return type written.
    pub fn default_return(self) -> (r: FnDecl)
        ensures
            r.inputs == self.inputs,
            r.output == FunctionRetTy::Default(self.span),
    {
        FnDecl { inputs: self.inputs, output: FunctionRetTy::Default(self.span) }
    }

    /// Finishes with the return type `ty`.
    pub fn build_output(self, ty: Ty) -> (r: FnDecl)
        ensures
            r.inputs == self.inputs,
            r.output == FunctionRetTy::Ty(ty),
    {
        FnDecl { inputs: self.inputs, output: FunctionRetTy::Ty(ty) }
    }
}

/// An argument builder nested in a function-declaration builder; giving the type
/// hands control back to the declaration builder.
pub struct FnDeclArgBuilder {
    pub parent: FnDeclBuilder,
    pub arg: ArgBuilder,
}

impl FnDeclArgBuilder {
    pub fn span(self, span: Span) -> (r: FnDeclArgBuilder)
        ensures
            r.parent == self.parent,
            r.arg.span == span,
            r.arg.ident == self.arg.ident,
    {
        FnDeclArgBuilder { parent: self.parent, arg: self.arg.span(span) }
    }

    pub fn build_ty(self, ty: Ty) -> (r: FnDeclBuilder)
        ensures
            r.span == self.parent.span,
            r.inputs@ == self.parent.inputs@.push(Arg { span: self.arg.span, ident: self.arg.ident, ty }),
    {
        let a = self.arg.build_ty(ty);
        self.parent.with_arg(a)
    }

    pub fn ty_id<I: ToIdent>(self, ctx: &mut Ctx, id: I) -> (r: FnDeclBuilder)
        requires
            old(ctx).wf(),
            id.ident_ok(old(ctx)@),
        ensures
            final(ctx).wf(),
            r.span == self.parent.span,
            r.inputs@.len() == self.parent.inputs@.len() + 1,
            r.inputs@.drop_last() == self.parent.inputs@,
            r.inputs@.last().ty.kind is Path,
            arg_of_named_ty(
                r.inputs@.last(),
                self.arg.span,
                self.arg.ident,
                r.inputs@.last().ty.kind->Path_0.segments@[0],
            ),
            intern_post(
                old(ctx)@,
                id.ident_text(old(ctx)@),
                final(ctx)@,
                r.inputs@.last().ty.kind->Path_0.segments@[0].name,
            ),
    {
        let a = self.arg.ty_id(ctx, id);
        let r = self.parent.with_arg(a);
        assert(r.inputs@.drop_last() =~= self.parent.inputs@);
        r
    }
}

/// Arguments appended one by one to an empty declaration read back in the order given.
pub proof fn lemma_args_keep_order(
    b0: FnDeclBuilder,
    x1: Arg,
    b1: FnDeclBuilder,
    x2: Arg,
    b2: FnDeclBuilder,
    x3: Arg,
    b3: FnDeclBuilder,
    d: FnDecl,
)
    requires
        b0.inputs@ == Seq::<Arg>::empty(),
        b1.inputs@ == b0.inputs@.push(x1),
        b2.inputs@ == b1.inputs@.push(x2),
        b3.inputs@ == b2.inputs@.push(x3),
        d.inputs == b3.inputs,
    ensures
        d.inputs@ == seq![x1, x2, x3],
{
    assert(d.inputs@ =~= seq![x1, x2, x3]);
}

} // verus!
