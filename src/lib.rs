pub mod ast;
pub mod convert;
pub mod ctx;
pub mod expr;
pub mod fn_decl;
pub mod generics;
pub mod item;
pub mod path;
pub mod stmt;
pub mod ty;

pub use ast::Span;
pub use convert::{ToIdent, ToName};
pub use ctx::{Ctx, Ident, Name};
use vstd::prelude::*;

use ast::{Generics, TyParam};
use ctx::intern_post;

verus! {

/// The entry point: holds the ambient span and seeds every builder it starts with it.
/// Interning goes through the `Ctx` handed to each call that takes text.
///
/// Every builder is taken by value by each setter and by its finishing call, so a
/// finished builder no longer exists: a further call on it does not compile.
#[derive(Clone, Copy, Debug)]
pub struct AstBuilder {
    pub span: Span,
}

impl AstBuilder {
    pub fn new() -> (r: AstBuilder)
        ensures
            r.span == Span::NoLocation,
    {
        AstBuilder { span: Span::NoLocation }
    }

    /// A copy with a different ambient span; builders already started keep theirs.
    pub fn span(self, span: Span) -> (r: AstBuilder)
        ensures
            r.span == span,
    {
        AstBuilder { span }
    }

    pub fn id<I: ToIdent>(&self, ctx: &mut Ctx, id: I) -> (r: Ident)
        requires
            old(ctx).wf(),
            id.ident_ok(old(ctx)@),
        ensures
            final(ctx).wf(),
            intern_post(old(ctx)@, id.ident_text(old(ctx)@), final(ctx)@, r.name),
    {
        id.to_ident(ctx)
    }

    pub fn name<N: ToName>(&self, ctx: &mut Ctx, name: N) -> (r: Name)
        requires
            old(ctx).wf(),
            name.name_ok(old(ctx)@),
        ensures
            final(ctx).wf(),
            intern_post(old(ctx)@, name.name_text(old(ctx)@), final(ctx)@, r),
    {
        name.to_name(ctx)
    }

    pub fn path(&self) -> (r: path::PathBuilder)
        ensures
            r.span == self.span,
            !r.global,
            r.segments@ == Seq::<Ident>::empty(),
    {
        path::PathBuilder::new(self.span)
    }

    pub fn ty(&self) -> (r: ty::TyBuilder)
        ensures
            r.span == self.span,
    {
        ty::TyBuilder::new(self.span)
    }

    pub fn ty_param<I: ToIdent>(&self, ctx: &mut Ctx, id: I) -> (r: generics::TyParamBuilder)
        requires
            old(ctx).wf(),
            id.ident_ok(old(ctx)@),
        ensures
            final(ctx).wf(),
            intern_post(old(ctx)@, id.ident_text(old(ctx)@), final(ctx)@, r.ident.name),
            r.span == self.span,
            r.bounds@ == Seq::<ast::Path>::empty(),
            r.default is None,
    {
        generics::TyParamBuilder::new(ctx, id, self.span)
    }

    /// Starts from an existing type parameter; every field, its span included, is kept.
    pub fn from_ty_param(&self, ty_param: TyParam) -> (r: generics::TyParamBuilder)
        ensures
            r.span == ty_param.span,
            r.ident == ty_param.ident,
            r.bounds == ty_param.bounds,
            r.default == ty_param.default,
    {
        generics::TyParamBuilder::from_ty_param(ty_param)
    }

    pub fn generics(&self) -> (r: generics::GenericsBuilder)
        ensures
            r.span == self.span,
            r.ty_params@ == Seq::<TyParam>::empty(),
    {
        generics::GenericsBuilder::new(self.span)
    }

    /// Starts from an existing generics list; every field, its span included, is kept.
    pub fn from_generics(&self, generics: Generics) -> (r: generics::GenericsBuilder)
        ensures
            r.span == generics.span,
            r.ty_params == generics.ty_params,
    {
        generics::GenericsBuilder::from_generics(generics)
    }

    pub fn expr(&self) -> (r: expr::ExprBuilder)
        ensures
            r.span == self.span,
    {
        expr::ExprBuilder::new(self.span)
    }

    pub fn stmt(&self) -> (r: stmt::StmtBuilder)
        ensures
            r.span == self.span,
    {
        stmt::StmtBuilder::new(self.span)
    }

    pub fn block(&self) -> (r: stmt::BlockBuilder)
        ensures
            r.span == self.span,
            r.stmts@ == Seq::<ast::Stmt>::empty(),
    {
        stmt::BlockBuilder::new(self.span)
    }

    pub fn fn_decl(&self) -> (r: fn_decl::FnDeclBuilder)
        ensures
            r.span == self.span,
            r.inputs@ == Seq::<ast::Arg>::empty(),
    {
        fn_decl::FnDeclBuilder::new(self.span)
    }

    pub fn method<I: ToIdent>(&self, ctx: &mut Ctx, id: I) -> (r: item::MethodBuilder)
        requires
            old(ctx).wf(),
            id.ident_ok(old(ctx)@),
        ensures
            final(ctx).wf(),
            intern_post(old(ctx)@, id.ident_text(old(ctx)@), final(ctx)@, r.ident.name),
            r.span == self.span,
            r.generics.span == self.span,
            r.generics.ty_params@ == Seq::<TyParam>::empty(),
    {
        item::MethodBuilder::new(ctx, id, self.span)
    }

    pub fn arg<I: ToIdent>(&self, ctx: &mut Ctx, id: I) -> (r: fn_decl::ArgBuilder)
        requires
            old(ctx).wf(),
            id.ident_ok(old(ctx)@),
        ensures
            final(ctx).wf(),
            intern_post(old(ctx)@, id.ident_text(old(ctx)@), final(ctx)@, r.ident.name),
            r.span == self.span,
    {
        fn_decl::ArgBuilder::new(ctx, id, self.span)
    }

    pub fn item(&self) -> (r: item::ItemBuilder)
        ensures
            r.span == self.span,
    {
        item::ItemBuilder::new(self.span)
    }
}

/// A node finished by a builder that the facade started carries the facade's span as it
/// was when the builder started, whatever span the facade adopts afterwards.
pub proof fn lemma_span_propagation(
    facade: AstBuilder,
    child: ty::TyBuilder,
    later: AstBuilder,
    s2: Span,
    node: ast::Ty,
)
    requires
        child.span == facade.span,
        later.span == s2,
        node.span == child.span,
    ensures
        node.span == facade.span,
        s2 != facade.span ==> node.span != later.span,
{
}

} // verus!
