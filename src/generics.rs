use vstd::prelude::*;

use crate::ast::{Generics, Path, Span, Ty, TyParam};
use crate::convert::ToIdent;
use crate::ctx::{intern_post, Ctx, Ident};

verus! {

/// Accumulates one type parameter: its bounds in order, and an optional default.
pub struct TyParamBuilder {
    pub span: Span,
    pub ident: Ident,
    pub bounds: Vec<Path>,
    pub default: Option<Ty>,
}

impl TyParamBuilder {
    pub fn new<I: ToIdent>(ctx: &mut Ctx, id: I, span: Span) -> (r: TyParamBuilder)
        requires
            old(ctx).wf(),
            id.ident_ok(old(ctx)@),
        ensures
            final(ctx).wf(),
            intern_post(old(ctx)@, id.ident_text(old(ctx)@), final(ctx)@, r.ident.name),
            r.span == span,
            r.bounds@ == Seq::<Path>::empty(),
            r.default is None,
    {
        TyParamBuilder { span, ident: id.to_ident(ctx), bounds: Vec::new(), default: None }
    }

    /// Starts from an existing parameter, every field kept.
    pub fn from_ty_param(ty_param: TyParam) -> (r: TyParamBuilder)
        ensures
            r.span == ty_param.span,
            r.ident == ty_param.ident,
            r.bounds == ty_param.bounds,
            r.default == ty_param.default,
    {
        TyParamBuilder {
            span: ty_param.span,
            ident: ty_param.ident,
            bounds: ty_param.bounds,
            default: ty_param.default,
        }
    }

    pub fn span(self, span: Span) -> (r: TyParamBuilder)
        ensures
            r.span == span,
            r.ident == self.ident,
            r.bounds == self.bounds,
            r.default == self.default,
    {
        TyParamBuilder { span, ..self }
    }

    /// Appends a trait bound.
    pub fn with_bound(self, bound: Path) -> (r: TyParamBuilder)
        ensures
            r.span == self.span,
            r.ident == self.ident,
            r.bounds@ == self.bounds@.push(bound),
            r.default == self.default,
    {
        let mut bounds = self.bounds;
        bounds.push(bound);
        TyParamBuilder { span: self.span, ident: self.ident, bounds, default: self.default }
    }

    pub fn with_default(self, ty: Ty) -> (r: TyParamBuilder)
        ensures
            r.span == self.span,
            r.ident == self.ident,
            r.bounds == self.bounds,
            r.default == Some(ty),
    {
        TyParamBuilder { default: Some(ty), ..self }
    }

    pub fn build(self) -> (r: TyParam)
        ensures
            r.span == self.span,
            r.ident == self.ident,
            r.bounds == self.bounds,
            r.default == self.default,
    {
        TyParam { span: self.span, ident: self.ident, bounds: self.bounds, default: self.default }
    }
}

/// Accumulates the type parameters of a generics list, in order.
pub struct GenericsBuilder {
    pub span: Span,
    pub ty_params: Vec<TyParam>,
}

impl GenericsBuilder {
    pub fn new(span: Span) -> (r: GenericsBuilder)
        ensures
            r.span == span,
            r.ty_params@ == Seq::<TyParam>::empty(),
    {
        GenericsBuilder { span, ty_params: Vec::new() }
    }

    /// Starts from an existing generics list, every field kept.
    pub fn from_generics(generics: Generics) -> (r: GenericsBuilder)
        ensures
            r.span == generics.span,
            r.ty_params == generics.ty_params,
    {
        GenericsBuilder { span: generics.span, ty_params: generics.ty_params }
    }

    pub fn span(self, span: Span) -> (r: GenericsBuilder)
        ensures
            r.span == span,
            r.ty_params == self.ty_params,
    {
        GenericsBuilder { span, ..self }
    }

    /// Appends a finished type parameter.
    pub fn with_ty_param(self, ty_param: TyParam) -> (r: GenericsBuilder)
        ensures
            r.span == self.span,
            r.ty_params@ == self.ty_params@.push(ty_param),
    {
        let mut ty_params = self.ty_params;
        ty_params.push(ty_param);
        GenericsBuilder { span: self.span, ty_params }
    }

    /// Starts a type parameter that, once finished, is appended here; it takes this
    /// builder's span.
    pub fn ty_param<I: ToIdent>(self, ctx: &mut Ctx, id: I) -> (r: GenericsTyParamBuilder)
        requires
            old(ctx).wf(),
            id.ident_ok(old(ctx)@),
        ensures
            final(ctx).wf(),
            r.parent == self,
            intern_post(old(ctx)@, id.ident_text(old(ctx)@), final(ctx)@, r.param.ident.name),
            r.param.span == self.span,
            r.param.bounds@ == Seq::<Path>::empty(),
            r.param.default is None,
    {
        let span = self.span;
        let param = TyParamBuilder::new(ctx, id, span);
        GenericsTyParamBuilder { parent: self, param }
    }

    pub fn build(self) -> (r: Generics)
        ensures
            r.span == self.span,
            r.ty_params == self.ty_params,
    {
        Generics { span: self.span, ty_params: self.ty_params }
    }
}

/// A type-parameter builder nested in a generics builder; `build` hands control back
/// to the generics builder.
pub struct GenericsTyParamBuilder {
    pub parent: GenericsBuilder,
    pub param: TyParamBuilder,
}

impl GenericsTyParamBuilder {
    pub fn span(self, span: Span) -> (r: GenericsTyParamBuilder)
        ensures
            r.parent == self.parent,
            r.param.span == span,
            r.param.ident == self.param.ident,
            r.param.bounds == self.param.bounds,
            r.param.default == self.param.default,
    {
        GenericsTyParamBuilder { parent: self.parent, param: self.param.span(span) }
    }

    pub fn with_bound(self, bound: Path) -> (r: GenericsTyParamBuilder)
        ensures
            r.parent == self.parent,
            r.param.span == self.param.span,
            r.param.ident == self.param.ident,
            r.param.bounds@ == self.param.bounds@.push(bound),
            r.param.default == self.param.default,
    {
        GenericsTyParamBuilder { parent: self.parent, param: self.param.with_bound(bound) }
    }

    pub fn with_default(self, ty: Ty) -> (r: GenericsTyParamBuilder)
        ensures
            r.parent == self.parent,
            r.param.span == self.param.span,
            r.param.ident == self.param.ident,
            r.param.bounds == self.param.bounds,
            r.param.default == Some(ty),
    {
        GenericsTyParamBuilder { parent: self.parent, param: self.param.with_default(ty) }
    }

    /// Finishes the parameter and appends it to the parent.
    pub fn build(self) -> (r: GenericsBuilder)
        ensures
            r.span == self.parent.span,
            r.ty_params@.len() == self.parent.ty_params@.len() + 1,
            r.ty_params@.drop_last() == self.parent.ty_params@,
            r.ty_params@.last().span == self.param.span,
            r.ty_params@.last().ident == self.param.ident,
            r.ty_params@.last().bounds == self.param.bounds,
            r.ty_params@.last().default == self.param.default,
    {
        let p = self.param.build();
        let r = self.parent.with_ty_param(p);
        assert(r.ty_params@.drop_last() =~= self.parent.ty_params@);
        r
    }
}

/// Starting from an existing type parameter and finishing at once gives it back unchanged.
pub proof fn lemma_ty_param_round_trip(p: TyParam, b: TyParamBuilder, r: TyParam)
    requires
        b.span == p.span,
        b.ident == p.ident,
        b.bounds == p.bounds,
        b.default == p.default,
        r.span == b.span,
        r.ident == b.ident,
        r.bounds == b.bounds,
        r.default == b.default,
    ensures
        r == p,
{
}

/// Starting from an existing generics list and finishing at once gives it back unchanged.
pub proof fn lemma_generics_round_trip(g: Generics, b: GenericsBuilder, r: Generics)
    requires
        b.span == g.span,
        b.ty_params == g.ty_params,
        r.span == b.span,
        r.ty_params == b.ty_params,
    ensures
        r == g,
{
}

} // verus!
