use vstd::prelude::*;

use crate::ast::{Path, Span, Ty, TyKind};
use crate::convert::ToIdent;
use crate::ctx::{intern_post, Ctx};
use crate::path::{single_segment, PathBuilder};

verus! {

/// Builds one type node, stamped with the builder's span.
pub struct TyBuilder {
    pub span: Span,
}

impl TyBuilder {
    pub fn new(span: Span) -> (r: TyBuilder)
        ensures
            r.span == span,
    {
        TyBuilder { span }
    }

    pub fn span(self, span: Span) -> (r: TyBuilder)
        ensures
            r.span == span,
    {
        TyBuilder { span }
    }

    /// The type named by `path`.
    pub fn build_path(self, path: Path) -> (r: Ty)
        ensures
            r.span == self.span,
            r.kind == TyKind::Path(path),
    {
        Ty { span: self.span, kind: TyKind::Path(path) }
    }

    /// The type named by the single identifier `id`, such as `i32`.
    pub fn id<I: ToIdent>(self, ctx: &mut Ctx, id: I) -> (r: Ty)
        requires
            old(ctx).wf(),
            id.ident_ok(old(ctx)@),
        ensures
            final(ctx).wf(),
            r.span == self.span,
            r.kind is Path,
            single_segment(r.kind->Path_0, self.span, r.kind->Path_0.segments@[0]),
            intern_post(
                old(ctx)@,
                id.ident_text(old(ctx)@),
                final(ctx)@,
                r.kind->Path_0.segments@[0].name,
            ),
    {
        let span = self.span;
        let path = PathBuilder::new(span).id(ctx, id).build();
        assert(path.segments@ =~= seq![path.segments@[0]]);
        self.build_path(path)
    }

    /// Starts a path whose finished form becomes this type.
    pub fn path(self) -> (r: TyPathBuilder)
        ensures
            r.span == self.span,
            r.path.span == self.span,
            !r.path.global,
            r.path.segments@ == Seq::<crate::ctx::Ident>::empty(),
    {
        TyPathBuilder { span: self.span, path: PathBuilder::new(self.span) }
    }

    /// The unit type `()`.
    pub fn unit(self) -> (r: Ty)
        ensures
            r.span == self.span,
            r.kind is Tup,
            r.kind->Tup_0@ == Seq::<Ty>::empty(),
    {
        Ty { span: self.span, kind: TyKind::Tup(Vec::new()) }
    }

    /// The tuple type of `tys`, in order.
    pub fn build_tuple(self, tys: Vec<Ty>) -> (r: Ty)
        ensures
            r.span == self.span,
            r.kind == TyKind::Tup(tys),
    {
        Ty { span: self.span, kind: TyKind::Tup(tys) }
    }

    /// The reference type `&ty`.
    pub fn build_ref(self, ty: Ty) -> (r: Ty)
        ensures
            r.span == self.span,
            r.kind is Ref,
            *r.kind->Ref_0 == ty,
    {
        Ty { span: self.span, kind: TyKind::Ref(Box::new(ty)) }
    }

    /// The placeholder type `_`.
    pub fn infer(self) -> (r: Ty)
        ensures
            r.span == self.span,
            r.kind == TyKind::Infer,
    {
        Ty { span: self.span, kind: TyKind::Infer }
    }
}

/// A path builder nested in a type builder: finishing the path finishes the type.
pub struct TyPathBuilder {
    pub span: Span,
    pub path: PathBuilder,
}

impl TyPathBuilder {
    pub fn global(self) -> (r: TyPathBuilder)
        ensures
            r.span == self.span,
            r.path.span == self.path.span,
            r.path.global,
            r.path.segments@ == self.path.segments@,
    {
        TyPathBuilder { span: self.span, path: self.path.global() }
    }

    pub fn id<I: ToIdent>(self, ctx: &mut Ctx, id: I) -> (r: TyPathBuilder)
        requires
            old(ctx).wf(),
            id.ident_ok(old(ctx)@),
        ensures
            final(ctx).wf(),
            r.span == self.span,
            r.path.span == self.path.span,
            r.path.global == self.path.global,
            r.path.segments@.len() == self.path.segments@.len() + 1,
            r.path.segments@.drop_last() == self.path.segments@,
            intern_post(
                old(ctx)@,
                id.ident_text(old(ctx)@),
                final(ctx)@,
                r.path.segments@.last().name,
            ),
    {
        TyPathBuilder { span: self.span, path: self.path.id(ctx, id) }
    }

    pub fn build(self) -> (r: Ty)
        ensures
            r.span == self.span,
            r.kind is Path,
            r.kind->Path_0.span == self.path.span,
            r.kind->Path_0.global == self.path.global,
            r.kind->Path_0.segments@ == self.path.segments@,
    {
        let span = self.span;
        TyBuilder { span }.build_path(self.path.build())
    }
}

} // verus!
