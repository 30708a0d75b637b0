use vstd::prelude::*;

use crate::ast::{Block, FnDecl, Generics, Item, ItemKind, Method, Span, StructField, Ty};
use crate::convert::ToIdent;
use crate::ctx::{intern_post, Ctx, Ident};
use crate::generics::GenericsBuilder;

verus! {

/// Builds a method: a name, generics, then a declaration and a body.
pub struct MethodBuilder {
    pub span: Span,
    pub ident: Ident,
    pub generics: Generics,
}

impl MethodBuilder {
    /// Starts a method with no type parameters; everything takes `span`.
    pub fn new<I: ToIdent>(ctx: &mut Ctx, id: I, span: Span) -> (r: MethodBuilder)
        requires
            old(ctx).wf(),
            id.ident_ok(old(ctx)@),
        ensures
            final(ctx).wf(),
            intern_post(old(ctx)@, id.ident_text(old(ctx)@), final(ctx)@, r.ident.name),
            r.span == span,
            r.generics.span == span,
            r.generics.ty_params@ == Seq::<crate::ast::TyParam>::empty(),
    {
        let ident = id.to_ident(ctx);
        MethodBuilder { span, ident, generics: GenericsBuilder::new(span).build() }
    }

    pub fn span(self, span: Span) -> (r: MethodBuilder)
        ensures
            r.span == span,
            r.ident == self.ident,
            r.generics == self.generics,
    {
        MethodBuilder { span, ..self }
    }

    pub fn with_generics(self, generics: Generics) -> (r: MethodBuilder)
        ensures
            r.span == self.span,
            r.ident == self.ident,
            r.generics == generics,
    {
        MethodBuilder { span: self.span, ident: self.ident, generics }
    }

    /// Continues with a generics builder that starts from this method's generics.
    pub fn generics(self) -> (r: MethodGenericsBuilder)
        ensures
            r.span == self.span,
            r.ident == self.ident,
            r.generics.span == self.generics.span,
            r.generics.ty_params == self.generics.ty_params,
    {
        MethodGenericsBuilder {
            span: self.span,
            ident: self.ident,
            generics: GenericsBuilder::from_generics(self.generics),
        }
    }

    pub fn build(self, decl: FnDecl, body: Block) -> (r: Method)
        ensures
            r.span == self.span,
            r.ident == self.ident,
            r.generics == self.generics,
            r.decl == decl,
            r.body == body,
    {
        Method { span: self.span, ident: self.ident, generics: self.generics, decl, body }
    }
}

/// A generics builder nested in a method builder; `build` hands control back to it.
pub struct MethodGenericsBuilder {
    pub span: Span,
    pub ident: Ident,
    pub generics: GenericsBuilder,
}

impl MethodGenericsBuilder {
    pub fn with_ty_param(self, ty_param: crate::ast::TyParam) -> (r: MethodGenericsBuilder)
        ensures
            r.span == self.span,
            r.ident == self.ident,
            r.generics.span == self.generics.span,
            r.generics.ty_params@ == self.generics.ty_params@.push(ty_param),
    {
        MethodGenericsBuilder {
            span: self.span,
            ident: self.ident,
            generics: self.generics.with_ty_param(ty_param),
        }
    }

    pub fn build(self) -> (r: MethodBuilder)
        ensures
            r.span == self.span,
            r.ident == self.ident,
            r.generics.span == self.generics.span,
            r.generics.ty_params == self.generics.ty_params,
    {
        MethodBuilder { span: self.span, ident: self.ident, generics: self.generics.build() }
    }
}

/// Builds a top-level item; the kind of body is chosen once, by `fn_` or `struct_`.
pub struct ItemBuilder {
    pub span: Span,
}

impl ItemBuilder {
    pub fn new(span: Span) -> (r: ItemBuilder)
        ensures
            r.span == span,
    {
        ItemBuilder { span }
    }

    pub fn span(self, span: Span) -> (r: ItemBuilder)
        ensures
            r.span == span,
    {
        ItemBuilder { span }
    }

    /// Commits to a function item named `id`.
    pub fn fn_<I: ToIdent>(self, ctx: &mut Ctx, id: I) -> (r: ItemFnBuilder)
        requires
            old(ctx).wf(),
            id.ident_ok(old(ctx)@),
        ensures
            final(ctx).wf(),
            intern_post(old(ctx)@, id.ident_text(old(ctx)@), final(ctx)@, r.ident.name),
            r.span == self.span,
            r.generics.span == self.span,
            r.generics.ty_params@ == Seq::<crate::ast::TyParam>::empty(),
    {
        let ident = id.to_ident(ctx);
        ItemFnBuilder { span: self.span, ident, generics: GenericsBuilder::new(self.span).build() }
    }

    /// Commits to a struct item named `id`.
    pub fn struct_<I: ToIdent>(self, ctx: &mut Ctx, id: I) -> (r: ItemStructBuilder)
        requires
            old(ctx).wf(),
            id.ident_ok(old(ctx)@),
        ensures
            final(ctx).wf(),
            intern_post(old(ctx)@, id.ident_text(old(ctx)@), final(ctx)@, r.ident.name),
            r.span == self.span,
            r.generics.span == self.span,
            r.generics.ty_params@ == Seq::<crate::ast::TyParam>::empty(),
            r.fields@ == Seq::<StructField>::empty(),
    {
        let ident = id.to_ident(ctx);
        ItemStructBuilder {
            span: self.span,
            ident,
            generics: GenericsBuilder::new(self.span).build(),
            fields: Vec::new(),
        }
    }
}

/// A function item under construction.
pub struct ItemFnBuilder {
    pub span: Span,
    pub ident: Ident,
    pub generics: Generics,
}

impl ItemFnBuilder {
    pub fn span(self, span: Span) -> (r: ItemFnBuilder)
        ensures
            r.span == span,
            r.ident == self.ident,
            r.generics == self.generics,
    {
        ItemFnBuilder { span, ..self }
    }

    pub fn with_generics(self, generics: Generics) -> (r: ItemFnBuilder)
        ensures
            r.span == self.span,
            r.ident == self.ident,
            r.generics == generics,
    {
        ItemFnBuilder { span: self.span, ident: self.ident, generics }
    }

    pub fn build(self, decl: FnDecl, body: Block) -> (r: Item)
        ensures
            r.span == self.span,
            r.ident == self.ident,
            r.kind == ItemKind::Fn(decl, self.generics, body),
    {
        Item { span: self.span, ident: self.ident, kind: ItemKind::Fn(decl, self.generics, body) }
    }
}

/// A struct item under construction; its fields are kept in order.
pub struct ItemStructBuilder {
    pub span: Span,
    pub ident: Ident,
    pub generics: Generics,
    pub fields: Vec<StructField>,
}

impl ItemStructBuilder {
    pub fn span(self, span: Span) -> (r: ItemStructBuilder)
        ensures
            r.span == span,
            r.ident == self.ident,
            r.generics == self.generics,
            r.fields == self.fields,
    {
        ItemStructBuilder { span, ..self }
    }

    pub fn with_generics(self, generics: Generics) -> (r: ItemStructBuilder)
        ensures
            r.span == self.span,
            r.ident == self.ident,
            r.generics == generics,
            r.fields == self.fields,
    {
        ItemStructBuilder { generics, ..self }
    }

    /// Appends the field `id: ty`, stamped with this builder's span.
    pub fn field<I: ToIdent>(self, ctx: &mut Ctx, id: I, ty: Ty) -> (r: ItemStructBuilder)
        requires
            old(ctx).wf(),
            id.ident_ok(old(ctx)@),
        ensures
            final(ctx).wf(),
            r.span == self.span,
            r.ident == self.ident,
            r.generics == self.generics,
            r.fields@.len() == self.fields@.len() + 1,
            r.fields@.drop_last() == self.fields@,
            r.fields@.last().span == self.span,
            r.fields@.last().ty == ty,
            intern_post(
                old(ctx)@,
                id.ident_text(old(ctx)@),
                final(ctx)@,
                r.fields@.last().ident.name,
            ),
    {
        let ident = id.to_ident(ctx);
        let mut fields = self.fields;
        fields.push(StructField { span: self.span, ident, ty });
        assert(fields@.drop_last() =~= self.fields@);
        ItemStructBuilder { span: self.span, ident: self.ident, generics: self.generics, fields }
    }

    pub fn build(self) -> (r: Item)
        ensures
            r.span == self.span,
            r.ident == self.ident,
            r.kind == ItemKind::Struct(self.fields, self.generics),
    {
        Item {
            span: self.span,
            ident: self.ident,
            kind: ItemKind::Struct(self.fields, self.generics),
        }
    }
}

} // verus!
