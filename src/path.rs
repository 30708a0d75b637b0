use vstd::prelude::*;

use crate::ast::{Path, Span};
use crate::convert::ToIdent;
use crate::ctx::{intern_post, Ctx, Ident};

verus! {

/// `p` is the relative path of the one segment `x`, at span `sp`.
pub open spec fn single_segment(p: Path, sp: Span, x: Ident) -> bool {
    &&& p.span == sp
    &&& !p.global
    &&& p.segments@ == seq![x]
}

/// Accumulates the segments of a path, in the order they are given.
pub struct PathBuilder {
    pub span: Span,
    pub global: bool,
    pub segments: Vec<Ident>,
}

impl PathBuilder {
    pub fn new(span: Span) -> (r: PathBuilder)
        ensures
            r.span == span,
            !r.global,
            r.segments@ == Seq::<Ident>::empty(),
    {
        PathBuilder { span, global: false, segments: Vec::new() }
    }

    pub fn span(self, span: Span) -> (r: PathBuilder)
        ensures
            r.span == span,
            r.global == self.global,
            r.segments@ == self.segments@,
    {
        PathBuilder { span, ..self }
    }

    /// Marks the path as starting with `::`.
    pub fn global(self) -> (r: PathBuilder)
        ensures
            r.span == self.span,
            r.global,
            r.segments@ == self.segments@,
    {
        PathBuilder { global: true, ..self }
    }

    /// Appends one segment.
    pub fn id<I: ToIdent>(self, ctx: &mut Ctx, id: I) -> (r: PathBuilder)
        requires
            old(ctx).wf(),
            id.ident_ok(old(ctx)@),
        ensures
            final(ctx).wf(),
            r.span == self.span,
            r.global == self.global,
            r.segments@.len() == self.segments@.len() + 1,
            r.segments@.drop_last() == self.segments@,
            intern_post(old(ctx)@, id.ident_text(old(ctx)@), final(ctx)@, r.segments@.last().name),
    {
        let x = id.to_ident(ctx);
        let mut segments = self.segments;
        segments.push(x);
        assert(segments@.drop_last() =~= self.segments@);
        PathBuilder { span: self.span, global: self.global, segments }
    }

    /// Appends a segment that is already a handle.
    pub fn with_ident(self, x: Ident) -> (r: PathBuilder)
        ensures
            r.span == self.span,
            r.global == self.global,
            r.segments@ == self.segments@.push(x),
    {
        let mut segments = self.segments;
        segments.push(x);
        PathBuilder { span: self.span, global: self.global, segments }
    }

    pub fn build(self) -> (r: Path)
        ensures
            r.span == self.span,
            r.global == self.global,
            r.segments@ == self.segments@,
    {
        Path { span: self.span, global: self.global, segments: self.segments }
    }
}

} // verus!
