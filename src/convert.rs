use vstd::prelude::*;

use crate::ctx::{intern_post, Ctx, Ident, Name};

verus! {

/// Values that can stand for an identifier: raw text, or a handle already interned.
pub trait ToIdent {
    /// The text this value stands for, read against the table `t`.
    spec fn ident_text(&self, t: Seq<Seq<char>>) -> Seq<char>;

    /// The value can be converted against table `t` (a handle must belong to it).
    spec fn ident_ok(&self, t: Seq<Seq<char>>) -> bool;

    /// Converting behaves as interning the text.
    fn to_ident(self, ctx: &mut Ctx) -> (r: Ident)
        requires
            old(ctx).wf(),
            self.ident_ok(old(ctx)@),
        ensures
            final(ctx).wf(),
            intern_post(old(ctx)@, self.ident_text(old(ctx)@), final(ctx)@, r.name),
    ;
}

/// Values that can stand for a bare symbol: raw text, or a handle already interned.
pub trait ToName {
    spec fn name_text(&self, t: Seq<Seq<char>>) -> Seq<char>;

    spec fn name_ok(&self, t: Seq<Seq<char>>) -> bool;

    fn to_name(self, ctx: &mut Ctx) -> (r: Name)
        requires
            old(ctx).wf(),
            self.name_ok(old(ctx)@),
        ensures
            final(ctx).wf(),
            intern_post(old(ctx)@, self.name_text(old(ctx)@), final(ctx)@, r),
    ;
}

/// Keeping a handle that is already canonical meets the interning contract.
proof fn lemma_existing(t: Seq<Seq<char>>, n: Name)
    requires
        n.index < t.len(),
    ensures
        intern_post(t, t[n.index as int], t, n),
{
    assert(t.contains(t[n.index as int]));
}

impl<'a> ToIdent for &'a str {
    open spec fn ident_text(&self, t: Seq<Seq<char>>) -> Seq<char> {
        self@
    }

    open spec fn ident_ok(&self, t: Seq<Seq<char>>) -> bool {
        true
    }

    fn to_ident(self, ctx: &mut Ctx) -> (r: Ident) {
        Ident { name: ctx.intern(self) }
    }
}

impl ToIdent for String {
    open spec fn ident_text(&self, t: Seq<Seq<char>>) -> Seq<char> {
        self@
    }

    open spec fn ident_ok(&self, t: Seq<Seq<char>>) -> bool {
        true
    }

    fn to_ident(self, ctx: &mut Ctx) -> (r: Ident) {
        Ident { name: ctx.intern(self.as_str()) }
    }
}

impl ToIdent for Ident {
    open spec fn ident_text(&self, t: Seq<Seq<char>>) -> Seq<char> {
        t[self.name.index as int]
    }

    open spec fn ident_ok(&self, t: Seq<Seq<char>>) -> bool {
        self.name.index < t.len()
    }

    fn to_ident(self, ctx: &mut Ctx) -> (r: Ident) {
        proof {
            lemma_existing(ctx@, self.name);
        }
        self
    }
}

impl ToIdent for Name {
    open spec fn ident_text(&self, t: Seq<Seq<char>>) -> Seq<char> {
        t[self.index as int]
    }

    open spec fn ident_ok(&self, t: Seq<Seq<char>>) -> bool {
        self.index < t.len()
    }

    fn to_ident(self, ctx: &mut Ctx) -> (r: Ident) {
        proof {
            lemma_existing(ctx@, self);
        }
        Ident { name: self }
    }
}

impl<'a> ToName for &'a str {
    open spec fn name_text(&self, t: Seq<Seq<char>>) -> Seq<char> {
        self@
    }

    open spec fn name_ok(&self, t: Seq<Seq<char>>) -> bool {
        true
    }

    fn to_name(self, ctx: &mut Ctx) -> (r: Name) {
        ctx.intern(self)
    }
}

impl ToName for String {
    open spec fn name_text(&self, t: Seq<Seq<char>>) -> Seq<char> {
        self@
    }

    open spec fn name_ok(&self, t: Seq<Seq<char>>) -> bool {
        true
    }

    fn to_name(self, ctx: &mut Ctx) -> (r: Name) {
        ctx.intern(self.as_str())
    }
}

impl ToName for Name {
    open spec fn name_text(&self, t: Seq<Seq<char>>) -> Seq<char> {
        t[self.index as int]
    }

    open spec fn name_ok(&self, t: Seq<Seq<char>>) -> bool {
        self.index < t.len()
    }

    fn to_name(self, ctx: &mut Ctx) -> (r: Name) {
        proof {
            lemma_existing(ctx@, self);
        }
        self
    }
}

impl ToName for Ident {
    open spec fn name_text(&self, t: Seq<Seq<char>>) -> Seq<char> {
        t[self.name.index as int]
    }

    open spec fn name_ok(&self, t: Seq<Seq<char>>) -> bool {
        self.name.index < t.len()
    }

    fn to_name(self, ctx: &mut Ctx) -> (r: Name) {
        proof {
            lemma_existing(ctx@, self.name);
        }
        self.name
    }
}

/// Converting a handle that belongs to the context hands back that same handle.
pub proof fn lemma_handle_converts_to_itself(t: Seq<Seq<char>>, h: Ident, u: Seq<Seq<char>>, r: Ident)
    requires
        crate::ctx::distinct(t),
        h.ident_ok(t),
        intern_post(t, h.ident_text(t), u, r.name),
    ensures
        r == h,
        u == t,
{
    assert(t.contains(t[h.name.index as int]));
}

/// Converting raw text, and converting afterwards any handle already interned for that
/// same text, give equal handles.
pub proof fn lemma_text_and_handle_agree(
    t0: Seq<Seq<char>>,
    s: Seq<char>,
    t1: Seq<Seq<char>>,
    r1: Ident,
    h: Ident,
    t2: Seq<Seq<char>>,
    r2: Ident,
)
    requires
        crate::ctx::distinct(t0),
        intern_post(t0, s, t1, r1.name),
        h.ident_ok(t1),
        h.ident_text(t1) == s,
        intern_post(t1, h.ident_text(t1), t2, r2.name),
    ensures
        r1 == r2,
        r2 == h,
{
    crate::ctx::lemma_interned_distinct(t0, s);
    lemma_handle_converts_to_itself(t1, h, t2, r2);
}

} // verus!
