use vstd::prelude::*;

verus! {

/// Handle of an interned symbol: the position of its text in the context's table.
#[derive(Clone, Copy, Debug, PartialEq, Eq, Hash, Structural)]
pub struct Name {
    pub index: usize,
}

/// Handle of an interned identifier; it shares the symbol table with `Name`.
#[derive(Clone, Copy, Debug, PartialEq, Eq, Hash, Structural)]
pub struct Ident {
    pub name: Name,
}

/// The construction context: an append-only table of interned texts.
pub struct Ctx {
    table: Vec<String>,
}

/// No text occurs twice in the table.
pub open spec fn distinct(t: Seq<Seq<char>>) -> bool {
    forall|i: int, j: int| 0 <= i < t.len() && 0 <= j < t.len() && i != j ==> t[i] != t[j]
}

/// The table after interning `s`: unchanged when `s` is already there, else `s` appended.
pub open spec fn interned(t: Seq<Seq<char>>, s: Seq<char>) -> Seq<Seq<char>> {
    if t.contains(s) {
        t
    } else {
        t.push(s)
    }
}

/// `r` is what interning `s` in table `t` gives, and `u` the table afterwards.
pub open spec fn intern_post(t: Seq<Seq<char>>, s: Seq<char>, u: Seq<Seq<char>>, r: Name) -> bool {
    &&& u == interned(t, s)
    &&& t.len() <= u.len()
    &&& forall|i: int| 0 <= i < t.len() ==> #[trigger] u[i] == t[i]
    &&& r.index < u.len()
    &&& u[r.index as int] == s
}

impl View for Ctx {
    type V = Seq<Seq<char>>;

    closed spec fn view(&self) -> Seq<Seq<char>> {
        self.table@.map_values(|s: String| s@)
    }
}

impl Ctx {
    pub open spec fn wf(&self) -> bool {
        distinct(self@)
    }

    /// `n` names an entry of this context.
    pub open spec fn holds(&self, n: Name) -> bool {
        n.index < self@.len()
    }

    pub open spec fn text(&self, n: Name) -> Seq<char> {
        self@[n.index as int]
    }

    pub fn new() -> (r: Ctx)
        ensures
            r@ == Seq::<Seq<char>>::empty(),
            r.wf(),
    {
        let r = Ctx { table: Vec::new() };
        assert(r@ =~= Seq::<Seq<char>>::empty());
        r
    }

    /// Interns `text`: equal texts give equal handles, and the table only grows.
    pub fn intern(&mut self, text: &str) -> (r: Name)
        requires
            old(self).wf(),
        ensures
            final(self).wf(),
            intern_post(old(self)@, text@, final(self)@, r),
    {
        let s = String::from_str(text);
        let mut i: usize = 0;
        while i < self.table.len()
            invariant
                self@ == old(self)@,
                self.wf(),
                s@ == text@,
                i <= self@.len(),
                forall|k: int| 0 <= k < i ==> self@[k] != text@,
            decreases self.table.len() - i,
        {
            if self.table[i] == s {
                assert(self@.contains(text@)) by {
                    assert(self@[i as int] == text@);
                }
                return Name { index: i };
            }
            i += 1;
        }
        assert(!self@.contains(text@));
        self.table.push(s);
        assert(self@ =~= old(self)@.push(text@));
        Name { index: i }
    }

    /// The text that `n` stands for.
    pub fn resolve(&self, n: Name) -> (r: &str)
        requires
            self.holds(n),
        ensures
            r@ == self.text(n),
    {
        self.table[n.index].as_str()
    }
}

/// Two handles held by one context are equal exactly when their texts are.
pub proof fn lemma_handle_eq_iff_text_eq(ctx: &Ctx, a: Name, b: Name)
    requires
        ctx.wf(),
        ctx.holds(a),
        ctx.holds(b),
    ensures
        (a == b) == (ctx.text(a) == ctx.text(b)),
{
}

/// Interning a text twice gives the same handle, and the second call leaves the table as it was.
pub proof fn lemma_intern_idempotent(
    t0: Seq<Seq<char>>,
    s: Seq<char>,
    t1: Seq<Seq<char>>,
    r1: Name,
    t2: Seq<Seq<char>>,
    r2: Name,
)
    requires
        distinct(t0),
        intern_post(t0, s, t1, r1),
        intern_post(t1, s, t2, r2),
    ensures
        r1 == r2,
        t2 == t1,
{
    lemma_interned_distinct(t0, s);
    assert(t1.contains(s)) by {
        assert(t1[r1.index as int] == s);
    }
}

/// Interning two different texts gives two different handles.
pub proof fn lemma_intern_distinct(
    t0: Seq<Seq<char>>,
    s1: Seq<char>,
    t1: Seq<Seq<char>>,
    r1: Name,
    s2: Seq<char>,
    t2: Seq<Seq<char>>,
    r2: Name,
)
    requires
        distinct(t0),
        s1 != s2,
        intern_post(t0, s1, t1, r1),
        intern_post(t1, s2, t2, r2),
    ensures
        r1 != r2,
{
    assert(t1.is_prefix_of(t2));
    assert(t2[r1.index as int] == s1);
}

/// Interning keeps the table free of repeats.
pub proof fn lemma_interned_distinct(t: Seq<Seq<char>>, s: Seq<char>)
    requires
        distinct(t),
    ensures
        distinct(interned(t, s)),
        t.is_prefix_of(interned(t, s)),
{
    if !t.contains(s) {
        let u = t.push(s);
        assert forall|i: int, j: int| 0 <= i < u.len() && 0 <= j < u.len() && i != j implies u[i]
            != u[j] by {
            if i == t.len() {
                assert(u[j] == t[j]);
            } else if j == t.len() {
                assert(u[i] == t[i]);
            }
        }
    }
}

} // verus!
