use vstd::prelude::*;

verus! {

// The mathematics of the sanitize loop.
//
// A stored check and a stored sanitizer are ordinary runtime callables, so a
// caller of the wrapper can only reason about the verdicts a check *may*
// reach and the rewrites a sanitizer *may* perform. The specifications below
// describe a run of the sanitize loop in those terms: `deny(v)` says the
// check may reject `v`, and `step(v, w)` says the sanitizer may turn `v`
// into `w`.

/// A possible trace of the sanitize loop: a non-empty sequence of values in
/// which every element before the last is one the check may reject and the
/// sanitizer may rewrite into its successor.
pub open spec fn repair_chain<T>(
    deny: spec_fn(T) -> bool,
    step: spec_fn(T, T) -> bool,
    vs: Seq<T>,
) -> bool {
    &&& vs.len() >= 1
    &&& forall|i: int|
        0 <= i < vs.len() - 1 ==> deny(#[trigger] vs[i]) && step(vs[i], vs[i + 1])
}

/// `to` can be reached from `from` by sanitizer steps, each taken on a value
/// the check may reject.
pub open spec fn reaches<T>(
    deny: spec_fn(T) -> bool,
    step: spec_fn(T, T) -> bool,
    from: T,
    to: T,
) -> bool {
    exists|vs: Seq<T>|
        repair_chain(deny, step, vs) && vs.first() == from && vs.last() == to
}

/// A completed run of the sanitize loop: `to` is reachable from `from` and
/// the check accepted `to`.
pub open spec fn sanitized<T>(
    allow: spec_fn(T) -> bool,
    deny: spec_fn(T) -> bool,
    step: spec_fn(T, T) -> bool,
    from: T,
    to: T,
) -> bool {
    reaches(deny, step, from, to) && allow(to)
}

/// Every run of the sanitize loop started at `v` stops within `n` iterations:
/// either the check can no longer reject `v`, or fuel remains and every value
/// the sanitizer may produce from `v` converges with one unit less.
pub open spec fn converges_within<T>(
    deny: spec_fn(T) -> bool,
    step: spec_fn(T, T) -> bool,
    v: T,
    n: nat,
) -> bool
    decreases n,
{
    ||| !deny(v)
    ||| (n > 0 && forall|w: T| #[trigger] step(v, w) ==> converges_within(
        deny,
        step,
        w,
        (n - 1) as nat,
    ))
}

/// Some iteration bound exists for the sanitize loop started at `v`. The
/// engine itself never bounds the loop; this is the caller's obligation that
/// the chosen check and sanitizer fit together.
pub open spec fn convergent<T>(deny: spec_fn(T) -> bool, step: spec_fn(T, T) -> bool, v: T) -> bool {
    exists|n: nat| converges_within(deny, step, v, n)
}

/// The one-element sequence is a chain: every value reaches itself.
pub proof fn lemma_reaches_self<T>(deny: spec_fn(T) -> bool, step: spec_fn(T, T) -> bool, v: T)
    ensures
        reaches(deny, step, v, v),
{
    let vs = seq![v];
    assert(repair_chain(deny, step, vs));
    assert(vs.first() == v && vs.last() == v);
}

/// A chain extends by one sanitizer step taken on a rejectable value.
pub proof fn lemma_reaches_step<T>(
    deny: spec_fn(T) -> bool,
    step: spec_fn(T, T) -> bool,
    from: T,
    mid: T,
    to: T,
)
    requires
        reaches(deny, step, from, mid),
        deny(mid),
        step(mid, to),
    ensures
        reaches(deny, step, from, to),
{
    let vs = choose|vs: Seq<T>|
        repair_chain(deny, step, vs) && vs.first() == from && vs.last() == mid;
    let ws = vs.push(to);
    assert forall|i: int| 0 <= i < ws.len() - 1 implies deny(#[trigger] ws[i]) && step(
        ws[i],
        ws[i + 1],
    ) by {
        if i < vs.len() - 1 {
            assert(ws[i] == vs[i]);
            assert(ws[i + 1] == vs[i + 1]);
        } else {
            assert(ws[i] == vs[i]);
            assert(vs[i] == vs.last());
            assert(ws[i + 1] == to);
        }
    }
    assert(repair_chain(deny, step, ws));
    assert(ws.first() == from && ws.last() == to);
}

/// Law: the sanitize loop never moves a value the check cannot reject. A
/// repair run on an already-valid value — and likewise a construction from an
/// already-valid value — returns it unchanged, with zero sanitizer
/// applications.
pub proof fn lemma_valid_value_unmoved<T>(
    deny: spec_fn(T) -> bool,
    step: spec_fn(T, T) -> bool,
    from: T,
    to: T,
)
    requires
        reaches(deny, step, from, to),
        !deny(from),
    ensures
        to == from,
{
    let vs = choose|vs: Seq<T>|
        repair_chain(deny, step, vs) && vs.first() == from && vs.last() == to;
    if vs.len() >= 2 {
        assert(deny(vs[0]));
        assert(false);
    }
    assert(vs.len() == 1);
}

/// Two wrappers enforce the same rules: same possible verdicts, same possible
/// rewrites, and the same readiness to be called and repaired.
pub open spec fn same_rules<T, R: Restricted<T>>(a: R, b: R) -> bool {
    &&& a.allow_of() == b.allow_of()
    &&& a.deny_of() == b.deny_of()
    &&& a.step_of() == b.step_of()
    &&& a.call_ready() == b.call_ready()
    &&& forall|v: T| (#[trigger] a.repair_ready(v)) == b.repair_ready(v)
}

/// The core invariant of a restricted value: the stored check may accept the
/// stored value. Every state reached through the safe API satisfies it; only
/// the privileged unchecked write can break it, and a repair restores it.
pub open spec fn check_holds<T, R: Restricted<T>>(r: R) -> bool {
    (r.allow_of())(r.content())
}

/// The minimal capabilities of a restricted value: an allowed-check, a
/// sanitize loop, and a privileged unchecked write. The remaining operations
/// are derived from those three and a read accessor.
pub trait Restricted<T>: Sized {
    /// The wrapped value.
    spec fn content(&self) -> T;

    /// The verdicts the stored check may reach: `allow_of()(v)` says the
    /// check may accept `v`.
    spec fn allow_of(&self) -> spec_fn(T) -> bool;

    /// `deny_of()(v)` says the stored check may reject `v`.
    spec fn deny_of(&self) -> spec_fn(T) -> bool;

    /// `step_of()(v, w)` says the stored sanitizer may rewrite `v` into `w`.
    spec fn step_of(&self) -> spec_fn(T, T) -> bool;

    /// The stored callables accept any value as argument.
    spec fn call_ready(&self) -> bool;

    /// The sanitize loop, started at `v`, can run and stops.
    spec fn repair_ready(&self, v: T) -> bool;

    /// Read access to the wrapped value.
    fn as_ref(&self) -> (r: &T)
        ensures
            *r == self.content(),
    ;

    /// Applies the stored check to `content`.
    fn is_allowed(&self, content: &T) -> (b: bool)
        requires
            self.call_ready(),
        ensures
            b ==> (self.allow_of())(*content),
            !b ==> (self.deny_of())(*content),
    ;

    /// Runs the sanitize loop on `content`: applies the stored sanitizer
    /// until the stored check accepts the value.
    fn sanitize(&self, content: &mut T)
        requires
            self.call_ready(),
            self.repair_ready(*old(content)),
        ensures
            sanitized(
                self.allow_of(),
                self.deny_of(),
                self.step_of(),
                *old(content),
                *final(content),
            ),
    ;

    /// Privileged: replaces the stored value with no validity check. The
    /// caller owes a later repair before relying on the invariant again.
    fn set_unchecked(&mut self, content: T)
        ensures
            final(self).content() == content,
            final(self).allow_of() == old(self).allow_of(),
            final(self).deny_of() == old(self).deny_of(),
            final(self).step_of() == old(self).step_of(),
            final(self).call_ready() == old(self).call_ready(),
            forall|v: T| (#[trigger] final(self).repair_ready(v)) == old(self).repair_ready(v),
    ;

    /// The complement of the allowed-check.
    fn is_disallowed(&self, content: &T) -> (b: bool)
        requires
            self.call_ready(),
        ensures
            b ==> (self.deny_of())(*content),
            !b ==> (self.allow_of())(*content),
    {
        !self.is_allowed(content)
    }

    /// Applies the stored check to the wrapper's own value.
    fn is_valid(&self) -> (b: bool)
        requires
            self.call_ready(),
        ensures
            b ==> (self.allow_of())(self.content()),
            !b ==> (self.deny_of())(self.content()),
    {
        self.is_allowed(self.as_ref())
    }

    /// Applies the complemented check to the wrapper's own value.
    fn is_invalid(&self) -> (b: bool)
        requires
            self.call_ready(),
        ensures
            b ==> (self.deny_of())(self.content()),
            !b ==> (self.allow_of())(self.content()),
    {
        self.is_disallowed(self.as_ref())
    }

    /// The only safe wholesale replacement: sanitizes the new value, then
    /// commits it through the privileged write.
    fn set(&mut self, new_content: T)
        requires
            old(self).call_ready(),
            old(self).repair_ready(new_content),
        ensures
            final(self).allow_of() == old(self).allow_of(),
            final(self).deny_of() == old(self).deny_of(),
            final(self).step_of() == old(self).step_of(),
            final(self).call_ready() == old(self).call_ready(),
            forall|v: T| (#[trigger] final(self).repair_ready(v)) == old(self).repair_ready(v),
            sanitized(
                old(self).allow_of(),
                old(self).deny_of(),
                old(self).step_of(),
                new_content,
                final(self).content(),
            ),
            (final(self).allow_of())(final(self).content()),
    {
        let mut content = new_content;
        self.sanitize(&mut content);
        self.set_unchecked(content);
    }

    /// A duplicate of the current value, without the check or the sanitizer.
    fn clone_inner(&self) -> (r: T) where T: Clone
        ensures
            cloned::<T>(self.content(), r),
    {
        self.as_ref().clone()
    }
}

} // verus!
