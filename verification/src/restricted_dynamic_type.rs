use vstd::prelude::*;
use vstd::std_specs::ops::{
    AddSpec, BitAndSpec, BitOrSpec, BitXorSpec, DivSpec, MulSpec, NegSpec, NotSpec, RemSpec,
    ShlSpec, ShrSpec, SubSpec,
};

use crate::restricted_trait::{
    check_holds, convergent, converges_within, lemma_reaches_self, lemma_reaches_step,
    lemma_valid_value_unmoved, reaches, same_rules, sanitized, Restricted,
};

verus! {

/// The check may answer `true` on `v`.
pub open spec fn passes<T, C: Fn(&T) -> bool>(c: C, v: T) -> bool {
    call_ensures(c, (&v,), true)
}

/// The check may answer `false` on `v`.
pub open spec fn fails<T, C: Fn(&T) -> bool>(c: C, v: T) -> bool {
    call_ensures(c, (&v,), false)
}

/// The accepting verdicts of a check closure, as a predicate over values.
pub open spec fn allows<T, C: Fn(&T) -> bool>(c: C) -> spec_fn(T) -> bool {
    |v: T| passes(c, v)
}

/// The rejecting verdicts of a check closure, as a predicate over values.
pub open spec fn denies<T, C: Fn(&T) -> bool>(c: C) -> spec_fn(T) -> bool {
    |v: T| fails(c, v)
}

/// The rewrites an optional sanitizer may perform; with no sanitizer stored,
/// none.
pub open spec fn steps<T, S: Fn(&T) -> T>(s: Option<S>) -> spec_fn(T, T) -> bool {
    |v: T, w: T| s matches Some(f) && call_ensures(f, (&v,), w)
}

/// The check accepts any value as argument.
pub open spec fn check_callable<T, C: Fn(&T) -> bool>(c: C) -> bool {
    forall|v: T| call_requires(c, (&v,))
}

/// The sanitizer, if one is stored, accepts any value as argument.
pub open spec fn san_callable<T, S: Fn(&T) -> T>(s: Option<S>) -> bool {
    s matches Some(f) ==> forall|v: T| call_requires(f, (&v,))
}

/// The sanitize loop for check `c` and sanitizer `s` can be run on `v` and
/// stops: some iteration bound exists, and with no sanitizer stored the
/// check must be unable to reject `v` in the first place.
pub open spec fn repair_ok<T, C: Fn(&T) -> bool, S: Fn(&T) -> T>(
    c: C,
    s: Option<S>,
    v: T,
) -> bool {
    &&& convergent(denies(c), steps(s), v)
    &&& (s is None ==> !fails(c, v))
}

/// Wraps one value of `T` together with a validity check and a sanitizer,
/// both supplied — and replaceable — at runtime. Every mutation through the
/// safe API drives the value through the sanitize loop before it becomes
/// observable, so the stored value always satisfies the check.
pub struct RestrictedDyn<T, C, S> {
    data: T,
    check: C,
    sanitizer: Option<S>,
}

impl<T, C: Fn(&T) -> bool, S: Fn(&T) -> T> RestrictedDyn<T, C, S> {
    /// The stored check.
    pub closed spec fn checker(&self) -> C {
        self.check
    }

    /// The stored sanitizer; a strictly constructed wrapper has none.
    pub closed spec fn repairer(&self) -> Option<S> {
        self.sanitizer
    }

    /// A wrapper without a sanitizer refuses invalid values instead of
    /// correcting them.
    pub open spec fn is_strict(&self) -> bool {
        self.repairer() is None
    }

    /// Creates a wrapper from a possibly invalid value: stores all three
    /// parts, then runs the sanitize loop on the value until the check
    /// accepts it.
    pub fn new(data: T, check: C, sanitizer: S) -> (r: Self)
        requires
            check_callable(check),
            forall|v: T| call_requires(sanitizer, (&v,)),
            convergent(denies(check), steps(Some(sanitizer)), data),
        ensures
            r.checker() == check,
            r.repairer() == Some(sanitizer),
            sanitized(
                allows(check),
                denies(check),
                steps(Some(sanitizer)),
                data,
                r.content(),
            ),
            check_holds(r),
    {
        let w = RestrictedDyn { data, check, sanitizer: Some(sanitizer) };
        w.into_valid()
    }

    /// Creates a wrapper that refuses invalid values instead of correcting
    /// them: no sanitizer is stored, so the check must be unable to reject
    /// the initial value, and the value is stored unchanged.
    pub fn new_strict(data: T, check: C) -> (r: Self)
        requires
            check_callable(check),
            !fails(check, data),
        ensures
            r.checker() == check,
            r.is_strict(),
            r.content() == data,
            check_holds(r),
    {
        let w = RestrictedDyn { data, check, sanitizer: None };
        let ghost d = w.content();
        proof {
            assert(converges_within(denies(check), steps::<T, S>(None), d, 0));
        }
        let r = w.into_valid();
        proof {
            lemma_valid_value_unmoved(denies(check), steps::<T, S>(None), d, r.content());
        }
        r
    }

    /// Consumes the wrapper, discarding check and sanitizer, and returns the
    /// raw value.
    pub fn into_inner(self) -> (r: T)
        ensures
            r == self.content(),
    {
        let RestrictedDyn { data, check: _, sanitizer: _ } = self;
        data
    }

    /// Consumes the wrapper and returns the check and the sanitizer,
    /// discarding the value.
    pub fn into_checks(self) -> (r: (C, Option<S>))
        ensures
            r.0 == self.checker(),
            r.1 == self.repairer(),
    {
        let RestrictedDyn { data: _, check, sanitizer } = self;
        (check, sanitizer)
    }

    /// Read access to the stored value; never mutates, so no revalidation is
    /// involved.
    pub fn deref(&self) -> (r: &T)
        ensures
            *r == self.content(),
    {
        &self.data
    }

    /// Indexed read access, delegating to the stored value's own indexing;
    /// never mutates, so no revalidation is involved. What the read yields
    /// is whatever the value's indexing yields: the wrapper adds no claim
    /// about interior elements.
    pub fn index<Idx, O>(&self, index: Idx) -> &O where T: core::ops::Index<Idx, Output = O>,
        requires
            vstd::std_specs::core::IndexSpec::index_req(&self.content(), &index),
    {
        self.data.index(index)
    }

    /// Re-runs the sanitize loop against the currently stored value: the
    /// designated repair operation after a privileged unchecked write.
    pub fn make_valid(&mut self)
        requires
            old(self).call_ready(),
            old(self).repair_ready(old(self).content()),
        ensures
            final(self).checker() == old(self).checker(),
            final(self).repairer() == old(self).repairer(),
            same_rules(*old(self), *final(self)),
            sanitized(
                old(self).allow_of(),
                old(self).deny_of(),
                old(self).step_of(),
                old(self).content(),
                final(self).content(),
            ),
            check_holds(*final(self)),
    {
        let ghost deny = old(self).deny_of();
        let ghost step = old(self).step_of();
        let ghost mut fuel: nat = choose|n: nat|
            converges_within(deny, step, old(self).content(), n);
        proof {
            lemma_reaches_self(deny, step, old(self).content());
        }
        while self.is_invalid()
            invariant
                self.checker() == old(self).checker(),
                self.repairer() == old(self).repairer(),
                self.call_ready(),
                deny == old(self).deny_of(),
                step == old(self).step_of(),
                reaches(deny, step, old(self).content(), self.content()),
                converges_within(deny, step, self.content(), fuel),
                self.is_strict() ==> !deny(self.content()),
            decreases fuel,
        {
            let ghost prev = self.content();
            match &self.sanitizer {
                Some(f) => {
                    let next = (*f)(&self.data);
                    proof {
                        lemma_reaches_step(deny, step, old(self).content(), prev, next);
                        fuel = (fuel - 1) as nat;
                    }
                    self.data = next;
                },
                None => {
                    // A strict wrapper holds a value its check cannot
                    // reject, so this arm is unreachable.
                    proof {
                        assert(false);
                    }
                },
            }
        }
    }

    /// Replaces the validity check: first re-validates the current value
    /// against `check` using the existing sanitizer, looping until the new
    /// check accepts it, then installs `check`.
    pub fn set_check(&mut self, check: C)
        requires
            check_callable(check),
            san_callable(old(self).repairer()),
            repair_ok(check, old(self).repairer(), old(self).content()),
        ensures
            final(self).checker() == check,
            final(self).repairer() == old(self).repairer(),
            final(self).call_ready(),
            sanitized(
                allows(check),
                denies(check),
                steps(old(self).repairer()),
                old(self).content(),
                final(self).content(),
            ),
            check_holds(*final(self)),
    {
        let ghost deny = denies(check);
        let ghost step = steps(old(self).repairer());
        let ghost mut fuel: nat = choose|n: nat|
            converges_within(deny, step, old(self).content(), n);
        proof {
            lemma_reaches_self(deny, step, old(self).content());
        }
        while !check(&self.data)
            invariant
                self.repairer() == old(self).repairer(),
                check_callable(check),
                san_callable(self.repairer()),
                deny == denies(check),
                step == steps(self.repairer()),
                reaches(deny, step, old(self).content(), self.content()),
                converges_within(deny, step, self.content(), fuel),
                self.is_strict() ==> !deny(self.content()),
            decreases fuel,
        {
            let ghost prev = self.content();
            match &self.sanitizer {
                Some(f) => {
                    let next = (*f)(&self.data);
                    proof {
                        lemma_reaches_step(deny, step, old(self).content(), prev, next);
                        fuel = (fuel - 1) as nat;
                    }
                    self.data = next;
                },
                None => {
                    // A strict wrapper holds a value its check cannot
                    // reject, so this arm is unreachable.
                    proof {
                        assert(false);
                    }
                },
            }
        }
        self.check = check;
    }

    /// Installs a new sanitizer without re-validation: the current value
    /// already satisfies the current check, so no correction is needed at
    /// swap time.
    pub fn set_sanitizer(&mut self, sanitizer: S)
        ensures
            final(self).checker() == old(self).checker(),
            final(self).repairer() == Some(sanitizer),
            final(self).content() == old(self).content(),
    {
        self.sanitizer = Some(sanitizer);
    }

    /// Replaces check and sanitizer together: re-validates the current value
    /// against `check` using `sanitizer`, looping until the new check
    /// accepts it, then installs both.
    pub fn set_bounds(&mut self, check: C, sanitizer: S)
        requires
            check_callable(check),
            forall|v: T| call_requires(sanitizer, (&v,)),
            repair_ok(check, Some(sanitizer), old(self).content()),
        ensures
            final(self).checker() == check,
            final(self).repairer() == Some(sanitizer),
            sanitized(
                allows(check),
                denies(check),
                steps(Some(sanitizer)),
                old(self).content(),
                final(self).content(),
            ),
            check_holds(*final(self)),
    {
        self.sanitizer = Some(sanitizer);
        self.set_check(check);
    }

    /// Adds `rhs` to the stored value, then re-runs the sanitize loop on the
    /// sum before the wrapper is returned.
    pub fn add<U>(self, rhs: U) -> (r: Self) where T: core::ops::Add<U, Output = T>,
        requires
            self.call_ready(),
            T::obeys_add_spec(),
            self.content().add_req(rhs),
            self.repair_ready(self.content().add_spec(rhs)),
        ensures
            r.checker() == self.checker(),
            r.repairer() == self.repairer(),
            sanitized(
                self.allow_of(),
                self.deny_of(),
                self.step_of(),
                self.content().add_spec(rhs),
                r.content(),
            ),
            check_holds(r),
    {
        let RestrictedDyn { data, check, sanitizer } = self;
        let data = data + rhs;
        RestrictedDyn { data, check, sanitizer }.into_valid()
    }

    /// Subtracts `rhs` from the stored value, then re-runs the sanitize loop
    /// on the difference before the wrapper is returned.
    pub fn sub<U>(self, rhs: U) -> (r: Self) where T: core::ops::Sub<U, Output = T>,
        requires
            self.call_ready(),
            T::obeys_sub_spec(),
            self.content().sub_req(rhs),
            self.repair_ready(self.content().sub_spec(rhs)),
        ensures
            r.checker() == self.checker(),
            r.repairer() == self.repairer(),
            sanitized(
                self.allow_of(),
                self.deny_of(),
                self.step_of(),
                self.content().sub_spec(rhs),
                r.content(),
            ),
            check_holds(r),
    {
        let RestrictedDyn { data, check, sanitizer } = self;
        let data = data - rhs;
        RestrictedDyn { data, check, sanitizer }.into_valid()
    }

    /// Multiplies the stored value by `rhs`, then re-runs the sanitize loop
    /// on the product before the wrapper is returned.
    pub fn mul<U>(self, rhs: U) -> (r: Self) where T: core::ops::Mul<U, Output = T>,
        requires
            self.call_ready(),
            T::obeys_mul_spec(),
            self.content().mul_req(rhs),
            self.repair_ready(self.content().mul_spec(rhs)),
        ensures
            r.checker() == self.checker(),
            r.repairer() == self.repairer(),
            sanitized(
                self.allow_of(),
                self.deny_of(),
                self.step_of(),
                self.content().mul_spec(rhs),
                r.content(),
            ),
            check_holds(r),
    {
        let RestrictedDyn { data, check, sanitizer } = self;
        let data = data * rhs;
        RestrictedDyn { data, check, sanitizer }.into_valid()
    }

    /// Divides the stored value by `rhs`, then re-runs the sanitize loop on
    /// the quotient before the wrapper is returned.
    pub fn div<U>(self, rhs: U) -> (r: Self) where T: core::ops::Div<U, Output = T>,
        requires
            self.call_ready(),
            T::obeys_div_spec(),
            self.content().div_req(rhs),
            self.repair_ready(self.content().div_spec(rhs)),
        ensures
            r.checker() == self.checker(),
            r.repairer() == self.repairer(),
            sanitized(
                self.allow_of(),
                self.deny_of(),
                self.step_of(),
                self.content().div_spec(rhs),
                r.content(),
            ),
            check_holds(r),
    {
        let RestrictedDyn { data, check, sanitizer } = self;
        let data = data / rhs;
        RestrictedDyn { data, check, sanitizer }.into_valid()
    }

    /// Takes the remainder of the stored value by `rhs`, then re-runs the
    /// sanitize loop on it before the wrapper is returned.
    pub fn rem<U>(self, rhs: U) -> (r: Self) where T: core::ops::Rem<U, Output = T>,
        requires
            self.call_ready(),
            T::obeys_rem_spec(),
            self.content().rem_req(rhs),
            self.repair_ready(self.content().rem_spec(rhs)),
        ensures
            r.checker() == self.checker(),
            r.repairer() == self.repairer(),
            sanitized(
                self.allow_of(),
                self.deny_of(),
                self.step_of(),
                self.content().rem_spec(rhs),
                r.content(),
            ),
            check_holds(r),
    {
        let RestrictedDyn { data, check, sanitizer } = self;
        let data = data % rhs;
        RestrictedDyn { data, check, sanitizer }.into_valid()
    }

    /// Bitwise-ands the stored value with `rhs`, then re-runs the sanitize
    /// loop on the result before the wrapper is returned.
    pub fn bitand<U>(self, rhs: U) -> (r: Self) where T: core::ops::BitAnd<U, Output = T>,
        requires
            self.call_ready(),
            T::obeys_bitand_spec(),
            self.content().bitand_req(rhs),
            self.repair_ready(self.content().bitand_spec(rhs)),
        ensures
            r.checker() == self.checker(),
            r.repairer() == self.repairer(),
            sanitized(
                self.allow_of(),
                self.deny_of(),
                self.step_of(),
                self.content().bitand_spec(rhs),
                r.content(),
            ),
            check_holds(r),
    {
        let RestrictedDyn { data, check, sanitizer } = self;
        let data = data & rhs;
        RestrictedDyn { data, check, sanitizer }.into_valid()
    }

    /// Bitwise-ors the stored value with `rhs`, then re-runs the sanitize
    /// loop on the result before the wrapper is returned.
    pub fn bitor<U>(self, rhs: U) -> (r: Self) where T: core::ops::BitOr<U, Output = T>,
        requires
            self.call_ready(),
            T::obeys_bitor_spec(),
            self.content().bitor_req(rhs),
            self.repair_ready(self.content().bitor_spec(rhs)),
        ensures
            r.checker() == self.checker(),
            r.repairer() == self.repairer(),
            sanitized(
                self.allow_of(),
                self.deny_of(),
                self.step_of(),
                self.content().bitor_spec(rhs),
                r.content(),
            ),
            check_holds(r),
    {
        let RestrictedDyn { data, check, sanitizer } = self;
        let data = data | rhs;
        RestrictedDyn { data, check, sanitizer }.into_valid()
    }

    /// Bitwise-xors the stored value with `rhs`, then re-runs the sanitize
    /// loop on the result before the wrapper is returned.
    pub fn bitxor<U>(self, rhs: U) -> (r: Self) where T: core::ops::BitXor<U, Output = T>,
        requires
            self.call_ready(),
            T::obeys_bitxor_spec(),
            self.content().bitxor_req(rhs),
            self.repair_ready(self.content().bitxor_spec(rhs)),
        ensures
            r.checker() == self.checker(),
            r.repairer() == self.repairer(),
            sanitized(
                self.allow_of(),
                self.deny_of(),
                self.step_of(),
                self.content().bitxor_spec(rhs),
                r.content(),
            ),
            check_holds(r),
    {
        let RestrictedDyn { data, check, sanitizer } = self;
        let data = data ^ rhs;
        RestrictedDyn { data, check, sanitizer }.into_valid()
    }

    /// Shifts the stored value left by `rhs`, then re-runs the sanitize loop
    /// on the result before the wrapper is returned.
    pub fn shl<U>(self, rhs: U) -> (r: Self) where T: core::ops::Shl<U, Output = T>,
        requires
            self.call_ready(),
            T::obeys_shl_spec(),
            self.content().shl_req(rhs),
            self.repair_ready(self.content().shl_spec(rhs)),
        ensures
            r.checker() == self.checker(),
            r.repairer() == self.repairer(),
            sanitized(
                self.allow_of(),
                self.deny_of(),
                self.step_of(),
                self.content().shl_spec(rhs),
                r.content(),
            ),
            check_holds(r),
    {
        let RestrictedDyn { data, check, sanitizer } = self;
        let data = data << rhs;
        RestrictedDyn { data, check, sanitizer }.into_valid()
    }

    /// Shifts the stored value right by `rhs`, then re-runs the sanitize
    /// loop on the result before the wrapper is returned.
    pub fn shr<U>(self, rhs: U) -> (r: Self) where T: core::ops::Shr<U, Output = T>,
        requires
            self.call_ready(),
            T::obeys_shr_spec(),
            self.content().shr_req(rhs),
            self.repair_ready(self.content().shr_spec(rhs)),
        ensures
            r.checker() == self.checker(),
            r.repairer() == self.repairer(),
            sanitized(
                self.allow_of(),
                self.deny_of(),
                self.step_of(),
                self.content().shr_spec(rhs),
                r.content(),
            ),
            check_holds(r),
    {
        let RestrictedDyn { data, check, sanitizer } = self;
        let data = data >> rhs;
        RestrictedDyn { data, check, sanitizer }.into_valid()
    }

    /// Negates the stored value, then re-runs the sanitize loop on the
    /// result before the wrapper is returned.
    pub fn neg(self) -> (r: Self) where T: core::ops::Neg<Output = T>,
        requires
            self.call_ready(),
            T::obeys_neg_spec(),
            self.content().neg_req(),
            self.repair_ready(self.content().neg_spec()),
        ensures
            r.checker() == self.checker(),
            r.repairer() == self.repairer(),
            sanitized(
                self.allow_of(),
                self.deny_of(),
                self.step_of(),
                self.content().neg_spec(),
                r.content(),
            ),
            check_holds(r),
    {
        let RestrictedDyn { data, check, sanitizer } = self;
        let data = data.neg();
        RestrictedDyn { data, check, sanitizer }.into_valid()
    }

    /// Applies logical or bitwise not to the stored value, then re-runs the
    /// sanitize loop on the result before the wrapper is returned.
    pub fn not(self) -> (r: Self) where T: core::ops::Not<Output = T>,
        requires
            self.call_ready(),
            T::obeys_not_spec(),
            self.content().not_req(),
            self.repair_ready(self.content().not_spec()),
        ensures
            r.checker() == self.checker(),
            r.repairer() == self.repairer(),
            sanitized(
                self.allow_of(),
                self.deny_of(),
                self.step_of(),
                self.content().not_spec(),
                r.content(),
            ),
            check_holds(r),
    {
        let RestrictedDyn { data, check, sanitizer } = self;
        let data = data.not();
        RestrictedDyn { data, check, sanitizer }.into_valid()
    }

    /// Runs the sanitize loop on the value, consuming and returning the
    /// wrapper; used by the constructors.
    fn into_valid(self) -> (r: Self)
        requires
            self.call_ready(),
            self.repair_ready(self.content()),
        ensures
            r.checker() == self.checker(),
            r.repairer() == self.repairer(),
            sanitized(
                self.allow_of(),
                self.deny_of(),
                self.step_of(),
                self.content(),
                r.content(),
            ),
            check_holds(r),
    {
        let mut r = self;
        r.make_valid();
        r
    }
}

impl<T, C: Fn(&T) -> bool, S: Fn(&T) -> T> Restricted<T> for RestrictedDyn<T, C, S> {
    closed spec fn content(&self) -> T {
        self.data
    }

    open spec fn allow_of(&self) -> spec_fn(T) -> bool {
        allows(self.checker())
    }

    open spec fn deny_of(&self) -> spec_fn(T) -> bool {
        denies(self.checker())
    }

    open spec fn step_of(&self) -> spec_fn(T, T) -> bool {
        steps(self.repairer())
    }

    open spec fn call_ready(&self) -> bool {
        check_callable(self.checker()) && san_callable(self.repairer())
    }

    open spec fn repair_ready(&self, v: T) -> bool {
        repair_ok(self.checker(), self.repairer(), v)
    }

    fn as_ref(&self) -> (r: &T) {
        &self.data
    }

    fn is_allowed(&self, content: &T) -> (b: bool) {
        (self.check)(content)
    }

    fn sanitize(&self, content: &mut T) {
        let ghost deny = self.deny_of();
        let ghost step = self.step_of();
        let ghost mut fuel: nat = choose|n: nat|
            converges_within(deny, step, *old(content), n);
        proof {
            lemma_reaches_self(deny, step, *old(content));
        }
        while self.is_disallowed(content)
            invariant
                self.call_ready(),
                deny == self.deny_of(),
                step == self.step_of(),
                reaches(deny, step, *old(content), *content),
                converges_within(deny, step, *content, fuel),
                self.is_strict() ==> !deny(*content),
            decreases fuel,
        {
            let ghost prev = *content;
            match &self.sanitizer {
                Some(f) => {
                    let next = (*f)(content);
                    proof {
                        lemma_reaches_step(deny, step, *old(content), prev, next);
                        fuel = (fuel - 1) as nat;
                    }
                    *content = next;
                },
                None => {
                    // A strict wrapper holds a value its check cannot
                    // reject, so this arm is unreachable.
                    proof {
                        assert(false);
                    }
                },
            }
        }
    }

    fn set_unchecked(&mut self, content: T) {
        self.data = content;
    }
}

/// Law: repairing an already-valid wrapper leaves its value unchanged, with
/// zero sanitizer applications. The first premise is what the repair
/// operation ensures; the second says the check could not have rejected the
/// value it started from.
pub proof fn lemma_repair_idempotent<T, C: Fn(&T) -> bool, S: Fn(&T) -> T>(
    before: RestrictedDyn<T, C, S>,
    after: RestrictedDyn<T, C, S>,
)
    requires
        sanitized(
            before.allow_of(),
            before.deny_of(),
            before.step_of(),
            before.content(),
            after.content(),
        ),
        !(before.deny_of())(before.content()),
    ensures
        after.content() == before.content(),
{
    lemma_valid_value_unmoved(
        before.deny_of(),
        before.step_of(),
        before.content(),
        after.content(),
    );
}

/// Law: constructing from a value the check cannot reject stores exactly
/// that value, with zero sanitizer applications. The first premise is what
/// construction ensures; the second says the check could not have rejected
/// the initial value.
pub proof fn lemma_new_keeps_valid_input<T, C: Fn(&T) -> bool, S: Fn(&T) -> T>(
    check: C,
    sanitizer: S,
    data: T,
    made: RestrictedDyn<T, C, S>,
)
    requires
        sanitized(
            allows(check),
            denies(check),
            steps(Some(sanitizer)),
            data,
            made.content(),
        ),
        !fails(check, data),
    ensures
        made.content() == data,
{
    lemma_valid_value_unmoved(denies(check), steps(Some(sanitizer)), data, made.content());
}

} // verus!
