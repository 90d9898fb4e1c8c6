//! The relaxed-arithmetic wrapper and its operator dispatch layer.

use vstd::prelude::*;

verus! {

/// The relaxed arithmetic primitives of a floating-point value type.
///
/// An implementation supplies, for each of the five binary operators, the
/// platform's relaxed ("fast-math") operation. Such an operation assumes
/// both operands are finite — neither NaN nor an infinity — and its result
/// is undefined otherwise; here that assumption is the `requires` clause of
/// each method, so a verified caller must establish it at every call site.
///
/// The verifier cannot hold floating-point values, so implementations live
/// outside the verified library. The contract states only that, on finite
/// operands, each operation is a fixed function of the two operands — which
/// `add_spec` and its siblings name, without saying what value it is.
pub trait FastFloat: Sized + Copy {
    /// Whether the relaxed precondition holds of the value: finite,
    /// neither NaN nor an infinity.
    spec fn finite(self) -> bool;

    /// What `fast_add` returns on finite operands.
    spec fn add_spec(self, other: Self) -> Self;

    /// What `fast_sub` returns on finite operands.
    spec fn sub_spec(self, other: Self) -> Self;

    /// What `fast_mul` returns on finite operands.
    spec fn mul_spec(self, other: Self) -> Self;

    /// What `fast_div` returns on finite operands.
    spec fn div_spec(self, other: Self) -> Self;

    /// What `fast_rem` returns on finite operands.
    spec fn rem_spec(self, other: Self) -> Self;

    /// Relaxed addition. Both operands must be finite.
    fn fast_add(self, other: Self) -> (r: Self)
        requires
            self.finite(),
            other.finite(),
        ensures
            r == self.add_spec(other),
    ;

    /// Relaxed subtraction. Both operands must be finite.
    fn fast_sub(self, other: Self) -> (r: Self)
        requires
            self.finite(),
            other.finite(),
        ensures
            r == self.sub_spec(other),
    ;

    /// Relaxed multiplication. Both operands must be finite.
    fn fast_mul(self, other: Self) -> (r: Self)
        requires
            self.finite(),
            other.finite(),
        ensures
            r == self.mul_spec(other),
    ;

    /// Relaxed division. Both operands must be finite.
    fn fast_div(self, other: Self) -> (r: Self)
        requires
            self.finite(),
            other.finite(),
        ensures
            r == self.div_spec(other),
    ;

    /// Relaxed remainder. Both operands must be finite.
    fn fast_rem(self, other: Self) -> (r: Self)
        requires
            self.finite(),
            other.finite(),
        ensures
            r == self.rem_spec(other),
    ;
}

/// Relaxed-arithmetic wrapper for a floating-point value.
///
/// `Fast` enforces no invariant and can hold any value of `F`, NaN and the
/// infinities included: it is a pure representation-transparency layer, one
/// field and nothing more. Only its five arithmetic operations — available
/// when `F` supplies them through [`FastFloat`] — carry the relaxed
/// contract; construction, extraction and the derived comparisons leave the
/// held value and its meaning untouched.
#[derive(Clone, Copy, PartialEq, PartialOrd, Default)]
pub struct Fast<F>(pub F);

impl<F> Fast<F> {
    /// The held value, as the contracts speak of it.
    pub open spec fn value(self) -> F {
        self.0
    }

    /// Get the inner value.
    pub fn get(self) -> (r: F)
        ensures
            r == self.value(),
    {
        self.0
    }
}

impl<F> Fast<F> {
    /// Delegation boundary for an operation of the primitive that returns
    /// the primitive's own type: the operation — never relaxed, carrying
    /// whatever meaning the primitive gives it — is applied to the held
    /// value unchanged, and its result is re-wrapped unchanged.
    pub fn delegate<Op: FnOnce(F) -> F>(self, op: Op) -> (r: Self)
        requires
            call_requires(op, (self.value(),)),
        ensures
            call_ensures(op, (self.value(),), r.value()),
    {
        Fast(op(self.0))
    }

    /// Delegation boundary for an operation whose result is of an
    /// unrelated type — a classification predicate, a bit pattern, a byte
    /// sequence: the result passes through unwrapped.
    pub fn delegate_to<T, Op: FnOnce(F) -> T>(self, op: Op) -> (r: T)
        requires
            call_requires(op, (self.value(),)),
        ensures
            call_ensures(op, (self.value(),), r),
    {
        op(self.0)
    }

    /// Delegation boundary for a two-argument operation of the primitive —
    /// copy-sign, hypotenuse, the two-argument arctangent: both held values
    /// pass through unchanged and the result is re-wrapped unchanged.
    pub fn delegate_with<Op: FnOnce(F, F) -> F>(self, other: Self, op: Op) -> (r: Self)
        requires
            call_requires(op, (self.value(), other.value())),
        ensures
            call_ensures(op, (self.value(), other.value()), r.value()),
    {
        Fast(op(self.0, other.0))
    }

    /// Delegation boundary for an operation returning a pair of the
    /// primitive's own type, as the combined sine-cosine does: both
    /// components are re-wrapped unchanged.
    pub fn delegate_pair<Op: FnOnce(F) -> (F, F)>(self, op: Op) -> (r: (Self, Self))
        requires
            call_requires(op, (self.value(),)),
        ensures
            call_ensures(op, (self.value(),), (r.0.value(), r.1.value())),
    {
        let (a, b) = op(self.0);
        (Fast(a), Fast(b))
    }
}

impl<F> From<F> for Fast<F> {
    /// Wrap a value; the wrapper holds exactly `x`.
    fn from(x: F) -> (r: Self)
        ensures
            r.value() == x,
    {
        Fast(x)
    }
}

impl<F> vstd::std_specs::convert::FromSpecImpl<F> for Fast<F> {
    open spec fn obeys_from_spec() -> bool {
        true
    }

    open spec fn from_spec(x: F) -> Self {
        (Fast(x))
    }
}

impl<F: FastFloat> Fast<F> {
    /// Wrapper plus primitive: the canonical form, and the one place the
    /// relaxed operation is invoked. Both operands must be finite.
    pub fn add(self, rhs: F) -> (r: Self)
        requires
            self.value().finite(),
            rhs.finite(),
        ensures
            r.value() == self.value().add_spec(rhs),
    {
        Fast(self.0.fast_add(rhs))
    }

    /// Wrapper minus primitive. Both operands must be finite.
    pub fn sub(self, rhs: F) -> (r: Self)
        requires
            self.value().finite(),
            rhs.finite(),
        ensures
            r.value() == self.value().sub_spec(rhs),
    {
        Fast(self.0.fast_sub(rhs))
    }

    /// Wrapper times primitive. Both operands must be finite.
    pub fn mul(self, rhs: F) -> (r: Self)
        requires
            self.value().finite(),
            rhs.finite(),
        ensures
            r.value() == self.value().mul_spec(rhs),
    {
        Fast(self.0.fast_mul(rhs))
    }

    /// Wrapper over primitive. Both operands must be finite.
    pub fn div(self, rhs: F) -> (r: Self)
        requires
            self.value().finite(),
            rhs.finite(),
        ensures
            r.value() == self.value().div_spec(rhs),
    {
        Fast(self.0.fast_div(rhs))
    }

    /// Wrapper modulo primitive. Both operands must be finite.
    pub fn rem(self, rhs: F) -> (r: Self)
        requires
            self.value().finite(),
            rhs.finite(),
        ensures
            r.value() == self.value().rem_spec(rhs),
    {
        Fast(self.0.fast_rem(rhs))
    }

    /// Wrapper plus wrapper: unwraps the right operand and dispatches to
    /// the canonical form, so its result is the same one `add` gives.
    pub fn add_wrapped(self, rhs: Self) -> (r: Self)
        requires
            self.value().finite(),
            rhs.value().finite(),
        ensures
            r.value() == self.value().add_spec(rhs.value()),
    {
        self.add(rhs.0)
    }

    /// Wrapper minus wrapper; dispatches to `sub`.
    pub fn sub_wrapped(self, rhs: Self) -> (r: Self)
        requires
            self.value().finite(),
            rhs.value().finite(),
        ensures
            r.value() == self.value().sub_spec(rhs.value()),
    {
        self.sub(rhs.0)
    }

    /// Wrapper times wrapper; dispatches to `mul`.
    pub fn mul_wrapped(self, rhs: Self) -> (r: Self)
        requires
            self.value().finite(),
            rhs.value().finite(),
        ensures
            r.value() == self.value().mul_spec(rhs.value()),
    {
        self.mul(rhs.0)
    }

    /// Wrapper over wrapper; dispatches to `div`.
    pub fn div_wrapped(self, rhs: Self) -> (r: Self)
        requires
            self.value().finite(),
            rhs.value().finite(),
        ensures
            r.value() == self.value().div_spec(rhs.value()),
    {
        self.div(rhs.0)
    }

    /// Wrapper modulo wrapper; dispatches to `rem`.
    pub fn rem_wrapped(self, rhs: Self) -> (r: Self)
        requires
            self.value().finite(),
            rhs.value().finite(),
        ensures
            r.value() == self.value().rem_spec(rhs.value()),
    {
        self.rem(rhs.0)
    }

    /// Primitive plus wrapper: wraps the left operand and dispatches to the
    /// canonical form, so all three operand forms agree.
    pub fn add_left(lhs: F, rhs: Self) -> (r: Self)
        requires
            lhs.finite(),
            rhs.value().finite(),
        ensures
            r.value() == lhs.add_spec(rhs.value()),
    {
        Fast(lhs).add(rhs.0)
    }

    /// Primitive minus wrapper; wraps the left operand and dispatches.
    pub fn sub_left(lhs: F, rhs: Self) -> (r: Self)
        requires
            lhs.finite(),
            rhs.value().finite(),
        ensures
            r.value() == lhs.sub_spec(rhs.value()),
    {
        Fast(lhs).sub(rhs.0)
    }

    /// Primitive times wrapper; wraps the left operand and dispatches.
    pub fn mul_left(lhs: F, rhs: Self) -> (r: Self)
        requires
            lhs.finite(),
            rhs.value().finite(),
        ensures
            r.value() == lhs.mul_spec(rhs.value()),
    {
        Fast(lhs).mul(rhs.0)
    }

    /// Primitive over wrapper; wraps the left operand and dispatches.
    pub fn div_left(lhs: F, rhs: Self) -> (r: Self)
        requires
            lhs.finite(),
            rhs.value().finite(),
        ensures
            r.value() == lhs.div_spec(rhs.value()),
    {
        Fast(lhs).div(rhs.0)
    }

    /// Primitive modulo wrapper; wraps the left operand and dispatches.
    pub fn rem_left(lhs: F, rhs: Self) -> (r: Self)
        requires
            lhs.finite(),
            rhs.value().finite(),
        ensures
            r.value() == lhs.rem_spec(rhs.value()),
    {
        Fast(lhs).rem(rhs.0)
    }

    /// Compound addition: replace self with self plus rhs. Pure composition
    /// over `add`, so the new value is exactly the one `add` returns.
    pub fn add_assign(&mut self, rhs: F)
        requires
            old(self).value().finite(),
            rhs.finite(),
        ensures
            final(self).value() == old(self).value().add_spec(rhs),
    {
        *self = (*self).add(rhs);
    }

    /// Compound subtraction: replace self with self minus rhs.
    pub fn sub_assign(&mut self, rhs: F)
        requires
            old(self).value().finite(),
            rhs.finite(),
        ensures
            final(self).value() == old(self).value().sub_spec(rhs),
    {
        *self = (*self).sub(rhs);
    }

    /// Compound multiplication: replace self with self times rhs.
    pub fn mul_assign(&mut self, rhs: F)
        requires
            old(self).value().finite(),
            rhs.finite(),
        ensures
            final(self).value() == old(self).value().mul_spec(rhs),
    {
        *self = (*self).mul(rhs);
    }

    /// Compound division: replace self with self over rhs.
    pub fn div_assign(&mut self, rhs: F)
        requires
            old(self).value().finite(),
            rhs.finite(),
        ensures
            final(self).value() == old(self).value().div_spec(rhs),
    {
        *self = (*self).div(rhs);
    }

    /// Compound remainder: replace self with self modulo rhs.
    pub fn rem_assign(&mut self, rhs: F)
        requires
            old(self).value().finite(),
            rhs.finite(),
        ensures
            final(self).value() == old(self).value().rem_spec(rhs),
    {
        *self = (*self).rem(rhs);
    }
}

/// Round-trip law: wrapping a value and reading it back yields that value
/// itself, identically — the wrapper holds every value unchanged, NaN
/// payloads, signed zeros and infinities included.
pub proof fn lemma_round_trip<F>(x: F)
    ensures
        (Fast(x)).value() == x,
{
}

} // verus!
