use vstd::prelude::*;

verus! {

/// A numeric value type that the vectors and matrices are built from.
///
/// Each scalar denotes the mathematical integer `val()`. The arithmetic
/// operations are exact: a caller shows that the result lies in the type's
/// range (`in_range`), and then the operation returns exactly that value.
pub trait Scalar: Copy + Sized {
    /// The integer this value stands for.
    spec fn val(self) -> int;

    /// Whether the type can represent the integer `v`.
    spec fn in_range(v: int) -> bool;

    /// Every value lies in the type's range.
    proof fn lemma_val_in_range(x: Self)
        ensures
            Self::in_range(x.val()),
    ;

    /// Two values that stand for the same integer are the same value.
    proof fn lemma_val_injective(a: Self, b: Self)
        ensures
            a.val() == b.val() ==> a == b,
    ;

    /// The additive and multiplicative identities are representable.
    proof fn lemma_identities_in_range()
        ensures
            Self::in_range(0),
            Self::in_range(1),
    ;

    /// The additive identity.
    fn zero() -> (r: Self)
        ensures
            r.val() == 0,
    ;

    /// The multiplicative identity.
    fn one() -> (r: Self)
        ensures
            r.val() == 1,
    ;

    fn plus(self, o: Self) -> (r: Self)
        requires
            Self::in_range(self.val() + o.val()),
        ensures
            r.val() == self.val() + o.val(),
    ;

    fn minus(self, o: Self) -> (r: Self)
        requires
            Self::in_range(self.val() - o.val()),
        ensures
            r.val() == self.val() - o.val(),
    ;

    fn times(self, o: Self) -> (r: Self)
        requires
            Self::in_range(self.val() * o.val()),
        ensures
            r.val() == self.val() * o.val(),
    ;

    /// The sum, or `None` when it is not representable.
    fn checked_plus(self, o: Self) -> (r: Option<Self>)
        ensures
            match r {
                Some(v) => v.val() == self.val() + o.val(),
                None => !Self::in_range(self.val() + o.val()),
            },
    ;

    /// The product, or `None` when it is not representable.
    fn checked_times(self, o: Self) -> (r: Option<Self>)
        ensures
            match r {
                Some(v) => v.val() == self.val() * o.val(),
                None => !Self::in_range(self.val() * o.val()),
            },
    ;
}

impl Scalar for i32 {
    fn checked_plus(self, o: Self) -> (r: Option<Self>) {
        self.checked_add(o)
    }

    fn checked_times(self, o: Self) -> (r: Option<Self>) {
        self.checked_mul(o)
    }

    open spec fn val(self) -> int {
        self as int
    }

    open spec fn in_range(v: int) -> bool {
        i32::MIN <= v <= i32::MAX
    }

    proof fn lemma_val_in_range(x: Self) {
    }

    proof fn lemma_val_injective(a: Self, b: Self) {
    }

    proof fn lemma_identities_in_range() {
    }

    fn zero() -> (r: Self) {
        0
    }

    fn one() -> (r: Self) {
        1
    }

    fn plus(self, o: Self) -> (r: Self) {
        self + o
    }

    fn minus(self, o: Self) -> (r: Self) {
        self - o
    }

    fn times(self, o: Self) -> (r: Self) {
        self * o
    }
}

impl Scalar for u32 {
    fn checked_plus(self, o: Self) -> (r: Option<Self>) {
        self.checked_add(o)
    }

    fn checked_times(self, o: Self) -> (r: Option<Self>) {
        self.checked_mul(o)
    }

    open spec fn val(self) -> int {
        self as int
    }

    open spec fn in_range(v: int) -> bool {
        u32::MIN <= v <= u32::MAX
    }

    proof fn lemma_val_in_range(x: Self) {
    }

    proof fn lemma_val_injective(a: Self, b: Self) {
    }

    proof fn lemma_identities_in_range() {
    }

    fn zero() -> (r: Self) {
        0
    }

    fn one() -> (r: Self) {
        1
    }

    fn plus(self, o: Self) -> (r: Self) {
        self + o
    }

    fn minus(self, o: Self) -> (r: Self) {
        self - o
    }

    fn times(self, o: Self) -> (r: Self) {
        self * o
    }
}

impl Scalar for i64 {
    fn checked_plus(self, o: Self) -> (r: Option<Self>) {
        self.checked_add(o)
    }

    fn checked_times(self, o: Self) -> (r: Option<Self>) {
        self.checked_mul(o)
    }

    open spec fn val(self) -> int {
        self as int
    }

    open spec fn in_range(v: int) -> bool {
        i64::MIN <= v <= i64::MAX
    }

    proof fn lemma_val_in_range(x: Self) {
    }

    proof fn lemma_val_injective(a: Self, b: Self) {
    }

    proof fn lemma_identities_in_range() {
    }

    fn zero() -> (r: Self) {
        0
    }

    fn one() -> (r: Self) {
        1
    }

    fn plus(self, o: Self) -> (r: Self) {
        self + o
    }

    fn minus(self, o: Self) -> (r: Self) {
        self - o
    }

    fn times(self, o: Self) -> (r: Self) {
        self * o
    }
}

impl Scalar for u64 {
    fn checked_plus(self, o: Self) -> (r: Option<Self>) {
        self.checked_add(o)
    }

    fn checked_times(self, o: Self) -> (r: Option<Self>) {
        self.checked_mul(o)
    }

    open spec fn val(self) -> int {
        self as int
    }

    open spec fn in_range(v: int) -> bool {
        u64::MIN <= v <= u64::MAX
    }

    proof fn lemma_val_in_range(x: Self) {
    }

    proof fn lemma_val_injective(a: Self, b: Self) {
    }

    proof fn lemma_identities_in_range() {
    }

    fn zero() -> (r: Self) {
        0
    }

    fn one() -> (r: Self) {
        1
    }

    fn plus(self, o: Self) -> (r: Self) {
        self + o
    }

    fn minus(self, o: Self) -> (r: Self) {
        self - o
    }

    fn times(self, o: Self) -> (r: Self) {
        self * o
    }
}

} // verus!
