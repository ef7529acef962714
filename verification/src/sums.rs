//! Exact running sums of samples and of their squares.

use vstd::prelude::*;

use crate::report::Quantity;

verus! {

/// The sum of the samples.
pub open spec fn sum_of(s: Seq<u64>) -> nat
    decreases s.len(),
{
    if s.len() == 0 {
        0
    } else {
        sum_of(s.drop_last()) + s.last() as nat
    }
}

/// The sum of the squares of the samples.
pub open spec fn sum_of_squares(s: Seq<u64>) -> nat
    decreases s.len(),
{
    if s.len() == 0 {
        0
    } else {
        sum_of_squares(s.drop_last()) + (s.last() as nat) * (s.last() as nat)
    }
}

/// Two to the power of 128. How often it goes into a sum of squares is counted
/// apart: the square of one sample alone can take up all of a `u128`.
pub open spec fn squares_unit() -> nat {
    (u128::MAX + 1) as nat
}

/// Count, sum and sum of squares of the samples seen so far.
#[derive(Debug, Clone, Copy, PartialEq, Eq, Structural)]
pub struct PowerSums {
    pub count: u64,
    pub sum: u128,
    /// The sum of squares, divided by two to the power of 128.
    pub sq_high: u64,
    /// What that division leaves.
    pub sq_low: u128,
}

impl PowerSums {
    /// The sum of squares.
    pub open spec fn squares(self) -> nat {
        (self.sq_high * squares_unit() + self.sq_low) as nat
    }

    /// Whether these are the sums of `s`.
    pub open spec fn sums(self, s: Seq<u64>) -> bool {
        &&& self.count == s.len()
        &&& self.sum == sum_of(s)
        &&& self.squares() == sum_of_squares(s)
    }

    /// What any samples' sums stay below.
    pub open spec fn wf(self) -> bool {
        &&& self.sum <= self.count * u64::MAX
        &&& self.squares() <= self.count * (u64::MAX * u64::MAX)
    }

    /// The sums of no samples.
    pub fn new() -> (r: PowerSums)
        ensures
            r == (PowerSums { count: 0, sum: 0, sq_high: 0, sq_low: 0 }),
            r.wf(),
            r.sums(Seq::empty()),
    {
        PowerSums { count: 0, sum: 0, sq_high: 0, sq_low: 0 }
    }

    /// Takes in one more sample.
    pub fn record(&mut self, value: u64)
        requires
            old(self).wf(),
            old(self).count < u64::MAX,
        ensures
            final(self).wf(),
            final(self).count == old(self).count + 1,
            final(self).sum == old(self).sum + value,
            final(self).squares() == old(self).squares() + value * value,
            forall|s: Seq<u64>| #[trigger]
                old(self).sums(s) ==> final(self).sums(s.push(value)),
    {
        let ghost before = *self;
        proof {
            lemma_room(before, value);
        }
        let square: u128 = (value as u128) * (value as u128);
        self.count = self.count + 1;
        self.sum = self.sum + value as u128;
        if self.sq_low <= u128::MAX - square {
            self.sq_low = self.sq_low + square;
        } else {
            self.sq_low = self.sq_low - (u128::MAX - square) - 1;
            self.sq_high = self.sq_high + 1;
        }
        proof {
            let h = before.sq_high as int;
            let u = squares_unit() as int;
            assert((h + 1) * u == h * u + u) by (nonlinear_arith);
            assert(square == value * value);
            assert(self.squares() == before.squares() + value * value);
            assert(self.sum == before.sum + value);
        }
        assert forall|s: Seq<u64>| #[trigger] old(self).sums(s) implies self.sums(
            s.push(value),
        ) by {
            assert(s.push(value).drop_last() =~= s);
        }
    }

    /// The arithmetic mean; zero where there is no sample.
    pub fn mean(&self) -> (q: Quantity)
        ensures
            q == (Quantity::Mean { sum: self.sum, count: self.count }),
    {
        Quantity::Mean { sum: self.sum, count: self.count }
    }

    /// The population standard deviation.
    pub fn std_dev(&self) -> (q: Quantity)
        ensures
            q == (Quantity::StdDev {
                count: self.count,
                sum: self.sum,
                sq_high: self.sq_high,
                sq_low: self.sq_low,
            }),
    {
        Quantity::StdDev {
            count: self.count,
            sum: self.sum,
            sq_high: self.sq_high,
            sq_low: self.sq_low,
        }
    }
}

/// One more sample fits into the sums.
proof fn lemma_room(p: PowerSums, value: u64)
    requires
        p.wf(),
        p.count < u64::MAX,
    ensures
        value * value <= u64::MAX * u64::MAX <= u128::MAX,
        p.sum + value <= (p.count + 1) * u64::MAX <= u128::MAX,
        p.squares() + value * value <= (p.count + 1) * (u64::MAX * u64::MAX),
        p.squares() + value * value < (u64::MAX + 1) * squares_unit(),
        p.sq_low + value * value > u128::MAX ==> p.sq_high < u64::MAX,
{
    let m: int = u64::MAX as int;
    let v: int = value as int;
    let c: int = p.count as int;
    assert(v * v <= m * m) by (nonlinear_arith)
        requires
            0 <= v <= m,
    ;
    assert(m * m <= u128::MAX) by (nonlinear_arith)
        requires
            m == u64::MAX as int,
    ;
    assert((c + 1) * m == c * m + m) by (nonlinear_arith);
    assert((c + 1) * m <= m * m) by (nonlinear_arith)
        requires
            0 <= c < m,
            0 <= m,
    ;
    assert((c + 1) * (m * m) == c * (m * m) + m * m) by (nonlinear_arith);
    assert((c + 1) * (m * m) <= m * (m * m)) by (nonlinear_arith)
        requires
            0 <= c < m,
            0 <= m * m,
    ;
    assert(m * (m * m) < (u64::MAX + 1) * squares_unit()) by (nonlinear_arith)
        requires
            m == u64::MAX as int,
    ;
}

/// The largest of the samples; zero where there is none.
pub open spec fn largest_of(s: Seq<u64>) -> u64
    decreases s.len(),
{
    if s.len() == 0 {
        0
    } else if s.last() > largest_of(s.drop_last()) {
        s.last()
    } else {
        largest_of(s.drop_last())
    }
}

/// The smallest of the samples; zero where there is none.
pub open spec fn smallest_of(s: Seq<u64>) -> u64
    decreases s.len(),
{
    if s.len() == 0 {
        0
    } else if s.len() == 1 || s.last() < smallest_of(s.drop_last()) {
        s.last()
    } else {
        smallest_of(s.drop_last())
    }
}

/// The mean of the samples; zero where there is none.
pub open spec fn mean_of(s: Seq<u64>) -> Quantity {
    Quantity::Mean { sum: sum_of(s) as u128, count: s.len() as u64 }
}

/// A sum of samples stays below what as many of the largest would give.
pub proof fn lemma_sum_bound(s: Seq<u64>)
    ensures
        sum_of(s) <= s.len() * u64::MAX,
    decreases s.len(),
{
    if s.len() > 0 {
        lemma_sum_bound(s.drop_last());
        let n = s.len() as int;
        assert((n - 1) * u64::MAX + u64::MAX == n * u64::MAX) by (nonlinear_arith);
    }
}

/// The largest sample is one of the samples, and none is larger; the smallest
/// is one of them, and none is smaller.
pub proof fn law_extremes(s: Seq<u64>)
    requires
        s.len() > 0,
    ensures
        s.contains(largest_of(s)),
        s.contains(smallest_of(s)),
        forall|i: int| 0 <= i < s.len() ==> smallest_of(s) <= #[trigger] s[i] <= largest_of(s),
    decreases s.len(),
{
    let n = s.len() - 1;
    let t = s.drop_last();
    assert(s[n] == s.last());
    if n > 0 {
        law_extremes(t);
        let a = choose|i: int| 0 <= i < t.len() && t[i] == largest_of(t);
        let b = choose|i: int| 0 <= i < t.len() && t[i] == smallest_of(t);
        assert(s[a] == largest_of(t));
        assert(s[b] == smallest_of(t));
        assert forall|i: int| 0 <= i < s.len() implies smallest_of(s) <= #[trigger] s[i]
            <= largest_of(s) by {
            if i < n {
                assert(s[i] == t[i]);
            }
        }
    } else {
        assert(t =~= Seq::<u64>::empty());
    }
}

/// A sum of squared distances is not negative: `sum (a - x)^2 >= 0`.
proof fn lemma_distances(s: Seq<u64>, x: nat)
    ensures
        sum_of_squares(s) + s.len() * (x * x) >= 2 * (x * sum_of(s)),
    decreases s.len(),
{
    if s.len() > 0 {
        let t = s.drop_last();
        let a = s.last() as int;
        let y = x as int;
        lemma_distances(t, x);
        assert(a * a + y * y >= 2 * (y * a)) by (nonlinear_arith);
        let n = s.len() as int;
        let q = (x * x) as int;
        assert(n * q == (n - 1) * q + q) by (nonlinear_arith);
        let b = sum_of(t) as int;
        assert(y * (b + a) == y * b + y * a) by (nonlinear_arith);
    } else {
        assert(x * sum_of(s) == 0) by (nonlinear_arith)
            requires
                sum_of(s) == 0,
        ;
    }
}

/// The variance of samples is never negative, so it has a square root: the number
/// of samples times the sum of their squares is at least the square of their sum.
pub proof fn law_variance_not_negative(s: Seq<u64>)
    ensures
        s.len() * sum_of_squares(s) >= sum_of(s) * sum_of(s),
    decreases s.len(),
{
    if s.len() > 0 {
        let t = s.drop_last();
        law_variance_not_negative(t);
        let x = s.last() as nat;
        lemma_distances(t, x);
        let n = t.len() as int;
        let q = sum_of_squares(t) as int;
        let b = sum_of(t) as int;
        let y = x as int;
        assert((n + 1) * (q + y * y) >= (b + y) * (b + y)) by (nonlinear_arith)
            requires
                n * q >= b * b,
                q + n * (y * y) >= 2 * (y * b),
        ;
    } else {
        assert(sum_of(s) * sum_of(s) == 0) by (nonlinear_arith)
            requires
                sum_of(s) == 0,
        ;
    }
}

/// The sum of the samples.
pub fn total(v: &Vec<u64>) -> (r: u128)
    ensures
        r == sum_of(v@),
{
    let len: usize = v.len();
    let mut r: u128 = 0;
    let mut i: usize = 0;
    while i < len
        invariant
            i <= len,
            len == v@.len(),
            r == sum_of(v@.take(i as int)),
        decreases len - i,
    {
        proof {
            lemma_sum_bound(v@.take(i as int));
            assert(v@.take(i + 1).drop_last() =~= v@.take(i as int));
            assert(i * u64::MAX <= usize::MAX * u64::MAX) by (nonlinear_arith)
                requires
                    0 <= i <= usize::MAX,
            ;
            assert(usize::MAX * u64::MAX + u64::MAX <= u128::MAX);
        }
        r = r + v[i] as u128;
        i = i + 1;
    }
    assert(v@.take(len as int) =~= v@);
    r
}

/// The largest of the samples; zero where there is none.
pub fn largest(v: &Vec<u64>) -> (r: u64)
    ensures
        r == largest_of(v@),
{
    let len: usize = v.len();
    let mut r: u64 = 0;
    let mut i: usize = 0;
    while i < len
        invariant
            i <= len,
            len == v@.len(),
            r == largest_of(v@.take(i as int)),
        decreases len - i,
    {
        assert(v@.take(i + 1).drop_last() =~= v@.take(i as int));
        if v[i] > r {
            r = v[i];
        }
        i = i + 1;
    }
    assert(v@.take(len as int) =~= v@);
    r
}

/// The smallest of the samples; zero where there is none.
pub fn smallest(v: &Vec<u64>) -> (r: u64)
    ensures
        r == smallest_of(v@),
{
    let len: usize = v.len();
    let mut r: u64 = 0;
    let mut i: usize = 0;
    while i < len
        invariant
            i <= len,
            len == v@.len(),
            r == smallest_of(v@.take(i as int)),
        decreases len - i,
    {
        assert(v@.take(i + 1).drop_last() =~= v@.take(i as int));
        if i == 0 || v[i] < r {
            r = v[i];
        }
        i = i + 1;
    }
    assert(v@.take(len as int) =~= v@);
    r
}

/// The mean of the samples; zero where there is none.
pub fn mean(v: &Vec<u64>) -> (q: Quantity)
    ensures
        q == mean_of(v@),
{
    Quantity::Mean { sum: total(v), count: v.len() as u64 }
}

/// Sums add up: the sum over samples put one behind the other is the sum of the
/// two sums, and one sample sums to itself; so for the squares.
pub proof fn law_sums_add_up(a: Seq<u64>, b: Seq<u64>, x: u64)
    ensures
        sum_of(a + b) == sum_of(a) + sum_of(b),
        sum_of_squares(a + b) == sum_of_squares(a) + sum_of_squares(b),
        sum_of(seq![x]) == x,
        sum_of_squares(seq![x]) == x * x,
        sum_of(Seq::empty()) == 0,
        sum_of_squares(Seq::empty()) == 0,
    decreases b.len(),
{
    let one = seq![x];
    assert(one.drop_last() =~= Seq::<u64>::empty());
    assert(sum_of(one.drop_last()) == 0 && sum_of_squares(one.drop_last()) == 0);
    if b.len() > 0 {
        law_sums_add_up(a, b.drop_last(), x);
        assert((a + b).drop_last() =~= a + b.drop_last());
    } else {
        assert(a + b =~= a);
    }
}

/// A sum lies between what as many of the smallest and of the largest would give,
/// so that the mean lies between the smallest and the largest.
pub proof fn law_mean_between_extremes(s: Seq<u64>, low: nat, high: nat)
    requires
        forall|i: int| 0 <= i < s.len() ==> low <= #[trigger] s[i] <= high,
    ensures
        low * s.len() <= sum_of(s) <= high * s.len(),
    decreases s.len(),
{
    if s.len() > 0 {
        let t = s.drop_last();
        let n = s.len() as int;
        assert forall|i: int| 0 <= i < t.len() implies low <= #[trigger] t[i] <= high by {
            assert(t[i] == s[i]);
        }
        law_mean_between_extremes(t, low, high);
        assert(s[n - 1] == s.last());
        let l = low as int;
        let h = high as int;
        assert(l * n == l * (n - 1) + l && h * n == h * (n - 1) + h) by (nonlinear_arith);
    } else {
        assert(low * s.len() == 0 && high * s.len() == 0) by (nonlinear_arith)
            requires
                s.len() == 0,
        ;
    }
}

/// The mean is the sum of all samples over their number.
pub proof fn law_mean_is_sum_over_count(s: Seq<u64>)
    requires
        s.len() <= u64::MAX,
    ensures
        mean_of(s) matches Quantity::Mean { sum, count } && sum == sum_of(s) && count == s.len(),
{
    lemma_sum_bound(s);
    assert(s.len() * u64::MAX <= u64::MAX * u64::MAX) by (nonlinear_arith)
        requires
            0 <= s.len() <= u64::MAX,
    ;
    assert(u64::MAX * u64::MAX <= u128::MAX) by (nonlinear_arith);
}

/// Of no samples, the largest and the smallest are zero.
pub proof fn law_no_extremes()
    ensures
        largest_of(Seq::empty()) == 0,
        smallest_of(Seq::empty()) == 0,
{
}

} // verus!
