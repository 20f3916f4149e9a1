use crate::decimal::{append_decimal, decimal_text, digit_char, digit_str};
use crate::solver::Solution;
use vstd::prelude::*;

verus! {

/// A rate of work: `hashes` candidates hashed in `micros` microseconds.
#[derive(Debug, Clone, Copy, PartialEq, Eq, Structural)]
pub struct HashRate {
    pub hashes: u64,
    pub micros: u128,
}

/// `num / den` rounded to the nearest whole number, a tie going to the even
/// neighbour.
pub open spec fn rounded_quotient(num: nat, den: nat) -> nat
    recommends
        den > 0,
{
    let q = num / den;
    let r = num % den;
    if 2 * r > den || (2 * r == den && q % 2 == 1) {
        q + 1
    } else {
        q
    }
}

/// Two decimal places of a value given in hundredths: the whole part, a
/// point, two digits.
pub open spec fn fixed2_text(hundredths: nat) -> Seq<char> {
    decimal_text(hundredths / 100) + seq![
        '.',
        digit_char(hundredths / 10 % 10),
        digit_char(hundredths % 10),
    ]
}

impl HashRate {
    /// Whether the rate is at least `threshold` hashes per second.
    pub open spec fn reaches(self, threshold: nat) -> bool {
        self.hashes * 1_000_000 >= threshold * self.micros
    }

    /// The rate in hundredths of `unit` hashes per second, rounded.
    pub open spec fn hundredths(self, unit: nat) -> nat
        recommends
            self.micros > 0,
            unit > 0,
    {
        rounded_quotient(self.hashes as nat * 100_000_000, self.micros as nat * unit)
    }

    /// The rate in hashes per second with two decimal places. No time at
    /// all gives `inf`, or `NaN` where nothing was hashed either.
    pub open spec fn plain_text(self) -> Seq<char> {
        if self.micros == 0 {
            if self.hashes == 0 {
                "NaN"@
            } else {
                "inf"@
            }
        } else {
            fixed2_text(self.hundredths(1))
        }
    }

    /// The rate in the largest of the units GH/s, MH/s, kH/s and H/s that it
    /// reaches, with two decimal places.
    pub open spec fn scaled_text(self) -> Seq<char> {
        if self.micros == 0 {
            if self.hashes == 0 {
                "NaN H/s"@
            } else {
                "inf GH/s"@
            }
        } else if self.reaches(1_000_000_000) {
            fixed2_text(self.hundredths(1_000_000_000)) + " GH/s"@
        } else if self.reaches(1_000_000) {
            fixed2_text(self.hundredths(1_000_000)) + " MH/s"@
        } else if self.reaches(1_000) {
            fixed2_text(self.hundredths(1_000)) + " kH/s"@
        } else {
            fixed2_text(self.hundredths(1)) + " H/s"@
        }
    }

    /// A rate of `hashes` per second.
    pub fn per_second(hashes: u64) -> (rate: HashRate)
        ensures
            rate == (HashRate { hashes, micros: 1_000_000 }),
    {
        HashRate { hashes, micros: 1_000_000 }
    }

    /// The rate at which a solution was found: its nonce counts the hashes,
    /// as a million times the nonce over the microseconds taken.
    pub fn of_solution(solution: &Solution) -> (rate: HashRate)
        ensures
            rate == (HashRate { hashes: solution.nonce, micros: solution.elapsed_us }),
    {
        HashRate { hashes: solution.nonce, micros: solution.elapsed_us }
    }

    /// Whether the rate is at least `threshold` hashes per second.
    pub fn at_least(&self, threshold: u64) -> (b: bool)
        ensures
            b == self.reaches(threshold as nat),
    {
        let scaled: u128 = self.hashes as u128 * 1_000_000;
        if threshold == 0 {
            return true;
        }
        let limit: u128 = u128::MAX / (threshold as u128);
        if self.micros > limit {
            assert(threshold * self.micros > scaled) by (nonlinear_arith)
                requires
                    threshold > 0,
                    self.micros > limit,
                    limit == u128::MAX / (threshold as u128),
                    scaled <= u128::MAX,
            ;
            false
        } else {
            assert(threshold * self.micros <= u128::MAX) by (nonlinear_arith)
                requires
                    threshold > 0,
                    self.micros <= limit,
                    limit == u128::MAX / (threshold as u128),
            ;
            scaled >= threshold as u128 * self.micros
        }
    }

    /// The rate in hundredths of `unit` hashes per second, rounded to the
    /// nearest, a tie going to the even neighbour.
    pub(crate) fn in_hundredths(&self, unit: u64) -> (h: u128)
        requires
            self.micros > 0,
            unit > 0,
        ensures
            h == self.hundredths(unit as nat),
    {
        let num: u128 = self.hashes as u128 * 100_000_000;
        let limit: u128 = u128::MAX / (unit as u128);
        if self.micros > limit {
            proof {
                let den = self.micros as nat * unit as nat;
                assert(den > 2 * num) by (nonlinear_arith)
                    requires
                        unit > 0,
                        self.micros > limit,
                        limit == u128::MAX / (unit as u128),
                        2 * num <= u128::MAX,
                        den == self.micros as nat * unit as nat,
                ;
                vstd::arithmetic::div_mod::lemma_small_mod(num as nat, den);
                vstd::arithmetic::div_mod::lemma_basic_div(num as int, den as int);
            }
            return 0;
        }
        assert(self.micros * unit <= u128::MAX && self.micros * unit > 0) by (nonlinear_arith)
            requires
                unit > 0,
                self.micros > 0,
                self.micros <= limit,
                limit == u128::MAX / (unit as u128),
        ;
        let den: u128 = self.micros * (unit as u128);
        let q: u128 = num / den;
        let r: u128 = num % den;
        assert(q <= num) by (nonlinear_arith)
            requires
                q == num / den,
                den > 0,
        ;
        if r > den - r || (r == den - r && q % 2 == 1) {
            q + 1
        } else {
            q
        }
    }

    /// Renders the rate in hashes per second with two decimal places.
    pub fn to_plain_string(&self) -> (s: String)
        ensures
            s@ == self.plain_text(),
    {
        if self.micros == 0 {
            if self.hashes == 0 {
                String::from_str("NaN")
            } else {
                String::from_str("inf")
            }
        } else {
            let mut out = String::new();
            append_fixed2(self.in_hundredths(1), &mut out);
            assert(out@ =~= fixed2_text(self.hundredths(1)));
            out
        }
    }
}

/// Appends a value given in hundredths with two decimal places.
pub fn append_fixed2(hundredths: u128, out: &mut String)
    ensures
        final(out)@ == old(out)@ + fixed2_text(hundredths as nat),
{
    append_decimal(hundredths / 100, out);
    proof {
        reveal_strlit(".");
    }
    out.append(".");
    out.append(digit_str((hundredths / 10 % 10) as u8));
    out.append(digit_str((hundredths % 10) as u8));
    assert(final(out)@ =~= old(out)@ + fixed2_text(hundredths as nat));
}

/// Renders a rate for display, in the largest of the units GH/s, MH/s, kH/s
/// and H/s that it reaches. A rate that is exactly one of a larger unit is
/// shown in that unit.
pub fn format_hashrate(rate: HashRate) -> (s: String)
    ensures
        s@ == rate.scaled_text(),
{
    if rate.micros == 0 {
        if rate.hashes == 0 {
            return String::from_str("NaN H/s");
        } else {
            return String::from_str("inf GH/s");
        }
    }
    let mut out = String::new();
    if rate.at_least(1_000_000_000) {
        append_fixed2(rate.in_hundredths(1_000_000_000), &mut out);
        out.append(" GH/s");
    } else if rate.at_least(1_000_000) {
        append_fixed2(rate.in_hundredths(1_000_000), &mut out);
        out.append(" MH/s");
    } else if rate.at_least(1_000) {
        append_fixed2(rate.in_hundredths(1_000), &mut out);
        out.append(" kH/s");
    } else {
        append_fixed2(rate.in_hundredths(1), &mut out);
        out.append(" H/s");
    }
    assert(out@ =~= rate.scaled_text());
    out
}

} // verus!
