//! The figures of a benchmark run: buffer size in MiB, elapsed seconds and
//! throughput in MiB/s, as rounded fixed-point decimals.

use vstd::prelude::*;

verus! {

/// Bytes in one MiB.
pub const MIB: u64 = 1048576;

/// Nanoseconds in one second.
pub const NANOS_PER_SEC: u64 = 1000000000;

/// `n / d` rounded to the nearest integer, halves rounded up.
pub open spec fn round_div(n: int, d: int) -> int {
    (2 * n + d) / (2 * d)
}

/// A non-negative decimal `whole + fraction / 10^digits`, for a number of
/// fraction digits that the producer fixes.
#[derive(Clone, Copy, Debug, PartialEq, Eq, Structural)]
pub struct Decimal {
    pub whole: u128,
    pub fraction: u128,
}

impl Decimal {
    /// The value scaled by `scale`, i.e. `whole * scale + fraction`.
    pub open spec fn scaled(self, scale: int) -> int {
        self.whole * scale + self.fraction
    }
}

/// Splits `scaled` into whole units and a remainder below `scale`.
pub fn split_scaled(scaled: u128, scale: u128) -> (r: Decimal)
    requires
        scale > 0,
    ensures
        r.scaled(scale as int) == scaled,
        r.fraction < scale,
{
    let r = Decimal { whole: scaled / scale, fraction: scaled % scale };
    assert(r.whole * scale + r.fraction == scaled) by (nonlinear_arith)
        requires
            scale > 0,
            r.whole == scaled / scale,
            r.fraction == scaled % scale,
    ;
    r
}

/// `n / d` rounded to the nearest integer, halves rounded up.
fn rounded_quotient(n: u128, d: u128) -> (r: u128)
    requires
        d > 0,
        2 * n + d <= u128::MAX,
        2 * d <= u128::MAX,
    ensures
        r == round_div(n as int, d as int),
{
    (2 * n + d) / (2 * d)
}

/// One timed pass: how many bytes were encrypted and how long it took.
#[derive(Clone, Copy, Debug, PartialEq, Eq, Structural)]
pub struct Measurement {
    pub size_bytes: u64,
    pub elapsed_nanos: u64,
}

/// The figures printed for a measurement.
#[derive(Clone, Copy, Debug, PartialEq, Eq, Structural)]
pub struct Figures {
    /// Buffer size in MiB, two fraction digits.
    pub size_mib: Decimal,
    /// Elapsed time in seconds, three fraction digits.
    pub seconds: Decimal,
    /// Throughput in MiB/s, one fraction digit; `None` when no time elapsed.
    pub throughput: Option<Decimal>,
}

impl Measurement {
    /// Buffer size in hundredths of a MiB, rounded.
    pub open spec fn size_hundredths_spec(self) -> int {
        round_div(self.size_bytes * 100, MIB as int)
    }

    /// Elapsed time in milliseconds, rounded.
    pub open spec fn millis_spec(self) -> int {
        round_div(self.elapsed_nanos as int, 1000000)
    }

    /// Throughput in tenths of a MiB/s, rounded: `(size / MiB) / (nanos / 10^9) * 10`.
    pub open spec fn throughput_tenths_spec(self) -> int {
        round_div(self.size_bytes * 10000000000, MIB * self.elapsed_nanos)
    }

    /// Buffer size in hundredths of a MiB, rounded.
    pub fn size_hundredths(&self) -> (r: u128)
        ensures
            r == self.size_hundredths_spec(),
    {
        rounded_quotient(self.size_bytes as u128 * 100, MIB as u128)
    }

    /// Elapsed time in milliseconds, rounded.
    pub fn millis(&self) -> (r: u128)
        ensures
            r == self.millis_spec(),
    {
        rounded_quotient(self.elapsed_nanos as u128, 1000000)
    }

    /// Throughput in tenths of a MiB/s, rounded to the nearest tenth, or `None`
    /// when no time elapsed.
    pub fn throughput_tenths(&self) -> (r: Option<u128>)
        ensures
            r is None <==> self.elapsed_nanos == 0,
            r is Some ==> r->0 == self.throughput_tenths_spec(),
            r is Some ==> 2 * (r->0 * MIB * self.elapsed_nanos - self.size_bytes * 10000000000) <= MIB * self.elapsed_nanos,
            r is Some ==> 2 * (self.size_bytes * 10000000000 - r->0 * MIB * self.elapsed_nanos) <= MIB * self.elapsed_nanos,
    {
        if self.elapsed_nanos == 0 {
            None
        } else {
            let n = self.size_bytes as u128 * 10000000000;
            let d = MIB as u128 * self.elapsed_nanos as u128;
            let r = rounded_quotient(n, d);
            proof {
                lemma_round_div_close(n as int, d as int);
                assert(r * MIB * self.elapsed_nanos == r * d) by (nonlinear_arith)
                    requires
                        d == MIB * self.elapsed_nanos,
                ;
            }
            Some(r)
        }
    }

    /// The printed figures.
    pub fn figures(&self) -> (r: Figures)
        ensures
            r.size_mib.scaled(100) == self.size_hundredths_spec(),
            r.size_mib.fraction < 100,
            r.seconds.scaled(1000) == self.millis_spec(),
            r.seconds.fraction < 1000,
            r.throughput is None <==> self.elapsed_nanos == 0,
            r.throughput is Some ==> r.throughput->0.scaled(10) == self.throughput_tenths_spec(),
            r.throughput is Some ==> r.throughput->0.fraction < 10,
    {
        let throughput = match self.throughput_tenths() {
            None => None,
            Some(tenths) => Some(split_scaled(tenths, 10)),
        };
        Figures {
            size_mib: split_scaled(self.size_hundredths(), 100),
            seconds: split_scaled(self.millis(), 1000),
            throughput,
        }
    }
}

/// The rounded quotient lies within half the divisor of the exact one.
pub proof fn lemma_round_div_close(n: int, d: int)
    requires
        n >= 0,
        d > 0,
    ensures
        2 * (round_div(n, d) * d - n) <= d,
        2 * (n - round_div(n, d) * d) <= d,
{
    let q = round_div(n, d);
    assert(q * (2 * d) <= 2 * n + d < q * (2 * d) + 2 * d) by (nonlinear_arith)
        requires
            d > 0,
            q == (2 * n + d) / (2 * d),
    ;
    assert(q * (2 * d) == 2 * (q * d)) by (nonlinear_arith);
}

} // verus!
