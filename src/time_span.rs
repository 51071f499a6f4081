use vstd::prelude::*;

verus! {

/// Length of one telemetry tick in nanoseconds (the game counts time in 100 ns units).
pub const NANOS_PER_TICK: u64 = 100;

/// Number of telemetry ticks in one second.
pub const TICKS_PER_SECOND: u64 = 10_000_000;

/// The largest tick count that `TimeSpan::from_ticks` takes.
pub const MAX_TICKS: u128 = 0x4_0000_0000_0000_0000;

/// Number of nanoseconds in one second.
pub const NANOS_PER_SECOND: u64 = 1_000_000_000;

/// ASCII code of `'0'`.
pub const ZERO_DIGIT: u8 = 48;

/// ASCII code of `'.'`.
pub const DECIMAL_POINT: u8 = 46;

/// A non-negative span of time: whole seconds and the nanoseconds below them.
#[derive(Clone, Copy, Debug, PartialEq, Eq, Structural, PartialOrd, Ord, Hash)]
pub struct TimeSpan {
    secs: i64,
    nanos: i32,
}

pub open spec fn is_digit(c: u8) -> bool {
    ZERO_DIGIT <= c && c <= ZERO_DIGIT + 9
}

pub open spec fn all_digits(s: Seq<u8>) -> bool {
    forall|i: int| 0 <= i < s.len() ==> #[trigger] is_digit(s[i])
}

/// The number that a run of decimal digits denotes (the empty run denotes 0).
pub open spec fn decimal_value(s: Seq<u8>) -> int
    decreases s.len(),
{
    if s.len() == 0 {
        0
    } else {
        decimal_value(s.drop_last()) * 10 + (s.last() - ZERO_DIGIT)
    }
}

/// The shortest decimal spelling of `n`.
pub open spec fn decimal_digits(n: nat) -> Seq<u8>
    decreases n,
{
    if n < 10 {
        seq![(n + ZERO_DIGIT) as u8]
    } else {
        decimal_digits(n / 10).push((n % 10 + ZERO_DIGIT) as u8)
    }
}

/// The last `width` decimal digits of `n`, with leading zeros.
pub open spec fn padded_digits(n: nat, width: nat) -> Seq<u8>
    decreases width,
{
    if width == 0 {
        seq![]
    } else {
        padded_digits(n / 10, (width - 1) as nat).push((n % 10 + ZERO_DIGIT) as u8)
    }
}

pub open spec fn pow10(k: nat) -> nat
    decreases k,
{
    if k == 0 {
        1
    } else {
        10 * pow10((k - 1) as nat)
    }
}

/// The wire form of a span: `<seconds>.<nine digits of nanoseconds>`.
pub open spec fn wire_text(secs: int, nanos: int) -> Seq<u8> {
    decimal_digits(secs as nat) + seq![DECIMAL_POINT] + padded_digits(nanos as nat, 9)
}

/// The seconds and nanoseconds that a wire form denotes, or `None` if the bytes are
/// not one or more digits, a point and exactly nine digits, or the seconds do not
/// fit an `i64`.
pub open spec fn parse_wire_text(b: Seq<u8>) -> Option<(int, int)> {
    if b.len() >= 11 && b[b.len() - 10] == DECIMAL_POINT
        && all_digits(b.subrange(0, b.len() - 10))
        && all_digits(b.subrange(b.len() - 9, b.len() as int))
        && decimal_value(b.subrange(0, b.len() - 10)) <= i64::MAX {
        Some(
            (
                decimal_value(b.subrange(0, b.len() - 10)),
                decimal_value(b.subrange(b.len() - 9, b.len() as int)),
            ),
        )
    } else {
        None
    }
}

impl TimeSpan {
    #[verifier::type_invariant]
    spec fn well_formed(self) -> bool {
        0 <= self.secs && 0 <= self.nanos < NANOS_PER_SECOND
    }

    /// Whole seconds of the span.
    pub closed spec fn seconds(self) -> int {
        self.secs as int
    }

    /// Nanoseconds of the span below its whole seconds.
    pub closed spec fn subsec_nanos(self) -> int {
        self.nanos as int
    }

    /// The span in nanoseconds.
    pub open spec fn total_nanos(self) -> int {
        self.seconds() * NANOS_PER_SECOND + self.subsec_nanos()
    }

    /// What every span satisfies; each constructor establishes it.
    pub open spec fn valid(self) -> bool {
        0 <= self.seconds() <= i64::MAX && 0 <= self.subsec_nanos() < NANOS_PER_SECOND
    }

    /// The span of `ticks` telemetry ticks of 100 ns each.
    pub fn from_ticks(ticks: u128) -> (r: TimeSpan)
        requires
            ticks <= MAX_TICKS,
        ensures
            r.seconds() == ticks as int / TICKS_PER_SECOND as int,
            r.subsec_nanos() == (ticks as int % TICKS_PER_SECOND as int) * NANOS_PER_TICK,
            r.total_nanos() == ticks * NANOS_PER_TICK,
            r.valid(),
    {
        let secs = (ticks / TICKS_PER_SECOND as u128) as i64;
        let nanos = ((ticks % TICKS_PER_SECOND as u128) * NANOS_PER_TICK as u128) as i32;
        let r = TimeSpan { secs, nanos };
        assert(r.total_nanos() == ticks * NANOS_PER_TICK) by (nonlinear_arith)
            requires
                r.seconds() == ticks as int / 10_000_000int,
                r.subsec_nanos() == (ticks as int % 10_000_000int) * 100,
        ;
        r
    }

    /// The span of `secs` seconds and `nanos` nanoseconds.
    pub fn from_parts(secs: i64, nanos: i32) -> (r: Option<TimeSpan>)
        ensures
            r matches Some(t) <==> 0 <= secs && 0 <= nanos < NANOS_PER_SECOND,
            r matches Some(t) ==> t.seconds() == secs && t.subsec_nanos() == nanos && t.valid(),
    {
        if 0 <= secs && 0 <= nanos && nanos < NANOS_PER_SECOND as i32 {
            Some(TimeSpan { secs, nanos })
        } else {
            None
        }
    }

    /// Whole seconds and the nanoseconds below them.
    pub fn to_seconds_and_subsec_nanoseconds(&self) -> (r: (i64, i32))
        ensures
            r.0 == self.seconds(),
            r.1 == self.subsec_nanos(),
            self.valid(),
    {
        proof {
            use_type_invariant(self);
        }
        (self.secs, self.nanos)
    }

    /// The span as the timer's control channel writes it: `"<seconds>.<nanoseconds>"`
    /// with exactly nine digits after the point.
    pub fn to_wire(&self) -> (r: Vec<u8>)
        ensures
            r@ == wire_text(self.seconds(), self.subsec_nanos()),
    {
        proof {
            use_type_invariant(self);
        }
        let mut out: Vec<u8> = Vec::new();
        push_decimal(self.secs as u64, &mut out);
        out.push(DECIMAL_POINT);
        push_padded(self.nanos as u64, 9, &mut out);
        assert(out@ =~= wire_text(self.seconds(), self.subsec_nanos()));
        out
    }

    /// Reads a span from its wire form (see `to_wire`).
    pub fn parse_wire(b: &[u8]) -> (r: Option<TimeSpan>)
        ensures
            r matches Some(t) <==> parse_wire_text(b@) is Some,
            r matches Some(t) ==> parse_wire_text(b@) == Some((t.seconds(), t.subsec_nanos()))
                && t.valid(),
    {
        let n = b.len();
        if n < 11 || b[n - 10] != DECIMAL_POINT {
            return None;
        }
        let secs = match read_decimal(b, 0, n - 10) {
            Some(v) => v,
            None => {
                return None;
            },
        };
        proof {
            reveal_with_fuel(pow10, 10);
        }
        let nanos = match read_decimal(b, n - 9, n) {
            Some(v) => v,
            None => {
                proof {
                    if all_digits(b@.subrange(n - 9, n as int)) {
                        lemma_decimal_bound(b@.subrange(n - 9, n as int));
                    }
                }
                return None;
            },
        };
        proof {
            lemma_decimal_bound(b@.subrange(n - 9, n as int));
        }
        Some(TimeSpan { secs: secs as i64, nanos: nanos as i32 })
    }
}

/// Appends the shortest decimal spelling of `n`.
fn push_decimal(n: u64, out: &mut Vec<u8>)
    ensures
        final(out)@ == old(out)@ + decimal_digits(n as nat),
    decreases n,
{
    if n >= 10 {
        push_decimal(n / 10, out);
    }
    out.push((n % 10) as u8 + ZERO_DIGIT);
    assert(final(out)@ =~= old(out)@ + decimal_digits(n as nat));
}

/// Appends the last `width` decimal digits of `n`, with leading zeros.
fn push_padded(n: u64, width: u64, out: &mut Vec<u8>)
    ensures
        final(out)@ == old(out)@ + padded_digits(n as nat, width as nat),
    decreases width,
{
    if width > 0 {
        push_padded(n / 10, width - 1, out);
        out.push((n % 10) as u8 + ZERO_DIGIT);
    }
    assert(final(out)@ =~= old(out)@ + padded_digits(n as nat, width as nat));
}

proof fn lemma_decimal_prefix(s: Seq<u8>, i: int)
    requires
        all_digits(s),
        0 <= i <= s.len(),
    ensures
        0 <= decimal_value(s.subrange(0, i)) <= decimal_value(s),
    decreases s.len(),
{
    if s.len() > 0 {
        let t = s.drop_last();
        assert(all_digits(t)) by {
            assert forall|k: int| 0 <= k < t.len() implies #[trigger] is_digit(t[k]) by {
                assert(is_digit(s[k]));
            }
        }
        assert(is_digit(s[s.len() - 1]));
        if i < s.len() {
            lemma_decimal_prefix(t, i);
            assert(t.subrange(0, i) =~= s.subrange(0, i));
            assert(decimal_value(t) <= decimal_value(s)) by (nonlinear_arith)
                requires
                    decimal_value(s) == decimal_value(t) * 10 + (s.last() - ZERO_DIGIT),
                    0 <= decimal_value(t),
                    s.last() >= ZERO_DIGIT,
            ;
        } else {
            lemma_decimal_prefix(t, 0);
            assert(s.subrange(0, i) =~= s);
        }
    } else {
        assert(s.subrange(0, i) =~= s);
    }
}

proof fn lemma_decimal_bound(s: Seq<u8>)
    requires
        all_digits(s),
    ensures
        0 <= decimal_value(s) < pow10(s.len()),
    decreases s.len(),
{
    if s.len() > 0 {
        let t = s.drop_last();
        assert(all_digits(t)) by {
            assert forall|k: int| 0 <= k < t.len() implies #[trigger] is_digit(t[k]) by {
                assert(is_digit(s[k]));
            }
        }
        assert(is_digit(s[s.len() - 1]));
        lemma_decimal_bound(t);
        let d = s.last() - ZERO_DIGIT;
        assert(decimal_value(s) < pow10(s.len())) by (nonlinear_arith)
            requires
                decimal_value(s) == decimal_value(t) * 10 + d,
                0 <= d <= 9,
                decimal_value(t) < pow10(t.len()),
                pow10(s.len()) == 10 * pow10(t.len()),
        ;
    }
}

/// The value of the digits `b[lo..hi]`, if they are all digits and the value fits an `i64`.
fn read_decimal(b: &[u8], lo: usize, hi: usize) -> (r: Option<u64>)
    requires
        lo <= hi <= b@.len(),
    ensures
        r matches Some(v) <==> (all_digits(b@.subrange(lo as int, hi as int))
            && decimal_value(b@.subrange(lo as int, hi as int)) <= i64::MAX),
        r matches Some(v) ==> v == decimal_value(b@.subrange(lo as int, hi as int)),
{
    let ghost s = b@.subrange(lo as int, hi as int);
    let mut value: u64 = 0;
    let mut i = lo;
    while i < hi
        invariant
            lo <= i <= hi <= b@.len(),
            s == b@.subrange(lo as int, hi as int),
            all_digits(s.subrange(0, i - lo)),
            value == decimal_value(s.subrange(0, i - lo)),
            value <= i64::MAX,
        decreases hi - i,
    {
        let c = b[i];
        let ghost p = s.subrange(0, i + 1 - lo);
        assert(p.drop_last() =~= s.subrange(0, i - lo));
        assert(p.last() == c);
        if c < ZERO_DIGIT || c > ZERO_DIGIT + 9 {
            assert(!is_digit(s[i - lo]));
            return None;
        }
        let d = (c - ZERO_DIGIT) as u64;
        if value > (i64::MAX as u64 - d) / 10 {
            proof {
                assert(all_digits(p)) by {
                    assert forall|k: int| 0 <= k < p.len() implies #[trigger] is_digit(p[k]) by {
                        if k < p.len() - 1 {
                            assert(is_digit(s.subrange(0, i - lo)[k]));
                        }
                    }
                }
                assert(decimal_value(p) > i64::MAX) by (nonlinear_arith)
                    requires
                        decimal_value(p) == value * 10 + d,
                        value > (i64::MAX - d) / 10,
                        0 <= d <= 9,
                ;
                if all_digits(s) {
                    lemma_decimal_prefix(s, i + 1 - lo);
                }
            }
            return None;
        }
        value = value * 10 + d;
        proof {
            assert(all_digits(p)) by {
                assert forall|k: int| 0 <= k < p.len() implies #[trigger] is_digit(p[k]) by {
                    if k < p.len() - 1 {
                        assert(is_digit(s.subrange(0, i - lo)[k]));
                    }
                }
            }
        }
        i = i + 1;
    }
    assert(s.subrange(0, hi - lo) =~= s);
    Some(value)
}

proof fn lemma_decimal_digits(n: nat)
    ensures
        all_digits(decimal_digits(n)),
        decimal_value(decimal_digits(n)) == n,
        decimal_digits(n).len() >= 1,
    decreases n,
{
    let s = decimal_digits(n);
    if n >= 10 {
        lemma_decimal_digits(n / 10);
        assert(s.drop_last() =~= decimal_digits(n / 10));
        assert(s.last() - ZERO_DIGIT == n % 10);
        assert(decimal_value(s) == (n / 10) * 10 + n % 10);
        assert(all_digits(s)) by {
            assert forall|k: int| 0 <= k < s.len() implies #[trigger] is_digit(s[k]) by {
                if k < s.len() - 1 {
                    assert(is_digit(decimal_digits(n / 10)[k]));
                }
            }
        }
    } else {
        assert(s.drop_last() =~= Seq::<u8>::empty());
        assert(decimal_value(Seq::<u8>::empty()) == 0);
        assert(decimal_value(s) == n);
    }
}

proof fn lemma_padded_digits(n: nat, width: nat)
    requires
        n < pow10(width),
    ensures
        all_digits(padded_digits(n, width)),
        decimal_value(padded_digits(n, width)) == n,
        padded_digits(n, width).len() == width,
    decreases width,
{
    let s = padded_digits(n, width);
    if width > 0 {
        let w1 = (width - 1) as nat;
        assert(n / 10 < pow10(w1)) by (nonlinear_arith)
            requires
                n < pow10(width),
                pow10(width) == 10 * pow10(w1),
        ;
        lemma_padded_digits(n / 10, w1);
        assert(s.drop_last() =~= padded_digits(n / 10, w1));
        assert(all_digits(s)) by {
            assert forall|k: int| 0 <= k < s.len() implies #[trigger] is_digit(s[k]) by {
                if k < s.len() - 1 {
                    assert(is_digit(padded_digits(n / 10, w1)[k]));
                }
            }
        }
    }
}

/// Reading back the wire form of a span gives the same span.
pub proof fn lemma_wire_round_trip(t: TimeSpan)
    requires
        t.valid(),
    ensures
        parse_wire_text(wire_text(t.seconds(), t.subsec_nanos())) == Some(
            (t.seconds(), t.subsec_nanos()),
        ),
{
    let secs = t.seconds() as nat;
    let nanos = t.subsec_nanos() as nat;
    reveal_with_fuel(pow10, 10);
    assert(pow10(9) == 1_000_000_000);
    lemma_decimal_digits(secs);
    lemma_padded_digits(nanos, 9);
    let a = decimal_digits(secs);
    let p = padded_digits(nanos, 9);
    let b = wire_text(t.seconds(), t.subsec_nanos());
    assert(b.subrange(0, b.len() - 10) =~= a);
    assert(b.subrange(b.len() - 9, b.len() as int) =~= p);
    assert(b[b.len() - 10] == DECIMAL_POINT);
}

} // verus!
