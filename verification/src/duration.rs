//! Decomposing a nanosecond count into display units, and rendering it.

use vstd::prelude::*;
use vstd::string::*;
use vstd::arithmetic::div_mod::lemma_fundamental_div_mod;

verus! {

/// The character for a single decimal digit; any value of ten or more is
/// clamped to `'9'`, which keeps the function total.
pub open spec fn digit_char(d: nat) -> char {
    if d == 0 {
        '0'
    } else if d == 1 {
        '1'
    } else if d == 2 {
        '2'
    } else if d == 3 {
        '3'
    } else if d == 4 {
        '4'
    } else if d == 5 {
        '5'
    } else if d == 6 {
        '6'
    } else if d == 7 {
        '7'
    } else if d == 8 {
        '8'
    } else {
        '9'
    }
}

/// The decimal rendering of a non-negative integer: no leading zeros, except
/// that zero itself renders as `"0"`.
pub open spec fn dec_str(n: nat) -> Seq<char>
    decreases n,
{
    if n < 10 {
        seq![digit_char(n)]
    } else {
        dec_str(n / 10).push(digit_char(n % 10))
    }
}

pub open spec fn is_digit(c: char) -> bool {
    '0' <= c <= '9'
}

/// Every character of a decimal rendering is a digit, and there is at least
/// one character.
pub proof fn lemma_dec_str_digits(n: nat)
    ensures
        dec_str(n).len() >= 1,
        forall|i: int| 0 <= i < dec_str(n).len() ==> is_digit(#[trigger] dec_str(n)[i]),
    decreases n,
{
    if n >= 10 {
        lemma_dec_str_digits(n / 10);
    }
}

/// The mathematical content of a [`PrettyDuration`]: whole seconds and the
/// residual milliseconds, microseconds and nanoseconds of a duration.
pub ghost struct DurationView {
    pub secs: nat,
    pub millis: nat,
    pub micros: nat,
    pub nanos: nat,
}

impl DurationView {
    /// Each residual field is bounded by its modulus.
    pub open spec fn wf(self) -> bool {
        self.millis < 1000 && self.micros < 1000 && self.nanos < 1000
    }

    /// The total nanosecond count that the four fields stand for.
    pub open spec fn total(self) -> nat {
        self.secs * 1_000_000_000 + self.millis * 1_000_000 + self.micros * 1_000 + self.nanos
    }
}

/// Decomposition of a total nanosecond count by successive division and
/// remainder: seconds, then milliseconds, then microseconds, then nanoseconds.
pub open spec fn decompose(total: nat) -> DurationView {
    DurationView {
        secs: total / 1_000_000_000,
        millis: (total % 1_000_000_000) / 1_000_000,
        micros: ((total % 1_000_000_000) % 1_000_000) / 1_000,
        nanos: ((total % 1_000_000_000) % 1_000_000) % 1_000,
    }
}

/// Decomposing any non-negative nanosecond count and recombining the four
/// fields yields exactly the original count, and the residual fields are
/// bounded by their moduli.
pub proof fn lemma_decomposition_invariant(total: nat)
    ensures
        decompose(total).wf(),
        decompose(total).total() == total,
{
    lemma_fundamental_div_mod(total as int, 1_000_000_000);
    lemma_fundamental_div_mod((total % 1_000_000_000) as int, 1_000_000);
    lemma_fundamental_div_mod(((total % 1_000_000_000) % 1_000_000) as int, 1_000);
}

/// A duration decomposed for human-readable rendering: whole seconds and the
/// residual milliseconds, microseconds and nanoseconds.
pub struct PrettyDuration {
    pub secs: u64,
    pub millis: u64,
    pub micros: u64,
    pub nanos: u64,
}

impl View for PrettyDuration {
    type V = DurationView;

    open spec fn view(&self) -> DurationView {
        DurationView {
            secs: self.secs as nat,
            millis: self.millis as nat,
            micros: self.micros as nat,
            nanos: self.nanos as nat,
        }
    }
}

impl PrettyDuration {
    /// Decomposes a total nanosecond count into the four display fields.
    pub fn new(total_nanos: u64) -> (d: PrettyDuration)
        ensures
            d@ == decompose(total_nanos as nat),
            d@.wf(),
            d@.total() == total_nanos,
    {
        proof {
            lemma_decomposition_invariant(total_nanos as nat);
        }
        let secs: u64 = total_nanos / 1_000_000_000;
        let rem_s: u64 = total_nanos % 1_000_000_000;
        let millis: u64 = rem_s / 1_000_000;
        let rem_m: u64 = rem_s % 1_000_000;
        let micros: u64 = rem_m / 1_000;
        let nanos: u64 = rem_m % 1_000;
        PrettyDuration { secs, millis, micros, nanos }
    }

    /// Renders the duration in its coarsest non-zero unit, exactly as
    /// [`render_spec`] states it: `"<secs>.<d>s"`, `"<millis>.<d>ms"`,
    /// `"<micros>us"` or `"<nanos>ns"`, where `<d>` is a single truncated
    /// sub-unit digit.
    pub fn render(&self) -> (s: String)
        ensures
            s@ == render_spec(self@),
    {
        if self.secs > 0 {
            let mut s = u64_to_string(self.secs);
            s.append(".");
            s.append(digit_str(self.millis / 100));
            s.append("s");
            proof {
                reveal_strlit(".");
                reveal_strlit("s");
                assert(s@ =~= render_spec(self@));
            }
            s
        } else if self.millis > 0 {
            let mut s = u64_to_string(self.millis);
            s.append(".");
            s.append(digit_str(self.micros / 100));
            s.append("ms");
            proof {
                reveal_strlit(".");
                reveal_strlit("ms");
                assert(s@ =~= render_spec(self@));
            }
            s
        } else if self.micros > 0 {
            let mut s = u64_to_string(self.micros);
            s.append("us");
            proof {
                reveal_strlit("us");
                assert(s@ =~= render_spec(self@));
            }
            s
        } else {
            let mut s = u64_to_string(self.nanos);
            s.append("ns");
            proof {
                reveal_strlit("ns");
                assert(s@ =~= render_spec(self@));
            }
            s
        }
    }
}

/// The rendered text of a decomposed duration: the coarsest non-zero field
/// chosen in the order seconds, milliseconds, microseconds, nanoseconds, with
/// one truncated sub-unit digit for seconds and milliseconds.
pub open spec fn render_spec(v: DurationView) -> Seq<char> {
    if v.secs > 0 {
        dec_str(v.secs) + seq!['.', digit_char(v.millis / 100), 's']
    } else if v.millis > 0 {
        dec_str(v.millis) + seq!['.', digit_char(v.micros / 100), 'm', 's']
    } else if v.micros > 0 {
        dec_str(v.micros) + seq!['u', 's']
    } else {
        dec_str(v.nanos) + seq!['n', 's']
    }
}

/// The unit suffix that belongs to the coarsest non-zero field of `v`.
pub open spec fn unit_suffix(v: DurationView) -> Seq<char> {
    if v.secs > 0 {
        seq!['s']
    } else if v.millis > 0 {
        seq!['m', 's']
    } else if v.micros > 0 {
        seq!['u', 's']
    } else {
        seq!['n', 's']
    }
}

/// The rendered string ends with the unit suffix of the coarsest non-zero
/// field, in the priority order seconds, milliseconds, microseconds,
/// nanoseconds. In the seconds form the character before the final `'s'` is a
/// digit, so the suffix really is `"s"` alone and not `"ms"`, `"us"` or
/// `"ns"`.
pub proof fn lemma_format_selection(v: DurationView)
    ensures
        render_spec(v).len() >= 2,
        render_spec(v).subrange(
            render_spec(v).len() - unit_suffix(v).len(),
            render_spec(v).len() as int,
        ) == unit_suffix(v),
        v.secs > 0 ==> is_digit(render_spec(v)[render_spec(v).len() - 2]),
{
    if v.secs > 0 {
        lemma_dec_str_digits(v.secs);
    } else if v.millis > 0 {
        lemma_dec_str_digits(v.millis);
    } else if v.micros > 0 {
        lemma_dec_str_digits(v.micros);
    } else {
        lemma_dec_str_digits(v.nanos);
    }
    assert(render_spec(v).subrange(
        render_spec(v).len() - unit_suffix(v).len(),
        render_spec(v).len() as int,
    ) =~= unit_suffix(v));
}

/// The one-character string for a single decimal digit, clamped to `"9"` as
/// [`digit_char`] is.
fn digit_str(d: u64) -> (s: &'static str)
    ensures
        s@ == seq![digit_char(d as nat)],
{
    let s: &'static str = if d == 0 {
        "0"
    } else if d == 1 {
        "1"
    } else if d == 2 {
        "2"
    } else if d == 3 {
        "3"
    } else if d == 4 {
        "4"
    } else if d == 5 {
        "5"
    } else if d == 6 {
        "6"
    } else if d == 7 {
        "7"
    } else if d == 8 {
        "8"
    } else {
        "9"
    };
    proof {
        reveal_strlit("0");
        reveal_strlit("1");
        reveal_strlit("2");
        reveal_strlit("3");
        reveal_strlit("4");
        reveal_strlit("5");
        reveal_strlit("6");
        reveal_strlit("7");
        reveal_strlit("8");
        reveal_strlit("9");
        assert(s@ =~= seq![digit_char(d as nat)]);
    }
    s
}

/// The decimal rendering of `n`, exactly as [`dec_str`] states it.
fn u64_to_string(n: u64) -> (s: String)
    ensures
        s@ == dec_str(n as nat),
    decreases n,
{
    let last: &'static str = digit_str(n % 10);
    if n < 10 {
        let s = String::from_str(last);
        proof {
            assert(s@ =~= dec_str(n as nat));
        }
        s
    } else {
        let mut s = u64_to_string(n / 10);
        s.append(last);
        proof {
            assert(s@ =~= dec_str(n as nat));
        }
        s
    }
}

} // verus!
