//! Process-wide configuration, immutable after first observation.  The
//! embedding program reads the environment once and hands the raw values
//! here as optional byte strings; every decision about them is made in
//! verified code.

use vstd::prelude::*;

verus! {

/// Where the controller listens.  Chosen once per process: a
/// filesystem-path socket if one is configured, else a TCP endpoint if one
/// is configured, else disabled.  While disabled, no preflight or
/// notification line is ever produced, so no connection is opened, and
/// every preflight allows.
pub enum Destination {
    /// Connect to the stream socket at this filesystem path.
    Unix(Vec<u8>),
    /// Connect to this `host:port` TCP endpoint.
    Tcp(Vec<u8>),
    /// No controller: mediation is observation-free and always allows.
    Disabled,
}

/// The remaining knobs: fail policy, debug-event emission, and the
/// preflight deadline.
pub struct Config {
    /// True: a controller failure denies the operation; false: it allows.
    pub fail_closed: bool,
    /// True: debug events may be emitted.
    pub debug: bool,
    /// Wall-clock deadline for one preflight exchange, in milliseconds.
    pub pre_timeout_ms: u64,
}

impl Destination {
    /// Pick the destination from the two environment values.
    pub fn from_env_values(sock: Option<Vec<u8>>, tcp: Option<Vec<u8>>) -> (r: Destination)
        ensures
            (match r {
                Destination::Unix(p) => sock matches Some(s) && p@ == s@,
                Destination::Tcp(a) => sock is None && (tcp matches Some(t) && a@ == t@),
                Destination::Disabled => sock is None && tcp is None,
            }),
    {
        match sock {
            Some(p) => Destination::Unix(p),
            None => match tcp {
                Some(a) => Destination::Tcp(a),
                None => Destination::Disabled,
            },
        }
    }
}

/// An environment value that switches a flag on: the byte `1`, or the word
/// `true` in any ASCII case.
pub open spec fn flag_set(s: Seq<u8>) -> bool {
    ||| s == seq![49u8]
    ||| {
        &&& s.len() == 4
        &&& (s[0] == 116 || s[0] == 84)
        &&& (s[1] == 114 || s[1] == 82)
        &&& (s[2] == 117 || s[2] == 85)
        &&& (s[3] == 101 || s[3] == 69)
    }
}

/// Whether an optional environment value switches a flag on; an unset
/// variable leaves it off.
pub open spec fn flag_of(v: Option<Seq<u8>>) -> bool {
    match v {
        Some(s) => flag_set(s),
        None => false,
    }
}

/// Decide a boolean knob from its raw environment value.
pub fn parse_flag(v: &Option<Vec<u8>>) -> (r: bool)
    ensures
        r == flag_of(v.deep_view()),
{
    match v {
        Some(s) => {
            proof {
                assert(s.deep_view() =~= s@);
            }
            if s.len() == 1 {
                let b = s[0];
                proof {
                    if b == 49 {
                        assert(s@ =~= seq![49u8]);
                    }
                    if s@ == seq![49u8] {
                        assert(s@[0] == 49);
                    }
                }
                b == 49
            } else if s.len() == 4 {
                let b0 = s[0];
                let b1 = s[1];
                let b2 = s[2];
                let b3 = s[3];
                proof {
                    if s@ == seq![49u8] {
                        assert(s@.len() == 1);
                    }
                }
                (b0 == 116 || b0 == 84) && (b1 == 114 || b1 == 82) && (b2 == 117 || b2 == 85) && (
                b3 == 101 || b3 == 69)
            } else {
                proof {
                    if s@ == seq![49u8] {
                        assert(s@.len() == 1);
                    }
                }
                false
            }
        },
        None => false,
    }
}

/// An ASCII decimal digit.
pub open spec fn is_digit(b: u8) -> bool {
    48 <= b <= 57
}

/// The number the digit string denotes.
pub open spec fn digits_value(s: Seq<u8>) -> int
    decreases s.len(),
{
    if s.len() == 0 {
        0
    } else {
        digits_value(s.drop_last()) * 10 + (s.last() - 48)
    }
}

/// A nonempty run of digits only.
pub open spec fn all_digits(s: Seq<u8>) -> bool {
    forall|i: int| 0 <= i < s.len() ==> is_digit(s[i])
}

/// The digits of a decimal once an optional leading plus sign is shed.
pub open spec fn decimal_body(s: Seq<u8>) -> Seq<u8> {
    if s.len() > 0 && s[0] == 43 {
        s.skip(1)
    } else {
        s
    }
}

/// How the standard library reads an unsigned decimal: an optional leading
/// plus sign, then one or more digits, denoting a value that fits the type.
pub open spec fn u64_decimal(s: Seq<u8>) -> Option<u64> {
    if decimal_body(s).len() > 0 && all_digits(decimal_body(s)) && digits_value(decimal_body(s))
        <= u64::MAX {
        Some(digits_value(decimal_body(s)) as u64)
    } else {
        None
    }
}

/// The preflight deadline the environment selects: the value parsed as a
/// decimal, or 1500 milliseconds when unset or unreadable.
pub open spec fn timeout_of(v: Option<Seq<u8>>) -> u64 {
    match v {
        Some(s) => match u64_decimal(s) {
            Some(n) => n,
            None => 1500,
        },
        None => 1500,
    }
}

/// Every digit of a string contributes: a digit prefix never denotes more
/// than the whole string.
proof fn lemma_digits_value_bounds(s: Seq<u8>, i: int)
    requires
        forall|j: int| 0 <= j < s.len() ==> is_digit(s[j]),
        0 <= i <= s.len(),
    ensures
        0 <= digits_value(s.take(i)),
        digits_value(s.take(i)) <= digits_value(s),
    decreases s.len() - i,
{
    if i == s.len() {
        assert(s.take(i) =~= s);
        lemma_digits_value_nonneg(s);
    } else {
        lemma_digits_value_bounds(s, i + 1);
        let t = s.take(i + 1);
        assert(t.drop_last() =~= s.take(i));
        assert(digits_value(t) == digits_value(s.take(i)) * 10 + (s[i] - 48));
        lemma_digits_value_nonneg(s.take(i));
    }
}

/// A digit string denotes a nonnegative number.
proof fn lemma_digits_value_nonneg(s: Seq<u8>)
    requires
        forall|j: int| 0 <= j < s.len() ==> is_digit(s[j]),
    ensures
        0 <= digits_value(s),
    decreases s.len(),
{
    if s.len() > 0 {
        assert(forall|j: int| 0 <= j < s.drop_last().len() ==> is_digit(s.drop_last()[j]));
        lemma_digits_value_nonneg(s.drop_last());
    }
}

/// Parse the preflight deadline from its raw environment value.
pub fn parse_timeout_ms(v: &Option<Vec<u8>>) -> (r: u64)
    ensures
        r == timeout_of(v.deep_view()),
{
    let s = match v {
        Some(s) => s,
        None => { return 1500; },
    };
    proof {
        assert(s.deep_view() =~= s@);
        assert(v.deep_view() == Some(s@));
    }
    let start: usize = if s.len() > 0 && s[0] == 43 {
        1
    } else {
        0
    };
    let ghost body = decimal_body(s@);
    proof {
        assert(body =~= s@.subrange(start as int, s@.len() as int));
    }
    if s.len() == start {
        proof {
            assert(body.len() == 0);
        }
        return 1500;
    }
    let mut acc: u64 = 0;
    let mut i: usize = start;
    while i < s.len()
        invariant
            start <= i <= s.len(),
            v.deep_view() == Some(s@),
            body == decimal_body(s@),
            body =~= s@.subrange(start as int, s@.len() as int),
            forall|j: int| 0 <= j < i - start ==> is_digit(body[j]),
            acc == digits_value(body.take(i - start)),
        decreases s.len() - i,
    {
        let b = s[i];
        if b < 48 || b > 57 {
            proof {
                assert(0 <= i - start < body.len());
                assert(body[i - start] == s@[i as int]);
                assert(!all_digits(body));
                assert(u64_decimal(s@) is None);
            }
            return 1500;
        }
        let d: u64 = (b - 48) as u64;
        proof {
            assert(body.take(i + 1 - start).drop_last() =~= body.take(i - start));
            assert(body.take(i + 1 - start).last() == b);
            assert(digits_value(body.take(i + 1 - start)) == acc * 10 + d);
        }
        // Overflow test against u64::MAX / 10 and u64::MAX % 10.
        if acc > 1844674407370955161 || (acc == 1844674407370955161 && d > 5) {
            proof {
                assert(digits_value(body.take(i + 1 - start)) > u64::MAX);
                if all_digits(body) {
                    lemma_digits_value_bounds(body, i + 1 - start);
                    assert(digits_value(body) > u64::MAX);
                }
                assert(u64_decimal(s@) is None);
            }
            return 1500;
        }
        acc = acc * 10 + d;
        i = i + 1;
    }
    proof {
        assert(body.take(i - start) =~= body);
        assert(all_digits(body));
        assert(u64_decimal(s@) == Some(acc));
    }
    acc
}

impl Config {
    /// Decide every knob from its raw environment value.
    pub fn from_env_values(
        debug: &Option<Vec<u8>>,
        fail_closed: &Option<Vec<u8>>,
        timeout: &Option<Vec<u8>>,
    ) -> (c: Config)
        ensures
            c.debug == flag_of(debug.deep_view()),
            c.fail_closed == flag_of(fail_closed.deep_view()),
            c.pre_timeout_ms == timeout_of(timeout.deep_view()),
    {
        Config {
            fail_closed: parse_flag(fail_closed),
            debug: parse_flag(debug),
            pre_timeout_ms: parse_timeout_ms(timeout),
        }
    }
}

} // verus!
