//! The diagnostics channel: a status code, and a message copied into a
//! buffer of fixed capacity that the caller owns.
use vstd::prelude::*;
use vstd::string::{StrSliceExecFns, StringExecFns};
use crate::derivative::EvaluationError;

verus! {

/// The status of a call that succeeded.
pub const STATUS_OK: i32 = 0;

/// The status of a call that failed.
pub const STATUS_FAILED: i32 = 1;

/// The decimal digits, in order.
pub open spec fn digit_of(d: nat) -> char {
    "0123456789"@[d as int]
}

/// The decimal notation of a natural number, without leading zeros.
pub open spec fn decimal(n: nat) -> Seq<char>
    decreases n,
{
    if n < 10 {
        seq![digit_of(n)]
    } else {
        decimal(n / 10) + seq![digit_of(n % 10)]
    }
}

/// Appends the decimal notation of `n` to `s`.
pub fn append_decimal(s: &mut String, n: usize)
    ensures
        final(s)@ == old(s)@ + decimal(n as nat),
    decreases n,
{
    if n >= 10 {
        append_decimal(s, n / 10);
    }
    let digits = "0123456789";
    proof {
        reveal_strlit("0123456789");
    }
    let d = n % 10;
    let digit = digits.substring_char(d, d + 1);
    assert(digit@ =~= seq![digit_of(d as nat)]);
    s.append(digit);
    assert(decimal(n as nat) == if n < 10 {
        seq![digit_of(n as nat)]
    } else {
        decimal((n / 10) as nat) + seq![digit_of((n % 10) as nat)]
    });
    assert(final(s)@ =~= old(s)@ + decimal(n as nat));
}

/// The text that reports an evaluation error.
pub open spec fn message_of(e: EvaluationError) -> Seq<char> {
    match e {
        EvaluationError::UnsupportedOrder { order_temperature, order_density } =>
            "unimplemented derivative order ("@ + decimal(order_temperature as nat) + ", "@
                + decimal(order_density as nat)
                + "): the highest supported orders are 2 in temperature and 2 in density"@,
        EvaluationError::CompositionLength { expected, found } =>
            "mole-fraction array has "@ + decimal(found as nat)
                + " entries, the equation of state has "@ + decimal(expected as nat)
                + " components"@,
    }
}

impl EvaluationError {
    /// The message that reports this error.
    pub fn message(&self) -> (r: String)
        ensures
            r@ == message_of(*self),
    {
        match *self {
            EvaluationError::UnsupportedOrder { order_temperature, order_density } => {
                let mut s = String::from_str("unimplemented derivative order (");
                append_decimal(&mut s, order_temperature);
                s.append(", ");
                append_decimal(&mut s, order_density);
                s.append("): the highest supported orders are 2 in temperature and 2 in density");
                s
            },
            EvaluationError::CompositionLength { expected, found } => {
                let mut s = String::from_str("mole-fraction array has ");
                append_decimal(&mut s, found);
                s.append(" entries, the equation of state has ");
                append_decimal(&mut s, expected);
                s.append(" components");
                s
            },
        }
    }
}

/// What a buffer of `capacity` bytes receives for a message: as many leading
/// bytes as fit beside a terminating zero, then the zero. A buffer of no
/// capacity receives nothing.
pub open spec fn bounded_of(msg: Seq<u8>, capacity: nat) -> Seq<u8> {
    if capacity == 0 {
        Seq::empty()
    } else if msg.len() < capacity {
        msg.push(0)
    } else {
        msg.take(capacity - 1).push(0)
    }
}

/// The bytes that a buffer of `capacity` bytes receives for a message.
pub fn bounded_message(msg: &[u8], capacity: usize) -> (r: Vec<u8>)
    ensures
        r@ == bounded_of(msg@, capacity as nat),
        r@.len() <= capacity,
{
    let mut r: Vec<u8> = Vec::new();
    if capacity == 0 {
        return r;
    }
    let n: usize = if msg.len() < capacity { msg.len() } else { capacity - 1 };
    let mut i: usize = 0;
    while i < n
        invariant
            n <= msg@.len(),
            n < capacity,
            i <= n,
            r@ == msg@.take(i as int),
        decreases n - i,
    {
        r.push(msg[i]);
        assert(msg@.take(i + 1) =~= msg@.take(i as int).push(msg@[i as int]));
        i = i + 1;
    }
    r.push(0);
    assert(msg.len() < capacity ==> msg@.take(n as int) =~= msg@);
    r
}

/// The status code of an outcome.
pub fn status_of<T>(r: &Result<T, EvaluationError>) -> (code: i32)
    ensures
        code == (if r is Ok { STATUS_OK } else { STATUS_FAILED }),
{
    match r {
        Ok(_) => STATUS_OK,
        Err(_) => STATUS_FAILED,
    }
}

} // verus!
