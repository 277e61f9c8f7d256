//! Claim intake: the claim data model, the admission rate limiter and the
//! command-line configuration.

use vstd::prelude::*;
use vstd::string::*;
use crate::text::{parse_u32, u32_text};

verus! {

/// The payer a claim is addressed to.
#[derive(Debug, Clone, Copy, PartialEq, Eq, Structural)]
pub enum PayerId {
    Medicare,
    UnitedHealthGroup,
    Anthem,
}

#[derive(Debug, Clone, Copy, PartialEq, Eq, Structural)]
pub enum Gender {
    Male,
    Female,
}

#[derive(Debug, Clone)]
pub struct Insurance {
    pub payer_id: PayerId,
    pub patient_member_id: String,
}

#[derive(Debug, Clone)]
pub struct Address {
    pub street: Option<String>,
    pub city: Option<String>,
    pub state: Option<String>,
    pub zip: Option<String>,
    pub country: Option<String>,
}

#[derive(Debug, Clone)]
pub struct Patient {
    pub first_name: String,
    pub last_name: String,
    pub gender: Gender,
    pub dob: String,
    pub email: Option<String>,
    pub address: Option<Address>,
}

#[derive(Debug, Clone)]
pub struct Contact {
    pub first_name: Option<String>,
    pub last_name: Option<String>,
    pub phone_number: Option<String>,
}

#[derive(Debug, Clone)]
pub struct Organization {
    pub name: String,
    pub billing_npi: Option<String>,
    pub ein: Option<String>,
    pub contact: Option<Contact>,
    pub address: Option<Address>,
}

#[derive(Debug, Clone)]
pub struct RenderingProvider {
    pub first_name: String,
    pub last_name: String,
    pub npi: String,
}

/// One billable item of a claim. `unit_charge_amount` is in cents.
#[derive(Debug, Clone)]
pub struct ServiceLine {
    pub service_line_id: String,
    pub procedure_code: String,
    pub modifiers: Option<Vec<String>>,
    pub units: i32,
    pub details: String,
    pub unit_charge_currency: String,
    pub unit_charge_amount: i64,
    pub do_not_bill: Option<bool>,
}

/// A claim as admitted to the pipeline. `initial_claim_ts` is the ingestion
/// time in milliseconds since the epoch, stamped when the line is parsed.
#[derive(Debug, Clone)]
pub struct PayerClaim {
    pub claim_id: String,
    pub place_of_service_code: i32,
    pub insurance: Insurance,
    pub patient: Patient,
    pub organization: Organization,
    pub rendering_provider: RenderingProvider,
    pub service_lines: Vec<ServiceLine>,
    pub initial_claim_ts: i64,
}

/// Relies on chrono's `Utc::now().timestamp_millis()`: the wall clock in
/// milliseconds since the epoch. Nothing is promised of its value.
#[verifier::external_body]
pub(crate) fn wall_clock_millis() -> (r: i64) {
    chrono::Utc::now().timestamp_millis()
}

/// Number of tokens a refill adds after `elapsed_ms` milliseconds at
/// `rate` tokens per second.
pub open spec fn tokens_earned(elapsed_ms: int, rate: int) -> int {
    elapsed_ms * rate / 1000
}

/// Token count after a refill: unchanged when nothing was earned, otherwise
/// the sum capped at the capacity.
pub open spec fn refilled(tokens: int, capacity: int, earned: int) -> int {
    if earned > 0 {
        if tokens + earned < capacity { tokens + earned } else { capacity }
    } else {
        tokens
    }
}

/// Milliseconds elapsed from `from` to `to`; a clock that went backwards
/// counts as no time.
pub open spec fn elapsed_between(from: i64, to: i64) -> int {
    if to > from { to - from } else { 0 }
}

/// `after` is `before` refilled as of the time `now`.
pub open spec fn refilled_as_of(before: TokenBucket, after: TokenBucket, now: i64) -> bool {
    let earned = tokens_earned(elapsed_between(before.last_refill, now), before.refill_rate as int);
    &&& after.tokens == refilled(before.tokens as int, before.capacity as int, earned)
    &&& after.last_refill == (if earned > 0 { now } else { before.last_refill })
    &&& after.capacity == before.capacity
    &&& after.refill_rate == before.refill_rate
}

/// `after` is `before` refilled as of `now`, then asked for `amount`
/// tokens, with `taken` saying whether they were there.
pub open spec fn consumed_as_of(
    before: TokenBucket,
    after: TokenBucket,
    now: i64,
    amount: u32,
    taken: bool,
) -> bool {
    let earned = tokens_earned(elapsed_between(before.last_refill, now), before.refill_rate as int);
    let available = refilled(before.tokens as int, before.capacity as int, earned);
    &&& taken == (available >= amount)
    &&& after.tokens == (if taken { available - amount } else { available })
    &&& after.last_refill == (if earned > 0 { now } else { before.last_refill })
    &&& after.capacity == before.capacity
    &&& after.refill_rate == before.refill_rate
}

/// A token bucket that caps the rate at which lines are admitted.
/// `last_refill` is a wall-clock time in milliseconds.
pub struct TokenBucket {
    pub capacity: u32,
    pub tokens: u32,
    pub refill_rate: u32,
    pub last_refill: i64,
}

impl TokenBucket {
    /// A full bucket.
    pub fn new(capacity: u32, refill_rate: u32) -> (r: TokenBucket)
        ensures
            r.capacity == capacity,
            r.tokens == capacity,
            r.refill_rate == refill_rate,
    {
        TokenBucket { capacity, tokens: capacity, refill_rate, last_refill: wall_clock_millis() }
    }

    /// Refill as of the time `now_ms`: add what was earned since the last
    /// refill, capped at the capacity, and move the refill time forward only
    /// when at least one token was earned.
    pub fn refill_at(&mut self, now_ms: i64)
        ensures
            refilled_as_of(*old(self), *final(self), now_ms),
    {
        let elapsed: u128 = if now_ms > self.last_refill {
            (now_ms as i128 - self.last_refill as i128) as u128
        } else {
            0
        };
        let rate: u128 = self.refill_rate as u128;
        assert(elapsed * rate <= 0x1_0000_0000_0000_0000 * 0x1_0000_0000) by (nonlinear_arith)
            requires
                elapsed <= 0x1_0000_0000_0000_0000,
                rate <= 0x1_0000_0000,
        ;
        let earned: u128 = elapsed * rate / 1000;
        if earned > 0 {
            let sum: u128 = self.tokens as u128 + earned;
            self.tokens = if sum < self.capacity as u128 { sum as u32 } else { self.capacity };
            self.last_refill = now_ms;
        }
    }

    /// Refill as of the wall clock now.
    pub fn refill(&mut self)
        ensures
            exists|now: i64| #[trigger] refilled_as_of(*old(self), *final(self), now),
    {
        let now = wall_clock_millis();
        self.refill_at(now);
        assert(refilled_as_of(*old(self), *self, now));
    }

    /// Refill as of `now_ms`, then take `amount` tokens if that many are
    /// there. On refusal the token count stays as the refill left it.
    pub fn try_consume_at(&mut self, amount: u32, now_ms: i64) -> (r: bool)
        ensures
            consumed_as_of(*old(self), *final(self), now_ms, amount, r),
    {
        self.refill_at(now_ms);
        if self.tokens >= amount {
            self.tokens = self.tokens - amount;
            true
        } else {
            false
        }
    }

    /// Refill as of the wall clock now, then take `amount` tokens if that
    /// many are there.
    pub fn try_consume(&mut self, amount: u32) -> (r: bool)
        ensures
            exists|now: i64| #[trigger] consumed_as_of(*old(self), *final(self), now, amount, r),
    {
        let now = wall_clock_millis();
        let r = self.try_consume_at(amount, now);
        assert(consumed_as_of(*old(self), *self, now, amount, r));
        r
    }
}


/// How long the parser waits after the bucket refuses a token: half the
/// time in which one token is earned, at least one millisecond, and a tenth
/// of a second when the bucket never refills.
pub open spec fn spec_retry_delay_ms(refill_rate: u32) -> int {
    if refill_rate == 0 {
        100
    } else if 500int / (refill_rate as int) == 0 {
        1
    } else {
        500int / (refill_rate as int)
    }
}

pub fn retry_delay_ms(refill_rate: u32) -> (r: u64)
    ensures
        r == spec_retry_delay_ms(refill_rate),
        1 <= r <= 500,
{
    if refill_rate == 0 {
        100
    } else if 500 / refill_rate == 0 {
        1
    } else {
        (500 / refill_rate) as u64
    }
}

/// The pipeline's configuration. `rate_per_second` is the bucket's capacity
/// and `refill_rate` the tokens it earns per second.
#[derive(Debug, Clone)]
pub struct Config {
    pub file_path: String,
    pub rate_per_second: u32,
    pub refill_rate: u32,
    pub num_threads: u32,
}

/// The argument at `i` parses as a `u32`.
pub open spec fn arg_u32(args: Seq<String>, i: int) -> Option<u32> {
    if i < args.len() { u32_text(args[i]@) } else { None }
}

/// The command line is complete and well-formed: a path, a refill rate and
/// a rate per second after the program name, and a thread count if one is
/// given.
pub open spec fn args_ok(args: Seq<String>) -> bool {
    &&& args.len() >= 4
    &&& arg_u32(args, 2) is Some
    &&& arg_u32(args, 3) is Some
    &&& (args.len() >= 5 ==> arg_u32(args, 4) is Some)
}

/// The error for a command line that is not well-formed: the first missing
/// or unparsable argument.
pub open spec fn args_error(args: Seq<String>) -> Seq<char> {
    if args.len() < 2 {
        "Didn't get a file path"@
    } else if args.len() < 3 {
        "Didn't get a refill rate"@
    } else if arg_u32(args, 2) is None {
        "Invalid refill rate: "@ + args[2]@
    } else if args.len() < 4 {
        "Didn't get a rate per second"@
    } else if arg_u32(args, 3) is None {
        "Invalid rate per second: "@ + args[3]@
    } else {
        "Invalid number of threads: "@ + args[4]@
    }
}

fn invalid(prefix: &str, arg: &String) -> (r: String)
    ensures
        r@ == prefix@ + arg@,
{
    let mut m = String::from_str(prefix);
    m.append(arg.as_str());
    m
}

impl Config {
    /// Read the configuration from the command line, program name first:
    /// `<file_path> <refill_rate> <rate_per_second> [num_threads]`, with one
    /// thread when none is given.
    pub fn build(args: Vec<String>) -> (r: Result<Config, String>)
        ensures
            r is Ok <==> args_ok(args@),
            r matches Err(m) ==> m@ == args_error(args@),
            r matches Ok(c) ==> {
                &&& c.file_path@ == args@[1]@
                &&& Some(c.refill_rate) == arg_u32(args@, 2)
                &&& Some(c.rate_per_second) == arg_u32(args@, 3)
                &&& c.num_threads == (if args@.len() >= 5 {
                    arg_u32(args@, 4)->0
                } else {
                    1
                })
            },
    {
        if args.len() < 2 {
            return Err(String::from_str("Didn't get a file path"));
        }
        let file_path = args[1].clone();
        if args.len() < 3 {
            return Err(String::from_str("Didn't get a refill rate"));
        }
        let refill_rate = match parse_u32(args[2].as_str()) {
            Some(v) => v,
            None => return Err(invalid("Invalid refill rate: ", &args[2])),
        };
        if args.len() < 4 {
            return Err(String::from_str("Didn't get a rate per second"));
        }
        let rate_per_second = match parse_u32(args[3].as_str()) {
            Some(v) => v,
            None => return Err(invalid("Invalid rate per second: ", &args[3])),
        };
        let num_threads = if args.len() >= 5 {
            match parse_u32(args[4].as_str()) {
                Some(v) => v,
                None => return Err(invalid("Invalid number of threads: ", &args[4])),
            }
        } else {
            1
        };
        Ok(Config { file_path, rate_per_second, refill_rate, num_threads })
    }
}

} // verus!
