//! Random failures: a share of the requests, given in percent, is answered
//! with "503 Service Unavailable" in place of the real answer.

use vstd::prelude::*;
use vstd::set_lib::{lemma_int_range, set_int_range};
use crate::numbers::{all_digits, digits_value, integer_value, parse_i32, spec_parse_i32};
use crate::random::{gen_range_u64, thread_rng};
use crate::settings::{setting_or, setting_or_default, setting_text};

verus! {

/// The status of an answer that was made to fail: 503, Service Unavailable.
pub const FAILURE_STATUS: u16 = 503;

/// The setting of the failure rate where none is given.
pub open spec fn default_failure_rate_text() -> Seq<char> {
    "0"@
}

/// The failure rate that a `FAILURE_RATE` setting asks for: the setting, or
/// `0` where it is not set, read as an `i32`.
pub open spec fn failure_rate_of(setting: Option<Seq<char>>) -> Option<i32> {
    spec_parse_i32(setting_or(setting, default_failure_rate_text()))
}

/// A request fails when the roll, drawn from `0..100`, is below the rate.
pub open spec fn fails(roll: int, rate: int) -> bool {
    roll < rate
}

/// The rolls, out of the hundred that can be drawn, on which a request fails.
pub open spec fn failing_rolls(rate: int) -> Set<int> {
    Set::new(|roll: int| 0 <= roll < 100 && fails(roll, rate))
}

/// Makes a share of the requests fail.
#[derive(Default, Clone, Copy, Debug)]
pub struct FailureInjector;

/// A failure injector set up with its failure rate, in percent.
#[derive(Clone, Copy, Debug)]
pub struct FailureInjectorMiddleware {
    pub failure_rate: i32,
}

impl FailureInjector {
    /// Sets up the injector from the `FAILURE_RATE` setting: `None` where the
    /// setting (or, where it is not set, `0`) is not an `i32`.
    pub fn new_transform(&self, setting: Option<&str>) -> (res: Option<FailureInjectorMiddleware>)
        ensures
            match failure_rate_of(setting_text(setting)) {
                Some(rate) => res == Some(FailureInjectorMiddleware { failure_rate: rate }),
                None => res is None,
            },
    {
        let text = setting_or_default(setting, "0");
        match parse_i32(text) {
            Some(rate) => Some(FailureInjectorMiddleware { failure_rate: rate }),
            None => None,
        }
    }
}

impl FailureInjectorMiddleware {
    /// Whether a request fails on the given roll.
    pub fn fails_on(&self, roll: u64) -> (res: bool)
        ensures
            res == fails(roll as int, self.failure_rate as int),
    {
        (roll as i128) < (self.failure_rate as i128)
    }

    /// Draws a roll from `0..100` and says whether this request fails: never
    /// at a rate of 0 or less, always at a rate of 100 or more.
    pub fn call(&self) -> (res: bool)
        ensures
            exists|roll: int| 0 <= roll < 100 && res == fails(roll, self.failure_rate as int),
            self.failure_rate <= 0 ==> !res,
            self.failure_rate >= 100 ==> res,
    {
        let (_roll, failed) = self.draw();
        failed
    }

    /// Draws a roll from `0..100` and decides on it: returns the roll drawn
    /// and whether the request fails, which it does exactly when that roll
    /// is below the rate.
    pub fn draw(&self) -> (res: (u64, bool))
        ensures
            res.0 < 100,
            res.1 == fails(res.0 as int, self.failure_rate as int),
    {
        let mut rng = thread_rng();
        let roll = gen_range_u64(&mut rng, 0, 100);
        (roll, self.fails_on(roll))
    }
}

/// The status that a request is answered with: the failure status where it
/// was made to fail, else the status of the real answer.
pub fn status_after(failed: bool, status: u16) -> (res: u16)
    ensures
        res == if failed {
            FAILURE_STATUS
        } else {
            status
        },
{
    if failed {
        FAILURE_STATUS
    } else {
        status
    }
}

/// A rate between 0 and 100 is the percentage of rolls that fail: of the
/// hundred rolls that can be drawn, exactly `rate` make a request fail.
pub proof fn lemma_failure_rate_is_percentage(rate: int)
    requires
        0 <= rate <= 100,
    ensures
        failing_rolls(rate).finite(),
        failing_rolls(rate).len() == rate,
{
    lemma_int_range(0, rate);
    assert(failing_rolls(rate) =~= set_int_range(0, rate));
}

/// Where `FAILURE_RATE` is not set, the rate is 0: no request fails.
pub proof fn lemma_default_failure_rate()
    ensures
        failure_rate_of(None) == Some(0i32),
{
    reveal_strlit("0");
    let t = default_failure_rate_text();
    assert(t.len() == 1);
    assert(t[0] == '0');
    assert(t.drop_last() =~= Seq::<char>::empty());
    assert(all_digits(t));
    assert(digits_value(Seq::<char>::empty()) == 0);
    assert(digits_value(t) == 0);
    assert(integer_value(t, true) == Some(0int));
}

} // verus!
