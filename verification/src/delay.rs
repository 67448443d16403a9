//! Random delays: each answer is held back for a random number of
//! milliseconds below a set maximum.

use vstd::prelude::*;
use crate::numbers::{all_digits, digits_value, integer_value, parse_u64, spec_parse_u64};
use crate::random::{gen_range_u64, thread_rng};
use crate::settings::{setting_or, setting_or_default, setting_text};

verus! {

/// The setting of the maximum delay where none is given.
pub open spec fn default_delay_max_text() -> Seq<char> {
    "0"@
}

/// The maximum delay that a `RANDOM_DELAY_MAX` setting asks for: the
/// setting, or `0` where it is not set, read as a `u64`.
pub open spec fn delay_max_of(setting: Option<Seq<char>>) -> Option<u64> {
    spec_parse_u64(setting_or(setting, default_delay_max_text()))
}

/// Holds answers back for a random time.
#[derive(Default, Clone, Copy, Debug)]
pub struct DelayInjector;

/// A delay injector set up with its maximum delay, in milliseconds
/// (exclusive).
#[derive(Clone, Copy, Debug)]
pub struct DelayInjectorMiddleware {
    pub random_delay_max: u64,
}

impl DelayInjector {
    /// Sets up the injector from the `RANDOM_DELAY_MAX` setting: `None` where
    /// the setting (or, where it is not set, `0`) is not a `u64`.
    pub fn new_transform(&self, setting: Option<&str>) -> (res: Option<DelayInjectorMiddleware>)
        ensures
            match delay_max_of(setting_text(setting)) {
                Some(max) => res == Some(DelayInjectorMiddleware { random_delay_max: max }),
                None => res is None,
            },
    {
        let text = setting_or_default(setting, "0");
        match parse_u64(text) {
            Some(max) => Some(DelayInjectorMiddleware { random_delay_max: max }),
            None => None,
        }
    }
}

impl DelayInjectorMiddleware {
    /// Draws the delay for one answer, in milliseconds: below the maximum,
    /// and none at all where the maximum is 0.
    pub fn call(&self) -> (delay_ms: u64)
        ensures
            self.random_delay_max == 0 ==> delay_ms == 0,
            self.random_delay_max > 0 ==> delay_ms < self.random_delay_max,
    {
        if self.random_delay_max == 0 {
            0
        } else {
            let mut rng = thread_rng();
            gen_range_u64(&mut rng, 0, self.random_delay_max)
        }
    }
}

/// Where `RANDOM_DELAY_MAX` is not set, the maximum is 0: no answer is
/// held back.
pub proof fn lemma_default_delay_max()
    ensures
        delay_max_of(None) == Some(0u64),
{
    reveal_strlit("0");
    let t = default_delay_max_text();
    assert(t[0] == '0');
    assert(t.drop_last() =~= Seq::<char>::empty());
    assert(all_digits(t));
    assert(digits_value(Seq::<char>::empty()) == 0);
    assert(digits_value(t) == 0);
    assert(integer_value(t, false) == Some(0int));
}

} // verus!
