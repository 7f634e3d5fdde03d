//! Per-resource exponential backoff.
//!
//! Each resource that keeps failing waits longer before its next try, up to
//! a ceiling; one success starts it over. Resources do not affect each
//! other.
use std::time::Duration;
use vstd::prelude::*;

use crate::duration::{jitter, nanos_of, scale_secs, FACTOR_HIGH, FACTOR_LOW};
use crate::text;

verus! {

/// The delay that the curve doubles from, in seconds.
pub const BASE_SECS: u64 = 5;

/// How often the delay doubles at most.
pub const MAX_EXPONENT: u32 = 6;

/// The longest delay before jitter, in seconds.
pub const MAX_BACKOFF_SECS: u64 = 300;

/// Consecutive failures by resource key.
#[derive(Debug)]
pub struct BackoffMap {
    entries: Vec<(String, u32)>,
}

/// The mapping that a sequence of entries stands for; later entries replace
/// earlier ones with the same key.
pub open spec fn counts(v: Seq<(String, u32)>) -> Map<Seq<char>, u32>
    decreases v.len(),
{
    if v.len() == 0 {
        Map::empty()
    } else {
        counts(v.drop_last()).insert(v.last().0@, v.last().1)
    }
}

/// The count of a key; a key that is not there counts zero.
pub open spec fn count_of(m: Map<Seq<char>, u32>, key: Seq<char>) -> u32 {
    if m.dom().contains(key) {
        m[key]
    } else {
        0
    }
}

/// One more, unless that is more than the type holds.
pub open spec fn next_count(n: u32) -> u32 {
    if n == u32::MAX {
        n
    } else {
        (n + 1) as u32
    }
}

/// Two to the power of `n`.
pub open spec fn doubled(n: nat) -> nat
    decreases n,
{
    if n == 0 {
        1
    } else {
        2 * doubled((n - 1) as nat)
    }
}

/// The delay after so many consecutive failures, before jitter, in seconds:
/// it doubles with each failure up to the ceiling.
pub open spec fn base_delay(count: u32) -> nat {
    let exponent = if count < MAX_EXPONENT {
        count
    } else {
        MAX_EXPONENT
    };
    let secs = BASE_SECS as nat * doubled(exponent as nat);
    if secs < MAX_BACKOFF_SECS {
        secs
    } else {
        MAX_BACKOFF_SECS as nat
    }
}

impl BackoffMap {
    /// The failures recorded, by key.
    pub closed spec fn view(&self) -> Map<Seq<char>, u32> {
        counts(self.entries@)
    }

    /// No failures.
    pub fn new() -> (r: BackoffMap)
        ensures
            r@ == Map::<Seq<char>, u32>::empty(),
    {
        BackoffMap { entries: Vec::new() }
    }

    /// The current count for a key.
    pub fn count(&self, key: &str) -> (r: u32)
        ensures
            r == count_of(self@, key@),
    {
        let mut i: usize = self.entries.len();
        assert(self.entries@.take(i as int) =~= self.entries@);
        while i > 0
            invariant
                i <= self.entries.len(),
                count_of(counts(self.entries@), key@) == count_of(
                    counts(self.entries@.take(i as int)),
                    key@,
                ),
            decreases i,
        {
            proof {
                let s = self.entries@.take(i as int);
                assert(s.drop_last() =~= self.entries@.take(i - 1));
                assert(s.last() == self.entries@[i - 1]);
            }
            if text::same(self.entries[i - 1].0.as_str(), key) {
                return self.entries[i - 1].1;
            }
            i = i - 1;
        }
        0
    }

    /// Forgets the failures of a key.
    pub fn record_success(&mut self, key: &str)
        ensures
            final(self)@ == old(self)@.remove(key@),
    {
        let mut kept: Vec<(String, u32)> = Vec::new();
        let mut i: usize = 0;
        proof {
            assert(counts(kept@) =~= counts(self.entries@.take(0)).remove(key@));
        }
        while i < self.entries.len()
            invariant
                i <= self.entries.len(),
                self.entries@ == old(self).entries@,
                counts(kept@) == counts(self.entries@.take(i as int)).remove(key@),
            decreases self.entries.len() - i,
        {
            proof {
                assert(self.entries@.take(i + 1).drop_last() =~= self.entries@.take(i as int));
            }
            let ghost was = kept@;
            if !text::same(self.entries[i].0.as_str(), key) {
                kept.push((self.entries[i].0.clone(), self.entries[i].1));
                proof {
                    assert(kept@.drop_last() =~= was);
                }
            }
            i = i + 1;
            proof {
                assert(counts(kept@) =~= counts(self.entries@.take(i as int)).remove(key@));
            }
        }
        assert(self.entries@.take(i as int) =~= self.entries@);
        self.entries = kept;
    }

    /// Records one failure and returns the new count.
    pub fn record_error(&mut self, key: &str) -> (r: u32)
        ensures
            r == next_count(count_of(old(self)@, key@)),
            final(self)@ == old(self)@.insert(key@, r),
    {
        let n = self.count(key);
        let m: u32 = if n == u32::MAX {
            n
        } else {
            n + 1
        };
        self.record_success(key);
        let ghost was = self.entries@;
        self.entries.push((key.to_owned(), m));
        proof {
            assert(self.entries@.drop_last() =~= was);
            assert(self@ =~= old(self)@.insert(key@, m));
        }
        m
    }

    /// The delay before a key's next try, spread by a fifth either way.
    pub fn duration_for(&self, key: &str) -> (d: Duration)
        ensures
            base_delay(count_of(self@, key@)) * FACTOR_LOW <= nanos_of(d) < base_delay(
                count_of(self@, key@),
            ) * FACTOR_HIGH,
    {
        backoff_for_count(self.count(key))
    }
}

/// The delay before jitter, in seconds.
pub fn backoff_secs(count: u32) -> (secs: u64)
    ensures
        secs == base_delay(count),
        BASE_SECS <= secs <= MAX_BACKOFF_SECS,
{
    proof {
        reveal_with_fuel(doubled, 7);
        assert(doubled(6) == 64);
    }
    let secs: u64 = match count {
        0 => 5,
        1 => 10,
        2 => 20,
        3 => 40,
        4 => 80,
        5 => 160,
        _ => 320,
    };
    if secs < MAX_BACKOFF_SECS {
        secs
    } else {
        MAX_BACKOFF_SECS
    }
}

/// The delay after so many consecutive failures, with the given factor in
/// billionths.
pub fn backoff_with_factor(count: u32, factor: u64) -> (d: Duration)
    requires
        FACTOR_LOW <= factor < FACTOR_HIGH,
    ensures
        nanos_of(d) == base_delay(count) * factor,
{
    let secs = backoff_secs(count);
    assert(secs * factor <= 300 * 1_200_000_000) by (nonlinear_arith)
        requires
            secs <= 300,
            factor < 1_200_000_000,
    ;
    scale_secs(secs, factor)
}

/// The delay after so many consecutive failures, spread by a fifth either
/// way.
pub fn backoff_for_count(count: u32) -> (d: Duration)
    ensures
        base_delay(count) * FACTOR_LOW <= nanos_of(d) < base_delay(count) * FACTOR_HIGH,
{
    let factor = jitter();
    let secs = backoff_secs(count);
    assert(secs * FACTOR_LOW <= secs * factor < secs * FACTOR_HIGH) by (nonlinear_arith)
        requires
            FACTOR_LOW <= factor < FACTOR_HIGH,
            secs > 0,
    ;
    backoff_with_factor(count, factor)
}

/// The key of a resource: the controller and the name, with the namespace
/// between them where there is one.
pub open spec fn key_of(
    controller: Seq<char>,
    namespace: Seq<char>,
    name: Seq<char>,
) -> Seq<char> {
    if namespace.len() == 0 {
        controller + "/"@ + name
    } else {
        controller + "/"@ + namespace + "/"@ + name
    }
}

/// The key of a resource. Cluster-scoped resources have an empty namespace.
pub fn resource_key(controller: &str, namespace: &str, name: &str) -> (r: String)
    ensures
        r@ == key_of(controller@, namespace@, name@),
{
    if namespace.is_empty() {
        controller.to_owned().concat("/").concat(name)
    } else {
        controller.to_owned().concat("/").concat(namespace).concat("/").concat(name)
    }
}

/// More failures never shorten the delay, and it never passes the ceiling.
pub proof fn law_delay_monotone(a: u32, b: u32)
    requires
        a <= b,
    ensures
        base_delay(a) <= base_delay(b) <= MAX_BACKOFF_SECS,
        base_delay(0) == BASE_SECS,
{
    reveal_with_fuel(doubled, 7);
}

/// The delay doubles with each failure until the ceiling is in sight.
pub proof fn law_delay_doubles(n: u32)
    requires
        n + 1 < MAX_EXPONENT,
    ensures
        base_delay((n + 1) as u32) == 2 * base_delay(n),
{
    reveal_with_fuel(doubled, 7);
}

/// A failure counts one up, a success starts the key over, and neither
/// touches another key.
pub proof fn law_keys_isolated(m: Map<Seq<char>, u32>, key: Seq<char>, other: Seq<char>)
    requires
        key != other,
    ensures
        count_of(m.insert(key, next_count(count_of(m, key))), key) == next_count(count_of(m, key)),
        count_of(m.remove(key), key) == 0,
        count_of(m.insert(key, next_count(count_of(m, key))), other) == count_of(m, other),
        count_of(m.remove(key), other) == count_of(m, other),
{
}

} // verus!
