//! Sliding-window limit on attempts per source address.
//!
//! An address is keyed by a `u128`: an IPv6 address as its 128 bits, an IPv4
//! address as its IPv4-mapped IPv6 form. Instants are milliseconds since the
//! Unix epoch.

use std::collections::HashMap;
use vstd::prelude::*;

verus! {

broadcast use vstd::std_specs::hash::group_hash_axioms;

/// Length of the window, in milliseconds.
pub const HOUR_MILLIS: u64 = 3_600_000;

/// An attempt at `t` still counts at `now`: it is not in the future and less
/// than an hour old.
pub open spec fn live(t: u64, now: u64) -> bool {
    t <= now && now - t < HOUR_MILLIS
}

/// The attempts of `w` that still count at `now`, in their order.
pub open spec fn recent(w: Seq<u64>, now: u64) -> Seq<u64>
    decreases w.len(),
{
    if w.len() == 0 {
        Seq::empty()
    } else {
        let rest = recent(w.drop_last(), now);
        if live(w.last(), now) {
            rest.push(w.last())
        } else {
            rest
        }
    }
}

/// An attempt at `now` against the history `w` is admitted.
pub open spec fn admits(w: Seq<u64>, per_hour: u32, now: u64) -> bool {
    recent(w, now).len() < per_hour
}

/// The history after an attempt at `now`: pruned, and with `now` recorded
/// when the attempt was admitted.
pub open spec fn after(w: Seq<u64>, per_hour: u32, now: u64) -> Seq<u64> {
    if admits(w, per_hour, now) {
        recent(w, now).push(now)
    } else {
        recent(w, now)
    }
}

/// Counts attempts per address over the trailing hour and refuses those
/// beyond `per_hour`.
pub struct IpLimiter {
    /// Address -> instants of its admitted attempts.
    pub map: HashMap<u128, Vec<u64>>,
    pub per_hour: u32,
}

impl IpLimiter {
    /// The recorded history of `ip`; empty where none is recorded.
    pub open spec fn window(&self, ip: u128) -> Seq<u64> {
        if self.map@.contains_key(ip) {
            self.map@[ip]@
        } else {
            Seq::empty()
        }
    }

    /// A limiter with no history and the given limit.
    pub fn new(per_hour: u32) -> (r: Self)
        ensures
            r.per_hour == per_hour,
            r.map@ == Map::<u128, Vec<u64>>::empty(),
    {
        IpLimiter { map: HashMap::new(), per_hour }
    }

    /// Prunes the history of `ip` to the attempts of the last hour, then admits
    /// the attempt at `now` (recording it) when fewer than `per_hour` remain,
    /// and refuses it (recording nothing) otherwise. Other addresses are left
    /// as they were.
    pub fn check_and_update(&mut self, ip: u128, now: u64) -> (r: bool)
        ensures
            r == admits(old(self).window(ip), old(self).per_hour, now),
            final(self).per_hour == old(self).per_hour,
            final(self).map@.contains_key(ip),
            final(self).window(ip) == after(old(self).window(ip), old(self).per_hour, now),
            forall|k: u128|
                k != ip ==> (#[trigger] final(self).map@.contains_key(k) == old(self).map@.contains_key(k)
                    && final(self).map@[k] == old(self).map@[k]),
    {
        let ghost w = self.window(ip);
        let entry = match self.map.remove(&ip) {
            Some(v) => v,
            None => Vec::new(),
        };
        assert(entry@ == w);
        let mut kept: Vec<u64> = Vec::new();
        let mut i: usize = 0;
        while i < entry.len()
            invariant
                i <= entry.len(),
                kept@ == recent(entry@.subrange(0, i as int), now),
            decreases entry.len() - i,
        {
            let t = entry[i];
            proof {
                assert(entry@.subrange(0, i + 1).drop_last() =~= entry@.subrange(0, i as int));
            }
            if t <= now && now - t < HOUR_MILLIS {
                kept.push(t);
            }
            i = i + 1;
        }
        assert(entry@.subrange(0, entry@.len() as int) =~= entry@);
        let admitted = (kept.len() as u64) < (self.per_hour as u64);
        if admitted {
            kept.push(now);
        }
        self.map.insert(ip, kept);
        admitted
    }
}

/// Pruning never lengthens a history.
pub proof fn lemma_recent_len(w: Seq<u64>, now: u64)
    ensures
        recent(w, now).len() <= w.len(),
    decreases w.len(),
{
    if w.len() > 0 {
        lemma_recent_len(w.drop_last(), now);
    }
}

/// Pruning that removes nothing leaves the history as it was.
pub proof fn lemma_recent_full(w: Seq<u64>, now: u64)
    requires
        recent(w, now).len() == w.len(),
    ensures
        recent(w, now) == w,
    decreases w.len(),
{
    if w.len() > 0 {
        lemma_recent_len(w.drop_last(), now);
        lemma_recent_full(w.drop_last(), now);
        assert(w.drop_last().push(w.last()) =~= w);
    }
}

/// A history whose oldest attempt no longer counts loses at least one entry
/// to pruning.
pub proof fn lemma_recent_drops_first(w: Seq<u64>, now: u64)
    requires
        w.len() > 0,
        !live(w[0], now),
    ensures
        recent(w, now).len() < w.len(),
    decreases w.len(),
{
    if w.len() == 1 {
        reveal_with_fuel(recent, 2);
        assert(w.drop_last() =~= Seq::<u64>::empty());
        assert(w.last() == w[0]);
    } else {
        assert(w.drop_last()[0] == w[0]);
        lemma_recent_drops_first(w.drop_last(), now);
    }
}

/// Pruning twice at the same instant prunes nothing more.
pub proof fn lemma_recent_idempotent(w: Seq<u64>, now: u64)
    ensures
        recent(recent(w, now), now) == recent(w, now),
    decreases w.len(),
{
    if w.len() > 0 {
        let rest = recent(w.drop_last(), now);
        lemma_recent_idempotent(w.drop_last(), now);
        if live(w.last(), now) {
            assert(rest.push(w.last()).drop_last() =~= rest);
        }
    }
}

/// An attempt never leaves more than `per_hour` attempts counting at its
/// instant, unless more than that counted already: no trailing hour ever
/// holds more admitted attempts than the limit.
pub proof fn lemma_window_bound(w: Seq<u64>, per_hour: u32, now: u64)
    ensures
        admits(w, per_hour, now) ==> recent(after(w, per_hour, now), now).len() <= per_hour,
        recent(w, now).len() <= per_hour ==> recent(after(w, per_hour, now), now).len() <= per_hour,
{
    let kept = recent(w, now);
    lemma_recent_idempotent(w, now);
    assert(kept.push(now).drop_last() =~= kept);
    assert(kept.push(now).last() == now);
}

/// With a limit of three, four attempts from one address at nondecreasing
/// instants give: admitted, admitted, admitted, and for the fourth, admitted
/// exactly when it comes an hour or more after the first.
pub proof fn lemma_fourth_attempt_in_hour(t1: u64, t2: u64, t3: u64, t4: u64)
    requires
        t1 <= t2 <= t3 <= t4,
    ensures
        ({
            let w1 = after(Seq::empty(), 3, t1);
            let w2 = after(w1, 3, t2);
            let w3 = after(w2, 3, t3);
            &&& admits(Seq::empty(), 3, t1)
            &&& admits(w1, 3, t2)
            &&& admits(w2, 3, t3)
            &&& admits(w3, 3, t4) == (t4 - t1 >= HOUR_MILLIS)
        }),
{
    reveal_with_fuel(recent, 4);
    let e = Seq::<u64>::empty();
    assert(recent(e, t1) =~= e);
    let w1 = after(e, 3, t1);
    assert(w1 =~= seq![t1]);
    assert(w1.drop_last() =~= e);
    let r1 = recent(w1, t2);
    lemma_recent_len(w1, t2);
    let w2 = after(w1, 3, t2);
    assert(w2 == r1.push(t2));
    let r2 = recent(w2, t3);
    lemma_recent_len(w2, t3);
    let w3 = after(w2, 3, t3);
    assert(w3 == r2.push(t3));
    lemma_recent_len(w3, t4);
    if w3.len() == 3 {
        lemma_recent_full(w2, t3);
        lemma_recent_full(w1, t2);
        assert(w3[0] == t1);
    }
    if t4 - t1 < HOUR_MILLIS {
        assert(r1 =~= seq![t1]);
        assert(w2 =~= seq![t1, t2]);
        assert(w2.drop_last() =~= seq![t1]);
        assert(r2 =~= seq![t1, t2]);
        assert(w3 =~= seq![t1, t2, t3]);
        assert(w3.drop_last() =~= seq![t1, t2]);
        assert(recent(w3, t4) =~= seq![t1, t2, t3]);
    } else if w3.len() == 3 {
        lemma_recent_drops_first(w3, t4);
    }
}

} // verus!
