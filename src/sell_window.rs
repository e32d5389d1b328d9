use vstd::prelude::*;
use crate::token::ErrorCode;

verus! {

/// Length of the rolling sell window, in seconds.
pub const WINDOW_SECONDS: i64 = 86400;

/// Length of one bucket, in seconds.
pub const HOUR_SECONDS: i64 = 3600;

/// Number of hourly buckets in a window.
pub const BUCKET_COUNT: usize = 24;

/// Share of the reference balance that may be sold per window, in basis points.
pub const SELL_LIMIT_BPS: u64 = 500;

/// Basis points in a whole.
pub const BPS_DENOMINATOR: u64 = 10000;

/// What a seller sold during one hour.
#[derive(Clone, Copy, Debug, PartialEq, Eq, Structural)]
pub struct SellBucket {
    /// Start of the hour, in seconds; zero marks an unused bucket.
    pub timestamp: i64,
    pub amount: u64,
}

/// A seller's rolling 24-hour sell record: a snapshot of the balance taken when
/// the window began, and a ring of hourly buckets indexed by hour of day.
#[derive(Clone, Copy, Debug)]
pub struct SellWindow {
    /// When the window began, in seconds; zero means no window yet.
    pub start_time: i64,
    pub start_balance: u64,
    pub buckets: [SellBucket; 24],
}

/// The contents of a sell window.
pub struct WindowView {
    pub start_time: i64,
    pub start_balance: u64,
    pub buckets: Seq<SellBucket>,
}

impl View for SellWindow {
    type V = WindowView;

    open spec fn view(&self) -> WindowView {
        WindowView { start_time: self.start_time, start_balance: self.start_balance, buckets: self.buckets@ }
    }
}

pub open spec fn empty_bucket() -> SellBucket {
    SellBucket { timestamp: 0, amount: 0 }
}

/// The window a seller starts afresh at `now` with `balance` in hand.
pub open spec fn fresh_window(now: i64, balance: u64) -> WindowView {
    WindowView { start_time: now, start_balance: balance, buckets: Seq::new(24, |i: int| empty_bucket()) }
}

/// A window is started afresh when there is none or it is a full day old.
pub open spec fn needs_reset(w: WindowView, now: i64) -> bool {
    w.start_time == 0 || now - w.start_time >= WINDOW_SECONDS
}

/// The window against which a sale at `now` is checked.
pub open spec fn effective_window(w: WindowView, now: i64, balance: u64) -> WindowView {
    if needs_reset(w, now) {
        fresh_window(now, balance)
    } else {
        w
    }
}

/// Five percent of the reference balance, rounded down.
pub open spec fn sell_limit(balance: u64) -> int {
    (balance * SELL_LIMIT_BPS) as int / BPS_DENOMINATOR as int
}

/// A bucket counts when it is in use and its hour began within the last day.
pub open spec fn counts(b: SellBucket, now: i64) -> bool {
    b.timestamp != 0 && now - b.timestamp < WINDOW_SECONDS
}

pub open spec fn counted_amount(b: SellBucket, now: i64) -> int {
    if counts(b, now) {
        b.amount as int
    } else {
        0
    }
}

/// What the first `n` buckets record as sold within the day before `now`.
pub open spec fn sold_prefix(bs: Seq<SellBucket>, now: i64, n: nat) -> int
    decreases n,
{
    if n == 0 {
        0
    } else {
        sold_prefix(bs, now, (n - 1) as nat) + counted_amount(bs[n - 1], now)
    }
}

/// What the buckets record as sold within the day before `now`.
pub open spec fn sold_within(bs: Seq<SellBucket>, now: i64) -> int {
    sold_prefix(bs, now, bs.len())
}

/// Start of the hour holding `now` (for `now >= 0`).
pub open spec fn hour_start(now: i64) -> int {
    (now / HOUR_SECONDS) * HOUR_SECONDS
}

/// The bucket that the hour holding `now` uses.
pub open spec fn hour_index(now: i64) -> int {
    (now / HOUR_SECONDS) % (BUCKET_COUNT as int)
}

/// The bucket of the current hour after a sale of `amount`: the slot is taken over
/// when it still holds another hour.
pub open spec fn bucket_after_sale(old_bucket: SellBucket, now: i64, amount: u64) -> SellBucket {
    let hs = hour_start(now);
    if old_bucket.timestamp == hs {
        SellBucket { timestamp: hs as i64, amount: (old_bucket.amount + amount) as u64 }
    } else {
        SellBucket { timestamp: hs as i64, amount }
    }
}

/// What the current hour's bucket holds before the sale is added.
pub open spec fn current_hour_amount(bs: Seq<SellBucket>, now: i64) -> int {
    if bs[hour_index(now)].timestamp == hour_start(now) {
        bs[hour_index(now)].amount as int
    } else {
        0
    }
}

/// The outcome of checking a sale of `amount` at `now` against window `w`.
pub open spec fn sale_check(w: WindowView, now: i64, amount: u64) -> Result<(), ErrorCode> {
    let sold = sold_within(w.buckets, now);
    if w.start_balance * SELL_LIMIT_BPS > u64::MAX {
        Err(ErrorCode::MathOverflow)
    } else if sold + amount > u64::MAX {
        Err(ErrorCode::MathOverflow)
    } else if sold + amount > sell_limit(w.start_balance) {
        Err(ErrorCode::SellLimitExceeded)
    } else if current_hour_amount(w.buckets, now) + amount > u64::MAX {
        Err(ErrorCode::MathOverflow)
    } else {
        Ok(())
    }
}

/// Window `w` after a sale of `amount` at `now` is recorded.
pub open spec fn record_sale(w: WindowView, now: i64, amount: u64) -> WindowView {
    WindowView {
        start_time: w.start_time,
        start_balance: w.start_balance,
        buckets: w.buckets.update(hour_index(now), bucket_after_sale(w.buckets[hour_index(now)], now, amount)),
    }
}

/// Every bucket in use holds the start of an hour, sits in that hour's slot, and
/// lies no later than `now`.
pub open spec fn buckets_aligned(bs: Seq<SellBucket>, now: i64) -> bool {
    &&& bs.len() == BUCKET_COUNT
    &&& forall|i: int|
        0 <= i < bs.len() && #[trigger] bs[i].timestamp != 0 ==> {
            &&& bs[i].timestamp > 0
            &&& bs[i].timestamp % HOUR_SECONDS == 0
            &&& (bs[i].timestamp / HOUR_SECONDS) % (BUCKET_COUNT as int) == i
            &&& bs[i].timestamp <= now
        }
}

proof fn lemma_sold_prefix_monotone(bs: Seq<SellBucket>, now: i64, m: nat, n: nat)
    requires
        m <= n <= bs.len(),
    ensures
        sold_prefix(bs, now, m) <= sold_prefix(bs, now, n),
        sold_prefix(bs, now, n) >= 0,
    decreases n,
{
    if n > 0 {
        lemma_sold_prefix_monotone(bs, now, if m == n { (n - 1) as nat } else { m }, (n - 1) as nat);
    }
}

proof fn lemma_sold_prefix_update(bs: Seq<SellBucket>, now: i64, k: int, v: SellBucket, n: nat)
    requires
        0 <= k < bs.len(),
        n <= bs.len(),
    ensures
        sold_prefix(bs.update(k, v), now, n) == sold_prefix(bs, now, n) + (if k < n {
            counted_amount(v, now) - counted_amount(bs[k], now)
        } else {
            0
        }),
    decreases n,
{
    if n > 0 {
        lemma_sold_prefix_update(bs, now, k, v, (n - 1) as nat);
    }
}

proof fn lemma_fresh_sold_zero(now: i64, balance: u64, n: nat)
    requires
        n <= BUCKET_COUNT,
    ensures
        sold_prefix(fresh_window(now, balance).buckets, now, n) == 0,
    decreases n,
{
    if n > 0 {
        lemma_fresh_sold_zero(now, balance, (n - 1) as nat);
    }
}

/// After a sale that the check accepts, what the window records as sold within
/// the last day is what it recorded before plus the sale (or stays put in the
/// first hour of the epoch, whose bucket never counts), and the buckets stay aligned.
pub proof fn lemma_record_sale(w: WindowView, now: i64, amount: u64)
    requires
        now >= 0,
        buckets_aligned(w.buckets, now),
        sale_check(w, now, amount) is Ok,
    ensures
        sold_within(record_sale(w, now, amount).buckets, now) <= sold_within(w.buckets, now) + amount,
        sold_within(record_sale(w, now, amount).buckets, now) <= sell_limit(w.start_balance),
        buckets_aligned(record_sale(w, now, amount).buckets, now),
{
    let bs = w.buckets;
    let k = hour_index(now);
    let hs = hour_start(now);
    let old_b = bs[k];
    let new_b = bucket_after_sale(old_b, now, amount);
    assert(0 <= now % HOUR_SECONDS < HOUR_SECONDS);
    assert(now == (now / HOUR_SECONDS) * HOUR_SECONDS + now % HOUR_SECONDS);
    assert(0 <= hs <= now);
    assert(now - hs < HOUR_SECONDS);
    assert(0 <= k < 24);
    lemma_sold_prefix_update(bs, now, k, new_b, bs.len());
    lemma_sold_prefix_monotone(bs, now, 0, bs.len());
    if old_b.timestamp != hs && old_b.timestamp != 0 {
        let t = old_b.timestamp;
        assert(t > 0 && t % HOUR_SECONDS == 0 && (t / HOUR_SECONDS) % 24 == k && t <= now);
        let th = t / HOUR_SECONDS;
        let nh = now / HOUR_SECONDS;
        assert(t == th * HOUR_SECONDS);
        assert(th <= nh) by (nonlinear_arith)
            requires
                t == th * 3600,
                t <= now,
                now == nh * 3600 + now % 3600,
                0 <= now % 3600 < 3600,
        ;
        assert(th != nh);
        assert(th % 24 == nh % 24);
        assert(th <= nh - 24) by (nonlinear_arith)
            requires
                th < nh,
                th % 24 == nh % 24,
                th >= 0,
                nh >= 0,
        ;
        assert(now - t >= WINDOW_SECONDS) by (nonlinear_arith)
            requires
                t == th * 3600,
                th <= nh - 24,
                now >= nh * 3600,
        ;
        assert(!counts(old_b, now));
    }
    if old_b.timestamp == hs && hs != 0 {
        assert(counts(old_b, now));
    }
    let nbs = record_sale(w, now, amount).buckets;
    assert forall|i: int| 0 <= i < nbs.len() && #[trigger] nbs[i].timestamp != 0 implies {
        &&& nbs[i].timestamp > 0
        &&& nbs[i].timestamp % HOUR_SECONDS == 0
        &&& (nbs[i].timestamp / HOUR_SECONDS) % (BUCKET_COUNT as int) == i
        &&& nbs[i].timestamp <= now
    } by {
        if i == k {
            assert(nbs[i].timestamp == hs);
            assert(hs / 3600 == now / 3600) by (nonlinear_arith)
                requires
                    hs == (now / 3600) * 3600,
            ;
        }
    }
}

/// Starting afresh takes the current balance as reference and forgets every
/// earlier sale, whatever the buckets held.
pub proof fn lemma_reset_forgets(w: WindowView, now: i64, balance: u64)
    requires
        needs_reset(w, now),
    ensures
        effective_window(w, now, balance).start_time == now,
        effective_window(w, now, balance).start_balance == balance,
        sold_within(effective_window(w, now, balance).buckets, now) == 0,
{
    lemma_fresh_sold_zero(now, balance, BUCKET_COUNT as nat);
}

/// A fresh window is aligned at any time.
pub proof fn lemma_fresh_aligned(start: i64, balance: u64, now: i64)
    ensures
        buckets_aligned(fresh_window(start, balance).buckets, now),
{
}

/// Alignment carries over to later times: with a clock that never goes back,
/// every sale that a window accepts leaves what it records as sold within the
/// last day at or under the limit, call after call.
pub proof fn lemma_aligned_later(bs: Seq<SellBucket>, now: i64, later: i64)
    requires
        buckets_aligned(bs, now),
        now <= later,
    ensures
        buckets_aligned(bs, later),
{
}

/// With nothing sold in the last day, a single sale above the limit is refused.
pub proof fn lemma_oversized_sale_refused(w: WindowView, now: i64, amount: u64)
    requires
        sold_within(w.buckets, now) == 0,
        amount > sell_limit(w.start_balance),
    ensures
        sale_check(w, now, amount) is Err,
{
}

impl SellWindow {
    /// A seller with no window yet.
    pub fn new() -> (r: SellWindow)
        ensures
            r@.start_time == 0,
            r@.start_balance == 0,
            r@.buckets =~= fresh_window(0, 0).buckets,
    {
        SellWindow { start_time: 0, start_balance: 0, buckets: [SellBucket { timestamp: 0, amount: 0 }; 24] }
    }
}

/// Checks a sale of `amount` at `now` by a seller whose balance is `balance`
/// against the rolling five-percent limit, and records it when it passes.
///
/// The window is started afresh (snapshot of `balance`, all buckets cleared) when
/// there is none or it is a full day old. On any error the window is left exactly
/// as it was, reset included.
pub fn enforce_sell_limit(w: &mut SellWindow, now: i64, balance: u64, amount: u64) -> (r: Result<(), ErrorCode>)
    requires
        now >= 0,
    ensures
        r == sale_check(effective_window(old(w)@, now, balance), now, amount),
        r is Ok ==> final(w)@ == record_sale(effective_window(old(w)@, now, balance), now, amount),
        r is Err ==> final(w)@ == old(w)@,
        r is Ok && buckets_aligned(old(w)@.buckets, now) ==> {
            &&& buckets_aligned(final(w)@.buckets, now)
            &&& sold_within(final(w)@.buckets, now) <= sell_limit(final(w)@.start_balance)
        },
{
    let mut cur = *w;
    let ghost base = effective_window(old(w)@, now, balance);
    if cur.start_time == 0 || (now as i128) - (cur.start_time as i128) >= WINDOW_SECONDS as i128 {
        cur = SellWindow { start_time: now, start_balance: balance, buckets: [SellBucket { timestamp: 0, amount: 0 }; 24] };
    }
    assert(cur@.buckets =~= base.buckets);
    let limit = match cur.start_balance.checked_mul(SELL_LIMIT_BPS) {
        Some(x) => x / BPS_DENOMINATOR,
        None => {
            return Err(ErrorCode::MathOverflow);
        },
    };
    let mut sold: u64 = 0;
    let mut i: usize = 0;
    while i < BUCKET_COUNT
        invariant
            0 <= i <= BUCKET_COUNT,
            cur@.buckets.len() == BUCKET_COUNT,
            base == effective_window(old(w)@, now, balance),
            *w == *old(w),
            cur@.buckets == base.buckets,
            cur@.start_balance == base.start_balance,
            cur@.start_time == base.start_time,
            base.start_balance * SELL_LIMIT_BPS <= u64::MAX,
            limit as int == sell_limit(base.start_balance),
            sold as int == sold_prefix(cur@.buckets, now, i as nat),
        decreases BUCKET_COUNT - i,
    {
        let b = cur.buckets[i];
        if b.timestamp != 0 && (now as i128) - (b.timestamp as i128) < WINDOW_SECONDS as i128 {
            sold = match sold.checked_add(b.amount) {
                Some(s) => s,
                None => {
                    proof {
                        assert(b == cur@.buckets[i as int]);
                        assert(counts(b, now));
                        assert(sold_prefix(cur@.buckets, now, (i + 1) as nat) == sold + b.amount);
                        lemma_sold_prefix_monotone(cur@.buckets, now, (i + 1) as nat, BUCKET_COUNT as nat);
                        assert(sold_within(base.buckets, now) > u64::MAX);
                    }
                    return Err(ErrorCode::MathOverflow);
                },
            };
        }
        i = i + 1;
    }
    proof {
        lemma_sold_prefix_monotone(cur@.buckets, now, 0, BUCKET_COUNT as nat);
    }
    let new_total = match sold.checked_add(amount) {
        Some(t) => t,
        None => {
            return Err(ErrorCode::MathOverflow);
        },
    };
    if new_total > limit {
        return Err(ErrorCode::SellLimitExceeded);
    }
    let hour_start = (now / HOUR_SECONDS) * HOUR_SECONDS;
    let hour_index = ((hour_start / HOUR_SECONDS) % (BUCKET_COUNT as i64)) as usize;
    assert(hour_start / HOUR_SECONDS == now / HOUR_SECONDS) by (nonlinear_arith)
        requires
            hour_start == (now / 3600) * 3600,
    ;
    let prev = cur.buckets[hour_index];
    let carried: u64 = if prev.timestamp == hour_start {
        prev.amount
    } else {
        0
    };
    let updated = match carried.checked_add(amount) {
        Some(a) => a,
        None => {
            return Err(ErrorCode::MathOverflow);
        },
    };
    cur.buckets[hour_index] = SellBucket { timestamp: hour_start, amount: updated };
    assert(cur@.buckets =~= record_sale(base, now, amount).buckets);
    *w = cur;
    proof {
        if buckets_aligned(old(w)@.buckets, now) {
            if needs_reset(old(w)@, now) {
                assert forall|j: int| 0 <= j < base.buckets.len() && #[trigger] base.buckets[j].timestamp != 0 implies false by {
                    assert(base.buckets[j] == empty_bucket());
                }
            }
            lemma_record_sale(base, now, amount);
        }
    }
    Ok(())
}

} // verus!
