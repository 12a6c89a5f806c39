//! Mapping from the vertical distance between anchor and cursor to a scroll
//! command and the pause that follows it.
use vstd::prelude::*;
use vstd::arithmetic::div_mod::lemma_div_is_ordered;
use vstd::arithmetic::div_mod::lemma_div_pos_is_pos;
use vstd::arithmetic::mul::lemma_mul_inequality;

verus! {

/// Friction is held in thousandths of a pixel: a friction of 15.0 is 15000.
pub const FRICTION_SCALE: u64 = 1000;

/// The parameters of the distance-to-speed mapping.
pub struct ScrollConfig {
    /// Half-height of the dead zone around the anchor, in pixels.
    pub radius: i32,
    /// Largest scroll magnitude emitted in one tick.
    pub max_scroll_power: i32,
    /// Pixels of effective distance per unit of scroll magnitude, in thousandths.
    pub friction_milli: u32,
}

/// Pacing bounds, in milliseconds: far from the anchor the pause tends to
/// `delay_min`, near it to `delay_max`.
#[derive(Clone, Copy, Debug, PartialEq, Eq, Structural)]
pub struct Pacing {
    pub delay_max: u64,
    pub delay_min: u64,
}

/// One scroll tick: a signed amount (positive scrolls up) and the pause after it.
#[derive(Clone, Copy, Debug, PartialEq, Eq, Structural)]
pub struct ScrollCommand {
    pub amount: i32,
    pub delay_ms: u64,
}

impl ScrollConfig {
    pub open spec fn wf(&self) -> bool {
        &&& self.radius >= 0
        &&& self.max_scroll_power >= 0
        &&& self.friction_milli > 0
    }

    /// The configuration used when none is given: radius 15, power 50, friction 15.0.
    pub fn new_default() -> (r: ScrollConfig)
        ensures
            r.wf(),
            r.radius == 15,
            r.max_scroll_power == 50,
            r.friction_milli == 15000,
    {
        ScrollConfig { radius: 15, max_scroll_power: 50, friction_milli: 15000 }
    }
}

impl Clone for ScrollConfig {
    fn clone(&self) -> (r: ScrollConfig)
        ensures
            r == *self,
    {
        ScrollConfig {
            radius: self.radius,
            max_scroll_power: self.max_scroll_power,
            friction_milli: self.friction_milli,
        }
    }
}

impl Pacing {
    pub open spec fn wf(&self) -> bool {
        self.delay_min <= self.delay_max
    }

    /// The pacing of the worker: from 20 ms near the dead zone down to 1 ms.
    pub fn new_default() -> (r: Pacing)
        ensures
            r.wf(),
            r.delay_max == 20,
            r.delay_min == 1,
    {
        Pacing { delay_max: 20, delay_min: 1 }
    }
}

pub open spec fn abs(x: int) -> int {
    if x < 0 {
        -x
    } else {
        x
    }
}

pub open spec fn min(a: int, b: int) -> int {
    if a <= b {
        a
    } else {
        b
    }
}

/// Signed vertical distance: positive when the cursor is above the anchor.
pub open spec fn delta_of(anchor_y: int, y: int) -> int {
    anchor_y - y
}

pub open spec fn in_dead_zone(cfg: ScrollConfig, delta: int) -> bool {
    abs(delta) <= cfg.radius
}

/// Distance beyond the dead zone divided by the friction, truncated.
pub open spec fn scaled_of(cfg: ScrollConfig, delta: int) -> int {
    ((abs(delta) - cfg.radius) * FRICTION_SCALE) / (cfg.friction_milli as int)
}

/// Scroll magnitude: the scaled distance, capped by the maximum power.
pub open spec fn magnitude_of(cfg: ScrollConfig, delta: int) -> int {
    if in_dead_zone(cfg, delta) {
        0
    } else {
        min(scaled_of(cfg, delta), cfg.max_scroll_power as int)
    }
}

/// Signed scroll amount: the magnitude with the sign of the distance, zero in
/// the dead zone.
pub open spec fn amount_of(cfg: ScrollConfig, delta: int) -> int {
    if delta < 0 {
        -magnitude_of(cfg, delta)
    } else {
        magnitude_of(cfg, delta)
    }
}

/// The pause after a tick: `delay_max - t * (delay_max - delay_min)` with
/// `t = clamp(scaled / max_power, 0, 1)`, truncated to whole milliseconds.
/// With a maximum power of zero every scaled distance is at the cap, so `t = 1`.
pub open spec fn delay_of(scaled: int, max_power: int, p: Pacing) -> int {
    let span = p.delay_max - p.delay_min;
    if max_power <= 0 {
        p.delay_min as int
    } else {
        let s = if scaled < 0 {
            0
        } else {
            min(scaled, max_power)
        };
        p.delay_max - (s * span + max_power - 1) / max_power
    }
}

proof fn lemma_delay_bounds(scaled: int, max_power: int, p: Pacing)
    requires
        p.wf(),
    ensures
        p.delay_min <= delay_of(scaled, max_power, p) <= p.delay_max,
{
    if max_power > 0 {
        let span = p.delay_max - p.delay_min;
        let s = if scaled < 0 {
            0
        } else {
            min(scaled, max_power)
        };
        assert(0 <= s <= max_power);
        lemma_mul_inequality(s, max_power, span);
        lemma_mul_inequality(0, s, span);
        assert(s * span + max_power - 1 <= span * max_power + max_power - 1) by (nonlinear_arith)
            requires
                s * span <= max_power * span,
        ;
        assert((span * max_power + max_power - 1) / max_power == span) by (nonlinear_arith)
            requires
                max_power > 0,
                span >= 0,
        ;
        lemma_div_is_ordered(s * span + max_power - 1, span * max_power + max_power - 1, max_power);
        lemma_div_is_ordered(0, s * span + max_power - 1, max_power);
    }
}

/// Computes the tick for an anchor at `anchor_y` and a cursor at `y`;
/// `None` inside the dead zone, where nothing is to be done.
pub fn compute_scroll(cfg: &ScrollConfig, pacing: Pacing, anchor_y: i32, y: i32) -> (r: Option<
    ScrollCommand,
>)
    requires
        cfg.wf(),
        pacing.wf(),
    ensures
        r is None <==> in_dead_zone(*cfg, delta_of(anchor_y as int, y as int)),
        r matches Some(c) ==> {
            let d = delta_of(anchor_y as int, y as int);
            &&& c.amount == amount_of(*cfg, d)
            &&& c.delay_ms == delay_of(scaled_of(*cfg, d), cfg.max_scroll_power as int, pacing)
        },
{
    let delta: i64 = anchor_y as i64 - y as i64;
    let dist: i64 = if delta < 0 {
        -delta
    } else {
        delta
    };
    if dist <= cfg.radius as i64 {
        return None;
    }
    let effective: u64 = (dist - cfg.radius as i64) as u64;
    let scaled: u64 = effective * FRICTION_SCALE / (cfg.friction_milli as u64);
    proof {
        lemma_div_is_ordered(0, effective * FRICTION_SCALE, cfg.friction_milli as int);
    }
    let cap: u64 = cfg.max_scroll_power as u64;
    let magnitude: i32 = if scaled <= cap {
        scaled as i32
    } else {
        cfg.max_scroll_power
    };
    let amount: i32 = if delta < 0 {
        -magnitude
    } else {
        magnitude
    };
    let delay: u64 = pacing_delay(scaled, cap, pacing);
    Some(ScrollCommand { amount, delay_ms: delay })
}

/// The pause that follows a tick whose scaled distance is `scaled`.
pub fn pacing_delay(scaled: u64, max_power: u64, pacing: Pacing) -> (r: u64)
    requires
        pacing.wf(),
    ensures
        r == delay_of(scaled as int, max_power as int, pacing),
        pacing.delay_min <= r <= pacing.delay_max,
{
    proof {
        lemma_delay_bounds(scaled as int, max_power as int, pacing);
    }
    if max_power == 0 {
        return pacing.delay_min;
    }
    let s: u64 = if scaled <= max_power {
        scaled
    } else {
        max_power
    };
    let span: u64 = pacing.delay_max - pacing.delay_min;
    assert(s as int * span as int <= u64::MAX as int * u64::MAX as int) by (nonlinear_arith)
        requires
            s <= u64::MAX,
            span <= u64::MAX,
    ;
    let prod: u128 = (s as u128) * (span as u128);
    let up: u128 = (prod + max_power as u128 - 1) / (max_power as u128);
    pacing.delay_max - (up as u64)
}

/// Inside the dead zone nothing scrolls.
pub proof fn lemma_dead_zone_is_still(cfg: ScrollConfig, delta: int)
    requires
        cfg.wf(),
        abs(delta) <= cfg.radius,
    ensures
        amount_of(cfg, delta) == 0,
{
}

/// The scroll magnitude never decreases as the cursor moves farther from the
/// anchor, and never exceeds the maximum power.
pub proof fn lemma_magnitude_monotone(cfg: ScrollConfig, d1: int, d2: int)
    requires
        cfg.wf(),
        abs(d1) <= abs(d2),
    ensures
        0 <= abs(amount_of(cfg, d1)) <= abs(amount_of(cfg, d2)),
        abs(amount_of(cfg, d2)) <= cfg.max_scroll_power,
{
    let f = cfg.friction_milli as int;
    if !in_dead_zone(cfg, d2) {
        let e2 = (abs(d2) - cfg.radius) * FRICTION_SCALE;
        lemma_div_pos_is_pos(e2, f);
        if !in_dead_zone(cfg, d1) {
            let e1 = (abs(d1) - cfg.radius) * FRICTION_SCALE;
            lemma_div_is_ordered(e1, e2, f);
            lemma_div_pos_is_pos(e1, f);
        }
    }
}

/// A non-zero scroll has the sign of the distance from the anchor.
pub proof fn lemma_direction_follows_delta(cfg: ScrollConfig, delta: int)
    requires
        cfg.wf(),
        amount_of(cfg, delta) != 0,
    ensures
        (amount_of(cfg, delta) > 0) == (delta > 0),
{
    lemma_magnitude_monotone(cfg, delta, delta);
}

/// The pause never grows as the scaled distance grows, and stays within the
/// pacing bounds.
pub proof fn lemma_delay_monotone(s1: int, s2: int, max_power: int, p: Pacing)
    requires
        p.wf(),
        s1 <= s2,
    ensures
        delay_of(s2, max_power, p) <= delay_of(s1, max_power, p),
        p.delay_min <= delay_of(s2, max_power, p) <= p.delay_max,
{
    lemma_delay_bounds(s2, max_power, p);
    if max_power > 0 {
        let span = p.delay_max - p.delay_min;
        let c1 = if s1 < 0 {
            0
        } else {
            min(s1, max_power)
        };
        let c2 = if s2 < 0 {
            0
        } else {
            min(s2, max_power)
        };
        assert(c1 <= c2);
        lemma_mul_inequality(c1, c2, span);
        lemma_div_is_ordered(c1 * span + max_power - 1, c2 * span + max_power - 1, max_power);
    }
}

} // verus!
