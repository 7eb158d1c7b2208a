//! The walk engine: it plans a random destination near the display center and
//! animates the cursor toward it in unit steps, deciding along the way whether
//! to inject a button press within a per-run click budget.

use vstd::prelude::*;

verus! {

/// Half the side of the square region, centered on the display center, in
/// which a walk destination is chosen, in pixels.
pub const AREA_SIZE: i32 = 400;

/// How many button presses one walk may inject at most.
pub const CLICK_BUDGET: u32 = 3;

/// A step injects a click only when its fresh 32-bit roll falls below this
/// bound, which is the largest hundredth of the 32-bit range: the chance is
/// about one in a hundred per step.
pub const CLICK_ROLL_BOUND: u32 = 42_949_673;

/// Relies on rand::random: a fresh sample of the thread-local generator's
/// standard distribution. Nothing is promised of the value.
pub assume_specification<T>[ rand::random::<T> ]() -> (r: T)
    where
        rand::distr::StandardUniform: rand::distr::Distribution<T>,
;

/// The magnitude of an integer.
pub open spec fn abs_val(x: int) -> int {
    if x < 0 {
        -x
    } else {
        x
    }
}

/// The larger of two integers.
pub open spec fn max_val(a: int, b: int) -> int {
    if a >= b {
        a
    } else {
        b
    }
}

/// Where a raw 32-bit draw lands inside the walk region: an offset in
/// `[0, 2 * AREA_SIZE)` from the region's left (or top) edge.
pub open spec fn region_offset(r: i32) -> int {
    abs_val(r as int) % (2 * AREA_SIZE)
}

/// One destination coordinate: the draw's offset into the region laid around
/// `center`. The region may extend past the display edge; the result is not
/// clamped to display bounds.
pub open spec fn dest_coord_spec(r: i32, center: i32) -> int {
    center - AREA_SIZE + region_offset(r)
}

/// Maps one raw draw to one destination coordinate. The result always lies
/// within `AREA_SIZE` pixels of `center`, whatever the draw was.
pub fn dest_coord(r: i32, center: i32) -> (d: i32)
    requires
        i32::MIN + AREA_SIZE <= center <= i32::MAX - AREA_SIZE,
    ensures
        d == dest_coord_spec(r, center),
        center - AREA_SIZE <= d < center + AREA_SIZE,
{
    let wide: i64 = r as i64;
    let magnitude: i64 = if wide < 0 {
        -wide
    } else {
        wide
    };
    let offset: i64 = magnitude % ((2 * AREA_SIZE) as i64);
    center - AREA_SIZE + (offset as i32)
}

/// Picks a walk destination uniformly inside the square region of side
/// `2 * AREA_SIZE` centered on the display center. The destination is not
/// clamped: near a display edge it may fall outside the visible screen,
/// which is accepted behaviour. The bounds on the display size only keep
/// the pixel arithmetic inside 32 bits.
pub fn pick_destination(size_x: u64, size_y: u64) -> (d: (i32, i32))
    requires
        size_x / 2 <= i32::MAX - AREA_SIZE,
        size_y / 2 <= i32::MAX - AREA_SIZE,
    ensures
        size_x / 2 - AREA_SIZE <= d.0 < size_x / 2 + AREA_SIZE,
        size_y / 2 - AREA_SIZE <= d.1 < size_y / 2 + AREA_SIZE,
{
    let center_x: i32 = (size_x / 2) as i32;
    let center_y: i32 = (size_y / 2) as i32;
    let rx: i32 = rand::random::<i32>();
    let ry: i32 = rand::random::<i32>();
    (dest_coord(rx, center_x), dest_coord(ry, center_y))
}

/// What one animation step asks the caller to inject: a cursor move to
/// `(x, y)`, and a button press if `click` is set.
pub struct StepResult {
    pub x: i32,
    pub y: i32,
    pub click: bool,
}

/// One walk in progress: the cursor's current position, the destination, and
/// how much of the click budget is spent.
pub struct Walk {
    pub x: i32,
    pub y: i32,
    pub dest_x: i32,
    pub dest_y: i32,
    pub clicks_done: u32,
    pub click_budget: u32,
}

/// One axis of a step: one pixel toward the destination, or rest once there.
pub open spec fn axis_step(cur: int, dest: int) -> int {
    if cur < dest {
        cur + 1
    } else if cur > dest {
        cur - 1
    } else {
        cur
    }
}

/// Whether a step's roll injects a click: the roll must fall below
/// `CLICK_ROLL_BOUND` while the budget is not yet spent.
pub open spec fn click_decided(roll: u32, clicks_done: u32, click_budget: u32) -> bool {
    roll < CLICK_ROLL_BOUND && clicks_done < click_budget
}

/// The whole walk state after one step with the given roll.
pub open spec fn step_spec(w: Walk, roll: u32) -> Walk {
    Walk {
        x: axis_step(w.x as int, w.dest_x as int) as i32,
        y: axis_step(w.y as int, w.dest_y as int) as i32,
        clicks_done: if click_decided(roll, w.clicks_done, w.click_budget) {
            (w.clicks_done + 1) as u32
        } else {
            w.clicks_done
        },
        ..w
    }
}

/// The walk state after a run of steps, one per roll, first roll first.
pub open spec fn walk_after(w: Walk, rolls: Seq<u32>) -> Walk
    decreases rolls.len(),
{
    if rolls.len() == 0 {
        w
    } else {
        walk_after(step_spec(w, rolls[0]), rolls.drop_first())
    }
}

impl Walk {
    /// The clicks injected so far never exceed the budget.
    pub open spec fn wf(self) -> bool {
        self.clicks_done <= self.click_budget
    }

    /// The walk still has at least one step to go.
    pub open spec fn in_progress(self) -> bool {
        self.x != self.dest_x || self.y != self.dest_y
    }

    /// How many steps are left: the axes converge independently, one pixel
    /// per step, so the slower axis decides.
    pub open spec fn steps_remaining(self) -> int {
        max_val(abs_val(self.x - self.dest_x), abs_val(self.y - self.dest_y))
    }

    /// A walk from the given origin to the given destination, with the full
    /// click budget ahead of it.
    pub fn start(origin_x: i32, origin_y: i32, dest_x: i32, dest_y: i32) -> (w: Walk)
        ensures
            w == (Walk {
                x: origin_x,
                y: origin_y,
                dest_x: dest_x,
                dest_y: dest_y,
                clicks_done: 0,
                click_budget: CLICK_BUDGET,
            }),
            w.wf(),
    {
        Walk {
            x: origin_x,
            y: origin_y,
            dest_x: dest_x,
            dest_y: dest_y,
            clicks_done: 0,
            click_budget: CLICK_BUDGET,
        }
    }

    /// Plans a walk for one idle trigger: the cursor starts where it stands
    /// and heads for a random destination near the display center (possibly
    /// past a display edge; see `pick_destination`).
    pub fn plan(origin_x: i32, origin_y: i32, size_x: u64, size_y: u64) -> (w: Walk)
        requires
            size_x / 2 <= i32::MAX - AREA_SIZE,
            size_y / 2 <= i32::MAX - AREA_SIZE,
        ensures
            w.x == origin_x,
            w.y == origin_y,
            size_x / 2 - AREA_SIZE <= w.dest_x < size_x / 2 + AREA_SIZE,
            size_y / 2 - AREA_SIZE <= w.dest_y < size_y / 2 + AREA_SIZE,
            w.clicks_done == 0,
            w.click_budget == CLICK_BUDGET,
            w.wf(),
    {
        let (dest_x, dest_y) = pick_destination(size_x, size_y);
        Walk::start(origin_x, origin_y, dest_x, dest_y)
    }

    /// Whether the animation must go on: true until both axes sit exactly on
    /// the destination.
    pub fn has_more_steps(&self) -> (b: bool)
        ensures
            b == self.in_progress(),
    {
        self.x != self.dest_x || self.y != self.dest_y
    }

    /// One deterministic animation step: each axis that has not yet arrived
    /// moves exactly one pixel toward the destination, and the roll decides a
    /// click, granted only while the budget is not spent. Every step brings
    /// the walk exactly one step closer to its destination.
    pub fn step_with_roll(&mut self, roll: u32) -> (r: StepResult)
        requires
            old(self).in_progress(),
            old(self).wf(),
        ensures
            *final(self) == step_spec(*old(self), roll),
            final(self).wf(),
            final(self).steps_remaining() == old(self).steps_remaining() - 1,
            r.x == final(self).x,
            r.y == final(self).y,
            r.click == click_decided(roll, old(self).clicks_done, old(self).click_budget),
    {
        if self.x != self.dest_x {
            self.x = if self.x > self.dest_x {
                self.x - 1
            } else {
                self.x + 1
            };
        }
        if self.y != self.dest_y {
            self.y = if self.y > self.dest_y {
                self.y - 1
            } else {
                self.y + 1
            };
        }
        let click = roll < CLICK_ROLL_BOUND && self.clicks_done < self.click_budget;
        if click {
            self.clicks_done = self.clicks_done + 1;
        }
        StepResult { x: self.x, y: self.y, click }
    }

    /// One animation step with a fresh roll. The position advances exactly as
    /// `step_with_roll` says; of the click only what holds for every roll is
    /// promised: a click comes only while the budget is not spent, and spends
    /// one unit of it.
    pub fn step(&mut self) -> (r: StepResult)
        requires
            old(self).in_progress(),
            old(self).wf(),
        ensures
            final(self).x == axis_step(old(self).x as int, old(self).dest_x as int),
            final(self).y == axis_step(old(self).y as int, old(self).dest_y as int),
            final(self).dest_x == old(self).dest_x,
            final(self).dest_y == old(self).dest_y,
            final(self).click_budget == old(self).click_budget,
            final(self).wf(),
            final(self).steps_remaining() == old(self).steps_remaining() - 1,
            r.x == final(self).x,
            r.y == final(self).y,
            r.click ==> old(self).clicks_done < old(self).click_budget && final(self).clicks_done
                == old(self).clicks_done + 1,
            !r.click ==> final(self).clicks_done == old(self).clicks_done,
    {
        let roll: u32 = rand::random::<u32>();
        self.step_with_roll(roll)
    }
}

/// Walk convergence: a walk finishes in exactly `steps_remaining()` steps —
/// that is, in `max_val(|dest_x - x|, |dest_y - y|)` steps — and once given
/// that many rolls, both axes sit exactly on the destination, whatever the
/// rolls were.
pub proof fn lemma_walk_converges(w: Walk, rolls: Seq<u32>)
    requires
        rolls.len() >= w.steps_remaining(),
    ensures
        walk_after(w, rolls).x == w.dest_x,
        walk_after(w, rolls).y == w.dest_y,
    decreases rolls.len(),
{
    if rolls.len() > 0 {
        lemma_walk_converges(step_spec(w, rolls[0]), rolls.drop_first());
    }
}

/// Click budget: however the rolls fall, a run of steps never pushes the
/// click count past the budget, and each click spends exactly one unit, so
/// the presses a whole walk injects number at most `click_budget`.
pub proof fn lemma_click_budget(w: Walk, rolls: Seq<u32>)
    requires
        w.wf(),
    ensures
        walk_after(w, rolls).wf(),
        walk_after(w, rolls).click_budget == w.click_budget,
        w.clicks_done <= walk_after(w, rolls).clicks_done <= w.click_budget,
    decreases rolls.len(),
{
    if rolls.len() > 0 {
        lemma_click_budget(step_spec(w, rolls[0]), rolls.drop_first());
    }
}

} // verus!
