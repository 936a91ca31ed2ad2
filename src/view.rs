use vstd::prelude::*;

verus! {

/// Angles of the view are counted in tenths of a degree.
pub const DEGREE: i64 = 10;

/// Largest magnitude that a view angle may reach.
pub const ANGLE_LIMIT: i64 = 1_000_000_000_000;

/// Where the viewer looks: pitch about x and yaw about y, in tenths of a degree.
#[derive(Clone, Copy, Debug, PartialEq, Eq, Structural)]
pub struct PanoramaShower {
    pub rotation_x: i64,
    pub rotation_y: i64,
}

/// The pitch and yaw that folding gives: the pitch is brought into [-180, 180) degrees; past
/// straight up or straight down it is mirrored back into [-90, 90] and the yaw turns half
/// round.
pub open spec fn folded(x: int, y: int) -> (int, int) {
    let p = (x + 180 * DEGREE) % (360 * DEGREE) - 180 * DEGREE;
    if p > 90 * DEGREE {
        (180 * DEGREE - p, y + 180 * DEGREE)
    } else if p < -90 * DEGREE {
        (-180 * DEGREE - p, y + 180 * DEGREE)
    } else {
        (p, y)
    }
}

impl PanoramaShower {
    /// Both angles stay within `ANGLE_LIMIT`.
    pub open spec fn wf(&self) -> bool {
        &&& -ANGLE_LIMIT <= self.rotation_x <= ANGLE_LIMIT
        &&& -ANGLE_LIMIT <= self.rotation_y <= ANGLE_LIMIT
    }

    /// Looking straight ahead.
    pub fn new() -> (r: PanoramaShower)
        ensures
            r.wf(),
            r.rotation_x == 0,
            r.rotation_y == 0,
    {
        PanoramaShower { rotation_x: 0, rotation_y: 0 }
    }

    pub fn get_rotation_x(&self) -> (r: i64)
        ensures
            r == self.rotation_x,
    {
        self.rotation_x
    }

    pub fn get_rotation_y(&self) -> (r: i64)
        ensures
            r == self.rotation_y,
    {
        self.rotation_y
    }

    pub fn set_rotation_x(&mut self, rotation: i64)
        ensures
            final(self).rotation_x == rotation,
            final(self).rotation_y == old(self).rotation_y,
    {
        self.rotation_x = rotation;
    }

    pub fn set_rotation_y(&mut self, rotation: i64)
        ensures
            final(self).rotation_y == rotation,
            final(self).rotation_x == old(self).rotation_x,
    {
        self.rotation_y = rotation;
    }

    pub fn increase_rotation_x(&mut self, rotation: i64)
        requires
            -ANGLE_LIMIT <= old(self).rotation_x + rotation <= ANGLE_LIMIT,
        ensures
            final(self).rotation_x == old(self).rotation_x + rotation,
            final(self).rotation_y == old(self).rotation_y,
    {
        self.rotation_x = self.rotation_x + rotation;
    }

    pub fn increase_rotation_y(&mut self, rotation: i64)
        requires
            -ANGLE_LIMIT <= old(self).rotation_y + rotation <= ANGLE_LIMIT,
        ensures
            final(self).rotation_y == old(self).rotation_y + rotation,
            final(self).rotation_x == old(self).rotation_x,
    {
        self.rotation_y = self.rotation_y + rotation;
    }

    /// Folds the pitch back into [-90, 90] degrees, turning the yaw half round where the
    /// pitch went past a pole.
    pub fn modify_rotation(&mut self)
        requires
            old(self).wf(),
        ensures
            (final(self).rotation_x as int, final(self).rotation_y as int) == folded(
                old(self).rotation_x as int,
                old(self).rotation_y as int,
            ),
            -90 * DEGREE <= final(self).rotation_x <= 90 * DEGREE,
    {
        let shifted = self.rotation_x + 180 * DEGREE;
        let m = match shifted.checked_rem_euclid(360 * DEGREE) {
            Some(m) => m,
            None => 0,
        };
        let p = m - 180 * DEGREE;
        if p > 90 * DEGREE {
            self.rotation_x = 180 * DEGREE - p;
            self.rotation_y = self.rotation_y + 180 * DEGREE;
        } else if p < -90 * DEGREE {
            self.rotation_x = -180 * DEGREE - p;
            self.rotation_y = self.rotation_y + 180 * DEGREE;
        } else {
            self.rotation_x = p;
        }
    }
}

/// Fixed-point unit of brush travel: `BRUSH_STEP` stands for the spacing of two dots.
pub const BRUSH_STEP: u64 = 1_000_000;

/// How far a brush stroke has travelled, in units of `1 / BRUSH_STEP` of the dot spacing.
#[derive(Clone, Copy, Debug, PartialEq, Eq, Structural)]
pub struct BrushStroke {
    pub travelled: u64,
}

impl BrushStroke {
    /// A stroke that has not moved.
    pub fn start() -> (r: BrushStroke)
        ensures
            r.travelled == 0,
    {
        BrushStroke { travelled: 0 }
    }

    /// Moves the stroke on by `dist` and returns the dots that the segment holds: how many
    /// whole dot positions it passes, and how far into the current spacing it starts.
    pub fn advance(&mut self, dist: u64) -> (r: (u64, u64))
        requires
            old(self).travelled + dist <= u64::MAX,
        ensures
            final(self).travelled == old(self).travelled + dist,
            r.0 == (old(self).travelled + dist) / (BRUSH_STEP as int) - (old(self).travelled as int)
                / (BRUSH_STEP as int),
            r.1 == old(self).travelled % BRUSH_STEP,
    {
        let t = self.travelled;
        let before = t / BRUSH_STEP;
        let offset = t % BRUSH_STEP;
        let after = (t + dist) / BRUSH_STEP;
        assert(before <= after) by (nonlinear_arith)
            requires
                before == (t as int) / (BRUSH_STEP as int),
                after == (t + dist) / (BRUSH_STEP as int),
                0 <= dist,
        ;
        self.travelled = self.travelled + dist;
        (after - before, offset)
    }
}

} // verus!
