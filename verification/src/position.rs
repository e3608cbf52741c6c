use vstd::prelude::*;

verus! {

/// A cell of the tile grid. `z` is a layer index; distances and adjacency
/// look at `x` and `y` only.
#[derive(Clone, Copy, Debug, PartialEq, Eq, Hash, Structural)]
pub struct Position {
    pub x: i32,
    pub y: i32,
    pub z: i32,
}

/// The largest number whose square does not pass `n`.
pub open spec fn floor_sqrt(n: nat) -> nat
    decreases n,
{
    if n == 0 {
        0
    } else {
        let below = floor_sqrt((n - 1) as nat);
        if (below + 1) * (below + 1) <= n {
            below + 1
        } else {
            below
        }
    }
}

/// `floor_sqrt(n)` is the root of `n`, cut off: its square does not pass
/// `n`, and the square of the next number does.
pub proof fn lemma_floor_sqrt_bounds(n: nat)
    ensures
        floor_sqrt(n) * floor_sqrt(n) <= n < (floor_sqrt(n) + 1) * (floor_sqrt(n) + 1),
    decreases n,
{
    let root = floor_sqrt(n);
    if n == 0 {
        assert(root * root == 0 && (root + 1) * (root + 1) == 1) by (nonlinear_arith)
            requires
                root == 0,
        ;
    } else {
        lemma_floor_sqrt_bounds((n - 1) as nat);
        let below = floor_sqrt((n - 1) as nat);
        if (below + 1) * (below + 1) <= n {
            assert(root * root == (below + 1) * (below + 1) && root * root < (root + 1) * (root
                + 1)) by (nonlinear_arith)
                requires
                    root == below + 1,
            ;
        }
    }
}

/// Only one number lies at the root of `n`, cut off.
pub proof fn lemma_floor_sqrt_unique(n: nat, root: nat)
    requires
        root * root <= n < (root + 1) * (root + 1),
    ensures
        root == floor_sqrt(n),
{
    lemma_floor_sqrt_bounds(n);
    let other = floor_sqrt(n);
    if root < other {
        assert((root + 1) * (root + 1) <= other * other) by (nonlinear_arith)
            requires
                root + 1 <= other,
        ;
    } else if other < root {
        assert((other + 1) * (other + 1) <= root * root) by (nonlinear_arith)
            requires
                other + 1 <= root,
        ;
    }
}

/// The root of `squared`, cut off, found by halving the range it can lie in.
fn root_of(squared: u64) -> (root: u64)
    requires
        squared < 0x4000_0000_0000_0000,
    ensures
        root == floor_sqrt(squared as nat),
        root <= 0x7fff_ffff,
{
    let mut low: u64 = 0;
    let mut high: u64 = 0x8000_0000;
    while high - low > 1
        invariant
            low < high <= 0x8000_0000,
            low * low <= squared < high * high,
        decreases high - low,
    {
        let middle: u64 = low + (high - low) / 2;
        assert(middle * middle <= 0x4000_0000_0000_0000) by (nonlinear_arith)
            requires
                middle <= 0x8000_0000,
        ;
        if middle * middle <= squared {
            low = middle;
        } else {
            high = middle;
        }
    }
    proof {
        lemma_floor_sqrt_unique(squared as nat, low as nat);
    }
    low
}

impl Position {
    /// The square of the straight-line distance in the plane.
    pub open spec fn spec_distance_squared(&self, other: &Position) -> nat {
        ((self.x - other.x) * (self.x - other.x) + (self.y - other.y) * (self.y - other.y)) as nat
    }

    /// The straight-line distance in the plane, cut off to a whole number.
    pub open spec fn spec_distance(&self, other: &Position) -> nat {
        floor_sqrt(self.spec_distance_squared(other))
    }

    /// The distance to `other`, or `None` where it does not fit an `i32`.
    pub fn checked_distance(&self, other: &Position) -> (d: Option<i32>)
        ensures
            match d {
                Some(d) => d == self.spec_distance(other),
                None => self.spec_distance(other) > i32::MAX,
            },
    {
        let ghost n = self.spec_distance_squared(other);
        let dx: i128 = self.x as i128 - other.x as i128;
        let dy: i128 = self.y as i128 - other.y as i128;
        proof {
            assert(0 <= dx * dx <= 0x1_0000_0000_0000_0000) by (nonlinear_arith)
                requires
                    -0x1_0000_0000 <= dx <= 0x1_0000_0000,
            ;
            assert(0 <= dy * dy <= 0x1_0000_0000_0000_0000) by (nonlinear_arith)
                requires
                    -0x1_0000_0000 <= dy <= 0x1_0000_0000,
            ;
            assert(n == dx * dx + dy * dy);
            lemma_floor_sqrt_bounds(n);
            let root = floor_sqrt(n);
            if root > 0x7fff_ffff {
                assert(root * root >= 0x4000_0000_0000_0000) by (nonlinear_arith)
                    requires
                        root >= 0x8000_0000,
                ;
            }
        }
        let squared: i128 = dx * dx + dy * dy;
        if squared >= 0x4000_0000_0000_0000 {
            proof {
                let root = floor_sqrt(n);
                if root <= 0x7fff_ffff {
                    assert((root + 1) * (root + 1) <= 0x4000_0000_0000_0000) by (nonlinear_arith)
                        requires
                            0 <= root <= 0x7fff_ffff,
                    ;
                }
            }
            None
        } else {
            Some(root_of(squared as u64) as i32)
        }
    }

    /// The straight-line distance to `other` over `x` and `y`, cut off to a
    /// whole number. The layers play no part.
    ///
    /// Two cells at opposite corners of the coordinate range lie further
    /// apart than an `i32` can say: such a distance comes out as `i32::MAX`.
    pub fn distance(&self, other: &Position) -> (d: i32)
        ensures
            d == if self.spec_distance(other) <= i32::MAX {
                self.spec_distance(other) as int
            } else {
                i32::MAX as int
            },
            self.spec_distance(other) <= i32::MAX ==> d * d <= self.spec_distance_squared(other) < (d
                + 1) * (d + 1),
    {
        proof {
            lemma_floor_sqrt_bounds(self.spec_distance_squared(other));
        }
        match self.checked_distance(other) {
            Some(d) => d,
            None => i32::MAX,
        }
    }
}

/// The distance is the same in both directions.
pub proof fn lemma_distance_symmetric(a: Position, b: Position)
    ensures
        a.spec_distance(&b) == b.spec_distance(&a),
{
    assert((a.x - b.x) * (a.x - b.x) == (b.x - a.x) * (b.x - a.x)) by (nonlinear_arith);
    assert((a.y - b.y) * (a.y - b.y) == (b.y - a.y) * (b.y - a.y)) by (nonlinear_arith);
}

/// A cell is at distance zero from itself.
pub proof fn lemma_distance_to_self(a: Position)
    ensures
        a.spec_distance(&a) == 0,
{
}

} // verus!
