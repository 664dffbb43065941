use vstd::prelude::*;

verus! {

/// Integer grid coordinates `(x, y)`.
#[derive(Copy, Clone, PartialEq, Eq, Debug, Structural)]
pub struct Coords(pub i32, pub i32);

/// `|a|` over mathematical integers.
pub open spec fn abs_int(a: int) -> int {
    if a < 0 { -a } else { a }
}

/// Chebyshev (king-move) distance between two points.
pub open spec fn chebyshev(a: Coords, b: Coords) -> int {
    let dx = abs_int(a.0 - b.0);
    let dy = abs_int(a.1 - b.1);
    if dx >= dy { dx } else { dy }
}

/// The differences of both coordinates and their negations fit in an `i32`.
pub open spec fn distance_fits(a: Coords, b: Coords) -> bool {
    &&& -i32::MAX <= a.0 - b.0 <= i32::MAX
    &&& -i32::MAX <= a.1 - b.1 <= i32::MAX
}

/// Componentwise sum, as `a + b` computes it.
pub open spec fn sum(a: Coords, b: Coords) -> Coords {
    Coords((b.0 + a.0) as i32, (b.1 + a.1) as i32)
}

/// Componentwise difference `a` minus `b`, as `a - b` computes it.
pub open spec fn difference(a: Coords, b: Coords) -> Coords {
    Coords((a.0 - b.0) as i32, (a.1 - b.1) as i32)
}

/// The point with both coordinates exchanged.
pub open spec fn swapped(c: Coords) -> Coords {
    Coords(c.1, c.0)
}

/// Adding points does not depend on their order.
pub proof fn law_add_commutes(a: Coords, b: Coords)
    ensures
        sum(a, b) == sum(b, a),
{
}

/// A point minus itself is the origin.
pub proof fn law_sub_self(a: Coords)
    ensures
        difference(a, a) == Coords(0, 0),
{
}

/// Subtracting `b` then adding it back gives `a`.
pub proof fn law_sub_then_add(a: Coords, b: Coords)
    requires
        distance_fits(a, b),
    ensures
        sum(difference(a, b), b) == a,
{
}

/// Exchanging the coordinates twice gives the point back.
pub proof fn law_swap_twice(c: Coords)
    ensures
        swapped(swapped(c)) == c,
{
}

/// The distance in tiles is symmetric, never negative, and zero exactly
/// between a point and itself.
pub proof fn law_distance(a: Coords, b: Coords)
    ensures
        chebyshev(a, b) == chebyshev(b, a),
        chebyshev(a, b) >= 0,
        (chebyshev(a, b) == 0) == (a == b),
{
}

impl Coords {
    /// Accessor for x.
    pub fn x(&self) -> (r: i32)
        ensures
            r == self.0,
    {
        self.0
    }

    /// Accessor for y.
    pub fn y(&self) -> (r: i32)
        ensures
            r == self.1,
    {
        self.1
    }

    /// Tuple conversion; each coordinate is reinterpreted as a `usize`.
    pub fn to_tuple(&self) -> (r: (usize, usize))
        ensures
            r == (self.0 as usize, self.1 as usize),
    {
        (self.0 as usize, self.1 as usize)
    }

    /// Distance counted in tiles: the larger of the two axis distances.
    pub fn distance_in_tiles(&self, other: &Coords) -> (r: i32)
        requires
            distance_fits(*self, *other),
        ensures
            r == chebyshev(*self, *other),
    {
        let dx = self.0 - other.0;
        let dy = self.1 - other.1;
        let adx = if dx < 0 { -dx } else { dx };
        let ady = if dy < 0 { -dy } else { dy };
        if adx >= ady { adx } else { ady }
    }

    /// The same point with x and y exchanged.
    pub fn swap_coords(&self) -> (r: Coords)
        ensures
            r == swapped(*self),
    {
        Coords(self.1, self.0)
    }
}

/// `Coords + other` adds componentwise.
impl core::ops::Add for Coords {
    type Output = Coords;

    fn add(self, other: Coords) -> (r: Coords) {
        Coords(other.0 + self.0, other.1 + self.1)
    }
}

impl vstd::std_specs::ops::AddSpecImpl for Coords {
    open spec fn obeys_add_spec() -> bool {
        true
    }

    open spec fn add_req(self, rhs: Coords) -> bool {
        &&& i32::MIN <= self.0 + rhs.0 <= i32::MAX
        &&& i32::MIN <= self.1 + rhs.1 <= i32::MAX
    }

    open spec fn add_spec(self, rhs: Coords) -> Coords {
        sum(self, rhs)
    }
}

/// `Coords - other` subtracts `other` componentwise.
impl core::ops::Sub for Coords {
    type Output = Coords;

    fn sub(self, other: Coords) -> (r: Coords) {
        Coords(self.0 - other.0, self.1 - other.1)
    }
}

impl vstd::std_specs::ops::SubSpecImpl for Coords {
    open spec fn obeys_sub_spec() -> bool {
        true
    }

    open spec fn sub_req(self, rhs: Coords) -> bool {
        &&& i32::MIN <= self.0 - rhs.0 <= i32::MAX
        &&& i32::MIN <= self.1 - rhs.1 <= i32::MAX
    }

    open spec fn sub_spec(self, rhs: Coords) -> Coords {
        difference(self, rhs)
    }
}

} // verus!
