//! Player state: positions on an integer grid, movement-intent latches,
//! world obstacles (critters), and the capture-radius intersection test
//! used to validate speculative moves.
use vstd::prelude::*;

verus! {

/// Horizontal movement intent: one step left or right per tick.
#[derive(Clone, Copy, Debug, PartialEq, Eq, Structural)]
pub enum LRDir {
    Left,
    Right,
}

/// Vertical movement intent: one step up or down per tick.
#[derive(Clone, Copy, Debug, PartialEq, Eq, Structural)]
pub enum UDDir {
    Up,
    Down,
}

/// A point of the world, in whole units.
#[derive(Clone, Copy, Debug, PartialEq, Eq, Structural)]
pub struct Pos {
    pub pos_x: i32,
    pub pos_y: i32,
}

impl Default for Pos {
    /// The origin.
    fn default() -> (p: Pos)
        ensures
            p == (Pos { pos_x: 0, pos_y: 0 }),
    {
        Pos { pos_x: 0, pos_y: 0 }
    }
}

/// Squared Euclidean distance between two points.
pub open spec fn dist2(a: Pos, b: Pos) -> int {
    (a.pos_x - b.pos_x) * (a.pos_x - b.pos_x) + (a.pos_y - b.pos_y) * (a.pos_y - b.pos_y)
}

impl Pos {
    pub fn new(x: i32, y: i32) -> (p: Pos)
        ensures
            p.pos_x == x && p.pos_y == y,
    {
        Pos { pos_x: x, pos_y: y }
    }

    pub fn x(&self) -> (r: i32)
        ensures
            r == self.pos_x,
    {
        self.pos_x
    }

    pub fn y(&self) -> (r: i32)
        ensures
            r == self.pos_y,
    {
        self.pos_y
    }

    fn inc_x(&mut self, val: i32)
        requires
            i32::MIN <= old(self).pos_x + val <= i32::MAX,
        ensures
            final(self).pos_x == old(self).pos_x + val,
            final(self).pos_y == old(self).pos_y,
    {
        self.pos_x = self.pos_x + val;
    }

    fn inc_y(&mut self, val: i32)
        requires
            i32::MIN <= old(self).pos_y + val <= i32::MAX,
        ensures
            final(self).pos_y == old(self).pos_y + val,
            final(self).pos_x == old(self).pos_x,
    {
        self.pos_y = self.pos_y + val;
    }

    /// Displace the point by the given delta on each axis.
    pub fn move_player(&mut self, x: i32, y: i32)
        requires
            i32::MIN <= old(self).pos_x + x <= i32::MAX,
            i32::MIN <= old(self).pos_y + y <= i32::MAX,
        ensures
            final(self).pos_x == old(self).pos_x + x,
            final(self).pos_y == old(self).pos_y + y,
    {
        self.inc_x(x);
        self.inc_y(y);
    }

    /// Squared distance to another point; exact, with no overflow for any
    /// pair of points.
    pub fn object_distance_2(&self, pos: Pos) -> (d: u128)
        ensures
            d == dist2(*self, pos),
            d < 0x4_0000_0000_0000_0000,
    {
        let dx: i128 = self.pos_x as i128 - pos.pos_x as i128;
        let dy: i128 = self.pos_y as i128 - pos.pos_y as i128;
        proof {
            assert(dx * dx + dy * dy < 0x4_0000_0000_0000_0000 && dx * dx >= 0 && dy * dy
                >= 0) by (nonlinear_arith)
                requires
                    -0x1_0000_0000 < dx < 0x1_0000_0000,
                    -0x1_0000_0000 < dy < 0x1_0000_0000,
            ;
        }
        (dx * dx + dy * dy) as u128
    }

    /// Euclidean distance to another point, rounded down to a whole number.
    pub fn object_distance(&self, pos: Pos) -> (r: u64)
        ensures
            r * r <= dist2(*self, pos) < (r + 1) * (r + 1),
    {
        let d = self.object_distance_2(pos);
        isqrt(d)
    }
}

/// A static world obstacle: a circle with a display color, immutable for
/// the session.
#[derive(Clone, Copy, Debug, PartialEq, Eq)]
pub struct Critter {
    pub pos_x: i32,
    pub pos_y: i32,
    pub size: u32,
    pub color: (u8, u8, u8, u8),
}

/// Capture-radius intersection: two circles intersect when the squared
/// distance between their centers is at most the square of the sum of the
/// radii, boundary inclusive. A smaller circle is thus "captured" once it
/// is anywhere within the combined radius.
pub open spec fn circles_intersect(a: Pos, ra: u32, b: Pos, rb: u32) -> bool {
    dist2(a, b) <= (ra + rb) * (ra + rb)
}

/// Whether the circle at `a` with radius `ra` intersects the circle at `b`
/// with radius `rb`, boundary inclusive.
pub fn circles_intersect_at(a: Pos, ra: u32, b: Pos, rb: u32) -> (r: bool)
    ensures
        r == circles_intersect(a, ra, b, rb),
{
    let distance = a.object_distance_2(b);
    let rr: u64 = ra as u64 + rb as u64;
    proof {
        assert((rr as int) * (rr as int) <= 0x4_0000_0000_0000_0000) by (nonlinear_arith)
            requires
                0 <= rr <= 0x2_0000_0000,
        ;
    }
    let high_r: u128 = (rr as u128) * (rr as u128);
    distance <= high_r
}

/// A player: a unique name (the sole equality key), a position, a collision
/// radius, and the currently held movement intent on each axis.
#[derive(Debug, PartialEq)]
pub struct Player {
    pub name: String,
    pub pos: Pos,
    pub size: u32,
    pub moving: (Option<LRDir>, Option<UDDir>),
}

impl Default for Player {
    /// The placeholder player: empty name, at the origin, radius 0, no
    /// held intent.
    fn default() -> (p: Player)
        ensures
            p.name@ == Seq::<char>::empty(),
            p.pos == (Pos { pos_x: 0, pos_y: 0 }),
            p.size == 0,
            p.moving == (None::<LRDir>, None::<UDDir>),
    {
        Player {
            name: String::new(),
            pos: Pos { pos_x: 0, pos_y: 0 },
            size: 0,
            moving: (None, None),
        }
    }
}

impl Clone for Player {
    fn clone(&self) -> (r: Self)
        ensures
            r == *self,
    {
        Player { name: self.name.clone(), pos: self.pos, size: self.size, moving: self.moving }
    }
}

impl Player {
    /// A fresh display name of 30 random alphanumeric characters.
    ///
    /// Relies on rand's `Alphanumeric` distribution: `sample_string` with
    /// length 30 returns a string of exactly 30 ASCII alphanumeric
    /// characters. Nothing is assumed about which characters come back.
    #[verifier::external_body]
    pub fn random_username() -> (r: String)
        ensures
            r@.len() == 30,
    {
        rand::distr::SampleString::sample_string(&rand::distr::Alphanumeric, &mut rand::rng(), 30)
    }

    /// Two players are the same exactly when their names are equal.
    pub fn same_player(&self, p: &Player) -> (r: bool)
        ensures
            r == (self.name@ == p.name@),
    {
        self.name == p.name
    }

    pub fn set_name(&mut self, name: &str)
        ensures
            final(self).name@ == name@,
            final(self).pos == old(self).pos,
            final(self).size == old(self).size,
            final(self).moving == old(self).moving,
    {
        self.name = name.to_owned();
    }

    /// Whether this player's circle intersects the circle at `pos` with
    /// radius `size`, boundary inclusive.
    pub fn intersect(&self, pos: Pos, size: u32) -> (r: bool)
        ensures
            r == circles_intersect(self.pos, self.size, pos, size),
    {
        circles_intersect_at(self.pos, self.size, pos, size)
    }

    /// A new player at the origin with a random name, radius 10, and no
    /// held movement intent.
    pub fn new() -> (p: Player)
        ensures
            p.name@.len() == 30,
            p.pos == (Pos { pos_x: 0, pos_y: 0 }),
            p.size == 10,
            p.moving == (None::<LRDir>, None::<UDDir>),
    {
        Player {
            name: Player::random_username(),
            pos: Pos { pos_x: 0, pos_y: 0 },
            size: 10,
            moving: (None, None),
        }
    }

    /// A copy of a player suitable for sending over the wire: same name,
    /// position and size, with the movement intent cleared.
    pub fn copy(p: &Player) -> (r: Player)
        ensures
            r.name == p.name,
            r.pos == p.pos,
            r.size == p.size,
            r.moving == (None::<LRDir>, None::<UDDir>),
    {
        Player { name: p.name.clone(), pos: p.pos, size: p.size, moving: (None, None) }
    }
}

/// A directional key whose press or release changes the movement intent.
#[derive(Clone, Copy, Debug, PartialEq, Eq, Structural)]
pub enum Key {
    Up,
    Down,
    Left,
    Right,
}

/// Key-down sets the latch of the key's axis unconditionally, overwriting
/// any previous intent on that axis; the other axis is untouched.
pub open spec fn latch_down(m: (Option<LRDir>, Option<UDDir>), key: Key) -> (
    Option<LRDir>,
    Option<UDDir>,
) {
    match key {
        Key::Up => (m.0, Some(UDDir::Up)),
        Key::Down => (m.0, Some(UDDir::Down)),
        Key::Left => (Some(LRDir::Left), m.1),
        Key::Right => (Some(LRDir::Right), m.1),
    }
}

/// Key-up clears the latch of the key's axis only if the latch currently
/// matches the released key, so a stale release cannot clear a newer
/// intent; the other axis is untouched.
pub open spec fn latch_up(m: (Option<LRDir>, Option<UDDir>), key: Key) -> (
    Option<LRDir>,
    Option<UDDir>,
) {
    match key {
        Key::Up => if m.1 == Some(UDDir::Up) { (m.0, None) } else { m },
        Key::Down => if m.1 == Some(UDDir::Down) { (m.0, None) } else { m },
        Key::Left => if m.0 == Some(LRDir::Left) { (None, m.1) } else { m },
        Key::Right => if m.0 == Some(LRDir::Right) { (None, m.1) } else { m },
    }
}

/// The signed per-tick direction of a held horizontal intent.
pub open spec fn lr_sign(d: Option<LRDir>) -> int {
    match d {
        None => 0,
        Some(LRDir::Left) => -1,
        Some(LRDir::Right) => 1,
    }
}

/// The signed per-tick direction of a held vertical intent.
pub open spec fn ud_sign(d: Option<UDDir>) -> int {
    match d {
        None => 0,
        Some(UDDir::Up) => -1,
        Some(UDDir::Down) => 1,
    }
}

pub fn lr_sign_of(d: Option<LRDir>) -> (r: i32)
    ensures
        r == lr_sign(d),
{
    match d {
        None => 0,
        Some(LRDir::Left) => -1,
        Some(LRDir::Right) => 1,
    }
}

pub fn ud_sign_of(d: Option<UDDir>) -> (r: i32)
    ensures
        r == ud_sign(d),
{
    match d {
        None => 0,
        Some(UDDir::Up) => -1,
        Some(UDDir::Down) => 1,
    }
}

/// Integer square root, rounded down.
fn isqrt(d: u128) -> (r: u64)
    requires
        d < 0x4_0000_0000_0000_0000,
    ensures
        r * r <= d < (r + 1) * (r + 1),
{
    let mut lo: u64 = 0;
    let mut hi: u64 = 0x2_0000_0000;
    proof {
        assert((hi as int) * (hi as int) == 0x4_0000_0000_0000_0000) by (nonlinear_arith)
            requires
                hi == 0x2_0000_0000,
        ;
    }
    while lo + 1 < hi
        invariant
            lo < hi <= 0x2_0000_0000,
            (lo as int) * (lo as int) <= d < (hi as int) * (hi as int),
        decreases hi - lo,
    {
        let mid = lo + (hi - lo) / 2;
        proof {
            assert((mid as int) * (mid as int) <= 0x4_0000_0000_0000_0000)
                by (nonlinear_arith)
                requires
                    0 <= mid <= 0x2_0000_0000,
            ;
        }
        let m2 = (mid as u128) * (mid as u128);
        if m2 <= d {
            lo = mid;
        } else {
            hi = mid;
        }
    }
    lo
}

} // verus!
