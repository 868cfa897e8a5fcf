//! Terrain segments and the random choices made while generating the world.
use vstd::prelude::*;
use crate::rect::{Rect, RectView, clamp_position};
use crate::types::{PowerType, StaticObject, TerrainType};
use crate::random::random_between;
use vstd::std_specs::cmp::PartialEqSpecImpl;

verus! {

/// The points of `s`, each moved by `(dx, dy)`.
pub open spec fn shifted(s: Seq<(i32, i32)>, dx: int, dy: int) -> Seq<(i32, i32)> {
    Seq::new(s.len(), |i: int| ((s[i].0 + dx) as i32, (s[i].1 + dy) as i32))
}

/// Moving every point of `s` by `(dx, dy)` stays within `i32`.
pub open spec fn shift_fits(s: Seq<(i32, i32)>, dx: int, dy: int) -> bool {
    forall|i: int|
        0 <= i < s.len() ==> i32::MIN <= #[trigger] s[i].0 + dx <= i32::MAX && i32::MIN <= s[i].1
            + dy <= i32::MAX
}

/// Moves every point by `(dx, dy)`.
fn shift_points(v: &mut Vec<(i32, i32)>, dx: i32, dy: i32)
    requires
        shift_fits(old(v)@, dx as int, dy as int),
    ensures
        final(v)@ == shifted(old(v)@, dx as int, dy as int),
{
    let ghost v0 = v@;
    let n = v.len();
    let mut i: usize = 0;
    while i < n
        invariant
            n == v0.len(),
            v@.len() == n,
            i <= n,
            shift_fits(v0, dx as int, dy as int),
            forall|j: int| 0 <= j < i ==> #[trigger] v@[j] == shifted(v0, dx as int, dy as int)[j],
            forall|j: int| i <= j < n ==> #[trigger] v@[j] == v0[j],
        decreases n - i,
    {
        let p = v[i];
        v.set(i, (p.0 + dx, p.1 + dy));
        i = i + 1;
    }
    assert(v@ =~= shifted(v0, dx as int, dy as int));
}

/// Moves every point left by `d`.
fn shift_points_left(v: &mut Vec<(i32, i32)>, d: i32)
    requires
        shift_fits(old(v)@, -d, 0),
    ensures
        final(v)@ == shifted(old(v)@, -d, 0),
{
    let ghost v0 = v@;
    let n = v.len();
    let mut i: usize = 0;
    while i < n
        invariant
            n == v0.len(),
            v@.len() == n,
            i <= n,
            shift_fits(v0, -d, 0),
            forall|j: int| 0 <= j < i ==> #[trigger] v@[j] == shifted(v0, -d, 0)[j],
            forall|j: int| i <= j < n ==> #[trigger] v@[j] == v0[j],
        decreases n - i,
    {
        let p = v[i];
        v.set(i, (p.0 - d, p.1));
        i = i + 1;
    }
    assert(v@ =~= shifted(v0, -d, 0));
}

/// Moves each of the four control points by `(dx, dy)`.
fn shift_control_points(a: &mut [(i32, i32); 4], dx: i32, dy: i32)
    requires
        shift_fits(old(a)@, dx as int, dy as int),
    ensures
        final(a)@ == shifted(old(a)@, dx as int, dy as int),
{
    let ghost a0 = a@;
    let mut k: usize = 0;
    while k < 4
        invariant
            a0.len() == 4,
            a@.len() == 4,
            k <= 4,
            shift_fits(a0, dx as int, dy as int),
            forall|j: int| 0 <= j < k ==> #[trigger] a@[j] == shifted(a0, dx as int, dy as int)[j],
            forall|j: int| k <= j < 4 ==> #[trigger] a@[j] == a0[j],
        decreases 4 - k,
    {
        let p = a[k];
        a[k] = (p.0 + dx, p.1 + dy);
        k = k + 1;
    }
    assert(a@ =~= shifted(a0, dx as int, dy as int));
}

/// Moves each of the four control points left by `d`.
fn shift_control_points_left(a: &mut [(i32, i32); 4], d: i32)
    requires
        shift_fits(old(a)@, -d, 0),
    ensures
        final(a)@ == shifted(old(a)@, -d, 0),
{
    let ghost a0 = a@;
    let mut k: usize = 0;
    while k < 4
        invariant
            a0.len() == 4,
            a@.len() == 4,
            k <= 4,
            shift_fits(a0, -d, 0),
            forall|j: int| 0 <= j < k ==> #[trigger] a@[j] == shifted(a0, -d, 0)[j],
            forall|j: int| k <= j < 4 ==> #[trigger] a@[j] == a0[j],
        decreases 4 - k,
    {
        let p = a[k];
        a[k] = (p.0 - d, p.1);
        k = k + 1;
    }
    assert(a@ =~= shifted(a0, -d, 0));
}

/// The content of a terrain segment.
pub struct TerrainView {
    pub pos: RectView,
    pub curve: Seq<(i32, i32)>,
    pub terrain_type: TerrainType,
    pub control_points: Seq<(i32, i32)>,
}

impl TerrainView {
    /// Moving the segment by `(dx, dy)` keeps every coordinate within `i32`.
    pub open spec fn camera_fits(self, dx: int, dy: int) -> bool {
        &&& i32::MIN <= self.pos.x + dx <= i32::MAX
        &&& i32::MIN <= self.pos.y + dy <= i32::MAX
        &&& shift_fits(self.curve, dx, dy)
        &&& shift_fits(self.control_points, dx, dy)
    }

    /// The segment moved by `(dx, dy)`; its box is clamped into the range of
    /// rectangles.
    pub open spec fn camera_moved(self, dx: int, dy: int) -> TerrainView {
        TerrainView {
            pos: RectView {
                x: clamp_position(self.pos.x + dx),
                y: clamp_position(self.pos.y + dy),
                ..self.pos
            },
            curve: shifted(self.curve, dx, dy),
            control_points: shifted(self.control_points, dx, dy),
            ..self
        }
    }

    /// Shifting the segment left by `d` keeps every coordinate within `i32`.
    pub open spec fn travel_fits(self, d: int) -> bool {
        &&& i32::MIN <= self.pos.x - d <= i32::MAX
        &&& shift_fits(self.curve, -d, 0)
        &&& shift_fits(self.control_points, -d, 0)
    }

    /// The segment shifted left by `d`.
    pub open spec fn traveled(self, d: int) -> TerrainView {
        TerrainView {
            pos: RectView { x: clamp_position(self.pos.x - d), ..self.pos },
            curve: shifted(self.curve, -d, 0),
            control_points: shifted(self.control_points, -d, 0),
            ..self
        }
    }
}

/// One stretch of ground: its bounding box, the ground height at each pixel
/// column (`curve`), its surface, and the four control points of the curve
/// it was drawn from.
pub struct TerrainSegment {
    pos: Rect,
    curve: Vec<(i32, i32)>,
    terrain_type: TerrainType,
    control_points: [(i32, i32); 4],
}

impl View for TerrainSegment {
    type V = TerrainView;

    closed spec fn view(&self) -> TerrainView {
        TerrainView {
            pos: self.pos@,
            curve: self.curve@,
            terrain_type: self.terrain_type,
            control_points: self.control_points@,
        }
    }
}

impl TerrainSegment {
    pub fn new(
        pos: Rect,
        curve: Vec<(i32, i32)>,
        terrain_type: TerrainType,
        control_points: [(i32, i32); 4],
    ) -> (t: TerrainSegment)
        ensures
            t@ == (TerrainView {
                pos: pos@,
                curve: curve@,
                terrain_type: terrain_type,
                control_points: control_points@,
            }),
    {
        TerrainSegment { pos, curve, terrain_type, control_points }
    }

    /// Moves the whole segment by `(x_adj, y_adj)` as the camera follows the
    /// ground: its box, every curve point and every control point.
    pub fn camera_adj(&mut self, x_adj: i32, y_adj: i32)
        requires
            old(self)@.camera_fits(x_adj as int, y_adj as int),
        ensures
            final(self)@ == old(self)@.camera_moved(x_adj as int, y_adj as int),
    {
        let x = self.pos.x();
        self.pos.set_x(x + x_adj);
        let y = self.pos.y();
        self.pos.set_y(y + y_adj);
        shift_points(&mut self.curve, x_adj, y_adj);
        shift_control_points(&mut self.control_points, x_adj, y_adj);
    }

    /// Shifts the segment left by `travel_adj` so the player seems to move
    /// forward: its box, every curve point and every control point.
    pub fn travel_update(&mut self, travel_adj: i32)
        requires
            old(self)@.travel_fits(travel_adj as int),
        ensures
            final(self)@ == old(self)@.traveled(travel_adj as int),
    {
        let x = self.pos.x();
        self.pos.set_x(x - travel_adj);
        shift_points_left(&mut self.curve, travel_adj);
        shift_control_points_left(&mut self.control_points, travel_adj);
    }

    pub fn x(&self) -> (r: i32)
        ensures
            r == self@.pos.x,
    {
        self.pos.x()
    }

    pub fn y(&self) -> (r: i32)
        ensures
            r == self@.pos.y,
    {
        self.pos.y()
    }

    pub fn w(&self) -> (r: i32)
        ensures
            r == self@.pos.w,
            self@.pos.wf(),
    {
        self.pos.width() as i32
    }

    pub fn h(&self) -> (r: i32)
        ensures
            r == self@.pos.h,
            self@.pos.wf(),
    {
        self.pos.height() as i32
    }

    pub fn pos(&self) -> (r: Rect)
        ensures
            r@ == self@.pos,
    {
        self.pos
    }

    pub fn get_type(&self) -> (r: &TerrainType)
        ensures
            *r == self@.terrain_type,
    {
        &self.terrain_type
    }

    pub fn curve(&self) -> (r: &Vec<(i32, i32)>)
        ensures
            r@ == self@.curve,
    {
        &self.curve
    }

    pub fn get_ctrl_points(&self) -> (r: [(i32, i32); 4])
        ensures
            r@ == self@.control_points,
    {
        self.control_points
    }
}

/// Two segments are equal when their bounding boxes are.
impl PartialEq for TerrainSegment {
    fn eq(&self, other: &Self) -> (r: bool) {
        let a = self.pos;
        let b = other.pos;
        a.x() == b.x() && a.y() == b.y() && a.width() == b.width() && a.height() == b.height()
    }
}

impl PartialEqSpecImpl for TerrainSegment {
    open spec fn obeys_eq_spec() -> bool {
        true
    }

    open spec fn eq_spec(&self, other: &Self) -> bool {
        self@.pos == other@.pos
    }
}

/// Generates the terrain.
pub struct ProceduralGen;

impl ProceduralGen {
    pub fn init() -> (r: Result<ProceduralGen, String>)
        ensures
            r is Ok,
    {
        Ok(ProceduralGen)
    }
}

/// The surface a terrain roll stands for: the three lowest rolls pick
/// asphalt, sand and water, every higher roll grass.
pub open spec fn terrain_for_roll(roll: int) -> TerrainType {
    if roll == 0 {
        TerrainType::Asphalt
    } else if roll == 1 {
        TerrainType::Sand
    } else if roll == 2 {
        TerrainType::Water
    } else {
        TerrainType::Grass
    }
}

/// The surface that a roll of the terrain die stands for.
pub fn terrain_type_for_roll(roll: i32) -> (t: TerrainType)
    ensures
        t == terrain_for_roll(roll as int),
{
    match roll {
        0 => TerrainType::Asphalt,
        1 => TerrainType::Sand,
        2 => TerrainType::Water,
        _ => TerrainType::Grass,
    }
}

/// The highest roll of the terrain die: `upper`, but at least 3.
pub open spec fn terrain_die_top(upper: int) -> int {
    if upper < 3 {
        3
    } else {
        upper
    }
}

/// Randomly chooses a surface by rolling a die over `[0, max(upper, 3)]`.
/// The higher `upper`, the more likely grass.
pub fn choose_terrain_type(upper: i32) -> (t: TerrainType)
    ensures
        exists|roll: int| 0 <= roll <= terrain_die_top(upper as int) && t == terrain_for_roll(roll),
{
    let top = if upper < 3 {
        3
    } else {
        upper
    };
    let roll = random_between(0, top);
    terrain_type_for_roll(roll)
}

/// The object a roll of the object die stands for.
pub open spec fn object_for_roll(roll: int) -> StaticObject {
    if roll == 0 {
        StaticObject::Statue
    } else if roll == 1 {
        StaticObject::Balloon
    } else if roll == 2 {
        StaticObject::Chest
    } else if roll == 3 {
        StaticObject::Coin
    } else if roll == 4 {
        StaticObject::Power
    } else {
        StaticObject::Bench
    }
}

/// The object that a roll of the object die stands for.
pub fn static_object_for_roll(roll: i32) -> (o: StaticObject)
    ensures
        o == object_for_roll(roll as int),
{
    match roll {
        0 => StaticObject::Statue,
        1 => StaticObject::Balloon,
        2 => StaticObject::Chest,
        3 => StaticObject::Coin,
        4 => StaticObject::Power,
        _ => StaticObject::Bench,
    }
}

/// Randomly chooses an object to place, each of the six kinds by one face of
/// a die over `[0, 5]`.
pub fn choose_static_object() -> (o: StaticObject)
    ensures
        exists|roll: int| 0 <= roll <= 5 && o == object_for_roll(roll),
{
    let roll = random_between(0, 5);
    static_object_for_roll(roll)
}

/// The power-up a roll of the power die stands for.
pub open spec fn power_for_roll(roll: int) -> PowerType {
    if roll == 0 {
        PowerType::SpeedBoost
    } else if roll == 1 {
        PowerType::ScoreMultiplier
    } else if roll == 2 {
        PowerType::BouncyShoes
    } else if roll == 3 {
        PowerType::LowerGravity
    } else {
        PowerType::Shield
    }
}

/// The power-up that a roll of the power die stands for.
pub fn power_type_for_roll(roll: i32) -> (p: PowerType)
    ensures
        p == power_for_roll(roll as int),
{
    match roll {
        0 => PowerType::SpeedBoost,
        1 => PowerType::ScoreMultiplier,
        2 => PowerType::BouncyShoes,
        3 => PowerType::LowerGravity,
        _ => PowerType::Shield,
    }
}

/// Randomly chooses a power-up, each of the five by one face of a die over
/// `[0, 4]`.
pub fn choose_power_up() -> (p: PowerType)
    ensures
        exists|roll: int| 0 <= roll <= 4 && p == power_for_roll(roll),
{
    let roll = random_between(0, 4);
    power_type_for_roll(roll)
}

} // verus!
