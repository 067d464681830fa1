//! The layout of the desert town: the boundary walls, the fountain, the market,
//! the two terraces with their ramps, and the castle on its mound. Every length is
//! in millimetres; x runs east, y up, z south.
use vstd::prelude::*;

verus! {

/// A point or a size (mm).
#[derive(Clone, Copy, Debug, PartialEq, Eq, Structural)]
pub struct Point {
    pub x: i32,
    pub y: i32,
    pub z: i32,
}

/// The shape of a solid.
#[derive(Clone, Copy, Debug, PartialEq, Eq, Structural)]
pub enum Shape {
    /// A box with these edge lengths.
    Cuboid { size: Point },
    /// An upright cylinder.
    Cylinder { radius: i32, height: i32 },
}

/// The surface of a solid.
#[derive(Clone, Copy, Debug, PartialEq, Eq, Structural)]
pub enum Material {
    Sand,
    Water,
}

/// A static solid of the town: a mesh and a collider of the same shape.
#[derive(Clone, Copy, Debug, PartialEq, Eq, Structural)]
pub struct Solid {
    pub material: Material,
    pub center: Point,
    pub shape: Shape,
}

/// A building's footprint: position, width (x), height, depth (z).
#[derive(Clone, Copy, Debug, PartialEq, Eq, Structural)]
pub struct Lot {
    pub x: i32,
    pub z: i32,
    pub w: i32,
    pub h: i32,
    pub d: i32,
}

/// A ramp along the x axis from the end (x0, y0) to the end (x1, y1), at z, of a
/// width; the engine side makes a tilted slab of it.
#[derive(Clone, Copy, Debug, PartialEq, Eq, Structural)]
pub struct Ramp {
    pub x0: i32,
    pub y0: i32,
    pub x1: i32,
    pub y1: i32,
    pub z: i32,
    pub width: i32,
}

/// A raised terrace: its solids (platform, buildings, parapets) and its ramp.
pub struct Terrace {
    pub solids: Vec<Solid>,
    pub ramp: Ramp,
}

// ---------------------------------------------------------------------------
// Geometry
// ---------------------------------------------------------------------------

/// Vertical extent of a shape (mm).
pub open spec fn height(sh: Shape) -> int {
    match sh {
        Shape::Cuboid { size } => size.y as int,
        Shape::Cylinder { radius, height } => height as int,
    }
}

/// Height of a solid's bottom face (mm).
pub open spec fn bottom(s: Solid) -> int {
    s.center.y - height(s.shape) / 2
}

/// Height of a solid's top face (mm).
pub open spec fn top(s: Solid) -> int {
    s.center.y + height(s.shape) / 2
}

/// Half the extent of a solid along x (mm).
pub open spec fn half_x(s: Solid) -> int {
    match s.shape {
        Shape::Cuboid { size } => size.x / 2,
        Shape::Cylinder { radius, height } => radius as int,
    }
}

/// Half the extent of a solid along z (mm).
pub open spec fn half_z(s: Solid) -> int {
    match s.shape {
        Shape::Cuboid { size } => size.z / 2,
        Shape::Cylinder { radius, height } => radius as int,
    }
}

pub open spec fn pt(x: int, y: int, z: int) -> Point {
    Point { x: x as i32, y: y as i32, z: z as i32 }
}

pub open spec fn sand_box(c: Point, size: Point) -> Solid {
    Solid { material: Material::Sand, center: c, shape: Shape::Cuboid { size } }
}

pub open spec fn cylinder(m: Material, c: Point, radius: int, h: int) -> Solid {
    Solid { material: m, center: c, shape: Shape::Cylinder { radius: radius as i32, height: h as i32 } }
}

pub open spec fn lot(x: int, z: int, w: int, h: int, d: int) -> Lot {
    Lot { x: x as i32, z: z as i32, w: w as i32, h: h as i32, d: d as i32 }
}

/// A box of a material at a centre with a size.
pub fn box_at(material: Material, center: Point, size: Point) -> (s: Solid)
    ensures
        s == (Solid { material, center, shape: Shape::Cuboid { size } }),
{
    Solid { material, center, shape: Shape::Cuboid { size } }
}

/// An upright cylinder of a material at a centre.
pub fn cyl_at(material: Material, center: Point, radius: i32, height: i32) -> (s: Solid)
    ensures
        s == (Solid { material, center, shape: Shape::Cylinder { radius, height } }),
{
    Solid { material, center, shape: Shape::Cylinder { radius, height } }
}

/// A sand building on a lot, standing on a floor at `base_y`.
pub open spec fn building(base_y: int, l: Lot) -> Solid {
    sand_box(pt(l.x as int, base_y + l.h / 2, l.z as int), Point { x: l.w, y: l.h, z: l.d })
}

/// Whether every lot's height is a size (not negative) and its building's centre
/// fits the coordinate range on that floor.
pub open spec fn lots_fit(base_y: int, lots: Seq<Lot>) -> bool {
    forall|i: int|
        0 <= i < lots.len() ==> 0 <= #[trigger] lots[i].h && base_y + lots[i].h / 2 <= i32::MAX
}

/// The buildings of a row of lots on a floor, in the order of the lots.
pub fn buildings_on(base_y: i32, lots: &Vec<Lot>) -> (v: Vec<Solid>)
    requires
        lots_fit(base_y as int, lots@),
    ensures
        v@ == lots@.map_values(|l: Lot| building(base_y as int, l)),
{
    let mut v: Vec<Solid> = Vec::new();
    for i in 0..lots.len()
        invariant
            lots_fit(base_y as int, lots@),
            v@ == lots@.take(i as int).map_values(|l: Lot| building(base_y as int, l)),
    {
        let l = lots[i];
        assert(0 <= l.h && base_y + l.h / 2 <= i32::MAX);
        let y: i32 = base_y + l.h / 2;
        v.push(box_at(Material::Sand, Point { x: l.x, y, z: l.z }, Point { x: l.w, y: l.h, z: l.d }));
        assert(lots@.take(i + 1) =~= lots@.take(i as int).push(l));
        assert(v@ =~= lots@.take(i + 1).map_values(|l: Lot| building(base_y as int, l)));
    }
    assert(lots@.take(lots.len() as int) =~= lots@);
    v
}

// ---------------------------------------------------------------------------
// Walls and fountain
// ---------------------------------------------------------------------------

/// The boundary walls, north, south, east and west, around the 200 m ground.
pub open spec fn walls_spec() -> Seq<Solid> {
    seq![
        sand_box(pt(0, 3000, -101000), pt(202000, 6000, 2000)),
        sand_box(pt(0, 3000, 101000), pt(202000, 6000, 2000)),
        sand_box(pt(101000, 3000, 0), pt(2000, 6000, 202000)),
        sand_box(pt(-101000, 3000, 0), pt(2000, 6000, 202000)),
    ]
}

/// The boundary walls, north, south, east and west.
pub fn walls() -> (v: Vec<Solid>)
    ensures
        v@ == walls_spec(),
{
    let mut v: Vec<Solid> = Vec::new();
    v.push(box_at(Material::Sand, Point { x: 0, y: 3000, z: -101000 }, Point { x: 202000, y: 6000, z: 2000 }));
    v.push(box_at(Material::Sand, Point { x: 0, y: 3000, z: 101000 }, Point { x: 202000, y: 6000, z: 2000 }));
    v.push(box_at(Material::Sand, Point { x: 101000, y: 3000, z: 0 }, Point { x: 2000, y: 6000, z: 202000 }));
    v.push(box_at(Material::Sand, Point { x: -101000, y: 3000, z: 0 }, Point { x: 2000, y: 6000, z: 202000 }));
    assert(v@ =~= walls_spec());
    v
}

/// The fountain in the middle of the market: base, shaft, basin rim, water.
pub open spec fn fountain_spec() -> Seq<Solid> {
    seq![
        cylinder(Material::Sand, pt(0, 500, 0), 2500, 1000),
        cylinder(Material::Sand, pt(0, 2250, 0), 400, 2500),
        cylinder(Material::Sand, pt(0, 3750, 0), 2000, 500),
        cylinder(Material::Water, pt(0, 3850, 0), 1600, 150),
    ]
}

/// The fountain: base, shaft, basin rim, water.
pub fn fountain() -> (v: Vec<Solid>)
    ensures
        v@ == fountain_spec(),
{
    let mut v: Vec<Solid> = Vec::new();
    v.push(cyl_at(Material::Sand, Point { x: 0, y: 500, z: 0 }, 2500, 1000));
    v.push(cyl_at(Material::Sand, Point { x: 0, y: 2250, z: 0 }, 400, 2500));
    v.push(cyl_at(Material::Sand, Point { x: 0, y: 3750, z: 0 }, 2000, 500));
    v.push(cyl_at(Material::Water, Point { x: 0, y: 3850, z: 0 }, 1600, 150));
    assert(v@ =~= fountain_spec());
    v
}

// ---------------------------------------------------------------------------
// Market
// ---------------------------------------------------------------------------

/// The market lots around the fountain: an inner ring, an outer ring, two stalls.
pub open spec fn market_lots_spec() -> Seq<Lot> {
    seq![
        lot(13000, 0, 5000, 4000, 5000),
        lot(-13000, 0, 5000, 4000, 5000),
        lot(0, 13000, 5000, 4000, 5000),
        lot(0, -14000, 5000, 5000, 5000),
        lot(9000, 9000, 4000, 3500, 4000),
        lot(-9000, 9000, 4000, 3500, 4000),
        lot(9000, -9000, 4000, 5000, 4000),
        lot(-9000, -9000, 4000, 5000, 4000),
        lot(22000, 0, 5000, 3500, 6000),
        lot(-22000, 0, 5000, 3500, 6000),
        lot(0, 22000, 6000, 3500, 5000),
        lot(0, -23000, 6000, 4000, 5000),
        lot(17000, 5000, 1500, 2500, 8000),
        lot(-17000, -5000, 1500, 2500, 8000),
    ]
}

fn mk_lot(x: i32, z: i32, w: i32, h: i32, d: i32) -> (l: Lot)
    ensures
        l == (Lot { x, z, w, h, d }),
{
    Lot { x, z, w, h, d }
}

/// The market lots around the fountain.
pub fn market_lots() -> (v: Vec<Lot>)
    ensures
        v@ == market_lots_spec(),
{
    let mut v: Vec<Lot> = Vec::new();
    v.push(mk_lot(13000, 0, 5000, 4000, 5000));
    v.push(mk_lot(-13000, 0, 5000, 4000, 5000));
    v.push(mk_lot(0, 13000, 5000, 4000, 5000));
    v.push(mk_lot(0, -14000, 5000, 5000, 5000));
    v.push(mk_lot(9000, 9000, 4000, 3500, 4000));
    v.push(mk_lot(-9000, 9000, 4000, 3500, 4000));
    v.push(mk_lot(9000, -9000, 4000, 5000, 4000));
    v.push(mk_lot(-9000, -9000, 4000, 5000, 4000));
    v.push(mk_lot(22000, 0, 5000, 3500, 6000));
    v.push(mk_lot(-22000, 0, 5000, 3500, 6000));
    v.push(mk_lot(0, 22000, 6000, 3500, 5000));
    v.push(mk_lot(0, -23000, 6000, 4000, 5000));
    v.push(mk_lot(17000, 5000, 1500, 2500, 8000));
    v.push(mk_lot(-17000, -5000, 1500, 2500, 8000));
    assert(v@ =~= market_lots_spec());
    v
}

/// The market buildings, standing on the ground.
pub open spec fn market_spec() -> Seq<Solid> {
    market_lots_spec().map_values(|l: Lot| building(0, l))
}

/// The market buildings, standing on the ground.
pub fn market() -> (v: Vec<Solid>)
    ensures
        v@ == market_spec(),
{
    let lots = market_lots();
    buildings_on(0, &lots)
}


// ---------------------------------------------------------------------------
// Terraces
// ---------------------------------------------------------------------------

/// The residential lots on the east terrace.
pub open spec fn east_lots_spec() -> Seq<Lot> {
    seq![
        lot(50000, 8000, 6000, 4000, 5000),
        lot(58000, -8000, 5000, 5000, 5000),
        lot(66000, 0, 5000, 4000, 6000),
        lot(72000, 7000, 4000, 3500, 4000),
        lot(72000, -7000, 4000, 3500, 4000),
        lot(50000, -8000, 5000, 4000, 5000),
    ]
}

/// The residential lots on the west terrace.
pub open spec fn west_lots_spec() -> Seq<Lot> {
    seq![
        lot(-50000, 8000, 6000, 4000, 5000),
        lot(-58000, -8000, 5000, 5000, 5000),
        lot(-66000, 0, 5000, 4000, 6000),
        lot(-72000, 7000, 4000, 3500, 4000),
        lot(-72000, -7000, 4000, 3500, 4000),
        lot(-50000, -8000, 5000, 4000, 5000),
    ]
}

/// Height of the terraces' floor: the top of their platforms (mm).
pub const TERRACE_FLOOR_MM: i32 = 5000;

/// The east terrace: platform, residential buildings on it, parapets on its north,
/// south and east edges.
pub open spec fn east_solids_spec() -> Seq<Solid> {
    seq![sand_box(pt(62000, 4500, 0), pt(36000, 1000, 26000))]
        + east_lots_spec().map_values(|l: Lot| building(TERRACE_FLOOR_MM as int, l))
        + seq![
        sand_box(pt(62000, 5600, 13000), pt(36000, 1200, 500)),
        sand_box(pt(62000, 5600, -13000), pt(36000, 1200, 500)),
        sand_box(pt(80000, 5600, 0), pt(500, 1200, 26000)),
    ]
}

/// The west terrace: platform, residential buildings on it, parapets on its north,
/// south and west edges.
pub open spec fn west_solids_spec() -> Seq<Solid> {
    seq![sand_box(pt(-62000, 4500, 0), pt(36000, 1000, 26000))]
        + west_lots_spec().map_values(|l: Lot| building(TERRACE_FLOOR_MM as int, l))
        + seq![
        sand_box(pt(-62000, 5600, 13000), pt(36000, 1200, 500)),
        sand_box(pt(-62000, 5600, -13000), pt(36000, 1200, 500)),
        sand_box(pt(-80000, 5600, 0), pt(500, 1200, 26000)),
    ]
}

/// The east ramp, from the market floor up to the east platform.
pub open spec fn east_ramp_spec() -> Ramp {
    Ramp { x0: 30000, y0: 0, x1: 44000, y1: 5000, z: 0, width: 4000 }
}

/// The west ramp, from the west platform down to the market floor.
pub open spec fn west_ramp_spec() -> Ramp {
    Ramp { x0: -44000i32, y0: 5000, x1: -30000i32, y1: 0, z: 0, width: 4000 }
}

fn terrace_solids(platform: Solid, lots: Vec<Lot>, parapets: Vec<Solid>) -> (v: Vec<Solid>)
    requires
        lots_fit(TERRACE_FLOOR_MM as int, lots@),
    ensures
        v@ == seq![platform] + lots@.map_values(|l: Lot| building(TERRACE_FLOOR_MM as int, l))
            + parapets@,
{
    let mut v: Vec<Solid> = Vec::new();
    v.push(platform);
    let mut houses = buildings_on(TERRACE_FLOOR_MM, &lots);
    v.append(&mut houses);
    let mut edges = parapets;
    v.append(&mut edges);
    v
}

/// The east terrace with its ramp.
pub fn east_terrace() -> (t: Terrace)
    ensures
        t.solids@ == east_solids_spec(),
        t.ramp == east_ramp_spec(),
{
    let mut lots: Vec<Lot> = Vec::new();
    lots.push(mk_lot(50000, 8000, 6000, 4000, 5000));
    lots.push(mk_lot(58000, -8000, 5000, 5000, 5000));
    lots.push(mk_lot(66000, 0, 5000, 4000, 6000));
    lots.push(mk_lot(72000, 7000, 4000, 3500, 4000));
    lots.push(mk_lot(72000, -7000, 4000, 3500, 4000));
    lots.push(mk_lot(50000, -8000, 5000, 4000, 5000));
    assert(lots@ =~= east_lots_spec());
    let mut parapets: Vec<Solid> = Vec::new();
    parapets.push(box_at(Material::Sand, Point { x: 62000, y: 5600, z: 13000 }, Point { x: 36000, y: 1200, z: 500 }));
    parapets.push(box_at(Material::Sand, Point { x: 62000, y: 5600, z: -13000 }, Point { x: 36000, y: 1200, z: 500 }));
    parapets.push(box_at(Material::Sand, Point { x: 80000, y: 5600, z: 0 }, Point { x: 500, y: 1200, z: 26000 }));
    let platform = box_at(Material::Sand, Point { x: 62000, y: 4500, z: 0 }, Point { x: 36000, y: 1000, z: 26000 });
    let solids = terrace_solids(platform, lots, parapets);
    assert(solids@ =~= east_solids_spec());
    Terrace { solids, ramp: Ramp { x0: 30000, y0: 0, x1: 44000, y1: 5000, z: 0, width: 4000 } }
}

/// The west terrace with its ramp.
pub fn west_terrace() -> (t: Terrace)
    ensures
        t.solids@ == west_solids_spec(),
        t.ramp == west_ramp_spec(),
{
    let mut lots: Vec<Lot> = Vec::new();
    lots.push(mk_lot(-50000, 8000, 6000, 4000, 5000));
    lots.push(mk_lot(-58000, -8000, 5000, 5000, 5000));
    lots.push(mk_lot(-66000, 0, 5000, 4000, 6000));
    lots.push(mk_lot(-72000, 7000, 4000, 3500, 4000));
    lots.push(mk_lot(-72000, -7000, 4000, 3500, 4000));
    lots.push(mk_lot(-50000, -8000, 5000, 4000, 5000));
    assert(lots@ =~= west_lots_spec());
    let mut parapets: Vec<Solid> = Vec::new();
    parapets.push(box_at(Material::Sand, Point { x: -62000, y: 5600, z: 13000 }, Point { x: 36000, y: 1200, z: 500 }));
    parapets.push(box_at(Material::Sand, Point { x: -62000, y: 5600, z: -13000 }, Point { x: 36000, y: 1200, z: 500 }));
    parapets.push(box_at(Material::Sand, Point { x: -80000, y: 5600, z: 0 }, Point { x: 500, y: 1200, z: 26000 }));
    let platform = box_at(Material::Sand, Point { x: -62000, y: 4500, z: 0 }, Point { x: 36000, y: 1000, z: 26000 });
    let solids = terrace_solids(platform, lots, parapets);
    assert(solids@ =~= west_solids_spec());
    Terrace { solids, ramp: Ramp { x0: -44000, y0: 5000, x1: -30000, y1: 0, z: 0, width: 4000 } }
}

// ---------------------------------------------------------------------------
// Castle
// ---------------------------------------------------------------------------

/// Where the castle stands (x, mm).
pub const CASTLE_X_MM: i32 = 0;
/// Where the castle stands (z, mm): north of the market.
pub const CASTLE_Z_MM: i32 = -72000;

/// The castle: a mound of four stacked cylinders, a platform on it, the keep, the
/// chapel wing with its apse, and four corner towers.
pub open spec fn castle_spec() -> Seq<Solid> {
    let cx: int = CASTLE_X_MM as int;
    let cz: int = CASTLE_Z_MM as int;
    seq![
        cylinder(Material::Sand, pt(cx, 3000, cz), 19000, 6000),
        cylinder(Material::Sand, pt(cx, 9000, cz), 14000, 6000),
        cylinder(Material::Sand, pt(cx, 15000, cz), 9000, 6000),
        cylinder(Material::Sand, pt(cx, 19500, cz), 6000, 3000),
        sand_box(pt(cx, 21300, cz), pt(14000, 600, 14000)),
        sand_box(pt(cx, 28600, cz), pt(10000, 14000, 10000)),
        sand_box(pt(cx, 25600, cz + 9000), pt(6000, 8000, 8000)),
        cylinder(Material::Sand, pt(cx, 24600, cz + 14000), 3000, 6000),
        cylinder(Material::Sand, pt(cx + 5000, 32600, cz - 5000), 1500, 22000),
        cylinder(Material::Sand, pt(cx - 5000, 32600, cz - 5000), 1500, 22000),
        cylinder(Material::Sand, pt(cx + 5000, 32600, cz + 5000), 1500, 22000),
        cylinder(Material::Sand, pt(cx - 5000, 32600, cz + 5000), 1500, 22000),
    ]
}

/// The castle on its mound.
pub fn castle() -> (v: Vec<Solid>)
    ensures
        v@ == castle_spec(),
{
    let cx: i32 = CASTLE_X_MM;
    let cz: i32 = CASTLE_Z_MM;
    let mut v: Vec<Solid> = Vec::new();
    // mound: four stacked cylinders tapering upward
    v.push(cyl_at(Material::Sand, Point { x: cx, y: 3000, z: cz }, 19000, 6000));
    v.push(cyl_at(Material::Sand, Point { x: cx, y: 9000, z: cz }, 14000, 6000));
    v.push(cyl_at(Material::Sand, Point { x: cx, y: 15000, z: cz }, 9000, 6000));
    v.push(cyl_at(Material::Sand, Point { x: cx, y: 19500, z: cz }, 6000, 3000));
    // platform on the mound
    v.push(box_at(Material::Sand, Point { x: cx, y: 21300, z: cz }, Point { x: 14000, y: 600, z: 14000 }));
    // keep
    v.push(box_at(Material::Sand, Point { x: cx, y: 28600, z: cz }, Point { x: 10000, y: 14000, z: 10000 }));
    // chapel wing on the keep's south face, and its apse
    v.push(box_at(Material::Sand, Point { x: cx, y: 25600, z: cz + 9000 }, Point { x: 6000, y: 8000, z: 8000 }));
    v.push(cyl_at(Material::Sand, Point { x: cx, y: 24600, z: cz + 14000 }, 3000, 6000));
    // corner towers
    let mut corners: Vec<(i32, i32)> = Vec::new();
    corners.push((5000, -5000));
    corners.push((-5000, -5000));
    corners.push((5000, 5000));
    corners.push((-5000, 5000));
    assert(v@ =~= castle_spec().take(8));
    for k in 0..corners.len()
        invariant
            cx == CASTLE_X_MM,
            cz == CASTLE_Z_MM,
            corners@ == seq![(5000i32, -5000i32), (-5000i32, -5000i32), (5000i32, 5000i32), (-5000i32, 5000i32)],
            v@ =~= castle_spec().take(8 + k),
    {
        let (tx, tz) = corners[k];
        v.push(cyl_at(Material::Sand, Point { x: cx + tx, y: 32600, z: cz + tz }, 1500, 22000));
        assert(v@ =~= castle_spec().take(8 + k + 1));
    }
    assert(castle_spec().take(12) =~= castle_spec());
    v
}


// ---------------------------------------------------------------------------
// Laws of the layout
// ---------------------------------------------------------------------------

/// The walls stand on the ground, and their inner faces are the edges of the
/// 200 m square ground: north at z = -100 m, south at z = 100 m, east at x = 100 m,
/// west at x = -100 m; each wall spans the whole side.
pub proof fn lemma_walls_enclose_ground()
    ensures
        walls_spec().len() == 4,
        forall|i: int| 0 <= i < 4 ==> bottom(#[trigger] walls_spec()[i]) == 0,
        walls_spec()[0].center.z + half_z(walls_spec()[0]) == -100000,
        walls_spec()[1].center.z - half_z(walls_spec()[1]) == 100000,
        walls_spec()[2].center.x - half_x(walls_spec()[2]) == 100000,
        walls_spec()[3].center.x + half_x(walls_spec()[3]) == -100000,
        half_x(walls_spec()[0]) >= 100000 && half_x(walls_spec()[1]) >= 100000,
        half_z(walls_spec()[2]) >= 100000 && half_z(walls_spec()[3]) >= 100000,
{
    let w = walls_spec();
    assert(bottom(w[0]) == 0 && bottom(w[1]) == 0 && bottom(w[2]) == 0 && bottom(w[3]) == 0);
}

/// The fountain is stacked: the base on the ground, the shaft on the base, the
/// basin rim on the shaft; the water lies inside the rim.
pub proof fn lemma_fountain_stacked()
    ensures
        fountain_spec().len() == 4,
        bottom(fountain_spec()[0]) == 0,
        top(fountain_spec()[0]) == bottom(fountain_spec()[1]),
        top(fountain_spec()[1]) == bottom(fountain_spec()[2]),
        fountain_spec()[3].material == Material::Water,
        half_x(fountain_spec()[3]) < half_x(fountain_spec()[2]),
        bottom(fountain_spec()[2]) <= bottom(fountain_spec()[3]),
        top(fountain_spec()[3]) <= top(fountain_spec()[2]),
{
}

/// Every market building stands on the ground.
pub proof fn lemma_market_on_ground()
    ensures
        market_spec().len() == 14,
        forall|i: int| 0 <= i < market_spec().len() ==> bottom(#[trigger] market_spec()[i]) == 0,
{
    assert forall|i: int| 0 <= i < market_spec().len() implies bottom(#[trigger] market_spec()[i]) == 0 by {
        let l = market_lots_spec()[i];
        assert(market_spec()[i] == building(0, l));
    }
}

/// Whether the footprints (x-z rectangles) of two solids are apart (they may touch).
pub open spec fn footprints_apart(a: Solid, b: Solid) -> bool {
    ||| a.center.x + half_x(a) <= b.center.x - half_x(b)
    ||| b.center.x + half_x(b) <= a.center.x - half_x(a)
    ||| a.center.z + half_z(a) <= b.center.z - half_z(b)
    ||| b.center.z + half_z(b) <= a.center.z - half_z(a)
}

/// The market is built around the fountain: no market building stands on the
/// fountain's base, no two market buildings overlap, and all lie inside the walls.
pub proof fn lemma_market_around_fountain()
    ensures
        forall|i: int|
            0 <= i < market_spec().len() ==> footprints_apart(
                #[trigger] market_spec()[i],
                fountain_spec()[0],
            ),
        forall|i: int, j: int|
            0 <= i < j < market_spec().len() ==> footprints_apart(
                #[trigger] market_spec()[i],
                #[trigger] market_spec()[j],
            ),
        forall|i: int|
            0 <= i < market_spec().len() ==> {
                let b = #[trigger] market_spec()[i];
                &&& -100000 <= b.center.x - half_x(b)
                &&& b.center.x + half_x(b) <= 100000
                &&& -100000 <= b.center.z - half_z(b)
                &&& b.center.z + half_z(b) <= 100000
            },
{
    let m = market_spec();
    let l = market_lots_spec();
    assert(m.len() == 14);
    assert(m[0] == building(0, l[0]));
    assert(m[1] == building(0, l[1]));
    assert(m[2] == building(0, l[2]));
    assert(m[3] == building(0, l[3]));
    assert(m[4] == building(0, l[4]));
    assert(m[5] == building(0, l[5]));
    assert(m[6] == building(0, l[6]));
    assert(m[7] == building(0, l[7]));
    assert(m[8] == building(0, l[8]));
    assert(m[9] == building(0, l[9]));
    assert(m[10] == building(0, l[10]));
    assert(m[11] == building(0, l[11]));
    assert(m[12] == building(0, l[12]));
    assert(m[13] == building(0, l[13]));
}

/// The east terrace: its platform's top surface is at 5 m and spans x 44..80 m and
/// z -13..13 m; every building stands on the platform, inside its edges; the
/// parapets stand on it along the north, south and east edges; the ramp climbs from
/// the market floor at x = 30 m to the platform's west edge at its top.
pub proof fn lemma_east_terrace()
    ensures
        east_solids_spec().len() == 10,
        top(east_solids_spec()[0]) == TERRACE_FLOOR_MM,
        east_solids_spec()[0].center.x - half_x(east_solids_spec()[0]) == 44000,
        east_solids_spec()[0].center.x + half_x(east_solids_spec()[0]) == 80000,
        east_solids_spec()[0].center.z - half_z(east_solids_spec()[0]) == -13000,
        east_solids_spec()[0].center.z + half_z(east_solids_spec()[0]) == 13000,
        forall|i: int| 1 <= i < 10 ==> bottom(#[trigger] east_solids_spec()[i]) == TERRACE_FLOOR_MM,
        forall|i: int|
            1 <= i < 7 ==> {
                let b = #[trigger] east_solids_spec()[i];
                &&& 44000 <= b.center.x - half_x(b)
                &&& b.center.x + half_x(b) <= 80000
                &&& -13000 <= b.center.z - half_z(b)
                &&& b.center.z + half_z(b) <= 13000
            },
        east_solids_spec()[7].center.z == 13000,
        east_solids_spec()[8].center.z == -13000,
        east_solids_spec()[9].center.x == 80000,
        east_ramp_spec().y0 == 0 && east_ramp_spec().x0 == 30000,
        east_ramp_spec().x1 == east_solids_spec()[0].center.x - half_x(east_solids_spec()[0]),
        east_ramp_spec().y1 == top(east_solids_spec()[0]),
{
    let t = east_solids_spec();
    let b = east_lots_spec().map_values(|l: Lot| building(TERRACE_FLOOR_MM as int, l));
    assert(t.len() == 10);
    assert forall|i: int| 1 <= i < 7 implies t[i] == building(TERRACE_FLOOR_MM as int, east_lots_spec()[i - 1]) by {
        assert(t[i] == b[i - 1]);
    }
    assert(t[1] == building(TERRACE_FLOOR_MM as int, east_lots_spec()[0]));
    assert(t[2] == building(TERRACE_FLOOR_MM as int, east_lots_spec()[1]));
    assert(t[3] == building(TERRACE_FLOOR_MM as int, east_lots_spec()[2]));
    assert(t[4] == building(TERRACE_FLOOR_MM as int, east_lots_spec()[3]));
    assert(t[5] == building(TERRACE_FLOOR_MM as int, east_lots_spec()[4]));
    assert(t[6] == building(TERRACE_FLOOR_MM as int, east_lots_spec()[5]));
    assert(t[7] == sand_box(pt(62000, 5600, 13000), pt(36000, 1200, 500)));
    assert(t[8] == sand_box(pt(62000, 5600, -13000), pt(36000, 1200, 500)));
    assert(t[9] == sand_box(pt(80000, 5600, 0), pt(500, 1200, 26000)));
}

/// A solid reflected across the plane x = 0.
pub open spec fn mirror(s: Solid) -> Solid {
    Solid { center: Point { x: (-s.center.x) as i32, ..s.center }, ..s }
}

/// A ramp reflected across the plane x = 0 (its ends change places).
pub open spec fn mirror_ramp(r: Ramp) -> Ramp {
    Ramp { x0: (-r.x1) as i32, y0: r.y1, x1: (-r.x0) as i32, y1: r.y0, z: r.z, width: r.width }
}

/// The west terrace is the mirror image of the east terrace across x = 0, ramp
/// included.
pub proof fn lemma_west_mirrors_east()
    ensures
        west_solids_spec() == east_solids_spec().map_values(|s: Solid| mirror(s)),
        west_ramp_spec() == mirror_ramp(east_ramp_spec()),
{
    let e = east_solids_spec();
    let w = west_solids_spec();
    let m = e.map_values(|s: Solid| mirror(s));
    let eb = east_lots_spec().map_values(|l: Lot| building(TERRACE_FLOOR_MM as int, l));
    let wb = west_lots_spec().map_values(|l: Lot| building(TERRACE_FLOOR_MM as int, l));
    assert(w.len() == m.len());
    assert forall|i: int| 0 <= i < w.len() implies w[i] == m[i] by {
        if 1 <= i < 7 {
            assert(e[i] == eb[i - 1]);
            assert(w[i] == wb[i - 1]);
        }
    }
    assert(w =~= m);
}

/// The castle: the mound's four cylinders stand on each other from the ground,
/// each narrower than the one below, with tops at 6, 12, 18 and 21 m; the platform
/// lies on the mound with its top at 21.6 m; the keep, chapel, apse and towers all
/// stand on the platform; the keep reaches 35.6 m and the towers, at the keep's four
/// corners, 43.6 m; the chapel adjoins the keep's south face.
pub proof fn lemma_castle_layout()
    ensures
        castle_spec().len() == 12,
        bottom(castle_spec()[0]) == 0,
        forall|i: int| 0 <= i < 3 ==> top(#[trigger] castle_spec()[i]) == bottom(castle_spec()[i + 1])
            && half_x(castle_spec()[i + 1]) < half_x(castle_spec()[i]),
        top(castle_spec()[0]) == 6000 && top(castle_spec()[1]) == 12000,
        top(castle_spec()[2]) == 18000 && top(castle_spec()[3]) == 21000,
        bottom(castle_spec()[4]) == top(castle_spec()[3]),
        top(castle_spec()[4]) == 21600,
        forall|i: int| 5 <= i < 12 ==> bottom(#[trigger] castle_spec()[i]) == top(castle_spec()[4]),
        top(castle_spec()[5]) == 35600,
        forall|i: int| 8 <= i < 12 ==> top(#[trigger] castle_spec()[i]) == 43600,
        castle_spec()[6].center.z - half_z(castle_spec()[6])
            == castle_spec()[5].center.z + half_z(castle_spec()[5]),
        forall|i: int|
            8 <= i < 12 ==> {
                let t = #[trigger] castle_spec()[i];
                let k = castle_spec()[5];
                &&& (t.center.x - k.center.x == half_x(k) || k.center.x - t.center.x == half_x(k))
                &&& (t.center.z - k.center.z == half_z(k) || k.center.z - t.center.z == half_z(k))
            },
{
    let c = castle_spec();
    assert(top(c[0]) == bottom(c[1]) && top(c[1]) == bottom(c[2]) && top(c[2]) == bottom(c[3]));
    assert(bottom(c[5]) == 21600 && bottom(c[6]) == 21600 && bottom(c[7]) == 21600);
    assert(bottom(c[8]) == 21600 && bottom(c[9]) == 21600 && bottom(c[10]) == 21600 && bottom(c[11]) == 21600);
    assert(top(c[8]) == 43600 && top(c[9]) == 43600 && top(c[10]) == 43600 && top(c[11]) == 43600);
}

} // verus!
