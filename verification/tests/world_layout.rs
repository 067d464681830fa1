use oasis_walk::world::{
    box_at, castle, cyl_at, east_terrace, fountain, market, market_lots, walls, west_terrace,
    Material, Point, Ramp, Shape, Solid,
};

fn height(s: &Solid) -> i32 {
    match s.shape {
        Shape::Cuboid { size } => size.y,
        Shape::Cylinder { height, .. } => height,
    }
}

fn bottom(s: &Solid) -> i32 {
    s.center.y - height(s) / 2
}

fn top(s: &Solid) -> i32 {
    s.center.y + height(s) / 2
}

#[test]
fn constructors() {
    let p = Point { x: 1, y: 2, z: 3 };
    let b = box_at(Material::Sand, p, Point { x: 4, y: 5, z: 6 });
    assert_eq!(b.shape, Shape::Cuboid { size: Point { x: 4, y: 5, z: 6 } });
    let c = cyl_at(Material::Water, p, 7, 8);
    assert_eq!(c, Solid { material: Material::Water, center: p, shape: Shape::Cylinder { radius: 7, height: 8 } });
}

#[test]
fn walls_surround_ground() {
    let w = walls();
    assert_eq!(w.len(), 4);
    for s in &w {
        assert_eq!(bottom(s), 0);
        assert_eq!(top(s), 6000);
    }
    assert_eq!(w[0].center, Point { x: 0, y: 3000, z: -101000 });
    assert_eq!(w[3].shape, Shape::Cuboid { size: Point { x: 2000, y: 6000, z: 202000 } });
}

#[test]
fn fountain_stack() {
    let f = fountain();
    assert_eq!(f.len(), 4);
    assert_eq!(bottom(&f[0]), 0);
    assert_eq!(top(&f[0]), bottom(&f[1]));
    assert_eq!(top(&f[1]), bottom(&f[2]));
    assert_eq!(f[3].material, Material::Water);
    assert_eq!(bottom(&f[3]), 3775);
    assert_eq!(top(&f[3]), 3925);
}

#[test]
fn market_buildings() {
    let lots = market_lots();
    let m = market();
    assert_eq!(m.len(), 14);
    for (s, l) in m.iter().zip(lots.iter()) {
        assert_eq!(bottom(s), 0);
        assert_eq!(s.center.x, l.x);
        assert_eq!(s.center.z, l.z);
        assert_eq!(s.shape, Shape::Cuboid { size: Point { x: l.w, y: l.h, z: l.d } });
    }
    assert_eq!(m[4].center, Point { x: 9000, y: 1750, z: 9000 });
}

#[test]
fn east_terrace_layout() {
    let t = east_terrace();
    assert_eq!(t.solids.len(), 10);
    assert_eq!(top(&t.solids[0]), 5000);
    for s in &t.solids[1..] {
        assert_eq!(bottom(s), 5000);
    }
    assert_eq!(t.ramp, Ramp { x0: 30000, y0: 0, x1: 44000, y1: 5000, z: 0, width: 4000 });
    assert_eq!(t.solids[1].center, Point { x: 50000, y: 7000, z: 8000 });
}

#[test]
fn west_terrace_is_mirrored() {
    let e = east_terrace();
    let w = west_terrace();
    assert_eq!(e.solids.len(), w.solids.len());
    for (a, b) in e.solids.iter().zip(w.solids.iter()) {
        assert_eq!(b.center.x, -a.center.x);
        assert_eq!(b.center.y, a.center.y);
        assert_eq!(b.center.z, a.center.z);
        assert_eq!(b.shape, a.shape);
    }
    assert_eq!(w.ramp.x0, -e.ramp.x1);
    assert_eq!(w.ramp.y0, e.ramp.y1);
    assert_eq!(w.ramp.x1, -e.ramp.x0);
    assert_eq!(w.ramp.y1, e.ramp.y0);
}

#[test]
fn castle_levels() {
    let c = castle();
    assert_eq!(c.len(), 12);
    let tops: Vec<i32> = c[..4].iter().map(top).collect();
    assert_eq!(tops, vec![6000, 12000, 18000, 21000]);
    assert_eq!(bottom(&c[4]), 21000);
    assert_eq!(top(&c[4]), 21600);
    for s in &c[5..] {
        assert_eq!(bottom(s), 21600);
    }
    assert_eq!(top(&c[5]), 35600);
    for s in &c[8..] {
        assert_eq!(top(s), 43600);
    }
    assert_eq!(c[8].center, Point { x: 5000, y: 32600, z: -77000 });
    assert_eq!(c[11].center, Point { x: -5000, y: 32600, z: -67000 });
}
