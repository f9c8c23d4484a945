use vstd::prelude::*;

use crate::fixed::{Fx, LIM};
use crate::vec3::Vec3;

verus! {

/// One triangular face: three corner positions and three corner normals,
/// with the edge vectors and the raw face normal cached by the loader.
#[derive(Clone, Debug)]
pub struct Polygon {
    pub points: Vec<Vec3>,
    pub normals: Vec<Vec3>,
    pub e1: Vec3,
    pub e2: Vec3,
    pub polygon_normal: Vec3,
}

impl Polygon {
    pub open spec fn wf(self) -> bool {
        &&& self.points@.len() == 3
        &&& self.normals@.len() == 3
        &&& forall|i: int| 0 <= i < 3 ==> self.points@[i].wf()
        &&& forall|i: int| 0 <= i < 3 ==> self.normals@[i].wf()
        &&& self.e1.wf()
        &&& self.e2.wf()
        &&& self.polygon_normal.wf()
    }

    /// A face from its three corners; the cached edges and face normal are
    /// derived from the corner positions.
    pub fn new(points: Vec<Vec3>, normals: Vec<Vec3>) -> (p: Polygon)
        requires
            points@.len() == 3,
            normals@.len() == 3,
            forall|i: int| 0 <= i < 3 ==> points@[i].wf(),
            forall|i: int| 0 <= i < 3 ==> normals@[i].wf(),
        ensures
            p.wf(),
            p.points == points,
            p.normals == normals,
            p.e1 == points@[1].s_sub(points@[0]),
            p.e2 == points@[2].s_sub(points@[0]),
            p.polygon_normal == points@[1].s_sub(points@[0]).s_cross(points@[2].s_sub(points@[0])),
    {
        let e1 = points[1].sub(points[0]);
        let e2 = points[2].sub(points[0]);
        let polygon_normal = e1.cross(e2);
        Polygon { points, normals, e1, e2, polygon_normal }
    }
}

/// An axis-aligned box, as the least and greatest corner coordinates.
#[derive(Clone, Copy, Debug, PartialEq, Eq, Structural)]
pub struct BoundingBox {
    pub min: Vec3,
    pub max: Vec3,
}

/// A triangulated mesh: a list of faces and the box that bounds them.
#[derive(Clone, Debug)]
pub struct Object {
    pub polygons: Vec<Polygon>,
    pub bounding_box: BoundingBox,
}

impl Object {
    pub open spec fn wf(self) -> bool {
        &&& forall|i: int| 0 <= i < self.polygons@.len() ==> self.polygons@[i].wf()
        &&& self.bounding_box.min.wf()
        &&& self.bounding_box.max.wf()
    }

    /// An empty mesh; the bounding box starts inverted, at the extreme
    /// representable coordinates, so any face added later tightens it.
    pub fn new() -> (o: Object)
        ensures
            o.wf(),
            o.polygons@.len() == 0,
    {
        Object {
            polygons: Vec::new(),
            bounding_box: BoundingBox {
                min: Vec3 { x: Fx { raw: LIM }, y: Fx { raw: LIM }, z: Fx { raw: LIM } },
                max: Vec3 { x: Fx { raw: -LIM }, y: Fx { raw: -LIM }, z: Fx { raw: -LIM } },
            },
        }
    }

    /// Append one face; the caller maintains the bounding box.
    pub fn push_polygon(&mut self, p: Polygon)
        requires
            old(self).wf(),
            p.wf(),
        ensures
            final(self).wf(),
            final(self).polygons@ == old(self).polygons@.push(p),
            final(self).bounding_box == old(self).bounding_box,
    {
        self.polygons.push(p);
    }
}

} // verus!
