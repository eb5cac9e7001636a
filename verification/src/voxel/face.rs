//! The six faces of a cell and sets of them.

use crate::types::{Offset2d, Offset3d};
use vstd::prelude::*;

verus! {

/// One of the six faces of a cell, named after the axis direction it looks in.
#[derive(Clone, Copy, Debug, PartialEq, Eq)]
pub enum Face {
    PosX,
    NegX,
    PosY,
    NegY,
    PosZ,
    NegZ,
}

/// The cross product of two vectors.
pub open spec fn cross(a: Offset3d<int>, b: Offset3d<int>) -> Offset3d<int> {
    Offset3d { x: a.y * b.z - a.z * b.y, y: a.z * b.x - a.x * b.z, z: a.x * b.y - a.y * b.x }
}

/// The inner product of two vectors.
pub open spec fn dot(a: Offset3d<int>, b: Offset3d<int>) -> int {
    a.x * b.x + a.y * b.y + a.z * b.z
}

/// The vector from `b` to `a`.
pub open spec fn minus(a: Offset3d<int>, b: Offset3d<int>) -> Offset3d<int> {
    Offset3d { x: a.x - b.x, y: a.y - b.y, z: a.z - b.z }
}

/// The vector `factor` times as long.
pub open spec fn scaled(a: Offset3d<int>, factor: int) -> Offset3d<int> {
    Offset3d { x: a.x * factor, y: a.y * factor, z: a.z * factor }
}

/// The vector of the same length that points the other way.
pub open spec fn negated(a: Offset3d<int>) -> Offset3d<int> {
    Offset3d { x: -a.x, y: -a.y, z: -a.z }
}

impl Face {
    pub const MAX_COUNT: u8 = 6;

    /// The position of this face in the fixed order in which faces are walked.
    pub open spec fn index(self) -> int {
        match self {
            Face::PosX => 0,
            Face::NegX => 1,
            Face::PosY => 2,
            Face::NegY => 3,
            Face::PosZ => 4,
            Face::NegZ => 5,
        }
    }

    /// The face at a position of the fixed order.
    pub open spec fn spec_from_index(index: int) -> Face {
        if index == 0 {
            Face::PosX
        } else if index == 1 {
            Face::NegX
        } else if index == 2 {
            Face::PosY
        } else if index == 3 {
            Face::NegY
        } else if index == 4 {
            Face::PosZ
        } else {
            Face::NegZ
        }
    }

    pub fn from_index(index: u8) -> (face: Face)
        requires
            index < Face::MAX_COUNT,
        ensures
            face == Face::spec_from_index(index as int),
            face.index() == index,
    {
        match index {
            0 => Self::PosX,
            1 => Self::NegX,
            2 => Self::PosY,
            3 => Self::NegY,
            4 => Self::PosZ,
            _ => Self::NegZ,
        }
    }

    /// The face that looks the other way along the same axis.
    pub open spec fn spec_opposite(self) -> Face {
        match self {
            Face::PosX => Face::NegX,
            Face::NegX => Face::PosX,
            Face::PosY => Face::NegY,
            Face::NegY => Face::PosY,
            Face::PosZ => Face::NegZ,
            Face::NegZ => Face::PosZ,
        }
    }

    pub fn opposite(&self) -> (face: Face)
        ensures
            face == self.spec_opposite(),
    {
        match self {
            Self::PosX => Self::NegX,
            Self::NegX => Self::PosX,
            Self::PosY => Self::NegY,
            Self::NegY => Self::PosY,
            Self::PosZ => Self::NegZ,
            Self::NegZ => Self::PosZ,
        }
    }

    /// The outward unit normal of the face: the step from a cell to the
    /// neighbour behind this face.
    pub open spec fn normal(self) -> Offset3d<int> {
        match self {
            Face::PosX => Offset3d { x: 1, y: 0, z: 0 },
            Face::NegX => Offset3d { x: -1, y: 0, z: 0 },
            Face::PosY => Offset3d { x: 0, y: 1, z: 0 },
            Face::NegY => Offset3d { x: 0, y: -1, z: 0 },
            Face::PosZ => Offset3d { x: 0, y: 0, z: 1 },
            Face::NegZ => Offset3d { x: 0, y: 0, z: -1 },
        }
    }

    pub fn get_adjacent_voxel_position(&self) -> (offset: Offset3d<i32>)
        ensures
            offset@ == self.normal(),
    {
        match *self {
            Face::PosX => Offset3d::new(1, 0, 0),
            Face::NegX => Offset3d::new(-1, 0, 0),
            Face::PosY => Offset3d::new(0, 1, 0),
            Face::NegY => Offset3d::new(0, -1, 0),
            Face::PosZ => Offset3d::new(0, 0, 1),
            Face::NegZ => Offset3d::new(0, 0, -1),
        }
    }

    /// The direction in which the vertical texture coordinate falls over the face.
    pub open spec fn up(self) -> Offset3d<int> {
        match self {
            Face::PosY => Offset3d { x: 0, y: 0, z: -1 },
            Face::NegY => Offset3d { x: 0, y: 0, z: 1 },
            _ => Offset3d { x: 0, y: 1, z: 0 },
        }
    }

    /// The direction in which the horizontal texture coordinate grows over the face.
    pub open spec fn right(self) -> Offset3d<int> {
        match self {
            Face::PosX => Offset3d { x: 0, y: 0, z: -1 },
            Face::NegX => Offset3d { x: 0, y: 0, z: 1 },
            Face::NegZ => Offset3d { x: -1, y: 0, z: 0 },
            _ => Offset3d { x: 1, y: 0, z: 0 },
        }
    }

    /// Whether vertex `k` of a face sits on its upper edge. The six vertices
    /// are the two triangles (A, B, C) and (B, D, C) of the quad with lower
    /// edge A-C and upper edge B-D.
    pub open spec fn vertex_is_up(k: int) -> bool {
        k == 1 || k == 3 || k == 4
    }

    /// Whether vertex `k` of a face sits on its right edge C-D.
    pub open spec fn vertex_is_right(k: int) -> bool {
        k == 2 || k == 4 || k == 5
    }

    /// Vertex `k` of the face on the cube around the origin, in half cell sides.
    pub open spec fn corner(self, k: int) -> Offset3d<int> {
        let u = if Self::vertex_is_up(k) { self.up() } else { negated(self.up()) };
        let r = if Self::vertex_is_right(k) { self.right() } else { negated(self.right()) };
        Offset3d {
            x: self.normal().x + u.x + r.x,
            y: self.normal().y + u.y + r.y,
            z: self.normal().z + u.z + r.z,
        }
    }

    /// The rows of a tile image, in thirds of its height, between which the
    /// picture of this face lies: the top face first, the four sides in the
    /// middle, the bottom face last.
    pub open spec fn band(self) -> (int, int) {
        match self {
            Face::PosY => (0, 1),
            Face::NegY => (2, 3),
            _ => (1, 2),
        }
    }

    /// The texture coordinate of vertex `k` inside a tile image: `x` in tile
    /// widths, `y` in thirds of the tile height.
    pub open spec fn uv(self, k: int) -> Offset2d<int> {
        Offset2d {
            x: if Self::vertex_is_right(k) { 1 } else { 0 },
            y: if Self::vertex_is_up(k) { self.band().0 } else { self.band().1 },
        }
    }

    /// The six vertices of the face on the cube around the origin, in half
    /// cell sides.
    pub fn get_vertex_positions(&self) -> (positions: [Offset3d<i64>; 6])
        ensures
            forall|k: int|
                0 <= k < 6 ==> (#[trigger] positions[k]).x == self.corner(k).x
                    && positions[k].y == self.corner(k).y
                    && positions[k].z == self.corner(k).z,
    {
        match *self {
            Face::PosX => [
                Offset3d::new(1, -1, 1),
                Offset3d::new(1, 1, 1),
                Offset3d::new(1, -1, -1),
                Offset3d::new(1, 1, 1),
                Offset3d::new(1, 1, -1),
                Offset3d::new(1, -1, -1),
            ],
            Face::NegX => [
                Offset3d::new(-1, -1, -1),
                Offset3d::new(-1, 1, -1),
                Offset3d::new(-1, -1, 1),
                Offset3d::new(-1, 1, -1),
                Offset3d::new(-1, 1, 1),
                Offset3d::new(-1, -1, 1),
            ],
            Face::PosY => [
                Offset3d::new(-1, 1, 1),
                Offset3d::new(-1, 1, -1),
                Offset3d::new(1, 1, 1),
                Offset3d::new(-1, 1, -1),
                Offset3d::new(1, 1, -1),
                Offset3d::new(1, 1, 1),
            ],
            Face::NegY => [
                Offset3d::new(-1, -1, -1),
                Offset3d::new(-1, -1, 1),
                Offset3d::new(1, -1, -1),
                Offset3d::new(-1, -1, 1),
                Offset3d::new(1, -1, 1),
                Offset3d::new(1, -1, -1),
            ],
            Face::PosZ => [
                Offset3d::new(-1, -1, 1),
                Offset3d::new(-1, 1, 1),
                Offset3d::new(1, -1, 1),
                Offset3d::new(-1, 1, 1),
                Offset3d::new(1, 1, 1),
                Offset3d::new(1, -1, 1),
            ],
            Face::NegZ => [
                Offset3d::new(1, -1, -1),
                Offset3d::new(1, 1, -1),
                Offset3d::new(-1, -1, -1),
                Offset3d::new(1, 1, -1),
                Offset3d::new(-1, 1, -1),
                Offset3d::new(-1, -1, -1),
            ],
        }
    }

    /// The texture coordinates of the six vertices inside a tile image: `x`
    /// in tile widths, `y` in thirds of the tile height.
    pub fn get_vertex_uvs(&self) -> (uvs: [Offset2d<u32>; 6])
        ensures
            forall|k: int|
                0 <= k < 6 ==> (#[trigger] uvs[k]).x == self.uv(k).x && uvs[k].y == self.uv(k).y,
    {
        match self {
            Face::PosX | Face::NegX | Face::PosZ | Face::NegZ => [
                Offset2d::new(0, 2),
                Offset2d::new(0, 1),
                Offset2d::new(1, 2),
                Offset2d::new(0, 1),
                Offset2d::new(1, 1),
                Offset2d::new(1, 2),
            ],
            Face::PosY => [
                Offset2d::new(0, 1),
                Offset2d::new(0, 0),
                Offset2d::new(1, 1),
                Offset2d::new(0, 0),
                Offset2d::new(1, 0),
                Offset2d::new(1, 1),
            ],
            Face::NegY => [
                Offset2d::new(0, 3),
                Offset2d::new(0, 2),
                Offset2d::new(1, 3),
                Offset2d::new(0, 2),
                Offset2d::new(1, 2),
                Offset2d::new(1, 3),
            ],
        }
    }

    /// The faces come in the fixed order exactly once.
    pub proof fn lemma_index_round_trip(self)
        ensures
            0 <= self.index() < Face::MAX_COUNT,
            Face::spec_from_index(self.index()) == self,
    {
    }

    /// Looking the other way twice is looking the same way, and the opposite
    /// face has the opposite normal.
    pub proof fn lemma_opposite(self)
        ensures
            self.spec_opposite().spec_opposite() == self,
            self.spec_opposite() != self,
            self.spec_opposite().normal() == negated(self.normal()),
    {
    }

    /// Every vertex of a face is a corner of the cube, on the side of the
    /// cube that the face looks out of.
    pub proof fn lemma_corner_on_face(self, k: int)
        ensures
            self.corner(k).x == 1 || self.corner(k).x == -1,
            self.corner(k).y == 1 || self.corner(k).y == -1,
            self.corner(k).z == 1 || self.corner(k).z == -1,
            dot(self.corner(k), self.normal()) == 1,
    {
    }

    /// The two directions along a face are at right angles to its normal:
    /// turning from the first to the second points into the cube.
    pub proof fn lemma_axes(self)
        ensures
            cross(self.up(), self.right()) == negated(self.normal()),
    {
    }

    /// Both triangles of a face wind clockwise for a viewer outside the
    /// cube: from the first vertex of a triangle, the cross product of the
    /// edges to the second and to the third points into the cube.
    pub proof fn lemma_winding(self, first: int)
        requires
            first == 0 || first == 3,
        ensures
            cross(
                minus(self.corner(first + 1), self.corner(first)),
                minus(self.corner(first + 2), self.corner(first)),
            ) == scaled(negated(self.normal()), 4),
    {
        let u = self.up();
        let r = self.right();
        let a = minus(self.corner(first + 1), self.corner(first));
        let b = minus(self.corner(first + 2), self.corner(first));
        self.lemma_axes();
        if first == 0 {
            assert(a == scaled(u, 2) && b == scaled(r, 2));
            assert(cross(scaled(u, 2), scaled(r, 2)) == scaled(cross(u, r), 4)) by (nonlinear_arith);
        } else {
            assert(a == scaled(r, 2) && b == minus(scaled(r, 2), scaled(u, 2)));
            assert(cross(scaled(r, 2), minus(scaled(r, 2), scaled(u, 2))) == scaled(cross(u, r), 4))
                by (nonlinear_arith);
        }
    }

    /// The two triangles of a face share an edge and cover the face: the
    /// fourth vertex is the second, the sixth is the third, and the four
    /// corners differ.
    pub proof fn lemma_quad(self)
        ensures
            self.corner(3) == self.corner(1),
            self.corner(5) == self.corner(2),
            self.corner(0) != self.corner(1),
            self.corner(0) != self.corner(2),
            self.corner(0) != self.corner(4),
            self.corner(1) != self.corner(2),
            self.corner(1) != self.corner(4),
            self.corner(2) != self.corner(4),
    {
    }
}

} // verus!
