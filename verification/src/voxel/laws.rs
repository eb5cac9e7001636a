//! What holds of every world and every edit.

use crate::types::{Extent3d, Offset3d};
use crate::voxel::cell::{CellView, Voxel};
use crate::voxel::face::Face;
use crate::voxel::grid::{
    cell_count, direction, lemma_direction, lemma_index_in_range, lemma_index_round_trip,
    lemma_position_in_bounds, lemma_position_round_trip, lemma_step, step,
};
use crate::voxel::model::WorldView;
use vstd::prelude::*;

verus! {

impl WorldView {
    /// The cell of a position inside the world is the cell at its index,
    /// and the index leads back to the position.
    pub proof fn lemma_cell_index(self, position: Offset3d<int>)
        requires
            self.contains(position),
        ensures
            0 <= self.index_of(position) < cell_count(self.size),
            self.position_of(self.index_of(position)) == position,
    {
        lemma_index_in_range(self.size, position);
        lemma_position_round_trip(self.size, position);
    }

    /// A world of empty cells is valid.
    pub proof fn lemma_blank_valid(size: Extent3d<u32>, max_tiles: u32)
        requires
            max_tiles > 0,
        ensures
            WorldView::blank(size, max_tiles).valid(),
    {
        assert(cell_count(size) >= 0) by (nonlinear_arith)
            requires
                cell_count(size) == size.width * size.height * size.depth,
        ;
    }

    /// Handling one more face of an edit changes the edited cell and, where
    /// a block stands behind that face, this block, and nothing else.
    pub proof fn lemma_set_next(self, position: Offset3d<int>, voxel: Voxel, k: int)
        requires
            self.shaped(),
            self.contains(position),
            0 <= k < 6,
        ensures
            ({
                let face = Face::spec_from_index(k);
                let behind = step(position, face);
                let target = self.index_of(position);
                let before = self.set_upto(position, voxel, k).cells;
                let after = self.set_upto(position, voxel, k + 1).cells;
                let faces = if !self.contains(behind) || (voxel is Tile && !self.cell(
                    behind,
                ).occupied()) {
                    before[target].faces.insert(face)
                } else if voxel is Tile {
                    before[target].faces.remove(face)
                } else {
                    before[target].faces
                };
                let edited = before.update(target, CellView { voxel, faces });
                &&& 0 <= target < before.len()
                &&& before[target].voxel == voxel
                &&& if self.contains(behind) && self.cell(behind).occupied() {
                    let other = self.index_of(behind);
                    &&& 0 <= other < before.len()
                    &&& other != target
                    &&& before[other] == self.cells[other]
                    &&& after == edited.update(
                        other,
                        CellView {
                            voxel: before[other].voxel,
                            faces: Self::neighbour_faces(before[other].faces, face, voxel),
                        },
                    )
                } else {
                    after == edited
                }
            }),
    {
        let face = Face::spec_from_index(k);
        let behind = step(position, face);
        let target = self.index_of(position);
        let before = self.set_upto(position, voxel, k).cells;
        let after = self.set_upto(position, voxel, k + 1).cells;
        let faces = if !self.contains(behind) || (voxel is Tile && !self.cell(behind).occupied()) {
            before[target].faces.insert(face)
        } else if voxel is Tile {
            before[target].faces.remove(face)
        } else {
            before[target].faces
        };
        let edited = before.update(target, CellView { voxel, faces });
        self.lemma_cell_index(position);
        lemma_step(position, face);
        assert(after[target].faces =~= faces) by {
            assert forall|any: Face| after[target].faces.contains(any) == faces.contains(any) by {
                any.lemma_index_round_trip();
            }
        }
        let expected = if self.contains(behind) && self.cell(behind).occupied() {
            let other = self.index_of(behind);
            edited.update(
                other,
                CellView {
                    voxel: before[other].voxel,
                    faces: Self::neighbour_faces(before[other].faces, face, voxel),
                },
            )
        } else {
            edited
        };
        if self.contains(behind) {
            self.lemma_cell_index(behind);
        }
        assert forall|index: int| 0 <= index < after.len() implies after[index] == expected[index] by {
            let here = self.position_of(index);
            lemma_position_in_bounds(self.size, index);
            lemma_index_round_trip(self.size, index);
            lemma_direction(position, here);
            match direction(position, here) {
                Some(towards) => {
                    towards.lemma_index_round_trip();
                },
                None => {},
            }
        }
        assert(after =~= expected);
    }

    /// An edit changes the content of the edited cell and of no other.
    pub proof fn lemma_set_voxels(self, position: Offset3d<int>, voxel: Voxel, k: int)
        requires
            self.shaped(),
            self.contains(position),
        ensures
            self.set_upto(position, voxel, k).voxel_at(position) == Some(voxel),
            forall|other: Offset3d<int>|
                other != position ==> #[trigger] self.set_upto(position, voxel, k).voxel_at(other)
                    == self.voxel_at(other),
    {
        let after = self.set_upto(position, voxel, k);
        self.lemma_cell_index(position);
        assert forall|other: Offset3d<int>| other != position implies #[trigger] after.voxel_at(
            other,
        ) == self.voxel_at(other) by {
            if self.contains(other) {
                self.lemma_cell_index(other);
            }
        }
    }

    /// An edit of a valid world gives a valid world: every block shows a
    /// tile of the atlas, and a face of a block is marked exactly where
    /// there is nothing behind it.
    pub proof fn lemma_set_keeps_valid(self, position: Offset3d<int>, voxel: Voxel)
        requires
            self.valid(),
            self.contains(position),
            self.accepts(voxel),
        ensures
            self.set(position, voxel).valid(),
    {
        let after = self.set(position, voxel);
        self.lemma_set_voxels(position, voxel, 6);
        self.lemma_cell_index(position);
        assert forall|index: int, face: Face|
            0 <= index < after.cells.len() && after.cells[index].occupied() implies (
        #[trigger] after.cells[index].faces.contains(face) <==> after.open_towards(
            after.position_of(index),
            face,
        )) by {
            let here = self.position_of(index);
            let behind = step(here, face);
            lemma_position_in_bounds(self.size, index);
            lemma_index_round_trip(self.size, index);
            lemma_step(here, face);
            lemma_direction(position, here);
            face.lemma_index_round_trip();
            face.lemma_opposite();
            assert(after.voxel_at(behind) == if behind == position {
                Some(voxel)
            } else {
                self.voxel_at(behind)
            });
            if here == position {
            } else {
                assert(self.cells[index].faces.contains(face) <==> self.open_towards(here, face));
                match direction(position, here) {
                    Some(towards) => {
                        towards.lemma_index_round_trip();
                        towards.lemma_opposite();
                        lemma_step(position, towards);
                    },
                    None => {},
                }
            }
        }
    }

    /// After an edit, the marks of the edited cell are these: a face
    /// behind which the world ends is marked; before a neighbour inside the
    /// world, a face of a block is marked exactly if the neighbour is empty,
    /// and a face of an emptied cell keeps its mark.
    pub proof fn lemma_set_target(self, position: Offset3d<int>, voxel: Voxel, face: Face)
        requires
            self.shaped(),
            self.contains(position),
        ensures
            self.set(position, voxel).cell(position).voxel == voxel,
            self.set(position, voxel).cell(position).faces.contains(face) == (if !self.contains(
                step(position, face),
            ) {
                true
            } else if voxel is Tile {
                !self.cell(step(position, face)).occupied()
            } else {
                self.cell(position).faces.contains(face)
            }),
    {
        self.lemma_cell_index(position);
        face.lemma_index_round_trip();
    }

    /// After an edit, a block behind a face of the edited cell has the
    /// face that looks back marked exactly if the edited cell is empty now;
    /// its other marks, and the marks of an empty neighbour, stay.
    pub proof fn lemma_set_neighbour(
        self,
        position: Offset3d<int>,
        voxel: Voxel,
        towards: Face,
        face: Face,
    )
        requires
            self.shaped(),
            self.contains(position),
            self.contains(step(position, towards)),
        ensures
            self.set(position, voxel).cell(step(position, towards)).voxel == self.cell(
                step(position, towards),
            ).voxel,
            self.set(position, voxel).cell(step(position, towards)).faces.contains(face) == (
            if self.cell(step(position, towards)).occupied() && face == towards.spec_opposite() {
                voxel is Void
            } else {
                self.cell(step(position, towards)).faces.contains(face)
            }),
    {
        self.lemma_cell_index(step(position, towards));
        lemma_step(position, towards);
        towards.lemma_index_round_trip();
    }

    /// An edit leaves every cell but the edited one and its six neighbours
    /// as it was.
    pub proof fn lemma_set_elsewhere(self, position: Offset3d<int>, voxel: Voxel, other: Offset3d<int>)
        requires
            self.shaped(),
            self.contains(position),
            self.contains(other),
            other != position,
            direction(position, other) is None,
        ensures
            self.set(position, voxel).cell(other) == self.cell(other),
    {
        self.lemma_cell_index(other);
    }

    /// Writing the same content to the same cell twice in a row gives the
    /// same world as writing it once.
    pub proof fn law_set_idempotent(self, position: Offset3d<int>, voxel: Voxel)
        requires
            self.shaped(),
            self.contains(position),
        ensures
            self.set(position, voxel).set(position, voxel) == self.set(position, voxel),
    {
        let once = self.set(position, voxel);
        let twice = once.set(position, voxel);
        self.lemma_set_voxels(position, voxel, 6);
        self.lemma_cell_index(position);
        assert forall|index: int| 0 <= index < once.cells.len() implies #[trigger] twice.cells[index]
            == once.cells[index] by {
            let here = self.position_of(index);
            lemma_position_in_bounds(self.size, index);
            lemma_index_round_trip(self.size, index);
            lemma_direction(position, here);
            if here == position {
                assert forall|face: Face|
                    twice.cells[index].faces.contains(face) == once.cells[index].faces.contains(
                        face,
                    ) by {
                    face.lemma_index_round_trip();
                    let behind = step(position, face);
                    lemma_step(position, face);
                    assert(once.voxel_at(behind) == self.voxel_at(behind));
                }
                assert(twice.cells[index].faces =~= once.cells[index].faces);
            } else {
                assert(twice.cells[index].faces =~= once.cells[index].faces);
            }
        }
        assert(twice.cells =~= once.cells);
    }

    /// In a world of empty cells, a single block shows all its six faces,
    /// and no neighbour of it shows any.
    pub proof fn law_single_block(self, position: Offset3d<int>, tile: u32)
        requires
            self.valid(),
            forall|index: int| 0 <= index < self.cells.len() ==> !(#[trigger] self.cells[index]).occupied(),
            self.contains(position),
            tile < self.max_tiles,
        ensures
            forall|face: Face| #[trigger] self.set(position, Voxel::Tile(tile)).exposed(position, face),
            self.set(position, Voxel::Tile(tile)).cell(position).exposed_faces() == 6,
            forall|face: Face|
                self.contains(#[trigger] step(position, face)) ==> self.set(
                    position,
                    Voxel::Tile(tile),
                ).cell(step(position, face)).exposed_faces() == 0,
    {
        let voxel = Voxel::Tile(tile);
        let after = self.set(position, voxel);
        reveal_with_fuel(CellView::exposed_upto, 7);
        assert forall|face: Face| #[trigger] after.exposed(position, face) by {
            self.lemma_set_target(position, voxel, face);
            if self.contains(step(position, face)) {
                self.lemma_cell_index(step(position, face));
            }
        }
        assert(after.exposed(position, Face::PosX));
        assert(after.exposed(position, Face::NegX));
        assert(after.exposed(position, Face::PosY));
        assert(after.exposed(position, Face::NegY));
        assert(after.exposed(position, Face::PosZ));
        assert(after.exposed(position, Face::NegZ));
        assert forall|face: Face| self.contains(#[trigger] step(position, face)) implies after.cell(
            step(position, face),
        ).exposed_faces() == 0 by {
            self.lemma_cell_index(step(position, face));
            self.lemma_set_neighbour(position, voxel, face, face);
        }
    }

    /// Where blocks are written to two neighbouring cells one after the
    /// other, the face between them is marked on neither, and each other
    /// face of the two is marked exactly where there is nothing behind it:
    /// all of them, where the world held no block before.
    pub proof fn law_adjacent_blocks(self, position: Offset3d<int>, towards: Face, first: u32, second: u32)
        requires
            self.valid(),
            self.contains(position),
            self.contains(step(position, towards)),
            first < self.max_tiles,
            second < self.max_tiles,
        ensures
            ({
                let neighbour = step(position, towards);
                let after = self.set(position, Voxel::Tile(first)).set(neighbour, Voxel::Tile(second));
                &&& after.valid()
                &&& after.voxel_at(position) == Some(Voxel::Tile(first))
                &&& after.voxel_at(neighbour) == Some(Voxel::Tile(second))
                &&& !after.exposed(position, towards)
                &&& !after.exposed(neighbour, towards.spec_opposite())
                &&& forall|face: Face|
                    #[trigger] after.exposed(position, face) <==> after.open_towards(position, face)
                &&& forall|face: Face|
                    #[trigger] after.exposed(neighbour, face) <==> after.open_towards(neighbour, face)
                &&& (forall|index: int|
                    0 <= index < self.cells.len() ==> !(#[trigger] self.cells[index]).occupied())
                    ==> {
                    &&& forall|face: Face| face != towards ==> #[trigger] after.exposed(position, face)
                    &&& forall|face: Face|
                        face != towards.spec_opposite() ==> #[trigger] after.exposed(neighbour, face)
                }
            }),
    {
        let neighbour = step(position, towards);
        let between = self.set(position, Voxel::Tile(first));
        let after = between.set(neighbour, Voxel::Tile(second));
        lemma_step(position, towards);
        self.lemma_set_keeps_valid(position, Voxel::Tile(first));
        between.lemma_set_keeps_valid(neighbour, Voxel::Tile(second));
        self.lemma_set_voxels(position, Voxel::Tile(first), 6);
        between.lemma_set_voxels(neighbour, Voxel::Tile(second), 6);
        after.lemma_cell_index(position);
        after.lemma_cell_index(neighbour);
        assert forall|face: Face| #[trigger]
            after.exposed(position, face) <==> after.open_towards(position, face) by {
            assert(after.cells[after.index_of(position)].faces.contains(face) <==> after.open_towards(
                position,
                face,
            ));
        }
        assert forall|face: Face| #[trigger]
            after.exposed(neighbour, face) <==> after.open_towards(neighbour, face) by {
            assert(after.cells[after.index_of(neighbour)].faces.contains(face)
                <==> after.open_towards(neighbour, face));
        }
        assert(after.voxel_at(step(position, towards)) == Some(Voxel::Tile(second)));
        assert(!after.open_towards(position, towards));
        towards.lemma_opposite();
        assert(after.voxel_at(step(neighbour, towards.spec_opposite())) == Some(Voxel::Tile(first)));
        assert(!after.open_towards(neighbour, towards.spec_opposite()));
        if forall|index: int| 0 <= index < self.cells.len() ==> !(#[trigger] self.cells[index]).occupied() {
            assert forall|face: Face| face != towards implies #[trigger] after.exposed(
                position,
                face,
            ) by {
                let behind = step(position, face);
                lemma_step(position, face);
                face.lemma_opposite();
                if self.contains(behind) {
                    self.lemma_cell_index(behind);
                    assert(after.voxel_at(behind) == self.voxel_at(behind));
                }
            }
            assert forall|face: Face| face != towards.spec_opposite() implies #[trigger] after.exposed(
                neighbour,
                face,
            ) by {
                let behind = step(neighbour, face);
                lemma_step(neighbour, face);
                face.lemma_opposite();
                if self.contains(behind) {
                    self.lemma_cell_index(behind);
                    assert(after.voxel_at(behind) == self.voxel_at(behind));
                }
            }
        }
    }
}

} // verus!
