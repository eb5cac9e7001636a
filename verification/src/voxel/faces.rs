//! A set of faces, kept as a mask of six bits.

use crate::voxel::face::Face;
use vstd::prelude::*;
use vstd::std_specs::convert::FromSpecImpl;

verus! {

/// A set of faces of one cell.
#[derive(Clone, Copy, Debug, PartialEq, Eq)]
pub struct Faces {
    bits: u8,
}

/// The bit that stands for a face.
pub closed spec fn mask(face: Face) -> u8 {
    match face {
        Face::PosX => 1,
        Face::NegX => 2,
        Face::PosY => 4,
        Face::NegY => 8,
        Face::PosZ => 16,
        Face::NegZ => 32,
    }
}

impl View for Faces {
    type V = Set<Face>;

    closed spec fn view(&self) -> Set<Face> {
        Set::new(|face: Face| self.bits & mask(face) != 0)
    }
}

impl Faces {
    /// Only the six bits that stand for a face are ever set.
    #[verifier::type_invariant]
    spec fn only_face_bits(self) -> bool {
        self.bits < 64
    }

    /// The set of no faces.
    pub fn empty() -> (faces: Faces)
        ensures
            faces@ == Set::<Face>::empty(),
    {
        let faces = Faces { bits: 0 };
        proof {
            assert forall|face: Face| !(#[trigger] faces@.contains(face)) by {
                let m = mask(face);
                assert(0u8 & m == 0) by (bit_vector);
            }
            assert(faces@ =~= Set::<Face>::empty());
        }
        faces
    }

    /// The set of one face.
    pub closed spec fn spec_single(face: Face) -> Faces {
        Faces { bits: mask(face) }
    }

    /// `spec_single` holds its face and no other.
    pub proof fn lemma_single(face: Face)
        ensures
            Faces::spec_single(face)@ == set![face],
    {
        let faces = Faces::spec_single(face);
        assert forall|other: Face| #[trigger] faces@.contains(other) == (other == face) by {
            let m = mask(face);
            let n = mask(other);
            assert((m & n != 0) == (m == n)) by (bit_vector)
                requires
                    m == 1 || m == 2 || m == 4 || m == 8 || m == 16 || m == 32,
                    n == 1 || n == 2 || n == 4 || n == 8 || n == 16 || n == 32,
            ;
        }
        assert(faces@ =~= set![face]);
    }

    /// Adds every face of `other` to the set.
    pub fn insert(&mut self, other: Faces)
        ensures
            final(self)@ == old(self)@.union(other@),
    {
        proof {
            use_type_invariant(&*self);
            use_type_invariant(&other);
        }
        let a = self.bits;
        let b = other.bits;
        assert((a | b) < 64) by (bit_vector)
            requires
                a < 64,
                b < 64,
        ;
        self.bits = a | b;
        proof {
            assert forall|face: Face| #[trigger]
                self@.contains(face) == (old(self)@.contains(face) || other@.contains(face)) by {
                let m = mask(face);
                assert(((a | b) & m != 0) == (a & m != 0 || b & m != 0)) by (bit_vector);
            }
            assert(self@ =~= old(self)@.union(other@));
        }
    }

    /// Takes every face of `other` out of the set.
    pub fn remove(&mut self, other: Faces)
        ensures
            final(self)@ == old(self)@.difference(other@),
    {
        proof {
            use_type_invariant(&*self);
        }
        let a = self.bits;
        let b = other.bits;
        assert((a & !b) < 64) by (bit_vector)
            requires
                a < 64,
        ;
        self.bits = a & !b;
        proof {
            assert forall|face: Face| #[trigger]
                self@.contains(face) == (old(self)@.contains(face) && !other@.contains(face)) by {
                let m = mask(face);
                assert(((a & !b) & m != 0) == (a & m != 0 && !(b & m != 0))) by (bit_vector)
                    requires
                        m == 1 || m == 2 || m == 4 || m == 8 || m == 16 || m == 32,
                ;
            }
            assert(self@ =~= old(self)@.difference(other@));
        }
    }

    /// Whether every face of `other` is in the set.
    pub fn contains(&self, other: Faces) -> (all: bool)
        ensures
            all == other@.subset_of(self@),
    {
        proof {
            use_type_invariant(self);
            use_type_invariant(&other);
        }
        let a = self.bits;
        let b = other.bits;
        proof {
            if a & b == b {
                assert forall|face: Face| other@.contains(face) implies self@.contains(face) by {
                    let m = mask(face);
                    assert(b & m != 0 ==> a & m != 0) by (bit_vector)
                        requires
                            a & b == b,
                    ;
                }
            } else {
                let found = Self::missing_face(a, b);
                assert(other@.contains(found) && !self@.contains(found));
            }
        }
        (a & b) == b
    }

    /// A face whose bit is set in `b` and not in `a`, where there is one.
    proof fn missing_face(a: u8, b: u8) -> (face: Face)
        requires
            b < 64,
            a & b != b,
        ensures
            b & mask(face) != 0,
            a & mask(face) == 0,
    {
        assert((b & 1 != 0 && a & 1 == 0) || (b & 2 != 0 && a & 2 == 0) || (b & 4 != 0 && a & 4
            == 0) || (b & 8 != 0 && a & 8 == 0) || (b & 16 != 0 && a & 16 == 0) || (b & 32 != 0 && a
            & 32 == 0)) by (bit_vector)
            requires
                b < 64,
                a & b != b,
        ;
        if b & 1 != 0 && a & 1 == 0 {
            Face::PosX
        } else if b & 2 != 0 && a & 2 == 0 {
            Face::NegX
        } else if b & 4 != 0 && a & 4 == 0 {
            Face::PosY
        } else if b & 8 != 0 && a & 8 == 0 {
            Face::NegY
        } else if b & 16 != 0 && a & 16 == 0 {
            Face::PosZ
        } else {
            Face::NegZ
        }
    }
}

impl From<Face> for Faces {
    fn from(value: Face) -> (faces: Faces) {
        match value {
            Face::PosX => Faces { bits: 1 },
            Face::NegX => Faces { bits: 2 },
            Face::PosY => Faces { bits: 4 },
            Face::NegY => Faces { bits: 8 },
            Face::PosZ => Faces { bits: 16 },
            Face::NegZ => Faces { bits: 32 },
        }
    }
}

impl FromSpecImpl<Face> for Faces {
    open spec fn obeys_from_spec() -> bool {
        true
    }

    open spec fn from_spec(value: Face) -> Faces {
        Faces::spec_single(value)
    }
}

} // verus!
