//! Small vector and colour types shared by the whole crate.

use vstd::prelude::*;
use vstd::std_specs::convert::FromSpecImpl;

verus! {

/// A scalar with a zero and a unit element.
pub trait Unit: Copy {
    /// The unit element, as a specification value.
    spec fn spec_one() -> Self;

    /// The zero element, as a specification value.
    spec fn spec_zero() -> Self;

    fn one() -> (value: Self)
        ensures
            value == Self::spec_one(),
    ;

    fn zero() -> (value: Self)
        ensures
            value == Self::spec_zero(),
    ;
}

impl Unit for i32 {
    open spec fn spec_one() -> Self {
        1
    }

    open spec fn spec_zero() -> Self {
        0
    }

    fn one() -> (value: Self) {
        1
    }

    fn zero() -> (value: Self) {
        0
    }
}

impl Unit for u32 {
    open spec fn spec_one() -> Self {
        1
    }

    open spec fn spec_zero() -> Self {
        0
    }

    fn one() -> (value: Self) {
        1
    }

    fn zero() -> (value: Self) {
        0
    }
}

impl Unit for i64 {
    open spec fn spec_one() -> Self {
        1
    }

    open spec fn spec_zero() -> Self {
        0
    }

    fn one() -> (value: Self) {
        1
    }

    fn zero() -> (value: Self) {
        0
    }
}

impl Unit for u64 {
    open spec fn spec_one() -> Self {
        1
    }

    open spec fn spec_zero() -> Self {
        0
    }

    fn one() -> (value: Self) {
        1
    }

    fn zero() -> (value: Self) {
        0
    }
}

/// A 2d offset.
#[derive(Clone, Copy, Debug, PartialEq, Eq)]
pub struct Offset2d<T> {
    pub x: T,
    pub y: T,
}

impl<T> Offset2d<T> {
    pub fn new(x: T, y: T) -> (offset: Self)
        ensures
            offset == (Offset2d { x, y }),
    {
        Self { x, y }
    }
}

impl<T: Unit> Default for Offset2d<T> {
    fn default() -> (offset: Self)
        ensures
            offset == (Offset2d { x: T::spec_zero(), y: T::spec_zero() }),
    {
        Self { x: T::zero(), y: T::zero() }
    }
}

/// A 3d offset.
#[derive(Clone, Copy, Debug, PartialEq, Eq)]
pub struct Offset3d<T> {
    pub x: T,
    pub y: T,
    pub z: T,
}

impl<T> Offset3d<T> {
    pub fn new(x: T, y: T, z: T) -> (offset: Self)
        ensures
            offset == (Offset3d { x, y, z }),
    {
        Self { x, y, z }
    }
}

impl<T: Unit> Default for Offset3d<T> {
    fn default() -> (offset: Self)
        ensures
            offset == (Offset3d { x: T::spec_zero(), y: T::spec_zero(), z: T::spec_zero() }),
    {
        Self { x: T::zero(), y: T::zero(), z: T::zero() }
    }
}

/// The coordinates of a signed grid position as mathematical integers.
impl View for Offset3d<i32> {
    type V = Offset3d<int>;

    open spec fn view(&self) -> Offset3d<int> {
        Offset3d { x: self.x as int, y: self.y as int, z: self.z as int }
    }
}

impl View for Offset3d<i64> {
    type V = Offset3d<int>;

    open spec fn view(&self) -> Offset3d<int> {
        Offset3d { x: self.x as int, y: self.y as int, z: self.z as int }
    }
}

/// A 2d extent.
#[derive(Clone, Copy, Debug, PartialEq, Eq)]
pub struct Extent2d<T> {
    pub width: T,
    pub height: T,
}

impl<T> Extent2d<T> {
    pub fn new(width: T, height: T) -> (extent: Self)
        ensures
            extent == (Extent2d { width, height }),
    {
        Self { width, height }
    }
}

impl<T: Unit> Extent2d<T> {
    pub fn one() -> (extent: Self)
        ensures
            extent == (Extent2d { width: T::spec_one(), height: T::spec_one() }),
    {
        Self { width: T::one(), height: T::one() }
    }
}

impl Extent2d<u32> {
    /// An extent is valid when it is positive along every axis.
    pub open spec fn spec_is_valid(&self) -> bool {
        self.width > 0 && self.height > 0
    }

    #[verifier::when_used_as_spec(spec_is_valid)]
    pub fn is_valid(&self) -> (valid: bool)
        ensures
            valid == self.spec_is_valid(),
    {
        self.width > 0 && self.height > 0
    }
}

impl<T: Unit> Default for Extent2d<T> {
    fn default() -> (extent: Self)
        ensures
            extent == (Extent2d { width: T::spec_one(), height: T::spec_one() }),
    {
        Self::one()
    }
}

/// A 3d extent.
#[derive(Clone, Copy, Debug, PartialEq, Eq)]
pub struct Extent3d<T> {
    pub width: T,
    pub height: T,
    pub depth: T,
}

impl<T> Extent3d<T> {
    pub fn new(width: T, height: T, depth: T) -> (extent: Self)
        ensures
            extent == (Extent3d { width, height, depth }),
    {
        Self { width, height, depth }
    }
}

impl<T: Unit> Extent3d<T> {
    pub fn one() -> (extent: Self)
        ensures
            extent == (Extent3d { width: T::spec_one(), height: T::spec_one(), depth: T::spec_one() }),
    {
        Self { width: T::one(), height: T::one(), depth: T::one() }
    }
}

impl Extent3d<u32> {
    /// An extent is valid when it is positive along every axis.
    pub open spec fn spec_is_valid(&self) -> bool {
        self.width > 0 && self.height > 0 && self.depth > 0
    }

    #[verifier::when_used_as_spec(spec_is_valid)]
    pub fn is_valid(&self) -> (valid: bool)
        ensures
            valid == self.spec_is_valid(),
    {
        self.width > 0 && self.height > 0 && self.depth > 0
    }
}

impl<T: Unit> Default for Extent3d<T> {
    fn default() -> (extent: Self)
        ensures
            extent == (Extent3d { width: T::spec_one(), height: T::spec_one(), depth: T::spec_one() }),
    {
        Self::one()
    }
}

impl<T> From<Extent2d<T>> for Offset2d<T> {
    fn from(value: Extent2d<T>) -> (offset: Self) {
        Self { x: value.width, y: value.height }
    }
}

impl<T> FromSpecImpl<Extent2d<T>> for Offset2d<T> {
    open spec fn obeys_from_spec() -> bool {
        true
    }

    open spec fn from_spec(value: Extent2d<T>) -> Self {
        Offset2d { x: value.width, y: value.height }
    }
}

impl<T> From<Extent3d<T>> for Offset3d<T> {
    fn from(value: Extent3d<T>) -> (offset: Self) {
        Self { x: value.width, y: value.height, z: value.depth }
    }
}

impl<T> FromSpecImpl<Extent3d<T>> for Offset3d<T> {
    open spec fn obeys_from_spec() -> bool {
        true
    }

    open spec fn from_spec(value: Extent3d<T>) -> Self {
        Offset3d { x: value.width, y: value.height, z: value.depth }
    }
}

impl<T> From<Offset2d<T>> for Extent2d<T> {
    fn from(value: Offset2d<T>) -> (extent: Self) {
        Self { width: value.x, height: value.y }
    }
}

impl<T> FromSpecImpl<Offset2d<T>> for Extent2d<T> {
    open spec fn obeys_from_spec() -> bool {
        true
    }

    open spec fn from_spec(value: Offset2d<T>) -> Self {
        Extent2d { width: value.x, height: value.y }
    }
}

impl<T> From<Offset3d<T>> for Extent3d<T> {
    fn from(value: Offset3d<T>) -> (extent: Self) {
        Self { width: value.x, height: value.y, depth: value.z }
    }
}

impl<T> FromSpecImpl<Offset3d<T>> for Extent3d<T> {
    open spec fn obeys_from_spec() -> bool {
        true
    }

    open spec fn from_spec(value: Offset3d<T>) -> Self {
        Extent3d { width: value.x, height: value.y, depth: value.z }
    }
}

/// A colour with red, green, blue and alpha channels.
#[derive(Clone, Copy, Debug, PartialEq, Eq)]
pub struct Color<T> {
    pub r: T,
    pub g: T,
    pub b: T,
    pub a: T,
}

impl<T> Color<T> {
    pub fn new(r: T, g: T, b: T, a: T) -> (color: Self)
        ensures
            color == (Color { r, g, b, a }),
    {
        Self { r, g, b, a }
    }
}

impl<T: Unit> Color<T> {
    /// The colour whose four channels are `r`, `g`, `b`, `a` times the unit.
    pub open spec fn spec_unit(r: bool, g: bool, b: bool, a: bool) -> Self {
        Color {
            r: if r { T::spec_one() } else { T::spec_zero() },
            g: if g { T::spec_one() } else { T::spec_zero() },
            b: if b { T::spec_one() } else { T::spec_zero() },
            a: if a { T::spec_one() } else { T::spec_zero() },
        }
    }

    pub fn clear() -> (color: Self)
        ensures
            color == Self::spec_unit(false, false, false, false),
    {
        Self::new(T::zero(), T::zero(), T::zero(), T::zero())
    }

    pub fn black() -> (color: Self)
        ensures
            color == Self::spec_unit(false, false, false, true),
    {
        Self::new(T::zero(), T::zero(), T::zero(), T::one())
    }

    pub fn red() -> (color: Self)
        ensures
            color == Self::spec_unit(true, false, false, true),
    {
        Self::new(T::one(), T::zero(), T::zero(), T::one())
    }

    pub fn green() -> (color: Self)
        ensures
            color == Self::spec_unit(false, true, false, true),
    {
        Self::new(T::zero(), T::one(), T::zero(), T::one())
    }

    pub fn blue() -> (color: Self)
        ensures
            color == Self::spec_unit(false, false, true, true),
    {
        Self::new(T::zero(), T::zero(), T::one(), T::one())
    }

    pub fn white() -> (color: Self)
        ensures
            color == Self::spec_unit(true, true, true, true),
    {
        Self::new(T::one(), T::one(), T::one(), T::one())
    }
}

} // verus!
