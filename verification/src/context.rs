//! Launch-grid coordinates of the running block and thread.

use vstd::prelude::*;
use vstd::std_specs::cmp::PartialEqSpecImpl;

verus! {

/// Entry point for queries about the launch grid.
pub struct Context;

/// The block a thread belongs to: its extent and its place in the grid.
#[derive(Debug)]
pub struct Block {
    dimensions: Vec3,
    index: Vec3,
}

/// A thread's place inside its block.
#[derive(Debug)]
pub struct Thread {
    index: Vec3,
}

/// Three unsigned coordinates.
#[derive(Debug)]
pub struct Vec3 {
    pub x: u64,
    pub y: u64,
    pub z: u64,
}

/// The value a 32-bit index register holds, widened to 64 bits the way the
/// hardware reports it: sign-extended, so a negative reading wraps around.
pub open spec fn widen(raw: i32) -> u64 {
    if raw >= 0 {
        raw as u64
    } else {
        (raw + 0x1_0000_0000_0000_0000) as u64
    }
}

/// Widens one register reading.
fn widen_register(raw: i32) -> (r: u64)
    ensures
        r == widen(raw),
{
    assert(raw as u64 == widen(raw)) by (bit_vector);
    #[verifier::truncate]
    (raw as u64)
}

impl Context {
    /// Builds the block description from the six register readings: the
    /// block's extent along each axis, then its index along each axis.
    pub fn block(dimensions: (i32, i32, i32), index: (i32, i32, i32)) -> (b: Block)
        ensures
            b.spec_dims() == (Vec3 {
                x: widen(dimensions.0),
                y: widen(dimensions.1),
                z: widen(dimensions.2),
            }),
            b.spec_index() == (Vec3 { x: widen(index.0), y: widen(index.1), z: widen(index.2) }),
    {
        Block {
            dimensions: Vec3 {
                x: widen_register(dimensions.0),
                y: widen_register(dimensions.1),
                z: widen_register(dimensions.2),
            },
            index: Vec3 {
                x: widen_register(index.0),
                y: widen_register(index.1),
                z: widen_register(index.2),
            },
        }
    }

    /// Builds the thread description from the three index register readings.
    pub fn thread(index: (i32, i32, i32)) -> (t: Thread)
        ensures
            t.spec_index() == (Vec3 { x: widen(index.0), y: widen(index.1), z: widen(index.2) }),
    {
        Thread {
            index: Vec3 {
                x: widen_register(index.0),
                y: widen_register(index.1),
                z: widen_register(index.2),
            },
        }
    }
}

impl Block {
    /// The block's index in the grid.
    pub closed spec fn spec_index(&self) -> Vec3 {
        self.index
    }

    /// The block's extent.
    pub closed spec fn spec_dims(&self) -> Vec3 {
        self.dimensions
    }

    /// The block's index in the grid.
    pub fn index(&self) -> (r: &Vec3)
        ensures
            *r == self.spec_index(),
    {
        &self.index
    }

    /// The block's extent along each axis.
    pub fn dims(&self) -> (r: &Vec3)
        ensures
            *r == self.spec_dims(),
    {
        &self.dimensions
    }
}

impl Thread {
    /// The thread's index inside its block.
    pub closed spec fn spec_index(&self) -> Vec3 {
        self.index
    }

    /// The thread's index inside its block.
    pub fn index(&self) -> (r: &Vec3)
        ensures
            *r == self.spec_index(),
    {
        &self.index
    }
}

impl PartialEq<(u64, u64, u64)> for Vec3 {
    fn eq(&self, other: &(u64, u64, u64)) -> (r: bool) {
        self.x == other.0 && self.y == other.1 && self.z == other.2
    }
}

impl PartialEqSpecImpl<(u64, u64, u64)> for Vec3 {
    open spec fn obeys_eq_spec() -> bool {
        true
    }

    open spec fn eq_spec(&self, other: &(u64, u64, u64)) -> bool {
        self.x == other.0 && self.y == other.1 && self.z == other.2
    }
}

impl PartialEq<(u64, u64, u64)> for &Vec3 {
    fn eq(&self, other: &(u64, u64, u64)) -> (r: bool) {
        self.x == other.0 && self.y == other.1 && self.z == other.2
    }
}

impl PartialEqSpecImpl<(u64, u64, u64)> for &Vec3 {
    open spec fn obeys_eq_spec() -> bool {
        true
    }

    open spec fn eq_spec(&self, other: &(u64, u64, u64)) -> bool {
        self.x == other.0 && self.y == other.1 && self.z == other.2
    }
}

/// A pair stands for a position in the plane `z == 0`.
impl PartialEq<(u64, u64)> for Vec3 {
    fn eq(&self, other: &(u64, u64)) -> (r: bool) {
        self.x == other.0 && self.y == other.1 && self.z == 0
    }
}

impl PartialEqSpecImpl<(u64, u64)> for Vec3 {
    open spec fn obeys_eq_spec() -> bool {
        true
    }

    open spec fn eq_spec(&self, other: &(u64, u64)) -> bool {
        self.x == other.0 && self.y == other.1 && self.z == 0
    }
}

impl PartialEq<(u64, u64)> for &Vec3 {
    fn eq(&self, other: &(u64, u64)) -> (r: bool) {
        self.x == other.0 && self.y == other.1 && self.z == 0
    }
}

impl PartialEqSpecImpl<(u64, u64)> for &Vec3 {
    open spec fn obeys_eq_spec() -> bool {
        true
    }

    open spec fn eq_spec(&self, other: &(u64, u64)) -> bool {
        self.x == other.0 && self.y == other.1 && self.z == 0
    }
}

/// A single number stands for a position on the axis `y == 0`, `z == 0`.
impl PartialEq<u64> for Vec3 {
    fn eq(&self, other: &u64) -> (r: bool) {
        self.x == *other && self.y == 0 && self.z == 0
    }
}

impl PartialEqSpecImpl<u64> for Vec3 {
    open spec fn obeys_eq_spec() -> bool {
        true
    }

    open spec fn eq_spec(&self, other: &u64) -> bool {
        self.x == *other && self.y == 0 && self.z == 0
    }
}

impl PartialEq<u64> for &Vec3 {
    fn eq(&self, other: &u64) -> (r: bool) {
        self.x == *other && self.y == 0 && self.z == 0
    }
}

impl PartialEqSpecImpl<u64> for &Vec3 {
    open spec fn obeys_eq_spec() -> bool {
        true
    }

    open spec fn eq_spec(&self, other: &u64) -> bool {
        self.x == *other && self.y == 0 && self.z == 0
    }
}

impl core::ops::Deref for Thread {
    type Target = Vec3;

    fn deref(&self) -> (r: &Vec3)
        ensures
            *r == self.spec_index(),
    {
        &self.index
    }
}

} // verus!
