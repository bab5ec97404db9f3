//! "Hash without Sine" (David Hoskins): cheap integer hashes of one to four
//! 32-bit lanes into one to four 32-bit lanes. Each input lane is multiplied
//! by its own odd key, the products are combined with exclusive or, and the
//! combination is multiplied by the key of each output lane; all products
//! wrap around modulo 2^32.

use vstd::prelude::*;
use crate::params::UVec2;

verus! {

/// Key of the first lane.
pub const HASH_KEY_X: u32 = 1597334673;
/// Key of the second lane.
pub const HASH_KEY_Y: u32 = 3812015801;
/// Key of the third lane.
pub const HASH_KEY_Z: u32 = 2798796415;
/// Key of the fourth lane.
pub const HASH_KEY_W: u32 = 1979697957;

/// Three 32-bit lanes.
#[derive(Clone, Copy, PartialEq, Eq, Structural, Debug)]
pub struct UVec3 {
    pub x: u32,
    pub y: u32,
    pub z: u32,
}

/// Four 32-bit lanes.
#[derive(Clone, Copy, PartialEq, Eq, Structural, Debug)]
pub struct UVec4 {
    pub x: u32,
    pub y: u32,
    pub z: u32,
    pub w: u32,
}

/// `a * b` modulo 2^32.
pub open spec fn wmul(a: u32, b: u32) -> u32 {
    ((a as nat * b as nat) % 0x1_0000_0000) as u32
}

/// Two lanes, each multiplied by its key, combined by exclusive or.
pub open spec fn mix2(x: u32, y: u32) -> u32 {
    wmul(x, HASH_KEY_X) ^ wmul(y, HASH_KEY_Y)
}

/// Three lanes, each multiplied by its key, combined by exclusive or.
pub open spec fn mix3(x: u32, y: u32, z: u32) -> u32 {
    mix2(x, y) ^ wmul(z, HASH_KEY_Z)
}

/// Four lanes, each multiplied by its key, combined by exclusive or.
pub open spec fn mix4(x: u32, y: u32, z: u32, w: u32) -> u32 {
    mix3(x, y, z) ^ wmul(w, HASH_KEY_W)
}

/// The output lanes of a hash whose mixed input is `m`: `m` times each lane's key.
pub open spec fn spread2(m: u32) -> UVec2 {
    UVec2 { x: wmul(m, HASH_KEY_X), y: wmul(m, HASH_KEY_Y) }
}

/// Three output lanes of a hash whose mixed input is `m`.
pub open spec fn spread3(m: u32) -> UVec3 {
    UVec3 { x: wmul(m, HASH_KEY_X), y: wmul(m, HASH_KEY_Y), z: wmul(m, HASH_KEY_Z) }
}

/// Four output lanes of a hash whose mixed input is `m`.
pub open spec fn spread4(m: u32) -> UVec4 {
    UVec4 {
        x: wmul(m, HASH_KEY_X),
        y: wmul(m, HASH_KEY_Y),
        z: wmul(m, HASH_KEY_Z),
        w: wmul(m, HASH_KEY_W),
    }
}

fn mul_wrap(a: u32, b: u32) -> (r: u32)
    ensures
        r == wmul(a, b),
{
    a.wrapping_mul(b)
}

fn mix2_exec(x: u32, y: u32) -> (m: u32)
    ensures
        m == mix2(x, y),
{
    mul_wrap(x, HASH_KEY_X) ^ mul_wrap(y, HASH_KEY_Y)
}

fn mix3_exec(x: u32, y: u32, z: u32) -> (m: u32)
    ensures
        m == mix3(x, y, z),
{
    mix2_exec(x, y) ^ mul_wrap(z, HASH_KEY_Z)
}

fn mix4_exec(x: u32, y: u32, z: u32, w: u32) -> (m: u32)
    ensures
        m == mix4(x, y, z, w),
{
    mix3_exec(x, y, z) ^ mul_wrap(w, HASH_KEY_W)
}

/// One lane hashed to one lane.
pub fn uhash11(q: u32) -> (h: u32)
    ensures
        h == wmul(mix2(q, q), HASH_KEY_X),
{
    mul_wrap(mix2_exec(q, q), HASH_KEY_X)
}

/// Two lanes hashed to one lane.
pub fn uhash12(q: UVec2) -> (h: u32)
    ensures
        h == wmul(mix2(q.x, q.y), HASH_KEY_X),
{
    mul_wrap(mix2_exec(q.x, q.y), HASH_KEY_X)
}

/// Three lanes hashed to one lane.
pub fn uhash13(q: UVec3) -> (h: u32)
    ensures
        h == wmul(mix3(q.x, q.y, q.z), HASH_KEY_X),
{
    mul_wrap(mix3_exec(q.x, q.y, q.z), HASH_KEY_X)
}

/// Four lanes hashed to one lane.
pub fn uhash14(q: UVec4) -> (h: u32)
    ensures
        h == wmul(mix4(q.x, q.y, q.z, q.w), HASH_KEY_X),
{
    mul_wrap(mix4_exec(q.x, q.y, q.z, q.w), HASH_KEY_X)
}

/// One lane hashed to two lanes.
pub fn uhash21(q: u32) -> (h: UVec2)
    ensures
        h == spread2(mix2(q, q)),
{
    let m = mix2_exec(q, q);
    UVec2 { x: mul_wrap(m, HASH_KEY_X), y: mul_wrap(m, HASH_KEY_Y) }
}

/// Two lanes hashed to two lanes.
pub fn uhash22(q: UVec2) -> (h: UVec2)
    ensures
        h == spread2(mix2(q.x, q.y)),
{
    let m = mix2_exec(q.x, q.y);
    UVec2 { x: mul_wrap(m, HASH_KEY_X), y: mul_wrap(m, HASH_KEY_Y) }
}

/// Three lanes hashed to two lanes.
pub fn uhash23(q: UVec3) -> (h: UVec2)
    ensures
        h == spread2(mix3(q.x, q.y, q.z)),
{
    let m = mix3_exec(q.x, q.y, q.z);
    UVec2 { x: mul_wrap(m, HASH_KEY_X), y: mul_wrap(m, HASH_KEY_Y) }
}

/// One lane hashed to three lanes.
pub fn uhash31(q: u32) -> (h: UVec3)
    ensures
        h == spread3(mix3(q, q, q)),
{
    let m = mix3_exec(q, q, q);
    UVec3 { x: mul_wrap(m, HASH_KEY_X), y: mul_wrap(m, HASH_KEY_Y), z: mul_wrap(m, HASH_KEY_Z) }
}

/// Two lanes hashed to three lanes; the first lane is fed in twice.
pub fn uhash32(q: UVec2) -> (h: UVec3)
    ensures
        h == spread3(mix3(q.x, q.y, q.x)),
{
    let m = mix3_exec(q.x, q.y, q.x);
    UVec3 { x: mul_wrap(m, HASH_KEY_X), y: mul_wrap(m, HASH_KEY_Y), z: mul_wrap(m, HASH_KEY_Z) }
}

/// Three lanes hashed to three lanes.
pub fn uhash33(q: UVec3) -> (h: UVec3)
    ensures
        h == spread3(mix3(q.x, q.y, q.z)),
{
    let m = mix3_exec(q.x, q.y, q.z);
    UVec3 { x: mul_wrap(m, HASH_KEY_X), y: mul_wrap(m, HASH_KEY_Y), z: mul_wrap(m, HASH_KEY_Z) }
}

/// Four lanes hashed to four lanes.
pub fn uhash44(q: UVec4) -> (h: UVec4)
    ensures
        h == spread4(mix4(q.x, q.y, q.z, q.w)),
{
    let m = mix4_exec(q.x, q.y, q.z, q.w);
    UVec4 {
        x: mul_wrap(m, HASH_KEY_X),
        y: mul_wrap(m, HASH_KEY_Y),
        z: mul_wrap(m, HASH_KEY_Z),
        w: mul_wrap(m, HASH_KEY_W),
    }
}

} // verus!
