//! Matrices, quaternions and positions as they cross the boundary of the
//! library: flat arrays whose element order is fixed.
//!
//! A 4×4 matrix is sixteen elements, column after column. A quaternion is
//! four elements in the order x, y, z, w. A position is three elements.
//! Nothing here computes with the elements: each function only says which
//! element goes where.

use vstd::prelude::*;
use crate::model::Single;
use crate::model::ONE;
use crate::model::ZERO;

verus! {

/// A 4×4 matrix held as its four columns.
#[derive(Copy, Clone, Debug, PartialEq, Eq)]
pub struct Matrix4 {
    pub x: [Single; 4],
    pub y: [Single; 4],
    pub z: [Single; 4],
    pub w: [Single; 4],
}

/// A quaternion held as its scalar part and its vector part.
#[derive(Copy, Clone, Debug, PartialEq, Eq)]
pub struct Quaternion {
    /// The scalar part, w.
    pub s: Single,
    /// The vector part: x, y, z.
    pub v: [Single; 3],
}

/// The matrix whose columns are the four quarters of a flat array, in order.
pub open spec fn matrix_of(raw: [Single; 16]) -> Matrix4 {
    Matrix4 {
        x: [raw[0], raw[1], raw[2], raw[3]],
        y: [raw[4], raw[5], raw[6], raw[7]],
        z: [raw[8], raw[9], raw[10], raw[11]],
        w: [raw[12], raw[13], raw[14], raw[15]],
    }
}

/// The flat array of a matrix: its columns one after the other.
pub open spec fn uniform_of(m: Matrix4) -> [Single; 16] {
    [
        m.x[0], m.x[1], m.x[2], m.x[3],
        m.y[0], m.y[1], m.y[2], m.y[3],
        m.z[0], m.z[1], m.z[2], m.z[3],
        m.w[0], m.w[1], m.w[2], m.w[3],
    ]
}

/// The matrix whose columns are the four rows of a nested array.
pub open spec fn matrix_of_columns(raw: [[Single; 4]; 4]) -> Matrix4 {
    Matrix4 { x: raw[0], y: raw[1], z: raw[2], w: raw[3] }
}

/// The nested array whose rows are the four quarters of a flat array, in order.
pub open spec fn columns_of(raw: [Single; 16]) -> [[Single; 4]; 4] {
    [
        [raw[0], raw[1], raw[2], raw[3]],
        [raw[4], raw[5], raw[6], raw[7]],
        [raw[8], raw[9], raw[10], raw[11]],
        [raw[12], raw[13], raw[14], raw[15]],
    ]
}

/// The quaternion of a wire array x, y, z, w: the last element is the scalar part.
pub open spec fn quaternion_of(raw: [Single; 4]) -> Quaternion {
    Quaternion { s: raw[3], v: [raw[0], raw[1], raw[2]] }
}

/// The wire array x, y, z, w of a quaternion.
pub open spec fn wire_of(q: Quaternion) -> [Single; 4] {
    [q.v[0], q.v[1], q.v[2], q.s]
}

/// The matrix that moves every point by a vector: the identity, with the
/// vector in the first three places of the last column.
pub open spec fn translation_of(raw: [Single; 3]) -> Matrix4 {
    Matrix4 {
        x: [ONE, ZERO, ZERO, ZERO],
        y: [ZERO, ONE, ZERO, ZERO],
        z: [ZERO, ZERO, ONE, ZERO],
        w: [raw[0], raw[1], raw[2], ONE],
    }
}

/// Reads a flat column-major array as a matrix.
pub fn vec_to_matrix(raw: &[Single; 16]) -> (m: Matrix4)
    ensures
        m == matrix_of(*raw),
{
    Matrix4 {
        x: [raw[0], raw[1], raw[2], raw[3]],
        y: [raw[4], raw[5], raw[6], raw[7]],
        z: [raw[8], raw[9], raw[10], raw[11]],
        w: [raw[12], raw[13], raw[14], raw[15]],
    }
}

/// Reads an array of four columns as a matrix.
pub fn vec2_to_matrix(raw: &[[Single; 4]; 4]) -> (m: Matrix4)
    ensures
        m == matrix_of_columns(*raw),
{
    Matrix4 { x: raw[0], y: raw[1], z: raw[2], w: raw[3] }
}

/// Cuts a flat column-major array into its four columns.
pub fn vec_to_uniform(raw: &[Single; 16]) -> (columns: [[Single; 4]; 4])
    ensures
        columns == columns_of(*raw),
{
    [
        [raw[0], raw[1], raw[2], raw[3]],
        [raw[4], raw[5], raw[6], raw[7]],
        [raw[8], raw[9], raw[10], raw[11]],
        [raw[12], raw[13], raw[14], raw[15]],
    ]
}

/// Writes a matrix as a flat column-major array.
pub fn matrix_to_uniform(matrix: &Matrix4) -> (raw: [Single; 16])
    ensures
        raw == uniform_of(*matrix),
{
    [
        matrix.x[0], matrix.x[1], matrix.x[2], matrix.x[3],
        matrix.y[0], matrix.y[1], matrix.y[2], matrix.y[3],
        matrix.z[0], matrix.z[1], matrix.z[2], matrix.z[3],
        matrix.w[0], matrix.w[1], matrix.w[2], matrix.w[3],
    ]
}

/// Reads a wire array x, y, z, w as a quaternion.
pub fn vec_to_quaternion(raw: &[Single; 4]) -> (q: Quaternion)
    ensures
        q == quaternion_of(*raw),
{
    Quaternion { s: raw[3], v: [raw[0], raw[1], raw[2]] }
}

/// Writes a quaternion as a wire array x, y, z, w.
pub fn quaternion_to_vec(q: &Quaternion) -> (raw: [Single; 4])
    ensures
        raw == wire_of(*q),
{
    [q.v[0], q.v[1], q.v[2], q.s]
}

/// The translation by a position.
pub fn vec_to_translation(raw: &[Single; 3]) -> (m: Matrix4)
    ensures
        m == translation_of(*raw),
{
    Matrix4 {
        x: [ONE, ZERO, ZERO, ZERO],
        y: [ZERO, ONE, ZERO, ZERO],
        z: [ZERO, ZERO, ONE, ZERO],
        w: [raw[0], raw[1], raw[2], ONE],
    }
}

/// A matrix written to its flat array and read back is the same matrix, and a
/// flat array read as a matrix and written back is the same array, bit for bit.
pub proof fn law_matrix_round_trip(m: Matrix4, raw: [Single; 16])
    ensures
        matrix_of(uniform_of(m)) == m,
        uniform_of(matrix_of(raw)) == raw,
{
    let back = matrix_of(uniform_of(m));
    assert(back.x =~= m.x);
    assert(back.y =~= m.y);
    assert(back.z =~= m.z);
    assert(back.w =~= m.w);
    assert(uniform_of(matrix_of(raw)) =~= raw);
}

/// A flat array cut into columns and read as a matrix is the matrix of the flat array.
pub proof fn law_columns_agree(raw: [Single; 16])
    ensures
        matrix_of_columns(columns_of(raw)) == matrix_of(raw),
{
}

/// A quaternion written to its wire array and read back is the same
/// quaternion, and a wire array read as a quaternion and written back is the
/// same array, bit for bit.
pub proof fn law_quaternion_round_trip(q: Quaternion, raw: [Single; 4])
    ensures
        quaternion_of(wire_of(q)) == q,
        wire_of(quaternion_of(raw)) == raw,
{
    assert(quaternion_of(wire_of(q)).v =~= q.v);
    assert(wire_of(quaternion_of(raw)) =~= raw);
}

} // verus!
