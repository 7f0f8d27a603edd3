//! The view state and the view matrix.
//!
//! The camera is fixed at position `(0, 0, 1)`, looking at the origin with up
//! `+y`; all interactivity is a rotation about a caller-supplied axis.  Matrix
//! entries are IEEE-754 bit patterns of 32-bit floats in column-major order.
//! Composing the look-at matrix with the rotation is floating-point work, so
//! the host computes the composed matrix and hands its bits in; the library
//! caches them and re-uploads the identical bits on every frame.

use vstd::prelude::*;

verus! {

/// Bit pattern of the 32-bit float `1.0`.
pub const ONE_F32_BITS: u32 = 0x3F80_0000;

/// Bit pattern of the 32-bit float `-1.0`.
pub const NEG_ONE_F32_BITS: u32 = 0xBF80_0000;

/// The cached rotation: an axis (three coordinate bit patterns) and an angle
/// in radians (one bit pattern).  The axis must not be the zero vector; the
/// rotation about a zero axis is undefined, and callers must keep it out.
#[derive(Clone, Copy, Debug, PartialEq, Eq)]
pub struct ViewState {
    /// Bit patterns of the rotation axis coordinates.
    pub axis: [u32; 3],
    /// Bit pattern of the rotation angle in radians.
    pub radians: u32,
}

/// A 4×4 view matrix in column-major order, one bit pattern per entry.
#[derive(Clone, Copy, Debug, PartialEq, Eq)]
pub struct ViewMatrix {
    /// The sixteen entries, column by column.
    pub cols: [u32; 16],
}

/// Every coordinate of the axis is a (positive or negative) float zero: all
/// bits but the sign bit clear.
pub open spec fn axis_bits_all_zero(axis: Seq<u32>) -> bool {
    forall|j: int| 0 <= j < axis.len() ==> (#[trigger] axis[j] & 0x7FFF_FFFF) == 0
}

/// The default rotation: angle `0.0` about the `+z` axis `(0.0, 0.0, 1.0)`.
pub open spec fn is_default_view(v: ViewState) -> bool {
    &&& v.axis@[0] == 0
    &&& v.axis@[1] == 0
    &&& v.axis@[2] == ONE_F32_BITS
    &&& v.radians == 0
}

/// The entries of the view matrix of the default rotation: the look-at matrix
/// of the fixed camera composed with the identity rotation.  For the camera at
/// `(0, 0, 1)` looking at the origin with up `+y` that is the identity matrix
/// with a translation of `-1.0` along `z` (entry 14 in column-major order).
pub open spec fn default_view_matrix_bits() -> Seq<u32> {
    seq![
        ONE_F32_BITS, 0u32, 0u32, 0u32,
        0u32, ONE_F32_BITS, 0u32, 0u32,
        0u32, 0u32, ONE_F32_BITS, 0u32,
        0u32, 0u32, NEG_ONE_F32_BITS, ONE_F32_BITS,
    ]
}

/// The default rotation state.
pub fn default_view_state() -> (v: ViewState)
    ensures
        is_default_view(v),
{
    ViewState { axis: [0, 0, ONE_F32_BITS], radians: 0 }
}

/// The view matrix of the default rotation.
pub fn default_view_matrix() -> (m: ViewMatrix)
    ensures
        m.cols@ == default_view_matrix_bits(),
{
    let m = ViewMatrix {
        cols: [
            ONE_F32_BITS, 0, 0, 0,
            0, ONE_F32_BITS, 0, 0,
            0, 0, ONE_F32_BITS, 0,
            0, 0, NEG_ONE_F32_BITS, ONE_F32_BITS,
        ],
    };
    assert(m.cols@ =~= default_view_matrix_bits());
    m
}

/// Checks that the axis is not the zero vector, the one rotation axis the
/// contract of [`crate::drawer::WebGlCanvasDrawer::set_rotate_angle`] keeps
/// out.  A host reads the axis as floats; the check is on the bits: a float
/// is zero exactly when all bits but its sign bit are clear.
pub fn axis_is_nonzero(axis: &[u32; 3]) -> (r: bool)
    ensures
        r <==> !axis_bits_all_zero(axis@),
{
    let nonzero = (axis[0] & 0x7FFF_FFFF) != 0 || (axis[1] & 0x7FFF_FFFF) != 0 || (axis[2]
        & 0x7FFF_FFFF) != 0;
    proof {
        if !nonzero {
            assert forall|j: int| 0 <= j < axis@.len() implies (#[trigger] axis@[j] & 0x7FFF_FFFF)
                == 0 by {
                assert(j == 0 || j == 1 || j == 2);
            }
        }
    }
    nonzero
}

} // verus!
