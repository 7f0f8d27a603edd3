//! Library-wide laws, stated and proved once over the spec-level model.

use crate::drawer::WebGlCanvasDrawer;
use crate::mesh::color_bytes;
use crate::mesh::index_bytes;
use crate::mesh::vertex_bytes;
use vstd::prelude::*;

verus! {

/// Rendering is deterministic in the cached state: two drawers whose cached
/// mesh and view matrix agree upload bit-identical vertex, color and index
/// buffers and a bit-identical uniform matrix on every `draw` call, so
/// consecutive frames over unchanged state are bit-identical.
pub proof fn lemma_draw_uploads_deterministic(a: WebGlCanvasDrawer, b: WebGlCanvasDrawer)
    requires
        a.mesh() == b.mesh(),
        a.matrix() == b.matrix(),
    ensures
        vertex_bytes(a.mesh().vertices()) == vertex_bytes(b.mesh().vertices()),
        color_bytes(a.mesh().colors()) == color_bytes(b.mesh().colors()),
        index_bytes(a.mesh().indices()) == index_bytes(b.mesh().indices()),
        a.matrix().cols@ == b.matrix().cols@,
{
}

} // verus!
