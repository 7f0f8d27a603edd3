//! The stateful canvas drawer: one GPU context, one program, the cached mesh
//! and rotation, and the render-now operation.
//!
//! The drawer has two states.  Before [`WebGlCanvasDrawer::try_new`] succeeds
//! there is no drawer at all (initialization failures return an error and no
//! partial value); afterwards the drawer is ready, with an empty mesh and the
//! default rotation cached.  `set_drawing_data` and `set_rotate_angle` only
//! replace the cached state; rendering is always the separate, explicit
//! [`WebGlCanvasDrawer::draw`] call, which re-uploads the full cached state
//! every time.

use crate::mesh::MeshData;
use crate::mesh::MeshError;
use crate::mesh::mesh_input_valid;
use crate::mesh::flat_indices;
use crate::mesh::triangles_in_bounds;
use crate::pipeline;
use crate::pipeline::GlError;
use crate::view::ViewMatrix;
use crate::view::ViewState;
use crate::view::axis_bits_all_zero;
use crate::view::default_view_matrix;
use crate::view::default_view_matrix_bits;
use crate::view::default_view_state;
use crate::view::is_default_view;
use vstd::prelude::*;

verus! {

/// `try_new` failed; the cause says which initialization step refused.  No
/// drawer exists after this error.
#[derive(Clone, Debug, PartialEq, Eq)]
pub struct InitializationError {
    /// The failing step's own error.
    pub cause: GlError,
}

/// One canvas's renderer: the exclusive owner of a WebGL2 context, a linked
/// program and a vertex array object, plus the cached mesh and rotation state
/// that every [`WebGlCanvasDrawer::draw`] call re-uploads.
pub struct WebGlCanvasDrawer {
    context: web_sys::WebGl2RenderingContext,
    program: web_sys::WebGlProgram,
    mesh: MeshData,
    view: ViewState,
    matrix: ViewMatrix,
}

impl WebGlCanvasDrawer {
    /// The cached mesh.
    pub closed spec fn mesh(self) -> MeshData {
        self.mesh
    }

    /// The cached rotation state.
    pub closed spec fn view(self) -> ViewState {
        self.view
    }

    /// The cached view matrix, as the host computed it for the rotation state.
    pub closed spec fn matrix(self) -> ViewMatrix {
        self.matrix
    }

    /// The GPU handles the drawer owns.
    pub closed spec fn gpu_handles(self) -> (
        web_sys::WebGl2RenderingContext,
        web_sys::WebGlProgram,
    ) {
        (self.context, self.program)
    }

    /// The drawer's invariant: the cached mesh is well formed.  Both
    /// constructors establish it and every method preserves it, so every
    /// drawer a caller can hold satisfies it.
    pub open spec fn wf(self) -> bool {
        self.mesh().wf()
    }

    /// Initializes a drawer on the canvas: acquires and configures the WebGL2
    /// context, compiles and links the shader program, allocates the vertex
    /// array object, and caches the empty mesh and the default rotation.  Any
    /// step failing aborts with that step's error and returns no drawer.
    pub fn try_new(canvas: &web_sys::HtmlCanvasElement) -> (r: Result<
        WebGlCanvasDrawer,
        InitializationError,
    >)
        ensures
            r matches Ok(d) ==> {
                &&& d.mesh().vertices().len() == 0
                &&& d.mesh().colors().len() == 0
                &&& d.mesh().indices().len() == 0
                &&& is_default_view(d.view())
                &&& d.matrix().cols@ == default_view_matrix_bits()
                &&& d.wf()
            },
    {
        let context = match pipeline::acquire_rendering_context(canvas) {
            Ok(c) => c,
            Err(e) => { return Err(InitializationError { cause: e }) },
        };
        let program = match pipeline::setup_program(&context) {
            Ok(p) => p,
            Err(e) => { return Err(InitializationError { cause: e }) },
        };
        match pipeline::setup_vertex_array(&context) {
            Ok(()) => (),
            Err(e) => { return Err(InitializationError { cause: e }) },
        };
        Ok(
            WebGlCanvasDrawer {
                context,
                program,
                mesh: MeshData::empty(),
                view: default_view_state(),
                matrix: default_view_matrix(),
            },
        )
    }

    /// Replaces the cached mesh; does not render.  A mesh whose color count
    /// differs from its vertex count, or with a triangle index at or past the
    /// vertex count, is rejected whole: the cached state does not change and
    /// nothing of it ever reaches the GPU.
    pub fn set_drawing_data(
        &mut self,
        vertex_data: Vec<[u32; 3]>,
        color_data: Vec<[u32; 4]>,
        ibo_data: &[[u16; 3]],
    ) -> (r: Result<(), MeshError>)
        requires
            ibo_data@.len() * 3 <= 0x7FFF_FFFF,
        ensures
            r is Ok <==> mesh_input_valid(vertex_data@, color_data@, ibo_data@),
            r == Err::<(), MeshError>(MeshError::ColorCountMismatch) <==> color_data@.len()
                != vertex_data@.len(),
            r == Err::<(), MeshError>(MeshError::IndexOutOfBounds) <==> (color_data@.len()
                == vertex_data@.len() && !triangles_in_bounds(
                ibo_data@,
                vertex_data@.len() as int,
            )),
            r is Ok ==> {
                &&& final(self).mesh().vertices() == vertex_data@
                &&& final(self).mesh().colors() == color_data@
                &&& final(self).mesh().indices() == flat_indices(ibo_data@)
            },
            r is Err ==> final(self).mesh() == old(self).mesh(),
            final(self).view() == old(self).view(),
            final(self).matrix() == old(self).matrix(),
            final(self).gpu_handles() == old(self).gpu_handles(),
            old(self).wf() ==> final(self).wf(),
    {
        match MeshData::try_new(vertex_data, color_data, ibo_data) {
            Ok(mesh) => {
                self.mesh = mesh;
                Ok(())
            },
            Err(e) => Err(e),
        }
    }

    /// Replaces the cached rotation state; does not render.  The axis must
    /// not be the float zero vector (rotation about it is undefined; check
    /// with [`crate::view::axis_is_nonzero`]).  `view_matrix` is the look-at
    /// and rotation composition for exactly this axis and angle; composing it
    /// is floating-point work, so the host computes it and the drawer caches
    /// its bits for every following frame.
    pub fn set_rotate_angle(&mut self, axis: &[u32; 3], radians: u32, view_matrix: &ViewMatrix)
        requires
            !axis_bits_all_zero(axis@),
        ensures
            final(self).view().axis@ == axis@,
            final(self).view().radians == radians,
            final(self).matrix() == *view_matrix,
            final(self).mesh() == old(self).mesh(),
            final(self).gpu_handles() == old(self).gpu_handles(),
            old(self).wf() ==> final(self).wf(),
    {
        self.view = ViewState { axis: *axis, radians };
        self.matrix = *view_matrix;
    }

    /// Renders one frame from the cached state, in order: upload vertex
    /// positions, colors and indices, upload the view matrix, clear color and
    /// depth, draw every cached index as triangles, flush.  A buffer
    /// allocation failure aborts the frame before its draw call; no other
    /// step of a frame can fail.  The payloads are exact functions of the
    /// cached state (see [`crate::mesh`]), so repeating the call on unchanged
    /// state re-uploads bit-identical data.
    pub fn draw(&self) -> (r: Result<(), GlError>)
        requires
            self.wf(),
        ensures
            r matches Err(e) ==> e matches GlError::ResourceCreation(_),
    {
        match pipeline::set_vertex_data(&self.context, &self.program, &self.mesh) {
            Ok(()) => (),
            Err(e) => { return Err(e) },
        };
        match pipeline::set_color_data(&self.context, &self.program, &self.mesh) {
            Ok(()) => (),
            Err(e) => { return Err(e) },
        };
        match pipeline::set_ibo_data(&self.context, &self.mesh) {
            Ok(()) => (),
            Err(e) => { return Err(e) },
        };
        pipeline::upload_view_matrix(&self.context, &self.program, &self.matrix);
        let count = self.mesh.index_count();
        pipeline::draw_triangles(&self.context, count as i32);
        Ok(())
    }

    /// How many indices the next frame's draw call covers: three per cached
    /// triangle.
    pub fn index_count(&self) -> (n: usize)
        ensures
            n == self.mesh().indices().len(),
    {
        self.mesh.index_count()
    }
}

} // verus!
