//! The GPU resource layer and the frame pipeline: shader compilation and
//! linking with fail-fast error reporting, buffer and attribute setup, and the
//! steps of one frame.
//!
//! Every GPU call goes through the trusted wrappers of [`crate::gl`]; what the
//! backend decides (allocation, compile and link status) cannot be promised,
//! so the contracts here pin down everything the library itself decides: which
//! error each failure becomes, which message it carries, and which bytes each
//! upload hands the backend.

use crate::gl;
use crate::mesh::MeshData;
use crate::view::ONE_F32_BITS;
use crate::view::ViewMatrix;
use vstd::array::array_as_slice;
use vstd::prelude::*;

verus! {

/// The vertex shader: consumes the position and color attributes and the view
/// matrix uniform.  This text is one side of the fixed shader ABI; the
/// attribute and uniform names below are the other.
pub const VERTEX_SHADER_SOURCE: &'static str = "#version 300 es
in vec3 position;
in vec4 color;
uniform mat4 viewMatrix;
out vec4 vColor;
void main() {
    vColor = color;
    gl_Position = viewMatrix * vec4(position, 1);
}
";

/// The fragment shader: outputs the interpolated vertex color.
pub const FRAGMENT_SHADER_SOURCE: &'static str = "#version 300 es
precision highp float;
in vec4 vColor;
out vec4 fragColor;
void main() {
    fragColor = vColor;
}
";

/// Shader-side name of the per-vertex position attribute (3 floats).
pub const POSITION_ATTRIBUTE_NAME: &'static str = "position";

/// Shader-side name of the per-vertex color attribute (4 floats).
pub const COLOR_ATTRIBUTE_NAME: &'static str = "color";

/// Shader-side name of the 4×4 view matrix uniform.
pub const VIEW_MATRIX_UNIFORM_NAME: &'static str = "viewMatrix";

/// What went wrong against the GPU backend.  Every kind is terminal for the
/// current frame or drawer: nothing is retried.
#[derive(Clone, Debug, PartialEq, Eq)]
pub enum GlError {
    /// The backend refused or does not support a WebGL2 context.
    ContextAcquisition(String),
    /// The backend reported an unsuccessful compile; the payload is its info
    /// log, or a generic message when it gave none.
    ShaderCompile(String),
    /// The backend reported an unsuccessful link; the payload is its info log,
    /// or a generic message when it gave none.
    ProgramLink(String),
    /// The backend could not allocate a shader, program, vertex array or
    /// buffer object.
    ResourceCreation(String),
}

/// The error a failed shader compile reports: the backend's info log when it
/// gave one, a generic message otherwise.
pub fn shader_compile_error(log: Option<String>) -> (e: GlError)
    ensures
        e matches GlError::ShaderCompile(msg) && msg@ == (match log {
            Some(l) => l@,
            None => "unknown error compiling shader"@,
        }),
{
    match log {
        Some(l) => GlError::ShaderCompile(l),
        None => GlError::ShaderCompile("unknown error compiling shader".to_owned()),
    }
}

/// The error a failed program link reports: the backend's info log when it
/// gave one, a generic message otherwise.
pub fn program_link_error(log: Option<String>) -> (e: GlError)
    ensures
        e matches GlError::ProgramLink(msg) && msg@ == (match log {
            Some(l) => l@,
            None => "unknown error linking program"@,
        }),
{
    match log {
        Some(l) => GlError::ProgramLink(l),
        None => GlError::ProgramLink("unknown error linking program".to_owned()),
    }
}

/// Acquires the WebGL2 context of the canvas and configures it: depth test on
/// (pass when nearer or equal) and back-face culling on.  A refusal by the
/// backend becomes `ContextAcquisition` with the backend's message.
pub fn acquire_rendering_context(canvas: &web_sys::HtmlCanvasElement) -> (r: Result<
    web_sys::WebGl2RenderingContext,
    GlError,
>)
    ensures
        r matches Err(e) ==> e matches GlError::ContextAcquisition(_),
{
    match gl::canvas_get_webgl2_context(canvas) {
        Ok(context) => {
            gl::gl_enable(&context, gl::GL_DEPTH_TEST);
            gl::gl_depth_func(&context, gl::GL_LEQUAL);
            gl::gl_enable(&context, gl::GL_CULL_FACE);
            Ok(context)
        },
        Err(msg) => Err(GlError::ContextAcquisition(msg)),
    }
}

/// Compiles one shader of the given kind from source.  An allocation failure
/// becomes `ResourceCreation`; an unsuccessful compile status becomes
/// `ShaderCompile` carrying the backend's log (or the generic message).
pub fn compile_shader(
    context: &web_sys::WebGl2RenderingContext,
    kind: u32,
    source: &str,
) -> (r: Result<web_sys::WebGlShader, GlError>)
    ensures
        r matches Err(e) ==> (e matches GlError::ShaderCompile(_) || e
            matches GlError::ResourceCreation(_)),
{
    let shader = match gl::gl_create_shader(context, kind) {
        Some(s) => s,
        None => {
            return Err(GlError::ResourceCreation("unable to create shader object".to_owned()));
        },
    };
    gl::gl_shader_source(context, &shader, source);
    gl::gl_compile_shader(context, &shader);
    match gl::gl_shader_compile_status(context, &shader) {
        Some(true) => Ok(shader),
        _ => Err(shader_compile_error(gl::gl_shader_info_log(context, &shader))),
    }
}

/// Links a vertex and a fragment shader into a program.  An allocation failure
/// becomes `ResourceCreation`; an unsuccessful link status becomes
/// `ProgramLink` carrying the backend's log (or the generic message).
pub fn link_program(
    context: &web_sys::WebGl2RenderingContext,
    vertex_shader: &web_sys::WebGlShader,
    fragment_shader: &web_sys::WebGlShader,
) -> (r: Result<web_sys::WebGlProgram, GlError>)
    ensures
        r matches Err(e) ==> (e matches GlError::ProgramLink(_) || e
            matches GlError::ResourceCreation(_)),
{
    let program = match gl::gl_create_program(context) {
        Some(p) => p,
        None => {
            return Err(GlError::ResourceCreation("unable to create program object".to_owned()));
        },
    };
    gl::gl_attach_shader(context, &program, vertex_shader);
    gl::gl_attach_shader(context, &program, fragment_shader);
    gl::gl_link_program(context, &program);
    match gl::gl_program_link_status(context, &program) {
        Some(true) => Ok(program),
        _ => Err(program_link_error(gl::gl_program_info_log(context, &program))),
    }
}

/// Compiles both shaders of the fixed ABI, links them, and makes the program
/// current on the context.
pub fn setup_program(context: &web_sys::WebGl2RenderingContext) -> (r: Result<
    web_sys::WebGlProgram,
    GlError,
>)
    ensures
        r matches Err(e) ==> (e matches GlError::ShaderCompile(_) || e
            matches GlError::ProgramLink(_) || e matches GlError::ResourceCreation(_)),
{
    let vertex_shader = match compile_shader(context, gl::GL_VERTEX_SHADER, VERTEX_SHADER_SOURCE) {
        Ok(s) => s,
        Err(e) => { return Err(e) },
    };
    let fragment_shader = match compile_shader(
        context,
        gl::GL_FRAGMENT_SHADER,
        FRAGMENT_SHADER_SOURCE,
    ) {
        Ok(s) => s,
        Err(e) => { return Err(e) },
    };
    let program = match link_program(context, &vertex_shader, &fragment_shader) {
        Ok(p) => p,
        Err(e) => { return Err(e) },
    };
    gl::gl_use_program(context, &program);
    Ok(program)
}

/// Allocates one vertex array object and makes it current; the drawer's
/// attribute bindings live in it for the whole session.
pub fn setup_vertex_array(context: &web_sys::WebGl2RenderingContext) -> (r: Result<(), GlError>)
    ensures
        r matches Err(e) ==> e matches GlError::ResourceCreation(_),
{
    match gl::gl_create_vertex_array(context) {
        Some(vao) => {
            gl::gl_bind_vertex_array(context, &vao);
            Ok(())
        },
        None => Err(GlError::ResourceCreation("could not create vertex array object".to_owned())),
    }
}

/// Uploads one per-vertex attribute: allocates a buffer, uploads exactly the
/// given bytes as static data, and binds the buffer to the attribute location
/// with `components` floats per vertex, tightly packed.
fn upload_vertex_attribute(
    context: &web_sys::WebGl2RenderingContext,
    bytes: &Vec<u8>,
    location: u32,
    components: i32,
) -> (r: Result<(), GlError>)
    ensures
        r matches Err(e) ==> e matches GlError::ResourceCreation(_),
{
    let buffer = match gl::gl_create_buffer(context) {
        Some(b) => b,
        None => { return Err(GlError::ResourceCreation("failed to create buffer".to_owned())) },
    };
    gl::gl_bind_buffer(context, gl::GL_ARRAY_BUFFER, &buffer);
    gl::gl_buffer_data_bytes(context, gl::GL_ARRAY_BUFFER, bytes.as_slice(), gl::GL_STATIC_DRAW);
    gl::gl_enable_vertex_attrib_array(context, location);
    gl::gl_vertex_attrib_pointer(context, location, components, gl::GL_FLOAT, false, 0, 0);
    Ok(())
}

/// Uploads the mesh's vertex positions to the position attribute.
pub fn set_vertex_data(
    context: &web_sys::WebGl2RenderingContext,
    program: &web_sys::WebGlProgram,
    mesh: &MeshData,
) -> (r: Result<(), GlError>)
    ensures
        r matches Err(e) ==> e matches GlError::ResourceCreation(_),
{
    let location = gl::gl_get_attrib_location(context, program, POSITION_ATTRIBUTE_NAME);
    let bytes = mesh.vertex_buffer_bytes();
    upload_vertex_attribute(context, &bytes, location as u32, 3)
}

/// Uploads the mesh's vertex colors to the color attribute.
pub fn set_color_data(
    context: &web_sys::WebGl2RenderingContext,
    program: &web_sys::WebGlProgram,
    mesh: &MeshData,
) -> (r: Result<(), GlError>)
    ensures
        r matches Err(e) ==> e matches GlError::ResourceCreation(_),
{
    let location = gl::gl_get_attrib_location(context, program, COLOR_ATTRIBUTE_NAME);
    let bytes = mesh.color_buffer_bytes();
    upload_vertex_attribute(context, &bytes, location as u32, 4)
}

/// Uploads the mesh's flattened triangle indices to the element buffer.
pub fn set_ibo_data(
    context: &web_sys::WebGl2RenderingContext,
    mesh: &MeshData,
) -> (r: Result<(), GlError>)
    ensures
        r matches Err(e) ==> e matches GlError::ResourceCreation(_),
{
    let buffer = match gl::gl_create_buffer(context) {
        Some(b) => b,
        None => { return Err(GlError::ResourceCreation("failed to create buffer".to_owned())) },
    };
    gl::gl_bind_buffer(context, gl::GL_ELEMENT_ARRAY_BUFFER, &buffer);
    let bytes = mesh.index_buffer_bytes();
    gl::gl_buffer_data_bytes(
        context,
        gl::GL_ELEMENT_ARRAY_BUFFER,
        bytes.as_slice(),
        gl::GL_STATIC_DRAW,
    );
    Ok(())
}

/// Uploads the cached view matrix bits to the view matrix uniform, column
/// major, untransposed.
pub fn upload_view_matrix(
    context: &web_sys::WebGl2RenderingContext,
    program: &web_sys::WebGlProgram,
    matrix: &ViewMatrix,
) {
    let location = gl::gl_get_uniform_location(context, program, VIEW_MATRIX_UNIFORM_NAME);
    match &location {
        Some(l) => gl::gl_uniform_matrix4fv_bits(context, Some(l), &matrix.cols),
        None => gl::gl_uniform_matrix4fv_bits(context, None, &matrix.cols),
    }
}

/// Clears the frame and issues the draw call: color buffer to opaque black
/// `(0.0, 0.0, 0.0, 1.0)`, depth buffer to the far plane `1.0` (each value an
/// IEEE-754 bit pattern below), then `index_count` elements as triangles, then
/// a flush of the command stream.
pub fn draw_triangles(context: &web_sys::WebGl2RenderingContext, index_count: i32)
    requires
        0 <= index_count,
{
    let clear_color: [u32; 4] = [0, 0, 0, ONE_F32_BITS];
    let clear_depth: [u32; 1] = [ONE_F32_BITS];
    gl::gl_clear_bufferfv_bits(context, gl::GL_COLOR, 0, array_as_slice(&clear_color));
    gl::gl_clear_bufferfv_bits(context, gl::GL_DEPTH, 0, array_as_slice(&clear_depth));
    gl::gl_draw_elements(context, gl::GL_TRIANGLES, index_count, gl::GL_UNSIGNED_SHORT, 0);
    gl::gl_flush(context);
}

} // verus!
