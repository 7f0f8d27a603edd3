//! The trusted boundary to the WebGL2 backend.
//!
//! Every function here wraps exactly one call into `web_sys` (plus the
//! conversions of its arguments and result) and is believed, not verified:
//! the GPU context is outside state, so almost nothing can be promised about
//! what a call returns.  Buffer contents cross this boundary as plain bytes
//! or as `u32` bit patterns, which the wrappers reinterpret bit for bit as
//! 32-bit floats for the backend; the bytes and bits themselves are computed
//! and specified exactly in verified code.

use vstd::prelude::*;
use wasm_bindgen::JsCast;

verus! {

/// GL enum value `VERTEX_SHADER`, as the WebGL specification fixes it.
pub const GL_VERTEX_SHADER: u32 = 0x8B31;

/// GL enum value `FRAGMENT_SHADER`.
pub const GL_FRAGMENT_SHADER: u32 = 0x8B30;

/// GL capability `DEPTH_TEST`.
pub const GL_DEPTH_TEST: u32 = 0x0B71;

/// GL depth function `LEQUAL`: pass when nearer or equal.
pub const GL_LEQUAL: u32 = 0x0203;

/// GL capability `CULL_FACE`.
pub const GL_CULL_FACE: u32 = 0x0B44;

/// GL buffer target `ARRAY_BUFFER`.
pub const GL_ARRAY_BUFFER: u32 = 0x8892;

/// GL buffer target `ELEMENT_ARRAY_BUFFER`.
pub const GL_ELEMENT_ARRAY_BUFFER: u32 = 0x8893;

/// GL buffer usage `STATIC_DRAW`: rewritten on data change, not per frame.
pub const GL_STATIC_DRAW: u32 = 0x88E4;

/// GL attribute component type `FLOAT`.
pub const GL_FLOAT: u32 = 0x1406;

/// GL primitive mode `TRIANGLES`.
pub const GL_TRIANGLES: u32 = 0x0004;

/// GL element type `UNSIGNED_SHORT`.
pub const GL_UNSIGNED_SHORT: u32 = 0x1403;

/// GL clear-buffer selector `COLOR`.
pub const GL_COLOR: u32 = 0x1800;

/// GL clear-buffer selector `DEPTH`.
pub const GL_DEPTH: u32 = 0x1801;

#[verifier::external_type_specification]
#[verifier::external_body]
pub struct ExHtmlCanvasElement(web_sys::HtmlCanvasElement);

#[verifier::external_type_specification]
#[verifier::external_body]
pub struct ExWebGl2RenderingContext(web_sys::WebGl2RenderingContext);

#[verifier::external_type_specification]
#[verifier::external_body]
pub struct ExWebGlShader(web_sys::WebGlShader);

#[verifier::external_type_specification]
#[verifier::external_body]
pub struct ExWebGlProgram(web_sys::WebGlProgram);

#[verifier::external_type_specification]
#[verifier::external_body]
pub struct ExWebGlVertexArrayObject(web_sys::WebGlVertexArrayObject);

#[verifier::external_type_specification]
#[verifier::external_body]
pub struct ExWebGlBuffer(web_sys::WebGlBuffer);

#[verifier::external_type_specification]
#[verifier::external_body]
pub struct ExWebGlUniformLocation(web_sys::WebGlUniformLocation);

/// Relies on `web_sys::HtmlCanvasElement::get_context` with `"webgl2"` (and
/// the cast of the returned object): yields the canvas's WebGL2 context, or an
/// error message when the backend refuses or does not support one.
#[verifier::external_body]
pub(crate) fn canvas_get_webgl2_context(canvas: &web_sys::HtmlCanvasElement) -> (r: Result<
    web_sys::WebGl2RenderingContext,
    String,
>) {
    match canvas.get_context("webgl2") {
        Ok(Some(obj)) => obj.dyn_into::<web_sys::WebGl2RenderingContext>().map_err(
            |_| "the returned rendering context is not webgl2".to_owned(),
        ),
        Ok(None) => Err("the canvas does not support webgl2".to_owned()),
        Err(e) => Err(format!("context acquisition failed: {:?}", e)),
    }
}

/// Relies on `web_sys::WebGl2RenderingContext::enable`: turns the capability on.
#[verifier::external_body]
pub(crate) fn gl_enable(context: &web_sys::WebGl2RenderingContext, capability: u32) {
    context.enable(capability);
}

/// Relies on `web_sys::WebGl2RenderingContext::depth_func`: sets the depth test.
#[verifier::external_body]
pub(crate) fn gl_depth_func(context: &web_sys::WebGl2RenderingContext, func: u32) {
    context.depth_func(func);
}

/// Relies on `web_sys::WebGl2RenderingContext::create_shader`: `None` when the
/// backend cannot allocate a shader object.
#[verifier::external_body]
pub(crate) fn gl_create_shader(context: &web_sys::WebGl2RenderingContext, kind: u32) -> (r: Option<
    web_sys::WebGlShader,
>) {
    context.create_shader(kind)
}

/// Relies on `web_sys::WebGl2RenderingContext::shader_source`: replaces the
/// shader's source text.
#[verifier::external_body]
pub(crate) fn gl_shader_source(
    context: &web_sys::WebGl2RenderingContext,
    shader: &web_sys::WebGlShader,
    source: &str,
) {
    context.shader_source(shader, source);
}

/// Relies on `web_sys::WebGl2RenderingContext::compile_shader`.
#[verifier::external_body]
pub(crate) fn gl_compile_shader(
    context: &web_sys::WebGl2RenderingContext,
    shader: &web_sys::WebGlShader,
) {
    context.compile_shader(shader);
}

/// Relies on `web_sys::WebGl2RenderingContext::get_shader_parameter` with
/// `COMPILE_STATUS`, whose result is a boolean JS value; `None` when the
/// backend returned something else.
#[verifier::external_body]
pub(crate) fn gl_shader_compile_status(
    context: &web_sys::WebGl2RenderingContext,
    shader: &web_sys::WebGlShader,
) -> (r: Option<bool>) {
    context.get_shader_parameter(shader, web_sys::WebGl2RenderingContext::COMPILE_STATUS).as_bool()
}

/// Relies on `web_sys::WebGl2RenderingContext::get_shader_info_log`.
#[verifier::external_body]
pub(crate) fn gl_shader_info_log(
    context: &web_sys::WebGl2RenderingContext,
    shader: &web_sys::WebGlShader,
) -> (r: Option<String>) {
    context.get_shader_info_log(shader)
}

/// Relies on `web_sys::WebGl2RenderingContext::create_program`: `None` when
/// the backend cannot allocate a program object.
#[verifier::external_body]
pub(crate) fn gl_create_program(context: &web_sys::WebGl2RenderingContext) -> (r: Option<
    web_sys::WebGlProgram,
>) {
    context.create_program()
}

/// Relies on `web_sys::WebGl2RenderingContext::attach_shader`.
#[verifier::external_body]
pub(crate) fn gl_attach_shader(
    context: &web_sys::WebGl2RenderingContext,
    program: &web_sys::WebGlProgram,
    shader: &web_sys::WebGlShader,
) {
    context.attach_shader(program, shader);
}

/// Relies on `web_sys::WebGl2RenderingContext::link_program`.
#[verifier::external_body]
pub(crate) fn gl_link_program(
    context: &web_sys::WebGl2RenderingContext,
    program: &web_sys::WebGlProgram,
) {
    context.link_program(program);
}

/// Relies on `web_sys::WebGl2RenderingContext::get_program_parameter` with
/// `LINK_STATUS`, whose result is a boolean JS value; `None` when the backend
/// returned something else.
#[verifier::external_body]
pub(crate) fn gl_program_link_status(
    context: &web_sys::WebGl2RenderingContext,
    program: &web_sys::WebGlProgram,
) -> (r: Option<bool>) {
    context.get_program_parameter(program, web_sys::WebGl2RenderingContext::LINK_STATUS).as_bool()
}

/// Relies on `web_sys::WebGl2RenderingContext::get_program_info_log`.
#[verifier::external_body]
pub(crate) fn gl_program_info_log(
    context: &web_sys::WebGl2RenderingContext,
    program: &web_sys::WebGlProgram,
) -> (r: Option<String>) {
    context.get_program_info_log(program)
}

/// Relies on `web_sys::WebGl2RenderingContext::use_program`: makes the program
/// current on the context.
#[verifier::external_body]
pub(crate) fn gl_use_program(
    context: &web_sys::WebGl2RenderingContext,
    program: &web_sys::WebGlProgram,
) {
    context.use_program(Some(program));
}

/// Relies on `web_sys::WebGl2RenderingContext::create_vertex_array`: `None`
/// when the backend cannot allocate a vertex array object.
#[verifier::external_body]
pub(crate) fn gl_create_vertex_array(context: &web_sys::WebGl2RenderingContext) -> (r: Option<
    web_sys::WebGlVertexArrayObject,
>) {
    context.create_vertex_array()
}

/// Relies on `web_sys::WebGl2RenderingContext::bind_vertex_array`.
#[verifier::external_body]
pub(crate) fn gl_bind_vertex_array(
    context: &web_sys::WebGl2RenderingContext,
    vao: &web_sys::WebGlVertexArrayObject,
) {
    context.bind_vertex_array(Some(vao));
}

/// Relies on `web_sys::WebGl2RenderingContext::create_buffer`: `None` when the
/// backend cannot allocate a buffer object.
#[verifier::external_body]
pub(crate) fn gl_create_buffer(context: &web_sys::WebGl2RenderingContext) -> (r: Option<
    web_sys::WebGlBuffer,
>) {
    context.create_buffer()
}

/// Relies on `web_sys::WebGl2RenderingContext::bind_buffer`: makes the buffer
/// current on the target.
#[verifier::external_body]
pub(crate) fn gl_bind_buffer(
    context: &web_sys::WebGl2RenderingContext,
    target: u32,
    buffer: &web_sys::WebGlBuffer,
) {
    context.bind_buffer(target, Some(buffer));
}

/// Relies on `web_sys::WebGl2RenderingContext::buffer_data_with_u8_array`:
/// uploads exactly the given bytes to the buffer currently bound to the target.
#[verifier::external_body]
pub(crate) fn gl_buffer_data_bytes(
    context: &web_sys::WebGl2RenderingContext,
    target: u32,
    bytes: &[u8],
    usage: u32,
) {
    context.buffer_data_with_u8_array(target, bytes, usage);
}

/// Relies on `web_sys::WebGl2RenderingContext::enable_vertex_attrib_array`.
#[verifier::external_body]
pub(crate) fn gl_enable_vertex_attrib_array(
    context: &web_sys::WebGl2RenderingContext,
    location: u32,
) {
    context.enable_vertex_attrib_array(location);
}

/// Relies on `web_sys::WebGl2RenderingContext::vertex_attrib_pointer_with_i32`:
/// binds the current array buffer to the attribute location with the given
/// component count, type, stride and offset.
#[verifier::external_body]
pub(crate) fn gl_vertex_attrib_pointer(
    context: &web_sys::WebGl2RenderingContext,
    location: u32,
    size: i32,
    component_type: u32,
    normalized: bool,
    stride: i32,
    offset: i32,
) {
    context.vertex_attrib_pointer_with_i32(location, size, component_type, normalized, stride, offset);
}

/// Relies on `web_sys::WebGl2RenderingContext::get_attrib_location`: the
/// attribute's location in the linked program, or `-1` when it has none.
#[verifier::external_body]
pub(crate) fn gl_get_attrib_location(
    context: &web_sys::WebGl2RenderingContext,
    program: &web_sys::WebGlProgram,
    name: &str,
) -> (r: i32) {
    context.get_attrib_location(program, name)
}

/// Relies on `web_sys::WebGl2RenderingContext::get_uniform_location`: `None`
/// when the linked program has no uniform of that name.
#[verifier::external_body]
pub(crate) fn gl_get_uniform_location(
    context: &web_sys::WebGl2RenderingContext,
    program: &web_sys::WebGlProgram,
    name: &str,
) -> (r: Option<web_sys::WebGlUniformLocation>) {
    context.get_uniform_location(program, name)
}

/// Relies on `web_sys::WebGl2RenderingContext::uniform_matrix4fv_with_js_f32_array`
/// (and `js_sys` typed-array views): uploads the sixteen 32-bit words to the
/// uniform, reinterpreted bit for bit as floats, without transposition.
#[verifier::external_body]
pub(crate) fn gl_uniform_matrix4fv_bits(
    context: &web_sys::WebGl2RenderingContext,
    location: Option<&web_sys::WebGlUniformLocation>,
    column_major_bits: &[u32; 16],
) {
    let words = js_sys::Uint32Array::from(&column_major_bits[..]);
    let buffer: wasm_bindgen::JsValue = words.buffer().into();
    let floats = js_sys::Float32Array::new(&buffer);
    context.uniform_matrix4fv_with_js_f32_array(location, false, &floats);
}

/// Relies on `web_sys::WebGl2RenderingContext::clear_bufferfv_with_js_f32_array`
/// (and `js_sys` typed-array views): clears the selected buffer of the draw
/// target to the given values, each a 32-bit word reinterpreted bit for bit as
/// a float.
#[verifier::external_body]
pub(crate) fn gl_clear_bufferfv_bits(
    context: &web_sys::WebGl2RenderingContext,
    buffer: u32,
    drawbuffer: i32,
    value_bits: &[u32],
) {
    let words = js_sys::Uint32Array::from(value_bits);
    let raw: wasm_bindgen::JsValue = words.buffer().into();
    let floats = js_sys::Float32Array::new(&raw);
    context.clear_bufferfv_with_js_f32_array(buffer, drawbuffer, &floats);
}

/// Relies on `web_sys::WebGl2RenderingContext::draw_elements_with_i32`: draws
/// `count` elements of the bound element buffer as primitives of the mode.
#[verifier::external_body]
pub(crate) fn gl_draw_elements(
    context: &web_sys::WebGl2RenderingContext,
    mode: u32,
    count: i32,
    element_type: u32,
    offset: i32,
) {
    context.draw_elements_with_i32(mode, count, element_type, offset);
}

/// Relies on `web_sys::WebGl2RenderingContext::flush`: submits the command
/// stream to the backend.
#[verifier::external_body]
pub(crate) fn gl_flush(context: &web_sys::WebGl2RenderingContext) {
    context.flush();
}

} // verus!
