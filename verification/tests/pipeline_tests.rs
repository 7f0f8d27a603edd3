use webgl_canvas::gl;
use webgl_canvas::pipeline::{
    program_link_error, shader_compile_error, GlError, COLOR_ATTRIBUTE_NAME,
    FRAGMENT_SHADER_SOURCE, POSITION_ATTRIBUTE_NAME, VERTEX_SHADER_SOURCE,
    VIEW_MATRIX_UNIFORM_NAME,
};
use web_sys::WebGl2RenderingContext;

#[test]
fn shader_compile_error_carries_backend_log() {
    let e = shader_compile_error(Some("0:1: bad token".to_string()));
    assert_eq!(e, GlError::ShaderCompile("0:1: bad token".to_string()));
}

#[test]
fn shader_compile_error_generic_without_log() {
    let e = shader_compile_error(None);
    assert_eq!(e, GlError::ShaderCompile("unknown error compiling shader".to_string()));
}

#[test]
fn program_link_error_carries_backend_log() {
    let e = program_link_error(Some("varying mismatch".to_string()));
    assert_eq!(e, GlError::ProgramLink("varying mismatch".to_string()));
}

#[test]
fn program_link_error_generic_without_log() {
    let e = program_link_error(None);
    assert_eq!(e, GlError::ProgramLink("unknown error linking program".to_string()));
}

#[test]
fn shader_sources_declare_the_fixed_abi() {
    assert!(VERTEX_SHADER_SOURCE.contains("in vec3 position;"));
    assert!(VERTEX_SHADER_SOURCE.contains("in vec4 color;"));
    assert!(VERTEX_SHADER_SOURCE.contains("uniform mat4 viewMatrix;"));
    assert!(FRAGMENT_SHADER_SOURCE.contains("precision highp float;"));
    assert_eq!(POSITION_ATTRIBUTE_NAME, "position");
    assert_eq!(COLOR_ATTRIBUTE_NAME, "color");
    assert_eq!(VIEW_MATRIX_UNIFORM_NAME, "viewMatrix");
}

#[test]
fn gl_constants_match_the_webgl_bindings() {
    assert_eq!(gl::GL_VERTEX_SHADER, WebGl2RenderingContext::VERTEX_SHADER);
    assert_eq!(gl::GL_FRAGMENT_SHADER, WebGl2RenderingContext::FRAGMENT_SHADER);
    assert_eq!(gl::GL_DEPTH_TEST, WebGl2RenderingContext::DEPTH_TEST);
    assert_eq!(gl::GL_LEQUAL, WebGl2RenderingContext::LEQUAL);
    assert_eq!(gl::GL_CULL_FACE, WebGl2RenderingContext::CULL_FACE);
    assert_eq!(gl::GL_ARRAY_BUFFER, WebGl2RenderingContext::ARRAY_BUFFER);
    assert_eq!(gl::GL_ELEMENT_ARRAY_BUFFER, WebGl2RenderingContext::ELEMENT_ARRAY_BUFFER);
    assert_eq!(gl::GL_STATIC_DRAW, WebGl2RenderingContext::STATIC_DRAW);
    assert_eq!(gl::GL_FLOAT, WebGl2RenderingContext::FLOAT);
    assert_eq!(gl::GL_TRIANGLES, WebGl2RenderingContext::TRIANGLES);
    assert_eq!(gl::GL_UNSIGNED_SHORT, WebGl2RenderingContext::UNSIGNED_SHORT);
    assert_eq!(gl::GL_COLOR, WebGl2RenderingContext::COLOR);
    assert_eq!(gl::GL_DEPTH, WebGl2RenderingContext::DEPTH);
}
