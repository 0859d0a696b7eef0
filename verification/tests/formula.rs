use postfx::call::{quad_vertices, Reply, Request, ShaderStage, FRAMEBUFFER_COMPLETE, NO_ERROR};
use postfx::error::{driver_fault, guard, incompleteness, DriverFault, Error, Incompleteness};
use postfx::grayscales::{
    grayscale, luminance, Color, BLUE_WEIGHT, FRAGMENT_SHADER, GREEN_WEIGHT, RED_WEIGHT,
    VERTEX_SHADER, WEIGHT_UNIT,
};

const FULL: u32 = 10000;

#[test]
fn luminance_of_the_known_colors() {
    assert_eq!(luminance(FULL, 0, 0), 2126);
    assert_eq!(luminance(0, FULL, 0), 7152);
    assert_eq!(luminance(0, 0, FULL), 722);
    assert_eq!(luminance(FULL, FULL, FULL), 10000);
    assert_eq!(luminance(0, 0, 0), 0);
}

#[test]
fn grayscale_of_pure_red() {
    let gray = grayscale(Color { red: FULL, green: 0, blue: 0, alpha: FULL });
    assert_eq!(gray, Color { red: 2126, green: 2126, blue: 2126, alpha: FULL });
}

#[test]
fn grayscale_keeps_alpha() {
    let gray = grayscale(Color { red: 5000, green: 2500, blue: 7500, alpha: 1234 });
    assert_eq!(gray.alpha, 1234);
    assert_eq!(gray.red, gray.green);
    assert_eq!(gray.green, gray.blue);
    assert_eq!(gray.red, (2126 * 5000 + 7152 * 2500 + 722 * 7500) / 10000);
    assert_eq!(gray.red, 3392);
}

#[test]
fn luminance_rounds_down_and_does_not_overflow() {
    assert_eq!(luminance(1, 0, 0), 0);
    assert_eq!(luminance(4, 1, 0), 1);
    assert_eq!(luminance(u32::MAX, u32::MAX, u32::MAX), u32::MAX);
    assert_eq!(luminance(u32::MAX, 0, 0), ((2126u64 * u32::MAX as u64) / 10000) as u32);
    assert_eq!(luminance(777, 777, 777), 777);
}

#[test]
fn luminance_agrees_with_the_formula_in_floating_point() {
    let triples = [(1.0, 0.0, 0.0), (0.0, 1.0, 0.0), (0.0, 0.0, 1.0), (1.0, 1.0, 1.0), (0.0, 0.0, 0.0),
        (0.25, 0.5, 0.75), (0.9, 0.1, 0.3)];
    let expected = [0.2126, 0.7152, 0.0722, 1.0, 0.0];
    for (i, (r, g, b)) in triples.iter().enumerate() {
        let exact: f64 = 0.2126 * r + 0.7152 * g + 0.0722 * b;
        if i < expected.len() {
            assert!((exact - expected[i]).abs() < 1e-12);
        }
        let fixed = luminance(
            (r * FULL as f64).round() as u32,
            (g * FULL as f64).round() as u32,
            (b * FULL as f64).round() as u32,
        );
        assert!((fixed as f64 / FULL as f64 - exact).abs() < 1e-4);
    }
}

#[test]
fn weights_are_those_of_the_fragment_stage() {
    assert_eq!(RED_WEIGHT + GREEN_WEIGHT + BLUE_WEIGHT, WEIGHT_UNIT);
    assert_eq!((RED_WEIGHT, GREEN_WEIGHT, BLUE_WEIGHT), (2126, 7152, 722));
    assert!(FRAGMENT_SHADER.contains("0.2126 * color.r + 0.7152 * color.g + 0.0722 * color.b"));
    assert!(FRAGMENT_SHADER.contains("gl_FragColor  = vec4(gray, gray, gray, color.a);"));
    assert!(FRAGMENT_SHADER.starts_with("#version 120"));
    assert!(VERTEX_SHADER.starts_with("#version 120"));
    assert!(VERTEX_SHADER.contains("attribute vec2    v_coord;"));
    assert!(VERTEX_SHADER.contains("f_texcoord  = (v_coord + 1.0) / 2.0;"));
    assert!(FRAGMENT_SHADER.contains("uniform sampler2D fbo_texture;"));
}

#[test]
fn quad_covers_the_square() {
    assert_eq!(quad_vertices(), vec![-1, -1, 1, -1, -1, 1, 1, 1]);
}

#[test]
fn guard_lets_a_quiet_driver_pass() {
    let reply = Reply { error: NO_ERROR, value: 0, text: String::new() };
    assert_eq!(guard(&Request::UploadQuad, &reply), Ok(()));
    let named = Reply { error: NO_ERROR, value: 12, text: String::new() };
    assert_eq!(guard(&Request::GenTexture, &named), Ok(()));
}

#[test]
fn guard_refuses_an_error_state() {
    let reply = Reply { error: 0x0502, value: 7, text: String::from("ignored") };
    assert_eq!(
        guard(&Request::LinkProgram { program: 7 }, &reply),
        Err(Error::Driver { call: Request::LinkProgram { program: 7 }, code: 0x0502 })
    );
    assert_eq!(
        guard(&Request::GenBuffer, &reply),
        Err(Error::Driver { call: Request::GenBuffer, code: 0x0502 })
    );
}

#[test]
fn guard_refuses_a_missing_handle() {
    let reply = Reply { error: NO_ERROR, value: 0, text: String::new() };
    for call in [
        Request::GenBuffer,
        Request::GenTexture,
        Request::GenFramebuffer,
        Request::CreateProgram,
        Request::CreateShader { stage: ShaderStage::Fragment },
    ] {
        assert_eq!(guard(&call, &reply), Err(Error::Driver { call: call.clone(), code: NO_ERROR }));
    }
    assert_eq!(guard(&Request::FramebufferStatus, &reply), Ok(()));
    assert_eq!(guard(&Request::LinkStatus { program: 1 }, &reply), Ok(()));
}

#[test]
fn reply_is_read_by_kind() {
    let none = Reply { error: NO_ERROR, value: 0, text: String::new() };
    assert_eq!(none.handle(), None);
    assert_eq!(none.location(), Some(0));
    assert!(!none.flag());
    let some = Reply { error: NO_ERROR, value: 0x7FFF_FFFF, text: String::new() };
    assert_eq!(some.handle(), Some(0x7FFF_FFFF));
    assert_eq!(some.location(), Some(i32::MAX));
    assert!(some.flag());
    let missing = Reply { error: NO_ERROR, value: (-1i32) as u32, text: String::new() };
    assert_eq!(missing.location(), None);
    assert_eq!(missing.handle(), Some(u32::MAX));
    let edge = Reply { error: NO_ERROR, value: 0x8000_0000, text: String::new() };
    assert_eq!(edge.location(), None);
}

#[test]
fn driver_faults_by_name() {
    assert_eq!(driver_fault(NO_ERROR), None);
    assert_eq!(driver_fault(0x0500), Some(DriverFault::InvalidEnum));
    assert_eq!(driver_fault(0x0501), Some(DriverFault::InvalidValue));
    assert_eq!(driver_fault(0x0502), Some(DriverFault::InvalidOperation));
    assert_eq!(driver_fault(0x0503), Some(DriverFault::StackOverflow));
    assert_eq!(driver_fault(0x0504), Some(DriverFault::StackUnderflow));
    assert_eq!(driver_fault(0x0505), Some(DriverFault::OutOfMemory));
    assert_eq!(driver_fault(0x0506), Some(DriverFault::InvalidFramebufferOperation));
    assert_eq!(driver_fault(0x0507), Some(DriverFault::ContextLost));
    assert_eq!(driver_fault(1), Some(DriverFault::Unknown));
    assert_eq!(driver_fault(u32::MAX), Some(DriverFault::Unknown));
}

#[test]
fn incompleteness_by_name() {
    assert_eq!(incompleteness(FRAMEBUFFER_COMPLETE), None);
    assert_eq!(incompleteness(0x8219), Some(Incompleteness::Undefined));
    assert_eq!(incompleteness(0x8CD6), Some(Incompleteness::Attachment));
    assert_eq!(incompleteness(0x8CD7), Some(Incompleteness::MissingAttachment));
    assert_eq!(incompleteness(0x8CDB), Some(Incompleteness::DrawBuffer));
    assert_eq!(incompleteness(0x8CDC), Some(Incompleteness::ReadBuffer));
    assert_eq!(incompleteness(0x8CDD), Some(Incompleteness::Unsupported));
    assert_eq!(incompleteness(0x8D56), Some(Incompleteness::Multisample));
    assert_eq!(incompleteness(0x8DA8), Some(Incompleteness::LayerTargets));
    assert_eq!(incompleteness(0), Some(Incompleteness::Unknown));
}

#[test]
fn numbers_are_those_of_the_driver_interface() {
    assert_eq!(NO_ERROR, gl::NO_ERROR);
    assert_eq!(FRAMEBUFFER_COMPLETE, gl::FRAMEBUFFER_COMPLETE);
    assert_eq!(driver_fault(gl::INVALID_ENUM), Some(DriverFault::InvalidEnum));
    assert_eq!(driver_fault(gl::INVALID_VALUE), Some(DriverFault::InvalidValue));
    assert_eq!(driver_fault(gl::INVALID_OPERATION), Some(DriverFault::InvalidOperation));
    assert_eq!(driver_fault(gl::STACK_OVERFLOW), Some(DriverFault::StackOverflow));
    assert_eq!(driver_fault(gl::STACK_UNDERFLOW), Some(DriverFault::StackUnderflow));
    assert_eq!(driver_fault(gl::OUT_OF_MEMORY), Some(DriverFault::OutOfMemory));
    assert_eq!(
        driver_fault(gl::INVALID_FRAMEBUFFER_OPERATION),
        Some(DriverFault::InvalidFramebufferOperation)
    );
    assert_eq!(driver_fault(gl::CONTEXT_LOST), Some(DriverFault::ContextLost));
    assert_eq!(incompleteness(gl::FRAMEBUFFER_UNDEFINED), Some(Incompleteness::Undefined));
    assert_eq!(
        incompleteness(gl::FRAMEBUFFER_INCOMPLETE_ATTACHMENT),
        Some(Incompleteness::Attachment)
    );
    assert_eq!(
        incompleteness(gl::FRAMEBUFFER_INCOMPLETE_MISSING_ATTACHMENT),
        Some(Incompleteness::MissingAttachment)
    );
    assert_eq!(
        incompleteness(gl::FRAMEBUFFER_INCOMPLETE_DRAW_BUFFER),
        Some(Incompleteness::DrawBuffer)
    );
    assert_eq!(
        incompleteness(gl::FRAMEBUFFER_INCOMPLETE_READ_BUFFER),
        Some(Incompleteness::ReadBuffer)
    );
    assert_eq!(incompleteness(gl::FRAMEBUFFER_UNSUPPORTED), Some(Incompleteness::Unsupported));
    assert_eq!(
        incompleteness(gl::FRAMEBUFFER_INCOMPLETE_MULTISAMPLE),
        Some(Incompleteness::Multisample)
    );
    assert_eq!(
        incompleteness(gl::FRAMEBUFFER_INCOMPLETE_LAYER_TARGETS),
        Some(Incompleteness::LayerTargets)
    );
}

#[test]
fn diagnostics_name_the_failure_and_carry_the_log() {
    let error = Error::Compile { stage: ShaderStage::Vertex, log: String::from("0:1: bad\nline 2") };
    assert_eq!(error.diagnostic(), "vertex shader does not compile:\n0:1: bad\nline 2");
    let error = Error::Compile { stage: ShaderStage::Fragment, log: String::new() };
    assert_eq!(error.diagnostic(), "fragment shader does not compile:\n");
    let error = Error::Link { log: String::from("unresolved varying") };
    assert_eq!(error.diagnostic(), "shader program does not link:\nunresolved varying");
    assert!(error.diagnostic().ends_with("unresolved varying"));
    let error = Error::Resolution { name: String::from("image") };
    assert_eq!(error.diagnostic(), "shader program has no variable image");
}

#[test]
fn diagnostics_name_the_call_and_the_error_state() {
    let error = Error::Driver { call: Request::LinkProgram { program: 7 }, code: 0x0502 };
    assert_eq!(error.diagnostic(), "link program: invalid operation, error 1282");
    let error = Error::Driver { call: Request::GenBuffer, code: NO_ERROR };
    assert_eq!(error.diagnostic(), "generate buffer: no object, error 0");
    let error = Error::Driver { call: Request::UploadQuad, code: 4000000000 };
    assert_eq!(error.diagnostic(), "upload quad: unknown error, error 4000000000");
    let error = Error::Driver { call: Request::Clear { color: true, depth: true }, code: 10 };
    assert_eq!(error.diagnostic(), "clear: unknown error, error 10");
}

#[test]
fn diagnostics_name_the_reason_of_an_incomplete_framebuffer() {
    let error = Error::Framebuffer { status: 0x8CDD };
    assert_eq!(error.diagnostic(), "framebuffer is not complete: unsupported, status 36061");
    let error = Error::Framebuffer { status: 7 };
    assert_eq!(error.diagnostic(), "framebuffer is not complete: unknown status, status 7");
}

#[test]
fn operations_and_states_in_words() {
    assert_eq!(Request::GenTexture.operation(), "generate texture");
    assert_eq!(Request::DrawTriangleStrip { first: 0, count: 4 }.operation(), "draw triangle strip");
    assert_eq!(
        Request::ShaderSource { shader: 1, source: String::from("void main() {}") }.operation(),
        "set shader source"
    );
    assert_eq!(DriverFault::OutOfMemory.describe(), "out of memory");
    assert_eq!(Incompleteness::MissingAttachment.describe(), "missing attachment");
}
