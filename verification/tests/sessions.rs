use postfx::call::{
    Reply, Request, ShaderStage, VariableKind, FRAMEBUFFER_COMPLETE, NO_ERROR,
};
use postfx::effect::{PostProcessingEffect, Scalar};
use postfx::error::Error;
use postfx::grayscales::{Grayscales, GrayscalesBuild, FRAGMENT_SHADER, VERTEX_SHADER};
use postfx::pair::{PingPong, PingPongBuild};
use postfx::pipeline::{destination, source, Destination, Pipeline, Slot};
use postfx::playback::Playback;
use postfx::session::Progress;
use postfx::shader::{ShaderBuild, ShaderProgram, Variable};
use postfx::target::{RenderTarget, RenderTargetBuild};

#[derive(Clone, Copy, Debug, PartialEq, Eq)]
enum Kind {
    Buffer,
    Shader,
    Program,
    Texture,
    Framebuffer,
}

/// A stand-in for the graphics driver. It hands out names, keeps the books of
/// what is live, and records every call that reaches it.
struct Driver {
    next_handle: u32,
    live: Vec<(Kind, u32)>,
    stray_deletes: Vec<(Kind, u32)>,
    stages: Vec<(u32, ShaderStage)>,
    calls: Vec<Request>,
    enabled: Vec<u32>,
    bad_stage: Option<ShaderStage>,
    compiler_log: String,
    link_fails: bool,
    linker_log: String,
    unknown: Vec<String>,
    framebuffer_status: u32,
    incomplete_from: usize,
    status_checks: usize,
    fail_at: Option<(usize, u32)>,
    null_handles: bool,
}

impl Driver {
    fn new() -> Driver {
        Driver {
            next_handle: 1,
            live: Vec::new(),
            stray_deletes: Vec::new(),
            stages: Vec::new(),
            calls: Vec::new(),
            enabled: Vec::new(),
            bad_stage: None,
            compiler_log: String::new(),
            link_fails: false,
            linker_log: String::new(),
            unknown: Vec::new(),
            framebuffer_status: FRAMEBUFFER_COMPLETE,
            incomplete_from: 0,
            status_checks: 0,
            fail_at: None,
            null_handles: false,
        }
    }

    fn create(&mut self, kind: Kind) -> u32 {
        if self.null_handles {
            return 0;
        }
        let name = self.next_handle;
        self.next_handle += 1;
        self.live.push((kind, name));
        name
    }

    fn delete(&mut self, kind: Kind, name: u32) {
        match self.live.iter().position(|object| *object == (kind, name)) {
            Some(at) => {
                self.live.remove(at);
            }
            None => self.stray_deletes.push((kind, name)),
        }
    }

    fn is_live(&self, kind: Kind, name: u32) -> bool {
        self.live.contains(&(kind, name))
    }

    fn perform(&mut self, call: &Request) -> Reply {
        let index = self.calls.len();
        self.calls.push(call.clone());
        if let Some((at, code)) = self.fail_at {
            if at == index {
                return Reply { error: code, value: 0, text: String::new() };
            }
        }
        let mut value: u32 = 0;
        let mut text = String::new();
        match call {
            Request::GenBuffer => value = self.create(Kind::Buffer),
            Request::GenTexture => value = self.create(Kind::Texture),
            Request::GenFramebuffer => value = self.create(Kind::Framebuffer),
            Request::CreateProgram => value = self.create(Kind::Program),
            Request::CreateShader { stage } => {
                value = self.create(Kind::Shader);
                self.stages.push((value, *stage));
            }
            Request::DeleteBuffer { buffer } => self.delete(Kind::Buffer, *buffer),
            Request::DeleteTexture { texture } => self.delete(Kind::Texture, *texture),
            Request::DeleteFramebuffer { framebuffer } => {
                self.delete(Kind::Framebuffer, *framebuffer)
            }
            Request::DeleteProgram { program } => self.delete(Kind::Program, *program),
            Request::DeleteShader { shader } => self.delete(Kind::Shader, *shader),
            Request::CompileStatus { shader } => {
                let stage = self.stages.iter().find(|entry| entry.0 == *shader).map(|entry| entry.1);
                value = if stage.is_some() && stage == self.bad_stage { 0 } else { 1 };
            }
            Request::ShaderLog { .. } => text = self.compiler_log.clone(),
            Request::LinkStatus { .. } => value = if self.link_fails { 0 } else { 1 },
            Request::ProgramLog { .. } => text = self.linker_log.clone(),
            Request::AttribLocation { name, .. } => {
                value = if self.unknown.contains(name) { 0xFFFF_FFFF } else { 3 };
            }
            Request::UniformLocation { name, .. } => {
                value = if self.unknown.contains(name) { 0xFFFF_FFFF } else { 5 };
            }
            Request::FramebufferStatus => {
                self.status_checks += 1;
                value = if self.status_checks > self.incomplete_from {
                    self.framebuffer_status
                } else {
                    FRAMEBUFFER_COMPLETE
                };
            }
            Request::EnableVertexAttrib { index } => self.enabled.push(*index),
            Request::DisableVertexAttrib { index } => self.enabled.retain(|on| on != index),
            _ => {}
        }
        Reply { error: NO_ERROR, value, text }
    }
}

/// What the sessions of the library have in common, for the loop below.
trait Session: Sized {
    type Product;
    fn pending(&self) -> Request;
    fn advance(self, reply: Reply) -> Progress<Self, Self::Product, Error>;
}

impl Session for ShaderBuild {
    type Product = ShaderProgram;
    fn pending(&self) -> Request {
        self.request()
    }
    fn advance(self, reply: Reply) -> Progress<Self, ShaderProgram, Error> {
        self.step(reply)
    }
}

impl Session for RenderTargetBuild {
    type Product = RenderTarget;
    fn pending(&self) -> Request {
        self.request()
    }
    fn advance(self, reply: Reply) -> Progress<Self, RenderTarget, Error> {
        self.step(reply)
    }
}

impl Session for PingPongBuild {
    type Product = PingPong;
    fn pending(&self) -> Request {
        self.request()
    }
    fn advance(self, reply: Reply) -> Progress<Self, PingPong, Error> {
        self.step(reply)
    }
}

impl Session for GrayscalesBuild {
    type Product = Grayscales;
    fn pending(&self) -> Request {
        self.request()
    }
    fn advance(self, reply: Reply) -> Progress<Self, Grayscales, Error> {
        self.step(reply)
    }
}

impl Session for Playback {
    type Product = ();
    fn pending(&self) -> Request {
        self.request()
    }
    fn advance(self, reply: Reply) -> Progress<Self, (), Error> {
        self.step(reply)
    }
}

fn drive<S: Session>(driver: &mut Driver, session: S) -> Result<S::Product, Error> {
    let mut session = session;
    loop {
        let reply = driver.perform(&session.pending());
        match session.advance(reply) {
            Progress::Continue(next) => session = next,
            Progress::Done(product) => return Ok(product),
            Progress::Failed(error) => return Err(error),
        }
    }
}

fn play(driver: &mut Driver, calls: Vec<Request>) -> Result<(), Error> {
    match Playback::start(calls) {
        Progress::Continue(playback) => drive(driver, playback),
        Progress::Done(()) => Ok(()),
        Progress::Failed(error) => Err(error),
    }
}

fn variables() -> Vec<Variable> {
    vec![
        Variable { kind: VariableKind::Attribute, name: String::from("position") },
        Variable { kind: VariableKind::Uniform, name: String::from("image") },
    ]
}

fn build_program(driver: &mut Driver) -> Result<ShaderProgram, Error> {
    drive(
        driver,
        ShaderProgram::build(String::from("vertex text"), String::from("fragment text"), variables()),
    )
}

fn ok(value: u32) -> Reply {
    Reply { error: NO_ERROR, value, text: String::new() }
}

#[test]
fn program_is_built_in_order() {
    let mut driver = Driver::new();
    let program = build_program(&mut driver).unwrap();
    assert_eq!(
        driver.calls,
        vec![
            Request::CreateShader { stage: ShaderStage::Vertex },
            Request::ShaderSource { shader: 1, source: String::from("vertex text") },
            Request::CompileShader { shader: 1 },
            Request::CompileStatus { shader: 1 },
            Request::CreateShader { stage: ShaderStage::Fragment },
            Request::ShaderSource { shader: 2, source: String::from("fragment text") },
            Request::CompileShader { shader: 2 },
            Request::CompileStatus { shader: 2 },
            Request::CreateProgram,
            Request::AttachShader { program: 3, shader: 1 },
            Request::AttachShader { program: 3, shader: 2 },
            Request::LinkProgram { program: 3 },
            Request::LinkStatus { program: 3 },
            Request::AttribLocation { program: 3, name: String::from("position") },
            Request::UniformLocation { program: 3, name: String::from("image") },
        ]
    );
    assert_eq!(program.handle(), 3);
    assert_eq!(program.resolve("position"), Ok(3));
    assert_eq!(program.resolve("image"), Ok(5));
}

#[test]
fn program_without_variables_is_done_after_linking() {
    let mut driver = Driver::new();
    let program = drive(
        &mut driver,
        ShaderProgram::build(String::from("v"), String::from("f"), Vec::new()),
    )
    .unwrap();
    assert_eq!(driver.calls.len(), 13);
    assert_eq!(driver.calls[12], Request::LinkStatus { program: 3 });
    assert_eq!(
        program.resolve("anything"),
        Err(Error::Resolution { name: String::from("anything") })
    );
}

#[test]
fn resolving_a_name_the_program_was_not_built_with_is_refused() {
    let mut driver = Driver::new();
    let program = build_program(&mut driver).unwrap();
    assert_eq!(program.resolve("colour"), Err(Error::Resolution { name: String::from("colour") }));
    assert_eq!(program.resolve(""), Err(Error::Resolution { name: String::new() }));
}

#[test]
fn resolving_finds_the_first_of_two_variables_of_one_name() {
    let mut driver = Driver::new();
    let twice = vec![
        Variable { kind: VariableKind::Uniform, name: String::from("image") },
        Variable { kind: VariableKind::Attribute, name: String::from("image") },
    ];
    let program =
        drive(&mut driver, ShaderProgram::build(String::from("v"), String::from("f"), twice))
            .unwrap();
    assert_eq!(program.resolve("image"), Ok(5));
}

#[test]
fn releasing_a_program_frees_each_object_once() {
    let mut driver = Driver::new();
    let program = build_program(&mut driver).unwrap();
    assert_eq!(driver.live.len(), 3);
    let calls = program.release();
    assert_eq!(
        calls,
        vec![
            Request::DeleteShader { shader: 1 },
            Request::DeleteShader { shader: 2 },
            Request::DeleteProgram { program: 3 },
        ]
    );
    play(&mut driver, calls).unwrap();
    assert!(driver.live.is_empty());
    assert!(driver.stray_deletes.is_empty());
    assert!(!driver.is_live(Kind::Program, 3));
    assert!(!driver.is_live(Kind::Shader, 1));
    assert!(!driver.is_live(Kind::Shader, 2));
}

#[test]
fn vertex_stage_that_does_not_compile_surfaces_the_log() {
    let mut driver = Driver::new();
    driver.bad_stage = Some(ShaderStage::Vertex);
    driver.compiler_log = String::from("0:3(1): error: syntax error, unexpected '}'");
    let error = build_program(&mut driver).unwrap_err();
    match &error {
        Error::Compile { stage, log } => {
            assert_eq!(*stage, ShaderStage::Vertex);
            assert!(!log.is_empty());
            assert_eq!(log, "0:3(1): error: syntax error, unexpected '}'");
        }
        other => panic!("unexpected error {:?}", other),
    }
    assert_eq!(
        driver.calls[3..].to_vec(),
        vec![
            Request::CompileStatus { shader: 1 },
            Request::ShaderLog { shader: 1 },
            Request::DeleteShader { shader: 1 },
        ]
    );
    assert!(driver.live.is_empty());
    assert!(driver.stray_deletes.is_empty());
}

#[test]
fn fragment_stage_that_does_not_compile_surfaces_the_log() {
    let mut driver = Driver::new();
    driver.bad_stage = Some(ShaderStage::Fragment);
    driver.compiler_log = String::from("undeclared identifier\nsecond line");
    let error = build_program(&mut driver).unwrap_err();
    assert_eq!(
        error,
        Error::Compile {
            stage: ShaderStage::Fragment,
            log: String::from("undeclared identifier\nsecond line"),
        }
    );
    assert_eq!(
        driver.calls[8..].to_vec(),
        vec![
            Request::ShaderLog { shader: 2 },
            Request::DeleteShader { shader: 1 },
            Request::DeleteShader { shader: 2 },
        ]
    );
    assert!(driver.live.is_empty());
}

#[test]
fn compile_failure_with_an_empty_log_is_still_a_compile_error() {
    let mut driver = Driver::new();
    driver.bad_stage = Some(ShaderStage::Vertex);
    let error = build_program(&mut driver).unwrap_err();
    assert_eq!(error, Error::Compile { stage: ShaderStage::Vertex, log: String::new() });
}

#[test]
fn program_that_does_not_link_surfaces_the_log() {
    let mut driver = Driver::new();
    driver.link_fails = true;
    driver.linker_log = String::from("varying f_texcoord not written by the vertex stage");
    let error = build_program(&mut driver).unwrap_err();
    assert_eq!(
        error,
        Error::Link { log: String::from("varying f_texcoord not written by the vertex stage") }
    );
    assert_eq!(
        driver.calls[12..].to_vec(),
        vec![
            Request::LinkStatus { program: 3 },
            Request::ProgramLog { program: 3 },
            Request::DeleteShader { shader: 1 },
            Request::DeleteShader { shader: 2 },
            Request::DeleteProgram { program: 3 },
        ]
    );
    assert!(driver.live.is_empty());
    assert!(driver.stray_deletes.is_empty());
}

#[test]
fn variable_unknown_to_the_driver_is_a_resolution_error() {
    let mut driver = Driver::new();
    driver.unknown.push(String::from("image"));
    let error = build_program(&mut driver).unwrap_err();
    assert_eq!(error, Error::Resolution { name: String::from("image") });
    assert_eq!(driver.calls.len(), 18);
    assert!(driver.live.is_empty());
}

#[test]
fn build_stops_at_the_call_that_the_driver_refuses() {
    let mut driver = Driver::new();
    driver.fail_at = Some((2, 0x0502));
    let error = build_program(&mut driver).unwrap_err();
    assert_eq!(error, Error::Driver { call: Request::CompileShader { shader: 1 }, code: 0x0502 });
    assert_eq!(driver.calls.len(), 3);
}

#[test]
fn handle_zero_from_the_driver_is_a_driver_error() {
    let mut driver = Driver::new();
    driver.null_handles = true;
    let error = build_program(&mut driver).unwrap_err();
    assert_eq!(
        error,
        Error::Driver { call: Request::CreateShader { stage: ShaderStage::Vertex }, code: NO_ERROR }
    );
    assert_eq!(driver.calls.len(), 1);
}

#[test]
fn shader_build_step_by_step() {
    let build = ShaderProgram::build(String::from("v"), String::from("f"), Vec::new());
    assert_eq!(build.request(), Request::CreateShader { stage: ShaderStage::Vertex });
    let build = match build.step(ok(9)) {
        Progress::Continue(next) => next,
        _ => panic!("the build should go on"),
    };
    assert_eq!(build.request(), Request::ShaderSource { shader: 9, source: String::from("v") });
    let build = match build.step(ok(0)) {
        Progress::Continue(next) => next,
        _ => panic!("the build should go on"),
    };
    assert_eq!(build.request(), Request::CompileShader { shader: 9 });
    match build.step(Reply { error: 0x0505, value: 0, text: String::new() }) {
        Progress::Failed(error) => {
            assert_eq!(
                error,
                Error::Driver { call: Request::CompileShader { shader: 9 }, code: 0x0505 }
            )
        }
        _ => panic!("the build should fail"),
    }
}

#[test]
fn target_is_built_in_order() {
    let mut driver = Driver::new();
    let target = drive(&mut driver, RenderTarget::create(640, 480)).unwrap();
    assert_eq!(
        driver.calls,
        vec![
            Request::GenTexture,
            Request::BindTexture { texture: 1 },
            Request::AllocateTexture { width: 640, height: 480 },
            Request::BindTexture { texture: 0 },
            Request::GenFramebuffer,
            Request::BindFramebuffer { framebuffer: 2 },
            Request::AttachColorTexture { texture: 1 },
            Request::FramebufferStatus,
            Request::BindFramebuffer { framebuffer: 0 },
        ]
    );
    assert_eq!(target.texture_handle(), 1);
    assert_eq!(target.framebuffer_handle(), 2);
    assert_eq!(target.width(), 640);
    assert_eq!(target.height(), 480);
}

#[test]
fn target_of_no_size_is_built_like_any_other() {
    let mut driver = Driver::new();
    let target = drive(&mut driver, RenderTarget::create(0, 0)).unwrap();
    assert_eq!(driver.calls[2], Request::AllocateTexture { width: 0, height: 0 });
    assert_eq!((target.width(), target.height()), (0, 0));
}

#[test]
fn incomplete_framebuffer_is_refused_and_nothing_is_left() {
    let mut driver = Driver::new();
    driver.framebuffer_status = 0x8CDD;
    let error = drive(&mut driver, RenderTarget::create(64, 64)).unwrap_err();
    assert_eq!(error, Error::Framebuffer { status: 0x8CDD });
    assert_eq!(
        driver.calls[7..].to_vec(),
        vec![
            Request::FramebufferStatus,
            Request::BindFramebuffer { framebuffer: 0 },
            Request::DeleteFramebuffer { framebuffer: 2 },
            Request::DeleteTexture { texture: 1 },
        ]
    );
    assert!(driver.live.is_empty());
    assert!(driver.stray_deletes.is_empty());
    assert!(!driver.is_live(Kind::Framebuffer, 2));
}

#[test]
fn releasing_a_target_frees_each_object_once() {
    let mut driver = Driver::new();
    let target = drive(&mut driver, RenderTarget::create(8, 8)).unwrap();
    let calls = target.release();
    assert_eq!(
        calls,
        vec![Request::DeleteFramebuffer { framebuffer: 2 }, Request::DeleteTexture { texture: 1 }]
    );
    play(&mut driver, calls).unwrap();
    assert!(driver.live.is_empty());
    assert!(driver.stray_deletes.is_empty());
}

#[test]
fn resizing_a_target_releases_it_before_anything_new_is_made() {
    let mut driver = Driver::new();
    let target = drive(&mut driver, RenderTarget::create(8, 8)).unwrap();
    let before = driver.calls.len();
    let target = drive(&mut driver, target.resize(32, 16)).unwrap();
    assert_eq!(
        driver.calls[before..before + 3].to_vec(),
        vec![
            Request::DeleteFramebuffer { framebuffer: 2 },
            Request::DeleteTexture { texture: 1 },
            Request::GenTexture,
        ]
    );
    assert_eq!((target.width(), target.height()), (32, 16));
    assert_eq!(driver.live, vec![(Kind::Texture, 3), (Kind::Framebuffer, 4)]);
    assert_eq!(target.texture_handle(), 3);
    assert_eq!(target.framebuffer_handle(), 4);
}

#[test]
fn pair_has_two_targets_of_one_size() {
    let mut driver = Driver::new();
    let pair = drive(&mut driver, PingPong::create(800, 600)).unwrap();
    assert_eq!((pair.width(), pair.height()), (800, 600));
    assert_eq!((pair.first().width(), pair.first().height()), (800, 600));
    assert_eq!((pair.second().width(), pair.second().height()), (800, 600));
    assert_eq!(pair.first().texture_handle(), 1);
    assert_eq!(pair.second().texture_handle(), 3);
    assert_eq!(driver.live.len(), 4);
}

#[test]
fn resizing_a_pair_releases_both_targets_before_anything_new_is_made() {
    let mut driver = Driver::new();
    let pair = drive(&mut driver, PingPong::create(800, 600)).unwrap();
    let before = driver.calls.len();
    let pair = drive(&mut driver, pair.resize(1024, 768)).unwrap();
    assert_eq!(
        driver.calls[before..before + 5].to_vec(),
        vec![
            Request::DeleteFramebuffer { framebuffer: 4 },
            Request::DeleteTexture { texture: 3 },
            Request::DeleteFramebuffer { framebuffer: 2 },
            Request::DeleteTexture { texture: 1 },
            Request::GenTexture,
        ]
    );
    let first_new = driver.calls[before..]
        .iter()
        .position(|call| matches!(call, Request::GenTexture | Request::GenFramebuffer))
        .unwrap();
    assert_eq!(first_new, 4);
    assert_eq!((pair.first().width(), pair.first().height()), (1024, 768));
    assert_eq!((pair.second().width(), pair.second().height()), (1024, 768));
    assert_eq!(driver.live.len(), 4);
    assert!(!driver.is_live(Kind::Texture, 1));
    assert!(!driver.is_live(Kind::Texture, 3));
    assert!(driver.stray_deletes.is_empty());
}

#[test]
fn pair_whose_second_target_fails_gives_up_the_first() {
    let mut driver = Driver::new();
    driver.framebuffer_status = 0x8CD6;
    driver.incomplete_from = 1;
    let error = drive(&mut driver, PingPong::create(16, 16)).unwrap_err();
    assert_eq!(error, Error::Framebuffer { status: 0x8CD6 });
    let count = driver.calls.len();
    assert_eq!(
        driver.calls[count - 4..].to_vec(),
        vec![
            Request::DeleteFramebuffer { framebuffer: 4 },
            Request::DeleteTexture { texture: 3 },
            Request::DeleteFramebuffer { framebuffer: 2 },
            Request::DeleteTexture { texture: 1 },
        ]
    );
    assert!(driver.live.is_empty());
    assert!(driver.stray_deletes.is_empty());
}

#[test]
fn pair_whose_first_target_fails_makes_no_second() {
    let mut driver = Driver::new();
    driver.framebuffer_status = 0x8CD7;
    let error = drive(&mut driver, PingPong::create(16, 16)).unwrap_err();
    assert_eq!(error, Error::Framebuffer { status: 0x8CD7 });
    assert_eq!(driver.calls.len(), 11);
    assert!(driver.live.is_empty());
}

#[test]
fn releasing_a_pair_frees_each_object_once() {
    let mut driver = Driver::new();
    let pair = drive(&mut driver, PingPong::create(16, 16)).unwrap();
    let calls = pair.release();
    assert_eq!(calls.len(), 4);
    play(&mut driver, calls).unwrap();
    assert!(driver.live.is_empty());
    assert!(driver.stray_deletes.is_empty());
}

#[test]
fn effect_is_built_in_order() {
    let mut driver = Driver::new();
    let effect = drive(&mut driver, Grayscales::new()).unwrap();
    assert_eq!(
        driver.calls[..6].to_vec(),
        vec![
            Request::GenBuffer,
            Request::BindArrayBuffer { buffer: 1 },
            Request::UploadQuad,
            Request::BindArrayBuffer { buffer: 0 },
            Request::CreateShader { stage: ShaderStage::Vertex },
            Request::ShaderSource { shader: 2, source: String::from(VERTEX_SHADER) },
        ]
    );
    assert_eq!(
        driver.calls[9],
        Request::ShaderSource { shader: 3, source: String::from(FRAGMENT_SHADER) }
    );
    assert_eq!(
        driver.calls[17..].to_vec(),
        vec![
            Request::AttribLocation { program: 4, name: String::from("v_coord") },
            Request::UniformLocation { program: 4, name: String::from("fbo_texture") },
        ]
    );
    assert_eq!(effect.program().handle(), 4);
    assert_eq!(effect.program().resolve("v_coord"), Ok(3));
    assert_eq!(effect.program().resolve("fbo_texture"), Ok(5));
    assert_eq!(driver.live.len(), 4);
}

#[test]
fn effect_whose_program_fails_gives_up_its_buffer() {
    let mut driver = Driver::new();
    driver.bad_stage = Some(ShaderStage::Fragment);
    driver.compiler_log = String::from("bad fragment");
    let error = drive(&mut driver, Grayscales::new()).unwrap_err();
    assert_eq!(
        error,
        Error::Compile { stage: ShaderStage::Fragment, log: String::from("bad fragment") }
    );
    assert_eq!(driver.calls.last(), Some(&Request::DeleteBuffer { buffer: 1 }));
    assert!(driver.live.is_empty());
    assert!(driver.stray_deletes.is_empty());
}

#[test]
fn effect_whose_input_is_unknown_is_refused() {
    let mut driver = Driver::new();
    driver.unknown.push(String::from("v_coord"));
    let error = drive(&mut driver, Grayscales::new()).unwrap_err();
    assert_eq!(error, Error::Resolution { name: String::from("v_coord") });
    assert!(driver.live.is_empty());
}

#[test]
fn effect_build_stops_when_the_driver_refuses_the_upload() {
    let mut driver = Driver::new();
    driver.fail_at = Some((2, 0x0505));
    let error = drive(&mut driver, Grayscales::new()).unwrap_err();
    assert_eq!(error, Error::Driver { call: Request::UploadQuad, code: 0x0505 });
    assert_eq!(driver.calls.len(), 3);
}

#[test]
fn drawing_the_effect_makes_its_calls_in_order() {
    let mut driver = Driver::new();
    let effect = drive(&mut driver, Grayscales::new()).unwrap();
    let target = drive(&mut driver, RenderTarget::create(4, 4)).unwrap();
    let calls = effect.draw(&target);
    assert_eq!(
        calls,
        vec![
            Request::UseProgram { program: 4 },
            Request::BindTexture { texture: target.texture_handle() },
            Request::SetSampler { location: 5, unit: 0 },
            Request::BindArrayBuffer { buffer: 1 },
            Request::EnableVertexAttrib { index: 3 },
            Request::QuadAttribPointer { index: 3 },
            Request::ClearColor { red: 0, green: 0, blue: 0, alpha: 255 },
            Request::Clear { color: true, depth: true },
            Request::DrawTriangleStrip { first: 0, count: 4 },
            Request::DisableVertexAttrib { index: 3 },
        ]
    );
}

#[test]
fn drawing_disables_the_attribute_that_it_enabled() {
    let mut driver = Driver::new();
    let effect = drive(&mut driver, Grayscales::new()).unwrap();
    let target = drive(&mut driver, RenderTarget::create(4, 4)).unwrap();
    let live = driver.live.clone();
    for _ in 0..3 {
        let calls = effect.draw(&target);
        let enables = calls
            .iter()
            .filter(|call| matches!(call, Request::EnableVertexAttrib { .. }))
            .count();
        let disables = calls
            .iter()
            .filter(|call| matches!(call, Request::DisableVertexAttrib { .. }))
            .count();
        assert_eq!(enables, 1);
        assert_eq!(disables, 1);
        play(&mut driver, calls).unwrap();
        assert!(driver.enabled.is_empty());
    }
    assert_eq!(driver.live, live);
}

#[test]
fn update_leaves_the_effect_as_it_is() {
    let mut driver = Driver::new();
    let mut effect = drive(&mut driver, Grayscales::new()).unwrap();
    let target = drive(&mut driver, RenderTarget::create(4, 4)).unwrap();
    let before = effect.draw(&target);
    let calls = driver.calls.len();
    let number = |value: f32| Scalar { bits: value.to_bits() };
    effect.update(number(0.016), number(800.0), number(600.0), number(0.1), number(1024.0));
    assert_eq!(effect.draw(&target), before);
    assert_eq!(driver.calls.len(), calls);
}

#[test]
fn releasing_the_effect_frees_each_object_once() {
    let mut driver = Driver::new();
    let effect = drive(&mut driver, Grayscales::new()).unwrap();
    assert_eq!(driver.live.len(), 4);
    let calls = effect.release();
    assert_eq!(
        calls,
        vec![
            Request::DeleteShader { shader: 2 },
            Request::DeleteShader { shader: 3 },
            Request::DeleteProgram { program: 4 },
            Request::DeleteBuffer { buffer: 1 },
        ]
    );
    play(&mut driver, calls).unwrap();
    assert!(driver.live.is_empty());
    assert!(driver.stray_deletes.is_empty());
    assert!(!driver.is_live(Kind::Buffer, 1));
}

fn pipeline_of(driver: &mut Driver, stages: usize) -> Pipeline<Grayscales> {
    let targets = drive(driver, PingPong::create(320, 200)).unwrap();
    let mut effects = Vec::new();
    for _ in 0..stages {
        effects.push(drive(driver, Grayscales::new()).unwrap());
    }
    Pipeline::new(effects, targets)
}

fn bound_framebuffers(calls: &[Request]) -> Vec<u32> {
    calls
        .iter()
        .filter_map(|call| match call {
            Request::BindFramebuffer { framebuffer } => Some(*framebuffer),
            _ => None,
        })
        .collect()
}

fn sampled_textures(calls: &[Request]) -> Vec<u32> {
    calls
        .iter()
        .filter_map(|call| match call {
            Request::BindTexture { texture } => Some(*texture),
            _ => None,
        })
        .collect()
}

#[test]
fn three_stages_alternate_between_the_targets_and_end_on_the_screen() {
    let mut driver = Driver::new();
    let pipeline = pipeline_of(&mut driver, 3);
    let a = (pipeline.targets().first().framebuffer_handle(), pipeline.targets().first().texture_handle());
    let b =
        (pipeline.targets().second().framebuffer_handle(), pipeline.targets().second().texture_handle());
    assert_eq!(pipeline.len(), 3);
    assert_eq!(pipeline.scene_framebuffer(), a.0);
    let calls = pipeline.run_frame();
    assert_eq!(calls.len(), 33);
    assert_eq!(sampled_textures(&calls), vec![a.1, b.1, a.1]);
    assert_eq!(bound_framebuffers(&calls), vec![b.0, a.0, 0]);
    assert_eq!(calls[0], Request::BindFramebuffer { framebuffer: b.0 });
    assert_eq!(calls[11], Request::BindFramebuffer { framebuffer: a.0 });
    assert_eq!(calls[22], Request::BindFramebuffer { framebuffer: 0 });
    let programs: Vec<u32> = calls
        .iter()
        .filter_map(|call| match call {
            Request::UseProgram { program } => Some(*program),
            _ => None,
        })
        .collect();
    assert_eq!(programs.len(), 3);
    assert!(programs[0] < programs[1] && programs[1] < programs[2]);
    play(&mut driver, calls).unwrap();
    assert!(driver.enabled.is_empty());
    assert_eq!(pipeline.run_frame(), pipeline.run_frame());
}

#[test]
fn four_stages_end_on_the_screen_from_the_second_target() {
    let mut driver = Driver::new();
    let pipeline = pipeline_of(&mut driver, 4);
    let a = (pipeline.targets().first().framebuffer_handle(), pipeline.targets().first().texture_handle());
    let b = (
        pipeline.targets().second().framebuffer_handle(),
        pipeline.targets().second().texture_handle(),
    );
    let calls = pipeline.run_frame();
    assert_eq!(bound_framebuffers(&calls), vec![b.0, a.0, b.0, 0]);
    assert_eq!(sampled_textures(&calls), vec![a.1, b.1, a.1, b.1]);
}

#[test]
fn releasing_the_pipeline_takes_the_last_effect_first_and_the_targets_last() {
    let mut driver = Driver::new();
    let pipeline = pipeline_of(&mut driver, 2);
    let calls = pipeline.release();
    assert_eq!(
        calls,
        vec![
            Request::DeleteShader { shader: 10 },
            Request::DeleteShader { shader: 11 },
            Request::DeleteProgram { program: 12 },
            Request::DeleteBuffer { buffer: 9 },
            Request::DeleteShader { shader: 6 },
            Request::DeleteShader { shader: 7 },
            Request::DeleteProgram { program: 8 },
            Request::DeleteBuffer { buffer: 5 },
            Request::DeleteFramebuffer { framebuffer: 4 },
            Request::DeleteTexture { texture: 3 },
            Request::DeleteFramebuffer { framebuffer: 2 },
            Request::DeleteTexture { texture: 1 },
        ]
    );
}

#[test]
fn stage_roles_by_number() {
    assert_eq!(source(0), Slot::First);
    assert_eq!(source(1), Slot::Second);
    assert_eq!(source(2), Slot::First);
    assert_eq!(destination(0, 3), Destination::Target(Slot::Second));
    assert_eq!(destination(1, 3), Destination::Target(Slot::First));
    assert_eq!(destination(2, 3), Destination::Screen);
    assert_eq!(destination(0, 1), Destination::Screen);
    assert_eq!(destination(0, 0), Destination::Target(Slot::Second));
    assert_eq!(destination(usize::MAX, 0), Destination::Target(Slot::First));
}

#[test]
fn single_stage_draws_the_scene_to_the_screen() {
    let mut driver = Driver::new();
    let pipeline = pipeline_of(&mut driver, 1);
    let calls = pipeline.run_frame();
    assert_eq!(bound_framebuffers(&calls), vec![0]);
    assert_eq!(sampled_textures(&calls), vec![pipeline.targets().first().texture_handle()]);
}

#[test]
fn pipeline_without_effects_draws_the_scene_to_the_screen() {
    let mut driver = Driver::new();
    let pipeline = pipeline_of(&mut driver, 0);
    assert_eq!(pipeline.len(), 0);
    assert_eq!(pipeline.scene_framebuffer(), 0);
    assert!(pipeline.run_frame().is_empty());
}

#[test]
fn updating_the_pipeline_reaches_no_driver() {
    let mut driver = Driver::new();
    let mut pipeline = pipeline_of(&mut driver, 2);
    let before = pipeline.run_frame();
    let zero = Scalar { bits: 0 };
    pipeline.update(zero, zero, zero, zero, zero);
    assert_eq!(pipeline.run_frame(), before);
}

#[test]
fn releasing_the_pipeline_frees_each_object_once() {
    let mut driver = Driver::new();
    let pipeline = pipeline_of(&mut driver, 3);
    assert_eq!(driver.live.len(), 16);
    let calls = pipeline.release();
    assert_eq!(calls.len(), 16);
    play(&mut driver, calls).unwrap();
    assert!(driver.live.is_empty());
    assert!(driver.stray_deletes.is_empty());
}

#[test]
fn pipeline_is_resized_through_its_parts() {
    let mut driver = Driver::new();
    let pipeline = pipeline_of(&mut driver, 2);
    let (effects, targets) = pipeline.into_parts();
    let targets = drive(&mut driver, targets.resize(1920, 1080)).unwrap();
    let pipeline = Pipeline::new(effects, targets);
    assert_eq!((pipeline.targets().width(), pipeline.targets().height()), (1920, 1080));
    assert_eq!(pipeline.len(), 2);
    let calls = pipeline.run_frame();
    assert_eq!(
        bound_framebuffers(&calls),
        vec![pipeline.targets().second().framebuffer_handle(), 0]
    );
}

#[test]
fn playback_stops_at_the_first_refused_call() {
    let mut driver = Driver::new();
    driver.fail_at = Some((1, 0x0501));
    let calls = vec![
        Request::UseProgram { program: 1 },
        Request::BindTexture { texture: 2 },
        Request::DrawTriangleStrip { first: 0, count: 4 },
    ];
    let error = play(&mut driver, calls).unwrap_err();
    assert_eq!(error, Error::Driver { call: Request::BindTexture { texture: 2 }, code: 0x0501 });
    assert_eq!(driver.calls.len(), 2);
}

#[test]
fn playback_of_nothing_is_done_at_once() {
    assert!(matches!(Playback::start(Vec::new()), Progress::Done(())));
    let mut driver = Driver::new();
    play(&mut driver, Vec::new()).unwrap();
    assert!(driver.calls.is_empty());
}

#[test]
fn playback_makes_every_call_in_order() {
    let mut driver = Driver::new();
    let calls = vec![
        Request::ClearColor { red: 0, green: 0, blue: 0, alpha: 255 },
        Request::Clear { color: true, depth: true },
    ];
    play(&mut driver, calls.clone()).unwrap();
    assert_eq!(driver.calls, calls);
}
