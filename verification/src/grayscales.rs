//! Post-processing effect to draw everything in grey-levels.

use vstd::prelude::*;
use vstd::multiset::Multiset;
use crate::call::{
    enabled_after, holding, lemma_released_concat, lemma_settle_beside, released, settle,
    touches_no_object, views, Reply, ReplyView, Request, RequestView, Resource, VariableKind,
    NO_ERROR,
};
use crate::effect::{PostProcessingEffect, Scalar};
use crate::error::{guard, lemma_guard_passes, refusal, Error, ErrorView};
use crate::session::{lemma_run_unfolds, run, unless_refused, Machine, Progress};
use crate::shader::{
    lemma_build_makes_valid_program, lemma_program_release_balances,
    lemma_willing_driver_makes_program, located, variable_views, willing, ShaderBuild,
    ShaderBuildView, ShaderProgram, ShaderProgramView, Variable, VariableView,
};
use crate::target::RenderTarget;

verus! {

/// The vertex stage: passes the quad through and derives the texture
/// coordinates from the position.
pub const VERTEX_SHADER: &'static str = "#version 120
    attribute vec2    v_coord;
    uniform sampler2D fbo_texture;
    varying vec2      f_texcoord;

    void main(void) {
      gl_Position = vec4(v_coord, 0.0, 1.0);
      f_texcoord  = (v_coord + 1.0) / 2.0;
    }";

/// The fragment stage: replaces each color by its luminance and keeps alpha.
pub const FRAGMENT_SHADER: &'static str = "#version 120
    uniform sampler2D fbo_texture;
    varying vec2      f_texcoord;

    void main(void) {
      vec2 texcoord = f_texcoord;
      vec4 color    = texture2D(fbo_texture, texcoord);
      float gray    =  0.2126 * color.r + 0.7152 * color.g + 0.0722 * color.b;
      gl_FragColor  = vec4(gray, gray, gray, color.a);
    }";

/// The weight of red in the luminance, in ten-thousandths.
pub const RED_WEIGHT: u32 = 2126;

/// The weight of green in the luminance, in ten-thousandths.
pub const GREEN_WEIGHT: u32 = 7152;

/// The weight of blue in the luminance, in ten-thousandths.
pub const BLUE_WEIGHT: u32 = 722;

/// The three weights together.
pub const WEIGHT_UNIT: u32 = 10000;

/// A color in fixed point. The scale is the caller's: with full intensity at
/// 10000, the weights above apply without rounding.
#[derive(Clone, Copy, Debug, PartialEq, Eq, Structural)]
pub struct Color {
    pub red: u32,
    pub green: u32,
    pub blue: u32,
    pub alpha: u32,
}

/// The luminance of a color: 0.2126 red + 0.7152 green + 0.0722 blue,
/// rounded down.
pub open spec fn luminance_of(red: u32, green: u32, blue: u32) -> int {
    (2126 * red + 7152 * green + 722 * blue) / 10000
}

/// The smallest of three channels.
pub open spec fn least(red: u32, green: u32, blue: u32) -> int {
    if red <= green && red <= blue {
        red as int
    } else if green <= blue {
        green as int
    } else {
        blue as int
    }
}

/// The largest of three channels.
pub open spec fn greatest(red: u32, green: u32, blue: u32) -> int {
    if red >= green && red >= blue {
        red as int
    } else if green >= blue {
        green as int
    } else {
        blue as int
    }
}

/// The luminance lies between the smallest and the largest channel; so it
/// is a color's own level when the three are equal.
pub proof fn lemma_luminance_between(red: u32, green: u32, blue: u32)
    ensures
        least(red, green, blue) <= luminance_of(red, green, blue) <= greatest(red, green, blue),
        red == green && green == blue ==> luminance_of(red, green, blue) == red,
{
    let low = least(red, green, blue);
    let high = greatest(red, green, blue);
    let sum = 2126 * red + 7152 * green + 722 * blue;
    assert(10000 * low <= sum <= 10000 * high);
    assert(low <= sum / 10000 <= high) by (nonlinear_arith)
        requires
            10000 * low <= sum <= 10000 * high,
    ;
}

/// What the fragment stage computes for one channel triple, in fixed point.
pub fn luminance(red: u32, green: u32, blue: u32) -> (gray: u32)
    ensures
        gray == luminance_of(red, green, blue),
{
    proof {
        lemma_luminance_between(red, green, blue);
    }
    let sum: u64 = 2126 * (red as u64) + 7152 * (green as u64) + 722 * (blue as u64);
    (sum / 10000) as u32
}

/// What the fragment stage computes for one color, in fixed point: the
/// luminance in all three channels, alpha as it was.
pub fn grayscale(color: Color) -> (gray: Color)
    ensures
        gray.red == luminance_of(color.red, color.green, color.blue),
        gray.green == gray.red,
        gray.blue == gray.red,
        gray.alpha == color.alpha,
{
    let level = luminance(color.red, color.green, color.blue);
    Color { red: level, green: level, blue: level, alpha: color.alpha }
}

/// The two inputs of the program: the quad's position and the sampler.
pub open spec fn inputs() -> Seq<VariableView> {
    seq![
        VariableView { kind: VariableKind::Attribute, name: "v_coord"@ },
        VariableView { kind: VariableKind::Uniform, name: "fbo_texture"@ },
    ]
}

/// Post processing effect which turns everything in grayscales.
#[derive(Debug)]
pub struct Grayscales {
    program: ShaderProgram,
    fbo_texture: i32,
    fbo_vertices: u32,
    v_coord: u32,
}

/// A [`Grayscales`] as a mathematical value.
pub struct GrayscalesView {
    pub program: ShaderProgramView,
    /// The location of the sampler uniform.
    pub fbo_texture: i32,
    /// The buffer that holds the quad.
    pub fbo_vertices: u32,
    /// The index of the position attribute.
    pub v_coord: u32,
}

impl GrayscalesView {
    /// The program is whole and was built for the two inputs, whose
    /// locations are cached; the quad has its buffer.
    pub open spec fn wf(self) -> bool {
        &&& self.program.wf()
        &&& self.program.variables == inputs()
        &&& self.fbo_vertices != 0
        &&& self.v_coord == self.program.locations[0]
        &&& self.fbo_texture == self.program.locations[1]
    }

    /// The driver objects that the effect owns.
    pub open spec fn holds(self) -> Multiset<Resource> {
        holding(Resource::Buffer(self.fbo_vertices)).add(self.program.holds())
    }

    /// The calls that draw the effect, sampling from `texture`.
    pub open spec fn draw_calls(self, texture: u32) -> Seq<RequestView> {
        seq![
            RequestView::UseProgram { program: self.program.program },
            RequestView::BindTexture { texture },
            RequestView::SetSampler { location: self.fbo_texture, unit: 0 },
            RequestView::BindArrayBuffer { buffer: self.fbo_vertices },
            RequestView::EnableVertexAttrib { index: self.v_coord },
            RequestView::QuadAttribPointer { index: self.v_coord },
            RequestView::ClearColor { red: 0, green: 0, blue: 0, alpha: 255 },
            RequestView::Clear { color: true, depth: true },
            RequestView::DrawTriangleStrip { first: 0, count: 4 },
            RequestView::DisableVertexAttrib { index: self.v_coord },
        ]
    }

    /// The calls that destroy the effect: the program, then the buffer.
    pub open spec fn release_calls(self) -> Seq<RequestView> {
        self.program.release_calls() + seq![RequestView::DeleteBuffer { buffer: self.fbo_vertices }]
    }
}

impl View for Grayscales {
    type V = GrayscalesView;

    closed spec fn view(&self) -> GrayscalesView {
        GrayscalesView {
            program: self.program@,
            fbo_texture: self.fbo_texture,
            fbo_vertices: self.fbo_vertices,
            v_coord: self.v_coord,
        }
    }
}

/// Drawing the effect leaves every vertex attribute array disabled that was
/// disabled before.
pub proof fn lemma_draw_restores_attributes(effect: GrayscalesView, texture: u32)
    ensures
        enabled_after(Set::<u32>::empty(), effect.draw_calls(texture)) == Set::<u32>::empty(),
        touches_no_object(effect.draw_calls(texture)),
{
    let calls = effect.draw_calls(texture);
    lemma_enabled_prefixes(effect, texture, 9);
    assert(calls.take(10) =~= calls);
}

proof fn lemma_enabled_prefixes(effect: GrayscalesView, texture: u32, k: int)
    requires
        0 <= k < 10,
    ensures
        enabled_after(Set::<u32>::empty(), effect.draw_calls(texture).take(k + 1)) == (if 4 <= k
            < 9 {
            Set::<u32>::empty().insert(effect.v_coord)
        } else {
            Set::<u32>::empty()
        }),
    decreases k,
{
    let calls = effect.draw_calls(texture);
    let none = Set::<u32>::empty();
    assert(calls.take(k + 1).drop_last() =~= calls.take(k));
    assert(calls.take(k + 1).last() == calls[k]);
    if k > 0 {
        lemma_enabled_prefixes(effect, texture, k - 1);
    } else {
        reveal_with_fuel(enabled_after, 2);
    }
    if k == 9 {
        assert(none.insert(effect.v_coord).remove(effect.v_coord) =~= none);
    }
}

/// Releasing the effect destroys each object that it owns once, and nothing
/// else.
pub proof fn lemma_effect_release_balances(effect: GrayscalesView)
    requires
        effect.wf(),
    ensures
        released(effect.release_calls()) == effect.holds(),
{
    let tail = seq![RequestView::DeleteBuffer { buffer: effect.fbo_vertices }];
    lemma_released_concat(effect.program.release_calls(), tail);
    lemma_program_release_balances(effect.program);
    assert(tail.drop_last() =~= Seq::<RequestView>::empty());
    reveal_with_fuel(released, 2);
    assert(released(tail) =~= holding(Resource::Buffer(effect.fbo_vertices)));
    assert(effect.program.holds().add(holding(Resource::Buffer(effect.fbo_vertices)))
        =~= effect.holds());
}

impl Grayscales {
    #[verifier::type_invariant]
    spec fn valid(self) -> bool {
        self@.wf()
    }

    /// Creates a new Grayscales post processing effect: begins the session
    /// that uploads the quad and builds the program.
    pub fn new() -> (build: GrayscalesBuild)
        ensures
            build@ == GrayscalesBuildView::GenBuffer,
    {
        GrayscalesBuild { state: BuildState::GenBuffer }
    }

    /// The program that the effect draws with.
    pub fn program(&self) -> (program: &ShaderProgram)
        ensures
            program@ == self@.program,
    {
        &self.program
    }
}

impl PostProcessingEffect for Grayscales {
    open spec fn draw_calls(&self, texture: u32) -> Seq<RequestView> {
        self@.draw_calls(texture)
    }

    open spec fn holds(&self) -> Multiset<Resource> {
        self@.holds()
    }

    open spec fn release_calls(&self) -> Seq<RequestView> {
        self@.release_calls()
    }

    /// This effect has no parameters: it stays as it is.
    open spec fn updated(
        &self,
        dt: Scalar,
        w: Scalar,
        h: Scalar,
        znear: Scalar,
        zfar: Scalar,
    ) -> Grayscales {
        *self
    }

    /// This effect has no parameters: it stays as it is.
    fn update(&mut self, dt: Scalar, w: Scalar, h: Scalar, znear: Scalar, zfar: Scalar)
        ensures
            *final(self) == *old(self),
    {
    }

    fn draw(&self, target: &RenderTarget) -> (calls: Vec<Request>) {
        let mut calls: Vec<Request> = Vec::new();
        calls.push(Request::UseProgram { program: self.program.handle() });
        calls.push(Request::BindTexture { texture: target.texture_handle() });
        calls.push(Request::SetSampler { location: self.fbo_texture, unit: 0 });
        calls.push(Request::BindArrayBuffer { buffer: self.fbo_vertices });
        calls.push(Request::EnableVertexAttrib { index: self.v_coord });
        calls.push(Request::QuadAttribPointer { index: self.v_coord });
        calls.push(Request::ClearColor { red: 0, green: 0, blue: 0, alpha: 255 });
        calls.push(Request::Clear { color: true, depth: true });
        calls.push(Request::DrawTriangleStrip { first: 0, count: 4 });
        calls.push(Request::DisableVertexAttrib { index: self.v_coord });
        proof {
            assert(views(calls@) =~= self@.draw_calls(target@.texture));
            lemma_draw_restores_attributes(self@, target@.texture);
        }
        calls
    }

    fn release(self) -> (calls: Vec<Request>) {
        proof {
            use_type_invariant(&self);
            lemma_effect_release_balances(self@);
        }
        let buffer = self.fbo_vertices;
        let mut calls = self.program.release();
        calls.push(Request::DeleteBuffer { buffer });
        assert(views(calls@) =~= self@.release_calls());
        calls
    }
}

enum BuildState {
    GenBuffer,
    BindBuffer { quad: u32 },
    Upload { quad: u32 },
    Unbind { quad: u32 },
    Program { quad: u32, build: ShaderBuild },
    DropQuad { quad: u32, failure: Error },
}

/// The construction of a [`Grayscales`] effect, under way.
///
/// The quad is uploaded into a buffer of its own, then the program is built
/// and the locations of its two inputs are looked up. Should the program
/// fail to build, the buffer is deleted before the failure is reported.
pub struct GrayscalesBuild {
    state: BuildState,
}

/// A [`GrayscalesBuild`] as a mathematical value. Each state names the call
/// that is pending.
pub enum GrayscalesBuildView {
    GenBuffer,
    BindBuffer { quad: u32 },
    Upload { quad: u32 },
    Unbind { quad: u32 },
    /// The program is being built.
    Program { quad: u32, build: ShaderBuildView },
    /// Giving up: deleting the buffer.
    DropQuad { quad: u32, failure: ErrorView },
}

impl GrayscalesBuildView {
    /// The state in which the program's construction begins.
    pub open spec fn program_start() -> ShaderBuildView {
        ShaderBuildView::start(VERTEX_SHADER@, FRAGMENT_SHADER@, inputs())
    }

    /// The effect around a finished program.
    pub open spec fn product(quad: u32, program: ShaderProgramView) -> GrayscalesView {
        GrayscalesView {
            program,
            fbo_texture: program.locations[1],
            fbo_vertices: quad,
            v_coord: program.locations[0] as u32,
        }
    }
}

impl Machine for GrayscalesBuildView {
    type Product = GrayscalesView;

    open spec fn wf(self) -> bool {
        match self {
            GrayscalesBuildView::GenBuffer => true,
            GrayscalesBuildView::BindBuffer { quad } => quad != 0,
            GrayscalesBuildView::Upload { quad } => quad != 0,
            GrayscalesBuildView::Unbind { quad } => quad != 0,
            GrayscalesBuildView::Program { quad, build } => quad != 0 && build.wf()
                && build.variables == inputs() && build.vertex_source == VERTEX_SHADER@
                && build.fragment_source == FRAGMENT_SHADER@,
            GrayscalesBuildView::DropQuad { quad, failure } => quad != 0 && !(failure is Driver),
        }
    }

    open spec fn request(self) -> RequestView {
        match self {
            GrayscalesBuildView::GenBuffer => RequestView::GenBuffer,
            GrayscalesBuildView::BindBuffer { quad } => RequestView::BindArrayBuffer {
                buffer: quad,
            },
            GrayscalesBuildView::Upload { .. } => RequestView::UploadQuad,
            GrayscalesBuildView::Unbind { .. } => RequestView::BindArrayBuffer { buffer: 0 },
            GrayscalesBuildView::Program { build, .. } => build.request(),
            GrayscalesBuildView::DropQuad { quad, .. } => RequestView::DeleteBuffer {
                buffer: quad,
            },
        }
    }

    open spec fn step(self, reply: ReplyView) -> Progress<
        GrayscalesBuildView,
        GrayscalesView,
        ErrorView,
    > {
        match self {
            GrayscalesBuildView::GenBuffer => unless_refused(
                self.request(),
                reply,
                Progress::Continue(GrayscalesBuildView::BindBuffer { quad: reply.value }),
            ),
            GrayscalesBuildView::BindBuffer { quad } => unless_refused(
                self.request(),
                reply,
                Progress::Continue(GrayscalesBuildView::Upload { quad }),
            ),
            GrayscalesBuildView::Upload { quad } => unless_refused(
                self.request(),
                reply,
                Progress::Continue(GrayscalesBuildView::Unbind { quad }),
            ),
            GrayscalesBuildView::Unbind { quad } => unless_refused(
                self.request(),
                reply,
                Progress::Continue(
                    GrayscalesBuildView::Program {
                        quad,
                        build: GrayscalesBuildView::program_start(),
                    },
                ),
            ),
            GrayscalesBuildView::Program { quad, build } => match build.step(reply) {
                Progress::Continue(build) => Progress::Continue(
                    GrayscalesBuildView::Program { quad, build },
                ),
                Progress::Done(program) => Progress::Done(
                    GrayscalesBuildView::product(quad, program),
                ),
                Progress::Failed(error) => if error is Driver {
                    Progress::Failed(error)
                } else {
                    Progress::Continue(GrayscalesBuildView::DropQuad { quad, failure: error })
                },
            },
            GrayscalesBuildView::DropQuad { failure, .. } => unless_refused(
                self.request(),
                reply,
                Progress::Failed(failure),
            ),
        }
    }

    open spec fn holds(self) -> Multiset<Resource> {
        match self {
            GrayscalesBuildView::GenBuffer => Multiset::empty(),
            GrayscalesBuildView::BindBuffer { quad } => holding(Resource::Buffer(quad)),
            GrayscalesBuildView::Upload { quad } => holding(Resource::Buffer(quad)),
            GrayscalesBuildView::Unbind { quad } => holding(Resource::Buffer(quad)),
            GrayscalesBuildView::Program { quad, build } => holding(Resource::Buffer(quad)).add(
                build.holds(),
            ),
            GrayscalesBuildView::DropQuad { quad, .. } => holding(Resource::Buffer(quad)),
        }
    }

    open spec fn product_holds(product: GrayscalesView) -> Multiset<Resource> {
        product.holds()
    }

    proof fn lemma_destroys_own(self) {
        match self {
            GrayscalesBuildView::Program { quad, build } => {
                build.lemma_destroys_own();
            },
            _ => {},
        }
    }

    proof fn lemma_step_keeps_books(self, reply: ReplyView) {
        let after = settle(self.holds(), self.request(), reply);
        match self {
            GrayscalesBuildView::Program { quad, build } => {
                build.lemma_step_keeps_books(reply);
                build.lemma_destroys_own();
                lemma_build_makes_valid_program(build, reply);
                lemma_settle_beside(
                    holding(Resource::Buffer(quad)),
                    build.holds(),
                    self.request(),
                    reply,
                );
                match build.step(reply) {
                    Progress::Failed(error) => {
                        if !(error is Driver) {
                            assert(holding(Resource::Buffer(quad)).add(Multiset::empty())
                                =~= holding(Resource::Buffer(quad)));
                        }
                    },
                    _ => {},
                }
            },
            _ => {
                if refusal(self.request(), reply) is None {
                    lemma_guard_passes(self.request(), reply);
                    match self.step(reply) {
                        Progress::Continue(next) => {
                            assert(next.holds() =~= after);
                        },
                        Progress::Done(product) => {},
                        Progress::Failed(error) => {
                            assert(after =~= Multiset::<Resource>::empty());
                        },
                    }
                }
            },
        }
    }
}

/// An effect that comes out of its construction is whole: its program was
/// built from the two stages above, and the locations that it draws with
/// are those that the driver gave for its two inputs.
pub proof fn lemma_build_makes_valid_effect(build: GrayscalesBuildView, reply: ReplyView)
    requires
        build.wf(),
    ensures
        build.step(reply) matches Progress::Done(effect) ==> effect.wf(),
{
    match build {
        GrayscalesBuildView::Program { quad, build } => {
            lemma_build_makes_valid_program(build, reply);
        },
        _ => {},
    }
}

/// While the program is being built, the effect's build follows it: when
/// the program is done, so is the effect around it.
pub proof fn lemma_effect_follows_program(
    quad: u32,
    build: ShaderBuildView,
    replies: Seq<ReplyView>,
)
    ensures
        run(build, replies) matches Progress::Done(program) ==> run(
            GrayscalesBuildView::Program { quad, build },
            replies,
        ) == Progress::<GrayscalesBuildView, GrayscalesView, ErrorView>::Done(
            GrayscalesBuildView::product(quad, program),
        ),
    decreases replies.len(),
{
    if replies.len() > 0 {
        match build.step(replies.first()) {
            Progress::Continue(next) => {
                lemma_effect_follows_program(quad, next, replies.drop_first());
            },
            _ => {},
        }
    }
}

/// The answers of a driver that lets the effect be built: the buffer gets its
/// handle and takes the quad, and the program is built as by a willing
/// driver.
pub open spec fn willing_for_effect(replies: Seq<ReplyView>) -> bool {
    &&& replies.len() == 19
    &&& forall|i: int| 0 <= i < 4 ==> (#[trigger] replies[i]).error == NO_ERROR
    &&& replies[0].handle() is Some
    &&& willing(replies.skip(4), 2)
}

/// With a willing driver the effect is built in nineteen calls: four for the
/// quad, fifteen for the program. It owns the buffer and the program that the
/// driver handed out, and draws with the locations that the driver gave for
/// its two inputs.
pub proof fn lemma_willing_driver_makes_effect(replies: Seq<ReplyView>)
    requires
        willing_for_effect(replies),
    ensures
        run(GrayscalesBuildView::GenBuffer, replies) == Progress::<
            GrayscalesBuildView,
            GrayscalesView,
            ErrorView,
        >::Done(
            GrayscalesView {
                program: ShaderProgramView {
                    vshader: replies[4].value,
                    fshader: replies[8].value,
                    program: replies[12].value,
                    variables: inputs(),
                    locations: seq![
                        replies[17].location().unwrap(),
                        replies[18].location().unwrap(),
                    ],
                },
                fbo_texture: replies[18].location().unwrap(),
                fbo_vertices: replies[0].value,
                v_coord: replies[17].location().unwrap() as u32,
            },
        ),
{
    let quad = replies[0].value;
    let s0 = GrayscalesBuildView::GenBuffer;
    let s1 = GrayscalesBuildView::BindBuffer { quad };
    let s2 = GrayscalesBuildView::Upload { quad };
    let s3 = GrayscalesBuildView::Unbind { quad };
    let s4 = GrayscalesBuildView::Program { quad, build: GrayscalesBuildView::program_start() };
    let rest = replies.skip(4);
    assert(replies.skip(0) =~= replies);
    lemma_run_unfolds(s0, replies, 0);
    lemma_run_unfolds(s1, replies, 1);
    lemma_run_unfolds(s2, replies, 2);
    lemma_run_unfolds(s3, replies, 3);
    lemma_willing_driver_makes_program(VERTEX_SHADER@, FRAGMENT_SHADER@, inputs(), rest);
    lemma_effect_follows_program(quad, GrayscalesBuildView::program_start(), rest);
    assert(located(rest, 13, 2) =~= seq![
        replies[17].location().unwrap(),
        replies[18].location().unwrap(),
    ]);
}

impl View for GrayscalesBuild {
    type V = GrayscalesBuildView;

    closed spec fn view(&self) -> GrayscalesBuildView {
        match self.state {
            BuildState::GenBuffer => GrayscalesBuildView::GenBuffer,
            BuildState::BindBuffer { quad } => GrayscalesBuildView::BindBuffer { quad },
            BuildState::Upload { quad } => GrayscalesBuildView::Upload { quad },
            BuildState::Unbind { quad } => GrayscalesBuildView::Unbind { quad },
            BuildState::Program { quad, build } => GrayscalesBuildView::Program {
                quad,
                build: build@,
            },
            BuildState::DropQuad { quad, failure } => GrayscalesBuildView::DropQuad {
                quad,
                failure: failure@,
            },
        }
    }
}

fn program_inputs() -> (variables: Vec<Variable>)
    ensures
        variable_views(variables@) == inputs(),
{
    let mut variables: Vec<Variable> = Vec::new();
    variables.push(Variable { kind: VariableKind::Attribute, name: "v_coord".to_owned() });
    variables.push(Variable { kind: VariableKind::Uniform, name: "fbo_texture".to_owned() });
    assert(variable_views(variables@) =~= inputs());
    variables
}

impl GrayscalesBuild {
    #[verifier::type_invariant]
    spec fn valid(self) -> bool {
        self@.wf()
    }

    /// The call that the build is waiting for.
    pub fn request(&self) -> (call: Request)
        ensures
            call@ == self@.request(),
    {
        match &self.state {
            BuildState::GenBuffer => Request::GenBuffer,
            BuildState::BindBuffer { quad } => Request::BindArrayBuffer { buffer: *quad },
            BuildState::Upload { .. } => Request::UploadQuad,
            BuildState::Unbind { .. } => Request::BindArrayBuffer { buffer: 0 },
            BuildState::Program { build, .. } => build.request(),
            BuildState::DropQuad { quad, .. } => Request::DeleteBuffer { buffer: *quad },
        }
    }

    /// Advances the build with the driver's reply to the pending call.
    pub fn step(self, reply: Reply) -> (progress: Progress<GrayscalesBuild, Grayscales, Error>)
        ensures
            progress@ == self@.step(reply@),
    {
        proof {
            use_type_invariant(&self);
        }
        let call = self.request();
        match self.state {
            BuildState::GenBuffer => match guard(&call, &reply) {
                Err(error) => Progress::Failed(error),
                Ok(_) => Progress::Continue(
                    GrayscalesBuild { state: BuildState::BindBuffer { quad: reply.value } },
                ),
            },
            BuildState::BindBuffer { quad } => match guard(&call, &reply) {
                Err(error) => Progress::Failed(error),
                Ok(_) => Progress::Continue(GrayscalesBuild { state: BuildState::Upload { quad } }),
            },
            BuildState::Upload { quad } => match guard(&call, &reply) {
                Err(error) => Progress::Failed(error),
                Ok(_) => Progress::Continue(GrayscalesBuild { state: BuildState::Unbind { quad } }),
            },
            BuildState::Unbind { quad } => match guard(&call, &reply) {
                Err(error) => Progress::Failed(error),
                Ok(_) => {
                    let build = ShaderProgram::build(
                        VERTEX_SHADER.to_owned(),
                        FRAGMENT_SHADER.to_owned(),
                        program_inputs(),
                    );
                    Progress::Continue(
                        GrayscalesBuild { state: BuildState::Program { quad, build } },
                    )
                },
            },
            BuildState::Program { quad, build } => {
                proof {
                    lemma_build_makes_valid_program(build@, reply@);
                    build@.lemma_step_keeps_books(reply@);
                }
                match build.step(reply) {
                    Progress::Continue(build) => Progress::Continue(
                        GrayscalesBuild { state: BuildState::Program { quad, build } },
                    ),
                    Progress::Done(program) => Self::assemble(quad, program),
                    Progress::Failed(error) => {
                        let refused = match &error {
                            Error::Driver { .. } => true,
                            _ => false,
                        };
                        if refused {
                            Progress::Failed(error)
                        } else {
                            Progress::Continue(
                                GrayscalesBuild {
                                    state: BuildState::DropQuad { quad, failure: error },
                                },
                            )
                        }
                    },
                }
            },
            BuildState::DropQuad { failure, .. } => match guard(&call, &reply) {
                Err(error) => Progress::Failed(error),
                Ok(_) => Progress::Failed(failure),
            },
        }
    }

    /// Puts the effect together from its buffer and its program, with the
    /// locations of the two inputs looked up by name.
    fn assemble(quad: u32, program: ShaderProgram) -> (progress: Progress<
        GrayscalesBuild,
        Grayscales,
        Error,
    >)
        requires
            quad != 0,
            program@.wf(),
            program@.variables == inputs(),
        ensures
            progress@ == Progress::<GrayscalesBuildView, GrayscalesView, ErrorView>::Done(
                GrayscalesBuildView::product(quad, program@),
            ),
    {
        proof {
            reveal_strlit("v_coord");
            reveal_strlit("fbo_texture");
            assert("v_coord"@.len() != "fbo_texture"@.len());
        }
        let v_coord = match program.resolve("v_coord") {
            Ok(location) => location,
            Err(error) => {
                assert(program@.variables[0].name == "v_coord"@);
                return Progress::Failed(error);
            },
        };
        let fbo_texture = match program.resolve("fbo_texture") {
            Ok(location) => location,
            Err(error) => {
                assert(program@.variables[1].name == "fbo_texture"@);
                return Progress::Failed(error);
            },
        };
        assert(program@.first_named("v_coord"@, 0));
        assert(program@.first_named("fbo_texture"@, 1));
        Progress::Done(
            Grayscales { program, fbo_texture, fbo_vertices: quad, v_coord: v_coord as u32 },
        )
    }
}

} // verus!
