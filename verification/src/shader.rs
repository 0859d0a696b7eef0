//! Shader programs: two compiled stages, linked, with the locations of their
//! named inputs looked up once.

use vstd::prelude::*;
use vstd::multiset::Multiset;
use crate::call::{
    holding, released, settle, views, Reply, ReplyView, Request, RequestView, Resource,
    ShaderStage, VariableKind, NO_ERROR,
};
use crate::error::{guard, lemma_guard_passes, refusal, Error, ErrorView};
use crate::session::{lemma_run_unfolds, run, unless_refused, Machine, Progress};

verus! {

/// A named input of a shader program.
#[derive(Debug, PartialEq, Eq)]
pub struct Variable {
    pub kind: VariableKind,
    pub name: String,
}

/// A [`Variable`] as a mathematical value.
pub struct VariableView {
    pub kind: VariableKind,
    pub name: Seq<char>,
}

impl View for Variable {
    type V = VariableView;

    open spec fn view(&self) -> VariableView {
        VariableView { kind: self.kind, name: self.name@ }
    }
}

/// A list of variables as a sequence of mathematical values.
pub open spec fn variable_views(variables: Seq<Variable>) -> Seq<VariableView> {
    variables.map_values(|variable: Variable| variable@)
}

/// A linked shader program. It owns the program object and both shader
/// objects for as long as it lives.
#[derive(Debug)]
pub struct ShaderProgram {
    vshader: u32,
    fshader: u32,
    program: u32,
    variables: Vec<Variable>,
    locations: Vec<i32>,
}

/// A [`ShaderProgram`] as a mathematical value: three handles, and the
/// location of each variable, in the order in which they were asked for.
pub struct ShaderProgramView {
    pub vshader: u32,
    pub fshader: u32,
    pub program: u32,
    pub variables: Seq<VariableView>,
    pub locations: Seq<i32>,
}

impl ShaderProgramView {
    /// All three objects exist, and every variable has a location.
    pub open spec fn wf(self) -> bool {
        &&& self.vshader != 0
        &&& self.fshader != 0
        &&& self.program != 0
        &&& self.locations.len() == self.variables.len()
        &&& forall|i: int| 0 <= i < self.locations.len() ==> 0 <= #[trigger] self.locations[i]
    }

    /// The driver objects that the program owns.
    pub open spec fn holds(self) -> Multiset<Resource> {
        holding(Resource::Shader(self.vshader)).add(holding(Resource::Shader(self.fshader))).add(
            holding(Resource::Program(self.program)),
        )
    }

    /// The calls that destroy the program: the shaders first, then the program.
    pub open spec fn release_calls(self) -> Seq<RequestView> {
        seq![
            RequestView::DeleteShader { shader: self.vshader },
            RequestView::DeleteShader { shader: self.fshader },
            RequestView::DeleteProgram { program: self.program },
        ]
    }

    /// Whether `index` is the first variable called `name`.
    pub open spec fn first_named(self, name: Seq<char>, index: int) -> bool {
        &&& 0 <= index < self.variables.len()
        &&& self.variables[index].name == name
        &&& forall|earlier: int| 0 <= earlier < index ==> self.variables[earlier].name != name
    }

    /// Whether some variable is called `name`.
    pub open spec fn knows(self, name: Seq<char>) -> bool {
        exists|index: int| 0 <= index < self.variables.len() && self.variables[index].name == name
    }
}

impl View for ShaderProgram {
    type V = ShaderProgramView;

    closed spec fn view(&self) -> ShaderProgramView {
        ShaderProgramView {
            vshader: self.vshader,
            fshader: self.fshader,
            program: self.program,
            variables: variable_views(self.variables@),
            locations: self.locations@,
        }
    }
}

impl ShaderProgram {
    #[verifier::type_invariant]
    spec fn valid(self) -> bool {
        self@.wf()
    }

    /// Begins the construction of a program from the source of its two stages.
    /// The location of each of `variables` is looked up once the program is
    /// linked.
    pub fn build(vertex_source: String, fragment_source: String, variables: Vec<Variable>) -> (build:
        ShaderBuild)
        ensures
            build@ == ShaderBuildView::start(
                vertex_source@,
                fragment_source@,
                variable_views(variables@),
            ),
    {
        ShaderBuild {
            phase: ShaderPhase::Create(ShaderStage::Vertex),
            vertex_source,
            fragment_source,
            variables,
            vshader: 0,
            fshader: 0,
            program: 0,
            locations: Vec::new(),
            failure: None,
        }
    }

    /// The handle of the program object.
    pub fn handle(&self) -> (program: u32)
        ensures
            program == self@.program,
            program != 0,
    {
        proof {
            use_type_invariant(self);
        }
        self.program
    }

    /// The location of the first variable called `name`, as it was looked up
    /// when the program was built. A name that the program was not built with
    /// is refused.
    pub fn resolve(&self, name: &str) -> (outcome: Result<i32, Error>)
        ensures
            match outcome {
                Ok(location) => 0 <= location && exists|index: int|
                    #![trigger self@.locations[index]]
                    self@.first_named(name@, index) && self@.locations[index] == location,
                Err(error) => !self@.knows(name@) && error@ == (ErrorView::Resolution {
                    name: name@,
                }),
            },
    {
        proof {
            use_type_invariant(self);
        }
        let wanted: String = name.to_owned();
        let mut index: usize = 0;
        while index < self.variables.len()
            invariant
                self@.wf(),
                wanted@ == name@,
                index <= self.variables.len(),
                forall|earlier: int|
                    0 <= earlier < index ==> (#[trigger] self@.variables[earlier]).name != name@,
            decreases self.variables.len() - index,
        {
            if self.variables[index].name == wanted {
                assert(self@.first_named(name@, index as int));
                return Ok(self.locations[index]);
            }
            index += 1;
        }
        Err(Error::Resolution { name: wanted })
    }

    /// Gives the program up: the calls that destroy its objects, each once.
    pub fn release(self) -> (calls: Vec<Request>)
        ensures
            views(calls@) == self@.release_calls(),
            released(views(calls@)) == self@.holds(),
    {
        proof {
            use_type_invariant(&self);
            lemma_program_release_balances(self@);
        }
        let mut calls: Vec<Request> = Vec::new();
        calls.push(Request::DeleteShader { shader: self.vshader });
        calls.push(Request::DeleteShader { shader: self.fshader });
        calls.push(Request::DeleteProgram { program: self.program });
        assert(views(calls@) =~= self@.release_calls());
        calls
    }
}

/// Releasing a program destroys each object that it owns once, and nothing
/// else.
pub proof fn lemma_program_release_balances(program: ShaderProgramView)
    requires
        program.wf(),
    ensures
        released(program.release_calls()) == program.holds(),
{
    let calls = program.release_calls();
    let two = calls.drop_last();
    let one = two.drop_last();
    assert(one.drop_last() =~= Seq::<RequestView>::empty());
    reveal_with_fuel(released, 4);
    assert(released(one.drop_last()) == Multiset::<Resource>::empty());
    assert(released(calls) =~= program.holds());
}

/// The steps of building a program. Each names the call that is pending.
#[derive(Clone, Copy, Debug, PartialEq, Eq, Structural)]
pub enum ShaderPhase {
    Create(ShaderStage),
    Source(ShaderStage),
    Compile(ShaderStage),
    Status(ShaderStage),
    Log(ShaderStage),
    CreateProgram,
    Attach(ShaderStage),
    Link,
    LinkStatus,
    LinkLog,
    /// Looking up the next variable.
    Resolve,
    /// Giving up: deleting the shader of this stage.
    Drop(ShaderStage),
    /// Giving up: deleting the program.
    DropProgram,
}

/// The construction of a [`ShaderProgram`], under way.
///
/// The stages are compiled vertex first, then linked, then the variables are
/// looked up in order. Nothing is tried twice. When a stage does not compile,
/// the program does not link or a variable is unknown, the objects made so
/// far are deleted before the failure is reported.
#[derive(Debug)]
pub struct ShaderBuild {
    phase: ShaderPhase,
    vertex_source: String,
    fragment_source: String,
    variables: Vec<Variable>,
    vshader: u32,
    fshader: u32,
    program: u32,
    locations: Vec<i32>,
    failure: Option<Error>,
}

/// A [`ShaderBuild`] as a mathematical value.
pub struct ShaderBuildView {
    pub phase: ShaderPhase,
    pub vertex_source: Seq<char>,
    pub fragment_source: Seq<char>,
    pub variables: Seq<VariableView>,
    /// The vertex shader object, 0 while there is none.
    pub vshader: u32,
    /// The fragment shader object, 0 while there is none.
    pub fshader: u32,
    /// The program object, 0 while there is none.
    pub program: u32,
    /// The locations found so far, in the order of `variables`.
    pub locations: Seq<i32>,
    /// Why the build is giving up, once it does.
    pub failure: Option<ErrorView>,
}

impl ShaderBuildView {
    /// The state in which every build begins.
    pub open spec fn start(
        vertex_source: Seq<char>,
        fragment_source: Seq<char>,
        variables: Seq<VariableView>,
    ) -> ShaderBuildView {
        ShaderBuildView {
            phase: ShaderPhase::Create(ShaderStage::Vertex),
            vertex_source,
            fragment_source,
            variables,
            vshader: 0,
            fshader: 0,
            program: 0,
            locations: Seq::empty(),
            failure: None,
        }
    }

    /// The shader object of a stage.
    pub open spec fn shader(self, stage: ShaderStage) -> u32 {
        match stage {
            ShaderStage::Vertex => self.vshader,
            ShaderStage::Fragment => self.fshader,
        }
    }

    /// The source text of a stage.
    pub open spec fn source(self, stage: ShaderStage) -> Seq<char> {
        match stage {
            ShaderStage::Vertex => self.vertex_source,
            ShaderStage::Fragment => self.fragment_source,
        }
    }

    /// The same build, at another phase.
    pub open spec fn at(self, phase: ShaderPhase) -> ShaderBuildView {
        ShaderBuildView { phase, ..self }
    }

    /// The finished program.
    pub open spec fn product(self) -> ShaderProgramView {
        ShaderProgramView {
            vshader: self.vshader,
            fshader: self.fshader,
            program: self.program,
            variables: self.variables,
            locations: self.locations,
        }
    }

    /// A linked program is done once every variable has its location.
    pub open spec fn linked(self) -> Progress<ShaderBuildView, ShaderProgramView, ErrorView> {
        if self.locations.len() >= self.variables.len() {
            Progress::Done(self.product())
        } else {
            Progress::Continue(self.at(ShaderPhase::Resolve))
        }
    }

    /// Gives up on account of `failure`: what was made is deleted, shaders
    /// first.
    pub open spec fn abandon(self, failure: ErrorView) -> ShaderBuildView {
        ShaderBuildView { phase: ShaderPhase::Drop(ShaderStage::Vertex), failure: Some(failure), ..self }
    }

    /// The step after an object has been deleted: the next object that is
    /// left, or the failure itself.
    pub open spec fn dropped(self) -> Progress<ShaderBuildView, ShaderProgramView, ErrorView> {
        if self.vshader != 0 {
            Progress::Continue(self.at(ShaderPhase::Drop(ShaderStage::Vertex)))
        } else if self.fshader != 0 {
            Progress::Continue(self.at(ShaderPhase::Drop(ShaderStage::Fragment)))
        } else if self.program != 0 {
            Progress::Continue(self.at(ShaderPhase::DropProgram))
        } else {
            Progress::Failed(self.failure.unwrap())
        }
    }

    /// Which objects exist in which phase.
    pub open spec fn objects_fit(self) -> bool {
        match self.phase {
            ShaderPhase::Create(ShaderStage::Vertex) => self.vshader == 0 && self.fshader == 0
                && self.program == 0,
            ShaderPhase::Source(ShaderStage::Vertex)
            | ShaderPhase::Compile(ShaderStage::Vertex)
            | ShaderPhase::Status(ShaderStage::Vertex)
            | ShaderPhase::Log(ShaderStage::Vertex)
            | ShaderPhase::Create(ShaderStage::Fragment) => self.vshader != 0 && self.fshader == 0
                && self.program == 0,
            ShaderPhase::Source(ShaderStage::Fragment)
            | ShaderPhase::Compile(ShaderStage::Fragment)
            | ShaderPhase::Status(ShaderStage::Fragment)
            | ShaderPhase::Log(ShaderStage::Fragment)
            | ShaderPhase::CreateProgram => self.vshader != 0 && self.fshader != 0 && self.program
                == 0,
            ShaderPhase::Attach(_)
            | ShaderPhase::Link
            | ShaderPhase::LinkStatus
            | ShaderPhase::LinkLog
            | ShaderPhase::Resolve => self.vshader != 0 && self.fshader != 0 && self.program != 0,
            ShaderPhase::Drop(ShaderStage::Vertex) => self.vshader != 0,
            ShaderPhase::Drop(ShaderStage::Fragment) => self.vshader == 0 && self.fshader != 0,
            ShaderPhase::DropProgram => self.vshader == 0 && self.fshader == 0 && self.program
                != 0,
        }
    }

    /// Whether the build is deleting what it made.
    pub open spec fn giving_up(self) -> bool {
        self.phase is Drop || self.phase is DropProgram
    }

    /// The number of objects that exist.
    pub open spec fn objects(self) -> nat {
        let vertex: nat = if self.vshader != 0 { 1 } else { 0 };
        let fragment: nat = if self.fshader != 0 { 1 } else { 0 };
        let program: nat = if self.program != 0 { 1 } else { 0 };
        vertex + fragment + program
    }
}

impl Machine for ShaderBuildView {
    type Product = ShaderProgramView;

    open spec fn wf(self) -> bool {
        &&& self.objects_fit()
        &&& self.locations.len() <= self.variables.len()
        &&& forall|i: int| 0 <= i < self.locations.len() ==> 0 <= #[trigger] self.locations[i]
        &&& self.phase is Resolve ==> self.locations.len() < self.variables.len()
        &&& self.giving_up() <==> self.failure is Some
        &&& self.failure is Some ==> !(self.failure.unwrap() is Driver)
    }

    open spec fn request(self) -> RequestView {
        match self.phase {
            ShaderPhase::Create(stage) => RequestView::CreateShader { stage },
            ShaderPhase::Source(stage) => RequestView::ShaderSource {
                shader: self.shader(stage),
                source: self.source(stage),
            },
            ShaderPhase::Compile(stage) => RequestView::CompileShader { shader: self.shader(stage) },
            ShaderPhase::Status(stage) => RequestView::CompileStatus { shader: self.shader(stage) },
            ShaderPhase::Log(stage) => RequestView::ShaderLog { shader: self.shader(stage) },
            ShaderPhase::CreateProgram => RequestView::CreateProgram,
            ShaderPhase::Attach(stage) => RequestView::AttachShader {
                program: self.program,
                shader: self.shader(stage),
            },
            ShaderPhase::Link => RequestView::LinkProgram { program: self.program },
            ShaderPhase::LinkStatus => RequestView::LinkStatus { program: self.program },
            ShaderPhase::LinkLog => RequestView::ProgramLog { program: self.program },
            ShaderPhase::Resolve => {
                let variable = self.variables[self.locations.len() as int];
                match variable.kind {
                    VariableKind::Attribute => RequestView::AttribLocation {
                        program: self.program,
                        name: variable.name,
                    },
                    VariableKind::Uniform => RequestView::UniformLocation {
                        program: self.program,
                        name: variable.name,
                    },
                }
            },
            ShaderPhase::Drop(stage) => RequestView::DeleteShader { shader: self.shader(stage) },
            ShaderPhase::DropProgram => RequestView::DeleteProgram { program: self.program },
        }
    }

    open spec fn step(self, reply: ReplyView) -> Progress<
        ShaderBuildView,
        ShaderProgramView,
        ErrorView,
    > {
        unless_refused(
            self.request(),
            reply,
            match self.phase {
                ShaderPhase::Create(ShaderStage::Vertex) => Progress::Continue(
                    ShaderBuildView {
                        phase: ShaderPhase::Source(ShaderStage::Vertex),
                        vshader: reply.value,
                        ..self
                    },
                ),
                ShaderPhase::Create(ShaderStage::Fragment) => Progress::Continue(
                    ShaderBuildView {
                        phase: ShaderPhase::Source(ShaderStage::Fragment),
                        fshader: reply.value,
                        ..self
                    },
                ),
                ShaderPhase::Source(stage) => Progress::Continue(
                    self.at(ShaderPhase::Compile(stage)),
                ),
                ShaderPhase::Compile(stage) => Progress::Continue(
                    self.at(ShaderPhase::Status(stage)),
                ),
                ShaderPhase::Status(stage) => if !reply.flag() {
                    Progress::Continue(self.at(ShaderPhase::Log(stage)))
                } else {
                    match stage {
                        ShaderStage::Vertex => Progress::Continue(
                            self.at(ShaderPhase::Create(ShaderStage::Fragment)),
                        ),
                        ShaderStage::Fragment => Progress::Continue(
                            self.at(ShaderPhase::CreateProgram),
                        ),
                    }
                },
                ShaderPhase::Log(stage) => Progress::Continue(
                    self.abandon(ErrorView::Compile { stage, log: reply.text }),
                ),
                ShaderPhase::CreateProgram => Progress::Continue(
                    ShaderBuildView {
                        phase: ShaderPhase::Attach(ShaderStage::Vertex),
                        program: reply.value,
                        ..self
                    },
                ),
                ShaderPhase::Attach(ShaderStage::Vertex) => Progress::Continue(
                    self.at(ShaderPhase::Attach(ShaderStage::Fragment)),
                ),
                ShaderPhase::Attach(ShaderStage::Fragment) => Progress::Continue(
                    self.at(ShaderPhase::Link),
                ),
                ShaderPhase::Link => Progress::Continue(self.at(ShaderPhase::LinkStatus)),
                ShaderPhase::LinkStatus => if reply.flag() {
                    self.linked()
                } else {
                    Progress::Continue(self.at(ShaderPhase::LinkLog))
                },
                ShaderPhase::LinkLog => Progress::Continue(
                    self.abandon(ErrorView::Link { log: reply.text }),
                ),
                ShaderPhase::Resolve => match reply.location() {
                    Some(location) => ShaderBuildView {
                        locations: self.locations.push(location),
                        ..self
                    }.linked(),
                    None => Progress::Continue(
                        self.abandon(
                            ErrorView::Resolution {
                                name: self.variables[self.locations.len() as int].name,
                            },
                        ),
                    ),
                },
                ShaderPhase::Drop(ShaderStage::Vertex) => ShaderBuildView {
                    vshader: 0,
                    ..self
                }.dropped(),
                ShaderPhase::Drop(ShaderStage::Fragment) => ShaderBuildView {
                    fshader: 0,
                    ..self
                }.dropped(),
                ShaderPhase::DropProgram => ShaderBuildView { program: 0, ..self }.dropped(),
            },
        )
    }

    open spec fn holds(self) -> Multiset<Resource> {
        holding(Resource::Shader(self.vshader)).add(holding(Resource::Shader(self.fshader))).add(
            holding(Resource::Program(self.program)),
        )
    }

    open spec fn product_holds(product: ShaderProgramView) -> Multiset<Resource> {
        product.holds()
    }

    proof fn lemma_destroys_own(self) {
    }

    proof fn lemma_step_keeps_books(self, reply: ReplyView) {
        let after = settle(self.holds(), self.request(), reply);
        if refusal(self.request(), reply) is None {
            lemma_guard_passes(self.request(), reply);
            match self.step(reply) {
                Progress::Continue(next) => {
                    assert(next.holds() =~= after);
                },
                Progress::Done(product) => {
                    assert(product.holds() =~= after);
                },
                Progress::Failed(error) => {
                    assert(after =~= Multiset::<Resource>::empty());
                },
            }
        }
    }
}

/// A build that is done has made a valid program, with a location for each
/// variable that it was begun with.
pub proof fn lemma_build_makes_valid_program(build: ShaderBuildView, reply: ReplyView)
    requires
        build.wf(),
    ensures
        match build.step(reply) {
            Progress::Continue(next) => next.variables == build.variables && next.vertex_source
                == build.vertex_source && next.fragment_source == build.fragment_source,
            Progress::Done(program) => program.wf() && program.variables == build.variables,
            Progress::Failed(_) => true,
        },
{
}

/// The locations that the replies from number `from` on hold, `count` of them.
pub open spec fn located(replies: Seq<ReplyView>, from: int, count: nat) -> Seq<i32> {
    Seq::new(count, |i: int| replies[from + i].location().unwrap())
}

/// The answers of a driver that lets a program with `variables` variables be
/// built: no call raises an error, both shaders and the program get their
/// handles, both stages compile, the program links, and every variable has a
/// location.
pub open spec fn willing(replies: Seq<ReplyView>, variables: nat) -> bool {
    &&& replies.len() == 13 + variables
    &&& forall|i: int| 0 <= i < replies.len() ==> (#[trigger] replies[i]).error == NO_ERROR
    &&& replies[0].handle() is Some
    &&& replies[3].flag()
    &&& replies[4].handle() is Some
    &&& replies[7].flag()
    &&& replies[8].handle() is Some
    &&& replies[12].flag()
    &&& forall|i: int| 13 <= i < replies.len() ==> (#[trigger] replies[i]).location() is Some
}

/// Once the program is linked, a driver that knows every variable that is
/// left lets the build finish, with the locations that it gave, in order.
pub proof fn lemma_known_variables_finish_the_build(
    build: ShaderBuildView,
    replies: Seq<ReplyView>,
    done: int,
)
    requires
        build.wf(),
        build.phase is Resolve,
        0 <= done,
        replies.len() == done + (build.variables.len() - build.locations.len()),
        forall|i: int|
            done <= i < replies.len() ==> (#[trigger] replies[i]).error == NO_ERROR
                && replies[i].location() is Some,
    ensures
        run(build, replies.skip(done)) == Progress::<
            ShaderBuildView,
            ShaderProgramView,
            ErrorView,
        >::Done(
            ShaderProgramView {
                vshader: build.vshader,
                fshader: build.fshader,
                program: build.program,
                variables: build.variables,
                locations: build.locations + located(
                    replies,
                    done,
                    (build.variables.len() - build.locations.len()) as nat,
                ),
            },
        ),
    decreases replies.len() - done,
{
    let left = (build.variables.len() - build.locations.len()) as nat;
    let found = build.locations.push(replies[done].location().unwrap());
    lemma_run_unfolds(build, replies, done);
    build.lemma_step_keeps_books(replies[done]);
    match build.step(replies[done]) {
        Progress::Continue(next) => {
            lemma_known_variables_finish_the_build(next, replies, done + 1);
            assert(found + located(replies, done + 1, (left - 1) as nat) =~= build.locations
                + located(replies, done, left));
        },
        Progress::Done(program) => {
            assert(found =~= build.locations + located(replies, done, left));
        },
        Progress::Failed(_) => {},
    }
}

/// With a willing driver a program is built in thirteen calls and one more
/// for each variable, and is made of the objects that the driver handed out,
/// with the locations that it gave.
pub proof fn lemma_willing_driver_makes_program(
    vertex_source: Seq<char>,
    fragment_source: Seq<char>,
    variables: Seq<VariableView>,
    replies: Seq<ReplyView>,
)
    requires
        willing(replies, variables.len()),
    ensures
        run(ShaderBuildView::start(vertex_source, fragment_source, variables), replies)
            == Progress::<ShaderBuildView, ShaderProgramView, ErrorView>::Done(
            ShaderProgramView {
                vshader: replies[0].value,
                fshader: replies[4].value,
                program: replies[8].value,
                variables,
                locations: located(replies, 13, variables.len()),
            },
        ),
{
    let s0 = ShaderBuildView::start(vertex_source, fragment_source, variables);
    let s1 = s0.step(replies[0])->Continue_0;
    let s2 = s1.step(replies[1])->Continue_0;
    let s3 = s2.step(replies[2])->Continue_0;
    let s4 = s3.step(replies[3])->Continue_0;
    let s5 = s4.step(replies[4])->Continue_0;
    let s6 = s5.step(replies[5])->Continue_0;
    let s7 = s6.step(replies[6])->Continue_0;
    let s8 = s7.step(replies[7])->Continue_0;
    let s9 = s8.step(replies[8])->Continue_0;
    let s10 = s9.step(replies[9])->Continue_0;
    let s11 = s10.step(replies[10])->Continue_0;
    let s12 = s11.step(replies[11])->Continue_0;
    assert(replies.skip(0) =~= replies);
    lemma_run_unfolds(s0, replies, 0);
    lemma_run_unfolds(s1, replies, 1);
    lemma_run_unfolds(s2, replies, 2);
    lemma_run_unfolds(s3, replies, 3);
    lemma_run_unfolds(s4, replies, 4);
    lemma_run_unfolds(s5, replies, 5);
    lemma_run_unfolds(s6, replies, 6);
    lemma_run_unfolds(s7, replies, 7);
    lemma_run_unfolds(s8, replies, 8);
    lemma_run_unfolds(s9, replies, 9);
    lemma_run_unfolds(s10, replies, 10);
    lemma_run_unfolds(s11, replies, 11);
    lemma_run_unfolds(s12, replies, 12);
    if variables.len() == 0 {
        assert(s12.locations =~= located(replies, 13, 0));
    } else {
        let s13 = s12.step(replies[12])->Continue_0;
        lemma_known_variables_finish_the_build(s13, replies, 13);
        assert(s13.locations + located(replies, 13, variables.len()) =~= located(
            replies,
            13,
            variables.len(),
        ));
    }
}

/// A build that gives up ends in the failure that made it give up, after
/// one call for each object that exists, unless the driver refuses one of
/// them.
pub proof fn lemma_giving_up_ends_in_failure(build: ShaderBuildView, replies: Seq<ReplyView>)
    requires
        build.wf(),
        build.giving_up(),
        replies.len() == build.objects(),
        forall|i: int| 0 <= i < replies.len() ==> (#[trigger] replies[i]).error == NO_ERROR,
    ensures
        run(build, replies) == Progress::<ShaderBuildView, ShaderProgramView, ErrorView>::Failed(
            build.failure.unwrap(),
        ),
    decreases replies.len(),
{
    build.lemma_step_keeps_books(replies.first());
    match build.step(replies.first()) {
        Progress::Continue(next) => {
            assert(replies.drop_first().len() == next.objects());
            lemma_giving_up_ends_in_failure(next, replies.drop_first());
        },
        _ => {},
    }
}

/// A stage that does not compile fails the build with the compiler's log,
/// whole: the status is asked for, then the log, then what was made is
/// deleted, and the failure names the stage and carries the text of the
/// reply to the second call.
pub proof fn lemma_compile_failure_carries_log(
    build: ShaderBuildView,
    stage: ShaderStage,
    status: ReplyView,
    log: ReplyView,
    rest: Seq<ReplyView>,
)
    requires
        build.wf(),
        build.phase == ShaderPhase::Status(stage),
        status.error == NO_ERROR,
        !status.flag(),
        log.error == NO_ERROR,
        rest.len() == build.objects(),
        forall|i: int| 0 <= i < rest.len() ==> (#[trigger] rest[i]).error == NO_ERROR,
    ensures
        run(build, seq![status, log] + rest) == Progress::<
            ShaderBuildView,
            ShaderProgramView,
            ErrorView,
        >::Failed(ErrorView::Compile { stage, log: log.text }),
{
    let replies = seq![status, log] + rest;
    let asked = build.step(status)->Continue_0;
    let told = asked.step(log)->Continue_0;
    assert(replies.first() == status);
    assert(replies.drop_first().first() == log);
    assert(replies.drop_first().drop_first() =~= rest);
    reveal_with_fuel(run, 3);
    lemma_giving_up_ends_in_failure(told, rest);
}

/// A program that does not link fails the build with the linker's log,
/// whole.
pub proof fn lemma_link_failure_carries_log(
    build: ShaderBuildView,
    status: ReplyView,
    log: ReplyView,
    rest: Seq<ReplyView>,
)
    requires
        build.wf(),
        build.phase is LinkStatus,
        status.error == NO_ERROR,
        !status.flag(),
        log.error == NO_ERROR,
        rest.len() == 3,
        forall|i: int| 0 <= i < rest.len() ==> (#[trigger] rest[i]).error == NO_ERROR,
    ensures
        run(build, seq![status, log] + rest) == Progress::<
            ShaderBuildView,
            ShaderProgramView,
            ErrorView,
        >::Failed(ErrorView::Link { log: log.text }),
{
    let replies = seq![status, log] + rest;
    let asked = build.step(status)->Continue_0;
    let told = asked.step(log)->Continue_0;
    assert(replies.first() == status);
    assert(replies.drop_first().first() == log);
    assert(replies.drop_first().drop_first() =~= rest);
    reveal_with_fuel(run, 3);
    lemma_giving_up_ends_in_failure(told, rest);
}

/// A variable that the driver does not know fails the build with its name.
pub proof fn lemma_unknown_variable_is_refused(
    build: ShaderBuildView,
    answer: ReplyView,
    rest: Seq<ReplyView>,
)
    requires
        build.wf(),
        build.phase is Resolve,
        answer.error == NO_ERROR,
        answer.location() is None,
        rest.len() == 3,
        forall|i: int| 0 <= i < rest.len() ==> (#[trigger] rest[i]).error == NO_ERROR,
    ensures
        run(build, seq![answer] + rest) == Progress::<
            ShaderBuildView,
            ShaderProgramView,
            ErrorView,
        >::Failed(
            ErrorView::Resolution { name: build.variables[build.locations.len() as int].name },
        ),
{
    let replies = seq![answer] + rest;
    let told = build.step(answer)->Continue_0;
    assert(replies.first() == answer);
    assert(replies.drop_first() =~= rest);
    reveal_with_fuel(run, 2);
    lemma_giving_up_ends_in_failure(told, rest);
}

impl View for ShaderBuild {
    type V = ShaderBuildView;

    closed spec fn view(&self) -> ShaderBuildView {
        ShaderBuildView {
            phase: self.phase,
            vertex_source: self.vertex_source@,
            fragment_source: self.fragment_source@,
            variables: variable_views(self.variables@),
            vshader: self.vshader,
            fshader: self.fshader,
            program: self.program,
            locations: self.locations@,
            failure: match self.failure {
                Some(failure) => Some(failure@),
                None => None,
            },
        }
    }
}

impl ShaderBuild {
    #[verifier::type_invariant]
    spec fn valid(self) -> bool {
        self@.wf()
    }

    /// The call that the build is waiting for.
    pub fn request(&self) -> (call: Request)
        ensures
            call@ == self@.request(),
    {
        proof {
            use_type_invariant(self);
        }
        match self.phase {
            ShaderPhase::Create(stage) => Request::CreateShader { stage },
            ShaderPhase::Source(stage) => match stage {
                ShaderStage::Vertex => Request::ShaderSource {
                    shader: self.vshader,
                    source: self.vertex_source.clone(),
                },
                ShaderStage::Fragment => Request::ShaderSource {
                    shader: self.fshader,
                    source: self.fragment_source.clone(),
                },
            },
            ShaderPhase::Compile(stage) => Request::CompileShader { shader: self.shader(stage) },
            ShaderPhase::Status(stage) => Request::CompileStatus { shader: self.shader(stage) },
            ShaderPhase::Log(stage) => Request::ShaderLog { shader: self.shader(stage) },
            ShaderPhase::CreateProgram => Request::CreateProgram,
            ShaderPhase::Attach(stage) => Request::AttachShader {
                program: self.program,
                shader: self.shader(stage),
            },
            ShaderPhase::Link => Request::LinkProgram { program: self.program },
            ShaderPhase::LinkStatus => Request::LinkStatus { program: self.program },
            ShaderPhase::LinkLog => Request::ProgramLog { program: self.program },
            ShaderPhase::Resolve => {
                let variable = &self.variables[self.locations.len()];
                match variable.kind {
                    VariableKind::Attribute => Request::AttribLocation {
                        program: self.program,
                        name: variable.name.clone(),
                    },
                    VariableKind::Uniform => Request::UniformLocation {
                        program: self.program,
                        name: variable.name.clone(),
                    },
                }
            },
            ShaderPhase::Drop(stage) => Request::DeleteShader { shader: self.shader(stage) },
            ShaderPhase::DropProgram => Request::DeleteProgram { program: self.program },
        }
    }

    fn shader(&self, stage: ShaderStage) -> (shader: u32)
        ensures
            shader == self@.shader(stage),
    {
        match stage {
            ShaderStage::Vertex => self.vshader,
            ShaderStage::Fragment => self.fshader,
        }
    }

    /// Advances the build with the driver's reply to the pending call.
    pub fn step(self, reply: Reply) -> (progress: Progress<ShaderBuild, ShaderProgram, Error>)
        ensures
            progress@ == self@.step(reply@),
    {
        proof {
            use_type_invariant(&self);
        }
        let call = self.request();
        if let Err(error) = guard(&call, &reply) {
            return Progress::Failed(error);
        }
        proof {
            lemma_guard_passes(self@.request(), reply@);
        }
        match self.phase {
            ShaderPhase::Create(ShaderStage::Vertex) => Progress::Continue(
                ShaderBuild {
                    phase: ShaderPhase::Source(ShaderStage::Vertex),
                    vshader: reply.value,
                    ..self
                },
            ),
            ShaderPhase::Create(ShaderStage::Fragment) => Progress::Continue(
                ShaderBuild {
                    phase: ShaderPhase::Source(ShaderStage::Fragment),
                    fshader: reply.value,
                    ..self
                },
            ),
            ShaderPhase::Source(stage) => Progress::Continue(
                ShaderBuild { phase: ShaderPhase::Compile(stage), ..self },
            ),
            ShaderPhase::Compile(stage) => Progress::Continue(
                ShaderBuild { phase: ShaderPhase::Status(stage), ..self },
            ),
            ShaderPhase::Status(stage) => {
                let next = if !reply.flag() {
                    ShaderPhase::Log(stage)
                } else {
                    match stage {
                        ShaderStage::Vertex => ShaderPhase::Create(ShaderStage::Fragment),
                        ShaderStage::Fragment => ShaderPhase::CreateProgram,
                    }
                };
                Progress::Continue(ShaderBuild { phase: next, ..self })
            },
            ShaderPhase::Log(stage) => Progress::Continue(
                ShaderBuild {
                    phase: ShaderPhase::Drop(ShaderStage::Vertex),
                    failure: Some(Error::Compile { stage, log: reply.text }),
                    ..self
                },
            ),
            ShaderPhase::CreateProgram => Progress::Continue(
                ShaderBuild {
                    phase: ShaderPhase::Attach(ShaderStage::Vertex),
                    program: reply.value,
                    ..self
                },
            ),
            ShaderPhase::Attach(ShaderStage::Vertex) => Progress::Continue(
                ShaderBuild { phase: ShaderPhase::Attach(ShaderStage::Fragment), ..self },
            ),
            ShaderPhase::Attach(ShaderStage::Fragment) => Progress::Continue(
                ShaderBuild { phase: ShaderPhase::Link, ..self },
            ),
            ShaderPhase::Link => Progress::Continue(
                ShaderBuild { phase: ShaderPhase::LinkStatus, ..self },
            ),
            ShaderPhase::LinkStatus => {
                if reply.flag() {
                    self.linked()
                } else {
                    Progress::Continue(ShaderBuild { phase: ShaderPhase::LinkLog, ..self })
                }
            },
            ShaderPhase::LinkLog => Progress::Continue(
                ShaderBuild {
                    phase: ShaderPhase::Drop(ShaderStage::Vertex),
                    failure: Some(Error::Link { log: reply.text }),
                    ..self
                },
            ),
            ShaderPhase::Resolve => match reply.location() {
                Some(location) => {
                    let ShaderBuild {
                        phase,
                        vertex_source,
                        fragment_source,
                        variables,
                        vshader,
                        fshader,
                        program,
                        mut locations,
                        failure,
                    } = self;
                    locations.push(location);
                    if locations.len() >= variables.len() {
                        Progress::Done(
                            ShaderProgram { vshader, fshader, program, variables, locations },
                        )
                    } else {
                        Progress::Continue(
                            ShaderBuild {
                                phase,
                                vertex_source,
                                fragment_source,
                                variables,
                                vshader,
                                fshader,
                                program,
                                locations,
                                failure,
                            },
                        )
                    }
                },
                None => {
                    let name = self.variables[self.locations.len()].name.clone();
                    Progress::Continue(
                        ShaderBuild {
                            phase: ShaderPhase::Drop(ShaderStage::Vertex),
                            failure: Some(Error::Resolution { name }),
                            ..self
                        },
                    )
                },
            },
            ShaderPhase::Drop(ShaderStage::Vertex) => {
                if self.fshader != 0 {
                    Progress::Continue(
                        ShaderBuild {
                            phase: ShaderPhase::Drop(ShaderStage::Fragment),
                            vshader: 0,
                            ..self
                        },
                    )
                } else if self.program != 0 {
                    Progress::Continue(
                        ShaderBuild { phase: ShaderPhase::DropProgram, vshader: 0, ..self },
                    )
                } else {
                    Progress::Failed(self.failure.unwrap())
                }
            },
            ShaderPhase::Drop(ShaderStage::Fragment) => {
                if self.program != 0 {
                    Progress::Continue(
                        ShaderBuild { phase: ShaderPhase::DropProgram, fshader: 0, ..self },
                    )
                } else {
                    Progress::Failed(self.failure.unwrap())
                }
            },
            ShaderPhase::DropProgram => Progress::Failed(self.failure.unwrap()),
        }
    }

    fn linked(self) -> (progress: Progress<ShaderBuild, ShaderProgram, Error>)
        requires
            self@.phase is LinkStatus,
        ensures
            progress@ == self@.linked(),
    {
        proof {
            use_type_invariant(&self);
        }
        if self.locations.len() >= self.variables.len() {
            Progress::Done(
                ShaderProgram {
                    vshader: self.vshader,
                    fshader: self.fshader,
                    program: self.program,
                    variables: self.variables,
                    locations: self.locations,
                },
            )
        } else {
            Progress::Continue(ShaderBuild { phase: ShaderPhase::Resolve, ..self })
        }
    }
}

} // verus!
