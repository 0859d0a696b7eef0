//! Render targets: an off-screen framebuffer with the texture that backs it,
//! and the pair of them that a pipeline draws back and forth between.

use vstd::prelude::*;
use vstd::multiset::Multiset;
use crate::call::{
    holding, released, settle, views, Reply, ReplyView, Request, RequestView, Resource,
    FRAMEBUFFER_COMPLETE, NO_ERROR,
};
use crate::error::{guard, lemma_guard_passes, refusal, Error, ErrorView};
use crate::session::{
    calls_made, lemma_run_concat, lemma_run_unfolds, run, unless_refused, Machine, Progress,
};

verus! {

/// An off-screen destination of drawing. It owns its framebuffer and the
/// texture attached to it as the only color attachment.
#[derive(Debug)]
pub struct RenderTarget {
    framebuffer: u32,
    texture: u32,
    width: u32,
    height: u32,
}

/// A [`RenderTarget`] as a mathematical value.
pub struct RenderTargetView {
    pub framebuffer: u32,
    pub texture: u32,
    pub width: u32,
    pub height: u32,
}

impl RenderTargetView {
    /// Both objects exist.
    pub open spec fn wf(self) -> bool {
        self.framebuffer != 0 && self.texture != 0
    }

    /// The driver objects that the target owns.
    pub open spec fn holds(self) -> Multiset<Resource> {
        holding(Resource::Framebuffer(self.framebuffer)).add(
            holding(Resource::Texture(self.texture)),
        )
    }

    /// The calls that destroy the target.
    pub open spec fn release_calls(self) -> Seq<RequestView> {
        seq![
            RequestView::DeleteFramebuffer { framebuffer: self.framebuffer },
            RequestView::DeleteTexture { texture: self.texture },
        ]
    }
}

impl View for RenderTarget {
    type V = RenderTargetView;

    closed spec fn view(&self) -> RenderTargetView {
        RenderTargetView {
            framebuffer: self.framebuffer,
            texture: self.texture,
            width: self.width,
            height: self.height,
        }
    }
}

impl RenderTarget {
    #[verifier::type_invariant]
    spec fn valid(self) -> bool {
        self@.wf()
    }

    /// Begins the construction of a target of the given size in pixels.
    pub fn create(width: u32, height: u32) -> (build: RenderTargetBuild)
        ensures
            build@ == RenderTargetBuildView::create(width, height),
    {
        RenderTargetBuild {
            phase: TargetPhase::GenTexture,
            width,
            height,
            old_framebuffer: 0,
            old_texture: 0,
            texture: 0,
            framebuffer: 0,
            status: 0,
        }
    }

    /// Begins the replacement of this target by one of another size. The
    /// objects of this target are deleted before any new one is asked for.
    pub fn resize(self, width: u32, height: u32) -> (build: RenderTargetBuild)
        ensures
            build@ == RenderTargetBuildView::resize(self@, width, height),
    {
        proof {
            use_type_invariant(&self);
        }
        RenderTargetBuild {
            phase: TargetPhase::DropOldFramebuffer,
            width,
            height,
            old_framebuffer: self.framebuffer,
            old_texture: self.texture,
            texture: 0,
            framebuffer: 0,
            status: 0,
        }
    }

    /// The texture that holds what was drawn into the target, for a later
    /// stage to sample. The target keeps owning it.
    pub fn texture_handle(&self) -> (texture: u32)
        ensures
            texture == self@.texture,
            texture != 0,
    {
        proof {
            use_type_invariant(self);
        }
        self.texture
    }

    /// The framebuffer to bind in order to draw into the target.
    pub fn framebuffer_handle(&self) -> (framebuffer: u32)
        ensures
            framebuffer == self@.framebuffer,
            framebuffer != 0,
    {
        proof {
            use_type_invariant(self);
        }
        self.framebuffer
    }

    /// The width in pixels.
    pub fn width(&self) -> (width: u32)
        ensures
            width == self@.width,
    {
        self.width
    }

    /// The height in pixels.
    pub fn height(&self) -> (height: u32)
        ensures
            height == self@.height,
    {
        self.height
    }

    /// Gives the target up: the calls that destroy its objects, each once.
    pub fn release(self) -> (calls: Vec<Request>)
        ensures
            views(calls@) == self@.release_calls(),
            released(views(calls@)) == self@.holds(),
    {
        proof {
            use_type_invariant(&self);
            lemma_target_release_balances(self@);
        }
        let mut calls: Vec<Request> = Vec::new();
        calls.push(Request::DeleteFramebuffer { framebuffer: self.framebuffer });
        calls.push(Request::DeleteTexture { texture: self.texture });
        assert(views(calls@) =~= self@.release_calls());
        calls
    }
}

/// Releasing a target destroys each object that it owns once, and nothing else.
pub proof fn lemma_target_release_balances(target: RenderTargetView)
    requires
        target.wf(),
    ensures
        released(target.release_calls()) == target.holds(),
{
    let calls = target.release_calls();
    let one = calls.drop_last();
    assert(one.drop_last() =~= Seq::<RequestView>::empty());
    reveal_with_fuel(released, 3);
    assert(released(one.drop_last()) == Multiset::<Resource>::empty());
    assert(released(calls) =~= target.holds());
}

/// The steps of building a target. Each names the call that is pending.
#[derive(Clone, Copy, Debug, PartialEq, Eq, Structural)]
pub enum TargetPhase {
    /// Replacing a target: deleting the framebuffer of the old one.
    DropOldFramebuffer,
    /// Replacing a target: deleting the texture of the old one.
    DropOldTexture,
    GenTexture,
    BindTexture,
    Allocate,
    UnbindTexture,
    GenFramebuffer,
    BindFramebuffer,
    Attach,
    Status,
    /// Binding the screen again, whatever the status was.
    Unbind,
    /// Giving up: deleting the framebuffer.
    DropFramebuffer,
    /// Giving up: deleting the texture.
    DropTexture,
}

/// The construction of a [`RenderTarget`], under way.
///
/// The texture is made first, then the framebuffer; the texture is attached
/// and the framebuffer's completeness is asked for. A framebuffer that is not
/// complete is deleted together with its texture before the failure is
/// reported.
#[derive(Debug)]
pub struct RenderTargetBuild {
    phase: TargetPhase,
    width: u32,
    height: u32,
    old_framebuffer: u32,
    old_texture: u32,
    texture: u32,
    framebuffer: u32,
    status: u32,
}

/// A [`RenderTargetBuild`] as a mathematical value.
pub struct RenderTargetBuildView {
    pub phase: TargetPhase,
    pub width: u32,
    pub height: u32,
    /// The framebuffer of the target that is replaced, 0 once it is deleted.
    pub old_framebuffer: u32,
    /// The texture of the target that is replaced, 0 once it is deleted.
    pub old_texture: u32,
    /// The new texture, 0 while there is none.
    pub texture: u32,
    /// The new framebuffer, 0 while there is none.
    pub framebuffer: u32,
    /// The status that the driver reported, once it has.
    pub status: u32,
}

impl RenderTargetBuildView {
    /// The state in which the construction of a new target begins.
    pub open spec fn create(width: u32, height: u32) -> RenderTargetBuildView {
        RenderTargetBuildView {
            phase: TargetPhase::GenTexture,
            width,
            height,
            old_framebuffer: 0,
            old_texture: 0,
            texture: 0,
            framebuffer: 0,
            status: 0,
        }
    }

    /// The state in which the replacement of `old` begins.
    pub open spec fn resize(old: RenderTargetView, width: u32, height: u32) -> RenderTargetBuildView {
        RenderTargetBuildView {
            phase: TargetPhase::DropOldFramebuffer,
            width,
            height,
            old_framebuffer: old.framebuffer,
            old_texture: old.texture,
            texture: 0,
            framebuffer: 0,
            status: 0,
        }
    }

    /// The same build, at another phase.
    pub open spec fn at(self, phase: TargetPhase) -> RenderTargetBuildView {
        RenderTargetBuildView { phase, ..self }
    }

    /// The finished target.
    pub open spec fn product(self) -> RenderTargetView {
        RenderTargetView {
            framebuffer: self.framebuffer,
            texture: self.texture,
            width: self.width,
            height: self.height,
        }
    }

    /// Which objects exist in which phase.
    pub open spec fn objects_fit(self) -> bool {
        match self.phase {
            TargetPhase::DropOldFramebuffer => self.old_framebuffer != 0 && self.old_texture != 0
                && self.texture == 0 && self.framebuffer == 0,
            TargetPhase::DropOldTexture => self.old_framebuffer == 0 && self.old_texture != 0
                && self.texture == 0 && self.framebuffer == 0,
            TargetPhase::GenTexture => self.old_framebuffer == 0 && self.old_texture == 0
                && self.texture == 0 && self.framebuffer == 0,
            TargetPhase::BindTexture
            | TargetPhase::Allocate
            | TargetPhase::UnbindTexture
            | TargetPhase::GenFramebuffer => self.old_framebuffer == 0 && self.old_texture == 0
                && self.texture != 0 && self.framebuffer == 0,
            TargetPhase::BindFramebuffer
            | TargetPhase::Attach
            | TargetPhase::Status
            | TargetPhase::Unbind
            | TargetPhase::DropFramebuffer => self.old_framebuffer == 0 && self.old_texture == 0
                && self.texture != 0 && self.framebuffer != 0,
            TargetPhase::DropTexture => self.old_framebuffer == 0 && self.old_texture == 0
                && self.texture != 0 && self.framebuffer == 0,
        }
    }
}

impl Machine for RenderTargetBuildView {
    type Product = RenderTargetView;

    open spec fn wf(self) -> bool {
        &&& self.objects_fit()
        &&& (self.phase is DropFramebuffer || self.phase is DropTexture) ==> self.status
            != FRAMEBUFFER_COMPLETE
    }

    open spec fn request(self) -> RequestView {
        match self.phase {
            TargetPhase::DropOldFramebuffer => RequestView::DeleteFramebuffer {
                framebuffer: self.old_framebuffer,
            },
            TargetPhase::DropOldTexture => RequestView::DeleteTexture { texture: self.old_texture },
            TargetPhase::GenTexture => RequestView::GenTexture,
            TargetPhase::BindTexture => RequestView::BindTexture { texture: self.texture },
            TargetPhase::Allocate => RequestView::AllocateTexture {
                width: self.width,
                height: self.height,
            },
            TargetPhase::UnbindTexture => RequestView::BindTexture { texture: 0 },
            TargetPhase::GenFramebuffer => RequestView::GenFramebuffer,
            TargetPhase::BindFramebuffer => RequestView::BindFramebuffer {
                framebuffer: self.framebuffer,
            },
            TargetPhase::Attach => RequestView::AttachColorTexture { texture: self.texture },
            TargetPhase::Status => RequestView::FramebufferStatus,
            TargetPhase::Unbind => RequestView::BindFramebuffer { framebuffer: 0 },
            TargetPhase::DropFramebuffer => RequestView::DeleteFramebuffer {
                framebuffer: self.framebuffer,
            },
            TargetPhase::DropTexture => RequestView::DeleteTexture { texture: self.texture },
        }
    }

    open spec fn step(self, reply: ReplyView) -> Progress<
        RenderTargetBuildView,
        RenderTargetView,
        ErrorView,
    > {
        unless_refused(
            self.request(),
            reply,
            match self.phase {
                TargetPhase::DropOldFramebuffer => Progress::Continue(
                    RenderTargetBuildView {
                        phase: TargetPhase::DropOldTexture,
                        old_framebuffer: 0,
                        ..self
                    },
                ),
                TargetPhase::DropOldTexture => Progress::Continue(
                    RenderTargetBuildView { phase: TargetPhase::GenTexture, old_texture: 0, ..self },
                ),
                TargetPhase::GenTexture => Progress::Continue(
                    RenderTargetBuildView {
                        phase: TargetPhase::BindTexture,
                        texture: reply.value,
                        ..self
                    },
                ),
                TargetPhase::BindTexture => Progress::Continue(self.at(TargetPhase::Allocate)),
                TargetPhase::Allocate => Progress::Continue(self.at(TargetPhase::UnbindTexture)),
                TargetPhase::UnbindTexture => Progress::Continue(
                    self.at(TargetPhase::GenFramebuffer),
                ),
                TargetPhase::GenFramebuffer => Progress::Continue(
                    RenderTargetBuildView {
                        phase: TargetPhase::BindFramebuffer,
                        framebuffer: reply.value,
                        ..self
                    },
                ),
                TargetPhase::BindFramebuffer => Progress::Continue(self.at(TargetPhase::Attach)),
                TargetPhase::Attach => Progress::Continue(self.at(TargetPhase::Status)),
                TargetPhase::Status => Progress::Continue(
                    RenderTargetBuildView {
                        phase: TargetPhase::Unbind,
                        status: reply.value,
                        ..self
                    },
                ),
                TargetPhase::Unbind => if self.status == FRAMEBUFFER_COMPLETE {
                    Progress::Done(self.product())
                } else {
                    Progress::Continue(self.at(TargetPhase::DropFramebuffer))
                },
                TargetPhase::DropFramebuffer => Progress::Continue(
                    RenderTargetBuildView {
                        phase: TargetPhase::DropTexture,
                        framebuffer: 0,
                        ..self
                    },
                ),
                TargetPhase::DropTexture => Progress::Failed(
                    ErrorView::Framebuffer { status: self.status },
                ),
            },
        )
    }

    open spec fn holds(self) -> Multiset<Resource> {
        holding(Resource::Framebuffer(self.old_framebuffer)).add(
            holding(Resource::Texture(self.old_texture)),
        ).add(holding(Resource::Texture(self.texture))).add(
            holding(Resource::Framebuffer(self.framebuffer)),
        )
    }

    open spec fn product_holds(product: RenderTargetView) -> Multiset<Resource> {
        product.holds()
    }

    proof fn lemma_destroys_own(self) {
    }

    proof fn lemma_step_keeps_books(self, reply: ReplyView) {
        let after = settle(self.holds(), self.request(), reply);
        if refusal(self.request(), reply) is None {
            lemma_guard_passes(self.request(), reply);
            match self.step(reply) {
                Progress::Continue(next) => {
                    assert(next.holds() =~= after);
                },
                Progress::Done(product) => {
                    assert(product.holds() =~= after);
                },
                Progress::Failed(error) => {
                    assert(after =~= Multiset::<Resource>::empty());
                },
            }
        }
    }
}

/// A build never changes the size that it aims at, and the target that it
/// makes has that size.
pub proof fn lemma_target_has_size(build: RenderTargetBuildView, reply: ReplyView)
    requires
        build.wf(),
    ensures
        match build.step(reply) {
            Progress::Continue(next) => next.width == build.width && next.height == build.height,
            Progress::Done(target) => target.wf() && target.width == build.width && target.height
                == build.height,
            Progress::Failed(_) => true,
        },
{
}

/// Replacing a target is releasing it and then building a new one: the first
/// two calls delete the old framebuffer and the old texture, and what follows
/// is the construction of a target from nothing.
pub proof fn lemma_resize_releases_first(
    old: RenderTargetView,
    width: u32,
    height: u32,
    first: ReplyView,
    second: ReplyView,
)
    requires
        old.wf(),
        first.error == NO_ERROR,
        second.error == NO_ERROR,
    ensures
        RenderTargetBuildView::resize(old, width, height).wf(),
        calls_made(RenderTargetBuildView::resize(old, width, height), seq![first, second])
            == old.release_calls(),
        run(RenderTargetBuildView::resize(old, width, height), seq![first, second])
            == Progress::<RenderTargetBuildView, RenderTargetView, ErrorView>::Continue(
            RenderTargetBuildView::create(width, height),
        ),
{
    let start = RenderTargetBuildView::resize(old, width, height);
    let replies = seq![first, second];
    let next = start.step(first)->Continue_0;
    assert(replies.drop_first() =~= seq![second]);
    assert(replies.drop_first().drop_first() =~= Seq::<ReplyView>::empty());
    reveal_with_fuel(run, 3);
    reveal_with_fuel(calls_made, 3);
    assert(calls_made(next, seq![second]) =~= seq![next.request()]);
    assert(calls_made(start, replies) =~= old.release_calls());
}

/// The answers of a driver that lets a target be built: no call raises an
/// error, the texture and the framebuffer get their handles, and the
/// framebuffer is reported complete.
pub open spec fn willing(replies: Seq<ReplyView>) -> bool {
    &&& replies.len() == 9
    &&& forall|i: int| 0 <= i < 9 ==> (#[trigger] replies[i]).error == NO_ERROR
    &&& replies[0].handle() is Some
    &&& replies[4].handle() is Some
    &&& replies[7].value == FRAMEBUFFER_COMPLETE
}

/// With a willing driver a target is built in nine calls, and is made of the
/// texture and the framebuffer that the driver handed out, in the size asked
/// for.
pub proof fn lemma_willing_driver_makes_target(width: u32, height: u32, replies: Seq<ReplyView>)
    requires
        willing(replies),
    ensures
        run(RenderTargetBuildView::create(width, height), replies) == Progress::<
            RenderTargetBuildView,
            RenderTargetView,
            ErrorView,
        >::Done(
            RenderTargetView {
                framebuffer: replies[4].value,
                texture: replies[0].value,
                width,
                height,
            },
        ),
{
    let s0 = RenderTargetBuildView::create(width, height);
    let s1 = s0.step(replies[0])->Continue_0;
    let s2 = s1.step(replies[1])->Continue_0;
    let s3 = s2.step(replies[2])->Continue_0;
    let s4 = s3.step(replies[3])->Continue_0;
    let s5 = s4.step(replies[4])->Continue_0;
    let s6 = s5.step(replies[5])->Continue_0;
    let s7 = s6.step(replies[6])->Continue_0;
    let s8 = s7.step(replies[7])->Continue_0;
    assert(replies.skip(0) =~= replies);
    lemma_run_unfolds(s0, replies, 0);
    lemma_run_unfolds(s1, replies, 1);
    lemma_run_unfolds(s2, replies, 2);
    lemma_run_unfolds(s3, replies, 3);
    lemma_run_unfolds(s4, replies, 4);
    lemma_run_unfolds(s5, replies, 5);
    lemma_run_unfolds(s6, replies, 6);
    lemma_run_unfolds(s7, replies, 7);
    lemma_run_unfolds(s8, replies, 8);
}

/// A framebuffer that the driver reports complete makes the target: once
/// the screen is bound again, the build is done, and the target is made of
/// the framebuffer and the texture that were built, in the size asked for.
pub proof fn lemma_complete_framebuffer_makes_target(
    build: RenderTargetBuildView,
    status: ReplyView,
    unbound: ReplyView,
)
    requires
        build.wf(),
        build.phase is Status,
        status.error == NO_ERROR,
        status.value == FRAMEBUFFER_COMPLETE,
        unbound.error == NO_ERROR,
    ensures
        calls_made(build, seq![status, unbound]) == seq![
            RequestView::FramebufferStatus,
            RequestView::BindFramebuffer { framebuffer: 0 },
        ],
        run(build, seq![status, unbound]) == Progress::<
            RenderTargetBuildView,
            RenderTargetView,
            ErrorView,
        >::Done(build.product()),
{
    let replies = seq![status, unbound];
    let asked = build.step(status)->Continue_0;
    assert(replies.drop_first() =~= seq![unbound]);
    assert(replies.drop_first().drop_first() =~= Seq::<ReplyView>::empty());
    reveal_with_fuel(run, 3);
    reveal_with_fuel(calls_made, 3);
    assert(calls_made(asked, seq![unbound]) =~= seq![asked.request()]);
    assert(calls_made(build, replies) =~= seq![build.request(), asked.request()]);
}

/// Replacing a target with a willing driver: two calls delete the old
/// target, nine build the new one, and the target that comes out has the new
/// size.
pub proof fn lemma_willing_driver_resizes_target(
    old: RenderTargetView,
    width: u32,
    height: u32,
    first: ReplyView,
    second: ReplyView,
    built: Seq<ReplyView>,
)
    requires
        old.wf(),
        first.error == NO_ERROR,
        second.error == NO_ERROR,
        willing(built),
    ensures
        run(RenderTargetBuildView::resize(old, width, height), seq![first, second] + built)
            == Progress::<RenderTargetBuildView, RenderTargetView, ErrorView>::Done(
            RenderTargetView {
                framebuffer: built[4].value,
                texture: built[0].value,
                width,
                height,
            },
        ),
{
    lemma_resize_releases_first(old, width, height, first, second);
    lemma_willing_driver_makes_target(width, height, built);
    lemma_run_concat(
        RenderTargetBuildView::resize(old, width, height),
        seq![first, second],
        built,
    );
}

/// A framebuffer that the driver does not report complete is refused with
/// the status that the driver gave, after the screen is bound again and the
/// framebuffer and its texture are deleted.
pub proof fn lemma_incomplete_is_refused(
    build: RenderTargetBuildView,
    status: ReplyView,
    rest: Seq<ReplyView>,
)
    requires
        build.wf(),
        build.phase is Status,
        status.error == NO_ERROR,
        status.value != FRAMEBUFFER_COMPLETE,
        rest.len() == 3,
        forall|i: int| 0 <= i < 3 ==> (#[trigger] rest[i]).error == NO_ERROR,
    ensures
        calls_made(build, seq![status] + rest) == seq![
            RequestView::FramebufferStatus,
            RequestView::BindFramebuffer { framebuffer: 0 },
            RequestView::DeleteFramebuffer { framebuffer: build.framebuffer },
            RequestView::DeleteTexture { texture: build.texture },
        ],
        run(build, seq![status] + rest) == Progress::<
            RenderTargetBuildView,
            RenderTargetView,
            ErrorView,
        >::Failed(ErrorView::Framebuffer { status: status.value }),
{
    let replies = seq![status] + rest;
    let r1 = replies.drop_first();
    let r2 = r1.drop_first();
    let r3 = r2.drop_first();
    assert(r3.drop_first() =~= Seq::<ReplyView>::empty());
    assert(replies.first() == status);
    assert(r1.first() == rest[0]);
    assert(r2.first() == rest[1]);
    assert(r3.first() == rest[2]);
    let s1 = build.step(status)->Continue_0;
    let s2 = s1.step(rest[0])->Continue_0;
    let s3 = s2.step(rest[1])->Continue_0;
    reveal_with_fuel(run, 5);
    reveal_with_fuel(calls_made, 5);
    assert(calls_made(s3, r3) =~= seq![s3.request()]);
    assert(calls_made(s2, r2) =~= seq![s2.request(), s3.request()]);
    assert(calls_made(s1, r1) =~= seq![s1.request(), s2.request(), s3.request()]);
    assert(calls_made(build, replies) =~= seq![
        build.request(),
        s1.request(),
        s2.request(),
        s3.request(),
    ]);
}

impl View for RenderTargetBuild {
    type V = RenderTargetBuildView;

    closed spec fn view(&self) -> RenderTargetBuildView {
        RenderTargetBuildView {
            phase: self.phase,
            width: self.width,
            height: self.height,
            old_framebuffer: self.old_framebuffer,
            old_texture: self.old_texture,
            texture: self.texture,
            framebuffer: self.framebuffer,
            status: self.status,
        }
    }
}

impl RenderTargetBuild {
    #[verifier::type_invariant]
    spec fn valid(self) -> bool {
        self@.wf()
    }

    /// The call that the build is waiting for.
    pub fn request(&self) -> (call: Request)
        ensures
            call@ == self@.request(),
    {
        match self.phase {
            TargetPhase::DropOldFramebuffer => Request::DeleteFramebuffer {
                framebuffer: self.old_framebuffer,
            },
            TargetPhase::DropOldTexture => Request::DeleteTexture { texture: self.old_texture },
            TargetPhase::GenTexture => Request::GenTexture,
            TargetPhase::BindTexture => Request::BindTexture { texture: self.texture },
            TargetPhase::Allocate => Request::AllocateTexture {
                width: self.width,
                height: self.height,
            },
            TargetPhase::UnbindTexture => Request::BindTexture { texture: 0 },
            TargetPhase::GenFramebuffer => Request::GenFramebuffer,
            TargetPhase::BindFramebuffer => Request::BindFramebuffer {
                framebuffer: self.framebuffer,
            },
            TargetPhase::Attach => Request::AttachColorTexture { texture: self.texture },
            TargetPhase::Status => Request::FramebufferStatus,
            TargetPhase::Unbind => Request::BindFramebuffer { framebuffer: 0 },
            TargetPhase::DropFramebuffer => Request::DeleteFramebuffer {
                framebuffer: self.framebuffer,
            },
            TargetPhase::DropTexture => Request::DeleteTexture { texture: self.texture },
        }
    }

    /// Advances the build with the driver's reply to the pending call.
    pub fn step(self, reply: Reply) -> (progress: Progress<RenderTargetBuild, RenderTarget, Error>)
        ensures
            progress@ == self@.step(reply@),
    {
        proof {
            use_type_invariant(&self);
        }
        let call = self.request();
        if let Err(error) = guard(&call, &reply) {
            return Progress::Failed(error);
        }
        proof {
            lemma_guard_passes(self@.request(), reply@);
        }
        match self.phase {
            TargetPhase::DropOldFramebuffer => Progress::Continue(
                RenderTargetBuild {
                    phase: TargetPhase::DropOldTexture,
                    old_framebuffer: 0,
                    ..self
                },
            ),
            TargetPhase::DropOldTexture => Progress::Continue(
                RenderTargetBuild { phase: TargetPhase::GenTexture, old_texture: 0, ..self },
            ),
            TargetPhase::GenTexture => Progress::Continue(
                RenderTargetBuild { phase: TargetPhase::BindTexture, texture: reply.value, ..self },
            ),
            TargetPhase::BindTexture => Progress::Continue(
                RenderTargetBuild { phase: TargetPhase::Allocate, ..self },
            ),
            TargetPhase::Allocate => Progress::Continue(
                RenderTargetBuild { phase: TargetPhase::UnbindTexture, ..self },
            ),
            TargetPhase::UnbindTexture => Progress::Continue(
                RenderTargetBuild { phase: TargetPhase::GenFramebuffer, ..self },
            ),
            TargetPhase::GenFramebuffer => Progress::Continue(
                RenderTargetBuild {
                    phase: TargetPhase::BindFramebuffer,
                    framebuffer: reply.value,
                    ..self
                },
            ),
            TargetPhase::BindFramebuffer => Progress::Continue(
                RenderTargetBuild { phase: TargetPhase::Attach, ..self },
            ),
            TargetPhase::Attach => Progress::Continue(
                RenderTargetBuild { phase: TargetPhase::Status, ..self },
            ),
            TargetPhase::Status => Progress::Continue(
                RenderTargetBuild { phase: TargetPhase::Unbind, status: reply.value, ..self },
            ),
            TargetPhase::Unbind => {
                if self.status == FRAMEBUFFER_COMPLETE {
                    Progress::Done(
                        RenderTarget {
                            framebuffer: self.framebuffer,
                            texture: self.texture,
                            width: self.width,
                            height: self.height,
                        },
                    )
                } else {
                    Progress::Continue(
                        RenderTargetBuild { phase: TargetPhase::DropFramebuffer, ..self },
                    )
                }
            },
            TargetPhase::DropFramebuffer => Progress::Continue(
                RenderTargetBuild { phase: TargetPhase::DropTexture, framebuffer: 0, ..self },
            ),
            TargetPhase::DropTexture => Progress::Failed(
                Error::Framebuffer { status: self.status },
            ),
        }
    }
}

} // verus!
