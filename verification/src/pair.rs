//! The two render targets that a pipeline draws back and forth between.

use vstd::prelude::*;
use vstd::multiset::Multiset;
use crate::call::{
    holding, lemma_released_concat, lemma_settle_beside, released, settle, views, Reply,
    ReplyView, Request, RequestView, Resource, NO_ERROR,
};
use crate::error::{guard, lemma_guard_passes, refusal, Error, ErrorView};
use crate::session::{
    calls_made, lemma_run_concat, lemma_run_unfolds, run, unless_refused, Machine, Progress,
};
use crate::target::{
    lemma_target_has_size, lemma_target_release_balances, willing, RenderTarget,
    RenderTargetBuild, RenderTargetBuildView, RenderTargetView,
};

verus! {

/// Two render targets of one size.
#[derive(Debug)]
pub struct PingPong {
    first: RenderTarget,
    second: RenderTarget,
}

/// A [`PingPong`] as a mathematical value.
pub struct PingPongView {
    pub first: RenderTargetView,
    pub second: RenderTargetView,
}

impl PingPongView {
    /// Both targets are whole, and they have the same size.
    pub open spec fn wf(self) -> bool {
        &&& self.first.wf()
        &&& self.second.wf()
        &&& self.first.width == self.second.width
        &&& self.first.height == self.second.height
    }

    /// The driver objects that the pair owns.
    pub open spec fn holds(self) -> Multiset<Resource> {
        self.first.holds().add(self.second.holds())
    }

    /// The calls that destroy the pair: the second target, then the first.
    pub open spec fn release_calls(self) -> Seq<RequestView> {
        self.second.release_calls() + self.first.release_calls()
    }
}

impl View for PingPong {
    type V = PingPongView;

    closed spec fn view(&self) -> PingPongView {
        PingPongView { first: self.first@, second: self.second@ }
    }
}

impl PingPong {
    #[verifier::type_invariant]
    spec fn valid(self) -> bool {
        self@.wf()
    }

    /// Begins the construction of two targets of the given size in pixels.
    pub fn create(width: u32, height: u32) -> (build: PingPongBuild)
        ensures
            build@ == PingPongBuildView::create(width, height),
    {
        PingPongBuild { state: PairState::First { build: RenderTarget::create(width, height) } }
    }

    /// Begins the replacement of both targets by two of another size. All four
    /// objects of this pair are deleted before any new one is asked for.
    pub fn resize(self, width: u32, height: u32) -> (build: PingPongBuild)
        ensures
            build@ == PingPongBuildView::resize(self@, width, height),
    {
        proof {
            use_type_invariant(&self);
        }
        let framebuffer = self.second.framebuffer_handle();
        let texture = self.second.texture_handle();
        PingPongBuild {
            state: PairState::Release {
                framebuffer,
                texture,
                build: self.first.resize(width, height),
            },
        }
    }

    /// The target that the scene is drawn into.
    pub fn first(&self) -> (target: &RenderTarget)
        ensures
            target@ == self@.first,
    {
        &self.first
    }

    /// The other target.
    pub fn second(&self) -> (target: &RenderTarget)
        ensures
            target@ == self@.second,
    {
        &self.second
    }

    /// The width of both targets.
    pub fn width(&self) -> (width: u32)
        ensures
            width == self@.first.width,
            width == self@.second.width,
    {
        proof {
            use_type_invariant(self);
        }
        self.first.width()
    }

    /// The height of both targets.
    pub fn height(&self) -> (height: u32)
        ensures
            height == self@.first.height,
            height == self@.second.height,
    {
        proof {
            use_type_invariant(self);
        }
        self.first.height()
    }

    /// Gives the pair up: the calls that destroy its objects, each once.
    pub fn release(self) -> (calls: Vec<Request>)
        ensures
            views(calls@) == self@.release_calls(),
            released(views(calls@)) == self@.holds(),
    {
        proof {
            use_type_invariant(&self);
            lemma_pair_release_balances(self@);
        }
        let mut calls = self.second.release();
        let mut rest = self.first.release();
        let ghost head = calls@;
        let ghost tail = rest@;
        calls.append(&mut rest);
        assert(views(calls@) =~= views(head) + views(tail));
        calls
    }
}

/// Releasing a pair destroys each object that it owns once, and nothing else.
pub proof fn lemma_pair_release_balances(pair: PingPongView)
    requires
        pair.wf(),
    ensures
        released(pair.release_calls()) == pair.holds(),
{
    lemma_released_concat(pair.second.release_calls(), pair.first.release_calls());
    lemma_target_release_balances(pair.first);
    lemma_target_release_balances(pair.second);
    assert(pair.second.holds().add(pair.first.holds()) =~= pair.holds());
}

enum PairState {
    Release { framebuffer: u32, texture: u32, build: RenderTargetBuild },
    First { build: RenderTargetBuild },
    Second { first: RenderTarget, build: RenderTargetBuild },
    Abandon { framebuffer: u32, texture: u32, failure: Error },
}

/// The construction of a [`PingPong`], under way.
///
/// The first target is built, then the second. Should the second fail, the
/// first is deleted before the failure is reported.
pub struct PingPongBuild {
    state: PairState,
}

/// A [`PingPongBuild`] as a mathematical value.
pub enum PingPongBuildView {
    /// Replacing a pair: the old second target is being deleted, framebuffer
    /// first (`framebuffer` is 0 once that is done); `build` will replace the
    /// old first target.
    Release { framebuffer: u32, texture: u32, build: RenderTargetBuildView },
    /// The first target is being built.
    First { build: RenderTargetBuildView },
    /// The second target is being built.
    Second { first: RenderTargetView, build: RenderTargetBuildView },
    /// Giving up: the first target is being deleted, framebuffer first
    /// (`framebuffer` is 0 once that is done).
    Abandon { framebuffer: u32, texture: u32, failure: ErrorView },
}

impl PingPongBuildView {
    /// The state in which the construction of a new pair begins.
    pub open spec fn create(width: u32, height: u32) -> PingPongBuildView {
        PingPongBuildView::First { build: RenderTargetBuildView::create(width, height) }
    }

    /// The state in which the replacement of `old` begins.
    pub open spec fn resize(old: PingPongView, width: u32, height: u32) -> PingPongBuildView {
        PingPongBuildView::Release {
            framebuffer: old.second.framebuffer,
            texture: old.second.texture,
            build: RenderTargetBuildView::resize(old.first, width, height),
        }
    }

    /// Whether every target that the build makes will have the given size.
    pub open spec fn aims_at(self, width: u32, height: u32) -> bool {
        match self {
            PingPongBuildView::Release { build, .. } => build.width == width && build.height
                == height,
            PingPongBuildView::First { build } => build.width == width && build.height == height,
            PingPongBuildView::Second { first, build } => build.width == width && build.height
                == height && first.width == width && first.height == height,
            PingPongBuildView::Abandon { .. } => true,
        }
    }
}

/// The call that deletes one of two objects: the framebuffer while there is
/// one, then the texture.
pub open spec fn delete_next(framebuffer: u32, texture: u32) -> RequestView {
    if framebuffer != 0 {
        RequestView::DeleteFramebuffer { framebuffer }
    } else {
        RequestView::DeleteTexture { texture }
    }
}

impl Machine for PingPongBuildView {
    type Product = PingPongView;

    open spec fn wf(self) -> bool {
        match self {
            PingPongBuildView::Release { framebuffer, texture, build } => texture != 0
                && build.wf() && build.phase is DropOldFramebuffer,
            PingPongBuildView::First { build } => build.wf(),
            PingPongBuildView::Second { first, build } => first.wf() && build.wf() && build.width
                == first.width && build.height == first.height,
            PingPongBuildView::Abandon { framebuffer, texture, failure } => texture != 0
                && !(failure is Driver),
        }
    }

    open spec fn request(self) -> RequestView {
        match self {
            PingPongBuildView::Release { framebuffer, texture, .. } => delete_next(
                framebuffer,
                texture,
            ),
            PingPongBuildView::First { build } => build.request(),
            PingPongBuildView::Second { build, .. } => build.request(),
            PingPongBuildView::Abandon { framebuffer, texture, .. } => delete_next(
                framebuffer,
                texture,
            ),
        }
    }

    open spec fn step(self, reply: ReplyView) -> Progress<
        PingPongBuildView,
        PingPongView,
        ErrorView,
    > {
        match self {
            PingPongBuildView::Release { framebuffer, texture, build } => unless_refused(
                self.request(),
                reply,
                if framebuffer != 0 {
                    Progress::Continue(
                        PingPongBuildView::Release { framebuffer: 0, texture, build },
                    )
                } else {
                    Progress::Continue(PingPongBuildView::First { build })
                },
            ),
            PingPongBuildView::First { build } => match build.step(reply) {
                Progress::Continue(build) => Progress::Continue(
                    PingPongBuildView::First { build },
                ),
                Progress::Done(first) => Progress::Continue(
                    PingPongBuildView::Second {
                        first,
                        build: RenderTargetBuildView::create(first.width, first.height),
                    },
                ),
                Progress::Failed(error) => Progress::Failed(error),
            },
            PingPongBuildView::Second { first, build } => match build.step(reply) {
                Progress::Continue(build) => Progress::Continue(
                    PingPongBuildView::Second { first, build },
                ),
                Progress::Done(second) => Progress::Done(PingPongView { first, second }),
                Progress::Failed(error) => if error is Driver {
                    Progress::Failed(error)
                } else {
                    Progress::Continue(
                        PingPongBuildView::Abandon {
                            framebuffer: first.framebuffer,
                            texture: first.texture,
                            failure: error,
                        },
                    )
                },
            },
            PingPongBuildView::Abandon { framebuffer, texture, failure } => unless_refused(
                self.request(),
                reply,
                if framebuffer != 0 {
                    Progress::Continue(
                        PingPongBuildView::Abandon { framebuffer: 0, texture, failure },
                    )
                } else {
                    Progress::Failed(failure)
                },
            ),
        }
    }

    open spec fn holds(self) -> Multiset<Resource> {
        match self {
            PingPongBuildView::Release { framebuffer, texture, build } => holding(
                Resource::Framebuffer(framebuffer),
            ).add(holding(Resource::Texture(texture))).add(build.holds()),
            PingPongBuildView::First { build } => build.holds(),
            PingPongBuildView::Second { first, build } => first.holds().add(build.holds()),
            PingPongBuildView::Abandon { framebuffer, texture, .. } => holding(
                Resource::Framebuffer(framebuffer),
            ).add(holding(Resource::Texture(texture))),
        }
    }

    open spec fn product_holds(product: PingPongView) -> Multiset<Resource> {
        product.holds()
    }

    proof fn lemma_destroys_own(self) {
        match self {
            PingPongBuildView::First { build } => {
                build.lemma_destroys_own();
            },
            PingPongBuildView::Second { first, build } => {
                build.lemma_destroys_own();
            },
            _ => {},
        }
    }

    proof fn lemma_step_keeps_books(self, reply: ReplyView) {
        let after = settle(self.holds(), self.request(), reply);
        match self {
            PingPongBuildView::First { build } => {
                build.lemma_step_keeps_books(reply);
                lemma_target_has_size(build, reply);
            },
            PingPongBuildView::Second { first, build } => {
                build.lemma_step_keeps_books(reply);
                build.lemma_destroys_own();
                lemma_target_has_size(build, reply);
                lemma_settle_beside(first.holds(), build.holds(), self.request(), reply);
                match build.step(reply) {
                    Progress::Failed(error) => {
                        if !(error is Driver) {
                            assert(first.holds().add(Multiset::empty()) =~= first.holds());
                        }
                    },
                    _ => {},
                }
            },
            _ => {
                if refusal(self.request(), reply) is None {
                    lemma_guard_passes(self.request(), reply);
                    match self.step(reply) {
                        Progress::Continue(next) => {
                            assert(next.holds() =~= after);
                        },
                        Progress::Done(product) => {},
                        Progress::Failed(error) => {
                            assert(after =~= Multiset::<Resource>::empty());
                        },
                    }
                }
            },
        }
    }
}

/// One step keeps the size that a build aims at, and a pair that is made
/// has it.
pub proof fn lemma_pair_step_has_size(
    build: PingPongBuildView,
    reply: ReplyView,
    width: u32,
    height: u32,
)
    requires
        build.wf(),
        build.aims_at(width, height),
    ensures
        match build.step(reply) {
            Progress::Continue(next) => next.aims_at(width, height),
            Progress::Done(pair) => pair.wf() && pair.first.width == width && pair.first.height
                == height && pair.second.width == width && pair.second.height == height,
            Progress::Failed(_) => true,
        },
{
    match build {
        PingPongBuildView::First { build } => {
            lemma_target_has_size(build, reply);
        },
        PingPongBuildView::Second { first, build } => {
            lemma_target_has_size(build, reply);
        },
        _ => {},
    }
}

/// However the driver answers, a pair that comes out of building or
/// resizing to a size has two whole targets of exactly that size.
pub proof fn lemma_pair_has_size(
    build: PingPongBuildView,
    replies: Seq<ReplyView>,
    width: u32,
    height: u32,
)
    requires
        build.wf(),
        build.aims_at(width, height),
    ensures
        run(build, replies) matches Progress::Done(pair) ==> pair.wf() && pair.first.width == width
            && pair.first.height == height && pair.second.width == width && pair.second.height
            == height,
    decreases replies.len(),
{
    if replies.len() > 0 {
        lemma_pair_step_has_size(build, replies.first(), width, height);
        build.lemma_step_keeps_books(replies.first());
        match build.step(replies.first()) {
            Progress::Continue(next) => {
                lemma_pair_has_size(next, replies.drop_first(), width, height);
            },
            _ => {},
        }
    }
}

/// Resizing a pair is releasing it and then building a new one: the first
/// four calls delete the objects of both old targets, and what follows is
/// the construction of a pair from nothing.
pub proof fn lemma_pair_resize_releases_first(
    old: PingPongView,
    width: u32,
    height: u32,
    replies: Seq<ReplyView>,
)
    requires
        old.wf(),
        replies.len() == 4,
        forall|i: int| 0 <= i < 4 ==> (#[trigger] replies[i]).error == NO_ERROR,
    ensures
        PingPongBuildView::resize(old, width, height).wf(),
        PingPongBuildView::resize(old, width, height).aims_at(width, height),
        calls_made(PingPongBuildView::resize(old, width, height), replies)
            == old.release_calls(),
        run(PingPongBuildView::resize(old, width, height), replies) == Progress::<
            PingPongBuildView,
            PingPongView,
            ErrorView,
        >::Continue(PingPongBuildView::create(width, height)),
{
    let start = PingPongBuildView::resize(old, width, height);
    let r1 = replies.drop_first();
    let r2 = r1.drop_first();
    let r3 = r2.drop_first();
    assert(r3.drop_first() =~= Seq::<ReplyView>::empty());
    assert(replies.first() == replies[0]);
    assert(r1.first() == replies[1]);
    assert(r2.first() == replies[2]);
    assert(r3.first() == replies[3]);
    let s1 = start.step(replies[0])->Continue_0;
    let s2 = s1.step(replies[1])->Continue_0;
    let s3 = s2.step(replies[2])->Continue_0;
    reveal_with_fuel(run, 5);
    reveal_with_fuel(calls_made, 5);
    assert(calls_made(s3, r3) =~= seq![s3.request()]);
    assert(calls_made(s2, r2) =~= seq![s2.request(), s3.request()]);
    assert(calls_made(s1, r1) =~= seq![s1.request(), s2.request(), s3.request()]);
    assert(calls_made(start, replies) =~= seq![
        start.request(),
        s1.request(),
        s2.request(),
        s3.request(),
    ]);
    assert(old.release_calls() =~= seq![
        start.request(),
        s1.request(),
        s2.request(),
        s3.request(),
    ]);
}

/// With a driver that is willing twice a pair is built in eighteen calls:
/// nine for the first target, nine for the second. Both have the size asked
/// for, and each is made of the texture and the framebuffer that the driver
/// handed out for it.
pub proof fn lemma_willing_driver_makes_pair(width: u32, height: u32, replies: Seq<ReplyView>)
    requires
        replies.len() == 18,
        willing(replies.take(9)),
        willing(replies.skip(9)),
    ensures
        run(PingPongBuildView::create(width, height), replies) == Progress::<
            PingPongBuildView,
            PingPongView,
            ErrorView,
        >::Done(
            PingPongView {
                first: RenderTargetView {
                    framebuffer: replies[4].value,
                    texture: replies[0].value,
                    width,
                    height,
                },
                second: RenderTargetView {
                    framebuffer: replies[13].value,
                    texture: replies[9].value,
                    width,
                    height,
                },
            },
        ),
{
    assert forall|i: int| 0 <= i < 18 implies (#[trigger] replies[i]).error == NO_ERROR by {
        if i < 9 {
            assert(replies.take(9)[i] == replies[i]);
        } else {
            assert(replies.skip(9)[i - 9] == replies[i]);
        }
    }
    assert(replies.take(9)[0] == replies[0]);
    assert(replies.take(9)[4] == replies[4]);
    assert(replies.take(9)[7] == replies[7]);
    assert(replies.skip(9)[0] == replies[9]);
    assert(replies.skip(9)[4] == replies[13]);
    assert(replies.skip(9)[7] == replies[16]);
    let b0 = RenderTargetBuildView::create(width, height);
    let b1 = b0.step(replies[0])->Continue_0;
    let b2 = b1.step(replies[1])->Continue_0;
    let b3 = b2.step(replies[2])->Continue_0;
    let b4 = b3.step(replies[3])->Continue_0;
    let b5 = b4.step(replies[4])->Continue_0;
    let b6 = b5.step(replies[5])->Continue_0;
    let b7 = b6.step(replies[6])->Continue_0;
    let b8 = b7.step(replies[7])->Continue_0;
    let first = b8.product();
    let c0 = RenderTargetBuildView::create(width, height);
    let c1 = c0.step(replies[9])->Continue_0;
    let c2 = c1.step(replies[10])->Continue_0;
    let c3 = c2.step(replies[11])->Continue_0;
    let c4 = c3.step(replies[12])->Continue_0;
    let c5 = c4.step(replies[13])->Continue_0;
    let c6 = c5.step(replies[14])->Continue_0;
    let c7 = c6.step(replies[15])->Continue_0;
    let c8 = c7.step(replies[16])->Continue_0;
    assert(replies.skip(0) =~= replies);
    lemma_run_unfolds(PingPongBuildView::First { build: b0 }, replies, 0);
    lemma_run_unfolds(PingPongBuildView::First { build: b1 }, replies, 1);
    lemma_run_unfolds(PingPongBuildView::First { build: b2 }, replies, 2);
    lemma_run_unfolds(PingPongBuildView::First { build: b3 }, replies, 3);
    lemma_run_unfolds(PingPongBuildView::First { build: b4 }, replies, 4);
    lemma_run_unfolds(PingPongBuildView::First { build: b5 }, replies, 5);
    lemma_run_unfolds(PingPongBuildView::First { build: b6 }, replies, 6);
    lemma_run_unfolds(PingPongBuildView::First { build: b7 }, replies, 7);
    lemma_run_unfolds(PingPongBuildView::First { build: b8 }, replies, 8);
    lemma_run_unfolds(PingPongBuildView::Second { first, build: c0 }, replies, 9);
    lemma_run_unfolds(PingPongBuildView::Second { first, build: c1 }, replies, 10);
    lemma_run_unfolds(PingPongBuildView::Second { first, build: c2 }, replies, 11);
    lemma_run_unfolds(PingPongBuildView::Second { first, build: c3 }, replies, 12);
    lemma_run_unfolds(PingPongBuildView::Second { first, build: c4 }, replies, 13);
    lemma_run_unfolds(PingPongBuildView::Second { first, build: c5 }, replies, 14);
    lemma_run_unfolds(PingPongBuildView::Second { first, build: c6 }, replies, 15);
    lemma_run_unfolds(PingPongBuildView::Second { first, build: c7 }, replies, 16);
    lemma_run_unfolds(PingPongBuildView::Second { first, build: c8 }, replies, 17);
}

/// Resizing a pair with a willing driver: four calls delete the old targets,
/// eighteen build the new ones, and the pair that comes out has the new size.
pub proof fn lemma_willing_driver_resizes_pair(
    old: PingPongView,
    width: u32,
    height: u32,
    deleted: Seq<ReplyView>,
    built: Seq<ReplyView>,
)
    requires
        old.wf(),
        deleted.len() == 4,
        forall|i: int| 0 <= i < 4 ==> (#[trigger] deleted[i]).error == NO_ERROR,
        built.len() == 18,
        willing(built.take(9)),
        willing(built.skip(9)),
    ensures
        run(PingPongBuildView::resize(old, width, height), deleted + built) == Progress::<
            PingPongBuildView,
            PingPongView,
            ErrorView,
        >::Done(
            PingPongView {
                first: RenderTargetView {
                    framebuffer: built[4].value,
                    texture: built[0].value,
                    width,
                    height,
                },
                second: RenderTargetView {
                    framebuffer: built[13].value,
                    texture: built[9].value,
                    width,
                    height,
                },
            },
        ),
{
    lemma_pair_resize_releases_first(old, width, height, deleted);
    lemma_willing_driver_makes_pair(width, height, built);
    lemma_run_concat(PingPongBuildView::resize(old, width, height), deleted, built);
}

impl View for PingPongBuild {
    type V = PingPongBuildView;

    closed spec fn view(&self) -> PingPongBuildView {
        match self.state {
            PairState::Release { framebuffer, texture, build } => PingPongBuildView::Release {
                framebuffer,
                texture,
                build: build@,
            },
            PairState::First { build } => PingPongBuildView::First { build: build@ },
            PairState::Second { first, build } => PingPongBuildView::Second {
                first: first@,
                build: build@,
            },
            PairState::Abandon { framebuffer, texture, failure } => PingPongBuildView::Abandon {
                framebuffer,
                texture,
                failure: failure@,
            },
        }
    }
}

fn delete_one(framebuffer: u32, texture: u32) -> (call: Request)
    ensures
        call@ == delete_next(framebuffer, texture),
{
    if framebuffer != 0 {
        Request::DeleteFramebuffer { framebuffer }
    } else {
        Request::DeleteTexture { texture }
    }
}

impl PingPongBuild {
    #[verifier::type_invariant]
    spec fn valid(self) -> bool {
        self@.wf()
    }

    /// The call that the build is waiting for.
    pub fn request(&self) -> (call: Request)
        ensures
            call@ == self@.request(),
    {
        match &self.state {
            PairState::Release { framebuffer, texture, .. } => delete_one(*framebuffer, *texture),
            PairState::First { build } => build.request(),
            PairState::Second { build, .. } => build.request(),
            PairState::Abandon { framebuffer, texture, .. } => delete_one(*framebuffer, *texture),
        }
    }

    /// Advances the build with the driver's reply to the pending call.
    pub fn step(self, reply: Reply) -> (progress: Progress<PingPongBuild, PingPong, Error>)
        ensures
            progress@ == self@.step(reply@),
    {
        proof {
            use_type_invariant(&self);
        }
        match self.state {
            PairState::Release { framebuffer, texture, build } => {
                let call = delete_one(framebuffer, texture);
                if let Err(error) = guard(&call, &reply) {
                    return Progress::Failed(error);
                }
                if framebuffer != 0 {
                    Progress::Continue(
                        PingPongBuild { state: PairState::Release { framebuffer: 0, texture, build } },
                    )
                } else {
                    Progress::Continue(PingPongBuild { state: PairState::First { build } })
                }
            },
            PairState::First { build } => {
                proof {
                    lemma_target_has_size(build@, reply@);
                    build@.lemma_step_keeps_books(reply@);
                }
                match build.step(reply) {
                    Progress::Continue(build) => Progress::Continue(
                        PingPongBuild { state: PairState::First { build } },
                    ),
                    Progress::Done(first) => {
                        let build = RenderTarget::create(first.width(), first.height());
                        Progress::Continue(PingPongBuild { state: PairState::Second { first, build } })
                    },
                    Progress::Failed(error) => Progress::Failed(error),
                }
            },
            PairState::Second { first, build } => {
                proof {
                    lemma_target_has_size(build@, reply@);
                    build@.lemma_step_keeps_books(reply@);
                }
                match build.step(reply) {
                    Progress::Continue(build) => Progress::Continue(
                        PingPongBuild { state: PairState::Second { first, build } },
                    ),
                    Progress::Done(second) => Progress::Done(PingPong { first, second }),
                    Progress::Failed(error) => {
                        let refused = match &error {
                            Error::Driver { .. } => true,
                            _ => false,
                        };
                        if refused {
                            Progress::Failed(error)
                        } else {
                            let framebuffer = first.framebuffer_handle();
                            let texture = first.texture_handle();
                            Progress::Continue(
                                PingPongBuild {
                                    state: PairState::Abandon { framebuffer, texture, failure: error },
                                },
                            )
                        }
                    },
                }
            },
            PairState::Abandon { framebuffer, texture, failure } => {
                let call = delete_one(framebuffer, texture);
                if let Err(error) = guard(&call, &reply) {
                    return Progress::Failed(error);
                }
                if framebuffer != 0 {
                    Progress::Continue(
                        PingPongBuild {
                            state: PairState::Abandon { framebuffer: 0, texture, failure },
                        },
                    )
                } else {
                    Progress::Failed(failure)
                }
            },
        }
    }
}

} // verus!
