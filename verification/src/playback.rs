//! Playing a list of calls to the driver, one guarded call at a time.

use vstd::prelude::*;
use vstd::multiset::Multiset;
use crate::call::{
    destroyed, expects_handle, lemma_released_concat, released, settle, views, Reply, ReplyView,
    Request, RequestView, Resource,
};
use crate::error::{guard, lemma_guard_passes, refusal, Error, ErrorView};
use crate::session::{books, lemma_run_keeps_books, run, unless_refused, Machine, Progress};

verus! {

/// A list of calls that is being played to the driver. It stops at the
/// first call that the driver refuses: no call is made after that.
#[derive(Debug)]
pub struct Playback {
    calls: Vec<Request>,
    next: usize,
}

/// A [`Playback`] as a mathematical value: the list, and the index of the
/// pending call.
pub struct PlaybackView {
    pub calls: Seq<RequestView>,
    pub next: int,
}

impl PlaybackView {
    /// Where the playback of `calls` stands before any reply: done if there
    /// is nothing to play, else waiting for the reply to the first call.
    pub open spec fn start(calls: Seq<RequestView>) -> Progress<PlaybackView, (), ErrorView> {
        if calls.len() == 0 {
            Progress::Done(())
        } else {
            Progress::Continue(PlaybackView { calls, next: 0 })
        }
    }

    /// The calls that are not answered yet.
    pub open spec fn rest(self) -> Seq<RequestView> {
        self.calls.skip(self.next)
    }

    /// The pending call is one of the list.
    pub open spec fn in_range(self) -> bool {
        0 <= self.next < self.calls.len()
    }
}

/// The books are kept for lists that create no object: such a playback is
/// responsible for the objects that it has yet to destroy.
impl Machine for PlaybackView {
    type Product = ();

    open spec fn wf(self) -> bool {
        &&& self.in_range()
        &&& forall|i: int| 0 <= i < self.calls.len() ==> !expects_handle(#[trigger] self.calls[i])
    }

    open spec fn request(self) -> RequestView {
        self.calls[self.next]
    }

    open spec fn step(self, reply: ReplyView) -> Progress<PlaybackView, (), ErrorView> {
        unless_refused(
            self.request(),
            reply,
            if self.next + 1 >= self.calls.len() {
                Progress::Done(())
            } else {
                Progress::Continue(PlaybackView { calls: self.calls, next: self.next + 1 })
            },
        )
    }

    open spec fn holds(self) -> Multiset<Resource> {
        released(self.rest())
    }

    open spec fn product_holds(product: ()) -> Multiset<Resource> {
        Multiset::empty()
    }

    proof fn lemma_destroys_own(self) {
        lemma_rest_unfolds(self);
    }

    proof fn lemma_step_keeps_books(self, reply: ReplyView) {
        lemma_rest_unfolds(self);
        let after = settle(self.holds(), self.request(), reply);
        let tail = self.calls.skip(self.next + 1);
        if refusal(self.request(), reply) is None {
            lemma_guard_passes(self.request(), reply);
            assert(after =~= released(tail));
            if self.next + 1 >= self.calls.len() {
                assert(tail =~= Seq::<RequestView>::empty());
            }
        }
    }
}

/// What is left to destroy is what the pending call destroys and what the
/// calls after it destroy.
proof fn lemma_rest_unfolds(playback: PlaybackView)
    requires
        playback.in_range(),
    ensures
        released(playback.rest()) == (match destroyed(playback.request()) {
            Some(resource) => Multiset::singleton(resource),
            None => Multiset::empty(),
        }).add(released(playback.calls.skip(playback.next + 1))),
{
    let head = seq![playback.request()];
    let tail = playback.calls.skip(playback.next + 1);
    assert(playback.rest() =~= head + tail);
    lemma_released_concat(head, tail);
    assert(head.drop_last() =~= Seq::<RequestView>::empty());
    reveal_with_fuel(released, 2);
    assert(released(head) =~= (match destroyed(playback.request()) {
        Some(resource) => Multiset::singleton(resource),
        None => Multiset::empty(),
    }));
}

/// What is built and later released leaves nothing behind. Take any
/// session that runs to its product, and any list of calls that creates
/// nothing and destroys exactly what the product owns: once those calls have
/// been played to the end, the books hold no object that the session held or
/// made.
pub proof fn lemma_built_then_released_leaves_nothing<M: Machine>(
    build: M,
    replies: Seq<ReplyView>,
    release: Seq<RequestView>,
    answers: Seq<ReplyView>,
)
    requires
        build.wf(),
        run(build, replies) matches Progress::Done(product) && released(release)
            == M::product_holds(product),
        release.len() > 0,
        forall|i: int| 0 <= i < release.len() ==> !expects_handle(#[trigger] release[i]),
        run(PlaybackView { calls: release, next: 0 }, answers) is Done,
    ensures
        books(
            PlaybackView { calls: release, next: 0 },
            answers,
            books(build, replies, build.holds()),
        ) == Multiset::<Resource>::empty(),
{
    let playback = PlaybackView { calls: release, next: 0 };
    lemma_run_keeps_books(build, replies);
    assert(playback.rest() =~= release);
    lemma_run_keeps_books(playback, answers);
}

impl View for Playback {
    type V = PlaybackView;

    closed spec fn view(&self) -> PlaybackView {
        PlaybackView { calls: views(self.calls@), next: self.next as int }
    }
}

impl Playback {
    #[verifier::type_invariant]
    spec fn valid(self) -> bool {
        self@.in_range()
    }

    /// Begins to play `calls`, in order.
    pub fn start(calls: Vec<Request>) -> (progress: Progress<Playback, (), Error>)
        ensures
            progress@ == PlaybackView::start(views(calls@)),
    {
        if calls.len() == 0 {
            Progress::Done(())
        } else {
            Progress::Continue(Playback { calls, next: 0 })
        }
    }

    /// The call that the playback is waiting for.
    pub fn request(&self) -> (call: Request)
        ensures
            call@ == self@.request(),
    {
        proof {
            use_type_invariant(self);
        }
        self.calls[self.next].clone()
    }

    /// Advances the playback with the driver's reply to the pending call.
    pub fn step(self, reply: Reply) -> (progress: Progress<Playback, (), Error>)
        ensures
            progress@ == self@.step(reply@),
    {
        proof {
            use_type_invariant(&self);
        }
        if let Err(error) = guard(&self.calls[self.next], &reply) {
            return Progress::Failed(error);
        }
        let len = self.calls.len();
        assert(self.next < len);
        if self.next + 1 >= len {
            Progress::Done(())
        } else {
            Progress::Continue(Playback { calls: self.calls, next: self.next + 1 })
        }
    }
}

} // verus!
