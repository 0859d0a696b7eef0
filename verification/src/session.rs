//! Sessions: work that needs the driver's answers to go on.
//!
//! A session always has one request pending. Whoever owns the graphics
//! context performs it and advances the session with the reply, until the
//! session is done or has failed.

use vstd::prelude::*;
use vstd::multiset::Multiset;
use crate::call::{destroyed, settle, ReplyView, RequestView, Resource};
use crate::error::{refusal, ErrorView};

verus! {

/// Where a session stands after a reply.
#[derive(Debug, PartialEq, Eq)]
pub enum Progress<M, T, E> {
    /// The session goes on: it has another request pending.
    Continue(M),
    /// The session is over and has produced its result.
    Done(T),
    /// The session is over and has nothing to show.
    Failed(E),
}

impl<M: View, T: View, E: View> View for Progress<M, T, E> {
    type V = Progress<M::V, T::V, E::V>;

    open spec fn view(&self) -> Progress<M::V, T::V, E::V> {
        match *self {
            Progress::Continue(session) => Progress::Continue(session@),
            Progress::Done(product) => Progress::Done(product@),
            Progress::Failed(error) => Progress::Failed(error@),
        }
    }
}

/// Where a session stands after a call of its own: it has failed if the
/// driver refuses the call, and stands at `otherwise` if not.
pub open spec fn unless_refused<M, T>(
    call: RequestView,
    reply: ReplyView,
    otherwise: Progress<M, T, ErrorView>,
) -> Progress<M, T, ErrorView> {
    match refusal(call, reply) {
        Some(error) => Progress::Failed(error),
        None => otherwise,
    }
}

/// The mathematical model of a session, and the bookkeeping it obeys.
pub trait Machine: Sized {
    /// What the session produces.
    type Product;

    /// The states that a session can be in.
    spec fn wf(self) -> bool;

    /// The pending request.
    spec fn request(self) -> RequestView;

    /// Where the session stands once the pending request is answered.
    spec fn step(self, reply: ReplyView) -> Progress<Self, Self::Product, ErrorView>;

    /// The driver objects that the session is responsible for.
    spec fn holds(self) -> Multiset<Resource>;

    /// The driver objects that a product is responsible for.
    spec fn product_holds(product: Self::Product) -> Multiset<Resource>;

    /// A session destroys only what it holds.
    proof fn lemma_destroys_own(self)
        requires
            self.wf(),
        ensures
            destroyed(self.request()) matches Some(resource) ==> self.holds().count(resource) > 0,
    ;

    /// One step keeps the books: a session that goes on, and the product of
    /// one that is done, hold exactly what was held before, plus what the call
    /// created, minus what it destroyed; a session that fails for another
    /// reason than the driver's refusal leaves nothing behind.
    proof fn lemma_step_keeps_books(self, reply: ReplyView)
        requires
            self.wf(),
        ensures
            match self.step(reply) {
                Progress::Continue(next) => next.wf() && next.holds() == settle(
                    self.holds(),
                    self.request(),
                    reply,
                ),
                Progress::Done(product) => Self::product_holds(product) == settle(
                    self.holds(),
                    self.request(),
                    reply,
                ),
                Progress::Failed(error) => error is Driver || settle(
                    self.holds(),
                    self.request(),
                    reply,
                ) == Multiset::<Resource>::empty(),
            },
    ;
}

/// Where a session stands after a sequence of replies. Replies that come
/// after the session has ended are not looked at.
pub open spec fn run<M: Machine>(session: M, replies: Seq<ReplyView>) -> Progress<
    M,
    M::Product,
    ErrorView,
>
    decreases replies.len(),
{
    if replies.len() == 0 {
        Progress::Continue(session)
    } else {
        match session.step(replies.first()) {
            Progress::Continue(next) => run(next, replies.drop_first()),
            ended => ended,
        }
    }
}

/// A run begins with one step, and goes on from where that step leaves
/// the session.
pub proof fn lemma_run_unfolds<M: Machine>(session: M, replies: Seq<ReplyView>, done: int)
    requires
        0 <= done < replies.len(),
    ensures
        run(session, replies.skip(done)) == (match session.step(replies[done]) {
            Progress::Continue(next) => run(next, replies.skip(done + 1)),
            ended => ended,
        }),
{
    assert(replies.skip(done).first() == replies[done]);
    assert(replies.skip(done).drop_first() =~= replies.skip(done + 1));
}

/// A run over two sequences of replies, one after the other, is a run over
/// the first and, if the session goes on, a run over the second from there.
pub proof fn lemma_run_concat<M: Machine>(
    session: M,
    first: Seq<ReplyView>,
    second: Seq<ReplyView>,
)
    ensures
        run(session, first + second) == (match run(session, first) {
            Progress::Continue(next) => run(next, second),
            ended => ended,
        }),
    decreases first.len(),
{
    if first.len() == 0 {
        assert(first + second =~= second);
    } else {
        assert((first + second).first() == first.first());
        assert((first + second).drop_first() =~= first.drop_first() + second);
        match session.step(first.first()) {
            Progress::Continue(next) => {
                lemma_run_concat(next, first.drop_first(), second);
            },
            _ => {},
        }
    }
}

/// The calls that a session makes while it is fed `replies`, one per reply
/// that it looks at.
pub open spec fn calls_made<M: Machine>(session: M, replies: Seq<ReplyView>) -> Seq<RequestView>
    decreases replies.len(),
{
    if replies.len() == 0 {
        Seq::empty()
    } else {
        match session.step(replies.first()) {
            Progress::Continue(next) => seq![session.request()] + calls_made(
                next,
                replies.drop_first(),
            ),
            _ => seq![session.request()],
        }
    }
}

/// The books of live driver objects after the calls of `calls_made`, each
/// with its reply, given the objects that were live before.
pub open spec fn books<M: Machine>(
    session: M,
    replies: Seq<ReplyView>,
    live: Multiset<Resource>,
) -> Multiset<Resource>
    decreases replies.len(),
{
    if replies.len() == 0 {
        live
    } else {
        let after = settle(live, session.request(), replies.first());
        match session.step(replies.first()) {
            Progress::Continue(next) => books(next, replies.drop_first(), after),
            _ => after,
        }
    }
}

/// Resource balance over a whole run. However the driver answers: while the
/// session goes on it holds exactly the objects on the books; when it is done
/// its product holds exactly those; and when it fails for another reason than
/// the driver's refusal, no object is left on the books.
pub proof fn lemma_run_keeps_books<M: Machine>(session: M, replies: Seq<ReplyView>)
    requires
        session.wf(),
    ensures
        match run(session, replies) {
            Progress::Continue(last) => last.wf() && last.holds() == books(
                session,
                replies,
                session.holds(),
            ),
            Progress::Done(product) => M::product_holds(product) == books(
                session,
                replies,
                session.holds(),
            ),
            Progress::Failed(error) => error is Driver || books(
                session,
                replies,
                session.holds(),
            ) == Multiset::<Resource>::empty(),
        },
    decreases replies.len(),
{
    if replies.len() > 0 {
        session.lemma_step_keeps_books(replies.first());
        match session.step(replies.first()) {
            Progress::Continue(next) => {
                lemma_run_keeps_books(next, replies.drop_first());
            },
            _ => {},
        }
    }
}

} // verus!
