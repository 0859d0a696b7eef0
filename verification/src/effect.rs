//! What every full-screen effect offers to the pipeline that runs it.

use vstd::prelude::*;
use vstd::multiset::Multiset;
use crate::call::{
    enabled_after, released, touches_no_object, views, Request, RequestView, Resource,
};
use crate::target::RenderTarget;

verus! {

/// A per-frame parameter of an effect: a single-precision number, carried
/// by its bit pattern.
#[derive(Clone, Copy, Debug, PartialEq, Eq, Structural)]
pub struct Scalar {
    pub bits: u32,
}

/// A full-screen effect: it reads the texture of one render target and draws
/// over the whole of the bound destination.
pub trait PostProcessingEffect: Sized {
    /// The calls that draw the effect, sampling from `texture`.
    spec fn draw_calls(&self, texture: u32) -> Seq<RequestView>;

    /// The driver objects that the effect owns.
    spec fn holds(&self) -> Multiset<Resource>;

    /// The calls that destroy the effect.
    spec fn release_calls(&self) -> Seq<RequestView>;

    /// The effect as it is once it has taken the parameters of a frame.
    spec fn updated(&self, dt: Scalar, w: Scalar, h: Scalar, znear: Scalar, zfar: Scalar) -> Self;

    /// Takes the parameters of the coming frame. What each of them means is
    /// up to the effect. No driver call is made, and the effect owns what it
    /// owned before.
    fn update(&mut self, dt: Scalar, w: Scalar, h: Scalar, znear: Scalar, zfar: Scalar)
        ensures
            *final(self) == old(self).updated(dt, w, h, znear, zfar),
            final(self).holds() == old(self).holds(),
            final(self).release_calls() == old(self).release_calls(),
    ;

    /// The calls that draw the effect over the bound destination, sampling
    /// from `target`. Every vertex attribute array that they enable they
    /// disable again, and they neither create nor destroy an object.
    fn draw(&self, target: &RenderTarget) -> (calls: Vec<Request>)
        ensures
            views(calls@) == self.draw_calls(target@.texture),
            enabled_after(Set::<u32>::empty(), views(calls@)) == Set::<u32>::empty(),
            touches_no_object(views(calls@)),
    ;

    /// Gives the effect up: the calls that destroy each object that it owns
    /// once, and nothing else.
    fn release(self) -> (calls: Vec<Request>)
        ensures
            views(calls@) == self.release_calls(),
            released(views(calls@)) == self.holds(),
    ;
}

} // verus!
