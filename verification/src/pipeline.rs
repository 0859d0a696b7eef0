//! The pipeline runner: a sequence of effects, each reading what the one
//! before it drew, the last one drawing to the screen.

use vstd::prelude::*;
use vstd::multiset::Multiset;
use crate::call::{
    enabled_after, lemma_enabled_after_concat, lemma_released_concat, released,
    touches_no_object, views, Request, RequestView, Resource,
};
use crate::effect::{PostProcessingEffect, Scalar};
use crate::pair::{PingPong, PingPongView};
use crate::target::RenderTargetView;

verus! {

/// One of the two render targets of a pipeline.
#[derive(Clone, Copy, Debug, PartialEq, Eq, Structural)]
pub enum Slot {
    First,
    Second,
}

/// Where a stage draws.
#[derive(Clone, Copy, Debug, PartialEq, Eq, Structural)]
pub enum Destination {
    Target(Slot),
    Screen,
}

/// The target that a stage reads. The scene is in the first target, so the
/// stages read the first and the second in turn.
pub open spec fn source_of(stage: int) -> Slot {
    if stage % 2 == 0 {
        Slot::First
    } else {
        Slot::Second
    }
}

/// Where a stage of a pipeline of `stages` effects draws: the last one to
/// the screen, every other to the target that it does not read.
pub open spec fn destination_of(stage: int, stages: int) -> Destination {
    if stage + 1 == stages {
        Destination::Screen
    } else if stage % 2 == 0 {
        Destination::Target(Slot::Second)
    } else {
        Destination::Target(Slot::First)
    }
}

/// The stages form a chain from the scene to the screen: the first reads
/// the target that the scene was drawn into, each later one reads what the
/// one before it drew, no stage draws into the target that it reads, and
/// the last one, and only the last, draws to the screen.
pub proof fn lemma_stages_chain(stage: int, stages: int)
    requires
        0 <= stage < stages,
    ensures
        source_of(0) == Slot::First,
        stage + 1 < stages ==> destination_of(stage, stages) == Destination::Target(
            source_of(stage + 1),
        ),
        destination_of(stage, stages) != Destination::Target(source_of(stage)),
        destination_of(stage, stages) == Destination::Screen <==> stage == stages - 1,
{
}

/// The target that stage number `stage` reads.
pub fn source(stage: usize) -> (slot: Slot)
    ensures
        slot == source_of(stage as int),
{
    if stage % 2 == 0 {
        Slot::First
    } else {
        Slot::Second
    }
}

/// Where stage number `stage` of `stages` draws.
pub fn destination(stage: usize, stages: usize) -> (destination: Destination)
    ensures
        destination == destination_of(stage as int, stages as int),
{
    if stages > 0 && stage == stages - 1 {
        Destination::Screen
    } else if stage % 2 == 0 {
        Destination::Target(Slot::Second)
    } else {
        Destination::Target(Slot::First)
    }
}

/// The calls that destroy a list of effects, the last effect first.
pub open spec fn effects_release<E: PostProcessingEffect>(effects: Seq<E>) -> Seq<RequestView>
    decreases effects.len(),
{
    if effects.len() == 0 {
        Seq::empty()
    } else {
        effects.last().release_calls() + effects_release(effects.drop_last())
    }
}

/// The driver objects that a list of effects owns.
pub open spec fn effects_hold<E: PostProcessingEffect>(effects: Seq<E>) -> Multiset<Resource>
    decreases effects.len(),
{
    if effects.len() == 0 {
        Multiset::empty()
    } else {
        effects.last().holds().add(effects_hold(effects.drop_last()))
    }
}

/// An ordered sequence of effects and the two targets that they draw back
/// and forth between.
pub struct Pipeline<E: PostProcessingEffect> {
    effects: Vec<E>,
    targets: PingPong,
}

/// A [`Pipeline`] as a mathematical value.
pub struct PipelineView<E> {
    pub effects: Seq<E>,
    pub targets: PingPongView,
}

impl<E: PostProcessingEffect> PipelineView<E> {
    /// The target in a slot.
    pub open spec fn target(self, slot: Slot) -> RenderTargetView {
        match slot {
            Slot::First => self.targets.first,
            Slot::Second => self.targets.second,
        }
    }

    /// The framebuffer to bind for a destination; the screen is framebuffer 0.
    pub open spec fn framebuffer_of(self, destination: Destination) -> u32 {
        match destination {
            Destination::Target(slot) => self.target(slot).framebuffer,
            Destination::Screen => 0,
        }
    }

    /// The framebuffer that the scene is to be drawn into before the frame
    /// is run: the first target, or the screen itself when there is no
    /// effect to bring it there.
    pub open spec fn scene_framebuffer(self) -> u32 {
        if self.effects.len() == 0 {
            0
        } else {
            self.targets.first.framebuffer
        }
    }

    /// The calls of one stage: its destination is bound, then its effect is
    /// drawn, sampling from its source.
    pub open spec fn stage_calls(self, stage: int) -> Seq<RequestView> {
        seq![
            RequestView::BindFramebuffer {
                framebuffer: self.framebuffer_of(
                    destination_of(stage, self.effects.len() as int),
                ),
            },
        ] + self.effects[stage].draw_calls(self.target(source_of(stage)).texture)
    }

    /// The calls of the first `stages` stages, in order.
    pub open spec fn frame_prefix(self, stages: nat) -> Seq<RequestView>
        decreases stages,
    {
        if stages == 0 {
            Seq::empty()
        } else {
            self.frame_prefix((stages - 1) as nat) + self.stage_calls(stages - 1)
        }
    }

    /// The calls of a whole frame.
    pub open spec fn frame_calls(self) -> Seq<RequestView> {
        self.frame_prefix(self.effects.len())
    }

    /// The pipeline once every effect has taken the parameters of a frame;
    /// the targets are as they were.
    pub open spec fn updated(
        self,
        dt: Scalar,
        w: Scalar,
        h: Scalar,
        znear: Scalar,
        zfar: Scalar,
    ) -> PipelineView<E> {
        PipelineView {
            effects: self.effects.map_values(|effect: E| effect.updated(dt, w, h, znear, zfar)),
            targets: self.targets,
        }
    }

    /// The driver objects that the pipeline owns.
    pub open spec fn holds(self) -> Multiset<Resource> {
        effects_hold(self.effects).add(self.targets.holds())
    }

    /// The calls that destroy the pipeline: the effects, the last one first,
    /// then the targets.
    pub open spec fn release_calls(self) -> Seq<RequestView> {
        effects_release(self.effects) + self.targets.release_calls()
    }
}

impl<E: PostProcessingEffect> View for Pipeline<E> {
    type V = PipelineView<E>;

    closed spec fn view(&self) -> PipelineView<E> {
        PipelineView { effects: self.effects@, targets: self.targets@ }
    }
}

impl<E: PostProcessingEffect> Pipeline<E> {
    /// A pipeline that runs `effects` in order over `targets`.
    pub fn new(effects: Vec<E>, targets: PingPong) -> (pipeline: Pipeline<E>)
        ensures
            pipeline@.effects == effects@,
            pipeline@.targets == targets@,
    {
        Pipeline { effects, targets }
    }

    /// Takes the pipeline apart, as it must be to resize its targets.
    pub fn into_parts(self) -> (parts: (Vec<E>, PingPong))
        ensures
            parts.0@ == self@.effects,
            parts.1@ == self@.targets,
    {
        (self.effects, self.targets)
    }

    /// The number of stages.
    pub fn len(&self) -> (stages: usize)
        ensures
            stages == self@.effects.len(),
    {
        self.effects.len()
    }

    /// The two targets.
    pub fn targets(&self) -> (targets: &PingPong)
        ensures
            targets@ == self@.targets,
    {
        &self.targets
    }

    /// The framebuffer that the scene is to be drawn into before
    /// [`Pipeline::run_frame`]; 0 is the screen.
    pub fn scene_framebuffer(&self) -> (framebuffer: u32)
        ensures
            framebuffer == self@.scene_framebuffer(),
    {
        if self.effects.len() == 0 {
            0
        } else {
            self.targets.first().framebuffer_handle()
        }
    }

    /// Hands the parameters of the coming frame to every effect, each of
    /// which takes them in its own way. The targets stay as they are, and
    /// every effect owns what it owned before.
    pub fn update(&mut self, dt: Scalar, w: Scalar, h: Scalar, znear: Scalar, zfar: Scalar)
        ensures
            final(self)@ == old(self)@.updated(dt, w, h, znear, zfar),
            forall|i: int|
                0 <= i < old(self)@.effects.len() ==> (#[trigger] final(self)@.effects[i]).holds()
                    == old(self)@.effects[i].holds() && final(self)@.effects[i].release_calls()
                    == old(self)@.effects[i].release_calls(),
    {
        let stages = self.effects.len();
        let mut stage: usize = 0;
        while stage < stages
            invariant
                stage <= stages,
                stages == self.effects.len(),
                self@.targets == old(self)@.targets,
                self@.effects.len() == old(self)@.effects.len(),
                forall|i: int|
                    0 <= i < stage ==> (#[trigger] self@.effects[i]) == old(
                        self,
                    )@.effects[i].updated(dt, w, h, znear, zfar),
                forall|i: int|
                    stage <= i < stages ==> (#[trigger] self@.effects[i]) == old(self)@.effects[i],
                forall|i: int|
                    0 <= i < stages ==> (#[trigger] self@.effects[i]).holds() == old(
                        self,
                    )@.effects[i].holds() && self@.effects[i].release_calls() == old(
                        self,
                    )@.effects[i].release_calls(),
            decreases stages - stage,
        {
            self.effects[stage].update(dt, w, h, znear, zfar);
            stage += 1;
        }
        assert(self@.effects =~= old(self)@.updated(dt, w, h, znear, zfar).effects);
    }

    /// The calls of one frame: for each effect in order, its destination is
    /// bound and the effect is drawn, sampling from the target that the stage
    /// before it drew into; the first samples the scene, and the last draws to
    /// the screen. The frame leaves no vertex attribute array enabled, and
    /// neither creates nor destroys an object.
    pub fn run_frame(&self) -> (calls: Vec<Request>)
        ensures
            views(calls@) == self@.frame_calls(),
            enabled_after(Set::<u32>::empty(), views(calls@)) == Set::<u32>::empty(),
            touches_no_object(views(calls@)),
    {
        let stages = self.effects.len();
        let mut calls: Vec<Request> = Vec::new();
        let mut stage: usize = 0;
        assert(views(calls@) =~= self@.frame_prefix(0));
        while stage < stages
            invariant
                stage <= stages,
                stages == self.effects.len(),
                views(calls@) == self@.frame_prefix(stage as nat),
                enabled_after(Set::<u32>::empty(), views(calls@)) == Set::<u32>::empty(),
                touches_no_object(views(calls@)),
            decreases stages - stage,
        {
            let from = match source(stage) {
                Slot::First => self.targets.first(),
                Slot::Second => self.targets.second(),
            };
            let framebuffer = match destination(stage, stages) {
                Destination::Target(Slot::First) => self.targets.first().framebuffer_handle(),
                Destination::Target(Slot::Second) => self.targets.second().framebuffer_handle(),
                Destination::Screen => 0,
            };
            let mut drawn = self.effects[stage].draw(from);
            let ghost before = views(calls@);
            let ghost bind = seq![RequestView::BindFramebuffer { framebuffer }];
            let ghost draw = views(drawn@);
            calls.push(Request::BindFramebuffer { framebuffer });
            calls.append(&mut drawn);
            proof {
                let none = Set::<u32>::empty();
                assert(views(calls@) =~= before + (bind + draw));
                assert(bind + draw == self@.stage_calls(stage as int));
                assert(bind.drop_last() =~= Seq::<RequestView>::empty());
                reveal_with_fuel(enabled_after, 2);
                assert(enabled_after(none, bind) == none);
                lemma_enabled_after_concat(none, bind, draw);
                lemma_enabled_after_concat(none, before, bind + draw);
            }
            stage += 1;
        }
        calls
    }

    /// Gives the pipeline up: the calls that destroy every object that its
    /// effects and its targets own, each once, and nothing else.
    pub fn release(self) -> (calls: Vec<Request>)
        ensures
            views(calls@) == self@.release_calls(),
            released(views(calls@)) == self@.holds(),
    {
        let Pipeline { mut effects, targets } = self;
        let ghost all = effects@;
        let mut calls: Vec<Request> = Vec::new();
        assert(views(calls@) + effects_release(effects@) =~= effects_release(all));
        assert(released(views(calls@)).add(effects_hold(effects@)) =~= effects_hold(all));
        while effects.len() > 0
            invariant
                views(calls@) + effects_release(effects@) == effects_release(all),
                released(views(calls@)).add(effects_hold(effects@)) == effects_hold(all),
            decreases effects.len(),
        {
            let ghost listed = effects@;
            let ghost before = views(calls@);
            let effect = effects.pop().unwrap();
            let mut more = effect.release();
            let ghost freed = views(more@);
            calls.append(&mut more);
            proof {
                assert(effects@ =~= listed.drop_last());
                assert(views(calls@) =~= before + freed);
                assert((before + freed) + effects_release(effects@) =~= before + (freed
                    + effects_release(effects@)));
                lemma_released_concat(before, freed);
                assert(released(before).add(released(freed)).add(effects_hold(effects@))
                    =~= released(before).add(released(freed).add(effects_hold(effects@))));
            }
        }
        let ghost before = views(calls@);
        let mut last = targets.release();
        let ghost freed = views(last@);
        calls.append(&mut last);
        proof {
            assert(views(calls@) =~= before + freed);
            assert(effects@ =~= Seq::<E>::empty());
            assert(before + effects_release(effects@) =~= before);
            assert(released(before).add(effects_hold(effects@)) =~= released(before));
            lemma_released_concat(before, freed);
        }
        calls
    }
}

} // verus!
