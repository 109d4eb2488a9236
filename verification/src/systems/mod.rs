//! The render schedule: which passes run in a frame, and in which order.

pub mod skybox;
pub mod skybox_laws;

use vstd::prelude::*;

verus! {

/// The passes that a schedule can hold.
#[derive(Clone, Copy, Debug, PartialEq, Eq, Structural)]
pub enum PassId {
    Skybox,
    Line,
    Mesh,
}

/// One stage of a schedule under construction: a pass, and whether it is to
/// run.
#[derive(Clone, Copy, Debug, PartialEq, Eq, Structural)]
pub struct Stage {
    pub pass: PassId,
    pub enabled: bool,
}

/// The passes of the enabled stages, in the order of the stages.
pub open spec fn enabled_passes(stages: Seq<Stage>) -> Seq<PassId>
    decreases stages.len(),
{
    if stages.len() == 0 {
        Seq::empty()
    } else if stages.last().enabled {
        enabled_passes(stages.drop_last()).push(stages.last().pass)
    } else {
        enabled_passes(stages.drop_last())
    }
}

/// A schedule under construction: its stages in the order in which they
/// were declared.
pub struct ScheduleBuilder {
    stages: Vec<Stage>,
}

impl View for ScheduleBuilder {
    type V = Seq<Stage>;

    closed spec fn view(&self) -> Seq<Stage> {
        self.stages@
    }
}

/// The passes of a frame in the order in which they run.
#[derive(Clone, Debug, PartialEq, Eq)]
pub struct Schedule {
    passes: Vec<PassId>,
}

impl View for Schedule {
    type V = Seq<PassId>;

    closed spec fn view(&self) -> Seq<PassId> {
        self.passes@
    }
}

impl ScheduleBuilder {
    /// A builder without stages.
    pub fn new() -> (builder: ScheduleBuilder)
        ensures
            builder@ == Seq::<Stage>::empty(),
    {
        ScheduleBuilder { stages: Vec::new() }
    }

    /// Declares `pass` as the next stage, to run.
    pub fn add_system(self, pass: PassId) -> (builder: ScheduleBuilder)
        ensures
            builder@ == self@.push(Stage { pass, enabled: true }),
    {
        let mut stages = self.stages;
        stages.push(Stage { pass, enabled: true });
        ScheduleBuilder { stages }
    }

    /// Declares `pass` as the next stage, present but not to run.
    pub fn add_disabled(self, pass: PassId) -> (builder: ScheduleBuilder)
        ensures
            builder@ == self@.push(Stage { pass, enabled: false }),
    {
        let mut stages = self.stages;
        stages.push(Stage { pass, enabled: false });
        ScheduleBuilder { stages }
    }

    /// The declared stages, in order.
    pub fn stages(&self) -> (stages: &Vec<Stage>)
        ensures
            stages@ == self@,
    {
        &self.stages
    }

    /// The schedule of the enabled stages, in the order of their
    /// declaration.
    pub fn build(self) -> (schedule: Schedule)
        ensures
            schedule@ == enabled_passes(self@),
    {
        let mut passes: Vec<PassId> = Vec::new();
        let mut i: usize = 0;
        while i < self.stages.len()
            invariant
                i <= self.stages@.len(),
                passes@ == enabled_passes(self.stages@.take(i as int)),
            decreases self.stages@.len() - i,
        {
            let stage = self.stages[i];
            assert(self.stages@.take(i + 1).drop_last() =~= self.stages@.take(i as int));
            if stage.enabled {
                passes.push(stage.pass);
            }
            i += 1;
        }
        assert(self.stages@.take(i as int) =~= self.stages@);
        Schedule { passes }
    }
}

impl Schedule {
    /// The passes in the order in which they run.
    pub fn passes(&self) -> (passes: &Vec<PassId>)
        ensures
            passes@ == self@,
    {
        &self.passes
    }
}

/// The builder of the renderer's schedule: the skybox pass runs; the line
/// and mesh passes are declared behind it, in this order, and do not run.
pub fn create_render_schedule_builder() -> (builder: ScheduleBuilder)
    ensures
        builder@ == seq![
            Stage { pass: PassId::Skybox, enabled: true },
            Stage { pass: PassId::Line, enabled: false },
            Stage { pass: PassId::Mesh, enabled: false },
        ],
        enabled_passes(builder@) == seq![PassId::Skybox],
{
    let builder = ScheduleBuilder::new().add_system(skybox::create().id()).add_disabled(
        PassId::Line,
    ).add_disabled(PassId::Mesh);
    proof {
        let stages = builder@;
        assert(stages =~= seq![
            Stage { pass: PassId::Skybox, enabled: true },
            Stage { pass: PassId::Line, enabled: false },
            Stage { pass: PassId::Mesh, enabled: false },
        ]);
        let two = stages.drop_last();
        let one = two.drop_last();
        assert(one.drop_last() =~= Seq::<Stage>::empty());
        assert(enabled_passes(one.drop_last()) =~= Seq::<PassId>::empty());
        assert(enabled_passes(one) =~= seq![PassId::Skybox]);
        assert(enabled_passes(two) =~= seq![PassId::Skybox]);
    }
    builder
}

/// A schedule keeps the order of the declaration: the enabled passes of
/// the stages declared earlier all run before those of the stages declared
/// later.
pub proof fn lemma_schedule_keeps_declared_order(earlier: Seq<Stage>, later: Seq<Stage>)
    ensures
        enabled_passes(earlier + later) == enabled_passes(earlier) + enabled_passes(later),
    decreases later.len(),
{
    if later.len() == 0 {
        assert(earlier + later =~= earlier);
        assert(enabled_passes(earlier) + enabled_passes(later) =~= enabled_passes(earlier));
    } else {
        lemma_schedule_keeps_declared_order(earlier, later.drop_last());
        assert((earlier + later).drop_last() =~= earlier + later.drop_last());
        assert(enabled_passes(earlier + later) =~= enabled_passes(earlier) + enabled_passes(
            later,
        ));
    }
}

} // verus!
