//! The throttled fetch pipeline as a state machine: one step per event. The
//! driver performs each returned action (wait out the pacing interval, issue
//! a deadline-bounded call, probe a partition file, write to it) and hands
//! the resulting event back. The machine decides everything: which entity is
//! called next, what a success maps to, where it routes, what is written,
//! and that a failure or timeout only moves the pipeline to the next entity.
use vstd::prelude::*;

use crate::config::Output;
use crate::reading::RawReading;
use crate::record::LegacyRecord;
use crate::record::is_mapped;
use crate::record::path_text;
use crate::rowtext::append_text;
use crate::rowtext::render_append;
use crate::timetext::epoch_in_range;

verus! {

/// The per-entity result of one fetch attempt.
pub enum Outcome {
    /// The call completed with a reading.
    Reading(RawReading),
    /// The provider rejected the call or the transport failed.
    ApiError,
    /// The per-call deadline elapsed first; the call is abandoned.
    TimedOut,
}

/// What the driver reports back after performing an action.
pub enum Event {
    /// The pacing interval since the previous issuance has elapsed.
    Paced,
    /// The raced call resolved to this outcome.
    Completed(Outcome),
    /// Whether the probed partition file was already present.
    Probed(bool),
    /// Whether the write succeeded; a failed write is logged and the cycle
    /// moves on either way.
    Written(bool),
}

/// What the driver is asked to do next.
pub enum Action {
    /// Wait until one pacing interval has passed since the previous call was
    /// issued.
    Pace,
    /// Issue the fetch for this city id, raced against the per-call deadline.
    Call(u32),
    /// Report whether this partition path already exists.
    Probe(String),
    /// Append this exact text to this partition path.
    Write(String, String),
    /// Every entity has been attempted once; the cycle is over.
    Finished,
}

/// Where the machine stands for the current entity.
pub enum Phase {
    /// Waiting for the pacing interval before the entity's call.
    Pacing,
    /// The entity's call is in flight, raced against its deadline.
    Waiting,
    /// A reading was mapped; waiting to hear whether its partition file
    /// exists.
    Probing(LegacyRecord),
    /// Waiting to hear that the append was performed.
    Writing,
    /// The cycle is complete.
    Done,
}

/// The abstract stage of a phase, without the pending record.
pub enum Stage {
    Pacing,
    Waiting,
    Probing,
    Writing,
    Done,
}

/// The abstract kind of an event.
pub enum EventKind {
    Paced,
    GotReading,
    GotApiError,
    GotTimeout,
    Probed,
    Written,
}

/// The abstract kind of an action, keeping the called id.
pub enum StepKind {
    Pace,
    Call(u32),
    Probe,
    Write,
    Finished,
}

/// The abstract state of the pipeline: the configured ids, the position of
/// the current entity, and the stage.
pub ghost struct Model {
    pub ids: Seq<u32>,
    pub pos: int,
    pub stage: Stage,
}

impl Model {
    /// The position always points at an entity while work remains.
    pub open spec fn wf(self) -> bool {
        &&& self.stage is Done ==> self.pos <= self.ids.len()
        &&& !(self.stage is Done) ==> 0 <= self.pos < self.ids.len()
    }
}

/// The abstract state a fresh pipeline starts in.
pub open spec fn init_model(ids: Seq<u32>) -> Model {
    Model {
        ids,
        pos: 0,
        stage: if ids.len() == 0 {
            Stage::Done
        } else {
            Stage::Pacing
        },
    }
}

/// The stage of a concrete phase.
pub open spec fn stage_of(p: Phase) -> Stage {
    match p {
        Phase::Pacing => Stage::Pacing,
        Phase::Waiting => Stage::Waiting,
        Phase::Probing(_) => Stage::Probing,
        Phase::Writing => Stage::Writing,
        Phase::Done => Stage::Done,
    }
}

/// The kind of a concrete event.
pub open spec fn event_kind(ev: Event) -> EventKind {
    match ev {
        Event::Paced => EventKind::Paced,
        Event::Completed(o) => match o {
            Outcome::Reading(_) => EventKind::GotReading,
            Outcome::ApiError => EventKind::GotApiError,
            Outcome::TimedOut => EventKind::GotTimeout,
        },
        Event::Probed(_) => EventKind::Probed,
        Event::Written(_) => EventKind::Written,
    }
}

/// The kind of a concrete action.
pub open spec fn step_kind(a: Action) -> StepKind {
    match a {
        Action::Pace => StepKind::Pace,
        Action::Call(id) => StepKind::Call(id),
        Action::Probe(_) => StepKind::Probe,
        Action::Write(_, _) => StepKind::Write,
        Action::Finished => StepKind::Finished,
    }
}

/// Which events a stage can receive.
pub open spec fn event_matches(stage: Stage, ev: EventKind) -> bool {
    match stage {
        Stage::Pacing => ev is Paced,
        Stage::Waiting => ev is GotReading || ev is GotApiError || ev is GotTimeout,
        Stage::Probing => ev is Probed,
        Stage::Writing => ev is Written,
        Stage::Done => false,
    }
}

/// Moving on to the next entity: pace for it, or finish when none is left.
pub open spec fn spec_advance(m: Model) -> (Model, StepKind) {
    if m.pos + 1 < m.ids.len() {
        (Model { pos: m.pos + 1, stage: Stage::Pacing, ..m }, StepKind::Pace)
    } else {
        (Model { pos: m.pos + 1, stage: Stage::Done, ..m }, StepKind::Finished)
    }
}

/// The abstract transition: what one event does to the state, and the kind
/// of action it provokes.
pub open spec fn spec_step(m: Model, ev: EventKind) -> (Model, StepKind) {
    match m.stage {
        Stage::Pacing => (Model { stage: Stage::Waiting, ..m }, StepKind::Call(m.ids[m.pos])),
        Stage::Waiting => match ev {
            EventKind::GotReading => (Model { stage: Stage::Probing, ..m }, StepKind::Probe),
            _ => spec_advance(m),
        },
        Stage::Probing => (Model { stage: Stage::Writing, ..m }, StepKind::Write),
        Stage::Writing => spec_advance(m),
        Stage::Done => (m, StepKind::Finished),
    }
}

/// One poll cycle over a configured entity list: a one-shot, strictly
/// sequential traversal.
pub struct Pipeline {
    pub ids: Vec<u32>,
    pub output: Output,
    pub pos: usize,
    pub phase: Phase,
}

impl Pipeline {
    /// The abstract state this pipeline stands in.
    pub open spec fn model(self) -> Model {
        Model { ids: self.ids@, pos: self.pos as int, stage: stage_of(self.phase) }
    }

    pub open spec fn wf(self) -> bool {
        self.model().wf()
    }

    /// The events the driver may hand to `step` now: the event answers the
    /// pending action, and a reading is well-formed — at least one condition
    /// descriptor, and a timestamp the calendar accepts. The driver checks
    /// both and treats a malformed reading as a fatal, malformed payload.
    pub open spec fn valid_event(self, ev: Event) -> bool {
        &&& event_matches(stage_of(self.phase), event_kind(ev))
        &&& match ev {
            Event::Completed(Outcome::Reading(r)) => r.weather@.len() >= 1 && epoch_in_range(
                r.dt as int,
            ),
            _ => true,
        }
    }

    /// A fresh pipeline for one cycle over `ids`, in order.
    pub fn new(ids: Vec<u32>, output: Output) -> (p: Pipeline)
        ensures
            p.wf(),
            p.model() == init_model(ids@),
            p.output == output,
    {
        let phase = if ids.len() == 0 {
            Phase::Done
        } else {
            Phase::Pacing
        };
        Pipeline { ids, output, pos: 0, phase }
    }

    /// Whether the cycle is over.
    pub fn is_done(&self) -> (b: bool)
        ensures
            b == (self.phase is Done),
    {
        match &self.phase {
            Phase::Done => true,
            _ => false,
        }
    }

    fn advance_entity(&mut self) -> (a: Action)
        requires
            old(self).pos < old(self).ids@.len(),
        ensures
            final(self).ids == old(self).ids,
            final(self).output == old(self).output,
            final(self).pos == old(self).pos + 1,
            old(self).pos + 1 < old(self).ids@.len() ==> final(self).phase is Pacing && a
                is Pace,
            old(self).pos + 1 == old(self).ids@.len() ==> final(self).phase is Done && a
                is Finished,
    {
        let n = self.ids.len();
        self.pos = self.pos + 1;
        if self.pos < n {
            self.phase = Phase::Pacing;
            Action::Pace
        } else {
            self.phase = Phase::Done;
            Action::Finished
        }
    }

    /// One transition: consumes the event answering the pending action and
    /// returns the next action. The abstract effect is exactly
    /// `spec_step`; on a reading, the pending record is exactly the mapped
    /// one and the probe carries its partition path; on a probe answer, the
    /// write carries that path and the exact append text.
    pub fn step(&mut self, ev: Event) -> (a: Action)
        requires
            old(self).wf(),
            old(self).valid_event(ev),
        ensures
            final(self).wf(),
            final(self).ids == old(self).ids,
            final(self).output == old(self).output,
            final(self).model() == spec_step(old(self).model(), event_kind(ev)).0,
            step_kind(a) == spec_step(old(self).model(), event_kind(ev)).1,
            (ev matches Event::Completed(Outcome::Reading(r)) ==> {
                &&& final(self).phase matches Phase::Probing(rec) && is_mapped(r, rec)
                &&& a matches Action::Probe(p) && (final(self).phase matches Phase::Probing(rec)
                    ==> p@ == path_text(
                    old(self).output.directory@,
                    rec.city@,
                    rec.year as int,
                    old(self).output.extension@,
                ))
            }),
            (ev matches Event::Probed(present) ==> (old(self).phase matches Phase::Probing(rec)
                ==> a matches Action::Write(p, content) && p@ == path_text(
                old(self).output.directory@,
                rec.city@,
                rec.year as int,
                old(self).output.extension@,
            ) && content@ == append_text(rec, present, old(self).output.delimiter))),
    {
        let mut ph = Phase::Done;
        core::mem::swap(&mut self.phase, &mut ph);
        match (ph, ev) {
            (Phase::Pacing, Event::Paced) => {
                self.phase = Phase::Waiting;
                Action::Call(self.ids[self.pos])
            },
            (Phase::Waiting, Event::Completed(outcome)) => match outcome {
                Outcome::Reading(r) => {
                    let rec = crate::record::map(&r);
                    let p = rec.path(
                        self.output.directory.as_str(),
                        self.output.extension.as_str(),
                    );
                    self.phase = Phase::Probing(rec);
                    Action::Probe(p)
                },
                Outcome::ApiError => self.advance_entity(),
                Outcome::TimedOut => self.advance_entity(),
            },
            (Phase::Probing(rec), Event::Probed(present)) => {
                let p = rec.path(self.output.directory.as_str(), self.output.extension.as_str());
                let content = render_append(&rec, present, self.output.delimiter);
                self.phase = Phase::Writing;
                Action::Write(p, content)
            },
            (Phase::Writing, Event::Written(_)) => self.advance_entity(),
            _ => {
                proof {
                    assert(false);
                }
                vstd::pervasive::unreached()
            },
        }
    }
}

/// A sequence of events that answers the pipeline's actions stage by stage,
/// starting from `m`. Once the stage is `Done` no further event is valid.
pub open spec fn valid_run(m: Model, evs: Seq<EventKind>) -> bool
    decreases evs.len(),
{
    if evs.len() == 0 {
        true
    } else {
        &&& event_matches(m.stage, evs[0])
        &&& valid_run(spec_step(m, evs[0]).0, evs.drop_first())
    }
}

/// The kinds of the actions a run of events provokes, in order.
pub open spec fn run_actions(m: Model, evs: Seq<EventKind>) -> Seq<StepKind>
    decreases evs.len(),
{
    if evs.len() == 0 {
        Seq::<StepKind>::empty()
    } else {
        seq![spec_step(m, evs[0]).1] + run_actions(spec_step(m, evs[0]).0, evs.drop_first())
    }
}

/// The state a run of events ends in.
pub open spec fn run_end(m: Model, evs: Seq<EventKind>) -> Model
    decreases evs.len(),
{
    if evs.len() == 0 {
        m
    } else {
        run_end(spec_step(m, evs[0]).0, evs.drop_first())
    }
}

/// The ids carried by the `Call` actions of a run, in emission order.
pub open spec fn calls_of(steps: Seq<StepKind>) -> Seq<u32>
    decreases steps.len(),
{
    if steps.len() == 0 {
        Seq::<u32>::empty()
    } else {
        (match steps[0] {
            StepKind::Call(id) => seq![id],
            _ => Seq::<u32>::empty(),
        }) + calls_of(steps.drop_first())
    }
}

/// The entities a state still has to call: everything from the current
/// position on, except that an in-flight or routing entity was already
/// called.
pub open spec fn remaining_calls(m: Model) -> Seq<u32> {
    match m.stage {
        Stage::Pacing => m.ids.subrange(m.pos, m.ids.len() as int),
        Stage::Done => Seq::<u32>::empty(),
        _ => m.ids.subrange(m.pos + 1, m.ids.len() as int),
    }
}

/// One matching event preserves well-formedness and never touches the ids.
pub proof fn lemma_step_wf(m: Model, ev: EventKind)
    requires
        m.wf(),
        event_matches(m.stage, ev),
    ensures
        spec_step(m, ev).0.wf(),
        spec_step(m, ev).0.ids == m.ids,
{
}

/// Ordering: a run driven until the pipeline is done calls exactly the
/// entities the state still owes, in the order of the configured list —
/// whatever mix of readings, errors and timeouts the events carry.
pub proof fn lemma_calls_in_order(m: Model, evs: Seq<EventKind>)
    requires
        m.wf(),
        valid_run(m, evs),
        run_end(m, evs).stage is Done,
    ensures
        calls_of(run_actions(m, evs)) == remaining_calls(m),
    decreases evs.len(),
{
    if evs.len() == 0 {
        assert(calls_of(run_actions(m, evs)) =~= remaining_calls(m));
    } else {
        let m2 = spec_step(m, evs[0]).0;
        let a = spec_step(m, evs[0]).1;
        lemma_step_wf(m, evs[0]);
        lemma_calls_in_order(m2, evs.drop_first());
        let acts = run_actions(m, evs);
        assert(acts.drop_first() =~= run_actions(m2, evs.drop_first()));
        assert(calls_of(acts) == (match a {
            StepKind::Call(id) => seq![id],
            _ => Seq::<u32>::empty(),
        }) + remaining_calls(m2));
        match m.stage {
            Stage::Pacing => {
                assert(calls_of(acts) =~= remaining_calls(m));
            },
            _ => {
                assert(calls_of(acts) =~= remaining_calls(m));
            },
        }
    }
}

/// Ordering, from the start: a full cycle calls every configured entity
/// exactly once, in configuration order.
pub proof fn lemma_all_entities_called(ids: Seq<u32>, evs: Seq<EventKind>)
    requires
        valid_run(init_model(ids), evs),
        run_end(init_model(ids), evs).stage is Done,
    ensures
        calls_of(run_actions(init_model(ids), evs)) == ids,
{
    lemma_calls_in_order(init_model(ids), evs);
    assert(remaining_calls(init_model(ids)) =~= ids);
}

/// Pacing: every call a run issues is issued in answer to the pacing event,
/// so the driver's full pacing wait stands between the issuance of one call
/// and the next.
pub proof fn lemma_call_only_when_paced(m: Model, evs: Seq<EventKind>, j: int)
    requires
        m.wf(),
        valid_run(m, evs),
        0 <= j < run_actions(m, evs).len(),
        run_actions(m, evs)[j] is Call,
    ensures
        0 <= j < evs.len() && evs[j] is Paced,
    decreases evs.len(),
{
    let acts = run_actions(m, evs);
    let m2 = spec_step(m, evs[0]).0;
    lemma_step_wf(m, evs[0]);
    assert(acts.drop_first() =~= run_actions(m2, evs.drop_first()));
    if j == 0 {
        assert(acts[0] == spec_step(m, evs[0]).1);
    } else {
        lemma_call_only_when_paced(m2, evs.drop_first(), j - 1);
        assert(evs[j] == evs.drop_first()[j - 1]);
    }
}

/// A run answers one action per event.
pub proof fn lemma_run_len(m: Model, evs: Seq<EventKind>)
    ensures
        run_actions(m, evs).len() == evs.len(),
    decreases evs.len(),
{
    if evs.len() > 0 {
        lemma_run_len(spec_step(m, evs[0]).0, evs.drop_first());
    }
}

/// Ordering of outcomes: the event consumed right after a call is issued is
/// that call's own outcome — a reading, an error or a timeout — so outcomes
/// are taken up strictly in the order the entities were called.
pub proof fn lemma_outcome_follows_each_call(m: Model, evs: Seq<EventKind>, j: int)
    requires
        m.wf(),
        valid_run(m, evs),
        0 <= j,
        j + 1 < evs.len(),
        run_actions(m, evs)[j] is Call,
    ensures
        evs[j + 1] is GotReading || evs[j + 1] is GotApiError || evs[j + 1] is GotTimeout,
    decreases evs.len(),
{
    let acts = run_actions(m, evs);
    let m2 = spec_step(m, evs[0]).0;
    let dd = evs.drop_first();
    lemma_step_wf(m, evs[0]);
    lemma_run_len(m, evs);
    lemma_run_len(m2, dd);
    assert(valid_run(m2, dd));
    assert(acts.drop_first() =~= run_actions(m2, dd));
    if j == 0 {
        assert(acts[0] == spec_step(m, evs[0]).1);
        assert(m2.stage is Waiting);
        assert(valid_run(m2, dd) && dd.len() > 0 ==> event_matches(m2.stage, dd[0]));
        assert(evs[1] == dd[0]);
    } else {
        assert(run_actions(m2, dd)[j - 1] == acts[j]);
        lemma_outcome_follows_each_call(m2, dd, j - 1);
        assert(evs[j + 1] == dd[j]);
    }
}

/// Pacing, between calls: every call after the first is asked for only
/// right after a pacing action — the machine never issues two calls without
/// demanding a pacing wait in between.
pub proof fn lemma_pace_precedes_call(m: Model, evs: Seq<EventKind>, j: int)
    requires
        m.wf(),
        valid_run(m, evs),
        1 <= j < evs.len(),
        run_actions(m, evs)[j] is Call,
    ensures
        run_actions(m, evs)[j - 1] is Pace,
    decreases evs.len(),
{
    let acts = run_actions(m, evs);
    let m2 = spec_step(m, evs[0]).0;
    let dd = evs.drop_first();
    lemma_step_wf(m, evs[0]);
    lemma_run_len(m, evs);
    lemma_run_len(m2, dd);
    assert(valid_run(m2, dd));
    assert(acts.drop_first() =~= run_actions(m2, dd));
    if j == 1 {
        assert(acts[1] == run_actions(m2, dd)[0]);
        assert(acts[1] == spec_step(m2, dd[0]).1);
        assert(m2.stage is Pacing);
        assert(acts[0] == spec_step(m, evs[0]).1);
        assert(acts[0] is Pace);
    } else {
        assert(run_actions(m2, dd)[j - 1] == acts[j]);
        lemma_pace_precedes_call(m2, dd, j - 1);
        assert(acts[j - 1] == run_actions(m2, dd)[j - 2]);
    }
}

/// Error and timeout isolation: a failed or timed-out call provokes no probe
/// and no write for its entity, and the pipeline moves on — the next entity
/// is paced for when one is left, and only then is the cycle over.
pub proof fn lemma_failure_isolated(m: Model, ev: EventKind)
    requires
        m.wf(),
        m.stage is Waiting,
        ev is GotApiError || ev is GotTimeout,
    ensures
        ({
            let (m2, a) = spec_step(m, ev);
            &&& !(a is Probe) && !(a is Write) && !(a is Call)
            &&& m2.pos == m.pos + 1
            &&& m.pos + 1 < m.ids.len() ==> m2.stage is Pacing && a is Pace
            &&& m.pos + 1 == m.ids.len() ==> m2.stage is Done && a is Finished
        }),
{
}

} // verus!
