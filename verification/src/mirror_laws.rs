//! What holds of every synchronisation: that a mirror is cloned once and
//! fetched from then on, that a dry run changes nothing, and that the
//! signal of a transfer is given once.

use vstd::prelude::*;
use crate::errors::Fault;
use crate::mirror::{
    clones, sync_step, uses_network, writes_to_disk, Progress, Sync, SyncAction, SyncEvent,
    SyncOutcome, SyncStep,
};

verus! {

/// What the mirror of a repository is on disk. A directory that is there
/// is taken to be the bare mirror; nothing else is kept of it.
pub enum MirrorState {
    Absent,
    Present,
}

/// The mirror after a step that went as given, `None` standing for success,
/// and the event that the synchronisation is told of. The mirror is there
/// from the moment its directory has been created.
pub open spec fn carry_out(mirror: MirrorState, step: SyncStep, fault: Option<Fault>) -> (
    MirrorState,
    SyncEvent,
) {
    match step {
        SyncStep::Probe => (mirror, SyncEvent::Exists(mirror is Present)),
        SyncStep::CreateDirAll => match fault {
            None => (MirrorState::Present, SyncEvent::Completed),
            Some(fault) => (mirror, SyncEvent::Failed(fault)),
        },
        _ => match fault {
            None => (mirror, SyncEvent::Completed),
            Some(fault) => (mirror, SyncEvent::Failed(fault)),
        },
    }
}

/// A synchronisation together with the mirror that it works on.
pub struct Simulation {
    pub mirror: MirrorState,
    pub state: Sync,
    pub pending: SyncAction,
}

/// The synchronisation that began with the given mirror and whose steps,
/// one after the other, have gone as given. The last action that it asked
/// for is pending: it has not been carried out. Once it has ended, nothing
/// changes any more.
pub open spec fn simulate(mirror: MirrorState, dry_run: bool, faults: Seq<Option<Fault>>) -> Simulation
    decreases faults.len(),
{
    if faults.len() == 0 {
        let next = sync_step(Sync::Idle { dry_run }, SyncEvent::Started);
        Simulation { mirror, state: next.0, pending: next.1 }
    } else {
        let before = simulate(mirror, dry_run, faults.drop_last());
        match before.pending {
            SyncAction::Perform(step) => {
                let done = carry_out(before.mirror, step, faults.last());
                let next = sync_step(before.state, done.1);
                Simulation { mirror: done.0, state: next.0, pending: next.1 }
            },
            SyncAction::Finish(_) => before,
        }
    }
}

/// Whether the pending action is the one that the state waits for.
spec fn awaited(state: Sync, pending: SyncAction) -> bool {
    match state {
        Sync::Idle { .. } => false,
        Sync::Probing { .. } => pending == SyncAction::Perform(SyncStep::Probe),
        Sync::Creating => pending == SyncAction::Perform(SyncStep::CreateDirAll),
        Sync::Initializing => pending == SyncAction::Perform(SyncStep::InitBare),
        Sync::AddingOrigin => pending == SyncAction::Perform(SyncStep::AddOrigin),
        Sync::Opening => pending == SyncAction::Perform(SyncStep::OpenBare),
        Sync::Fetching { .. } => pending == SyncAction::Perform(SyncStep::FetchOrigin),
        Sync::Finished => pending is Finish,
    }
}

/// What holds of a dry run so far.
spec fn dry_run_kept(mirror: MirrorState, sim: Simulation) -> bool {
    &&& sim.mirror == mirror
    &&& sim.state is Probing || sim.state is Finished
    &&& sim.pending matches SyncAction::Finish(Ok(outcome)) ==> outcome == (if mirror is Present {
        SyncOutcome::WouldFetch
    } else {
        SyncOutcome::WouldClone
    })
}

/// What holds so far of a run on a mirror that was there.
spec fn fetch_kept(sim: Simulation) -> bool {
    &&& sim.mirror is Present
    &&& !(sim.state is Creating || sim.state is Initializing || sim.state is AddingOrigin)
    &&& sim.state matches Sync::Fetching { cloning } ==> !cloning
    &&& sim.pending matches SyncAction::Finish(Ok(outcome)) ==> outcome == SyncOutcome::Fetched
}

/// What holds so far of a run on a mirror that was not there.
spec fn clone_kept(sim: Simulation) -> bool {
    &&& !(sim.state is Opening)
    &&& sim.state matches Sync::Fetching { cloning } ==> cloning
    &&& sim.state is Initializing || sim.state is AddingOrigin || sim.state is Fetching
        ==> sim.mirror is Present
    &&& sim.pending matches SyncAction::Finish(Ok(outcome)) ==> outcome == SyncOutcome::Cloned
        && sim.mirror is Present
}

proof fn lemma_simulation(mirror: MirrorState, dry_run: bool, faults: Seq<Option<Fault>>)
    ensures
        ({
            let sim = simulate(mirror, dry_run, faults);
            &&& awaited(sim.state, sim.pending)
            &&& sim.state matches Sync::Probing { dry_run: d } ==> d == dry_run && sim.mirror
                == mirror
            &&& dry_run ==> dry_run_kept(mirror, sim)
            &&& !dry_run && mirror is Present ==> fetch_kept(sim)
            &&& !dry_run && mirror is Absent ==> clone_kept(sim)
        }),
    decreases faults.len(),
{
    if faults.len() > 0 {
        lemma_simulation(mirror, dry_run, faults.drop_last());
    }
}

/// A synchronisation of a mirror that is not there, if it ends well, has
/// cloned it, and the mirror is there afterwards.
pub proof fn lemma_absent_is_cloned(faults: Seq<Option<Fault>>)
    requires
        simulate(MirrorState::Absent, false, faults).pending is Finish,
        simulate(MirrorState::Absent, false, faults).pending->Finish_0 is Ok,
    ensures
        simulate(MirrorState::Absent, false, faults).pending == SyncAction::Finish(
            Ok(SyncOutcome::Cloned),
        ),
        simulate(MirrorState::Absent, false, faults).mirror is Present,
{
    lemma_simulation(MirrorState::Absent, false, faults);
}

/// A synchronisation of a mirror that is there never asks for a step of
/// cloning, leaves the mirror there, and, if it ends well, has fetched.
pub proof fn lemma_present_is_fetched(faults: Seq<Option<Fault>>)
    ensures
        simulate(MirrorState::Present, false, faults).mirror is Present,
        simulate(MirrorState::Present, false, faults).pending matches SyncAction::Perform(step)
            ==> !clones(step),
        simulate(MirrorState::Present, false, faults).pending matches SyncAction::Finish(
            Ok(outcome),
        ) ==> outcome == SyncOutcome::Fetched,
{
    lemma_simulation(MirrorState::Present, false, faults);
}

/// Of two synchronisations of one mirror, the second on what the first has
/// left: where the mirror was not there and the first ends well, the first
/// has cloned it, and the second asks for no step of cloning and, if it
/// ends well, has fetched.
pub proof fn lemma_clone_once_then_fetch(first: Seq<Option<Fault>>, second: Seq<Option<Fault>>)
    requires
        simulate(MirrorState::Absent, false, first).pending is Finish,
        simulate(MirrorState::Absent, false, first).pending->Finish_0 is Ok,
    ensures
        simulate(MirrorState::Absent, false, first).pending == SyncAction::Finish(
            Ok(SyncOutcome::Cloned),
        ),
        simulate(simulate(MirrorState::Absent, false, first).mirror, false, second).pending
            matches SyncAction::Perform(step) ==> !clones(step),
        simulate(simulate(MirrorState::Absent, false, first).mirror, false, second).pending
            matches SyncAction::Finish(Ok(outcome)) ==> outcome == SyncOutcome::Fetched,
{
    lemma_absent_is_cloned(first);
    lemma_present_is_fetched(second);
}

/// A dry run looks whether the mirror is there and does nothing else: it
/// asks for no step that writes to disk or talks to the remote, leaves the
/// mirror as it was, and ends by saying what a run would do.
pub proof fn lemma_dry_run_changes_nothing(mirror: MirrorState, faults: Seq<Option<Fault>>)
    ensures
        simulate(mirror, true, faults).mirror == mirror,
        simulate(mirror, true, faults).pending matches SyncAction::Perform(step) ==> step
            is Probe && !writes_to_disk(step) && !uses_network(step),
        simulate(mirror, true, faults).pending matches SyncAction::Finish(Ok(outcome)) ==> outcome
            == (if mirror is Present {
            SyncOutcome::WouldFetch
        } else {
            SyncOutcome::WouldClone
        }),
        faults.len() >= 1 ==> simulate(mirror, true, faults).pending is Finish,
{
    lemma_simulation(mirror, true, faults);
    lemma_dry_run_ends(mirror, faults);
}

proof fn lemma_dry_run_ends(mirror: MirrorState, faults: Seq<Option<Fault>>)
    ensures
        faults.len() >= 1 ==> simulate(mirror, true, faults).pending is Finish,
    decreases faults.len(),
{
    if faults.len() > 1 {
        lemma_dry_run_ends(mirror, faults.drop_last());
    } else if faults.len() == 1 {
        assert(simulate(mirror, true, faults.drop_last()).pending == SyncAction::Perform(
            SyncStep::Probe,
        ));
    }
}

/// What the signal answers to each of `times` reports of activity, from
/// the given state of the signal on.
pub open spec fn signals(progress: Progress, times: nat) -> Seq<bool>
    decreases times,
{
    if times == 0 {
        Seq::empty()
    } else {
        seq![!progress.announced] + signals(Progress { announced: true }, (times - 1) as nat)
    }
}

/// However often a transfer reports activity, the signal is due at the
/// first report of a synchronisation and at no other.
pub proof fn lemma_signal_once(times: nat, i: int)
    requires
        0 <= i < times,
    ensures
        signals(Progress { announced: false }, times).len() == times,
        signals(Progress { announced: false }, times)[i] == (i == 0),
{
    lemma_signals(Progress { announced: false }, times);
}

proof fn lemma_signals(progress: Progress, times: nat)
    ensures
        signals(progress, times).len() == times,
        forall|i: int|
            0 <= i < times ==> signals(progress, times)[i] == (i == 0 && !progress.announced),
    decreases times,
{
    if times > 0 {
        lemma_signals(Progress { announced: true }, (times - 1) as nat);
    }
}

} // verus!
