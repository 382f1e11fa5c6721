//! The boot pipeline as a total-order state machine.
//!
//! Every kernel step of the boot is one transition. A step either succeeds,
//! moving to the next stage in a fixed order, or fails, jumping to the
//! terminal `Aborted` stage; nothing is retried and nothing is undone. The
//! unverified driver repeatedly asks `next_action` what to do, performs the
//! kernel call, and reports the outcome to `advance`.

use vstd::prelude::*;

verus! {

/// The stages of the boot, in the order they are reached.
#[derive(Clone, Copy, Debug, PartialEq, Eq, Structural)]
pub enum BootStage {
    /// Nothing has happened yet.
    Start,
    /// The byte offset of the embedded image inside the executable is known.
    ImageLocated,
    /// The mount namespace is detached and the mount tree made private.
    NamespaceIsolated,
    /// A loop device presents the embedded image as a block device.
    DeviceAttached,
    /// The writable overlay is composed and mounted at `merged`.
    OverlayMounted,
    /// Pseudo filesystems and host bind mounts are in place under `merged`.
    EnvironmentWired,
    /// `merged` is the root filesystem; the old root sits at `mnt/root`.
    RootSwitched,
    /// The process image has been replaced by the shell. Terminal.
    Replaced,
    /// Some step failed; the boot is over. Terminal.
    Aborted,
}

/// The kernel work that one transition performs.
#[derive(Clone, Copy, Debug, PartialEq, Eq, Structural)]
pub enum BootAction {
    /// Read the running executable and find the embedded image offset.
    LocateImage,
    /// Detach the mount namespace and make the mount tree private.
    IsolateNamespace,
    /// Bind a loop device to the image's byte range of the executable.
    AttachDevice,
    /// Stage the overlay directories and mount squashfs plus overlay.
    AssembleOverlay,
    /// Mount the required and best-effort filesystems under `merged`.
    WireEnvironment,
    /// Pivot the root to `merged`, old root to `mnt/root`.
    SwitchRoot,
    /// Replace the process image with the interactive shell.
    ReplaceProcess,
}

/// Position of a stage in the pipeline's total order; `Aborted` sits outside
/// the order and is given a negative position.
pub open spec fn stage_index(s: BootStage) -> int {
    match s {
        BootStage::Start => 0,
        BootStage::ImageLocated => 1,
        BootStage::NamespaceIsolated => 2,
        BootStage::DeviceAttached => 3,
        BootStage::OverlayMounted => 4,
        BootStage::EnvironmentWired => 5,
        BootStage::RootSwitched => 6,
        BootStage::Replaced => 7,
        BootStage::Aborted => -1,
    }
}

/// The stage reached when the action issued at `s` succeeds.
pub open spec fn spec_successor(s: BootStage) -> BootStage {
    match s {
        BootStage::Start => BootStage::ImageLocated,
        BootStage::ImageLocated => BootStage::NamespaceIsolated,
        BootStage::NamespaceIsolated => BootStage::DeviceAttached,
        BootStage::DeviceAttached => BootStage::OverlayMounted,
        BootStage::OverlayMounted => BootStage::EnvironmentWired,
        BootStage::EnvironmentWired => BootStage::RootSwitched,
        BootStage::RootSwitched => BootStage::Replaced,
        BootStage::Replaced => BootStage::Replaced,
        BootStage::Aborted => BootStage::Aborted,
    }
}

/// A stage from which no further action is issued.
pub open spec fn is_terminal(s: BootStage) -> bool {
    s == BootStage::Replaced || s == BootStage::Aborted
}

/// The action the pipeline issues at stage `s`, or `None` at a terminal
/// stage.
pub open spec fn spec_next_action(s: BootStage) -> Option<BootAction> {
    match s {
        BootStage::Start => Some(BootAction::LocateImage),
        BootStage::ImageLocated => Some(BootAction::IsolateNamespace),
        BootStage::NamespaceIsolated => Some(BootAction::AttachDevice),
        BootStage::DeviceAttached => Some(BootAction::AssembleOverlay),
        BootStage::OverlayMounted => Some(BootAction::WireEnvironment),
        BootStage::EnvironmentWired => Some(BootAction::SwitchRoot),
        BootStage::RootSwitched => Some(BootAction::ReplaceProcess),
        BootStage::Replaced => None,
        BootStage::Aborted => None,
    }
}

/// The stage after one step: success moves one place down the order,
/// failure aborts, terminal stages stay put.
pub open spec fn spec_advance(s: BootStage, ok: bool) -> BootStage {
    if is_terminal(s) {
        s
    } else if ok {
        spec_successor(s)
    } else {
        BootStage::Aborted
    }
}

/// True of the actions that add entries to the mount table of the
/// pipeline's namespace (the loop device attachment is a block-device
/// operation, not a mount).
pub open spec fn action_mounts(a: BootAction) -> bool {
    match a {
        BootAction::AssembleOverlay => true,
        BootAction::WireEnvironment => true,
        BootAction::SwitchRoot => true,
        _ => false,
    }
}

/// The stage reached by running the pipeline from `Start`, feeding it one
/// outcome per attempted step.
pub open spec fn run(events: Seq<bool>) -> BootStage
    decreases events.len(),
{
    if events.len() == 0 {
        BootStage::Start
    } else {
        spec_advance(run(events.drop_last()), events.last())
    }
}

/// What to do at stage `s`, `None` once the boot is over.
pub fn next_action(s: BootStage) -> (r: Option<BootAction>)
    ensures
        r == spec_next_action(s),
{
    match s {
        BootStage::Start => Some(BootAction::LocateImage),
        BootStage::ImageLocated => Some(BootAction::IsolateNamespace),
        BootStage::NamespaceIsolated => Some(BootAction::AttachDevice),
        BootStage::DeviceAttached => Some(BootAction::AssembleOverlay),
        BootStage::OverlayMounted => Some(BootAction::WireEnvironment),
        BootStage::EnvironmentWired => Some(BootAction::SwitchRoot),
        BootStage::RootSwitched => Some(BootAction::ReplaceProcess),
        BootStage::Replaced => None,
        BootStage::Aborted => None,
    }
}

/// A terminal stage is final: whatever outcomes are still reported, the
/// run stays where it is, and no further action is issued. In particular a
/// fatal failure ends the boot at once — an aborted run never mounts,
/// switches root or execs afterwards.
pub proof fn lemma_terminal_is_final(events: Seq<bool>, more: Seq<bool>)
    requires
        is_terminal(run(events)),
    ensures
        run(events + more) == run(events),
        spec_next_action(run(events + more)) is None,
    decreases more.len(),
{
    if more.len() == 0 {
        assert(events + more =~= events);
    } else {
        assert((events + more).drop_last() =~= events + more.drop_last());
        lemma_terminal_is_final(events, more.drop_last());
    }
}

/// A run in which every attempted step succeeded stands at the stage whose
/// position in the order equals the number of steps taken, up to the
/// terminal process replacement: nothing but a failed step ever halts or
/// reorders the pipeline.
pub proof fn lemma_all_successes_reach(events: Seq<bool>)
    requires
        forall|i: int| 0 <= i < events.len() ==> events[i],
    ensures
        stage_index(run(events)) == if events.len() <= 7 {
            events.len() as int
        } else {
            7
        },
    decreases events.len(),
{
    if events.len() > 0 {
        lemma_all_successes_reach(events.drop_last());
    }
}

/// Every stage of the order strictly below the stage a run has reached was
/// itself reached during the run and left by a successful step.
pub proof fn lemma_run_visits_order(events: Seq<bool>, s: BootStage)
    requires
        0 <= stage_index(s) < stage_index(run(events)),
    ensures
        exists|i: int| 0 <= i < events.len() && run(events.take(i)) == s && events[i],
    decreases events.len(),
{
    let prev = events.drop_last();
    let p = run(prev);
    if is_terminal(p) {
        lemma_run_visits_order(prev, s);
        let i: int = choose|i: int| 0 <= i < prev.len() && run(prev.take(i)) == s && prev[i];
        assert(events.take(i) =~= prev.take(i));
        assert(run(events.take(i)) == s && events[i]);
    } else if s == p {
        let i: int = events.len() - 1;
        assert(events.take(i) =~= prev);
        assert(run(events.take(i)) == s && events[i]);
    } else {
        lemma_run_visits_order(prev, s);
        let i: int = choose|i: int| 0 <= i < prev.len() && run(prev.take(i)) == s && prev[i];
        assert(events.take(i) =~= prev.take(i));
        assert(run(events.take(i)) == s && events[i]);
    }
}

/// Ordering invariant: the mounts under `merged` are attempted only at the
/// `OverlayMounted` stage, and a run stands at that stage only if it
/// passed through `DeviceAttached` and the overlay assembly issued there
/// succeeded. No environment mount is ever attempted before the overlay
/// mount.
pub proof fn lemma_wiring_only_after_overlay(events: Seq<bool>)
    requires
        spec_next_action(run(events)) == Some(BootAction::WireEnvironment),
    ensures
        run(events) == BootStage::OverlayMounted,
        exists|i: int|
            0 <= i < events.len() && run(events.take(i)) == BootStage::DeviceAttached
                && spec_next_action(run(events.take(i))) == Some(BootAction::AssembleOverlay)
                && events[i],
{
    lemma_run_visits_order(events, BootStage::DeviceAttached);
    let i: int = choose|i: int|
        0 <= i < events.len() && run(events.take(i)) == BootStage::DeviceAttached && events[i];
    assert(run(events.take(i)) == BootStage::DeviceAttached && spec_next_action(
        run(events.take(i)),
    ) == Some(BootAction::AssembleOverlay) && events[i]);
}

/// Isolation guarantee: every action that creates mounts is issued at a
/// stage a run reaches only after the namespace isolation, issued at
/// `ImageLocated`, succeeded — the pipeline never mounts into the host's
/// shared namespace.
pub proof fn lemma_mounts_only_after_isolation(events: Seq<bool>, a: BootAction)
    requires
        spec_next_action(run(events)) == Some(a),
        action_mounts(a),
    ensures
        exists|i: int|
            0 <= i < events.len() && run(events.take(i)) == BootStage::ImageLocated
                && spec_next_action(run(events.take(i))) == Some(BootAction::IsolateNamespace)
                && events[i],
{
    lemma_run_visits_order(events, BootStage::ImageLocated);
    let i: int = choose|i: int|
        0 <= i < events.len() && run(events.take(i)) == BootStage::ImageLocated && events[i];
    assert(run(events.take(i)) == BootStage::ImageLocated && spec_next_action(run(events.take(i)))
        == Some(BootAction::IsolateNamespace) && events[i]);
}

/// Record the outcome of the step attempted at stage `s`.
pub fn advance(s: BootStage, ok: bool) -> (r: BootStage)
    ensures
        r == spec_advance(s, ok),
{
    if s == BootStage::Replaced || s == BootStage::Aborted {
        s
    } else if ok {
        match s {
            BootStage::Start => BootStage::ImageLocated,
            BootStage::ImageLocated => BootStage::NamespaceIsolated,
            BootStage::NamespaceIsolated => BootStage::DeviceAttached,
            BootStage::DeviceAttached => BootStage::OverlayMounted,
            BootStage::OverlayMounted => BootStage::EnvironmentWired,
            BootStage::EnvironmentWired => BootStage::RootSwitched,
            BootStage::RootSwitched => BootStage::Replaced,
            BootStage::Replaced => BootStage::Replaced,
            BootStage::Aborted => BootStage::Aborted,
        }
    } else {
        BootStage::Aborted
    }
}

} // verus!
