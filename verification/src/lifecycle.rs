//! The lifecycle of one vault instance, as a pure decision machine: which
//! broadcast each operator choice asks for in each stage, and which stage a
//! node's verdict on that broadcast leads to. The caller performs the
//! broadcasts and reports back; a rejected hot spend (its relative timelock
//! not yet elapsed) is an expected outcome, not a fault, and leaves the
//! operator free to wait or to fall back to the cold sweep.

use vstd::prelude::*;

verus! {

/// Where one vault instance stands on chain.
#[derive(Clone, Copy, Debug, PartialEq, Eq)]
pub enum VaultStage {
    /// The vault address is funded.
    Funded,
    /// The CTV spend to the unvault address is confirmed.
    VaultSpent,
    /// A hot spend was rejected; the relative timelock is still running.
    HotPending,
    /// The cold sweep is through. Terminal.
    ColdSwept,
    /// The hot spend is through. Terminal.
    HotSwept,
}

/// What the operator asks for.
#[derive(Clone, Copy, Debug, PartialEq, Eq)]
pub enum OperatorChoice {
    /// Move the funds from the vault to the unvault address.
    Unvault,
    /// Sweep the unvault output to cold storage, with no wait.
    SweepCold,
    /// Spend the unvault output to the hot wallet through the delayed leaf.
    SweepHot,
}

/// A broadcast for the caller to perform.
#[derive(Clone, Copy, Debug, PartialEq, Eq, Structural)]
pub enum VaultAction {
    /// Broadcast the CTV spend of the vault output to the unvault address.
    BroadcastUnvault,
    /// Broadcast the CTV sweep of the unvault output to cold storage.
    BroadcastColdSweep,
    /// Broadcast the signed, delay-gated spend to the hot wallet.
    BroadcastHotSpend,
}

/// A stage the funds can never leave again.
pub open spec fn is_terminal(stage: VaultStage) -> bool {
    stage is ColdSwept || stage is HotSwept
}

/// The broadcast that `choice` asks for in `stage`, if the stage permits
/// one: unvaulting is the only move out of `Funded`, the two sweeps are the
/// only moves out of `VaultSpent` and `HotPending`, and a terminal stage
/// permits none.
pub open spec fn spec_next_action(stage: VaultStage, choice: OperatorChoice) -> Option<
    VaultAction,
> {
    match (stage, choice) {
        (VaultStage::Funded, OperatorChoice::Unvault) => Some(VaultAction::BroadcastUnvault),
        (VaultStage::VaultSpent, OperatorChoice::SweepCold) => Some(
            VaultAction::BroadcastColdSweep,
        ),
        (VaultStage::VaultSpent, OperatorChoice::SweepHot) => Some(VaultAction::BroadcastHotSpend),
        (VaultStage::HotPending, OperatorChoice::SweepCold) => Some(
            VaultAction::BroadcastColdSweep,
        ),
        (VaultStage::HotPending, OperatorChoice::SweepHot) => Some(VaultAction::BroadcastHotSpend),
        _ => None,
    }
}

/// The stage after the node's verdict on a permitted action: an accepted
/// broadcast advances the vault, a rejected hot spend parks it in
/// `HotPending` (the timelock has not elapsed), and any other rejection
/// leaves the stage as it was.
pub open spec fn spec_apply_outcome(
    stage: VaultStage,
    action: VaultAction,
    accepted: bool,
) -> VaultStage {
    if spec_next_action(stage, choice_for(action)) != Some(action) {
        stage
    } else if accepted {
        match action {
            VaultAction::BroadcastUnvault => VaultStage::VaultSpent,
            VaultAction::BroadcastColdSweep => VaultStage::ColdSwept,
            VaultAction::BroadcastHotSpend => VaultStage::HotSwept,
        }
    } else if action is BroadcastHotSpend {
        VaultStage::HotPending
    } else {
        stage
    }
}

/// The choice an action answers: each action is asked for by exactly one
/// operator choice.
pub open spec fn choice_for(action: VaultAction) -> OperatorChoice {
    match action {
        VaultAction::BroadcastUnvault => OperatorChoice::Unvault,
        VaultAction::BroadcastColdSweep => OperatorChoice::SweepCold,
        VaultAction::BroadcastHotSpend => OperatorChoice::SweepHot,
    }
}

/// Decides the broadcast for an operator choice in the current stage.
pub fn next_action(stage: VaultStage, choice: OperatorChoice) -> (r: Option<VaultAction>)
    ensures
        r == spec_next_action(stage, choice),
        is_terminal(stage) ==> r is None,
{
    match (stage, choice) {
        (VaultStage::Funded, OperatorChoice::Unvault) => Some(VaultAction::BroadcastUnvault),
        (VaultStage::VaultSpent, OperatorChoice::SweepCold) => Some(
            VaultAction::BroadcastColdSweep,
        ),
        (VaultStage::VaultSpent, OperatorChoice::SweepHot) => Some(VaultAction::BroadcastHotSpend),
        (VaultStage::HotPending, OperatorChoice::SweepCold) => Some(
            VaultAction::BroadcastColdSweep,
        ),
        (VaultStage::HotPending, OperatorChoice::SweepHot) => Some(VaultAction::BroadcastHotSpend),
        _ => None,
    }
}

/// Advances the stage by the node's verdict on a broadcast.
pub fn apply_outcome(stage: VaultStage, action: VaultAction, accepted: bool) -> (r: VaultStage)
    ensures
        r == spec_apply_outcome(stage, action, accepted),
        is_terminal(stage) ==> r == stage,
{
    let permitted = match next_action(stage, choice_for_action(action)) {
        Some(a) => a == action,
        None => false,
    };
    if !permitted {
        stage
    } else if accepted {
        match action {
            VaultAction::BroadcastUnvault => VaultStage::VaultSpent,
            VaultAction::BroadcastColdSweep => VaultStage::ColdSwept,
            VaultAction::BroadcastHotSpend => VaultStage::HotSwept,
        }
    } else {
        match action {
            VaultAction::BroadcastHotSpend => VaultStage::HotPending,
            _ => stage,
        }
    }
}

/// Maps an action back to the choice that asks for it.
pub fn choice_for_action(action: VaultAction) -> (r: OperatorChoice)
    ensures
        r == choice_for(action),
{
    match action {
        VaultAction::BroadcastUnvault => OperatorChoice::Unvault,
        VaultAction::BroadcastColdSweep => OperatorChoice::SweepCold,
        VaultAction::BroadcastHotSpend => OperatorChoice::SweepHot,
    }
}

/// `ColdSwept` and `HotSwept` are terminal: no choice yields an action
/// there, and no verdict moves the vault out of them.
pub proof fn lemma_terminal_stages_are_final(
    stage: VaultStage,
    choice: OperatorChoice,
    action: VaultAction,
    accepted: bool,
)
    requires
        is_terminal(stage),
    ensures
        spec_next_action(stage, choice) is None,
        spec_apply_outcome(stage, action, accepted) == stage,
{
}

} // verus!
