//! The vault lifecycle machine: one scenario per recovery path, plus the
//! terminal and no-permission cases.

use ctv_vault::lifecycle::{
    apply_outcome, next_action, OperatorChoice, VaultAction, VaultStage,
};

#[test]
fn lifecycle_cold_recovery_scenario() {
    let stage = VaultStage::Funded;
    let action = next_action(stage, OperatorChoice::Unvault).unwrap();
    assert_eq!(action, VaultAction::BroadcastUnvault);
    let stage = apply_outcome(stage, action, true);
    assert_eq!(stage, VaultStage::VaultSpent);

    // A premature hot spend is rejected by the network: the timelock runs.
    let action = next_action(stage, OperatorChoice::SweepHot).unwrap();
    assert_eq!(action, VaultAction::BroadcastHotSpend);
    let stage = apply_outcome(stage, action, false);
    assert_eq!(stage, VaultStage::HotPending);

    // The cold sweep needs no wait.
    let action = next_action(stage, OperatorChoice::SweepCold).unwrap();
    assert_eq!(action, VaultAction::BroadcastColdSweep);
    let stage = apply_outcome(stage, action, true);
    assert_eq!(stage, VaultStage::ColdSwept);

    // Terminal: nothing moves the funds again.
    assert_eq!(next_action(stage, OperatorChoice::SweepHot), None);
    assert_eq!(next_action(stage, OperatorChoice::SweepCold), None);
    assert_eq!(apply_outcome(stage, VaultAction::BroadcastHotSpend, true), VaultStage::ColdSwept);
}

#[test]
fn lifecycle_hot_path_after_delay() {
    let stage = VaultStage::Funded;
    let stage = apply_outcome(stage, VaultAction::BroadcastUnvault, true);
    assert_eq!(stage, VaultStage::VaultSpent);
    let stage = apply_outcome(stage, VaultAction::BroadcastHotSpend, false);
    assert_eq!(stage, VaultStage::HotPending);
    // After the delay has elapsed the same broadcast is accepted.
    let stage = apply_outcome(stage, VaultAction::BroadcastHotSpend, true);
    assert_eq!(stage, VaultStage::HotSwept);
    assert_eq!(next_action(stage, OperatorChoice::Unvault), None);
    assert_eq!(apply_outcome(stage, VaultAction::BroadcastColdSweep, true), VaultStage::HotSwept);
}

#[test]
fn lifecycle_permits_no_early_sweeps() {
    // Before the unvault spend there is nothing to sweep.
    assert_eq!(next_action(VaultStage::Funded, OperatorChoice::SweepCold), None);
    assert_eq!(next_action(VaultStage::Funded, OperatorChoice::SweepHot), None);
    assert_eq!(
        apply_outcome(VaultStage::Funded, VaultAction::BroadcastColdSweep, true),
        VaultStage::Funded
    );
    // Unvaulting twice is not a move either.
    assert_eq!(next_action(VaultStage::VaultSpent, OperatorChoice::Unvault), None);
}
