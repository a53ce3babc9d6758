//! The entry routine that the boot trampoline jumps to: what it does, and in
//! which order.
//!
//! The routine clears the region of uninitialized data, installs the trap
//! vector, runs the kernel's `main`, and shuts the system down when `main`
//! returns.  Should the shutdown request itself return, the hart is parked:
//! interrupts off, wait, again and again.  The steps touch registers,
//! firmware and raw memory, so they are carried out by the caller; the order
//! and the arguments of the steps are decided here.

use vstd::prelude::*;

verus! {

/// How the processor picks the handler of a trap.
#[derive(Clone, Copy, Debug, PartialEq, Eq, Structural)]
pub enum TrapMode {
    /// Every trap enters at the vector base.
    Direct,
    /// Interrupts enter at the base plus four times their cause.
    Vectored,
}

/// What is written to the trap-vector register.
#[derive(Clone, Copy, Debug, PartialEq, Eq, Structural)]
pub struct StvecSetting {
    /// Address of the trap handler.
    pub base: usize,
    /// How traps are dispatched.
    pub mode: TrapMode,
}

/// Kind of system reset asked of the firmware.
#[derive(Clone, Copy, Debug, PartialEq, Eq, Structural)]
pub enum ResetType {
    /// Power the system off.
    Shutdown,
    /// Power-cycle the system.
    ColdReboot,
    /// Restart without a power cycle.
    WarmReboot,
}

/// Why the reset is asked for.
#[derive(Clone, Copy, Debug, PartialEq, Eq, Structural)]
pub enum ResetReason {
    /// Nothing went wrong.
    NoReason,
    /// The system failed.
    SystemFailure,
}

/// What the entry routine is started with: the two boot arguments, and the
/// addresses that the link provides.
#[derive(Clone, Copy, Debug, PartialEq, Eq, Structural)]
pub struct EntryArgs {
    /// Identifier of the hart that boots.
    pub cpu_id: usize,
    /// Address of the device-tree blob.
    pub dtb: usize,
    /// First byte of the uninitialized data.
    pub sbss: usize,
    /// First byte after the uninitialized data.
    pub ebss: usize,
    /// Address of the trap handler.
    pub trap_vector_base: usize,
}

/// How far the entry routine has come.
#[derive(Clone, Copy, Debug, PartialEq, Eq, Structural)]
pub enum EntryStage {
    /// Just entered; nothing done yet.
    Entered,
    /// The uninitialized data is cleared.
    BssCleared,
    /// The trap vector is installed.
    TrapVectorSet,
    /// `main` has returned.
    MainReturned,
    /// Shutdown was asked for, and the hart is to be parked.
    Halting,
    /// Interrupts are off; the hart is about to wait.
    IrqsDisabled,
}

/// One step of the entry routine.
#[derive(Clone, Copy, Debug, PartialEq, Eq, Structural)]
pub enum EntryAction {
    /// Fill the bytes from `start` up to, not including, `end` with zero.
    ClearBss { start: usize, end: usize },
    /// Write the trap-vector register.
    SetTrapVector { setting: StvecSetting },
    /// Call the kernel's `main`.
    CallMain { cpu_id: usize, dtb: usize },
    /// Ask the firmware for a system reset.
    SystemReset { reset_type: ResetType, reason: ResetReason },
    /// Clear the interrupt-enable flag.
    DisableIrqs,
    /// Stall the hart until an interrupt is pending.
    WaitForInterrupt,
}

/// A step to carry out, and the stage reached once it is done.
#[derive(Clone, Copy, Debug, PartialEq, Eq, Structural)]
pub struct EntryStep {
    /// What to do now.
    pub action: EntryAction,
    /// Where the routine stands afterwards.
    pub next: EntryStage,
}

/// The step that the entry routine takes at `stage`.
pub open spec fn entry_step(args: EntryArgs, stage: EntryStage) -> EntryStep {
    match stage {
        EntryStage::Entered => EntryStep {
            action: EntryAction::ClearBss { start: args.sbss, end: args.ebss },
            next: EntryStage::BssCleared,
        },
        EntryStage::BssCleared => EntryStep {
            action: EntryAction::SetTrapVector {
                setting: StvecSetting { base: args.trap_vector_base, mode: TrapMode::Direct },
            },
            next: EntryStage::TrapVectorSet,
        },
        EntryStage::TrapVectorSet => EntryStep {
            action: EntryAction::CallMain { cpu_id: args.cpu_id, dtb: args.dtb },
            next: EntryStage::MainReturned,
        },
        EntryStage::MainReturned => EntryStep {
            action: EntryAction::SystemReset {
                reset_type: ResetType::Shutdown,
                reason: ResetReason::NoReason,
            },
            next: EntryStage::Halting,
        },
        EntryStage::Halting => EntryStep {
            action: EntryAction::DisableIrqs,
            next: EntryStage::IrqsDisabled,
        },
        EntryStage::IrqsDisabled => EntryStep {
            action: EntryAction::WaitForInterrupt,
            next: EntryStage::Halting,
        },
    }
}

/// The stage that the routine has reached after `n` steps.
pub open spec fn stage_after(args: EntryArgs, n: nat) -> EntryStage
    decreases n,
{
    if n == 0 {
        EntryStage::Entered
    } else {
        entry_step(args, stage_after(args, (n - 1) as nat)).next
    }
}

/// The `n`-th step of the routine, counting from zero.
pub open spec fn action_at(args: EntryArgs, n: nat) -> EntryAction {
    entry_step(args, stage_after(args, n)).action
}

/// Fills `mem[start..end]` with zero and leaves every other byte as it was.
pub fn clear_bss(mem: &mut [u8], start: usize, end: usize)
    requires
        start <= end <= old(mem)@.len(),
    ensures
        final(mem)@.len() == old(mem)@.len(),
        forall|i: int| start <= i < end ==> final(mem)@[i] == 0,
        forall|i: int|
            0 <= i < old(mem)@.len() && !(start <= i < end) ==> final(mem)@[i] == old(mem)@[i],
{
    let mut at: usize = start;
    while at < end
        invariant
            start <= at <= end <= mem@.len(),
            mem@.len() == old(mem)@.len(),
            forall|i: int| start <= i < at ==> mem@[i] == 0,
            forall|i: int| 0 <= i < mem@.len() && !(start <= i < at) ==> mem@[i] == old(mem)@[i],
        decreases end - at,
    {
        mem[at] = 0;
        at = at + 1;
    }
}

/// Decides what to write to the trap-vector register so that every trap
/// enters at `stvec`.
pub fn set_trap_vector_base(stvec: usize) -> (setting: StvecSetting)
    ensures
        setting == (StvecSetting { base: stvec, mode: TrapMode::Direct }),
{
    StvecSetting { base: stvec, mode: TrapMode::Direct }
}

/// Tells the entry routine what to do at `stage`, and where it stands once
/// that is done.  The caller starts at `EntryStage::Entered`, carries out
/// each action and comes back with the stage it was given.
pub fn rust_entry(args: &EntryArgs, stage: EntryStage) -> (step: EntryStep)
    ensures
        step == entry_step(*args, stage),
{
    match stage {
        EntryStage::Entered => EntryStep {
            action: EntryAction::ClearBss { start: args.sbss, end: args.ebss },
            next: EntryStage::BssCleared,
        },
        EntryStage::BssCleared => EntryStep {
            action: EntryAction::SetTrapVector {
                setting: set_trap_vector_base(args.trap_vector_base),
            },
            next: EntryStage::TrapVectorSet,
        },
        EntryStage::TrapVectorSet => EntryStep {
            action: EntryAction::CallMain { cpu_id: args.cpu_id, dtb: args.dtb },
            next: EntryStage::MainReturned,
        },
        EntryStage::MainReturned => EntryStep {
            action: EntryAction::SystemReset {
                reset_type: ResetType::Shutdown,
                reason: ResetReason::NoReason,
            },
            next: EntryStage::Halting,
        },
        EntryStage::Halting => EntryStep {
            action: EntryAction::DisableIrqs,
            next: EntryStage::IrqsDisabled,
        },
        EntryStage::IrqsDisabled => EntryStep {
            action: EntryAction::WaitForInterrupt,
            next: EntryStage::Halting,
        },
    }
}

/// The routine clears the uninitialized data, then installs the trap vector
/// for direct dispatch, then calls `main` with the boot arguments, then
/// asks for a shutdown without a reason.  From then on it parks the hart:
/// interrupts off, wait, for ever.
pub proof fn lemma_entry_order(args: EntryArgs, n: nat)
    ensures
        n == 0 ==> action_at(args, n) == (EntryAction::ClearBss {
            start: args.sbss,
            end: args.ebss,
        }),
        n == 1 ==> action_at(args, n) == (EntryAction::SetTrapVector {
            setting: StvecSetting { base: args.trap_vector_base, mode: TrapMode::Direct },
        }),
        n == 2 ==> action_at(args, n) == (EntryAction::CallMain {
            cpu_id: args.cpu_id,
            dtb: args.dtb,
        }),
        n == 3 ==> action_at(args, n) == (EntryAction::SystemReset {
            reset_type: ResetType::Shutdown,
            reason: ResetReason::NoReason,
        }),
        n >= 4 && n % 2 == 0 ==> action_at(args, n) == EntryAction::DisableIrqs
            && stage_after(args, n) == EntryStage::Halting,
        n >= 4 && n % 2 == 1 ==> action_at(args, n) == EntryAction::WaitForInterrupt
            && stage_after(args, n) == EntryStage::IrqsDisabled,
    decreases n,
{
    reveal_with_fuel(stage_after, 5);
    if n > 4 {
        lemma_entry_order(args, (n - 1) as nat);
    }
}

} // verus!
