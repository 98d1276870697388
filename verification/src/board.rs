//! The board: the life cycle of the virtual CPUs of one guest.
//!
//! Each virtual CPU is driven by a thread of its own. What such a thread
//! does is work that only its surroundings can do: it asks the hypervisor
//! for a virtual CPU, waits at the boot barrier, enters the guest. What it
//! does next is decided here. A thread starts at `VcpuStage::CreateVcpu`,
//! does what the stage names, and hands the outcome to `Board::run_vcpu`,
//! which answers with the next stage, until the stage is
//! `VcpuStage::Return`.

use vstd::prelude::*;
use crate::arch::{EBDA_END, EBDA_START};
use crate::hv::{VmEntry, VmExit};
use crate::loader::Payload;

verus! {

/// The board exists and its virtual CPUs have not been released.
pub const STATE_CREATED: u8 = 0;

/// The virtual CPUs may run the guest.
pub const STATE_RUNNING: u8 = 1;

/// The guest is shut down, or about to be. No state follows this one.
pub const STATE_SHUTDOWN: u8 = 2;

/// Why a virtual CPU stopped.
#[derive(Clone, Debug, PartialEq, Eq)]
pub enum Error {
    /// The hypervisor layer failed.
    Hv(crate::hv::Error),
    /// The memory subsystem failed, with its description.
    Memory(String),
    /// The payload could not be loaded, with the loader's description.
    Loader(String),
    /// The virtual CPU left the guest for a reason that cannot be handled.
    VmExit(String),
    /// The host failed to read or write, with its description.
    HostIo(String),
    /// The firmware tables do not fit in the extended BIOS data area.
    AcpiTooLong,
    /// The guest has too little memory.
    MemoryTooSmall,
}

/// What a board is made for.
#[derive(Clone, Copy, Debug, PartialEq, Eq, Structural)]
pub struct BoardConfig {
    /// The size of guest memory in bytes.
    pub mem_size: usize,
    /// The number of virtual CPUs.
    pub num_cpu: u32,
}

/// One write to guest memory.
#[derive(Clone, Debug, PartialEq, Eq)]
pub struct RamWrite {
    /// The guest physical address of the first byte.
    pub addr: usize,
    /// The bytes to write.
    pub bytes: Vec<u8>,
}

/// What a virtual CPU thread does next.
#[derive(Debug, PartialEq, Eq)]
pub enum VcpuStage {
    /// Create the virtual CPU.
    CreateVcpu,
    /// Tell the event channel that the virtual CPU exists.
    SignalReady,
    /// Prepare the virtual CPU as the architecture asks.
    InitVcpu,
    /// Wait at the boot barrier until the virtual CPUs are released.
    AwaitBoot,
    /// Read the state of the board, to see whether the guest is to run.
    CheckRunning,
    /// Make the guest memory.
    CreateRam,
    /// Look up the payload, if one was set.
    ReadPayload,
    /// Load the payload into guest memory.
    LoadPayload { payload: Payload },
    /// Set the registers of the boot CPU.
    InitBootVcpu,
    /// Build the firmware tables for the given address and number of CPUs.
    CreateAcpiTables { base: usize, num_cpu: u32 },
    /// Write the firmware tables into guest memory.
    WriteFirmware { write: RamWrite },
    /// Read the state of the board, to see whether the guest is to stop.
    CheckShutdown { pending: VmEntry },
    /// Enter the guest.
    Enter { entry: VmEntry },
    /// Hand an I/O port access to the memory subsystem.
    HandleIo { port: u16, write: Option<u32>, size: u8 },
    /// Hand a memory-mapped access to the memory subsystem.
    HandleMmio { addr: usize, write: Option<u64>, size: u8 },
    /// Set the state of the board to `STATE_SHUTDOWN`.
    StoreShutdown { result: Result<(), Error> },
    /// Tell the event channel that the virtual CPU has stopped.
    SignalStopped { result: Result<(), Error> },
    /// Return the result. The thread is done.
    Return { result: Result<(), Error> },
}

/// How the work of a stage ended.
#[derive(Clone, Debug, PartialEq, Eq)]
pub enum Outcome {
    /// The work is done and there is nothing to report.
    Done,
    /// The work failed.
    Failed(Error),
    /// The state of the board, as it was read.
    State(u8),
    /// The payload, if one was set.
    Payload(Option<Payload>),
    /// The firmware tables.
    Bytes(Vec<u8>),
    /// The virtual CPU left the guest.
    Exit(VmExit),
    /// The memory subsystem handled the access, and the guest goes on with
    /// this.
    Entry(VmEntry),
}

/// Where a virtual CPU thread stands after a stage.
#[derive(Debug, PartialEq, Eq)]
pub enum Step {
    /// The thread goes on with this stage.
    Next(VcpuStage),
    /// The virtual CPU is done, with this result.
    Finished(Result<(), Error>),
}

/// The step after work that cannot fail.
pub open spec fn then_spec(outcome: Outcome, next: VcpuStage) -> Option<Step> {
    match outcome {
        Outcome::Done => Some(Step::Next(next)),
        _ => None,
    }
}

/// The step after work that can fail.
pub open spec fn try_then_spec(outcome: Outcome, next: VcpuStage) -> Option<Step> {
    match outcome {
        Outcome::Done => Some(Step::Next(next)),
        Outcome::Failed(e) => Some(Step::Finished(Err(e))),
        _ => None,
    }
}

/// The step after an access that the memory subsystem handles.
pub open spec fn handled_spec(outcome: Outcome) -> Option<Step> {
    match outcome {
        Outcome::Entry(entry) => Some(Step::Next(VcpuStage::CheckShutdown { pending: entry })),
        Outcome::Failed(e) => Some(Step::Finished(Err(e))),
        _ => None,
    }
}

/// What the guest is entered with: a request to shut down once the board is
/// shut down, and what is pending otherwise.
pub open spec fn entry_spec(state: u8, pending: VmEntry) -> VmEntry {
    if state == STATE_SHUTDOWN {
        VmEntry::Shutdown
    } else {
        pending
    }
}

/// What follows an exit from the guest.
pub open spec fn dispatch_spec(exit: VmExit) -> Step {
    match exit {
        VmExit::Io { port, write, size } => Step::Next(VcpuStage::HandleIo { port, write, size }),
        VmExit::Mmio { addr, write, size } => Step::Next(
            VcpuStage::HandleMmio { addr, write, size },
        ),
        VmExit::Shutdown => Step::Finished(Ok(())),
        VmExit::Interrupted => Step::Next(VcpuStage::CheckShutdown { pending: VmEntry::Resume }),
        VmExit::Unknown(msg) => Step::Finished(Err(Error::VmExit(msg))),
    }
}

/// What follows the look-up of the payload: the payload is loaded if there
/// is one, and the boot CPU is set up at once if there is none.
pub open spec fn payload_spec(payload: Option<Payload>) -> VcpuStage {
    match payload {
        Some(payload) => VcpuStage::LoadPayload { payload },
        None => VcpuStage::InitBootVcpu,
    }
}

/// Where the firmware tables go, if they fit.
pub open spec fn firmware_spec(acpi_bytes: Vec<u8>) -> Result<RamWrite, Error> {
    if acpi_bytes@.len() > EBDA_END - EBDA_START {
        Err(Error::AcpiTooLong)
    } else {
        Ok(RamWrite { addr: EBDA_START, bytes: acpi_bytes })
    }
}

/// What the guest is entered with: a request to shut down once the board is
/// shut down, whatever is pending, and what is pending otherwise.
pub fn next_entry(state: u8, pending: VmEntry) -> (r: VmEntry)
    ensures
        r == entry_spec(state, pending),
        state == STATE_SHUTDOWN ==> r == VmEntry::Shutdown,
        state != STATE_SHUTDOWN ==> r == pending,
{
    if state == STATE_SHUTDOWN {
        VmEntry::Shutdown
    } else {
        pending
    }
}

/// Decides what follows an exit from the guest.
///
/// An access to an I/O port or to memory-mapped I/O goes to the memory
/// subsystem. A shutdown that the guest asked for ends the virtual CPU
/// without an error. After an interruption the guest is resumed with
/// nothing pending. Any other exit ends the virtual CPU with an error that
/// carries the description of the exit.
pub fn dispatch(exit: VmExit) -> (r: Step)
    ensures
        r == dispatch_spec(exit),
        r is Finished <==> exit is Shutdown || exit is Unknown,
        r matches Step::Finished(result) ==> (result is Ok <==> exit is Shutdown),
{
    match exit {
        VmExit::Io { port, write, size } => Step::Next(VcpuStage::HandleIo { port, write, size }),
        VmExit::Mmio { addr, write, size } => Step::Next(
            VcpuStage::HandleMmio { addr, write, size },
        ),
        VmExit::Shutdown => Step::Finished(Ok(())),
        VmExit::Interrupted => Step::Next(VcpuStage::CheckShutdown { pending: VmEntry::Resume }),
        VmExit::Unknown(msg) => Step::Finished(Err(Error::VmExit(msg))),
    }
}

/// Goes on with `next` after work that cannot fail.
fn then(outcome: Outcome, next: VcpuStage) -> (r: Option<Step>)
    ensures
        r == then_spec(outcome, next),
{
    match outcome {
        Outcome::Done => Some(Step::Next(next)),
        _ => None,
    }
}

/// Goes on with `next` after work that can fail, and ends the virtual CPU
/// if it did.
fn try_then(outcome: Outcome, next: VcpuStage) -> (r: Option<Step>)
    ensures
        r == try_then_spec(outcome, next),
{
    match outcome {
        Outcome::Done => Some(Step::Next(next)),
        Outcome::Failed(e) => Some(Step::Finished(Err(e))),
        _ => None,
    }
}

/// Goes back to the top of the run loop after an access was handled, with
/// what the memory subsystem answered, and ends the virtual CPU if it
/// failed.
fn handled(outcome: Outcome) -> (r: Option<Step>)
    ensures
        r == handled_spec(outcome),
{
    match outcome {
        Outcome::Entry(entry) => Some(Step::Next(VcpuStage::CheckShutdown { pending: entry })),
        Outcome::Failed(e) => Some(Step::Finished(Err(e))),
        _ => None,
    }
}

/// The top-level owner of a guest.
#[derive(Clone, Copy, Debug, PartialEq, Eq, Structural)]
pub struct Board {
    pub config: BoardConfig,
}

impl Board {
    /// The step of the run loop after `stage` ended with `outcome`; `None`
    /// if the stage is not of the run loop or cannot end so.
    pub open spec fn vcpu_loop_spec(stage: VcpuStage, outcome: Outcome) -> Option<Step> {
        match stage {
            VcpuStage::CheckShutdown { pending } => match outcome {
                Outcome::State(state) => Some(
                    Step::Next(VcpuStage::Enter { entry: entry_spec(state, pending) }),
                ),
                _ => None,
            },
            VcpuStage::Enter { entry } => match outcome {
                Outcome::Exit(exit) => Some(dispatch_spec(exit)),
                Outcome::Failed(e) => Some(Step::Finished(Err(e))),
                _ => None,
            },
            VcpuStage::HandleIo { port, write, size } => handled_spec(outcome),
            VcpuStage::HandleMmio { addr, write, size } => handled_spec(outcome),
            _ => None,
        }
    }

    /// The step of virtual CPU `id` after `stage` ended with `outcome`, up
    /// to the end of its run loop; `None` if the stage cannot end so.
    pub open spec fn run_vcpu_inner_spec(
        self,
        id: u32,
        stage: VcpuStage,
        outcome: Outcome,
    ) -> Option<Step> {
        match stage {
            VcpuStage::CreateVcpu => try_then_spec(outcome, VcpuStage::SignalReady),
            VcpuStage::SignalReady => then_spec(outcome, VcpuStage::InitVcpu),
            VcpuStage::InitVcpu => try_then_spec(outcome, VcpuStage::AwaitBoot),
            VcpuStage::AwaitBoot => then_spec(outcome, VcpuStage::CheckRunning),
            VcpuStage::CheckRunning => match outcome {
                Outcome::State(state) => Some(
                    if state != STATE_RUNNING {
                        Step::Finished(Ok(()))
                    } else if id == 0 {
                        Step::Next(VcpuStage::CreateRam)
                    } else {
                        Step::Next(VcpuStage::CheckShutdown { pending: VmEntry::Resume })
                    },
                ),
                _ => None,
            },
            VcpuStage::CreateRam => try_then_spec(outcome, VcpuStage::ReadPayload),
            VcpuStage::ReadPayload => match outcome {
                Outcome::Payload(payload) => Some(Step::Next(payload_spec(payload))),
                _ => None,
            },
            VcpuStage::LoadPayload { payload } => try_then_spec(outcome, VcpuStage::InitBootVcpu),
            VcpuStage::InitBootVcpu => try_then_spec(
                outcome,
                VcpuStage::CreateAcpiTables { base: EBDA_START, num_cpu: self.config.num_cpu },
            ),
            VcpuStage::CreateAcpiTables { base, num_cpu } => match outcome {
                Outcome::Bytes(acpi_bytes) => Some(
                    match firmware_spec(acpi_bytes) {
                        Ok(write) => Step::Next(VcpuStage::WriteFirmware { write }),
                        Err(e) => Step::Finished(Err(e)),
                    },
                ),
                _ => None,
            },
            VcpuStage::WriteFirmware { write } => try_then_spec(
                outcome,
                VcpuStage::CheckShutdown { pending: VmEntry::Resume },
            ),
            _ => Self::vcpu_loop_spec(stage, outcome),
        }
    }

    /// The stage of virtual CPU `id` after `stage` ended with `outcome`;
    /// `None` if the stage cannot end so.
    pub open spec fn run_vcpu_spec(self, id: u32, stage: VcpuStage, outcome: Outcome) -> Option<
        VcpuStage,
    > {
        match stage {
            VcpuStage::StoreShutdown { result } => match outcome {
                Outcome::Done => Some(VcpuStage::SignalStopped { result }),
                _ => None,
            },
            VcpuStage::SignalStopped { result } => match outcome {
                Outcome::Done => Some(VcpuStage::Return { result }),
                _ => None,
            },
            VcpuStage::Return { result } => None,
            _ => match self.run_vcpu_inner_spec(id, stage, outcome) {
                Some(Step::Next(next)) => Some(next),
                Some(Step::Finished(result)) => Some(VcpuStage::StoreShutdown { result }),
                None => None,
            },
        }
    }

    /// Decides where the firmware tables go. They are written at the start
    /// of the extended BIOS data area, whole, if they fit in it; if they do
    /// not, nothing is written.
    pub fn create_firmware_data(&self, acpi_bytes: Vec<u8>) -> (r: Result<RamWrite, Error>)
        ensures
            r == firmware_spec(acpi_bytes),
            acpi_bytes@.len() > EBDA_END - EBDA_START <==> r == Err::<RamWrite, Error>(
                Error::AcpiTooLong,
            ),
            r matches Ok(write) ==> write.addr == EBDA_START && write.bytes@ == acpi_bytes@
                && write.addr + write.bytes@.len() <= EBDA_END,
    {
        if acpi_bytes.len() > EBDA_END - EBDA_START {
            return Err(Error::AcpiTooLong);
        }
        Ok(RamWrite { addr: EBDA_START, bytes: acpi_bytes })
    }

    /// Decides what to load into the guest: the payload if one was set,
    /// and nothing otherwise, in which case the boot CPU starts from its
    /// default state.
    pub fn load_payload(&self, payload: Option<Payload>) -> (r: VcpuStage)
        ensures
            r == payload_spec(payload),
            payload is None <==> r == VcpuStage::InitBootVcpu,
    {
        match payload {
            Some(payload) => VcpuStage::LoadPayload { payload },
            None => VcpuStage::InitBootVcpu,
        }
    }

    /// Takes one step of the run loop of a virtual CPU.
    ///
    /// Before the guest is entered the state of the board is read: once
    /// the board is shut down, the guest is entered with a request to shut
    /// down, whatever the last exit asked for. Every exit leads to exactly
    /// one step. A failure of the hypervisor or of the memory subsystem
    /// ends the loop with that error.
    pub fn vcpu_loop(&self, stage: VcpuStage, outcome: Outcome) -> (r: Option<Step>)
        ensures
            r == Self::vcpu_loop_spec(stage, outcome),
    {
        match stage {
            VcpuStage::CheckShutdown { pending } => match outcome {
                Outcome::State(state) => Some(
                    Step::Next(VcpuStage::Enter { entry: next_entry(state, pending) }),
                ),
                _ => None,
            },
            VcpuStage::Enter { entry } => match outcome {
                Outcome::Exit(exit) => Some(dispatch(exit)),
                Outcome::Failed(e) => Some(Step::Finished(Err(e))),
                _ => None,
            },
            VcpuStage::HandleIo { port, write, size } => handled(outcome),
            VcpuStage::HandleMmio { addr, write, size } => handled(outcome),
            _ => None,
        }
    }

    /// Takes one step of a virtual CPU, up to the end of its run loop.
    ///
    /// The virtual CPU is created, announced and prepared, and waits at the
    /// boot barrier. If the board is not running when it is released, the
    /// virtual CPU is done without entering the guest. Virtual CPU 0 then
    /// makes the guest memory, loads the payload if there is one, sets its
    /// own registers and writes the firmware tables; the others go straight
    /// to the run loop. The first failure ends the virtual CPU.
    pub fn run_vcpu_inner(&self, id: u32, stage: VcpuStage, outcome: Outcome) -> (r: Option<Step>)
        ensures
            r == self.run_vcpu_inner_spec(id, stage, outcome),
    {
        match stage {
            VcpuStage::CreateVcpu => try_then(outcome, VcpuStage::SignalReady),
            VcpuStage::SignalReady => then(outcome, VcpuStage::InitVcpu),
            VcpuStage::InitVcpu => try_then(outcome, VcpuStage::AwaitBoot),
            VcpuStage::AwaitBoot => then(outcome, VcpuStage::CheckRunning),
            VcpuStage::CheckRunning => match outcome {
                Outcome::State(state) => Some(
                    if state != STATE_RUNNING {
                        Step::Finished(Ok(()))
                    } else if id == 0 {
                        Step::Next(VcpuStage::CreateRam)
                    } else {
                        Step::Next(VcpuStage::CheckShutdown { pending: VmEntry::Resume })
                    },
                ),
                _ => None,
            },
            VcpuStage::CreateRam => try_then(outcome, VcpuStage::ReadPayload),
            VcpuStage::ReadPayload => match outcome {
                Outcome::Payload(payload) => Some(Step::Next(self.load_payload(payload))),
                _ => None,
            },
            VcpuStage::LoadPayload { payload } => try_then(outcome, VcpuStage::InitBootVcpu),
            VcpuStage::InitBootVcpu => try_then(
                outcome,
                VcpuStage::CreateAcpiTables { base: EBDA_START, num_cpu: self.config.num_cpu },
            ),
            VcpuStage::CreateAcpiTables { base, num_cpu } => match outcome {
                Outcome::Bytes(acpi_bytes) => Some(
                    match self.create_firmware_data(acpi_bytes) {
                        Ok(write) => Step::Next(VcpuStage::WriteFirmware { write }),
                        Err(e) => Step::Finished(Err(e)),
                    },
                ),
                _ => None,
            },
            VcpuStage::WriteFirmware { write } => try_then(
                outcome,
                VcpuStage::CheckShutdown { pending: VmEntry::Resume },
            ),
            _ => self.vcpu_loop(stage, outcome),
        }
    }

    /// Takes one step of virtual CPU `id`: given the stage that the thread
    /// has just worked on and how that ended, returns the stage to work on
    /// next, or `None` if the stage cannot end so.
    ///
    /// However the virtual CPU ends, with or without an error, the state of
    /// the board is set to shut down and the event channel is told, in this
    /// order, before the result is returned.
    pub fn run_vcpu(&self, id: u32, stage: VcpuStage, outcome: Outcome) -> (r: Option<VcpuStage>)
        ensures
            r == self.run_vcpu_spec(id, stage, outcome),
    {
        match stage {
            VcpuStage::StoreShutdown { result } => match outcome {
                Outcome::Done => Some(VcpuStage::SignalStopped { result }),
                _ => None,
            },
            VcpuStage::SignalStopped { result } => match outcome {
                Outcome::Done => Some(VcpuStage::Return { result }),
                _ => None,
            },
            VcpuStage::Return { result } => None,
            _ => match self.run_vcpu_inner(id, stage, outcome) {
                Some(Step::Next(next)) => Some(next),
                Some(Step::Finished(result)) => Some(VcpuStage::StoreShutdown { result }),
                None => None,
            },
        }
    }
}

impl VcpuStage {
    /// Whether the stage belongs to the setup of the guest, which is the
    /// work of virtual CPU 0 alone.
    pub open spec fn is_setup(self) -> bool {
        self is CreateRam || self is ReadPayload || self is LoadPayload || self is InitBootVcpu
            || self is CreateAcpiTables || self is WriteFirmware
    }

    /// Whether the stage belongs to the run loop.
    pub open spec fn is_loop(self) -> bool {
        self is CheckShutdown || self is Enter || self is HandleIo || self is HandleMmio
    }
}

impl Board {
    /// A virtual CPU returns only after it has told the event channel that
    /// it stopped, and tells it only after it has set the state of the board
    /// to shut down; the result is carried along unchanged.
    pub proof fn lemma_shutdown_before_return(self, id: u32, stage: VcpuStage, outcome: Outcome)
        ensures
            self.run_vcpu_spec(id, stage, outcome) matches Some(VcpuStage::Return { result })
                ==> stage == (VcpuStage::SignalStopped { result }),
            self.run_vcpu_spec(id, stage, outcome) matches Some(VcpuStage::SignalStopped { result })
                ==> stage == (VcpuStage::StoreShutdown { result }),
            stage matches VcpuStage::StoreShutdown { result } ==> self.run_vcpu_spec(
                id,
                stage,
                Outcome::Done,
            ) == Some(VcpuStage::SignalStopped { result }),
            stage matches VcpuStage::SignalStopped { result } ==> self.run_vcpu_spec(
                id,
                stage,
                Outcome::Done,
            ) == Some(VcpuStage::Return { result }),
    {
    }

    /// A failure in any stage ends the virtual CPU with that error, by way
    /// of the shutdown of the board.
    pub proof fn lemma_failure_shuts_down(self, id: u32, stage: VcpuStage, e: Error)
        ensures
            self.run_vcpu_spec(id, stage, Outcome::Failed(e)) matches Some(next) ==> next == (
                VcpuStage::StoreShutdown { result: Err(e) }),
    {
    }

    /// If the board is not running when the virtual CPUs are released, a
    /// virtual CPU stops without an error and without entering the guest.
    /// If it is running, virtual CPU 0 sets the guest up and every other
    /// virtual CPU goes to its run loop.
    pub proof fn lemma_released(self, id: u32, state: u8)
        ensures
            self.run_vcpu_spec(id, VcpuStage::CheckRunning, Outcome::State(state)) == Some(
                if state != STATE_RUNNING {
                    VcpuStage::StoreShutdown { result: Ok(()) }
                } else if id == 0 {
                    VcpuStage::CreateRam
                } else {
                    VcpuStage::CheckShutdown { pending: VmEntry::Resume }
                },
            ),
    {
    }

    /// The setup of the guest is the work of virtual CPU 0 alone: a stage
    /// of the setup follows only the release of virtual CPU 0 on a running
    /// board, or another stage of the setup.
    pub proof fn lemma_setup_on_boot_cpu(self, id: u32, stage: VcpuStage, outcome: Outcome)
        ensures
            self.run_vcpu_spec(id, stage, outcome) matches Some(next) && next.is_setup() ==> (id
                == 0 && stage is CheckRunning && outcome == Outcome::State(STATE_RUNNING))
                || stage.is_setup(),
            self.run_vcpu_spec(id, stage, outcome) matches Some(VcpuStage::LoadPayload { payload })
                ==> stage is ReadPayload && outcome == Outcome::Payload(Some(payload)),
    {
    }

    /// The guest is entered only right after the state of the board was
    /// read, and once the board is shut down only with a request to shut
    /// down.
    pub proof fn lemma_enter_after_check(self, id: u32, stage: VcpuStage, outcome: Outcome)
        ensures
            self.run_vcpu_spec(id, stage, outcome) matches Some(VcpuStage::Enter { entry })
                ==> stage is CheckShutdown && outcome is State && (outcome->State_0
                == STATE_SHUTDOWN ==> entry == VmEntry::Shutdown),
    {
    }

    /// Every exit from the guest leads to exactly one stage: an access goes
    /// to its handler, an interruption back to the loop, and a shutdown or
    /// an exit of an unknown kind to the shutdown of the board.
    pub proof fn lemma_exit_is_dispatched(self, id: u32, entry: VmEntry, exit: VmExit)
        ensures
            self.run_vcpu_spec(id, VcpuStage::Enter { entry }, Outcome::Exit(exit)) == Some(
                match exit {
                    VmExit::Io { port, write, size } => VcpuStage::HandleIo { port, write, size },
                    VmExit::Mmio { addr, write, size } => VcpuStage::HandleMmio {
                        addr,
                        write,
                        size,
                    },
                    VmExit::Shutdown => VcpuStage::StoreShutdown { result: Ok(()) },
                    VmExit::Interrupted => VcpuStage::CheckShutdown { pending: VmEntry::Resume },
                    VmExit::Unknown(msg) => VcpuStage::StoreShutdown {
                        result: Err(Error::VmExit(msg)),
                    },
                },
            ),
    {
    }

    /// Firmware tables that do not fit end the virtual CPU with
    /// `Error::AcpiTooLong`, and nothing is written; tables that fit are
    /// written whole at the start of the extended BIOS data area.
    pub proof fn lemma_firmware_fits(self, id: u32, base: usize, num_cpu: u32, acpi_bytes: Vec<u8>)
        ensures
            self.run_vcpu_spec(
                id,
                VcpuStage::CreateAcpiTables { base, num_cpu },
                Outcome::Bytes(acpi_bytes),
            ) == Some(
                if acpi_bytes@.len() > EBDA_END - EBDA_START {
                    VcpuStage::StoreShutdown { result: Err(Error::AcpiTooLong) }
                } else {
                    VcpuStage::WriteFirmware {
                        write: RamWrite { addr: EBDA_START, bytes: acpi_bytes },
                    }
                },
            ),
    {
    }
}

impl VcpuStage {
    /// The place of the stage in the life of a virtual CPU. The stages of
    /// the run loop share one place.
    pub open spec fn order(self) -> nat {
        match self {
            VcpuStage::CreateVcpu => 0,
            VcpuStage::SignalReady => 1,
            VcpuStage::InitVcpu => 2,
            VcpuStage::AwaitBoot => 3,
            VcpuStage::CheckRunning => 4,
            VcpuStage::CreateRam => 5,
            VcpuStage::ReadPayload => 6,
            VcpuStage::LoadPayload { .. } => 7,
            VcpuStage::InitBootVcpu => 8,
            VcpuStage::CreateAcpiTables { .. } => 9,
            VcpuStage::WriteFirmware { .. } => 10,
            VcpuStage::CheckShutdown { .. } => 11,
            VcpuStage::Enter { .. } => 11,
            VcpuStage::HandleIo { .. } => 11,
            VcpuStage::HandleMmio { .. } => 11,
            VcpuStage::StoreShutdown { .. } => 12,
            VcpuStage::SignalStopped { .. } => 13,
            VcpuStage::Return { .. } => 14,
        }
    }
}

impl Board {
    /// The stage that virtual CPU `id` has reached after it went through
    /// its stages from the first one and they ended with `outcomes`, in this
    /// order; `None` if a stage cannot end with the outcome given for it.
    pub open spec fn run_spec(self, id: u32, outcomes: Seq<Outcome>) -> Option<VcpuStage>
        decreases outcomes.len(),
    {
        if outcomes.len() == 0 {
            Some(VcpuStage::CreateVcpu)
        } else {
            match self.run_spec(id, outcomes.drop_last()) {
                Some(stage) => self.run_vcpu_spec(id, stage, outcomes.last()),
                None => None,
            }
        }
    }

    /// A virtual CPU never goes back: a stage is followed by a later one,
    /// or, within the run loop, by a stage of the run loop. So no stage
    /// before the run loop is worked on twice, and the guest is set up at
    /// most once.
    pub proof fn lemma_stages_advance(self, id: u32, stage: VcpuStage, outcome: Outcome)
        ensures
            self.run_vcpu_spec(id, stage, outcome) matches Some(next) ==> next.order()
                > stage.order() || (next.is_loop() && stage.is_loop()),
    {
    }

    /// A virtual CPU other than virtual CPU 0 never works on the setup of
    /// the guest, whatever happens.
    pub proof fn lemma_secondary_never_sets_up(self, id: u32, outcomes: Seq<Outcome>)
        requires
            id != 0,
        ensures
            self.run_spec(id, outcomes) matches Some(stage) ==> !stage.is_setup(),
        decreases outcomes.len(),
    {
        if outcomes.len() > 0 {
            self.lemma_secondary_never_sets_up(id, outcomes.drop_last());
            if let Some(stage) = self.run_spec(id, outcomes.drop_last()) {
                self.lemma_setup_on_boot_cpu(id, stage, outcomes.last());
            }
        }
    }

    /// A virtual CPU that never reads the state of the board as running
    /// neither sets the guest up nor enters it.
    pub proof fn lemma_not_running_never_enters(self, id: u32, outcomes: Seq<Outcome>)
        requires
            forall|i: int|
                0 <= i < outcomes.len() ==> (#[trigger] outcomes[i] matches Outcome::State(state)
                    ==> state != STATE_RUNNING),
        ensures
            self.run_spec(id, outcomes) matches Some(stage) ==> !stage.is_setup()
                && !stage.is_loop(),
        decreases outcomes.len(),
    {
        if outcomes.len() > 0 {
            let init = outcomes.drop_last();
            assert forall|i: int| 0 <= i < init.len() implies (#[trigger] init[i] matches Outcome::State(
                state,
            ) ==> state != STATE_RUNNING) by {
                assert(init[i] == outcomes[i]);
            }
            self.lemma_not_running_never_enters(id, init);
            assert(outcomes.last() == outcomes[outcomes.len() - 1]);
        }
    }

    /// A virtual CPU that has returned a result has, right before, set the
    /// state of the board to shut down and then told the event channel,
    /// with the same result.
    pub proof fn lemma_returns_after_shutdown(self, id: u32, outcomes: Seq<Outcome>)
        ensures
            self.run_spec(id, outcomes) matches Some(VcpuStage::Return { result }) ==> {
                &&& outcomes.len() >= 2
                &&& self.run_spec(id, outcomes.drop_last()) == Some(
                    VcpuStage::SignalStopped { result },
                )
                &&& self.run_spec(id, outcomes.drop_last().drop_last()) == Some(
                    VcpuStage::StoreShutdown { result },
                )
            },
    {
        if let Some(VcpuStage::Return { result }) = self.run_spec(id, outcomes) {
            assert(outcomes.len() > 0);
            let init = outcomes.drop_last();
            let stage = self.run_spec(id, init).unwrap();
            self.lemma_shutdown_before_return(id, stage, outcomes.last());
            assert(init.len() > 0);
            let before = self.run_spec(id, init.drop_last()).unwrap();
            self.lemma_shutdown_before_return(id, before, init.last());
        }
    }
}

} // verus!
