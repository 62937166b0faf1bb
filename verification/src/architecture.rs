//! The part of the architecture that the control flow of the monitor reads:
//! the saved state of a hart, its lifecycle states, and the reasons for which
//! a confidential hart traps into the monitor.

use vstd::prelude::*;

verus! {

/// Identifier of the base extension of the supervisor binary interface.
pub const BASE_EXTENSION_ID: usize = 0x10;

/// Identifier of the extension that sends inter-processor interrupts.
pub const IPI_EXTENSION_ID: usize = 0x735049;

/// Identifier of the remote fence extension.
pub const RFENCE_EXTENSION_ID: usize = 0x52464E43;

/// Identifier of the hart state management extension.
pub const HSM_EXTENSION_ID: usize = 0x48534D;

/// Identifier of the system reset extension.
pub const SRST_EXTENSION_ID: usize = 0x53525354;

/// Identifier of the extension through which a confidential virtual machine
/// calls the monitor.
pub const ACE_EXTENSION_ID: usize = 0x510000;

/// Function of the monitor's extension that shares a page with the hypervisor.
pub const ACE_SHARE_PAGE_FUNCTION_ID: usize = 2000;

/// Function of the monitor's extension that stops sharing a page.
pub const ACE_STOP_SHARING_PAGE_FUNCTION_ID: usize = 2001;

/// Length in bytes of the instruction that makes an environment call.
pub const ECALL_INSTRUCTION_LENGTH: usize = 4;

/// The bit of the pending-interrupt register that signals a software
/// interrupt to the virtual supervisor.
pub const VIRTUAL_SUPERVISOR_SOFTWARE_INTERRUPT: usize = 4;

/// Lifecycle of a confidential hart.
#[derive(Clone, Copy, Debug, PartialEq, Eq, Structural)]
pub enum HartLifecycleState {
    Started,
    Stopped,
    Suspended,
    /// Terminal: a hart that was shut down never runs again.
    Shutdown,
}

/// A request to change the lifecycle state of a hart.
#[derive(Clone, Copy, Debug, PartialEq, Eq, Structural)]
pub enum LifecycleTransition {
    /// `Started` to `Suspended`.
    Suspend,
    /// `Suspended` to `Started`.
    Resume,
    /// `Started` to `Stopped`.
    Stop,
    /// Any state that is not terminal to `Shutdown`.
    Shutdown,
}

impl HartLifecycleState {
    /// The table of legal transitions: the state that `transition` leads to
    /// from `self`, or `None` where the transition is illegal.
    pub open spec fn spec_next(self, transition: LifecycleTransition) -> Option<
        HartLifecycleState,
    > {
        match (self, transition) {
            (HartLifecycleState::Started, LifecycleTransition::Suspend) => Some(
                HartLifecycleState::Suspended,
            ),
            (HartLifecycleState::Suspended, LifecycleTransition::Resume) => Some(
                HartLifecycleState::Started,
            ),
            (HartLifecycleState::Started, LifecycleTransition::Stop) => Some(
                HartLifecycleState::Stopped,
            ),
            (HartLifecycleState::Started, LifecycleTransition::Shutdown) => Some(
                HartLifecycleState::Shutdown,
            ),
            (HartLifecycleState::Stopped, LifecycleTransition::Shutdown) => Some(
                HartLifecycleState::Shutdown,
            ),
            (HartLifecycleState::Suspended, LifecycleTransition::Shutdown) => Some(
                HartLifecycleState::Shutdown,
            ),
            _ => None,
        }
    }

    /// Looks `transition` up in the table of legal transitions.
    pub fn next(&self, transition: LifecycleTransition) -> (next: Option<HartLifecycleState>)
        ensures
            next == self.spec_next(transition),
    {
        match (*self, transition) {
            (HartLifecycleState::Started, LifecycleTransition::Suspend) => Some(
                HartLifecycleState::Suspended,
            ),
            (HartLifecycleState::Suspended, LifecycleTransition::Resume) => Some(
                HartLifecycleState::Started,
            ),
            (HartLifecycleState::Started, LifecycleTransition::Stop) => Some(
                HartLifecycleState::Stopped,
            ),
            (HartLifecycleState::Started, LifecycleTransition::Shutdown) => Some(
                HartLifecycleState::Shutdown,
            ),
            (HartLifecycleState::Stopped, LifecycleTransition::Shutdown) => Some(
                HartLifecycleState::Shutdown,
            ),
            (HartLifecycleState::Suspended, LifecycleTransition::Shutdown) => Some(
                HartLifecycleState::Shutdown,
            ),
            _ => None,
        }
    }
}

impl HartLifecycleState {
    /// The number under which the hart state management extension reports the
    /// state: 0 for a started hart, 4 for a suspended one, and 1, stopped, for
    /// a hart that was stopped or shut down.
    pub open spec fn spec_sbi_status(self) -> usize {
        match self {
            HartLifecycleState::Started => 0,
            HartLifecycleState::Stopped => 1,
            HartLifecycleState::Suspended => 4,
            HartLifecycleState::Shutdown => 1,
        }
    }

    /// The number under which the hart state management extension reports the
    /// state.
    pub fn sbi_status(&self) -> (status: usize)
        ensures
            status == self.spec_sbi_status(),
    {
        match self {
            HartLifecycleState::Started => 0,
            HartLifecycleState::Stopped => 1,
            HartLifecycleState::Suspended => 4,
            HartLifecycleState::Shutdown => 1,
        }
    }
}

/// A transition is legal exactly where it leaves the state that it is named
/// after, and shutting down is legal from every state but `Shutdown` itself.
pub proof fn lemma_lifecycle_table(state: HartLifecycleState, transition: LifecycleTransition)
    ensures
        state.spec_next(transition) is Some <==> match transition {
            LifecycleTransition::Suspend => state == HartLifecycleState::Started,
            LifecycleTransition::Resume => state == HartLifecycleState::Suspended,
            LifecycleTransition::Stop => state == HartLifecycleState::Started,
            LifecycleTransition::Shutdown => state != HartLifecycleState::Shutdown,
        },
        state == HartLifecycleState::Shutdown ==> state.spec_next(transition) is None,
        state.spec_next(transition) is Some ==> state.spec_next(transition)->0 == (
        match transition {
            LifecycleTransition::Suspend => HartLifecycleState::Suspended,
            LifecycleTransition::Resume => HartLifecycleState::Started,
            LifecycleTransition::Stop => HartLifecycleState::Stopped,
            LifecycleTransition::Shutdown => HartLifecycleState::Shutdown,
        }),
{
}

/// The argument registers: the general purpose registers through which a call
/// passes its arguments, its function and its extension, and receives its
/// result.
#[derive(Clone, Copy, Debug, PartialEq, Eq, Structural)]
pub enum GeneralPurposeRegister {
    A0,
    A1,
    A2,
    A3,
    A4,
    A5,
    A6,
    A7,
}

impl GeneralPurposeRegister {
    /// The argument register with the number `number` among the 32 general
    /// purpose registers, where the numbers 10 to 17 name the argument
    /// registers.
    pub open spec fn spec_from_number(number: usize) -> Option<GeneralPurposeRegister> {
        if number == 10 {
            Some(GeneralPurposeRegister::A0)
        } else if number == 11 {
            Some(GeneralPurposeRegister::A1)
        } else if number == 12 {
            Some(GeneralPurposeRegister::A2)
        } else if number == 13 {
            Some(GeneralPurposeRegister::A3)
        } else if number == 14 {
            Some(GeneralPurposeRegister::A4)
        } else if number == 15 {
            Some(GeneralPurposeRegister::A5)
        } else if number == 16 {
            Some(GeneralPurposeRegister::A6)
        } else if number == 17 {
            Some(GeneralPurposeRegister::A7)
        } else {
            None
        }
    }

    /// Finds the argument register with the number `number`.
    pub fn from_number(number: usize) -> (register: Option<GeneralPurposeRegister>)
        ensures
            register == Self::spec_from_number(number),
    {
        match number {
            10 => Some(GeneralPurposeRegister::A0),
            11 => Some(GeneralPurposeRegister::A1),
            12 => Some(GeneralPurposeRegister::A2),
            13 => Some(GeneralPurposeRegister::A3),
            14 => Some(GeneralPurposeRegister::A4),
            15 => Some(GeneralPurposeRegister::A5),
            16 => Some(GeneralPurposeRegister::A6),
            17 => Some(GeneralPurposeRegister::A7),
            _ => None,
        }
    }
}

/// Length in bytes of the instruction `instruction`, as the hardware reports a
/// trapped instruction: 2 where the second lowest bit is clear, which marks a
/// compressed instruction, and 4 else.
pub open spec fn spec_instruction_length(instruction: usize) -> usize {
    if instruction & 2 == 0 {
        2
    } else {
        4
    }
}

/// Length in bytes of the instruction `instruction`, as the hardware reports a
/// trapped instruction.
pub fn instruction_length(instruction: usize) -> (length: usize)
    ensures
        length == spec_instruction_length(instruction),
{
    if instruction & 2 == 0 {
        2
    } else {
        4
    }
}

/// Number of the register to which the instruction `instruction` writes its
/// result: the five bits from bit 7 on.
pub open spec fn spec_destination_register(instruction: usize) -> usize {
    (instruction >> 7) & 0x1f
}

/// Number of the register to which the instruction `instruction` writes its
/// result.
pub fn destination_register(instruction: usize) -> (number: usize)
    ensures
        number == spec_destination_register(instruction),
{
    (instruction >> 7) & 0x1f
}

/// The saved architectural state of a hart.
#[derive(Clone, Copy, Debug, PartialEq, Eq, Structural)]
pub struct HartArchitecturalState {
    pub a0: usize,
    pub a1: usize,
    pub a2: usize,
    pub a3: usize,
    pub a4: usize,
    pub a5: usize,
    /// Holds the function identifier of a call.
    pub a6: usize,
    /// Holds the extension identifier of a call.
    pub a7: usize,
    /// Address of the instruction at which the hart resumes.
    pub mepc: usize,
    /// Cause of the last trap.
    pub mcause: usize,
    /// Value that the last trap reported.
    pub mtval: usize,
    /// Guest physical address that the last trap reported, shifted right by two.
    pub htval: usize,
    /// The instruction that trapped, as the hardware transformed it.
    pub mtinst: usize,
    /// Interrupts pending for the virtual supervisor.
    pub hvip: usize,
    /// Root of the address translation of the guest.
    pub hgatp: usize,
}

impl HartArchitecturalState {
    /// The state in which every register holds zero.
    pub open spec fn spec_empty() -> HartArchitecturalState {
        HartArchitecturalState {
            a0: 0,
            a1: 0,
            a2: 0,
            a3: 0,
            a4: 0,
            a5: 0,
            a6: 0,
            a7: 0,
            mepc: 0,
            mcause: 0,
            mtval: 0,
            htval: 0,
            mtinst: 0,
            hvip: 0,
            hgatp: 0,
        }
    }

    /// The state in which every register holds zero.
    pub fn empty() -> (state: HartArchitecturalState)
        ensures
            state == Self::spec_empty(),
    {
        HartArchitecturalState {
            a0: 0,
            a1: 0,
            a2: 0,
            a3: 0,
            a4: 0,
            a5: 0,
            a6: 0,
            a7: 0,
            mepc: 0,
            mcause: 0,
            mtval: 0,
            htval: 0,
            mtinst: 0,
            hvip: 0,
            hgatp: 0,
        }
    }

    /// The state with `register` holding `value` and nothing else changed.
    pub open spec fn spec_with_gpr(
        self,
        register: GeneralPurposeRegister,
        value: usize,
    ) -> HartArchitecturalState {
        match register {
            GeneralPurposeRegister::A0 => HartArchitecturalState { a0: value, ..self },
            GeneralPurposeRegister::A1 => HartArchitecturalState { a1: value, ..self },
            GeneralPurposeRegister::A2 => HartArchitecturalState { a2: value, ..self },
            GeneralPurposeRegister::A3 => HartArchitecturalState { a3: value, ..self },
            GeneralPurposeRegister::A4 => HartArchitecturalState { a4: value, ..self },
            GeneralPurposeRegister::A5 => HartArchitecturalState { a5: value, ..self },
            GeneralPurposeRegister::A6 => HartArchitecturalState { a6: value, ..self },
            GeneralPurposeRegister::A7 => HartArchitecturalState { a7: value, ..self },
        }
    }

    /// Writes `value` to `register`.
    pub fn set_gpr(&mut self, register: GeneralPurposeRegister, value: usize)
        ensures
            *final(self) == old(self).spec_with_gpr(register, value),
    {
        match register {
            GeneralPurposeRegister::A0 => self.a0 = value,
            GeneralPurposeRegister::A1 => self.a1 = value,
            GeneralPurposeRegister::A2 => self.a2 = value,
            GeneralPurposeRegister::A3 => self.a3 = value,
            GeneralPurposeRegister::A4 => self.a4 = value,
            GeneralPurposeRegister::A5 => self.a5 = value,
            GeneralPurposeRegister::A6 => self.a6 = value,
            GeneralPurposeRegister::A7 => self.a7 = value,
        }
    }

    /// The value that `register` holds.
    pub open spec fn spec_gpr(self, register: GeneralPurposeRegister) -> usize {
        match register {
            GeneralPurposeRegister::A0 => self.a0,
            GeneralPurposeRegister::A1 => self.a1,
            GeneralPurposeRegister::A2 => self.a2,
            GeneralPurposeRegister::A3 => self.a3,
            GeneralPurposeRegister::A4 => self.a4,
            GeneralPurposeRegister::A5 => self.a5,
            GeneralPurposeRegister::A6 => self.a6,
            GeneralPurposeRegister::A7 => self.a7,
        }
    }

    /// Reads `register`.
    pub fn gpr(&self, register: GeneralPurposeRegister) -> (value: usize)
        ensures
            value == self.spec_gpr(register),
    {
        match register {
            GeneralPurposeRegister::A0 => self.a0,
            GeneralPurposeRegister::A1 => self.a1,
            GeneralPurposeRegister::A2 => self.a2,
            GeneralPurposeRegister::A3 => self.a3,
            GeneralPurposeRegister::A4 => self.a4,
            GeneralPurposeRegister::A5 => self.a5,
            GeneralPurposeRegister::A6 => self.a6,
            GeneralPurposeRegister::A7 => self.a7,
        }
    }
}

/// Functions of the monitor's own extension.
#[derive(Clone, Copy, Debug, PartialEq, Eq, Structural)]
pub enum AceExtension {
    SharePageWithHypervisor,
    StopSharingPageWithHypervisor,
}

/// Functions of the base extension.
#[derive(Clone, Copy, Debug, PartialEq, Eq, Structural)]
pub enum BaseExtension {
    GetSpecVersion,
    GetImplId,
    GetImplVersion,
    ProbeExtension,
    GetMvendorId,
    GetMarchid,
    GetMimpid,
}

/// Functions of the extension that sends inter-processor interrupts.
#[derive(Clone, Copy, Debug, PartialEq, Eq, Structural)]
pub enum IpiExtension {
    SendIpi,
}

/// Functions of the remote fence extension.
#[derive(Clone, Copy, Debug, PartialEq, Eq, Structural)]
pub enum RfenceExtension {
    RemoteFenceI,
    RemoteSfenceVma,
    RemoteSfenceVmaAsid,
    RemoteHfenceGvmaVmid,
    RemoteHfenceGvma,
    RemoteHfenceVvmaAsid,
    RemoteHfenceVvma,
}

/// Functions of the hart state management extension.
#[derive(Clone, Copy, Debug, PartialEq, Eq, Structural)]
pub enum HsmExtension {
    HartStart,
    HartStop,
    HartGetStatus,
    HartSuspend,
}

/// Functions of the system reset extension.
#[derive(Clone, Copy, Debug, PartialEq, Eq, Structural)]
pub enum SrstExtension {
    SystemReset,
}

/// A call of a confidential hart, by extension and function.
#[derive(Clone, Copy, Debug, PartialEq, Eq, Structural)]
pub enum SbiExtension {
    Ace(AceExtension),
    Base(BaseExtension),
    Ipi(IpiExtension),
    Rfence(RfenceExtension),
    Hsm(HsmExtension),
    Srst(SrstExtension),
    /// A pair of extension and function that the monitor does not know.
    Unknown(usize, usize),
}

impl SbiExtension {
    /// The call that the pair of an extension identifier and a function
    /// identifier names.
    pub open spec fn spec_decode(extension_id: usize, function_id: usize) -> SbiExtension {
        if extension_id == ACE_EXTENSION_ID && function_id == ACE_SHARE_PAGE_FUNCTION_ID {
            SbiExtension::Ace(AceExtension::SharePageWithHypervisor)
        } else if extension_id == ACE_EXTENSION_ID && function_id
            == ACE_STOP_SHARING_PAGE_FUNCTION_ID {
            SbiExtension::Ace(AceExtension::StopSharingPageWithHypervisor)
        } else if extension_id == BASE_EXTENSION_ID && function_id == 0 {
            SbiExtension::Base(BaseExtension::GetSpecVersion)
        } else if extension_id == BASE_EXTENSION_ID && function_id == 1 {
            SbiExtension::Base(BaseExtension::GetImplId)
        } else if extension_id == BASE_EXTENSION_ID && function_id == 2 {
            SbiExtension::Base(BaseExtension::GetImplVersion)
        } else if extension_id == BASE_EXTENSION_ID && function_id == 3 {
            SbiExtension::Base(BaseExtension::ProbeExtension)
        } else if extension_id == BASE_EXTENSION_ID && function_id == 4 {
            SbiExtension::Base(BaseExtension::GetMvendorId)
        } else if extension_id == BASE_EXTENSION_ID && function_id == 5 {
            SbiExtension::Base(BaseExtension::GetMarchid)
        } else if extension_id == BASE_EXTENSION_ID && function_id == 6 {
            SbiExtension::Base(BaseExtension::GetMimpid)
        } else if extension_id == IPI_EXTENSION_ID && function_id == 0 {
            SbiExtension::Ipi(IpiExtension::SendIpi)
        } else if extension_id == RFENCE_EXTENSION_ID && function_id == 0 {
            SbiExtension::Rfence(RfenceExtension::RemoteFenceI)
        } else if extension_id == RFENCE_EXTENSION_ID && function_id == 1 {
            SbiExtension::Rfence(RfenceExtension::RemoteSfenceVma)
        } else if extension_id == RFENCE_EXTENSION_ID && function_id == 2 {
            SbiExtension::Rfence(RfenceExtension::RemoteSfenceVmaAsid)
        } else if extension_id == RFENCE_EXTENSION_ID && function_id == 3 {
            SbiExtension::Rfence(RfenceExtension::RemoteHfenceGvmaVmid)
        } else if extension_id == RFENCE_EXTENSION_ID && function_id == 4 {
            SbiExtension::Rfence(RfenceExtension::RemoteHfenceGvma)
        } else if extension_id == RFENCE_EXTENSION_ID && function_id == 5 {
            SbiExtension::Rfence(RfenceExtension::RemoteHfenceVvmaAsid)
        } else if extension_id == RFENCE_EXTENSION_ID && function_id == 6 {
            SbiExtension::Rfence(RfenceExtension::RemoteHfenceVvma)
        } else if extension_id == HSM_EXTENSION_ID && function_id == 0 {
            SbiExtension::Hsm(HsmExtension::HartStart)
        } else if extension_id == HSM_EXTENSION_ID && function_id == 1 {
            SbiExtension::Hsm(HsmExtension::HartStop)
        } else if extension_id == HSM_EXTENSION_ID && function_id == 2 {
            SbiExtension::Hsm(HsmExtension::HartGetStatus)
        } else if extension_id == HSM_EXTENSION_ID && function_id == 3 {
            SbiExtension::Hsm(HsmExtension::HartSuspend)
        } else if extension_id == SRST_EXTENSION_ID && function_id == 0 {
            SbiExtension::Srst(SrstExtension::SystemReset)
        } else {
            SbiExtension::Unknown(extension_id, function_id)
        }
    }

    /// Whether the monitor serves calls of the extension `extension_id`.
    pub open spec fn spec_is_supported(extension_id: usize) -> bool {
        ||| extension_id == ACE_EXTENSION_ID
        ||| extension_id == BASE_EXTENSION_ID
        ||| extension_id == IPI_EXTENSION_ID
        ||| extension_id == RFENCE_EXTENSION_ID
        ||| extension_id == HSM_EXTENSION_ID
        ||| extension_id == SRST_EXTENSION_ID
    }

    /// Tells whether the monitor serves calls of the extension `extension_id`.
    pub fn is_supported(extension_id: usize) -> (supported: bool)
        ensures
            supported == Self::spec_is_supported(extension_id),
    {
        extension_id == ACE_EXTENSION_ID || extension_id == BASE_EXTENSION_ID || extension_id
            == IPI_EXTENSION_ID || extension_id == RFENCE_EXTENSION_ID || extension_id
            == HSM_EXTENSION_ID || extension_id == SRST_EXTENSION_ID
    }

    /// Decodes the call that a hart made with `extension_id` in `a7` and
    /// `function_id` in `a6`.
    pub fn decode(extension_id: usize, function_id: usize) -> (extension: SbiExtension)
        ensures
            extension == Self::spec_decode(extension_id, function_id),
    {
        let unknown = SbiExtension::Unknown(extension_id, function_id);
        if extension_id == ACE_EXTENSION_ID {
            if function_id == ACE_SHARE_PAGE_FUNCTION_ID {
                SbiExtension::Ace(AceExtension::SharePageWithHypervisor)
            } else if function_id == ACE_STOP_SHARING_PAGE_FUNCTION_ID {
                SbiExtension::Ace(AceExtension::StopSharingPageWithHypervisor)
            } else {
                unknown
            }
        } else if extension_id == BASE_EXTENSION_ID {
            match function_id {
                0 => SbiExtension::Base(BaseExtension::GetSpecVersion),
                1 => SbiExtension::Base(BaseExtension::GetImplId),
                2 => SbiExtension::Base(BaseExtension::GetImplVersion),
                3 => SbiExtension::Base(BaseExtension::ProbeExtension),
                4 => SbiExtension::Base(BaseExtension::GetMvendorId),
                5 => SbiExtension::Base(BaseExtension::GetMarchid),
                6 => SbiExtension::Base(BaseExtension::GetMimpid),
                _ => unknown,
            }
        } else if extension_id == IPI_EXTENSION_ID {
            match function_id {
                0 => SbiExtension::Ipi(IpiExtension::SendIpi),
                _ => unknown,
            }
        } else if extension_id == RFENCE_EXTENSION_ID {
            match function_id {
                0 => SbiExtension::Rfence(RfenceExtension::RemoteFenceI),
                1 => SbiExtension::Rfence(RfenceExtension::RemoteSfenceVma),
                2 => SbiExtension::Rfence(RfenceExtension::RemoteSfenceVmaAsid),
                3 => SbiExtension::Rfence(RfenceExtension::RemoteHfenceGvmaVmid),
                4 => SbiExtension::Rfence(RfenceExtension::RemoteHfenceGvma),
                5 => SbiExtension::Rfence(RfenceExtension::RemoteHfenceVvmaAsid),
                6 => SbiExtension::Rfence(RfenceExtension::RemoteHfenceVvma),
                _ => unknown,
            }
        } else if extension_id == HSM_EXTENSION_ID {
            match function_id {
                0 => SbiExtension::Hsm(HsmExtension::HartStart),
                1 => SbiExtension::Hsm(HsmExtension::HartStop),
                2 => SbiExtension::Hsm(HsmExtension::HartGetStatus),
                3 => SbiExtension::Hsm(HsmExtension::HartSuspend),
                _ => unknown,
            }
        } else if extension_id == SRST_EXTENSION_ID {
            match function_id {
                0 => SbiExtension::Srst(SrstExtension::SystemReset),
                _ => unknown,
            }
        } else {
            unknown
        }
    }
}

/// Cause codes of the exceptions that the monitor tells apart.
pub const CAUSE_HS_ECALL: usize = 9;

pub const CAUSE_VS_ECALL: usize = 10;

pub const CAUSE_MACHINE_ECALL: usize = 11;

pub const CAUSE_GUEST_INSTRUCTION_PAGE_FAULT: usize = 20;

pub const CAUSE_GUEST_LOAD_PAGE_FAULT: usize = 21;

pub const CAUSE_VIRTUAL_INSTRUCTION: usize = 22;

pub const CAUSE_GUEST_STORE_PAGE_FAULT: usize = 23;

/// The reason for which a hart trapped into the monitor.
#[derive(Clone, Copy, Debug, PartialEq, Eq, Structural)]
pub enum TrapReason {
    Interrupt,
    /// A call from the virtual supervisor, that is from a confidential hart.
    VsEcall(SbiExtension),
    /// A call from the hypervisor.
    HsEcall,
    /// A call from machine mode.
    MachineEcall,
    GuestInstructionPageFault,
    GuestLoadPageFault,
    VirtualInstruction,
    GuestStorePageFault,
    /// A cause that the monitor does not know.
    Unknown,
}

impl TrapReason {
    /// Whether the highest bit of the cause register is set, which marks an
    /// interrupt.
    pub open spec fn spec_is_interrupt(mcause: usize) -> bool {
        mcause > usize::MAX / 2
    }

    /// The reason that the cause register and the registers `a7` and `a6`
    /// describe.
    pub open spec fn spec_decode(mcause: usize, a7: usize, a6: usize) -> TrapReason {
        if Self::spec_is_interrupt(mcause) {
            TrapReason::Interrupt
        } else if mcause == CAUSE_HS_ECALL {
            TrapReason::HsEcall
        } else if mcause == CAUSE_VS_ECALL {
            TrapReason::VsEcall(SbiExtension::spec_decode(a7, a6))
        } else if mcause == CAUSE_MACHINE_ECALL {
            TrapReason::MachineEcall
        } else if mcause == CAUSE_GUEST_INSTRUCTION_PAGE_FAULT {
            TrapReason::GuestInstructionPageFault
        } else if mcause == CAUSE_GUEST_LOAD_PAGE_FAULT {
            TrapReason::GuestLoadPageFault
        } else if mcause == CAUSE_VIRTUAL_INSTRUCTION {
            TrapReason::VirtualInstruction
        } else if mcause == CAUSE_GUEST_STORE_PAGE_FAULT {
            TrapReason::GuestStorePageFault
        } else {
            TrapReason::Unknown
        }
    }

    /// Decodes the reason of a trap from the cause register and, for a call,
    /// from the extension in `a7` and the function in `a6`.
    pub fn decode(mcause: usize, a7: usize, a6: usize) -> (reason: TrapReason)
        ensures
            reason == Self::spec_decode(mcause, a7, a6),
    {
        if mcause > usize::MAX / 2 {
            TrapReason::Interrupt
        } else if mcause == CAUSE_HS_ECALL {
            TrapReason::HsEcall
        } else if mcause == CAUSE_VS_ECALL {
            TrapReason::VsEcall(SbiExtension::decode(a7, a6))
        } else if mcause == CAUSE_MACHINE_ECALL {
            TrapReason::MachineEcall
        } else if mcause == CAUSE_GUEST_INSTRUCTION_PAGE_FAULT {
            TrapReason::GuestInstructionPageFault
        } else if mcause == CAUSE_GUEST_LOAD_PAGE_FAULT {
            TrapReason::GuestLoadPageFault
        } else if mcause == CAUSE_VIRTUAL_INSTRUCTION {
            TrapReason::VirtualInstruction
        } else if mcause == CAUSE_GUEST_STORE_PAGE_FAULT {
            TrapReason::GuestStorePageFault
        } else {
            TrapReason::Unknown
        }
    }
}

} // verus!
