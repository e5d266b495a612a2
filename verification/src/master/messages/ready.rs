//! `Ready`: the coprocessor has started, and why.

use vstd::prelude::*;

use crate::master::protocol;
use crate::master::protocol::{encode_packet, MessageType, PacketError};

verus! {

/// What made the coprocessor start.
#[derive(Debug, Clone, Copy, PartialEq, Eq, Structural)]
pub enum BootReason {
    Undefined,
    Power,
    External,
    Software,
    Panic,
    InterruptWatchdog,
    TaskWatchdog,
    OtherWatchdog,
    DeepSleep,
    Brownout,
    Sdio,
    Usb,
    Jtag,
    Efuse,
    PowerGlitch,
    CpuLockup,
}

impl BootReason {
    /// The number of the reason on the wire.
    pub open spec fn code(self) -> u8 {
        match self {
            BootReason::Undefined => 0,
            BootReason::Power => 1,
            BootReason::External => 2,
            BootReason::Software => 3,
            BootReason::Panic => 4,
            BootReason::InterruptWatchdog => 5,
            BootReason::TaskWatchdog => 6,
            BootReason::OtherWatchdog => 7,
            BootReason::DeepSleep => 8,
            BootReason::Brownout => 9,
            BootReason::Sdio => 10,
            BootReason::Usb => 11,
            BootReason::Jtag => 12,
            BootReason::Efuse => 13,
            BootReason::PowerGlitch => 14,
            BootReason::CpuLockup => 15,
        }
    }

    pub fn as_u8(self) -> (code: u8)
        ensures
            code == self.code(),
    {
        match self {
            BootReason::Undefined => 0,
            BootReason::Power => 1,
            BootReason::External => 2,
            BootReason::Software => 3,
            BootReason::Panic => 4,
            BootReason::InterruptWatchdog => 5,
            BootReason::TaskWatchdog => 6,
            BootReason::OtherWatchdog => 7,
            BootReason::DeepSleep => 8,
            BootReason::Brownout => 9,
            BootReason::Sdio => 10,
            BootReason::Usb => 11,
            BootReason::Jtag => 12,
            BootReason::Efuse => 13,
            BootReason::PowerGlitch => 14,
            BootReason::CpuLockup => 15,
        }
    }
}

/// The numbers by which the platform tells reset reasons apart.
#[derive(Debug, Clone, Copy)]
pub struct ResetReasonCodes {
    pub power_on: u32,
    pub external: u32,
    pub software: u32,
    pub panic: u32,
    pub interrupt_watchdog: u32,
    pub task_watchdog: u32,
    pub watchdog: u32,
    pub deep_sleep: u32,
    pub brownout: u32,
    pub sdio: u32,
    pub usb: u32,
    pub jtag: u32,
    pub efuse: u32,
    pub power_glitch: u32,
    pub cpu_lockup: u32,
}

impl ResetReasonCodes {
    /// The codes in the order in which they are looked up.
    pub open spec fn listed(self) -> Seq<u32> {
        seq![
            self.power_on,
            self.external,
            self.software,
            self.panic,
            self.interrupt_watchdog,
            self.task_watchdog,
            self.watchdog,
            self.deep_sleep,
            self.brownout,
            self.sdio,
            self.usb,
            self.jtag,
            self.efuse,
            self.power_glitch,
            self.cpu_lockup,
        ]
    }
}

/// The boot reason behind the platform's reset reason; of equal codes the first counts.
pub open spec fn boot_reason(reason: u32, codes: ResetReasonCodes) -> BootReason {
    if reason == codes.power_on {
        BootReason::Power
    } else if reason == codes.external {
        BootReason::External
    } else if reason == codes.software {
        BootReason::Software
    } else if reason == codes.panic {
        BootReason::Panic
    } else if reason == codes.interrupt_watchdog {
        BootReason::InterruptWatchdog
    } else if reason == codes.task_watchdog {
        BootReason::TaskWatchdog
    } else if reason == codes.watchdog {
        BootReason::OtherWatchdog
    } else if reason == codes.deep_sleep {
        BootReason::DeepSleep
    } else if reason == codes.brownout {
        BootReason::Brownout
    } else if reason == codes.sdio {
        BootReason::Sdio
    } else if reason == codes.usb {
        BootReason::Usb
    } else if reason == codes.jtag {
        BootReason::Jtag
    } else if reason == codes.efuse {
        BootReason::Efuse
    } else if reason == codes.power_glitch {
        BootReason::PowerGlitch
    } else if reason == codes.cpu_lockup {
        BootReason::CpuLockup
    } else {
        BootReason::Undefined
    }
}

pub fn current_boot_reason(reason: u32, codes: &ResetReasonCodes) -> (boot: BootReason)
    ensures
        boot == boot_reason(reason, *codes),
{
    if reason == codes.power_on {
        BootReason::Power
    } else if reason == codes.external {
        BootReason::External
    } else if reason == codes.software {
        BootReason::Software
    } else if reason == codes.panic {
        BootReason::Panic
    } else if reason == codes.interrupt_watchdog {
        BootReason::InterruptWatchdog
    } else if reason == codes.task_watchdog {
        BootReason::TaskWatchdog
    } else if reason == codes.watchdog {
        BootReason::OtherWatchdog
    } else if reason == codes.deep_sleep {
        BootReason::DeepSleep
    } else if reason == codes.brownout {
        BootReason::Brownout
    } else if reason == codes.sdio {
        BootReason::Sdio
    } else if reason == codes.usb {
        BootReason::Usb
    } else if reason == codes.jtag {
        BootReason::Jtag
    } else if reason == codes.efuse {
        BootReason::Efuse
    } else if reason == codes.power_glitch {
        BootReason::PowerGlitch
    } else if reason == codes.cpu_lockup {
        BootReason::CpuLockup
    } else {
        BootReason::Undefined
    }
}

/// The frame that announces a start.
pub open spec fn ready_frame(boot: BootReason) -> Seq<u8> {
    protocol::frame_bytes(MessageType::Ready.code(), boot.code(), Seq::empty())
}

pub fn encode(boot: BootReason) -> (r: Result<Vec<u8>, PacketError>)
    ensures
        protocol::bytes_of(r) == Ok::<Seq<u8>, PacketError>(ready_frame(boot)),
{
    let empty: [u8; 0] = [];
    let payload = vstd::array::array_as_slice(&empty);
    assert(payload@ =~= Seq::<u8>::empty());
    encode_packet(MessageType::Ready.as_u8(), boot.as_u8(), payload)
}

/// The announcement of a start for the platform's reset reason.
pub fn encode_current(reason: u32, codes: &ResetReasonCodes) -> (r: Result<Vec<u8>, PacketError>)
    ensures
        protocol::bytes_of(r) == Ok::<Seq<u8>, PacketError>(
            ready_frame(boot_reason(reason, *codes)),
        ),
{
    encode(current_boot_reason(reason, codes))
}

/// Two boot reasons never share a number.
pub proof fn law_boot_reasons_are_told_apart(a: BootReason, b: BootReason)
    requires
        a.code() == b.code(),
    ensures
        a == b,
{
}

/// On a platform whose codes differ, the reason with the `i`-th code is announced with the
/// number `i + 1`, and any other one as undefined.
pub proof fn law_reset_reason_is_announced(reason: u32, codes: ResetReasonCodes)
    requires
        codes.listed().no_duplicates(),
    ensures
        forall|i: int|
            0 <= i < codes.listed().len() && reason == #[trigger] codes.listed()[i] ==> boot_reason(
                reason,
                codes,
            ).code() == i + 1,
        !codes.listed().contains(reason) ==> boot_reason(reason, codes) == BootReason::Undefined,
{
    let listed = codes.listed();
    if !listed.contains(reason) {
        assert(listed[0] != reason);
        assert(listed[1] != reason);
        assert(listed[2] != reason);
        assert(listed[3] != reason);
        assert(listed[4] != reason);
        assert(listed[5] != reason);
        assert(listed[6] != reason);
        assert(listed[7] != reason);
        assert(listed[8] != reason);
        assert(listed[9] != reason);
        assert(listed[10] != reason);
        assert(listed[11] != reason);
        assert(listed[12] != reason);
        assert(listed[13] != reason);
        assert(listed[14] != reason);
    }
}

} // verus!
