use esp_wroom_32_slave::master::messages::ready::{
    current_boot_reason, encode, encode_current, BootReason, ResetReasonCodes,
};

fn codes() -> ResetReasonCodes {
    ResetReasonCodes {
        power_on: 1,
        external: 2,
        software: 3,
        panic: 4,
        interrupt_watchdog: 5,
        task_watchdog: 6,
        watchdog: 7,
        deep_sleep: 8,
        brownout: 9,
        sdio: 10,
        usb: 11,
        jtag: 12,
        efuse: 13,
        power_glitch: 14,
        cpu_lockup: 15,
    }
}

#[test]
fn reset_reasons_become_boot_reasons() {
    let expected = [
        BootReason::Undefined,
        BootReason::Power,
        BootReason::External,
        BootReason::Software,
        BootReason::Panic,
        BootReason::InterruptWatchdog,
        BootReason::TaskWatchdog,
        BootReason::OtherWatchdog,
        BootReason::DeepSleep,
        BootReason::Brownout,
        BootReason::Sdio,
        BootReason::Usb,
        BootReason::Jtag,
        BootReason::Efuse,
        BootReason::PowerGlitch,
        BootReason::CpuLockup,
    ];
    for (code, reason) in expected.iter().enumerate() {
        assert_eq!(current_boot_reason(code as u32, &codes()), *reason);
        assert_eq!(reason.as_u8() as usize, code);
    }
    assert_eq!(current_boot_reason(16, &codes()), BootReason::Undefined);
}

#[test]
fn first_of_equal_codes_counts() {
    let mut same = codes();
    same.cpu_lockup = 9;
    assert_eq!(current_boot_reason(9, &same), BootReason::Brownout);
}

#[test]
fn ready_frame_is_empty_and_names_the_reason() {
    let frame = encode(BootReason::Power).unwrap();
    assert_eq!(frame, vec![0xAA, 0, 0, 1, 1, 0xD6, 0x5E]);
    assert_eq!(encode_current(1, &codes()).unwrap(), frame);
    assert_eq!(encode_current(6, &codes()).unwrap()[4], 6);
    assert_eq!(encode_current(99, &codes()).unwrap()[4], 0);
}
