use irq_core::flags::IrqFlags;
use irq_core::revocable::RevocableIrqData;
use irq_core::revocable::RevocableThreadedHandler;
use irq_core::subsystem::HwSubsystem;
use irq_core::threaded::ThreadedIrqRegistration;

type Latch = RevocableThreadedHandler<u64>;

#[test]
fn wake_thread_runs_thread_stage_once() {
    let mut subsys = HwSubsystem::new(8);
    let mut reg = ThreadedIrqRegistration::<Latch>::request(
        &mut subsys,
        3,
        RevocableIrqData::new(5u64),
        IrqFlags::none().oneshot(),
        "latch",
    )
    .unwrap();
    let token = reg.token();
    assert!(!reg.thread_pending());

    // Hard stage sees the live latch and asks for the thread stage.
    let code = reg.irq_handler_callback(&subsys, 3, token);
    assert_eq!(code, 2);
    assert!(reg.thread_pending());

    // Exactly one thread-stage run answers it.
    assert_eq!(reg.irq_thread_callback(), Some(1));
    assert!(!reg.thread_pending());
    assert_eq!(reg.irq_thread_callback(), None);
}

#[test]
fn handled_and_not_mine_never_schedule_thread() {
    let mut subsys = HwSubsystem::new(8);
    let mut reg = ThreadedIrqRegistration::<Latch>::request(
        &mut subsys,
        2,
        RevocableIrqData::new(9u64),
        IrqFlags::none(),
        "latch",
    )
    .unwrap();
    let token = reg.token();

    // Revoke first: the hard stage reports the interrupt as not mine...
    reg.handler_data_mut().revoke();
    let code = reg.irq_handler_callback(&subsys, 2, token);
    assert_eq!(code, 0);
    // ...and no thread run is owed.
    assert!(!reg.thread_pending());
    assert_eq!(reg.irq_thread_callback(), None);
}

#[test]
fn revocation_between_stages_is_seen_by_thread_stage() {
    let mut subsys = HwSubsystem::new(8);
    let mut reg = ThreadedIrqRegistration::<Latch>::request(
        &mut subsys,
        4,
        RevocableIrqData::new(1u64),
        IrqFlags::none(),
        "latch",
    )
    .unwrap();
    let token = reg.token();

    let code = reg.irq_handler_callback(&subsys, 4, token);
    assert_eq!(code, 2);
    assert!(reg.thread_pending());

    // The latch is revoked between the two stages; the thread stage checks
    // again and reports the occurrence unhandled.
    reg.handler_data_mut().revoke();
    assert_eq!(reg.irq_thread_callback(), Some(0));
    assert!(!reg.thread_pending());
}

#[test]
fn unregister_cancels_owed_thread_run() {
    let mut subsys = HwSubsystem::new(8);
    let mut reg = ThreadedIrqRegistration::<Latch>::request(
        &mut subsys,
        5,
        RevocableIrqData::new(2u64),
        IrqFlags::none(),
        "latch",
    )
    .unwrap();
    let token = reg.token();

    let code = reg.irq_handler_callback(&subsys, 5, token);
    assert_eq!(code, 2);
    assert!(reg.thread_pending());

    reg.unregister(&mut subsys);
    assert!(!reg.thread_pending());
    assert_eq!(reg.irq_thread_callback(), None);

    // Deliveries after teardown are inert too.
    let code = reg.irq_handler_callback(&subsys, 5, token);
    assert_eq!(code, 0);
    assert!(!reg.thread_pending());
}

#[test]
fn threaded_registration_reports_line_and_nests_disables() {
    let mut subsys = HwSubsystem::new(8);
    let reg = ThreadedIrqRegistration::<Latch>::request(
        &mut subsys,
        6,
        RevocableIrqData::new(0u64),
        IrqFlags::none().shared().oneshot(),
        "latch",
    )
    .unwrap();
    assert_eq!(reg.irq(), 6);
    reg.disable(&mut subsys);
    reg.disable_nosync(&mut subsys);
    assert_eq!(subsys.line_depth(6), 2);
    reg.enable(&mut subsys);
    reg.enable(&mut subsys);
    assert_eq!(subsys.line_depth(6), 0);
}
