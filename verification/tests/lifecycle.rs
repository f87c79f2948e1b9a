use irq_core::flags::IrqFlags;
use irq_core::handler::CountingHandler;
use irq_core::registration::IrqRegistration;
use irq_core::subsystem::HwSubsystem;
use irq_core::subsystem::IrqError;

#[test]
fn count_one_hundred_deliveries() {
    let mut subsys = HwSubsystem::new(16);
    let mut reg = IrqRegistration::<CountingHandler>::request(
        &mut subsys,
        7,
        0u64,
        IrqFlags::none(),
        "counter",
    )
    .unwrap();
    assert_eq!(reg.irq(), 7);
    let token = reg.token();
    for _ in 0..100 {
        let code = reg.irq_handler_callback(&subsys, 7, token);
        assert_eq!(code, 1);
        // The correlation token never changes across deliveries.
        assert_eq!(reg.token(), token);
    }
    assert_eq!(*reg.handler_data(), 100);

    reg.unregister(&mut subsys);
    assert!(!subsys.is_registered(token));

    // A delivery after teardown is inert: no further increments.
    let code = reg.irq_handler_callback(&subsys, 7, token);
    assert_eq!(code, 0);
    assert_eq!(*reg.handler_data(), 100);
}

#[test]
fn unregister_is_idempotent() {
    let mut subsys = HwSubsystem::new(4);
    let mut reg = IrqRegistration::<CountingHandler>::request(
        &mut subsys,
        2,
        0u64,
        IrqFlags::none(),
        "once",
    )
    .unwrap();
    let token = reg.token();
    reg.unregister(&mut subsys);
    assert!(!subsys.is_registered(token));
    // A second teardown changes nothing and is safe.
    reg.unregister(&mut subsys);
    assert!(!subsys.is_registered(token));
}

#[test]
fn tokens_are_never_reused() {
    let mut subsys = HwSubsystem::new(4);
    let mut first = IrqRegistration::<CountingHandler>::request(
        &mut subsys,
        1,
        0u64,
        IrqFlags::none(),
        "first",
    )
    .unwrap();
    let first_token = first.token();
    first.unregister(&mut subsys);
    let second = IrqRegistration::<CountingHandler>::request(
        &mut subsys,
        1,
        0u64,
        IrqFlags::none(),
        "second",
    )
    .unwrap();
    assert_ne!(second.token(), first_token);
}

#[test]
fn invalid_line_is_refused() {
    let mut subsys = HwSubsystem::new(16);
    let r = IrqRegistration::<CountingHandler>::request(
        &mut subsys,
        99,
        0u64,
        IrqFlags::none(),
        "bad",
    );
    assert!(matches!(r, Err(IrqError::InvalidLine)));
}

#[test]
fn exclusive_claim_conflicts() {
    let mut subsys = HwSubsystem::new(16);
    let _excl = IrqRegistration::<CountingHandler>::request(
        &mut subsys,
        3,
        0u64,
        IrqFlags::none(),
        "exclusive",
    )
    .unwrap();
    let r = IrqRegistration::<CountingHandler>::request(
        &mut subsys,
        3,
        0u64,
        IrqFlags::none().shared(),
        "late",
    );
    assert!(matches!(r, Err(IrqError::LineClaimed)));
}

#[test]
fn shared_claims_coexist() {
    let mut subsys = HwSubsystem::new(16);
    let a = IrqRegistration::<CountingHandler>::request(
        &mut subsys,
        5,
        0u64,
        IrqFlags::none().shared(),
        "a",
    )
    .unwrap();
    let b = IrqRegistration::<CountingHandler>::request(
        &mut subsys,
        5,
        0u64,
        IrqFlags::none().shared(),
        "b",
    )
    .unwrap();
    assert_ne!(a.token(), b.token());
    assert!(subsys.is_registered(a.token()));
    assert!(subsys.is_registered(b.token()));
}

#[test]
fn wrong_token_is_not_serviced() {
    let mut subsys = HwSubsystem::new(8);
    let mut reg = IrqRegistration::<CountingHandler>::request(
        &mut subsys,
        4,
        0u64,
        IrqFlags::none(),
        "picky",
    )
    .unwrap();
    let token = reg.token();
    let code = reg.irq_handler_callback(&subsys, 4, token + 5);
    assert_eq!(code, 0);
    assert_eq!(*reg.handler_data(), 0);
}

#[test]
fn disable_enable_nest() {
    let mut subsys = HwSubsystem::new(8);
    let reg = IrqRegistration::<CountingHandler>::request(
        &mut subsys,
        6,
        0u64,
        IrqFlags::none(),
        "depth",
    )
    .unwrap();
    assert_eq!(subsys.line_depth(6), 0);
    reg.disable(&mut subsys);
    reg.disable(&mut subsys);
    assert_eq!(subsys.line_depth(6), 2);
    reg.enable(&mut subsys);
    assert_eq!(subsys.line_depth(6), 1);
    reg.disable_nosync(&mut subsys);
    assert_eq!(subsys.line_depth(6), 2);
    reg.enable(&mut subsys);
    reg.enable(&mut subsys);
    assert_eq!(subsys.line_depth(6), 0);
    // A line already enabled stays enabled.
    reg.enable(&mut subsys);
    assert_eq!(subsys.line_depth(6), 0);
}

#[test]
fn counter_saturates_at_top() {
    let mut subsys = HwSubsystem::new(8);
    let mut reg = IrqRegistration::<CountingHandler>::request(
        &mut subsys,
        1,
        u64::MAX,
        IrqFlags::none(),
        "full",
    )
    .unwrap();
    let token = reg.token();
    let code = reg.irq_handler_callback(&subsys, 1, token);
    assert_eq!(code, 1);
    assert_eq!(*reg.handler_data(), u64::MAX);
}
