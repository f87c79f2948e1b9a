use irq_core::flags::IrqFlags;
use irq_core::flags::IRQF_NO_THREAD;
use irq_core::flags::IRQF_ONESHOT;
use irq_core::flags::IRQF_SHARED;
use irq_core::handler::IrqReturn;

#[test]
fn flag_bits_have_their_values() {
    assert_eq!(IrqFlags::none().raw(), 0);
    assert_eq!(IrqFlags::none().shared().raw(), 0x80);
    assert_eq!(IrqFlags::none().oneshot().raw(), 0x2000);
    assert_eq!(IrqFlags::none().no_thread().raw(), 0x10000);
    assert_eq!(IRQF_SHARED, 0x80);
    assert_eq!(IRQF_ONESHOT, 0x2000);
    assert_eq!(IRQF_NO_THREAD, 0x10000);
}

#[test]
fn flags_combine_by_bitwise_or() {
    let combined = IrqFlags::none().shared().oneshot();
    assert_eq!(combined.raw(), 0x80 | 0x2000);
    let joined = IrqFlags::none().shared().or(IrqFlags::none().no_thread());
    assert_eq!(joined.raw(), 0x80 | 0x10000);
    // Adding a bit twice changes nothing.
    assert_eq!(IrqFlags::none().shared().shared().raw(), 0x80);
}

#[test]
fn shared_bit_is_observable() {
    assert!(IrqFlags::none().shared().is_shared());
    assert!(!IrqFlags::none().oneshot().is_shared());
    assert!(IrqFlags::none().shared().oneshot().is_shared());
}

#[test]
fn delivery_results_have_their_codes() {
    assert_eq!(IrqReturn::NotMine.raw(), 0);
    assert_eq!(IrqReturn::Handled.raw(), 1);
    assert_eq!(IrqReturn::WakeThread.raw(), 2);
}
