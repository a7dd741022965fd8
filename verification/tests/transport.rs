use irq_wait::intr::InterruptObject;
use irq_wait::intr::LineState;
use irq_wait::intr::PollResult;
use irq_wait::serial::DeviceOutcome;
use irq_wait::serial::ReadFlow;
use irq_wait::serial::SerialUsbDevice;
use irq_wait::serial::WriteFlow;

fn transport() -> (InterruptObject<u32>, SerialUsbDevice) {
    let mut obj: InterruptObject<u32> = InterruptObject::new(67);
    let handle = obj.get_handle().unwrap();
    (obj, SerialUsbDevice::new(handle))
}

#[test]
fn would_block_services_once_then_retries() {
    let (_obj, dev) = transport();
    let mut flow: ReadFlow<u8> = dev.read();
    flow.on_device_read(DeviceOutcome::WouldBlock);
    assert!(matches!(flow, ReadFlow::Service));
    // The service step made progress, so the read is retried at once;
    // exactly one service step stood between the would-block and the retry.
    flow.on_service(true);
    assert!(matches!(flow, ReadFlow::AttemptRead));
    flow.on_device_read(DeviceOutcome::Transferred(3));
    assert!(matches!(flow, ReadFlow::Done(3)));
}

#[test]
fn empty_write_completes_without_device() {
    let (_obj, dev) = transport();
    let flow: WriteFlow<u8> = dev.write_all(&[]);
    assert!(matches!(flow, WriteFlow::Done));
}

#[test]
fn zero_length_read_is_delegated_to_device() {
    let (_obj, dev) = transport();
    let mut flow: ReadFlow<u8> = dev.read();
    flow.on_device_read(DeviceOutcome::Transferred(0));
    assert!(matches!(flow, ReadFlow::Done(0)));
}

#[test]
fn read_wakes_after_interrupt_then_returns_five() {
    let (mut obj, dev) = transport();
    let mut line = LineState { masked: true, pending: false };
    let mut flow: ReadFlow<u8> = dev.read();
    flow.on_device_read(DeviceOutcome::WouldBlock);
    assert!(matches!(flow, ReadFlow::Service));
    flow.on_service(false);
    assert!(matches!(flow, ReadFlow::AwaitInterrupt));
    // The wait suspends, the line fires, the stored waker is handed out, and
    // the repoll resolves on the now-pending line.
    assert_eq!(dev.wait(&mut obj, &mut line, 9), PollResult::Pending);
    line.pending = true;
    assert_eq!(obj.handle_interrupt(&mut line), Some(9));
    assert_eq!(dev.wait(&mut obj, &mut line, 9), PollResult::Ready);
    flow.on_wake();
    assert!(matches!(flow, ReadFlow::AttemptRead));
    flow.on_device_read(DeviceOutcome::Transferred(5));
    assert!(matches!(flow, ReadFlow::Done(5)));
}

#[test]
fn write_advances_cursor_across_wait_cycle() {
    let (mut obj, dev) = transport();
    let mut line = LineState { masked: true, pending: false };
    let data = [0u8; 10];
    let mut flow: WriteFlow<u8> = dev.write_all(&data);
    assert!(matches!(flow, WriteFlow::AttemptWrite { len: 10, offset: 0 }));
    flow.on_device_write(DeviceOutcome::Transferred(4));
    assert!(matches!(flow, WriteFlow::AttemptWrite { len: 10, offset: 4 }));
    flow.on_device_write(DeviceOutcome::WouldBlock);
    assert!(matches!(flow, WriteFlow::Service { len: 10, offset: 4 }));
    flow.on_service(false);
    assert!(matches!(flow, WriteFlow::AwaitInterrupt { len: 10, offset: 4 }));
    assert_eq!(dev.wait(&mut obj, &mut line, 3), PollResult::Pending);
    line.pending = true;
    assert_eq!(obj.handle_interrupt(&mut line), Some(3));
    assert_eq!(dev.wait(&mut obj, &mut line, 3), PollResult::Ready);
    flow.on_wake();
    assert!(matches!(flow, WriteFlow::AttemptWrite { len: 10, offset: 4 }));
    flow.on_device_write(DeviceOutcome::Transferred(6));
    assert!(matches!(flow, WriteFlow::Done));
}

#[test]
fn read_fault_propagates_immediately() {
    let (_obj, dev) = transport();
    let mut flow: ReadFlow<u8> = dev.read();
    // The fault comes on the first device call: no service step stands
    // between the attempt and the failure.
    flow.on_device_read(DeviceOutcome::Fault(42));
    assert!(matches!(flow, ReadFlow::Failed(42)));
}

#[test]
fn write_fault_propagates_with_partial_progress_kept() {
    let (_obj, dev) = transport();
    let data = [0u8; 8];
    let mut flow: WriteFlow<u8> = dev.write_all(&data);
    flow.on_device_write(DeviceOutcome::Transferred(3));
    assert!(matches!(flow, WriteFlow::AttemptWrite { len: 8, offset: 3 }));
    flow.on_device_write(DeviceOutcome::Fault(7));
    assert!(matches!(flow, WriteFlow::Failed(7)));
}

#[test]
fn service_without_progress_suspends_write() {
    let (_obj, dev) = transport();
    let data = [0u8; 4];
    let mut flow: WriteFlow<u8> = dev.write_all(&data);
    flow.on_device_write(DeviceOutcome::WouldBlock);
    assert!(matches!(flow, WriteFlow::Service { len: 4, offset: 0 }));
    flow.on_service(true);
    assert!(matches!(flow, WriteFlow::AttemptWrite { len: 4, offset: 0 }));
    flow.on_device_write(DeviceOutcome::Transferred(4));
    assert!(matches!(flow, WriteFlow::Done));
}
