use tpcconv::relocate::{RelocAction, RelocEvent, Relocator};
use tpcconv::ConvError;

#[test]
fn same_device_renames() {
    let mut r = Relocator::new();
    assert_eq!(r.current_action(), RelocAction::ProbeDevices);
    assert_eq!(r.step(RelocEvent::SameDevice(true)), RelocAction::Rename);
    assert_eq!(r.step(RelocEvent::OpOk), RelocAction::Stop(Ok(())));
}

#[test]
fn cross_device_copies_then_deletes_source() {
    let mut r = Relocator::new();
    assert_eq!(r.step(RelocEvent::SameDevice(false)), RelocAction::Copy);
    assert_eq!(r.step(RelocEvent::OpOk), RelocAction::RemoveSource);
    assert_eq!(r.step(RelocEvent::OpOk), RelocAction::Stop(Ok(())));
}

#[test]
fn undecidable_device_identity_copies() {
    let mut r = Relocator::new();
    assert_eq!(r.step(RelocEvent::DeviceUnknown), RelocAction::Copy);
}

#[test]
fn failed_copy_removes_partial_dest_and_keeps_source() {
    let mut r = Relocator::new();
    assert_eq!(r.step(RelocEvent::SameDevice(false)), RelocAction::Copy);
    // The copy fails: the protocol never asked for the source to be
    // deleted, and now asks for the partial destination to go.
    assert_eq!(r.step(RelocEvent::OpFailed), RelocAction::RemoveDest);
    assert_eq!(r.step(RelocEvent::OpOk), RelocAction::Stop(Err(ConvError::Io)));
    // The failure is final.
    assert_eq!(r.step(RelocEvent::OpOk), RelocAction::Stop(Err(ConvError::Io)));
}

#[test]
fn failed_rename_keeps_source() {
    let mut r = Relocator::new();
    assert_eq!(r.step(RelocEvent::SameDevice(true)), RelocAction::Rename);
    // A rename either happens or does not: on failure nothing is deleted
    // and the protocol stops with the error.
    assert_eq!(r.step(RelocEvent::OpFailed), RelocAction::Stop(Err(ConvError::Io)));
}

#[test]
fn failed_source_deletion_is_reported() {
    let mut r = Relocator::new();
    assert_eq!(r.step(RelocEvent::SameDevice(false)), RelocAction::Copy);
    assert_eq!(r.step(RelocEvent::OpOk), RelocAction::RemoveSource);
    assert_eq!(r.step(RelocEvent::OpFailed), RelocAction::Stop(Err(ConvError::Io)));
}
