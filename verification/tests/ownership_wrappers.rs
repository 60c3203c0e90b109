use screencapturekit::cm_block_buffer_ref::CMBlockBufferRef;
use screencapturekit::ownership::{Exclusive, Shared, Unretained};

#[test]
fn exclusive_round_trips_its_handle() {
    let owned = Exclusive::from_retained(CMBlockBufferRef { addr: 0x40 });
    assert_eq!(owned.handle().addr, 0x40);
    let handle = owned.into_handle();
    assert_eq!(handle, CMBlockBufferRef { addr: 0x40 });
}

#[test]
fn shared_co_owners_observe_the_same_object() {
    let first = Shared::from_retained(CMBlockBufferRef { addr: 0x50 });
    let second = first.share();
    assert_eq!(first.handle().addr, 0x50);
    assert_eq!(second.handle().addr, 0x50);
}

#[test]
fn unretained_observes_without_owning() {
    let weak = Unretained::from_borrowed(CMBlockBufferRef { addr: 0x60 });
    assert_eq!(weak.handle().addr, 0x60);
}
