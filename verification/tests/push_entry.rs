use compio_driver::PushEntry;

#[test]
fn only_ready_is_ready() {
    assert!(PushEntry::<u8, u8>::Ready(1).is_ready());
    assert!(!PushEntry::<u8, u8>::Pending(1).is_ready());
}

#[test]
fn ready_is_taken() {
    assert_eq!(PushEntry::<u8, u16>::Ready(7).take_ready(), Some(7));
    assert_eq!(PushEntry::<u8, u16>::Pending(7).take_ready(), None);
}

#[test]
fn pending_is_mapped() {
    let pending = PushEntry::<u8, u8>::Pending(3).map_pending(|k| k as u32 * 100);
    assert!(matches!(pending, PushEntry::Pending(300)));
    let ready = PushEntry::<u8, u8>::Ready(3).map_pending(|_| -> u32 { panic!("not pending") });
    assert!(matches!(ready, PushEntry::Ready(3)));
}

#[test]
fn ready_is_mapped() {
    let ready = PushEntry::<u8, u8>::Ready(3).map_ready(|r| r as u32 * 100);
    assert!(matches!(ready, PushEntry::Ready(300)));
    let pending = PushEntry::<u8, u8>::Pending(3).map_ready(|_| -> u32 { panic!("not ready") });
    assert!(matches!(pending, PushEntry::Pending(3)));
}
