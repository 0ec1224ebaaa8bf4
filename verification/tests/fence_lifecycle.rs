use softfence::device::Device;
use softfence::session::Session;
use softfence::Error;

fn setup() -> (Device, Session) {
    let mut dev = Device::new();
    dev.register_buffer(7).unwrap();
    let session = Session::open(64);
    (dev, session)
}

#[test]
fn attach_write_then_read_conflicts() {
    let (mut dev, mut s) = setup();
    assert_eq!(s.attach(&mut dev, 7, 1, 0, 0), Ok(0));
    assert_eq!(s.attach(&mut dev, 7, 0, 0, 1), Err(Error::Busy));
    assert_eq!(s.signal(&mut dev, 0, 0, 2), Ok(()));
    assert_eq!(s.signal(&mut dev, 0, 0, 3), Err(Error::NotFound));
}

#[test]
fn attach_nonzero_reserved_rejected() {
    let (mut dev, mut s) = setup();
    assert_eq!(s.attach(&mut dev, 7, 0, 1, 0), Err(Error::InvalidArgument));
    // nothing was allocated: the next attach still gets id 0
    assert_eq!(s.attach(&mut dev, 7, 0, 0, 0), Ok(0));
}

#[test]
fn attach_unrecognized_flag_bits_rejected() {
    let (mut dev, mut s) = setup();
    assert_eq!(s.attach(&mut dev, 7, 2, 0, 0), Err(Error::InvalidArgument));
    assert_eq!(s.attach(&mut dev, 3, 0, 0, 0), Err(Error::NotFound));
}

#[test]
fn attach_unknown_buffer_not_found() {
    let (mut dev, mut s) = setup();
    assert_eq!(s.attach(&mut dev, 99, 0, 0, 0), Err(Error::NotFound));
}

#[test]
fn two_reads_do_not_conflict() {
    let (mut dev, mut s) = setup();
    assert_eq!(s.attach(&mut dev, 7, 0, 0, 0), Ok(0));
    assert_eq!(s.attach(&mut dev, 7, 0, 0, 1), Ok(1));
}

#[test]
fn write_after_read_conflicts() {
    let (mut dev, mut s) = setup();
    assert_eq!(s.attach(&mut dev, 7, 0, 0, 0), Ok(0));
    assert_eq!(s.attach(&mut dev, 7, 1, 0, 1), Err(Error::Busy));
}

#[test]
fn distinct_ids_while_both_live() {
    let mut dev = Device::new();
    dev.register_buffer(7).unwrap();
    dev.register_buffer(8).unwrap();
    let mut s = Session::open(64);
    let a = s.attach(&mut dev, 7, 1, 0, 0).unwrap();
    let b = s.attach(&mut dev, 8, 1, 0, 0).unwrap();
    assert_ne!(a, b);
}

#[test]
fn id_reused_after_consumption() {
    let (mut dev, mut s) = setup();
    assert_eq!(s.attach(&mut dev, 7, 1, 0, 0), Ok(0));
    assert_eq!(s.signal(&mut dev, 0, 0, 1), Ok(()));
    // slot 0 is free again and is the lowest free id
    assert_eq!(s.attach(&mut dev, 7, 1, 0, 2), Ok(0));
}

#[test]
fn late_signal_times_out() {
    let (mut dev, mut s) = setup();
    assert_eq!(s.attach(&mut dev, 7, 1, 0, 0), Ok(0));
    // the 10000 ms window has elapsed before the signal call
    assert_eq!(s.signal(&mut dev, 0, 0, 10000), Err(Error::TimedOut));
    // the id was consumed anyway
    assert_eq!(s.signal(&mut dev, 0, 0, 10001), Err(Error::NotFound));
}

#[test]
fn signal_just_inside_window_succeeds() {
    let (mut dev, mut s) = setup();
    assert_eq!(s.attach(&mut dev, 7, 1, 0, 0), Ok(0));
    assert_eq!(s.signal(&mut dev, 0, 0, 9999), Ok(()));
}

#[test]
fn expiry_timer_fires_without_any_call() {
    let (mut dev, mut s) = setup();
    assert_eq!(s.attach(&mut dev, 7, 1, 0, 0), Ok(0));
    assert_eq!(dev.pending_fences(), 1);
    dev.expire_due(10000);
    assert_eq!(dev.pending_fences(), 0);
    assert_eq!(s.signal(&mut dev, 0, 0, 10000), Err(Error::TimedOut));
}

#[test]
fn expired_fence_unblocks_the_buffer() {
    let (mut dev, mut s) = setup();
    assert_eq!(s.attach(&mut dev, 7, 1, 0, 0), Ok(0));
    assert_eq!(s.attach(&mut dev, 7, 1, 0, 1), Err(Error::Busy));
    // after expiry the old fence no longer blocks a new attach
    assert_eq!(s.attach(&mut dev, 7, 1, 0, 10000), Ok(1));
}

#[test]
fn busy_attach_leaks_no_pending_fence() {
    let (mut dev, mut s) = setup();
    assert_eq!(s.attach(&mut dev, 7, 1, 0, 0), Ok(0));
    let pending_before = dev.pending_fences();
    assert_eq!(s.attach(&mut dev, 7, 0, 0, 1), Err(Error::Busy));
    // the aborted fence was signaled at once, not left pending
    assert_eq!(dev.pending_fences(), pending_before);
}

#[test]
fn signal_nonzero_flags_rejected() {
    let (mut dev, mut s) = setup();
    assert_eq!(s.attach(&mut dev, 7, 1, 0, 0), Ok(0));
    assert_eq!(s.signal(&mut dev, 0, 7, 1), Err(Error::InvalidArgument));
    // the id was not consumed by the rejected call
    assert_eq!(s.signal(&mut dev, 0, 0, 2), Ok(()));
}

#[test]
fn signal_unallocated_id_not_found() {
    let (mut dev, mut s) = setup();
    assert_eq!(s.signal(&mut dev, 0, 0, 0), Err(Error::NotFound));
    assert_eq!(s.signal(&mut dev, 12, 0, 0), Err(Error::NotFound));
}

#[test]
fn table_exhaustion_reports_and_leaks_nothing() {
    let mut dev = Device::new();
    dev.register_buffer(7).unwrap();
    let mut s = Session::open(1);
    assert_eq!(s.attach(&mut dev, 7, 0, 0, 0), Ok(0));
    let pending_before = dev.pending_fences();
    // a second read does not conflict, but the one-slot table is full;
    // the published fence is signaled rather than leaked
    assert_eq!(s.attach(&mut dev, 7, 0, 0, 1), Err(Error::ResourceExhausted));
    assert_eq!(dev.pending_fences(), pending_before);
}

#[test]
fn close_drains_and_signals_pending_fences() {
    let (mut dev, mut s) = setup();
    assert_eq!(s.attach(&mut dev, 7, 1, 0, 0), Ok(0));
    assert_eq!(dev.pending_fences(), 1);
    s.close(&mut dev, 1);
    assert_eq!(dev.pending_fences(), 0);
    assert_eq!(s.signal(&mut dev, 0, 0, 2), Err(Error::NotFound));
}

#[test]
fn close_with_mixed_slots() {
    let mut dev = Device::new();
    dev.register_buffer(7).unwrap();
    dev.register_buffer(8).unwrap();
    let mut s = Session::open(64);
    assert_eq!(s.attach(&mut dev, 7, 1, 0, 0), Ok(0));
    assert_eq!(s.attach(&mut dev, 8, 1, 0, 0), Ok(1));
    assert_eq!(s.signal(&mut dev, 0, 0, 1), Ok(()));
    assert_eq!(dev.pending_fences(), 1);
    s.close(&mut dev, 2);
    // the drained fence was signaled, the consumed one left alone
    assert_eq!(dev.pending_fences(), 0);
    assert_eq!(s.signal(&mut dev, 1, 0, 3), Err(Error::NotFound));
}

#[test]
fn dummy_probe_always_rejected() {
    let (_dev, s) = setup();
    assert_eq!(s.dummy(), Err(Error::InvalidArgument));
}

#[test]
fn duplicate_buffer_handle_refused() {
    let mut dev = Device::new();
    assert_eq!(dev.register_buffer(7), Ok(()));
    assert_eq!(dev.register_buffer(7), Err(Error::InvalidArgument));
    assert_eq!(dev.register_buffer(8), Ok(()));
}

#[test]
fn status_codes_are_fixed() {
    assert_eq!(Error::InvalidArgument.status_code(), -22);
    assert_eq!(Error::NotFound.status_code(), -2);
    assert_eq!(Error::Busy.status_code(), -16);
    assert_eq!(Error::TimedOut.status_code(), -110);
    assert_eq!(Error::ResourceExhausted.status_code(), -12);
}

#[test]
fn sessions_are_isolated() {
    let mut dev = Device::new();
    dev.register_buffer(7).unwrap();
    let mut s1 = Session::open(64);
    let mut s2 = Session::open(64);
    assert_eq!(s1.attach(&mut dev, 7, 0, 0, 0), Ok(0));
    // ids are per session: the other session has no id 0
    assert_eq!(s2.signal(&mut dev, 0, 0, 1), Err(Error::NotFound));
    // a read attach from the other session sees no conflict either
    assert_eq!(s2.attach(&mut dev, 7, 0, 0, 1), Ok(0));
}
