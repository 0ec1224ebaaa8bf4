use softfence::fence::{Fence, FenceState};
use softfence::handle_table::HandleTable;
use softfence::Error;

#[test]
fn fence_starts_pending_with_deadline() {
    let f = Fence::create(100);
    assert_eq!(f.state, FenceState::Pending);
    assert_eq!(f.deadline, 10100);
    assert_eq!(f.wakes, 0);
    assert!(!f.is_signaled());
}

#[test]
fn fence_signal_wakes_exactly_once() {
    let mut f = Fence::create(0);
    assert_eq!(f.signal(), Ok(()));
    assert_eq!(f.state, FenceState::Signaled);
    assert_eq!(f.wakes, 1);
    assert!(f.is_signaled());
    // the second attempt reports the earlier signal and does not wake again
    assert_eq!(f.signal(), Err(Error::InvalidArgument));
    assert_eq!(f.wakes, 1);
}

#[test]
fn fence_expiry_wins_the_race_once() {
    let mut f = Fence::create(0);
    f.expire(9999);
    assert_eq!(f.state, FenceState::Pending);
    f.expire(10000);
    assert_eq!(f.state, FenceState::Expired);
    assert_eq!(f.wakes, 1);
    // the explicit signal lost the race: reported as expired, no second wake
    assert_eq!(f.signal(), Err(Error::TimedOut));
    assert_eq!(f.wakes, 1);
    // and a second timer firing does not wake again either
    f.expire(20000);
    assert_eq!(f.wakes, 1);
}

#[test]
fn table_allocates_lowest_free_id() {
    let mut t = HandleTable::new(8);
    assert_eq!(t.allocate(10), Ok(0));
    assert_eq!(t.allocate(11), Ok(1));
    assert_eq!(t.allocate(12), Ok(2));
    assert_eq!(t.replace(1, None), Ok(Some(11)));
    assert_eq!(t.allocate(13), Ok(1));
    assert_eq!(t.allocate(14), Ok(3));
}

#[test]
fn table_replace_reports_prior_contents() {
    let mut t = HandleTable::new(8);
    assert_eq!(t.allocate(10), Ok(0));
    assert_eq!(t.replace(0, None), Ok(Some(10)));
    // the slot is already empty: nothing to take
    assert_eq!(t.replace(0, None), Ok(None));
    // outside the allocated range
    assert_eq!(t.replace(5, None), Err(Error::NotFound));
}

#[test]
fn table_respects_its_limit() {
    let mut t = HandleTable::new(2);
    assert_eq!(t.allocate(10), Ok(0));
    assert_eq!(t.allocate(11), Ok(1));
    assert_eq!(t.allocate(12), Err(Error::ResourceExhausted));
    // freeing a slot makes allocation possible again
    assert_eq!(t.replace(0, None), Ok(Some(10)));
    assert_eq!(t.allocate(12), Ok(0));
}
