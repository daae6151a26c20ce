use ax88179_178a::poll::{poll_until, Poll, Timeout, Verdict};

#[test]
fn wait_that_never_sees_the_condition_times_out() {
    let looks = vec![false; 100];
    assert_eq!(poll_until(&looks, 10), Err(Timeout));
    assert_eq!(poll_until(&looks, 100), Err(Timeout));
    assert_eq!(poll_until(&looks, u32::MAX), Err(Timeout));
    assert_eq!(poll_until(&[], 5), Err(Timeout));
}

#[test]
fn wait_takes_no_more_looks_than_its_bound() {
    let mut p = Poll::new(4);
    let mut taken = 0;
    loop {
        let (next, verdict) = p.observe(false);
        p = next;
        match verdict {
            Verdict::Again => taken += 1,
            Verdict::TimedOut => {
                taken += 1;
                break;
            }
            Verdict::Ready => panic!("never ready"),
        }
        assert!(taken < 4);
    }
    assert_eq!(taken, 4);
    assert_eq!(p.looks, 4);
    assert_eq!(p.observe(true), (p, Verdict::TimedOut));
}

#[test]
fn wait_ends_at_the_first_look_that_finds_the_condition() {
    assert_eq!(poll_until(&[false, false, true, true], 10), Ok(2));
    assert_eq!(poll_until(&[true], 1), Ok(0));
    assert_eq!(poll_until(&[false, false, true], 3), Ok(2));
}

#[test]
fn condition_seen_behind_the_bound_comes_too_late() {
    assert_eq!(poll_until(&[false, false, true], 2), Err(Timeout));
    assert_eq!(poll_until(&[true], 0), Err(Timeout));
}

#[test]
fn wait_without_looks_times_out_at_once() {
    let p = Poll::new(0);
    assert_eq!(p.observe(true), (p, Verdict::TimedOut));
    assert_eq!(p.observe(false), (p, Verdict::TimedOut));
}

#[test]
fn look_that_finds_the_condition_is_ready() {
    let p = Poll::new(3);
    assert_eq!(p.observe(true), (p, Verdict::Ready));
    let (p, v) = p.observe(false);
    assert_eq!(v, Verdict::Again);
    assert_eq!(p, Poll { bound: 3, looks: 1 });
}
