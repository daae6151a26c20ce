use ax88179_178a::adapter::{
    on_status, Adapter, Lifecycle, Outcome, StatusAction, Transition,
};
use ax88179_178a::link::{Duplex, LinkSpeed, LinkState};
use ax88179_178a::transport::{Error, PowerMode};

const ALL: [Transition; 7] = [
    Transition::Bind,
    Transition::LinkReset,
    Transition::Reset,
    Transition::Stop,
    Transition::Suspend,
    Transition::Resume,
    Transition::Unbind,
];

fn bound() -> Adapter {
    Adapter::new().settle(Transition::Bind, Outcome::Completed).unwrap()
}

#[test]
fn adapter_starts_unbound_and_only_binds() {
    let a = Adapter::new();
    assert_eq!(a, Adapter { life: Lifecycle::Unbound, link: LinkState::Down, suspended: false });
    for t in ALL {
        assert_eq!(a.permits(t), t == Transition::Bind);
        if t != Transition::Bind {
            assert_eq!(a.settle(t, Outcome::Completed), None);
        }
    }
}

#[test]
fn bind_leaves_the_link_negotiating() {
    let a = bound();
    assert_eq!(a, Adapter { life: Lifecycle::Bound, link: LinkState::Negotiating, suspended: false });
    assert!(!a.permits(Transition::Bind));
    assert!(!a.permits(Transition::Resume));
    assert!(a.permits(Transition::LinkReset));
    assert!(a.permits(Transition::Stop));
    assert!(a.permits(Transition::Suspend));
    assert!(a.permits(Transition::Reset));
    assert!(a.permits(Transition::Unbind));
}

#[test]
fn link_reset_reports_the_link() {
    let up = LinkState::Up { speed: LinkSpeed::Mb1000, duplex: Duplex::Full, profile: 0 };
    let a = bound().settle(Transition::LinkReset, Outcome::Link(up)).unwrap();
    assert_eq!(a.link, up);
    assert_eq!(a.life, Lifecycle::Bound);
    let a = a.settle(Transition::Stop, Outcome::Completed).unwrap();
    assert_eq!(a.link, up);
    let a = a.settle(Transition::LinkReset, Outcome::Link(LinkState::Down)).unwrap();
    assert_eq!(a.link, LinkState::Down);
    let a = a.settle(Transition::LinkReset, Outcome::Link(up)).unwrap();
    assert_eq!(a.link, up);
}

#[test]
fn timed_out_link_reset_is_no_fault() {
    let a = bound().settle(Transition::LinkReset, Outcome::Link(LinkState::Down)).unwrap();
    assert_eq!(a.life, Lifecycle::Bound);
    assert_eq!(a.link, LinkState::Down);
    assert!(a.permits(Transition::LinkReset));
}

#[test]
fn failed_register_operation_faults_the_adapter() {
    let e = Outcome::Failed(Error { errno: -71 });
    for t in [Transition::LinkReset, Transition::Reset, Transition::Stop, Transition::Suspend] {
        let a = bound().settle(t, e).unwrap();
        assert_eq!(a.life, Lifecycle::Faulted);
        assert_eq!(a.link, LinkState::Down);
    }
    let a = Adapter::new().settle(Transition::Bind, e).unwrap();
    assert_eq!(a.life, Lifecycle::Faulted);
}

#[test]
fn faulted_adapter_takes_only_reset_and_unbind() {
    let a = bound().settle(Transition::Stop, Outcome::Failed(Error { errno: -5 })).unwrap();
    for t in ALL {
        assert_eq!(a.permits(t), t == Transition::Reset || t == Transition::Unbind);
    }
    let a = a.settle(Transition::Reset, Outcome::Completed).unwrap();
    assert_eq!(a, bound());
}

#[test]
fn unbind_succeeds_whatever_failed() {
    let e = Outcome::Failed(Error { errno: -19 });
    let faulted = bound().settle(Transition::Stop, e).unwrap();
    assert_eq!(faulted.settle(Transition::Unbind, e), Some(Adapter::new()));
    assert_eq!(faulted.settle(Transition::Unbind, Outcome::Completed), Some(Adapter::new()));
    assert_eq!(bound().settle(Transition::Unbind, e), Some(Adapter::new()));
    let asleep = bound().settle(Transition::Suspend, Outcome::Completed).unwrap();
    assert_eq!(asleep.settle(Transition::Unbind, Outcome::Completed), Some(Adapter::new()));
}

#[test]
fn suspend_and_resume_lie_over_the_bound_state() {
    let up = LinkState::Up { speed: LinkSpeed::Mb100, duplex: Duplex::Half, profile: 2 };
    let a = bound().settle(Transition::LinkReset, Outcome::Link(up)).unwrap();
    let asleep = a.settle(Transition::Suspend, Outcome::Completed).unwrap();
    assert!(asleep.suspended);
    assert_eq!(asleep.link, up);
    for t in ALL {
        let ok = matches!(t, Transition::Resume | Transition::Reset | Transition::Unbind);
        assert_eq!(asleep.permits(t), ok);
    }
    let awake = asleep.settle(Transition::Resume, Outcome::Completed).unwrap();
    assert!(!awake.suspended);
    assert_eq!(awake.link, LinkState::Negotiating);
    assert_eq!(awake.life, Lifecycle::Bound);
}

#[test]
fn interrupt_schedules_a_link_reset_when_the_link_comes_up() {
    let up = [0, 0, 0x01, 0, 0, 0, 0, 0];
    let down = [0, 0, 0x00, 0, 0, 0, 0, 0];
    assert_eq!(on_status(&up, false), StatusAction::ScheduleLinkReset);
    assert_eq!(on_status(&up, true), StatusAction::Ignore);
    assert_eq!(on_status(&down, true), StatusAction::CarrierOff);
    assert_eq!(on_status(&down, false), StatusAction::Ignore);
    assert_eq!(on_status(&[0xff, 0xff, 0xfe, 0xff, 0xff, 0xff, 0xff, 0xff], true), StatusAction::CarrierOff);
    assert_eq!(on_status(&[0, 0, 0x83, 0, 0, 0, 0, 0, 0, 0], false), StatusAction::ScheduleLinkReset);
}

#[test]
fn short_interrupt_data_is_ignored() {
    assert_eq!(on_status(&[], true), StatusAction::Ignore);
    assert_eq!(on_status(&[0, 0, 1], false), StatusAction::Ignore);
    assert_eq!(on_status(&[0, 0, 1, 0, 0, 0, 0], false), StatusAction::Ignore);
    assert_eq!(on_status(&[0, 0, 0, 0, 0, 0, 0], true), StatusAction::Ignore);
}

#[test]
fn only_suspend_and_resume_leave_power_management_alone() {
    for t in ALL {
        let expected = match t {
            Transition::Suspend | Transition::Resume => PowerMode::NoPowerManagement,
            _ => PowerMode::Normal,
        };
        assert_eq!(t.power_mode(), expected);
    }
}
