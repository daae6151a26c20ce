//! The adapter as the bus layer sees it: which transitions it may take in
//! which state, what state each leaves it in, and what an interrupt from the
//! adapter asks for.

use vstd::prelude::*;
use crate::link::LinkState;
use crate::transport::{Error, PowerMode};

verus! {

/// A transition of the adapter.
#[derive(Clone, Copy, Debug, PartialEq, Eq, Structural)]
pub enum Transition {
    /// First power-up.
    Bind,
    /// Renegotiation after a link change.
    LinkReset,
    /// Full reset, for recovery.
    Reset,
    /// Receive path off.
    Stop,
    /// Into the low-power state.
    Suspend,
    /// Back out of it.
    Resume,
    /// Power-down before the device goes.
    Unbind,
}

/// The path of the USB stack that the register operations of a transition
/// take: suspend and resume run while the device's power state is being
/// changed, and must leave power management alone; every other transition
/// takes the ordinary path.
pub open spec fn mode_of(t: Transition) -> PowerMode {
    match t {
        Transition::Suspend => PowerMode::NoPowerManagement,
        Transition::Resume => PowerMode::NoPowerManagement,
        _ => PowerMode::Normal,
    }
}

impl Transition {
    /// The path that the register operations of this transition take.
    pub fn power_mode(&self) -> (mode: PowerMode)
        ensures
            mode == mode_of(*self),
    {
        match self {
            Transition::Suspend => PowerMode::NoPowerManagement,
            Transition::Resume => PowerMode::NoPowerManagement,
            _ => PowerMode::Normal,
        }
    }
}

/// How far the adapter is set up.
#[derive(Clone, Copy, Debug, PartialEq, Eq, Structural)]
pub enum Lifecycle {
    /// Not bound: nothing is known of the adapter.
    Unbound,
    /// Bound and working.
    Bound,
    /// A register operation failed during a transition. Only a full reset,
    /// or unbinding, is possible.
    Faulted,
}

/// The adapter's state.
#[derive(Clone, Copy, Debug, PartialEq, Eq, Structural)]
pub struct Adapter {
    pub life: Lifecycle,
    /// The state of the link; `Down` while unbound or faulted.
    pub link: LinkState,
    /// Whether the adapter is suspended.
    pub suspended: bool,
}

/// How a transition ended.
#[derive(Clone, Copy, Debug, PartialEq, Eq, Structural)]
pub enum Outcome {
    /// All its steps were done.
    Completed,
    /// A link reset ended with the link in this state. A link that did not
    /// come up in time is reported here, as `Down`.
    Link(LinkState),
    /// A register operation failed.
    Failed(Error),
}

/// The adapter before it is bound.
pub open spec fn unbound() -> Adapter {
    Adapter { life: Lifecycle::Unbound, link: LinkState::Down, suspended: false }
}

/// Whether the adapter may take transition `t` in state `a`: bind only
/// while unbound; unbind whenever bound, faulted or not; a full reset
/// whenever bound, faulted or not; resume only while suspended; everything
/// else only while bound, working and awake.
pub open spec fn permitted(a: Adapter, t: Transition) -> bool {
    match t {
        Transition::Bind => a.life is Unbound,
        Transition::Unbind => !(a.life is Unbound),
        Transition::Reset => !(a.life is Unbound),
        Transition::Resume => a.life is Bound && a.suspended,
        _ => a.life is Bound && !a.suspended,
    }
}

/// The state that transition `t`, taken in state `a`, leaves the adapter in
/// when it ended with `o`.
///
/// Unbind leaves the adapter unbound however it went. Any other transition
/// in which a register operation failed leaves it faulted. Bind, reset and
/// resume leave the link negotiating; a link reset leaves it as reported,
/// and a link that did not come up leaves the adapter bound with the link
/// down, not faulted. Stop and suspend leave the link as it was.
pub open spec fn settled(a: Adapter, t: Transition, o: Outcome) -> Adapter {
    if t is Unbind {
        unbound()
    } else if o is Failed {
        Adapter { life: Lifecycle::Faulted, link: LinkState::Down, suspended: a.suspended }
    } else {
        match t {
            Transition::Bind => Adapter {
                life: Lifecycle::Bound,
                link: LinkState::Negotiating,
                suspended: false,
            },
            Transition::Reset => Adapter {
                life: Lifecycle::Bound,
                link: LinkState::Negotiating,
                suspended: false,
            },
            Transition::Resume => Adapter {
                life: Lifecycle::Bound,
                link: LinkState::Negotiating,
                suspended: false,
            },
            Transition::Suspend => Adapter { suspended: true, ..a },
            Transition::LinkReset => match o {
                Outcome::Link(l) => Adapter { link: l, ..a },
                _ => a,
            },
            _ => a,
        }
    }
}

impl Adapter {
    /// The adapter before it is bound.
    pub fn new() -> (a: Adapter)
        ensures
            a == unbound(),
    {
        Adapter { life: Lifecycle::Unbound, link: LinkState::Down, suspended: false }
    }

    /// Whether the adapter may take transition `t` now.
    pub fn permits(&self, t: Transition) -> (ok: bool)
        ensures
            ok == permitted(*self, t),
    {
        let unbound: bool = match self.life {
            Lifecycle::Unbound => true,
            _ => false,
        };
        let bound: bool = match self.life {
            Lifecycle::Bound => true,
            _ => false,
        };
        match t {
            Transition::Bind => unbound,
            Transition::Unbind => !unbound,
            Transition::Reset => !unbound,
            Transition::Resume => bound && self.suspended,
            _ => bound && !self.suspended,
        }
    }

    /// Takes the end of transition `t` into account. Returns `None`, and
    /// changes nothing, where the adapter could not take `t` in this state.
    pub fn settle(self, t: Transition, o: Outcome) -> (r: Option<Adapter>)
        ensures
            r == if permitted(self, t) {
                Some(settled(self, t, o))
            } else {
                None
            },
    {
        if !self.permits(t) {
            return None;
        }
        let failed: bool = match o {
            Outcome::Failed(_) => true,
            _ => false,
        };
        let fresh = Adapter { life: Lifecycle::Bound, link: LinkState::Negotiating, suspended: false };
        match t {
            Transition::Unbind => Some(Adapter::new()),
            _ => {
                if failed {
                    Some(
                        Adapter {
                            life: Lifecycle::Faulted,
                            link: LinkState::Down,
                            suspended: self.suspended,
                        },
                    )
                } else {
                    match t {
                        Transition::Bind => Some(fresh),
                        Transition::Reset => Some(fresh),
                        Transition::Resume => Some(fresh),
                        Transition::Suspend => Some(
                            Adapter { life: self.life, link: self.link, suspended: true },
                        ),
                        Transition::LinkReset => match o {
                            Outcome::Link(l) => Some(
                                Adapter { life: self.life, link: l, suspended: self.suspended },
                            ),
                            _ => Some(self),
                        },
                        _ => Some(self),
                    }
                }
            },
        }
    }
}

/// What an interrupt from the adapter asks for.
#[derive(Clone, Copy, Debug, PartialEq, Eq, Structural)]
pub enum StatusAction {
    /// Nothing.
    Ignore,
    /// The link came up: schedule a link reset.
    ScheduleLinkReset,
    /// The link went down: report the carrier as lost.
    CarrierOff,
}

/// Length of the interrupt data that the adapter sends.
pub const STATUS_LENGTH: usize = 8;

/// Whether interrupt data reports the link as up: the lowest bit of its
/// third byte.
pub open spec fn reports_link(data: Seq<u8>) -> bool
    recommends
        data.len() >= 3,
{
    data[2] % 2 == 1
}

/// What interrupt data asks for, given whether the stack holds the carrier
/// for present: nothing if the data is short or agrees with the stack; else
/// a link reset if the link came up, and the loss of the carrier if it went
/// down.
pub open spec fn status_action(data: Seq<u8>, carrier_ok: bool) -> StatusAction {
    if data.len() < STATUS_LENGTH || reports_link(data) == carrier_ok {
        StatusAction::Ignore
    } else if reports_link(data) {
        StatusAction::ScheduleLinkReset
    } else {
        StatusAction::CarrierOff
    }
}

/// Reads the interrupt data of the adapter.
pub fn on_status(data: &[u8], carrier_ok: bool) -> (a: StatusAction)
    ensures
        a == status_action(data@, carrier_ok),
{
    if data.len() < STATUS_LENGTH {
        return StatusAction::Ignore;
    }
    let link: bool = data[2] % 2 == 1;
    if link == carrier_ok {
        StatusAction::Ignore
    } else if link {
        StatusAction::ScheduleLinkReset
    } else {
        StatusAction::CarrierOff
    }
}

/// A faulted adapter takes nothing but a full reset and unbinding, and a
/// full reset that goes through brings it back to work.
pub proof fn lemma_fault_needs_reset(a: Adapter, t: Transition)
    requires
        a.life is Faulted,
    ensures
        permitted(a, t) <==> (t is Reset || t is Unbind),
        settled(a, Transition::Reset, Outcome::Completed).life is Bound,
{
}

/// Unbinding is possible in every state but unbound, and leaves the
/// adapter unbound whatever failed before or during it.
pub proof fn lemma_unbind_succeeds(a: Adapter, o: Outcome)
    requires
        !(a.life is Unbound),
    ensures
        permitted(a, Transition::Unbind),
        settled(a, Transition::Unbind, o) == unbound(),
{
}

/// A link reset that timed out leaves the adapter bound with the link down;
/// only a failed register operation leaves it faulted.
pub proof fn lemma_timeout_is_no_fault(a: Adapter, t: Transition, o: Outcome)
    requires
        a.life is Bound,
    ensures
        settled(a, Transition::LinkReset, Outcome::Link(LinkState::Down)).life is Bound,
        settled(a, Transition::LinkReset, Outcome::Link(LinkState::Down)).link == LinkState::Down,
        settled(a, t, o).life is Faulted <==> (o is Failed && !(t is Unbind)),
{
}

} // verus!
