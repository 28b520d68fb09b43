//! The network mode controller: what the one network interface is to be
//! (a client, or a local access point that leases addresses), and the steps
//! that bring it up.
//!
//! The controller decides; the caller performs. It asks for one action at a
//! time and is told how the action ended. A failure anywhere ends the
//! bring-up for good: there is no retry and no falling back to the other
//! mode.

use vstd::prelude::*;
use vstd::string::StringSliceAdditionalSpecFns;
use crate::bounded::{Passphrase, Ssid, PASSPHRASE_CAPACITY, SSID_CAPACITY};
use crate::error::SetupError;
use crate::ipv4::{Ipv4Address, Subnet};

verus! {

/// Seconds between two wake-ups of the idle main thread once the device
/// serves.
pub const SERVICE_INTERVAL_SECS: u64 = 1;

/// How clients prove themselves to an access point.
#[derive(Clone, Copy, Debug, PartialEq, Eq, Hash)]
pub enum AuthMethod {
    /// No proof is asked for.
    Open,
    Wep,
    Wpa,
    Wpa2Personal,
    WpaWpa2Personal,
    Wpa2Enterprise,
    Wpa3Personal,
    Wpa2Wpa3Personal,
    WapiPersonal,
}

/// The settings of a client interface.
#[derive(Clone, Copy, Debug, PartialEq, Eq, Hash)]
pub struct ClientConfig {
    /// Whether the device goes on to survey the networks in range once the
    /// interface has started.
    pub survey: bool,
}

/// The settings of a local access point.
#[derive(Debug)]
pub struct AccessPointConfig {
    /// The gateway and the prefix of the local subnet.
    pub subnet: Subnet,
    /// Whether addresses are leased to the clients that attach.
    pub address_leasing: bool,
    /// Where name lookups of the clients are sent.
    pub dns: Option<Ipv4Address>,
    pub ssid: Ssid,
    pub auth_method: AuthMethod,
    pub password: Passphrase,
}

/// What the interface is to be.
#[derive(Debug)]
pub enum NetworkConfiguration {
    Client(ClientConfig),
    AccessPoint(AccessPointConfig),
}

/// The course that a bring-up takes, which the configuration fixes once
/// and for all.
#[derive(Clone, Copy, Debug, PartialEq, Eq, Hash)]
pub enum LinkPlan {
    Client { survey: bool },
    AccessPoint,
}

/// Where a bring-up stands. Each state but the last three waits for one
/// action of the caller to end.
#[derive(Clone, Copy, Debug, PartialEq, Eq, Hash)]
pub enum LinkState {
    /// The event loop and the radio are being taken into ownership.
    Init,
    /// The interface with the local subnet, the address leasing and the DNS
    /// target is being made.
    CreatingInterface,
    /// The radio's interface is being swapped for the one just made.
    SwappingInterface,
    /// The wireless settings are being applied.
    Configuring,
    /// The interface is being started.
    Starting,
    /// The caller blocks until the interface reports that it is up.
    WaitingUntilUp,
    /// The HTTP server is being started.
    StartingServer,
    /// The handlers are being registered, each behind the admission guard.
    RegisteringHandlers,
    /// All is set up; the main thread idles to keep what it owns alive.
    Serving,
    /// The client interface runs; the survey of networks takes over.
    Surveying,
    /// The bring-up was given up.
    Failed(SetupError),
}

/// How an action of the caller ended.
#[derive(Clone, Copy, Debug, PartialEq, Eq, Hash)]
pub enum LinkEvent {
    Completed,
    Failed,
}

/// What the caller is to do next.
#[derive(Clone, Copy, Debug, PartialEq, Eq, Hash)]
pub enum LinkAction {
    AcquireResources,
    CreateInterface,
    SwapInterface,
    ApplyConfiguration,
    Start,
    WaitUntilUp,
    StartServer,
    RegisterHandlers,
    /// Sleep for so many seconds, then report back; nothing else is left to
    /// do.
    Park { secs: u64 },
    /// Run the survey of networks in range.
    Survey,
    /// Give up with this error.
    Abort(SetupError),
}

/// The state that follows when the action of `state` has succeeded.
pub open spec fn link_successor(plan: LinkPlan, state: LinkState) -> LinkState {
    match state {
        LinkState::Init => match plan {
            LinkPlan::AccessPoint => LinkState::CreatingInterface,
            LinkPlan::Client { .. } => LinkState::Configuring,
        },
        LinkState::CreatingInterface => LinkState::SwappingInterface,
        LinkState::SwappingInterface => LinkState::Configuring,
        LinkState::Configuring => LinkState::Starting,
        LinkState::Starting => match plan {
            LinkPlan::AccessPoint => LinkState::WaitingUntilUp,
            LinkPlan::Client { survey } => if survey {
                LinkState::Surveying
            } else {
                LinkState::Serving
            },
        },
        LinkState::WaitingUntilUp => LinkState::StartingServer,
        LinkState::StartingServer => LinkState::RegisteringHandlers,
        LinkState::RegisteringHandlers => LinkState::Serving,
        LinkState::Serving => LinkState::Serving,
        LinkState::Surveying => LinkState::Surveying,
        LinkState::Failed(e) => LinkState::Failed(e),
    }
}

/// The error that a failure in `state` amounts to: the resources could not
/// be had, or, anywhere after that, the configuration was not taken.
pub open spec fn link_failure(state: LinkState) -> SetupError {
    match state {
        LinkState::Init => SetupError::ResourceAcquisition,
        LinkState::Failed(e) => e,
        _ => SetupError::NetworkConfig,
    }
}

/// Whether nothing moves the state any more.
pub open spec fn link_settled(state: LinkState) -> bool {
    state is Serving || state is Surveying || state is Failed
}

/// The state after `event` has been reported in `state`.
pub open spec fn link_next(plan: LinkPlan, state: LinkState, event: LinkEvent) -> LinkState {
    if link_settled(state) {
        state
    } else {
        match event {
            LinkEvent::Completed => link_successor(plan, state),
            LinkEvent::Failed => LinkState::Failed(link_failure(state)),
        }
    }
}

/// The action that `state` waits for.
pub open spec fn link_action(state: LinkState) -> LinkAction {
    match state {
        LinkState::Init => LinkAction::AcquireResources,
        LinkState::CreatingInterface => LinkAction::CreateInterface,
        LinkState::SwappingInterface => LinkAction::SwapInterface,
        LinkState::Configuring => LinkAction::ApplyConfiguration,
        LinkState::Starting => LinkAction::Start,
        LinkState::WaitingUntilUp => LinkAction::WaitUntilUp,
        LinkState::StartingServer => LinkAction::StartServer,
        LinkState::RegisteringHandlers => LinkAction::RegisterHandlers,
        LinkState::Serving => LinkAction::Park { secs: SERVICE_INTERVAL_SECS },
        LinkState::Surveying => LinkAction::Survey,
        LinkState::Failed(e) => LinkAction::Abort(e),
    }
}

/// The state after the events of `events` have been reported one after the
/// other, starting in `state`.
pub open spec fn link_run(plan: LinkPlan, state: LinkState, events: Seq<LinkEvent>) -> LinkState
    decreases events.len(),
{
    if events.len() == 0 {
        state
    } else {
        link_next(plan, link_run(plan, state, events.drop_last()), events.last())
    }
}

impl AccessPointConfig {
    /// The settings of an access point on `subnet` that leases addresses to
    /// its clients. A network name of more than 32 bytes or a passphrase of
    /// more than 64 is rejected.
    pub fn new(
        subnet: Subnet,
        dns: Option<Ipv4Address>,
        ssid: &str,
        auth_method: AuthMethod,
        password: &str,
    ) -> (result: Result<AccessPointConfig, SetupError>)
        ensures
            result is Ok <==> ssid.spec_bytes().len() <= SSID_CAPACITY
                && password.spec_bytes().len() <= PASSPHRASE_CAPACITY,
            result matches Ok(config) ==> {
                &&& config.subnet == subnet
                &&& config.address_leasing
                &&& config.dns == dns
                &&& config.ssid@ == ssid@
                &&& config.auth_method == auth_method
                &&& config.password@ == password@
            },
            result matches Err(e) ==> e == SetupError::NetworkConfig,
    {
        let ssid = match Ssid::new(ssid) {
            Ok(ssid) => ssid,
            Err(e) => {
                return Err(e);
            },
        };
        let password = match Passphrase::new(password) {
            Ok(password) => password,
            Err(e) => {
                return Err(e);
            },
        };
        Ok(AccessPointConfig { subnet, address_leasing: true, dns, ssid, auth_method, password })
    }

    /// The address of the gateway, which is the access point itself.
    pub fn gateway(&self) -> (addr: Ipv4Address)
        ensures
            addr == self.subnet.spec_gateway(),
    {
        self.subnet.gateway()
    }
}

impl NetworkConfiguration {
    pub open spec fn spec_plan(&self) -> LinkPlan {
        match self {
            NetworkConfiguration::Client(client) => LinkPlan::Client { survey: client.survey },
            NetworkConfiguration::AccessPoint(_) => LinkPlan::AccessPoint,
        }
    }

    /// The course that bringing up this configuration takes.
    #[verifier::when_used_as_spec(spec_plan)]
    pub fn plan(&self) -> (plan: LinkPlan)
        ensures
            plan == self.spec_plan(),
    {
        match self {
            NetworkConfiguration::Client(client) => LinkPlan::Client { survey: client.survey },
            NetworkConfiguration::AccessPoint(_) => LinkPlan::AccessPoint,
        }
    }
}

impl LinkState {
    /// The action that this state waits for.
    pub fn action(self) -> (action: LinkAction)
        ensures
            action == link_action(self),
    {
        match self {
            LinkState::Init => LinkAction::AcquireResources,
            LinkState::CreatingInterface => LinkAction::CreateInterface,
            LinkState::SwappingInterface => LinkAction::SwapInterface,
            LinkState::Configuring => LinkAction::ApplyConfiguration,
            LinkState::Starting => LinkAction::Start,
            LinkState::WaitingUntilUp => LinkAction::WaitUntilUp,
            LinkState::StartingServer => LinkAction::StartServer,
            LinkState::RegisteringHandlers => LinkAction::RegisterHandlers,
            LinkState::Serving => LinkAction::Park { secs: SERVICE_INTERVAL_SECS },
            LinkState::Surveying => LinkAction::Survey,
            LinkState::Failed(e) => LinkAction::Abort(e),
        }
    }

    /// Whether nothing moves this state any more.
    pub fn is_settled(self) -> (settled: bool)
        ensures
            settled == link_settled(self),
    {
        match self {
            LinkState::Serving | LinkState::Surveying | LinkState::Failed(_) => true,
            _ => false,
        }
    }
}

/// The controller of one bring-up.
#[derive(Debug)]
pub struct NetworkController {
    plan: LinkPlan,
    state: LinkState,
}

impl NetworkController {
    pub closed spec fn spec_plan(&self) -> LinkPlan {
        self.plan
    }

    pub closed spec fn spec_state(&self) -> LinkState {
        self.state
    }

    /// A controller for `config`, before anything has been done.
    pub fn new(config: &NetworkConfiguration) -> (controller: NetworkController)
        ensures
            controller.spec_plan() == config.spec_plan(),
            controller.spec_state() == LinkState::Init,
    {
        NetworkController { plan: config.plan(), state: LinkState::Init }
    }

    #[verifier::when_used_as_spec(spec_plan)]
    pub fn plan(&self) -> (plan: LinkPlan)
        ensures
            plan == self.spec_plan(),
    {
        self.plan
    }

    #[verifier::when_used_as_spec(spec_state)]
    pub fn state(&self) -> (state: LinkState)
        ensures
            state == self.spec_state(),
    {
        self.state
    }

    /// The action that the caller is to perform now.
    pub fn action(&self) -> (action: LinkAction)
        ensures
            action == link_action(self.spec_state()),
    {
        self.state.action()
    }

    /// Takes in how the pending action ended, and says what to do next. The
    /// plan stays what it was.
    pub fn step(&mut self, event: LinkEvent) -> (action: LinkAction)
        ensures
            final(self).spec_plan() == old(self).spec_plan(),
            final(self).spec_state() == link_next(
                old(self).spec_plan(),
                old(self).spec_state(),
                event,
            ),
            action == link_action(final(self).spec_state()),
    {
        let next = advance_link(self.plan, self.state, event);
        self.state = next;
        next.action()
    }
}

/// The state after `event` has been reported in `state`.
pub fn advance_link(plan: LinkPlan, state: LinkState, event: LinkEvent) -> (next: LinkState)
    ensures
        next == link_next(plan, state, event),
{
    if state.is_settled() {
        return state;
    }
    match event {
        LinkEvent::Failed => match state {
            LinkState::Init => LinkState::Failed(SetupError::ResourceAcquisition),
            _ => LinkState::Failed(SetupError::NetworkConfig),
        },
        LinkEvent::Completed => match state {
            LinkState::Init => match plan {
                LinkPlan::AccessPoint => LinkState::CreatingInterface,
                LinkPlan::Client { .. } => LinkState::Configuring,
            },
            LinkState::CreatingInterface => LinkState::SwappingInterface,
            LinkState::SwappingInterface => LinkState::Configuring,
            LinkState::Configuring => LinkState::Starting,
            LinkState::Starting => match plan {
                LinkPlan::AccessPoint => LinkState::WaitingUntilUp,
                LinkPlan::Client { survey } => if survey {
                    LinkState::Surveying
                } else {
                    LinkState::Serving
                },
            },
            LinkState::WaitingUntilUp => LinkState::StartingServer,
            LinkState::StartingServer => LinkState::RegisteringHandlers,
            _ => LinkState::Serving,
        },
    }
}

/// A failure is final: whatever is reported after it, the bring-up stays
/// failed with the same error, and no other mode is tried.
pub proof fn lemma_failure_is_final(plan: LinkPlan, error: SetupError, events: Seq<LinkEvent>)
    ensures
        link_run(plan, LinkState::Failed(error), events) == LinkState::Failed(error),
    decreases events.len(),
{
    if events.len() > 0 {
        lemma_failure_is_final(plan, error, events.drop_last());
    }
}

/// The first failure decides: if the bring-up has not settled and the next
/// action fails, the run ends failed whatever follows.
pub proof fn lemma_first_failure_decides(
    plan: LinkPlan,
    state: LinkState,
    events: Seq<LinkEvent>,
)
    requires
        !link_settled(state),
        events.len() > 0,
        events[0] == LinkEvent::Failed,
    ensures
        link_run(plan, state, events) == LinkState::Failed(link_failure(state)),
    decreases events.len(),
{
    if events.len() == 1 {
        assert(events.drop_last() =~= Seq::<LinkEvent>::empty());
    } else {
        lemma_first_failure_decides(plan, state, events.drop_last());
    }
}

/// An access point serves only once every step has succeeded: a run from
/// the start that ends serving has been told of eight completed actions and
/// of no failure before them.
pub proof fn lemma_access_point_serves_after_all_steps(events: Seq<LinkEvent>)
    requires
        link_run(LinkPlan::AccessPoint, LinkState::Init, events) == LinkState::Serving,
    ensures
        events.len() >= 8,
        forall|i: int| 0 <= i < 8 ==> events[i] == LinkEvent::Completed,
{
    lemma_link_progress(events);
}

/// How many steps of an access point's bring-up lie behind `state`.
spec fn link_depth(state: LinkState) -> int {
    match state {
        LinkState::Init => 0,
        LinkState::CreatingInterface => 1,
        LinkState::SwappingInterface => 2,
        LinkState::Configuring => 3,
        LinkState::Starting => 4,
        LinkState::WaitingUntilUp => 5,
        LinkState::StartingServer => 6,
        LinkState::RegisteringHandlers => 7,
        LinkState::Serving => 8,
        LinkState::Surveying => -1,
        LinkState::Failed(_) => -1,
    }
}

/// A run of an access point's bring-up that has not failed stands as deep
/// as it has been told of completed actions, up to the eighth.
proof fn lemma_link_progress(events: Seq<LinkEvent>)
    ensures
        ({
            let state = link_run(LinkPlan::AccessPoint, LinkState::Init, events);
            let depth = link_depth(state);
            &&& !(state is Surveying)
            &&& depth >= 0 ==> {
                &&& depth <= events.len()
                &&& depth < 8 ==> depth == events.len()
                &&& forall|i: int| 0 <= i < depth ==> events[i] == LinkEvent::Completed
            }
        }),
    decreases events.len(),
{
    if events.len() > 0 {
        lemma_link_progress(events.drop_last());
        let before = link_run(LinkPlan::AccessPoint, LinkState::Init, events.drop_last());
        let state = link_run(LinkPlan::AccessPoint, LinkState::Init, events);
        let depth = link_depth(state);
        if depth >= 0 {
            assert forall|i: int| 0 <= i < depth implies events[i] == LinkEvent::Completed by {
                if i < events.len() - 1 {
                    assert(events.drop_last()[i] == events[i]);
                }
            }
        }
    }
}

} // verus!
