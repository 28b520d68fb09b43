//! The provisioning state machine: on boot, find out whether the device
//! already holds network credentials, and if it does not, run an
//! out-of-band provisioning session until credentials have come in.
//!
//! The machine decides; the caller performs. It asks for one action at a
//! time and is told how the action ended. Only an event that answers the
//! pending action moves the machine; any other is passed over.

use vstd::prelude::*;
use crate::error::SetupError;
use crate::identity::{derive_service_name, service_name, HardwareAddress};

verus! {

/// Whether the device holds network credentials. Read once, at boot.
#[derive(Clone, Copy, Debug, PartialEq, Eq, Hash)]
pub enum ProvisioningStatus {
    Unprovisioned,
    Provisioned,
}

/// How the provisioning exchange is protected.
#[derive(Clone, Copy, Debug, PartialEq, Eq, Hash)]
pub enum SecurityLevel {
    /// No protection.
    Security0,
    /// Key exchange with proof of possession, encrypted afterwards.
    Security1,
    /// Password-authenticated key exchange.
    Security2,
}

/// What a provisioning attempt is to be run with.
#[derive(Debug)]
pub struct ProvisioningConfig {
    pub security: SecurityLevel,
    /// The secret by which a client shows that it has the device at hand.
    pub proof_of_possession: String,
    /// The 128-bit identifier under which the provisioning service is
    /// advertised, least significant byte first.
    pub service_uuid: [u8; 16],
    /// What the device's name starts with.
    pub name_prefix: String,
    /// `Some` to keep the provisioning service up after its first use, with
    /// the delay in milliseconds that the service is told; `None` to let it
    /// stop by itself.
    pub disable_auto_stop: Option<u32>,
}

/// A provisioning attempt that is under way.
#[derive(Debug)]
pub struct ProvisioningSession {
    pub security: SecurityLevel,
    pub proof_of_possession: String,
    pub service_uuid: [u8; 16],
    pub service_name: String,
}

/// The content of a [`ProvisioningSession`].
pub struct ProvisioningSessionView {
    pub security: SecurityLevel,
    pub proof_of_possession: Seq<char>,
    pub service_uuid: [u8; 16],
    pub service_name: Seq<char>,
}

impl View for ProvisioningSession {
    type V = ProvisioningSessionView;

    open spec fn view(&self) -> ProvisioningSessionView {
        ProvisioningSessionView {
            security: self.security,
            proof_of_possession: self.proof_of_possession@,
            service_uuid: self.service_uuid,
            service_name: self.service_name@,
        }
    }
}

/// The steps of a provisioning attempt before the wait.
#[derive(Clone, Copy, Debug, PartialEq, Eq, Hash)]
pub enum ProvisioningStep {
    /// The service identifier is being set.
    Identifier,
    /// The service is being told not to stop by itself.
    AutoStop,
    /// The radio is being asked for its hardware address.
    Address,
    /// Advertising under the device's name is being started.
    Advertise(HardwareAddress),
}

/// Where the machine stands.
#[derive(Clone, Copy, Debug, PartialEq, Eq, Hash)]
pub enum ProvisioningState {
    /// The storage partition, the event loop and the radio are being taken
    /// into ownership.
    Init,
    /// The stored provisioning status is being read.
    CheckStatus,
    /// Credentials were there already; nothing was advertised.
    AlreadyProvisioned,
    /// A provisioning attempt is being set up.
    Provisioning(ProvisioningStep),
    /// The caller blocks until the session reports that credentials have
    /// come in.
    Waiting(HardwareAddress),
    /// Credentials have come in and the session is over.
    Done,
    /// Start-up was given up.
    Failed(SetupError),
}

/// What the caller reports back.
#[derive(Clone, Copy, Debug, PartialEq, Eq, Hash)]
pub enum ProvisioningEvent {
    /// The pending action succeeded.
    Completed,
    /// The pending action failed.
    Failed,
    /// The stored status was read.
    Status(ProvisioningStatus),
    /// The radio reported its hardware address.
    Address(HardwareAddress),
    /// The session reported that credentials were received and accepted.
    CredentialsReceived,
}

/// What the caller is to do next.
#[derive(Clone, Copy, Debug, PartialEq, Eq, Hash)]
pub enum ProvisioningAction {
    AcquireResources,
    QueryStatus,
    SetServiceIdentifier([u8; 16]),
    DisableAutoStop { timeout_ms: u32 },
    QueryHardwareAddress,
    /// Start advertising the session that [`Provisioner::session`] gives.
    StartAdvertising,
    /// Block until credentials have come in.
    AwaitCredentials,
    /// Go on to bring up the network with the stored credentials.
    BringUpNetwork,
    /// Give up with this error.
    Abort(SetupError),
}

/// Whether nothing moves the state any more.
pub open spec fn provisioning_settled(state: ProvisioningState) -> bool {
    state is AlreadyProvisioned || state is Done || state is Failed
}

/// Whether the machine has come to the point where the caller goes on to
/// bring up the network: these are the states whose action is
/// [`ProvisioningAction::BringUpNetwork`].
pub open spec fn ready_for_network(state: ProvisioningState) -> bool {
    state is AlreadyProvisioned || state is Done
}

/// Whether a provisioning attempt is under way in `state`.
pub open spec fn attempt_under_way(state: ProvisioningState) -> bool {
    state is Provisioning || state is Waiting
}

/// The state after `event` has been reported in `state`. `keep_service`
/// says whether the service is to be told not to stop by itself.
pub open spec fn provisioning_next(
    keep_service: bool,
    state: ProvisioningState,
    event: ProvisioningEvent,
) -> ProvisioningState {
    match (state, event) {
        (ProvisioningState::Init, ProvisioningEvent::Completed) => ProvisioningState::CheckStatus,
        (ProvisioningState::Init, ProvisioningEvent::Failed) => ProvisioningState::Failed(
            SetupError::ResourceAcquisition,
        ),
        (
            ProvisioningState::CheckStatus,
            ProvisioningEvent::Status(ProvisioningStatus::Provisioned),
        ) => ProvisioningState::AlreadyProvisioned,
        (
            ProvisioningState::CheckStatus,
            ProvisioningEvent::Status(ProvisioningStatus::Unprovisioned),
        ) => ProvisioningState::Provisioning(ProvisioningStep::Identifier),
        (ProvisioningState::CheckStatus, ProvisioningEvent::Failed) => ProvisioningState::Failed(
            SetupError::ProvisioningConfig,
        ),
        (
            ProvisioningState::Provisioning(ProvisioningStep::Identifier),
            ProvisioningEvent::Completed,
        ) => if keep_service {
            ProvisioningState::Provisioning(ProvisioningStep::AutoStop)
        } else {
            ProvisioningState::Provisioning(ProvisioningStep::Address)
        },
        (
            ProvisioningState::Provisioning(ProvisioningStep::AutoStop),
            ProvisioningEvent::Completed,
        ) => ProvisioningState::Provisioning(ProvisioningStep::Address),
        (
            ProvisioningState::Provisioning(ProvisioningStep::Address),
            ProvisioningEvent::Address(addr),
        ) => ProvisioningState::Provisioning(ProvisioningStep::Advertise(addr)),
        (
            ProvisioningState::Provisioning(ProvisioningStep::Address),
            ProvisioningEvent::Failed,
        ) => ProvisioningState::Failed(SetupError::HardwareQuery),
        (
            ProvisioningState::Provisioning(ProvisioningStep::Advertise(addr)),
            ProvisioningEvent::Completed,
        ) => ProvisioningState::Waiting(addr),
        (ProvisioningState::Provisioning(_), ProvisioningEvent::Failed) => {
            ProvisioningState::Failed(SetupError::ProvisioningConfig)
        },
        (
            ProvisioningState::Waiting(_),
            ProvisioningEvent::CredentialsReceived,
        ) => ProvisioningState::Done,
        _ => state,
    }
}

/// The action that `state` waits for, with the identifier and the delay
/// that the configuration gives.
pub open spec fn provisioning_action(
    service_uuid: [u8; 16],
    disable_auto_stop: Option<u32>,
    state: ProvisioningState,
) -> ProvisioningAction {
    match state {
        ProvisioningState::Init => ProvisioningAction::AcquireResources,
        ProvisioningState::CheckStatus => ProvisioningAction::QueryStatus,
        ProvisioningState::AlreadyProvisioned => ProvisioningAction::BringUpNetwork,
        ProvisioningState::Provisioning(ProvisioningStep::Identifier) => {
            ProvisioningAction::SetServiceIdentifier(service_uuid)
        },
        ProvisioningState::Provisioning(ProvisioningStep::AutoStop) => {
            ProvisioningAction::DisableAutoStop {
                timeout_ms: match disable_auto_stop {
                    Some(timeout_ms) => timeout_ms,
                    None => 0,
                },
            }
        },
        ProvisioningState::Provisioning(ProvisioningStep::Address) => {
            ProvisioningAction::QueryHardwareAddress
        },
        ProvisioningState::Provisioning(ProvisioningStep::Advertise(_)) => {
            ProvisioningAction::StartAdvertising
        },
        ProvisioningState::Waiting(_) => ProvisioningAction::AwaitCredentials,
        ProvisioningState::Done => ProvisioningAction::BringUpNetwork,
        ProvisioningState::Failed(e) => ProvisioningAction::Abort(e),
    }
}

/// The hardware address that the session of `state` is named after, where
/// there is a session: from the moment the address is known until
/// credentials have come in.
pub open spec fn session_address(state: ProvisioningState) -> Option<HardwareAddress> {
    match state {
        ProvisioningState::Provisioning(ProvisioningStep::Advertise(addr)) => Some(addr),
        ProvisioningState::Waiting(addr) => Some(addr),
        _ => None,
    }
}

/// Whether every report of the stored status in `events` says `status`.
pub open spec fn status_reads_as(
    events: Seq<ProvisioningEvent>,
    status: ProvisioningStatus,
) -> bool {
    forall|i: int|
        0 <= i < events.len() ==> (#[trigger] events[i] matches ProvisioningEvent::Status(read)
            ==> read == status)
}

/// The state that a run from boot over `events` ends in.
pub open spec fn provisioning_from_boot(
    keep_service: bool,
    events: Seq<ProvisioningEvent>,
) -> ProvisioningState {
    provisioning_run(keep_service, ProvisioningState::Init, events)
}

/// The state after the events of `events` have been reported one after the
/// other, starting in `state`.
pub open spec fn provisioning_run(
    keep_service: bool,
    state: ProvisioningState,
    events: Seq<ProvisioningEvent>,
) -> ProvisioningState
    decreases events.len(),
{
    if events.len() == 0 {
        state
    } else {
        provisioning_next(
            keep_service,
            provisioning_run(keep_service, state, events.drop_last()),
            events.last(),
        )
    }
}

impl ProvisioningStatus {
    /// The status that the provisioning service's flag stands for.
    pub fn from_flag(provisioned: bool) -> (status: ProvisioningStatus)
        ensures
            status == if provisioned {
                ProvisioningStatus::Provisioned
            } else {
                ProvisioningStatus::Unprovisioned
            },
    {
        if provisioned {
            ProvisioningStatus::Provisioned
        } else {
            ProvisioningStatus::Unprovisioned
        }
    }
}

impl ProvisioningState {
    /// Whether nothing moves this state any more.
    pub fn is_settled(self) -> (settled: bool)
        ensures
            settled == provisioning_settled(self),
    {
        match self {
            ProvisioningState::AlreadyProvisioned
            | ProvisioningState::Done
            | ProvisioningState::Failed(_) => true,
            _ => false,
        }
    }
}

/// The state after `event` has been reported in `state`.
pub fn advance_provisioning(
    keep_service: bool,
    state: ProvisioningState,
    event: ProvisioningEvent,
) -> (next: ProvisioningState)
    ensures
        next == provisioning_next(keep_service, state, event),
{
    match state {
        ProvisioningState::Init => match event {
            ProvisioningEvent::Completed => ProvisioningState::CheckStatus,
            ProvisioningEvent::Failed => ProvisioningState::Failed(SetupError::ResourceAcquisition),
            _ => state,
        },
        ProvisioningState::CheckStatus => match event {
            ProvisioningEvent::Status(ProvisioningStatus::Provisioned) => {
                ProvisioningState::AlreadyProvisioned
            },
            ProvisioningEvent::Status(ProvisioningStatus::Unprovisioned) => {
                ProvisioningState::Provisioning(ProvisioningStep::Identifier)
            },
            ProvisioningEvent::Failed => ProvisioningState::Failed(SetupError::ProvisioningConfig),
            _ => state,
        },
        ProvisioningState::Provisioning(step) => match event {
            ProvisioningEvent::Completed => match step {
                ProvisioningStep::Identifier => if keep_service {
                    ProvisioningState::Provisioning(ProvisioningStep::AutoStop)
                } else {
                    ProvisioningState::Provisioning(ProvisioningStep::Address)
                },
                ProvisioningStep::AutoStop => ProvisioningState::Provisioning(
                    ProvisioningStep::Address,
                ),
                ProvisioningStep::Address => state,
                ProvisioningStep::Advertise(addr) => ProvisioningState::Waiting(addr),
            },
            ProvisioningEvent::Address(addr) => match step {
                ProvisioningStep::Address => ProvisioningState::Provisioning(
                    ProvisioningStep::Advertise(addr),
                ),
                _ => state,
            },
            ProvisioningEvent::Failed => match step {
                ProvisioningStep::Address => ProvisioningState::Failed(SetupError::HardwareQuery),
                _ => ProvisioningState::Failed(SetupError::ProvisioningConfig),
            },
            _ => state,
        },
        ProvisioningState::Waiting(_) => match event {
            ProvisioningEvent::CredentialsReceived => ProvisioningState::Done,
            _ => state,
        },
        _ => state,
    }
}

/// The provisioning state machine of one boot.
#[derive(Debug)]
pub struct Provisioner {
    config: ProvisioningConfig,
    state: ProvisioningState,
}

impl Provisioner {
    pub closed spec fn spec_config(&self) -> &ProvisioningConfig {
        &self.config
    }

    pub closed spec fn spec_state(&self) -> ProvisioningState {
        self.state
    }

    /// The action that the machine waits for.
    pub open spec fn spec_action(&self) -> ProvisioningAction {
        provisioning_action(
            self.spec_config().service_uuid,
            self.spec_config().disable_auto_stop,
            self.spec_state(),
        )
    }

    /// The machine at boot.
    pub fn new(config: ProvisioningConfig) -> (machine: Provisioner)
        ensures
            *machine.spec_config() == config,
            machine.spec_state() == ProvisioningState::Init,
    {
        Provisioner { config, state: ProvisioningState::Init }
    }

    #[verifier::when_used_as_spec(spec_config)]
    pub fn config(&self) -> (config: &ProvisioningConfig)
        ensures
            config == self.spec_config(),
    {
        &self.config
    }

    #[verifier::when_used_as_spec(spec_state)]
    pub fn state(&self) -> (state: ProvisioningState)
        ensures
            state == self.spec_state(),
    {
        self.state
    }

    /// The action that the caller is to perform now.
    #[verifier::when_used_as_spec(spec_action)]
    pub fn action(&self) -> (action: ProvisioningAction)
        ensures
            action == self.spec_action(),
    {
        match self.state {
            ProvisioningState::Init => ProvisioningAction::AcquireResources,
            ProvisioningState::CheckStatus => ProvisioningAction::QueryStatus,
            ProvisioningState::AlreadyProvisioned => ProvisioningAction::BringUpNetwork,
            ProvisioningState::Provisioning(step) => match step {
                ProvisioningStep::Identifier => ProvisioningAction::SetServiceIdentifier(
                    self.config.service_uuid,
                ),
                ProvisioningStep::AutoStop => ProvisioningAction::DisableAutoStop {
                    timeout_ms: match self.config.disable_auto_stop {
                        Some(timeout_ms) => timeout_ms,
                        None => 0,
                    },
                },
                ProvisioningStep::Address => ProvisioningAction::QueryHardwareAddress,
                ProvisioningStep::Advertise(_) => ProvisioningAction::StartAdvertising,
            },
            ProvisioningState::Waiting(_) => ProvisioningAction::AwaitCredentials,
            ProvisioningState::Done => ProvisioningAction::BringUpNetwork,
            ProvisioningState::Failed(e) => ProvisioningAction::Abort(e),
        }
    }

    /// Takes in what the caller reports, and says what to do next. The
    /// configuration stays what it was.
    pub fn step(&mut self, event: ProvisioningEvent) -> (action: ProvisioningAction)
        ensures
            final(self).spec_config() == old(self).spec_config(),
            final(self).spec_state() == provisioning_next(
                old(self).spec_config().disable_auto_stop is Some,
                old(self).spec_state(),
                event,
            ),
            action == final(self).spec_action(),
    {
        let keep_service = self.config.disable_auto_stop.is_some();
        self.state = advance_provisioning(keep_service, self.state, event);
        self.action()
    }

    /// The session that is under way: there is one from the moment the
    /// hardware address is known until credentials have come in, and none
    /// before or after, nor ever on a device that was provisioned already.
    /// It carries the configured security level, secret and identifier, and
    /// the name derived from the hardware address.
    pub fn session(&self) -> (session: Option<ProvisioningSession>)
        ensures
            session is Some <==> session_address(self.spec_state()) is Some,
            session matches Some(s) ==> s@ == (ProvisioningSessionView {
                security: self.spec_config().security,
                proof_of_possession: self.spec_config().proof_of_possession@,
                service_uuid: self.spec_config().service_uuid,
                service_name: service_name(
                    self.spec_config().name_prefix@,
                    session_address(self.spec_state())->0,
                ),
            }),
    {
        let addr = match self.state {
            ProvisioningState::Provisioning(ProvisioningStep::Advertise(addr)) => addr,
            ProvisioningState::Waiting(addr) => addr,
            _ => {
                return None;
            },
        };
        Some(
            ProvisioningSession {
                security: self.config.security,
                proof_of_possession: self.config.proof_of_possession.clone(),
                service_uuid: self.config.service_uuid,
                service_name: derive_service_name(&addr, self.config.name_prefix.as_str()),
            },
        )
    }
}

/// One more event: the run over the first `k + 1` events is the run over
/// the first `k`, moved by the event at `k`.
proof fn lemma_run_unfolds(keep_service: bool, events: Seq<ProvisioningEvent>, k: int)
    requires
        0 <= k < events.len(),
    ensures
        provisioning_from_boot(keep_service, events.take(k + 1)) == provisioning_next(
            keep_service,
            provisioning_from_boot(keep_service, events.take(k)),
            events[k],
        ),
{
    assert(events.take(k + 1).drop_last() =~= events.take(k));
    assert(events.take(k + 1).last() == events[k]);
}

/// A settled state stays as it is, whatever is reported.
pub proof fn lemma_settled_stays(
    keep_service: bool,
    state: ProvisioningState,
    events: Seq<ProvisioningEvent>,
)
    requires
        provisioning_settled(state),
    ensures
        provisioning_run(keep_service, state, events) == state,
    decreases events.len(),
{
    if events.len() > 0 {
        lemma_settled_stays(keep_service, state, events.drop_last());
    }
}

/// While the machine waits, nothing but the signal moves it.
pub proof fn lemma_waiting_holds(
    keep_service: bool,
    addr: HardwareAddress,
    event: ProvisioningEvent,
)
    requires
        event != ProvisioningEvent::CredentialsReceived,
    ensures
        provisioning_next(keep_service, ProvisioningState::Waiting(addr), event)
            == ProvisioningState::Waiting(addr),
{
}

/// A device that is provisioned at boot never starts a provisioning
/// session. Let every report of the stored status in `events` say
/// "provisioned". Then after any number `k` of these events, counted from
/// boot, no provisioning attempt is under way, there is no session, and
/// what the machine asks for is neither to advertise nor to wait for
/// credentials, whatever identifier and policy it was configured with.
pub proof fn lemma_provisioned_never_advertises(
    service_uuid: [u8; 16],
    disable_auto_stop: Option<u32>,
    events: Seq<ProvisioningEvent>,
    k: int,
)
    requires
        0 <= k <= events.len(),
        status_reads_as(events, ProvisioningStatus::Provisioned),
    ensures
        ({
            let state = provisioning_from_boot(disable_auto_stop is Some, events.take(k));
            let action = provisioning_action(service_uuid, disable_auto_stop, state);
            &&& !attempt_under_way(state)
            &&& !(state is Done)
            &&& session_address(state) is None
            &&& action != ProvisioningAction::StartAdvertising
            &&& action != ProvisioningAction::AwaitCredentials
        }),
    decreases k,
{
    if k > 0 {
        lemma_provisioned_never_advertises(service_uuid, disable_auto_stop, events, k - 1);
        lemma_run_unfolds(disable_auto_stop is Some, events, k - 1);
        assert(events[k - 1] matches ProvisioningEvent::Status(read) ==> read
            == ProvisioningStatus::Provisioned);
    } else {
        assert(events.take(0) =~= Seq::<ProvisioningEvent>::empty());
    }
}

/// Provisioning is over only after the signal. Let a run from boot end in
/// `Done`. Then at some place `at` of the run credentials were reported
/// while the machine was waiting, the stored status had been read as
/// "unprovisioned" before that, and at no point up to that report was the
/// machine done.
pub proof fn lemma_done_only_after_credentials(
    keep_service: bool,
    events: Seq<ProvisioningEvent>,
) -> (at: int)
    requires
        provisioning_from_boot(keep_service, events) is Done,
    ensures
        0 <= at < events.len(),
        events[at] == ProvisioningEvent::CredentialsReceived,
        provisioning_from_boot(keep_service, events.take(at)) is Waiting,
        forall|k: int|
            0 <= k <= at ==> !(#[trigger] provisioning_from_boot(keep_service, events.take(k))
                is Done),
        exists|j: int|
            0 <= j < at && #[trigger] events[j] == ProvisioningEvent::Status(
                ProvisioningStatus::Unprovisioned,
            ),
    decreases events.len(),
{
    assert(events.take(events.len() as int) =~= events);
    let last = events.len() - 1;
    let shorter = events.drop_last();
    assert(shorter =~= events.take(last));
    if provisioning_from_boot(keep_service, shorter) is Done {
        let at = lemma_done_only_after_credentials(keep_service, shorter);
        assert(shorter.take(at) =~= events.take(at));
        assert forall|k: int| 0 <= k <= at implies !(#[trigger] provisioning_from_boot(
            keep_service,
            events.take(k),
        ) is Done) by {
            assert(shorter.take(k) =~= events.take(k));
        }
        let j = choose|j: int|
            0 <= j < at && #[trigger] shorter[j] == ProvisioningEvent::Status(
                ProvisioningStatus::Unprovisioned,
            );
        assert(events[j] == shorter[j]);
        at
    } else {
        assert forall|k: int| 0 <= k <= last implies !(#[trigger] provisioning_from_boot(
            keep_service,
            events.take(k),
        ) is Done) by {
            if provisioning_from_boot(keep_service, events.take(k)) is Done {
                lemma_done_persists(keep_service, events, k, last);
            }
        }
        lemma_attempt_follows_unprovisioned(keep_service, shorter);
        let j = choose|j: int|
            0 <= j < shorter.len() && #[trigger] shorter[j] == ProvisioningEvent::Status(
                ProvisioningStatus::Unprovisioned,
            );
        assert(events[j] == shorter[j]);
        last
    }
}

/// A device that is unprovisioned at boot goes on to the network only after
/// the signal. Let every report of the stored status in `events` say
/// "unprovisioned", and let the run from boot end with the machine ready
/// for the network. Then the machine is done, and at some place `at` of the
/// run credentials were reported while it was waiting.
pub proof fn lemma_unprovisioned_proceeds_only_after_credentials(
    keep_service: bool,
    events: Seq<ProvisioningEvent>,
) -> (at: int)
    requires
        status_reads_as(events, ProvisioningStatus::Unprovisioned),
        ready_for_network(provisioning_from_boot(keep_service, events)),
    ensures
        provisioning_from_boot(keep_service, events) is Done,
        0 <= at < events.len(),
        events[at] == ProvisioningEvent::CredentialsReceived,
        provisioning_from_boot(keep_service, events.take(at)) is Waiting,
{
    lemma_unprovisioned_never_skips(keep_service, events);
    lemma_done_only_after_credentials(keep_service, events)
}

/// A run from boot in which the stored status is never read as
/// "provisioned" does not end in `AlreadyProvisioned`.
proof fn lemma_unprovisioned_never_skips(keep_service: bool, events: Seq<ProvisioningEvent>)
    requires
        status_reads_as(events, ProvisioningStatus::Unprovisioned),
    ensures
        !(provisioning_from_boot(keep_service, events) is AlreadyProvisioned),
    decreases events.len(),
{
    if events.len() > 0 {
        let shorter = events.drop_last();
        assert(status_reads_as(shorter, ProvisioningStatus::Unprovisioned)) by {
            assert forall|i: int| 0 <= i < shorter.len() implies (#[trigger] shorter[i] matches
                ProvisioningEvent::Status(read) ==> read == ProvisioningStatus::Unprovisioned) by {
                assert(shorter[i] == events[i]);
            }
        }
        lemma_unprovisioned_never_skips(keep_service, shorter);
        assert(events.last() == events[events.len() - 1]);
    }
}

/// Once done, a run stays done.
proof fn lemma_done_persists(keep_service: bool, events: Seq<ProvisioningEvent>, k: int, m: int)
    requires
        0 <= k <= m <= events.len(),
        provisioning_from_boot(keep_service, events.take(k)) is Done,
    ensures
        provisioning_from_boot(keep_service, events.take(m)) is Done,
    decreases m - k,
{
    if k < m {
        lemma_done_persists(keep_service, events, k, m - 1);
        lemma_run_unfolds(keep_service, events, m - 1);
    }
}

/// A run from boot in which a provisioning attempt is under way has read
/// the stored status as "unprovisioned".
proof fn lemma_attempt_follows_unprovisioned(keep_service: bool, events: Seq<ProvisioningEvent>)
    requires
        attempt_under_way(provisioning_from_boot(keep_service, events)),
    ensures
        exists|j: int|
            0 <= j < events.len() && #[trigger] events[j] == ProvisioningEvent::Status(
                ProvisioningStatus::Unprovisioned,
            ),
    decreases events.len(),
{
    if events.len() > 0 {
        let shorter = events.drop_last();
        if attempt_under_way(provisioning_from_boot(keep_service, shorter)) {
            lemma_attempt_follows_unprovisioned(keep_service, shorter);
            let j = choose|j: int|
                0 <= j < shorter.len() && #[trigger] shorter[j] == ProvisioningEvent::Status(
                    ProvisioningStatus::Unprovisioned,
                );
            assert(events[j] == shorter[j]);
        } else {
            let j = events.len() - 1;
            assert(events[j] == ProvisioningEvent::Status(ProvisioningStatus::Unprovisioned));
        }
    }
}

} // verus!
