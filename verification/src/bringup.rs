//! The bring-up sequencer: a step machine that owns every decision of the
//! bring-up order — radio construction, association signaling, stack
//! construction, readiness polling — while the embedded layer performs each
//! pending hardware action and reports its outcome back as an event.
//!
//! The machine is deterministic: [`step_spec`] gives the next phase for any
//! phase and event, [`action_spec`] the action pending in any phase, and
//! [`run_spec`] / [`trace_spec`] fold whole event sequences so that ordering
//! laws can be stated and proved over every possible run.

use vstd::prelude::*;

use crate::addressing::AddressingConfig;
use crate::addressing::ResolvedConfig;
use crate::addressing::resolve;
use crate::credentials::WifiCredentials;
use crate::errors::BringupError;

verus! {

/// How long the physical indicator is held on each side of a signal
/// bracket, in milliseconds.
pub const SIGNAL_SETTLE_MS: u64 = 1000;

/// How long the readiness poller waits between two reads of the stack's
/// "configuration active" accessor, in milliseconds.
pub const POLL_INTERVAL_MS: u64 = 100;

/// The default seed for the stack's internal protocol randomization. Fixed
/// and non-zero; it seeds heuristics such as initial sequence numbers and is
/// not a secret.
pub const DEFAULT_STACK_SEED: u64 = 0x0123_4567_89ab_cdef;

/// Where the bring-up sequence stands. Each non-terminal phase has exactly
/// one pending action; `Ready` and `Failed` are terminal.
#[derive(Clone, Copy, PartialEq, Eq, Debug)]
pub enum Phase {
    /// Claim the radio driver state slot.
    ClaimingRadio,
    /// Construct the radio driver from the claimed slot and the firmware.
    BuildingRadio,
    /// Hand the radio's runner to the spawn facility.
    SpawningRadio,
    /// Load the locale calibration blob into the control interface.
    LoadingCalibration,
    /// Switch the radio to its power-saving management mode.
    SettingPowerSave,
    /// Assert the indicator to signal the start of the join attempt.
    StartSignalOn,
    /// Hold the indicator for the settle time.
    StartSignalHold,
    /// De-assert the indicator; the start bracket is complete.
    StartSignalOff,
    /// Issue the blocking join request with the credentials.
    Joining,
    /// Assert the indicator to signal the completed join.
    DoneSignalOn,
    /// Hold the indicator for the settle time.
    DoneSignalHold,
    /// De-assert the indicator; the radio is associated.
    DoneSignalOff,
    /// Claim the stack instance and connection-table slots together.
    ClaimingStack,
    /// Construct the stack over the radio's device handle.
    BuildingStack,
    /// Hand the stack's service routine to the spawn facility.
    SpawningStack,
    /// Read the stack's "configuration active" accessor.
    Polling,
    /// Wait one poll interval before reading again.
    PollWaiting,
    /// The configuration is active; the handles may be handed out.
    Ready,
    /// The sequence halted; no handles are handed out.
    Failed(BringupError),
}

/// What the embedded layer must do next.
#[derive(Clone, Copy, PartialEq, Eq, Debug)]
pub enum Action {
    /// Claim the radio driver state slot from the arena.
    ClaimRadioSlot,
    /// Construct the radio driver; this yields the device handle, the
    /// control interface, and the runner.
    BuildRadio,
    /// Offer the radio's runner to the spawn facility.
    SpawnRadioService,
    /// Load the locale calibration blob.
    LoadCalibration,
    /// Set the power-saving management mode.
    SetPowerSave,
    /// Drive the physical indicator to the given level.
    SetIndicator(bool),
    /// Suspend for the given number of milliseconds, yielding to background
    /// activities meanwhile.
    Wait(u64),
    /// Issue the blocking join request with the machine's credentials.
    JoinNetwork,
    /// Claim the stack instance and connection-table slots from the arena.
    ClaimStackSlots,
    /// Construct the stack with the machine's resolved addressing and seed.
    BuildStack,
    /// Offer the stack's service routine to the spawn facility.
    SpawnStackService,
    /// Read the stack's "configuration active" accessor once.
    PollConfigActive,
    /// Bring-up succeeded: hand the control interface and stack out.
    Complete,
    /// Bring-up halted with the given error: hand nothing out.
    Abort(BringupError),
}

/// What the embedded layer reports back about the action it performed.
#[derive(Clone, Copy, PartialEq, Eq, Debug)]
pub enum Event {
    /// The action completed; it had no observable outcome.
    Proceed,
    /// Whether an arena claim succeeded.
    ClaimResult(bool),
    /// Whether the spawn facility accepted the activity.
    SpawnResult(bool),
    /// Whether the join request succeeded.
    JoinResult(bool),
    /// What the "configuration active" accessor read.
    ConfigActive(bool),
}

/// The action pending in each phase. Terminal phases pend `Complete` or
/// `Abort`, which the embedded layer answers by stopping.
pub open spec fn action_spec(p: Phase) -> Action {
    match p {
        Phase::ClaimingRadio => Action::ClaimRadioSlot,
        Phase::BuildingRadio => Action::BuildRadio,
        Phase::SpawningRadio => Action::SpawnRadioService,
        Phase::LoadingCalibration => Action::LoadCalibration,
        Phase::SettingPowerSave => Action::SetPowerSave,
        Phase::StartSignalOn => Action::SetIndicator(true),
        Phase::StartSignalHold => Action::Wait(SIGNAL_SETTLE_MS),
        Phase::StartSignalOff => Action::SetIndicator(false),
        Phase::Joining => Action::JoinNetwork,
        Phase::DoneSignalOn => Action::SetIndicator(true),
        Phase::DoneSignalHold => Action::Wait(SIGNAL_SETTLE_MS),
        Phase::DoneSignalOff => Action::SetIndicator(false),
        Phase::ClaimingStack => Action::ClaimStackSlots,
        Phase::BuildingStack => Action::BuildStack,
        Phase::SpawningStack => Action::SpawnStackService,
        Phase::Polling => Action::PollConfigActive,
        Phase::PollWaiting => Action::Wait(POLL_INTERVAL_MS),
        Phase::Ready => Action::Complete,
        Phase::Failed(e) => Action::Abort(e),
    }
}

/// The event kind each phase expects. Terminal phases expect nothing.
pub open spec fn event_fits(p: Phase, ev: Event) -> bool {
    match p {
        Phase::ClaimingRadio => ev is ClaimResult,
        Phase::BuildingRadio => ev is Proceed,
        Phase::SpawningRadio => ev is SpawnResult,
        Phase::LoadingCalibration => ev is Proceed,
        Phase::SettingPowerSave => ev is Proceed,
        Phase::StartSignalOn => ev is Proceed,
        Phase::StartSignalHold => ev is Proceed,
        Phase::StartSignalOff => ev is Proceed,
        Phase::Joining => ev is JoinResult,
        Phase::DoneSignalOn => ev is Proceed,
        Phase::DoneSignalHold => ev is Proceed,
        Phase::DoneSignalOff => ev is Proceed,
        Phase::ClaimingStack => ev is ClaimResult,
        Phase::BuildingStack => ev is Proceed,
        Phase::SpawningStack => ev is SpawnResult,
        Phase::Polling => ev is ConfigActive,
        Phase::PollWaiting => ev is Proceed,
        Phase::Ready => false,
        Phase::Failed(_) => false,
    }
}

/// The phase after one event. An event a phase does not expect changes
/// nothing; in particular the terminal phases absorb every event.
pub open spec fn step_spec(p: Phase, ev: Event) -> Phase {
    match (p, ev) {
        (Phase::ClaimingRadio, Event::ClaimResult(ok)) => if ok {
            Phase::BuildingRadio
        } else {
            Phase::Failed(BringupError::RadioSlotClaimed)
        },
        (Phase::BuildingRadio, Event::Proceed) => Phase::SpawningRadio,
        (Phase::SpawningRadio, Event::SpawnResult(ok)) => if ok {
            Phase::LoadingCalibration
        } else {
            Phase::Failed(BringupError::SpawnRejected)
        },
        (Phase::LoadingCalibration, Event::Proceed) => Phase::SettingPowerSave,
        (Phase::SettingPowerSave, Event::Proceed) => Phase::StartSignalOn,
        (Phase::StartSignalOn, Event::Proceed) => Phase::StartSignalHold,
        (Phase::StartSignalHold, Event::Proceed) => Phase::StartSignalOff,
        (Phase::StartSignalOff, Event::Proceed) => Phase::Joining,
        (Phase::Joining, Event::JoinResult(ok)) => if ok {
            Phase::DoneSignalOn
        } else {
            Phase::Failed(BringupError::JoinFailed)
        },
        (Phase::DoneSignalOn, Event::Proceed) => Phase::DoneSignalHold,
        (Phase::DoneSignalHold, Event::Proceed) => Phase::DoneSignalOff,
        (Phase::DoneSignalOff, Event::Proceed) => Phase::ClaimingStack,
        (Phase::ClaimingStack, Event::ClaimResult(ok)) => if ok {
            Phase::BuildingStack
        } else {
            Phase::Failed(BringupError::StackSlotsClaimed)
        },
        (Phase::BuildingStack, Event::Proceed) => Phase::SpawningStack,
        (Phase::SpawningStack, Event::SpawnResult(ok)) => if ok {
            Phase::Polling
        } else {
            Phase::Failed(BringupError::SpawnRejected)
        },
        (Phase::Polling, Event::ConfigActive(up)) => if up {
            Phase::Ready
        } else {
            Phase::PollWaiting
        },
        (Phase::PollWaiting, Event::Proceed) => Phase::Polling,
        (_, _) => p,
    }
}

/// The phase after a whole sequence of events.
pub open spec fn run_spec(p: Phase, evs: Seq<Event>) -> Phase
    decreases evs.len(),
{
    if evs.len() == 0 {
        p
    } else {
        run_spec(step_spec(p, evs[0]), evs.drop_first())
    }
}

/// The actions performed over a whole sequence of events: the pending action
/// of each phase visited, in order, one per event consumed.
pub open spec fn trace_spec(p: Phase, evs: Seq<Event>) -> Seq<Action>
    decreases evs.len(),
{
    if evs.len() == 0 {
        Seq::empty()
    } else {
        seq![action_spec(p)] + trace_spec(step_spec(p, evs[0]), evs.drop_first())
    }
}

/// Every event in the sequence is of the kind its phase expects.
pub open spec fn fitting_events(p: Phase, evs: Seq<Event>) -> bool
    decreases evs.len(),
{
    evs.len() == 0 || (event_fits(p, evs[0]) && fitting_events(
        step_spec(p, evs[0]),
        evs.drop_first(),
    ))
}

/// The bring-up sequencer. Holds the validated credentials, the resolved
/// addressing record, the stack seed, and the current phase; `pending` says
/// what the embedded layer must do, `advance` consumes what it observed.
pub struct Bringup {
    phase: Phase,
    creds: WifiCredentials,
    config: ResolvedConfig,
    seed: u64,
}

impl Bringup {
    /// The current phase.
    pub closed spec fn phase_spec(self) -> Phase {
        self.phase
    }

    /// The credentials the join request uses.
    pub closed spec fn creds_spec(self) -> WifiCredentials {
        self.creds
    }

    /// The resolved addressing record handed to stack construction.
    pub closed spec fn config_spec(self) -> ResolvedConfig {
        self.config
    }

    /// The seed handed to stack construction.
    pub closed spec fn seed_spec(self) -> u64 {
        self.seed
    }

    /// The inputs the machine carries are valid and the seed is non-zero.
    pub open spec fn wf(self) -> bool {
        &&& self.creds_spec().valid()
        &&& self.config_spec().wf()
        &&& self.seed_spec() != 0
    }

    /// Validate the inputs and set up a sequencer, with an explicit stack
    /// seed. Nothing is claimed and no hardware is touched here: invalid
    /// credentials or an empty addressing configuration are rejected before
    /// the first action is ever handed out, with the name checked first,
    /// then the key, then the addressing.
    pub fn with_seed(creds: WifiCredentials, config: AddressingConfig, seed: u64) -> (r: Result<
        Bringup,
        BringupError,
    >)
        requires
            config.wf(),
            seed != 0,
        ensures
            r is Ok <==> creds.valid() && config.has_any(),
            r matches Ok(m) ==> {
                &&& m.phase_spec() == Phase::ClaimingRadio
                &&& m.creds_spec() == creds
                &&& m.config_spec().ipv4 == config.ipv4
                &&& m.config_spec().ipv6 == config.ipv6
                &&& m.seed_spec() == seed
                &&& m.wf()
            },
            r matches Err(e) ==> e == (if creds.ssid@.len() == 0 {
                BringupError::EmptySsid
            } else if creds.key is None {
                BringupError::OpenNetworkUnsupported
            } else {
                BringupError::NoAddressing
            }),
    {
        match creds.validate() {
            Ok(()) => (),
            Err(e) => {
                return Err(e);
            },
        }
        let resolved = match resolve(config) {
            Ok(c) => c,
            Err(e) => {
                return Err(e);
            },
        };
        Ok(Bringup { phase: Phase::ClaimingRadio, creds, config: resolved, seed })
    }

    /// Validate the inputs and set up a sequencer with the default seed.
    pub fn new(creds: WifiCredentials, config: AddressingConfig) -> (r: Result<
        Bringup,
        BringupError,
    >)
        requires
            config.wf(),
        ensures
            r is Ok <==> creds.valid() && config.has_any(),
            r matches Ok(m) ==> {
                &&& m.phase_spec() == Phase::ClaimingRadio
                &&& m.creds_spec() == creds
                &&& m.config_spec().ipv4 == config.ipv4
                &&& m.config_spec().ipv6 == config.ipv6
                &&& m.seed_spec() == DEFAULT_STACK_SEED
                &&& m.wf()
            },
            r matches Err(e) ==> e == (if creds.ssid@.len() == 0 {
                BringupError::EmptySsid
            } else if creds.key is None {
                BringupError::OpenNetworkUnsupported
            } else {
                BringupError::NoAddressing
            }),
    {
        Self::with_seed(creds, config, DEFAULT_STACK_SEED)
    }

    /// The action pending in the current phase.
    pub fn pending(&self) -> (a: Action)
        ensures
            a == action_spec(self.phase_spec()),
    {
        match self.phase {
            Phase::ClaimingRadio => Action::ClaimRadioSlot,
            Phase::BuildingRadio => Action::BuildRadio,
            Phase::SpawningRadio => Action::SpawnRadioService,
            Phase::LoadingCalibration => Action::LoadCalibration,
            Phase::SettingPowerSave => Action::SetPowerSave,
            Phase::StartSignalOn => Action::SetIndicator(true),
            Phase::StartSignalHold => Action::Wait(SIGNAL_SETTLE_MS),
            Phase::StartSignalOff => Action::SetIndicator(false),
            Phase::Joining => Action::JoinNetwork,
            Phase::DoneSignalOn => Action::SetIndicator(true),
            Phase::DoneSignalHold => Action::Wait(SIGNAL_SETTLE_MS),
            Phase::DoneSignalOff => Action::SetIndicator(false),
            Phase::ClaimingStack => Action::ClaimStackSlots,
            Phase::BuildingStack => Action::BuildStack,
            Phase::SpawningStack => Action::SpawnStackService,
            Phase::Polling => Action::PollConfigActive,
            Phase::PollWaiting => Action::Wait(POLL_INTERVAL_MS),
            Phase::Ready => Action::Complete,
            Phase::Failed(e) => Action::Abort(e),
        }
    }

    /// Consume the outcome of the pending action and move to the next
    /// phase, exactly as [`step_spec`] says; everything else the machine
    /// carries is left unchanged.
    pub fn advance(&mut self, ev: Event)
        ensures
            final(self).phase_spec() == step_spec(old(self).phase_spec(), ev),
            final(self).creds_spec() == old(self).creds_spec(),
            final(self).config_spec() == old(self).config_spec(),
            final(self).seed_spec() == old(self).seed_spec(),
    {
        let next = match (self.phase, ev) {
            (Phase::ClaimingRadio, Event::ClaimResult(ok)) => if ok {
                Phase::BuildingRadio
            } else {
                Phase::Failed(BringupError::RadioSlotClaimed)
            },
            (Phase::BuildingRadio, Event::Proceed) => Phase::SpawningRadio,
            (Phase::SpawningRadio, Event::SpawnResult(ok)) => if ok {
                Phase::LoadingCalibration
            } else {
                Phase::Failed(BringupError::SpawnRejected)
            },
            (Phase::LoadingCalibration, Event::Proceed) => Phase::SettingPowerSave,
            (Phase::SettingPowerSave, Event::Proceed) => Phase::StartSignalOn,
            (Phase::StartSignalOn, Event::Proceed) => Phase::StartSignalHold,
            (Phase::StartSignalHold, Event::Proceed) => Phase::StartSignalOff,
            (Phase::StartSignalOff, Event::Proceed) => Phase::Joining,
            (Phase::Joining, Event::JoinResult(ok)) => if ok {
                Phase::DoneSignalOn
            } else {
                Phase::Failed(BringupError::JoinFailed)
            },
            (Phase::DoneSignalOn, Event::Proceed) => Phase::DoneSignalHold,
            (Phase::DoneSignalHold, Event::Proceed) => Phase::DoneSignalOff,
            (Phase::DoneSignalOff, Event::Proceed) => Phase::ClaimingStack,
            (Phase::ClaimingStack, Event::ClaimResult(ok)) => if ok {
                Phase::BuildingStack
            } else {
                Phase::Failed(BringupError::StackSlotsClaimed)
            },
            (Phase::BuildingStack, Event::Proceed) => Phase::SpawningStack,
            (Phase::SpawningStack, Event::SpawnResult(ok)) => if ok {
                Phase::Polling
            } else {
                Phase::Failed(BringupError::SpawnRejected)
            },
            (Phase::Polling, Event::ConfigActive(up)) => if up {
                Phase::Ready
            } else {
                Phase::PollWaiting
            },
            (Phase::PollWaiting, Event::Proceed) => Phase::Polling,
            (_, _) => self.phase,
        };
        self.phase = next;
    }

    /// The current phase.
    pub fn phase(&self) -> (p: Phase)
        ensures
            p == self.phase_spec(),
    {
        self.phase
    }

    /// The network name the join request uses.
    pub fn ssid(&self) -> (s: &str)
        ensures
            s@ == self.creds_spec().ssid@,
    {
        self.creds.ssid.as_str()
    }

    /// The pre-shared key the join request uses.
    pub fn key(&self) -> (k: &Option<String>)
        ensures
            *k == self.creds_spec().key,
    {
        &self.creds.key
    }

    /// The resolved addressing record for stack construction.
    pub fn config(&self) -> (c: &ResolvedConfig)
        ensures
            *c == self.config_spec(),
    {
        &self.config
    }

    /// The seed for stack construction.
    pub fn seed(&self) -> (s: u64)
        ensures
            s == self.seed_spec(),
    {
        self.seed
    }
}

} // verus!
