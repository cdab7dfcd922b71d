use wifi_bringup::addressing::AddressingConfig;
use wifi_bringup::addressing::Ipv4Address;
use wifi_bringup::addressing::Ipv4Cidr;
use wifi_bringup::addressing::Ipv6Address;
use wifi_bringup::addressing::Ipv6Cidr;
use wifi_bringup::addressing::StaticConfigV4;
use wifi_bringup::addressing::StaticConfigV6;
use wifi_bringup::arena::Arena;
use wifi_bringup::bringup::Action;
use wifi_bringup::bringup::Bringup;
use wifi_bringup::bringup::Event;
use wifi_bringup::bringup::Phase;
use wifi_bringup::bringup::DEFAULT_STACK_SEED;
use wifi_bringup::bringup::POLL_INTERVAL_MS;
use wifi_bringup::bringup::SIGNAL_SETTLE_MS;
use wifi_bringup::credentials::WifiCredentials;
use wifi_bringup::errors::BringupError;

fn home_creds() -> WifiCredentials {
    WifiCredentials {
        ssid: "home-net".to_owned(),
        key: Some("secret123".to_owned()),
    }
}

fn home_v4() -> StaticConfigV4 {
    StaticConfigV4 {
        address: Ipv4Cidr::new(Ipv4Address::new(192, 168, 1, 6), 24),
        gateway: Some(Ipv4Address::new(192, 168, 1, 1)),
        dns_servers: Vec::new(),
    }
}

fn home_v6() -> StaticConfigV6 {
    StaticConfigV6 {
        address: Ipv6Cidr::new(Ipv6Address::new(0xfd00, 0, 0, 0, 0, 0, 0, 0x0006), 64),
        gateway: Some(Ipv6Address::new(0xfd00, 0, 0, 0, 0, 0, 0, 0x0001)),
        dns_servers: vec![Ipv6Address::new(0xfd00, 0, 0, 0, 0, 0, 0, 0x0001)],
    }
}

/// Plays the embedded layer: performs each pending action against the arena
/// with the scripted outcomes, reports the outcome back, and records every
/// action in order until the machine completes or aborts.
fn drive(
    m: &mut Bringup,
    arena: &mut Arena,
    join_ok: bool,
    spawn_radio_ok: bool,
    spawn_stack_ok: bool,
    inactive_polls: u32,
) -> Vec<Action> {
    let mut actions = Vec::new();
    let mut polls_left = inactive_polls;
    loop {
        let a = m.pending();
        actions.push(a);
        let ev = match a {
            Action::ClaimRadioSlot => Event::ClaimResult(arena.claim_radio()),
            Action::ClaimStackSlots => Event::ClaimResult(arena.claim_stack_pair()),
            Action::SpawnRadioService => Event::SpawnResult(spawn_radio_ok),
            Action::SpawnStackService => Event::SpawnResult(spawn_stack_ok),
            Action::JoinNetwork => Event::JoinResult(join_ok),
            Action::PollConfigActive => {
                if polls_left > 0 {
                    polls_left -= 1;
                    Event::ConfigActive(false)
                } else {
                    Event::ConfigActive(true)
                }
            }
            Action::Complete | Action::Abort(_) => break,
            _ => Event::Proceed,
        };
        m.advance(ev);
    }
    actions
}

fn successful_prefix() -> Vec<Action> {
    vec![
        Action::ClaimRadioSlot,
        Action::BuildRadio,
        Action::SpawnRadioService,
        Action::LoadCalibration,
        Action::SetPowerSave,
        Action::SetIndicator(true),
        Action::Wait(SIGNAL_SETTLE_MS),
        Action::SetIndicator(false),
        Action::JoinNetwork,
        Action::SetIndicator(true),
        Action::Wait(SIGNAL_SETTLE_MS),
        Action::SetIndicator(false),
        Action::ClaimStackSlots,
        Action::BuildStack,
        Action::SpawnStackService,
    ]
}

#[test]
fn scenario_ipv4_bringup_returns_active_stack() {
    let cfg = AddressingConfig { ipv4: Some(home_v4()), ipv6: None };
    let mut m = Bringup::new(home_creds(), cfg).unwrap();
    assert_eq!(m.phase(), Phase::ClaimingRadio);
    assert_eq!(m.ssid(), "home-net");
    assert_eq!(m.key(), &Some("secret123".to_owned()));
    assert_eq!(m.seed(), DEFAULT_STACK_SEED);

    let mut arena = Arena::new();
    let actions = drive(&mut m, &mut arena, true, true, true, 0);
    assert_eq!(m.phase(), Phase::Ready);
    assert_eq!(m.pending(), Action::Complete);
    assert!(m.config().has_ipv4());
    assert!(!m.config().has_ipv6());
    assert_eq!(m.config().ipv4, Some(home_v4()));

    let mut expected = successful_prefix();
    expected.push(Action::PollConfigActive);
    expected.push(Action::Complete);
    assert_eq!(actions, expected);
}

#[test]
fn scenario_open_network_is_rejected() {
    let creds = WifiCredentials { ssid: "home-net".to_owned(), key: None };
    let cfg = AddressingConfig { ipv4: Some(home_v4()), ipv6: None };
    assert_eq!(
        Bringup::new(creds, cfg).err(),
        Some(BringupError::OpenNetworkUnsupported)
    );
}

#[test]
fn scenario_both_families_active() {
    let cfg = AddressingConfig { ipv4: Some(home_v4()), ipv6: Some(home_v6()) };
    let mut m = Bringup::new(home_creds(), cfg).unwrap();
    let mut arena = Arena::new();
    drive(&mut m, &mut arena, true, true, true, 2);
    assert_eq!(m.phase(), Phase::Ready);
    assert!(m.config().has_ipv4());
    assert!(m.config().has_ipv6());
    assert_eq!(m.config().ipv4, Some(home_v4()));
    assert_eq!(m.config().ipv6, Some(home_v6()));
}

#[test]
fn scenario_join_failure_returns_no_handles() {
    let cfg = AddressingConfig { ipv4: Some(home_v4()), ipv6: None };
    let mut m = Bringup::new(home_creds(), cfg).unwrap();
    let mut arena = Arena::new();
    let actions = drive(&mut m, &mut arena, false, true, true, 0);
    assert_eq!(m.phase(), Phase::Failed(BringupError::JoinFailed));
    assert_eq!(m.pending(), Action::Abort(BringupError::JoinFailed));
    assert!(arena.is_radio_claimed());
    assert!(!arena.is_stack_claimed());
    assert!(!arena.is_resources_claimed());
    assert!(!actions.contains(&Action::ClaimStackSlots));

    let mut expected = successful_prefix()[..9].to_vec();
    expected.push(Action::Abort(BringupError::JoinFailed));
    assert_eq!(actions, expected);
}

#[test]
fn missing_addressing_rejected_before_any_claim() {
    let cfg = AddressingConfig { ipv4: None, ipv6: None };
    assert_eq!(
        Bringup::new(home_creds(), cfg).err(),
        Some(BringupError::NoAddressing)
    );

    let mut arena = Arena::new();
    assert!(!arena.is_radio_claimed());
    assert!(!arena.is_stack_claimed());
    assert!(!arena.is_resources_claimed());
    assert!(arena.claim_radio());
    assert!(arena.claim_stack_pair());
}

#[test]
fn empty_ssid_rejected_first() {
    let creds = WifiCredentials { ssid: String::new(), key: None };
    let cfg = AddressingConfig { ipv4: None, ipv6: None };
    assert_eq!(Bringup::new(creds, cfg).err(), Some(BringupError::EmptySsid));
}

#[test]
fn association_bracket_is_exact() {
    let cfg = AddressingConfig { ipv4: Some(home_v4()), ipv6: None };
    let mut m = Bringup::new(home_creds(), cfg).unwrap();
    let mut arena = Arena::new();
    let actions = drive(&mut m, &mut arena, true, true, true, 0);
    assert_eq!(
        &actions[5..12],
        &[
            Action::SetIndicator(true),
            Action::Wait(SIGNAL_SETTLE_MS),
            Action::SetIndicator(false),
            Action::JoinNetwork,
            Action::SetIndicator(true),
            Action::Wait(SIGNAL_SETTLE_MS),
            Action::SetIndicator(false),
        ]
    );
}

#[test]
fn poller_waits_between_inactive_readings() {
    let cfg = AddressingConfig { ipv4: Some(home_v4()), ipv6: None };
    let mut m = Bringup::new(home_creds(), cfg).unwrap();
    let mut arena = Arena::new();
    let actions = drive(&mut m, &mut arena, true, true, true, 3);
    assert_eq!(m.phase(), Phase::Ready);
    let tail = &actions[successful_prefix().len()..];
    assert_eq!(
        tail,
        &[
            Action::PollConfigActive,
            Action::Wait(POLL_INTERVAL_MS),
            Action::PollConfigActive,
            Action::Wait(POLL_INTERVAL_MS),
            Action::PollConfigActive,
            Action::Wait(POLL_INTERVAL_MS),
            Action::PollConfigActive,
            Action::Complete,
        ]
    );
}

#[test]
fn poller_only_returns_after_active_observation() {
    let cfg = AddressingConfig { ipv4: Some(home_v4()), ipv6: None };
    let mut m = Bringup::new(home_creds(), cfg).unwrap();
    let mut arena = Arena::new();
    // Walk to the polling phase by hand, then feed inactive readings: the
    // machine must not reach `Ready` until a true reading arrives.
    loop {
        match m.pending() {
            Action::PollConfigActive => break,
            Action::ClaimRadioSlot => m.advance(Event::ClaimResult(arena.claim_radio())),
            Action::ClaimStackSlots => m.advance(Event::ClaimResult(arena.claim_stack_pair())),
            Action::SpawnRadioService | Action::SpawnStackService => {
                m.advance(Event::SpawnResult(true))
            }
            Action::JoinNetwork => m.advance(Event::JoinResult(true)),
            _ => m.advance(Event::Proceed),
        }
    }
    for _ in 0..5 {
        m.advance(Event::ConfigActive(false));
        assert_ne!(m.phase(), Phase::Ready);
        m.advance(Event::Proceed);
        assert_eq!(m.phase(), Phase::Polling);
    }
    m.advance(Event::ConfigActive(true));
    assert_eq!(m.phase(), Phase::Ready);
}

#[test]
fn radio_slot_already_claimed_aborts() {
    let cfg = AddressingConfig { ipv4: Some(home_v4()), ipv6: None };
    let mut m = Bringup::new(home_creds(), cfg).unwrap();
    let mut arena = Arena::new();
    assert!(arena.claim_radio());
    let actions = drive(&mut m, &mut arena, true, true, true, 0);
    assert_eq!(m.phase(), Phase::Failed(BringupError::RadioSlotClaimed));
    assert_eq!(
        actions,
        vec![Action::ClaimRadioSlot, Action::Abort(BringupError::RadioSlotClaimed)]
    );
}

#[test]
fn stack_slots_already_claimed_abort() {
    let cfg = AddressingConfig { ipv4: Some(home_v4()), ipv6: None };
    let mut m = Bringup::new(home_creds(), cfg).unwrap();
    let mut arena = Arena::new();
    assert!(arena.claim_stack_pair());
    drive(&mut m, &mut arena, true, true, true, 0);
    assert_eq!(m.phase(), Phase::Failed(BringupError::StackSlotsClaimed));
}

#[test]
fn radio_spawn_rejection_is_fatal() {
    let cfg = AddressingConfig { ipv4: Some(home_v4()), ipv6: None };
    let mut m = Bringup::new(home_creds(), cfg).unwrap();
    let mut arena = Arena::new();
    let actions = drive(&mut m, &mut arena, true, false, true, 0);
    assert_eq!(m.phase(), Phase::Failed(BringupError::SpawnRejected));
    assert_eq!(
        actions,
        vec![
            Action::ClaimRadioSlot,
            Action::BuildRadio,
            Action::SpawnRadioService,
            Action::Abort(BringupError::SpawnRejected),
        ]
    );
}

#[test]
fn stack_spawn_rejection_is_fatal() {
    let cfg = AddressingConfig { ipv4: Some(home_v4()), ipv6: None };
    let mut m = Bringup::new(home_creds(), cfg).unwrap();
    let mut arena = Arena::new();
    drive(&mut m, &mut arena, true, true, false, 0);
    assert_eq!(m.phase(), Phase::Failed(BringupError::SpawnRejected));
}

#[test]
fn custom_seed_is_carried() {
    let cfg = AddressingConfig { ipv4: Some(home_v4()), ipv6: None };
    let m = Bringup::with_seed(home_creds(), cfg, 42).unwrap();
    assert_eq!(m.seed(), 42);
}

#[test]
fn terminal_phases_absorb_events() {
    let cfg = AddressingConfig { ipv4: Some(home_v4()), ipv6: None };
    let mut m = Bringup::new(home_creds(), cfg).unwrap();
    let mut arena = Arena::new();
    drive(&mut m, &mut arena, false, true, true, 0);
    assert_eq!(m.phase(), Phase::Failed(BringupError::JoinFailed));
    m.advance(Event::Proceed);
    m.advance(Event::JoinResult(true));
    m.advance(Event::ConfigActive(true));
    assert_eq!(m.phase(), Phase::Failed(BringupError::JoinFailed));
}
