use wifi_onboard::admission::{nanos_from_secs, Admission, CooldownState};
use wifi_onboard::error::SetupError;
use wifi_onboard::http::{answer, PAGE_BODY};
use wifi_onboard::ipv4::{Ipv4Address, Subnet};
use wifi_onboard::network::{
    advance_link, AccessPointConfig, AuthMethod, ClientConfig, LinkAction, LinkEvent, LinkPlan,
    LinkState, NetworkConfiguration, NetworkController, SERVICE_INTERVAL_SECS,
};

fn local_access_point() -> AccessPointConfig {
    let subnet = Subnet::new(Ipv4Address::new(192, 168, 6, 1), 24).unwrap();
    AccessPointConfig::new(
        subnet,
        Some(Ipv4Address::new(1, 1, 1, 1)),
        "test123",
        AuthMethod::Wpa2Personal,
        "hello_world_foo_bar_123",
    )
    .unwrap()
}

#[test]
fn access_point_settings_are_kept() {
    let config = local_access_point();
    assert_eq!(config.subnet.gateway(), Ipv4Address::new(192, 168, 6, 1));
    assert_eq!(config.subnet.prefix_len(), 24);
    assert_eq!(config.gateway(), Ipv4Address::new(192, 168, 6, 1));
    assert!(config.address_leasing);
    assert_eq!(config.dns, Some(Ipv4Address::new(1, 1, 1, 1)));
    assert_eq!(config.ssid.as_str(), "test123");
    assert_eq!(config.auth_method, AuthMethod::Wpa2Personal);
    assert_eq!(config.password.as_str(), "hello_world_foo_bar_123");
}

#[test]
fn access_point_settings_without_dns() {
    let subnet = Subnet::new(Ipv4Address::new(10, 0, 0, 1), 8).unwrap();
    let config = AccessPointConfig::new(subnet, None, "open", AuthMethod::Open, "").unwrap();
    assert_eq!(config.dns, None);
    assert_eq!(config.auth_method, AuthMethod::Open);
    assert_eq!(config.password.as_str(), "");
}

#[test]
fn a_network_name_that_is_too_long_is_rejected() {
    let subnet = Subnet::new(Ipv4Address::new(192, 168, 6, 1), 24).unwrap();
    let ssid = "s".repeat(33);
    let result = AccessPointConfig::new(subnet, None, &ssid, AuthMethod::Wpa2Personal, "secret");
    assert!(matches!(result, Err(SetupError::NetworkConfig)));
}

#[test]
fn a_passphrase_that_is_too_long_is_rejected() {
    let subnet = Subnet::new(Ipv4Address::new(192, 168, 6, 1), 24).unwrap();
    let password = "p".repeat(65);
    let result =
        AccessPointConfig::new(subnet, None, "test123", AuthMethod::Wpa2Personal, &password);
    assert!(matches!(result, Err(SetupError::NetworkConfig)));
}

#[test]
fn the_plan_follows_the_configuration() {
    let access_point = NetworkConfiguration::AccessPoint(local_access_point());
    assert_eq!(access_point.plan(), LinkPlan::AccessPoint);
    let client = NetworkConfiguration::Client(ClientConfig { survey: true });
    assert_eq!(client.plan(), LinkPlan::Client { survey: true });
    let quiet = NetworkConfiguration::Client(ClientConfig { survey: false });
    assert_eq!(quiet.plan(), LinkPlan::Client { survey: false });
}

#[test]
fn an_access_point_comes_up_step_by_step() {
    let config = NetworkConfiguration::AccessPoint(local_access_point());
    let mut controller = NetworkController::new(&config);
    assert_eq!(controller.plan(), LinkPlan::AccessPoint);
    assert_eq!(controller.state(), LinkState::Init);
    assert_eq!(controller.action(), LinkAction::AcquireResources);
    let expected = [
        (LinkState::CreatingInterface, LinkAction::CreateInterface),
        (LinkState::SwappingInterface, LinkAction::SwapInterface),
        (LinkState::Configuring, LinkAction::ApplyConfiguration),
        (LinkState::Starting, LinkAction::Start),
        (LinkState::WaitingUntilUp, LinkAction::WaitUntilUp),
        (LinkState::StartingServer, LinkAction::StartServer),
        (LinkState::RegisteringHandlers, LinkAction::RegisterHandlers),
        (LinkState::Serving, LinkAction::Park { secs: 1 }),
    ];
    for (state, action) in expected {
        assert_eq!(controller.step(LinkEvent::Completed), action);
        assert_eq!(controller.state(), state);
        assert_eq!(controller.action(), action);
        assert_eq!(controller.plan(), LinkPlan::AccessPoint);
    }
}

#[test]
fn serving_goes_on_without_end() {
    assert_eq!(SERVICE_INTERVAL_SECS, 1);
    let config = NetworkConfiguration::Client(ClientConfig { survey: false });
    let mut controller = NetworkController::new(&config);
    for _ in 0..3 {
        controller.step(LinkEvent::Completed);
    }
    assert_eq!(controller.state(), LinkState::Serving);
    for event in [LinkEvent::Completed, LinkEvent::Failed, LinkEvent::Completed] {
        assert_eq!(controller.step(event), LinkAction::Park { secs: 1 });
        assert_eq!(controller.state(), LinkState::Serving);
    }
}

#[test]
fn a_client_comes_up_and_surveys() {
    let config = NetworkConfiguration::Client(ClientConfig { survey: true });
    let mut controller = NetworkController::new(&config);
    assert_eq!(controller.action(), LinkAction::AcquireResources);
    assert_eq!(controller.step(LinkEvent::Completed), LinkAction::ApplyConfiguration);
    assert_eq!(controller.step(LinkEvent::Completed), LinkAction::Start);
    assert_eq!(controller.step(LinkEvent::Completed), LinkAction::Survey);
    assert_eq!(controller.state(), LinkState::Surveying);
    assert_eq!(controller.step(LinkEvent::Completed), LinkAction::Survey);
    assert_eq!(controller.step(LinkEvent::Failed), LinkAction::Survey);
}

#[test]
fn resources_that_are_held_already_are_fatal() {
    let config = NetworkConfiguration::AccessPoint(local_access_point());
    let mut controller = NetworkController::new(&config);
    assert_eq!(
        controller.step(LinkEvent::Failed),
        LinkAction::Abort(SetupError::ResourceAcquisition)
    );
    assert_eq!(controller.state(), LinkState::Failed(SetupError::ResourceAcquisition));
}

#[test]
fn a_rejected_configuration_is_fatal_at_every_later_step() {
    for completed in 1..8 {
        let config = NetworkConfiguration::AccessPoint(local_access_point());
        let mut controller = NetworkController::new(&config);
        for _ in 0..completed {
            controller.step(LinkEvent::Completed);
        }
        assert_eq!(
            controller.step(LinkEvent::Failed),
            LinkAction::Abort(SetupError::NetworkConfig)
        );
        assert_eq!(controller.state(), LinkState::Failed(SetupError::NetworkConfig));
    }
}

#[test]
fn after_a_failure_nothing_else_is_tried() {
    let config = NetworkConfiguration::AccessPoint(local_access_point());
    let mut controller = NetworkController::new(&config);
    controller.step(LinkEvent::Completed);
    controller.step(LinkEvent::Completed);
    controller.step(LinkEvent::Failed);
    for event in [LinkEvent::Completed, LinkEvent::Completed, LinkEvent::Failed] {
        assert_eq!(controller.step(event), LinkAction::Abort(SetupError::NetworkConfig));
        assert_eq!(controller.state(), LinkState::Failed(SetupError::NetworkConfig));
        assert_eq!(controller.plan(), LinkPlan::AccessPoint);
    }
}

#[test]
fn advancing_a_state_by_hand() {
    let plan = LinkPlan::Client { survey: false };
    assert_eq!(advance_link(plan, LinkState::Init, LinkEvent::Completed), LinkState::Configuring);
    assert_eq!(
        advance_link(LinkPlan::AccessPoint, LinkState::Init, LinkEvent::Completed),
        LinkState::CreatingInterface
    );
    assert_eq!(advance_link(plan, LinkState::Starting, LinkEvent::Completed), LinkState::Serving);
    assert_eq!(
        advance_link(plan, LinkState::Starting, LinkEvent::Failed),
        LinkState::Failed(SetupError::NetworkConfig)
    );
    assert!(LinkState::Serving.is_settled());
    assert!(LinkState::Surveying.is_settled());
    assert!(LinkState::Failed(SetupError::NetworkConfig).is_settled());
    assert!(!LinkState::Init.is_settled());
    assert!(!LinkState::WaitingUntilUp.is_settled());
}

#[test]
fn access_point_scenario_serves_the_page() {
    let access_point = local_access_point();
    assert_eq!(access_point.subnet.network(), Ipv4Address::new(192, 168, 6, 0));
    assert_eq!(access_point.subnet.prefix_len(), 24);
    assert_eq!(access_point.gateway(), Ipv4Address::new(192, 168, 6, 1));
    let client = Ipv4Address::new(192, 168, 6, 2);
    assert!(access_point.subnet.contains(client));

    let config = NetworkConfiguration::AccessPoint(access_point);
    let mut controller = NetworkController::new(&config);
    while !controller.state().is_settled() {
        controller.step(LinkEvent::Completed);
    }
    assert_eq!(controller.state(), LinkState::Serving);

    let mut cooldown = CooldownState::with_cooldown(nanos_from_secs(5));
    let decision = cooldown.on_request(0);
    assert_eq!(decision, Admission::Forward);
    let response = answer(decision);
    assert_eq!(response.status, 200);
    assert_eq!(response.content_type, Some("text/html; charset=utf-8"));
    assert_eq!(response.body, PAGE_BODY);
    assert!(response.body.contains("<h1>Hello World</h1>"));
}
