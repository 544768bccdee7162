use redfish_auth::endpoint::service_root::ServiceRoot;
use redfish_auth::endpoint::session_service::{DisabledSessionService, EmptySessionCollection};
use redfish_auth::endpoint::systems::{
    DummySystem, PowerState, ResetOutcome, ResetType, Systems,
};
use redfish_auth::endpoint::versions::Versions;

fn sample_systems() -> Systems {
    Systems::new(
        "/redfish/v1/Systems".to_string(),
        "Computer System Collection".to_string(),
        vec![DummySystem {
            odata_id: "/redfish/v1/Systems/1".to_string(),
            name: "1".to_string(),
            power_state: PowerState::Off,
        }],
    )
}

#[test]
fn service_root_reports_what_was_enabled() {
    let root = ServiceRoot::new("Basic Redfish Service".to_string(), "example-basic".to_string())
        .enable_systems()
        .enable_sessions("/redfish/v1/SessionService/Sessions".to_string());
    let doc = root.get();
    assert_eq!(doc.name, "Basic Redfish Service");
    assert_eq!(doc.id, "example-basic");
    assert_eq!(doc.systems.as_deref(), Some("/redfish/v1/Systems"));
    assert_eq!(doc.session_service.as_deref(), Some("/redfish/v1/SessionService"));
    assert_eq!(doc.sessions.as_deref(), Some("/redfish/v1/SessionService/Sessions"));
}

#[test]
fn bare_service_root_links_nothing() {
    let doc = ServiceRoot::new("Svc".to_string(), "svc".to_string()).get();
    assert!(doc.systems.is_none());
    assert!(doc.session_service.is_none());
    assert!(doc.sessions.is_none());
}

#[test]
fn disabled_session_service_reports_disabled_and_refuses_writes() {
    let svc = DisabledSessionService::new(
        "/redfish/v1/SessionService".to_string(),
        "Stub Session Service".to_string(),
        "/redfish/v1/SessionService/Sessions".to_string(),
    );
    let doc = svc.get();
    assert_eq!(doc.id, "sessions");
    assert!(!doc.service_enabled);
    assert_eq!(doc.sessions, "/redfish/v1/SessionService/Sessions");
    assert_eq!(svc.put().message, "QueryNotSupportedOnResource");
    assert_eq!(svc.patch().message, "QueryNotSupportedOnResource");
}

#[test]
fn empty_session_collection_has_no_members_and_refuses_posts() {
    let coll = EmptySessionCollection::new(
        "/redfish/v1/SessionService/Sessions".to_string(),
        "Session Collection".to_string(),
    );
    assert_eq!(coll.get().members_count, 0);
    let refusal = coll.post();
    assert_eq!(refusal.status, 405);
    assert_eq!(refusal.message, "OperationNotAllowed");
}

#[test]
fn versions_default_names_v1() {
    let versions = Versions::default();
    let entries = versions.entries();
    assert_eq!(entries.len(), 1);
    assert_eq!(entries[0].0, "v1");
    assert_eq!(entries[0].1, "/redfish/v1");
}

#[test]
fn systems_listing_counts_its_members() {
    let systems = sample_systems();
    let doc = systems.get();
    assert_eq!(doc.name, "Computer System Collection");
    assert_eq!(doc.members, vec!["/redfish/v1/Systems/1".to_string()]);
    assert_eq!(doc.members_count, 1);
}

#[test]
fn system_detail_builds_the_full_record() {
    let systems = sample_systems();
    let detail = systems.detail_get("1").expect("system 1 exists");
    assert_eq!(detail.id, "1");
    assert_eq!(detail.odata_id, "/redfish/v1/Systems/1");
    assert_eq!(detail.power_state, PowerState::Off);
    assert_eq!(
        detail.reset_target.as_deref(),
        Some("/redfish/v1/Systems/1/Actions/ComputerSystem.Reset"),
    );
}

#[test]
fn unknown_system_detail_is_404_naming_the_id() {
    let systems = sample_systems();
    match systems.detail_get("2") {
        Err(resp) => {
            assert_eq!(resp.status, 404);
            assert_eq!(resp.message, "ResourceNotFound: 2");
        }
        Ok(_) => panic!("there is no system 2"),
    }
}

#[test]
fn access_borrows_a_system_by_name() {
    let systems = sample_systems();
    assert!(systems.access("1").is_some());
    assert!(systems.access("2").is_none());
}

#[test]
fn reset_turns_a_system_on_or_off() {
    let mut systems = sample_systems();
    assert_eq!(systems.reset("1", Some(ResetType::GracefulRestart)), ResetOutcome::Success);
    assert_eq!(systems.access("1").unwrap().power_state, PowerState::On);
    assert_eq!(systems.reset("1", Some(ResetType::ForceOff)), ResetOutcome::Success);
    assert_eq!(systems.access("1").unwrap().power_state, PowerState::Off);
}

#[test]
fn push_power_button_toggles() {
    let mut systems = sample_systems();
    assert_eq!(systems.reset("1", Some(ResetType::PushPowerButton)), ResetOutcome::Success);
    assert_eq!(systems.access("1").unwrap().power_state, PowerState::On);
    assert_eq!(systems.reset("1", Some(ResetType::PushPowerButton)), ResetOutcome::Success);
    assert_eq!(systems.access("1").unwrap().power_state, PowerState::Off);
}

#[test]
fn push_power_button_while_paused_is_a_value_error() {
    let mut system = DummySystem {
        odata_id: "/redfish/v1/Systems/p".to_string(),
        name: "p".to_string(),
        power_state: PowerState::Paused,
    };
    assert_eq!(system.post(Some(ResetType::PushPowerButton)), ResetOutcome::ValueError);
    assert_eq!(system.power_state, PowerState::Paused);
}

#[test]
fn unsupported_reset_types_do_not_update_the_state() {
    let mut systems = sample_systems();
    assert_eq!(systems.reset("1", Some(ResetType::Nmi)), ResetOutcome::NotUpdated);
    assert_eq!(systems.access("1").unwrap().power_state, PowerState::Off);
    assert_eq!(systems.reset("1", Some(ResetType::Suspend)), ResetOutcome::NotUpdated);
}

#[test]
fn reset_without_a_type_or_target_fails() {
    let mut systems = sample_systems();
    assert_eq!(systems.reset("1", None), ResetOutcome::MissingParameter);
    assert_eq!(
        systems.reset("2", Some(ResetType::On)),
        ResetOutcome::UnknownSystem,
    );
}

#[test]
fn collection_post_is_refused() {
    let systems = sample_systems();
    let refusal = systems.post();
    assert_eq!(refusal.status, 405);
    assert_eq!(refusal.message, "QueryNotSupportedOnResource");
}
