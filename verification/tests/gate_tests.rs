use redfish_auth::auth::AuthenticatedUser;
use redfish_auth::gate::AuthorizationGate;
use redfish_auth::privilege::{PrivilegeTable, Verb};
use redfish_auth::role::{Role, RoleMap};

fn gate_with(map: RoleMap) -> AuthorizationGate {
    AuthorizationGate::new(map, vec!["Basic".to_string()])
}

fn principal(name: &str, role: Role) -> AuthenticatedUser {
    AuthenticatedUser { username: name.to_string(), role }
}

#[test]
fn lower_role_is_rejected_with_403() {
    let gate = gate_with(RoleMap::empty());
    let r = gate.authorize(Some(principal("op", Role::Operator)), Role::Administrator);
    match r {
        Err(resp) => {
            assert_eq!(resp.status, 403);
            assert_eq!(resp.required_privilege, Some(Role::Administrator));
            assert_eq!(resp.message, "Insufficient privilege: Administrator");
        }
        Ok(_) => panic!("an operator must not pass an administrator gate"),
    }
}

#[test]
fn equal_role_passes() {
    let gate = gate_with(RoleMap::empty());
    let r = gate.authorize(Some(principal("admin", Role::Administrator)), Role::Administrator);
    let user = r.expect("an equal role must pass");
    assert_eq!(user.username, "admin");
    assert_eq!(user.role, Role::Administrator);
}

#[test]
fn higher_role_passes() {
    let gate = gate_with(RoleMap::empty());
    let r = gate.authorize(
        Some(principal("cm", Role::ConfigureManager)),
        Role::Administrator,
    );
    assert!(r.is_ok());
}

#[test]
fn missing_principal_is_401_with_challenges() {
    let gate = gate_with(RoleMap::empty());
    let r = gate.authorize(None, Role::Login);
    match r {
        Err(resp) => {
            assert_eq!(resp.status, 401);
            assert_eq!(resp.challenges, vec!["Basic".to_string()]);
        }
        Ok(_) => panic!("no principal must not pass"),
    }
}

#[test]
fn role_map_equivalence_lifts_a_role() {
    let mut map = RoleMap::empty();
    map.grant(Role::Administrator, Role::ConfigureComponents);
    let gate = gate_with(map);
    let r = gate.authorize(
        Some(principal("admin", Role::Administrator)),
        Role::ConfigureComponents,
    );
    assert!(r.is_ok(), "the role map must lift Administrator to ConfigureComponents");
}

#[test]
fn role_order_and_names() {
    assert!(Role::Login.level() < Role::ReadOnly.level());
    assert!(Role::ReadOnly.level() < Role::Operator.level());
    assert!(Role::Operator.level() < Role::Administrator.level());
    assert!(Role::Administrator.level() < Role::ConfigureManager.level());
    assert!(Role::ConfigureManager.level() < Role::ConfigureComponents.level());
    assert_eq!(Role::ConfigureComponents.name(), "ConfigureComponents");
    assert_eq!(Role::Operator.name(), "Operator");
    assert_eq!(Role::most_restrictive(), Role::ConfigureComponents);
    assert!(Role::ConfigureComponents.at_least(Role::Login));
    assert!(!Role::Login.at_least(Role::ReadOnly));
}

#[test]
fn role_names_round_trip() {
    for role in [
        Role::Login,
        Role::ReadOnly,
        Role::Operator,
        Role::Administrator,
        Role::ConfigureManager,
        Role::ConfigureComponents,
    ] {
        assert_eq!(Role::from_name(role.name()), Some(role));
    }
    assert_eq!(Role::from_name("NoSuchRole"), None);
    assert_eq!(Role::from_name(""), None);
}

#[test]
fn privilege_table_defaults_to_most_restrictive() {
    let table = PrivilegeTable::new();
    assert_eq!(table.required(Verb::Get), Role::ConfigureComponents);
    let mut table = PrivilegeTable::new();
    table.set(Verb::Get, Role::Login);
    assert_eq!(table.required(Verb::Get), Role::Login);
    assert_eq!(table.required(Verb::Delete), Role::ConfigureComponents);
}

#[test]
fn privilege_table_first_entry_wins() {
    let mut table = PrivilegeTable::new();
    table.set(Verb::Post, Role::Operator);
    table.set(Verb::Post, Role::Login);
    assert_eq!(table.required(Verb::Post), Role::Operator);
}
