use redfish_auth::auth::{BasicAuthentication, ExampleBasicAuthenticator};
use redfish_auth::certificate;
use redfish_auth::certificate_collection;
use redfish_auth::computer_system;
use redfish_auth::computer_system_collection;
use redfish_auth::privilege::{OperationPrivilegeMapping, Verb};
use redfish_auth::role::Role;

const ALL_VERBS: [Verb; 6] = [Verb::Get, Verb::Head, Verb::Post, Verb::Put, Verb::Patch, Verb::Delete];

#[test]
fn certificate_defaults_require_configure_manager() {
    let table = certificate::DefaultPrivileges::table();
    for verb in ALL_VERBS {
        assert_eq!(table.required(verb), Role::ConfigureManager);
    }
}

#[test]
fn certificate_collection_defaults_require_configure_manager() {
    let table = certificate_collection::DefaultPrivileges::table();
    for verb in ALL_VERBS {
        assert_eq!(table.required(verb), Role::ConfigureManager);
    }
}

#[test]
fn nested_certificate_privileges_require_configure_components() {
    let collection = computer_system::CertificateCollectionPrivileges::table();
    let certificate = computer_system::CertificatePrivileges::table();
    for verb in ALL_VERBS {
        assert_eq!(collection.required(verb), Role::ConfigureComponents);
        assert_eq!(certificate.required(verb), Role::ConfigureComponents);
    }
}

#[test]
fn computer_system_reads_need_login_and_writes_need_configure_components() {
    let table = computer_system::DefaultPrivileges::table();
    assert_eq!(table.required(Verb::Get), Role::Login);
    assert_eq!(table.required(Verb::Head), Role::Login);
    assert_eq!(table.required(Verb::Post), Role::ConfigureComponents);
    assert_eq!(table.required(Verb::Put), Role::ConfigureComponents);
    assert_eq!(table.required(Verb::Patch), Role::ConfigureComponents);
    assert_eq!(table.required(Verb::Delete), Role::ConfigureComponents);
}

#[test]
fn collection_reads_need_login_and_writes_need_configure_components() {
    let table = computer_system_collection::DefaultPrivileges::table();
    assert_eq!(table.required(Verb::Get), Role::Login);
    assert_eq!(table.required(Verb::Post), Role::ConfigureComponents);
}

#[test]
fn example_authenticator_grants_administrator_to_anyone() {
    let user = ExampleBasicAuthenticator
        .authenticate("anyone".to_string(), "anything".to_string())
        .expect("the example authenticator accepts everyone");
    assert_eq!(user.username, "anyone");
    assert_eq!(user.role, Role::Administrator);
}
