use solynx::deployer::{DeploymentRegistry, ErrorCode};
use solynx::identity::Identity;

fn program() -> Identity {
    Identity::new([7u8; 32])
}

fn alice() -> Identity {
    Identity::new([1u8; 32])
}

fn bob() -> Identity {
    Identity::new([2u8; 32])
}

fn text(n: usize) -> String {
    "a".repeat(n)
}

#[test]
fn create_then_read_returns_inputs() {
    let mut reg = DeploymentRegistry::new(program());
    let (addr, ev) = reg
        .create_deployment(alice(), "github.com/a/b".to_string(), "ar://xyz".to_string(), 1_700_000_000)
        .unwrap();
    assert_eq!(ev.owner.bytes, alice().bytes);
    assert_eq!(ev.github_url, "github.com/a/b");
    assert_eq!(ev.arweave_url, "ar://xyz");
    assert_eq!(ev.deployed_at, 1_700_000_000);
    let d = reg.get(&addr).unwrap();
    assert_eq!(d.owner.bytes, alice().bytes);
    assert_eq!(d.github_url, "github.com/a/b");
    assert_eq!(d.arweave_url, "ar://xyz");
    assert_eq!(d.deployed_at, 1_700_000_000);
    assert_eq!(d.created_at, 1_700_000_000);
    let derived = reg.address_of(&alice(), 1_700_000_000).unwrap();
    assert_eq!(derived.bytes, addr.bytes);
}

#[test]
fn address_depends_on_owner_and_time() {
    let reg = DeploymentRegistry::new(program());
    let a = reg.address_of(&alice(), 10).unwrap();
    let b = reg.address_of(&alice(), 11).unwrap();
    let c = reg.address_of(&bob(), 10).unwrap();
    assert_ne!(a.bytes, b.bytes);
    assert_ne!(a.bytes, c.bytes);
    assert_ne!(a.bytes, alice().bytes);
}

#[test]
fn locator_boundaries_on_create() {
    let mut reg = DeploymentRegistry::new(program());
    assert!(reg.create_deployment(alice(), text(200), text(200), 1).is_ok());
    assert_eq!(reg.create_deployment(alice(), text(201), text(5), 2).unwrap_err(), ErrorCode::UrlTooLong);
    assert_eq!(reg.create_deployment(alice(), text(5), text(201), 2).unwrap_err(), ErrorCode::UrlTooLong);
    assert_eq!(reg.create_deployment(alice(), String::new(), text(5), 2).unwrap_err(), ErrorCode::EmptyUrl);
    assert_eq!(reg.create_deployment(alice(), text(5), String::new(), 2).unwrap_err(), ErrorCode::EmptyUrl);
    // length is checked on both locators before emptiness
    assert_eq!(reg.create_deployment(alice(), String::new(), text(201), 2).unwrap_err(), ErrorCode::UrlTooLong);
}

#[test]
fn locator_length_counts_characters() {
    let mut reg = DeploymentRegistry::new(program());
    let wide = "é".repeat(200);
    assert!(reg.create_deployment(alice(), wide, text(1), 3).is_ok());
}

#[test]
fn second_create_at_same_time_conflicts() {
    let mut reg = DeploymentRegistry::new(program());
    assert!(reg.create_deployment(alice(), text(3), text(3), 5).is_ok());
    assert_eq!(reg.create_deployment(alice(), text(4), text(4), 5).unwrap_err(), ErrorCode::AccountInUse);
    assert!(reg.create_deployment(bob(), text(4), text(4), 5).is_ok());
}

#[test]
fn update_replaces_given_fields_and_stamps_time() {
    let mut reg = DeploymentRegistry::new(program());
    let (addr, _) = reg.create_deployment(alice(), "g1".to_string(), "a1".to_string(), 100).unwrap();
    let ev = reg.update_deployment(&alice(), &addr, Some("g2".to_string()), None, 150).unwrap();
    assert_eq!(ev.github_url, "g2");
    assert_eq!(ev.arweave_url, "a1");
    assert_eq!(ev.updated_at, 150);
    let d = reg.get(&addr).unwrap();
    assert_eq!(d.github_url, "g2");
    assert_eq!(d.arweave_url, "a1");
    assert_eq!(d.deployed_at, 150);
    assert_eq!(d.created_at, 100);
    // a second update still finds the record where it was created
    let ev = reg.update_deployment(&alice(), &addr, None, Some("a3".to_string()), 160).unwrap();
    assert_eq!(ev.arweave_url, "a3");
    assert_eq!(reg.get(&addr).unwrap().deployed_at, 160);
}

#[test]
fn update_without_fields_only_stamps_time() {
    let mut reg = DeploymentRegistry::new(program());
    let (addr, _) = reg.create_deployment(alice(), "g1".to_string(), "a1".to_string(), 100).unwrap();
    reg.update_deployment(&alice(), &addr, None, None, 120).unwrap();
    let d = reg.get(&addr).unwrap();
    assert_eq!(d.github_url, "g1");
    assert_eq!(d.arweave_url, "a1");
    assert_eq!(d.deployed_at, 120);
}

#[test]
fn update_by_other_identity_is_unauthorized() {
    let mut reg = DeploymentRegistry::new(program());
    let (addr, _) = reg.create_deployment(alice(), "g1".to_string(), "a1".to_string(), 100).unwrap();
    let e = reg.update_deployment(&bob(), &addr, Some("g2".to_string()), None, 150).unwrap_err();
    assert_eq!(e, ErrorCode::Unauthorized);
    assert_eq!(reg.get(&addr).unwrap().github_url, "g1");
    assert_eq!(reg.get(&addr).unwrap().deployed_at, 100);
}

#[test]
fn update_of_missing_record_fails() {
    let mut reg = DeploymentRegistry::new(program());
    let e = reg.update_deployment(&alice(), &bob(), None, None, 1).unwrap_err();
    assert_eq!(e, ErrorCode::AccountNotFound);
}

#[test]
fn invalid_update_writes_nothing() {
    let mut reg = DeploymentRegistry::new(program());
    let (addr, _) = reg.create_deployment(alice(), "g1".to_string(), "a1".to_string(), 100).unwrap();
    let e = reg.update_deployment(&alice(), &addr, Some("g2".to_string()), Some(text(201)), 150).unwrap_err();
    assert_eq!(e, ErrorCode::UrlTooLong);
    let e = reg.update_deployment(&alice(), &addr, Some(String::new()), Some("a2".to_string()), 150).unwrap_err();
    assert_eq!(e, ErrorCode::EmptyUrl);
    let d = reg.get(&addr).unwrap();
    assert_eq!(d.github_url, "g1");
    assert_eq!(d.arweave_url, "a1");
    assert_eq!(d.deployed_at, 100);
    assert!(reg.update_deployment(&alice(), &addr, Some(text(200)), None, 160).is_ok());
}
