use solynx::domain_linker::{DomainRegistry, ErrorCode};
use solynx::identity::Identity;

fn program() -> Identity {
    Identity::new([9u8; 32])
}

fn alice() -> Identity {
    Identity::new([1u8; 32])
}

fn bob() -> Identity {
    Identity::new([2u8; 32])
}

fn carol() -> Identity {
    Identity::new([3u8; 32])
}

fn linked(reg: &mut DomainRegistry, name: &str, now: i64) -> Identity {
    reg.link_domain(alice(), name.to_string(), "ar://abc".to_string(), None, now).unwrap().0
}

#[test]
fn example_end_to_end() {
    let mut reg = DomainRegistry::new(program());
    let (addr, ev) = reg
        .link_domain(alice(), "Example.com".to_string(), "ar://abc".to_string(), None, 100)
        .unwrap();
    assert_eq!(ev.domain_name, "example.com");
    assert_eq!(ev.linked_at, 100);
    let d = reg.get(&addr).unwrap();
    assert_eq!(d.domain_name, "example.com");
    assert!(d.is_active);
    assert_eq!(d.description, "");
    assert_eq!(d.arweave_url, "ar://abc");
    assert_eq!(d.owner.bytes, alice().bytes);
    assert_eq!(d.created_at, 100);
    let first = d.updated_at;

    reg.deactivate_domain_link(&alice(), &addr, 110).unwrap();
    let d = reg.get(&addr).unwrap();
    assert!(!d.is_active);
    assert!(d.updated_at >= first);
    let second = d.updated_at;

    reg.reactivate_domain_link(&alice(), &addr, 120).unwrap();
    let d = reg.get(&addr).unwrap();
    assert!(d.is_active);
    assert!(d.updated_at >= second);
    assert_eq!(d.created_at, 100);
}

#[test]
fn case_variants_share_one_address() {
    let mut reg = DomainRegistry::new(program());
    let a = reg.address_of("Example.com").unwrap();
    let b = reg.address_of("example.COM").unwrap();
    assert_eq!(a.bytes, b.bytes);
    let addr = linked(&mut reg, "Example.com", 1);
    assert_eq!(addr.bytes, a.bytes);
    let e = reg
        .link_domain(bob(), "EXAMPLE.com".to_string(), "ar://other".to_string(), None, 2)
        .unwrap_err();
    assert_eq!(e, ErrorCode::AccountInUse);
    assert_eq!(reg.get(&addr).unwrap().owner.bytes, alice().bytes);
}

#[test]
fn distinct_names_get_distinct_addresses() {
    let mut reg = DomainRegistry::new(program());
    let a = linked(&mut reg, "one.org", 1);
    let b = linked(&mut reg, "two.org", 1);
    assert_ne!(a.bytes, b.bytes);
}

#[test]
fn deactivate_twice_succeeds() {
    let mut reg = DomainRegistry::new(program());
    let addr = linked(&mut reg, "site.io", 10);
    let ev = reg.deactivate_domain_link(&alice(), &addr, 20).unwrap();
    assert_eq!(ev.deactivated_at, 20);
    assert!(!reg.get(&addr).unwrap().is_active);
    assert_eq!(reg.get(&addr).unwrap().updated_at, 20);
    let ev = reg.deactivate_domain_link(&alice(), &addr, 30).unwrap();
    assert_eq!(ev.deactivated_at, 30);
    assert!(!reg.get(&addr).unwrap().is_active);
    assert_eq!(reg.get(&addr).unwrap().updated_at, 30);
}

#[test]
fn reactivate_active_link_succeeds() {
    let mut reg = DomainRegistry::new(program());
    let addr = linked(&mut reg, "site.io", 10);
    let ev = reg.reactivate_domain_link(&alice(), &addr, 15).unwrap();
    assert_eq!(ev.reactivated_at, 15);
    assert!(reg.get(&addr).unwrap().is_active);
}

#[test]
fn transfer_moves_authority() {
    let mut reg = DomainRegistry::new(program());
    let addr = linked(&mut reg, "owned.net", 10);
    let ev = reg.transfer_domain_ownership(&alice(), &addr, bob(), 20).unwrap();
    assert_eq!(ev.old_owner.bytes, alice().bytes);
    assert_eq!(ev.new_owner.bytes, bob().bytes);
    assert_eq!(ev.domain_name, "owned.net");
    assert_eq!(reg.get(&addr).unwrap().owner.bytes, bob().bytes);

    let u = reg.update_domain_link(&alice(), &addr, Some("ar://x".to_string()), None, 30);
    assert_eq!(u.unwrap_err(), ErrorCode::Unauthorized);
    assert_eq!(reg.deactivate_domain_link(&alice(), &addr, 30).unwrap_err(), ErrorCode::Unauthorized);
    assert_eq!(reg.reactivate_domain_link(&alice(), &addr, 30).unwrap_err(), ErrorCode::Unauthorized);
    assert_eq!(
        reg.transfer_domain_ownership(&alice(), &addr, carol(), 30).unwrap_err(),
        ErrorCode::Unauthorized
    );
    assert_eq!(reg.get(&addr).unwrap().updated_at, 20);

    assert!(reg.update_domain_link(&bob(), &addr, Some("ar://x".to_string()), None, 40).is_ok());
    assert!(reg.deactivate_domain_link(&bob(), &addr, 41).is_ok());
    assert!(reg.transfer_domain_ownership(&bob(), &addr, carol(), 42).is_ok());
    assert_eq!(reg.get(&addr).unwrap().owner.bytes, carol().bytes);
}

#[test]
fn transfer_to_self_is_allowed() {
    let mut reg = DomainRegistry::new(program());
    let addr = linked(&mut reg, "me.dev", 10);
    assert!(reg.transfer_domain_ownership(&alice(), &addr, alice(), 11).is_ok());
    assert_eq!(reg.get(&addr).unwrap().updated_at, 11);
}

#[test]
fn description_only_update() {
    let mut reg = DomainRegistry::new(program());
    let addr = linked(&mut reg, "notes.xyz", 10);
    let ev = reg.update_domain_link(&alice(), &addr, None, Some("x".to_string()), 25).unwrap();
    assert_eq!(ev.arweave_url, "ar://abc");
    assert_eq!(ev.updated_at, 25);
    let d = reg.get(&addr).unwrap();
    assert_eq!(d.description, "x");
    assert_eq!(d.arweave_url, "ar://abc");
    assert_eq!(d.owner.bytes, alice().bytes);
    assert_eq!(d.updated_at, 25);
    assert!(d.is_active);
}

#[test]
fn inactive_link_remains_mutable() {
    let mut reg = DomainRegistry::new(program());
    let addr = linked(&mut reg, "quiet.io", 10);
    reg.deactivate_domain_link(&alice(), &addr, 11).unwrap();
    reg.update_domain_link(&alice(), &addr, Some("ar://new".to_string()), None, 12).unwrap();
    let d = reg.get(&addr).unwrap();
    assert_eq!(d.arweave_url, "ar://new");
    assert!(!d.is_active);
}

#[test]
fn update_validation_writes_nothing() {
    let mut reg = DomainRegistry::new(program());
    let addr = linked(&mut reg, "strict.io", 10);
    let e = reg
        .update_domain_link(&alice(), &addr, Some("ar://ok".to_string()), Some("d".repeat(501)), 20)
        .unwrap_err();
    assert_eq!(e, ErrorCode::DescriptionTooLong);
    let e = reg.update_domain_link(&alice(), &addr, Some(String::new()), None, 20).unwrap_err();
    assert_eq!(e, ErrorCode::EmptyUrl);
    let e = reg.update_domain_link(&alice(), &addr, Some("u".repeat(201)), None, 20).unwrap_err();
    assert_eq!(e, ErrorCode::UrlTooLong);
    let d = reg.get(&addr).unwrap();
    assert_eq!(d.arweave_url, "ar://abc");
    assert_eq!(d.description, "");
    assert_eq!(d.updated_at, 10);
    assert!(reg.update_domain_link(&alice(), &addr, Some("u".repeat(200)), Some("d".repeat(500)), 21).is_ok());
    assert!(reg.update_domain_link(&alice(), &addr, None, Some(String::new()), 22).is_ok());
    assert_eq!(reg.get(&addr).unwrap().description, "");
}

#[test]
fn operations_on_missing_link_fail() {
    let mut reg = DomainRegistry::new(program());
    assert_eq!(reg.deactivate_domain_link(&alice(), &bob(), 1).unwrap_err(), ErrorCode::AccountNotFound);
    assert_eq!(reg.reactivate_domain_link(&alice(), &bob(), 1).unwrap_err(), ErrorCode::AccountNotFound);
    assert_eq!(
        reg.update_domain_link(&alice(), &bob(), None, None, 1).unwrap_err(),
        ErrorCode::AccountNotFound
    );
    assert_eq!(
        reg.transfer_domain_ownership(&alice(), &bob(), carol(), 1).unwrap_err(),
        ErrorCode::AccountNotFound
    );
}

#[test]
fn link_locator_boundaries() {
    let mut reg = DomainRegistry::new(program());
    assert!(reg.link_domain(alice(), "a.io".to_string(), "u".repeat(200), None, 1).is_ok());
    let e = reg.link_domain(alice(), "b.io".to_string(), "u".repeat(201), None, 1).unwrap_err();
    assert_eq!(e, ErrorCode::UrlTooLong);
    let e = reg.link_domain(alice(), "c.io".to_string(), String::new(), None, 1).unwrap_err();
    assert_eq!(e, ErrorCode::EmptyUrl);
}

#[test]
fn link_validation_errors() {
    let mut reg = DomainRegistry::new(program());
    let url = || "ar://abc".to_string();
    let e = reg.link_domain(alice(), "n".repeat(101), url(), None, 1).unwrap_err();
    assert_eq!(e, ErrorCode::DomainTooLong);
    let e = reg.link_domain(alice(), String::new(), url(), None, 1).unwrap_err();
    assert_eq!(e, ErrorCode::EmptyDomain);
    let e = reg.link_domain(alice(), "bad name".to_string(), url(), None, 1).unwrap_err();
    assert_eq!(e, ErrorCode::InvalidDomainFormat);
    let e = reg.link_domain(alice(), "bad/name".to_string(), url(), None, 1).unwrap_err();
    assert_eq!(e, ErrorCode::InvalidDomainFormat);
    let e = reg.link_domain(alice(), "ok.io".to_string(), url(), Some("d".repeat(501)), 1).unwrap_err();
    assert_eq!(e, ErrorCode::DescriptionTooLong);
    // a too-long name is reported before a too-long locator
    let e = reg.link_domain(alice(), "n".repeat(101), "u".repeat(201), None, 1).unwrap_err();
    assert_eq!(e, ErrorCode::DomainTooLong);
    // a too-long locator is reported before an empty name
    let e = reg.link_domain(alice(), String::new(), "u".repeat(201), None, 1).unwrap_err();
    assert_eq!(e, ErrorCode::UrlTooLong);
    assert!(reg.get(&reg.address_of("ok.io").unwrap()).is_none());
}

#[test]
fn link_accepts_allowed_characters_and_description() {
    let mut reg = DomainRegistry::new(program());
    let (addr, _) = reg
        .link_domain(alice(), "My_Site-2.io".to_string(), "ar://abc".to_string(), Some("d".repeat(500)), 1)
        .unwrap();
    let d = reg.get(&addr).unwrap();
    assert_eq!(d.domain_name, "my_site-2.io");
    assert_eq!(d.description.len(), 500);
    let (addr, _) = reg
        .link_domain(alice(), "Ünï.de".to_string(), "ar://abc".to_string(), None, 1)
        .unwrap();
    assert_eq!(reg.get(&addr).unwrap().domain_name, "ünï.de");
}

#[test]
fn name_longer_than_a_seed_has_no_address() {
    let mut reg = DomainRegistry::new(program());
    let name = "n".repeat(33);
    assert!(reg.address_of(&name).is_none());
    let e = reg.link_domain(alice(), name, "ar://abc".to_string(), None, 1).unwrap_err();
    assert_eq!(e, ErrorCode::NoViableAddress);
    assert!(reg.link_domain(alice(), "n".repeat(32), "ar://abc".to_string(), None, 1).is_ok());
}
