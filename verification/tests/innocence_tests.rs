use innocence_circuits::innocence::{
    evaluate_innocence, shipped_deny_list, InnocenceClaim, SanctionsRegistry,
};

fn address_from_hex(text: &str) -> [u8; 20] {
    let bytes = hex::decode(text).expect("valid address hex");
    let mut address = [0u8; 20];
    address.copy_from_slice(&bytes);
    address
}

#[test]
fn each_shipped_denied_address_is_reported_sanctioned() {
    let registry = shipped_deny_list();
    for text in [
        "8589427373D6D84E98730D7795D8f6f8731FDA16",
        "722122dF12D4e14e13Ac3b6895a86e84145b6967",
        "DD4c48C0B24039969fC16D1cdF626eaB821d3384",
    ] {
        let claim = InnocenceClaim {
            depositor: address_from_hex(text),
            sanctions_root: [0u8; 32],
            timestamp: 1_700_000_000,
        };
        let out = evaluate_innocence(&claim, &registry);
        assert!(!out.is_innocent, "{} must be reported sanctioned", text);
    }
}

#[test]
fn any_other_address_is_reported_innocent() {
    let registry = shipped_deny_list();
    let claim = InnocenceClaim {
        depositor: address_from_hex("5Bd2F329C50860366c0E6D3b4227a422B66AD203"),
        sanctions_root: [0u8; 32],
        timestamp: 1_700_000_000,
    };
    let out = evaluate_innocence(&claim, &registry);
    assert!(out.is_innocent);
}

#[test]
fn the_record_echoes_the_claim() {
    let registry = shipped_deny_list();
    let claim = InnocenceClaim {
        depositor: [0x33u8; 20],
        sanctions_root: [0x44u8; 32],
        timestamp: 77,
    };
    let out = evaluate_innocence(&claim, &registry);
    assert_eq!(out.depositor, claim.depositor);
    assert_eq!(out.sanctions_root, claim.sanctions_root);
    assert_eq!(out.timestamp, 77);
    assert!(out.is_innocent);
}

#[test]
fn an_empty_registry_reports_everyone_innocent() {
    let registry = SanctionsRegistry::new();
    let claim = InnocenceClaim {
        depositor: address_from_hex("8589427373D6D84E98730D7795D8f6f8731FDA16"),
        sanctions_root: [0u8; 32],
        timestamp: 0,
    };
    assert!(evaluate_innocence(&claim, &registry).is_innocent);
}

#[test]
fn an_added_address_is_reported_sanctioned() {
    let mut registry = SanctionsRegistry::new();
    let depositor = [0x99u8; 20];
    registry.add(depositor);
    let claim = InnocenceClaim {
        depositor,
        sanctions_root: [0u8; 32],
        timestamp: 0,
    };
    assert!(!evaluate_innocence(&claim, &registry).is_innocent);
}
