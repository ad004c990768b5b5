use uniffi_meta::{
    check_contract, check_contract_version, find_mismatches, ChecksumReport, ContractError,
    UNIFFI_CONTRACT_VERSION,
};

fn report(owner: Option<&str>, name: &str, expected: u16, found: u16) -> ChecksumReport {
    ChecksumReport {
        mod_path: "shapes".to_string(),
        owner: owner.map(|o| o.to_string()),
        name: name.to_string(),
        expected,
        found,
    }
}

#[test]
fn contract_version_is_22() {
    assert_eq!(UNIFFI_CONTRACT_VERSION, 22);
}

#[test]
fn same_version_is_accepted() {
    assert_eq!(check_contract_version(22), Ok(()));
    assert_eq!(check_contract_version(UNIFFI_CONTRACT_VERSION), Ok(()));
}

#[test]
fn other_version_is_refused() {
    assert_eq!(
        check_contract_version(23),
        Err(ContractError::VersionMismatch { expected: 22, found: 23 })
    );
    assert_eq!(
        check_contract_version(21),
        Err(ContractError::VersionMismatch { expected: 22, found: 21 })
    );
    assert_eq!(
        check_contract_version(0),
        Err(ContractError::VersionMismatch { expected: 22, found: 0 })
    );
}

#[test]
fn version_mismatch_comes_before_any_checksum() {
    let reports = vec![report(None, "area", 1, 2), report(Some("Circle"), "new", 3, 3)];
    assert_eq!(
        check_contract(23, &reports),
        Err(ContractError::VersionMismatch { expected: 22, found: 23 })
    );
    assert_eq!(check_contract(23, &[]), check_contract(23, &reports));
}

#[test]
fn agreeing_checksums_are_accepted() {
    let reports = vec![report(None, "area", 7, 7), report(Some("Circle"), "new", 0xffff, 0xffff)];
    assert_eq!(check_contract(22, &reports), Ok(()));
    assert_eq!(check_contract(22, &[]), Ok(()));
}

#[test]
fn every_drifted_declaration_is_reported() {
    let reports = vec![
        report(None, "area", 1, 2),
        report(Some("Circle"), "new", 3, 3),
        report(Some("Circle"), "grow", 5, 4),
        report(None, "volume", 0, 0),
        report(Some("Square"), "side", 0, 0xffff),
    ];
    assert_eq!(
        check_contract(22, &reports),
        Err(ContractError::ChecksumMismatch {
            items: vec![
                report(None, "area", 1, 2),
                report(Some("Circle"), "grow", 5, 4),
                report(Some("Square"), "side", 0, 0xffff),
            ],
        })
    );
}

#[test]
fn single_drift_is_reported_with_its_identity() {
    let reports = vec![report(Some("Circle"), "grow", 10, 11)];
    match check_contract(22, &reports) {
        Err(ContractError::ChecksumMismatch { items }) => {
            assert_eq!(items.len(), 1);
            assert_eq!(items[0].mod_path, "shapes");
            assert_eq!(items[0].owner.as_deref(), Some("Circle"));
            assert_eq!(items[0].name, "grow");
            assert_eq!(items[0].expected, 10);
            assert_eq!(items[0].found, 11);
        }
        other => panic!("unexpected outcome: {:?}", other),
    }
}

#[test]
fn mismatches_keep_their_order() {
    let reports = vec![report(None, "b", 1, 0), report(None, "a", 1, 0), report(None, "c", 1, 1)];
    assert_eq!(
        find_mismatches(&reports),
        vec![report(None, "b", 1, 0), report(None, "a", 1, 0)]
    );
    assert_eq!(find_mismatches(&[]), vec![]);
}

#[test]
fn cloned_report_is_equal() {
    let original = report(Some("Circle"), "grow", 10, 11);
    assert_eq!(original.clone(), original);
    let free = report(None, "area", 1, 1);
    assert_eq!(free.clone(), free);
}
