//! The contract version, and the comparison that a consumer makes before it
//! trusts a producer.
//!
//! The version is compared first and on its own. Only when it agrees are the
//! checksums compared, declaration by declaration, and every declaration that
//! disagrees is reported.

use vstd::prelude::*;

verus! {

/// The version of the contract: of the canonical encoding and of the shape of
/// the schema. It changes whenever either changes in a way that alters the
/// checksum of a declaration whose source did not change.
pub const UNIFFI_CONTRACT_VERSION: u32 = 22;

/// The two checksums of one declaration: the one that the consumer expects,
/// and the one that the producer has stored.
#[derive(Debug, PartialEq, Eq)]
pub struct ChecksumReport {
    pub mod_path: String,
    /// The type that owns the declaration, if any.
    pub owner: Option<String>,
    pub name: String,
    pub expected: u16,
    pub found: u16,
}

/// The logical content of a [`ChecksumReport`].
pub struct SpecChecksumReport {
    pub mod_path: Seq<char>,
    pub owner: Option<Seq<char>>,
    pub name: Seq<char>,
    pub expected: u16,
    pub found: u16,
}

impl DeepView for ChecksumReport {
    type V = SpecChecksumReport;

    open spec fn deep_view(&self) -> SpecChecksumReport {
        SpecChecksumReport {
            mod_path: self.mod_path.deep_view(),
            owner: self.owner.deep_view(),
            name: self.name.deep_view(),
            expected: self.expected,
            found: self.found,
        }
    }
}

impl Clone for ChecksumReport {
    fn clone(&self) -> (copy: Self)
        ensures
            copy.deep_view() == self.deep_view(),
    {
        let owner = match &self.owner {
            Some(owner) => Some(owner.clone()),
            None => None,
        };
        ChecksumReport {
            mod_path: self.mod_path.clone(),
            owner,
            name: self.name.clone(),
            expected: self.expected,
            found: self.found,
        }
    }
}

/// Whether the two checksums of a report disagree.
pub open spec fn is_mismatch(report: SpecChecksumReport) -> bool {
    report.expected != report.found
}

/// The reports whose checksums disagree, in their order.
pub open spec fn mismatches(reports: Seq<SpecChecksumReport>) -> Seq<SpecChecksumReport> {
    reports.filter(|report: SpecChecksumReport| is_mismatch(report))
}

/// Why a producer cannot be trusted.
#[derive(Clone, Debug, PartialEq, Eq)]
pub enum ContractError {
    /// The producer was built for another version of the contract.
    VersionMismatch { expected: u32, found: u32 },
    /// The versions agree, and these declarations have drifted.
    ChecksumMismatch { items: Vec<ChecksumReport> },
}

/// The logical content of a [`ContractError`].
pub enum SpecContractError {
    VersionMismatch { expected: u32, found: u32 },
    ChecksumMismatch { items: Seq<SpecChecksumReport> },
}

impl DeepView for ContractError {
    type V = SpecContractError;

    open spec fn deep_view(&self) -> SpecContractError {
        match *self {
            ContractError::VersionMismatch { expected, found } => {
                SpecContractError::VersionMismatch { expected, found }
            },
            ContractError::ChecksumMismatch { items } => SpecContractError::ChecksumMismatch {
                items: items.deep_view(),
            },
        }
    }
}

/// What the comparison of a producer's version with this one gives.
pub open spec fn spec_check_contract_version(found: u32) -> Result<(), SpecContractError> {
    if found == UNIFFI_CONTRACT_VERSION {
        Ok(())
    } else {
        Err(SpecContractError::VersionMismatch { expected: UNIFFI_CONTRACT_VERSION, found })
    }
}

/// What the comparison of a producer with a consumer gives: the mismatch of
/// versions if there is one, whatever the reports hold; else the reports that
/// disagree, if there are any.
pub open spec fn spec_check_contract(
    found_version: u32,
    reports: Seq<SpecChecksumReport>,
) -> Result<(), SpecContractError> {
    if found_version != UNIFFI_CONTRACT_VERSION {
        spec_check_contract_version(found_version)
    } else if mismatches(reports).len() == 0 {
        Ok(())
    } else {
        Err(SpecContractError::ChecksumMismatch { items: mismatches(reports) })
    }
}

/// A version mismatch is reported alone: when the versions differ, the
/// comparison gives that one error, whatever the reports hold and however
/// many there are, and never success.
pub proof fn lemma_version_mismatch_is_reported_alone(
    found_version: u32,
    reports: Seq<SpecChecksumReport>,
)
    requires
        found_version != UNIFFI_CONTRACT_VERSION,
    ensures
        spec_check_contract(found_version, reports) == Err::<(), SpecContractError>(
            SpecContractError::VersionMismatch {
                expected: UNIFFI_CONTRACT_VERSION,
                found: found_version,
            },
        ),
        spec_check_contract(found_version, reports) == spec_check_contract(
            found_version,
            Seq::empty(),
        ),
{
}

/// No report is listed as a mismatch exactly when every report agrees.
pub proof fn lemma_no_mismatch_means_all_agree(reports: Seq<SpecChecksumReport>)
    ensures
        mismatches(reports).len() == 0 <==> forall|i: int|
            0 <= i < reports.len() ==> !is_mismatch(#[trigger] reports[i]),
    decreases reports.len(),
{
    reveal(Seq::filter);
    let pred = |report: SpecChecksumReport| is_mismatch(report);
    if reports.len() != 0 {
        let shorter = reports.drop_last();
        lemma_no_mismatch_means_all_agree(shorter);
        if mismatches(reports).len() == 0 {
            assert(!is_mismatch(reports.last()));
            assert(mismatches(shorter).len() == 0);
            assert forall|i: int| 0 <= i < reports.len() implies !is_mismatch(
                #[trigger] reports[i],
            ) by {
                if i < shorter.len() {
                    assert(shorter[i] == reports[i]);
                }
            }
        }
        if forall|i: int| 0 <= i < reports.len() ==> !is_mismatch(#[trigger] reports[i]) {
            assert forall|i: int| 0 <= i < shorter.len() implies !is_mismatch(
                #[trigger] shorter[i],
            ) by {
                assert(shorter[i] == reports[i]);
            }
            assert(!is_mismatch(reports.last()));
        }
    }
}

/// No report of a slice is listed as a mismatch exactly when the two
/// checksums of every report are the same.
pub proof fn lemma_no_drift_means_all_agree(reports: &[ChecksumReport])
    ensures
        mismatches(reports.deep_view()).len() == 0 <==> forall|i: int|
            0 <= i < reports@.len() ==> (#[trigger] reports@[i]).expected == reports@[i].found,
{
    let all = reports.deep_view();
    lemma_no_mismatch_means_all_agree(all);
    if mismatches(all).len() == 0 {
        assert forall|i: int| 0 <= i < reports@.len() implies (#[trigger] reports@[i]).expected
            == reports@[i].found by {
            assert(all[i] == reports@[i].deep_view());
            assert(!is_mismatch(all[i]));
        }
    }
    if forall|i: int|
        0 <= i < reports@.len() ==> (#[trigger] reports@[i]).expected == reports@[i].found {
        assert forall|i: int| 0 <= i < all.len() implies !is_mismatch(#[trigger] all[i]) by {
            assert(all[i] == reports@[i].deep_view());
            assert(reports@[i].expected == reports@[i].found);
        }
    }
}

/// Whether `outcome` is what `model` says it should be.
pub open spec fn outcome_is(
    outcome: Result<(), ContractError>,
    model: Result<(), SpecContractError>,
) -> bool {
    match outcome {
        Ok(()) => model is Ok,
        Err(error) => model == Err::<(), SpecContractError>(error.deep_view()),
    }
}

/// Compares the version that a producer was built for with this one.
pub fn check_contract_version(found: u32) -> (outcome: Result<(), ContractError>)
    ensures
        outcome_is(outcome, spec_check_contract_version(found)),
        outcome is Ok <==> found == UNIFFI_CONTRACT_VERSION,
        found != UNIFFI_CONTRACT_VERSION ==> outcome == Err::<(), ContractError>(
            ContractError::VersionMismatch { expected: UNIFFI_CONTRACT_VERSION, found },
        ),
{
    if found == UNIFFI_CONTRACT_VERSION {
        Ok(())
    } else {
        Err(ContractError::VersionMismatch { expected: UNIFFI_CONTRACT_VERSION, found })
    }
}

/// The reports whose checksums disagree, in their order.
pub fn find_mismatches(reports: &[ChecksumReport]) -> (drifted: Vec<ChecksumReport>)
    ensures
        drifted.deep_view() == mismatches(reports.deep_view()),
{
    let ghost all = reports.deep_view();
    let ghost pred = |report: SpecChecksumReport| is_mismatch(report);
    let mut drifted: Vec<ChecksumReport> = Vec::new();
    let mut i: usize = 0;
    proof {
        reveal(Seq::filter);
        assert(all.take(0) =~= Seq::empty());
        assert(drifted.deep_view() =~= all.take(0).filter(pred));
    }
    while i < reports.len()
        invariant
            i <= reports.len(),
            all == reports.deep_view(),
            pred == (|report: SpecChecksumReport| is_mismatch(report)),
            drifted.deep_view() == all.take(i as int).filter(pred),
        decreases reports.len() - i,
    {
        let ghost before = drifted.deep_view();
        let report = &reports[i];
        if report.expected != report.found {
            drifted.push(report.clone());
            assert(drifted.deep_view() =~= before.push(all[i as int]));
        }
        proof {
            reveal(Seq::filter);
            assert(all.take(i + 1).drop_last() =~= all.take(i as int));
            assert(all.take(i + 1).last() == all[i as int]);
        }
        i += 1;
    }
    assert(all.take(reports.len() as int) =~= all);
    drifted
}

/// Compares a producer with a consumer.
///
/// The versions are compared first: if they differ, that alone is reported
/// and no checksum is looked at. If they agree, every report is looked at, and
/// all that disagree are reported together.
pub fn check_contract(
    found_version: u32,
    reports: &[ChecksumReport],
) -> (outcome: Result<(), ContractError>)
    ensures
        outcome_is(outcome, spec_check_contract(found_version, reports.deep_view())),
        found_version != UNIFFI_CONTRACT_VERSION ==> outcome == Err::<(), ContractError>(
            ContractError::VersionMismatch {
                expected: UNIFFI_CONTRACT_VERSION,
                found: found_version,
            },
        ),
        outcome is Ok <==> found_version == UNIFFI_CONTRACT_VERSION && forall|i: int|
            0 <= i < reports@.len() ==> (#[trigger] reports@[i]).expected == reports@[i].found,
{
    proof {
        lemma_no_drift_means_all_agree(reports);
    }
    if found_version != UNIFFI_CONTRACT_VERSION {
        return check_contract_version(found_version);
    }
    let drifted = find_mismatches(reports);
    if drifted.len() == 0 {
        Ok(())
    } else {
        Err(ContractError::ChecksumMismatch { items: drifted })
    }
}

} // verus!
