use vstd::prelude::*;

use crate::error::InstallError;
use crate::profile::Library;
use crate::text::same;

verus! {

/// How many library transfers may be in flight at once.
pub const DOWNLOAD_CONCURRENCY: usize = 8;

/// What to do about one library file.
#[derive(Debug, Clone, Copy, PartialEq, Eq)]
pub enum FetchDecision {
    /// The file is present and either matches its checksum or has none to match.
    UpToDate,
    /// The file must be fetched but there is nowhere to fetch it from.
    Skip,
    /// Fetch the file from its URL.
    Download,
}

/// How a downloaded file compares with its expected checksum.
#[derive(Debug, Clone, Copy, PartialEq, Eq)]
pub enum ChecksumStatus {
    /// There was no checksum to compare with.
    Unverified,
    Matches,
    /// The checksum differs: worth a warning, not a failure.
    Mismatch,
}

/// The result of bringing one library up to date.
#[derive(Debug, Clone)]
pub enum FetchOutcome {
    UpToDate,
    Skipped,
    Downloaded(ChecksumStatus),
    /// A hard failure (network, disk), described.
    Failed(String),
}

/// Whether the present file needs its checksum computed before deciding.
pub fn needs_checksum(lib: &Library, present: bool) -> (r: bool)
    ensures
        r == (present && lib.sha1 is Some),
{
    present && lib.sha1.is_some()
}

/// The spec of `decide_fetch`.
pub open spec fn decide_spec(lib: Library, present: bool, actual: Option<Seq<char>>) -> FetchDecision {
    if present && (lib.sha1 is None || (actual is Some && lib.sha1->0@ == actual->0)) {
        FetchDecision::UpToDate
    } else if lib.url@.len() == 0 {
        FetchDecision::Skip
    } else {
        FetchDecision::Download
    }
}

/// Decides what to do about a library given whether its file is present and,
/// when it has an expected checksum, the present file's checksum.
pub fn decide_fetch(lib: &Library, present: bool, actual: Option<&str>) -> (r: FetchDecision)
    ensures
        r == decide_spec(*lib, present, match actual {
            Some(a) => Some(a@),
            None => None,
        }),
{
    if present {
        match &lib.sha1 {
            None => return FetchDecision::UpToDate,
            Some(expected) => match actual {
                Some(a) => {
                    if same(a, expected.as_str()) {
                        return FetchDecision::UpToDate;
                    }
                },
                None => {},
            },
        }
    }
    if lib.url.unicode_len() == 0 {
        FetchDecision::Skip
    } else {
        FetchDecision::Download
    }
}

/// Compares a freshly downloaded file's checksum with the expected one.
pub fn checksum_status(expected: &Option<String>, actual: &str) -> (r: ChecksumStatus)
    ensures
        expected is None ==> r == ChecksumStatus::Unverified,
        expected matches Some(e) ==> (r == if e@ == actual@ {
            ChecksumStatus::Matches
        } else {
            ChecksumStatus::Mismatch
        }),
{
    match expected {
        None => ChecksumStatus::Unverified,
        Some(e) => if same(e.as_str(), actual) {
            ChecksumStatus::Matches
        } else {
            ChecksumStatus::Mismatch
        },
    }
}

/// The descriptions of the hard failures among the outcomes, in order.
pub open spec fn failures(outcomes: Seq<FetchOutcome>) -> Seq<Seq<char>>
    decreases outcomes.len(),
{
    if outcomes.len() == 0 {
        Seq::<Seq<char>>::empty()
    } else {
        let rest = failures(outcomes.drop_last());
        match outcomes.last() {
            FetchOutcome::Failed(m) => rest.push(m@),
            _ => rest,
        }
    }
}

/// Joins the outcomes of every library fetch: success unless some fetch failed
/// hard, in which case every hard failure is reported. Checksum mismatches are
/// not failures.
pub fn download_libraries(outcomes: &Vec<FetchOutcome>) -> (r: Result<(), InstallError>)
    ensures
        r is Ok <==> failures(outcomes@).len() == 0,
        r matches Err(e) ==> (e matches InstallError::LibraryDownloads(list) && crate::text::views(
            list@,
        ) == failures(outcomes@)),
{
    let mut errors: Vec<String> = Vec::new();
    let mut i: usize = 0;
    while i < outcomes.len()
        invariant
            i <= outcomes@.len(),
            crate::text::views(errors@) == failures(outcomes@.take(i as int)),
        decreases outcomes@.len() - i,
    {
        let ghost before = errors@;
        assert(outcomes@.take(i as int + 1).drop_last() =~= outcomes@.take(i as int));
        match &outcomes[i] {
            FetchOutcome::Failed(m) => {
                errors.push(m.clone());
                assert(crate::text::views(errors@) =~= crate::text::views(before).push(m@));
            },
            _ => {},
        }
        i = i + 1;
    }
    assert(outcomes@.take(outcomes@.len() as int) =~= outcomes@);
    if errors.len() == 0 {
        Ok(())
    } else {
        Err(InstallError::LibraryDownloads(errors))
    }
}


pub open spec fn is_failure(o: FetchOutcome) -> bool {
    o is Failed
}

/// Joining fetch outcomes reports one problem per hard failure, and nothing
/// for outcomes that are not hard failures (a checksum mismatch among them):
/// with `k` hard failures the report lists exactly `k` problems, and with none
/// the fetch as a whole succeeds.
pub proof fn lemma_failures_counted(outcomes: Seq<FetchOutcome>)
    ensures
        failures(outcomes).len() == outcomes.filter(|o: FetchOutcome| is_failure(o)).len(),
        (forall|i: int| 0 <= i < outcomes.len() ==> !is_failure(#[trigger] outcomes[i]))
            ==> failures(outcomes).len() == 0,
    decreases outcomes.len(),
{
    reveal(Seq::filter);
    if outcomes.len() > 0 {
        lemma_failures_counted(outcomes.drop_last());
        assert(outcomes.drop_last().len() < outcomes.len());
        if forall|i: int| 0 <= i < outcomes.len() ==> !is_failure(#[trigger] outcomes[i]) {
            assert forall|i: int|
                0 <= i < outcomes.drop_last().len() implies !is_failure(
                #[trigger] outcomes.drop_last()[i],
            ) by {
                assert(outcomes.drop_last()[i] == outcomes[i]);
            }
            assert(!is_failure(outcomes[outcomes.len() - 1]));
        }
    }
}

} // verus!
