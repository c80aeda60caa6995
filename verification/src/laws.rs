//! What holds of the lifecycle as a whole, over any number of scans and of
//! executions.

use vstd::prelude::*;
use crate::bridge::{fallback, lemma_fallback_is_not_empty, lemma_fallback_nul_free, VersionReport};
use crate::cstr::{lemma_nul_position, nul_free};
use crate::greeting::{
    greeting,
    lemma_greeting_begins_with_salutation,
    lemma_greeting_ends_with_version,
    lemma_greeting_nul_free,
    salutation,
};
use crate::vtab::{bind_outcome, scan_outcome, BindError, ScanError};

verus! {

/// What one cursor yields over a run of scans. `versions[i]` is the text that
/// the bridge gives to the i-th scan; every scan leaves the cursor exhausted.
pub open spec fn scan_run(name: Option<Seq<char>>, exhausted: bool, versions: Seq<Seq<char>>) -> Seq<
    Result<Seq<Seq<char>>, ScanError>,
>
    decreases versions.len(),
{
    if versions.len() == 0 {
        Seq::empty()
    } else {
        seq![scan_outcome(name, exhausted, versions[0])] + scan_run(
            name,
            true,
            versions.drop_first(),
        )
    }
}

/// What the executions over one call site yield. Each scan names its cursor
/// and carries the text that the bridge gives to it; `exhausted` holds the
/// cursors that have produced their row. A cursor that `init` has just made
/// is in no such set.
pub open spec fn executions(
    name: Option<Seq<char>>,
    exhausted: Set<nat>,
    scans: Seq<(nat, Seq<char>)>,
) -> Seq<Result<Seq<Seq<char>>, ScanError>>
    decreases scans.len(),
{
    if scans.len() == 0 {
        Seq::empty()
    } else {
        seq![scan_outcome(name, exhausted.contains(scans[0].0), scans[0].1)] + executions(
            name,
            exhausted.insert(scans[0].0),
            scans.drop_first(),
        )
    }
}

/// No earlier scan of the run used the cursor of the i-th scan.
pub open spec fn first_use(scans: Seq<(nat, Seq<char>)>, i: int) -> bool {
    forall|j: int| 0 <= j < i ==> (#[trigger] scans[j]).0 != scans[i].0
}

/// A fresh cursor over a bound parameter yields its row: the scan succeeds
/// with exactly one row, the greeting of the parameter with the version text,
/// unless the version text holds a NUL.
pub proof fn lemma_fresh_scan_yields_row(name: Seq<char>, version: Seq<char>)
    requires
        nul_free(name),
        nul_free(version),
    ensures
        scan_outcome(Some(name), false, version) == Ok::<Seq<Seq<char>>, ScanError>(
            seq![greeting(name, version)],
        ),
{
    lemma_greeting_nul_free(name, version);
    lemma_nul_position(greeting(name, version));
}

/// A scan sequence on a fresh cursor yields exactly one row on the first scan
/// and none on every later one, for every parameter that `bind` accepts and
/// every version text without a NUL in the first scan.
pub proof fn lemma_one_row_then_none(name: Seq<char>, versions: Seq<Seq<char>>)
    requires
        nul_free(name),
        versions.len() > 0,
        nul_free(versions[0]),
    ensures
        scan_run(Some(name), false, versions).len() == versions.len(),
        scan_run(Some(name), false, versions)[0] == Ok::<Seq<Seq<char>>, ScanError>(
            seq![greeting(name, versions[0])],
        ),
        forall|i: int|
            1 <= i < versions.len() ==> #[trigger] scan_run(Some(name), false, versions)[i] == Ok::<
                Seq<Seq<char>>,
                ScanError,
            >(Seq::empty()),
{
    lemma_fresh_scan_yields_row(name, versions[0]);
    lemma_exhausted_run(Some(name), versions.drop_first());
}

/// An exhausted cursor yields an empty batch on every scan, whatever the bind
/// data holds and whatever the bridge would give.
pub proof fn lemma_exhausted_run(name: Option<Seq<char>>, versions: Seq<Seq<char>>)
    ensures
        scan_run(name, true, versions).len() == versions.len(),
        forall|i: int|
            0 <= i < versions.len() ==> #[trigger] scan_run(name, true, versions)[i] == Ok::<
                Seq<Seq<char>>,
                ScanError,
            >(Seq::empty()),
    decreases versions.len(),
{
    if versions.len() > 0 {
        lemma_exhausted_run(name, versions.drop_first());
    }
}

/// Every row begins with the greeting of the bound parameter: whatever a
/// scan yields, each of its rows begins with `Hello `, the parameter and `! `.
pub proof fn lemma_rows_begin_with_salutation(
    name: Option<Seq<char>>,
    exhausted: bool,
    version: Seq<char>,
)
    ensures
        scan_outcome(name, exhausted, version) matches Ok(rows) ==> forall|i: int|
            0 <= i < rows.len() ==> name is Some && salutation(name->0).is_prefix_of(
                #[trigger] rows[i],
            ),
{
    if name is Some {
        lemma_greeting_begins_with_salutation(name->0, version);
    }
}

/// A failure of the bridge does not fail the scan. With a degraded report a
/// fresh cursor still yields its one row, and the row ends with the fallback
/// text, which is not empty and ends with the description of the failure,
/// unless that description holds a NUL.
pub proof fn lemma_degraded_scan_yields_row(name: Seq<char>, detail: String)
    requires
        nul_free(name),
        nul_free(detail@),
    ensures
        scan_outcome(Some(name), false, VersionReport::Degraded(detail).text()) == Ok::<
            Seq<Seq<char>>,
            ScanError,
        >(seq![greeting(name, fallback(detail@))]),
        fallback(detail@).is_suffix_of(greeting(name, fallback(detail@))),
        fallback(detail@).len() > 0,
{
    lemma_fallback_nul_free(detail@);
    lemma_fallback_is_not_empty(detail@);
    lemma_fresh_scan_yields_row(name, fallback(detail@));
    lemma_greeting_ends_with_version(name, fallback(detail@));
}

/// Each execution has a cursor of its own. However the scans of several
/// executions over one call site follow each other, a scan yields the one
/// row exactly if it is the first scan of its cursor, and an empty batch
/// otherwise. The version texts of the first scans hold no NUL.
pub proof fn lemma_executions_are_independent(
    name: Seq<char>,
    exhausted: Set<nat>,
    scans: Seq<(nat, Seq<char>)>,
)
    requires
        nul_free(name),
        forall|i: int|
            0 <= i < scans.len() && !exhausted.contains(scans[i].0) && first_use(scans, i)
                ==> nul_free((#[trigger] scans[i]).1),
    ensures
        executions(Some(name), exhausted, scans).len() == scans.len(),
        forall|i: int|
            0 <= i < scans.len() ==> #[trigger] executions(Some(name), exhausted, scans)[i] == (if
                !exhausted.contains(scans[i].0) && first_use(scans, i) {
                Ok::<Seq<Seq<char>>, ScanError>(seq![greeting(name, scans[i].1)])
            } else {
                Ok::<Seq<Seq<char>>, ScanError>(Seq::empty())
            }),
    decreases scans.len(),
{
    if scans.len() > 0 {
        let rest = scans.drop_first();
        let later = exhausted.insert(scans[0].0);
        assert forall|k: int|
            0 <= k < rest.len() && !later.contains(rest[k].0) && first_use(rest, k) implies nul_free(
            (#[trigger] rest[k]).1,
        ) by {
            assert(rest[k] == scans[k + 1]);
            assert forall|j: int| 0 <= j < k + 1 implies (#[trigger] scans[j]).0 != scans[k + 1].0 by {
                if j > 0 {
                    assert(rest[j - 1] == scans[j]);
                }
            }
        }
        lemma_executions_are_independent(name, later, rest);
        let all = executions(Some(name), exhausted, scans);
        assert forall|i: int| 0 <= i < scans.len() implies #[trigger] all[i] == (if !exhausted.contains(
            scans[i].0,
        ) && first_use(scans, i) {
            Ok::<Seq<Seq<char>>, ScanError>(seq![greeting(name, scans[i].1)])
        } else {
            Ok::<Seq<Seq<char>>, ScanError>(Seq::empty())
        }) by {
            if i == 0 {
                if !exhausted.contains(scans[0].0) {
                    lemma_fresh_scan_yields_row(name, scans[0].1);
                }
            } else {
                let k = i - 1;
                assert(all[i] == executions(Some(name), later, rest)[k]);
                assert(rest[k] == scans[i]);
                if first_use(scans, i) {
                    assert(scans[0].0 != scans[i].0);
                    assert forall|j: int| 0 <= j < k implies (#[trigger] rest[j]).0 != rest[k].0 by {
                        assert(rest[j] == scans[j + 1]);
                    }
                }
                if !later.contains(rest[k].0) && first_use(rest, k) {
                    assert forall|j: int| 0 <= j < i implies (#[trigger] scans[j]).0 != scans[i].0 by {
                        if j > 0 {
                            assert(rest[j - 1] == scans[j]);
                        }
                    }
                }
            }
        }
    }
}

/// A call site with no parameter, or with more than one, is refused by
/// `bind`; and no scan is refused for the number of parameters, since a scan
/// has no such error.
pub proof fn lemma_wrong_arity_is_refused(params: Seq<Seq<char>>)
    requires
        params.len() != 1,
    ensures
        bind_outcome(params) == Err::<Seq<char>, BindError>(
            BindError::Arity { given: params.len() as usize },
        ),
{
}

} // verus!
