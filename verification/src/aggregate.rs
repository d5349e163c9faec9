//! The aggregator's pure core: reducing the persisted unit-file list to a
//! mapping keyed by unit basename, merging it with the runtime unit list
//! into service records, and concatenating the two bus domains' results.

use vstd::prelude::*;

use crate::error::ServiceError;
use crate::models::{
    EnablementStatus, EnablementView, ServiceInfo, ServiceInfoView, ServiceStatus, UnitFileEntry,
    UnitFileEntryView, UnitInfo, UnitInfoView,
};
use crate::text::{basename, spec_basename, spec_ends_with, str_ends_with, str_eq};

verus! {

/// A unit of service type: its name ends in the literal suffix `.service`.
pub open spec fn spec_is_service_name(n: Seq<char>) -> bool {
    spec_ends_with(n, ".service"@)
}

/// The mapping from unit-file basename to enablement-state string. Entries
/// are keyed by the final segment of their file path; an entry whose path
/// has no extractable basename is dropped, and of entries sharing a
/// basename the later one wins.
pub open spec fn spec_file_map(files: Seq<UnitFileEntryView>) -> Map<Seq<char>, Seq<char>>
    decreases files.len(),
{
    if files.len() == 0 {
        Map::empty()
    } else {
        let m = spec_file_map(files.drop_last());
        match spec_basename(files.last().path) {
            Some(b) => m.insert(b, files.last().state),
            None => m,
        }
    }
}

/// The enablement state the merge gives a unit: classified from the
/// mapping's entry for its name, or from `"unknown"` when there is none,
/// so that a record is never dropped for missing enablement data.
pub open spec fn spec_enablement_for(files: Seq<UnitFileEntryView>, name: Seq<char>) -> EnablementView {
    if spec_file_map(files).contains_key(name) {
        crate::models::spec_enablement_from(spec_file_map(files)[name])
    } else {
        crate::models::spec_enablement_from("unknown"@)
    }
}

/// The service record the merge builds for one runtime unit.
pub open spec fn spec_record_of(u: UnitInfoView, files: Seq<UnitFileEntryView>) -> ServiceInfoView {
    ServiceInfoView {
        name: u.name,
        description: u.description,
        status: crate::models::spec_status_from(u.active_state),
        enablement_status: spec_enablement_for(files, u.name),
    }
}

/// The merged record list: exactly the runtime units of service type, in
/// the order the supervisor returned them, each joined with its enablement
/// state.
pub open spec fn spec_merge(units: Seq<UnitInfoView>, files: Seq<UnitFileEntryView>) -> Seq<
    ServiceInfoView,
>
    decreases units.len(),
{
    if units.len() == 0 {
        Seq::<ServiceInfoView>::empty()
    } else {
        let rest = spec_merge(units.drop_last(), files);
        if spec_is_service_name(units.last().name) {
            rest.push(spec_record_of(units.last(), files))
        } else {
            rest
        }
    }
}

/// The merge is the filtered projection of the runtime unit list: exactly
/// the subset of units whose name ends in `.service`, in their original
/// order, each mapped to its joined record — nothing else is kept, nothing
/// is reordered.
pub proof fn lemma_merge_is_filtered_projection(
    units: Seq<UnitInfoView>,
    files: Seq<UnitFileEntryView>,
)
    ensures
        spec_merge(units, files) == units.filter(|u: UnitInfoView| spec_is_service_name(u.name))
            .map_values(|u: UnitInfoView| spec_record_of(u, files)),
    decreases units.len(),
{
    reveal(Seq::filter);
    let pred = |u: UnitInfoView| spec_is_service_name(u.name);
    let proj = |u: UnitInfoView| spec_record_of(u, files);
    if units.len() == 0 {
        assert(spec_merge(units, files) =~= units.filter(pred).map_values(proj));
    } else {
        lemma_merge_is_filtered_projection(units.drop_last(), files);
        if pred(units.last()) {
            assert(units.filter(pred) == units.drop_last().filter(pred).push(units.last()));
            assert(units.filter(pred).map_values(proj) =~= units.drop_last().filter(
                pred,
            ).map_values(proj).push(proj(units.last())));
        }
        assert(spec_merge(units, files) =~= units.filter(pred).map_values(proj));
    }
}

/// Every record the merge emits is of service type: its name ends in
/// `.service`, whatever the supervisor returned.
pub proof fn lemma_merge_all_service_names(units: Seq<UnitInfoView>, files: Seq<UnitFileEntryView>)
    ensures
        forall|k: int|
            0 <= k < spec_merge(units, files).len() ==> spec_is_service_name(
                #[trigger] spec_merge(units, files)[k].name,
            ),
    decreases units.len(),
{
    if units.len() > 0 {
        lemma_merge_all_service_names(units.drop_last(), files);
    }
}

/// Entries past `i` that name no basename equal to `name` leave the
/// mapping's binding for `name` as the first `i` entries built it.
proof fn lemma_file_map_frame(files: Seq<UnitFileEntryView>, i: int, name: Seq<char>)
    requires
        0 <= i <= files.len(),
        forall|j: int| i <= j < files.len() ==> spec_basename(#[trigger] files[j].path) != Some(name),
    ensures
        spec_file_map(files).contains_key(name) == spec_file_map(files.take(i)).contains_key(name),
        spec_file_map(files).contains_key(name) ==> spec_file_map(files)[name] == spec_file_map(
            files.take(i),
        )[name],
    decreases files.len() - i,
{
    if i == files.len() {
        assert(files.take(i) =~= files);
    } else {
        let shorter = files.drop_last();
        assert(spec_basename(files[files.len() - 1].path) != Some(name));
        lemma_file_map_frame(shorter, i, name);
        assert(shorter.take(i) =~= files.take(i));
    }
}

/// A service-type unit's joined record stands in the merge.
proof fn lemma_merge_contains_record(
    units: Seq<UnitInfoView>,
    files: Seq<UnitFileEntryView>,
    i: int,
)
    requires
        0 <= i < units.len(),
        spec_is_service_name(units[i].name),
    ensures
        spec_merge(units, files).contains(spec_record_of(units[i], files)),
    decreases units.len(),
{
    let merged = spec_merge(units, files);
    let record = spec_record_of(units[i], files);
    if i == units.len() - 1 {
        assert(merged[merged.len() - 1] == record);
    } else {
        lemma_merge_contains_record(units.drop_last(), files, i);
        let rest = spec_merge(units.drop_last(), files);
        let w = choose|w: int| 0 <= w < rest.len() && rest[w] == record;
        assert(merged[w] == record);
    }
}

/// Merge-by-name, in general: a unit of service type whose name is the
/// basename of the unit-file entry at `k`, no later entry sharing that
/// basename, yields a record that keeps the unit's name and description,
/// classifies its activation state, and carries the entry's classified
/// enablement state; that record stands in the merge.
pub proof fn lemma_merge_by_name(
    units: Seq<UnitInfoView>,
    files: Seq<UnitFileEntryView>,
    i: int,
    k: int,
)
    requires
        0 <= i < units.len(),
        spec_is_service_name(units[i].name),
        0 <= k < files.len(),
        spec_basename(files[k].path) == Some(units[i].name),
        forall|j: int|
            k < j < files.len() ==> spec_basename(#[trigger] files[j].path) != Some(units[i].name),
    ensures
        spec_merge(units, files).contains(spec_record_of(units[i], files)),
        spec_record_of(units[i], files).name == units[i].name,
        spec_record_of(units[i], files).description == units[i].description,
        spec_record_of(units[i], files).status == crate::models::spec_status_from(
            units[i].active_state,
        ),
        spec_record_of(units[i], files).enablement_status == crate::models::spec_enablement_from(
            files[k].state,
        ),
{
    lemma_merge_contains_record(units, files, i);
    let name = units[i].name;
    let upto = files.take(k + 1);
    assert(upto.drop_last() =~= files.take(k));
    assert(upto.last() == files[k]);
    assert(spec_file_map(upto).contains_key(name));
    assert(spec_file_map(upto)[name] == files[k].state);
    lemma_file_map_frame(files, k + 1, name);
}

/// Merge-by-name default, in general: a unit of service type whose name is
/// the basename of no unit-file entry yields a record whose enablement
/// state is `Unknown("unknown")` — the record is never dropped for missing
/// enablement data; it stands in the merge.
pub proof fn lemma_merge_default_enablement(
    units: Seq<UnitInfoView>,
    files: Seq<UnitFileEntryView>,
    i: int,
)
    requires
        0 <= i < units.len(),
        spec_is_service_name(units[i].name),
        forall|j: int|
            0 <= j < files.len() ==> spec_basename(#[trigger] files[j].path) != Some(units[i].name),
    ensures
        spec_merge(units, files).contains(spec_record_of(units[i], files)),
        spec_record_of(units[i], files).enablement_status == EnablementView::Unknown("unknown"@),
{
    lemma_merge_contains_record(units, files, i);
    lemma_file_map_frame(files, 0, units[i].name);
    assert(files.take(0) =~= Seq::<UnitFileEntryView>::empty());
    crate::models::lemma_unknown_default_classification();
}

/// Finds the enablement-state string recorded for `name` in the unit-file
/// mapping, scanning later entries first so that a later duplicate wins.
fn lookup_unit_file_state(files: &Vec<UnitFileEntry>, name: &str) -> (r: Option<String>)
    ensures
        match r {
            Some(s) => spec_file_map(files.deep_view()).contains_key(name@) && s@ == spec_file_map(
                files.deep_view(),
            )[name@],
            None => !spec_file_map(files.deep_view()).contains_key(name@),
        },
{
    let ghost fv = files.deep_view();
    let mut i: usize = files.len();
    while i > 0
        invariant
            fv == files.deep_view(),
            fv.len() == files@.len(),
            0 <= i <= files@.len(),
            forall|j: int| i <= j < fv.len() ==> spec_basename(#[trigger] fv[j].path) != Some(name@),
        decreases i,
    {
        i -= 1;
        let found = match basename(files[i].path.as_str()) {
            Some(b) => str_eq(b.as_str(), name),
            None => false,
        };
        if found {
            proof {
                assert(spec_basename(fv[i as int].path) == Some(name@));
                let upto = fv.take(i + 1);
                assert(upto.drop_last() =~= fv.take(i as int));
                assert(upto.last() == fv[i as int]);
                assert(spec_file_map(upto).contains_key(name@));
                assert(spec_file_map(upto)[name@] == fv[i as int].state);
                lemma_file_map_frame(fv, i + 1, name@);
            }
            return Some(files[i].state.clone());
        }
    }
    proof {
        lemma_file_map_frame(fv, 0, name@);
        assert(fv.take(0) =~= Seq::<UnitFileEntryView>::empty());
    }
    None
}

/// Merges the runtime unit list with the persisted unit-file list: keeps
/// exactly the units whose name ends in `.service`, in the supervisor's
/// order, and joins each with its enablement state by unit name.
pub fn merge_services(units: Vec<UnitInfo>, unit_files: Vec<UnitFileEntry>) -> (r: Vec<ServiceInfo>)
    ensures
        r.deep_view() == spec_merge(units.deep_view(), unit_files.deep_view()),
{
    let ghost uv = units.deep_view();
    let ghost fv = unit_files.deep_view();
    let mut out: Vec<ServiceInfo> = Vec::new();
    let mut i: usize = 0;
    while i < units.len()
        invariant
            uv == units.deep_view(),
            fv == unit_files.deep_view(),
            uv.len() == units@.len(),
            0 <= i <= units@.len(),
            out.deep_view() == spec_merge(uv.take(i as int), fv),
        decreases units@.len() - i,
    {
        let ghost prev = out.deep_view();
        let is_service = str_ends_with(units[i].name.as_str(), ".service");
        if is_service {
            let enablement_status = match lookup_unit_file_state(&unit_files, units[i].name.as_str()) {
                Some(state) => EnablementStatus::from(state.as_str()),
                None => EnablementStatus::from("unknown"),
            };
            let record = ServiceInfo {
                name: units[i].name.clone(),
                description: units[i].description.clone(),
                status: ServiceStatus::from(units[i].active_state.as_str()),
                enablement_status,
            };
            proof {
                assert(record.deep_view() == spec_record_of(uv[i as int], fv));
            }
            out.push(record);
            proof {
                assert(out.deep_view() =~= prev.push(record.deep_view()));
            }
        }
        proof {
            let upto = uv.take(i + 1);
            assert(upto.drop_last() =~= uv.take(i as int));
            assert(upto.last() == uv[i as int]);
        }
        i += 1;
    }
    proof {
        assert(uv.take(units@.len() as int) =~= uv);
    }
    out
}

/// Concatenates the two bus domains' contributions, system domain first; a
/// failed domain contributes nothing, and two failed domains leave the
/// result empty rather than an error.
pub fn combine_domains(
    system: Result<Vec<ServiceInfo>, ServiceError>,
    session: Result<Vec<ServiceInfo>, ServiceError>,
) -> (r: Vec<ServiceInfo>)
    ensures
        r.deep_view() == spec_domain_records(system) + spec_domain_records(session),
{
    let mut out: Vec<ServiceInfo> = Vec::new();
    let ghost sys_part = spec_domain_records(system);
    let ghost sess_part = spec_domain_records(session);
    if let Ok(mut records) = system {
        out.append(&mut records);
    }
    proof {
        assert(out.deep_view() =~= sys_part);
    }
    if let Ok(mut records) = session {
        out.append(&mut records);
    }
    proof {
        assert(out.deep_view() =~= sys_part + sess_part);
    }
    out
}

/// What one bus domain contributes to the aggregate: its records when it
/// succeeded, nothing when any step of it failed.
pub open spec fn spec_domain_records(outcome: Result<Vec<ServiceInfo>, ServiceError>) -> Seq<
    ServiceInfoView,
> {
    match outcome {
        Ok(records) => records.deep_view(),
        Err(_) => Seq::<ServiceInfoView>::empty(),
    }
}

} // verus!
