//! Projects and where they lie: listing them with their location counts,
//! creating one by hand under its stem, and recording a location by hand.

use vstd::prelude::*;
use crate::error::UecmError;
use crate::health::{ascii_lower, lower_exec};
use crate::reports::ProjectSummary;
use crate::store::{
    clone_opt, location_not, location_not_of, location_of, location_slot, opt_view, project_not, project_slot, Db, Project, ProjectLocation, ProjectLocationV,
    ProjectV,
};
use crate::text::{chars_of, int_text, string_from_chars, with_number};

verus! {

/// Where the file name of a path starts: just past its last `/` or `\`.
pub open spec fn name_start(s: Seq<char>) -> int
    decreases s.len(),
{
    if s.len() == 0 {
        0
    } else if s.last() == '/' || s.last() == '\\' {
        s.len() as int
    } else {
        name_start(s.drop_last())
    }
}

/// The position of the last `.` of `s`, if any.
pub open spec fn last_dot(s: Seq<char>) -> Option<int>
    decreases s.len(),
{
    if s.len() == 0 {
        None
    } else if s.last() == '.' {
        Some(s.len() - 1)
    } else {
        last_dot(s.drop_last())
    }
}

/// The stem of a file path: its file name without the last extension (a
/// leading dot starts no extension).
pub open spec fn file_stem(path: Seq<char>) -> Seq<char> {
    let name = path.skip(name_start(path));
    match last_dot(name) {
        Some(d) => if d > 0 {
            name.take(d)
        } else {
            name
        },
        None => name,
    }
}

/// The key a project is known by: the stem of its `.uproject` file name in
/// ASCII lower case.
pub open spec fn stem_key(uproject_name: Seq<char>) -> Seq<char> {
    file_stem(uproject_name).map_values(|c: char| ascii_lower(c))
}

proof fn lemma_name_start_bounds(s: Seq<char>)
    ensures
        0 <= name_start(s) <= s.len(),
    decreases s.len(),
{
    if s.len() > 0 {
        lemma_name_start_bounds(s.drop_last());
    }
}

proof fn lemma_last_dot_bounds(s: Seq<char>)
    ensures
        last_dot(s) matches Some(d) ==> 0 <= d < s.len(),
    decreases s.len(),
{
    if s.len() > 0 {
        lemma_last_dot_bounds(s.drop_last());
    }
}

/// The key of a project, as `stem_key` says.
pub fn stem_lower(uproject_name: &str) -> (r: String)
    ensures
        r@ == stem_key(uproject_name@),
{
    let s = chars_of(uproject_name);
    let mut start: usize = 0;
    let mut i: usize = 0;
    while i < s.len()
        invariant
            i <= s@.len(),
            start as int == name_start(s@.take(i as int)),
            start <= i,
        decreases s@.len() - i,
    {
        assert(s@.take(i + 1).drop_last() =~= s@.take(i as int));
        if s[i] == '/' || s[i] == '\\' {
            start = i + 1;
        }
        i = i + 1;
    }
    assert(s@.take(i as int) =~= s@);
    let ghost name = s@.skip(start as int);
    let mut dot: Option<usize> = None;
    let mut j: usize = start;
    while j < s.len()
        invariant
            start <= j <= s@.len(),
            name == s@.skip(start as int),
            match dot {
                Some(d) => last_dot(name.take(j - start)) == Some(d - start) && start <= d < j,
                None => last_dot(name.take(j - start)) is None,
            },
        decreases s@.len() - j,
    {
        assert(name.take(j + 1 - start).drop_last() =~= name.take(j - start));
        if s[j] == '.' {
            dot = Some(j);
        }
        j = j + 1;
    }
    assert(name.take(j - start) =~= name);
    let end: usize = match dot {
        Some(d) => if d > start {
            d
        } else {
            s.len()
        },
        None => s.len(),
    };
    let ghost stem = file_stem(uproject_name@);
    assert(stem =~= s@.subrange(start as int, end as int));
    let mut out: Vec<char> = Vec::new();
    let mut k: usize = start;
    while k < end
        invariant
            start <= k <= end,
            end <= s@.len(),
            out@ =~= s@.subrange(start as int, k as int).map_values(|c: char| ascii_lower(c)),
        decreases end - k,
    {
        out.push(lower_exec(s[k]));
        k = k + 1;
    }
    string_from_chars(out.as_slice())
}

/// The id a stored project is listed under.
pub open spec fn listed_id(p: ProjectV) -> i64 {
    match p.id {
        Some(x) => x,
        None => 0,
    }
}

/// `ProjectSummary` for stored project `p`, given every stored location.
pub open spec fn summary_fits(r: ProjectSummary, p: ProjectV, locations: Seq<ProjectLocationV>) -> bool {
    let n = locations.filter(location_of(listed_id(p))).len();
    &&& r.id == listed_id(p)
    &&& r.uproject_name@ == p.uproject_name
    &&& opt_view(r.display_name) == p.display_name
    &&& opt_view(r.uproject_guid) == p.uproject_guid
    &&& r.location_count as int == if n <= i64::MAX {
        n as int
    } else {
        i64::MAX as int
    }
}

/// Every project, in the order stored, with how many locations it has.
pub fn list_projects(db: &Db) -> (r: Vec<ProjectSummary>)
    ensures
        r@.len() == db.project_rows().len(),
        forall|i: int|
            0 <= i < r@.len() ==> #[trigger] summary_fits(r@[i], db.project_rows()[i], db.location_rows()),
{
    let projects = db.all_projects();
    let mut out: Vec<ProjectSummary> = Vec::new();
    let mut i: usize = 0;
    while i < projects.len()
        invariant
            projects@.map_values(|x: Project| x@) == db.project_rows(),
            i <= projects@.len(),
            out@.len() == i,
            forall|j: int| 0 <= j < i ==> #[trigger] summary_fits(out@[j], db.project_rows()[j], db.location_rows()),
        decreases projects@.len() - i,
    {
        let p = &projects[i];
        assert(db.project_rows()[i as int] == p@);
        let id: i64 = match p.id {
            Some(x) => x,
            None => 0,
        };
        let locations = db.locations_of(id);
        assert(locations@.map_values(|x: ProjectLocation| x@).len() == locations@.len());
        let n = locations.len();
        let count: i64 = if (n as u64) <= 9223372036854775807u64 {
            n as i64
        } else {
            9223372036854775807i64
        };
        out.push(
            ProjectSummary {
                id,
                uproject_name: p.uproject_name.clone(),
                display_name: clone_opt(&p.display_name),
                uproject_guid: clone_opt(&p.uproject_guid),
                location_count: count,
            },
        );
        i = i + 1;
    }
    out
}

/// The locations of a project, in the order stored.
pub fn list_project_locations(db: &Db, project_id: i64) -> (r: Vec<ProjectLocation>)
    ensures
        r@.map_values(|x: ProjectLocation| x@) == db.location_rows().filter(location_of(project_id)),
{
    db.locations_of(project_id)
}

/// The project a manual creation stores for `uproject_name`.
pub open spec fn manual_project(uproject_name: Seq<char>, display_name: Option<Seq<char>>) -> ProjectV {
    ProjectV {
        id: None,
        uproject_name,
        uproject_stem_lower: stem_key(uproject_name),
        uproject_guid: None,
        display_name,
    }
}

/// Creates a project by hand, or updates the one with the same key (which
/// keeps its id). Returns the project's id.
pub fn create_project_manual(db: &mut Db, uproject_name: String, display_name: Option<String>) -> (r: Result<
    i64,
    UecmError,
>)
    requires
        old(db).wf(),
    ensures
        final(db).wf(),
        ({
            let p = manual_project(uproject_name@, opt_view(display_name));
            match project_slot(old(db).project_rows(), p.uproject_stem_lower, 0) {
                Some(k) => old(db).project_rows()[k].id matches Some(id) && r == Ok::<i64, UecmError>(id)
                    && final(db).project_rows() == old(db).project_rows().update(k, ProjectV { id: Some(id), ..p }),
                None => if old(db).next_project() < i64::MAX {
                    r == Ok::<i64, UecmError>(old(db).next_project()) && final(db).project_rows() == old(
                        db,
                    ).project_rows().push(ProjectV { id: Some(old(db).next_project()), ..p })
                } else {
                    r is Err && final(db).project_rows() == old(db).project_rows()
                },
            }
        }),
        final(db).location_rows() == old(db).location_rows(),
        final(db).machine_rows() == old(db).machine_rows(),
{
    let stem = stem_lower(uproject_name.as_str());
    let p = Project {
        id: None,
        uproject_stem_lower: stem,
        uproject_name,
        uproject_guid: None,
        display_name,
    };
    db.upsert_project(&p)
}

/// How a location recorded by hand was given: a path the operator typed,
/// or an alias.
pub open spec fn manual_status(manual: bool) -> Seq<char> {
    if manual {
        "manual_path"@
    } else {
        "manual_alias"@
    }
}

/// The location a manual entry stores.
pub open spec fn manual_location(
    project_id: i64,
    machine_id: i64,
    abs_path: Seq<char>,
    uproject_path: Seq<char>,
    manual: bool,
) -> ProjectLocationV {
    ProjectLocationV {
        id: None,
        project_id,
        machine_id,
        abs_path,
        uproject_path,
        discovery_status: manual_status(manual),
    }
}

/// Records where a project lies on a machine, in place of what was
/// recorded for the same project and machine (which keeps its id).
/// Returns the location's id.
pub fn set_project_location(
    db: &mut Db,
    project_id: i64,
    machine_id: i64,
    abs_path: String,
    uproject_path: String,
    manual: bool,
) -> (r: Result<i64, UecmError>)
    requires
        old(db).wf(),
    ensures
        final(db).wf(),
        ({
            let l = manual_location(project_id, machine_id, abs_path@, uproject_path@, manual);
            match location_slot(old(db).location_rows(), project_id, machine_id, 0) {
                Some(k) => old(db).location_rows()[k].id matches Some(id) && r == Ok::<i64, UecmError>(id)
                    && final(db).location_rows() == old(db).location_rows().update(
                    k,
                    ProjectLocationV { id: Some(id), ..l },
                ),
                None => if old(db).next_location() < i64::MAX {
                    r == Ok::<i64, UecmError>(old(db).next_location()) && final(db).location_rows() == old(
                        db,
                    ).location_rows().push(ProjectLocationV { id: Some(old(db).next_location()), ..l })
                } else {
                    r is Err && final(db).location_rows() == old(db).location_rows()
                },
            }
        }),
        final(db).project_rows() == old(db).project_rows(),
        final(db).machine_rows() == old(db).machine_rows(),
{
    let status = if manual {
        String::from_str("manual_path")
    } else {
        String::from_str("manual_alias")
    };
    let l = ProjectLocation { id: None, project_id, machine_id, abs_path, uproject_path, discovery_status: status };
    db.upsert_location(&l)
}

/// Deletes a project and its locations.
pub fn delete_project(db: &mut Db, project_id: i64)
    requires
        old(db).wf(),
    ensures
        final(db).wf(),
        final(db).project_rows() == old(db).project_rows().filter(project_not(project_id)),
        final(db).location_rows() == old(db).location_rows().filter(location_not_of(project_id)),
        final(db).machine_rows() == old(db).machine_rows(),
{
    db.delete_project(project_id)
}

/// Deletes one location.
pub fn delete_project_location(db: &mut Db, location_id: i64)
    requires
        old(db).wf(),
    ensures
        final(db).wf(),
        final(db).location_rows() == old(db).location_rows().filter(location_not(location_id)),
        final(db).project_rows() == old(db).project_rows(),
        final(db).machine_rows() == old(db).machine_rows(),
{
    db.delete_location(location_id)
}

/// The machines a project is located on, each once: what the PSO
/// precaching check of a project scans. A project with no recorded
/// location is invalid input.
pub fn pso_precaching_machines(db: &Db, project_id: i64) -> (r: Result<Vec<i64>, UecmError>)
    ensures
        ({
            let locs = db.location_rows().filter(location_of(project_id));
            if locs.len() == 0 {
                r matches Err(e) && e matches UecmError::InvalidInput(m) && m@ == "project "@ + int_text(
                    project_id as int,
                ) + " has no locations registered; add locations first"@
            } else {
                r matches Ok(ids) && ids@.no_duplicates() && forall|x: i64|
                    ids@.contains(x) <==> exists|k: int| 0 <= k < locs.len() && #[trigger] locs[k].machine_id == x
            }
        }),
{
    let locations = db.locations_of(project_id);
    let ghost locs = locations@.map_values(|x: ProjectLocation| x@);
    if locations.len() == 0 {
        return Err(
            UecmError::InvalidInput(
                with_number("project ", project_id, " has no locations registered; add locations first"),
            ),
        );
    }
    let mut ids: Vec<i64> = Vec::new();
    let mut i: usize = 0;
    while i < locations.len()
        invariant
            locs == locations@.map_values(|x: ProjectLocation| x@),
            i <= locations@.len(),
            ids@.no_duplicates(),
            forall|x: i64| ids@.contains(x) <==> exists|k: int| 0 <= k < i && #[trigger] locs[k].machine_id == x,
        decreases locations@.len() - i,
    {
        let m = locations[i].machine_id;
        assert(locs[i as int].machine_id == m);
        let mut seen = false;
        let mut j: usize = 0;
        while j < ids.len()
            invariant
                j <= ids@.len(),
                seen == exists|a: int| 0 <= a < j && ids@[a] == m,
            decreases ids@.len() - j,
        {
            if ids[j] == m {
                seen = true;
            }
            j = j + 1;
        }
        let ghost before = ids@;
        if !seen {
            ids.push(m);
            assert forall|a: int, b: int| 0 <= a < b < ids@.len() implies ids@[a] != ids@[b] by {
                if b == ids@.len() - 1 {
                    assert(ids@[a] == before[a]);
                }
            }
        }
        assert forall|x: i64| ids@.contains(x) <==> exists|k: int| 0 <= k < i + 1 && #[trigger] locs[k].machine_id == x by {
            if ids@.contains(x) {
                if x != m {
                    let a = choose|a: int| 0 <= a < ids@.len() && ids@[a] == x;
                    assert(before[a] == x);
                    assert(before.contains(x));
                }
            }
            if exists|k: int| 0 <= k < i + 1 && #[trigger] locs[k].machine_id == x {
                if x == m {
                    if seen {
                        let a = choose|a: int| 0 <= a < before.len() && before[a] == m;
                        assert(ids@[a] == m);
                    } else {
                        assert(ids@[ids@.len() - 1] == m);
                    }
                } else {
                    let k = choose|k: int| 0 <= k < i + 1 && #[trigger] locs[k].machine_id == x;
                    assert(k < i);
                    assert(before.contains(x));
                    let a = choose|a: int| 0 <= a < before.len() && before[a] == x;
                    assert(ids@[a] == x);
                }
            }
        }
        i = i + 1;
    }
    Ok(ids)
}

} // verus!
