//! The development runner's decisions on file-system events: which changes
//! rebuild the frontend or restart the backend. Paths are given as their
//! components.

use vstd::prelude::*;

use crate::text::str_equals;

verus! {

/// The path lies within `prefix`, compared component by component.
pub open spec fn spec_path_starts_with(path: Seq<String>, prefix: Seq<String>) -> bool {
    prefix.len() <= path.len() && forall|i: int| 0 <= i < prefix.len() ==> #[trigger] path[i]@
        == prefix[i]@
}

/// The path lies within `prefix`, as `Path::starts_with` decides it.
pub fn path_starts_with(path: &Vec<String>, prefix: &Vec<String>) -> (b: bool)
    ensures
        b == spec_path_starts_with(path@, prefix@),
{
    if prefix.len() > path.len() {
        return false;
    }
    let mut i: usize = 0;
    while i < prefix.len()
        invariant
            prefix@.len() <= path@.len(),
            0 <= i <= prefix@.len(),
            forall|j: int| 0 <= j < i ==> #[trigger] path@[j]@ == prefix@[j]@,
        decreases prefix@.len() - i,
    {
        if !str_equals(path[i].as_str(), prefix[i].as_str()) {
            return false;
        }
        i = i + 1;
    }
    true
}

/// The backend restarts unless every changed path lies in its web root or
/// its database.
pub open spec fn spec_should_restart_backend(
    events: Seq<Vec<String>>,
    web_root: Seq<String>,
    data: Seq<String>,
) -> bool {
    !(forall|i: int| 0 <= i < events.len() ==> spec_path_starts_with(#[trigger] events[i]@, web_root)
        || spec_path_starts_with(events[i]@, data))
}

/// Decides whether a batch of changed paths restarts the backend.
pub fn filter_backend_events(events: &Vec<Vec<String>>, web_root: &Vec<String>, data: &Vec<String>) -> (b:
    bool)
    ensures
        b == spec_should_restart_backend(events@, web_root@, data@),
{
    let mut i: usize = 0;
    while i < events.len()
        invariant
            0 <= i <= events@.len(),
            forall|j: int| 0 <= j < i ==> spec_path_starts_with(#[trigger] events@[j]@, web_root@)
                || spec_path_starts_with(events@[j]@, data@),
        decreases events@.len() - i,
    {
        if !(path_starts_with(&events[i], web_root) || path_starts_with(&events[i], data)) {
            return true;
        }
        i = i + 1;
    }
    false
}

/// The frontend is rebuilt unless every changed path lies in its build
/// output.
pub open spec fn spec_should_rebuild_frontend(events: Seq<Vec<String>>, dist: Seq<String>) -> bool {
    !(forall|i: int| 0 <= i < events.len() ==> spec_path_starts_with(#[trigger] events[i]@, dist))
}

/// Decides whether a batch of changed paths rebuilds the frontend.
pub fn filter_frontend_events(events: &Vec<Vec<String>>, dist: &Vec<String>) -> (b: bool)
    ensures
        b == spec_should_rebuild_frontend(events@, dist@),
{
    let mut i: usize = 0;
    while i < events.len()
        invariant
            0 <= i <= events@.len(),
            forall|j: int| 0 <= j < i ==> spec_path_starts_with(#[trigger] events@[j]@, dist@),
        decreases events@.len() - i,
    {
        if !path_starts_with(&events[i], dist) {
            return true;
        }
        i = i + 1;
    }
    false
}

/// The arguments of the frontend build: with the development router, and
/// optimised when the backend is.
pub fn frontend_build_args(optimize: bool) -> (args: Vec<&'static str>)
    ensures
        args@.len() == if optimize { 4int } else { 3int },
        args@[0]@ == "build"@,
        args@[1]@ == "--features"@,
        args@[2]@ == "dev_router"@,
        optimize ==> args@[3]@ == "--release"@,
{
    let mut args: Vec<&'static str> = Vec::new();
    args.push("build");
    args.push("--features");
    args.push("dev_router");
    if optimize {
        args.push("--release");
    }
    args
}

/// The arguments of the backend build: the server that also serves the
/// frontend.
pub fn backend_build_args(optimize: bool) -> (args: Vec<&'static str>)
    ensures
        args@.len() == if optimize { 6int } else { 5int },
        args@[0]@ == "build"@,
        args@[1]@ == "--features"@,
        args@[2]@ == "serve_frontend"@,
        args@[3]@ == "--package"@,
        args@[4]@ == "backend"@,
        optimize ==> args@[5]@ == "--release"@,
{
    let mut args: Vec<&'static str> = Vec::new();
    args.push("build");
    args.push("--features");
    args.push("serve_frontend");
    args.push("--package");
    args.push("backend");
    if optimize {
        args.push("--release");
    }
    args
}

/// The arguments that run the backend.
pub fn backend_run_args(optimize: bool) -> (args: Vec<&'static str>)
    ensures
        args@.len() == if optimize { 4int } else { 3int },
        args@[0]@ == "run"@,
        args@[1]@ == "--features"@,
        args@[2]@ == "serve_frontend"@,
        optimize ==> args@[3]@ == "--release"@,
{
    let mut args: Vec<&'static str> = Vec::new();
    args.push("run");
    args.push("--features");
    args.push("serve_frontend");
    if optimize {
        args.push("--release");
    }
    args
}

/// The project root among a directory and its ancestors, nearest first: the
/// first that holds a lock file. `None` when none does.
pub fn project_root_index(has_lockfile: &Vec<bool>) -> (r: Option<usize>)
    ensures
        r matches Some(i) ==> i < has_lockfile@.len() && has_lockfile@[i as int] && forall|j: int|
            0 <= j < i ==> !#[trigger] has_lockfile@[j],
        r is None ==> forall|j: int| 0 <= j < has_lockfile@.len() ==> !#[trigger] has_lockfile@[j],
{
    let mut i: usize = 0;
    while i < has_lockfile.len()
        invariant
            0 <= i <= has_lockfile@.len(),
            forall|j: int| 0 <= j < i ==> !#[trigger] has_lockfile@[j],
        decreases has_lockfile@.len() - i,
    {
        if has_lockfile[i] {
            return Some(i);
        }
        i = i + 1;
    }
    None
}


/// The backend restarts exactly when some changed path, wherever it stands
/// in the batch, lies in neither the web root nor the database.
pub proof fn lemma_restart_iff_outside_change(
    events: Seq<Vec<String>>,
    web_root: Seq<String>,
    data: Seq<String>,
)
    ensures
        spec_should_restart_backend(events, web_root, data) <==> exists|i: int|
            0 <= i < events.len() && !spec_path_starts_with(events[i]@, web_root)
                && !spec_path_starts_with(events[i]@, data),
{
    if spec_should_restart_backend(events, web_root, data) {
        let i = choose|i: int|
            !(0 <= i < events.len() ==> spec_path_starts_with(#[trigger] events[i]@, web_root)
                || spec_path_starts_with(events[i]@, data));
        assert(0 <= i < events.len() && !spec_path_starts_with(events[i]@, web_root)
            && !spec_path_starts_with(events[i]@, data));
    }
}

/// The frontend is rebuilt exactly when some changed path, wherever it
/// stands in the batch, lies outside its build output.
pub proof fn lemma_rebuild_iff_outside_change(events: Seq<Vec<String>>, dist: Seq<String>)
    ensures
        spec_should_rebuild_frontend(events, dist) <==> exists|i: int|
            0 <= i < events.len() && !spec_path_starts_with(events[i]@, dist),
{
    if spec_should_rebuild_frontend(events, dist) {
        let i = choose|i: int|
            !(0 <= i < events.len() ==> spec_path_starts_with(#[trigger] events[i]@, dist));
        assert(0 <= i < events.len() && !spec_path_starts_with(events[i]@, dist));
    }
}

/// A path lies within a prefix exactly when its first components are the
/// prefix's components, one for one.
pub proof fn lemma_path_prefix(path: Seq<String>, prefix: Seq<String>)
    ensures
        spec_path_starts_with(path, prefix) <==> (prefix.len() <= path.len() && path.take(
            prefix.len() as int,
        ).map_values(|c: String| c@) == prefix.map_values(|c: String| c@)),
{
    if prefix.len() <= path.len() {
        let a = path.take(prefix.len() as int).map_values(|c: String| c@);
        let b = prefix.map_values(|c: String| c@);
        if spec_path_starts_with(path, prefix) {
            assert(a =~= b);
        }
        if a == b {
            assert forall|i: int| 0 <= i < prefix.len() implies #[trigger] path[i]@ == prefix[i]@ by {
                assert(a[i] == b[i]);
            }
        }
    }
}

} // verus!
