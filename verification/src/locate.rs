//! The candidate locator: where might a backend artifact live?
//!
//! From three best-effort environment inputs — the current working directory,
//! the running executable's path, and the application's bundled-resource
//! directory — the locator produces the ordered list of locations to search.
//! The order is a design contract, not an implementation detail: development
//! layouts come first, then increasingly unusual packaged layouts, so the
//! common cases short-circuit the search, and the order decides which
//! artifact wins when several exist. An entry whose prerequisite input cannot
//! be resolved is silently absent from the list, never an error.

use vstd::prelude::*;

use crate::config::Config;
use crate::path::FsPath;

verus! {

/// The filesystem facts the locator starts from. Each is best-effort: `None`
/// where the environment cannot resolve it. The executable path, when
/// present, names the executable file itself (its directory is its parent).
pub struct EnvPaths {
    pub current_dir: Option<FsPath>,
    pub exe_path: Option<FsPath>,
    pub resource_dir: Option<FsPath>,
}

/// First priority: the backend directory as a sibling of the current working
/// directory — a development checkout, with the backend checked out beside
/// the application.
pub open spec fn dev_checkout_candidate(env: EnvPaths, cfg: Config) -> Option<Seq<Seq<char>>> {
    match env.current_dir {
        Some(cwd) => if cwd@.len() > 0 {
            Some(cwd@.drop_last().push(cfg.backend_dir_name@))
        } else {
            None
        },
        None => None,
    }
}

/// Second priority: the bundled-resource directory itself — a packaged
/// layout with the backend's files at the resource root.
pub open spec fn resource_root_candidate(env: EnvPaths, cfg: Config) -> Option<Seq<Seq<char>>> {
    match env.resource_dir {
        Some(res) => Some(res@),
        None => None,
    }
}

/// Third priority: the backend directory under the bundled-resource
/// directory — a packaged layout, nested.
pub open spec fn resource_backend_candidate(env: EnvPaths, cfg: Config) -> Option<
    Seq<Seq<char>>,
> {
    match env.resource_dir {
        Some(res) => Some(res@.push(cfg.backend_dir_name@)),
        None => None,
    }
}

/// Fourth priority: the packaging escape-hatch directory beside the running
/// executable, then the backend directory under it — the quirk of a
/// packaging pipeline that places bundled extras outside the resource tree.
pub open spec fn exe_up_candidate(env: EnvPaths, cfg: Config) -> Option<Seq<Seq<char>>> {
    match env.exe_path {
        Some(exe) => if exe@.len() > 0 {
            Some(exe@.drop_last().push(cfg.up_dir_name@).push(cfg.backend_dir_name@))
        } else {
            None
        },
        None => None,
    }
}

/// Fifth priority: the same escape-hatch convention, rooted at the
/// bundled-resource directory instead of the executable's directory.
pub open spec fn resource_up_candidate(env: EnvPaths, cfg: Config) -> Option<Seq<Seq<char>>> {
    match env.resource_dir {
        Some(res) => Some(res@.push(cfg.up_dir_name@).push(cfg.backend_dir_name@)),
        None => None,
    }
}

/// Sixth priority: the backend directory directly beside the running
/// executable — an alternate packaged layout.
pub open spec fn exe_sibling_candidate(env: EnvPaths, cfg: Config) -> Option<Seq<Seq<char>>> {
    match env.exe_path {
        Some(exe) => if exe@.len() > 0 {
            Some(exe@.drop_last().push(cfg.backend_dir_name@))
        } else {
            None
        },
        None => None,
    }
}

/// Seventh priority: the backend directory one level further up from the
/// executable's directory — an alternate nested packaged layout.
pub open spec fn exe_parent_candidate(env: EnvPaths, cfg: Config) -> Option<Seq<Seq<char>>> {
    match env.exe_path {
        Some(exe) => if exe@.len() > 1 {
            Some(exe@.drop_last().drop_last().push(cfg.backend_dir_name@))
        } else {
            None
        },
        None => None,
    }
}

/// A present candidate as a one-element sequence, an absent one as the empty
/// sequence.
pub open spec fn opt_candidate_seq(c: Option<Seq<Seq<char>>>) -> Seq<Seq<Seq<char>>> {
    match c {
        Some(p) => seq![p],
        None => Seq::empty(),
    }
}

/// The full candidate list, in priority order: exactly the seven layout
/// hypotheses above, each present or absent, concatenated in order.
pub open spec fn candidate_views(env: EnvPaths, cfg: Config) -> Seq<Seq<Seq<char>>> {
    opt_candidate_seq(dev_checkout_candidate(env, cfg)) + opt_candidate_seq(
        resource_root_candidate(env, cfg),
    ) + opt_candidate_seq(resource_backend_candidate(env, cfg)) + opt_candidate_seq(
        exe_up_candidate(env, cfg),
    ) + opt_candidate_seq(resource_up_candidate(env, cfg)) + opt_candidate_seq(
        exe_sibling_candidate(env, cfg),
    ) + opt_candidate_seq(exe_parent_candidate(env, cfg))
}

/// The view of a vector of paths: each path as its segment sequences.
pub open spec fn path_views(cands: Seq<FsPath>) -> Seq<Seq<Seq<char>>> {
    cands.map_values(|p: FsPath| p@)
}

/// Builds the ordered candidate list of a run from the environment inputs.
pub fn candidate_paths(env: &EnvPaths, cfg: &Config) -> (cands: Vec<FsPath>)
    ensures
        path_views(cands@) == candidate_views(*env, *cfg),
{
    let mut cands: Vec<FsPath> = Vec::new();

    match &env.current_dir {
        Some(cwd) => match cwd.parent() {
            Some(par) => cands.push(par.joined(&cfg.backend_dir_name)),
            None => {},
        },
        None => {},
    }
    assert(path_views(cands@) =~= opt_candidate_seq(dev_checkout_candidate(*env, *cfg)));

    match &env.resource_dir {
        Some(res) => cands.push(res.clone()),
        None => {},
    }
    assert(path_views(cands@) =~= opt_candidate_seq(dev_checkout_candidate(*env, *cfg))
        + opt_candidate_seq(resource_root_candidate(*env, *cfg)));

    match &env.resource_dir {
        Some(res) => cands.push(res.joined(&cfg.backend_dir_name)),
        None => {},
    }
    assert(path_views(cands@) =~= opt_candidate_seq(dev_checkout_candidate(*env, *cfg))
        + opt_candidate_seq(resource_root_candidate(*env, *cfg)) + opt_candidate_seq(
        resource_backend_candidate(*env, *cfg),
    ));

    match &env.exe_path {
        Some(exe) => match exe.parent() {
            Some(par) => cands.push(par.joined(&cfg.up_dir_name).joined(&cfg.backend_dir_name)),
            None => {},
        },
        None => {},
    }
    assert(path_views(cands@) =~= opt_candidate_seq(dev_checkout_candidate(*env, *cfg))
        + opt_candidate_seq(resource_root_candidate(*env, *cfg)) + opt_candidate_seq(
        resource_backend_candidate(*env, *cfg),
    ) + opt_candidate_seq(exe_up_candidate(*env, *cfg)));

    match &env.resource_dir {
        Some(res) => cands.push(res.joined(&cfg.up_dir_name).joined(&cfg.backend_dir_name)),
        None => {},
    }
    assert(path_views(cands@) =~= opt_candidate_seq(dev_checkout_candidate(*env, *cfg))
        + opt_candidate_seq(resource_root_candidate(*env, *cfg)) + opt_candidate_seq(
        resource_backend_candidate(*env, *cfg),
    ) + opt_candidate_seq(exe_up_candidate(*env, *cfg)) + opt_candidate_seq(
        resource_up_candidate(*env, *cfg),
    ));

    match &env.exe_path {
        Some(exe) => match exe.parent() {
            Some(par) => cands.push(par.joined(&cfg.backend_dir_name)),
            None => {},
        },
        None => {},
    }
    assert(path_views(cands@) =~= opt_candidate_seq(dev_checkout_candidate(*env, *cfg))
        + opt_candidate_seq(resource_root_candidate(*env, *cfg)) + opt_candidate_seq(
        resource_backend_candidate(*env, *cfg),
    ) + opt_candidate_seq(exe_up_candidate(*env, *cfg)) + opt_candidate_seq(
        resource_up_candidate(*env, *cfg),
    ) + opt_candidate_seq(exe_sibling_candidate(*env, *cfg)));

    match &env.exe_path {
        Some(exe) => match exe.parent() {
            Some(par) => match par.parent() {
                Some(grand) => cands.push(grand.joined(&cfg.backend_dir_name)),
                None => {},
            },
            None => {},
        },
        None => {},
    }
    assert(path_views(cands@) =~= candidate_views(*env, *cfg));

    cands
}

} // verus!
