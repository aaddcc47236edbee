//! The configured repositories and the targets resolved from them.

use vstd::prelude::*;
use crate::appvars::{get_config_dir, joined, join_dir};

verus! {

/// The whole configuration: the repositories to keep in step, in order.
pub struct Config {
    pub repositories: Vec<RepositoryConfig>,
}

/// One configured repository: a folder relative to the user's configuration
/// directory, and the branch to follow.
pub struct RepositoryConfig {
    pub path: String,
    pub branch: String,
}

/// A repository to synchronize: its absolute local path and its branch.
pub struct RepositoryTarget {
    pub local_path: String,
    pub branch_name: String,
}

/// `t` is the target that configuration entry `c` resolves to under `base`.
pub open spec fn resolves_to(base: Seq<char>, c: RepositoryConfig, t: RepositoryTarget) -> bool {
    &&& t.local_path@ == joined(base, c.path@)
    &&& t.branch_name@ == c.branch@
}

/// `ts` holds, in order, the target of each entry of `cs` under `base`.
pub open spec fn resolved_under(
    base: Seq<char>,
    cs: Seq<RepositoryConfig>,
    ts: Seq<RepositoryTarget>,
) -> bool {
    &&& ts.len() == cs.len()
    &&& forall|i: int| 0 <= i < ts.len() ==> resolves_to(base, cs[i], #[trigger] ts[i])
}

/// The targets of every configured repository, in configuration order, each
/// path placed under the folder `base`.
pub fn resolve_targets_under(config: &Config, base: &str) -> (r: Vec<RepositoryTarget>)
    ensures
        resolved_under(base@, config.repositories@, r@),
{
    let mut r: Vec<RepositoryTarget> = Vec::new();
    let n = config.repositories.len();
    let mut i: usize = 0;
    while i < n
        invariant
            n == config.repositories.len(),
            i <= n,
            r.len() == i,
            forall|j: int|
                0 <= j < i ==> resolves_to(base@, config.repositories[j], #[trigger] r[j]),
        decreases n - i,
    {
        let c = &config.repositories[i];
        let t = RepositoryTarget {
            local_path: join_dir(base, c.path.as_str()),
            branch_name: c.branch.clone(),
        };
        r.push(t);
        i = i + 1;
    }
    assert(resolved_under(base@, config.repositories@, r@));
    r
}

/// The targets of every configured repository, in configuration order, under
/// the user's configuration directory; `None` when that directory cannot be
/// determined.
pub fn resolve_targets(config: &Config) -> (r: Option<Vec<RepositoryTarget>>)
    ensures
        r matches Some(ts) ==> exists|b: Seq<char>|
            #[trigger] resolved_under(b, config.repositories@, ts@),
{
    match get_config_dir() {
        Some(base) => {
            let ts = resolve_targets_under(config, base.as_str());
            let r = Some(ts);
            assert(resolved_under(base@, config.repositories@, r->0@));
            r
        },
        None => None,
    }
}

} // verus!
