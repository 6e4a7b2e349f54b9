//! What the user configures: the statuses to leave out and the local tracks to add.

use vstd::prelude::*;
use crate::text::texts;

verus! {

/// A route travelled outside the travel log, recorded in local track files.
#[derive(Clone, Debug, PartialEq, Eq)]
pub struct Route {
    pub identifier: String,
    pub files: Vec<String>,
}

/// The configuration of a run.
#[derive(Clone, Debug, PartialEq, Eq)]
pub struct Config {
    pub ignore: Vec<String>,
    pub routes: Vec<Route>,
}

/// The track files of the first `count` routes, route by route and within a
/// route in the order listed.
pub open spec fn files_of(routes: Seq<Route>, count: int) -> Seq<String>
    decreases count,
{
    if count <= 0 {
        Seq::empty()
    } else {
        files_of(routes, count - 1) + routes[count - 1].files@
    }
}

impl Config {
    /// The rules of the ignore list, as texts.
    pub open spec fn ignore_rules(self) -> Seq<Seq<char>> {
        texts(self.ignore@)
    }

    /// Every track file that the configuration names.
    pub open spec fn all_track_files(self) -> Seq<String> {
        files_of(self.routes@, self.routes@.len() as int)
    }

    /// A configuration from its ignore list and its routes.
    pub fn new(ignore: Vec<String>, routes: Vec<Route>) -> (config: Config)
        ensures
            config.ignore == ignore,
            config.routes == routes,
    {
        Config { ignore, routes }
    }

    /// The paths of all track files, in the order in which their geometry is
    /// added to the dataset.
    pub fn track_files(&self) -> (paths: Vec<String>)
        ensures
            paths@ == self.all_track_files(),
    {
        let mut paths: Vec<String> = Vec::new();
        let mut r: usize = 0;
        while r < self.routes.len()
            invariant
                r <= self.routes.len(),
                paths@ == files_of(self.routes@, r as int),
            decreases self.routes.len() - r,
        {
            let route = &self.routes[r];
            let ghost before = paths@;
            let mut f: usize = 0;
            while f < route.files.len()
                invariant
                    f <= route.files.len(),
                    paths@ == before + route.files@.take(f as int),
                decreases route.files.len() - f,
            {
                let path = route.files[f].clone();
                paths.push(path);
                f = f + 1;
                assert(paths@ =~= before + route.files@.take(f as int));
            }
            assert(route.files@.take(f as int) =~= route.files@);
            r = r + 1;
        }
        paths
    }
}

} // verus!
