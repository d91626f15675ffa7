//! The `hemtt` section of the project file: options of the commands.

pub mod build;
pub mod check;
pub mod dev;
pub mod launch;
pub mod release;

use self::launch::{
    deduped, filled, overlaid, LaunchFileView, LaunchOptions, LaunchOptionsFile, LaunchView,
};
use crate::common::error::{Error, ErrorView};
use crate::lists::{slot, slot_is_unique};
use crate::text::{contains, has_part};
use vstd::prelude::*;

verus! {

/// Whether no name stands twice in a list of named entries.
pub open spec fn distinct_names<T>(list: Seq<(String, T)>) -> bool {
    forall|i: int, j: int| 0 <= i < j < list.len() ==> list[i].0@ != list[j].0@
}

/// Options of the commands.
#[derive(Clone, Debug, PartialEq, Eq)]
pub struct HemttConfig {
    pub check: check::CheckOptions,
    pub dev: dev::DevOptions,
    /// The launch configurations, each with its name.
    pub launch: Vec<(String, LaunchOptions)>,
    pub build: build::BuildOptions,
    pub release: release::ReleaseOptions,
}

impl HemttConfig {
    /// Whether the launch configurations can be told apart by name: no name
    /// stands twice.
    pub open spec fn well_formed(self) -> bool {
        distinct_names(self.launch@)
    }

    /// Get the check options
    pub fn check(&self) -> (r: &check::CheckOptions)
        ensures
            r == &self.check,
    {
        &self.check
    }

    /// Get the dev options
    pub fn dev(&self) -> (r: &dev::DevOptions)
        ensures
            r == &self.dev,
    {
        &self.dev
    }

    /// Get the launch options
    pub fn launch(&self) -> (r: &Vec<(String, LaunchOptions)>)
        ensures
            r == &self.launch,
    {
        &self.launch
    }

    /// Get the build options
    pub fn build(&self) -> (r: &build::BuildOptions)
        ensures
            r == &self.build,
    {
        &self.build
    }

    /// Get the release options
    pub fn release(&self) -> (r: &release::ReleaseOptions)
        ensures
            r == &self.release,
    {
        &self.release
    }
}

/// The `hemtt` section as the project file holds it.
#[derive(Clone, Debug, PartialEq, Eq)]
pub struct HemttSectionFile {
    pub check: check::CheckOptionsFile,
    pub dev: dev::DevOptionsFile,
    /// The launch configurations, each with its name.
    pub launch: Vec<(String, LaunchOptionsFile)>,
    pub build: build::BuildOptionsFile,
    pub release: release::ReleaseOptionsFile,
}

/// The names of a list of launch configurations, in order.
pub open spec fn names(source: Seq<(String, LaunchOptionsFile)>) -> Seq<Seq<char>> {
    source.map_values(|entry: (String, LaunchOptionsFile)| entry.0@)
}

/// The launch configurations of a list, in order, each with its name.
pub open spec fn launch_views(list: Seq<(String, LaunchOptions)>) -> Seq<(Seq<char>, LaunchView)> {
    list.map_values(|entry: (String, LaunchOptions)| (entry.0@, entry.1@))
}

/// The text that a launch file must not hold: its configurations stand at the
/// top of the file, not under the section of the project file.
pub open spec fn nested_marker() -> Seq<char> {
    "[hemtt.launch"@
}

/// The reason given for a launch file that holds the marker.
pub open spec fn nested_reason() -> Seq<char> {
    "Configs in `launch.toml` do not need to be under `[hemtt.launch]`."@
}

/// The configuration named `name` with everything laid under it that it
/// extends, directly or through others.
///
/// `base` is what has been put together so far. As long as it extends a
/// parent, the parent is looked up by name among `source` and `base` is laid
/// over it. A configuration that comes back to itself, or that extends a name
/// that is not there, is an error. `budget` is the number of parents that may
/// still be visited: a chain that has used it up has gone round in a circle,
/// and the error names the parent it was about to visit again.
pub open spec fn resolved(
    source: Seq<(String, LaunchOptionsFile)>,
    name: Seq<char>,
    base: LaunchFileView,
    budget: nat,
) -> Result<LaunchFileView, ErrorView>
    decreases budget,
{
    match base.extends {
        None => Ok(base),
        Some(parent) => {
            let at = slot(names(source), parent);
            if parent == name {
                Err(ErrorView::LaunchConfigExtendsSelf(name))
            } else if at >= source.len() {
                Err(ErrorView::LaunchConfigExtendsMissing(name, parent))
            } else if budget == 0 {
                Err(ErrorView::LaunchConfigExtendsSelf(parent))
            } else {
                resolved(source, name, overlaid(base, source[at].1@), (budget - 1) as nat)
            }
        },
    }
}

/// The launch configuration at index `i`, resolved, with every entry of its
/// lists kept once and every default filled in.
pub open spec fn launch_of(source: Seq<(String, LaunchOptionsFile)>, i: int) -> Result<
    LaunchView,
    ErrorView,
> {
    match resolved(source, source[i].0@, source[i].1@, source.len()) {
        Ok(file) => Ok(filled(deduped(file))),
        Err(e) => Err(e),
    }
}

/// The first `n` launch configurations, each resolved, or the error of the
/// first that cannot be resolved.
pub open spec fn launches(source: Seq<(String, LaunchOptionsFile)>, n: nat) -> Result<
    Seq<(Seq<char>, LaunchView)>,
    ErrorView,
>
    decreases n,
{
    if n == 0 || n > source.len() {
        Ok(Seq::empty())
    } else {
        match launches(source, (n - 1) as nat) {
            Err(e) => Err(e),
            Ok(list) => match launch_of(source, n - 1) {
                Err(e) => Err(e),
                Ok(launch) => Ok(list.push((source[n - 1].0@, launch))),
            },
        }
    }
}

/// The resolved launch configurations stand under the names of their
/// sources, in the same order.
pub proof fn launches_keep_names(source: Seq<(String, LaunchOptionsFile)>, n: nat)
    requires
        n <= source.len(),
    ensures
        launches(source, n) matches Ok(list) ==> list.len() == n && forall|i: int|
            0 <= i < n ==> (#[trigger] list[i]).0 == source[i].0@,
    decreases n,
{
    if n > 0 {
        launches_keep_names(source, (n - 1) as nat);
    }
}

/// Once resolving a list has failed, more entries change nothing.
proof fn launches_stop(source: Seq<(String, LaunchOptionsFile)>, k: nat, n: nat)
    requires
        k <= n <= source.len(),
        launches(source, k) is Err,
    ensures
        launches(source, n) == launches(source, k),
    decreases n,
{
    if n > k {
        launches_stop(source, k, (n - 1) as nat);
    }
}

/// The index of the first entry with the given name, or the number of
/// entries where none has it.
fn find(source: &Vec<(String, LaunchOptionsFile)>, name: &String) -> (r: usize)
    ensures
        r == slot(names(source@), name@),
        r <= source@.len(),
{
    let mut i: usize = 0;
    while i < source.len()
        invariant
            i <= source.len(),
            forall|j: int| 0 <= j < i ==> names(source@)[j] != name@,
        decreases source.len() - i,
    {
        if source[i].0 == *name {
            proof {
                slot_is_unique(names(source@), name@, i as int);
            }
            return i;
        }
        i += 1;
    }
    proof {
        slot_is_unique(names(source@), name@, i as int);
    }
    i
}

/// Resolves the launch configuration at index `i`.
fn resolve(source: &Vec<(String, LaunchOptionsFile)>, i: usize) -> (r: Result<
    LaunchOptions,
    Error,
>)
    requires
        i < source@.len(),
    ensures
        match launch_of(source@, i as int) {
            Ok(launch) => r matches Ok(options) && options@ == launch,
            Err(e) => r matches Err(f) && f@ == e,
        },
{
    let name = &source[i].0;
    let mut base = source[i].1.copy();
    let mut budget: usize = source.len();
    loop
        invariant
            i < source@.len(),
            name@ == source@[i as int].0@,
            budget <= source@.len(),
            resolved(source@, name@, base@, budget as nat) == resolved(
                source@,
                source@[i as int].0@,
                source@[i as int].1@,
                source@.len(),
            ),
        decreases budget,
    {
        let at = match &base.extends {
            None => {
                return Ok(base.dedup().into_options());
            },
            Some(extends) => {
                if *extends == *name {
                    return Err(Error::LaunchConfigExtendsSelf(name.clone()));
                }
                let at = find(source, extends);
                if at >= source.len() {
                    return Err(Error::LaunchConfigExtendsMissing(name.clone(), extends.clone()));
                }
                if budget == 0 {
                    return Err(Error::LaunchConfigExtendsSelf(extends.clone()));
                }
                at
            },
        };
        base = base.overlay(source[at].1.copy());
        budget -= 1;
    }
}

impl HemttSectionFile {
    /// Whether a launch file beside the project file may be read: only where
    /// the section holds no launch configurations of its own.
    pub fn launch_file_allowed(&self) -> (r: Result<(), Error>)
        ensures
            r is Ok <==> self.launch@.len() == 0,
            r matches Err(e) ==> e@ == ErrorView::LaunchConfigConflict,
    {
        if self.launch.len() == 0 {
            Ok(())
        } else {
            Err(Error::LaunchConfigConflict)
        }
    }

    /// Checks the text of a launch file before it is parsed: its
    /// configurations must not stand under the section of the project file.
    pub fn check_launch_file(launch_source: &str) -> (r: Result<(), Error>)
        ensures
            r is Ok <==> !has_part(launch_source@, nested_marker()),
            r matches Err(e) ==> e@ == ErrorView::ConfigInvalid(nested_reason()),
    {
        if contains(launch_source, "[hemtt.launch") {
            Err(
                Error::ConfigInvalid(
                    "Configs in `launch.toml` do not need to be under `[hemtt.launch]`.".to_owned(),
                ),
            )
        } else {
            Ok(())
        }
    }

    /// The launch configurations that count: those of the launch file where
    /// there is one, else those of the section. Both at once is an error.
    pub open spec fn launch_source(self, launch_file: Option<Vec<(String, LaunchOptionsFile)>>)
        -> Result<Seq<(String, LaunchOptionsFile)>, ErrorView> {
        match launch_file {
            Some(file) => if self.launch@.len() == 0 {
                Ok(file@)
            } else {
                Err(ErrorView::LaunchConfigConflict)
            },
            None => Ok(self.launch@),
        }
    }

    /// Turns the section into the options of the commands.
    ///
    /// `launch_file` holds the launch configurations of the launch file
    /// beside the project file, where that file exists. Every launch
    /// configuration is resolved against the others of its source; the first
    /// that cannot be resolved gives the error. Everything else has its
    /// defaults filled in, the release folder from `prefix`.
    ///
    /// The result holds one launch configuration for each of the source,
    /// under the same name and at the same place, so it is well formed where
    /// no name stands twice in the source. Where a name does stand twice,
    /// each of its entries is resolved, and a configuration that extends the
    /// name extends the first of them.
    pub fn into_config(
        self,
        launch_file: Option<Vec<(String, LaunchOptionsFile)>>,
        prefix: &str,
    ) -> (r: Result<HemttConfig, Error>)
        ensures
            match self.launch_source(launch_file) {
                Err(e) => r matches Err(f) && f@ == e,
                Ok(source) => match launches(source, source.len()) {
                    Err(e) => r matches Err(f) && f@ == e,
                    Ok(list) => {
                        &&& r matches Ok(config)
                        &&& launch_views(config.launch@) == list
                        &&& config.launch@.len() == source.len()
                        &&& forall|i: int|
                            0 <= i < source.len() ==> (#[trigger] config.launch@[i]).0@
                                == source[i].0@
                        &&& distinct_names(source) ==> config.well_formed()
                        &&& config.check == self.check.filled()
                        &&& config.dev.exclude == self.dev.exclude
                        &&& config.build == self.build.filled()
                        &&& config.release.folder@ == (match self.release.folder {
                            Some(folder) => folder@,
                            None => prefix@,
                        })
                        &&& config.release.sign == (match self.release.sign {
                            Some(sign) => sign,
                            None => true,
                        })
                        &&& config.release.archive == (match self.release.archive {
                            Some(archive) => archive,
                            None => true,
                        })
                    },
                },
            },
    {
        let ghost wanted = self.launch_source(launch_file);
        let launch_source = match launch_file {
            Some(file) => {
                if self.launch.len() == 0 {
                    file
                } else {
                    return Err(Error::LaunchConfigConflict);
                }
            },
            None => self.launch,
        };
        let mut launch: Vec<(String, LaunchOptions)> = Vec::new();
        let mut i: usize = 0;
        assert(launch_views(launch@) =~= Seq::empty());
        while i < launch_source.len()
            invariant
                i <= launch_source.len(),
                wanted == Ok::<Seq<(String, LaunchOptionsFile)>, ErrorView>(launch_source@),
                wanted == self.launch_source(launch_file),
                launches(launch_source@, i as nat) == Ok::<
                    Seq<(Seq<char>, LaunchView)>,
                    ErrorView,
                >(launch_views(launch@)),
            decreases launch_source.len() - i,
        {
            let ghost before = launch_views(launch@);
            match resolve(&launch_source, i) {
                Err(e) => {
                    proof {
                        launches_stop(launch_source@, (i + 1) as nat, launch_source@.len());
                    }
                    return Err(e);
                },
                Ok(options) => {
                    let ghost value = options@;
                    launch.push((launch_source[i].0.clone(), options));
                    assert(launch_views(launch@) =~= before.push(
                        (launch_source@[i as int].0@, value),
                    ));
                },
            }
            i += 1;
        }
        proof {
            launches_keep_names(launch_source@, launch_source@.len());
            assert forall|k: int| 0 <= k < launch_source@.len() implies (#[trigger] launch@[k]).0@
                == launch_source@[k].0@ by {
                assert(launch_views(launch@)[k].0 == launch@[k].0@);
            }
        }
        Ok(
            HemttConfig {
                check: self.check.into_options(),
                dev: self.dev.into_options(),
                launch,
                build: self.build.into_options(),
                release: self.release.into_config(prefix),
            },
        )
    }
}

} // verus!
