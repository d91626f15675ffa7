//! The plan of a command: which modules run, and through which phases.

use crate::modules::pbo::Collapse;
use vstd::prelude::*;

verus! {

/// What becomes of the output of an earlier run.
#[derive(Clone, Copy, Debug, PartialEq, Eq, Structural)]
pub enum PreservePrevious {
    /// It is removed.
    Remove,
    /// It is kept.
    Keep,
}

/// A module of a build.
#[derive(Clone, Copy, Debug, PartialEq, Eq, Structural)]
pub enum ModuleKind {
    /// The modules that every command runs.
    Global,
    /// Turns configs into their binary form.
    Rapifier,
    /// Turns models and textures into their binary form, or only checks that
    /// it could.
    Binarize { check_only: bool },
}

/// The plan of a command.
#[derive(Debug, PartialEq, Eq)]
pub struct Executor {
    /// The name of the context, which names the output folder.
    pub name: String,
    pub preserve: PreservePrevious,
    pub print_info: bool,
    pub collapse: Collapse,
    /// The modules, in the order they run.
    pub modules: Vec<ModuleKind>,
    /// Whether the init phase runs.
    pub init: bool,
    /// Whether the check phase runs.
    pub check: bool,
    /// Whether the build phases run, and if so whether they write files.
    pub build: Option<bool>,
}

impl Executor {
    /// A plan without modules or phases, with the output not collapsed.
    pub fn new(name: String, preserve: PreservePrevious, print_info: bool) -> (r: Executor)
        ensures
            r.name == name,
            r.preserve == preserve,
            r.print_info == print_info,
            r.collapse == Collapse::No,
            r.modules@ == Seq::<ModuleKind>::empty(),
            !r.init,
            !r.check,
            r.build is None,
    {
        Executor {
            name,
            preserve,
            print_info,
            collapse: Collapse::No,
            modules: Vec::new(),
            init: false,
            check: false,
            build: None,
        }
    }

    /// Sets whether the output is collapsed.
    pub fn collapse(&mut self, collapse: Collapse)
        ensures
            *final(self) == (Executor { collapse, ..*old(self) }),
    {
        self.collapse = collapse;
    }

    /// Adds a module after those that are there.
    pub fn add_module(&mut self, module: ModuleKind)
        ensures
            final(self).modules@ == old(self).modules@.push(module),
            final(self).name == old(self).name,
            final(self).preserve == old(self).preserve,
            final(self).print_info == old(self).print_info,
            final(self).collapse == old(self).collapse,
            final(self).init == old(self).init,
            final(self).check == old(self).check,
            final(self).build == old(self).build,
    {
        self.modules.push(module);
    }

    /// Adds the modules that every command runs.
    pub fn global_modules(&mut self)
        ensures
            final(self).modules@ == old(self).modules@.push(ModuleKind::Global),
            final(self).name == old(self).name,
            final(self).preserve == old(self).preserve,
            final(self).print_info == old(self).print_info,
            final(self).collapse == old(self).collapse,
            final(self).init == old(self).init,
            final(self).check == old(self).check,
            final(self).build == old(self).build,
    {
        self.add_module(ModuleKind::Global);
    }

    /// Asks for the init phase.
    pub fn init(&mut self)
        ensures
            *final(self) == (Executor { init: true, ..*old(self) }),
    {
        self.init = true;
    }

    /// Asks for the check phase.
    pub fn check(&mut self)
        ensures
            *final(self) == (Executor { check: true, ..*old(self) }),
    {
        self.check = true;
    }

    /// Asks for the build phases, writing files or not.
    pub fn build(&mut self, write: bool)
        ensures
            *final(self) == (Executor { build: Some(write), ..*old(self) }),
    {
        self.build = Some(write);
    }
}

} // verus!
