//! The `check` command: every check of a development build, without writing
//! anything.

use crate::executor::{Executor, ModuleKind, PreservePrevious};
use crate::modules::pbo::Collapse;
use vstd::prelude::*;
use vstd::string::StringExecFns;

verus! {

/// Checks the project for errors
#[derive(Clone, Copy, Debug, Default, PartialEq, Eq)]
pub struct Command;

/// The plan of the `check` command: in a context named `check` that removes
/// what an earlier run left, with the output collapsed, the modules of every
/// command and then the rapifier and the binarizer in checking mode; the
/// phases are init, check, and a build that writes nothing.
pub open spec fn check_plan(plan: Executor) -> bool {
    &&& plan.name@ == "check"@
    &&& plan.preserve == PreservePrevious::Remove
    &&& plan.print_info
    &&& plan.collapse == Collapse::Yes
    &&& plan.modules@ == seq![
        ModuleKind::Global,
        ModuleKind::Rapifier,
        ModuleKind::Binarize { check_only: true },
    ]
    &&& plan.init
    &&& plan.check
    &&& plan.build == Some(false)
}

/// Execute the check command: gives the plan to run.
pub fn execute(_command: &Command) -> (plan: Executor)
    ensures
        check_plan(plan),
{
    let mut executor = Executor::new(String::from_str("check"), PreservePrevious::Remove, true);
    executor.global_modules();

    executor.collapse(Collapse::Yes);

    executor.add_module(ModuleKind::Rapifier);
    executor.add_module(ModuleKind::Binarize { check_only: true });

    executor.init();
    executor.check();
    executor.build(false);

    assert(executor.modules@ =~= seq![
        ModuleKind::Global,
        ModuleKind::Rapifier,
        ModuleKind::Binarize { check_only: true },
    ]);
    executor
}

} // verus!
