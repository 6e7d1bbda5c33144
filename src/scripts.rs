use vstd::prelude::*;

use crate::http::same_text;

verus! {

/// A script that registered itself under a name.
#[derive(Debug, Clone, Default, PartialEq, Eq)]
pub struct LuaScript {
    pub name: String,
}

/// The scripts registered so far, in the order they registered.
#[derive(Debug, Clone, Default)]
pub struct ScriptsManager {
    pub scripts: Vec<LuaScript>,
}

/// The names of `scripts`, in order.
pub open spec fn names_of(scripts: Seq<LuaScript>) -> Seq<Seq<char>> {
    scripts.map_values(|s: LuaScript| s.name@)
}

/// What a run does, given its command line and the scripts that loaded.
#[derive(Debug, Clone, Copy, PartialEq, Eq)]
pub enum RunPlan {
    /// Neither a listing nor a script was asked for.
    NoScriptGiven,
    /// List the loaded scripts.
    ListScripts,
    /// A script was named but no project path was given.
    NoProjectGiven,
    /// The named script did not load.
    UnknownScript,
    /// Run the named script on the project.
    RunScript,
}

/// The plan for a run: a listing wins over a script; a script needs a
/// project path and must be one of `names`.
pub open spec fn plan_for(
    list_scripts: bool,
    script: Option<Seq<char>>,
    has_project: bool,
    names: Seq<Seq<char>>,
) -> RunPlan {
    if !list_scripts && script is None {
        RunPlan::NoScriptGiven
    } else if list_scripts {
        RunPlan::ListScripts
    } else if !has_project {
        RunPlan::NoProjectGiven
    } else if !names.contains(script->Some_0) {
        RunPlan::UnknownScript
    } else {
        RunPlan::RunScript
    }
}

impl ScriptsManager {
    /// An empty registry.
    pub fn new() -> (r: ScriptsManager)
        ensures
            r.scripts@ == Seq::<LuaScript>::empty(),
    {
        ScriptsManager { scripts: Vec::new() }
    }

    /// Registers `s` after those already there.
    pub fn add(&mut self, s: LuaScript)
        ensures
            final(self).scripts@ == old(self).scripts@.push(s),
    {
        self.scripts.push(s);
    }

    /// The names of the registered scripts, in order.
    pub fn script_names(&self) -> (r: Vec<String>)
        ensures
            r@.len() == self.scripts@.len(),
            forall|j: int| 0 <= j < r@.len() ==> (#[trigger] r@[j])@ == self.scripts@[j].name@,
    {
        let mut out: Vec<String> = Vec::new();
        let mut i: usize = 0;
        while i < self.scripts.len()
            invariant
                i <= self.scripts@.len(),
                out@.len() == i,
                forall|j: int| 0 <= j < i ==> (#[trigger] out@[j])@ == self.scripts@[j].name@,
            decreases self.scripts@.len() - i,
        {
            out.push(self.scripts[i].name.clone());
            i = i + 1;
        }
        out
    }

    /// Whether a script is registered under `name`.
    pub fn has_script(&self, name: &str) -> (r: bool)
        ensures
            r == names_of(self.scripts@).contains(name@),
    {
        let mut i: usize = 0;
        while i < self.scripts.len()
            invariant
                i <= self.scripts@.len(),
                forall|j: int| 0 <= j < i ==> (#[trigger] self.scripts@[j]).name@ != name@,
            decreases self.scripts@.len() - i,
        {
            if same_text(self.scripts[i].name.as_str(), name) {
                assert(names_of(self.scripts@)[i as int] == name@);
                return true;
            }
            i = i + 1;
        }
        proof {
            if names_of(self.scripts@).contains(name@) {
                let j = choose|j: int|
                    0 <= j < names_of(self.scripts@).len() && names_of(self.scripts@)[j] == name@;
                assert(self.scripts@[j].name@ == name@);
            }
        }
        false
    }

    /// What a run does with these command-line choices.
    pub fn plan_run(&self, list_scripts: bool, script: Option<&str>, has_project: bool) -> (r:
        RunPlan)
        ensures
            r == plan_for(
                list_scripts,
                match script {
                    Some(s) => Some(s@),
                    None => None,
                },
                has_project,
                names_of(self.scripts@),
            ),
    {
        match script {
            None => {
                if list_scripts {
                    RunPlan::ListScripts
                } else {
                    RunPlan::NoScriptGiven
                }
            },
            Some(s) => {
                if list_scripts {
                    RunPlan::ListScripts
                } else if !has_project {
                    RunPlan::NoProjectGiven
                } else if !self.has_script(s) {
                    RunPlan::UnknownScript
                } else {
                    RunPlan::RunScript
                }
            },
        }
    }
}

} // verus!
