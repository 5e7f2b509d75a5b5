//! The collection of workspaces, created by name at startup.

use vstd::prelude::*;

use crate::workspace::Workspace;

verus! {

pub struct WorkspaceContainer {
    pub workspaces: Vec<Workspace>,
}

impl WorkspaceContainer {
    /// Every workspace is well formed.
    pub open spec fn wf(self) -> bool {
        forall|i: int| 0 <= i < self.workspaces@.len() ==> (#[trigger] self.workspaces@[i]).wf()
    }

    pub fn new() -> (r: WorkspaceContainer)
        ensures
            r.wf(),
            r.workspaces@.len() == 0,
    {
        WorkspaceContainer { workspaces: Vec::new() }
    }

    /// Adds a fresh workspace under the given name.
    pub fn create_workspace(&mut self, name: &str)
        requires
            old(self).wf(),
        ensures
            final(self).wf(),
            final(self).workspaces@.len() == old(self).workspaces@.len() + 1,
            forall|i: int| 0 <= i < old(self).workspaces@.len()
                ==> (#[trigger] final(self).workspaces@[i]) == old(self).workspaces@[i],
            final(self).workspaces@.last().name@ == name@,
            final(self).workspaces@.last().windows@.len() == 0,
    {
        let workspace = Workspace::new(name);
        self.workspaces.push(workspace);
    }

    /// Adds one fresh workspace per name, in order.
    pub fn create_workspaces(&mut self, names: Vec<&str>)
        requires
            old(self).wf(),
        ensures
            final(self).wf(),
            final(self).workspaces@.len() == old(self).workspaces@.len() + names@.len(),
            forall|i: int| 0 <= i < old(self).workspaces@.len()
                ==> (#[trigger] final(self).workspaces@[i]) == old(self).workspaces@[i],
            forall|i: int| 0 <= i < names@.len()
                ==> (#[trigger] final(self).workspaces@[old(self).workspaces@.len() + i]).name@ == names@[i]@,
    {
        let ghost base = self.workspaces@;
        let mut i: usize = 0;
        while i < names.len()
            invariant
                0 <= i <= names@.len(),
                self.wf(),
                self.workspaces@.len() == base.len() + i,
                forall|j: int| 0 <= j < base.len() ==> (#[trigger] self.workspaces@[j]) == base[j],
                forall|j: int| 0 <= j < i
                    ==> (#[trigger] self.workspaces@[base.len() + j]).name@ == names@[j]@,
            decreases names@.len() - i,
        {
            self.create_workspace(names[i]);
            i = i + 1;
        }
    }
}

impl Default for WorkspaceContainer {
    fn default() -> (r: WorkspaceContainer)
        ensures
            r.wf(),
            r.workspaces@.len() == 0,
    {
        WorkspaceContainer { workspaces: Vec::new() }
    }
}

} // verus!
