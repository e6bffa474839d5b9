//! Tool kinds, the global tool catalog, sets of tool kinds and the tool gate.

use vstd::prelude::*;

verus! {

/// The kinds of tool the assistant can ask for.
#[derive(Clone, Copy, PartialEq, Eq, Structural, Debug, Hash)]
pub enum ToolKind {
    ExecuteBashCmd,
    ReadFile,
    WriteFile,
    ListFiles,
}

/// The global tool catalog, in the order in which tools are offered to the model.
pub open spec fn tool_catalog() -> Seq<ToolKind> {
    seq![ToolKind::ExecuteBashCmd, ToolKind::ReadFile, ToolKind::WriteFile, ToolKind::ListFiles]
}

/// Returns the global tool catalog.
pub fn catalog() -> (c: Vec<ToolKind>)
    ensures
        c@ == tool_catalog(),
{
    let mut c: Vec<ToolKind> = Vec::new();
    c.push(ToolKind::ExecuteBashCmd);
    c.push(ToolKind::ReadFile);
    c.push(ToolKind::WriteFile);
    c.push(ToolKind::ListFiles);
    c
}

/// A set of tool kinds, held as one flag per kind, so that no kind can occur in it twice.
#[derive(Clone, Copy, PartialEq, Eq, Debug)]
pub struct ToolSet {
    execute_bash_cmd: bool,
    read_file: bool,
    write_file: bool,
    list_files: bool,
}

impl View for ToolSet {
    type V = Set<ToolKind>;

    closed spec fn view(&self) -> Set<ToolKind> {
        Set::new(
            |kind: ToolKind|
                match kind {
                    ToolKind::ExecuteBashCmd => self.execute_bash_cmd,
                    ToolKind::ReadFile => self.read_file,
                    ToolKind::WriteFile => self.write_file,
                    ToolKind::ListFiles => self.list_files,
                },
        )
    }
}

impl DeepView for ToolSet {
    type V = Set<ToolKind>;

    open spec fn deep_view(&self) -> Set<ToolKind> {
        self@
    }
}

impl ToolSet {
    /// The empty set.
    pub fn new() -> (set: ToolSet)
        ensures
            set@ == Set::<ToolKind>::empty(),
    {
        let set = ToolSet {
            execute_bash_cmd: false,
            read_file: false,
            write_file: false,
            list_files: false,
        };
        set
    }

    /// Whether `kind` is in the set.
    pub fn contains(&self, kind: ToolKind) -> (found: bool)
        ensures
            found == self@.contains(kind),
    {
        match kind {
            ToolKind::ExecuteBashCmd => self.execute_bash_cmd,
            ToolKind::ReadFile => self.read_file,
            ToolKind::WriteFile => self.write_file,
            ToolKind::ListFiles => self.list_files,
        }
    }

    /// Puts `kind` into the set when `member` holds, and takes it out otherwise.
    pub fn set(&mut self, kind: ToolKind, member: bool)
        ensures
            final(self)@ == if member {
                old(self)@.insert(kind)
            } else {
                old(self)@.remove(kind)
            },
    {
        match kind {
            ToolKind::ExecuteBashCmd => {
                self.execute_bash_cmd = member;
            },
            ToolKind::ReadFile => {
                self.read_file = member;
            },
            ToolKind::WriteFile => {
                self.write_file = member;
            },
            ToolKind::ListFiles => {
                self.list_files = member;
            },
        }
    }

    /// Takes `kind` out of the set if it is a member, and puts it in if it is not.
    pub fn toggle(&mut self, kind: ToolKind)
        ensures
            final(self)@ == if old(self)@.contains(kind) {
                old(self)@.remove(kind)
            } else {
                old(self)@.insert(kind)
            },
    {
        let member = self.contains(kind);
        self.set(kind, !member);
    }

    /// The members of the set that occur in `catalog`, in the order of `catalog`.
    pub fn select(&self, catalog: &Vec<ToolKind>) -> (chosen: Vec<ToolKind>)
        ensures
            chosen@ == catalog@.filter(|kind: ToolKind| self@.contains(kind)),
    {
        let ghost member = |kind: ToolKind| self@.contains(kind);
        let mut chosen: Vec<ToolKind> = Vec::new();
        let mut i: usize = 0;
        proof {
            reveal(Seq::filter);
        }
        while i < catalog.len()
            invariant
                i <= catalog.len(),
                member == |kind: ToolKind| self@.contains(kind),
                chosen@ == catalog@.take(i as int).filter(member),
            decreases catalog.len() - i,
        {
            let kind = catalog[i];
            proof {
                let before = catalog@.take(i as int);
                assert(catalog@.take(i + 1) =~= before.push(kind));
                before.lemma_filter_push(kind, member);
            }
            if self.contains(kind) {
                chosen.push(kind);
            }
            i += 1;
        }
        assert(catalog@.take(i as int) =~= catalog@);
        chosen
    }
}

/// The policy that decides, per tool kind, whether a call needs a human's approval before it
/// runs. The policy table is the set of kinds that need approval; every other kind runs at once.
#[derive(Clone, Copy, PartialEq, Eq, Debug)]
pub struct ToolGate {
    gated: ToolSet,
}

impl View for ToolGate {
    type V = Set<ToolKind>;

    closed spec fn view(&self) -> Set<ToolKind> {
        self.gated@
    }
}

impl DeepView for ToolGate {
    type V = Set<ToolKind>;

    open spec fn deep_view(&self) -> Set<ToolKind> {
        self@
    }
}

/// The policy in force until it is configured otherwise: shell commands run at once, every
/// other kind of call waits for approval.
pub open spec fn default_policy() -> Set<ToolKind> {
    Set::new(|kind: ToolKind| kind != ToolKind::ExecuteBashCmd)
}

impl ToolGate {
    /// A gate under which exactly the kinds in `gated` need approval.
    pub fn new(gated: ToolSet) -> (gate: ToolGate)
        ensures
            gate@ == gated@,
    {
        ToolGate { gated }
    }

    /// A gate with the default policy.
    pub fn with_default_policy() -> (gate: ToolGate)
        ensures
            gate@ == default_policy(),
    {
        let mut gated = ToolSet::new();
        gated.set(ToolKind::ReadFile, true);
        gated.set(ToolKind::WriteFile, true);
        gated.set(ToolKind::ListFiles, true);
        ToolGate { gated }
    }

    /// Whether a call of this kind has to wait for approval.
    pub fn requires_approval(&self, kind: ToolKind) -> (gated: bool)
        ensures
            gated == self@.contains(kind),
    {
        self.gated.contains(kind)
    }

    /// Whether a call of this kind is executed without asking.
    pub fn auto_executes(&self, kind: ToolKind) -> (auto: bool)
        ensures
            auto == !self@.contains(kind),
    {
        !self.gated.contains(kind)
    }

    /// Sets the policy for one kind and leaves the policy for every other kind as it was.
    pub fn set_requires_approval(&mut self, kind: ToolKind, gated: bool)
        ensures
            final(self)@ == if gated {
                old(self)@.insert(kind)
            } else {
                old(self)@.remove(kind)
            },
    {
        self.gated.set(kind, gated);
    }
}

} // verus!
