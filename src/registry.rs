//! The catalog of collectors: a name, and the command-line description shown
//! for it, per registration.

use vstd::prelude::*;

verus! {

/// One collector's entry in the catalog. The name is the key callers look
/// it up by; version and description are stored for the command line only.
#[derive(Clone, Debug, PartialEq, Eq)]
pub struct CommandRegistration {
    pub name: String,
    pub version: String,
    pub about: String,
}

/// The catalog, in registration order. Names are expected to be unique;
/// where they are not, lookups find the earliest registration.
#[derive(Clone, Debug)]
pub struct Registry {
    pub entries: Vec<CommandRegistration>,
}

/// `i` is the earliest registration named `name`.
pub open spec fn is_first_registration(regs: Seq<CommandRegistration>, name: Seq<char>, i: int) -> bool {
    &&& 0 <= i < regs.len()
    &&& regs[i].name@ == name
    &&& forall|k: int| 0 <= k < i ==> regs[k].name@ != name
}

pub open spec fn is_registered(regs: Seq<CommandRegistration>, name: Seq<char>) -> bool {
    exists|j: int| 0 <= j < regs.len() && regs[j].name@ == name
}

pub open spec fn names_unique(regs: Seq<CommandRegistration>) -> bool {
    forall|i: int, j: int| 0 <= i < j < regs.len() ==> regs[i].name@ != regs[j].name@
}

impl Registry {
    pub fn new() -> (r: Registry)
        ensures
            r.entries@ == Seq::<CommandRegistration>::empty(),
    {
        Registry { entries: Vec::new() }
    }

    /// Adds a registration after all earlier ones. No duplicate check is made.
    pub fn register(&mut self, registration: CommandRegistration)
        ensures
            final(self).entries@ == old(self).entries@.push(registration),
    {
        self.entries.push(registration);
    }

    /// Every registration, in registration order.
    pub fn all(&self) -> (r: &Vec<CommandRegistration>)
        ensures
            r@ == self.entries@,
    {
        &self.entries
    }

    /// The position of the earliest registration whose name is exactly `name`.
    pub fn find(&self, name: &String) -> (r: Option<usize>)
        ensures
            r matches Some(i) ==> is_first_registration(self.entries@, name@, i as int),
            r is None ==> !is_registered(self.entries@, name@),
    {
        let mut i: usize = 0;
        while i < self.entries.len()
            invariant
                i <= self.entries.len(),
                forall|k: int| 0 <= k < i ==> self.entries@[k].name@ != name@,
            decreases self.entries.len() - i,
        {
            if self.entries[i].name == *name {
                return Some(i);
            }
            i = i + 1;
        }
        None
    }
}

/// The registration to build a collector from for `name`: the earliest one
/// of that exact name, or `None` when no registration has it.
pub fn get_command<'a>(registry: &'a Registry, name: &String) -> (r: Option<&'a CommandRegistration>)
    ensures
        r matches Some(reg) ==> exists|i: int|
            is_first_registration(registry.entries@, name@, i) && registry.entries@[i] == *reg,
        r is None ==> !is_registered(registry.entries@, name@),
{
    match registry.find(name) {
        Some(i) => Some(&registry.entries[i]),
        None => None,
    }
}

/// With unique names, a lookup by a registered name lands on exactly the
/// registration made under it, and a name never registered is not found.
pub proof fn lemma_lookup_unique(regs: Seq<CommandRegistration>, name: Seq<char>, i: int, j: int)
    requires
        names_unique(regs),
        0 <= j < regs.len(),
        regs[j].name@ == name,
    ensures
        is_first_registration(regs, name, i) <==> i == j,
        is_registered(regs, name),
{
}

} // verus!
