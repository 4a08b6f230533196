//! Groups: collectors made of other registered collectors, run one after the
//! other, whose tables are spliced into one flat sequence.

use vstd::prelude::*;
use vstd::string::*;
use crate::dto::{tables_of, CommandDTO, CommandResult, ErrorKind};
use crate::registry::{is_first_registration, is_registered, Registry};

verus! {

/// A collector made of other collectors, named by their registrations.
pub trait CommandGroup {
    spec fn member_names(&self) -> Seq<Seq<char>>;

    /// The member names, in the order they run.
    fn commands(&self) -> (r: Vec<String>)
        ensures
            r@.map_values(|s: String| s@) == self.member_names(),
    ;
}

/// The group registered as `group:misc`.
pub struct MiscGroup {}

impl CommandGroup for MiscGroup {
    open spec fn member_names(&self) -> Seq<Seq<char>> {
        seq!["antivirus"@, "amsiproviders"@]
    }

    fn commands(&self) -> (r: Vec<String>) {
        let r = vec![String::from_str("antivirus"), String::from_str("amsiproviders")];
        assert(r@.map_values(|s: String| s@) =~= self.member_names());
        r
    }
}

impl Default for MiscGroup {
    fn default() -> (r: MiscGroup)
        ensures
            r == (MiscGroup {}),
    {
        MiscGroup {}
    }
}

/// The tables of a sequence of results, each result's own tables in place,
/// in order.
pub open spec fn flatten(rs: Seq<CommandResult>) -> Seq<CommandDTO>
    decreases rs.len(),
{
    if rs.len() == 0 {
        Seq::empty()
    } else {
        flatten(rs.drop_last()) + tables_of(rs.last())
    }
}

/// Flattening distributes over concatenation.
pub proof fn lemma_flatten_concat(a: Seq<CommandResult>, b: Seq<CommandResult>)
    ensures
        flatten(a + b) == flatten(a) + flatten(b),
    decreases b.len(),
{
    if b.len() == 0 {
        assert(a + b =~= a);
        assert(flatten(b) =~= Seq::<CommandDTO>::empty());
        assert(flatten(a) + flatten(b) =~= flatten(a));
    } else {
        lemma_flatten_concat(a, b.drop_last());
        assert((a + b).drop_last() =~= a + b.drop_last());
        assert(flatten(a + b) =~= flatten(a) + flatten(b));
    }
}

/// A group's output is the concatenation, in member order, of what each
/// member produced: one table for a single result, the whole sequence for a
/// group result. Where member `k` is itself a group whose output flattened
/// `inner`, that output stands spliced in place, so nesting of any depth
/// flattens the same way.
pub proof fn lemma_group_splices_member(outer: Seq<CommandResult>, k: int, inner: Seq<CommandResult>)
    requires
        0 <= k < outer.len(),
        outer[k] matches CommandResult::Group(ts) && ts@ == flatten(inner),
    ensures
        flatten(outer) == flatten(outer.take(k)) + flatten(inner) + flatten(outer.skip(k + 1)),
        flatten(outer) == flatten(outer.take(k)) + tables_of(outer[k]) + flatten(outer.skip(k + 1)),
{
    let front = outer.take(k);
    let one = seq![outer[k]];
    let back = outer.skip(k + 1);
    assert(outer =~= front + one + back);
    lemma_flatten_concat(front + one, back);
    lemma_flatten_concat(front, one);
    assert(one.drop_last() =~= Seq::<CommandResult>::empty());
    assert(one.last() == outer[k]);
    assert(flatten(one.drop_last()) =~= Seq::<CommandDTO>::empty());
    assert(flatten(one) =~= tables_of(outer[k]));
}

/// What the caller of a group run is to do next.
pub enum GroupStep {
    /// Run the registration at this position with no arguments, and hand
    /// its outcome to the next step of the returned run.
    Execute(GroupRun, usize),
    /// The group has finished, with this outcome.
    Done(Result<CommandResult, ErrorKind>),
}

/// A group part way through its members: members are resolved and run
/// strictly left to right, and their tables gathered in that order.
pub struct GroupRun {
    members: Vec<String>,
    next: usize,
    waiting: bool,
    tables: Vec<CommandDTO>,
    outcomes: Ghost<Seq<CommandResult>>,
}

impl GroupRun {
    /// The member names.
    pub closed spec fn members(&self) -> Seq<String> {
        self.members@
    }

    /// The results of the members run so far, in member order.
    pub closed spec fn outcomes(&self) -> Seq<CommandResult> {
        self.outcomes@
    }

    /// A member has been handed out to run, and its outcome is awaited.
    pub closed spec fn waiting(&self) -> bool {
        self.waiting
    }

    pub closed spec fn wf(&self) -> bool {
        &&& self.next == self.outcomes@.len()
        &&& self.next <= self.members@.len()
        &&& self.waiting ==> self.next < self.members@.len()
        &&& self.tables@ == flatten(self.outcomes@)
    }

    /// The outcomes after a step has taken in `outcome`.
    pub open spec fn accepted(&self, outcome: Option<Result<CommandResult, ErrorKind>>) -> Seq<CommandResult> {
        match outcome {
            Some(Ok(r)) if self.waiting() => self.outcomes().push(r),
            _ => self.outcomes(),
        }
    }

    /// A run that has not started any member yet.
    pub fn new(members: Vec<String>) -> (r: GroupRun)
        ensures
            r.wf(),
            r.members() == members@,
            r.outcomes() == Seq::<CommandResult>::empty(),
            !r.waiting(),
    {
        let r = GroupRun {
            members,
            next: 0,
            waiting: false,
            tables: Vec::new(),
            outcomes: Ghost(Seq::empty()),
        };
        assert(r.tables@ =~= flatten(Seq::<CommandResult>::empty()));
        r
    }

    /// A run over the members of `group`.
    pub fn start<G: CommandGroup>(group: &G) -> (r: GroupRun)
        ensures
            r.wf(),
            r.members().map_values(|s: String| s@) == group.member_names(),
            r.outcomes() == Seq::<CommandResult>::empty(),
            !r.waiting(),
    {
        GroupRun::new(group.commands())
    }

    /// Takes in the outcome of the member handed out last, if one was, and
    /// decides what comes next. A failed member ends the group with that
    /// member's error; a member name with no registration ends it with
    /// `MissingCommand`; neither hands back any table gathered so far.
    pub fn step(self, registry: &Registry, outcome: Option<Result<CommandResult, ErrorKind>>) -> (r: GroupStep)
        requires
            self.wf(),
        ensures
            self.waiting() ==> (outcome matches Some(Err(e)) ==> r == GroupStep::Done(Err(e))),
            !(self.waiting() && outcome matches Some(Err(_))) ==> ({
                let acc = self.accepted(outcome);
                let n = acc.len();
                if n == self.members().len() {
                    r matches GroupStep::Done(Ok(CommandResult::Group(ts))) && ts@ == flatten(acc)
                } else if !is_registered(registry.entries@, self.members()[n as int]@) {
                    r == GroupStep::Done(Err(ErrorKind::MissingCommand(self.members()[n as int])))
                } else {
                    r matches GroupStep::Execute(run, i) && {
                        &&& run.wf()
                        &&& run.members() == self.members()
                        &&& run.outcomes() == acc
                        &&& run.waiting()
                        &&& is_first_registration(registry.entries@, self.members()[n as int]@, i as int)
                    }
                }
            }),
    {
        let mut run = self;
        if run.waiting {
            match outcome {
                Some(Err(e)) => {
                    return GroupStep::Done(Err(e));
                },
                Some(Ok(res)) => {
                    assert(run.next < run.members.len());
                    let ghost before = run.outcomes@;
                    proof {
                        assert(before.push(res).drop_last() =~= before);
                    }
                    res.append_to(&mut run.tables);
                    run.outcomes = Ghost(before.push(res));
                    run.next = run.next + 1;
                    run.waiting = false;
                },
                None => {},
            }
        }
        if run.next == run.members.len() {
            return GroupStep::Done(Ok(CommandResult::Group(run.tables)));
        }
        let name = &run.members[run.next];
        match registry.find(name) {
            Some(i) => {
                run.waiting = true;
                GroupStep::Execute(run, i)
            },
            None => {
                GroupStep::Done(Err(ErrorKind::MissingCommand(name.clone())))
            },
        }
    }
}

} // verus!
