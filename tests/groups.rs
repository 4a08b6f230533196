use rustbelt::{
    CellValue, CommandDTO, CommandGroup, CommandRegistration, CommandResult, ErrorKind, GroupRun,
    GroupStep, MiscGroup, Registry, Row,
};

enum Entry {
    Leaf(CommandDTO),
    Failing(ErrorKind),
    Group(Vec<String>),
}

struct Catalog {
    registry: Registry,
    entries: Vec<Entry>,
}

impl Catalog {
    fn new() -> Catalog {
        Catalog { registry: Registry::new(), entries: vec![] }
    }

    fn add(&mut self, name: &str, entry: Entry) {
        self.registry.register(CommandRegistration {
            name: name.to_string(),
            version: "1.0".to_string(),
            about: String::new(),
        });
        self.entries.push(entry);
    }

    fn execute(&self, index: usize) -> Result<CommandResult, ErrorKind> {
        match &self.entries[index] {
            Entry::Leaf(t) => Ok(CommandResult::Simple(t.clone())),
            Entry::Failing(e) => Err(e.clone()),
            Entry::Group(members) => self.run_group(members.clone()),
        }
    }

    fn run_group(&self, members: Vec<String>) -> Result<CommandResult, ErrorKind> {
        let mut run = GroupRun::new(members);
        let mut outcome = None;
        loop {
            match run.step(&self.registry, outcome) {
                GroupStep::Execute(next, index) => {
                    outcome = Some(self.execute(index));
                    run = next;
                }
                GroupStep::Done(result) => return result,
            }
        }
    }
}

fn table(source: &str, rows: usize) -> CommandDTO {
    let mut data = vec![];
    for i in 0..rows {
        let mut row = Row::new();
        row.insert("n".to_string(), CellValue::UInt(i as u64));
        data.push(row);
    }
    CommandDTO { source: source.to_string(), data }
}

fn sources(r: &CommandResult) -> Vec<String> {
    match r {
        CommandResult::Group(ts) => ts.iter().map(|t| t.source.clone()).collect(),
        CommandResult::Simple(t) => vec![t.source.clone()],
    }
}

fn names(list: &[&str]) -> Vec<String> {
    list.iter().map(|s| s.to_string()).collect()
}

#[test]
fn misc_group_members() {
    assert_eq!(MiscGroup::default().commands(), names(&["antivirus", "amsiproviders"]));
}

#[test]
fn misc_group_yields_antivirus_then_amsi_tables() {
    let mut c = Catalog::new();
    c.add("antivirus", Entry::Leaf(table("Antivirus", 1)));
    c.add("amsiproviders", Entry::Leaf(table("Amsi Providers", 2)));
    c.add("group:misc", Entry::Group(MiscGroup::default().commands()));
    let result = c.execute(2).unwrap();
    match result {
        CommandResult::Group(ts) => {
            assert_eq!(ts.len(), 2);
            assert_eq!(ts[0].source, "Antivirus");
            assert_eq!(ts[0].data.len(), 1);
            assert_eq!(ts[1].source, "Amsi Providers");
            assert_eq!(ts[1].data.len(), 2);
        }
        CommandResult::Simple(_) => panic!("a group returns a group result"),
    }
}

#[test]
fn nested_groups_flatten_in_member_order() {
    let mut c = Catalog::new();
    c.add("a", Entry::Leaf(table("A", 1)));
    c.add("b", Entry::Leaf(table("B", 0)));
    c.add("c", Entry::Leaf(table("C", 3)));
    c.add("d", Entry::Leaf(table("D", 1)));
    c.add("g1", Entry::Group(names(&["b", "c"])));
    c.add("g2", Entry::Group(names(&["a", "g1", "a"])));
    c.add("g3", Entry::Group(names(&["g2", "d", "g1"])));
    c.add("top", Entry::Group(names(&["d", "g3"])));
    let result = c.run_group(names(&["top"])).unwrap();
    assert_eq!(
        sources(&result),
        names(&["D", "A", "B", "C", "A", "D", "B", "C"])
    );
    let direct = c.run_group(names(&["d", "g3"])).unwrap();
    assert_eq!(sources(&direct), sources(&result));
}

#[test]
fn empty_group_yields_no_tables() {
    let c = Catalog::new();
    assert_eq!(c.run_group(vec![]).unwrap(), CommandResult::Group(vec![]));
}

#[test]
fn unregistered_member_fails_without_partial_output() {
    let mut c = Catalog::new();
    c.add("antivirus", Entry::Leaf(table("Antivirus", 1)));
    c.add("amsiproviders", Entry::Leaf(table("Amsi Providers", 2)));
    let result = c.run_group(names(&["antivirus", "amsiproviders", "missing", "antivirus"]));
    assert_eq!(result, Err(ErrorKind::MissingCommand("missing".to_string())));
}

#[test]
fn unregistered_member_in_a_nested_group_fails_the_outer_group() {
    let mut c = Catalog::new();
    c.add("a", Entry::Leaf(table("A", 1)));
    c.add("inner", Entry::Group(names(&["a", "nowhere"])));
    let result = c.run_group(names(&["a", "inner"]));
    assert_eq!(result, Err(ErrorKind::MissingCommand("nowhere".to_string())));
}

#[test]
fn first_failing_member_ends_the_group_with_its_error() {
    let mut c = Catalog::new();
    c.add("a", Entry::Leaf(table("A", 1)));
    c.add("bad", Entry::Failing(ErrorKind::Backend(-5)));
    c.add("worse", Entry::Failing(ErrorKind::Decode));
    let result = c.run_group(names(&["a", "bad", "worse"]));
    assert_eq!(result, Err(ErrorKind::Backend(-5)));
}

#[test]
fn a_step_without_an_outcome_asks_again_for_the_same_member() {
    let mut c = Catalog::new();
    c.add("a", Entry::Leaf(table("A", 1)));
    c.add("b", Entry::Leaf(table("B", 1)));
    let run = GroupRun::new(names(&["b"]));
    let run = match run.step(&c.registry, None) {
        GroupStep::Execute(next, i) => {
            assert_eq!(i, 1);
            next
        }
        GroupStep::Done(_) => panic!("one member is left"),
    };
    match run.step(&c.registry, None) {
        GroupStep::Execute(_, i) => assert_eq!(i, 1),
        GroupStep::Done(_) => panic!("the member has not reported"),
    }
}
