use rustbelt::{get_command, CommandRegistration, Registry};

fn reg(name: &str, about: &str) -> CommandRegistration {
    CommandRegistration { name: name.to_string(), version: "1.0".to_string(), about: about.to_string() }
}

#[test]
fn find_returns_the_registration_of_that_name() {
    let mut r = Registry::new();
    r.register(reg("antivirus", "av"));
    r.register(reg("amsiproviders", "amsi"));
    r.register(reg("group:misc", "misc"));
    assert_eq!(r.find(&"amsiproviders".to_string()), Some(1));
    assert_eq!(r.find(&"group:misc".to_string()), Some(2));
    assert_eq!(get_command(&r, &"antivirus".to_string()).map(|c| c.about.as_str()), Some("av"));
    assert_eq!(r.all().len(), 3);
}

#[test]
fn find_of_an_unregistered_name_is_absent() {
    let mut r = Registry::new();
    r.register(reg("antivirus", "av"));
    assert_eq!(r.find(&"osinfo".to_string()), None);
    assert_eq!(r.find(&"Antivirus".to_string()), None);
    assert_eq!(r.find(&"anti".to_string()), None);
    assert!(get_command(&r, &"osinfo".to_string()).is_none());
    assert_eq!(Registry::new().find(&"antivirus".to_string()), None);
}

#[test]
fn duplicate_names_resolve_to_the_first() {
    let mut r = Registry::new();
    r.register(reg("example", "first"));
    r.register(reg("example", "second"));
    assert_eq!(r.find(&"example".to_string()), Some(0));
    assert_eq!(get_command(&r, &"example".to_string()).map(|c| c.about.as_str()), Some("first"));
}
