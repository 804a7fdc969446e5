use rustybox::applets::applet_tables::{
    applet, builtin_applet, Entrypoint, InstallLoc, SuidPolicy, BUILTIN_COUNT,
};
use rustybox::applets::name_order::{compare_names, NameOrder};
use rustybox::applets::registry::{ConfigError, Registry};

fn row(name: &'static str, main: &'static str) -> applet {
    applet::new(
        name,
        main,
        Entrypoint::CStyle,
        InstallLoc::DIR_BIN,
        SuidPolicy::SUID_DROP,
        "usage text",
    )
}

fn builtin() -> Registry {
    let usage: Vec<&'static str> = vec!["help"; BUILTIN_COUNT];
    match Registry::builtin(&usage) {
        Ok(r) => r,
        Err(e) => panic!("built-in table refused: {:?}", e),
    }
}

#[test]
fn compare_names_orders_by_bytes() {
    assert_eq!(compare_names("[", "[["), NameOrder::Before);
    assert_eq!(compare_names("[[", "["), NameOrder::After);
    assert_eq!(compare_names("echo", "echo"), NameOrder::Same);
    assert_eq!(compare_names("", ""), NameOrder::Same);
    assert_eq!(compare_names("", "a"), NameOrder::Before);
    assert_eq!(compare_names("add-shell", "addgroup"), NameOrder::Before);
    assert_eq!(compare_names("zcat", "yes"), NameOrder::After);
    assert_eq!(compare_names("Z", "a"), NameOrder::Before);
    assert_eq!(compare_names("z", "\u{e9}"), NameOrder::Before);
    assert_eq!(compare_names("\u{e9}", "\u{4e2d}"), NameOrder::Before);
}

#[test]
fn compare_names_agrees_with_str_order() {
    let names = ["", "[", "[[", "a", "ab", "abc", "b", "ifdown", "ifup", "\u{e9}", "z"];
    for a in names.iter() {
        for b in names.iter() {
            let expected = if a < b {
                NameOrder::Before
            } else if a == b {
                NameOrder::Same
            } else {
                NameOrder::After
            };
            assert_eq!(compare_names(a, b), expected);
        }
    }
}

#[test]
fn new_accepts_ascending_table() {
    let reg = Registry::new(vec![row("[", "test"), row("[[", "test"), row("echo", "echo")]);
    assert!(reg.is_ok());
    assert_eq!(reg.unwrap().len(), 3);
}

#[test]
fn new_accepts_empty_and_single() {
    assert_eq!(Registry::new(vec![]).unwrap().len(), 0);
    assert_eq!(Registry::new(vec![row("sh", "ash")]).unwrap().len(), 1);
}

#[test]
fn new_refuses_duplicate() {
    let r = Registry::new(vec![row("cat", "cat"), row("echo", "echo"), row("echo", "echo")]);
    assert_eq!(r.err(), Some(ConfigError::Duplicate { index: 2 }));
}

#[test]
fn new_refuses_unsorted() {
    let r = Registry::new(vec![row("echo", "echo"), row("cat", "cat"), row("cat", "cat")]);
    assert_eq!(r.err(), Some(ConfigError::Unsorted { index: 1 }));
}

#[test]
fn resolve_finds_exact_names_only() {
    let reg = Registry::new(vec![row("[", "test"), row("echo", "echo"), row("ls", "ls")]).unwrap();
    assert_eq!(reg.resolve("[").map(|d| d.name), Some("["));
    assert_eq!(reg.resolve("echo").map(|d| d.name), Some("echo"));
    assert_eq!(reg.resolve("ls").map(|d| d.name), Some("ls"));
    assert!(reg.resolve("[[").is_none());
    assert!(reg.resolve("ech").is_none());
    assert!(reg.resolve("echoo").is_none());
    assert!(reg.resolve("").is_none());
    assert!(reg.resolve("zz").is_none());
    assert!(reg.resolve("A").is_none());
}

#[test]
fn resolve_on_empty_registry() {
    let reg = Registry::new(vec![]).unwrap();
    assert!(reg.resolve("echo").is_none());
    assert_eq!(reg.position("echo"), None);
    assert_eq!(reg.usage_for("echo"), None);
}

#[test]
fn position_is_the_row() {
    let reg = builtin();
    let rows = reg.all_applets();
    for i in 0..rows.len() {
        assert_eq!(reg.position(rows[i].name), Some(i));
    }
}

#[test]
fn builtin_table_is_strictly_ascending() {
    let reg = builtin();
    let rows = reg.all_applets();
    assert_eq!(rows.len(), 395);
    assert_eq!(reg.len(), BUILTIN_COUNT);
    for w in rows.windows(2) {
        assert!(w[0].name < w[1].name);
    }
}

#[test]
fn builtin_table_is_accepted_as_a_table() {
    let reg = builtin();
    let again = Registry::new(reg.all_applets().clone());
    assert!(again.is_ok());
}

#[test]
fn builtin_needs_one_help_text_per_row() {
    let usage: Vec<&'static str> = vec!["help"; 3];
    assert_eq!(Registry::builtin(&usage).err(), Some(ConfigError::HelpTexts { found: 3 }));
    let none: Vec<&'static str> = Vec::new();
    assert_eq!(Registry::builtin(&none).err(), Some(ConfigError::HelpTexts { found: 0 }));
}

#[test]
fn builtin_rows_take_their_help_text_in_turn() {
    let mut usage: Vec<&'static str> = vec!["help"; BUILTIN_COUNT];
    usage[0] = "first";
    usage[394] = "last";
    let reg = Registry::builtin(&usage).unwrap();
    assert_eq!(reg.usage_for("["), Some("first"));
    assert_eq!(reg.usage_for("zcip"), Some("last"));
    assert_eq!(reg.usage_for("echo"), Some("help"));
    assert_eq!(reg.usage_for("nosuchcmd"), None);
}

#[test]
fn builtin_applet_rows() {
    let first = builtin_applet(0, "u").unwrap();
    assert_eq!(first.name, "[");
    assert_eq!(first.main, "test");
    assert_eq!(first.entrypoint, Entrypoint::CStyle);
    assert_eq!(first.install_loc, InstallLoc::DIR_USR_BIN);
    assert_eq!(first.usage, "u");
    let last = builtin_applet(394, "v").unwrap();
    assert_eq!(last.name, "zcip");
    assert_eq!(last.install_loc, InstallLoc::DIR_SBIN);
    assert!(builtin_applet(395, "w").is_none());
    assert!(builtin_applet(usize::MAX, "w").is_none());
}

#[test]
fn bracket_names_are_distinct_entries() {
    let reg = builtin();
    let one = reg.resolve("[").unwrap();
    let two = reg.resolve("[[").unwrap();
    assert_eq!(one.name, "[");
    assert_eq!(two.name, "[[");
    assert_eq!(reg.position("["), Some(0));
    assert_eq!(reg.position("[["), Some(1));
    assert!(reg.resolve("[[[").is_none());
}

#[test]
fn builtin_policies() {
    let reg = builtin();
    for name in ["crontab", "login", "passwd", "su", "vlock", "wall"] {
        assert_eq!(reg.resolve(name).unwrap().suid_policy, SuidPolicy::SUID_REQUIRE);
    }
    for name in ["findfs", "mount", "ping", "ping6", "traceroute", "traceroute6"] {
        assert_eq!(reg.resolve(name).unwrap().suid_policy, SuidPolicy::SUID_MAYBE);
    }
    for name in ["echo", "lsof", "ls", "cat", "ifup", "ifdown"] {
        assert_eq!(reg.resolve(name).unwrap().suid_policy, SuidPolicy::SUID_DROP);
    }
}

#[test]
fn builtin_entry_kinds() {
    let reg = builtin();
    for name in ["false", "true", "yes"] {
        assert_eq!(reg.resolve(name).unwrap().entrypoint, Entrypoint::SafeStyle);
    }
    let safe = reg.all_applets().iter().filter(|d| d.entrypoint == Entrypoint::SafeStyle).count();
    assert_eq!(safe, 3);
}

#[test]
fn retain_keeps_marked_rows_in_order() {
    let reg = Registry::new(vec![row("a", "a"), row("b", "b"), row("c", "c"), row("d", "d")])
        .unwrap();
    let some = reg.retain(&vec![true, false, true]);
    let names: Vec<&str> = some.all_applets().iter().map(|d| d.name).collect();
    assert_eq!(names, vec!["a", "c"]);
    assert!(some.resolve("b").is_none());
    assert!(some.resolve("d").is_none());
    assert_eq!(some.position("c"), Some(1));
    let none = reg.retain(&vec![]);
    assert_eq!(none.len(), 0);
    let all = reg.retain(&vec![true, true, true, true, true, true]);
    assert_eq!(all.len(), 4);
}
