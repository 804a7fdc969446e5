use rustybox::applets::applet_tables::BUILTIN_COUNT;
use rustybox::applets::invocation::{applet_argv, applet_name, select, Selection};
use rustybox::applets::registry::Registry;

fn builtin() -> Registry {
    let usage: Vec<&'static str> = vec![""; BUILTIN_COUNT];
    Registry::builtin(&usage).unwrap()
}

fn strings(items: &[&str]) -> Vec<String> {
    items.iter().map(|s| s.to_string()).collect()
}

#[test]
fn applet_name_is_the_last_path_segment() {
    assert_eq!(applet_name("echo"), "echo");
    assert_eq!(applet_name("/bin/echo"), "echo");
    assert_eq!(applet_name("./busybox"), "busybox");
    assert_eq!(applet_name("/usr/sbin/../bin/ls"), "ls");
    assert_eq!(applet_name("a/b/c"), "c");
    assert_eq!(applet_name("/"), "");
    assert_eq!(applet_name("dir/"), "");
    assert_eq!(applet_name(""), "");
    assert_eq!(applet_name("//x"), "x");
}

#[test]
fn applet_name_of_non_ascii_path() {
    assert_eq!(applet_name("/opt/\u{e9}t\u{e9}/echo"), "echo");
    assert_eq!(applet_name("/bin/\u{4e2d}\u{6587}"), "\u{4e2d}\u{6587}");
    assert_eq!(applet_name("\u{e9}"), "\u{e9}");
    assert_eq!(applet_name("\u{e9}/"), "");
}

#[test]
fn select_by_invocation_name_keeps_all_arguments() {
    let reg = builtin();
    match select(&reg, "/bin/echo", &strings(&["hello", "world"])) {
        Selection::Found { index, argv } => {
            assert_eq!(reg.all_applets()[index].name, "echo");
            assert_eq!(argv, strings(&["echo", "hello", "world"]));
        }
        Selection::NotFound { name } => panic!("not found: {}", name),
    }
}

#[test]
fn select_by_first_argument_shifts() {
    let reg = builtin();
    match select(&reg, "/bin/busybox", &strings(&["ls", "-l", "/tmp"])) {
        Selection::Found { index, argv } => {
            assert_eq!(reg.all_applets()[index].name, "ls");
            assert_eq!(argv, strings(&["ls", "-l", "/tmp"]));
        }
        Selection::NotFound { name } => panic!("not found: {}", name),
    }
}

#[test]
fn select_prefers_the_invocation_name() {
    let reg = builtin();
    match select(&reg, "cat", &strings(&["ls"])) {
        Selection::Found { index, argv } => {
            assert_eq!(reg.all_applets()[index].name, "cat");
            assert_eq!(argv, strings(&["cat", "ls"]));
        }
        Selection::NotFound { name } => panic!("not found: {}", name),
    }
}

#[test]
fn select_with_no_arguments() {
    let reg = builtin();
    match select(&reg, "true", &strings(&[])) {
        Selection::Found { index, argv } => {
            assert_eq!(reg.all_applets()[index].name, "true");
            assert_eq!(argv, strings(&["true"]));
        }
        Selection::NotFound { name } => panic!("not found: {}", name),
    }
}

#[test]
fn select_reports_the_unknown_first_argument() {
    let reg = builtin();
    match select(&reg, "busybox", &strings(&["nosuchcmd", "x"])) {
        Selection::NotFound { name } => assert_eq!(name, "nosuchcmd"),
        Selection::Found { .. } => panic!("found"),
    }
}

#[test]
fn select_reports_the_unknown_invocation_name() {
    let reg = builtin();
    match select(&reg, "/usr/bin/nosuchcmd", &strings(&[])) {
        Selection::NotFound { name } => assert_eq!(name, "nosuchcmd"),
        Selection::Found { .. } => panic!("found"),
    }
}

#[test]
fn select_matches_whole_names_only() {
    let reg = builtin();
    match select(&reg, "busybox", &strings(&["[[["])) {
        Selection::NotFound { name } => assert_eq!(name, "[[["),
        Selection::Found { .. } => panic!("found"),
    }
    match select(&reg, "ech", &strings(&["echoo"])) {
        Selection::NotFound { name } => assert_eq!(name, "echoo"),
        Selection::Found { .. } => panic!("found"),
    }
}

#[test]
fn ifup_and_ifdown_share_an_implementation_and_keep_their_names() {
    let reg = builtin();
    let up = reg.resolve("ifup").unwrap();
    let down = reg.resolve("ifdown").unwrap();
    assert_eq!(up.main, "ifupdown");
    assert_eq!(down.main, "ifupdown");
    assert_eq!(up.name, "ifup");
    assert_eq!(down.name, "ifdown");
    assert_ne!(reg.position("ifup"), reg.position("ifdown"));
    match select(&reg, "/sbin/ifup", &strings(&["eth0"])) {
        Selection::Found { index, argv } => {
            assert_eq!(Some(index), reg.position("ifup"));
            assert_eq!(argv, strings(&["ifup", "eth0"]));
        }
        Selection::NotFound { .. } => panic!("not found"),
    }
    match select(&reg, "busybox", &strings(&["ifdown", "eth0"])) {
        Selection::Found { index, argv } => {
            assert_eq!(Some(index), reg.position("ifdown"));
            assert_eq!(argv, strings(&["ifdown", "eth0"]));
        }
        Selection::NotFound { .. } => panic!("not found"),
    }
}

#[test]
fn applet_argv_begins_with_the_applet_name() {
    let args = strings(&["ls", "-l", "/tmp"]);
    assert_eq!(applet_argv("echo", &args, 0), strings(&["echo", "ls", "-l", "/tmp"]));
    assert_eq!(applet_argv("ls", &args, 1), strings(&["ls", "-l", "/tmp"]));
    assert_eq!(applet_argv("ls", &args, 3), strings(&["ls"]));
    assert_eq!(applet_argv("ls", &args, 4), strings(&["ls"]));
    assert_eq!(applet_argv("ls", &args, usize::MAX), strings(&["ls"]));
    assert_eq!(applet_argv("true", &strings(&[]), 0), strings(&["true"]));
}
