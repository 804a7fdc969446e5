use rustybox::procps::lsof::{
    fd_dir, fd_link_path, is_hidden, lists_process, push_decimal, report_line, ENTRY_NAME_MAX,
    LINK_PATH_MAX,
};

#[test]
fn push_decimal_writes_digits() {
    for n in [0u32, 1, 9, 10, 11, 99, 100, 101, 12345, 4194304, 1000000000, u32::MAX] {
        let mut out = b"x".to_vec();
        push_decimal(&mut out, n);
        assert_eq!(out, format!("x{}", n).into_bytes());
    }
}

#[test]
fn fd_dir_of_a_process() {
    assert_eq!(fd_dir(1), b"/proc/1/fd/".to_vec());
    assert_eq!(fd_dir(0), b"/proc/0/fd/".to_vec());
    assert_eq!(fd_dir(1064), b"/proc/1064/fd/".to_vec());
    assert_eq!(fd_dir(u32::MAX), b"/proc/4294967295/fd/".to_vec());
}

#[test]
fn fd_link_path_appends_the_entry() {
    assert_eq!(fd_link_path(1116, b"0"), b"/proc/1116/fd/0".to_vec());
    assert_eq!(fd_link_path(1, b"255"), b"/proc/1/fd/255".to_vec());
    assert_eq!(fd_link_path(1, b""), b"/proc/1/fd/".to_vec());
}

#[test]
fn fd_link_path_clips_long_entries() {
    assert_eq!(ENTRY_NAME_MAX, 9);
    assert_eq!(fd_link_path(1, b"123456789"), b"/proc/1/fd/123456789".to_vec());
    assert_eq!(fd_link_path(1, b"1234567890"), b"/proc/1/fd/123456789".to_vec());
    assert_eq!(fd_link_path(1, b"abcdefghijklmnop"), b"/proc/1/fd/abcdefghi".to_vec());
}

#[test]
fn fd_link_path_never_exceeds_its_bound() {
    assert_eq!(LINK_PATH_MAX, 29);
    let longest = fd_link_path(u32::MAX, b"abcdefghijklmnop");
    assert_eq!(longest.len(), 29);
    assert_eq!(longest, b"/proc/4294967295/fd/abcdefghi".to_vec());
}

#[test]
fn hidden_entries_are_passed_over() {
    assert!(is_hidden(b"."));
    assert!(is_hidden(b".."));
    assert!(is_hidden(b".hidden"));
    assert!(!is_hidden(b"0"));
    assert!(!is_hidden(b"12"));
    assert!(!is_hidden(b"a.b"));
    assert!(!is_hidden(b""));
}

#[test]
fn own_process_is_not_listed() {
    assert!(!lists_process(42, 42));
    assert!(lists_process(42, 43));
    assert!(lists_process(0, 1));
}

#[test]
fn report_line_format() {
    assert_eq!(
        report_line(1, b"/sbin/init", b"/dev/null"),
        b"1\t/sbin/init\t/dev/null\n".to_vec()
    );
    assert_eq!(
        report_line(1064, b"/usr/sbin/rpc.portmap", b"socket:[2178]"),
        b"1064\t/usr/sbin/rpc.portmap\tsocket:[2178]\n".to_vec()
    );
    assert_eq!(report_line(0, b"", b""), b"0\t\t\n".to_vec());
}

#[test]
fn report_line_prints_the_id_as_signed() {
    assert_eq!(report_line(2147483647, b"a", b"b"), b"2147483647\ta\tb\n".to_vec());
    assert_eq!(report_line(2147483648, b"a", b"b"), b"-2147483648\ta\tb\n".to_vec());
    assert_eq!(report_line(u32::MAX, b"a", b"b"), b"-1\ta\tb\n".to_vec());
    assert_eq!(report_line(4294967196, b"a", b"b"), b"-100\ta\tb\n".to_vec());
}

fn file(name: &[u8], target: Option<&[u8]>) -> rustybox::procps::lsof::OpenFile {
    rustybox::procps::lsof::OpenFile { name: name.to_vec(), target: target.map(|t| t.to_vec()) }
}

fn process(pid: u32, exe: &[u8], files: Vec<rustybox::procps::lsof::OpenFile>) -> rustybox::procps::lsof::Process {
    rustybox::procps::lsof::Process { pid, exe: exe.to_vec(), files }
}

#[test]
fn lsof_main_lists_open_files() {
    let table = vec![
        process(
            1,
            b"/sbin/init",
            vec![
                file(b".", None),
                file(b"..", None),
                file(b"0", Some(b"/dev/null")),
                file(b"1", Some(b"/dev/console")),
            ],
        ),
        process(1116, b"/bin/runsvdir", vec![file(b"3", Some(b"/var/service"))]),
    ];
    let out = rustybox::procps::lsof::lsof_main(99, &table);
    assert_eq!(
        out,
        b"1\t/sbin/init\t/dev/null\n1\t/sbin/init\t/dev/console\n1116\t/bin/runsvdir\t/var/service\n"
            .to_vec()
    );
}

#[test]
fn lsof_main_passes_over_itself() {
    let table = vec![
        process(7, b"/bin/a", vec![file(b"0", Some(b"/x"))]),
        process(8, b"/bin/busybox", vec![file(b"0", Some(b"/y"))]),
        process(9, b"/bin/c", vec![file(b"0", Some(b"/z"))]),
    ];
    let out = rustybox::procps::lsof::lsof_main(8, &table);
    assert_eq!(out, b"7\t/bin/a\t/x\n9\t/bin/c\t/z\n".to_vec());
}

#[test]
fn lsof_main_passes_over_hidden_and_unreadable_entries() {
    let table = vec![process(
        5,
        b"/bin/sh",
        vec![
            file(b".hidden", Some(b"/secret")),
            file(b"4", None),
            file(b"5", Some(b"pipe:[77]")),
            file(b"", Some(b"/odd")),
        ],
    )];
    let out = rustybox::procps::lsof::lsof_main(1, &table);
    assert_eq!(out, b"5\t/bin/sh\tpipe:[77]\n5\t/bin/sh\t/odd\n".to_vec());
}

#[test]
fn lsof_main_of_nothing() {
    assert_eq!(rustybox::procps::lsof::lsof_main(1, &vec![]), Vec::<u8>::new());
    let table = vec![process(2, b"/bin/x", vec![])];
    assert_eq!(rustybox::procps::lsof::lsof_main(1, &table), Vec::<u8>::new());
}
