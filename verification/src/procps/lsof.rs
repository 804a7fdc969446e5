//! What `lsof` computes: for each process and each of its open files one
//! line of the form `PID <TAB> /path/to/executable <TAB> /path/to/opened/file`.
//!
//! Walking the process table, reading directories and resolving links are
//! the caller's part. The paths to read, the entries to pass over and the
//! lines to print are decided here.

use vstd::prelude::*;
use vstd::string::*;
use vstd::utf8::*;

verus! {

/// The most bytes of a directory entry's name that go into a link path.
pub const ENTRY_NAME_MAX: usize = 9;

/// The longest link path, in bytes.
pub const LINK_PATH_MAX: usize = 29;

/// The decimal digits of `n`, most significant first, as ASCII bytes.
pub open spec fn decimal(n: nat) -> Seq<u8>
    decreases n,
{
    if n < 10 {
        seq![(48 + n) as u8]
    } else {
        decimal(n / 10).push((48 + n % 10) as u8)
    }
}

/// The bytes that `printf` writes for a process id under `%d`: an id of 2^31
/// or more counts as the negative number of the same bit pattern.
pub open spec fn signed_decimal(pid: u32) -> Seq<u8> {
    if pid <= i32::MAX {
        decimal(pid as nat)
    } else {
        seq![45u8] + decimal((0x1_0000_0000 - pid) as nat)
    }
}

/// The bytes of a text.
pub open spec fn bytes_of(text: Seq<char>) -> Seq<u8> {
    encode_utf8(text)
}

/// The directory that lists the open files of process `pid`:
/// `/proc/<pid>/fd/`.
pub open spec fn fd_dir_spec(pid: u32) -> Seq<u8> {
    bytes_of("/proc/"@) + decimal(pid as nat) + bytes_of("/fd/"@)
}

/// The first `ENTRY_NAME_MAX` bytes of a name, or all of it where it is
/// shorter.
pub open spec fn clipped(name: Seq<u8>) -> Seq<u8> {
    if name.len() <= ENTRY_NAME_MAX {
        name
    } else {
        name.subrange(0, ENTRY_NAME_MAX as int)
    }
}

/// The path of the link behind the entry `name` of process `pid`.
pub open spec fn fd_link_path_spec(pid: u32, name: Seq<u8>) -> Seq<u8> {
    fd_dir_spec(pid) + clipped(name)
}

/// An entry whose name begins with a dot: `.`, `..` and any hidden file.
pub open spec fn hidden(name: Seq<u8>) -> bool {
    name.len() > 0 && name[0] == 46
}

/// The line for one open file: the process id, the executable and the
/// file, separated by tabs and ended by a newline.
pub open spec fn report_line_spec(pid: u32, exe: Seq<u8>, file: Seq<u8>) -> Seq<u8> {
    signed_decimal(pid) + seq![9u8] + exe + seq![9u8] + file + seq![10u8]
}

/// One entry of a process's directory of open files.
pub struct OpenFile {
    /// The name of the entry.
    pub name: Vec<u8>,
    /// What the link at `fd_link_path` of the entry leads to; `None` where
    /// the link could not be read.
    pub target: Option<Vec<u8>>,
}

/// One process, as found in the process table.
pub struct Process {
    pub pid: u32,
    /// The path of its executable.
    pub exe: Vec<u8>,
    /// The entries of its directory of open files, in the order read. Empty
    /// where the directory could not be opened.
    pub files: Vec<OpenFile>,
}

/// What is printed for one entry: its line, or nothing for a hidden entry
/// and for one whose link could not be read.
pub open spec fn entry_report(pid: u32, exe: Seq<u8>, file: OpenFile) -> Seq<u8> {
    match file.target {
        Some(target) if !hidden(file.name@) => report_line_spec(pid, exe, target@),
        _ => Seq::empty(),
    }
}

/// What is printed for the first `n` entries of a process.
pub open spec fn entries_report(pid: u32, exe: Seq<u8>, files: Seq<OpenFile>, n: int) -> Seq<u8>
    decreases n,
{
    if n <= 0 {
        Seq::empty()
    } else {
        entries_report(pid, exe, files, n - 1) + entry_report(pid, exe, files[n - 1])
    }
}

/// What is printed for one process: nothing for the process that asks,
/// whose id is `own`, else the lines of its entries.
pub open spec fn process_report(own: u32, process: Process) -> Seq<u8> {
    if process.pid == own {
        Seq::empty()
    } else {
        entries_report(process.pid, process.exe@, process.files@, process.files@.len() as int)
    }
}

/// What is printed for the first `n` processes.
pub open spec fn report(own: u32, processes: Seq<Process>, n: int) -> Seq<u8>
    decreases n,
{
    if n <= 0 {
        Seq::empty()
    } else {
        report(own, processes, n - 1) + process_report(own, processes[n - 1])
    }
}

/// A number below 10^`k` has at most `k` digits.
proof fn lemma_decimal_len(n: nat, k: nat, bound: nat)
    requires
        k >= 1,
        n < bound,
        bound == vstd::arithmetic::power::pow(10, k),
    ensures
        1 <= decimal(n).len() <= k,
    decreases k,
{
    vstd::arithmetic::power::lemma_pow1(10);
    if n >= 10 {
        assert(k > 1);
        let lower = vstd::arithmetic::power::pow(10, (k - 1) as nat);
        assert(bound == 10 * lower) by {
            vstd::arithmetic::power::lemma_pow_adds(10, 1, (k - 1) as nat);
        }
        lemma_decimal_len(n / 10, (k - 1) as nat, lower as nat);
    }
}

/// A 32-bit number has at most ten digits.
pub proof fn lemma_decimal_u32_len(n: u32)
    ensures
        1 <= decimal(n as nat).len() <= 10,
{
    assert(vstd::arithmetic::power::pow(10, 10) == 10_000_000_000int) by {
        reveal_with_fuel(vstd::arithmetic::power::pow, 11);
    }
    lemma_decimal_len(n as nat, 10, 10_000_000_000nat);
}

/// No link path is longer than `LINK_PATH_MAX` bytes.
pub proof fn lemma_link_path_len(pid: u32, name: Seq<u8>)
    ensures
        fd_link_path_spec(pid, name).len() <= LINK_PATH_MAX,
{
    lemma_decimal_u32_len(pid);
    reveal_strlit("/proc/");
    reveal_strlit("/fd/");
    is_ascii_chars_encode_utf8("/proc/"@);
    is_ascii_chars_encode_utf8("/fd/"@);
}

/// Appends the decimal digits of `n` to `out`.
pub fn push_decimal(out: &mut Vec<u8>, n: u32)
    ensures
        final(out)@ == old(out)@ + decimal(n as nat),
    decreases n,
{
    if n >= 10 {
        push_decimal(out, n / 10);
    }
    let digit: u8 = (48 + n % 10) as u8;
    out.push(digit);
    assert(final(out)@ =~= old(out)@ + decimal(n as nat));
}

/// Appends the bytes of `text` to `out`.
fn push_text(out: &mut Vec<u8>, text: &str)
    ensures
        final(out)@ == old(out)@ + bytes_of(text@),
{
    out.extend_from_slice(text.as_bytes());
    assert(final(out)@ =~= old(out)@ + bytes_of(text@));
}

/// Appends `bytes` to `out`.
fn push_bytes(out: &mut Vec<u8>, bytes: &[u8])
    ensures
        final(out)@ == old(out)@ + bytes@,
{
    out.extend_from_slice(bytes);
    assert(final(out)@ =~= old(out)@ + bytes@);
}

/// Whether the open files of process `pid` are listed: those of every
/// process but the one that asks, whose id is `own`.
pub fn lists_process(pid: u32, own: u32) -> (r: bool)
    ensures
        r == (pid != own),
{
    pid != own
}

/// Whether a directory entry is passed over: `.`, `..` and any hidden file.
pub fn is_hidden(name: &[u8]) -> (r: bool)
    ensures
        r == hidden(name@),
{
    name.len() > 0 && name[0] == 46
}

/// The directory that lists the open files of process `pid`.
pub fn fd_dir(pid: u32) -> (path: Vec<u8>)
    ensures
        path@ == fd_dir_spec(pid),
{
    let mut path: Vec<u8> = Vec::new();
    push_text(&mut path, "/proc/");
    push_decimal(&mut path, pid);
    push_text(&mut path, "/fd/");
    assert(path@ =~= fd_dir_spec(pid));
    path
}

/// The path of the link behind the entry `name` of process `pid`. Of a
/// longer name only the first `ENTRY_NAME_MAX` bytes are used.
pub fn fd_link_path(pid: u32, name: &[u8]) -> (path: Vec<u8>)
    ensures
        path@ == fd_link_path_spec(pid, name@),
        path@.len() <= LINK_PATH_MAX,
{
    let mut path = fd_dir(pid);
    let n = if name.len() <= ENTRY_NAME_MAX {
        name.len()
    } else {
        ENTRY_NAME_MAX
    };
    let mut i: usize = 0;
    while i < n
        invariant
            i <= n <= name.len(),
            path@ == fd_dir_spec(pid) + name@.subrange(0, i as int),
        decreases n - i,
    {
        path.push(name[i]);
        assert(path@ =~= fd_dir_spec(pid) + name@.subrange(0, i + 1));
        i += 1;
    }
    proof {
        assert(name@.subrange(0, n as int) =~= clipped(name@));
        lemma_link_path_len(pid, name@);
    }
    path
}

/// The line that reports one open file of a process: its id, its
/// executable and the file.
pub fn report_line(pid: u32, exe: &[u8], file: &[u8]) -> (line: Vec<u8>)
    ensures
        line@ == report_line_spec(pid, exe@, file@),
{
    let mut line: Vec<u8> = Vec::new();
    if pid <= 0x7fff_ffff {
        push_decimal(&mut line, pid);
    } else {
        line.push(45);
        push_decimal(&mut line, (0xffff_ffff - pid) + 1);
    }
    assert(line@ =~= signed_decimal(pid));
    line.push(9);
    push_bytes(&mut line, exe);
    line.push(9);
    push_bytes(&mut line, file);
    line.push(10);
    assert(line@ =~= report_line_spec(pid, exe@, file@));
    line
}

/// The whole output of `lsof`: for each process but the one that asks,
/// whose id is `own`, and in the order given, one line for each entry that
/// is not hidden and whose link could be read.
pub fn lsof_main(own: u32, processes: &Vec<Process>) -> (out: Vec<u8>)
    ensures
        out@ == report(own, processes@, processes@.len() as int),
{
    let mut out: Vec<u8> = Vec::new();
    let mut p: usize = 0;
    while p < processes.len()
        invariant
            p <= processes.len(),
            out@ == report(own, processes@, p as int),
        decreases processes.len() - p,
    {
        let process = &processes[p];
        let ghost before = out@;
        if lists_process(process.pid, own) {
            let mut f: usize = 0;
            while f < process.files.len()
                invariant
                    f <= process.files.len(),
                    out@ == before + entries_report(
                        process.pid,
                        process.exe@,
                        process.files@,
                        f as int,
                    ),
                decreases process.files.len() - f,
            {
                let file = &process.files[f];
                let ghost sofar = out@;
                match &file.target {
                    Some(target) => {
                        if !is_hidden(file.name.as_slice()) {
                            let line = report_line(
                                process.pid,
                                process.exe.as_slice(),
                                target.as_slice(),
                            );
                            push_bytes(&mut out, line.as_slice());
                        }
                    },
                    None => {},
                }
                assert(out@ =~= sofar + entry_report(process.pid, process.exe@, *file));
                assert(out@ =~= before + entries_report(
                    process.pid,
                    process.exe@,
                    process.files@,
                    f + 1,
                ));
                f += 1;
            }
        }
        assert(out@ =~= before + process_report(own, *process));
        p += 1;
    }
    out
}

} // verus!
