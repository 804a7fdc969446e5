//! Applet descriptors: what the registry records of one applet.

use vstd::prelude::*;
use vstd::string::*;
use self::Entrypoint::{CStyle, SafeStyle};
use self::InstallLoc::{DIR_BIN, DIR_ROOT, DIR_SBIN, DIR_USR_BIN, DIR_USR_SBIN};
use self::SuidPolicy::{SUID_DROP, SUID_MAYBE, SUID_REQUIRE};

verus! {

/// The directory an applet's link is installed in. The dispatch core carries
/// it for installers and never consults it.
#[allow(non_camel_case_types)]
#[derive(Copy, Clone, Debug, PartialEq, Eq, Structural)]
pub enum InstallLoc {
    DIR_USR_SBIN,
    DIR_USR_BIN,
    DIR_SBIN,
    DIR_BIN,
    DIR_ROOT,
}

/// The calling convention of an applet's entry point. The code itself is
/// found by the embedding program under the descriptor's `main`.
#[derive(Copy, Clone, Debug, PartialEq, Eq, Structural)]
pub enum Entrypoint {
    /// Takes an argument count and vector and returns an exit status.
    CStyle,
    /// Takes the arguments as borrowed strings and ends the process itself.
    SafeStyle,
}

/// How an applet relates to a set-user-id installation of the binary.
#[allow(non_camel_case_types)]
#[derive(Copy, Clone, Debug, PartialEq, Eq, Structural)]
pub enum SuidPolicy {
    /// Refuses to run without root rights; the entry point is not called.
    SUID_REQUIRE,
    /// Gives up set-user-id rights before the entry point is called.
    SUID_DROP,
    /// Neither: the applet copes with either kind of invocation.
    SUID_MAYBE,
}

/// One applet, as the registry describes it.
#[allow(non_camel_case_types)]
#[derive(Copy, Clone, Debug)]
pub struct applet {
    /// The name typed on the command line; unique in a registry.
    pub name: &'static str,
    /// The implementation that handles the applet; several names may share one.
    pub main: &'static str,
    pub entrypoint: Entrypoint,
    pub install_loc: InstallLoc,
    pub suid_policy: SuidPolicy,
    /// Help text, never interpreted here.
    pub usage: &'static str,
}

/// The mathematical content of a descriptor: its strings as sequences of
/// characters.
pub struct AppletView {
    pub name: Seq<char>,
    pub main: Seq<char>,
    pub entrypoint: Entrypoint,
    pub install_loc: InstallLoc,
    pub suid_policy: SuidPolicy,
    pub usage: Seq<char>,
}

impl View for applet {
    type V = AppletView;

    open spec fn view(&self) -> AppletView {
        AppletView {
            name: self.name@,
            main: self.main@,
            entrypoint: self.entrypoint,
            install_loc: self.install_loc,
            suid_policy: self.suid_policy,
            usage: self.usage@,
        }
    }
}

/// The contents of a descriptor table, row by row.
pub open spec fn descriptors(rows: Seq<applet>) -> Seq<AppletView> {
    Seq::new(rows.len(), |i: int| rows[i]@)
}

/// The descriptor made of the six given parts.
pub open spec fn describe(
    name: &'static str,
    main: &'static str,
    entrypoint: Entrypoint,
    install_loc: InstallLoc,
    suid_policy: SuidPolicy,
    usage: &'static str,
) -> applet {
    applet { name, main, entrypoint, install_loc, suid_policy, usage }
}

impl applet {
    /// Makes a descriptor of its six parts.
    pub fn new(
        name: &'static str,
        main: &'static str,
        entrypoint: Entrypoint,
        install_loc: InstallLoc,
        suid_policy: SuidPolicy,
        usage: &'static str,
    ) -> (d: applet)
        ensures
            d == describe(name, main, entrypoint, install_loc, suid_policy, usage),
    {
        applet { name, main, entrypoint, install_loc, suid_policy, usage }
    }
}

impl InstallLoc {
    /// The directory that the location stands for.
    pub open spec fn directory(self) -> Seq<char> {
        match self {
            DIR_USR_SBIN => "/usr/sbin"@,
            DIR_USR_BIN => "/usr/bin"@,
            DIR_SBIN => "/sbin"@,
            DIR_BIN => "/bin"@,
            DIR_ROOT => "/"@,
        }
    }

    /// The directory that the location stands for.
    pub fn dir(&self) -> (d: &'static str)
        ensures
            d@ == self.directory(),
    {
        match self {
            DIR_USR_SBIN => "/usr/sbin",
            DIR_USR_BIN => "/usr/bin",
            DIR_SBIN => "/sbin",
            DIR_BIN => "/bin",
            DIR_ROOT => "/",
        }
    }
}

impl applet {
    /// Where an installer puts the link for the applet: its name under its
    /// directory.
    pub open spec fn link_path(self) -> Seq<char> {
        if self.install_loc == DIR_ROOT {
            "/"@ + self.name@
        } else {
            self.install_loc.directory() + "/"@ + self.name@
        }
    }

    /// Where an installer puts the link for the applet.
    pub fn install_path(&self) -> (path: String)
        ensures
            path@ == self.link_path(),
    {
        let mut path = String::new();
        match self.install_loc {
            DIR_ROOT => {},
            _ => {
                path.append(self.install_loc.dir());
            },
        }
        path.append("/");
        path.append(self.name);
        assert(path@ =~= self.link_path());
        path
    }
}

/// The number of rows in the built-in table.
pub const BUILTIN_COUNT: usize = 395;

/// Row `i` of the built-in table, with `usage` for its help text. The rows
/// stand in ascending name order.
///
/// Six applets refuse to run without root rights: crontab, login, passwd, su,
/// vlock and wall. Six use root rights when they have them: findfs, mount,
/// ping, ping6, traceroute and traceroute6. All others give them up.
pub open spec fn builtin_row(i: usize, usage: &'static str) -> Option<applet> {
    match i {
        0 => Some(describe("[", "test", CStyle, DIR_USR_BIN, SUID_DROP, usage)),
        1 => Some(describe("[[", "test", CStyle, DIR_USR_BIN, SUID_DROP, usage)),
        2 => Some(describe("acpid", "acpid", CStyle, DIR_SBIN, SUID_DROP, usage)),
        3 => Some(describe("add-shell", "add_remove_shell", CStyle, DIR_USR_SBIN, SUID_DROP, usage)),
        4 => Some(describe("addgroup", "addgroup", CStyle, DIR_USR_SBIN, SUID_DROP, usage)),
        5 => Some(describe("adduser", "adduser", CStyle, DIR_USR_SBIN, SUID_DROP, usage)),
        6 => Some(describe("adjtimex", "adjtimex", CStyle, DIR_SBIN, SUID_DROP, usage)),
        7 => Some(describe("arch", "uname", CStyle, DIR_BIN, SUID_DROP, usage)),
        8 => Some(describe("arp", "arp", CStyle, DIR_SBIN, SUID_DROP, usage)),
        9 => Some(describe("arping", "arping", CStyle, DIR_USR_SBIN, SUID_DROP, usage)),
        10 => Some(describe("ash", "ash", CStyle, DIR_BIN, SUID_DROP, usage)),
        11 => Some(describe("awk", "awk", CStyle, DIR_USR_BIN, SUID_DROP, usage)),
        12 => Some(describe("base64", "base64", CStyle, DIR_BIN, SUID_DROP, usage)),
        13 => Some(describe("basename", "basename", CStyle, DIR_USR_BIN, SUID_DROP, usage)),
        14 => Some(describe("bc", "bc", CStyle, DIR_USR_BIN, SUID_DROP, usage)),
        15 => Some(describe("beep", "beep", CStyle, DIR_USR_BIN, SUID_DROP, usage)),
        16 => Some(describe("blkdiscard", "blkdiscard", CStyle, DIR_USR_BIN, SUID_DROP, usage)),
        17 => Some(describe("blkid", "blkid", CStyle, DIR_SBIN, SUID_DROP, usage)),
        18 => Some(describe("blockdev", "blockdev", CStyle, DIR_SBIN, SUID_DROP, usage)),
        19 => Some(describe("bootchartd", "bootchartd", CStyle, DIR_SBIN, SUID_DROP, usage)),
        20 => Some(describe("brctl", "brctl", CStyle, DIR_USR_SBIN, SUID_DROP, usage)),
        21 => Some(describe("bunzip2", "bunzip2", CStyle, DIR_USR_BIN, SUID_DROP, usage)),
        22 => Some(describe("bzcat", "bunzip2", CStyle, DIR_USR_BIN, SUID_DROP, usage)),
        23 => Some(describe("bzip2", "bzip2", CStyle, DIR_USR_BIN, SUID_DROP, usage)),
        24 => Some(describe("cal", "cal", CStyle, DIR_USR_BIN, SUID_DROP, usage)),
        25 => Some(describe("cat", "cat", CStyle, DIR_BIN, SUID_DROP, usage)),
        26 => Some(describe("chat", "chat", CStyle, DIR_USR_SBIN, SUID_DROP, usage)),
        27 => Some(describe("chattr", "chattr", CStyle, DIR_BIN, SUID_DROP, usage)),
        28 => Some(describe("chgrp", "chgrp", CStyle, DIR_BIN, SUID_DROP, usage)),
        29 => Some(describe("chmod", "chmod", CStyle, DIR_BIN, SUID_DROP, usage)),
        30 => Some(describe("chown", "chown", CStyle, DIR_BIN, SUID_DROP, usage)),
        31 => Some(describe("chpasswd", "chpasswd", CStyle, DIR_USR_SBIN, SUID_DROP, usage)),
        32 => Some(describe("chpst", "chpst", CStyle, DIR_USR_BIN, SUID_DROP, usage)),
        33 => Some(describe("chroot", "chroot", CStyle, DIR_USR_SBIN, SUID_DROP, usage)),
        34 => Some(describe("chrt", "chrt", CStyle, DIR_USR_BIN, SUID_DROP, usage)),
        35 => Some(describe("chvt", "chvt", CStyle, DIR_USR_BIN, SUID_DROP, usage)),
        36 => Some(describe("cksum", "cksum", CStyle, DIR_USR_BIN, SUID_DROP, usage)),
        37 => Some(describe("clear", "clear", CStyle, DIR_USR_BIN, SUID_DROP, usage)),
        38 => Some(describe("cmp", "cmp", CStyle, DIR_USR_BIN, SUID_DROP, usage)),
        39 => Some(describe("comm", "comm", CStyle, DIR_USR_BIN, SUID_DROP, usage)),
        40 => Some(describe("conspy", "conspy", CStyle, DIR_BIN, SUID_DROP, usage)),
        41 => Some(describe("cp", "cp", CStyle, DIR_BIN, SUID_DROP, usage)),
        42 => Some(describe("cpio", "cpio", CStyle, DIR_BIN, SUID_DROP, usage)),
        43 => Some(describe("crond", "crond", CStyle, DIR_USR_SBIN, SUID_DROP, usage)),
        44 => Some(describe("crontab", "crontab", CStyle, DIR_USR_BIN, SUID_REQUIRE, usage)),
        45 => Some(describe("cryptpw", "cryptpw", CStyle, DIR_USR_BIN, SUID_DROP, usage)),
        46 => Some(describe("cttyhack", "cttyhack", CStyle, DIR_BIN, SUID_DROP, usage)),
        47 => Some(describe("cut", "cut", CStyle, DIR_USR_BIN, SUID_DROP, usage)),
        48 => Some(describe("date", "date", CStyle, DIR_BIN, SUID_DROP, usage)),
        49 => Some(describe("dc", "dc", CStyle, DIR_USR_BIN, SUID_DROP, usage)),
        50 => Some(describe("dd", "dd", CStyle, DIR_BIN, SUID_DROP, usage)),
        51 => Some(describe("deallocvt", "deallocvt", CStyle, DIR_USR_BIN, SUID_DROP, usage)),
        52 => Some(describe("delgroup", "deluser", CStyle, DIR_USR_SBIN, SUID_DROP, usage)),
        53 => Some(describe("deluser", "deluser", CStyle, DIR_USR_SBIN, SUID_DROP, usage)),
        54 => Some(describe("depmod", "modprobe", CStyle, DIR_SBIN, SUID_DROP, usage)),
        55 => Some(describe("devmem", "devmem", CStyle, DIR_SBIN, SUID_DROP, usage)),
        56 => Some(describe("df", "df", CStyle, DIR_BIN, SUID_DROP, usage)),
        57 => Some(describe("dhcprelay", "dhcprelay", CStyle, DIR_USR_SBIN, SUID_DROP, usage)),
        58 => Some(describe("diff", "diff", CStyle, DIR_USR_BIN, SUID_DROP, usage)),
        59 => Some(describe("dirname", "dirname", CStyle, DIR_USR_BIN, SUID_DROP, usage)),
        60 => Some(describe("dmesg", "dmesg", CStyle, DIR_BIN, SUID_DROP, usage)),
        61 => Some(describe("dnsd", "dnsd", CStyle, DIR_USR_SBIN, SUID_DROP, usage)),
        62 => Some(describe("dnsdomainname", "hostname", CStyle, DIR_BIN, SUID_DROP, usage)),
        63 => Some(describe("dos2unix", "dos2unix", CStyle, DIR_USR_BIN, SUID_DROP, usage)),
        64 => Some(describe("dpkg", "dpkg", CStyle, DIR_USR_BIN, SUID_DROP, usage)),
        65 => Some(describe("dpkg-deb", "dpkg_deb", CStyle, DIR_USR_BIN, SUID_DROP, usage)),
        66 => Some(describe("du", "du", CStyle, DIR_USR_BIN, SUID_DROP, usage)),
        67 => Some(describe("dumpkmap", "dumpkmap", CStyle, DIR_BIN, SUID_DROP, usage)),
        68 => Some(describe("dumpleases", "dumpleases", CStyle, DIR_USR_BIN, SUID_DROP, usage)),
        69 => Some(describe("echo", "echo", CStyle, DIR_BIN, SUID_DROP, usage)),
        70 => Some(describe("ed", "ed", CStyle, DIR_BIN, SUID_DROP, usage)),
        71 => Some(describe("egrep", "grep", CStyle, DIR_BIN, SUID_DROP, usage)),
        72 => Some(describe("eject", "eject", CStyle, DIR_USR_BIN, SUID_DROP, usage)),
        73 => Some(describe("env", "env", CStyle, DIR_USR_BIN, SUID_DROP, usage)),
        74 => Some(describe("envdir", "chpst", CStyle, DIR_USR_BIN, SUID_DROP, usage)),
        75 => Some(describe("envuidgid", "chpst", CStyle, DIR_USR_BIN, SUID_DROP, usage)),
        76 => Some(describe("ether-wake", "ether_wake", CStyle, DIR_USR_SBIN, SUID_DROP, usage)),
        77 => Some(describe("expand", "expand", CStyle, DIR_USR_BIN, SUID_DROP, usage)),
        78 => Some(describe("expr", "expr", CStyle, DIR_USR_BIN, SUID_DROP, usage)),
        79 => Some(describe("factor", "factor", CStyle, DIR_USR_BIN, SUID_DROP, usage)),
        80 => Some(describe("fakeidentd", "fakeidentd", CStyle, DIR_USR_SBIN, SUID_DROP, usage)),
        81 => Some(describe("fallocate", "fallocate", CStyle, DIR_USR_BIN, SUID_DROP, usage)),
        82 => Some(describe("false", "false", SafeStyle, DIR_BIN, SUID_DROP, usage)),
        83 => Some(describe("fatattr", "fatattr", CStyle, DIR_BIN, SUID_DROP, usage)),
        84 => Some(describe("fbset", "fbset", CStyle, DIR_USR_SBIN, SUID_DROP, usage)),
        85 => Some(describe("fbsplash", "fbsplash", CStyle, DIR_SBIN, SUID_DROP, usage)),
        86 => Some(describe("fdflush", "freeramdisk", CStyle, DIR_BIN, SUID_DROP, usage)),
        87 => Some(describe("fdformat", "fdformat", CStyle, DIR_USR_SBIN, SUID_DROP, usage)),
        88 => Some(describe("fdisk", "fdisk", CStyle, DIR_SBIN, SUID_DROP, usage)),
        89 => Some(describe("fgconsole", "fgconsole", CStyle, DIR_USR_BIN, SUID_DROP, usage)),
        90 => Some(describe("fgrep", "grep", CStyle, DIR_BIN, SUID_DROP, usage)),
        91 => Some(describe("find", "find", CStyle, DIR_USR_BIN, SUID_DROP, usage)),
        92 => Some(describe("findfs", "findfs", CStyle, DIR_SBIN, SUID_MAYBE, usage)),
        93 => Some(describe("flock", "flock", CStyle, DIR_USR_BIN, SUID_DROP, usage)),
        94 => Some(describe("fold", "fold", CStyle, DIR_USR_BIN, SUID_DROP, usage)),
        95 => Some(describe("free", "free", CStyle, DIR_USR_BIN, SUID_DROP, usage)),
        96 => Some(describe("freeramdisk", "freeramdisk", CStyle, DIR_SBIN, SUID_DROP, usage)),
        97 => Some(describe("fsck", "fsck", CStyle, DIR_SBIN, SUID_DROP, usage)),
        98 => Some(describe("fsck.minix", "fsck_minix", CStyle, DIR_SBIN, SUID_DROP, usage)),
        99 => Some(describe("fsfreeze", "fsfreeze", CStyle, DIR_USR_SBIN, SUID_DROP, usage)),
        100 => Some(describe("fstrim", "fstrim", CStyle, DIR_SBIN, SUID_DROP, usage)),
        101 => Some(describe("fsync", "fsync", CStyle, DIR_BIN, SUID_DROP, usage)),
        102 => Some(describe("ftpd", "ftpd", CStyle, DIR_USR_SBIN, SUID_DROP, usage)),
        103 => Some(describe("ftpget", "ftpgetput", CStyle, DIR_USR_BIN, SUID_DROP, usage)),
        104 => Some(describe("ftpput", "ftpgetput", CStyle, DIR_USR_BIN, SUID_DROP, usage)),
        105 => Some(describe("fuser", "fuser", CStyle, DIR_USR_BIN, SUID_DROP, usage)),
        106 => Some(describe("getopt", "getopt", CStyle, DIR_BIN, SUID_DROP, usage)),
        107 => Some(describe("getty", "getty", CStyle, DIR_SBIN, SUID_DROP, usage)),
        108 => Some(describe("grep", "grep", CStyle, DIR_BIN, SUID_DROP, usage)),
        109 => Some(describe("groups", "id", CStyle, DIR_USR_BIN, SUID_DROP, usage)),
        110 => Some(describe("gunzip", "gunzip", CStyle, DIR_BIN, SUID_DROP, usage)),
        111 => Some(describe("gzip", "gzip", CStyle, DIR_BIN, SUID_DROP, usage)),
        112 => Some(describe("halt", "halt", CStyle, DIR_SBIN, SUID_DROP, usage)),
        113 => Some(describe("hd", "hexdump", CStyle, DIR_USR_BIN, SUID_DROP, usage)),
        114 => Some(describe("hdparm", "hdparm", CStyle, DIR_SBIN, SUID_DROP, usage)),
        115 => Some(describe("head", "head", CStyle, DIR_USR_BIN, SUID_DROP, usage)),
        116 => Some(describe("hexdump", "hexdump", CStyle, DIR_USR_BIN, SUID_DROP, usage)),
        117 => Some(describe("hexedit", "hexedit", CStyle, DIR_USR_BIN, SUID_DROP, usage)),
        118 => Some(describe("hostid", "hostid", CStyle, DIR_USR_BIN, SUID_DROP, usage)),
        119 => Some(describe("hostname", "hostname", CStyle, DIR_BIN, SUID_DROP, usage)),
        120 => Some(describe("httpd", "httpd", CStyle, DIR_USR_SBIN, SUID_DROP, usage)),
        121 => Some(describe("hush", "hush", CStyle, DIR_BIN, SUID_DROP, usage)),
        122 => Some(describe("hwclock", "hwclock", CStyle, DIR_SBIN, SUID_DROP, usage)),
        123 => Some(describe("i2cdetect", "i2cdetect", CStyle, DIR_USR_SBIN, SUID_DROP, usage)),
        124 => Some(describe("i2cdump", "i2cdump", CStyle, DIR_USR_SBIN, SUID_DROP, usage)),
        125 => Some(describe("i2cget", "i2cget", CStyle, DIR_USR_SBIN, SUID_DROP, usage)),
        126 => Some(describe("i2cset", "i2cset", CStyle, DIR_USR_SBIN, SUID_DROP, usage)),
        127 => Some(describe("i2ctransfer", "i2ctransfer", CStyle, DIR_USR_SBIN, SUID_DROP, usage)),
        128 => Some(describe("id", "id", CStyle, DIR_USR_BIN, SUID_DROP, usage)),
        129 => Some(describe("ifconfig", "ifconfig", CStyle, DIR_SBIN, SUID_DROP, usage)),
        130 => Some(describe("ifdown", "ifupdown", CStyle, DIR_SBIN, SUID_DROP, usage)),
        131 => Some(describe("ifenslave", "ifenslave", CStyle, DIR_SBIN, SUID_DROP, usage)),
        132 => Some(describe("ifplugd", "ifplugd", CStyle, DIR_USR_SBIN, SUID_DROP, usage)),
        133 => Some(describe("ifup", "ifupdown", CStyle, DIR_SBIN, SUID_DROP, usage)),
        134 => Some(describe("inetd", "inetd", CStyle, DIR_USR_SBIN, SUID_DROP, usage)),
        135 => Some(describe("init", "init", CStyle, DIR_SBIN, SUID_DROP, usage)),
        136 => Some(describe("insmod", "modprobe", CStyle, DIR_SBIN, SUID_DROP, usage)),
        137 => Some(describe("install", "install", CStyle, DIR_USR_BIN, SUID_DROP, usage)),
        138 => Some(describe("ionice", "ionice", CStyle, DIR_BIN, SUID_DROP, usage)),
        139 => Some(describe("iostat", "iostat", CStyle, DIR_BIN, SUID_DROP, usage)),
        140 => Some(describe("ip", "ip", CStyle, DIR_SBIN, SUID_DROP, usage)),
        141 => Some(describe("ipaddr", "ipaddr", CStyle, DIR_SBIN, SUID_DROP, usage)),
        142 => Some(describe("ipcalc", "ipcalc", CStyle, DIR_BIN, SUID_DROP, usage)),
        143 => Some(describe("ipcrm", "ipcrm", CStyle, DIR_USR_BIN, SUID_DROP, usage)),
        144 => Some(describe("ipcs", "ipcs", CStyle, DIR_USR_BIN, SUID_DROP, usage)),
        145 => Some(describe("iplink", "iplink", CStyle, DIR_SBIN, SUID_DROP, usage)),
        146 => Some(describe("ipneigh", "ipneigh", CStyle, DIR_SBIN, SUID_DROP, usage)),
        147 => Some(describe("iproute", "iproute", CStyle, DIR_SBIN, SUID_DROP, usage)),
        148 => Some(describe("iprule", "iprule", CStyle, DIR_SBIN, SUID_DROP, usage)),
        149 => Some(describe("iptunnel", "iptunnel", CStyle, DIR_SBIN, SUID_DROP, usage)),
        150 => Some(describe("kbd_mode", "kbd_mode", CStyle, DIR_BIN, SUID_DROP, usage)),
        151 => Some(describe("kill", "kill", CStyle, DIR_BIN, SUID_DROP, usage)),
        152 => Some(describe("killall", "kill", CStyle, DIR_USR_BIN, SUID_DROP, usage)),
        153 => Some(describe("killall5", "kill", CStyle, DIR_USR_SBIN, SUID_DROP, usage)),
        154 => Some(describe("klogd", "klogd", CStyle, DIR_SBIN, SUID_DROP, usage)),
        155 => Some(describe("last", "last", CStyle, DIR_USR_BIN, SUID_DROP, usage)),
        156 => Some(describe("less", "less", CStyle, DIR_USR_BIN, SUID_DROP, usage)),
        157 => Some(describe("link", "link", CStyle, DIR_BIN, SUID_DROP, usage)),
        158 => Some(describe("linux32", "setarch", CStyle, DIR_BIN, SUID_DROP, usage)),
        159 => Some(describe("linux64", "setarch", CStyle, DIR_BIN, SUID_DROP, usage)),
        160 => Some(describe("linuxrc", "init", CStyle, DIR_ROOT, SUID_DROP, usage)),
        161 => Some(describe("ln", "ln", CStyle, DIR_BIN, SUID_DROP, usage)),
        162 => Some(describe("loadfont", "loadfont", CStyle, DIR_USR_SBIN, SUID_DROP, usage)),
        163 => Some(describe("loadkmap", "loadkmap", CStyle, DIR_SBIN, SUID_DROP, usage)),
        164 => Some(describe("logger", "logger", CStyle, DIR_USR_BIN, SUID_DROP, usage)),
        165 => Some(describe("login", "login", CStyle, DIR_BIN, SUID_REQUIRE, usage)),
        166 => Some(describe("logname", "logname", CStyle, DIR_USR_BIN, SUID_DROP, usage)),
        167 => Some(describe("logread", "logread", CStyle, DIR_SBIN, SUID_DROP, usage)),
        168 => Some(describe("losetup", "losetup", CStyle, DIR_SBIN, SUID_DROP, usage)),
        169 => Some(describe("lpd", "lpd", CStyle, DIR_USR_SBIN, SUID_DROP, usage)),
        170 => Some(describe("lpq", "lpqr", CStyle, DIR_USR_BIN, SUID_DROP, usage)),
        171 => Some(describe("lpr", "lpqr", CStyle, DIR_USR_BIN, SUID_DROP, usage)),
        172 => Some(describe("ls", "ls", CStyle, DIR_BIN, SUID_DROP, usage)),
        173 => Some(describe("lsattr", "lsattr", CStyle, DIR_BIN, SUID_DROP, usage)),
        174 => Some(describe("lsmod", "lsmod", CStyle, DIR_SBIN, SUID_DROP, usage)),
        175 => Some(describe("lsof", "lsof", CStyle, DIR_USR_BIN, SUID_DROP, usage)),
        176 => Some(describe("lspci", "lspci", CStyle, DIR_USR_BIN, SUID_DROP, usage)),
        177 => Some(describe("lsscsi", "lsscsi", CStyle, DIR_USR_BIN, SUID_DROP, usage)),
        178 => Some(describe("lsusb", "lsusb", CStyle, DIR_USR_BIN, SUID_DROP, usage)),
        179 => Some(describe("lzcat", "unlzma", CStyle, DIR_USR_BIN, SUID_DROP, usage)),
        180 => Some(describe("lzma", "unlzma", CStyle, DIR_USR_BIN, SUID_DROP, usage)),
        181 => Some(describe("lzop", "lzop", CStyle, DIR_BIN, SUID_DROP, usage)),
        182 => Some(describe("makedevs", "makedevs", CStyle, DIR_SBIN, SUID_DROP, usage)),
        183 => Some(describe("makemime", "makemime", CStyle, DIR_BIN, SUID_DROP, usage)),
        184 => Some(describe("man", "man", CStyle, DIR_USR_BIN, SUID_DROP, usage)),
        185 => Some(describe("md5sum", "md5_sha1_sum", CStyle, DIR_USR_BIN, SUID_DROP, usage)),
        186 => Some(describe("mdev", "mdev", CStyle, DIR_SBIN, SUID_DROP, usage)),
        187 => Some(describe("mesg", "mesg", CStyle, DIR_USR_BIN, SUID_DROP, usage)),
        188 => Some(describe("microcom", "microcom", CStyle, DIR_USR_BIN, SUID_DROP, usage)),
        189 => Some(describe("mkdir", "mkdir", CStyle, DIR_BIN, SUID_DROP, usage)),
        190 => Some(describe("mkdosfs", "mkfs_vfat", CStyle, DIR_SBIN, SUID_DROP, usage)),
        191 => Some(describe("mke2fs", "mkfs_ext2", CStyle, DIR_SBIN, SUID_DROP, usage)),
        192 => Some(describe("mkfifo", "mkfifo", CStyle, DIR_USR_BIN, SUID_DROP, usage)),
        193 => Some(describe("mkfs.ext2", "mkfs_ext2", CStyle, DIR_SBIN, SUID_DROP, usage)),
        194 => Some(describe("mkfs.minix", "mkfs_minix", CStyle, DIR_SBIN, SUID_DROP, usage)),
        195 => Some(describe("mkfs.vfat", "mkfs_vfat", CStyle, DIR_SBIN, SUID_DROP, usage)),
        196 => Some(describe("mknod", "mknod", CStyle, DIR_BIN, SUID_DROP, usage)),
        197 => Some(describe("mkpasswd", "cryptpw", CStyle, DIR_USR_BIN, SUID_DROP, usage)),
        198 => Some(describe("mkswap", "mkswap", CStyle, DIR_SBIN, SUID_DROP, usage)),
        199 => Some(describe("mktemp", "mktemp", CStyle, DIR_BIN, SUID_DROP, usage)),
        200 => Some(describe("modinfo", "modinfo", CStyle, DIR_SBIN, SUID_DROP, usage)),
        201 => Some(describe("modprobe", "modprobe", CStyle, DIR_SBIN, SUID_DROP, usage)),
        202 => Some(describe("more", "more", CStyle, DIR_BIN, SUID_DROP, usage)),
        203 => Some(describe("mount", "mount", CStyle, DIR_BIN, SUID_MAYBE, usage)),
        204 => Some(describe("mountpoint", "mountpoint", CStyle, DIR_BIN, SUID_DROP, usage)),
        205 => Some(describe("mpstat", "mpstat", CStyle, DIR_BIN, SUID_DROP, usage)),
        206 => Some(describe("mt", "mt", CStyle, DIR_BIN, SUID_DROP, usage)),
        207 => Some(describe("mv", "mv", CStyle, DIR_BIN, SUID_DROP, usage)),
        208 => Some(describe("nameif", "nameif", CStyle, DIR_SBIN, SUID_DROP, usage)),
        209 => Some(describe("nanddump", "nandwrite", CStyle, DIR_USR_SBIN, SUID_DROP, usage)),
        210 => Some(describe("nandwrite", "nandwrite", CStyle, DIR_USR_SBIN, SUID_DROP, usage)),
        211 => Some(describe("nbd-client", "nbdclient", CStyle, DIR_USR_SBIN, SUID_DROP, usage)),
        212 => Some(describe("nc", "nc", CStyle, DIR_USR_BIN, SUID_DROP, usage)),
        213 => Some(describe("netstat", "netstat", CStyle, DIR_BIN, SUID_DROP, usage)),
        214 => Some(describe("nice", "nice", CStyle, DIR_BIN, SUID_DROP, usage)),
        215 => Some(describe("nl", "nl", CStyle, DIR_USR_BIN, SUID_DROP, usage)),
        216 => Some(describe("nmeter", "nmeter", CStyle, DIR_USR_BIN, SUID_DROP, usage)),
        217 => Some(describe("nohup", "nohup", CStyle, DIR_USR_BIN, SUID_DROP, usage)),
        218 => Some(describe("nproc", "nproc", CStyle, DIR_USR_BIN, SUID_DROP, usage)),
        219 => Some(describe("nsenter", "nsenter", CStyle, DIR_USR_BIN, SUID_DROP, usage)),
        220 => Some(describe("nslookup", "nslookup", CStyle, DIR_USR_BIN, SUID_DROP, usage)),
        221 => Some(describe("ntpd", "ntpd", CStyle, DIR_USR_SBIN, SUID_DROP, usage)),
        222 => Some(describe("nuke", "nuke", CStyle, DIR_BIN, SUID_DROP, usage)),
        223 => Some(describe("od", "od", CStyle, DIR_USR_BIN, SUID_DROP, usage)),
        224 => Some(describe("openvt", "openvt", CStyle, DIR_USR_BIN, SUID_DROP, usage)),
        225 => Some(describe("partprobe", "partprobe", CStyle, DIR_USR_SBIN, SUID_DROP, usage)),
        226 => Some(describe("passwd", "passwd", CStyle, DIR_USR_BIN, SUID_REQUIRE, usage)),
        227 => Some(describe("paste", "paste", CStyle, DIR_USR_BIN, SUID_DROP, usage)),
        228 => Some(describe("patch", "patch", CStyle, DIR_USR_BIN, SUID_DROP, usage)),
        229 => Some(describe("pgrep", "pgrep", CStyle, DIR_USR_BIN, SUID_DROP, usage)),
        230 => Some(describe("pidof", "pidof", CStyle, DIR_BIN, SUID_DROP, usage)),
        231 => Some(describe("ping", "ping", CStyle, DIR_BIN, SUID_MAYBE, usage)),
        232 => Some(describe("ping6", "ping6", CStyle, DIR_BIN, SUID_MAYBE, usage)),
        233 => Some(describe("pipe_progress", "pipe_progress", CStyle, DIR_BIN, SUID_DROP, usage)),
        234 => Some(describe("pivot_root", "pivot_root", CStyle, DIR_SBIN, SUID_DROP, usage)),
        235 => Some(describe("pkill", "pgrep", CStyle, DIR_USR_BIN, SUID_DROP, usage)),
        236 => Some(describe("pmap", "pmap", CStyle, DIR_USR_BIN, SUID_DROP, usage)),
        237 => Some(describe("popmaildir", "popmaildir", CStyle, DIR_USR_SBIN, SUID_DROP, usage)),
        238 => Some(describe("poweroff", "halt", CStyle, DIR_SBIN, SUID_DROP, usage)),
        239 => Some(describe("powertop", "powertop", CStyle, DIR_USR_SBIN, SUID_DROP, usage)),
        240 => Some(describe("printenv", "printenv", CStyle, DIR_BIN, SUID_DROP, usage)),
        241 => Some(describe("printf", "printf", CStyle, DIR_USR_BIN, SUID_DROP, usage)),
        242 => Some(describe("ps", "ps", CStyle, DIR_BIN, SUID_DROP, usage)),
        243 => Some(describe("pscan", "pscan", CStyle, DIR_USR_BIN, SUID_DROP, usage)),
        244 => Some(describe("pstree", "pstree", CStyle, DIR_USR_BIN, SUID_DROP, usage)),
        245 => Some(describe("pwd", "pwd", CStyle, DIR_BIN, SUID_DROP, usage)),
        246 => Some(describe("pwdx", "pwdx", CStyle, DIR_USR_BIN, SUID_DROP, usage)),
        247 => Some(describe("raidautorun", "raidautorun", CStyle, DIR_SBIN, SUID_DROP, usage)),
        248 => Some(describe("rdate", "rdate", CStyle, DIR_USR_SBIN, SUID_DROP, usage)),
        249 => Some(describe("rdev", "rdev", CStyle, DIR_USR_SBIN, SUID_DROP, usage)),
        250 => Some(describe("readahead", "readahead", CStyle, DIR_USR_SBIN, SUID_DROP, usage)),
        251 => Some(describe("readlink", "readlink", CStyle, DIR_USR_BIN, SUID_DROP, usage)),
        252 => Some(describe("readprofile", "readprofile", CStyle, DIR_USR_SBIN, SUID_DROP, usage)),
        253 => Some(describe("realpath", "realpath", CStyle, DIR_USR_BIN, SUID_DROP, usage)),
        254 => Some(describe("reboot", "halt", CStyle, DIR_SBIN, SUID_DROP, usage)),
        255 => Some(describe("reformime", "reformime", CStyle, DIR_BIN, SUID_DROP, usage)),
        256 => Some(describe("remove-shell", "add_remove_shell", CStyle, DIR_USR_SBIN, SUID_DROP, usage)),
        257 => Some(describe("renice", "renice", CStyle, DIR_USR_BIN, SUID_DROP, usage)),
        258 => Some(describe("reset", "reset", CStyle, DIR_USR_BIN, SUID_DROP, usage)),
        259 => Some(describe("resize", "resize", CStyle, DIR_USR_BIN, SUID_DROP, usage)),
        260 => Some(describe("resume", "resume", CStyle, DIR_BIN, SUID_DROP, usage)),
        261 => Some(describe("rev", "rev", CStyle, DIR_BIN, SUID_DROP, usage)),
        262 => Some(describe("rm", "rm", CStyle, DIR_BIN, SUID_DROP, usage)),
        263 => Some(describe("rmdir", "rmdir", CStyle, DIR_BIN, SUID_DROP, usage)),
        264 => Some(describe("rmmod", "modprobe", CStyle, DIR_SBIN, SUID_DROP, usage)),
        265 => Some(describe("route", "route", CStyle, DIR_SBIN, SUID_DROP, usage)),
        266 => Some(describe("rpm", "rpm", CStyle, DIR_BIN, SUID_DROP, usage)),
        267 => Some(describe("rpm2cpio", "rpm2cpio", CStyle, DIR_USR_BIN, SUID_DROP, usage)),
        268 => Some(describe("rtcwake", "rtcwake", CStyle, DIR_USR_SBIN, SUID_DROP, usage)),
        269 => Some(describe("run-init", "switch_root", CStyle, DIR_SBIN, SUID_DROP, usage)),
        270 => Some(describe("run-parts", "run_parts", CStyle, DIR_BIN, SUID_DROP, usage)),
        271 => Some(describe("runlevel", "runlevel", CStyle, DIR_SBIN, SUID_DROP, usage)),
        272 => Some(describe("runsv", "runsv", CStyle, DIR_USR_BIN, SUID_DROP, usage)),
        273 => Some(describe("runsvdir", "runsvdir", CStyle, DIR_USR_BIN, SUID_DROP, usage)),
        274 => Some(describe("rx", "rx", CStyle, DIR_USR_BIN, SUID_DROP, usage)),
        275 => Some(describe("script", "script", CStyle, DIR_USR_BIN, SUID_DROP, usage)),
        276 => Some(describe("scriptreplay", "scriptreplay", CStyle, DIR_BIN, SUID_DROP, usage)),
        277 => Some(describe("sed", "sed", CStyle, DIR_BIN, SUID_DROP, usage)),
        278 => Some(describe("sendmail", "sendmail", CStyle, DIR_USR_SBIN, SUID_DROP, usage)),
        279 => Some(describe("seq", "seq", CStyle, DIR_USR_BIN, SUID_DROP, usage)),
        280 => Some(describe("setarch", "setarch", CStyle, DIR_BIN, SUID_DROP, usage)),
        281 => Some(describe("setconsole", "setconsole", CStyle, DIR_SBIN, SUID_DROP, usage)),
        282 => Some(describe("setfattr", "setfattr", CStyle, DIR_USR_BIN, SUID_DROP, usage)),
        283 => Some(describe("setfont", "setfont", CStyle, DIR_USR_SBIN, SUID_DROP, usage)),
        284 => Some(describe("setkeycodes", "setkeycodes", CStyle, DIR_USR_BIN, SUID_DROP, usage)),
        285 => Some(describe("setlogcons", "setlogcons", CStyle, DIR_USR_SBIN, SUID_DROP, usage)),
        286 => Some(describe("setpriv", "setpriv", CStyle, DIR_BIN, SUID_DROP, usage)),
        287 => Some(describe("setserial", "setserial", CStyle, DIR_BIN, SUID_DROP, usage)),
        288 => Some(describe("setsid", "setsid", CStyle, DIR_USR_BIN, SUID_DROP, usage)),
        289 => Some(describe("setuidgid", "chpst", CStyle, DIR_USR_BIN, SUID_DROP, usage)),
        290 => Some(describe("sh", "ash", CStyle, DIR_BIN, SUID_DROP, usage)),
        291 => Some(describe("sha1sum", "md5_sha1_sum", CStyle, DIR_USR_BIN, SUID_DROP, usage)),
        292 => Some(describe("sha256sum", "md5_sha1_sum", CStyle, DIR_USR_BIN, SUID_DROP, usage)),
        293 => Some(describe("sha3sum", "md5_sha1_sum", CStyle, DIR_USR_BIN, SUID_DROP, usage)),
        294 => Some(describe("sha512sum", "md5_sha1_sum", CStyle, DIR_USR_BIN, SUID_DROP, usage)),
        295 => Some(describe("showkey", "showkey", CStyle, DIR_USR_BIN, SUID_DROP, usage)),
        296 => Some(describe("shred", "shred", CStyle, DIR_USR_BIN, SUID_DROP, usage)),
        297 => Some(describe("shuf", "shuf", CStyle, DIR_USR_BIN, SUID_DROP, usage)),
        298 => Some(describe("slattach", "slattach", CStyle, DIR_SBIN, SUID_DROP, usage)),
        299 => Some(describe("sleep", "sleep", CStyle, DIR_BIN, SUID_DROP, usage)),
        300 => Some(describe("smemcap", "smemcap", CStyle, DIR_USR_BIN, SUID_DROP, usage)),
        301 => Some(describe("softlimit", "chpst", CStyle, DIR_USR_BIN, SUID_DROP, usage)),
        302 => Some(describe("sort", "sort", CStyle, DIR_USR_BIN, SUID_DROP, usage)),
        303 => Some(describe("split", "split", CStyle, DIR_USR_BIN, SUID_DROP, usage)),
        304 => Some(describe("ssl_client", "ssl_client", CStyle, DIR_USR_BIN, SUID_DROP, usage)),
        305 => Some(describe("start-stop-daemon", "start_stop_daemon", CStyle, DIR_SBIN, SUID_DROP, usage)),
        306 => Some(describe("stat", "stat", CStyle, DIR_BIN, SUID_DROP, usage)),
        307 => Some(describe("strings", "strings", CStyle, DIR_USR_BIN, SUID_DROP, usage)),
        308 => Some(describe("stty", "stty", CStyle, DIR_BIN, SUID_DROP, usage)),
        309 => Some(describe("su", "su", CStyle, DIR_BIN, SUID_REQUIRE, usage)),
        310 => Some(describe("sulogin", "sulogin", CStyle, DIR_SBIN, SUID_DROP, usage)),
        311 => Some(describe("sum", "sum", CStyle, DIR_USR_BIN, SUID_DROP, usage)),
        312 => Some(describe("sv", "sv", CStyle, DIR_USR_BIN, SUID_DROP, usage)),
        313 => Some(describe("svc", "svc", CStyle, DIR_USR_BIN, SUID_DROP, usage)),
        314 => Some(describe("svlogd", "svlogd", CStyle, DIR_USR_SBIN, SUID_DROP, usage)),
        315 => Some(describe("svok", "svok", CStyle, DIR_USR_BIN, SUID_DROP, usage)),
        316 => Some(describe("swapoff", "swap_on_off", CStyle, DIR_SBIN, SUID_DROP, usage)),
        317 => Some(describe("swapon", "swap_on_off", CStyle, DIR_SBIN, SUID_DROP, usage)),
        318 => Some(describe("switch_root", "switch_root", CStyle, DIR_SBIN, SUID_DROP, usage)),
        319 => Some(describe("sync", "sync", CStyle, DIR_BIN, SUID_DROP, usage)),
        320 => Some(describe("sysctl", "sysctl", CStyle, DIR_SBIN, SUID_DROP, usage)),
        321 => Some(describe("syslogd", "syslogd", CStyle, DIR_SBIN, SUID_DROP, usage)),
        322 => Some(describe("tac", "tac", CStyle, DIR_USR_BIN, SUID_DROP, usage)),
        323 => Some(describe("tail", "tail", CStyle, DIR_USR_BIN, SUID_DROP, usage)),
        324 => Some(describe("tar", "tar", CStyle, DIR_BIN, SUID_DROP, usage)),
        325 => Some(describe("taskset", "taskset", CStyle, DIR_USR_BIN, SUID_DROP, usage)),
        326 => Some(describe("tc", "tc", CStyle, DIR_SBIN, SUID_DROP, usage)),
        327 => Some(describe("tcpsvd", "tcpudpsvd", CStyle, DIR_USR_BIN, SUID_DROP, usage)),
        328 => Some(describe("tee", "tee", CStyle, DIR_USR_BIN, SUID_DROP, usage)),
        329 => Some(describe("telnet", "telnet", CStyle, DIR_USR_BIN, SUID_DROP, usage)),
        330 => Some(describe("telnetd", "telnetd", CStyle, DIR_USR_SBIN, SUID_DROP, usage)),
        331 => Some(describe("test", "test", CStyle, DIR_USR_BIN, SUID_DROP, usage)),
        332 => Some(describe("tftp", "tftp", CStyle, DIR_USR_BIN, SUID_DROP, usage)),
        333 => Some(describe("tftpd", "tftpd", CStyle, DIR_USR_SBIN, SUID_DROP, usage)),
        334 => Some(describe("time", "time", CStyle, DIR_USR_BIN, SUID_DROP, usage)),
        335 => Some(describe("timeout", "timeout", CStyle, DIR_USR_BIN, SUID_DROP, usage)),
        336 => Some(describe("top", "top", CStyle, DIR_USR_BIN, SUID_DROP, usage)),
        337 => Some(describe("touch", "touch", CStyle, DIR_BIN, SUID_DROP, usage)),
        338 => Some(describe("tr", "tr", CStyle, DIR_USR_BIN, SUID_DROP, usage)),
        339 => Some(describe("traceroute", "traceroute", CStyle, DIR_USR_BIN, SUID_MAYBE, usage)),
        340 => Some(describe("traceroute6", "traceroute6", CStyle, DIR_USR_BIN, SUID_MAYBE, usage)),
        341 => Some(describe("true", "true", SafeStyle, DIR_BIN, SUID_DROP, usage)),
        342 => Some(describe("truncate", "truncate", CStyle, DIR_USR_BIN, SUID_DROP, usage)),
        343 => Some(describe("ts", "ts", CStyle, DIR_USR_BIN, SUID_DROP, usage)),
        344 => Some(describe("tty", "tty", CStyle, DIR_USR_BIN, SUID_DROP, usage)),
        345 => Some(describe("ttysize", "ttysize", CStyle, DIR_USR_BIN, SUID_DROP, usage)),
        346 => Some(describe("tunctl", "tunctl", CStyle, DIR_SBIN, SUID_DROP, usage)),
        347 => Some(describe("ubiattach", "ubi_tools", CStyle, DIR_USR_SBIN, SUID_DROP, usage)),
        348 => Some(describe("ubidetach", "ubi_tools", CStyle, DIR_USR_SBIN, SUID_DROP, usage)),
        349 => Some(describe("ubimkvol", "ubi_tools", CStyle, DIR_USR_SBIN, SUID_DROP, usage)),
        350 => Some(describe("ubirename", "ubirename", CStyle, DIR_USR_SBIN, SUID_DROP, usage)),
        351 => Some(describe("ubirmvol", "ubi_tools", CStyle, DIR_USR_SBIN, SUID_DROP, usage)),
        352 => Some(describe("ubirsvol", "ubi_tools", CStyle, DIR_USR_SBIN, SUID_DROP, usage)),
        353 => Some(describe("ubiupdatevol", "ubi_tools", CStyle, DIR_USR_SBIN, SUID_DROP, usage)),
        354 => Some(describe("udhcpc", "udhcpc", CStyle, DIR_SBIN, SUID_DROP, usage)),
        355 => Some(describe("udhcpc6", "udhcpc6", CStyle, DIR_USR_BIN, SUID_DROP, usage)),
        356 => Some(describe("udhcpd", "udhcpd", CStyle, DIR_USR_SBIN, SUID_DROP, usage)),
        357 => Some(describe("udpsvd", "tcpudpsvd", CStyle, DIR_USR_BIN, SUID_DROP, usage)),
        358 => Some(describe("uevent", "uevent", CStyle, DIR_SBIN, SUID_DROP, usage)),
        359 => Some(describe("umount", "umount", CStyle, DIR_BIN, SUID_DROP, usage)),
        360 => Some(describe("uname", "uname", CStyle, DIR_BIN, SUID_DROP, usage)),
        361 => Some(describe("unexpand", "expand", CStyle, DIR_USR_BIN, SUID_DROP, usage)),
        362 => Some(describe("uniq", "uniq", CStyle, DIR_USR_BIN, SUID_DROP, usage)),
        363 => Some(describe("unix2dos", "dos2unix", CStyle, DIR_USR_BIN, SUID_DROP, usage)),
        364 => Some(describe("unlink", "unlink", CStyle, DIR_USR_BIN, SUID_DROP, usage)),
        365 => Some(describe("unlzma", "unlzma", CStyle, DIR_USR_BIN, SUID_DROP, usage)),
        366 => Some(describe("unshare", "unshare", CStyle, DIR_USR_BIN, SUID_DROP, usage)),
        367 => Some(describe("unxz", "unxz", CStyle, DIR_USR_BIN, SUID_DROP, usage)),
        368 => Some(describe("unzip", "unzip", CStyle, DIR_USR_BIN, SUID_DROP, usage)),
        369 => Some(describe("uptime", "uptime", CStyle, DIR_USR_BIN, SUID_DROP, usage)),
        370 => Some(describe("users", "who", CStyle, DIR_USR_BIN, SUID_DROP, usage)),
        371 => Some(describe("usleep", "usleep", CStyle, DIR_BIN, SUID_DROP, usage)),
        372 => Some(describe("uudecode", "uudecode", CStyle, DIR_USR_BIN, SUID_DROP, usage)),
        373 => Some(describe("uuencode", "uuencode", CStyle, DIR_USR_BIN, SUID_DROP, usage)),
        374 => Some(describe("vconfig", "vconfig", CStyle, DIR_SBIN, SUID_DROP, usage)),
        375 => Some(describe("vi", "vi", CStyle, DIR_BIN, SUID_DROP, usage)),
        376 => Some(describe("vlock", "vlock", CStyle, DIR_USR_BIN, SUID_REQUIRE, usage)),
        377 => Some(describe("volname", "volname", CStyle, DIR_USR_BIN, SUID_DROP, usage)),
        378 => Some(describe("w", "who", CStyle, DIR_USR_BIN, SUID_DROP, usage)),
        379 => Some(describe("wall", "wall", CStyle, DIR_USR_BIN, SUID_REQUIRE, usage)),
        380 => Some(describe("watch", "watch", CStyle, DIR_BIN, SUID_DROP, usage)),
        381 => Some(describe("watchdog", "watchdog", CStyle, DIR_SBIN, SUID_DROP, usage)),
        382 => Some(describe("wc", "wc", CStyle, DIR_USR_BIN, SUID_DROP, usage)),
        383 => Some(describe("wget", "wget", CStyle, DIR_USR_BIN, SUID_DROP, usage)),
        384 => Some(describe("which", "which", CStyle, DIR_USR_BIN, SUID_DROP, usage)),
        385 => Some(describe("who", "who", CStyle, DIR_USR_BIN, SUID_DROP, usage)),
        386 => Some(describe("whoami", "whoami", CStyle, DIR_USR_BIN, SUID_DROP, usage)),
        387 => Some(describe("whois", "whois", CStyle, DIR_USR_BIN, SUID_DROP, usage)),
        388 => Some(describe("xargs", "xargs", CStyle, DIR_USR_BIN, SUID_DROP, usage)),
        389 => Some(describe("xxd", "xxd", CStyle, DIR_USR_BIN, SUID_DROP, usage)),
        390 => Some(describe("xz", "unxz", CStyle, DIR_USR_BIN, SUID_DROP, usage)),
        391 => Some(describe("xzcat", "unxz", CStyle, DIR_USR_BIN, SUID_DROP, usage)),
        392 => Some(describe("yes", "yes", SafeStyle, DIR_USR_BIN, SUID_DROP, usage)),
        393 => Some(describe("zcat", "gunzip", CStyle, DIR_BIN, SUID_DROP, usage)),
        394 => Some(describe("zcip", "zcip", CStyle, DIR_SBIN, SUID_DROP, usage)),
        _ => None,
    }
}

/// Row `i` of the built-in table, with `usage` for its help text; `None`
/// past the end of the table.
pub fn builtin_applet(i: usize, usage: &'static str) -> (r: Option<applet>)
    ensures
        r == builtin_row(i, usage),
        r is Some <==> i < BUILTIN_COUNT,
{
    match i {
        0 => Some(applet::new("[", "test", CStyle, DIR_USR_BIN, SUID_DROP, usage)),
        1 => Some(applet::new("[[", "test", CStyle, DIR_USR_BIN, SUID_DROP, usage)),
        2 => Some(applet::new("acpid", "acpid", CStyle, DIR_SBIN, SUID_DROP, usage)),
        3 => Some(applet::new("add-shell", "add_remove_shell", CStyle, DIR_USR_SBIN, SUID_DROP, usage)),
        4 => Some(applet::new("addgroup", "addgroup", CStyle, DIR_USR_SBIN, SUID_DROP, usage)),
        5 => Some(applet::new("adduser", "adduser", CStyle, DIR_USR_SBIN, SUID_DROP, usage)),
        6 => Some(applet::new("adjtimex", "adjtimex", CStyle, DIR_SBIN, SUID_DROP, usage)),
        7 => Some(applet::new("arch", "uname", CStyle, DIR_BIN, SUID_DROP, usage)),
        8 => Some(applet::new("arp", "arp", CStyle, DIR_SBIN, SUID_DROP, usage)),
        9 => Some(applet::new("arping", "arping", CStyle, DIR_USR_SBIN, SUID_DROP, usage)),
        10 => Some(applet::new("ash", "ash", CStyle, DIR_BIN, SUID_DROP, usage)),
        11 => Some(applet::new("awk", "awk", CStyle, DIR_USR_BIN, SUID_DROP, usage)),
        12 => Some(applet::new("base64", "base64", CStyle, DIR_BIN, SUID_DROP, usage)),
        13 => Some(applet::new("basename", "basename", CStyle, DIR_USR_BIN, SUID_DROP, usage)),
        14 => Some(applet::new("bc", "bc", CStyle, DIR_USR_BIN, SUID_DROP, usage)),
        15 => Some(applet::new("beep", "beep", CStyle, DIR_USR_BIN, SUID_DROP, usage)),
        16 => Some(applet::new("blkdiscard", "blkdiscard", CStyle, DIR_USR_BIN, SUID_DROP, usage)),
        17 => Some(applet::new("blkid", "blkid", CStyle, DIR_SBIN, SUID_DROP, usage)),
        18 => Some(applet::new("blockdev", "blockdev", CStyle, DIR_SBIN, SUID_DROP, usage)),
        19 => Some(applet::new("bootchartd", "bootchartd", CStyle, DIR_SBIN, SUID_DROP, usage)),
        20 => Some(applet::new("brctl", "brctl", CStyle, DIR_USR_SBIN, SUID_DROP, usage)),
        21 => Some(applet::new("bunzip2", "bunzip2", CStyle, DIR_USR_BIN, SUID_DROP, usage)),
        22 => Some(applet::new("bzcat", "bunzip2", CStyle, DIR_USR_BIN, SUID_DROP, usage)),
        23 => Some(applet::new("bzip2", "bzip2", CStyle, DIR_USR_BIN, SUID_DROP, usage)),
        24 => Some(applet::new("cal", "cal", CStyle, DIR_USR_BIN, SUID_DROP, usage)),
        25 => Some(applet::new("cat", "cat", CStyle, DIR_BIN, SUID_DROP, usage)),
        26 => Some(applet::new("chat", "chat", CStyle, DIR_USR_SBIN, SUID_DROP, usage)),
        27 => Some(applet::new("chattr", "chattr", CStyle, DIR_BIN, SUID_DROP, usage)),
        28 => Some(applet::new("chgrp", "chgrp", CStyle, DIR_BIN, SUID_DROP, usage)),
        29 => Some(applet::new("chmod", "chmod", CStyle, DIR_BIN, SUID_DROP, usage)),
        30 => Some(applet::new("chown", "chown", CStyle, DIR_BIN, SUID_DROP, usage)),
        31 => Some(applet::new("chpasswd", "chpasswd", CStyle, DIR_USR_SBIN, SUID_DROP, usage)),
        32 => Some(applet::new("chpst", "chpst", CStyle, DIR_USR_BIN, SUID_DROP, usage)),
        33 => Some(applet::new("chroot", "chroot", CStyle, DIR_USR_SBIN, SUID_DROP, usage)),
        34 => Some(applet::new("chrt", "chrt", CStyle, DIR_USR_BIN, SUID_DROP, usage)),
        35 => Some(applet::new("chvt", "chvt", CStyle, DIR_USR_BIN, SUID_DROP, usage)),
        36 => Some(applet::new("cksum", "cksum", CStyle, DIR_USR_BIN, SUID_DROP, usage)),
        37 => Some(applet::new("clear", "clear", CStyle, DIR_USR_BIN, SUID_DROP, usage)),
        38 => Some(applet::new("cmp", "cmp", CStyle, DIR_USR_BIN, SUID_DROP, usage)),
        39 => Some(applet::new("comm", "comm", CStyle, DIR_USR_BIN, SUID_DROP, usage)),
        40 => Some(applet::new("conspy", "conspy", CStyle, DIR_BIN, SUID_DROP, usage)),
        41 => Some(applet::new("cp", "cp", CStyle, DIR_BIN, SUID_DROP, usage)),
        42 => Some(applet::new("cpio", "cpio", CStyle, DIR_BIN, SUID_DROP, usage)),
        43 => Some(applet::new("crond", "crond", CStyle, DIR_USR_SBIN, SUID_DROP, usage)),
        44 => Some(applet::new("crontab", "crontab", CStyle, DIR_USR_BIN, SUID_REQUIRE, usage)),
        45 => Some(applet::new("cryptpw", "cryptpw", CStyle, DIR_USR_BIN, SUID_DROP, usage)),
        46 => Some(applet::new("cttyhack", "cttyhack", CStyle, DIR_BIN, SUID_DROP, usage)),
        47 => Some(applet::new("cut", "cut", CStyle, DIR_USR_BIN, SUID_DROP, usage)),
        48 => Some(applet::new("date", "date", CStyle, DIR_BIN, SUID_DROP, usage)),
        49 => Some(applet::new("dc", "dc", CStyle, DIR_USR_BIN, SUID_DROP, usage)),
        50 => Some(applet::new("dd", "dd", CStyle, DIR_BIN, SUID_DROP, usage)),
        51 => Some(applet::new("deallocvt", "deallocvt", CStyle, DIR_USR_BIN, SUID_DROP, usage)),
        52 => Some(applet::new("delgroup", "deluser", CStyle, DIR_USR_SBIN, SUID_DROP, usage)),
        53 => Some(applet::new("deluser", "deluser", CStyle, DIR_USR_SBIN, SUID_DROP, usage)),
        54 => Some(applet::new("depmod", "modprobe", CStyle, DIR_SBIN, SUID_DROP, usage)),
        55 => Some(applet::new("devmem", "devmem", CStyle, DIR_SBIN, SUID_DROP, usage)),
        56 => Some(applet::new("df", "df", CStyle, DIR_BIN, SUID_DROP, usage)),
        57 => Some(applet::new("dhcprelay", "dhcprelay", CStyle, DIR_USR_SBIN, SUID_DROP, usage)),
        58 => Some(applet::new("diff", "diff", CStyle, DIR_USR_BIN, SUID_DROP, usage)),
        59 => Some(applet::new("dirname", "dirname", CStyle, DIR_USR_BIN, SUID_DROP, usage)),
        60 => Some(applet::new("dmesg", "dmesg", CStyle, DIR_BIN, SUID_DROP, usage)),
        61 => Some(applet::new("dnsd", "dnsd", CStyle, DIR_USR_SBIN, SUID_DROP, usage)),
        62 => Some(applet::new("dnsdomainname", "hostname", CStyle, DIR_BIN, SUID_DROP, usage)),
        63 => Some(applet::new("dos2unix", "dos2unix", CStyle, DIR_USR_BIN, SUID_DROP, usage)),
        64 => Some(applet::new("dpkg", "dpkg", CStyle, DIR_USR_BIN, SUID_DROP, usage)),
        65 => Some(applet::new("dpkg-deb", "dpkg_deb", CStyle, DIR_USR_BIN, SUID_DROP, usage)),
        66 => Some(applet::new("du", "du", CStyle, DIR_USR_BIN, SUID_DROP, usage)),
        67 => Some(applet::new("dumpkmap", "dumpkmap", CStyle, DIR_BIN, SUID_DROP, usage)),
        68 => Some(applet::new("dumpleases", "dumpleases", CStyle, DIR_USR_BIN, SUID_DROP, usage)),
        69 => Some(applet::new("echo", "echo", CStyle, DIR_BIN, SUID_DROP, usage)),
        70 => Some(applet::new("ed", "ed", CStyle, DIR_BIN, SUID_DROP, usage)),
        71 => Some(applet::new("egrep", "grep", CStyle, DIR_BIN, SUID_DROP, usage)),
        72 => Some(applet::new("eject", "eject", CStyle, DIR_USR_BIN, SUID_DROP, usage)),
        73 => Some(applet::new("env", "env", CStyle, DIR_USR_BIN, SUID_DROP, usage)),
        74 => Some(applet::new("envdir", "chpst", CStyle, DIR_USR_BIN, SUID_DROP, usage)),
        75 => Some(applet::new("envuidgid", "chpst", CStyle, DIR_USR_BIN, SUID_DROP, usage)),
        76 => Some(applet::new("ether-wake", "ether_wake", CStyle, DIR_USR_SBIN, SUID_DROP, usage)),
        77 => Some(applet::new("expand", "expand", CStyle, DIR_USR_BIN, SUID_DROP, usage)),
        78 => Some(applet::new("expr", "expr", CStyle, DIR_USR_BIN, SUID_DROP, usage)),
        79 => Some(applet::new("factor", "factor", CStyle, DIR_USR_BIN, SUID_DROP, usage)),
        80 => Some(applet::new("fakeidentd", "fakeidentd", CStyle, DIR_USR_SBIN, SUID_DROP, usage)),
        81 => Some(applet::new("fallocate", "fallocate", CStyle, DIR_USR_BIN, SUID_DROP, usage)),
        82 => Some(applet::new("false", "false", SafeStyle, DIR_BIN, SUID_DROP, usage)),
        83 => Some(applet::new("fatattr", "fatattr", CStyle, DIR_BIN, SUID_DROP, usage)),
        84 => Some(applet::new("fbset", "fbset", CStyle, DIR_USR_SBIN, SUID_DROP, usage)),
        85 => Some(applet::new("fbsplash", "fbsplash", CStyle, DIR_SBIN, SUID_DROP, usage)),
        86 => Some(applet::new("fdflush", "freeramdisk", CStyle, DIR_BIN, SUID_DROP, usage)),
        87 => Some(applet::new("fdformat", "fdformat", CStyle, DIR_USR_SBIN, SUID_DROP, usage)),
        88 => Some(applet::new("fdisk", "fdisk", CStyle, DIR_SBIN, SUID_DROP, usage)),
        89 => Some(applet::new("fgconsole", "fgconsole", CStyle, DIR_USR_BIN, SUID_DROP, usage)),
        90 => Some(applet::new("fgrep", "grep", CStyle, DIR_BIN, SUID_DROP, usage)),
        91 => Some(applet::new("find", "find", CStyle, DIR_USR_BIN, SUID_DROP, usage)),
        92 => Some(applet::new("findfs", "findfs", CStyle, DIR_SBIN, SUID_MAYBE, usage)),
        93 => Some(applet::new("flock", "flock", CStyle, DIR_USR_BIN, SUID_DROP, usage)),
        94 => Some(applet::new("fold", "fold", CStyle, DIR_USR_BIN, SUID_DROP, usage)),
        95 => Some(applet::new("free", "free", CStyle, DIR_USR_BIN, SUID_DROP, usage)),
        96 => Some(applet::new("freeramdisk", "freeramdisk", CStyle, DIR_SBIN, SUID_DROP, usage)),
        97 => Some(applet::new("fsck", "fsck", CStyle, DIR_SBIN, SUID_DROP, usage)),
        98 => Some(applet::new("fsck.minix", "fsck_minix", CStyle, DIR_SBIN, SUID_DROP, usage)),
        99 => Some(applet::new("fsfreeze", "fsfreeze", CStyle, DIR_USR_SBIN, SUID_DROP, usage)),
        100 => Some(applet::new("fstrim", "fstrim", CStyle, DIR_SBIN, SUID_DROP, usage)),
        101 => Some(applet::new("fsync", "fsync", CStyle, DIR_BIN, SUID_DROP, usage)),
        102 => Some(applet::new("ftpd", "ftpd", CStyle, DIR_USR_SBIN, SUID_DROP, usage)),
        103 => Some(applet::new("ftpget", "ftpgetput", CStyle, DIR_USR_BIN, SUID_DROP, usage)),
        104 => Some(applet::new("ftpput", "ftpgetput", CStyle, DIR_USR_BIN, SUID_DROP, usage)),
        105 => Some(applet::new("fuser", "fuser", CStyle, DIR_USR_BIN, SUID_DROP, usage)),
        106 => Some(applet::new("getopt", "getopt", CStyle, DIR_BIN, SUID_DROP, usage)),
        107 => Some(applet::new("getty", "getty", CStyle, DIR_SBIN, SUID_DROP, usage)),
        108 => Some(applet::new("grep", "grep", CStyle, DIR_BIN, SUID_DROP, usage)),
        109 => Some(applet::new("groups", "id", CStyle, DIR_USR_BIN, SUID_DROP, usage)),
        110 => Some(applet::new("gunzip", "gunzip", CStyle, DIR_BIN, SUID_DROP, usage)),
        111 => Some(applet::new("gzip", "gzip", CStyle, DIR_BIN, SUID_DROP, usage)),
        112 => Some(applet::new("halt", "halt", CStyle, DIR_SBIN, SUID_DROP, usage)),
        113 => Some(applet::new("hd", "hexdump", CStyle, DIR_USR_BIN, SUID_DROP, usage)),
        114 => Some(applet::new("hdparm", "hdparm", CStyle, DIR_SBIN, SUID_DROP, usage)),
        115 => Some(applet::new("head", "head", CStyle, DIR_USR_BIN, SUID_DROP, usage)),
        116 => Some(applet::new("hexdump", "hexdump", CStyle, DIR_USR_BIN, SUID_DROP, usage)),
        117 => Some(applet::new("hexedit", "hexedit", CStyle, DIR_USR_BIN, SUID_DROP, usage)),
        118 => Some(applet::new("hostid", "hostid", CStyle, DIR_USR_BIN, SUID_DROP, usage)),
        119 => Some(applet::new("hostname", "hostname", CStyle, DIR_BIN, SUID_DROP, usage)),
        120 => Some(applet::new("httpd", "httpd", CStyle, DIR_USR_SBIN, SUID_DROP, usage)),
        121 => Some(applet::new("hush", "hush", CStyle, DIR_BIN, SUID_DROP, usage)),
        122 => Some(applet::new("hwclock", "hwclock", CStyle, DIR_SBIN, SUID_DROP, usage)),
        123 => Some(applet::new("i2cdetect", "i2cdetect", CStyle, DIR_USR_SBIN, SUID_DROP, usage)),
        124 => Some(applet::new("i2cdump", "i2cdump", CStyle, DIR_USR_SBIN, SUID_DROP, usage)),
        125 => Some(applet::new("i2cget", "i2cget", CStyle, DIR_USR_SBIN, SUID_DROP, usage)),
        126 => Some(applet::new("i2cset", "i2cset", CStyle, DIR_USR_SBIN, SUID_DROP, usage)),
        127 => Some(applet::new("i2ctransfer", "i2ctransfer", CStyle, DIR_USR_SBIN, SUID_DROP, usage)),
        128 => Some(applet::new("id", "id", CStyle, DIR_USR_BIN, SUID_DROP, usage)),
        129 => Some(applet::new("ifconfig", "ifconfig", CStyle, DIR_SBIN, SUID_DROP, usage)),
        130 => Some(applet::new("ifdown", "ifupdown", CStyle, DIR_SBIN, SUID_DROP, usage)),
        131 => Some(applet::new("ifenslave", "ifenslave", CStyle, DIR_SBIN, SUID_DROP, usage)),
        132 => Some(applet::new("ifplugd", "ifplugd", CStyle, DIR_USR_SBIN, SUID_DROP, usage)),
        133 => Some(applet::new("ifup", "ifupdown", CStyle, DIR_SBIN, SUID_DROP, usage)),
        134 => Some(applet::new("inetd", "inetd", CStyle, DIR_USR_SBIN, SUID_DROP, usage)),
        135 => Some(applet::new("init", "init", CStyle, DIR_SBIN, SUID_DROP, usage)),
        136 => Some(applet::new("insmod", "modprobe", CStyle, DIR_SBIN, SUID_DROP, usage)),
        137 => Some(applet::new("install", "install", CStyle, DIR_USR_BIN, SUID_DROP, usage)),
        138 => Some(applet::new("ionice", "ionice", CStyle, DIR_BIN, SUID_DROP, usage)),
        139 => Some(applet::new("iostat", "iostat", CStyle, DIR_BIN, SUID_DROP, usage)),
        140 => Some(applet::new("ip", "ip", CStyle, DIR_SBIN, SUID_DROP, usage)),
        141 => Some(applet::new("ipaddr", "ipaddr", CStyle, DIR_SBIN, SUID_DROP, usage)),
        142 => Some(applet::new("ipcalc", "ipcalc", CStyle, DIR_BIN, SUID_DROP, usage)),
        143 => Some(applet::new("ipcrm", "ipcrm", CStyle, DIR_USR_BIN, SUID_DROP, usage)),
        144 => Some(applet::new("ipcs", "ipcs", CStyle, DIR_USR_BIN, SUID_DROP, usage)),
        145 => Some(applet::new("iplink", "iplink", CStyle, DIR_SBIN, SUID_DROP, usage)),
        146 => Some(applet::new("ipneigh", "ipneigh", CStyle, DIR_SBIN, SUID_DROP, usage)),
        147 => Some(applet::new("iproute", "iproute", CStyle, DIR_SBIN, SUID_DROP, usage)),
        148 => Some(applet::new("iprule", "iprule", CStyle, DIR_SBIN, SUID_DROP, usage)),
        149 => Some(applet::new("iptunnel", "iptunnel", CStyle, DIR_SBIN, SUID_DROP, usage)),
        150 => Some(applet::new("kbd_mode", "kbd_mode", CStyle, DIR_BIN, SUID_DROP, usage)),
        151 => Some(applet::new("kill", "kill", CStyle, DIR_BIN, SUID_DROP, usage)),
        152 => Some(applet::new("killall", "kill", CStyle, DIR_USR_BIN, SUID_DROP, usage)),
        153 => Some(applet::new("killall5", "kill", CStyle, DIR_USR_SBIN, SUID_DROP, usage)),
        154 => Some(applet::new("klogd", "klogd", CStyle, DIR_SBIN, SUID_DROP, usage)),
        155 => Some(applet::new("last", "last", CStyle, DIR_USR_BIN, SUID_DROP, usage)),
        156 => Some(applet::new("less", "less", CStyle, DIR_USR_BIN, SUID_DROP, usage)),
        157 => Some(applet::new("link", "link", CStyle, DIR_BIN, SUID_DROP, usage)),
        158 => Some(applet::new("linux32", "setarch", CStyle, DIR_BIN, SUID_DROP, usage)),
        159 => Some(applet::new("linux64", "setarch", CStyle, DIR_BIN, SUID_DROP, usage)),
        160 => Some(applet::new("linuxrc", "init", CStyle, DIR_ROOT, SUID_DROP, usage)),
        161 => Some(applet::new("ln", "ln", CStyle, DIR_BIN, SUID_DROP, usage)),
        162 => Some(applet::new("loadfont", "loadfont", CStyle, DIR_USR_SBIN, SUID_DROP, usage)),
        163 => Some(applet::new("loadkmap", "loadkmap", CStyle, DIR_SBIN, SUID_DROP, usage)),
        164 => Some(applet::new("logger", "logger", CStyle, DIR_USR_BIN, SUID_DROP, usage)),
        165 => Some(applet::new("login", "login", CStyle, DIR_BIN, SUID_REQUIRE, usage)),
        166 => Some(applet::new("logname", "logname", CStyle, DIR_USR_BIN, SUID_DROP, usage)),
        167 => Some(applet::new("logread", "logread", CStyle, DIR_SBIN, SUID_DROP, usage)),
        168 => Some(applet::new("losetup", "losetup", CStyle, DIR_SBIN, SUID_DROP, usage)),
        169 => Some(applet::new("lpd", "lpd", CStyle, DIR_USR_SBIN, SUID_DROP, usage)),
        170 => Some(applet::new("lpq", "lpqr", CStyle, DIR_USR_BIN, SUID_DROP, usage)),
        171 => Some(applet::new("lpr", "lpqr", CStyle, DIR_USR_BIN, SUID_DROP, usage)),
        172 => Some(applet::new("ls", "ls", CStyle, DIR_BIN, SUID_DROP, usage)),
        173 => Some(applet::new("lsattr", "lsattr", CStyle, DIR_BIN, SUID_DROP, usage)),
        174 => Some(applet::new("lsmod", "lsmod", CStyle, DIR_SBIN, SUID_DROP, usage)),
        175 => Some(applet::new("lsof", "lsof", CStyle, DIR_USR_BIN, SUID_DROP, usage)),
        176 => Some(applet::new("lspci", "lspci", CStyle, DIR_USR_BIN, SUID_DROP, usage)),
        177 => Some(applet::new("lsscsi", "lsscsi", CStyle, DIR_USR_BIN, SUID_DROP, usage)),
        178 => Some(applet::new("lsusb", "lsusb", CStyle, DIR_USR_BIN, SUID_DROP, usage)),
        179 => Some(applet::new("lzcat", "unlzma", CStyle, DIR_USR_BIN, SUID_DROP, usage)),
        180 => Some(applet::new("lzma", "unlzma", CStyle, DIR_USR_BIN, SUID_DROP, usage)),
        181 => Some(applet::new("lzop", "lzop", CStyle, DIR_BIN, SUID_DROP, usage)),
        182 => Some(applet::new("makedevs", "makedevs", CStyle, DIR_SBIN, SUID_DROP, usage)),
        183 => Some(applet::new("makemime", "makemime", CStyle, DIR_BIN, SUID_DROP, usage)),
        184 => Some(applet::new("man", "man", CStyle, DIR_USR_BIN, SUID_DROP, usage)),
        185 => Some(applet::new("md5sum", "md5_sha1_sum", CStyle, DIR_USR_BIN, SUID_DROP, usage)),
        186 => Some(applet::new("mdev", "mdev", CStyle, DIR_SBIN, SUID_DROP, usage)),
        187 => Some(applet::new("mesg", "mesg", CStyle, DIR_USR_BIN, SUID_DROP, usage)),
        188 => Some(applet::new("microcom", "microcom", CStyle, DIR_USR_BIN, SUID_DROP, usage)),
        189 => Some(applet::new("mkdir", "mkdir", CStyle, DIR_BIN, SUID_DROP, usage)),
        190 => Some(applet::new("mkdosfs", "mkfs_vfat", CStyle, DIR_SBIN, SUID_DROP, usage)),
        191 => Some(applet::new("mke2fs", "mkfs_ext2", CStyle, DIR_SBIN, SUID_DROP, usage)),
        192 => Some(applet::new("mkfifo", "mkfifo", CStyle, DIR_USR_BIN, SUID_DROP, usage)),
        193 => Some(applet::new("mkfs.ext2", "mkfs_ext2", CStyle, DIR_SBIN, SUID_DROP, usage)),
        194 => Some(applet::new("mkfs.minix", "mkfs_minix", CStyle, DIR_SBIN, SUID_DROP, usage)),
        195 => Some(applet::new("mkfs.vfat", "mkfs_vfat", CStyle, DIR_SBIN, SUID_DROP, usage)),
        196 => Some(applet::new("mknod", "mknod", CStyle, DIR_BIN, SUID_DROP, usage)),
        197 => Some(applet::new("mkpasswd", "cryptpw", CStyle, DIR_USR_BIN, SUID_DROP, usage)),
        198 => Some(applet::new("mkswap", "mkswap", CStyle, DIR_SBIN, SUID_DROP, usage)),
        199 => Some(applet::new("mktemp", "mktemp", CStyle, DIR_BIN, SUID_DROP, usage)),
        200 => Some(applet::new("modinfo", "modinfo", CStyle, DIR_SBIN, SUID_DROP, usage)),
        201 => Some(applet::new("modprobe", "modprobe", CStyle, DIR_SBIN, SUID_DROP, usage)),
        202 => Some(applet::new("more", "more", CStyle, DIR_BIN, SUID_DROP, usage)),
        203 => Some(applet::new("mount", "mount", CStyle, DIR_BIN, SUID_MAYBE, usage)),
        204 => Some(applet::new("mountpoint", "mountpoint", CStyle, DIR_BIN, SUID_DROP, usage)),
        205 => Some(applet::new("mpstat", "mpstat", CStyle, DIR_BIN, SUID_DROP, usage)),
        206 => Some(applet::new("mt", "mt", CStyle, DIR_BIN, SUID_DROP, usage)),
        207 => Some(applet::new("mv", "mv", CStyle, DIR_BIN, SUID_DROP, usage)),
        208 => Some(applet::new("nameif", "nameif", CStyle, DIR_SBIN, SUID_DROP, usage)),
        209 => Some(applet::new("nanddump", "nandwrite", CStyle, DIR_USR_SBIN, SUID_DROP, usage)),
        210 => Some(applet::new("nandwrite", "nandwrite", CStyle, DIR_USR_SBIN, SUID_DROP, usage)),
        211 => Some(applet::new("nbd-client", "nbdclient", CStyle, DIR_USR_SBIN, SUID_DROP, usage)),
        212 => Some(applet::new("nc", "nc", CStyle, DIR_USR_BIN, SUID_DROP, usage)),
        213 => Some(applet::new("netstat", "netstat", CStyle, DIR_BIN, SUID_DROP, usage)),
        214 => Some(applet::new("nice", "nice", CStyle, DIR_BIN, SUID_DROP, usage)),
        215 => Some(applet::new("nl", "nl", CStyle, DIR_USR_BIN, SUID_DROP, usage)),
        216 => Some(applet::new("nmeter", "nmeter", CStyle, DIR_USR_BIN, SUID_DROP, usage)),
        217 => Some(applet::new("nohup", "nohup", CStyle, DIR_USR_BIN, SUID_DROP, usage)),
        218 => Some(applet::new("nproc", "nproc", CStyle, DIR_USR_BIN, SUID_DROP, usage)),
        219 => Some(applet::new("nsenter", "nsenter", CStyle, DIR_USR_BIN, SUID_DROP, usage)),
        220 => Some(applet::new("nslookup", "nslookup", CStyle, DIR_USR_BIN, SUID_DROP, usage)),
        221 => Some(applet::new("ntpd", "ntpd", CStyle, DIR_USR_SBIN, SUID_DROP, usage)),
        222 => Some(applet::new("nuke", "nuke", CStyle, DIR_BIN, SUID_DROP, usage)),
        223 => Some(applet::new("od", "od", CStyle, DIR_USR_BIN, SUID_DROP, usage)),
        224 => Some(applet::new("openvt", "openvt", CStyle, DIR_USR_BIN, SUID_DROP, usage)),
        225 => Some(applet::new("partprobe", "partprobe", CStyle, DIR_USR_SBIN, SUID_DROP, usage)),
        226 => Some(applet::new("passwd", "passwd", CStyle, DIR_USR_BIN, SUID_REQUIRE, usage)),
        227 => Some(applet::new("paste", "paste", CStyle, DIR_USR_BIN, SUID_DROP, usage)),
        228 => Some(applet::new("patch", "patch", CStyle, DIR_USR_BIN, SUID_DROP, usage)),
        229 => Some(applet::new("pgrep", "pgrep", CStyle, DIR_USR_BIN, SUID_DROP, usage)),
        230 => Some(applet::new("pidof", "pidof", CStyle, DIR_BIN, SUID_DROP, usage)),
        231 => Some(applet::new("ping", "ping", CStyle, DIR_BIN, SUID_MAYBE, usage)),
        232 => Some(applet::new("ping6", "ping6", CStyle, DIR_BIN, SUID_MAYBE, usage)),
        233 => Some(applet::new("pipe_progress", "pipe_progress", CStyle, DIR_BIN, SUID_DROP, usage)),
        234 => Some(applet::new("pivot_root", "pivot_root", CStyle, DIR_SBIN, SUID_DROP, usage)),
        235 => Some(applet::new("pkill", "pgrep", CStyle, DIR_USR_BIN, SUID_DROP, usage)),
        236 => Some(applet::new("pmap", "pmap", CStyle, DIR_USR_BIN, SUID_DROP, usage)),
        237 => Some(applet::new("popmaildir", "popmaildir", CStyle, DIR_USR_SBIN, SUID_DROP, usage)),
        238 => Some(applet::new("poweroff", "halt", CStyle, DIR_SBIN, SUID_DROP, usage)),
        239 => Some(applet::new("powertop", "powertop", CStyle, DIR_USR_SBIN, SUID_DROP, usage)),
        240 => Some(applet::new("printenv", "printenv", CStyle, DIR_BIN, SUID_DROP, usage)),
        241 => Some(applet::new("printf", "printf", CStyle, DIR_USR_BIN, SUID_DROP, usage)),
        242 => Some(applet::new("ps", "ps", CStyle, DIR_BIN, SUID_DROP, usage)),
        243 => Some(applet::new("pscan", "pscan", CStyle, DIR_USR_BIN, SUID_DROP, usage)),
        244 => Some(applet::new("pstree", "pstree", CStyle, DIR_USR_BIN, SUID_DROP, usage)),
        245 => Some(applet::new("pwd", "pwd", CStyle, DIR_BIN, SUID_DROP, usage)),
        246 => Some(applet::new("pwdx", "pwdx", CStyle, DIR_USR_BIN, SUID_DROP, usage)),
        247 => Some(applet::new("raidautorun", "raidautorun", CStyle, DIR_SBIN, SUID_DROP, usage)),
        248 => Some(applet::new("rdate", "rdate", CStyle, DIR_USR_SBIN, SUID_DROP, usage)),
        249 => Some(applet::new("rdev", "rdev", CStyle, DIR_USR_SBIN, SUID_DROP, usage)),
        250 => Some(applet::new("readahead", "readahead", CStyle, DIR_USR_SBIN, SUID_DROP, usage)),
        251 => Some(applet::new("readlink", "readlink", CStyle, DIR_USR_BIN, SUID_DROP, usage)),
        252 => Some(applet::new("readprofile", "readprofile", CStyle, DIR_USR_SBIN, SUID_DROP, usage)),
        253 => Some(applet::new("realpath", "realpath", CStyle, DIR_USR_BIN, SUID_DROP, usage)),
        254 => Some(applet::new("reboot", "halt", CStyle, DIR_SBIN, SUID_DROP, usage)),
        255 => Some(applet::new("reformime", "reformime", CStyle, DIR_BIN, SUID_DROP, usage)),
        256 => Some(applet::new("remove-shell", "add_remove_shell", CStyle, DIR_USR_SBIN, SUID_DROP, usage)),
        257 => Some(applet::new("renice", "renice", CStyle, DIR_USR_BIN, SUID_DROP, usage)),
        258 => Some(applet::new("reset", "reset", CStyle, DIR_USR_BIN, SUID_DROP, usage)),
        259 => Some(applet::new("resize", "resize", CStyle, DIR_USR_BIN, SUID_DROP, usage)),
        260 => Some(applet::new("resume", "resume", CStyle, DIR_BIN, SUID_DROP, usage)),
        261 => Some(applet::new("rev", "rev", CStyle, DIR_BIN, SUID_DROP, usage)),
        262 => Some(applet::new("rm", "rm", CStyle, DIR_BIN, SUID_DROP, usage)),
        263 => Some(applet::new("rmdir", "rmdir", CStyle, DIR_BIN, SUID_DROP, usage)),
        264 => Some(applet::new("rmmod", "modprobe", CStyle, DIR_SBIN, SUID_DROP, usage)),
        265 => Some(applet::new("route", "route", CStyle, DIR_SBIN, SUID_DROP, usage)),
        266 => Some(applet::new("rpm", "rpm", CStyle, DIR_BIN, SUID_DROP, usage)),
        267 => Some(applet::new("rpm2cpio", "rpm2cpio", CStyle, DIR_USR_BIN, SUID_DROP, usage)),
        268 => Some(applet::new("rtcwake", "rtcwake", CStyle, DIR_USR_SBIN, SUID_DROP, usage)),
        269 => Some(applet::new("run-init", "switch_root", CStyle, DIR_SBIN, SUID_DROP, usage)),
        270 => Some(applet::new("run-parts", "run_parts", CStyle, DIR_BIN, SUID_DROP, usage)),
        271 => Some(applet::new("runlevel", "runlevel", CStyle, DIR_SBIN, SUID_DROP, usage)),
        272 => Some(applet::new("runsv", "runsv", CStyle, DIR_USR_BIN, SUID_DROP, usage)),
        273 => Some(applet::new("runsvdir", "runsvdir", CStyle, DIR_USR_BIN, SUID_DROP, usage)),
        274 => Some(applet::new("rx", "rx", CStyle, DIR_USR_BIN, SUID_DROP, usage)),
        275 => Some(applet::new("script", "script", CStyle, DIR_USR_BIN, SUID_DROP, usage)),
        276 => Some(applet::new("scriptreplay", "scriptreplay", CStyle, DIR_BIN, SUID_DROP, usage)),
        277 => Some(applet::new("sed", "sed", CStyle, DIR_BIN, SUID_DROP, usage)),
        278 => Some(applet::new("sendmail", "sendmail", CStyle, DIR_USR_SBIN, SUID_DROP, usage)),
        279 => Some(applet::new("seq", "seq", CStyle, DIR_USR_BIN, SUID_DROP, usage)),
        280 => Some(applet::new("setarch", "setarch", CStyle, DIR_BIN, SUID_DROP, usage)),
        281 => Some(applet::new("setconsole", "setconsole", CStyle, DIR_SBIN, SUID_DROP, usage)),
        282 => Some(applet::new("setfattr", "setfattr", CStyle, DIR_USR_BIN, SUID_DROP, usage)),
        283 => Some(applet::new("setfont", "setfont", CStyle, DIR_USR_SBIN, SUID_DROP, usage)),
        284 => Some(applet::new("setkeycodes", "setkeycodes", CStyle, DIR_USR_BIN, SUID_DROP, usage)),
        285 => Some(applet::new("setlogcons", "setlogcons", CStyle, DIR_USR_SBIN, SUID_DROP, usage)),
        286 => Some(applet::new("setpriv", "setpriv", CStyle, DIR_BIN, SUID_DROP, usage)),
        287 => Some(applet::new("setserial", "setserial", CStyle, DIR_BIN, SUID_DROP, usage)),
        288 => Some(applet::new("setsid", "setsid", CStyle, DIR_USR_BIN, SUID_DROP, usage)),
        289 => Some(applet::new("setuidgid", "chpst", CStyle, DIR_USR_BIN, SUID_DROP, usage)),
        290 => Some(applet::new("sh", "ash", CStyle, DIR_BIN, SUID_DROP, usage)),
        291 => Some(applet::new("sha1sum", "md5_sha1_sum", CStyle, DIR_USR_BIN, SUID_DROP, usage)),
        292 => Some(applet::new("sha256sum", "md5_sha1_sum", CStyle, DIR_USR_BIN, SUID_DROP, usage)),
        293 => Some(applet::new("sha3sum", "md5_sha1_sum", CStyle, DIR_USR_BIN, SUID_DROP, usage)),
        294 => Some(applet::new("sha512sum", "md5_sha1_sum", CStyle, DIR_USR_BIN, SUID_DROP, usage)),
        295 => Some(applet::new("showkey", "showkey", CStyle, DIR_USR_BIN, SUID_DROP, usage)),
        296 => Some(applet::new("shred", "shred", CStyle, DIR_USR_BIN, SUID_DROP, usage)),
        297 => Some(applet::new("shuf", "shuf", CStyle, DIR_USR_BIN, SUID_DROP, usage)),
        298 => Some(applet::new("slattach", "slattach", CStyle, DIR_SBIN, SUID_DROP, usage)),
        299 => Some(applet::new("sleep", "sleep", CStyle, DIR_BIN, SUID_DROP, usage)),
        300 => Some(applet::new("smemcap", "smemcap", CStyle, DIR_USR_BIN, SUID_DROP, usage)),
        301 => Some(applet::new("softlimit", "chpst", CStyle, DIR_USR_BIN, SUID_DROP, usage)),
        302 => Some(applet::new("sort", "sort", CStyle, DIR_USR_BIN, SUID_DROP, usage)),
        303 => Some(applet::new("split", "split", CStyle, DIR_USR_BIN, SUID_DROP, usage)),
        304 => Some(applet::new("ssl_client", "ssl_client", CStyle, DIR_USR_BIN, SUID_DROP, usage)),
        305 => Some(applet::new("start-stop-daemon", "start_stop_daemon", CStyle, DIR_SBIN, SUID_DROP, usage)),
        306 => Some(applet::new("stat", "stat", CStyle, DIR_BIN, SUID_DROP, usage)),
        307 => Some(applet::new("strings", "strings", CStyle, DIR_USR_BIN, SUID_DROP, usage)),
        308 => Some(applet::new("stty", "stty", CStyle, DIR_BIN, SUID_DROP, usage)),
        309 => Some(applet::new("su", "su", CStyle, DIR_BIN, SUID_REQUIRE, usage)),
        310 => Some(applet::new("sulogin", "sulogin", CStyle, DIR_SBIN, SUID_DROP, usage)),
        311 => Some(applet::new("sum", "sum", CStyle, DIR_USR_BIN, SUID_DROP, usage)),
        312 => Some(applet::new("sv", "sv", CStyle, DIR_USR_BIN, SUID_DROP, usage)),
        313 => Some(applet::new("svc", "svc", CStyle, DIR_USR_BIN, SUID_DROP, usage)),
        314 => Some(applet::new("svlogd", "svlogd", CStyle, DIR_USR_SBIN, SUID_DROP, usage)),
        315 => Some(applet::new("svok", "svok", CStyle, DIR_USR_BIN, SUID_DROP, usage)),
        316 => Some(applet::new("swapoff", "swap_on_off", CStyle, DIR_SBIN, SUID_DROP, usage)),
        317 => Some(applet::new("swapon", "swap_on_off", CStyle, DIR_SBIN, SUID_DROP, usage)),
        318 => Some(applet::new("switch_root", "switch_root", CStyle, DIR_SBIN, SUID_DROP, usage)),
        319 => Some(applet::new("sync", "sync", CStyle, DIR_BIN, SUID_DROP, usage)),
        320 => Some(applet::new("sysctl", "sysctl", CStyle, DIR_SBIN, SUID_DROP, usage)),
        321 => Some(applet::new("syslogd", "syslogd", CStyle, DIR_SBIN, SUID_DROP, usage)),
        322 => Some(applet::new("tac", "tac", CStyle, DIR_USR_BIN, SUID_DROP, usage)),
        323 => Some(applet::new("tail", "tail", CStyle, DIR_USR_BIN, SUID_DROP, usage)),
        324 => Some(applet::new("tar", "tar", CStyle, DIR_BIN, SUID_DROP, usage)),
        325 => Some(applet::new("taskset", "taskset", CStyle, DIR_USR_BIN, SUID_DROP, usage)),
        326 => Some(applet::new("tc", "tc", CStyle, DIR_SBIN, SUID_DROP, usage)),
        327 => Some(applet::new("tcpsvd", "tcpudpsvd", CStyle, DIR_USR_BIN, SUID_DROP, usage)),
        328 => Some(applet::new("tee", "tee", CStyle, DIR_USR_BIN, SUID_DROP, usage)),
        329 => Some(applet::new("telnet", "telnet", CStyle, DIR_USR_BIN, SUID_DROP, usage)),
        330 => Some(applet::new("telnetd", "telnetd", CStyle, DIR_USR_SBIN, SUID_DROP, usage)),
        331 => Some(applet::new("test", "test", CStyle, DIR_USR_BIN, SUID_DROP, usage)),
        332 => Some(applet::new("tftp", "tftp", CStyle, DIR_USR_BIN, SUID_DROP, usage)),
        333 => Some(applet::new("tftpd", "tftpd", CStyle, DIR_USR_SBIN, SUID_DROP, usage)),
        334 => Some(applet::new("time", "time", CStyle, DIR_USR_BIN, SUID_DROP, usage)),
        335 => Some(applet::new("timeout", "timeout", CStyle, DIR_USR_BIN, SUID_DROP, usage)),
        336 => Some(applet::new("top", "top", CStyle, DIR_USR_BIN, SUID_DROP, usage)),
        337 => Some(applet::new("touch", "touch", CStyle, DIR_BIN, SUID_DROP, usage)),
        338 => Some(applet::new("tr", "tr", CStyle, DIR_USR_BIN, SUID_DROP, usage)),
        339 => Some(applet::new("traceroute", "traceroute", CStyle, DIR_USR_BIN, SUID_MAYBE, usage)),
        340 => Some(applet::new("traceroute6", "traceroute6", CStyle, DIR_USR_BIN, SUID_MAYBE, usage)),
        341 => Some(applet::new("true", "true", SafeStyle, DIR_BIN, SUID_DROP, usage)),
        342 => Some(applet::new("truncate", "truncate", CStyle, DIR_USR_BIN, SUID_DROP, usage)),
        343 => Some(applet::new("ts", "ts", CStyle, DIR_USR_BIN, SUID_DROP, usage)),
        344 => Some(applet::new("tty", "tty", CStyle, DIR_USR_BIN, SUID_DROP, usage)),
        345 => Some(applet::new("ttysize", "ttysize", CStyle, DIR_USR_BIN, SUID_DROP, usage)),
        346 => Some(applet::new("tunctl", "tunctl", CStyle, DIR_SBIN, SUID_DROP, usage)),
        347 => Some(applet::new("ubiattach", "ubi_tools", CStyle, DIR_USR_SBIN, SUID_DROP, usage)),
        348 => Some(applet::new("ubidetach", "ubi_tools", CStyle, DIR_USR_SBIN, SUID_DROP, usage)),
        349 => Some(applet::new("ubimkvol", "ubi_tools", CStyle, DIR_USR_SBIN, SUID_DROP, usage)),
        350 => Some(applet::new("ubirename", "ubirename", CStyle, DIR_USR_SBIN, SUID_DROP, usage)),
        351 => Some(applet::new("ubirmvol", "ubi_tools", CStyle, DIR_USR_SBIN, SUID_DROP, usage)),
        352 => Some(applet::new("ubirsvol", "ubi_tools", CStyle, DIR_USR_SBIN, SUID_DROP, usage)),
        353 => Some(applet::new("ubiupdatevol", "ubi_tools", CStyle, DIR_USR_SBIN, SUID_DROP, usage)),
        354 => Some(applet::new("udhcpc", "udhcpc", CStyle, DIR_SBIN, SUID_DROP, usage)),
        355 => Some(applet::new("udhcpc6", "udhcpc6", CStyle, DIR_USR_BIN, SUID_DROP, usage)),
        356 => Some(applet::new("udhcpd", "udhcpd", CStyle, DIR_USR_SBIN, SUID_DROP, usage)),
        357 => Some(applet::new("udpsvd", "tcpudpsvd", CStyle, DIR_USR_BIN, SUID_DROP, usage)),
        358 => Some(applet::new("uevent", "uevent", CStyle, DIR_SBIN, SUID_DROP, usage)),
        359 => Some(applet::new("umount", "umount", CStyle, DIR_BIN, SUID_DROP, usage)),
        360 => Some(applet::new("uname", "uname", CStyle, DIR_BIN, SUID_DROP, usage)),
        361 => Some(applet::new("unexpand", "expand", CStyle, DIR_USR_BIN, SUID_DROP, usage)),
        362 => Some(applet::new("uniq", "uniq", CStyle, DIR_USR_BIN, SUID_DROP, usage)),
        363 => Some(applet::new("unix2dos", "dos2unix", CStyle, DIR_USR_BIN, SUID_DROP, usage)),
        364 => Some(applet::new("unlink", "unlink", CStyle, DIR_USR_BIN, SUID_DROP, usage)),
        365 => Some(applet::new("unlzma", "unlzma", CStyle, DIR_USR_BIN, SUID_DROP, usage)),
        366 => Some(applet::new("unshare", "unshare", CStyle, DIR_USR_BIN, SUID_DROP, usage)),
        367 => Some(applet::new("unxz", "unxz", CStyle, DIR_USR_BIN, SUID_DROP, usage)),
        368 => Some(applet::new("unzip", "unzip", CStyle, DIR_USR_BIN, SUID_DROP, usage)),
        369 => Some(applet::new("uptime", "uptime", CStyle, DIR_USR_BIN, SUID_DROP, usage)),
        370 => Some(applet::new("users", "who", CStyle, DIR_USR_BIN, SUID_DROP, usage)),
        371 => Some(applet::new("usleep", "usleep", CStyle, DIR_BIN, SUID_DROP, usage)),
        372 => Some(applet::new("uudecode", "uudecode", CStyle, DIR_USR_BIN, SUID_DROP, usage)),
        373 => Some(applet::new("uuencode", "uuencode", CStyle, DIR_USR_BIN, SUID_DROP, usage)),
        374 => Some(applet::new("vconfig", "vconfig", CStyle, DIR_SBIN, SUID_DROP, usage)),
        375 => Some(applet::new("vi", "vi", CStyle, DIR_BIN, SUID_DROP, usage)),
        376 => Some(applet::new("vlock", "vlock", CStyle, DIR_USR_BIN, SUID_REQUIRE, usage)),
        377 => Some(applet::new("volname", "volname", CStyle, DIR_USR_BIN, SUID_DROP, usage)),
        378 => Some(applet::new("w", "who", CStyle, DIR_USR_BIN, SUID_DROP, usage)),
        379 => Some(applet::new("wall", "wall", CStyle, DIR_USR_BIN, SUID_REQUIRE, usage)),
        380 => Some(applet::new("watch", "watch", CStyle, DIR_BIN, SUID_DROP, usage)),
        381 => Some(applet::new("watchdog", "watchdog", CStyle, DIR_SBIN, SUID_DROP, usage)),
        382 => Some(applet::new("wc", "wc", CStyle, DIR_USR_BIN, SUID_DROP, usage)),
        383 => Some(applet::new("wget", "wget", CStyle, DIR_USR_BIN, SUID_DROP, usage)),
        384 => Some(applet::new("which", "which", CStyle, DIR_USR_BIN, SUID_DROP, usage)),
        385 => Some(applet::new("who", "who", CStyle, DIR_USR_BIN, SUID_DROP, usage)),
        386 => Some(applet::new("whoami", "whoami", CStyle, DIR_USR_BIN, SUID_DROP, usage)),
        387 => Some(applet::new("whois", "whois", CStyle, DIR_USR_BIN, SUID_DROP, usage)),
        388 => Some(applet::new("xargs", "xargs", CStyle, DIR_USR_BIN, SUID_DROP, usage)),
        389 => Some(applet::new("xxd", "xxd", CStyle, DIR_USR_BIN, SUID_DROP, usage)),
        390 => Some(applet::new("xz", "unxz", CStyle, DIR_USR_BIN, SUID_DROP, usage)),
        391 => Some(applet::new("xzcat", "unxz", CStyle, DIR_USR_BIN, SUID_DROP, usage)),
        392 => Some(applet::new("yes", "yes", SafeStyle, DIR_USR_BIN, SUID_DROP, usage)),
        393 => Some(applet::new("zcat", "gunzip", CStyle, DIR_BIN, SUID_DROP, usage)),
        394 => Some(applet::new("zcip", "zcip", CStyle, DIR_SBIN, SUID_DROP, usage)),
        _ => None,
    }
}

} // verus!
