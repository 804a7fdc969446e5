//! The built-in table is in order: each of its names sorts strictly before
//! the next.

use vstd::prelude::*;
use crate::applets::applet_tables::{builtin_row, BUILTIN_COUNT};
use crate::applets::name_order::{lemma_ascii_name_lt, name_lt};

verus! {

/// Row `k` of the built-in table sorts strictly after row `k - 1`, the two
/// rows taken with the help texts `u` and `v`.
pub open spec fn builtin_follows(k: usize, u: &'static str, v: &'static str) -> bool {
    &&& builtin_row((k - 1) as usize, u) matches Some(before)
    &&& builtin_row(k, v) matches Some(row)
    &&& name_lt(before.name@, row.name@)
}

/// Rows 1 to 16 of the built-in table each sort after the row before.
proof fn lemma_rows_0(k: usize, u: &'static str, v: &'static str)
    requires
        1 <= k < 17,
    ensures
        builtin_follows(k, u, v),
{
    reveal_strlit("[");
    reveal_strlit("[[");
    reveal_strlit("acpid");
    reveal_strlit("add-shell");
    reveal_strlit("addgroup");
    reveal_strlit("adduser");
    reveal_strlit("adjtimex");
    reveal_strlit("arch");
    reveal_strlit("arp");
    reveal_strlit("arping");
    reveal_strlit("ash");
    reveal_strlit("awk");
    reveal_strlit("base64");
    reveal_strlit("basename");
    reveal_strlit("bc");
    reveal_strlit("beep");
    reveal_strlit("blkdiscard");
    if k == 1 {
        lemma_ascii_name_lt("["@, "[["@, 1);
    } else if k == 2 {
        lemma_ascii_name_lt("[["@, "acpid"@, 0);
    } else if k == 3 {
        lemma_ascii_name_lt("acpid"@, "add-shell"@, 1);
    } else if k == 4 {
        lemma_ascii_name_lt("add-shell"@, "addgroup"@, 3);
    } else if k == 5 {
        lemma_ascii_name_lt("addgroup"@, "adduser"@, 3);
    } else if k == 6 {
        lemma_ascii_name_lt("adduser"@, "adjtimex"@, 2);
    } else if k == 7 {
        lemma_ascii_name_lt("adjtimex"@, "arch"@, 1);
    } else if k == 8 {
        lemma_ascii_name_lt("arch"@, "arp"@, 2);
    } else if k == 9 {
        lemma_ascii_name_lt("arp"@, "arping"@, 3);
    } else if k == 10 {
        lemma_ascii_name_lt("arping"@, "ash"@, 1);
    } else if k == 11 {
        lemma_ascii_name_lt("ash"@, "awk"@, 1);
    } else if k == 12 {
        lemma_ascii_name_lt("awk"@, "base64"@, 0);
    } else if k == 13 {
        lemma_ascii_name_lt("base64"@, "basename"@, 4);
    } else if k == 14 {
        lemma_ascii_name_lt("basename"@, "bc"@, 1);
    } else if k == 15 {
        lemma_ascii_name_lt("bc"@, "beep"@, 1);
    } else if k == 16 {
        lemma_ascii_name_lt("beep"@, "blkdiscard"@, 1);
    }
}

/// Rows 17 to 32 of the built-in table each sort after the row before.
proof fn lemma_rows_1(k: usize, u: &'static str, v: &'static str)
    requires
        17 <= k < 33,
    ensures
        builtin_follows(k, u, v),
{
    reveal_strlit("blkdiscard");
    reveal_strlit("blkid");
    reveal_strlit("blockdev");
    reveal_strlit("bootchartd");
    reveal_strlit("brctl");
    reveal_strlit("bunzip2");
    reveal_strlit("bzcat");
    reveal_strlit("bzip2");
    reveal_strlit("cal");
    reveal_strlit("cat");
    reveal_strlit("chat");
    reveal_strlit("chattr");
    reveal_strlit("chgrp");
    reveal_strlit("chmod");
    reveal_strlit("chown");
    reveal_strlit("chpasswd");
    reveal_strlit("chpst");
    if k == 17 {
        lemma_ascii_name_lt("blkdiscard"@, "blkid"@, 3);
    } else if k == 18 {
        lemma_ascii_name_lt("blkid"@, "blockdev"@, 2);
    } else if k == 19 {
        lemma_ascii_name_lt("blockdev"@, "bootchartd"@, 1);
    } else if k == 20 {
        lemma_ascii_name_lt("bootchartd"@, "brctl"@, 1);
    } else if k == 21 {
        lemma_ascii_name_lt("brctl"@, "bunzip2"@, 1);
    } else if k == 22 {
        lemma_ascii_name_lt("bunzip2"@, "bzcat"@, 1);
    } else if k == 23 {
        lemma_ascii_name_lt("bzcat"@, "bzip2"@, 2);
    } else if k == 24 {
        lemma_ascii_name_lt("bzip2"@, "cal"@, 0);
    } else if k == 25 {
        lemma_ascii_name_lt("cal"@, "cat"@, 2);
    } else if k == 26 {
        lemma_ascii_name_lt("cat"@, "chat"@, 1);
    } else if k == 27 {
        lemma_ascii_name_lt("chat"@, "chattr"@, 4);
    } else if k == 28 {
        lemma_ascii_name_lt("chattr"@, "chgrp"@, 2);
    } else if k == 29 {
        lemma_ascii_name_lt("chgrp"@, "chmod"@, 2);
    } else if k == 30 {
        lemma_ascii_name_lt("chmod"@, "chown"@, 2);
    } else if k == 31 {
        lemma_ascii_name_lt("chown"@, "chpasswd"@, 2);
    } else if k == 32 {
        lemma_ascii_name_lt("chpasswd"@, "chpst"@, 3);
    }
}

/// Rows 33 to 48 of the built-in table each sort after the row before.
proof fn lemma_rows_2(k: usize, u: &'static str, v: &'static str)
    requires
        33 <= k < 49,
    ensures
        builtin_follows(k, u, v),
{
    reveal_strlit("chpst");
    reveal_strlit("chroot");
    reveal_strlit("chrt");
    reveal_strlit("chvt");
    reveal_strlit("cksum");
    reveal_strlit("clear");
    reveal_strlit("cmp");
    reveal_strlit("comm");
    reveal_strlit("conspy");
    reveal_strlit("cp");
    reveal_strlit("cpio");
    reveal_strlit("crond");
    reveal_strlit("crontab");
    reveal_strlit("cryptpw");
    reveal_strlit("cttyhack");
    reveal_strlit("cut");
    reveal_strlit("date");
    if k == 33 {
        lemma_ascii_name_lt("chpst"@, "chroot"@, 2);
    } else if k == 34 {
        lemma_ascii_name_lt("chroot"@, "chrt"@, 3);
    } else if k == 35 {
        lemma_ascii_name_lt("chrt"@, "chvt"@, 2);
    } else if k == 36 {
        lemma_ascii_name_lt("chvt"@, "cksum"@, 1);
    } else if k == 37 {
        lemma_ascii_name_lt("cksum"@, "clear"@, 1);
    } else if k == 38 {
        lemma_ascii_name_lt("clear"@, "cmp"@, 1);
    } else if k == 39 {
        lemma_ascii_name_lt("cmp"@, "comm"@, 1);
    } else if k == 40 {
        lemma_ascii_name_lt("comm"@, "conspy"@, 2);
    } else if k == 41 {
        lemma_ascii_name_lt("conspy"@, "cp"@, 1);
    } else if k == 42 {
        lemma_ascii_name_lt("cp"@, "cpio"@, 2);
    } else if k == 43 {
        lemma_ascii_name_lt("cpio"@, "crond"@, 1);
    } else if k == 44 {
        lemma_ascii_name_lt("crond"@, "crontab"@, 4);
    } else if k == 45 {
        lemma_ascii_name_lt("crontab"@, "cryptpw"@, 2);
    } else if k == 46 {
        lemma_ascii_name_lt("cryptpw"@, "cttyhack"@, 1);
    } else if k == 47 {
        lemma_ascii_name_lt("cttyhack"@, "cut"@, 1);
    } else if k == 48 {
        lemma_ascii_name_lt("cut"@, "date"@, 0);
    }
}

/// Rows 49 to 64 of the built-in table each sort after the row before.
proof fn lemma_rows_3(k: usize, u: &'static str, v: &'static str)
    requires
        49 <= k < 65,
    ensures
        builtin_follows(k, u, v),
{
    reveal_strlit("date");
    reveal_strlit("dc");
    reveal_strlit("dd");
    reveal_strlit("deallocvt");
    reveal_strlit("delgroup");
    reveal_strlit("deluser");
    reveal_strlit("depmod");
    reveal_strlit("devmem");
    reveal_strlit("df");
    reveal_strlit("dhcprelay");
    reveal_strlit("diff");
    reveal_strlit("dirname");
    reveal_strlit("dmesg");
    reveal_strlit("dnsd");
    reveal_strlit("dnsdomainname");
    reveal_strlit("dos2unix");
    reveal_strlit("dpkg");
    if k == 49 {
        lemma_ascii_name_lt("date"@, "dc"@, 1);
    } else if k == 50 {
        lemma_ascii_name_lt("dc"@, "dd"@, 1);
    } else if k == 51 {
        lemma_ascii_name_lt("dd"@, "deallocvt"@, 1);
    } else if k == 52 {
        lemma_ascii_name_lt("deallocvt"@, "delgroup"@, 2);
    } else if k == 53 {
        lemma_ascii_name_lt("delgroup"@, "deluser"@, 3);
    } else if k == 54 {
        lemma_ascii_name_lt("deluser"@, "depmod"@, 2);
    } else if k == 55 {
        lemma_ascii_name_lt("depmod"@, "devmem"@, 2);
    } else if k == 56 {
        lemma_ascii_name_lt("devmem"@, "df"@, 1);
    } else if k == 57 {
        lemma_ascii_name_lt("df"@, "dhcprelay"@, 1);
    } else if k == 58 {
        lemma_ascii_name_lt("dhcprelay"@, "diff"@, 1);
    } else if k == 59 {
        lemma_ascii_name_lt("diff"@, "dirname"@, 2);
    } else if k == 60 {
        lemma_ascii_name_lt("dirname"@, "dmesg"@, 1);
    } else if k == 61 {
        lemma_ascii_name_lt("dmesg"@, "dnsd"@, 1);
    } else if k == 62 {
        lemma_ascii_name_lt("dnsd"@, "dnsdomainname"@, 4);
    } else if k == 63 {
        lemma_ascii_name_lt("dnsdomainname"@, "dos2unix"@, 1);
    } else if k == 64 {
        lemma_ascii_name_lt("dos2unix"@, "dpkg"@, 1);
    }
}

/// Rows 65 to 80 of the built-in table each sort after the row before.
proof fn lemma_rows_4(k: usize, u: &'static str, v: &'static str)
    requires
        65 <= k < 81,
    ensures
        builtin_follows(k, u, v),
{
    reveal_strlit("dpkg");
    reveal_strlit("dpkg-deb");
    reveal_strlit("du");
    reveal_strlit("dumpkmap");
    reveal_strlit("dumpleases");
    reveal_strlit("echo");
    reveal_strlit("ed");
    reveal_strlit("egrep");
    reveal_strlit("eject");
    reveal_strlit("env");
    reveal_strlit("envdir");
    reveal_strlit("envuidgid");
    reveal_strlit("ether-wake");
    reveal_strlit("expand");
    reveal_strlit("expr");
    reveal_strlit("factor");
    reveal_strlit("fakeidentd");
    if k == 65 {
        lemma_ascii_name_lt("dpkg"@, "dpkg-deb"@, 4);
    } else if k == 66 {
        lemma_ascii_name_lt("dpkg-deb"@, "du"@, 1);
    } else if k == 67 {
        lemma_ascii_name_lt("du"@, "dumpkmap"@, 2);
    } else if k == 68 {
        lemma_ascii_name_lt("dumpkmap"@, "dumpleases"@, 4);
    } else if k == 69 {
        lemma_ascii_name_lt("dumpleases"@, "echo"@, 0);
    } else if k == 70 {
        lemma_ascii_name_lt("echo"@, "ed"@, 1);
    } else if k == 71 {
        lemma_ascii_name_lt("ed"@, "egrep"@, 1);
    } else if k == 72 {
        lemma_ascii_name_lt("egrep"@, "eject"@, 1);
    } else if k == 73 {
        lemma_ascii_name_lt("eject"@, "env"@, 1);
    } else if k == 74 {
        lemma_ascii_name_lt("env"@, "envdir"@, 3);
    } else if k == 75 {
        lemma_ascii_name_lt("envdir"@, "envuidgid"@, 3);
    } else if k == 76 {
        lemma_ascii_name_lt("envuidgid"@, "ether-wake"@, 1);
    } else if k == 77 {
        lemma_ascii_name_lt("ether-wake"@, "expand"@, 1);
    } else if k == 78 {
        lemma_ascii_name_lt("expand"@, "expr"@, 3);
    } else if k == 79 {
        lemma_ascii_name_lt("expr"@, "factor"@, 0);
    } else if k == 80 {
        lemma_ascii_name_lt("factor"@, "fakeidentd"@, 2);
    }
}

/// Rows 81 to 96 of the built-in table each sort after the row before.
proof fn lemma_rows_5(k: usize, u: &'static str, v: &'static str)
    requires
        81 <= k < 97,
    ensures
        builtin_follows(k, u, v),
{
    reveal_strlit("fakeidentd");
    reveal_strlit("fallocate");
    reveal_strlit("false");
    reveal_strlit("fatattr");
    reveal_strlit("fbset");
    reveal_strlit("fbsplash");
    reveal_strlit("fdflush");
    reveal_strlit("fdformat");
    reveal_strlit("fdisk");
    reveal_strlit("fgconsole");
    reveal_strlit("fgrep");
    reveal_strlit("find");
    reveal_strlit("findfs");
    reveal_strlit("flock");
    reveal_strlit("fold");
    reveal_strlit("free");
    reveal_strlit("freeramdisk");
    if k == 81 {
        lemma_ascii_name_lt("fakeidentd"@, "fallocate"@, 2);
    } else if k == 82 {
        lemma_ascii_name_lt("fallocate"@, "false"@, 3);
    } else if k == 83 {
        lemma_ascii_name_lt("false"@, "fatattr"@, 2);
    } else if k == 84 {
        lemma_ascii_name_lt("fatattr"@, "fbset"@, 1);
    } else if k == 85 {
        lemma_ascii_name_lt("fbset"@, "fbsplash"@, 3);
    } else if k == 86 {
        lemma_ascii_name_lt("fbsplash"@, "fdflush"@, 1);
    } else if k == 87 {
        lemma_ascii_name_lt("fdflush"@, "fdformat"@, 3);
    } else if k == 88 {
        lemma_ascii_name_lt("fdformat"@, "fdisk"@, 2);
    } else if k == 89 {
        lemma_ascii_name_lt("fdisk"@, "fgconsole"@, 1);
    } else if k == 90 {
        lemma_ascii_name_lt("fgconsole"@, "fgrep"@, 2);
    } else if k == 91 {
        lemma_ascii_name_lt("fgrep"@, "find"@, 1);
    } else if k == 92 {
        lemma_ascii_name_lt("find"@, "findfs"@, 4);
    } else if k == 93 {
        lemma_ascii_name_lt("findfs"@, "flock"@, 1);
    } else if k == 94 {
        lemma_ascii_name_lt("flock"@, "fold"@, 1);
    } else if k == 95 {
        lemma_ascii_name_lt("fold"@, "free"@, 1);
    } else if k == 96 {
        lemma_ascii_name_lt("free"@, "freeramdisk"@, 4);
    }
}

/// Rows 97 to 112 of the built-in table each sort after the row before.
proof fn lemma_rows_6(k: usize, u: &'static str, v: &'static str)
    requires
        97 <= k < 113,
    ensures
        builtin_follows(k, u, v),
{
    reveal_strlit("freeramdisk");
    reveal_strlit("fsck");
    reveal_strlit("fsck.minix");
    reveal_strlit("fsfreeze");
    reveal_strlit("fstrim");
    reveal_strlit("fsync");
    reveal_strlit("ftpd");
    reveal_strlit("ftpget");
    reveal_strlit("ftpput");
    reveal_strlit("fuser");
    reveal_strlit("getopt");
    reveal_strlit("getty");
    reveal_strlit("grep");
    reveal_strlit("groups");
    reveal_strlit("gunzip");
    reveal_strlit("gzip");
    reveal_strlit("halt");
    if k == 97 {
        lemma_ascii_name_lt("freeramdisk"@, "fsck"@, 1);
    } else if k == 98 {
        lemma_ascii_name_lt("fsck"@, "fsck.minix"@, 4);
    } else if k == 99 {
        lemma_ascii_name_lt("fsck.minix"@, "fsfreeze"@, 2);
    } else if k == 100 {
        lemma_ascii_name_lt("fsfreeze"@, "fstrim"@, 2);
    } else if k == 101 {
        lemma_ascii_name_lt("fstrim"@, "fsync"@, 2);
    } else if k == 102 {
        lemma_ascii_name_lt("fsync"@, "ftpd"@, 1);
    } else if k == 103 {
        lemma_ascii_name_lt("ftpd"@, "ftpget"@, 3);
    } else if k == 104 {
        lemma_ascii_name_lt("ftpget"@, "ftpput"@, 3);
    } else if k == 105 {
        lemma_ascii_name_lt("ftpput"@, "fuser"@, 1);
    } else if k == 106 {
        lemma_ascii_name_lt("fuser"@, "getopt"@, 0);
    } else if k == 107 {
        lemma_ascii_name_lt("getopt"@, "getty"@, 3);
    } else if k == 108 {
        lemma_ascii_name_lt("getty"@, "grep"@, 1);
    } else if k == 109 {
        lemma_ascii_name_lt("grep"@, "groups"@, 2);
    } else if k == 110 {
        lemma_ascii_name_lt("groups"@, "gunzip"@, 1);
    } else if k == 111 {
        lemma_ascii_name_lt("gunzip"@, "gzip"@, 1);
    } else if k == 112 {
        lemma_ascii_name_lt("gzip"@, "halt"@, 0);
    }
}

/// Rows 113 to 128 of the built-in table each sort after the row before.
proof fn lemma_rows_7(k: usize, u: &'static str, v: &'static str)
    requires
        113 <= k < 129,
    ensures
        builtin_follows(k, u, v),
{
    reveal_strlit("halt");
    reveal_strlit("hd");
    reveal_strlit("hdparm");
    reveal_strlit("head");
    reveal_strlit("hexdump");
    reveal_strlit("hexedit");
    reveal_strlit("hostid");
    reveal_strlit("hostname");
    reveal_strlit("httpd");
    reveal_strlit("hush");
    reveal_strlit("hwclock");
    reveal_strlit("i2cdetect");
    reveal_strlit("i2cdump");
    reveal_strlit("i2cget");
    reveal_strlit("i2cset");
    reveal_strlit("i2ctransfer");
    reveal_strlit("id");
    if k == 113 {
        lemma_ascii_name_lt("halt"@, "hd"@, 1);
    } else if k == 114 {
        lemma_ascii_name_lt("hd"@, "hdparm"@, 2);
    } else if k == 115 {
        lemma_ascii_name_lt("hdparm"@, "head"@, 1);
    } else if k == 116 {
        lemma_ascii_name_lt("head"@, "hexdump"@, 2);
    } else if k == 117 {
        lemma_ascii_name_lt("hexdump"@, "hexedit"@, 3);
    } else if k == 118 {
        lemma_ascii_name_lt("hexedit"@, "hostid"@, 1);
    } else if k == 119 {
        lemma_ascii_name_lt("hostid"@, "hostname"@, 4);
    } else if k == 120 {
        lemma_ascii_name_lt("hostname"@, "httpd"@, 1);
    } else if k == 121 {
        lemma_ascii_name_lt("httpd"@, "hush"@, 1);
    } else if k == 122 {
        lemma_ascii_name_lt("hush"@, "hwclock"@, 1);
    } else if k == 123 {
        lemma_ascii_name_lt("hwclock"@, "i2cdetect"@, 0);
    } else if k == 124 {
        lemma_ascii_name_lt("i2cdetect"@, "i2cdump"@, 4);
    } else if k == 125 {
        lemma_ascii_name_lt("i2cdump"@, "i2cget"@, 3);
    } else if k == 126 {
        lemma_ascii_name_lt("i2cget"@, "i2cset"@, 3);
    } else if k == 127 {
        lemma_ascii_name_lt("i2cset"@, "i2ctransfer"@, 3);
    } else if k == 128 {
        lemma_ascii_name_lt("i2ctransfer"@, "id"@, 1);
    }
}

/// Rows 129 to 144 of the built-in table each sort after the row before.
proof fn lemma_rows_8(k: usize, u: &'static str, v: &'static str)
    requires
        129 <= k < 145,
    ensures
        builtin_follows(k, u, v),
{
    reveal_strlit("id");
    reveal_strlit("ifconfig");
    reveal_strlit("ifdown");
    reveal_strlit("ifenslave");
    reveal_strlit("ifplugd");
    reveal_strlit("ifup");
    reveal_strlit("inetd");
    reveal_strlit("init");
    reveal_strlit("insmod");
    reveal_strlit("install");
    reveal_strlit("ionice");
    reveal_strlit("iostat");
    reveal_strlit("ip");
    reveal_strlit("ipaddr");
    reveal_strlit("ipcalc");
    reveal_strlit("ipcrm");
    reveal_strlit("ipcs");
    if k == 129 {
        lemma_ascii_name_lt("id"@, "ifconfig"@, 1);
    } else if k == 130 {
        lemma_ascii_name_lt("ifconfig"@, "ifdown"@, 2);
    } else if k == 131 {
        lemma_ascii_name_lt("ifdown"@, "ifenslave"@, 2);
    } else if k == 132 {
        lemma_ascii_name_lt("ifenslave"@, "ifplugd"@, 2);
    } else if k == 133 {
        lemma_ascii_name_lt("ifplugd"@, "ifup"@, 2);
    } else if k == 134 {
        lemma_ascii_name_lt("ifup"@, "inetd"@, 1);
    } else if k == 135 {
        lemma_ascii_name_lt("inetd"@, "init"@, 2);
    } else if k == 136 {
        lemma_ascii_name_lt("init"@, "insmod"@, 2);
    } else if k == 137 {
        lemma_ascii_name_lt("insmod"@, "install"@, 3);
    } else if k == 138 {
        lemma_ascii_name_lt("install"@, "ionice"@, 1);
    } else if k == 139 {
        lemma_ascii_name_lt("ionice"@, "iostat"@, 2);
    } else if k == 140 {
        lemma_ascii_name_lt("iostat"@, "ip"@, 1);
    } else if k == 141 {
        lemma_ascii_name_lt("ip"@, "ipaddr"@, 2);
    } else if k == 142 {
        lemma_ascii_name_lt("ipaddr"@, "ipcalc"@, 2);
    } else if k == 143 {
        lemma_ascii_name_lt("ipcalc"@, "ipcrm"@, 3);
    } else if k == 144 {
        lemma_ascii_name_lt("ipcrm"@, "ipcs"@, 3);
    }
}

/// Rows 145 to 160 of the built-in table each sort after the row before.
proof fn lemma_rows_9(k: usize, u: &'static str, v: &'static str)
    requires
        145 <= k < 161,
    ensures
        builtin_follows(k, u, v),
{
    reveal_strlit("ipcs");
    reveal_strlit("iplink");
    reveal_strlit("ipneigh");
    reveal_strlit("iproute");
    reveal_strlit("iprule");
    reveal_strlit("iptunnel");
    reveal_strlit("kbd_mode");
    reveal_strlit("kill");
    reveal_strlit("killall");
    reveal_strlit("killall5");
    reveal_strlit("klogd");
    reveal_strlit("last");
    reveal_strlit("less");
    reveal_strlit("link");
    reveal_strlit("linux32");
    reveal_strlit("linux64");
    reveal_strlit("linuxrc");
    if k == 145 {
        lemma_ascii_name_lt("ipcs"@, "iplink"@, 2);
    } else if k == 146 {
        lemma_ascii_name_lt("iplink"@, "ipneigh"@, 2);
    } else if k == 147 {
        lemma_ascii_name_lt("ipneigh"@, "iproute"@, 2);
    } else if k == 148 {
        lemma_ascii_name_lt("iproute"@, "iprule"@, 3);
    } else if k == 149 {
        lemma_ascii_name_lt("iprule"@, "iptunnel"@, 2);
    } else if k == 150 {
        lemma_ascii_name_lt("iptunnel"@, "kbd_mode"@, 0);
    } else if k == 151 {
        lemma_ascii_name_lt("kbd_mode"@, "kill"@, 1);
    } else if k == 152 {
        lemma_ascii_name_lt("kill"@, "killall"@, 4);
    } else if k == 153 {
        lemma_ascii_name_lt("killall"@, "killall5"@, 7);
    } else if k == 154 {
        lemma_ascii_name_lt("killall5"@, "klogd"@, 1);
    } else if k == 155 {
        lemma_ascii_name_lt("klogd"@, "last"@, 0);
    } else if k == 156 {
        lemma_ascii_name_lt("last"@, "less"@, 1);
    } else if k == 157 {
        lemma_ascii_name_lt("less"@, "link"@, 1);
    } else if k == 158 {
        lemma_ascii_name_lt("link"@, "linux32"@, 3);
    } else if k == 159 {
        lemma_ascii_name_lt("linux32"@, "linux64"@, 5);
    } else if k == 160 {
        lemma_ascii_name_lt("linux64"@, "linuxrc"@, 5);
    }
}

/// Rows 161 to 176 of the built-in table each sort after the row before.
proof fn lemma_rows_10(k: usize, u: &'static str, v: &'static str)
    requires
        161 <= k < 177,
    ensures
        builtin_follows(k, u, v),
{
    reveal_strlit("linuxrc");
    reveal_strlit("ln");
    reveal_strlit("loadfont");
    reveal_strlit("loadkmap");
    reveal_strlit("logger");
    reveal_strlit("login");
    reveal_strlit("logname");
    reveal_strlit("logread");
    reveal_strlit("losetup");
    reveal_strlit("lpd");
    reveal_strlit("lpq");
    reveal_strlit("lpr");
    reveal_strlit("ls");
    reveal_strlit("lsattr");
    reveal_strlit("lsmod");
    reveal_strlit("lsof");
    reveal_strlit("lspci");
    if k == 161 {
        lemma_ascii_name_lt("linuxrc"@, "ln"@, 1);
    } else if k == 162 {
        lemma_ascii_name_lt("ln"@, "loadfont"@, 1);
    } else if k == 163 {
        lemma_ascii_name_lt("loadfont"@, "loadkmap"@, 4);
    } else if k == 164 {
        lemma_ascii_name_lt("loadkmap"@, "logger"@, 2);
    } else if k == 165 {
        lemma_ascii_name_lt("logger"@, "login"@, 3);
    } else if k == 166 {
        lemma_ascii_name_lt("login"@, "logname"@, 3);
    } else if k == 167 {
        lemma_ascii_name_lt("logname"@, "logread"@, 3);
    } else if k == 168 {
        lemma_ascii_name_lt("logread"@, "losetup"@, 2);
    } else if k == 169 {
        lemma_ascii_name_lt("losetup"@, "lpd"@, 1);
    } else if k == 170 {
        lemma_ascii_name_lt("lpd"@, "lpq"@, 2);
    } else if k == 171 {
        lemma_ascii_name_lt("lpq"@, "lpr"@, 2);
    } else if k == 172 {
        lemma_ascii_name_lt("lpr"@, "ls"@, 1);
    } else if k == 173 {
        lemma_ascii_name_lt("ls"@, "lsattr"@, 2);
    } else if k == 174 {
        lemma_ascii_name_lt("lsattr"@, "lsmod"@, 2);
    } else if k == 175 {
        lemma_ascii_name_lt("lsmod"@, "lsof"@, 2);
    } else if k == 176 {
        lemma_ascii_name_lt("lsof"@, "lspci"@, 2);
    }
}

/// Rows 177 to 192 of the built-in table each sort after the row before.
proof fn lemma_rows_11(k: usize, u: &'static str, v: &'static str)
    requires
        177 <= k < 193,
    ensures
        builtin_follows(k, u, v),
{
    reveal_strlit("lspci");
    reveal_strlit("lsscsi");
    reveal_strlit("lsusb");
    reveal_strlit("lzcat");
    reveal_strlit("lzma");
    reveal_strlit("lzop");
    reveal_strlit("makedevs");
    reveal_strlit("makemime");
    reveal_strlit("man");
    reveal_strlit("md5sum");
    reveal_strlit("mdev");
    reveal_strlit("mesg");
    reveal_strlit("microcom");
    reveal_strlit("mkdir");
    reveal_strlit("mkdosfs");
    reveal_strlit("mke2fs");
    reveal_strlit("mkfifo");
    if k == 177 {
        lemma_ascii_name_lt("lspci"@, "lsscsi"@, 2);
    } else if k == 178 {
        lemma_ascii_name_lt("lsscsi"@, "lsusb"@, 2);
    } else if k == 179 {
        lemma_ascii_name_lt("lsusb"@, "lzcat"@, 1);
    } else if k == 180 {
        lemma_ascii_name_lt("lzcat"@, "lzma"@, 2);
    } else if k == 181 {
        lemma_ascii_name_lt("lzma"@, "lzop"@, 2);
    } else if k == 182 {
        lemma_ascii_name_lt("lzop"@, "makedevs"@, 0);
    } else if k == 183 {
        lemma_ascii_name_lt("makedevs"@, "makemime"@, 4);
    } else if k == 184 {
        lemma_ascii_name_lt("makemime"@, "man"@, 2);
    } else if k == 185 {
        lemma_ascii_name_lt("man"@, "md5sum"@, 1);
    } else if k == 186 {
        lemma_ascii_name_lt("md5sum"@, "mdev"@, 2);
    } else if k == 187 {
        lemma_ascii_name_lt("mdev"@, "mesg"@, 1);
    } else if k == 188 {
        lemma_ascii_name_lt("mesg"@, "microcom"@, 1);
    } else if k == 189 {
        lemma_ascii_name_lt("microcom"@, "mkdir"@, 1);
    } else if k == 190 {
        lemma_ascii_name_lt("mkdir"@, "mkdosfs"@, 3);
    } else if k == 191 {
        lemma_ascii_name_lt("mkdosfs"@, "mke2fs"@, 2);
    } else if k == 192 {
        lemma_ascii_name_lt("mke2fs"@, "mkfifo"@, 2);
    }
}

/// Rows 193 to 208 of the built-in table each sort after the row before.
proof fn lemma_rows_12(k: usize, u: &'static str, v: &'static str)
    requires
        193 <= k < 209,
    ensures
        builtin_follows(k, u, v),
{
    reveal_strlit("mkfifo");
    reveal_strlit("mkfs.ext2");
    reveal_strlit("mkfs.minix");
    reveal_strlit("mkfs.vfat");
    reveal_strlit("mknod");
    reveal_strlit("mkpasswd");
    reveal_strlit("mkswap");
    reveal_strlit("mktemp");
    reveal_strlit("modinfo");
    reveal_strlit("modprobe");
    reveal_strlit("more");
    reveal_strlit("mount");
    reveal_strlit("mountpoint");
    reveal_strlit("mpstat");
    reveal_strlit("mt");
    reveal_strlit("mv");
    reveal_strlit("nameif");
    if k == 193 {
        lemma_ascii_name_lt("mkfifo"@, "mkfs.ext2"@, 3);
    } else if k == 194 {
        lemma_ascii_name_lt("mkfs.ext2"@, "mkfs.minix"@, 5);
    } else if k == 195 {
        lemma_ascii_name_lt("mkfs.minix"@, "mkfs.vfat"@, 5);
    } else if k == 196 {
        lemma_ascii_name_lt("mkfs.vfat"@, "mknod"@, 2);
    } else if k == 197 {
        lemma_ascii_name_lt("mknod"@, "mkpasswd"@, 2);
    } else if k == 198 {
        lemma_ascii_name_lt("mkpasswd"@, "mkswap"@, 2);
    } else if k == 199 {
        lemma_ascii_name_lt("mkswap"@, "mktemp"@, 2);
    } else if k == 200 {
        lemma_ascii_name_lt("mktemp"@, "modinfo"@, 1);
    } else if k == 201 {
        lemma_ascii_name_lt("modinfo"@, "modprobe"@, 3);
    } else if k == 202 {
        lemma_ascii_name_lt("modprobe"@, "more"@, 2);
    } else if k == 203 {
        lemma_ascii_name_lt("more"@, "mount"@, 2);
    } else if k == 204 {
        lemma_ascii_name_lt("mount"@, "mountpoint"@, 5);
    } else if k == 205 {
        lemma_ascii_name_lt("mountpoint"@, "mpstat"@, 1);
    } else if k == 206 {
        lemma_ascii_name_lt("mpstat"@, "mt"@, 1);
    } else if k == 207 {
        lemma_ascii_name_lt("mt"@, "mv"@, 1);
    } else if k == 208 {
        lemma_ascii_name_lt("mv"@, "nameif"@, 0);
    }
}

/// Rows 209 to 224 of the built-in table each sort after the row before.
proof fn lemma_rows_13(k: usize, u: &'static str, v: &'static str)
    requires
        209 <= k < 225,
    ensures
        builtin_follows(k, u, v),
{
    reveal_strlit("nameif");
    reveal_strlit("nanddump");
    reveal_strlit("nandwrite");
    reveal_strlit("nbd-client");
    reveal_strlit("nc");
    reveal_strlit("netstat");
    reveal_strlit("nice");
    reveal_strlit("nl");
    reveal_strlit("nmeter");
    reveal_strlit("nohup");
    reveal_strlit("nproc");
    reveal_strlit("nsenter");
    reveal_strlit("nslookup");
    reveal_strlit("ntpd");
    reveal_strlit("nuke");
    reveal_strlit("od");
    reveal_strlit("openvt");
    if k == 209 {
        lemma_ascii_name_lt("nameif"@, "nanddump"@, 2);
    } else if k == 210 {
        lemma_ascii_name_lt("nanddump"@, "nandwrite"@, 4);
    } else if k == 211 {
        lemma_ascii_name_lt("nandwrite"@, "nbd-client"@, 1);
    } else if k == 212 {
        lemma_ascii_name_lt("nbd-client"@, "nc"@, 1);
    } else if k == 213 {
        lemma_ascii_name_lt("nc"@, "netstat"@, 1);
    } else if k == 214 {
        lemma_ascii_name_lt("netstat"@, "nice"@, 1);
    } else if k == 215 {
        lemma_ascii_name_lt("nice"@, "nl"@, 1);
    } else if k == 216 {
        lemma_ascii_name_lt("nl"@, "nmeter"@, 1);
    } else if k == 217 {
        lemma_ascii_name_lt("nmeter"@, "nohup"@, 1);
    } else if k == 218 {
        lemma_ascii_name_lt("nohup"@, "nproc"@, 1);
    } else if k == 219 {
        lemma_ascii_name_lt("nproc"@, "nsenter"@, 1);
    } else if k == 220 {
        lemma_ascii_name_lt("nsenter"@, "nslookup"@, 2);
    } else if k == 221 {
        lemma_ascii_name_lt("nslookup"@, "ntpd"@, 1);
    } else if k == 222 {
        lemma_ascii_name_lt("ntpd"@, "nuke"@, 1);
    } else if k == 223 {
        lemma_ascii_name_lt("nuke"@, "od"@, 0);
    } else if k == 224 {
        lemma_ascii_name_lt("od"@, "openvt"@, 1);
    }
}

/// Rows 225 to 240 of the built-in table each sort after the row before.
proof fn lemma_rows_14(k: usize, u: &'static str, v: &'static str)
    requires
        225 <= k < 241,
    ensures
        builtin_follows(k, u, v),
{
    reveal_strlit("openvt");
    reveal_strlit("partprobe");
    reveal_strlit("passwd");
    reveal_strlit("paste");
    reveal_strlit("patch");
    reveal_strlit("pgrep");
    reveal_strlit("pidof");
    reveal_strlit("ping");
    reveal_strlit("ping6");
    reveal_strlit("pipe_progress");
    reveal_strlit("pivot_root");
    reveal_strlit("pkill");
    reveal_strlit("pmap");
    reveal_strlit("popmaildir");
    reveal_strlit("poweroff");
    reveal_strlit("powertop");
    reveal_strlit("printenv");
    if k == 225 {
        lemma_ascii_name_lt("openvt"@, "partprobe"@, 0);
    } else if k == 226 {
        lemma_ascii_name_lt("partprobe"@, "passwd"@, 2);
    } else if k == 227 {
        lemma_ascii_name_lt("passwd"@, "paste"@, 3);
    } else if k == 228 {
        lemma_ascii_name_lt("paste"@, "patch"@, 2);
    } else if k == 229 {
        lemma_ascii_name_lt("patch"@, "pgrep"@, 1);
    } else if k == 230 {
        lemma_ascii_name_lt("pgrep"@, "pidof"@, 1);
    } else if k == 231 {
        lemma_ascii_name_lt("pidof"@, "ping"@, 2);
    } else if k == 232 {
        lemma_ascii_name_lt("ping"@, "ping6"@, 4);
    } else if k == 233 {
        lemma_ascii_name_lt("ping6"@, "pipe_progress"@, 2);
    } else if k == 234 {
        lemma_ascii_name_lt("pipe_progress"@, "pivot_root"@, 2);
    } else if k == 235 {
        lemma_ascii_name_lt("pivot_root"@, "pkill"@, 1);
    } else if k == 236 {
        lemma_ascii_name_lt("pkill"@, "pmap"@, 1);
    } else if k == 237 {
        lemma_ascii_name_lt("pmap"@, "popmaildir"@, 1);
    } else if k == 238 {
        lemma_ascii_name_lt("popmaildir"@, "poweroff"@, 2);
    } else if k == 239 {
        lemma_ascii_name_lt("poweroff"@, "powertop"@, 5);
    } else if k == 240 {
        lemma_ascii_name_lt("powertop"@, "printenv"@, 1);
    }
}

/// Rows 241 to 256 of the built-in table each sort after the row before.
proof fn lemma_rows_15(k: usize, u: &'static str, v: &'static str)
    requires
        241 <= k < 257,
    ensures
        builtin_follows(k, u, v),
{
    reveal_strlit("printenv");
    reveal_strlit("printf");
    reveal_strlit("ps");
    reveal_strlit("pscan");
    reveal_strlit("pstree");
    reveal_strlit("pwd");
    reveal_strlit("pwdx");
    reveal_strlit("raidautorun");
    reveal_strlit("rdate");
    reveal_strlit("rdev");
    reveal_strlit("readahead");
    reveal_strlit("readlink");
    reveal_strlit("readprofile");
    reveal_strlit("realpath");
    reveal_strlit("reboot");
    reveal_strlit("reformime");
    reveal_strlit("remove-shell");
    if k == 241 {
        lemma_ascii_name_lt("printenv"@, "printf"@, 5);
    } else if k == 242 {
        lemma_ascii_name_lt("printf"@, "ps"@, 1);
    } else if k == 243 {
        lemma_ascii_name_lt("ps"@, "pscan"@, 2);
    } else if k == 244 {
        lemma_ascii_name_lt("pscan"@, "pstree"@, 2);
    } else if k == 245 {
        lemma_ascii_name_lt("pstree"@, "pwd"@, 1);
    } else if k == 246 {
        lemma_ascii_name_lt("pwd"@, "pwdx"@, 3);
    } else if k == 247 {
        lemma_ascii_name_lt("pwdx"@, "raidautorun"@, 0);
    } else if k == 248 {
        lemma_ascii_name_lt("raidautorun"@, "rdate"@, 1);
    } else if k == 249 {
        lemma_ascii_name_lt("rdate"@, "rdev"@, 2);
    } else if k == 250 {
        lemma_ascii_name_lt("rdev"@, "readahead"@, 1);
    } else if k == 251 {
        lemma_ascii_name_lt("readahead"@, "readlink"@, 4);
    } else if k == 252 {
        lemma_ascii_name_lt("readlink"@, "readprofile"@, 4);
    } else if k == 253 {
        lemma_ascii_name_lt("readprofile"@, "realpath"@, 3);
    } else if k == 254 {
        lemma_ascii_name_lt("realpath"@, "reboot"@, 2);
    } else if k == 255 {
        lemma_ascii_name_lt("reboot"@, "reformime"@, 2);
    } else if k == 256 {
        lemma_ascii_name_lt("reformime"@, "remove-shell"@, 2);
    }
}

/// Rows 257 to 272 of the built-in table each sort after the row before.
proof fn lemma_rows_16(k: usize, u: &'static str, v: &'static str)
    requires
        257 <= k < 273,
    ensures
        builtin_follows(k, u, v),
{
    reveal_strlit("remove-shell");
    reveal_strlit("renice");
    reveal_strlit("reset");
    reveal_strlit("resize");
    reveal_strlit("resume");
    reveal_strlit("rev");
    reveal_strlit("rm");
    reveal_strlit("rmdir");
    reveal_strlit("rmmod");
    reveal_strlit("route");
    reveal_strlit("rpm");
    reveal_strlit("rpm2cpio");
    reveal_strlit("rtcwake");
    reveal_strlit("run-init");
    reveal_strlit("run-parts");
    reveal_strlit("runlevel");
    reveal_strlit("runsv");
    if k == 257 {
        lemma_ascii_name_lt("remove-shell"@, "renice"@, 2);
    } else if k == 258 {
        lemma_ascii_name_lt("renice"@, "reset"@, 2);
    } else if k == 259 {
        lemma_ascii_name_lt("reset"@, "resize"@, 3);
    } else if k == 260 {
        lemma_ascii_name_lt("resize"@, "resume"@, 3);
    } else if k == 261 {
        lemma_ascii_name_lt("resume"@, "rev"@, 2);
    } else if k == 262 {
        lemma_ascii_name_lt("rev"@, "rm"@, 1);
    } else if k == 263 {
        lemma_ascii_name_lt("rm"@, "rmdir"@, 2);
    } else if k == 264 {
        lemma_ascii_name_lt("rmdir"@, "rmmod"@, 2);
    } else if k == 265 {
        lemma_ascii_name_lt("rmmod"@, "route"@, 1);
    } else if k == 266 {
        lemma_ascii_name_lt("route"@, "rpm"@, 1);
    } else if k == 267 {
        lemma_ascii_name_lt("rpm"@, "rpm2cpio"@, 3);
    } else if k == 268 {
        lemma_ascii_name_lt("rpm2cpio"@, "rtcwake"@, 1);
    } else if k == 269 {
        lemma_ascii_name_lt("rtcwake"@, "run-init"@, 1);
    } else if k == 270 {
        lemma_ascii_name_lt("run-init"@, "run-parts"@, 4);
    } else if k == 271 {
        lemma_ascii_name_lt("run-parts"@, "runlevel"@, 3);
    } else if k == 272 {
        lemma_ascii_name_lt("runlevel"@, "runsv"@, 3);
    }
}

/// Rows 273 to 288 of the built-in table each sort after the row before.
proof fn lemma_rows_17(k: usize, u: &'static str, v: &'static str)
    requires
        273 <= k < 289,
    ensures
        builtin_follows(k, u, v),
{
    reveal_strlit("runsv");
    reveal_strlit("runsvdir");
    reveal_strlit("rx");
    reveal_strlit("script");
    reveal_strlit("scriptreplay");
    reveal_strlit("sed");
    reveal_strlit("sendmail");
    reveal_strlit("seq");
    reveal_strlit("setarch");
    reveal_strlit("setconsole");
    reveal_strlit("setfattr");
    reveal_strlit("setfont");
    reveal_strlit("setkeycodes");
    reveal_strlit("setlogcons");
    reveal_strlit("setpriv");
    reveal_strlit("setserial");
    reveal_strlit("setsid");
    if k == 273 {
        lemma_ascii_name_lt("runsv"@, "runsvdir"@, 5);
    } else if k == 274 {
        lemma_ascii_name_lt("runsvdir"@, "rx"@, 1);
    } else if k == 275 {
        lemma_ascii_name_lt("rx"@, "script"@, 0);
    } else if k == 276 {
        lemma_ascii_name_lt("script"@, "scriptreplay"@, 6);
    } else if k == 277 {
        lemma_ascii_name_lt("scriptreplay"@, "sed"@, 1);
    } else if k == 278 {
        lemma_ascii_name_lt("sed"@, "sendmail"@, 2);
    } else if k == 279 {
        lemma_ascii_name_lt("sendmail"@, "seq"@, 2);
    } else if k == 280 {
        lemma_ascii_name_lt("seq"@, "setarch"@, 2);
    } else if k == 281 {
        lemma_ascii_name_lt("setarch"@, "setconsole"@, 3);
    } else if k == 282 {
        lemma_ascii_name_lt("setconsole"@, "setfattr"@, 3);
    } else if k == 283 {
        lemma_ascii_name_lt("setfattr"@, "setfont"@, 4);
    } else if k == 284 {
        lemma_ascii_name_lt("setfont"@, "setkeycodes"@, 3);
    } else if k == 285 {
        lemma_ascii_name_lt("setkeycodes"@, "setlogcons"@, 3);
    } else if k == 286 {
        lemma_ascii_name_lt("setlogcons"@, "setpriv"@, 3);
    } else if k == 287 {
        lemma_ascii_name_lt("setpriv"@, "setserial"@, 3);
    } else if k == 288 {
        lemma_ascii_name_lt("setserial"@, "setsid"@, 4);
    }
}

/// Rows 289 to 304 of the built-in table each sort after the row before.
proof fn lemma_rows_18(k: usize, u: &'static str, v: &'static str)
    requires
        289 <= k < 305,
    ensures
        builtin_follows(k, u, v),
{
    reveal_strlit("setsid");
    reveal_strlit("setuidgid");
    reveal_strlit("sh");
    reveal_strlit("sha1sum");
    reveal_strlit("sha256sum");
    reveal_strlit("sha3sum");
    reveal_strlit("sha512sum");
    reveal_strlit("showkey");
    reveal_strlit("shred");
    reveal_strlit("shuf");
    reveal_strlit("slattach");
    reveal_strlit("sleep");
    reveal_strlit("smemcap");
    reveal_strlit("softlimit");
    reveal_strlit("sort");
    reveal_strlit("split");
    reveal_strlit("ssl_client");
    if k == 289 {
        lemma_ascii_name_lt("setsid"@, "setuidgid"@, 3);
    } else if k == 290 {
        lemma_ascii_name_lt("setuidgid"@, "sh"@, 1);
    } else if k == 291 {
        lemma_ascii_name_lt("sh"@, "sha1sum"@, 2);
    } else if k == 292 {
        lemma_ascii_name_lt("sha1sum"@, "sha256sum"@, 3);
    } else if k == 293 {
        lemma_ascii_name_lt("sha256sum"@, "sha3sum"@, 3);
    } else if k == 294 {
        lemma_ascii_name_lt("sha3sum"@, "sha512sum"@, 3);
    } else if k == 295 {
        lemma_ascii_name_lt("sha512sum"@, "showkey"@, 2);
    } else if k == 296 {
        lemma_ascii_name_lt("showkey"@, "shred"@, 2);
    } else if k == 297 {
        lemma_ascii_name_lt("shred"@, "shuf"@, 2);
    } else if k == 298 {
        lemma_ascii_name_lt("shuf"@, "slattach"@, 1);
    } else if k == 299 {
        lemma_ascii_name_lt("slattach"@, "sleep"@, 2);
    } else if k == 300 {
        lemma_ascii_name_lt("sleep"@, "smemcap"@, 1);
    } else if k == 301 {
        lemma_ascii_name_lt("smemcap"@, "softlimit"@, 1);
    } else if k == 302 {
        lemma_ascii_name_lt("softlimit"@, "sort"@, 2);
    } else if k == 303 {
        lemma_ascii_name_lt("sort"@, "split"@, 1);
    } else if k == 304 {
        lemma_ascii_name_lt("split"@, "ssl_client"@, 1);
    }
}

/// Rows 305 to 320 of the built-in table each sort after the row before.
proof fn lemma_rows_19(k: usize, u: &'static str, v: &'static str)
    requires
        305 <= k < 321,
    ensures
        builtin_follows(k, u, v),
{
    reveal_strlit("ssl_client");
    reveal_strlit("start-stop-daemon");
    reveal_strlit("stat");
    reveal_strlit("strings");
    reveal_strlit("stty");
    reveal_strlit("su");
    reveal_strlit("sulogin");
    reveal_strlit("sum");
    reveal_strlit("sv");
    reveal_strlit("svc");
    reveal_strlit("svlogd");
    reveal_strlit("svok");
    reveal_strlit("swapoff");
    reveal_strlit("swapon");
    reveal_strlit("switch_root");
    reveal_strlit("sync");
    reveal_strlit("sysctl");
    if k == 305 {
        lemma_ascii_name_lt("ssl_client"@, "start-stop-daemon"@, 1);
    } else if k == 306 {
        lemma_ascii_name_lt("start-stop-daemon"@, "stat"@, 3);
    } else if k == 307 {
        lemma_ascii_name_lt("stat"@, "strings"@, 2);
    } else if k == 308 {
        lemma_ascii_name_lt("strings"@, "stty"@, 2);
    } else if k == 309 {
        lemma_ascii_name_lt("stty"@, "su"@, 1);
    } else if k == 310 {
        lemma_ascii_name_lt("su"@, "sulogin"@, 2);
    } else if k == 311 {
        lemma_ascii_name_lt("sulogin"@, "sum"@, 2);
    } else if k == 312 {
        lemma_ascii_name_lt("sum"@, "sv"@, 1);
    } else if k == 313 {
        lemma_ascii_name_lt("sv"@, "svc"@, 2);
    } else if k == 314 {
        lemma_ascii_name_lt("svc"@, "svlogd"@, 2);
    } else if k == 315 {
        lemma_ascii_name_lt("svlogd"@, "svok"@, 2);
    } else if k == 316 {
        lemma_ascii_name_lt("svok"@, "swapoff"@, 1);
    } else if k == 317 {
        lemma_ascii_name_lt("swapoff"@, "swapon"@, 5);
    } else if k == 318 {
        lemma_ascii_name_lt("swapon"@, "switch_root"@, 2);
    } else if k == 319 {
        lemma_ascii_name_lt("switch_root"@, "sync"@, 1);
    } else if k == 320 {
        lemma_ascii_name_lt("sync"@, "sysctl"@, 2);
    }
}

/// Rows 321 to 336 of the built-in table each sort after the row before.
proof fn lemma_rows_20(k: usize, u: &'static str, v: &'static str)
    requires
        321 <= k < 337,
    ensures
        builtin_follows(k, u, v),
{
    reveal_strlit("sysctl");
    reveal_strlit("syslogd");
    reveal_strlit("tac");
    reveal_strlit("tail");
    reveal_strlit("tar");
    reveal_strlit("taskset");
    reveal_strlit("tc");
    reveal_strlit("tcpsvd");
    reveal_strlit("tee");
    reveal_strlit("telnet");
    reveal_strlit("telnetd");
    reveal_strlit("test");
    reveal_strlit("tftp");
    reveal_strlit("tftpd");
    reveal_strlit("time");
    reveal_strlit("timeout");
    reveal_strlit("top");
    if k == 321 {
        lemma_ascii_name_lt("sysctl"@, "syslogd"@, 3);
    } else if k == 322 {
        lemma_ascii_name_lt("syslogd"@, "tac"@, 0);
    } else if k == 323 {
        lemma_ascii_name_lt("tac"@, "tail"@, 2);
    } else if k == 324 {
        lemma_ascii_name_lt("tail"@, "tar"@, 2);
    } else if k == 325 {
        lemma_ascii_name_lt("tar"@, "taskset"@, 2);
    } else if k == 326 {
        lemma_ascii_name_lt("taskset"@, "tc"@, 1);
    } else if k == 327 {
        lemma_ascii_name_lt("tc"@, "tcpsvd"@, 2);
    } else if k == 328 {
        lemma_ascii_name_lt("tcpsvd"@, "tee"@, 1);
    } else if k == 329 {
        lemma_ascii_name_lt("tee"@, "telnet"@, 2);
    } else if k == 330 {
        lemma_ascii_name_lt("telnet"@, "telnetd"@, 6);
    } else if k == 331 {
        lemma_ascii_name_lt("telnetd"@, "test"@, 2);
    } else if k == 332 {
        lemma_ascii_name_lt("test"@, "tftp"@, 1);
    } else if k == 333 {
        lemma_ascii_name_lt("tftp"@, "tftpd"@, 4);
    } else if k == 334 {
        lemma_ascii_name_lt("tftpd"@, "time"@, 1);
    } else if k == 335 {
        lemma_ascii_name_lt("time"@, "timeout"@, 4);
    } else if k == 336 {
        lemma_ascii_name_lt("timeout"@, "top"@, 1);
    }
}

/// Rows 337 to 352 of the built-in table each sort after the row before.
proof fn lemma_rows_21(k: usize, u: &'static str, v: &'static str)
    requires
        337 <= k < 353,
    ensures
        builtin_follows(k, u, v),
{
    reveal_strlit("top");
    reveal_strlit("touch");
    reveal_strlit("tr");
    reveal_strlit("traceroute");
    reveal_strlit("traceroute6");
    reveal_strlit("true");
    reveal_strlit("truncate");
    reveal_strlit("ts");
    reveal_strlit("tty");
    reveal_strlit("ttysize");
    reveal_strlit("tunctl");
    reveal_strlit("ubiattach");
    reveal_strlit("ubidetach");
    reveal_strlit("ubimkvol");
    reveal_strlit("ubirename");
    reveal_strlit("ubirmvol");
    reveal_strlit("ubirsvol");
    if k == 337 {
        lemma_ascii_name_lt("top"@, "touch"@, 2);
    } else if k == 338 {
        lemma_ascii_name_lt("touch"@, "tr"@, 1);
    } else if k == 339 {
        lemma_ascii_name_lt("tr"@, "traceroute"@, 2);
    } else if k == 340 {
        lemma_ascii_name_lt("traceroute"@, "traceroute6"@, 10);
    } else if k == 341 {
        lemma_ascii_name_lt("traceroute6"@, "true"@, 2);
    } else if k == 342 {
        lemma_ascii_name_lt("true"@, "truncate"@, 3);
    } else if k == 343 {
        lemma_ascii_name_lt("truncate"@, "ts"@, 1);
    } else if k == 344 {
        lemma_ascii_name_lt("ts"@, "tty"@, 1);
    } else if k == 345 {
        lemma_ascii_name_lt("tty"@, "ttysize"@, 3);
    } else if k == 346 {
        lemma_ascii_name_lt("ttysize"@, "tunctl"@, 1);
    } else if k == 347 {
        lemma_ascii_name_lt("tunctl"@, "ubiattach"@, 0);
    } else if k == 348 {
        lemma_ascii_name_lt("ubiattach"@, "ubidetach"@, 3);
    } else if k == 349 {
        lemma_ascii_name_lt("ubidetach"@, "ubimkvol"@, 3);
    } else if k == 350 {
        lemma_ascii_name_lt("ubimkvol"@, "ubirename"@, 3);
    } else if k == 351 {
        lemma_ascii_name_lt("ubirename"@, "ubirmvol"@, 4);
    } else if k == 352 {
        lemma_ascii_name_lt("ubirmvol"@, "ubirsvol"@, 4);
    }
}

/// Rows 353 to 368 of the built-in table each sort after the row before.
proof fn lemma_rows_22(k: usize, u: &'static str, v: &'static str)
    requires
        353 <= k < 369,
    ensures
        builtin_follows(k, u, v),
{
    reveal_strlit("ubirsvol");
    reveal_strlit("ubiupdatevol");
    reveal_strlit("udhcpc");
    reveal_strlit("udhcpc6");
    reveal_strlit("udhcpd");
    reveal_strlit("udpsvd");
    reveal_strlit("uevent");
    reveal_strlit("umount");
    reveal_strlit("uname");
    reveal_strlit("unexpand");
    reveal_strlit("uniq");
    reveal_strlit("unix2dos");
    reveal_strlit("unlink");
    reveal_strlit("unlzma");
    reveal_strlit("unshare");
    reveal_strlit("unxz");
    reveal_strlit("unzip");
    if k == 353 {
        lemma_ascii_name_lt("ubirsvol"@, "ubiupdatevol"@, 3);
    } else if k == 354 {
        lemma_ascii_name_lt("ubiupdatevol"@, "udhcpc"@, 1);
    } else if k == 355 {
        lemma_ascii_name_lt("udhcpc"@, "udhcpc6"@, 6);
    } else if k == 356 {
        lemma_ascii_name_lt("udhcpc6"@, "udhcpd"@, 5);
    } else if k == 357 {
        lemma_ascii_name_lt("udhcpd"@, "udpsvd"@, 2);
    } else if k == 358 {
        lemma_ascii_name_lt("udpsvd"@, "uevent"@, 1);
    } else if k == 359 {
        lemma_ascii_name_lt("uevent"@, "umount"@, 1);
    } else if k == 360 {
        lemma_ascii_name_lt("umount"@, "uname"@, 1);
    } else if k == 361 {
        lemma_ascii_name_lt("uname"@, "unexpand"@, 2);
    } else if k == 362 {
        lemma_ascii_name_lt("unexpand"@, "uniq"@, 2);
    } else if k == 363 {
        lemma_ascii_name_lt("uniq"@, "unix2dos"@, 3);
    } else if k == 364 {
        lemma_ascii_name_lt("unix2dos"@, "unlink"@, 2);
    } else if k == 365 {
        lemma_ascii_name_lt("unlink"@, "unlzma"@, 3);
    } else if k == 366 {
        lemma_ascii_name_lt("unlzma"@, "unshare"@, 2);
    } else if k == 367 {
        lemma_ascii_name_lt("unshare"@, "unxz"@, 2);
    } else if k == 368 {
        lemma_ascii_name_lt("unxz"@, "unzip"@, 2);
    }
}

/// Rows 369 to 384 of the built-in table each sort after the row before.
proof fn lemma_rows_23(k: usize, u: &'static str, v: &'static str)
    requires
        369 <= k < 385,
    ensures
        builtin_follows(k, u, v),
{
    reveal_strlit("unzip");
    reveal_strlit("uptime");
    reveal_strlit("users");
    reveal_strlit("usleep");
    reveal_strlit("uudecode");
    reveal_strlit("uuencode");
    reveal_strlit("vconfig");
    reveal_strlit("vi");
    reveal_strlit("vlock");
    reveal_strlit("volname");
    reveal_strlit("w");
    reveal_strlit("wall");
    reveal_strlit("watch");
    reveal_strlit("watchdog");
    reveal_strlit("wc");
    reveal_strlit("wget");
    reveal_strlit("which");
    if k == 369 {
        lemma_ascii_name_lt("unzip"@, "uptime"@, 1);
    } else if k == 370 {
        lemma_ascii_name_lt("uptime"@, "users"@, 1);
    } else if k == 371 {
        lemma_ascii_name_lt("users"@, "usleep"@, 2);
    } else if k == 372 {
        lemma_ascii_name_lt("usleep"@, "uudecode"@, 1);
    } else if k == 373 {
        lemma_ascii_name_lt("uudecode"@, "uuencode"@, 2);
    } else if k == 374 {
        lemma_ascii_name_lt("uuencode"@, "vconfig"@, 0);
    } else if k == 375 {
        lemma_ascii_name_lt("vconfig"@, "vi"@, 1);
    } else if k == 376 {
        lemma_ascii_name_lt("vi"@, "vlock"@, 1);
    } else if k == 377 {
        lemma_ascii_name_lt("vlock"@, "volname"@, 1);
    } else if k == 378 {
        lemma_ascii_name_lt("volname"@, "w"@, 0);
    } else if k == 379 {
        lemma_ascii_name_lt("w"@, "wall"@, 1);
    } else if k == 380 {
        lemma_ascii_name_lt("wall"@, "watch"@, 2);
    } else if k == 381 {
        lemma_ascii_name_lt("watch"@, "watchdog"@, 5);
    } else if k == 382 {
        lemma_ascii_name_lt("watchdog"@, "wc"@, 1);
    } else if k == 383 {
        lemma_ascii_name_lt("wc"@, "wget"@, 1);
    } else if k == 384 {
        lemma_ascii_name_lt("wget"@, "which"@, 1);
    }
}

/// Rows 385 to 394 of the built-in table each sort after the row before.
proof fn lemma_rows_24(k: usize, u: &'static str, v: &'static str)
    requires
        385 <= k < 395,
    ensures
        builtin_follows(k, u, v),
{
    reveal_strlit("which");
    reveal_strlit("who");
    reveal_strlit("whoami");
    reveal_strlit("whois");
    reveal_strlit("xargs");
    reveal_strlit("xxd");
    reveal_strlit("xz");
    reveal_strlit("xzcat");
    reveal_strlit("yes");
    reveal_strlit("zcat");
    reveal_strlit("zcip");
    if k == 385 {
        lemma_ascii_name_lt("which"@, "who"@, 2);
    } else if k == 386 {
        lemma_ascii_name_lt("who"@, "whoami"@, 3);
    } else if k == 387 {
        lemma_ascii_name_lt("whoami"@, "whois"@, 3);
    } else if k == 388 {
        lemma_ascii_name_lt("whois"@, "xargs"@, 0);
    } else if k == 389 {
        lemma_ascii_name_lt("xargs"@, "xxd"@, 1);
    } else if k == 390 {
        lemma_ascii_name_lt("xxd"@, "xz"@, 1);
    } else if k == 391 {
        lemma_ascii_name_lt("xz"@, "xzcat"@, 2);
    } else if k == 392 {
        lemma_ascii_name_lt("xzcat"@, "yes"@, 0);
    } else if k == 393 {
        lemma_ascii_name_lt("yes"@, "zcat"@, 0);
    } else if k == 394 {
        lemma_ascii_name_lt("zcat"@, "zcip"@, 2);
    }
}

/// Each row of the built-in table after the first sorts strictly after the
/// row before it, whatever the help texts.
pub proof fn lemma_builtin_ascending(k: usize, u: &'static str, v: &'static str)
    requires
        1 <= k < BUILTIN_COUNT,
    ensures
        builtin_follows(k, u, v),
{
    if k < 17 {
        lemma_rows_0(k, u, v);
    } else if k < 33 {
        lemma_rows_1(k, u, v);
    } else if k < 49 {
        lemma_rows_2(k, u, v);
    } else if k < 65 {
        lemma_rows_3(k, u, v);
    } else if k < 81 {
        lemma_rows_4(k, u, v);
    } else if k < 97 {
        lemma_rows_5(k, u, v);
    } else if k < 113 {
        lemma_rows_6(k, u, v);
    } else if k < 129 {
        lemma_rows_7(k, u, v);
    } else if k < 145 {
        lemma_rows_8(k, u, v);
    } else if k < 161 {
        lemma_rows_9(k, u, v);
    } else if k < 177 {
        lemma_rows_10(k, u, v);
    } else if k < 193 {
        lemma_rows_11(k, u, v);
    } else if k < 209 {
        lemma_rows_12(k, u, v);
    } else if k < 225 {
        lemma_rows_13(k, u, v);
    } else if k < 241 {
        lemma_rows_14(k, u, v);
    } else if k < 257 {
        lemma_rows_15(k, u, v);
    } else if k < 273 {
        lemma_rows_16(k, u, v);
    } else if k < 289 {
        lemma_rows_17(k, u, v);
    } else if k < 305 {
        lemma_rows_18(k, u, v);
    } else if k < 321 {
        lemma_rows_19(k, u, v);
    } else if k < 337 {
        lemma_rows_20(k, u, v);
    } else if k < 353 {
        lemma_rows_21(k, u, v);
    } else if k < 369 {
        lemma_rows_22(k, u, v);
    } else if k < 385 {
        lemma_rows_23(k, u, v);
    } else if k < 395 {
        lemma_rows_24(k, u, v);
    }
}

} // verus!
