use rustybox::applets::applet_tables::{applet, Entrypoint, InstallLoc, SuidPolicy};
use rustybox::librb::{
    bb_uidgid_t, fd_pair, md5_ctx_t, sha3_ctx_t, sha512_ctx_t, termios, winsize, BlockRoutine,
};

#[test]
fn install_directories() {
    assert_eq!(InstallLoc::DIR_USR_SBIN.dir(), "/usr/sbin");
    assert_eq!(InstallLoc::DIR_USR_BIN.dir(), "/usr/bin");
    assert_eq!(InstallLoc::DIR_SBIN.dir(), "/sbin");
    assert_eq!(InstallLoc::DIR_BIN.dir(), "/bin");
    assert_eq!(InstallLoc::DIR_ROOT.dir(), "/");
}

#[test]
fn applet_new_keeps_its_parts() {
    let d = applet::new(
        "su",
        "su",
        Entrypoint::CStyle,
        InstallLoc::DIR_BIN,
        SuidPolicy::SUID_REQUIRE,
        "su [OPTIONS] [-] [USER]",
    );
    assert_eq!(d.name, "su");
    assert_eq!(d.main, "su");
    assert_eq!(d.entrypoint, Entrypoint::CStyle);
    assert_eq!(d.install_loc, InstallLoc::DIR_BIN);
    assert_eq!(d.suid_policy, SuidPolicy::SUID_REQUIRE);
    assert_eq!(d.usage, "su [OPTIONS] [-] [USER]");
    let copy = d;
    assert_eq!(copy.name, d.name);
}

#[test]
fn records_are_plain_copies() {
    let ids = bb_uidgid_t { uid: 1000, gid: 100 };
    let same = ids;
    assert_eq!((same.uid, same.gid), (ids.uid, ids.gid));
    let pipe = fd_pair { rd: 3, wr: 4 };
    let p = pipe;
    assert_eq!((p.rd, p.wr), (3, 4));
    let win = winsize { ws_row: 24, ws_col: 80, ws_xpixel: 0, ws_ypixel: 0 };
    let w = win;
    assert_eq!((w.ws_row, w.ws_col), (24, 80));
    let tio = termios {
        c_iflag: 1,
        c_oflag: 2,
        c_cflag: 3,
        c_lflag: 4,
        c_line: 0,
        c_cc: [0; 32],
        c_ispeed: 9600,
        c_ospeed: 9600,
    };
    let t = tio;
    assert_eq!(t.c_cc.len(), 32);
    assert_eq!(t.c_ospeed, tio.c_ispeed);
}

#[test]
fn hash_contexts_hold_their_state() {
    let md5 = md5_ctx_t {
        wbuffer: [0; 64],
        process_block: Some(BlockRoutine::Md5),
        total64: 0,
        hash: [0x67452301, 0xefcdab89, 0x98badcfe, 0x10325476, 0, 0, 0, 0],
    };
    let m = md5;
    assert_eq!(m.process_block, Some(BlockRoutine::Md5));
    assert_eq!(m.hash[0], 0x67452301);
    assert_eq!(m.wbuffer.len(), 64);
    let blank = md5_ctx_t { wbuffer: [0; 64], process_block: None, total64: 0, hash: [0; 8] };
    assert_eq!(blank.process_block, None);
    let sha512 = sha512_ctx_t { total64: [0, 0], hash: [0; 8], wbuffer: [0; 128] };
    let s = sha512;
    assert_eq!(s.wbuffer.len(), 128);
    let sha3 = sha3_ctx_t { state: [0; 25], bytes_queued: 0, input_block_bytes: 136 };
    let k = sha3;
    assert_eq!(k.state.len(), 25);
    assert_eq!(k.input_block_bytes, 136);
}

#[test]
fn database_entries_own_their_texts() {
    let root = rustybox::librb::passwd {
        pw_name: b"root".to_vec(),
        pw_passwd: b"x".to_vec(),
        pw_uid: 0,
        pw_gid: 0,
        pw_gecos: b"root".to_vec(),
        pw_dir: b"/root".to_vec(),
        pw_shell: b"/bin/sh".to_vec(),
    };
    let copy = root.clone();
    assert_eq!(copy.pw_name, b"root".to_vec());
    assert_eq!(copy.pw_uid, 0);
    assert_eq!(copy.pw_shell, root.pw_shell);
    let wheel = rustybox::librb::group {
        gr_name: b"wheel".to_vec(),
        gr_passwd: b"x".to_vec(),
        gr_gid: 10,
        gr_mem: vec![b"root".to_vec(), b"admin".to_vec()],
    };
    let copy = wheel.clone();
    assert_eq!(copy.gr_mem.len(), 2);
    assert_eq!(copy.gr_mem[1], b"admin".to_vec());
    assert_eq!(copy.gr_gid, 10);
}

#[test]
fn install_paths() {
    let d = |name: &'static str, loc: InstallLoc| {
        applet::new(name, name, Entrypoint::CStyle, loc, SuidPolicy::SUID_DROP, "")
    };
    assert_eq!(d("ls", InstallLoc::DIR_BIN).install_path(), "/bin/ls");
    assert_eq!(d("[", InstallLoc::DIR_USR_BIN).install_path(), "/usr/bin/[");
    assert_eq!(d("acpid", InstallLoc::DIR_SBIN).install_path(), "/sbin/acpid");
    assert_eq!(d("adduser", InstallLoc::DIR_USR_SBIN).install_path(), "/usr/sbin/adduser");
    assert_eq!(d("linuxrc", InstallLoc::DIR_ROOT).install_path(), "/linuxrc");
}
