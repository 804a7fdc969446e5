//! Plain records shared by the applets: terminal settings, id pairs and the
//! working state of the hash routines.

use vstd::prelude::*;

verus! {

#[allow(non_camel_case_types)]
pub type size_t = libc::c_ulong;

#[allow(non_camel_case_types)]
pub type smallint = libc::c_schar;

#[allow(non_camel_case_types)]
pub type uoff_t = libc::c_ulong;

#[allow(non_camel_case_types)]
pub type __syscall_slong_t = libc::c_long;

/// An entry of the user database. The texts are held as the bytes of the
/// C strings that the database hands out.
#[allow(non_camel_case_types)]
#[derive(Clone)]
pub struct passwd {
    pub pw_name: Vec<u8>,
    pub pw_passwd: Vec<u8>,
    pub pw_uid: libc::uid_t,
    pub pw_gid: libc::gid_t,
    pub pw_gecos: Vec<u8>,
    pub pw_dir: Vec<u8>,
    pub pw_shell: Vec<u8>,
}

/// An entry of the group database, with the names of its members.
#[allow(non_camel_case_types)]
#[derive(Clone)]
pub struct group {
    pub gr_name: Vec<u8>,
    pub gr_passwd: Vec<u8>,
    pub gr_gid: libc::gid_t,
    pub gr_mem: Vec<Vec<u8>>,
}

/// Terminal settings: the four mode words, the line discipline, the control
/// characters and the two line speeds.
#[allow(non_camel_case_types)]
#[derive(Copy, Clone)]
pub struct termios {
    pub c_iflag: libc::tcflag_t,
    pub c_oflag: libc::tcflag_t,
    pub c_cflag: libc::tcflag_t,
    pub c_lflag: libc::tcflag_t,
    pub c_line: libc::cc_t,
    pub c_cc: [libc::cc_t; 32],
    pub c_ispeed: libc::speed_t,
    pub c_ospeed: libc::speed_t,
}

/// The size of a terminal window, in characters and in pixels.
#[allow(non_camel_case_types)]
#[derive(Copy, Clone)]
pub struct winsize {
    pub ws_row: libc::c_ushort,
    pub ws_col: libc::c_ushort,
    pub ws_xpixel: libc::c_ushort,
    pub ws_ypixel: libc::c_ushort,
}

/// A user id with a group id.
#[allow(non_camel_case_types)]
#[derive(Copy, Clone)]
pub struct bb_uidgid_t {
    pub uid: libc::uid_t,
    pub gid: libc::gid_t,
}

/// The two ends of a pipe: the descriptor to read from and the one to write
/// to.
#[allow(non_camel_case_types)]
#[derive(Copy, Clone)]
pub struct fd_pair {
    pub rd: libc::c_int,
    pub wr: libc::c_int,
}

/// The routine that digests one full block of a hashing context.
#[derive(Copy, Clone, Debug, PartialEq, Eq, Structural)]
pub enum BlockRoutine {
    Md5,
    Sha1,
    Sha256,
}

/// The working state of MD5, SHA-1 and SHA-256, which share one layout.
#[allow(non_camel_case_types)]
#[derive(Copy, Clone)]
pub struct md5_ctx_t {
    /// The block being filled.
    pub wbuffer: [u8; 64],
    /// The routine that digests a full block; `None` until the context is
    /// set up.
    pub process_block: Option<BlockRoutine>,
    /// Bytes taken in so far.
    pub total64: u64,
    /// The running hash: 4 words for MD5, 5 for SHA-1, 8 for SHA-256.
    pub hash: [u32; 8],
}

#[allow(non_camel_case_types)]
pub type sha1_ctx_t = md5_ctx_t;

#[allow(non_camel_case_types)]
pub type sha256_ctx_t = md5_ctx_t;

/// The working state of SHA-512.
#[allow(non_camel_case_types)]
#[derive(Copy, Clone)]
pub struct sha512_ctx_t {
    /// Bytes taken in so far, as a 128-bit count in two words.
    pub total64: [u64; 2],
    /// The running hash.
    pub hash: [u64; 8],
    /// The block being filled.
    pub wbuffer: [u8; 128],
}

/// The working state of SHA-3.
#[allow(non_camel_case_types)]
#[derive(Copy, Clone)]
pub struct sha3_ctx_t {
    pub state: [u64; 25],
    pub bytes_queued: libc::c_uint,
    pub input_block_bytes: libc::c_uint,
}

} // verus!
