//! The closed set of protocol operation codes.
//!
//! Decoding a code never fails: a numeric code outside the enumeration is
//! reported as "unrecognized" (`None`), and rejecting it is left to the
//! argument interpreter downstream of this layer.

use vstd::prelude::*;

verus! {

/// A protocol operation code. The numeric values are fixed by the kernel
/// ABI and must not be renumbered independently of it.
#[derive(Clone, Copy, Debug, PartialEq, Eq, Structural)]
pub enum Opcode {
    Lookup,
    Forget,
    Getattr,
    Setattr,
    Readlink,
    Symlink,
    Mknod,
    Mkdir,
    Unlink,
    Rmdir,
    Rename,
    Link,
    Open,
    Read,
    Write,
    Statfs,
    Release,
    Fsync,
    Setxattr,
    Getxattr,
    Listxattr,
    Removexattr,
    Flush,
    Init,
    Opendir,
    Readdir,
    Releasedir,
    Fsyncdir,
    Getlk,
    Setlk,
    Setlkw,
    Access,
    Create,
    Interrupt,
    Bmap,
    Destroy,
    Ioctl,
    Poll,
    NotifyReply,
    BatchForget,
    Fallocate,
    Readdirplus,
    Rename2,
    Lseek,
    CopyFileRange,
}

/// The operation that a raw code denotes, or `None` for a code outside
/// the enumeration.
pub open spec fn spec_opcode_of(code: u32) -> Option<Opcode> {
    if code == 1 {
        Some(Opcode::Lookup)
    } else if code == 2 {
        Some(Opcode::Forget)
    } else if code == 3 {
        Some(Opcode::Getattr)
    } else if code == 4 {
        Some(Opcode::Setattr)
    } else if code == 5 {
        Some(Opcode::Readlink)
    } else if code == 6 {
        Some(Opcode::Symlink)
    } else if code == 8 {
        Some(Opcode::Mknod)
    } else if code == 9 {
        Some(Opcode::Mkdir)
    } else if code == 10 {
        Some(Opcode::Unlink)
    } else if code == 11 {
        Some(Opcode::Rmdir)
    } else if code == 12 {
        Some(Opcode::Rename)
    } else if code == 13 {
        Some(Opcode::Link)
    } else if code == 14 {
        Some(Opcode::Open)
    } else if code == 15 {
        Some(Opcode::Read)
    } else if code == 16 {
        Some(Opcode::Write)
    } else if code == 17 {
        Some(Opcode::Statfs)
    } else if code == 18 {
        Some(Opcode::Release)
    } else if code == 20 {
        Some(Opcode::Fsync)
    } else if code == 21 {
        Some(Opcode::Setxattr)
    } else if code == 22 {
        Some(Opcode::Getxattr)
    } else if code == 23 {
        Some(Opcode::Listxattr)
    } else if code == 24 {
        Some(Opcode::Removexattr)
    } else if code == 25 {
        Some(Opcode::Flush)
    } else if code == 26 {
        Some(Opcode::Init)
    } else if code == 27 {
        Some(Opcode::Opendir)
    } else if code == 28 {
        Some(Opcode::Readdir)
    } else if code == 29 {
        Some(Opcode::Releasedir)
    } else if code == 30 {
        Some(Opcode::Fsyncdir)
    } else if code == 31 {
        Some(Opcode::Getlk)
    } else if code == 32 {
        Some(Opcode::Setlk)
    } else if code == 33 {
        Some(Opcode::Setlkw)
    } else if code == 34 {
        Some(Opcode::Access)
    } else if code == 35 {
        Some(Opcode::Create)
    } else if code == 36 {
        Some(Opcode::Interrupt)
    } else if code == 37 {
        Some(Opcode::Bmap)
    } else if code == 38 {
        Some(Opcode::Destroy)
    } else if code == 39 {
        Some(Opcode::Ioctl)
    } else if code == 40 {
        Some(Opcode::Poll)
    } else if code == 41 {
        Some(Opcode::NotifyReply)
    } else if code == 42 {
        Some(Opcode::BatchForget)
    } else if code == 43 {
        Some(Opcode::Fallocate)
    } else if code == 44 {
        Some(Opcode::Readdirplus)
    } else if code == 45 {
        Some(Opcode::Rename2)
    } else if code == 46 {
        Some(Opcode::Lseek)
    } else if code == 47 {
        Some(Opcode::CopyFileRange)
    } else {
        None
    }
}

/// Decodes a raw operation code, degrading to `None` for a code outside
/// the closed enumeration.
pub fn opcode_of(code: u32) -> (r: Option<Opcode>)
    ensures
        r == spec_opcode_of(code),
{
    match code {
        1 => Some(Opcode::Lookup),
        2 => Some(Opcode::Forget),
        3 => Some(Opcode::Getattr),
        4 => Some(Opcode::Setattr),
        5 => Some(Opcode::Readlink),
        6 => Some(Opcode::Symlink),
        8 => Some(Opcode::Mknod),
        9 => Some(Opcode::Mkdir),
        10 => Some(Opcode::Unlink),
        11 => Some(Opcode::Rmdir),
        12 => Some(Opcode::Rename),
        13 => Some(Opcode::Link),
        14 => Some(Opcode::Open),
        15 => Some(Opcode::Read),
        16 => Some(Opcode::Write),
        17 => Some(Opcode::Statfs),
        18 => Some(Opcode::Release),
        20 => Some(Opcode::Fsync),
        21 => Some(Opcode::Setxattr),
        22 => Some(Opcode::Getxattr),
        23 => Some(Opcode::Listxattr),
        24 => Some(Opcode::Removexattr),
        25 => Some(Opcode::Flush),
        26 => Some(Opcode::Init),
        27 => Some(Opcode::Opendir),
        28 => Some(Opcode::Readdir),
        29 => Some(Opcode::Releasedir),
        30 => Some(Opcode::Fsyncdir),
        31 => Some(Opcode::Getlk),
        32 => Some(Opcode::Setlk),
        33 => Some(Opcode::Setlkw),
        34 => Some(Opcode::Access),
        35 => Some(Opcode::Create),
        36 => Some(Opcode::Interrupt),
        37 => Some(Opcode::Bmap),
        38 => Some(Opcode::Destroy),
        39 => Some(Opcode::Ioctl),
        40 => Some(Opcode::Poll),
        41 => Some(Opcode::NotifyReply),
        42 => Some(Opcode::BatchForget),
        43 => Some(Opcode::Fallocate),
        44 => Some(Opcode::Readdirplus),
        45 => Some(Opcode::Rename2),
        46 => Some(Opcode::Lseek),
        47 => Some(Opcode::CopyFileRange),
        _ => None,
    }
}

} // verus!
