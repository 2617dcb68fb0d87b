//! Inode mode bits and the kind of inode they describe.

use vstd::prelude::*;

verus! {

/// Mask of the file-type bits of a mode.
pub const S_IFMT: u32 = 0o170000;
/// File type of a regular file.
pub const S_IFREG: u32 = 0o100000;
/// File type of a directory.
pub const S_IFDIR: u32 = 0o040000;
/// File type of a symbolic link.
pub const S_IFLNK: u32 = 0o120000;
/// Read, write and execute permission for user, group and others.
pub const S_IRWXUGO: u32 = 0o777;

/// What an inode of a given mode is set up as.
#[derive(Clone, Copy, Debug, PartialEq, Eq, Structural)]
pub enum InodeKind {
    Regular,
    Directory,
    Symlink,
    /// Device nodes, FIFOs and sockets: anything else.
    Special,
}

/// The file-type bits of `mode`.
pub open spec fn file_type(mode: u16) -> u32 {
    (mode as u32) & S_IFMT
}

/// The kind of inode that `mode` describes.
pub open spec fn kind_of(mode: u16) -> InodeKind {
    let t = file_type(mode);
    if t == S_IFREG {
        InodeKind::Regular
    } else if t == S_IFDIR {
        InodeKind::Directory
    } else if t == S_IFLNK {
        InodeKind::Symlink
    } else {
        InodeKind::Special
    }
}

/// Classifies `mode` by its file-type bits.
pub fn inode_kind(mode: u16) -> (k: InodeKind)
    ensures
        k == kind_of(mode),
{
    let t = (mode as u32) & S_IFMT;
    if t == S_IFREG {
        InodeKind::Regular
    } else if t == S_IFDIR {
        InodeKind::Directory
    } else if t == S_IFLNK {
        InodeKind::Symlink
    } else {
        InodeKind::Special
    }
}

/// A mode with no file-type bits, or-ed with the directory type, describes a
/// directory.
pub proof fn lemma_dir_mode_is_directory(mode: u16)
    requires
        file_type(mode) == 0,
    ensures
        kind_of(mode | (S_IFDIR as u16)) == InodeKind::Directory,
{
    assert(((mode | 0o040000u16) as u32) & 0o170000u32 == 0o040000u32) by (bit_vector)
        requires
            (mode as u32) & 0o170000u32 == 0u32,
    ;
}

/// A mode with no file-type bits, or-ed with the regular-file type, describes
/// a regular file.
pub proof fn lemma_reg_mode_is_regular(mode: u16)
    requires
        file_type(mode) == 0,
    ensures
        kind_of(mode | (S_IFREG as u16)) == InodeKind::Regular,
{
    assert(((mode | 0o100000u16) as u32) & 0o170000u32 == 0o100000u32) by (bit_vector)
        requires
            (mode as u32) & 0o170000u32 == 0u32,
    ;
}

/// The kind of an inode is fixed by the file-type bits of its mode alone: a
/// directory exactly for `0o040000`, a regular file exactly for `0o100000`, a
/// symbolic link exactly for `0o120000`, and a special node (block or
/// character device, FIFO, socket, or no type) for every other value.
pub proof fn law_kind_by_file_type_bits(m: u16)
    ensures
        kind_of(m) == InodeKind::Directory <==> (m as u32) & 0o170000u32 == 0o040000u32,
        kind_of(m) == InodeKind::Regular <==> (m as u32) & 0o170000u32 == 0o100000u32,
        kind_of(m) == InodeKind::Symlink <==> (m as u32) & 0o170000u32 == 0o120000u32,
        kind_of(m) == InodeKind::Special <==> {
            &&& (m as u32) & 0o170000u32 != 0o040000u32
            &&& (m as u32) & 0o170000u32 != 0o100000u32
            &&& (m as u32) & 0o170000u32 != 0o120000u32
        },
{
}

} // verus!
