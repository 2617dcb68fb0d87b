//! The file system's operations, as decisions on plain values.
//!
//! Each operation receives what the kernel handed over and the outcome of
//! every kernel call whose result steers it (an inode allocation, the
//! writing of a link target), and answers with the return code for the
//! kernel and the kernel calls to make, in order.

use vstd::prelude::*;
use vstd::string::StringSliceAdditionalSpecFns;
use vstd::utf8::decode_utf8;
use crate::cstring::{c_string_content, c_string_text, is_utf8_c_string};
use crate::handles::{Dentry, Inode, SuperBlock};
use crate::mode::{
    inode_kind, kind_of, file_type, lemma_dir_mode_is_directory, lemma_reg_mode_is_regular,
    InodeKind, S_IFDIR, S_IFLNK, S_IFREG, S_IRWXUGO,
};
use crate::options::{
    apply_options, debug_word, option_pieces, options_acceptable, ramfs_parse_options, RamfsFsInfo,
    RamfsMountOpts, RAMFS_DEFAULT_MODE,
};

verus! {

/// The kernel's "no space left on device" error number.
pub const ENOSPC: cty::c_int = 28;
/// The kernel's "out of memory" error number.
pub const ENOMEM: cty::c_int = 12;
/// Allocation flags of the page cache of every inode.
pub const GFP_HIGHUSER: u32 = 6422722;
/// Largest file size: the largest `i64`.
pub const MAX_LFS_FILESIZE: i64 = 0x7fff_ffff_ffff_ffff;
/// Base-two logarithm of the page size.
pub const PAGE_SHIFT: u8 = 12;
/// The file system's magic number.
pub const RAMFS_MAGIC: u64 = 0x858458f6;
/// Granularity of file times, in nanoseconds.
pub const TIME_GRAN: u32 = 1;

/// A kernel call for the caller to make.
#[derive(Clone, Copy, Debug, PartialEq, Eq, Structural)]
pub enum KernelCall {
    /// Give the inode the next free inode number.
    SetIno(Inode),
    /// Set the inode's owner from the directory and the mode.
    InitOwner { inode: Inode, dir: Inode, mode: u16 },
    /// Install the file system's page operations in the inode's mapping.
    SetAddressSpaceOps(Inode),
    /// Set the allocation flags of the inode's mapping.
    SetGfpMask { inode: Inode, mask: u32 },
    /// Mark the inode's mapping unevictable.
    SetUnevictable(Inode),
    /// Set the inode's access, change and modification times to now.
    SetAmcTimeCurrent(Inode),
    /// Install the operations of a regular file.
    SetRegularFileOps(Inode),
    /// Install the directory inode operations.
    SetDirectoryInodeOps(Inode),
    /// Install the generic directory file operations.
    SetDirectoryFileOps(Inode),
    /// Raise the inode's link count.
    IncNlink(Inode),
    /// Install the page-symlink inode operations.
    SetSymlinkInodeOps(Inode),
    /// Keep the inode's pages out of high memory.
    NoHighmem(Inode),
    /// Set up a device node, FIFO or socket.
    InitSpecialInode { inode: Inode, mode: u16, dev: u32 },
    /// Attach the inode to the directory entry.
    Instantiate { dentry: Dentry, inode: Inode },
    /// Take a reference on the directory entry.
    Dget(Dentry),
    /// Set the inode's change and modification times to now.
    SetMcTimeCurrent(Inode),
    /// Drop the reference on the inode.
    Iput(Inode),
    /// Store the mount's file-system information in the superblock.
    SetFsInfo(SuperBlock),
    /// Fill in the superblock's fields and install its operations.
    SetFields { sb: SuperBlock, maxbytes: i64, blocksize_bits: u8, magic: u64, time_gran: u32 },
    /// Make a root directory entry for the inode and install it.
    SetRoot { sb: SuperBlock, inode: Inode },
    /// Release the superblock's file-system information.
    FreeFsInfo(SuperBlock),
    /// Tear the superblock down.
    KillLitterSuper(SuperBlock),
}

/// The calls that depend on what kind of inode `mode` describes.
pub open spec fn kind_calls(inode: Inode, mode: u16, dev: u32) -> Seq<KernelCall> {
    match kind_of(mode) {
        InodeKind::Regular => seq![KernelCall::SetRegularFileOps(inode)],
        InodeKind::Directory => seq![
            KernelCall::SetDirectoryInodeOps(inode),
            KernelCall::SetDirectoryFileOps(inode),
            KernelCall::IncNlink(inode),
        ],
        InodeKind::Symlink => seq![
            KernelCall::SetSymlinkInodeOps(inode),
            KernelCall::NoHighmem(inode),
        ],
        InodeKind::Special => seq![KernelCall::InitSpecialInode { inode, mode, dev }],
    }
}

/// The calls that set up a freshly allocated inode of mode `mode` in `dir`.
pub open spec fn setup_calls(inode: Inode, dir: Inode, mode: u16, dev: u32) -> Seq<KernelCall> {
    seq![
        KernelCall::SetIno(inode),
        KernelCall::InitOwner { inode, dir, mode },
        KernelCall::SetAddressSpaceOps(inode),
        KernelCall::SetGfpMask { inode, mask: GFP_HIGHUSER },
        KernelCall::SetUnevictable(inode),
        KernelCall::SetAmcTimeCurrent(inode),
    ] + kind_calls(inode, mode, dev)
}

/// The calls that enter a new inode in a directory under `dentry`.
pub open spec fn link_calls(dir: Inode, dentry: Dentry, inode: Inode) -> Seq<KernelCall> {
    seq![
        KernelCall::Instantiate { dentry, inode },
        KernelCall::Dget(dentry),
        KernelCall::SetMcTimeCurrent(dir),
    ]
}

/// The calls of a successful `mknod`.
pub open spec fn mknod_calls(dir: Inode, dentry: Dentry, inode: Inode, mode: u16, dev: u32) -> Seq<
    KernelCall,
> {
    setup_calls(inode, dir, mode, dev) + link_calls(dir, dentry, inode)
}

/// The mode of a directory made with permission bits `mode`.
pub open spec fn mkdir_mode(mode: u16) -> u16 {
    mode | (S_IFDIR as u16)
}

/// The mode of a regular file made with permission bits `mode`.
pub open spec fn create_mode(mode: u16) -> u16 {
    mode | (S_IFREG as u16)
}

/// The mode of every symbolic link: a link open to all.
pub open spec fn symlink_mode() -> u16 {
    (S_IFLNK as u16) | (S_IRWXUGO as u16)
}

/// The calls that set up the inode kind by kind.
fn push_kind_calls(calls: &mut Vec<KernelCall>, inode: Inode, mode: u16, dev: u32)
    ensures
        final(calls)@ == old(calls)@ + kind_calls(inode, mode, dev),
{
    match inode_kind(mode) {
        InodeKind::Regular => {
            calls.push(KernelCall::SetRegularFileOps(inode));
        },
        InodeKind::Directory => {
            calls.push(KernelCall::SetDirectoryInodeOps(inode));
            calls.push(KernelCall::SetDirectoryFileOps(inode));
            calls.push(KernelCall::IncNlink(inode));
        },
        InodeKind::Symlink => {
            calls.push(KernelCall::SetSymlinkInodeOps(inode));
            calls.push(KernelCall::NoHighmem(inode));
        },
        InodeKind::Special => {
            calls.push(KernelCall::InitSpecialInode { inode, mode, dev });
        },
    }
    assert(final(calls)@ =~= old(calls)@ + kind_calls(inode, mode, dev));
}

/// Sets up a new inode of mode `mode` in `dir`: `None` when the allocation
/// (`allocated`) failed, else the inode and the calls that set it up.
pub fn rs_ramfs_get_inode(allocated: Option<Inode>, dir: Inode, mode: u16, dev: u32) -> (r: Option<
    (Inode, Vec<KernelCall>),
>)
    ensures
        r is None <==> allocated is None,
        r matches Some((i, calls)) ==> allocated == Some(i) && calls@ == setup_calls(
            i,
            dir,
            mode,
            dev,
        ),
{
    match allocated {
        None => None,
        Some(inode) => {
            let mut calls: Vec<KernelCall> = Vec::new();
            calls.push(KernelCall::SetIno(inode));
            calls.push(KernelCall::InitOwner { inode, dir, mode });
            calls.push(KernelCall::SetAddressSpaceOps(inode));
            calls.push(KernelCall::SetGfpMask { inode, mask: GFP_HIGHUSER });
            calls.push(KernelCall::SetUnevictable(inode));
            calls.push(KernelCall::SetAmcTimeCurrent(inode));
            push_kind_calls(&mut calls, inode, mode, dev);
            assert(calls@ =~= setup_calls(inode, dir, mode, dev));
            Some((inode, calls))
        },
    }
}

/// The kernel entry that makes an inode: the address of the new inode, `0`
/// when the allocation failed, and the calls that set it up.
pub fn ramfs_get_inode(allocated: Option<Inode>, dir: Inode, mode: u16, dev: u32) -> (r: (
    usize,
    Vec<KernelCall>,
))
    ensures
        allocated is None ==> r.0 == 0 && r.1@ == Seq::<KernelCall>::empty(),
        allocated matches Some(i) ==> r.0 == i@ && r.1@ == setup_calls(i, dir, mode, dev),
{
    match rs_ramfs_get_inode(allocated, dir, mode, dev) {
        Some((inode, calls)) => (inode.get_ptr(), calls),
        None => (0, Vec::new()),
    }
}


/// The calls that enter a new inode in a directory under `dentry`.
fn link(dir: Inode, dentry: Dentry, inode: Inode, calls: &mut Vec<KernelCall>)
    ensures
        final(calls)@ == old(calls)@ + link_calls(dir, dentry, inode),
{
    calls.push(KernelCall::Instantiate { dentry, inode });
    calls.push(KernelCall::Dget(dentry));
    calls.push(KernelCall::SetMcTimeCurrent(dir));
    assert(final(calls)@ =~= old(calls)@ + link_calls(dir, dentry, inode));
}

/// Makes an inode of mode `mode` in `dir` under `dentry`, given the outcome
/// of the inode allocation: the calls to make, or `-ENOSPC` when the
/// allocation failed.
pub fn rs_ramfs_mknod(dir: Inode, dentry: Dentry, mode: u16, dev: u32, allocated: Option<Inode>) -> (r:
    Result<Vec<KernelCall>, cty::c_int>)
    ensures
        r is Ok <==> allocated is Some,
        r matches Err(e) ==> e == -ENOSPC,
        r matches Ok(calls) ==> calls@ == mknod_calls(dir, dentry, allocated->0, mode, dev),
{
    match rs_ramfs_get_inode(allocated, dir, mode, dev) {
        Some((inode, calls)) => {
            let mut calls = calls;
            link(dir, dentry, inode, &mut calls);
            Ok(calls)
        },
        None => Err(-ENOSPC),
    }
}

/// The kernel entry `mknod`: `0` and the calls to make when the allocation
/// succeeded, `-ENOSPC` and no call when it failed.
pub fn ramfs_mknod(dir: Inode, dentry: Dentry, mode: u16, dev: u32, allocated: Option<Inode>) -> (r: (
    cty::c_int,
    Vec<KernelCall>,
))
    ensures
        allocated is None ==> r.0 == -ENOSPC && r.1@ == Seq::<KernelCall>::empty(),
        allocated matches Some(i) ==> r.0 == 0 && r.1@ == mknod_calls(dir, dentry, i, mode, dev),
{
    match rs_ramfs_mknod(dir, dentry, mode, dev, allocated) {
        Ok(calls) => (0, calls),
        Err(e) => (e, Vec::new()),
    }
}

/// The kernel entry `mkdir`: makes a directory (the mode or-ed with the
/// directory type) and, on success, raises the link count of `dir`.
pub fn ramfs_mkdir(dir: Inode, dentry: Dentry, mode: u16, allocated: Option<Inode>) -> (r: (
    cty::c_int,
    Vec<KernelCall>,
))
    ensures
        allocated is None ==> r.0 == -ENOSPC && r.1@ == Seq::<KernelCall>::empty(),
        allocated matches Some(i) ==> r.0 == 0 && r.1@ == mknod_calls(
            dir,
            dentry,
            i,
            mkdir_mode(mode),
            0,
        ).push(KernelCall::IncNlink(dir)),
{
    let dir_mode = mode | (S_IFDIR as u16);
    match rs_ramfs_mknod(dir, dentry, dir_mode, 0, allocated) {
        Ok(calls) => {
            let mut calls = calls;
            calls.push(KernelCall::IncNlink(dir));
            (0, calls)
        },
        Err(e) => (e, Vec::new()),
    }
}

/// The kernel entry `create`: makes a regular file (the mode or-ed with the
/// regular-file type). `excl` does not change anything.
pub fn ramfs_create(dir: Inode, dentry: Dentry, mode: u16, excl: bool, allocated: Option<Inode>) -> (r:
    (cty::c_int, Vec<KernelCall>))
    ensures
        allocated is None ==> r.0 == -ENOSPC && r.1@ == Seq::<KernelCall>::empty(),
        allocated matches Some(i) ==> r.0 == 0 && r.1@ == mknod_calls(
            dir,
            dentry,
            i,
            create_mode(mode),
            0,
        ),
{
    match rs_ramfs_mknod(dir, dentry, mode | (S_IFREG as u16), 0, allocated) {
        Ok(calls) => (0, calls),
        Err(e) => (e, Vec::new()),
    }
}

/// The outcome of writing a link target: `Ok` for the status `0`, the status
/// itself as the error otherwise.
pub fn rs_page_symlink(status: cty::c_int) -> (r: Result<(), cty::c_int>)
    ensures
        r is Ok <==> status == 0,
        r matches Err(v) ==> v == status,
{
    match status {
        0 => Ok(()),
        v => Err(v),
    }
}

/// The kernel entry `symlink`, up to the writing of the target: given the
/// target `symname` (a C string, nul included) and the outcome of the inode
/// allocation, `-ENOSPC` when the allocation failed, else the new inode, the
/// calls that set it up, and the length to write the target with (the
/// target's bytes and its nul).
///
/// The target must be valid UTF-8 once an inode was allocated.
pub fn ramfs_symlink(dir: Inode, symname: &[u8], allocated: Option<Inode>) -> (r: Result<
    (Inode, Vec<KernelCall>, cty::c_int),
    cty::c_int,
>)
    requires
        allocated is Some ==> is_utf8_c_string(symname@),
    ensures
        r is Err <==> allocated is None,
        r matches Err(e) ==> e == -ENOSPC,
        r matches Ok((i, calls, len)) ==> {
            &&& allocated == Some(i)
            &&& calls@ == setup_calls(i, dir, symlink_mode(), 0)
            &&& len == #[verifier::truncate] (symname@.len() as i32)
        },
{
    let link_mode = (S_IFLNK as u16) | (S_IRWXUGO as u16);
    match rs_ramfs_get_inode(allocated, dir, link_mode, 0) {
        Some((inode, calls)) => {
            let total = symname.len();
            let text = c_string_text(symname);
            assert(text.spec_bytes().len() + 1 == total);
            let len = text.len() + 1;
            Ok((inode, calls, #[verifier::truncate] (len as cty::c_int)))
        },
        None => Err(-ENOSPC),
    }
}

/// The kernel entry `symlink`, after the target was written (`written` is
/// the outcome of that): on success `0` and the calls that enter the link
/// under `dentry`; on failure the error and the call that drops the inode.
pub fn ramfs_symlink_finish(dir: Inode, dentry: Dentry, inode: Inode, written: Result<
    (),
    cty::c_int,
>) -> (r: (cty::c_int, Vec<KernelCall>))
    ensures
        written is Ok ==> r.0 == 0 && r.1@ == link_calls(dir, dentry, inode),
        written matches Err(e) ==> r.0 == e && r.1@ == seq![KernelCall::Iput(inode)],
{
    let mut calls: Vec<KernelCall> = Vec::new();
    match written {
        Ok(()) => {
            link(dir, dentry, inode, &mut calls);
            (0, calls)
        },
        Err(e) => {
            calls.push(KernelCall::Iput(inode));
            assert(calls@ =~= seq![KernelCall::Iput(inode)]);
            (e, calls)
        },
    }
}

/// The mount options a fresh mount starts from.
pub open spec fn default_mount_opts() -> RamfsMountOpts {
    RamfsMountOpts { mode: RAMFS_DEFAULT_MODE, debug: false }
}

/// The options of a mount given the option text `data`, if any.
pub open spec fn mount_opts_of(data: Option<Seq<u8>>) -> RamfsMountOpts {
    match data {
        None => default_mount_opts(),
        Some(d) => apply_options(
            default_mount_opts(),
            option_pieces(decode_utf8(c_string_content(d))),
        ),
    }
}

/// The option text `data`, when given, can be taken without fault: it is a
/// UTF-8 C string whose options are acceptable.
pub open spec fn mount_data_acceptable(data: Option<Seq<u8>>) -> bool {
    data matches Some(d) ==> is_utf8_c_string(d) && options_acceptable(
        decode_utf8(c_string_content(d)),
    )
}

/// What a mount has decided before its root inode is made.
pub struct MountPlan {
    pub sb: SuperBlock,
    pub fs_info: RamfsFsInfo,
    /// The calls that fill in the superblock.
    pub calls: Vec<KernelCall>,
    /// The mode to make the root directory with.
    pub root_mode: u16,
}

/// The calls that fill in a superblock.
pub open spec fn fill_super_calls(sb: SuperBlock) -> Seq<KernelCall> {
    seq![
        KernelCall::SetFsInfo(sb),
        KernelCall::SetFields {
            sb,
            maxbytes: MAX_LFS_FILESIZE,
            blocksize_bits: PAGE_SHIFT,
            magic: RAMFS_MAGIC,
            time_gran: TIME_GRAN,
        },
    ]
}

/// The kernel entry that fills in a superblock, up to the making of the root
/// inode: `-ENOMEM` for a null superblock; else the superblock, its
/// file-system information with the options of `data` (a C string, nul
/// included) taken in, the calls that fill it in, and the mode of the root
/// directory.
pub fn ramfs_fill_super(sb: usize, data: Option<&[u8]>) -> (r: Result<MountPlan, cty::c_int>)
    requires
        sb != 0 ==> mount_data_acceptable(
            match data {
                Some(d) => Some(d@),
                None => None,
            },
        ),
    ensures
        r is Err <==> sb == 0,
        r matches Err(e) ==> e == -ENOMEM,
        r matches Ok(plan) ==> {
            let opts = mount_opts_of(
                match data {
                    Some(d) => Some(d@),
                    None => None,
                },
            );
            &&& plan.sb@ == sb
            &&& plan.fs_info.mount_opts == opts
            &&& plan.calls@ == fill_super_calls(plan.sb)
            &&& plan.root_mode == (S_IFDIR as u16) | opts.mode
            &&& opts.mode == RAMFS_DEFAULT_MODE
            &&& opts.debug == (data matches Some(d) && option_pieces(
                decode_utf8(c_string_content(d@)),
            ).contains(debug_word()))
            &&& kind_of(plan.root_mode) == InodeKind::Directory
        },
{
    let mut fsi = RamfsFsInfo::new();
    match SuperBlock::from_ptr(sb) {
        None => Err(-ENOMEM),
        Some(super_block) => {
            let mut calls: Vec<KernelCall> = Vec::new();
            calls.push(KernelCall::SetFsInfo(super_block));
            calls.push(
                KernelCall::SetFields {
                    sb: super_block,
                    maxbytes: MAX_LFS_FILESIZE,
                    blocksize_bits: PAGE_SHIFT,
                    magic: RAMFS_MAGIC,
                    time_gran: TIME_GRAN,
                },
            );
            assert(calls@ =~= fill_super_calls(super_block));
            match data {
                Some(bytes) => {
                    let text = c_string_text(bytes);
                    ramfs_parse_options(text, &mut fsi.mount_opts);
                },
                None => {},
            }
            let root_mode = (S_IFDIR as u16) | fsi.mount_opts.mode;
            proof {
                lemma_default_root_is_directory();
            }
            Ok(MountPlan { sb: super_block, fs_info: fsi, calls, root_mode })
        },
    }
}

/// The kernel entry that fills in a superblock, after the root inode was
/// made (`root`, `None` when that failed): `0` and the call that installs
/// the root, or `-ENOMEM`.
pub fn ramfs_fill_super_finish(sb: SuperBlock, root: Option<Inode>) -> (r: (
    cty::c_int,
    Vec<KernelCall>,
))
    ensures
        root is None ==> r.0 == -ENOMEM && r.1@ == Seq::<KernelCall>::empty(),
        root matches Some(i) ==> r.0 == 0 && r.1@ == seq![KernelCall::SetRoot { sb, inode: i }],
{
    let mut calls: Vec<KernelCall> = Vec::new();
    match root {
        Some(inode) => {
            calls.push(KernelCall::SetRoot { sb, inode });
            assert(calls@ =~= seq![KernelCall::SetRoot { sb, inode }]);
            (0, calls)
        },
        None => (-ENOMEM, calls),
    }
}

/// The kernel entry that tears a superblock down: nothing for a null
/// superblock, else release its information, then tear it down.
pub fn ramfs_kill_super(sb: usize) -> (r: Vec<KernelCall>)
    ensures
        sb == 0 ==> r@ == Seq::<KernelCall>::empty(),
        sb != 0 ==> r@ == seq![
            KernelCall::FreeFsInfo(SuperBlock { ptr: sb }),
            KernelCall::KillLitterSuper(SuperBlock { ptr: sb }),
        ],
{
    let mut calls: Vec<KernelCall> = Vec::new();
    if let Some(super_block) = SuperBlock::from_ptr(sb) {
        calls.push(KernelCall::FreeFsInfo(super_block));
        calls.push(KernelCall::KillLitterSuper(super_block));
    }
    calls
}

/// The root directory of a mount with default options is a directory.
pub proof fn lemma_default_root_is_directory()
    ensures
        kind_of((S_IFDIR as u16) | RAMFS_DEFAULT_MODE) == InodeKind::Directory,
{
    assert((0o040000u16 | 775u16) as u32 & 0o170000u32 == 0o040000u32) by (bit_vector);
}

/// `mkdir` with permission bits alone sets the new inode up as a directory:
/// directory operations and a raised link count of its own.
pub proof fn lemma_mkdir_makes_directory(inode: Inode, mode: u16)
    requires
        file_type(mode) == 0,
    ensures
        kind_calls(inode, mkdir_mode(mode), 0) == seq![
            KernelCall::SetDirectoryInodeOps(inode),
            KernelCall::SetDirectoryFileOps(inode),
            KernelCall::IncNlink(inode),
        ],
{
    lemma_dir_mode_is_directory(mode);
}

/// `create` with permission bits alone sets the new inode up as a regular
/// file.
pub proof fn lemma_create_makes_regular_file(inode: Inode, mode: u16)
    requires
        file_type(mode) == 0,
    ensures
        kind_calls(inode, create_mode(mode), 0) == seq![KernelCall::SetRegularFileOps(inode)],
{
    lemma_reg_mode_is_regular(mode);
}

/// `symlink` sets the new inode up as a symbolic link.
pub proof fn lemma_symlink_makes_link(inode: Inode)
    ensures
        kind_calls(inode, symlink_mode(), 0) == seq![
            KernelCall::SetSymlinkInodeOps(inode),
            KernelCall::NoHighmem(inode),
        ],
{
    assert((0o120000u16 | 0o777u16) as u32 & 0o170000u32 == 0o120000u32) by (bit_vector);
}

/// Every new inode is set up the same way before its kind matters: it gets
/// its number, its owner from exactly the given `dir` and `mode` (the null
/// directory of a mount root included), the page operations, the page-cache
/// allocation flags, an unevictable mapping and the current times. Then, by
/// the file-type bits of `mode` alone: a regular file gets the file
/// operations; a directory the directory operations and a raised link count;
/// a symbolic link the symlink operations and low memory; anything else is
/// made a special node with exactly the given `mode` and `dev`.
pub proof fn law_inode_setup(inode: Inode, dir: Inode, mode: u16, dev: u32)
    ensures
        setup_calls(inode, dir, mode, dev).len() >= 7,
        setup_calls(inode, dir, mode, dev).take(6) == seq![
            KernelCall::SetIno(inode),
            KernelCall::InitOwner { inode, dir, mode },
            KernelCall::SetAddressSpaceOps(inode),
            KernelCall::SetGfpMask { inode, mask: 6422722u32 },
            KernelCall::SetUnevictable(inode),
            KernelCall::SetAmcTimeCurrent(inode),
        ],
        (mode as u32) & 0o170000u32 == 0o100000u32 ==> setup_calls(inode, dir, mode, dev).skip(6)
            == seq![KernelCall::SetRegularFileOps(inode)],
        (mode as u32) & 0o170000u32 == 0o040000u32 ==> setup_calls(inode, dir, mode, dev).skip(6)
            == seq![
            KernelCall::SetDirectoryInodeOps(inode),
            KernelCall::SetDirectoryFileOps(inode),
            KernelCall::IncNlink(inode),
        ],
        (mode as u32) & 0o170000u32 == 0o120000u32 ==> setup_calls(inode, dir, mode, dev).skip(6)
            == seq![KernelCall::SetSymlinkInodeOps(inode), KernelCall::NoHighmem(inode)],
        ((mode as u32) & 0o170000u32 != 0o100000u32 && (mode as u32) & 0o170000u32 != 0o040000u32
            && (mode as u32) & 0o170000u32 != 0o120000u32) ==> setup_calls(
            inode,
            dir,
            mode,
            dev,
        ).skip(6) == seq![KernelCall::InitSpecialInode { inode, mode, dev }],
{
    crate::mode::law_kind_by_file_type_bits(mode);
    let c = setup_calls(inode, dir, mode, dev);
    let k = kind_calls(inode, mode, dev);
    assert(c.take(6) =~= seq![
        KernelCall::SetIno(inode),
        KernelCall::InitOwner { inode, dir, mode },
        KernelCall::SetAddressSpaceOps(inode),
        KernelCall::SetGfpMask { inode, mask: 6422722u32 },
        KernelCall::SetUnevictable(inode),
        KernelCall::SetAmcTimeCurrent(inode),
    ]);
    assert(c.skip(6) =~= k);
}

/// A successful `mknod` (and so `mkdir` and `create`) sets the new inode up
/// with exactly the caller's `dir`, `mode` and `dev`, all mode bits kept, and
/// then enters it under `dentry` and touches `dir`.
pub proof fn law_mknod_keeps_request(dir: Inode, dentry: Dentry, inode: Inode, mode: u16, dev: u32)
    ensures
        mknod_calls(dir, dentry, inode, mode, dev) == setup_calls(inode, dir, mode, dev) + seq![
            KernelCall::Instantiate { dentry, inode },
            KernelCall::Dget(dentry),
            KernelCall::SetMcTimeCurrent(dir),
        ],
        mknod_calls(dir, dentry, inode, mode, dev)[1] == (KernelCall::InitOwner { inode, dir, mode }),
{
    law_inode_setup(inode, dir, mode, dev);
    let s = setup_calls(inode, dir, mode, dev);
    assert(s[1] == s.take(6)[1]);
}

/// The modes new inodes are made with: `mkdir` and `create` add the
/// directory and regular-file type bits to the caller's mode and keep every
/// other bit (sticky, set-id and permission bits); a symbolic link is
/// `0o120777`.
pub proof fn law_requested_modes(mode: u16)
    ensures
        mkdir_mode(mode) == mode | 0o040000u16,
        create_mode(mode) == mode | 0o100000u16,
        symlink_mode() == 0o120777u16,
        mkdir_mode(mode) & 0o7777u16 == mode & 0o7777u16,
        create_mode(mode) & 0o7777u16 == mode & 0o7777u16,
{
    assert((mode | 0o040000u16) & 0o7777u16 == mode & 0o7777u16) by (bit_vector);
    assert((mode | 0o100000u16) & 0o7777u16 == mode & 0o7777u16) by (bit_vector);
    assert(0o120000u16 | 0o777u16 == 0o120777u16) by (bit_vector);
}

/// A mount fills its superblock in with its information, then with the
/// largest file size `i64::MAX`, block size `2^12`, the magic number
/// `0x858458f6` and a time granularity of one nanosecond.
pub proof fn law_fill_super_fields(sb: SuperBlock)
    ensures
        fill_super_calls(sb) == seq![
            KernelCall::SetFsInfo(sb),
            KernelCall::SetFields {
                sb,
                maxbytes: 0x7fff_ffff_ffff_ffffi64,
                blocksize_bits: 12u8,
                magic: 0x858458f6u64,
                time_gran: 1u32,
            },
        ],
{
}

} // verus!
