use rsramfs::handles::{Dentry, Inode, SuperBlock};
use rsramfs::mode::{inode_kind, InodeKind, S_IFDIR, S_IFLNK, S_IFREG, S_IRWXUGO};
use rsramfs::ops::{
    ramfs_create, ramfs_fill_super, ramfs_fill_super_finish, ramfs_get_inode, ramfs_kill_super,
    ramfs_mkdir, ramfs_mknod, ramfs_symlink, ramfs_symlink_finish, rs_page_symlink,
    rs_ramfs_get_inode, rs_ramfs_mknod, KernelCall, ENOMEM, ENOSPC, GFP_HIGHUSER,
    MAX_LFS_FILESIZE, PAGE_SHIFT, RAMFS_MAGIC, TIME_GRAN,
};

fn inode(addr: usize) -> Inode {
    Inode::from_ptr_unchecked(addr)
}

fn common_setup(i: Inode, dir: Inode, mode: u16) -> Vec<KernelCall> {
    vec![
        KernelCall::SetIno(i),
        KernelCall::InitOwner { inode: i, dir, mode },
        KernelCall::SetAddressSpaceOps(i),
        KernelCall::SetGfpMask { inode: i, mask: GFP_HIGHUSER },
        KernelCall::SetUnevictable(i),
        KernelCall::SetAmcTimeCurrent(i),
    ]
}

#[test]
fn inode_from_null_pointer_is_none() {
    assert!(Inode::from_ptr(0).is_none());
    assert!(Inode::new(0).is_none());
}

#[test]
fn inode_from_pointer_keeps_address() {
    let i = Inode::from_ptr(0xffff_8880_1234_5000).unwrap();
    assert_eq!(i.get_ptr(), 0xffff_8880_1234_5000);
    assert_eq!(Inode::new(0x1000).unwrap().get_ptr(), 0x1000);
    assert_eq!(Inode::from_ptr_unchecked(0).get_ptr(), 0);
    assert_eq!(Inode::null().get_ptr(), 0);
}

#[test]
fn superblock_and_dentry_handles() {
    assert!(SuperBlock::from_ptr(0).is_none());
    assert_eq!(SuperBlock::from_ptr(0x2000).unwrap().get_ptr(), 0x2000);
    assert_eq!(SuperBlock::from_ptr_unchecked(7).get_ptr(), 7);
    assert_eq!(Dentry::from_ptr(0x3000).get_ptr(), 0x3000);
}

#[test]
fn free_fs_info_only_when_stored() {
    let sb = SuperBlock::from_ptr_unchecked(0x2000);
    assert_eq!(sb.free_fs_info(0), None);
    assert_eq!(sb.free_fs_info(0x5000), Some(0x5000));
}

#[test]
fn inode_kind_by_file_type_bits() {
    assert_eq!(inode_kind(0o100644), InodeKind::Regular);
    assert_eq!(inode_kind(0o040755), InodeKind::Directory);
    assert_eq!(inode_kind(0o120777), InodeKind::Symlink);
    assert_eq!(inode_kind(0o020644), InodeKind::Special);
    assert_eq!(inode_kind(0o010644), InodeKind::Special);
    assert_eq!(inode_kind(0o000644), InodeKind::Special);
    // directory bits or-ed onto regular-file bits give a socket
    assert_eq!(inode_kind(0o140755), InodeKind::Special);
}

#[test]
fn get_inode_fails_without_allocation() {
    assert!(rs_ramfs_get_inode(None, inode(0x10), 0o100644, 0).is_none());
    let (addr, calls) = ramfs_get_inode(None, inode(0x10), 0o100644, 0);
    assert_eq!(addr, 0);
    assert!(calls.is_empty());
}

#[test]
fn get_inode_regular_file() {
    let i = inode(0x100);
    let dir = inode(0x10);
    let (got, calls) = rs_ramfs_get_inode(Some(i), dir, 0o100644, 0).unwrap();
    assert_eq!(got, i);
    let mut expected = common_setup(i, dir, 0o100644);
    expected.push(KernelCall::SetRegularFileOps(i));
    assert_eq!(calls, expected);
}

#[test]
fn get_inode_directory() {
    let i = inode(0x100);
    let dir = inode(0x10);
    let (addr, calls) = ramfs_get_inode(Some(i), dir, 0o040755, 0);
    assert_eq!(addr, 0x100);
    let mut expected = common_setup(i, dir, 0o040755);
    expected.push(KernelCall::SetDirectoryInodeOps(i));
    expected.push(KernelCall::SetDirectoryFileOps(i));
    expected.push(KernelCall::IncNlink(i));
    assert_eq!(calls, expected);
}

#[test]
fn get_inode_symlink() {
    let i = inode(0x100);
    let dir = inode(0x10);
    let (_, calls) = rs_ramfs_get_inode(Some(i), dir, 0o120777, 0).unwrap();
    let mut expected = common_setup(i, dir, 0o120777);
    expected.push(KernelCall::SetSymlinkInodeOps(i));
    expected.push(KernelCall::NoHighmem(i));
    assert_eq!(calls, expected);
}

#[test]
fn get_inode_device_node() {
    let i = inode(0x100);
    let dir = inode(0x10);
    let (_, calls) = rs_ramfs_get_inode(Some(i), dir, 0o020600, 0x0801).unwrap();
    let mut expected = common_setup(i, dir, 0o020600);
    expected.push(KernelCall::InitSpecialInode { inode: i, mode: 0o020600, dev: 0x0801 });
    assert_eq!(calls, expected);
}

#[test]
fn mknod_without_space() {
    let dir = inode(0x10);
    let d = Dentry::from_ptr(0x20);
    assert_eq!(rs_ramfs_mknod(dir, d, 0o010644, 0, None), Err(-28));
    let (rc, calls) = ramfs_mknod(dir, d, 0o010644, 0, None);
    assert_eq!(rc, -ENOSPC);
    assert!(calls.is_empty());
}

#[test]
fn mknod_fifo() {
    let dir = inode(0x10);
    let d = Dentry::from_ptr(0x20);
    let i = inode(0x100);
    let (rc, calls) = ramfs_mknod(dir, d, 0o010644, 0, Some(i));
    assert_eq!(rc, 0);
    let mut expected = common_setup(i, dir, 0o010644);
    expected.push(KernelCall::InitSpecialInode { inode: i, mode: 0o010644, dev: 0 });
    expected.push(KernelCall::Instantiate { dentry: d, inode: i });
    expected.push(KernelCall::Dget(d));
    expected.push(KernelCall::SetMcTimeCurrent(dir));
    assert_eq!(calls, expected);
    assert_eq!(rs_ramfs_mknod(dir, d, 0o010644, 0, Some(i)), Ok(expected));
}

#[test]
fn mkdir_raises_parent_link_count() {
    let dir = inode(0x10);
    let d = Dentry::from_ptr(0x20);
    let i = inode(0x100);
    let (rc, calls) = ramfs_mkdir(dir, d, 0o755, Some(i));
    assert_eq!(rc, 0);
    let mode = 0o755 | (S_IFDIR as u16);
    assert_eq!(mode, 0o040755);
    let mut expected = common_setup(i, dir, mode);
    expected.push(KernelCall::SetDirectoryInodeOps(i));
    expected.push(KernelCall::SetDirectoryFileOps(i));
    expected.push(KernelCall::IncNlink(i));
    expected.push(KernelCall::Instantiate { dentry: d, inode: i });
    expected.push(KernelCall::Dget(d));
    expected.push(KernelCall::SetMcTimeCurrent(dir));
    expected.push(KernelCall::IncNlink(dir));
    assert_eq!(calls, expected);
}

#[test]
fn mkdir_without_space_leaves_parent_alone() {
    let (rc, calls) = ramfs_mkdir(inode(0x10), Dentry::from_ptr(0x20), 0o755, None);
    assert_eq!(rc, -28);
    assert!(calls.is_empty());
}

#[test]
fn create_makes_regular_file() {
    let dir = inode(0x10);
    let d = Dentry::from_ptr(0x20);
    let i = inode(0x100);
    let (rc, calls) = ramfs_create(dir, d, 0o644, true, Some(i));
    assert_eq!(rc, 0);
    let mode = 0o644 | (S_IFREG as u16);
    let mut expected = common_setup(i, dir, mode);
    expected.push(KernelCall::SetRegularFileOps(i));
    expected.push(KernelCall::Instantiate { dentry: d, inode: i });
    expected.push(KernelCall::Dget(d));
    expected.push(KernelCall::SetMcTimeCurrent(dir));
    assert_eq!(calls, expected);
    let (rc, calls) = ramfs_create(dir, d, 0o644, false, None);
    assert_eq!(rc, -ENOSPC);
    assert!(calls.is_empty());
}

#[test]
fn page_symlink_status() {
    assert_eq!(rs_page_symlink(0), Ok(()));
    assert_eq!(rs_page_symlink(-12), Err(-12));
    assert_eq!(rs_page_symlink(5), Err(5));
}

#[test]
fn symlink_start() {
    let dir = inode(0x10);
    let i = inode(0x100);
    let (got, calls, len) = ramfs_symlink(dir, b"target/file\0", Some(i)).unwrap();
    assert_eq!(got, i);
    assert_eq!(len, 12);
    let mode = (S_IFLNK as u16) | (S_IRWXUGO as u16);
    let mut expected = common_setup(i, dir, mode);
    expected.push(KernelCall::SetSymlinkInodeOps(i));
    expected.push(KernelCall::NoHighmem(i));
    assert_eq!(calls, expected);
    // the length counts bytes, not characters
    let (_, _, len) = ramfs_symlink(dir, "héllo\0".as_bytes(), Some(i)).unwrap();
    assert_eq!(len, 7);
}

#[test]
fn symlink_without_space() {
    assert_eq!(ramfs_symlink(inode(0x10), b"x\0", None), Err(-28));
}

#[test]
fn symlink_finish_outcomes() {
    let dir = inode(0x10);
    let d = Dentry::from_ptr(0x20);
    let i = inode(0x100);
    let (rc, calls) = ramfs_symlink_finish(dir, d, i, Ok(()));
    assert_eq!(rc, 0);
    assert_eq!(
        calls,
        vec![
            KernelCall::Instantiate { dentry: d, inode: i },
            KernelCall::Dget(d),
            KernelCall::SetMcTimeCurrent(dir),
        ]
    );
    let (rc, calls) = ramfs_symlink_finish(dir, d, i, rs_page_symlink(-36));
    assert_eq!(rc, -36);
    assert_eq!(calls, vec![KernelCall::Iput(i)]);
}

#[test]
fn fill_super_null_superblock() {
    assert!(matches!(ramfs_fill_super(0, None), Err(e) if e == -ENOMEM));
    assert!(matches!(ramfs_fill_super(0, Some(b"debug\0")), Err(-12)));
}

#[test]
fn fill_super_defaults() {
    let plan = ramfs_fill_super(0x2000, None).unwrap();
    assert_eq!(plan.sb.get_ptr(), 0x2000);
    assert_eq!(plan.fs_info.mount_opts.mode, 775);
    assert!(!plan.fs_info.mount_opts.debug);
    assert_eq!(plan.root_mode, 0o040000 | 775);
    assert_eq!(inode_kind(plan.root_mode), InodeKind::Directory);
    assert_eq!(
        plan.calls,
        vec![
            KernelCall::SetFsInfo(plan.sb),
            KernelCall::SetFields {
                sb: plan.sb,
                maxbytes: MAX_LFS_FILESIZE,
                blocksize_bits: PAGE_SHIFT,
                magic: RAMFS_MAGIC,
                time_gran: TIME_GRAN,
            },
        ]
    );
    assert_eq!(MAX_LFS_FILESIZE, i64::MAX);
    assert_eq!(PAGE_SHIFT, 12);
    assert_eq!(RAMFS_MAGIC, 0x858458f6);
    assert_eq!(TIME_GRAN, 1);
}

#[test]
fn fill_super_with_debug_option() {
    let plan = ramfs_fill_super(0x2000, Some(b"size=10,debug\0")).unwrap();
    assert!(plan.fs_info.mount_opts.debug);
    assert_eq!(plan.fs_info.mount_opts.mode, 775);
    let plan = ramfs_fill_super(0x2000, Some(b"nodebug\0")).unwrap();
    assert!(!plan.fs_info.mount_opts.debug);
}

#[test]
fn fill_super_finish_outcomes() {
    let sb = SuperBlock::from_ptr_unchecked(0x2000);
    let i = inode(0x100);
    let (rc, calls) = ramfs_fill_super_finish(sb, Some(i));
    assert_eq!(rc, 0);
    assert_eq!(calls, vec![KernelCall::SetRoot { sb, inode: i }]);
    let (rc, calls) = ramfs_fill_super_finish(sb, None);
    assert_eq!(rc, -12);
    assert!(calls.is_empty());
}

#[test]
fn kill_super_calls() {
    assert!(ramfs_kill_super(0).is_empty());
    let sb = SuperBlock::from_ptr_unchecked(0x2000);
    assert_eq!(
        ramfs_kill_super(0x2000),
        vec![KernelCall::FreeFsInfo(sb), KernelCall::KillLitterSuper(sb)]
    );
}
