//! Handles on kernel objects, kept as the addresses the kernel gave for them.
//!
//! An address of `0` stands for the null pointer.

use vstd::prelude::*;

verus! {

/// A handle on a kernel inode.
#[derive(Clone, Copy, Debug, PartialEq, Eq, Structural)]
pub struct Inode {
    ptr: usize,
}

impl View for Inode {
    type V = usize;

    open spec fn view(&self) -> usize {
        self.addr()
    }
}

impl Inode {
    /// The address this handle stands for.
    pub closed spec fn addr(&self) -> usize {
        self.ptr
    }

    /// Wraps what the kernel's inode allocator returned: `None` when it
    /// returned the null pointer, that is when the allocation failed.
    pub fn new(allocated: usize) -> (r: Option<Self>)
        ensures
            r is None <==> allocated == 0,
            r matches Some(i) ==> i@ == allocated,
    {
        Self::from_ptr(allocated)
    }

    /// The handle on no inode at all (the null pointer).
    pub fn null() -> (r: Self)
        ensures
            r@ == 0,
    {
        Inode { ptr: 0 }
    }

    /// A handle on the inode at `inode`, or `None` for the null pointer.
    pub fn from_ptr(inode: usize) -> (r: Option<Self>)
        ensures
            r is None <==> inode == 0,
            r matches Some(i) ==> i@ == inode,
    {
        if inode == 0 {
            None
        } else {
            Some(Inode { ptr: inode })
        }
    }

    /// A handle on the inode at `inode`, null or not.
    pub fn from_ptr_unchecked(inode: usize) -> (r: Self)
        ensures
            r@ == inode,
    {
        Inode { ptr: inode }
    }

    /// The address of the inode.
    pub fn get_ptr(self) -> (r: usize)
        ensures
            r == self@,
    {
        self.ptr
    }
}

/// A handle on a kernel superblock.
#[derive(Clone, Copy, Debug, PartialEq, Eq, Structural)]
pub struct SuperBlock {
    pub ptr: usize,
}

impl View for SuperBlock {
    type V = usize;

    open spec fn view(&self) -> usize {
        self.ptr
    }
}

impl SuperBlock {
    /// A handle on the superblock at `sb`, null or not.
    pub fn from_ptr_unchecked(sb: usize) -> (r: Self)
        ensures
            r@ == sb,
    {
        SuperBlock { ptr: sb }
    }

    /// A handle on the superblock at `sb`, or `None` for the null pointer.
    pub fn from_ptr(sb: usize) -> (r: Option<Self>)
        ensures
            r is None <==> sb == 0,
            r matches Some(s) ==> s@ == sb,
    {
        if sb == 0 {
            None
        } else {
            Some(SuperBlock { ptr: sb })
        }
    }

    /// The address of the superblock.
    pub fn get_ptr(&self) -> (r: usize)
        ensures
            r == self@,
    {
        self.ptr
    }

    /// Given the file-system information address stored in this superblock,
    /// the address to release: `None` when nothing is stored (null).
    pub fn free_fs_info(&self, stored: usize) -> (r: Option<usize>)
        ensures
            r is None <==> stored == 0,
            r matches Some(a) ==> a == stored,
    {
        if stored != 0 {
            Some(stored)
        } else {
            None
        }
    }
}

/// A handle on a kernel directory entry.
#[derive(Clone, Copy, Debug, PartialEq, Eq, Structural)]
pub struct Dentry {
    ptr: usize,
}

impl View for Dentry {
    type V = usize;

    open spec fn view(&self) -> usize {
        self.addr()
    }
}

impl Dentry {
    /// The address this handle stands for.
    pub closed spec fn addr(&self) -> usize {
        self.ptr
    }

    /// A handle on the directory entry at `ptr`.
    pub fn from_ptr(ptr: usize) -> (r: Self)
        ensures
            r@ == ptr,
    {
        Dentry { ptr }
    }

    /// The address of the directory entry.
    pub fn get_ptr(&self) -> (r: usize)
        ensures
            r == self@,
    {
        self.ptr
    }
}

} // verus!
