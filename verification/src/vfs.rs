//! The virtual file system layer: which file system a device holds and where
//! its root is.
use vstd::prelude::*;

verus! {

/// Kinds of file system found on a block device.
#[allow(non_camel_case_types)]
#[derive(Clone, Copy, Debug, PartialEq, Eq, Structural)]
pub enum FS_Type {
    Fat32,
    Ext4,
    Null,
}

/// The inode number of an ext4 root directory.
pub const EXT4_ROOT_INODE: u32 = 2;

/// Where a file system's root directory is found.
#[derive(Clone, Copy, Debug, PartialEq, Eq)]
pub enum RootInode {
    /// The FAT32 root directory.
    FatRoot,
    /// The ext4 inode with this number.
    Ext4Inode(u32),
}

/// A mounted file system, as the rest of the kernel uses it.
pub trait VFS {
    fn alloc_blocks(&self, blocks: usize) -> Vec<usize>;

    fn get_filesystem_type(&self) -> FS_Type;

    fn block_size(&self) -> usize;
}

/// Contents of a file, by file system.
pub trait VFSFileContent {

}

/// A directory entry, by file system.
pub trait VFSDirEnt {

}

/// The root of a mounted file system: the FAT32 root directory, or ext4
/// inode 2. There is no root without a file system.
pub fn root_osinode(fs_type: FS_Type) -> (r: RootInode)
    requires
        fs_type != FS_Type::Null,
    ensures
        fs_type == FS_Type::Fat32 ==> r == RootInode::FatRoot,
        fs_type == FS_Type::Ext4 ==> r == RootInode::Ext4Inode(EXT4_ROOT_INODE),
{
    match fs_type {
        FS_Type::Fat32 => RootInode::FatRoot,
        FS_Type::Ext4 => RootInode::Ext4Inode(EXT4_ROOT_INODE),
        FS_Type::Null => RootInode::FatRoot,
    }
}

} // verus!
