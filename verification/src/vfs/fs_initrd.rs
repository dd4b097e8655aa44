//! Read-only initial RAM disk: the volume that exposes the image, and the
//! file system read from it.
use vstd::prelude::*;
use crate::vfs::Error;
use crate::vfs::path::bytes_eq;

verus! {

/// Block size of the volume.
pub const BLOCK_SIZE: usize = 0x1000;

/// A name without its trailing NUL padding: the bytes before the first NUL.
pub open spec fn trim_nuls_spec(name: Seq<u8>) -> Seq<u8> {
    if exists|i: int| 0 <= i < name.len() && name[i] == 0 {
        name.take(choose|i: int| 0 <= i < name.len() && name[i] == 0 && forall|j: int| 0 <= j < i ==> name[j] != 0)
    } else {
        name
    }
}

/// The bytes of `name` before its first NUL.
pub fn trim_nuls(name: &[u8]) -> (r: &[u8])
    ensures
        r@ == trim_nuls_spec(name@),
{
    let mut i: usize = 0;
    while i < name.len()
        invariant
            i <= name@.len(),
            forall|j: int| 0 <= j < i ==> name@[j] != 0,
        decreases name@.len() - i,
    {
        if name[i] == 0 {
            let (a, _b) = name.split_at(i);
            proof {
                let k = choose|k: int| 0 <= k < name@.len() && name@[k] == 0 && forall|j: int| 0 <= j < k ==> name@[j] != 0;
                if k < i {
                    assert(name@[k] != 0);
                }
                if k > i {
                    assert(name@[i as int] != 0);
                }
                assert(a@ =~= name@.take(i as int));
            }
            return a;
        }
        i += 1;
    }
    name
}

/// Errors of the storage layer.
#[derive(Copy, Clone, Debug, PartialEq, Eq, Structural)]
pub enum IoError {
    /// A block index past the end of the volume
    BadBlock,
    /// The volume cannot be written
    ReadOnly,
}

/// The volume backing an initrd image.
pub struct InitrdVol {
    /// "initrd" and a digit
    pub name: [u8; 7],
    /// Offset of the image in its first mapped page
    pub ofs: u32,
    /// Length of the image
    pub len: u32,
}

/// What a read of the volume does.
#[derive(Copy, Clone, Debug, PartialEq, Eq, Structural)]
pub enum ReadPlan {
    /// The magic block (-1, count 1): magic number, address and length of the image
    Magic,
    /// Copy the destination's length from the image at `src_ofs`, reporting `count` blocks
    Copy { src_ofs: u64, count: usize },
}

impl InitrdVol {
    /// The volume of image number `index` (at most ten images: 0 to 9),
    /// found at offset `ofs` of its first page, `length` bytes long.
    pub fn new(index: u32, ofs: u32, length: u32) -> (r: Result<InitrdVol, ()>)
        ensures
            index > 9 ==> r is Err,
            index <= 9 ==> (r matches Ok(v) && v.name@ == seq![0x69u8, 0x6E, 0x69, 0x74, 0x72, 0x64, (0x30 + index) as u8]
                && v.ofs == ofs && v.len == length),
    {
        if index > 9 {
            return Err(());
        }
        let mut name: [u8; 7] = [0x69, 0x6E, 0x69, 0x74, 0x72, 0x64, 0x30];
        name[6] = 0x30 + index as u8;
        let r = InitrdVol { name, ofs, len: length };
        assert(r.name@ =~= seq![0x69u8, 0x6E, 0x69, 0x74, 0x72, 0x64, (0x30 + index) as u8]);
        Ok(r)
    }

    /// The volume's name.
    pub fn name(&self) -> (r: &[u8; 7])
        ensures
            *r == self.name,
    {
        &self.name
    }

    pub fn blocksize(&self) -> (r: usize)
        ensures
            r == BLOCK_SIZE,
    {
        BLOCK_SIZE
    }

    /// Number of whole blocks in the image.
    pub fn capacity(&self) -> (r: Option<u64>)
        ensures
            r == Some((self.len / 0x1000) as u64),
    {
        Some(self.len as u64 / BLOCK_SIZE as u64)
    }

    /// What a read of `count` blocks from `blockidx` into `dst_len` bytes does.
    pub fn read(&self, blockidx: u64, count: usize, dst_len: usize) -> (r: Result<ReadPlan, IoError>)
        requires
            !(blockidx == u64::MAX && count == 1) && blockidx <= self.len / 0x1000 ==> dst_len >= 0x1000 * (
                if count < self.len / 0x1000 - blockidx { count as int } else { self.len / 0x1000 - blockidx }),
        ensures
            blockidx == u64::MAX && count == 1 ==> r == Ok::<ReadPlan, IoError>(ReadPlan::Magic),
            !(blockidx == u64::MAX && count == 1) && blockidx > self.len / 0x1000 ==> r == Err::<ReadPlan, IoError>(IoError::BadBlock),
            !(blockidx == u64::MAX && count == 1) && blockidx <= self.len / 0x1000 ==> r == Ok::<ReadPlan, IoError>(ReadPlan::Copy {
                src_ofs: (self.ofs + blockidx * 0x1000) as u64,
                count: (if count < self.len / 0x1000 - blockidx { count as int } else { self.len / 0x1000 - blockidx }) as usize,
            }),
    {
        if blockidx == u64::MAX && count == 1 {
            return Ok(ReadPlan::Magic);
        }
        let nblocks = self.len as usize / BLOCK_SIZE;
        if blockidx > nblocks as u64 {
            return Err(IoError::BadBlock);
        }
        let avail = nblocks - blockidx as usize;
        let count = if count < avail { count } else { avail };
        Ok(ReadPlan::Copy { src_ofs: self.ofs as u64 + blockidx * (BLOCK_SIZE as u64), count })
    }

    /// Writes are refused.
    pub fn write(&self, _blockidx: u64, _count: usize) -> (r: Result<usize, IoError>)
        ensures
            r == Err::<usize, IoError>(IoError::ReadOnly),
    {
        Err(IoError::ReadOnly)
    }

    /// Wipes are refused.
    pub fn wipe(&self, _blockidx: u64, _count: usize) -> (r: Result<(), IoError>)
        ensures
            r == Err::<(), IoError>(IoError::ReadOnly),
    {
        Err(IoError::ReadOnly)
    }
}

/// Little-endian bytes of a 64-bit value.
pub open spec fn le64_bytes(v: u64) -> Seq<u8> {
    Seq::new(8, |i: int| (v >> ((8 * i) as u64)) as u8)
}

/// Write `v` little-endian at `at`.
fn put_le64(dst: &mut [u8], at: usize, v: u64)
    requires
        at + 8 <= old(dst)@.len(),
    ensures
        final(dst)@.len() == old(dst)@.len(),
        forall|i: int| 0 <= i < final(dst)@.len() ==> final(dst)@[i] == (if at <= i < at + 8 { le64_bytes(v)[i - at] } else { old(dst)@[i] }),
{
    let mut k: usize = 0;
    while k < 8
        invariant
            k <= 8,
            at + 8 <= dst.len(),
            dst@.len() == old(dst)@.len(),
            forall|i: int| 0 <= i < dst@.len() ==> dst@[i] == (if at <= i < at + k { le64_bytes(v)[i - at] } else { old(dst)@[i] }),
        decreases 8 - k,
    {
        dst[at + k] = (v >> ((8 * k) as u64)) as u8;
        k += 1;
    }
}

/// Fill the magic block: magic number, image address and image length, as
/// little-endian 64-bit values.
pub fn fill_magic_block(dst: &mut [u8], magic: u64, data_addr: u64, len: u32)
    requires
        old(dst)@.len() >= 24,
    ensures
        final(dst)@.len() == old(dst)@.len(),
        final(dst)@.subrange(0, 8) == le64_bytes(magic),
        final(dst)@.subrange(8, 16) == le64_bytes(data_addr),
        final(dst)@.subrange(16, 24) == le64_bytes(len as u64),
        final(dst)@.skip(24) == old(dst)@.skip(24),
{
    put_le64(dst, 0, magic);
    let ghost d1 = dst@;
    put_le64(dst, 8, data_addr);
    let ghost d2 = dst@;
    put_le64(dst, 16, len as u64);
    assert(dst@.subrange(0, 8) =~= le64_bytes(magic)) by {
        assert forall|i: int| 0 <= i < 8 implies dst@[i] == le64_bytes(magic)[i] by {
            assert(d2[i] == d1[i]);
        }
    }
    assert(dst@.subrange(8, 16) =~= le64_bytes(data_addr)) by {
        assert forall|i: int| 0 <= i < 8 implies dst@[8 + i] == le64_bytes(data_addr)[i] by {
            assert(dst@[8 + i] == d2[8 + i]);
        }
    }
    assert(dst@.subrange(16, 24) =~= le64_bytes(len as u64));
    assert(dst@.skip(24) =~= old(dst)@.skip(24));
}

/// The little-endian 64-bit value at `at`.
pub open spec fn le64_at(b: Seq<u8>, at: int) -> u64 {
    ((b[at] as u64) | ((b[at + 1] as u64) << 8u64) | ((b[at + 2] as u64) << 16u64) | ((b[at + 3] as u64) << 24u64)
        | ((b[at + 4] as u64) << 32u64) | ((b[at + 5] as u64) << 40u64) | ((b[at + 6] as u64) << 48u64)
        | ((b[at + 7] as u64) << 56u64)) as u64
}

fn read_le64(b: &[u8], at: usize) -> (r: u64)
    requires
        at + 8 <= b@.len(),
    ensures
        r == le64_at(b@, at as int),
{
    (b[at] as u64) | ((b[at + 1] as u64) << 8) | ((b[at + 2] as u64) << 16) | ((b[at + 3] as u64) << 24)
        | ((b[at + 4] as u64) << 32) | ((b[at + 5] as u64) << 40) | ((b[at + 6] as u64) << 48)
        | ((b[at + 7] as u64) << 56)
}

/// The first four bytes of a magic block hold the initrd magic number.
pub open spec fn has_magic(block: Seq<u8>, magic: u32) -> bool {
    block[0] == magic as u8 && block[1] == (magic >> 8u32) as u8 && block[2] == (magic >> 16u32) as u8
        && block[3] == (magic >> 24u32) as u8
}

/// The file-system driver for initrd images.
pub struct InitrdDriver;

impl InitrdDriver {
    /// Detection score from the volume's magic block: 3 for an initrd, else 0.
    pub fn detect(&self, block: &[u8], magic: u32) -> (r: usize)
        requires
            block@.len() >= 4,
        ensures
            r == (if has_magic(block@, magic) { 3usize } else { 0 }),
    {
        if block[0] == magic as u8 && block[1] == (magic >> 8) as u8 && block[2] == (magic >> 16) as u8
            && block[3] == (magic >> 24) as u8 {
            3
        } else {
            0
        }
    }

    /// Address and length of the image from the volume's magic block.
    pub fn mount_location(&self, block: &[u8], magic: u32) -> (r: Result<(u64, u64), Error>)
        requires
            block@.len() >= 24,
        ensures
            !has_magic(block@, magic) ==> r == Err::<(u64, u64), Error>(Error::InconsistentFilesystem),
            has_magic(block@, magic) ==> r == Ok::<(u64, u64), Error>((le64_at(block@, 8), le64_at(block@, 16))),
    {
        if !(block[0] == magic as u8 && block[1] == (magic >> 8) as u8 && block[2] == (magic >> 16) as u8
            && block[3] == (magic >> 24) as u8) {
            return Err(Error::InconsistentFilesystem);
        }
        Ok((read_le64(block, 8), read_le64(block, 16)))
    }
}

/// The image is large enough for its header and its inode table.
pub fn check_image_size(data_len: usize, header_size: usize, node_count: u32, inode_size: usize) -> (r: Result<(), Error>)
    ensures
        (data_len < header_size || data_len < header_size + node_count * inode_size) ==> r == Err::<(), Error>(Error::InconsistentFilesystem),
        !(data_len < header_size || data_len < header_size + node_count * inode_size) ==> r is Ok,
{
    if data_len < header_size {
        return Err(Error::InconsistentFilesystem);
    }
    assert((node_count as u128) * (inode_size as u128) <= 0xffff_ffff * 0xffff_ffff_ffff_ffffu128) by (nonlinear_arith)
        requires node_count <= 0xffff_ffff, inode_size <= 0xffff_ffff_ffff_ffff;
    let need = (header_size as u128) + (node_count as u128) * (inode_size as u128);
    if (data_len as u128) < need {
        return Err(Error::InconsistentFilesystem);
    }
    Ok(())
}

/// The range `ofs .. ofs + len` of an image of `data_len` bytes, if it lies inside it.
pub fn get_data(data_len: usize, ofs: u32, len: u32) -> (r: Result<(usize, usize), Error>)
    ensures
        ofs + len <= data_len ==> r == Ok::<(usize, usize), Error>((ofs as usize, (ofs + len) as usize)),
        ofs + len > data_len ==> r == Err::<(usize, usize), Error>(Error::InconsistentFilesystem),
{
    if ofs as usize > data_len {
        return Err(Error::InconsistentFilesystem);
    }
    if (ofs as u64 + len as u64) > data_len as u64 {
        return Err(Error::InconsistentFilesystem);
    }
    Ok((ofs as usize, ofs as usize + len as usize))
}

/// Node type of an inode.
#[derive(Copy, Clone, Debug, PartialEq, Eq, Structural)]
pub enum InodeKind {
    Regular,
    Directory,
    Other,
}

/// An inode of the image.
#[derive(Copy, Clone, Debug)]
pub struct Inode {
    pub kind: InodeKind,
    /// Offset of the node's data in the image
    pub ofs: u32,
    pub length: u32,
}

/// A file of the image.
#[derive(Copy, Clone, Debug, PartialEq, Eq, Structural)]
pub struct NodeFile {
    pub node_id: u32,
    pub ofs: u32,
    pub size: u32,
}

/// A directory of the image.
#[derive(Copy, Clone, Debug, PartialEq, Eq, Structural)]
pub struct NodeDir {
    pub node_id: u32,
    pub ofs: u32,
    pub size: u32,
}

/// A node of the image.
#[derive(Copy, Clone, Debug, PartialEq, Eq, Structural)]
pub enum Node {
    File(NodeFile),
    Dir(NodeDir),
}

/// The mounted image.
pub struct InitrdInstance;

impl InitrdInstance {
    /// The root directory is inode 0.
    pub fn root_inode(&self) -> (r: u64)
        ensures
            r == 0,
    {
        0
    }

    /// The node of inode `i` (files and directories only).
    pub fn get_node_by_inode(&self, inodes: &[Inode], i: u64) -> (r: Option<Node>)
        requires
            i < inodes@.len() ==> inodes@[i as int].ofs > 0,
        ensures
            i >= inodes@.len() ==> r is None,
            i < inodes@.len() ==> r == match inodes@[i as int].kind {
                InodeKind::Regular => Some(Node::File(NodeFile { node_id: i as u32, ofs: inodes@[i as int].ofs, size: inodes@[i as int].length })),
                InodeKind::Directory => Some(Node::Dir(NodeDir { node_id: i as u32, ofs: inodes@[i as int].ofs, size: inodes@[i as int].length })),
                InodeKind::Other => None,
            },
    {
        if i >= inodes.len() as u64 {
            return None;
        }
        let inode = inodes[i as usize];
        match inode.kind {
            InodeKind::Regular => Some(Node::File(NodeFile { node_id: i as u32, ofs: inode.ofs, size: inode.length })),
            InodeKind::Directory => Some(Node::Dir(NodeDir { node_id: i as u32, ofs: inode.ofs, size: inode.length })),
            InodeKind::Other => None,
        }
    }
}

impl NodeFile {
    pub fn get_id(&self) -> (r: u64)
        ensures
            r == self.node_id,
    {
        self.node_id as u64
    }

    pub fn size(&self) -> (r: u64)
        ensures
            r == self.size,
    {
        self.size as u64
    }

    /// Files cannot be resized.
    pub fn truncate(&self, _newsize: u64) -> (r: Result<u64, Error>)
        ensures
            r == Err::<u64, Error>(Error::ReadOnlyFilesystem),
    {
        Err(Error::ReadOnlyFilesystem)
    }

    /// Files cannot be cleared.
    pub fn clear(&self, _ofs: u64, _size: u64) -> (r: Result<(), Error>)
        ensures
            r == Err::<(), Error>(Error::ReadOnlyFilesystem),
    {
        Err(Error::ReadOnlyFilesystem)
    }

    /// Files cannot be written.
    pub fn write(&self, _ofs: u64, _buf: &[u8]) -> (r: Result<usize, Error>)
        ensures
            r == Err::<usize, Error>(Error::ReadOnlyFilesystem),
    {
        Err(Error::ReadOnlyFilesystem)
    }

    /// Read from offset `ofs` of the file (in the image `data`) into `buf`:
    /// as much as fits, up to the end of the file.
    pub fn read(&self, data: &[u8], ofs: u64, buf: &mut [u8]) -> (r: Result<usize, Error>)
        ensures
            self.ofs + self.size > data@.len() ==> r == Err::<usize, Error>(Error::InconsistentFilesystem)
                && final(buf)@ == old(buf)@,
            self.ofs + self.size <= data@.len() && ofs > self.size ==> r == Err::<usize, Error>(Error::InvalidParameter)
                && final(buf)@ == old(buf)@,
            self.ofs + self.size <= data@.len() && ofs <= self.size ==> {
                let n = if old(buf)@.len() < self.size - ofs { old(buf)@.len() as int } else { self.size - ofs };
                &&& r == Ok::<usize, Error>(n as usize)
                &&& final(buf)@.len() == old(buf)@.len()
                &&& final(buf)@.take(n) == data@.subrange(self.ofs + ofs, self.ofs + ofs + n)
                &&& final(buf)@.skip(n) == old(buf)@.skip(n)
            },
    {
        let (start, end) = match get_data(data.len(), self.ofs, self.size) {
            Ok(v) => v,
            Err(e) => {
                return Err(e);
            },
        };
        let src_len = end - start;
        if ofs > src_len as u64 {
            return Err(Error::InvalidParameter);
        }
        let from = start + ofs as usize;
        let avail = src_len - ofs as usize;
        let n = if buf.len() < avail { buf.len() } else { avail };
        let mut i: usize = 0;
        while i < n
            invariant
                i <= n,
                n <= buf@.len(),
                buf@.len() == old(buf)@.len(),
                from + n <= data.len(),
                forall|k: int| 0 <= k < i ==> buf@[k] == data@[from + k],
                forall|k: int| i <= k < buf@.len() ==> buf@[k] == old(buf)@[k],
            decreases n - i,
        {
            buf[i] = data[from + i];
            i += 1;
        }
        assert(buf@.take(n as int) =~= data@.subrange(from as int, from + n));
        assert(buf@.skip(n as int) =~= old(buf)@.skip(n as int));
        Ok(n)
    }
}

/// A directory entry: the node it names and the name, NUL padded.
pub struct DirEntry {
    pub node: u32,
    pub filename: Vec<u8>,
}

impl NodeDir {
    pub fn get_id(&self) -> (r: u64)
        ensures
            r == self.node_id,
    {
        self.node_id as u64
    }

    /// Number of entries in the directory's data, which must be a whole
    /// number of entries of `entry_size` bytes.
    pub fn entry_count(&self, data_len: usize, entry_size: usize) -> (r: Result<usize, Error>)
        requires
            entry_size > 0,
        ensures
            self.ofs + self.size > data_len ==> r == Err::<usize, Error>(Error::InconsistentFilesystem),
            self.ofs + self.size <= data_len && (self.size as int) % (entry_size as int) != 0 ==> r == Err::<usize, Error>(Error::InconsistentFilesystem),
            self.ofs + self.size <= data_len && (self.size as int) % (entry_size as int) == 0 ==> r == Ok::<usize, Error>(((self.size as int) / (entry_size as int)) as usize),
    {
        match get_data(data_len, self.ofs, self.size) {
            Ok((start, end)) => {
                let len = end - start;
                if len % entry_size != 0 {
                    return Err(Error::InconsistentFilesystem);
                }
                Ok(len / entry_size)
            },
            Err(e) => Err(e),
        }
    }

    /// The node of the entry called `name` (names compared without their
    /// NUL padding; the first match wins).
    pub fn lookup(&self, entries: &[DirEntry], name: &[u8]) -> (r: Result<u64, Error>)
        ensures
            match r {
                Ok(n) => exists|i: int| 0 <= i < entries@.len() && trim_nuls_spec(entries@[i].filename@) == name@
                    && n == entries@[i].node && forall|j: int| 0 <= j < i ==> trim_nuls_spec(entries@[j].filename@) != name@,
                Err(e) => e == Error::NotFound && forall|j: int| 0 <= j < entries@.len() ==> trim_nuls_spec(entries@[j].filename@) != name@,
            },
    {
        let mut i: usize = 0;
        while i < entries.len()
            invariant
                i <= entries@.len(),
                forall|j: int| 0 <= j < i ==> trim_nuls_spec(entries@[j].filename@) != name@,
            decreases entries@.len() - i,
        {
            let e = &entries[i];
            if bytes_eq(name, trim_nuls(e.filename.as_slice())) {
                return Ok(e.node as u64);
            }
            i += 1;
        }
        Err(Error::NotFound)
    }

    /// Offset for the next read after visiting from `start_ofs`: the end
    /// of the directory when `start_ofs` is at or past it, the entry after
    /// the one at which the reader stopped, else the end.
    pub fn read_next_ofs(&self, n_entries: usize, start_ofs: usize, stopped_at: Option<usize>) -> (r: usize)
        requires
            stopped_at matches Some(k) ==> start_ofs + k < n_entries,
        ensures
            start_ofs >= n_entries ==> r == n_entries,
            start_ofs < n_entries ==> r == match stopped_at {
                Some(k) => start_ofs + k + 1,
                None => n_entries as int,
            },
    {
        if start_ofs >= n_entries {
            return n_entries;
        }
        match stopped_at {
            Some(k) => start_ofs + k + 1,
            None => n_entries,
        }
    }

    /// Directories cannot be changed.
    pub fn create(&self, _name: &[u8]) -> (r: Result<u64, Error>)
        ensures
            r == Err::<u64, Error>(Error::ReadOnlyFilesystem),
    {
        Err(Error::ReadOnlyFilesystem)
    }

    pub fn link(&self, _name: &[u8], _inode: u64) -> (r: Result<(), Error>)
        ensures
            r == Err::<(), Error>(Error::ReadOnlyFilesystem),
    {
        Err(Error::ReadOnlyFilesystem)
    }

    pub fn unlink(&self, _name: &[u8]) -> (r: Result<(), Error>)
        ensures
            r == Err::<(), Error>(Error::ReadOnlyFilesystem),
    {
        Err(Error::ReadOnlyFilesystem)
    }
}

} // verus!
