use tifflin_modules::vfs::node_cache::{
    expect_class, lookup_result, mounted_here, node_class, root_walk_start, walk_start, walk_step, NodeClass, NodeInfo,
    WalkAction,
};
use tifflin_modules::vfs::fs_initrd::{
    check_image_size, fill_magic_block, get_data, trim_nuls, DirEntry, Inode, InodeKind, InitrdDriver,
    InitrdInstance, InitrdVol, IoError, Node, NodeDir, NodeFile, ReadPlan,
};
use tifflin_modules::vfs::path::{bytes_eq, Path, PathBuf};
use tifflin_modules::vfs::Error;

#[test]
fn path_split_off_first() {
    let p = Path::new(b"/usr/bin/ls");
    let (c, rest) = p.split_off_first().unwrap();
    assert_eq!(c, b"");
    assert_eq!(rest.0, b"usr/bin/ls");
    let (c, rest) = rest.split_off_first().unwrap();
    assert_eq!(c, b"usr");
    assert_eq!(rest.0, b"bin/ls");
    let (c, rest) = Path::new(b"ls").split_off_first().unwrap();
    assert_eq!(c, b"ls");
    assert_eq!(rest.0, b"");
    assert!(Path::new(b"").split_off_first().is_none());
}

#[test]
fn path_split_off_last_parent_and_file_name() {
    let p = Path::new(b"/usr/bin/ls");
    let (parent, name) = p.split_off_last().unwrap();
    assert_eq!(parent.0, b"/usr/bin".to_vec());
    assert_eq!(name, b"ls");
    assert_eq!(p.file_name(), Some(&b"ls"[..]));
    assert_eq!(p.parent().unwrap().0, b"/usr/bin".to_vec());
    let top = Path::new(b"/ls");
    assert_eq!(top.parent().unwrap().0, b"/".to_vec());
    let bare = Path::new(b"ls");
    assert_eq!(bare.parent().unwrap().0, Vec::<u8>::new());
    assert_eq!(bare.file_name(), Some(&b"ls"[..]));
    assert!(Path::new(b"").parent().is_none());
}

#[test]
fn path_iter_and_normalisation() {
    let p = Path::new(b"/a/b/c");
    let comps = p.iter();
    assert_eq!(comps, vec![&b""[..], &b"a"[..], &b"b"[..], &b"c"[..]]);
    assert!(p.is_absolute());
    assert!(!Path::new(b"a/b").is_absolute());
    assert!(p.is_normalised());
    assert!(!Path::new(b"/a/./b").is_normalised());
    assert!(!Path::new(b"/a/../b").is_normalised());
}

#[test]
fn path_starts_with() {
    let p = Path::new(b"/system/bin/init");
    let base = Path::new(b"/system");
    let tail = p.starts_with(&base).unwrap();
    assert_eq!(tail.0, b"bin/init");
    assert!(p.starts_with(&Path::new(b"/sys")).is_none());
    assert!(p.starts_with(&Path::new(b"system")).is_none());
    let whole = p.starts_with(&p).unwrap();
    assert_eq!(whole.0, b"");
}

#[test]
fn pathbuf_roundtrip_and_bytes_eq() {
    let p = Path::new(b"/a/b");
    let pb = PathBuf::from_path(&p);
    assert_eq!(pb.as_path().0, b"/a/b");
    assert!(bytes_eq(b"abc", b"abc"));
    assert!(!bytes_eq(b"abc", b"abd"));
    assert!(!bytes_eq(b"abc", b"ab"));
}

#[test]
fn trim_nuls_stops_at_first_nul() {
    assert_eq!(trim_nuls(b"init\0\0\0"), b"init");
    assert_eq!(trim_nuls(b"init"), b"init");
    assert_eq!(trim_nuls(b"\0x"), b"");
}

#[test]
fn initrd_volume_names_and_reads() {
    assert!(InitrdVol::new(10, 0, 0).is_err());
    let v = InitrdVol::new(3, 0x10000, 0x5000).unwrap();
    assert_eq!(v.name(), b"initrd3");
    assert_eq!(v.blocksize(), 0x1000);
    assert_eq!(v.capacity(), Some(5));
    assert_eq!(v.read(u64::MAX, 1, 0x1000), Ok(ReadPlan::Magic));
    assert_eq!(v.read(6, 1, 0x1000), Err(IoError::BadBlock));
    assert_eq!(v.read(1, 2, 0x2000), Ok(ReadPlan::Copy { src_ofs: 0x11000, count: 2 }));
    assert_eq!(v.read(3, 10, 0x2000), Ok(ReadPlan::Copy { src_ofs: 0x13000, count: 2 }));
    assert_eq!(v.write(0, 1), Err(IoError::ReadOnly));
    assert_eq!(v.wipe(0, 1), Err(IoError::ReadOnly));
}

#[test]
fn initrd_magic_block_is_detected_and_mounted() {
    let magic: u32 = 0x71FF0EF1;
    let mut block = [0xAAu8; 32];
    fill_magic_block(&mut block, magic as u64, 0x1234_5678, 0x9000);
    assert_eq!(&block[0..8], &[0xF1, 0x0E, 0xFF, 0x71, 0, 0, 0, 0]);
    assert_eq!(&block[24..32], &[0xAA; 8]);
    let d = InitrdDriver;
    assert_eq!(d.detect(&block, magic), 3);
    assert_eq!(d.detect(&block, magic + 1), 0);
    assert_eq!(d.mount_location(&block, magic), Ok((0x1234_5678, 0x9000)));
    assert_eq!(d.mount_location(&block, 0), Err(Error::InconsistentFilesystem));
}

#[test]
fn initrd_image_bounds() {
    assert_eq!(check_image_size(100, 16, 4, 16), Ok(()));
    assert_eq!(check_image_size(79, 16, 4, 16), Err(Error::InconsistentFilesystem));
    assert_eq!(check_image_size(8, 16, 0, 16), Err(Error::InconsistentFilesystem));
    assert_eq!(get_data(100, 10, 20), Ok((10, 30)));
    assert_eq!(get_data(100, 90, 20), Err(Error::InconsistentFilesystem));
}

#[test]
fn initrd_nodes_by_inode() {
    let inodes = [
        Inode { kind: InodeKind::Directory, ofs: 64, length: 32 },
        Inode { kind: InodeKind::Regular, ofs: 96, length: 10 },
        Inode { kind: InodeKind::Other, ofs: 1, length: 0 },
    ];
    let inst = InitrdInstance;
    assert_eq!(inst.root_inode(), 0);
    assert_eq!(inst.get_node_by_inode(&inodes, 0), Some(Node::Dir(NodeDir { node_id: 0, ofs: 64, size: 32 })));
    assert_eq!(inst.get_node_by_inode(&inodes, 1), Some(Node::File(NodeFile { node_id: 1, ofs: 96, size: 10 })));
    assert_eq!(inst.get_node_by_inode(&inodes, 2), None);
    assert_eq!(inst.get_node_by_inode(&inodes, 3), None);
}

#[test]
fn initrd_file_reads_and_refuses_writes() {
    let data: Vec<u8> = (0u8..32).collect();
    let f = NodeFile { node_id: 1, ofs: 8, size: 10 };
    assert_eq!(f.get_id(), 1);
    assert_eq!(f.size(), 10);
    let mut buf = [0xFFu8; 4];
    assert_eq!(f.read(&data, 2, &mut buf), Ok(4));
    assert_eq!(buf, [10, 11, 12, 13]);
    let mut big = [0xFFu8; 8];
    assert_eq!(f.read(&data, 6, &mut big), Ok(4));
    assert_eq!(big, [14, 15, 16, 17, 0xFF, 0xFF, 0xFF, 0xFF]);
    assert_eq!(f.read(&data, 11, &mut big), Err(Error::InvalidParameter));
    let past = NodeFile { node_id: 2, ofs: 30, size: 10 };
    assert_eq!(past.read(&data, 0, &mut big), Err(Error::InconsistentFilesystem));
    assert_eq!(f.truncate(0), Err(Error::ReadOnlyFilesystem));
    assert_eq!(f.clear(0, 1), Err(Error::ReadOnlyFilesystem));
    assert_eq!(f.write(0, b"x"), Err(Error::ReadOnlyFilesystem));
}

#[test]
fn initrd_directory_lookup_and_listing() {
    let d = NodeDir { node_id: 0, ofs: 0, size: 64 };
    assert_eq!(d.get_id(), 0);
    assert_eq!(d.entry_count(100, 32), Ok(2));
    assert_eq!(d.entry_count(100, 24), Err(Error::InconsistentFilesystem));
    assert_eq!(d.entry_count(50, 32), Err(Error::InconsistentFilesystem));
    let entries = vec![
        DirEntry { node: 4, filename: b"init\0\0\0\0".to_vec() },
        DirEntry { node: 7, filename: b"bin\0\0\0\0\0".to_vec() },
    ];
    assert_eq!(d.lookup(&entries, b"bin"), Ok(7));
    assert_eq!(d.lookup(&entries, b"init"), Ok(4));
    assert_eq!(d.lookup(&entries, b"sbin"), Err(Error::NotFound));
    assert_eq!(d.read_next_ofs(2, 0, Some(0)), 1);
    assert_eq!(d.read_next_ofs(2, 0, None), 2);
    assert_eq!(d.read_next_ofs(2, 5, None), 2);
    assert_eq!(d.create(b"x"), Err(Error::ReadOnlyFilesystem));
    assert_eq!(d.link(b"x", 1), Err(Error::ReadOnlyFilesystem));
    assert_eq!(d.unlink(b"x"), Err(Error::ReadOnlyFilesystem));
}

#[test]
fn node_cache_walk_decisions() {
    assert_eq!(node_class(NodeInfo::Dir { mountpoint: 0 }), NodeClass::Dir);
    assert_eq!(expect_class(NodeInfo::File, NodeClass::File), Ok(()));
    assert_eq!(expect_class(NodeInfo::File, NodeClass::Dir), Err(Error::TypeMismatch));
    assert_eq!(mounted_here(NodeInfo::Dir { mountpoint: 2 }), Some(2));
    assert_eq!(mounted_here(NodeInfo::Dir { mountpoint: 0 }), None);
    assert_eq!(mounted_here(NodeInfo::Special), None);
    assert_eq!(walk_step(NodeInfo::Symlink { absolute_target: true }), WalkAction::FollowLink);
    assert_eq!(walk_step(NodeInfo::Dir { mountpoint: 0 }), WalkAction::LookUp);
    assert_eq!(walk_step(NodeInfo::File), WalkAction::Fail(Error::NonDirComponent));
    assert_eq!(lookup_result(Ok(7)), Ok(7));
    assert_eq!(lookup_result(Err(Error::InconsistentFilesystem)), Err(Error::NotFound));
    assert_eq!(walk_start(Path::new(b"/a/b")).unwrap().0, b"a/b");
    assert_eq!(walk_start(Path::new(b"a/b")).unwrap().0, b"a/b");
    assert_eq!(root_walk_start(Path::new(b"/sys/x")).unwrap().0, b"sys/x");
    assert!(root_walk_start(Path::new(b"sys/x")).is_err());
    assert!(root_walk_start(Path::new(b"")).is_err());
}
