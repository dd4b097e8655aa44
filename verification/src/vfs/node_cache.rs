//! Walking a path through the node cache: what to do at each node met, as
//! decisions over what the cache and the file systems report. Looking nodes
//! up and opening them is the caller's part.
use vstd::prelude::*;
use crate::vfs::Error;
use crate::vfs::path::{Path, split_first_spec, is_absolute_spec};

verus! {

/// Kind of a node.
#[derive(Copy, Clone, Debug, PartialEq, Eq, Structural)]
pub enum NodeClass {
    File,
    Dir,
    Symlink,
    Special,
}

/// What the walk needs to know of a node it stands on.
#[derive(Copy, Clone, Debug, PartialEq, Eq, Structural)]
pub enum NodeInfo {
    File,
    /// A directory; `mountpoint` is the file system mounted on it (0: none)
    Dir { mountpoint: usize },
    /// A symbolic link, and whether its target is an absolute path
    Symlink { absolute_target: bool },
    Special,
}

/// The kind of a node.
pub fn node_class(n: NodeInfo) -> (r: NodeClass)
    ensures
        r == match n {
            NodeInfo::File => NodeClass::File,
            NodeInfo::Dir { .. } => NodeClass::Dir,
            NodeInfo::Symlink { .. } => NodeClass::Symlink,
            NodeInfo::Special => NodeClass::Special,
        },
{
    match n {
        NodeInfo::File => NodeClass::File,
        NodeInfo::Dir { .. } => NodeClass::Dir,
        NodeInfo::Symlink { .. } => NodeClass::Symlink,
        NodeInfo::Special => NodeClass::Special,
    }
}

/// A node of the kind `want`, or `TypeMismatch`.
pub fn expect_class(n: NodeInfo, want: NodeClass) -> (r: Result<(), Error>)
    ensures
        r == (if node_class_spec(n) == want { Ok::<(), Error>(()) } else { Err::<(), Error>(Error::TypeMismatch) }),
{
    if node_class(n) == want {
        Ok(())
    } else {
        Err(Error::TypeMismatch)
    }
}

/// The kind of a node (as [`node_class`] computes it).
pub open spec fn node_class_spec(n: NodeInfo) -> NodeClass {
    match n {
        NodeInfo::File => NodeClass::File,
        NodeInfo::Dir { .. } => NodeClass::Dir,
        NodeInfo::Symlink { .. } => NodeClass::Symlink,
        NodeInfo::Special => NodeClass::Special,
    }
}

/// Opening a node by its ids: a directory with a file system mounted on it
/// stands for that file system's root, to be opened instead.
pub fn mounted_here(n: NodeInfo) -> (r: Option<usize>)
    ensures
        (n matches NodeInfo::Dir { mountpoint } && mountpoint != 0) ==> r == Some(n->mountpoint),
        !(n matches NodeInfo::Dir { mountpoint } && mountpoint != 0) ==> r is None,
{
    match n {
        NodeInfo::Dir { mountpoint } => if mountpoint != 0 { Some(mountpoint) } else { None },
        _ => None,
    }
}

/// What the walk does at a node before taking the next component.
#[derive(Copy, Clone, Debug, PartialEq, Eq, Structural)]
pub enum WalkAction {
    /// Replace the node by the target of the (absolute) symbolic link
    FollowLink,
    /// Look the component up in this directory
    LookUp,
    /// The walk fails
    Fail(Error),
}

/// The step of the walk at a node: symbolic links are followed (only ones
/// with an absolute target can be), directories are searched, anything
/// else cannot have a next component.
pub fn walk_step(n: NodeInfo) -> (r: WalkAction)
    requires
        !(n matches NodeInfo::Symlink { absolute_target } && !absolute_target),
    ensures
        n is Symlink ==> r == WalkAction::FollowLink,
        n is Dir ==> r == WalkAction::LookUp,
        (n is File || n is Special) ==> r == WalkAction::Fail(Error::NonDirComponent),
{
    match n {
        NodeInfo::Symlink { .. } => WalkAction::FollowLink,
        NodeInfo::Dir { .. } => WalkAction::LookUp,
        _ => WalkAction::Fail(Error::NonDirComponent),
    }
}

/// The node a component names, from the directory's lookup: any failure
/// of the lookup means the component is not there.
pub fn lookup_result(r: Result<u64, Error>) -> (out: Result<u64, Error>)
    ensures
        out == match r {
            Ok(v) => Ok::<u64, Error>(v),
            Err(_) => Err::<u64, Error>(Error::NotFound),
        },
{
    match r {
        Ok(v) => Ok(v),
        Err(_) => Err(Error::NotFound),
    }
}

/// The components left to walk from a starting directory: an absolute path
/// loses its leading (empty) component, a relative one is walked as it is.
pub fn walk_start<'a>(path: Path<'a>) -> (r: Result<Path<'a>, Error>)
    ensures
        !is_absolute_spec(path.bytes()) ==> (r matches Ok(p) && p.bytes() == path.bytes()),
        is_absolute_spec(path.bytes()) ==> (r matches Ok(p) && split_first_spec(path.bytes()) matches Some((_c, rest))
            && p.bytes() == rest),
{
    if path.is_absolute() {
        match path.split_off_first() {
            Some((_c, rest)) => Ok(rest),
            None => Err(Error::MalformedPath),
        }
    } else {
        Ok(path)
    }
}

/// The components of an absolute path to walk from the root: the path
/// must start with `/` (its first component empty), else it is malformed.
pub fn root_walk_start<'a>(path: Path<'a>) -> (r: Result<Path<'a>, Error>)
    ensures
        match split_first_spec(path.bytes()) {
            None => r == Err::<Path<'a>, Error>(Error::MalformedPath),
            Some((c, rest)) => if c.len() != 0 {
                r == Err::<Path<'a>, Error>(Error::MalformedPath)
            } else {
                r matches Ok(p) && p.bytes() == rest
            },
        },
{
    match path.split_off_first() {
        None => Err(Error::MalformedPath),
        Some((c, rest)) => if c.len() != 0 {
            Err(Error::MalformedPath)
        } else {
            Ok(rest)
        },
    }
}

} // verus!
