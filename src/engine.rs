//! The top-level decision of a copy: single-file mode or tree mode, and where
//! the copy lands.
use vstd::prelude::*;
use crate::error::CopyError;
use crate::options::CopyOptions;
use crate::paths::{file_name, file_name_spec, join, join_spec};

verus! {

/// What a link-aware look at a path finds there.
#[derive(Clone, Copy, Debug, PartialEq, Eq, Structural)]
pub enum Kind {
    /// Nothing, or a link whose target is gone.
    Missing,
    /// A regular file.
    File,
    /// A directory.
    Dir,
    /// A symbolic link (only where the look does not follow links).
    Symlink,
    /// A block or character device, a FIFO or a socket.
    Special,
}

/// How a copy proceeds once the source and the destination are classified.
#[derive(Clone, Debug, PartialEq, Eq)]
pub enum Plan {
    /// Copy the source file to `to`.
    File { to: Vec<u8> },
    /// Make sure `root` is a directory, then walk the source tree into it.
    Tree { root: Vec<u8> },
}

/// The copy root of a directory source: the destination itself where it is
/// missing or the copy puts contents only, else the destination joined with
/// the source's base name.
pub open spec fn tree_root_spec(src: Seq<u8>, dst: Seq<u8>, dst_kind: Kind, content_only: bool) -> Seq<u8> {
    if dst_kind is Missing || content_only {
        dst
    } else {
        join_spec(dst, file_name_spec(src))
    }
}

/// Where a source file lands: inside the destination where it is a directory,
/// else at the destination itself.
pub open spec fn file_target_spec(src: Seq<u8>, dst: Seq<u8>, dst_kind: Kind) -> Seq<u8> {
    if dst_kind is Dir {
        join_spec(dst, file_name_spec(src))
    } else {
        dst
    }
}

/// Decides how to copy `src` to `dst` from what each is (both looked at
/// through links, so a link at the top is taken as what it points to).
pub fn plan(src: &Vec<u8>, src_kind: Kind, dst: &Vec<u8>, dst_kind: Kind, opts: &CopyOptions) -> (r:
    Result<Plan, CopyError>)
    ensures
        src_kind is Missing <==> (r matches Err(CopyError::SrcNotFound(p)) && p@ == src@),
        src_kind is File <==> (r matches Ok(Plan::File { to }) && to@ == file_target_spec(
            src@,
            dst@,
            dst_kind,
        )),
        (src_kind is Dir && !(dst_kind is Missing) && !(dst_kind is Dir)) <==> (r matches Err(
            CopyError::DestNotDir(p),
        ) && p@ == dst@),
        (src_kind is Dir && (dst_kind is Missing || dst_kind is Dir)) <==> (r matches Ok(
            Plan::Tree { root },
        ) && root@ == tree_root_spec(src@, dst@, dst_kind, opts.content_only)),
        (src_kind is Symlink || src_kind is Special) <==> (r matches Err(CopyError::NotSupported(p))
            && p@ == src@),
{
    match src_kind {
        Kind::Missing => Err(CopyError::SrcNotFound(src.clone())),
        Kind::File => {
            if dst_kind == Kind::Dir {
                let name = file_name(src);
                Ok(Plan::File { to: join(dst, &name) })
            } else {
                Ok(Plan::File { to: dst.clone() })
            }
        },
        Kind::Dir => {
            if dst_kind == Kind::Missing || opts.content_only {
                if dst_kind != Kind::Missing && dst_kind != Kind::Dir {
                    Err(CopyError::DestNotDir(dst.clone()))
                } else {
                    Ok(Plan::Tree { root: dst.clone() })
                }
            } else if dst_kind == Kind::Dir {
                let name = file_name(src);
                Ok(Plan::Tree { root: join(dst, &name) })
            } else {
                Err(CopyError::DestNotDir(dst.clone()))
            }
        },
        _ => Err(CopyError::NotSupported(src.clone())),
    }
}

/// What to do at a destination path before putting a file or a link there.
#[derive(Clone, Copy, Debug, PartialEq, Eq, Structural)]
pub enum Placement {
    /// Something is there and is kept: the entry is not copied.
    Keep,
    /// Something is there: remove it, then copy.
    Replace,
    /// Nothing is there: make the parent directories, then copy.
    Create,
}

/// An existing destination is replaced only under `overwrite`; a missing one
/// is created.
pub open spec fn placement_spec(dst_exists: bool, overwrite: bool) -> Placement {
    if !dst_exists {
        Placement::Create
    } else if overwrite {
        Placement::Replace
    } else {
        Placement::Keep
    }
}

/// The overwrite policy for one destination path, for files and recreated
/// links alike.
pub fn placement(dst_exists: bool, opts: &CopyOptions) -> (r: Placement)
    ensures
        r == placement_spec(dst_exists, opts.overwrite),
{
    if !dst_exists {
        Placement::Create
    } else if opts.overwrite {
        Placement::Replace
    } else {
        Placement::Keep
    }
}

/// Without `overwrite`, a copy onto a destination that already holds an entry
/// leaves that entry as it is, while entries not yet there are still created.
pub proof fn existing_entries_are_kept(opts: CopyOptions)
    requires
        !opts.overwrite,
    ensures
        placement_spec(true, opts.overwrite) == Placement::Keep,
        placement_spec(false, opts.overwrite) == Placement::Create,
{
}

/// A second run of the same copy lands where the first did, and with
/// `overwrite` writes every entry afresh from the source. After the first run
/// the destination is a directory (tree mode) or a file unless it was one
/// already (file mode); a tree copied into a missing destination without
/// `content_only` is left out, as the rerun nests it one level deeper.
pub proof fn rerun_lands_in_place(src: Seq<u8>, dst: Seq<u8>, dst_kind: Kind, opts: CopyOptions, exists: bool)
    requires
        opts.overwrite,
    ensures
        !(dst_kind is Missing && !opts.content_only) ==> tree_root_spec(src, dst, dst_kind, opts.content_only)
            == tree_root_spec(src, dst, Kind::Dir, opts.content_only),
        file_target_spec(src, dst, dst_kind) == file_target_spec(
            src,
            dst,
            if dst_kind is Dir {
                Kind::Dir
            } else {
                Kind::File
            },
        ),
        placement_spec(exists, opts.overwrite) != Placement::Keep,
{
}

/// The permission bits that a copy carries over: read, write and execute for
/// owner, group and others, never setuid, setgid or sticky.
pub fn permission_bits(mode: u32) -> (r: u32)
    ensures
        r == mode & 0o777,
        r <= 0o777,
{
    let r = mode & 0o777;
    assert(mode & 0o777 <= 0o777) by (bit_vector);
    r
}

} // verus!
