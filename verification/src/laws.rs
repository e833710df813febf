//! What holds of the filesystem's answers whatever is published.

use crate::attr::{spec_dir_attr, spec_file_attr, FileAttr, FileKind, Timestamp};
use crate::fs::{
    is_file_inode, is_first_titled, numberable, spec_getattr, spec_listing, spec_lookup,
    spec_read_reply, spec_read_source, spec_readdir, DirEntryView, FsError, PostView, ROOT_INO,
};
use vstd::prelude::*;

verus! {

/// A listing holds `.`, `..` and every post, and nothing else: it is two
/// entries longer than the snapshot, the post at position `i` stands at
/// place `i + 2` under its title and the inode `i + 2`, and no two entries
/// share an offset.
pub proof fn law_listing_is_complete(posts: Seq<PostView>)
    requires
        numberable(posts.len()),
    ensures
        spec_readdir(posts, ROOT_INO, 0) == Ok::<Seq<DirEntryView>, FsError>(spec_listing(posts)),
        spec_listing(posts).len() == posts.len() + 2,
        spec_listing(posts)[0].name == seq!['.'],
        spec_listing(posts)[1].name == seq!['.', '.'],
        forall|i: int|
            0 <= i < posts.len() ==> (#[trigger] spec_listing(posts)[i + 2]).name == posts[i].title
                && spec_listing(posts)[i + 2].ino == i + 2,
        forall|j: int, k: int|
            0 <= j < k < spec_listing(posts).len() ==> (#[trigger] spec_listing(posts)[j]).offset != (
            #[trigger] spec_listing(posts)[k]).offset,
{
}

/// The name of a post leads to its inode: looking up the title of the post
/// at position `at` under the root answers with the inode `at + 2` and the
/// post's size, provided no post before it has the same title.
pub proof fn law_lookup_finds_post(posts: Seq<PostView>, at: int, now: Timestamp)
    requires
        numberable(posts.len()),
        0 <= at < posts.len(),
        forall|before: int| 0 <= before < at ==> (#[trigger] posts[before]).title != posts[at].title,
    ensures
        spec_lookup(posts, ROOT_INO, posts[at].title, now) == Ok::<FileAttr, FsError>(
            spec_file_attr((at + 2) as u64, posts[at].size, now),
        ),
        spec_lookup(posts, ROOT_INO, posts[at].title, now)->Ok_0.ino == at + 2,
        spec_lookup(posts, ROOT_INO, posts[at].title, now)->Ok_0.size == posts[at].size,
{
    assert(is_first_titled(posts, posts[at].title, at));
    let chosen = choose|k: int| is_first_titled(posts, posts[at].title, k);
    assert(chosen == at);
}

/// What a lookup finds is a file that is there: the inode it answers with
/// is that of a post of the name asked for, and asking for the attributes
/// of that inode at the same time gives the same answer.
pub proof fn law_lookup_agrees_with_getattr(posts: Seq<PostView>, name: Seq<char>, now: Timestamp)
    requires
        numberable(posts.len()),
        spec_lookup(posts, ROOT_INO, name, now) is Ok,
    ensures
        is_file_inode(posts, spec_lookup(posts, ROOT_INO, name, now)->Ok_0.ino),
        posts[spec_lookup(posts, ROOT_INO, name, now)->Ok_0.ino - 2].title == name,
        spec_getattr(posts, spec_lookup(posts, ROOT_INO, name, now)->Ok_0.ino, now) == spec_lookup(
            posts,
            ROOT_INO,
            name,
            now,
        ),
{
    let at = choose|at: int| is_first_titled(posts, name, at);
    assert(is_first_titled(posts, name, at));
}

/// The inode of a post reports the post's size: the attributes of the inode
/// `at + 2` are those of a regular file of the size of the post at position
/// `at`.
pub proof fn law_getattr_reports_post(posts: Seq<PostView>, at: int, now: Timestamp)
    requires
        numberable(posts.len()),
        0 <= at < posts.len(),
    ensures
        spec_getattr(posts, (at + 2) as u64, now) == Ok::<FileAttr, FsError>(
            spec_file_attr((at + 2) as u64, posts[at].size, now),
        ),
        spec_getattr(posts, (at + 2) as u64, now)->Ok_0.size == posts[at].size,
        spec_getattr(posts, (at + 2) as u64, now)->Ok_0.kind == FileKind::RegularFile,
{
}

/// An inode that is neither the root nor a post's is unknown to every
/// operation.
pub proof fn law_unknown_inode_is_not_found(
    posts: Seq<PostView>,
    ino: u64,
    name: Seq<char>,
    offset: i64,
    now: Timestamp,
)
    requires
        !(1 <= ino <= posts.len() + 1),
    ensures
        spec_lookup(posts, ino, name, now) == Err::<FileAttr, FsError>(FsError::NotFound),
        spec_getattr(posts, ino, now) == Err::<FileAttr, FsError>(FsError::NotFound),
        spec_readdir(posts, ino, offset) == Err::<Seq<DirEntryView>, FsError>(FsError::NotFound),
        spec_read_source(posts, ino) == Err::<Seq<char>, FsError>(FsError::NotFound),
{
}

/// Asking twice for the attributes of the root, with nothing published in
/// between, gives the same answer but for the times the two answers are
/// stamped with; two answers stamped with the same time are the same.
pub proof fn law_getattr_root_repeats(posts: Seq<PostView>, first: Timestamp, second: Timestamp)
    ensures
        spec_getattr(posts, ROOT_INO, first) == Ok::<FileAttr, FsError>(
            spec_dir_attr(ROOT_INO, posts.len() as u64, first),
        ),
        spec_getattr(posts, ROOT_INO, second) == Ok::<FileAttr, FsError>(
            FileAttr {
                atime: second,
                mtime: second,
                ctime: second,
                crtime: second,
                ..spec_getattr(posts, ROOT_INO, first)->Ok_0
            },
        ),
        first == second ==> spec_getattr(posts, ROOT_INO, first) == spec_getattr(
            posts,
            ROOT_INO,
            second,
        ),
{
}

/// A read that starts at or behind the end of the content gets nothing.
pub proof fn law_read_behind_the_end_is_empty(content: Seq<u8>, offset: i64, size: u32)
    requires
        offset >= content.len(),
    ensures
        spec_read_reply(Some(content), offset, size) == Ok::<Seq<u8>, FsError>(Seq::empty()),
{
}

/// A read that starts within the content, or right at its end, and asks for
/// more than is left gets exactly what is left.
pub proof fn law_read_over_the_end_gets_the_rest(content: Seq<u8>, offset: i64, size: u32)
    requires
        0 <= offset <= content.len(),
        offset + size > content.len(),
    ensures
        spec_read_reply(Some(content), offset, size) is Ok,
        spec_read_reply(Some(content), offset, size)->Ok_0.len() == content.len() - offset,
        spec_read_reply(Some(content), offset, size)->Ok_0 == content.subrange(
            offset as int,
            content.len() as int,
        ),
{
    if offset == content.len() {
        assert(content.subrange(offset as int, content.len() as int) =~= Seq::<u8>::empty());
    }
}

} // verus!
