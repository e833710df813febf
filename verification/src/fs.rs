//! The filesystem itself: one flat, read-only directory over the posts that
//! are published at the moment.
//!
//! The root directory is inode 1. The post at position `i` of the published
//! snapshot is the regular file with inode `i + 2`, and keeps that number
//! only until the snapshot is replaced.

use crate::attr::{dir_attr, file_attr, spec_dir_attr, spec_file_attr, FileAttr, FileKind, Timestamp};
use crate::window::{read_window, spec_window};
use vstd::prelude::*;

verus! {

/// The inode of the root directory.
pub const ROOT_INO: u64 = 1;

/// The inode of the first post of a snapshot.
pub const FIRST_FILE_INO: u64 = 2;

/// One remote item that is shown as a file.
#[derive(Debug, PartialEq, Eq)]
pub struct Post {
    /// The file's name: the item's title, a dot, and its extension.
    pub title: String,
    /// The rank that the remote listing gave the item.
    pub score: i64,
    /// Where the item's content is fetched from.
    pub url: String,
    /// The content's length in bytes as the remote side advertised it, 0 if
    /// it advertised none.
    pub size: u64,
}

/// A post as a mathematical value.
pub struct PostView {
    pub title: Seq<char>,
    pub score: i64,
    pub url: Seq<char>,
    pub size: u64,
}

impl View for Post {
    type V = PostView;

    open spec fn view(&self) -> PostView {
        PostView { title: self.title@, score: self.score, url: self.url@, size: self.size }
    }
}

impl DeepView for Post {
    type V = PostView;

    open spec fn deep_view(&self) -> PostView {
        self@
    }
}

impl Clone for Post {
    fn clone(&self) -> (copy: Post)
        ensures
            copy@ == self@,
    {
        Post {
            title: self.title.clone(),
            score: self.score,
            url: self.url.clone(),
            size: self.size,
        }
    }
}

/// Why an operation gave no answer.
#[derive(Clone, Copy, Debug, PartialEq, Eq, Structural)]
pub enum FsError {
    /// The snapshot holds no such inode or name.
    NotFound,
    /// The content of a file could not be fetched.
    Io,
}

/// One line of a directory listing.
#[derive(Debug, PartialEq, Eq)]
pub struct DirEntry {
    pub ino: u64,
    /// The entry's place in the listing, which also is the cursor that a
    /// later listing call would resume behind.
    pub offset: i64,
    pub kind: FileKind,
    pub name: String,
}

/// A directory entry as a mathematical value.
pub struct DirEntryView {
    pub ino: u64,
    pub offset: i64,
    pub kind: FileKind,
    pub name: Seq<char>,
}

impl View for DirEntry {
    type V = DirEntryView;

    open spec fn view(&self) -> DirEntryView {
        DirEntryView { ino: self.ino, offset: self.offset, kind: self.kind, name: self.name@ }
    }
}

impl DeepView for DirEntry {
    type V = DirEntryView;

    open spec fn deep_view(&self) -> DirEntryView {
        self@
    }
}

impl Clone for DirEntry {
    fn clone(&self) -> (copy: DirEntry)
        ensures
            copy@ == self@,
    {
        DirEntry { ino: self.ino, offset: self.offset, kind: self.kind, name: self.name.clone() }
    }
}

/// Whether a snapshot of `count` posts can be numbered. Its largest inode,
/// `count + 1`, is also the largest offset of its listing, and an offset is
/// an `i64`.
pub open spec fn numberable(count: nat) -> bool {
    count + 1 <= i64::MAX
}

/// Whether `ino` is the inode of one of `posts`.
pub open spec fn is_file_inode(posts: Seq<PostView>, ino: u64) -> bool {
    FIRST_FILE_INO <= ino <= posts.len() + 1
}

/// Whether `at` is the first position of `posts` whose title is `name`.
pub open spec fn is_first_titled(posts: Seq<PostView>, name: Seq<char>, at: int) -> bool {
    &&& 0 <= at < posts.len()
    &&& posts[at].title == name
    &&& forall|before: int| 0 <= before < at ==> (#[trigger] posts[before]).title != name
}

/// The first position of `posts` whose title is `name`, if there is one.
pub open spec fn first_titled(posts: Seq<PostView>, name: Seq<char>) -> Option<int> {
    if exists|at: int| is_first_titled(posts, name, at) {
        Some(choose|at: int| is_first_titled(posts, name, at))
    } else {
        None
    }
}

/// What looking up `name` in the directory `parent` answers at the clock
/// reading `now`: under the root, the attributes of the first post of that
/// title; nothing else is found, and no other directory exists.
pub open spec fn spec_lookup(
    posts: Seq<PostView>,
    parent: u64,
    name: Seq<char>,
    now: Timestamp,
) -> Result<FileAttr, FsError> {
    if parent == ROOT_INO {
        match first_titled(posts, name) {
            Some(at) => Ok(spec_file_attr((at + 2) as u64, posts[at].size, now)),
            None => Err(FsError::NotFound),
        }
    } else {
        Err(FsError::NotFound)
    }
}

/// What asking for the attributes of `ino` answers at the clock reading
/// `now`: the root is a directory whose size is the number of posts, the
/// inode of a post is a file of that post's size, and no other inode exists.
pub open spec fn spec_getattr(posts: Seq<PostView>, ino: u64, now: Timestamp) -> Result<
    FileAttr,
    FsError,
> {
    if ino == ROOT_INO {
        Ok(spec_dir_attr(ROOT_INO, posts.len() as u64, now))
    } else if is_file_inode(posts, ino) {
        Ok(spec_file_attr(ino, posts[ino - 2].size, now))
    } else {
        Err(FsError::NotFound)
    }
}

/// The entry at place `k` of the full listing of `posts`: `.` and `..`, both
/// the root itself, and then the posts in their order.
pub open spec fn spec_entry(posts: Seq<PostView>, k: int) -> DirEntryView {
    if k == 0 {
        DirEntryView { ino: ROOT_INO, offset: 0, kind: FileKind::Directory, name: seq!['.'] }
    } else if k == 1 {
        DirEntryView { ino: ROOT_INO, offset: 1, kind: FileKind::Directory, name: seq!['.', '.'] }
    } else {
        DirEntryView {
            ino: k as u64,
            offset: k as i64,
            kind: FileKind::RegularFile,
            name: posts[k - 2].title,
        }
    }
}

/// The full listing of `posts`.
pub open spec fn spec_listing(posts: Seq<PostView>) -> Seq<DirEntryView> {
    Seq::new(posts.len() + 2, |k: int| spec_entry(posts, k))
}

/// What listing the directory `ino` from the cursor `offset` answers: the
/// full listing of the root from cursor 0, nothing more from any other
/// cursor, and no other directory exists.
pub open spec fn spec_readdir(posts: Seq<PostView>, ino: u64, offset: i64) -> Result<
    Seq<DirEntryView>,
    FsError,
> {
    if ino != ROOT_INO {
        Err(FsError::NotFound)
    } else if offset == 0 {
        Ok(spec_listing(posts))
    } else {
        Ok(Seq::empty())
    }
}

/// Where the content of the file `ino` is fetched from. The root is no file,
/// and no inode beyond the posts exists.
pub open spec fn spec_read_source(posts: Seq<PostView>, ino: u64) -> Result<Seq<char>, FsError> {
    if is_file_inode(posts, ino) {
        Ok(posts[ino - 2].url)
    } else {
        Err(FsError::NotFound)
    }
}

/// A listing result as a mathematical value.
pub open spec fn listed(answer: Result<Vec<DirEntry>, FsError>) -> Result<
    Seq<DirEntryView>,
    FsError,
> {
    match answer {
        Ok(entries) => Ok(entries.deep_view()),
        Err(e) => Err(e),
    }
}

/// A read source as a mathematical value.
pub open spec fn sourced(answer: Result<String, FsError>) -> Result<Seq<char>, FsError> {
    match answer {
        Ok(url) => Ok(url@),
        Err(e) => Err(e),
    }
}

/// What a read of `size` bytes at `offset` answers once the fetch of the
/// file's content is over: the window of the content that was `fetched`, or
/// an I/O error where the fetch failed.
pub open spec fn spec_read_reply(fetched: Option<Seq<u8>>, offset: i64, size: u32) -> Result<
    Seq<u8>,
    FsError,
> {
    match fetched {
        Some(content) => Ok(spec_window(content, offset as int, size as int)),
        None => Err(FsError::Io),
    }
}

/// A read reply as a mathematical value.
pub open spec fn replied(answer: Result<&[u8], FsError>) -> Result<Seq<u8>, FsError> {
    match answer {
        Ok(window) => Ok(window@),
        Err(e) => Err(e),
    }
}

/// The bytes of a fetch as a mathematical value.
pub open spec fn fetched_bytes(fetched: Option<&[u8]>) -> Option<Seq<u8>> {
    match fetched {
        Some(content) => Some(content@),
        None => None,
    }
}

/// Answers a read of `size` bytes at `offset` from what the fetch of the
/// file's whole content gave.
pub fn read_reply<'a>(fetched: Option<&'a [u8]>, offset: i64, size: u32) -> (answer: Result<
    &'a [u8],
    FsError,
>)
    ensures
        replied(answer) == spec_read_reply(fetched_bytes(fetched), offset, size),
{
    match fetched {
        Some(content) => Ok(read_window(content, offset, size)),
        None => Err(FsError::Io),
    }
}

/// Whether `posts` are few enough to be numbered.
pub fn can_number(posts: &Vec<Post>) -> (yes: bool)
    ensures
        yes == numberable(posts@.len()),
{
    posts.len() as u64 <= (i64::MAX - 1) as u64
}

/// The filesystem: the snapshot that is published, and the four operations
/// that answer from it.
pub struct MemeFS {
    posts: Vec<Post>,
}

impl View for MemeFS {
    type V = Seq<PostView>;

    closed spec fn view(&self) -> Seq<PostView> {
        self.posts.deep_view()
    }
}

impl MemeFS {
    #[verifier::type_invariant]
    spec fn inv(self) -> bool {
        numberable(self.posts@.len())
    }

    /// A filesystem that publishes nothing yet.
    pub fn new() -> (fs: MemeFS)
        ensures
            fs@ == Seq::<PostView>::empty(),
    {
        MemeFS { posts: Vec::new() }
    }

    /// Publishes `posts` in place of the whole snapshot, in one step: no
    /// operation sees a mix of old and new.
    pub fn replace(&mut self, posts: Vec<Post>)
        requires
            numberable(posts@.len()),
        ensures
            final(self)@ == posts.deep_view(),
    {
        self.posts = posts;
    }

    /// The published snapshot.
    pub fn posts(&self) -> (posts: &Vec<Post>)
        ensures
            posts.deep_view() == self@,
            numberable(posts@.len()),
    {
        proof {
            use_type_invariant(self);
        }
        &self.posts
    }

    /// The number of published posts.
    pub fn len(&self) -> (count: usize)
        ensures
            count == self@.len(),
    {
        self.posts.len()
    }

    /// Looks `name` up in the directory `parent`.
    ///
    /// Of several posts with one title the first is found.
    pub fn lookup(&self, parent: u64, name: &str) -> (answer: Result<FileAttr, FsError>)
        ensures
            exists|now: Timestamp|
                now.wf() && answer == #[trigger] spec_lookup(self@, parent, name@, now),
    {
        proof {
            use_type_invariant(self);
        }
        let ghost epoch = Timestamp { sec: 0, nsec: 0 };
        if parent != ROOT_INO {
            assert(spec_lookup(self@, parent, name@, epoch) == Err::<FileAttr, FsError>(
                FsError::NotFound,
            ));
            return Err(FsError::NotFound);
        }
        let wanted = name.to_owned();
        let mut at: usize = 0;
        while at < self.posts.len()
            invariant
                at <= self.posts@.len(),
                parent == ROOT_INO,
                wanted@ == name@,
                numberable(self.posts@.len()),
                forall|before: int| 0 <= before < at ==> (#[trigger] self@[before]).title != name@,
            decreases self.posts@.len() - at,
        {
            if self.posts[at].title == wanted {
                let ino = at as u64 + FIRST_FILE_INO;
                let size = self.posts[at].size;
                let attr = file_attr(ino, size);
                proof {
                    assert(is_first_titled(self@, name@, at as int));
                    let chosen = choose|k: int| is_first_titled(self@, name@, k);
                    assert(chosen == at);
                    let now = choose|now: Timestamp|
                        now.wf() && attr == #[trigger] spec_file_attr(ino, size, now);
                    assert(spec_lookup(self@, parent, name@, now) == Ok::<FileAttr, FsError>(attr));
                }
                return Ok(attr);
            }
            at += 1;
        }
        proof {
            assert forall|k: int| !is_first_titled(self@, name@, k) by {
                if 0 <= k < self@.len() {
                    assert(self@[k].title != name@);
                }
            }
            assert(spec_lookup(self@, parent, name@, epoch) == Err::<FileAttr, FsError>(
                FsError::NotFound,
            ));
        }
        Err(FsError::NotFound)
    }

    /// The attributes of `ino`.
    pub fn getattr(&self, ino: u64) -> (answer: Result<FileAttr, FsError>)
        ensures
            exists|now: Timestamp| now.wf() && answer == #[trigger] spec_getattr(self@, ino, now),
    {
        proof {
            use_type_invariant(self);
        }
        if ino == ROOT_INO {
            let count = self.posts.len() as u64;
            let attr = dir_attr(ROOT_INO, count);
            proof {
                let now = choose|now: Timestamp|
                    now.wf() && attr == #[trigger] spec_dir_attr(ROOT_INO, count, now);
                assert(spec_getattr(self@, ino, now) == Ok::<FileAttr, FsError>(attr));
            }
            Ok(attr)
        } else if ino >= FIRST_FILE_INO && ino - FIRST_FILE_INO < self.posts.len() as u64 {
            let size = self.posts[(ino - FIRST_FILE_INO) as usize].size;
            let attr = file_attr(ino, size);
            proof {
                let now = choose|now: Timestamp|
                    now.wf() && attr == #[trigger] spec_file_attr(ino, size, now);
                assert(spec_getattr(self@, ino, now) == Ok::<FileAttr, FsError>(attr));
            }
            Ok(attr)
        } else {
            let ghost epoch = Timestamp { sec: 0, nsec: 0 };
            assert(spec_getattr(self@, ino, epoch) == Err::<FileAttr, FsError>(FsError::NotFound));
            Err(FsError::NotFound)
        }
    }

    /// Lists the directory `ino` from the cursor `offset`.
    ///
    /// From cursor 0 the root lists `.`, `..` and every published post once,
    /// in the snapshot's order; the entry at place `k` carries offset `k`, so
    /// no two entries share one, and the post at position `i` stands at place
    /// `i + 2` under inode `i + 2`.
    pub fn readdir(&self, ino: u64, offset: i64) -> (answer: Result<Vec<DirEntry>, FsError>)
        ensures
            listed(answer) == spec_readdir(self@, ino, offset),
            ino == ROOT_INO && offset == 0 ==> answer is Ok && answer->Ok_0@.len() == self@.len()
                + 2,
            ino == ROOT_INO && offset == 0 ==> forall|k: int|
                0 <= k < answer->Ok_0@.len() ==> (#[trigger] answer->Ok_0@[k]).offset == k,
            ino == ROOT_INO && offset == 0 ==> forall|i: int|
                0 <= i < self@.len() ==> (#[trigger] answer->Ok_0@[i + 2]).ino == i + 2
                    && answer->Ok_0@[i + 2].name@ == self@[i].title,
    {
        proof {
            use_type_invariant(self);
        }
        if ino != ROOT_INO {
            return Err(FsError::NotFound);
        }
        let mut entries: Vec<DirEntry> = Vec::new();
        if offset == 0 {
            proof {
                reveal_strlit(".");
                reveal_strlit("..");
            }
            entries.push(
                DirEntry {
                    ino: ROOT_INO,
                    offset: 0,
                    kind: FileKind::Directory,
                    name: ".".to_owned(),
                },
            );
            entries.push(
                DirEntry {
                    ino: ROOT_INO,
                    offset: 1,
                    kind: FileKind::Directory,
                    name: "..".to_owned(),
                },
            );
            assert(entries@[0]@ == spec_entry(self@, 0)) by {
                assert(entries@[0].name@ =~= seq!['.']);
            }
            assert(entries@[1]@ == spec_entry(self@, 1)) by {
                assert(entries@[1].name@ =~= seq!['.', '.']);
            }
            let mut at: usize = 0;
            while at < self.posts.len()
                invariant
                    at <= self.posts@.len(),
                    numberable(self.posts@.len()),
                    entries@.len() == at + 2,
                    forall|k: int| 0 <= k < entries@.len() ==> (#[trigger] entries@[k])@
                        == spec_entry(self@, k),
                decreases self.posts@.len() - at,
            {
                let place = at as u64 + FIRST_FILE_INO;
                entries.push(
                    DirEntry {
                        ino: place,
                        offset: place as i64,
                        kind: FileKind::RegularFile,
                        name: self.posts[at].title.clone(),
                    },
                );
                at += 1;
            }
            assert(entries.deep_view() =~= spec_listing(self@));
        } else {
            assert(entries.deep_view() =~= Seq::<DirEntryView>::empty());
        }
        Ok(entries)
    }

    /// Where the content of the file `ino` is to be fetched from.
    pub fn read_source(&self, ino: u64) -> (answer: Result<String, FsError>)
        ensures
            sourced(answer) == spec_read_source(self@, ino),
    {
        if ino >= FIRST_FILE_INO && ino - FIRST_FILE_INO < self.posts.len() as u64 {
            let at = (ino - FIRST_FILE_INO) as usize;
            Ok(self.posts[at].url.clone())
        } else {
            Err(FsError::NotFound)
        }
    }
}

} // verus!
