//! The capability contract that a boot-time storage driver implements, and an
//! in-memory driver that meets it.
//!
//! A driver is seen through four views: the longest path it accepts, which
//! descriptors are open, and for each open descriptor its cursor and the bytes
//! of its file.
use vstd::prelude::*;
use vstd::string::StringSliceAdditionalSpecFns;

verus! {

/// An open file. The payload is private to the driver that opened it.
/// There is no implicit close: dropping a descriptor leaks it.
#[derive(Debug)]
pub struct FileDescriptor<FileSystemData> {
    pub data: Box<FileSystemData>,
}

/// Why a file could not be opened.
#[derive(Clone, Copy, Debug, PartialEq, Eq, Structural)]
pub enum OpenFileError {
    /// The opened path is too long to be valid for this filesystem.
    PathTooLong,
    /// One of the path's components is too long to be valid for this filesystem.
    ComponentTooLong,
    /// The opened path cannot be converted into the proper charset.
    InvalidCharset,
    /// The opened file was not found on the filesystem.
    FileNotFound,
    /// An error occurred while reading from this filesystem's device.
    DeviceError,
    /// Access was denied to this file.
    AccessDenied,
    /// The filesystem state has been corrupted.
    FileSystemCorrupted,
    /// A directory on the path to the opened file was not found on the filesystem.
    DirectoryNotFound,
    /// Tried to open a file as a directory.
    IsFile,
    /// Tried to open a directory as a normal file.
    IsDirectory,
}

/// The byte `/`.
pub const SLASH: u8 = 47;

/// A store of files that boot code can read. Paths are resolved from the
/// filesystem's root whether or not they start with `/`. Only `open_file`
/// can fail; the other operations need an open descriptor and always succeed.
pub trait FileSystem: Sized {
    type FileSystemData;

    /// The longest path, in bytes, that the driver accepts.
    spec fn max_path_len(&self) -> nat;

    /// Whether `descriptor` is open on this driver.
    spec fn is_open(&self, descriptor: FileDescriptor<Self::FileSystemData>) -> bool;

    /// The byte offset at which the next read of `descriptor` starts.
    spec fn cursor(&self, descriptor: FileDescriptor<Self::FileSystemData>) -> nat;

    /// The bytes of the file behind `descriptor`.
    spec fn contents(&self, descriptor: FileDescriptor<Self::FileSystemData>) -> Seq<u8>;

    /// Which opening `descriptor` came from. Descriptors that are open at the
    /// same time have different handles.
    spec fn handle(descriptor: FileDescriptor<Self::FileSystemData>) -> nat;

    /// The bytes of the file that `path` names, resolved from the root, or
    /// `None` where no file is there.
    spec fn file_at(&self, path: Seq<u8>) -> Option<Seq<u8>>;

    /// A relative path names the same file as the absolute path made by
    /// putting `/` in front of it.
    proof fn lemma_relative_is_absolute(&self, path: Seq<u8>)
        requires
            path.len() == 0 || path[0] != SLASH,
        ensures
            self.file_at(seq![SLASH] + path) == self.file_at(path),
    ;

    /// Opens the file at `path` with its cursor at the start. A path longer
    /// than the driver accepts is refused before the device is touched. A
    /// failed open changes nothing that a caller can observe.
    fn open_file(&mut self, path: &str) -> (r: Result<FileDescriptor<Self::FileSystemData>, OpenFileError>)
        ensures
            final(self).max_path_len() == old(self).max_path_len(),
            forall|d: FileDescriptor<Self::FileSystemData>| #[trigger] old(self).is_open(d) ==> final(self).is_open(d)
                && final(self).cursor(d) == old(self).cursor(d) && final(self).contents(d) == old(self).contents(d),
            path.spec_bytes().len() > old(self).max_path_len() ==> r == Err::<
                FileDescriptor<Self::FileSystemData>,
                OpenFileError,
            >(OpenFileError::PathTooLong) && *final(self) == *old(self),
            forall|p: Seq<u8>| #[trigger] final(self).file_at(p) == old(self).file_at(p),
            old(self).file_at(path.spec_bytes()) is None ==> r is Err,
            r is Ok ==> final(self).is_open(r->Ok_0) && final(self).cursor(r->Ok_0) == 0
                && old(self).file_at(path.spec_bytes()) == Some(final(self).contents(r->Ok_0)),
            r is Ok ==> forall|e: FileDescriptor<Self::FileSystemData>| #[trigger] old(self).is_open(e)
                ==> Self::handle(e) != Self::handle(r->Ok_0),
            r is Err ==> (forall|d: FileDescriptor<Self::FileSystemData>| #[trigger] final(self).is_open(d) ==> old(self).is_open(d)),
    ;

    /// Releases `descriptor`; it is no longer open afterwards, and every other
    /// open descriptor stays as it was.
    fn close_file(&mut self, descriptor: FileDescriptor<Self::FileSystemData>)
        requires
            old(self).is_open(descriptor),
        ensures
            final(self).max_path_len() == old(self).max_path_len(),
            !final(self).is_open(descriptor),
            forall|p: Seq<u8>| #[trigger] final(self).file_at(p) == old(self).file_at(p),
            forall|d: FileDescriptor<Self::FileSystemData>| #[trigger] old(self).is_open(d)
                && Self::handle(d) != Self::handle(descriptor) ==> final(self).is_open(d)
                && final(self).cursor(d) == old(self).cursor(d) && final(self).contents(d) == old(self).contents(d),
            forall|d: FileDescriptor<Self::FileSystemData>| #[trigger] final(self).is_open(d) ==> old(self).is_open(d),
    ;

    /// Reads up to `count` bytes from the cursor into the front of `buf` and
    /// returns how many were read; the cursor moves past them.
    fn read_file(
        &mut self,
        descriptor: &mut FileDescriptor<Self::FileSystemData>,
        buf: &mut [u8],
        count: usize,
    ) -> (n: usize)
        requires
            old(self).is_open(*old(descriptor)),
            count <= old(buf)@.len(),
        ensures
            final(self).max_path_len() == old(self).max_path_len(),
            forall|p: Seq<u8>| #[trigger] final(self).file_at(p) == old(self).file_at(p),
            Self::handle(*final(descriptor)) == Self::handle(*old(descriptor)),
            n <= count,
            final(self).is_open(*final(descriptor)),
            final(self).contents(*final(descriptor)) == old(self).contents(*old(descriptor)),
            final(self).cursor(*final(descriptor)) == old(self).cursor(*old(descriptor)) + n,
            final(buf)@.len() == old(buf)@.len(),
            n > 0 ==> old(self).cursor(*old(descriptor)) + n <= old(self).contents(
                *old(descriptor),
            ).len() && final(buf)@.subrange(0, n as int) == old(self).contents(
                *old(descriptor),
            ).subrange(
                old(self).cursor(*old(descriptor)) as int,
                old(self).cursor(*old(descriptor)) + n,
            ),
    ;

    /// Moves the cursor to the absolute byte offset `location`.
    fn seek_file(&mut self, descriptor: &mut FileDescriptor<Self::FileSystemData>, location: u64)
        requires
            old(self).is_open(*old(descriptor)),
        ensures
            final(self).max_path_len() == old(self).max_path_len(),
            forall|p: Seq<u8>| #[trigger] final(self).file_at(p) == old(self).file_at(p),
            Self::handle(*final(descriptor)) == Self::handle(*old(descriptor)),
            final(self).is_open(*final(descriptor)),
            final(self).contents(*final(descriptor)) == old(self).contents(*old(descriptor)),
            final(self).cursor(*final(descriptor)) == location,
    ;

    /// The length of the file in bytes.
    fn get_size(&mut self, descriptor: &mut FileDescriptor<Self::FileSystemData>) -> (r: u64)
        requires
            old(self).is_open(*old(descriptor)),
        ensures
            final(self).max_path_len() == old(self).max_path_len(),
            forall|p: Seq<u8>| #[trigger] final(self).file_at(p) == old(self).file_at(p),
            Self::handle(*final(descriptor)) == Self::handle(*old(descriptor)),
            final(self).is_open(*final(descriptor)),
            final(self).contents(*final(descriptor)) == old(self).contents(*old(descriptor)),
            final(self).cursor(*final(descriptor)) == old(self).cursor(*old(descriptor)),
            r == old(self).contents(*old(descriptor)).len(),
    ;
}

/// Reads from the cursor of `descriptor` until `buf` is full or the file
/// ends, and returns how many bytes arrived; they are the file's bytes from
/// the old cursor on. However many reads that takes, the file's bytes, and
/// so its size, are the same afterwards.
pub fn read_fully<F: FileSystem>(
    fs: &mut F,
    descriptor: &mut FileDescriptor<F::FileSystemData>,
    buf: &mut [u8],
) -> (total: usize)
    requires
        old(fs).is_open(*old(descriptor)),
    ensures
        total <= old(buf)@.len(),
        final(buf)@.len() == old(buf)@.len(),
        final(fs).max_path_len() == old(fs).max_path_len(),
        forall|p: Seq<u8>| #[trigger] final(fs).file_at(p) == old(fs).file_at(p),
        final(fs).is_open(*final(descriptor)),
        final(fs).contents(*final(descriptor)) == old(fs).contents(*old(descriptor)),
        final(fs).cursor(*final(descriptor)) == old(fs).cursor(*old(descriptor)) + total,
        total > 0 ==> old(fs).cursor(*old(descriptor)) + total <= old(fs).contents(
            *old(descriptor),
        ).len() && final(buf)@.subrange(0, total as int) == old(fs).contents(
            *old(descriptor),
        ).subrange(
            old(fs).cursor(*old(descriptor)) as int,
            old(fs).cursor(*old(descriptor)) + total,
        ),
{
    let ghost start = fs.cursor(*descriptor);
    let ghost bytes = fs.contents(*descriptor);
    let mut one: Vec<u8> = Vec::new();
    one.push(0);
    let mut total: usize = 0;
    let mut ended = false;
    while !ended && total < buf.len()
        invariant
            one@.len() == 1,
            total <= buf@.len(),
            buf@.len() == old(buf)@.len(),
            start == old(fs).cursor(*old(descriptor)),
            bytes == old(fs).contents(*old(descriptor)),
            fs.max_path_len() == old(fs).max_path_len(),
            forall|p: Seq<u8>| #[trigger] fs.file_at(p) == old(fs).file_at(p),
            fs.is_open(*descriptor),
            fs.contents(*descriptor) == bytes,
            fs.cursor(*descriptor) == start + total,
            total > 0 ==> start + total <= bytes.len() && buf@.subrange(0, total as int)
                == bytes.subrange(start as int, start + total),
        decreases buf@.len() - total + (if ended {
            0int
        } else {
            1int
        }),
    {
        let n = fs.read_file(descriptor, one.as_mut_slice(), 1);
        if n == 0 {
            ended = true;
        } else {
            assert(one@.subrange(0, 1)[0] == bytes.subrange(start + total, start + total + 1)[0]);
            buf[total] = one[0];
            assert(buf@.subrange(0, total + 1) =~= bytes.subrange(start as int, start + total + 1));
            total = total + 1;
        }
    }
    total
}

} // verus!
