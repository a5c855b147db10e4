//! A filesystem held in memory. It counts every time it reaches its backing
//! store, which stands in for the device of a real driver.
use crate::filesystem::{FileDescriptor, FileSystem, OpenFileError, SLASH};
use vstd::prelude::*;
use vstd::string::StringSliceAdditionalSpecFns;

verus! {

/// A path resolved from the root: one leading `/` is dropped, so absolute
/// and relative paths name the same file.
pub open spec fn rooted(path: Seq<u8>) -> Seq<u8> {
    if path.len() > 0 && path[0] == SLASH {
        path.subrange(1, path.len() as int)
    } else {
        path
    }
}

/// Whether entry `i` is the first one named `name`.
pub open spec fn is_first_match(entries: Seq<(Seq<u8>, Seq<u8>)>, name: Seq<u8>, i: int) -> bool {
    0 <= i < entries.len() && entries[i].0 == name && forall|j: int|
        0 <= j < i ==> #[trigger] entries[j].0 != name
}

/// A count after one more access, held at the largest `u64`.
pub open spec fn one_more(n: nat) -> nat {
    if n < u64::MAX {
        n + 1
    } else {
        n
    }
}

/// The first entry named `name` is unique.
proof fn lemma_first_match_unique(entries: Seq<(Seq<u8>, Seq<u8>)>, name: Seq<u8>, i: int, k: int)
    requires
        is_first_match(entries, name, i),
        is_first_match(entries, name, k),
    ensures
        i == k,
{
    if k < i {
        assert(entries[k].0 != name);
    } else if i < k {
        assert(entries[i].0 != name);
    }
}

/// What a descriptor of a [`MemoryFileSystem`] carries.
#[derive(Clone, Copy, Debug)]
pub struct MemoryFile {
    slot: usize,
    cursor: u64,
    ticket: usize,
}

struct StoredFile {
    name: Vec<u8>,
    body: Vec<u8>,
}

/// Files kept in memory under their rooted paths.
pub struct MemoryFileSystem {
    files: Vec<StoredFile>,
    max_path: usize,
    handles: Vec<bool>,
    device_accesses: u64,
}

/// Where the bytes of `path` from `start` on equal `name`.
fn name_matches(name: &Vec<u8>, path: &[u8], start: usize) -> (r: bool)
    requires
        start <= path@.len(),
    ensures
        r == (name@ == path@.subrange(start as int, path@.len() as int)),
{
    if name.len() != path.len() - start {
        return false;
    }
    let mut i: usize = 0;
    while i < name.len()
        invariant
            start + name@.len() == path.len(),
            0 <= i <= name@.len(),
            forall|k: int| 0 <= k < i ==> name@[k] == path@[start + k],
        decreases name@.len() - i,
    {
        if name[i] != path[start + i] {
            return false;
        }
        i = i + 1;
    }
    assert(name@ =~= path@.subrange(start as int, path@.len() as int));
    true
}

impl MemoryFileSystem {
    /// The files held, as rooted path and bytes, in the order they were added.
    pub closed spec fn entries(&self) -> Seq<(Seq<u8>, Seq<u8>)> {
        self.files@.map_values(|f: StoredFile| (f.name@, f.body@))
    }

    /// How many times the backing store has been reached, saturating at the
    /// largest `u64`.
    pub closed spec fn accesses(&self) -> nat {
        self.device_accesses as nat
    }

    /// An empty filesystem that accepts paths of at most `max_path_len` bytes.
    pub fn new(max_path_len: usize) -> (r: Self)
        ensures
            r.max_path_len() == max_path_len,
            r.entries() == Seq::<(Seq<u8>, Seq<u8>)>::empty(),
            r.accesses() == 0,
            forall|d: FileDescriptor<MemoryFile>| !r.is_open(d),
    {
        let r = MemoryFileSystem {
            files: Vec::new(),
            max_path: max_path_len,
            handles: Vec::new(),
            device_accesses: 0,
        };
        assert(r.entries() =~= Seq::<(Seq<u8>, Seq<u8>)>::empty());
        r
    }

    /// Stores `body` under `path`, resolved from the root. Files already
    /// open are not affected.
    pub fn add_file(&mut self, path: &str, body: Vec<u8>)
        ensures
            final(self).max_path_len() == old(self).max_path_len(),
            final(self).accesses() == old(self).accesses(),
            final(self).entries() == old(self).entries().push((rooted(path.spec_bytes()), body@)),
            forall|d: FileDescriptor<MemoryFile>| #[trigger]
                old(self).is_open(d) ==> final(self).is_open(d) && final(self).cursor(d)
                    == old(self).cursor(d) && final(self).contents(d) == old(self).contents(d),
    {
        let bytes = path.as_bytes();
        let start: usize = if bytes.len() > 0 && bytes[0] == SLASH {
            1
        } else {
            0
        };
        let mut name: Vec<u8> = Vec::new();
        let mut i: usize = start;
        while i < bytes.len()
            invariant
                start <= i <= bytes@.len(),
                name@ == bytes@.subrange(start as int, i as int),
            decreases bytes@.len() - i,
        {
            name.push(bytes[i]);
            assert(bytes@.subrange(start as int, i + 1) == bytes@.subrange(start as int, i as int).push(bytes@[i as int]));
            i = i + 1;
        }
        assert(name@ =~= rooted(bytes@));
        self.files.push(StoredFile { name, body });
        assert(self.entries() =~= old(self).entries().push((rooted(path.spec_bytes()), body@)));
    }

    /// How many times the backing store has been reached.
    pub fn device_accesses(&self) -> (r: u64)
        ensures
            r as nat == self.accesses(),
    {
        self.device_accesses
    }
}

impl FileSystem for MemoryFileSystem {
    type FileSystemData = MemoryFile;

    closed spec fn max_path_len(&self) -> nat {
        self.max_path as nat
    }

    closed spec fn is_open(&self, descriptor: FileDescriptor<MemoryFile>) -> bool {
        descriptor.data.ticket < self.handles@.len() && self.handles@[descriptor.data.ticket as int]
            && descriptor.data.slot < self.files@.len()
    }

    closed spec fn cursor(&self, descriptor: FileDescriptor<MemoryFile>) -> nat {
        descriptor.data.cursor as nat
    }

    closed spec fn handle(descriptor: FileDescriptor<MemoryFile>) -> nat {
        descriptor.data.ticket as nat
    }

    closed spec fn file_at(&self, path: Seq<u8>) -> Option<Seq<u8>> {
        if exists|i: int| is_first_match(self.entries(), rooted(path), i) {
            Some(
                self.entries()[choose|i: int| is_first_match(self.entries(), rooted(path), i)].1,
            )
        } else {
            None
        }
    }

    proof fn lemma_relative_is_absolute(&self, path: Seq<u8>) {
        let absolute = seq![SLASH] + path;
        assert(absolute[0] == SLASH);
        assert(absolute.subrange(1, absolute.len() as int) =~= path);
        assert(rooted(absolute) == rooted(path));
    }

    closed spec fn contents(&self, descriptor: FileDescriptor<MemoryFile>) -> Seq<u8> {
        if descriptor.data.slot < self.files@.len() {
            self.files@[descriptor.data.slot as int].body@
        } else {
            Seq::empty()
        }
    }

    /// Looks `path` up among the entries, first match first; each lookup is
    /// one access.
    fn open_file(&mut self, path: &str) -> (r: Result<FileDescriptor<MemoryFile>, OpenFileError>)
        ensures
            final(self).entries() == old(self).entries(),
            path.spec_bytes().len() <= old(self).max_path_len() ==> final(self).accesses()
                == one_more(old(self).accesses()) && (r is Ok <==> exists|i: int|
                0 <= i < old(self).entries().len() && #[trigger] old(self).entries()[i].0 == rooted(
                    path.spec_bytes(),
                )) && (r is Err ==> r == Err::<FileDescriptor<MemoryFile>, OpenFileError>(
                OpenFileError::FileNotFound,
            )),
            r is Ok ==> exists|i: int|
                is_first_match(old(self).entries(), rooted(path.spec_bytes()), i)
                    && final(self).contents(r->Ok_0) == #[trigger] old(self).entries()[i].1,
    {
        let bytes = path.as_bytes();
        if bytes.len() > self.max_path {
            return Err(OpenFileError::PathTooLong);
        }
        self.device_accesses = self.device_accesses.saturating_add(1);
        let start: usize = if bytes.len() > 0 && bytes[0] == SLASH {
            1
        } else {
            0
        };
        assert(bytes@.subrange(start as int, bytes@.len() as int) =~= rooted(bytes@));
        let mut i: usize = 0;
        while i < self.files.len()
            invariant
                start <= bytes@.len(),
                bytes@ == path.spec_bytes(),
                bytes@.subrange(start as int, bytes@.len() as int) == rooted(bytes@),
                0 <= i <= self.files@.len(),
                self.entries() == old(self).entries(),
                self.device_accesses as nat == one_more(old(self).device_accesses as nat),
                forall|j: int| 0 <= j < i ==> #[trigger] self.entries()[j].0 != rooted(bytes@),
                bytes@.len() <= self.max_path,
                self.files == old(self).files,
                self.handles == old(self).handles,
                self.max_path == old(self).max_path,
            decreases self.files@.len() - i,
        {
            if name_matches(&self.files[i].name, bytes, start) {
                let ticket = self.handles.len();
                self.handles.push(true);
                let data = MemoryFile { slot: i, cursor: 0, ticket };
                let r = FileDescriptor { data: Box::new(data) };
                proof {
                    let name = rooted(path.spec_bytes());
                    assert(self.entries()[i as int].0 == name);
                    assert(is_first_match(old(self).entries(), name, i as int));
                    let k = choose|k: int| is_first_match(old(self).entries(), name, k);
                    lemma_first_match_unique(old(self).entries(), name, i as int, k);
                }
                return Ok(r);
            }
            i = i + 1;
        }
        proof {
            let name = rooted(path.spec_bytes());
            assert forall|k: int| !is_first_match(old(self).entries(), name, k) by {
                if 0 <= k < self.entries().len() {
                    assert(self.entries()[k].0 != name);
                }
            }
        }
        Err(OpenFileError::FileNotFound)
    }

    fn close_file(&mut self, descriptor: FileDescriptor<MemoryFile>) {
        let ticket = descriptor.data.ticket;
        self.handles.set(ticket, false);
        assert(self.entries() =~= old(self).entries());
    }

    fn read_file(
        &mut self,
        descriptor: &mut FileDescriptor<MemoryFile>,
        buf: &mut [u8],
        count: usize,
    ) -> (n: usize)
        ensures
            final(self).entries() == old(self).entries(),
            final(self).accesses() == one_more(old(self).accesses()),
            n == (if old(self).cursor(*old(descriptor)) >= old(self).contents(*old(descriptor)).len() {
                0
            } else if count <= old(self).contents(*old(descriptor)).len() - old(self).cursor(
                *old(descriptor),
            ) {
                count as int
            } else {
                old(self).contents(*old(descriptor)).len() - old(self).cursor(*old(descriptor))
            }),
    {
        let slot = descriptor.data.slot;
        let cursor = descriptor.data.cursor;
        let len = self.files[slot].body.len();
        self.device_accesses = self.device_accesses.saturating_add(1);
        if cursor >= len as u64 {
            assert(self.entries() =~= old(self).entries());
            return 0;
        }
        let start = cursor as usize;
        let available = len - start;
        let n: usize = if count < available {
            count
        } else {
            available
        };
        let mut j: usize = 0;
        while j < n
            invariant
                0 <= j <= n,
                n <= count <= buf@.len(),
                buf@.len() == old(buf)@.len(),
                start + n <= len,
                len == self.files@[slot as int].body@.len(),
                slot < self.files@.len(),
                forall|k: int| 0 <= k < j ==> buf@[k] == self.files@[slot as int].body@[start + k],
            decreases n - j,
        {
            buf[j] = self.files[slot].body[start + j];
            j = j + 1;
        }
        descriptor.data.cursor = cursor + n as u64;
        assert(self.entries() =~= old(self).entries());
        assert(buf@.subrange(0, n as int) =~= self.files@[slot as int].body@.subrange(
            start as int,
            start + n,
        ));
        n
    }

    fn seek_file(&mut self, descriptor: &mut FileDescriptor<MemoryFile>, location: u64) {
        descriptor.data.cursor = location;
    }

    fn get_size(&mut self, descriptor: &mut FileDescriptor<MemoryFile>) -> (r: u64) {
        self.files[descriptor.data.slot].body.len() as u64
    }
}

} // verus!
