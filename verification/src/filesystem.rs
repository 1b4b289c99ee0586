//! The embedded filesystem: executables kept in memory by name, in name
//! order, looked up by the last component of a path.

use vstd::prelude::*;
use crate::elf::{SegmentLoad, load_arith_ok, load_outcome};
use crate::runtime::{KernelRuntime, LoadedBinary, Process, ProcessState, first_free_region};

verus! {

/// A file of the embedded filesystem.
#[derive(Clone)]
pub struct FileEntry {
    pub name: String,
    pub data: Vec<u8>,
    pub is_executable: bool,
}

/// Whether name `a` orders strictly before name `b` (by character code,
/// the order of their UTF-8 bytes).
pub open spec fn name_lt(a: Seq<char>, b: Seq<char>) -> bool
    decreases a.len(),
{
    if b.len() == 0 {
        false
    } else if a.len() == 0 {
        true
    } else if (a[0] as int) < (b[0] as int) {
        true
    } else if a[0] == b[0] {
        name_lt(a.drop_first(), b.drop_first())
    } else {
        false
    }
}

/// Files kept in strictly increasing name order, so that no name occurs
/// twice.
pub struct EmbeddedFileSystem {
    pub files: Vec<FileEntry>,
}

/// Index of the last `/` among the first `n` characters, -1 if none.
pub open spec fn last_slash(p: Seq<char>, n: int) -> int
    decreases n,
{
    if n <= 0 {
        -1
    } else if p[n - 1] == '/' {
        n - 1
    } else {
        last_slash(p, n - 1)
    }
}

/// The file name a path names: what follows its last `/`, or the whole
/// path.
pub open spec fn basename(p: Seq<char>) -> Seq<char> {
    p.subrange(last_slash(p, p.len() as int) + 1, p.len() as int)
}

proof fn lemma_last_slash_range(p: Seq<char>, n: int)
    requires
        0 <= n <= p.len(),
    ensures
        -1 <= last_slash(p, n) < n,
        last_slash(p, n) >= 0 ==> p[last_slash(p, n)] == '/',
        forall|j: int| last_slash(p, n) < j < n ==> p[j] != '/',
    decreases n,
{
    if n > 0 {
        lemma_last_slash_range(p, n - 1);
    }
}

/// A path without `/` is its own file name.
proof fn lemma_no_slash(q: Seq<char>, n: int)
    requires
        0 <= n <= q.len(),
        forall|j: int| 0 <= j < n ==> q[j] != '/',
    ensures
        last_slash(q, n) == -1,
    decreases n,
{
    if n > 0 {
        lemma_no_slash(q, n - 1);
    }
}

/// The file name of a file name is itself, so `read` finds the same file
/// for a path and for its last component: it looks only at that
/// component (its contract speaks of the path through `basename` alone).
pub proof fn lemma_basename_idempotent(p: Seq<char>)
    ensures
        basename(basename(p)) == basename(p),
{
    lemma_last_slash_range(p, p.len() as int);
    let q = basename(p);
    let k = last_slash(p, p.len() as int);
    assert forall|j: int| 0 <= j < q.len() implies q[j] != '/' by {
        assert(q[j] == p[k + 1 + j]);
    }
    lemma_no_slash(q, q.len() as int);
    assert(basename(q) =~= q);
}

/// The file name of a path.
pub fn path_basename(path: &str) -> (r: &str)
    ensures
        r@ == basename(path@),
{
    let n = path.unicode_len();
    let mut i: usize = n;
    while i > 0
        invariant
            n == path@.len(),
            0 <= i <= n,
            last_slash(path@, n as int) == last_slash(path@, i as int),
        decreases i,
    {
        if path.get_char(i - 1) == '/' {
            proof {
                lemma_last_slash_range(path@, i as int);
            }
            return path.substring_char(i, n);
        }
        i = i - 1;
    }
    path.substring_char(0, n)
}

/// Whether two strings are the same characters.
pub fn str_eq(a: &str, b: &str) -> (r: bool)
    ensures
        r == (a@ == b@),
{
    let n = a.unicode_len();
    let m = b.unicode_len();
    if n != m {
        return false;
    }
    let mut i: usize = 0;
    while i < n
        invariant
            n == a@.len(),
            n == b@.len(),
            0 <= i <= n,
            forall|j: int| 0 <= j < i ==> a@[j] == b@[j],
        decreases n - i,
    {
        if a.get_char(i) != b.get_char(i) {
            return false;
        }
        i = i + 1;
    }
    assert(a@ =~= b@);
    true
}

/// Whether `a` orders strictly before `b`.
pub fn str_lt(a: &str, b: &str) -> (r: bool)
    ensures
        r == name_lt(a@, b@),
{
    let n = a.unicode_len();
    let m = b.unicode_len();
    let mut i: usize = 0;
    assert(a@.subrange(0, n as int) =~= a@);
    assert(b@.subrange(0, m as int) =~= b@);
    while i < n && i < m
        invariant
            n == a@.len(),
            m == b@.len(),
            0 <= i <= n,
            i <= m,
            forall|j: int| 0 <= j < i ==> a@[j] == b@[j],
            name_lt(a@, b@) == name_lt(a@.subrange(i as int, n as int), b@.subrange(i as int, m as int)),
        decreases n - i,
    {
        let x = a.get_char(i);
        let y = b.get_char(i);
        proof {
            let sa = a@.subrange(i as int, n as int);
            let sb = b@.subrange(i as int, m as int);
            assert(sa.drop_first() =~= a@.subrange(i + 1, n as int));
            assert(sb.drop_first() =~= b@.subrange(i + 1, m as int));
        }
        if (x as u32) < (y as u32) {
            assert((x as int) < (y as int));
            return true;
        }
        if x != y {
            return false;
        }
        i = i + 1;
    }
    i < m && i >= n
}

impl EmbeddedFileSystem {
    /// Names strictly increase along the files.
    pub open spec fn wf(&self) -> bool {
        forall|i: int, j: int|
            0 <= i < j < self.files@.len() ==> name_lt(#[trigger] self.files@[i].name@, #[trigger] self.files@[j].name@)
    }

    /// The names of the files, in order.
    pub open spec fn names(&self) -> Seq<Seq<char>> {
        self.files@.map_values(|e: FileEntry| e.name@)
    }

    /// The filesystem with the built-in programs: `echo`, `hello`, `test`
    /// and `version`.
    pub fn new() -> (r: Self)
        ensures
            r.wf(),
            r.files@.len() == 4,
            r.files@[0].name@ == "echo"@ && r.files@[0].data@ == echo_image() && r.files@[0].is_executable,
            r.files@[1].name@ == "hello"@ && r.files@[1].data@ == hello_image() && r.files@[1].is_executable,
            r.files@[2].name@ == "test"@ && r.files@[2].data@ == test_image() && r.files@[2].is_executable,
            r.files@[3].name@ == "version"@ && r.files@[3].data@ == version_image() && r.files@[3].is_executable,
    {
        proof {
            reveal_strlit("echo");
            reveal_strlit("hello");
            reveal_strlit("test");
            reveal_strlit("version");
        }
        let mut fs = EmbeddedFileSystem { files: Vec::new() };
        fs.add_test_binaries();
        fs
    }

    /// Adds the built-in programs, in name order.
    fn add_test_binaries(&mut self)
        requires
            old(self).files@.len() == 0,
        ensures
            final(self).wf(),
            final(self).files@.len() == 4,
            final(self).files@[0].name@ == "echo"@ && final(self).files@[0].data@ == echo_image() && final(self).files@[0].is_executable,
            final(self).files@[1].name@ == "hello"@ && final(self).files@[1].data@ == hello_image() && final(self).files@[1].is_executable,
            final(self).files@[2].name@ == "test"@ && final(self).files@[2].data@ == test_image() && final(self).files@[2].is_executable,
            final(self).files@[3].name@ == "version"@ && final(self).files@[3].data@ == version_image()
                && final(self).files@[3].is_executable,
    {
        proof {
            reveal_strlit("echo");
            reveal_strlit("hello");
            reveal_strlit("test");
            reveal_strlit("version");
        }
        self.files.push(FileEntry { name: "echo".to_owned(), data: create_echo_elf(), is_executable: true });
        self.files.push(FileEntry { name: "hello".to_owned(), data: create_hello_elf(), is_executable: true });
        self.files.push(FileEntry { name: "test".to_owned(), data: create_test_elf(), is_executable: true });
        self.files.push(FileEntry { name: "version".to_owned(), data: create_version_elf(), is_executable: true });
        proof {
            let f = self.files@;
            assert(name_lt(f[0].name@, f[1].name@));
            assert(name_lt(f[0].name@, f[2].name@));
            assert(name_lt(f[0].name@, f[3].name@));
            assert(name_lt(f[1].name@, f[2].name@));
            assert(name_lt(f[1].name@, f[3].name@));
            assert(name_lt(f[2].name@, f[3].name@));
        }
    }
}

/// The ELF header, program header and code of the built-in `hello`
/// program (it prints "Hello from userspace!").
pub const HELLO_PREFIX: [u8; 224] = [
    127, 69, 76, 70, 2, 1, 1, 0, 0, 0, 0, 0, 0, 0, 0, 0,
    2, 0, 62, 0, 1, 0, 0, 0, 0, 0, 16, 0, 0, 0, 0, 0,
    64, 0, 0, 0, 0, 0, 0, 0, 0, 0, 0, 0, 0, 0, 0, 0,
    0, 0, 0, 0, 0, 0, 0, 0, 0, 0, 0, 0, 0, 0, 0, 0,
    0, 0, 0, 0, 0, 0, 0, 0, 0, 0, 0, 0, 0, 0, 0, 0,
    0, 0, 0, 0, 0, 0, 0, 0, 0, 0, 0, 0, 0, 0, 0, 0,
    0, 0, 0, 0, 0, 0, 0, 0, 1, 0, 0, 0, 5, 0, 0, 0,
    0, 16, 0, 0, 0, 0, 0, 0, 0, 0, 16, 0, 0, 0, 0, 0,
    0, 0, 16, 0, 0, 0, 0, 0, 32, 0, 0, 0, 0, 0, 0, 0,
    32, 0, 0, 0, 0, 0, 0, 0, 16, 0, 0, 0, 0, 0, 0, 0,
    72, 199, 192, 1, 0, 0, 0, 72, 199, 199, 1, 0, 0, 0, 72, 141,
    53, 18, 0, 0, 0, 72, 199, 194, 20, 0, 0, 0, 15, 5, 72, 199,
    192, 60, 0, 0, 0, 72, 49, 255, 15, 5, 72, 101, 108, 108, 111, 32,
    102, 114, 111, 109, 32, 117, 115, 101, 114, 115, 112, 97, 99, 101, 33, 10,
];

/// Size of a built-in program image: one page.
pub const PROGRAM_IMAGE_SIZE: usize = 4096;

/// Messages the other built-in programs carry.
pub const ECHO_MESSAGE: [u8; 36] = [
    69, 99, 104, 111, 58, 32, 97, 114, 103, 117, 109, 101, 110, 116, 115, 32,
    110, 111, 116, 32, 121, 101, 116, 32, 105, 109, 112, 108, 101, 109, 101, 110,
    116, 101, 100, 10,
];

pub const TEST_MESSAGE: [u8; 30] = [
    84, 101, 115, 116, 58, 32, 65, 108, 108, 32, 115, 121, 115, 116, 101, 109,
    115, 32, 111, 112, 101, 114, 97, 116, 105, 111, 110, 97, 108, 10,
];

pub const VERSION_MESSAGE: [u8; 25] = [
    85, 115, 101, 114, 115, 112, 97, 99, 101, 32, 80, 114, 111, 103, 114, 97,
    109, 32, 118, 49, 46, 48, 46, 48, 10,
];

/// The `hello` image: its prefix, then zeros up to one page.
pub open spec fn hello_image() -> Seq<u8> {
    HELLO_PREFIX@ + Seq::new((PROGRAM_IMAGE_SIZE - 224) as nat, |i: int| 0u8)
}

/// Offset of the `hello` image's message text, after its ELF header (104
/// bytes), program header (56 bytes) and code (42 bytes).
pub const MESSAGE_OFFSET: usize = 202;

/// An image derived from `hello`: the same headers and code, with its
/// message text replaced by `msg`.
pub open spec fn message_image(msg: Seq<u8>) -> Seq<u8> {
    hello_image().subrange(0, MESSAGE_OFFSET as int) + msg + hello_image().subrange(
        MESSAGE_OFFSET + msg.len(),
        PROGRAM_IMAGE_SIZE as int,
    )
}

/// What the derived images keep of `hello`: one page that starts with the
/// ELF magic and carries hello's ELF and program headers (the first 160
/// bytes) unchanged.
pub open spec fn keeps_hello_headers(image: Seq<u8>) -> bool {
    &&& image.len() == PROGRAM_IMAGE_SIZE
    &&& image.subrange(0, 4) == seq![0x7fu8, 0x45u8, 0x4cu8, 0x46u8]
    &&& image.subrange(0, 160) == hello_image().subrange(0, 160)
}

pub open spec fn echo_image() -> Seq<u8> {
    message_image(ECHO_MESSAGE@)
}

pub open spec fn test_image() -> Seq<u8> {
    message_image(TEST_MESSAGE@)
}

pub open spec fn version_image() -> Seq<u8> {
    message_image(VERSION_MESSAGE@)
}

/// Builds the `hello` program image.
pub fn create_hello_elf() -> (r: Vec<u8>)
    ensures
        r@ == hello_image(),
{
    let mut elf: Vec<u8> = Vec::new();
    let mut i: usize = 0;
    while i < 224
        invariant
            0 <= i <= 224,
            elf@ == HELLO_PREFIX@.subrange(0, i as int),
        decreases 224 - i,
    {
        elf.push(HELLO_PREFIX[i]);
        i = i + 1;
    }
    while elf.len() < PROGRAM_IMAGE_SIZE
        invariant
            224 <= elf@.len() <= PROGRAM_IMAGE_SIZE,
            elf@ == HELLO_PREFIX@ + Seq::new((elf@.len() - 224) as nat, |i: int| 0u8),
        decreases PROGRAM_IMAGE_SIZE - elf@.len(),
    {
        elf.push(0);
        assert(elf@ =~= HELLO_PREFIX@ + Seq::new((elf@.len() - 224) as nat, |i: int| 0u8));
    }
    elf
}

/// A `hello` image with its message text replaced by `message`.
fn image_with_message(message: &[u8]) -> (r: Vec<u8>)
    requires
        message@.len() <= PROGRAM_IMAGE_SIZE - MESSAGE_OFFSET,
    ensures
        r@ == message_image(message@),
        keeps_hello_headers(r@),
{
    let mut elf = create_hello_elf();
    let mut i: usize = 0;
    while i < message.len()
        invariant
            elf@.len() == PROGRAM_IMAGE_SIZE,
            0 <= i <= message@.len(),
            message@.len() <= PROGRAM_IMAGE_SIZE - MESSAGE_OFFSET,
            elf@ == hello_image().subrange(0, MESSAGE_OFFSET as int) + message@.subrange(0, i as int)
                + hello_image().subrange(MESSAGE_OFFSET + i, PROGRAM_IMAGE_SIZE as int),
        decreases message@.len() - i,
    {
        elf.set(MESSAGE_OFFSET + i, message[i]);
        i = i + 1;
        assert(elf@ =~= hello_image().subrange(0, MESSAGE_OFFSET as int) + message@.subrange(0, i as int)
            + hello_image().subrange(MESSAGE_OFFSET + i, PROGRAM_IMAGE_SIZE as int));
    }
    assert(message@.subrange(0, message@.len() as int) =~= message@);
    assert(elf@.subrange(0, 160) =~= hello_image().subrange(0, 160));
    assert(elf@.subrange(0, 4) =~= seq![0x7fu8, 0x45u8, 0x4cu8, 0x46u8]);
    elf
}

/// Builds the `echo` program image.
pub fn create_echo_elf() -> (r: Vec<u8>)
    ensures
        r@ == echo_image(),
        keeps_hello_headers(r@),
{
    image_with_message(&ECHO_MESSAGE)
}

/// Builds the `test` program image.
pub fn create_test_elf() -> (r: Vec<u8>)
    ensures
        r@ == test_image(),
        keeps_hello_headers(r@),
{
    image_with_message(&TEST_MESSAGE)
}

/// Builds the `version` program image.
pub fn create_version_elf() -> (r: Vec<u8>)
    ensures
        r@ == version_image(),
        keeps_hello_headers(r@),
{
    image_with_message(&VERSION_MESSAGE)
}

impl EmbeddedFileSystem {
    /// The file a path names (by its last component).
    pub fn read(&self, path: &str) -> (r: Option<&FileEntry>)
        ensures
            match r {
                Some(e) => exists|i: int|
                    0 <= i < self.files@.len() && self.files@[i] == *e && e.name@ == basename(path@) && forall|j: int|
                        0 <= j < i ==> (#[trigger] self.files@[j]).name@ != basename(path@),
                None => forall|i: int| 0 <= i < self.files@.len() ==> (#[trigger] self.files@[i]).name@ != basename(path@),
            },
    {
        let filename = path_basename(path);
        let mut i: usize = 0;
        while i < self.files.len()
            invariant
                filename@ == basename(path@),
                0 <= i <= self.files@.len(),
                forall|j: int| 0 <= j < i ==> (#[trigger] self.files@[j]).name@ != basename(path@),
            decreases self.files@.len() - i,
        {
            if str_eq(self.files[i].name.as_str(), filename) {
                assert(self.files@[i as int] == self.files[i as int]);
                return Some(&self.files[i]);
            }
            i = i + 1;
        }
        None
    }

    /// The names of all files, in order.
    pub fn list(&self) -> (r: Vec<&str>)
        ensures
            r@.len() == self.files@.len(),
            forall|i: int| 0 <= i < r@.len() ==> (#[trigger] r@[i])@ == self.files@[i].name@,
    {
        let mut v: Vec<&str> = Vec::new();
        let mut i: usize = 0;
        while i < self.files.len()
            invariant
                0 <= i <= self.files@.len(),
                v@.len() == i,
                forall|j: int| 0 <= j < i ==> (#[trigger] v@[j])@ == self.files@[j].name@,
            decreases self.files@.len() - i,
        {
            v.push(self.files[i].name.as_str());
            i = i + 1;
        }
        v
    }

    /// Whether a path names a file.
    pub fn file_exists(&self, path: &str) -> (r: bool)
        ensures
            r == exists|i: int| 0 <= i < self.files@.len() && (#[trigger] self.files@[i]).name@ == basename(path@),
    {
        self.read(path).is_some()
    }
}


/// What running a file gives: refused unless executable, else the load
/// outcome, with a ready process for the loaded binary named by the path.
pub open spec fn run_outcome(
    e: FileEntry,
    free: Option<u64>,
    path: Seq<char>,
    pid: u64,
    r: Result<(Process, LoadedBinary, Vec<SegmentLoad>), &'static str>,
) -> bool {
    if !e.is_executable {
        (r matches Err(m) && m@ == "File is not executable"@)
    } else {
        match load_outcome(e.data@, free) {
            Err(m2) => (r matches Err(m) && m@ == m2@),
            Ok((b, segs)) => (r matches Ok((p, b2, v)) && b2 == b && v@ == segs && p.pid == pid && p.name@ == path
                && p.state == ProcessState::Ready && p.entry_point == b.entry_point && p.base_address
                == b.base_address),
        }
    }
}

impl KernelRuntime {
    /// Runs the executable a path names from the embedded filesystem:
    /// loads it and creates its process. Returns the process, where the
    /// binary goes and the segments to place.
    pub fn execute(&mut self, fs: Option<&EmbeddedFileSystem>, path: &str) -> (r: Result<
        (Process, LoadedBinary, Vec<SegmentLoad>),
        &'static str,
    >)
        requires
            old(self).next_pid < u64::MAX,
            fs matches Some(f) ==> forall|i: int|
                0 <= i < f.files@.len() ==> load_arith_ok(
                    (#[trigger] f.files@[i]).data@,
                    first_free_region(old(self).memory_map@, 256),
                ),
        ensures
            final(self).memory_map@ == old(self).memory_map@,
            final(self).next_pid == (if r is Ok { old(self).next_pid + 1 } else { old(self).next_pid as int }),
            fs is None ==> (r matches Err(m) && m@ == "Filesystem not initialized"@),
            fs matches Some(f) ==> (forall|i: int|
                0 <= i < f.files@.len() ==> (#[trigger] f.files@[i]).name@ != basename(path@)) ==> (r matches Err(
                m,
            ) && m@ == "File not found"@),
            fs matches Some(f) ==> forall|i: int|
                0 <= i < f.files@.len() && f.wf() && (#[trigger] f.files@[i]).name@ == basename(path@) ==> run_outcome(
                    f.files@[i],
                    first_free_region(old(self).memory_map@, 256),
                    path@,
                    old(self).next_pid,
                    r,
                ),
    {
        let filesystem = match fs {
            Some(f) => f,
            None => {
                return Err("Filesystem not initialized");
            },
        };
        let file = match filesystem.read(path) {
            Some(e) => e,
            None => {
                return Err("File not found");
            },
        };
        proof {
            let k = choose|k: int|
                0 <= k < filesystem.files@.len() && filesystem.files@[k] == *file && file.name@ == basename(path@);
            assert forall|i: int|
                0 <= i < filesystem.files@.len() && filesystem.wf() && (#[trigger] filesystem.files@[i]).name@
                    == basename(path@) implies filesystem.files@[i] == *file by {
                if i < k {
                    assert(name_lt(filesystem.files@[i].name@, filesystem.files@[k].name@));
                    lemma_name_lt_irrefl(filesystem.files@[k].name@);
                } else if i > k {
                    assert(name_lt(filesystem.files@[k].name@, filesystem.files@[i].name@));
                    lemma_name_lt_irrefl(filesystem.files@[k].name@);
                }
            }
            assert(load_arith_ok(file.data@, first_free_region(self.memory_map@, 256)));
        }
        if !file.is_executable {
            return Err("File is not executable");
        }
        let data = file.data.as_slice();
        let loaded = self.load_elf(data);
        match loaded {
            Err(m) => Err(m),
            Ok((binary, segments)) => {
                let process = self.create_process(path, binary.entry_point, binary.base_address);
                Ok((process, binary, segments))
            },
        }
    }
}

/// No two files of a well-formed filesystem share a name, so a path
/// names at most one file.
pub proof fn lemma_names_distinct(fs: &EmbeddedFileSystem, i: int, j: int)
    requires
        fs.wf(),
        0 <= i < fs.files@.len(),
        0 <= j < fs.files@.len(),
        i != j,
    ensures
        fs.files@[i].name@ != fs.files@[j].name@,
{
    lemma_name_lt_irrefl(fs.files@[i].name@);
    lemma_name_lt_irrefl(fs.files@[j].name@);
}

/// Name order is irreflexive.
pub proof fn lemma_name_lt_irrefl(a: Seq<char>)
    ensures
        !name_lt(a, a),
    decreases a.len(),
{
    if a.len() > 0 {
        lemma_name_lt_irrefl(a.drop_first());
    }
}

} // verus!
