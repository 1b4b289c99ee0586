//! System call interface: the syscall numbers and descriptors, the
//! dispatch table, and what each handler does with its arguments.
//!
//! ABI: number in rax, arguments in rdi, rsi, rdx, result in rax.

use vstd::prelude::*;
use crate::vga_console::{VgaConsole, VgaView, ascii_chars, put_str};
use crate::runtime::{IdtEntry};

verus! {

/// Syscall numbers.
pub const SYS_WRITE: u64 = 1;
pub const SYS_READ: u64 = 2;
pub const SYS_EXIT: u64 = 60;

/// File descriptors.
pub const STDIN_FD: u64 = 0;
pub const STDOUT_FD: u64 = 1;
pub const STDERR_FD: u64 = 2;

/// Size of the syscall table.
pub const MAX_SYSCALLS: usize = 128;

/// The value a failed syscall returns (-1).
pub const SYSCALL_ERROR: u64 = 0xFFFF_FFFF_FFFF_FFFF;

/// IDT vector of the syscall gate.
pub const SYSCALL_VECTOR: usize = 0x80;

/// Type attribute of the syscall gate: present, user level, trap gate.
pub const SYSCALL_TYPE_ATTR: u8 = 0xEF;

/// The handlers a syscall number can be bound to.
#[derive(PartialEq, Eq, Structural, Debug, Clone, Copy)]
pub enum SyscallHandler {
    Write,
    Read,
    Exit,
}

/// The syscall table: a handler per number.
pub struct SyscallTable {
    pub handlers: Vec<Option<SyscallHandler>>,
}

impl SyscallTable {
    /// The table with write, read and exit registered.
    pub fn init() -> (r: Self)
        ensures
            r.handlers@.len() == MAX_SYSCALLS,
            forall|i: int|
                0 <= i < MAX_SYSCALLS ==> #[trigger] r.handlers@[i] == (if i == SYS_WRITE {
                    Some(SyscallHandler::Write)
                } else if i == SYS_READ {
                    Some(SyscallHandler::Read)
                } else if i == SYS_EXIT {
                    Some(SyscallHandler::Exit)
                } else {
                    None
                }),
    {
        let mut handlers: Vec<Option<SyscallHandler>> = Vec::new();
        let mut i: usize = 0;
        while i < MAX_SYSCALLS
            invariant
                0 <= i <= MAX_SYSCALLS,
                handlers@.len() == i,
                forall|j: int| 0 <= j < i ==> #[trigger] handlers@[j] == None::<SyscallHandler>,
            decreases MAX_SYSCALLS - i,
        {
            handlers.push(None);
            i = i + 1;
        }
        handlers.set(SYS_WRITE as usize, Some(SyscallHandler::Write));
        handlers.set(SYS_READ as usize, Some(SyscallHandler::Read));
        handlers.set(SYS_EXIT as usize, Some(SyscallHandler::Exit));
        SyscallTable { handlers }
    }

    /// The handler bound to a syscall number, none for a number outside
    /// the table.
    pub fn lookup(&self, syscall_number: u64) -> (r: Option<SyscallHandler>)
        requires
            self.handlers@.len() == MAX_SYSCALLS,
        ensures
            r == (if syscall_number < MAX_SYSCALLS {
                self.handlers@[syscall_number as int]
            } else {
                None
            }),
    {
        if syscall_number < MAX_SYSCALLS as u64 {
            self.handlers[syscall_number as usize]
        } else {
            None
        }
    }
}

/// What `sys_write` returns: an error for a descriptor other than stdout
/// and stderr or a null buffer, else the number of bytes written.
pub open spec fn write_result(fd: u64, buffer: u64, length: u64) -> u64 {
    if fd != STDOUT_FD && fd != STDERR_FD {
        SYSCALL_ERROR
    } else if buffer == 0 {
        SYSCALL_ERROR
    } else {
        length
    }
}

/// `sys_write`: writes the buffer's bytes (`data`, the `length` bytes at
/// `buffer`) to the console, each byte as the character of its code.
pub fn sys_write_handler(console: &mut VgaConsole, fd: u64, buffer: u64, data: &[u8]) -> (r: u64)
    requires
        old(console).wf(),
    ensures
        final(console).wf(),
        r == write_result(fd, buffer, data@.len() as u64),
        (fd == STDOUT_FD || fd == STDERR_FD) && buffer != 0 ==> final(console).view() == put_str(
            old(console).view(),
            ascii_chars(data@),
        ),
        !((fd == STDOUT_FD || fd == STDERR_FD) && buffer != 0) ==> final(console).view() == old(console).view(),
{
    if fd != STDOUT_FD && fd != STDERR_FD {
        return SYSCALL_ERROR;
    }
    if buffer == 0 {
        return SYSCALL_ERROR;
    }
    console.put_bytes(data);
    data.len() as u64
}

/// What `sys_read` does before reading: an error for a descriptor other
/// than stdin or a null buffer, 0 (end of file) for an empty buffer;
/// `None` when a line is to be read into the buffer.
pub fn sys_read_check(fd: u64, buffer: u64, length: u64) -> (r: Option<u64>)
    ensures
        r == (if fd != STDIN_FD {
            Some(SYSCALL_ERROR)
        } else if buffer == 0 {
            Some(SYSCALL_ERROR)
        } else if length == 0 {
            Some(0u64)
        } else {
            None
        }),
{
    if fd != STDIN_FD {
        return Some(SYSCALL_ERROR);
    }
    if buffer == 0 {
        return Some(SYSCALL_ERROR);
    }
    if length == 0 {
        return Some(0);
    }
    None
}

/// "\n*** PROCESS EXITED ***\n"
pub const EXITED_TEXT: [u8; 24] = [10, 42, 42, 42, 32, 80, 82, 79, 67, 69, 83, 83, 32, 69, 88, 73, 84, 69, 68, 32, 42, 42, 42, 10];

/// "Exit code: "
pub const EXIT_CODE_TEXT: [u8; 11] = [69, 120, 105, 116, 32, 99, 111, 100, 101, 58, 32];

/// `sys_exit`'s message: yellow on black, the exit banner, then the exit
/// code in hex and a newline.
pub fn sys_exit_handler(console: &mut VgaConsole, exit_code: u64)
    requires
        old(console).wf(),
    ensures
        final(console).wf(),
        final(console).view() == put_str(
            VgaView { color: 0x0E00, ..old(console).view() },
            ascii_chars(EXITED_TEXT@ + EXIT_CODE_TEXT@ + seq![48u8, 120u8] + crate::fmt::hex_spec(exit_code as nat, 16)
                + seq![10u8]),
        ),
{
    console.set_color(14, 0);
    let ghost v0 = console.view();
    console.put_bytes(&EXITED_TEXT);
    console.put_bytes(&EXIT_CODE_TEXT);
    console.put_hex(exit_code);
    console.put_bytes(&[10]);
    proof {
        lemma_put_str_append(v0, ascii_chars(EXITED_TEXT@), ascii_chars(EXIT_CODE_TEXT@));
        let a = ascii_chars(EXITED_TEXT@) + ascii_chars(EXIT_CODE_TEXT@);
        let h = ascii_chars(seq![48u8, 120u8] + crate::fmt::hex_spec(exit_code as nat, 16));
        lemma_put_str_append(v0, a, h);
        lemma_put_str_append(v0, a + h, ascii_chars([10u8]@));
        assert(ascii_chars(EXITED_TEXT@ + EXIT_CODE_TEXT@ + seq![48u8, 120u8] + crate::fmt::hex_spec(exit_code as nat, 16)
            + seq![10u8]) =~= a + h + ascii_chars([10u8]@));
    }
}

/// Writing two strings one after the other is writing their
/// concatenation.
pub proof fn lemma_put_str_append(v: VgaView, a: Seq<char>, b: Seq<char>)
    ensures
        put_str(put_str(v, a), b) == put_str(v, a + b),
    decreases a.len(),
{
    if a.len() == 0 {
        assert(a + b =~= b);
    } else {
        lemma_put_str_append(crate::vga_console::put_char(v, a[0]), a.drop_first(), b);
        assert((a + b).drop_first() =~= a.drop_first() + b);
    }
}

/// The syscall gate: a user-level trap gate at vector 0x80.
pub fn syscall_gate(handler: u64, selector: u16) -> (r: (usize, IdtEntry))
    ensures
        r.0 == SYSCALL_VECTOR,
        r.1 == IdtEntry::new_spec(handler, selector, SYSCALL_TYPE_ATTR),
{
    (SYSCALL_VECTOR, IdtEntry::new(handler, selector, SYSCALL_TYPE_ATTR))
}

/// "hello\n": what the user test program writes first.
pub const USER_GREETING: [u8; 6] = [104, 101, 108, 108, 111, 10];

/// "You typed: "
pub const USER_ECHO_PREFIX: [u8; 11] = [89, 111, 117, 32, 116, 121, 112, 101, 100, 58, 32];

/// What the user test program writes after reading `n` bytes into its
/// 64-byte buffer: nothing for an empty read, else the prefix, the bytes
/// read and a newline.
pub fn user_echo_output(buffer: &[u8; 64], n: u64) -> (r: Vec<u8>)
    requires
        n <= 64,
    ensures
        n == 0 ==> r@ == Seq::<u8>::empty(),
        n > 0 ==> r@ == USER_ECHO_PREFIX@ + buffer@.subrange(0, n as int) + seq![10u8],
{
    let mut out: Vec<u8> = Vec::new();
    if n > 0 {
        crate::shell::push_bytes(&mut out, &USER_ECHO_PREFIX);
        let mut i: usize = 0;
        let len = n as usize;
        let ghost head = out@;
        while i < len
            invariant
                0 <= i <= len,
                len == n,
                len <= 64,
                out@ == head + buffer@.subrange(0, i as int),
            decreases len - i,
        {
            out.push(buffer[i]);
            i = i + 1;
            assert(out@ =~= head + buffer@.subrange(0, i as int));
        }
        out.push(10);
    }
    out
}

} // verus!
