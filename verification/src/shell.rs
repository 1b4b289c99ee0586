//! The run-time shell: its built-in command table, the tokenizing of an
//! input line, command lookup, and the text each command prints.

use vstd::prelude::*;
use crate::runtime::BumpAllocator;

verus! {

/// Size of the line buffer.
pub const COMMAND_BUFFER_SIZE: usize = 256;

/// The built-in commands, in table order.
#[derive(PartialEq, Eq, Structural, Debug, Clone, Copy)]
pub enum ShellCommand {
    Help,
    Clear,
    Echo,
    Info,
    Mem,
    Irq,
    Kbd,
    Pic,
    Flush,
}

/// Number of built-in commands.
pub const COMMAND_COUNT: usize = 9;

/// The command at a position of the table.
pub open spec fn command_at_spec(i: int) -> ShellCommand {
    if i == 0 {
        ShellCommand::Help
    } else if i == 1 {
        ShellCommand::Clear
    } else if i == 2 {
        ShellCommand::Echo
    } else if i == 3 {
        ShellCommand::Info
    } else if i == 4 {
        ShellCommand::Mem
    } else if i == 5 {
        ShellCommand::Irq
    } else if i == 6 {
        ShellCommand::Kbd
    } else if i == 7 {
        ShellCommand::Pic
    } else {
        ShellCommand::Flush
    }
}

/// The command at position `i` of the table.
pub fn command_at(i: usize) -> (r: ShellCommand)
    requires
        i < COMMAND_COUNT,
    ensures
        r == command_at_spec(i as int),
{
    match i {
        0 => ShellCommand::Help,
        1 => ShellCommand::Clear,
        2 => ShellCommand::Echo,
        3 => ShellCommand::Info,
        4 => ShellCommand::Mem,
        5 => ShellCommand::Irq,
        6 => ShellCommand::Kbd,
        7 => ShellCommand::Pic,
        _ => ShellCommand::Flush,
    }
}

/// "help"
pub const NAME_HELP: [u8; 4] = [104, 101, 108, 112];

/// "Show this help message"
pub const DESC_HELP: [u8; 22] = [83, 104, 111, 119, 32, 116, 104, 105, 115, 32, 104, 101, 108, 112, 32, 109, 101, 115, 115, 97, 103, 101];

/// "clear"
pub const NAME_CLEAR: [u8; 5] = [99, 108, 101, 97, 114];

/// "Clear the screen"
pub const DESC_CLEAR: [u8; 16] = [67, 108, 101, 97, 114, 32, 116, 104, 101, 32, 115, 99, 114, 101, 101, 110];

/// "echo"
pub const NAME_ECHO: [u8; 4] = [101, 99, 104, 111];

/// "Echo arguments to console"
pub const DESC_ECHO: [u8; 25] = [69, 99, 104, 111, 32, 97, 114, 103, 117, 109, 101, 110, 116, 115, 32, 116, 111, 32, 99, 111, 110, 115, 111, 108, 101];

/// "info"
pub const NAME_INFO: [u8; 4] = [105, 110, 102, 111];

/// "Show system information"
pub const DESC_INFO: [u8; 23] = [83, 104, 111, 119, 32, 115, 121, 115, 116, 101, 109, 32, 105, 110, 102, 111, 114, 109, 97, 116, 105, 111, 110];

/// "mem"
pub const NAME_MEM: [u8; 3] = [109, 101, 109];

/// "Show memory information"
pub const DESC_MEM: [u8; 23] = [83, 104, 111, 119, 32, 109, 101, 109, 111, 114, 121, 32, 105, 110, 102, 111, 114, 109, 97, 116, 105, 111, 110];

/// "irq"
pub const NAME_IRQ: [u8; 3] = [105, 114, 113];

/// "Show keyboard IRQ debug info"
pub const DESC_IRQ: [u8; 28] = [83, 104, 111, 119, 32, 107, 101, 121, 98, 111, 97, 114, 100, 32, 73, 82, 81, 32, 100, 101, 98, 117, 103, 32, 105, 110, 102, 111];

/// "kbd"
pub const NAME_KBD: [u8; 3] = [107, 98, 100];

/// "Test keyboard input (non-blocking)"
pub const DESC_KBD: [u8; 34] = [84, 101, 115, 116, 32, 107, 101, 121, 98, 111, 97, 114, 100, 32, 105, 110, 112, 117, 116, 32, 40, 110, 111, 110, 45, 98, 108, 111, 99, 107, 105, 110, 103, 41];

/// "pic"
pub const NAME_PIC: [u8; 3] = [112, 105, 99];

/// "Show PIC configuration"
pub const DESC_PIC: [u8; 22] = [83, 104, 111, 119, 32, 80, 73, 67, 32, 99, 111, 110, 102, 105, 103, 117, 114, 97, 116, 105, 111, 110];

/// "flush"
pub const NAME_FLUSH: [u8; 5] = [102, 108, 117, 115, 104];

/// "Flush keyboard buffer (fixes stale keys)"
pub const DESC_FLUSH: [u8; 40] = [70, 108, 117, 115, 104, 32, 107, 101, 121, 98, 111, 97, 114, 100, 32, 98, 117, 102, 102, 101, 114, 32, 40, 102, 105, 120, 101, 115, 32, 115, 116, 97, 108, 101, 32, 107, 101, 121, 115, 41];

/// Name of a built-in command.
pub open spec fn command_name_spec(c: ShellCommand) -> Seq<u8> {
    match c {
        ShellCommand::Help => NAME_HELP@,
        ShellCommand::Clear => NAME_CLEAR@,
        ShellCommand::Echo => NAME_ECHO@,
        ShellCommand::Info => NAME_INFO@,
        ShellCommand::Mem => NAME_MEM@,
        ShellCommand::Irq => NAME_IRQ@,
        ShellCommand::Kbd => NAME_KBD@,
        ShellCommand::Pic => NAME_PIC@,
        ShellCommand::Flush => NAME_FLUSH@,
    }
}

/// Description of a built-in command.
pub open spec fn command_description_spec(c: ShellCommand) -> Seq<u8> {
    match c {
        ShellCommand::Help => DESC_HELP@,
        ShellCommand::Clear => DESC_CLEAR@,
        ShellCommand::Echo => DESC_ECHO@,
        ShellCommand::Info => DESC_INFO@,
        ShellCommand::Mem => DESC_MEM@,
        ShellCommand::Irq => DESC_IRQ@,
        ShellCommand::Kbd => DESC_KBD@,
        ShellCommand::Pic => DESC_PIC@,
        ShellCommand::Flush => DESC_FLUSH@,
    }
}

/// Looking up the name of a built-in command finds that command: every
/// command stands in the table, and no two commands share a name.
pub proof fn lemma_lookup_own_name(c: ShellCommand)
    ensures
        exists|i: int| 0 <= i < COMMAND_COUNT && command_at_spec(i) == c,
        forall|d: ShellCommand| #[trigger] command_name_spec(d) == command_name_spec(c) ==> d == c,
{
    let i: int = match c {
        ShellCommand::Help => 0,
        ShellCommand::Clear => 1,
        ShellCommand::Echo => 2,
        ShellCommand::Info => 3,
        ShellCommand::Mem => 4,
        ShellCommand::Irq => 5,
        ShellCommand::Kbd => 6,
        ShellCommand::Pic => 7,
        ShellCommand::Flush => 8,
    };
    assert(command_at_spec(i) == c);
    assert forall|d: ShellCommand| #[trigger] command_name_spec(d) == command_name_spec(c) implies d == c by {
        let nd = command_name_spec(d);
        let nc = command_name_spec(c);
        assert(nd.len() == nc.len());
        assert(nd[0] == nc[0]);
    }
}

/// The name of a built-in command.
pub fn command_name(c: ShellCommand) -> (r: &'static [u8])
    ensures
        r@ == command_name_spec(c),
{
    match c {
        ShellCommand::Help => &NAME_HELP,
        ShellCommand::Clear => &NAME_CLEAR,
        ShellCommand::Echo => &NAME_ECHO,
        ShellCommand::Info => &NAME_INFO,
        ShellCommand::Mem => &NAME_MEM,
        ShellCommand::Irq => &NAME_IRQ,
        ShellCommand::Kbd => &NAME_KBD,
        ShellCommand::Pic => &NAME_PIC,
        ShellCommand::Flush => &NAME_FLUSH,
    }
}

/// The description of a built-in command.
pub fn command_description(c: ShellCommand) -> (r: &'static [u8])
    ensures
        r@ == command_description_spec(c),
{
    match c {
        ShellCommand::Help => &DESC_HELP,
        ShellCommand::Clear => &DESC_CLEAR,
        ShellCommand::Echo => &DESC_ECHO,
        ShellCommand::Info => &DESC_INFO,
        ShellCommand::Mem => &DESC_MEM,
        ShellCommand::Irq => &DESC_IRQ,
        ShellCommand::Kbd => &DESC_KBD,
        ShellCommand::Pic => &DESC_PIC,
        ShellCommand::Flush => &DESC_FLUSH,
    }
}

/// 'Rustux Kernel v0.1.0\nArchitecture: x86_64\nMode: Runtime (UEFI boot services exited)\nConsole: Framebuffer text mode\n'
pub const INFO_TEXT: [u8; 115] = [82, 117, 115, 116, 117, 120, 32, 75, 101, 114, 110, 101, 108, 32, 118, 48, 46, 49, 46, 48, 10, 65, 114, 99, 104, 105, 116, 101, 99, 116, 117, 114, 101, 58, 32, 120, 56, 54, 95, 54, 52, 10, 77, 111, 100, 101, 58, 32, 82, 117, 110, 116, 105, 109, 101, 32, 40, 85, 69, 70, 73, 32, 98, 111, 111, 116, 32, 115, 101, 114, 118, 105, 99, 101, 115, 32, 101, 120, 105, 116, 101, 100, 41, 10, 67, 111, 110, 115, 111, 108, 101, 58, 32, 70, 114, 97, 109, 101, 98, 117, 102, 102, 101, 114, 32, 116, 101, 120, 116, 32, 109, 111, 100, 101, 10];

/// 'Available commands:\n'
pub const HELP_HEADER: [u8; 20] = [65, 118, 97, 105, 108, 97, 98, 108, 101, 32, 99, 111, 109, 109, 97, 110, 100, 115, 58, 10];

/// 'Memory Information:\n'
pub const MEM_HEADER: [u8; 20] = [77, 101, 109, 111, 114, 121, 32, 73, 110, 102, 111, 114, 109, 97, 116, 105, 111, 110, 58, 10];

/// '  Kernel heap available: '
pub const MEM_AVAILABLE: [u8; 25] = [32, 32, 75, 101, 114, 110, 101, 108, 32, 104, 101, 97, 112, 32, 97, 118, 97, 105, 108, 97, 98, 108, 101, 58, 32];

/// 'OK (>1MB)\n'
pub const MEM_OK_BIG: [u8; 10] = [79, 75, 32, 40, 62, 49, 77, 66, 41, 10];

/// 'OK (<1MB)\n'
pub const MEM_OK_SMALL: [u8; 10] = [79, 75, 32, 40, 60, 49, 77, 66, 41, 10];

/// 'LOW\n'
pub const MEM_LOW: [u8; 4] = [76, 79, 87, 10];

/// '  Allocator: Not initialized\n'
pub const MEM_NO_ALLOC: [u8; 29] = [32, 32, 65, 108, 108, 111, 99, 97, 116, 111, 114, 58, 32, 78, 111, 116, 32, 105, 110, 105, 116, 105, 97, 108, 105, 122, 101, 100, 10];

/// 'Unknown command: '
pub const UNKNOWN_PREFIX: [u8; 17] = [85, 110, 107, 110, 111, 119, 110, 32, 99, 111, 109, 109, 97, 110, 100, 58, 32];

/// "Type 'help' for available commands."
pub const HELP_HINT: [u8; 35] = [84, 121, 112, 101, 32, 39, 104, 101, 108, 112, 39, 32, 102, 111, 114, 32, 97, 118, 97, 105, 108, 97, 98, 108, 101, 32, 99, 111, 109, 109, 97, 110, 100, 115, 46];

/// Whether two byte strings are equal.
pub fn bytes_eq(a: &[u8], b: &[u8]) -> (r: bool)
    ensures
        r == (a@ == b@),
{
    if a.len() != b.len() {
        return false;
    }
    let mut i: usize = 0;
    while i < a.len()
        invariant
            a@.len() == b@.len(),
            0 <= i <= a@.len(),
            forall|j: int| 0 <= j < i ==> a@[j] == b@[j],
        decreases a@.len() - i,
    {
        if a[i] != b[i] {
            return false;
        }
        i = i + 1;
    }
    assert(a@ =~= b@);
    true
}

/// The first command of the table with this name.
pub fn find_command(name: &[u8]) -> (r: Option<ShellCommand>)
    ensures
        match r {
            Some(c) => command_name_spec(c) == name@ && exists|i: int|
                0 <= i < COMMAND_COUNT && command_at_spec(i) == c && forall|j: int|
                    0 <= j < i ==> command_name_spec(#[trigger] command_at_spec(j)) != name@,
            None => forall|j: int| 0 <= j < COMMAND_COUNT ==> command_name_spec(#[trigger] command_at_spec(j)) != name@,
        },
{
    let mut i: usize = 0;
    while i < COMMAND_COUNT
        invariant
            0 <= i <= COMMAND_COUNT,
            forall|j: int| 0 <= j < i ==> command_name_spec(#[trigger] command_at_spec(j)) != name@,
        decreases COMMAND_COUNT - i,
    {
        let c = command_at(i);
        if bytes_eq(command_name(c), name) {
            return Some(c);
        }
        i = i + 1;
    }
    None
}

/// ASCII whitespace: space, tab, line feed, vertical tab, form feed,
/// carriage return.
pub open spec fn is_ws(b: u8) -> bool {
    b == 32 || b == 9 || b == 10 || b == 11 || b == 12 || b == 13
}

/// Whether a byte is ASCII whitespace.
pub fn is_whitespace(b: u8) -> (r: bool)
    ensures
        r == is_ws(b),
{
    b == 32 || b == 9 || b == 10 || b == 11 || b == 12 || b == 13
}

/// Whether `t` lists the words of `s`: the maximal runs of bytes other
/// than whitespace, in order, each as its start and end.
pub open spec fn words_of(s: Seq<u8>, t: Seq<(usize, usize)>) -> bool {
    &&& forall|k: int| 0 <= k < t.len() ==> (#[trigger] t[k]).0 < t[k].1 <= s.len()
    &&& forall|k: int, i: int| #![trigger t[k], s[i]] 0 <= k < t.len() && t[k].0 <= i < t[k].1 ==> !is_ws(s[i])
    &&& forall|k: int| 0 <= k < t.len() ==> (#[trigger] t[k]).0 == 0 || is_ws(s[t[k].0 - 1])
    &&& forall|k: int| 0 <= k < t.len() ==> (#[trigger] t[k]).1 == s.len() || is_ws(s[t[k].1 as int])
    &&& forall|k: int| 0 <= k < t.len() - 1 ==> (#[trigger] t[k]).1 < t[k + 1].0
    &&& forall|i: int| 0 <= i < s.len() && !is_ws(#[trigger] s[i]) ==> exists|k: int|
        0 <= k < t.len() && (#[trigger] t[k]).0 <= i < t[k].1
}

/// The words of a line (what `split_whitespace` gives on ASCII text).
pub fn split_whitespace(s: &[u8]) -> (r: Vec<(usize, usize)>)
    ensures
        words_of(s@, r@),
{
    let n = s.len();
    let mut toks: Vec<(usize, usize)> = Vec::new();
    let mut start: usize = 0;
    let mut inside = false;
    let mut i: usize = 0;
    while i < n
        invariant
            n == s@.len(),
            0 <= i <= n,
            forall|k: int| 0 <= k < toks@.len() ==> (#[trigger] toks@[k]).0 < toks@[k].1 < i,
            forall|k: int, j: int| #![trigger toks@[k], s@[j]] 0 <= k < toks@.len() && toks@[k].0 <= j < toks@[k].1 ==> !is_ws(s@[j]),
            forall|k: int| 0 <= k < toks@.len() ==> (#[trigger] toks@[k]).0 == 0 || is_ws(s@[toks@[k].0 - 1]),
            forall|k: int| 0 <= k < toks@.len() ==> is_ws(s@[(#[trigger] toks@[k]).1 as int]),
            forall|k: int| 0 <= k < toks@.len() - 1 ==> (#[trigger] toks@[k]).1 < toks@[k + 1].0,
            inside ==> start < i && (start == 0 || is_ws(s@[start - 1])) && (forall|j: int|
                start <= j < i ==> !is_ws(#[trigger] s@[j])) && (toks@.len() > 0 ==> toks@.last().1 < start),
            !inside && i > 0 ==> is_ws(s@[i - 1]),
            forall|j: int|
                0 <= j < i && !is_ws(#[trigger] s@[j]) ==> (exists|k: int|
                    0 <= k < toks@.len() && (#[trigger] toks@[k]).0 <= j < toks@[k].1) || (inside && start <= j),
        decreases n - i,
    {
        if is_whitespace(s[i]) {
            if inside {
                let ghost old_toks = toks@;
                toks.push((start, i));
                inside = false;
                proof {
                    assert forall|j: int| 0 <= j < i + 1 && !is_ws(#[trigger] s@[j]) implies (exists|k: int|
                        0 <= k < toks@.len() && (#[trigger] toks@[k]).0 <= j < toks@[k].1) by {
                        if start <= j {
                            assert(toks@[toks@.len() - 1] == (start, i));
                        } else {
                            let k = choose|k: int| 0 <= k < old_toks.len() && (#[trigger] old_toks[k]).0 <= j < old_toks[k].1;
                            assert(toks@[k] == old_toks[k]);
                        }
                    }
                }
            }
        } else {
            if !inside {
                start = i;
                inside = true;
            }
        }
        i = i + 1;
    }
    if inside {
        let ghost old_toks = toks@;
        toks.push((start, n));
        proof {
            assert forall|j: int| 0 <= j < n && !is_ws(#[trigger] s@[j]) implies (exists|k: int|
                0 <= k < toks@.len() && (#[trigger] toks@[k]).0 <= j < toks@[k].1) by {
                if start <= j {
                    assert(toks@[toks@.len() - 1] == (start, n));
                } else {
                    let k = choose|k: int| 0 <= k < old_toks.len() && (#[trigger] old_toks[k]).0 <= j < old_toks[k].1;
                    assert(toks@[k] == old_toks[k]);
                }
            }
        }
    }
    toks
}

/// What the shell does with a line.
#[derive(PartialEq, Eq, Structural, Debug, Clone, Copy)]
pub enum ShellAction {
    /// Nothing but whitespace: print a newline.
    Empty,
    /// Run a built-in command; its arguments are the words after the first.
    Run(ShellCommand),
    /// The first word names no command.
    Unknown,
}

/// Splits a line into words and decides what it asks for: nothing, a
/// built-in command (the first word), or an unknown command.
pub fn shell_dispatch(line: &[u8]) -> (r: (Vec<(usize, usize)>, ShellAction))
    ensures
        words_of(line@, r.0@),
        r.0@.len() == 0 <==> r.1 == ShellAction::Empty,
        r.0@.len() > 0 ==> {
            let name = line@.subrange(r.0@[0].0 as int, r.0@[0].1 as int);
            match r.1 {
                ShellAction::Run(c) => command_name_spec(c) == name,
                ShellAction::Unknown => forall|j: int|
                    0 <= j < COMMAND_COUNT ==> command_name_spec(#[trigger] command_at_spec(j)) != name,
                ShellAction::Empty => false,
            }
        },
{
    let words = split_whitespace(line);
    if words.len() == 0 {
        return (words, ShellAction::Empty);
    }
    let (a, b) = words[0];
    let name = slice_range(line, a, b);
    match find_command(name) {
        Some(c) => (words, ShellAction::Run(c)),
        None => (words, ShellAction::Unknown),
    }
}

/// The bytes `start..end` of a slice.
pub fn slice_range(s: &[u8], start: usize, end: usize) -> (r: &[u8])
    requires
        start <= end <= s@.len(),
    ensures
        r@ == s@.subrange(start as int, end as int),
{
    vstd::slice::slice_subrange(s, start, end)
}

/// Appends bytes to a buffer.
pub fn push_bytes(out: &mut Vec<u8>, b: &[u8])
    ensures
        final(out)@ == old(out)@ + b@,
{
    let mut i: usize = 0;
    while i < b.len()
        invariant
            0 <= i <= b@.len(),
            out@ == old(out)@ + b@.subrange(0, i as int),
        decreases b@.len() - i,
    {
        out.push(b[i]);
        i = i + 1;
        assert(out@ =~= old(out)@ + b@.subrange(0, i as int));
    }
    assert(b@.subrange(0, b@.len() as int) =~= b@);
}

/// The help line of a command: its name and description.
#[verifier::opaque]
pub open spec fn help_line(c: ShellCommand) -> Seq<u8> {
    seq![32u8, 32u8] + command_name_spec(c) + seq![32u8, 45u8, 32u8] + command_description_spec(c) + seq![10u8]
}

/// The help lines of the commands of the table from position `i`.
pub open spec fn help_lines(i: int) -> Seq<u8>
    decreases COMMAND_COUNT - i,
{
    if i >= COMMAND_COUNT || i < 0 {
        Seq::empty()
    } else {
        help_line(command_at_spec(i)) + help_lines(i + 1)
    }
}

/// Appends a command's help line.
fn push_help_line(out: &mut Vec<u8>, c: ShellCommand)
    ensures
        final(out)@ == old(out)@ + help_line(c),
{
    let ghost before = out@;
    push_bytes(out, &[32, 32]);
    push_bytes(out, command_name(c));
    push_bytes(out, &[32, 45, 32]);
    push_bytes(out, command_description(c));
    push_bytes(out, &[10]);
    proof {
        reveal(help_line);
        assert(seq![32u8, 32u8] =~= [32u8, 32u8]@);
        assert(seq![32u8, 45u8, 32u8] =~= [32u8, 45u8, 32u8]@);
        assert(seq![10u8] =~= [10u8]@);
        assert(out@ =~= before + help_line(c));
    }
}

/// The text of `help`: a header, then each command with its description.
pub fn cmd_help() -> (r: Vec<u8>)
    ensures
        r@ == HELP_HEADER@ + help_lines(0),
{
    let mut out: Vec<u8> = Vec::new();
    push_bytes(&mut out, &HELP_HEADER);
    let mut i: usize = 0;
    while i < COMMAND_COUNT
        invariant
            0 <= i <= COMMAND_COUNT,
            out@ + help_lines(i as int) == HELP_HEADER@ + help_lines(0),
        decreases COMMAND_COUNT - i,
    {
        let c = command_at(i);
        let ghost before = out@;
        push_help_line(&mut out, c);
        proof {
            assert(help_lines(i as int) == help_line(c) + help_lines(i + 1));
            assert(before + (help_line(c) + help_lines(i + 1)) =~= (before + help_line(c)) + help_lines(i + 1));
        }
        i = i + 1;
    }
    assert(out@ + help_lines(COMMAND_COUNT as int) =~= out@);
    out
}

/// The words from position `k` on, joined by single spaces.
pub open spec fn joined_words(s: Seq<u8>, t: Seq<(usize, usize)>, k: int) -> Seq<u8>
    decreases t.len() - k,
{
    if k >= t.len() || k < 0 {
        Seq::empty()
    } else if k == t.len() - 1 {
        s.subrange(t[k].0 as int, t[k].1 as int)
    } else {
        s.subrange(t[k].0 as int, t[k].1 as int) + seq![32u8] + joined_words(s, t, k + 1)
    }
}

/// The text of `echo`: its arguments (the words after the first) joined
/// by single spaces.
pub fn cmd_echo(line: &[u8], words: &Vec<(usize, usize)>) -> (r: Vec<u8>)
    requires
        words_of(line@, words@),
    ensures
        r@ == joined_words(line@, words@, 1),
{
    let mut out: Vec<u8> = Vec::new();
    let mut k: usize = 1;
    while k < words.len()
        invariant
            words_of(line@, words@),
            1 <= k,
            k <= words@.len() || words@.len() == 0,
            out@ + (if k > 1 && k < words@.len() { seq![32u8] } else { Seq::empty() }) + joined_words(line@, words@, k as int)
                == joined_words(line@, words@, 1),
        decreases words@.len() - k,
    {
        let ghost before = out@;
        if k > 1 {
            out.push(32);
        }
        let (a, b) = words[k];
        push_bytes(&mut out, slice_range(line, a, b));
        proof {
            let w = line@.subrange(a as int, b as int);
            if k + 1 < words@.len() {
                assert(joined_words(line@, words@, k as int) == w + seq![32u8] + joined_words(line@, words@, k + 1));
            } else {
                assert(joined_words(line@, words@, k as int) == w);
                assert(joined_words(line@, words@, k + 1) == Seq::<u8>::empty());
            }
            if k > 1 {
                assert(out@ =~= before + seq![32u8] + w);
            } else {
                assert(out@ =~= before + w);
            }
            if k + 1 < words@.len() {
                assert(before + (if k > 1 { seq![32u8] } else { Seq::empty() }) + (w + seq![32u8] + joined_words(line@, words@, k + 1))
                    =~= out@ + seq![32u8] + joined_words(line@, words@, k + 1));
            } else {
                assert(before + (if k > 1 { seq![32u8] } else { Seq::empty() }) + w =~= out@ + Seq::<u8>::empty() + Seq::<u8>::empty());
            }
        }
        k = k + 1;
    }
    proof {
        if words@.len() <= 1 {
            assert(joined_words(line@, words@, 1) == Seq::<u8>::empty());
            assert(out@ =~= Seq::<u8>::empty());
        } else {
            assert(out@ + Seq::<u8>::empty() + Seq::<u8>::empty() =~= out@);
        }
    }
    out
}

/// The text of `info`.
pub fn cmd_info() -> (r: Vec<u8>)
    ensures
        r@ == INFO_TEXT@,
{
    let mut out: Vec<u8> = Vec::new();
    push_bytes(&mut out, &INFO_TEXT);
    out
}

/// The text of `mem`: how much of the kernel heap is left, or that the
/// allocator is not initialized.
pub fn cmd_mem(allocator: Option<&BumpAllocator>) -> (r: Vec<u8>)
    requires
        allocator matches Some(a) ==> a.wf(),
    ensures
        r@ == MEM_HEADER@ + match allocator {
            None => MEM_NO_ALLOC@,
            Some(a) => MEM_AVAILABLE@ + (if a.end - a.current == 0 {
                MEM_LOW@
            } else if a.end - a.current >= 0x10_0000 {
                MEM_OK_BIG@
            } else {
                MEM_OK_SMALL@
            }),
        },
{
    let mut out: Vec<u8> = Vec::new();
    push_bytes(&mut out, &MEM_HEADER);
    match allocator {
        Some(a) => {
            let available = a.available();
            push_bytes(&mut out, &MEM_AVAILABLE);
            if available > 0 {
                if available >= 1024 * 1024 {
                    push_bytes(&mut out, &MEM_OK_BIG);
                } else {
                    push_bytes(&mut out, &MEM_OK_SMALL);
                }
            } else {
                push_bytes(&mut out, &MEM_LOW);
            }
            proof {
                assert(out@ =~= MEM_HEADER@ + (MEM_AVAILABLE@ + (if a.end - a.current == 0 {
                    MEM_LOW@
                } else if a.end - a.current >= 0x10_0000 {
                    MEM_OK_BIG@
                } else {
                    MEM_OK_SMALL@
                })));
            }
        },
        None => {
            push_bytes(&mut out, &MEM_NO_ALLOC);
        },
    }
    out
}

/// The character showing an interrupt count in 1 to 15: a digit, then
/// `A` to `F`.
pub fn irq_count_digit(irq_count: u8) -> (r: u8)
    requires
        irq_count <= 15,
    ensures
        r == (if irq_count <= 9 { 48 + irq_count } else { 65 + irq_count - 10 }),
{
    if irq_count <= 9 {
        48 + irq_count
    } else {
        65 + irq_count - 10
    }
}

/// The bits of a byte as the characters `0` and `1`, most significant
/// first.
pub open spec fn bits_text(v: u8) -> Seq<u8> {
    Seq::new(8, |i: int| if (v >> ((7 - i) as u8)) & 1u8 == 1u8 { 49u8 } else { 48u8 })
}

/// A byte as its eight bits, then ` (0x`, two hex digits and `)`.
pub open spec fn pic_bits_spec(value: u8) -> Seq<u8> {
    bits_text(value) + seq![32u8, 40u8, 48u8, 120u8] + seq![
        crate::fmt::hex_char(value as int / 16),
        crate::fmt::hex_char(value as int % 16),
    ] + seq![41u8]
}

/// A byte as its eight bits, then ` (0x`, two hex digits and `)`.
pub fn pic_bits(value: u8) -> (r: Vec<u8>)
    ensures
        r@ == pic_bits_spec(value),
{
    let mut out: Vec<u8> = Vec::new();
    let mut i: usize = 0;
    while i < 8
        invariant
            0 <= i <= 8,
            out@ == bits_text(value).subrange(0, i as int),
        decreases 8 - i,
    {
        let shift = (7 - i) as u8;
        let bit = (value >> shift) & 1;
        assert(bit == 0 || bit == 1) by (bit_vector)
            requires
                bit == (value >> shift) & 1u8,
        ;
        out.push(if bit != 0 { 49 } else { 48 });
        i = i + 1;
        assert(out@ =~= bits_text(value).subrange(0, i as int));
    }
    out.push(32);
    out.push(40);
    out.push(48);
    out.push(120);
    let (h, l) = crate::fmt::hex_byte(value);
    out.push(h);
    out.push(l);
    out.push(41);
    assert(out@ =~= bits_text(value) + seq![32u8, 40u8, 48u8, 120u8] + seq![
        crate::fmt::hex_char(value as int / 16),
        crate::fmt::hex_char(value as int % 16),
    ] + seq![41u8]);
    out
}

/// A small integer as text: its digit for 0 to 9, a minus sign and the
/// digit for -9 to -1, `-` for other negatives, `?` for other values.
pub fn format_int(n: i16) -> (r: &'static str)
    requires
        n != i16::MIN,
    ensures
        0 <= n <= 9 ==> r@ == seq![('0' as u32 + n) as char],
        -9 <= n <= -1 ==> r@ == seq!['-', ('0' as u32 - n) as char],
        n < -9 ==> r@ == "-"@,
        n > 9 ==> r@ == "?"@,
{
    proof {
        reveal_strlit("-0");
        reveal_strlit("-1");
        reveal_strlit("-2");
        reveal_strlit("-3");
        reveal_strlit("-4");
        reveal_strlit("-5");
        reveal_strlit("-6");
        reveal_strlit("-7");
        reveal_strlit("-8");
        reveal_strlit("-9");
        reveal_strlit("0");
        reveal_strlit("1");
        reveal_strlit("2");
        reveal_strlit("3");
        reveal_strlit("4");
        reveal_strlit("5");
        reveal_strlit("6");
        reveal_strlit("7");
        reveal_strlit("8");
        reveal_strlit("9");
    }
    if n < 0 {
        let abs = (-n) as u16;
        if abs <= 9 {
            match abs {
                1 => "-1",
                2 => "-2",
                3 => "-3",
                4 => "-4",
                5 => "-5",
                6 => "-6",
                7 => "-7",
                8 => "-8",
                _ => "-9",
            }
        } else {
            "-"
        }
    } else if n <= 9 {
        match n {
            0 => "0",
            1 => "1",
            2 => "2",
            3 => "3",
            4 => "4",
            5 => "5",
            6 => "6",
            7 => "7",
            8 => "8",
            _ => "9",
        }
    } else {
        "?"
    }
}

} // verus!
