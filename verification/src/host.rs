//! What the host has in all: vCPUs, memory and disk.

use vstd::prelude::*;
use vstd::string::*;

use crate::text;
use crate::words;

verus! {

/// The memory of a host that does not tell, in MiB.
pub const FALLBACK_MEMORY_MIB: u64 = 8192;

/// The disk of a host that does not tell, in bytes.
pub const FALLBACK_DISK_BYTES: u64 = 100 * 1024 * 1024 * 1024;

/// The vCPUs of a host that does not tell.
pub const FALLBACK_VCPUS: u32 = 4;

/// The number that `s` stands for, where it has 64 bits.
pub open spec fn number_in(s: Seq<char>) -> Option<u64> {
    match text::unsigned_value(s) {
        Some(n) => if n <= u64::MAX {
            Some(n as u64)
        } else {
            None
        },
        None => None,
    }
}

fn read_number(s: &str) -> (r: Option<u64>)
    ensures
        r == number_in(s@),
{
    text::parse_unsigned(s, u64::MAX)
}

// ---------------------------------------------------------------------------
// Memory
// ---------------------------------------------------------------------------
/// The memory in MiB that a line of `/proc/meminfo` gives as the total: the
/// word behind `MemTotal:`, which counts KiB.
pub open spec fn memory_in_line(line: Seq<char>) -> Option<u64> {
    if "MemTotal:"@.is_prefix_of(line) && words::words(line).len() > 1 {
        match number_in(words::words(line)[1]) {
            Some(kib) => Some(kib / 1024),
            None => None,
        }
    } else {
        None
    }
}

/// The memory in MiB that the first line of a text gives that gives any.
pub open spec fn memory_in(meminfo: Seq<char>) -> Option<u64>
    decreases meminfo.len(),
    via memory_in_ends
{
    let line = text::before(meminfo, '\n');
    if memory_in_line(line) is Some {
        memory_in_line(line)
    } else if line.len() < meminfo.len() {
        memory_in(meminfo.skip(line.len() as int + 1))
    } else {
        None
    }
}

#[via_fn]
proof fn memory_in_ends(meminfo: Seq<char>) {
    text::lemma_before_splits(meminfo, '\n');
}

fn memory_of_line(line: &str) -> (r: Option<u64>)
    ensures
        r == memory_in_line(line@),
{
    if text::strip_prefix(line, "MemTotal:").is_none() {
        return None;
    }
    match words::nth_word(line, 1) {
        Some(word) => match read_number(word) {
            Some(kib) => Some(kib / 1024),
            None => None,
        },
        None => None,
    }
}

/// The memory of the host in MiB, from the text of `/proc/meminfo` where it
/// can be read.
pub fn total_memory_mib(meminfo: Option<&str>) -> (r: u64)
    ensures
        r == match meminfo {
            Some(meminfo) => match memory_in(meminfo@) {
                Some(mib) => mib,
                None => FALLBACK_MEMORY_MIB,
            },
            None => FALLBACK_MEMORY_MIB,
        },
        meminfo is None ==> r == 8192,
        meminfo matches Some(meminfo) ==> (memory_in(meminfo@) is None ==> r == 8192),
{
    let mut rest = match meminfo {
        Some(meminfo) => meminfo,
        None => {
            return FALLBACK_MEMORY_MIB;
        },
    };
    let ghost all = rest@;
    loop
        invariant
            memory_in(rest@) == memory_in(all),
            meminfo matches Some(m) && m@ == all,
        decreases rest@.len(),
    {
        let line = text::cut_before(rest, '\n');
        proof {
            text::lemma_before_splits(rest@, '\n');
        }
        if let Some(mib) = memory_of_line(line) {
            return mib;
        }
        let n = line.unicode_len();
        let len = rest.unicode_len();
        if n >= len {
            return FALLBACK_MEMORY_MIB;
        }
        let ghost here = rest@;
        rest = rest.substring_char(n + 1, len);
        assert(rest@ =~= here.skip(n + 1));
    }
}

// ---------------------------------------------------------------------------
// Disk
// ---------------------------------------------------------------------------
/// The disk budget that a setting names, where it names one.
pub open spec fn budget_in(setting: Seq<char>) -> Option<u64> {
    match number_in(words::trimmed(setting)) {
        Some(bytes) => if bytes > 0 {
            Some(bytes)
        } else {
            None
        },
        None => None,
    }
}

/// The disk budget that a setting names: a positive number of bytes.
pub fn disk_budget(setting: &str) -> (r: Option<u64>)
    ensures
        r == budget_in(setting@),
{
    match read_number(words::trim(setting)) {
        Some(bytes) => if bytes > 0 {
            Some(bytes)
        } else {
            None
        },
        None => None,
    }
}

/// The size in bytes of a file system, where it has 64 bits. Blocks are
/// counted in fragments; a file system that does not tell the size of one
/// counts them in blocks.
pub fn filesystem_bytes(blocks: u64, fragment_size: u64, block_size: u64) -> (r: Option<u64>)
    ensures
        r == filesystem_size(blocks, fragment_size, block_size),
        fragment_size != 0 ==> (r is Some <==> blocks * fragment_size <= u64::MAX),
        fragment_size != 0 && r is Some ==> r->0 == blocks * fragment_size,
        fragment_size == 0 ==> (r is Some <==> blocks * block_size <= u64::MAX),
        fragment_size == 0 && r is Some ==> r->0 == blocks * block_size,
{
    let unit = if fragment_size != 0 {
        fragment_size
    } else {
        block_size
    };
    blocks.checked_mul(unit)
}

/// The size in bytes of a file system, where it has 64 bits.
pub open spec fn filesystem_size(blocks: u64, fragment_size: u64, block_size: u64) -> Option<u64> {
    let unit = if fragment_size != 0 {
        fragment_size
    } else {
        block_size
    };
    if blocks * unit <= u64::MAX {
        Some((blocks * unit) as u64)
    } else {
        None
    }
}

/// The disk of the host in bytes: what the setting names, else the size of the
/// file system of the data directory, where either is known.
pub fn total_disk_bytes(setting: Option<&str>, filesystem: Option<u64>) -> (r: u64)
    ensures
        r == match setting {
            Some(setting) => match budget_in(setting@) {
                Some(bytes) => bytes,
                None => or_fallback(filesystem),
            },
            None => or_fallback(filesystem),
        },
        setting is None && filesystem is None ==> r == 107_374_182_400,
        setting is None && filesystem is Some ==> r == filesystem->0,
        setting matches Some(setting) ==> {
            &&& budget_in(setting@) is Some ==> r == budget_in(setting@)->0
            &&& budget_in(setting@) is None && filesystem is Some ==> r == filesystem->0
            &&& budget_in(setting@) is None && filesystem is None ==> r == 107_374_182_400
        },
{
    if let Some(setting) = setting {
        if let Some(bytes) = disk_budget(setting) {
            return bytes;
        }
    }
    match filesystem {
        Some(bytes) => bytes,
        None => FALLBACK_DISK_BYTES,
    }
}

pub open spec fn or_fallback(filesystem: Option<u64>) -> u64 {
    match filesystem {
        Some(bytes) => bytes,
        None => FALLBACK_DISK_BYTES,
    }
}

// ---------------------------------------------------------------------------
// vCPUs
// ---------------------------------------------------------------------------
/// The vCPUs of a host that can run so many threads at a time, by their low 32 bits.
pub fn num_cpus(parallelism: Option<usize>) -> (r: u32)
    ensures
        r == match parallelism {
            Some(n) => (n as int % 0x1_0000_0000) as u32,
            None => FALLBACK_VCPUS,
        },
        parallelism is None ==> r == 4,
        parallelism matches Some(n) ==> (n <= u32::MAX ==> r == n),
{
    match parallelism {
        Some(n) => (n as u64 % 0x1_0000_0000) as u32,
        None => FALLBACK_VCPUS,
    }
}

// ---------------------------------------------------------------------------
// Laws
// ---------------------------------------------------------------------------
/// A line that begins with `MemTotal:` gives the number of the next word, which
/// counts KiB, in MiB and rounded down. A line that begins otherwise gives none.
pub proof fn law_memory_line(gap: Seq<char>, kib: u64, rest: Seq<char>, line: Seq<char>)
    requires
        gap.len() > 0,
        words::all_spaces(gap),
        rest.len() > 0 ==> words::is_space(rest[0]),
    ensures
        memory_in_line("MemTotal:"@ + gap + text::dec(kib as nat) + rest) == Some(
            (kib / 1024) as u64,
        ),
        !"MemTotal:"@.is_prefix_of(line) ==> memory_in_line(line) is None,
{
    let label = "MemTotal:"@;
    let digits = text::dec(kib as nat);
    let all = label + gap + digits + rest;
    reveal_strlit("MemTotal:");
    text::lemma_dec(kib as nat);
    text::law_decimal_text_reads_back(kib as nat);
    assert forall|i: int| 0 <= i < digits.len() implies !words::is_space(#[trigger] digits[i]) by {
        assert(text::is_digit(digits[i]));
    }
    assert(words::no_spaces(label));
    assert(words::is_space(gap[0]));
    let none = Seq::<char>::empty();
    assert(all =~= none + label + (gap + digits + rest));
    assert((gap + digits + rest)[0] == gap[0]);
    words::law_words(none, label, gap + digits + rest);
    words::law_words(gap, digits, rest);
    assert(label.is_prefix_of(all)) by {
        assert(all.take(label.len() as int) =~= label);
    }
    assert(words::words(all)[1] == digits);
}

/// The first line that gives the memory counts.
pub proof fn law_first_memory_line_counts(line: Seq<char>, rest: Seq<char>)
    requires
        forall|i: int| 0 <= i < line.len() ==> line[i] != '\n',
    ensures
        memory_in_line(line) is Some ==> memory_in(line + seq!['\n'] + rest) == memory_in_line(
            line,
        ),
        memory_in_line(line) is None ==> memory_in(line + seq!['\n'] + rest) == memory_in(rest),
        memory_in(line) == memory_in_line(line),
{
    let all = line + seq!['\n'] + rest;
    text::law_before_is_the_part_up_to_the_first(line, '\n', rest);
    assert(all.skip(line.len() as int + 1) =~= rest);
}

/// A setting names a budget if and only if it is a positive number of 64 bits,
/// with or without spaces around it.
pub proof fn law_disk_budget(head: Seq<char>, bytes: nat, tail: Seq<char>)
    requires
        words::all_spaces(head),
        words::all_spaces(tail),
    ensures
        0 < bytes <= u64::MAX ==> budget_in(head + text::dec(bytes) + tail) == Some(bytes as u64),
        bytes == 0 || bytes > u64::MAX ==> budget_in(head + text::dec(bytes) + tail) is None,
        budget_in(head) is None,
{
    let digits = text::dec(bytes);
    text::lemma_dec(bytes);
    text::law_decimal_text_reads_back(bytes);
    assert(text::is_digit(digits[0]));
    assert(text::is_digit(digits[digits.len() - 1]));
    words::law_trimming(head, digits, tail);
    let none = Seq::<char>::empty();
    assert(head + none + none =~= head);
    words::law_trimming(head, none, none);
}

/// The size of a file system is the number of its blocks times the size of a
/// fragment, or of a block where the size of a fragment is not told.
pub proof fn law_filesystem_size(blocks: u64, fragment_size: u64, block_size: u64)
    ensures
        fragment_size != 0 && blocks * fragment_size <= u64::MAX ==> filesystem_size(
            blocks,
            fragment_size,
            block_size,
        ) == Some((blocks * fragment_size) as u64),
        fragment_size != 0 && blocks * fragment_size > u64::MAX ==> filesystem_size(
            blocks,
            fragment_size,
            block_size,
        ) is None,
        blocks * block_size <= u64::MAX ==> filesystem_size(blocks, 0, block_size) == Some(
            (blocks * block_size) as u64,
        ),
        blocks * block_size > u64::MAX ==> filesystem_size(blocks, 0, block_size) is None,
{
}

} // verus!
