//! Little-endian integers and single-byte flags, as the wire format and the
//! records hold them.

use vstd::prelude::*;

verus! {

/// `256` to the power `n`: the number of values that `n` bytes can hold.
pub open spec fn radix(n: nat) -> nat
    decreases n,
{
    if n == 0 {
        1
    } else {
        256 * radix((n - 1) as nat)
    }
}

/// The number that `bytes` spell, least significant byte first.
pub open spec fn le_value(bytes: Seq<u8>) -> nat
    decreases bytes.len(),
{
    if bytes.len() == 0 {
        0
    } else {
        bytes[0] as nat + 256 * le_value(bytes.drop_first())
    }
}

/// The `width` low-order bytes of `value`, least significant first.
pub open spec fn le_bytes(value: nat, width: nat) -> Seq<u8>
    decreases width,
{
    if width == 0 {
        Seq::empty()
    } else {
        seq![(value % 256) as u8] + le_bytes(value / 256, (width - 1) as nat)
    }
}

/// The byte that stands for a flag: `1` for true, `0` for false.
pub open spec fn flag_byte(flag: bool) -> u8 {
    if flag {
        1u8
    } else {
        0u8
    }
}

/// The powers of `256` that fit the widths in use.
pub proof fn lemma_radix_values()
    ensures
        radix(0) == 1,
        radix(1) == 0x100,
        radix(2) == 0x1_0000,
        radix(3) == 0x100_0000,
        radix(4) == 0x1_0000_0000,
        radix(5) == 0x100_0000_0000,
        radix(6) == 0x1_0000_0000_0000,
        radix(7) == 0x100_0000_0000_0000,
        radix(8) == 0x1_0000_0000_0000_0000,
{
    reveal_with_fuel(radix, 9);
}

/// `n` bytes spell a number below `256` to the power `n`.
pub proof fn lemma_le_value_bound(bytes: Seq<u8>)
    ensures
        le_value(bytes) < radix(bytes.len()),
    decreases bytes.len(),
{
    if bytes.len() > 0 {
        lemma_le_value_bound(bytes.drop_first());
    }
}

/// `le_bytes` yields as many bytes as it is asked for.
pub proof fn lemma_le_bytes_len(value: nat, width: nat)
    ensures
        le_bytes(value, width).len() == width,
    decreases width,
{
    if width > 0 {
        lemma_le_bytes_len(value / 256, (width - 1) as nat);
    }
}

/// Reading back what was written gives the number again, provided that
/// the number fits the width.
pub proof fn lemma_le_value_of_bytes(value: nat, width: nat)
    requires
        value < radix(width),
    ensures
        le_value(le_bytes(value, width)) == value,
    decreases width,
{
    if width > 0 {
        let rest = le_bytes(value / 256, (width - 1) as nat);
        lemma_le_value_of_bytes(value / 256, (width - 1) as nat);
        assert(le_bytes(value, width).drop_first() =~= rest);
    }
}

/// Writing back what was read gives the bytes again.
pub proof fn lemma_le_bytes_of_value(bytes: Seq<u8>)
    ensures
        le_bytes(le_value(bytes), bytes.len()) == bytes,
    decreases bytes.len(),
{
    if bytes.len() > 0 {
        let tail = bytes.drop_first();
        lemma_le_bytes_of_value(tail);
        assert(le_bytes(le_value(bytes), bytes.len()) =~= bytes);
    }
}

/// One byte spells itself.
pub proof fn lemma_le_value_single(bytes: Seq<u8>)
    requires
        bytes.len() == 1,
    ensures
        le_value(bytes) == bytes[0],
{
    assert(bytes.drop_first().len() == 0);
    assert(le_value(bytes.drop_first()) == 0);
}

/// Reads the bytes `input[start..end]` as a little-endian number.
pub fn read_le(input: &[u8], start: usize, end: usize) -> (value: u64)
    requires
        start <= end <= input@.len(),
        end - start <= 8,
    ensures
        value == le_value(input@.subrange(start as int, end as int)),
{
    let mut value: u64 = 0;
    let mut at: usize = end;
    while at > start
        invariant
            start <= at <= end <= input@.len(),
            end - start <= 8,
            value == le_value(input@.subrange(at as int, end as int)),
        decreases at - start,
    {
        proof {
            let read = input@.subrange(at as int, end as int);
            lemma_le_value_bound(read);
            lemma_radix_values();
            let n = read.len();
            assert(n <= 7);
            assert(radix(n) <= radix(7)) by {
                reveal_with_fuel(radix, 9);
            }
            let next = input@.subrange(at as int - 1, end as int);
            assert(next.drop_first() =~= read);
        }
        at = at - 1;
        value = value * 256 + input[at] as u64;
    }
    value
}

/// Writes the `width` low-order bytes of `value` to `dst[start..start +
/// width]`, least significant first, and leaves the rest of `dst` alone.
pub fn write_le(dst: &mut [u8], start: usize, width: usize, value: u64)
    requires
        start + width <= old(dst)@.len(),
    ensures
        final(dst)@.len() == old(dst)@.len(),
        final(dst)@.subrange(start as int, start + width) == le_bytes(value as nat, width as nat),
        forall|i: int|
            0 <= i < old(dst)@.len() && !(start <= i < start + width) ==> final(dst)@[i] == old(
                dst,
            )@[i],
{
    let len: usize = dst.len();
    let mut rest: u64 = value;
    let mut done: usize = 0;
    while done < width
        invariant
            done <= width,
            start + width <= dst@.len() == len,
            dst@.len() == old(dst)@.len(),
            dst@.subrange(start as int, start + done) + le_bytes(
                rest as nat,
                (width - done) as nat,
            ) == le_bytes(value as nat, width as nat),
            forall|i: int|
                0 <= i < dst@.len() && !(start <= i < start + width) ==> dst@[i] == old(dst)@[i],
        decreases width - done,
    {
        let ghost before = dst@;
        dst[start + done] = (rest % 256) as u8;
        proof {
            let written = dst@.subrange(start as int, start + done + 1);
            let tail = le_bytes((rest / 256) as nat, (width - done - 1) as nat);
            assert(written =~= before.subrange(start as int, start + done) + seq![
                (rest % 256) as u8,
            ]);
            assert(written + tail =~= before.subrange(start as int, start + done) + le_bytes(
                rest as nat,
                (width - done) as nat,
            ));
        }
        rest = rest / 256;
        done = done + 1;
    }
    proof {
        assert(dst@.subrange(start as int, start + width) + Seq::<u8>::empty() =~= dst@.subrange(
            start as int,
            start + width,
        ));
    }
}

/// Reads a flag byte: `0` is false, `1` is true, any other byte is none.
pub fn read_flag(byte: u8) -> (flag: Option<bool>)
    ensures
        flag == if byte == 0 {
            Some(false)
        } else if byte == 1 {
            Some(true)
        } else {
            None
        },
{
    if byte == 0 {
        Some(false)
    } else if byte == 1 {
        Some(true)
    } else {
        None
    }
}

/// The byte that stands for `flag`.
pub fn write_flag(flag: bool) -> (byte: u8)
    ensures
        byte == flag_byte(flag),
{
    if flag {
        1
    } else {
        0
    }
}

} // verus!
