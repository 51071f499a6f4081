use vstd::prelude::*;

verus! {

/// Bytes of zeros that precede the save's file time in the plain memory layout.
pub const ZERO_RUN: usize = 16;

/// Alignment of the file time in the plain memory layout.
pub const TIME_ALIGN: usize = 8;

/// Bytes that must follow the start of the file time inside the searched block.
pub const TAIL: usize = 24;

/// Whether `buf[i..i + 8]` is `needle` and the sixteen bytes before it are zero.
pub open spec fn time_block_at(buf: Seq<u8>, needle: Seq<u8>, i: int) -> bool {
    &&& ZERO_RUN <= i
    &&& i + TAIL <= buf.len()
    &&& i % (TIME_ALIGN as int) == 0
    &&& buf.subrange(i, i + 8) == needle
    &&& forall|k: int| i - ZERO_RUN <= k < i ==> buf[k] == 0
}

/// Finds the save's file time in a block of the game's memory: the first position,
/// a multiple of eight, where `needle` stands after sixteen zero bytes and with at
/// least twenty-four bytes from it to the end of the block.
pub fn find_time_block(buf: &[u8], needle: &[u8; 8]) -> (r: Option<usize>)
    ensures
        r matches Some(i) ==> time_block_at(buf@, needle@, i as int) && forall|j: int|
            0 <= j < i ==> !#[trigger] time_block_at(buf@, needle@, j),
        r is None ==> forall|j: int| !#[trigger] time_block_at(buf@, needle@, j),
{
    if buf.len() < ZERO_RUN + TAIL {
        return None;
    }
    let last = buf.len() - TAIL;
    let mut i: usize = ZERO_RUN;
    while i <= last
        invariant
            ZERO_RUN <= i <= last + TIME_ALIGN,
            last + TAIL == buf@.len(),
            buf@.len() <= usize::MAX,
            i % TIME_ALIGN == 0,
            forall|j: int| 0 <= j < i ==> !#[trigger] time_block_at(buf@, needle@, j),
        decreases last + TIME_ALIGN - i,
    {
        let mut same = true;
        let mut k: usize = 0;
        while k < 8
            invariant
                ZERO_RUN <= i <= last,
                last + TAIL == buf@.len(),
                buf@.len() <= usize::MAX,
                0 <= k <= 8,
                same == forall|m: int| 0 <= m < k ==> buf@[i + m] == needle@[m],
            decreases 8 - k,
        {
            if buf[i + k] != needle[k] {
                same = false;
            }
            k = k + 1;
        }
        let mut zeros = true;
        let mut z: usize = i - ZERO_RUN;
        while z < i
            invariant
                ZERO_RUN <= i <= last,
                last + TAIL == buf@.len(),
                i - ZERO_RUN <= z <= i,
                zeros == forall|m: int| i - ZERO_RUN <= m < z ==> buf@[m] == 0,
            decreases i - z,
        {
            if buf[z] != 0 {
                zeros = false;
            }
            z = z + 1;
        }
        if same && zeros {
            assert(buf@.subrange(i as int, i + 8) =~= needle@);
            return Some(i);
        }
        proof {
            if !same {
                let m = choose|m: int| 0 <= m < 8 && buf@[i + m] != needle@[m];
                assert(buf@.subrange(i as int, i + 8)[m] != needle@[m]);
            }
            assert forall|j: int| 0 <= j < i + TIME_ALIGN implies !#[trigger] time_block_at(
                buf@,
                needle@,
                j,
            ) by {
                if j < i {
                } else if j == i {
                } else {
                    assert(j % 8 != 0);
                }
            }
        }
        i = i + TIME_ALIGN;
    }
    proof {
        assert forall|j: int| !#[trigger] time_block_at(buf@, needle@, j) by {
            if j >= i {
                assert(j + TAIL > buf@.len());
            }
        }
    }
    None
}

/// The little-endian 16-bit unit at index `k` of `b` (a last odd byte stands alone).
pub open spec fn unit_at(b: Seq<u8>, k: int) -> u16 {
    if 2 * k + 1 < b.len() {
        (b[2 * k] as int + 256 * (b[2 * k + 1] as int)) as u16
    } else {
        b[2 * k] as u16
    }
}

/// Joins bytes into little-endian 16-bit units, as the game stores its text.
pub fn utf16_units(b: &[u8]) -> (r: Vec<u16>)
    ensures
        r@.len() == (b@.len() + 1) / 2,
        forall|k: int| 0 <= k < r@.len() ==> r@[k] == unit_at(b@, k),
{
    let n = b.len() / 2 + b.len() % 2;
    let mut r: Vec<u16> = Vec::new();
    let mut k: usize = 0;
    while k < n
        invariant
            n == (b@.len() + 1) / 2,
            b@.len() <= usize::MAX,
            0 <= k <= n,
            r@.len() == k,
            forall|m: int| 0 <= m < r@.len() ==> r@[m] == unit_at(b@, m),
        decreases n - k,
    {
        let i = 2 * k;
        let unit: u16 = if b.len() - i > 1 {
            b[i] as u16 + 256 * (b[i + 1] as u16)
        } else {
            b[i] as u16
        };
        r.push(unit);
        k = k + 1;
    }
    r
}

/// Reads one flag of a flag word: `None` if the word has a bit set outside `known`
/// (it is then not a valid word), else whether the bits of `flag` are all set.
pub fn decode_flag(bits: u32, known: u32, flag: u32) -> (r: Option<bool>)
    ensures
        r == (if bits & !known != 0 {
            None::<bool>
        } else {
            Some(bits & flag == flag)
        }),
{
    if bits & !known != 0 {
        None
    } else {
        Some(bits & flag == flag)
    }
}

} // verus!
