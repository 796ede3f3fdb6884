//! Which binary JSON documents the binlog decoder's JSON reader can take.
//!
//! The reader trusts the document's counts, offsets and lengths. A document
//! is admitted only where every one of them stays inside the bytes and
//! offsets to nested values point forward; opaque (custom) values are not
//! admitted. Where a document is refused, the column decodes to base-64,
//! as it does where the reader reports an error.

use vstd::prelude::*;

verus! {

/// How deep values may nest: MySQL's own limit on JSON documents.
pub const MAX_DEPTH: u32 = 100;

/// The width of counts and offsets: two bytes in small documents, four in
/// large ones.
pub open spec fn width(small: bool) -> int {
    if small {
        2
    } else {
        4
    }
}

/// The little-endian unsigned integer of `width(small)` bytes at `q`.
pub open spec fn uint_at(b: Seq<u8>, q: int, small: bool) -> int {
    if small {
        b[q] as int + 256 * b[q + 1] as int
    } else {
        b[q] as int + 256 * b[q + 1] as int + 65536 * b[q + 2] as int + 16777216 * b[q + 3] as int
    }
}

/// The value and byte count of the variable-length integer at `p`, where it
/// takes one to four bytes and lies inside `b`.
pub open spec fn var_int(b: Seq<u8>, p: int) -> Option<(int, int)> {
    if p < b.len() && b[p] < 128 {
        Some((b[p] as int, 1))
    } else if p + 1 < b.len() && b[p + 1] < 128 {
        Some((b[p] - 128 + 128 * b[p + 1], 2))
    } else if p + 2 < b.len() && b[p + 1] >= 128 && b[p + 2] < 128 {
        Some((b[p] - 128 + 128 * (b[p + 1] - 128) + 16384 * b[p + 2], 3))
    } else if p + 3 < b.len() && b[p + 1] >= 128 && b[p + 2] >= 128 && b[p + 3] < 128 {
        Some(
            (b[p] - 128 + 128 * (b[p + 1] - 128) + 16384 * (b[p + 2] - 128) + 2097152 * b[p + 3], 4),
        )
    } else {
        None
    }
}

/// Whether the type code is one the reader knows.
pub open spec fn known_type(t: int) -> bool {
    0 <= t <= 0x0c || t == 0x0f
}

/// Whether an entry of type `t` holds its value in place of an offset.
pub open spec fn inlined(t: int, small: bool) -> bool {
    t == 4 || t == 5 || t == 6 || (!small && (t == 7 || t == 8))
}

/// The bytes of one key entry (offset and length) and of one value entry
/// (type and offset or value).
pub open spec fn key_entry_size(small: bool) -> int {
    width(small) + 2
}

pub open spec fn value_entry_size(small: bool) -> int {
    width(small) + 1
}

/// The bytes of entries per element.
pub open spec fn per_element(small: bool, array: bool) -> int {
    value_entry_size(small) + if array {
        0
    } else {
        key_entry_size(small)
    }
}

/// Where the value entries of the object or array at `o` start.
pub open spec fn value_table(b: Seq<u8>, o: int, small: bool, array: bool) -> int {
    o + 2 * width(small) + if array {
        0
    } else {
        uint_at(b, o, small) * key_entry_size(small)
    }
}

/// Where the entries of the object or array at `o` end.
pub open spec fn entries_end(b: Seq<u8>, o: int, small: bool, array: bool) -> int {
    o + 2 * width(small) + uint_at(b, o, small) * per_element(small, array)
}

/// Whether the reader takes the value of type `t` whose data starts at `p`.
pub open spec fn value_ok(b: Seq<u8>, t: int, p: int, depth: nat) -> bool
    decreases b.len() - p, 2int, 0int,
{
    if 0 <= p <= b.len() {
        if 0 <= t <= 3 {
            object_ok(b, p, t == 0 || t == 2, t >= 2, depth)
        } else if t == 0x0c {
            match var_int(b, p) {
                Some((v, _)) => v <= b.len(),
                None => false,
            }
        } else {
            t != 0x0f
        }
    } else {
        false
    }
}

/// Whether the reader takes the object (or array) whose header is at `o`.
pub open spec fn object_ok(b: Seq<u8>, o: int, small: bool, array: bool, depth: nat) -> bool
    decreases b.len() - o, 1int, 0int,
{
    if 0 <= o && o + 2 * width(small) <= b.len() {
        let n = uint_at(b, o, small);
        &&& entries_end(b, o, small, array) <= b.len()
        &&& entries_ok(b, o, small, array, n, 0, depth)
        &&& (array || keys_ok(b, o, small, n, 0, entries_end(b, o, small, array)))
    } else {
        false
    }
}

/// Whether the value entries from the `j`-th on are taken: each nested value
/// lies after its parent's header, within `depth` more levels, and is taken
/// itself.
pub open spec fn entries_ok(
    b: Seq<u8>,
    o: int,
    small: bool,
    array: bool,
    n: int,
    j: int,
    depth: nat,
) -> bool
    decreases b.len() - o, 0int, n - j,
{
    if j >= n || o < 0 || o > b.len() {
        true
    } else {
        let q = value_table(b, o, small, array) + j * value_entry_size(small);
        let t = b[q] as int;
        let this_ok = if !known_type(t) || inlined(t, small) {
            true
        } else {
            let idx = uint_at(b, q + 1, small);
            depth > 0 && 1 <= idx && o + idx < b.len() && value_ok(b, t, o + idx, (depth - 1) as nat)
        };
        this_ok && entries_ok(b, o, small, array, n, j + 1, depth)
    }
}

/// Whether the keys from the `i`-th on are read with the reader at `pos`:
/// each key starts at or after the reader's position.
pub open spec fn keys_ok(b: Seq<u8>, o: int, small: bool, n: int, i: int, pos: int) -> bool
    decreases n - i,
{
    if i >= n {
        true
    } else {
        let q = o + 2 * width(small) + i * key_entry_size(small);
        let k = uint_at(b, q, small);
        let l = b[q + width(small)] as int + 256 * b[q + width(small) + 1] as int;
        o + k >= pos && keys_ok(b, o, small, n, i + 1, o + k + l)
    }
}

/// Whether the reader takes document `b`: text documents (first byte above
/// 0x0f) always; binary ones where their value is taken, nested at most as
/// deep as MySQL allows.
pub open spec fn document_ok(b: Seq<u8>) -> bool {
    b.len() > 0 && (b[0] > 0x0f || value_ok(b, b[0] as int, 1, MAX_DEPTH as nat))
}

fn read_uint(b: &Vec<u8>, q: usize, small: bool) -> (r: u64)
    requires
        q + width(small) <= b@.len(),
    ensures
        r == uint_at(b@, q as int, small),
{
    let len = b.len();
    if small {
        b[q] as u64 + 256 * b[q + 1] as u64
    } else {
        b[q] as u64 + 256 * b[q + 1] as u64 + 65536 * b[q + 2] as u64 + 16777216 * b[q + 3] as u64
    }
}

fn read_var_int(b: &Vec<u8>, p: usize) -> (r: Option<(u64, usize)>)
    ensures
        match r {
            Some((v, k)) => var_int(b@, p as int) == Some((v as int, k as int)),
            None => var_int(b@, p as int) is None,
        },
{
    let n = b.len();
    if p < n && b[p] < 128 {
        Some((b[p] as u64, 1))
    } else if p < n && 1 < n - p && b[p + 1] < 128 {
        Some((b[p] as u64 - 128 + 128 * b[p + 1] as u64, 2))
    } else if p < n && 2 < n - p && b[p + 1] >= 128 && b[p + 2] < 128 {
        Some((b[p] as u64 - 128 + 128 * (b[p + 1] as u64 - 128) + 16384 * b[p + 2] as u64, 3))
    } else if p < n && 3 < n - p && b[p + 1] >= 128 && b[p + 2] >= 128 && b[p + 3] < 128 {
        Some(
            (b[p] as u64 - 128 + 128 * (b[p + 1] as u64 - 128) + 16384 * (b[p + 2] as u64 - 128)
                + 2097152 * b[p + 3] as u64, 4),
        )
    } else {
        None
    }
}

fn check_value(b: &Vec<u8>, t: u8, p: usize, depth: u32) -> (r: bool)
    ensures
        r == value_ok(b@, t as int, p as int, depth as nat),
    decreases b@.len() - p, 2int, 0int,
{
    if p > b.len() {
        return false;
    }
    if t <= 3 {
        check_object(b, p, t == 0 || t == 2, t >= 2, depth)
    } else if t == 0x0c {
        match read_var_int(b, p) {
            Some((v, _)) => v <= b.len() as u64,
            None => false,
        }
    } else {
        t != 0x0f
    }
}

fn check_object(b: &Vec<u8>, o: usize, small: bool, array: bool, depth: u32) -> (r: bool)
    requires
        o <= b@.len(),
    ensures
        r == object_ok(b@, o as int, small, array, depth as nat),
    decreases b@.len() - o, 1int, 0int,
{
    let len = b.len();
    let w: usize = if small { 2 } else { 4 };
    let kes: usize = w + 2;
    let ves: usize = w + 1;
    let per: usize = if array { ves } else { ves + kes };
    if len - o < 2 * w {
        return false;
    }
    let n = read_uint(b, o, small);
    let rest = len - o - 2 * w;
    if n > (rest / per) as u64 {
        proof {
            assert(n * per > rest) by (nonlinear_arith)
                requires
                    n > rest / per,
                    per > 0,
            ;
        }
        return false;
    }
    let n = n as usize;
    proof {
        assert(n * per <= rest) by (nonlinear_arith)
            requires
                n <= rest / per,
                per > 0,
        ;
        assert(n * per == n * ves + (if array { 0 } else { n * kes })) by (nonlinear_arith)
            requires
                per == ves + (if array { 0usize } else { kes }),
        ;
    }
    let table_end = o + 2 * w + n * per;
    let vt = o + 2 * w + if array { 0 } else { n * kes };
    // The value entries.
    let mut j: usize = 0;
    let mut q: usize = vt;
    while j < n
        invariant
            len == b@.len(),
            o <= len,
            w == width(small),
            ves == value_entry_size(small),
            kes == key_entry_size(small),
            n == uint_at(b@, o as int, small),
            vt == value_table(b@, o as int, small, array),
            table_end == vt + n * ves,
            table_end <= len,
            j <= n,
            q == vt + j * ves,
            entries_ok(b@, o as int, small, array, n as int, 0, depth as nat) == entries_ok(
                b@,
                o as int,
                small,
                array,
                n as int,
                j as int,
                depth as nat,
            ),
        decreases n - j,
    {
        proof {
            assert(q + ves <= table_end) by (nonlinear_arith)
                requires
                    q == vt + j * ves,
                    table_end == vt + n * ves,
                    j < n,
            ;
        }
        let t = b[q];
        let known = t <= 0x0c || t == 0x0f;
        let inline = t == 4 || t == 5 || t == 6 || (!small && (t == 7 || t == 8));
        if known && !inline {
            let idx = read_uint(b, q + 1, small);
            if idx < 1 || idx as u128 + o as u128 >= len as u128 {
                return false;
            }
            if depth == 0 {
                return false;
            }
            let target = o + idx as usize;
            if !check_value(b, t, target, depth - 1) {
                return false;
            }
        }
        proof {
            assert(q + ves == vt + (j + 1) * ves) by (nonlinear_arith)
                requires
                    q == vt + j * ves,
            ;
        }
        j = j + 1;
        q = q + ves;
    }
    proof {
        assert(table_end == entries_end(b@, o as int, small, array));
    }
    if array {
        return true;
    }
    // The keys, read after the entries.
    let mut i: usize = 0;
    let mut kq: usize = o + 2 * w;
    let mut pos: u128 = table_end as u128;
    proof {
        assert(keys_ok(b@, o as int, small, n as int, 0, table_end as int) == keys_ok(
            b@,
            o as int,
            small,
            n as int,
            i as int,
            pos as int,
        ));
    }
    while i < n
        invariant
            len == b@.len(),
            !array,
            o + 2 * w <= len,
            n == uint_at(b@, o as int, small),
            table_end == entries_end(b@, o as int, small, array),
            entries_ok(b@, o as int, small, array, n as int, 0, depth as nat),
            w == width(small),
            kes == key_entry_size(small),
            vt == o + 2 * w + n * kes,
            vt <= table_end,
            table_end <= len,
            i <= n,
            kq == o + 2 * w + i * kes,
            pos <= u64::MAX as int * 4,
            keys_ok(b@, o as int, small, n as int, 0, table_end as int) == keys_ok(
                b@,
                o as int,
                small,
                n as int,
                i as int,
                pos as int,
            ),
        decreases n - i,
    {
        proof {
            assert(kq + kes <= vt) by (nonlinear_arith)
                requires
                    kq == o + 2 * w + i * kes,
                    vt == o + 2 * w + n * kes,
                    i < n,
            ;
        }
        let k = read_uint(b, kq, small);
        let l = b[kq + w] as u128 + 256 * b[kq + w + 1] as u128;
        if (o as u128) + (k as u128) < pos {
            return false;
        }
        pos = o as u128 + k as u128 + l;
        proof {
            assert(kq + kes == o + 2 * w + (i + 1) * kes) by (nonlinear_arith)
                requires
                    kq == o + 2 * w + i * kes,
            ;
        }
        i = i + 1;
        kq = kq + kes;
    }
    true
}

/// Whether the binlog decoder's JSON reader takes document `b`.
pub fn check_document(b: &Vec<u8>) -> (r: bool)
    ensures
        r == document_ok(b@),
{
    if b.len() == 0 {
        return false;
    }
    b[0] > 0x0f || check_value(b, b[0], 1, MAX_DEPTH)
}

} // verus!
