use vstd::prelude::*;
use crate::bytes::{append_bytes, zeros};
use crate::crypto::{sha512_256, sha512_256_of};

verus! {

/// SHA-512/256 over a one-byte tag followed by the data.
pub open spec fn tagged_hash(tag: u8, data: Seq<u8>) -> Seq<u8> {
    sha512_256_of(seq![tag] + data)
}

/// The hash of a leaf of the transaction tree.
pub open spec fn leaf_hash_of(data: Seq<u8>) -> Seq<u8> {
    tagged_hash(0u8, data)
}

/// The hash of an inner node of the transaction tree.
pub open spec fn node_hash_of(left: Seq<u8>, right: Seq<u8>) -> Seq<u8> {
    tagged_hash(1u8, left + right)
}

/// A row of odd length gets its last node repeated.
pub open spec fn pad_row(row: Seq<Seq<u8>>) -> Seq<Seq<u8>> {
    if row.len() % 2 == 1 {
        row.push(row.last())
    } else {
        row
    }
}

/// Hashes neighbouring pairs of an even row.
pub open spec fn pair_row(row: Seq<Seq<u8>>) -> Seq<Seq<u8>> {
    Seq::new(row.len() / 2, |j: int| node_hash_of(row[2 * j], row[2 * j + 1]))
}

/// The row above `row` in the tree.
pub open spec fn next_row(row: Seq<Seq<u8>>) -> Seq<Seq<u8>> {
    pair_row(pad_row(row))
}

/// Climbs from a non-empty row to the single root above it.
pub open spec fn fold_rows(row: Seq<Seq<u8>>) -> Seq<u8>
    decreases row.len(),
{
    if row.len() == 0 {
        zeros(32)
    } else {
        let up = next_row(row);
        // a row of two or more nodes always shrinks; the second test only
        // makes that visible to the termination check
        if up.len() <= 1 || up.len() >= row.len() {
            up[0]
        } else {
            fold_rows(up)
        }
    }
}

/// The Merkle root over a list of leaf data: all zeros for no leaves, else the root
/// of the tree whose bottom row holds the leaf hashes.
pub open spec fn merkle_root_of(data: Seq<Seq<u8>>) -> Seq<u8> {
    if data.len() == 0 {
        zeros(32)
    } else {
        fold_rows(data.map_values(|d: Seq<u8>| leaf_hash_of(d)))
    }
}

/// The byte strings of a list of 32-byte hashes.
pub open spec fn hashes_view(v: Seq<[u8; 32]>) -> Seq<Seq<u8>> {
    v.map_values(|h: [u8; 32]| h@)
}

/// A row of length at least two shrinks on the way up.
pub proof fn lemma_next_row_len(row: Seq<Seq<u8>>)
    requires
        row.len() >= 1,
    ensures
        next_row(row).len() == (row.len() + 1) / 2,
        next_row(row).len() >= 1,
        row.len() >= 2 ==> next_row(row).len() < row.len(),
{
}

fn tagged_hash_exec(tag: u8, data: &[u8]) -> (r: [u8; 32])
    ensures
        r@ == tagged_hash(tag, data@),
{
    let mut buf: Vec<u8> = Vec::new();
    buf.push(tag);
    append_bytes(&mut buf, data);
    assert(buf@ == seq![tag] + data@);
    sha512_256(buf.as_slice())
}

fn node_hash(left: &[u8; 32], right: &[u8; 32]) -> (r: [u8; 32])
    ensures
        r@ == node_hash_of(left@, right@),
{
    let mut both: Vec<u8> = Vec::new();
    append_bytes(&mut both, left);
    append_bytes(&mut both, right);
    assert(both@ == left@ + right@);
    tagged_hash_exec(1u8, both.as_slice())
}

fn next_row_exec(row: &Vec<[u8; 32]>) -> (r: Vec<[u8; 32]>)
    requires
        row@.len() >= 1,
    ensures
        hashes_view(r@) == next_row(hashes_view(row@)),
{
    let mut padded = row.clone();
    if padded.len() % 2 == 1 {
        let last = padded[padded.len() - 1];
        padded.push(last);
    }
    assert(hashes_view(padded@) == pad_row(hashes_view(row@)));
    let plen = padded.len();
    let half = plen / 2;
    let mut out: Vec<[u8; 32]> = Vec::new();
    let mut j: usize = 0;
    while j < half
        invariant
            half == padded@.len() / 2,
            plen == padded@.len(),
            2 * half == plen,
            padded@.len() % 2 == 0,
            j <= half,
            out@.len() == j,
            forall|k: int|
                0 <= k < j ==> #[trigger] out@[k]@ == node_hash_of(
                    padded@[2 * k]@,
                    padded@[2 * k + 1]@,
                ),
        decreases half - j,
    {
        let h = node_hash(&padded[2 * j], &padded[2 * j + 1]);
        out.push(h);
        j += 1;
    }
    assert(hashes_view(out@) == pair_row(hashes_view(padded@)));
    out
}

/// The Merkle root over a list of 32-byte leaves.
pub fn merkle_root(data: &Vec<[u8; 32]>) -> (r: [u8; 32])
    ensures
        r@ == merkle_root_of(hashes_view(data@)),
{
    if data.len() == 0 {
        let z = [0u8; 32];
        assert(z@ == zeros(32));
        return z;
    }
    let mut row: Vec<[u8; 32]> = Vec::new();
    let mut i: usize = 0;
    while i < data.len()
        invariant
            i <= data@.len(),
            row@.len() == i,
            forall|k: int| 0 <= k < i ==> #[trigger] row@[k]@ == leaf_hash_of(data@[k]@),
        decreases data@.len() - i,
    {
        let h = tagged_hash_exec(0u8, &data[i]);
        row.push(h);
        i += 1;
    }
    assert(hashes_view(row@) == hashes_view(data@).map_values(|d: Seq<u8>| leaf_hash_of(d)));
    loop
        invariant
            row@.len() >= 1,
            fold_rows(hashes_view(row@)) == merkle_root_of(hashes_view(data@)),
        decreases row@.len(),
    {
        let up = next_row_exec(&row);
        proof {
            lemma_next_row_len(hashes_view(row@));
        }
        if up.len() <= 1 {
            return up[0];
        }
        row = up;
    }
}

} // verus!
