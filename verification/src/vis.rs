//! The visibility lump: per-cluster potentially-visible and
//! potentially-audible offsets over a run-length-encoded bit blob.
//!
//! A nonzero byte of the blob is a literal mask for the next eight
//! clusters; a zero byte is followed by a count byte standing for that
//! many groups of eight clusters, all not visible.

use vstd::prelude::*;
use crate::bytes::le32;

verus! {

/// How a decoded visibility value relates to its lump bytes: a lump
/// smaller than two integers stands for an omitted set and decodes to
/// the empty default; otherwise the leading cluster count, one offset
/// pair per cluster, and the trailing blob are taken as stored.
pub open spec fn visdata_decodes(v: VisData, b: Seq<u8>) -> bool {
    if b.len() < 8 {
        &&& v.cluster_count == 0
        &&& v.pvs_offsets@ == Seq::<u32>::empty()
        &&& v.pas_offsets@ == Seq::<u32>::empty()
        &&& v.data@ == Seq::<u8>::empty()
    } else {
        &&& v.cluster_count == le32(b, 0)
        &&& v.wf()
        &&& forall|i: int| 0 <= i < v.cluster_count ==> v.pvs_offsets@[i] == le32(b, 4 + 8 * i)
        &&& forall|i: int| 0 <= i < v.cluster_count ==> v.pas_offsets@[i] == le32(b, 4 + 8 * i + 4)
        &&& v.data@ == b.subrange(4 + 8 * (v.cluster_count as int), b.len() as int)
    }
}

/// The decoded visibility lump.
#[derive(Clone, Debug)]
pub struct VisData {
    /// How many visibility clusters the map declares.
    pub cluster_count: u32,
    /// Per cluster, the byte offset of its potentially-visible set in `data`.
    pub pvs_offsets: Vec<u32>,
    /// Per cluster, the byte offset of its potentially-audible set in `data`.
    pub pas_offsets: Vec<u32>,
    /// The raw run-length-encoded bit-vector blob.
    pub data: Vec<u8>,
}

impl VisData {
    /// Both offset arrays carry one entry per cluster.
    pub open spec fn wf(self) -> bool {
        &&& self.pvs_offsets@.len() == self.cluster_count
        &&& self.pas_offsets@.len() == self.cluster_count
    }
}

impl Default for VisData {
    /// The empty visibility set: zero clusters, no data.
    fn default() -> (r: Self)
        ensures
            r.cluster_count == 0,
            r.pvs_offsets@ == Seq::<u32>::empty(),
            r.pas_offsets@ == Seq::<u32>::empty(),
            r.data@ == Seq::<u8>::empty(),
            r.wf(),
    {
        VisData { cluster_count: 0, pvs_offsets: Vec::new(), pas_offsets: Vec::new(), data: Vec::new() }
    }
}

/// The divisor selecting bit `i` of a byte.
pub open spec fn bit_mask(i: int) -> int {
    if i == 0 { 1 }
    else if i == 1 { 2 }
    else if i == 2 { 4 }
    else if i == 3 { 8 }
    else if i == 4 { 16 }
    else if i == 5 { 32 }
    else if i == 6 { 64 }
    else { 128 }
}

/// Whether bit `i` (least significant first) of `b` is set.
pub open spec fn bit_of(b: u8, i: int) -> bool {
    (b as int / bit_mask(i)) % 2 == 1
}

fn bit_of_exec(b: u8, i: usize) -> (r: bool)
    requires
        i < 8,
    ensures
        r == bit_of(b, i as int),
{
    let mask: u32 = if i == 0 { 1 }
        else if i == 1 { 2 }
        else if i == 2 { 4 }
        else if i == 3 { 8 }
        else if i == 4 { 16 }
        else if i == 5 { 32 }
        else if i == 6 { 64 }
        else { 128 };
    (b as u32 / mask) % 2 == 1
}

/// The visibility bits decoded from the run-length-encoded stream in
/// `data` starting at byte `pos`, until `count` bits are produced.  Where
/// the stream ends early, the remaining bits are unset.
pub open spec fn rle_bits(data: Seq<u8>, pos: int, count: int) -> Seq<bool>
    decreases data.len() + 2 - pos,
{
    if count <= 0 {
        Seq::empty()
    } else if pos < 0 || pos >= data.len() {
        Seq::new(count as nat, |i: int| false)
    } else if data[pos] == 0 {
        if pos + 1 >= data.len() {
            Seq::new(count as nat, |i: int| false)
        } else {
            let skip = 8 * (data[pos + 1] as int);
            let head = if skip < count { skip } else { count };
            Seq::new(head as nat, |i: int| false) + rle_bits(data, pos + 2, count - skip)
        }
    } else {
        let head = if 8 < count { 8 } else { count };
        Seq::new(head as nat, |i: int| bit_of(data[pos], i)) + rle_bits(data, pos + 1, count - 8)
    }
}

/// The decoded bit sequence covers exactly the bits asked for.
pub proof fn lemma_rle_len(data: Seq<u8>, pos: int, count: int)
    ensures
        rle_bits(data, pos, count).len() == if count > 0 { count } else { 0 },
    decreases data.len() + 2 - pos,
{
    if count <= 0 {
    } else if pos < 0 || pos >= data.len() {
    } else if data[pos] == 0 {
        if pos + 1 >= data.len() {
        } else {
            lemma_rle_len(data, pos + 2, count - 8 * (data[pos + 1] as int));
        }
    } else {
        lemma_rle_len(data, pos + 1, count - 8);
    }
}

fn vec_falses(n: usize) -> (r: Vec<bool>)
    ensures
        r@ == Seq::new(n as nat, |i: int| false),
{
    let mut out: Vec<bool> = Vec::new();
    let mut i: usize = 0;
    while i < n
        invariant
            0 <= i <= n,
            out@ == Seq::new(i as nat, |k: int| false),
        decreases n - i,
    {
        out.push(false);
        proof {
            assert(out@ =~= Seq::new((i + 1) as nat, |k: int| false));
        }
        i = i + 1;
    }
    out
}

/// Decodes the run-length-encoded bit stream of `data` from `pos` until
/// `count` bits are produced.
fn rle_decode(data: &[u8], pos: usize, count: usize) -> (r: Vec<bool>)
    ensures
        r@ == rle_bits(data@, pos as int, count as int),
    decreases data@.len() + 2 - pos,
{
    let n = data.len();
    if count == 0 {
        Vec::new()
    } else if pos >= n {
        vec_falses(count)
    } else if data[pos] == 0 {
        if pos + 1 >= n {
            vec_falses(count)
        } else {
            let skip_groups = data[pos + 1] as usize;
            let skip = 8 * skip_groups;
            let head = if skip < count { skip } else { count };
            let mut out = vec_falses(head);
            if skip < count {
                let mut tail = rle_decode(data, pos + 2, count - skip);
                out.append(&mut tail);
            }
            proof {
                if skip >= count {
                    assert(rle_bits(data@, pos + 2, count - 8 * (data@[pos + 1] as int))
                        == Seq::<bool>::empty());
                }
                assert(out@ =~= rle_bits(data@, pos as int, count as int));
            }
            out
        }
    } else {
        let b = data[pos];
        let head = if 8 < count { 8 } else { count };
        let mut out: Vec<bool> = Vec::new();
        let mut i: usize = 0;
        while i < head
            invariant
                0 <= i <= head,
                head <= 8,
                pos < data@.len(),
                b == data@[pos as int],
                out@ == Seq::new(i as nat, |k: int| bit_of(b, k)),
            decreases head - i,
        {
            out.push(bit_of_exec(b, i));
            proof {
                assert(out@ =~= Seq::new((i + 1) as nat, |k: int| bit_of(b, k)));
            }
            i = i + 1;
        }
        if count > 8 {
            let mut tail = rle_decode(data, pos + 1, count - 8);
            out.append(&mut tail);
        }
        proof {
            if count <= 8 {
                assert(rle_bits(data@, pos + 1, count - 8) == Seq::<bool>::empty());
            }
            assert(out@ =~= rle_bits(data@, pos as int, count as int));
        }
        out
    }
}

impl VisData {
    /// The potentially-visible set of `cluster`, decoded on demand: one
    /// bit per cluster of the map, queryable by cluster index.
    pub fn visible_clusters(&self, cluster: i16) -> (r: Vec<bool>)
        requires
            self.wf(),
            0 <= cluster < self.cluster_count,
        ensures
            r@ == rle_bits(
                self.data@,
                self.pvs_offsets@[cluster as int] as int,
                self.cluster_count as int,
            ),
            r@.len() == self.cluster_count,
    {
        let offset = self.pvs_offsets[cluster as usize];
        let bits = rle_decode(self.data.as_slice(), offset as usize, self.cluster_count as usize);
        proof {
            lemma_rle_len(self.data@, offset as int, self.cluster_count as int);
        }
        bits
    }
}

} // verus!
