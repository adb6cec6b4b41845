//! Decoder for a compiled BSP level file: validates the binary container,
//! turns its lumps into typed record arrays, and answers graph queries
//! (spatial point classification, visibility expansion, cross references)
//! over the decoded map without mutating it.

use vstd::prelude::*;

pub mod bspfile;
pub mod bytes;
pub mod data;
pub mod entity;
pub mod error;
pub mod handle;
pub mod lzma;
pub mod reader;
pub mod vis;

pub use crate::bspfile::{BspFile, Header, LumpEntry, LumpType};
pub use crate::data::{
    Brush, BrushSide, DisplacementInfo, Edge, Face, Leaf, LeafBrush, LeafFace, Model, Node, Plane,
    SurfaceEdge, TextureData, TextureInfo, TextureStringTableEntry, Vector, Vertex,
};
pub use crate::error::{BspError, EntityParseError};
pub use crate::handle::Handle;
pub use crate::vis::VisData;

verus! {

pub type BspResult<T> = Result<T, BspError>;

/// The leaf order kept after construction: cluster ids never decrease.
pub open spec fn sorted_by_cluster(s: Seq<Leaf>) -> bool {
    forall|i: int, j: int| 0 <= i < j < s.len() ==> s[i].cluster <= s[j].cluster
}

/// Places one leaf into an already-ordered array: after every leaf of a
/// cluster no greater than its own, before every strictly greater one.
pub open spec fn stable_insert(t: Seq<Leaf>, x: Leaf) -> Seq<Leaf>
    decreases t.len(),
{
    if t.len() == 0 {
        seq![x]
    } else if t.last().cluster > x.cluster {
        stable_insert(t.drop_last(), x).push(t.last())
    } else {
        t.push(x)
    }
}

/// The stable sort of a leaf array by cluster id: cluster ids never
/// decrease, and leaves of equal cluster keep their given order.
pub open spec fn stable_sorted(s: Seq<Leaf>) -> Seq<Leaf>
    decreases s.len(),
{
    if s.len() == 0 {
        Seq::empty()
    } else {
        stable_insert(stable_sorted(s.drop_last()), s.last())
    }
}

/// Where a position splits an ordered array into a prefix of clusters no
/// greater than the new leaf's and a suffix of strictly greater ones,
/// the stable insertion lands exactly there.
pub proof fn lemma_stable_insert_at(t: Seq<Leaf>, x: Leaf, p: int)
    requires
        0 <= p <= t.len(),
        forall|k: int| 0 <= k < p ==> t[k].cluster <= x.cluster,
        forall|k: int| p <= k < t.len() ==> t[k].cluster > x.cluster,
    ensures
        stable_insert(t, x) == t.subrange(0, p).push(x) + t.subrange(p, t.len() as int),
    decreases t.len(),
{
    if t.len() == 0 {
        assert(stable_insert(t, x) =~= t.subrange(0, p).push(x) + t.subrange(p, t.len() as int));
    } else if t.last().cluster > x.cluster {
        assert(p < t.len());
        assert(forall|k: int| 0 <= k < p ==> t.drop_last()[k] == t[k]);
        lemma_stable_insert_at(t.drop_last(), x, p);
        assert(t.drop_last().subrange(0, p) =~= t.subrange(0, p));
        assert(t.drop_last().subrange(p, t.drop_last().len() as int) =~= t.subrange(
            p,
            t.len() - 1,
        ));
        assert(stable_insert(t, x) =~= t.subrange(0, p).push(x) + t.subrange(p, t.len() as int));
    } else {
        assert(p == t.len());
        assert(t.subrange(0, p) =~= t);
        assert(stable_insert(t, x) =~= t.subrange(0, p).push(x) + t.subrange(p, t.len() as int));
    }
}

/// The leaf array of a decoded map, reordered once at construction so
/// that each cluster's leaves form one contiguous run.
#[derive(Debug)]
pub struct Leaves {
    leaves: Vec<Leaf>,
}

impl View for Leaves {
    type V = Seq<Leaf>;

    closed spec fn view(&self) -> Seq<Leaf> {
        self.leaves@
    }
}

impl Leaves {
    /// Leaves stay sorted by cluster id for the whole life of the value:
    /// every holder can recover the order with `use_type_invariant`.
    #[verifier::type_invariant]
    pub open spec fn inv(self) -> bool {
        sorted_by_cluster(self.view())
    }

    /// Reorders the given leaves by cluster id ascending, keeping leaves
    /// of equal cluster in their given order: the result is exactly the
    /// stable sort of the input.
    pub fn new(leaves: Vec<Leaf>) -> (r: Leaves)
        ensures
            r@ == stable_sorted(leaves@),
            sorted_by_cluster(r@),
            r@.to_multiset() == leaves@.to_multiset(),
            r@.len() == leaves@.len(),
    {
        broadcast use vstd::seq_lib::group_to_multiset_ensures;

        let n = leaves.len();
        let mut sorted: Vec<Leaf> = Vec::new();
        let mut i: usize = 0;
        while i < n
            invariant
                0 <= i <= n,
                n == leaves@.len(),
                sorted@.len() == i,
                sorted_by_cluster(sorted@),
                sorted@ == stable_sorted(leaves@.subrange(0, i as int)),
                sorted@.to_multiset() == leaves@.subrange(0, i as int).to_multiset(),
            decreases n - i,
        {
            broadcast use vstd::seq_lib::group_to_multiset_ensures;

            let leaf = leaves[i];
            let mut p: usize = sorted.len();
            while p > 0 && sorted[p - 1].cluster > leaf.cluster
                invariant
                    0 <= p <= sorted@.len(),
                    forall|k: int| p <= k < sorted@.len() ==> sorted@[k].cluster > leaf.cluster,
                decreases p,
            {
                p = p - 1;
            }
            proof {
                assert(forall|k: int| 0 <= k < p ==> sorted@[k].cluster <= leaf.cluster);
            }
            let ghost old_sorted = sorted@;
            sorted.insert(p, leaf);
            proof {
                lemma_stable_insert_at(old_sorted, leaf, p as int);
                assert(sorted@ =~= old_sorted.subrange(0, p as int).push(leaf) + old_sorted
                    .subrange(p as int, old_sorted.len() as int));
                assert(sorted@.remove(p as int) =~= old_sorted);
                assert(sorted@.to_multiset().contains(leaf)) by {
                    assert(sorted@[p as int] == leaf);
                    assert(sorted@.contains(leaf));
                }
                assert(sorted@.to_multiset().remove(leaf) =~= old_sorted.to_multiset());
                assert(sorted@.to_multiset() =~= old_sorted.to_multiset().insert(leaf));
                assert(leaves@.subrange(0, i + 1) =~= leaves@.subrange(0, i as int).push(leaf));
                assert(leaves@.subrange(0, i + 1).drop_last() =~= leaves@.subrange(0, i as int));
                assert(leaves@.subrange(0, i + 1).last() == leaf);
                assert(sorted@ == stable_sorted(leaves@.subrange(0, i + 1)));
                assert(sorted_by_cluster(sorted@)) by {
                    assert(forall|k: int| 0 <= k < p ==> sorted@[k] == old_sorted[k]);
                    assert(forall|k: int| p < k < sorted@.len() ==> sorted@[k] == old_sorted[k - 1]);
                }
            }
            i = i + 1;
        }
        proof {
            assert(leaves@.subrange(0, n as int) =~= leaves@);
        }
        Leaves { leaves: sorted }
    }

    /// How many leaves the map holds.
    pub fn len(&self) -> (n: usize)
        ensures
            n == self@.len(),
    {
        self.leaves.len()
    }

    /// The leaf at position `n`, where there is one.
    pub fn get(&self, n: usize) -> (r: Option<&Leaf>)
        ensures
            r is Some <==> n < self@.len(),
            r matches Some(l) ==> l == self@[n as int],
    {
        if n < self.leaves.len() {
            Some(&self.leaves[n])
        } else {
            None
        }
    }

    /// The leaves in their kept order.
    pub fn iter(&self) -> (r: Vec<Leaf>)
        ensures
            r@ == self@,
    {
        let mut out: Vec<Leaf> = Vec::new();
        let mut i: usize = 0;
        while i < self.leaves.len()
            invariant
                0 <= i <= self.leaves@.len(),
                out@ == self@.subrange(0, i as int),
                self@ == self.leaves@,
            decreases self.leaves@.len() - i,
        {
            out.push(self.leaves[i]);
            proof {
                assert(out@ =~= self@.subrange(0, i + 1));
            }
            i = i + 1;
        }
        proof {
            assert(out@ =~= self@);
        }
        out
    }

    /// Gives the leaf array up.
    pub fn into_inner(self) -> (r: Vec<Leaf>)
        ensures
            r@ == self@,
    {
        self.leaves
    }

    /// The leaves grouped into contiguous cluster runs, in kept order.
    pub fn clusters(&self) -> (r: Vec<Vec<Leaf>>)
        ensures
            r@.map_values(|g: Vec<Leaf>| g@) == groups_from(self@, 0),
    {
        let n = self.leaves.len();
        let mut out: Vec<Vec<Leaf>> = Vec::new();
        let mut idx: usize = 0;
        while idx < n
            invariant
                0 <= idx <= n,
                n == self@.len(),
                self@ == self.leaves@,
                groups_from(self@, 0) == out@.map_values(|g: Vec<Leaf>| g@) + groups_from(
                    self@,
                    idx as int,
                ),
            decreases n - idx,
        {
            let c = self.leaves[idx].cluster;
            let mut j: usize = idx + 1;
            while j < n && self.leaves[j].cluster == c
                invariant
                    idx + 1 <= j <= n,
                    n == self@.len(),
                    self@ == self.leaves@,
                    forall|k: int| idx + 1 <= k < j ==> self@[k].cluster == c,
                decreases n - j,
            {
                j = j + 1;
            }
            proof {
                lemma_next_change_at(self@, idx + 1, j as int, c);
            }
            let mut group: Vec<Leaf> = Vec::new();
            let mut k: usize = idx;
            while k < j
                invariant
                    idx <= k <= j <= self@.len(),
                    self@ == self.leaves@,
                    group@ == self@.subrange(idx as int, k as int),
                decreases j - k,
            {
                group.push(self.leaves[k]);
                proof {
                    assert(group@ =~= self@.subrange(idx as int, k + 1));
                }
                k = k + 1;
            }
            let ghost old_out = out@;
            out.push(group);
            proof {
                assert(out@.map_values(|g: Vec<Leaf>| g@) =~= old_out.map_values(
                    |g: Vec<Leaf>| g@,
                ).push(group@));
                assert(groups_from(self@, idx as int) == seq![self@.subrange(idx as int, j as int)]
                    + groups_from(self@, j as int));
                assert(out@.map_values(|g: Vec<Leaf>| g@) + groups_from(self@, j as int)
                    =~= old_out.map_values(|g: Vec<Leaf>| g@) + groups_from(self@, idx as int));
            }
            idx = j;
        }
        proof {
            assert(out@.map_values(|g: Vec<Leaf>| g@) =~= out@.map_values(|g: Vec<Leaf>| g@)
                + groups_from(self@, n as int));
        }
        out
    }
}

/// The first position at or after `j` where the cluster id differs from
/// `c`; the array's length where none does.
pub open spec fn next_change(s: Seq<Leaf>, j: int, c: i16) -> int
    decreases s.len() - j when 0 <= j <= s.len()
{
    if j >= s.len() {
        s.len() as int
    } else if s[j].cluster != c {
        j
    } else {
        next_change(s, j + 1, c)
    }
}

/// `next_change` stays within bounds and is exactly the end of the run.
pub proof fn lemma_next_change_bounds(s: Seq<Leaf>, j: int, c: i16)
    requires
        0 <= j <= s.len(),
    ensures
        j <= next_change(s, j, c) <= s.len(),
        forall|k: int| j <= k < next_change(s, j, c) ==> s[k].cluster == c,
        next_change(s, j, c) < s.len() ==> s[next_change(s, j, c)].cluster != c,
    decreases s.len() - j,
{
    if j >= s.len() {
    } else if s[j].cluster != c {
    } else {
        lemma_next_change_bounds(s, j + 1, c);
    }
}

/// A run of equal clusters followed by a change (or the end) pins
/// `next_change` down.
pub proof fn lemma_next_change_at(s: Seq<Leaf>, j: int, end: int, c: i16)
    requires
        0 <= j <= end <= s.len(),
        forall|k: int| j <= k < end ==> s[k].cluster == c,
        end < s.len() ==> s[end].cluster != c,
    ensures
        next_change(s, j, c) == end,
    decreases end - j,
{
    if j < end {
        lemma_next_change_at(s, j + 1, end, c);
    }
}

/// The leaves from position `from` on, grouped into maximal contiguous
/// runs of equal cluster id.
pub open spec fn groups_from(s: Seq<Leaf>, from: int) -> Seq<Seq<Leaf>>
    decreases s.len() - from when 0 <= from <= s.len() via groups_from_dec
{
    if from >= s.len() {
        Seq::empty()
    } else {
        let n = next_change(s, from + 1, s[from].cluster);
        seq![s.subrange(from, n)] + groups_from(s, n)
    }
}

#[via_fn]
proof fn groups_from_dec(s: Seq<Leaf>, from: int) {
    if 0 <= from < s.len() {
        lemma_next_change_bounds(s, from + 1, s[from].cluster);
    }
}

/// Grouping partitions the array: the groups concatenate back to it,
/// every group is a non-empty run of one cluster id, and consecutive
/// groups carry different cluster ids.
pub proof fn lemma_groups_partition(s: Seq<Leaf>, from: int)
    requires
        0 <= from <= s.len(),
    ensures
        groups_from(s, from).flatten() == s.subrange(from, s.len() as int),
        forall|g: int| 0 <= g < groups_from(s, from).len() ==> #[trigger] groups_from(
            s,
            from,
        )[g].len() > 0,
        forall|g: int, k: int|
            0 <= g < groups_from(s, from).len() && 0 <= k < groups_from(s, from)[g].len()
                ==> (#[trigger] groups_from(s, from)[g][k]).cluster == groups_from(s, from)[g][0].cluster,
        forall|g: int| 0 <= g && g + 1 < groups_from(s, from).len() ==> (#[trigger] groups_from(
            s,
            from,
        )[g])[0].cluster != groups_from(s, from)[g + 1][0].cluster,
    decreases s.len() - from,
{
    if from >= s.len() {
        assert(groups_from(s, from).flatten() =~= s.subrange(from, s.len() as int));
    } else {
        let c = s[from].cluster;
        let n = next_change(s, from + 1, c);
        lemma_next_change_bounds(s, from + 1, c);
        lemma_groups_partition(s, n);
        let head = s.subrange(from, n);
        let tail = groups_from(s, n);
        assert(groups_from(s, from) == seq![head] + tail);
        assert(groups_from(s, from).flatten() =~= head + tail.flatten()) by {
            assert((seq![head] + tail).first() == head);
            assert((seq![head] + tail).drop_first() =~= tail);
        }
        assert(head + s.subrange(n, s.len() as int) =~= s.subrange(from, s.len() as int));
        if n < s.len() {
            assert(tail.len() > 0);
            assert(tail[0] == s.subrange(n, next_change(s, n + 1, s[n].cluster)));
            lemma_next_change_bounds(s, n + 1, s[n].cluster);
            assert(tail[0][0] == s[n]);
        }
        assert forall|g: int| 0 <= g && g + 1 < groups_from(s, from).len() implies (#[trigger]
        groups_from(s, from)[g])[0].cluster != groups_from(s, from)[g + 1][0].cluster by {
            assert((seq![head] + tail)[g + 1] == tail[g]);
            assert(groups_from(s, from)[g + 1] == tail[g]);
            if g == 0 {
                assert((seq![head] + tail)[0] == head);
                assert(groups_from(s, from)[0] == head);
                assert(head[0] == s[from]);
                assert(n < s.len());
                assert(tail[0][0].cluster != c);
            } else {
                assert((seq![head] + tail)[g] == tail[g - 1]);
                assert(groups_from(s, from)[g] == tail[g - 1]);
            }
        }
        assert(forall|g: int, k: int|
            0 <= g < groups_from(s, from).len() && 0 <= k < groups_from(s, from)[g].len()
                ==> (#[trigger] groups_from(s, from)[g][k]).cluster == groups_from(
                s,
                from,
            )[g][0].cluster) by {
            assert(forall|k: int| 0 <= k < head.len() ==> (#[trigger] head[k]).cluster == c);
            assert(head[0].cluster == c);
        }
    }
}

/// A fully decoded map: the validated header plus every decoded array.
/// Produced whole by one decode; never mutated afterwards.
#[derive(Debug)]
pub struct Bsp {
    pub header: Header,
    pub entities: crate::entity::Entities,
    pub textures_data: Vec<TextureData>,
    pub textures_info: Vec<TextureInfo>,
    pub planes: Vec<Plane>,
    pub nodes: Vec<Node>,
    pub leaves: Leaves,
    pub leaf_faces: Vec<LeafFace>,
    pub leaf_brushes: Vec<LeafBrush>,
    pub models: Vec<Model>,
    pub brushes: Vec<Brush>,
    pub brush_sides: Vec<BrushSide>,
    pub vertices: Vec<Vertex>,
    pub edges: Vec<Edge>,
    pub surface_edges: Vec<SurfaceEdge>,
    pub faces: Vec<Face>,
    pub original_faces: Vec<Face>,
    pub vis_data: VisData,
    pub displacements: Vec<DisplacementInfo>,
    pub texture_string_tables: Vec<TextureStringTableEntry>,
    pub texture_string_data: Vec<u8>,
}

/// The bytes a given lump resolves to out of a source buffer.
pub open spec fn lump_of(src: Seq<u8>, l: LumpType) -> Option<Seq<u8>> {
    crate::bspfile::lump_data_spec(
        src,
        crate::bspfile::entry_spec(src, crate::bspfile::lump_index_spec(l)),
    )
}

/// The directory version value of a lump.
pub open spec fn lump_version_of(src: Seq<u8>, l: LumpType) -> u32 {
    crate::bspfile::entry_spec(src, crate::bspfile::lump_index_spec(l)).version
}

/// The typed records of a lump: absent where the lump cannot be
/// resolved or its byte length is not a multiple of the record size.
pub open spec fn decoded_lump<T: crate::reader::LumpRecord>(src: Seq<u8>, l: LumpType) -> Option<
    Seq<T>,
> {
    match lump_of(src, l) {
        Option::Some(b) => if b.len() as int % T::disk_size_spec() == 0 {
            Option::Some(crate::reader::records_spec::<T>(b))
        } else {
            Option::None
        },
        Option::None => Option::None,
    }
}

/// As `decoded_lump`, for version-dependent records, under the lump's
/// directory version.
pub open spec fn decoded_lump_ver<T: crate::reader::VersionedLumpRecord>(
    src: Seq<u8>,
    l: LumpType,
) -> Option<Seq<T>> {
    match lump_of(src, l) {
        Option::Some(b) => if b.len() as int % T::disk_size_ver_spec(lump_version_of(src, l))
            == 0 {
            Option::Some(crate::reader::records_ver_spec::<T>(b, lump_version_of(src, l)))
        } else {
            Option::None
        },
        Option::None => Option::None,
    }
}

/// Whether the visibility lump parses: an omitted lump always does, a
/// present one must hold its declared offset pairs.
pub open spec fn vis_lump_ok(b: Seq<u8>) -> bool {
    b.len() < 8 || 4 + 8 * crate::bytes::le32(b, 0) <= b.len()
}

/// Everything a full decode needs: a valid container, every required
/// lump resolvable, every fixed-record lump of a dividing byte length,
/// and a parsable visibility lump.  A decode succeeds exactly here.
pub open spec fn reads_ok(src: Seq<u8>) -> bool {
    &&& crate::bspfile::container_ok(src)
    &&& lump_of(src, LumpType::Entities) is Some
    &&& decoded_lump::<TextureData>(src, LumpType::TextureData) is Some
    &&& decoded_lump::<TextureInfo>(src, LumpType::TextureInfo) is Some
    &&& decoded_lump::<Plane>(src, LumpType::Planes) is Some
    &&& decoded_lump::<Node>(src, LumpType::Nodes) is Some
    &&& decoded_lump_ver::<Leaf>(src, LumpType::Leaves) is Some
    &&& decoded_lump::<LeafFace>(src, LumpType::LeafFaces) is Some
    &&& decoded_lump::<LeafBrush>(src, LumpType::LeafBrushes) is Some
    &&& decoded_lump::<Model>(src, LumpType::Models) is Some
    &&& decoded_lump::<Brush>(src, LumpType::Brushes) is Some
    &&& decoded_lump::<BrushSide>(src, LumpType::BrushSides) is Some
    &&& decoded_lump::<Vertex>(src, LumpType::Vertices) is Some
    &&& decoded_lump::<Edge>(src, LumpType::Edges) is Some
    &&& decoded_lump::<SurfaceEdge>(src, LumpType::SurfaceEdges) is Some
    &&& decoded_lump::<Face>(src, LumpType::Faces) is Some
    &&& decoded_lump::<Face>(src, LumpType::OriginalFaces) is Some
    &&& (lump_of(src, LumpType::Visibility) matches Some(vb) && vis_lump_ok(vb))
    &&& decoded_lump::<DisplacementInfo>(src, LumpType::DisplacementInfo) is Some
    &&& decoded_lump::<TextureStringTableEntry>(src, LumpType::TextureDataStringTable) is Some
    &&& lump_of(src, LumpType::TextureDataStringData) is Some
}

/// The failure validating the container alone produces, in check order:
/// a buffer too short for the header, a magic or version mismatch, then
/// a buffer too short for the directory.
pub open spec fn container_err(src: Seq<u8>) -> Option<BspError> {
    if src.len() < 8 {
        Option::Some(BspError::Truncated)
    } else if !crate::bspfile::magic_ok(src) {
        Option::Some(BspError::UnexpectedHeader(crate::bspfile::header_of(src)))
    } else if src.len() < crate::bspfile::container_head_len() {
        Option::Some(BspError::Truncated)
    } else {
        Option::None
    }
}

/// The failure resolving one lump produces, in check order: a directory
/// entry outside the buffer, then a rejected compressed payload.
pub open spec fn lump_err(src: Seq<u8>, l: LumpType) -> Option<BspError> {
    let entry = crate::bspfile::entry_spec(src, crate::bspfile::lump_index_spec(l));
    if entry.offset + entry.length > src.len() {
        Option::Some(BspError::LumpOutOfBounds(entry))
    } else if entry.ident != 0 && crate::lzma::decompress_spec(
        crate::bspfile::lump_raw_spec(src, entry),
    ) is None {
        Option::Some(BspError::Decompression)
    } else {
        Option::None
    }
}

/// The failure decoding one fixed-record lump produces: resolving comes
/// first, then the byte-length check naming the lump, the element size
/// and the length.
pub open spec fn records_err<T: crate::reader::LumpRecord>(src: Seq<u8>, l: LumpType) -> Option<
    BspError,
> {
    match lump_err(src, l) {
        Option::Some(e) => Option::Some(e),
        Option::None => {
            let b = lump_of(src, l)->Some_0;
            if b.len() as int % T::disk_size_spec() == 0 {
                Option::None
            } else {
                Option::Some(BspError::InvalidLumpSize {
                    lump: l,
                    element_size: T::disk_size_spec() as usize,
                    lump_size: b.len() as usize,
                })
            }
        },
    }
}

/// As `records_err`, for version-dependent records under the lump's
/// directory version.
pub open spec fn records_err_ver<T: crate::reader::VersionedLumpRecord>(
    src: Seq<u8>,
    l: LumpType,
) -> Option<BspError> {
    match lump_err(src, l) {
        Option::Some(e) => Option::Some(e),
        Option::None => {
            let b = lump_of(src, l)->Some_0;
            if b.len() as int % T::disk_size_ver_spec(lump_version_of(src, l)) == 0 {
                Option::None
            } else {
                Option::Some(BspError::InvalidLumpSize {
                    lump: l,
                    element_size: T::disk_size_ver_spec(lump_version_of(src, l)) as usize,
                    lump_size: b.len() as usize,
                })
            }
        },
    }
}

/// The failure decoding the visibility lump produces: resolving comes
/// first, then the room needed for the declared offset pairs.
pub open spec fn vis_err(src: Seq<u8>) -> Option<BspError> {
    match lump_err(src, LumpType::Visibility) {
        Option::Some(e) => Option::Some(e),
        Option::None => {
            let b = lump_of(src, LumpType::Visibility)->Some_0;
            if vis_lump_ok(b) {
                Option::None
            } else {
                Option::Some(BspError::Truncated)
            }
        },
    }
}

/// The earlier of two failures.
pub open spec fn first_of(a: Option<BspError>, b: Option<BspError>) -> Option<BspError> {
    if a is Some {
        a
    } else {
        b
    }
}

/// The first failure a full decode meets, in decode order: container
/// validation, then each required lump in the order the decode reads
/// them.  A decode returns exactly this error, or succeeds where there
/// is none.
pub open spec fn first_decode_err(src: Seq<u8>) -> Option<BspError> {
    first_of(container_err(src),
    first_of(lump_err(src, LumpType::Entities),
    first_of(records_err::<TextureData>(src, LumpType::TextureData),
    first_of(records_err::<TextureInfo>(src, LumpType::TextureInfo),
    first_of(records_err::<Plane>(src, LumpType::Planes),
    first_of(records_err::<Node>(src, LumpType::Nodes),
    first_of(records_err_ver::<Leaf>(src, LumpType::Leaves),
    first_of(records_err::<LeafFace>(src, LumpType::LeafFaces),
    first_of(records_err::<LeafBrush>(src, LumpType::LeafBrushes),
    first_of(records_err::<Model>(src, LumpType::Models),
    first_of(records_err::<Brush>(src, LumpType::Brushes),
    first_of(records_err::<BrushSide>(src, LumpType::BrushSides),
    first_of(records_err::<Vertex>(src, LumpType::Vertices),
    first_of(records_err::<Edge>(src, LumpType::Edges),
    first_of(records_err::<SurfaceEdge>(src, LumpType::SurfaceEdges),
    first_of(records_err::<Face>(src, LumpType::Faces),
    first_of(records_err::<Face>(src, LumpType::OriginalFaces),
    first_of(vis_err(src),
    first_of(records_err::<DisplacementInfo>(src, LumpType::DisplacementInfo),
    first_of(records_err::<TextureStringTableEntry>(src, LumpType::TextureDataStringTable),
    lump_err(src, LumpType::TextureDataStringData)))))))))))))))))))))
}

/// The signed distance sign test of a point against a plane: the dot
/// product of the point with the plane normal, compared with the plane's
/// distance along that normal.
pub open spec fn dot(p: Vector, n: Vector) -> int {
    p.x * n.x + p.y * n.y + p.z * n.z
}

/// The spatial descent of `point` from node `idx`: at each node, the
/// point goes to the front child where it lies on or above the splitting
/// plane, else to the back child; a negative child value is the bitwise
/// complement of the terminal leaf's index.  Out-of-range references and
/// exhausted fuel end the descent with no result.
pub open spec fn descend_spec(bsp: Bsp, point: Vector, idx: int, fuel: nat) -> Option<int>
    decreases fuel,
{
    if fuel == 0 {
        None
    } else if !(0 <= idx < bsp.nodes@.len()) {
        None
    } else {
        let node = bsp.nodes@[idx];
        if !(0 <= node.plane_index < bsp.planes@.len()) {
            None
        } else {
            let plane = bsp.planes@[node.plane_index as int];
            let next = if dot(point, plane.normal) < plane.dist {
                node.children[1]
            } else {
                node.children[0]
            };
            if next < 0 {
                let leaf_idx = -(next + 1);
                if leaf_idx < bsp.leaves@.len() {
                    Some(leaf_idx)
                } else {
                    None
                }
            } else {
                descend_spec(bsp, point, next as int, (fuel - 1) as nat)
            }
        }
    }
}

/// Point classification against a single splitting plane: in a map with
/// one node whose children are the complements of leaf indices 0 and 1,
/// a point on or above the plane resolves to the front leaf (index 0)
/// and a point strictly below it to the back leaf (index 1) — a point
/// exactly on the plane counts as front.
pub proof fn lemma_two_leaf_classification(bsp: Bsp, point: Vector)
    requires
        bsp.nodes@.len() == 1,
        bsp.nodes@[0].children[0] == -1i32,
        bsp.nodes@[0].children[1] == -2i32,
        0 <= bsp.nodes@[0].plane_index < bsp.planes@.len(),
        bsp.leaves@.len() >= 2,
    ensures
        ({
            let plane = bsp.planes@[bsp.nodes@[0].plane_index as int];
            let outcome = descend_spec(bsp, point, 0, (bsp.nodes@.len() + 1) as nat);
            &&& dot(point, plane.normal) >= plane.dist ==> outcome == Some(0int)
            &&& dot(point, plane.normal) < plane.dist ==> outcome == Some(1int)
        }),
{
}

/// Computes the dot product of a point with a plane normal in wide
/// integer arithmetic, which cannot overflow.
fn dot_exec(p: &Vector, n: &Vector) -> (r: i128)
    ensures
        r as int == dot(*p, *n),
{
    let ax = p.x as i128;
    let ay = p.y as i128;
    let az = p.z as i128;
    let bx = n.x as i128;
    let by = n.y as i128;
    let bz = n.z as i128;
    proof {
        assert(-0x4000_0000_0000_0000 <= ax * bx <= 0x4000_0000_0000_0000
            && -0x4000_0000_0000_0000 <= ay * by <= 0x4000_0000_0000_0000
            && -0x4000_0000_0000_0000 <= az * bz <= 0x4000_0000_0000_0000) by (nonlinear_arith)
            requires
                -0x8000_0000 <= ax <= 0x7fff_ffff,
                -0x8000_0000 <= ay <= 0x7fff_ffff,
                -0x8000_0000 <= az <= 0x7fff_ffff,
                -0x8000_0000 <= bx <= 0x7fff_ffff,
                -0x8000_0000 <= by <= 0x7fff_ffff,
                -0x8000_0000 <= bz <= 0x7fff_ffff;
    }
    ax * bx + ay * by + az * bz
}

impl Bsp {
    /// Decodes a whole map out of one source buffer: validates the
    /// container, resolves and decodes every required lump, and
    /// assembles the aggregate.  The decode either fully succeeds or
    /// returns the first error met, in decode order; no partial map is
    /// exposed.
    #[verifier::rlimit(50)]
    pub fn read(data: &[u8]) -> (r: Result<Bsp, BspError>)
        ensures
            r is Ok <==> reads_ok(data@),
            r matches Err(e) ==> Some(e) == first_decode_err(data@),
            data@.len() >= 8 && !crate::bspfile::magic_ok(data@) ==> r == Err::<Bsp, BspError>(
                BspError::UnexpectedHeader(crate::bspfile::header_of(data@)),
            ),
            r matches Ok(b) ==> {
                &&& b.header == crate::bspfile::header_of(data@)
                &&& Some(b.entities.entities@) == lump_of(data@, LumpType::Entities)
                &&& Some(b.textures_data@) == decoded_lump::<TextureData>(
                    data@,
                    LumpType::TextureData,
                )
                &&& Some(b.textures_info@) == decoded_lump::<TextureInfo>(
                    data@,
                    LumpType::TextureInfo,
                )
                &&& Some(b.planes@) == decoded_lump::<Plane>(data@, LumpType::Planes)
                &&& Some(b.nodes@) == decoded_lump::<Node>(data@, LumpType::Nodes)
                &&& sorted_by_cluster(b.leaves@)
                &&& (decoded_lump_ver::<Leaf>(data@, LumpType::Leaves) matches Some(lv)
                    && b.leaves@ == stable_sorted(lv))
                &&& Some(b.leaf_faces@) == decoded_lump::<LeafFace>(data@, LumpType::LeafFaces)
                &&& Some(b.leaf_brushes@) == decoded_lump::<LeafBrush>(
                    data@,
                    LumpType::LeafBrushes,
                )
                &&& Some(b.models@) == decoded_lump::<Model>(data@, LumpType::Models)
                &&& Some(b.brushes@) == decoded_lump::<Brush>(data@, LumpType::Brushes)
                &&& Some(b.brush_sides@) == decoded_lump::<BrushSide>(
                    data@,
                    LumpType::BrushSides,
                )
                &&& Some(b.vertices@) == decoded_lump::<Vertex>(data@, LumpType::Vertices)
                &&& Some(b.edges@) == decoded_lump::<Edge>(data@, LumpType::Edges)
                &&& Some(b.surface_edges@) == decoded_lump::<SurfaceEdge>(
                    data@,
                    LumpType::SurfaceEdges,
                )
                &&& Some(b.faces@) == decoded_lump::<Face>(data@, LumpType::Faces)
                &&& Some(b.original_faces@) == decoded_lump::<Face>(
                    data@,
                    LumpType::OriginalFaces,
                )
                &&& (lump_of(data@, LumpType::Visibility) matches Some(vb)
                    && crate::vis::visdata_decodes(b.vis_data, vb))
                &&& b.vis_data.wf()
                &&& Some(b.displacements@) == decoded_lump::<DisplacementInfo>(
                    data@,
                    LumpType::DisplacementInfo,
                )
                &&& Some(b.texture_string_tables@) == decoded_lump::<TextureStringTableEntry>(
                    data@,
                    LumpType::TextureDataStringTable,
                )
                &&& Some(b.texture_string_data@) == lump_of(
                    data@,
                    LumpType::TextureDataStringData,
                )
            },
    {
        let bsp_file = match BspFile::new(data) {
            Ok(f) => f,
            Err(e) => { return Err(e); },
        };
        let entities = match bsp_file.lump_reader(LumpType::Entities) {
            Ok(lr) => lr.read_entities(),
            Err(e) => { return Err(e); },
        };
        let textures_data: Vec<TextureData> = match bsp_file.lump_reader(LumpType::TextureData) {
            Ok(lr) => match lr.read_vec() {
                Ok(v) => v,
                Err(e) => { return Err(e); },
            },
            Err(e) => { return Err(e); },
        };
        let textures_info: Vec<TextureInfo> = match bsp_file.lump_reader(LumpType::TextureInfo) {
            Ok(lr) => match lr.read_vec() {
                Ok(v) => v,
                Err(e) => { return Err(e); },
            },
            Err(e) => { return Err(e); },
        };
        let planes: Vec<Plane> = match bsp_file.lump_reader(LumpType::Planes) {
            Ok(lr) => match lr.read_vec() {
                Ok(v) => v,
                Err(e) => { return Err(e); },
            },
            Err(e) => { return Err(e); },
        };
        let nodes: Vec<Node> = match bsp_file.lump_reader(LumpType::Nodes) {
            Ok(lr) => match lr.read_vec() {
                Ok(v) => v,
                Err(e) => { return Err(e); },
            },
            Err(e) => { return Err(e); },
        };
        let leaves: Leaves = match bsp_file.lump_reader(LumpType::Leaves) {
            Ok(lr) => match lr.read_vec_ver() {
                Ok(v) => Leaves::new(v),
                Err(e) => { return Err(e); },
            },
            Err(e) => { return Err(e); },
        };
        let leaf_faces: Vec<LeafFace> = match bsp_file.lump_reader(LumpType::LeafFaces) {
            Ok(lr) => match lr.read_vec() {
                Ok(v) => v,
                Err(e) => { return Err(e); },
            },
            Err(e) => { return Err(e); },
        };
        let leaf_brushes: Vec<LeafBrush> = match bsp_file.lump_reader(LumpType::LeafBrushes) {
            Ok(lr) => match lr.read_vec() {
                Ok(v) => v,
                Err(e) => { return Err(e); },
            },
            Err(e) => { return Err(e); },
        };
        let models: Vec<Model> = match bsp_file.lump_reader(LumpType::Models) {
            Ok(lr) => match lr.read_vec() {
                Ok(v) => v,
                Err(e) => { return Err(e); },
            },
            Err(e) => { return Err(e); },
        };
        let brushes: Vec<Brush> = match bsp_file.lump_reader(LumpType::Brushes) {
            Ok(lr) => match lr.read_vec() {
                Ok(v) => v,
                Err(e) => { return Err(e); },
            },
            Err(e) => { return Err(e); },
        };
        let brush_sides: Vec<BrushSide> = match bsp_file.lump_reader(LumpType::BrushSides) {
            Ok(lr) => match lr.read_vec() {
                Ok(v) => v,
                Err(e) => { return Err(e); },
            },
            Err(e) => { return Err(e); },
        };
        let vertices: Vec<Vertex> = match bsp_file.lump_reader(LumpType::Vertices) {
            Ok(lr) => match lr.read_vec() {
                Ok(v) => v,
                Err(e) => { return Err(e); },
            },
            Err(e) => { return Err(e); },
        };
        let edges: Vec<Edge> = match bsp_file.lump_reader(LumpType::Edges) {
            Ok(lr) => match lr.read_vec() {
                Ok(v) => v,
                Err(e) => { return Err(e); },
            },
            Err(e) => { return Err(e); },
        };
        let surface_edges: Vec<SurfaceEdge> = match bsp_file.lump_reader(LumpType::SurfaceEdges) {
            Ok(lr) => match lr.read_vec() {
                Ok(v) => v,
                Err(e) => { return Err(e); },
            },
            Err(e) => { return Err(e); },
        };
        let faces: Vec<Face> = match bsp_file.lump_reader(LumpType::Faces) {
            Ok(lr) => match lr.read_vec() {
                Ok(v) => v,
                Err(e) => { return Err(e); },
            },
            Err(e) => { return Err(e); },
        };
        let original_faces: Vec<Face> = match bsp_file.lump_reader(LumpType::OriginalFaces) {
            Ok(lr) => match lr.read_vec() {
                Ok(v) => v,
                Err(e) => { return Err(e); },
            },
            Err(e) => { return Err(e); },
        };
        let vis_data: VisData = match bsp_file.lump_reader(LumpType::Visibility) {
            Ok(lr) => match lr.read_visdata() {
                Ok(v) => v,
                Err(e) => { return Err(e); },
            },
            Err(e) => { return Err(e); },
        };
        let displacements: Vec<DisplacementInfo> = match bsp_file.lump_reader(
            LumpType::DisplacementInfo,
        ) {
            Ok(lr) => match lr.read_vec() {
                Ok(v) => v,
                Err(e) => { return Err(e); },
            },
            Err(e) => { return Err(e); },
        };
        let texture_string_tables: Vec<TextureStringTableEntry> = match bsp_file.lump_reader(
            LumpType::TextureDataStringTable,
        ) {
            Ok(lr) => match lr.read_vec() {
                Ok(v) => v,
                Err(e) => { return Err(e); },
            },
            Err(e) => { return Err(e); },
        };
        let texture_string_data: Vec<u8> = match bsp_file.lump_reader(
            LumpType::TextureDataStringData,
        ) {
            Ok(lr) => lr.into_data(),
            Err(e) => { return Err(e); },
        };
        let header = *bsp_file.header();
        Ok(Bsp {
            header,
            entities,
            textures_data,
            textures_info,
            planes,
            nodes,
            leaves,
            leaf_faces,
            leaf_brushes,
            models,
            brushes,
            brush_sides,
            vertices,
            edges,
            surface_edges,
            faces,
            original_faces,
            vis_data,
            displacements,
            texture_string_tables,
            texture_string_data,
        })
    }

    /// The leaf at position `n` of the kept order, as a handle.
    pub fn leaf(&self, n: usize) -> (r: Option<Handle<'_, Leaf>>)
        ensures
            r is Some <==> n < self.leaves@.len(),
            r matches Some(h) ==> h.bsp_spec() == *self && h.data_spec() == self.leaves@[n as int],
    {
        match self.leaves.get(n) {
            Some(leaf) => Some(Handle::new(self, leaf)),
            None => None,
        }
    }

    /// The plane at position `n`.
    pub fn plane(&self, n: usize) -> (r: Option<Handle<'_, Plane>>)
        ensures
            r is Some <==> n < self.planes@.len(),
            r matches Some(h) ==> h.bsp_spec() == *self && h.data_spec() == self.planes@[n as int],
    {
        if n < self.planes.len() {
            Some(Handle::new(self, &self.planes[n]))
        } else {
            None
        }
    }

    /// The face at position `n`.
    pub fn face(&self, n: usize) -> (r: Option<Handle<'_, Face>>)
        ensures
            r is Some <==> n < self.faces@.len(),
            r matches Some(h) ==> h.bsp_spec() == *self && h.data_spec() == self.faces@[n as int],
    {
        if n < self.faces.len() {
            Some(Handle::new(self, &self.faces[n]))
        } else {
            None
        }
    }

    /// The node at position `n`.
    pub fn node(&self, n: usize) -> (r: Option<Handle<'_, Node>>)
        ensures
            r is Some <==> n < self.nodes@.len(),
            r matches Some(h) ==> h.bsp_spec() == *self && h.data_spec() == self.nodes@[n as int],
    {
        if n < self.nodes.len() {
            Some(Handle::new(self, &self.nodes[n]))
        } else {
            None
        }
    }

    /// The displacement-info record at position `n`.
    pub fn displacement(&self, n: usize) -> (r: Option<Handle<'_, DisplacementInfo>>)
        ensures
            r is Some <==> n < self.displacements@.len(),
            r matches Some(h) ==> h.bsp_spec() == *self && h.data_spec()
                == self.displacements@[n as int],
    {
        if n < self.displacements.len() {
            Some(Handle::new(self, &self.displacements[n]))
        } else {
            None
        }
    }

    /// The root node of the spatial tree: position 0, absent for a map
    /// with no nodes.
    pub fn root_node(&self) -> (r: Option<Handle<'_, Node>>)
        ensures
            r is Some <==> 0 < self.nodes@.len(),
            r matches Some(h) ==> h.bsp_spec() == *self && h.data_spec() == self.nodes@[0],
    {
        self.node(0)
    }

    /// All models of the map, as handles.
    pub fn models(&self) -> (r: Vec<Handle<'_, Model>>)
        ensures
            r@.len() == self.models@.len(),
            forall|i: int| 0 <= i < r@.len() ==> (#[trigger] r@[i]).bsp_spec() == *self
                && r@[i].data_spec() == self.models@[i],
    {
        let mut out: Vec<Handle<'_, Model>> = Vec::new();
        let mut i: usize = 0;
        while i < self.models.len()
            invariant
                0 <= i <= self.models@.len(),
                out@.len() == i,
                forall|k: int| 0 <= k < i ==> (#[trigger] out@[k]).bsp_spec() == *self
                    && out@[k].data_spec() == self.models@[k],
            decreases self.models@.len() - i,
        {
            out.push(Handle::new(self, &self.models[i]));
            i = i + 1;
        }
        out
    }

    /// All faces of the map, as handles.
    pub fn original_faces(&self) -> (r: Vec<Handle<'_, Face>>)
        ensures
            r@.len() == self.faces@.len(),
            forall|i: int| 0 <= i < r@.len() ==> (#[trigger] r@[i]).bsp_spec() == *self
                && r@[i].data_spec() == self.faces@[i],
    {
        let mut out: Vec<Handle<'_, Face>> = Vec::new();
        let mut i: usize = 0;
        while i < self.faces.len()
            invariant
                0 <= i <= self.faces@.len(),
                out@.len() == i,
                forall|k: int| 0 <= k < i ==> (#[trigger] out@[k]).bsp_spec() == *self
                    && out@[k].data_spec() == self.faces@[k],
            decreases self.faces@.len() - i,
        {
            out.push(Handle::new(self, &self.faces[i]));
            i = i + 1;
        }
        out
    }

    /// Classifies `point` against the spatial tree: descends from the
    /// root, at each node taking the front child where the point lies on
    /// or above the splitting plane, until a leaf reference terminates
    /// the walk.
    pub fn leaf_at(&self, point: Vector) -> (r: Option<Handle<'_, Leaf>>)
        ensures
            ({
                let outcome = descend_spec(*self, point, 0, (self.nodes@.len() + 1) as nat);
                match r {
                    Some(h) => outcome matches Some(i) && h.bsp_spec() == *self && h.data_spec()
                        == self.leaves@[i],
                    None => outcome is None,
                }
            }),
    {
        let mut cur: usize = 0;
        let mut fuel: usize = self.nodes.len();
        loop
            invariant
                descend_spec(*self, point, 0, (self.nodes@.len() + 1) as nat) == descend_spec(
                    *self,
                    point,
                    cur as int,
                    (fuel + 1) as nat,
                ),
            decreases fuel,
        {
            if cur >= self.nodes.len() {
                return None;
            }
            let node = &self.nodes[cur];
            let pi = node.plane_index;
            if pi < 0 || pi as usize >= self.planes.len() {
                return None;
            }
            let plane = &self.planes[pi as usize];
            let d = dot_exec(&point, &plane.normal);
            let next = if d < plane.dist as i128 {
                node.children[1]
            } else {
                node.children[0]
            };
            if next < 0 {
                let leaf_idx = -(next + 1);
                return match self.leaf(leaf_idx as usize) {
                    Some(h) => Some(h),
                    None => None,
                };
            }
            if fuel == 0 {
                proof {
                    assert(descend_spec(*self, point, next as int, 0nat) is None);
                }
                return None;
            }
            fuel = fuel - 1;
            cur = next as usize;
        }
    }
}

} // verus!
