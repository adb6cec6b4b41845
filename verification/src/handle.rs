//! Borrowed query views over a decoded map.
//!
//! A handle pairs a reference to the whole decoded map with a reference
//! to one of its elements, because many record types reach into other
//! arrays of the same map.  Handles never mutate the map; they only
//! derive further handles and lookups from it.  Absent or out-of-range
//! cross references yield an empty result or no result, never a failure:
//! indices inside a compiled map are not trusted unchecked.

use vstd::prelude::*;
use crate::Bsp;
use crate::bytes::find_byte_spec;
use crate::data::{Face, Leaf, Model, Node, Plane, TextureData, TextureInfo};
use crate::vis::rle_bits;

verus! {

/// A borrowed pair of the whole decoded map and one element of it.
pub struct Handle<'a, T> {
    pub(crate) bsp: &'a Bsp,
    pub(crate) data: &'a T,
}

impl<'a, T> Handle<'a, T> {
    /// The map the handle belongs to.
    pub closed spec fn bsp_spec(self) -> Bsp {
        *self.bsp
    }

    /// The element the handle denotes.
    pub closed spec fn data_spec(self) -> T {
        *self.data
    }

    /// Pairs one element with the map it belongs to.
    pub fn new(bsp: &'a Bsp, data: &'a T) -> (r: Self)
        ensures
            r.bsp_spec() == bsp,
            r.data_spec() == data,
    {
        Handle { bsp, data }
    }

    /// The element the handle denotes.
    pub fn data(&self) -> (d: &'a T)
        ensures
            d == self.data_spec(),
    {
        self.data
    }
}

/// A decoded child reference of a spatial tree node: an inner node or a
/// terminal leaf.
pub enum NodeOrLeaf<'a> {
    Node(Handle<'a, Node>),
    Leaf(Handle<'a, Leaf>),
}

/// How a raw child value decodes: a non-negative value names a node,
/// a negative value carries a leaf index as its bitwise complement, and
/// the returned handle wraps exactly the named element; an out-of-range
/// reference decodes to nothing.
pub open spec fn child_decodes<'a>(r: Option<NodeOrLeaf<'a>>, bsp: Bsp, idx: i32) -> bool {
    &&& idx >= 0 ==> {
        &&& r is Some <==> idx < bsp.nodes@.len()
        &&& r matches Some(nl) ==> nl matches NodeOrLeaf::Node(h) && h.bsp_spec() == bsp
            && h.data_spec() == bsp.nodes@[idx as int]
    }
    &&& idx < 0 ==> {
        &&& r is Some <==> -(idx + 1) < bsp.leaves@.len()
        &&& r matches Some(nl) ==> nl matches NodeOrLeaf::Leaf(h) && h.bsp_spec() == bsp
            && h.data_spec() == bsp.leaves@[-(idx + 1)]
    }
}

/// Decodes one raw child value: a non-negative value is a node index,
/// a negative value carries a leaf index as its bitwise complement.
pub fn node_leaf(bsp: &Bsp, idx: i32) -> (r: Option<NodeOrLeaf<'_>>)
    ensures
        child_decodes(r, *bsp, idx),
{
    if idx < 0 {
        let leaf_idx = -(idx + 1);
        match bsp.leaf(leaf_idx as usize) {
            Some(leaf) => Some(NodeOrLeaf::Leaf(leaf)),
            None => None,
        }
    } else {
        match bsp.node(idx as usize) {
            Some(node) => Some(NodeOrLeaf::Node(node)),
            None => None,
        }
    }
}

impl<'a> Handle<'a, Model> {
    /// All faces that make up the model: the contiguous run addressed by
    /// its first-face index and count, empty where that run leaves the
    /// face array.
    pub fn faces(&self) -> (r: Vec<Handle<'a, Face>>)
        ensures
            ({
                let m = self.data_spec();
                let bsp = self.bsp_spec();
                if 0 <= m.first_face && 0 <= m.face_count && m.first_face + m.face_count
                    <= bsp.faces@.len() {
                    &&& r@.len() == m.face_count
                    &&& forall|i: int| 0 <= i < r@.len() ==> (#[trigger] r@[i]).bsp_spec() == bsp
                        && r@[i].data_spec() == bsp.faces@[m.first_face + i]
                } else {
                    r@.len() == 0
                }
            }),
    {
        let mut out: Vec<Handle<'a, Face>> = Vec::new();
        let first = self.data.first_face;
        let count = self.data.face_count;
        if first < 0 || count < 0 {
            return out;
        }
        let start = first as usize;
        let n = count as usize;
        if start > self.bsp.faces.len() || n > self.bsp.faces.len() - start {
            return out;
        }
        let mut i: usize = 0;
        while i < n
            invariant
                0 <= i <= n,
                start + n <= self.bsp.faces@.len(),
                self.bsp.faces@.len() <= usize::MAX,
                out@.len() == i,
                forall|k: int| 0 <= k < i ==> (#[trigger] out@[k]).bsp_spec() == self.bsp
                    && out@[k].data_spec() == self.bsp.faces@[start + k],
            decreases n - i,
        {
            out.push(Handle::new(self.bsp, &self.bsp.faces[start + i]));
            i = i + 1;
        }
        out
    }
}

impl<'a> Handle<'a, TextureInfo> {
    /// The texture-data record the texture info refers to, where its
    /// index lands inside the texture-data array.
    pub fn texture(&self) -> (r: Option<Handle<'a, TextureData>>)
        ensures
            r is Some <==> 0 <= self.data_spec().texture_data_index
                < self.bsp_spec().textures_data@.len(),
            r matches Some(h) ==> h.bsp_spec() == self.bsp_spec() && h.data_spec()
                == self.bsp_spec().textures_data@[self.data_spec().texture_data_index as int],
    {
        let idx = self.data.texture_data_index;
        if idx >= 0 && (idx as usize) < self.bsp.textures_data.len() {
            Some(Handle::new(self.bsp, &self.bsp.textures_data[idx as usize]))
        } else {
            None
        }
    }

    /// As `texture`: the texture-data record referred to.
    pub fn texture_data(&self) -> (r: Option<Handle<'a, TextureData>>)
        ensures
            r is Some <==> 0 <= self.data_spec().texture_data_index
                < self.bsp_spec().textures_data@.len(),
            r matches Some(h) ==> h.bsp_spec() == self.bsp_spec() && h.data_spec()
                == self.bsp_spec().textures_data@[self.data_spec().texture_data_index as int],
    {
        self.texture()
    }

    /// The texture's name, resolved through the texture-data record.
    pub fn name(&self) -> (r: Option<Vec<u8>>)
        ensures
            ({
                let td_idx = self.data_spec().texture_data_index;
                if 0 <= td_idx < self.bsp_spec().textures_data@.len() {
                    let expected = texture_name_spec(
                        self.bsp_spec(),
                        self.bsp_spec().textures_data@[td_idx as int],
                    );
                    match r {
                        Some(v) => expected matches Some(e) && v@ == e,
                        None => expected is None,
                    }
                } else {
                    r is None
                }
            }),
    {
        match self.texture_data() {
            Some(td) => td.name(),
            None => None,
        }
    }
}

/// The name a texture-data record resolves to: the bytes of the shared
/// string blob from its table offset up to the first nul (or the blob's
/// end), absent where the table index or the offset is out of range.
pub open spec fn texture_name_spec(bsp: Bsp, td: TextureData) -> Option<Seq<u8>> {
    let id = td.name_string_table_id;
    if 0 <= id < bsp.texture_string_tables@.len() {
        let start = bsp.texture_string_tables@[id as int].offset;
        if start <= bsp.texture_string_data@.len() {
            let end = match find_byte_spec(bsp.texture_string_data@, start as int, 0u8) {
                Option::Some(e) => e,
                Option::None => bsp.texture_string_data@.len() as int,
            };
            Option::Some(bsp.texture_string_data@.subrange(start as int, end))
        } else {
            Option::None
        }
    } else {
        Option::None
    }
}

impl<'a> Handle<'a, TextureData> {
    /// The texture name: a string-table offset resolved into the shared
    /// nul-terminated string blob.
    pub fn name(&self) -> (r: Option<Vec<u8>>)
        ensures
            ({
                let expected = texture_name_spec(self.bsp_spec(), self.data_spec());
                match r {
                    Some(v) => expected matches Some(e) && v@ == e,
                    None => expected is None,
                }
            }),
    {
        let id = self.data.name_string_table_id;
        if id < 0 || id as usize >= self.bsp.texture_string_tables.len() {
            return None;
        }
        let start = self.bsp.texture_string_tables[id as usize].offset as usize;
        let blob = self.bsp.texture_string_data.as_slice();
        if start > blob.len() {
            return None;
        }
        let end = match crate::bytes::find_byte(blob, start, 0) {
            Some(e) => e,
            None => blob.len(),
        };
        Some(crate::bytes::copy_range(blob, start, end - start))
    }
}

impl<'a> Handle<'a, Node> {
    /// The plane splitting this node, where its index is in range.
    pub fn plane(&self) -> (r: Option<Handle<'a, Plane>>)
        ensures
            r is Some <==> 0 <= self.data_spec().plane_index < self.bsp_spec().planes@.len(),
            r matches Some(h) ==> h.bsp_spec() == self.bsp_spec() && h.data_spec()
                == self.bsp_spec().planes@[self.data_spec().plane_index as int],
    {
        let idx = self.data.plane_index;
        if idx >= 0 && (idx as usize) < self.bsp.planes.len() {
            Some(Handle::new(self.bsp, &self.bsp.planes[idx as usize]))
        } else {
            None
        }
    }

    /// Both decoded child references of the node, front first: each is
    /// decoded once at this boundary into a tagged node or leaf handle.
    pub fn children(&self) -> (r: [Option<NodeOrLeaf<'a>>; 2])
        ensures
            child_decodes(r[0], self.bsp_spec(), self.data_spec().children[0]),
            child_decodes(r[1], self.bsp_spec(), self.data_spec().children[1]),
    {
        let idx_0 = self.data.children[0];
        let idx_1 = self.data.children[1];
        [node_leaf(self.bsp, idx_0), node_leaf(self.bsp, idx_1)]
    }
}

/// Whether `leaf` belongs to the potentially-visible set of cluster `c`:
/// a leaf of the cluster itself always does; a leaf of a negative
/// ("outside the world") cluster never does; any other leaf does exactly
/// when its cluster's bit is set in the decoded set of `c`.
pub open spec fn leaf_visible(bsp: Bsp, c: i16, leaf: Leaf) -> bool {
    ||| leaf.cluster == c
    ||| {
        &&& 0 <= leaf.cluster
        &&& (leaf.cluster as int) < bsp.vis_data.cluster_count
        &&& (c as int) < bsp.vis_data.cluster_count
        &&& 0 <= c
        &&& rle_bits(
            bsp.vis_data.data@,
            bsp.vis_data.pvs_offsets@[c as int] as int,
            bsp.vis_data.cluster_count as int,
        )[leaf.cluster as int]
    }
}

/// A leaf is always in its own cluster's visible set.
pub proof fn lemma_own_cluster_visible(bsp: Bsp, c: i16, leaf: Leaf)
    requires
        leaf.cluster == c,
    ensures
        leaf_visible(bsp, c, leaf),
{
}

/// A leaf of a negative cluster is in no cluster's visible set.
pub proof fn lemma_negative_cluster_never_visible(bsp: Bsp, c: i16, leaf: Leaf)
    requires
        leaf.cluster < 0,
        c >= 0,
    ensures
        !leaf_visible(bsp, c, leaf),
{
}

/// A leaf of another cluster whose bit is unset in the decoded set is
/// excluded from the visible set.
pub proof fn lemma_unset_bit_excluded(bsp: Bsp, c: i16, leaf: Leaf)
    requires
        leaf.cluster != c,
        0 <= leaf.cluster,
        (leaf.cluster as int) < bsp.vis_data.cluster_count,
        0 <= c,
        (c as int) < bsp.vis_data.cluster_count,
        !rle_bits(
            bsp.vis_data.data@,
            bsp.vis_data.pvs_offsets@[c as int] as int,
            bsp.vis_data.cluster_count as int,
        )[leaf.cluster as int],
    ensures
        !leaf_visible(bsp, c, leaf),
{
}

/// The leaves among the first `upto` of the map that are visible from
/// cluster `c`, in kept order.
pub open spec fn visible_leaves(bsp: Bsp, c: i16, upto: int) -> Seq<Leaf>
    decreases upto,
{
    if upto <= 0 {
        Seq::empty()
    } else {
        let rest = visible_leaves(bsp, c, upto - 1);
        if leaf_visible(bsp, c, bsp.leaves@[upto - 1]) {
            rest.push(bsp.leaves@[upto - 1])
        } else {
            rest
        }
    }
}

/// Every leaf of the visible list is in fact visible: nothing excluded
/// by the predicate is ever produced.
pub proof fn lemma_visible_leaves_sound(bsp: Bsp, c: i16, upto: int)
    ensures
        forall|k: int| 0 <= k < visible_leaves(bsp, c, upto).len() ==> leaf_visible(
            bsp,
            c,
            #[trigger] visible_leaves(bsp, c, upto)[k],
        ),
    decreases upto,
{
    if upto > 0 {
        lemma_visible_leaves_sound(bsp, c, upto - 1);
        let rest = visible_leaves(bsp, c, upto - 1);
        let whole = visible_leaves(bsp, c, upto);
        assert forall|k: int| 0 <= k < whole.len() implies leaf_visible(bsp, c, whole[k]) by {
            if k < rest.len() {
                assert(whole[k] == rest[k]);
            } else {
                assert(whole[k] == bsp.leaves@[upto - 1]);
            }
        }
    }
}

/// Every visible leaf of the map appears in the visible list.
pub proof fn lemma_visible_leaves_complete(bsp: Bsp, c: i16, upto: int, i: int)
    requires
        0 <= i < upto,
        leaf_visible(bsp, c, bsp.leaves@[i]),
    ensures
        visible_leaves(bsp, c, upto).contains(bsp.leaves@[i]),
    decreases upto,
{
    if i == upto - 1 {
        assert(visible_leaves(bsp, c, upto).last() == bsp.leaves@[i]);
    } else {
        lemma_visible_leaves_complete(bsp, c, upto - 1, i);
        let rest = visible_leaves(bsp, c, upto - 1);
        let whole = visible_leaves(bsp, c, upto);
        let j = choose|j: int| 0 <= j < rest.len() && rest[j] == bsp.leaves@[i];
        assert(whole[j] == bsp.leaves@[i]);
    }
}

impl<'a> Handle<'a, Leaf> {
    /// All leaves visible from this leaf's cluster, or nothing for a
    /// leaf outside the world (negative cluster).  The leaf's own
    /// cluster is always visible to itself; leaves of negative clusters
    /// never appear.
    pub fn visible_set(&self) -> (r: Option<Vec<Handle<'a, Leaf>>>)
        requires
            self.bsp_spec().vis_data.wf(),
        ensures
            r is None <==> self.data_spec().cluster < 0,
            r matches Some(v) ==> {
                &&& v@.map_values(|h: Handle<'a, Leaf>| h.data_spec()) == visible_leaves(
                    self.bsp_spec(),
                    self.data_spec().cluster,
                    self.bsp_spec().leaves@.len() as int,
                )
                &&& forall|i: int| 0 <= i < v@.len() ==> (#[trigger] v@[i]).bsp_spec()
                    == self.bsp_spec()
            },
    {
        let cluster = self.data.cluster;
        if cluster < 0 {
            return None;
        }
        let bsp = self.bsp;
        let cc = bsp.vis_data.cluster_count;
        let bits: Option<Vec<bool>> = if (cluster as u32) < cc {
            Some(bsp.vis_data.visible_clusters(cluster))
        } else {
            None
        };
        let n = bsp.leaves.len();
        let mut out: Vec<Handle<'a, Leaf>> = Vec::new();
        let mut i: usize = 0;
        while i < n
            invariant
                0 <= i <= n,
                n == bsp.leaves@.len(),
                bsp == self.bsp,
                bsp.vis_data.wf(),
                cluster == self.data_spec().cluster,
                0 <= cluster,
                cc == bsp.vis_data.cluster_count,
                bits is Some <==> (cluster as int) < cc,
                bits matches Some(bv) ==> bv@ == rle_bits(
                    bsp.vis_data.data@,
                    bsp.vis_data.pvs_offsets@[cluster as int] as int,
                    bsp.vis_data.cluster_count as int,
                ) && bv@.len() == cc,
                out@.map_values(|h: Handle<'a, Leaf>| h.data_spec()) == visible_leaves(
                    *bsp,
                    cluster,
                    i as int,
                ),
                forall|k: int| 0 <= k < out@.len() ==> (#[trigger] out@[k]).bsp_spec() == bsp,
            decreases n - i,
        {
            let leaf = match bsp.leaves.get(i) {
                Some(l) => l,
                None => { return None; }
            };
            let included = if leaf.cluster == cluster {
                true
            } else if leaf.cluster >= 0 {
                match &bits {
                    Some(bv) => {
                        if (leaf.cluster as u32) < cc {
                            bv[leaf.cluster as usize]
                        } else {
                            false
                        }
                    },
                    None => false,
                }
            } else {
                false
            };
            proof {
                assert(included == leaf_visible(*bsp, cluster, bsp.leaves@[i as int]));
            }
            let ghost old_out = out@;
            if included {
                out.push(Handle::new(bsp, leaf));
            }
            proof {
                assert(out@.map_values(|h: Handle<'a, Leaf>| h.data_spec()) =~= visible_leaves(
                    *bsp,
                    cluster,
                    i + 1,
                ));
            }
            i = i + 1;
        }
        Some(out)
    }

    /// All faces of the leaf: each leaf-face of its contiguous run that
    /// lands inside the face array, resolved in order; empty where the
    /// run itself is out of range.
    pub fn faces(&self) -> (r: Vec<Handle<'a, Face>>)
        ensures
            ({
                let leaf = self.data_spec();
                let bsp = self.bsp_spec();
                if leaf.first_leaf_face + leaf.leaf_face_count <= bsp.leaf_faces@.len() {
                    r@.map_values(|h: Handle<'a, Face>| h.data_spec()) == leaf_face_list(
                        bsp,
                        leaf.first_leaf_face as int,
                        leaf.leaf_face_count as int,
                    ) && forall|i: int| 0 <= i < r@.len() ==> (#[trigger] r@[i]).bsp_spec() == bsp
                } else {
                    r@.len() == 0
                }
            }),
    {
        let mut out: Vec<Handle<'a, Face>> = Vec::new();
        let bsp = self.bsp;
        let start = self.data.first_leaf_face as usize;
        let count = self.data.leaf_face_count as usize;
        if start > bsp.leaf_faces.len() || count > bsp.leaf_faces.len() - start {
            return out;
        }
        let mut i: usize = 0;
        while i < count
            invariant
                0 <= i <= count,
                bsp == self.bsp,
                start + count <= bsp.leaf_faces@.len(),
                bsp.leaf_faces@.len() <= usize::MAX,
                out@.map_values(|h: Handle<'a, Face>| h.data_spec()) == leaf_face_list(
                    *bsp,
                    start as int,
                    i as int,
                ),
                forall|k: int| 0 <= k < out@.len() ==> (#[trigger] out@[k]).bsp_spec() == bsp,
            decreases count - i,
        {
            let face_idx = bsp.leaf_faces[start + i].face as usize;
            let ghost old_out = out@;
            match bsp.face(face_idx) {
                Some(h) => { out.push(h); },
                None => {},
            }
            proof {
                assert(out@.map_values(|h: Handle<'a, Face>| h.data_spec()) =~= leaf_face_list(
                    *bsp,
                    start as int,
                    i + 1,
                ));
            }
            i = i + 1;
        }
        out
    }
}

/// The faces reached by the first `count` leaf-faces starting at
/// `start`, keeping only references that land inside the face array.
pub open spec fn leaf_face_list(bsp: Bsp, start: int, count: int) -> Seq<Face>
    decreases count,
{
    if count <= 0 {
        Seq::empty()
    } else {
        let rest = leaf_face_list(bsp, start, count - 1);
        let lf = bsp.leaf_faces@[start + count - 1];
        if (lf.face as int) < bsp.faces@.len() {
            rest.push(bsp.faces@[lf.face as int])
        } else {
            rest
        }
    }
}

} // verus!
