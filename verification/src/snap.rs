use vstd::prelude::*;

verus! {

/// The node that a coordinate snaps to: its index in the node table and its
/// external (OSM) id.
#[derive(PartialEq, Eq, Structural, Debug, Clone, Copy)]
pub struct SnapPick {
    pub idx: u32,
    pub id: u64,
}

/// A node table can be searched: it has nodes, and its longitude, latitude
/// and id columns each hold an entry for every node (the id column is empty
/// once the ids have been released).
pub open spec fn spec_snap_usable(node_count: nat, lons_len: nat, lats_len: nat, ids_len: nat) -> bool {
    &&& node_count != 0
    &&& node_count <= lons_len
    &&& node_count <= lats_len
    &&& node_count <= ids_len
}

/// `i` is the first index whose key is present and least among the present
/// keys.
pub open spec fn is_first_nearest(keys: Seq<Option<u64>>, i: int) -> bool {
    &&& 0 <= i < keys.len()
    &&& keys[i] is Some
    &&& forall|j: int| 0 <= j < keys.len() && (#[trigger] keys[j]) is Some ==> keys[i]->0 <= keys[j]->0
    &&& forall|j: int| 0 <= j < i && (#[trigger] keys[j]) is Some ==> keys[i]->0 < keys[j]->0
}

/// A table is searchable exactly when it has a node and every column holds
/// an entry per node: there is no other bound on its size.
pub proof fn lemma_snap_usable_exactly(node_count: nat, lons_len: nat, lats_len: nat, ids_len: nat)
    ensures
        spec_snap_usable(node_count, lons_len, lats_len, ids_len) <==> (node_count != 0
            && node_count <= lons_len && node_count <= lats_len && node_count <= ids_len),
{
}

/// Whether a node table with these column lengths can be searched.
pub fn snap_usable(node_count: u32, lons_len: usize, lats_len: usize, ids_len: usize) -> (r: bool)
    ensures
        r == spec_snap_usable(node_count as nat, lons_len as nat, lats_len as nat, ids_len as nat),
        r == (node_count != 0 && node_count <= lons_len && node_count <= lats_len && node_count
            <= ids_len),
{
    if node_count == 0 {
        return false;
    }
    let n = node_count as usize;
    !(n > lons_len || n > lats_len || n > ids_len)
}

/// The index of the first node of least key, if any key is present.
pub fn first_nearest(keys: &Vec<Option<u64>>) -> (r: Option<usize>)
    ensures
        r is None <==> forall|i: int| 0 <= i < keys@.len() ==> (#[trigger] keys@[i]) is None,
        r matches Some(i) ==> is_first_nearest(keys@, i as int),
        r matches Some(i) ==> {
            &&& i < keys@.len()
            &&& keys@[i as int] is Some
            &&& forall|j: int| 0 <= j < keys@.len() && (#[trigger] keys@[j]) is Some ==> keys@[i as int]->0 <= keys@[j]->0
            &&& forall|j: int| 0 <= j < i && (#[trigger] keys@[j]) is Some ==> keys@[i as int]->0 < keys@[j]->0
        },
{
    let mut best: Option<usize> = None;
    let mut best_key: u64 = 0;
    let mut i: usize = 0;
    while i < keys.len()
        invariant
            i <= keys@.len(),
            best is None <==> forall|j: int| 0 <= j < i ==> (#[trigger] keys@[j]) is None,
            best matches Some(b) ==> {
                &&& b < i
                &&& keys@[b as int] == Some(best_key)
                &&& forall|j: int| 0 <= j < i && (#[trigger] keys@[j]) is Some ==> best_key <= keys@[j]->0
                &&& forall|j: int| 0 <= j < b && (#[trigger] keys@[j]) is Some ==> best_key < keys@[j]->0
            },
        decreases keys@.len() - i,
    {
        if let Some(k) = keys[i] {
            if best.is_none() || k < best_key {
                best = Some(i);
                best_key = k;
            }
        }
        i = i + 1;
    }
    best
}

/// Picks the node that a coordinate snaps to.
///
/// `keys[i]` orders node `i` by its distance to the coordinate, as the
/// equirectangular squared distance orders it; it is absent for a node with
/// no usable coordinate (or an infinite distance). The first node of least
/// key wins. There is no pick when the table cannot be searched or no key is
/// present.
pub fn snap_pick(
    node_count: u32,
    lons_len: usize,
    lats_len: usize,
    ids: &Vec<u64>,
    keys: &Vec<Option<u64>>,
) -> (r: Option<SnapPick>)
    requires
        spec_snap_usable(node_count as nat, lons_len as nat, lats_len as nat, ids@.len())
            ==> keys@.len() == node_count,
    ensures
        r is None <==> (!spec_snap_usable(node_count as nat, lons_len as nat, lats_len as nat, ids@.len())
            || forall|i: int| 0 <= i < keys@.len() ==> (#[trigger] keys@[i]) is None),
        r is None <==> (node_count == 0 || node_count > lons_len || node_count > lats_len
            || node_count > ids@.len() || forall|i: int|
            0 <= i < keys@.len() ==> (#[trigger] keys@[i]) is None),
        r matches Some(p) ==> {
            &&& is_first_nearest(keys@, p.idx as int)
            &&& keys@[p.idx as int] is Some
            &&& forall|j: int| 0 <= j < keys@.len() && (#[trigger] keys@[j]) is Some ==> keys@[p.idx as int]->0 <= keys@[j]->0
            &&& forall|j: int| 0 <= j < p.idx && (#[trigger] keys@[j]) is Some ==> keys@[p.idx as int]->0 < keys@[j]->0
            &&& (p.idx as int) < node_count
            &&& p.id == ids@[p.idx as int]
        },
{
    if !snap_usable(node_count, lons_len, lats_len, ids.len()) {
        return None;
    }
    match first_nearest(keys) {
        None => None,
        Some(i) => Some(SnapPick { idx: i as u32, id: ids[i] }),
    }
}

} // verus!
