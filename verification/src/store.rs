use vstd::prelude::*;

verus! {

broadcast use vstd::seq::group_seq_axioms;

/// One of the three output roles of a triplet.
#[derive(Debug, Clone, Copy, PartialEq, Eq, Structural)]
pub enum Slot {
    Original,
    Display,
    Thumbnail,
}

/// What the caller observed when removing one file of a triplet.
#[derive(Debug, Clone, Copy, PartialEq, Eq, Structural)]
pub enum RemoveOutcome {
    /// The file existed and was removed.
    Removed,
    /// The file was already missing.
    Missing,
    /// Removal failed for another reason (permission, I/O).
    Failed,
}

/// The verdict of deleting a triplet. Deletion always reports success; the
/// slots whose genuine failures were swallowed are kept only as a
/// diagnostic list, in original/display/thumbnail order.
pub struct DeletionReport {
    pub suppressed: Vec<Slot>,
}

/// The slots whose removal failed for a reason other than the file being
/// missing, in original/display/thumbnail order.
pub open spec fn spec_suppressed(
    original: RemoveOutcome,
    display: RemoveOutcome,
    thumbnail: RemoveOutcome,
) -> Seq<Slot> {
    (if original is Failed {
        seq![Slot::Original]
    } else {
        Seq::empty()
    }) + (if display is Failed {
        seq![Slot::Display]
    } else {
        Seq::empty()
    }) + (if thumbnail is Failed {
        seq![Slot::Thumbnail]
    } else {
        Seq::empty()
    })
}

/// Judge the deletion of a triplet from the three per-file outcomes. A
/// missing file is not an error, and every other failure is swallowed:
/// deletion reports success whatever the outcomes were — the report's type
/// has no error case — and only records which genuine failures it
/// suppressed.
pub fn delete_image_versions(
    original: RemoveOutcome,
    display: RemoveOutcome,
    thumbnail: RemoveOutcome,
) -> (r: DeletionReport)
    ensures
        r.suppressed@ == spec_suppressed(original, display, thumbnail),
        original is Missing ==> !r.suppressed@.contains(Slot::Original),
        display is Missing ==> !r.suppressed@.contains(Slot::Display),
        thumbnail is Missing ==> !r.suppressed@.contains(Slot::Thumbnail),
{
    let mut suppressed: Vec<Slot> = Vec::new();
    if original == RemoveOutcome::Failed {
        suppressed.push(Slot::Original);
    }
    if display == RemoveOutcome::Failed {
        suppressed.push(Slot::Display);
    }
    if thumbnail == RemoveOutcome::Failed {
        suppressed.push(Slot::Thumbnail);
    }
    proof {
        assert(suppressed@ =~= spec_suppressed(original, display, thumbnail));
        assert forall|s: Slot| spec_suppressed(original, display, thumbnail).contains(s)
            implies (s is Original ==> original is Failed) && (s is Display
            ==> display is Failed) && (s is Thumbnail ==> thumbnail is Failed) by {}
    }
    DeletionReport { suppressed }
}

/// A snapshot of one filesystem entry below the images directory: a regular
/// file with its byte size, or a directory with the snapshots of its
/// entries. Entries that are neither (sockets, links the walk does not
/// follow) do not appear.
pub enum FsNode {
    File { size: u64 },
    Dir { entries: Vec<FsNode> },
}

/// The total byte size of a snapshot: the sum of every regular file's size
/// at any depth.
pub open spec fn node_size(n: FsNode) -> nat
    decreases n,
{
    match n {
        FsNode::File { size } => size as nat,
        FsNode::Dir { entries } => forest_size(entries@),
    }
}

/// The total byte size of a sequence of sibling snapshots.
pub open spec fn forest_size(s: Seq<FsNode>) -> nat
    decreases s,
{
    if s.len() == 0 {
        0
    } else {
        node_size(s[0]) + forest_size(s.drop_first())
    }
}

/// Splitting off the head of a non-empty forest at any position: the size of
/// the tail from `i` is the node at `i` plus the tail from `i + 1`.
proof fn lemma_forest_size_skip(s: Seq<FsNode>, i: int)
    requires
        0 <= i < s.len(),
    ensures
        forest_size(s.skip(i)) == node_size(s[i]) + forest_size(s.skip(i + 1)),
{
    assert(s.skip(i).len() > 0);
    assert(s.skip(i)[0] == s[i]);
    assert(s.skip(i).drop_first() =~= s.skip(i + 1));
}

/// The total size of one snapshot, `None` when the true sum does not fit in
/// a `u64`.
#[verifier::loop_isolation(false)]
fn node_size_checked(n: &FsNode) -> (r: Option<u64>)
    ensures
        r is Some <==> node_size(*n) <= u64::MAX,
        r is Some ==> r->0 == node_size(*n),
    decreases *n,
{
    match n {
        FsNode::File { size } => Option::Some(*size),
        FsNode::Dir { entries } => {
            let mut total: u64 = 0;
            let mut i: usize = 0;
            proof {
                assert(entries@.skip(0) =~= entries@);
            }
            while i < entries.len()
                invariant
                    0 <= i <= entries.len(),
                    total as nat + forest_size(entries@.skip(i as int)) == forest_size(entries@),
                decreases entries.len() - i,
            {
                proof {
                    lemma_forest_size_skip(entries@, i as int);
                    assert(*n == FsNode::Dir { entries: *entries });
                    assert(decreases_to!(*n => *entries));
                    vstd::std_specs::vec::axiom_vec_decreases_to_view(*entries);
                    vstd::seq::axiom_seq_index_decreases(entries@, i as int);
                }
                let sub = node_size_checked(&entries[i]);
                match sub {
                    Option::None => {
                        return Option::None;
                    },
                    Option::Some(sz) => {
                        match total.checked_add(sz) {
                            Option::None => {
                                return Option::None;
                            },
                            Option::Some(t) => {
                                total = t;
                            },
                        }
                    },
                }
                i = i + 1;
            }
            proof {
                assert(entries@.skip(i as int) =~= Seq::empty());
            }
            Option::Some(total)
        },
    }
}

/// The recursive size aggregation of the images directory. A non-existent
/// root is a valid zero result, not an error; an existing root's total is
/// the sum of every regular file's size at any depth of the snapshot.
/// `None` stands for the one failure mode of the summation itself: a true
/// total too large for a `u64`.
pub fn get_total_images_size(root: &Option<FsNode>) -> (r: Option<u64>)
    ensures
        root is None ==> r == Option::Some(0u64),
        root is Some ==> (r is Some <==> node_size(root->0) <= u64::MAX),
        root is Some && r is Some ==> r->0 == node_size(root->0),
{
    match root {
        Option::None => Option::Some(0),
        Option::Some(n) => node_size_checked(n),
    }
}

/// An empty directory aggregates to zero.
pub proof fn lemma_empty_dir_size(entries: Vec<FsNode>)
    requires
        entries@.len() == 0,
    ensures
        node_size(FsNode::Dir { entries }) == 0,
{
}

} // verus!
