use vstd::prelude::*;

verus! {

broadcast use vstd::seq::group_seq_axioms;

/// An identifier usable in the filename convention: 36 characters, each a
/// lowercase hexadecimal digit or a hyphen (the hyphenated UUID shape). In
/// particular it contains neither a dot nor a path separator.
pub open spec fn is_id_char(c: char) -> bool {
    c == '-' || ('0' <= c && c <= '9') || ('a' <= c && c <= 'f')
}

pub open spec fn valid_id(id: Seq<char>) -> bool {
    &&& id.len() == 36
    &&& forall|i: int| 0 <= i < id.len() ==> is_id_char(#[trigger] id[i])
}

/// Relies on `uuid::Uuid::new_v4` and its `Display` impl: the hyphenated
/// form is exactly 36 characters of lowercase hex digits and hyphens.
/// Nothing is promised about which identifier comes back.
#[verifier::external_body]
pub fn fresh_id() -> (r: String)
    ensures
        valid_id(r@),
{
    uuid::Uuid::new_v4().to_string()
}

/// The filename of the original slot: `original-<id>.<ext>`.
pub open spec fn spec_original_name(id: Seq<char>, ext: Seq<char>) -> Seq<char> {
    "original-"@ + id + "."@ + ext
}

/// The filename of the display slot: `display-<id>.jpg`.
pub open spec fn spec_display_name(id: Seq<char>) -> Seq<char> {
    "display-"@ + id + ".jpg"@
}

/// The filename of the thumbnail slot: `thumb-<id>.jpg`.
pub open spec fn spec_thumbnail_name(id: Seq<char>) -> Seq<char> {
    "thumb-"@ + id + ".jpg"@
}

/// A filename placed under a destination directory.
pub open spec fn spec_path_in(dir: Seq<char>, name: Seq<char>) -> Seq<char> {
    dir + "/"@ + name
}

pub fn original_name(id: &String, ext: &String) -> (r: String)
    ensures
        r@ == spec_original_name(id@, ext@),
{
    let mut s = String::from_str("original-");
    s.append(id.as_str());
    s.append(".");
    s.append(ext.as_str());
    s
}

pub fn display_name(id: &String) -> (r: String)
    ensures
        r@ == spec_display_name(id@),
{
    let mut s = String::from_str("display-");
    s.append(id.as_str());
    s.append(".jpg");
    s
}

pub fn thumbnail_name(id: &String) -> (r: String)
    ensures
        r@ == spec_thumbnail_name(id@),
{
    let mut s = String::from_str("thumb-");
    s.append(id.as_str());
    s.append(".jpg");
    s
}

pub fn path_in(dir: &String, name: &String) -> (r: String)
    ensures
        r@ == spec_path_in(dir@, name@),
{
    let mut s = String::from_str(dir.as_str());
    s.append("/");
    s.append(name.as_str());
    s
}

/// Prepending one prefix to two sequences keeps them apart exactly when the
/// sequences are apart.
pub proof fn lemma_concat_left_cancel(p: Seq<char>, a: Seq<char>, b: Seq<char>)
    requires
        p + a == p + b,
    ensures
        a == b,
{
    assert((p + a).len() == p.len() + a.len());
    assert((p + b).len() == p.len() + b.len());
    assert(a.len() == b.len());
    assert forall|i: int| 0 <= i < a.len() implies a[i] == b[i] by {
        assert((p + a)[p.len() + i] == a[i]);
        assert((p + b)[p.len() + i] == b[i]);
    }
    assert(a =~= b);
}

/// In `p + m + s`, a middle part of fixed length is recoverable: two equal
/// concatenations with equally long middles have equal middles.
proof fn lemma_concat_extract_mid(
    p: Seq<char>,
    m1: Seq<char>,
    s1: Seq<char>,
    m2: Seq<char>,
    s2: Seq<char>,
)
    requires
        m1.len() == m2.len(),
        p + m1 + s1 == p + m2 + s2,
    ensures
        m1 == m2,
{
    assert forall|i: int| 0 <= i < m1.len() implies m1[i] == m2[i] by {
        assert((p + m1 + s1)[p.len() + i] == m1[i]);
        assert((p + m2 + s2)[p.len() + i] == m2[i]);
    }
    assert(m1 =~= m2);
}

/// Within one slot, the filename determines the identifier: distinct
/// identifiers of the canonical length give distinct filenames, whatever the
/// extensions are.
pub proof fn lemma_names_injective(id1: Seq<char>, id2: Seq<char>, ext1: Seq<char>, ext2: Seq<char>)
    requires
        id1.len() == 36,
        id2.len() == 36,
        id1 != id2,
    ensures
        spec_original_name(id1, ext1) != spec_original_name(id2, ext2),
        spec_display_name(id1) != spec_display_name(id2),
        spec_thumbnail_name(id1) != spec_thumbnail_name(id2),
{
    if spec_original_name(id1, ext1) == spec_original_name(id2, ext2) {
        assert("original-"@ + id1 + ("."@ + ext1) =~= "original-"@ + id1 + "."@ + ext1);
        assert("original-"@ + id2 + ("."@ + ext2) =~= "original-"@ + id2 + "."@ + ext2);
        lemma_concat_extract_mid("original-"@, id1, "."@ + ext1, id2, "."@ + ext2);
    }
    if spec_display_name(id1) == spec_display_name(id2) {
        assert("display-"@ + id1 + ".jpg"@ =~= "display-"@ + (id1 + ".jpg"@));
        assert("display-"@ + id2 + ".jpg"@ =~= "display-"@ + (id2 + ".jpg"@));
        lemma_concat_left_cancel("display-"@, id1 + ".jpg"@, id2 + ".jpg"@);
        lemma_concat_extract_mid(Seq::<char>::empty(), id1, ".jpg"@, id2, ".jpg"@);
    }
    if spec_thumbnail_name(id1) == spec_thumbnail_name(id2) {
        assert("thumb-"@ + id1 + ".jpg"@ =~= "thumb-"@ + (id1 + ".jpg"@));
        assert("thumb-"@ + id2 + ".jpg"@ =~= "thumb-"@ + (id2 + ".jpg"@));
        lemma_concat_left_cancel("thumb-"@, id1 + ".jpg"@, id2 + ".jpg"@);
        lemma_concat_extract_mid(Seq::<char>::empty(), id1, ".jpg"@, id2, ".jpg"@);
    }
}

/// Names of different slots never collide, whatever identifiers of the
/// canonical length they carry: the three prefixes and the closed extension
/// set make their lengths pairwise different.
pub proof fn lemma_slots_distinct(id1: Seq<char>, id2: Seq<char>, ext: Seq<char>)
    requires
        id1.len() == 36,
        id2.len() == 36,
        ext.len() == 3 || ext.len() == 4,
    ensures
        spec_original_name(id1, ext) != spec_display_name(id2),
        spec_original_name(id1, ext) != spec_thumbnail_name(id2),
        spec_display_name(id1) != spec_thumbnail_name(id2),
{
    reveal_strlit("original-");
    reveal_strlit("display-");
    reveal_strlit("thumb-");
    reveal_strlit(".");
    reveal_strlit(".jpg");
    assert(spec_original_name(id1, ext).len() == 46 + ext.len());
    assert(spec_display_name(id1).len() == 48);
    assert(spec_display_name(id2).len() == 48);
    assert(spec_thumbnail_name(id2).len() == 46);
}

/// Two ingest calls that drew distinct identifiers never produce colliding
/// filenames: the six filenames of the two triplets are pairwise distinct,
/// and so are the three filenames within each triplet.
pub proof fn lemma_no_filename_collision(
    id1: Seq<char>,
    id2: Seq<char>,
    ext1: Seq<char>,
    ext2: Seq<char>,
)
    requires
        id1.len() == 36,
        id2.len() == 36,
        id1 != id2,
        ext1.len() == 3 || ext1.len() == 4,
        ext2.len() == 3 || ext2.len() == 4,
    ensures
        spec_original_name(id1, ext1) != spec_display_name(id1),
        spec_original_name(id1, ext1) != spec_thumbnail_name(id1),
        spec_display_name(id1) != spec_thumbnail_name(id1),
        spec_original_name(id2, ext2) != spec_display_name(id2),
        spec_original_name(id2, ext2) != spec_thumbnail_name(id2),
        spec_display_name(id2) != spec_thumbnail_name(id2),
        spec_original_name(id1, ext1) != spec_original_name(id2, ext2),
        spec_display_name(id1) != spec_display_name(id2),
        spec_thumbnail_name(id1) != spec_thumbnail_name(id2),
        spec_original_name(id1, ext1) != spec_display_name(id2),
        spec_original_name(id1, ext1) != spec_thumbnail_name(id2),
        spec_display_name(id1) != spec_original_name(id2, ext2),
        spec_display_name(id1) != spec_thumbnail_name(id2),
        spec_thumbnail_name(id1) != spec_original_name(id2, ext2),
        spec_thumbnail_name(id1) != spec_display_name(id2),
{
    lemma_names_injective(id1, id2, ext1, ext2);
    lemma_slots_distinct(id1, id1, ext1);
    lemma_slots_distinct(id2, id2, ext2);
    lemma_slots_distinct(id1, id2, ext1);
    lemma_slots_distinct(id2, id1, ext2);
}

} // verus!
