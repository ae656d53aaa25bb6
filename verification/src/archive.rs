//! Archive inputs: which members of a ZIP archive are image frames, and
//! their extraction.
//!
//! The archive is read from memory. Members are opened with an empty
//! password, so a member that needs one counts as unreadable.
//!
//! Frames are extracted in the order of the archive. Where frames are
//! counted off, as for a preview, they are taken in the order in which they
//! are rendered: lexicographic by base name.

use vstd::prelude::*;
use vstd::string::*;
use vstd::seq_lib::*;
use crate::error::{ArchiveFault, RenderError};
use crate::order::{
    lemma_lex_le_antisymmetric,
    lemma_lex_le_transitive,
    lex_le,
    path_key,
    path_le,
};
use crate::text::{
    base_name,
    base_name_of,
    ends_with,
    has_prefix,
    has_suffix,
    lowercase_of,
    starts_with,
    to_lowercase,
};

verus! {

/// `std::io::Cursor`, the reader over the bytes of an archive in memory.
#[verifier::external_type_specification]
#[verifier::external_body]
#[verifier::reject_recursive_types(T)]
pub struct ExCursor<T>(std::io::Cursor<T>);

/// `zip::ZipArchive`, an archive whose central directory has been parsed.
#[verifier::external_type_specification]
#[verifier::external_body]
#[verifier::reject_recursive_types(R)]
pub struct ExZipArchive<R>(zip::ZipArchive<R>);

/// `zip::result::ZipError`, why an archive or a member could not be read.
#[verifier::external_type_specification]
#[verifier::external_body]
pub struct ExZipError(zip::result::ZipError);

/// Whether `zip::ZipArchive::new` finds and parses the central directory of
/// these bytes.
pub uninterp spec fn zip_readable(bytes: Seq<u8>) -> bool;

/// For each member of an archive in the order of its central directory: the
/// name under which it is stored, or `None` where the member cannot be
/// opened with an empty password.
pub uninterp spec fn member_names(archive: zip::ZipArchive<std::io::Cursor<Vec<u8>>>) -> Seq<
    Option<Seq<char>>,
>;

/// For each member of an archive: its decompressed content, or `None` where
/// the member cannot be opened or read to its end.
pub uninterp spec fn member_data(archive: zip::ZipArchive<std::io::Cursor<Vec<u8>>>) -> Seq<
    Option<Seq<u8>>,
>;

/// Calls `zip::ZipArchive::new` on the bytes of an archive.
#[verifier::external_body]
fn zip_open(bytes: Vec<u8>) -> (r: Result<
    zip::ZipArchive<std::io::Cursor<Vec<u8>>>,
    zip::result::ZipError,
>)
    ensures
        r is Ok <==> zip_readable(bytes@),
{
    zip::ZipArchive::new(std::io::Cursor::new(bytes))
}

/// Calls `zip::ZipArchive::len`, the number of members.
#[verifier::external_body]
fn zip_len(archive: &zip::ZipArchive<std::io::Cursor<Vec<u8>>>) -> (n: usize)
    ensures
        n == member_names(*archive).len(),
        n == member_data(*archive).len(),
{
    archive.len()
}

/// Calls `zip::ZipArchive::by_index_decrypt` with an empty password and
/// `zip::read::ZipFile::name` on the member. Opening a member moves the
/// reader and leaves the archive's members as they are.
#[verifier::external_body]
fn zip_member_name(archive: &mut zip::ZipArchive<std::io::Cursor<Vec<u8>>>, index: usize) -> (r:
    Result<Option<String>, zip::result::ZipError>)
    requires
        index < member_names(*old(archive)).len(),
    ensures
        member_names(*final(archive)) == member_names(*old(archive)),
        member_data(*final(archive)) == member_data(*old(archive)),
        match r {
            Ok(Some(name)) => member_names(*old(archive))[index as int] == Some(name@),
            _ => member_names(*old(archive))[index as int] is None,
        },
{
    Ok(archive.by_index_decrypt(index, &[])?.ok().map(|file| file.name().to_string()))
}

/// Calls `zip::ZipArchive::by_index_decrypt` with an empty password and
/// reads the member to its end (`std::io::Read::read_to_end`).
#[verifier::external_body]
fn zip_member_data(archive: &mut zip::ZipArchive<std::io::Cursor<Vec<u8>>>, index: usize) -> (r:
    Result<Option<Vec<u8>>, zip::result::ZipError>)
    requires
        index < member_data(*old(archive)).len(),
    ensures
        member_names(*final(archive)) == member_names(*old(archive)),
        member_data(*final(archive)) == member_data(*old(archive)),
        match r {
            Ok(Some(data)) => member_data(*old(archive))[index as int] == Some(data@),
            _ => member_data(*old(archive))[index as int] is None,
        },
{
    let mut data = Vec::new();
    match archive.by_index_decrypt(index, &[])? {
        Ok(mut file) => {
            std::io::Read::read_to_end(&mut file, &mut data)?;
            Ok(Some(data))
        },
        Err(_) => Ok(None),
    }
}

/// Writes out a `zip::result::ZipError` through its `Display`. Nothing is
/// claimed of the text.
#[verifier::external_body]
fn zip_error_text(error: &zip::result::ZipError) -> (r: String) {
    format!("{}", error)
}

/// Whether a lowercased file name is that of an image frame: it ends in
/// `.png` and is no platform sidecar file, whose names begin with `._`.
pub open spec fn is_image_name(lower: Seq<char>) -> bool {
    has_suffix(lower, ".png"@) && !has_prefix(lower, "._"@)
}

/// Whether a member stored under `name` is an image frame, judged by its
/// base name without regard to case.
pub open spec fn is_frame_member(name: Seq<char>) -> bool {
    is_image_name(lowercase_of(base_name(name)))
}

/// Judges a file name that is already in lowercase.
pub fn is_valid_image_lowered(lower: &str) -> (r: bool)
    ensures
        r == is_image_name(lower@),
{
    ends_with(lower, ".png") && !starts_with(lower, "._")
}

/// Tells whether a file name is that of an image frame, without regard to
/// case.
pub fn is_valid_image(file_name: &str) -> (r: bool)
    ensures
        r == is_image_name(lowercase_of(file_name@)),
{
    let name = to_lowercase(file_name);
    is_valid_image_lowered(name.as_str())
}

/// What is said of a member that cannot be opened without a password.
pub const PASSWORD_REQUIRED: &'static str =
    "unsupported Zip archive: Password required to decrypt file";

/// The failure of an archive whose member at `index` cannot be opened or
/// read.
fn member_unreadable(index: usize, detail: String) -> (e: RenderError)
    ensures
        e == (RenderError::ArchiveUnreadable { fault: ArchiveFault::Member { index }, detail }),
{
    RenderError::ArchiveUnreadable { fault: ArchiveFault::Member { index }, detail }
}

/// The failure as a count or a single extraction reports it: the fault of a
/// member is told by the detail alone.
pub open spec fn listing_fault_of(e: RenderError) -> RenderError {
    match e {
        RenderError::ArchiveUnreadable { fault: ArchiveFault::Member { index }, detail } => {
            RenderError::ArchiveUnreadable { fault: ArchiveFault::Listing { index }, detail }
        },
        _ => e,
    }
}

/// Turns a failure into the one that a count or a single extraction
/// reports.
pub fn as_listing_fault(e: RenderError) -> (r: RenderError)
    ensures
        r == listing_fault_of(e),
{
    match e {
        RenderError::ArchiveUnreadable { fault: ArchiveFault::Member { index }, detail } => {
            RenderError::ArchiveUnreadable { fault: ArchiveFault::Listing { index }, detail }
        },
        other => other,
    }
}

/// `e` says that the member at `index` cannot be opened or read.
pub open spec fn is_member_fault(e: RenderError, index: int) -> bool {
    e matches RenderError::ArchiveUnreadable { fault: ArchiveFault::Member { index: i }, .. } && i
        == index
}

/// A ZIP archive held in memory, opened for reading.
pub struct FrameArchive {
    /// The parsed archive.
    pub inner: zip::ZipArchive<std::io::Cursor<Vec<u8>>>,
}

/// One frame taken out of an archive.
#[derive(Debug)]
pub struct ExtractedFrame {
    /// The base name of the member, under which the frame is to be stored.
    pub name: String,
    /// The content of the frame.
    pub data: Vec<u8>,
}

/// Every member can be opened.
pub open spec fn all_named(names: Seq<Option<Seq<char>>>) -> bool {
    forall|i: int| 0 <= i < names.len() ==> (#[trigger] names[i]) is Some
}

/// `e` says that the member at the first position that cannot be opened is
/// unreadable.
pub open spec fn is_first_member_fault(e: RenderError, names: Seq<Option<Seq<char>>>) -> bool {
    &&& e matches RenderError::ArchiveUnreadable { fault: ArchiveFault::Member { index }, .. }
    &&& index < names.len()
    &&& names[index as int] is None
    &&& all_named(names.take(index as int))
}

/// `e` says, as a count does, that the member at the first position that
/// cannot be opened is unreadable.
pub open spec fn is_first_listing_fault(e: RenderError, names: Seq<Option<Seq<char>>>) -> bool {
    &&& e matches RenderError::ArchiveUnreadable { fault: ArchiveFault::Listing { index }, .. }
    &&& index < names.len()
    &&& names[index as int] is None
    &&& all_named(names.take(index as int))
}

/// The positions of the image frames among the members, in ascending order.
pub open spec fn frame_indices(names: Seq<Option<Seq<char>>>) -> Seq<usize>
    decreases names.len(),
{
    if names.len() == 0 {
        Seq::empty()
    } else {
        let before = frame_indices(names.drop_last());
        match names.last() {
            Some(name) => if is_frame_member(name) {
                before.push((names.len() - 1) as usize)
            } else {
                before
            },
            None => before,
        }
    }
}

/// An image frame found among the members of an archive.
#[derive(Debug)]
pub struct FrameMember {
    /// The position of the member in the archive.
    pub index: usize,
    /// The base name of the member.
    pub name: String,
}

/// `members` are the image frames among `names`, in order, each with its
/// position and its base name.
pub open spec fn is_listing_of(members: Seq<FrameMember>, names: Seq<Option<Seq<char>>>) -> bool {
    &&& members.len() == frame_indices(names).len()
    &&& forall|k: int|
        0 <= k < members.len() ==> {
            &&& (#[trigger] members[k]).index == frame_indices(names)[k]
            &&& members[k].index < names.len()
            &&& names[members[k].index as int] is Some
            &&& members[k].name@ == base_name(names[members[k].index as int].unwrap())
        }
}

/// The positions of the listed frames, in the order of the listing.
pub open spec fn member_indices(members: Seq<FrameMember>) -> Seq<usize> {
    Seq::new(members.len(), |k: int| members[k].index)
}

/// The frames are in lexicographic order of their base names, and frames
/// of one base name are in the order of the archive.
pub open spec fn is_ordered(members: Seq<FrameMember>) -> bool {
    forall|i: int, j: int|
        0 <= i < j < members.len() ==> {
            &&& lex_le(
                path_key((#[trigger] members[i]).name@),
                path_key((#[trigger] members[j]).name@),
            )
            &&& (path_key(members[i].name@) == path_key(members[j].name@) ==> members[i].index
                < members[j].index)
        }
}

/// `member` is an image frame of the archive, with its position and its base
/// name.
pub open spec fn is_frame_of(member: FrameMember, names: Seq<Option<Seq<char>>>) -> bool {
    &&& member.index < names.len()
    &&& names[member.index as int] is Some
    &&& member.name@ == base_name(names[member.index as int].unwrap())
}

/// `members` are the image frames among `names`, each once, in the order in
/// which a directory of them is rendered: lexicographic by base name.
pub open spec fn is_ordered_listing_of(
    members: Seq<FrameMember>,
    names: Seq<Option<Seq<char>>>,
) -> bool {
    &&& member_indices(members).to_multiset() == frame_indices(names).to_multiset()
    &&& forall|k: int| 0 <= k < members.len() ==> is_frame_of(#[trigger] members[k], names)
    &&& is_ordered(members)
}

/// The positions of the image frames lie within the archive and ascend.
pub proof fn lemma_frame_indices_ascend(names: Seq<Option<Seq<char>>>)
    requires
        names.len() <= usize::MAX,
    ensures
        forall|k: int|
            0 <= k < frame_indices(names).len() ==> (#[trigger] frame_indices(names)[k])
                < names.len(),
        forall|a: int, b: int|
            0 <= a < b < frame_indices(names).len() ==> (#[trigger] frame_indices(names)[a]) < (
            #[trigger] frame_indices(names)[b]),
    decreases names.len(),
{
    if names.len() > 0 {
        let earlier = frame_indices(names.drop_last());
        let all = frame_indices(names);
        lemma_frame_indices_ascend(names.drop_last());
        assert forall|k: int| 0 <= k < all.len() implies (#[trigger] all[k]) < names.len() by {
            if k < earlier.len() {
                assert(all[k] == earlier[k]);
            }
        }
        assert forall|a: int, b: int| 0 <= a < b < all.len() implies (#[trigger] all[a]) < (
        #[trigger] all[b]) by {
            assert(all[a] == earlier[a]);
            if b < earlier.len() {
                assert(all[b] == earlier[b]);
            }
        }
    }
}

/// Two ordered lists of frames of one archive that hold the same positions,
/// each once, hold them in the same order.
proof fn lemma_ordered_unique(
    a: Seq<FrameMember>,
    b: Seq<FrameMember>,
    names: Seq<Option<Seq<char>>>,
)
    requires
        is_ordered(a),
        is_ordered(b),
        forall|k: int| 0 <= k < a.len() ==> is_frame_of(#[trigger] a[k], names),
        forall|k: int| 0 <= k < b.len() ==> is_frame_of(#[trigger] b[k], names),
        member_indices(a).to_multiset() == member_indices(b).to_multiset(),
        member_indices(a).no_duplicates(),
        member_indices(b).no_duplicates(),
    ensures
        member_indices(a) == member_indices(b),
    decreases a.len(),
{
    let ia = member_indices(a);
    let ib = member_indices(b);
    to_multiset_len(ia);
    to_multiset_len(ib);
    if a.len() == 0 {
        assert(ia =~= ib);
    } else {
        let x = ia[0];
        to_multiset_contains(ia, x);
        to_multiset_contains(ib, x);
        assert(ia.contains(x));
        let p = choose|p: int| 0 <= p < ib.len() && ib[p] == x;
        if p != 0 {
            let y = ib[0];
            to_multiset_contains(ia, y);
            to_multiset_contains(ib, y);
            assert(ib.contains(y));
            let q = choose|q: int| 0 <= q < ia.len() && ia[q] == y;
            assert(ib[p] != ib[0]);
            assert(q != 0);
            assert(is_frame_of(a[0], names) && is_frame_of(a[q], names));
            assert(is_frame_of(b[0], names) && is_frame_of(b[p], names));
            assert(a[0].name@ == b[p].name@);
            assert(a[q].name@ == b[0].name@);
            assert(lex_le(path_key(a[0].name@), path_key(a[q].name@)));
            assert(lex_le(path_key(b[0].name@), path_key(b[p].name@)));
            lemma_lex_le_antisymmetric(path_key(a[0].name@), path_key(a[q].name@));
            assert(a[0].index < a[q].index);
            assert(b[0].index < b[p].index);
        }
        assert(p == 0);
        let a2 = a.drop_first();
        let b2 = b.drop_first();
        assert(member_indices(a2) =~= ia.remove(0));
        assert(member_indices(b2) =~= ib.remove(0));
        to_multiset_remove(ia, 0);
        to_multiset_remove(ib, 0);
        assert forall|i: int, j: int| 0 <= i < j < a2.len() implies {
            &&& lex_le(path_key((#[trigger] a2[i]).name@), path_key((#[trigger] a2[j]).name@))
            &&& (path_key(a2[i].name@) == path_key(a2[j].name@) ==> a2[i].index < a2[j].index)
        } by {
            assert(a2[i] == a[i + 1] && a2[j] == a[j + 1]);
        }
        assert forall|i: int, j: int| 0 <= i < j < b2.len() implies {
            &&& lex_le(path_key((#[trigger] b2[i]).name@), path_key((#[trigger] b2[j]).name@))
            &&& (path_key(b2[i].name@) == path_key(b2[j].name@) ==> b2[i].index < b2[j].index)
        } by {
            assert(b2[i] == b[i + 1] && b2[j] == b[j + 1]);
        }
        assert forall|k: int| 0 <= k < a2.len() implies is_frame_of(#[trigger] a2[k], names) by {
            assert(a2[k] == a[k + 1]);
        }
        assert forall|k: int| 0 <= k < b2.len() implies is_frame_of(#[trigger] b2[k], names) by {
            assert(b2[k] == b[k + 1]);
        }
        assert(member_indices(a2).no_duplicates()) by {
            assert forall|i: int, j: int|
                0 <= i < member_indices(a2).len() && 0 <= j < member_indices(a2).len() && i
                    != j implies member_indices(a2)[i] != member_indices(a2)[j] by {
                assert(member_indices(a2)[i] == ia[i + 1] && member_indices(a2)[j] == ia[j + 1]);
            }
        }
        assert(member_indices(b2).no_duplicates()) by {
            assert forall|i: int, j: int|
                0 <= i < member_indices(b2).len() && 0 <= j < member_indices(b2).len() && i
                    != j implies member_indices(b2)[i] != member_indices(b2)[j] by {
                assert(member_indices(b2)[i] == ib[i + 1] && member_indices(b2)[j] == ib[j + 1]);
            }
        }
        lemma_ordered_unique(a2, b2, names);
        assert forall|k: int| 0 <= k < ia.len() implies ia[k] == ib[k] by {
            if k > 0 {
                assert(ia[k] == member_indices(a2)[k - 1]);
                assert(ib[k] == member_indices(b2)[k - 1]);
            }
        }
        assert(ia =~= ib);
    }
}

/// The frames of an archive have one order in which they are rendered: two
/// ordered listings of the same archive name the same members in the same
/// places.
pub proof fn lemma_ordered_listing_unique(
    a: Seq<FrameMember>,
    b: Seq<FrameMember>,
    names: Seq<Option<Seq<char>>>,
)
    requires
        names.len() <= usize::MAX,
        is_ordered_listing_of(a, names),
        is_ordered_listing_of(b, names),
    ensures
        member_indices(a) == member_indices(b),
{
    let frames = frame_indices(names);
    lemma_frame_indices_ascend(names);
    assert(frames.no_duplicates()) by {
        assert forall|i: int, j: int|
            0 <= i < frames.len() && 0 <= j < frames.len() && i != j implies frames[i]
            != frames[j] by {
            if i < j {
                assert(frames[i] < frames[j]);
            } else {
                assert(frames[j] < frames[i]);
            }
        }
    }
    frames.lemma_multiset_has_no_duplicates();
    member_indices(a).lemma_multiset_has_no_duplicates_conv();
    member_indices(b).lemma_multiset_has_no_duplicates_conv();
    lemma_ordered_unique(a, b, names);
}

/// Puts `member` into an ordered list, behind every frame whose name comes
/// no later, and tells where.
fn insert_member(ordered: &mut Vec<FrameMember>, member: FrameMember) -> (at: usize)
    requires
        is_ordered(old(ordered)@),
        forall|p: int| 0 <= p < old(ordered)@.len() ==> (#[trigger] old(ordered)@[p]).index < member.index,
    ensures
        at <= old(ordered)@.len(),
        final(ordered)@ == old(ordered)@.insert(at as int, member),
        is_ordered(final(ordered)@),
{
    let ghost before = ordered@;
    let mut at: usize = 0;
    while at < ordered.len() && path_le(ordered[at].name.as_str(), member.name.as_str())
        invariant
            at <= ordered.len(),
            ordered@ == before,
            forall|q: int|
                0 <= q < at ==> lex_le(
                    path_key((#[trigger] before[q]).name@),
                    path_key(member.name@),
                ),
        decreases ordered.len() - at,
    {
        at = at + 1;
    }
    proof {
        assert forall|q: int| at <= q < before.len() implies lex_le(
            path_key(member.name@),
            path_key((#[trigger] before[q]).name@),
        ) && path_key(before[q].name@) != path_key(member.name@) by {
            let first = before[at as int];
            assert(lex_le(path_key(member.name@), path_key(first.name@)));
            assert(!lex_le(path_key(first.name@), path_key(member.name@)));
            if q > at {
                assert(lex_le(path_key(first.name@), path_key(before[q].name@)));
                lemma_lex_le_transitive(
                    path_key(member.name@),
                    path_key(first.name@),
                    path_key(before[q].name@),
                );
            }
        }
    }
    ordered.insert(at, member);
    proof {
        let after = ordered@;
        assert forall|i: int, j: int| 0 <= i < j < after.len() implies {
            &&& lex_le(path_key((#[trigger] after[i]).name@), path_key((#[trigger] after[j]).name@))
            &&& (path_key(after[i].name@) == path_key(after[j].name@) ==> after[i].index
                < after[j].index)
        } by {
            if j < at {
                assert(after[i] == before[i] && after[j] == before[j]);
            } else if j == at {
                assert(after[i] == before[i]);
            } else if i < at {
                assert(after[i] == before[i] && after[j] == before[j - 1]);
            } else if i == at {
                assert(after[j] == before[j - 1]);
            } else {
                assert(after[i] == before[i - 1] && after[j] == before[j - 1]);
            }
        }
    }
    at
}

impl FrameArchive {
    /// The names of the members, `None` where one cannot be opened.
    pub open spec fn names(&self) -> Seq<Option<Seq<char>>> {
        member_names(self.inner)
    }

    /// The contents of the members, `None` where one cannot be read.
    pub open spec fn data(&self) -> Seq<Option<Seq<u8>>> {
        member_data(self.inner)
    }

    /// The positions of the image frames among the members.
    pub open spec fn frames(&self) -> Seq<usize> {
        frame_indices(self.names())
    }

    /// Opens the archive that `bytes` hold. Bytes that are no readable ZIP
    /// container are rejected as an unreadable archive.
    pub fn open(bytes: Vec<u8>) -> (r: Result<FrameArchive, RenderError>)
        ensures
            r is Ok <==> zip_readable(bytes@),
            r matches Err(e) ==> e matches RenderError::ArchiveUnreadable {
                fault: ArchiveFault::Container,
                ..
            },
    {
        match zip_open(bytes) {
            Ok(inner) => Ok(FrameArchive { inner }),
            Err(e) => Err(
                RenderError::ArchiveUnreadable {
                    fault: ArchiveFault::Container,
                    detail: zip_error_text(&e),
                },
            ),
        }
    }

    /// Finds the image frames among the members. Fails where a member
    /// cannot be opened.
    pub fn frame_members(&mut self) -> (r: Result<Vec<FrameMember>, RenderError>)
        ensures
            final(self).names() == old(self).names(),
            final(self).data() == old(self).data(),
            old(self).data().len() == old(self).names().len(),
            old(self).names().len() <= usize::MAX,
            r is Ok <==> all_named(old(self).names()),
            r matches Ok(members) ==> is_listing_of(members@, old(self).names()),
            r matches Err(e) ==> is_first_member_fault(e, old(self).names()),
    {
        let ghost names = self.names();
        let count = zip_len(&self.inner);
        let mut members: Vec<FrameMember> = Vec::new();
        let mut i: usize = 0;
        while i < count
            invariant
                i <= count,
                count == names.len(),
                count == old(self).data().len(),
                names == old(self).names(),
                self.names() == names,
                self.data() == old(self).data(),
                all_named(names.take(i as int)),
                is_listing_of(members@, names.take(i as int)),
            decreases count - i,
        {
            proof {
                assert(names.take(i + 1).drop_last() =~= names.take(i as int));
            }
            match zip_member_name(&mut self.inner, i) {
                Ok(Some(name)) => {
                    let base = base_name_of(name.as_str());
                    if is_valid_image(base) {
                        members.push(FrameMember { index: i, name: String::from_str(base) });
                    }
                    proof {
                        assert forall|j: int| 0 <= j < i + 1 implies (#[trigger] names.take(
                            i + 1,
                        )[j]) is Some by {
                            if j < i {
                                assert(names.take(i as int)[j] is Some);
                            }
                        }
                    }
                },
                Ok(None) => {
                    return Err(member_unreadable(i, String::from_str(PASSWORD_REQUIRED)));
                },
                Err(e) => {
                    return Err(member_unreadable(i, zip_error_text(&e)));
                },
            }
            i = i + 1;
        }
        assert(names.take(i as int) =~= names);
        Ok(members)
    }

    /// Lists the image frames in the order in which they are rendered:
    /// lexicographic by base name, frames of one name in the order of the
    /// archive. Fails where a member cannot be opened.
    pub fn ordered_frames(&mut self) -> (r: Result<Vec<FrameMember>, RenderError>)
        ensures
            final(self).names() == old(self).names(),
            final(self).data() == old(self).data(),
            old(self).data().len() == old(self).names().len(),
            old(self).names().len() <= usize::MAX,
            r is Ok <==> all_named(old(self).names()),
            r matches Ok(members) ==> is_ordered_listing_of(members@, old(self).names()),
            r matches Err(e) ==> is_first_member_fault(e, old(self).names()),
    {
        let ghost names = self.names();
        let listing = match self.frame_members() {
            Ok(listing) => listing,
            Err(e) => {
                return Err(e);
            },
        };
        proof {
            lemma_frame_indices_ascend(names);
        }
        let mut ordered: Vec<FrameMember> = Vec::new();
        let mut k: usize = 0;
        assert(member_indices(ordered@) =~= member_indices(listing@.take(0)));
        while k < listing.len()
            invariant
                k <= listing.len(),
                is_listing_of(listing@, names),
                forall|a: int, b: int|
                    0 <= a < b < listing@.len() ==> (#[trigger] listing@[a]).index < (
                    #[trigger] listing@[b]).index,
                is_ordered(ordered@),
                member_indices(ordered@).to_multiset() == member_indices(
                    listing@.take(k as int),
                ).to_multiset(),
                forall|p: int| 0 <= p < ordered@.len() ==> is_frame_of(#[trigger] ordered@[p], names),
                forall|p: int, j: int|
                    0 <= p < ordered@.len() && k <= j < listing@.len() ==> (
                    #[trigger] ordered@[p]).index < (#[trigger] listing@[j]).index,
            decreases listing.len() - k,
        {
            let ghost held = ordered@;
            let member = FrameMember { index: listing[k].index, name: listing[k].name.clone() };
            let at = insert_member(&mut ordered, member);
            proof {
                let taken = listing@.take(k as int);
                assert(member_indices(ordered@) =~= member_indices(held).insert(
                    at as int,
                    member.index,
                ));
                to_multiset_insert(member_indices(held), at as int, member.index);
                assert(member_indices(listing@.take(k + 1)) =~= member_indices(taken).push(
                    member.index,
                ));
                to_multiset_build(member_indices(taken), member.index);
                assert forall|p: int| 0 <= p < ordered@.len() implies is_frame_of(
                    #[trigger] ordered@[p],
                    names,
                ) by {
                    if p < at {
                        assert(ordered@[p] == held[p]);
                    } else if p > at {
                        assert(ordered@[p] == held[p - 1]);
                    }
                }
                assert forall|p: int, j: int|
                    0 <= p < ordered@.len() && k + 1 <= j < listing@.len() implies (
                #[trigger] ordered@[p]).index < (#[trigger] listing@[j]).index by {
                    if p < at {
                        assert(ordered@[p] == held[p]);
                    } else if p > at {
                        assert(ordered@[p] == held[p - 1]);
                    }
                }
            }
            k = k + 1;
        }
        proof {
            assert(listing@.take(k as int) =~= listing@);
            assert(member_indices(listing@) =~= frame_indices(names));
        }
        Ok(ordered)
    }

    /// The number of members.
    pub fn len(&self) -> (n: usize)
        ensures
            n == self.names().len(),
            n == self.data().len(),
    {
        zip_len(&self.inner)
    }

    /// Reads the member at `index`.
    pub fn member(&mut self, index: usize) -> (r: Result<Vec<u8>, RenderError>)
        requires
            index < old(self).data().len(),
        ensures
            final(self).names() == old(self).names(),
            final(self).data() == old(self).data(),
            match r {
                Ok(bytes) => old(self).data()[index as int] == Some(bytes@),
                Err(e) => old(self).data()[index as int] is None && is_member_fault(
                    e,
                    index as int,
                ),
            },
    {
        match zip_member_data(&mut self.inner, index) {
            Ok(Some(bytes)) => Ok(bytes),
            Ok(None) => Err(member_unreadable(index, String::from_str(PASSWORD_REQUIRED))),
            Err(e) => Err(member_unreadable(index, zip_error_text(&e))),
        }
    }
}

/// Counts the image frames of an archive. Fails where a member cannot be
/// opened.
pub fn count_pngs_in_zip(archive: &mut FrameArchive) -> (r: Result<usize, RenderError>)
    ensures
        final(archive).names() == old(archive).names(),
        final(archive).data() == old(archive).data(),
        r is Ok <==> all_named(old(archive).names()),
        r matches Ok(count) ==> count == old(archive).frames().len(),
        r matches Err(e) ==> is_first_listing_fault(e, old(archive).names()),
{
    match archive.frame_members() {
        Ok(members) => Ok(members.len()),
        Err(e) => Err(as_listing_fault(e)),
    }
}

/// What extracting the frame at `frame_index` comes to, given the members
/// of the archive.
pub open spec fn frame_extraction(
    names: Seq<Option<Seq<char>>>,
    data: Seq<Option<Seq<u8>>>,
    frame_index: usize,
    r: Result<Vec<u8>, RenderError>,
) -> bool {
    let frames = frame_indices(names);
    if !all_named(names) {
        r matches Err(e) && is_first_listing_fault(e, names)
    } else if frames.len() == 0 {
        r matches Err(RenderError::NoFramesInArchive)
    } else if frame_index >= frames.len() {
        r matches Err(RenderError::FrameIndexOutOfRange { index, count }) && index == frame_index
            && count == frames.len()
    } else {
        match data[frames[frame_index as int] as int] {
            Some(bytes) => r matches Ok(found) && found@ == bytes,
            None => r matches Err(
                RenderError::ArchiveUnreadable { fault: ArchiveFault::Listing { index }, .. },
            ) && index == frames[frame_index as int],
        }
    }
}

/// Extracts one image frame of an archive, counted among the image frames
/// only.
///
/// An archive without image frames is rejected as such, and an index beyond
/// the last frame as out of range. Where a member cannot be opened, or the
/// frame cannot be read, the archive is unreadable.
pub fn extract_frame_from_zip(archive: &mut FrameArchive, frame_index: usize) -> (r: Result<
    Vec<u8>,
    RenderError,
>)
    ensures
        final(archive).names() == old(archive).names(),
        final(archive).data() == old(archive).data(),
        frame_extraction(old(archive).names(), old(archive).data(), frame_index, r),
{
    let members = match archive.frame_members() {
        Ok(members) => members,
        Err(e) => {
            return Err(as_listing_fault(e));
        },
    };
    if members.len() == 0 {
        return Err(RenderError::NoFramesInArchive);
    }
    if frame_index >= members.len() {
        return Err(RenderError::FrameIndexOutOfRange { index: frame_index, count: members.len() });
    }
    match archive.member(members[frame_index].index) {
        Ok(bytes) => Ok(bytes),
        Err(e) => Err(as_listing_fault(e)),
    }
}

/// The frames extracted are those of an archive whose members can all be
/// opened, in its order, each under its base name and with its content.
pub open spec fn is_extraction_of(
    frames: Seq<ExtractedFrame>,
    names: Seq<Option<Seq<char>>>,
    data: Seq<Option<Seq<u8>>>,
) -> bool {
    let indices = frame_indices(names);
    &&& frames.len() == indices.len()
    &&& forall|k: int|
        0 <= k < frames.len() ==> {
            &&& (#[trigger] frames[k]).name@ == base_name(names[indices[k] as int].unwrap())
            &&& data[indices[k] as int] == Some(frames[k].data@)
        }
}

/// Every frame of the archive can be read.
pub open spec fn all_frames_readable(
    names: Seq<Option<Seq<char>>>,
    data: Seq<Option<Seq<u8>>>,
) -> bool {
    forall|k: int|
        0 <= k < frame_indices(names).len() ==> data[(#[trigger] frame_indices(
            names,
        )[k]) as int] is Some
}

/// Takes every image frame out of an archive.
///
/// Only members whose base name is that of an image are extracted; the rest
/// is skipped. Succeeds where every member can be opened, every frame can be
/// read and there is at least one frame. An archive without frames is
/// rejected as such, any other failure as an unreadable archive.
pub fn unzip_frames(archive: &mut FrameArchive) -> (r: Result<Vec<ExtractedFrame>, RenderError>)
    ensures
        final(archive).names() == old(archive).names(),
        final(archive).data() == old(archive).data(),
        r is Ok <==> all_named(old(archive).names()) && all_frames_readable(
            old(archive).names(),
            old(archive).data(),
        ) && old(archive).frames().len() > 0,
        r matches Ok(frames) ==> is_extraction_of(
            frames@,
            old(archive).names(),
            old(archive).data(),
        ),
        r matches Err(e) ==> if !all_named(old(archive).names()) {
            is_first_member_fault(e, old(archive).names())
        } else if !all_frames_readable(old(archive).names(), old(archive).data()) {
            e matches RenderError::ArchiveUnreadable { fault: ArchiveFault::Member { index }, .. }
                && index < old(archive).data().len() && old(archive).data()[index as int] is None
        } else {
            e is NoFramesInArchive
        },
{
    let ghost names = archive.names();
    let ghost data = archive.data();
    let members = match archive.frame_members() {
        Ok(members) => members,
        Err(e) => {
            return Err(e);
        },
    };
    let mut frames: Vec<ExtractedFrame> = Vec::new();
    let mut k: usize = 0;
    while k < members.len()
        invariant
            k <= members.len(),
            archive.names() == names,
            archive.data() == data,
            names == old(archive).names(),
            data == old(archive).data(),
            data.len() == names.len(),
            all_named(names),
            is_listing_of(members@, names),
            frames@.len() == k,
            forall|j: int|
                0 <= j < k ==> {
                    &&& (#[trigger] frames@[j]).name@ == members@[j].name@
                    &&& data[members@[j].index as int] == Some(frames@[j].data@)
                },
        decreases members.len() - k,
    {
        let bytes = match archive.member(members[k].index) {
            Ok(bytes) => bytes,
            Err(e) => {
                assert(data[frame_indices(names)[k as int] as int] is None);
                return Err(e);
            },
        };
        frames.push(ExtractedFrame { name: members[k].name.clone(), data: bytes });
        k = k + 1;
    }
    proof {
        assert forall|j: int| 0 <= j < frame_indices(names).len() implies data[(
        #[trigger] frame_indices(names)[j]) as int] is Some by {
            assert(data[members@[j].index as int] == Some(frames@[j].data@));
        }
    }
    if frames.len() == 0 {
        return Err(RenderError::NoFramesInArchive);
    }
    Ok(frames)
}

} // verus!
