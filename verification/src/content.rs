//! Content resolution.  The filesystem probe outside the library reports a
//! classified target with the raw bytes it could read; this module decodes
//! and aggregates them into the outcome the response is built from.

use vstd::prelude::*;
use vstd::string::StringExecFns;
use vstd::utf8::decode_utf8;
use vstd::utf8::valid_utf8;

verus! {

/// The raw result of opening and reading one regular file to completion.
#[derive(Debug)]
pub enum FileRead {
    /// The file was opened and read fully; these are its bytes, undecoded.
    Content(Vec<u8>),
    /// Opening the file failed (typically a permission problem).
    OpenFailed,
    /// The file was opened but reading it failed.
    ReadFailed,
}

/// Mathematical image of a `FileRead`.
pub enum FileReadView {
    Content(Seq<u8>),
    OpenFailed,
    ReadFailed,
}

impl View for FileRead {
    type V = FileReadView;

    open spec fn view(&self) -> FileReadView {
        match self {
            FileRead::Content(b) => FileReadView::Content(b@),
            FileRead::OpenFailed => FileReadView::OpenFailed,
            FileRead::ReadFailed => FileReadView::ReadFailed,
        }
    }
}

/// One direct entry of a directory, as the filesystem probe reports it.
#[derive(Debug)]
pub enum DirEntry {
    /// A regular file, with the result of reading it.
    File(FileRead),
    /// An entry that is not a regular file (a subdirectory, for instance).
    NotRegular,
    /// An entry the directory listing itself failed to produce.
    Error,
}

/// Mathematical image of a `DirEntry`.
pub enum DirEntryView {
    File(FileReadView),
    NotRegular,
    Error,
}

impl View for DirEntry {
    type V = DirEntryView;

    open spec fn view(&self) -> DirEntryView {
        match self {
            DirEntry::File(f) => DirEntryView::File(f@),
            DirEntry::NotRegular => DirEntryView::NotRegular,
            DirEntry::Error => DirEntryView::Error,
        }
    }
}

/// The views of a directory's entries, in reported order.
pub open spec fn views_of(entries: Seq<DirEntry>) -> Seq<DirEntryView> {
    entries.map_values(|e: DirEntry| e@)
}

/// The classification of a resolved path, together with everything the
/// probe read: a regular file's bytes, a directory's direct entries, or
/// nothing for a path that does not exist or is inaccessible.
#[derive(Debug)]
pub enum ResolvedTarget {
    RegularFile(FileRead),
    Directory(Vec<DirEntry>),
    Missing,
}

/// Mathematical image of a `ResolvedTarget`.
pub enum TargetView {
    RegularFile(FileReadView),
    Directory(Seq<DirEntryView>),
    Missing,
}

impl View for ResolvedTarget {
    type V = TargetView;

    open spec fn view(&self) -> TargetView {
        match self {
            ResolvedTarget::RegularFile(f) => TargetView::RegularFile(f@),
            ResolvedTarget::Directory(entries) => TargetView::Directory(views_of(entries@)),
            ResolvedTarget::Missing => TargetView::Missing,
        }
    }
}

/// Internal failure categories.  Diagnostic only: the wire response never
/// distinguishes them, every one collapses to the same 404.
#[derive(Clone, Copy, PartialEq, Eq, Structural, Debug)]
pub enum FailureReason {
    PathNotFound,
    PermissionDenied,
    ReadFailure,
    DecodeFailure,
}

/// The outcome of content resolution, handed to response construction.
#[derive(Debug)]
pub enum Outcome {
    Success(String),
    Failure(FailureReason),
}

/// Mathematical image of an `Outcome`.
pub enum OutcomeView {
    Success(Seq<char>),
    Failure(FailureReason),
}

impl View for Outcome {
    type V = OutcomeView;

    open spec fn view(&self) -> OutcomeView {
        match self {
            Outcome::Success(s) => OutcomeView::Success(s@),
            Outcome::Failure(r) => OutcomeView::Failure(*r),
        }
    }
}

/// Relies on `String::from_utf8`: it returns `Ok` exactly when the bytes
/// are valid UTF-8, and then the string is their decoding — stated over
/// vstd's UTF-8 model.
#[verifier::external_body]
fn utf8_to_string(bytes: &Vec<u8>) -> (r: Option<String>)
    ensures
        r is Some <==> valid_utf8(bytes@),
        r matches Some(s) ==> s@ == decode_utf8(bytes@),
{
    String::from_utf8(bytes.clone()).ok()
}

/// Text contributed by one directory entry: a regular file that was read
/// fully and decodes as UTF-8 yields its text plus a line separator;
/// every other entry contributes nothing.
pub open spec fn entry_text(e: DirEntryView) -> Seq<char> {
    match e {
        DirEntryView::File(FileReadView::Content(b)) => if valid_utf8(b) {
            decode_utf8(b) + seq!['\n']
        } else {
            Seq::empty()
        },
        _ => Seq::empty(),
    }
}

/// The concatenated text of a directory's entries, in reported order.
pub open spec fn aggregate_text(entries: Seq<DirEntryView>) -> Seq<char>
    decreases entries.len(),
{
    if entries.len() == 0 {
        Seq::empty()
    } else {
        aggregate_text(entries.drop_last()) + entry_text(entries.last())
    }
}

/// The outcome for a classified target: a missing or unreadable path and
/// an undecodable file fail with their reason; a readable file succeeds
/// with its text; a directory always succeeds with its aggregate, however
/// many entries were skipped.
pub open spec fn spec_outcome(t: TargetView) -> OutcomeView {
    match t {
        TargetView::Missing => OutcomeView::Failure(FailureReason::PathNotFound),
        TargetView::RegularFile(FileReadView::OpenFailed) => OutcomeView::Failure(
            FailureReason::PermissionDenied,
        ),
        TargetView::RegularFile(FileReadView::ReadFailed) => OutcomeView::Failure(
            FailureReason::ReadFailure,
        ),
        TargetView::RegularFile(FileReadView::Content(b)) => if valid_utf8(b) {
            OutcomeView::Success(decode_utf8(b))
        } else {
            OutcomeView::Failure(FailureReason::DecodeFailure)
        },
        TargetView::Directory(entries) => OutcomeView::Success(aggregate_text(entries)),
    }
}

/// Reads every decodable regular file directly inside the directory into
/// one text, a line separator after each; unreadable, undecodable and
/// non-regular entries are skipped, never failing the whole directory.
pub fn aggregate(entries: &Vec<DirEntry>) -> (r: String)
    ensures
        r@ == aggregate_text(views_of(entries@)),
{
    let mut acc = String::new();
    let mut i: usize = 0;
    while i < entries.len()
        invariant
            i <= entries.len(),
            acc@ == aggregate_text(views_of(entries@).take(i as int)),
        decreases entries.len() - i,
    {
        match &entries[i] {
            DirEntry::File(FileRead::Content(bytes)) => {
                match utf8_to_string(bytes) {
                    Some(s) => {
                        acc.append(s.as_str());
                        acc.append("\n");
                        proof {
                            reveal_strlit("\n");
                            assert("\n"@ =~= seq!['\n']);
                        }
                    },
                    None => {},
                }
            },
            _ => {},
        }
        proof {
            let evs = views_of(entries@);
            assert(evs.take(i + 1).drop_last() =~= evs.take(i as int));
            assert(evs.take(i + 1).last() == entries@[i as int]@);
        }
        i += 1;
    }
    proof {
        assert(views_of(entries@).take(entries@.len() as int) =~= views_of(entries@));
    }
    acc
}

/// The content reader: classify, read, decode, aggregate — producing the
/// outcome `spec_outcome` states for the target.
pub fn read_content(target: &ResolvedTarget) -> (r: Outcome)
    ensures
        r@ == spec_outcome(target@),
{
    match target {
        ResolvedTarget::Missing => Outcome::Failure(FailureReason::PathNotFound),
        ResolvedTarget::RegularFile(FileRead::OpenFailed) => Outcome::Failure(
            FailureReason::PermissionDenied,
        ),
        ResolvedTarget::RegularFile(FileRead::ReadFailed) => Outcome::Failure(
            FailureReason::ReadFailure,
        ),
        ResolvedTarget::RegularFile(FileRead::Content(bytes)) => {
            match utf8_to_string(bytes) {
                Some(s) => Outcome::Success(s),
                None => Outcome::Failure(FailureReason::DecodeFailure),
            }
        },
        ResolvedTarget::Directory(entries) => Outcome::Success(aggregate(entries)),
    }
}

/// Law: a directory entry that is unreadable, undecodable or not a
/// regular file contributes nothing — the aggregate with it is the
/// aggregate without it.
pub proof fn lemma_entry_skipped(pre: Seq<DirEntryView>, e: DirEntryView, post: Seq<DirEntryView>)
    requires
        entry_text(e) == Seq::<char>::empty(),
    ensures
        aggregate_text(pre + seq![e] + post) == aggregate_text(pre + post),
    decreases post.len(),
{
    if post.len() == 0 {
        assert((pre + seq![e] + post).drop_last() =~= pre);
        assert((pre + seq![e] + post).last() == e);
        assert(pre + post =~= pre);
        assert(aggregate_text(pre) + Seq::<char>::empty() =~= aggregate_text(pre));
    } else {
        lemma_entry_skipped(pre, e, post.drop_last());
        assert((pre + seq![e] + post).drop_last() =~= pre + seq![e] + post.drop_last());
        assert((pre + seq![e] + post).last() == post.last());
        assert((pre + post).drop_last() =~= pre + post.drop_last());
        assert((pre + post).last() == post.last());
    }
}

} // verus!
