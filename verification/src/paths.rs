//! The destination rules over path components: what a typed destination may be, how `.`
//! and `..` are resolved without touching the filesystem, and when one path lies within
//! another. The terminal layer splits paths into components and inspects the filesystem.
use std::path::PathBuf;

use vstd::prelude::*;

use crate::error::FilesystemError;
use crate::text::{chars_of, push_char, trim, trim_str};

verus! {

/// One component of a path, as `Path::components` yields it.
#[derive(Debug, Clone)]
pub enum PathPart {
    /// A Windows drive or UNC prefix.
    Prefix(String),
    /// The root directory.
    Root,
    /// `.`
    Current,
    /// `..`
    Parent,
    /// A named component.
    Normal(String),
}

/// The text-level view of a component.
pub enum PartView {
    Prefix(Seq<char>),
    Root,
    Current,
    Parent,
    Normal(Seq<char>),
}

pub open spec fn part_view(p: PathPart) -> PartView {
    match p {
        PathPart::Prefix(s) => PartView::Prefix(s@),
        PathPart::Root => PartView::Root,
        PathPart::Current => PartView::Current,
        PathPart::Parent => PartView::Parent,
        PathPart::Normal(s) => PartView::Normal(s@),
    }
}

pub open spec fn parts_view(parts: Seq<PathPart>) -> Seq<PartView> {
    parts.map_values(|p: PathPart| part_view(p))
}

/// The path without its last named component; a root, a prefix or an empty path stays.
pub open spec fn pop_named(parts: Seq<PartView>) -> Seq<PartView> {
    if parts.len() > 0 && parts.last() is Normal {
        parts.drop_last()
    } else {
        parts
    }
}

/// The path with `.` dropped and each `..` removing the named component before it, as
/// pushing and popping the components of a `PathBuf` does.
pub open spec fn normalized(parts: Seq<PartView>) -> Seq<PartView>
    decreases parts.len(),
{
    if parts.len() == 0 {
        Seq::empty()
    } else {
        let before = normalized(parts.drop_last());
        match parts.last() {
            PartView::Current => before,
            PartView::Parent => pop_named(before),
            other => before.push(other),
        }
    }
}

/// A path made of prefixes, roots and named components only.
pub open spec fn resolved(parts: Seq<PartView>) -> bool {
    forall|i: int| 0 <= i < parts.len() ==> !(#[trigger] parts[i] is Current) && !(
    parts[i] is Parent)
}

/// `path` is `base` or lies below it.
pub open spec fn lies_within(path: Seq<PartView>, base: Seq<PartView>) -> bool {
    base.len() <= path.len() && path.take(base.len() as int) == base
}

/// A normalized path holds no `.` or `..`.
pub proof fn lemma_normalized_is_resolved(parts: Seq<PartView>)
    ensures
        resolved(normalized(parts)),
    decreases parts.len(),
{
    if parts.len() > 0 {
        lemma_normalized_is_resolved(parts.drop_last());
        let before = normalized(parts.drop_last());
        if parts.last() is Parent && before.len() > 0 && before.last() is Normal {
            assert forall|i: int| 0 <= i < before.drop_last().len() implies !(
            #[trigger] before.drop_last()[i] is Current) && !(before.drop_last()[i] is Parent) by {
                assert(before.drop_last()[i] == before[i]);
            }
        }
    }
}

/// A path without `.` or `..` is its own normal form.
pub proof fn lemma_resolved_is_normalized(parts: Seq<PartView>)
    requires
        resolved(parts),
    ensures
        normalized(parts) == parts,
    decreases parts.len(),
{
    if parts.len() > 0 {
        let front = parts.drop_last();
        assert(resolved(front)) by {
            assert forall|i: int| 0 <= i < front.len() implies !(#[trigger] front[i] is Current)
                && !(front[i] is Parent) by {
                assert(front[i] == parts[i]);
            }
        }
        lemma_resolved_is_normalized(front);
        assert(!(parts[parts.len() - 1] is Current) && !(parts[parts.len() - 1] is Parent));
        assert(front.push(parts.last()) =~= parts);
    }
}

/// Normalizing twice is normalizing once.
pub proof fn lemma_normalized_idempotent(parts: Seq<PartView>)
    ensures
        normalized(normalized(parts)) == normalized(parts),
{
    lemma_normalized_is_resolved(parts);
    lemma_resolved_is_normalized(normalized(parts));
}

fn copy_part(part: &PathPart) -> (r: PathPart)
    ensures
        part_view(r) == part_view(*part),
{
    match part {
        PathPart::Prefix(s) => PathPart::Prefix(s.clone()),
        PathPart::Root => PathPart::Root,
        PathPart::Current => PathPart::Current,
        PathPart::Parent => PathPart::Parent,
        PathPart::Normal(s) => PathPart::Normal(s.clone()),
    }
}

/// Resolves `.` and `..` without touching the filesystem.
pub fn normalize_parts(parts: &Vec<PathPart>) -> (r: Vec<PathPart>)
    ensures
        parts_view(r@) == normalized(parts_view(parts@)),
{
    let mut out: Vec<PathPart> = Vec::new();
    let mut i: usize = 0;
    while i < parts.len()
        invariant
            i <= parts@.len(),
            parts_view(out@) == normalized(parts_view(parts@.take(i as int))),
        decreases parts@.len() - i,
    {
        let ghost before = out@;
        assert(parts_view(parts@.take(i + 1)).drop_last() =~= parts_view(parts@.take(i as int)));
        assert(parts_view(parts@.take(i + 1)).last() == part_view(parts@[i as int]));
        match &parts[i] {
            PathPart::Current => {},
            PathPart::Parent => {
                let last_is_named = match out.last() {
                    Some(PathPart::Normal(_)) => true,
                    _ => false,
                };
                if last_is_named {
                    out.pop();
                    assert(parts_view(out@) =~= parts_view(before).drop_last());
                }
            },
            other => {
                out.push(copy_part(other));
                assert(parts_view(out@) =~= parts_view(before).push(part_view(*other)));
            },
        }
        i = i + 1;
    }
    assert(parts@.take(i as int) =~= parts@);
    out
}

fn same_part(a: &PathPart, b: &PathPart) -> (r: bool)
    ensures
        r == (part_view(*a) == part_view(*b)),
{
    match (a, b) {
        (PathPart::Prefix(x), PathPart::Prefix(y)) => *x == *y,
        (PathPart::Root, PathPart::Root) => true,
        (PathPart::Current, PathPart::Current) => true,
        (PathPart::Parent, PathPart::Parent) => true,
        (PathPart::Normal(x), PathPart::Normal(y)) => *x == *y,
        _ => false,
    }
}

/// Whether `path` is `base` or lies below it, component by component.
pub fn path_lies_within(path: &Vec<PathPart>, base: &Vec<PathPart>) -> (r: bool)
    ensures
        r == lies_within(parts_view(path@), parts_view(base@)),
{
    if base.len() > path.len() {
        return false;
    }
    let mut i: usize = 0;
    while i < base.len()
        invariant
            base@.len() <= path@.len(),
            i <= base@.len(),
            forall|k: int| 0 <= k < i ==> part_view(#[trigger] path@[k]) == part_view(base@[k]),
        decreases base@.len() - i,
    {
        if !same_part(&path[i], &base[i]) {
            assert(parts_view(path@).take(base@.len() as int)[i as int] != parts_view(base@)[i as int]);
            return false;
        }
        i = i + 1;
    }
    assert(parts_view(path@).take(base@.len() as int) =~= parts_view(base@));
    true
}

/// What the filesystem holds at a destination path, without following a final link.
#[derive(Debug, Clone, Copy, PartialEq, Eq, Structural)]
pub enum EntryKind {
    Directory,
    File,
    Symlink,
    Other,
    Missing,
}

/// Whether a destination with this entry is usable, and whether it already exists: an
/// existing directory is used as it is, a missing one may be created after confirmation,
/// and anything else is rejected.
pub fn destination_status(path: PathBuf, kind: EntryKind) -> (r: Result<bool, FilesystemError>)
    ensures
        kind == EntryKind::Directory ==> r == Ok::<bool, FilesystemError>(true),
        kind == EntryKind::Missing ==> r == Ok::<bool, FilesystemError>(false),
        kind == EntryKind::File ==> r == Err::<bool, FilesystemError>(
            FilesystemError::DestinationIsFile { path },
        ),
        kind == EntryKind::Symlink ==> r == Err::<bool, FilesystemError>(
            FilesystemError::DestinationSymlink { path },
        ),
        kind == EntryKind::Other ==> r == Err::<bool, FilesystemError>(
            FilesystemError::DestinationUnsupportedType { path },
        ),
{
    match kind {
        EntryKind::Directory => Ok(true),
        EntryKind::Missing => Ok(false),
        EntryKind::File => Err(FilesystemError::DestinationIsFile { path }),
        EntryKind::Symlink => Err(FilesystemError::DestinationSymlink { path }),
        EntryKind::Other => Err(FilesystemError::DestinationUnsupportedType { path }),
    }
}

/// The input shown in a diagnostic: each NUL character written as `\0`.
pub open spec fn shown_input(s: Seq<char>) -> Seq<char>
    decreases s.len(),
{
    if s.len() == 0 {
        Seq::empty()
    } else if s.last() == '\0' {
        shown_input(s.drop_last()) + seq!['\\', '0']
    } else {
        shown_input(s.drop_last()).push(s.last())
    }
}

/// The typed destination, trimmed: it must not be empty and must not hold a NUL
/// character, which no path can contain.
pub fn check_destination_text(raw: &str) -> (r: Result<String, FilesystemError>)
    ensures
        trim(raw@).len() == 0 ==> r matches Err(FilesystemError::EmptyDestination),
        trim(raw@).len() > 0 && trim(raw@).contains('\0') ==> (r matches Err(
            FilesystemError::InvalidDestination { input, reason },
        ) && input@ == shown_input(trim(raw@))
            && reason@ == "the path contains a NUL character"@),
        trim(raw@).len() > 0 && !trim(raw@).contains('\0') ==> (r matches Ok(t) && t@ == trim(
            raw@,
        )),
{
    let trimmed = trim_str(raw);
    if trimmed.as_str().is_empty() {
        return Err(FilesystemError::EmptyDestination);
    }
    let chars = chars_of(trimmed.as_str());
    let mut shown = String::new();
    let mut has_nul = false;
    let mut i: usize = 0;
    while i < chars.len()
        invariant
            chars@ == trim(raw@),
            i <= chars@.len(),
            shown@ == shown_input(chars@.take(i as int)),
            has_nul == chars@.take(i as int).contains('\0'),
        decreases chars@.len() - i,
    {
        let c = chars[i];
        assert(chars@.take(i + 1).drop_last() =~= chars@.take(i as int));
        if c == '\0' {
            has_nul = true;
            push_char(&mut shown, '\\');
            push_char(&mut shown, '0');
            assert(shown@ =~= shown_input(chars@.take(i + 1)));
            assert(chars@.take(i + 1)[i as int] == '\0');
        } else {
            push_char(&mut shown, c);
            assert(chars@.take(i as int).contains('\0') == chars@.take(i + 1).contains('\0')) by {
                if chars@.take(i + 1).contains('\0') {
                    let k = choose|k: int| 0 <= k < i + 1 && #[trigger] chars@.take(i + 1)[k] == '\0';
                    assert(chars@.take(i as int)[k] == '\0');
                }
                if chars@.take(i as int).contains('\0') {
                    let k = choose|k: int| 0 <= k < i && #[trigger] chars@.take(i as int)[k] == '\0';
                    assert(chars@.take(i + 1)[k] == '\0');
                }
            }
        }
        i = i + 1;
    }
    assert(chars@.take(i as int) =~= chars@);
    if has_nul {
        Err(
            FilesystemError::InvalidDestination {
                input: shown,
                reason: String::from_str("the path contains a NUL character"),
            },
        )
    } else {
        Ok(trimmed)
    }
}

/// Whether two paths name the same location once `.` and `..` are resolved.
pub fn same_location(a: &Vec<PathPart>, b: &Vec<PathPart>) -> (r: bool)
    ensures
        r == (normalized(parts_view(a@)) == normalized(parts_view(b@))),
{
    let x = normalize_parts(a);
    let y = normalize_parts(b);
    let same = path_lies_within(&x, &y) && path_lies_within(&y, &x);
    proof {
        if same {
            assert(parts_view(x@).take(parts_view(y@).len() as int) == parts_view(y@));
            assert(parts_view(x@).take(parts_view(x@).len() as int) =~= parts_view(x@));
        }
        if parts_view(x@) == parts_view(y@) {
            assert(parts_view(x@).take(parts_view(y@).len() as int) =~= parts_view(x@));
        }
    }
    same
}

/// The first selected folder the destination is or lies within, once `.` and `..` are
/// resolved; the destination may be neither a selected folder nor inside one.
pub fn conflicting_folder(destination: &Vec<PathPart>, folders: &Vec<Vec<PathPart>>) -> (r:
    Option<usize>)
    ensures
        match r {
            None => forall|k: int|
                0 <= k < folders@.len() ==> !lies_within(
                    normalized(parts_view(destination@)),
                    normalized(parts_view(#[trigger] folders@[k]@)),
                ),
            Some(k) => k < folders@.len() && lies_within(
                normalized(parts_view(destination@)),
                normalized(parts_view(folders@[k as int]@)),
            ) && forall|j: int|
                0 <= j < k ==> !lies_within(
                    normalized(parts_view(destination@)),
                    normalized(parts_view(#[trigger] folders@[j]@)),
                ),
        },
{
    let target = normalize_parts(destination);
    let mut k: usize = 0;
    while k < folders.len()
        invariant
            k <= folders@.len(),
            parts_view(target@) == normalized(parts_view(destination@)),
            forall|j: int|
                0 <= j < k ==> !lies_within(
                    parts_view(target@),
                    normalized(parts_view(#[trigger] folders@[j]@)),
                ),
        decreases folders@.len() - k,
    {
        let folder = normalize_parts(&folders[k]);
        if path_lies_within(&target, &folder) {
            return Some(k);
        }
        k = k + 1;
    }
    None
}

} // verus!
