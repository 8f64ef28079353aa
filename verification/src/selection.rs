//! The decisions of the filesystem selection: destination, source folders, then the videos
//! of each selected folder. The terminal layer resolves paths, lists folders and asks the
//! questions; this flow decides what comes next from what it hands back. A selection is
//! only complete once every selected folder has at least one selected video and the
//! destination was checked against the selected folders; nothing is chosen for the user.
use vstd::prelude::*;

use crate::error::{AppError, FilesystemError, UiError};
use crate::workflow::{
    ascending, distinct, sorted_indices, strictly_ascending, valid_selection,
    validate_selection_indices,
};

verus! {

/// The videos chosen in one source folder, as positions in the folder's listing.
pub struct SelectedSource {
    /// The position of the folder in the source-folder listing.
    pub folder: usize,
    /// The positions of the chosen videos in the folder's video listing, ascending.
    pub files: Vec<usize>,
}

/// Why the destination is asked for again.
pub enum DestinationNotice {
    /// The entered path cannot be a destination.
    Rejected(FilesystemError),
    /// "The destination will not be created. Choose another destination."
    NotCreated,
}

/// Why the user is asked whether to choose the source folders again.
pub enum FoldersAgainReason {
    /// The folder at this listing position has no eligible video.
    NoVideos(usize),
    /// The destination conflicts with the selected folders.
    Conflict(FilesystemError),
}

/// What happened after the last selection action.
pub enum SelectionEvent {
    /// The destination text, or `None` when the prompt was canceled.
    DestinationEntered(Option<String>),
    /// Whether the resolved destination already exists, or why it was rejected.
    DestinationResolved(Result<bool, FilesystemError>),
    /// The answer to the destination-creation question.
    CreationConfirmed(Option<bool>),
    /// How many eligible source folders were found.
    FoldersDiscovered(Result<usize, FilesystemError>),
    /// The answer to "Choose a different destination?".
    OtherDestination(Option<bool>),
    /// The chosen source-folder positions, or `None` when canceled.
    FoldersSelected(Option<Vec<usize>>),
    /// How many eligible videos the current folder holds.
    VideosDiscovered(Result<usize, FilesystemError>),
    /// The chosen video positions in the current folder, or `None` when canceled.
    VideosSelected(Option<Vec<usize>>),
    /// The answer to "Choose source folders again?".
    FoldersAgain(Option<bool>),
    /// Whether the destination is compatible with the selected folders.
    SourcesChecked(Result<(), FilesystemError>),
}

/// What the terminal does next in the filesystem selection.
pub enum SelectionAction {
    /// Ask for the destination path (step 1 of 3), after showing the notice, if any.
    AskDestination(Option<DestinationNotice>),
    /// Resolve the entered path against the source root without creating anything.
    ResolveDestination(String),
    /// Ask whether the missing destination may be created after final confirmation.
    ConfirmCreation,
    /// Show the destination and list the eligible source folders of the source root.
    DiscoverFolders { destination_exists: bool },
    /// Warn that no source folder is eligible and ask whether to choose another destination.
    AskOtherDestination,
    /// Let the user choose source folders (step 2 of 3), after the "select at least one"
    /// error when `empty_notice` is set.
    SelectFolders { empty_notice: bool },
    /// List the eligible videos of the folder at this listing position.
    DiscoverVideos(usize),
    /// Show the reason and ask whether to choose the source folders again.
    AskFoldersAgain(FoldersAgainReason),
    /// Let the user choose videos in the folder at this listing position (step 3 of 3),
    /// after the "select at least one" error when `empty_notice` is set.
    SelectVideos { folder: usize, empty_notice: bool },
    /// Check the destination against the folders in `selected`.
    CheckSources,
    /// The completed selection, or `None` when the user canceled.
    Finish(Option<Vec<SelectedSource>>),
    /// An error that ends the workflow.
    Fail(AppError),
}

/// The progress of a filesystem selection.
pub struct FilesystemSelectionFlow {
    /// How many source folders were offered.
    pub folder_count: usize,
    /// The chosen folder positions, ascending.
    pub folders: Vec<usize>,
    /// The position in `folders` of the folder whose videos are being chosen.
    pub position: usize,
    /// How many videos the current folder offers.
    pub file_count: usize,
    /// The videos chosen so far, one entry per folder before `position`.
    pub selected: Vec<SelectedSource>,
}

/// A completed choice of videos in one folder: at least one, each offered, ascending,
/// none twice.
pub open spec fn chosen_files(files: Seq<usize>, count: usize) -> bool {
    &&& files.len() > 0
    &&& strictly_ascending(files)
    &&& forall|k: int| 0 <= k < files.len() ==> #[trigger] files[k] < count
}

/// A completed selection: at least one folder, folders in listing order and each once,
/// each offered, each with a completed choice of videos.
pub open spec fn completed_selection(selected: Seq<SelectedSource>, folder_count: usize) -> bool {
    &&& selected.len() > 0
    &&& forall|i: int, j: int|
        0 <= i < j < selected.len() ==> (#[trigger] selected[i]).folder < (
        #[trigger] selected[j]).folder
    &&& forall|k: int|
        0 <= k < selected.len() ==> (#[trigger] selected[k]).folder < folder_count
            && selected[k].files@.len() > 0 && strictly_ascending(selected[k].files@)
}

/// The selection ends because the user canceled.
pub open spec fn canceled(a: SelectionAction) -> bool {
    a matches SelectionAction::Finish(None)
}

/// The terminal returned a selection outside what was offered.
pub open spec fn invalid_selection(a: SelectionAction, context: Seq<char>) -> bool {
    a matches SelectionAction::Fail(AppError::Ui(UiError::InvalidSelection { context: c }))
        && c@ == context
}

/// The flow is left as it was.
pub open spec fn unchanged(before: FilesystemSelectionFlow, after: FilesystemSelectionFlow) -> bool {
    &&& after.folder_count == before.folder_count
    &&& after.folders@ == before.folders@
    &&& after.position == before.position
    &&& after.file_count == before.file_count
    &&& after.selected@ == before.selected@
}

/// The flow has forgotten its chosen folders and videos, and offers `count` folders.
pub open spec fn emptied(after: FilesystemSelectionFlow, count: usize) -> bool {
    &&& after.folder_count == count
    &&& after.folders@.len() == 0
    &&& after.position == 0
    &&& after.file_count == 0
    &&& after.selected@.len() == 0
}

impl FilesystemSelectionFlow {
    /// The invariant of the flow: the chosen folders are offered, ascending and distinct,
    /// and each folder before `position` has its completed choice of videos.
    pub open spec fn wf(&self) -> bool {
        &&& strictly_ascending(self.folders@)
        &&& forall|k: int| 0 <= k < self.folders@.len() ==> #[trigger] self.folders@[k] < self.folder_count
        &&& self.position <= self.folders@.len()
        &&& self.selected@.len() == self.position
        &&& forall|k: int|
            0 <= k < self.position ==> (#[trigger] self.selected@[k]).folder == self.folders@[k]
                && self.selected@[k].files@.len() > 0 && strictly_ascending(
                self.selected@[k].files@,
            )
    }

    /// Starts a selection by asking for the destination.
    pub fn start() -> (r: (Self, SelectionAction))
        ensures
            r.0.wf(),
            r.0.folder_count == 0,
            r.0.folders@.len() == 0,
            r.0.position == 0,
            r.0.file_count == 0,
            r.0.selected@.len() == 0,
            r.1 matches SelectionAction::AskDestination(None),
    {
        (
            FilesystemSelectionFlow {
                folder_count: 0,
                folders: Vec::new(),
                position: 0,
                file_count: 0,
                selected: Vec::new(),
            },
            SelectionAction::AskDestination(None),
        )
    }

    /// Decides what follows an event.
    pub fn step(&mut self, event: SelectionEvent) -> (a: SelectionAction)
        requires
            old(self).wf(),
        ensures
            final(self).wf(),
            ({
                let (old_folders, pos) = (old(self).folders@, old(self).position as int);
                let (new_folders, new_pos) = (final(self).folders@, final(self).position as int);
                match event {
                    SelectionEvent::DestinationEntered(None) => canceled(a),
                    SelectionEvent::DestinationEntered(Some(raw)) => {
                        a matches SelectionAction::ResolveDestination(r) && r@ == raw@
                    },
                    SelectionEvent::DestinationResolved(Err(e)) => {
                        a matches SelectionAction::AskDestination(
                            Some(DestinationNotice::Rejected(err)),
                        ) && err == e
                    },
                    SelectionEvent::DestinationResolved(Ok(exists)) => if exists {
                        a matches SelectionAction::DiscoverFolders { destination_exists }
                            && destination_exists
                    } else {
                        a matches SelectionAction::ConfirmCreation
                    },
                    SelectionEvent::CreationConfirmed(None) => canceled(a),
                    SelectionEvent::CreationConfirmed(Some(true)) => {
                        a matches SelectionAction::DiscoverFolders { destination_exists }
                            && !destination_exists
                    },
                    SelectionEvent::CreationConfirmed(Some(false)) => {
                        a matches SelectionAction::AskDestination(
                            Some(DestinationNotice::NotCreated),
                        )
                    },
                    SelectionEvent::FoldersDiscovered(Err(e)) => {
                        a matches SelectionAction::Fail(AppError::Filesystem(err)) && err == e
                    },
                    SelectionEvent::FoldersDiscovered(Ok(count)) => if count == 0 {
                        a matches SelectionAction::AskOtherDestination
                    } else {
                        &&& a matches SelectionAction::SelectFolders { empty_notice }
                            && !empty_notice
                        &&& final(self).folder_count == count
                    },
                    SelectionEvent::OtherDestination(Some(true)) => {
                        a matches SelectionAction::AskDestination(None)
                    },
                    SelectionEvent::OtherDestination(_) => canceled(a),
                    SelectionEvent::FoldersSelected(None) => canceled(a),
                    SelectionEvent::FoldersSelected(Some(v)) => if v@.len() == 0 {
                        a matches SelectionAction::SelectFolders { empty_notice } && empty_notice
                    } else if !valid_selection(v@, old(self).folder_count) {
                        invalid_selection(a, "source folder"@)
                    } else {
                        &&& new_folders.to_multiset() == v@.to_multiset()
                        &&& new_pos == 0
                        &&& final(self).folder_count == old(self).folder_count
                        &&& a matches SelectionAction::DiscoverVideos(f) && f == new_folders[0]
                    },
                    SelectionEvent::VideosDiscovered(Err(e)) => {
                        a matches SelectionAction::Fail(AppError::Filesystem(err)) && err == e
                    },
                    SelectionEvent::VideosDiscovered(Ok(count)) => if pos >= old_folders.len() {
                        invalid_selection(a, "source folder"@)
                    } else if count == 0 {
                        a matches SelectionAction::AskFoldersAgain(
                            FoldersAgainReason::NoVideos(f),
                        ) && f == old_folders[pos]
                    } else {
                        &&& a matches SelectionAction::SelectVideos { folder, empty_notice }
                            && folder == old_folders[pos] && !empty_notice
                        &&& final(self).file_count == count
                        &&& final(self).selected@ == old(self).selected@
                        &&& new_pos == pos
                    },
                    SelectionEvent::VideosSelected(None) => canceled(a),
                    SelectionEvent::VideosSelected(Some(v)) => if pos >= old_folders.len() {
                        invalid_selection(a, "video file"@)
                    } else if v@.len() == 0 {
                        a matches SelectionAction::SelectVideos { folder, empty_notice }
                            && folder == old_folders[pos] && empty_notice
                    } else if !valid_selection(v@, old(self).file_count) {
                        invalid_selection(a, "video file"@)
                    } else {
                        let chosen = final(self).selected@.last();
                        &&& new_pos == pos + 1
                        &&& new_folders == old_folders
                        &&& final(self).selected@ == old(self).selected@.push(chosen)
                        &&& chosen.folder == old_folders[pos]
                        &&& chosen.files@.to_multiset() == v@.to_multiset()
                        &&& chosen_files(chosen.files@, old(self).file_count)
                        &&& if new_pos < new_folders.len() {
                            a matches SelectionAction::DiscoverVideos(f) && f == new_folders[new_pos]
                        } else {
                            a matches SelectionAction::CheckSources
                        }
                    },
                    SelectionEvent::FoldersAgain(Some(true)) => {
                        &&& a matches SelectionAction::SelectFolders { empty_notice }
                            && !empty_notice
                        &&& final(self).folder_count == old(self).folder_count
                    },
                    SelectionEvent::FoldersAgain(_) => canceled(a),
                    SelectionEvent::SourcesChecked(Err(e)) => {
                        a matches SelectionAction::AskFoldersAgain(
                            FoldersAgainReason::Conflict(err),
                        ) && err == e
                    },
                    SelectionEvent::SourcesChecked(Ok(())) => if pos == old_folders.len()
                        && pos > 0 {
                        a matches SelectionAction::Finish(Some(sel))
                            && sel@ == old(self).selected@
                            && completed_selection(sel@, old(self).folder_count)
                    } else {
                        invalid_selection(a, "source folder"@)
                    },
                }
            }),
            ({
                let (before, after) = (*old(self), *final(self));
                let pos = before.position as int;
                match event {
                    SelectionEvent::FoldersDiscovered(Ok(count)) => if count == 0 {
                        unchanged(before, after)
                    } else {
                        emptied(after, count)
                    },
                    SelectionEvent::FoldersSelected(Some(v)) => if v@.len() == 0
                        || !valid_selection(v@, before.folder_count) {
                        unchanged(before, after)
                    } else {
                        &&& after.folder_count == before.folder_count
                        &&& strictly_ascending(after.folders@)
                        &&& after.folders@.to_multiset() == v@.to_multiset()
                        &&& after.position == 0
                        &&& after.file_count == before.file_count
                        &&& after.selected@.len() == 0
                    },
                    SelectionEvent::VideosDiscovered(Ok(count)) => if pos >= before.folders@.len()
                        || count == 0 {
                        unchanged(before, after)
                    } else {
                        &&& after.folder_count == before.folder_count
                        &&& after.folders@ == before.folders@
                        &&& after.position == before.position
                        &&& after.file_count == count
                        &&& after.selected@ == before.selected@
                    },
                    SelectionEvent::VideosSelected(Some(v)) => if pos >= before.folders@.len()
                        || v@.len() == 0 || !valid_selection(v@, before.file_count) {
                        unchanged(before, after)
                    } else {
                        &&& after.folder_count == before.folder_count
                        &&& after.folders@ == before.folders@
                        &&& after.position == before.position + 1
                        &&& after.file_count == before.file_count
                        &&& after.selected@.drop_last() == before.selected@
                    },
                    SelectionEvent::FoldersAgain(Some(true)) => emptied(after, before.folder_count),
                    SelectionEvent::SourcesChecked(Ok(())) => if pos == before.folders@.len()
                        && pos > 0 {
                        emptied(after, before.folder_count)
                    } else {
                        unchanged(before, after)
                    },
                    _ => unchanged(before, after),
                }
            }),
    {
        match event {
            SelectionEvent::DestinationEntered(None) => SelectionAction::Finish(None),
            SelectionEvent::DestinationEntered(Some(raw)) => SelectionAction::ResolveDestination(
                raw,
            ),
            SelectionEvent::DestinationResolved(Err(error)) => SelectionAction::AskDestination(
                Some(DestinationNotice::Rejected(error)),
            ),
            SelectionEvent::DestinationResolved(Ok(exists)) => {
                if exists {
                    SelectionAction::DiscoverFolders { destination_exists: true }
                } else {
                    SelectionAction::ConfirmCreation
                }
            },
            SelectionEvent::CreationConfirmed(None) => SelectionAction::Finish(None),
            SelectionEvent::CreationConfirmed(Some(true)) => SelectionAction::DiscoverFolders {
                destination_exists: false,
            },
            SelectionEvent::CreationConfirmed(Some(false)) => SelectionAction::AskDestination(
                Some(DestinationNotice::NotCreated),
            ),
            SelectionEvent::FoldersDiscovered(Err(error)) => SelectionAction::Fail(
                AppError::Filesystem(error),
            ),
            SelectionEvent::FoldersDiscovered(Ok(count)) => {
                if count == 0 {
                    SelectionAction::AskOtherDestination
                } else {
                    self.reset_folders(count);
                    SelectionAction::SelectFolders { empty_notice: false }
                }
            },
            SelectionEvent::OtherDestination(Some(true)) => SelectionAction::AskDestination(None),
            SelectionEvent::OtherDestination(_) => SelectionAction::Finish(None),
            SelectionEvent::FoldersSelected(None) => SelectionAction::Finish(None),
            SelectionEvent::FoldersSelected(Some(indices)) => {
                if indices.len() == 0 {
                    return SelectionAction::SelectFolders { empty_notice: true };
                }
                match validate_selection_indices(&indices, self.folder_count, "source folder") {
                    Err(error) => SelectionAction::Fail(AppError::Ui(error)),
                    Ok(()) => {
                        let ghost chosen = indices@;
                        let folders = sorted_indices(indices);
                        proof {
                            assert forall|k: int| 0 <= k < folders@.len() implies #[trigger] folders@[k]
                                < self.folder_count by {
                                assert(chosen.contains(folders@[k]));
                            }
                        }
                        self.folders = folders;
                        self.position = 0;
                        self.selected = Vec::new();
                        SelectionAction::DiscoverVideos(self.folders[0])
                    },
                }
            },
            SelectionEvent::VideosDiscovered(Err(error)) => SelectionAction::Fail(
                AppError::Filesystem(error),
            ),
            SelectionEvent::VideosDiscovered(Ok(count)) => {
                if self.position >= self.folders.len() {
                    SelectionAction::Fail(
                        AppError::Ui(UiError::InvalidSelection { context: "source folder" }),
                    )
                } else if count == 0 {
                    SelectionAction::AskFoldersAgain(
                        FoldersAgainReason::NoVideos(self.folders[self.position]),
                    )
                } else {
                    self.file_count = count;
                    SelectionAction::SelectVideos {
                        folder: self.folders[self.position],
                        empty_notice: false,
                    }
                }
            },
            SelectionEvent::VideosSelected(None) => SelectionAction::Finish(None),
            SelectionEvent::VideosSelected(Some(indices)) => {
                if self.position >= self.folders.len() {
                    return SelectionAction::Fail(
                        AppError::Ui(UiError::InvalidSelection { context: "video file" }),
                    );
                }
                if indices.len() == 0 {
                    return SelectionAction::SelectVideos {
                        folder: self.folders[self.position],
                        empty_notice: true,
                    };
                }
                match validate_selection_indices(&indices, self.file_count, "video file") {
                    Err(error) => SelectionAction::Fail(AppError::Ui(error)),
                    Ok(()) => {
                        let ghost chosen = indices@;
                        let files = sorted_indices(indices);
                        proof {
                            assert forall|k: int| 0 <= k < files@.len() implies #[trigger] files@[k]
                                < self.file_count by {
                                assert(chosen.contains(files@[k]));
                            }
                        }
                        let folder = self.folders[self.position];
                        let ghost before = self.selected@;
                        self.selected.push(SelectedSource { folder, files });
                        self.position = self.position + 1;
                        proof {
                            assert(self.selected@.take(before.len() as int) =~= before);
                            assert forall|k: int| 0 <= k < self.position implies (
                            #[trigger] self.selected@[k]).folder == self.folders@[k]
                                && self.selected@[k].files@.len() > 0 && strictly_ascending(
                                self.selected@[k].files@,
                            ) by {
                                if k < before.len() {
                                    assert(self.selected@[k] == before[k]);
                                }
                            }
                        }
                        if self.position < self.folders.len() {
                            SelectionAction::DiscoverVideos(self.folders[self.position])
                        } else {
                            SelectionAction::CheckSources
                        }
                    },
                }
            },
            SelectionEvent::FoldersAgain(Some(true)) => {
                let count = self.folder_count;
                self.reset_folders(count);
                SelectionAction::SelectFolders { empty_notice: false }
            },
            SelectionEvent::FoldersAgain(_) => SelectionAction::Finish(None),
            SelectionEvent::SourcesChecked(Err(error)) => SelectionAction::AskFoldersAgain(
                FoldersAgainReason::Conflict(error),
            ),
            SelectionEvent::SourcesChecked(Ok(())) => {
                if self.position == self.folders.len() && self.position > 0 {
                    proof {
                        assert forall|i: int, j: int| 0 <= i < j < self.selected@.len() implies (
                        #[trigger] self.selected@[i]).folder < (#[trigger] self.selected@[j]).folder by {
                            assert(self.folders@[i] < self.folders@[j]);
                        }
                        assert forall|k: int| 0 <= k < self.selected@.len() implies (
                        #[trigger] self.selected@[k]).folder < self.folder_count by {
                            assert(self.folders@[k] < self.folder_count);
                        }
                    }
                    let mut selected: Vec<SelectedSource> = Vec::new();
                    std::mem::swap(&mut selected, &mut self.selected);
                    self.reset_folders(self.folder_count);
                    SelectionAction::Finish(Some(selected))
                } else {
                    SelectionAction::Fail(
                        AppError::Ui(UiError::InvalidSelection { context: "source folder" }),
                    )
                }
            },
        }
    }

    /// Forgets the chosen folders and videos, keeping the folder listing's size.
    fn reset_folders(&mut self, count: usize)
        ensures
            final(self).wf(),
            final(self).folder_count == count,
            final(self).folders@.len() == 0,
            final(self).selected@.len() == 0,
            final(self).position == 0,
            final(self).file_count == 0,
    {
        self.folder_count = count;
        self.folders = Vec::new();
        self.position = 0;
        self.file_count = 0;
        self.selected = Vec::new();
    }
}

} // verus!
