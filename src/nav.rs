//! The navigation state machine: the current directory, its listing, the
//! selection, and the transitions that commands and their outcomes cause.
//! Filesystem work happens outside: a command yields an `Effect`, and the
//! caller hands its outcome back.

use vstd::prelude::*;
use vstd::string::*;
use crate::colors::Colors;
use crate::errors::{DeleteError, ErrorMessage, ScanError};
use crate::ftype::{FileEntry, FileType};

verus! {

/// How a selected entry is deleted.
#[derive(Debug, Clone, Copy, PartialEq, Eq, Structural)]
pub enum DeleteMode {
    /// Removed for good.
    Permanent,
    /// Moved into the holding area and recorded in the ledger.
    Safe,
}

/// What the user asked for.
#[derive(Debug, Clone, PartialEq, Eq)]
pub enum Command {
    Next,
    Prev,
    First,
    Last,
    /// Enter the selected directory.
    Enter,
    /// Go to the given home directory.
    GoHome(String),
    /// Go to the filesystem root.
    GoRoot,
    ToggleHidden,
    TogglePreview,
    ToggleBytes,
    Delete(DeleteMode),
    ClearError,
    ReloadColors,
    Exit,
}

/// What the caller is to do after a transition, and which method takes
/// its outcome.
#[derive(Debug, Clone, PartialEq, Eq)]
pub enum Effect {
    Nothing,
    /// Scan `dir`; hand the outcome to `F::entered`.
    Enter { dir: String, show_hidden: bool },
    /// Scan the current directory again; hand the outcome to `F::rescanned`.
    Rescan { dir: String, show_hidden: bool },
    /// Delete the object at `path`; hand the outcome to `F::removed`.
    Remove { path: String, mode: DeleteMode },
    /// Load the colour scheme; hand the outcome to `F::colors_loaded`.
    LoadColors,
}

/// The state of the browser.
#[derive(Debug)]
pub struct F {
    pub colors: Colors,
    pub show_hidden: bool,
    pub show_preview: bool,
    pub show_bytes: bool,
    pub error_text: Option<ErrorMessage>,
    pub current_dir: String,
    /// The listing of `current_dir` from its most recent successful scan.
    pub rows: Vec<FileEntry>,
    /// The selected row: none exactly when there are no rows.
    pub idx: Option<usize>,
    pub is_exit: bool,
}

/// The selection right after a scan that gave `len` rows.
pub open spec fn first_index(len: nat) -> Option<usize> {
    if len > 0 {
        Some(0usize)
    } else {
        None
    }
}

/// One step down; blocked at the last row.
pub open spec fn next_index(idx: Option<usize>, len: nat) -> Option<usize> {
    match idx {
        Some(i) => if i + 1 < len {
            Some((i + 1) as usize)
        } else {
            Some(i)
        },
        None => None,
    }
}

/// One step up; blocked at the first row.
pub open spec fn prev_index(idx: Option<usize>) -> Option<usize> {
    match idx {
        Some(i) => if i > 0 {
            Some((i - 1) as usize)
        } else {
            Some(i)
        },
        None => None,
    }
}

/// The last row, where there is one.
pub open spec fn last_index(len: nat) -> Option<usize> {
    if len > 0 {
        Some((len - 1) as usize)
    } else {
        None
    }
}

/// `n` steps down from `idx`.
pub open spec fn next_n(idx: Option<usize>, len: nat, n: nat) -> Option<usize>
    decreases n,
{
    if n == 0 {
        idx
    } else {
        next_index(next_n(idx, len, (n - 1) as nat), len)
    }
}

impl F {
    /// The selection lies within the rows, and is absent only without rows.
    pub open spec fn wf(self) -> bool {
        &&& self.rows@.len() <= usize::MAX
        &&& (self.idx is None <==> self.rows@.len() == 0)
        &&& (self.idx matches Some(i) ==> i < self.rows@.len())
    }

    /// The selected entry.
    pub open spec fn spec_selected(self) -> Option<FileEntry> {
        match self.idx {
            Some(i) => if i < self.rows@.len() {
                Some(self.rows@[i as int])
            } else {
                None
            },
            None => None,
        }
    }
}

/// `post` follows from `pre` and command `cmd`, and `eff` is what the caller is to do.
pub open spec fn stepped(pre: F, cmd: Command, post: F, eff: Effect) -> bool {
    match cmd {
        Command::Next => post == (F { idx: next_index(pre.idx, pre.rows@.len()), ..pre })
            && eff == Effect::Nothing,
        Command::Prev => post == (F { idx: prev_index(pre.idx), ..pre }) && eff == Effect::Nothing,
        Command::First => post == (F { idx: first_index(pre.rows@.len()), ..pre }) && eff
            == Effect::Nothing,
        Command::Last => post == (F { idx: last_index(pre.rows@.len()), ..pre }) && eff
            == Effect::Nothing,
        Command::Enter => post == (F { error_text: None, ..pre }) && match pre.spec_selected() {
            Some(e) => if e.file_type.spec_is_dir() {
                eff == (Effect::Enter { dir: e.path, show_hidden: pre.show_hidden })
            } else {
                eff == Effect::Nothing
            },
            None => eff == Effect::Nothing,
        },
        Command::GoHome(home) => post == pre && eff == (Effect::Enter {
            dir: home,
            show_hidden: pre.show_hidden,
        }),
        Command::GoRoot => post == pre && (eff matches Effect::Enter { dir, show_hidden } && dir@
            == seq!['/'] && show_hidden == pre.show_hidden),
        Command::ToggleHidden => post == (F { show_hidden: !pre.show_hidden, ..pre }) && eff == (
        Effect::Rescan { dir: pre.current_dir, show_hidden: !pre.show_hidden }),
        Command::TogglePreview => post == (F {
            show_preview: !pre.show_preview,
            show_bytes: false,
            ..pre
        }) && eff == Effect::Nothing,
        Command::ToggleBytes => post == (F {
            show_bytes: !pre.show_bytes,
            show_preview: false,
            ..pre
        }) && eff == Effect::Nothing,
        Command::Delete(mode) => match pre.spec_selected() {
            None => post == (F { error_text: Some(ErrorMessage::NothingSelected), ..pre }) && eff
                == Effect::Nothing,
            Some(e) => if e.file_type == FileType::ParentDirectory {
                post == (F { error_text: Some(ErrorMessage::ParentNotRemovable), ..pre }) && eff
                    == Effect::Nothing
            } else {
                post == pre && eff == (Effect::Remove { path: e.path, mode })
            },
        },
        Command::ClearError => post == (F { error_text: None, ..pre }) && eff == Effect::Nothing,
        Command::ReloadColors => post == pre && eff == Effect::LoadColors,
        Command::Exit => post == (F { is_exit: true, ..pre }) && eff == Effect::Nothing,
    }
}

/// `post` is `pre` after the scan of `dir` for an entry attempt ended with `outcome`:
/// on success the listing of `dir` replaces the old one; on failure only the
/// error is set, and the current directory stays where it was.
pub open spec fn entered_spec(
    pre: F,
    dir: String,
    outcome: Result<Seq<FileEntry>, ScanError>,
    post: F,
) -> bool {
    match outcome {
        Ok(rows) => {
            &&& post.current_dir == dir
            &&& post.rows@ == rows
            &&& post.idx == first_index(rows.len())
            &&& post.error_text is None
            &&& post.colors == pre.colors
            &&& post.show_hidden == pre.show_hidden
            &&& post.show_preview == pre.show_preview
            &&& post.show_bytes == pre.show_bytes
            &&& post.is_exit == pre.is_exit
        },
        Err(e) => post == (F { error_text: Some(ErrorMessage::Scan(e)), ..pre }),
    }
}

/// `post` is `pre` after a rescan of its current directory ended with `outcome`.
pub open spec fn rescanned_spec(pre: F, outcome: Result<Seq<FileEntry>, ScanError>, post: F) -> bool {
    entered_spec(pre, pre.current_dir, outcome, post)
}

/// The view of a scan outcome.
pub open spec fn outcome_view(outcome: Result<Vec<FileEntry>, ScanError>) -> Result<
    Seq<FileEntry>,
    ScanError,
> {
    match outcome {
        Ok(v) => Ok(v@),
        Err(e) => Err(e),
    }
}

impl F {
    /// The browser on directory `pth` with its first listing `rows`.
    pub fn new(pth: String, rows: Vec<FileEntry>, colors: Colors) -> (r: F)
        ensures
            r.wf(),
            r.current_dir == pth,
            r.rows@ == rows@,
            r.idx == first_index(rows@.len()),
            r.colors == colors,
            r.error_text is None,
            !r.show_hidden,
            r.show_preview,
            !r.show_bytes,
            !r.is_exit,
    {
        let idx = if rows.len() > 0 {
            Some(0usize)
        } else {
            None
        };
        F {
            colors,
            show_hidden: false,
            show_preview: true,
            show_bytes: false,
            error_text: None,
            current_dir: pth,
            rows,
            idx,
            is_exit: false,
        }
    }

    /// The selected entry.
    pub fn selected(&self) -> (r: Option<&FileEntry>)
        requires
            self.wf(),
        ensures
            match r {
                Some(e) => self.spec_selected() == Some(*e),
                None => self.spec_selected() is None,
            },
    {
        match self.idx {
            Some(i) => Some(&self.rows[i]),
            None => None,
        }
    }

    /// Applies a command and tells what is to be done next.
    pub fn handle_key_event(&mut self, cmd: Command) -> (r: Effect)
        requires
            old(self).wf(),
        ensures
            final(self).wf(),
            stepped(*old(self), cmd, *final(self), r),
    {
        match cmd {
            Command::Next => {
                if let Some(i) = self.idx {
                    if i + 1 < self.rows.len() {
                        self.idx = Some(i + 1);
                    }
                }
                Effect::Nothing
            },
            Command::Prev => {
                if let Some(i) = self.idx {
                    if i > 0 {
                        self.idx = Some(i - 1);
                    }
                }
                Effect::Nothing
            },
            Command::First => {
                if self.rows.len() > 0 {
                    self.idx = Some(0);
                }
                Effect::Nothing
            },
            Command::Last => {
                if self.rows.len() > 0 {
                    self.idx = Some(self.rows.len() - 1);
                }
                Effect::Nothing
            },
            Command::Enter => {
                self.error_text = None;
                match self.idx {
                    Some(i) => {
                        let e = &self.rows[i];
                        if e.file_type.is_dir() {
                            Effect::Enter { dir: e.path.clone(), show_hidden: self.show_hidden }
                        } else {
                            Effect::Nothing
                        }
                    },
                    None => Effect::Nothing,
                }
            },
            Command::GoHome(home) => Effect::Enter { dir: home, show_hidden: self.show_hidden },
            Command::GoRoot => {
                proof {
                    reveal_strlit("/");
                    assert("/"@ =~= seq!['/']);
                }
                Effect::Enter { dir: String::from_str("/"), show_hidden: self.show_hidden }
            },
            Command::ToggleHidden => {
                self.show_hidden = !self.show_hidden;
                Effect::Rescan { dir: self.current_dir.clone(), show_hidden: self.show_hidden }
            },
            Command::TogglePreview => {
                self.show_preview = !self.show_preview;
                self.show_bytes = false;
                Effect::Nothing
            },
            Command::ToggleBytes => {
                self.show_bytes = !self.show_bytes;
                self.show_preview = false;
                Effect::Nothing
            },
            Command::Delete(mode) => match self.idx {
                None => {
                    self.error_text = Some(ErrorMessage::NothingSelected);
                    Effect::Nothing
                },
                Some(i) => {
                    let e = &self.rows[i];
                    if e.file_type == FileType::ParentDirectory {
                        self.error_text = Some(ErrorMessage::ParentNotRemovable);
                        Effect::Nothing
                    } else {
                        Effect::Remove { path: e.path.clone(), mode }
                    }
                },
            },
            Command::ClearError => {
                self.error_text = None;
                Effect::Nothing
            },
            Command::ReloadColors => Effect::LoadColors,
            Command::Exit => {
                self.is_exit = true;
                Effect::Nothing
            },
        }
    }

    /// Takes the outcome of the scan that an `Effect::Enter` asked for.
    pub fn entered(&mut self, dir: String, outcome: Result<Vec<FileEntry>, ScanError>)
        requires
            old(self).wf(),
        ensures
            final(self).wf(),
            entered_spec(*old(self), dir, outcome_view(outcome), *final(self)),
    {
        match outcome {
            Ok(rows) => {
                self.current_dir = dir;
                self.idx = if rows.len() > 0 {
                    Some(0)
                } else {
                    None
                };
                self.rows = rows;
                self.error_text = None;
            },
            Err(e) => {
                self.error_text = Some(ErrorMessage::Scan(e));
            },
        }
    }

    /// Takes the outcome of the scan that an `Effect::Rescan` asked for.
    pub fn rescanned(&mut self, outcome: Result<Vec<FileEntry>, ScanError>)
        requires
            old(self).wf(),
        ensures
            final(self).wf(),
            rescanned_spec(*old(self), outcome_view(outcome), *final(self)),
    {
        let dir = self.current_dir.clone();
        self.entered(dir, outcome);
    }

    /// Takes the outcome of the delete that an `Effect::Remove` asked for:
    /// only a delete that succeeded leads to a rescan.
    pub fn removed(&mut self, outcome: Result<(), DeleteError>) -> (r: Effect)
        requires
            old(self).wf(),
        ensures
            final(self).wf(),
            match outcome {
                Ok(()) => *final(self) == *old(self) && r == (Effect::Rescan {
                    dir: old(self).current_dir,
                    show_hidden: old(self).show_hidden,
                }),
                Err(e) => *final(self) == (F {
                    error_text: Some(ErrorMessage::Delete(e)),
                    ..*old(self)
                }) && r == Effect::Nothing,
            },
    {
        match outcome {
            Ok(()) => Effect::Rescan { dir: self.current_dir.clone(), show_hidden: self.show_hidden },
            Err(e) => {
                self.error_text = Some(ErrorMessage::Delete(e));
                Effect::Nothing
            },
        }
    }

    /// Takes the outcome of loading the colour scheme.
    pub fn colors_loaded(&mut self, outcome: Result<Colors, String>)
        requires
            old(self).wf(),
        ensures
            final(self).wf(),
            match outcome {
                Ok(c) => *final(self) == (F { colors: c, ..*old(self) }),
                Err(m) => *final(self) == (F {
                    error_text: Some(ErrorMessage::Colors(m)),
                    ..*old(self)
                }),
            },
    {
        match outcome {
            Ok(c) => {
                self.colors = c;
            },
            Err(m) => {
                self.error_text = Some(ErrorMessage::Colors(m));
            },
        }
    }
}

proof fn lemma_next_n_steps(len: nat, k: nat)
    requires
        k < len <= usize::MAX,
    ensures
        next_n(Some(0usize), len, k) == Some(k as usize),
    decreases k,
{
    if k > 0 {
        lemma_next_n_steps(len, (k - 1) as nat);
    }
}

/// From the first of `len` rows, `len - 1` steps down reach the last row,
/// and a further step down leaves the selection there.
pub proof fn lemma_next_reaches_last(len: nat)
    requires
        0 < len <= usize::MAX,
    ensures
        next_n(Some(0usize), len, (len - 1) as nat) == Some((len - 1) as usize),
        next_index(Some((len - 1) as usize), len) == Some((len - 1) as usize),
{
    lemma_next_n_steps(len, (len - 1) as nat);
}

/// Entering a directory whose scan then fails leaves the current directory,
/// the listing and the selection as they were before the attempt, and
/// reports the failure.
pub proof fn lemma_failed_enter_rolls_back(f0: F, f1: F, eff: Effect, f2: F, e: ScanError)
    requires
        stepped(f0, Command::Enter, f1, eff),
        eff matches Effect::Enter { dir, .. } && entered_spec(f1, dir, Err(e), f2),
    ensures
        f2.current_dir == f0.current_dir,
        f2.rows == f0.rows,
        f2.idx == f0.idx,
        f2.show_hidden == f0.show_hidden,
        f2.error_text == Some(ErrorMessage::Scan(e)),
{
}

/// A delete of the parent-directory marker, or with nothing selected, is
/// refused with a message and asks for no filesystem work.
pub proof fn lemma_delete_guard(f0: F, mode: DeleteMode, f1: F, eff: Effect)
    requires
        stepped(f0, Command::Delete(mode), f1, eff),
        f0.spec_selected() matches Some(e) ==> e.file_type == FileType::ParentDirectory,
    ensures
        eff == Effect::Nothing,
        f1.error_text is Some,
        f1.rows == f0.rows,
        f1.current_dir == f0.current_dir,
{
}

} // verus!
