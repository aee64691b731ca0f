//! Cutting a part out of a clip: the order of the steps, and what is left of one that fails.

use crate::sidecars::FileAnswer;
use crate::text::concat2;
use vstd::prelude::*;

verus! {

/// How far a cut is.
#[derive(Debug, Clone, Copy, PartialEq, Eq, Structural)]
pub enum ClipExportPhase {
    NamingTemp,
    Trimming,
    RemovingTemp,
    NamingTarget,
    Publishing,
    ReadingMarkers,
    WritingMarkers,
    Inspecting,
    Finished,
}

/// What is to be done next about a cut.
#[derive(Debug, PartialEq, Eq)]
pub enum ClipExportAction {
    /// Choose a free name for the file that is written first. Answered by `Named`.
    NameTemp,
    /// Cut the part into this file, from one key frame to another. Answered by `Came`.
    Trim(String),
    /// Remove this file, if it is there. Answered by `Done`.
    Remove(String),
    /// Choose a free name for the part by where it was cut. Answered by `Named`.
    NameTarget,
    /// Rename a file. Answered by `Came`.
    Publish { tmp_path: String, target: String },
    /// Read which of the markers of the clip belong to the part, where they are wanted.
    /// Answered by `Found`: whether there are any.
    ReadMarkers { wanted: bool },
    /// Write those markers beside this file. Answered by `Came`.
    WriteMarkers(String),
    /// Read the size and the age of this file. Answered by `Came`.
    Inspect(String),
    /// There is nothing left to do.
    Stop,
}

/// A part that is being cut out of a clip.
#[derive(Debug, PartialEq, Eq)]
pub struct ClipExport {
    pub phase: ClipExportPhase,
    pub include_markers: bool,
    pub tmp_path: String,
    pub target: String,
    pub failure: Option<String>,
}

/// The action of a phase.
pub open spec fn export_action(export: ClipExport) -> ClipExportAction {
    match export.phase {
        ClipExportPhase::NamingTemp => ClipExportAction::NameTemp,
        ClipExportPhase::Trimming => ClipExportAction::Trim(export.tmp_path),
        ClipExportPhase::RemovingTemp => ClipExportAction::Remove(export.tmp_path),
        ClipExportPhase::NamingTarget => ClipExportAction::NameTarget,
        ClipExportPhase::Publishing => ClipExportAction::Publish {
            tmp_path: export.tmp_path,
            target: export.target,
        },
        ClipExportPhase::ReadingMarkers => ClipExportAction::ReadMarkers {
            wanted: export.include_markers,
        },
        ClipExportPhase::WritingMarkers => ClipExportAction::WriteMarkers(export.target),
        ClipExportPhase::Inspecting => ClipExportAction::Inspect(export.target),
        ClipExportPhase::Finished => ClipExportAction::Stop,
    }
}

/// Whether an answer is one to the action of a phase. Markers that are not wanted are not
/// found.
pub open spec fn export_answer_fits(export: ClipExport, answer: FileAnswer) -> bool {
    match export.phase {
        ClipExportPhase::NamingTemp | ClipExportPhase::NamingTarget => answer is Named,
        ClipExportPhase::RemovingTemp => answer is Done,
        ClipExportPhase::ReadingMarkers => answer matches FileAnswer::Found(found) && (found
            ==> export.include_markers),
        ClipExportPhase::Finished => false,
        _ => answer is Came,
    }
}

/// The phase that follows one whose action came off.
pub open spec fn next_export_phase(phase: ClipExportPhase) -> ClipExportPhase {
    match phase {
        ClipExportPhase::Trimming => ClipExportPhase::NamingTarget,
        ClipExportPhase::Publishing => ClipExportPhase::ReadingMarkers,
        ClipExportPhase::WritingMarkers => ClipExportPhase::Inspecting,
        _ => ClipExportPhase::Finished,
    }
}

/// The error that an action leaves behind.
pub open spec fn export_error(phase: ClipExportPhase, error: Seq<char>) -> Seq<char> {
    if phase is Inspecting {
        "read exported clip metadata: "@ + error
    } else {
        error
    }
}

/// A cut after an answer. Only a cut that fails to be written removes its file.
pub open spec fn export_after(before: ClipExport, answer: FileAnswer, after: ClipExport) -> bool {
    match answer {
        FileAnswer::Named(Ok(name)) => after == if before.phase is NamingTemp {
            ClipExport { phase: ClipExportPhase::Trimming, tmp_path: name, ..before }
        } else {
            ClipExport { phase: ClipExportPhase::Publishing, target: name, ..before }
        },
        FileAnswer::Named(Err(error)) => after == (ClipExport {
            phase: ClipExportPhase::Finished,
            failure: Some(error),
            ..before
        }),
        FileAnswer::Came(Err(error)) => {
            &&& after.failure matches Some(text) && text@ == export_error(before.phase, error@)
            &&& after == (ClipExport {
                phase: if before.phase is Trimming {
                    ClipExportPhase::RemovingTemp
                } else {
                    ClipExportPhase::Finished
                },
                failure: after.failure,
                ..before
            })
        },
        FileAnswer::Came(Ok(_)) => after == (ClipExport {
            phase: next_export_phase(before.phase),
            ..before
        }),
        FileAnswer::Found(found) => after == (ClipExport {
            phase: if found {
                ClipExportPhase::WritingMarkers
            } else {
                ClipExportPhase::Inspecting
            },
            ..before
        }),
        FileAnswer::Done => after == (ClipExport { phase: ClipExportPhase::Finished, ..before }),
    }
}

impl ClipExport {
    pub fn begin(include_markers: bool) -> (export: ClipExport)
        ensures
            export.phase == ClipExportPhase::NamingTemp,
            export.include_markers == include_markers,
            export.failure is None,
    {
        ClipExport {
            phase: ClipExportPhase::NamingTemp,
            include_markers,
            tmp_path: String::new(),
            target: String::new(),
            failure: None,
        }
    }

    /// What is to be done next.
    pub fn action(&self) -> (action: ClipExportAction)
        ensures
            action == export_action(*self),
    {
        match self.phase {
            ClipExportPhase::NamingTemp => ClipExportAction::NameTemp,
            ClipExportPhase::Trimming => ClipExportAction::Trim(self.tmp_path.clone()),
            ClipExportPhase::RemovingTemp => ClipExportAction::Remove(self.tmp_path.clone()),
            ClipExportPhase::NamingTarget => ClipExportAction::NameTarget,
            ClipExportPhase::Publishing => ClipExportAction::Publish {
                tmp_path: self.tmp_path.clone(),
                target: self.target.clone(),
            },
            ClipExportPhase::ReadingMarkers => ClipExportAction::ReadMarkers {
                wanted: self.include_markers,
            },
            ClipExportPhase::WritingMarkers => ClipExportAction::WriteMarkers(self.target.clone()),
            ClipExportPhase::Inspecting => ClipExportAction::Inspect(self.target.clone()),
            ClipExportPhase::Finished => ClipExportAction::Stop,
        }
    }

    /// Takes the answer to the action that was due.
    pub fn answered(&mut self, answer: FileAnswer)
        requires
            export_answer_fits(*old(self), answer),
        ensures
            export_after(*old(self), answer, *final(self)),
    {
        match answer {
            FileAnswer::Named(Ok(name)) => {
                if let ClipExportPhase::NamingTemp = self.phase {
                    self.tmp_path = name;
                    self.phase = ClipExportPhase::Trimming;
                } else {
                    self.target = name;
                    self.phase = ClipExportPhase::Publishing;
                }
            },
            FileAnswer::Named(Err(error)) => {
                self.failure = Some(error);
                self.phase = ClipExportPhase::Finished;
            },
            FileAnswer::Came(Err(error)) => {
                self.failure = Some(
                    if let ClipExportPhase::Inspecting = self.phase {
                        concat2("read exported clip metadata: ", error.as_str())
                    } else {
                        error
                    },
                );
                self.phase = if let ClipExportPhase::Trimming = self.phase {
                    ClipExportPhase::RemovingTemp
                } else {
                    ClipExportPhase::Finished
                };
            },
            FileAnswer::Came(Ok(_)) => {
                self.phase = match self.phase {
                    ClipExportPhase::Trimming => ClipExportPhase::NamingTarget,
                    ClipExportPhase::Publishing => ClipExportPhase::ReadingMarkers,
                    ClipExportPhase::WritingMarkers => ClipExportPhase::Inspecting,
                    _ => ClipExportPhase::Finished,
                };
            },
            FileAnswer::Found(found) => {
                self.phase = if found {
                    ClipExportPhase::WritingMarkers
                } else {
                    ClipExportPhase::Inspecting
                };
            },
            FileAnswer::Done => {
                self.phase = ClipExportPhase::Finished;
            },
        }
    }

    /// What came of it: the file of the part.
    pub fn result(self) -> (res: Result<String, String>)
        requires
            self.phase is Finished,
        ensures
            match self.failure {
                None => res == Ok::<String, String>(self.target),
                Some(error) => res == Err::<String, String>(error),
            },
    {
        match self.failure {
            None => Ok(self.target),
            Some(error) => Err(error),
        }
    }
}

/// The place of a phase in the order of the phases.
pub open spec fn export_rank(phase: ClipExportPhase) -> int {
    match phase {
        ClipExportPhase::NamingTemp => 0,
        ClipExportPhase::Trimming => 1,
        ClipExportPhase::RemovingTemp => 2,
        ClipExportPhase::NamingTarget => 2,
        ClipExportPhase::Publishing => 3,
        ClipExportPhase::ReadingMarkers => 4,
        ClipExportPhase::WritingMarkers => 5,
        ClipExportPhase::Inspecting => 6,
        ClipExportPhase::Finished => 7,
    }
}

/// Every answer takes a cut further.
pub proof fn law_export_ends(before: ClipExport, answer: FileAnswer, after: ClipExport)
    requires
        export_answer_fits(before, answer),
        export_after(before, answer, after),
    ensures
        export_rank(after.phase) > export_rank(before.phase),
{
}

/// A part appears under its name only after all of it was written, and the file of a cut that
/// failed is removed.
pub proof fn law_exports_appear_whole(before: ClipExport, answer: FileAnswer, after: ClipExport)
    requires
        export_answer_fits(before, answer),
        export_after(before, answer, after),
    ensures
        after.phase is NamingTarget ==> before.phase is Trimming && answer matches FileAnswer::Came(
            Ok(_),
        ),
        after.phase is Publishing ==> before.phase is NamingTarget,
        before.phase is Trimming && (answer matches FileAnswer::Came(Err(_))) ==> export_action(
            after,
        ) == ClipExportAction::Remove(before.tmp_path),
{
}

/// No marker file is written where the markers are not wanted.
pub proof fn law_suppressed_markers_are_not_written(
    before: ClipExport,
    answer: FileAnswer,
    after: ClipExport,
)
    requires
        !before.include_markers,
        before.phase !is WritingMarkers,
        export_answer_fits(before, answer),
        export_after(before, answer, after),
    ensures
        !after.include_markers,
        after.phase !is WritingMarkers,
{
}

/// A clip that is cut without a failure is written to the temporary file, gets its name and takes
/// it, gets the markers that were wanted and found, and is then looked at; nothing else is done.
pub proof fn law_cut_clip_is_finished(
    start: ClipExport,
    trimming: ClipExport,
    naming: ClipExport,
    publishing: ClipExport,
    reading: ClipExport,
    found: bool,
    marked: ClipExport,
    written: ClipExport,
    end: ClipExport,
    tmp_path: String,
    target: String,
)
    requires
        start.phase is NamingTemp,
        start.failure is None,
        export_after(start, FileAnswer::Named(Ok(tmp_path)), trimming),
        export_after(trimming, FileAnswer::Came(Ok(())), naming),
        export_after(naming, FileAnswer::Named(Ok(target)), publishing),
        export_after(publishing, FileAnswer::Came(Ok(())), reading),
        export_after(reading, FileAnswer::Found(found), marked),
        found ==> export_after(marked, FileAnswer::Came(Ok(())), written),
        !found ==> written == marked,
        export_after(written, FileAnswer::Came(Ok(())), end),
    ensures
        export_action(start) is NameTemp,
        export_action(trimming) == ClipExportAction::Trim(tmp_path),
        export_action(naming) is NameTarget,
        export_action(publishing) == (ClipExportAction::Publish { tmp_path, target }),
        export_action(reading) == (ClipExportAction::ReadMarkers { wanted: start.include_markers }),
        found ==> export_action(marked) == ClipExportAction::WriteMarkers(target),
        export_action(written) == ClipExportAction::Inspect(target),
        export_action(end) is Stop,
        end.failure is None,
        end.target == target,
{
}

/// A failure ends a cut with its error: what was written is removed where the cut itself failed,
/// and no step follows where another did.
pub proof fn law_failed_cut_ends(before: ClipExport, error: String, after: ClipExport)
    requires
        export_answer_fits(before, FileAnswer::Came(Err(error))) || export_answer_fits(
            before,
            FileAnswer::Named(Err(error)),
        ),
        export_answer_fits(before, FileAnswer::Came(Err(error))) ==> export_after(
            before,
            FileAnswer::Came(Err(error)),
            after,
        ),
        export_answer_fits(before, FileAnswer::Named(Err(error))) ==> export_after(
            before,
            FileAnswer::Named(Err(error)),
            after,
        ),
    ensures
        before.phase is Trimming ==> export_action(after) == ClipExportAction::Remove(
            before.tmp_path,
        ),
        before.phase !is Trimming ==> export_action(after) is Stop,
        after.failure is Some,
        before.phase is Inspecting ==> after.failure->0@ == "read exported clip metadata: "@ + error@,
        before.phase !is Inspecting ==> after.failure->0@ == error@,
{
}

} // verus!
