//! The pipeline itself: one run walks Discovery, Merge, Report and
//! Cleanup strictly in that order. The machine here hands out each
//! stage's work only from the right state, and the first failure moves
//! it to a state from which nothing further is handed out — in
//! particular, a merge or report failure skips cleanup entirely, leaving
//! the fragments and the database on disk for inspection.

use vstd::prelude::*;

use crate::cleanup::{cleanup_message, spec_cleanup_message, spec_deletion_set, CleanupRun};
use crate::config::Config;
use crate::errors::PipelineError;
use crate::invocation::{
    merge_invocation, merge_status_message, spec_merge_args, spec_merge_message, ToolInvocation,
};
use crate::report::{
    report_plan, spec_report_args, spec_report_message, spec_resolved_output_path, ReportPlan,
};

verus! {

/// Where one run stands. Each stage is entered exactly once, in order,
/// and `Failed` has no way out.
pub enum Stage {
    /// Waiting for the working directory to be scanned.
    Scanning,
    /// The merge invocation is out; waiting for its outcome.
    Merging,
    /// The report invocation is out; waiting for its outcome and, for
    /// the captured export, for the output file to be written.
    Reporting,
    /// The cleanup decision is out; waiting for the deletions.
    CleaningUp,
    /// The run finished successfully.
    Done,
    /// The run failed; no further work is handed out.
    Failed,
}

/// What cleanup asks of the caller: walk the deletion set, or, when
/// deletion is suppressed, only print the announcement — no file is
/// handed out for deletion at all.
pub enum CleanupDecision {
    /// Delete the run's files, in order, stopping at the first failure.
    Delete { run: CleanupRun, message: String },
    /// Deletion is suppressed; nothing touches the filesystem.
    Announce { message: String },
}

/// One run of the pipeline. The unverified caller performs the
/// filesystem and process work each method hands out and reports the
/// outcome back; every decision in between is made here.
pub struct Pipeline {
    /// The configuration, fixed at start.
    pub config: Config,
    /// The fragments found by discovery, in directory order; filled
    /// when the scan is reported.
    pub fragments: Vec<String>,
    /// Where the run stands.
    pub stage: Stage,
}

/// Whether one directory entry's extension marks it as a raw profile
/// fragment. The scan keeps exactly the regular files whose extension,
/// as the path reports it, is `profraw`.
pub fn is_fragment_extension(ext: &Option<String>) -> (r: bool)
    ensures
        r <==> (ext matches Some(e) && e@ == "profraw"@),
{
    match ext {
        Some(e) => {
            let pat = "profraw".to_owned();
            *e == pat
        },
        None => false,
    }
}

impl Pipeline {
    /// Starts a run. An empty binaries list is refused here, before
    /// anything — the scan included — happens.
    pub fn new(config: Config) -> (r: Result<Pipeline, PipelineError>)
        ensures
            config.binaries@.len() == 0 <==> r matches Err(PipelineError::Usage),
            config.binaries@.len() > 0 <==> r is Ok,
            r matches Ok(p) ==> ({
                &&& p.stage is Scanning
                &&& p.config == config
            }),
    {
        if config.binaries.len() == 0 {
            Err(PipelineError::Usage)
        } else {
            Ok(Pipeline { config, fragments: Vec::new(), stage: Stage::Scanning })
        }
    }

    /// Takes the scan's result: the paths of the regular `.profraw`
    /// files in the working directory, in directory order. With none,
    /// the run fails at once and no external process is ever handed
    /// out; otherwise the merge invocation and its status line come
    /// back.
    pub fn scanned(&mut self, fragments: Vec<String>) -> (r: Result<
        (ToolInvocation, String),
        PipelineError,
    >)
        requires
            old(self).stage is Scanning,
        ensures
            final(self).config == old(self).config,
            fragments@.len() == 0 ==> ({
                &&& final(self).stage is Failed
                &&& r matches Err(PipelineError::NoInputFiles)
            }),
            fragments@.len() > 0 ==> ({
                &&& final(self).stage is Merging
                &&& final(self).fragments == fragments
                &&& r matches Ok((inv, message))
                &&& inv.tool@ == "profdata"@
                &&& inv.args.deep_view() == spec_merge_args(fragments.deep_view())
                &&& !inv.capture
                &&& message@ == spec_merge_message(fragments.deep_view())
            }),
    {
        if fragments.len() == 0 {
            self.stage = Stage::Failed;
            Err(PipelineError::NoInputFiles)
        } else {
            let inv = merge_invocation(&fragments);
            let message = merge_status_message(&fragments);
            self.fragments = fragments;
            self.stage = Stage::Merging;
            Ok((inv, message))
        }
    }

    /// Takes the merge tool's outcome. A failure ends the run — the
    /// report stage never starts before a successful merge. On success
    /// the whole report stage comes back: the invocation, the resolved
    /// output location, the capture decision and the status line.
    pub fn merge_finished(&mut self, outcome: Result<(), PipelineError>) -> (r: Result<
        ReportPlan,
        PipelineError,
    >)
        requires
            old(self).stage is Merging,
        ensures
            final(self).config == old(self).config,
            final(self).fragments == old(self).fragments,
            outcome matches Err(e) ==> ({
                &&& final(self).stage is Failed
                &&& r matches Err(e2)
                &&& e2 == e
            }),
            outcome is Ok ==> ({
                &&& final(self).stage is Reporting
                &&& r matches Ok(plan)
                &&& plan.invocation.tool@ == "cov"@
                &&& plan.output_path.deep_view() == spec_resolved_output_path(
                    old(self).config.output_format,
                    old(self).config.output_path.deep_view(),
                )
                &&& plan.invocation.args.deep_view() == spec_report_args(
                    old(self).config.output_format,
                    old(self).config.ignore_filename_regex.deep_view(),
                    old(self).config.binaries.deep_view(),
                    plan.output_path.deep_view(),
                )
                &&& plan.invocation.capture == (old(self).config.output_format is Lcov)
                &&& plan.message@ == spec_report_message(
                    old(self).config.output_format,
                    plan.output_path.deep_view(),
                )
            }),
    {
        match outcome {
            Err(e) => {
                self.stage = Stage::Failed;
                Err(e)
            },
            Ok(()) => {
                let plan = report_plan(&self.config);
                self.stage = Stage::Reporting;
                Ok(plan)
            },
        }
    }

    /// Takes the report stage's outcome — the tool's exit and, for the
    /// captured export, the writing of the output file. A failure ends
    /// the run with cleanup skipped entirely. On success the cleanup
    /// decision comes back: the deletion set to walk, or only an
    /// announcement when deletion is suppressed.
    pub fn report_finished(&mut self, outcome: Result<(), PipelineError>) -> (r: Result<
        CleanupDecision,
        PipelineError,
    >)
        requires
            old(self).stage is Reporting,
        ensures
            final(self).config == old(self).config,
            outcome matches Err(e) ==> ({
                &&& final(self).stage is Failed
                &&& r matches Err(e2)
                &&& e2 == e
            }),
            outcome is Ok ==> ({
                &&& final(self).stage is CleaningUp
                &&& r matches Ok(decision)
                &&& old(self).config.no_delete ==> ({
                    &&& decision matches CleanupDecision::Announce { message }
                    &&& message@ == spec_cleanup_message(
                        true,
                        spec_deletion_set(old(self).fragments.deep_view()),
                    )
                })
                &&& !old(self).config.no_delete ==> ({
                    &&& decision matches CleanupDecision::Delete { run, message }
                    &&& run.wf()
                    &&& run.next == 0
                    &&& run.spec_files() == spec_deletion_set(old(self).fragments.deep_view())
                    &&& message@ == spec_cleanup_message(
                        false,
                        spec_deletion_set(old(self).fragments.deep_view()),
                    )
                })
            }),
    {
        match outcome {
            Err(e) => {
                self.stage = Stage::Failed;
                Err(e)
            },
            Ok(()) => {
                let mut fragments: Vec<String> = Vec::new();
                core::mem::swap(&mut fragments, &mut self.fragments);
                let run = CleanupRun::new(fragments);
                let message = cleanup_message(self.config.no_delete, &run.files);
                self.stage = Stage::CleaningUp;
                if self.config.no_delete {
                    Ok(CleanupDecision::Announce { message })
                } else {
                    Ok(CleanupDecision::Delete { run, message })
                }
            },
        }
    }

    /// Takes cleanup's outcome and ends the run.
    pub fn cleanup_finished(&mut self, outcome: Result<(), PipelineError>) -> (r: Result<
        (),
        PipelineError,
    >)
        requires
            old(self).stage is CleaningUp,
        ensures
            outcome matches Err(e) ==> ({
                &&& final(self).stage is Failed
                &&& r matches Err(e2)
                &&& e2 == e
            }),
            outcome is Ok ==> final(self).stage is Done && r is Ok,
    {
        match outcome {
            Err(e) => {
                self.stage = Stage::Failed;
                Err(e)
            },
            Ok(()) => {
                self.stage = Stage::Done;
                Ok(())
            },
        }
    }
}

} // verus!
