use vstd::prelude::*;
use crate::chain::ChainBuilder;
use crate::header::{HeaderFields, assemble_header, header_fits, title_spec};
use crate::sizing::{
    SizeError, Sizing, TrimMode, compute_sizing, data_size, data_size_spec, message_spec,
    total_payload_spec,
};
use crate::status::{ConversionStatus, Stage, stage_rank};

verus! {

/// One run of the conversion pipeline, as a staged object. The caller does
/// the outside work of each stage (reading the image, clearing the output
/// directory, writing parts, the chain pass, writing the header) and
/// reports its outcome; the object decides what comes next, keeps the
/// observable status, and stops the run at the first failure.
pub struct Conversion {
    status: ConversionStatus,
    trim: TrimMode,
    title_override: Option<String>,
    sizing: Sizing,
}

/// The stages at which the payload's sizing is known.
pub open spec fn stage_is_sized(s: Stage) -> bool {
    stage_rank(s) >= 3 && stage_rank(s) <= 7
}

/// The stages at which the part count has been published as the progress total.
pub open spec fn stage_counts_parts(s: Stage) -> bool {
    stage_rank(s) >= 4 && stage_rank(s) <= 7
}

/// `new` is `old` ended by error `e`: not running, in the `Error` stage
/// with `e`'s message, and with the progress it had.
pub open spec fn failed_with(new: ConversionStatus, old: ConversionStatus, e: SizeError) -> bool {
    &&& !new.is_running
    &&& new.stage == Stage::Error
    &&& new.error is Some
    &&& new.error->Some_0@ == message_spec(e)
    &&& !new.success
    &&& new.progress_current == old.progress_current
    &&& new.progress_total == old.progress_total
}

/// The image's answers give a payload that can be converted.
pub open spec fn image_convertible(
    trim: TrimMode,
    max_used_prefix: u64,
    file_len: u64,
    root_offset: u64,
) -> bool {
    &&& !(trim == TrimMode::NoTrim && root_offset > file_len)
    &&& data_size_spec(trim, max_used_prefix, file_len, root_offset) >= 1
}

impl Conversion {
    pub closed spec fn spec_status(&self) -> ConversionStatus {
        self.status
    }

    pub closed spec fn spec_sizing(&self) -> Sizing {
        self.sizing
    }

    pub closed spec fn spec_trim(&self) -> TrimMode {
        self.trim
    }

    pub closed spec fn spec_title_override(&self) -> Option<String> {
        self.title_override
    }

    pub open spec fn stage(&self) -> Stage {
        self.spec_status().stage
    }

    pub open spec fn wf(&self) -> bool {
        &&& self.spec_status().wf()
        &&& stage_is_sized(self.stage()) ==> self.spec_sizing().wf()
        &&& stage_counts_parts(self.stage()) ==> self.spec_status().progress_total
            == self.spec_sizing().part_count
    }

    /// Everything but the status's stage, progress and outcome stays.
    pub open spec fn same_inputs(&self, other: &Conversion) -> bool {
        &&& self.spec_trim() == other.spec_trim()
        &&& self.spec_title_override() == other.spec_title_override()
    }

    /// A new run, in the `Starting` stage, with progress and outcome reset.
    pub fn start(trim: TrimMode, title_override: Option<String>) -> (r: Conversion)
        ensures
            r.wf(),
            r.stage() == Stage::Starting,
            r.spec_status().is_running,
            r.spec_status().progress_current == 0,
            r.spec_status().progress_total == 0,
            r.spec_status().error is None,
            !r.spec_status().success,
            r.spec_trim() == trim,
            r.spec_title_override() == title_override,
    {
        Conversion {
            status: ConversionStatus {
                is_running: true,
                stage: Stage::Starting,
                progress_current: 0,
                progress_total: 0,
                error: None,
                success: false,
            },
            trim,
            title_override,
            sizing: Sizing { data_size: 0, block_count: 0, part_count: 0 },
        }
    }

    /// The observable status.
    pub fn status(&self) -> (r: &ConversionStatus)
        ensures
            *r == self.spec_status(),
    {
        &self.status
    }

    /// The sizing, once the image has been read.
    pub fn sizing(&self) -> (r: Sizing)
        requires
            self.wf(),
            stage_is_sized(self.stage()),
        ensures
            r == self.spec_sizing(),
            r.wf(),
    {
        self.sizing
    }

    /// The trim mode the run was started with.
    pub fn trim(&self) -> (r: TrimMode)
        ensures
            r == self.spec_trim(),
    {
        self.trim
    }

    /// Enters the metadata stage.
    pub fn begin_metadata(&mut self)
        requires
            old(self).wf(),
            old(self).stage() == Stage::Starting,
        ensures
            final(self).wf(),
            final(self).same_inputs(old(self)),
            final(self).stage() == Stage::ExtractingMetadata,
            stage_rank(final(self).stage()) > stage_rank(old(self).stage()),
            final(self).spec_status() == (ConversionStatus {
                stage: Stage::ExtractingMetadata,
                ..old(self).spec_status()
            }),
    {
        self.status.stage = Stage::ExtractingMetadata;
    }

    /// Ends the run in the `Error` stage with `message`. Progress keeps its
    /// last value, and no later stage can be entered.
    pub fn fail(&mut self, message: String)
        requires
            old(self).wf(),
            old(self).spec_status().is_running,
        ensures
            final(self).wf(),
            final(self).same_inputs(old(self)),
            final(self).spec_sizing() == old(self).spec_sizing(),
            stage_rank(final(self).stage()) > stage_rank(old(self).stage()),
            final(self).spec_status() == (ConversionStatus {
                is_running: false,
                stage: Stage::Error,
                error: Some(message),
                success: false,
                ..old(self).spec_status()
            }),
    {
        self.status.is_running = false;
        self.status.stage = Stage::Error;
        self.status.error = Some(message);
        self.status.success = false;
    }

    /// Takes the image reader's answers, sizes the payload by the run's trim
    /// mode, and moves on to clearing the output directory; a payload that
    /// cannot be converted ends the run.
    pub fn image_read(&mut self, max_used_prefix: u64, file_len: u64, root_offset: u64) -> (r:
        Result<Sizing, SizeError>)
        requires
            old(self).wf(),
            old(self).stage() == Stage::ExtractingMetadata,
        ensures
            final(self).wf(),
            final(self).same_inputs(old(self)),
            stage_rank(final(self).stage()) > stage_rank(old(self).stage()),
            old(self).spec_trim() == TrimMode::NoTrim && root_offset > file_len <==> r
                == Err::<Sizing, SizeError>(SizeError::RootOffsetPastEnd),
            !(old(self).spec_trim() == TrimMode::NoTrim && root_offset > file_len) ==> (
            data_size_spec(old(self).spec_trim(), max_used_prefix, file_len, root_offset) == 0
                <==> r == Err::<Sizing, SizeError>(SizeError::EmptyImage)),
            r is Ok <==> image_convertible(
                old(self).spec_trim(),
                max_used_prefix,
                file_len,
                root_offset,
            ),
            r is Ok ==> {
                &&& r->Ok_0.wf()
                &&& r->Ok_0.data_size == data_size_spec(
                    old(self).spec_trim(),
                    max_used_prefix,
                    file_len,
                    root_offset,
                )
                &&& final(self).spec_sizing() == r->Ok_0
                &&& final(self).spec_status() == (ConversionStatus {
                    stage: Stage::ClearingDirectory,
                    ..old(self).spec_status()
                })
            },
            r is Err ==> {
                &&& failed_with(final(self).spec_status(), old(self).spec_status(), r->Err_0)
                &&& final(self).spec_sizing() == old(self).spec_sizing()
            },
    {
        let sized = match data_size(self.trim, max_used_prefix, file_len, root_offset) {
            Ok(size) => compute_sizing(size),
            Err(e) => Err(e),
        };
        match sized {
            Ok(s) => {
                self.sizing = s;
                self.status.stage = Stage::ClearingDirectory;
                Ok(s)
            },
            Err(e) => {
                self.fail(e.message());
                Err(e)
            },
        }
    }

    /// The output directory is empty: publish the part count as the
    /// progress total and move on to writing parts. Returns the part count.
    pub fn directory_cleared(&mut self) -> (r: u64)
        requires
            old(self).wf(),
            old(self).stage() == Stage::ClearingDirectory,
        ensures
            final(self).wf(),
            final(self).same_inputs(old(self)),
            stage_rank(final(self).stage()) > stage_rank(old(self).stage()),
            r == old(self).spec_sizing().part_count,
            r >= 1,
            final(self).spec_sizing() == old(self).spec_sizing(),
            final(self).spec_status() == (ConversionStatus {
                stage: Stage::WritingParts,
                progress_total: r,
                progress_current: 0,
                ..old(self).spec_status()
            }),
    {
        proof {
            crate::sizing::lemma_part_count(self.sizing);
        }
        self.status.stage = Stage::WritingParts;
        self.status.progress_total = self.sizing.part_count;
        self.status.progress_current = 0;
        self.sizing.part_count
    }

    /// Publishes a count of finished parts seen by a worker. A count above
    /// the total is not a count of this run and is ignored.
    pub fn publish_progress(&mut self, completed: u64)
        requires
            old(self).wf(),
            old(self).stage() == Stage::WritingParts,
        ensures
            final(self).wf(),
            final(self).same_inputs(old(self)),
            final(self).spec_sizing() == old(self).spec_sizing(),
            final(self).spec_status() == if completed <= old(self).spec_status().progress_total {
                ConversionStatus { progress_current: completed, ..old(self).spec_status() }
            } else {
                old(self).spec_status()
            },
    {
        if completed <= self.status.progress_total {
            self.status.progress_current = completed;
        }
    }

    /// Every part has been written: the progress is complete, and the chain
    /// pass starts with a builder over all the parts.
    pub fn parts_written(&mut self) -> (r: ChainBuilder)
        requires
            old(self).wf(),
            old(self).stage() == Stage::WritingParts,
        ensures
            final(self).wf(),
            final(self).same_inputs(old(self)),
            stage_rank(final(self).stage()) > stage_rank(old(self).stage()),
            final(self).spec_sizing() == old(self).spec_sizing(),
            final(self).spec_status() == (ConversionStatus {
                stage: Stage::CalculatingHashChain,
                progress_current: old(self).spec_status().progress_total,
                ..old(self).spec_status()
            }),
            r.wf(),
            r.spec_part_count() == old(self).spec_sizing().part_count,
            r.reported().len() == 0,
    {
        proof {
            crate::sizing::lemma_part_count(self.sizing);
        }
        self.status.progress_current = self.status.progress_total;
        self.status.stage = Stage::CalculatingHashChain;
        ChainBuilder::new(self.sizing.part_count).unwrap()
    }

    /// The chain pass is finished and the last part file's size is known:
    /// assembles the header fields and moves on to writing the header. A
    /// header whose fields cannot hold the sizes ends the run.
    pub fn chain_finished(
        &mut self,
        chain: &ChainBuilder,
        last_part_size: u64,
        found_title: Option<String>,
    ) -> (r: Result<HeaderFields, SizeError>)
        requires
            old(self).wf(),
            old(self).stage() == Stage::CalculatingHashChain,
            chain.wf(),
            chain.is_finished(),
            chain.spec_part_count() == old(self).spec_sizing().part_count,
        ensures
            final(self).wf(),
            final(self).same_inputs(old(self)),
            stage_rank(final(self).stage()) > stage_rank(old(self).stage()),
            r is Ok <==> header_fits(old(self).spec_sizing(), last_part_size),
            r is Ok ==> {
                let h = r->Ok_0;
                let s = old(self).spec_sizing();
                &&& h.block_count == s.block_count
                &&& h.part_count == s.part_count
                &&& h.data_parts_size == total_payload_spec(
                    last_part_size as int,
                    s.part_count as int,
                )
                &&& h.root_digest == chain.part_digest(0)
                &&& h.title == title_spec(old(self).spec_title_override(), found_title)
                &&& final(self).spec_status() == (ConversionStatus {
                    stage: Stage::WritingHeader,
                    ..old(self).spec_status()
                })
            },
            r is Err ==> {
                &&& r == Err::<HeaderFields, SizeError>(SizeError::TooLarge)
                &&& failed_with(final(self).spec_status(), old(self).spec_status(), r->Err_0)
            },
            final(self).spec_sizing() == old(self).spec_sizing(),
    {
        let root = chain.root_digest();
        let title_override = match &self.title_override {
            Some(t) => Some(t.clone()),
            None => None,
        };
        match assemble_header(&self.sizing, last_part_size, root, title_override, found_title) {
            Ok(h) => {
                self.status.stage = Stage::WritingHeader;
                Ok(h)
            },
            Err(e) => {
                self.fail(e.message());
                Err(e)
            },
        }
    }

    /// The header is written: the run ends in success.
    pub fn header_written(&mut self)
        requires
            old(self).wf(),
            old(self).stage() == Stage::WritingHeader,
        ensures
            final(self).wf(),
            final(self).same_inputs(old(self)),
            stage_rank(final(self).stage()) > stage_rank(old(self).stage()),
            final(self).spec_sizing() == old(self).spec_sizing(),
            final(self).spec_status() == (ConversionStatus {
                is_running: false,
                stage: Stage::Complete,
                success: true,
                ..old(self).spec_status()
            }),
    {
        self.status.is_running = false;
        self.status.stage = Stage::Complete;
        self.status.success = true;
    }
}

} // verus!
