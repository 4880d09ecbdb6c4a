use vstd::prelude::*;

verus! {

/// The stages of one conversion, in the order they are entered.
#[derive(Debug, Clone, Copy, PartialEq, Eq, Structural)]
pub enum Stage {
    Idle,
    Starting,
    ExtractingMetadata,
    ClearingDirectory,
    WritingParts,
    CalculatingHashChain,
    WritingHeader,
    Complete,
    Error,
}

/// Position of a stage in the transition order; `Error` may follow any
/// running stage and is ranked last.
pub open spec fn stage_rank(s: Stage) -> int {
    match s {
        Stage::Idle => 0,
        Stage::Starting => 1,
        Stage::ExtractingMetadata => 2,
        Stage::ClearingDirectory => 3,
        Stage::WritingParts => 4,
        Stage::CalculatingHashChain => 5,
        Stage::WritingHeader => 6,
        Stage::Complete => 7,
        Stage::Error => 8,
    }
}

impl Stage {
    /// The text shown to an observer for this stage.
    pub fn label(&self) -> (r: String)
        ensures
            *self == Stage::Idle ==> r@ == "Idle"@,
            *self == Stage::Error ==> r@ == "Error"@,
            *self == Stage::Complete ==> r@ == "Conversion Complete!"@,
            *self == Stage::WritingParts ==> r@ == "Writing parts..."@,
            *self == Stage::Starting ==> r@ == "Starting..."@,
            *self == Stage::ExtractingMetadata ==> r@ == "Extracting ISO metadata..."@,
            *self == Stage::ClearingDirectory ==> r@ == "Clearing data directory..."@,
            *self == Stage::CalculatingHashChain ==> r@ == "Calculating MHT hash chain..."@,
            *self == Stage::WritingHeader ==> r@ == "Writing CON header..."@,
    {
        match self {
            Stage::Idle => "Idle".to_owned(),
            Stage::Starting => "Starting...".to_owned(),
            Stage::ExtractingMetadata => "Extracting ISO metadata...".to_owned(),
            Stage::ClearingDirectory => "Clearing data directory...".to_owned(),
            Stage::WritingParts => "Writing parts...".to_owned(),
            Stage::CalculatingHashChain => "Calculating MHT hash chain...".to_owned(),
            Stage::WritingHeader => "Writing CON header...".to_owned(),
            Stage::Complete => "Conversion Complete!".to_owned(),
            Stage::Error => "Error".to_owned(),
        }
    }
}

/// The observable state of a conversion. Only a snapshot with
/// `is_running == false` is authoritative.
#[derive(Debug, Clone)]
pub struct ConversionStatus {
    pub is_running: bool,
    pub stage: Stage,
    pub progress_current: u64,
    pub progress_total: u64,
    pub error: Option<String>,
    pub success: bool,
}

impl ConversionStatus {
    /// The state of a status that has not run yet.
    pub open spec fn is_idle(&self) -> bool {
        &&& !self.is_running
        &&& self.stage == Stage::Idle
        &&& self.progress_current == 0
        &&& self.progress_total == 0
        &&& self.error is None
        &&& !self.success
    }

    /// The flags agree with the stage.
    pub open spec fn wf(&self) -> bool {
        &&& self.is_running <==> (stage_rank(self.stage) >= 1 && stage_rank(self.stage) <= 6)
        &&& self.success <==> self.stage == Stage::Complete
        &&& self.error is Some <==> self.stage == Stage::Error
        &&& self.progress_current <= self.progress_total
    }

    /// A status where nothing has happened yet.
    pub fn idle() -> (r: ConversionStatus)
        ensures
            r.is_idle(),
            r.wf(),
    {
        ConversionStatus {
            is_running: false,
            stage: Stage::Idle,
            progress_current: 0,
            progress_total: 0,
            error: None,
            success: false,
        }
    }
}

impl Default for ConversionStatus {
    fn default() -> (r: ConversionStatus)
        ensures
            r.is_idle(),
    {
        ConversionStatus::idle()
    }
}

} // verus!
