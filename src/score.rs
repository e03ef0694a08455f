use vstd::prelude::*;

verus! {

/// One play record as the service reports it.
#[derive(Debug, Clone)]
pub struct IIDXScoreResult {
    /// The chart that was played (see `chart_label`).
    pub chart: u8,
    /// Normal great count.
    pub great: u16,
    /// Miss count; `-1` when the attempt was aborted.
    pub miss_count: i16,
    /// Perfect great count.
    pub pgreat: u16,
    /// The score of this attempt.
    pub points: u16,
    /// Whether this attempt set a new high score.
    pub raised: bool,
    /// The song's identifier.
    pub songid: u32,
    /// The clear mode (clear, easy clear, failed, ...).
    pub status: String,
    /// When this attempt was uploaded.
    pub timestamp: u64,
    /// The owner of the attempt; a placeholder when the querying user owns it.
    pub userid: String,
}

/// The number of chart codes the service defines.
pub const CHART_COUNT: u8 = 10;

/// A chart code is known when it names one of the ten charts.
pub open spec fn is_known_chart(chart: u8) -> bool {
    chart < CHART_COUNT
}

/// The label of each known chart: single play (SP) or double play (DP),
/// followed by the tier (beginner, normal, hyper, another, leggendaria).
pub open spec fn chart_label(chart: u8) -> Seq<char> {
    if chart == 0 {
        "SPN"@
    } else if chart == 1 {
        "SPH"@
    } else if chart == 2 {
        "SPA"@
    } else if chart == 3 {
        "DPN"@
    } else if chart == 4 {
        "DPH"@
    } else if chart == 5 {
        "DPA"@
    } else if chart == 6 {
        "SPB"@
    } else if chart == 7 {
        "SPL"@
    } else if chart == 8 {
        "DPB"@
    } else {
        "DPL"@
    }
}

/// The label of a chart code, or `None` for a code the service never defines.
pub fn difficulty_label(chart: u8) -> (r: Option<&'static str>)
    ensures
        r is Some <==> is_known_chart(chart),
        r is Some ==> r->0@ == chart_label(chart),
{
    match chart {
        0 => Some("SPN"),
        1 => Some("SPH"),
        2 => Some("SPA"),
        3 => Some("DPN"),
        4 => Some("DPH"),
        5 => Some("DPA"),
        6 => Some("SPB"),
        7 => Some("SPL"),
        8 => Some("DPB"),
        9 => Some("DPL"),
        _ => None,
    }
}

impl IIDXScoreResult {
    /// Whether this record's chart code is one the service defines.
    pub fn has_known_chart(&self) -> (r: bool)
        ensures
            r == is_known_chart(self.chart),
    {
        self.chart < CHART_COUNT
    }

    /// The label of this record's chart. A code outside the ten known ones
    /// is a defect of the service and is excluded by the precondition.
    pub fn stringify_difficulty(&self) -> (r: &'static str)
        requires
            is_known_chart(self.chart),
        ensures
            r@ == chart_label(self.chart),
    {
        match difficulty_label(self.chart) {
            Some(label) => label,
            None => "",
        }
    }
}

} // verus!
