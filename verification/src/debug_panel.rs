//! The hand-over of the live diagnostic report from the game thread to the overlay.

use vstd::prelude::*;

use crate::report::{DiagnosticReport, ReportView};

verus! {

/// The latest report and the number of publications so far.
pub struct DebugPanel {
    wanted: bool,
    snapshot: Option<DiagnosticReport>,
    version: u64,
}

/// The state of the hand-over.
pub struct PanelView {
    /// Whether the overlay has a use for a report.
    pub wanted: bool,
    /// The report published last.
    pub report: Option<ReportView>,
    /// Advances with every publication.
    pub version: u64,
}

impl View for DebugPanel {
    type V = PanelView;

    closed spec fn view(&self) -> PanelView {
        PanelView {
            wanted: self.wanted,
            report: match self.snapshot {
                Some(r) => Some(r@),
                None => None,
            },
            version: self.version,
        }
    }
}

/// Nothing wanted and nothing published.
pub fn init() -> (panel: DebugPanel)
    ensures
        panel@ == (PanelView { wanted: false, report: None, version: 0 }),
{
    DebugPanel { wanted: false, snapshot: None, version: 0 }
}

/// Says whether a report is wanted.
pub fn set_report_wanted(panel: &mut DebugPanel, wanted: bool)
    ensures
        final(panel)@ == (PanelView { wanted, ..old(panel)@ }),
{
    panel.wanted = wanted;
}

/// Whether a report is wanted.
pub fn report_wanted(panel: &DebugPanel) -> (wanted: bool)
    ensures
        wanted == panel@.wanted,
{
    panel.wanted
}

/// The number of publications after one more; the count starts over at its end.
pub open spec fn next_version(version: u64) -> u64 {
    if version == u64::MAX {
        0
    } else {
        (version + 1) as u64
    }
}

/// Publishes a report; nothing happens before the hand-over is set up.
pub fn publish(panel: Option<&mut DebugPanel>, report: DiagnosticReport)
    ensures
        panel matches Some(p) ==> final(p)@ == (PanelView {
            report: Some(report@),
            version: next_version((*p)@.version),
            ..(*p)@
        }),
{
    match panel {
        Some(p) => {
            p.snapshot = Some(report);
            p.version = p.version.wrapping_add(1);
        },
        None => {},
    }
}

/// The number of publications, for noticing a new report cheaply.
pub fn version(panel: &DebugPanel) -> (n: u64)
    ensures
        n == panel@.version,
{
    panel.version
}

/// A copy of the latest report: absent if nothing was published, or if the non-blocking attempt did
/// not get hold of the hand-over.
pub fn snapshot(panel: Option<&DebugPanel>) -> (report: Option<DiagnosticReport>)
    ensures
        match panel {
            Some(p) => match report {
                Some(r) => p@.report == Some(r@),
                None => p@.report is None,
            },
            None => report is None,
        },
{
    match panel {
        Some(p) => match &p.snapshot {
            Some(r) => Some(r.copy()),
            None => None,
        },
        None => None,
    }
}

/// A publication is always noticed: the version afterwards is another one.
pub proof fn publication_is_noticed(version: u64)
    ensures
        next_version(version) != version,
{
}

/// Each publication has the next number, and after the last it starts over.
pub proof fn versions_count_up(version: u64)
    ensures
        version < u64::MAX ==> next_version(version) == version + 1,
        next_version(u64::MAX) == 0,
{
}

} // verus!
