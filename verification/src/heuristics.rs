//! The heuristic evaluator: a fixed list of behaviour indicators, looked for
//! in the lower-cased content.

use vstd::prelude::*;
use crate::detection::Detection;
use crate::detection::DetectionKind;
use crate::detection::DetectionView;
use crate::detection::KindView;
use crate::detection::detection_views;
use crate::text::contains_chars;
use crate::text::contains_seq;
use crate::text::lowercase;
use crate::text::to_chars;

verus! {

/// Severity of every heuristic detection.
pub const HEURISTIC_SEVERITY: u8 = 6;

/// Number of indicators.
pub const INDICATOR_COUNT: usize = 13;

/// The indicators, all in lower case.
pub open spec fn indicators() -> Seq<Seq<char>> {
    seq![
        "powershell -enc"@,
        "downloadstring("@,
        "invoke-expression"@,
        "add-mppreference"@,
        "disablerealtimemonitoring"@,
        "reg add \\\\hklm\\software\\microsoft\\windows\\currentversion\\run"@,
        "schtasks /create"@,
        "wscript.shell"@,
        "system.net.webclient"@,
        "reflective loader"@,
        "keylogger"@,
        "clipboard"@,
        "rdp"@,
    ]
}

/// The description that every heuristic detection carries.
pub open spec fn heuristic_description() -> Seq<char> {
    "Suspicious script or RAT-like behavior indicators"@
}

/// Some indicator occurs in the (lower-cased) text.
pub open spec fn has_indicator(lowered: Seq<char>) -> bool {
    exists|k: int| 0 <= k < indicators().len() && contains_seq(lowered, #[trigger] indicators()[k])
}

/// The heuristic detection for a file.
pub open spec fn heuristic_detection(path: Seq<char>) -> DetectionView {
    DetectionView {
        path,
        kind: KindView::Heuristic { description: heuristic_description() },
        severity: HEURISTIC_SEVERITY,
        sha256: None,
    }
}

/// What the evaluator reports for a file with the given content: one
/// detection if any indicator occurs in the lower-cased content, else none.
pub open spec fn heuristic_findings(path: Seq<char>, content: Seq<char>) -> Seq<DetectionView> {
    if has_indicator(lowercase(content)) {
        seq![heuristic_detection(path)]
    } else {
        Seq::empty()
    }
}

/// Indicator `k` of the list.
pub fn indicator(k: usize) -> (s: &'static str)
    requires
        k < INDICATOR_COUNT,
    ensures
        s@ == indicators()[k as int],
{
    let table: [&'static str; 13] = [
        "powershell -enc",
        "downloadstring(",
        "invoke-expression",
        "add-mppreference",
        "disablerealtimemonitoring",
        "reg add \\\\hklm\\software\\microsoft\\windows\\currentversion\\run",
        "schtasks /create",
        "wscript.shell",
        "system.net.webclient",
        "reflective loader",
        "keylogger",
        "clipboard",
        "rdp",
    ];
    table[k]
}

/// Whether any indicator occurs in a text that is already in lower case.
pub fn indicator_hit(lowered: &str) -> (hit: bool)
    ensures
        hit == has_indicator(lowered@),
{
    let hay = to_chars(lowered);
    let mut k: usize = 0;
    while k < INDICATOR_COUNT
        invariant
            k <= INDICATOR_COUNT,
            hay@ == lowered@,
            forall|j: int| 0 <= j < k ==> !contains_seq(lowered@, #[trigger] indicators()[j]),
        decreases INDICATOR_COUNT - k,
    {
        let needle = to_chars(indicator(k));
        if contains_chars(&hay, &needle) {
            return true;
        }
        k += 1;
    }
    false
}

/// Evaluates the heuristics on the decoded content of a file. However many
/// indicators occur, at most one detection comes back.
pub fn run_heuristics(path: &str, content: &str) -> (found: Vec<Detection>)
    ensures
        detection_views(found@) == heuristic_findings(path@, content@),
{
    let mut detections: Vec<Detection> = Vec::new();
    let lowered = content.to_lowercase();
    if indicator_hit(lowered.as_str()) {
        let d = Detection {
            path: path.to_owned(),
            kind: DetectionKind::Heuristic {
                description: "Suspicious script or RAT-like behavior indicators".to_owned(),
            },
            severity: HEURISTIC_SEVERITY,
            sha256: None,
        };
        detections.push(d);
        assert(detection_views(detections@) =~= seq![heuristic_detection(path@)]);
    } else {
        assert(detection_views(detections@) =~= Seq::empty());
    }
    detections
}

} // verus!
