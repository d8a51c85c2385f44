//! Findings of the scan pipeline.

use vstd::prelude::*;

verus! {

/// Why a file was reported.
#[derive(Debug, Clone)]
pub enum DetectionKind {
    /// A rule of the signature set matched the content.
    Signature { name: String, family: String },
    /// The content holds a suspicious-behaviour indicator.
    Heuristic { description: String },
}

pub enum KindView {
    Signature { name: Seq<char>, family: Seq<char> },
    Heuristic { description: Seq<char> },
}

impl View for DetectionKind {
    type V = KindView;

    open spec fn view(&self) -> KindView {
        match self {
            DetectionKind::Signature { name, family } => KindView::Signature {
                name: name@,
                family: family@,
            },
            DetectionKind::Heuristic { description } => KindView::Heuristic {
                description: description@,
            },
        }
    }
}

/// One finding for one file.
#[derive(Debug, Clone)]
pub struct Detection {
    pub path: String,
    pub kind: DetectionKind,
    pub severity: u8,
    pub sha256: Option<String>,
}

pub struct DetectionView {
    pub path: Seq<char>,
    pub kind: KindView,
    pub severity: u8,
    pub sha256: Option<Seq<char>>,
}

impl DetectionView {
    /// Severities run from 0 to 10.
    pub open spec fn valid(self) -> bool {
        self.severity <= 10
    }
}

impl View for Detection {
    type V = DetectionView;

    open spec fn view(&self) -> DetectionView {
        DetectionView {
            path: self.path@,
            kind: self.kind@,
            severity: self.severity,
            sha256: match self.sha256 {
                Some(h) => Some(h@),
                None => None,
            },
        }
    }
}

/// The views of a list of detections.
pub open spec fn detection_views(ds: Seq<Detection>) -> Seq<DetectionView> {
    Seq::new(ds.len(), |i: int| ds[i]@)
}

/// The view of an optional detection.
pub open spec fn outcome_view(d: Option<Detection>) -> Option<DetectionView> {
    match d {
        Some(d) => Some(d@),
        None => None,
    }
}

} // verus!
