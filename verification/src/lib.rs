//! Endpoint threat detection: signature and heuristic matching, the scan
//! pipeline, content-addressed quarantine naming and the watcher's decisions.

pub mod accounts;
pub mod command;
pub mod detection;
pub mod digest;
pub mod firewall;
pub mod heuristics;
pub mod netmon;
pub mod quarantine;
pub mod realtime;
pub mod rules;
pub mod scan;
pub mod text;
pub mod unrat;
pub mod updater;

pub use detection::Detection;
pub use detection::DetectionKind;
pub use scan::scan_paths;
pub use scan::ScanOptions;
