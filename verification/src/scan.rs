//! The scanner: which files are looked at, and what one file yields.

use vstd::prelude::*;
use vstd::hash_set::StringHashSet;
use std::path::Path;
use crate::detection::Detection;
use crate::detection::DetectionKind;
use crate::detection::DetectionView;
use crate::detection::KindView;
use crate::detection::detection_views;
use crate::detection::outcome_view;
use crate::digest::compute_sha256;
use crate::digest::sha256_hex;
use crate::heuristics::has_indicator;
use crate::heuristics::heuristic_detection;
use crate::heuristics::heuristic_findings;
use crate::heuristics::run_heuristics;
use crate::rules::RuleView;
use crate::rules::SignatureDb;
use crate::rules::SignatureEntry;
use crate::rules::compile_all;
use crate::rules::entry_views;
use crate::rules::first_match;
use crate::rules::is_first_match;
use crate::rules::lemma_match_has_first;
use crate::rules::lemma_no_match_no_first;
use crate::text::contains_seq;
use crate::text::decode_lossy;
use crate::text::lowercase;
use crate::text::string_views;
use crate::text::utf8_lossy;

verus! {

/// Severity of every signature detection.
pub const SIGNATURE_SEVERITY: u8 = 8;

/// The default size limit: 16 MiB.
pub const DEFAULT_MAX_FILE_SIZE_BYTES: u64 = 16777216;

/// What a scan looks at.
#[derive(Debug, Clone)]
pub struct ScanOptions {
    /// Lowercase extensions without the dot. Where present, only files whose
    /// extension is listed are scanned.
    pub include_extensions: Option<Vec<String>>,
    pub enable_heuristics: bool,
    /// Larger files are skipped.
    pub max_file_size_bytes: u64,
}

pub struct OptionsView {
    pub include_extensions: Option<Seq<Seq<char>>>,
    pub enable_heuristics: bool,
    pub max_file_size_bytes: u64,
}

impl View for ScanOptions {
    type V = OptionsView;

    open spec fn view(&self) -> OptionsView {
        OptionsView {
            include_extensions: match self.include_extensions {
                Some(exts) => Some(string_views(exts@)),
                None => None,
            },
            enable_heuristics: self.enable_heuristics,
            max_file_size_bytes: self.max_file_size_bytes,
        }
    }
}

impl Default for ScanOptions {
    /// No extension filter, heuristics on, files of up to 16 MiB.
    fn default() -> (o: Self)
        ensures
            o@.include_extensions is None,
            o@.enable_heuristics,
            o@.max_file_size_bytes == DEFAULT_MAX_FILE_SIZE_BYTES,
    {
        ScanOptions {
            include_extensions: None,
            enable_heuristics: true,
            max_file_size_bytes: DEFAULT_MAX_FILE_SIZE_BYTES,
        }
    }
}

/// A candidate file as the enumeration found it and the read returned it.
#[derive(Debug, Clone)]
pub struct FileEntry {
    pub path: String,
    /// The extension of the file name as the platform's path rules give it,
    /// in the case in which it is written and without the dot.
    pub extension: Option<String>,
    /// The size in bytes that the file system reported.
    pub size: u64,
    pub content: Vec<u8>,
}

pub struct FileView {
    pub path: Seq<char>,
    pub extension: Option<Seq<char>>,
    pub size: u64,
    pub content: Seq<u8>,
}

impl View for FileEntry {
    type V = FileView;

    open spec fn view(&self) -> FileView {
        FileView {
            path: self.path@,
            extension: match self.extension {
                Some(e) => Some(e@),
                None => None,
            },
            size: self.size,
            content: self.content@,
        }
    }
}

/// The views of a list of files.
pub open spec fn file_views(files: Seq<FileEntry>) -> Seq<FileView> {
    Seq::new(files.len(), |i: int| files[i]@)
}

/// Position `k` holds the last dot of `name`.
pub open spec fn is_last_dot(name: Seq<char>, k: int) -> bool {
    &&& 0 <= k < name.len()
    &&& name[k] == '.'
    &&& forall|j: int| k < j < name.len() ==> name[j] != '.'
}

/// The extension of a file name: what follows its last dot. A name without
/// a dot has none, nor has a name whose only dot is its first character.
pub open spec fn name_extension(name: Seq<char>) -> Option<Seq<char>> {
    if exists|k: int| 0 < k && is_last_dot(name, k) {
        let k = choose|k: int| 0 < k && is_last_dot(name, k);
        Some(name.subrange(k + 1, name.len() as int))
    } else {
        None
    }
}

/// A path that is one plain file name on every platform: it is not empty,
/// holds no separator (`/` or `\`) and no `:`, and neither begins nor ends
/// with a dot.
pub open spec fn is_bare_name(path: Seq<char>) -> bool {
    &&& path.len() > 0
    &&& path[0] != '.'
    &&& path[path.len() - 1] != '.'
    &&& forall|i: int| 0 <= i < path.len() ==> path[i] != '/' && path[i] != '\\' && path[i] != ':'
}

/// Position `k` holds the last slash of `path`.
pub open spec fn is_last_slash(path: Seq<char>, k: int) -> bool {
    &&& 0 <= k < path.len()
    &&& path[k] == '/'
    &&& forall|j: int| k < j < path.len() ==> path[j] != '/'
}

/// What follows the last slash of a path; the whole path where it holds no
/// slash.
pub open spec fn final_name(path: Seq<char>) -> Seq<char> {
    if exists|k: int| is_last_slash(path, k) {
        let k = choose|k: int| is_last_slash(path, k);
        path.subrange(k + 1, path.len() as int)
    } else {
        path
    }
}

/// A path whose file name is the same on every platform: it holds no `\`
/// and no `:`, does not begin with two slashes, and what follows its last
/// slash is a bare name.
pub open spec fn is_plain_path(path: Seq<char>) -> bool {
    &&& forall|i: int| 0 <= i < path.len() ==> path[i] != '\\' && path[i] != ':'
    &&& !(path.len() >= 2 && path[0] == '/' && path[1] == '/')
    &&& is_bare_name(final_name(path))
}

/// A bare name is a plain path, and its own final name.
pub proof fn lemma_bare_name_is_plain(path: Seq<char>)
    requires
        is_bare_name(path),
    ensures
        is_plain_path(path),
        final_name(path) == path,
{
    assert forall|k: int| !is_last_slash(path, k) by {}
}

/// The text of an optional string.
pub open spec fn text_of(s: Option<String>) -> Option<Seq<char>> {
    match s {
        Some(t) => Some(t@),
        None => None,
    }
}

/// Trusted: `std::path::Path::extension` on the path `path`. Where the file
/// name has an extension, the result is the part of the name after its last
/// dot, so the dot followed by the extension stands in the path. How a path
/// divides into components is the platform's affair, but every platform
/// takes `/` for a separator: in a plain path the file name is the bare
/// name behind the last slash, whatever the platform. Of a plain path the
/// documented rule is therefore claimed in full: the extension is what
/// follows the last dot of that name, and a name without a dot has none.
/// Nothing more is claimed of a path with a `\` or a `:`, of one that
/// begins with two slashes, or of one that ends in a slash or in a name
/// that begins or ends with a dot.
#[verifier::external_body]
fn path_extension(path: &str) -> (ext: Option<String>)
    ensures
        ext matches Some(e) ==> contains_seq(path@, seq!['.'] + e@),
        is_plain_path(path@) ==> text_of(ext) == name_extension(final_name(path@)),
{
    match Path::new(path).extension() {
        Some(e) => Some(e.to_string_lossy().into_owned()),
        None => None,
    }
}

/// An extension passes the filter: there is no filter, or the lower-cased
/// extension is listed. Without an extension nothing passes a filter.
pub open spec fn extension_passes(
    extension: Option<Seq<char>>,
    include_extensions: Option<Seq<Seq<char>>>,
) -> bool {
    match include_extensions {
        None => true,
        Some(listed) => match extension {
            Some(e) => listed.contains(lowercase(e)),
            None => false,
        },
    }
}

/// The file passes the extension filter and the size guard.
pub open spec fn is_candidate(file: FileView, options: OptionsView) -> bool {
    &&& extension_passes(file.extension, options.include_extensions)
    &&& file.size <= options.max_file_size_bytes
}

/// The detection that a matching rule gives.
pub open spec fn signature_detection(path: Seq<char>, rule: RuleView, bytes: Seq<u8>) -> DetectionView {
    DetectionView {
        path,
        kind: KindView::Signature { name: rule.name, family: rule.family },
        severity: SIGNATURE_SEVERITY,
        sha256: Some(sha256_hex(bytes)),
    }
}

/// The last of a list of findings, if there is one.
pub open spec fn last_finding(found: Seq<DetectionView>) -> Option<DetectionView> {
    if found.len() > 0 {
        Some(found.last())
    } else {
        None
    }
}

/// What decoded content yields: the first matching rule wins; only where no
/// rule matches, and heuristics are enabled, the heuristics are asked.
pub open spec fn decoded_outcome(
    path: Seq<char>,
    content: Seq<char>,
    bytes: Seq<u8>,
    rules: Seq<RuleView>,
    enable_heuristics: bool,
) -> Option<DetectionView> {
    match first_match(rules, content) {
        Some(i) => Some(signature_detection(path, rules[i], bytes)),
        None => if enable_heuristics {
            last_finding(heuristic_findings(path, content))
        } else {
            None
        },
    }
}

/// What the bytes of a file yield, decoded lossily as UTF-8.
pub open spec fn content_outcome(
    path: Seq<char>,
    bytes: Seq<u8>,
    rules: Seq<RuleView>,
    enable_heuristics: bool,
) -> Option<DetectionView> {
    decoded_outcome(path, utf8_lossy(bytes), bytes, rules, enable_heuristics)
}

/// What one file yields: nothing unless it passes the filter and the size
/// guard, else what its content yields.
pub open spec fn file_outcome(file: FileView, rules: Seq<RuleView>, options: OptionsView) -> Option<
    DetectionView,
> {
    if is_candidate(file, options) {
        content_outcome(file.path, file.content, rules, options.enable_heuristics)
    } else {
        None
    }
}

/// Some file of the list lies at `path`.
pub open spec fn path_seen(files: Seq<FileView>, path: Seq<char>) -> bool {
    exists|j: int| #![trigger files[j]] 0 <= j < files.len() && files[j].path == path
}

/// The detections of a list of files, in the order of the files. A path
/// is scanned once: a file whose path stands earlier in the list is passed
/// over.
pub open spec fn scan_all(files: Seq<FileView>, rules: Seq<RuleView>, options: OptionsView) -> Seq<
    DetectionView,
>
    decreases files.len(),
{
    if files.len() == 0 {
        Seq::empty()
    } else {
        let front = files.drop_last();
        let rest = scan_all(front, rules, options);
        if path_seen(front, files.last().path) {
            rest
        } else {
            match file_outcome(files.last(), rules, options) {
                Some(d) => rest.push(d),
                None => rest,
            }
        }
    }
}

/// A list of paths without its repeats: of each path the first occurrence,
/// in the order of the list.
pub open spec fn distinct_paths(paths: Seq<Seq<char>>) -> Seq<Seq<char>>
    decreases paths.len(),
{
    if paths.len() == 0 {
        Seq::empty()
    } else {
        let front = paths.drop_last();
        let rest = distinct_paths(front);
        if front.contains(paths.last()) {
            rest
        } else {
            rest.push(paths.last())
        }
    }
}

/// No path stands twice in the list.
pub open spec fn no_path_twice(paths: Seq<Seq<char>>) -> bool {
    forall|a: int, b: int| 0 <= a < b < paths.len() ==> paths[a] != paths[b]
}

/// The lower-cased extension of a file name, where it has one.
pub open spec fn lowercase_extension(name: Seq<char>) -> Option<Seq<char>> {
    match name_extension(name) {
        Some(e) => Some(lowercase(e)),
        None => None,
    }
}

/// The extension of a path in lower case. Of a plain path, and so of a bare
/// file name, it is the lower-cased text after the last dot of the file
/// name, and nothing where the name has no dot. Of any other path, where an
/// extension comes back, it is the lower-cased form of some text that
/// follows a dot in the path.
pub fn file_extension_lowercase(path: &str) -> (ext: Option<String>)
    ensures
        is_bare_name(path@) ==> text_of(ext) == lowercase_extension(path@),
        is_plain_path(path@) ==> text_of(ext) == lowercase_extension(final_name(path@)),
        ext matches Some(l) ==> exists|e: Seq<char>|
            contains_seq(path@, seq!['.'] + e) && l@ == #[trigger] lowercase(e),
{
    proof {
        if is_bare_name(path@) {
            lemma_bare_name_is_plain(path@);
        }
    }
    match path_extension(path) {
        Some(e) => Some(e.as_str().to_lowercase()),
        None => None,
    }
}

/// Whether `wanted` is one of the listed extensions.
fn is_listed(listed: &Vec<String>, wanted: &String) -> (found: bool)
    ensures
        found == string_views(listed@).contains(wanted@),
{
    let mut i: usize = 0;
    while i < listed.len()
        invariant
            i <= listed.len(),
            forall|k: int| 0 <= k < i ==> string_views(listed@)[k] != wanted@,
        decreases listed.len() - i,
    {
        if listed[i] == *wanted {
            assert(string_views(listed@)[i as int] == wanted@);
            return true;
        }
        i += 1;
    }
    false
}

/// Whether an extension, in the case in which it is written, passes the
/// options' filter.
pub fn extension_allowed(extension: &Option<String>, options: &ScanOptions) -> (allowed: bool)
    ensures
        allowed == extension_passes(
            match *extension {
                Some(e) => Some(e@),
                None => None,
            },
            options@.include_extensions,
        ),
{
    match &options.include_extensions {
        None => true,
        Some(listed) => match extension {
            None => false,
            Some(e) => {
                let lowered = e.as_str().to_lowercase();
                is_listed(listed, &lowered)
            },
        },
    }
}

/// Whether the file at `path` is to be scanned under `options`: always where
/// no filter is configured; under a filter only where the path has an
/// extension whose lower-cased form is listed. Of a plain path, and so of a
/// bare file name, the answer is exactly whether the extension of the file
/// name passes the filter.
pub fn should_scan(path: &str, options: &ScanOptions) -> (scan: bool)
    ensures
        options@.include_extensions is None ==> scan,
        is_bare_name(path@) ==> scan == extension_passes(
            name_extension(path@),
            options@.include_extensions,
        ),
        is_plain_path(path@) ==> scan == extension_passes(
            name_extension(final_name(path@)),
            options@.include_extensions,
        ),
        options@.include_extensions matches Some(listed) ==> (scan ==> exists|e: Seq<char>|
            contains_seq(path@, seq!['.'] + e) && listed.contains(#[trigger] lowercase(e))),
{
    proof {
        if is_bare_name(path@) {
            lemma_bare_name_is_plain(path@);
        }
    }
    let extension = path_extension(path);
    extension_allowed(&extension, options)
}

impl ScanOptions {
    /// Whether a file of `size` bytes is within the size limit.
    pub fn admits_size(&self, size: u64) -> (ok: bool)
        ensures
            ok == (size <= self@.max_file_size_bytes),
    {
        size <= self.max_file_size_bytes
    }
}

impl FileEntry {
    /// A candidate file with the extension that its path has. Of a plain
    /// path, and so of a bare file name, that is the extension of the file
    /// name.
    pub fn new(path: String, size: u64, content: Vec<u8>) -> (entry: FileEntry)
        ensures
            entry@.path == path@,
            entry@.size == size,
            entry@.content == content@,
            is_bare_name(path@) ==> entry@.extension == name_extension(path@),
            is_plain_path(path@) ==> entry@.extension == name_extension(final_name(path@)),
            entry@.extension matches Some(e) ==> contains_seq(path@, seq!['.'] + e),
    {
        proof {
            if is_bare_name(path@) {
                lemma_bare_name_is_plain(path@);
            }
        }
        let extension = path_extension(path.as_str());
        FileEntry { path, extension, size, content }
    }
}

/// Matches content that is already decoded. The rules are tried in order and
/// the first that matches gives a signature detection with the digest of the
/// raw bytes; only if none matches, and heuristics are enabled, the
/// heuristic evaluator is asked, and the last of its findings is reported.
pub fn scan_decoded(
    path: &str,
    content: &str,
    bytes: &[u8],
    db: &SignatureDb,
    options: &ScanOptions,
) -> (found: Option<Detection>)
    ensures
        outcome_view(found) == decoded_outcome(
            path@,
            content@,
            bytes@,
            db@,
            options@.enable_heuristics,
        ),
{
    match db.first_match(content) {
        Some(i) => {
            let sha = compute_sha256(bytes);
            Some(
                Detection {
                    path: path.to_owned(),
                    kind: DetectionKind::Signature {
                        name: db.name(i).clone(),
                        family: db.family(i).clone(),
                    },
                    severity: SIGNATURE_SEVERITY,
                    sha256: Some(sha),
                },
            )
        },
        None => {
            if options.enable_heuristics {
                let mut hs = run_heuristics(path, content);
                let ghost before = detection_views(hs@);
                let last = hs.pop();
                proof {
                    if before.len() > 0 {
                        assert(outcome_view(last) == Some(before.last()));
                    }
                }
                last
            } else {
                None
            }
        },
    }
}

/// Matches the raw bytes of a file: decodes them lossily as UTF-8 and matches
/// the text.
pub fn scan_content(path: &str, bytes: &[u8], db: &SignatureDb, options: &ScanOptions) -> (found:
    Option<Detection>)
    ensures
        outcome_view(found) == content_outcome(path@, bytes@, db@, options@.enable_heuristics),
{
    let content = decode_lossy(bytes);
    scan_decoded(path, content.as_str(), bytes, db, options)
}

/// Scans one candidate file: nothing comes back for a file that the
/// extension filter excludes or that is over the size limit, whatever it
/// holds; any other file yields what its content yields.
pub fn scan_file(file: &FileEntry, db: &SignatureDb, options: &ScanOptions) -> (found: Option<
    Detection,
>)
    ensures
        outcome_view(found) == file_outcome(file@, db@, options@),
{
    if !extension_allowed(&file.extension, options) {
        return None;
    }
    if !options.admits_size(file.size) {
        return None;
    }
    scan_content(file.path.as_str(), file.content.as_slice(), db, options)
}

/// Drops from a list of paths every path that stands earlier in it. What
/// comes back holds no path twice, holds the paths of the list and no
/// others, and keeps them in the order of their first occurrence.
pub fn dedup_paths(paths: &Vec<String>) -> (kept: Vec<String>)
    ensures
        string_views(kept@) == distinct_paths(string_views(paths@)),
        no_path_twice(string_views(kept@)),
        forall|p: Seq<char>|
            string_views(kept@).contains(p) <==> string_views(paths@).contains(p),
        kept@.len() <= paths@.len(),
{
    let ghost all = string_views(paths@);
    let mut seen = StringHashSet::new();
    let mut kept: Vec<String> = Vec::new();
    let mut i: usize = 0;
    while i < paths.len()
        invariant
            i <= paths.len(),
            all == string_views(paths@),
            string_views(kept@) == distinct_paths(all.take(i as int)),
            forall|p: Seq<char>| seen@.contains(p) <==> all.take(i as int).contains(p),
        decreases paths.len() - i,
    {
        let ghost front = all.take(i as int);
        let ghost before = string_views(kept@);
        proof {
            assert(all.take(i + 1).drop_last() =~= front);
            assert(all.take(i + 1).last() == paths@[i as int]@);
        }
        let fresh = seen.insert(paths[i].clone());
        if fresh {
            kept.push(paths[i].clone());
            assert(string_views(kept@) =~= before.push(paths@[i as int]@));
        }
        proof {
            assert forall|p: Seq<char>| seen@.contains(p) <==> all.take(i + 1).contains(p) by {
                let next = all.take(i + 1);
                if front.contains(p) {
                    let j = choose|j: int| 0 <= j < front.len() && front[j] == p;
                    assert(next[j] == p);
                }
                if p == paths@[i as int]@ {
                    assert(next[i as int] == p);
                }
                if next.contains(p) {
                    let j = choose|j: int| 0 <= j < next.len() && next[j] == p;
                    if j < i {
                        assert(front[j] == p);
                    }
                }
            }
        }
        i += 1;
    }
    proof {
        assert(all.take(paths.len() as int) =~= all);
        lemma_distinct_paths(all);
    }
    kept
}

/// Scans a list of candidate files against a rule set. The rules are
/// compiled once; a file whose path stands earlier in the list is passed
/// over, and every other file is judged on its own. The detections come
/// back in the order of the files, at most one per path.
pub fn scan_paths(files: &Vec<FileEntry>, rules: Vec<SignatureEntry>, options: ScanOptions) -> (found:
    Vec<Detection>)
    ensures
        detection_views(found@) == scan_all(
            file_views(files@),
            compile_all(entry_views(rules@)),
            options@,
        ),
        forall|a: int, b: int|
            0 <= a < b < found@.len() ==> #[trigger] found@[a]@.path != #[trigger] found@[b]@.path,
        found@.len() <= files@.len(),
{
    let db = SignatureDb::load(rules);
    let ghost all = file_views(files@);
    let mut seen = StringHashSet::new();
    let mut found: Vec<Detection> = Vec::new();
    let mut i: usize = 0;
    while i < files.len()
        invariant
            i <= files.len(),
            all == file_views(files@),
            detection_views(found@) == scan_all(all.take(i as int), db@, options@),
            forall|p: Seq<char>| seen@.contains(p) <==> path_seen(all.take(i as int), p),
        decreases files.len() - i,
    {
        let ghost front = all.take(i as int);
        let ghost before = detection_views(found@);
        proof {
            assert(all.take(i + 1).drop_last() =~= front);
            assert(all.take(i + 1).last() == files@[i as int]@);
        }
        let fresh = seen.insert(files[i].path.clone());
        if fresh {
            match scan_file(&files[i], &db, &options) {
                Some(d) => {
                    found.push(d);
                    assert(detection_views(found@) =~= before.push(d@));
                },
                None => {},
            }
        }
        proof {
            assert forall|p: Seq<char>| seen@.contains(p) <==> path_seen(all.take(i + 1), p) by {
                let next = all.take(i + 1);
                if path_seen(front, p) {
                    let j = choose|j: int| 0 <= j < front.len() && front[j].path == p;
                    assert(next[j].path == p);
                }
                if p == files@[i as int].path@ {
                    assert(next[i as int].path == p);
                }
                if path_seen(next, p) {
                    let j = choose|j: int| 0 <= j < next.len() && next[j].path == p;
                    if j < i {
                        assert(front[j].path == p);
                    }
                }
            }
        }
        i += 1;
    }
    proof {
        assert(all.take(files.len() as int) =~= all);
        lemma_one_detection_per_path(all, db@, options@);
        lemma_detections_stem_from_candidates(all, db@, options@);
        assert forall|a: int, b: int| 0 <= a < b < found@.len() implies #[trigger] found@[a]@.path
            != #[trigger] found@[b]@.path by {
            assert(detection_views(found@)[a] == found@[a]@);
            assert(detection_views(found@)[b] == found@[b]@);
        }
        assert(detection_views(found@).len() == found@.len());
    }
    found
}

/// A candidate file whose decoded content some rule matches is reported
/// exactly once: as a signature detection of the first such rule, with the
/// signature severity and the digest of the file's bytes.
pub proof fn lemma_signature_match_reported(
    file: FileView,
    rules: Seq<RuleView>,
    options: OptionsView,
    i: int,
)
    requires
        is_candidate(file, options),
        0 <= i < rules.len(),
        rules[i].language.contains(utf8_lossy(file.content)),
    ensures
        scan_all(seq![file], rules, options).len() == 1,
        ({
            let d = scan_all(seq![file], rules, options)[0];
            &&& d.path == file.path
            &&& d.kind is Signature
            &&& d.severity == SIGNATURE_SEVERITY
            &&& d.sha256 == Some(sha256_hex(file.content))
            &&& exists|k: int|
                is_first_match(rules, utf8_lossy(file.content), k) && d == signature_detection(
                    file.path,
                    rules[k],
                    file.content,
                )
        }),
{
    reveal_with_fuel(scan_all, 2);
    lemma_match_has_first(rules, utf8_lossy(file.content), i);
    assert(seq![file].last() == file);
    assert(seq![file].drop_last() =~= Seq::<FileView>::empty());
    assert(!path_seen(seq![file].drop_last(), file.path));
}

/// A candidate file that no rule matches and whose lower-cased content holds
/// an indicator is, with heuristics enabled, reported exactly once: as the
/// heuristic detection, with the heuristic severity and no digest.
pub proof fn lemma_heuristic_hit_reported(file: FileView, rules: Seq<RuleView>, options: OptionsView)
    requires
        is_candidate(file, options),
        options.enable_heuristics,
        forall|i: int| 0 <= i < rules.len() ==> !rules[i].language.contains(utf8_lossy(file.content)),
        has_indicator(lowercase(utf8_lossy(file.content))),
    ensures
        scan_all(seq![file], rules, options) == seq![heuristic_detection(file.path)],
        heuristic_detection(file.path).kind is Heuristic,
        heuristic_detection(file.path).severity == 6,
        heuristic_detection(file.path).sha256 is None,
{
    reveal_with_fuel(scan_all, 2);
    lemma_no_match_no_first(rules, utf8_lossy(file.content));
    assert(seq![file].last() == file);
    assert(seq![file].drop_last() =~= Seq::<FileView>::empty());
    assert(!path_seen(seq![file].drop_last(), file.path));
    assert(scan_all(seq![file], rules, options) =~= seq![heuristic_detection(file.path)]);
}

/// The paths of a list without its repeats: no path twice, the same paths
/// as the list, and no more of them than the list has.
pub proof fn lemma_distinct_paths(paths: Seq<Seq<char>>)
    ensures
        no_path_twice(distinct_paths(paths)),
        forall|p: Seq<char>| distinct_paths(paths).contains(p) <==> paths.contains(p),
        distinct_paths(paths).len() <= paths.len(),
    decreases paths.len(),
{
    if paths.len() > 0 {
        let front = paths.drop_last();
        let rest = distinct_paths(front);
        let kept = distinct_paths(paths);
        lemma_distinct_paths(front);
        assert forall|p: Seq<char>| kept.contains(p) <==> paths.contains(p) by {
            if kept.contains(p) {
                let k = choose|k: int| 0 <= k < kept.len() && kept[k] == p;
                if k < rest.len() {
                    assert(rest[k] == p);
                    assert(rest.contains(p));
                    assert(front.contains(p));
                    let j = choose|j: int| 0 <= j < front.len() && front[j] == p;
                    assert(paths[j] == p);
                } else {
                    assert(paths[paths.len() - 1] == p);
                }
            }
            if paths.contains(p) {
                let j = choose|j: int| 0 <= j < paths.len() && paths[j] == p;
                if j < front.len() {
                    assert(front[j] == p);
                    assert(front.contains(p));
                    assert(rest.contains(p));
                    let k = choose|k: int| 0 <= k < rest.len() && rest[k] == p;
                    assert(kept[k] == p);
                } else if front.contains(p) {
                    assert(rest.contains(p));
                    let k = choose|k: int| 0 <= k < rest.len() && rest[k] == p;
                    assert(kept[k] == p);
                } else {
                    assert(kept[kept.len() - 1] == p);
                }
            }
        }
        assert forall|a: int, b: int| 0 <= a < b < kept.len() implies kept[a] != kept[b] by {
            if b < rest.len() {
                assert(kept[a] == rest[a] && kept[b] == rest[b]);
            } else {
                assert(rest[a] == kept[a]);
                assert(rest.contains(kept[a]));
                assert(front.contains(kept[a]));
            }
        }
    }
}

/// A list that holds no path twice is left as it is.
pub proof fn lemma_distinct_paths_keeps_distinct(paths: Seq<Seq<char>>)
    requires
        no_path_twice(paths),
    ensures
        distinct_paths(paths) == paths,
    decreases paths.len(),
{
    if paths.len() > 0 {
        let front = paths.drop_last();
        assert(no_path_twice(front)) by {
            assert forall|a: int, b: int| 0 <= a < b < front.len() implies front[a] != front[b] by {
                assert(front[a] == paths[a] && front[b] == paths[b]);
            }
        }
        lemma_distinct_paths_keeps_distinct(front);
        if front.contains(paths.last()) {
            let j = choose|j: int| 0 <= j < front.len() && front[j] == paths.last();
            assert(paths[j] == paths[paths.len() - 1]);
        }
        assert(front.push(paths.last()) =~= paths);
    }
}

/// A detection lies at the path of the file that yields it.
pub proof fn lemma_outcome_path(file: FileView, rules: Seq<RuleView>, options: OptionsView)
    ensures
        file_outcome(file, rules, options) matches Some(d) ==> d.path == file.path,
{
}

/// Every file of a scan that yields a detection, and whose path does not
/// stand earlier in the list, has it reported.
pub proof fn lemma_every_outcome_reported(
    files: Seq<FileView>,
    rules: Seq<RuleView>,
    options: OptionsView,
    i: int,
)
    requires
        0 <= i < files.len(),
        !path_seen(files.take(i), files[i].path),
        file_outcome(files[i], rules, options) is Some,
    ensures
        scan_all(files, rules, options).contains(file_outcome(files[i], rules, options)->0),
    decreases files.len(),
{
    let found = scan_all(files, rules, options);
    let front = files.drop_last();
    let before = scan_all(front, rules, options);
    if i == files.len() - 1 {
        assert(files.take(i) =~= front);
        assert(found == before.push(file_outcome(files[i], rules, options)->0));
        assert(found[found.len() - 1] == file_outcome(files[i], rules, options)->0);
    } else {
        assert(front.take(i) =~= files.take(i));
        assert(front[i] == files[i]);
        lemma_every_outcome_reported(front, rules, options, i);
        let d = file_outcome(files[i], rules, options)->0;
        let k = choose|k: int| 0 <= k < before.len() && before[k] == d;
        assert(found[k] == d);
    }
}

/// The severity of every reported detection lies in the range from 0 to 10.
pub proof fn lemma_severity_in_range(file: FileView, rules: Seq<RuleView>, options: OptionsView)
    ensures
        file_outcome(file, rules, options) matches Some(d) ==> d.valid(),
{
}

/// A file over the size limit, or one that the extension filter excludes,
/// yields nothing, whatever it holds, and changes nothing in what the other
/// files of a scan yield.
pub proof fn lemma_excluded_file_unseen(
    files: Seq<FileView>,
    file: FileView,
    rules: Seq<RuleView>,
    options: OptionsView,
)
    requires
        file.size > options.max_file_size_bytes || !extension_passes(
            file.extension,
            options.include_extensions,
        ),
    ensures
        file_outcome(file, rules, options) is None,
        scan_all(files.push(file), rules, options) == scan_all(files, rules, options),
{
    assert(files.push(file).drop_last() =~= files);
    assert(files.push(file).last() == file);
}

/// A file whose path stands in the list already adds nothing to the scan,
/// whatever it holds: a path that two roots reach is scanned once.
pub proof fn lemma_repeated_path_unseen(
    files: Seq<FileView>,
    file: FileView,
    rules: Seq<RuleView>,
    options: OptionsView,
)
    requires
        path_seen(files, file.path),
    ensures
        scan_all(files.push(file), rules, options) == scan_all(files, rules, options),
{
    assert(files.push(file).drop_last() =~= files);
    assert(files.push(file).last() == file);
}

/// Every detection of a scan stems from a file of the scan that passed the
/// filter and the size guard and whose path does not stand earlier in the
/// list, and no scan reports more detections than it was given files.
pub proof fn lemma_detections_stem_from_candidates(
    files: Seq<FileView>,
    rules: Seq<RuleView>,
    options: OptionsView,
)
    ensures
        scan_all(files, rules, options).len() <= files.len(),
        forall|k: int|
            0 <= k < scan_all(files, rules, options).len() ==> exists|i: int|
                0 <= i < files.len() && !path_seen(files.take(i), files[i].path) && is_candidate(
                    files[i],
                    options,
                ) && file_outcome(files[i], rules, options) == Some(
                    #[trigger] scan_all(files, rules, options)[k],
                ),
    decreases files.len(),
{
    if files.len() > 0 {
        let front = files.drop_last();
        lemma_detections_stem_from_candidates(front, rules, options);
        let found = scan_all(files, rules, options);
        assert forall|k: int| 0 <= k < found.len() implies exists|i: int|
            0 <= i < files.len() && !path_seen(files.take(i), files[i].path) && is_candidate(
                files[i],
                options,
            ) && file_outcome(files[i], rules, options) == Some(#[trigger] found[k]) by {
            let before = scan_all(front, rules, options);
            if k < before.len() {
                assert(found[k] == before[k]);
                let i = choose|i: int|
                    0 <= i < front.len() && !path_seen(front.take(i), front[i].path)
                        && is_candidate(front[i], options) && file_outcome(
                        front[i],
                        rules,
                        options,
                    ) == Some(before[k]);
                assert(files[i] == front[i]);
                assert(files.take(i) =~= front.take(i));
            } else {
                let i = files.len() - 1;
                assert(files.take(i) =~= front);
                assert(file_outcome(files[i], rules, options) == Some(found[k]));
            }
        }
    }
}

/// No two detections of a scan lie at the same path: a file yields at most
/// one detection per scan, however often its path stands in the list.
pub proof fn lemma_one_detection_per_path(
    files: Seq<FileView>,
    rules: Seq<RuleView>,
    options: OptionsView,
)
    ensures
        forall|a: int, b: int|
            0 <= a < b < scan_all(files, rules, options).len() ==> #[trigger] scan_all(
                files,
                rules,
                options,
            )[a].path != #[trigger] scan_all(files, rules, options)[b].path,
    decreases files.len(),
{
    if files.len() > 0 {
        let front = files.drop_last();
        let before = scan_all(front, rules, options);
        let found = scan_all(files, rules, options);
        lemma_one_detection_per_path(front, rules, options);
        lemma_detections_stem_from_candidates(front, rules, options);
        assert forall|a: int, b: int| 0 <= a < b < found.len() implies #[trigger] found[a].path
            != #[trigger] found[b].path by {
            if b < before.len() {
                assert(found[a] == before[a] && found[b] == before[b]);
            } else {
                assert(found[a] == before[a]);
                let i = choose|i: int|
                    0 <= i < front.len() && !path_seen(front.take(i), front[i].path)
                        && is_candidate(front[i], options) && file_outcome(
                        front[i],
                        rules,
                        options,
                    ) == Some(before[a]);
                lemma_outcome_path(front[i], rules, options);
                assert(path_seen(front, before[a].path));
                lemma_outcome_path(files.last(), rules, options);
            }
        }
    }
}

} // verus!
