//! The quarantine store's naming rules: an entry is identified by the digest
//! of its content and stored under a name derived from nothing else.

use vstd::prelude::*;
use crate::digest::compute_sha256;
use crate::digest::is_hex_text;
use crate::digest::sha256_hex;

verus! {

/// The directory of the store below the application's data root.
pub open spec fn quarantine_dir_name() -> Seq<char> {
    "quarantine"@
}

/// The directory of the application below the platform's data directory.
pub open spec fn app_dir_name() -> Seq<char> {
    "whereitbelongs"@
}

/// The file name of the entry with the given digest.
pub open spec fn entry_file_name(digest: Seq<char>) -> Seq<char> {
    digest + ".qf"@
}

/// The file name under which content is quarantined.
pub open spec fn quarantine_name(content: Seq<u8>) -> Seq<char> {
    entry_file_name(sha256_hex(content))
}

/// The name of the store's directory below the data root.
pub fn quarantine_dir() -> (name: &'static str)
    ensures
        name@ == quarantine_dir_name(),
{
    "quarantine"
}

/// The name of the application's directory below a base directory.
pub fn app_dir() -> (name: &'static str)
    ensures
        name@ == app_dir_name(),
{
    "whereitbelongs"
}

/// An entry of the store. Its identity is the hexadecimal SHA-256 digest of
/// its content: neither the path it came from nor the time of isolation is part
/// of it.
#[derive(Debug)]
pub struct QuarantineEntry {
    digest: String,
}

impl View for QuarantineEntry {
    type V = Seq<char>;

    closed spec fn view(&self) -> Seq<char> {
        self.digest@
    }
}

impl QuarantineEntry {
    /// A digest is 64 lowercase hexadecimal digits.
    #[verifier::type_invariant]
    spec fn well_formed(self) -> bool {
        self.digest@.len() == 64 && is_hex_text(self.digest@)
    }

    /// The entry that holds `content`.
    pub fn of_content(content: &[u8]) -> (entry: QuarantineEntry)
        ensures
            entry@ == sha256_hex(content@),
    {
        QuarantineEntry { digest: compute_sha256(content) }
    }

    /// The digest that identifies the entry: 64 lowercase hexadecimal
    /// digits.
    pub fn digest(&self) -> (d: &String)
        ensures
            d@ == self@,
            d@.len() == 64,
            is_hex_text(d@),
    {
        proof {
            use_type_invariant(self);
        }
        &self.digest
    }

    /// The name of the entry's file in the quarantine directory: the digest
    /// followed by `.qf`.
    pub fn file_name(&self) -> (name: String)
        ensures
            name@ == entry_file_name(self@),
            name@.len() == 67,
    {
        proof {
            use_type_invariant(self);
            reveal_strlit(".qf");
        }
        let mut name = self.digest.clone();
        name.append(".qf");
        name
    }
}

/// The name of the file that isolating `content` writes. Content with the
/// same bytes always goes to the same name.
pub fn quarantine_file_name(content: &[u8]) -> (name: String)
    ensures
        name@ == quarantine_name(content@),
{
    QuarantineEntry::of_content(content).file_name()
}

/// The names of the files in the store once `content` is isolated into a
/// store that held the files `names`.
pub open spec fn names_after_isolate(names: Set<Seq<char>>, content: Seq<u8>) -> Set<Seq<char>> {
    names.insert(quarantine_name(content))
}

/// Isolating equal content twice names the same file, so the store holds one
/// entry for it: after the first isolation the entry is there, and the
/// second leaves the store's files as they are.
pub proof fn lemma_equal_content_one_entry(names: Set<Seq<char>>, first: Seq<u8>, second: Seq<u8>)
    requires
        first == second,
    ensures
        quarantine_name(first) == quarantine_name(second),
        names_after_isolate(names, first).contains(quarantine_name(first)),
        names_after_isolate(names_after_isolate(names, first), second) == names_after_isolate(
            names,
            first,
        ),
{
    assert(names.insert(quarantine_name(first)).insert(quarantine_name(first)) =~= names.insert(
        quarantine_name(first),
    ));
}

/// An entry's file name tells its digest: entries with the same file name
/// are the same entry.
pub proof fn lemma_file_name_tells_digest(a: Seq<char>, b: Seq<char>)
    requires
        entry_file_name(a) == entry_file_name(b),
    ensures
        a == b,
{
    let suffix = ".qf"@;
    assert(a.len() == b.len()) by {
        assert(entry_file_name(a).len() == a.len() + suffix.len());
        assert(entry_file_name(b).len() == b.len() + suffix.len());
    }
    assert forall|i: int| 0 <= i < a.len() implies a[i] == b[i] by {
        assert(entry_file_name(a)[i] == a[i]);
        assert(entry_file_name(b)[i] == b[i]);
    }
    assert(a =~= b);
}

/// The steps of isolating a file, in the order in which they are taken.
#[derive(Debug, Clone, Copy, PartialEq, Eq, Structural)]
pub enum IsolateStep {
    /// Open the source file and read all of it.
    ReadSource,
    /// Make sure that the quarantine directory exists.
    EnsureDirectory,
    /// Write the bytes to the entry's file.
    WriteEntry,
    /// Delete the source file.
    RemoveSource,
}

/// How an isolation goes on after one of its steps.
#[derive(Debug, Clone, Copy, PartialEq, Eq, Structural)]
pub enum IsolateNext {
    /// Take this step next.
    Step(IsolateStep),
    /// The file is isolated: the entry's path is the result.
    Succeeded,
    /// The isolation failed at this step, with that step's error.
    Failed(IsolateStep),
}

/// What follows a step that succeeded or failed. A failure to read the
/// source, to make the directory or to write the entry fails the isolation.
/// Once the entry is written the isolation succeeds, whether or not the
/// source could be deleted.
pub open spec fn isolate_next(step: IsolateStep, succeeded: bool) -> IsolateNext {
    match step {
        IsolateStep::ReadSource => if succeeded {
            IsolateNext::Step(IsolateStep::EnsureDirectory)
        } else {
            IsolateNext::Failed(IsolateStep::ReadSource)
        },
        IsolateStep::EnsureDirectory => if succeeded {
            IsolateNext::Step(IsolateStep::WriteEntry)
        } else {
            IsolateNext::Failed(IsolateStep::EnsureDirectory)
        },
        IsolateStep::WriteEntry => if succeeded {
            IsolateNext::Step(IsolateStep::RemoveSource)
        } else {
            IsolateNext::Failed(IsolateStep::WriteEntry)
        },
        IsolateStep::RemoveSource => IsolateNext::Succeeded,
    }
}

/// The first step of an isolation.
pub fn first_isolate_step() -> (step: IsolateStep)
    ensures
        step == IsolateStep::ReadSource,
{
    IsolateStep::ReadSource
}

/// What follows the step `step`, given whether it succeeded.
pub fn after_isolate_step(step: IsolateStep, succeeded: bool) -> (next: IsolateNext)
    ensures
        next == isolate_next(step, succeeded),
{
    match step {
        IsolateStep::ReadSource => if succeeded {
            IsolateNext::Step(IsolateStep::EnsureDirectory)
        } else {
            IsolateNext::Failed(IsolateStep::ReadSource)
        },
        IsolateStep::EnsureDirectory => if succeeded {
            IsolateNext::Step(IsolateStep::WriteEntry)
        } else {
            IsolateNext::Failed(IsolateStep::EnsureDirectory)
        },
        IsolateStep::WriteEntry => if succeeded {
            IsolateNext::Step(IsolateStep::RemoveSource)
        } else {
            IsolateNext::Failed(IsolateStep::WriteEntry)
        },
        IsolateStep::RemoveSource => IsolateNext::Succeeded,
    }
}

/// An isolation never fails at the deletion of the source, and the source
/// is deleted only after the entry is written.
pub proof fn lemma_entry_written_before_source_removed(step: IsolateStep, succeeded: bool)
    ensures
        isolate_next(step, succeeded) != IsolateNext::Failed(IsolateStep::RemoveSource),
        isolate_next(step, succeeded) == IsolateNext::Step(IsolateStep::RemoveSource) ==> step
            == IsolateStep::WriteEntry && succeeded,
        isolate_next(step, succeeded) == IsolateNext::Succeeded ==> step
            == IsolateStep::RemoveSource,
{
}

/// One item of a directory listing.
#[derive(Debug, Clone)]
pub struct DirItem {
    pub path: String,
    /// Whether the item is a regular file.
    pub is_file: bool,
}

/// The paths of the regular files of a listing, in the listing's order.
pub open spec fn files_of(items: Seq<DirItem>) -> Seq<Seq<char>>
    decreases items.len(),
{
    if items.len() == 0 {
        Seq::empty()
    } else {
        let rest = files_of(items.drop_last());
        if items.last().is_file {
            rest.push(items.last().path@)
        } else {
            rest
        }
    }
}

/// The quarantined files among the items found directly in the quarantine
/// directory: the regular files, not the subdirectories. A directory that
/// does not exist yet (no listing) holds nothing.
pub fn list_quarantined(listing: &Option<Vec<DirItem>>) -> (paths: Vec<String>)
    ensures
        crate::text::string_views(paths@) == match *listing {
            Some(items) => files_of(items@),
            None => Seq::empty(),
        },
{
    let mut paths: Vec<String> = Vec::new();
    match listing {
        None => {
            assert(crate::text::string_views(paths@) =~= Seq::empty());
        },
        Some(items) => {
            let mut i: usize = 0;
            assert(crate::text::string_views(paths@) =~= files_of(items@.take(0)));
            while i < items.len()
                invariant
                    i <= items.len(),
                    crate::text::string_views(paths@) == files_of(items@.take(i as int)),
                decreases items.len() - i,
            {
                proof {
                    assert(items@.take(i + 1).drop_last() =~= items@.take(i as int));
                }
                if items[i].is_file {
                    let ghost before = crate::text::string_views(paths@);
                    paths.push(items[i].path.clone());
                    assert(crate::text::string_views(paths@) =~= before.push(items@[i as int].path@));
                }
                i += 1;
            }
            assert(items@.take(items.len() as int) =~= items@);
        },
    }
    paths
}

/// Where the application's data root comes from.
#[derive(Debug, Clone)]
pub enum DataRoot {
    /// The configured directory, taken as it is.
    Configured(String),
    /// The application's own directory below the given base directory.
    Below(String),
}

pub enum DataRootView {
    Configured(Seq<char>),
    Below(Seq<char>),
}

impl View for DataRoot {
    type V = DataRootView;

    open spec fn view(&self) -> DataRootView {
        match self {
            DataRoot::Configured(p) => DataRootView::Configured(p@),
            DataRoot::Below(p) => DataRootView::Below(p@),
        }
    }
}

/// Chooses the application's data root. A configured directory overrides
/// everything and is used as it is; else the root is the application's
/// directory below the platform's data directory, or below the temporary
/// directory where the platform names none.
pub fn app_data_dir(configured: Option<String>, data_dir: Option<String>, temp_dir: String) -> (root:
    DataRoot)
    ensures
        root@ == match configured {
            Some(p) => DataRootView::Configured(p@),
            None => match data_dir {
                Some(d) => DataRootView::Below(d@),
                None => DataRootView::Below(temp_dir@),
            },
        },
{
    match configured {
        Some(p) => DataRoot::Configured(p),
        None => match data_dir {
            Some(d) => DataRoot::Below(d),
            None => DataRoot::Below(temp_dir),
        },
    }
}

} // verus!
