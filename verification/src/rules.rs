//! The signature rule set: named, family-tagged patterns compiled once into
//! case-insensitive matchers and tried in their given order.

use vstd::prelude::*;
use regex::Regex;

verus! {

/// A compiled regular expression of the `regex` crate.
#[verifier::external_type_specification]
#[verifier::external_body]
pub struct ExRegex(regex::Regex);

/// Why the `regex` crate refused a pattern.
#[verifier::external_type_specification]
#[verifier::external_body]
pub struct ExRegexError(regex::Error);

/// The set of haystacks in which a compiled regex finds a match.
pub uninterp spec fn regex_language(re: Regex) -> Set<Seq<char>>;

/// What compiling a pattern gives: nothing where the pattern is rejected,
/// else the language of the compiled regex.
pub uninterp spec fn compiled_language(pattern: Seq<char>) -> Option<Set<Seq<char>>>;

/// Trusted: `regex::Regex::new` compiles a pattern with the default options.
/// Whether it succeeds, and what the compiled regex then matches, depends on
/// the pattern text alone.
pub assume_specification[ Regex::new ](re: &str) -> (r: Result<Regex, regex::Error>)
    ensures
        match r {
            Ok(compiled) => compiled_language(re@) == Some(regex_language(compiled)),
            Err(_) => compiled_language(re@) is None,
        },
;

/// Trusted: `regex::Regex::is_match` says whether the regex matches anywhere
/// in the haystack; the answer depends on the regex and the haystack alone.
pub assume_specification[ Regex::is_match ](re: &Regex, haystack: &str) -> (b: bool)
    ensures
        b == regex_language(*re).contains(haystack@),
;

/// One record of a rule set, as loaded: a name, a family tag and the pattern
/// text.
pub struct SignatureEntry {
    pub name: String,
    pub family: String,
    pub pattern: String,
}

pub struct EntryView {
    pub name: Seq<char>,
    pub family: Seq<char>,
    pub pattern: Seq<char>,
}

impl View for SignatureEntry {
    type V = EntryView;

    open spec fn view(&self) -> EntryView {
        EntryView { name: self.name@, family: self.family@, pattern: self.pattern@ }
    }
}

/// A rule of the active set: its name, its family and the contents it
/// matches.
pub struct RuleView {
    pub name: Seq<char>,
    pub family: Seq<char>,
    pub language: Set<Seq<char>>,
}

/// A compiled rule.
pub struct CompiledRule {
    name: String,
    family: String,
    matcher: Regex,
}

impl View for CompiledRule {
    type V = RuleView;

    closed spec fn view(&self) -> RuleView {
        RuleView {
            name: self.name@,
            family: self.family@,
            language: regex_language(self.matcher),
        }
    }
}

/// The active rule set, in match-precedence order.
pub struct SignatureDb {
    patterns: Vec<CompiledRule>,
}

impl View for SignatureDb {
    type V = Seq<RuleView>;

    closed spec fn view(&self) -> Seq<RuleView> {
        Seq::new(self.patterns@.len(), |i: int| self.patterns@[i]@)
    }
}

/// The pattern text as it is compiled: matched without regard to case.
pub open spec fn case_insensitive(pattern: Seq<char>) -> Seq<char> {
    "(?i)"@ + pattern
}

/// The compiled form of one entry, or nothing where its pattern is rejected.
pub open spec fn compile_entry(e: EntryView) -> Option<RuleView> {
    match compiled_language(case_insensitive(e.pattern)) {
        Some(language) => Some(RuleView { name: e.name, family: e.family, language }),
        None => None,
    }
}

/// The active set of a list of entries: those whose pattern compiles, in the
/// order of the list.
pub open spec fn compile_all(entries: Seq<EntryView>) -> Seq<RuleView>
    decreases entries.len(),
{
    if entries.len() == 0 {
        Seq::empty()
    } else {
        let rest = compile_all(entries.drop_last());
        match compile_entry(entries.last()) {
            Some(rule) => rest.push(rule),
            None => rest,
        }
    }
}

/// The views of a list of entries.
pub open spec fn entry_views(entries: Seq<SignatureEntry>) -> Seq<EntryView> {
    Seq::new(entries.len(), |i: int| entries[i]@)
}

/// `i` is the first rule, in order, that matches `content`.
pub open spec fn is_first_match(rules: Seq<RuleView>, content: Seq<char>, i: int) -> bool {
    &&& 0 <= i < rules.len()
    &&& rules[i].language.contains(content)
    &&& forall|j: int| 0 <= j < i ==> !rules[j].language.contains(content)
}

/// The index of the rule that wins for `content`, if any rule matches.
pub open spec fn first_match(rules: Seq<RuleView>, content: Seq<char>) -> Option<int> {
    if exists|i: int| is_first_match(rules, content, i) {
        Some(choose|i: int| is_first_match(rules, content, i))
    } else {
        None
    }
}

/// At most one index is the first match.
pub proof fn lemma_first_match_unique(rules: Seq<RuleView>, content: Seq<char>, i: int, j: int)
    requires
        is_first_match(rules, content, i),
        is_first_match(rules, content, j),
    ensures
        i == j,
{
}

/// Where some rule matches, some rule is the first to match.
pub proof fn lemma_match_has_first(rules: Seq<RuleView>, content: Seq<char>, i: int)
    requires
        0 <= i < rules.len(),
        rules[i].language.contains(content),
    ensures
        first_match(rules, content) is Some,
        is_first_match(rules, content, first_match(rules, content)->0),
        first_match(rules, content)->0 <= i,
    decreases i,
{
    if exists|j: int| 0 <= j < i && rules[j].language.contains(content) {
        let j = choose|j: int| 0 <= j < i && rules[j].language.contains(content);
        lemma_match_has_first(rules, content, j);
    } else {
        assert(is_first_match(rules, content, i));
        let w = choose|k: int| is_first_match(rules, content, k);
        lemma_first_match_unique(rules, content, i, w);
    }
}

/// Where no rule matches, there is no first match.
pub proof fn lemma_no_match_no_first(rules: Seq<RuleView>, content: Seq<char>)
    requires
        forall|i: int| 0 <= i < rules.len() ==> !rules[i].language.contains(content),
    ensures
        first_match(rules, content) is None,
{
}

impl SignatureDb {
    /// Compiles a rule set. Each pattern is compiled as a case-insensitive
    /// matcher; an entry whose pattern does not compile is left out, and the
    /// others keep their order.
    pub fn load(entries: Vec<SignatureEntry>) -> (db: SignatureDb)
        ensures
            db@ == compile_all(entry_views(entries@)),
    {
        let mut patterns: Vec<CompiledRule> = Vec::new();
        let ghost all = entry_views(entries@);
        let mut i: usize = 0;
        while i < entries.len()
            invariant
                i <= entries.len(),
                all == entry_views(entries@),
                Seq::new(patterns@.len(), |k: int| patterns@[k]@) == compile_all(all.take(i as int)),
            decreases entries.len() - i,
        {
            let entry = &entries[i];
            let mut source = "(?i)".to_owned();
            source.append(entry.pattern.as_str());
            proof {
                assert(all.take(i + 1).drop_last() =~= all.take(i as int));
                assert(all.take(i + 1).last() == entry@);
            }
            match Regex::new(source.as_str()) {
                Ok(matcher) => {
                    let rule = CompiledRule {
                        name: entry.name.clone(),
                        family: entry.family.clone(),
                        matcher,
                    };
                    let ghost before = Seq::new(patterns@.len(), |k: int| patterns@[k]@);
                    patterns.push(rule);
                    assert(Seq::new(patterns@.len(), |k: int| patterns@[k]@) =~= before.push(
                        rule@,
                    ));
                },
                Err(_) => {},
            }
            i += 1;
        }
        assert(all.take(entries.len() as int) =~= all);
        SignatureDb { patterns }
    }

    /// The number of rules in the active set.
    pub fn len(&self) -> (n: usize)
        ensures
            n == self@.len(),
    {
        self.patterns.len()
    }

    /// Tries the rules in order against `content` and returns the index of
    /// the first that matches.
    pub fn first_match(&self, content: &str) -> (r: Option<usize>)
        ensures
            match r {
                Some(i) => first_match(self@, content@) == Some(i as int),
                None => first_match(self@, content@) is None,
            },
    {
        let mut i: usize = 0;
        while i < self.patterns.len()
            invariant
                i <= self.patterns.len(),
                forall|j: int| 0 <= j < i ==> !self@[j].language.contains(content@),
            decreases self.patterns.len() - i,
        {
            if self.patterns[i].matcher.is_match(content) {
                assert(is_first_match(self@, content@, i as int));
                return Some(i);
            }
            i += 1;
        }
        None
    }

    /// The name of rule `i`.
    pub fn name(&self, i: usize) -> (s: &String)
        requires
            i < self@.len(),
        ensures
            s@ == self@[i as int].name,
    {
        &self.patterns[i].name
    }

    /// The family of rule `i`.
    pub fn family(&self, i: usize) -> (s: &String)
        requires
            i < self@.len(),
        ensures
            s@ == self@[i as int].family,
    {
        &self.patterns[i].family
    }
}

} // verus!
