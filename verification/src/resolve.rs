//! Finds a usable aria2 and a usable download directory.
use vstd::prelude::*;
use vstd::string::*;
use crate::aria2;
use crate::numbers;
use crate::platform;
use crate::platform::Os;
use crate::text;
use crate::unicode;

verus! {

/// What came of asking a candidate for its version.
#[derive(Debug)]
pub enum ProbeOutcome {
    /// There is no such file.
    NotAFile,
    /// The program ran: whether it succeeded, its exit status as text, and what
    /// it wrote.
    Exited { success: bool, status: String, stdout: Vec<u8>, stderr: Vec<u8> },
    /// The program could not be started.
    NotStarted { error: String },
}

/// Why a candidate is not usable; `None` where it is.
pub open spec fn candidate_error(
    path: Seq<char>,
    source: Seq<char>,
    outcome: ProbeOutcome,
) -> Option<Seq<char>> {
    match outcome {
        ProbeOutcome::NotAFile => Some(source + " candidate is not a file: "@ + path),
        ProbeOutcome::Exited { success, status, stdout, stderr } => if success {
            None
        } else {
            Some(
                "aria2c validation failed at "@ + path + ": "@ + aria2::diagnostic(
                    "exit="@ + status@ + "; stdout="@ + text::trimmed(
                        unicode::utf8_lossy(stdout@),
                    ) + "; stderr="@ + text::trimmed(unicode::utf8_lossy(stderr@)),
                ),
            )
        },
        ProbeOutcome::NotStarted { error } => Some(
            "aria2c failed to start at "@ + path + ": "@ + error@,
        ),
    }
}

/// Judges a candidate for aria2.
pub fn validate_aria2_candidate(path: &str, source: &str, outcome: &ProbeOutcome) -> (r: Result<
    (),
    String,
>)
    ensures
        match r {
            Ok(()) => candidate_error(path@, source@, *outcome) is None,
            Err(e) => candidate_error(path@, source@, *outcome) == Some(e@),
        },
{
    match outcome {
        ProbeOutcome::NotAFile => Err(text::concat3(source, " candidate is not a file: ", path)),
        ProbeOutcome::Exited { success, status, stdout, stderr } => {
            if *success {
                Ok(())
            } else {
                let shown = aria2::output_text(status.as_str(), stdout.as_slice(), stderr.as_slice());
                Err(text::concat4("aria2c validation failed at ", path, ": ", shown.as_str()))
            }
        },
        ProbeOutcome::NotStarted { error } => Err(
            text::concat4("aria2c failed to start at ", path, ": ", error.as_str()),
        ),
    }
}

/// Why no aria2 is usable.
#[derive(Debug)]
pub struct Aria2ResolutionError {
    pub message: String,
    pub diagnostics: Vec<String>,
}

/// Whether a candidate is usable.
pub open spec fn usable(outcome: ProbeOutcome) -> bool {
    outcome matches ProbeOutcome::Exited { success: true, .. }
}

/// The search for a usable aria2: the bundled candidates one after the other,
/// then the one on the search path.
#[derive(Debug)]
pub struct Aria2Search {
    bundled: usize,
    tried: usize,
    looked: bool,
    diagnostics: Vec<String>,
}

/// A search by its contents: the number of bundled candidates and of those that
/// were rejected, whether the search path was looked at, and why each candidate
/// so far was rejected.
pub struct SearchView {
    pub bundled: nat,
    pub tried: nat,
    pub looked: bool,
    pub diagnostics: Seq<Seq<char>>,
}

impl View for Aria2Search {
    type V = SearchView;

    closed spec fn view(&self) -> SearchView {
        SearchView {
            bundled: self.bundled as nat,
            tried: self.tried as nat,
            looked: self.looked,
            diagnostics: text::texts(self.diagnostics@),
        }
    }
}

/// What a search does next.
#[derive(Debug, Clone, Copy, PartialEq, Eq, Structural)]
pub enum SearchStep {
    /// The bundled candidate with the given number is tried.
    TryBundled(usize),
    /// The search path is looked at, and what is found there is tried.
    LookOnPath,
    /// Nothing is left to try.
    GiveUp,
}

/// A search that has tried nothing.
pub open spec fn fresh_search(bundled: nat) -> SearchView {
    SearchView { bundled, tried: 0, looked: false, diagnostics: Seq::empty() }
}

/// What a search does next: the bundled candidates come first, in their order,
/// then the search path, once.
pub open spec fn step_of(s: SearchView) -> SearchStep {
    if s.tried < s.bundled {
        SearchStep::TryBundled(s.tried as usize)
    } else if !s.looked {
        SearchStep::LookOnPath
    } else {
        SearchStep::GiveUp
    }
}

/// Where the candidate that is being tried comes from.
pub open spec fn source_of(s: SearchView) -> Seq<char> {
    if s.tried < s.bundled {
        "bundled sidecar"@
    } else {
        "system PATH"@
    }
}

/// The search after a candidate was rejected for the given reason.
pub open spec fn after_rejection(s: SearchView, error: Seq<char>) -> SearchView {
    SearchView {
        tried: if s.tried < s.bundled {
            s.tried + 1
        } else {
            s.tried
        },
        looked: s.looked || s.tried >= s.bundled,
        diagnostics: s.diagnostics.push(error),
        ..s
    }
}

/// The search after a candidate was tried: a usable one leaves it as it is.
pub open spec fn after_probe(s: SearchView, path: Seq<char>, outcome: ProbeOutcome) -> SearchView {
    match candidate_error(path, source_of(s), outcome) {
        None => s,
        Some(e) => after_rejection(s, e),
    }
}

impl Aria2Search {
    /// A search that has tried nothing, with the number of bundled candidates.
    pub fn new(bundled: usize) -> (r: Self)
        ensures
            r@ == fresh_search(bundled as nat),
    {
        let r = Aria2Search { bundled, tried: 0, looked: false, diagnostics: Vec::new() };
        assert(r@.diagnostics =~= Seq::empty());
        r
    }

    /// What is to be done next.
    pub fn next_step(&self) -> (r: SearchStep)
        ensures
            r == step_of(self@),
    {
        if self.tried < self.bundled {
            SearchStep::TryBundled(self.tried)
        } else if !self.looked {
            SearchStep::LookOnPath
        } else {
            SearchStep::GiveUp
        }
    }

    /// Takes in what came of the candidate that is due. Answers whether it is the
    /// one to use; if not, the reason is kept.
    pub fn probed(&mut self, path: &str, outcome: &ProbeOutcome) -> (r: bool)
        ensures
            r == usable(*outcome),
            final(self)@ == after_probe(old(self)@, path@, *outcome),
    {
        let from_bundle = self.tried < self.bundled;
        let source = if from_bundle {
            "bundled sidecar"
        } else {
            "system PATH"
        };
        match validate_aria2_candidate(path, source, outcome) {
            Ok(()) => true,
            Err(e) => {
                text::push_text(&mut self.diagnostics, e.as_str());
                if from_bundle {
                    self.tried = self.tried + 1;
                } else {
                    self.looked = true;
                }
                false
            },
        }
    }

    /// Notes that the search path holds no aria2.
    pub fn not_on_path(&mut self, os: Os)
        ensures
            final(self)@ == (SearchView {
                looked: true,
                diagnostics: old(self)@.diagnostics.push(
                    platform::program_name(os, "aria2c"@) + " not found on PATH"@,
                ),
                ..old(self)@
            }),
    {
        let name = platform::aria2_binary_name(os);
        let e = text::concat2(name.as_str(), " not found on PATH");
        text::push_text(&mut self.diagnostics, e.as_str());
        self.looked = true;
    }

    /// Ends a search that found nothing.
    pub fn into_error(self, os: Os) -> (r: Aria2ResolutionError)
        ensures
            r.message@ == platform::program_name(os, "aria2c"@) + " not found or not usable."@,
            text::texts(r.diagnostics@) == self@.diagnostics,
    {
        let name = platform::aria2_binary_name(os);
        Aria2ResolutionError {
            message: text::concat2(name.as_str(), " not found or not usable."),
            diagnostics: self.diagnostics,
        }
    }
}

/// A search after it tried the given candidates: their paths and what came of
/// them.
pub open spec fn search_after(
    bundled: nat,
    probes: Seq<(Seq<char>, ProbeOutcome)>,
) -> SearchView
    decreases probes.len(),
{
    if probes.len() == 0 {
        fresh_search(bundled)
    } else {
        let (path, outcome) = probes.last();
        after_probe(search_after(bundled, probes.drop_last()), path, outcome)
    }
}

/// As long as no candidate is usable, every bundled one is tried once and in
/// order, then the search path is looked at once, and then the search gives up;
/// of each candidate one reason is kept.
pub proof fn lemma_search_goes_in_order(bundled: usize, probes: Seq<(Seq<char>, ProbeOutcome)>)
    requires
        probes.len() <= bundled + 1,
        forall|i: int| 0 <= i < probes.len() ==> !usable((#[trigger] probes[i]).1),
    ensures
        ({
            let s = search_after(bundled as nat, probes);
            &&& s.diagnostics.len() == probes.len()
            &&& step_of(s) == (if probes.len() < bundled {
                SearchStep::TryBundled(probes.len() as usize)
            } else if probes.len() == bundled {
                SearchStep::LookOnPath
            } else {
                SearchStep::GiveUp
            })
        }),
{
    lemma_search_counts(bundled as nat, probes);
}

proof fn lemma_search_counts(bundled: nat, probes: Seq<(Seq<char>, ProbeOutcome)>)
    requires
        probes.len() <= bundled + 1,
        forall|i: int| 0 <= i < probes.len() ==> !usable((#[trigger] probes[i]).1),
    ensures
        ({
            let s = search_after(bundled, probes);
            &&& s.bundled == bundled
            &&& s.tried == (if probes.len() < bundled {
                probes.len()
            } else {
                bundled
            })
            &&& s.looked == (probes.len() > bundled)
            &&& s.diagnostics.len() == probes.len()
        }),
    decreases probes.len(),
{
    if probes.len() > 0 {
        let before = probes.drop_last();
        assert forall|i: int| 0 <= i < before.len() implies !usable((#[trigger] before[i]).1) by {
            assert(before[i] == probes[i]);
        }
        lemma_search_counts(bundled, before);
        assert(!usable(probes[probes.len() - 1].1));
    }
}

/// A failed search on one line.
pub open spec fn missing_text(message: Seq<char>, diagnostics: Seq<Seq<char>>) -> Seq<char> {
    if diagnostics.len() == 0 {
        message
    } else {
        message + " Diagnostics: "@ + text::joined(diagnostics, " | "@)
    }
}

/// Tells on one line why no aria2 is usable.
pub fn missing_detail(error: &Aria2ResolutionError) -> (r: String)
    ensures
        r@ == missing_text(error.message@, text::texts(error.diagnostics@)),
{
    if error.diagnostics.len() == 0 {
        error.message.clone()
    } else {
        let all = text::join(&error.diagnostics, " | ");
        text::concat3(error.message.as_str(), " Diagnostics: ", all.as_str())
    }
}

/// What came of trying the download directory.
#[derive(Debug)]
pub enum DirProbe {
    NotADirectory,
    Writable,
    NotWritable(String),
}

/// The name of the file that is created to try whether a directory is writable.
pub fn write_test_name(now_ms: u128) -> (r: String)
    ensures
        r@ == ".aria2-manager-write-test-"@ + numbers::decimal(now_ms as nat),
{
    let stamp = numbers::wide_decimal_text(now_ms);
    text::concat2(".aria2-manager-write-test-", stamp.as_str())
}

/// Why a download directory is not usable; `None` where it is.
pub open spec fn dir_error(dir: Seq<char>, probe: DirProbe) -> Option<Seq<char>> {
    match probe {
        DirProbe::NotADirectory => Some("Download folder does not exist: "@ + dir),
        DirProbe::Writable => None,
        DirProbe::NotWritable(e) => Some("Download folder is not writable: "@ + e@),
    }
}

/// Judges a download directory.
pub fn validate_output_dir(dir: &str, probe: &DirProbe) -> (r: Result<(), String>)
    ensures
        match r {
            Ok(()) => dir_error(dir@, *probe) is None,
            Err(e) => dir_error(dir@, *probe) == Some(e@),
        },
{
    match probe {
        DirProbe::NotADirectory => Err(text::concat2("Download folder does not exist: ", dir)),
        DirProbe::Writable => Ok(()),
        DirProbe::NotWritable(e) => Err(
            text::concat2("Download folder is not writable: ", e.as_str()),
        ),
    }
}

/// A candidate is usable exactly if it ran and succeeded; otherwise the reason
/// names its path, and where there is no file also where it was looked for.
pub proof fn lemma_candidates(path: Seq<char>, source: Seq<char>, outcome: ProbeOutcome)
    ensures
        candidate_error(path, source, outcome) is None <==> (
        outcome matches ProbeOutcome::Exited { success, .. } && success),
        outcome is NotAFile ==> candidate_error(path, source, outcome) == Some(
            source + " candidate is not a file: "@ + path,
        ),
        outcome matches ProbeOutcome::NotStarted { error } ==> candidate_error(path, source, outcome)
            == Some("aria2c failed to start at "@ + path + ": "@ + error@),
        outcome matches ProbeOutcome::Exited { success, .. } ==> (!success ==> text::begins_with(
            candidate_error(path, source, outcome)->0,
            "aria2c validation failed at "@ + path + ": "@,
        )),
{
    if let ProbeOutcome::Exited { success, .. } = outcome {
        if !success {
            let t = candidate_error(path, source, outcome)->0;
            let head = "aria2c validation failed at "@ + path + ": "@;
            assert(t.subrange(0, head.len() as int) =~= head);
        }
    }
}

/// The reasons are kept in the order of the candidates, and a usable candidate
/// adds none; the bundled ones are told apart from the one on the search path.
pub proof fn lemma_reasons_are_kept(s: SearchView, path: Seq<char>, outcome: ProbeOutcome)
    ensures
        usable(outcome) ==> after_probe(s, path, outcome) == s,
        !usable(outcome) ==> {
            &&& after_probe(s, path, outcome).diagnostics.drop_last() == s.diagnostics
            &&& after_probe(s, path, outcome).diagnostics.last() == candidate_error(
                path,
                if s.tried < s.bundled {
                    "bundled sidecar"@
                } else {
                    "system PATH"@
                },
                outcome,
            )->0
        },
        after_probe(s, path, outcome).bundled == s.bundled,
        s.tried <= s.bundled ==> after_probe(s, path, outcome).tried <= s.bundled,
        s.tried < s.bundled ==> after_probe(s, path, outcome).looked == s.looked,
{
    if !usable(outcome) {
        assert(after_probe(s, path, outcome).diagnostics.drop_last() =~= s.diagnostics);
    }
}

/// A failed search is told with its message and, where there are any, all the
/// reasons behind it.
pub proof fn lemma_failed_search_is_told(message: Seq<char>, a: Seq<char>, b: Seq<char>)
    ensures
        missing_text(message, Seq::empty()) == message,
        missing_text(message, seq![a]) == message + " Diagnostics: "@ + a,
        missing_text(message, seq![a, b]) == message + " Diagnostics: "@ + (a + " | "@ + b),
{
    reveal_with_fuel(text::joined, 3);
    assert(seq![a, b].drop_last() =~= seq![a]);
}

/// A download directory is usable exactly if it is writable.
pub proof fn lemma_directories(dir: Seq<char>, probe: DirProbe)
    ensures
        dir_error(dir, probe) is None <==> probe is Writable,
        probe is NotADirectory ==> dir_error(dir, probe) == Some(
            "Download folder does not exist: "@ + dir,
        ),
        probe matches DirProbe::NotWritable(e) ==> dir_error(dir, probe) == Some(
            "Download folder is not writable: "@ + e@,
        ),
{
}

} // verus!
