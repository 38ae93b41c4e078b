use vstd::prelude::*;
use vstd::string::StrSliceExecFns;

use crate::content::{decode_content, decoded_text};
use crate::error::{GHError, NetworkFailure};
use crate::model::{
    or_zero, stats_of, QuotaFields, RateLimit, RepoInfo, RepoStats, RepoSummary, StatFields,
};

verus! {

/// The next call the analysis needs answered.
#[derive(Debug, Clone, Copy, PartialEq, Eq)]
pub enum Request {
    /// The quota-status endpoint.
    RateLimit,
    /// The repository resource.
    Repository,
    /// The repository's languages sub-resource.
    Languages,
    /// The contents sub-resource for the candidate file at this index.
    Contents(usize),
}

/// The envelope of a contents answer: the entry's declared type and, for a
/// file, its base64 text.
#[derive(Debug, Clone, PartialEq, Eq)]
pub struct Envelope {
    pub kind: String,
    pub content: Option<String>,
}

/// How far an analysis has come, with what it has gathered so far.
#[derive(Debug, Clone, PartialEq, Eq)]
pub enum Stage {
    Quota,
    Repository,
    Languages { repo: RepoInfo, stats: RepoStats },
    Files {
        repo: RepoInfo,
        stats: RepoStats,
        languages: Vec<(String, u32)>,
        content: Vec<(String, String)>,
        next: usize,
    },
}

/// An analysis of one repository under way. Each step consumes it, so once
/// it has finished or failed no further request can be made for it.
#[derive(Debug, Clone, PartialEq, Eq)]
pub struct Analysis {
    /// The repository, as "owner/name".
    pub repo_path: String,
    /// The files to look for at the repository's root, in order.
    pub candidates: Vec<String>,
    pub stage: Stage,
}

/// What a step leads to.
#[derive(Debug, Clone, PartialEq, Eq)]
pub enum Progress {
    Send(Analysis, Request),
    Done(RepoSummary),
    Failed(GHError),
}

/// The texts of a list of named texts.
pub open spec fn pairs_view(c: Seq<(String, String)>) -> Seq<(Seq<char>, Seq<char>)> {
    c.map_values(|p: (String, String)| (p.0@, p.1@))
}

/// The names that a list of names holds.
pub open spec fn names_view(c: Seq<String>) -> Seq<Seq<char>> {
    c.map_values(|s: String| s@)
}

/// The names under which texts are recorded.
pub open spec fn keys_of(c: Seq<(Seq<char>, Seq<char>)>) -> Seq<Seq<char>> {
    c.map_values(|p: (Seq<char>, Seq<char>)| p.0)
}

/// `names` with each name after its first occurrence left out.
pub open spec fn first_occurrences(names: Seq<Seq<char>>) -> Seq<Seq<char>>
    decreases names.len(),
{
    if names.len() == 0 {
        seq![]
    } else {
        let d = first_occurrences(names.drop_last());
        if d.contains(names.last()) {
            d
        } else {
            d.push(names.last())
        }
    }
}

/// The texts in `content` are recorded under distinct names, each one of the
/// first `next` candidates.
pub open spec fn found_before(
    candidates: Seq<Seq<char>>,
    content: Seq<(Seq<char>, Seq<char>)>,
    next: int,
) -> bool {
    &&& keys_of(content).no_duplicates()
    &&& forall|k: int|
        0 <= k < content.len() ==> candidates.subrange(0, next).contains(
            #[trigger] content[k].0,
        )
}

/// The language names of a list of byte counts.
pub open spec fn language_names(l: Seq<(String, u32)>) -> Seq<Seq<char>> {
    l.map_values(|p: (String, u32)| p.0@)
}

/// A finished summary names each language once and records each text under a
/// name of its own.
pub open spec fn done_keys_distinct(r: Progress) -> bool {
    match r {
        Progress::Done(s) => language_names(s.languages@).no_duplicates() && keys_of(
            pairs_view(s.content@),
        ).no_duplicates(),
        _ => true,
    }
}

/// The fixed list of files that an analysis looks for.
pub open spec fn default_candidate_names() -> Seq<Seq<char>> {
    seq![
        "README.md"@,
        "CONTRIBUTING.md"@,
        "LICENSE"@,
        "setup.py"@,
        "requirements.txt"@,
        "Cargo.toml"@,
        "package.json"@,
        "go.mod"@,
        "composer.json"@,
        "Gemfile"@,
    ]
}

impl Analysis {
    /// Candidates are distinct; while files are asked for, the texts found so
    /// far are for distinct candidates that came before the current one.
    pub open spec fn wf(self) -> bool {
        &&& names_view(self.candidates@).no_duplicates()
        &&& match self.stage {
            Stage::Files { languages, content, next, .. } => next < self.candidates@.len()
                && language_names(languages@).no_duplicates() && found_before(
                names_view(self.candidates@),
                pairs_view(content@),
                next as int,
            ),
            _ => true,
        }
    }

    /// The same analysis at another stage.
    pub open spec fn at(self, stage: Stage) -> Analysis {
        Analysis { repo_path: self.repo_path, candidates: self.candidates, stage }
    }
}

/// A success status, as the languages call accepts it.
pub open spec fn is_success(status: u16) -> bool {
    200 <= status <= 299
}

/// After the quota answer.
pub open spec fn quota_step(a: Analysis, status: u16, body: Option<QuotaFields>, r: Progress) -> bool {
    if status == 200 {
        match body {
            None => r == Progress::Failed(GHError::NetworkError(NetworkFailure::Malformed)),
            Some(q) => if or_zero(q.remaining) == 0 {
                r == Progress::Failed(GHError::RateLimitExceeded { reset: or_zero(q.reset) })
            } else {
                r == Progress::Send(a.at(Stage::Repository), Request::Repository)
            },
        }
    } else if status == 401 {
        r == Progress::Failed(GHError::AuthRequired)
    } else {
        r == Progress::Failed(GHError::NetworkError(NetworkFailure::Status(status)))
    }
}

/// After the repository answer; `info` is the document read strictly as
/// repository attributes, `None` when it did not match.
pub open spec fn repository_step(
    a: Analysis,
    status: u16,
    info: Option<RepoInfo>,
    fields: StatFields,
    r: Progress,
) -> bool {
    if status == 404 {
        r == Progress::Failed(GHError::RepoNotFound(a.repo_path))
    } else if status != 200 {
        r == Progress::Failed(GHError::NetworkError(NetworkFailure::Status(status)))
    } else {
        match info {
            Some(i) => r == Progress::Send(
                a.at(Stage::Languages { repo: i, stats: stats_of(fields) }),
                Request::Languages,
            ),
            None => r == Progress::Failed(GHError::NetworkError(NetworkFailure::Malformed)),
        }
    }
}

/// Where the analysis goes once repository, statistics and languages are
/// known and the texts in `content` have been found, when the candidate at
/// `next` is the next one to ask for.
pub open spec fn files_from(
    a: Analysis,
    repo: RepoInfo,
    stats: RepoStats,
    languages: Vec<(String, u32)>,
    content: Seq<(Seq<char>, Seq<char>)>,
    next: int,
    r: Progress,
) -> bool {
    if next < a.candidates@.len() {
        match r {
            Progress::Send(b, q) => q == Request::Contents(next as usize) && b.repo_path
                == a.repo_path && b.candidates == a.candidates && match b.stage {
                Stage::Files { repo: r2, stats: s2, languages: l2, content: c2, next: n2 } => r2
                    == repo && s2 == stats && l2 == languages && pairs_view(c2@) == content
                    && n2 == next,
                _ => false,
            },
            _ => false,
        }
    } else {
        match r {
            Progress::Done(s) => s.repo == repo && s.stats == stats && s.languages == languages
                && pairs_view(s.content@) == content,
            _ => false,
        }
    }
}

/// After the languages answer; `languages` is its body read as a map from
/// language to byte count, `None` when it was not one. A language named twice
/// makes it no map.
pub open spec fn languages_step(
    a: Analysis,
    status: u16,
    languages: Option<Vec<(String, u32)>>,
    r: Progress,
) -> bool {
    if !is_success(status) {
        r == Progress::Failed(GHError::NetworkError(NetworkFailure::Status(status)))
    } else {
        match (a.stage, languages) {
            (Stage::Languages { repo, stats }, Some(l)) if language_names(l@).no_duplicates() => files_from(
                a,
                repo,
                stats,
                l,
                seq![],
                0,
                r,
            ),
            _ => r == Progress::Failed(GHError::NetworkError(NetworkFailure::Malformed)),
        }
    }
}

/// Where the analysis goes once the candidate it asked for has given the text
/// `found`, or nothing.
pub open spec fn file_done(a: Analysis, found: Option<Seq<char>>, r: Progress) -> bool {
    match a.stage {
        Stage::Files { repo, stats, languages, content, next } => files_from(
            a,
            repo,
            stats,
            languages,
            match found {
                Some(t) => pairs_view(content@).push((a.candidates@[next as int]@, t)),
                None => pairs_view(content@),
            },
            next + 1,
            r,
        ),
        _ => false,
    }
}

/// After a contents answer; `envelope` is its body, `None` when it was not an
/// envelope.
pub open spec fn contents_step(
    a: Analysis,
    status: u16,
    envelope: Option<Envelope>,
    r: Progress,
) -> bool {
    if status == 404 {
        file_done(a, None, r)
    } else if status != 200 {
        r == Progress::Failed(GHError::NetworkError(NetworkFailure::Status(status)))
    } else {
        match envelope {
            None => r == Progress::Failed(GHError::NetworkError(NetworkFailure::Malformed)),
            Some(e) => if e.kind@ != "file"@ {
                file_done(a, None, r)
            } else {
                match e.content {
                    None => file_done(a, None, r),
                    Some(c) => match decoded_text(c@) {
                        Some(t) => file_done(a, Some(t), r),
                        None => r == Progress::Failed(
                            GHError::NetworkError(NetworkFailure::Malformed),
                        ),
                    },
                }
            },
        }
    }
}

/// Whether the analysis goes on with another call.
pub open spec fn sends_more(r: Progress) -> bool {
    r is Send
}

pub open spec fn next_is_wf(r: Progress) -> bool {
    match r {
        Progress::Send(b, _) => b.wf(),
        _ => true,
    }
}

fn is_file_kind(k: &String) -> (r: bool)
    ensures
        r == (k@ == "file"@),
{
    proof {
        reveal_strlit("file");
    }
    let s = k.as_str();
    if s.unicode_len() != 4 {
        return false;
    }
    let r = s.get_char(0) == 'f' && s.get_char(1) == 'i' && s.get_char(2) == 'l' && s.get_char(3)
        == 'e';
    proof {
        if r {
            assert(k@ =~= "file"@);
        }
    }
    r
}

fn holds_name(v: &Vec<String>, s: &String) -> (r: bool)
    ensures
        r == names_view(v@).contains(s@),
{
    let mut j: usize = 0;
    while j < v.len()
        invariant
            j <= v@.len(),
            forall|k: int| 0 <= k < j ==> v@[k]@ != s@,
        decreases v@.len() - j,
    {
        if v[j].eq(s) {
            proof {
                assert(names_view(v@)[j as int] == s@);
            }
            return true;
        }
        j = j + 1;
    }
    proof {
        if names_view(v@).contains(s@) {
            let k = choose|k: int| 0 <= k < names_view(v@).len() && names_view(v@)[k] == s@;
            assert(v@[k]@ == s@);
        }
    }
    false
}

/// Whether no language is named twice.
fn names_distinct(l: &Vec<(String, u32)>) -> (r: bool)
    ensures
        r == language_names(l@).no_duplicates(),
{
    let mut i: usize = 0;
    while i < l.len()
        invariant
            i <= l@.len(),
            forall|a: int, b: int|
                0 <= a < b < i ==> #[trigger] language_names(l@)[a] != #[trigger] language_names(
                    l@,
                )[b],
        decreases l@.len() - i,
    {
        let mut j: usize = 0;
        while j < i
            invariant
                j <= i < l@.len(),
                forall|a: int| 0 <= a < j ==> #[trigger] language_names(l@)[a] != language_names(l@)[i as int],
            decreases i - j,
        {
            if l[j].0.eq(&l[i].0) {
                proof {
                    assert(language_names(l@)[j as int] == language_names(l@)[i as int]);
                }
                return false;
            }
            j = j + 1;
        }
        i = i + 1;
    }
    true
}

/// `names` without repeats, each kept where it first appears.
fn distinct_names(names: &Vec<String>) -> (r: Vec<String>)
    ensures
        names_view(r@) == first_occurrences(names_view(names@)),
        names_view(r@).no_duplicates(),
{
    let mut r: Vec<String> = Vec::new();
    let mut i: usize = 0;
    while i < names.len()
        invariant
            i <= names@.len(),
            names_view(r@) == first_occurrences(names_view(names@).subrange(0, i as int)),
            names_view(r@).no_duplicates(),
        decreases names@.len() - i,
    {
        let ghost prev = r@;
        proof {
            let s = names_view(names@).subrange(0, i + 1);
            assert(s.drop_last() =~= names_view(names@).subrange(0, i as int));
            assert(s.last() == names@[i as int]@);
        }
        if !holds_name(&r, &names[i]) {
            let n = names[i].clone();
            r.push(n);
            proof {
                assert(names_view(r@) =~= names_view(prev).push(n@));
            }
        }
        i = i + 1;
    }
    proof {
        assert(names_view(names@).subrange(0, names@.len() as int) =~= names_view(names@));
    }
    r
}

/// The files an analysis looks for unless told otherwise.
pub fn default_candidates() -> (r: Vec<String>)
    ensures
        r@.map_values(|s: String| s@) == default_candidate_names(),
{
    let names: [&str; 10] = [
        "README.md",
        "CONTRIBUTING.md",
        "LICENSE",
        "setup.py",
        "requirements.txt",
        "Cargo.toml",
        "package.json",
        "go.mod",
        "composer.json",
        "Gemfile",
    ];
    let mut r: Vec<String> = Vec::new();
    let mut i: usize = 0;
    while i < 10
        invariant
            i <= 10,
            names@.map_values(|s: &str| s@) == default_candidate_names(),
            r@.map_values(|s: String| s@) == names@.subrange(0, i as int).map_values(
                |s: &str| s@,
            ),
        decreases 10 - i,
    {
        let ghost prev = r@;
        let name = names[i].to_owned();
        r.push(name);
        proof {
            assert(names@.subrange(0, i + 1) =~= names@.subrange(0, i as int).push(names@[i as int]));
            assert(r@.map_values(|s: String| s@) =~= prev.map_values(|s: String| s@).push(name@));
            assert(r@.map_values(|s: String| s@) =~= names@.subrange(0, i + 1).map_values(
                |s: &str| s@,
            ));
        }
        i = i + 1;
    }
    proof {
        assert(names@.subrange(0, 10) =~= names@);
    }
    r
}

impl Analysis {
    /// Starts an analysis of `repo_path` that looks for `candidates`; the first
    /// call it needs is the quota check.
    /// A name that appears more than once is looked for once.
    pub fn new(repo_path: String, candidates: Vec<String>) -> (r: (Analysis, Request))
        ensures
            r.0.repo_path == repo_path,
            names_view(r.0.candidates@) == first_occurrences(names_view(candidates@)),
            r.0.stage == Stage::Quota,
            r.1 == Request::RateLimit,
            r.0.wf(),
    {
        let candidates = distinct_names(&candidates);
        (Analysis { repo_path, candidates, stage: Stage::Quota }, Request::RateLimit)
    }

    /// A call that got no answer (timeout, connection failure) ends the
    /// analysis, whatever its stage.
    pub fn on_unreachable(self, reason: String) -> (r: GHError)
        ensures
            r == GHError::NetworkError(NetworkFailure::Unreachable(reason)),
    {
        GHError::NetworkError(NetworkFailure::Unreachable(reason))
    }

    /// Takes the quota answer: `body` holds the fields of its `rate` object,
    /// `None` when the body was not JSON.
    pub fn on_quota(self, status: u16, body: Option<QuotaFields>) -> (r: Progress)
        requires
            self.wf(),
            self.stage is Quota,
        ensures
            quota_step(self, status, body, r),
            next_is_wf(r),
            done_keys_distinct(r),
    {
        if status == 200 {
            let limit = match body {
                Some(q) => RateLimit::from_fields(q),
                None => {
                    return Progress::Failed(GHError::NetworkError(NetworkFailure::Malformed));
                },
            };
            if limit.remaining == 0 {
                Progress::Failed(GHError::RateLimitExceeded { reset: limit.reset })
            } else {
                Progress::Send(
                    Analysis {
                        repo_path: self.repo_path,
                        candidates: self.candidates,
                        stage: Stage::Repository,
                    },
                    Request::Repository,
                )
            }
        } else if status == 401 {
            Progress::Failed(GHError::AuthRequired)
        } else {
            Progress::Failed(GHError::NetworkError(NetworkFailure::Status(status)))
        }
    }

    /// Takes the repository answer: `info` is its body read as repository
    /// attributes (`None` when it did not match), `fields` its statistics.
    pub fn on_repository(self, status: u16, info: Option<RepoInfo>, fields: StatFields) -> (r:
        Progress)
        requires
            self.wf(),
            self.stage is Repository,
        ensures
            repository_step(self, status, info, fields, r),
            next_is_wf(r),
            done_keys_distinct(r),
    {
        if status == 404 {
            Progress::Failed(GHError::RepoNotFound(self.repo_path))
        } else if status != 200 {
            Progress::Failed(GHError::NetworkError(NetworkFailure::Status(status)))
        } else {
            match info {
                Some(i) => Progress::Send(
                    Analysis {
                        repo_path: self.repo_path,
                        candidates: self.candidates,
                        stage: Stage::Languages { repo: i, stats: RepoStats::from_fields(fields) },
                    },
                    Request::Languages,
                ),
                None => Progress::Failed(GHError::NetworkError(NetworkFailure::Malformed)),
            }
        }
    }

    /// Moves on from `repo`, `stats` and `languages` with the texts found so
    /// far to the candidate at `next`, or finishes.
    fn files_or_done(
        repo_path: String,
        candidates: Vec<String>,
        repo: RepoInfo,
        stats: RepoStats,
        languages: Vec<(String, u32)>,
        content: Vec<(String, String)>,
        next: usize,
    ) -> (r: Progress)
        requires
            next <= candidates@.len(),
            names_view(candidates@).no_duplicates(),
            language_names(languages@).no_duplicates(),
            found_before(names_view(candidates@), pairs_view(content@), next as int),
        ensures
            files_from(
                Analysis { repo_path, candidates, stage: Stage::Quota },
                repo,
                stats,
                languages,
                pairs_view(content@),
                next as int,
                r,
            ),
            next_is_wf(r),
            done_keys_distinct(r),
    {
        if next < candidates.len() {
            Progress::Send(
                Analysis {
                    repo_path,
                    candidates,
                    stage: Stage::Files { repo, stats, languages, content, next },
                },
                Request::Contents(next),
            )
        } else {
            Progress::Done(RepoSummary { repo, stats, languages, content })
        }
    }

    /// Takes the languages answer: `languages` is its body read as a map from
    /// language to byte count, `None` when it was not one.
    pub fn on_languages(self, status: u16, languages: Option<Vec<(String, u32)>>) -> (r:
        Progress)
        requires
            self.wf(),
            self.stage is Languages,
        ensures
            languages_step(self, status, languages, r),
            next_is_wf(r),
            done_keys_distinct(r),
    {
        if status < 200 || status > 299 {
            return Progress::Failed(GHError::NetworkError(NetworkFailure::Status(status)));
        }
        let Analysis { repo_path, candidates, stage } = self;
        match (stage, languages) {
            (Stage::Languages { repo, stats }, Some(l)) if names_distinct(&l) => {
                let content: Vec<(String, String)> = Vec::new();
                proof {
                    assert(pairs_view(content@) =~= seq![]);
                    assert(keys_of(pairs_view(content@)) =~= seq![]);
                }
                Self::files_or_done(repo_path, candidates, repo, stats, l, content, 0)
            },
            _ => Progress::Failed(GHError::NetworkError(NetworkFailure::Malformed)),
        }
    }

    /// Records what the candidate being asked for gave, `found`, and moves on.
    fn file_found(self, found: Option<String>) -> (r: Progress)
        requires
            self.wf(),
            self.stage is Files,
        ensures
            file_done(
                self,
                match found {
                    Some(t) => Some(t@),
                    None => None,
                },
                r,
            ),
            next_is_wf(r),
            done_keys_distinct(r),
    {
        let ghost a = self;
        let Analysis { repo_path, candidates, stage } = self;
        match stage {
            Stage::Files { repo, stats, languages, content, next } => {
                // a vector's length bounds the index, so `next + 1` fits
                let n = candidates.len();
                proof {
                    assert(next < n);
                }
                let ghost a_content = content@;
                let mut content = content;
                match found {
                    Some(t) => {
                        let name = candidates[next].clone();
                        let ghost before = content@;
                        content.push((name, t));
                        proof {
                            let cands = names_view(candidates@);
                            let new_key = a.candidates@[next as int]@;
                            assert(pairs_view(content@) =~= pairs_view(before).push(
                                (new_key, t@),
                            ));
                            assert(keys_of(pairs_view(content@)) =~= keys_of(pairs_view(before)).push(new_key));
                            assert(cands[next as int] == new_key);
                            assert(cands.subrange(0, next + 1) =~= cands.subrange(0, next as int).push(new_key));
                            assert forall|k: int| 0 <= k < keys_of(pairs_view(before)).len() implies keys_of(pairs_view(before))[k] != new_key by {
                                assert(pairs_view(before)[k].0 == keys_of(pairs_view(before))[k]);
                                let j = choose|j: int| 0 <= j < next && cands.subrange(0, next as int)[j] == pairs_view(before)[k].0;
                                assert(cands[j] == cands.subrange(0, next as int)[j]);
                            }
                        }
                    },
                    None => {},
                }
                proof {
                    let cands = names_view(candidates@);
                    assert forall|k: int| 0 <= k < pairs_view(content@).len() implies cands.subrange(0, next + 1).contains(#[trigger] pairs_view(content@)[k].0) by {
                        if k < pairs_view(a_content).len() {
                            assert(pairs_view(content@)[k] == pairs_view(a_content)[k]);
                            let j = choose|j: int| 0 <= j < next && cands.subrange(0, next as int)[j] == pairs_view(a_content)[k].0;
                            assert(cands.subrange(0, next + 1)[j] == cands.subrange(0, next as int)[j]);
                        } else {
                            assert(cands.subrange(0, next + 1)[next as int] == a.candidates@[next as int]@);
                        }
                    }
                }
                Self::files_or_done(repo_path, candidates, repo, stats, languages, content, next + 1)
            },
            _ => Progress::Failed(GHError::NetworkError(NetworkFailure::Malformed)),
        }
    }

    /// Takes the answer for the candidate being asked for: `envelope` is its
    /// body (`None` when it was not an envelope). A missing file or an entry
    /// that is not a file is passed over; text that does not decode ends the
    /// analysis.
    pub fn on_contents(self, status: u16, envelope: Option<Envelope>) -> (r: Progress)
        requires
            self.wf(),
            self.stage is Files,
        ensures
            contents_step(self, status, envelope, r),
            next_is_wf(r),
            done_keys_distinct(r),
    {
        if status == 404 {
            return self.file_found(None);
        }
        if status != 200 {
            return Progress::Failed(GHError::NetworkError(NetworkFailure::Status(status)));
        }
        match envelope {
            None => Progress::Failed(GHError::NetworkError(NetworkFailure::Malformed)),
            Some(e) => {
                if !is_file_kind(&e.kind) {
                    return self.file_found(None);
                }
                match e.content {
                    None => self.file_found(None),
                    Some(c) => match decode_content(c.as_str()) {
                        Some(t) => self.file_found(Some(t)),
                        None => Progress::Failed(GHError::NetworkError(NetworkFailure::Malformed)),
                    },
                }
            },
        }
    }
}

/// An exhausted quota ends the analysis at the quota check: it fails with
/// the refill time, and no request follows.
pub proof fn exhausted_quota_stops(a: Analysis, body: QuotaFields, r: Progress)
    requires
        a.stage is Quota,
        or_zero(body.remaining) == 0,
        quota_step(a, 200, Some(body), r),
    ensures
        !sends_more(r),
        r == Progress::Failed(GHError::RateLimitExceeded { reset: or_zero(body.reset) }),
{
}

/// A repository that is not found ends the analysis with that path: neither
/// languages nor contents are asked for.
pub proof fn missing_repository_stops(
    a: Analysis,
    info: Option<RepoInfo>,
    fields: StatFields,
    r: Progress,
)
    requires
        a.stage is Repository,
        repository_step(a, 404, info, fields, r),
    ensures
        !sends_more(r),
        r == Progress::Failed(GHError::RepoNotFound(a.repo_path)),
{
}

/// A candidate that is not found adds no entry and raises no error.
pub proof fn missing_file_passed_over(a: Analysis, envelope: Option<Envelope>, r: Progress)
    requires
        a.wf(),
        a.stage is Files,
        contents_step(a, 404, envelope, r),
    ensures
        !(r is Failed),
        file_done(a, None, r),
{
}

/// A candidate that is a directory, or any entry other than a file, adds no
/// entry and raises no error.
pub proof fn non_file_passed_over(a: Analysis, e: Envelope, r: Progress)
    requires
        a.wf(),
        a.stage is Files,
        e.kind@ != "file"@,
        contents_step(a, 200, Some(e), r),
    ensures
        !(r is Failed),
        file_done(a, None, r),
{
}

} // verus!
