use vstd::prelude::*;

verus! {

/// A statistic as the summary stores it: the unsigned integer the field held,
/// or 0 when the field was absent, of another type, or too large for 32 bits.
pub open spec fn count_or_zero(f: Option<u64>) -> u32 {
    match f {
        Some(v) => if v <= 0xffff_ffff {
            v as u32
        } else {
            0
        },
        None => 0,
    }
}

pub fn count_of(f: Option<u64>) -> (r: u32)
    ensures
        r == count_or_zero(f),
{
    match f {
        Some(v) => if v <= 0xffff_ffffu64 {
            v as u32
        } else {
            0
        },
        None => 0,
    }
}

/// The `rate.remaining` and `rate.reset` fields of a quota answer, each as
/// the unsigned integer it held, or `None` when it was absent or of another
/// type.
#[derive(Debug, Clone, Copy, PartialEq, Eq)]
pub struct QuotaFields {
    pub remaining: Option<u64>,
    pub reset: Option<u64>,
}

/// A field's unsigned integer, or 0 when it had none.
pub open spec fn or_zero(f: Option<u64>) -> u64 {
    match f {
        Some(v) => v,
        None => 0,
    }
}

/// The quota as the rate-limit endpoint reports it.
#[derive(Debug, Clone, Copy, PartialEq, Eq)]
pub struct RateLimit {
    pub remaining: u64,
    /// Epoch seconds at which the quota refills.
    pub reset: u64,
}

impl RateLimit {
    /// Reads the quota from its fields; an absent field means 0.
    pub fn from_fields(f: QuotaFields) -> (r: RateLimit)
        ensures
            r.remaining == or_zero(f.remaining),
            r.reset == or_zero(f.reset),
    {
        RateLimit {
            remaining: match f.remaining {
                Some(v) => v,
                None => 0,
            },
            reset: match f.reset {
                Some(v) => v,
                None => 0,
            },
        }
    }
}

/// The four statistics fields of a repository document, each as the unsigned
/// integer it held, or `None` when it was absent or of another type.
#[derive(Debug, Clone, Copy, PartialEq, Eq)]
pub struct StatFields {
    pub open_issues_count: Option<u64>,
    pub watchers_count: Option<u64>,
    pub network_count: Option<u64>,
    pub size: Option<u64>,
}

#[derive(Debug, Clone, Copy, PartialEq, Eq)]
pub struct RepoStats {
    pub open_issues_count: u32,
    pub watchers_count: u32,
    pub network_count: u32,
    /// In kilobytes.
    pub size: u32,
}

/// The statistics that a repository document yields.
pub open spec fn stats_of(f: StatFields) -> RepoStats {
    RepoStats {
        open_issues_count: count_or_zero(f.open_issues_count),
        watchers_count: count_or_zero(f.watchers_count),
        network_count: count_or_zero(f.network_count),
        size: count_or_zero(f.size),
    }
}

impl RepoStats {
    pub fn from_fields(f: StatFields) -> (r: RepoStats)
        ensures
            r == stats_of(f),
    {
        RepoStats {
            open_issues_count: count_of(f.open_issues_count),
            watchers_count: count_of(f.watchers_count),
            network_count: count_of(f.network_count),
            size: count_of(f.size),
        }
    }
}

/// A missing field is no error: each statistic whose field is absent is 0.
pub proof fn absent_stats_are_zero(f: StatFields)
    ensures
        f.open_issues_count is None ==> stats_of(f).open_issues_count == 0,
        f.watchers_count is None ==> stats_of(f).watchers_count == 0,
        f.network_count is None ==> stats_of(f).network_count == 0,
        f.size is None ==> stats_of(f).size == 0,
{
}

#[derive(Debug, Clone, PartialEq, Eq)]
pub struct License {
    pub key: String,
    pub name: String,
    pub spdx_id: Option<String>,
}

/// The repository's attributes, as the API gives them.
#[derive(Debug, Clone, PartialEq, Eq)]
pub struct RepoInfo {
    pub name: String,
    pub description: Option<String>,
    pub html_url: String,
    pub stargazers_count: u32,
    pub forks_count: u32,
    pub created_at: String,
    pub updated_at: String,
    pub default_branch: String,
    pub license: Option<License>,
    pub topics: Vec<String>,
    pub visibility: String,
}

/// The result of an analysis. `languages` pairs each language with its byte
/// count; `content` pairs each candidate file that was found with its text,
/// in the order the files were asked for.
#[derive(Debug, Clone, PartialEq, Eq)]
pub struct RepoSummary {
    pub repo: RepoInfo,
    pub stats: RepoStats,
    pub languages: Vec<(String, u32)>,
    pub content: Vec<(String, String)>,
}

} // verus!
