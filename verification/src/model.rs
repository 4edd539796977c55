//! Data model of the registry records the report consumes and of the rows
//! it emits.

use vstd::prelude::*;

verus! {

/// The fixed classification of a vulnerability finding.
#[derive(Clone, Copy, Debug, PartialEq, Eq, Structural)]
pub enum Severity {
    Critical,
    High,
    Medium,
    Low,
    Informational,
    Undefined,
}

/// A point in time as the registry reports it: whole seconds since the
/// Unix epoch together with a subsecond nanosecond part.
#[derive(Clone, Copy, Debug, PartialEq, Eq, Structural)]
pub struct Timestamp {
    pub seconds: i64,
    pub subsec_nanos: u32,
}

/// The vulnerability-scan summary attached to an image: two optional scan
/// timestamps and one count per severity that occurred. A severity with no
/// entry in `severity_counts` counts as zero; a severity occurs at most
/// once in practice, and only the first entry for it is read.
pub struct ScanSummary {
    pub completed_at: Option<Timestamp>,
    pub source_updated_at: Option<Timestamp>,
    pub severity_counts: Vec<(Severity, i32)>,
}

/// One image record as the registry's image listing returns it. Every
/// field the report reads is optional at the source; `image_tags` stands
/// for the listing's optional tag list, with absence as the empty list.
pub struct ImageDescription {
    pub artifact_media_type: Option<String>,
    pub repository_name: Option<String>,
    pub image_tags: Vec<String>,
    pub image_digest: Option<String>,
    pub scan_findings_summary: Option<ScanSummary>,
}

/// One output row, fully extracted: the five string-valued columns and the
/// six severity counts, in the order the report prints them.
pub struct ReportRow {
    pub repository_name: String,
    pub first_tag: String,
    pub digest: String,
    pub scan_completed_at: String,
    pub vuln_source_updated_at: String,
    pub critical: i32,
    pub high: i32,
    pub medium: i32,
    pub low: i32,
    pub informational: i32,
    pub undefined: i32,
}

/// Mathematical image of a `ReportRow`: its columns as character
/// sequences and unbounded integers.
pub ghost struct RowView {
    pub repository_name: Seq<char>,
    pub first_tag: Seq<char>,
    pub digest: Seq<char>,
    pub scan_completed_at: Seq<char>,
    pub vuln_source_updated_at: Seq<char>,
    pub critical: int,
    pub high: int,
    pub medium: int,
    pub low: int,
    pub informational: int,
    pub undefined: int,
}

impl View for ReportRow {
    type V = RowView;

    open spec fn view(&self) -> RowView {
        RowView {
            repository_name: self.repository_name@,
            first_tag: self.first_tag@,
            digest: self.digest@,
            scan_completed_at: self.scan_completed_at@,
            vuln_source_updated_at: self.vuln_source_updated_at@,
            critical: self.critical as int,
            high: self.high as int,
            medium: self.medium as int,
            low: self.low as int,
            informational: self.informational as int,
            undefined: self.undefined as int,
        }
    }
}

/// The count recorded for `sev` in a severity-count listing: the first
/// entry carrying that severity, or zero when there is none.
pub open spec fn count_of(counts: Seq<(Severity, i32)>, sev: Severity) -> int
    decreases counts.len(),
{
    if counts.len() == 0 {
        0
    } else if counts[0].0 == sev {
        counts[0].1 as int
    } else {
        count_of(counts.skip(1), sev)
    }
}

/// Looks `sev` up in a severity-count listing, with zero as the default
/// for an absent severity.
pub fn lookup_count(counts: &Vec<(Severity, i32)>, sev: Severity) -> (c: i32)
    ensures
        c as int == count_of(counts@, sev),
{
    let n = counts.len();
    let mut i: usize = 0;
    proof {
        assert(counts@.skip(0) =~= counts@);
    }
    while i < n
        invariant
            n == counts@.len(),
            i <= n,
            count_of(counts@, sev) == count_of(counts@.skip(i as int), sev),
        decreases n - i,
    {
        let (s, c) = counts[i];
        if s == sev {
            proof {
                assert(counts@.skip(i as int)[0] == counts@[i as int]);
            }
            return c;
        }
        proof {
            assert(counts@.skip(i as int)[0] == counts@[i as int]);
            assert(counts@.skip(i as int).skip(1) =~= counts@.skip(i as int + 1));
        }
        i = i + 1;
    }
    proof {
        assert(counts@.skip(n as int) =~= Seq::<(Severity, i32)>::empty());
    }
    0
}

} // verus!
