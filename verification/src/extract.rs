//! Turning one image record into one report row, or skipping it.

use vstd::prelude::*;
use crate::datetime::{datetime_text, format_datetime};
use crate::model::{count_of, lookup_count, ImageDescription, ReportRow, RowView, Severity, Timestamp};
use vstd::string::StringExecFns;

verus! {

/// Media type of a Docker v1 container image, the only artifact type
/// that is reported.
pub open spec fn docker_v1_media_type() -> Seq<char> {
    "application/vnd.docker.container.image.v1+json"@
}

/// The text of an optional string field, with absence as the empty string.
pub open spec fn opt_text(o: Option<String>) -> Seq<char> {
    match o {
        Some(s) => s@,
        None => Seq::<char>::empty(),
    }
}

/// The seconds of an optional timestamp, with the epoch as the default.
pub open spec fn ts_seconds(o: Option<Timestamp>) -> int {
    match o {
        Some(t) => t.seconds as int,
        None => 0,
    }
}

/// The nanosecond part of an optional timestamp, zero when absent.
pub open spec fn ts_nanos(o: Option<Timestamp>) -> int {
    match o {
        Some(t) => t.subsec_nanos as int,
        None => 0,
    }
}

/// The date-time column text for an optional timestamp inside a present
/// scan summary: an absent timestamp renders as the epoch instant.
pub open spec fn summary_date_text(o: Option<Timestamp>) -> Seq<char> {
    datetime_text(ts_seconds(o), ts_nanos(o))
}

/// The row extracted from one image record, or `None` when the record is
/// skipped. A record is reported exactly when its artifact media type is
/// present and equals the Docker v1 container-image type. String fields
/// default to the empty string, only the first tag is kept, and the scan
/// columns come from the summary: absent summary means empty date text
/// and six zero counts, while a present summary renders absent timestamps
/// as the epoch instant and absent severities as zero.
pub open spec fn spec_extract(img: ImageDescription) -> Option<RowView> {
    match img.artifact_media_type {
        None => None,
        Some(mt) => if mt@ != docker_v1_media_type() {
            None
        } else {
            Some(RowView {
                repository_name: opt_text(img.repository_name),
                first_tag: if img.image_tags@.len() > 0 {
                    img.image_tags@[0]@
                } else {
                    Seq::<char>::empty()
                },
                digest: opt_text(img.image_digest),
                scan_completed_at: match img.scan_findings_summary {
                    None => Seq::<char>::empty(),
                    Some(s) => summary_date_text(s.completed_at),
                },
                vuln_source_updated_at: match img.scan_findings_summary {
                    None => Seq::<char>::empty(),
                    Some(s) => summary_date_text(s.source_updated_at),
                },
                critical: match img.scan_findings_summary {
                    None => 0,
                    Some(s) => count_of(s.severity_counts@, Severity::Critical),
                },
                high: match img.scan_findings_summary {
                    None => 0,
                    Some(s) => count_of(s.severity_counts@, Severity::High),
                },
                medium: match img.scan_findings_summary {
                    None => 0,
                    Some(s) => count_of(s.severity_counts@, Severity::Medium),
                },
                low: match img.scan_findings_summary {
                    None => 0,
                    Some(s) => count_of(s.severity_counts@, Severity::Low),
                },
                informational: match img.scan_findings_summary {
                    None => 0,
                    Some(s) => count_of(s.severity_counts@, Severity::Informational),
                },
                undefined: match img.scan_findings_summary {
                    None => 0,
                    Some(s) => count_of(s.severity_counts@, Severity::Undefined),
                },
            })
        },
    }
}

/// The value of an optional string field, cloned, with the empty string
/// for absence.
fn opt_string(o: &Option<String>) -> (r: String)
    ensures
        r@ == opt_text(*o),
{
    match o {
        Some(s) => s.clone(),
        None => String::new(),
    }
}

/// Extracts the report row of one image record, or `None` when the record
/// is skipped; the result is exactly `spec_extract`.
pub fn extract(img: &ImageDescription) -> (r: Option<ReportRow>)
    ensures
        match r {
            Some(row) => spec_extract(*img) == Some(row@),
            None => spec_extract(*img) is None,
        },
{
    let mt = match &img.artifact_media_type {
        Some(m) => m,
        None => {
            return None;
        },
    };
    let expected = String::from_str("application/vnd.docker.container.image.v1+json");
    if !mt.eq(&expected) {
        return None;
    }
    let repository_name = opt_string(&img.repository_name);
    let first_tag = if img.image_tags.len() > 0 {
        img.image_tags[0].clone()
    } else {
        String::new()
    };
    let digest = opt_string(&img.image_digest);
    match &img.scan_findings_summary {
        None => Some(ReportRow {
            repository_name,
            first_tag,
            digest,
            scan_completed_at: String::new(),
            vuln_source_updated_at: String::new(),
            critical: 0,
            high: 0,
            medium: 0,
            low: 0,
            informational: 0,
            undefined: 0,
        }),
        Some(summary) => {
            let scan_completed_at = match &summary.completed_at {
                Some(t) => format_datetime(t.seconds, t.subsec_nanos),
                None => format_datetime(0, 0),
            };
            let vuln_source_updated_at = match &summary.source_updated_at {
                Some(t) => format_datetime(t.seconds, t.subsec_nanos),
                None => format_datetime(0, 0),
            };
            Some(ReportRow {
                repository_name,
                first_tag,
                digest,
                scan_completed_at,
                vuln_source_updated_at,
                critical: lookup_count(&summary.severity_counts, Severity::Critical),
                high: lookup_count(&summary.severity_counts, Severity::High),
                medium: lookup_count(&summary.severity_counts, Severity::Medium),
                low: lookup_count(&summary.severity_counts, Severity::Low),
                informational: lookup_count(&summary.severity_counts, Severity::Informational),
                undefined: lookup_count(&summary.severity_counts, Severity::Undefined),
            })
        },
    }
}

/// An image whose artifact media type is absent, or is any type other
/// than the Docker v1 container image, is never reported, whatever its
/// other fields hold.
pub proof fn lemma_extract_skips_other_media_types(img: ImageDescription)
    requires
        match img.artifact_media_type {
            None => true,
            Some(mt) => mt@ != docker_v1_media_type(),
        },
    ensures
        spec_extract(img) is None,
{
}

/// A reported image with no scan summary at all carries empty text in
/// both date columns and a zero count for every severity.
pub proof fn lemma_extract_absent_summary_defaults(img: ImageDescription)
    requires
        img.artifact_media_type matches Some(mt) && mt@ == docker_v1_media_type(),
        img.scan_findings_summary is None,
    ensures
        spec_extract(img) matches Some(row)
            && row.scan_completed_at == Seq::<char>::empty()
            && row.vuln_source_updated_at == Seq::<char>::empty()
            && row.critical == 0
            && row.high == 0
            && row.medium == 0
            && row.low == 0
            && row.informational == 0
            && row.undefined == 0,
{
}

/// Only the first tag is reported: the tag column of a reported image
/// with at least one tag is exactly that tag, whatever tags follow it.
pub proof fn lemma_extract_reports_first_tag_only(img: ImageDescription)
    requires
        img.artifact_media_type matches Some(mt) && mt@ == docker_v1_media_type(),
        img.image_tags@.len() > 0,
    ensures
        spec_extract(img) matches Some(row) && row.first_tag == img.image_tags@[0]@,
{
}

} // verus!
