//! Rendering rows into semicolon-delimited report lines.

use vstd::prelude::*;
use crate::extract::{extract, spec_extract};
use crate::model::{ImageDescription, ReportRow, RowView};
use vstd::string::StringExecFns;

verus! {

/// The decimal digit character for `d`.
pub open spec fn digit_char(d: nat) -> char {
    if d == 0 {
        '0'
    } else if d == 1 {
        '1'
    } else if d == 2 {
        '2'
    } else if d == 3 {
        '3'
    } else if d == 4 {
        '4'
    } else if d == 5 {
        '5'
    } else if d == 6 {
        '6'
    } else if d == 7 {
        '7'
    } else if d == 8 {
        '8'
    } else {
        '9'
    }
}

/// The decimal digits of a nonnegative number, most significant first,
/// with no leading zero except for the number zero itself.
pub open spec fn dec_text(n: nat) -> Seq<char>
    decreases n,
{
    if n < 10 {
        seq![digit_char(n)]
    } else {
        dec_text(n / 10) + seq![digit_char(n % 10)]
    }
}

/// The decimal rendering of an integer: a minus sign before the digits
/// of the magnitude when negative.
pub open spec fn int_text(v: int) -> Seq<char> {
    if v >= 0 {
        dec_text(v as nat)
    } else {
        seq!['-'] + dec_text((-v) as nat)
    }
}

/// The one-character string for the decimal digit `d`.
fn digit_str(d: u32) -> (r: &'static str)
    requires
        d < 10,
    ensures
        r@ =~= seq![digit_char(d as nat)],
{
    proof {
        reveal_strlit("0");
        reveal_strlit("1");
        reveal_strlit("2");
        reveal_strlit("3");
        reveal_strlit("4");
        reveal_strlit("5");
        reveal_strlit("6");
        reveal_strlit("7");
        reveal_strlit("8");
        reveal_strlit("9");
    }
    if d == 0 {
        "0"
    } else if d == 1 {
        "1"
    } else if d == 2 {
        "2"
    } else if d == 3 {
        "3"
    } else if d == 4 {
        "4"
    } else if d == 5 {
        "5"
    } else if d == 6 {
        "6"
    } else if d == 7 {
        "7"
    } else if d == 8 {
        "8"
    } else {
        "9"
    }
}

/// Appends the decimal digits of `n` to `out`.
fn push_decimal(out: &mut String, n: u32)
    ensures
        final(out)@ == old(out)@ + dec_text(n as nat),
    decreases n,
{
    if n < 10 {
        out.append(digit_str(n));
    } else {
        push_decimal(out, n / 10);
        out.append(digit_str(n % 10));
        proof {
            assert(old(out)@ + dec_text((n / 10) as nat) + seq![digit_char((n % 10) as nat)]
                =~= old(out)@ + dec_text(n as nat));
        }
    }
}

/// Appends the decimal rendering of `v` to `out`, minus sign included.
fn push_i32(out: &mut String, v: i32)
    ensures
        final(out)@ == old(out)@ + int_text(v as int),
{
    if v >= 0 {
        push_decimal(out, v as u32);
    } else {
        out.append("-");
        let magnitude: i64 = -(v as i64);
        push_decimal(out, magnitude as u32);
        proof {
            reveal_strlit("-");
            assert("-"@ =~= seq!['-']);
            assert(old(out)@ + "-"@ + dec_text(magnitude as nat)
                =~= old(out)@ + int_text(v as int));
        }
    }
}

/// The text of one report line for a row: the eleven columns in order,
/// joined with semicolons.
pub open spec fn row_text(row: RowView) -> Seq<char> {
    row.repository_name + ";"@ + row.first_tag + ";"@ + row.digest + ";"@
        + row.scan_completed_at + ";"@ + row.vuln_source_updated_at + ";"@
        + int_text(row.critical) + ";"@ + int_text(row.high) + ";"@ + int_text(row.medium)
        + ";"@ + int_text(row.low) + ";"@ + int_text(row.informational) + ";"@
        + int_text(row.undefined)
}

/// Renders one row as its report line.
pub fn format_row(row: &ReportRow) -> (line: String)
    ensures
        line@ == row_text(row@),
{
    let mut out = row.repository_name.clone();
    out.append(";");
    out.append(row.first_tag.as_str());
    out.append(";");
    out.append(row.digest.as_str());
    out.append(";");
    out.append(row.scan_completed_at.as_str());
    out.append(";");
    out.append(row.vuln_source_updated_at.as_str());
    out.append(";");
    push_i32(&mut out, row.critical);
    out.append(";");
    push_i32(&mut out, row.high);
    out.append(";");
    push_i32(&mut out, row.medium);
    out.append(";");
    push_i32(&mut out, row.low);
    out.append(";");
    push_i32(&mut out, row.informational);
    out.append(";");
    push_i32(&mut out, row.undefined);
    proof {
        assert(out@ =~= row_text(row@));
    }
    out
}

/// The text of the fixed header line.
pub open spec fn header_text() -> Seq<char> {
    "repository_name;image_tags;image_digest;image_scan_completed_date;vulnerability_source_updated_date;Critical;High;Medium;Low;Informational;Undefined"@
}

/// The header line, emitted once before any data row.
pub fn header_line() -> (line: String)
    ensures
        line@ == header_text(),
{
    String::from_str(
        "repository_name;image_tags;image_digest;image_scan_completed_date;vulnerability_source_updated_date;Critical;High;Medium;Low;Informational;Undefined",
    )
}

/// The views of a sequence of rendered lines.
pub open spec fn lines_text(lines: Seq<String>) -> Seq<Seq<char>> {
    lines.map_values(|line: String| line@)
}

/// The data lines for a sequence of image records, in order: one line per
/// reported record, none for a skipped one.
pub open spec fn report_text(imgs: Seq<ImageDescription>) -> Seq<Seq<char>>
    decreases imgs.len(),
{
    if imgs.len() == 0 {
        Seq::<Seq<char>>::empty()
    } else {
        report_text(imgs.drop_last()) + (match spec_extract(imgs.last()) {
            Some(row) => seq![row_text(row)],
            None => Seq::<Seq<char>>::empty(),
        })
    }
}

/// Renders the data lines for the image records of one listing, in the
/// order the listing returned them.
pub fn report_rows(images: &Vec<ImageDescription>) -> (lines: Vec<String>)
    ensures
        lines_text(lines@) == report_text(images@),
{
    let mut lines: Vec<String> = Vec::new();
    let n = images.len();
    let mut i: usize = 0;
    proof {
        assert(lines_text(lines@) =~= report_text(images@.take(0)));
    }
    while i < n
        invariant
            n == images@.len(),
            i <= n,
            lines_text(lines@) == report_text(images@.take(i as int)),
        decreases n - i,
    {
        let ghost prev = lines@;
        match extract(&images[i]) {
            Some(row) => {
                let line = format_row(&row);
                lines.push(line);
                proof {
                    assert(lines_text(lines@) =~= lines_text(prev) + seq![row_text(row@)]);
                }
            },
            None => {
            },
        }
        proof {
            assert(images@.take(i as int + 1).drop_last() =~= images@.take(i as int));
            assert(images@.take(i as int + 1).last() == images@[i as int]);
            assert(lines_text(lines@) =~= report_text(images@.take(i as int + 1)));
        }
        i = i + 1;
    }
    proof {
        assert(images@.take(n as int) =~= images@);
    }
    lines
}

/// The data lines of a whole run over several repositories: each
/// repository's lines in turn, repositories in listing order.
pub open spec fn all_rows_text(repos: Seq<Seq<ImageDescription>>) -> Seq<Seq<char>>
    decreases repos.len(),
{
    if repos.len() == 0 {
        Seq::<Seq<char>>::empty()
    } else {
        all_rows_text(repos.drop_last()) + report_text(repos.last())
    }
}

/// The complete standard output of a run that reports the given image
/// listings: the header line, then every data line.
pub open spec fn run_output(repos: Seq<Seq<ImageDescription>>) -> Seq<Seq<char>> {
    seq![header_text()] + all_rows_text(repos)
}

/// The header opens every run's output exactly once: it is the first
/// line, and everything after it is the data lines of the listings.
pub proof fn lemma_header_first(repos: Seq<Seq<ImageDescription>>)
    ensures
        run_output(repos).len() == 1 + all_rows_text(repos).len(),
        run_output(repos)[0] == header_text(),
        run_output(repos).skip(1) == all_rows_text(repos),
{
    assert(run_output(repos).skip(1) =~= all_rows_text(repos));
}

/// The complete standard output of a single-repository run: the header
/// line, then the data lines of the one image listing when it succeeded.
/// A listing that failed (the repository not found, or any other registry
/// error) contributes no line at all.
pub open spec fn single_run_output(listing: Option<Seq<ImageDescription>>) -> Seq<Seq<char>> {
    seq![header_text()] + (match listing {
        Some(imgs) => report_text(imgs),
        None => Seq::<Seq<char>>::empty(),
    })
}

/// A single-repository run whose image listing fails writes exactly the
/// header line to standard output and no data row: the header is printed
/// before the listing is asked for, and a failed listing yields no rows.
pub proof fn lemma_failed_single_run_emits_only_header()
    ensures
        single_run_output(None) == seq![header_text()],
{
    assert(single_run_output(None) =~= seq![header_text()]);
}

/// A run over a registry with no repositories at all emits the header
/// line and nothing else.
pub proof fn lemma_empty_registry_output()
    ensures
        run_output(Seq::<Seq<ImageDescription>>::empty()) == seq![header_text()],
{
    assert(run_output(Seq::<Seq<ImageDescription>>::empty()) =~= seq![header_text()]);
}

} // verus!
