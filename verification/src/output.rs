//! What the commands print: result records, listing tables and timestamps.

use chrono::DateTime;
use owo_colors::OwoColorize;
use vstd::prelude::*;

use crate::entry::{ListPage, QuarkEntry};
use crate::options::OutputFormat;
use crate::text::{decimal, decimal_string, owned, push_char};

verus! {

/// How output is printed.
#[derive(Debug, Clone, Copy, PartialEq, Eq, Structural)]
pub struct OutputFlags {
    pub quiet: bool,
    pub no_progress: bool,
    pub debug: bool,
    pub format: OutputFormat,
    pub color: bool,
    pub interactive: bool,
}

/// `n` spaces.
pub open spec fn spaces(n: nat) -> Seq<char>
    decreases n,
{
    if n == 0 {
        Seq::empty()
    } else {
        spaces((n - 1) as nat).push(' ')
    }
}

/// `s` left-aligned in a field of `width` characters (`{:<width}`).
pub open spec fn pad_right_spec(s: Seq<char>, width: nat) -> Seq<char> {
    if s.len() < width {
        s + spaces((width - s.len()) as nat)
    } else {
        s
    }
}

/// `s` right-aligned in a field of `width` characters (`{:>width}`).
pub open spec fn pad_left_spec(s: Seq<char>, width: nat) -> Seq<char> {
    if s.len() < width {
        spaces((width - s.len()) as nat) + s
    } else {
        s
    }
}

fn push_spaces(r: &mut String, n: usize)
    ensures
        final(r)@ == old(r)@ + spaces(n as nat),
{
    let ghost start = r@;
    let mut i: usize = 0;
    assert(start + spaces(0) =~= start);
    while i < n
        invariant
            i <= n,
            r@ == start + spaces(i as nat),
        decreases n - i,
    {
        push_char(r, ' ');
        assert(spaces((i + 1) as nat) == spaces(i as nat).push(' '));
        assert(r@ =~= start + spaces((i + 1) as nat));
        i = i + 1;
    }
}

/// Appends `s` left-aligned in a field of `width` characters.
pub fn push_padded_right(r: &mut String, s: &str, width: usize)
    ensures
        final(r)@ == old(r)@ + pad_right_spec(s@, width as nat),
{
    let ghost start = r@;
    let n = s.unicode_len();
    r.append(s);
    if n < width {
        push_spaces(r, width - n);
        assert(r@ =~= start + (s@ + spaces((width - n) as nat)));
    }
}

/// Appends `s` right-aligned in a field of `width` characters.
pub fn push_padded_left(r: &mut String, s: &str, width: usize)
    ensures
        final(r)@ == old(r)@ + pad_left_spec(s@, width as nat),
{
    let ghost start = r@;
    let n = s.unicode_len();
    if n < width {
        push_spaces(r, width - n);
    }
    r.append(s);
    assert(r@ =~= start + pad_left_spec(s@, width as nat));
}

/// `text` in bold cyan as `owo_colors` writes it: the cyan foreground code,
/// the bold code, the text, the reset code, and the default foreground code.
pub open spec fn bold_cyan_of(text: Seq<char>) -> Seq<char> {
    seq!['\x1b', '[', '3', '6', 'm', '\x1b', '[', '1', 'm'] + text + seq![
        '\x1b',
        '[',
        '0',
        'm',
        '\x1b',
        '[',
        '3',
        '9',
        'm',
    ]
}

/// `text` in green as `owo_colors` writes it: the green foreground code, the
/// text, and the default foreground code.
pub open spec fn green_of(text: Seq<char>) -> Seq<char> {
    seq!['\x1b', '[', '3', '2', 'm'] + text + seq!['\x1b', '[', '3', '9', 'm']
}

/// `text.bold().cyan()` rendered to a string: `BoldDisplay` wraps the text in
/// `ESC[1m` and `ESC[0m`, and `FgColorDisplay` for `Cyan` wraps that in
/// `ESC[36m` and `ESC[39m`.
#[verifier::external_body]
fn bold_cyan(text: &str) -> (r: String)
    ensures
        r@ == bold_cyan_of(text@),
{
    text.bold().cyan().to_string()
}

/// `text.green()` rendered to a string: `FgColorDisplay` for `Green` wraps
/// the text in `ESC[32m` and `ESC[39m`.
#[verifier::external_body]
fn green(text: &str) -> (r: String)
    ensures
        r@ == green_of(text@),
{
    text.green().to_string()
}

/// A table header: bold cyan when colour is on.
pub fn format_header(color: bool, text: &str) -> (r: String)
    ensures
        r@ == if color {
            bold_cyan_of(text@)
        } else {
            text@
        },
{
    if color {
        bold_cyan(text)
    } else {
        owned(text)
    }
}

/// A result line: green when colour is on.
pub fn color_result(color: bool, text: &str) -> (r: String)
    ensures
        r@ == if color {
            green_of(text@)
        } else {
            text@
        },
{
    if color {
        green(text)
    } else {
        owned(text)
    }
}

/// What `chrono` renders a UTC time of `secs` seconds after the epoch as,
/// in the form `%Y-%m-%d %H:%M`, or `None` when `secs` is out of its range.
pub uninterp spec fn utc_minute_of(secs: i64) -> Option<Seq<char>>;

/// `DateTime::from_timestamp(secs, 0)` formatted as `%Y-%m-%d %H:%M`.
#[verifier::external_body]
fn utc_minute(secs: i64) -> (r: Option<String>)
    ensures
        match r {
            Some(s) => utc_minute_of(secs) == Some(s@),
            None => utc_minute_of(secs) is None,
        },
{
    DateTime::from_timestamp(secs, 0).map(|dt| dt.format("%Y-%m-%d %H:%M").to_string())
}

/// A timestamp in milliseconds as shown in long listings: the raw number, or
/// the UTC minute it falls in (`-` when it cannot be shown).
pub open spec fn time_text(ts_millis: u64, raw: bool) -> Seq<char> {
    if raw {
        decimal(ts_millis as nat)
    } else {
        match utc_minute_of((ts_millis / 1000) as i64) {
            Some(s) => s,
            None => "-"@,
        }
    }
}

/// Renders a timestamp for a long listing.
pub fn format_time(ts_millis: u64, raw: bool) -> (r: String)
    ensures
        r@ == time_text(ts_millis, raw),
{
    if raw {
        return decimal_string(ts_millis);
    }
    let secs = (ts_millis / 1000) as i64;
    match utc_minute(secs) {
        Some(s) => s,
        None => owned("-"),
    }
}

/// The summary line above a table listing.
pub open spec fn page_summary_text(page: u32, shown: nat, total: u64, long: bool) -> Seq<char> {
    "page="@ + decimal(page as nat) + " shown="@ + decimal(shown) + " total="@ + decimal(
        total as nat,
    ) + if long {
        " (long)"@
    } else {
        Seq::empty()
    }
}

/// The column titles of a listing.
pub open spec fn header_text(long: bool) -> Seq<char> {
    if long {
        pad_right_spec("TYPE"@, 4) + " "@ + pad_left_spec("SIZE"@, 12) + " "@ + pad_right_spec(
            "UPDATED"@,
            16,
        ) + " "@ + "FID"@ + " "@ + "NAME"@
    } else {
        pad_right_spec("TYPE"@, 4) + " "@ + pad_left_spec("SIZE"@, 12) + " "@ + "FID"@ + " "@
            + "NAME"@
    }
}

/// One row of a listing: type, size (`-` for folders), the update time in
/// long listings, id and name.
pub open spec fn row_text(e: QuarkEntry, long: bool, raw_time: bool) -> Seq<char> {
    let ty = if e.dir {
        "DIR"@
    } else {
        "FILE"@
    };
    let size = if e.dir {
        "-"@
    } else {
        decimal(e.size as nat)
    };
    if long {
        pad_right_spec(ty, 4) + " "@ + pad_left_spec(size, 12) + " "@ + pad_right_spec(
            time_text(e.updated_at, raw_time),
            16,
        ) + " "@ + e.fid@ + " "@ + e.file_name@
    } else {
        pad_right_spec(ty, 4) + " "@ + pad_left_spec(size, 12) + " "@ + e.fid@ + " "@
            + e.file_name@
    }
}

/// A listing row shows the entry's type, size, update time (in long
/// listings), id and name, and nothing else: two entries that agree on
/// those render the same row, whatever their creation time, parent, format
/// or status. In a long listing with raw times, the update time is shown as
/// its decimal number right after the size column, padded to sixteen
/// characters.
pub proof fn lemma_row_shows_update_time(e1: QuarkEntry, e2: QuarkEntry, long: bool, raw_time: bool)
    requires
        e1.dir == e2.dir,
        e1.size == e2.size,
        e1.updated_at == e2.updated_at,
        e1.fid@ == e2.fid@,
        e1.file_name@ == e2.file_name@,
    ensures
        row_text(e1, long, raw_time) == row_text(e2, long, raw_time),
        ({
            let ty = if e1.dir { "DIR"@ } else { "FILE"@ };
            let size = if e1.dir { "-"@ } else { decimal(e1.size as nat) };
            row_text(e1, true, true) == pad_right_spec(ty, 4) + " "@ + pad_left_spec(size, 12) + " "@
                + pad_right_spec(decimal(e1.updated_at as nat), 16) + " "@ + e1.fid@ + " "@
                + e1.file_name@
        }),
{
}

fn list_header(long: bool) -> (r: String)
    ensures
        r@ == header_text(long),
{
    let mut r = String::new();
    push_padded_right(&mut r, "TYPE", 4);
    r.append(" ");
    push_padded_left(&mut r, "SIZE", 12);
    r.append(" ");
    if long {
        push_padded_right(&mut r, "UPDATED", 16);
        r.append(" ");
    }
    r.append("FID");
    r.append(" ");
    r.append("NAME");
    proof {
        if long {
            assert(r@ =~= header_text(long));
        } else {
            assert(r@ =~= header_text(long));
        }
    }
    r
}

fn list_row(e: &QuarkEntry, long: bool, raw_time: bool) -> (r: String)
    ensures
        r@ == row_text(*e, long, raw_time),
{
    let mut r = String::new();
    let ty = if e.dir {
        "DIR"
    } else {
        "FILE"
    };
    let size = if e.dir {
        owned("-")
    } else {
        decimal_string(e.size)
    };
    push_padded_right(&mut r, ty, 4);
    r.append(" ");
    push_padded_left(&mut r, size.as_str(), 12);
    r.append(" ");
    if long {
        let t = format_time(e.updated_at, raw_time);
        push_padded_right(&mut r, t.as_str(), 16);
        r.append(" ");
    }
    r.append(e.fid.as_str());
    r.append(" ");
    r.append(e.file_name.as_str());
    assert(r@ =~= row_text(*e, long, raw_time));
    r
}

/// The lines of a listing printed as a table: the summary (unless quiet),
/// the column titles (bold cyan when coloured), then one row per entry.
pub open spec fn table_lines(flags: OutputFlags, page: ListPage, long: bool, raw_time: bool) -> Seq<
    Seq<char>,
> {
    let summary = if flags.quiet {
        Seq::<Seq<char>>::empty()
    } else {
        seq![page_summary_text(page.page, page.entries@.len(), page.total, long)]
    };
    let header = if flags.color {
        bold_cyan_of(header_text(long))
    } else {
        header_text(long)
    };
    summary + seq![header] + page.entries@.map_values(|e: QuarkEntry| row_text(e, long, raw_time))
}

/// The lines of a listing in table form (a JSON listing is printed by the
/// caller from the page itself).
pub fn list_table_lines(flags: OutputFlags, page: &ListPage, long: bool, raw_time: bool) -> (r: Vec<
    String,
>)
    ensures
        crate::remote_path::views(r@) == table_lines(flags, *page, long, raw_time),
{
    let mut lines: Vec<String> = Vec::new();
    if !flags.quiet {
        let mut s = String::new();
        s.append("page=");
        s.append(decimal_string(page.page as u64).as_str());
        s.append(" shown=");
        s.append(decimal_string(page.entries.len() as u64).as_str());
        s.append(" total=");
        s.append(decimal_string(page.total).as_str());
        if long {
            s.append(" (long)");
        }
        proof {
            if long {
                assert(s@ =~= page_summary_text(page.page, page.entries@.len(), page.total, long));
            } else {
                assert(s@ =~= page_summary_text(page.page, page.entries@.len(), page.total, long));
            }
        }
        lines.push(s);
    }
    let header = list_header(long);
    lines.push(format_header(flags.color, header.as_str()));
    let ghost prefix = crate::remote_path::views(lines@);
    let ghost rows = page.entries@.map_values(|e: QuarkEntry| row_text(e, long, raw_time));
    let mut i: usize = 0;
    while i < page.entries.len()
        invariant
            i <= page.entries@.len(),
            rows == page.entries@.map_values(|e: QuarkEntry| row_text(e, long, raw_time)),
            crate::remote_path::views(lines@) == prefix + rows.take(i as int),
        decreases page.entries@.len() - i,
    {
        let ghost before = crate::remote_path::views(lines@);
        let row = list_row(&page.entries[i], long, raw_time);
        lines.push(row);
        assert(crate::remote_path::views(lines@) =~= before.push(rows[i as int]));
        assert(rows.take(i + 1) =~= rows.take(i as int).push(rows[i as int]));
        i = i + 1;
    }
    assert(rows.take(page.entries@.len() as int) =~= rows);
    proof {
        if flags.quiet {
            assert(prefix =~= Seq::<Seq<char>>::empty() + seq![
                if flags.color { bold_cyan_of(header_text(long)) } else { header_text(long) }
            ]);
        }
    }
    lines
}


/// The result a command reports.
#[derive(Debug, Clone)]
pub enum OutputRecord {
    FolderCreated { fid: String },
    UploadDone { fid: String, rapid_upload: bool },
    Renamed { fid: String, file_name: String },
    Deleted { fids: Vec<String> },
    AuthSource { source: String, path: Option<String>, legacy: bool },
    ProbeDownload {
        fid: String,
        download_url: String,
        md5: String,
        range: String,
        first_bytes: usize,
        sensitive_download_url: Option<String>,
    },
    Stat { fid: String, name: String, dir: bool, size: u64, updated_at: u64 },
}

/// A result line, coloured green when colour is on.
pub open spec fn result_line(color: bool, text: Seq<char>) -> Seq<Seq<char>> {
    seq![
        if color {
            green_of(text)
        } else {
            text
        },
    ]
}

/// The lines a result prints as in table mode, or `None` for a result that
/// is printed as pretty JSON (green when coloured) instead. A `stat` result
/// has no line form: it is shown whole, as pretty JSON, since `stat` is there
/// to show an entry's details (a probe report likewise prints all its
/// fields, and the download URL only with `--debug`).
pub open spec fn record_lines(record: OutputRecord, color: bool) -> Option<Seq<Seq<char>>> {
    match record {
        OutputRecord::UploadDone { fid, rapid_upload } => Some(
            result_line(
                color,
                if rapid_upload {
                    "rapid upload completed: "@
                } else {
                    "upload completed: "@
                } + fid@,
            ),
        ),
        OutputRecord::Deleted { fids } => Some(
            result_line(
                color,
                "deleted "@ + decimal(fids@.len()) + " entr"@ + if fids@.len() == 1 {
                    "y"@
                } else {
                    "ies"@
                },
            ),
        ),
        OutputRecord::Renamed { fid, file_name } => Some(
            result_line(color, "renamed "@ + fid@ + " -> "@ + file_name@),
        ),
        OutputRecord::FolderCreated { fid } => Some(result_line(color, "folder created: "@ + fid@)),
        OutputRecord::AuthSource { source, path, .. } => Some(
            result_line(
                color,
                match path {
                    Some(p) => source@ + ": "@ + p@,
                    None => source@,
                },
            ),
        ),
        OutputRecord::ProbeDownload {
            fid,
            download_url,
            md5,
            range,
            first_bytes,
            sensitive_download_url,
        } => Some(
            seq![
                "fid: "@ + fid@,
                "download_url: "@ + download_url@,
                "md5: "@ + md5@,
                "range: "@ + range@,
                "first_bytes: "@ + decimal(first_bytes as nat),
            ] + match sensitive_download_url {
                Some(u) => seq!["sensitive_download_url: "@ + u@],
                None => Seq::empty(),
            },
        ),
        OutputRecord::Stat { .. } => None,
    }
}

fn joined(a: &str, b: &str) -> (r: String)
    ensures
        r@ == a@ + b@,
{
    let mut r = owned(a);
    r.append(b);
    r
}

fn single_line(color: bool, text: &str) -> (r: Vec<String>)
    ensures
        crate::remote_path::views(r@) == result_line(color, text@),
{
    let mut v: Vec<String> = Vec::new();
    v.push(color_result(color, text));
    assert(crate::remote_path::views(v@) =~= result_line(color, text@));
    v
}

/// Renders a result for table mode (see `record_lines`).
pub fn render_record(record: &OutputRecord, color: bool) -> (r: Option<Vec<String>>)
    ensures
        match record_lines(*record, color) {
            Some(lines) => r matches Some(v) && crate::remote_path::views(v@) == lines,
            None => r is None,
        },
{
    match record {
        OutputRecord::UploadDone { fid, rapid_upload } => {
            let prefix = if *rapid_upload {
                "rapid upload completed: "
            } else {
                "upload completed: "
            };
            Some(single_line(color, joined(prefix, fid.as_str()).as_str()))
        },
        OutputRecord::Deleted { fids } => {
            let mut t = owned("deleted ");
            t.append(decimal_string(fids.len() as u64).as_str());
            t.append(" entr");
            if fids.len() == 1 {
                t.append("y");
            } else {
                t.append("ies");
            }
            proof {
                if fids@.len() == 1 {
                    assert(t@ =~= "deleted "@ + decimal(fids@.len()) + " entr"@ + "y"@);
                } else {
                    assert(t@ =~= "deleted "@ + decimal(fids@.len()) + " entr"@ + "ies"@);
                }
            }
            Some(single_line(color, t.as_str()))
        },
        OutputRecord::Renamed { fid, file_name } => {
            let mut t = owned("renamed ");
            t.append(fid.as_str());
            t.append(" -> ");
            t.append(file_name.as_str());
            Some(single_line(color, t.as_str()))
        },
        OutputRecord::FolderCreated { fid } => {
            Some(single_line(color, joined("folder created: ", fid.as_str()).as_str()))
        },
        OutputRecord::AuthSource { source, path, .. } => {
            let t = match path {
                Some(p) => {
                    let mut t = owned(source.as_str());
                    t.append(": ");
                    t.append(p.as_str());
                    t
                },
                None => owned(source.as_str()),
            };
            Some(single_line(color, t.as_str()))
        },
        OutputRecord::ProbeDownload {
            fid,
            download_url,
            md5,
            range,
            first_bytes,
            sensitive_download_url,
        } => {
            let mut v: Vec<String> = Vec::new();
            v.push(joined("fid: ", fid.as_str()));
            v.push(joined("download_url: ", download_url.as_str()));
            v.push(joined("md5: ", md5.as_str()));
            v.push(joined("range: ", range.as_str()));
            v.push(joined("first_bytes: ", decimal_string(*first_bytes as u64).as_str()));
            match sensitive_download_url {
                Some(u) => {
                    v.push(joined("sensitive_download_url: ", u.as_str()));
                },
                None => {},
            }
            assert(crate::remote_path::views(v@) =~= record_lines(*record, color)->0);
            Some(v)
        },
        OutputRecord::Stat { .. } => None,
    }
}

} // verus!
