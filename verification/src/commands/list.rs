//! The command that lists what the catalog offers.

use crate::commands::outcome::{Param, param_views, ParamKind, ParamView};
use crate::utils::text::{
    chars_of, contains_text, Span, span_contains, span_starts_with, split, split_spans, starts_with,
    string_of, trim, trim_span,
};
use vstd::prelude::*;

verus! {

/// The command that lists what the catalog offers.
#[derive(Clone, Copy, Debug)]
pub struct List;

/// One version in the catalog's table of versions.
#[derive(Debug, Clone)]
pub struct VersionRow {
    pub vendor: String,
    pub use_marker: String,
    pub version: String,
    pub dist: String,
    pub status: String,
    pub identifier: String,
}

/// What a row says, with its texts as sequences of characters.
pub struct RowView {
    pub vendor: Seq<char>,
    pub use_marker: Seq<char>,
    pub version: Seq<char>,
    pub dist: Seq<char>,
    pub status: Seq<char>,
    pub identifier: Seq<char>,
}

impl View for VersionRow {
    type V = RowView;

    open spec fn view(&self) -> RowView {
        RowView {
            vendor: self.vendor@,
            use_marker: self.use_marker@,
            version: self.version@,
            dist: self.dist@,
            status: self.status@,
            identifier: self.identifier@,
        }
    }
}

/// Whether a line of the table is a heading or a rule: trimmed, it begins
/// with `====`, `Available` or `----`, or it holds `Vendor`.
pub open spec fn is_heading(line: Seq<char>) -> bool {
    let t = trim(line);
    starts_with(t, "===="@) || starts_with(t, "Available"@) || contains_text(t, "Vendor"@)
        || starts_with(t, "----"@)
}

/// The cells of a line of the table, each trimmed, where the line is no
/// heading and `|` splits it into six cells or more.
pub open spec fn cells_of(line: Seq<char>) -> Option<Seq<Seq<char>>> {
    let cells = split(line, '|');
    if is_heading(line) || cells.len() < 6 {
        None
    } else {
        Some(Seq::new(cells.len(), |i: int| trim(cells[i])))
    }
}

/// The vendor that applies behind the first `n` lines: the first cell of the
/// last line with cells whose first cell is not empty.
pub open spec fn vendor_after(lines: Seq<Seq<char>>, n: int) -> Seq<char>
    decreases n,
{
    if n <= 0 {
        Seq::<char>::empty()
    } else {
        match cells_of(lines[n - 1]) {
            Some(cells) => if cells[0].len() > 0 {
                cells[0]
            } else {
                vendor_after(lines, n - 1)
            },
            None => vendor_after(lines, n - 1),
        }
    }
}

/// The rows of the first `n` lines: one for each line with cells whose sixth
/// cell, the identifier, is not empty.
pub open spec fn rows_upto(lines: Seq<Seq<char>>, n: int) -> Seq<RowView>
    decreases n,
{
    if n <= 0 {
        Seq::<RowView>::empty()
    } else {
        let before = rows_upto(lines, n - 1);
        match cells_of(lines[n - 1]) {
            Some(cells) => if cells[5].len() > 0 {
                before.push(
                    RowView {
                        vendor: vendor_after(lines, n),
                        use_marker: cells[1],
                        version: cells[2],
                        dist: cells[3],
                        status: cells[4],
                        identifier: cells[5],
                    },
                )
            } else {
                before
            },
            None => before,
        }
    }
}

/// The rows of the catalog's table of versions.
pub open spec fn rows_of(text: Seq<char>) -> Seq<RowView> {
    rows_upto(split(text, '\n'), split(text, '\n').len() as int)
}

impl List {
    /// The name under which the command is called.
    pub fn name(&self) -> (r: &'static str)
        ensures
            r@ == "sdk list"@,
    {
        "sdk list"
    }

    /// One line on what the command does.
    pub fn description(&self) -> (r: &'static str)
        ensures
            r@ == "List available candidates or versions"@,
    {
        "List available candidates or versions"
    }

    /// The parameters of the command, in the order in which they are given.
    pub fn signature(&self) -> (r: Vec<Param>)
        ensures
            param_views(r@) == seq![
                ParamView {
                    kind: ParamKind::Optional,
                    name: "candidate"@,
                    description: "Candidate to list versions for"@,
                    short: None,
                },
            ],
    {
        let mut r: Vec<Param> = Vec::new();
        r.push(
            Param {
                kind: ParamKind::Optional,
                name: "candidate",
                description: "Candidate to list versions for",
                short: None,
            },
        );
        assert(param_views(r@) =~= seq![
            ParamView {
                kind: ParamKind::Optional,
                name: "candidate"@,
                description: "Candidate to list versions for"@,
                short: None,
            },
        ]);
        r
    }

    /// Reads the catalog's table of versions.
    ///
    /// Headings and rules are passed over, and so is every line with fewer
    /// than six cells. A row without a vendor belongs to the vendor named
    /// last. A line without an identifier gives no row.
    pub fn list_versions(&self, text: &str) -> (r: Vec<VersionRow>)
        ensures
            r@.map_values(|row: VersionRow| row@) == rows_of(text@),
    {
        let chars = chars_of(text);
        let lines = split_spans(&chars, 0, chars.len(), '\n');
        let ghost all = split(text@, '\n');
        assert(chars@.subrange(0, chars@.len() as int) =~= text@);
        let rule = chars_of("====");
        let available = chars_of("Available");
        let heading = chars_of("Vendor");
        let dashes = chars_of("----");
        let mut r: Vec<VersionRow> = Vec::new();
        let mut vendor: Span = Span { lo: 0, hi: 0 };
        let mut n: usize = 0;
        assert(r@.map_values(|row: VersionRow| row@) =~= rows_upto(all, 0));
        assert(vendor.of(chars@) =~= vendor_after(all, 0));
        while n < lines.len()
            invariant
                chars@ == text@,
                all == split(text@, '\n'),
                lines@.len() == all.len(),
                forall|k: int|
                    0 <= k < lines@.len() ==> (#[trigger] lines@[k]).within(
                        0,
                        chars@.len() as int,
                    ) && lines@[k].of(chars@) == all[k],
                rule@ == "===="@,
                available@ == "Available"@,
                heading@ == "Vendor"@,
                dashes@ == "----"@,
                n <= lines@.len(),
                vendor.within(0, chars@.len() as int),
                vendor.of(chars@) == vendor_after(all, n as int),
                r@.map_values(|row: VersionRow| row@) == rows_upto(all, n as int),
            decreases lines@.len() - n,
        {
            let line: Span = lines[n];
            let t = trim_span(&chars, line.lo, line.hi);
            let skip = span_starts_with(&chars, t.lo, t.hi, &rule) || span_starts_with(
                &chars,
                t.lo,
                t.hi,
                &available,
            ) || span_contains(&chars, t.lo, t.hi, &heading) || span_starts_with(
                &chars,
                t.lo,
                t.hi,
                &dashes,
            );
            assert(skip == is_heading(all[n as int]));
            if !skip {
                let cells = split_spans(&chars, line.lo, line.hi, '|');
                if cells.len() >= 6 {
                    let c0 = trim_span(&chars, cells[0].lo, cells[0].hi);
                    let c1 = trim_span(&chars, cells[1].lo, cells[1].hi);
                    let c2 = trim_span(&chars, cells[2].lo, cells[2].hi);
                    let c3 = trim_span(&chars, cells[3].lo, cells[3].hi);
                    let c4 = trim_span(&chars, cells[4].lo, cells[4].hi);
                    let c5 = trim_span(&chars, cells[5].lo, cells[5].hi);
                    if c0.lo < c0.hi {
                        vendor = c0;
                    }
                    if c5.lo < c5.hi {
                        let ghost before = r@.map_values(|row: VersionRow| row@);
                        let row = VersionRow {
                            vendor: string_of(&chars, vendor.lo, vendor.hi),
                            use_marker: string_of(&chars, c1.lo, c1.hi),
                            version: string_of(&chars, c2.lo, c2.hi),
                            dist: string_of(&chars, c3.lo, c3.hi),
                            status: string_of(&chars, c4.lo, c4.hi),
                            identifier: string_of(&chars, c5.lo, c5.hi),
                        };
                        r.push(row);
                        assert(r@.map_values(|row: VersionRow| row@) =~= before.push(row@));
                    }
                }
            }
            n = n + 1;
        }
        r
    }
}

} // verus!
