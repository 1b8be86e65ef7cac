//! The layout of the debug surfaces: which sections of a report they show, and how the sections are laid
//! out in two columns that end at the same height. Heights are whole numbers of whatever unit the
//! renderer measures in.

use vstd::prelude::*;

use crate::report::{DiagnosticReport, ReportView, Row, RowView};
use crate::report::{first_titled, rows_view};
use crate::text::texts;

verus! {

/// A titled block of finished lines.
#[derive(Debug)]
pub struct PreparedGroup {
    pub title: String,
    pub lines: Vec<String>,
}

/// The characters of a block.
#[verifier::ext_equal]
pub struct GroupView {
    pub title: Seq<char>,
    pub lines: Seq<Seq<char>>,
}

impl View for PreparedGroup {
    type V = GroupView;

    open spec fn view(&self) -> GroupView {
        GroupView { title: self.title@, lines: texts(self.lines@) }
    }
}

/// The characters of a list of blocks.
pub open spec fn groups_view(groups: Seq<PreparedGroup>) -> Seq<GroupView> {
    Seq::new(groups.len(), |i: int| groups[i]@)
}

/// A row as it is drawn.
pub open spec fn row_line(row: RowView) -> Seq<char> {
    "  "@ + row.label + " = "@ + row.value
}

/// Rows as they are drawn.
pub open spec fn row_lines(rows: Seq<RowView>) -> Seq<Seq<char>> {
    Seq::new(rows.len(), |i: int| row_line(rows[i]))
}

/// The block of one section's rows.
pub open spec fn group(title: Seq<char>, rows: Seq<RowView>) -> GroupView {
    GroupView { title, lines: row_lines(rows) }
}

fn prepare(title: &str, rows: &Vec<Row>) -> (out: PreparedGroup)
    ensures
        out@ == group(title@, rows_view(rows@)),
{
    let mut lines: Vec<String> = Vec::new();
    let ghost all = row_lines(rows_view(rows@));
    let mut i: usize = 0;
    assert(texts(lines@) =~= all.take(0));
    while i < rows.len()
        invariant
            i <= rows@.len(),
            all == row_lines(rows_view(rows@)),
            texts(lines@) == all.take(i as int),
        decreases rows@.len() - i,
    {
        let ghost before = texts(lines@);
        let mut line = "  ".to_owned();
        line.append(rows[i].label.as_str());
        line.append(" = ");
        line.append(rows[i].value.as_str());
        let ghost chars = line@;
        lines.push(line);
        assert(texts(lines@) =~= before.push(chars));
        i = i + 1;
        assert(all.take(i as int) =~= before.push(all[i - 1]));
    }
    assert(all.take(i as int) =~= all);
    PreparedGroup { title: title.to_owned(), lines }
}

/// The short view of a report: every section, by its summary where it has one.
pub open spec fn concise_view(report: ReportView) -> Seq<GroupView> {
    Seq::new(
        report.sections.len(),
        |i: int| group(report.sections[i].title, report.sections[i].concise()),
    )
}

/// The short view of a report.
pub fn concise_groups(report: &DiagnosticReport) -> (groups: Vec<PreparedGroup>)
    ensures
        groups_view(groups@) == concise_view(report@),
{
    let mut groups: Vec<PreparedGroup> = Vec::new();
    let ghost all = concise_view(report@);
    let mut i: usize = 0;
    assert(groups_view(groups@) =~= all.take(0));
    while i < report.sections.len()
        invariant
            i <= report.sections@.len(),
            all == concise_view(report@),
            groups_view(groups@) == all.take(i as int),
        decreases report.sections@.len() - i,
    {
        let ghost before = groups_view(groups@);
        let section = &report.sections[i];
        assert(report@.sections[i as int] == section@);
        let entry = if section.has_summary() {
            prepare(section.title.as_str(), &section.summary)
        } else {
            prepare(section.title.as_str(), &section.fields)
        };
        let ghost shown = entry@;
        groups.push(entry);
        assert(groups_view(groups@) =~= before.push(shown));
        i = i + 1;
        assert(all.take(i as int) =~= before.push(all[i - 1]));
    }
    assert(all.take(i as int) =~= all);
    groups
}

/// A category of detail that can be switched on by itself.
#[derive(Clone, Copy, Debug, PartialEq, Eq, Structural)]
pub enum Category {
    Connection,
    Features,
    PlayerStatus,
}

impl Category {
    /// The category's label.
    pub open spec fn label_chars(self) -> Seq<char> {
        match self {
            Category::Connection => "Connection"@,
            Category::Features => "Features"@,
            Category::PlayerStatus => "Player status"@,
        }
    }

    /// The category's label.
    pub fn label(self) -> (label: &'static str)
        ensures
            label@ == self.label_chars(),
    {
        match self {
            Category::Connection => "Connection",
            Category::Features => "Features",
            Category::PlayerStatus => "Player status",
        }
    }
}

/// The number of categories.
pub const CATEGORIES: usize = 3;

/// The categories in the order they are listed.
pub open spec fn category(i: int) -> Category {
    if i == 0 {
        Category::Connection
    } else if i == 1 {
        Category::Features
    } else {
        Category::PlayerStatus
    }
}

/// The category at a position of the list.
pub fn category_at(i: usize) -> (c: Category)
    requires
        i < CATEGORIES,
    ensures
        c == category(i as int),
{
    if i == 0 {
        Category::Connection
    } else if i == 1 {
        Category::Features
    } else {
        Category::PlayerStatus
    }
}

/// The full block of the section with this title, if the report has one.
pub open spec fn full_group(report: ReportView, title: Seq<char>) -> Seq<GroupView> {
    let at = first_titled(report.sections, title, 0);
    if at < report.sections.len() {
        seq![group(report.sections[at].title, report.sections[at].fields)]
    } else {
        Seq::empty()
    }
}

/// The full blocks of the categories that are switched on, in order; a section that is not in the report
/// is left out.
pub open spec fn detail_view(report: ReportView, on: Seq<bool>) -> Seq<GroupView> {
    (if on[0] {
        full_group(report, "coop_connect"@) + full_group(report, "session"@)
    } else {
        Seq::empty()
    }) + (if on[1] {
        full_group(report, "features"@)
    } else {
        Seq::empty()
    }) + (if on[2] {
        full_group(report, "status"@)
    } else {
        Seq::empty()
    })
}

fn add_full(groups: &mut Vec<PreparedGroup>, report: &DiagnosticReport, title: &str)
    ensures
        groups_view(final(groups)@) == groups_view(old(groups)@) + full_group(report@, title@),
{
    match report.find(title) {
        Some(at) => {
            let section = &report.sections[at];
            assert(report@.sections[at as int] == section@);
            let entry = prepare(section.title.as_str(), &section.fields);
            let ghost shown = entry@;
            groups.push(entry);
            assert(groups_view(groups@) =~= groups_view(old(groups)@) + seq![shown]);
        },
        None => {
            assert(groups_view(groups@) =~= groups_view(old(groups)@) + Seq::<GroupView>::empty());
        },
    }
}

/// The full blocks of the categories that are switched on.
pub fn detail_groups(report: &DiagnosticReport, on: [bool; 3]) -> (groups: Vec<PreparedGroup>)
    ensures
        groups_view(groups@) == detail_view(report@, on@),
{
    let mut groups: Vec<PreparedGroup> = Vec::new();
    if on[0] {
        add_full(&mut groups, report, "coop_connect");
        add_full(&mut groups, report, "session");
    }
    if on[1] {
        add_full(&mut groups, report, "features");
    }
    if on[2] {
        add_full(&mut groups, report, "status");
    }
    assert(groups_view(groups@) =~= detail_view(report@, on@));
    groups
}

/// Which column is the taller one.
#[derive(Clone, Copy, Debug, PartialEq, Eq, Structural)]
pub enum HeavyColumn {
    Left,
    Right,
}

/// The units of height.
#[derive(Clone, Copy, Debug, PartialEq, Eq, Structural)]
pub struct Measure {
    /// One line.
    pub line: u64,
    /// The gap between two blocks.
    pub gap: u64,
}

/// How many lines the blocks from `a` on, short of `b`, take: a title and its rows each.
pub open spec fn lines_between(rows: Seq<usize>, a: int, b: int) -> nat
    decreases b - a,
{
    if a >= b {
        0
    } else {
        lines_between(rows, a, b - 1) + 1 + rows[b - 1] as nat
    }
}

/// The height of the blocks from `a` on, short of `b`, in one column.
pub open spec fn height(rows: Seq<usize>, m: Measure, a: int, b: int) -> int {
    lines_between(rows, a, b) * m.line + (if b > a {
        b - a - 1
    } else {
        0
    }) * m.gap
}

/// Whether a split leaves the left column at least as tall.
pub open spec fn left_covers(rows: Seq<usize>, m: Measure, k: int) -> bool {
    height(rows, m, 0, k) >= height(rows, m, k, rows.len() as int)
}

/// Whether a split leaves the right column at least as tall.
pub open spec fn right_covers(rows: Seq<usize>, m: Measure, k: int) -> bool {
    height(rows, m, 0, k) <= height(rows, m, k, rows.len() as int)
}

/// Where the blocks are split: for a tall left column, at the first split that makes it at least as tall
/// as the right one; for a tall right column, at the last that still keeps that one at least as tall.
/// Where no split does, everything goes into the tall column.
pub open spec fn is_split(rows: Seq<usize>, m: Measure, heavy: HeavyColumn, k: int) -> bool {
    match heavy {
        HeavyColumn::Left => {
            &&& 1 <= k < rows.len() && left_covers(rows, m, k) || k == rows.len()
            &&& forall|j: int| 1 <= j < k ==> !#[trigger] left_covers(rows, m, j)
        },
        HeavyColumn::Right => {
            &&& k == 0 || 1 <= k < rows.len() && right_covers(rows, m, k)
            &&& forall|j: int| k < j < rows.len() ==> !#[trigger] right_covers(rows, m, j)
        },
    }
}

proof fn lines_add_up(rows: Seq<usize>, a: int, b: int, c: int)
    requires
        a <= b <= c,
    ensures
        lines_between(rows, a, c) == lines_between(rows, a, b) + lines_between(rows, b, c),
    decreases c - b,
{
    if b < c {
        lines_add_up(rows, a, b, c - 1);
    }
}

/// Moving the split to the right makes the left column taller and the right one shorter, or leaves them
/// as they are.
pub proof fn columns_are_monotone(rows: Seq<usize>, m: Measure, j: int, k: int)
    requires
        0 <= j <= k <= rows.len(),
    ensures
        height(rows, m, 0, j) <= height(rows, m, 0, k),
        height(rows, m, j, rows.len() as int) >= height(rows, m, k, rows.len() as int),
{
    let n = rows.len() as int;
    lines_add_up(rows, 0, j, k);
    lines_add_up(rows, j, k, n);
    let (a, b) = (lines_between(rows, 0, j) as int, lines_between(rows, 0, k) as int);
    let (c, d) = (lines_between(rows, j, n) as int, lines_between(rows, k, n) as int);
    let (line, gap) = (m.line as int, m.gap as int);
    let (g0, g1) = (if j > 0 {
        j - 1
    } else {
        0
    }, if k > 0 {
        k - 1
    } else {
        0
    });
    let (h0, h1) = (if n > j {
        n - j - 1
    } else {
        0
    }, if n > k {
        n - k - 1
    } else {
        0
    });
    assert(a * line <= b * line) by (nonlinear_arith)
        requires
            a <= b,
            line >= 0,
    ;
    assert(d * line <= c * line) by (nonlinear_arith)
        requires
            d <= c,
            line >= 0,
    ;
    assert(g0 * gap <= g1 * gap) by (nonlinear_arith)
        requires
            g0 <= g1,
            gap >= 0,
    ;
    assert(h1 * gap <= h0 * gap) by (nonlinear_arith)
        requires
            h1 <= h0,
            gap >= 0,
    ;
}

/// The tall column is the one that was asked for.
pub proof fn tall_column_is_tall(rows: Seq<usize>, m: Measure, heavy: HeavyColumn, k: int)
    requires
        is_split(rows, m, heavy, k),
    ensures
        heavy == HeavyColumn::Left ==> left_covers(rows, m, k),
        heavy == HeavyColumn::Right ==> right_covers(rows, m, k),
{
    let n = rows.len() as int;
    assert(lines_between(rows, 0, 0) == 0);
    assert(lines_between(rows, n, n) == 0);
    columns_are_monotone(rows, m, 0, n);
}

/// There is one such split and no other.
pub proof fn split_is_unique(rows: Seq<usize>, m: Measure, heavy: HeavyColumn, k: int, l: int)
    requires
        is_split(rows, m, heavy, k),
        is_split(rows, m, heavy, l),
    ensures
        k == l,
{
    if k < l {
        if heavy == HeavyColumn::Left {
            assert(!left_covers(rows, m, k));
        } else {
            assert(!right_covers(rows, m, l));
        }
    } else if l < k {
        if heavy == HeavyColumn::Left {
            assert(!left_covers(rows, m, l));
        } else {
            assert(!right_covers(rows, m, k));
        }
    }
}

fn column_height(rows: &Vec<usize>, m: Measure, a: usize, b: usize) -> (h: u64)
    requires
        a <= b <= rows@.len(),
        height(rows@, m, 0, rows@.len() as int) <= u64::MAX,
        lines_between(rows@, 0, rows@.len() as int) <= u64::MAX,
    ensures
        h as int == height(rows@, m, a as int, b as int),
{
    proof {
        let n = rows@.len() as int;
        columns_are_monotone(rows@, m, a as int, n);
        columns_are_monotone(rows@, m, 0, a as int);
        part_of_column(rows@, m, a as int, b as int);
        lines_add_up(rows@, 0, a as int, b as int);
        lines_add_up(rows@, 0, b as int, n);
    }
    let mut lines: u64 = 0;
    let mut i: usize = a;
    while i < b
        invariant
            a <= i <= b <= rows@.len(),
            lines as nat == lines_between(rows@, a as int, i as int),
            lines_between(rows@, a as int, b as int) <= u64::MAX,
        decreases b - i,
    {
        proof {
            lines_add_up(rows@, a as int, (i + 1) as int, b as int);
        }
        lines = lines + 1 + rows[i] as u64;
        i = i + 1;
    }
    let gaps: u64 = if b > a {
        (b - a - 1) as u64
    } else {
        0
    };
    proof {
        let (x, y, l, g) = (lines as int, gaps as int, m.line as int, m.gap as int);
        assert(x * l >= 0 && y * g >= 0) by (nonlinear_arith)
            requires
                x >= 0,
                y >= 0,
                l >= 0,
                g >= 0,
        ;
    }
    lines * m.line + gaps * m.gap
}

proof fn part_of_column(rows: Seq<usize>, m: Measure, a: int, b: int)
    requires
        0 <= a <= b <= rows.len(),
    ensures
        height(rows, m, a, b) <= height(rows, m, 0, rows.len() as int),
{
    let n = rows.len() as int;
    lines_add_up(rows, 0, a, b);
    lines_add_up(rows, 0, b, n);
    let (x, y) = (lines_between(rows, a, b) as int, lines_between(rows, 0, n) as int);
    let (line, gap) = (m.line as int, m.gap as int);
    let (g0, g1) = (if b > a {
        b - a - 1
    } else {
        0
    }, if n > 0 {
        n - 1
    } else {
        0
    });
    assert(x * line <= y * line) by (nonlinear_arith)
        requires
            x <= y,
            line >= 0,
    ;
    assert(g0 * gap <= g1 * gap) by (nonlinear_arith)
        requires
            g0 <= g1,
            gap >= 0,
    ;
}

/// The two columns: where the blocks are split, and how much room is left above each column so that both
/// end at the same height.
#[derive(Clone, Copy, Debug, PartialEq, Eq, Structural)]
pub struct Columns {
    pub split: usize,
    pub pad_left: u64,
    pub pad_right: u64,
}

/// The room above a column of height `own` beside one of height `other`.
pub open spec fn pad(own: int, other: int) -> int {
    if other > own {
        other - own
    } else {
        0
    }
}

/// Lays the blocks out in two columns. `rows` holds the number of rows of each block.
pub fn layout(rows: &Vec<usize>, m: Measure, heavy: HeavyColumn) -> (columns: Columns)
    requires
        height(rows@, m, 0, rows@.len() as int) <= u64::MAX,
        lines_between(rows@, 0, rows@.len() as int) <= u64::MAX,
    ensures
        is_split(rows@, m, heavy, columns.split as int),
        ({
            let left = height(rows@, m, 0, columns.split as int);
            let right = height(rows@, m, columns.split as int, rows@.len() as int);
            &&& columns.pad_left == pad(left, right)
            &&& columns.pad_right == pad(right, left)
        }),
{
    let n: usize = rows.len();
    let mut split: usize = match heavy {
        HeavyColumn::Left => n,
        HeavyColumn::Right => 0,
    };
    let mut k: usize = 1;
    let mut searching = true;
    while searching && k < n
        invariant
            n == rows@.len(),
            1 <= k,
            k <= n || n == 0,
            height(rows@, m, 0, n as int) <= u64::MAX,
            lines_between(rows@, 0, n as int) <= u64::MAX,
            heavy == HeavyColumn::Left && searching ==> split == n && (forall|j: int|
                1 <= j < k ==> !#[trigger] left_covers(rows@, m, j)),
            heavy == HeavyColumn::Left && !searching ==> is_split(rows@, m, heavy, split as int),
            heavy == HeavyColumn::Right && searching ==> (split == 0 && k == 1 || split == k - 1
                && right_covers(rows@, m, split as int) && split >= 1),
            heavy == HeavyColumn::Right && !searching ==> is_split(rows@, m, heavy, split as int),
            n <= 1 ==> k == 1,
        decreases n - k, searching as int,
    {
        let left: u64 = column_height(rows, m, 0, k);
        let right: u64 = column_height(rows, m, k, n);
        match heavy {
            HeavyColumn::Left => {
                if left >= right {
                    split = k;
                    searching = false;
                }
            },
            HeavyColumn::Right => {
                if left <= right {
                    split = k;
                } else {
                    searching = false;
                    proof {
                        assert forall|j: int| split < j < n implies !#[trigger] right_covers(
                            rows@,
                            m,
                            j,
                        ) by {
                            columns_are_monotone(rows@, m, k as int, j);
                        }
                    }
                }
            },
        }
        k = k + 1;
    }
    let left: u64 = column_height(rows, m, 0, split);
    let right: u64 = column_height(rows, m, split, n);
    let pad_left: u64 = if right > left {
        right - left
    } else {
        0
    };
    let pad_right: u64 = if left > right {
        left - right
    } else {
        0
    };
    Columns { split, pad_left, pad_right }
}

/// Both columns end at the same height, and room is left above at most one of them.
pub proof fn columns_end_together(left: int, right: int)
    requires
        left >= 0,
        right >= 0,
    ensures
        left + pad(left, right) == right + pad(right, left),
        pad(left, right) == 0 || pad(right, left) == 0,
{
}

/// The width of the widest of several texts; nothing is as wide as no text.
pub open spec fn is_widest(widths: Seq<u64>, w: u64) -> bool {
    &&& forall|i: int| 0 <= i < widths.len() ==> #[trigger] widths[i] <= w
    &&& w == 0 || exists|i: int| 0 <= i < widths.len() && #[trigger] widths[i] == w
}

/// The width of the widest of several texts.
pub fn widest(widths: &Vec<u64>) -> (w: u64)
    ensures
        is_widest(widths@, w),
{
    let mut w: u64 = 0;
    let mut i: usize = 0;
    while i < widths.len()
        invariant
            i <= widths@.len(),
            forall|j: int| 0 <= j < i ==> #[trigger] widths@[j] <= w,
            w == 0 || exists|j: int| 0 <= j < i && #[trigger] widths@[j] == w,
        decreases widths@.len() - i,
    {
        if widths[i] > w {
            w = widths[i];
        }
        i = i + 1;
    }
    w
}

/// A column is as high as its lines: nothing is nothing high, a group takes a line for its title and one for each of
/// its rows, and two parts of a column take their own heights and one gap between them.
pub proof fn a_column_is_as_high_as_its_lines(rows: Seq<usize>, m: Measure, a: int, b: int, c: int)
    requires
        0 <= a < b < c <= rows.len(),
    ensures
        height(rows, m, a, a) == 0,
        height(rows, m, a, a + 1) == (1 + rows[a]) * m.line,
        height(rows, m, a, c) == height(rows, m, a, b) + height(rows, m, b, c) + m.gap,
{
    lines_add_up(rows, a, b, c);
    reveal_with_fuel(lines_between, 2);
    let x = lines_between(rows, a, b) as int;
    let y = lines_between(rows, b, c) as int;
    let line = m.line as int;
    let gap = m.gap as int;
    assert((x + y) * line == x * line + y * line) by (nonlinear_arith);
    assert((c - a - 1) * gap == (b - a - 1) * gap + (c - b - 1) * gap + gap) by (nonlinear_arith);
    assert(0 * line == 0) by (nonlinear_arith);
    assert(0 * gap == 0) by (nonlinear_arith);
}

/// The columns are split where the tall one is first as high as the other: at the split it is, and one group less
/// would not do.
pub proof fn the_split_is_the_first_that_covers(rows: Seq<usize>, m: Measure, k: int, j: int)
    ensures
        is_split(rows, m, HeavyColumn::Left, k) && 1 <= j < k ==> height(rows, m, 0, j) < height(
            rows,
            m,
            j,
            rows.len() as int,
        ),
        is_split(rows, m, HeavyColumn::Left, k) && k < rows.len() ==> height(rows, m, 0, k)
            >= height(rows, m, k, rows.len() as int),
        is_split(rows, m, HeavyColumn::Right, k) && k < j < rows.len() ==> height(rows, m, 0, j)
            > height(rows, m, j, rows.len() as int),
        is_split(rows, m, HeavyColumn::Right, k) && k > 0 ==> height(rows, m, 0, k) <= height(
            rows,
            m,
            k,
            rows.len() as int,
        ),
{
    assert(left_covers(rows, m, j) == (height(rows, m, 0, j) >= height(
        rows,
        m,
        j,
        rows.len() as int,
    )));
    assert(right_covers(rows, m, j) == (height(rows, m, 0, j) <= height(
        rows,
        m,
        j,
        rows.len() as int,
    )));
}

/// Every section of the report has its group, under its title and at its place, with a line for each row that it
/// shows when space is short.
pub proof fn every_section_has_its_group(report: ReportView, i: int, j: int)
    requires
        0 <= i < report.sections.len(),
        0 <= j < report.sections[i].concise().len(),
    ensures
        concise_view(report).len() == report.sections.len(),
        concise_view(report)[i].title == report.sections[i].title,
        concise_view(report)[i].lines.len() == report.sections[i].concise().len(),
        concise_view(report)[i].lines[j] == "  "@ + report.sections[i].concise()[j].label + " = "@
            + report.sections[i].concise()[j].value,
{
}

/// The details of a category that is off are not shown; those of one that is on are shown in full, where the report
/// has them.
pub proof fn details_follow_their_switches(report: ReportView, on: Seq<bool>)
    requires
        on.len() == 3,
    ensures
        !on[0] && !on[1] && !on[2] ==> detail_view(report, on).len() == 0,
        on == seq![true, false, false] ==> detail_view(report, on) == full_group(
            report,
            "coop_connect"@,
        ) + full_group(report, "session"@),
        on == seq![false, true, false] ==> detail_view(report, on) == full_group(
            report,
            "features"@,
        ),
        on == seq![false, false, true] ==> detail_view(report, on) == full_group(report, "status"@),
        detail_view(report, on) == detail_view(report, seq![on[0], false, false]) + detail_view(
            report,
            seq![false, on[1], false],
        ) + detail_view(report, seq![false, false, on[2]]),
{
}

/// A section that is shown in full is the one with the title, with every field of it; a title that no section has
/// shows nothing.
pub proof fn a_full_group_shows_every_field(report: ReportView, title: Seq<char>)
    ensures
        (exists|i: int|
            0 <= i < report.sections.len() && (#[trigger] report.sections[i]).title == title)
            == (full_group(report, title).len() == 1),
        full_group(report, title).len() <= 1,
        full_group(report, title).len() == 1 ==> full_group(report, title)[0].title == title
            && exists|i: int|
            0 <= i < report.sections.len() && (#[trigger] report.sections[i]).title == title
                && full_group(report, title)[0].lines.len() == report.sections[i].fields.len(),
{
    crate::report::the_first_section_is_found(report.sections, title, 0);
    let at = first_titled(report.sections, title, 0);
    if at < report.sections.len() {
        assert(report.sections[at].title == title);
    } else {
        assert forall|i: int| 0 <= i < report.sections.len() implies (
        #[trigger] report.sections[i]).title != title by {}
    }
}

/// The three categories, in their order.
pub proof fn the_categories()
    ensures
        category(0) == Category::Connection,
        category(1) == Category::Features,
        category(2) == Category::PlayerStatus,
{
}

/// Only the shorter column is padded, by what it lacks.
pub proof fn the_shorter_column_is_padded(own: int, other: int)
    ensures
        other > own ==> pad(own, other) == other - own,
        other <= own ==> pad(own, other) == 0,
{
}

/// The widest is as wide as one of them and no less wide than any; of none it is nothing.
pub proof fn the_widest_is_one_of_them(widths: Seq<u64>, w: u64, i: int)
    requires
        is_widest(widths, w),
    ensures
        0 <= i < widths.len() ==> widths[i] <= w,
        w > 0 ==> widths.contains(w),
        widths.len() == 0 ==> w == 0,
{
    if w > 0 {
        let j = choose|j: int| 0 <= j < widths.len() && #[trigger] widths[j] == w;
        assert(widths[j] == w);
    }
}

} // verus!
