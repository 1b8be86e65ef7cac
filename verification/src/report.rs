//! The diagnostic report model: titled sections of label/value rows, each section with an optional
//! condensed summary. A report is built by appending, so its view is the list of what was appended.

use vstd::prelude::*;

use crate::text;

verus! {

/// One label/value row.
#[derive(Debug)]
pub struct Row {
    pub label: String,
    pub value: String,
}

/// The characters of a row.
pub struct RowView {
    pub label: Seq<char>,
    pub value: Seq<char>,
}

impl View for Row {
    type V = RowView;

    open spec fn view(&self) -> RowView {
        RowView { label: self.label@, value: self.value@ }
    }
}

impl Row {
    pub fn new(label: &str, value: &str) -> (row: Row)
        ensures
            row@ == (RowView { label: label@, value: value@ }),
    {
        Row { label: label.to_owned(), value: value.to_owned() }
    }
}

/// The characters of a list of rows.
pub open spec fn rows_view(rows: Seq<Row>) -> Seq<RowView> {
    Seq::new(rows.len(), |i: int| rows[i]@)
}

/// One section: its title, its full rows, and the rows that stand for it where space is short.
#[derive(Debug)]
pub struct Section {
    pub title: String,
    pub fields: Vec<Row>,
    pub summary: Vec<Row>,
}

/// The characters of a section.
#[verifier::ext_equal]
pub struct SectionView {
    pub title: Seq<char>,
    pub fields: Seq<RowView>,
    pub summary: Seq<RowView>,
}

impl View for Section {
    type V = SectionView;

    open spec fn view(&self) -> SectionView {
        SectionView {
            title: self.title@,
            fields: rows_view(self.fields@),
            summary: rows_view(self.summary@),
        }
    }
}

impl SectionView {
    /// A section with a title and no rows.
    pub open spec fn titled(title: Seq<char>) -> SectionView {
        SectionView { title, fields: Seq::empty(), summary: Seq::empty() }
    }

    /// The section with one more full row.
    pub open spec fn field(self, label: Seq<char>, value: Seq<char>) -> SectionView {
        SectionView { fields: self.fields.push(RowView { label, value }), ..self }
    }

    /// The section with one more summary row.
    pub open spec fn summary_line(self, label: Seq<char>, value: Seq<char>) -> SectionView {
        SectionView { summary: self.summary.push(RowView { label, value }), ..self }
    }

    /// The rows a space-short view shows: the summary where there is one, else every row.
    pub open spec fn concise(self) -> Seq<RowView> {
        if self.summary.len() > 0 {
            self.summary
        } else {
            self.fields
        }
    }
}

impl Section {
    /// An empty section.
    pub fn titled(title: &str) -> (section: Section)
        ensures
            section@ == SectionView::titled(title@),
    {
        let section = Section { title: title.to_owned(), fields: Vec::new(), summary: Vec::new() };
        assert(section@ =~= SectionView::titled(title@));
        section
    }

    /// Appends a full row.
    pub fn field(&mut self, label: &str, value: &str)
        ensures
            final(self)@ == old(self)@.field(label@, value@),
    {
        let row = Row::new(label, value);
        self.fields.push(row);
        assert(self@ =~= old(self)@.field(label@, value@));
    }

    /// Appends a summary row.
    pub fn summary_line(&mut self, label: &str, value: &str)
        ensures
            final(self)@ == old(self)@.summary_line(label@, value@),
    {
        let row = Row::new(label, value);
        self.summary.push(row);
        assert(self@ =~= old(self)@.summary_line(label@, value@));
    }

    /// Whether the section has a summary.
    pub fn has_summary(&self) -> (yes: bool)
        ensures
            yes == (self@.summary.len() > 0),
    {
        self.summary.len() > 0
    }
}

/// A whole report.
#[derive(Debug)]
pub struct DiagnosticReport {
    pub title: String,
    pub sections: Vec<Section>,
}

/// The characters of a report.
#[verifier::ext_equal]
pub struct ReportView {
    pub title: Seq<char>,
    pub sections: Seq<SectionView>,
}

/// The characters of a list of sections.
pub open spec fn sections_view(sections: Seq<Section>) -> Seq<SectionView> {
    Seq::new(sections.len(), |i: int| sections[i]@)
}

impl View for DiagnosticReport {
    type V = ReportView;

    open spec fn view(&self) -> ReportView {
        ReportView { title: self.title@, sections: sections_view(self.sections@) }
    }
}

impl ReportView {
    /// The report with one more section.
    pub open spec fn section(self, section: SectionView) -> ReportView {
        ReportView { sections: self.sections.push(section), ..self }
    }

    /// The position of the first section with the title, or the number of sections.
    pub open spec fn position(self, title: Seq<char>) -> int {
        first_titled(self.sections, title, 0)
    }
}

/// The first position at or after `from` whose section has the title, or the number of sections.
pub open spec fn first_titled(sections: Seq<SectionView>, title: Seq<char>, from: int) -> int
    decreases sections.len() - from,
{
    if from >= sections.len() {
        sections.len() as int
    } else if sections[from].title == title {
        from
    } else {
        first_titled(sections, title, from + 1)
    }
}

fn copy_rows(rows: &Vec<Row>) -> (copy: Vec<Row>)
    ensures
        rows_view(copy@) == rows_view(rows@),
{
    let mut copy: Vec<Row> = Vec::new();
    let mut i: usize = 0;
    assert(rows_view(copy@) =~= rows_view(rows@).take(0));
    while i < rows.len()
        invariant
            i <= rows@.len(),
            rows_view(copy@) == rows_view(rows@).take(i as int),
        decreases rows@.len() - i,
    {
        let ghost before = rows_view(copy@);
        copy.push(Row::new(rows[i].label.as_str(), rows[i].value.as_str()));
        assert(rows_view(copy@) =~= before.push(rows@[i as int]@));
        i = i + 1;
        assert(rows_view(rows@).take(i as int) =~= before.push(rows_view(rows@)[i - 1]));
    }
    assert(rows_view(copy@) =~= rows_view(rows@));
    copy
}

impl DiagnosticReport {
    /// A copy of the report.
    pub fn copy(&self) -> (report: DiagnosticReport)
        ensures
            report@ == self@,
    {
        let mut sections: Vec<Section> = Vec::new();
        let mut i: usize = 0;
        assert(sections_view(sections@) =~= self@.sections.take(0));
        while i < self.sections.len()
            invariant
                i <= self.sections@.len(),
                sections_view(sections@) == self@.sections.take(i as int),
            decreases self.sections@.len() - i,
        {
            let from = &self.sections[i];
            let section = Section {
                title: from.title.clone(),
                fields: copy_rows(&from.fields),
                summary: copy_rows(&from.summary),
            };
            assert(section@ =~= from@);
            let ghost before = sections_view(sections@);
            sections.push(section);
            assert(sections_view(sections@) =~= before.push(self.sections@[i as int]@));
            i = i + 1;
            assert(self@.sections.take(i as int) =~= before.push(self@.sections[i - 1]));
        }
        let report = DiagnosticReport { title: self.title.clone(), sections };
        assert(report@ =~= self@);
        report
    }

    /// A report with no sections.
    pub fn new(title: &str) -> (report: DiagnosticReport)
        ensures
            report@ == (ReportView { title: title@, sections: Seq::empty() }),
    {
        let report = DiagnosticReport { title: title.to_owned(), sections: Vec::new() };
        assert(report@ =~= (ReportView { title: title@, sections: Seq::empty() }));
        report
    }

    /// Appends a section.
    pub fn push_section(&mut self, section: Section)
        ensures
            final(self)@ == old(self)@.section(section@),
    {
        self.sections.push(section);
        assert(self@ =~= old(self)@.section(section@));
    }

    /// The position of the first section with this title.
    pub fn find(&self, title: &str) -> (at: Option<usize>)
        ensures
            match at {
                Some(i) => i < self.sections@.len() && i as int == self@.position(title@),
                None => self@.position(title@) == self@.sections.len(),
            },
    {
        let mut i: usize = 0;
        while i < self.sections.len()
            invariant
                i <= self.sections@.len(),
                first_titled(self@.sections, title@, 0) == first_titled(
                    self@.sections,
                    title@,
                    i as int,
                ),
            decreases self.sections@.len() - i,
        {
            assert(self@.sections[i as int].title == self.sections@[i as int].title@);
            if text::same_text(self.sections[i].title.as_str(), title) {
                return Some(i);
            }
            i = i + 1;
        }
        None
    }
}

/// The section that is found under a title has it, and none before it does; where none has it, none is found.
pub proof fn the_first_section_is_found(sections: Seq<SectionView>, title: Seq<char>, from: int)
    requires
        0 <= from <= sections.len(),
    ensures
        from <= first_titled(sections, title, from) <= sections.len(),
        first_titled(sections, title, from) < sections.len() ==> sections[first_titled(
            sections,
            title,
            from,
        )].title == title,
        forall|k: int|
            from <= k < first_titled(sections, title, from) ==> (#[trigger] sections[k]).title
                != title,
    decreases sections.len() - from,
{
    if from < sections.len() && sections[from].title != title {
        the_first_section_is_found(sections, title, from + 1);
    }
}

/// A row is added at the end of its own list and nothing else of the section changes; where space is short the
/// summary stands for the section, and without one every row is shown.
pub proof fn rows_are_added_at_the_end(section: SectionView, label: Seq<char>, value: Seq<char>)
    ensures
        section.field(label, value).fields.len() == section.fields.len() + 1,
        section.field(label, value).fields.last() == (RowView { label, value }),
        section.field(label, value).fields.drop_last() == section.fields,
        section.field(label, value).summary == section.summary,
        section.field(label, value).title == section.title,
        section.summary_line(label, value).summary.last() == (RowView { label, value }),
        section.summary_line(label, value).summary.drop_last() == section.summary,
        section.summary_line(label, value).fields == section.fields,
        section.summary_line(label, value).title == section.title,
        section.summary.len() == 0 ==> section.concise() == section.fields,
        section.summary.len() > 0 ==> section.concise() == section.summary,
        SectionView::titled(label).title == label,
        SectionView::titled(label).fields.len() == 0,
        SectionView::titled(label).summary.len() == 0,
{
    assert(section.fields.push(RowView { label, value }).drop_last() =~= section.fields);
    assert(section.summary.push(RowView { label, value }).drop_last() =~= section.summary);
}

/// The position of a title is that of the first section with it.
pub proof fn a_title_stands_at_its_first_section(report: ReportView, title: Seq<char>, i: int)
    requires
        0 <= i < report.sections.len(),
        report.sections[i].title == title,
        forall|j: int| 0 <= j < i ==> (#[trigger] report.sections[j]).title != title,
    ensures
        report.position(title) == i,
{
    the_first_section_is_found(report.sections, title, 0);
}

} // verus!
