//! What the tables and edit forms show of the records.

use crate::app_data::{AppData, DataIndex};
use crate::names::{
    lemma_name_before_connected, lemma_name_before_irreflexive, lemma_name_before_transitive,
    name_before, str_before, strings_view,
};
use crate::sorting::Sorting;
use vstd::prelude::*;

verus! {

/// The least width of a column.
pub const MIN_COL_WIDTH: u16 = 40;

/// The least width of the first column, which holds the names.
pub const NAME_COL_WIDTH: u16 = 120;

/// One line of a table: what it shows in each column, and the identifier of
/// the record it stands for.
pub struct DisplayLine {
    fields: Vec<String>,
    id: DataIndex,
}

/// A line of a table as a mathematical value.
pub struct DisplayLineView {
    pub fields: Seq<Seq<char>>,
    pub id: DataIndex,
}

impl View for DisplayLine {
    type V = DisplayLineView;

    closed spec fn view(&self) -> DisplayLineView {
        DisplayLineView { fields: strings_view(self.fields@), id: self.id }
    }
}

impl DisplayLine {
    /// A line of the given fields for the record of the given identifier.
    pub fn new(fields: Vec<String>, id: DataIndex) -> (r: Self)
        ensures
            r@ == (DisplayLineView { fields: strings_view(fields@), id }),
    {
        DisplayLine { fields, id }
    }

    /// A line without fields, for no record.
    fn blank() -> (r: Self)
        ensures
            r@.fields.len() == 0,
    {
        DisplayLine { fields: Vec::new(), id: DataIndex::Nothing }
    }

    /// What identifies the line to the reader: its first field, which the
    /// line must have.
    pub fn id(&self) -> (r: &String)
        requires
            self@.fields.len() > 0,
        ensures
            r@ == self@.fields[0],
    {
        &self.fields[0]
    }

    /// The identifier of the record that the line stands for.
    pub fn data_index(&self) -> (r: DataIndex)
        ensures
            r == self@.id,
    {
        self.id
    }

    /// The number of fields.
    pub fn num_fields(&self) -> (r: usize)
        ensures
            r == self@.fields.len(),
    {
        self.fields.len()
    }

    /// The field of the given number, which the line must have.
    pub fn field(&self, number: usize) -> (r: &str)
        requires
            number < self@.fields.len(),
        ensures
            r@ == self@.fields[number as int],
    {
        self.fields[number].as_str()
    }

    /// The fields, first to last.
    pub fn field_iter(&self) -> (r: &Vec<String>)
        ensures
            strings_view(r@) == self@.fields,
    {
        &self.fields
    }
}

/// How wide a column is.
#[derive(Debug, Clone, Copy, PartialEq, Eq, Structural)]
pub enum ColumnWidth {
    /// The column takes what room is left.
    Extended,
    /// The column is at least so wide.
    Standard(u16),
}

/// A column of a table: its width and the message key of its heading.
pub struct ColumnInfo {
    width: ColumnWidth,
    heading: String,
}

/// A column as a mathematical value.
pub struct ColumnInfoView {
    pub width: ColumnWidth,
    pub heading: Seq<char>,
}

impl View for ColumnInfo {
    type V = ColumnInfoView;

    closed spec fn view(&self) -> ColumnInfoView {
        ColumnInfoView { width: self.width, heading: self.heading@ }
    }
}

impl ColumnInfo {
    /// The width.
    pub fn width(&self) -> (r: ColumnWidth)
        ensures
            r == self@.width,
    {
        self.width
    }

    /// The message key of the heading.
    pub fn heading(&self) -> (r: &str)
        ensures
            r@ == self@.heading,
    {
        self.heading.as_str()
    }
}

/// The width of column `i` of `n` columns: the last column takes what room is
/// left, the first is a name column, the others have the least width.
pub open spec fn column_width(i: int, n: int) -> ColumnWidth {
    if i == n - 1 {
        ColumnWidth::Extended
    } else if i == 0 {
        ColumnWidth::Standard(NAME_COL_WIDTH)
    } else {
        ColumnWidth::Standard(MIN_COL_WIDTH)
    }
}

/// The columns of a table with the given headings.
pub open spec fn columns_of(headings: Seq<Seq<char>>) -> Seq<ColumnInfoView> {
    Seq::new(
        headings.len(),
        |i: int| ColumnInfoView { width: column_width(i, headings.len() as int), heading: headings[i] },
    )
}

/// The lines of a vector as mathematical values.
pub open spec fn lines_view(lines: Seq<DisplayLine>) -> Seq<DisplayLineView> {
    Seq::new(lines.len(), |i: int| lines[i]@)
}

/// The columns of a vector as mathematical values.
pub open spec fn columns_view(columns: Seq<ColumnInfo>) -> Seq<ColumnInfoView> {
    Seq::new(columns.len(), |i: int| columns[i]@)
}

/// Whether every line has the field `field`.
pub open spec fn all_have_field(lines: Seq<DisplayLineView>, field: int) -> bool {
    forall|i: int| 0 <= i < lines.len() ==> field < (#[trigger] lines[i]).fields.len()
}

/// Whether the lines stand in non-decreasing order of the field `field`.
pub open spec fn ordered_by(lines: Seq<DisplayLineView>, field: int) -> bool {
    forall|i: int, j: int|
        0 <= i < j < lines.len() ==> !name_before(
            (#[trigger] lines[j]).fields[field],
            (#[trigger] lines[i]).fields[field],
        )
}

/// The lines whose field `field` is `key`, in the order they stand in.
pub open spec fn with_key(lines: Seq<DisplayLineView>, field: int, key: Seq<char>) -> Seq<
    DisplayLineView,
>
    decreases lines.len(),
{
    if lines.len() == 0 {
        Seq::empty()
    } else {
        let rest = with_key(lines.drop_last(), field, key);
        if lines.last().fields[field] == key {
            rest.push(lines.last())
        } else {
            rest
        }
    }
}

/// Whether `sorted` is `lines` sorted by the field `field`, lines of equal
/// field keeping the order they had: `sorted` is ordered by the field, and
/// for every value of the field it holds the same lines in the same order.
pub open spec fn stably_sorted(
    sorted: Seq<DisplayLineView>,
    lines: Seq<DisplayLineView>,
    field: int,
) -> bool {
    &&& sorted.len() == lines.len()
    &&& ordered_by(sorted, field)
    &&& forall|key: Seq<char>| #[trigger]
        with_key(sorted, field, key) == with_key(lines, field, key)
}

/// The lines of one value of the field, of two sequences one after the other.
proof fn lemma_with_key_concat(
    a: Seq<DisplayLineView>,
    b: Seq<DisplayLineView>,
    field: int,
    key: Seq<char>,
)
    ensures
        with_key(a + b, field, key) == with_key(a, field, key) + with_key(b, field, key),
    decreases b.len(),
{
    if b.len() == 0 {
        assert(a + b =~= a);
        assert(with_key(a, field, key) + with_key(b, field, key) =~= with_key(a, field, key));
    } else {
        lemma_with_key_concat(a, b.drop_last(), field, key);
        assert((a + b).drop_last() =~= a + b.drop_last());
        assert((a + b).last() == b.last());
        assert(with_key(a + b, field, key) =~= with_key(a, field, key) + with_key(b, field, key));
    }
}

/// No line of a value of the field that none of the lines has.
proof fn lemma_with_key_absent(lines: Seq<DisplayLineView>, field: int, key: Seq<char>)
    requires
        forall|i: int| 0 <= i < lines.len() ==> (#[trigger] lines[i]).fields[field] != key,
    ensures
        with_key(lines, field, key) == Seq::<DisplayLineView>::empty(),
    decreases lines.len(),
{
    if lines.len() > 0 {
        assert forall|i: int| 0 <= i < lines.drop_last().len() implies (
        #[trigger] lines.drop_last()[i]).fields[field] != key by {
            assert(lines.drop_last()[i] == lines[i]);
        }
        lemma_with_key_absent(lines.drop_last(), field, key);
        assert(lines.last() == lines[lines.len() - 1]);
    }
}

/// A line put into ordered lines behind every line that does not come after
/// it: the lines stay ordered, and the line joins the end of those of its
/// value of the field.
proof fn lemma_insert_keeps_order(
    lines: Seq<DisplayLineView>,
    field: int,
    place: int,
    line: DisplayLineView,
)
    requires
        ordered_by(lines, field),
        0 <= place <= lines.len(),
        forall|j: int|
            0 <= j < place ==> !name_before(line.fields[field], (#[trigger] lines[j]).fields[field]),
        place < lines.len() ==> name_before(line.fields[field], lines[place].fields[field]),
    ensures
        ordered_by(lines.insert(place, line), field),
        forall|key: Seq<char>| #[trigger]
            with_key(lines.insert(place, line), field, key) == with_key(
                lines.push(line),
                field,
                key,
            ),
{
    let x = line.fields[field];
    let after = lines.insert(place, line);
    assert forall|j: int| place <= j < lines.len() implies name_before(
        x,
        (#[trigger] lines[j]).fields[field],
    ) by {
        let y = lines[j].fields[field];
        let p = lines[place].fields[field];
        if j > place && !name_before(x, y) {
            if x != y {
                lemma_name_before_connected(x, y);
                lemma_name_before_transitive(y, x, p);
            }
        }
    }
    assert forall|i: int, j: int| 0 <= i < j < after.len() implies !name_before(
        (#[trigger] after[j]).fields[field],
        (#[trigger] after[i]).fields[field],
    ) by {
        if j == place {
            assert(after[i] == lines[i]);
        } else if i == place {
            assert(after[j] == lines[j - 1]);
            crate::names::lemma_name_before_asymmetric(x, lines[j - 1].fields[field]);
        } else {
            let oi = if i < place { i } else { i - 1 };
            let oj = if j < place { j } else { j - 1 };
            assert(after[i] == lines[oi] && after[j] == lines[oj]);
        }
    }
    assert forall|key: Seq<char>| #[trigger]
        with_key(after, field, key) == with_key(lines.push(line), field, key) by {
        let head = lines.take(place);
        let tail = lines.skip(place);
        assert(after =~= head.push(line) + tail);
        assert(lines =~= head + tail);
        lemma_with_key_concat(head.push(line), tail, field, key);
        lemma_with_key_concat(head, tail, field, key);
        assert(head.push(line).drop_last() =~= head);
        assert(lines.push(line).drop_last() =~= lines);
        if x == key {
            assert forall|i: int| 0 <= i < tail.len() implies (#[trigger] tail[i]).fields[field]
                != key by {
                assert(tail[i] == lines[place + i]);
                lemma_name_before_irreflexive(x);
            }
            lemma_with_key_absent(tail, field, key);
            assert(with_key(head, field, key) + Seq::<DisplayLineView>::empty() =~= with_key(
                head,
                field,
                key,
            ));
            assert(with_key(head.push(line), field, key) + Seq::<DisplayLineView>::empty()
                =~= with_key(head.push(line), field, key));
        }
    }
}

/// Sorts lines by one field, lines of equal field keeping their order.
fn sort_lines(lines: Vec<DisplayLine>, field: usize) -> (r: Vec<DisplayLine>)
    requires
        all_have_field(lines_view(lines@), field as int),
    ensures
        stably_sorted(lines_view(r@), lines_view(lines@), field as int),
        all_have_field(lines_view(r@), field as int),
{
    let mut lines = lines;
    let ghost input = lines_view(lines@);
    let mut out: Vec<DisplayLine> = Vec::new();
    let n = lines.len();
    let mut i: usize = 0;
    assert(input.take(0) =~= Seq::<DisplayLineView>::empty());
    assert(lines_view(out@) =~= Seq::<DisplayLineView>::empty());
    while i < n
        invariant
            0 <= i <= n,
            n == input.len(),
            lines@.len() == n,
            all_have_field(input, field as int),
            forall|j: int| i <= j < n ==> (#[trigger] lines@[j])@ == input[j],
            out@.len() == i,
            all_have_field(lines_view(out@), field as int),
            ordered_by(lines_view(out@), field as int),
            forall|key: Seq<char>| #[trigger]
                with_key(lines_view(out@), field as int, key) == with_key(
                    input.take(i as int),
                    field as int,
                    key,
                ),
        decreases n - i,
    {
        let mut line = DisplayLine::blank();
        lines.set_and_swap(i, &mut line);
        assert(line@ == input[i as int]);
        let ghost sorted = lines_view(out@);
        assert forall|j: int| 0 <= j < out@.len() implies field < (#[trigger] out@[j])@.fields.len() by {
            assert(sorted[j] == out@[j]@);
        }
        let mut place: usize = 0;
        while place < out.len() && !str_before(line.field(field), out[place].field(field))
            invariant
                0 <= place <= out@.len(),
                sorted == lines_view(out@),
                field < line@.fields.len(),
                all_have_field(sorted, field as int),
                forall|j: int| 0 <= j < out@.len() ==> field < (#[trigger] out@[j])@.fields.len(),
                forall|j: int|
                    0 <= j < place ==> !name_before(
                        line@.fields[field as int],
                        (#[trigger] sorted[j]).fields[field as int],
                    ),
            decreases out@.len() - place,
        {
            assert(sorted[place as int] == out@[place as int]@);
            place = place + 1;
        }
        proof {
            if place < out@.len() {
                assert(sorted[place as int] == out@[place as int]@);
            }
            lemma_insert_keeps_order(sorted, field as int, place as int, line@);
            assert(input.take(i + 1) =~= input.take(i as int).push(line@));
        }
        out.insert(place, line);
        proof {
            let after = lines_view(out@);
            assert(after =~= sorted.insert(place as int, line@));
            assert forall|key: Seq<char>| #[trigger]
                with_key(after, field as int, key) == with_key(
                    input.take(i + 1),
                    field as int,
                    key,
                ) by {
                assert(with_key(after, field as int, key) == with_key(
                    sorted.push(line@),
                    field as int,
                    key,
                ));
                assert(sorted.push(line@).drop_last() =~= sorted);
                assert(input.take(i as int).push(line@).drop_last() =~= input.take(i as int));
                assert(with_key(sorted, field as int, key) == with_key(
                    input.take(i as int),
                    field as int,
                    key,
                ));
            }
        }
        i = i + 1;
    }
    assert(input.take(n as int) =~= input);
    out
}

/// The same lines in the opposite order.
fn reverse_lines(lines: Vec<DisplayLine>) -> (r: Vec<DisplayLine>)
    ensures
        lines_view(r@) == lines_view(lines@).reverse(),
{
    let mut lines = lines;
    let ghost input = lines_view(lines@);
    let mut out: Vec<DisplayLine> = Vec::new();
    let n = lines.len();
    let mut i: usize = n;
    while i > 0
        invariant
            0 <= i <= n,
            n == input.len(),
            lines@.len() == n,
            forall|j: int| 0 <= j < i ==> (#[trigger] lines@[j])@ == input[j],
            out@.len() == n - i,
            forall|j: int| 0 <= j < out@.len() ==> (#[trigger] out@[j])@ == input[n - 1 - j],
        decreases i,
    {
        i = i - 1;
        let mut line = DisplayLine::blank();
        lines.set_and_swap(i, &mut line);
        out.push(line);
    }
    assert(lines_view(out@) =~= input.reverse());
    out
}

/// A table: its lines in the order they are shown in, its columns, and the
/// sort configuration that gave the order.
pub struct DisplayTable {
    lines: Vec<DisplayLine>,
    columns: Vec<ColumnInfo>,
    sorting: Sorting,
}

/// A table as a mathematical value.
pub struct DisplayTableView {
    pub lines: Seq<DisplayLineView>,
    pub columns: Seq<ColumnInfoView>,
    pub sorting: Sorting,
}

impl View for DisplayTable {
    type V = DisplayTableView;

    closed spec fn view(&self) -> DisplayTableView {
        DisplayTableView {
            lines: lines_view(self.lines@),
            columns: columns_view(self.columns@),
            sorting: self.sorting,
        }
    }
}

impl DisplayTableView {
    /// Whether the table shows `lines` as `sorting` asks: sorted by the sort
    /// column, lines of equal field in the order given, and the whole turned
    /// round where the order is reversed.
    pub open spec fn shows(self, lines: Seq<DisplayLineView>, sorting: Sorting) -> bool {
        &&& self.sorting == sorting
        &&& stably_sorted(
            if sorting.reversed() {
                self.lines.reverse()
            } else {
                self.lines
            },
            lines,
            sorting.field() as int,
        )
    }
}

impl DisplayTable {
    /// The table of the given lines under the given headings, sorted as
    /// `sorting` asks. There must be a heading, and where there is more than
    /// one line every line must have the field that is sorted by.
    pub fn from_lines(lines: Vec<DisplayLine>, headings: Vec<String>, sorting: Sorting) -> (r: Self)
        requires
            headings@.len() > 0,
            lines@.len() >= 2 ==> all_have_field(lines_view(lines@), sorting.field() as int),
        ensures
            r@.columns == columns_of(strings_view(headings@)),
            lines@.len() >= 2 ==> r@.shows(lines_view(lines@), sorting),
            lines@.len() < 2 ==> r@.lines == lines_view(lines@) && r@.sorting == sorting,
    {
        let field = sorting.sort_field();
        let lines = if lines.len() >= 2 {
            let sorted = sort_lines(lines, field);
            if sorting.sort_reversed() {
                let ghost s = lines_view(sorted@);
                let turned = reverse_lines(sorted);
                assert(lines_view(turned@).reverse() =~= s);
                turned
            } else {
                sorted
            }
        } else {
            lines
        };
        let mut headings = headings;
        let n = headings.len();
        let ghost keys = strings_view(headings@);
        let mut columns: Vec<ColumnInfo> = Vec::new();
        let mut i: usize = 0;
        while i < n
            invariant
                0 <= i <= n,
                n == keys.len(),
                headings@.len() == n,
                forall|j: int| i <= j < n ==> (#[trigger] headings@[j])@ == keys[j],
                columns@.len() == i,
                forall|j: int| 0 <= j < i ==> (#[trigger] columns@[j])@ == columns_of(keys)[j],
            decreases n - i,
        {
            let mut heading = String::new();
            headings.set_and_swap(i, &mut heading);
            let width = if i == n - 1 {
                ColumnWidth::Extended
            } else if i == 0 {
                ColumnWidth::Standard(NAME_COL_WIDTH)
            } else {
                ColumnWidth::Standard(MIN_COL_WIDTH)
            };
            columns.push(ColumnInfo { width, heading });
            i = i + 1;
        }
        let r = DisplayTable { lines, columns, sorting };
        assert(r@.columns =~= columns_of(keys));
        r
    }

    /// The lines, in the order they are shown in.
    pub fn lines_iter(&self) -> (r: &Vec<DisplayLine>)
        ensures
            lines_view(r@) == self@.lines,
    {
        &self.lines
    }

    /// The line at place `index`, which must exist.
    pub fn line(&self, index: usize) -> (r: &DisplayLine)
        requires
            index < self@.lines.len(),
        ensures
            r@ == self@.lines[index as int],
    {
        &self.lines[index]
    }

    /// The number of lines.
    pub fn lines_len(&self) -> (r: usize)
        ensures
            r == self@.lines.len(),
    {
        self.lines.len()
    }

    /// The widths of the columns, first to last.
    pub fn column_definitions_iter(&self) -> (r: Vec<ColumnWidth>)
        ensures
            r@.len() == self@.columns.len(),
            forall|i: int| 0 <= i < r@.len() ==> #[trigger] r@[i] == self@.columns[i].width,
    {
        let mut out: Vec<ColumnWidth> = Vec::new();
        let mut i: usize = 0;
        while i < self.columns.len()
            invariant
                0 <= i <= self.columns@.len(),
                out@.len() == i,
                forall|j: int| 0 <= j < i ==> #[trigger] out@[j] == self.columns@[j]@.width,
            decreases self.columns@.len() - i,
        {
            out.push(self.columns[i].width);
            i = i + 1;
        }
        out
    }

    /// The message keys of the headings, first to last, each with whether it
    /// is the heading of the sort column, which is shown underlined.
    pub fn headings_iter(&self) -> (r: Vec<(String, bool)>)
        ensures
            r@.len() == self@.columns.len(),
            forall|i: int|
                0 <= i < r@.len() ==> (#[trigger] r@[i]).0@ == self@.columns[i].heading && r@[i].1
                    == (i == self@.sorting.field()),
    {
        let mut out: Vec<(String, bool)> = Vec::new();
        let mut i: usize = 0;
        while i < self.columns.len()
            invariant
                0 <= i <= self.columns@.len(),
                out@.len() == i,
                forall|j: int|
                    0 <= j < i ==> (#[trigger] out@[j]).0@ == self.columns@[j]@.heading && out@[j].1
                        == (j == self.sorting.field()),
            decreases self.columns@.len() - i,
        {
            out.push((self.columns[i].heading.clone(), i == self.sorting.sort_field()));
            i = i + 1;
        }
        out
    }

    /// The number of columns.
    pub fn number_columns(&self) -> (r: usize)
        ensures
            r == self@.columns.len(),
    {
        self.columns.len()
    }

    /// The sort configuration that gave the order of the lines.
    pub fn sorting(&self) -> (r: &Sorting)
        ensures
            *r == self@.sorting,
    {
        &self.sorting
    }
}

/// What an edit form is told of the record it edits.
pub struct ShowEditInfo<'a> {
    name_collision: bool,
    differs_from: bool,
    create_new: bool,
    app_data: &'a AppData,
}

impl<'a> Clone for ShowEditInfo<'a> {
    fn clone(&self) -> (r: Self)
        ensures
            r == *self,
    {
        ShowEditInfo {
            name_collision: self.name_collision,
            differs_from: self.differs_from,
            create_new: self.create_new,
            app_data: self.app_data,
        }
    }
}

impl<'a> Copy for ShowEditInfo<'a> {

}

impl<'a> ShowEditInfo<'a> {
    /// Whether the record's name belongs to another live record.
    pub closed spec fn collides(self) -> bool {
        self.name_collision
    }

    /// Whether the record differs from the one it was taken from.
    pub closed spec fn differs(self) -> bool {
        self.differs_from
    }

    /// Whether the record is a new one.
    pub closed spec fn is_new(self) -> bool {
        self.create_new
    }

    /// The application's data.
    pub closed spec fn data(self) -> &'a AppData {
        self.app_data
    }

    /// What the form is told: whether the name collides, whether the record
    /// differs from the saved one, whether it is new, and the data to look
    /// names up in.
    pub fn new(name_collision: bool, differs_from: bool, create_new: bool, app_data: &'a AppData) -> (r:
        Self)
        ensures
            r.collides() == name_collision,
            r.differs() == differs_from,
            r.is_new() == create_new,
            r.data() == app_data,
    {
        ShowEditInfo { name_collision, differs_from, create_new, app_data }
    }

    /// Whether the record's name belongs to another live record.
    pub fn name_collision(&self) -> (r: bool)
        ensures
            r == self.collides(),
    {
        self.name_collision
    }

    /// Whether the record differs from the one it was taken from.
    pub fn differs_from(&self) -> (r: bool)
        ensures
            r == self.differs(),
    {
        self.differs_from
    }

    /// Whether the record is a new one.
    pub fn create_new(&self) -> (r: bool)
        ensures
            r == self.is_new(),
    {
        self.create_new
    }

    /// Whether the form offers to save: the record was changed and its name
    /// is free.
    pub fn show_save(&self) -> (r: bool)
        ensures
            r == (self.differs() && !self.collides()),
    {
        self.differs_from && !self.name_collision
    }

    /// The application's data.
    pub fn app_data(&self) -> (r: &AppData)
        ensures
            r == self.data(),
    {
        self.app_data
    }
}

/// The state of the entry field that adds a string to a list.
#[derive(Debug)]
pub enum NewStringStatus {
    /// No entry is under way.
    NoItem,
    /// An entry field was asked for and is not shown yet.
    Requested,
    /// The entry field is shown, with the text typed so far.
    Showing(String),
}

/// The state of the entry field as a mathematical value.
pub enum NewStringStatusView {
    NoItem,
    Requested,
    Showing(Seq<char>),
}

impl View for NewStringStatus {
    type V = NewStringStatusView;

    open spec fn view(&self) -> NewStringStatusView {
        match self {
            NewStringStatus::NoItem => NewStringStatusView::NoItem,
            NewStringStatus::Requested => NewStringStatusView::Requested,
            NewStringStatus::Showing(s) => NewStringStatusView::Showing(s@),
        }
    }
}

impl Clone for NewStringStatus {
    fn clone(&self) -> (r: Self)
        ensures
            r@ == self@,
    {
        match self {
            NewStringStatus::NoItem => NewStringStatus::NoItem,
            NewStringStatus::Requested => NewStringStatus::Requested,
            NewStringStatus::Showing(s) => NewStringStatus::Showing(s.clone()),
        }
    }
}

impl Default for NewStringStatus {
    fn default() -> (r: Self)
        ensures
            r@ == NewStringStatusView::NoItem,
    {
        NewStringStatus::NoItem
    }
}

} // verus!
