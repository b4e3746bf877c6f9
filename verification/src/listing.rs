//! Directory entries and the rows that a listing shows for them.

use crate::clock::{clock_text, Stamp};
use crate::decimal::{decimal, decimal_text};
use crate::options::{Options, OptionsView};
use crate::permissions::{parse_permissions, permission_text};
use crate::size::{human_size_text, parse_size};
use vstd::prelude::*;
use vstd::string::*;

verus! {

/// The least width of a column of a row.
pub const COLUMN_WIDTH: usize = 10;

/// One entry of a directory, as read in one pass over it.
#[derive(Clone, Debug)]
pub struct Entry {
    /// The entry's name within the directory.
    pub name: String,
    /// Its size in bytes.
    pub size: u64,
    /// When it was last modified.
    pub modified: Stamp,
    /// Its mode bits, those of the permissions among them.
    pub mode: u32,
}

/// What one pass over the target of a listing found.
#[derive(Clone, Debug)]
pub enum Snapshot {
    /// The target is not a directory.
    NotDirectory,
    /// The target is a directory with these entries, in the order read.
    Directory(Vec<Entry>),
}

/// A run of `n` spaces.
pub open spec fn spaces(n: nat) -> Seq<char> {
    Seq::new(n, |i: int| ' ')
}

/// `field` aligned to the left of a column: followed by as many spaces as
/// it is short of the column's width, and unchanged if it fills the column.
pub open spec fn padded(field: Seq<char>) -> Seq<char> {
    if field.len() >= COLUMN_WIDTH {
        field
    } else {
        field + spaces((COLUMN_WIDTH - field.len()) as nat)
    }
}

/// A row: the four fields, each in its column, a space between columns.
pub open spec fn row_text(
    permissions: Seq<char>,
    size: Seq<char>,
    time: Seq<char>,
    name: Seq<char>,
) -> Seq<char> {
    padded(permissions) + seq![' '] + padded(size) + seq![' '] + padded(time) + seq![' ']
        + padded(name)
}

/// The line of column titles.
pub open spec fn header_text() -> Seq<char> {
    "usr|grp|oth size       time mod     file name"@
}

/// A size as a row shows it: scaled to a unit, or the plain byte count.
pub open spec fn size_text(size: u64, human_readable: bool) -> Seq<char> {
    if human_readable {
        human_size_text(size as nat)
    } else {
        decimal_text(size as nat)
    }
}

/// The sixteen low bits of a mode.
pub open spec fn low_mode(mode: u32) -> u16 {
    (mode & 0xffff) as u16
}

/// The row of `entry`, given the text of its modification time.
pub open spec fn entry_row_text(entry: Entry, time: Seq<char>, human_readable: bool) -> Seq<char> {
    row_text(
        permission_text(low_mode(entry.mode)),
        size_text(entry.size, human_readable),
        time,
        entry.name@,
    )
}

/// The row of `entry`.
pub open spec fn entry_row(entry: Entry, human_readable: bool) -> Seq<char> {
    entry_row_text(
        entry,
        clock_text(entry.modified@.seconds, entry.modified@.utc_offset),
        human_readable,
    )
}

/// Whether a name marks its entry as hidden: it starts with a dot.
pub open spec fn hidden_name(name: Seq<char>) -> bool {
    name.len() > 0 && name[0] == '.'
}

/// Whether an entry of this name is listed.
pub open spec fn listed_name(name: Seq<char>, show_hidden: bool) -> bool {
    show_hidden || !hidden_name(name)
}

/// The entries that are listed, in the order read.
pub open spec fn listed(entries: Seq<Entry>, show_hidden: bool) -> Seq<Entry> {
    entries.filter(|entry: Entry| listed_name(entry.name@, show_hidden))
}

/// The lines of a listing: none if the target is not a directory, else
/// the header and then one row for each listed entry, in the order read.
pub open spec fn listing_text(snapshot: Snapshot, options: OptionsView) -> Seq<Seq<char>> {
    match snapshot {
        Snapshot::NotDirectory => Seq::empty(),
        Snapshot::Directory(entries) => seq![header_text()] + listed(
            entries@,
            options.show_hidden,
        ).map_values(|entry: Entry| entry_row(entry, options.human_readable)),
    }
}

/// Aligns `field` to the left of a column.
pub fn pad(field: &str) -> (text: String)
    ensures
        text@ == padded(field@),
{
    let mut text = field.to_owned();
    let mut width = field.unicode_len();
    proof {
        reveal_strlit(" ");
    }
    while width < COLUMN_WIDTH
        invariant
            field@.len() <= width,
            width <= COLUMN_WIDTH || width == field@.len(),
            text@ == field@ + spaces((width - field@.len()) as nat),
            " "@ == seq![' '],
        decreases COLUMN_WIDTH - width,
    {
        text.append(" ");
        width = width + 1;
    }
    text
}

/// Builds a row from its four fields.
pub fn format_row(permissions: &str, size: &str, time: &str, name: &str) -> (row: String)
    ensures
        row@ == row_text(permissions@, size@, time@, name@),
{
    proof {
        reveal_strlit(" ");
    }
    let mut row = pad(permissions);
    row.append(" ");
    row.append(pad(size).as_str());
    row.append(" ");
    row.append(pad(time).as_str());
    row.append(" ");
    row.append(pad(name).as_str());
    row
}

/// The line of column titles.
pub fn header() -> (line: String)
    ensures
        line@ == header_text(),
{
    "usr|grp|oth size       time mod     file name".to_owned()
}

/// Whether `name` marks its entry as hidden.
pub fn is_hidden(name: &str) -> (hidden: bool)
    ensures
        hidden == hidden_name(name@),
{
    name.unicode_len() > 0 && name.get_char(0) == '.'
}

/// Whether an entry called `name` is listed: always if hidden entries are
/// shown, else only if the name does not start with a dot.
pub fn is_listed(name: &str, show_hidden: bool) -> (shown: bool)
    ensures
        shown == listed_name(name@, show_hidden),
{
    show_hidden || !is_hidden(name)
}

/// Renders a size for a row.
pub fn size_field(size: u64, human_readable: bool) -> (text: String)
    ensures
        text@ == size_text(size, human_readable),
{
    if human_readable {
        parse_size(size)
    } else {
        decimal(size)
    }
}

/// Renders the row of `entry` around a modification time already in text.
pub fn row_with_time(entry: &Entry, time: &str, human_readable: bool) -> (row: String)
    ensures
        row@ == entry_row_text(*entry, time@, human_readable),
{
    let mode: u32 = entry.mode;
    assert(mode & 0xffff <= 0xffff) by (bit_vector);
    let permissions = parse_permissions((mode & 0xffff) as u16);
    let size = size_field(entry.size, human_readable);
    format_row(permissions.as_str(), size.as_str(), time, entry.name.as_str())
}

/// Renders the row of `entry`.
pub fn row(entry: &Entry, human_readable: bool) -> (row: String)
    ensures
        row@ == entry_row(*entry, human_readable),
{
    let time = entry.modified.text();
    row_with_time(entry, time.as_str(), human_readable)
}

/// Renders the lines of a listing.
///
/// A target that is not a directory gives no line at all. A directory
/// gives the header, then a row for each entry that is listed, in the
/// order in which the entries were read: each entry once, none added.
pub fn list(snapshot: &Snapshot, options: &Options) -> (lines: Vec<String>)
    ensures
        lines@.len() == listing_text(*snapshot, options@).len(),
        forall|i: int|
            0 <= i < lines@.len() ==> (#[trigger] lines@[i])@ == listing_text(
                *snapshot,
                options@,
            )[i],
{
    let mut lines: Vec<String> = Vec::new();
    match snapshot {
        Snapshot::NotDirectory => {},
        Snapshot::Directory(entries) => {
            lines.push(header());
            let mut i: usize = 0;
            proof {
                lemma_listed_step(entries@, 0, options.show_hidden);
            }
            while i < entries.len()
                invariant
                    i <= entries.len(),
                    lines@.len() == 1 + listed(entries@.take(i as int), options.show_hidden).len(),
                    lines@[0]@ == header_text(),
                    forall|j: int|
                        1 <= j < lines@.len() ==> (#[trigger] lines@[j])@ == entry_row(
                            listed(entries@.take(i as int), options.show_hidden)[j - 1],
                            options.human_readable,
                        ),
                decreases entries.len() - i,
            {
                let entry = &entries[i];
                proof {
                    lemma_listed_step(entries@, i as int + 1, options.show_hidden);
                }
                if is_listed(entry.name.as_str(), options.show_hidden) {
                    lines.push(row(entry, options.human_readable));
                }
                i = i + 1;
            }
            proof {
                assert(entries@.take(entries.len() as int) =~= entries@);
            }
        },
    }
    lines
}

/// Of the first `n` entries, those listed are: none if `n` is zero; else
/// those listed of the first `n - 1`, followed by the `n`-th if it is
/// listed.
proof fn lemma_listed_step(entries: Seq<Entry>, n: int, show_hidden: bool)
    requires
        0 <= n <= entries.len(),
    ensures
        n == 0 ==> listed(entries.take(n), show_hidden) == Seq::<Entry>::empty(),
        n > 0 ==> listed(entries.take(n), show_hidden) == if listed_name(
            entries[n - 1].name@,
            show_hidden,
        ) {
            listed(entries.take(n - 1), show_hidden).push(entries[n - 1])
        } else {
            listed(entries.take(n - 1), show_hidden)
        },
{
    let keep = |entry: Entry| listed_name(entry.name@, show_hidden);
    if n == 0 {
        reveal(Seq::filter);
        assert(entries.take(0).filter(keep) =~= Seq::<Entry>::empty());
    } else {
        assert(entries.take(n) =~= entries.take(n - 1).push(entries[n - 1]));
        entries.take(n - 1).lemma_filter_push(entries[n - 1], keep);
    }
}

/// A padded field starts with the field, goes on in spaces only, and is
/// as wide as the column, or as the field if that is wider.
pub proof fn lemma_padded_shape(field: Seq<char>)
    ensures
        padded(field).len() == if field.len() >= COLUMN_WIDTH {
            field.len()
        } else {
            COLUMN_WIDTH as nat
        },
        padded(field).take(field.len() as int) == field,
        forall|i: int| field.len() <= i < padded(field).len() ==> #[trigger] padded(field)[i] == ' ',
{
}

/// A row has four columns: each field starts ten or more places after the
/// one before it, so a row is at least forty-three characters long.
pub proof fn lemma_row_width(
    permissions: Seq<char>,
    size: Seq<char>,
    time: Seq<char>,
    name: Seq<char>,
)
    ensures
        row_text(permissions, size, time, name).len() == padded(permissions).len() + padded(
            size,
        ).len() + padded(time).len() + padded(name).len() + 3,
        row_text(permissions, size, time, name).len() >= 4 * COLUMN_WIDTH + 3,
{
    lemma_padded_shape(permissions);
    lemma_padded_shape(size);
    lemma_padded_shape(time);
    lemma_padded_shape(name);
}

/// Whether `places` tells, for each entry of `part` in turn, where in
/// `whole` it stands, the places going upwards.
pub open spec fn is_selection(part: Seq<Entry>, whole: Seq<Entry>, places: Seq<int>) -> bool {
    &&& places.len() == part.len()
    &&& forall|i: int|
        0 <= i < places.len() ==> 0 <= #[trigger] places[i] < whole.len() && part[i]
            == whole[places[i]]
    &&& forall|i: int, j: int|
        0 <= i < j < places.len() ==> #[trigger] places[i] < #[trigger] places[j]
}

/// The listed entries are a selection of the entries read: each stands
/// for one place among them, in the order read and no place twice, and the
/// places taken are exactly those of the entries whose name is listed.
pub proof fn lemma_listed_keeps_order(entries: Seq<Entry>, show_hidden: bool) -> (places: Seq<int>)
    ensures
        is_selection(listed(entries, show_hidden), entries, places),
        forall|p: int|
            0 <= p < entries.len() ==> (places.contains(p) <==> listed_name(
                (#[trigger] entries[p]).name@,
                show_hidden,
            )),
    decreases entries.len(),
{
    lemma_listed_step(entries, entries.len() as int, show_hidden);
    assert(entries.take(entries.len() as int) =~= entries);
    if entries.len() == 0 {
        Seq::empty()
    } else {
        let last = entries.len() - 1;
        let front = entries.take(last);
        let before = lemma_listed_keeps_order(front, show_hidden);
        if listed_name(entries[last].name@, show_hidden) {
            let places = before.push(last);
            assert forall|p: int| 0 <= p < entries.len() implies (places.contains(p)
                <==> listed_name((#[trigger] entries[p]).name@, show_hidden)) by {
                if p < last {
                    assert(entries[p] == front[p]);
                    if before.contains(p) {
                        let i = choose|i: int| 0 <= i < before.len() && before[i] == p;
                        assert(places[i] == p);
                    }
                } else {
                    assert(places[before.len() as int] == p);
                }
            }
            places
        } else {
            assert forall|p: int| 0 <= p < entries.len() implies (before.contains(p)
                <==> listed_name((#[trigger] entries[p]).name@, show_hidden)) by {
                if p < last {
                    assert(entries[p] == front[p]);
                }
            }
            before
        }
    }
}

/// With hidden entries shown, every entry is listed.
pub proof fn lemma_show_hidden_lists_all(entries: Seq<Entry>)
    ensures
        listed(entries, true) == entries,
    decreases entries.len(),
{
    reveal(Seq::filter);
    if entries.len() > 0 {
        lemma_show_hidden_lists_all(entries.drop_last());
        assert(entries.drop_last().push(entries.last()) =~= entries);
    }
}

} // verus!
