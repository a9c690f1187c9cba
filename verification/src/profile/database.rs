//! Tables kept in text files: how a line of such a file becomes a statement
//! that puts the row back into the store.

use vstd::prelude::*;
use vstd::string::*;
use crate::profile::patterns::{captured_group, group_of};
use crate::text::{characters, joined, matches_at, occurs_at, text_views};

verus! {

/// A text without its first and its last character; nothing is left of a
/// text of less than three characters.
pub open spec fn without_ends(text: Seq<char>) -> Seq<char> {
    if text.len() <= 1 {
        Seq::empty()
    } else {
        text.subrange(1, text.len() - 1)
    }
}

/// A text without its first and its last character.
pub fn rem_first_and_last(value: &str) -> (rest: &str)
    ensures
        rest@ == without_ends(value@),
{
    let count = value.unicode_len();
    if count <= 1 {
        let rest = value.substring_char(0, 0);
        assert(rest@ =~= Seq::<char>::empty());
        rest
    } else {
        value.substring_char(1, count - 1)
    }
}

/// The pieces of the part of `text` from `start` on, which is cut wherever
/// `separator` stands at or behind `at`; the separators themselves are left
/// out. Without a separator the part is one piece, and a separator at the
/// very end leaves an empty piece behind it.
pub open spec fn pieces_scan(text: Seq<char>, separator: Seq<char>, start: int, at: int) -> Seq<
    Seq<char>,
>
    decreases text.len() - at,
{
    if separator.len() == 0 || at < 0 || at + separator.len() > text.len() {
        seq![text.skip(start)]
    } else if occurs_at(text, separator, at) {
        seq![text.subrange(start, at)] + pieces_scan(
            text,
            separator,
            at + separator.len(),
            at + separator.len(),
        )
    } else {
        pieces_scan(text, separator, start, at + 1)
    }
}

/// The pieces into which `separator` cuts `text`, from left to right.
pub open spec fn pieces_of(text: Seq<char>, separator: Seq<char>) -> Seq<Seq<char>> {
    pieces_scan(text, separator, 0, 0)
}

/// The text that holds the characters of `chars` from `from` up to `to`.
fn text_between(chars: &Vec<char>, from: usize, to: usize) -> (text: String)
    requires
        from <= to <= chars.len(),
    ensures
        text@ == chars@.subrange(from as int, to as int),
{
    let mut text = String::new();
    let mut i: usize = from;
    while i < to
        invariant
            from <= i <= to <= chars.len(),
            text@ =~= chars@.subrange(from as int, i as int),
        decreases to - i,
    {
        text.push(chars[i]);
        i += 1;
    }
    text
}

/// Cuts a text wherever the separator stands.
pub fn split_text(text: &str, separator: &str) -> (pieces: Vec<String>)
    ensures
        text_views(pieces@) == pieces_of(text@, separator@),
{
    let whole = characters(text);
    let cut = characters(separator);
    let mut pieces: Vec<String> = Vec::new();
    let mut start: usize = 0;
    let mut at: usize = 0;
    assert(text_views(pieces@) =~= Seq::empty());
    while cut.len() > 0 && at <= whole.len() && cut.len() <= whole.len() - at
        invariant
            start <= at,
            start <= whole.len(),
            whole@ == text@,
            cut@ == separator@,
            pieces_of(text@, separator@) == text_views(pieces@) + pieces_scan(
                whole@,
                cut@,
                start as int,
                at as int,
            ),
        decreases whole.len() + 1 - at,
    {
        let ghost before = text_views(pieces@);
        if matches_at(&whole, &cut, at) {
            let piece = text_between(&whole, start, at);
            let ghost held = piece@;
            pieces.push(piece);
            assert(text_views(pieces@) =~= before + seq![held]);
            at = at + cut.len();
            start = at;
        } else {
            at += 1;
        }
    }
    let ghost before = text_views(pieces@);
    let last = text_between(&whole, start, whole.len());
    let ghost held = last@;
    assert(held =~= whole@.skip(start as int));
    pieces.push(last);
    assert(text_views(pieces@) =~= before + seq![held]);
    pieces
}

/// The texts of `parts` in a row, with `separator` between each two.
pub open spec fn joined_with(parts: Seq<Seq<char>>, separator: Seq<char>) -> Seq<char>
    decreases parts.len(),
{
    if parts.len() == 0 {
        Seq::empty()
    } else if parts.len() == 1 {
        parts[0]
    } else {
        joined_with(parts.drop_last(), separator) + separator + parts.last()
    }
}

/// Puts texts in a row, with the separator between each two.
pub fn join_texts(parts: &Vec<String>, separator: &str) -> (row: String)
    ensures
        row@ == joined_with(text_views(parts@), separator@),
{
    let ghost texts = text_views(parts@);
    let mut row = String::new();
    let mut i: usize = 0;
    assert(texts.take(0) =~= Seq::empty());
    while i < parts.len()
        invariant
            i <= parts.len(),
            texts == text_views(parts@),
            row@ == joined_with(texts.take(i as int), separator@),
        decreases parts.len() - i,
    {
        let ghost done = texts.take(i as int);
        let ghost more = texts.take(i + 1);
        assert(more.drop_last() =~= done);
        assert(more.last() == parts@[i as int]@);
        if i > 0 {
            row.append(separator);
        }
        row.append(parts[i].as_str());
        assert(row@ =~= joined_with(more, separator@));
        i += 1;
    }
    assert(texts.take(parts.len() as int) =~= texts);
    row
}

/// The statement that inserts a row with the given values in the given
/// columns into a table.
pub open spec fn insert_statement_of(
    table_name: Seq<char>,
    columns: Seq<Seq<char>>,
    values: Seq<Seq<char>>,
) -> Seq<char> {
    "INSERT INTO "@ + table_name + " ("@ + joined_with(columns, ", "@) + ") VALUES ("@
        + joined_with(values, ", "@) + ")"@
}

/// The statement that inserts a row into a table.
pub fn insert_statement(table_name: &str, columns: &Vec<String>, values: &Vec<String>) -> (query:
    String)
    ensures
        query@ == insert_statement_of(table_name@, text_views(columns@), text_views(values@)),
{
    let mut query = joined("INSERT INTO ", table_name);
    query.append(" (");
    query.append(join_texts(columns, ", ").as_str());
    query.append(") VALUES (");
    query.append(join_texts(values, ", ").as_str());
    query.append(")");
    query
}

/// The pattern of a field in a line: white space, the name of the column, a
/// colon, and in brackets the type of the value and the value.
pub open spec fn field_pattern() -> Seq<char> {
    "(\\s*)(.*): \\((.*), (.*)\\)?"@
}

/// The column and the value that a field of a line holds, if it has the
/// shape of a field.
pub open spec fn field_of(part: Seq<char>) -> Option<(Seq<char>, Seq<char>)> {
    match (group_of(field_pattern(), part, 2), group_of(field_pattern(), part, 4)) {
        (Some(column), Some(value)) => Some((column, value)),
        _ => None,
    }
}

/// The columns that the fields among `parts` name, in their order.
pub open spec fn columns_of(parts: Seq<Seq<char>>) -> Seq<Seq<char>> {
    parts.filter_map(
        |part: Seq<char>|
            match field_of(part) {
                Some(field) => Some(field.0),
                None => None,
            },
    )
}

/// The values that the fields among `parts` hold, in their order.
pub open spec fn values_of(parts: Seq<Seq<char>>) -> Seq<Seq<char>> {
    parts.filter_map(
        |part: Seq<char>|
            match field_of(part) {
                Some(field) => Some(field.1),
                None => None,
            },
    )
}

/// The fields of a line: the line without its first and last character,
/// with a comma behind it, cut wherever a bracket closes before a comma.
pub open spec fn fields_of(line: Seq<char>) -> Seq<Seq<char>> {
    pieces_of(without_ends(line) + seq![','], seq![')', ','])
}

/// The column and the value that a part of a line holds, if it has the
/// shape of a field.
fn read_field(part: &str) -> (field: Option<(String, String)>)
    ensures
        match field {
            Some(field) => field_of(part@) == Some((field.0@, field.1@)),
            None => field_of(part@) is None,
        },
{
    let column = captured_group("(\\s*)(.*): \\((.*), (.*)\\)?", part, 2);
    let value = captured_group("(\\s*)(.*): \\((.*), (.*)\\)?", part, 4);
    match (column, value) {
        (Some(column), Some(value)) => Some((column, value)),
        _ => None,
    }
}

/// The statement that puts the row of a line back into its table; `None`
/// for a line in which no field is found.
pub fn load_existing_data(table_name: &str, line: &str) -> (query: Option<String>)
    ensures
        match query {
            Some(query) => columns_of(fields_of(line@)).len() > 0 && query@ == insert_statement_of(
                table_name@,
                columns_of(fields_of(line@)),
                values_of(fields_of(line@)),
            ),
            None => columns_of(fields_of(line@)).len() == 0,
        },
{
    proof {
        reveal_strlit(",");
        reveal_strlit("),");
    }
    let mut row = String::from_str(rem_first_and_last(line));
    row.append(",");
    assert(row@ =~= without_ends(line@) + seq![',']);
    assert("),"@ =~= seq![')', ',']);
    let parts = split_text(row.as_str(), "),");
    let ghost fields = text_views(parts@);
    let mut columns: Vec<String> = Vec::new();
    let mut values: Vec<String> = Vec::new();
    let mut i: usize = 0;
    assert(fields.take(0) =~= Seq::empty());
    while i < parts.len()
        invariant
            i <= parts.len(),
            fields == text_views(parts@),
            text_views(columns@) =~= columns_of(fields.take(i as int)),
            text_views(values@) =~= values_of(fields.take(i as int)),
        decreases parts.len() - i,
    {
        let ghost done = fields.take(i as int);
        let ghost more = fields.take(i + 1);
        assert(more.drop_last() =~= done);
        assert(more.last() == parts@[i as int]@);
        let ghost had_columns = text_views(columns@);
        let ghost had_values = text_views(values@);
        match read_field(parts[i].as_str()) {
            Some((column, value)) => {
                let ghost c = column@;
                let ghost v = value@;
                columns.push(column);
                values.push(value);
                assert(text_views(columns@) =~= had_columns + seq![c]);
                assert(text_views(values@) =~= had_values + seq![v]);
            },
            None => {},
        }
        i += 1;
    }
    assert(fields.take(parts.len() as int) =~= fields);
    if columns.len() > 0 {
        Some(insert_statement(table_name, &columns, &values))
    } else {
        None
    }
}

/// The name of the file that keeps the rows of a table.
pub fn data_file_name(table_name: &str) -> (name: String)
    ensures
        name@ == table_name@ + ".data"@,
{
    joined(table_name, ".data")
}

/// The statement that asks for all rows of a table.
pub fn save_existing_data(table_name: &str) -> (query: String)
    ensures
        query@ == "select * from "@ + table_name@,
{
    joined("select * from ", table_name)
}

} // verus!
