//! The project descriptor: a short text file that records a project's name
//! and version, written when a project is created and read by the model
//! editor and by the node runtime alike.
//!
//! The file is read leniently. The name is what is left of the first line
//! that begins with `project_name`, once the text `project_name = ` and
//! every double quote are taken out of it.

use vstd::prelude::*;
use crate::text::{
    chars_of, has_prefix_at, lemma_line_len, lemma_lines_shift, lemma_removed_absent,
    lemma_removed_closing, line_at, lines, lines_from, next_line, occurs_in, removed, rows,
    split_lines, string_of, without,
};

verus! {

/// The name of the descriptor file inside a project's directory.
pub const DESCRIPTOR_FILE: &'static str = "project.toml";

/// The name that a project has until its descriptor gives another.
pub const UNNAMED_PROJECT: &'static str = "Unnamed Project";

/// The text of a descriptor that was read, if one was.
pub open spec fn text_of(descriptor: Option<&str>) -> Option<Seq<char>> {
    match descriptor {
        Some(content) => Some(content@),
        None => None,
    }
}

/// The text of the descriptor of a project called `name`.
pub open spec fn descriptor_text(name: Seq<char>) -> Seq<char> {
    "project_name = \""@ + name + "\"\nversion = \"0.1.0\""@
}

/// The name that a line of the descriptor gives.
pub open spec fn name_in_line(line: Seq<char>) -> Seq<char> {
    removed(removed(line, "project_name = "@), "\""@)
}

/// The first of the lines that begins with `project_name`.
pub open spec fn named_line(lines: Seq<Seq<char>>) -> Option<Seq<char>>
    decreases lines.len(),
{
    if lines.len() == 0 {
        None
    } else if "project_name"@.is_prefix_of(lines[0]) {
        Some(lines[0])
    } else {
        named_line(lines.drop_first())
    }
}

/// The name given by the first line that begins with `project_name`, where
/// the text has such a line.
pub open spec fn declared_name(content: Seq<char>) -> Option<Seq<char>> {
    match named_line(lines(content)) {
        Some(line) => Some(name_in_line(line)),
        None => None,
    }
}

/// Writes the descriptor of a project called `name`.
pub fn descriptor_for(name: &str) -> (text: String)
    ensures
        text@ == descriptor_text(name@),
{
    let mut text = String::from_str("project_name = \"");
    text.append(name);
    text.append("\"\nversion = \"0.1.0\"");
    text
}

/// Reads the name that one line of a descriptor gives.
pub fn name_from_line(line: &Vec<char>) -> (name: String)
    ensures
        name@ == name_in_line(line@),
{
    let assignment = chars_of("project_name = ");
    let quote = chars_of("\"");
    let bare = without(line, &assignment);
    let name = without(&bare, &quote);
    string_of(&name)
}

/// Reads the name from the first line of `content` that begins with
/// `project_name`.
pub fn find_declared_name(content: &str) -> (name: Option<String>)
    ensures
        match name {
            Some(n) => declared_name(content@) == Some(n@),
            None => declared_name(content@) is None,
        },
{
    let all = split_lines(&chars_of(content));
    let key = chars_of("project_name");
    let mut i: usize = 0;
    assert(rows(all@).subrange(0, all@.len() as int) =~= rows(all@));
    while i < all.len()
        invariant
            i <= all.len(),
            key@ == "project_name"@,
            rows(all@) == lines(content@),
            named_line(rows(all@).subrange(i as int, all@.len() as int)) == named_line(
                lines(content@),
            ),
        decreases all.len() - i,
    {
        let ghost rest = rows(all@).subrange(i as int, all@.len() as int);
        assert(rest[0] == all@[i as int]@);
        assert(all@[i as int]@.subrange(0, all@[i as int]@.len() as int) =~= all@[i as int]@);
        if has_prefix_at(&all[i], 0, &key) {
            return Some(name_from_line(&all[i]));
        }
        assert(rest.drop_first() =~= rows(all@).subrange(i + 1, all@.len() as int));
        i += 1;
    }
    None
}

/// A descriptor gives back the name it was written for, and it does so on
/// its first line, unless the name holds a double quote, a line feed or
/// the text `project_name = `.
pub proof fn lemma_descriptor_round_trip(name: Seq<char>)
    requires
        !name.contains('"'),
        !name.contains('\n'),
        !occurs_in("project_name = "@, name),
    ensures
        declared_name(descriptor_text(name)) == Some(name),
        lines(descriptor_text(name)).len() > 0,
        lines(descriptor_text(name))[0] == "project_name = \""@ + name + "\""@,
        name_in_line(lines(descriptor_text(name))[0]) == name,
{
    reveal_strlit("project_name = \"");
    reveal_strlit("\"\nversion = \"0.1.0\"");
    reveal_strlit("project_name = ");
    reveal_strlit("project_name");
    reveal_strlit("\"");
    let head = "project_name = \""@;
    let tail = "\"\nversion = \"0.1.0\""@;
    let assignment = "project_name = "@;
    let text = descriptor_text(name);
    let n = name.len() as int;
    let end = 16 + n + 1;
    let line = head + name.push('"');
    let quoted = seq!['"'] + name.push('"');

    assert forall|k: int| 0 <= k < end implies text[k] != '\n' by {
        if 16 <= k < 16 + n {
            assert(text[k] == name[k - 16]);
        }
    }
    assert(text[end] == tail[1]);
    lemma_line_len(text, 0, end);
    assert(text.subrange(0, end) =~= line);
    assert(line.last() == '"');
    assert(line_at(text, 0) == line);
    assert(lines(text) == seq![line] + lines_from(text, next_line(text, 0)));
    assert(lines(text)[0] == line);
    assert(line =~= head + name + "\""@);
    assert("project_name"@ =~= line.subrange(0, 12));
    assert(named_line(lines(text)) == Some(line));

    assert(assignment =~= line.subrange(0, 15));
    assert(line.subrange(15, line.len() as int) =~= quoted);
    assert(removed(line, assignment) == removed(quoted, assignment));
    assert forall|i: int| 0 <= i <= quoted.len() implies !#[trigger] assignment.is_prefix_of(
        quoted.subrange(i, quoted.len() as int),
    ) by {
        let rest = quoted.subrange(i, quoted.len() as int);
        if assignment.is_prefix_of(rest) {
            assert(rest.subrange(0, 15)[0] == assignment[0]);
            assert(rest.subrange(0, 15)[14] == assignment[14]);
            assert(1 <= i && i + 15 <= n + 1);
            assert(name.subrange(i - 1, n).subrange(0, 15) =~= rest.subrange(0, 15));
            assert(assignment.is_prefix_of(name.subrange(i - 1, n)));
        }
    }
    lemma_removed_absent(quoted, assignment);

    assert("\""@ =~= seq!['"']);
    assert(seq!['"'] =~= quoted.subrange(0, 1));
    assert(quoted.subrange(1, quoted.len() as int) =~= name.push('"'));
    lemma_removed_closing(name, '"');
    assert(name_in_line(line) == name);
}

/// A first line that does not begin with `project_name` is passed over:
/// the name is the one that the rest of the text declares.
pub proof fn lemma_declared_name_skips_line(first: Seq<char>, rest: Seq<char>)
    requires
        !first.contains('\n'),
        !"project_name"@.is_prefix_of(first),
    ensures
        declared_name(first + seq!['\n'] + rest) == declared_name(rest),
{
    let key = "project_name"@;
    let a = first + seq!['\n'];
    let text = a + rest;
    let n = first.len() as int;
    assert(text[n] == '\n');
    assert forall|k: int| 0 <= k < n implies text[k] != '\n' by {
        assert(text[k] == first[k]);
    }
    lemma_line_len(text, 0, n);
    assert(text.subrange(0, n) =~= first);
    let line = line_at(text, 0);
    assert(line == first || line == first.drop_last());
    if key.is_prefix_of(line) {
        assert(key =~= first.subrange(0, key.len() as int));
    }
    assert(next_line(text, 0) == a.len());
    lemma_lines_shift(a, rest, 0);
    assert(lines(text) == seq![line] + lines(rest));
    assert(lines(text).drop_first() =~= lines(rest));
}

/// A first line that begins with `project_name` gives the name, whatever
/// follows it. The line ends at a line feed or with the text, and not in a
/// carriage return.
pub proof fn lemma_declared_name_takes_line(line: Seq<char>, rest: Seq<char>)
    requires
        !line.contains('\n'),
        "project_name"@.is_prefix_of(line),
        line.len() > 0 && line.last() != '\r',
        rest.len() == 0 || rest[0] == '\n',
    ensures
        declared_name(line + rest) == Some(name_in_line(line)),
{
    let text = line + rest;
    let n = line.len() as int;
    assert forall|k: int| 0 <= k < n implies text[k] != '\n' by {
        assert(text[k] == line[k]);
    }
    if rest.len() > 0 {
        assert(text[n] == rest[0]);
    }
    lemma_line_len(text, 0, n);
    assert(text.subrange(0, n) =~= line);
    assert(line_at(text, 0) == line);
    assert(lines(text) == seq![line] + lines_from(text, next_line(text, 0)));
    assert(lines(text)[0] == line);
}

} // verus!
