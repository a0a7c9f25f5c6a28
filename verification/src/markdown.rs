//! The `## ` sections of a Markdown context document.
use crate::text::{chars_of, starts_with, std_lines, str_lines, string_from_chars, trim, trimmed};
use vstd::prelude::*;

verus! {

/// A second-level heading: a line that starts with `## `.
pub open spec fn is_section_heading(line: Seq<char>) -> bool {
    starts_with(line, "## "@)
}

/// The title of a heading line: what follows `## `, trimmed.
pub open spec fn heading_title(line: Seq<char>) -> Seq<char> {
    trim(line.skip("## "@.len() as int))
}

/// The titles of the section headings among `lines`, in order.
pub open spec fn section_titles(lines: Seq<Seq<char>>) -> Seq<Seq<char>>
    decreases lines.len(),
{
    if lines.len() == 0 {
        Seq::empty()
    } else if is_section_heading(lines.last()) {
        section_titles(lines.drop_last()).push(heading_title(lines.last()))
    } else {
        section_titles(lines.drop_last())
    }
}

/// Sections as they are read line by line: a heading opens a section with
/// no content; any other line, with its newline, joins the open section;
/// lines before the first heading belong to none.
pub open spec fn raw_sections(lines: Seq<Seq<char>>) -> Seq<(Seq<char>, Seq<char>)>
    decreases lines.len(),
{
    if lines.len() == 0 {
        Seq::empty()
    } else {
        let prev = raw_sections(lines.drop_last());
        let l = lines.last();
        if is_section_heading(l) {
            prev.push((heading_title(l), Seq::empty()))
        } else if prev.len() == 0 {
            prev
        } else {
            prev.update(prev.len() - 1, (prev.last().0, prev.last().1 + l + "\n"@))
        }
    }
}

/// Each section's title with its content trimmed.
pub open spec fn sections_of(text: Seq<char>) -> Seq<(Seq<char>, Seq<char>)> {
    raw_sections(std_lines(text)).map_values(|p: (Seq<char>, Seq<char>)| (p.0, trim(p.1)))
}

fn is_heading_exec(line: &str) -> (r: bool)
    ensures
        r == is_section_heading(line@),
{
    let v = chars_of(line);
    let p = chars_of("## ");
    crate::text::starts_with_chars(&v, &p)
}

fn heading_title_exec(line: &str) -> (r: String)
    requires
        is_section_heading(line@),
    ensures
        r@ == heading_title(line@),
{
    let v = chars_of(line);
    let p = chars_of("## ");
    let rest = string_from_chars(&v, p.len(), v.len());
    assert(rest@ =~= line@.skip("## "@.len() as int));
    trimmed(rest.as_str())
}

/// The titles of the `## ` sections of a document, in order.
pub fn extract_section_titles(content: &str) -> (r: Vec<String>)
    ensures
        r@.map_values(|x: String| x@) == section_titles(std_lines(content@)),
{
    let lines = str_lines(content);
    let ghost ls = lines@.map_values(|x: String| x@);
    let mut r: Vec<String> = Vec::new();
    let mut i: usize = 0;
    while i < lines.len()
        invariant
            i <= lines.len(),
            ls == lines@.map_values(|x: String| x@),
            r@.map_values(|x: String| x@) == section_titles(ls.take(i as int)),
        decreases lines.len() - i,
    {
        assert(ls.take(i + 1).drop_last() =~= ls.take(i as int));
        assert(ls.take(i + 1).last() == lines@[i as int]@);
        if is_heading_exec(lines[i].as_str()) {
            let t = heading_title_exec(lines[i].as_str());
            let ghost before = r@;
            r.push(t);
            assert(r@.map_values(|x: String| x@) =~= before.map_values(|x: String| x@).push(t@));
        }
        i = i + 1;
    }
    assert(ls.take(i as int) =~= ls);
    r
}

/// The `## ` sections of a document: each title with the text under it,
/// trimmed, up to the next `## ` heading.
pub fn parse_markdown_sections(content: &str) -> (r: Vec<(String, String)>)
    ensures
        r@.map_values(|p: (String, String)| (p.0@, p.1@)) == sections_of(content@),
{
    let lines = str_lines(content);
    let ghost ls = lines@.map_values(|x: String| x@);
    let mut raw: Vec<(String, String)> = Vec::new();
    let mut i: usize = 0;
    while i < lines.len()
        invariant
            i <= lines.len(),
            ls == lines@.map_values(|x: String| x@),
            raw@.map_values(|p: (String, String)| (p.0@, p.1@)) == raw_sections(ls.take(i as int)),
        decreases lines.len() - i,
    {
        assert(ls.take(i + 1).drop_last() =~= ls.take(i as int));
        assert(ls.take(i + 1).last() == lines@[i as int]@);
        let ghost before = raw@;
        let ghost prev = raw_sections(ls.take(i as int));
        if is_heading_exec(lines[i].as_str()) {
            let t = heading_title_exec(lines[i].as_str());
            raw.push((t, String::new()));
            assert(raw@.map_values(|p: (String, String)| (p.0@, p.1@)) =~= prev.push(
                (t@, Seq::empty()),
            ));
        } else if raw.len() > 0 {
            let last = raw.len() - 1;
            let (title, mut body) = raw.remove(last);
            crate::text::push_str(&mut body, lines[i].as_str());
            crate::text::push_str(&mut body, "\n");
            raw.push((title, body));
            assert(raw@.map_values(|p: (String, String)| (p.0@, p.1@)) =~= prev.update(
                prev.len() - 1,
                (prev.last().0, prev.last().1 + ls[i as int] + "\n"@),
            ));
        }
        i = i + 1;
    }
    assert(ls.take(i as int) =~= ls);
    let mut r: Vec<(String, String)> = Vec::new();
    let mut j: usize = 0;
    while j < raw.len()
        invariant
            j <= raw.len(),
            raw@.map_values(|p: (String, String)| (p.0@, p.1@)) == raw_sections(ls),
            ls == std_lines(content@),
            r@.map_values(|p: (String, String)| (p.0@, p.1@)) == raw_sections(ls).take(
                j as int,
            ).map_values(|p: (Seq<char>, Seq<char>)| (p.0, trim(p.1))),
        decreases raw.len() - j,
    {
        let title = raw[j].0.clone();
        let body = trimmed(raw[j].1.as_str());
        let ghost before = r@;
        assert(raw@.map_values(|p: (String, String)| (p.0@, p.1@))[j as int] == (raw@[j as int].0@, raw@[j as int].1@));
        r.push((title, body));
        assert(r@.map_values(|p: (String, String)| (p.0@, p.1@)) =~= before.map_values(
            |p: (String, String)| (p.0@, p.1@),
        ).push((title@, body@)));
        assert(raw_sections(ls).take(j + 1).map_values(
            |p: (Seq<char>, Seq<char>)| (p.0, trim(p.1)),
        ) =~= raw_sections(ls).take(j as int).map_values(
            |p: (Seq<char>, Seq<char>)| (p.0, trim(p.1)),
        ).push((raw_sections(ls)[j as int].0, trim(raw_sections(ls)[j as int].1))));
        j = j + 1;
    }
    assert(raw_sections(ls).take(j as int) =~= raw_sections(ls));
    r
}

} // verus!
