use vstd::prelude::*;
use crate::strings::{join_strings, svec};
use crate::text::{
    chars_of, contains, contains_exec, join, split, split_chars, starts_with, starts_with_exec,
    string_from_chars, trim, trim_chars, views,
};

verus! {

/// A value that a message template can use: text, or a list of texts (which also
/// gives the template its length under the key with `_len` appended).
#[derive(Clone, Debug)]
pub enum TemplateValue {
    String(String),
    Array(Vec<String>),
}

/// What a template value holds, as text.
pub enum TemplateView {
    Text(Seq<char>),
    List(Seq<Seq<char>>),
}

/// The text a template value holds.
pub open spec fn template_view(v: TemplateValue) -> TemplateView {
    match v {
        TemplateValue::String(s) => TemplateView::Text(s@),
        TemplateValue::Array(a) => TemplateView::List(svec(a@)),
    }
}

/// The texts of a template context: each key with what its value holds.
pub open spec fn context_view(c: Seq<(String, TemplateValue)>) -> Seq<(Seq<char>, TemplateView)> {
    c.map_values(|e: (String, TemplateValue)| (e.0@, template_view(e.1)))
}

/// The message posted with a rendered template: the text in a code block.
pub open spec fn code_block(text: Seq<char>) -> Seq<char> {
    "```\n"@ + text + "\n```"@
}

/// Wraps rendered template text in a code block.
pub fn template_message(rendered: &str) -> (s: String)
    ensures
        s@ == code_block(rendered@),
{
    crate::strings::concat3("```\n", rendered, "\n```")
}

/// A piece without one trailing carriage return.
pub open spec fn strip_cr(p: Seq<char>) -> Seq<char> {
    if p.len() > 0 && p.last() == '\r' {
        p.drop_last()
    } else {
        p
    }
}

/// `str::lines`: the pieces between line feeds, each without a trailing carriage
/// return; a final empty piece (text that ends with a line feed, or no text) is
/// not a line.
pub open spec fn str_lines(s: Seq<char>) -> Seq<Seq<char>> {
    let pieces = split(s, '\n');
    let kept = if pieces.last().len() == 0 {
        pieces.drop_last()
    } else {
        pieces
    };
    kept.map_values(|p: Seq<char>| strip_cr(p))
}

/// The lines of a template.
pub fn template_lines(template: &str) -> (v: Vec<String>)
    ensures
        svec(v@) == str_lines(template@),
{
    let pieces = split_chars(chars_of(template).as_slice(), '\n');
    let ghost all = views(pieces@);
    proof {
        crate::text::lemma_split_nonempty(template@, '\n');
    }
    let n = if pieces[pieces.len() - 1].len() == 0 {
        pieces.len() - 1
    } else {
        pieces.len()
    };
    let ghost kept = if all.last().len() == 0 {
        all.drop_last()
    } else {
        all
    };
    assert(kept =~= all.take(n as int));
    let mut out: Vec<String> = Vec::new();
    let mut i: usize = 0;
    while i < n
        invariant
            i <= n <= pieces@.len(),
            all == views(pieces@),
            kept == all.take(n as int),
            svec(out@) == kept.take(i as int).map_values(|p: Seq<char>| strip_cr(p)),
        decreases n - i,
    {
        let p = &pieces[i];
        let line = if p.len() > 0 && p[p.len() - 1] == '\r' {
            string_from_chars(crate::text::copy_range(p.as_slice(), 0, p.len() - 1).as_slice())
        } else {
            string_from_chars(p.as_slice())
        };
        proof {
            assert(kept[i as int] == pieces@[i as int]@);
            if p@.len() > 0 && p@.last() == '\r' {
                assert(line@ =~= p@.drop_last());
            }
        }
        let ghost before = svec(out@);
        out.push(line);
        assert(svec(out@) =~= before.push(line@));
        assert(kept.take(i + 1).map_values(|p: Seq<char>| strip_cr(p)) =~= kept.take(
            i as int,
        ).map_values(|p: Seq<char>| strip_cr(p)).push(strip_cr(kept[i as int])));
        i = i + 1;
    }
    assert(kept.take(n as int) =~= kept);
    out
}

/// Whether a line, trimmed, is a whole one-line `{{#if}}`, `{{#each}}` or
/// `{{#unless}}` block: it opens one and closes one.
pub open spec fn standalone_block(line: Seq<char>) -> bool {
    let t = trim(line);
    &&& (starts_with(t, "{{#if"@) || starts_with(t, "{{#each"@) || starts_with(t, "{{#unless"@))
    &&& (contains(t, "{{/if}}"@) || contains(t, "{{/each}}"@) || contains(t, "{{/unless}}"@))
}

/// Tells whether a template line is a one-line block.
pub fn is_standalone_block(line: &str) -> (b: bool)
    ensures
        b == standalone_block(line@),
{
    let t = trim_chars(chars_of(line).as_slice());
    let s = t.as_slice();
    let opens = starts_with_exec(s, chars_of("{{#if").as_slice()) || starts_with_exec(
        s,
        chars_of("{{#each").as_slice(),
    ) || starts_with_exec(s, chars_of("{{#unless").as_slice());
    let closes = contains_exec(s, chars_of("{{/if}}").as_slice()) || contains_exec(
        s,
        chars_of("{{/each}}").as_slice(),
    ) || contains_exec(s, chars_of("{{/unless}}").as_slice());
    opens && closes
}

/// The rendered lines that are kept: all but those of one-line blocks that
/// rendered to nothing but whitespace.
pub open spec fn kept_lines(lines: Seq<Seq<char>>, rendered: Seq<Seq<char>>) -> Seq<Seq<char>>
    decreases lines.len(),
{
    if lines.len() == 0 {
        Seq::empty()
    } else {
        let rest = kept_lines(lines.drop_last(), rendered.drop_last());
        if standalone_block(lines.last()) && trim(rendered.last()).len() == 0 {
            rest
        } else {
            rest.push(rendered.last())
        }
    }
}

/// Puts a template rendered line by line together: `rendered[i]` is what line `i`
/// of the template rendered to. Lines of one-line blocks that rendered to nothing
/// are left out; the rest are joined by line feeds.
pub fn assemble_rendered(lines: &Vec<String>, rendered: &Vec<String>) -> (s: String)
    requires
        lines@.len() == rendered@.len(),
    ensures
        s@ == join(kept_lines(svec(lines@), svec(rendered@)), "\n"@),
{
    let ghost ls = svec(lines@);
    let ghost rs = svec(rendered@);
    let mut kept: Vec<String> = Vec::new();
    let mut i: usize = 0;
    while i < lines.len()
        invariant
            i <= lines@.len() == rendered@.len(),
            ls == svec(lines@),
            rs == svec(rendered@),
            svec(kept@) == kept_lines(ls.take(i as int), rs.take(i as int)),
        decreases lines@.len() - i,
    {
        assert(ls.take(i + 1).drop_last() =~= ls.take(i as int));
        assert(rs.take(i + 1).drop_last() =~= rs.take(i as int));
        assert(ls.take(i + 1).last() == lines@[i as int]@);
        assert(rs.take(i + 1).last() == rendered@[i as int]@);
        let blank = trim_chars(chars_of(rendered[i].as_str()).as_slice()).len() == 0;
        if !(is_standalone_block(lines[i].as_str()) && blank) {
            let ghost before = svec(kept@);
            kept.push(rendered[i].clone());
            assert(svec(kept@) =~= before.push(rendered@[i as int]@));
        }
        i = i + 1;
    }
    assert(ls.take(i as int) =~= ls);
    assert(rs.take(i as int) =~= rs);
    join_strings(&kept, "\n")
}

} // verus!
