use vstd::prelude::*;
use crate::config::laws::lemma_key_name_round_trip;
use crate::config::naming::title_case;
use crate::config::{
    all_categories, category_keys, category_name, default_text, description, key_name, Config,
    ConfigCategory, ConfigKey,
};
use crate::strings::concat3;
use crate::text::{chars_of, extend_chars, string_from_chars, trim_end, trim_end_chars};

verus! {

/// The larger of two numbers.
pub open spec fn max_nat(a: nat, b: nat) -> nat {
    if a >= b {
        a
    } else {
        b
    }
}

/// The width of column `c`: its header's width or its widest cell.
pub open spec fn column_width(rows: Seq<Seq<Seq<char>>>, c: int, header: nat) -> nat
    decreases rows.len(),
{
    if rows.len() == 0 {
        header
    } else {
        max_nat(column_width(rows.drop_last(), c, header), rows.last()[c].len())
    }
}

/// `n` copies of `ch`.
pub open spec fn repeat(ch: char, n: nat) -> Seq<char> {
    Seq::new(n, |i: int| ch)
}

/// `s` padded on the right with spaces to `w` characters.
pub open spec fn pad(s: Seq<char>, w: nat) -> Seq<char> {
    if s.len() >= w {
        s
    } else {
        s + repeat(' ', (w - s.len()) as nat)
    }
}

/// One line of the table: three cells padded to the column widths.
pub open spec fn table_line(a: Seq<char>, b: Seq<char>, c: Seq<char>, w: Seq<nat>) -> Seq<char> {
    "| "@ + pad(a, w[0]) + " | "@ + pad(b, w[1]) + " | "@ + pad(c, w[2]) + " |\n"@
}

/// The lines of the rows.
pub open spec fn table_rows(rows: Seq<Seq<Seq<char>>>, w: Seq<nat>) -> Seq<char>
    decreases rows.len(),
{
    if rows.len() == 0 {
        Seq::empty()
    } else {
        table_rows(rows.drop_last(), w) + table_line(
            rows.last()[0],
            rows.last()[1],
            rows.last()[2],
            w,
        )
    }
}

/// The column widths of a settings table.
pub open spec fn table_widths(rows: Seq<Seq<Seq<char>>>) -> Seq<nat> {
    seq![column_width(rows, 0, 7), column_width(rows, 1, 11), column_width(rows, 2, 7)]
}

/// A Markdown settings table: the header, the separator and one line per row.
pub open spec fn table_text(rows: Seq<Seq<Seq<char>>>) -> Seq<char> {
    let w = table_widths(rows);
    table_line("Setting"@, "Description"@, "Default"@, w) + table_line(
        repeat('-', w[0]),
        repeat('-', w[1]),
        repeat('-', w[2]),
        w,
    ) + table_rows(rows, w)
}

/// The cells of rows given as arrays of strings.
pub open spec fn cells(rows: Seq<[String; 3]>) -> Seq<Seq<Seq<char>>> {
    rows.map_values(|r: [String; 3]| seq![r@[0]@, r@[1]@, r@[2]@])
}

/// The column widths of `rows`: the headers' and the cells' character counts.
pub fn markdown_widths(rows: &[[String; 3]]) -> (w: [usize; 3])
    ensures
        w@.map_values(|n: usize| n as nat) == table_widths(cells(rows@)),
{
    let mut w0: usize = 7;
    let mut w1: usize = 11;
    let mut w2: usize = 7;
    let mut i: usize = 0;
    while i < rows.len()
        invariant
            i <= rows@.len(),
            w0 == column_width(cells(rows@.take(i as int)), 0, 7),
            w1 == column_width(cells(rows@.take(i as int)), 1, 11),
            w2 == column_width(cells(rows@.take(i as int)), 2, 7),
        decreases rows@.len() - i,
    {
        let ghost before = cells(rows@.take(i as int));
        let ghost after = cells(rows@.take(i + 1));
        proof {
            assert(after.drop_last() =~= before);
            assert(after.last() == seq![rows@[i as int]@[0]@, rows@[i as int]@[1]@, rows@[i as int]@[2]@]);
        }
        let row = &rows[i];
        let n0 = row[0].as_str().unicode_len();
        let n1 = row[1].as_str().unicode_len();
        let n2 = row[2].as_str().unicode_len();
        if n0 > w0 {
            w0 = n0;
        }
        if n1 > w1 {
            w1 = n1;
        }
        if n2 > w2 {
            w2 = n2;
        }
        i = i + 1;
    }
    assert(rows@.take(i as int) == rows@);
    let w = [w0, w1, w2];
    assert(w@.map_values(|n: usize| n as nat) =~= table_widths(cells(rows@)));
    w
}

fn push_padded(out: &mut Vec<char>, s: &str, w: usize)
    ensures
        final(out)@ == old(out)@ + pad(s@, w as nat),
{
    let c = chars_of(s);
    extend_chars(out, c.as_slice());
    let ghost base = out@;
    if c.len() < w {
        let mut k: usize = c.len();
        assert(repeat(' ', 0) =~= Seq::<char>::empty());
        while k < w
            invariant
                c@.len() <= k <= w,
                c@ == s@,
                out@ == base + repeat(' ', (k - c@.len()) as nat),
            decreases w - k,
        {
            out.push(' ');
            k = k + 1;
            assert(repeat(' ', (k - c@.len()) as nat) =~= repeat(' ', (k - 1 - c@.len()) as nat).push(
                ' ',
            ));
        }
    }
}

fn push_line(out: &mut Vec<char>, a: &str, b: &str, c: &str, w: &[usize; 3])
    ensures
        final(out)@ == old(out)@ + table_line(a@, b@, c@, w@.map_values(|n: usize| n as nat)),
{
    let ghost ws = w@.map_values(|n: usize| n as nat);
    extend_chars(out, chars_of("| ").as_slice());
    push_padded(out, a, w[0]);
    extend_chars(out, chars_of(" | ").as_slice());
    push_padded(out, b, w[1]);
    extend_chars(out, chars_of(" | ").as_slice());
    push_padded(out, c, w[2]);
    extend_chars(out, chars_of(" |\n").as_slice());
    assert(ws[0] == w[0] as nat && ws[1] == w[1] as nat && ws[2] == w[2] as nat);
    assert(out@ =~= old(out)@ + table_line(a@, b@, c@, ws));
}

fn repeat_string(ch: char, n: usize) -> (s: String)
    ensures
        s@ == repeat(ch, n as nat),
{
    let mut v: Vec<char> = Vec::new();
    let mut i: usize = 0;
    while i < n
        invariant
            i <= n,
            v@ == repeat(ch, i as nat),
        decreases n - i,
    {
        v.push(ch);
        i = i + 1;
        assert(v@ =~= repeat(ch, i as nat));
    }
    string_from_chars(v.as_slice())
}

/// Appends a Markdown table of the settings `rows` (setting, description, default)
/// with every column padded to its widest cell.
pub fn write_markdown_table(output: &mut String, rows: &[[String; 3]])
    ensures
        final(output)@ == old(output)@ + table_text(cells(rows@)),
{
    let w = markdown_widths(rows);
    let ghost ws = w@.map_values(|n: usize| n as nat);
    let mut out = chars_of(output.as_str());
    push_line(&mut out, "Setting", "Description", "Default", &w);
    let d0 = repeat_string('-', w[0]);
    let d1 = repeat_string('-', w[1]);
    let d2 = repeat_string('-', w[2]);
    proof {
        assert(ws[0] == w[0] as nat && ws[1] == w[1] as nat && ws[2] == w[2] as nat);
    }
    push_line(&mut out, d0.as_str(), d1.as_str(), d2.as_str(), &w);
    let ghost head = out@;
    let mut i: usize = 0;
    while i < rows.len()
        invariant
            i <= rows@.len(),
            out@ == head + table_rows(cells(rows@.take(i as int)), ws),
            ws == w@.map_values(|n: usize| n as nat),
        decreases rows@.len() - i,
    {
        let ghost before = cells(rows@.take(i as int));
        let ghost after = cells(rows@.take(i + 1));
        proof {
            assert(after.drop_last() =~= before);
            assert(after.last() == seq![rows@[i as int]@[0]@, rows@[i as int]@[1]@, rows@[i as int]@[2]@]);
        }
        let row = &rows[i];
        push_line(&mut out, row[0].as_str(), row[1].as_str(), row[2].as_str(), &w);
        i = i + 1;
    }
    assert(rows@.take(i as int) == rows@);
    *output = string_from_chars(out.as_slice());
}

/// A settings table's row for `k`: its name and default in backquotes, and its
/// description.
pub open spec fn key_row(k: ConfigKey) -> Seq<Seq<char>> {
    seq!["`"@ + key_name(k) + "`"@, description(k), "`"@ + default_text(k) + "`"@]
}

/// A category's section: its heading, a blank line and its table.
pub open spec fn section(c: ConfigCategory) -> Seq<char> {
    "#### "@ + title_case(category_name(c)) + "\n\n"@ + table_text(
        category_keys(c).map_values(|k: ConfigKey| key_row(k)),
    )
}

/// The sections of the categories, separated by blank lines.
pub open spec fn sections(cs: Seq<ConfigCategory>) -> Seq<char>
    decreases cs.len(),
{
    if cs.len() == 0 {
        Seq::empty()
    } else if cs.len() == 1 {
        section(cs[0])
    } else {
        sections(cs.drop_last()) + "\n"@ + section(cs.last())
    }
}

/// The settings reference in Markdown, as the README lists it.
pub open spec fn settings_markdown() -> Seq<char> {
    trim_end(sections(all_categories()))
}

impl Config {
    fn category_rows(&self, category: ConfigCategory) -> (rows: Vec<[String; 3]>)
        ensures
            cells(rows@) == category_keys(category).map_values(|k: ConfigKey| key_row(k)),
    {
        let keys = category.keys();
        let mut rows: Vec<[String; 3]> = Vec::new();
        let mut i: usize = 0;
        while i < keys.len()
            invariant
                i <= keys@.len(),
                keys@ == category_keys(category),
                cells(rows@) == keys@.take(i as int).map_values(|k: ConfigKey| key_row(k)),
            decreases keys@.len() - i,
        {
            let k = keys[i];
            proof {
                lemma_key_name_round_trip(k);
            }
            let name = concat3("`", k.as_str(), "`");
            let desc = self.get_description(k.as_str());
            let default = self.get_default_string(k);
            let shown_default = concat3("`", default.as_str(), "`");
            let row = [name, desc, shown_default];
            proof {
                assert(cells(rows@.push(row)) =~= cells(rows@).push(key_row(k)));
                assert(keys@.take(i + 1).map_values(|k: ConfigKey| key_row(k)) =~= keys@.take(
                    i as int,
                ).map_values(|k: ConfigKey| key_row(k)).push(key_row(k)));
            }
            rows.push(row);
            i = i + 1;
        }
        assert(keys@.take(i as int) == keys@);
        rows
    }

    fn push_section(&self, output: &mut String, c: ConfigCategory, first: bool)
        ensures
            final(output)@ == old(output)@ + (if first {
                Seq::<char>::empty()
            } else {
                "\n"@
            }) + section(c),
    {
        let mut text = chars_of(output.as_str());
        if !first {
            extend_chars(&mut text, chars_of("\n").as_slice());
        }
        extend_chars(&mut text, chars_of("#### ").as_slice());
        let title = c.display_name();
        extend_chars(&mut text, chars_of(title.as_str()).as_slice());
        extend_chars(&mut text, chars_of("\n\n").as_slice());
        let mut out = string_from_chars(text.as_slice());
        let rows = self.category_rows(c);
        write_markdown_table(&mut out, rows.as_slice());
        *output = out;
        assert(output@ =~= old(output)@ + (if first {
            Seq::<char>::empty()
        } else {
            "\n"@
        }) + section(c));
    }

    /// The settings reference in Markdown: for each category a `####` heading and a
    /// table of its settings with their descriptions and defaults.
    pub fn markdown_table(&self) -> (s: String)
        ensures
            s@ == settings_markdown(),
    {
        let categories = ConfigCategory::all();
        let mut output = String::new();
        let mut i: usize = 0;
        while i < categories.len()
            invariant
                i <= categories@.len(),
                categories@ == all_categories(),
                output@ == sections(categories@.take(i as int)),
            decreases categories@.len() - i,
        {
            let c = categories[i];
            let ghost before = output@;
            self.push_section(&mut output, c, i == 0);
            proof {
                let cs = categories@.take(i + 1);
                assert(cs.drop_last() =~= categories@.take(i as int));
                assert(cs.last() == c);
                if i == 0 {
                    assert(before.len() == 0);
                    assert(output@ =~= section(c));
                    assert(cs.len() == 1);
                    assert(cs[0] == c);
                }
            }
            i = i + 1;
        }
        assert(categories@.take(i as int) == categories@);
        let trimmed = trim_end_chars(chars_of(output.as_str()).as_slice());
        string_from_chars(trimmed.as_slice())
    }
}

} // verus!
