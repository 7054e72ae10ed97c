//! The C source that registers the built-in extension modules with the
//! interpreter's import machinery (the `_PyImport_Inittab` table).
use vstd::prelude::*;
use crate::text::text_eq;

verus! {

/// An extension entry as plain text: its module name and its init symbol.
pub type Entry = (Seq<char>, Seq<char>);

/// The init symbol that stands for "no init function".
pub open spec fn null_symbol() -> Seq<char> {
    "NULL"@
}

pub open spec fn header_line() -> Seq<char> {
    "#include \"Python.h\""@
}

pub open spec fn table_open_line() -> Seq<char> {
    "struct _inittab _PyImport_Inittab[] = {"@
}

/// The row that closes the table.
pub open spec fn sentinel_line() -> Seq<char> {
    "{0, 0}"@
}

pub open spec fn table_close_line() -> Seq<char> {
    "};"@
}

/// The declaration of an init function.
pub open spec fn decl_line(symbol: Seq<char>) -> Seq<char> {
    "extern PyObject* "@ + symbol + "(void);"@
}

/// The table row of one extension.
pub open spec fn row_line(name: Seq<char>, symbol: Seq<char>) -> Seq<char> {
    "{\""@ + name + "\", "@ + symbol + "},"@
}

/// The entries as text.
pub open spec fn entries_view(ext: Seq<(String, String)>) -> Seq<Entry> {
    ext.map_values(|p: (String, String)| (p.0@, p.1@))
}

/// The entries whose init symbol is a real function, in input order.
pub open spec fn declared(ext: Seq<Entry>) -> Seq<Entry> {
    ext.filter(|p: Entry| p.1 != null_symbol())
}

pub open spec fn decl_lines(ext: Seq<Entry>) -> Seq<Seq<char>> {
    declared(ext).map_values(|p: Entry| decl_line(p.1))
}

pub open spec fn row_lines(ext: Seq<Entry>) -> Seq<Seq<char>> {
    ext.map_values(|p: Entry| row_line(p.0, p.1))
}

/// The lines of the generated source, in order.
pub open spec fn config_c_lines(ext: Seq<Entry>) -> Seq<Seq<char>> {
    seq![header_line()] + decl_lines(ext) + seq![table_open_line()] + row_lines(ext) + seq![
        sentinel_line(),
        table_close_line(),
    ]
}

/// Lines joined with a newline between each two.
pub open spec fn join_lines(lines: Seq<Seq<char>>) -> Seq<char>
    decreases lines.len(),
{
    if lines.len() == 0 {
        Seq::empty()
    } else if lines.len() == 1 {
        lines[0]
    } else {
        join_lines(lines.drop_last()) + "\n"@ + lines.last()
    }
}

/// The generated source text.
pub open spec fn config_c_text(ext: Seq<Entry>) -> Seq<char> {
    join_lines(config_c_lines(ext))
}

proof fn lemma_join_push(lines: Seq<Seq<char>>, line: Seq<char>)
    requires
        lines.len() >= 1,
    ensures
        join_lines(lines.push(line)) == join_lines(lines) + "\n"@ + line,
{
    assert(lines.push(line).drop_last() =~= lines);
}

/// Appends a newline and `line` to `text`.
fn push_line(text: &mut String, line: &str)
    ensures
        final(text)@ == old(text)@ + "\n"@ + line@,
{
    text.append("\n");
    text.append(line);
}

/// Produces the C source of the built-in extension table for `extensions`,
/// given as (module name, init symbol) pairs. An init symbol of `NULL` gets a
/// table row but no declaration.
pub fn make_config_c(extensions: &[(String, String)]) -> (r: String)
    ensures
        r@ == config_c_text(entries_view(extensions@)),
{
    let ghost ext = entries_view(extensions@);
    let n = extensions.len();
    let mut text = String::new();
    text.append("#include \"Python.h\"");
    let ghost lines: Seq<Seq<char>> = seq![header_line()];
    assert(text@ == join_lines(lines));
    let mut i: usize = 0;
    while i < n
        invariant
            n == extensions@.len(),
            ext == entries_view(extensions@),
            i <= n,
            lines == seq![header_line()] + decl_lines(ext.take(i as int)),
            text@ == join_lines(lines),
        decreases n - i,
    {
        let symbol = extensions[i].1.as_str();
        assert(ext.take(i + 1).drop_last() =~= ext.take(i as int));
        assert(ext.take(i + 1).last() == ext[i as int]);
        assert(declared(ext.take(i + 1)) == if ext[i as int].1 == null_symbol() {
            declared(ext.take(i as int))
        } else {
            declared(ext.take(i as int)).push(ext[i as int])
        }) by {
            reveal(Seq::filter);
        }
        if !text_eq(symbol, "NULL") {
            let mut decl = String::new();
            decl.append("extern PyObject* ");
            decl.append(symbol);
            decl.append("(void);");
            push_line(&mut text, decl.as_str());
            proof {
                lemma_join_push(lines, decl@);
                lines = lines.push(decl@);
            }
        }
        i = i + 1;
        assert(lines =~= seq![header_line()] + decl_lines(ext.take(i as int)));
    }
    assert(ext.take(n as int) =~= ext);
    push_line(&mut text, "struct _inittab _PyImport_Inittab[] = {");
    proof {
        lemma_join_push(lines, table_open_line());
        lines = lines.push(table_open_line());
    }
    let ghost prefix = lines;
    let mut i: usize = 0;
    while i < n
        invariant
            n == extensions@.len(),
            ext == entries_view(extensions@),
            i <= n,
            prefix.len() >= 1,
            lines == prefix + row_lines(ext.take(i as int)),
            text@ == join_lines(lines),
        decreases n - i,
    {
        let mut row = String::new();
        row.append("{\"");
        row.append(extensions[i].0.as_str());
        row.append("\", ");
        row.append(extensions[i].1.as_str());
        row.append("},");
        push_line(&mut text, row.as_str());
        proof {
            lemma_join_push(lines, row@);
            lines = lines.push(row@);
        }
        i = i + 1;
        assert(lines =~= prefix + row_lines(ext.take(i as int)));
    }
    push_line(&mut text, "{0, 0}");
    proof {
        lemma_join_push(lines, sentinel_line());
        lines = lines.push(sentinel_line());
    }
    push_line(&mut text, "};");
    proof {
        lemma_join_push(lines, table_close_line());
        lines = lines.push(table_close_line());
        assert(lines =~= config_c_lines(ext));
    }
    text
}

proof fn lemma_decl_line_shape(symbol: Seq<char>)
    ensures
        decl_line(symbol).len() == symbol.len() + 24,
        decl_line(symbol)[0] == 'e',
        decl_line(symbol).subrange(17, 17 + symbol.len() as int) == symbol,
{
    reveal_strlit("extern PyObject* ");
    reveal_strlit("(void);");
    assert(decl_line(symbol).subrange(17, 17 + symbol.len() as int) =~= symbol);
}

proof fn lemma_row_line_shape(name: Seq<char>, symbol: Seq<char>)
    ensures
        row_line(name, symbol).len() >= 2,
        row_line(name, symbol)[0] == '{',
        row_line(name, symbol)[1] == '"',
{
    reveal_strlit("{\"");
}

proof fn lemma_fixed_lines_shape()
    ensures
        header_line().len() >= 1 && header_line()[0] == '#',
        table_open_line().len() >= 1 && table_open_line()[0] == 's',
        sentinel_line().len() == 6 && sentinel_line()[0] == '{' && sentinel_line()[1] == '0',
        table_close_line().len() == 2,
{
    reveal_strlit("#include \"Python.h\"");
    reveal_strlit("struct _inittab _PyImport_Inittab[] = {");
    reveal_strlit("{0, 0}");
    reveal_strlit("};");
}

/// The generated source, line by line: the header; one declaration for each
/// entry whose init symbol is not `NULL`, in input order, and no declaration
/// anywhere else; the table head; one row for each entry, `NULL` ones
/// included, in input order; one closing sentinel row, the only one; the
/// table end.
pub proof fn lemma_config_c_layout(ext: Seq<Entry>)
    ensures
        ({
            let lines = config_c_lines(ext);
            let d = declared(ext);
            let n = ext.len() as int;
            let dl = d.len() as int;
            &&& d == ext.filter(|p: Entry| p.1 != null_symbol())
            &&& lines.len() == n + dl + 4
            &&& lines[0] == header_line()
            &&& forall|k: int|
                0 <= k < dl ==> #[trigger] d[k].1 != null_symbol() && lines[1 + k]
                    == decl_line(d[k].1)
            &&& forall|j: int, s: Seq<char>|
                #![trigger config_c_lines(ext)[j], decl_line(s)]
                0 <= j < lines.len() && !(1 <= j < 1 + dl) ==> lines[j] != decl_line(s)
            &&& lines[dl + 1] == table_open_line()
            &&& forall|i: int|
                0 <= i < n ==> lines[dl + 2 + i] == row_line(#[trigger] ext[i].0, ext[i].1)
            &&& lines[dl + n + 2] == sentinel_line()
            &&& lines[dl + n + 3] == table_close_line()
            &&& forall|j: int|
                0 <= j < lines.len() && j != dl + n + 2 ==> #[trigger] lines[j]
                    != sentinel_line()
        }),
{
    let lines = config_c_lines(ext);
    let d = declared(ext);
    let n = ext.len() as int;
    let dl = d.len() as int;
    broadcast use vstd::seq_lib::group_filter_ensures;

    lemma_fixed_lines_shape();
    assert forall|k: int| 0 <= k < dl implies #[trigger] d[k].1 != null_symbol() by {
        ext.lemma_filter_pred(|p: Entry| p.1 != null_symbol(), k);
    }
    assert forall|j: int, s: Seq<char>|
        #![trigger config_c_lines(ext)[j], decl_line(s)]
        0 <= j < lines.len() && !(1 <= j < 1 + dl) implies lines[j] != decl_line(s) by {
        lemma_decl_line_shape(s);
        if dl + 2 <= j < dl + 2 + n {
            let i = j - dl - 2;
            lemma_row_line_shape(ext[i].0, ext[i].1);
        }
    }
    assert forall|j: int| 0 <= j < lines.len() && j != dl + n + 2 implies #[trigger] lines[j]
        != sentinel_line() by {
        if 1 <= j < 1 + dl {
            lemma_decl_line_shape(d[j - 1].1);
        } else if dl + 2 <= j < dl + 2 + n {
            let i = j - dl - 2;
            lemma_row_line_shape(ext[i].0, ext[i].1);
        }
    }
}

/// No declaration in the generated source is of a `NULL` init symbol, however
/// many entries carry it.
pub proof fn lemma_null_never_declared(ext: Seq<Entry>)
    ensures
        forall|j: int|
            0 <= j < config_c_lines(ext).len() ==> #[trigger] config_c_lines(ext)[j] != decl_line(
                null_symbol(),
            ),
{
    lemma_config_c_layout(ext);
    let d = declared(ext);
    assert forall|j: int| 0 <= j < config_c_lines(ext).len() implies #[trigger] config_c_lines(
        ext,
    )[j] != decl_line(null_symbol()) by {
        if 1 <= j < 1 + d.len() {
            let s = d[j - 1].1;
            lemma_decl_line_shape(s);
            lemma_decl_line_shape(null_symbol());
            if decl_line(s) == decl_line(null_symbol()) {
                assert(s.len() == null_symbol().len());
            }
        }
    }
}

/// An empty extension list gives the header, the table head, the sentinel row
/// and the table end, and nothing else.
pub proof fn lemma_config_c_empty()
    ensures
        config_c_lines(Seq::empty()) == seq![
            header_line(),
            table_open_line(),
            sentinel_line(),
            table_close_line(),
        ],
        declared(Seq::empty()).len() == 0,
{
    reveal(Seq::filter);
    assert(config_c_lines(Seq::empty()) =~= seq![
        header_line(),
        table_open_line(),
        sentinel_line(),
        table_close_line(),
    ]);
}

/// The generated source depends on the entries alone: equal entry lists, in
/// the same order, give the same text.
pub proof fn lemma_config_c_deterministic(a: Seq<(String, String)>, b: Seq<(String, String)>)
    requires
        entries_view(a) == entries_view(b),
    ensures
        config_c_text(entries_view(a)) == config_c_text(entries_view(b)),
{
}

} // verus!
