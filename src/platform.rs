//! What a target triple decides: library file names, whether an Apple SDK is
//! needed, and where the macOS compiler runtime library lives.
use vstd::prelude::*;
use crate::text::{contains_text, ends_with_text, has_infix, has_suffix, text_eq};

verus! {

/// The target triples that use the Windows library naming convention.
pub open spec fn is_windows_triple(t: Seq<char>) -> bool {
    t == "i686-pc-windows-gnu"@ || t == "i686-pc-windows-msvc"@ || t == "x86_64-pc-windows-gnu"@
        || t == "x86_64-pc-windows-msvc"@
}

/// Apple targets need an SDK root handed to the compiler.
pub open spec fn is_apple_triple(t: Seq<char>) -> bool {
    has_infix(t, "-apple-"@)
}

/// macOS targets need the compiler runtime library linked in.
pub open spec fn is_macos_triple(t: Seq<char>) -> bool {
    has_suffix(t, "-apple-darwin"@)
}

/// The file name of the Python static library built for target `t`.
pub open spec fn libpython_file_name(t: Seq<char>) -> Seq<char> {
    if is_windows_triple(t) {
        "pythonXY.lib"@
    } else {
        "libpythonXY.a"@
    }
}

/// The file name of the extension table library built for target `t`.
pub open spec fn config_lib_file_name(t: Seq<char>) -> Seq<char> {
    if is_windows_triple(t) {
        "pyembeddedconfig.lib"@
    } else {
        "libpyembeddedconfig.a"@
    }
}

/// Whether `target_triple` is a Windows target.
pub fn is_windows_target(target_triple: &str) -> (r: bool)
    ensures
        r == is_windows_triple(target_triple@),
{
    text_eq(target_triple, "i686-pc-windows-gnu") || text_eq(target_triple, "i686-pc-windows-msvc")
        || text_eq(target_triple, "x86_64-pc-windows-gnu") || text_eq(
        target_triple,
        "x86_64-pc-windows-msvc",
    )
}

/// Whether `target_triple` is an Apple target.
pub fn is_apple_target(target_triple: &str) -> (r: bool)
    ensures
        r == is_apple_triple(target_triple@),
{
    contains_text(target_triple, "-apple-")
}

/// Whether `target_triple` is a macOS target.
pub fn is_macos_target(target_triple: &str) -> (r: bool)
    ensures
        r == is_macos_triple(target_triple@),
{
    ends_with_text(target_triple, "-apple-darwin")
}

/// The file name of the Python static library for `target_triple`.
pub fn libpython_filename(target_triple: &str) -> (r: String)
    ensures
        r@ == libpython_file_name(target_triple@),
{
    if is_windows_target(target_triple) {
        String::from_str("pythonXY.lib")
    } else {
        String::from_str("libpythonXY.a")
    }
}

/// The file name of the extension table library for `target_triple`.
pub fn config_lib_filename(target_triple: &str) -> (r: String)
    ensures
        r@ == config_lib_file_name(target_triple@),
{
    if is_windows_target(target_triple) {
        String::from_str("pyembeddedconfig.lib")
    } else {
        String::from_str("libpyembeddedconfig.a")
    }
}

/// The pieces of `s` from a piece that began at `start`, scanning at `i`:
/// the pieces that `sep` separates, as `str::split` gives them.
pub open spec fn split_from(s: Seq<char>, sep: char, start: int, i: int) -> Seq<Seq<char>>
    decreases s.len() - i,
{
    if i >= s.len() || i < start || start < 0 {
        seq![s.subrange(start, s.len() as int)]
    } else if s[i] == sep {
        seq![s.subrange(start, i)] + split_from(s, sep, i + 1, i + 1)
    } else {
        split_from(s, sep, start, i + 1)
    }
}

/// The pieces of `s` between occurrences of `sep`.
pub open spec fn split_on(s: Seq<char>, sep: char) -> Seq<Seq<char>> {
    split_from(s, sep, 0, 0)
}

/// A line without the carriage return that may end it.
pub open spec fn strip_cr(line: Seq<char>) -> Seq<char> {
    if line.len() > 0 && line.last() == '\r' {
        line.drop_last()
    } else {
        line
    }
}

/// The marker of the line that lists the compiler's library directories.
pub open spec fn libraries_marker() -> Seq<char> {
    "libraries: ="@
}

/// The first of `lines` that holds the marker.
pub open spec fn first_marked(lines: Seq<Seq<char>>) -> Option<Seq<char>>
    decreases lines.len(),
{
    if lines.len() == 0 {
        None
    } else if has_infix(lines[0], libraries_marker()) {
        Some(lines[0])
    } else {
        first_marked(lines.drop_first())
    }
}

/// The directory of the compiler runtime library that the output of
/// `clang --print-search-dirs` names: the text after the first `=` of the
/// first line that holds `libraries: =` (up to a next `=`), followed by
/// `/lib/darwin`.
pub open spec fn clang_rt_dir_of(output: Seq<char>) -> Option<Seq<char>> {
    match first_marked(split_on(output, '\n')) {
        None => None,
        Some(line) => {
            let fields = split_on(strip_cr(line), '=');
            if fields.len() >= 2 {
                Some(fields[1] + "/lib/darwin"@)
            } else {
                None
            }
        },
    }
}

proof fn lemma_split_from_len(s: Seq<char>, sep: char, start: int, i: int)
    ensures
        split_from(s, sep, start, i).len() >= 1,
    decreases s.len() - i,
{
    if i >= s.len() || i < start || start < 0 {
    } else if s[i] == sep {
        lemma_split_from_len(s, sep, i + 1, i + 1);
    } else {
        lemma_split_from_len(s, sep, start, i + 1);
    }
}

/// The piece of `s` at position `k` among those that `sep` separates.
pub fn split_piece(s: &str, sep: char, k: usize) -> (r: Option<&str>)
    ensures
        k < split_on(s@, sep).len() ==> r.is_some() && r.unwrap()@ == split_on(s@, sep)[k as int],
        k >= split_on(s@, sep).len() ==> r.is_none(),
{
    let len = s.unicode_len();
    let mut start: usize = 0;
    let mut i: usize = 0;
    let mut count: usize = 0;
    let ghost done: Seq<Seq<char>> = Seq::empty();
    while i < len
        invariant
            len == s@.len(),
            start <= i <= len,
            count == done.len(),
            count <= k,
            split_on(s@, sep) == done + split_from(s@, sep, start as int, i as int),
        decreases len - i,
    {
        if s.get_char(i) == sep {
            let piece = s.substring_char(start, i);
            if count == k {
                proof {
                    lemma_split_from_len(s@, sep, i + 1, i + 1);
                    assert((done + split_from(s@, sep, start as int, i as int))[k as int]
                        == piece@);
                }
                return Some(piece);
            }
            proof {
                assert(split_from(s@, sep, start as int, i as int) == seq![piece@]
                    + split_from(s@, sep, i + 1, i + 1));
                assert(done + split_from(s@, sep, start as int, i as int) =~= done.push(piece@)
                    + split_from(s@, sep, i + 1, i + 1));
                done = done.push(piece@);
            }
            count = count + 1;
            start = i + 1;
        }
        i = i + 1;
    }
    let piece = s.substring_char(start, len);
    assert(split_from(s@, sep, start as int, i as int) == seq![piece@]);
    if count == k {
        assert((done + seq![piece@])[k as int] == piece@);
        Some(piece)
    } else {
        None
    }
}

proof fn lemma_first_marked_skip(line: Seq<char>, rest: Seq<Seq<char>>)
    requires
        !has_infix(line, libraries_marker()),
    ensures
        first_marked(seq![line] + rest) == first_marked(rest),
{
    assert((seq![line] + rest).drop_first() =~= rest);
}

/// The runtime library directory named by a line that holds the marker.
fn clang_rt_dir_from_line(line: &str) -> (r: Option<String>)
    ensures
        ({
            let fields = split_on(strip_cr(line@), '=');
            r.is_some() == (fields.len() >= 2) && (r.is_some() ==> r.unwrap()@ == fields[1]
                + "/lib/darwin"@)
        }),
{
    let len = line.unicode_len();
    let stripped = if len > 0 && line.get_char(len - 1) == '\r' {
        line.substring_char(0, len - 1)
    } else {
        line.substring_char(0, len)
    };
    assert(stripped@ == strip_cr(line@)) by {
        assert(line@.subrange(0, len as int) =~= line@);
        assert(len > 0 ==> line@.subrange(0, len - 1) =~= line@.drop_last());
    }
    match split_piece(stripped, '=', 1) {
        None => None,
        Some(field) => {
            let mut dir = String::from_str(field);
            dir.append("/lib/darwin");
            Some(dir)
        },
    }
}

/// Reads the compiler runtime library directory from the output of the
/// compiler driver's search directory query. `succeeded` tells whether the
/// query ran and exited successfully; when it did not, there is no directory.
pub fn clang_rt_search_dir(succeeded: bool, output: &str) -> (r: Option<String>)
    ensures
        !succeeded ==> r.is_none(),
        succeeded ==> r.is_some() == clang_rt_dir_of(output@).is_some(),
        succeeded && r.is_some() ==> r.unwrap()@ == clang_rt_dir_of(output@).unwrap(),
{
    if !succeeded {
        return None;
    }
    let len = output.unicode_len();
    let mut start: usize = 0;
    let mut i: usize = 0;
    while i < len
        invariant
            succeeded,
            len == output@.len(),
            start <= i <= len,
            first_marked(split_on(output@, '\n')) == first_marked(
                split_from(output@, '\n', start as int, i as int),
            ),
        decreases len - i,
    {
        if output.get_char(i) == '\n' {
            let line = output.substring_char(start, i);
            let ghost rest = split_from(output@, '\n', i + 1, i + 1);
            assert(split_from(output@, '\n', start as int, i as int) == seq![line@] + rest);
            if contains_text(line, "libraries: =") {
                assert((seq![line@] + rest)[0] == line@);
                return clang_rt_dir_from_line(line);
            }
            proof {
                lemma_first_marked_skip(line@, rest);
            }
            start = i + 1;
        }
        i = i + 1;
    }
    let line = output.substring_char(start, len);
    assert(split_from(output@, '\n', start as int, i as int) == seq![line@]);
    if contains_text(line, "libraries: =") {
        clang_rt_dir_from_line(line)
    } else {
        proof {
            lemma_first_marked_skip(line@, Seq::empty());
            assert(seq![line@] + Seq::<Seq<char>>::empty() =~= seq![line@]);
        }
        None
    }
}

} // verus!
