//! Text construction for the pipeline: the interpreter command lines, the
//! trailing-whitespace trim applied to captured values, and the message that
//! lists too many positional files.

use vstd::prelude::*;

verus! {

/// Whether a character counts as trailing whitespace when a captured value is
/// cleaned before post-processing: the characters with the Unicode
/// white-space property.
pub open spec fn is_trailing_whitespace(c: char) -> bool {
    ||| c == '\u{9}'
    ||| c == '\u{a}'
    ||| c == '\u{b}'
    ||| c == '\u{c}'
    ||| c == '\u{d}'
    ||| c == ' '
    ||| c == '\u{85}'
    ||| c == '\u{a0}'
    ||| c == '\u{1680}'
    ||| '\u{2000}' <= c && c <= '\u{200a}'
    ||| c == '\u{2028}'
    ||| c == '\u{2029}'
    ||| c == '\u{202f}'
    ||| c == '\u{205f}'
    ||| c == '\u{3000}'
}

/// `s` with every trailing whitespace character removed.
pub open spec fn trimmed_end(s: Seq<char>) -> Seq<char>
    decreases s.len(),
{
    if s.len() == 0 {
        s
    } else if is_trailing_whitespace(s.last()) {
        trimmed_end(s.drop_last())
    } else {
        s
    }
}

fn is_trailing_whitespace_char(c: char) -> (b: bool)
    ensures
        b == is_trailing_whitespace(c),
{
    c == '\u{9}' || c == '\u{a}' || c == '\u{b}' || c == '\u{c}' || c == '\u{d}' || c == ' '
        || c == '\u{85}' || c == '\u{a0}' || c == '\u{1680}' || ('\u{2000}' <= c && c
        <= '\u{200a}') || c == '\u{2028}' || c == '\u{2029}' || c == '\u{202f}' || c == '\u{205f}'
        || c == '\u{3000}'
}

/// Removes trailing whitespace from a captured value, as done before the value
/// is interpolated into a post-processing command line.
pub fn trim_end_text(s: &str) -> (r: String)
    ensures
        r@ == trimmed_end(s@),
{
    let len = s.unicode_len();
    let mut i = len;
    proof {
        assert(s@.subrange(0, len as int) =~= s@);
    }
    while i > 0 && is_trailing_whitespace_char(s.get_char(i - 1))
        invariant
            i <= len,
            len == s@.len(),
            trimmed_end(s@) == trimmed_end(s@.subrange(0, i as int)),
        decreases i,
    {
        proof {
            assert(s@.subrange(0, i as int).drop_last() =~= s@.subrange(0, i - 1));
        }
        i = i - 1;
    }
    proof {
        if i == 0 {
            assert(s@.subrange(0, 0) =~= Seq::<char>::empty());
        }
    }
    String::from_str(s.substring_char(0, i))
}

/// The command line that executes a staged file: read the file's contents and
/// pipe them into the interpreter.
pub open spec fn catbash_command_line(path: Seq<char>) -> Seq<char> {
    "cat \""@ + path + "\" | bash"@
}

/// Builds the interpreter command line for executing the file at `path`.
pub fn catbash_command(path: &str) -> (r: String)
    ensures
        r@ == catbash_command_line(path@),
{
    let mut r = String::from_str("cat \"");
    r.append(path);
    r.append("\" | bash");
    r
}

/// The command line that post-processes a captured value: echo the trimmed
/// value, followed by the user-supplied follow-on shell expression. Embedded
/// quote characters in the captured value are not escaped; that is a known
/// limitation of the interpolation, not silently handled here.
pub open spec fn post_process_command_line(captured: Seq<char>, arguments: Seq<char>) -> Seq<
    char,
> {
    "echo \""@ + trimmed_end(captured) + "\" "@ + arguments
}

/// Builds the post-processing command line from a captured value and a shell
/// expression.
pub fn post_process_command(captured: &str, arguments: &str) -> (r: String)
    ensures
        r@ == post_process_command_line(captured@, arguments@),
{
    let trimmed = trim_end_text(captured);
    let mut r = String::from_str("echo \"");
    r.append(trimmed.as_str());
    r.append("\" ");
    r.append(arguments);
    r
}

/// The debug-style rendering of a file list: each name in double quotes, the
/// names separated by a comma and a blank.
pub open spec fn quoted_file_list(files: Seq<Seq<char>>) -> Seq<char>
    decreases files.len(),
{
    if files.len() == 0 {
        Seq::<char>::empty()
    } else if files.len() == 1 {
        "\""@ + files[0] + "\""@
    } else {
        quoted_file_list(files.drop_last()) + ", "@ + "\""@ + files.last() + "\""@
    }
}

/// The message reported when more than one positional file is given without
/// flags; it names every offending file.
pub open spec fn too_many_files_message(files: Seq<Seq<char>>) -> Seq<char> {
    "Too many files for default behavior: ["@ + quoted_file_list(files)
        + "]. Please use flags or provide only one file."@
}

fn quoted_file_list_text(files: &Vec<String>) -> (r: String)
    ensures
        r@ == quoted_file_list(files.deep_view()),
{
    let ghost all = files.deep_view();
    let mut r = String::new();
    let mut i: usize = 0;
    while i < files.len()
        invariant
            i <= files.len(),
            all == files.deep_view(),
            all.len() == files@.len(),
            r@ == quoted_file_list(all.subrange(0, i as int)),
        decreases files.len() - i,
    {
        if i > 0 {
            r.append(", ");
        }
        r.append("\"");
        r.append(files[i].as_str());
        r.append("\"");
        i = i + 1;
        proof {
            let prefix = all.subrange(0, i as int);
            assert(prefix.drop_last() =~= all.subrange(0, i - 1));
            assert(prefix.last() == all[i - 1]);
            assert(r@ =~= quoted_file_list(prefix));
        }
    }
    proof {
        assert(all.subrange(0, files@.len() as int) =~= all);
    }
    r
}

/// Builds the too-many-positional-files message, naming every file given.
pub fn too_many_files_text(files: &Vec<String>) -> (r: String)
    ensures
        r@ == too_many_files_message(files.deep_view()),
{
    let list = quoted_file_list_text(files);
    let mut r = String::from_str("Too many files for default behavior: [");
    r.append(list.as_str());
    r.append("]. Please use flags or provide only one file.");
    proof {
        assert(r@ =~= too_many_files_message(files.deep_view()));
    }
    r
}

} // verus!
