//! The tree-sitter grammars linked into the editor, and the notice printed
//! when asked to fetch or build grammars.
use vstd::prelude::*;
use vstd::utf8::encode_utf8;
use crate::crlf::LF;
use crate::text::{decimal, decimal_bytes, push_str};

verus! {

/// The names of the statically linked grammars, in alphabetical order.
pub open spec fn grammar_names() -> Seq<Seq<char>> {
    seq![
        "bash"@,
        "c"@,
        "comment"@,
        "cpp"@,
        "css"@,
        "diff"@,
        "dockerfile"@,
        "git-rebase"@,
        "gitcommit"@,
        "go"@,
        "html"@,
        "java"@,
        "javascript"@,
        "json"@,
        "kotlin"@,
        "lua"@,
        "markdown"@,
        "markdown_inline"@,
        "python"@,
        "ruby"@,
        "rust"@,
        "sql"@,
        "swift"@,
        "toml"@,
        "tsx"@,
        "typescript"@,
        "xml"@,
        "yaml"@,
        "zig"@,
    ]
}

/// The views of a list of string slices.
pub open spec fn str_views(v: Seq<&str>) -> Seq<Seq<char>> {
    v.map_values(|s: &str| s@)
}

/// Returns the names of the statically linked grammars, in alphabetical
/// order.
pub fn static_grammar_names() -> (names: Vec<&'static str>)
    ensures
        str_views(names@) == grammar_names(),
{
    let mut names: Vec<&'static str> = Vec::new();
    names.push("bash");
    names.push("c");
    names.push("comment");
    names.push("cpp");
    names.push("css");
    names.push("diff");
    names.push("dockerfile");
    names.push("git-rebase");
    names.push("gitcommit");
    names.push("go");
    names.push("html");
    names.push("java");
    names.push("javascript");
    names.push("json");
    names.push("kotlin");
    names.push("lua");
    names.push("markdown");
    names.push("markdown_inline");
    names.push("python");
    names.push("ruby");
    names.push("rust");
    names.push("sql");
    names.push("swift");
    names.push("toml");
    names.push("tsx");
    names.push("typescript");
    names.push("xml");
    names.push("yaml");
    names.push("zig");
    assert(str_views(names@) =~= grammar_names());
    names
}

/// Whether `a` sorts strictly before `b`, comparing characters by code point
/// and a proper prefix first.
pub open spec fn lex_less(a: Seq<char>, b: Seq<char>) -> bool
    decreases a.len(),
{
    if b.len() == 0 {
        false
    } else if a.len() == 0 {
        true
    } else if a[0] != b[0] {
        (a[0] as u32) < (b[0] as u32)
    } else {
        lex_less(a.drop_first(), b.drop_first())
    }
}

/// The grammar names are in strictly increasing alphabetical order, so none
/// occurs twice.
pub proof fn lemma_grammar_names_sorted()
    ensures
        forall|i: int| 0 <= i < grammar_names().len() - 1 ==> lex_less(
            #[trigger] grammar_names()[i],
            grammar_names()[i + 1],
        ),
{
    reveal_strlit("bash");
    reveal_strlit("c");
    reveal_strlit("comment");
    reveal_strlit("cpp");
    reveal_strlit("css");
    reveal_strlit("diff");
    reveal_strlit("dockerfile");
    reveal_strlit("git-rebase");
    reveal_strlit("gitcommit");
    reveal_strlit("go");
    reveal_strlit("html");
    reveal_strlit("java");
    reveal_strlit("javascript");
    reveal_strlit("json");
    reveal_strlit("kotlin");
    reveal_strlit("lua");
    reveal_strlit("markdown");
    reveal_strlit("markdown_inline");
    reveal_strlit("python");
    reveal_strlit("ruby");
    reveal_strlit("rust");
    reveal_strlit("sql");
    reveal_strlit("swift");
    reveal_strlit("toml");
    reveal_strlit("tsx");
    reveal_strlit("typescript");
    reveal_strlit("xml");
    reveal_strlit("yaml");
    reveal_strlit("zig");
    reveal_with_fuel(lex_less, 10);
    let g = grammar_names();
    assert(lex_less(g[0], g[1]));
    assert(lex_less(g[1], g[2]));
    assert(lex_less(g[2], g[3]));
    assert(lex_less(g[3], g[4]));
    assert(lex_less(g[4], g[5]));
    assert(lex_less(g[5], g[6]));
    assert(lex_less(g[6], g[7]));
    assert(lex_less(g[7], g[8]));
    assert(lex_less(g[8], g[9]));
    assert(lex_less(g[9], g[10]));
    assert(lex_less(g[10], g[11]));
    assert(lex_less(g[11], g[12]));
    assert(lex_less(g[12], g[13]));
    assert(lex_less(g[13], g[14]));
    assert(lex_less(g[14], g[15]));
    assert(lex_less(g[15], g[16]));
    assert(lex_less(g[16], g[17]));
    assert(lex_less(g[17], g[18]));
    assert(lex_less(g[18], g[19]));
    assert(lex_less(g[19], g[20]));
    assert(lex_less(g[20], g[21]));
    assert(lex_less(g[21], g[22]));
    assert(lex_less(g[22], g[23]));
    assert(lex_less(g[23], g[24]));
    assert(lex_less(g[24], g[25]));
    assert(lex_less(g[25], g[26]));
    assert(lex_less(g[26], g[27]));
    assert(lex_less(g[27], g[28]));
    assert forall|i: int| 0 <= i < g.len() - 1 implies lex_less(#[trigger] g[i], g[i + 1]) by {
        assert(0 <= i < 28);
    }
}

/// Returns the position of `name` among the linked grammars, if it is one of
/// them.
pub fn static_grammar_index(name: &str) -> (index: Option<usize>)
    ensures
        match index {
            Some(i) => i < grammar_names().len() && grammar_names()[i as int] == name@,
            None => !grammar_names().contains(name@),
        },
{
    let names = static_grammar_names();
    let wanted: String = name.to_owned();
    let mut i: usize = 0;
    while i < names.len()
        invariant
            i <= names.len(),
            str_views(names@) == grammar_names(),
            wanted@ == name@,
            forall|j: int| 0 <= j < i ==> grammar_names()[j] != name@,
        decreases names.len() - i,
    {
        let candidate: String = names[i].to_owned();
        assert(candidate@ == grammar_names()[i as int]);
        if candidate == wanted {
            return Some(i);
        }
        i += 1;
    }
    proof {
        if grammar_names().contains(name@) {
            let j = choose|j: int| 0 <= j < grammar_names().len() && grammar_names()[j] == name@;
            assert(grammar_names()[j] != name@);
        }
    }
    None
}

/// One line of the grammar list: two spaces, the name, a line feed.
pub open spec fn grammar_line(name: Seq<char>) -> Seq<u8> {
    seq![0x20u8, 0x20u8] + encode_utf8(name) + seq![LF]
}

/// The lines listing `names`, in order.
pub open spec fn grammar_lines(names: Seq<Seq<char>>) -> Seq<u8>
    decreases names.len(),
{
    if names.len() == 0 {
        Seq::empty()
    } else {
        grammar_lines(names.drop_last()) + grammar_line(names.last())
    }
}

/// The notice printed instead of fetching or building grammars: that they
/// are compiled in, that fetching and building are not needed, a blank line,
/// how many there are, and one indented line per grammar.
pub open spec fn grammar_notice_text() -> Seq<u8> {
    encode_utf8("Tree-sitter grammars are statically compiled on iOS."@) + seq![LF] + encode_utf8(
        "The fetch and build commands are not needed."@,
    ) + seq![LF, LF] + encode_utf8("Available grammars ("@) + decimal(grammar_names().len())
        + encode_utf8("):"@) + seq![LF] + grammar_lines(grammar_names())
}

/// Returns the notice printed instead of fetching or building grammars.
pub fn grammar_notice() -> (text: Vec<u8>)
    ensures
        text@ == grammar_notice_text(),
{
    let names = static_grammar_names();
    let mut out: Vec<u8> = Vec::new();
    push_str(&mut out, "Tree-sitter grammars are statically compiled on iOS.");
    out.push(LF);
    push_str(&mut out, "The fetch and build commands are not needed.");
    out.push(LF);
    out.push(LF);
    push_str(&mut out, "Available grammars (");
    let mut count = decimal_bytes(names.len() as u64);
    out.append(&mut count);
    push_str(&mut out, "):");
    out.push(LF);
    let ghost header = out@;
    let mut i: usize = 0;
    while i < names.len()
        invariant
            i <= names.len(),
            str_views(names@) == grammar_names(),
            out@ == header + grammar_lines(grammar_names().take(i as int)),
        decreases names.len() - i,
    {
        out.push(0x20);
        out.push(0x20);
        push_str(&mut out, names[i]);
        out.push(LF);
        proof {
            let g = grammar_names();
            assert(g.take(i + 1).drop_last() =~= g.take(i as int));
            assert(g.take(i + 1).last() == names@[i as int]@);
        }
        i += 1;
    }
    proof {
        assert(grammar_names().take(i as int) =~= grammar_names());
        assert(header =~= encode_utf8("Tree-sitter grammars are statically compiled on iOS."@)
            + seq![LF] + encode_utf8("The fetch and build commands are not needed."@) + seq![LF, LF]
            + encode_utf8("Available grammars ("@) + decimal(grammar_names().len()) + encode_utf8(
            "):"@,
        ) + seq![LF]);
    }
    out
}

} // verus!
