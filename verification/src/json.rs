use vstd::prelude::*;

use crate::contract::PluginEntry;
use crate::registry::Registry;

verus! {

/// The hexadecimal digit character for a value below sixteen.
pub open spec fn hex_digit_char(n: int) -> char
    recommends
        0 <= n < 16,
{
    if n == 0 {
        '0'
    } else if n == 1 {
        '1'
    } else if n == 2 {
        '2'
    } else if n == 3 {
        '3'
    } else if n == 4 {
        '4'
    } else if n == 5 {
        '5'
    } else if n == 6 {
        '6'
    } else if n == 7 {
        '7'
    } else if n == 8 {
        '8'
    } else if n == 9 {
        '9'
    } else if n == 10 {
        'a'
    } else if n == 11 {
        'b'
    } else if n == 12 {
        'c'
    } else if n == 13 {
        'd'
    } else if n == 14 {
        'e'
    } else {
        'f'
    }
}

/// How one character appears inside a JSON string literal.
pub open spec fn escape_char(c: char) -> Seq<char> {
    if c == '"' {
        seq!['\\', '"']
    } else if c == '\\' {
        seq!['\\', '\\']
    } else if c == '\n' {
        seq!['\\', 'n']
    } else if c == '\r' {
        seq!['\\', 'r']
    } else if c == '\t' {
        seq!['\\', 't']
    } else if (c as u32) < 32 {
        seq!['\\', 'u', '0', '0', hex_digit_char((c as u32) as int / 16), hex_digit_char(
            (c as u32) as int % 16,
        )]
    } else {
        seq![c]
    }
}

/// A whole text with every character escaped for JSON.
pub open spec fn escape_text(s: Seq<char>) -> Seq<char>
    decreases s.len(),
{
    if s.len() == 0 {
        Seq::empty()
    } else {
        escape_text(s.drop_last()) + escape_char(s.last())
    }
}

/// A JSON string literal: the escaped text between double quotes.
pub open spec fn json_string(s: Seq<char>) -> Seq<char> {
    seq!['"'] + escape_text(s) + seq!['"']
}

/// The views of the route paths of one plugin, in declaration order.
pub open spec fn path_views(v: Seq<String>) -> Seq<Seq<char>> {
    Seq::new(v.len(), |i: int| v[i]@)
}

/// The string literals of an array body, separated by a comma, a line break
/// and the item indentation.
pub open spec fn joined_paths(paths: Seq<Seq<char>>) -> Seq<char>
    decreases paths.len(),
{
    if paths.len() == 0 {
        Seq::empty()
    } else if paths.len() == 1 {
        json_string(paths[0])
    } else {
        joined_paths(paths.drop_last()) + ",\n    "@ + json_string(paths.last())
    }
}

/// A route list as an indented JSON array (empty lists stay on one line).
pub open spec fn routes_array(paths: Seq<Seq<char>>) -> Seq<char> {
    if paths.len() == 0 {
        "[]"@
    } else {
        "[\n    "@ + joined_paths(paths) + "\n  ]"@
    }
}

/// One document line: the plugin's scope as the key, its route list as the
/// value.
pub open spec fn entry_line(e: PluginEntry) -> Seq<char> {
    "  "@ + json_string(e.plugin.scope@) + ": "@ + routes_array(path_views(e.plugin.routes@))
}

/// All document lines, separated by a comma and a line break.
pub open spec fn joined_entries(s: Seq<PluginEntry>) -> Seq<char>
    decreases s.len(),
{
    if s.len() == 0 {
        Seq::empty()
    } else if s.len() == 1 {
        entry_line(s[0])
    } else {
        joined_entries(s.drop_last()) + ",\n"@ + entry_line(s.last())
    }
}

/// The routes document: a pretty-printed JSON object mapping each registered
/// scope to the route paths declared under it, in insertion order.
pub open spec fn routes_document(s: Seq<PluginEntry>) -> Seq<char> {
    if s.len() == 0 {
        "{}"@
    } else {
        "{\n"@ + joined_entries(s) + "\n}"@
    }
}

/// Appends the hexadecimal digit of a value below sixteen.
fn append_hex_digit(out: &mut String, n: u32)
    requires
        n < 16,
    ensures
        final(out)@ == old(out)@ + seq![hex_digit_char(n as int)],
{
    let piece: &str = if n == 0 {
        "0"
    } else if n == 1 {
        "1"
    } else if n == 2 {
        "2"
    } else if n == 3 {
        "3"
    } else if n == 4 {
        "4"
    } else if n == 5 {
        "5"
    } else if n == 6 {
        "6"
    } else if n == 7 {
        "7"
    } else if n == 8 {
        "8"
    } else if n == 9 {
        "9"
    } else if n == 10 {
        "a"
    } else if n == 11 {
        "b"
    } else if n == 12 {
        "c"
    } else if n == 13 {
        "d"
    } else if n == 14 {
        "e"
    } else {
        "f"
    };
    proof {
        reveal_strlit("0");
        reveal_strlit("1");
        reveal_strlit("2");
        reveal_strlit("3");
        reveal_strlit("4");
        reveal_strlit("5");
        reveal_strlit("6");
        reveal_strlit("7");
        reveal_strlit("8");
        reveal_strlit("9");
        reveal_strlit("a");
        reveal_strlit("b");
        reveal_strlit("c");
        reveal_strlit("d");
        reveal_strlit("e");
        reveal_strlit("f");
        assert(piece@ =~= seq![hex_digit_char(n as int)]);
    }
    out.append(piece);
}

/// Appends the text with every character escaped for JSON.
fn append_escaped(out: &mut String, s: &str)
    ensures
        final(out)@ == old(out)@ + escape_text(s@),
{
    let len = s.unicode_len();
    let mut i: usize = 0;
    while i < len
        invariant
            i <= len,
            len == s@.len(),
            out@ == old(out)@ + escape_text(s@.take(i as int)),
        decreases len - i,
    {
        let ghost pre = out@;
        let c = s.get_char(i);
        if c == '"' {
            out.append("\\\"");
            proof {
                reveal_strlit("\\\"");
                assert("\\\""@ =~= escape_char(c));
            }
        } else if c == '\\' {
            out.append("\\\\");
            proof {
                reveal_strlit("\\\\");
                assert("\\\\"@ =~= escape_char(c));
            }
        } else if c == '\n' {
            out.append("\\n");
            proof {
                reveal_strlit("\\n");
                assert("\\n"@ =~= escape_char(c));
            }
        } else if c == '\r' {
            out.append("\\r");
            proof {
                reveal_strlit("\\r");
                assert("\\r"@ =~= escape_char(c));
            }
        } else if c == '\t' {
            out.append("\\t");
            proof {
                reveal_strlit("\\t");
                assert("\\t"@ =~= escape_char(c));
            }
        } else if (c as u32) < 32 {
            let n = c as u32;
            out.append("\\u00");
            append_hex_digit(out, n / 16);
            append_hex_digit(out, n % 16);
            proof {
                reveal_strlit("\\u00");
                assert(out@ =~= pre + escape_char(c));
            }
        } else {
            let piece = s.substring_char(i, i + 1);
            out.append(piece);
            proof {
                assert(piece@ =~= seq![s@[i as int]]);
                assert(piece@ =~= escape_char(c));
            }
        }
        proof {
            assert(s@.take(i + 1).drop_last() =~= s@.take(i as int));
            assert(s@.take(i + 1).last() == s@[i as int]);
            assert(escape_text(s@.take(i + 1)) == escape_text(s@.take(i as int)) + escape_char(c));
            assert(out@ =~= old(out)@ + escape_text(s@.take(i + 1)));
        }
        i = i + 1;
    }
    proof {
        assert(s@.take(len as int) =~= s@);
    }
}

/// Appends the text as a JSON string literal.
pub fn append_json_string(out: &mut String, s: &str)
    ensures
        final(out)@ == old(out)@ + json_string(s@),
{
    out.append("\"");
    append_escaped(out, s);
    out.append("\"");
    proof {
        reveal_strlit("\"");
        assert(out@ =~= old(out)@ + json_string(s@));
    }
}

/// Appends a route list as an indented JSON array.
fn append_routes_array(out: &mut String, paths: &Vec<String>)
    ensures
        final(out)@ == old(out)@ + routes_array(path_views(paths@)),
{
    let n = paths.len();
    if n == 0 {
        out.append("[]");
        return ;
    }
    out.append("[\n    ");
    append_json_string(out, paths[0].as_str());
    proof {
        let pv = path_views(paths@);
        assert(pv.take(1) =~= seq![pv[0]]);
        assert(joined_paths(pv.take(1)) == json_string(pv[0]));
        assert(out@ =~= old(out)@ + "[\n    "@ + joined_paths(pv.take(1)));
    }
    let mut i: usize = 1;
    while i < n
        invariant
            1 <= i <= n,
            n == paths@.len(),
            out@ == old(out)@ + "[\n    "@ + joined_paths(path_views(paths@).take(i as int)),
        decreases n - i,
    {
        out.append(",\n    ");
        append_json_string(out, paths[i].as_str());
        proof {
            let pv = path_views(paths@);
            assert(pv.take(i + 1).drop_last() =~= pv.take(i as int));
            assert(pv.take(i + 1).last() == pv[i as int]);
            assert(joined_paths(pv.take(i + 1)) == joined_paths(pv.take(i as int)) + ",\n    "@
                + json_string(pv[i as int]));
            assert(out@ =~= old(out)@ + "[\n    "@ + joined_paths(pv.take(i + 1)));
        }
        i = i + 1;
    }
    out.append("\n  ]");
    proof {
        let pv = path_views(paths@);
        assert(pv.take(n as int) =~= pv);
        assert(out@ =~= old(out)@ + routes_array(pv));
    }
}

/// Appends one document line for a registered entry.
fn append_entry_line(out: &mut String, e: &PluginEntry)
    ensures
        final(out)@ == old(out)@ + entry_line(*e),
{
    out.append("  ");
    append_json_string(out, e.plugin.scope.as_str());
    out.append(": ");
    append_routes_array(out, &e.plugin.routes);
    proof {
        assert(out@ =~= old(out)@ + entry_line(*e));
    }
}

/// The routes document for the registry contents: a pretty-printed JSON
/// object mapping each registered scope to its declared route paths, in
/// insertion order.
pub fn registry_routes_document(reg: &Registry) -> (r: String)
    ensures
        r@ == routes_document(reg@),
{
    let n = reg.len();
    let mut out = String::new();
    if n == 0 {
        out.append("{}");
        proof {
            assert(out@ =~= routes_document(reg@));
        }
        return out;
    }
    out.append("{\n");
    append_entry_line(&mut out, reg.entry_at(0));
    proof {
        assert(reg@.take(1) =~= seq![reg@[0]]);
        assert(joined_entries(reg@.take(1)) == entry_line(reg@[0]));
        assert(out@ =~= "{\n"@ + joined_entries(reg@.take(1)));
    }
    let mut i: usize = 1;
    while i < n
        invariant
            1 <= i <= n,
            n == reg@.len(),
            out@ == "{\n"@ + joined_entries(reg@.take(i as int)),
        decreases n - i,
    {
        out.append(",\n");
        append_entry_line(&mut out, reg.entry_at(i));
        proof {
            assert(reg@.take(i + 1).drop_last() =~= reg@.take(i as int));
            assert(reg@.take(i + 1).last() == reg@[i as int]);
            assert(joined_entries(reg@.take(i + 1)) == joined_entries(reg@.take(i as int)) + ",\n"@
                + entry_line(reg@[i as int]));
            assert(out@ =~= "{\n"@ + joined_entries(reg@.take(i + 1)));
        }
        i = i + 1;
    }
    out.append("\n}");
    proof {
        assert(reg@.take(n as int) =~= reg@);
        assert(out@ =~= routes_document(reg@));
    }
    out
}

} // verus!
