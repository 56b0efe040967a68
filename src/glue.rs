use vstd::prelude::*;
use vstd::string::*;
use crate::transform::opt_view;

verus! {

/// The hexadecimal digits, lowest first.
pub open spec fn hex_digits() -> Seq<char> {
    "0123456789abcdef"@
}

/// The lowercase hexadecimal digits of `n`, for `n` below 256, without
/// leading zeros.
pub open spec fn hex_of(n: u32) -> Seq<char> {
    if n < 16 {
        hex_digits().subrange(n as int, n + 1)
    } else {
        hex_digits().subrange(n as int / 16, n as int / 16 + 1) + hex_digits().subrange(
            n as int % 16,
            n as int % 16 + 1,
        )
    }
}

/// How one character is written inside a double-quoted script string: quote,
/// backslash, NUL, tab, line feed and carriage return take a backslash escape,
/// the other control characters a `\u{..}` escape, and the rest stand as they are.
pub open spec fn escape_char(c: char) -> Seq<char> {
    if c == '"' {
        "\\\""@
    } else if c == '\\' {
        "\\\\"@
    } else if c == '\0' {
        "\\0"@
    } else if c == '\t' {
        "\\t"@
    } else if c == '\n' {
        "\\n"@
    } else if c == '\r' {
        "\\r"@
    } else if (c as u32) < 32 || (c as u32) == 127 {
        "\\u{"@ + hex_of(c as u32) + "}"@
    } else {
        seq![c]
    }
}

/// The characters of `s`, each written as `escape_char` says.
pub open spec fn escaped(s: Seq<char>) -> Seq<char>
    decreases s.len(),
{
    if s.len() == 0 {
        Seq::empty()
    } else {
        escaped(s.drop_last()) + escape_char(s.last())
    }
}

/// `s` as a double-quoted script string literal.
pub open spec fn quoted(s: Seq<char>) -> Seq<char> {
    "\""@ + escaped(s) + "\""@
}

fn append_hex(out: &mut String, n: u32)
    requires
        n < 256,
    ensures
        final(out)@ == old(out)@ + hex_of(n),
{
    let digits = "0123456789abcdef";
    proof {
        reveal_strlit("0123456789abcdef");
    }
    if n < 16 {
        out.append(digits.substring_char(n as usize, n as usize + 1));
    } else {
        out.append(digits.substring_char((n / 16) as usize, (n / 16) as usize + 1));
        out.append(digits.substring_char((n % 16) as usize, (n % 16) as usize + 1));
    }
}

/// Appends `s` to `out` as a double-quoted script string literal.
pub fn append_quoted(out: &mut String, s: &str)
    ensures
        final(out)@ == old(out)@ + quoted(s@),
{
    let ghost start = out@;
    out.append("\"");
    let n = s.unicode_len();
    let mut i: usize = 0;
    proof {
        assert(s@.take(0).len() == 0);
        assert(out@ =~= start + "\""@ + escaped(s@.take(0)));
    }
    while i < n
        invariant
            n == s@.len(),
            i <= n,
            out@ == start + "\""@ + escaped(s@.take(i as int)),
        decreases n - i,
    {
        let ghost before = out@;
        let c = s.get_char(i);
        if c == '"' {
            out.append("\\\"");
        } else if c == '\\' {
            out.append("\\\\");
        } else if c == '\0' {
            out.append("\\0");
        } else if c == '\t' {
            out.append("\\t");
        } else if c == '\n' {
            out.append("\\n");
        } else if c == '\r' {
            out.append("\\r");
        } else if (c as u32) < 32 || (c as u32) == 127 {
            out.append("\\u{");
            append_hex(out, c as u32);
            out.append("}");
        } else {
            out.append(s.substring_char(i, i + 1));
            assert(s@.subrange(i as int, i + 1) =~= seq![c]);
        }
        proof {
            assert(out@ =~= before + escape_char(c));
            assert(s@.take(i + 1).drop_last() =~= s@.take(i as int));
            assert(s@.take(i + 1).last() == c);
            assert(out@ =~= start + "\""@ + escaped(s@.take(i + 1)));
        }
        i = i + 1;
    }
    out.append("\"");
    proof {
        assert(s@.take(n as int) =~= s@);
        assert(out@ =~= start + quoted(s@));
    }
}

/// `s` as a double-quoted script string literal.
pub fn js_string_literal(s: &str) -> (r: String)
    ensures
        r@ == quoted(s@),
{
    let mut out = String::new();
    append_quoted(&mut out, s);
    proof {
        assert(out@ =~= quoted(s@));
    }
    out
}

/// A function as the glue exposes it: its registered name and its scope.
pub struct ImportedName {
    pub name: String,
    pub scope: Option<String>,
}

/// (name, scope) as plain values.
pub type NameView = (Seq<char>, Option<Seq<char>>);

impl ImportedName {
    pub open spec fn view(&self) -> NameView {
        (self.name@, opt_view(self.scope))
    }
}

pub open spec fn strings_view(v: Seq<String>) -> Seq<Seq<char>> {
    v.map_values(|s: String| s@)
}

pub open spec fn names_view(v: Seq<ImportedName>) -> Seq<NameView> {
    v.map_values(|e: ImportedName| e@)
}

/// The line that creates the namespace object of `scope`.
pub open spec fn scope_line(scope: Seq<char>) -> Seq<char> {
    "        window["@ + quoted(scope) + "] = {};\n"@
}

/// Where the stub of a function is installed: `window[scope][name]`, or
/// `window[name]` without a scope.
pub open spec fn stub_target(e: NameView) -> Seq<char> {
    match e.1 {
        Some(scope) => "window["@ + quoted(scope) + "]["@ + quoted(e.0) + "]"@,
        None => "window["@ + quoted(e.0) + "]"@,
    }
}

/// The line that installs the stub of a function: it hands its arguments,
/// as an array under `args`, to the native call registered under the name.
pub open spec fn stub_line(e: NameView) -> Seq<char> {
    "        "@ + stub_target(e) + " = (...args) => Deno.core.opSync("@ + quoted(e.0) + ", {args});\n"@
}

pub open spec fn scope_lines(scopes: Seq<Seq<char>>) -> Seq<char>
    decreases scopes.len(),
{
    if scopes.len() == 0 {
        Seq::empty()
    } else {
        scope_lines(scopes.drop_last()) + scope_line(scopes.last())
    }
}

pub open spec fn stub_lines(names: Seq<NameView>) -> Seq<char>
    decreases names.len(),
{
    if names.len() == 0 {
        Seq::empty()
    } else {
        stub_lines(names.drop_last()) + stub_line(names.last())
    }
}

/// The glue source: in strict mode, one namespace object per scope, then one
/// stub per function, in the order given.
pub open spec fn glue_text(scopes: Seq<Seq<char>>, names: Seq<NameView>) -> Seq<char> {
    "\"use strict\";\n((window) => {\n"@ + scope_lines(scopes) + stub_lines(names) + "})(this);"@
}

/// Writes the glue source for the declared scopes and the imported
/// functions, each in the order given.
pub fn render_glue(scopes: &Vec<String>, names: &Vec<ImportedName>) -> (r: String)
    ensures
        r@ == glue_text(strings_view(scopes@), names_view(names@)),
{
    let ghost sv = strings_view(scopes@);
    let ghost nv = names_view(names@);
    let mut out = String::new();
    out.append("\"use strict\";\n((window) => {\n");
    let ghost head = out@;
    let mut i: usize = 0;
    proof {
        assert(sv.take(0).len() == 0);
        assert(out@ =~= head + scope_lines(sv.take(0)));
    }
    while i < scopes.len()
        invariant
            sv == strings_view(scopes@),
            i <= scopes.len(),
            out@ == head + scope_lines(sv.take(i as int)),
        decreases scopes.len() - i,
    {
        let ghost before = out@;
        out.append("        window[");
        append_quoted(&mut out, scopes[i].as_str());
        out.append("] = {};\n");
        proof {
            assert(out@ =~= before + scope_line(sv[i as int]));
            assert(sv.take(i + 1).drop_last() =~= sv.take(i as int));
            assert(out@ =~= head + scope_lines(sv.take(i + 1)));
        }
        i = i + 1;
    }
    proof {
        assert(sv.take(scopes.len() as int) =~= sv);
    }
    let ghost mid = out@;
    let mut j: usize = 0;
    proof {
        assert(nv.take(0).len() == 0);
        assert(out@ =~= mid + stub_lines(nv.take(0)));
    }
    while j < names.len()
        invariant
            nv == names_view(names@),
            j <= names.len(),
            out@ == mid + stub_lines(nv.take(j as int)),
        decreases names.len() - j,
    {
        let ghost before = out@;
        let entry = &names[j];
        out.append("        ");
        match &entry.scope {
            Some(scope) => {
                out.append("window[");
                append_quoted(&mut out, scope.as_str());
                out.append("][");
                append_quoted(&mut out, entry.name.as_str());
                out.append("]");
            },
            None => {
                out.append("window[");
                append_quoted(&mut out, entry.name.as_str());
                out.append("]");
            },
        }
        out.append(" = (...args) => Deno.core.opSync(");
        append_quoted(&mut out, entry.name.as_str());
        out.append(", {args});\n");
        proof {
            assert(out@ =~= before + stub_line(nv[j as int]));
            assert(nv.take(j + 1).drop_last() =~= nv.take(j as int));
            assert(out@ =~= mid + stub_lines(nv.take(j + 1)));
        }
        j = j + 1;
    }
    proof {
        assert(nv.take(names.len() as int) =~= nv);
    }
    out.append("})(this);");
    proof {
        assert(out@ =~= glue_text(sv, nv));
    }
    out
}

} // verus!
