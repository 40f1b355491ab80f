//! What the command line prints: JSON strings and objects for receipts,
//! errors, plans, sweeps and measurements, and their human-readable forms.
use vstd::prelude::*;
use crate::error::{Error, ErrorKind, ErrorModel, kind_name, error_message};
use crate::measure::Usage;
use crate::plan::{Plan, PlanModel};
use crate::text::{is_digit, push_char, push_decimal, push_joined, decimal, hex_char, join, chars_of, contains_chars, contains_seq};
use crate::walk::{Receipt, ReceiptModel, Tally};

verus! {

// --------------------------------------------------------------------- JSON

/// A character as it appears inside a JSON string: quotes, backslashes and
/// control characters escaped, everything else as it is.
pub open spec fn escape_char(c: char) -> Seq<char> {
    if c == '"' {
        seq!['\\', '"']
    } else if c == '\\' {
        seq!['\\', '\\']
    } else if c == '\n' {
        seq!['\\', 'n']
    } else if c == '\r' {
        seq!['\\', 'r']
    } else if c == '\t' {
        seq!['\\', 't']
    } else if (c as u32) < 0x20 {
        seq!['\\', 'u', '0', '0', hex_char(((c as u32) / 16) as nat), hex_char(((c as u32) % 16) as nat)]
    } else {
        seq![c]
    }
}

/// `s` with every character escaped.
pub open spec fn escaped(s: Seq<char>) -> Seq<char>
    decreases s.len(),
{
    if s.len() == 0 {
        seq![]
    } else {
        escaped(s.drop_last()) + escape_char(s.last())
    }
}

/// The JSON string literal for `s`.
pub open spec fn json_quote(s: Seq<char>) -> Seq<char> {
    seq!['"'] + escaped(s) + seq!['"']
}

/// A JSON array of the strings `items`.
pub open spec fn json_list(items: Seq<Seq<char>>) -> Seq<char> {
    "["@ + join(items.map_values(|p: Seq<char>| json_quote(p)), ","@) + "]"@
}

/// A JSON string, or `null`.
pub open spec fn json_opt(s: Option<Seq<char>>) -> Seq<char> {
    match s {
        Some(p) => json_quote(p),
        None => "null"@,
    }
}

/// The JSON object of a successful clone.
pub open spec fn receipt_text(r: ReceiptModel) -> Seq<char> {
    "{\"ok\":true,\"source\":"@ + json_quote(r.source) + ",\"destination\":"@ + json_quote(
        r.destination,
    ) + ",\"filesystem\":"@ + json_quote(r.filesystem) + ",\"directories\":"@ + decimal(
        r.tally.directories as nat,
    ) + ",\"regular_files\":"@ + decimal(r.tally.regular_files as nat) + ",\"symlinks\":"@
        + decimal(r.tally.symlinks as nat) + ",\"cloned_files\":"@ + decimal(
        r.tally.cloned_files as nat,
    ) + ",\"copied_files\":"@ + decimal(r.tally.copied_files as nat) + ",\"logical_bytes\":"@
        + decimal(r.tally.logical_bytes as nat) + ",\"copied_bytes\":"@ + decimal(
        r.tally.copied_bytes as nat,
    ) + ",\"hardlinked_files\":"@ + decimal(r.tally.hardlinked_files as nat)
        + ",\"swept_stages\":"@ + json_list(r.swept_stages) + ",\"available_before\":"@ + decimal(
        r.available_before as nat,
    ) + ",\"available_after\":"@ + decimal(r.available_after as nat) + "}"@
}

/// The JSON object of a failure.
pub open spec fn error_text(e: ErrorModel) -> Seq<char> {
    "{\"ok\":false,\"error\":{\"kind\":"@ + json_quote(kind_name(e.kind)) + ",\"path\":"@
        + json_opt(e.path) + ",\"message\":"@ + json_quote(e.detail) + ",\"kept_stage\":"@
        + json_opt(e.kept_stage) + "}}"@
}

/// The JSON object of a measurement of `path`.
pub open spec fn usage_text(path: Seq<char>, u: Usage) -> Seq<char> {
    "{\"path\":"@ + json_quote(path) + ",\"files\":"@ + decimal(u.files as nat)
        + ",\"logical_bytes\":"@ + decimal(u.logical_bytes as nat) + ",\"allocated_bytes\":"@
        + decimal(u.allocated_bytes as nat) + ",\"private_bytes\":"@ + match u.private_bytes {
        Some(b) => decimal(b as nat),
        None => "null"@,
    } + "}"@
}

/// The JSON object of a dry run.
pub open spec fn plan_text(p: PlanModel) -> Seq<char> {
    "{\"ok\":true,\"dry_run\":true,\"source\":"@ + json_quote(p.source) + ",\"destination\":"@
        + json_quote(p.destination) + ",\"cross_filesystem\":"@ + (if p.cross_filesystem {
        "true"@
    } else {
        "false"@
    }) + ",\"filesystem\":"@ + json_quote(p.fs_type) + ",\"available_bytes\":"@ + decimal(
        p.available_bytes as nat,
    ) + "}"@
}

/// The JSON object of a sweep that removed `removed`.
pub open spec fn sweep_text(removed: Seq<Seq<char>>) -> Seq<char> {
    "{\"ok\":true,\"removed\":"@ + json_list(removed) + "}"@
}

proof fn lemma_escaped_step(s: Seq<char>, i: int)
    requires
        0 <= i < s.len(),
    ensures
        escaped(s.take(i + 1)) == escaped(s.take(i)) + escape_char(s[i]),
{
    assert(s.take(i + 1).drop_last() =~= s.take(i));
}

fn hex_digit(d: u32) -> (c: char)
    requires
        d < 16,
    ensures
        c == hex_char(d as nat),
{
    if d == 0 {
        '0'
    } else if d == 1 {
        '1'
    } else if d == 2 {
        '2'
    } else if d == 3 {
        '3'
    } else if d == 4 {
        '4'
    } else if d == 5 {
        '5'
    } else if d == 6 {
        '6'
    } else if d == 7 {
        '7'
    } else if d == 8 {
        '8'
    } else if d == 9 {
        '9'
    } else if d == 10 {
        'a'
    } else if d == 11 {
        'b'
    } else if d == 12 {
        'c'
    } else if d == 13 {
        'd'
    } else if d == 14 {
        'e'
    } else {
        'f'
    }
}

/// Appends the JSON string literal for `text` to `out`.
pub fn push_json_string(out: &mut String, text: &str)
    ensures
        final(out)@ == old(out)@ + json_quote(text@),
{
    let ghost start = out@;
    let cs = chars_of(text);
    push_char(out, '"');
    let mut i: usize = 0;
    while i < cs.len()
        invariant
            i <= cs@.len(),
            cs@ == text@,
            out@ == start + seq!['"'] + escaped(cs@.take(i as int)),
        decreases cs@.len() - i,
    {
        let c = cs[i];
        let ghost before = out@;
        if c == '"' {
            push_char(out, '\\');
            push_char(out, '"');
        } else if c == '\\' {
            push_char(out, '\\');
            push_char(out, '\\');
        } else if c == '\n' {
            push_char(out, '\\');
            push_char(out, 'n');
        } else if c == '\r' {
            push_char(out, '\\');
            push_char(out, 'r');
        } else if c == '\t' {
            push_char(out, '\\');
            push_char(out, 't');
        } else if (c as u32) < 0x20 {
            push_char(out, '\\');
            push_char(out, 'u');
            push_char(out, '0');
            push_char(out, '0');
            push_char(out, hex_digit((c as u32) / 16));
            push_char(out, hex_digit((c as u32) % 16));
        } else {
            push_char(out, c);
        }
        proof {
            lemma_escaped_step(cs@, i as int);
            assert(out@ =~= before + escape_char(c));
        }
        i = i + 1;
    }
    assert(cs@.take(cs@.len() as int) =~= text@);
    push_char(out, '"');
    assert(out@ =~= start + json_quote(text@));
}

/// The JSON string literal for `text`.
pub fn json_string(text: &str) -> (r: String)
    ensures
        r@ == json_quote(text@),
{
    let mut out = String::new();
    push_json_string(&mut out, text);
    assert(out@ =~= json_quote(text@));
    out
}

/// The JSON string literal for a path (given as it is displayed).
pub fn json_path(path: &str) -> (r: String)
    ensures
        r@ == json_quote(path@),
{
    json_string(path)
}

/// Appends the JSON array of the strings `items` to `out`.
pub fn push_json_list(out: &mut String, items: &[String])
    ensures
        final(out)@ == old(out)@ + json_list(items@.map_values(|s: String| s@)),
{
    let mut quoted: Vec<String> = Vec::new();
    let ghost all = items@.map_values(|s: String| s@);
    let mut i: usize = 0;
    while i < items.len()
        invariant
            i <= items@.len(),
            all == items@.map_values(|s: String| s@),
            quoted@.map_values(|s: String| s@) == all.take(i as int).map_values(
                |p: Seq<char>| json_quote(p),
            ),
        decreases items@.len() - i,
    {
        let q = json_string(items[i].as_str());
        assert(all[i as int] == items@[i as int]@);
        let ghost prev = quoted@.map_values(|s: String| s@);
        quoted.push(q);
        assert(quoted@.map_values(|s: String| s@) =~= prev.push(json_quote(all[i as int])));
        assert(all.take(i + 1).map_values(|p: Seq<char>| json_quote(p)) =~= all.take(i as int).map_values(
            |p: Seq<char>| json_quote(p),
        ).push(json_quote(all[i as int])));
        assert(quoted@.map_values(|s: String| s@) =~= all.take(i + 1).map_values(
            |p: Seq<char>| json_quote(p),
        ));
        i = i + 1;
    }
    assert(all.take(items@.len() as int) =~= all);
    out.append("[");
    push_joined(out, &quoted, ",");
    out.append("]");
}

/// Appends a JSON string, or `null`.
fn push_json_opt(out: &mut String, s: &Option<String>)
    ensures
        final(out)@ == old(out)@ + json_opt(crate::error::opt_view(*s)),
{
    match s {
        Some(p) => push_json_string(out, p.as_str()),
        None => out.append("null"),
    }
}

/// The JSON object of a successful clone.
pub fn receipt_json(r: &Receipt) -> (s: String)
    ensures
        s@ == receipt_text(r@),
{
    let mut s = "{\"ok\":true,\"source\":".to_owned();
    push_json_string(&mut s, r.source.as_str());
    s.append(",\"destination\":");
    push_json_string(&mut s, r.destination.as_str());
    s.append(",\"filesystem\":");
    push_json_string(&mut s, r.filesystem.as_str());
    s.append(",\"directories\":");
    push_decimal(&mut s, r.directories);
    s.append(",\"regular_files\":");
    push_decimal(&mut s, r.regular_files);
    s.append(",\"symlinks\":");
    push_decimal(&mut s, r.symlinks);
    s.append(",\"cloned_files\":");
    push_decimal(&mut s, r.cloned_files);
    s.append(",\"copied_files\":");
    push_decimal(&mut s, r.copied_files);
    s.append(",\"logical_bytes\":");
    push_decimal(&mut s, r.logical_bytes);
    s.append(",\"copied_bytes\":");
    push_decimal(&mut s, r.copied_bytes);
    s.append(",\"hardlinked_files\":");
    push_decimal(&mut s, r.hardlinked_files);
    s.append(",\"swept_stages\":");
    push_json_list(&mut s, &r.swept_stages);
    s.append(",\"available_before\":");
    push_decimal(&mut s, r.available_before);
    s.append(",\"available_after\":");
    push_decimal(&mut s, r.available_after);
    s.append("}");
    assert(s@ =~= receipt_text(r@));
    s
}

/// The JSON object of a failure.
pub fn error_json(e: &Error) -> (s: String)
    ensures
        s@ == error_text(e@),
{
    let mut s = "{\"ok\":false,\"error\":{\"kind\":".to_owned();
    push_json_string(&mut s, e.kind.name());
    s.append(",\"path\":");
    push_json_opt(&mut s, &e.path);
    s.append(",\"message\":");
    push_json_string(&mut s, e.detail.as_str());
    s.append(",\"kept_stage\":");
    push_json_opt(&mut s, &e.kept_stage);
    s.append("}}");
    assert(s@ =~= error_text(e@));
    s
}

/// The JSON object of a measurement of `path`.
pub fn usage_json(path: &str, u: &Usage) -> (s: String)
    ensures
        s@ == usage_text(path@, *u),
{
    let mut s = "{\"path\":".to_owned();
    push_json_string(&mut s, path);
    s.append(",\"files\":");
    push_decimal(&mut s, u.files);
    s.append(",\"logical_bytes\":");
    push_decimal(&mut s, u.logical_bytes);
    s.append(",\"allocated_bytes\":");
    push_decimal(&mut s, u.allocated_bytes);
    s.append(",\"private_bytes\":");
    match u.private_bytes {
        Some(b) => push_decimal(&mut s, b),
        None => s.append("null"),
    }
    s.append("}");
    assert(s@ =~= usage_text(path@, *u));
    s
}

/// The JSON object of a dry run.
pub fn plan_json(p: &Plan) -> (s: String)
    ensures
        s@ == plan_text(p@),
{
    let mut s = "{\"ok\":true,\"dry_run\":true,\"source\":".to_owned();
    push_json_string(&mut s, p.source.as_str());
    s.append(",\"destination\":");
    push_json_string(&mut s, p.destination.as_str());
    s.append(",\"cross_filesystem\":");
    if p.cross_filesystem {
        s.append("true");
    } else {
        s.append("false");
    }
    s.append(",\"filesystem\":");
    push_json_string(&mut s, p.filesystem.fs_type.as_str());
    s.append(",\"available_bytes\":");
    push_decimal(&mut s, p.filesystem.available_bytes);
    s.append("}");
    assert(s@ =~= plan_text(p@));
    s
}

/// The JSON object of a sweep that removed `removed`.
pub fn sweep_json(removed: &[String]) -> (s: String)
    ensures
        s@ == sweep_text(removed@.map_values(|x: String| x@)),
{
    let mut s = "{\"ok\":true,\"removed\":".to_owned();
    push_json_list(&mut s, removed);
    s.append("}");
    assert(s@ =~= sweep_text(removed@.map_values(|x: String| x@)));
    s
}

// ------------------------------------------------------------ plain text

/// The line reporting a measurement of `path`.
pub open spec fn usage_line_text(path: Seq<char>, u: Usage) -> Seq<char> {
    path + ": "@ + decimal(u.files as nat) + " files, "@ + decimal(u.logical_bytes as nat)
        + " logical bytes, "@ + decimal(u.allocated_bytes as nat) + " allocated (du), "@
        + match u.private_bytes {
        Some(b) => decimal(b as nat),
        None => "unknown"@,
    } + " private"@
}

/// The line reporting a successful clone.
pub open spec fn completion_text(t: Tally) -> Seq<char> {
    "Clone completed successfully: "@ + decimal(t.directories as nat) + " directories, "@
        + decimal(t.regular_files as nat) + " files ("@ + decimal(t.cloned_files as nat)
        + " cloned, "@ + decimal(t.copied_files as nat) + " copied, "@ + decimal(
        t.copied_bytes as nat,
    ) + " bytes copied of "@ + decimal(t.logical_bytes as nat) + " logical), "@ + decimal(
        t.symlinks as nat,
    ) + " symlinks"@
}

/// What a failure prints on standard error: a missing source and a refused
/// permission are said plainly; anything else is the error's own message.
pub open spec fn failure_text(e: ErrorModel) -> Seq<char> {
    if e.kind == ErrorKind::InvalidSource && contains_seq(e.detail, "does not exist"@) {
        "Error: Source directory does not exist"@
    } else if e.kind == ErrorKind::PermissionDenied && e.path is Some {
        "Error: Permission denied: "@ + e.path->0
    } else {
        "Error: "@ + error_message(e)
    }
}

/// The line reporting a measurement of `path`.
pub fn usage_line(path: &str, u: &Usage) -> (s: String)
    ensures
        s@ == usage_line_text(path@, *u),
{
    let mut s = path.to_owned();
    s.append(": ");
    push_decimal(&mut s, u.files);
    s.append(" files, ");
    push_decimal(&mut s, u.logical_bytes);
    s.append(" logical bytes, ");
    push_decimal(&mut s, u.allocated_bytes);
    s.append(" allocated (du), ");
    match u.private_bytes {
        Some(b) => push_decimal(&mut s, b),
        None => s.append("unknown"),
    }
    s.append(" private");
    assert(s@ =~= usage_line_text(path@, *u));
    s
}

/// `first` followed by `a`, `middle` and `b`.
fn sentence(first: &str, a: &str, middle: &str, b: &str) -> (s: String)
    ensures
        s@ == first@ + a@ + middle@ + b@,
{
    let mut s = first.to_owned();
    s.append(a);
    s.append(middle);
    s.append(b);
    s
}

/// The line announcing a dry run's plan.
pub fn dry_run_line(source: &str, destination: &str) -> (s: String)
    ensures
        s@ == "Dry run: Would clone "@ + source@ + " to "@ + destination@,
{
    sentence("Dry run: Would clone ", source, " to ", destination)
}

/// The line announcing a verbose clone.
pub fn cloning_line(source: &str, destination: &str) -> (s: String)
    ensures
        s@ == "Cloning "@ + source@ + " to "@ + destination@,
{
    sentence("Cloning ", source, " to ", destination)
}

/// The line reporting a stage a sweep removed.
pub fn removed_line(stage: &str) -> (s: String)
    ensures
        s@ == "Removed stale stage "@ + stage@,
{
    let mut s = "Removed stale stage ".to_owned();
    s.append(stage);
    s
}

/// The line naming a failed stage that was left in place.
pub fn kept_stage_line(stage: &str) -> (s: String)
    ensures
        s@ == "Kept stage: "@ + stage@,
{
    let mut s = "Kept stage: ".to_owned();
    s.append(stage);
    s
}

/// The line reporting a successful clone.
pub fn completion_line(r: &Receipt) -> (s: String)
    ensures
        s@ == completion_text(r@.tally),
{
    let mut s = "Clone completed successfully: ".to_owned();
    push_decimal(&mut s, r.directories);
    s.append(" directories, ");
    push_decimal(&mut s, r.regular_files);
    s.append(" files (");
    push_decimal(&mut s, r.cloned_files);
    s.append(" cloned, ");
    push_decimal(&mut s, r.copied_files);
    s.append(" copied, ");
    push_decimal(&mut s, r.copied_bytes);
    s.append(" bytes copied of ");
    push_decimal(&mut s, r.logical_bytes);
    s.append(" logical), ");
    push_decimal(&mut s, r.symlinks);
    s.append(" symlinks");
    assert(s@ =~= completion_text(r@.tally));
    s
}

/// The line a failed measurement or sweep of `path` prints on standard
/// error: the path and the failure's own message.
pub fn path_failure_line(path: &str, message: &str) -> (s: String)
    ensures
        s@ == "Error: "@ + path@ + ": "@ + message@,
{
    sentence("Error: ", path, ": ", message)
}

/// What a failure prints on standard error.
pub fn failure_message(e: &Error) -> (s: String)
    ensures
        s@ == failure_text(e@),
{
    if e.kind == ErrorKind::InvalidSource && contains_chars(&chars_of(e.detail.as_str()), &chars_of("does not exist")) {
        return "Error: Source directory does not exist".to_owned();
    }
    if e.kind == ErrorKind::PermissionDenied {
        match &e.path {
            Some(p) => {
                let mut s = "Error: Permission denied: ".to_owned();
                s.append(p.as_str());
                return s;
            },
            None => {},
        }
    }
    let mut s = "Error: ".to_owned();
    s.append(e.message().as_str());
    s
}

// ------------------------------------------------------------------- laws

/// An escaped character holds no control character.
proof fn lemma_escape_char_printable(c: char)
    ensures
        forall|i: int| 0 <= i < escape_char(c).len() ==> (#[trigger] escape_char(c)[i] as u32) >= 0x20,
{
    let e = escape_char(c);
    if (c as u32) < 0x20 && c != '\n' && c != '\r' && c != '\t' {
        let hi = ((c as u32) / 16) as nat;
        let lo = ((c as u32) % 16) as nat;
        assert(hi < 16 && lo < 16);
    }
}

/// A JSON string literal holds no raw control character: newlines, tabs and
/// the like in the text always come out escaped.
pub proof fn lemma_json_quote_printable(s: Seq<char>)
    ensures
        forall|i: int| 0 <= i < json_quote(s).len() ==> (#[trigger] json_quote(s)[i] as u32) >= 0x20,
{
    lemma_escaped_printable(s);
    let q = json_quote(s);
    assert forall|i: int| 0 <= i < q.len() implies (#[trigger] q[i] as u32) >= 0x20 by {
        if i > 0 && i < q.len() - 1 {
            assert(q[i] == escaped(s)[i - 1]);
        }
    }
}

proof fn lemma_escaped_printable(s: Seq<char>)
    ensures
        forall|i: int| 0 <= i < escaped(s).len() ==> (#[trigger] escaped(s)[i] as u32) >= 0x20,
    decreases s.len(),
{
    if s.len() > 0 {
        lemma_escaped_printable(s.drop_last());
        lemma_escape_char_printable(s.last());
        let a = escaped(s.drop_last());
        let b = escape_char(s.last());
        assert forall|i: int| 0 <= i < escaped(s).len() implies (#[trigger] escaped(s)[i] as u32) >= 0x20 by {
            if i < a.len() {
                assert(escaped(s)[i] == a[i]);
            } else {
                assert(escaped(s)[i] == b[i - a.len()]);
            }
        }
    }
}

/// Whether `c` stands in a JSON string as it is: no quote, no backslash,
/// no control character.
pub open spec fn plain_char(c: char) -> bool {
    c != '"' && c != '\\' && (c as u32) >= 0x20
}

proof fn lemma_escaped_plain(s: Seq<char>)
    requires
        forall|i: int| 0 <= i < s.len() ==> plain_char(#[trigger] s[i]),
    ensures
        escaped(s) == s,
    decreases s.len(),
{
    if s.len() > 0 {
        lemma_escaped_plain(s.drop_last());
        assert(plain_char(s[s.len() - 1]));
        assert(escape_char(s.last()) == seq![s.last()]);
        assert(s.drop_last() + seq![s.last()] =~= s);
    }
}

/// Text without quotes, backslashes or control characters is quoted as it
/// is, between two quotes.
pub proof fn lemma_plain_text_is_quoted_verbatim(s: Seq<char>)
    requires
        forall|i: int| 0 <= i < s.len() ==> plain_char(#[trigger] s[i]),
    ensures
        json_quote(s) == seq!['"'] + s + seq!['"'],
{
    lemma_escaped_plain(s);
}

/// The value of a lowercase hexadecimal digit.
pub open spec fn hex_value(c: char) -> int {
    if '0' <= c && c <= '9' {
        c as int - 48
    } else if 'a' <= c && c <= 'f' {
        c as int - 87
    } else {
        -1
    }
}

/// The first character a JSON string body `t` stands for, and how many
/// characters of `t` it takes: a plain character itself; `\"`, `\\`,
/// `\n`, `\r`, `\t`; and `\u00XX` for a control character.
pub open spec fn first_unit(t: Seq<char>) -> Option<(char, int)> {
    if t.len() == 0 {
        None
    } else if t[0] != '\\' {
        if plain_char(t[0]) {
            Some((t[0], 1))
        } else {
            None
        }
    } else if t.len() < 2 {
        None
    } else if t[1] == '"' {
        Some(('"', 2))
    } else if t[1] == '\\' {
        Some(('\\', 2))
    } else if t[1] == 'n' {
        Some(('\n', 2))
    } else if t[1] == 'r' {
        Some(('\r', 2))
    } else if t[1] == 't' {
        Some(('\t', 2))
    } else if t[1] == 'u' && t.len() >= 6 && t[2] == '0' && t[3] == '0' && 0 <= hex_value(t[4]) < 2
        && 0 <= hex_value(t[5]) {
        Some((((hex_value(t[4]) * 16 + hex_value(t[5])) as u32) as char, 6))
    } else {
        None
    }
}

/// The text a JSON string body `t` stands for, when `t` is one.
pub open spec fn unescaped(t: Seq<char>) -> Option<Seq<char>>
    decreases t.len(),
{
    if t.len() == 0 {
        Some(seq![])
    } else {
        match first_unit(t) {
            Some((c, n)) => if 1 <= n <= t.len() {
                match unescaped(t.skip(n)) {
                    Some(r) => Some(seq![c] + r),
                    None => None,
                }
            } else {
                None
            },
            None => None,
        }
    }
}

proof fn lemma_escaped_cons(c: char, s: Seq<char>)
    ensures
        escaped(seq![c] + s) == escape_char(c) + escaped(s),
    decreases s.len(),
{
    if s.len() == 0 {
        assert(seq![c] + s =~= seq![c]);
        assert(seq![c].drop_last() =~= Seq::<char>::empty());
        assert(escaped(seq![c]) == escaped(Seq::<char>::empty()) + escape_char(c));
        assert(escape_char(c) + escaped(s) =~= escape_char(c));
    } else {
        lemma_escaped_cons(c, s.drop_last());
        assert((seq![c] + s).drop_last() =~= seq![c] + s.drop_last());
        assert((seq![c] + s).last() == s.last());
        assert(escape_char(c) + escaped(s) =~= escape_char(c) + escaped(s.drop_last()) + escape_char(s.last()));
    }
}

proof fn lemma_hex_char_value(d: nat)
    requires
        d < 16,
    ensures
        hex_value(hex_char(d)) == d,
{
}

proof fn lemma_first_unit(c: char, t: Seq<char>)
    ensures
        first_unit(escape_char(c) + t) == Some((c, escape_char(c).len() as int)),
        1 <= escape_char(c).len() <= 6,
{
    let e = escape_char(c);
    let u = e + t;
    if c != '"' && c != '\\' && c != '\n' && c != '\r' && c != '\t' && (c as u32) < 0x20 {
        let hi = ((c as u32) / 16) as nat;
        let lo = ((c as u32) % 16) as nat;
        lemma_hex_char_value(hi);
        lemma_hex_char_value(lo);
        assert(u[4] == hex_char(hi));
        assert(u[5] == hex_char(lo));
        assert(hi * 16 + lo == c as u32);
        assert((((hi * 16 + lo) as u32) as char) == c);
    }
}

/// Quoting undoes: the body of the JSON string literal for any text stands
/// for exactly that text.
pub proof fn lemma_json_escaping_round_trips(s: Seq<char>)
    ensures
        unescaped(escaped(s)) == Some(s),
    decreases s.len(),
{
    if s.len() > 0 {
        let c = s[0];
        let rest = s.drop_first();
        assert(s =~= seq![c] + rest);
        lemma_escaped_cons(c, rest);
        lemma_first_unit(c, escaped(rest));
        lemma_json_escaping_round_trips(rest);
        let t = escape_char(c) + escaped(rest);
        assert(t.skip(escape_char(c).len() as int) =~= escaped(rest));
        assert(seq![c] + rest =~= s);
    } else {
        assert(escaped(s) =~= Seq::<char>::empty());
    }
}

// ---------------------------------------------------------- reading back

/// The text of a JSON object member's key: the quoted name and a colon.
pub open spec fn field_key(name: Seq<char>) -> Seq<char> {
    seq!['"'] + name + seq!['"', ':']
}

/// Whether `text` holds the member `name` with the value `value`: the key,
/// then the value's text, then a character that ends it (not a digit).
pub open spec fn holds_field(text: Seq<char>, name: Seq<char>, value: Seq<char>) -> bool {
    exists|i: int|
        #![trigger text.subrange(i, i + field_key(name).len())]
        0 <= i && i + field_key(name).len() + value.len() < text.len() && text.subrange(
            i,
            i + field_key(name).len(),
        ) == field_key(name) && text.subrange(
            i + field_key(name).len(),
            i + field_key(name).len() + value.len(),
        ) == value && !is_digit(text[i + field_key(name).len() + value.len()])
}

proof fn lemma_field_found(p: Seq<char>, name: Seq<char>, value: Seq<char>, rest: Seq<char>)
    requires
        rest.len() > 0,
        !is_digit(rest[0]),
    ensures
        holds_field(p + field_key(name) + value + rest, name, value),
{
    let text = p + field_key(name) + value + rest;
    let k = field_key(name);
    let i = p.len() as int;
    assert(text.subrange(i, i + k.len()) =~= k);
    assert(text.subrange(i + k.len(), i + k.len() + value.len()) =~= value);
    assert(text[i + k.len() + value.len()] == rest[0]);
}

proof fn lemma_field_extends(text: Seq<char>, more: Seq<char>, name: Seq<char>, value: Seq<char>)
    requires
        holds_field(text, name, value),
    ensures
        holds_field(text + more, name, value),
{
    let k = field_key(name);
    let i = choose|i: int|
        #![trigger text.subrange(i, i + field_key(name).len())]
        0 <= i && i + field_key(name).len() + value.len() < text.len() && text.subrange(
            i,
            i + field_key(name).len(),
        ) == field_key(name) && text.subrange(
            i + field_key(name).len(),
            i + field_key(name).len() + value.len(),
        ) == value && !is_digit(text[i + field_key(name).len() + value.len()]);
    let t = text + more;
    assert(t.subrange(i, i + k.len()) =~= text.subrange(i, i + k.len()));
    assert(t.subrange(i + k.len(), i + k.len() + value.len()) =~= text.subrange(i + k.len(), i + k.len() + value.len()));
    assert(t[i + k.len() + value.len()] == text[i + k.len() + value.len()]);
}

proof fn lemma_receipt_reads_back_source(r: ReceiptModel)
    ensures
        holds_field(receipt_text(r), "source"@, json_quote(r.source)),
{
    reveal_strlit(",\"destination\":");
    reveal_strlit("source");
    reveal_strlit("{\"ok\":true,");
    reveal_strlit("{\"ok\":true,\"source\":");
    assert("{\"ok\":true,\"source\":"@ =~= "{\"ok\":true,"@ + field_key("source"@));
    assert("{\"ok\":true,\"source\":"@ + json_quote(r.source) + ",\"destination\":"@ =~= ("{\"ok\":true,"@) + field_key("source"@) + json_quote(r.source) + ",\"destination\":"@);
    lemma_field_found("{\"ok\":true,"@, "source"@, json_quote(r.source), ",\"destination\":"@);
    lemma_field_extends("{\"ok\":true,\"source\":"@ + json_quote(r.source) + ",\"destination\":"@, json_quote(r.destination), "source"@, json_quote(r.source));
    lemma_field_extends("{\"ok\":true,\"source\":"@ + json_quote(r.source) + ",\"destination\":"@ + json_quote(r.destination), ",\"filesystem\":"@, "source"@, json_quote(r.source));
    lemma_field_extends("{\"ok\":true,\"source\":"@ + json_quote(r.source) + ",\"destination\":"@ + json_quote(r.destination) + ",\"filesystem\":"@, json_quote(r.filesystem), "source"@, json_quote(r.source));
    lemma_field_extends("{\"ok\":true,\"source\":"@ + json_quote(r.source) + ",\"destination\":"@ + json_quote(r.destination) + ",\"filesystem\":"@ + json_quote(r.filesystem), ",\"directories\":"@, "source"@, json_quote(r.source));
    lemma_field_extends("{\"ok\":true,\"source\":"@ + json_quote(r.source) + ",\"destination\":"@ + json_quote(r.destination) + ",\"filesystem\":"@ + json_quote(r.filesystem) + ",\"directories\":"@, decimal(r.tally.directories as nat), "source"@, json_quote(r.source));
    lemma_field_extends("{\"ok\":true,\"source\":"@ + json_quote(r.source) + ",\"destination\":"@ + json_quote(r.destination) + ",\"filesystem\":"@ + json_quote(r.filesystem) + ",\"directories\":"@ + decimal(r.tally.directories as nat), ",\"regular_files\":"@, "source"@, json_quote(r.source));
    lemma_field_extends("{\"ok\":true,\"source\":"@ + json_quote(r.source) + ",\"destination\":"@ + json_quote(r.destination) + ",\"filesystem\":"@ + json_quote(r.filesystem) + ",\"directories\":"@ + decimal(r.tally.directories as nat) + ",\"regular_files\":"@, decimal(r.tally.regular_files as nat), "source"@, json_quote(r.source));
    lemma_field_extends("{\"ok\":true,\"source\":"@ + json_quote(r.source) + ",\"destination\":"@ + json_quote(r.destination) + ",\"filesystem\":"@ + json_quote(r.filesystem) + ",\"directories\":"@ + decimal(r.tally.directories as nat) + ",\"regular_files\":"@ + decimal(r.tally.regular_files as nat), ",\"symlinks\":"@, "source"@, json_quote(r.source));
    lemma_field_extends("{\"ok\":true,\"source\":"@ + json_quote(r.source) + ",\"destination\":"@ + json_quote(r.destination) + ",\"filesystem\":"@ + json_quote(r.filesystem) + ",\"directories\":"@ + decimal(r.tally.directories as nat) + ",\"regular_files\":"@ + decimal(r.tally.regular_files as nat) + ",\"symlinks\":"@, decimal(r.tally.symlinks as nat), "source"@, json_quote(r.source));
    lemma_field_extends("{\"ok\":true,\"source\":"@ + json_quote(r.source) + ",\"destination\":"@ + json_quote(r.destination) + ",\"filesystem\":"@ + json_quote(r.filesystem) + ",\"directories\":"@ + decimal(r.tally.directories as nat) + ",\"regular_files\":"@ + decimal(r.tally.regular_files as nat) + ",\"symlinks\":"@ + decimal(r.tally.symlinks as nat), ",\"cloned_files\":"@, "source"@, json_quote(r.source));
    lemma_field_extends("{\"ok\":true,\"source\":"@ + json_quote(r.source) + ",\"destination\":"@ + json_quote(r.destination) + ",\"filesystem\":"@ + json_quote(r.filesystem) + ",\"directories\":"@ + decimal(r.tally.directories as nat) + ",\"regular_files\":"@ + decimal(r.tally.regular_files as nat) + ",\"symlinks\":"@ + decimal(r.tally.symlinks as nat) + ",\"cloned_files\":"@, decimal(r.tally.cloned_files as nat), "source"@, json_quote(r.source));
    lemma_field_extends("{\"ok\":true,\"source\":"@ + json_quote(r.source) + ",\"destination\":"@ + json_quote(r.destination) + ",\"filesystem\":"@ + json_quote(r.filesystem) + ",\"directories\":"@ + decimal(r.tally.directories as nat) + ",\"regular_files\":"@ + decimal(r.tally.regular_files as nat) + ",\"symlinks\":"@ + decimal(r.tally.symlinks as nat) + ",\"cloned_files\":"@ + decimal(r.tally.cloned_files as nat), ",\"copied_files\":"@, "source"@, json_quote(r.source));
    lemma_field_extends("{\"ok\":true,\"source\":"@ + json_quote(r.source) + ",\"destination\":"@ + json_quote(r.destination) + ",\"filesystem\":"@ + json_quote(r.filesystem) + ",\"directories\":"@ + decimal(r.tally.directories as nat) + ",\"regular_files\":"@ + decimal(r.tally.regular_files as nat) + ",\"symlinks\":"@ + decimal(r.tally.symlinks as nat) + ",\"cloned_files\":"@ + decimal(r.tally.cloned_files as nat) + ",\"copied_files\":"@, decimal(r.tally.copied_files as nat), "source"@, json_quote(r.source));
    lemma_field_extends("{\"ok\":true,\"source\":"@ + json_quote(r.source) + ",\"destination\":"@ + json_quote(r.destination) + ",\"filesystem\":"@ + json_quote(r.filesystem) + ",\"directories\":"@ + decimal(r.tally.directories as nat) + ",\"regular_files\":"@ + decimal(r.tally.regular_files as nat) + ",\"symlinks\":"@ + decimal(r.tally.symlinks as nat) + ",\"cloned_files\":"@ + decimal(r.tally.cloned_files as nat) + ",\"copied_files\":"@ + decimal(r.tally.copied_files as nat), ",\"logical_bytes\":"@, "source"@, json_quote(r.source));
    lemma_field_extends("{\"ok\":true,\"source\":"@ + json_quote(r.source) + ",\"destination\":"@ + json_quote(r.destination) + ",\"filesystem\":"@ + json_quote(r.filesystem) + ",\"directories\":"@ + decimal(r.tally.directories as nat) + ",\"regular_files\":"@ + decimal(r.tally.regular_files as nat) + ",\"symlinks\":"@ + decimal(r.tally.symlinks as nat) + ",\"cloned_files\":"@ + decimal(r.tally.cloned_files as nat) + ",\"copied_files\":"@ + decimal(r.tally.copied_files as nat) + ",\"logical_bytes\":"@, decimal(r.tally.logical_bytes as nat), "source"@, json_quote(r.source));
    lemma_field_extends("{\"ok\":true,\"source\":"@ + json_quote(r.source) + ",\"destination\":"@ + json_quote(r.destination) + ",\"filesystem\":"@ + json_quote(r.filesystem) + ",\"directories\":"@ + decimal(r.tally.directories as nat) + ",\"regular_files\":"@ + decimal(r.tally.regular_files as nat) + ",\"symlinks\":"@ + decimal(r.tally.symlinks as nat) + ",\"cloned_files\":"@ + decimal(r.tally.cloned_files as nat) + ",\"copied_files\":"@ + decimal(r.tally.copied_files as nat) + ",\"logical_bytes\":"@ + decimal(r.tally.logical_bytes as nat), ",\"copied_bytes\":"@, "source"@, json_quote(r.source));
    lemma_field_extends("{\"ok\":true,\"source\":"@ + json_quote(r.source) + ",\"destination\":"@ + json_quote(r.destination) + ",\"filesystem\":"@ + json_quote(r.filesystem) + ",\"directories\":"@ + decimal(r.tally.directories as nat) + ",\"regular_files\":"@ + decimal(r.tally.regular_files as nat) + ",\"symlinks\":"@ + decimal(r.tally.symlinks as nat) + ",\"cloned_files\":"@ + decimal(r.tally.cloned_files as nat) + ",\"copied_files\":"@ + decimal(r.tally.copied_files as nat) + ",\"logical_bytes\":"@ + decimal(r.tally.logical_bytes as nat) + ",\"copied_bytes\":"@, decimal(r.tally.copied_bytes as nat), "source"@, json_quote(r.source));
    lemma_field_extends("{\"ok\":true,\"source\":"@ + json_quote(r.source) + ",\"destination\":"@ + json_quote(r.destination) + ",\"filesystem\":"@ + json_quote(r.filesystem) + ",\"directories\":"@ + decimal(r.tally.directories as nat) + ",\"regular_files\":"@ + decimal(r.tally.regular_files as nat) + ",\"symlinks\":"@ + decimal(r.tally.symlinks as nat) + ",\"cloned_files\":"@ + decimal(r.tally.cloned_files as nat) + ",\"copied_files\":"@ + decimal(r.tally.copied_files as nat) + ",\"logical_bytes\":"@ + decimal(r.tally.logical_bytes as nat) + ",\"copied_bytes\":"@ + decimal(r.tally.copied_bytes as nat), ",\"hardlinked_files\":"@, "source"@, json_quote(r.source));
    lemma_field_extends("{\"ok\":true,\"source\":"@ + json_quote(r.source) + ",\"destination\":"@ + json_quote(r.destination) + ",\"filesystem\":"@ + json_quote(r.filesystem) + ",\"directories\":"@ + decimal(r.tally.directories as nat) + ",\"regular_files\":"@ + decimal(r.tally.regular_files as nat) + ",\"symlinks\":"@ + decimal(r.tally.symlinks as nat) + ",\"cloned_files\":"@ + decimal(r.tally.cloned_files as nat) + ",\"copied_files\":"@ + decimal(r.tally.copied_files as nat) + ",\"logical_bytes\":"@ + decimal(r.tally.logical_bytes as nat) + ",\"copied_bytes\":"@ + decimal(r.tally.copied_bytes as nat) + ",\"hardlinked_files\":"@, decimal(r.tally.hardlinked_files as nat), "source"@, json_quote(r.source));
    lemma_field_extends("{\"ok\":true,\"source\":"@ + json_quote(r.source) + ",\"destination\":"@ + json_quote(r.destination) + ",\"filesystem\":"@ + json_quote(r.filesystem) + ",\"directories\":"@ + decimal(r.tally.directories as nat) + ",\"regular_files\":"@ + decimal(r.tally.regular_files as nat) + ",\"symlinks\":"@ + decimal(r.tally.symlinks as nat) + ",\"cloned_files\":"@ + decimal(r.tally.cloned_files as nat) + ",\"copied_files\":"@ + decimal(r.tally.copied_files as nat) + ",\"logical_bytes\":"@ + decimal(r.tally.logical_bytes as nat) + ",\"copied_bytes\":"@ + decimal(r.tally.copied_bytes as nat) + ",\"hardlinked_files\":"@ + decimal(r.tally.hardlinked_files as nat), ",\"swept_stages\":"@, "source"@, json_quote(r.source));
    lemma_field_extends("{\"ok\":true,\"source\":"@ + json_quote(r.source) + ",\"destination\":"@ + json_quote(r.destination) + ",\"filesystem\":"@ + json_quote(r.filesystem) + ",\"directories\":"@ + decimal(r.tally.directories as nat) + ",\"regular_files\":"@ + decimal(r.tally.regular_files as nat) + ",\"symlinks\":"@ + decimal(r.tally.symlinks as nat) + ",\"cloned_files\":"@ + decimal(r.tally.cloned_files as nat) + ",\"copied_files\":"@ + decimal(r.tally.copied_files as nat) + ",\"logical_bytes\":"@ + decimal(r.tally.logical_bytes as nat) + ",\"copied_bytes\":"@ + decimal(r.tally.copied_bytes as nat) + ",\"hardlinked_files\":"@ + decimal(r.tally.hardlinked_files as nat) + ",\"swept_stages\":"@, json_list(r.swept_stages), "source"@, json_quote(r.source));
    lemma_field_extends("{\"ok\":true,\"source\":"@ + json_quote(r.source) + ",\"destination\":"@ + json_quote(r.destination) + ",\"filesystem\":"@ + json_quote(r.filesystem) + ",\"directories\":"@ + decimal(r.tally.directories as nat) + ",\"regular_files\":"@ + decimal(r.tally.regular_files as nat) + ",\"symlinks\":"@ + decimal(r.tally.symlinks as nat) + ",\"cloned_files\":"@ + decimal(r.tally.cloned_files as nat) + ",\"copied_files\":"@ + decimal(r.tally.copied_files as nat) + ",\"logical_bytes\":"@ + decimal(r.tally.logical_bytes as nat) + ",\"copied_bytes\":"@ + decimal(r.tally.copied_bytes as nat) + ",\"hardlinked_files\":"@ + decimal(r.tally.hardlinked_files as nat) + ",\"swept_stages\":"@ + json_list(r.swept_stages), ",\"available_before\":"@, "source"@, json_quote(r.source));
    lemma_field_extends("{\"ok\":true,\"source\":"@ + json_quote(r.source) + ",\"destination\":"@ + json_quote(r.destination) + ",\"filesystem\":"@ + json_quote(r.filesystem) + ",\"directories\":"@ + decimal(r.tally.directories as nat) + ",\"regular_files\":"@ + decimal(r.tally.regular_files as nat) + ",\"symlinks\":"@ + decimal(r.tally.symlinks as nat) + ",\"cloned_files\":"@ + decimal(r.tally.cloned_files as nat) + ",\"copied_files\":"@ + decimal(r.tally.copied_files as nat) + ",\"logical_bytes\":"@ + decimal(r.tally.logical_bytes as nat) + ",\"copied_bytes\":"@ + decimal(r.tally.copied_bytes as nat) + ",\"hardlinked_files\":"@ + decimal(r.tally.hardlinked_files as nat) + ",\"swept_stages\":"@ + json_list(r.swept_stages) + ",\"available_before\":"@, decimal(r.available_before as nat), "source"@, json_quote(r.source));
    lemma_field_extends("{\"ok\":true,\"source\":"@ + json_quote(r.source) + ",\"destination\":"@ + json_quote(r.destination) + ",\"filesystem\":"@ + json_quote(r.filesystem) + ",\"directories\":"@ + decimal(r.tally.directories as nat) + ",\"regular_files\":"@ + decimal(r.tally.regular_files as nat) + ",\"symlinks\":"@ + decimal(r.tally.symlinks as nat) + ",\"cloned_files\":"@ + decimal(r.tally.cloned_files as nat) + ",\"copied_files\":"@ + decimal(r.tally.copied_files as nat) + ",\"logical_bytes\":"@ + decimal(r.tally.logical_bytes as nat) + ",\"copied_bytes\":"@ + decimal(r.tally.copied_bytes as nat) + ",\"hardlinked_files\":"@ + decimal(r.tally.hardlinked_files as nat) + ",\"swept_stages\":"@ + json_list(r.swept_stages) + ",\"available_before\":"@ + decimal(r.available_before as nat), ",\"available_after\":"@, "source"@, json_quote(r.source));
    lemma_field_extends("{\"ok\":true,\"source\":"@ + json_quote(r.source) + ",\"destination\":"@ + json_quote(r.destination) + ",\"filesystem\":"@ + json_quote(r.filesystem) + ",\"directories\":"@ + decimal(r.tally.directories as nat) + ",\"regular_files\":"@ + decimal(r.tally.regular_files as nat) + ",\"symlinks\":"@ + decimal(r.tally.symlinks as nat) + ",\"cloned_files\":"@ + decimal(r.tally.cloned_files as nat) + ",\"copied_files\":"@ + decimal(r.tally.copied_files as nat) + ",\"logical_bytes\":"@ + decimal(r.tally.logical_bytes as nat) + ",\"copied_bytes\":"@ + decimal(r.tally.copied_bytes as nat) + ",\"hardlinked_files\":"@ + decimal(r.tally.hardlinked_files as nat) + ",\"swept_stages\":"@ + json_list(r.swept_stages) + ",\"available_before\":"@ + decimal(r.available_before as nat) + ",\"available_after\":"@, decimal(r.available_after as nat), "source"@, json_quote(r.source));
    lemma_field_extends("{\"ok\":true,\"source\":"@ + json_quote(r.source) + ",\"destination\":"@ + json_quote(r.destination) + ",\"filesystem\":"@ + json_quote(r.filesystem) + ",\"directories\":"@ + decimal(r.tally.directories as nat) + ",\"regular_files\":"@ + decimal(r.tally.regular_files as nat) + ",\"symlinks\":"@ + decimal(r.tally.symlinks as nat) + ",\"cloned_files\":"@ + decimal(r.tally.cloned_files as nat) + ",\"copied_files\":"@ + decimal(r.tally.copied_files as nat) + ",\"logical_bytes\":"@ + decimal(r.tally.logical_bytes as nat) + ",\"copied_bytes\":"@ + decimal(r.tally.copied_bytes as nat) + ",\"hardlinked_files\":"@ + decimal(r.tally.hardlinked_files as nat) + ",\"swept_stages\":"@ + json_list(r.swept_stages) + ",\"available_before\":"@ + decimal(r.available_before as nat) + ",\"available_after\":"@ + decimal(r.available_after as nat), "}"@, "source"@, json_quote(r.source));
}

proof fn lemma_receipt_reads_back_destination(r: ReceiptModel)
    ensures
        holds_field(receipt_text(r), "destination"@, json_quote(r.destination)),
{
    reveal_strlit(",\"destination\":");
    reveal_strlit(",\"filesystem\":");
    reveal_strlit("destination");
    assert(",\"destination\":"@ =~= seq![','] + field_key("destination"@));
    assert("{\"ok\":true,\"source\":"@ + json_quote(r.source) + ",\"destination\":"@ + json_quote(r.destination) + ",\"filesystem\":"@ =~= ("{\"ok\":true,\"source\":"@ + json_quote(r.source) + seq![',']) + field_key("destination"@) + json_quote(r.destination) + ",\"filesystem\":"@);
    lemma_field_found("{\"ok\":true,\"source\":"@ + json_quote(r.source) + seq![','], "destination"@, json_quote(r.destination), ",\"filesystem\":"@);
    lemma_field_extends("{\"ok\":true,\"source\":"@ + json_quote(r.source) + ",\"destination\":"@ + json_quote(r.destination) + ",\"filesystem\":"@, json_quote(r.filesystem), "destination"@, json_quote(r.destination));
    lemma_field_extends("{\"ok\":true,\"source\":"@ + json_quote(r.source) + ",\"destination\":"@ + json_quote(r.destination) + ",\"filesystem\":"@ + json_quote(r.filesystem), ",\"directories\":"@, "destination"@, json_quote(r.destination));
    lemma_field_extends("{\"ok\":true,\"source\":"@ + json_quote(r.source) + ",\"destination\":"@ + json_quote(r.destination) + ",\"filesystem\":"@ + json_quote(r.filesystem) + ",\"directories\":"@, decimal(r.tally.directories as nat), "destination"@, json_quote(r.destination));
    lemma_field_extends("{\"ok\":true,\"source\":"@ + json_quote(r.source) + ",\"destination\":"@ + json_quote(r.destination) + ",\"filesystem\":"@ + json_quote(r.filesystem) + ",\"directories\":"@ + decimal(r.tally.directories as nat), ",\"regular_files\":"@, "destination"@, json_quote(r.destination));
    lemma_field_extends("{\"ok\":true,\"source\":"@ + json_quote(r.source) + ",\"destination\":"@ + json_quote(r.destination) + ",\"filesystem\":"@ + json_quote(r.filesystem) + ",\"directories\":"@ + decimal(r.tally.directories as nat) + ",\"regular_files\":"@, decimal(r.tally.regular_files as nat), "destination"@, json_quote(r.destination));
    lemma_field_extends("{\"ok\":true,\"source\":"@ + json_quote(r.source) + ",\"destination\":"@ + json_quote(r.destination) + ",\"filesystem\":"@ + json_quote(r.filesystem) + ",\"directories\":"@ + decimal(r.tally.directories as nat) + ",\"regular_files\":"@ + decimal(r.tally.regular_files as nat), ",\"symlinks\":"@, "destination"@, json_quote(r.destination));
    lemma_field_extends("{\"ok\":true,\"source\":"@ + json_quote(r.source) + ",\"destination\":"@ + json_quote(r.destination) + ",\"filesystem\":"@ + json_quote(r.filesystem) + ",\"directories\":"@ + decimal(r.tally.directories as nat) + ",\"regular_files\":"@ + decimal(r.tally.regular_files as nat) + ",\"symlinks\":"@, decimal(r.tally.symlinks as nat), "destination"@, json_quote(r.destination));
    lemma_field_extends("{\"ok\":true,\"source\":"@ + json_quote(r.source) + ",\"destination\":"@ + json_quote(r.destination) + ",\"filesystem\":"@ + json_quote(r.filesystem) + ",\"directories\":"@ + decimal(r.tally.directories as nat) + ",\"regular_files\":"@ + decimal(r.tally.regular_files as nat) + ",\"symlinks\":"@ + decimal(r.tally.symlinks as nat), ",\"cloned_files\":"@, "destination"@, json_quote(r.destination));
    lemma_field_extends("{\"ok\":true,\"source\":"@ + json_quote(r.source) + ",\"destination\":"@ + json_quote(r.destination) + ",\"filesystem\":"@ + json_quote(r.filesystem) + ",\"directories\":"@ + decimal(r.tally.directories as nat) + ",\"regular_files\":"@ + decimal(r.tally.regular_files as nat) + ",\"symlinks\":"@ + decimal(r.tally.symlinks as nat) + ",\"cloned_files\":"@, decimal(r.tally.cloned_files as nat), "destination"@, json_quote(r.destination));
    lemma_field_extends("{\"ok\":true,\"source\":"@ + json_quote(r.source) + ",\"destination\":"@ + json_quote(r.destination) + ",\"filesystem\":"@ + json_quote(r.filesystem) + ",\"directories\":"@ + decimal(r.tally.directories as nat) + ",\"regular_files\":"@ + decimal(r.tally.regular_files as nat) + ",\"symlinks\":"@ + decimal(r.tally.symlinks as nat) + ",\"cloned_files\":"@ + decimal(r.tally.cloned_files as nat), ",\"copied_files\":"@, "destination"@, json_quote(r.destination));
    lemma_field_extends("{\"ok\":true,\"source\":"@ + json_quote(r.source) + ",\"destination\":"@ + json_quote(r.destination) + ",\"filesystem\":"@ + json_quote(r.filesystem) + ",\"directories\":"@ + decimal(r.tally.directories as nat) + ",\"regular_files\":"@ + decimal(r.tally.regular_files as nat) + ",\"symlinks\":"@ + decimal(r.tally.symlinks as nat) + ",\"cloned_files\":"@ + decimal(r.tally.cloned_files as nat) + ",\"copied_files\":"@, decimal(r.tally.copied_files as nat), "destination"@, json_quote(r.destination));
    lemma_field_extends("{\"ok\":true,\"source\":"@ + json_quote(r.source) + ",\"destination\":"@ + json_quote(r.destination) + ",\"filesystem\":"@ + json_quote(r.filesystem) + ",\"directories\":"@ + decimal(r.tally.directories as nat) + ",\"regular_files\":"@ + decimal(r.tally.regular_files as nat) + ",\"symlinks\":"@ + decimal(r.tally.symlinks as nat) + ",\"cloned_files\":"@ + decimal(r.tally.cloned_files as nat) + ",\"copied_files\":"@ + decimal(r.tally.copied_files as nat), ",\"logical_bytes\":"@, "destination"@, json_quote(r.destination));
    lemma_field_extends("{\"ok\":true,\"source\":"@ + json_quote(r.source) + ",\"destination\":"@ + json_quote(r.destination) + ",\"filesystem\":"@ + json_quote(r.filesystem) + ",\"directories\":"@ + decimal(r.tally.directories as nat) + ",\"regular_files\":"@ + decimal(r.tally.regular_files as nat) + ",\"symlinks\":"@ + decimal(r.tally.symlinks as nat) + ",\"cloned_files\":"@ + decimal(r.tally.cloned_files as nat) + ",\"copied_files\":"@ + decimal(r.tally.copied_files as nat) + ",\"logical_bytes\":"@, decimal(r.tally.logical_bytes as nat), "destination"@, json_quote(r.destination));
    lemma_field_extends("{\"ok\":true,\"source\":"@ + json_quote(r.source) + ",\"destination\":"@ + json_quote(r.destination) + ",\"filesystem\":"@ + json_quote(r.filesystem) + ",\"directories\":"@ + decimal(r.tally.directories as nat) + ",\"regular_files\":"@ + decimal(r.tally.regular_files as nat) + ",\"symlinks\":"@ + decimal(r.tally.symlinks as nat) + ",\"cloned_files\":"@ + decimal(r.tally.cloned_files as nat) + ",\"copied_files\":"@ + decimal(r.tally.copied_files as nat) + ",\"logical_bytes\":"@ + decimal(r.tally.logical_bytes as nat), ",\"copied_bytes\":"@, "destination"@, json_quote(r.destination));
    lemma_field_extends("{\"ok\":true,\"source\":"@ + json_quote(r.source) + ",\"destination\":"@ + json_quote(r.destination) + ",\"filesystem\":"@ + json_quote(r.filesystem) + ",\"directories\":"@ + decimal(r.tally.directories as nat) + ",\"regular_files\":"@ + decimal(r.tally.regular_files as nat) + ",\"symlinks\":"@ + decimal(r.tally.symlinks as nat) + ",\"cloned_files\":"@ + decimal(r.tally.cloned_files as nat) + ",\"copied_files\":"@ + decimal(r.tally.copied_files as nat) + ",\"logical_bytes\":"@ + decimal(r.tally.logical_bytes as nat) + ",\"copied_bytes\":"@, decimal(r.tally.copied_bytes as nat), "destination"@, json_quote(r.destination));
    lemma_field_extends("{\"ok\":true,\"source\":"@ + json_quote(r.source) + ",\"destination\":"@ + json_quote(r.destination) + ",\"filesystem\":"@ + json_quote(r.filesystem) + ",\"directories\":"@ + decimal(r.tally.directories as nat) + ",\"regular_files\":"@ + decimal(r.tally.regular_files as nat) + ",\"symlinks\":"@ + decimal(r.tally.symlinks as nat) + ",\"cloned_files\":"@ + decimal(r.tally.cloned_files as nat) + ",\"copied_files\":"@ + decimal(r.tally.copied_files as nat) + ",\"logical_bytes\":"@ + decimal(r.tally.logical_bytes as nat) + ",\"copied_bytes\":"@ + decimal(r.tally.copied_bytes as nat), ",\"hardlinked_files\":"@, "destination"@, json_quote(r.destination));
    lemma_field_extends("{\"ok\":true,\"source\":"@ + json_quote(r.source) + ",\"destination\":"@ + json_quote(r.destination) + ",\"filesystem\":"@ + json_quote(r.filesystem) + ",\"directories\":"@ + decimal(r.tally.directories as nat) + ",\"regular_files\":"@ + decimal(r.tally.regular_files as nat) + ",\"symlinks\":"@ + decimal(r.tally.symlinks as nat) + ",\"cloned_files\":"@ + decimal(r.tally.cloned_files as nat) + ",\"copied_files\":"@ + decimal(r.tally.copied_files as nat) + ",\"logical_bytes\":"@ + decimal(r.tally.logical_bytes as nat) + ",\"copied_bytes\":"@ + decimal(r.tally.copied_bytes as nat) + ",\"hardlinked_files\":"@, decimal(r.tally.hardlinked_files as nat), "destination"@, json_quote(r.destination));
    lemma_field_extends("{\"ok\":true,\"source\":"@ + json_quote(r.source) + ",\"destination\":"@ + json_quote(r.destination) + ",\"filesystem\":"@ + json_quote(r.filesystem) + ",\"directories\":"@ + decimal(r.tally.directories as nat) + ",\"regular_files\":"@ + decimal(r.tally.regular_files as nat) + ",\"symlinks\":"@ + decimal(r.tally.symlinks as nat) + ",\"cloned_files\":"@ + decimal(r.tally.cloned_files as nat) + ",\"copied_files\":"@ + decimal(r.tally.copied_files as nat) + ",\"logical_bytes\":"@ + decimal(r.tally.logical_bytes as nat) + ",\"copied_bytes\":"@ + decimal(r.tally.copied_bytes as nat) + ",\"hardlinked_files\":"@ + decimal(r.tally.hardlinked_files as nat), ",\"swept_stages\":"@, "destination"@, json_quote(r.destination));
    lemma_field_extends("{\"ok\":true,\"source\":"@ + json_quote(r.source) + ",\"destination\":"@ + json_quote(r.destination) + ",\"filesystem\":"@ + json_quote(r.filesystem) + ",\"directories\":"@ + decimal(r.tally.directories as nat) + ",\"regular_files\":"@ + decimal(r.tally.regular_files as nat) + ",\"symlinks\":"@ + decimal(r.tally.symlinks as nat) + ",\"cloned_files\":"@ + decimal(r.tally.cloned_files as nat) + ",\"copied_files\":"@ + decimal(r.tally.copied_files as nat) + ",\"logical_bytes\":"@ + decimal(r.tally.logical_bytes as nat) + ",\"copied_bytes\":"@ + decimal(r.tally.copied_bytes as nat) + ",\"hardlinked_files\":"@ + decimal(r.tally.hardlinked_files as nat) + ",\"swept_stages\":"@, json_list(r.swept_stages), "destination"@, json_quote(r.destination));
    lemma_field_extends("{\"ok\":true,\"source\":"@ + json_quote(r.source) + ",\"destination\":"@ + json_quote(r.destination) + ",\"filesystem\":"@ + json_quote(r.filesystem) + ",\"directories\":"@ + decimal(r.tally.directories as nat) + ",\"regular_files\":"@ + decimal(r.tally.regular_files as nat) + ",\"symlinks\":"@ + decimal(r.tally.symlinks as nat) + ",\"cloned_files\":"@ + decimal(r.tally.cloned_files as nat) + ",\"copied_files\":"@ + decimal(r.tally.copied_files as nat) + ",\"logical_bytes\":"@ + decimal(r.tally.logical_bytes as nat) + ",\"copied_bytes\":"@ + decimal(r.tally.copied_bytes as nat) + ",\"hardlinked_files\":"@ + decimal(r.tally.hardlinked_files as nat) + ",\"swept_stages\":"@ + json_list(r.swept_stages), ",\"available_before\":"@, "destination"@, json_quote(r.destination));
    lemma_field_extends("{\"ok\":true,\"source\":"@ + json_quote(r.source) + ",\"destination\":"@ + json_quote(r.destination) + ",\"filesystem\":"@ + json_quote(r.filesystem) + ",\"directories\":"@ + decimal(r.tally.directories as nat) + ",\"regular_files\":"@ + decimal(r.tally.regular_files as nat) + ",\"symlinks\":"@ + decimal(r.tally.symlinks as nat) + ",\"cloned_files\":"@ + decimal(r.tally.cloned_files as nat) + ",\"copied_files\":"@ + decimal(r.tally.copied_files as nat) + ",\"logical_bytes\":"@ + decimal(r.tally.logical_bytes as nat) + ",\"copied_bytes\":"@ + decimal(r.tally.copied_bytes as nat) + ",\"hardlinked_files\":"@ + decimal(r.tally.hardlinked_files as nat) + ",\"swept_stages\":"@ + json_list(r.swept_stages) + ",\"available_before\":"@, decimal(r.available_before as nat), "destination"@, json_quote(r.destination));
    lemma_field_extends("{\"ok\":true,\"source\":"@ + json_quote(r.source) + ",\"destination\":"@ + json_quote(r.destination) + ",\"filesystem\":"@ + json_quote(r.filesystem) + ",\"directories\":"@ + decimal(r.tally.directories as nat) + ",\"regular_files\":"@ + decimal(r.tally.regular_files as nat) + ",\"symlinks\":"@ + decimal(r.tally.symlinks as nat) + ",\"cloned_files\":"@ + decimal(r.tally.cloned_files as nat) + ",\"copied_files\":"@ + decimal(r.tally.copied_files as nat) + ",\"logical_bytes\":"@ + decimal(r.tally.logical_bytes as nat) + ",\"copied_bytes\":"@ + decimal(r.tally.copied_bytes as nat) + ",\"hardlinked_files\":"@ + decimal(r.tally.hardlinked_files as nat) + ",\"swept_stages\":"@ + json_list(r.swept_stages) + ",\"available_before\":"@ + decimal(r.available_before as nat), ",\"available_after\":"@, "destination"@, json_quote(r.destination));
    lemma_field_extends("{\"ok\":true,\"source\":"@ + json_quote(r.source) + ",\"destination\":"@ + json_quote(r.destination) + ",\"filesystem\":"@ + json_quote(r.filesystem) + ",\"directories\":"@ + decimal(r.tally.directories as nat) + ",\"regular_files\":"@ + decimal(r.tally.regular_files as nat) + ",\"symlinks\":"@ + decimal(r.tally.symlinks as nat) + ",\"cloned_files\":"@ + decimal(r.tally.cloned_files as nat) + ",\"copied_files\":"@ + decimal(r.tally.copied_files as nat) + ",\"logical_bytes\":"@ + decimal(r.tally.logical_bytes as nat) + ",\"copied_bytes\":"@ + decimal(r.tally.copied_bytes as nat) + ",\"hardlinked_files\":"@ + decimal(r.tally.hardlinked_files as nat) + ",\"swept_stages\":"@ + json_list(r.swept_stages) + ",\"available_before\":"@ + decimal(r.available_before as nat) + ",\"available_after\":"@, decimal(r.available_after as nat), "destination"@, json_quote(r.destination));
    lemma_field_extends("{\"ok\":true,\"source\":"@ + json_quote(r.source) + ",\"destination\":"@ + json_quote(r.destination) + ",\"filesystem\":"@ + json_quote(r.filesystem) + ",\"directories\":"@ + decimal(r.tally.directories as nat) + ",\"regular_files\":"@ + decimal(r.tally.regular_files as nat) + ",\"symlinks\":"@ + decimal(r.tally.symlinks as nat) + ",\"cloned_files\":"@ + decimal(r.tally.cloned_files as nat) + ",\"copied_files\":"@ + decimal(r.tally.copied_files as nat) + ",\"logical_bytes\":"@ + decimal(r.tally.logical_bytes as nat) + ",\"copied_bytes\":"@ + decimal(r.tally.copied_bytes as nat) + ",\"hardlinked_files\":"@ + decimal(r.tally.hardlinked_files as nat) + ",\"swept_stages\":"@ + json_list(r.swept_stages) + ",\"available_before\":"@ + decimal(r.available_before as nat) + ",\"available_after\":"@ + decimal(r.available_after as nat), "}"@, "destination"@, json_quote(r.destination));
}

proof fn lemma_receipt_reads_back_filesystem(r: ReceiptModel)
    ensures
        holds_field(receipt_text(r), "filesystem"@, json_quote(r.filesystem)),
{
    reveal_strlit(",\"directories\":");
    reveal_strlit(",\"filesystem\":");
    reveal_strlit("filesystem");
    assert(",\"filesystem\":"@ =~= seq![','] + field_key("filesystem"@));
    assert("{\"ok\":true,\"source\":"@ + json_quote(r.source) + ",\"destination\":"@ + json_quote(r.destination) + ",\"filesystem\":"@ + json_quote(r.filesystem) + ",\"directories\":"@ =~= ("{\"ok\":true,\"source\":"@ + json_quote(r.source) + ",\"destination\":"@ + json_quote(r.destination) + seq![',']) + field_key("filesystem"@) + json_quote(r.filesystem) + ",\"directories\":"@);
    lemma_field_found("{\"ok\":true,\"source\":"@ + json_quote(r.source) + ",\"destination\":"@ + json_quote(r.destination) + seq![','], "filesystem"@, json_quote(r.filesystem), ",\"directories\":"@);
    lemma_field_extends("{\"ok\":true,\"source\":"@ + json_quote(r.source) + ",\"destination\":"@ + json_quote(r.destination) + ",\"filesystem\":"@ + json_quote(r.filesystem) + ",\"directories\":"@, decimal(r.tally.directories as nat), "filesystem"@, json_quote(r.filesystem));
    lemma_field_extends("{\"ok\":true,\"source\":"@ + json_quote(r.source) + ",\"destination\":"@ + json_quote(r.destination) + ",\"filesystem\":"@ + json_quote(r.filesystem) + ",\"directories\":"@ + decimal(r.tally.directories as nat), ",\"regular_files\":"@, "filesystem"@, json_quote(r.filesystem));
    lemma_field_extends("{\"ok\":true,\"source\":"@ + json_quote(r.source) + ",\"destination\":"@ + json_quote(r.destination) + ",\"filesystem\":"@ + json_quote(r.filesystem) + ",\"directories\":"@ + decimal(r.tally.directories as nat) + ",\"regular_files\":"@, decimal(r.tally.regular_files as nat), "filesystem"@, json_quote(r.filesystem));
    lemma_field_extends("{\"ok\":true,\"source\":"@ + json_quote(r.source) + ",\"destination\":"@ + json_quote(r.destination) + ",\"filesystem\":"@ + json_quote(r.filesystem) + ",\"directories\":"@ + decimal(r.tally.directories as nat) + ",\"regular_files\":"@ + decimal(r.tally.regular_files as nat), ",\"symlinks\":"@, "filesystem"@, json_quote(r.filesystem));
    lemma_field_extends("{\"ok\":true,\"source\":"@ + json_quote(r.source) + ",\"destination\":"@ + json_quote(r.destination) + ",\"filesystem\":"@ + json_quote(r.filesystem) + ",\"directories\":"@ + decimal(r.tally.directories as nat) + ",\"regular_files\":"@ + decimal(r.tally.regular_files as nat) + ",\"symlinks\":"@, decimal(r.tally.symlinks as nat), "filesystem"@, json_quote(r.filesystem));
    lemma_field_extends("{\"ok\":true,\"source\":"@ + json_quote(r.source) + ",\"destination\":"@ + json_quote(r.destination) + ",\"filesystem\":"@ + json_quote(r.filesystem) + ",\"directories\":"@ + decimal(r.tally.directories as nat) + ",\"regular_files\":"@ + decimal(r.tally.regular_files as nat) + ",\"symlinks\":"@ + decimal(r.tally.symlinks as nat), ",\"cloned_files\":"@, "filesystem"@, json_quote(r.filesystem));
    lemma_field_extends("{\"ok\":true,\"source\":"@ + json_quote(r.source) + ",\"destination\":"@ + json_quote(r.destination) + ",\"filesystem\":"@ + json_quote(r.filesystem) + ",\"directories\":"@ + decimal(r.tally.directories as nat) + ",\"regular_files\":"@ + decimal(r.tally.regular_files as nat) + ",\"symlinks\":"@ + decimal(r.tally.symlinks as nat) + ",\"cloned_files\":"@, decimal(r.tally.cloned_files as nat), "filesystem"@, json_quote(r.filesystem));
    lemma_field_extends("{\"ok\":true,\"source\":"@ + json_quote(r.source) + ",\"destination\":"@ + json_quote(r.destination) + ",\"filesystem\":"@ + json_quote(r.filesystem) + ",\"directories\":"@ + decimal(r.tally.directories as nat) + ",\"regular_files\":"@ + decimal(r.tally.regular_files as nat) + ",\"symlinks\":"@ + decimal(r.tally.symlinks as nat) + ",\"cloned_files\":"@ + decimal(r.tally.cloned_files as nat), ",\"copied_files\":"@, "filesystem"@, json_quote(r.filesystem));
    lemma_field_extends("{\"ok\":true,\"source\":"@ + json_quote(r.source) + ",\"destination\":"@ + json_quote(r.destination) + ",\"filesystem\":"@ + json_quote(r.filesystem) + ",\"directories\":"@ + decimal(r.tally.directories as nat) + ",\"regular_files\":"@ + decimal(r.tally.regular_files as nat) + ",\"symlinks\":"@ + decimal(r.tally.symlinks as nat) + ",\"cloned_files\":"@ + decimal(r.tally.cloned_files as nat) + ",\"copied_files\":"@, decimal(r.tally.copied_files as nat), "filesystem"@, json_quote(r.filesystem));
    lemma_field_extends("{\"ok\":true,\"source\":"@ + json_quote(r.source) + ",\"destination\":"@ + json_quote(r.destination) + ",\"filesystem\":"@ + json_quote(r.filesystem) + ",\"directories\":"@ + decimal(r.tally.directories as nat) + ",\"regular_files\":"@ + decimal(r.tally.regular_files as nat) + ",\"symlinks\":"@ + decimal(r.tally.symlinks as nat) + ",\"cloned_files\":"@ + decimal(r.tally.cloned_files as nat) + ",\"copied_files\":"@ + decimal(r.tally.copied_files as nat), ",\"logical_bytes\":"@, "filesystem"@, json_quote(r.filesystem));
    lemma_field_extends("{\"ok\":true,\"source\":"@ + json_quote(r.source) + ",\"destination\":"@ + json_quote(r.destination) + ",\"filesystem\":"@ + json_quote(r.filesystem) + ",\"directories\":"@ + decimal(r.tally.directories as nat) + ",\"regular_files\":"@ + decimal(r.tally.regular_files as nat) + ",\"symlinks\":"@ + decimal(r.tally.symlinks as nat) + ",\"cloned_files\":"@ + decimal(r.tally.cloned_files as nat) + ",\"copied_files\":"@ + decimal(r.tally.copied_files as nat) + ",\"logical_bytes\":"@, decimal(r.tally.logical_bytes as nat), "filesystem"@, json_quote(r.filesystem));
    lemma_field_extends("{\"ok\":true,\"source\":"@ + json_quote(r.source) + ",\"destination\":"@ + json_quote(r.destination) + ",\"filesystem\":"@ + json_quote(r.filesystem) + ",\"directories\":"@ + decimal(r.tally.directories as nat) + ",\"regular_files\":"@ + decimal(r.tally.regular_files as nat) + ",\"symlinks\":"@ + decimal(r.tally.symlinks as nat) + ",\"cloned_files\":"@ + decimal(r.tally.cloned_files as nat) + ",\"copied_files\":"@ + decimal(r.tally.copied_files as nat) + ",\"logical_bytes\":"@ + decimal(r.tally.logical_bytes as nat), ",\"copied_bytes\":"@, "filesystem"@, json_quote(r.filesystem));
    lemma_field_extends("{\"ok\":true,\"source\":"@ + json_quote(r.source) + ",\"destination\":"@ + json_quote(r.destination) + ",\"filesystem\":"@ + json_quote(r.filesystem) + ",\"directories\":"@ + decimal(r.tally.directories as nat) + ",\"regular_files\":"@ + decimal(r.tally.regular_files as nat) + ",\"symlinks\":"@ + decimal(r.tally.symlinks as nat) + ",\"cloned_files\":"@ + decimal(r.tally.cloned_files as nat) + ",\"copied_files\":"@ + decimal(r.tally.copied_files as nat) + ",\"logical_bytes\":"@ + decimal(r.tally.logical_bytes as nat) + ",\"copied_bytes\":"@, decimal(r.tally.copied_bytes as nat), "filesystem"@, json_quote(r.filesystem));
    lemma_field_extends("{\"ok\":true,\"source\":"@ + json_quote(r.source) + ",\"destination\":"@ + json_quote(r.destination) + ",\"filesystem\":"@ + json_quote(r.filesystem) + ",\"directories\":"@ + decimal(r.tally.directories as nat) + ",\"regular_files\":"@ + decimal(r.tally.regular_files as nat) + ",\"symlinks\":"@ + decimal(r.tally.symlinks as nat) + ",\"cloned_files\":"@ + decimal(r.tally.cloned_files as nat) + ",\"copied_files\":"@ + decimal(r.tally.copied_files as nat) + ",\"logical_bytes\":"@ + decimal(r.tally.logical_bytes as nat) + ",\"copied_bytes\":"@ + decimal(r.tally.copied_bytes as nat), ",\"hardlinked_files\":"@, "filesystem"@, json_quote(r.filesystem));
    lemma_field_extends("{\"ok\":true,\"source\":"@ + json_quote(r.source) + ",\"destination\":"@ + json_quote(r.destination) + ",\"filesystem\":"@ + json_quote(r.filesystem) + ",\"directories\":"@ + decimal(r.tally.directories as nat) + ",\"regular_files\":"@ + decimal(r.tally.regular_files as nat) + ",\"symlinks\":"@ + decimal(r.tally.symlinks as nat) + ",\"cloned_files\":"@ + decimal(r.tally.cloned_files as nat) + ",\"copied_files\":"@ + decimal(r.tally.copied_files as nat) + ",\"logical_bytes\":"@ + decimal(r.tally.logical_bytes as nat) + ",\"copied_bytes\":"@ + decimal(r.tally.copied_bytes as nat) + ",\"hardlinked_files\":"@, decimal(r.tally.hardlinked_files as nat), "filesystem"@, json_quote(r.filesystem));
    lemma_field_extends("{\"ok\":true,\"source\":"@ + json_quote(r.source) + ",\"destination\":"@ + json_quote(r.destination) + ",\"filesystem\":"@ + json_quote(r.filesystem) + ",\"directories\":"@ + decimal(r.tally.directories as nat) + ",\"regular_files\":"@ + decimal(r.tally.regular_files as nat) + ",\"symlinks\":"@ + decimal(r.tally.symlinks as nat) + ",\"cloned_files\":"@ + decimal(r.tally.cloned_files as nat) + ",\"copied_files\":"@ + decimal(r.tally.copied_files as nat) + ",\"logical_bytes\":"@ + decimal(r.tally.logical_bytes as nat) + ",\"copied_bytes\":"@ + decimal(r.tally.copied_bytes as nat) + ",\"hardlinked_files\":"@ + decimal(r.tally.hardlinked_files as nat), ",\"swept_stages\":"@, "filesystem"@, json_quote(r.filesystem));
    lemma_field_extends("{\"ok\":true,\"source\":"@ + json_quote(r.source) + ",\"destination\":"@ + json_quote(r.destination) + ",\"filesystem\":"@ + json_quote(r.filesystem) + ",\"directories\":"@ + decimal(r.tally.directories as nat) + ",\"regular_files\":"@ + decimal(r.tally.regular_files as nat) + ",\"symlinks\":"@ + decimal(r.tally.symlinks as nat) + ",\"cloned_files\":"@ + decimal(r.tally.cloned_files as nat) + ",\"copied_files\":"@ + decimal(r.tally.copied_files as nat) + ",\"logical_bytes\":"@ + decimal(r.tally.logical_bytes as nat) + ",\"copied_bytes\":"@ + decimal(r.tally.copied_bytes as nat) + ",\"hardlinked_files\":"@ + decimal(r.tally.hardlinked_files as nat) + ",\"swept_stages\":"@, json_list(r.swept_stages), "filesystem"@, json_quote(r.filesystem));
    lemma_field_extends("{\"ok\":true,\"source\":"@ + json_quote(r.source) + ",\"destination\":"@ + json_quote(r.destination) + ",\"filesystem\":"@ + json_quote(r.filesystem) + ",\"directories\":"@ + decimal(r.tally.directories as nat) + ",\"regular_files\":"@ + decimal(r.tally.regular_files as nat) + ",\"symlinks\":"@ + decimal(r.tally.symlinks as nat) + ",\"cloned_files\":"@ + decimal(r.tally.cloned_files as nat) + ",\"copied_files\":"@ + decimal(r.tally.copied_files as nat) + ",\"logical_bytes\":"@ + decimal(r.tally.logical_bytes as nat) + ",\"copied_bytes\":"@ + decimal(r.tally.copied_bytes as nat) + ",\"hardlinked_files\":"@ + decimal(r.tally.hardlinked_files as nat) + ",\"swept_stages\":"@ + json_list(r.swept_stages), ",\"available_before\":"@, "filesystem"@, json_quote(r.filesystem));
    lemma_field_extends("{\"ok\":true,\"source\":"@ + json_quote(r.source) + ",\"destination\":"@ + json_quote(r.destination) + ",\"filesystem\":"@ + json_quote(r.filesystem) + ",\"directories\":"@ + decimal(r.tally.directories as nat) + ",\"regular_files\":"@ + decimal(r.tally.regular_files as nat) + ",\"symlinks\":"@ + decimal(r.tally.symlinks as nat) + ",\"cloned_files\":"@ + decimal(r.tally.cloned_files as nat) + ",\"copied_files\":"@ + decimal(r.tally.copied_files as nat) + ",\"logical_bytes\":"@ + decimal(r.tally.logical_bytes as nat) + ",\"copied_bytes\":"@ + decimal(r.tally.copied_bytes as nat) + ",\"hardlinked_files\":"@ + decimal(r.tally.hardlinked_files as nat) + ",\"swept_stages\":"@ + json_list(r.swept_stages) + ",\"available_before\":"@, decimal(r.available_before as nat), "filesystem"@, json_quote(r.filesystem));
    lemma_field_extends("{\"ok\":true,\"source\":"@ + json_quote(r.source) + ",\"destination\":"@ + json_quote(r.destination) + ",\"filesystem\":"@ + json_quote(r.filesystem) + ",\"directories\":"@ + decimal(r.tally.directories as nat) + ",\"regular_files\":"@ + decimal(r.tally.regular_files as nat) + ",\"symlinks\":"@ + decimal(r.tally.symlinks as nat) + ",\"cloned_files\":"@ + decimal(r.tally.cloned_files as nat) + ",\"copied_files\":"@ + decimal(r.tally.copied_files as nat) + ",\"logical_bytes\":"@ + decimal(r.tally.logical_bytes as nat) + ",\"copied_bytes\":"@ + decimal(r.tally.copied_bytes as nat) + ",\"hardlinked_files\":"@ + decimal(r.tally.hardlinked_files as nat) + ",\"swept_stages\":"@ + json_list(r.swept_stages) + ",\"available_before\":"@ + decimal(r.available_before as nat), ",\"available_after\":"@, "filesystem"@, json_quote(r.filesystem));
    lemma_field_extends("{\"ok\":true,\"source\":"@ + json_quote(r.source) + ",\"destination\":"@ + json_quote(r.destination) + ",\"filesystem\":"@ + json_quote(r.filesystem) + ",\"directories\":"@ + decimal(r.tally.directories as nat) + ",\"regular_files\":"@ + decimal(r.tally.regular_files as nat) + ",\"symlinks\":"@ + decimal(r.tally.symlinks as nat) + ",\"cloned_files\":"@ + decimal(r.tally.cloned_files as nat) + ",\"copied_files\":"@ + decimal(r.tally.copied_files as nat) + ",\"logical_bytes\":"@ + decimal(r.tally.logical_bytes as nat) + ",\"copied_bytes\":"@ + decimal(r.tally.copied_bytes as nat) + ",\"hardlinked_files\":"@ + decimal(r.tally.hardlinked_files as nat) + ",\"swept_stages\":"@ + json_list(r.swept_stages) + ",\"available_before\":"@ + decimal(r.available_before as nat) + ",\"available_after\":"@, decimal(r.available_after as nat), "filesystem"@, json_quote(r.filesystem));
    lemma_field_extends("{\"ok\":true,\"source\":"@ + json_quote(r.source) + ",\"destination\":"@ + json_quote(r.destination) + ",\"filesystem\":"@ + json_quote(r.filesystem) + ",\"directories\":"@ + decimal(r.tally.directories as nat) + ",\"regular_files\":"@ + decimal(r.tally.regular_files as nat) + ",\"symlinks\":"@ + decimal(r.tally.symlinks as nat) + ",\"cloned_files\":"@ + decimal(r.tally.cloned_files as nat) + ",\"copied_files\":"@ + decimal(r.tally.copied_files as nat) + ",\"logical_bytes\":"@ + decimal(r.tally.logical_bytes as nat) + ",\"copied_bytes\":"@ + decimal(r.tally.copied_bytes as nat) + ",\"hardlinked_files\":"@ + decimal(r.tally.hardlinked_files as nat) + ",\"swept_stages\":"@ + json_list(r.swept_stages) + ",\"available_before\":"@ + decimal(r.available_before as nat) + ",\"available_after\":"@ + decimal(r.available_after as nat), "}"@, "filesystem"@, json_quote(r.filesystem));
}

proof fn lemma_receipt_reads_back_directories(r: ReceiptModel)
    ensures
        holds_field(receipt_text(r), "directories"@, decimal(r.tally.directories as nat)),
{
    reveal_strlit(",\"directories\":");
    reveal_strlit(",\"regular_files\":");
    reveal_strlit("directories");
    assert(",\"directories\":"@ =~= seq![','] + field_key("directories"@));
    assert("{\"ok\":true,\"source\":"@ + json_quote(r.source) + ",\"destination\":"@ + json_quote(r.destination) + ",\"filesystem\":"@ + json_quote(r.filesystem) + ",\"directories\":"@ + decimal(r.tally.directories as nat) + ",\"regular_files\":"@ =~= ("{\"ok\":true,\"source\":"@ + json_quote(r.source) + ",\"destination\":"@ + json_quote(r.destination) + ",\"filesystem\":"@ + json_quote(r.filesystem) + seq![',']) + field_key("directories"@) + decimal(r.tally.directories as nat) + ",\"regular_files\":"@);
    lemma_field_found("{\"ok\":true,\"source\":"@ + json_quote(r.source) + ",\"destination\":"@ + json_quote(r.destination) + ",\"filesystem\":"@ + json_quote(r.filesystem) + seq![','], "directories"@, decimal(r.tally.directories as nat), ",\"regular_files\":"@);
    lemma_field_extends("{\"ok\":true,\"source\":"@ + json_quote(r.source) + ",\"destination\":"@ + json_quote(r.destination) + ",\"filesystem\":"@ + json_quote(r.filesystem) + ",\"directories\":"@ + decimal(r.tally.directories as nat) + ",\"regular_files\":"@, decimal(r.tally.regular_files as nat), "directories"@, decimal(r.tally.directories as nat));
    lemma_field_extends("{\"ok\":true,\"source\":"@ + json_quote(r.source) + ",\"destination\":"@ + json_quote(r.destination) + ",\"filesystem\":"@ + json_quote(r.filesystem) + ",\"directories\":"@ + decimal(r.tally.directories as nat) + ",\"regular_files\":"@ + decimal(r.tally.regular_files as nat), ",\"symlinks\":"@, "directories"@, decimal(r.tally.directories as nat));
    lemma_field_extends("{\"ok\":true,\"source\":"@ + json_quote(r.source) + ",\"destination\":"@ + json_quote(r.destination) + ",\"filesystem\":"@ + json_quote(r.filesystem) + ",\"directories\":"@ + decimal(r.tally.directories as nat) + ",\"regular_files\":"@ + decimal(r.tally.regular_files as nat) + ",\"symlinks\":"@, decimal(r.tally.symlinks as nat), "directories"@, decimal(r.tally.directories as nat));
    lemma_field_extends("{\"ok\":true,\"source\":"@ + json_quote(r.source) + ",\"destination\":"@ + json_quote(r.destination) + ",\"filesystem\":"@ + json_quote(r.filesystem) + ",\"directories\":"@ + decimal(r.tally.directories as nat) + ",\"regular_files\":"@ + decimal(r.tally.regular_files as nat) + ",\"symlinks\":"@ + decimal(r.tally.symlinks as nat), ",\"cloned_files\":"@, "directories"@, decimal(r.tally.directories as nat));
    lemma_field_extends("{\"ok\":true,\"source\":"@ + json_quote(r.source) + ",\"destination\":"@ + json_quote(r.destination) + ",\"filesystem\":"@ + json_quote(r.filesystem) + ",\"directories\":"@ + decimal(r.tally.directories as nat) + ",\"regular_files\":"@ + decimal(r.tally.regular_files as nat) + ",\"symlinks\":"@ + decimal(r.tally.symlinks as nat) + ",\"cloned_files\":"@, decimal(r.tally.cloned_files as nat), "directories"@, decimal(r.tally.directories as nat));
    lemma_field_extends("{\"ok\":true,\"source\":"@ + json_quote(r.source) + ",\"destination\":"@ + json_quote(r.destination) + ",\"filesystem\":"@ + json_quote(r.filesystem) + ",\"directories\":"@ + decimal(r.tally.directories as nat) + ",\"regular_files\":"@ + decimal(r.tally.regular_files as nat) + ",\"symlinks\":"@ + decimal(r.tally.symlinks as nat) + ",\"cloned_files\":"@ + decimal(r.tally.cloned_files as nat), ",\"copied_files\":"@, "directories"@, decimal(r.tally.directories as nat));
    lemma_field_extends("{\"ok\":true,\"source\":"@ + json_quote(r.source) + ",\"destination\":"@ + json_quote(r.destination) + ",\"filesystem\":"@ + json_quote(r.filesystem) + ",\"directories\":"@ + decimal(r.tally.directories as nat) + ",\"regular_files\":"@ + decimal(r.tally.regular_files as nat) + ",\"symlinks\":"@ + decimal(r.tally.symlinks as nat) + ",\"cloned_files\":"@ + decimal(r.tally.cloned_files as nat) + ",\"copied_files\":"@, decimal(r.tally.copied_files as nat), "directories"@, decimal(r.tally.directories as nat));
    lemma_field_extends("{\"ok\":true,\"source\":"@ + json_quote(r.source) + ",\"destination\":"@ + json_quote(r.destination) + ",\"filesystem\":"@ + json_quote(r.filesystem) + ",\"directories\":"@ + decimal(r.tally.directories as nat) + ",\"regular_files\":"@ + decimal(r.tally.regular_files as nat) + ",\"symlinks\":"@ + decimal(r.tally.symlinks as nat) + ",\"cloned_files\":"@ + decimal(r.tally.cloned_files as nat) + ",\"copied_files\":"@ + decimal(r.tally.copied_files as nat), ",\"logical_bytes\":"@, "directories"@, decimal(r.tally.directories as nat));
    lemma_field_extends("{\"ok\":true,\"source\":"@ + json_quote(r.source) + ",\"destination\":"@ + json_quote(r.destination) + ",\"filesystem\":"@ + json_quote(r.filesystem) + ",\"directories\":"@ + decimal(r.tally.directories as nat) + ",\"regular_files\":"@ + decimal(r.tally.regular_files as nat) + ",\"symlinks\":"@ + decimal(r.tally.symlinks as nat) + ",\"cloned_files\":"@ + decimal(r.tally.cloned_files as nat) + ",\"copied_files\":"@ + decimal(r.tally.copied_files as nat) + ",\"logical_bytes\":"@, decimal(r.tally.logical_bytes as nat), "directories"@, decimal(r.tally.directories as nat));
    lemma_field_extends("{\"ok\":true,\"source\":"@ + json_quote(r.source) + ",\"destination\":"@ + json_quote(r.destination) + ",\"filesystem\":"@ + json_quote(r.filesystem) + ",\"directories\":"@ + decimal(r.tally.directories as nat) + ",\"regular_files\":"@ + decimal(r.tally.regular_files as nat) + ",\"symlinks\":"@ + decimal(r.tally.symlinks as nat) + ",\"cloned_files\":"@ + decimal(r.tally.cloned_files as nat) + ",\"copied_files\":"@ + decimal(r.tally.copied_files as nat) + ",\"logical_bytes\":"@ + decimal(r.tally.logical_bytes as nat), ",\"copied_bytes\":"@, "directories"@, decimal(r.tally.directories as nat));
    lemma_field_extends("{\"ok\":true,\"source\":"@ + json_quote(r.source) + ",\"destination\":"@ + json_quote(r.destination) + ",\"filesystem\":"@ + json_quote(r.filesystem) + ",\"directories\":"@ + decimal(r.tally.directories as nat) + ",\"regular_files\":"@ + decimal(r.tally.regular_files as nat) + ",\"symlinks\":"@ + decimal(r.tally.symlinks as nat) + ",\"cloned_files\":"@ + decimal(r.tally.cloned_files as nat) + ",\"copied_files\":"@ + decimal(r.tally.copied_files as nat) + ",\"logical_bytes\":"@ + decimal(r.tally.logical_bytes as nat) + ",\"copied_bytes\":"@, decimal(r.tally.copied_bytes as nat), "directories"@, decimal(r.tally.directories as nat));
    lemma_field_extends("{\"ok\":true,\"source\":"@ + json_quote(r.source) + ",\"destination\":"@ + json_quote(r.destination) + ",\"filesystem\":"@ + json_quote(r.filesystem) + ",\"directories\":"@ + decimal(r.tally.directories as nat) + ",\"regular_files\":"@ + decimal(r.tally.regular_files as nat) + ",\"symlinks\":"@ + decimal(r.tally.symlinks as nat) + ",\"cloned_files\":"@ + decimal(r.tally.cloned_files as nat) + ",\"copied_files\":"@ + decimal(r.tally.copied_files as nat) + ",\"logical_bytes\":"@ + decimal(r.tally.logical_bytes as nat) + ",\"copied_bytes\":"@ + decimal(r.tally.copied_bytes as nat), ",\"hardlinked_files\":"@, "directories"@, decimal(r.tally.directories as nat));
    lemma_field_extends("{\"ok\":true,\"source\":"@ + json_quote(r.source) + ",\"destination\":"@ + json_quote(r.destination) + ",\"filesystem\":"@ + json_quote(r.filesystem) + ",\"directories\":"@ + decimal(r.tally.directories as nat) + ",\"regular_files\":"@ + decimal(r.tally.regular_files as nat) + ",\"symlinks\":"@ + decimal(r.tally.symlinks as nat) + ",\"cloned_files\":"@ + decimal(r.tally.cloned_files as nat) + ",\"copied_files\":"@ + decimal(r.tally.copied_files as nat) + ",\"logical_bytes\":"@ + decimal(r.tally.logical_bytes as nat) + ",\"copied_bytes\":"@ + decimal(r.tally.copied_bytes as nat) + ",\"hardlinked_files\":"@, decimal(r.tally.hardlinked_files as nat), "directories"@, decimal(r.tally.directories as nat));
    lemma_field_extends("{\"ok\":true,\"source\":"@ + json_quote(r.source) + ",\"destination\":"@ + json_quote(r.destination) + ",\"filesystem\":"@ + json_quote(r.filesystem) + ",\"directories\":"@ + decimal(r.tally.directories as nat) + ",\"regular_files\":"@ + decimal(r.tally.regular_files as nat) + ",\"symlinks\":"@ + decimal(r.tally.symlinks as nat) + ",\"cloned_files\":"@ + decimal(r.tally.cloned_files as nat) + ",\"copied_files\":"@ + decimal(r.tally.copied_files as nat) + ",\"logical_bytes\":"@ + decimal(r.tally.logical_bytes as nat) + ",\"copied_bytes\":"@ + decimal(r.tally.copied_bytes as nat) + ",\"hardlinked_files\":"@ + decimal(r.tally.hardlinked_files as nat), ",\"swept_stages\":"@, "directories"@, decimal(r.tally.directories as nat));
    lemma_field_extends("{\"ok\":true,\"source\":"@ + json_quote(r.source) + ",\"destination\":"@ + json_quote(r.destination) + ",\"filesystem\":"@ + json_quote(r.filesystem) + ",\"directories\":"@ + decimal(r.tally.directories as nat) + ",\"regular_files\":"@ + decimal(r.tally.regular_files as nat) + ",\"symlinks\":"@ + decimal(r.tally.symlinks as nat) + ",\"cloned_files\":"@ + decimal(r.tally.cloned_files as nat) + ",\"copied_files\":"@ + decimal(r.tally.copied_files as nat) + ",\"logical_bytes\":"@ + decimal(r.tally.logical_bytes as nat) + ",\"copied_bytes\":"@ + decimal(r.tally.copied_bytes as nat) + ",\"hardlinked_files\":"@ + decimal(r.tally.hardlinked_files as nat) + ",\"swept_stages\":"@, json_list(r.swept_stages), "directories"@, decimal(r.tally.directories as nat));
    lemma_field_extends("{\"ok\":true,\"source\":"@ + json_quote(r.source) + ",\"destination\":"@ + json_quote(r.destination) + ",\"filesystem\":"@ + json_quote(r.filesystem) + ",\"directories\":"@ + decimal(r.tally.directories as nat) + ",\"regular_files\":"@ + decimal(r.tally.regular_files as nat) + ",\"symlinks\":"@ + decimal(r.tally.symlinks as nat) + ",\"cloned_files\":"@ + decimal(r.tally.cloned_files as nat) + ",\"copied_files\":"@ + decimal(r.tally.copied_files as nat) + ",\"logical_bytes\":"@ + decimal(r.tally.logical_bytes as nat) + ",\"copied_bytes\":"@ + decimal(r.tally.copied_bytes as nat) + ",\"hardlinked_files\":"@ + decimal(r.tally.hardlinked_files as nat) + ",\"swept_stages\":"@ + json_list(r.swept_stages), ",\"available_before\":"@, "directories"@, decimal(r.tally.directories as nat));
    lemma_field_extends("{\"ok\":true,\"source\":"@ + json_quote(r.source) + ",\"destination\":"@ + json_quote(r.destination) + ",\"filesystem\":"@ + json_quote(r.filesystem) + ",\"directories\":"@ + decimal(r.tally.directories as nat) + ",\"regular_files\":"@ + decimal(r.tally.regular_files as nat) + ",\"symlinks\":"@ + decimal(r.tally.symlinks as nat) + ",\"cloned_files\":"@ + decimal(r.tally.cloned_files as nat) + ",\"copied_files\":"@ + decimal(r.tally.copied_files as nat) + ",\"logical_bytes\":"@ + decimal(r.tally.logical_bytes as nat) + ",\"copied_bytes\":"@ + decimal(r.tally.copied_bytes as nat) + ",\"hardlinked_files\":"@ + decimal(r.tally.hardlinked_files as nat) + ",\"swept_stages\":"@ + json_list(r.swept_stages) + ",\"available_before\":"@, decimal(r.available_before as nat), "directories"@, decimal(r.tally.directories as nat));
    lemma_field_extends("{\"ok\":true,\"source\":"@ + json_quote(r.source) + ",\"destination\":"@ + json_quote(r.destination) + ",\"filesystem\":"@ + json_quote(r.filesystem) + ",\"directories\":"@ + decimal(r.tally.directories as nat) + ",\"regular_files\":"@ + decimal(r.tally.regular_files as nat) + ",\"symlinks\":"@ + decimal(r.tally.symlinks as nat) + ",\"cloned_files\":"@ + decimal(r.tally.cloned_files as nat) + ",\"copied_files\":"@ + decimal(r.tally.copied_files as nat) + ",\"logical_bytes\":"@ + decimal(r.tally.logical_bytes as nat) + ",\"copied_bytes\":"@ + decimal(r.tally.copied_bytes as nat) + ",\"hardlinked_files\":"@ + decimal(r.tally.hardlinked_files as nat) + ",\"swept_stages\":"@ + json_list(r.swept_stages) + ",\"available_before\":"@ + decimal(r.available_before as nat), ",\"available_after\":"@, "directories"@, decimal(r.tally.directories as nat));
    lemma_field_extends("{\"ok\":true,\"source\":"@ + json_quote(r.source) + ",\"destination\":"@ + json_quote(r.destination) + ",\"filesystem\":"@ + json_quote(r.filesystem) + ",\"directories\":"@ + decimal(r.tally.directories as nat) + ",\"regular_files\":"@ + decimal(r.tally.regular_files as nat) + ",\"symlinks\":"@ + decimal(r.tally.symlinks as nat) + ",\"cloned_files\":"@ + decimal(r.tally.cloned_files as nat) + ",\"copied_files\":"@ + decimal(r.tally.copied_files as nat) + ",\"logical_bytes\":"@ + decimal(r.tally.logical_bytes as nat) + ",\"copied_bytes\":"@ + decimal(r.tally.copied_bytes as nat) + ",\"hardlinked_files\":"@ + decimal(r.tally.hardlinked_files as nat) + ",\"swept_stages\":"@ + json_list(r.swept_stages) + ",\"available_before\":"@ + decimal(r.available_before as nat) + ",\"available_after\":"@, decimal(r.available_after as nat), "directories"@, decimal(r.tally.directories as nat));
    lemma_field_extends("{\"ok\":true,\"source\":"@ + json_quote(r.source) + ",\"destination\":"@ + json_quote(r.destination) + ",\"filesystem\":"@ + json_quote(r.filesystem) + ",\"directories\":"@ + decimal(r.tally.directories as nat) + ",\"regular_files\":"@ + decimal(r.tally.regular_files as nat) + ",\"symlinks\":"@ + decimal(r.tally.symlinks as nat) + ",\"cloned_files\":"@ + decimal(r.tally.cloned_files as nat) + ",\"copied_files\":"@ + decimal(r.tally.copied_files as nat) + ",\"logical_bytes\":"@ + decimal(r.tally.logical_bytes as nat) + ",\"copied_bytes\":"@ + decimal(r.tally.copied_bytes as nat) + ",\"hardlinked_files\":"@ + decimal(r.tally.hardlinked_files as nat) + ",\"swept_stages\":"@ + json_list(r.swept_stages) + ",\"available_before\":"@ + decimal(r.available_before as nat) + ",\"available_after\":"@ + decimal(r.available_after as nat), "}"@, "directories"@, decimal(r.tally.directories as nat));
}

proof fn lemma_receipt_reads_back_regular_files(r: ReceiptModel)
    ensures
        holds_field(receipt_text(r), "regular_files"@, decimal(r.tally.regular_files as nat)),
{
    reveal_strlit(",\"regular_files\":");
    reveal_strlit(",\"symlinks\":");
    reveal_strlit("regular_files");
    assert(",\"regular_files\":"@ =~= seq![','] + field_key("regular_files"@));
    assert("{\"ok\":true,\"source\":"@ + json_quote(r.source) + ",\"destination\":"@ + json_quote(r.destination) + ",\"filesystem\":"@ + json_quote(r.filesystem) + ",\"directories\":"@ + decimal(r.tally.directories as nat) + ",\"regular_files\":"@ + decimal(r.tally.regular_files as nat) + ",\"symlinks\":"@ =~= ("{\"ok\":true,\"source\":"@ + json_quote(r.source) + ",\"destination\":"@ + json_quote(r.destination) + ",\"filesystem\":"@ + json_quote(r.filesystem) + ",\"directories\":"@ + decimal(r.tally.directories as nat) + seq![',']) + field_key("regular_files"@) + decimal(r.tally.regular_files as nat) + ",\"symlinks\":"@);
    lemma_field_found("{\"ok\":true,\"source\":"@ + json_quote(r.source) + ",\"destination\":"@ + json_quote(r.destination) + ",\"filesystem\":"@ + json_quote(r.filesystem) + ",\"directories\":"@ + decimal(r.tally.directories as nat) + seq![','], "regular_files"@, decimal(r.tally.regular_files as nat), ",\"symlinks\":"@);
    lemma_field_extends("{\"ok\":true,\"source\":"@ + json_quote(r.source) + ",\"destination\":"@ + json_quote(r.destination) + ",\"filesystem\":"@ + json_quote(r.filesystem) + ",\"directories\":"@ + decimal(r.tally.directories as nat) + ",\"regular_files\":"@ + decimal(r.tally.regular_files as nat) + ",\"symlinks\":"@, decimal(r.tally.symlinks as nat), "regular_files"@, decimal(r.tally.regular_files as nat));
    lemma_field_extends("{\"ok\":true,\"source\":"@ + json_quote(r.source) + ",\"destination\":"@ + json_quote(r.destination) + ",\"filesystem\":"@ + json_quote(r.filesystem) + ",\"directories\":"@ + decimal(r.tally.directories as nat) + ",\"regular_files\":"@ + decimal(r.tally.regular_files as nat) + ",\"symlinks\":"@ + decimal(r.tally.symlinks as nat), ",\"cloned_files\":"@, "regular_files"@, decimal(r.tally.regular_files as nat));
    lemma_field_extends("{\"ok\":true,\"source\":"@ + json_quote(r.source) + ",\"destination\":"@ + json_quote(r.destination) + ",\"filesystem\":"@ + json_quote(r.filesystem) + ",\"directories\":"@ + decimal(r.tally.directories as nat) + ",\"regular_files\":"@ + decimal(r.tally.regular_files as nat) + ",\"symlinks\":"@ + decimal(r.tally.symlinks as nat) + ",\"cloned_files\":"@, decimal(r.tally.cloned_files as nat), "regular_files"@, decimal(r.tally.regular_files as nat));
    lemma_field_extends("{\"ok\":true,\"source\":"@ + json_quote(r.source) + ",\"destination\":"@ + json_quote(r.destination) + ",\"filesystem\":"@ + json_quote(r.filesystem) + ",\"directories\":"@ + decimal(r.tally.directories as nat) + ",\"regular_files\":"@ + decimal(r.tally.regular_files as nat) + ",\"symlinks\":"@ + decimal(r.tally.symlinks as nat) + ",\"cloned_files\":"@ + decimal(r.tally.cloned_files as nat), ",\"copied_files\":"@, "regular_files"@, decimal(r.tally.regular_files as nat));
    lemma_field_extends("{\"ok\":true,\"source\":"@ + json_quote(r.source) + ",\"destination\":"@ + json_quote(r.destination) + ",\"filesystem\":"@ + json_quote(r.filesystem) + ",\"directories\":"@ + decimal(r.tally.directories as nat) + ",\"regular_files\":"@ + decimal(r.tally.regular_files as nat) + ",\"symlinks\":"@ + decimal(r.tally.symlinks as nat) + ",\"cloned_files\":"@ + decimal(r.tally.cloned_files as nat) + ",\"copied_files\":"@, decimal(r.tally.copied_files as nat), "regular_files"@, decimal(r.tally.regular_files as nat));
    lemma_field_extends("{\"ok\":true,\"source\":"@ + json_quote(r.source) + ",\"destination\":"@ + json_quote(r.destination) + ",\"filesystem\":"@ + json_quote(r.filesystem) + ",\"directories\":"@ + decimal(r.tally.directories as nat) + ",\"regular_files\":"@ + decimal(r.tally.regular_files as nat) + ",\"symlinks\":"@ + decimal(r.tally.symlinks as nat) + ",\"cloned_files\":"@ + decimal(r.tally.cloned_files as nat) + ",\"copied_files\":"@ + decimal(r.tally.copied_files as nat), ",\"logical_bytes\":"@, "regular_files"@, decimal(r.tally.regular_files as nat));
    lemma_field_extends("{\"ok\":true,\"source\":"@ + json_quote(r.source) + ",\"destination\":"@ + json_quote(r.destination) + ",\"filesystem\":"@ + json_quote(r.filesystem) + ",\"directories\":"@ + decimal(r.tally.directories as nat) + ",\"regular_files\":"@ + decimal(r.tally.regular_files as nat) + ",\"symlinks\":"@ + decimal(r.tally.symlinks as nat) + ",\"cloned_files\":"@ + decimal(r.tally.cloned_files as nat) + ",\"copied_files\":"@ + decimal(r.tally.copied_files as nat) + ",\"logical_bytes\":"@, decimal(r.tally.logical_bytes as nat), "regular_files"@, decimal(r.tally.regular_files as nat));
    lemma_field_extends("{\"ok\":true,\"source\":"@ + json_quote(r.source) + ",\"destination\":"@ + json_quote(r.destination) + ",\"filesystem\":"@ + json_quote(r.filesystem) + ",\"directories\":"@ + decimal(r.tally.directories as nat) + ",\"regular_files\":"@ + decimal(r.tally.regular_files as nat) + ",\"symlinks\":"@ + decimal(r.tally.symlinks as nat) + ",\"cloned_files\":"@ + decimal(r.tally.cloned_files as nat) + ",\"copied_files\":"@ + decimal(r.tally.copied_files as nat) + ",\"logical_bytes\":"@ + decimal(r.tally.logical_bytes as nat), ",\"copied_bytes\":"@, "regular_files"@, decimal(r.tally.regular_files as nat));
    lemma_field_extends("{\"ok\":true,\"source\":"@ + json_quote(r.source) + ",\"destination\":"@ + json_quote(r.destination) + ",\"filesystem\":"@ + json_quote(r.filesystem) + ",\"directories\":"@ + decimal(r.tally.directories as nat) + ",\"regular_files\":"@ + decimal(r.tally.regular_files as nat) + ",\"symlinks\":"@ + decimal(r.tally.symlinks as nat) + ",\"cloned_files\":"@ + decimal(r.tally.cloned_files as nat) + ",\"copied_files\":"@ + decimal(r.tally.copied_files as nat) + ",\"logical_bytes\":"@ + decimal(r.tally.logical_bytes as nat) + ",\"copied_bytes\":"@, decimal(r.tally.copied_bytes as nat), "regular_files"@, decimal(r.tally.regular_files as nat));
    lemma_field_extends("{\"ok\":true,\"source\":"@ + json_quote(r.source) + ",\"destination\":"@ + json_quote(r.destination) + ",\"filesystem\":"@ + json_quote(r.filesystem) + ",\"directories\":"@ + decimal(r.tally.directories as nat) + ",\"regular_files\":"@ + decimal(r.tally.regular_files as nat) + ",\"symlinks\":"@ + decimal(r.tally.symlinks as nat) + ",\"cloned_files\":"@ + decimal(r.tally.cloned_files as nat) + ",\"copied_files\":"@ + decimal(r.tally.copied_files as nat) + ",\"logical_bytes\":"@ + decimal(r.tally.logical_bytes as nat) + ",\"copied_bytes\":"@ + decimal(r.tally.copied_bytes as nat), ",\"hardlinked_files\":"@, "regular_files"@, decimal(r.tally.regular_files as nat));
    lemma_field_extends("{\"ok\":true,\"source\":"@ + json_quote(r.source) + ",\"destination\":"@ + json_quote(r.destination) + ",\"filesystem\":"@ + json_quote(r.filesystem) + ",\"directories\":"@ + decimal(r.tally.directories as nat) + ",\"regular_files\":"@ + decimal(r.tally.regular_files as nat) + ",\"symlinks\":"@ + decimal(r.tally.symlinks as nat) + ",\"cloned_files\":"@ + decimal(r.tally.cloned_files as nat) + ",\"copied_files\":"@ + decimal(r.tally.copied_files as nat) + ",\"logical_bytes\":"@ + decimal(r.tally.logical_bytes as nat) + ",\"copied_bytes\":"@ + decimal(r.tally.copied_bytes as nat) + ",\"hardlinked_files\":"@, decimal(r.tally.hardlinked_files as nat), "regular_files"@, decimal(r.tally.regular_files as nat));
    lemma_field_extends("{\"ok\":true,\"source\":"@ + json_quote(r.source) + ",\"destination\":"@ + json_quote(r.destination) + ",\"filesystem\":"@ + json_quote(r.filesystem) + ",\"directories\":"@ + decimal(r.tally.directories as nat) + ",\"regular_files\":"@ + decimal(r.tally.regular_files as nat) + ",\"symlinks\":"@ + decimal(r.tally.symlinks as nat) + ",\"cloned_files\":"@ + decimal(r.tally.cloned_files as nat) + ",\"copied_files\":"@ + decimal(r.tally.copied_files as nat) + ",\"logical_bytes\":"@ + decimal(r.tally.logical_bytes as nat) + ",\"copied_bytes\":"@ + decimal(r.tally.copied_bytes as nat) + ",\"hardlinked_files\":"@ + decimal(r.tally.hardlinked_files as nat), ",\"swept_stages\":"@, "regular_files"@, decimal(r.tally.regular_files as nat));
    lemma_field_extends("{\"ok\":true,\"source\":"@ + json_quote(r.source) + ",\"destination\":"@ + json_quote(r.destination) + ",\"filesystem\":"@ + json_quote(r.filesystem) + ",\"directories\":"@ + decimal(r.tally.directories as nat) + ",\"regular_files\":"@ + decimal(r.tally.regular_files as nat) + ",\"symlinks\":"@ + decimal(r.tally.symlinks as nat) + ",\"cloned_files\":"@ + decimal(r.tally.cloned_files as nat) + ",\"copied_files\":"@ + decimal(r.tally.copied_files as nat) + ",\"logical_bytes\":"@ + decimal(r.tally.logical_bytes as nat) + ",\"copied_bytes\":"@ + decimal(r.tally.copied_bytes as nat) + ",\"hardlinked_files\":"@ + decimal(r.tally.hardlinked_files as nat) + ",\"swept_stages\":"@, json_list(r.swept_stages), "regular_files"@, decimal(r.tally.regular_files as nat));
    lemma_field_extends("{\"ok\":true,\"source\":"@ + json_quote(r.source) + ",\"destination\":"@ + json_quote(r.destination) + ",\"filesystem\":"@ + json_quote(r.filesystem) + ",\"directories\":"@ + decimal(r.tally.directories as nat) + ",\"regular_files\":"@ + decimal(r.tally.regular_files as nat) + ",\"symlinks\":"@ + decimal(r.tally.symlinks as nat) + ",\"cloned_files\":"@ + decimal(r.tally.cloned_files as nat) + ",\"copied_files\":"@ + decimal(r.tally.copied_files as nat) + ",\"logical_bytes\":"@ + decimal(r.tally.logical_bytes as nat) + ",\"copied_bytes\":"@ + decimal(r.tally.copied_bytes as nat) + ",\"hardlinked_files\":"@ + decimal(r.tally.hardlinked_files as nat) + ",\"swept_stages\":"@ + json_list(r.swept_stages), ",\"available_before\":"@, "regular_files"@, decimal(r.tally.regular_files as nat));
    lemma_field_extends("{\"ok\":true,\"source\":"@ + json_quote(r.source) + ",\"destination\":"@ + json_quote(r.destination) + ",\"filesystem\":"@ + json_quote(r.filesystem) + ",\"directories\":"@ + decimal(r.tally.directories as nat) + ",\"regular_files\":"@ + decimal(r.tally.regular_files as nat) + ",\"symlinks\":"@ + decimal(r.tally.symlinks as nat) + ",\"cloned_files\":"@ + decimal(r.tally.cloned_files as nat) + ",\"copied_files\":"@ + decimal(r.tally.copied_files as nat) + ",\"logical_bytes\":"@ + decimal(r.tally.logical_bytes as nat) + ",\"copied_bytes\":"@ + decimal(r.tally.copied_bytes as nat) + ",\"hardlinked_files\":"@ + decimal(r.tally.hardlinked_files as nat) + ",\"swept_stages\":"@ + json_list(r.swept_stages) + ",\"available_before\":"@, decimal(r.available_before as nat), "regular_files"@, decimal(r.tally.regular_files as nat));
    lemma_field_extends("{\"ok\":true,\"source\":"@ + json_quote(r.source) + ",\"destination\":"@ + json_quote(r.destination) + ",\"filesystem\":"@ + json_quote(r.filesystem) + ",\"directories\":"@ + decimal(r.tally.directories as nat) + ",\"regular_files\":"@ + decimal(r.tally.regular_files as nat) + ",\"symlinks\":"@ + decimal(r.tally.symlinks as nat) + ",\"cloned_files\":"@ + decimal(r.tally.cloned_files as nat) + ",\"copied_files\":"@ + decimal(r.tally.copied_files as nat) + ",\"logical_bytes\":"@ + decimal(r.tally.logical_bytes as nat) + ",\"copied_bytes\":"@ + decimal(r.tally.copied_bytes as nat) + ",\"hardlinked_files\":"@ + decimal(r.tally.hardlinked_files as nat) + ",\"swept_stages\":"@ + json_list(r.swept_stages) + ",\"available_before\":"@ + decimal(r.available_before as nat), ",\"available_after\":"@, "regular_files"@, decimal(r.tally.regular_files as nat));
    lemma_field_extends("{\"ok\":true,\"source\":"@ + json_quote(r.source) + ",\"destination\":"@ + json_quote(r.destination) + ",\"filesystem\":"@ + json_quote(r.filesystem) + ",\"directories\":"@ + decimal(r.tally.directories as nat) + ",\"regular_files\":"@ + decimal(r.tally.regular_files as nat) + ",\"symlinks\":"@ + decimal(r.tally.symlinks as nat) + ",\"cloned_files\":"@ + decimal(r.tally.cloned_files as nat) + ",\"copied_files\":"@ + decimal(r.tally.copied_files as nat) + ",\"logical_bytes\":"@ + decimal(r.tally.logical_bytes as nat) + ",\"copied_bytes\":"@ + decimal(r.tally.copied_bytes as nat) + ",\"hardlinked_files\":"@ + decimal(r.tally.hardlinked_files as nat) + ",\"swept_stages\":"@ + json_list(r.swept_stages) + ",\"available_before\":"@ + decimal(r.available_before as nat) + ",\"available_after\":"@, decimal(r.available_after as nat), "regular_files"@, decimal(r.tally.regular_files as nat));
    lemma_field_extends("{\"ok\":true,\"source\":"@ + json_quote(r.source) + ",\"destination\":"@ + json_quote(r.destination) + ",\"filesystem\":"@ + json_quote(r.filesystem) + ",\"directories\":"@ + decimal(r.tally.directories as nat) + ",\"regular_files\":"@ + decimal(r.tally.regular_files as nat) + ",\"symlinks\":"@ + decimal(r.tally.symlinks as nat) + ",\"cloned_files\":"@ + decimal(r.tally.cloned_files as nat) + ",\"copied_files\":"@ + decimal(r.tally.copied_files as nat) + ",\"logical_bytes\":"@ + decimal(r.tally.logical_bytes as nat) + ",\"copied_bytes\":"@ + decimal(r.tally.copied_bytes as nat) + ",\"hardlinked_files\":"@ + decimal(r.tally.hardlinked_files as nat) + ",\"swept_stages\":"@ + json_list(r.swept_stages) + ",\"available_before\":"@ + decimal(r.available_before as nat) + ",\"available_after\":"@ + decimal(r.available_after as nat), "}"@, "regular_files"@, decimal(r.tally.regular_files as nat));
}

proof fn lemma_receipt_reads_back_symlinks(r: ReceiptModel)
    ensures
        holds_field(receipt_text(r), "symlinks"@, decimal(r.tally.symlinks as nat)),
{
    reveal_strlit(",\"cloned_files\":");
    reveal_strlit(",\"symlinks\":");
    reveal_strlit("symlinks");
    assert(",\"symlinks\":"@ =~= seq![','] + field_key("symlinks"@));
    assert("{\"ok\":true,\"source\":"@ + json_quote(r.source) + ",\"destination\":"@ + json_quote(r.destination) + ",\"filesystem\":"@ + json_quote(r.filesystem) + ",\"directories\":"@ + decimal(r.tally.directories as nat) + ",\"regular_files\":"@ + decimal(r.tally.regular_files as nat) + ",\"symlinks\":"@ + decimal(r.tally.symlinks as nat) + ",\"cloned_files\":"@ =~= ("{\"ok\":true,\"source\":"@ + json_quote(r.source) + ",\"destination\":"@ + json_quote(r.destination) + ",\"filesystem\":"@ + json_quote(r.filesystem) + ",\"directories\":"@ + decimal(r.tally.directories as nat) + ",\"regular_files\":"@ + decimal(r.tally.regular_files as nat) + seq![',']) + field_key("symlinks"@) + decimal(r.tally.symlinks as nat) + ",\"cloned_files\":"@);
    lemma_field_found("{\"ok\":true,\"source\":"@ + json_quote(r.source) + ",\"destination\":"@ + json_quote(r.destination) + ",\"filesystem\":"@ + json_quote(r.filesystem) + ",\"directories\":"@ + decimal(r.tally.directories as nat) + ",\"regular_files\":"@ + decimal(r.tally.regular_files as nat) + seq![','], "symlinks"@, decimal(r.tally.symlinks as nat), ",\"cloned_files\":"@);
    lemma_field_extends("{\"ok\":true,\"source\":"@ + json_quote(r.source) + ",\"destination\":"@ + json_quote(r.destination) + ",\"filesystem\":"@ + json_quote(r.filesystem) + ",\"directories\":"@ + decimal(r.tally.directories as nat) + ",\"regular_files\":"@ + decimal(r.tally.regular_files as nat) + ",\"symlinks\":"@ + decimal(r.tally.symlinks as nat) + ",\"cloned_files\":"@, decimal(r.tally.cloned_files as nat), "symlinks"@, decimal(r.tally.symlinks as nat));
    lemma_field_extends("{\"ok\":true,\"source\":"@ + json_quote(r.source) + ",\"destination\":"@ + json_quote(r.destination) + ",\"filesystem\":"@ + json_quote(r.filesystem) + ",\"directories\":"@ + decimal(r.tally.directories as nat) + ",\"regular_files\":"@ + decimal(r.tally.regular_files as nat) + ",\"symlinks\":"@ + decimal(r.tally.symlinks as nat) + ",\"cloned_files\":"@ + decimal(r.tally.cloned_files as nat), ",\"copied_files\":"@, "symlinks"@, decimal(r.tally.symlinks as nat));
    lemma_field_extends("{\"ok\":true,\"source\":"@ + json_quote(r.source) + ",\"destination\":"@ + json_quote(r.destination) + ",\"filesystem\":"@ + json_quote(r.filesystem) + ",\"directories\":"@ + decimal(r.tally.directories as nat) + ",\"regular_files\":"@ + decimal(r.tally.regular_files as nat) + ",\"symlinks\":"@ + decimal(r.tally.symlinks as nat) + ",\"cloned_files\":"@ + decimal(r.tally.cloned_files as nat) + ",\"copied_files\":"@, decimal(r.tally.copied_files as nat), "symlinks"@, decimal(r.tally.symlinks as nat));
    lemma_field_extends("{\"ok\":true,\"source\":"@ + json_quote(r.source) + ",\"destination\":"@ + json_quote(r.destination) + ",\"filesystem\":"@ + json_quote(r.filesystem) + ",\"directories\":"@ + decimal(r.tally.directories as nat) + ",\"regular_files\":"@ + decimal(r.tally.regular_files as nat) + ",\"symlinks\":"@ + decimal(r.tally.symlinks as nat) + ",\"cloned_files\":"@ + decimal(r.tally.cloned_files as nat) + ",\"copied_files\":"@ + decimal(r.tally.copied_files as nat), ",\"logical_bytes\":"@, "symlinks"@, decimal(r.tally.symlinks as nat));
    lemma_field_extends("{\"ok\":true,\"source\":"@ + json_quote(r.source) + ",\"destination\":"@ + json_quote(r.destination) + ",\"filesystem\":"@ + json_quote(r.filesystem) + ",\"directories\":"@ + decimal(r.tally.directories as nat) + ",\"regular_files\":"@ + decimal(r.tally.regular_files as nat) + ",\"symlinks\":"@ + decimal(r.tally.symlinks as nat) + ",\"cloned_files\":"@ + decimal(r.tally.cloned_files as nat) + ",\"copied_files\":"@ + decimal(r.tally.copied_files as nat) + ",\"logical_bytes\":"@, decimal(r.tally.logical_bytes as nat), "symlinks"@, decimal(r.tally.symlinks as nat));
    lemma_field_extends("{\"ok\":true,\"source\":"@ + json_quote(r.source) + ",\"destination\":"@ + json_quote(r.destination) + ",\"filesystem\":"@ + json_quote(r.filesystem) + ",\"directories\":"@ + decimal(r.tally.directories as nat) + ",\"regular_files\":"@ + decimal(r.tally.regular_files as nat) + ",\"symlinks\":"@ + decimal(r.tally.symlinks as nat) + ",\"cloned_files\":"@ + decimal(r.tally.cloned_files as nat) + ",\"copied_files\":"@ + decimal(r.tally.copied_files as nat) + ",\"logical_bytes\":"@ + decimal(r.tally.logical_bytes as nat), ",\"copied_bytes\":"@, "symlinks"@, decimal(r.tally.symlinks as nat));
    lemma_field_extends("{\"ok\":true,\"source\":"@ + json_quote(r.source) + ",\"destination\":"@ + json_quote(r.destination) + ",\"filesystem\":"@ + json_quote(r.filesystem) + ",\"directories\":"@ + decimal(r.tally.directories as nat) + ",\"regular_files\":"@ + decimal(r.tally.regular_files as nat) + ",\"symlinks\":"@ + decimal(r.tally.symlinks as nat) + ",\"cloned_files\":"@ + decimal(r.tally.cloned_files as nat) + ",\"copied_files\":"@ + decimal(r.tally.copied_files as nat) + ",\"logical_bytes\":"@ + decimal(r.tally.logical_bytes as nat) + ",\"copied_bytes\":"@, decimal(r.tally.copied_bytes as nat), "symlinks"@, decimal(r.tally.symlinks as nat));
    lemma_field_extends("{\"ok\":true,\"source\":"@ + json_quote(r.source) + ",\"destination\":"@ + json_quote(r.destination) + ",\"filesystem\":"@ + json_quote(r.filesystem) + ",\"directories\":"@ + decimal(r.tally.directories as nat) + ",\"regular_files\":"@ + decimal(r.tally.regular_files as nat) + ",\"symlinks\":"@ + decimal(r.tally.symlinks as nat) + ",\"cloned_files\":"@ + decimal(r.tally.cloned_files as nat) + ",\"copied_files\":"@ + decimal(r.tally.copied_files as nat) + ",\"logical_bytes\":"@ + decimal(r.tally.logical_bytes as nat) + ",\"copied_bytes\":"@ + decimal(r.tally.copied_bytes as nat), ",\"hardlinked_files\":"@, "symlinks"@, decimal(r.tally.symlinks as nat));
    lemma_field_extends("{\"ok\":true,\"source\":"@ + json_quote(r.source) + ",\"destination\":"@ + json_quote(r.destination) + ",\"filesystem\":"@ + json_quote(r.filesystem) + ",\"directories\":"@ + decimal(r.tally.directories as nat) + ",\"regular_files\":"@ + decimal(r.tally.regular_files as nat) + ",\"symlinks\":"@ + decimal(r.tally.symlinks as nat) + ",\"cloned_files\":"@ + decimal(r.tally.cloned_files as nat) + ",\"copied_files\":"@ + decimal(r.tally.copied_files as nat) + ",\"logical_bytes\":"@ + decimal(r.tally.logical_bytes as nat) + ",\"copied_bytes\":"@ + decimal(r.tally.copied_bytes as nat) + ",\"hardlinked_files\":"@, decimal(r.tally.hardlinked_files as nat), "symlinks"@, decimal(r.tally.symlinks as nat));
    lemma_field_extends("{\"ok\":true,\"source\":"@ + json_quote(r.source) + ",\"destination\":"@ + json_quote(r.destination) + ",\"filesystem\":"@ + json_quote(r.filesystem) + ",\"directories\":"@ + decimal(r.tally.directories as nat) + ",\"regular_files\":"@ + decimal(r.tally.regular_files as nat) + ",\"symlinks\":"@ + decimal(r.tally.symlinks as nat) + ",\"cloned_files\":"@ + decimal(r.tally.cloned_files as nat) + ",\"copied_files\":"@ + decimal(r.tally.copied_files as nat) + ",\"logical_bytes\":"@ + decimal(r.tally.logical_bytes as nat) + ",\"copied_bytes\":"@ + decimal(r.tally.copied_bytes as nat) + ",\"hardlinked_files\":"@ + decimal(r.tally.hardlinked_files as nat), ",\"swept_stages\":"@, "symlinks"@, decimal(r.tally.symlinks as nat));
    lemma_field_extends("{\"ok\":true,\"source\":"@ + json_quote(r.source) + ",\"destination\":"@ + json_quote(r.destination) + ",\"filesystem\":"@ + json_quote(r.filesystem) + ",\"directories\":"@ + decimal(r.tally.directories as nat) + ",\"regular_files\":"@ + decimal(r.tally.regular_files as nat) + ",\"symlinks\":"@ + decimal(r.tally.symlinks as nat) + ",\"cloned_files\":"@ + decimal(r.tally.cloned_files as nat) + ",\"copied_files\":"@ + decimal(r.tally.copied_files as nat) + ",\"logical_bytes\":"@ + decimal(r.tally.logical_bytes as nat) + ",\"copied_bytes\":"@ + decimal(r.tally.copied_bytes as nat) + ",\"hardlinked_files\":"@ + decimal(r.tally.hardlinked_files as nat) + ",\"swept_stages\":"@, json_list(r.swept_stages), "symlinks"@, decimal(r.tally.symlinks as nat));
    lemma_field_extends("{\"ok\":true,\"source\":"@ + json_quote(r.source) + ",\"destination\":"@ + json_quote(r.destination) + ",\"filesystem\":"@ + json_quote(r.filesystem) + ",\"directories\":"@ + decimal(r.tally.directories as nat) + ",\"regular_files\":"@ + decimal(r.tally.regular_files as nat) + ",\"symlinks\":"@ + decimal(r.tally.symlinks as nat) + ",\"cloned_files\":"@ + decimal(r.tally.cloned_files as nat) + ",\"copied_files\":"@ + decimal(r.tally.copied_files as nat) + ",\"logical_bytes\":"@ + decimal(r.tally.logical_bytes as nat) + ",\"copied_bytes\":"@ + decimal(r.tally.copied_bytes as nat) + ",\"hardlinked_files\":"@ + decimal(r.tally.hardlinked_files as nat) + ",\"swept_stages\":"@ + json_list(r.swept_stages), ",\"available_before\":"@, "symlinks"@, decimal(r.tally.symlinks as nat));
    lemma_field_extends("{\"ok\":true,\"source\":"@ + json_quote(r.source) + ",\"destination\":"@ + json_quote(r.destination) + ",\"filesystem\":"@ + json_quote(r.filesystem) + ",\"directories\":"@ + decimal(r.tally.directories as nat) + ",\"regular_files\":"@ + decimal(r.tally.regular_files as nat) + ",\"symlinks\":"@ + decimal(r.tally.symlinks as nat) + ",\"cloned_files\":"@ + decimal(r.tally.cloned_files as nat) + ",\"copied_files\":"@ + decimal(r.tally.copied_files as nat) + ",\"logical_bytes\":"@ + decimal(r.tally.logical_bytes as nat) + ",\"copied_bytes\":"@ + decimal(r.tally.copied_bytes as nat) + ",\"hardlinked_files\":"@ + decimal(r.tally.hardlinked_files as nat) + ",\"swept_stages\":"@ + json_list(r.swept_stages) + ",\"available_before\":"@, decimal(r.available_before as nat), "symlinks"@, decimal(r.tally.symlinks as nat));
    lemma_field_extends("{\"ok\":true,\"source\":"@ + json_quote(r.source) + ",\"destination\":"@ + json_quote(r.destination) + ",\"filesystem\":"@ + json_quote(r.filesystem) + ",\"directories\":"@ + decimal(r.tally.directories as nat) + ",\"regular_files\":"@ + decimal(r.tally.regular_files as nat) + ",\"symlinks\":"@ + decimal(r.tally.symlinks as nat) + ",\"cloned_files\":"@ + decimal(r.tally.cloned_files as nat) + ",\"copied_files\":"@ + decimal(r.tally.copied_files as nat) + ",\"logical_bytes\":"@ + decimal(r.tally.logical_bytes as nat) + ",\"copied_bytes\":"@ + decimal(r.tally.copied_bytes as nat) + ",\"hardlinked_files\":"@ + decimal(r.tally.hardlinked_files as nat) + ",\"swept_stages\":"@ + json_list(r.swept_stages) + ",\"available_before\":"@ + decimal(r.available_before as nat), ",\"available_after\":"@, "symlinks"@, decimal(r.tally.symlinks as nat));
    lemma_field_extends("{\"ok\":true,\"source\":"@ + json_quote(r.source) + ",\"destination\":"@ + json_quote(r.destination) + ",\"filesystem\":"@ + json_quote(r.filesystem) + ",\"directories\":"@ + decimal(r.tally.directories as nat) + ",\"regular_files\":"@ + decimal(r.tally.regular_files as nat) + ",\"symlinks\":"@ + decimal(r.tally.symlinks as nat) + ",\"cloned_files\":"@ + decimal(r.tally.cloned_files as nat) + ",\"copied_files\":"@ + decimal(r.tally.copied_files as nat) + ",\"logical_bytes\":"@ + decimal(r.tally.logical_bytes as nat) + ",\"copied_bytes\":"@ + decimal(r.tally.copied_bytes as nat) + ",\"hardlinked_files\":"@ + decimal(r.tally.hardlinked_files as nat) + ",\"swept_stages\":"@ + json_list(r.swept_stages) + ",\"available_before\":"@ + decimal(r.available_before as nat) + ",\"available_after\":"@, decimal(r.available_after as nat), "symlinks"@, decimal(r.tally.symlinks as nat));
    lemma_field_extends("{\"ok\":true,\"source\":"@ + json_quote(r.source) + ",\"destination\":"@ + json_quote(r.destination) + ",\"filesystem\":"@ + json_quote(r.filesystem) + ",\"directories\":"@ + decimal(r.tally.directories as nat) + ",\"regular_files\":"@ + decimal(r.tally.regular_files as nat) + ",\"symlinks\":"@ + decimal(r.tally.symlinks as nat) + ",\"cloned_files\":"@ + decimal(r.tally.cloned_files as nat) + ",\"copied_files\":"@ + decimal(r.tally.copied_files as nat) + ",\"logical_bytes\":"@ + decimal(r.tally.logical_bytes as nat) + ",\"copied_bytes\":"@ + decimal(r.tally.copied_bytes as nat) + ",\"hardlinked_files\":"@ + decimal(r.tally.hardlinked_files as nat) + ",\"swept_stages\":"@ + json_list(r.swept_stages) + ",\"available_before\":"@ + decimal(r.available_before as nat) + ",\"available_after\":"@ + decimal(r.available_after as nat), "}"@, "symlinks"@, decimal(r.tally.symlinks as nat));
}

proof fn lemma_receipt_reads_back_cloned_files(r: ReceiptModel)
    ensures
        holds_field(receipt_text(r), "cloned_files"@, decimal(r.tally.cloned_files as nat)),
{
    reveal_strlit(",\"cloned_files\":");
    reveal_strlit(",\"copied_files\":");
    reveal_strlit("cloned_files");
    assert(",\"cloned_files\":"@ =~= seq![','] + field_key("cloned_files"@));
    assert("{\"ok\":true,\"source\":"@ + json_quote(r.source) + ",\"destination\":"@ + json_quote(r.destination) + ",\"filesystem\":"@ + json_quote(r.filesystem) + ",\"directories\":"@ + decimal(r.tally.directories as nat) + ",\"regular_files\":"@ + decimal(r.tally.regular_files as nat) + ",\"symlinks\":"@ + decimal(r.tally.symlinks as nat) + ",\"cloned_files\":"@ + decimal(r.tally.cloned_files as nat) + ",\"copied_files\":"@ =~= ("{\"ok\":true,\"source\":"@ + json_quote(r.source) + ",\"destination\":"@ + json_quote(r.destination) + ",\"filesystem\":"@ + json_quote(r.filesystem) + ",\"directories\":"@ + decimal(r.tally.directories as nat) + ",\"regular_files\":"@ + decimal(r.tally.regular_files as nat) + ",\"symlinks\":"@ + decimal(r.tally.symlinks as nat) + seq![',']) + field_key("cloned_files"@) + decimal(r.tally.cloned_files as nat) + ",\"copied_files\":"@);
    lemma_field_found("{\"ok\":true,\"source\":"@ + json_quote(r.source) + ",\"destination\":"@ + json_quote(r.destination) + ",\"filesystem\":"@ + json_quote(r.filesystem) + ",\"directories\":"@ + decimal(r.tally.directories as nat) + ",\"regular_files\":"@ + decimal(r.tally.regular_files as nat) + ",\"symlinks\":"@ + decimal(r.tally.symlinks as nat) + seq![','], "cloned_files"@, decimal(r.tally.cloned_files as nat), ",\"copied_files\":"@);
    lemma_field_extends("{\"ok\":true,\"source\":"@ + json_quote(r.source) + ",\"destination\":"@ + json_quote(r.destination) + ",\"filesystem\":"@ + json_quote(r.filesystem) + ",\"directories\":"@ + decimal(r.tally.directories as nat) + ",\"regular_files\":"@ + decimal(r.tally.regular_files as nat) + ",\"symlinks\":"@ + decimal(r.tally.symlinks as nat) + ",\"cloned_files\":"@ + decimal(r.tally.cloned_files as nat) + ",\"copied_files\":"@, decimal(r.tally.copied_files as nat), "cloned_files"@, decimal(r.tally.cloned_files as nat));
    lemma_field_extends("{\"ok\":true,\"source\":"@ + json_quote(r.source) + ",\"destination\":"@ + json_quote(r.destination) + ",\"filesystem\":"@ + json_quote(r.filesystem) + ",\"directories\":"@ + decimal(r.tally.directories as nat) + ",\"regular_files\":"@ + decimal(r.tally.regular_files as nat) + ",\"symlinks\":"@ + decimal(r.tally.symlinks as nat) + ",\"cloned_files\":"@ + decimal(r.tally.cloned_files as nat) + ",\"copied_files\":"@ + decimal(r.tally.copied_files as nat), ",\"logical_bytes\":"@, "cloned_files"@, decimal(r.tally.cloned_files as nat));
    lemma_field_extends("{\"ok\":true,\"source\":"@ + json_quote(r.source) + ",\"destination\":"@ + json_quote(r.destination) + ",\"filesystem\":"@ + json_quote(r.filesystem) + ",\"directories\":"@ + decimal(r.tally.directories as nat) + ",\"regular_files\":"@ + decimal(r.tally.regular_files as nat) + ",\"symlinks\":"@ + decimal(r.tally.symlinks as nat) + ",\"cloned_files\":"@ + decimal(r.tally.cloned_files as nat) + ",\"copied_files\":"@ + decimal(r.tally.copied_files as nat) + ",\"logical_bytes\":"@, decimal(r.tally.logical_bytes as nat), "cloned_files"@, decimal(r.tally.cloned_files as nat));
    lemma_field_extends("{\"ok\":true,\"source\":"@ + json_quote(r.source) + ",\"destination\":"@ + json_quote(r.destination) + ",\"filesystem\":"@ + json_quote(r.filesystem) + ",\"directories\":"@ + decimal(r.tally.directories as nat) + ",\"regular_files\":"@ + decimal(r.tally.regular_files as nat) + ",\"symlinks\":"@ + decimal(r.tally.symlinks as nat) + ",\"cloned_files\":"@ + decimal(r.tally.cloned_files as nat) + ",\"copied_files\":"@ + decimal(r.tally.copied_files as nat) + ",\"logical_bytes\":"@ + decimal(r.tally.logical_bytes as nat), ",\"copied_bytes\":"@, "cloned_files"@, decimal(r.tally.cloned_files as nat));
    lemma_field_extends("{\"ok\":true,\"source\":"@ + json_quote(r.source) + ",\"destination\":"@ + json_quote(r.destination) + ",\"filesystem\":"@ + json_quote(r.filesystem) + ",\"directories\":"@ + decimal(r.tally.directories as nat) + ",\"regular_files\":"@ + decimal(r.tally.regular_files as nat) + ",\"symlinks\":"@ + decimal(r.tally.symlinks as nat) + ",\"cloned_files\":"@ + decimal(r.tally.cloned_files as nat) + ",\"copied_files\":"@ + decimal(r.tally.copied_files as nat) + ",\"logical_bytes\":"@ + decimal(r.tally.logical_bytes as nat) + ",\"copied_bytes\":"@, decimal(r.tally.copied_bytes as nat), "cloned_files"@, decimal(r.tally.cloned_files as nat));
    lemma_field_extends("{\"ok\":true,\"source\":"@ + json_quote(r.source) + ",\"destination\":"@ + json_quote(r.destination) + ",\"filesystem\":"@ + json_quote(r.filesystem) + ",\"directories\":"@ + decimal(r.tally.directories as nat) + ",\"regular_files\":"@ + decimal(r.tally.regular_files as nat) + ",\"symlinks\":"@ + decimal(r.tally.symlinks as nat) + ",\"cloned_files\":"@ + decimal(r.tally.cloned_files as nat) + ",\"copied_files\":"@ + decimal(r.tally.copied_files as nat) + ",\"logical_bytes\":"@ + decimal(r.tally.logical_bytes as nat) + ",\"copied_bytes\":"@ + decimal(r.tally.copied_bytes as nat), ",\"hardlinked_files\":"@, "cloned_files"@, decimal(r.tally.cloned_files as nat));
    lemma_field_extends("{\"ok\":true,\"source\":"@ + json_quote(r.source) + ",\"destination\":"@ + json_quote(r.destination) + ",\"filesystem\":"@ + json_quote(r.filesystem) + ",\"directories\":"@ + decimal(r.tally.directories as nat) + ",\"regular_files\":"@ + decimal(r.tally.regular_files as nat) + ",\"symlinks\":"@ + decimal(r.tally.symlinks as nat) + ",\"cloned_files\":"@ + decimal(r.tally.cloned_files as nat) + ",\"copied_files\":"@ + decimal(r.tally.copied_files as nat) + ",\"logical_bytes\":"@ + decimal(r.tally.logical_bytes as nat) + ",\"copied_bytes\":"@ + decimal(r.tally.copied_bytes as nat) + ",\"hardlinked_files\":"@, decimal(r.tally.hardlinked_files as nat), "cloned_files"@, decimal(r.tally.cloned_files as nat));
    lemma_field_extends("{\"ok\":true,\"source\":"@ + json_quote(r.source) + ",\"destination\":"@ + json_quote(r.destination) + ",\"filesystem\":"@ + json_quote(r.filesystem) + ",\"directories\":"@ + decimal(r.tally.directories as nat) + ",\"regular_files\":"@ + decimal(r.tally.regular_files as nat) + ",\"symlinks\":"@ + decimal(r.tally.symlinks as nat) + ",\"cloned_files\":"@ + decimal(r.tally.cloned_files as nat) + ",\"copied_files\":"@ + decimal(r.tally.copied_files as nat) + ",\"logical_bytes\":"@ + decimal(r.tally.logical_bytes as nat) + ",\"copied_bytes\":"@ + decimal(r.tally.copied_bytes as nat) + ",\"hardlinked_files\":"@ + decimal(r.tally.hardlinked_files as nat), ",\"swept_stages\":"@, "cloned_files"@, decimal(r.tally.cloned_files as nat));
    lemma_field_extends("{\"ok\":true,\"source\":"@ + json_quote(r.source) + ",\"destination\":"@ + json_quote(r.destination) + ",\"filesystem\":"@ + json_quote(r.filesystem) + ",\"directories\":"@ + decimal(r.tally.directories as nat) + ",\"regular_files\":"@ + decimal(r.tally.regular_files as nat) + ",\"symlinks\":"@ + decimal(r.tally.symlinks as nat) + ",\"cloned_files\":"@ + decimal(r.tally.cloned_files as nat) + ",\"copied_files\":"@ + decimal(r.tally.copied_files as nat) + ",\"logical_bytes\":"@ + decimal(r.tally.logical_bytes as nat) + ",\"copied_bytes\":"@ + decimal(r.tally.copied_bytes as nat) + ",\"hardlinked_files\":"@ + decimal(r.tally.hardlinked_files as nat) + ",\"swept_stages\":"@, json_list(r.swept_stages), "cloned_files"@, decimal(r.tally.cloned_files as nat));
    lemma_field_extends("{\"ok\":true,\"source\":"@ + json_quote(r.source) + ",\"destination\":"@ + json_quote(r.destination) + ",\"filesystem\":"@ + json_quote(r.filesystem) + ",\"directories\":"@ + decimal(r.tally.directories as nat) + ",\"regular_files\":"@ + decimal(r.tally.regular_files as nat) + ",\"symlinks\":"@ + decimal(r.tally.symlinks as nat) + ",\"cloned_files\":"@ + decimal(r.tally.cloned_files as nat) + ",\"copied_files\":"@ + decimal(r.tally.copied_files as nat) + ",\"logical_bytes\":"@ + decimal(r.tally.logical_bytes as nat) + ",\"copied_bytes\":"@ + decimal(r.tally.copied_bytes as nat) + ",\"hardlinked_files\":"@ + decimal(r.tally.hardlinked_files as nat) + ",\"swept_stages\":"@ + json_list(r.swept_stages), ",\"available_before\":"@, "cloned_files"@, decimal(r.tally.cloned_files as nat));
    lemma_field_extends("{\"ok\":true,\"source\":"@ + json_quote(r.source) + ",\"destination\":"@ + json_quote(r.destination) + ",\"filesystem\":"@ + json_quote(r.filesystem) + ",\"directories\":"@ + decimal(r.tally.directories as nat) + ",\"regular_files\":"@ + decimal(r.tally.regular_files as nat) + ",\"symlinks\":"@ + decimal(r.tally.symlinks as nat) + ",\"cloned_files\":"@ + decimal(r.tally.cloned_files as nat) + ",\"copied_files\":"@ + decimal(r.tally.copied_files as nat) + ",\"logical_bytes\":"@ + decimal(r.tally.logical_bytes as nat) + ",\"copied_bytes\":"@ + decimal(r.tally.copied_bytes as nat) + ",\"hardlinked_files\":"@ + decimal(r.tally.hardlinked_files as nat) + ",\"swept_stages\":"@ + json_list(r.swept_stages) + ",\"available_before\":"@, decimal(r.available_before as nat), "cloned_files"@, decimal(r.tally.cloned_files as nat));
    lemma_field_extends("{\"ok\":true,\"source\":"@ + json_quote(r.source) + ",\"destination\":"@ + json_quote(r.destination) + ",\"filesystem\":"@ + json_quote(r.filesystem) + ",\"directories\":"@ + decimal(r.tally.directories as nat) + ",\"regular_files\":"@ + decimal(r.tally.regular_files as nat) + ",\"symlinks\":"@ + decimal(r.tally.symlinks as nat) + ",\"cloned_files\":"@ + decimal(r.tally.cloned_files as nat) + ",\"copied_files\":"@ + decimal(r.tally.copied_files as nat) + ",\"logical_bytes\":"@ + decimal(r.tally.logical_bytes as nat) + ",\"copied_bytes\":"@ + decimal(r.tally.copied_bytes as nat) + ",\"hardlinked_files\":"@ + decimal(r.tally.hardlinked_files as nat) + ",\"swept_stages\":"@ + json_list(r.swept_stages) + ",\"available_before\":"@ + decimal(r.available_before as nat), ",\"available_after\":"@, "cloned_files"@, decimal(r.tally.cloned_files as nat));
    lemma_field_extends("{\"ok\":true,\"source\":"@ + json_quote(r.source) + ",\"destination\":"@ + json_quote(r.destination) + ",\"filesystem\":"@ + json_quote(r.filesystem) + ",\"directories\":"@ + decimal(r.tally.directories as nat) + ",\"regular_files\":"@ + decimal(r.tally.regular_files as nat) + ",\"symlinks\":"@ + decimal(r.tally.symlinks as nat) + ",\"cloned_files\":"@ + decimal(r.tally.cloned_files as nat) + ",\"copied_files\":"@ + decimal(r.tally.copied_files as nat) + ",\"logical_bytes\":"@ + decimal(r.tally.logical_bytes as nat) + ",\"copied_bytes\":"@ + decimal(r.tally.copied_bytes as nat) + ",\"hardlinked_files\":"@ + decimal(r.tally.hardlinked_files as nat) + ",\"swept_stages\":"@ + json_list(r.swept_stages) + ",\"available_before\":"@ + decimal(r.available_before as nat) + ",\"available_after\":"@, decimal(r.available_after as nat), "cloned_files"@, decimal(r.tally.cloned_files as nat));
    lemma_field_extends("{\"ok\":true,\"source\":"@ + json_quote(r.source) + ",\"destination\":"@ + json_quote(r.destination) + ",\"filesystem\":"@ + json_quote(r.filesystem) + ",\"directories\":"@ + decimal(r.tally.directories as nat) + ",\"regular_files\":"@ + decimal(r.tally.regular_files as nat) + ",\"symlinks\":"@ + decimal(r.tally.symlinks as nat) + ",\"cloned_files\":"@ + decimal(r.tally.cloned_files as nat) + ",\"copied_files\":"@ + decimal(r.tally.copied_files as nat) + ",\"logical_bytes\":"@ + decimal(r.tally.logical_bytes as nat) + ",\"copied_bytes\":"@ + decimal(r.tally.copied_bytes as nat) + ",\"hardlinked_files\":"@ + decimal(r.tally.hardlinked_files as nat) + ",\"swept_stages\":"@ + json_list(r.swept_stages) + ",\"available_before\":"@ + decimal(r.available_before as nat) + ",\"available_after\":"@ + decimal(r.available_after as nat), "}"@, "cloned_files"@, decimal(r.tally.cloned_files as nat));
}

proof fn lemma_receipt_reads_back_copied_files(r: ReceiptModel)
    ensures
        holds_field(receipt_text(r), "copied_files"@, decimal(r.tally.copied_files as nat)),
{
    reveal_strlit(",\"copied_files\":");
    reveal_strlit(",\"logical_bytes\":");
    reveal_strlit("copied_files");
    assert(",\"copied_files\":"@ =~= seq![','] + field_key("copied_files"@));
    assert("{\"ok\":true,\"source\":"@ + json_quote(r.source) + ",\"destination\":"@ + json_quote(r.destination) + ",\"filesystem\":"@ + json_quote(r.filesystem) + ",\"directories\":"@ + decimal(r.tally.directories as nat) + ",\"regular_files\":"@ + decimal(r.tally.regular_files as nat) + ",\"symlinks\":"@ + decimal(r.tally.symlinks as nat) + ",\"cloned_files\":"@ + decimal(r.tally.cloned_files as nat) + ",\"copied_files\":"@ + decimal(r.tally.copied_files as nat) + ",\"logical_bytes\":"@ =~= ("{\"ok\":true,\"source\":"@ + json_quote(r.source) + ",\"destination\":"@ + json_quote(r.destination) + ",\"filesystem\":"@ + json_quote(r.filesystem) + ",\"directories\":"@ + decimal(r.tally.directories as nat) + ",\"regular_files\":"@ + decimal(r.tally.regular_files as nat) + ",\"symlinks\":"@ + decimal(r.tally.symlinks as nat) + ",\"cloned_files\":"@ + decimal(r.tally.cloned_files as nat) + seq![',']) + field_key("copied_files"@) + decimal(r.tally.copied_files as nat) + ",\"logical_bytes\":"@);
    lemma_field_found("{\"ok\":true,\"source\":"@ + json_quote(r.source) + ",\"destination\":"@ + json_quote(r.destination) + ",\"filesystem\":"@ + json_quote(r.filesystem) + ",\"directories\":"@ + decimal(r.tally.directories as nat) + ",\"regular_files\":"@ + decimal(r.tally.regular_files as nat) + ",\"symlinks\":"@ + decimal(r.tally.symlinks as nat) + ",\"cloned_files\":"@ + decimal(r.tally.cloned_files as nat) + seq![','], "copied_files"@, decimal(r.tally.copied_files as nat), ",\"logical_bytes\":"@);
    lemma_field_extends("{\"ok\":true,\"source\":"@ + json_quote(r.source) + ",\"destination\":"@ + json_quote(r.destination) + ",\"filesystem\":"@ + json_quote(r.filesystem) + ",\"directories\":"@ + decimal(r.tally.directories as nat) + ",\"regular_files\":"@ + decimal(r.tally.regular_files as nat) + ",\"symlinks\":"@ + decimal(r.tally.symlinks as nat) + ",\"cloned_files\":"@ + decimal(r.tally.cloned_files as nat) + ",\"copied_files\":"@ + decimal(r.tally.copied_files as nat) + ",\"logical_bytes\":"@, decimal(r.tally.logical_bytes as nat), "copied_files"@, decimal(r.tally.copied_files as nat));
    lemma_field_extends("{\"ok\":true,\"source\":"@ + json_quote(r.source) + ",\"destination\":"@ + json_quote(r.destination) + ",\"filesystem\":"@ + json_quote(r.filesystem) + ",\"directories\":"@ + decimal(r.tally.directories as nat) + ",\"regular_files\":"@ + decimal(r.tally.regular_files as nat) + ",\"symlinks\":"@ + decimal(r.tally.symlinks as nat) + ",\"cloned_files\":"@ + decimal(r.tally.cloned_files as nat) + ",\"copied_files\":"@ + decimal(r.tally.copied_files as nat) + ",\"logical_bytes\":"@ + decimal(r.tally.logical_bytes as nat), ",\"copied_bytes\":"@, "copied_files"@, decimal(r.tally.copied_files as nat));
    lemma_field_extends("{\"ok\":true,\"source\":"@ + json_quote(r.source) + ",\"destination\":"@ + json_quote(r.destination) + ",\"filesystem\":"@ + json_quote(r.filesystem) + ",\"directories\":"@ + decimal(r.tally.directories as nat) + ",\"regular_files\":"@ + decimal(r.tally.regular_files as nat) + ",\"symlinks\":"@ + decimal(r.tally.symlinks as nat) + ",\"cloned_files\":"@ + decimal(r.tally.cloned_files as nat) + ",\"copied_files\":"@ + decimal(r.tally.copied_files as nat) + ",\"logical_bytes\":"@ + decimal(r.tally.logical_bytes as nat) + ",\"copied_bytes\":"@, decimal(r.tally.copied_bytes as nat), "copied_files"@, decimal(r.tally.copied_files as nat));
    lemma_field_extends("{\"ok\":true,\"source\":"@ + json_quote(r.source) + ",\"destination\":"@ + json_quote(r.destination) + ",\"filesystem\":"@ + json_quote(r.filesystem) + ",\"directories\":"@ + decimal(r.tally.directories as nat) + ",\"regular_files\":"@ + decimal(r.tally.regular_files as nat) + ",\"symlinks\":"@ + decimal(r.tally.symlinks as nat) + ",\"cloned_files\":"@ + decimal(r.tally.cloned_files as nat) + ",\"copied_files\":"@ + decimal(r.tally.copied_files as nat) + ",\"logical_bytes\":"@ + decimal(r.tally.logical_bytes as nat) + ",\"copied_bytes\":"@ + decimal(r.tally.copied_bytes as nat), ",\"hardlinked_files\":"@, "copied_files"@, decimal(r.tally.copied_files as nat));
    lemma_field_extends("{\"ok\":true,\"source\":"@ + json_quote(r.source) + ",\"destination\":"@ + json_quote(r.destination) + ",\"filesystem\":"@ + json_quote(r.filesystem) + ",\"directories\":"@ + decimal(r.tally.directories as nat) + ",\"regular_files\":"@ + decimal(r.tally.regular_files as nat) + ",\"symlinks\":"@ + decimal(r.tally.symlinks as nat) + ",\"cloned_files\":"@ + decimal(r.tally.cloned_files as nat) + ",\"copied_files\":"@ + decimal(r.tally.copied_files as nat) + ",\"logical_bytes\":"@ + decimal(r.tally.logical_bytes as nat) + ",\"copied_bytes\":"@ + decimal(r.tally.copied_bytes as nat) + ",\"hardlinked_files\":"@, decimal(r.tally.hardlinked_files as nat), "copied_files"@, decimal(r.tally.copied_files as nat));
    lemma_field_extends("{\"ok\":true,\"source\":"@ + json_quote(r.source) + ",\"destination\":"@ + json_quote(r.destination) + ",\"filesystem\":"@ + json_quote(r.filesystem) + ",\"directories\":"@ + decimal(r.tally.directories as nat) + ",\"regular_files\":"@ + decimal(r.tally.regular_files as nat) + ",\"symlinks\":"@ + decimal(r.tally.symlinks as nat) + ",\"cloned_files\":"@ + decimal(r.tally.cloned_files as nat) + ",\"copied_files\":"@ + decimal(r.tally.copied_files as nat) + ",\"logical_bytes\":"@ + decimal(r.tally.logical_bytes as nat) + ",\"copied_bytes\":"@ + decimal(r.tally.copied_bytes as nat) + ",\"hardlinked_files\":"@ + decimal(r.tally.hardlinked_files as nat), ",\"swept_stages\":"@, "copied_files"@, decimal(r.tally.copied_files as nat));
    lemma_field_extends("{\"ok\":true,\"source\":"@ + json_quote(r.source) + ",\"destination\":"@ + json_quote(r.destination) + ",\"filesystem\":"@ + json_quote(r.filesystem) + ",\"directories\":"@ + decimal(r.tally.directories as nat) + ",\"regular_files\":"@ + decimal(r.tally.regular_files as nat) + ",\"symlinks\":"@ + decimal(r.tally.symlinks as nat) + ",\"cloned_files\":"@ + decimal(r.tally.cloned_files as nat) + ",\"copied_files\":"@ + decimal(r.tally.copied_files as nat) + ",\"logical_bytes\":"@ + decimal(r.tally.logical_bytes as nat) + ",\"copied_bytes\":"@ + decimal(r.tally.copied_bytes as nat) + ",\"hardlinked_files\":"@ + decimal(r.tally.hardlinked_files as nat) + ",\"swept_stages\":"@, json_list(r.swept_stages), "copied_files"@, decimal(r.tally.copied_files as nat));
    lemma_field_extends("{\"ok\":true,\"source\":"@ + json_quote(r.source) + ",\"destination\":"@ + json_quote(r.destination) + ",\"filesystem\":"@ + json_quote(r.filesystem) + ",\"directories\":"@ + decimal(r.tally.directories as nat) + ",\"regular_files\":"@ + decimal(r.tally.regular_files as nat) + ",\"symlinks\":"@ + decimal(r.tally.symlinks as nat) + ",\"cloned_files\":"@ + decimal(r.tally.cloned_files as nat) + ",\"copied_files\":"@ + decimal(r.tally.copied_files as nat) + ",\"logical_bytes\":"@ + decimal(r.tally.logical_bytes as nat) + ",\"copied_bytes\":"@ + decimal(r.tally.copied_bytes as nat) + ",\"hardlinked_files\":"@ + decimal(r.tally.hardlinked_files as nat) + ",\"swept_stages\":"@ + json_list(r.swept_stages), ",\"available_before\":"@, "copied_files"@, decimal(r.tally.copied_files as nat));
    lemma_field_extends("{\"ok\":true,\"source\":"@ + json_quote(r.source) + ",\"destination\":"@ + json_quote(r.destination) + ",\"filesystem\":"@ + json_quote(r.filesystem) + ",\"directories\":"@ + decimal(r.tally.directories as nat) + ",\"regular_files\":"@ + decimal(r.tally.regular_files as nat) + ",\"symlinks\":"@ + decimal(r.tally.symlinks as nat) + ",\"cloned_files\":"@ + decimal(r.tally.cloned_files as nat) + ",\"copied_files\":"@ + decimal(r.tally.copied_files as nat) + ",\"logical_bytes\":"@ + decimal(r.tally.logical_bytes as nat) + ",\"copied_bytes\":"@ + decimal(r.tally.copied_bytes as nat) + ",\"hardlinked_files\":"@ + decimal(r.tally.hardlinked_files as nat) + ",\"swept_stages\":"@ + json_list(r.swept_stages) + ",\"available_before\":"@, decimal(r.available_before as nat), "copied_files"@, decimal(r.tally.copied_files as nat));
    lemma_field_extends("{\"ok\":true,\"source\":"@ + json_quote(r.source) + ",\"destination\":"@ + json_quote(r.destination) + ",\"filesystem\":"@ + json_quote(r.filesystem) + ",\"directories\":"@ + decimal(r.tally.directories as nat) + ",\"regular_files\":"@ + decimal(r.tally.regular_files as nat) + ",\"symlinks\":"@ + decimal(r.tally.symlinks as nat) + ",\"cloned_files\":"@ + decimal(r.tally.cloned_files as nat) + ",\"copied_files\":"@ + decimal(r.tally.copied_files as nat) + ",\"logical_bytes\":"@ + decimal(r.tally.logical_bytes as nat) + ",\"copied_bytes\":"@ + decimal(r.tally.copied_bytes as nat) + ",\"hardlinked_files\":"@ + decimal(r.tally.hardlinked_files as nat) + ",\"swept_stages\":"@ + json_list(r.swept_stages) + ",\"available_before\":"@ + decimal(r.available_before as nat), ",\"available_after\":"@, "copied_files"@, decimal(r.tally.copied_files as nat));
    lemma_field_extends("{\"ok\":true,\"source\":"@ + json_quote(r.source) + ",\"destination\":"@ + json_quote(r.destination) + ",\"filesystem\":"@ + json_quote(r.filesystem) + ",\"directories\":"@ + decimal(r.tally.directories as nat) + ",\"regular_files\":"@ + decimal(r.tally.regular_files as nat) + ",\"symlinks\":"@ + decimal(r.tally.symlinks as nat) + ",\"cloned_files\":"@ + decimal(r.tally.cloned_files as nat) + ",\"copied_files\":"@ + decimal(r.tally.copied_files as nat) + ",\"logical_bytes\":"@ + decimal(r.tally.logical_bytes as nat) + ",\"copied_bytes\":"@ + decimal(r.tally.copied_bytes as nat) + ",\"hardlinked_files\":"@ + decimal(r.tally.hardlinked_files as nat) + ",\"swept_stages\":"@ + json_list(r.swept_stages) + ",\"available_before\":"@ + decimal(r.available_before as nat) + ",\"available_after\":"@, decimal(r.available_after as nat), "copied_files"@, decimal(r.tally.copied_files as nat));
    lemma_field_extends("{\"ok\":true,\"source\":"@ + json_quote(r.source) + ",\"destination\":"@ + json_quote(r.destination) + ",\"filesystem\":"@ + json_quote(r.filesystem) + ",\"directories\":"@ + decimal(r.tally.directories as nat) + ",\"regular_files\":"@ + decimal(r.tally.regular_files as nat) + ",\"symlinks\":"@ + decimal(r.tally.symlinks as nat) + ",\"cloned_files\":"@ + decimal(r.tally.cloned_files as nat) + ",\"copied_files\":"@ + decimal(r.tally.copied_files as nat) + ",\"logical_bytes\":"@ + decimal(r.tally.logical_bytes as nat) + ",\"copied_bytes\":"@ + decimal(r.tally.copied_bytes as nat) + ",\"hardlinked_files\":"@ + decimal(r.tally.hardlinked_files as nat) + ",\"swept_stages\":"@ + json_list(r.swept_stages) + ",\"available_before\":"@ + decimal(r.available_before as nat) + ",\"available_after\":"@ + decimal(r.available_after as nat), "}"@, "copied_files"@, decimal(r.tally.copied_files as nat));
}

proof fn lemma_receipt_reads_back_logical_bytes(r: ReceiptModel)
    ensures
        holds_field(receipt_text(r), "logical_bytes"@, decimal(r.tally.logical_bytes as nat)),
{
    reveal_strlit(",\"copied_bytes\":");
    reveal_strlit(",\"logical_bytes\":");
    reveal_strlit("logical_bytes");
    assert(",\"logical_bytes\":"@ =~= seq![','] + field_key("logical_bytes"@));
    assert("{\"ok\":true,\"source\":"@ + json_quote(r.source) + ",\"destination\":"@ + json_quote(r.destination) + ",\"filesystem\":"@ + json_quote(r.filesystem) + ",\"directories\":"@ + decimal(r.tally.directories as nat) + ",\"regular_files\":"@ + decimal(r.tally.regular_files as nat) + ",\"symlinks\":"@ + decimal(r.tally.symlinks as nat) + ",\"cloned_files\":"@ + decimal(r.tally.cloned_files as nat) + ",\"copied_files\":"@ + decimal(r.tally.copied_files as nat) + ",\"logical_bytes\":"@ + decimal(r.tally.logical_bytes as nat) + ",\"copied_bytes\":"@ =~= ("{\"ok\":true,\"source\":"@ + json_quote(r.source) + ",\"destination\":"@ + json_quote(r.destination) + ",\"filesystem\":"@ + json_quote(r.filesystem) + ",\"directories\":"@ + decimal(r.tally.directories as nat) + ",\"regular_files\":"@ + decimal(r.tally.regular_files as nat) + ",\"symlinks\":"@ + decimal(r.tally.symlinks as nat) + ",\"cloned_files\":"@ + decimal(r.tally.cloned_files as nat) + ",\"copied_files\":"@ + decimal(r.tally.copied_files as nat) + seq![',']) + field_key("logical_bytes"@) + decimal(r.tally.logical_bytes as nat) + ",\"copied_bytes\":"@);
    lemma_field_found("{\"ok\":true,\"source\":"@ + json_quote(r.source) + ",\"destination\":"@ + json_quote(r.destination) + ",\"filesystem\":"@ + json_quote(r.filesystem) + ",\"directories\":"@ + decimal(r.tally.directories as nat) + ",\"regular_files\":"@ + decimal(r.tally.regular_files as nat) + ",\"symlinks\":"@ + decimal(r.tally.symlinks as nat) + ",\"cloned_files\":"@ + decimal(r.tally.cloned_files as nat) + ",\"copied_files\":"@ + decimal(r.tally.copied_files as nat) + seq![','], "logical_bytes"@, decimal(r.tally.logical_bytes as nat), ",\"copied_bytes\":"@);
    lemma_field_extends("{\"ok\":true,\"source\":"@ + json_quote(r.source) + ",\"destination\":"@ + json_quote(r.destination) + ",\"filesystem\":"@ + json_quote(r.filesystem) + ",\"directories\":"@ + decimal(r.tally.directories as nat) + ",\"regular_files\":"@ + decimal(r.tally.regular_files as nat) + ",\"symlinks\":"@ + decimal(r.tally.symlinks as nat) + ",\"cloned_files\":"@ + decimal(r.tally.cloned_files as nat) + ",\"copied_files\":"@ + decimal(r.tally.copied_files as nat) + ",\"logical_bytes\":"@ + decimal(r.tally.logical_bytes as nat) + ",\"copied_bytes\":"@, decimal(r.tally.copied_bytes as nat), "logical_bytes"@, decimal(r.tally.logical_bytes as nat));
    lemma_field_extends("{\"ok\":true,\"source\":"@ + json_quote(r.source) + ",\"destination\":"@ + json_quote(r.destination) + ",\"filesystem\":"@ + json_quote(r.filesystem) + ",\"directories\":"@ + decimal(r.tally.directories as nat) + ",\"regular_files\":"@ + decimal(r.tally.regular_files as nat) + ",\"symlinks\":"@ + decimal(r.tally.symlinks as nat) + ",\"cloned_files\":"@ + decimal(r.tally.cloned_files as nat) + ",\"copied_files\":"@ + decimal(r.tally.copied_files as nat) + ",\"logical_bytes\":"@ + decimal(r.tally.logical_bytes as nat) + ",\"copied_bytes\":"@ + decimal(r.tally.copied_bytes as nat), ",\"hardlinked_files\":"@, "logical_bytes"@, decimal(r.tally.logical_bytes as nat));
    lemma_field_extends("{\"ok\":true,\"source\":"@ + json_quote(r.source) + ",\"destination\":"@ + json_quote(r.destination) + ",\"filesystem\":"@ + json_quote(r.filesystem) + ",\"directories\":"@ + decimal(r.tally.directories as nat) + ",\"regular_files\":"@ + decimal(r.tally.regular_files as nat) + ",\"symlinks\":"@ + decimal(r.tally.symlinks as nat) + ",\"cloned_files\":"@ + decimal(r.tally.cloned_files as nat) + ",\"copied_files\":"@ + decimal(r.tally.copied_files as nat) + ",\"logical_bytes\":"@ + decimal(r.tally.logical_bytes as nat) + ",\"copied_bytes\":"@ + decimal(r.tally.copied_bytes as nat) + ",\"hardlinked_files\":"@, decimal(r.tally.hardlinked_files as nat), "logical_bytes"@, decimal(r.tally.logical_bytes as nat));
    lemma_field_extends("{\"ok\":true,\"source\":"@ + json_quote(r.source) + ",\"destination\":"@ + json_quote(r.destination) + ",\"filesystem\":"@ + json_quote(r.filesystem) + ",\"directories\":"@ + decimal(r.tally.directories as nat) + ",\"regular_files\":"@ + decimal(r.tally.regular_files as nat) + ",\"symlinks\":"@ + decimal(r.tally.symlinks as nat) + ",\"cloned_files\":"@ + decimal(r.tally.cloned_files as nat) + ",\"copied_files\":"@ + decimal(r.tally.copied_files as nat) + ",\"logical_bytes\":"@ + decimal(r.tally.logical_bytes as nat) + ",\"copied_bytes\":"@ + decimal(r.tally.copied_bytes as nat) + ",\"hardlinked_files\":"@ + decimal(r.tally.hardlinked_files as nat), ",\"swept_stages\":"@, "logical_bytes"@, decimal(r.tally.logical_bytes as nat));
    lemma_field_extends("{\"ok\":true,\"source\":"@ + json_quote(r.source) + ",\"destination\":"@ + json_quote(r.destination) + ",\"filesystem\":"@ + json_quote(r.filesystem) + ",\"directories\":"@ + decimal(r.tally.directories as nat) + ",\"regular_files\":"@ + decimal(r.tally.regular_files as nat) + ",\"symlinks\":"@ + decimal(r.tally.symlinks as nat) + ",\"cloned_files\":"@ + decimal(r.tally.cloned_files as nat) + ",\"copied_files\":"@ + decimal(r.tally.copied_files as nat) + ",\"logical_bytes\":"@ + decimal(r.tally.logical_bytes as nat) + ",\"copied_bytes\":"@ + decimal(r.tally.copied_bytes as nat) + ",\"hardlinked_files\":"@ + decimal(r.tally.hardlinked_files as nat) + ",\"swept_stages\":"@, json_list(r.swept_stages), "logical_bytes"@, decimal(r.tally.logical_bytes as nat));
    lemma_field_extends("{\"ok\":true,\"source\":"@ + json_quote(r.source) + ",\"destination\":"@ + json_quote(r.destination) + ",\"filesystem\":"@ + json_quote(r.filesystem) + ",\"directories\":"@ + decimal(r.tally.directories as nat) + ",\"regular_files\":"@ + decimal(r.tally.regular_files as nat) + ",\"symlinks\":"@ + decimal(r.tally.symlinks as nat) + ",\"cloned_files\":"@ + decimal(r.tally.cloned_files as nat) + ",\"copied_files\":"@ + decimal(r.tally.copied_files as nat) + ",\"logical_bytes\":"@ + decimal(r.tally.logical_bytes as nat) + ",\"copied_bytes\":"@ + decimal(r.tally.copied_bytes as nat) + ",\"hardlinked_files\":"@ + decimal(r.tally.hardlinked_files as nat) + ",\"swept_stages\":"@ + json_list(r.swept_stages), ",\"available_before\":"@, "logical_bytes"@, decimal(r.tally.logical_bytes as nat));
    lemma_field_extends("{\"ok\":true,\"source\":"@ + json_quote(r.source) + ",\"destination\":"@ + json_quote(r.destination) + ",\"filesystem\":"@ + json_quote(r.filesystem) + ",\"directories\":"@ + decimal(r.tally.directories as nat) + ",\"regular_files\":"@ + decimal(r.tally.regular_files as nat) + ",\"symlinks\":"@ + decimal(r.tally.symlinks as nat) + ",\"cloned_files\":"@ + decimal(r.tally.cloned_files as nat) + ",\"copied_files\":"@ + decimal(r.tally.copied_files as nat) + ",\"logical_bytes\":"@ + decimal(r.tally.logical_bytes as nat) + ",\"copied_bytes\":"@ + decimal(r.tally.copied_bytes as nat) + ",\"hardlinked_files\":"@ + decimal(r.tally.hardlinked_files as nat) + ",\"swept_stages\":"@ + json_list(r.swept_stages) + ",\"available_before\":"@, decimal(r.available_before as nat), "logical_bytes"@, decimal(r.tally.logical_bytes as nat));
    lemma_field_extends("{\"ok\":true,\"source\":"@ + json_quote(r.source) + ",\"destination\":"@ + json_quote(r.destination) + ",\"filesystem\":"@ + json_quote(r.filesystem) + ",\"directories\":"@ + decimal(r.tally.directories as nat) + ",\"regular_files\":"@ + decimal(r.tally.regular_files as nat) + ",\"symlinks\":"@ + decimal(r.tally.symlinks as nat) + ",\"cloned_files\":"@ + decimal(r.tally.cloned_files as nat) + ",\"copied_files\":"@ + decimal(r.tally.copied_files as nat) + ",\"logical_bytes\":"@ + decimal(r.tally.logical_bytes as nat) + ",\"copied_bytes\":"@ + decimal(r.tally.copied_bytes as nat) + ",\"hardlinked_files\":"@ + decimal(r.tally.hardlinked_files as nat) + ",\"swept_stages\":"@ + json_list(r.swept_stages) + ",\"available_before\":"@ + decimal(r.available_before as nat), ",\"available_after\":"@, "logical_bytes"@, decimal(r.tally.logical_bytes as nat));
    lemma_field_extends("{\"ok\":true,\"source\":"@ + json_quote(r.source) + ",\"destination\":"@ + json_quote(r.destination) + ",\"filesystem\":"@ + json_quote(r.filesystem) + ",\"directories\":"@ + decimal(r.tally.directories as nat) + ",\"regular_files\":"@ + decimal(r.tally.regular_files as nat) + ",\"symlinks\":"@ + decimal(r.tally.symlinks as nat) + ",\"cloned_files\":"@ + decimal(r.tally.cloned_files as nat) + ",\"copied_files\":"@ + decimal(r.tally.copied_files as nat) + ",\"logical_bytes\":"@ + decimal(r.tally.logical_bytes as nat) + ",\"copied_bytes\":"@ + decimal(r.tally.copied_bytes as nat) + ",\"hardlinked_files\":"@ + decimal(r.tally.hardlinked_files as nat) + ",\"swept_stages\":"@ + json_list(r.swept_stages) + ",\"available_before\":"@ + decimal(r.available_before as nat) + ",\"available_after\":"@, decimal(r.available_after as nat), "logical_bytes"@, decimal(r.tally.logical_bytes as nat));
    lemma_field_extends("{\"ok\":true,\"source\":"@ + json_quote(r.source) + ",\"destination\":"@ + json_quote(r.destination) + ",\"filesystem\":"@ + json_quote(r.filesystem) + ",\"directories\":"@ + decimal(r.tally.directories as nat) + ",\"regular_files\":"@ + decimal(r.tally.regular_files as nat) + ",\"symlinks\":"@ + decimal(r.tally.symlinks as nat) + ",\"cloned_files\":"@ + decimal(r.tally.cloned_files as nat) + ",\"copied_files\":"@ + decimal(r.tally.copied_files as nat) + ",\"logical_bytes\":"@ + decimal(r.tally.logical_bytes as nat) + ",\"copied_bytes\":"@ + decimal(r.tally.copied_bytes as nat) + ",\"hardlinked_files\":"@ + decimal(r.tally.hardlinked_files as nat) + ",\"swept_stages\":"@ + json_list(r.swept_stages) + ",\"available_before\":"@ + decimal(r.available_before as nat) + ",\"available_after\":"@ + decimal(r.available_after as nat), "}"@, "logical_bytes"@, decimal(r.tally.logical_bytes as nat));
}

proof fn lemma_receipt_reads_back_copied_bytes(r: ReceiptModel)
    ensures
        holds_field(receipt_text(r), "copied_bytes"@, decimal(r.tally.copied_bytes as nat)),
{
    reveal_strlit(",\"copied_bytes\":");
    reveal_strlit(",\"hardlinked_files\":");
    reveal_strlit("copied_bytes");
    assert(",\"copied_bytes\":"@ =~= seq![','] + field_key("copied_bytes"@));
    assert("{\"ok\":true,\"source\":"@ + json_quote(r.source) + ",\"destination\":"@ + json_quote(r.destination) + ",\"filesystem\":"@ + json_quote(r.filesystem) + ",\"directories\":"@ + decimal(r.tally.directories as nat) + ",\"regular_files\":"@ + decimal(r.tally.regular_files as nat) + ",\"symlinks\":"@ + decimal(r.tally.symlinks as nat) + ",\"cloned_files\":"@ + decimal(r.tally.cloned_files as nat) + ",\"copied_files\":"@ + decimal(r.tally.copied_files as nat) + ",\"logical_bytes\":"@ + decimal(r.tally.logical_bytes as nat) + ",\"copied_bytes\":"@ + decimal(r.tally.copied_bytes as nat) + ",\"hardlinked_files\":"@ =~= ("{\"ok\":true,\"source\":"@ + json_quote(r.source) + ",\"destination\":"@ + json_quote(r.destination) + ",\"filesystem\":"@ + json_quote(r.filesystem) + ",\"directories\":"@ + decimal(r.tally.directories as nat) + ",\"regular_files\":"@ + decimal(r.tally.regular_files as nat) + ",\"symlinks\":"@ + decimal(r.tally.symlinks as nat) + ",\"cloned_files\":"@ + decimal(r.tally.cloned_files as nat) + ",\"copied_files\":"@ + decimal(r.tally.copied_files as nat) + ",\"logical_bytes\":"@ + decimal(r.tally.logical_bytes as nat) + seq![',']) + field_key("copied_bytes"@) + decimal(r.tally.copied_bytes as nat) + ",\"hardlinked_files\":"@);
    lemma_field_found("{\"ok\":true,\"source\":"@ + json_quote(r.source) + ",\"destination\":"@ + json_quote(r.destination) + ",\"filesystem\":"@ + json_quote(r.filesystem) + ",\"directories\":"@ + decimal(r.tally.directories as nat) + ",\"regular_files\":"@ + decimal(r.tally.regular_files as nat) + ",\"symlinks\":"@ + decimal(r.tally.symlinks as nat) + ",\"cloned_files\":"@ + decimal(r.tally.cloned_files as nat) + ",\"copied_files\":"@ + decimal(r.tally.copied_files as nat) + ",\"logical_bytes\":"@ + decimal(r.tally.logical_bytes as nat) + seq![','], "copied_bytes"@, decimal(r.tally.copied_bytes as nat), ",\"hardlinked_files\":"@);
    lemma_field_extends("{\"ok\":true,\"source\":"@ + json_quote(r.source) + ",\"destination\":"@ + json_quote(r.destination) + ",\"filesystem\":"@ + json_quote(r.filesystem) + ",\"directories\":"@ + decimal(r.tally.directories as nat) + ",\"regular_files\":"@ + decimal(r.tally.regular_files as nat) + ",\"symlinks\":"@ + decimal(r.tally.symlinks as nat) + ",\"cloned_files\":"@ + decimal(r.tally.cloned_files as nat) + ",\"copied_files\":"@ + decimal(r.tally.copied_files as nat) + ",\"logical_bytes\":"@ + decimal(r.tally.logical_bytes as nat) + ",\"copied_bytes\":"@ + decimal(r.tally.copied_bytes as nat) + ",\"hardlinked_files\":"@, decimal(r.tally.hardlinked_files as nat), "copied_bytes"@, decimal(r.tally.copied_bytes as nat));
    lemma_field_extends("{\"ok\":true,\"source\":"@ + json_quote(r.source) + ",\"destination\":"@ + json_quote(r.destination) + ",\"filesystem\":"@ + json_quote(r.filesystem) + ",\"directories\":"@ + decimal(r.tally.directories as nat) + ",\"regular_files\":"@ + decimal(r.tally.regular_files as nat) + ",\"symlinks\":"@ + decimal(r.tally.symlinks as nat) + ",\"cloned_files\":"@ + decimal(r.tally.cloned_files as nat) + ",\"copied_files\":"@ + decimal(r.tally.copied_files as nat) + ",\"logical_bytes\":"@ + decimal(r.tally.logical_bytes as nat) + ",\"copied_bytes\":"@ + decimal(r.tally.copied_bytes as nat) + ",\"hardlinked_files\":"@ + decimal(r.tally.hardlinked_files as nat), ",\"swept_stages\":"@, "copied_bytes"@, decimal(r.tally.copied_bytes as nat));
    lemma_field_extends("{\"ok\":true,\"source\":"@ + json_quote(r.source) + ",\"destination\":"@ + json_quote(r.destination) + ",\"filesystem\":"@ + json_quote(r.filesystem) + ",\"directories\":"@ + decimal(r.tally.directories as nat) + ",\"regular_files\":"@ + decimal(r.tally.regular_files as nat) + ",\"symlinks\":"@ + decimal(r.tally.symlinks as nat) + ",\"cloned_files\":"@ + decimal(r.tally.cloned_files as nat) + ",\"copied_files\":"@ + decimal(r.tally.copied_files as nat) + ",\"logical_bytes\":"@ + decimal(r.tally.logical_bytes as nat) + ",\"copied_bytes\":"@ + decimal(r.tally.copied_bytes as nat) + ",\"hardlinked_files\":"@ + decimal(r.tally.hardlinked_files as nat) + ",\"swept_stages\":"@, json_list(r.swept_stages), "copied_bytes"@, decimal(r.tally.copied_bytes as nat));
    lemma_field_extends("{\"ok\":true,\"source\":"@ + json_quote(r.source) + ",\"destination\":"@ + json_quote(r.destination) + ",\"filesystem\":"@ + json_quote(r.filesystem) + ",\"directories\":"@ + decimal(r.tally.directories as nat) + ",\"regular_files\":"@ + decimal(r.tally.regular_files as nat) + ",\"symlinks\":"@ + decimal(r.tally.symlinks as nat) + ",\"cloned_files\":"@ + decimal(r.tally.cloned_files as nat) + ",\"copied_files\":"@ + decimal(r.tally.copied_files as nat) + ",\"logical_bytes\":"@ + decimal(r.tally.logical_bytes as nat) + ",\"copied_bytes\":"@ + decimal(r.tally.copied_bytes as nat) + ",\"hardlinked_files\":"@ + decimal(r.tally.hardlinked_files as nat) + ",\"swept_stages\":"@ + json_list(r.swept_stages), ",\"available_before\":"@, "copied_bytes"@, decimal(r.tally.copied_bytes as nat));
    lemma_field_extends("{\"ok\":true,\"source\":"@ + json_quote(r.source) + ",\"destination\":"@ + json_quote(r.destination) + ",\"filesystem\":"@ + json_quote(r.filesystem) + ",\"directories\":"@ + decimal(r.tally.directories as nat) + ",\"regular_files\":"@ + decimal(r.tally.regular_files as nat) + ",\"symlinks\":"@ + decimal(r.tally.symlinks as nat) + ",\"cloned_files\":"@ + decimal(r.tally.cloned_files as nat) + ",\"copied_files\":"@ + decimal(r.tally.copied_files as nat) + ",\"logical_bytes\":"@ + decimal(r.tally.logical_bytes as nat) + ",\"copied_bytes\":"@ + decimal(r.tally.copied_bytes as nat) + ",\"hardlinked_files\":"@ + decimal(r.tally.hardlinked_files as nat) + ",\"swept_stages\":"@ + json_list(r.swept_stages) + ",\"available_before\":"@, decimal(r.available_before as nat), "copied_bytes"@, decimal(r.tally.copied_bytes as nat));
    lemma_field_extends("{\"ok\":true,\"source\":"@ + json_quote(r.source) + ",\"destination\":"@ + json_quote(r.destination) + ",\"filesystem\":"@ + json_quote(r.filesystem) + ",\"directories\":"@ + decimal(r.tally.directories as nat) + ",\"regular_files\":"@ + decimal(r.tally.regular_files as nat) + ",\"symlinks\":"@ + decimal(r.tally.symlinks as nat) + ",\"cloned_files\":"@ + decimal(r.tally.cloned_files as nat) + ",\"copied_files\":"@ + decimal(r.tally.copied_files as nat) + ",\"logical_bytes\":"@ + decimal(r.tally.logical_bytes as nat) + ",\"copied_bytes\":"@ + decimal(r.tally.copied_bytes as nat) + ",\"hardlinked_files\":"@ + decimal(r.tally.hardlinked_files as nat) + ",\"swept_stages\":"@ + json_list(r.swept_stages) + ",\"available_before\":"@ + decimal(r.available_before as nat), ",\"available_after\":"@, "copied_bytes"@, decimal(r.tally.copied_bytes as nat));
    lemma_field_extends("{\"ok\":true,\"source\":"@ + json_quote(r.source) + ",\"destination\":"@ + json_quote(r.destination) + ",\"filesystem\":"@ + json_quote(r.filesystem) + ",\"directories\":"@ + decimal(r.tally.directories as nat) + ",\"regular_files\":"@ + decimal(r.tally.regular_files as nat) + ",\"symlinks\":"@ + decimal(r.tally.symlinks as nat) + ",\"cloned_files\":"@ + decimal(r.tally.cloned_files as nat) + ",\"copied_files\":"@ + decimal(r.tally.copied_files as nat) + ",\"logical_bytes\":"@ + decimal(r.tally.logical_bytes as nat) + ",\"copied_bytes\":"@ + decimal(r.tally.copied_bytes as nat) + ",\"hardlinked_files\":"@ + decimal(r.tally.hardlinked_files as nat) + ",\"swept_stages\":"@ + json_list(r.swept_stages) + ",\"available_before\":"@ + decimal(r.available_before as nat) + ",\"available_after\":"@, decimal(r.available_after as nat), "copied_bytes"@, decimal(r.tally.copied_bytes as nat));
    lemma_field_extends("{\"ok\":true,\"source\":"@ + json_quote(r.source) + ",\"destination\":"@ + json_quote(r.destination) + ",\"filesystem\":"@ + json_quote(r.filesystem) + ",\"directories\":"@ + decimal(r.tally.directories as nat) + ",\"regular_files\":"@ + decimal(r.tally.regular_files as nat) + ",\"symlinks\":"@ + decimal(r.tally.symlinks as nat) + ",\"cloned_files\":"@ + decimal(r.tally.cloned_files as nat) + ",\"copied_files\":"@ + decimal(r.tally.copied_files as nat) + ",\"logical_bytes\":"@ + decimal(r.tally.logical_bytes as nat) + ",\"copied_bytes\":"@ + decimal(r.tally.copied_bytes as nat) + ",\"hardlinked_files\":"@ + decimal(r.tally.hardlinked_files as nat) + ",\"swept_stages\":"@ + json_list(r.swept_stages) + ",\"available_before\":"@ + decimal(r.available_before as nat) + ",\"available_after\":"@ + decimal(r.available_after as nat), "}"@, "copied_bytes"@, decimal(r.tally.copied_bytes as nat));
}

proof fn lemma_receipt_reads_back_hardlinked_files(r: ReceiptModel)
    ensures
        holds_field(receipt_text(r), "hardlinked_files"@, decimal(r.tally.hardlinked_files as nat)),
{
    reveal_strlit(",\"hardlinked_files\":");
    reveal_strlit(",\"swept_stages\":");
    reveal_strlit("hardlinked_files");
    assert(",\"hardlinked_files\":"@ =~= seq![','] + field_key("hardlinked_files"@));
    assert("{\"ok\":true,\"source\":"@ + json_quote(r.source) + ",\"destination\":"@ + json_quote(r.destination) + ",\"filesystem\":"@ + json_quote(r.filesystem) + ",\"directories\":"@ + decimal(r.tally.directories as nat) + ",\"regular_files\":"@ + decimal(r.tally.regular_files as nat) + ",\"symlinks\":"@ + decimal(r.tally.symlinks as nat) + ",\"cloned_files\":"@ + decimal(r.tally.cloned_files as nat) + ",\"copied_files\":"@ + decimal(r.tally.copied_files as nat) + ",\"logical_bytes\":"@ + decimal(r.tally.logical_bytes as nat) + ",\"copied_bytes\":"@ + decimal(r.tally.copied_bytes as nat) + ",\"hardlinked_files\":"@ + decimal(r.tally.hardlinked_files as nat) + ",\"swept_stages\":"@ =~= ("{\"ok\":true,\"source\":"@ + json_quote(r.source) + ",\"destination\":"@ + json_quote(r.destination) + ",\"filesystem\":"@ + json_quote(r.filesystem) + ",\"directories\":"@ + decimal(r.tally.directories as nat) + ",\"regular_files\":"@ + decimal(r.tally.regular_files as nat) + ",\"symlinks\":"@ + decimal(r.tally.symlinks as nat) + ",\"cloned_files\":"@ + decimal(r.tally.cloned_files as nat) + ",\"copied_files\":"@ + decimal(r.tally.copied_files as nat) + ",\"logical_bytes\":"@ + decimal(r.tally.logical_bytes as nat) + ",\"copied_bytes\":"@ + decimal(r.tally.copied_bytes as nat) + seq![',']) + field_key("hardlinked_files"@) + decimal(r.tally.hardlinked_files as nat) + ",\"swept_stages\":"@);
    lemma_field_found("{\"ok\":true,\"source\":"@ + json_quote(r.source) + ",\"destination\":"@ + json_quote(r.destination) + ",\"filesystem\":"@ + json_quote(r.filesystem) + ",\"directories\":"@ + decimal(r.tally.directories as nat) + ",\"regular_files\":"@ + decimal(r.tally.regular_files as nat) + ",\"symlinks\":"@ + decimal(r.tally.symlinks as nat) + ",\"cloned_files\":"@ + decimal(r.tally.cloned_files as nat) + ",\"copied_files\":"@ + decimal(r.tally.copied_files as nat) + ",\"logical_bytes\":"@ + decimal(r.tally.logical_bytes as nat) + ",\"copied_bytes\":"@ + decimal(r.tally.copied_bytes as nat) + seq![','], "hardlinked_files"@, decimal(r.tally.hardlinked_files as nat), ",\"swept_stages\":"@);
    lemma_field_extends("{\"ok\":true,\"source\":"@ + json_quote(r.source) + ",\"destination\":"@ + json_quote(r.destination) + ",\"filesystem\":"@ + json_quote(r.filesystem) + ",\"directories\":"@ + decimal(r.tally.directories as nat) + ",\"regular_files\":"@ + decimal(r.tally.regular_files as nat) + ",\"symlinks\":"@ + decimal(r.tally.symlinks as nat) + ",\"cloned_files\":"@ + decimal(r.tally.cloned_files as nat) + ",\"copied_files\":"@ + decimal(r.tally.copied_files as nat) + ",\"logical_bytes\":"@ + decimal(r.tally.logical_bytes as nat) + ",\"copied_bytes\":"@ + decimal(r.tally.copied_bytes as nat) + ",\"hardlinked_files\":"@ + decimal(r.tally.hardlinked_files as nat) + ",\"swept_stages\":"@, json_list(r.swept_stages), "hardlinked_files"@, decimal(r.tally.hardlinked_files as nat));
    lemma_field_extends("{\"ok\":true,\"source\":"@ + json_quote(r.source) + ",\"destination\":"@ + json_quote(r.destination) + ",\"filesystem\":"@ + json_quote(r.filesystem) + ",\"directories\":"@ + decimal(r.tally.directories as nat) + ",\"regular_files\":"@ + decimal(r.tally.regular_files as nat) + ",\"symlinks\":"@ + decimal(r.tally.symlinks as nat) + ",\"cloned_files\":"@ + decimal(r.tally.cloned_files as nat) + ",\"copied_files\":"@ + decimal(r.tally.copied_files as nat) + ",\"logical_bytes\":"@ + decimal(r.tally.logical_bytes as nat) + ",\"copied_bytes\":"@ + decimal(r.tally.copied_bytes as nat) + ",\"hardlinked_files\":"@ + decimal(r.tally.hardlinked_files as nat) + ",\"swept_stages\":"@ + json_list(r.swept_stages), ",\"available_before\":"@, "hardlinked_files"@, decimal(r.tally.hardlinked_files as nat));
    lemma_field_extends("{\"ok\":true,\"source\":"@ + json_quote(r.source) + ",\"destination\":"@ + json_quote(r.destination) + ",\"filesystem\":"@ + json_quote(r.filesystem) + ",\"directories\":"@ + decimal(r.tally.directories as nat) + ",\"regular_files\":"@ + decimal(r.tally.regular_files as nat) + ",\"symlinks\":"@ + decimal(r.tally.symlinks as nat) + ",\"cloned_files\":"@ + decimal(r.tally.cloned_files as nat) + ",\"copied_files\":"@ + decimal(r.tally.copied_files as nat) + ",\"logical_bytes\":"@ + decimal(r.tally.logical_bytes as nat) + ",\"copied_bytes\":"@ + decimal(r.tally.copied_bytes as nat) + ",\"hardlinked_files\":"@ + decimal(r.tally.hardlinked_files as nat) + ",\"swept_stages\":"@ + json_list(r.swept_stages) + ",\"available_before\":"@, decimal(r.available_before as nat), "hardlinked_files"@, decimal(r.tally.hardlinked_files as nat));
    lemma_field_extends("{\"ok\":true,\"source\":"@ + json_quote(r.source) + ",\"destination\":"@ + json_quote(r.destination) + ",\"filesystem\":"@ + json_quote(r.filesystem) + ",\"directories\":"@ + decimal(r.tally.directories as nat) + ",\"regular_files\":"@ + decimal(r.tally.regular_files as nat) + ",\"symlinks\":"@ + decimal(r.tally.symlinks as nat) + ",\"cloned_files\":"@ + decimal(r.tally.cloned_files as nat) + ",\"copied_files\":"@ + decimal(r.tally.copied_files as nat) + ",\"logical_bytes\":"@ + decimal(r.tally.logical_bytes as nat) + ",\"copied_bytes\":"@ + decimal(r.tally.copied_bytes as nat) + ",\"hardlinked_files\":"@ + decimal(r.tally.hardlinked_files as nat) + ",\"swept_stages\":"@ + json_list(r.swept_stages) + ",\"available_before\":"@ + decimal(r.available_before as nat), ",\"available_after\":"@, "hardlinked_files"@, decimal(r.tally.hardlinked_files as nat));
    lemma_field_extends("{\"ok\":true,\"source\":"@ + json_quote(r.source) + ",\"destination\":"@ + json_quote(r.destination) + ",\"filesystem\":"@ + json_quote(r.filesystem) + ",\"directories\":"@ + decimal(r.tally.directories as nat) + ",\"regular_files\":"@ + decimal(r.tally.regular_files as nat) + ",\"symlinks\":"@ + decimal(r.tally.symlinks as nat) + ",\"cloned_files\":"@ + decimal(r.tally.cloned_files as nat) + ",\"copied_files\":"@ + decimal(r.tally.copied_files as nat) + ",\"logical_bytes\":"@ + decimal(r.tally.logical_bytes as nat) + ",\"copied_bytes\":"@ + decimal(r.tally.copied_bytes as nat) + ",\"hardlinked_files\":"@ + decimal(r.tally.hardlinked_files as nat) + ",\"swept_stages\":"@ + json_list(r.swept_stages) + ",\"available_before\":"@ + decimal(r.available_before as nat) + ",\"available_after\":"@, decimal(r.available_after as nat), "hardlinked_files"@, decimal(r.tally.hardlinked_files as nat));
    lemma_field_extends("{\"ok\":true,\"source\":"@ + json_quote(r.source) + ",\"destination\":"@ + json_quote(r.destination) + ",\"filesystem\":"@ + json_quote(r.filesystem) + ",\"directories\":"@ + decimal(r.tally.directories as nat) + ",\"regular_files\":"@ + decimal(r.tally.regular_files as nat) + ",\"symlinks\":"@ + decimal(r.tally.symlinks as nat) + ",\"cloned_files\":"@ + decimal(r.tally.cloned_files as nat) + ",\"copied_files\":"@ + decimal(r.tally.copied_files as nat) + ",\"logical_bytes\":"@ + decimal(r.tally.logical_bytes as nat) + ",\"copied_bytes\":"@ + decimal(r.tally.copied_bytes as nat) + ",\"hardlinked_files\":"@ + decimal(r.tally.hardlinked_files as nat) + ",\"swept_stages\":"@ + json_list(r.swept_stages) + ",\"available_before\":"@ + decimal(r.available_before as nat) + ",\"available_after\":"@ + decimal(r.available_after as nat), "}"@, "hardlinked_files"@, decimal(r.tally.hardlinked_files as nat));
}

proof fn lemma_receipt_reads_back_swept_stages(r: ReceiptModel)
    ensures
        holds_field(receipt_text(r), "swept_stages"@, json_list(r.swept_stages)),
{
    reveal_strlit(",\"available_before\":");
    reveal_strlit(",\"swept_stages\":");
    reveal_strlit("swept_stages");
    assert(",\"swept_stages\":"@ =~= seq![','] + field_key("swept_stages"@));
    assert("{\"ok\":true,\"source\":"@ + json_quote(r.source) + ",\"destination\":"@ + json_quote(r.destination) + ",\"filesystem\":"@ + json_quote(r.filesystem) + ",\"directories\":"@ + decimal(r.tally.directories as nat) + ",\"regular_files\":"@ + decimal(r.tally.regular_files as nat) + ",\"symlinks\":"@ + decimal(r.tally.symlinks as nat) + ",\"cloned_files\":"@ + decimal(r.tally.cloned_files as nat) + ",\"copied_files\":"@ + decimal(r.tally.copied_files as nat) + ",\"logical_bytes\":"@ + decimal(r.tally.logical_bytes as nat) + ",\"copied_bytes\":"@ + decimal(r.tally.copied_bytes as nat) + ",\"hardlinked_files\":"@ + decimal(r.tally.hardlinked_files as nat) + ",\"swept_stages\":"@ + json_list(r.swept_stages) + ",\"available_before\":"@ =~= ("{\"ok\":true,\"source\":"@ + json_quote(r.source) + ",\"destination\":"@ + json_quote(r.destination) + ",\"filesystem\":"@ + json_quote(r.filesystem) + ",\"directories\":"@ + decimal(r.tally.directories as nat) + ",\"regular_files\":"@ + decimal(r.tally.regular_files as nat) + ",\"symlinks\":"@ + decimal(r.tally.symlinks as nat) + ",\"cloned_files\":"@ + decimal(r.tally.cloned_files as nat) + ",\"copied_files\":"@ + decimal(r.tally.copied_files as nat) + ",\"logical_bytes\":"@ + decimal(r.tally.logical_bytes as nat) + ",\"copied_bytes\":"@ + decimal(r.tally.copied_bytes as nat) + ",\"hardlinked_files\":"@ + decimal(r.tally.hardlinked_files as nat) + seq![',']) + field_key("swept_stages"@) + json_list(r.swept_stages) + ",\"available_before\":"@);
    lemma_field_found("{\"ok\":true,\"source\":"@ + json_quote(r.source) + ",\"destination\":"@ + json_quote(r.destination) + ",\"filesystem\":"@ + json_quote(r.filesystem) + ",\"directories\":"@ + decimal(r.tally.directories as nat) + ",\"regular_files\":"@ + decimal(r.tally.regular_files as nat) + ",\"symlinks\":"@ + decimal(r.tally.symlinks as nat) + ",\"cloned_files\":"@ + decimal(r.tally.cloned_files as nat) + ",\"copied_files\":"@ + decimal(r.tally.copied_files as nat) + ",\"logical_bytes\":"@ + decimal(r.tally.logical_bytes as nat) + ",\"copied_bytes\":"@ + decimal(r.tally.copied_bytes as nat) + ",\"hardlinked_files\":"@ + decimal(r.tally.hardlinked_files as nat) + seq![','], "swept_stages"@, json_list(r.swept_stages), ",\"available_before\":"@);
    lemma_field_extends("{\"ok\":true,\"source\":"@ + json_quote(r.source) + ",\"destination\":"@ + json_quote(r.destination) + ",\"filesystem\":"@ + json_quote(r.filesystem) + ",\"directories\":"@ + decimal(r.tally.directories as nat) + ",\"regular_files\":"@ + decimal(r.tally.regular_files as nat) + ",\"symlinks\":"@ + decimal(r.tally.symlinks as nat) + ",\"cloned_files\":"@ + decimal(r.tally.cloned_files as nat) + ",\"copied_files\":"@ + decimal(r.tally.copied_files as nat) + ",\"logical_bytes\":"@ + decimal(r.tally.logical_bytes as nat) + ",\"copied_bytes\":"@ + decimal(r.tally.copied_bytes as nat) + ",\"hardlinked_files\":"@ + decimal(r.tally.hardlinked_files as nat) + ",\"swept_stages\":"@ + json_list(r.swept_stages) + ",\"available_before\":"@, decimal(r.available_before as nat), "swept_stages"@, json_list(r.swept_stages));
    lemma_field_extends("{\"ok\":true,\"source\":"@ + json_quote(r.source) + ",\"destination\":"@ + json_quote(r.destination) + ",\"filesystem\":"@ + json_quote(r.filesystem) + ",\"directories\":"@ + decimal(r.tally.directories as nat) + ",\"regular_files\":"@ + decimal(r.tally.regular_files as nat) + ",\"symlinks\":"@ + decimal(r.tally.symlinks as nat) + ",\"cloned_files\":"@ + decimal(r.tally.cloned_files as nat) + ",\"copied_files\":"@ + decimal(r.tally.copied_files as nat) + ",\"logical_bytes\":"@ + decimal(r.tally.logical_bytes as nat) + ",\"copied_bytes\":"@ + decimal(r.tally.copied_bytes as nat) + ",\"hardlinked_files\":"@ + decimal(r.tally.hardlinked_files as nat) + ",\"swept_stages\":"@ + json_list(r.swept_stages) + ",\"available_before\":"@ + decimal(r.available_before as nat), ",\"available_after\":"@, "swept_stages"@, json_list(r.swept_stages));
    lemma_field_extends("{\"ok\":true,\"source\":"@ + json_quote(r.source) + ",\"destination\":"@ + json_quote(r.destination) + ",\"filesystem\":"@ + json_quote(r.filesystem) + ",\"directories\":"@ + decimal(r.tally.directories as nat) + ",\"regular_files\":"@ + decimal(r.tally.regular_files as nat) + ",\"symlinks\":"@ + decimal(r.tally.symlinks as nat) + ",\"cloned_files\":"@ + decimal(r.tally.cloned_files as nat) + ",\"copied_files\":"@ + decimal(r.tally.copied_files as nat) + ",\"logical_bytes\":"@ + decimal(r.tally.logical_bytes as nat) + ",\"copied_bytes\":"@ + decimal(r.tally.copied_bytes as nat) + ",\"hardlinked_files\":"@ + decimal(r.tally.hardlinked_files as nat) + ",\"swept_stages\":"@ + json_list(r.swept_stages) + ",\"available_before\":"@ + decimal(r.available_before as nat) + ",\"available_after\":"@, decimal(r.available_after as nat), "swept_stages"@, json_list(r.swept_stages));
    lemma_field_extends("{\"ok\":true,\"source\":"@ + json_quote(r.source) + ",\"destination\":"@ + json_quote(r.destination) + ",\"filesystem\":"@ + json_quote(r.filesystem) + ",\"directories\":"@ + decimal(r.tally.directories as nat) + ",\"regular_files\":"@ + decimal(r.tally.regular_files as nat) + ",\"symlinks\":"@ + decimal(r.tally.symlinks as nat) + ",\"cloned_files\":"@ + decimal(r.tally.cloned_files as nat) + ",\"copied_files\":"@ + decimal(r.tally.copied_files as nat) + ",\"logical_bytes\":"@ + decimal(r.tally.logical_bytes as nat) + ",\"copied_bytes\":"@ + decimal(r.tally.copied_bytes as nat) + ",\"hardlinked_files\":"@ + decimal(r.tally.hardlinked_files as nat) + ",\"swept_stages\":"@ + json_list(r.swept_stages) + ",\"available_before\":"@ + decimal(r.available_before as nat) + ",\"available_after\":"@ + decimal(r.available_after as nat), "}"@, "swept_stages"@, json_list(r.swept_stages));
}

proof fn lemma_receipt_reads_back_available_before(r: ReceiptModel)
    ensures
        holds_field(receipt_text(r), "available_before"@, decimal(r.available_before as nat)),
{
    reveal_strlit(",\"available_after\":");
    reveal_strlit(",\"available_before\":");
    reveal_strlit("available_before");
    assert(",\"available_before\":"@ =~= seq![','] + field_key("available_before"@));
    assert("{\"ok\":true,\"source\":"@ + json_quote(r.source) + ",\"destination\":"@ + json_quote(r.destination) + ",\"filesystem\":"@ + json_quote(r.filesystem) + ",\"directories\":"@ + decimal(r.tally.directories as nat) + ",\"regular_files\":"@ + decimal(r.tally.regular_files as nat) + ",\"symlinks\":"@ + decimal(r.tally.symlinks as nat) + ",\"cloned_files\":"@ + decimal(r.tally.cloned_files as nat) + ",\"copied_files\":"@ + decimal(r.tally.copied_files as nat) + ",\"logical_bytes\":"@ + decimal(r.tally.logical_bytes as nat) + ",\"copied_bytes\":"@ + decimal(r.tally.copied_bytes as nat) + ",\"hardlinked_files\":"@ + decimal(r.tally.hardlinked_files as nat) + ",\"swept_stages\":"@ + json_list(r.swept_stages) + ",\"available_before\":"@ + decimal(r.available_before as nat) + ",\"available_after\":"@ =~= ("{\"ok\":true,\"source\":"@ + json_quote(r.source) + ",\"destination\":"@ + json_quote(r.destination) + ",\"filesystem\":"@ + json_quote(r.filesystem) + ",\"directories\":"@ + decimal(r.tally.directories as nat) + ",\"regular_files\":"@ + decimal(r.tally.regular_files as nat) + ",\"symlinks\":"@ + decimal(r.tally.symlinks as nat) + ",\"cloned_files\":"@ + decimal(r.tally.cloned_files as nat) + ",\"copied_files\":"@ + decimal(r.tally.copied_files as nat) + ",\"logical_bytes\":"@ + decimal(r.tally.logical_bytes as nat) + ",\"copied_bytes\":"@ + decimal(r.tally.copied_bytes as nat) + ",\"hardlinked_files\":"@ + decimal(r.tally.hardlinked_files as nat) + ",\"swept_stages\":"@ + json_list(r.swept_stages) + seq![',']) + field_key("available_before"@) + decimal(r.available_before as nat) + ",\"available_after\":"@);
    lemma_field_found("{\"ok\":true,\"source\":"@ + json_quote(r.source) + ",\"destination\":"@ + json_quote(r.destination) + ",\"filesystem\":"@ + json_quote(r.filesystem) + ",\"directories\":"@ + decimal(r.tally.directories as nat) + ",\"regular_files\":"@ + decimal(r.tally.regular_files as nat) + ",\"symlinks\":"@ + decimal(r.tally.symlinks as nat) + ",\"cloned_files\":"@ + decimal(r.tally.cloned_files as nat) + ",\"copied_files\":"@ + decimal(r.tally.copied_files as nat) + ",\"logical_bytes\":"@ + decimal(r.tally.logical_bytes as nat) + ",\"copied_bytes\":"@ + decimal(r.tally.copied_bytes as nat) + ",\"hardlinked_files\":"@ + decimal(r.tally.hardlinked_files as nat) + ",\"swept_stages\":"@ + json_list(r.swept_stages) + seq![','], "available_before"@, decimal(r.available_before as nat), ",\"available_after\":"@);
    lemma_field_extends("{\"ok\":true,\"source\":"@ + json_quote(r.source) + ",\"destination\":"@ + json_quote(r.destination) + ",\"filesystem\":"@ + json_quote(r.filesystem) + ",\"directories\":"@ + decimal(r.tally.directories as nat) + ",\"regular_files\":"@ + decimal(r.tally.regular_files as nat) + ",\"symlinks\":"@ + decimal(r.tally.symlinks as nat) + ",\"cloned_files\":"@ + decimal(r.tally.cloned_files as nat) + ",\"copied_files\":"@ + decimal(r.tally.copied_files as nat) + ",\"logical_bytes\":"@ + decimal(r.tally.logical_bytes as nat) + ",\"copied_bytes\":"@ + decimal(r.tally.copied_bytes as nat) + ",\"hardlinked_files\":"@ + decimal(r.tally.hardlinked_files as nat) + ",\"swept_stages\":"@ + json_list(r.swept_stages) + ",\"available_before\":"@ + decimal(r.available_before as nat) + ",\"available_after\":"@, decimal(r.available_after as nat), "available_before"@, decimal(r.available_before as nat));
    lemma_field_extends("{\"ok\":true,\"source\":"@ + json_quote(r.source) + ",\"destination\":"@ + json_quote(r.destination) + ",\"filesystem\":"@ + json_quote(r.filesystem) + ",\"directories\":"@ + decimal(r.tally.directories as nat) + ",\"regular_files\":"@ + decimal(r.tally.regular_files as nat) + ",\"symlinks\":"@ + decimal(r.tally.symlinks as nat) + ",\"cloned_files\":"@ + decimal(r.tally.cloned_files as nat) + ",\"copied_files\":"@ + decimal(r.tally.copied_files as nat) + ",\"logical_bytes\":"@ + decimal(r.tally.logical_bytes as nat) + ",\"copied_bytes\":"@ + decimal(r.tally.copied_bytes as nat) + ",\"hardlinked_files\":"@ + decimal(r.tally.hardlinked_files as nat) + ",\"swept_stages\":"@ + json_list(r.swept_stages) + ",\"available_before\":"@ + decimal(r.available_before as nat) + ",\"available_after\":"@ + decimal(r.available_after as nat), "}"@, "available_before"@, decimal(r.available_before as nat));
}

proof fn lemma_receipt_reads_back_available_after(r: ReceiptModel)
    ensures
        holds_field(receipt_text(r), "available_after"@, decimal(r.available_after as nat)),
{
    reveal_strlit(",\"available_after\":");
    reveal_strlit("available_after");
    reveal_strlit("}");
    assert(",\"available_after\":"@ =~= seq![','] + field_key("available_after"@));
    assert("{\"ok\":true,\"source\":"@ + json_quote(r.source) + ",\"destination\":"@ + json_quote(r.destination) + ",\"filesystem\":"@ + json_quote(r.filesystem) + ",\"directories\":"@ + decimal(r.tally.directories as nat) + ",\"regular_files\":"@ + decimal(r.tally.regular_files as nat) + ",\"symlinks\":"@ + decimal(r.tally.symlinks as nat) + ",\"cloned_files\":"@ + decimal(r.tally.cloned_files as nat) + ",\"copied_files\":"@ + decimal(r.tally.copied_files as nat) + ",\"logical_bytes\":"@ + decimal(r.tally.logical_bytes as nat) + ",\"copied_bytes\":"@ + decimal(r.tally.copied_bytes as nat) + ",\"hardlinked_files\":"@ + decimal(r.tally.hardlinked_files as nat) + ",\"swept_stages\":"@ + json_list(r.swept_stages) + ",\"available_before\":"@ + decimal(r.available_before as nat) + ",\"available_after\":"@ + decimal(r.available_after as nat) + "}"@ =~= ("{\"ok\":true,\"source\":"@ + json_quote(r.source) + ",\"destination\":"@ + json_quote(r.destination) + ",\"filesystem\":"@ + json_quote(r.filesystem) + ",\"directories\":"@ + decimal(r.tally.directories as nat) + ",\"regular_files\":"@ + decimal(r.tally.regular_files as nat) + ",\"symlinks\":"@ + decimal(r.tally.symlinks as nat) + ",\"cloned_files\":"@ + decimal(r.tally.cloned_files as nat) + ",\"copied_files\":"@ + decimal(r.tally.copied_files as nat) + ",\"logical_bytes\":"@ + decimal(r.tally.logical_bytes as nat) + ",\"copied_bytes\":"@ + decimal(r.tally.copied_bytes as nat) + ",\"hardlinked_files\":"@ + decimal(r.tally.hardlinked_files as nat) + ",\"swept_stages\":"@ + json_list(r.swept_stages) + ",\"available_before\":"@ + decimal(r.available_before as nat) + seq![',']) + field_key("available_after"@) + decimal(r.available_after as nat) + "}"@);
    lemma_field_found("{\"ok\":true,\"source\":"@ + json_quote(r.source) + ",\"destination\":"@ + json_quote(r.destination) + ",\"filesystem\":"@ + json_quote(r.filesystem) + ",\"directories\":"@ + decimal(r.tally.directories as nat) + ",\"regular_files\":"@ + decimal(r.tally.regular_files as nat) + ",\"symlinks\":"@ + decimal(r.tally.symlinks as nat) + ",\"cloned_files\":"@ + decimal(r.tally.cloned_files as nat) + ",\"copied_files\":"@ + decimal(r.tally.copied_files as nat) + ",\"logical_bytes\":"@ + decimal(r.tally.logical_bytes as nat) + ",\"copied_bytes\":"@ + decimal(r.tally.copied_bytes as nat) + ",\"hardlinked_files\":"@ + decimal(r.tally.hardlinked_files as nat) + ",\"swept_stages\":"@ + json_list(r.swept_stages) + ",\"available_before\":"@ + decimal(r.available_before as nat) + seq![','], "available_after"@, decimal(r.available_after as nat), "}"@);
}

/// A clone's JSON receipt reads back field by field: each key is followed
/// by exactly the value of that part of the receipt, and then by a
/// character that ends it.
pub proof fn lemma_receipt_reads_back(r: ReceiptModel)
    ensures
        holds_field(receipt_text(r), "source"@, json_quote(r.source)),
        holds_field(receipt_text(r), "destination"@, json_quote(r.destination)),
        holds_field(receipt_text(r), "filesystem"@, json_quote(r.filesystem)),
        holds_field(receipt_text(r), "directories"@, decimal(r.tally.directories as nat)),
        holds_field(receipt_text(r), "regular_files"@, decimal(r.tally.regular_files as nat)),
        holds_field(receipt_text(r), "symlinks"@, decimal(r.tally.symlinks as nat)),
        holds_field(receipt_text(r), "cloned_files"@, decimal(r.tally.cloned_files as nat)),
        holds_field(receipt_text(r), "copied_files"@, decimal(r.tally.copied_files as nat)),
        holds_field(receipt_text(r), "logical_bytes"@, decimal(r.tally.logical_bytes as nat)),
        holds_field(receipt_text(r), "copied_bytes"@, decimal(r.tally.copied_bytes as nat)),
        holds_field(receipt_text(r), "hardlinked_files"@, decimal(r.tally.hardlinked_files as nat)),
        holds_field(receipt_text(r), "swept_stages"@, json_list(r.swept_stages)),
        holds_field(receipt_text(r), "available_before"@, decimal(r.available_before as nat)),
        holds_field(receipt_text(r), "available_after"@, decimal(r.available_after as nat)),
{
    lemma_receipt_reads_back_source(r);
    lemma_receipt_reads_back_destination(r);
    lemma_receipt_reads_back_filesystem(r);
    lemma_receipt_reads_back_directories(r);
    lemma_receipt_reads_back_regular_files(r);
    lemma_receipt_reads_back_symlinks(r);
    lemma_receipt_reads_back_cloned_files(r);
    lemma_receipt_reads_back_copied_files(r);
    lemma_receipt_reads_back_logical_bytes(r);
    lemma_receipt_reads_back_copied_bytes(r);
    lemma_receipt_reads_back_hardlinked_files(r);
    lemma_receipt_reads_back_swept_stages(r);
    lemma_receipt_reads_back_available_before(r);
    lemma_receipt_reads_back_available_after(r);
}

proof fn lemma_plan_reads_back_source(p: PlanModel)
    ensures
        holds_field(plan_text(p), "source"@, json_quote(p.source)),
{
    reveal_strlit(",\"destination\":");
    reveal_strlit("source");
    reveal_strlit("{\"ok\":true,\"dry_run\":true,");
    reveal_strlit("{\"ok\":true,\"dry_run\":true,\"source\":");
    assert("{\"ok\":true,\"dry_run\":true,\"source\":"@ =~= "{\"ok\":true,\"dry_run\":true,"@ + field_key("source"@));
    assert("{\"ok\":true,\"dry_run\":true,\"source\":"@ + json_quote(p.source) + ",\"destination\":"@ =~= ("{\"ok\":true,\"dry_run\":true,"@) + field_key("source"@) + json_quote(p.source) + ",\"destination\":"@);
    lemma_field_found("{\"ok\":true,\"dry_run\":true,"@, "source"@, json_quote(p.source), ",\"destination\":"@);
    lemma_field_extends("{\"ok\":true,\"dry_run\":true,\"source\":"@ + json_quote(p.source) + ",\"destination\":"@, json_quote(p.destination), "source"@, json_quote(p.source));
    lemma_field_extends("{\"ok\":true,\"dry_run\":true,\"source\":"@ + json_quote(p.source) + ",\"destination\":"@ + json_quote(p.destination), ",\"cross_filesystem\":"@, "source"@, json_quote(p.source));
    lemma_field_extends("{\"ok\":true,\"dry_run\":true,\"source\":"@ + json_quote(p.source) + ",\"destination\":"@ + json_quote(p.destination) + ",\"cross_filesystem\":"@, (if p.cross_filesystem { "true"@ } else { "false"@ }), "source"@, json_quote(p.source));
    lemma_field_extends("{\"ok\":true,\"dry_run\":true,\"source\":"@ + json_quote(p.source) + ",\"destination\":"@ + json_quote(p.destination) + ",\"cross_filesystem\":"@ + (if p.cross_filesystem { "true"@ } else { "false"@ }), ",\"filesystem\":"@, "source"@, json_quote(p.source));
    lemma_field_extends("{\"ok\":true,\"dry_run\":true,\"source\":"@ + json_quote(p.source) + ",\"destination\":"@ + json_quote(p.destination) + ",\"cross_filesystem\":"@ + (if p.cross_filesystem { "true"@ } else { "false"@ }) + ",\"filesystem\":"@, json_quote(p.fs_type), "source"@, json_quote(p.source));
    lemma_field_extends("{\"ok\":true,\"dry_run\":true,\"source\":"@ + json_quote(p.source) + ",\"destination\":"@ + json_quote(p.destination) + ",\"cross_filesystem\":"@ + (if p.cross_filesystem { "true"@ } else { "false"@ }) + ",\"filesystem\":"@ + json_quote(p.fs_type), ",\"available_bytes\":"@, "source"@, json_quote(p.source));
    lemma_field_extends("{\"ok\":true,\"dry_run\":true,\"source\":"@ + json_quote(p.source) + ",\"destination\":"@ + json_quote(p.destination) + ",\"cross_filesystem\":"@ + (if p.cross_filesystem { "true"@ } else { "false"@ }) + ",\"filesystem\":"@ + json_quote(p.fs_type) + ",\"available_bytes\":"@, decimal(p.available_bytes as nat), "source"@, json_quote(p.source));
    lemma_field_extends("{\"ok\":true,\"dry_run\":true,\"source\":"@ + json_quote(p.source) + ",\"destination\":"@ + json_quote(p.destination) + ",\"cross_filesystem\":"@ + (if p.cross_filesystem { "true"@ } else { "false"@ }) + ",\"filesystem\":"@ + json_quote(p.fs_type) + ",\"available_bytes\":"@ + decimal(p.available_bytes as nat), "}"@, "source"@, json_quote(p.source));
}

proof fn lemma_plan_reads_back_destination(p: PlanModel)
    ensures
        holds_field(plan_text(p), "destination"@, json_quote(p.destination)),
{
    reveal_strlit(",\"cross_filesystem\":");
    reveal_strlit(",\"destination\":");
    reveal_strlit("destination");
    assert(",\"destination\":"@ =~= seq![','] + field_key("destination"@));
    assert("{\"ok\":true,\"dry_run\":true,\"source\":"@ + json_quote(p.source) + ",\"destination\":"@ + json_quote(p.destination) + ",\"cross_filesystem\":"@ =~= ("{\"ok\":true,\"dry_run\":true,\"source\":"@ + json_quote(p.source) + seq![',']) + field_key("destination"@) + json_quote(p.destination) + ",\"cross_filesystem\":"@);
    lemma_field_found("{\"ok\":true,\"dry_run\":true,\"source\":"@ + json_quote(p.source) + seq![','], "destination"@, json_quote(p.destination), ",\"cross_filesystem\":"@);
    lemma_field_extends("{\"ok\":true,\"dry_run\":true,\"source\":"@ + json_quote(p.source) + ",\"destination\":"@ + json_quote(p.destination) + ",\"cross_filesystem\":"@, (if p.cross_filesystem { "true"@ } else { "false"@ }), "destination"@, json_quote(p.destination));
    lemma_field_extends("{\"ok\":true,\"dry_run\":true,\"source\":"@ + json_quote(p.source) + ",\"destination\":"@ + json_quote(p.destination) + ",\"cross_filesystem\":"@ + (if p.cross_filesystem { "true"@ } else { "false"@ }), ",\"filesystem\":"@, "destination"@, json_quote(p.destination));
    lemma_field_extends("{\"ok\":true,\"dry_run\":true,\"source\":"@ + json_quote(p.source) + ",\"destination\":"@ + json_quote(p.destination) + ",\"cross_filesystem\":"@ + (if p.cross_filesystem { "true"@ } else { "false"@ }) + ",\"filesystem\":"@, json_quote(p.fs_type), "destination"@, json_quote(p.destination));
    lemma_field_extends("{\"ok\":true,\"dry_run\":true,\"source\":"@ + json_quote(p.source) + ",\"destination\":"@ + json_quote(p.destination) + ",\"cross_filesystem\":"@ + (if p.cross_filesystem { "true"@ } else { "false"@ }) + ",\"filesystem\":"@ + json_quote(p.fs_type), ",\"available_bytes\":"@, "destination"@, json_quote(p.destination));
    lemma_field_extends("{\"ok\":true,\"dry_run\":true,\"source\":"@ + json_quote(p.source) + ",\"destination\":"@ + json_quote(p.destination) + ",\"cross_filesystem\":"@ + (if p.cross_filesystem { "true"@ } else { "false"@ }) + ",\"filesystem\":"@ + json_quote(p.fs_type) + ",\"available_bytes\":"@, decimal(p.available_bytes as nat), "destination"@, json_quote(p.destination));
    lemma_field_extends("{\"ok\":true,\"dry_run\":true,\"source\":"@ + json_quote(p.source) + ",\"destination\":"@ + json_quote(p.destination) + ",\"cross_filesystem\":"@ + (if p.cross_filesystem { "true"@ } else { "false"@ }) + ",\"filesystem\":"@ + json_quote(p.fs_type) + ",\"available_bytes\":"@ + decimal(p.available_bytes as nat), "}"@, "destination"@, json_quote(p.destination));
}

proof fn lemma_plan_reads_back_cross_filesystem(p: PlanModel)
    ensures
        holds_field(plan_text(p), "cross_filesystem"@, (if p.cross_filesystem { "true"@ } else { "false"@ })),
{
    reveal_strlit(",\"cross_filesystem\":");
    reveal_strlit(",\"filesystem\":");
    reveal_strlit("cross_filesystem");
    assert(",\"cross_filesystem\":"@ =~= seq![','] + field_key("cross_filesystem"@));
    assert("{\"ok\":true,\"dry_run\":true,\"source\":"@ + json_quote(p.source) + ",\"destination\":"@ + json_quote(p.destination) + ",\"cross_filesystem\":"@ + (if p.cross_filesystem { "true"@ } else { "false"@ }) + ",\"filesystem\":"@ =~= ("{\"ok\":true,\"dry_run\":true,\"source\":"@ + json_quote(p.source) + ",\"destination\":"@ + json_quote(p.destination) + seq![',']) + field_key("cross_filesystem"@) + (if p.cross_filesystem { "true"@ } else { "false"@ }) + ",\"filesystem\":"@);
    lemma_field_found("{\"ok\":true,\"dry_run\":true,\"source\":"@ + json_quote(p.source) + ",\"destination\":"@ + json_quote(p.destination) + seq![','], "cross_filesystem"@, (if p.cross_filesystem { "true"@ } else { "false"@ }), ",\"filesystem\":"@);
    lemma_field_extends("{\"ok\":true,\"dry_run\":true,\"source\":"@ + json_quote(p.source) + ",\"destination\":"@ + json_quote(p.destination) + ",\"cross_filesystem\":"@ + (if p.cross_filesystem { "true"@ } else { "false"@ }) + ",\"filesystem\":"@, json_quote(p.fs_type), "cross_filesystem"@, (if p.cross_filesystem { "true"@ } else { "false"@ }));
    lemma_field_extends("{\"ok\":true,\"dry_run\":true,\"source\":"@ + json_quote(p.source) + ",\"destination\":"@ + json_quote(p.destination) + ",\"cross_filesystem\":"@ + (if p.cross_filesystem { "true"@ } else { "false"@ }) + ",\"filesystem\":"@ + json_quote(p.fs_type), ",\"available_bytes\":"@, "cross_filesystem"@, (if p.cross_filesystem { "true"@ } else { "false"@ }));
    lemma_field_extends("{\"ok\":true,\"dry_run\":true,\"source\":"@ + json_quote(p.source) + ",\"destination\":"@ + json_quote(p.destination) + ",\"cross_filesystem\":"@ + (if p.cross_filesystem { "true"@ } else { "false"@ }) + ",\"filesystem\":"@ + json_quote(p.fs_type) + ",\"available_bytes\":"@, decimal(p.available_bytes as nat), "cross_filesystem"@, (if p.cross_filesystem { "true"@ } else { "false"@ }));
    lemma_field_extends("{\"ok\":true,\"dry_run\":true,\"source\":"@ + json_quote(p.source) + ",\"destination\":"@ + json_quote(p.destination) + ",\"cross_filesystem\":"@ + (if p.cross_filesystem { "true"@ } else { "false"@ }) + ",\"filesystem\":"@ + json_quote(p.fs_type) + ",\"available_bytes\":"@ + decimal(p.available_bytes as nat), "}"@, "cross_filesystem"@, (if p.cross_filesystem { "true"@ } else { "false"@ }));
}

proof fn lemma_plan_reads_back_filesystem(p: PlanModel)
    ensures
        holds_field(plan_text(p), "filesystem"@, json_quote(p.fs_type)),
{
    reveal_strlit(",\"available_bytes\":");
    reveal_strlit(",\"filesystem\":");
    reveal_strlit("filesystem");
    assert(",\"filesystem\":"@ =~= seq![','] + field_key("filesystem"@));
    assert("{\"ok\":true,\"dry_run\":true,\"source\":"@ + json_quote(p.source) + ",\"destination\":"@ + json_quote(p.destination) + ",\"cross_filesystem\":"@ + (if p.cross_filesystem { "true"@ } else { "false"@ }) + ",\"filesystem\":"@ + json_quote(p.fs_type) + ",\"available_bytes\":"@ =~= ("{\"ok\":true,\"dry_run\":true,\"source\":"@ + json_quote(p.source) + ",\"destination\":"@ + json_quote(p.destination) + ",\"cross_filesystem\":"@ + (if p.cross_filesystem { "true"@ } else { "false"@ }) + seq![',']) + field_key("filesystem"@) + json_quote(p.fs_type) + ",\"available_bytes\":"@);
    lemma_field_found("{\"ok\":true,\"dry_run\":true,\"source\":"@ + json_quote(p.source) + ",\"destination\":"@ + json_quote(p.destination) + ",\"cross_filesystem\":"@ + (if p.cross_filesystem { "true"@ } else { "false"@ }) + seq![','], "filesystem"@, json_quote(p.fs_type), ",\"available_bytes\":"@);
    lemma_field_extends("{\"ok\":true,\"dry_run\":true,\"source\":"@ + json_quote(p.source) + ",\"destination\":"@ + json_quote(p.destination) + ",\"cross_filesystem\":"@ + (if p.cross_filesystem { "true"@ } else { "false"@ }) + ",\"filesystem\":"@ + json_quote(p.fs_type) + ",\"available_bytes\":"@, decimal(p.available_bytes as nat), "filesystem"@, json_quote(p.fs_type));
    lemma_field_extends("{\"ok\":true,\"dry_run\":true,\"source\":"@ + json_quote(p.source) + ",\"destination\":"@ + json_quote(p.destination) + ",\"cross_filesystem\":"@ + (if p.cross_filesystem { "true"@ } else { "false"@ }) + ",\"filesystem\":"@ + json_quote(p.fs_type) + ",\"available_bytes\":"@ + decimal(p.available_bytes as nat), "}"@, "filesystem"@, json_quote(p.fs_type));
}

proof fn lemma_plan_reads_back_available_bytes(p: PlanModel)
    ensures
        holds_field(plan_text(p), "available_bytes"@, decimal(p.available_bytes as nat)),
{
    reveal_strlit(",\"available_bytes\":");
    reveal_strlit("available_bytes");
    reveal_strlit("}");
    assert(",\"available_bytes\":"@ =~= seq![','] + field_key("available_bytes"@));
    assert("{\"ok\":true,\"dry_run\":true,\"source\":"@ + json_quote(p.source) + ",\"destination\":"@ + json_quote(p.destination) + ",\"cross_filesystem\":"@ + (if p.cross_filesystem { "true"@ } else { "false"@ }) + ",\"filesystem\":"@ + json_quote(p.fs_type) + ",\"available_bytes\":"@ + decimal(p.available_bytes as nat) + "}"@ =~= ("{\"ok\":true,\"dry_run\":true,\"source\":"@ + json_quote(p.source) + ",\"destination\":"@ + json_quote(p.destination) + ",\"cross_filesystem\":"@ + (if p.cross_filesystem { "true"@ } else { "false"@ }) + ",\"filesystem\":"@ + json_quote(p.fs_type) + seq![',']) + field_key("available_bytes"@) + decimal(p.available_bytes as nat) + "}"@);
    lemma_field_found("{\"ok\":true,\"dry_run\":true,\"source\":"@ + json_quote(p.source) + ",\"destination\":"@ + json_quote(p.destination) + ",\"cross_filesystem\":"@ + (if p.cross_filesystem { "true"@ } else { "false"@ }) + ",\"filesystem\":"@ + json_quote(p.fs_type) + seq![','], "available_bytes"@, decimal(p.available_bytes as nat), "}"@);
}

/// A dry run's JSON reads back field by field: in particular
/// `"cross_filesystem"` is followed by `true` exactly when the plan
/// crosses filesystems.
pub proof fn lemma_plan_reads_back(p: PlanModel)
    ensures
        holds_field(plan_text(p), "source"@, json_quote(p.source)),
        holds_field(plan_text(p), "destination"@, json_quote(p.destination)),
        holds_field(plan_text(p), "cross_filesystem"@, (if p.cross_filesystem { "true"@ } else { "false"@ })),
        holds_field(plan_text(p), "filesystem"@, json_quote(p.fs_type)),
        holds_field(plan_text(p), "available_bytes"@, decimal(p.available_bytes as nat)),
{
    lemma_plan_reads_back_source(p);
    lemma_plan_reads_back_destination(p);
    lemma_plan_reads_back_cross_filesystem(p);
    lemma_plan_reads_back_filesystem(p);
    lemma_plan_reads_back_available_bytes(p);
}

proof fn lemma_usage_reads_back_path(path: Seq<char>, u: Usage)
    ensures
        holds_field(usage_text(path, u), "path"@, json_quote(path)),
{
    reveal_strlit(",\"files\":");
    reveal_strlit("path");
    reveal_strlit("{");
    reveal_strlit("{\"path\":");
    assert("{\"path\":"@ =~= "{"@ + field_key("path"@));
    assert("{\"path\":"@ + json_quote(path) + ",\"files\":"@ =~= ("{"@) + field_key("path"@) + json_quote(path) + ",\"files\":"@);
    lemma_field_found("{"@, "path"@, json_quote(path), ",\"files\":"@);
    lemma_field_extends("{\"path\":"@ + json_quote(path) + ",\"files\":"@, decimal(u.files as nat), "path"@, json_quote(path));
    lemma_field_extends("{\"path\":"@ + json_quote(path) + ",\"files\":"@ + decimal(u.files as nat), ",\"logical_bytes\":"@, "path"@, json_quote(path));
    lemma_field_extends("{\"path\":"@ + json_quote(path) + ",\"files\":"@ + decimal(u.files as nat) + ",\"logical_bytes\":"@, decimal(u.logical_bytes as nat), "path"@, json_quote(path));
    lemma_field_extends("{\"path\":"@ + json_quote(path) + ",\"files\":"@ + decimal(u.files as nat) + ",\"logical_bytes\":"@ + decimal(u.logical_bytes as nat), ",\"allocated_bytes\":"@, "path"@, json_quote(path));
    lemma_field_extends("{\"path\":"@ + json_quote(path) + ",\"files\":"@ + decimal(u.files as nat) + ",\"logical_bytes\":"@ + decimal(u.logical_bytes as nat) + ",\"allocated_bytes\":"@, decimal(u.allocated_bytes as nat), "path"@, json_quote(path));
    lemma_field_extends("{\"path\":"@ + json_quote(path) + ",\"files\":"@ + decimal(u.files as nat) + ",\"logical_bytes\":"@ + decimal(u.logical_bytes as nat) + ",\"allocated_bytes\":"@ + decimal(u.allocated_bytes as nat), ",\"private_bytes\":"@, "path"@, json_quote(path));
    lemma_field_extends("{\"path\":"@ + json_quote(path) + ",\"files\":"@ + decimal(u.files as nat) + ",\"logical_bytes\":"@ + decimal(u.logical_bytes as nat) + ",\"allocated_bytes\":"@ + decimal(u.allocated_bytes as nat) + ",\"private_bytes\":"@, (match u.private_bytes { Some(b) => decimal(b as nat), None => "null"@ }), "path"@, json_quote(path));
    lemma_field_extends("{\"path\":"@ + json_quote(path) + ",\"files\":"@ + decimal(u.files as nat) + ",\"logical_bytes\":"@ + decimal(u.logical_bytes as nat) + ",\"allocated_bytes\":"@ + decimal(u.allocated_bytes as nat) + ",\"private_bytes\":"@ + (match u.private_bytes { Some(b) => decimal(b as nat), None => "null"@ }), "}"@, "path"@, json_quote(path));
}

proof fn lemma_usage_reads_back_files(path: Seq<char>, u: Usage)
    ensures
        holds_field(usage_text(path, u), "files"@, decimal(u.files as nat)),
{
    reveal_strlit(",\"files\":");
    reveal_strlit(",\"logical_bytes\":");
    reveal_strlit("files");
    assert(",\"files\":"@ =~= seq![','] + field_key("files"@));
    assert("{\"path\":"@ + json_quote(path) + ",\"files\":"@ + decimal(u.files as nat) + ",\"logical_bytes\":"@ =~= ("{\"path\":"@ + json_quote(path) + seq![',']) + field_key("files"@) + decimal(u.files as nat) + ",\"logical_bytes\":"@);
    lemma_field_found("{\"path\":"@ + json_quote(path) + seq![','], "files"@, decimal(u.files as nat), ",\"logical_bytes\":"@);
    lemma_field_extends("{\"path\":"@ + json_quote(path) + ",\"files\":"@ + decimal(u.files as nat) + ",\"logical_bytes\":"@, decimal(u.logical_bytes as nat), "files"@, decimal(u.files as nat));
    lemma_field_extends("{\"path\":"@ + json_quote(path) + ",\"files\":"@ + decimal(u.files as nat) + ",\"logical_bytes\":"@ + decimal(u.logical_bytes as nat), ",\"allocated_bytes\":"@, "files"@, decimal(u.files as nat));
    lemma_field_extends("{\"path\":"@ + json_quote(path) + ",\"files\":"@ + decimal(u.files as nat) + ",\"logical_bytes\":"@ + decimal(u.logical_bytes as nat) + ",\"allocated_bytes\":"@, decimal(u.allocated_bytes as nat), "files"@, decimal(u.files as nat));
    lemma_field_extends("{\"path\":"@ + json_quote(path) + ",\"files\":"@ + decimal(u.files as nat) + ",\"logical_bytes\":"@ + decimal(u.logical_bytes as nat) + ",\"allocated_bytes\":"@ + decimal(u.allocated_bytes as nat), ",\"private_bytes\":"@, "files"@, decimal(u.files as nat));
    lemma_field_extends("{\"path\":"@ + json_quote(path) + ",\"files\":"@ + decimal(u.files as nat) + ",\"logical_bytes\":"@ + decimal(u.logical_bytes as nat) + ",\"allocated_bytes\":"@ + decimal(u.allocated_bytes as nat) + ",\"private_bytes\":"@, (match u.private_bytes { Some(b) => decimal(b as nat), None => "null"@ }), "files"@, decimal(u.files as nat));
    lemma_field_extends("{\"path\":"@ + json_quote(path) + ",\"files\":"@ + decimal(u.files as nat) + ",\"logical_bytes\":"@ + decimal(u.logical_bytes as nat) + ",\"allocated_bytes\":"@ + decimal(u.allocated_bytes as nat) + ",\"private_bytes\":"@ + (match u.private_bytes { Some(b) => decimal(b as nat), None => "null"@ }), "}"@, "files"@, decimal(u.files as nat));
}

proof fn lemma_usage_reads_back_logical_bytes(path: Seq<char>, u: Usage)
    ensures
        holds_field(usage_text(path, u), "logical_bytes"@, decimal(u.logical_bytes as nat)),
{
    reveal_strlit(",\"allocated_bytes\":");
    reveal_strlit(",\"logical_bytes\":");
    reveal_strlit("logical_bytes");
    assert(",\"logical_bytes\":"@ =~= seq![','] + field_key("logical_bytes"@));
    assert("{\"path\":"@ + json_quote(path) + ",\"files\":"@ + decimal(u.files as nat) + ",\"logical_bytes\":"@ + decimal(u.logical_bytes as nat) + ",\"allocated_bytes\":"@ =~= ("{\"path\":"@ + json_quote(path) + ",\"files\":"@ + decimal(u.files as nat) + seq![',']) + field_key("logical_bytes"@) + decimal(u.logical_bytes as nat) + ",\"allocated_bytes\":"@);
    lemma_field_found("{\"path\":"@ + json_quote(path) + ",\"files\":"@ + decimal(u.files as nat) + seq![','], "logical_bytes"@, decimal(u.logical_bytes as nat), ",\"allocated_bytes\":"@);
    lemma_field_extends("{\"path\":"@ + json_quote(path) + ",\"files\":"@ + decimal(u.files as nat) + ",\"logical_bytes\":"@ + decimal(u.logical_bytes as nat) + ",\"allocated_bytes\":"@, decimal(u.allocated_bytes as nat), "logical_bytes"@, decimal(u.logical_bytes as nat));
    lemma_field_extends("{\"path\":"@ + json_quote(path) + ",\"files\":"@ + decimal(u.files as nat) + ",\"logical_bytes\":"@ + decimal(u.logical_bytes as nat) + ",\"allocated_bytes\":"@ + decimal(u.allocated_bytes as nat), ",\"private_bytes\":"@, "logical_bytes"@, decimal(u.logical_bytes as nat));
    lemma_field_extends("{\"path\":"@ + json_quote(path) + ",\"files\":"@ + decimal(u.files as nat) + ",\"logical_bytes\":"@ + decimal(u.logical_bytes as nat) + ",\"allocated_bytes\":"@ + decimal(u.allocated_bytes as nat) + ",\"private_bytes\":"@, (match u.private_bytes { Some(b) => decimal(b as nat), None => "null"@ }), "logical_bytes"@, decimal(u.logical_bytes as nat));
    lemma_field_extends("{\"path\":"@ + json_quote(path) + ",\"files\":"@ + decimal(u.files as nat) + ",\"logical_bytes\":"@ + decimal(u.logical_bytes as nat) + ",\"allocated_bytes\":"@ + decimal(u.allocated_bytes as nat) + ",\"private_bytes\":"@ + (match u.private_bytes { Some(b) => decimal(b as nat), None => "null"@ }), "}"@, "logical_bytes"@, decimal(u.logical_bytes as nat));
}

proof fn lemma_usage_reads_back_allocated_bytes(path: Seq<char>, u: Usage)
    ensures
        holds_field(usage_text(path, u), "allocated_bytes"@, decimal(u.allocated_bytes as nat)),
{
    reveal_strlit(",\"allocated_bytes\":");
    reveal_strlit(",\"private_bytes\":");
    reveal_strlit("allocated_bytes");
    assert(",\"allocated_bytes\":"@ =~= seq![','] + field_key("allocated_bytes"@));
    assert("{\"path\":"@ + json_quote(path) + ",\"files\":"@ + decimal(u.files as nat) + ",\"logical_bytes\":"@ + decimal(u.logical_bytes as nat) + ",\"allocated_bytes\":"@ + decimal(u.allocated_bytes as nat) + ",\"private_bytes\":"@ =~= ("{\"path\":"@ + json_quote(path) + ",\"files\":"@ + decimal(u.files as nat) + ",\"logical_bytes\":"@ + decimal(u.logical_bytes as nat) + seq![',']) + field_key("allocated_bytes"@) + decimal(u.allocated_bytes as nat) + ",\"private_bytes\":"@);
    lemma_field_found("{\"path\":"@ + json_quote(path) + ",\"files\":"@ + decimal(u.files as nat) + ",\"logical_bytes\":"@ + decimal(u.logical_bytes as nat) + seq![','], "allocated_bytes"@, decimal(u.allocated_bytes as nat), ",\"private_bytes\":"@);
    lemma_field_extends("{\"path\":"@ + json_quote(path) + ",\"files\":"@ + decimal(u.files as nat) + ",\"logical_bytes\":"@ + decimal(u.logical_bytes as nat) + ",\"allocated_bytes\":"@ + decimal(u.allocated_bytes as nat) + ",\"private_bytes\":"@, (match u.private_bytes { Some(b) => decimal(b as nat), None => "null"@ }), "allocated_bytes"@, decimal(u.allocated_bytes as nat));
    lemma_field_extends("{\"path\":"@ + json_quote(path) + ",\"files\":"@ + decimal(u.files as nat) + ",\"logical_bytes\":"@ + decimal(u.logical_bytes as nat) + ",\"allocated_bytes\":"@ + decimal(u.allocated_bytes as nat) + ",\"private_bytes\":"@ + (match u.private_bytes { Some(b) => decimal(b as nat), None => "null"@ }), "}"@, "allocated_bytes"@, decimal(u.allocated_bytes as nat));
}

proof fn lemma_usage_reads_back_private_bytes(path: Seq<char>, u: Usage)
    ensures
        holds_field(usage_text(path, u), "private_bytes"@, (match u.private_bytes { Some(b) => decimal(b as nat), None => "null"@ })),
{
    reveal_strlit(",\"private_bytes\":");
    reveal_strlit("private_bytes");
    reveal_strlit("}");
    assert(",\"private_bytes\":"@ =~= seq![','] + field_key("private_bytes"@));
    assert("{\"path\":"@ + json_quote(path) + ",\"files\":"@ + decimal(u.files as nat) + ",\"logical_bytes\":"@ + decimal(u.logical_bytes as nat) + ",\"allocated_bytes\":"@ + decimal(u.allocated_bytes as nat) + ",\"private_bytes\":"@ + (match u.private_bytes { Some(b) => decimal(b as nat), None => "null"@ }) + "}"@ =~= ("{\"path\":"@ + json_quote(path) + ",\"files\":"@ + decimal(u.files as nat) + ",\"logical_bytes\":"@ + decimal(u.logical_bytes as nat) + ",\"allocated_bytes\":"@ + decimal(u.allocated_bytes as nat) + seq![',']) + field_key("private_bytes"@) + (match u.private_bytes { Some(b) => decimal(b as nat), None => "null"@ }) + "}"@);
    lemma_field_found("{\"path\":"@ + json_quote(path) + ",\"files\":"@ + decimal(u.files as nat) + ",\"logical_bytes\":"@ + decimal(u.logical_bytes as nat) + ",\"allocated_bytes\":"@ + decimal(u.allocated_bytes as nat) + seq![','], "private_bytes"@, (match u.private_bytes { Some(b) => decimal(b as nat), None => "null"@ }), "}"@);
}

/// A measurement's JSON reads back field by field.
pub proof fn lemma_usage_reads_back(path: Seq<char>, u: Usage)
    ensures
        holds_field(usage_text(path, u), "path"@, json_quote(path)),
        holds_field(usage_text(path, u), "files"@, decimal(u.files as nat)),
        holds_field(usage_text(path, u), "logical_bytes"@, decimal(u.logical_bytes as nat)),
        holds_field(usage_text(path, u), "allocated_bytes"@, decimal(u.allocated_bytes as nat)),
        holds_field(usage_text(path, u), "private_bytes"@, (match u.private_bytes { Some(b) => decimal(b as nat), None => "null"@ })),
{
    lemma_usage_reads_back_path(path, u);
    lemma_usage_reads_back_files(path, u);
    lemma_usage_reads_back_logical_bytes(path, u);
    lemma_usage_reads_back_allocated_bytes(path, u);
    lemma_usage_reads_back_private_bytes(path, u);
}

proof fn lemma_error_reads_back_kind(e: ErrorModel)
    ensures
        holds_field(error_text(e), "kind"@, json_quote(kind_name(e.kind))),
{
    reveal_strlit(",\"path\":");
    reveal_strlit("kind");
    reveal_strlit("{\"ok\":false,\"error\":{");
    reveal_strlit("{\"ok\":false,\"error\":{\"kind\":");
    assert("{\"ok\":false,\"error\":{\"kind\":"@ =~= "{\"ok\":false,\"error\":{"@ + field_key("kind"@));
    assert("{\"ok\":false,\"error\":{\"kind\":"@ + json_quote(kind_name(e.kind)) + ",\"path\":"@ =~= ("{\"ok\":false,\"error\":{"@) + field_key("kind"@) + json_quote(kind_name(e.kind)) + ",\"path\":"@);
    lemma_field_found("{\"ok\":false,\"error\":{"@, "kind"@, json_quote(kind_name(e.kind)), ",\"path\":"@);
    lemma_field_extends("{\"ok\":false,\"error\":{\"kind\":"@ + json_quote(kind_name(e.kind)) + ",\"path\":"@, json_opt(e.path), "kind"@, json_quote(kind_name(e.kind)));
    lemma_field_extends("{\"ok\":false,\"error\":{\"kind\":"@ + json_quote(kind_name(e.kind)) + ",\"path\":"@ + json_opt(e.path), ",\"message\":"@, "kind"@, json_quote(kind_name(e.kind)));
    lemma_field_extends("{\"ok\":false,\"error\":{\"kind\":"@ + json_quote(kind_name(e.kind)) + ",\"path\":"@ + json_opt(e.path) + ",\"message\":"@, json_quote(e.detail), "kind"@, json_quote(kind_name(e.kind)));
    lemma_field_extends("{\"ok\":false,\"error\":{\"kind\":"@ + json_quote(kind_name(e.kind)) + ",\"path\":"@ + json_opt(e.path) + ",\"message\":"@ + json_quote(e.detail), ",\"kept_stage\":"@, "kind"@, json_quote(kind_name(e.kind)));
    lemma_field_extends("{\"ok\":false,\"error\":{\"kind\":"@ + json_quote(kind_name(e.kind)) + ",\"path\":"@ + json_opt(e.path) + ",\"message\":"@ + json_quote(e.detail) + ",\"kept_stage\":"@, json_opt(e.kept_stage), "kind"@, json_quote(kind_name(e.kind)));
    lemma_field_extends("{\"ok\":false,\"error\":{\"kind\":"@ + json_quote(kind_name(e.kind)) + ",\"path\":"@ + json_opt(e.path) + ",\"message\":"@ + json_quote(e.detail) + ",\"kept_stage\":"@ + json_opt(e.kept_stage), "}}"@, "kind"@, json_quote(kind_name(e.kind)));
}

proof fn lemma_error_reads_back_path(e: ErrorModel)
    ensures
        holds_field(error_text(e), "path"@, json_opt(e.path)),
{
    reveal_strlit(",\"message\":");
    reveal_strlit(",\"path\":");
    reveal_strlit("path");
    assert(",\"path\":"@ =~= seq![','] + field_key("path"@));
    assert("{\"ok\":false,\"error\":{\"kind\":"@ + json_quote(kind_name(e.kind)) + ",\"path\":"@ + json_opt(e.path) + ",\"message\":"@ =~= ("{\"ok\":false,\"error\":{\"kind\":"@ + json_quote(kind_name(e.kind)) + seq![',']) + field_key("path"@) + json_opt(e.path) + ",\"message\":"@);
    lemma_field_found("{\"ok\":false,\"error\":{\"kind\":"@ + json_quote(kind_name(e.kind)) + seq![','], "path"@, json_opt(e.path), ",\"message\":"@);
    lemma_field_extends("{\"ok\":false,\"error\":{\"kind\":"@ + json_quote(kind_name(e.kind)) + ",\"path\":"@ + json_opt(e.path) + ",\"message\":"@, json_quote(e.detail), "path"@, json_opt(e.path));
    lemma_field_extends("{\"ok\":false,\"error\":{\"kind\":"@ + json_quote(kind_name(e.kind)) + ",\"path\":"@ + json_opt(e.path) + ",\"message\":"@ + json_quote(e.detail), ",\"kept_stage\":"@, "path"@, json_opt(e.path));
    lemma_field_extends("{\"ok\":false,\"error\":{\"kind\":"@ + json_quote(kind_name(e.kind)) + ",\"path\":"@ + json_opt(e.path) + ",\"message\":"@ + json_quote(e.detail) + ",\"kept_stage\":"@, json_opt(e.kept_stage), "path"@, json_opt(e.path));
    lemma_field_extends("{\"ok\":false,\"error\":{\"kind\":"@ + json_quote(kind_name(e.kind)) + ",\"path\":"@ + json_opt(e.path) + ",\"message\":"@ + json_quote(e.detail) + ",\"kept_stage\":"@ + json_opt(e.kept_stage), "}}"@, "path"@, json_opt(e.path));
}

proof fn lemma_error_reads_back_message(e: ErrorModel)
    ensures
        holds_field(error_text(e), "message"@, json_quote(e.detail)),
{
    reveal_strlit(",\"kept_stage\":");
    reveal_strlit(",\"message\":");
    reveal_strlit("message");
    assert(",\"message\":"@ =~= seq![','] + field_key("message"@));
    assert("{\"ok\":false,\"error\":{\"kind\":"@ + json_quote(kind_name(e.kind)) + ",\"path\":"@ + json_opt(e.path) + ",\"message\":"@ + json_quote(e.detail) + ",\"kept_stage\":"@ =~= ("{\"ok\":false,\"error\":{\"kind\":"@ + json_quote(kind_name(e.kind)) + ",\"path\":"@ + json_opt(e.path) + seq![',']) + field_key("message"@) + json_quote(e.detail) + ",\"kept_stage\":"@);
    lemma_field_found("{\"ok\":false,\"error\":{\"kind\":"@ + json_quote(kind_name(e.kind)) + ",\"path\":"@ + json_opt(e.path) + seq![','], "message"@, json_quote(e.detail), ",\"kept_stage\":"@);
    lemma_field_extends("{\"ok\":false,\"error\":{\"kind\":"@ + json_quote(kind_name(e.kind)) + ",\"path\":"@ + json_opt(e.path) + ",\"message\":"@ + json_quote(e.detail) + ",\"kept_stage\":"@, json_opt(e.kept_stage), "message"@, json_quote(e.detail));
    lemma_field_extends("{\"ok\":false,\"error\":{\"kind\":"@ + json_quote(kind_name(e.kind)) + ",\"path\":"@ + json_opt(e.path) + ",\"message\":"@ + json_quote(e.detail) + ",\"kept_stage\":"@ + json_opt(e.kept_stage), "}}"@, "message"@, json_quote(e.detail));
}

proof fn lemma_error_reads_back_kept_stage(e: ErrorModel)
    ensures
        holds_field(error_text(e), "kept_stage"@, json_opt(e.kept_stage)),
{
    reveal_strlit(",\"kept_stage\":");
    reveal_strlit("kept_stage");
    reveal_strlit("}}");
    assert(",\"kept_stage\":"@ =~= seq![','] + field_key("kept_stage"@));
    assert("{\"ok\":false,\"error\":{\"kind\":"@ + json_quote(kind_name(e.kind)) + ",\"path\":"@ + json_opt(e.path) + ",\"message\":"@ + json_quote(e.detail) + ",\"kept_stage\":"@ + json_opt(e.kept_stage) + "}}"@ =~= ("{\"ok\":false,\"error\":{\"kind\":"@ + json_quote(kind_name(e.kind)) + ",\"path\":"@ + json_opt(e.path) + ",\"message\":"@ + json_quote(e.detail) + seq![',']) + field_key("kept_stage"@) + json_opt(e.kept_stage) + "}}"@);
    lemma_field_found("{\"ok\":false,\"error\":{\"kind\":"@ + json_quote(kind_name(e.kind)) + ",\"path\":"@ + json_opt(e.path) + ",\"message\":"@ + json_quote(e.detail) + seq![','], "kept_stage"@, json_opt(e.kept_stage), "}}"@);
}

/// A failure's JSON reads back field by field: its kind, path, message and
/// kept stage.
pub proof fn lemma_error_reads_back(e: ErrorModel)
    ensures
        holds_field(error_text(e), "kind"@, json_quote(kind_name(e.kind))),
        holds_field(error_text(e), "path"@, json_opt(e.path)),
        holds_field(error_text(e), "message"@, json_quote(e.detail)),
        holds_field(error_text(e), "kept_stage"@, json_opt(e.kept_stage)),
{
    lemma_error_reads_back_kind(e);
    lemma_error_reads_back_path(e);
    lemma_error_reads_back_message(e);
    lemma_error_reads_back_kept_stage(e);
}

/// Whether `text` holds `value` as a whole (not preceded by a digit) and
/// directly followed by `label`.
pub open spec fn labelled(text: Seq<char>, value: Seq<char>, label: Seq<char>) -> bool {
    exists|i: int|
        #![trigger text.subrange(i, i + value.len())]
        0 < i && i + value.len() + label.len() <= text.len() && !is_digit(text[i - 1]) && text.subrange(
            i,
            i + value.len(),
        ) == value && text.subrange(i + value.len(), i + value.len() + label.len()) == label
}

proof fn lemma_labelled_found(p: Seq<char>, value: Seq<char>, label: Seq<char>)
    requires
        p.len() > 0,
        !is_digit(p.last()),
    ensures
        labelled(p + value + label, value, label),
{
    let t = p + value + label;
    let i = p.len() as int;
    assert(t[i - 1] == p.last());
    assert(t.subrange(i, i + value.len()) =~= value);
    assert(t.subrange(i + value.len(), i + value.len() + label.len()) =~= label);
}

proof fn lemma_labelled_extends(text: Seq<char>, more: Seq<char>, value: Seq<char>, label: Seq<char>)
    requires
        labelled(text, value, label),
    ensures
        labelled(text + more, value, label),
{
    let i = choose|i: int|
        #![trigger text.subrange(i, i + value.len())]
        0 < i && i + value.len() + label.len() <= text.len() && !is_digit(text[i - 1]) && text.subrange(
            i,
            i + value.len(),
        ) == value && text.subrange(i + value.len(), i + value.len() + label.len()) == label;
    let t = text + more;
    assert(t[i - 1] == text[i - 1]);
    assert(t.subrange(i, i + value.len()) =~= text.subrange(i, i + value.len()));
    assert(t.subrange(i + value.len(), i + value.len() + label.len()) =~= text.subrange(
        i + value.len(),
        i + value.len() + label.len(),
    ));
}

proof fn lemma_completion_line_reads_back_0(t: Tally)
    ensures
        labelled(completion_text(t), decimal(t.directories as nat), " directories, "@),
{
    reveal_strlit("Clone completed successfully: ");
    reveal_strlit(" directories, ");
    lemma_labelled_found("Clone completed successfully: "@, decimal(t.directories as nat), " directories, "@);
    lemma_labelled_extends("Clone completed successfully: "@ + decimal(t.directories as nat) + " directories, "@, decimal(t.regular_files as nat), decimal(t.directories as nat), " directories, "@);
    lemma_labelled_extends("Clone completed successfully: "@ + decimal(t.directories as nat) + " directories, "@ + decimal(t.regular_files as nat), " files ("@, decimal(t.directories as nat), " directories, "@);
    lemma_labelled_extends("Clone completed successfully: "@ + decimal(t.directories as nat) + " directories, "@ + decimal(t.regular_files as nat) + " files ("@, decimal(t.cloned_files as nat), decimal(t.directories as nat), " directories, "@);
    lemma_labelled_extends("Clone completed successfully: "@ + decimal(t.directories as nat) + " directories, "@ + decimal(t.regular_files as nat) + " files ("@ + decimal(t.cloned_files as nat), " cloned, "@, decimal(t.directories as nat), " directories, "@);
    lemma_labelled_extends("Clone completed successfully: "@ + decimal(t.directories as nat) + " directories, "@ + decimal(t.regular_files as nat) + " files ("@ + decimal(t.cloned_files as nat) + " cloned, "@, decimal(t.copied_files as nat), decimal(t.directories as nat), " directories, "@);
    lemma_labelled_extends("Clone completed successfully: "@ + decimal(t.directories as nat) + " directories, "@ + decimal(t.regular_files as nat) + " files ("@ + decimal(t.cloned_files as nat) + " cloned, "@ + decimal(t.copied_files as nat), " copied, "@, decimal(t.directories as nat), " directories, "@);
    lemma_labelled_extends("Clone completed successfully: "@ + decimal(t.directories as nat) + " directories, "@ + decimal(t.regular_files as nat) + " files ("@ + decimal(t.cloned_files as nat) + " cloned, "@ + decimal(t.copied_files as nat) + " copied, "@, decimal(t.copied_bytes as nat), decimal(t.directories as nat), " directories, "@);
    lemma_labelled_extends("Clone completed successfully: "@ + decimal(t.directories as nat) + " directories, "@ + decimal(t.regular_files as nat) + " files ("@ + decimal(t.cloned_files as nat) + " cloned, "@ + decimal(t.copied_files as nat) + " copied, "@ + decimal(t.copied_bytes as nat), " bytes copied of "@, decimal(t.directories as nat), " directories, "@);
    lemma_labelled_extends("Clone completed successfully: "@ + decimal(t.directories as nat) + " directories, "@ + decimal(t.regular_files as nat) + " files ("@ + decimal(t.cloned_files as nat) + " cloned, "@ + decimal(t.copied_files as nat) + " copied, "@ + decimal(t.copied_bytes as nat) + " bytes copied of "@, decimal(t.logical_bytes as nat), decimal(t.directories as nat), " directories, "@);
    lemma_labelled_extends("Clone completed successfully: "@ + decimal(t.directories as nat) + " directories, "@ + decimal(t.regular_files as nat) + " files ("@ + decimal(t.cloned_files as nat) + " cloned, "@ + decimal(t.copied_files as nat) + " copied, "@ + decimal(t.copied_bytes as nat) + " bytes copied of "@ + decimal(t.logical_bytes as nat), " logical), "@, decimal(t.directories as nat), " directories, "@);
    lemma_labelled_extends("Clone completed successfully: "@ + decimal(t.directories as nat) + " directories, "@ + decimal(t.regular_files as nat) + " files ("@ + decimal(t.cloned_files as nat) + " cloned, "@ + decimal(t.copied_files as nat) + " copied, "@ + decimal(t.copied_bytes as nat) + " bytes copied of "@ + decimal(t.logical_bytes as nat) + " logical), "@, decimal(t.symlinks as nat), decimal(t.directories as nat), " directories, "@);
    lemma_labelled_extends("Clone completed successfully: "@ + decimal(t.directories as nat) + " directories, "@ + decimal(t.regular_files as nat) + " files ("@ + decimal(t.cloned_files as nat) + " cloned, "@ + decimal(t.copied_files as nat) + " copied, "@ + decimal(t.copied_bytes as nat) + " bytes copied of "@ + decimal(t.logical_bytes as nat) + " logical), "@ + decimal(t.symlinks as nat), " symlinks"@, decimal(t.directories as nat), " directories, "@);
}

proof fn lemma_completion_line_reads_back_1(t: Tally)
    ensures
        labelled(completion_text(t), decimal(t.regular_files as nat), " files ("@),
{
    reveal_strlit(" directories, ");
    reveal_strlit(" files (");
    lemma_labelled_found("Clone completed successfully: "@ + decimal(t.directories as nat) + " directories, "@, decimal(t.regular_files as nat), " files ("@);
    lemma_labelled_extends("Clone completed successfully: "@ + decimal(t.directories as nat) + " directories, "@ + decimal(t.regular_files as nat) + " files ("@, decimal(t.cloned_files as nat), decimal(t.regular_files as nat), " files ("@);
    lemma_labelled_extends("Clone completed successfully: "@ + decimal(t.directories as nat) + " directories, "@ + decimal(t.regular_files as nat) + " files ("@ + decimal(t.cloned_files as nat), " cloned, "@, decimal(t.regular_files as nat), " files ("@);
    lemma_labelled_extends("Clone completed successfully: "@ + decimal(t.directories as nat) + " directories, "@ + decimal(t.regular_files as nat) + " files ("@ + decimal(t.cloned_files as nat) + " cloned, "@, decimal(t.copied_files as nat), decimal(t.regular_files as nat), " files ("@);
    lemma_labelled_extends("Clone completed successfully: "@ + decimal(t.directories as nat) + " directories, "@ + decimal(t.regular_files as nat) + " files ("@ + decimal(t.cloned_files as nat) + " cloned, "@ + decimal(t.copied_files as nat), " copied, "@, decimal(t.regular_files as nat), " files ("@);
    lemma_labelled_extends("Clone completed successfully: "@ + decimal(t.directories as nat) + " directories, "@ + decimal(t.regular_files as nat) + " files ("@ + decimal(t.cloned_files as nat) + " cloned, "@ + decimal(t.copied_files as nat) + " copied, "@, decimal(t.copied_bytes as nat), decimal(t.regular_files as nat), " files ("@);
    lemma_labelled_extends("Clone completed successfully: "@ + decimal(t.directories as nat) + " directories, "@ + decimal(t.regular_files as nat) + " files ("@ + decimal(t.cloned_files as nat) + " cloned, "@ + decimal(t.copied_files as nat) + " copied, "@ + decimal(t.copied_bytes as nat), " bytes copied of "@, decimal(t.regular_files as nat), " files ("@);
    lemma_labelled_extends("Clone completed successfully: "@ + decimal(t.directories as nat) + " directories, "@ + decimal(t.regular_files as nat) + " files ("@ + decimal(t.cloned_files as nat) + " cloned, "@ + decimal(t.copied_files as nat) + " copied, "@ + decimal(t.copied_bytes as nat) + " bytes copied of "@, decimal(t.logical_bytes as nat), decimal(t.regular_files as nat), " files ("@);
    lemma_labelled_extends("Clone completed successfully: "@ + decimal(t.directories as nat) + " directories, "@ + decimal(t.regular_files as nat) + " files ("@ + decimal(t.cloned_files as nat) + " cloned, "@ + decimal(t.copied_files as nat) + " copied, "@ + decimal(t.copied_bytes as nat) + " bytes copied of "@ + decimal(t.logical_bytes as nat), " logical), "@, decimal(t.regular_files as nat), " files ("@);
    lemma_labelled_extends("Clone completed successfully: "@ + decimal(t.directories as nat) + " directories, "@ + decimal(t.regular_files as nat) + " files ("@ + decimal(t.cloned_files as nat) + " cloned, "@ + decimal(t.copied_files as nat) + " copied, "@ + decimal(t.copied_bytes as nat) + " bytes copied of "@ + decimal(t.logical_bytes as nat) + " logical), "@, decimal(t.symlinks as nat), decimal(t.regular_files as nat), " files ("@);
    lemma_labelled_extends("Clone completed successfully: "@ + decimal(t.directories as nat) + " directories, "@ + decimal(t.regular_files as nat) + " files ("@ + decimal(t.cloned_files as nat) + " cloned, "@ + decimal(t.copied_files as nat) + " copied, "@ + decimal(t.copied_bytes as nat) + " bytes copied of "@ + decimal(t.logical_bytes as nat) + " logical), "@ + decimal(t.symlinks as nat), " symlinks"@, decimal(t.regular_files as nat), " files ("@);
}

proof fn lemma_completion_line_reads_back_2(t: Tally)
    ensures
        labelled(completion_text(t), decimal(t.cloned_files as nat), " cloned, "@),
{
    reveal_strlit(" files (");
    reveal_strlit(" cloned, ");
    lemma_labelled_found("Clone completed successfully: "@ + decimal(t.directories as nat) + " directories, "@ + decimal(t.regular_files as nat) + " files ("@, decimal(t.cloned_files as nat), " cloned, "@);
    lemma_labelled_extends("Clone completed successfully: "@ + decimal(t.directories as nat) + " directories, "@ + decimal(t.regular_files as nat) + " files ("@ + decimal(t.cloned_files as nat) + " cloned, "@, decimal(t.copied_files as nat), decimal(t.cloned_files as nat), " cloned, "@);
    lemma_labelled_extends("Clone completed successfully: "@ + decimal(t.directories as nat) + " directories, "@ + decimal(t.regular_files as nat) + " files ("@ + decimal(t.cloned_files as nat) + " cloned, "@ + decimal(t.copied_files as nat), " copied, "@, decimal(t.cloned_files as nat), " cloned, "@);
    lemma_labelled_extends("Clone completed successfully: "@ + decimal(t.directories as nat) + " directories, "@ + decimal(t.regular_files as nat) + " files ("@ + decimal(t.cloned_files as nat) + " cloned, "@ + decimal(t.copied_files as nat) + " copied, "@, decimal(t.copied_bytes as nat), decimal(t.cloned_files as nat), " cloned, "@);
    lemma_labelled_extends("Clone completed successfully: "@ + decimal(t.directories as nat) + " directories, "@ + decimal(t.regular_files as nat) + " files ("@ + decimal(t.cloned_files as nat) + " cloned, "@ + decimal(t.copied_files as nat) + " copied, "@ + decimal(t.copied_bytes as nat), " bytes copied of "@, decimal(t.cloned_files as nat), " cloned, "@);
    lemma_labelled_extends("Clone completed successfully: "@ + decimal(t.directories as nat) + " directories, "@ + decimal(t.regular_files as nat) + " files ("@ + decimal(t.cloned_files as nat) + " cloned, "@ + decimal(t.copied_files as nat) + " copied, "@ + decimal(t.copied_bytes as nat) + " bytes copied of "@, decimal(t.logical_bytes as nat), decimal(t.cloned_files as nat), " cloned, "@);
    lemma_labelled_extends("Clone completed successfully: "@ + decimal(t.directories as nat) + " directories, "@ + decimal(t.regular_files as nat) + " files ("@ + decimal(t.cloned_files as nat) + " cloned, "@ + decimal(t.copied_files as nat) + " copied, "@ + decimal(t.copied_bytes as nat) + " bytes copied of "@ + decimal(t.logical_bytes as nat), " logical), "@, decimal(t.cloned_files as nat), " cloned, "@);
    lemma_labelled_extends("Clone completed successfully: "@ + decimal(t.directories as nat) + " directories, "@ + decimal(t.regular_files as nat) + " files ("@ + decimal(t.cloned_files as nat) + " cloned, "@ + decimal(t.copied_files as nat) + " copied, "@ + decimal(t.copied_bytes as nat) + " bytes copied of "@ + decimal(t.logical_bytes as nat) + " logical), "@, decimal(t.symlinks as nat), decimal(t.cloned_files as nat), " cloned, "@);
    lemma_labelled_extends("Clone completed successfully: "@ + decimal(t.directories as nat) + " directories, "@ + decimal(t.regular_files as nat) + " files ("@ + decimal(t.cloned_files as nat) + " cloned, "@ + decimal(t.copied_files as nat) + " copied, "@ + decimal(t.copied_bytes as nat) + " bytes copied of "@ + decimal(t.logical_bytes as nat) + " logical), "@ + decimal(t.symlinks as nat), " symlinks"@, decimal(t.cloned_files as nat), " cloned, "@);
}

proof fn lemma_completion_line_reads_back_3(t: Tally)
    ensures
        labelled(completion_text(t), decimal(t.copied_files as nat), " copied, "@),
{
    reveal_strlit(" cloned, ");
    reveal_strlit(" copied, ");
    lemma_labelled_found("Clone completed successfully: "@ + decimal(t.directories as nat) + " directories, "@ + decimal(t.regular_files as nat) + " files ("@ + decimal(t.cloned_files as nat) + " cloned, "@, decimal(t.copied_files as nat), " copied, "@);
    lemma_labelled_extends("Clone completed successfully: "@ + decimal(t.directories as nat) + " directories, "@ + decimal(t.regular_files as nat) + " files ("@ + decimal(t.cloned_files as nat) + " cloned, "@ + decimal(t.copied_files as nat) + " copied, "@, decimal(t.copied_bytes as nat), decimal(t.copied_files as nat), " copied, "@);
    lemma_labelled_extends("Clone completed successfully: "@ + decimal(t.directories as nat) + " directories, "@ + decimal(t.regular_files as nat) + " files ("@ + decimal(t.cloned_files as nat) + " cloned, "@ + decimal(t.copied_files as nat) + " copied, "@ + decimal(t.copied_bytes as nat), " bytes copied of "@, decimal(t.copied_files as nat), " copied, "@);
    lemma_labelled_extends("Clone completed successfully: "@ + decimal(t.directories as nat) + " directories, "@ + decimal(t.regular_files as nat) + " files ("@ + decimal(t.cloned_files as nat) + " cloned, "@ + decimal(t.copied_files as nat) + " copied, "@ + decimal(t.copied_bytes as nat) + " bytes copied of "@, decimal(t.logical_bytes as nat), decimal(t.copied_files as nat), " copied, "@);
    lemma_labelled_extends("Clone completed successfully: "@ + decimal(t.directories as nat) + " directories, "@ + decimal(t.regular_files as nat) + " files ("@ + decimal(t.cloned_files as nat) + " cloned, "@ + decimal(t.copied_files as nat) + " copied, "@ + decimal(t.copied_bytes as nat) + " bytes copied of "@ + decimal(t.logical_bytes as nat), " logical), "@, decimal(t.copied_files as nat), " copied, "@);
    lemma_labelled_extends("Clone completed successfully: "@ + decimal(t.directories as nat) + " directories, "@ + decimal(t.regular_files as nat) + " files ("@ + decimal(t.cloned_files as nat) + " cloned, "@ + decimal(t.copied_files as nat) + " copied, "@ + decimal(t.copied_bytes as nat) + " bytes copied of "@ + decimal(t.logical_bytes as nat) + " logical), "@, decimal(t.symlinks as nat), decimal(t.copied_files as nat), " copied, "@);
    lemma_labelled_extends("Clone completed successfully: "@ + decimal(t.directories as nat) + " directories, "@ + decimal(t.regular_files as nat) + " files ("@ + decimal(t.cloned_files as nat) + " cloned, "@ + decimal(t.copied_files as nat) + " copied, "@ + decimal(t.copied_bytes as nat) + " bytes copied of "@ + decimal(t.logical_bytes as nat) + " logical), "@ + decimal(t.symlinks as nat), " symlinks"@, decimal(t.copied_files as nat), " copied, "@);
}

proof fn lemma_completion_line_reads_back_4(t: Tally)
    ensures
        labelled(completion_text(t), decimal(t.copied_bytes as nat), " bytes copied of "@),
{
    reveal_strlit(" copied, ");
    reveal_strlit(" bytes copied of ");
    lemma_labelled_found("Clone completed successfully: "@ + decimal(t.directories as nat) + " directories, "@ + decimal(t.regular_files as nat) + " files ("@ + decimal(t.cloned_files as nat) + " cloned, "@ + decimal(t.copied_files as nat) + " copied, "@, decimal(t.copied_bytes as nat), " bytes copied of "@);
    lemma_labelled_extends("Clone completed successfully: "@ + decimal(t.directories as nat) + " directories, "@ + decimal(t.regular_files as nat) + " files ("@ + decimal(t.cloned_files as nat) + " cloned, "@ + decimal(t.copied_files as nat) + " copied, "@ + decimal(t.copied_bytes as nat) + " bytes copied of "@, decimal(t.logical_bytes as nat), decimal(t.copied_bytes as nat), " bytes copied of "@);
    lemma_labelled_extends("Clone completed successfully: "@ + decimal(t.directories as nat) + " directories, "@ + decimal(t.regular_files as nat) + " files ("@ + decimal(t.cloned_files as nat) + " cloned, "@ + decimal(t.copied_files as nat) + " copied, "@ + decimal(t.copied_bytes as nat) + " bytes copied of "@ + decimal(t.logical_bytes as nat), " logical), "@, decimal(t.copied_bytes as nat), " bytes copied of "@);
    lemma_labelled_extends("Clone completed successfully: "@ + decimal(t.directories as nat) + " directories, "@ + decimal(t.regular_files as nat) + " files ("@ + decimal(t.cloned_files as nat) + " cloned, "@ + decimal(t.copied_files as nat) + " copied, "@ + decimal(t.copied_bytes as nat) + " bytes copied of "@ + decimal(t.logical_bytes as nat) + " logical), "@, decimal(t.symlinks as nat), decimal(t.copied_bytes as nat), " bytes copied of "@);
    lemma_labelled_extends("Clone completed successfully: "@ + decimal(t.directories as nat) + " directories, "@ + decimal(t.regular_files as nat) + " files ("@ + decimal(t.cloned_files as nat) + " cloned, "@ + decimal(t.copied_files as nat) + " copied, "@ + decimal(t.copied_bytes as nat) + " bytes copied of "@ + decimal(t.logical_bytes as nat) + " logical), "@ + decimal(t.symlinks as nat), " symlinks"@, decimal(t.copied_bytes as nat), " bytes copied of "@);
}

proof fn lemma_completion_line_reads_back_5(t: Tally)
    ensures
        labelled(completion_text(t), decimal(t.logical_bytes as nat), " logical), "@),
{
    reveal_strlit(" bytes copied of ");
    reveal_strlit(" logical), ");
    lemma_labelled_found("Clone completed successfully: "@ + decimal(t.directories as nat) + " directories, "@ + decimal(t.regular_files as nat) + " files ("@ + decimal(t.cloned_files as nat) + " cloned, "@ + decimal(t.copied_files as nat) + " copied, "@ + decimal(t.copied_bytes as nat) + " bytes copied of "@, decimal(t.logical_bytes as nat), " logical), "@);
    lemma_labelled_extends("Clone completed successfully: "@ + decimal(t.directories as nat) + " directories, "@ + decimal(t.regular_files as nat) + " files ("@ + decimal(t.cloned_files as nat) + " cloned, "@ + decimal(t.copied_files as nat) + " copied, "@ + decimal(t.copied_bytes as nat) + " bytes copied of "@ + decimal(t.logical_bytes as nat) + " logical), "@, decimal(t.symlinks as nat), decimal(t.logical_bytes as nat), " logical), "@);
    lemma_labelled_extends("Clone completed successfully: "@ + decimal(t.directories as nat) + " directories, "@ + decimal(t.regular_files as nat) + " files ("@ + decimal(t.cloned_files as nat) + " cloned, "@ + decimal(t.copied_files as nat) + " copied, "@ + decimal(t.copied_bytes as nat) + " bytes copied of "@ + decimal(t.logical_bytes as nat) + " logical), "@ + decimal(t.symlinks as nat), " symlinks"@, decimal(t.logical_bytes as nat), " logical), "@);
}

proof fn lemma_completion_line_reads_back_6(t: Tally)
    ensures
        labelled(completion_text(t), decimal(t.symlinks as nat), " symlinks"@),
{
    reveal_strlit(" logical), ");
    reveal_strlit(" symlinks");
    lemma_labelled_found("Clone completed successfully: "@ + decimal(t.directories as nat) + " directories, "@ + decimal(t.regular_files as nat) + " files ("@ + decimal(t.cloned_files as nat) + " cloned, "@ + decimal(t.copied_files as nat) + " copied, "@ + decimal(t.copied_bytes as nat) + " bytes copied of "@ + decimal(t.logical_bytes as nat) + " logical), "@, decimal(t.symlinks as nat), " symlinks"@);
}

/// The line reporting a clone reads back: each count stands whole, right
/// before the words that say what it counts.
pub proof fn lemma_completion_line_reads_back(t: Tally)
    ensures
        labelled(completion_text(t), decimal(t.directories as nat), " directories, "@),
        labelled(completion_text(t), decimal(t.regular_files as nat), " files ("@),
        labelled(completion_text(t), decimal(t.cloned_files as nat), " cloned, "@),
        labelled(completion_text(t), decimal(t.copied_files as nat), " copied, "@),
        labelled(completion_text(t), decimal(t.copied_bytes as nat), " bytes copied of "@),
        labelled(completion_text(t), decimal(t.logical_bytes as nat), " logical), "@),
        labelled(completion_text(t), decimal(t.symlinks as nat), " symlinks"@),
{
    lemma_completion_line_reads_back_0(t);
    lemma_completion_line_reads_back_1(t);
    lemma_completion_line_reads_back_2(t);
    lemma_completion_line_reads_back_3(t);
    lemma_completion_line_reads_back_4(t);
    lemma_completion_line_reads_back_5(t);
    lemma_completion_line_reads_back_6(t);
}

proof fn lemma_usage_line_reads_back_0(path: Seq<char>, u: Usage)
    ensures
        labelled(usage_line_text(path, u), decimal(u.files as nat), " files, "@),
{
    reveal_strlit(": ");
    reveal_strlit(" files, ");
    lemma_labelled_found(path + ": "@, decimal(u.files as nat), " files, "@);
    lemma_labelled_extends(path + ": "@ + decimal(u.files as nat) + " files, "@, decimal(u.logical_bytes as nat), decimal(u.files as nat), " files, "@);
    lemma_labelled_extends(path + ": "@ + decimal(u.files as nat) + " files, "@ + decimal(u.logical_bytes as nat), " logical bytes, "@, decimal(u.files as nat), " files, "@);
    lemma_labelled_extends(path + ": "@ + decimal(u.files as nat) + " files, "@ + decimal(u.logical_bytes as nat) + " logical bytes, "@, decimal(u.allocated_bytes as nat), decimal(u.files as nat), " files, "@);
    lemma_labelled_extends(path + ": "@ + decimal(u.files as nat) + " files, "@ + decimal(u.logical_bytes as nat) + " logical bytes, "@ + decimal(u.allocated_bytes as nat), " allocated (du), "@, decimal(u.files as nat), " files, "@);
    lemma_labelled_extends(path + ": "@ + decimal(u.files as nat) + " files, "@ + decimal(u.logical_bytes as nat) + " logical bytes, "@ + decimal(u.allocated_bytes as nat) + " allocated (du), "@, (match u.private_bytes { Some(b) => decimal(b as nat), None => "unknown"@ }), decimal(u.files as nat), " files, "@);
    lemma_labelled_extends(path + ": "@ + decimal(u.files as nat) + " files, "@ + decimal(u.logical_bytes as nat) + " logical bytes, "@ + decimal(u.allocated_bytes as nat) + " allocated (du), "@ + (match u.private_bytes { Some(b) => decimal(b as nat), None => "unknown"@ }), " private"@, decimal(u.files as nat), " files, "@);
}

proof fn lemma_usage_line_reads_back_1(path: Seq<char>, u: Usage)
    ensures
        labelled(usage_line_text(path, u), decimal(u.logical_bytes as nat), " logical bytes, "@),
{
    reveal_strlit(" files, ");
    reveal_strlit(" logical bytes, ");
    lemma_labelled_found(path + ": "@ + decimal(u.files as nat) + " files, "@, decimal(u.logical_bytes as nat), " logical bytes, "@);
    lemma_labelled_extends(path + ": "@ + decimal(u.files as nat) + " files, "@ + decimal(u.logical_bytes as nat) + " logical bytes, "@, decimal(u.allocated_bytes as nat), decimal(u.logical_bytes as nat), " logical bytes, "@);
    lemma_labelled_extends(path + ": "@ + decimal(u.files as nat) + " files, "@ + decimal(u.logical_bytes as nat) + " logical bytes, "@ + decimal(u.allocated_bytes as nat), " allocated (du), "@, decimal(u.logical_bytes as nat), " logical bytes, "@);
    lemma_labelled_extends(path + ": "@ + decimal(u.files as nat) + " files, "@ + decimal(u.logical_bytes as nat) + " logical bytes, "@ + decimal(u.allocated_bytes as nat) + " allocated (du), "@, (match u.private_bytes { Some(b) => decimal(b as nat), None => "unknown"@ }), decimal(u.logical_bytes as nat), " logical bytes, "@);
    lemma_labelled_extends(path + ": "@ + decimal(u.files as nat) + " files, "@ + decimal(u.logical_bytes as nat) + " logical bytes, "@ + decimal(u.allocated_bytes as nat) + " allocated (du), "@ + (match u.private_bytes { Some(b) => decimal(b as nat), None => "unknown"@ }), " private"@, decimal(u.logical_bytes as nat), " logical bytes, "@);
}

proof fn lemma_usage_line_reads_back_2(path: Seq<char>, u: Usage)
    ensures
        labelled(usage_line_text(path, u), decimal(u.allocated_bytes as nat), " allocated (du), "@),
{
    reveal_strlit(" logical bytes, ");
    reveal_strlit(" allocated (du), ");
    lemma_labelled_found(path + ": "@ + decimal(u.files as nat) + " files, "@ + decimal(u.logical_bytes as nat) + " logical bytes, "@, decimal(u.allocated_bytes as nat), " allocated (du), "@);
    lemma_labelled_extends(path + ": "@ + decimal(u.files as nat) + " files, "@ + decimal(u.logical_bytes as nat) + " logical bytes, "@ + decimal(u.allocated_bytes as nat) + " allocated (du), "@, (match u.private_bytes { Some(b) => decimal(b as nat), None => "unknown"@ }), decimal(u.allocated_bytes as nat), " allocated (du), "@);
    lemma_labelled_extends(path + ": "@ + decimal(u.files as nat) + " files, "@ + decimal(u.logical_bytes as nat) + " logical bytes, "@ + decimal(u.allocated_bytes as nat) + " allocated (du), "@ + (match u.private_bytes { Some(b) => decimal(b as nat), None => "unknown"@ }), " private"@, decimal(u.allocated_bytes as nat), " allocated (du), "@);
}

proof fn lemma_usage_line_reads_back_3(path: Seq<char>, u: Usage)
    ensures
        labelled(usage_line_text(path, u), (match u.private_bytes { Some(b) => decimal(b as nat), None => "unknown"@ }), " private"@),
{
    reveal_strlit(" allocated (du), ");
    reveal_strlit(" private");
    lemma_labelled_found(path + ": "@ + decimal(u.files as nat) + " files, "@ + decimal(u.logical_bytes as nat) + " logical bytes, "@ + decimal(u.allocated_bytes as nat) + " allocated (du), "@, (match u.private_bytes { Some(b) => decimal(b as nat), None => "unknown"@ }), " private"@);
}

/// The line reporting a measurement reads back: each count stands whole,
/// right before the words that say what it counts.
pub proof fn lemma_usage_line_reads_back(path: Seq<char>, u: Usage)
    ensures
        labelled(usage_line_text(path, u), decimal(u.files as nat), " files, "@),
        labelled(usage_line_text(path, u), decimal(u.logical_bytes as nat), " logical bytes, "@),
        labelled(usage_line_text(path, u), decimal(u.allocated_bytes as nat), " allocated (du), "@),
        labelled(usage_line_text(path, u), (match u.private_bytes { Some(b) => decimal(b as nat), None => "unknown"@ }), " private"@),
{
    lemma_usage_line_reads_back_0(path, u);
    lemma_usage_line_reads_back_1(path, u);
    lemma_usage_line_reads_back_2(path, u);
    lemma_usage_line_reads_back_3(path, u);
}

} // verus!
