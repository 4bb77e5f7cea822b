//! Canonical compact JSON text, as the artifacts bind it into digests.
//!
//! Strings are quoted with the escapes of the compact JSON form: quote and
//! backslash are escaped, the short control escapes `\b \t \n \f \r` are
//! used where they exist, every other control character below U+0020 becomes
//! `\u00xx` with lowercase hex digits, and everything else is written as is.

use vstd::prelude::*;
use crate::text::{char_from_ascii, chars_of, decimal, decimal_string, join_sep, join_strings, push_char, push_str, views};

verus! {

pub open spec fn hex_digit(d: nat) -> char {
    if d < 10 {
        ((d + 48) as nat) as char
    } else {
        ((d + 87) as nat) as char
    }
}

pub open spec fn json_escape_char(c: char) -> Seq<char> {
    let u = c as u32;
    if c == '"' {
        seq!['\\', '"']
    } else if c == '\\' {
        seq!['\\', '\\']
    } else if u == 0x08 {
        seq!['\\', 'b']
    } else if u == 0x09 {
        seq!['\\', 't']
    } else if u == 0x0a {
        seq!['\\', 'n']
    } else if u == 0x0c {
        seq!['\\', 'f']
    } else if u == 0x0d {
        seq!['\\', 'r']
    } else if u < 0x20 {
        seq!['\\', 'u', '0', '0', hex_digit((u / 16) as nat), hex_digit((u % 16) as nat)]
    } else {
        seq![c]
    }
}

pub open spec fn json_escape(s: Seq<char>) -> Seq<char>
    decreases s.len(),
{
    if s.len() == 0 {
        Seq::empty()
    } else {
        json_escape(s.drop_last()) + json_escape_char(s.last())
    }
}

/// A JSON string literal holding `s`.
pub open spec fn json_str(s: Seq<char>) -> Seq<char> {
    seq!['"'] + json_escape(s) + seq!['"']
}

pub open spec fn json_bool(b: bool) -> Seq<char> {
    if b {
        seq!['t', 'r', 'u', 'e']
    } else {
        seq!['f', 'a', 'l', 's', 'e']
    }
}

pub open spec fn json_null() -> Seq<char> {
    seq!['n', 'u', 'l', 'l']
}

pub open spec fn json_opt_str(o: Option<Seq<char>>) -> Seq<char> {
    match o {
        Some(s) => json_str(s),
        None => json_null(),
    }
}

pub open spec fn json_opt_u64(o: Option<u64>) -> Seq<char> {
    match o {
        Some(n) => decimal(n as nat),
        None => json_null(),
    }
}

/// Comma-joined JSON texts, without brackets.
#[verifier::opaque]
pub open spec fn json_join(items: Seq<Seq<char>>) -> Seq<char>
    decreases items.len(),
{
    if items.len() == 0 {
        Seq::empty()
    } else if items.len() == 1 {
        items[0]
    } else {
        json_join(items.drop_last()) + seq![','] + items.last()
    }
}

/// A JSON object from its `"key":value` members.
pub open spec fn json_obj(members: Seq<Seq<char>>) -> Seq<char> {
    seq!['{'] + json_join(members) + seq!['}']
}

/// A JSON array from its element texts.
pub open spec fn json_arr(items: Seq<Seq<char>>) -> Seq<char> {
    seq!['['] + json_join(items) + seq![']']
}

/// One object member `"key":value`.
pub open spec fn kv(key: Seq<char>, value: Seq<char>) -> Seq<char> {
    json_str(key) + seq![':'] + value
}

/// A member present only when the value is.
pub open spec fn opt_member(key: Seq<char>, value: Option<Seq<char>>) -> Seq<Seq<char>> {
    match value {
        Some(v) => Seq::empty().push(kv(key, v)),
        None => Seq::empty(),
    }
}

pub open spec fn opt_json_str(o: Option<String>) -> Option<Seq<char>> {
    match o {
        Some(s) => Some(json_str(s@)),
        None => None,
    }
}

pub open spec fn opt_decimal(o: Option<u64>) -> Option<Seq<char>> {
    match o {
        Some(n) => Some(decimal(n as nat)),
        None => None,
    }
}

pub open spec fn json_strs(items: Seq<Seq<char>>) -> Seq<Seq<char>> {
    items.map_values(|s: Seq<char>| json_str(s))
}

/// A JSON array of strings.
pub open spec fn json_str_array(items: Seq<Seq<char>>) -> Seq<char> {
    json_arr(json_strs(items))
}

pub open spec fn string_views(v: Seq<String>) -> Seq<Seq<char>> {
    v.map_values(|s: String| s@)
}

fn hex_digit_char(d: u32) -> (r: char)
    requires
        d < 16,
    ensures
        r == hex_digit(d as nat),
{
    if d < 10 {
        char_from_ascii(d + 48)
    } else {
        char_from_ascii(d + 87)
    }
}

pub fn push_escaped_char(out: &mut String, c: char)
    ensures
        final(out)@ == old(out)@ + json_escape_char(c),
{
    let u = c as u32;
    if c == '"' {
        push_char(out, '\\');
        push_char(out, '"');
    } else if c == '\\' {
        push_char(out, '\\');
        push_char(out, '\\');
    } else if u == 0x08 {
        push_char(out, '\\');
        push_char(out, 'b');
    } else if u == 0x09 {
        push_char(out, '\\');
        push_char(out, 't');
    } else if u == 0x0a {
        push_char(out, '\\');
        push_char(out, 'n');
    } else if u == 0x0c {
        push_char(out, '\\');
        push_char(out, 'f');
    } else if u == 0x0d {
        push_char(out, '\\');
        push_char(out, 'r');
    } else if u < 0x20 {
        push_char(out, '\\');
        push_char(out, 'u');
        push_char(out, '0');
        push_char(out, '0');
        push_char(out, hex_digit_char(u / 16));
        push_char(out, hex_digit_char(u % 16));
    } else {
        push_char(out, c);
    }
    assert(final(out)@ =~= old(out)@ + json_escape_char(c));
}

/// Appends the JSON string literal for `s`.
pub fn push_json_str(out: &mut String, s: &str)
    ensures
        final(out)@ == old(out)@ + json_str(s@),
{
    let cs = chars_of(s);
    let ghost start = out@;
    push_char(out, '"');
    let mut i: usize = 0;
    while i < cs.len()
        invariant
            i <= cs.len(),
            cs@ == s@,
            out@ == start + seq!['"'] + json_escape(cs@.take(i as int)),
        decreases cs.len() - i,
    {
        push_escaped_char(out, cs[i]);
        proof {
            let t = cs@.take(i + 1);
            assert(t.drop_last() =~= cs@.take(i as int));
            assert(t.last() == cs@[i as int]);
        }
        i = i + 1;
    }
    assert(cs@.take(cs@.len() as int) =~= s@);
    push_char(out, '"');
    assert(final(out)@ =~= old(out)@ + json_str(s@));
}

pub fn push_json_u64(out: &mut String, n: u64)
    ensures
        final(out)@ == old(out)@ + decimal(n as nat),
{
    let d = decimal_string(n);
    push_str(out, d.as_str());
}

pub fn push_json_bool(out: &mut String, b: bool)
    ensures
        final(out)@ == old(out)@ + json_bool(b),
{
    if b {
        push_str(out, "true");
        proof {
            reveal_strlit("true");
        }
    } else {
        push_str(out, "false");
        proof {
            reveal_strlit("false");
        }
    }
    assert(final(out)@ =~= old(out)@ + json_bool(b));
}

pub fn push_json_null(out: &mut String)
    ensures
        final(out)@ == old(out)@ + json_null(),
{
    push_str(out, "null");
    proof {
        reveal_strlit("null");
    }
    assert(final(out)@ =~= old(out)@ + json_null());
}

pub fn push_json_opt_str(out: &mut String, o: &Option<String>)
    ensures
        final(out)@ == old(out)@ + json_opt_str(
            match o {
                Some(s) => Some(s@),
                None => None,
            },
        ),
{
    match o {
        Some(s) => push_json_str(out, s.as_str()),
        None => push_json_null(out),
    }
}

pub fn push_json_opt_u64(out: &mut String, o: Option<u64>)
    ensures
        final(out)@ == old(out)@ + json_opt_u64(o),
{
    match o {
        Some(n) => push_json_u64(out, n),
        None => push_json_null(out),
    }
}

/// An in-progress comma-separated JSON list (object members or array
/// elements); `items` is the list of texts already written.
pub struct JsonList {
    pub text: String,
    pub count: usize,
    pub items: Ghost<Seq<Seq<char>>>,
}

impl JsonList {
    pub open spec fn wf(&self) -> bool {
        &&& self.text@ == json_join(self.items@)
        &&& self.count == self.items@.len()
    }

    pub fn new() -> (r: JsonList)
        ensures
            r.wf(),
            r.items@ == Seq::<Seq<char>>::empty(),
    {
        proof {
            reveal(json_join);
        }
        JsonList { text: String::new(), count: 0, items: Ghost(Seq::empty()) }
    }

    /// Appends one already-rendered JSON text as the next item.
    pub fn push_raw(&mut self, piece: &str)
        requires
            old(self).wf(),
            old(self).count < usize::MAX,
        ensures
            final(self).wf(),
            final(self).items@ == old(self).items@.push(piece@),
    {
        let ghost old_items = self.items@;
        let ghost new_items = old_items.push(piece@);
        if self.count > 0 {
            push_char(&mut self.text, ',');
        }
        push_str(&mut self.text, piece);
        self.items = Ghost(new_items);
        self.count = self.count + 1;
        proof {
            reveal(json_join);
            assert(new_items.drop_last() =~= old_items);
            if old_items.len() == 0 {
                assert(json_join(new_items) == piece@);
                assert(self.text@ =~= piece@);
            } else {
                assert(json_join(new_items) == json_join(old_items) + seq![','] + piece@);
                assert(self.text@ =~= json_join(old_items) + seq![','] + piece@);
            }
        }
    }

    /// Appends the member `"key":"value"`.
    pub fn push_str_member(&mut self, key: &str, value: &str)
        requires
            old(self).wf(),
            old(self).count < usize::MAX,
        ensures
            final(self).wf(),
            final(self).items@ == old(self).items@.push(kv(key@, json_str(value@))),
    {
        let mut piece = String::new();
        push_json_str(&mut piece, value);
        self.push_member(key, piece.as_str());
    }

    /// Appends the member `"key":value` for an already-rendered value.
    pub fn push_member(&mut self, key: &str, value: &str)
        requires
            old(self).wf(),
            old(self).count < usize::MAX,
        ensures
            final(self).wf(),
            final(self).items@ == old(self).items@.push(kv(key@, value@)),
    {
        let mut piece = String::new();
        push_json_str(&mut piece, key);
        push_char(&mut piece, ':');
        push_str(&mut piece, value);
        assert(piece@ =~= kv(key@, value@));
        self.push_raw(piece.as_str());
    }

    pub fn push_u64_member(&mut self, key: &str, value: u64)
        requires
            old(self).wf(),
            old(self).count < usize::MAX,
        ensures
            final(self).wf(),
            final(self).items@ == old(self).items@.push(kv(key@, decimal(value as nat))),
    {
        let v = decimal_string(value);
        self.push_member(key, v.as_str());
    }

    pub fn push_bool_member(&mut self, key: &str, value: bool)
        requires
            old(self).wf(),
            old(self).count < usize::MAX,
        ensures
            final(self).wf(),
            final(self).items@ == old(self).items@.push(kv(key@, json_bool(value))),
    {
        let mut v = String::new();
        push_json_bool(&mut v, value);
        self.push_member(key, v.as_str());
    }

    /// Appends `"key":"value"` when the value is present.
    pub fn push_opt_str_member(&mut self, key: &str, value: &Option<String>)
        requires
            old(self).wf(),
            old(self).count < usize::MAX,
        ensures
            final(self).wf(),
            final(self).items@ == old(self).items@ + opt_member(key@, opt_json_str(*value)),
            final(self).count <= old(self).count + 1,
    {
        match value {
            Some(v) => {
                let ghost before = self.items@;
                self.push_str_member(key, v.as_str());
                assert(self.items@ =~= before + opt_member(key@, opt_json_str(*value)));
            },
            None => {
                assert(self.items@ =~= self.items@ + opt_member(key@, opt_json_str(*value)));
            },
        }
    }

    /// Appends `"key":n` when the number is present.
    pub fn push_opt_u64_member(&mut self, key: &str, value: Option<u64>)
        requires
            old(self).wf(),
            old(self).count < usize::MAX,
        ensures
            final(self).wf(),
            final(self).items@ == old(self).items@ + opt_member(key@, opt_decimal(value)),
            final(self).count <= old(self).count + 1,
    {
        match value {
            Some(v) => {
                let ghost before = self.items@;
                self.push_u64_member(key, v);
                assert(self.items@ =~= before + opt_member(key@, opt_decimal(value)));
            },
            None => {
                assert(self.items@ =~= self.items@ + opt_member(key@, opt_decimal(value)));
            },
        }
    }

    /// Appends `"key":value` for an optional string that is written as
    /// `null` when absent.
    pub fn push_nullable_str_member(&mut self, key: &str, value: &Option<String>)
        requires
            old(self).wf(),
            old(self).count < usize::MAX,
        ensures
            final(self).wf(),
            final(self).items@ == old(self).items@.push(
                kv(
                    key@,
                    json_opt_str(
                        match value {
                            Some(s) => Some(s@),
                            None => None,
                        },
                    ),
                ),
            ),
    {
        let mut v = String::new();
        push_json_opt_str(&mut v, value);
        self.push_member(key, v.as_str());
    }

    /// Closes the list as an object.
    pub fn finish_object(self) -> (r: String)
        requires
            self.wf(),
        ensures
            r@ == json_obj(self.items@),
    {
        let mut out = String::new();
        push_char(&mut out, '{');
        push_str(&mut out, self.text.as_str());
        push_char(&mut out, '}');
        assert(out@ =~= json_obj(self.items@));
        out
    }

    /// Closes the list as an array.
    pub fn finish_array(self) -> (r: String)
        requires
            self.wf(),
        ensures
            r@ == json_arr(self.items@),
    {
        let mut out = String::new();
        push_char(&mut out, '[');
        push_str(&mut out, self.text.as_str());
        push_char(&mut out, ']');
        assert(out@ =~= json_arr(self.items@));
        out
    }
}

/// The JSON array of the given strings.
pub fn json_string_array(items: &Vec<String>) -> (r: String)
    ensures
        r@ == json_str_array(string_views(items@)),
{
    let mut list = JsonList::new();
    let mut i: usize = 0;
    assert(json_strs(string_views(items@.take(0))) =~= Seq::<Seq<char>>::empty());
    while i < items.len()
        invariant
            i <= items.len(),
            list.wf(),
            list.count == i,
            list.items@ == json_strs(string_views(items@.take(i as int))),
        decreases items.len() - i,
    {
        let mut piece = String::new();
        push_json_str(&mut piece, items[i].as_str());
        list.push_raw(piece.as_str());
        proof {
            assert(json_strs(string_views(items@.take(i + 1))) =~= json_strs(
                string_views(items@.take(i as int)),
            ).push(piece@));
        }
        i = i + 1;
    }
    assert(items@.take(items@.len() as int) =~= items@);
    list.finish_array()
}


// ---------------------------------------------------------------------------
// Pretty-printed JSON: two-space indentation, one member per line.
// ---------------------------------------------------------------------------

pub open spec fn pretty_indent(level: nat) -> Seq<char>
    decreases level,
{
    if level == 0 {
        Seq::empty()
    } else {
        pretty_indent((level - 1) as nat) + seq![' ', ' ']
    }
}

/// One member line of an object nested at `level`.
pub open spec fn pretty_member(level: nat, key: Seq<char>, value: Seq<char>) -> Seq<char> {
    pretty_indent(level + 1) + json_str(key) + seq![':', ' '] + value
}

/// An object at `level` whose member lines are already indented.
pub open spec fn pretty_object(level: nat, lines: Seq<Seq<char>>) -> Seq<char> {
    if lines.len() == 0 {
        seq!['{', '}']
    } else {
        seq!['{', '\n'] + join_sep(lines, seq![',', '\n']) + seq!['\n'] + pretty_indent(level) + seq!['}']
    }
}

pub open spec fn pretty_str_lines(level: nat, items: Seq<Seq<char>>) -> Seq<Seq<char>> {
    items.map_values(|x: Seq<char>| pretty_indent(level + 1) + json_str(x))
}

/// An array of strings at `level`.
pub open spec fn pretty_str_array(level: nat, items: Seq<Seq<char>>) -> Seq<char> {
    if items.len() == 0 {
        seq!['[', ']']
    } else {
        seq!['[', '\n'] + join_sep(pretty_str_lines(level, items), seq![',', '\n']) + seq!['\n']
            + pretty_indent(level) + seq![']']
    }
}

pub fn indent_string(level: usize) -> (r: String)
    ensures
        r@ == pretty_indent(level as nat),
    decreases level,
{
    if level == 0 {
        String::new()
    } else {
        let mut s = indent_string(level - 1);
        push_char(&mut s, ' ');
        push_char(&mut s, ' ');
        s
    }
}

/// The member line `"key": value` nested at `level`.
pub fn pretty_member_line(level: usize, key: &str, value: &str) -> (r: String)
    requires
        level < usize::MAX,
    ensures
        r@ == pretty_member(level as nat, key@, value@),
{
    let mut s = indent_string(level + 1);
    push_json_str(&mut s, key);
    push_char(&mut s, ':');
    push_char(&mut s, ' ');
    push_str(&mut s, value);
    s
}

pub fn pretty_object_text(level: usize, lines: &Vec<String>) -> (r: String)
    ensures
        r@ == pretty_object(level as nat, views(lines@)),
{
    if lines.len() == 0 {
        let mut s = String::new();
        push_char(&mut s, '{');
        push_char(&mut s, '}');
        return s;
    }
    let mut s = String::new();
    push_char(&mut s, '{');
    push_char(&mut s, '\n');
    let body = join_strings(lines, ",\n");
    proof {
        reveal_strlit(",\n");
    }
    push_str(&mut s, body.as_str());
    push_char(&mut s, '\n');
    let ind = indent_string(level);
    push_str(&mut s, ind.as_str());
    push_char(&mut s, '}');
    assert(",\n"@ =~= seq![',', '\n']);
    s
}

pub fn pretty_str_array_text(level: usize, items: &Vec<String>) -> (r: String)
    requires
        level < usize::MAX,
    ensures
        r@ == pretty_str_array(level as nat, views(items@)),
{
    if items.len() == 0 {
        let mut s = String::new();
        push_char(&mut s, '[');
        push_char(&mut s, ']');
        return s;
    }
    let mut lines: Vec<String> = Vec::new();
    let mut i: usize = 0;
    while i < items.len()
        invariant
            level < usize::MAX,
            i <= items.len(),
            views(lines@) == pretty_str_lines(level as nat, views(items@).take(i as int)),
        decreases items.len() - i,
    {
        let ghost before = views(lines@);
        let mut line = indent_string(level + 1);
        push_json_str(&mut line, items[i].as_str());
        lines.push(line);
        assert(views(lines@) =~= before.push(line@));
        assert(views(items@).take(i + 1) =~= views(items@).take(i as int).push(items@[i as int]@));
        assert(views(lines@) =~= pretty_str_lines(level as nat, views(items@).take(i + 1)));
        i = i + 1;
    }
    assert(views(items@).take(items@.len() as int) =~= views(items@));
    let mut s = String::new();
    push_char(&mut s, '[');
    push_char(&mut s, '\n');
    let body = join_strings(&lines, ",\n");
    proof {
        reveal_strlit(",\n");
    }
    push_str(&mut s, body.as_str());
    push_char(&mut s, '\n');
    let ind = indent_string(level);
    push_str(&mut s, ind.as_str());
    push_char(&mut s, ']');
    assert(",\n"@ =~= seq![',', '\n']);
    s
}

} // verus!
