//! A JSON document tree, its mathematical view, and a verified renderer to
//! JSON text. Translated schema documents are rendered with it before they
//! are handed to the outside schema evaluator.
use crate::text::dec_int;
use crate::text::i64_to_string;
use crate::text::u64_to_string;
use vstd::prelude::*;
use vstd::string::StrSliceExecFns;
use vstd::string::StringExecFns;

verus! {

/// The mathematical value of a JSON document.
pub enum JsonV {
    Null,
    Bool(bool),
    Int(int),
    Str(Seq<char>),
    Arr(Seq<JsonV>),
    Obj(Seq<(Seq<char>, JsonV)>),
}

/// A JSON document. Object members keep their insertion order.
#[derive(Debug, PartialEq)]
pub enum Json {
    Null,
    Bool(bool),
    Int(i64),
    UInt(u64),
    Str(String),
    Arr(Vec<Json>),
    Obj(Vec<(String, Json)>),
}

pub open spec fn view_list(s: Seq<Json>) -> Seq<JsonV>
    decreases s,
{
    if s.len() == 0 {
        Seq::empty()
    } else {
        seq![s[0]@] + view_list(s.drop_first())
    }
}

pub open spec fn view_members(s: Seq<(String, Json)>) -> Seq<(Seq<char>, JsonV)>
    decreases s,
{
    if s.len() == 0 {
        Seq::empty()
    } else {
        seq![(s[0].0@, s[0].1@)] + view_members(s.drop_first())
    }
}

impl View for Json {
    type V = JsonV;

    open spec fn view(&self) -> JsonV
        decreases self,
    {
        match self {
            Json::Null => JsonV::Null,
            Json::Bool(b) => JsonV::Bool(*b),
            Json::Int(i) => JsonV::Int(*i as int),
            Json::UInt(u) => JsonV::Int(*u as int),
            Json::Str(s) => JsonV::Str(s@),
            Json::Arr(v) => JsonV::Arr(view_list(v@)),
            Json::Obj(m) => JsonV::Obj(view_members(m@)),
        }
    }
}

pub proof fn lemma_view_list(s: Seq<Json>)
    ensures
        view_list(s).len() == s.len(),
        forall|i: int| 0 <= i < s.len() ==> view_list(s)[i] == s[i]@,
    decreases s,
{
    if s.len() > 0 {
        lemma_view_list(s.drop_first());
        assert(view_list(s) == seq![s[0]@] + view_list(s.drop_first()));
        assert(view_list(s).len() == s.len());
        assert forall|i: int| 0 <= i < s.len() implies view_list(s)[i] == s[i]@ by {
            if i > 0 {
                assert(view_list(s)[i] == view_list(s.drop_first())[i - 1]);
                assert(s.drop_first()[i - 1] == s[i]);
            }
        }
    }
}

pub proof fn lemma_view_members(s: Seq<(String, Json)>)
    ensures
        view_members(s).len() == s.len(),
        forall|i: int|
            0 <= i < s.len() ==> view_members(s)[i] == (s[i].0@, s[i].1@),
    decreases s,
{
    if s.len() > 0 {
        lemma_view_members(s.drop_first());
        assert(view_members(s) == seq![(s[0].0@, s[0].1@)] + view_members(s.drop_first()));
        assert forall|i: int|
            0 <= i < s.len() implies view_members(s)[i] == (s[i].0@, s[i].1@) by {
            if i > 0 {
                assert(view_members(s)[i] == view_members(s.drop_first())[i - 1]);
                assert(s.drop_first()[i - 1] == s[i]);
            }
        }
    }
}

pub open spec fn hex_digit(d: nat) -> char {
    if d < 10 {
        (('0' as u8) + d as u8) as char
    } else {
        (('a' as u8) + (d - 10) as u8) as char
    }
}

/// How one character appears inside a JSON string literal.
pub open spec fn esc_char(c: char) -> Seq<char> {
    if c == '"' {
        seq!['\\', '"']
    } else if c == '\\' {
        seq!['\\', '\\']
    } else if c == '\n' {
        seq!['\\', 'n']
    } else if c == '\r' {
        seq!['\\', 'r']
    } else if c == '\t' {
        seq!['\\', 't']
    } else if (c as u32) < 32 {
        seq!['\\', 'u', '0', '0'] + seq![
            hex_digit(((c as u32) / 16) as nat),
            hex_digit(((c as u32) % 16) as nat),
        ]
    } else {
        seq![c]
    }
}

pub open spec fn escape_seq(s: Seq<char>) -> Seq<char>
    decreases s,
{
    if s.len() == 0 {
        Seq::empty()
    } else {
        esc_char(s[0]) + escape_seq(s.drop_first())
    }
}

/// The canonical text of a JSON value: no white space, object members in
/// their stored order, strings escaped as `esc_char` says.
pub open spec fn text_of(j: JsonV) -> Seq<char>
    decreases j, 1nat,
{
    match j {
        JsonV::Null => "null"@,
        JsonV::Bool(b) => if b {
            "true"@
        } else {
            "false"@
        },
        JsonV::Int(i) => dec_int(i),
        JsonV::Str(s) => seq!['"'] + escape_seq(s) + seq!['"'],
        JsonV::Arr(items) => seq!['['] + arr_text(items) + seq![']'],
        JsonV::Obj(members) => seq!['{'] + obj_text(members) + seq!['}'],
    }
}

pub open spec fn arr_text(items: Seq<JsonV>) -> Seq<char>
    decreases items, 0nat,
{
    if items.len() == 0 {
        Seq::empty()
    } else if items.len() == 1 {
        text_of(items[0])
    } else {
        text_of(items[0]) + seq![','] + arr_text(items.drop_first())
    }
}

pub open spec fn member_text(m: (Seq<char>, JsonV)) -> Seq<char>
    decreases m, 3nat,
{
    seq!['"'] + escape_seq(m.0) + seq!['"', ':'] + text_of(m.1)
}

pub open spec fn obj_text(members: Seq<(Seq<char>, JsonV)>) -> Seq<char>
    decreases members, 2nat,
{
    if members.len() == 0 {
        Seq::empty()
    } else if members.len() == 1 {
        member_text(members[0])
    } else {
        member_text(members[0]) + seq![','] + obj_text(members.drop_first())
    }
}

fn hex_digit_char(d: u8) -> (r: char)
    requires
        d < 16,
    ensures
        r == hex_digit(d as nat),
{
    if d < 10 {
        (0x30 + d) as char
    } else {
        (0x61 + (d - 10)) as char
    }
}

fn esc_char_string(c: char) -> (r: String)
    ensures
        r@ == esc_char(c),
{
    let mut out = String::new();
    if c == '"' {
        out.push('\\');
        out.push('"');
    } else if c == '\\' {
        out.push('\\');
        out.push('\\');
    } else if c == '\n' {
        out.push('\\');
        out.push('n');
    } else if c == '\r' {
        out.push('\\');
        out.push('r');
    } else if c == '\t' {
        out.push('\\');
        out.push('t');
    } else if (c as u32) < 32 {
        out.push('\\');
        out.push('u');
        out.push('0');
        out.push('0');
        out.push(hex_digit_char((c as u32 / 16) as u8));
        out.push(hex_digit_char((c as u32 % 16) as u8));
    } else {
        out.push(c);
    }
    proof {
        assert(out@ =~= esc_char(c));
    }
    out
}

/// The escaped form of the characters of `s` from position `i` on.
fn escape_from(s: &str, i: usize) -> (r: String)
    requires
        i <= s@.len(),
    ensures
        r@ == escape_seq(s@.skip(i as int)),
    decreases s@.len() - i,
{
    let len = s.unicode_len();
    if i == len {
        proof {
            assert(s@.skip(i as int) =~= Seq::<char>::empty());
        }
        String::new()
    } else {
        let mut out = esc_char_string(s.get_char(i));
        let rest = escape_from(s, i + 1);
        out.append(rest.as_str());
        proof {
            assert(s@.skip(i as int).drop_first() =~= s@.skip(i as int + 1));
            assert(s@.skip(i as int)[0] == s@[i as int]);
        }
        out
    }
}

/// A JSON string literal holding the characters of `s`.
fn quoted(s: &str) -> (r: String)
    ensures
        r@ == seq!['"'] + escape_seq(s@) + seq!['"'],
{
    let mut out = String::new();
    out.push('"');
    proof {
        assert(s@.skip(0) =~= s@);
    }
    out.append(escape_from(s, 0).as_str());
    out.push('"');
    proof {
        assert(out@ =~= seq!['"'] + escape_seq(s@) + seq!['"']);
    }
    out
}

impl Json {
    /// Renders the document as JSON text.
    pub fn to_text(&self) -> (r: String)
        ensures
            r@ == text_of(self@),
        decreases self, 1nat,
    {
        match self {
            Json::Null => {
                let out = String::from_str("null");
                out
            },
            Json::Bool(b) => {
                if *b {
                    String::from_str("true")
                } else {
                    String::from_str("false")
                }
            },
            Json::Int(i) => i64_to_string(*i),
            Json::UInt(u) => u64_to_string(*u),
            Json::Str(s) => quoted(s.as_str()),
            Json::Arr(v) => {
                let mut out = String::new();
                out.push('[');
                let inner = Self::arr_items_text(v, 0);
                out.append(inner.as_str());
                out.push(']');
                proof {
                    lemma_view_list(v@);
                    assert(view_list(v@).skip(0) =~= view_list(v@));
                    assert(out@ =~= seq!['['] + arr_text(view_list(v@)) + seq![']']);
                }
                out
            },
            Json::Obj(m) => {
                let mut out = String::new();
                out.push('{');
                let inner = Self::obj_members_text(m, 0);
                out.append(inner.as_str());
                out.push('}');
                proof {
                    lemma_view_members(m@);
                    assert(view_members(m@).skip(0) =~= view_members(m@));
                    assert(out@ =~= seq!['{'] + obj_text(view_members(m@)) + seq!['}']);
                }
                out
            },
        }
    }

    /// The comma-separated text of the array elements from position `i` on.
    fn arr_items_text(v: &Vec<Json>, i: usize) -> (r: String)
        requires
            i <= v@.len(),
        ensures
            r@ == arr_text(view_list(v@).skip(i as int)),
        decreases *v, 0nat, v@.len() - i,
    {
        proof {
            lemma_view_list(v@);
        }
        if i == v.len() {
            proof {
                assert(view_list(v@).skip(i as int) =~= Seq::<JsonV>::empty());
            }
            String::new()
        } else {
            proof {
                assert(decreases_to!(*v => v@[i as int]));
            }
            let mut out = v[i].to_text();
            proof {
                assert(view_list(v@).skip(i as int)[0] == view_list(v@)[i as int]);
            }
            if i + 1 < v.len() {
                out.push(',');
                let rest = Self::arr_items_text(v, i + 1);
                out.append(rest.as_str());
                proof {
                    assert(view_list(v@).skip(i as int).drop_first() =~= view_list(v@).skip(
                        i as int + 1,
                    ));
                }
            } else {
                proof {
                    assert(view_list(v@).skip(i as int).len() == 1);
                }
            }
            out
        }
    }

    /// The comma-separated text of the object members from position `i` on.
    fn obj_members_text(m: &Vec<(String, Json)>, i: usize) -> (r: String)
        requires
            i <= m@.len(),
        ensures
            r@ == obj_text(view_members(m@).skip(i as int)),
        decreases *m, 0nat, m@.len() - i,
    {
        proof {
            lemma_view_members(m@);
        }
        if i == m.len() {
            proof {
                assert(view_members(m@).skip(i as int) =~= Seq::<(Seq<char>, JsonV)>::empty());
            }
            String::new()
        } else {
            proof {
                assert(decreases_to!(*m => m@[i as int]));
                assert(decreases_to!(m@[i as int] => m@[i as int].1));
            }
            let mut out = quoted(m[i].0.as_str());
            out.push(':');
            let val = m[i].1.to_text();
            out.append(val.as_str());
            proof {
                assert(view_members(m@).skip(i as int)[0] == view_members(m@)[i as int]);
                assert(out@ =~= member_text(view_members(m@).skip(i as int)[0]));
            }
            if i + 1 < m.len() {
                out.push(',');
                let rest = Self::obj_members_text(m, i + 1);
                out.append(rest.as_str());
                proof {
                    assert(view_members(m@).skip(i as int).drop_first() =~= view_members(m@).skip(
                        i as int + 1,
                    ));
                }
            } else {
                proof {
                    assert(view_members(m@).skip(i as int).len() == 1);
                }
            }
            out
        }
    }
}

} // verus!
