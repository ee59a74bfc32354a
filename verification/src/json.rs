//! A plain JSON value tree. The calendar provider answers with a JSON
//! document; the shape checks and the extraction work on this tree, so they
//! can be verified. Whatever reads the provider's bytes converts them into
//! this type one node for one node.

use vstd::prelude::*;

verus! {

/// One JSON value. A number is kept only when it is an integer that fits
/// `i64`; any other number is carried as `BigNum`, which no extraction
/// accepts. An object keeps its members in order; a lookup takes the first
/// member with the asked-for name.
pub enum JsonValue {
    Null,
    Bool(bool),
    Int(i64),
    BigNum,
    Str(String),
    Arr(Vec<JsonValue>),
    Obj(Vec<(String, JsonValue)>),
}

/// The first member of `ps` named `key`, if any.
pub open spec fn pairs_get(ps: Seq<(String, JsonValue)>, key: Seq<char>) -> Option<JsonValue>
    decreases ps.len(),
{
    if ps.len() == 0 {
        None
    } else if ps[0].0@ == key {
        Some(ps[0].1)
    } else {
        pairs_get(ps.skip(1), key)
    }
}

/// The member of object `v` named `key`: `None` when `v` is not an object
/// or has no such member.
pub open spec fn json_get(v: JsonValue, key: Seq<char>) -> Option<JsonValue> {
    match v {
        JsonValue::Obj(ps) => pairs_get(ps@, key),
        _ => None,
    }
}

/// How one character is written inside a JSON string literal: quote,
/// backslash and the common control characters get a backslash escape,
/// everything else stands as itself.
pub open spec fn escape_char(c: char) -> Seq<char> {
    if c == '"' {
        seq!['\\', '"']
    } else if c == '\\' {
        seq!['\\', '\\']
    } else if c == '\n' {
        seq!['\\', 'n']
    } else if c == '\r' {
        seq!['\\', 'r']
    } else if c == '\t' {
        seq!['\\', 't']
    } else {
        seq![c]
    }
}

/// A text as it is written inside a JSON string literal: each character
/// escaped in turn.
pub open spec fn escape_seq(s: Seq<char>) -> Seq<char>
    decreases s.len(),
{
    if s.len() == 0 {
        Seq::empty()
    } else {
        escape_char(s[0]) + escape_seq(s.skip(1))
    }
}

/// Escaping a text one character longer appends that character's escape.
proof fn lemma_escape_snoc(s: Seq<char>, i: int)
    requires
        0 <= i < s.len(),
    ensures
        escape_seq(s.take(i + 1)) == escape_seq(s.take(i)) + escape_char(s[i]),
    decreases i,
{
    let t = s.take(i + 1);
    assert(t.skip(1) =~= s.skip(1).take(i));
    if i == 0 {
        assert(t.skip(1) =~= Seq::<char>::empty());
        assert(escape_seq(t) == escape_char(s[0]) + escape_seq(Seq::<char>::empty()));
        assert(s.take(0) =~= Seq::<char>::empty());
        assert(escape_char(s[0]) + Seq::<char>::empty() =~= escape_char(s[0]));
        assert(escape_seq(s.take(0)) + escape_char(s[0]) =~= escape_char(s[0]));
    } else {
        lemma_escape_snoc(s.skip(1), i - 1);
        assert(s.skip(1).take(i - 1) =~= s.take(i).skip(1));
        assert(s.skip(1)[i - 1] == s[i]);
        assert(escape_seq(t) == escape_char(s[0]) + (escape_seq(s.take(i).skip(1)) + escape_char(
            s[i],
        )));
        assert(escape_seq(s.take(i)) == escape_char(s[0]) + escape_seq(s.take(i).skip(1)));
        assert(escape_char(s[0]) + (escape_seq(s.take(i).skip(1)) + escape_char(s[i])) =~= (
        escape_char(s[0]) + escape_seq(s.take(i).skip(1))) + escape_char(s[i]));
    }
}

/// Write a text as it goes inside a JSON string literal.
pub fn escape_json_text(s: &str) -> (r: String)
    ensures
        r@ == escape_seq(s@),
{
    let n = s.unicode_len();
    let mut out = String::new();
    proof {
        assert(s@.take(0) =~= Seq::<char>::empty());
    }
    let mut i: usize = 0;
    while i < n
        invariant
            n == s@.len(),
            0 <= i <= n,
            out@ == escape_seq(s@.take(i as int)),
        decreases n - i,
    {
        let c = s.get_char(i);
        if c == '"' {
            out.append("\\\"");
            proof {
                reveal_strlit("\\\"");
                assert("\\\""@ =~= escape_char(s@[i as int]));
            }
        } else if c == '\\' {
            out.append("\\\\");
            proof {
                reveal_strlit("\\\\");
                assert("\\\\"@ =~= escape_char(s@[i as int]));
            }
        } else if c == '\n' {
            out.append("\\n");
            proof {
                reveal_strlit("\\n");
                assert("\\n"@ =~= escape_char(s@[i as int]));
            }
        } else if c == '\r' {
            out.append("\\r");
            proof {
                reveal_strlit("\\r");
                assert("\\r"@ =~= escape_char(s@[i as int]));
            }
        } else if c == '\t' {
            out.append("\\t");
            proof {
                reveal_strlit("\\t");
                assert("\\t"@ =~= escape_char(s@[i as int]));
            }
        } else {
            let piece = s.substring_char(i, i + 1);
            out.append(piece);
            proof {
                assert(piece@ =~= escape_char(s@[i as int]));
            }
        }
        proof {
            lemma_escape_snoc(s@, i as int);
        }
        i = i + 1;
    }
    proof {
        assert(s@.take(n as int) =~= s@);
    }
    out
}

impl JsonValue {
    /// Look up the first member of this object named `key`.
    pub fn get<'a>(&'a self, key: &str) -> (r: Option<&'a JsonValue>)
        ensures
            match r {
                Some(x) => json_get(*self, key@) == Some(*x),
                None => json_get(*self, key@) is None,
            },
    {
        match self {
            JsonValue::Obj(ps) => {
                let key_owned: String = key.to_owned();
                proof {
                    assert(ps@.skip(0) =~= ps@);
                }
                let mut i: usize = 0;
                while i < ps.len()
                    invariant
                        0 <= i <= ps@.len(),
                        key_owned@ == key@,
                        json_get(*self, key@) == pairs_get(ps@, key@),
                        pairs_get(ps@, key@) == pairs_get(ps@.skip(i as int), key@),
                    decreases ps@.len() - i,
                {
                    if ps[i].0 == key_owned {
                        proof {
                            assert(ps@.skip(i as int)[0] == ps@[i as int]);
                            assert(ps@[i as int].0@ == key@);
                            assert(pairs_get(ps@.skip(i as int), key@) == Some(ps@[i as int].1));
                        }
                        return Some(&ps[i].1);
                    }
                    proof {
                        assert(ps@.skip(i as int)[0] == ps@[i as int]);
                        assert(ps@.skip(i as int).skip(1) =~= ps@.skip(i + 1));
                    }
                    i = i + 1;
                }
                proof {
                    assert(ps@.skip(i as int).len() == 0);
                }
                None
            },
            _ => None,
        }
    }

    /// This value's elements, when it is an array.
    pub fn as_arr<'a>(&'a self) -> (r: Option<&'a Vec<JsonValue>>)
        ensures
            match r {
                Some(a) => *self == JsonValue::Arr(*a),
                None => !(self is Arr),
            },
    {
        match self {
            JsonValue::Arr(a) => Some(a),
            _ => None,
        }
    }

    /// This value's text, when it is a string.
    pub fn as_str<'a>(&'a self) -> (r: Option<&'a String>)
        ensures
            match r {
                Some(s) => *self == JsonValue::Str(*s),
                None => !(self is Str),
            },
    {
        match self {
            JsonValue::Str(s) => Some(s),
            _ => None,
        }
    }

    /// This value's integer, when it is one that fits `i64`.
    pub fn as_int(&self) -> (r: Option<i64>)
        ensures
            match r {
                Some(n) => *self == JsonValue::Int(n),
                None => !(self is Int),
            },
    {
        match self {
            JsonValue::Int(n) => Some(*n),
            _ => None,
        }
    }
}

} // verus!
