use vstd::prelude::*;

use crate::json::{Json, JsonV};

verus! {

/// The character that `~` followed by `c` stands for, if any.
pub open spec fn unescaped(c: char) -> Option<char> {
    if c == '0' {
        Some('~')
    } else if c == '1' {
        Some('/')
    } else {
        None
    }
}

/// Reads what follows a `/` of a pointer: the first reference token, then the
/// tokens after it; `None` where a `~` is not followed by `0` or `1`.
pub open spec fn scan_tokens(s: Seq<char>) -> Option<(Seq<char>, Seq<Seq<char>>)>
    decreases s.len(),
{
    if s.len() == 0 {
        Some((Seq::empty(), Seq::empty()))
    } else if s[0] == '/' {
        match scan_tokens(s.drop_first()) {
            Some((t, ts)) => Some((Seq::empty(), seq![t] + ts)),
            None => None,
        }
    } else if s[0] == '~' {
        if s.len() >= 2 && unescaped(s[1]) is Some {
            match scan_tokens(s.skip(2)) {
                Some((t, ts)) => Some((seq![unescaped(s[1])->0] + t, ts)),
                None => None,
            }
        } else {
            None
        }
    } else {
        match scan_tokens(s.drop_first()) {
            Some((t, ts)) => Some((seq![s[0]] + t, ts)),
            None => None,
        }
    }
}

/// The reference tokens of a JSON pointer: none for the empty pointer, which
/// names the whole document; `None` for a malformed pointer.
pub open spec fn parse_pointer(p: Seq<char>) -> Option<Seq<Seq<char>>> {
    if p.len() == 0 {
        Some(Seq::empty())
    } else if p[0] != '/' {
        None
    } else {
        match scan_tokens(p.drop_first()) {
            Some((t, ts)) => Some(seq![t] + ts),
            None => None,
        }
    }
}

/// The tokens read so far, the token being read, and what the rest yields.
pub open spec fn assemble(
    done: Seq<Seq<char>>,
    cur: Seq<char>,
    rest: Option<(Seq<char>, Seq<Seq<char>>)>,
) -> Option<Seq<Seq<char>>> {
    match rest {
        Some((t, ts)) => Some(done + seq![cur + t] + ts),
        None => None,
    }
}

pub open spec fn string_views(v: Seq<String>) -> Seq<Seq<char>> {
    v.map_values(|s: String| s@)
}

/// Relies on String::push: appends one character at the end.
#[verifier::external_body]
fn push_char(s: &mut String, c: char)
    ensures
        final(s)@ == old(s)@.push(c),
{
    s.push(c)
}

/// Splits a JSON pointer into its reference tokens, with `~1` read as `/` and
/// `~0` as `~`.
pub fn parse_tokens(p: &str) -> (r: Option<Vec<String>>)
    ensures
        match r {
            Some(v) => parse_pointer(p@) == Some(string_views(v@)),
            None => parse_pointer(p@) is None,
        },
{
    let n = p.unicode_len();
    if n == 0 {
        let v: Vec<String> = Vec::new();
        assert(string_views(v@) =~= Seq::empty());
        return Some(v);
    }
    if p.get_char(0) != '/' {
        return None;
    }
    let mut done: Vec<String> = Vec::new();
    let mut cur = String::new();
    let mut i: usize = 1;
    assert(p@.skip(1) =~= p@.drop_first());
    assert(string_views(done@) =~= Seq::empty());
    proof {
        match scan_tokens(p@.drop_first()) {
            Some((t, ts)) => {
                assert(Seq::<char>::empty() + t =~= t);
                assert(Seq::<Seq<char>>::empty() + seq![t] + ts =~= seq![t] + ts);
            },
            None => {},
        }
    }
    while i < n
        invariant
            1 <= i <= n,
            n == p@.len(),
            parse_pointer(p@) == assemble(string_views(done@), cur@, scan_tokens(p@.skip(i as int))),
        decreases n - i,
    {
        let ghost s = p@.skip(i as int);
        let c = p.get_char(i);
        assert(s[0] == c);
        if c == '/' {
            proof {
                assert(s.drop_first() =~= p@.skip(i + 1));
                match scan_tokens(s.drop_first()) {
                    Some((t, ts)) => {
                        let d = string_views(done@);
                        assert(cur@ + Seq::<char>::empty() =~= cur@);
                        assert(Seq::<char>::empty() + t =~= t);
                        assert(d + seq![cur@] + (seq![t] + ts) =~= d.push(cur@) + seq![t] + ts);
                    },
                    None => {},
                }
            }
            let ghost before = done@;
            let ghost token = cur@;
            done.push(cur);
            assert(string_views(done@) =~= string_views(before).push(token));
            cur = String::new();
            i = i + 1;
        } else if c == '~' {
            if i + 1 < n {
                let d = p.get_char(i + 1);
                if d == '0' || d == '1' {
                    let e = if d == '0' { '~' } else { '/' };
                    proof {
                        assert(s.skip(2) =~= p@.skip(i + 2));
                        match scan_tokens(s.skip(2)) {
                            Some((t, ts)) => {
                                assert(cur@ + (seq![e] + t) =~= cur@.push(e) + t);
                            },
                            None => {},
                        }
                    }
                    push_char(&mut cur, e);
                    i = i + 2;
                } else {
                    return None;
                }
            } else {
                return None;
            }
        } else {
            proof {
                assert(s.drop_first() =~= p@.skip(i + 1));
                match scan_tokens(s.drop_first()) {
                    Some((t, ts)) => {
                        assert(cur@ + (seq![c] + t) =~= cur@.push(c) + t);
                    },
                    None => {},
                }
            }
            push_char(&mut cur, c);
            i = i + 1;
        }
    }
    proof {
        assert(p@.skip(i as int) =~= Seq::<char>::empty());
        let d = string_views(done@);
        assert(d + seq![cur@ + Seq::<char>::empty()] + Seq::<Seq<char>>::empty() =~= d.push(cur@));
    }
    let ghost before = done@;
    done.push(cur);
    assert(string_views(done@) =~= string_views(before).push(cur@));
    Some(done)
}

/// The value of the first member named `name`.
pub open spec fn find_member(keys: Seq<Seq<char>>, vals: Seq<JsonV>, name: Seq<char>) -> Option<
    JsonV,
> {
    if exists|i: int| 0 <= i < keys.len() && keys[i] == name {
        let i = choose|i: int|
            0 <= i < keys.len() && keys[i] == name && forall|j: int|
                0 <= j < i ==> keys[j] != name;
        Some(vals[i])
    } else {
        None
    }
}

pub open spec fn is_digit(c: char) -> bool {
    '0' <= c <= '9'
}

/// The number that a run of decimal digits spells.
pub open spec fn digits_value(t: Seq<char>) -> nat
    decreases t.len(),
{
    if t.len() == 0 {
        0
    } else {
        digits_value(t.drop_last()) * 10 + (t.last() as nat - '0' as nat) as nat
    }
}

/// The array index that a reference token names: `0`, or digits without a
/// leading zero.
pub open spec fn index_token(t: Seq<char>) -> Option<nat> {
    if t.len() > 0 && (forall|i: int| 0 <= i < t.len() ==> is_digit(#[trigger] t[i])) && (t.len()
        == 1 || t[0] != '0') {
        Some(digits_value(t))
    } else {
        None
    }
}

/// The value that one reference token selects inside `doc`.
pub open spec fn child(doc: JsonV, tok: Seq<char>) -> Option<JsonV> {
    match doc {
        JsonV::Object(keys, vals) => find_member(keys, vals, tok),
        JsonV::Array(items) => match index_token(tok) {
            Some(k) => if k < items.len() {
                Some(items[k as int])
            } else {
                None
            },
            None => None,
        },
        _ => None,
    }
}

/// The value that a sequence of reference tokens selects inside `doc`.
pub open spec fn lookup(doc: JsonV, path: Seq<Seq<char>>) -> Option<JsonV>
    decreases path.len(),
{
    if path.len() == 0 {
        Some(doc)
    } else {
        match child(doc, path[0]) {
            Some(c) => lookup(c, path.drop_first()),
            None => None,
        }
    }
}

/// The value that a pointer string selects inside `doc`, if it is well formed
/// and the location exists.
pub open spec fn lookup_pointer(doc: JsonV, p: Seq<char>) -> Option<JsonV> {
    match parse_pointer(p) {
        Some(path) => lookup(doc, path),
        None => None,
    }
}

/// Reads an array index from a reference token; `None` where the token is no
/// index or the index is not below `bound`.
pub fn parse_index(t: &String, bound: usize) -> (r: Option<usize>)
    ensures
        match r {
            Some(k) => index_token(t@) == Some(k as nat) && k < bound,
            None => match index_token(t@) {
                Some(k) => k >= bound,
                None => true,
            },
        },
{
    let s = t.as_str();
    let n = s.unicode_len();
    if n == 0 {
        return None;
    }
    if n > 1 && s.get_char(0) == '0' {
        return None;
    }
    let mut acc: u128 = 0;
    let mut big = false;
    let mut i: usize = 0;
    while i < n
        invariant
            i <= n,
            n == t@.len(),
            s@ == t@,
            forall|k: int| 0 <= k < i ==> is_digit(#[trigger] t@[k]),
            !big ==> acc == digits_value(t@.take(i as int)) && acc <= bound,
            big ==> digits_value(t@.take(i as int)) > bound,
        decreases n - i,
    {
        let c = s.get_char(i);
        if !('0' <= c && c <= '9') {
            return None;
        }
        assert(t@.take(i + 1).drop_last() =~= t@.take(i as int));
        let d = (c as u32 - '0' as u32) as u128;
        if !big {
            acc = acc * 10 + d;
            if acc > bound as u128 {
                big = true;
            }
        }
        i = i + 1;
    }
    assert(t@.take(n as int) =~= t@);
    if big || acc >= bound as u128 {
        None
    } else {
        Some(acc as usize)
    }
}

impl Json {
    /// The value that one reference token selects inside this document.
    pub fn child<'a>(&'a self, tok: &String) -> (r: Option<&'a Json>)
        ensures
            match r {
                Some(c) => child(self@, tok@) == Some(c@),
                None => child(self@, tok@) is None,
            },
    {
        match self {
            Json::Object(fields) => {
                let mut i: usize = 0;
                while i < fields.len()
                    invariant
                        i <= fields.len(),
                        *self == Json::Object(*fields),
                        forall|j: int| 0 <= j < i ==> fields[j].0@ != tok@,
                    decreases fields.len() - i,
                {
                    if fields[i].0 == *tok {
                        let ghost keys = self@->Object_0;
                        assert(keys[i as int] == tok@);
                        assert(forall|j: int| 0 <= j < i ==> keys[j] != tok@);
                        return Some(&fields[i].1);
                    }
                    i = i + 1;
                }
                let ghost keys = self@->Object_0;
                assert(forall|j: int| 0 <= j < keys.len() ==> keys[j] != tok@);
                None
            },
            Json::Array(items) => match parse_index(tok, items.len()) {
                Some(k) => Some(&items[k]),
                None => None,
            },
            _ => None,
        }
    }

    /// The value that a sequence of reference tokens selects inside this
    /// document.
    pub fn lookup<'a>(&'a self, path: &Vec<String>) -> (r: Option<&'a Json>)
        ensures
            match r {
                Some(c) => lookup(self@, string_views(path@)) == Some(c@),
                None => lookup(self@, string_views(path@)) is None,
            },
    {
        let ghost full = string_views(path@);
        let mut cur: &Json = self;
        let mut i: usize = 0;
        assert(full.skip(0) =~= full);
        while i < path.len()
            invariant
                i <= path.len(),
                full == string_views(path@),
                lookup(self@, full) == lookup(cur@, full.skip(i as int)),
            decreases path.len() - i,
        {
            let ghost rest = full.skip(i as int);
            assert(rest[0] == path[i as int]@);
            assert(rest.drop_first() =~= full.skip(i + 1));
            match cur.child(&path[i]) {
                Some(c) => {
                    cur = c;
                },
                None => {
                    return None;
                },
            }
            i = i + 1;
        }
        assert(full.skip(i as int) =~= Seq::<Seq<char>>::empty());
        Some(cur)
    }
}

} // verus!
