use vstd::prelude::*;

use crate::json::{Json, JsonV};
use crate::pointer::{child, find_member, lookup_pointer};
use crate::ui::{field_name, is_default_state, BoolButton, ButtonState, DashboarTx, Form, InputField};
use crate::value::{find, pointer_failure, resolve, PointerResolutionError, Value};

verus! {

broadcast use vstd::std_specs::vec::axiom_vec_index_decreases;

/// The member name that marks a pointer inside a template.
pub open spec fn pointer_key() -> Seq<char> {
    seq!['p', 'o', 'i', 'n', 't', 'e', 'r']
}

/// The path of a template value that stands for a pointer: an object whose
/// one member is `pointer`, holding a string.
pub open spec fn template_pointer(t: JsonV) -> Option<Seq<char>> {
    match t {
        JsonV::Object(keys, vals) => if keys.len() == 1 && vals.len() == 1 && keys[0]
            == pointer_key() && vals[0] is Str {
            Some(vals[0]->Str_0)
        } else {
            None
        },
        _ => None,
    }
}

/// A template with every pointer in it replaced by the value it selects in
/// `doc`; `None` where a pointer selects nothing.
pub open spec fn resolve_template(t: JsonV, doc: JsonV) -> Option<JsonV>
    decreases t,
{
    match template_pointer(t) {
        Some(p) => lookup_pointer(doc, p),
        None => match t {
            JsonV::Array(items) => match resolve_all(items, doc) {
                Some(r) => Some(JsonV::Array(r)),
                None => None,
            },
            JsonV::Object(keys, vals) => match resolve_all(vals, doc) {
                Some(r) => Some(JsonV::Object(keys, r)),
                None => None,
            },
            _ => Some(t),
        },
    }
}

/// Each template of a sequence resolved, or `None` where one fails.
pub open spec fn resolve_all(items: Seq<JsonV>, doc: JsonV) -> Option<Seq<JsonV>>
    decreases items,
{
    if items.len() == 0 {
        Some(Seq::empty())
    } else {
        let front = items.subrange(0, items.len() - 1);
        match resolve_all(front, doc) {
            Some(r) => match resolve_template(items[items.len() - 1], doc) {
                Some(x) => Some(r.push(x)),
                None => None,
            },
            None => None,
        }
    }
}

fn pointer_path(t: &Json) -> (r: Option<&String>)
    ensures
        match r {
            Some(p) => template_pointer(t@) == Some(p@),
            None => template_pointer(t@) is None,
        },
{
    match t {
        Json::Object(fields) => {
            if fields.len() != 1 {
                return None;
            }
            let key = fields[0].0.as_str();
            if key.unicode_len() != 7 {
                return None;
            }
            let mut i: usize = 0;
            while i < 7
                invariant
                    i <= 7,
                    *t == Json::Object(*fields),
                    fields.len() == 1,
                    key@ == fields[0].0@,
                    key@.len() == 7,
                    forall|k: int| 0 <= k < i ==> key@[k] == pointer_key()[k],
                decreases 7 - i,
            {
                let c = key.get_char(i);
                let want = if i == 0 {
                    'p'
                } else if i == 1 {
                    'o'
                } else if i == 2 {
                    'i'
                } else if i == 3 {
                    'n'
                } else if i == 4 {
                    't'
                } else if i == 5 {
                    'e'
                } else {
                    'r'
                };
                assert(pointer_key()[i as int] == want);
                if c != want {
                    assert(key@[i as int] != pointer_key()[i as int]);
                    assert(t@->Object_0[0] == key@);
                    return None;
                }
                i = i + 1;
            }
            assert(key@ =~= pointer_key());
            assert(t@->Object_0[0] == key@);
            assert(t@->Object_1[0] == fields[0].1@);
            match &fields[0].1 {
                Json::Str(p) => Some(p),
                _ => None,
            }
        },
        _ => None,
    }
}

/// Replaces every pointer in a template by a copy of the value it selects in
/// the document; the first pointer that selects nothing is reported instead.
pub fn resolve_template_in(t: &Json, doc: &Json) -> (r: Result<Json, PointerResolutionError>)
    ensures
        match r {
            Ok(j) => resolve_template(t@, doc@) == Some(j@),
            Err(_) => resolve_template(t@, doc@) is None,
        },
    decreases t,
{
    match pointer_path(t) {
        Some(p) => {
            return match find(p, doc) {
                Ok(j) => Ok(j.copy()),
                Err(e) => Err(e),
            };
        },
        None => {},
    }
    match t {
        Json::Array(items) => {
            let mut out: Vec<Json> = Vec::new();
            let mut i: usize = 0;
            let ghost all = t@->Array_0;
            assert(all.subrange(0, 0) =~= Seq::<JsonV>::empty());
            while i < items.len()
                invariant
                    i <= items.len(),
                    *t == Json::Array(*items),
                    all == t@->Array_0,
                    out.len() == i,
                    resolve_all(all.subrange(0, i as int), doc@) == Some(
                        Seq::new(i as nat, |k: int| out[k]@),
                    ),
                decreases items.len() - i,
            {
                proof {
                    assert(decreases_to!(*t => t->Array_0));
                    assert(decreases_to!(t->Array_0 => t->Array_0[i as int]));
                }
                let next = resolve_template_in(&items[i], doc);
                let ghost front = all.subrange(0, i as int);
                let ghost grown = all.subrange(0, i + 1);
                assert(grown.subrange(0, grown.len() - 1) =~= front);
                assert(grown[grown.len() - 1] == items[i as int]@);
                match next {
                    Ok(x) => {
                        let ghost before = Seq::new(i as nat, |k: int| out[k]@);
                        out.push(x);
                        assert(Seq::new((i + 1) as nat, |k: int| out[k]@) =~= before.push(
                            out[i as int]@,
                        ));
                    },
                    Err(e) => {
                        assert(resolve_all(all, doc@) is None) by {
                            lemma_resolve_all_prefix(all, doc@, i + 1);
                        }
                        return Err(e);
                    },
                }
                i = i + 1;
            }
            assert(all.subrange(0, i as int) =~= all);
            let r = Json::Array(out);
            assert(r@->Array_0 =~= Seq::new(i as nat, |k: int| out[k]@));
            Ok(r)
        },
        Json::Object(fields) => {
            let mut out: Vec<(String, Json)> = Vec::new();
            let mut i: usize = 0;
            let ghost vals = t@->Object_1;
            assert(vals.subrange(0, 0) =~= Seq::<JsonV>::empty());
            while i < fields.len()
                invariant
                    i <= fields.len(),
                    *t == Json::Object(*fields),
                    vals == t@->Object_1,
                    out.len() == i,
                    forall|k: int| 0 <= k < i ==> (#[trigger] out[k]).0@ == fields[k].0@,
                    resolve_all(vals.subrange(0, i as int), doc@) == Some(
                        Seq::new(i as nat, |k: int| out[k].1@),
                    ),
                decreases fields.len() - i,
            {
                proof {
                    assert(decreases_to!(*t => t->Object_0));
                    assert(decreases_to!(t->Object_0 => t->Object_0[i as int]));
                    assert(decreases_to!(t->Object_0[i as int] => t->Object_0[i as int].1));
                }
                let next = resolve_template_in(&fields[i].1, doc);
                let ghost front = vals.subrange(0, i as int);
                let ghost grown = vals.subrange(0, i + 1);
                assert(grown.subrange(0, grown.len() - 1) =~= front);
                assert(grown[grown.len() - 1] == fields[i as int].1@);
                match next {
                    Ok(x) => {
                        let ghost before = Seq::new(i as nat, |k: int| out[k].1@);
                        out.push((fields[i].0.clone(), x));
                        assert(Seq::new((i + 1) as nat, |k: int| out[k].1@) =~= before.push(
                            out[i as int].1@,
                        ));
                    },
                    Err(e) => {
                        assert(resolve_all(vals, doc@) is None) by {
                            lemma_resolve_all_prefix(vals, doc@, i + 1);
                        }
                        return Err(e);
                    },
                }
                i = i + 1;
            }
            assert(vals.subrange(0, i as int) =~= vals);
            let r = Json::Object(out);
            assert(r@->Object_1 =~= Seq::new(i as nat, |k: int| out[k].1@));
            assert(r@->Object_0 =~= t@->Object_0);
            Ok(r)
        },
        _ => Ok(t.copy()),
    }
}

impl DashboarTx {
    /// The message as it is sent: its template with every pointer replaced by
    /// the value it selects in the document. Where a pointer selects nothing,
    /// nothing is to be sent.
    pub fn resolve(&self, doc: &Json) -> (r: Result<DashboarTx, PointerResolutionError>)
        ensures
            match self {
                DashboarTx::Msg { template } => match r {
                    Ok(DashboarTx::Msg { template: sent }) => resolve_template(template@, doc@)
                        == Some(sent@),
                    Err(_) => resolve_template(template@, doc@) is None,
                },
            },
    {
        match self {
            DashboarTx::Msg { template } => match resolve_template_in(template, doc) {
                Ok(sent) => Ok(DashboarTx::Msg { template: sent }),
                Err(e) => Err(e),
            },
        }
    }
}

impl BoolButton {
    /// Whether the document holds `true` at this toggle's pointer.
    pub fn is_on(&self, doc: &Json) -> (r: Result<bool, PointerResolutionError>)
        ensures
            match r {
                Ok(b) => pointer_failure::<bool>(doc@, self.pointer@) is None && lookup_pointer(
                    doc@,
                    self.pointer@,
                ) == Some(JsonV::Bool(b)),
                Err(e) => e.path@ == self.pointer@ && pointer_failure::<bool>(doc@, self.pointer@)
                    == Some(e.reason),
            },
    {
        resolve(Value::<bool>::Pointer(self.pointer.clone()), doc)
    }

    /// The state that the toggle shows: `on` where the document holds `true`
    /// at its pointer, `off` where it holds `false`.
    pub fn displayed_state(&self, doc: &Json) -> (r: Result<ButtonState, PointerResolutionError>)
        ensures
            match r {
                Ok(s) => {
                    &&& pointer_failure::<bool>(doc@, self.pointer@) is None
                    &&& lookup_pointer(doc@, self.pointer@) is Some
                    &&& lookup_pointer(doc@, self.pointer@)->0 is Bool
                    &&& {
                        let on = lookup_pointer(doc@, self.pointer@)->0->Bool_0;
                        match self.state {
                            Some(st) => s == (if on {
                                st.on
                            } else {
                                st.off
                            }),
                            None => is_default_state(s),
                        }
                    }
                },
                Err(e) => e.path@ == self.pointer@ && pointer_failure::<bool>(doc@, self.pointer@)
                    == Some(e.reason),
            },
    {
        let on = match self.is_on(doc) {
            Ok(b) => b,
            Err(e) => {
                return Err(e);
            },
        };
        match &self.state {
            Some(st) => if on {
                Ok(st.on.copy())
            } else {
                Ok(st.off.copy())
            },
            None => Ok(ButtonState::default()),
        }
    }
}

/// An object with member `name` set to `v`: the first member of that name is
/// replaced, or a new member is added at the end. Other values stay as they are.
pub open spec fn set_member(t: JsonV, name: Seq<char>, v: JsonV) -> JsonV {
    match t {
        JsonV::Object(keys, vals) => if exists|i: int| 0 <= i < keys.len() && keys[i] == name {
            let i = choose|i: int|
                0 <= i < keys.len() && keys[i] == name && forall|j: int|
                    0 <= j < i ==> keys[j] != name;
            JsonV::Object(keys, vals.update(i, v))
        } else {
            JsonV::Object(keys.push(name), vals.push(v))
        },
        _ => t,
    }
}

/// The payload of a form: the template with the entered value of each named
/// field set as a member, in the order of the fields.
pub open spec fn merge_fields(t: JsonV, names: Seq<Seq<char>>, values: JsonV) -> JsonV
    decreases names.len(),
{
    if names.len() == 0 {
        t
    } else {
        let before = merge_fields(t, names.drop_last(), values);
        match child(values, names.last()) {
            Some(v) => set_member(before, names.last(), v),
            None => before,
        }
    }
}

pub open spec fn field_names(fields: Seq<InputField>) -> Seq<Seq<char>> {
    fields.map_values(|f: InputField| field_name(f))
}

fn set_member_in(t: Json, name: String, v: Json) -> (r: Json)
    ensures
        r@ == set_member(t@, name@, v@),
{
    match t {
        Json::Object(mut fields) => {
            let ghost keys = Json::Object(fields)@->Object_0;
            let ghost vals = Json::Object(fields)@->Object_1;
            assert(t@ == JsonV::Object(keys, vals));
            let mut i: usize = 0;
            while i < fields.len()
                invariant
                    i <= fields.len(),
                    keys == Json::Object(fields)@->Object_0,
                    vals == Json::Object(fields)@->Object_1,
                    t@ == JsonV::Object(keys, vals),
                    forall|j: int| 0 <= j < i ==> keys[j] != name@,
                decreases fields.len() - i,
            {
                if fields[i].0 == name {
                    assert(keys[i as int] == name@);
                    proof {
                        let c = choose|c: int|
                            0 <= c < keys.len() && keys[c] == name@ && forall|j: int|
                                0 <= j < c ==> keys[j] != name@;
                        assert(0 <= c < keys.len() && keys[c] == name@ && forall|j: int|
                            0 <= j < c ==> keys[j] != name@);
                        assert(c == i);
                    }
                    fields.set(i, (name, v));
                    let r = Json::Object(fields);
                    assert(r@->Object_0 =~= keys);
                    assert(r@->Object_1 =~= vals.update(i as int, v@));
                    return r;
                }
                i = i + 1;
            }
            let ghost n = fields.len();
            fields.push((name, v));
            let r = Json::Object(fields);
            assert(r@->Object_0 =~= keys.push(name@));
            assert(r@->Object_1 =~= vals.push(v@));
            r
        },
        other => other,
    }
}

/// Sets into a template the entered value of each field that has one in
/// `values`, an object keyed by field name.
pub fn merge_fields_in(template: &Json, fields: &Vec<InputField>, values: &Json) -> (r: Json)
    ensures
        r@ == merge_fields(template@, field_names(fields@), values@),
{
    let ghost names = field_names(fields@);
    let mut cur = template.copy();
    let mut i: usize = 0;
    assert(names.take(0).len() == 0);
    while i < fields.len()
        invariant
            i <= fields.len(),
            names == field_names(fields@),
            cur@ == merge_fields(template@, names.take(i as int), values@),
        decreases fields.len() - i,
    {
        let name = fields[i].name();
        assert(names.take(i + 1).drop_last() =~= names.take(i as int));
        assert(names.take(i + 1).last() == name@);
        match values.child(&name) {
            Some(v) => {
                cur = set_member_in(cur, name, v.copy());
            },
            None => {},
        }
        i = i + 1;
    }
    assert(names.take(i as int) =~= names);
    cur
}

impl Form {
    /// The message that submitting the form sends, if it has one: the
    /// `on_submit` template with the entered values merged in, then its
    /// pointers resolved against the document.
    pub fn submission(&self, values: &Json, doc: &Json) -> (r: Result<
        Option<DashboarTx>,
        PointerResolutionError,
    >)
        ensures
            match self.on_submit {
                None => r == Ok::<Option<DashboarTx>, PointerResolutionError>(None),
                Some(DashboarTx::Msg { template }) => {
                    let names = match self.fields {
                        Some(f) => field_names(f@),
                        None => Seq::empty(),
                    };
                    let merged = merge_fields(template@, names, values@);
                    match r {
                        Ok(Some(DashboarTx::Msg { template: sent })) => resolve_template(
                            merged,
                            doc@,
                        ) == Some(sent@),
                        Ok(None) => false,
                        Err(_) => resolve_template(merged, doc@) is None,
                    }
                },
            },
    {
        match &self.on_submit {
            None => Ok(None),
            Some(DashboarTx::Msg { template }) => {
                let merged = match &self.fields {
                    Some(f) => merge_fields_in(template, f, values),
                    None => {
                        let none: Vec<InputField> = Vec::new();
                        assert(field_names(none@) =~= Seq::empty());
                        merge_fields_in(template, &none, values)
                    },
                };
                match resolve_template_in(&merged, doc) {
                    Ok(sent) => Ok(Some(DashboarTx::Msg { template: sent })),
                    Err(e) => Err(e),
                }
            },
        }
    }
}

/// Where a prefix of a sequence fails to resolve, the whole sequence fails.
proof fn lemma_resolve_all_prefix(items: Seq<JsonV>, doc: JsonV, n: int)
    requires
        0 <= n <= items.len(),
        resolve_all(items.subrange(0, n), doc) is None,
    ensures
        resolve_all(items, doc) is None,
    decreases items.len() - n,
{
    if n < items.len() {
        let grown = items.subrange(0, n + 1);
        assert(grown.subrange(0, grown.len() - 1) =~= items.subrange(0, n));
        lemma_resolve_all_prefix(items, doc, n + 1);
    } else {
        assert(items.subrange(0, n) =~= items);
    }
}

} // verus!
