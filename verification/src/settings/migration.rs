//! Migrating a settings file from one version of the schema to a later one.
use vstd::prelude::*;
use crate::error::{validation, WayclipError};
use crate::settings::schema::{JsonValue, MigrationChange, SettingsDefinition};
use crate::settings::version::{compare_versions, reverse, semver_order, semver_parses, VersionOrder};
use crate::text::{split, split_chars, str_chars, str_eq, string_from_chars, views};

verus! {

/// A JSON value as a mathematical object.
pub enum Json {
    Null,
    Bool(bool),
    Number(Seq<char>),
    Str(Seq<char>),
    Array(Seq<Json>),
    Object(Seq<(Seq<char>, Json)>),
}

/// The mathematical value of a JSON value.
pub open spec fn jview(v: JsonValue) -> Json
    decreases v,
{
    match v {
        JsonValue::Null => Json::Null,
        JsonValue::Bool(b) => Json::Bool(b),
        JsonValue::Number(n) => Json::Number(n@),
        JsonValue::Str(s) => Json::Str(s@),
        JsonValue::Array(a) => Json::Array(elems_view(a@)),
        JsonValue::Object(m) => Json::Object(members_view(m@)),
    }
}

/// The mathematical elements of an array.
pub open spec fn elems_view(a: Seq<JsonValue>) -> Seq<Json>
    decreases a,
{
    Seq::new(
        a.len(),
        |i: int|
            if 0 <= i < a.len() {
                proof {
                    assert(decreases_to!(a => a[i]));
                }
                jview(a[i])
            } else {
                Json::Null
            },
    )
}

/// The mathematical members of an object.
pub open spec fn members_view(m: Seq<(String, JsonValue)>) -> Seq<(Seq<char>, Json)>
    decreases m,
{
    Seq::new(
        m.len(),
        |i: int|
            if 0 <= i < m.len() {
                proof {
                    assert(decreases_to!(m => m[i]));
                    assert(decreases_to!(m[i] => m[i].1));
                }
                (m[i].0@, jview(m[i].1))
            } else {
                (Seq::empty(), Json::Null)
            },
    )
}


/// The position of the first member named `k`.
pub open spec fn find_member(m: Seq<(Seq<char>, Json)>, k: Seq<char>) -> Option<int>
    decreases m.len(),
{
    if m.len() == 0 {
        None
    } else if m[0].0 == k {
        Some(0)
    } else {
        match find_member(m.drop_first(), k) {
            Some(i) => Some(i + 1),
            None => None,
        }
    }
}

/// The parts of a dotted path; the empty path has none.
pub open spec fn path_parts(path: Seq<char>) -> Seq<Seq<char>> {
    if path.len() == 0 {
        Seq::empty()
    } else {
        split(path, '.')
    }
}

/// The value at a path of member names, if there is one.
pub open spec fn get_path(v: Json, parts: Seq<Seq<char>>) -> Option<Json>
    decreases parts.len(),
{
    if parts.len() == 0 {
        Some(v)
    } else {
        match v {
            Json::Object(m) => match find_member(m, parts[0]) {
                Some(i) => get_path(m[i].1, parts.drop_first()),
                None => None,
            },
            _ => None,
        }
    }
}

/// Sets the member `k` to `val`; with `keep`, a member that is there stays as it is.
pub open spec fn set_member(m: Seq<(Seq<char>, Json)>, k: Seq<char>, val: Json, keep: bool) -> Seq<
    (Seq<char>, Json),
> {
    match find_member(m, k) {
        Some(i) => if keep {
            m
        } else {
            m.update(i, (k, val))
        },
        None => m.push((k, val)),
    }
}

/// Sets the member `field` of the object at the path `parts`, creating empty objects for the
/// missing members along the way; fails when the path goes through, or ends at, a value that
/// is not an object.
pub open spec fn upsert(v: Json, parts: Seq<Seq<char>>, field: Seq<char>, val: Json, keep: bool) -> Option<Json>
    decreases parts.len(),
{
    match v {
        Json::Object(m) => if parts.len() == 0 {
            Some(Json::Object(set_member(m, field, val, keep)))
        } else {
            match find_member(m, parts[0]) {
                Some(i) => match upsert(m[i].1, parts.drop_first(), field, val, keep) {
                    Some(c) => Some(Json::Object(m.update(i, (parts[0], c)))),
                    None => None,
                },
                None => match upsert(Json::Object(Seq::empty()), parts.drop_first(), field, val, keep) {
                    Some(c) => Some(Json::Object(m.push((parts[0], c)))),
                    None => None,
                },
            }
        },
        _ => None,
    }
}

/// Removes the member `field` of the object at the path `parts`, if there is such an object
/// with such a member; gives the value and what was removed.
pub open spec fn remove_at(v: Json, parts: Seq<Seq<char>>, field: Seq<char>) -> (Json, Option<Json>)
    decreases parts.len(),
{
    match v {
        Json::Object(m) => if parts.len() == 0 {
            match find_member(m, field) {
                Some(i) => (Json::Object(m.remove(i)), Some(m[i].1)),
                None => (v, None),
            }
        } else {
            match find_member(m, parts[0]) {
                Some(i) => {
                    let (c, r) = remove_at(m[i].1, parts.drop_first(), field);
                    (Json::Object(m.update(i, (parts[0], c))), r)
                },
                None => (v, None),
            }
        },
        _ => (v, None),
    }
}

proof fn lemma_find_member_found(m: Seq<(Seq<char>, Json)>, k: Seq<char>)
    ensures
        find_member(m, k) matches Some(i) ==> 0 <= i < m.len() && m[i].0 == k,
        find_member(m, k) is None ==> forall|t: int| 0 <= t < m.len() ==> (#[trigger] m[t]).0 != k,
    decreases m.len(),
{
    if m.len() > 0 {
        lemma_find_member_found(m.drop_first(), k);
        if find_member(m, k) is None {
            assert forall|t: int| 0 <= t < m.len() implies (#[trigger] m[t]).0 != k by {
                if t > 0 {
                    assert(m[t] == m.drop_first()[t - 1]);
                }
            }
        }
    }
}

proof fn lemma_members_update(m: Seq<(String, JsonValue)>, i: int, e: (String, JsonValue))
    requires
        0 <= i < m.len(),
    ensures
        members_view(m.update(i, e)) == members_view(m).update(i, (e.0@, jview(e.1))),
{
    assert(members_view(m.update(i, e)) =~= members_view(m).update(i, (e.0@, jview(e.1))));
}

proof fn lemma_members_push(m: Seq<(String, JsonValue)>, e: (String, JsonValue))
    ensures
        members_view(m.push(e)) == members_view(m).push((e.0@, jview(e.1))),
{
    assert(members_view(m.push(e)) =~= members_view(m).push((e.0@, jview(e.1))));
}

proof fn lemma_members_remove(m: Seq<(String, JsonValue)>, i: int)
    requires
        0 <= i < m.len(),
    ensures
        members_view(m.remove(i)) == members_view(m).remove(i),
{
    assert(members_view(m.remove(i)) =~= members_view(m).remove(i));
}

proof fn lemma_find_member_skip(m: Seq<(Seq<char>, Json)>, k: Seq<char>, j: int)
    requires
        0 <= j <= m.len(),
        forall|t: int| 0 <= t < j ==> (#[trigger] m[t]).0 != k,
    ensures
        find_member(m, k) == match find_member(m.skip(j), k) {
            Some(x) => Some(x + j),
            None => None::<int>,
        },
    decreases j,
{
    if j == 0 {
        assert(m.skip(0) =~= m);
    } else {
        let t = m.drop_first();
        assert forall|q: int| 0 <= q < j - 1 implies (#[trigger] t[q]).0 != k by {
            assert(t[q] == m[q + 1]);
        }
        lemma_find_member_skip(t, k, j - 1);
        assert(t.skip(j - 1) =~= m.skip(j));
    }
}

/// The position of the first member named `k`.
fn find_member_exec(m: &Vec<(String, JsonValue)>, k: &str) -> (r: Option<usize>)
    ensures
        match find_member(members_view(m@), k@) {
            Some(i) => r matches Some(x) && x == i && i < m@.len(),
            None => r is None,
        },
{
    let ghost mv = members_view(m@);
    let mut j: usize = 0;
    while j < m.len()
        invariant
            j <= m@.len(),
            mv == members_view(m@),
            forall|t: int| 0 <= t < j ==> (#[trigger] mv[t]).0 != k@,
        decreases m@.len() - j,
    {
        assert(mv[j as int].0 == m@[j as int].0@);
        if str_eq(m[j].0.as_str(), k) {
            proof {
                lemma_find_member_skip(mv, k@, j as int);
                assert(mv.skip(j as int)[0] == mv[j as int]);
            }
            return Some(j);
        }
        j = j + 1;
    }
    proof {
        lemma_find_member_skip(mv, k@, j as int);
        assert(mv.skip(j as int) =~= Seq::<(Seq<char>, Json)>::empty());
    }
    None
}


/// The views of a sequence of strings.
pub open spec fn strs(v: Seq<String>) -> Seq<Seq<char>> {
    v.map_values(|p: String| p@)
}

proof fn lemma_upsert_fresh(parts: Seq<Seq<char>>, field: Seq<char>, val: Json, keep: bool)
    ensures
        upsert(Json::Object(Seq::empty()), parts, field, val, keep) is Some,
    decreases parts.len(),
{
    if parts.len() > 0 {
        lemma_upsert_fresh(parts.drop_first(), field, val, keep);
    }
}

fn upsert_exec(
    v: JsonValue,
    parts: &Vec<String>,
    idx: usize,
    field: &String,
    value: JsonValue,
    keep: bool,
) -> (r: Result<JsonValue, JsonValue>)
    requires
        idx <= parts@.len(),
    ensures
        match upsert(jview(v), strs(parts@).skip(idx as int), field@, jview(value), keep) {
            Some(x) => r matches Ok(y) && jview(y) == x,
            None => r matches Err(y) && jview(y) == jview(v),
        },
    decreases parts@.len() - idx,
{
    let ghost ps = strs(parts@).skip(idx as int);
    let ghost jv = jview(v);
    match v {
        JsonValue::Object(mut m) => {
            let ghost m0 = m@;
            let ghost mv = members_view(m0);
            assert(jv == Json::Object(mv));
            if idx == parts.len() {
                assert(ps.len() == 0);
                match find_member_exec(&m, field.as_str()) {
                    Some(i) => {
                        if !keep {
                            let _gone = m.remove(i);
                            m.insert(i, (field.clone(), value));
                            proof {
                                assert(m@ =~= m0.update(i as int, m@[i as int]));
                                lemma_members_update(m0, i as int, m@[i as int]);
                            }
                        }
                        Ok(JsonValue::Object(m))
                    },
                    None => {
                        m.push((field.clone(), value));
                        proof {
                            lemma_members_push(m0, m@.last());
                            assert(m@ =~= m0.push(m@.last()));
                        }
                        Ok(JsonValue::Object(m))
                    },
                }
            } else {
                let part = &parts[idx];
                assert(ps[0] == part@);
                assert(ps.drop_first() =~= strs(parts@).skip(idx + 1));
                proof {
                    lemma_find_member_found(mv, part@);
                }
                match find_member_exec(&m, part.as_str()) {
                    Some(i) => {
                        let (k, child) = m.remove(i);
                        assert(mv[i as int] == (k@, jview(child)));
                        match upsert_exec(child, parts, idx + 1, field, value, keep) {
                            Ok(c2) => {
                                m.insert(i, (k, c2));
                                proof {
                                    assert(m@ =~= m0.update(i as int, m@[i as int]));
                                    lemma_members_update(m0, i as int, m@[i as int]);
                                }
                                Ok(JsonValue::Object(m))
                            },
                            Err(c) => {
                                m.insert(i, (k, c));
                                proof {
                                    assert(m@ =~= m0.update(i as int, m@[i as int]));
                                    lemma_members_update(m0, i as int, m@[i as int]);
                                    assert(members_view(m@) =~= mv);
                                }
                                Err(JsonValue::Object(m))
                            },
                        }
                    },
                    None => {
                        let fresh = JsonValue::Object(Vec::new());
                        assert(jview(fresh) == Json::Object(Seq::empty())) by {
                            assert(members_view(Seq::<(String, JsonValue)>::empty()) =~= Seq::<(Seq<char>, Json)>::empty());
                        }
                        match upsert_exec(fresh, parts, idx + 1, field, value, keep) {
                            Ok(c2) => {
                                m.push((part.clone(), c2));
                                proof {
                                    lemma_members_push(m0, m@.last());
                                    assert(m@ =~= m0.push(m@.last()));
                                }
                                Ok(JsonValue::Object(m))
                            },
                            Err(_) => {
                                proof {
                                    lemma_upsert_fresh(ps.drop_first(), field@, jview(value), keep);
                                }
                                Err(JsonValue::Object(m))
                            },
                        }
                    },
                }
            }
        },
        other => Err(other),
    }
}


fn remove_at_exec(v: JsonValue, parts: &Vec<String>, idx: usize, field: &String) -> (r: (
    JsonValue,
    Option<JsonValue>,
))
    requires
        idx <= parts@.len(),
    ensures
        ({
            let (x, o) = remove_at(jview(v), strs(parts@).skip(idx as int), field@);
            &&& jview(r.0) == x
            &&& match o {
                Some(y) => r.1 matches Some(z) && jview(z) == y,
                None => r.1 is None,
            }
        }),
    decreases parts@.len() - idx,
{
    let ghost ps = strs(parts@).skip(idx as int);
    let ghost jv = jview(v);
    match v {
        JsonValue::Object(mut m) => {
            let ghost m0 = m@;
            let ghost mv = members_view(m0);
            assert(jv == Json::Object(mv));
            if idx == parts.len() {
                assert(ps.len() == 0);
                match find_member_exec(&m, field.as_str()) {
                    Some(i) => {
                        let (_k, val) = m.remove(i);
                        proof {
                            lemma_members_remove(m0, i as int);
                        }
                        (JsonValue::Object(m), Some(val))
                    },
                    None => (JsonValue::Object(m), None),
                }
            } else {
                let part = &parts[idx];
                assert(ps[0] == part@);
                assert(ps.drop_first() =~= strs(parts@).skip(idx + 1));
                proof {
                    lemma_find_member_found(mv, part@);
                }
                match find_member_exec(&m, part.as_str()) {
                    Some(i) => {
                        let (k, child) = m.remove(i);
                        assert(mv[i as int] == (k@, jview(child)));
                        let (c2, got) = remove_at_exec(child, parts, idx + 1, field);
                        m.insert(i, (k, c2));
                        proof {
                            assert(m@ =~= m0.update(i as int, m@[i as int]));
                            lemma_members_update(m0, i as int, m@[i as int]);
                        }
                        (JsonValue::Object(m), got)
                    },
                    None => (JsonValue::Object(m), None),
                }
            }
        },
        other => (other, None),
    }
}

/// A copy of a JSON value.
pub fn clone_json(v: &JsonValue) -> (r: JsonValue)
    ensures
        jview(r) == jview(*v),
    decreases *v,
{
    match v {
        JsonValue::Null => JsonValue::Null,
        JsonValue::Bool(b) => JsonValue::Bool(*b),
        JsonValue::Number(n) => JsonValue::Number(n.clone()),
        JsonValue::Str(s) => JsonValue::Str(s.clone()),
        JsonValue::Array(a) => {
            let mut out: Vec<JsonValue> = Vec::new();
            let mut i: usize = 0;
            while i < a.len()
                invariant
                    *v == JsonValue::Array(*a),
                    i <= a@.len(),
                    out@.len() == i,
                    forall|j: int| 0 <= j < i ==> jview(#[trigger] out@[j]) == jview(a@[j]),
                decreases a@.len() - i,
            {
                proof {
                    assert(decreases_to!(*v => (*v)->Array_0));
                    assert(decreases_to!(*a => a@));
                    assert(decreases_to!(a@ => a@[i as int]));
                }
                let c = clone_json(&a[i]);
                out.push(c);
                i = i + 1;
            }
            assert(elems_view(out@) =~= elems_view(a@));
            JsonValue::Array(out)
        },
        JsonValue::Object(m) => {
            let mut out: Vec<(String, JsonValue)> = Vec::new();
            let mut i: usize = 0;
            while i < m.len()
                invariant
                    *v == JsonValue::Object(*m),
                    i <= m@.len(),
                    out@.len() == i,
                    forall|j: int| 0 <= j < i ==> (#[trigger] out@[j]).0@ == m@[j].0@ && jview(out@[j].1) == jview(m@[j].1),
                decreases m@.len() - i,
            {
                proof {
                    assert(decreases_to!(*v => (*v)->Object_0));
                    assert(decreases_to!(*m => m@));
                    assert(decreases_to!(m@ => m@[i as int]));
                    assert(decreases_to!(m@[i as int] => m@[i as int].1));
                }
                let c = clone_json(&m[i].1);
                out.push((m[i].0.clone(), c));
                i = i + 1;
            }
            assert(members_view(out@) =~= members_view(m@));
            JsonValue::Object(out)
        },
    }
}


/// The index of the first definition whose setting id is `id`.
pub open spec fn find_def(defs: Seq<(String, SettingsDefinition)>, id: Seq<char>) -> Option<int>
    decreases defs.len(),
{
    if defs.len() == 0 {
        None
    } else if defs[0].0@ == id {
        Some(0)
    } else {
        match find_def(defs.drop_first(), id) {
            Some(i) => Some(i + 1),
            None => None,
        }
    }
}

/// What one change makes of a settings value, and whether it succeeded: an insert sets the
/// setting's field to its default unless it is there (creating the objects on its location),
/// a move takes a field from one object to another (creating the destination), a remove drops
/// a field. A failed change keeps what it did before failing (a move may have taken its field).
pub open spec fn change_spec(v: Json, c: MigrationChange, defs: Seq<(String, SettingsDefinition)>) -> (Json, bool) {
    match c {
        MigrationChange::Insert { setting_id } => match find_def(defs, setting_id@) {
            None => (v, false),
            Some(i) => match upsert(
                v,
                path_parts(defs[i].1.location@),
                defs[i].1.field_name@,
                jview(defs[i].1.default),
                true,
            ) {
                Some(v2) => (v2, true),
                None => (v, false),
            },
        },
        MigrationChange::Move { from_path, to_path, field } => {
            let (v1, r) = remove_at(v, path_parts(from_path@), field@);
            match r {
                None => (v1, true),
                Some(x) => match upsert(v1, path_parts(to_path@), field@, x, false) {
                    Some(v2) => (v2, true),
                    None => (v1, false),
                },
            }
        },
        MigrationChange::Remove { location, field_name } => (
            remove_at(v, path_parts(location@), field_name@).0,
            true,
        ),
    }
}

fn path_parts_exec(path: &str) -> (r: Vec<String>)
    ensures
        strs(r@) == path_parts(path@),
{
    let c = str_chars(path);
    let mut out: Vec<String> = Vec::new();
    if c.len() == 0 {
        assert(strs(out@) =~= Seq::<Seq<char>>::empty());
        return out;
    }
    let pieces = split_chars(c.as_slice(), '.');
    let ghost ps = views(pieces@);
    let mut i: usize = 0;
    while i < pieces.len()
        invariant
            ps == views(pieces@),
            ps == split(path@, '.'),
            i <= pieces@.len(),
            strs(out@) == ps.subrange(0, i as int),
        decreases pieces@.len() - i,
    {
        let s = string_from_chars(pieces[i].as_slice());
        assert(ps[i as int] == pieces@[i as int]@);
        let ghost before = out@;
        out.push(s);
        assert(out@ =~= before.push(s));
        assert(strs(out@) =~= strs(before).push(s@));
        assert(strs(out@) =~= ps.subrange(0, i + 1));
        i = i + 1;
    }
    assert(ps.subrange(0, pieces@.len() as int) =~= ps);
    out
}

fn find_def_exec(defs: &Vec<(String, SettingsDefinition)>, id: &String) -> (r: Option<usize>)
    ensures
        match find_def(defs@, id@) {
            Some(i) => r matches Some(x) && x == i && i < defs@.len(),
            None => r is None,
        },
{
    let mut j: usize = 0;
    while j < defs.len()
        invariant
            j <= defs@.len(),
            forall|t: int| 0 <= t < j ==> (#[trigger] defs@[t]).0@ != id@,
        decreases defs@.len() - j,
    {
        if str_eq(defs[j].0.as_str(), id.as_str()) {
            proof {
                lemma_find_def_skip(defs@, id@, j as int);
                assert(defs@.skip(j as int)[0] == defs@[j as int]);
            }
            return Some(j);
        }
        j = j + 1;
    }
    proof {
        lemma_find_def_skip(defs@, id@, j as int);
        assert(defs@.skip(j as int) =~= Seq::<(String, SettingsDefinition)>::empty());
    }
    None
}

proof fn lemma_find_def_skip(defs: Seq<(String, SettingsDefinition)>, id: Seq<char>, j: int)
    requires
        0 <= j <= defs.len(),
        forall|t: int| 0 <= t < j ==> (#[trigger] defs[t]).0@ != id,
    ensures
        find_def(defs, id) == match find_def(defs.skip(j), id) {
            Some(x) => Some(x + j),
            None => None::<int>,
        },
    decreases j,
{
    if j == 0 {
        assert(defs.skip(0) =~= defs);
    } else {
        let t = defs.drop_first();
        assert forall|q: int| 0 <= q < j - 1 implies (#[trigger] t[q]).0@ != id by {
            assert(t[q] == defs[q + 1]);
        }
        lemma_find_def_skip(t, id, j - 1);
        assert(t.skip(j - 1) =~= defs.skip(j));
    }
}

proof fn lemma_find_def_found(defs: Seq<(String, SettingsDefinition)>, id: Seq<char>)
    ensures
        find_def(defs, id) matches Some(i) ==> 0 <= i < defs.len(),
    decreases defs.len(),
{
    if defs.len() > 0 {
        lemma_find_def_found(defs.drop_first(), id);
    }
}

impl MigrationChange {
    /// Applies the change to the settings value `json` (see `change_spec`), with `defs` the
    /// setting definitions of the schema by id. Failures are `Validation` errors.
    pub fn implement(&self, json: &mut JsonValue, defs: &Vec<(String, SettingsDefinition)>) -> (r: Result<(), WayclipError>)
        ensures
            jview(*final(json)) == change_spec(jview(*old(json)), *self, defs@).0,
            change_spec(jview(*old(json)), *self, defs@).1 ==> r is Ok,
            !change_spec(jview(*old(json)), *self, defs@).1 ==> r matches Err(WayclipError::Validation(_)),
    {
        let mut v = JsonValue::Null;
        std::mem::swap(&mut v, json);
        match self {
            MigrationChange::Insert { setting_id } => {
                match find_def_exec(defs, setting_id) {
                    None => {
                        *json = v;
                        let mut msg = "Migration error: setting_id '".to_owned();
                        crate::text::push_str(&mut msg, setting_id.as_str());
                        crate::text::push_str(&mut msg, "' not found in TOML schema");
                        Err(WayclipError::Validation(msg))
                    },
                    Some(i) => {
                        let d = &defs[i].1;
                        let parts = path_parts_exec(d.location.as_str());
                        assert(strs(parts@).skip(0) =~= strs(parts@));
                        let default = clone_json(&d.default);
                        match upsert_exec(v, &parts, 0, &d.field_name, default, true) {
                            Ok(v2) => {
                                *json = v2;
                                Ok(())
                            },
                            Err(v0) => {
                                *json = v0;
                                Err(validation("Target location is not a JSON object"))
                            },
                        }
                    },
                }
            },
            MigrationChange::Move { from_path, to_path, field } => {
                let from_parts = path_parts_exec(from_path.as_str());
                assert(strs(from_parts@).skip(0) =~= strs(from_parts@));
                let (v1, removed) = remove_at_exec(v, &from_parts, 0, field);
                match removed {
                    None => {
                        *json = v1;
                        Ok(())
                    },
                    Some(x) => {
                        let to_parts = path_parts_exec(to_path.as_str());
                        assert(strs(to_parts@).skip(0) =~= strs(to_parts@));
                        match upsert_exec(v1, &to_parts, 0, field, x, false) {
                            Ok(v2) => {
                                *json = v2;
                                Ok(())
                            },
                            Err(v0) => {
                                *json = v0;
                                Err(validation("Destination location is not a JSON object"))
                            },
                        }
                    },
                }
            },
            MigrationChange::Remove { location, field_name } => {
                let parts = path_parts_exec(location.as_str());
                assert(strs(parts@).skip(0) =~= strs(parts@));
                let (v1, _removed) = remove_at_exec(v, &parts, 0, field_name);
                *json = v1;
                Ok(())
            },
        }
    }
}


/// A version of the schema and the changes it brings.
#[derive(Debug)]
pub struct VersionEntry {
    /// The version, as text
    pub version: String,
    /// The changes introduced in the version
    pub changes: Vec<MigrationChange>,
}

/// Whether the entry's version is after `from` and at most `to`.
pub open spec fn in_range(e: VersionEntry, from: Seq<char>, to: Seq<char>) -> bool {
    semver_order(e.version@, from) == VersionOrder::Greater && semver_order(e.version@, to)
        != VersionOrder::Greater
}

/// The entries whose version is in range, in order.
pub open spec fn selection(es: Seq<VersionEntry>, from: Seq<char>, to: Seq<char>) -> Seq<VersionEntry>
    decreases es.len(),
{
    if es.len() == 0 {
        Seq::empty()
    } else {
        let init = selection(es.drop_last(), from, to);
        if in_range(es.last(), from, to) {
            init.push(es.last())
        } else {
            init
        }
    }
}

/// Whether every version involved is a version.
pub open spec fn versions_valid(es: Seq<VersionEntry>, from: Seq<char>, to: Seq<char>) -> bool {
    &&& semver_parses(from)
    &&& semver_parses(to)
    &&& forall|i: int| 0 <= i < es.len() ==> semver_parses(#[trigger] es[i].version@)
}

/// The changes of the entries, entry by entry.
pub open spec fn all_changes(es: Seq<VersionEntry>) -> Seq<MigrationChange>
    decreases es.len(),
{
    if es.len() == 0 {
        Seq::empty()
    } else {
        all_changes(es.drop_last()) + es.last().changes@
    }
}

/// Running the changes in order, stopping at the first that fails.
pub open spec fn run_changes(v: Json, cs: Seq<MigrationChange>, defs: Seq<(String, SettingsDefinition)>) -> (Json, bool)
    decreases cs.len(),
{
    if cs.len() == 0 {
        (v, true)
    } else {
        let (v1, ok) = run_changes(v, cs.drop_last(), defs);
        if !ok {
            (v1, false)
        } else {
            change_spec(v1, cs.last(), defs)
        }
    }
}

/// Whether some change is an insert.
pub open spec fn has_insert(cs: Seq<MigrationChange>) -> bool {
    exists|i: int| 0 <= i < cs.len() && (#[trigger] cs[i]) is Insert
}

/// The settings value with its version set to `to`.
pub open spec fn with_version(v: Json, to: Seq<char>) -> Json {
    match v {
        Json::Object(m) => Json::Object(set_member(m, "v"@, Json::Str(to), false)),
        Json::Null => Json::Object(seq![("v"@, Json::Str(to))]),
        _ => v,
    }
}

/// 0 for an object, 1 for null, 2 for any other value.
pub open spec fn kind(v: Json) -> int {
    match v {
        Json::Object(_) => 0,
        Json::Null => 1,
        _ => 2,
    }
}

proof fn lemma_upsert_object(v: Json, parts: Seq<Seq<char>>, field: Seq<char>, val: Json, keep: bool)
    ensures
        upsert(v, parts, field, val, keep) matches Some(x) ==> v is Object && x is Object,
{
}

proof fn lemma_remove_kind(v: Json, parts: Seq<Seq<char>>, field: Seq<char>)
    ensures
        kind(remove_at(v, parts, field).0) == kind(v),
{
}

proof fn lemma_change_kind(v: Json, c: MigrationChange, defs: Seq<(String, SettingsDefinition)>)
    ensures
        kind(change_spec(v, c, defs).0) == kind(v),
        !(v is Object) && c is Insert ==> !change_spec(v, c, defs).1,
{
    match c {
        MigrationChange::Insert { setting_id } => {
            match find_def(defs, setting_id@) {
                Some(i) => lemma_upsert_object(
                    v,
                    path_parts(defs[i].1.location@),
                    defs[i].1.field_name@,
                    jview(defs[i].1.default),
                    true,
                ),
                None => {},
            }
        },
        MigrationChange::Move { from_path, to_path, field } => {
            lemma_remove_kind(v, path_parts(from_path@), field@);
            let (v1, r) = remove_at(v, path_parts(from_path@), field@);
            match r {
                Some(x) => lemma_upsert_object(v1, path_parts(to_path@), field@, x, false),
                None => {},
            }
        },
        MigrationChange::Remove { location, field_name } => {
            lemma_remove_kind(v, path_parts(location@), field_name@);
        },
    }
}

proof fn lemma_run_kind(v: Json, cs: Seq<MigrationChange>, defs: Seq<(String, SettingsDefinition)>)
    ensures
        kind(run_changes(v, cs, defs).0) == kind(v),
        !(v is Object) && has_insert(cs) ==> !run_changes(v, cs, defs).1,
    decreases cs.len(),
{
    if cs.len() > 0 {
        lemma_run_kind(v, cs.drop_last(), defs);
        let (v1, ok) = run_changes(v, cs.drop_last(), defs);
        lemma_change_kind(v1, cs.last(), defs);
        if !(v is Object) && has_insert(cs) && ok {
            let i = choose|i: int| 0 <= i < cs.len() && (#[trigger] cs[i]) is Insert;
            if i < cs.len() - 1 {
                assert(cs.drop_last()[i] == cs[i]);
                assert(has_insert(cs.drop_last()));
            }
        }
    }
}

proof fn lemma_run_append(v: Json, a: Seq<MigrationChange>, c: MigrationChange, defs: Seq<(String, SettingsDefinition)>)
    ensures
        run_changes(v, a.push(c), defs) == (if run_changes(v, a, defs).1 {
            change_spec(run_changes(v, a, defs).0, c, defs)
        } else {
            run_changes(v, a, defs)
        }),
{
    assert(a.push(c).drop_last() =~= a);
}

proof fn lemma_run_failed(v: Json, a: Seq<MigrationChange>, b: Seq<MigrationChange>, defs: Seq<(String, SettingsDefinition)>)
    requires
        !run_changes(v, a, defs).1,
    ensures
        run_changes(v, a + b, defs) == run_changes(v, a, defs),
    decreases b.len(),
{
    if b.len() == 0 {
        assert(a + b =~= a);
    } else {
        lemma_run_failed(v, a, b.drop_last(), defs);
        assert((a + b).drop_last() =~= a + b.drop_last());
    }
}

/// The first position whose entry has a greater version than `e`'s (the length when none has).
pub open spec fn first_greater(s: Seq<VersionEntry>, e: VersionEntry) -> int
    decreases s.len(),
{
    if s.len() == 0 {
        0
    } else if semver_order(s[0].version@, e.version@) == VersionOrder::Greater {
        0
    } else {
        1 + first_greater(s.drop_first(), e)
    }
}

/// `e` put after every entry whose version is not greater than its own.
pub open spec fn insert_by_version(s: Seq<VersionEntry>, e: VersionEntry) -> Seq<VersionEntry> {
    s.insert(first_greater(s, e), e)
}

/// The entries in range, ordered by version; entries of equal versions keep their order.
pub open spec fn sorted_selection(es: Seq<VersionEntry>, from: Seq<char>, to: Seq<char>) -> Seq<VersionEntry>
    decreases es.len(),
{
    if es.len() == 0 {
        Seq::empty()
    } else {
        let init = sorted_selection(es.drop_last(), from, to);
        if in_range(es.last(), from, to) {
            insert_by_version(init, es.last())
        } else {
            init
        }
    }
}

proof fn lemma_first_greater_is(s: Seq<VersionEntry>, e: VersionEntry, p: int)
    requires
        0 <= p <= s.len(),
        forall|t: int| 0 <= t < p ==> semver_order((#[trigger] s[t]).version@, e.version@) != VersionOrder::Greater,
        p < s.len() ==> semver_order(s[p].version@, e.version@) == VersionOrder::Greater,
    ensures
        first_greater(s, e) == p,
    decreases p,
{
    if p > 0 {
        assert(semver_order(s[0].version@, e.version@) != VersionOrder::Greater);
        let r = s.drop_first();
        assert forall|t: int| 0 <= t < p - 1 implies semver_order((#[trigger] r[t]).version@, e.version@)
            != VersionOrder::Greater by {
            assert(r[t] == s[t + 1]);
        }
        if p < s.len() {
            assert(r[p - 1] == s[p]);
        }
        lemma_first_greater_is(r, e, p - 1);
    }
}

/// Whether some entry in range brings an insert.
pub open spec fn selection_has_insert(es: Seq<VersionEntry>, from: Seq<char>, to: Seq<char>) -> bool {
    exists|i: int| 0 <= i < es.len() && in_range(es[i], from, to) && has_insert(#[trigger] es[i].changes@)
}

proof fn lemma_sorted_selection_contains(es: Seq<VersionEntry>, from: Seq<char>, to: Seq<char>, i: int)
    requires
        0 <= i < es.len(),
        in_range(es[i], from, to),
    ensures
        sorted_selection(es, from, to).contains(es[i]),
    decreases es.len(),
{
    let init = sorted_selection(es.drop_last(), from, to);
    if i == es.len() - 1 {
        let q = first_greater(init, es.last());
        lemma_first_greater_range(init, es.last());
        assert(insert_by_version(init, es.last())[q] == es[i]);
    } else {
        assert(es.drop_last()[i] == es[i]);
        lemma_sorted_selection_contains(es.drop_last(), from, to, i);
        if in_range(es.last(), from, to) {
            let q = first_greater(init, es.last());
            lemma_first_greater_range(init, es.last());
            let k = choose|k: int| 0 <= k < init.len() && init[k] == es[i];
            let out = insert_by_version(init, es.last());
            if k < q {
                assert(out[k] == es[i]);
            } else {
                assert(out[k + 1] == es[i]);
            }
        }
    }
}

proof fn lemma_first_greater_range(s: Seq<VersionEntry>, e: VersionEntry)
    ensures
        0 <= first_greater(s, e) <= s.len(),
    decreases s.len(),
{
    if s.len() > 0 {
        lemma_first_greater_range(s.drop_first(), e);
    }
}

proof fn lemma_all_changes_has_insert(s: Seq<VersionEntry>, k: int)
    requires
        0 <= k < s.len(),
        has_insert(s[k].changes@),
    ensures
        has_insert(all_changes(s)),
    decreases s.len(),
{
    let init = all_changes(s.drop_last());
    if k == s.len() - 1 {
        let j = choose|j: int| 0 <= j < s[k].changes@.len() && (#[trigger] s[k].changes@[j]) is Insert;
        assert(all_changes(s)[init.len() + j] == s[k].changes@[j]);
    } else {
        assert(s.drop_last()[k] == s[k]);
        lemma_all_changes_has_insert(s.drop_last(), k);
        let j = choose|j: int| 0 <= j < init.len() && (#[trigger] init[j]) is Insert;
        assert(all_changes(s)[j] == init[j]);
    }
}

/// Whether the entries' versions never decrease and all are versions.
pub open spec fn sorted_versions(s: Seq<VersionEntry>) -> bool {
    &&& forall|t: int| 0 <= t < s.len() ==> semver_parses(#[trigger] s[t].version@)
    &&& forall|k: int| 0 <= k < s.len() - 1 ==> #[trigger] step_ok(s, k)
}

/// Whether the entry after position `k` has a version not less than the one at `k`.
pub open spec fn step_ok(s: Seq<VersionEntry>, k: int) -> bool {
    semver_order(s[k + 1].version@, s[k].version@) != VersionOrder::Less
}

/// Puts `e` after every entry whose version is not greater than its own.
fn insert_sorted(out: &mut Vec<VersionEntry>, e: VersionEntry)
    requires
        sorted_versions(old(out)@),
        semver_parses(e.version@),
    ensures
        sorted_versions(final(out)@),
        final(out)@.to_multiset() == old(out)@.to_multiset().insert(e),
        final(out)@ == insert_by_version(old(out)@, e),
{
    let mut p: usize = 0;
    loop
        invariant
            p <= out@.len(),
            sorted_versions(out@),
            semver_parses(e.version@),
            forall|t: int| 0 <= t < p ==> semver_order(e.version@, (#[trigger] out@[t]).version@) != VersionOrder::Less,
            forall|t: int| 0 <= t < p ==> semver_order((#[trigger] out@[t]).version@, e.version@) != VersionOrder::Greater,
        ensures
            p <= out@.len(),
            forall|t: int| 0 <= t < p ==> semver_order(e.version@, (#[trigger] out@[t]).version@) != VersionOrder::Less,
            forall|t: int| 0 <= t < p ==> semver_order((#[trigger] out@[t]).version@, e.version@) != VersionOrder::Greater,
            p < out@.len() ==> semver_order(out@[p as int].version@, e.version@) == VersionOrder::Greater,
        decreases out@.len() - p,
    {
        if p == out.len() {
            break;
        }
        assert(semver_parses(out@[p as int].version@));
        let o = compare_versions(e.version.as_str(), out[p].version.as_str());
        if o == Some(VersionOrder::Less) {
            break;
        }
        p = p + 1;
    }
    let ghost before = out@;
    proof {
        lemma_first_greater_is(before, e, p as int);
    }
    out.insert(p, e);
    proof {
        let o2 = out@;
        assert(o2 =~= before.insert(p as int, e));
        vstd::seq_lib::to_multiset_insert(before, p as int, e);
        assert forall|t: int| 0 <= t < o2.len() implies semver_parses(#[trigger] o2[t].version@) by {
            if t < p {
                assert(o2[t] == before[t]);
            } else if t > p {
                assert(o2[t] == before[t - 1]);
            }
        }
        assert forall|k: int| 0 <= k < o2.len() - 1 implies #[trigger] step_ok(o2, k) by {
            if k + 1 < p {
                assert(step_ok(before, k));
                assert(o2[k] == before[k] && o2[k + 1] == before[k + 1]);
            } else if k + 1 == p {
                assert(o2[k] == before[k]);
            } else if k == p {
                assert(o2[k + 1] == before[k]);
            } else {
                assert(step_ok(before, k - 1));
                assert(o2[k] == before[k - 1] && o2[k + 1] == before[k]);
            }
        }
    }
}

/// The migration of settings from one schema version to a later one.
pub struct SettingsMigrate;

impl SettingsMigrate {
    /// The entries whose version is after `from` and at most `to`, in increasing version order;
    /// a `Validation` error when a version is not one.
    pub fn select_versions(entries: Vec<VersionEntry>, from: &str, to: &str) -> (r: Result<
        Vec<VersionEntry>,
        WayclipError,
    >)
        ensures
            !versions_valid(entries@, from@, to@) ==> r matches Err(WayclipError::Validation(_)),
            versions_valid(entries@, from@, to@) ==> (r matches Ok(v) && {
                &&& v@ == sorted_selection(entries@, from@, to@)
                &&& v@.to_multiset() == selection(entries@, from@, to@).to_multiset()
                &&& sorted_versions(v@)
            }),
    {
        if compare_versions(from, to).is_none() {
            return Err(validation("Invalid version"));
        }
        let ghost es = entries@;
        let mut pending = entries;
        let n = pending.len();
        let mut out: Vec<VersionEntry> = Vec::new();
        let mut i: usize = 0;
        assert(es.skip(0) =~= es);
        assert(es.subrange(0, 0) =~= Seq::<VersionEntry>::empty());
        while i < n
            invariant
                n == es.len(),
                es == entries@,
                i <= n,
                pending@ == es.skip(i as int),
                semver_parses(from@) && semver_parses(to@),
                forall|t: int| 0 <= t < i ==> semver_parses(#[trigger] es[t].version@),
                sorted_versions(out@),
                out@ == sorted_selection(es.subrange(0, i as int), from@, to@),
                out@.to_multiset() == selection(es.subrange(0, i as int), from@, to@).to_multiset(),
            decreases n - i,
        {
            let e = pending.remove(0);
            assert(es.skip(i as int)[0] == es[i as int]);
            assert(es.skip(i as int).remove(0) =~= es.skip(i + 1));
            assert(es.subrange(0, i + 1).drop_last() =~= es.subrange(0, i as int));
            assert(es.subrange(0, i + 1).last() == e);
            let after_from = match compare_versions(e.version.as_str(), from) {
                None => {
                    return Err(validation("Invalid version"));
                },
                Some(o) => o == VersionOrder::Greater,
            };
            let upto = match compare_versions(e.version.as_str(), to) {
                None => {
                    return Err(validation("Invalid version"));
                },
                Some(o) => o != VersionOrder::Greater,
            };
            if after_from && upto {
                proof {
                    vstd::seq_lib::to_multiset_build(selection(es.subrange(0, i as int), from@, to@), e);
                }
                insert_sorted(&mut out, e);
            }
            i = i + 1;
        }
        assert(es.subrange(0, n as int) =~= es);
        Ok(out)
    }

    /// Migrates the settings value `config` from version `from` to version `to`: the changes of
    /// the entries after `from` and at most `to` are run in version order (see `apply_versions`).
    /// A `Validation` error, with `config` unchanged, when a version is not one.
    pub fn migrate(
        config: &mut JsonValue,
        from: &str,
        to: &str,
        versions: Vec<VersionEntry>,
        defs: &Vec<(String, SettingsDefinition)>,
    ) -> (r: Result<(), WayclipError>)
        requires
            versions_valid(versions@, from@, to@) ==> (jview(*old(config)) is Object || jview(*old(config)) is Null
                || selection_has_insert(versions@, from@, to@)),
        ensures
            !versions_valid(versions@, from@, to@) ==> (r matches Err(WayclipError::Validation(_))
                && *final(config) == *old(config)),
            versions_valid(versions@, from@, to@) ==> ({
                let (v, ok) = run_changes(
                    jview(*old(config)),
                    all_changes(sorted_selection(versions@, from@, to@)),
                    defs@,
                );
                &&& ok ==> (r is Ok && jview(*final(config)) == with_version(v, to@))
                &&& !ok ==> (r matches Err(WayclipError::Validation(_)) && jview(*final(config)) == v)
            }),
    {
        let ghost es = versions@;
        let selected = match Self::select_versions(versions, from, to) {
            Ok(v) => v,
            Err(e) => {
                return Err(e);
            },
        };
        proof {
            if !(jview(*config) is Object || jview(*config) is Null) {
                let i = choose|i: int|
                    0 <= i < es.len() && in_range(es[i], from@, to@) && has_insert(#[trigger] es[i].changes@);
                lemma_sorted_selection_contains(es, from@, to@, i);
                let k = choose|k: int| 0 <= k < selected@.len() && selected@[k] == es[i];
                lemma_all_changes_has_insert(selected@, k);
            }
        }
        Self::apply_versions(config, to, &selected, defs)
    }

    /// Runs the changes of the selected entries in order on the settings value `config`,
    /// stopping at the first that fails (its error is returned and what was done stays); when
    /// all succeed, the settings' version `v` is set to `to`. The settings value is an object
    /// (or null) unless some change is an insert, which then fails.
    pub fn apply_versions(
        config: &mut JsonValue,
        to: &str,
        selected: &Vec<VersionEntry>,
        defs: &Vec<(String, SettingsDefinition)>,
    ) -> (r: Result<(), WayclipError>)
        requires
            jview(*old(config)) is Object || jview(*old(config)) is Null || has_insert(
                all_changes(selected@),
            ),
        ensures
            ({
                let (v, ok) = run_changes(jview(*old(config)), all_changes(selected@), defs@);
                &&& ok ==> (r is Ok && jview(*final(config)) == with_version(v, to@))
                &&& !ok ==> (r matches Err(WayclipError::Validation(_)) && jview(*final(config)) == v)
            }),
    {
        let ghost start = jview(*config);
        let ghost cs_all = all_changes(selected@);
        let mut i: usize = 0;
        assert(selected@.subrange(0, 0) =~= Seq::<VersionEntry>::empty());
        while i < selected.len()
            invariant
                i <= selected@.len(),
                start == jview(*old(config)),
                cs_all == all_changes(selected@),
                run_changes(start, all_changes(selected@.subrange(0, i as int)), defs@) == (
                    jview(*config),
                    true,
                ),
            decreases selected@.len() - i,
        {
            let ghost done = all_changes(selected@.subrange(0, i as int));
            let changes = &selected[i].changes;
            let mut j: usize = 0;
            assert(changes@.subrange(0, 0) =~= Seq::<MigrationChange>::empty());
            assert(done + changes@.subrange(0, 0) =~= done);
            while j < changes.len()
                invariant
                    j <= changes@.len(),
                    start == jview(*old(config)),
                    cs_all == all_changes(selected@),
                    i < selected@.len(),
                    changes == &selected@[i as int].changes,
                    done == all_changes(selected@.subrange(0, i as int)),
                    run_changes(start, done + changes@.subrange(0, j as int), defs@) == (jview(*config), true),
                decreases changes@.len() - j,
            {
                let ghost before = jview(*config);
                let res = changes[j].implement(config, defs);
                proof {
                    let pre = done + changes@.subrange(0, j as int);
                    assert(done + changes@.subrange(0, j + 1) =~= pre.push(changes@[j as int]));
                    lemma_run_append(start, pre, changes@[j as int], defs@);
                }
                match res {
                    Ok(()) => {},
                    Err(e) => {
                        proof {
                            let upto = done + changes@.subrange(0, j + 1);
                            assert(selected@.subrange(0, i + 1).drop_last() =~= selected@.subrange(0, i as int));
                            let rest_here = changes@.subrange(j + 1, changes@.len() as int);
                            assert(all_changes(selected@.subrange(0, i + 1)) =~= upto + rest_here);
                            lemma_all_changes_split(selected@, i as int + 1);
                            let later = all_changes_from(selected@, i as int + 1);
                            assert(cs_all =~= upto + (rest_here + later));
                            lemma_run_failed(start, upto, rest_here + later, defs@);
                        }
                        return Err(e);
                    },
                }
                j = j + 1;
            }
            proof {
                assert(changes@.subrange(0, changes@.len() as int) =~= changes@);
                assert(selected@.subrange(0, i + 1).drop_last() =~= selected@.subrange(0, i as int));
            }
            i = i + 1;
        }
        assert(selected@.subrange(0, selected@.len() as int) =~= selected@);
        proof {
            lemma_run_kind(start, cs_all, defs@);
        }
        let mut v = JsonValue::Null;
        std::mem::swap(&mut v, config);
        match v {
            JsonValue::Object(mut m) => {
                let ghost m0 = m@;
                let ghost mv = members_view(m0);
                match find_member_exec(&m, "v") {
                    Some(k) => {
                        let _gone = m.remove(k);
                        m.insert(k, ("v".to_owned(), JsonValue::Str(to.to_owned())));
                        proof {
                            assert(m@ =~= m0.update(k as int, m@[k as int]));
                            lemma_members_update(m0, k as int, m@[k as int]);
                        }
                    },
                    None => {
                        m.push(("v".to_owned(), JsonValue::Str(to.to_owned())));
                        proof {
                            lemma_members_push(m0, m@.last());
                            assert(m@ =~= m0.push(m@.last()));
                        }
                    },
                }
                *config = JsonValue::Object(m);
            },
            JsonValue::Null => {
                let mut m: Vec<(String, JsonValue)> = Vec::new();
                m.push(("v".to_owned(), JsonValue::Str(to.to_owned())));
                proof {
                    lemma_members_push(Seq::empty(), m@.last());
                    assert(m@ =~= Seq::<(String, JsonValue)>::empty().push(m@.last()));
                    assert(members_view(Seq::<(String, JsonValue)>::empty()) =~= Seq::<(Seq<char>, Json)>::empty());
                    assert(Seq::<(Seq<char>, Json)>::empty().push(("v"@, Json::Str(to@))) =~= seq![("v"@, Json::Str(to@))]);
                }
                *config = JsonValue::Object(m);
            },
            other => {
                *config = other;
            },
        }
        Ok(())
    }
}

/// The changes of the entries from position `k` on.
pub open spec fn all_changes_from(es: Seq<VersionEntry>, k: int) -> Seq<MigrationChange> {
    all_changes(es.subrange(k, es.len() as int))
}

proof fn lemma_all_changes_concat(a: Seq<VersionEntry>, b: Seq<VersionEntry>)
    ensures
        all_changes(a + b) == all_changes(a) + all_changes(b),
    decreases b.len(),
{
    if b.len() == 0 {
        assert(a + b =~= a);
        assert(all_changes(a) + Seq::<MigrationChange>::empty() =~= all_changes(a));
    } else {
        lemma_all_changes_concat(a, b.drop_last());
        assert((a + b).drop_last() =~= a + b.drop_last());
        assert(all_changes(a) + all_changes(b) =~= all_changes(a) + all_changes(b.drop_last()) + b.last().changes@);
    }
}

proof fn lemma_all_changes_split(es: Seq<VersionEntry>, k: int)
    requires
        0 <= k <= es.len(),
    ensures
        all_changes(es) == all_changes(es.subrange(0, k)) + all_changes_from(es, k),
{
    lemma_all_changes_concat(es.subrange(0, k), es.subrange(k, es.len() as int));
    assert(es.subrange(0, k) + es.subrange(k, es.len() as int) =~= es);
}

} // verus!

verus! {

proof fn lemma_find_member_is(m: Seq<(Seq<char>, Json)>, k: Seq<char>, i: int)
    requires
        0 <= i < m.len(),
        m[i].0 == k,
        forall|t: int| 0 <= t < i ==> (#[trigger] m[t]).0 != k,
    ensures
        find_member(m, k) == Some(i),
{
    lemma_find_member_skip(m, k, i);
    assert(m.skip(i)[0] == m[i]);
}

proof fn lemma_set_member_finds(m: Seq<(Seq<char>, Json)>, k: Seq<char>, val: Json, keep: bool)
    ensures
        find_member(set_member(m, k, val, keep), k) matches Some(j) && (!keep ==> set_member(
            m,
            k,
            val,
            keep,
        )[j] == (k, val)) && (keep && find_member(m, k) is Some ==> set_member(m, k, val, keep) == m),
{
    lemma_find_member_found(m, k);
    let s = set_member(m, k, val, keep);
    match find_member(m, k) {
        Some(i) => {
            if !keep {
                lemma_find_member_prefix(m, k, i);
                assert forall|t: int| 0 <= t < i implies (#[trigger] s[t]).0 != k by {
                    assert(s[t] == m[t]);
                }
                lemma_find_member_is(s, k, i);
            }
        },
        None => {
            assert forall|t: int| 0 <= t < m.len() implies (#[trigger] s[t]).0 != k by {
                assert(s[t] == m[t]);
            }
            lemma_find_member_is(s, k, m.len() as int);
        },
    }
}

proof fn lemma_find_member_prefix(m: Seq<(Seq<char>, Json)>, k: Seq<char>, i: int)
    requires
        find_member(m, k) == Some(i),
    ensures
        forall|t: int| 0 <= t < i ==> (#[trigger] m[t]).0 != k,
{
    assert forall|t: int| 0 <= t < i implies (#[trigger] m[t]).0 != k by {
        lemma_find_member_found(m, k);
        if m[t].0 == k {
            lemma_find_member_smallest(m, k, t);
        }
    }
}

proof fn lemma_find_member_smallest(m: Seq<(Seq<char>, Json)>, k: Seq<char>, t: int)
    requires
        0 <= t < m.len(),
        m[t].0 == k,
    ensures
        find_member(m, k) matches Some(i) && i <= t,
    decreases t,
{
    if t > 0 && m[0].0 != k {
        assert(m.drop_first()[t - 1] == m[t]);
        lemma_find_member_smallest(m.drop_first(), k, t - 1);
    }
}

proof fn lemma_upsert_again(v: Json, parts: Seq<Seq<char>>, field: Seq<char>, val: Json)
    requires
        upsert(v, parts, field, val, true) is Some,
    ensures
        upsert(upsert(v, parts, field, val, true)->0, parts, field, val, true) == upsert(
            v,
            parts,
            field,
            val,
            true,
        ),
    decreases parts.len(),
{
    let m = v->Object_0;
    if parts.len() == 0 {
        lemma_set_member_finds(m, field, val, true);
        let s = set_member(m, field, val, true);
        lemma_set_member_finds(s, field, val, true);
    } else {
        lemma_find_member_found(m, parts[0]);
        let p0 = parts[0];
        match find_member(m, p0) {
            Some(i) => {
                let c = upsert(m[i].1, parts.drop_first(), field, val, true)->0;
                lemma_upsert_again(m[i].1, parts.drop_first(), field, val);
                let m2 = m.update(i, (p0, c));
                lemma_find_member_prefix(m, p0, i);
                assert forall|t: int| 0 <= t < i implies (#[trigger] m2[t]).0 != p0 by {
                    assert(m2[t] == m[t]);
                }
                lemma_find_member_is(m2, p0, i);
                assert(m2.update(i, (p0, c)) =~= m2);
            },
            None => {
                let e = Json::Object(Seq::empty());
                lemma_upsert_fresh(parts.drop_first(), field, val, true);
                let c = upsert(e, parts.drop_first(), field, val, true)->0;
                lemma_upsert_again(e, parts.drop_first(), field, val);
                let m2 = m.push((p0, c));
                assert forall|t: int| 0 <= t < m.len() implies (#[trigger] m2[t]).0 != p0 by {
                    assert(m2[t] == m[t]);
                }
                lemma_find_member_is(m2, p0, m.len() as int);
                assert(m2.update(m.len() as int, (p0, c)) =~= m2);
            },
        }
    }
}

/// Inserting a setting a second time changes nothing: an insert keeps a value that is there.
pub proof fn law_insert_idempotent(v: Json, c: MigrationChange, defs: Seq<(String, SettingsDefinition)>)
    requires
        c is Insert,
        change_spec(v, c, defs).1,
    ensures
        change_spec(change_spec(v, c, defs).0, c, defs) == change_spec(v, c, defs),
{
    let i = find_def(defs, c->setting_id@)->0;
    lemma_upsert_again(v, path_parts(defs[i].1.location@), defs[i].1.field_name@, jview(defs[i].1.default));
}

/// After a migration the settings' version `v` reads the target version.
pub proof fn law_migrated_version(v: Json, to: Seq<char>)
    requires
        v is Object || v is Null,
    ensures
        get_path(with_version(v, to), seq!["v"@]) == Some(Json::Str(to)),
{
    let parts = seq!["v"@];
    assert(parts.drop_first() =~= Seq::<Seq<char>>::empty());
    match v {
        Json::Object(m) => {
            lemma_set_member_finds(m, "v"@, Json::Str(to), false);
            let s = set_member(m, "v"@, Json::Str(to), false);
            let j = find_member(s, "v"@)->0;
            assert(with_version(v, to) == Json::Object(s));
            assert(parts[0] == "v"@);
            assert(get_path(Json::Object(s), parts) == get_path(s[j].1, parts.drop_first()));
        },
        _ => {
            let m = seq![("v"@, Json::Str(to))];
            lemma_find_member_is(m, "v"@, 0);
        },
    }
}

/// Migrating to the version one is at runs no change.
pub proof fn law_same_version_selects_nothing(es: Seq<VersionEntry>, x: Seq<char>)
    ensures
        sorted_selection(es, x, x) == Seq::<VersionEntry>::empty(),
    decreases es.len(),
{
    if es.len() > 0 {
        law_same_version_selects_nothing(es.drop_last(), x);
    }
}

} // verus!

verus! {

proof fn lemma_find_member_same_keys(m1: Seq<(Seq<char>, Json)>, m2: Seq<(Seq<char>, Json)>, q: Seq<char>)
    requires
        m1.len() == m2.len(),
        forall|t: int| 0 <= t < m1.len() ==> (#[trigger] m1[t]).0 == m2[t].0,
    ensures
        find_member(m1, q) == find_member(m2, q),
    decreases m1.len(),
{
    if m1.len() > 0 {
        assert(m1[0].0 == m2[0].0);
        let a = m1.drop_first();
        let b = m2.drop_first();
        assert forall|t: int| 0 <= t < a.len() implies (#[trigger] a[t]).0 == b[t].0 by {
            assert(m1[t + 1].0 == m2[t + 1].0);
        }
        lemma_find_member_same_keys(a, b, q);
    }
}

proof fn lemma_find_member_pushed(m: Seq<(Seq<char>, Json)>, e: (Seq<char>, Json), q: Seq<char>)
    requires
        e.0 != q,
    ensures
        find_member(m.push(e), q) == find_member(m, q),
{
    let m2 = m.push(e);
    lemma_find_member_found(m, q);
    lemma_find_member_found(m2, q);
    match find_member(m, q) {
        Some(i) => {
            lemma_find_member_prefix(m, q, i);
            assert forall|t: int| 0 <= t < i implies (#[trigger] m2[t]).0 != q by {
                assert(m2[t] == m[t]);
            }
            assert(m2[i] == m[i]);
            lemma_find_member_is(m2, q, i);
        },
        None => {
            if let Some(j) = find_member(m2, q) {
                if j < m.len() {
                    assert(m2[j] == m[j]);
                }
            }
        },
    }
}

proof fn lemma_upsert_reads_back(v: Json, parts: Seq<Seq<char>>, f: Seq<char>, val: Json)
    requires
        upsert(v, parts, f, val, true) is Some,
    ensures
        get_path(upsert(v, parts, f, val, true)->0, parts.push(f)) == match get_path(v, parts.push(f)) {
            Some(x) => Some(x),
            None => Some(val),
        },
    decreases parts.len(),
{
    let m = v->Object_0;
    let w = upsert(v, parts, f, val, true)->0;
    let target = parts.push(f);
    if parts.len() == 0 {
        assert(target[0] == f);
        lemma_find_member_found(m, f);
        assert(target.drop_first() =~= Seq::<Seq<char>>::empty());
        match find_member(m, f) {
            Some(i) => {
                assert(w == v);
                assert(get_path(m[i].1, target.drop_first()) == Some(m[i].1));
                assert(get_path(v, target) == get_path(m[i].1, target.drop_first()));
            },
            None => {
                let m2 = m.push((f, val));
                assert(w == Json::Object(m2));
                assert forall|t: int| 0 <= t < m.len() implies (#[trigger] m2[t]).0 != f by {
                    assert(m2[t] == m[t]);
                }
                lemma_find_member_is(m2, f, m.len() as int);
            },
        }
    } else {
        let p0 = parts[0];
        let rest = parts.drop_first();
        assert(target[0] == p0);
        assert(target.drop_first() =~= rest.push(f));
        lemma_find_member_found(m, p0);
        match find_member(m, p0) {
            Some(i) => {
                let c = upsert(m[i].1, rest, f, val, true)->0;
                lemma_upsert_reads_back(m[i].1, rest, f, val);
                let m2 = m.update(i, (p0, c));
                assert(w == Json::Object(m2));
                assert forall|t: int| 0 <= t < m.len() implies (#[trigger] m2[t]).0 == m[t].0 by {}
                lemma_find_member_same_keys(m2, m, p0);
                assert(m2[i] == (p0, c));
                assert(get_path(w, target) == get_path(c, target.drop_first()));
                assert(get_path(v, target) == get_path(m[i].1, target.drop_first()));
            },
            None => {
                let e = Json::Object(Seq::empty());
                lemma_upsert_fresh(rest, f, val, true);
                let c = upsert(e, rest, f, val, true)->0;
                lemma_upsert_reads_back(e, rest, f, val);
                assert(get_path(e, rest.push(f)) is None);
                let m2 = m.push((p0, c));
                assert(w == Json::Object(m2));
                assert forall|t: int| 0 <= t < m.len() implies (#[trigger] m2[t]).0 != p0 by {
                    assert(m2[t] == m[t]);
                }
                lemma_find_member_is(m2, p0, m.len() as int);
                assert(get_path(w, target) == get_path(c, target.drop_first()));
                assert(get_path(v, target) is None);
            },
        }
    }
}

proof fn lemma_upsert_present(v: Json, parts: Seq<Seq<char>>, f: Seq<char>, val: Json)
    requires
        upsert(v, parts, f, val, true) is Some,
        get_path(v, parts.push(f)) is Some,
    ensures
        upsert(v, parts, f, val, true) == Some(v),
    decreases parts.len(),
{
    let m = v->Object_0;
    let target = parts.push(f);
    if parts.len() == 0 {
        assert(target[0] == f);
    } else {
        let p0 = parts[0];
        let rest = parts.drop_first();
        assert(target[0] == p0);
        assert(target.drop_first() =~= rest.push(f));
        lemma_find_member_found(m, p0);
        let i = find_member(m, p0)->0;
        lemma_upsert_present(m[i].1, rest, f, val);
        assert(m.update(i, (p0, m[i].1)) =~= m);
    }
}

proof fn lemma_upsert_elsewhere(
    v: Json,
    parts: Seq<Seq<char>>,
    f: Seq<char>,
    val: Json,
    keep: bool,
    q: Seq<Seq<char>>,
)
    requires
        upsert(v, parts, f, val, keep) is Some,
        !q.is_prefix_of(parts.push(f)),
        !parts.push(f).is_prefix_of(q),
    ensures
        get_path(upsert(v, parts, f, val, keep)->0, q) == get_path(v, q),
    decreases parts.len(),
{
    let m = v->Object_0;
    let target = parts.push(f);
    let w = upsert(v, parts, f, val, keep)->0;
    if q.len() == 0 {
        assert(q =~= target.subrange(0, 0));
    }
    let q0 = q[0];
    let m2 = w->Object_0;
    lemma_find_member_found(m, q0);
    if parts.len() == 0 {
        if q0 == f {
            assert(target =~= q.subrange(0, 1));
        }
        lemma_find_member_found(m, f);
        match find_member(m, f) {
            Some(i) => {
                if !keep {
                    assert(m2 == m.update(i, (f, val)));
                    assert forall|t: int| 0 <= t < m.len() implies (#[trigger] m2[t]).0 == m[t].0 by {}
                    lemma_find_member_same_keys(m2, m, q0);
                    if let Some(j) = find_member(m, q0) {
                        assert(j != i);
                        assert(m2[j] == m[j]);
                    }
                }
            },
            None => {
                lemma_find_member_pushed(m, (f, val), q0);
                if let Some(j) = find_member(m, q0) {
                    assert(m2[j] == m[j]);
                }
            },
        }
    } else {
        let p0 = parts[0];
        let rest = parts.drop_first();
        let t2 = rest.push(f);
        assert(target[0] == p0);
        assert(target.drop_first() =~= t2);
        lemma_find_member_found(m, p0);
        if q0 != p0 {
            match find_member(m, p0) {
                Some(i) => {
                    let c = upsert(m[i].1, rest, f, val, keep)->0;
                    assert(m2 == m.update(i, (p0, c)));
                    assert forall|t: int| 0 <= t < m.len() implies (#[trigger] m2[t]).0 == m[t].0 by {}
                    lemma_find_member_same_keys(m2, m, q0);
                    if let Some(j) = find_member(m, q0) {
                        assert(j != i);
                        assert(m2[j] == m[j]);
                    }
                },
                None => {
                    lemma_find_member_pushed(m, (p0, upsert(Json::Object(Seq::empty()), rest, f, val, keep)->0), q0);
                    if let Some(j) = find_member(m, q0) {
                        assert(m2[j] == m[j]);
                    }
                },
            }
        } else {
            let q2 = q.drop_first();
            if q2.is_prefix_of(t2) {
                assert(q =~= target.subrange(0, q.len() as int)) by {
                    assert forall|t: int| 0 <= t < q.len() implies q[t] == target.subrange(0, q.len() as int)[t] by {
                        if t > 0 {
                            assert(q[t] == q2[t - 1]);
                            assert(t2.subrange(0, q2.len() as int)[t - 1] == t2[t - 1]);
                        }
                    }
                }
            }
            if t2.is_prefix_of(q2) {
                assert(target =~= q.subrange(0, target.len() as int)) by {
                    assert forall|t: int| 0 <= t < target.len() implies target[t] == q.subrange(0, target.len() as int)[t] by {
                        if t > 0 {
                            assert(target[t] == t2[t - 1]);
                            assert(q2.subrange(0, t2.len() as int)[t - 1] == q2[t - 1]);
                        }
                    }
                }
            }
            match find_member(m, p0) {
                Some(i) => {
                    lemma_upsert_elsewhere(m[i].1, rest, f, val, keep, q2);
                    let c = upsert(m[i].1, rest, f, val, keep)->0;
                    assert forall|t: int| 0 <= t < m.len() implies (#[trigger] m2[t]).0 == m[t].0 by {}
                    lemma_find_member_same_keys(m2, m, p0);
                },
                None => {
                    let e = Json::Object(Seq::empty());
                    lemma_upsert_fresh(rest, f, val, keep);
                    lemma_upsert_elsewhere(e, rest, f, val, keep, q2);
                    if q2.len() == 0 {
                        assert(q =~= target.subrange(0, 1));
                    }
                    let c = upsert(e, rest, f, val, keep)->0;
                    let m3 = m.push((p0, c));
                    assert forall|t: int| 0 <= t < m.len() implies (#[trigger] m3[t]).0 != p0 by {
                        assert(m3[t] == m[t]);
                    }
                    lemma_find_member_is(m3, p0, m.len() as int);
                },
            }
        }
    }
}

/// Where an insert puts its setting: the location of the setting `d` followed by its field.
pub open spec fn setting_path(d: SettingsDefinition) -> Seq<Seq<char>> {
    path_parts(d.location@).push(d.field_name@)
}

/// An insert of a setting fails when the schema has no such setting, or when its location runs
/// through a value that is not an object; a failed insert leaves the settings as they were.
/// One that succeeds gives the setting's default at its place unless a value is there already,
/// which it keeps (the settings are then unchanged); every place that neither leads to the
/// setting nor lies inside it keeps its value.
pub proof fn law_insert(v: Json, setting_id: String, defs: Seq<(String, SettingsDefinition)>)
    ensures
        ({
            let (w, ok) = change_spec(v, MigrationChange::Insert { setting_id }, defs);
            &&& find_def(defs, setting_id@) is None ==> !ok
            &&& !ok ==> w == v
            &&& ok ==> ({
                let d = defs[find_def(defs, setting_id@)->0].1;
                let target = setting_path(d);
                &&& get_path(w, target) == match get_path(v, target) {
                    Some(x) => Some(x),
                    None => Some(jview(d.default)),
                }
                &&& get_path(v, target) is Some ==> w == v
                &&& forall|q: Seq<Seq<char>>|
                    !q.is_prefix_of(target) && !target.is_prefix_of(q) ==> #[trigger] get_path(w, q)
                        == get_path(v, q)
            })
        }),
{
    let (w, ok) = change_spec(v, MigrationChange::Insert { setting_id }, defs);
    if ok {
        let d = defs[find_def(defs, setting_id@)->0].1;
        let parts = path_parts(d.location@);
        let f = d.field_name@;
        let val = jview(d.default);
        lemma_upsert_reads_back(v, parts, f, val);
        if get_path(v, parts.push(f)) is Some {
            lemma_upsert_present(v, parts, f, val);
        }
        assert forall|q: Seq<Seq<char>>|
            !q.is_prefix_of(setting_path(d)) && !setting_path(d).is_prefix_of(q) implies #[trigger] get_path(w, q)
                == get_path(v, q) by {
            lemma_upsert_elsewhere(v, parts, f, val, true, q);
        }
    }
}

} // verus!
