//! A JSON document model and RFC 7386 merge-patch over it.
use vstd::prelude::*;
use vstd::string::StringExecFns;

verus! {

broadcast use vstd::std_specs::vec::group_vec_axioms;

/// A JSON value. Numbers keep their decimal text; objects keep their members in order.
pub enum Json {
    Null,
    Bool(bool),
    Number(String),
    Str(String),
    Array(Vec<Json>),
    Object(Vec<(String, Json)>),
}

/// The mathematical value of a [`Json`].
pub enum JsonModel {
    Null,
    Bool(bool),
    Number(Seq<char>),
    Str(Seq<char>),
    Array(Seq<JsonModel>),
    Object(Seq<(Seq<char>, JsonModel)>),
}

pub open spec fn items_view(s: Seq<Json>) -> Seq<JsonModel>
    decreases s,
{
    if s.len() == 0 {
        Seq::empty()
    } else {
        items_view(s.drop_last()).push(s.last().model())
    }
}

pub open spec fn members_view(s: Seq<(String, Json)>) -> Seq<(Seq<char>, JsonModel)>
    decreases s,
{
    if s.len() == 0 {
        Seq::empty()
    } else {
        members_view(s.drop_last()).push((s.last().0@, s.last().1.model()))
    }
}

impl Json {
    pub open spec fn model(self) -> JsonModel
        decreases self,
    {
        match self {
            Json::Null => JsonModel::Null,
            Json::Bool(b) => JsonModel::Bool(b),
            Json::Number(n) => JsonModel::Number(n@),
            Json::Str(s) => JsonModel::Str(s@),
            Json::Array(v) => JsonModel::Array(items_view(v@)),
            Json::Object(m) => JsonModel::Object(members_view(m@)),
        }
    }
}


pub proof fn lemma_items_view(s: Seq<Json>)
    ensures
        items_view(s).len() == s.len(),
        forall|i: int| 0 <= i < s.len() ==> #[trigger] items_view(s)[i] == s[i].model(),
    decreases s.len(),
{
    if s.len() > 0 {
        lemma_items_view(s.drop_last());
    }
}

pub proof fn lemma_members_view(s: Seq<(String, Json)>)
    ensures
        members_view(s).len() == s.len(),
        forall|i: int|
            0 <= i < s.len() ==> #[trigger] members_view(s)[i] == (s[i].0@, s[i].1.model()),
    decreases s.len(),
{
    if s.len() > 0 {
        lemma_members_view(s.drop_last());
    }
}

/// Object members: a sequence of (key, value) pairs.
pub type Members = Seq<(Seq<char>, JsonModel)>;

pub open spec fn has_key(m: Members, k: Seq<char>) -> bool {
    exists|i: int| 0 <= i < m.len() && m[i].0 == k
}

/// The position of member `k`, meaningful when `has_key(m, k)`.
pub open spec fn key_index(m: Members, k: Seq<char>) -> int {
    choose|i: int| 0 <= i < m.len() && m[i].0 == k
}

pub open spec fn unique_keys(m: Members) -> bool {
    forall|i: int, j: int| 0 <= i < m.len() && 0 <= j < m.len() && m[i].0 == m[j].0 ==> i == j
}

/// The value of member `k`, or `Null` where there is none.
pub open spec fn value_at(m: Members, k: Seq<char>) -> JsonModel {
    if has_key(m, k) {
        m[key_index(m, k)].1
    } else {
        JsonModel::Null
    }
}

/// `m` with member `k` taken out.
pub open spec fn without_key(m: Members, k: Seq<char>) -> Members {
    if has_key(m, k) {
        m.remove(key_index(m, k))
    } else {
        m
    }
}

/// `m` with member `k` set to `v`, in place where `k` is present, else at the end.
pub open spec fn with_member(m: Members, k: Seq<char>, v: JsonModel) -> Members {
    if has_key(m, k) {
        m.update(key_index(m, k), (k, v))
    } else {
        m.push((k, v))
    }
}

pub open spec fn members_of(j: JsonModel) -> Members {
    match j {
        JsonModel::Object(m) => m,
        _ => Seq::empty(),
    }
}

/// A well-formed document: no object holds a key twice, at any depth.
pub open spec fn wf(j: JsonModel) -> bool
    decreases j,
{
    match j {
        JsonModel::Array(s) => forall|i: int| 0 <= i < s.len() ==> wf(#[trigger] s[i]),
        JsonModel::Object(m) => unique_keys(m) && forall|i: int|
            0 <= i < m.len() ==> wf(#[trigger] m[i].1),
        _ => true,
    }
}

proof fn lemma_wf_item(s: Seq<JsonModel>, i: int)
    requires
        0 <= i < s.len(),
        wf(JsonModel::Array(s)),
    ensures
        wf(s[i]),
{
    let j = JsonModel::Array(s);
    assert(decreases_to!(j => j->Array_0));
    assert(decreases_to!(s => s[i]));
}

pub open spec fn wf_members(m: Members) -> bool {
    unique_keys(m) && forall|i: int| 0 <= i < m.len() ==> wf(#[trigger] m[i].1)
}

/// RFC 7386 merge-patch: an object patch merges member by member (a `null` member
/// removes the key), any other patch replaces the document.
pub open spec fn merge_patch(doc: JsonModel, patch: JsonModel) -> JsonModel
    decreases patch,
{
    match patch {
        JsonModel::Object(pm) => JsonModel::Object(merge_members(members_of(doc), pm)),
        _ => patch,
    }
}

/// Applies the patch members `pm`, in order, to the members `base`.
pub open spec fn merge_members(base: Members, pm: Members) -> Members
    decreases pm,
{
    if pm.len() == 0 {
        base
    } else {
        let acc = merge_members(base, pm.drop_last());
        let k = pm.last().0;
        let v = pm.last().1;
        if v is Null {
            without_key(acc, k)
        } else {
            with_member(acc, k, merge_patch(value_at(acc, k), v))
        }
    }
}


proof fn lemma_key_index(m: Members, k: Seq<char>, j: int)
    requires
        unique_keys(m),
        0 <= j < m.len(),
        m[j].0 == k,
    ensures
        has_key(m, k),
        key_index(m, k) == j,
{
    assert(has_key(m, k));
}

proof fn lemma_members_unique(base: Members, pm: Members)
    requires
        unique_keys(base),
    ensures
        unique_keys(merge_members(base, pm)),
    decreases pm.len(),
{
    if pm.len() > 0 {
        lemma_members_unique(base, pm.drop_last());
        let acc = merge_members(base, pm.drop_last());
        let k = pm.last().0;
        if has_key(acc, k) {
            let i = key_index(acc, k);
            assert(0 <= i < acc.len() && acc[i].0 == k);
        }
    }
}

proof fn lemma_wf_remove(m: Members, j: int)
    requires
        wf_members(m),
        0 <= j < m.len(),
    ensures
        wf_members(m.remove(j)),
{
    let r = m.remove(j);
    assert forall|a: int, b: int|
        0 <= a < r.len() && 0 <= b < r.len() && r[a].0 == r[b].0 implies a == b by {
        let a2 = if a < j { a } else { a + 1 };
        let b2 = if b < j { b } else { b + 1 };
        assert(r[a] == m[a2] && r[b] == m[b2]);
    }
    assert forall|a: int| 0 <= a < r.len() implies wf(#[trigger] r[a].1) by {
        let a2 = if a < j { a } else { a + 1 };
        assert(r[a] == m[a2]);
    }
}

proof fn lemma_wf_update(m: Members, j: int, v: JsonModel)
    requires
        wf_members(m),
        0 <= j < m.len(),
        wf(v),
    ensures
        wf_members(m.update(j, (m[j].0, v))),
{
    let r = m.update(j, (m[j].0, v));
    assert forall|a: int, b: int|
        0 <= a < r.len() && 0 <= b < r.len() && r[a].0 == r[b].0 implies a == b by {
        assert(r[a].0 == m[a].0 && r[b].0 == m[b].0);
    }
}

proof fn lemma_wf_push(m: Members, k: Seq<char>, v: JsonModel)
    requires
        wf_members(m),
        !has_key(m, k),
        wf(v),
    ensures
        wf_members(m.push((k, v))),
{
    let r = m.push((k, v));
    assert forall|a: int, b: int|
        0 <= a < r.len() && 0 <= b < r.len() && r[a].0 == r[b].0 implies a == b by {
        if a < m.len() && b == m.len() {
            assert(m[a].0 == k);
        }
        if b < m.len() && a == m.len() {
            assert(m[b].0 == k);
        }
    }
    assert forall|a: int| 0 <= a < r.len() implies wf(#[trigger] r[a].1) by {
        if a < m.len() {
            assert(r[a] == m[a]);
        }
    }
}

/// The position of the member of `m` with key `k`, if any.
fn find_member(m: &Vec<(String, Json)>, k: &String) -> (r: Option<usize>)
    ensures
        match r {
            Some(j) => j < m.len() && m@[j as int].0@ == k@,
            None => !has_key(members_view(m@), k@),
        },
{
    let mut i: usize = 0;
    while i < m.len()
        invariant
            0 <= i <= m.len(),
            forall|j: int| 0 <= j < i ==> m@[j].0@ != k@,
        decreases m.len() - i,
    {
        if m[i].0 == *k {
            return Some(i);
        }
        i += 1;
    }
    proof {
        lemma_members_view(m@);
        if has_key(members_view(m@), k@) {
            let j = key_index(members_view(m@), k@);
            assert(members_view(m@)[j].0 == m@[j].0@);
        }
    }
    None
}

/// Applies `patch` to `doc` as an RFC 7386 merge-patch.
pub fn merge(doc: &mut Json, patch: &Json)
    requires
        wf(old(doc).model()),
        wf(patch.model()),
    ensures
        final(doc).model() == merge_patch(old(doc).model(), patch.model()),
        wf(final(doc).model()),
    decreases patch,
{
    match patch {
        Json::Object(pm) => {
            let ghost base = members_of(old(doc).model());
            let ghost pmv = members_view(pm@);
            proof {
                lemma_members_view(pm@);
            }
            let mut cur = Json::Null;
            core::mem::swap(doc, &mut cur);
            let mut acc: Vec<(String, Json)> = match cur {
                Json::Object(m) => m,
                _ => Vec::new(),
            };
            assert(pmv.take(0) =~= Seq::<(Seq<char>, JsonModel)>::empty());
            let mut i: usize = 0;
            while i < pm.len()
                invariant
                    0 <= i <= pm.len(),
                    *patch == Json::Object(*pm),
                    wf(patch.model()),
                    pmv == members_view(pm@),
                    pmv.len() == pm.len(),
                    forall|j: int| 0 <= j < pm.len() ==> #[trigger] pmv[j] == (pm@[j].0@, pm@[j].1.model()),
                    members_view(acc@) == merge_members(base, pmv.take(i as int)),
                    wf_members(members_view(acc@)),
                decreases pm.len() - i,
            {
                let ghost a = members_view(acc@);
                let ghost before = acc@;
                proof {
                    assert(pmv.take(i + 1).drop_last() =~= pmv.take(i as int));
                    assert(pmv.take(i + 1).last() == pmv[i as int]);
                    assert(wf(pmv[i as int].1));
                    lemma_members_view(acc@);
                }
                let k = &pm[i].0;
                let v = &pm[i].1;
                let found = find_member(&acc, k);
                match v {
                    Json::Null => {
                        match found {
                            Some(j) => {
                                acc.remove(j);
                                proof {
                                    lemma_key_index(a, k@, j as int);
                                    lemma_members_view(acc@);
                                    assert(members_view(acc@) =~= a.remove(j as int));
                                    lemma_wf_remove(a, j as int);
                                }
                            },
                            None => {},
                        }
                    },
                    _ => {
                        proof {
                            assert(decreases_to!(*patch => patch->Object_0));
                            assert(decreases_to!(*pm => pm[i as int]));
                            assert(decreases_to!(pm[i as int] => pm[i as int].1));
                        }
                        match found {
                            Some(j) => {
                                proof {
                                    lemma_key_index(a, k@, j as int);
                                }
                                let (kk, mut child) = acc.remove(j);
                                merge(&mut child, v);
                                acc.insert(j, (kk, child));
                                proof {
                                    lemma_members_view(acc@);
                                    assert(acc@ =~= before.update(j as int, acc@[j as int]));
                                    assert(members_view(acc@) =~= with_member(a, k@, merge_patch(value_at(a, k@), v.model())));
                                    lemma_wf_update(a, j as int, merge_patch(value_at(a, k@), v.model()));
                                }
                            },
                            None => {
                                let mut child = Json::Null;
                                merge(&mut child, v);
                                acc.push((k.clone(), child));
                                proof {
                                    lemma_members_view(acc@);
                                    assert(members_view(acc@) =~= with_member(a, k@, merge_patch(value_at(a, k@), v.model())));
                                    lemma_wf_push(a, k@, merge_patch(value_at(a, k@), v.model()));
                                }
                            },
                        }
                    },
                }
                i += 1;
            }
            assert(pmv.take(pm.len() as int) =~= pmv);
            *doc = Json::Object(acc);
        },
        _ => {
            *doc = patch.deep_clone();
        },
    }
}

impl Json {
    /// An object with the single member `key`.
    pub fn single(key: String, value: Json) -> (r: Json)
        ensures
            r.model() == JsonModel::Object(seq![(key@, value.model())]),
    {
        let m = vec![(key, value)];
        proof {
            lemma_members_view(m@);
            assert(members_view(m@) =~= seq![(m@[0].0@, m@[0].1.model())]);
        }
        Json::Object(m)
    }

    /// The value of member `key`, where this is an object that has one.
    pub fn get(&self, key: &str) -> (r: Option<Json>)
        requires
            wf(self.model()),
        ensures
            match r {
                Some(v) => has_key(members_of(self.model()), key@) && v.model() == value_at(
                    members_of(self.model()),
                    key@,
                ),
                None => !has_key(members_of(self.model()), key@),
            },
    {
        match self {
            Json::Object(m) => {
                let k = String::from_str(key);
                match find_member(m, &k) {
                    Some(j) => {
                        proof {
                            lemma_members_view(m@);
                            lemma_key_index(members_view(m@), key@, j as int);
                        }
                        Some(m[j].1.deep_clone())
                    },
                    None => None,
                }
            },
            _ => None,
        }
    }

    /// Whether this document is well-formed: no object holds a key twice.
    pub fn well_formed(&self) -> (r: bool)
        ensures
            r == wf(self.model()),
        decreases self,
    {
        match self {
            Json::Array(v) => {
                proof {
                    lemma_items_view(v@);
                }
                let mut i: usize = 0;
                while i < v.len()
                    invariant
                        0 <= i <= v.len(),
                        *self == Json::Array(*v),
                        items_view(v@).len() == v.len(),
                        forall|j: int| 0 <= j < v.len() ==> #[trigger] items_view(v@)[j] == v@[j].model(),
                        forall|j: int| 0 <= j < i ==> wf(#[trigger] items_view(v@)[j]),
                    decreases v.len() - i,
                {
                    proof {
                        assert(decreases_to!(*self => self->Array_0));
                        assert(decreases_to!(*v => v[i as int]));
                    }
                    let ok = v[i].well_formed();
                    if !ok {
                        assert(self.model() == JsonModel::Array(items_view(v@)));
                        assert(items_view(v@)[i as int] == v@[i as int].model());
                        assert(!wf(items_view(v@)[i as int]));
                        proof {
                            if wf(JsonModel::Array(items_view(v@))) {
                                lemma_wf_item(items_view(v@), i as int);
                            }
                        }
                        return false;
                    }
                    i += 1;
                }
                true
            },
            Json::Object(m) => {
                let ghost mv = members_view(m@);
                proof {
                    lemma_members_view(m@);
                }
                let mut i: usize = 0;
                while i < m.len()
                    invariant
                        0 <= i <= m.len(),
                        *self == Json::Object(*m),
                        mv == members_view(m@),
                        mv.len() == m.len(),
                        forall|j: int| 0 <= j < m.len() ==> #[trigger] mv[j] == (m@[j].0@, m@[j].1.model()),
                        forall|a: int, b: int| 0 <= a < i && 0 <= b < i && mv[a].0 == mv[b].0 ==> a == b,
                        forall|j: int| 0 <= j < i ==> wf(#[trigger] mv[j].1),
                    decreases m.len() - i,
                {
                    let mut j: usize = 0;
                    while j < i
                        invariant
                            0 <= j <= i < m.len(),
                            mv.len() == m.len(),
                            forall|x: int| 0 <= x < m.len() ==> #[trigger] mv[x] == (m@[x].0@, m@[x].1.model()),
                            forall|b: int| 0 <= b < j ==> mv[b].0 != mv[i as int].0,
                            *self == Json::Object(*m),
                            mv == members_view(m@),
                        decreases i - j,
                    {
                        if m[j].0 == m[i].0 {
                            assert(mv[j as int].0 == mv[i as int].0 && j != i);
                            assert(!unique_keys(mv));
                            assert(self.model() == JsonModel::Object(mv));
                            return false;
                        }
                        j += 1;
                    }
                    proof {
                        assert(decreases_to!(*self => self->Object_0));
                        assert(decreases_to!(*m => m[i as int]));
                        assert(decreases_to!(m[i as int] => m[i as int].1));
                    }
                    if !m[i].1.well_formed() {
                        assert(!wf(mv[i as int].1));
                        assert(self.model() == JsonModel::Object(mv));
                        return false;
                    }
                    i += 1;
                }
                true
            },
            _ => true,
        }
    }

    /// A copy of this document.
    pub fn deep_clone(&self) -> (r: Json)
        ensures
            r.model() == self.model(),
        decreases self,
    {
        match self {
            Json::Null => Json::Null,
            Json::Bool(b) => Json::Bool(*b),
            Json::Number(n) => Json::Number(n.clone()),
            Json::Str(t) => Json::Str(t.clone()),
            Json::Array(v) => {
                let mut out: Vec<Json> = Vec::new();
                let mut i: usize = 0;
                while i < v.len()
                    invariant
                        0 <= i <= v.len(),
                        items_view(out@) == items_view(v@.take(i as int)),
                        *self == Json::Array(*v),
                    decreases v.len() - i,
                {
                    proof {
                        assert(decreases_to!(*v => v[i as int]));
                        assert(decreases_to!(*self => self->Array_0));
                    }
                    let x = v[i].deep_clone();
                    let ghost before = out@;
                    out.push(x);
                    proof {
                        assert(out@.drop_last() =~= before);
                        assert(v@.take(i + 1).drop_last() =~= v@.take(i as int));
                    }
                    i += 1;
                }
                assert(v@.take(v.len() as int) =~= v@);
                Json::Array(out)
            },
            Json::Object(m) => {
                let mut out: Vec<(String, Json)> = Vec::new();
                let mut i: usize = 0;
                while i < m.len()
                    invariant
                        0 <= i <= m.len(),
                        members_view(out@) == members_view(m@.take(i as int)),
                        *self == Json::Object(*m),
                    decreases m.len() - i,
                {
                    proof {
                        assert(decreases_to!(*m => m[i as int]));
                        assert(decreases_to!(*self => self->Object_0));
                        assert(decreases_to!(m[i as int] => m[i as int].1));
                    }
                    let x = m[i].1.deep_clone();
                    let ghost before = out@;
                    out.push((m[i].0.clone(), x));
                    proof {
                        assert(out@.drop_last() =~= before);
                        assert(m@.take(i + 1).drop_last() =~= m@.take(i as int));
                    }
                    i += 1;
                }
                assert(m@.take(m.len() as int) =~= m@);
                Json::Object(out)
            },
        }
    }
}


proof fn lemma_absent_after(acc: Members, k: Seq<char>, k2: Seq<char>, v: JsonModel)
    requires
        !has_key(acc, k),
        k2 != k,
    ensures
        !has_key(without_key(acc, k2), k),
        !has_key(with_member(acc, k2, v), k),
{
    if has_key(acc, k2) {
        let j = key_index(acc, k2);
        let r = acc.remove(j);
        if has_key(r, k) {
            let a = choose|a: int| 0 <= a < r.len() && r[a].0 == k;
            let a2 = if a < j { a } else { a + 1 };
            assert(r[a] == acc[a2]);
        }
        let u = acc.update(j, (k2, v));
        if has_key(u, k) {
            let a = choose|a: int| 0 <= a < u.len() && u[a].0 == k;
            assert(u[a].0 == acc[a].0 || a == j);
        }
    } else {
        let u = acc.push((k2, v));
        if has_key(u, k) {
            let a = choose|a: int| 0 <= a < u.len() && u[a].0 == k;
            assert(a < acc.len() ==> u[a] == acc[a]);
        }
    }
}

proof fn lemma_removed_key(acc: Members, k: Seq<char>)
    requires
        unique_keys(acc),
    ensures
        !has_key(without_key(acc, k), k),
{
    if has_key(acc, k) {
        let j = key_index(acc, k);
        let r = acc.remove(j);
        if has_key(r, k) {
            let a = choose|a: int| 0 <= a < r.len() && r[a].0 == k;
            let a2 = if a < j { a } else { a + 1 };
            assert(r[a] == acc[a2]);
        }
    }
}

proof fn lemma_null_prefix(base: Members, pm: Members, idx: int, n: int)
    requires
        unique_keys(base),
        unique_keys(pm),
        0 <= idx < n <= pm.len(),
        pm[idx].1 is Null,
    ensures
        !has_key(merge_members(base, pm.take(n)), pm[idx].0),
    decreases n,
{
    let k = pm[idx].0;
    assert(pm.take(n).drop_last() =~= pm.take(n - 1));
    assert(pm.take(n).last() == pm[n - 1]);
    let acc = merge_members(base, pm.take(n - 1));
    if n == idx + 1 {
        lemma_members_unique(base, pm.take(n - 1));
        lemma_removed_key(acc, k);
    } else {
        lemma_null_prefix(base, pm, idx, n - 1);
        let k2 = pm[n - 1].0;
        assert(k2 != k);
        lemma_absent_after(acc, k, k2, merge_patch(value_at(acc, k2), pm[n - 1].1));
    }
}

/// Merging an empty object patch into an object leaves it as it was.
pub proof fn law_empty_patch_is_identity(doc: JsonModel)
    requires
        doc is Object,
    ensures
        merge_patch(doc, JsonModel::Object(Seq::empty())) == doc,
{
}

/// A key that an object patch sets to `null` is absent from the merged object.
pub proof fn law_null_member_removes_key(doc: JsonModel, patch: JsonModel, k: Seq<char>)
    requires
        wf(doc),
        wf(patch),
        has_key(members_of(patch), k),
        value_at(members_of(patch), k) is Null,
    ensures
        merge_patch(doc, patch) is Object,
        !has_key(members_of(merge_patch(doc, patch)), k),
{
    let pm = members_of(patch);
    let idx = key_index(pm, k);
    assert(patch is Object);
    lemma_null_prefix(members_of(doc), pm, idx, pm.len() as int);
    assert(pm.take(pm.len() as int) =~= pm);
}

} // verus!
