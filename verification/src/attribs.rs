use vstd::prelude::*;

verus! {

/// A stable handle to one widget in the tree; attribute lookups are keyed by
/// it.
#[derive(Debug, Clone, Copy, PartialEq, Eq, Structural)]
pub struct WidgetId(pub usize);

/// A 24-bit colour.
#[derive(Debug, Clone, Copy, PartialEq, Eq, Structural)]
pub struct Hex {
    pub r: u8,
    pub g: u8,
    pub b: u8,
}

/// A resolved attribute value: one of the closed set of primitive kinds that
/// attribute lookups can produce.
#[derive(Debug)]
pub enum CommonVal {
    Str(String),
    Int(i64),
    Hex(Hex),
    Bool(bool),
}

impl CommonVal {
    /// A structural copy of the value.
    pub fn duplicate(&self) -> (r: CommonVal)
        ensures
            r == *self,
    {
        match self {
            CommonVal::Str(s) => CommonVal::Str(s.clone()),
            CommonVal::Int(n) => CommonVal::Int(*n),
            CommonVal::Hex(h) => CommonVal::Hex(*h),
            CommonVal::Bool(b) => CommonVal::Bool(*b),
        }
    }
}

/// Whether two string slices hold the same characters.
pub fn str_eq(a: &str, b: &str) -> (r: bool)
    ensures
        r == (a@ == b@),
{
    let x = a.to_owned();
    let y = b.to_owned();
    x == y
}

/// The value stored under the first entry whose key reads `k`, if any.
pub open spec fn seq_find<V>(s: Seq<(String, V)>, k: Seq<char>) -> Option<V>
    decreases s,
{
    if s.len() == 0 {
        None
    } else if s[0].0@ == k {
        Some(s[0].1)
    } else {
        seq_find(s.drop_first(), k)
    }
}

proof fn lemma_seq_find_step<V>(s: Seq<(String, V)>, k: Seq<char>, i: int)
    requires
        0 <= i < s.len(),
        forall|j: int| 0 <= j < i ==> #[trigger] s[j].0@ != k,
    ensures
        seq_find(s, k) == if s[i].0@ == k {
            Some(s[i].1)
        } else {
            seq_find(s.subrange(i + 1, s.len() as int), k)
        },
    decreases i,
{
    if i == 0 {
        assert(s.drop_first() =~= s.subrange(1, s.len() as int));
    } else {
        lemma_seq_find_step(s.drop_first(), k, i - 1);
        assert(s.drop_first()[i - 1] == s[i]);
        assert(s.drop_first().subrange(i, s.len() - 1) =~= s.subrange(i + 1, s.len() as int));
    }
}

/// A small, insertion-ordered key-to-value map: keys are unique, a later
/// `set` of an existing key overwrites the value in place.
#[derive(Debug)]
pub struct SmallMap<V> {
    pub entries: Vec<(String, V)>,
}

impl<V> SmallMap<V> {
    /// Keys are unique.
    pub open spec fn wf(self) -> bool {
        forall|i: int, j: int|
            0 <= i < j < self.entries@.len() ==> #[trigger] self.entries@[i].0@ != #[trigger] self.entries@[j].0@
    }

    /// The value under key `k`, if any.
    pub open spec fn spec_get(self, k: Seq<char>) -> Option<V> {
        seq_find(self.entries@, k)
    }

    pub fn empty() -> (m: SmallMap<V>)
        ensures
            m.wf(),
            m.entries@.len() == 0,
            forall|k: Seq<char>| #[trigger] m.spec_get(k) is None,
    {
        let m = SmallMap { entries: Vec::new() };
        proof {
            assert(forall|k: Seq<char>| #[trigger] seq_find(m.entries@, k) is None);
        }
        m
    }

    /// Look a key up.
    pub fn get(&self, key: &str) -> (r: Option<&V>)
        ensures
            match r {
                Some(v) => self.spec_get(key@) == Some(*v),
                None => self.spec_get(key@) is None,
            },
    {
        let ghost s = self.entries@;
        let mut i: usize = 0;
        while i < self.entries.len()
            invariant
                0 <= i <= s.len(),
                s == self.entries@,
                forall|j: int| 0 <= j < i ==> #[trigger] s[j].0@ != key@,
            decreases s.len() - i,
        {
            let entry = &self.entries[i];
            if str_eq(entry.0.as_str(), key) {
                proof {
                    lemma_seq_find_step(s, key@, i as int);
                }
                return Some(&self.entries[i].1);
            }
            i = i + 1;
        }
        proof {
            if s.len() > 0 {
                lemma_seq_find_step(s, key@, s.len() - 1);
                assert(s.subrange(s.len() as int, s.len() as int) =~= Seq::<(String, V)>::empty());
            }
        }
        None
    }

    /// Store `value` under `key`; an existing entry keeps its place in the
    /// insertion order, and its old value is returned.
    pub fn set(&mut self, key: String, value: V) -> (prev: Option<V>)
        requires
            old(self).wf(),
        ensures
            final(self).wf(),
            final(self).spec_get(key@) == Some(value),
            forall|k: Seq<char>|
                k != key@ ==> #[trigger] final(self).spec_get(k) == old(self).spec_get(k),
            match prev {
                Some(v) => old(self).spec_get(key@) == Some(v),
                None => old(self).spec_get(key@) is None,
            },
    {
        let ghost s0 = self.entries@;
        let mut i: usize = 0;
        while i < self.entries.len()
            invariant
                0 <= i <= s0.len(),
                s0 == self.entries@,
                s0 == old(self).entries@,
                old(self).wf(),
                forall|j: int| 0 <= j < i ==> #[trigger] s0[j].0@ != key@,
            decreases s0.len() - i,
        {
            if str_eq(self.entries[i].0.as_str(), key.as_str()) {
                proof {
                    lemma_seq_find_step(s0, key@, i as int);
                }
                let old_entry = self.entries.remove(i);
                self.entries.insert(i, (key, value));
                proof {
                    let s1 = self.entries@;
                    assert(old_entry == s0[i as int]);
                    assert(s1 =~= s0.update(i as int, (key, value)));
                    assert(forall|x: int|
                        0 <= x < s1.len() ==> #[trigger] s1[x].0@ == s0[x].0@);
                    assert(final(self).wf());
                    assert forall|k: Seq<char>| k != key@ implies #[trigger] seq_find(
                        s1,
                        k,
                    ) == seq_find(s0, k) by {
                        lemma_find_update_other(s0, i as int, (key, value), k);
                    }
                    lemma_seq_find_step(s1, key@, i as int);
                    assert(seq_find(s1, key@) == Some(value));
                }
                return Some(old_entry.1);
            }
            i = i + 1;
        }
        proof {
            if s0.len() > 0 {
                lemma_seq_find_step(s0, key@, s0.len() - 1);
                assert(s0.subrange(s0.len() as int, s0.len() as int) =~= Seq::<(
                    String,
                    V,
                )>::empty());
            }
        }
        self.entries.push((key, value));
        proof {
            let s1 = self.entries@;
            assert(s1 == s0.push((key, value)));
            assert(forall|x: int| 0 <= x < s0.len() ==> #[trigger] s1[x] == s0[x]);
            assert(s1[s1.len() - 1].0@ == key@);
            assert(final(self).wf());
            lemma_find_push(s0, (key, value), key@);
            assert(seq_find(s0, key@) is None);
            assert forall|k: Seq<char>| k != key@ implies #[trigger] seq_find(s1, k) == seq_find(
                s0,
                k,
            ) by {
                lemma_find_push(s0, (key, value), k);
            }
        }
        None
    }
}

/// One attribute of a canvas cell: a raw string, or a resolved primitive
/// value.
#[derive(Debug)]
pub enum CanvasAttrib {
    Str(String),
    Common(CommonVal),
}

impl CanvasAttrib {
    /// A structural copy of the attribute.
    pub fn duplicate(&self) -> (r: CanvasAttrib)
        ensures
            r == *self,
    {
        match self {
            CanvasAttrib::Str(s) => CanvasAttrib::Str(s.clone()),
            CanvasAttrib::Common(v) => CanvasAttrib::Common(v.duplicate()),
        }
    }
}

/// The attribute set of one canvas cell.
#[derive(Debug)]
pub struct CanvasAttribs(pub SmallMap<CanvasAttrib>);

impl CanvasAttribs {
    pub open spec fn wf(self) -> bool {
        self.0.wf()
    }

    pub open spec fn spec_get(self, k: Seq<char>) -> Option<CanvasAttrib> {
        self.0.spec_get(k)
    }

    pub fn new() -> (m: CanvasAttribs)
        ensures
            m.wf(),
            forall|k: Seq<char>| #[trigger] m.spec_get(k) is None,
    {
        CanvasAttribs(SmallMap::empty())
    }

    /// Store a raw string value under `key`.
    pub fn set_str(&mut self, key: &str, value: &str) -> (prev: Option<CanvasAttrib>)
        requires
            old(self).wf(),
        ensures
            final(self).wf(),
            final(self).spec_get(key@) matches Some(CanvasAttrib::Str(s)) && s@ == value@,
            forall|k: Seq<char>|
                k != key@ ==> #[trigger] final(self).spec_get(k) == old(self).spec_get(k),
            match prev {
                Some(v) => old(self).spec_get(key@) == Some(v),
                None => old(self).spec_get(key@) is None,
            },
    {
        self.0.set(key.to_owned(), CanvasAttrib::Str(value.to_owned()))
    }

    /// Store an attribute under `key`.
    pub fn set(&mut self, key: &str, value: CanvasAttrib) -> (prev: Option<CanvasAttrib>)
        requires
            old(self).wf(),
        ensures
            final(self).wf(),
            final(self).spec_get(key@) == Some(value),
            forall|k: Seq<char>|
                k != key@ ==> #[trigger] final(self).spec_get(k) == old(self).spec_get(k),
            match prev {
                Some(v) => old(self).spec_get(key@) == Some(v),
                None => old(self).spec_get(key@) is None,
            },
    {
        self.0.set(key.to_owned(), value)
    }

    pub fn get(&self, key: &str) -> (r: Option<&CanvasAttrib>)
        ensures
            match r {
                Some(v) => self.spec_get(key@) == Some(*v),
                None => self.spec_get(key@) is None,
            },
    {
        self.0.get(key)
    }

    /// The string under `key`, whether stored raw or as a resolved string
    /// value.
    pub fn get_str(&self, key: &str) -> (r: Option<&String>)
        ensures
            match r {
                Some(s) => self.spec_get(key@) == Some(CanvasAttrib::Str(*s)) || self.spec_get(
                    key@,
                ) == Some(CanvasAttrib::Common(CommonVal::Str(*s))),
                None => !(self.spec_get(key@) matches Some(CanvasAttrib::Str(_)))
                    && !(self.spec_get(key@) matches Some(
                    CanvasAttrib::Common(CommonVal::Str(_)),
                )),
            },
    {
        match self.0.get(key) {
            Some(CanvasAttrib::Str(s)) => Some(s),
            Some(CanvasAttrib::Common(CommonVal::Str(s))) => Some(s),
            _ => None,
        }
    }

    pub fn get_i64(&self, key: &str) -> (r: Option<i64>)
        ensures
            match r {
                Some(n) => self.spec_get(key@) == Some(CanvasAttrib::Common(CommonVal::Int(n))),
                None => !(self.spec_get(key@) matches Some(
                    CanvasAttrib::Common(CommonVal::Int(_)),
                )),
            },
    {
        match self.0.get(key) {
            Some(CanvasAttrib::Common(CommonVal::Int(n))) => Some(*n),
            _ => None,
        }
    }

    pub fn get_hex(&self, key: &str) -> (r: Option<Hex>)
        ensures
            match r {
                Some(h) => self.spec_get(key@) == Some(CanvasAttrib::Common(CommonVal::Hex(h))),
                None => !(self.spec_get(key@) matches Some(
                    CanvasAttrib::Common(CommonVal::Hex(_)),
                )),
            },
    {
        match self.0.get(key) {
            Some(CanvasAttrib::Common(CommonVal::Hex(h))) => Some(*h),
            _ => None,
        }
    }

    /// True exactly when `key` holds the resolved boolean `true`.
    pub fn get_bool(&self, key: &str) -> (r: bool)
        ensures
            r == (self.spec_get(key@) == Some(CanvasAttrib::Common(CommonVal::Bool(true)))),
    {
        match self.0.get(key) {
            Some(CanvasAttrib::Common(CommonVal::Bool(b))) => *b,
            _ => false,
        }
    }
}

/// The attribute set of one widget, as the attribute store resolved it.
#[derive(Debug)]
pub struct Attributes(pub SmallMap<CommonVal>);

impl Attributes {
    pub open spec fn wf(self) -> bool {
        self.0.wf()
    }

    pub open spec fn spec_get(self, k: Seq<char>) -> Option<CommonVal> {
        self.0.spec_get(k)
    }

    /// The integer under `k`, if `k` holds an integer.
    pub open spec fn spec_int(self, k: Seq<char>) -> Option<i64> {
        match self.spec_get(k) {
            Some(CommonVal::Int(n)) => Some(n),
            _ => None,
        }
    }

    /// The string under `k`, if `k` holds a string.
    pub open spec fn spec_str(self, k: Seq<char>) -> Option<Seq<char>> {
        match self.spec_get(k) {
            Some(CommonVal::Str(s)) => Some(s@),
            _ => None,
        }
    }

    pub fn empty() -> (m: Attributes)
        ensures
            m.wf(),
            forall|k: Seq<char>| #[trigger] m.spec_get(k) is None,
    {
        Attributes(SmallMap::empty())
    }

    pub fn set(&mut self, key: &str, value: CommonVal) -> (prev: Option<CommonVal>)
        requires
            old(self).wf(),
        ensures
            final(self).wf(),
            final(self).spec_get(key@) == Some(value),
            forall|k: Seq<char>|
                k != key@ ==> #[trigger] final(self).spec_get(k) == old(self).spec_get(k),
            match prev {
                Some(v) => old(self).spec_get(key@) == Some(v),
                None => old(self).spec_get(key@) is None,
            },
    {
        self.0.set(key.to_owned(), value)
    }

    pub fn get(&self, key: &str) -> (r: Option<&CommonVal>)
        ensures
            match r {
                Some(v) => self.spec_get(key@) == Some(*v),
                None => self.spec_get(key@) is None,
            },
    {
        self.0.get(key)
    }

    pub fn get_int(&self, key: &str) -> (r: Option<i64>)
        ensures
            r == self.spec_int(key@),
    {
        match self.0.get(key) {
            Some(CommonVal::Int(n)) => Some(*n),
            _ => None,
        }
    }

    pub fn get_str(&self, key: &str) -> (r: Option<&String>)
        ensures
            match r {
                Some(s) => self.spec_str(key@) == Some(s@),
                None => self.spec_str(key@) is None,
            },
    {
        match self.0.get(key) {
            Some(CommonVal::Str(s)) => Some(s),
            _ => None,
        }
    }

    pub fn get_bool(&self, key: &str) -> (r: bool)
        ensures
            r == (self.spec_get(key@) == Some(CommonVal::Bool(true))),
    {
        match self.0.get(key) {
            Some(CommonVal::Bool(b)) => *b,
            _ => false,
        }
    }

    pub fn get_hex(&self, key: &str) -> (r: Option<Hex>)
        ensures
            match r {
                Some(h) => self.spec_get(key@) == Some(CommonVal::Hex(h)),
                None => !(self.spec_get(key@) matches Some(CommonVal::Hex(_))),
            },
    {
        match self.0.get(key) {
            Some(CommonVal::Hex(h)) => Some(*h),
            _ => None,
        }
    }
}

/// All widgets' attribute sets, looked up by widget id.
#[derive(Debug)]
pub struct AttributeStorage {
    pub rows: Vec<Attributes>,
}

impl AttributeStorage {
    pub open spec fn wf(self) -> bool {
        forall|i: int| 0 <= i < self.rows@.len() ==> #[trigger] self.rows@[i].wf()
    }

    /// The attribute value stored for widget `id` under key `k`.
    pub open spec fn attr(self, id: WidgetId, k: Seq<char>) -> Option<CommonVal> {
        if id.0 < self.rows@.len() {
            self.rows@[id.0 as int].spec_get(k)
        } else {
            None
        }
    }

    /// The integer stored for widget `id` under key `k`, if any.
    pub open spec fn attr_int(self, id: WidgetId, k: Seq<char>) -> Option<i64> {
        match self.attr(id, k) {
            Some(CommonVal::Int(n)) => Some(n),
            _ => None,
        }
    }

    /// The string stored for widget `id` under key `k`, if any.
    pub open spec fn attr_str(self, id: WidgetId, k: Seq<char>) -> Option<Seq<char>> {
        match self.attr(id, k) {
            Some(CommonVal::Str(s)) => Some(s@),
            _ => None,
        }
    }

    pub fn new() -> (s: AttributeStorage)
        ensures
            s.wf(),
            s.rows@.len() == 0,
    {
        AttributeStorage { rows: Vec::new() }
    }

    /// Register one widget's attribute set; the returned id keys its lookups.
    pub fn add(&mut self, attrs: Attributes) -> (id: WidgetId)
        requires
            old(self).wf(),
            attrs.wf(),
        ensures
            final(self).wf(),
            id.0 == old(self).rows@.len(),
            final(self).rows@ == old(self).rows@.push(attrs),
    {
        let id = WidgetId(self.rows.len());
        self.rows.push(attrs);
        id
    }

    pub fn get(&self, id: WidgetId) -> (r: Option<&Attributes>)
        ensures
            match r {
                Some(a) => id.0 < self.rows@.len() && *a == self.rows@[id.0 as int],
                None => id.0 >= self.rows@.len(),
            },
    {
        if id.0 < self.rows.len() {
            Some(&self.rows[id.0])
        } else {
            None
        }
    }

    pub fn get_int(&self, id: WidgetId, key: &str) -> (r: Option<i64>)
        ensures
            r == self.attr_int(id, key@),
    {
        match self.get(id) {
            Some(attrs) => attrs.get_int(key),
            None => None,
        }
    }

    pub fn get_str(&self, id: WidgetId, key: &str) -> (r: Option<&String>)
        ensures
            match r {
                Some(s) => self.attr_str(id, key@) == Some(s@),
                None => self.attr_str(id, key@) is None,
            },
    {
        match self.get(id) {
            Some(attrs) => attrs.get_str(key),
            None => None,
        }
    }
}

/// Appending an entry changes only lookups of its own key, and only when that
/// key was absent.
proof fn lemma_find_push<V>(s: Seq<(String, V)>, e: (String, V), k: Seq<char>)
    ensures
        seq_find(s.push(e), k) == if seq_find(s, k) is Some {
            seq_find(s, k)
        } else if e.0@ == k {
            Some(e.1)
        } else {
            None::<V>
        },
    decreases s,
{
    if s.len() == 0 {
        assert(s.push(e)[0] == e);
        assert(s.push(e).drop_first() =~= Seq::<(String, V)>::empty());
        assert(seq_find(s, k) is None);
        if e.0@ == k {
            assert(seq_find(s.push(e), k) == Some(e.1));
        } else {
            assert(seq_find(s.push(e), k) == seq_find(s.push(e).drop_first(), k));
            assert(seq_find(s.push(e).drop_first(), k) is None);
        }
    } else {
        assert(s.push(e)[0] == s[0]);
        assert(s.push(e).drop_first() =~= s.drop_first().push(e));
        lemma_find_push(s.drop_first(), e, k);
        if s[0].0@ == k {
            assert(seq_find(s.push(e), k) == Some(s[0].1));
            assert(seq_find(s, k) == Some(s[0].1));
        } else {
            assert(seq_find(s.push(e), k) == seq_find(s.drop_first().push(e), k));
            assert(seq_find(s, k) == seq_find(s.drop_first(), k));
        }
    }
}

/// Updating the entry at `i` leaves lookups of other keys unchanged, provided
/// the new entry keeps the old key.
proof fn lemma_find_update_other<V>(s: Seq<(String, V)>, i: int, e: (String, V), k: Seq<char>)
    requires
        0 <= i < s.len(),
        e.0@ == s[i].0@,
        k != e.0@,
    ensures
        seq_find(s.update(i, e), k) == seq_find(s, k),
    decreases s,
{
    let t = s.update(i, e);
    if i == 0 {
        assert(t[0] == e);
        assert(t.drop_first() =~= s.drop_first());
    } else {
        assert(t[0] == s[0]);
        if s[0].0@ != k {
            assert(t.drop_first() =~= s.drop_first().update(i - 1, e));
            lemma_find_update_other(s.drop_first(), i - 1, e, k);
        }
    }
}

} // verus!
