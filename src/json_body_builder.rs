//! A JSON object body whose members come out in key order, whatever the
//! order in which they were added.
use vstd::prelude::*;
use vstd::utf8::encode_utf8;
use crate::json_text::{
    json_members, json_object, json_value_text, json_value_to_text, push_json_string,
    JsonValue,
};
use crate::key_order::{
    key_less, key_lt, lemma_key_lt_asymmetric, lemma_key_lt_irreflexive, lemma_key_lt_total,
    lemma_key_lt_transitive,
};
use crate::text::{push_all, push_char};

verus! {

/// Names strictly increasing: sorted, and no name twice.
pub open spec fn sorted_by_key(s: Seq<(Seq<char>, Seq<char>)>) -> bool {
    forall|i: int, j: int| 0 <= i < j < s.len() ==> key_lt(#[trigger] s[i].0, #[trigger] s[j].0)
}

/// The fields after setting `name` to `text`: any earlier field of that name
/// goes, the others stay.
pub open spec fn with_entry(
    fields: Set<(Seq<char>, Seq<char>)>,
    name: Seq<char>,
    text: Seq<char>,
) -> Set<(Seq<char>, Seq<char>)> {
    fields.filter(|e: (Seq<char>, Seq<char>)| e.0 != name).insert((name, text))
}

/// Builds the body of a JSON request, one field at a time.
pub struct JsonBodyBuilder {
    fields: Vec<(String, String)>,
}

impl JsonBodyBuilder {
    /// The fields in the order they are written: name and value text.
    pub closed spec fn entries(&self) -> Seq<(Seq<char>, Seq<char>)> {
        self.fields@.map_values(|e: (String, String)| (e.0@, e.1@))
    }

    /// The fields as a set of (name, value text) pairs.
    pub open spec fn fields(&self) -> Set<(Seq<char>, Seq<char>)> {
        self.entries().to_set()
    }

    pub open spec fn well_formed(&self) -> bool {
        sorted_by_key(self.entries())
    }

    pub fn new() -> (r: Self)
        ensures
            r.well_formed(),
            r.entries() == Seq::<(Seq<char>, Seq<char>)>::empty(),
    {
        let r = JsonBodyBuilder { fields: Vec::new() };
        assert(r.entries() =~= Seq::<(Seq<char>, Seq<char>)>::empty());
        r
    }

    /// Sets field `name` to `value`; of two writes to one name the last wins.
    pub fn with_field(self, name: &str, value: JsonValue) -> (r: Self)
        requires
            self.well_formed(),
        ensures
            r.well_formed(),
            r.fields() == with_entry(self.fields(), name@, json_value_text(value)),
    {
        let text = json_value_to_text(&value);
        let ghost old_entries = self.entries();
        let ghost entry = (name@, text@);
        let mut s = self;
        let n = s.fields.len();
        let mut p: usize = 0;
        while p < n && key_less(s.fields[p].0.as_str(), name)
            invariant
                n == s.fields@.len(),
                p <= n,
                s.entries() == old_entries,
                forall|k: int| 0 <= k < p ==> key_lt(#[trigger] old_entries[k].0, name@),
            decreases n - p,
        {
            p = p + 1;
        }
        proof {
            assert(old_entries.len() == n);
        }
        if p < n && !key_less(name, s.fields[p].0.as_str()) {
            proof {
                if old_entries[p as int].0 != name@ {
                    lemma_key_lt_total(old_entries[p as int].0, name@);
                }
            }
            s.fields.set(p, (String::from_str(name), text));
            proof {
                let ne = s.entries();
                assert(ne =~= old_entries.update(p as int, entry));
                self.lemma_replace_fields(p as int, entry);
            }
        } else {
            proof {
                if p < n {
                    lemma_key_lt_total(old_entries[p as int].0, name@);
                    if old_entries[p as int].0 == name@ {
                        lemma_key_lt_irreflexive(name@);
                    }
                    assert forall|j: int| p <= j < n implies key_lt(name@, #[trigger] old_entries[j].0) by {
                        if j > p {
                            lemma_key_lt_transitive(name@, old_entries[p as int].0, old_entries[j].0);
                        }
                    }
                }
            }
            s.fields.insert(p, (String::from_str(name), text));
            proof {
                let ne = s.entries();
                assert(ne =~= old_entries.insert(p as int, entry));
                self.lemma_insert_fields(p as int, entry);
            }
        }
        s
    }

    proof fn lemma_replace_fields(&self, p: int, entry: (Seq<char>, Seq<char>))
        requires
            self.well_formed(),
            0 <= p < self.entries().len(),
            self.entries()[p].0 == entry.0,
        ensures
            sorted_by_key(self.entries().update(p, entry)),
            self.entries().update(p, entry).to_set() == with_entry(self.fields(), entry.0, entry.1),
    {
        let s = self.entries();
        let t = s.update(p, entry);
        assert forall|i: int, j: int| 0 <= i < j < t.len() implies key_lt(
            #[trigger] t[i].0,
            #[trigger] t[j].0,
        ) by {
            assert(s[i].0 == t[i].0 && s[j].0 == t[j].0);
        }
        let w = with_entry(self.fields(), entry.0, entry.1);
        assert forall|e: (Seq<char>, Seq<char>)| t.to_set().contains(e) == w.contains(e) by {
            if t.to_set().contains(e) {
                let i = choose|i: int| 0 <= i < t.len() && t[i] == e;
                if i != p {
                    assert(s[i] == e);
                    if i < p {
                        assert(key_lt(s[i].0, s[p].0));
                    } else {
                        assert(key_lt(s[p].0, s[i].0));
                    }
                    lemma_key_lt_irreflexive(entry.0);
                    assert(s.contains(e));
                }
            }
            if w.contains(e) {
                if e == entry {
                    assert(t[p] == e);
                } else {
                    let i = choose|i: int| 0 <= i < s.len() && s[i] == e;
                    assert(i != p);
                    assert(t[i] == e);
                }
            }
        }
        assert(t.to_set() =~= w);
    }

    proof fn lemma_insert_fields(&self, p: int, entry: (Seq<char>, Seq<char>))
        requires
            self.well_formed(),
            0 <= p <= self.entries().len(),
            forall|k: int| 0 <= k < p ==> key_lt(#[trigger] self.entries()[k].0, entry.0),
            forall|k: int| p <= k < self.entries().len() ==> key_lt(entry.0, #[trigger] self.entries()[k].0),
        ensures
            sorted_by_key(self.entries().insert(p, entry)),
            self.entries().insert(p, entry).to_set() == with_entry(self.fields(), entry.0, entry.1),
    {
        let s = self.entries();
        let t = s.insert(p, entry);
        assert forall|i: int, j: int| 0 <= i < j < t.len() implies key_lt(
            #[trigger] t[i].0,
            #[trigger] t[j].0,
        ) by {
            if i < p && j > p {
                assert(t[i] == s[i] && t[j] == s[j - 1]);
            } else if i < p && j < p {
                assert(t[i] == s[i] && t[j] == s[j]);
            } else if i > p {
                assert(t[i] == s[i - 1] && t[j] == s[j - 1]);
            }
        }
        let w = with_entry(self.fields(), entry.0, entry.1);
        assert forall|e: (Seq<char>, Seq<char>)| t.to_set().contains(e) == w.contains(e) by {
            if t.to_set().contains(e) {
                let i = choose|i: int| 0 <= i < t.len() && t[i] == e;
                if i < p {
                    assert(s[i] == e);
                    lemma_key_lt_irreflexive(entry.0);
                    assert(s.contains(e));
                } else if i > p {
                    assert(s[i - 1] == e);
                    lemma_key_lt_irreflexive(entry.0);
                    assert(s.contains(e));
                }
            }
            if w.contains(e) {
                if e == entry {
                    assert(t[p] == e);
                } else {
                    let i = choose|i: int| 0 <= i < s.len() && s[i] == e;
                    if i < p {
                        assert(t[i] == e);
                    } else {
                        assert(t[i + 1] == e);
                    }
                }
            }
        }
        assert(t.to_set() =~= w);
    }

    /// The body: a JSON object of the fields, members in key order.
    pub fn build(&self) -> (r: Vec<u8>)
        ensures
            r@ == encode_utf8(json_object(self.entries())),
    {
        let mut out = String::new();
        push_char(&mut out, '{');
        let n = self.fields.len();
        let mut i: usize = 0;
        while i < n
            invariant
                n == self.entries().len(),
                i <= n,
                out@ == seq!['{'] + json_members(self.entries().subrange(0, i as int)),
            decreases n - i,
        {
            let ghost pre = self.entries().subrange(0, i as int);
            let ghost next = self.entries().subrange(0, i + 1);
            assert(next.drop_last() =~= pre);
            if i > 0 {
                push_char(&mut out, ',');
            }
            push_json_string(&mut out, self.fields[i].0.as_str());
            push_char(&mut out, ':');
            push_all(&mut out, self.fields[i].1.as_str());
            proof {
                assert(next.last() == self.entries()[i as int]);
                assert(out@ =~= seq!['{'] + json_members(next));
            }
            i = i + 1;
        }
        assert(self.entries().subrange(0, n as int) =~= self.entries());
        push_char(&mut out, '}');
        assert(out@ =~= json_object(self.entries()));
        out.as_str().as_bytes_vec()
    }
}

/// Two key-sorted field lists that hold the same fields are the same list.
pub proof fn lemma_sorted_entries_unique(
    s1: Seq<(Seq<char>, Seq<char>)>,
    s2: Seq<(Seq<char>, Seq<char>)>,
)
    requires
        sorted_by_key(s1),
        sorted_by_key(s2),
        s1.to_set() == s2.to_set(),
    ensures
        s1 == s2,
    decreases s1.len(),
{
    if s1.len() == 0 || s2.len() == 0 {
        if s1.len() > 0 {
            assert(s1.to_set().contains(s1[0]));
        }
        if s2.len() > 0 {
            assert(s2.to_set().contains(s2[0]));
        }
        assert(s1 =~= s2);
    } else {
        assert(s1.to_set().contains(s1[0]));
        assert(s2.to_set().contains(s2[0]));
        let j = choose|j: int| 0 <= j < s2.len() && s2[j] == s1[0];
        let i = choose|i: int| 0 <= i < s1.len() && s1[i] == s2[0];
        if i > 0 && j > 0 {
            assert(key_lt(s2[0].0, s2[j].0));
            assert(key_lt(s1[0].0, s1[i].0));
            lemma_key_lt_asymmetric(s1[0].0, s2[0].0);
        }
        assert(s1[0] == s2[0]);
        let t1 = s1.drop_first();
        let t2 = s2.drop_first();
        assert forall|e: (Seq<char>, Seq<char>)| #[trigger] t1.to_set().contains(e) == t2.to_set().contains(e) by {
            if t1.to_set().contains(e) {
                let k = choose|k: int| 0 <= k < t1.len() && t1[k] == e;
                assert(s1[k + 1] == e);
                assert(key_lt(s1[0].0, s1[k + 1].0));
                lemma_key_lt_irreflexive(e.0);
                assert(s1.to_set().contains(e));
                let m = choose|m: int| 0 <= m < s2.len() && s2[m] == e;
                assert(m != 0);
                assert(t2[m - 1] == e);
            }
            if t2.to_set().contains(e) {
                let k = choose|k: int| 0 <= k < t2.len() && t2[k] == e;
                assert(s2[k + 1] == e);
                assert(key_lt(s2[0].0, s2[k + 1].0));
                lemma_key_lt_irreflexive(e.0);
                assert(s2.to_set().contains(e));
                let m = choose|m: int| 0 <= m < s1.len() && s1[m] == e;
                assert(m != 0);
                assert(t1[m - 1] == e);
            }
        }
        assert(t1.to_set() =~= t2.to_set());
        assert forall|a: int, b: int| 0 <= a < b < t1.len() implies key_lt(
            #[trigger] t1[a].0,
            #[trigger] t1[b].0,
        ) by {
            assert(t1[a] == s1[a + 1] && t1[b] == s1[b + 1]);
        }
        assert forall|a: int, b: int| 0 <= a < b < t2.len() implies key_lt(
            #[trigger] t2[a].0,
            #[trigger] t2[b].0,
        ) by {
            assert(t2[a] == s2[a + 1] && t2[b] == s2[b + 1]);
        }
        lemma_sorted_entries_unique(t1, t2);
        assert(s1 =~= seq![s1[0]] + t1);
        assert(s2 =~= seq![s2[0]] + t2);
    }
}

/// The body depends on the fields alone: two builders that hold the same
/// fields write the same bytes, whatever order the fields were added in.
pub proof fn lemma_body_is_canonical(b1: JsonBodyBuilder, b2: JsonBodyBuilder)
    requires
        b1.well_formed(),
        b2.well_formed(),
        b1.fields() == b2.fields(),
    ensures
        b1.entries() == b2.entries(),
        encode_utf8(json_object(b1.entries())) == encode_utf8(json_object(b2.entries())),
{
    lemma_sorted_entries_unique(b1.entries(), b2.entries());
}

/// Setting two different names gives the same fields in either order.
pub proof fn lemma_with_entry_commutes(
    fields: Set<(Seq<char>, Seq<char>)>,
    a: Seq<char>,
    x: Seq<char>,
    b: Seq<char>,
    y: Seq<char>,
)
    requires
        a != b,
    ensures
        with_entry(with_entry(fields, a, x), b, y) == with_entry(with_entry(fields, b, y), a, x),
{
    assert(with_entry(with_entry(fields, a, x), b, y) =~= with_entry(with_entry(fields, b, y), a, x));
}

/// Adding two fields of different names in either order gives byte-identical
/// bodies: `b1` got `a` then `b`, `b2` got `b` then `a`, from the same fields.
pub proof fn lemma_field_order_irrelevant(
    b1: JsonBodyBuilder,
    b2: JsonBodyBuilder,
    fields: Set<(Seq<char>, Seq<char>)>,
    a: Seq<char>,
    x: Seq<char>,
    b: Seq<char>,
    y: Seq<char>,
)
    requires
        a != b,
        b1.well_formed(),
        b2.well_formed(),
        b1.fields() == with_entry(with_entry(fields, a, x), b, y),
        b2.fields() == with_entry(with_entry(fields, b, y), a, x),
    ensures
        encode_utf8(json_object(b1.entries())) == encode_utf8(json_object(b2.entries())),
{
    lemma_with_entry_commutes(fields, a, x, b, y);
    lemma_body_is_canonical(b1, b2);
}

} // verus!
