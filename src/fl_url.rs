//! Fluent construction of a request address: base path, path segments and
//! an ordered, percent-encoded query.
use vstd::prelude::*;
use vstd::utf8::encode_utf8;
use crate::app_settings::GlobalAppSettings;
use crate::percent::{encode_component, percent_encoded};
use crate::text::{push_all, push_char};

verus! {

/// Whether `prefix` is where `s` begins.
pub open spec fn has_prefix(s: Seq<char>, prefix: Seq<char>) -> bool {
    prefix.len() <= s.len() && s.subrange(0, prefix.len() as int) == prefix
}

/// Whether `s` is an absolute address: it begins with `http://` or `https://`.
pub open spec fn is_absolute(s: Seq<char>) -> bool {
    has_prefix(s, seq!['h', 't', 't', 'p', ':', '/', '/']) || has_prefix(
        s,
        seq!['h', 't', 't', 'p', 's', ':', '/', '/'],
    )
}

pub open spec fn ends_with_slash(s: Seq<char>) -> bool {
    s.len() > 0 && s.last() == '/'
}

pub open spec fn starts_with_slash(s: Seq<char>) -> bool {
    s.len() > 0 && s[0] == '/'
}

/// `base` and `segment` joined by exactly one `/`: one is added when `base`
/// has no trailing one, and one leading `/` of `segment` is dropped.
pub open spec fn join_path(base: Seq<char>, segment: Seq<char>) -> Seq<char> {
    let head = if ends_with_slash(base) {
        base
    } else {
        base.push('/')
    };
    let tail = if starts_with_slash(segment) {
        segment.drop_first()
    } else {
        segment
    };
    head + tail
}

/// An absolute target is kept as it is; any other is joined to the origin.
pub open spec fn resolve(origin: Seq<char>, target: Seq<char>) -> Seq<char> {
    if is_absolute(target) {
        target
    } else {
        join_path(origin, target)
    }
}

/// What one query parameter adds to the query: `?` before the first and `&`
/// before each later one, the encoded name, and `=` with the encoded value
/// when there is a value.
pub open spec fn query_piece(query: Seq<char>, name: Seq<char>, value: Option<Seq<char>>) -> Seq<
    char,
> {
    let sep = if query.len() == 0 {
        '?'
    } else {
        '&'
    };
    let head = seq![sep] + percent_encoded(encode_utf8(name));
    match value {
        Some(v) => head + seq!['='] + percent_encoded(encode_utf8(v)),
        None => head,
    }
}

/// A request address under construction.
pub struct FlUrl {
    path: String,
    query: String,
}

impl FlUrl {
    /// The base path with its segments.
    pub closed spec fn path(&self) -> Seq<char> {
        self.path@
    }

    /// The query: empty, or `?` followed by the parameters.
    pub closed spec fn query(&self) -> Seq<char> {
        self.query@
    }

    /// The full address that a request goes to.
    pub open spec fn path_and_query(&self) -> Seq<char> {
        self.path() + self.query()
    }

    /// A builder for `path`, taken as it is when it starts with `http://` or
    /// `https://`, and otherwise resolved against the origin of `settings`.
    pub fn new(settings: &GlobalAppSettings, path: &str) -> (r: Self)
        ensures
            r.path() == resolve(settings.origin(), path@),
            r.query() == Seq::<char>::empty(),
    {
        proof {
            reveal_strlit("http://");
            reveal_strlit("https://");
            assert("http://"@ =~= seq!['h', 't', 't', 'p', ':', '/', '/']);
            assert("https://"@ =~= seq!['h', 't', 't', 'p', 's', ':', '/', '/']);
        }
        let full = if starts_with(path, "http://") || starts_with(path, "https://") {
            String::from_str(path)
        } else {
            let mut full_path = String::from_str(settings.get_origin());
            append_segment(&mut full_path, path);
            full_path
        };
        FlUrl { path: full, query: String::new() }
    }

    /// Adds a path segment, with exactly one `/` between it and the path.
    pub fn append_path_segment(self, path_segment: &str) -> (r: Self)
        ensures
            r.path() == join_path(self.path(), path_segment@),
            r.query() == self.query(),
    {
        let mut s = self;
        append_segment(&mut s.path, path_segment);
        s
    }

    /// Adds a query parameter after those already there; the name and the
    /// value are each percent-encoded once.
    pub fn append_query_param(self, param_name: &str, value: Option<&str>) -> (r: Self)
        ensures
            r.path() == self.path(),
            r.query() == self.query() + query_piece(
                self.query(),
                param_name@,
                match value {
                    Some(v) => Some(v@),
                    None => None,
                },
            ),
    {
        let mut s = self;
        if s.query.as_str().is_empty() {
            push_char(&mut s.query, '?');
        } else {
            push_char(&mut s.query, '&');
        }
        let encoded_name = encode_component(param_name);
        push_all(&mut s.query, encoded_name.as_str());
        match value {
            Some(v) => {
                push_char(&mut s.query, '=');
                let encoded_value = encode_component(v);
                push_all(&mut s.query, encoded_value.as_str());
            },
            None => {},
        }
        proof {
            match value {
                Some(v) => {
                    assert(s.query@ =~= self.query() + query_piece(self.query(), param_name@, Some(v@)));
                },
                None => {
                    assert(s.query@ =~= self.query() + query_piece(self.query(), param_name@, None));
                },
            }
        }
        s
    }

    /// Adds the parameter only when there is a value; otherwise the builder
    /// is returned unchanged.
    pub fn append_query_param_if_some(self, param_name: &str, value: Option<&str>) -> (r: Self)
        ensures
            value is None ==> r == self,
            value is Some ==> r.path() == self.path() && r.query() == self.query() + query_piece(
                self.query(),
                param_name@,
                Some(value->Some_0@),
            ),
    {
        match value {
            Some(v) => self.append_query_param(param_name, Some(v)),
            None => self,
        }
    }

    /// The full address: the path followed by the query.
    pub fn get_path_and_query(&self) -> (r: String)
        ensures
            r@ == self.path_and_query(),
    {
        let mut r = self.path.clone();
        push_all(&mut r, self.query.as_str());
        r
    }
}

/// Whether `s` begins with `prefix`.
fn starts_with(s: &str, prefix: &str) -> (r: bool)
    ensures
        r == has_prefix(s@, prefix@),
{
    let n = s.unicode_len();
    let m = prefix.unicode_len();
    if m > n {
        return false;
    }
    let mut i: usize = 0;
    while i < m
        invariant
            n == s@.len(),
            m == prefix@.len(),
            m <= n,
            i <= m,
            forall|k: int| 0 <= k < i ==> s@[k] == prefix@[k],
        decreases m - i,
    {
        if s.get_char(i) != prefix.get_char(i) {
            assert(s@.subrange(0, m as int)[i as int] != prefix@[i as int]);
            return false;
        }
        i = i + 1;
    }
    assert(s@.subrange(0, m as int) =~= prefix@);
    true
}

/// Joins `segment` to `base` in place, as `join_path` says.
fn append_segment(base: &mut String, segment: &str)
    ensures
        final(base)@ == join_path(old(base)@, segment@),
{
    let n = base.as_str().unicode_len();
    if n == 0 || base.as_str().get_char(n - 1) != '/' {
        push_char(base, '/');
    }
    let m = segment.unicode_len();
    if m > 0 && segment.get_char(0) == '/' {
        let rest = segment.substring_char(1, m);
        assert(rest@ =~= segment@.drop_first());
        push_all(base, rest);
    } else {
        push_all(base, segment);
    }
}

/// Path joining does not depend on whether the separator is already there:
/// a trailing `/` on the base and a leading `/` on the segment make no
/// difference to the result.
pub proof fn lemma_join_separator_idempotent(base: Seq<char>, segment: Seq<char>)
    requires
        !ends_with_slash(base),
        !starts_with_slash(segment),
    ensures
        join_path(base.push('/'), segment) == join_path(base, segment),
        join_path(base, seq!['/'] + segment) == join_path(base, segment),
        join_path(base.push('/'), seq!['/'] + segment) == join_path(base, segment),
{
    assert((seq!['/'] + segment).drop_first() =~= segment);
}

} // verus!
