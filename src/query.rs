use vstd::prelude::*;

verus! {

/// A query parameter as text: its name and its value.
pub type ParamText = (Seq<char>, Seq<char>);

/// `key=value`.
pub open spec fn pair_text(p: ParamText) -> Seq<char> {
    p.0 + seq!['='] + p.1
}

/// The `key=value` texts of the parameters, in order, with one `&` between each
/// two neighbours.
pub open spec fn join_pairs(ps: Seq<ParamText>) -> Seq<char>
    decreases ps.len(),
{
    if ps.len() == 0 {
        Seq::empty()
    } else if ps.len() == 1 {
        pair_text(ps[0])
    } else {
        join_pairs(ps.drop_last()) + seq!['&'] + pair_text(ps.last())
    }
}

/// The URL with a query marker: unchanged when it holds a `?` anywhere, else
/// with one `?` appended.
pub open spec fn with_marker(url: Seq<char>) -> Seq<char> {
    if url.contains('?') {
        url
    } else {
        url.push('?')
    }
}

/// The URL with the parameters appended to its query.
pub open spec fn url_with_query(url: Seq<char>, ps: Seq<ParamText>) -> Seq<char> {
    with_marker(url) + join_pairs(ps)
}

/// No two parameters share a name.
pub open spec fn distinct_names(ps: Seq<ParamText>) -> bool {
    forall|i: int, j: int| 0 <= i < ps.len() && 0 <= j < ps.len() && i != j ==> ps[i].0 != ps[j].0
}

/// Whether a parameter is named `key`.
pub open spec fn has_name(ps: Seq<ParamText>, key: Seq<char>) -> bool {
    exists|i: int| 0 <= i < ps.len() && ps[i].0 == key
}

/// The parameters with `key` set to `value`: in place where the name is present,
/// appended where it is not.
pub open spec fn with_param(ps: Seq<ParamText>, key: Seq<char>, value: Seq<char>) -> Seq<ParamText> {
    if has_name(ps, key) {
        let i = choose|i: int| 0 <= i < ps.len() && ps[i].0 == key;
        ps.update(i, (key, value))
    } else {
        ps.push((key, value))
    }
}

/// A set of query parameters: names with their values, each name at most once.
/// Parameters are listed in the order in which their names were first inserted;
/// nothing that reads them depends on that order.
pub struct QueryParams {
    pairs: Vec<(String, String)>,
}

impl View for QueryParams {
    type V = Seq<ParamText>;

    closed spec fn view(&self) -> Seq<ParamText> {
        self.pairs@.map_values(|p: (String, String)| (p.0@, p.1@))
    }
}

impl QueryParams {
    pub open spec fn wf(&self) -> bool {
        distinct_names(self@)
    }

    /// No parameters.
    pub fn new() -> (r: Self)
        ensures
            r.wf(),
            r@ == Seq::<ParamText>::empty(),
    {
        let r = QueryParams { pairs: Vec::new() };
        assert(r@ =~= Seq::<ParamText>::empty());
        r
    }

    /// The number of parameters.
    pub fn len(&self) -> (r: usize)
        ensures
            r == self@.len(),
    {
        self.pairs.len()
    }

    /// Sets the value of `key`: the parameter keeps its place when the name is
    /// already present, and is added last when it is not.
    pub fn insert(&mut self, key: String, value: String)
        requires
            old(self).wf(),
        ensures
            final(self).wf(),
            final(self)@ == with_param(old(self)@, key@, value@),
    {
        let n = self.pairs.len();
        let mut i: usize = 0;
        while i < n
            invariant
                n == self.pairs.len(),
                self == old(self),
                distinct_names(self@),
                i <= n,
                forall|j: int| 0 <= j < i ==> self@[j].0 != key@,
            decreases n - i,
        {
            if self.pairs[i].0 == key {
                assert(self@[i as int].0 == key@);
                self.pairs[i] = (key, value);
                proof {
                    let k = choose|k: int| 0 <= k < old(self)@.len() && old(self)@[k].0 == key@;
                    assert(k == i);
                }
                assert(self@ =~= old(self)@.update(i as int, (key@, value@)));
                return;
            }
            i = i + 1;
        }
        self.pairs.push((key, value));
        assert(self@ =~= old(self)@.push((key@, value@)));
    }
}

fn holds_marker(url: &str) -> (r: bool)
    ensures
        r == url@.contains('?'),
{
    let n = url.unicode_len();
    let mut i: usize = 0;
    while i < n
        invariant
            n == url@.len(),
            i <= n,
            forall|k: int| 0 <= k < i ==> url@[k] != '?',
        decreases n - i,
    {
        if url.get_char(i) == '?' {
            return true;
        }
        i = i + 1;
    }
    false
}

proof fn lemma_join_extend(ps: Seq<ParamText>, j: int)
    requires
        0 <= j < ps.len(),
    ensures
        join_pairs(ps.subrange(0, j + 1)) == if j == 0 {
            pair_text(ps[0])
        } else {
            join_pairs(ps.subrange(0, j)) + seq!['&'] + pair_text(ps[j])
        },
{
    let s = ps.subrange(0, j + 1);
    assert(s.drop_last() =~= ps.subrange(0, j));
}

/// The URL with the parameters appended: a `?` is added first unless the URL
/// already holds one, then each parameter as `key=value`, joined by `&`. Names
/// and values are written as they are, without escaping.
pub fn add_qs_to_url(url: &str, qs: &QueryParams) -> (r: String)
    ensures
        r@ == url_with_query(url@, qs@),
{
    proof {
        reveal_strlit("?");
    }
    let mut r = String::from_str(url);
    if !holds_marker(url) {
        r.append("?");
    }
    let ghost base = r@;
    assert(base == with_marker(url@));
    let n = qs.pairs.len();
    let mut j: usize = 0;
    while j < n
        invariant
            n == qs@.len(),
            j <= n,
            r@ == base + join_pairs(qs@.subrange(0, j as int)),
        decreases n - j,
    {
        proof {
            reveal_strlit("&");
            reveal_strlit("=");
            lemma_join_extend(qs@, j as int);
        }
        let ghost prev = r@;
        let pair = &qs.pairs[j];
        assert(qs@[j as int] == (pair.0@, pair.1@));
        if j > 0 {
            r.append("&");
        }
        let ghost mid = r@;
        assert(mid =~= if j > 0 { prev + seq!['&'] } else { prev });
        r.append(pair.0.as_str());
        r.append("=");
        r.append(pair.1.as_str());
        assert(r@ =~= mid + pair.0@ + seq!['='] + pair.1@);
        if j > 0 {
            assert(r@ =~= prev + (seq!['&'] + pair_text(qs@[j as int])));
        } else {
            assert(r@ =~= prev + pair_text(qs@[j as int]));
        }
        assert(r@ =~= base + join_pairs(qs@.subrange(0, j + 1)));
        j = j + 1;
    }
    assert(qs@.subrange(0, n as int) =~= qs@);
    r
}

/// Where the parameter at place `i` of a listing starts in the joined text.
pub open spec fn pair_offset(ps: Seq<ParamText>, i: int) -> int {
    if i == 0 {
        0
    } else {
        join_pairs(ps.subrange(0, i)).len() + 1int
    }
}

proof fn lemma_join_prefix(ps: Seq<ParamText>, m: int)
    requires
        1 <= m <= ps.len(),
    ensures
        join_pairs(ps.subrange(0, m)).len() <= join_pairs(ps).len(),
        join_pairs(ps).subrange(0, join_pairs(ps.subrange(0, m)).len() as int) == join_pairs(
            ps.subrange(0, m),
        ),
        m < ps.len() ==> join_pairs(ps.subrange(0, m)).len() < join_pairs(ps).len(),
        m < ps.len() ==> join_pairs(ps)[join_pairs(ps.subrange(0, m)).len() as int] == '&',
    decreases ps.len(),
{
    if m == ps.len() {
        assert(ps.subrange(0, m) =~= ps);
        assert(join_pairs(ps).subrange(0, join_pairs(ps).len() as int) =~= join_pairs(ps));
    } else {
        let q = ps.drop_last();
        assert(q.subrange(0, m) =~= ps.subrange(0, m));
        let jq = join_pairs(q);
        let jp = join_pairs(ps);
        assert(jp == jq + seq!['&'] + pair_text(ps.last()));
        let l = join_pairs(ps.subrange(0, m)).len() as int;
        if m < q.len() {
            lemma_join_prefix(q, m);
        } else {
            assert(q.subrange(0, m) =~= q);
            assert(jq.subrange(0, l) =~= jq);
        }
        assert(jp.subrange(0, l) =~= jq.subrange(0, l));
        assert(jp[l] == if l < jq.len() { jq[l] } else { '&' });
    }
}

/// Whatever order the parameters are listed in, each one stands in the URL as
/// its own `key=value` text, starting right after the query marker's place or
/// after one `&`, and followed either by the end of the URL or by one `&` and
/// the next parameter of the listing.
pub proof fn lemma_every_pair_joined_once(url: Seq<char>, ps: Seq<ParamText>, i: int)
    requires
        0 <= i < ps.len(),
    ensures
        ({
            let r = url_with_query(url, ps);
            let b = with_marker(url).len() as int;
            let o = b + pair_offset(ps, i);
            let e = o + pair_text(ps[i]).len();
            &&& e <= r.len()
            &&& r.subrange(o, e) == pair_text(ps[i])
            &&& i == 0 ==> o == b
            &&& i > 0 ==> r[o - 1] == '&'
            &&& i + 1 == ps.len() ==> e == r.len()
            &&& i + 1 < ps.len() ==> r[e] == '&' && b + pair_offset(ps, i + 1) == e + 1
        }),
{
    let r = url_with_query(url, ps);
    let w = with_marker(url);
    let b = w.len() as int;
    let jp = join_pairs(ps);
    let pre = join_pairs(ps.subrange(0, i + 1));
    lemma_join_extend(ps, i);
    lemma_join_prefix(ps, i + 1);
    let o = b + pair_offset(ps, i);
    let e = o + pair_text(ps[i]).len();
    assert(e == b + pre.len());
    assert(r.subrange(o, e) =~= pre.subrange(pair_offset(ps, i), pre.len() as int));
    assert(pre.subrange(pair_offset(ps, i), pre.len() as int) =~= pair_text(ps[i]));
    if i > 0 {
        assert(r[o - 1] == pre[pair_offset(ps, i) - 1]);
    }
    if i + 1 == ps.len() {
        assert(ps.subrange(0, i + 1) =~= ps);
    }
    if i + 1 < ps.len() {
        assert(r[e] == jp[pre.len() as int]);
    }
}

} // verus!
