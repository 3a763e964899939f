//! Reading `name=value` pairs out of an HTTP `Cookie` header.
//!
//! A header is split at each `;`; every piece has its leading white space
//! removed, and the first piece that begins with the wanted `name=` gives the
//! rest of that piece as the value.
use vstd::prelude::*;
use vstd::string::*;

verus! {

/// The characters that carry the Unicode `White_Space` property, which is the
/// set that `char::is_whitespace` (and so `str::trim_start`) removes.
pub open spec fn is_white_space(c: char) -> bool {
    let u: u32 = c as u32;
    ||| 0x9 <= u <= 0xd
    ||| u == 0x20
    ||| u == 0x85
    ||| u == 0xa0
    ||| u == 0x1680
    ||| 0x2000 <= u <= 0x200a
    ||| u == 0x2028
    ||| u == 0x2029
    ||| u == 0x202f
    ||| u == 0x205f
    ||| u == 0x3000
}

/// `s` without its leading white space.
pub open spec fn trim_start(s: Seq<char>) -> Seq<char>
    decreases s.len(),
{
    if s.len() > 0 && is_white_space(s[0]) {
        trim_start(s.drop_first())
    } else {
        s
    }
}

/// The position of the first `;` in `s`, or the length of `s` when there is none.
pub open spec fn first_semicolon(s: Seq<char>) -> nat
    decreases s.len(),
{
    if s.len() == 0 {
        0
    } else if s[0] == ';' {
        0
    } else {
        1 + first_semicolon(s.drop_first())
    }
}

/// The first piece of `s` (up to its first `;`), with leading white space removed.
pub open spec fn first_pair(s: Seq<char>) -> Seq<char> {
    trim_start(s.take(first_semicolon(s) as int))
}

/// What follows the first `;` of `s` (empty when there is none).
pub open spec fn after_first_pair(s: Seq<char>) -> Seq<char> {
    if first_semicolon(s) < s.len() {
        s.skip(first_semicolon(s) + 1int)
    } else {
        Seq::empty()
    }
}

/// The value of the first piece of the header `s` that begins with `name`
/// (a name followed by `=`), or `None` when no piece does.
pub open spec fn find_cookie(s: Seq<char>, name: Seq<char>) -> Option<Seq<char>>
    decreases s.len(),
{
    if s.len() == 0 {
        None
    } else if name.is_prefix_of(first_pair(s)) {
        Some(first_pair(s).skip(name.len() as int))
    } else {
        if first_semicolon(s) < s.len() {
            find_cookie(s.skip(first_semicolon(s) + 1int), name)
        } else {
            None
        }
    }
}

/// The view of an optional string slice.
pub open spec fn opt_str_view(o: Option<&str>) -> Option<Seq<char>> {
    match o {
        Some(v) => Some(v@),
        None => None,
    }
}

proof fn lemma_first_semicolon(s: Seq<char>)
    ensures
        first_semicolon(s) <= s.len(),
        forall|j: int| 0 <= j < first_semicolon(s) ==> s[j] != ';',
        first_semicolon(s) < s.len() ==> s[first_semicolon(s) as int] == ';',
    decreases s.len(),
{
    if s.len() > 0 && s[0] != ';' {
        lemma_first_semicolon(s.drop_first());
        assert forall|j: int| 0 <= j < first_semicolon(s) implies s[j] != ';' by {
            if j > 0 {
                assert(s[j] == s.drop_first()[j - 1]);
            }
        }
    }
}

proof fn lemma_first_semicolon_unique(s: Seq<char>, k: int)
    requires
        0 <= k <= s.len(),
        forall|j: int| 0 <= j < k ==> s[j] != ';',
        k < s.len() ==> s[k] == ';',
    ensures
        first_semicolon(s) == k,
    decreases s.len(),
{
    if s.len() > 0 && s[0] != ';' {
        assert forall|j: int| 0 <= j < k - 1 implies s.drop_first()[j] != ';' by {
            assert(s.drop_first()[j] == s[j + 1]);
        }
        if k < s.len() {
            assert(s.drop_first()[k - 1] == s[k]);
        }
        lemma_first_semicolon_unique(s.drop_first(), k - 1);
    }
}

/// The characters of `s`, in order.
pub fn chars_of(s: &str) -> (v: Vec<char>)
    ensures
        v@ == s@,
{
    let mut it = s.chars();
    let mut v: Vec<char> = Vec::new();
    loop
        invariant
            v@ + vstd::std_specs::iter::IteratorSpec::remaining(&it) == s@,
            vstd::std_specs::iter::IteratorSpec::obeys_prophetic_iter_laws(&it),
            vstd::std_specs::iter::IteratorSpec::decrease(&it) is Some,
        ensures
            v@ == s@,
        decreases vstd::std_specs::iter::IteratorSpec::decrease(&it)->0,
    {
        match it.next() {
            Some(c) => {
                v.push(c);
                assert(v@ + vstd::std_specs::iter::IteratorSpec::remaining(&it) =~= s@);
            },
            None => {
                assert(v@ =~= s@);
                break;
            },
        }
    }
    v
}

/// The position of the first `;` at or after `from`, or the length of `chars`.
fn next_semicolon(chars: &Vec<char>, from: usize) -> (end: usize)
    requires
        from <= chars@.len(),
    ensures
        from <= end <= chars@.len(),
        end - from == first_semicolon(chars@.skip(from as int)),
{
    let n: usize = chars.len();
    let mut end: usize = from;
    while end < n && chars[end] != ';'
        invariant
            n == chars@.len(),
            from <= end <= n,
            forall|j: int| from <= j < end ==> chars@[j] != ';',
        decreases n - end,
    {
        end = end + 1;
    }
    proof {
        let t = chars@.skip(from as int);
        assert forall|j: int| 0 <= j < end - from implies t[j] != ';' by {
            assert(t[j] == chars@[from + j]);
        }
        if end < n {
            assert(t[end - from] == chars@[end as int]);
        }
        lemma_first_semicolon_unique(t, end - from);
    }
    end
}

proof fn lemma_trim_start_step(s: Seq<char>, k: int, end: int)
    requires
        0 <= k < end <= s.len(),
        is_white_space(s[k]),
    ensures
        trim_start(s.subrange(k, end)) == trim_start(s.subrange(k + 1, end)),
{
    assert(s.subrange(k, end).drop_first() =~= s.subrange(k + 1, end));
}

/// The first position in `from..end` that does not hold white space, or `end`.
fn skip_white_space(chars: &Vec<char>, from: usize, end: usize) -> (k: usize)
    requires
        from <= end <= chars@.len(),
    ensures
        from <= k <= end,
        chars@.subrange(k as int, end as int) == trim_start(
            chars@.subrange(from as int, end as int),
        ),
{
    let mut k: usize = from;
    while k < end && is_white_space_char(chars[k])
        invariant
            from <= k <= end <= chars@.len(),
            trim_start(chars@.subrange(k as int, end as int)) == trim_start(
                chars@.subrange(from as int, end as int),
            ),
        decreases end - k,
    {
        proof {
            lemma_trim_start_step(chars@, k as int, end as int);
        }
        k = k + 1;
    }
    proof {
        let t = chars@.subrange(k as int, end as int);
        if t.len() > 0 {
            assert(t[0] == chars@[k as int]);
        }
    }
    k
}

/// Whether `c` is white space in the sense of `is_white_space`.
pub fn is_white_space_char(c: char) -> (b: bool)
    ensures
        b == is_white_space(c),
{
    let u: u32 = c as u32;
    (0x9 <= u && u <= 0xd) || u == 0x20 || u == 0x85 || u == 0xa0 || u == 0x1680 || (0x2000 <= u
        && u <= 0x200a) || u == 0x2028 || u == 0x2029 || u == 0x202f || u == 0x205f || u == 0x3000
}

/// Whether `name` is a prefix of `chars[k..end]`.
fn has_prefix_at(chars: &Vec<char>, k: usize, end: usize, name: &Vec<char>) -> (b: bool)
    requires
        k <= end <= chars@.len(),
    ensures
        b == name@.is_prefix_of(chars@.subrange(k as int, end as int)),
{
    let m: usize = name.len();
    if m > end - k {
        return false;
    }
    let mut j: usize = 0;
    while j < m
        invariant
            m == name@.len(),
            k + m <= end <= chars@.len(),
            j <= m,
            forall|i: int| 0 <= i < j ==> name@[i] == chars@[k + i],
        decreases m - j,
    {
        if name[j] != chars[k + j] {
            proof {
                let t = chars@.subrange(k as int, end as int);
                assert(t[j as int] == chars@[k + j]);
            }
            return false;
        }
        j = j + 1;
    }
    proof {
        let t = chars@.subrange(k as int, end as int);
        assert(name@ =~= t.subrange(0, m as int));
    }
    true
}

proof fn lemma_pair_shape(s: Seq<char>, pos: int, end: int, k: int)
    requires
        0 <= pos < s.len(),
        pos <= k <= end <= s.len(),
        end - pos == first_semicolon(s.skip(pos)),
        s.subrange(k, end) == trim_start(s.subrange(pos, end)),
    ensures
        first_pair(s.skip(pos)) == s.subrange(k, end),
        end < s.len() ==> s.skip(pos).skip(first_semicolon(s.skip(pos)) + 1int) =~= s.skip(end + 1),
{
    assert(s.skip(pos).take(end - pos) =~= s.subrange(pos, end));
}

/// The value of the first piece of `header` that begins with `name`.
pub fn find_cookie_value<'a>(header: &'a str, name: &str) -> (r: Option<&'a str>)
    ensures
        opt_str_view(r) == find_cookie(header@, name@),
{
    let chars = chars_of(header);
    let name_chars = chars_of(name);
    let n: usize = chars.len();
    let mut pos: usize = 0;
    assert(chars@.skip(0) =~= chars@);
    while pos < n
        invariant
            n == chars@.len(),
            chars@ == header@,
            name_chars@ == name@,
            pos <= n,
            find_cookie(header@, name@) == find_cookie(chars@.skip(pos as int), name@),
        decreases n - pos,
    {
        let end: usize = next_semicolon(&chars, pos);
        let k: usize = skip_white_space(&chars, pos, end);
        proof {
            lemma_pair_shape(chars@, pos as int, end as int, k as int);
        }
        if has_prefix_at(&chars, k, end, &name_chars) {
            let from: usize = k + name_chars.len();
            let v = header.substring_char(from, end);
            assert(v@ =~= chars@.subrange(k as int, end as int).skip(name@.len() as int));
            return Some(v);
        }
        if end < n {
            pos = end + 1;
        } else {
            proof {
                assert(chars@.skip(n as int) =~= Seq::<char>::empty());
            }
            pos = n;
        }
    }
    assert(chars@.skip(pos as int).len() == 0);
    None
}


/// The `session_id` and `refresh_token` values that a scan of `s` yields,
/// given the values `sid` and `rt` found so far: each piece that begins with
/// `sid_name` replaces the session id, each other piece that begins with
/// `rt_name` replaces the refresh token, and the scan stops as soon as both
/// are known or the header is used up.
pub open spec fn auth_cookies_from(
    s: Seq<char>,
    sid: Option<Seq<char>>,
    rt: Option<Seq<char>>,
    sid_name: Seq<char>,
    rt_name: Seq<char>,
) -> (Option<Seq<char>>, Option<Seq<char>>)
    decreases s.len(),
{
    if s.len() == 0 || (sid is Some && rt is Some) {
        (sid, rt)
    } else {
        let p = first_pair(s);
        let sid2 = if sid_name.is_prefix_of(p) {
            Some(p.skip(sid_name.len() as int))
        } else {
            sid
        };
        let rt2 = if !sid_name.is_prefix_of(p) && rt_name.is_prefix_of(p) {
            Some(p.skip(rt_name.len() as int))
        } else {
            rt
        };
        if first_semicolon(s) < s.len() {
            auth_cookies_from(s.skip(first_semicolon(s) + 1int), sid2, rt2, sid_name, rt_name)
        } else {
            (sid2, rt2)
        }
    }
}

/// In a text without `;` the first `;` is placed at its end.
pub proof fn lemma_no_semicolon(s: Seq<char>)
    requires
        forall|j: int| 0 <= j < s.len() ==> s[j] != ';',
    ensures
        first_semicolon(s) == s.len(),
{
    lemma_first_semicolon_unique(s, s.len() as int);
}

/// A header that begins with the piece `name` + `value`, where neither holds a
/// `;` and `name` does not begin with white space, yields that piece as its
/// first pair; `tail` is what follows (nothing, or text starting with `;`).
pub proof fn lemma_leading_pair(name: Seq<char>, value: Seq<char>, tail: Seq<char>)
    requires
        name.len() > 0,
        !is_white_space(name[0]),
        !name.contains(';'),
        !value.contains(';'),
        tail.len() == 0 || tail[0] == ';',
    ensures
        first_pair(name + value + tail) == name + value,
        after_first_pair(name + value + tail) == if tail.len() == 0 {
            Seq::<char>::empty()
        } else {
            tail.drop_first()
        },
        name.is_prefix_of(first_pair(name + value + tail)),
        find_cookie(name + value + tail, name) == Some(value),
{
    let s = name + value + tail;
    let k: int = (name.len() + value.len()) as int;
    assert forall|j: int| 0 <= j < k implies s[j] != ';' by {
        if j < name.len() {
            assert(s[j] == name[j]);
        } else {
            assert(s[j] == value[j - name.len()]);
        }
    }
    if tail.len() > 0 {
        assert(s[k] == tail[0]);
    }
    lemma_first_semicolon_unique(s, k);
    assert(s.take(k) =~= name + value);
    assert((name + value)[0] == name[0]);
    assert(trim_start(name + value) == name + value);
    assert(name =~= (name + value).subrange(0, name.len() as int));
    assert((name + value).skip(name.len() as int) =~= value);
    if tail.len() > 0 {
        assert(s.skip(k + 1) =~= tail.drop_first());
    }
}

/// Leading white space is removed from the front only: what remains is a
/// suffix of the text.
pub proof fn lemma_trim_start_is_suffix(t: Seq<char>)
    ensures
        exists|k: int| 0 <= k <= t.len() && trim_start(t) == t.skip(k),
    decreases t.len(),
{
    if t.len() > 0 && is_white_space(t[0]) {
        lemma_trim_start_is_suffix(t.drop_first());
        let k = choose|k: int| 0 <= k <= t.drop_first().len() && trim_start(t.drop_first()) == t.drop_first().skip(k);
        assert(t.drop_first().skip(k) =~= t.skip(k + 1));
    } else {
        assert(t.skip(0) =~= t);
    }
}

/// A cookie value found in a header is part of one piece of it: it holds no
/// `;`, and the header holds the name directly followed by the value.
pub proof fn law_found_value_is_within_one_piece(s: Seq<char>, name: Seq<char>)
    ensures
        find_cookie(s, name) matches Some(v) ==> {
            &&& !v.contains(';')
            &&& exists|i: int| crate::text::occurs_at(s, name + v, i)
        },
    decreases s.len(),
{
    if s.len() > 0 {
        let f = first_semicolon(s) as int;
        lemma_first_semicolon(s);
        let t = s.take(f);
        lemma_trim_start_is_suffix(t);
        let k = choose|k: int| 0 <= k <= t.len() && trim_start(t) == t.skip(k);
        if name.is_prefix_of(first_pair(s)) {
            let v = first_pair(s).skip(name.len() as int);
            let n = name.len() as int;
            assert(first_pair(s) =~= s.subrange(k, f));
            assert(v =~= s.subrange(k + n, f));
            assert forall|j: int| 0 <= j < v.len() implies v[j] != ';' by {
                assert(v[j] == s[k + n + j]);
            }
            assert(s.subrange(k, k + n + v.len()) =~= name + v);
            assert(crate::text::occurs_at(s, name + v, k));
        } else if f < s.len() {
            let rest = s.skip(f + 1);
            law_found_value_is_within_one_piece(rest, name);
            if let Some(v) = find_cookie(s, name) {
                let i = choose|i: int| crate::text::occurs_at(rest, name + v, i);
                let m = (name + v).len() as int;
                assert(s.subrange(f + 1 + i, f + 1 + i + m) =~= rest.subrange(i, i + m));
                assert(crate::text::occurs_at(s, name + v, f + 1 + i));
            }
        }
    }
}

/// The session id and refresh token that the header `s` carries.
pub open spec fn auth_cookies(s: Seq<char>) -> (Option<Seq<char>>, Option<Seq<char>>) {
    auth_cookies_from(s, None, None, "session_id="@, "refresh_token="@)
}

/// A header that starts with a piece `p` (holding no `;`) and a `;` is split
/// there: the first piece is `p`, and what follows is the rest.
proof fn lemma_split_after_piece(p: Seq<char>, x: Seq<char>)
    requires
        !p.contains(';'),
    ensures
        first_semicolon(p + seq![';'] + x) == p.len(),
        first_pair(p + seq![';'] + x) == trim_start(p),
        (p + seq![';'] + x).skip(p.len() + 1int) == x,
{
    let s = p + seq![';'] + x;
    assert forall|j: int| 0 <= j < p.len() implies s[j] != ';' by {
        assert(s[j] == p[j]);
    }
    assert(s[p.len() as int] == ';');
    lemma_first_semicolon_unique(s, p.len() as int);
    assert(s.take(p.len() as int) =~= p);
    assert(s.skip(p.len() + 1int) =~= x);
}

/// A header `h` whose first `;` lies inside it keeps its first piece and
/// its rest when more text `y` is appended.
proof fn lemma_split_inside(h: Seq<char>, y: Seq<char>)
    requires
        first_semicolon(h) < h.len(),
    ensures
        first_semicolon(h + y) == first_semicolon(h),
        first_pair(h + y) == first_pair(h),
        (h + y).skip(first_semicolon(h) + 1int) == h.skip(first_semicolon(h) + 1int) + y,
{
    let f = first_semicolon(h) as int;
    lemma_first_semicolon(h);
    let s = h + y;
    assert forall|j: int| 0 <= j < f implies s[j] != ';' by {
        assert(s[j] == h[j]);
    }
    assert(s[f] == h[f]);
    lemma_first_semicolon_unique(s, f);
    assert(s.take(f) =~= h.take(f));
    assert(s.skip(f + 1) =~= h.skip(f + 1) + y);
}

/// A piece that does not begin (after its leading white space) with the
/// name looked for, put in front of a header, changes nothing: the lookup
/// goes on past it.
pub proof fn law_lookup_skips_leading_other_piece(p: Seq<char>, s: Seq<char>, name: Seq<char>)
    requires
        !p.contains(';'),
        !name.is_prefix_of(trim_start(p)),
    ensures
        find_cookie(p + seq![';'] + s, name) == find_cookie(s, name),
{
    lemma_split_after_piece(p, s);
}

/// A piece that does not begin with the name looked for, inserted between
/// any two pieces of a header, changes nothing: the lookup reads every piece
/// until it finds the name.
pub proof fn law_lookup_ignores_other_piece(
    h1: Seq<char>,
    p: Seq<char>,
    h2: Seq<char>,
    name: Seq<char>,
)
    requires
        !p.contains(';'),
        !name.is_prefix_of(trim_start(p)),
    ensures
        find_cookie(h1 + seq![';'] + p + seq![';'] + h2, name) == find_cookie(
            h1 + seq![';'] + h2,
            name,
        ),
    decreases h1.len(),
{
    let with_p = h1 + seq![';'] + p + seq![';'] + h2;
    let without = h1 + seq![';'] + h2;
    let y1 = seq![';'] + p + seq![';'] + h2;
    let y2 = seq![';'] + h2;
    assert(with_p =~= h1 + y1);
    assert(without =~= h1 + y2);
    if first_semicolon(h1) < h1.len() {
        lemma_split_inside(h1, y1);
        lemma_split_inside(h1, y2);
        let f = first_semicolon(h1) as int;
        lemma_first_semicolon(h1);
        assert(with_p.len() > 0 && without.len() > 0);
        let rest = h1.skip(f + 1);
        assert(rest + y1 =~= rest + seq![';'] + p + seq![';'] + h2);
        assert(rest + y2 =~= rest + seq![';'] + h2);
        law_lookup_ignores_other_piece(rest, p, h2, name);
        assert(with_p.skip(f + 1) == rest + y1);
        assert(without.skip(f + 1) == rest + y2);
        assert(find_cookie(with_p, name) == find_cookie(without, name));
    } else {
        lemma_first_semicolon(h1);
        assert(!h1.contains(';')) by {
            assert forall|j: int| 0 <= j < h1.len() implies h1[j] != ';' by {}
        }
        lemma_split_after_piece(h1, p + seq![';'] + h2);
        lemma_split_after_piece(h1, h2);
        assert(h1 + seq![';'] + (p + seq![';'] + h2) =~= with_p);
        law_lookup_skips_leading_other_piece(p, h2, name);
        assert(with_p.skip(h1.len() + 1int) == p + seq![';'] + h2);
        assert(without.skip(h1.len() + 1int) == h2);
        assert(find_cookie(with_p, name) == find_cookie(without, name));
    }
}

/// A piece that begins with neither name, put in front of a header, leaves
/// the scan for the session id and refresh token as it was, from any point
/// of the scan.
proof fn lemma_auth_skips_leading_other_piece(
    p: Seq<char>,
    s: Seq<char>,
    sid: Option<Seq<char>>,
    rt: Option<Seq<char>>,
    sid_name: Seq<char>,
    rt_name: Seq<char>,
)
    requires
        !p.contains(';'),
        !sid_name.is_prefix_of(trim_start(p)),
        !rt_name.is_prefix_of(trim_start(p)),
    ensures
        auth_cookies_from(p + seq![';'] + s, sid, rt, sid_name, rt_name) == auth_cookies_from(
            s,
            sid,
            rt,
            sid_name,
            rt_name,
        ),
{
    lemma_split_after_piece(p, s);
}

/// A piece that begins with neither name, inserted between any two pieces of
/// a header, leaves the scan for the session id and refresh token as it was,
/// from any point of the scan.
proof fn lemma_auth_ignores_other_piece(
    h1: Seq<char>,
    p: Seq<char>,
    h2: Seq<char>,
    sid: Option<Seq<char>>,
    rt: Option<Seq<char>>,
    sid_name: Seq<char>,
    rt_name: Seq<char>,
)
    requires
        !p.contains(';'),
        !sid_name.is_prefix_of(trim_start(p)),
        !rt_name.is_prefix_of(trim_start(p)),
    ensures
        auth_cookies_from(h1 + seq![';'] + p + seq![';'] + h2, sid, rt, sid_name, rt_name)
            == auth_cookies_from(h1 + seq![';'] + h2, sid, rt, sid_name, rt_name),
    decreases h1.len(),
{
    let with_p = h1 + seq![';'] + p + seq![';'] + h2;
    let without = h1 + seq![';'] + h2;
    let y1 = seq![';'] + p + seq![';'] + h2;
    let y2 = seq![';'] + h2;
    assert(with_p =~= h1 + y1);
    assert(without =~= h1 + y2);
    assert(with_p.len() > 0 && without.len() > 0);
    if sid is Some && rt is Some {
    } else if first_semicolon(h1) < h1.len() {
        lemma_split_inside(h1, y1);
        lemma_split_inside(h1, y2);
        let f = first_semicolon(h1) as int;
        lemma_first_semicolon(h1);
        let rest = h1.skip(f + 1);
        assert(rest + y1 =~= rest + seq![';'] + p + seq![';'] + h2);
        assert(rest + y2 =~= rest + seq![';'] + h2);
        let q = first_pair(h1);
        let sid2 = if sid_name.is_prefix_of(q) {
            Some(q.skip(sid_name.len() as int))
        } else {
            sid
        };
        let rt2 = if !sid_name.is_prefix_of(q) && rt_name.is_prefix_of(q) {
            Some(q.skip(rt_name.len() as int))
        } else {
            rt
        };
        lemma_auth_ignores_other_piece(rest, p, h2, sid2, rt2, sid_name, rt_name);
    } else {
        lemma_first_semicolon(h1);
        assert(!h1.contains(';')) by {
            assert forall|j: int| 0 <= j < h1.len() implies h1[j] != ';' by {}
        }
        lemma_split_after_piece(h1, p + seq![';'] + h2);
        lemma_split_after_piece(h1, h2);
        assert(h1 + seq![';'] + (p + seq![';'] + h2) =~= with_p);
        let q = first_pair(without);
        let sid2 = if sid_name.is_prefix_of(q) {
            Some(q.skip(sid_name.len() as int))
        } else {
            sid
        };
        let rt2 = if !sid_name.is_prefix_of(q) && rt_name.is_prefix_of(q) {
            Some(q.skip(rt_name.len() as int))
        } else {
            rt
        };
        lemma_auth_skips_leading_other_piece(p, h2, sid2, rt2, sid_name, rt_name);
    }
}

/// A cookie that is neither the session id nor the refresh token changes
/// nothing of what a header yields for the two, wherever it stands: in front
/// of the header or between any two of its pieces.
pub proof fn law_auth_cookies_ignore_other_piece(h1: Seq<char>, p: Seq<char>, h2: Seq<char>)
    requires
        !p.contains(';'),
        !("session_id="@).is_prefix_of(trim_start(p)),
        !("refresh_token="@).is_prefix_of(trim_start(p)),
    ensures
        auth_cookies(p + seq![';'] + h2) == auth_cookies(h2),
        auth_cookies(h1 + seq![';'] + p + seq![';'] + h2) == auth_cookies(h1 + seq![';'] + h2),
{
    lemma_auth_skips_leading_other_piece(p, h2, None, None, "session_id="@, "refresh_token="@);
    lemma_auth_ignores_other_piece(
        h1,
        p,
        h2,
        None,
        None,
        "session_id="@,
        "refresh_token="@,
    );
}

/// The value of the `session_id` cookie in `cookie_header`.
pub fn extract_session_id_fast(cookie_header: &str) -> (r: Option<&str>)
    ensures
        opt_str_view(r) == find_cookie(cookie_header@, "session_id="@),
{
    find_cookie_value(cookie_header, "session_id=")
}

/// The values of the `session_id` and `refresh_token` cookies in `cookie_header`.
pub fn extract_auth_cookies(cookie_header: &str) -> (r: (Option<&str>, Option<&str>))
    ensures
        (opt_str_view(r.0), opt_str_view(r.1)) == auth_cookies(cookie_header@),
{
    let sid_name = "session_id=";
    let rt_name = "refresh_token=";
    let chars = chars_of(cookie_header);
    let sid_chars = chars_of(sid_name);
    let rt_chars = chars_of(rt_name);
    let n: usize = chars.len();
    let mut session_id: Option<&str> = None;
    let mut refresh_token: Option<&str> = None;
    let mut pos: usize = 0;
    assert(chars@.skip(0) =~= chars@);
    while pos < n
        invariant_except_break
            pos <= n,
            auth_cookies(cookie_header@) == auth_cookies_from(
                chars@.skip(pos as int),
                opt_str_view(session_id),
                opt_str_view(refresh_token),
                sid_name@,
                rt_name@,
            ),
            !(session_id is Some && refresh_token is Some),
        invariant
            n == chars@.len(),
            chars@ == cookie_header@,
            sid_chars@ == sid_name@,
            rt_chars@ == rt_name@,
        ensures
            auth_cookies(cookie_header@) == (opt_str_view(session_id), opt_str_view(refresh_token)),
        decreases n - pos,
    {
        let ghost before = chars@.skip(pos as int);
        let end: usize = next_semicolon(&chars, pos);
        let k: usize = skip_white_space(&chars, pos, end);
        proof {
            lemma_pair_shape(chars@, pos as int, end as int, k as int);
        }
        if has_prefix_at(&chars, k, end, &sid_chars) {
            let v = cookie_header.substring_char(k + sid_chars.len(), end);
            assert(v@ =~= chars@.subrange(k as int, end as int).skip(sid_name@.len() as int));
            session_id = Some(v);
        } else if has_prefix_at(&chars, k, end, &rt_chars) {
            let v = cookie_header.substring_char(k + rt_chars.len(), end);
            assert(v@ =~= chars@.subrange(k as int, end as int).skip(rt_name@.len() as int));
            refresh_token = Some(v);
        }
        if end < n {
            pos = end + 1;
        } else {
            proof {
                assert(chars@.skip(n as int) =~= Seq::<char>::empty());
            }
            pos = n;
        }
        assert(auth_cookies(cookie_header@) == auth_cookies_from(
            chars@.skip(pos as int),
            opt_str_view(session_id),
            opt_str_view(refresh_token),
            sid_name@,
            rt_name@,
        ));
        if session_id.is_some() && refresh_token.is_some() {
            break;
        }
    }
    (session_id, refresh_token)
}

} // verus!
