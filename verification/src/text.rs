//! String helpers with exact specifications: Unicode whitespace trimming,
//! ASCII case-insensitive comparison and prefix handling.

use vstd::prelude::*;

verus! {

/// The Unicode `White_Space` property, which `char::is_whitespace` implements.
pub open spec fn is_white_space(c: char) -> bool {
    let n = c as u32;
    ||| 0x09 <= n <= 0x0d
    ||| n == 0x20
    ||| n == 0x85
    ||| n == 0xa0
    ||| n == 0x1680
    ||| 0x2000 <= n <= 0x200a
    ||| n == 0x2028
    ||| n == 0x2029
    ||| n == 0x202f
    ||| n == 0x205f
    ||| n == 0x3000
}

/// Whether `c` has the Unicode `White_Space` property.
pub fn is_whitespace(c: char) -> (b: bool)
    ensures
        b == is_white_space(c),
{
    let n = c as u32;
    (0x09 <= n && n <= 0x0d) || n == 0x20 || n == 0x85 || n == 0xa0 || n == 0x1680 || (0x2000 <= n
        && n <= 0x200a) || n == 0x2028 || n == 0x2029 || n == 0x202f || n == 0x205f || n == 0x3000
}


/// `s` with its leading whitespace removed.
pub open spec fn trim_front(s: Seq<char>) -> Seq<char>
    decreases s.len(),
{
    if s.len() > 0 && is_white_space(s[0]) {
        trim_front(s.drop_first())
    } else {
        s
    }
}

/// `s` with its trailing whitespace removed.
pub open spec fn trim_back(s: Seq<char>) -> Seq<char>
    decreases s.len(),
{
    if s.len() > 0 && is_white_space(s.last()) {
        trim_back(s.drop_last())
    } else {
        s
    }
}

/// What `str::trim` gives back: `s` without leading and trailing whitespace.
pub open spec fn trimmed(s: Seq<char>) -> Seq<char> {
    trim_back(trim_front(s))
}

proof fn lemma_trim_front_shape(s: Seq<char>)
    ensures
        trim_front(s).len() == 0 || !is_white_space(trim_front(s)[0]),
        trim_front(s).len() == 0 || trim_front(s).last() == s.last(),
        trim_front(s).len() <= s.len(),
    decreases s.len(),
{
    if s.len() > 0 && is_white_space(s[0]) {
        lemma_trim_front_shape(s.drop_first());
    }
}

proof fn lemma_trim_back_shape(s: Seq<char>)
    ensures
        trim_back(s).len() <= s.len(),
        trim_back(s) == s.subrange(0, trim_back(s).len() as int),
        trim_back(s).len() == 0 || !is_white_space(trim_back(s).last()),
        s.len() > 0 && !is_white_space(s[0]) ==> trim_back(s).len() > 0,
    decreases s.len(),
{
    if s.len() > 0 && is_white_space(s.last()) {
        lemma_trim_back_shape(s.drop_last());
        let t = trim_back(s.drop_last());
        assert(s.drop_last().subrange(0, t.len() as int) =~= s.subrange(0, t.len() as int));
        if s.len() > 0 && !is_white_space(s[0]) {
            assert(s.drop_last().len() > 0);
            assert(s.drop_last()[0] == s[0]);
        }
    } else {
        assert(s.subrange(0, s.len() as int) =~= s);
    }
}

/// Trimmed text is empty or starts and ends with non-whitespace.
pub proof fn lemma_trimmed_shape(s: Seq<char>)
    ensures
        trimmed(s).len() == 0 || (!is_white_space(trimmed(s)[0]) && !is_white_space(trimmed(s).last())),
{
    let f = trim_front(s);
    lemma_trim_front_shape(s);
    lemma_trim_back_shape(f);
    let b = trim_back(f);
    if b.len() > 0 {
        assert(b[0] == f.subrange(0, b.len() as int)[0]);
    }
}

/// Trimming trimmed text changes nothing.
pub proof fn lemma_trimmed_idempotent(s: Seq<char>)
    ensures
        trimmed(trimmed(s)) == trimmed(s),
{
    let t = trimmed(s);
    lemma_trimmed_shape(s);
    if t.len() > 0 {
        assert(trim_front(t) == t);
        assert(trim_back(t) == t);
    }
}

/// Every entry of a comma list is non-empty and already trimmed.
pub proof fn lemma_comma_list_entries_clean(value: Seq<char>)
    ensures
        forall|i: int|
            0 <= i < comma_list(value).len() ==> (#[trigger] comma_list(value)[i]).len() > 0 && trimmed(
                comma_list(value)[i],
            ) == comma_list(value)[i],
{
    let m = split_on(value, ',').map_values(trim_each());
    assert forall|i: int| 0 <= i < comma_list(value).len() implies (#[trigger] comma_list(value)[i]).len() > 0
        && trimmed(comma_list(value)[i]) == comma_list(value)[i] by {
        m.lemma_filter_pred(nonempty(), i);
        let h = comma_list(value)[i];
        assert(m.filter(nonempty()).contains(h));
        m.lemma_filter_contains_rev(nonempty(), h);
        let j = choose|j: int| 0 <= j < m.len() && m[j] == h;
        lemma_trimmed_idempotent(split_on(value, ',')[j]);
    }
}

/// The characters of `s`, in order.
pub fn chars_of(s: &str) -> (v: Vec<char>)
    ensures
        v@ == s@,
{
    let mut v: Vec<char> = Vec::new();
    for c in it: s.chars()
        invariant
            v@ == it.seq().take(it.index() as int),
            it.seq() == s@,
    {
        proof {
            assert(it.seq().take(it.index() + 1) =~= it.seq().take(it.index() as int).push(c));
        }
        v.push(c);
    }
    proof {
        assert(v@ =~= s@);
    }
    v
}

/// The trimmed text of `s` (as `str::trim`).
pub fn trim(s: &str) -> (r: String)
    ensures
        r@ == trimmed(s@),
{
    let cs = chars_of(s);
    let n = cs.len();
    let mut i: usize = 0;
    assert(s@.skip(0) =~= s@);
    while i < n && is_whitespace(cs[i])
        invariant
            i <= n,
            n == s@.len(),
            cs@ == s@,
            trim_front(s@) == trim_front(s@.skip(i as int)),
        decreases n - i,
    {
        proof {
            assert(s@.skip(i as int).drop_first() =~= s@.skip(i + 1));
        }
        i = i + 1;
    }
    let ghost front = s@.skip(i as int);
    assert(trim_front(s@) == front);
    let mut j: usize = n;
    while j > i && is_whitespace(cs[j - 1])
        invariant
            i <= j <= n,
            n == s@.len(),
            cs@ == s@,
            front == s@.skip(i as int),
            trim_back(front) == trim_back(s@.subrange(i as int, j as int)),
        decreases j,
    {
        proof {
            assert(s@.subrange(i as int, j as int).drop_last() =~= s@.subrange(i as int, j - 1));
        }
        j = j - 1;
    }
    proof {
        assert(front =~= s@.subrange(i as int, n as int));
    }
    s.substring_char(i, j).to_owned()
}

/// `value` trimmed, kept only when something is left (`None` stays `None`).
pub open spec fn cleaned(value: Option<Seq<char>>) -> Option<Seq<char>> {
    match value {
        Some(v) => if trimmed(v).len() > 0 {
            Some(trimmed(v))
        } else {
            None
        },
        None => None,
    }
}

/// The view of an optional string slice.
pub open spec fn opt_str(o: Option<&str>) -> Option<Seq<char>> {
    match o {
        Some(s) => Some(s@),
        None => None,
    }
}

/// The view of an optional string.
pub open spec fn opt_text(o: Option<String>) -> Option<Seq<char>> {
    match o {
        Some(s) => Some(s@),
        None => None,
    }
}

/// Trims `value` and drops it when empty.
pub fn clean_string(value: Option<&str>) -> (r: Option<String>)
    ensures
        opt_text(r) == cleaned(opt_str(value)),
{
    match value {
        Some(v) => {
            let t = trim(v);
            if !t.as_str().is_empty() {
                Some(t)
            } else {
                None
            }
        },
        None => None,
    }
}


/// The pieces of `s` between occurrences of `sep`, scanning from index `i`
/// inside the piece that began at `start`.
pub open spec fn split_from(s: Seq<char>, sep: char, start: int, i: int) -> Seq<Seq<char>>
    decreases s.len() - i,
{
    if i >= s.len() {
        seq![s.subrange(start, s.len() as int)]
    } else if s[i] == sep {
        seq![s.subrange(start, i)].add(split_from(s, sep, i + 1, i + 1))
    } else {
        split_from(s, sep, start, i + 1)
    }
}

/// What `str::split(sep)` yields: the pieces of `s` between occurrences of `sep`.
pub open spec fn split_on(s: Seq<char>, sep: char) -> Seq<Seq<char>> {
    split_from(s, sep, 0, 0)
}

/// The views of a sequence of strings.
pub open spec fn views(v: Seq<String>) -> Seq<Seq<char>> {
    v.map_values(|h: String| h@)
}

/// Trimming, as a function value.
pub open spec fn trim_each() -> spec_fn(Seq<char>) -> Seq<char> {
    |p: Seq<char>| trimmed(p)
}

/// Non-emptiness, as a predicate value.
pub open spec fn nonempty() -> spec_fn(Seq<char>) -> bool {
    |h: Seq<char>| h.len() > 0
}

/// Comma-separated entries of `value`, trimmed, with the empty ones dropped.
pub open spec fn comma_list(value: Seq<char>) -> Seq<Seq<char>> {
    split_on(value, ',').map_values(trim_each()).filter(nonempty())
}

proof fn lemma_trim_keep_add(a: Seq<Seq<char>>, b: Seq<Seq<char>>)
    ensures
        (a + b).map_values(trim_each()).filter(nonempty()) == a.map_values(trim_each()).filter(
            nonempty(),
        ) + b.map_values(trim_each()).filter(nonempty()),
{
    let f = trim_each();
    let keep = nonempty();
    assert((a + b).map_values(f) =~= a.map_values(f) + b.map_values(f));
    Seq::filter_distributes_over_add(a.map_values(f), b.map_values(f), keep);
}

proof fn lemma_trim_keep_one(p: Seq<char>)
    ensures
        seq![p].map_values(trim_each()).filter(nonempty()) == if trimmed(p).len() > 0 {
            seq![trimmed(p)]
        } else {
            Seq::<Seq<char>>::empty()
        },
{
    let f = trim_each();
    let keep = nonempty();
    let m = seq![p].map_values(f);
    assert(m =~= seq![trimmed(p)]);
    reveal_with_fuel(Seq::filter, 2);
    assert(m.drop_last() =~= Seq::<Seq<char>>::empty());
    if trimmed(p).len() > 0 {
        assert(m.filter(keep) =~= seq![trimmed(p)]);
    } else {
        assert(m.filter(keep) =~= Seq::<Seq<char>>::empty());
    }
}

/// Splits `value` at commas, trims every entry and drops the empty ones.
pub fn parse_allowed_hosts(value: &str) -> (hosts: Vec<String>)
    ensures
        views(hosts@) == comma_list(value@),
{
    let cs = chars_of(value);
    let n = cs.len();
    let mut hosts: Vec<String> = Vec::new();
    let mut start: usize = 0;
    assert(hosts@.map_values(|h: String| h@) =~= Seq::<Seq<char>>::empty());
    for i in 0..n
        invariant
            n == value@.len(),
            cs@ == value@,
            start <= i,
            comma_list(value@) == views(hosts@) + split_from(value@, ',', start as int, i as int).map_values(trim_each()).filter(nonempty()),
    {
        if cs[i] == ',' {
            let piece = trim(value.substring_char(start, i));
            let ghost p = value@.subrange(start as int, i as int);
            let ghost rest = split_from(value@, ',', i + 1, i + 1);
            proof {
                assert(split_from(value@, ',', start as int, i as int) == seq![p] + rest);
                lemma_trim_keep_add(seq![p], rest);
                lemma_trim_keep_one(p);
            }
            let ghost before = views(hosts@);
            if !piece.as_str().is_empty() {
                hosts.push(piece);
                proof {
                    assert(views(hosts@) =~= before.push(trimmed(p)));
                    assert(before + (seq![trimmed(p)] + rest.map_values(trim_each()).filter(nonempty())) =~= views(hosts@)
                        + rest.map_values(trim_each()).filter(nonempty()));
                }
            } else {
                proof {
                    assert(before + (Seq::<Seq<char>>::empty() + rest.map_values(trim_each()).filter(nonempty()))
                        =~= before + rest.map_values(trim_each()).filter(nonempty()));
                }
            }
            start = i + 1;
        } else {
            proof {
                assert(split_from(value@, ',', start as int, i as int) == split_from(
                    value@,
                    ',',
                    start as int,
                    i + 1,
                ));
            }
        }
    }
    let piece = trim(value.substring_char(start, n));
    let ghost p = value@.subrange(start as int, n as int);
    proof {
        assert(split_from(value@, ',', start as int, n as int) == seq![p]);
        lemma_trim_keep_one(p);
    }
    let ghost before = views(hosts@);
    if !piece.as_str().is_empty() {
        hosts.push(piece);
        proof {
            assert(views(hosts@) =~= before.push(trimmed(p)));
        }
    } else {
        proof {
            assert(before + Seq::<Seq<char>>::empty() =~= before);
        }
    }
    hosts
}


/// The code of `c` with ASCII upper-case letters folded to lower case.
pub open spec fn ascii_fold(c: char) -> u32 {
    let n = c as u32;
    if 65 <= n <= 90 {
        (n + 32) as u32
    } else {
        n
    }
}

/// Equality up to ASCII case, as `str::eq_ignore_ascii_case` decides it.
pub open spec fn eq_ascii_ci(a: Seq<char>, b: Seq<char>) -> bool {
    &&& a.len() == b.len()
    &&& forall|k: int| 0 <= k < a.len() ==> ascii_fold(#[trigger] a[k]) == ascii_fold(b[k])
}

fn fold_code(c: char) -> (n: u32)
    ensures
        n == ascii_fold(c),
{
    let n = c as u32;
    if 65 <= n && n <= 90 {
        n + 32
    } else {
        n
    }
}

/// Compares two strings, ignoring ASCII case.
pub fn eq_ignore_ascii_case(a: &str, b: &str) -> (r: bool)
    ensures
        r == eq_ascii_ci(a@, b@),
{
    let xs = chars_of(a);
    let ys = chars_of(b);
    if xs.len() != ys.len() {
        return false;
    }
    for k in 0..xs.len()
        invariant
            xs@ == a@,
            ys@ == b@,
            xs@.len() == ys@.len(),
            forall|j: int| 0 <= j < k ==> ascii_fold(#[trigger] a@[j]) == ascii_fold(b@[j]),
    {
        if fold_code(xs[k]) != fold_code(ys[k]) {
            return false;
        }
    }
    true
}

/// Exact equality of two strings.
pub fn str_eq(a: &str, b: &str) -> (r: bool)
    ensures
        r == (a@ == b@),
{
    a.to_owned() == b.to_owned()
}

/// Whether `p` is a prefix of `s`.
pub open spec fn has_prefix(s: Seq<char>, p: Seq<char>) -> bool {
    p.len() <= s.len() && s.subrange(0, p.len() as int) == p
}

/// The rest of `s` after `prefix` when `s` starts with it (as `str::strip_prefix`).
pub fn strip_prefix(s: &str, prefix: &str) -> (r: Option<String>)
    ensures
        r is Some <==> has_prefix(s@, prefix@),
        r matches Some(rest) ==> rest@ == s@.skip(prefix@.len() as int),
{
    let n = s.unicode_len();
    let m = prefix.unicode_len();
    if m > n {
        return None;
    }
    let head = s.substring_char(0, m);
    if str_eq(head, prefix) {
        Some(s.substring_char(m, n).to_owned())
    } else {
        None
    }
}

} // verus!
