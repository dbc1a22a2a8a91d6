//! Character-level helpers on strings: the Unicode `White_Space` class,
//! trimming, and cutting a string at the first separator.
use vstd::prelude::*;
use vstd::string::*;

verus! {

/// The characters with the Unicode `White_Space` property, which is what
/// `char::is_whitespace` and `str::trim` go by.
pub open spec fn is_white_space(c: char) -> bool {
    let u = c as u32;
    ||| 0x09 <= u <= 0x0D
    ||| u == 0x20
    ||| u == 0x85
    ||| u == 0xA0
    ||| u == 0x1680
    ||| 0x2000 <= u <= 0x200A
    ||| u == 0x2028
    ||| u == 0x2029
    ||| u == 0x202F
    ||| u == 0x205F
    ||| u == 0x3000
}

/// `s` without its leading white space.
pub open spec fn trim_start(s: Seq<char>) -> Seq<char>
    decreases s.len(),
{
    if s.len() > 0 && is_white_space(s[0]) {
        trim_start(s.drop_first())
    } else {
        s
    }
}

/// `s` without its trailing white space.
pub open spec fn trim_end(s: Seq<char>) -> Seq<char>
    decreases s.len(),
{
    if s.len() > 0 && is_white_space(s.last()) {
        trim_end(s.drop_last())
    } else {
        s
    }
}

/// `s` without leading and trailing white space.
pub open spec fn trimmed(s: Seq<char>) -> Seq<char> {
    trim_end(trim_start(s))
}

/// The part of `s` before the first occurrence of `sep` (all of `s` when
/// `sep` does not occur).
pub open spec fn text_before(s: Seq<char>, sep: char) -> Seq<char>
    decreases s.len(),
{
    if s.len() == 0 || s[0] == sep {
        Seq::empty()
    } else {
        seq![s[0]] + text_before(s.drop_first(), sep)
    }
}

/// Whether `c` has the Unicode `White_Space` property.
pub fn is_white_space_char(c: char) -> (b: bool)
    ensures
        b == is_white_space(c),
{
    let u = c as u32;
    (0x09 <= u && u <= 0x0D) || u == 0x20 || u == 0x85 || u == 0xA0 || u == 0x1680 || (0x2000
        <= u && u <= 0x200A) || u == 0x2028 || u == 0x2029 || u == 0x202F || u == 0x205F || u
        == 0x3000
}

/// The characters of `s`, in order.
pub fn chars_of(s: &str) -> (v: Vec<char>)
    ensures
        v@ == s@,
{
    let mut v: Vec<char> = Vec::new();
    for c in it: s.chars()
        invariant
            v@ == it.seq().take(it.index() as int),
    {
        v.push(c);
    }
    v
}

proof fn lemma_trim_start_step(s: Seq<char>, a: int)
    requires
        0 <= a < s.len(),
        is_white_space(s[a]),
    ensures
        trim_start(s.subrange(a, s.len() as int)) == trim_start(s.subrange(a + 1, s.len() as int)),
{
    assert(s.subrange(a, s.len() as int).drop_first() =~= s.subrange(a + 1, s.len() as int));
}

proof fn lemma_trim_end_step(s: Seq<char>, a: int, b: int)
    requires
        0 <= a < b <= s.len(),
        is_white_space(s[b - 1]),
    ensures
        trim_end(s.subrange(a, b)) == trim_end(s.subrange(a, b - 1)),
{
    assert(s.subrange(a, b).drop_last() =~= s.subrange(a, b - 1));
}

/// `s` with leading and trailing white space removed, as `str::trim` does.
pub fn trim(s: &str) -> (r: String)
    ensures
        r@ == trimmed(s@),
{
    let v = chars_of(s);
    let n = v.len();
    let mut a: usize = 0;
    assert(v@.subrange(0, n as int) =~= v@);
    while a < n && is_white_space_char(v[a])
        invariant
            a <= n,
            n == v@.len(),
            trim_start(v@) == trim_start(v@.subrange(a as int, n as int)),
        decreases n - a,
    {
        proof {
            lemma_trim_start_step(v@, a as int);
        }
        a = a + 1;
    }
    let ghost rest = v@.subrange(a as int, n as int);
    assert(trim_start(v@) == rest) by {
        if a < n {
            assert(rest[0] == v@[a as int]);
        } else {
            assert(rest.len() == 0);
        }
    }
    let mut b: usize = n;
    while b > a && is_white_space_char(v[b - 1])
        invariant
            a <= b <= n,
            n == v@.len(),
            rest == v@.subrange(a as int, n as int),
            trim_end(rest) == trim_end(v@.subrange(a as int, b as int)),
        decreases b - a,
    {
        proof {
            lemma_trim_end_step(v@, a as int, b as int);
        }
        b = b - 1;
    }
    let ghost kept = v@.subrange(a as int, b as int);
    assert(trim_end(rest) == kept) by {
        if a < b {
            assert(kept.last() == v@[b - 1]);
        } else {
            assert(kept.len() == 0);
        }
    }
    s.substring_char(a, b).to_owned()
}

/// The part of `s` before the first `sep`, as the first item that
/// `str::split(sep)` yields.
pub fn text_before_char(s: &str, sep: char) -> (r: String)
    ensures
        r@ == text_before(s@, sep),
{
    let v = chars_of(s);
    let n = v.len();
    let mut i: usize = 0;
    assert(v@.take(0) + v@.skip(0) =~= v@.skip(0));
    assert(v@.skip(0) =~= v@);
    while i < n && v[i] != sep
        invariant
            i <= n,
            n == v@.len(),
            text_before(v@, sep) == v@.take(i as int) + text_before(v@.skip(i as int), sep),
        decreases n - i,
    {
        let ghost tail = v@.skip(i as int);
        assert(tail[0] == v@[i as int]);
        assert(tail.drop_first() =~= v@.skip(i + 1));
        assert(v@.take(i as int) + (seq![v@[i as int]] + text_before(v@.skip(i + 1), sep))
            =~= v@.take(i + 1) + text_before(v@.skip(i + 1), sep));
        i = i + 1;
    }
    assert(text_before(v@.skip(i as int), sep) =~= Seq::<char>::empty()) by {
        if i < n {
            assert(v@.skip(i as int)[0] == v@[i as int]);
        }
    }
    assert(v@.take(i as int) + Seq::<char>::empty() =~= v@.subrange(0, i as int));
    s.substring_char(0, i).to_owned()
}


proof fn lemma_trim_start_suffix(s: Seq<char>)
    ensures
        trim_start(s) == s.skip(s.len() - trim_start(s).len()),
        trim_start(s).len() <= s.len(),
        trim_start(s).len() == 0 || !is_white_space(trim_start(s)[0]),
        forall|k: int| 0 <= k < s.len() - trim_start(s).len() ==> is_white_space(#[trigger] s[k]),
    decreases s.len(),
{
    if s.len() > 0 && is_white_space(s[0]) {
        lemma_trim_start_suffix(s.drop_first());
        assert forall|k: int| 0 <= k < s.len() - trim_start(s).len() implies is_white_space(
            #[trigger] s[k],
        ) by {
            if k > 0 {
                assert(s[k] == s.drop_first()[k - 1]);
            }
        }
        assert(s.drop_first().skip(s.drop_first().len() - trim_start(s).len()) =~= s.skip(
            s.len() - trim_start(s).len(),
        ));
    } else {
        assert(s.skip(0) =~= s);
    }
}

proof fn lemma_trim_end_prefix(s: Seq<char>)
    ensures
        trim_end(s) == s.take(trim_end(s).len() as int),
        trim_end(s).len() <= s.len(),
        trim_end(s).len() == 0 || !is_white_space(trim_end(s).last()),
        forall|k: int| trim_end(s).len() <= k < s.len() ==> is_white_space(#[trigger] s[k]),
    decreases s.len(),
{
    if s.len() > 0 && is_white_space(s.last()) {
        lemma_trim_end_prefix(s.drop_last());
        assert forall|k: int| trim_end(s).len() <= k < s.len() implies is_white_space(
            #[trigger] s[k],
        ) by {
            if k < s.len() - 1 {
                assert(s[k] == s.drop_last()[k]);
            }
        }
        assert(s.drop_last().take(trim_end(s).len() as int) =~= s.take(trim_end(s).len() as int));
    } else {
        assert(s.take(s.len() as int) =~= s);
    }
}

proof fn lemma_trim_end_keeps_first(s: Seq<char>)
    requires
        s.len() > 0,
        !is_white_space(s[0]),
    ensures
        trim_end(s).len() > 0,
        trim_end(s)[0] == s[0],
    decreases s.len(),
{
    if is_white_space(s.last()) {
        assert(s.len() > 1);
        assert(s.drop_last()[0] == s[0]);
        lemma_trim_end_keeps_first(s.drop_last());
    }
}

/// The trimmed text is a stretch of the original text, and it neither
/// starts nor ends with white space.
pub proof fn lemma_trimmed_shape(s: Seq<char>)
    ensures
        exists|i: int, j: int| 0 <= i <= j <= s.len() && trimmed(s) == s.subrange(i, j),
        trimmed(s).len() == 0 || (!is_white_space(trimmed(s)[0]) && !is_white_space(
            trimmed(s).last(),
        )),
{
    let u = trim_start(s);
    lemma_trim_start_suffix(s);
    lemma_trim_end_prefix(u);
    let i = s.len() - u.len();
    let j = i + trim_end(u).len();
    assert(trimmed(s) =~= s.subrange(i, j));
    if trimmed(s).len() > 0 {
        lemma_trim_end_keeps_first(u);
    }
}

/// Trimming twice is trimming once.
pub proof fn lemma_trimmed_idempotent(s: Seq<char>)
    ensures
        trimmed(trimmed(s)) == trimmed(s),
{
    lemma_trimmed_shape(s);
    let t = trimmed(s);
    if t.len() > 0 {
        assert(trim_start(t) == t);
        assert(trim_end(t) == t);
    } else {
        assert(trim_start(t) == t);
        assert(trim_end(t) == t);
    }
}

/// The text before the first separator is a prefix of the text that does
/// not hold the separator.
pub proof fn lemma_text_before_shape(s: Seq<char>, sep: char)
    ensures
        text_before(s, sep) == s.take(text_before(s, sep).len() as int),
        text_before(s, sep).len() <= s.len(),
        !text_before(s, sep).contains(sep),
    decreases s.len(),
{
    if s.len() == 0 || s[0] == sep {
        assert(s.take(0) =~= Seq::<char>::empty());
    } else {
        lemma_text_before_shape(s.drop_first(), sep);
        let r = text_before(s, sep);
        assert(r == seq![s[0]] + text_before(s.drop_first(), sep));
        assert(r =~= s.take(r.len() as int));
        assert forall|k: int| 0 <= k < r.len() implies r[k] != sep by {
            if k > 0 {
                assert(r[k] == text_before(s.drop_first(), sep)[k - 1]);
            }
        }
    }
}

/// Trimming keeps exactly the stretch `i..j` of `s` from its first to its
/// last character that is not white space: everything before and after
/// that stretch is white space, and the stretch starts and ends with a
/// character that is not (it is empty only when all of `s` is white space).
pub proof fn lemma_trimmed_exact(s: Seq<char>) -> (r: (int, int))
    ensures
        0 <= r.0 <= r.1 <= s.len(),
        trimmed(s) == s.subrange(r.0, r.1),
        forall|k: int| 0 <= k < r.0 ==> is_white_space(#[trigger] s[k]),
        forall|k: int| r.1 <= k < s.len() ==> is_white_space(#[trigger] s[k]),
        r.0 < r.1 ==> !is_white_space(s[r.0]) && !is_white_space(s[r.1 - 1]),
{
    let u = trim_start(s);
    lemma_trim_start_suffix(s);
    lemma_trim_end_prefix(u);
    let i = s.len() - u.len();
    let j = i + trim_end(u).len();
    assert(trimmed(s) =~= s.subrange(i, j));
    assert forall|k: int| j <= k < s.len() implies is_white_space(#[trigger] s[k]) by {
        assert(s[k] == u[k - i]);
    }
    if i < j {
        lemma_trim_end_keeps_first(u);
        assert(s[i] == trimmed(s)[0]);
        assert(s[j - 1] == trimmed(s).last());
    }
    (i, j)
}

/// The text before the first separator is the longest prefix `s[..k]`
/// without the separator: it holds no separator, and what follows it is
/// either the end of `s` or a separator.
pub proof fn lemma_text_before_exact(s: Seq<char>, sep: char) -> (k: int)
    ensures
        0 <= k <= s.len(),
        text_before(s, sep) == s.take(k),
        forall|m: int| 0 <= m < k ==> #[trigger] s[m] != sep,
        k == s.len() || s[k] == sep,
    decreases s.len(),
{
    if s.len() == 0 || s[0] == sep {
        assert(text_before(s, sep) =~= s.take(0));
        0
    } else {
        let t = s.drop_first();
        let k0 = lemma_text_before_exact(t, sep);
        let k = k0 + 1;
        assert(text_before(s, sep) =~= s.take(k));
        assert forall|m: int| 0 <= m < k implies #[trigger] s[m] != sep by {
            if m > 0 {
                assert(s[m] == t[m - 1]);
            }
        }
        if k < s.len() {
            assert(s[k] == t[k0]);
        }
        k
    }
}

} // verus!
