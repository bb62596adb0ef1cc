use vstd::prelude::*;
use vstd::string::StrSliceExecFns;

verus! {

/// ASCII lower-casing of one character; every other character is unchanged.
pub open spec fn ascii_lower(c: char) -> char {
    if 'A' <= c && c <= 'Z' {
        ((c as u32) + 32) as char
    } else {
        c
    }
}

/// ASCII lower-casing of a whole text, character by character.
pub open spec fn lower_seq(s: Seq<char>) -> Seq<char> {
    s.map_values(|c: char| ascii_lower(c))
}

/// `p` occurs in `s` starting at index `i`.
pub open spec fn occurs_at(s: Seq<char>, p: Seq<char>, i: int) -> bool {
    0 <= i && i + p.len() <= s.len() && s.subrange(i, i + p.len()) == p
}

/// `p` occurs somewhere in `s`.
pub open spec fn occurs_in(s: Seq<char>, p: Seq<char>) -> bool {
    exists|i: int| occurs_at(s, p, i)
}

/// The characters of `s`, in order.
pub fn chars_of(s: &str) -> (r: Vec<char>)
    ensures
        r@ == s@,
{
    let mut out: Vec<char> = Vec::new();
    for c in it: s.chars()
        invariant
            out@ == it.seq().take(it.index() as int),
            it.seq() == s@,
    {
        out.push(c);
    }
    out
}

/// ASCII lower-casing of one character.
pub fn lower_char(c: char) -> (r: char)
    ensures
        r == ascii_lower(c),
{
    if 'A' <= c && c <= 'Z' {
        ((c as u8) + 32) as char
    } else {
        c
    }
}

/// Whether `s` begins with `p`.
pub fn starts_with(s: &str, p: &str) -> (r: bool)
    ensures
        r == p@.is_prefix_of(s@),
{
    let sv = chars_of(s);
    let pv = chars_of(p);
    if pv.len() > sv.len() {
        return false;
    }
    let mut i: usize = 0;
    while i < pv.len()
        invariant
            sv@ == s@,
            pv@ == p@,
            pv.len() <= sv.len(),
            i <= pv.len(),
            forall|k: int| 0 <= k < i ==> sv@[k] == pv@[k],
        decreases pv.len() - i,
    {
        if sv[i] != pv[i] {
            return false;
        }
        i = i + 1;
    }
    assert(p@ =~= s@.subrange(0, p@.len() as int));
    true
}

/// Whether the ASCII-lower-cased `s` contains `p` (`p` given in lower case).
pub fn contains_ignore_ascii_case(s: &str, p: &str) -> (r: bool)
    ensures
        r == occurs_in(lower_seq(s@), p@),
{
    let sv = chars_of(s);
    let pv = chars_of(p);
    let ghost ls = lower_seq(s@);
    if pv.len() > sv.len() {
        assert forall|i: int| !occurs_at(ls, p@, i) by {}
        return false;
    }
    if pv.len() == 0 {
        assert(ls.subrange(0, 0) =~= p@);
        assert(occurs_at(ls, p@, 0));
        return true;
    }
    let last = sv.len() - pv.len();
    let mut i: usize = 0;
    while i <= last
        invariant
            sv@ == s@,
            pv@ == p@,
            ls == lower_seq(s@),
            last == sv.len() - pv.len(),
            0 < pv.len() <= sv.len(),
            i <= last + 1,
            forall|k: int| 0 <= k < i ==> !occurs_at(ls, p@, k),
        decreases last + 1 - i,
    {
        let mut j: usize = 0;
        let mut same = true;
        while j < pv.len()
            invariant
                sv@ == s@,
                pv@ == p@,
                ls == lower_seq(s@),
                i <= last,
                last == sv.len() - pv.len(),
                j <= pv.len(),
                same == forall|k: int| 0 <= k < j ==> ls[i + k] == pv@[k],
            decreases pv.len() - j,
        {
            if lower_char(sv[i + j]) != pv[j] {
                same = false;
            }
            j = j + 1;
        }
        if same {
            assert(ls.subrange(i as int, i + p@.len()) =~= p@);
            assert(occurs_at(ls, p@, i as int));
            return true;
        }
        assert(!occurs_at(ls, p@, i as int)) by {
            let k = choose|k: int| 0 <= k < pv.len() && ls[i + k] != pv@[k];
            assert(ls.subrange(i as int, i + p@.len())[k] != p@[k]);
        }
        i = i + 1;
    }
    assert forall|k: int| !occurs_at(ls, p@, k) by {
        if 0 <= k && k + p@.len() <= ls.len() {
            assert(k <= last);
        }
    }
    false
}

/// The characters that Unicode gives the White_Space property.
pub open spec fn is_space(c: char) -> bool {
    ||| '\u{9}' <= c && c <= '\u{d}'
    ||| c == ' '
    ||| c == '\u{85}'
    ||| c == '\u{a0}'
    ||| c == '\u{1680}'
    ||| '\u{2000}' <= c && c <= '\u{200a}'
    ||| c == '\u{2028}'
    ||| c == '\u{2029}'
    ||| c == '\u{202f}'
    ||| c == '\u{205f}'
    ||| c == '\u{3000}'
}

/// `s` without its leading white space.
pub open spec fn trim_start(s: Seq<char>) -> Seq<char>
    decreases s.len(),
{
    if s.len() > 0 && is_space(s[0]) {
        trim_start(s.drop_first())
    } else {
        s
    }
}

/// `s` without its trailing white space.
pub open spec fn trim_end(s: Seq<char>) -> Seq<char>
    decreases s.len(),
{
    if s.len() > 0 && is_space(s.last()) {
        trim_end(s.drop_last())
    } else {
        s
    }
}

/// `s` without white space at either end.
pub open spec fn trimmed(s: Seq<char>) -> Seq<char> {
    trim_end(trim_start(s))
}

/// `s` without any trailing copies of `c`.
pub open spec fn trim_end_char(s: Seq<char>, c: char) -> Seq<char>
    decreases s.len(),
{
    if s.len() > 0 && s.last() == c {
        trim_end_char(s.drop_last(), c)
    } else {
        s
    }
}

/// Whether `c` is white space in the Unicode sense.
pub fn is_space_char(c: char) -> (r: bool)
    ensures
        r == is_space(c),
{
    ('\u{9}' <= c && c <= '\u{d}') || c == ' ' || c == '\u{85}' || c == '\u{a0}' || c == '\u{1680}'
        || ('\u{2000}' <= c && c <= '\u{200a}') || c == '\u{2028}' || c == '\u{2029}' || c
        == '\u{202f}' || c == '\u{205f}' || c == '\u{3000}'
}

proof fn lemma_trim_start_skip(s: Seq<char>, a: int)
    requires
        0 <= a <= s.len(),
        forall|k: int| 0 <= k < a ==> is_space(s[k]),
    ensures
        trim_start(s) == trim_start(s.subrange(a, s.len() as int)),
    decreases a,
{
    if a > 0 {
        assert(s.drop_first().subrange(a - 1, s.len() - 1) =~= s.subrange(a, s.len() as int));
        lemma_trim_start_skip(s.drop_first(), a - 1);
    } else {
        assert(s.subrange(0, s.len() as int) =~= s);
    }
}

proof fn lemma_trim_end_skip(s: Seq<char>, b: int)
    requires
        0 <= b <= s.len(),
        forall|k: int| b <= k < s.len() ==> is_space(s[k]),
    ensures
        trim_end(s) == trim_end(s.subrange(0, b)),
    decreases s.len() - b,
{
    if b < s.len() {
        assert(s.drop_last().subrange(0, b) =~= s.subrange(0, b));
        lemma_trim_end_skip(s.drop_last(), b);
    } else {
        assert(s.subrange(0, b) =~= s);
    }
}

proof fn lemma_trim_end_char_skip(s: Seq<char>, c: char, b: int)
    requires
        0 <= b <= s.len(),
        forall|k: int| b <= k < s.len() ==> s[k] == c,
    ensures
        trim_end_char(s, c) == trim_end_char(s.subrange(0, b), c),
    decreases s.len() - b,
{
    if b < s.len() {
        assert(s.drop_last().subrange(0, b) =~= s.subrange(0, b));
        lemma_trim_end_char_skip(s.drop_last(), c, b);
    } else {
        assert(s.subrange(0, b) =~= s);
    }
}

/// `s` without white space at either end, as `str::trim` gives it.
pub fn trim(s: &str) -> (r: String)
    ensures
        r@ == trimmed(s@),
{
    let v = chars_of(s);
    let mut a: usize = 0;
    while a < v.len() && is_space_char(v[a])
        invariant
            v@ == s@,
            a <= v.len(),
            forall|k: int| 0 <= k < a ==> is_space(v@[k]),
        decreases v.len() - a,
    {
        a = a + 1;
    }
    let mut b: usize = v.len();
    while b > a && is_space_char(v[b - 1])
        invariant
            v@ == s@,
            a <= b <= v.len(),
            forall|k: int| b <= k < v.len() ==> is_space(v@[k]),
        decreases b,
    {
        b = b - 1;
    }
    proof {
        let t = s@.subrange(a as int, s@.len() as int);
        lemma_trim_start_skip(s@, a as int);
        assert(trim_start(t) == t);
        lemma_trim_end_skip(t, b - a);
        let u = t.subrange(0, b - a);
        assert(u =~= s@.subrange(a as int, b as int));
        assert(trim_end(u) == u);
    }
    s.substring_char(a, b).to_owned()
}

/// `s` without trailing copies of `c`, as `str::trim_end_matches` gives it for one character.
pub fn trim_end_matching(s: &str, c: char) -> (r: String)
    ensures
        r@ == trim_end_char(s@, c),
{
    let v = chars_of(s);
    let mut b: usize = v.len();
    while b > 0 && v[b - 1] == c
        invariant
            v@ == s@,
            b <= v.len(),
            forall|k: int| b <= k < v.len() ==> v@[k] == c,
        decreases b,
    {
        b = b - 1;
    }
    proof {
        lemma_trim_end_char_skip(s@, c, b as int);
        assert(trim_end_char(s@.subrange(0, b as int), c) == s@.subrange(0, b as int));
    }
    s.substring_char(0, b).to_owned()
}

/// Whether two texts are the same.
pub fn str_eq(a: &str, b: &str) -> (r: bool)
    ensures
        r == (a@ == b@),
{
    let av = chars_of(a);
    let bv = chars_of(b);
    if av.len() != bv.len() {
        return false;
    }
    let mut i: usize = 0;
    while i < av.len()
        invariant
            av@ == a@,
            bv@ == b@,
            av.len() == bv.len(),
            i <= av.len(),
            forall|k: int| 0 <= k < i ==> av@[k] == bv@[k],
        decreases av.len() - i,
    {
        if av[i] != bv[i] {
            return false;
        }
        i = i + 1;
    }
    assert(a@ =~= b@);
    true
}

/// Whether `s`, ASCII-lower-cased, is `p`.
pub fn lower_eq(s: &str, p: &str) -> (r: bool)
    ensures
        r == (lower_seq(s@) == p@),
{
    let sv = chars_of(s);
    let pv = chars_of(p);
    if sv.len() != pv.len() {
        assert(lower_seq(s@).len() != p@.len());
        return false;
    }
    let mut i: usize = 0;
    while i < sv.len()
        invariant
            sv@ == s@,
            pv@ == p@,
            sv.len() == pv.len(),
            i <= sv.len(),
            forall|k: int| 0 <= k < i ==> lower_seq(s@)[k] == pv@[k],
        decreases sv.len() - i,
    {
        if lower_char(sv[i]) != pv[i] {
            assert(lower_seq(s@)[i as int] != p@[i as int]);
            return false;
        }
        i = i + 1;
    }
    assert(lower_seq(s@) =~= p@);
    true
}

proof fn lemma_trim_start_shape(s: Seq<char>)
    ensures
        trim_start(s).len() == 0 || !is_space(trim_start(s)[0]),
        trim_start(s).len() <= s.len(),
        trim_start(s) == s.subrange(s.len() - trim_start(s).len(), s.len() as int),
    decreases s.len(),
{
    if s.len() > 0 && is_space(s[0]) {
        lemma_trim_start_shape(s.drop_first());
        let t = trim_start(s.drop_first());
        assert(s.drop_first().subrange(s.len() - 1 - t.len(), s.len() - 1) =~= s.subrange(
            s.len() - t.len(),
            s.len() as int,
        ));
    } else {
        assert(s.subrange(0, s.len() as int) =~= s);
    }
}

proof fn lemma_trim_end_shape(s: Seq<char>)
    ensures
        trim_end(s).len() == 0 || !is_space(trim_end(s).last()),
        trim_end(s).len() <= s.len(),
        trim_end(s) == s.subrange(0, trim_end(s).len() as int),
    decreases s.len(),
{
    if s.len() > 0 && is_space(s.last()) {
        lemma_trim_end_shape(s.drop_last());
        let t = trim_end(s.drop_last());
        assert(s.drop_last().subrange(0, t.len() as int) =~= s.subrange(0, t.len() as int));
    } else {
        assert(s.subrange(0, s.len() as int) =~= s);
    }
}

/// Law: a trimmed text starts and ends with a character that is not white space, trimming
/// it again changes nothing, and it is a piece of the text it came from.
pub proof fn lemma_trimmed(s: Seq<char>)
    ensures
        trimmed(s).len() > 0 ==> !is_space(trimmed(s)[0]) && !is_space(trimmed(s).last()),
        trimmed(trimmed(s)) == trimmed(s),
        exists|a: int, b: int| 0 <= a <= b <= s.len() && trimmed(s) == #[trigger] s.subrange(a, b),
{
    let t = trim_start(s);
    lemma_trim_start_shape(s);
    lemma_trim_end_shape(t);
    let u = trim_end(t);
    if u.len() > 0 {
        assert(u[0] == t[0]);
    }
    // trimming again: u starts with a non-space, so trim_start(u) == u; its end is a non-space.
    assert(trim_start(u) == u);
    assert(trim_end(u) == u);
    let a = s.len() - t.len();
    assert(u =~= s.subrange(a, a + u.len()));
}

/// Law: the text without trailing `c` does not end with `c`, and adding one more `c` to
/// the text changes nothing.
pub proof fn lemma_trim_end_char(s: Seq<char>, c: char)
    ensures
        trim_end_char(s, c).len() == 0 || trim_end_char(s, c).last() != c,
        trim_end_char(s.push(c), c) == trim_end_char(s, c),
    decreases s.len(),
{
    assert(s.push(c).drop_last() =~= s);
    if s.len() > 0 && s.last() == c {
        lemma_trim_end_char(s.drop_last(), c);
    }
}

/// Law: lower-casing twice is lower-casing once.
pub proof fn lemma_lower_idempotent(s: Seq<char>)
    ensures
        lower_seq(lower_seq(s)) == lower_seq(s),
{
    assert forall|i: int| 0 <= i < s.len() implies #[trigger] lower_seq(lower_seq(s))[i] == lower_seq(s)[i] by {
        let c = s[i];
        if 'A' <= c && c <= 'Z' {
            assert(((c as u32) + 32) as char as u32 == (c as u32) + 32);
        }
    }
    assert(lower_seq(lower_seq(s)) =~= lower_seq(s));
}

} // verus!
