//! Text primitives with their meaning stated over `Seq<char>`: Unicode
//! whitespace, trimming, splitting into lines and words, ASCII case folding and
//! decimal rendering.
use vstd::prelude::*;

verus! {

/// `String::push` appends one character.
pub assume_specification[ String::push ](s: &mut String, ch: char)
    ensures
        final(s)@ == old(s)@.push(ch),
;

/// The Unicode `White_Space` property, as `char::is_whitespace` documents it.
pub open spec fn is_white_space(c: char) -> bool {
    let v = c as u32;
    ||| 0x09 <= v <= 0x0d
    ||| v == 0x20
    ||| v == 0x85
    ||| v == 0xa0
    ||| v == 0x1680
    ||| 0x2000 <= v <= 0x200a
    ||| v == 0x2028
    ||| v == 0x2029
    ||| v == 0x202f
    ||| v == 0x205f
    ||| v == 0x3000
}

pub fn is_whitespace(c: char) -> (r: bool)
    ensures
        r == is_white_space(c),
{
    let v = c as u32;
    (0x09 <= v && v <= 0x0d) || v == 0x20 || v == 0x85 || v == 0xa0 || v == 0x1680 || (0x2000
        <= v && v <= 0x200a) || v == 0x2028 || v == 0x2029 || v == 0x202f || v == 0x205f || v
        == 0x3000
}

/// `s` without its leading whitespace.
pub open spec fn trim_start(s: Seq<char>) -> Seq<char>
    decreases s.len(),
{
    if s.len() > 0 && is_white_space(s[0]) {
        trim_start(s.drop_first())
    } else {
        s
    }
}

/// `s` without its trailing whitespace.
pub open spec fn trim_end(s: Seq<char>) -> Seq<char>
    decreases s.len(),
{
    if s.len() > 0 && is_white_space(s.last()) {
        trim_end(s.drop_last())
    } else {
        s
    }
}

/// `s` without leading and trailing whitespace, as `str::trim` returns it.
pub open spec fn trim(s: Seq<char>) -> Seq<char> {
    trim_end(trim_start(s))
}

/// The characters of `s`, one by one.
pub fn chars_of(s: &str) -> (v: Vec<char>)
    ensures
        v@ == s@,
{
    let n = s.unicode_len();
    let mut v: Vec<char> = Vec::new();
    let mut i: usize = 0;
    while i < n
        invariant
            n == s@.len(),
            i <= n,
            v@ == s@.take(i as int),
        decreases n - i,
    {
        let c = s.get_char(i);
        v.push(c);
        i = i + 1;
        assert(v@ =~= s@.take(i as int));
    }
    assert(v@ =~= s@);
    v
}

/// A `String` holding the characters `v[from..to]`.
pub fn string_of(v: &Vec<char>, from: usize, to: usize) -> (s: String)
    requires
        from <= to <= v@.len(),
    ensures
        s@ == v@.subrange(from as int, to as int),
{
    let mut s = String::new();
    let mut i = from;
    while i < to
        invariant
            from <= i <= to <= v@.len(),
            s@ == v@.subrange(from as int, i as int),
        decreases to - i,
    {
        s.push(v[i]);
        i = i + 1;
        assert(s@ =~= v@.subrange(from as int, i as int));
    }
    s
}

/// A `String` holding all of `v`.
pub fn string_of_all(v: &Vec<char>) -> (s: String)
    ensures
        s@ == v@,
{
    let s = string_of(v, 0, v.len());
    assert(v@.subrange(0, v@.len() as int) =~= v@);
    s
}

proof fn lemma_trim_start_skip(s: Seq<char>, i: int)
    requires
        0 <= i <= s.len(),
        forall|k: int| 0 <= k < i ==> is_white_space(#[trigger] s[k]),
    ensures
        trim_start(s) == trim_start(s.skip(i)),
    decreases i,
{
    if i > 0 {
        assert(s.drop_first().skip(i - 1) =~= s.skip(i));
        lemma_trim_start_skip(s.drop_first(), i - 1);
    } else {
        assert(s.skip(0) =~= s);
    }
}

proof fn lemma_trim_end_take(s: Seq<char>, j: int)
    requires
        0 <= j <= s.len(),
        forall|k: int| j <= k < s.len() ==> is_white_space(#[trigger] s[k]),
    ensures
        trim_end(s) == trim_end(s.take(j)),
    decreases s.len() - j,
{
    if j < s.len() {
        assert(s.drop_last().take(j) =~= s.take(j));
        lemma_trim_end_take(s.drop_last(), j);
    } else {
        assert(s.take(j) =~= s);
    }
}

/// Whether every character of `s` is whitespace.
pub open spec fn all_white_space(s: Seq<char>) -> bool {
    forall|k: int| 0 <= k < s.len() ==> is_white_space(#[trigger] s[k])
}

/// Leading whitespace does not change what trimming the start leaves.
pub proof fn lemma_trim_start_after_space(a: Seq<char>, s: Seq<char>)
    requires
        all_white_space(a),
    ensures
        trim_start(a + s) == trim_start(s),
    decreases a.len(),
{
    if a.len() > 0 {
        assert((a + s)[0] == a[0]);
        assert((a + s).drop_first() =~= a.drop_first() + s);
        assert forall|k: int| 0 <= k < a.drop_first().len() implies is_white_space(
            #[trigger] a.drop_first()[k],
        ) by {
            assert(a.drop_first()[k] == a[k + 1]);
        }
        lemma_trim_start_after_space(a.drop_first(), s);
    } else {
        assert(a + s =~= s);
    }
}

/// Trailing whitespace does not change what trimming the end leaves.
pub proof fn lemma_trim_end_before_space(s: Seq<char>, b: Seq<char>)
    requires
        all_white_space(b),
    ensures
        trim_end(s + b) == trim_end(s),
    decreases b.len(),
{
    if b.len() > 0 {
        assert((s + b).last() == b.last());
        assert((s + b).drop_last() =~= s + b.drop_last());
        assert forall|k: int| 0 <= k < b.drop_last().len() implies is_white_space(
            #[trigger] b.drop_last()[k],
        ) by {
            assert(b.drop_last()[k] == b[k]);
        }
        lemma_trim_end_before_space(s, b.drop_last());
    } else {
        assert(s + b =~= s);
    }
}

proof fn lemma_trim_before_space(s: Seq<char>, b: Seq<char>)
    requires
        all_white_space(b),
    ensures
        trim(s + b) == trim(s),
    decreases s.len(),
{
    if s.len() == 0 {
        assert(s + b =~= b);
        lemma_trim_start_after_space(b, Seq::<char>::empty());
        assert(b + Seq::<char>::empty() =~= b);
    } else if is_white_space(s[0]) {
        assert((s + b)[0] == s[0]);
        assert((s + b).drop_first() =~= s.drop_first() + b);
        lemma_trim_before_space(s.drop_first(), b);
    } else {
        assert((s + b)[0] == s[0]);
        lemma_trim_end_before_space(s, b);
    }
}

/// Whitespace around a text does not change the text trimmed.
pub proof fn lemma_trim_padding(a: Seq<char>, s: Seq<char>, b: Seq<char>)
    requires
        all_white_space(a),
        all_white_space(b),
    ensures
        trim(a + s + b) == trim(s),
{
    assert(a + s + b =~= a + (s + b));
    lemma_trim_start_after_space(a, s + b);
    lemma_trim_before_space(s, b);
}

proof fn lemma_trim_start_len(s: Seq<char>)
    ensures
        trim_start(s).len() <= s.len(),
        s.len() > 0 && is_white_space(s[0]) ==> trim_start(s).len() < s.len(),
    decreases s.len(),
{
    if s.len() > 0 && is_white_space(s[0]) {
        lemma_trim_start_len(s.drop_first());
    }
}

proof fn lemma_trim_end_len(s: Seq<char>)
    ensures
        trim_end(s).len() <= s.len(),
        s.len() > 0 && is_white_space(s.last()) ==> trim_end(s).len() < s.len(),
    decreases s.len(),
{
    if s.len() > 0 && is_white_space(s.last()) {
        lemma_trim_end_len(s.drop_last());
    }
}

/// A trimmed text neither begins nor ends with whitespace.
pub proof fn lemma_trimmed_ends(s: Seq<char>)
    requires
        trim(s) == s,
        s.len() > 0,
    ensures
        !is_white_space(s[0]),
        !is_white_space(s.last()),
{
    lemma_trim_start_len(s);
    lemma_trim_end_len(trim_start(s));
    if is_white_space(s.last()) && !is_white_space(s[0]) {
        assert(trim_start(s) == s);
    }
}

/// The bounds `(a, b)` such that `v[a..b]` is `v` trimmed.
pub fn trim_bounds(v: &Vec<char>) -> (r: (usize, usize))
    ensures
        r.0 <= r.1 <= v@.len(),
        trim(v@) == v@.subrange(r.0 as int, r.1 as int),
        trim_start(v@) == v@.skip(r.0 as int),
{
    let n = v.len();
    let mut a: usize = 0;
    while a < n && is_whitespace(v[a])
        invariant
            a <= n == v@.len(),
            forall|k: int| 0 <= k < a ==> is_white_space(#[trigger] v@[k]),
        decreases n - a,
    {
        a = a + 1;
    }
    proof {
        lemma_trim_start_skip(v@, a as int);
        let t = v@.skip(a as int);
        if a < n {
            assert(t[0] == v@[a as int]);
        }
        assert(trim_start(t) == t);
    }
    let mut b: usize = n;
    while b > a && is_whitespace(v[b - 1])
        invariant
            a <= b <= n == v@.len(),
            forall|k: int| b <= k < n ==> is_white_space(#[trigger] v@[k]),
        decreases b,
    {
        b = b - 1;
    }
    proof {
        let t = v@.skip(a as int);
        assert forall|k: int| b - a <= k < t.len() implies is_white_space(#[trigger] t[k]) by {
            assert(t[k] == v@[k + a]);
        }
        lemma_trim_end_take(t, b - a);
        let u = t.take(b - a);
        assert(u =~= v@.subrange(a as int, b as int));
        if b > a {
            assert(u.last() == v@[b - 1]);
        }
        assert(trim_end(u) == u);
    }
    (a, b)
}

/// `s` with leading and trailing whitespace removed.
pub fn trim_str(s: &str) -> (r: String)
    ensures
        r@ == trim(s@),
{
    let v = chars_of(s);
    let (a, b) = trim_bounds(&v);
    string_of(&v, a, b)
}

/// Whether `s` holds nothing but whitespace.
pub fn is_blank(s: &str) -> (r: bool)
    ensures
        r == (trim(s@).len() == 0),
{
    let v = chars_of(s);
    let (a, b) = trim_bounds(&v);
    a == b
}


/// How many characters precede the first line feed of `s` (all of them if
/// there is none).
pub open spec fn line_len(s: Seq<char>) -> nat
    decreases s.len(),
{
    if s.len() == 0 || s[0] == '\n' {
        0
    } else {
        1 + line_len(s.drop_first())
    }
}

/// A line with one trailing carriage return removed.
pub open spec fn strip_cr(line: Seq<char>) -> Seq<char> {
    if line.len() > 0 && line.last() == '\r' {
        line.drop_last()
    } else {
        line
    }
}

/// The lines of `s`, as `str::lines` yields them: split at each line feed,
/// a carriage return before the line feed removed, no empty line after a
/// final line feed.
pub open spec fn lines(s: Seq<char>) -> Seq<Seq<char>>
    decreases s.len(),
{
    if s.len() == 0 {
        seq![]
    } else {
        let k = line_len(s);
        if k >= s.len() {
            seq![s]
        } else {
            seq![strip_cr(s.take(k as int))] + lines(s.skip((k + 1) as int))
        }
    }
}

/// How many characters precede the first whitespace of `s`.
pub open spec fn word_len(s: Seq<char>) -> nat
    decreases s.len(),
{
    if s.len() == 0 || is_white_space(s[0]) {
        0
    } else {
        1 + word_len(s.drop_first())
    }
}

/// The whitespace-separated words of `s`, as `str::split_whitespace` yields
/// them.
pub open spec fn words(s: Seq<char>) -> Seq<Seq<char>>
    decreases s.len(),
{
    if s.len() == 0 {
        seq![]
    } else if is_white_space(s[0]) {
        words(s.drop_first())
    } else {
        let k = word_len(s);
        if k >= s.len() {
            seq![s]
        } else {
            seq![s.take(k as int)] + words(s.skip(k as int))
        }
    }
}

/// The views of a sequence of character vectors.
pub open spec fn char_views(v: Seq<Vec<char>>) -> Seq<Seq<char>> {
    v.map_values(|x: Vec<char>| x@)
}

/// The views of a sequence of strings.
pub open spec fn string_views(v: Seq<String>) -> Seq<Seq<char>> {
    v.map_values(|x: String| x@)
}

proof fn lemma_line_len_shift(s: Seq<char>, start: int, j: int)
    requires
        0 <= start <= j < s.len(),
        s[j] != '\n',
    ensures
        line_len(s.skip(j)) == 1 + line_len(s.skip(j + 1)),
{
    assert(s.skip(j)[0] == s[j]);
    assert(s.skip(j).drop_first() =~= s.skip(j + 1));
}

/// The lines of the characters `v`.
pub fn split_lines(v: &Vec<char>) -> (r: Vec<Vec<char>>)
    ensures
        char_views(r@) == lines(v@),
{
    let n = v.len();
    let mut out: Vec<Vec<char>> = Vec::new();
    let mut start: usize = 0;
    assert(v@.skip(0) =~= v@);
    while start < n
        invariant
            start <= n == v@.len(),
            lines(v@) == char_views(out@) + lines(v@.skip(start as int)),
        decreases n - start,
    {
        let ghost rest = v@.skip(start as int);
        let mut j = start;
        while j < n && v[j] != '\n'
            invariant
                start <= j <= n == v@.len(),
                rest == v@.skip(start as int),
                line_len(rest) == (j - start) + line_len(v@.skip(j as int)),
            decreases n - j,
        {
            proof {
                lemma_line_len_shift(v@, start as int, j as int);
            }
            j = j + 1;
        }
        proof {
            if j < n {
                assert(v@.skip(j as int)[0] == v@[j as int]);
            }
            assert(line_len(v@.skip(j as int)) == 0);
            assert(line_len(rest) == j - start);
        }
        let mut end = j;
        if j < n && end > start && v[end - 1] == '\r' {
            end = end - 1;
        }
        let mut line: Vec<char> = Vec::new();
        let mut i = start;
        while i < end
            invariant
                start <= i <= end <= j <= n == v@.len(),
                line@ == v@.subrange(start as int, i as int),
            decreases end - i,
        {
            line.push(v[i]);
            i = i + 1;
            assert(line@ =~= v@.subrange(start as int, i as int));
        }
        let ghost before = out@;
        out.push(line);
        proof {
            assert(char_views(out@) =~= char_views(before).push(line@));
            if j < n {
                let piece = rest.take((j - start) as int);
                assert(piece =~= v@.subrange(start as int, j as int));
                assert(rest.skip((j - start) + 1) =~= v@.skip(j + 1));
                if end < j {
                    assert(strip_cr(piece) =~= v@.subrange(start as int, end as int));
                } else {
                    assert(strip_cr(piece) =~= piece);
                }
                assert(lines(rest) =~= seq![line@] + lines(v@.skip(j + 1)));
            } else {
                assert(rest =~= v@.subrange(start as int, j as int));
                assert(lines(rest) =~= seq![line@]);
                assert(v@.skip(n as int) =~= Seq::<char>::empty());
            }
        }
        start = if j < n { j + 1 } else { n };
        assert(lines(v@) =~= char_views(out@) + lines(v@.skip(start as int)));
    }
    proof {
        assert(v@.skip(n as int) =~= Seq::<char>::empty());
        assert(char_views(out@) + seq![] =~= char_views(out@));
    }
    out
}

proof fn lemma_word_len_shift(s: Seq<char>, j: int)
    requires
        0 <= j < s.len(),
        !is_white_space(s[j]),
    ensures
        word_len(s.skip(j)) == 1 + word_len(s.skip(j + 1)),
{
    assert(s.skip(j)[0] == s[j]);
    assert(s.skip(j).drop_first() =~= s.skip(j + 1));
}

/// The whitespace-separated words of the characters `v`.
pub fn split_words(v: &Vec<char>) -> (r: Vec<Vec<char>>)
    ensures
        char_views(r@) == words(v@),
{
    let n = v.len();
    let mut out: Vec<Vec<char>> = Vec::new();
    let mut start: usize = 0;
    assert(v@.skip(0) =~= v@);
    while start < n
        invariant
            start <= n == v@.len(),
            words(v@) == char_views(out@) + words(v@.skip(start as int)),
        decreases n - start,
    {
        let ghost rest = v@.skip(start as int);
        if is_whitespace(v[start]) {
            proof {
                assert(rest[0] == v@[start as int]);
                assert(rest.drop_first() =~= v@.skip(start + 1));
            }
            start = start + 1;
        } else {
            let mut j = start;
            while j < n && !is_whitespace(v[j])
                invariant
                    start <= j <= n == v@.len(),
                    rest == v@.skip(start as int),
                    word_len(rest) == (j - start) + word_len(v@.skip(j as int)),
                decreases n - j,
            {
                proof {
                    lemma_word_len_shift(v@, j as int);
                }
                j = j + 1;
            }
            proof {
                if j < n {
                    assert(v@.skip(j as int)[0] == v@[j as int]);
                }
                assert(word_len(v@.skip(j as int)) == 0);
            }
            let mut word: Vec<char> = Vec::new();
            let mut i = start;
            while i < j
                invariant
                    start <= i <= j <= n == v@.len(),
                    word@ == v@.subrange(start as int, i as int),
                decreases j - i,
            {
                word.push(v[i]);
                i = i + 1;
                assert(word@ =~= v@.subrange(start as int, i as int));
            }
            let ghost before = out@;
            out.push(word);
            proof {
                assert(char_views(out@) =~= char_views(before).push(word@));
                assert(rest[0] == v@[start as int]);
                if j < n {
                    assert(rest.take((j - start) as int) =~= word@);
                    assert(rest.skip((j - start) as int) =~= v@.skip(j as int));
                    assert(words(rest) =~= seq![word@] + words(v@.skip(j as int)));
                } else {
                    assert(rest =~= word@);
                    assert(words(rest) =~= seq![word@]);
                    assert(v@.skip(n as int) =~= Seq::<char>::empty());
                }
            }
            start = j;
        }
        assert(words(v@) =~= char_views(out@) + words(v@.skip(start as int)));
    }
    proof {
        assert(v@.skip(n as int) =~= Seq::<char>::empty());
        assert(char_views(out@) + seq![] =~= char_views(out@));
    }
    out
}


/// Whether two character sequences are equal.
pub fn same_chars(a: &Vec<char>, b: &Vec<char>) -> (r: bool)
    ensures
        r == (a@ == b@),
{
    if a.len() != b.len() {
        return false;
    }
    let mut i: usize = 0;
    while i < a.len()
        invariant
            a@.len() == b@.len(),
            i <= a@.len(),
            forall|k: int| 0 <= k < i ==> a@[k] == b@[k],
        decreases a@.len() - i,
    {
        if a[i] != b[i] {
            return false;
        }
        i = i + 1;
    }
    assert(a@ =~= b@);
    true
}

/// Whether `prefix` is a prefix of `s`.
pub open spec fn has_prefix(s: Seq<char>, prefix: Seq<char>) -> bool {
    prefix.len() <= s.len() && s.take(prefix.len() as int) == prefix
}

/// Whether `suffix` is a suffix of `s`.
pub open spec fn has_suffix(s: Seq<char>, suffix: Seq<char>) -> bool {
    suffix.len() <= s.len() && s.skip(s.len() - suffix.len()) == suffix
}

/// Whether `v[at..]` begins with `prefix`.
pub fn prefix_at(v: &Vec<char>, at: usize, prefix: &Vec<char>) -> (r: bool)
    requires
        at <= v@.len(),
    ensures
        r == has_prefix(v@.skip(at as int), prefix@),
{
    let n = v.len();
    if prefix.len() > n - at {
        return false;
    }
    let mut i: usize = 0;
    while i < prefix.len()
        invariant
            n == v@.len(),
            at + prefix@.len() <= n,
            i <= prefix@.len(),
            forall|k: int| 0 <= k < i ==> v@[at + k] == prefix@[k],
        decreases prefix@.len() - i,
    {
        if v[at + i] != prefix[i] {
            assert(v@.skip(at as int).take(prefix@.len() as int)[i as int] == v@[at + i]);
            return false;
        }
        i = i + 1;
    }
    assert(v@.skip(at as int).take(prefix@.len() as int) =~= prefix@);
    true
}

/// Whether `v[..end]` ends with `suffix`.
pub fn suffix_before(v: &Vec<char>, end: usize, suffix: &Vec<char>) -> (r: bool)
    requires
        end <= v@.len(),
    ensures
        r == has_suffix(v@.take(end as int), suffix@),
{
    if suffix.len() > end {
        return false;
    }
    let base = end - suffix.len();
    let mut i: usize = 0;
    while i < suffix.len()
        invariant
            base + suffix@.len() == end <= v@.len(),
            i <= suffix@.len(),
            forall|k: int| 0 <= k < i ==> v@[base + k] == suffix@[k],
        decreases suffix@.len() - i,
    {
        if v[base + i] != suffix[i] {
            assert(v@.take(end as int).skip(base as int)[i as int] == v@[base + i]);
            return false;
        }
        i = i + 1;
    }
    assert(v@.take(end as int).skip(base as int) =~= suffix@);
    true
}

/// ASCII lower-casing of one character; other characters are unchanged.
pub open spec fn ascii_lower(c: char) -> char {
    if 'A' <= c <= 'Z' {
        ((c as u32) + 32) as char
    } else {
        c
    }
}

/// Equality up to ASCII case, as `str::eq_ignore_ascii_case` decides it.
pub open spec fn eq_ignore_case(a: Seq<char>, b: Seq<char>) -> bool {
    a.len() == b.len() && forall|i: int| 0 <= i < a.len() ==> ascii_lower(#[trigger] a[i])
        == ascii_lower(b[i])
}

pub fn lower_ascii(c: char) -> (r: char)
    ensures
        r == ascii_lower(c),
{
    if 'A' <= c && c <= 'Z' {
        let v: u8 = (c as u8) + 32;
        v as char
    } else {
        c
    }
}

/// Whether `a` and `b` are equal up to ASCII case.
pub fn eq_ignore_ascii_case(a: &str, b: &str) -> (r: bool)
    ensures
        r == eq_ignore_case(a@, b@),
{
    let x = chars_of(a);
    let y = chars_of(b);
    if x.len() != y.len() {
        return false;
    }
    let mut i: usize = 0;
    while i < x.len()
        invariant
            x@ == a@,
            y@ == b@,
            x@.len() == y@.len(),
            i <= x@.len(),
            forall|k: int| 0 <= k < i ==> ascii_lower(#[trigger] x@[k]) == ascii_lower(y@[k]),
        decreases x@.len() - i,
    {
        if lower_ascii(x[i]) != lower_ascii(y[i]) {
            return false;
        }
        i = i + 1;
    }
    true
}

/// The decimal digits of `n`.
pub open spec fn decimal(n: nat) -> Seq<char>
    decreases n,
{
    if n < 10 {
        seq![digit(n)]
    } else {
        decimal(n / 10).push(digit(n % 10))
    }
}

pub open spec fn digit(d: nat) -> char {
    (('0' as u32) + d) as char
}

/// `n` written in decimal, as `usize::to_string` writes it.
pub fn decimal_string(n: usize) -> (s: String)
    ensures
        s@ == decimal(n as nat),
    decreases n,
{
    if n < 10 {
        let mut s = String::new();
        s.push(digit_char(n));
        assert(s@ =~= seq![digit(n as nat)]);
        s
    } else {
        let mut s = decimal_string(n / 10);
        s.push(digit_char(n % 10));
        s
    }
}

fn digit_char(d: usize) -> (c: char)
    requires
        d < 10,
    ensures
        c == digit(d as nat),
{
    let v: u8 = 0x30u8 + (d as u8);
    v as char
}


/// How many characters precede the first `c` in `s` (all of them if there is
/// none).
pub open spec fn len_before(s: Seq<char>, c: char) -> nat
    decreases s.len(),
{
    if s.len() == 0 || s[0] == c {
        0
    } else {
        1 + len_before(s.drop_first(), c)
    }
}

/// The part of `s` before its first `c`, as `s.split(c).next()` gives it.
pub open spec fn before_first(s: Seq<char>, c: char) -> Seq<char> {
    s.take(len_before(s, c) as int)
}

/// The index of the first `c` in `v`, or the length of `v`.
pub fn position_of(v: &Vec<char>, c: char) -> (r: usize)
    ensures
        r == len_before(v@, c),
        r <= v@.len(),
{
    let n = v.len();
    let mut i: usize = 0;
    assert(v@.skip(0) =~= v@);
    while i < n && v[i] != c
        invariant
            i <= n == v@.len(),
            len_before(v@, c) == i + len_before(v@.skip(i as int), c),
        decreases n - i,
    {
        assert(v@.skip(i as int)[0] == v@[i as int]);
        assert(v@.skip(i as int).drop_first() =~= v@.skip(i + 1));
        i = i + 1;
    }
    if i < n {
        assert(v@.skip(i as int)[0] == v@[i as int]);
    }
    i
}


/// How many of the lines are not blank.
pub open spec fn count_nonblank(ls: Seq<Seq<char>>) -> nat
    decreases ls.len(),
{
    if ls.len() == 0 {
        0
    } else {
        count_nonblank(ls.drop_last()) + if trim(ls.last()).len() > 0 {
            1nat
        } else {
            0nat
        }
    }
}

/// The parts that are not blank, in order.
pub open spec fn nonblank(parts: Seq<Seq<char>>) -> Seq<Seq<char>>
    decreases parts.len(),
{
    if parts.len() == 0 {
        seq![]
    } else if trim(parts.last()).len() > 0 {
        nonblank(parts.drop_last()).push(parts.last())
    } else {
        nonblank(parts.drop_last())
    }
}

/// The parts joined with line feeds between them, as `join("\n")` gives.
pub open spec fn join_lines(parts: Seq<Seq<char>>) -> Seq<char>
    decreases parts.len(),
{
    if parts.len() == 0 {
        seq![]
    } else if parts.len() == 1 {
        parts[0]
    } else {
        join_lines(parts.drop_last()) + seq!['\n'] + parts.last()
    }
}

/// How many lines of `s` are not blank.
pub fn count_nonblank_lines(s: &str) -> (r: usize)
    ensures
        r == count_nonblank(lines(s@)),
{
    let v = chars_of(s);
    let ls = split_lines(&v);
    let ghost all = char_views(ls@);
    let mut count: usize = 0;
    let mut i: usize = 0;
    while i < ls.len()
        invariant
            i <= ls@.len(),
            all == char_views(ls@),
            count == count_nonblank(all.take(i as int)),
            count <= i,
        decreases ls@.len() - i,
    {
        let (a, b) = trim_bounds(&ls[i]);
        assert(all.take(i + 1).drop_last() =~= all.take(i as int));
        assert(all.take(i + 1).last() == ls@[i as int]@);
        if a < b {
            count = count + 1;
        }
        i = i + 1;
    }
    assert(all.take(ls@.len() as int) =~= all);
    count
}

/// The parts that are not blank, joined with line feeds.
pub fn join_nonblank(parts: &Vec<String>) -> (r: String)
    ensures
        r@ == join_lines(nonblank(string_views(parts@))),
{
    let ghost all = string_views(parts@);
    let mut out = String::new();
    let mut any = false;
    let mut i: usize = 0;
    while i < parts.len()
        invariant
            i <= parts@.len(),
            all == string_views(parts@),
            out@ == join_lines(nonblank(all.take(i as int))),
            any == (nonblank(all.take(i as int)).len() > 0),
        decreases parts@.len() - i,
    {
        let part = &parts[i];
        assert(all.take(i + 1).drop_last() =~= all.take(i as int));
        assert(all.take(i + 1).last() == part@);
        if !is_blank(part.as_str()) {
            let ghost prev = nonblank(all.take(i as int));
            if any {
                out = out.concat("\n").concat(part.as_str());
                proof {
                    reveal_strlit("\n");
                    let now = prev.push(part@);
                    assert(now.drop_last() =~= prev);
                }
            } else {
                out = out.concat(part.as_str());
                proof {
                    let now = prev.push(part@);
                    assert(now.len() == 1);
                    assert(out@ =~= now[0]);
                }
            }
            any = true;
        }
        i = i + 1;
    }
    assert(all.take(parts@.len() as int) =~= all);
    out
}


/// The parts joined with `sep` between them, as `join(sep)` gives.
pub open spec fn joined(parts: Seq<Seq<char>>, sep: Seq<char>) -> Seq<char>
    decreases parts.len(),
{
    if parts.len() == 0 {
        seq![]
    } else if parts.len() == 1 {
        parts[0]
    } else {
        joined(parts.drop_last(), sep) + sep + parts.last()
    }
}

/// The strings joined with `sep` between them.
pub fn join_strings(parts: &Vec<String>, sep: &str) -> (r: String)
    ensures
        r@ == joined(string_views(parts@), sep@),
{
    let ghost all = string_views(parts@);
    let mut out = String::new();
    let mut i: usize = 0;
    while i < parts.len()
        invariant
            i <= parts@.len(),
            all == string_views(parts@),
            out@ == joined(all.take(i as int), sep@),
        decreases parts@.len() - i,
    {
        let part = &parts[i];
        assert(all.take(i + 1).drop_last() =~= all.take(i as int));
        assert(all.take(i + 1).last() == part@);
        if i == 0 {
            out = out.concat(part.as_str());
            assert(out@ =~= all.take(1)[0]);
        } else {
            out = out.concat(sep).concat(part.as_str());
        }
        i = i + 1;
    }
    assert(all.take(parts@.len() as int) =~= all);
    out
}


/// ASCII case folding touches only the letters `A` to `Z`: two characters
/// fold together exactly when they are equal or are one ASCII letter in its
/// two cases. Digits, punctuation and every other character stay apart.
pub proof fn law_ascii_fold_only_letters(c: char, d: char)
    ensures
        ascii_lower(c) == ascii_lower(d) <==> (c == d || ('A' <= c <= 'Z' && d as u32 == c as u32
            + 32) || ('A' <= d <= 'Z' && c as u32 == d as u32 + 32)),
        !('A' <= c <= 'Z') ==> ascii_lower(c) == c,
        'A' <= c <= 'Z' ==> ascii_lower(c) as u32 == c as u32 + 32,
{
}

/// Two texts equal up to ASCII case have the same length and the same
/// character at every position where either holds something other than an
/// ASCII letter.
pub proof fn law_ignore_case_keeps_other_characters(a: Seq<char>, b: Seq<char>, i: int)
    requires
        eq_ignore_case(a, b),
        0 <= i < a.len(),
        !(('A' <= a[i] <= 'Z') || ('a' <= a[i] <= 'z')) || !(('A' <= b[i] <= 'Z') || ('a'
            <= b[i] <= 'z')),
    ensures
        a.len() == b.len(),
        a[i] == b[i],
{
    law_ascii_fold_only_letters(a[i], b[i]);
}

} // verus!
