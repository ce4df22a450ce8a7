use vstd::prelude::*;

verus! {

broadcast use vstd::string::group_string_axioms;

// ---------------------------------------------------------------------------
// Conversions between strings and character vectors
// ---------------------------------------------------------------------------

/// The characters of `s`, in order.
pub fn chars_of(s: &str) -> (r: Vec<char>)
    ensures
        r@ == s@,
{
    let mut out: Vec<char> = Vec::new();
    for c in it: s.chars()
        invariant
            it.seq() == s@,
            out@ == it.seq().take(it.index() as int),
    {
        out.push(c);
    }
    out
}

/// `String: FromIterator<char>`: the string made of `chars`, in order.
#[verifier::external_body]
pub(crate) fn string_of(chars: &[char]) -> (r: String)
    ensures
        r@ == chars@,
{
    chars.iter().collect()
}

/// A copy of `s[from..to]`.
pub fn copy_range(s: &[char], from: usize, to: usize) -> (r: Vec<char>)
    requires
        from <= to <= s@.len(),
    ensures
        r@ == s@.subrange(from as int, to as int),
{
    let mut out: Vec<char> = Vec::new();
    let mut i = from;
    while i < to
        invariant
            from <= i <= to <= s@.len(),
            out@ == s@.subrange(from as int, i as int),
        decreases to - i,
    {
        out.push(s[i]);
        i += 1;
    }
    out
}

/// Appends `extra` to `out`.
pub fn push_all(out: &mut Vec<char>, extra: &[char])
    ensures
        final(out)@ == old(out)@ + extra@,
{
    let mut i: usize = 0;
    while i < extra.len()
        invariant
            i <= extra@.len(),
            out@ == old(out)@ + extra@.take(i as int),
        decreases extra.len() - i,
    {
        out.push(extra[i]);
        i += 1;
    }
    assert(extra@.take(extra@.len() as int) =~= extra@);
}

/// Whether two character sequences are equal.
pub fn chars_eq(a: &[char], b: &[char]) -> (r: bool)
    ensures
        r == (a@ == b@),
{
    if a.len() != b.len() {
        return false;
    }
    let mut i: usize = 0;
    while i < a.len()
        invariant
            a@.len() == b@.len(),
            i <= a@.len(),
            forall|j: int| 0 <= j < i ==> a@[j] == b@[j],
        decreases a.len() - i,
    {
        if a[i] != b[i] {
            return false;
        }
        i += 1;
    }
    assert(a@ =~= b@);
    true
}

// ---------------------------------------------------------------------------
// Whitespace and trimming
// ---------------------------------------------------------------------------

/// The characters with the Unicode `White_Space` property, as `char::is_whitespace`
/// documents them.
pub open spec fn is_whitespace(c: char) -> bool {
    let n = c as u32;
    ||| 0x09 <= n <= 0x0D
    ||| n == 0x20
    ||| n == 0x85
    ||| n == 0xA0
    ||| n == 0x1680
    ||| 0x2000 <= n <= 0x200A
    ||| n == 0x2028
    ||| n == 0x2029
    ||| n == 0x202F
    ||| n == 0x205F
    ||| n == 0x3000
}

pub fn is_whitespace_char(c: char) -> (r: bool)
    ensures
        r == is_whitespace(c),
{
    let n = c as u32;
    (0x09 <= n && n <= 0x0D) || n == 0x20 || n == 0x85 || n == 0xA0 || n == 0x1680 || (0x2000
        <= n && n <= 0x200A) || n == 0x2028 || n == 0x2029 || n == 0x202F || n == 0x205F || n
        == 0x3000
}

/// `s` without its leading whitespace.
pub open spec fn trim_start(s: Seq<char>) -> Seq<char>
    decreases s.len(),
{
    if s.len() > 0 && is_whitespace(s[0]) {
        trim_start(s.drop_first())
    } else {
        s
    }
}

/// `s` without its trailing whitespace.
pub open spec fn trim_end(s: Seq<char>) -> Seq<char>
    decreases s.len(),
{
    if s.len() > 0 && is_whitespace(s.last()) {
        trim_end(s.drop_last())
    } else {
        s
    }
}

/// `str::trim`: `s` without leading and trailing whitespace.
pub open spec fn trim(s: Seq<char>) -> Seq<char> {
    trim_end(trim_start(s))
}

/// `s` without the copies of `c` at its start.
pub open spec fn strip_start_char(s: Seq<char>, c: char) -> Seq<char>
    decreases s.len(),
{
    if s.len() > 0 && s[0] == c {
        strip_start_char(s.drop_first(), c)
    } else {
        s
    }
}

/// `str::trim_end_matches` with a character: `s` without the copies of `c` at its end.
pub open spec fn strip_end_char(s: Seq<char>, c: char) -> Seq<char>
    decreases s.len(),
{
    if s.len() > 0 && s.last() == c {
        strip_end_char(s.drop_last(), c)
    } else {
        s
    }
}

/// `str::trim_matches` with a character: `s` without the copies of `c` at either end.
pub open spec fn strip_char(s: Seq<char>, c: char) -> Seq<char> {
    strip_end_char(strip_start_char(s, c), c)
}

proof fn lemma_trim_start_step(s: Seq<char>, k: int)
    requires
        0 <= k < s.len(),
        is_whitespace(s[k]),
    ensures
        trim_start(s.skip(k)) == trim_start(s.skip(k + 1)),
{
    assert(s.skip(k).drop_first() =~= s.skip(k + 1));
}

proof fn lemma_trim_end_step(s: Seq<char>, k: int)
    requires
        0 < k <= s.len(),
        is_whitespace(s[k - 1]),
    ensures
        trim_end(s.take(k)) == trim_end(s.take(k - 1)),
{
    assert(s.take(k).drop_last() =~= s.take(k - 1));
}

proof fn lemma_strip_start_step(s: Seq<char>, c: char, k: int)
    requires
        0 <= k < s.len(),
        s[k] == c,
    ensures
        strip_start_char(s.skip(k), c) == strip_start_char(s.skip(k + 1), c),
{
    assert(s.skip(k).drop_first() =~= s.skip(k + 1));
}

proof fn lemma_strip_end_step(s: Seq<char>, c: char, k: int)
    requires
        0 < k <= s.len(),
        s[k - 1] == c,
    ensures
        strip_end_char(s.take(k), c) == strip_end_char(s.take(k - 1), c),
{
    assert(s.take(k).drop_last() =~= s.take(k - 1));
}

/// The bounds of `s.trim()` within `s`.
pub fn trim_bounds(s: &[char]) -> (r: (usize, usize))
    ensures
        r.0 <= r.1 <= s@.len(),
        s@.subrange(r.0 as int, r.1 as int) == trim(s@),
{
    let mut i: usize = 0;
    assert(s@.skip(0) =~= s@);
    while i < s.len() && is_whitespace_char(s[i])
        invariant
            i <= s@.len(),
            trim_start(s@) == trim_start(s@.skip(i as int)),
        decreases s.len() - i,
    {
        proof {
            lemma_trim_start_step(s@, i as int);
        }
        i += 1;
    }
    let ghost t = s@.skip(i as int);
    assert(trim_start(s@) == t);
    let mut j: usize = s.len();
    assert(t.take(t.len() as int) =~= t);
    while j > i && is_whitespace_char(s[j - 1])
        invariant
            i <= j <= s@.len(),
            t == s@.skip(i as int),
            trim_end(t) == trim_end(t.take(j - i)),
        decreases j,
    {
        proof {
            lemma_trim_end_step(t, j - i);
        }
        j -= 1;
    }
    assert(t.take(j - i) =~= s@.subrange(i as int, j as int));
    (i, j)
}

/// `s.trim()`.
pub fn trimmed(s: &[char]) -> (r: Vec<char>)
    ensures
        r@ == trim(s@),
{
    let (a, b) = trim_bounds(s);
    copy_range(s, a, b)
}

/// `s.trim_matches(c)`.
pub fn strip_char_exec(s: &[char], c: char) -> (r: Vec<char>)
    ensures
        r@ == strip_char(s@, c),
{
    let mut i: usize = 0;
    assert(s@.skip(0) =~= s@);
    while i < s.len() && s[i] == c
        invariant
            i <= s@.len(),
            strip_start_char(s@, c) == strip_start_char(s@.skip(i as int), c),
        decreases s.len() - i,
    {
        proof {
            lemma_strip_start_step(s@, c, i as int);
        }
        i += 1;
    }
    let ghost t = s@.skip(i as int);
    let mut j: usize = s.len();
    assert(t.take(t.len() as int) =~= t);
    while j > i && s[j - 1] == c
        invariant
            i <= j <= s@.len(),
            t == s@.skip(i as int),
            strip_end_char(t, c) == strip_end_char(t.take(j - i), c),
        decreases j,
    {
        proof {
            lemma_strip_end_step(t, c, j - i);
        }
        j -= 1;
    }
    assert(t.take(j - i) =~= s@.subrange(i as int, j as int));
    copy_range(s, i, j)
}

/// `s.trim_end_matches(c)`.
pub fn strip_end_char_exec(s: &[char], c: char) -> (r: Vec<char>)
    ensures
        r@ == strip_end_char(s@, c),
{
    let mut j: usize = s.len();
    assert(s@.take(s@.len() as int) =~= s@);
    while j > 0 && s[j - 1] == c
        invariant
            j <= s@.len(),
            strip_end_char(s@, c) == strip_end_char(s@.take(j as int), c),
        decreases j,
    {
        proof {
            lemma_strip_end_step(s@, c, j as int);
        }
        j -= 1;
    }
    assert(s@.take(j as int) =~= s@.subrange(0, j as int));
    copy_range(s, 0, j)
}

// ---------------------------------------------------------------------------
// Searching
// ---------------------------------------------------------------------------

/// `needle` occurs in `hay` starting at position `i`.
pub open spec fn occurs_at(hay: Seq<char>, needle: Seq<char>, i: int) -> bool {
    0 <= i && i + needle.len() <= hay.len() && hay.subrange(i, i + needle.len()) == needle
}

/// The first position at or after `from` where `needle` occurs.
pub open spec fn find_from(hay: Seq<char>, needle: Seq<char>, from: int) -> Option<int>
    decreases hay.len() + 1 - from,
{
    if from < 0 || from + needle.len() > hay.len() {
        None
    } else if occurs_at(hay, needle, from) {
        Some(from)
    } else {
        find_from(hay, needle, from + 1)
    }
}

/// `str::find`: the first position where `needle` occurs in `hay`.
pub open spec fn find(hay: Seq<char>, needle: Seq<char>) -> Option<int> {
    find_from(hay, needle, 0)
}

/// `str::contains`.
pub open spec fn has_substring(hay: Seq<char>, needle: Seq<char>) -> bool {
    find(hay, needle) is Some
}

/// The last position before `end` where `needle` occurs.
pub open spec fn rfind_before(hay: Seq<char>, needle: Seq<char>, end: int) -> Option<int>
    decreases end,
{
    if end <= 0 {
        None
    } else if occurs_at(hay, needle, end - 1) {
        Some(end - 1)
    } else {
        rfind_before(hay, needle, end - 1)
    }
}

/// `str::rfind`: the last position where `needle` occurs in `hay`.
pub open spec fn rfind(hay: Seq<char>, needle: Seq<char>) -> Option<int> {
    rfind_before(hay, needle, hay.len() + 1 as int)
}

/// `str::starts_with`.
pub open spec fn starts_with(s: Seq<char>, prefix: Seq<char>) -> bool {
    prefix.len() <= s.len() && s.subrange(0, prefix.len() as int) == prefix
}

/// `str::ends_with`.
pub open spec fn ends_with(s: Seq<char>, suffix: Seq<char>) -> bool {
    suffix.len() <= s.len() && s.subrange(s.len() - suffix.len(), s.len() as int) == suffix
}

/// What `find_from` returns: the first occurrence at or after `from`, if any.
pub proof fn lemma_find_from(hay: Seq<char>, needle: Seq<char>, from: int)
    requires
        from >= 0,
    ensures
        match find_from(hay, needle, from) {
            Some(k) => from <= k && occurs_at(hay, needle, k) && forall|j: int|
                from <= j < k ==> !occurs_at(hay, needle, j),
            None => forall|j: int| from <= j ==> !occurs_at(hay, needle, j),
        },
    decreases hay.len() + 1 - from,
{
    if from + needle.len() > hay.len() {
    } else if occurs_at(hay, needle, from) {
    } else {
        lemma_find_from(hay, needle, from + 1);
    }
}

/// `find_from` finds the first occurrence at or after `from`.
pub proof fn lemma_find_from_at(hay: Seq<char>, needle: Seq<char>, from: int, k: int)
    requires
        0 <= from <= k,
        occurs_at(hay, needle, k),
        forall|j: int| from <= j < k ==> !occurs_at(hay, needle, j),
    ensures
        find_from(hay, needle, from) == Some(k),
    decreases k - from,
{
    if from < k {
        lemma_find_from_at(hay, needle, from + 1, k);
    }
}

/// What `find` returns: the first occurrence, if any.
pub proof fn lemma_find(hay: Seq<char>, needle: Seq<char>)
    ensures
        match find(hay, needle) {
            Some(k) => occurs_at(hay, needle, k) && forall|j: int|
                0 <= j < k ==> !occurs_at(hay, needle, j),
            None => forall|j: int| !occurs_at(hay, needle, j),
        },
{
    lemma_find_from(hay, needle, 0);
}

/// What `rfind_before` returns: the last occurrence before `end`, if any.
pub proof fn lemma_rfind_before(hay: Seq<char>, needle: Seq<char>, end: int)
    ensures
        match rfind_before(hay, needle, end) {
            Some(k) => 0 <= k < end && occurs_at(hay, needle, k) && forall|j: int|
                k < j < end ==> !occurs_at(hay, needle, j),
            None => forall|j: int| j < end ==> !occurs_at(hay, needle, j),
        },
    decreases end,
{
    if end > 0 && !occurs_at(hay, needle, end - 1) {
        lemma_rfind_before(hay, needle, end - 1);
    }
}

pub open spec fn as_int(r: Option<usize>) -> Option<int> {
    match r {
        Some(k) => Some(k as int),
        None => None,
    }
}

/// Whether `needle` occurs in `hay` at position `i`.
pub fn occurs_at_exec(hay: &[char], needle: &[char], i: usize) -> (r: bool)
    ensures
        r == occurs_at(hay@, needle@, i as int),
{
    if i > hay.len() || needle.len() > hay.len() - i {
        return false;
    }
    let mut j: usize = 0;
    while j < needle.len()
        invariant
            i + needle.len() <= hay.len(),
            j <= needle@.len(),
            forall|k: int| 0 <= k < j ==> hay@[i + k] == needle@[k],
        decreases needle.len() - j,
    {
        if hay[i + j] != needle[j] {
            assert(hay@.subrange(i as int, i + needle@.len())[j as int] != needle@[j as int]);
            return false;
        }
        j += 1;
    }
    assert(hay@.subrange(i as int, i + needle@.len()) =~= needle@);
    true
}

/// `hay.find(needle)`.
pub fn find_exec(hay: &[char], needle: &[char]) -> (r: Option<usize>)
    ensures
        as_int(r) == find(hay@, needle@),
        r matches Some(k) ==> occurs_at(hay@, needle@, k as int),
{
    proof {
        lemma_find(hay@, needle@);
    }
    let mut i: usize = 0;
    while i <= hay.len()
        invariant
            find(hay@, needle@) == find_from(hay@, needle@, i as int),
        decreases hay.len() + 1 - i,
    {
        if needle.len() > hay.len() - i {
            return None;
        }
        if occurs_at_exec(hay, needle, i) {
            return Some(i);
        }
        proof {
            if needle@.len() == 0 {
                assert(hay@.subrange(i as int, i as int) =~= needle@);
            }
        }
        i += 1;
    }
    None
}

/// `hay.rfind(needle)`.
pub fn rfind_exec(hay: &[char], needle: &[char]) -> (r: Option<usize>)
    ensures
        as_int(r) == rfind(hay@, needle@),
        r matches Some(k) ==> occurs_at(hay@, needle@, k as int),
{
    proof {
        lemma_rfind_before(hay@, needle@, hay@.len() + 1 as int);
    }
    let mut end: usize = hay.len();
    assert(!occurs_at(hay@, needle@, hay@.len() + 1 - 1) ==> rfind(hay@, needle@) == rfind_before(hay@, needle@, hay@.len() as int));
    if occurs_at_exec(hay, needle, hay.len()) {
        return Some(hay.len());
    }
    while end > 0
        invariant
            end <= hay@.len(),
            rfind(hay@, needle@) == rfind_before(hay@, needle@, end as int),
        decreases end,
    {
        if occurs_at_exec(hay, needle, end - 1) {
            return Some(end - 1);
        }
        end -= 1;
    }
    None
}

/// `s.starts_with(prefix)`.
pub fn starts_with_exec(s: &[char], prefix: &[char]) -> (r: bool)
    ensures
        r == starts_with(s@, prefix@),
{
    occurs_at_exec(s, prefix, 0)
}

/// `s.ends_with(suffix)`.
pub fn ends_with_exec(s: &[char], suffix: &[char]) -> (r: bool)
    ensures
        r == ends_with(s@, suffix@),
{
    if suffix.len() > s.len() {
        return false;
    }
    occurs_at_exec(s, suffix, s.len() - suffix.len())
}

/// `hay.contains(needle)`.
pub fn contains_exec(hay: &[char], needle: &[char]) -> (r: bool)
    ensures
        r == has_substring(hay@, needle@),
{
    find_exec(hay, needle).is_some()
}

// ---------------------------------------------------------------------------
// Lines
// ---------------------------------------------------------------------------

/// The position of the first newline in `s`, or its length when there is none.
pub open spec fn newline_index(s: Seq<char>) -> nat
    decreases s.len(),
{
    if s.len() == 0 {
        0
    } else if s[0] == '\n' {
        0
    } else {
        1 + newline_index(s.drop_first())
    }
}

/// `l` without one trailing carriage return.
pub open spec fn strip_cr(l: Seq<char>) -> Seq<char> {
    if l.len() > 0 && l.last() == '\r' {
        l.drop_last()
    } else {
        l
    }
}

/// `str::lines`: the pieces of `s` ended by `\n` (or `\r\n`); a last piece without a line
/// ending counts when it is not empty, and keeps any carriage return.
pub open spec fn lines(s: Seq<char>) -> Seq<Seq<char>>
    decreases s.len(),
{
    if s.len() == 0 {
        seq![]
    } else {
        let k = newline_index(s);
        if k < s.len() {
            seq![strip_cr(s.take(k as int))] + lines(s.skip(k + 1 as int))
        } else {
            seq![s]
        }
    }
}

pub proof fn lemma_newline_index(t: Seq<char>, k: int)
    requires
        0 <= k <= t.len(),
        forall|j: int| 0 <= j < k ==> t[j] != '\n',
        k < t.len() ==> t[k] == '\n',
    ensures
        newline_index(t) == k,
    decreases k,
{
    if k > 0 {
        lemma_newline_index(t.drop_first(), k - 1);
    }
}

pub open spec fn views_of(v: Seq<Vec<char>>) -> Seq<Seq<char>> {
    v.map_values(|l: Vec<char>| l@)
}

/// The lines of `s`, as `str::lines` gives them.
pub fn split_lines(s: &[char]) -> (r: Vec<Vec<char>>)
    ensures
        views_of(r@) == lines(s@),
{
    let mut out: Vec<Vec<char>> = Vec::new();
    let mut current: Vec<char> = Vec::new();
    let mut start: usize = 0;
    let mut i: usize = 0;
    assert(s@.skip(0) =~= s@);
    assert(views_of(out@) =~= Seq::<Seq<char>>::empty());
    assert(views_of(out@) + lines(s@) =~= lines(s@));
    while i < s.len()
        invariant
            start <= i <= s@.len(),
            current@ == s@.subrange(start as int, i as int),
            forall|j: int| start <= j < i ==> s@[j] != '\n',
            lines(s@) == views_of(out@) + lines(s@.skip(start as int)),
        decreases s.len() - i,
    {
        if s[i] == '\n' {
            let ghost t = s@.skip(start as int);
            proof {
                lemma_newline_index(t, i - start);
                assert(t.take(i - start) =~= current@);
                assert(t.skip(i - start + 1) =~= s@.skip(i + 1));
            }
            let line = if current.len() > 0 && current[current.len() - 1] == '\r' {
                let n = current.len() - 1;
                copy_range(current.as_slice(), 0, n)
            } else {
                current
            };
            assert(line@ == strip_cr(t.take(i - start)));
            assert(views_of(out@.push(line)) =~= views_of(out@).push(line@));
            out.push(line);
            assert(lines(s@) == views_of(out@) + lines(s@.skip(i + 1)));
            current = Vec::new();
            start = i + 1;
        } else {
            current.push(s[i]);
        }
        i += 1;
    }
    let ghost t = s@.skip(start as int);
    proof {
        lemma_newline_index(t, t.len() as int);
        assert(t =~= current@);
    }
    if current.len() > 0 {
        assert(views_of(out@.push(current)) =~= views_of(out@).push(current@));
        out.push(current);
    } else {
        assert(views_of(out@) + seq![] =~= views_of(out@));
    }
    out
}

} // verus!

verus! {

/// Leading whitespace does not change what trimming keeps.
pub proof fn lemma_trim_start_skip(s: Seq<char>, k: int)
    requires
        0 <= k <= s.len(),
        forall|j: int| 0 <= j < k ==> is_whitespace(#[trigger] s[j]),
    ensures
        trim_start(s) == trim_start(s.skip(k)),
    decreases k,
{
    if k == 0 {
        assert(s.skip(0) =~= s);
    } else {
        lemma_trim_start_skip(s, k - 1);
        lemma_trim_start_step(s, k - 1);
    }
}

/// A text that starts and ends with non-whitespace is its own trim.
pub proof fn lemma_trim_noop(s: Seq<char>)
    requires
        s.len() > 0,
        !is_whitespace(s[0]),
        !is_whitespace(s.last()),
    ensures
        trim(s) == s,
{
}

/// A needle cannot occur where its first character does not.
pub proof fn lemma_not_occurs_at(hay: Seq<char>, needle: Seq<char>, j: int)
    requires
        needle.len() > 0,
        0 <= j < hay.len(),
        hay[j] != needle[0],
    ensures
        !occurs_at(hay, needle, j),
{
    if occurs_at(hay, needle, j) {
        assert(hay.subrange(j, j + needle.len())[0] == hay[j]);
    }
}

/// `find` gives `k` when the needle occurs at `k` and no character before `k` is its
/// first character.
pub proof fn lemma_find_first(hay: Seq<char>, needle: Seq<char>, k: int)
    requires
        needle.len() > 0,
        0 <= k,
        k + needle.len() <= hay.len(),
        hay.subrange(k, k + needle.len()) == needle,
        forall|j: int| 0 <= j < k ==> #[trigger] hay[j] != needle[0],
    ensures
        find(hay, needle) == Some(k),
{
    assert forall|j: int| 0 <= j < k implies !occurs_at(hay, needle, j) by {
        lemma_not_occurs_at(hay, needle, j);
    }
    lemma_find_from_at(hay, needle, 0, k);
}

/// `find` gives nothing when no character of the text is the needle's first character.
pub proof fn lemma_find_none(hay: Seq<char>, needle: Seq<char>)
    requires
        needle.len() > 0,
        forall|j: int| 0 <= j < hay.len() ==> #[trigger] hay[j] != needle[0],
    ensures
        find(hay, needle) is None,
{
    lemma_find(hay, needle);
    if find(hay, needle) is Some {
        let k = find(hay, needle)->0;
        lemma_not_occurs_at(hay, needle, k);
    }
}

} // verus!

verus! {

/// No line contains a newline.
pub open spec fn no_newlines(ls: Seq<Seq<char>>) -> bool {
    forall|i: int, j: int| 0 <= i < ls.len() && 0 <= j < ls[i].len() ==> #[trigger] ls[i][j] != '\n'
}

pub proof fn lemma_newline_index_props(s: Seq<char>)
    ensures
        newline_index(s) <= s.len(),
        forall|j: int| 0 <= j < newline_index(s) ==> s[j] != '\n',
        newline_index(s) < s.len() ==> s[newline_index(s) as int] == '\n',
    decreases s.len(),
{
    if s.len() > 0 && s[0] != '\n' {
        lemma_newline_index_props(s.drop_first());
        assert forall|j: int| 0 <= j < newline_index(s) implies s[j] != '\n' by {
            if j > 0 {
                assert(s[j] == s.drop_first()[j - 1]);
            }
        }
    }
}

/// The lines of a text contain no newline.
pub proof fn lemma_lines_no_newlines(s: Seq<char>)
    ensures
        no_newlines(lines(s)),
    decreases s.len(),
{
    if s.len() > 0 {
        lemma_newline_index_props(s);
        let k = newline_index(s);
        if k < s.len() {
            lemma_lines_no_newlines(s.skip(k + 1 as int));
            let first = strip_cr(s.take(k as int));
            let ls = lines(s);
            assert(ls == seq![first] + lines(s.skip(k + 1 as int)));
            assert forall|i: int, j: int| 0 <= i < ls.len() && 0 <= j < ls[i].len() implies #[trigger] ls[i][j] != '\n' by {
                if i == 0 {
                    assert(ls[0] == first);
                    assert(first[j] == s[j]);
                } else {
                    assert(ls[i] == lines(s.skip(k + 1 as int))[i - 1]);
                }
            }
        }
    }
}

/// A carriage return that `lines` strips is whitespace to `trim` anyway.
pub proof fn lemma_trim_strip_cr(l: Seq<char>)
    ensures
        trim(strip_cr(l)) == trim(l),
{
    if l.len() > 0 && l.last() == '\r' {
        let x = l.drop_last();
        assert(l =~= x.push('\r'));
        lemma_trim_start_push(x, '\r');
        assert(trim_start(seq!['\r']).len() == 0) by {
            assert(('\r' as u32) == 13);
            assert(is_whitespace('\r'));
            assert(seq!['\r'][0] == '\r');
            assert(seq!['\r'].drop_first() =~= Seq::<char>::empty());
            assert(trim_start(Seq::<char>::empty()) == Seq::<char>::empty());
        }
        if trim_start(x).len() > 0 {
            assert(trim_start(x).push('\r').drop_last() =~= trim_start(x));
        }
    }
}

proof fn lemma_trim_start_push(x: Seq<char>, c: char)
    ensures
        trim_start(x.push(c)) == if trim_start(x).len() == 0 {
            trim_start(seq![c])
        } else {
            trim_start(x).push(c)
        },
    decreases x.len(),
{
    if x.len() == 0 {
        assert(x.push(c) =~= seq![c]);
    } else if is_whitespace(x[0]) {
        assert(x.push(c).drop_first() =~= x.drop_first().push(c));
        lemma_trim_start_push(x.drop_first(), c);
    }
}

} // verus!

verus! {

/// Splitting at a newline: the lines of `u + "\n" + x` are those of `u + "\n"` followed by
/// those of `x`.
pub proof fn lemma_lines_split(u: Seq<char>, x: Seq<char>)
    ensures
        lines(u + seq!['\n'] + x) == lines(u + seq!['\n']) + lines(x),
    decreases u.len(),
{
    let s = u + seq!['\n'] + x;
    let s1 = u + seq!['\n'];
    lemma_newline_index_props(s1);
    let k = newline_index(s1);
    assert(s1[u.len() as int] == '\n');
    assert(k <= u.len());
    assert forall|j: int| 0 <= j < k implies s[j] != '\n' by {
        assert(s[j] == s1[j]);
    }
    assert(s[k as int] == s1[k as int]);
    lemma_newline_index(s, k as int);
    assert(s.take(k as int) =~= s1.take(k as int));
    if k < u.len() {
        let u2 = u.skip(k + 1 as int);
        assert(s.skip(k + 1 as int) =~= u2 + seq!['\n'] + x);
        assert(s1.skip(k + 1 as int) =~= u2 + seq!['\n']);
        lemma_lines_split(u2, x);
        assert(seq![strip_cr(s1.take(k as int))] + (lines(u2 + seq!['\n']) + lines(x))
            =~= seq![strip_cr(s1.take(k as int))] + lines(u2 + seq!['\n']) + lines(x));
    } else {
        assert(s.skip(k + 1 as int) =~= x);
        assert(s1.skip(k + 1 as int) =~= Seq::<char>::empty());
        assert(lines(Seq::<char>::empty()) =~= Seq::<Seq<char>>::empty());
        assert(seq![strip_cr(s1.take(k as int))] + Seq::<Seq<char>>::empty() =~= seq![strip_cr(s1.take(k as int))]);
    }
}

/// A line without a newline, ended by one, is a single line.
pub proof fn lemma_lines_single(e: Seq<char>)
    requires
        !e.contains('\n'),
    ensures
        lines(e + seq!['\n']) == seq![strip_cr(e)],
{
    let s = e + seq!['\n'];
    assert forall|j: int| 0 <= j < e.len() implies s[j] != '\n' by {
        assert(s[j] == e[j]);
        if e[j] == '\n' {
            assert(e.contains('\n'));
        }
    }
    lemma_newline_index(s, e.len() as int);
    assert(s.take(e.len() as int) =~= e);
    assert(s.skip(e.len() + 1 as int) =~= Seq::<char>::empty());
    assert(lines(Seq::<char>::empty()) =~= Seq::<Seq<char>>::empty());
    assert(seq![strip_cr(e)] + Seq::<Seq<char>>::empty() =~= seq![strip_cr(e)]);
}

} // verus!
