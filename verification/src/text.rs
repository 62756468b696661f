//! Character-level text helpers.
//!
//! Every parser in this crate works on a `Vec<char>` and states its result
//! over `Seq<char>`, the view that Verus gives `str` and `String`.

use vstd::prelude::*;

verus! {

/// The ASCII lower-case form of `c`; any other character is left alone.
pub open spec fn lower_char(c: char) -> char {
    if 'A' <= c && c <= 'Z' {
        ((c as u8) + 32) as char
    } else {
        c
    }
}

/// `s` with every ASCII upper-case letter replaced by its lower-case form.
pub open spec fn ascii_lower(s: Seq<char>) -> Seq<char> {
    Seq::new(s.len(), |i: int| lower_char(s[i]))
}

/// Equality up to ASCII case.
pub open spec fn eq_ignore_case(a: Seq<char>, b: Seq<char>) -> bool {
    ascii_lower(a) == ascii_lower(b)
}

/// The ASCII upper-case form of `c`; any other character is left alone.
pub open spec fn upper_char(c: char) -> char {
    if 'a' <= c && c <= 'z' {
        ((c as u8) - 32) as char
    } else {
        c
    }
}

/// `s` with every ASCII lower-case letter replaced by its upper-case form.
pub open spec fn ascii_upper(s: Seq<char>) -> Seq<char> {
    Seq::new(s.len(), |i: int| upper_char(s[i]))
}

/// Whether every character of `s` is an ASCII character.
pub open spec fn all_ascii(s: Seq<char>) -> bool {
    forall|i: int| 0 <= i < s.len() ==> (#[trigger] s[i]) as u32 <= 127
}

/// The upper-case form that Unicode gives `s`.
pub uninterp spec fn unicode_upper(s: Seq<char>) -> Seq<char>;

/// The lower-case form that Unicode gives `s`.
pub uninterp spec fn unicode_lower(s: Seq<char>) -> Seq<char>;

/// The upper-case form of `s`: letter by letter for ASCII text, and as
/// Unicode defines it for any other text.
pub open spec fn upper_case(s: Seq<char>) -> Seq<char> {
    if all_ascii(s) {
        ascii_upper(s)
    } else {
        unicode_upper(s)
    }
}

/// The lower-case form of `s`: letter by letter for ASCII text, and as
/// Unicode defines it for any other text.
pub open spec fn lower_case(s: Seq<char>) -> Seq<char> {
    if all_ascii(s) {
        ascii_lower(s)
    } else {
        unicode_lower(s)
    }
}

/// The code points that carry Unicode's `White_Space` property.
pub open spec fn is_space(c: char) -> bool {
    let n = c as u32;
    (0x09 <= n && n <= 0x0D) || n == 0x20 || n == 0x85 || n == 0xA0 || n == 0x1680 || (0x2000 <= n
        && n <= 0x200A) || n == 0x2028 || n == 0x2029 || n == 0x202F || n == 0x205F || n == 0x3000
}

/// Whether `c` belongs to the class `what`: the one character given, or,
/// for `None`, white space.
pub open spec fn matches_class(c: char, what: Option<char>) -> bool {
    match what {
        Some(x) => c == x,
        None => is_space(c),
    }
}

/// `s` without its longest prefix of characters in `what`.
pub open spec fn strip_front(s: Seq<char>, what: Option<char>) -> Seq<char>
    decreases s.len(),
{
    if s.len() > 0 && matches_class(s[0], what) {
        strip_front(s.drop_first(), what)
    } else {
        s
    }
}

/// `s` without its longest suffix of characters in `what`.
pub open spec fn strip_back(s: Seq<char>, what: Option<char>) -> Seq<char>
    decreases s.len(),
{
    if s.len() > 0 && matches_class(s.last(), what) {
        strip_back(s.drop_last(), what)
    } else {
        s
    }
}

/// `s` with characters in `what` removed from both ends.
pub open spec fn strip(s: Seq<char>, what: Option<char>) -> Seq<char> {
    strip_back(strip_front(s, what), what)
}

/// `s` with white space removed from both ends.
pub open spec fn trim(s: Seq<char>) -> Seq<char> {
    strip(s, None)
}

/// Index of the first character of `s` in `what`, or `s.len()` if there is none.
pub open spec fn first_match(s: Seq<char>, what: Option<char>) -> int
    decreases s.len(),
{
    if s.len() == 0 {
        0
    } else if matches_class(s[0], what) {
        0
    } else {
        1 + first_match(s.drop_first(), what)
    }
}

/// The pieces of `s` between occurrences of `sep`; always at least one piece.
pub open spec fn split(s: Seq<char>, sep: char) -> Seq<Seq<char>>
    decreases s.len(),
{
    let i = first_match(s, Some(sep));
    if i < 0 || i >= s.len() {
        seq![s]
    } else {
        seq![s.take(i)] + split(s.skip(i + 1), sep)
    }
}

/// Whether `s` begins with `p`.
pub open spec fn has_prefix(s: Seq<char>, p: Seq<char>) -> bool {
    p.len() <= s.len() && s.take(p.len() as int) == p
}

/// Whether `s` ends with `p`.
pub open spec fn has_suffix(s: Seq<char>, p: Seq<char>) -> bool {
    p.len() <= s.len() && s.skip(s.len() - p.len()) == p
}

/// Whether `p` occurs in `s` as a contiguous run.
pub open spec fn contains_run(s: Seq<char>, p: Seq<char>) -> bool {
    exists|i: int| 0 <= i && i + p.len() <= s.len() && #[trigger] s.subrange(i, i + p.len()) == p
}

/// The views of a sequence of character vectors.
pub open spec fn views(v: Seq<Vec<char>>) -> Seq<Seq<char>> {
    v.map_values(|x: Vec<char>| x@)
}

/// The view of an optional string.
pub open spec fn opt_view(o: Option<String>) -> Option<Seq<char>> {
    match o {
        Some(s) => Some(s@),
        None => None,
    }
}

/// `first_match` is the least index holding a character of the class.
pub proof fn lemma_first_match(s: Seq<char>, what: Option<char>)
    ensures
        0 <= first_match(s, what) <= s.len(),
        forall|k: int| 0 <= k < first_match(s, what) ==> !matches_class(#[trigger] s[k], what),
        first_match(s, what) < s.len() ==> matches_class(s[first_match(s, what)], what),
    decreases s.len(),
{
    if s.len() > 0 && !matches_class(s[0], what) {
        let t = s.drop_first();
        lemma_first_match(t, what);
        assert forall|k: int| 0 <= k < first_match(s, what) implies !matches_class(
            #[trigger] s[k],
            what,
        ) by {
            if k > 0 {
                assert(s[k] == t[k - 1]);
            }
        }
        assert(first_match(s, what) < s.len() ==> s[first_match(s, what)] == t[first_match(
            t,
            what,
        )]);
    }
}

/// An index with the defining property of `first_match` is `first_match`.
pub proof fn lemma_first_match_is(s: Seq<char>, what: Option<char>, i: int)
    requires
        0 <= i <= s.len(),
        forall|k: int| 0 <= k < i ==> !matches_class(#[trigger] s[k], what),
        i < s.len() ==> matches_class(s[i], what),
    ensures
        first_match(s, what) == i,
{
    lemma_first_match(s, what);
    let j = first_match(s, what);
    if j < i {
        assert(!matches_class(s[j], what));
    } else if i < j {
        assert(!matches_class(s[i], what));
    }
}

/// The ASCII lower-case form of `c`.
pub fn to_lower_char(c: char) -> (r: char)
    ensures
        r == lower_char(c),
{
    if 'A' <= c && c <= 'Z' {
        ((c as u8) + 32u8) as char
    } else {
        c
    }
}

/// Whether `c` is white space.
pub fn is_space_char(c: char) -> (r: bool)
    ensures
        r == is_space(c),
{
    let n: u32 = c as u32;
    (0x09 <= n && n <= 0x0D) || n == 0x20 || n == 0x85 || n == 0xA0 || n == 0x1680 || (0x2000 <= n
        && n <= 0x200A) || n == 0x2028 || n == 0x2029 || n == 0x202F || n == 0x205F || n == 0x3000
}

/// Whether `c` belongs to the class `what`.
pub fn in_class(c: char, what: Option<char>) -> (r: bool)
    ensures
        r == matches_class(c, what),
{
    match what {
        Some(x) => c == x,
        None => is_space_char(c),
    }
}

/// The characters of `s`, in order.
pub fn chars_of(s: &str) -> (v: Vec<char>)
    ensures
        v@ == s@,
{
    let mut v: Vec<char> = Vec::new();
    for c in it: s.chars()
        invariant
            v@ == it.seq().take(it.index() as int),
    {
        v.push(c);
    }
    v
}

/// `String::push`: appends one character to the string.
#[verifier::external_body]
fn push_char(s: &mut String, c: char)
    ensures
        final(s)@ == old(s)@.push(c),
{
    s.push(c)
}

/// The string made of the characters of `v`.
pub fn string_of(v: &Vec<char>) -> (s: String)
    ensures
        s@ == v@,
{
    let mut s = String::new();
    let mut i: usize = 0;
    while i < v.len()
        invariant
            i <= v.len(),
            s@ == v@.take(i as int),
        decreases v.len() - i,
    {
        push_char(&mut s, v[i]);
        i += 1;
    }
    s
}

/// The characters of `v` from `from` up to, not including, `to`.
pub fn slice_of(v: &Vec<char>, from: usize, to: usize) -> (r: Vec<char>)
    requires
        from <= to <= v.len(),
    ensures
        r@ == v@.subrange(from as int, to as int),
{
    let mut r: Vec<char> = Vec::new();
    let mut i: usize = from;
    while i < to
        invariant
            from <= i <= to <= v.len(),
            r@ == v@.subrange(from as int, i as int),
        decreases to - i,
    {
        r.push(v[i]);
        i += 1;
    }
    r
}

/// Whether the two vectors hold the same characters.
pub fn same_chars(a: &Vec<char>, b: &Vec<char>) -> (r: bool)
    ensures
        r == (a@ == b@),
{
    if a.len() != b.len() {
        return false;
    }
    let mut i: usize = 0;
    while i < a.len()
        invariant
            i <= a.len(),
            a.len() == b.len(),
            a@.take(i as int) == b@.take(i as int),
        decreases a.len() - i,
    {
        if a[i] != b[i] {
            return false;
        }
        assert(a@.take(i + 1) =~= a@.take(i as int).push(a@[i as int]));
        assert(b@.take(i + 1) =~= b@.take(i as int).push(b@[i as int]));
        i += 1;
    }
    assert(a@ =~= a@.take(a.len() as int));
    assert(b@ =~= b@.take(b.len() as int));
    true
}

/// The ASCII lower-case form of `v`.
pub fn lower(v: &Vec<char>) -> (r: Vec<char>)
    ensures
        r@ == ascii_lower(v@),
{
    let mut r: Vec<char> = Vec::new();
    let mut i: usize = 0;
    while i < v.len()
        invariant
            i <= v.len(),
            r@ == ascii_lower(v@.take(i as int)),
        decreases v.len() - i,
    {
        r.push(to_lower_char(v[i]));
        assert(r@ =~= ascii_lower(v@.take(i + 1)));
        i += 1;
    }
    assert(v@ =~= v@.take(v.len() as int));
    r
}

/// Whether the two vectors are equal up to ASCII case.
pub fn same_ignore_case(a: &Vec<char>, b: &Vec<char>) -> (r: bool)
    ensures
        r == eq_ignore_case(a@, b@),
{
    let la = lower(a);
    let lb = lower(b);
    same_chars(&la, &lb)
}

/// Whether `v` begins with `p`.
pub fn starts_with(v: &Vec<char>, p: &Vec<char>) -> (r: bool)
    ensures
        r == has_prefix(v@, p@),
{
    if p.len() > v.len() {
        return false;
    }
    let head = slice_of(v, 0, p.len());
    assert(v@.subrange(0, p.len() as int) =~= v@.take(p.len() as int));
    same_chars(&head, p)
}

/// Whether `v` ends with `p`.
pub fn ends_with(v: &Vec<char>, p: &Vec<char>) -> (r: bool)
    ensures
        r == has_suffix(v@, p@),
{
    if p.len() > v.len() {
        return false;
    }
    let tail = slice_of(v, v.len() - p.len(), v.len());
    assert(v@.subrange(v.len() - p.len(), v.len() as int) =~= v@.skip(v.len() - p.len()));
    same_chars(&tail, p)
}

/// Whether `p` occurs in `v` as a contiguous run.
pub fn contains(v: &Vec<char>, p: &Vec<char>) -> (r: bool)
    ensures
        r == contains_run(v@, p@),
{
    if p.len() > v.len() {
        return false;
    }
    let last: usize = v.len() - p.len();
    let mut i: usize = 0;
    loop
        invariant
            i <= last,
            last == v.len() - p.len(),
            p.len() <= v.len(),
            forall|k: int| 0 <= k < i ==> #[trigger] v@.subrange(k, k + p.len()) != p@,
        decreases last - i,
    {
        let piece = slice_of(v, i, i + p.len());
        if same_chars(&piece, p) {
            return true;
        }
        if i == last {
            return false;
        }
        i += 1;
    }
}

/// Index of the first character of `v` at or after `from` that is in
/// `what`, or `v.len()` if there is none.
pub fn find_from(v: &Vec<char>, from: usize, what: Option<char>) -> (r: usize)
    requires
        from <= v.len(),
    ensures
        from <= r <= v.len(),
        r == from + first_match(v@.skip(from as int), what),
{
    let mut i: usize = from;
    while i < v.len() && !in_class(v[i], what)
        invariant
            from <= i <= v.len(),
            forall|k: int| from <= k < i ==> !matches_class(#[trigger] v@[k], what),
        decreases v.len() - i,
    {
        i += 1;
    }
    proof {
        let t = v@.skip(from as int);
        assert forall|k: int| 0 <= k < i - from implies !matches_class(#[trigger] t[k], what) by {
            assert(t[k] == v@[from + k]);
        }
        lemma_first_match_is(t, what, i - from);
    }
    i
}

/// `v` with characters in `what` removed from both ends.
pub fn stripped(v: &Vec<char>, what: Option<char>) -> (r: Vec<char>)
    ensures
        r@ == strip(v@, what),
{
    let n = v.len();
    let mut i: usize = 0;
    assert(v@.skip(0) =~= v@);
    while i < n && in_class(v[i], what)
        invariant
            i <= n,
            n == v.len(),
            strip_front(v@, what) == strip_front(v@.skip(i as int), what),
        decreases n - i,
    {
        assert(v@.skip(i as int).drop_first() =~= v@.skip(i + 1));
        i += 1;
    }
    assert(strip_front(v@, what) == v@.skip(i as int));
    let mut j: usize = n;
    assert(v@.skip(i as int) =~= v@.subrange(i as int, j as int));
    while j > i && in_class(v[j - 1], what)
        invariant
            i <= j <= n,
            n == v.len(),
            strip(v@, what) == strip_back(v@.subrange(i as int, j as int), what),
        decreases j - i,
    {
        assert(v@.subrange(i as int, j as int).drop_last() =~= v@.subrange(i as int, j - 1));
        j -= 1;
    }
    slice_of(v, i, j)
}

/// `v` with white space removed from both ends.
pub fn trimmed(v: &Vec<char>) -> (r: Vec<char>)
    ensures
        r@ == trim(v@),
{
    stripped(v, None)
}

/// The pieces of `v` between occurrences of `sep`.
pub fn split_on(v: &Vec<char>, sep: char) -> (r: Vec<Vec<char>>)
    ensures
        views(r@) == split(v@, sep),
{
    let mut r: Vec<Vec<char>> = Vec::new();
    let mut start: usize = 0;
    assert(v@.skip(0) =~= v@);
    assert(views(r@) + split(v@, sep) =~= split(v@, sep));
    loop
        invariant_except_break
            start <= v.len(),
            split(v@, sep) == views(r@) + split(v@.skip(start as int), sep),
        ensures
            views(r@) == split(v@, sep),
        decreases v.len() - start,
    {
        let end = find_from(v, start, Some(sep));
        let piece = slice_of(v, start, end);
        let ghost rest = v@.skip(start as int);
        let ghost before = r@;
        assert(rest.take(end - start) =~= piece@);
        r.push(piece);
        assert(views(r@) =~= views(before) + seq![piece@]);
        if end >= v.len() {
            assert(rest.take(end - start) =~= rest);
            assert(split(rest, sep) == seq![rest]);
            break ;
        }
        assert(rest.skip(end - start + 1) =~= v@.skip(end + 1));
        assert(split(rest, sep) == seq![piece@] + split(v@.skip(end + 1), sep));
        start = end + 1;
    }
    r
}

/// Index of the first character of `v` at or after `from` that is not in
/// `what`, or `v.len()` if there is none.
pub fn skip_from(v: &Vec<char>, from: usize, what: Option<char>) -> (r: usize)
    requires
        from <= v.len(),
    ensures
        from <= r <= v.len(),
        v@.skip(r as int) == strip_front(v@.skip(from as int), what),
{
    let mut i: usize = from;
    while i < v.len() && in_class(v[i], what)
        invariant
            from <= i <= v.len(),
            strip_front(v@.skip(from as int), what) == strip_front(v@.skip(i as int), what),
        decreases v.len() - i,
    {
        assert(v@.skip(i as int).drop_first() =~= v@.skip(i + 1));
        i += 1;
    }
    i
}

/// Whether the two strings hold the same characters.
pub fn same_text(a: &str, b: &str) -> (r: bool)
    ensures
        r == (a@ == b@),
{
    let x = chars_of(a);
    let y = chars_of(b);
    same_chars(&x, &y)
}

/// A copy of an optional string.
pub fn copy_opt(o: &Option<String>) -> (r: Option<String>)
    ensures
        r == *o,
{
    match o {
        Some(s) => Some(s.clone()),
        None => None,
    }
}

/// The view of an optional vector of characters.
pub open spec fn opt_chars(o: Option<Vec<char>>) -> Option<Seq<char>> {
    match o {
        Some(v) => Some(v@),
        None => None,
    }
}

/// Appends the characters of `tail` to `v`.
pub fn append_chars(v: &mut Vec<char>, tail: &Vec<char>)
    ensures
        final(v)@ == old(v)@ + tail@,
{
    let mut i: usize = 0;
    while i < tail.len()
        invariant
            i <= tail.len(),
            v@ == old(v)@ + tail@.take(i as int),
        decreases tail.len() - i,
    {
        v.push(tail[i]);
        assert(tail@.take(i + 1) =~= tail@.take(i as int).push(tail@[i as int]));
        assert(v@ =~= old(v)@ + tail@.take(i + 1));
        i += 1;
    }
    assert(tail@.take(tail.len() as int) =~= tail@);
}

/// `str::to_uppercase`: the upper-case form that Unicode gives the text.
#[verifier::external_body]
fn to_unicode_upper(s: &str) -> (r: String)
    ensures
        r@ == unicode_upper(s@),
{
    s.to_uppercase()
}

/// `str::to_lowercase`: the lower-case form that Unicode gives the text.
#[verifier::external_body]
fn to_unicode_lower(s: &str) -> (r: String)
    ensures
        r@ == unicode_lower(s@),
{
    s.to_lowercase()
}

/// The ASCII upper-case form of `c`.
pub fn to_upper_char(c: char) -> (r: char)
    ensures
        r == upper_char(c),
{
    if 'a' <= c && c <= 'z' {
        ((c as u8) - 32u8) as char
    } else {
        c
    }
}

/// Whether every character of `v` is an ASCII character.
pub fn is_all_ascii(v: &Vec<char>) -> (r: bool)
    ensures
        r == all_ascii(v@),
{
    let mut i: usize = 0;
    while i < v.len()
        invariant
            i <= v.len(),
            forall|k: int| 0 <= k < i ==> (#[trigger] v@[k]) as u32 <= 127,
        decreases v.len() - i,
    {
        if v[i] as u32 > 127 {
            return false;
        }
        i += 1;
    }
    true
}

/// The upper-case form of `s`.
pub fn upper_cased(s: &str) -> (r: Vec<char>)
    ensures
        r@ == upper_case(s@),
{
    let v = chars_of(s);
    if !is_all_ascii(&v) {
        return chars_of(to_unicode_upper(s).as_str());
    }
    let mut r: Vec<char> = Vec::new();
    let mut i: usize = 0;
    while i < v.len()
        invariant
            i <= v.len(),
            r@ == ascii_upper(v@.take(i as int)),
        decreases v.len() - i,
    {
        r.push(to_upper_char(v[i]));
        assert(r@ =~= ascii_upper(v@.take(i + 1)));
        i += 1;
    }
    assert(v@ =~= v@.take(v.len() as int));
    r
}

/// The lower-case form of `s`.
pub fn lower_cased(s: &str) -> (r: Vec<char>)
    ensures
        r@ == lower_case(s@),
{
    let v = chars_of(s);
    if !is_all_ascii(&v) {
        return chars_of(to_unicode_lower(s).as_str());
    }
    lower(&v)
}

} // verus!
