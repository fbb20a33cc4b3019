//! Text as sequences of characters: trimming, splitting, searching, comparing
//! without case, and decimal numbers.

use vstd::prelude::*;

verus! {

/// `String::push`: the character is appended, nothing else changes.
pub assume_specification[ String::push ](s: &mut String, ch: char)
    ensures
        final(s)@ == old(s)@.push(ch),
;

/// What `char::is_alphanumeric` says of a character: a Unicode letter or number.
pub uninterp spec fn char_is_alphanumeric(c: char) -> bool;

/// `char::is_alphanumeric`. Of the characters below U+0080 it holds exactly the
/// ASCII letters and digits.
#[verifier::external_body]
pub(crate) fn is_alphanumeric(c: char) -> (r: bool)
    ensures
        r == char_is_alphanumeric(c),
        (c as u32) < 128 ==> r == (is_ascii_digit(c) || is_ascii_letter(c)),
{
    c.is_alphanumeric()
}

/// What `str::to_lowercase` makes of a text.
pub uninterp spec fn lowercase(s: Seq<char>) -> Seq<char>;

/// `str::to_lowercase`: the Unicode lower-case mapping of the text. Of a text of
/// ASCII characters it is the ASCII lower-case text.
#[verifier::external_body]
pub(crate) fn to_lowercase(s: &str) -> (r: String)
    ensures
        r@ == lowercase(s@),
        (forall|i: int| 0 <= i < s@.len() ==> (#[trigger] s@[i] as u32) < 128) ==> r@ == ascii_lower(s@),
{
    s.to_lowercase()
}

/// What `String::from_utf8_lossy` reads out of bytes.
pub uninterp spec fn utf8_lossy(bytes: Seq<u8>) -> Seq<char>;

/// `String::from_utf8_lossy`: the text of the bytes, with U+FFFD for what is not
/// UTF-8.
#[verifier::external_body]
pub(crate) fn from_utf8_lossy(bytes: &[u8]) -> (r: String)
    ensures
        r@ == utf8_lossy(bytes@),
{
    String::from_utf8_lossy(bytes).into_owned()
}

/// The characters with the Unicode property White_Space.
pub open spec fn is_white_space(c: char) -> bool {
    let n = c as u32;
    ||| 0x9 <= n <= 0xD
    ||| n == 0x20
    ||| n == 0x85
    ||| n == 0xA0
    ||| n == 0x1680
    ||| 0x2000 <= n <= 0x200A
    ||| n == 0x2028
    ||| n == 0x2029
    ||| n == 0x202F
    ||| n == 0x205F
    ||| n == 0x3000
}

pub open spec fn is_ascii_digit(c: char) -> bool {
    48 <= c as u32 <= 57
}

pub open spec fn is_ascii_letter(c: char) -> bool {
    65 <= c as u32 <= 90 || 97 <= c as u32 <= 122
}

/// The ASCII lower-case form of a character.
pub open spec fn lower_char(c: char) -> char {
    if 65 <= c as u32 <= 90 {
        ((c as u32 + 32) as u32) as char
    } else {
        c
    }
}

/// The text with its ASCII upper-case letters made lower-case.
pub open spec fn ascii_lower(s: Seq<char>) -> Seq<char> {
    s.map_values(|c: char| lower_char(c))
}

/// Equality of texts up to the case of ASCII letters.
pub open spec fn same_ignoring_case(a: Seq<char>, b: Seq<char>) -> bool {
    ascii_lower(a) == ascii_lower(b)
}

pub open spec fn trim_start(s: Seq<char>) -> Seq<char>
    decreases s.len(),
{
    if s.len() > 0 && is_white_space(s[0]) {
        trim_start(s.drop_first())
    } else {
        s
    }
}

pub open spec fn trim_end(s: Seq<char>) -> Seq<char>
    decreases s.len(),
{
    if s.len() > 0 && is_white_space(s.last()) {
        trim_end(s.drop_last())
    } else {
        s
    }
}

/// The text without white space at its two ends.
pub open spec fn trimmed(s: Seq<char>) -> Seq<char> {
    trim_end(trim_start(s))
}

/// No white space at either end.
pub open spec fn is_trimmed(s: Seq<char>) -> bool {
    s.len() > 0 ==> !is_white_space(s[0]) && !is_white_space(s.last())
}

pub open spec fn starts_with(s: Seq<char>, p: Seq<char>) -> bool {
    p.len() <= s.len() && s.subrange(0, p.len() as int) == p
}

pub open spec fn ends_with(s: Seq<char>, p: Seq<char>) -> bool {
    p.len() <= s.len() && s.subrange(s.len() - p.len(), s.len() as int) == p
}

/// `p` stands in `s` at position `i`.
pub open spec fn occurs_at(s: Seq<char>, p: Seq<char>, i: int) -> bool {
    0 <= i && i + p.len() <= s.len() && s.subrange(i, i + p.len()) == p
}

/// `p` stands somewhere in `s`.
pub open spec fn contains(s: Seq<char>, p: Seq<char>) -> bool {
    exists|i: int| occurs_at(s, p, i)
}

/// The pieces of `s` between the separators: one more than there are separators.
pub open spec fn split(s: Seq<char>, sep: char) -> Seq<Seq<char>>
    decreases s.len(),
{
    if s.len() == 0 {
        seq![Seq::empty()]
    } else {
        let before = split(s.drop_last(), sep);
        if s.last() == sep {
            before.push(Seq::empty())
        } else {
            before.drop_last().push(before.last().push(s.last()))
        }
    }
}

/// A line without the carriage return before its line feed.
pub open spec fn without_return(s: Seq<char>) -> Seq<char> {
    if s.len() > 0 && s.last() == '\r' {
        s.drop_last()
    } else {
        s
    }
}

/// The lines of a text. A line ends at a line feed, which a carriage return may
/// precede; a last line without line feed counts where it is not empty.
pub open spec fn lines(s: Seq<char>) -> Seq<Seq<char>> {
    let pieces = split(s, '\n');
    let ended = pieces.drop_last().map_values(|l: Seq<char>| without_return(l));
    if pieces.last().len() == 0 {
        ended
    } else {
        ended.push(pieces.last())
    }
}

/// The number of characters before the first white space.
pub open spec fn word_len(s: Seq<char>) -> nat
    decreases s.len(),
{
    if s.len() == 0 || is_white_space(s[0]) {
        0
    } else {
        1 + word_len(s.drop_first())
    }
}

/// The digit for a number below ten.
pub open spec fn digit_char(d: nat) -> char {
    ((48 + d) as u32) as char
}

/// The decimal form of a number, without leading zeros.
pub open spec fn decimal(n: nat) -> Seq<char>
    decreases n,
{
    if n < 10 {
        seq![digit_char(n)]
    } else {
        decimal(n / 10).push(digit_char(n % 10))
    }
}

pub open spec fn all_digits(s: Seq<char>) -> bool {
    forall|i: int| 0 <= i < s.len() ==> is_ascii_digit(#[trigger] s[i])
}

/// The number that a sequence of digits writes.
pub open spec fn digits_value(s: Seq<char>) -> nat
    decreases s.len(),
{
    if s.len() == 0 {
        0
    } else {
        (digits_value(s.drop_last()) * 10 + (s.last() as u32 - 48)) as nat
    }
}

/// The number that a text writes, with an optional plus sign, where it is no
/// larger than `max`.
pub open spec fn parsed(s: Seq<char>, max: nat) -> Option<nat> {
    let body = if s.len() > 0 && s[0] == '+' { s.drop_first() } else { s };
    if body.len() > 0 && all_digits(body) && digits_value(body) <= max {
        Some(digits_value(body))
    } else {
        None
    }
}

/// The text writes a signed 64-bit number.
pub open spec fn writes_i64(s: Seq<char>) -> bool {
    if s.len() > 0 && s[0] == '-' {
        let body = s.drop_first();
        body.len() > 0 && all_digits(body) && digits_value(body) <= 0x8000_0000_0000_0000
    } else {
        parsed(s, 0x7FFF_FFFF_FFFF_FFFF) is Some
    }
}

/// The texts one after another, with `sep` between each two.
pub open spec fn joined(parts: Seq<Seq<char>>, sep: Seq<char>) -> Seq<char>
    decreases parts.len(),
{
    if parts.len() == 0 {
        Seq::empty()
    } else if parts.len() == 1 {
        parts[0]
    } else {
        joined(parts.drop_last(), sep) + sep + parts.last()
    }
}

/// What a text that may be missing says.
pub open spec fn opt_text(o: Option<String>) -> Option<Seq<char>> {
    match o {
        Some(s) => Some(s@),
        None => None,
    }
}

/// The views of the elements.
pub open spec fn views(v: Seq<String>) -> Seq<Seq<char>> {
    v.map_values(|s: String| s@)
}

proof fn lemma_trim_end_prefix(s: Seq<char>)
    ensures
        trim_end(s).len() <= s.len(),
        trim_end(s) == s.subrange(0, trim_end(s).len() as int),
        trim_end(s).len() > 0 ==> !is_white_space(trim_end(s).last()),
    decreases s.len(),
{
    if s.len() > 0 && is_white_space(s.last()) {
        lemma_trim_end_prefix(s.drop_last());
        assert(s.drop_last().subrange(0, trim_end(s).len() as int) =~= s.subrange(
            0,
            trim_end(s).len() as int,
        ));
    } else {
        assert(s.subrange(0, s.len() as int) =~= s);
    }
}

proof fn lemma_trim_start_suffix(s: Seq<char>)
    ensures
        trim_start(s).len() <= s.len(),
        trim_start(s) == s.subrange(s.len() - trim_start(s).len(), s.len() as int),
        trim_start(s).len() > 0 ==> !is_white_space(trim_start(s)[0]),
    decreases s.len(),
{
    if s.len() > 0 && is_white_space(s[0]) {
        lemma_trim_start_suffix(s.drop_first());
        let k = trim_start(s).len();
        assert(s.drop_first().subrange(s.len() - 1 - k, s.len() - 1) =~= s.subrange(
            s.len() - k,
            s.len() as int,
        ));
    } else {
        assert(s.subrange(0, s.len() as int) =~= s);
    }
}

/// A trimmed text has no white space at either end, and trimming it again
/// changes nothing.
pub proof fn trimmed_is_trimmed(s: Seq<char>)
    ensures
        is_trimmed(trimmed(s)),
        trimmed(trimmed(s)) == trimmed(s),
        trimmed(s).len() <= s.len(),
{
    let t = trim_start(s);
    lemma_trim_start_suffix(s);
    lemma_trim_end_prefix(t);
    let r = trimmed(s);
    if r.len() > 0 {
        assert(r[0] == t[0]);
    }
    assert(trim_start(r) == r);
    assert(trim_end(r) == r);
}

proof fn lemma_split_len(s: Seq<char>, sep: char)
    ensures
        split(s, sep).len() >= 1,
    decreases s.len(),
{
    if s.len() > 0 {
        lemma_split_len(s.drop_last(), sep);
    }
}

proof fn lemma_digits_value_grows(s: Seq<char>, n: int)
    requires
        0 <= n <= s.len(),
        all_digits(s),
    ensures
        digits_value(s.subrange(0, n)) <= digits_value(s),
    decreases s.len(),
{
    if n == s.len() {
        assert(s.subrange(0, n) =~= s);
    } else {
        let p = s.drop_last();
        assert(forall|i: int| 0 <= i < p.len() ==> #[trigger] p[i] == s[i]);
        lemma_digits_value_grows(p, n);
        assert(p.subrange(0, n) =~= s.subrange(0, n));
        assert(is_ascii_digit(s[s.len() - 1]));
    }
}

proof fn lemma_decimal_len(n: nat)
    ensures
        decimal(n).len() >= 1,
        n >= 10 ==> decimal(n).len() >= 2,
    decreases n,
{
    if n >= 10 {
        lemma_decimal_len(n / 10);
    }
}

/// Different numbers have different decimal forms.
pub proof fn decimal_is_injective(a: nat, b: nat)
    ensures
        decimal(a) == decimal(b) ==> a == b,
    decreases a,
{
    lemma_decimal_len(a);
    lemma_decimal_len(b);
    if decimal(a) == decimal(b) {
        if a < 10 || b < 10 {
            assert(decimal(a)[0] == decimal(b)[0]);
        } else {
            decimal_is_injective(a / 10, b / 10);
            assert(decimal(a).last() == decimal(b).last());
            assert(decimal(a).drop_last() =~= decimal(a / 10));
            assert(decimal(b).drop_last() =~= decimal(b / 10));
        }
    }
}

/// The characters of a text.
pub fn chars_of(s: &str) -> (r: Vec<char>)
    ensures
        r@ == s@,
{
    let mut r: Vec<char> = Vec::new();
    for c in it: s.chars()
        invariant
            r@ == s@.subrange(0, it.index() as int),
            it.seq() == s@,
    {
        r.push(c);
    }
    r
}

/// The text of the characters from `from` up to `to`.
pub fn text_of(v: &Vec<char>, from: usize, to: usize) -> (r: String)
    requires
        from <= to <= v@.len(),
    ensures
        r@ == v@.subrange(from as int, to as int),
{
    let mut r = String::new();
    let mut i: usize = from;
    while i < to
        invariant
            from <= i <= to <= v@.len(),
            r@ == v@.subrange(from as int, i as int),
        decreases to - i,
    {
        r.push(v[i]);
        i += 1;
    }
    r
}

/// Whether two texts are the same.
pub fn same(a: &str, b: &str) -> (r: bool)
    ensures
        r == (a@ == b@),
{
    a.to_owned() == b.to_owned()
}

pub fn is_space(c: char) -> (r: bool)
    ensures
        r == is_white_space(c),
{
    let n: u32 = c as u32;
    (0x9 <= n && n <= 0xD) || n == 0x20 || n == 0x85 || n == 0xA0 || n == 0x1680 || (0x2000 <= n && n
        <= 0x200A) || n == 0x2028 || n == 0x2029 || n == 0x202F || n == 0x205F || n == 0x3000
}

pub fn is_digit(c: char) -> (r: bool)
    ensures
        r == is_ascii_digit(c),
{
    let n: u32 = c as u32;
    48 <= n && n <= 57
}

pub fn to_lower_char(c: char) -> (r: char)
    ensures
        r == lower_char(c),
{
    let n: u32 = c as u32;
    if 65 <= n && n <= 90 {
        ((c as u8) + 32) as char
    } else {
        c
    }
}

/// The text without white space at its two ends.
pub fn trim(s: &str) -> (r: String)
    ensures
        r@ == trimmed(s@),
{
    let v = chars_of(s);
    let mut i: usize = 0;
    assert(v@.subrange(0, v@.len() as int) =~= v@);
    while i < v.len() && is_space(v[i])
        invariant
            i <= v@.len(),
            trim_start(v@) == trim_start(v@.subrange(i as int, v@.len() as int)),
        decreases v@.len() - i,
    {
        proof {
            let t = v@.subrange(i as int, v@.len() as int);
            assert(t.drop_first() =~= v@.subrange(i as int + 1, v@.len() as int));
        }
        i += 1;
    }
    let ghost t = v@.subrange(i as int, v@.len() as int);
    assert(trim_start(v@) == t);
    let mut j: usize = v.len();
    assert(v@.subrange(i as int, j as int) =~= t);
    while j > i && is_space(v[j - 1])
        invariant
            i <= j <= v@.len(),
            trim_end(t) == trim_end(v@.subrange(i as int, j as int)),
        decreases j,
    {
        proof {
            let u = v@.subrange(i as int, j as int);
            assert(u.drop_last() =~= v@.subrange(i as int, j - 1));
        }
        j -= 1;
    }
    text_of(&v, i, j)
}

/// The text with its ASCII upper-case letters made lower-case.
pub fn to_ascii_lowercase(s: &str) -> (r: String)
    ensures
        r@ == ascii_lower(s@),
{
    let v = chars_of(s);
    let mut r = String::new();
    let mut i: usize = 0;
    while i < v.len()
        invariant
            i <= v@.len(),
            r@ == ascii_lower(v@.subrange(0, i as int)),
        decreases v@.len() - i,
    {
        r.push(to_lower_char(v[i]));
        proof {
            assert(v@.subrange(0, i + 1) =~= v@.subrange(0, i as int).push(v@[i as int]));
            assert(ascii_lower(v@.subrange(0, i + 1)) =~= ascii_lower(v@.subrange(0, i as int)).push(
                lower_char(v@[i as int]),
            ));
        }
        i += 1;
    }
    assert(v@.subrange(0, v@.len() as int) =~= v@);
    r
}

pub fn eq_ignore_ascii_case(a: &str, b: &str) -> (r: bool)
    ensures
        r == same_ignoring_case(a@, b@),
{
    to_ascii_lowercase(a) == to_ascii_lowercase(b)
}

fn matches_at(v: &Vec<char>, p: &Vec<char>, i: usize) -> (r: bool)
    requires
        i + p@.len() <= v@.len(),
    ensures
        r == occurs_at(v@, p@, i as int),
{
    let mut k: usize = 0;
    let n: usize = v.len();
    while k < p.len()
        invariant
            k <= p@.len(),
            i + p@.len() <= v@.len(),
            n == v@.len(),
            forall|j: int| 0 <= j < k ==> #[trigger] p@[j] == v@[i + j],
        decreases p@.len() - k,
    {
        if v[i + k] != p[k] {
            proof {
                let sub = v@.subrange(i as int, i + p@.len());
                assert(sub[k as int] != p@[k as int]);
            }
            return false;
        }
        k += 1;
    }
    assert(v@.subrange(i as int, i + p@.len()) =~= p@);
    true
}

pub fn has_prefix(s: &str, p: &str) -> (r: bool)
    ensures
        r == starts_with(s@, p@),
{
    let v = chars_of(s);
    let q = chars_of(p);
    q.len() <= v.len() && matches_at(&v, &q, 0)
}

pub fn has_suffix(s: &str, p: &str) -> (r: bool)
    ensures
        r == ends_with(s@, p@),
{
    let v = chars_of(s);
    let q = chars_of(p);
    q.len() <= v.len() && matches_at(&v, &q, v.len() - q.len())
}

/// What follows the prefix, where the text has it.
pub fn strip_prefix(s: &str, p: &str) -> (r: Option<String>)
    ensures
        r is Some <==> starts_with(s@, p@),
        r matches Some(rest) ==> rest@ == s@.subrange(p@.len() as int, s@.len() as int),
{
    let v = chars_of(s);
    let q = chars_of(p);
    if q.len() <= v.len() && matches_at(&v, &q, 0) {
        Some(text_of(&v, q.len(), v.len()))
    } else {
        None
    }
}

/// Whether `p` stands somewhere in `s`.
pub fn has(s: &str, p: &str) -> (r: bool)
    ensures
        r == contains(s@, p@),
{
    let v = chars_of(s);
    let q = chars_of(p);
    if q.len() == 0 {
        assert(s@.subrange(0, 0) =~= p@);
        assert(occurs_at(s@, p@, 0));
        return true;
    }
    if q.len() > v.len() {
        return false;
    }
    let end: usize = v.len() - q.len() + 1;
    let mut i: usize = 0;
    while i < end
        invariant
            i <= end,
            end == v@.len() - q@.len() + 1,
            v@ == s@,
            q@ == p@,
            forall|j: int| 0 <= j < i ==> !#[trigger] occurs_at(s@, p@, j),
        decreases end - i,
    {
        if matches_at(&v, &q, i) {
            assert(occurs_at(s@, p@, i as int));
            return true;
        }
        i += 1;
    }
    false
}

/// The position of the last place at which `p` stands in `s`.
pub fn last_position(s: &str, p: &str) -> (r: Option<usize>)
    ensures
        r is Some <==> contains(s@, p@),
        r matches Some(i) ==> occurs_at(s@, p@, i as int) && (forall|j: int|
            i < j ==> !#[trigger] occurs_at(s@, p@, j)),
{
    let v = chars_of(s);
    let q = chars_of(p);
    if q.len() > v.len() {
        proof {
            assert forall|j: int| !#[trigger] occurs_at(s@, p@, j) by {}
        }
        return None;
    }
    if q.len() == 0 {
        assert(s@.subrange(s@.len() as int, s@.len() as int) =~= p@);
        assert(occurs_at(s@, p@, s@.len() as int));
        return Some(v.len());
    }
    let mut i: usize = v.len() - q.len() + 1;
    while i > 0
        invariant
            i + q@.len() <= v@.len() + 1,
            v@ == s@,
            q@ == p@,
            forall|j: int| i <= j ==> !#[trigger] occurs_at(s@, p@, j),
        decreases i,
    {
        if matches_at(&v, &q, i - 1) {
            assert(occurs_at(s@, p@, i - 1));
            return Some(i - 1);
        }
        i -= 1;
    }
    None
}

/// The position of the first occurrence of a character.
pub fn position_of(s: &str, c: char) -> (r: Option<usize>)
    ensures
        r is None <==> !s@.contains(c),
        r matches Some(i) ==> i < s@.len() && s@[i as int] == c && (forall|j: int|
            0 <= j < i ==> #[trigger] s@[j] != c),
{
    let v = chars_of(s);
    let mut i: usize = 0;
    while i < v.len()
        invariant
            i <= v@.len(),
            v@ == s@,
            forall|j: int| 0 <= j < i ==> #[trigger] s@[j] != c,
        decreases v@.len() - i,
    {
        if v[i] == c {
            return Some(i);
        }
        i += 1;
    }
    None
}

/// The pieces of the text between the separators.
pub fn split_on(s: &str, sep: char) -> (r: Vec<String>)
    ensures
        views(r@) == split(s@, sep),
        r@.len() >= 1,
{
    let v = chars_of(s);
    let mut r: Vec<String> = Vec::new();
    let mut piece = String::new();
    let mut i: usize = 0;
    proof {
        assert(v@.subrange(0, 0) =~= Seq::empty());
        assert(views(r@).push(piece@) =~= seq![Seq::<char>::empty()]);
    }
    while i < v.len()
        invariant
            i <= v@.len(),
            views(r@).push(piece@) == split(v@.subrange(0, i as int), sep),
        decreases v@.len() - i,
    {
        let ghost before = views(r@).push(piece@);
        proof {
            assert(v@.subrange(0, i + 1).drop_last() =~= v@.subrange(0, i as int));
            assert(v@.subrange(0, i + 1).last() == v@[i as int]);
            assert(before.drop_last() =~= views(r@));
            assert(before.last() == piece@);
        }
        if v[i] == sep {
            let ghost old_r = r@;
            let ghost old_piece = piece@;
            r.push(piece);
            piece = String::new();
            proof {
                assert(views(r@) =~= views(old_r).push(old_piece));
                assert(piece@ =~= Seq::<char>::empty());
            }
        } else {
            piece.push(v[i]);
        }
        i += 1;
    }
    assert(v@.subrange(0, v@.len() as int) =~= v@);
    let ghost old_r = r@;
    let ghost old_piece = piece@;
    r.push(piece);
    assert(views(r@) =~= views(old_r).push(old_piece));
    r
}

/// The lines of the text.
pub fn lines_of(s: &str) -> (r: Vec<String>)
    ensures
        views(r@) == lines(s@),
{
    let pieces = split_on(s, '\n');
    let mut r: Vec<String> = Vec::new();
    let mut i: usize = 0;
    let ghost ended = views(pieces@).drop_last().map_values(|l: Seq<char>| without_return(l));
    let n: usize = pieces.len();
    while i < n - 1
        invariant
            n == pieces@.len(),
            0 <= i < pieces@.len(),
            ended == views(pieces@).drop_last().map_values(|l: Seq<char>| without_return(l)),
            views(r@) == ended.subrange(0, i as int),
        decreases pieces@.len() - i,
    {
        let v = chars_of(&pieces[i]);
        let k: usize = v.len();
        let ghost old_r = r@;
        let line = if k > 0 && v[k - 1] == '\r' {
            text_of(&v, 0, k - 1)
        } else {
            text_of(&v, 0, k)
        };
        proof {
            assert(v@.subrange(0, k as int) =~= v@);
            assert(k > 0 ==> v@.subrange(0, k - 1) =~= v@.drop_last());
            assert(views(pieces@).drop_last()[i as int] == pieces@[i as int]@);
        }
        let ghost text = line@;
        r.push(line);
        proof {
            assert(views(r@) =~= views(old_r).push(text));
            assert(ended.subrange(0, i + 1) =~= ended.subrange(0, i as int).push(ended[i as int]));
        }
        i += 1;
    }
    proof {
        assert(ended.subrange(0, i as int) =~= ended);
        assert(views(pieces@).last() == pieces@[i as int]@);
    }
    if pieces[i].as_str().is_empty() {
        r
    } else {
        let ghost old_r = r@;
        let last = pieces[i].clone();
        r.push(last);
        assert(views(r@) =~= views(old_r).push(pieces@[i as int]@));
        r
    }
}

/// The number as a decimal text.
pub fn decimal_text(n: u64) -> (r: String)
    ensures
        r@ == decimal(n as nat),
    decreases n,
{
    let d: u8 = (n % 10) as u8;
    let c: char = (48 + d) as char;
    if n < 10 {
        let mut r = String::new();
        r.push(c);
        assert(r@ =~= seq![digit_char(n as nat)]);
        r
    } else {
        let mut r = decimal_text(n / 10);
        r.push(c);
        r
    }
}

/// Whether every character is an ASCII digit.
pub fn only_digits(s: &str) -> (r: bool)
    ensures
        r == all_digits(s@),
{
    let v = chars_of(s);
    let mut i: usize = 0;
    while i < v.len()
        invariant
            i <= v@.len(),
            v@ == s@,
            forall|j: int| 0 <= j < i ==> is_ascii_digit(#[trigger] s@[j]),
        decreases v@.len() - i,
    {
        if !is_digit(v[i]) {
            assert(!is_ascii_digit(s@[i as int]));
            return false;
        }
        i += 1;
    }
    true
}

/// The value of the digits from `from` on, where it is no larger than `max`.
fn parse_digits(v: &Vec<char>, from: usize, max: u64) -> (r: Option<u64>)
    requires
        from <= v@.len(),
    ensures
        ({
            let body = v@.subrange(from as int, v@.len() as int);
            &&& r is Some <==> body.len() > 0 && all_digits(body) && digits_value(body) <= max
            &&& r matches Some(n) ==> n == digits_value(body)
        }),
{
    let ghost body = v@.subrange(from as int, v@.len() as int);
    if from == v.len() {
        return None;
    }
    let mut i: usize = from;
    while i < v.len()
        invariant
            from <= i <= v@.len(),
            body == v@.subrange(from as int, v@.len() as int),
            forall|j: int| 0 <= j < i - from ==> is_ascii_digit(#[trigger] body[j]),
        decreases v@.len() - i,
    {
        if !is_digit(v[i]) {
            assert(!is_ascii_digit(body[i - from]));
            return None;
        }
        i += 1;
    }
    assert(all_digits(body));
    let mut n: u64 = 0;
    let mut k: usize = from;
    assert(body.subrange(0, 0) =~= Seq::empty());
    while k < v.len()
        invariant
            from <= k <= v@.len(),
            body == v@.subrange(from as int, v@.len() as int),
            all_digits(body),
            n == digits_value(body.subrange(0, k - from)),
            n <= max,
        decreases v@.len() - k,
    {
        let ghost here = body.subrange(0, k - from + 1);
        proof {
            assert(is_ascii_digit(body[k - from]));
            assert(here.drop_last() =~= body.subrange(0, k - from));
            assert(here.last() == body[k - from]);
            lemma_digits_value_grows(body, k - from + 1);
        }
        let d: u64 = (v[k] as u32 - 48) as u64;
        if n > (u64::MAX - d) / 10 {
            assert(n * 10 + d > u64::MAX);
            return None;
        }
        n = n * 10 + d;
        if n > max {
            return None;
        }
        k += 1;
    }
    assert(body.subrange(0, body.len() as int) =~= body);
    Some(n)
}

/// The number up to `max` that the text writes, with an optional plus sign.
pub fn parse_up_to(s: &str, max: u64) -> (r: Option<u64>)
    ensures
        r is Some <==> parsed(s@, max as nat) is Some,
        r matches Some(n) ==> parsed(s@, max as nat) == Some(n as nat),
{
    let v = chars_of(s);
    let signed = v.len() > 0 && v[0] == '+';
    proof {
        if signed {
            assert(v@.drop_first() =~= v@.subrange(1, v@.len() as int));
        } else {
            assert(v@ =~= v@.subrange(0, v@.len() as int));
        }
    }
    parse_digits(&v, if signed { 1 } else { 0 }, max)
}

pub fn parse_u16(s: &str) -> (r: Option<u16>)
    ensures
        r is Some <==> parsed(s@, 0xFFFF) is Some,
        r matches Some(n) ==> parsed(s@, 0xFFFF) == Some(n as nat),
{
    match parse_up_to(s, 0xFFFF) {
        Some(n) => Some(n as u16),
        None => None,
    }
}

/// Whether the text writes a signed 64-bit number.
pub fn is_i64(s: &str) -> (r: bool)
    ensures
        r == writes_i64(s@),
{
    let v = chars_of(s);
    if v.len() > 0 && v[0] == '-' {
        assert(v@.drop_first() =~= v@.subrange(1, v@.len() as int));
        parse_digits(&v, 1, 0x8000_0000_0000_0000).is_some()
    } else {
        parse_up_to(s, 0x7FFF_FFFF_FFFF_FFFF).is_some()
    }
}

/// The texts one after another, with `sep` between each two.
pub fn join(parts: &Vec<String>, sep: &str) -> (r: String)
    ensures
        r@ == joined(views(parts@), sep@),
{
    let mut r = String::new();
    let mut i: usize = 0;
    let ghost all = views(parts@);
    assert(all.subrange(0, 0) =~= Seq::empty());
    while i < parts.len()
        invariant
            i <= parts@.len(),
            all == views(parts@),
            r@ == joined(all.subrange(0, i as int), sep@),
        decreases parts@.len() - i,
    {
        let ghost next = all.subrange(0, i + 1);
        proof {
            assert(next.drop_last() =~= all.subrange(0, i as int));
            assert(next.last() == parts@[i as int]@);
        }
        if i > 0 {
            r.append(sep);
        }
        r.append(parts[i].as_str());
        proof {
            if i == 0 {
                assert(r@ =~= next[0]);
            }
        }
        i += 1;
    }
    assert(all.subrange(0, all.len() as int) =~= all);
    r
}

/// One text after another.
pub fn concat(a: &str, b: &str) -> (r: String)
    ensures
        r@ == a@ + b@,
{
    let mut r = a.to_owned();
    r.append(b);
    r
}

/// Three texts, one after another.
pub fn concat3(a: &str, b: &str, c: &str) -> (r: String)
    ensures
        r@ == a@ + b@ + c@,
{
    let mut r = concat(a, b);
    r.append(c);
    r
}

/// The text with every `from` replaced by `to`.
pub fn replace_char(s: &str, from: char, to: char) -> (r: String)
    ensures
        r@ == s@.map_values(|c: char| if c == from { to } else { c }),
{
    let v = chars_of(s);
    let mut r = String::new();
    let mut i: usize = 0;
    let f = Ghost(|c: char| if c == from { to } else { c });
    while i < v.len()
        invariant
            i <= v@.len(),
            f@ == (|c: char| if c == from { to } else { c }),
            r@ == v@.subrange(0, i as int).map_values(f@),
        decreases v@.len() - i,
    {
        let c = v[i];
        r.push(if c == from { to } else { c });
        proof {
            assert(v@.subrange(0, i + 1).map_values(f@) =~= v@.subrange(0, i as int).map_values(f@).push(
                f@(v@[i as int]),
            ));
        }
        i += 1;
    }
    assert(v@.subrange(0, v@.len() as int) =~= v@);
    r
}

/// The lower-case form of a capital is the small letter in the same place of the
/// alphabet, and every other character is its own.
pub proof fn lower_char_is_the_small_letter(c: char)
    ensures
        'A' <= c <= 'Z' ==> lower_char(c) as u32 == c as u32 + 32 && 'a' <= lower_char(c) <= 'z',
        !('A' <= c <= 'Z') ==> lower_char(c) == c,
        lower_char(lower_char(c)) == lower_char(c),
{
}

/// Comparing without case goes character by character, is the same in both directions,
/// and knows a text from one of another length.
pub proof fn case_is_all_that_is_ignored(a: Seq<char>, b: Seq<char>)
    ensures
        same_ignoring_case(a, a),
        same_ignoring_case(a, b) <==> same_ignoring_case(b, a),
        same_ignoring_case(a, b) <==> a.len() == b.len() && forall|i: int|
            0 <= i < a.len() ==> #[trigger] lower_char(a[i]) == lower_char(b[i]),
        same_ignoring_case(a, ascii_lower(a)),
{
    if same_ignoring_case(a, b) {
        assert(ascii_lower(a).len() == a.len() && ascii_lower(b).len() == b.len());
        assert forall|i: int| 0 <= i < a.len() implies #[trigger] lower_char(a[i]) == lower_char(
            b[i],
        ) by {
            assert(ascii_lower(a)[i] == lower_char(a[i]));
            assert(ascii_lower(b)[i] == lower_char(b[i]));
        }
    }
    if a.len() == b.len() && forall|i: int|
        0 <= i < a.len() ==> #[trigger] lower_char(a[i]) == lower_char(b[i]) {
        assert forall|i: int| 0 <= i < a.len() implies ascii_lower(a)[i] == ascii_lower(b)[i] by {
            assert(lower_char(a[i]) == lower_char(b[i]));
        }
        assert(ascii_lower(a) =~= ascii_lower(b));
    }
    assert(ascii_lower(ascii_lower(a)) =~= ascii_lower(a));
}

/// Blanks around a text are all that trimming takes away.
pub proof fn trimming_takes_blanks_alone(s: Seq<char>)
    ensures
        exists|i: int|
            0 <= i && i + trimmed(s).len() <= s.len() && trimmed(s) == #[trigger] s.subrange(
                i,
                i + trimmed(s).len(),
            ) && (forall|k: int|
                (0 <= k < i || i + trimmed(s).len() <= k < s.len()) ==> is_white_space(
                    #[trigger] s[k],
                )),
{
    lemma_trim_start_takes_blanks(s);
    lemma_trim_end_takes_blanks(trim_start(s));
    let i: int = s.len() - trim_start(s).len();
    lemma_trim_start_suffix(s);
    lemma_trim_end_prefix(trim_start(s));
    assert(trimmed(s) =~= s.subrange(i, i + trimmed(s).len()));
    assert forall|k: int|
        (0 <= k < i || i + trimmed(s).len() <= k < s.len()) implies is_white_space(
        #[trigger] s[k],
    ) by {
        if k >= i {
            assert(trim_start(s)[k - i] == s[k]);
        }
    }
}

proof fn lemma_trim_start_takes_blanks(s: Seq<char>)
    ensures
        trim_start(s).len() <= s.len(),
        forall|k: int| 0 <= k < s.len() - trim_start(s).len() ==> is_white_space(#[trigger] s[k]),
    decreases s.len(),
{
    if s.len() > 0 && is_white_space(s[0]) {
        lemma_trim_start_takes_blanks(s.drop_first());
        assert forall|k: int| 0 <= k < s.len() - trim_start(s).len() implies is_white_space(
            #[trigger] s[k],
        ) by {
            if k > 0 {
                assert(s.drop_first()[k - 1] == s[k]);
            }
        }
    }
}

proof fn lemma_trim_end_takes_blanks(s: Seq<char>)
    ensures
        trim_end(s).len() <= s.len(),
        forall|k: int| trim_end(s).len() <= k < s.len() ==> is_white_space(#[trigger] s[k]),
    decreases s.len(),
{
    if s.len() > 0 && is_white_space(s.last()) {
        lemma_trim_end_takes_blanks(s.drop_last());
        assert forall|k: int| trim_end(s).len() <= k < s.len() implies is_white_space(
            #[trigger] s[k],
        ) by {
            if k < s.len() - 1 {
                assert(s.drop_last()[k] == s[k]);
            }
        }
    }
}

/// The pieces of a text, put together again with the separator, are the text, and none of
/// them holds the separator.
pub proof fn pieces_make_up_the_text(s: Seq<char>, sep: char)
    ensures
        joined(split(s, sep), seq![sep]) == s,
        split(s, sep).len() >= 1,
        forall|i: int|
            0 <= i < split(s, sep).len() ==> !(#[trigger] split(s, sep)[i]).contains(sep),
    decreases s.len(),
{
    lemma_split_len(s, sep);
    if s.len() == 0 {
        assert(joined(split(s, sep), seq![sep]) =~= s);
    } else {
        let before = split(s.drop_last(), sep);
        pieces_make_up_the_text(s.drop_last(), sep);
        let all = split(s, sep);
        if s.last() == sep {
            assert(all.drop_last() =~= before);
            assert(joined(all, seq![sep]) =~= s);
        } else {
            assert(all.drop_last() =~= before.drop_last());
            assert(s.drop_last().push(s.last()) =~= s);
            if before.len() == 1 {
                assert(joined(before, seq![sep]) == before[0]);
                assert(joined(all, seq![sep]) == all[0]);
                assert(joined(all, seq![sep]) =~= s);
            } else {
                assert(joined(before, seq![sep]) == joined(before.drop_last(), seq![sep]) + seq![sep]
                    + before.last());
                assert(joined(all, seq![sep]) =~= s);
            }
            assert(all.last() == before.last().push(s.last()));
            assert forall|i: int| 0 <= i < all.len() implies !(#[trigger] all[i]).contains(sep) by {
                if i < all.len() - 1 {
                    assert(all[i] == before[i]);
                } else {
                    assert(!before[before.len() - 1].contains(sep));
                    assert(all[i] == before.last().push(s.last()));
                    if all[i].contains(sep) {
                        let w = choose|w: int| 0 <= w < all[i].len() && all[i][w] == sep;
                        assert(w < before.last().len());
                        assert(before.last()[w] == sep);
                    }
                }
            }
        }
    }
}

proof fn lemma_decimal_digits(n: nat)
    ensures
        all_digits(decimal(n)),
        digits_value(decimal(n)) == n,
        decimal(n).len() >= 1,
    decreases n,
{
    lemma_decimal_len(n);
    if n < 10 {
        assert(decimal(n).drop_last() =~= Seq::empty());
        assert(digits_value(Seq::<char>::empty()) == 0);
        assert(decimal(n).last() == digit_char(n));
    } else {
        lemma_decimal_digits(n / 10);
        assert(decimal(n).drop_last() =~= decimal(n / 10));
        assert(decimal(n).last() == digit_char(n % 10));
    }
}

/// The decimal form of a number reads as that number, with or without a plus sign, and is
/// refused exactly where the number is too large.
pub proof fn decimal_is_read_back(n: nat, max: nat)
    ensures
        parsed(decimal(n), max) == (if n <= max {
            Some(n)
        } else {
            None
        }),
        parsed(seq!['+'] + decimal(n), max) == parsed(decimal(n), max),
        all_digits(decimal(n)),
        n <= 0x7FFF_FFFF_FFFF_FFFF <==> writes_i64(decimal(n)),
        n <= 0x8000_0000_0000_0000 <==> writes_i64(seq!['-'] + decimal(n)),
        parsed(Seq::empty(), max) is None,
{
    lemma_decimal_digits(n);
    let d = decimal(n);
    assert(is_ascii_digit(d[0]));
    assert((seq!['+'] + d).drop_first() =~= d);
    assert((seq!['-'] + d).drop_first() =~= d);
    assert((seq!['+'] + d)[0] == '+');
    assert((seq!['-'] + d)[0] == '-');
}

/// A text that holds anything but digits behind an optional plus sign is no number.
pub proof fn only_digits_are_numbers(s: Seq<char>, i: int, max: nat)
    requires
        0 <= i < s.len(),
        (s[i] as u32) < 48 || (s[i] as u32) > 57,
        i > 0 || s[i] != '+',
    ensures
        parsed(s, max) is None,
{
    assert(!is_ascii_digit(s[i]));
    if s[0] == '+' {
        assert(s.drop_first()[i - 1] == s[i]);
        assert(!all_digits(s.drop_first()));
    } else {
        assert(!all_digits(s));
    }
}

/// A text has what it is put together of: the first part as its start, the last as its
/// end, and each somewhere.
pub proof fn text_has_its_parts(a: Seq<char>, b: Seq<char>, c: Seq<char>)
    ensures
        starts_with(a + b, a),
        ends_with(a + b, b),
        contains(a + b + c, b),
        contains(a, b) ==> b.len() <= a.len(),
        starts_with(a, b) && starts_with(b, a) ==> a == b,
{
    assert((a + b).subrange(0, a.len() as int) =~= a);
    assert((a + b).subrange(a.len() as int, (a + b).len() as int) =~= b);
    assert((a + b + c).subrange(a.len() as int, a.len() + b.len() as int) =~= b);
    assert(occurs_at(a + b + c, b, a.len() as int));
    if starts_with(a, b) && starts_with(b, a) {
        assert(a =~= b);
    }
}

pub(crate) proof fn lemma_split_plain(s: Seq<char>, sep: char)
    requires
        !s.contains(sep),
    ensures
        split(s, sep) == seq![s],
    decreases s.len(),
{
    if s.len() == 0 {
        assert(s =~= Seq::empty());
        assert(split(s, sep) =~= seq![s]);
    } else {
        assert(!s.drop_last().contains(sep)) by {
            if s.drop_last().contains(sep) {
                let w = choose|w: int| 0 <= w < s.drop_last().len() && s.drop_last()[w] == sep;
                assert(s[w] == sep);
            }
        }
        lemma_split_plain(s.drop_last(), sep);
        assert(s.contains(s[s.len() - 1]));
        assert(s.drop_last().push(s.last()) =~= s);
        let before = split(s.drop_last(), sep);
        assert(s.last() != sep);
        assert(before.drop_last() =~= Seq::empty());
        assert(before.last() =~= s.drop_last());
        assert(split(s, sep) == before.drop_last().push(before.last().push(s.last())));
        assert(split(s, sep) =~= seq![s]);
    }
}

/// A text without line feeds is one line, or none where it is empty.
pub proof fn text_without_feeds_is_one_line(s: Seq<char>)
    requires
        !s.contains('\n'),
    ensures
        s.len() > 0 ==> lines(s) == seq![s],
        s.len() == 0 ==> lines(s).len() == 0,
{
    lemma_split_plain(s, '\n');
    assert(split(s, '\n').drop_last().map_values(|l: Seq<char>| without_return(l)) =~= Seq::empty());
    if s.len() > 0 {
        assert(lines(s) =~= seq![s]);
    }
}

pub(crate) proof fn lemma_split_push(s: Seq<char>, t: Seq<char>, sep: char)
    requires
        !t.contains(sep),
    ensures
        split(s + seq![sep] + t, sep) == split(s, sep).push(t),
    decreases t.len(),
{
    let all = s + seq![sep] + t;
    if t.len() == 0 {
        assert(all.drop_last() =~= s);
        assert(all.last() == sep);
        assert(t =~= Seq::empty());
        assert(split(all, sep) =~= split(s, sep).push(t));
    } else {
        assert(!t.drop_last().contains(sep)) by {
            if t.drop_last().contains(sep) {
                let w = choose|w: int| 0 <= w < t.drop_last().len() && t.drop_last()[w] == sep;
                assert(t[w] == sep);
            }
        }
        assert(t.last() == t[t.len() - 1]);
        assert(all.drop_last() =~= s + seq![sep] + t.drop_last());
        lemma_split_push(s, t.drop_last(), sep);
        assert(t.drop_last().push(t.last()) =~= t);
        assert(split(s, sep).push(t.drop_last()).drop_last() =~= split(s, sep));
        assert(all.last() == t.last());
    }
}

/// One more line behind a line feed is one more of the lines; a carriage return before
/// the feed belongs to neither. What is behind a separator is one more piece.
pub proof fn line_feed_ends_a_line(line: Seq<char>, next: Seq<char>, sep: char, s: Seq<char>)
    requires
        !line.contains('\n'),
        line.len() > 0 ==> line.last() != '\r',
        !next.contains('\n'),
        next.len() > 0,
    ensures
        lines(line + seq!['\n'] + next) == seq![line, next],
        lines(line + seq!['\r'] + seq!['\n'] + next) == seq![line, next],
        lines(line + seq!['\n']) == seq![line],
        !next.contains(sep) ==> split(s + seq![sep] + next, sep) == split(s, sep).push(next),
{
    if !next.contains(sep) {
        lemma_split_push(s, next, sep);
    }
    let cr = line + seq!['\r'];
    assert(!cr.contains('\n')) by {
        if cr.contains('\n') {
            let w = choose|w: int| 0 <= w < cr.len() && cr[w] == '\n';
            if w < line.len() {
                assert(line[w] == '\n');
            }
        }
    }
    lemma_split_plain(line, '\n');
    lemma_split_plain(cr, '\n');
    lemma_split_push(line, next, '\n');
    lemma_split_push(cr, next, '\n');
    lemma_split_push(line, Seq::empty(), '\n');
    assert(line + seq!['\n'] + Seq::<char>::empty() =~= line + seq!['\n']);
    let f = |l: Seq<char>| without_return(l);
    assert(cr.drop_last() =~= line);
    assert(seq![line].push(next).drop_last().map_values(f) =~= seq![line]);
    assert(seq![cr].push(next).drop_last().map_values(f) =~= seq![line]);
    assert(seq![line].push(Seq::empty()).drop_last().map_values(f) =~= seq![line]);
    assert(lines(line + seq!['\n'] + next) =~= seq![line, next]);
    assert(lines(cr + seq!['\n'] + next) =~= seq![line, next]);
    assert(lines(line + seq!['\n']) =~= seq![line]);
}

/// The first word of a text ends at its first white space.
pub proof fn word_ends_at_white_space(word: Seq<char>, rest: Seq<char>)
    requires
        forall|i: int| 0 <= i < word.len() ==> !is_white_space(#[trigger] word[i]),
        rest.len() > 0 ==> is_white_space(rest[0]),
    ensures
        word_len(word + rest) == word.len(),
        word.len() > 0 ==> trim_start(word + rest) == word + rest,
    decreases word.len(),
{
    let all = word + rest;
    if word.len() > 0 {
        assert(all[0] == word[0]);
        assert(all.drop_first() =~= word.drop_first() + rest);
        assert forall|i: int| 0 <= i < word.drop_first().len() implies !is_white_space(
            #[trigger] word.drop_first()[i],
        ) by {
            assert(word.drop_first()[i] == word[i + 1]);
        }
        word_ends_at_white_space(word.drop_first(), rest);
    } else {
        assert(all =~= rest);
    }
}

/// A prefix that is taken off and put before the rest again gives the text; a place that is
/// found is the last, or the first, of its kind.
pub proof fn stripped_prefix_is_put_back(
    s: &str,
    p: &str,
    c: char,
    rest: Option<String>,
    last: Option<usize>,
    first: Option<usize>,
)
    requires
        call_ensures(strip_prefix, (s, p), rest),
        call_ensures(last_position, (s, p), last),
        call_ensures(position_of, (s, c), first),
    ensures
        rest matches Some(t) ==> p@ + t@ == s@,
        rest is None ==> !starts_with(s@, p@),
        last matches Some(i) ==> s@.subrange(i as int, i + p@.len()) == p@,
        last is None ==> !contains(s@, p@),
        first matches Some(i) ==> s@[i as int] == c && !s@.subrange(0, i as int).contains(c),
        first is None ==> !s@.contains(c),
{
    if let Some(t) = rest {
        assert(p@ + t@ =~= s@) by {
            assert(starts_with(s@, p@));
        }
    }
}

/// Texts are joined in the order in which they are given, and a replaced character is nowhere
/// left.
pub proof fn joined_texts_keep_their_order(
    a: &str,
    b: &str,
    c: &str,
    two: String,
    three: String,
    from: char,
    to: char,
    replaced: String,
)
    requires
        call_ensures(concat, (a, b), two),
        call_ensures(concat3, (a, b, c), three),
        call_ensures(replace_char, (a, from, to), replaced),
        from != to,
    ensures
        starts_with(two@, a@) && ends_with(two@, b@) && two@.len() == a@.len() + b@.len(),
        three@ == two@ + c@,
        !replaced@.contains(from),
        replaced@.len() == a@.len(),
        forall|i: int|
            0 <= i < a@.len() && a@[i] != from ==> #[trigger] replaced@[i] == a@[i],
        forall|i: int| 0 <= i < a@.len() && a@[i] == from ==> #[trigger] replaced@[i] == to,
{
    assert(two@.subrange(0, a@.len() as int) =~= a@);
    assert(two@.subrange(a@.len() as int, two@.len() as int) =~= b@);
}

/// White space is every space and separator, of any width: the controls from the tab to the
/// carriage return, the plain and the fixed spaces, and the separators of lines and
/// paragraphs. What is seen is none.
pub proof fn spaces_of_any_width_are_white(c: char)
    ensures
        c as u32 == 0x20 || c as u32 == 0xA0 || c as u32 == 0x3000 ==> is_white_space(c),
        0x9 <= c as u32 <= 0xD || c as u32 == 0x85 ==> is_white_space(c),
        0x2000 <= c as u32 <= 0x200A || c as u32 == 0x1680 ==> is_white_space(c),
        c as u32 == 0x2028 || c as u32 == 0x2029 ==> is_white_space(c),
        c as u32 == 0x202F || c as u32 == 0x205F ==> is_white_space(c),
        0x21 <= c as u32 <= 0x84 || 0x86 <= c as u32 <= 0x9F || 0xA1 <= c as u32 <= 0x167F
            ==> !is_white_space(c),
        0x1681 <= c as u32 <= 0x1FFF || 0x200B <= c as u32 <= 0x2027 || c as u32 > 0x3000
            ==> !is_white_space(c),
        c as u32 <= 0x8 || 0xE <= c as u32 <= 0x1F ==> !is_white_space(c),
{
}

} // verus!
