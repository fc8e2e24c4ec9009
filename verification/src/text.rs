//! Text helpers: the order of names, joining and splitting, numbers in
//! decimal, and what the standard library knows of whitespace and case.

use itertools::Itertools;
use vstd::prelude::*;
use vstd::string::*;
use vstd::utf8::*;

verus! {

/// `a` and `b` hold the same bytes at every position below `k`.
pub open spec fn agree_upto(a: Seq<u8>, b: Seq<u8>, k: int) -> bool {
    &&& 0 <= k <= a.len()
    &&& k <= b.len()
    &&& forall|j: int| 0 <= j < k ==> a[j] == b[j]
}

/// `a` comes strictly before `b` in lexicographic order: at the first
/// position where they differ `a` holds the smaller byte, or `a` is a proper
/// prefix of `b`.
pub open spec fn lex_lt(a: Seq<u8>, b: Seq<u8>) -> bool {
    exists|k: int| #[trigger]
        agree_upto(a, b, k) && (k == a.len() && k < b.len() || (k < a.len() && k < b.len() && a[k]
            < b[k]))
}

/// The order of names: lexicographic on their UTF-8 bytes.
pub open spec fn name_lt(a: Seq<char>, b: Seq<char>) -> bool {
    lex_lt(encode_utf8(a), encode_utf8(b))
}

/// No byte string comes before itself, and no two come before each other.
pub proof fn lemma_lex_lt_asymmetric(a: Seq<u8>, b: Seq<u8>)
    ensures
        !(lex_lt(a, b) && lex_lt(b, a)),
        !lex_lt(a, a),
{
    if lex_lt(a, b) && lex_lt(b, a) {
        let k1 = choose|k: int| #[trigger]
            agree_upto(a, b, k) && (k == a.len() && k < b.len() || (k < a.len() && k < b.len()
                && a[k] < b[k]));
        let k2 = choose|k: int| #[trigger]
            agree_upto(b, a, k) && (k == b.len() && k < a.len() || (k < b.len() && k < a.len()
                && b[k] < a[k]));
        assert(false);
    }
}

/// The byte-wise order is transitive.
pub proof fn lemma_lex_lt_transitive(a: Seq<u8>, b: Seq<u8>, c: Seq<u8>)
    requires
        lex_lt(a, b),
        lex_lt(b, c),
    ensures
        lex_lt(a, c),
{
    let k1 = choose|k: int| #[trigger]
        agree_upto(a, b, k) && (k == a.len() && k < b.len() || (k < a.len() && k < b.len() && a[k]
            < b[k]));
    let k2 = choose|k: int| #[trigger]
        agree_upto(b, c, k) && (k == b.len() && k < c.len() || (k < b.len() && k < c.len() && b[k]
            < c[k]));
    let k = if k1 <= k2 {
        k1
    } else {
        k2
    };
    assert(agree_upto(a, c, k));
}

/// Two byte strings that agree below `k` are equal or one comes before the other.
proof fn lemma_lex_total_from(a: Seq<u8>, b: Seq<u8>, k: int)
    requires
        agree_upto(a, b, k),
    ensures
        a == b || lex_lt(a, b) || lex_lt(b, a),
    decreases a.len() - k,
{
    if k == a.len() {
        if k == b.len() {
            assert(a =~= b);
        }
    } else if k == b.len() {
        assert(agree_upto(b, a, k));
    } else if a[k] != b[k] {
        assert(agree_upto(b, a, k));
    } else {
        assert(agree_upto(a, b, k + 1));
        lemma_lex_total_from(a, b, k + 1);
    }
}

/// Any two byte strings are equal or one comes before the other.
pub proof fn lemma_lex_lt_total(a: Seq<u8>, b: Seq<u8>)
    ensures
        a == b || lex_lt(a, b) || lex_lt(b, a),
{
    assert(agree_upto(a, b, 0));
    lemma_lex_total_from(a, b, 0);
}

/// The order of names is a strict total order on texts: exactly one of
/// `a` before `b`, `b` before `a` and `a == b` holds.
pub proof fn lemma_name_lt_trichotomy(a: Seq<char>, b: Seq<char>)
    ensures
        a == b || name_lt(a, b) || name_lt(b, a),
        !(name_lt(a, b) && name_lt(b, a)),
        a == b ==> !name_lt(a, b),
{
    lemma_lex_lt_total(encode_utf8(a), encode_utf8(b));
    lemma_lex_lt_asymmetric(encode_utf8(a), encode_utf8(b));
    lemma_lex_lt_asymmetric(encode_utf8(a), encode_utf8(a));
    if encode_utf8(a) == encode_utf8(b) {
        encode_utf8_decode_utf8(a);
        encode_utf8_decode_utf8(b);
    }
}

/// The order of names is transitive.
pub proof fn lemma_name_lt_transitive(a: Seq<char>, b: Seq<char>, c: Seq<char>)
    requires
        name_lt(a, b),
        name_lt(b, c),
    ensures
        name_lt(a, c),
{
    lemma_lex_lt_transitive(encode_utf8(a), encode_utf8(b), encode_utf8(c));
}

/// Whether `a` comes strictly before `b` in the order of names.
pub fn name_before(a: &str, b: &str) -> (before: bool)
    ensures
        before == name_lt(a@, b@),
{
    let x = a.as_bytes();
    let y = b.as_bytes();
    let mut i: usize = 0;
    while i < x.len() && i < y.len()
        invariant
            agree_upto(x@, y@, i as int),
            x@ == encode_utf8(a@),
            y@ == encode_utf8(b@),
        decreases x.len() - i,
    {
        if x[i] != y[i] {
            proof {
                if x[i as int] > y[i as int] {
                    assert(agree_upto(y@, x@, i as int));
                    lemma_lex_lt_asymmetric(x@, y@);
                }
            }
            return x[i] < y[i];
        }
        i += 1;
    }
    proof {
        if i == y.len() {
            if i == x.len() {
                assert(x@ =~= y@);
            } else {
                assert(agree_upto(y@, x@, i as int));
            }
            lemma_lex_lt_asymmetric(x@, y@);
        }
    }
    i < y.len()
}

/// Whether two texts are the same.
pub fn same_text(a: &str, b: &str) -> (same: bool)
    ensures
        same == (a@ == b@),
{
    let x = a.as_bytes();
    let y = b.as_bytes();
    proof {
        encode_utf8_decode_utf8(a@);
        encode_utf8_decode_utf8(b@);
    }
    if x.len() != y.len() {
        return false;
    }
    let mut i: usize = 0;
    while i < x.len()
        invariant
            x.len() == y.len(),
            agree_upto(x@, y@, i as int),
            x@ == encode_utf8(a@),
            y@ == encode_utf8(b@),
            decode_utf8(encode_utf8(a@)) == a@,
            decode_utf8(encode_utf8(b@)) == b@,
        decreases x.len() - i,
    {
        if x[i] != y[i] {
            return false;
        }
        i += 1;
    }
    assert(x@ =~= y@);
    true
}

/// The texts of the strings.
pub open spec fn texts(parts: Seq<String>) -> Seq<Seq<char>> {
    parts.map_values(|s: String| s@)
}

/// The parts in order, with `sep` between every two neighbours.
pub open spec fn joined_text(parts: Seq<Seq<char>>, sep: Seq<char>) -> Seq<char>
    decreases parts.len(),
{
    if parts.len() == 0 {
        Seq::empty()
    } else if parts.len() == 1 {
        parts[0]
    } else {
        joined_text(parts.drop_last(), sep) + sep + parts.last()
    }
}

/// Joins the strings with `itertools::Itertools::intersperse`, which puts a
/// copy of `sep` between every two neighbours, and collects the pieces into
/// one string.
#[verifier::external_body]
pub(crate) fn join_with(parts: &Vec<String>, sep: &str) -> (joined: String)
    ensures
        joined@ == joined_text(texts(parts@), sep@),
{
    Itertools::intersperse(parts.iter().map(|s| s.as_str()), sep).collect()
}

/// The character of a decimal digit.
pub open spec fn digit_char(d: nat) -> char {
    if d == 0 {
        '0'
    } else if d == 1 {
        '1'
    } else if d == 2 {
        '2'
    } else if d == 3 {
        '3'
    } else if d == 4 {
        '4'
    } else if d == 5 {
        '5'
    } else if d == 6 {
        '6'
    } else if d == 7 {
        '7'
    } else if d == 8 {
        '8'
    } else {
        '9'
    }
}

/// The number in decimal, without leading zeros.
pub open spec fn decimal_text(n: nat) -> Seq<char>
    decreases n,
{
    if n < 10 {
        seq![digit_char(n)]
    } else {
        decimal_text(n / 10).push(digit_char(n % 10))
    }
}

/// The text of one decimal digit.
fn digit_str(d: u64) -> (s: &'static str)
    requires
        d < 10,
    ensures
        s@ == seq![digit_char(d as nat)],
{
    proof {
        reveal_strlit("0");
        reveal_strlit("1");
        reveal_strlit("2");
        reveal_strlit("3");
        reveal_strlit("4");
        reveal_strlit("5");
        reveal_strlit("6");
        reveal_strlit("7");
        reveal_strlit("8");
        reveal_strlit("9");
    }
    let s = if d == 0 {
        "0"
    } else if d == 1 {
        "1"
    } else if d == 2 {
        "2"
    } else if d == 3 {
        "3"
    } else if d == 4 {
        "4"
    } else if d == 5 {
        "5"
    } else if d == 6 {
        "6"
    } else if d == 7 {
        "7"
    } else if d == 8 {
        "8"
    } else {
        "9"
    };
    assert(s@ =~= seq![digit_char(d as nat)]);
    s
}

/// The number in decimal, without leading zeros.
pub fn decimal(n: u64) -> (text: String)
    ensures
        text@ == decimal_text(n as nat),
    decreases n,
{
    if n < 10 {
        String::from_str(digit_str(n))
    } else {
        let text = decimal(n / 10).concat(digit_str(n % 10));
        assert(text@ =~= decimal_text((n / 10) as nat).push(digit_char((n % 10) as nat)));
        text
    }
}

/// The integer in decimal, with a minus sign where it is negative.
pub open spec fn int_text(n: int) -> Seq<char> {
    if n < 0 {
        seq!['-'] + decimal_text((-n) as nat)
    } else {
        decimal_text(n as nat)
    }
}

/// The integer in decimal, with a minus sign where it is negative.
pub fn decimal_i32(n: i32) -> (text: String)
    ensures
        text@ == int_text(n as int),
{
    if n < 0 {
        let m: i64 = -(n as i64);
        proof {
            reveal_strlit("-");
            assert("-"@ =~= seq!['-']);
        }
        String::from_str("-").concat(decimal(m as u64).as_str())
    } else {
        decimal(n as u64)
    }
}

/// `i` is the place of the first space of the text.
pub open spec fn is_first_space(s: Seq<char>, i: int) -> bool {
    &&& 0 <= i < s.len()
    &&& s[i] == ' '
    &&& forall|j: int| 0 <= j < i ==> s[j] != ' '
}

/// The text holds a space.
pub open spec fn has_space(s: Seq<char>) -> bool {
    exists|i: int| 0 <= i < s.len() && s[i] == ' '
}

/// The place of the first space of the text, if it holds one.
pub fn find_space(s: &str) -> (place: Option<usize>)
    ensures
        place matches Some(i) ==> is_first_space(s@, i as int),
        place is None ==> !has_space(s@),
{
    let n = s.unicode_len();
    let mut i: usize = 0;
    while i < n
        invariant
            n == s@.len(),
            i <= n,
            forall|j: int| 0 <= j < i ==> s@[j] != ' ',
        decreases n - i,
    {
        if s.get_char(i) == ' ' {
            return Some(i);
        }
        i += 1;
    }
    None
}

/// The place of the first `c` in the text, or the length of the text where
/// it holds none.
pub open spec fn index_of(s: Seq<char>, c: char) -> int
    decreases s.len(),
{
    if s.len() == 0 {
        0
    } else if s[0] == c {
        0
    } else {
        1 + index_of(s.drop_first(), c)
    }
}

/// The pieces of the text between the occurrences of `sep`, in order. A text
/// without `sep` is one piece; two neighbouring `sep` have an empty piece
/// between them.
pub open spec fn split_text(s: Seq<char>, sep: char) -> Seq<Seq<char>>
    decreases s.len(),
{
    let i = index_of(s, sep);
    if 0 <= i < s.len() {
        seq![s.take(i)] + split_text(s.skip(i + 1), sep)
    } else {
        seq![s]
    }
}

/// `index_of` is the place of the first `c`: nothing before it is `c`, and
/// it is `c` itself unless it is the end of the text.
pub proof fn lemma_index_of(s: Seq<char>, c: char)
    ensures
        0 <= index_of(s, c) <= s.len(),
        forall|j: int| 0 <= j < index_of(s, c) ==> s[j] != c,
        index_of(s, c) < s.len() ==> s[index_of(s, c)] == c,
    decreases s.len(),
{
    if s.len() > 0 && s[0] != c {
        lemma_index_of(s.drop_first(), c);
        assert forall|j: int| 0 <= j < index_of(s, c) implies s[j] != c by {
            if j > 0 {
                assert(s.drop_first()[j - 1] == s[j]);
            }
        }
    }
}

/// A place before which nothing is `c`, and which is `c` or the end of the
/// text, is the place that `index_of` gives.
pub proof fn lemma_index_of_is(s: Seq<char>, c: char, i: int)
    requires
        0 <= i <= s.len(),
        forall|j: int| 0 <= j < i ==> s[j] != c,
        i < s.len() ==> s[i] == c,
    ensures
        index_of(s, c) == i,
{
    lemma_index_of(s, c);
}

/// The pieces of the text between the occurrences of `sep`.
pub fn split_at_char(s: &str, sep: char) -> (pieces: Vec<String>)
    ensures
        texts(pieces@) == split_text(s@, sep),
{
    let n = s.unicode_len();
    let mut pieces: Vec<String> = Vec::new();
    let mut start: usize = 0;
    let mut i: usize = 0;
    assert(s@.skip(0) =~= s@);
    assert(texts(pieces@) =~= Seq::<Seq<char>>::empty());
    while i < n
        invariant
            n == s@.len(),
            start <= i <= n,
            texts(pieces@) + split_text(s@.skip(start as int), sep) == split_text(s@, sep),
            forall|j: int| start <= j < i ==> s@[j] != sep,
        decreases n - i,
    {
        if s.get_char(i) == sep {
            let piece = String::from_str(s.substring_char(start, i));
            proof {
                let rest = s@.skip(start as int);
                lemma_index_of_is(rest, sep, i - start);
                assert(rest.take(i - start) =~= s@.subrange(start as int, i as int));
                assert(rest.skip(i - start + 1) =~= s@.skip(i + 1));
                assert(texts(pieces@.push(piece)) =~= texts(pieces@).push(piece@));
                assert(texts(pieces@).push(piece@) + split_text(s@.skip(i + 1), sep) =~= texts(
                    pieces@,
                ) + (seq![piece@] + split_text(s@.skip(i + 1), sep)));
            }
            pieces.push(piece);
            start = i + 1;
        }
        i += 1;
    }
    let piece = String::from_str(s.substring_char(start, n));
    proof {
        let rest = s@.skip(start as int);
        lemma_index_of_is(rest, sep, n - start);
        assert(rest =~= s@.subrange(start as int, n as int));
        assert(texts(pieces@.push(piece)) =~= texts(pieces@).push(piece@));
        assert(texts(pieces@).push(piece@) =~= texts(pieces@) + seq![piece@]);
    }
    pieces.push(piece);
    pieces
}

/// The byte with an ASCII lower-case letter turned into its upper-case one.
pub open spec fn ascii_upper(b: u8) -> u8 {
    if 97 <= b <= 122 {
        (b - 32) as u8
    } else {
        b
    }
}

/// The two byte strings are the same but for the case of ASCII letters.
pub open spec fn same_but_case(a: Seq<u8>, b: Seq<u8>) -> bool {
    a.len() == b.len() && forall|i: int| 0 <= i < a.len() ==> ascii_upper(a[i]) == ascii_upper(b[i])
}

/// The two texts are the same but for the case of ASCII letters.
pub open spec fn same_text_but_case(a: Seq<char>, b: Seq<char>) -> bool {
    same_but_case(encode_utf8(a), encode_utf8(b))
}

/// Whether two texts are the same but for the case of ASCII letters.
pub fn eq_ignore_ascii_case(a: &str, b: &str) -> (same: bool)
    ensures
        same == same_text_but_case(a@, b@),
{
    let x = a.as_bytes();
    let y = b.as_bytes();
    if x.len() != y.len() {
        return false;
    }
    let mut i: usize = 0;
    while i < x.len()
        invariant
            x.len() == y.len(),
            i <= x.len(),
            x@ == encode_utf8(a@),
            y@ == encode_utf8(b@),
            forall|j: int| 0 <= j < i ==> ascii_upper(x@[j]) == ascii_upper(y@[j]),
        decreases x.len() - i,
    {
        let p = x[i];
        let q = y[i];
        let up = if 97 <= p && p <= 122 {
            p - 32
        } else {
            p
        };
        let uq = if 97 <= q && q <= 122 {
            q - 32
        } else {
            q
        };
        if up != uq {
            return false;
        }
        i += 1;
    }
    true
}

/// What `str::split_whitespace` yields for the text: its pieces between
/// runs of Unicode whitespace, none of them empty.
pub uninterp spec fn whitespace_words(text: Seq<char>) -> Seq<Seq<char>>;

/// What `str::to_uppercase` gives for the text.
pub uninterp spec fn uppercase_text(text: Seq<char>) -> Seq<char>;

/// What `str::to_lowercase` gives for the text.
pub uninterp spec fn lowercase_text(text: Seq<char>) -> Seq<char>;

/// What `str::trim` gives for the text: the text without the Unicode
/// whitespace at its two ends.
pub uninterp spec fn trimmed_text(text: Seq<char>) -> Seq<char>;

/// Splits the text with `str::split_whitespace` and copies the pieces.
#[verifier::external_body]
pub(crate) fn split_words(text: &str) -> (words: Vec<String>)
    ensures
        texts(words@) == whitespace_words(text@),
{
    text.split_whitespace().map(|w| w.to_string()).collect()
}

/// The text in upper case, by `str::to_uppercase`.
#[verifier::external_body]
pub(crate) fn to_uppercase(text: &str) -> (upper: String)
    ensures
        upper@ == uppercase_text(text@),
{
    text.to_uppercase()
}

/// The text in lower case, by `str::to_lowercase`.
#[verifier::external_body]
pub(crate) fn to_lowercase(text: &str) -> (lower: String)
    ensures
        lower@ == lowercase_text(text@),
{
    text.to_lowercase()
}

/// The text without the whitespace at its ends, by `str::trim`.
#[verifier::external_body]
pub(crate) fn trim(text: &str) -> (trimmed: String)
    ensures
        trimmed@ == trimmed_text(text@),
{
    text.trim().to_string()
}

/// The text holds `part` as a run of neighbouring characters.
pub open spec fn holds_text(text: Seq<char>, part: Seq<char>) -> bool {
    exists|i: int| #[trigger] stands_at(text, part, i)
}

/// `part` stands in the text at place `i`.
pub open spec fn stands_at(text: Seq<char>, part: Seq<char>, i: int) -> bool {
    0 <= i && i + part.len() <= text.len() && text.subrange(i, i + part.len()) == part
}

/// Whether `part` stands in the text at place `i`.
fn matches_at(text: &str, part: &str, i: usize) -> (found: bool)
    requires
        i + part@.len() <= text@.len(),
    ensures
        found == stands_at(text@, part@, i as int),
{
    let n = text.unicode_len();
    let m = part.unicode_len();
    let mut j: usize = 0;
    while j < m
        invariant
            n == text@.len(),
            m == part@.len(),
            j <= m,
            i + m <= n,
            forall|k: int| 0 <= k < j ==> text@[i + k] == part@[k],
        decreases m - j,
    {
        if text.get_char(i + j) != part.get_char(j) {
            assert(text@.subrange(i as int, i + m)[j as int] == text@[i + j]);
            return false;
        }
        j += 1;
    }
    assert(text@.subrange(i as int, i + m) =~= part@);
    true
}

/// Whether the text holds `part` as a run of neighbouring characters.
pub fn contains(text: &str, part: &str) -> (found: bool)
    ensures
        found == holds_text(text@, part@),
{
    let n = text.unicode_len();
    let m = part.unicode_len();
    if m > n {
        return false;
    }
    if m == 0 {
        assert(stands_at(text@, part@, 0)) by {
            assert(text@.subrange(0, 0int + part@.len()) =~= part@);
        }
        return true;
    }
    let mut i: usize = 0;
    while i <= n - m
        invariant
            n == text@.len(),
            m == part@.len(),
            0 < m <= n,
            i <= n - m + 1,
            forall|k: int| 0 <= k < i ==> !stands_at(text@, part@, k),
        decreases n - m + 1 - i,
    {
        if matches_at(text, part, i) {
            return true;
        }
        i += 1;
    }
    false
}

/// The value of a decimal digit, `None` for any other character.
pub open spec fn digit_of(c: char) -> Option<nat> {
    if c == '0' {
        Some(0)
    } else if c == '1' {
        Some(1)
    } else if c == '2' {
        Some(2)
    } else if c == '3' {
        Some(3)
    } else if c == '4' {
        Some(4)
    } else if c == '5' {
        Some(5)
    } else if c == '6' {
        Some(6)
    } else if c == '7' {
        Some(7)
    } else if c == '8' {
        Some(8)
    } else if c == '9' {
        Some(9)
    } else {
        None
    }
}

/// The number that a run of decimal digits stands for, `None` where the
/// text is empty or holds anything but digits.
pub open spec fn digits_value(s: Seq<char>) -> Option<nat>
    decreases s.len(),
{
    if s.len() == 0 {
        None
    } else {
        match digit_of(s.last()) {
            None => None,
            Some(d) => if s.len() == 1 {
                Some(d)
            } else {
                match digits_value(s.drop_last()) {
                    None => None,
                    Some(v) => Some(v * 10 + d),
                }
            },
        }
    }
}

/// The integer that the text stands for: decimal digits, with `+` or `-`
/// in front if one likes. `None` for any other text.
pub open spec fn int_value(s: Seq<char>) -> Option<int> {
    if s.len() > 0 && s[0] == '-' {
        match digits_value(s.skip(1)) {
            Some(v) => Some(-(v as int)),
            None => None,
        }
    } else if s.len() > 0 && s[0] == '+' {
        match digits_value(s.skip(1)) {
            Some(v) => Some(v as int),
            None => None,
        }
    } else {
        match digits_value(s) {
            Some(v) => Some(v as int),
            None => None,
        }
    }
}

/// The 32-bit number that the text stands for, `None` where it stands for
/// no integer or for one out of range.
pub open spec fn parsed_i32(s: Seq<char>) -> Option<i32> {
    match int_value(s) {
        Some(v) => if -2147483648 <= v <= 2147483647 {
            Some(v as i32)
        } else {
            None
        },
        None => None,
    }
}

/// What holds of the value of a text, given the value of a part of it that
/// starts at the same place: digits that follow can only make the value
/// greater, and where the part is no number the whole is none.
proof fn lemma_digits_grow(s: Seq<char>, k: int)
    requires
        1 <= k <= s.len(),
    ensures
        digits_value(s.take(k)) is None ==> digits_value(s) is None,
        digits_value(s.take(k)) matches Some(v) ==> (digits_value(s) matches Some(w) ==> w >= v),
    decreases s.len() - k,
{
    if k == s.len() {
        assert(s.take(k) =~= s);
    } else {
        assert(s.drop_last().take(k) =~= s.take(k));
        lemma_digits_grow(s.drop_last(), k);
    }
}

/// The value of a decimal digit.
fn digit_value(c: char) -> (d: Option<i64>)
    ensures
        match d {
            Some(v) => digit_of(c) == Some(v as nat) && 0 <= v <= 9,
            None => digit_of(c) is None,
        },
{
    if c == '0' {
        Some(0)
    } else if c == '1' {
        Some(1)
    } else if c == '2' {
        Some(2)
    } else if c == '3' {
        Some(3)
    } else if c == '4' {
        Some(4)
    } else if c == '5' {
        Some(5)
    } else if c == '6' {
        Some(6)
    } else if c == '7' {
        Some(7)
    } else if c == '8' {
        Some(8)
    } else if c == '9' {
        Some(9)
    } else {
        None
    }
}

/// Reads a 32-bit number from its decimal text.
pub fn parse_i32(text: &str) -> (number: Option<i32>)
    ensures
        number == parsed_i32(text@),
{
    let n = text.unicode_len();
    if n == 0 {
        return None;
    }
    let first = text.get_char(0);
    let negative = first == '-';
    let start: usize = if first == '-' || first == '+' {
        1
    } else {
        0
    };
    let ghost digits = text@.skip(start as int);
    assert(start == 0 ==> digits =~= text@);
    if start == n {
        return None;
    }
    let mut acc: i64 = 0;
    let mut i: usize = start;
    while i < n
        invariant
            n == text@.len(),
            start <= i <= n,
            start < n,
            digits == text@.skip(start as int),
            0 <= acc <= 2147483648,
            i > start ==> digits_value(digits.take(i - start)) == Some(acc as nat),
            i == start ==> acc == 0,
            negative == (text@[0] == '-'),
            start == 1 <==> (text@[0] == '-' || text@[0] == '+'),
            start == 0 || start == 1,
            start == 0 ==> digits == text@,
        decreases n - i,
    {
        let c = text.get_char(i);
        let ghost part = digits.take(i - start + 1);
        proof {
            assert(part.last() == c);
            assert(part.drop_last() =~= digits.take(i - start));
            assert(part.len() == i - start + 1);
            lemma_digits_grow(digits, i - start + 1);
        }
        let d = match digit_value(c) {
            Some(d) => d,
            None => {
                assert(digits_value(part) is None);
                return None;
            },
        };
        acc = acc * 10 + d;
        assert(digits_value(part) == Some(acc as nat));
        if acc > 2147483648 {
            return None;
        }
        i += 1;
    }
    assert(digits.take(n - start) =~= digits);
    if negative {
        Some((-acc) as i32)
    } else if acc <= 2147483647 {
        Some(acc as i32)
    } else {
        None
    }
}

} // verus!
