//! Character classes and string building blocks shared by provider tokens
//! and diagnostic messages.

use vstd::prelude::*;
use vstd::string::StringExecFns;

verus! {

/// An ASCII lowercase letter `a`..`z`.
pub open spec fn is_lower_char(c: char) -> bool {
    'a' <= c && c <= 'z'
}

/// An ASCII uppercase letter `A`..`Z`.
pub open spec fn is_upper_char(c: char) -> bool {
    'A' <= c && c <= 'Z'
}

/// An ASCII decimal digit `0`..`9`.
pub open spec fn is_digit_char(c: char) -> bool {
    '0' <= c && c <= '9'
}

/// A character that may end a canonical token: a lowercase letter or a digit.
pub open spec fn is_endpoint_char(c: char) -> bool {
    is_lower_char(c) || is_digit_char(c)
}

/// A character allowed anywhere in a canonical token.
pub open spec fn is_body_char(c: char) -> bool {
    is_endpoint_char(c) || c == '-' || c == '_' || c == '.' || c == '+'
}

/// The canonical token grammar shared by provider IDs and selectors: a
/// nonempty sequence of lowercase ASCII letters, digits and the separators
/// `-`, `_`, `.`, `+`, whose first and last characters are letters or digits.
pub open spec fn is_canonical_token(s: Seq<char>) -> bool {
    &&& s.len() > 0
    &&& forall|i: int| 0 <= i < s.len() ==> #[trigger] is_body_char(s[i])
    &&& is_endpoint_char(s[0])
    &&& is_endpoint_char(s[s.len() - 1])
}

/// Unicode `White_Space` characters, the set that `str::trim` removes.
pub open spec fn is_white_space_char(c: char) -> bool {
    ||| ('\u{9}' <= c && c <= '\u{d}')
    ||| c == ' '
    ||| c == '\u{85}'
    ||| c == '\u{a0}'
    ||| c == '\u{1680}'
    ||| ('\u{2000}' <= c && c <= '\u{200a}')
    ||| c == '\u{2028}'
    ||| c == '\u{2029}'
    ||| c == '\u{202f}'
    ||| c == '\u{205f}'
    ||| c == '\u{3000}'
}

/// Removes leading white space.
pub open spec fn trim_start(s: Seq<char>) -> Seq<char>
    decreases s.len(),
{
    if s.len() > 0 && is_white_space_char(s[0]) {
        trim_start(s.drop_first())
    } else {
        s
    }
}

/// Removes trailing white space.
pub open spec fn trim_end(s: Seq<char>) -> Seq<char>
    decreases s.len(),
{
    if s.len() > 0 && is_white_space_char(s.last()) {
        trim_end(s.drop_last())
    } else {
        s
    }
}

/// Removes leading and trailing white space, as `str::trim` does.
pub open spec fn trim(s: Seq<char>) -> Seq<char> {
    trim_end(trim_start(s))
}

/// Maps one ASCII uppercase letter to lowercase and keeps every other
/// character.
pub open spec fn ascii_lower_char(c: char) -> char {
    if is_upper_char(c) {
        ((c as u32) + 32) as char
    } else {
        c
    }
}

/// ASCII lowercasing of a whole character sequence.
pub open spec fn ascii_lower(s: Seq<char>) -> Seq<char> {
    s.map_values(|c: char| ascii_lower_char(c))
}

pub fn is_lower(c: char) -> (r: bool)
    ensures r == is_lower_char(c),
{
    'a' <= c && c <= 'z'
}

} // verus!

verus! {

/// Appends one character to an owned string (`String::push`).
#[verifier::external_body]
pub(crate) fn push_char(s: &mut String, c: char)
    ensures
        final(s)@ == old(s)@.push(c),
{
    s.push(c);
}

/// ASCII lowercasing of one character.
pub fn lower_char(c: char) -> (r: char)
    ensures
        r == ascii_lower_char(c),
{
    if 'A' <= c && c <= 'Z' {
        ((c as u8) + 32) as char
    } else {
        c
    }
}

/// Tests membership in the Unicode `White_Space` set.
pub fn is_white_space(c: char) -> (r: bool)
    ensures
        r == is_white_space_char(c),
{
    ('\u{9}' <= c && c <= '\u{d}') || c == ' ' || c == '\u{85}' || c == '\u{a0}' || c == '\u{1680}'
        || ('\u{2000}' <= c && c <= '\u{200a}') || c == '\u{2028}' || c == '\u{2029}'
        || c == '\u{202f}' || c == '\u{205f}' || c == '\u{3000}'
}

/// Copies the characters of a string slice into a vector.
pub fn chars_of(s: &str) -> (r: Vec<char>)
    ensures
        r@ == s@,
{
    let mut v: Vec<char> = Vec::new();
    for c in it: s.chars()
        invariant
            it.seq() == s@,
            v@ == s@.take(it.index() as int),
    {
        v.push(c);
        assert(v@ == s@.take(it.index() + 1));
    }
    assert(v@ == s@);
    v
}

/// Reports whether two strings have identical text.
pub fn text_eq(left: &str, right: &str) -> (r: bool)
    ensures
        r == (left@ == right@),
{
    let left_chars = chars_of(left);
    let right_chars = chars_of(right);
    if left_chars.len() != right_chars.len() {
        return false;
    }
    let mut index: usize = 0;
    while index < left_chars.len()
        invariant
            left_chars@ == left@,
            right_chars@ == right@,
            left@.len() == right@.len(),
            index <= left@.len(),
            forall|i: int| 0 <= i < index ==> left@[i] == right@[i],
        decreases left@.len() - index,
    {
        if left_chars[index] != right_chars[index] {
            return false;
        }
        index = index + 1;
    }
    assert(left@ =~= right@);
    true
}

/// Builds a string from the characters `v[from..to]`, each mapped through
/// ASCII lowercasing.
pub fn lowered_string(v: &Vec<char>, from: usize, to: usize) -> (r: String)
    requires
        from <= to <= v@.len(),
    ensures
        r@ == ascii_lower(v@.subrange(from as int, to as int)),
{
    let mut out = String::new();
    let mut i = from;
    while i < to
        invariant
            from <= i <= to <= v@.len(),
            out@ == ascii_lower(v@.subrange(from as int, i as int)),
        decreases to - i,
    {
        let c = lower_char(v[i]);
        push_char(&mut out, c);
        i = i + 1;
        assert(ascii_lower(v@.subrange(from as int, i as int)) == ascii_lower(
            v@.subrange(from as int, i - 1),
        ).push(ascii_lower_char(v@[i - 1])));
    }
    out
}

/// Dropping leading white space equals skipping any white-space prefix first.
pub proof fn lemma_trim_start_skip(s: Seq<char>, k: int)
    requires
        0 <= k <= s.len(),
        forall|i: int| 0 <= i < k ==> #[trigger] is_white_space_char(s[i]),
    ensures
        trim_start(s) == trim_start(s.subrange(k, s.len() as int)),
    decreases k,
{
    if k > 0 {
        lemma_trim_start_skip(s.drop_first(), k - 1);
        assert(s.drop_first().subrange(k - 1, s.drop_first().len() as int) == s.subrange(
            k,
            s.len() as int,
        ));
    } else {
        assert(s.subrange(0, s.len() as int) == s);
    }
}

/// Dropping trailing white space equals cutting any white-space suffix first.
pub proof fn lemma_trim_end_cut(s: Seq<char>, k: int)
    requires
        0 <= k <= s.len(),
        forall|i: int| k <= i < s.len() ==> #[trigger] is_white_space_char(s[i]),
    ensures
        trim_end(s) == trim_end(s.subrange(0, k)),
    decreases s.len() - k,
{
    if k < s.len() {
        lemma_trim_end_cut(s.drop_last(), k);
        assert(s.drop_last().subrange(0, k) == s.subrange(0, k));
    } else {
        assert(s.subrange(0, k) == s);
    }
}

/// Trims a character vector: returns the bounds `(start, end)` with
/// `trim(v) == v[start..end]`.
pub fn trim_bounds(v: &Vec<char>) -> (r: (usize, usize))
    ensures
        r.0 <= r.1 <= v@.len(),
        trim(v@) == v@.subrange(r.0 as int, r.1 as int),
{
    let mut start: usize = 0;
    while start < v.len() && is_white_space(v[start])
        invariant
            start <= v@.len(),
            forall|i: int| 0 <= i < start ==> #[trigger] is_white_space_char(v@[i]),
        decreases v@.len() - start,
    {
        start = start + 1;
    }
    let ghost rest = v@.subrange(start as int, v@.len() as int);
    proof {
        lemma_trim_start_skip(v@, start as int);
        assert(rest.len() == 0 || !is_white_space_char(rest[0]));
        assert(trim_start(rest) == rest);
    }
    let mut end: usize = v.len();
    while end > start && is_white_space(v[end - 1])
        invariant
            start <= end <= v@.len(),
            rest == v@.subrange(start as int, v@.len() as int),
            forall|i: int| end - start <= i < rest.len() ==> #[trigger] is_white_space_char(rest[i]),
        decreases end - start,
    {
        end = end - 1;
    }
    proof {
        let cut = (end - start) as int;
        lemma_trim_end_cut(rest, cut);
        let head = rest.subrange(0, cut);
        assert(head == v@.subrange(start as int, end as int));
        assert(head.len() == 0 || !is_white_space_char(head.last()));
        assert(trim_end(head) == head);
    }
    (start, end)
}

} // verus!

verus! {

/// The decimal digit character for `d < 10`.
pub open spec fn digit_char(d: nat) -> char {
    ((d + 48) as u8) as char
}

/// Decimal notation of a natural number, without sign or leading zeros.
pub open spec fn decimal(n: nat) -> Seq<char>
    decreases n,
{
    if n < 10 {
        seq![digit_char(n)]
    } else {
        decimal(n / 10).push(digit_char(n % 10))
    }
}

/// Renders `n` in decimal notation.
pub fn decimal_string(n: u64) -> (r: String)
    ensures
        r@ == decimal(n as nat),
    decreases n,
{
    let digit = ((n % 10) as u8 + 48) as char;
    if n < 10 {
        let mut s = String::new();
        push_char(&mut s, digit);
        assert(s@ =~= seq![digit_char(n as nat)]);
        s
    } else {
        let mut s = decimal_string(n / 10);
        push_char(&mut s, digit);
        s
    }
}

/// The `Debug` rendering of a string: the text in double quotes with
/// special characters escaped.
pub uninterp spec fn debug_text(s: Seq<char>) -> Seq<char>;

/// Renders a string as `format!("{:?}", s)` does.
#[verifier::external_body]
pub(crate) fn debug_string(s: &str) -> (r: String)
    ensures
        r@ == debug_text(s@),
{
    format!("{:?}", s)
}

} // verus!

verus! {

/// Lexicographic order of character sequences by code point, the order of
/// `str` comparison.
pub open spec fn text_lt(a: Seq<char>, b: Seq<char>) -> bool
    decreases a.len(),
{
    if a.len() == 0 {
        b.len() > 0
    } else if b.len() == 0 {
        false
    } else if a[0] != b[0] {
        a[0] < b[0]
    } else {
        text_lt(a.drop_first(), b.drop_first())
    }
}

/// The lexicographic order is irreflexive and asymmetric.
pub proof fn lemma_text_lt_asymmetric(a: Seq<char>, b: Seq<char>)
    ensures
        !(text_lt(a, b) && text_lt(b, a)),
        !text_lt(a, a),
    decreases a.len(),
{
    if a.len() > 0 && b.len() > 0 && a[0] == b[0] {
        lemma_text_lt_asymmetric(a.drop_first(), b.drop_first());
    }
    if a.len() > 0 {
        lemma_text_lt_asymmetric(a.drop_first(), a.drop_first());
    }
}

/// The lexicographic order is transitive.
pub proof fn lemma_text_lt_transitive(a: Seq<char>, b: Seq<char>, c: Seq<char>)
    requires
        text_lt(a, b),
        text_lt(b, c),
    ensures
        text_lt(a, c),
    decreases a.len(),
{
    if a.len() > 0 && b.len() > 0 && c.len() > 0 && a[0] == b[0] && b[0] == c[0] {
        lemma_text_lt_transitive(a.drop_first(), b.drop_first(), c.drop_first());
    }
}

/// Distinct sequences are ordered one way or the other.
pub proof fn lemma_text_lt_total(a: Seq<char>, b: Seq<char>)
    requires
        a != b,
    ensures
        text_lt(a, b) || text_lt(b, a),
    decreases a.len(),
{
    if a.len() > 0 && b.len() > 0 {
        if a[0] == b[0] {
            if a.drop_first() == b.drop_first() {
                assert(a =~= seq![a[0]] + a.drop_first());
                assert(b =~= seq![b[0]] + b.drop_first());
            }
            lemma_text_lt_total(a.drop_first(), b.drop_first());
        }
    } else if a.len() == 0 && b.len() == 0 {
        assert(a =~= b);
    }
}

/// Text order is lexicographic from the first character: `a` comes before
/// `b` exactly when `a` is a proper prefix of `b`, or when at the first
/// position where they differ the character of `a` has the smaller code
/// point.
pub proof fn lemma_text_lt_lexicographic(a: Seq<char>, b: Seq<char>)
    ensures
        text_lt(a, b) <==> ((a.len() < b.len() && forall|i: int| 0 <= i < a.len() ==> a[i] == b[i])
            || exists|k: int|
            #![trigger a[k], b[k]]
            0 <= k < a.len() && k < b.len() && a[k] < b[k] && forall|i: int|
                0 <= i < k ==> a[i] == b[i]),
    decreases a.len(),
{
    if a.len() > 0 && b.len() > 0 {
        if a[0] != b[0] {
            if a[0] < b[0] {
                assert(a[0] < b[0] && forall|i: int| 0 <= i < 0 ==> a[i] == b[i]);
            } else {
                assert(!(forall|i: int| 0 <= i < a.len() ==> a[i] == b[i]));
                assert forall|k: int|
                    0 <= k < a.len() && k < b.len() && a[k] < b[k] implies !(forall|i: int|
                        0 <= i < k ==> a[i] == b[i]) by {
                    if k > 0 {
                        assert(a[0] != b[0]);
                    }
                }
            }
        } else {
            let a1 = a.drop_first();
            let b1 = b.drop_first();
            lemma_text_lt_lexicographic(a1, b1);
            if text_lt(a, b) {
                if a1.len() < b1.len() && forall|i: int| 0 <= i < a1.len() ==> a1[i] == b1[i] {
                    assert forall|i: int| 0 <= i < a.len() implies a[i] == b[i] by {
                        if i > 0 {
                            assert(a[i] == a1[i - 1] && b[i] == b1[i - 1]);
                        }
                    }
                } else {
                    let k1 = choose|k: int|
                        #![trigger a1[k], b1[k]]
                        0 <= k < a1.len() && k < b1.len() && a1[k] < b1[k] && forall|i: int|
                            0 <= i < k ==> a1[i] == b1[i];
                    assert(a[k1 + 1] == a1[k1] && b[k1 + 1] == b1[k1]);
                    assert forall|i: int| 0 <= i < k1 + 1 implies a[i] == b[i] by {
                        if i > 0 {
                            assert(a[i] == a1[i - 1] && b[i] == b1[i - 1]);
                        }
                    }
                }
            } else {
                assert(!(a1.len() < b1.len() && forall|i: int| 0 <= i < a1.len() ==> a1[i] == b1[i]));
                if a.len() < b.len() && forall|i: int| 0 <= i < a.len() ==> a[i] == b[i] {
                    assert forall|i: int| 0 <= i < a1.len() implies a1[i] == b1[i] by {
                        assert(a[i + 1] == b[i + 1]);
                    }
                }
                assert forall|k: int|
                    0 <= k < a.len() && k < b.len() && a[k] < b[k] implies !(forall|i: int|
                        0 <= i < k ==> a[i] == b[i]) by {
                    if forall|i: int| 0 <= i < k ==> a[i] == b[i] {
                        assert(k > 0);
                        assert(a1[k - 1] == a[k] && b1[k - 1] == b[k]);
                        assert forall|i: int| 0 <= i < k - 1 implies a1[i] == b1[i] by {
                            assert(a[i + 1] == b[i + 1]);
                        }
                    }
                }
            }
        }
    }
}

/// The canonical token grammar, character by character: a token is
/// nonempty, every character is an ASCII lowercase letter, a digit or one of
/// `-`, `_`, `.`, `+`, and the first and the last character are each a
/// lowercase letter or a digit.
pub proof fn lemma_canonical_token_characters(s: Seq<char>)
    ensures
        is_canonical_token(s) <==> (s.len() > 0 && (forall|i: int|
            0 <= i < s.len() ==> ('a' <= #[trigger] s[i] && s[i] <= 'z') || ('0' <= s[i] && s[i]
                <= '9') || s[i] == '-' || s[i] == '_' || s[i] == '.' || s[i] == '+') && (('a'
            <= s[0] && s[0] <= 'z') || ('0' <= s[0] && s[0] <= '9')) && (('a' <= s[s.len() - 1]
            && s[s.len() - 1] <= 'z') || ('0' <= s[s.len() - 1] && s[s.len() - 1] <= '9'))),
{
    if s.len() > 0 {
        if forall|i: int| 0 <= i < s.len() ==> #[trigger] is_body_char(s[i]) {
            assert forall|i: int| 0 <= i < s.len() implies ('a' <= #[trigger] s[i] && s[i] <= 'z')
                || ('0' <= s[i] && s[i] <= '9') || s[i] == '-' || s[i] == '_' || s[i] == '.'
                || s[i] == '+' by {
                assert(is_body_char(s[i]));
            }
        }
        if forall|i: int|
            0 <= i < s.len() ==> ('a' <= #[trigger] s[i] && s[i] <= 'z') || ('0' <= s[i] && s[i]
                <= '9') || s[i] == '-' || s[i] == '_' || s[i] == '.' || s[i] == '+' {
            assert forall|i: int| 0 <= i < s.len() implies #[trigger] is_body_char(s[i]) by {
                assert(('a' <= s[i] && s[i] <= 'z') || ('0' <= s[i] && s[i] <= '9') || s[i] == '-'
                    || s[i] == '_' || s[i] == '.' || s[i] == '+');
            }
        }
    }
}

/// ASCII lowercasing of one character: an uppercase letter `A`..`Z` becomes
/// the letter 32 code points above it, in `a`..`z`; every other character is
/// kept. So no result is an ASCII uppercase letter.
pub proof fn lemma_ascii_lower_char(c: char)
    ensures
        'A' <= c && c <= 'Z' ==> ascii_lower_char(c) as u32 == c as u32 + 32 && 'a'
            <= ascii_lower_char(c) && ascii_lower_char(c) <= 'z',
        !('A' <= c && c <= 'Z') ==> ascii_lower_char(c) == c,
        !('A' <= ascii_lower_char(c) && ascii_lower_char(c) <= 'Z'),
{
}

/// Lowercasing a sequence keeps its length, maps each uppercase ASCII letter
/// to its lowercase letter, keeps every other character, and leaves no
/// uppercase ASCII letter.
pub proof fn lemma_ascii_lower(s: Seq<char>)
    ensures
        ascii_lower(s).len() == s.len(),
        forall|i: int|
            0 <= i < s.len() ==> (if 'A' <= s[i] && s[i] <= 'Z' {
                #[trigger] ascii_lower(s)[i] as u32 == s[i] as u32 + 32
            } else {
                ascii_lower(s)[i] == s[i]
            }),
        forall|i: int|
            0 <= i < s.len() ==> !('A' <= #[trigger] ascii_lower(s)[i] && ascii_lower(s)[i] <= 'Z'),
{
    assert forall|i: int| 0 <= i < s.len() implies (if 'A' <= s[i] && s[i] <= 'Z' {
        #[trigger] ascii_lower(s)[i] as u32 == s[i] as u32 + 32
    } else {
        ascii_lower(s)[i] == s[i]
    }) && !('A' <= ascii_lower(s)[i] && ascii_lower(s)[i] <= 'Z') by {
        lemma_ascii_lower_char(s[i]);
    }
}

/// Compares two strings lexicographically by code point.
pub fn text_less(a: &str, b: &str) -> (r: bool)
    ensures
        r == text_lt(a@, b@),
{
    let av = chars_of(a);
    let bv = chars_of(b);
    let mut i: usize = 0;
    assert(a@.skip(0) =~= a@);
    assert(b@.skip(0) =~= b@);
    while i < av.len() && i < bv.len() && av[i] == bv[i]
        invariant
            av@ == a@,
            bv@ == b@,
            i <= av@.len(),
            i <= bv@.len(),
            text_lt(a@, b@) == text_lt(a@.skip(i as int), b@.skip(i as int)),
        decreases av@.len() - i,
    {
        assert(a@.skip(i as int).drop_first() =~= a@.skip(i + 1));
        assert(b@.skip(i as int).drop_first() =~= b@.skip(i + 1));
        i = i + 1;
    }
    if i == av.len() {
        i < bv.len()
    } else if i == bv.len() {
        false
    } else {
        av[i] < bv[i]
    }
}

} // verus!
