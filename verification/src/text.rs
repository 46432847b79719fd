//! Character-level text utilities: whitespace trimming, ASCII case folding,
//! decimal rendering and lexicographic comparison of strings.

use vstd::prelude::*;

verus! {

// ---------------------------------------------------------------------------
// Whitespace and trimming
// ---------------------------------------------------------------------------

/// The characters with the Unicode `White_Space` property.
pub open spec fn is_white_space(c: char) -> bool {
    let u = c as u32;
    ||| 0x09 <= u && u <= 0x0D
    ||| u == 0x20
    ||| u == 0x85
    ||| u == 0xA0
    ||| u == 0x1680
    ||| 0x2000 <= u && u <= 0x200A
    ||| u == 0x2028
    ||| u == 0x2029
    ||| u == 0x202F
    ||| u == 0x205F
    ||| u == 0x3000
}

/// `s` without its leading white space.
pub open spec fn trim_start_spec(s: Seq<char>) -> Seq<char>
    decreases s.len(),
{
    if s.len() > 0 && is_white_space(s[0]) {
        trim_start_spec(s.drop_first())
    } else {
        s
    }
}

/// `s` without its trailing white space.
pub open spec fn trim_end_spec(s: Seq<char>) -> Seq<char>
    decreases s.len(),
{
    if s.len() > 0 && is_white_space(s.last()) {
        trim_end_spec(s.drop_last())
    } else {
        s
    }
}

/// `s` without its leading and trailing white space.
pub open spec fn trim_spec(s: Seq<char>) -> Seq<char> {
    trim_end_spec(trim_start_spec(s))
}

/// Whether `s` holds nothing but white space (the empty text included).
pub open spec fn is_blank(s: Seq<char>) -> bool {
    trim_spec(s).len() == 0
}

/// `str::trim`: the documentation defines white space as the characters with
/// the Unicode `White_Space` property; this contract states that the call
/// removes exactly the leading and trailing ones.
#[verifier::external_body]
pub fn trim_whitespace(s: &str) -> (r: &str)
    ensures
        r@ == trim_spec(s@),
{
    s.trim()
}

/// Whether the text is empty or white space only.
pub fn is_blank_text(s: &str) -> (r: bool)
    ensures
        r == is_blank(s@),
{
    trim_whitespace(s).is_empty()
}

pub proof fn lemma_trim_start_no_leading(s: Seq<char>)
    ensures
        trim_start_spec(s).len() > 0 ==> !is_white_space(trim_start_spec(s)[0]),
        trim_start_spec(s).len() <= s.len(),
    decreases s.len(),
{
    if s.len() > 0 && is_white_space(s[0]) {
        lemma_trim_start_no_leading(s.drop_first());
    }
}

/// Removing trailing white space keeps the first character of a text that
/// does not start with white space.
pub proof fn lemma_trim_end_keeps_start(s: Seq<char>)
    requires
        s.len() > 0 ==> !is_white_space(s[0]),
    ensures
        trim_end_spec(s).len() > 0 ==> !is_white_space(trim_end_spec(s)[0]),
        trim_end_spec(s).len() > 0 ==> !is_white_space(trim_end_spec(s).last()),
        trim_end_spec(s).len() > 0 ==> trim_end_spec(s)[0] == s[0],
    decreases s.len(),
{
    if s.len() > 0 && is_white_space(s.last()) {
        lemma_trim_end_keeps_start(s.drop_last());
    }
}

/// A text without white space at either end is its own trim.
pub proof fn lemma_trim_of_trimmed(s: Seq<char>)
    requires
        s.len() > 0 ==> !is_white_space(s[0]) && !is_white_space(s.last()),
    ensures
        trim_spec(s) == s,
{
}

/// Trimming twice is trimming once.
pub proof fn lemma_trim_idempotent(s: Seq<char>)
    ensures
        trim_spec(trim_spec(s)) == trim_spec(s),
{
    lemma_trim_start_no_leading(s);
    lemma_trim_end_keeps_start(trim_start_spec(s));
    lemma_trim_of_trimmed(trim_spec(s));
}

// ---------------------------------------------------------------------------
// ASCII case folding
// ---------------------------------------------------------------------------

/// A character mapped to lower case when it is an upper-case ASCII letter.
pub open spec fn ascii_lower_char(c: char) -> char {
    if 'A' <= c && c <= 'Z' {
        ((c as u32) + 32) as char
    } else {
        c
    }
}

/// `s` with every upper-case ASCII letter mapped to lower case.
pub open spec fn ascii_lowercase_spec(s: Seq<char>) -> Seq<char> {
    s.map_values(|c: char| ascii_lower_char(c))
}

/// `String::push`: appends one character.
#[verifier::external_body]
pub fn push_char(s: &mut String, c: char)
    ensures
        final(s)@ == old(s)@.push(c),
{
    s.push(c);
}

/// The lower-case form of one character, as `char::to_ascii_lowercase` gives it.
pub fn lower_char(c: char) -> (r: char)
    ensures
        r == ascii_lower_char(c),
{
    if 'A' <= c && c <= 'Z' {
        let b: u8 = (c as u8) + 32;
        b as char
    } else {
        c
    }
}

/// The text with its ASCII letters in lower case, as `str::to_ascii_lowercase`
/// gives it; other characters are kept.
pub fn to_ascii_lowercase(s: &str) -> (r: String)
    ensures
        r@ == ascii_lowercase_spec(s@),
{
    let n = s.unicode_len();
    let mut r = String::new();
    let mut i: usize = 0;
    while i < n
        invariant
            n == s@.len(),
            i <= n,
            r@ == ascii_lowercase_spec(s@.take(i as int)),
        decreases n - i,
    {
        let c = s.get_char(i);
        push_char(&mut r, lower_char(c));
        assert(s@.take(i + 1) == s@.take(i as int).push(c));
        i = i + 1;
    }
    assert(s@.take(n as int) == s@);
    r
}

// ---------------------------------------------------------------------------
// Decimal rendering
// ---------------------------------------------------------------------------

/// The ASCII digit for `d`, which is below ten.
pub open spec fn decimal_digit(d: nat) -> char {
    ((d + 48) as u8) as char
}

/// The decimal representation of `n`, without sign or leading zeros.
pub open spec fn decimal_spec(n: nat) -> Seq<char>
    decreases n,
{
    if n < 10 {
        seq![decimal_digit(n)]
    } else {
        decimal_spec(n / 10).push(decimal_digit(n % 10))
    }
}

/// Appends the decimal representation of `n` to `out`.
pub fn push_decimal(out: &mut String, n: usize)
    ensures
        final(out)@ == old(out)@ + decimal_spec(n as nat),
    decreases n,
{
    if n >= 10 {
        push_decimal(out, n / 10);
    }
    let d: u8 = (n % 10) as u8;
    let c: char = (d + 48) as char;
    push_char(out, c);
    assert(decimal_spec(n as nat) == if n < 10 {
        seq![decimal_digit(n as nat)]
    } else {
        decimal_spec((n / 10) as nat).push(decimal_digit((n % 10) as nat))
    });
}

// ---------------------------------------------------------------------------
// Lexicographic order
// ---------------------------------------------------------------------------

/// `a` and `b` agree on their first `k` characters.
pub open spec fn agree_up_to(a: Seq<char>, b: Seq<char>, k: int) -> bool {
    &&& 0 <= k <= a.len()
    &&& k <= b.len()
    &&& forall|j: int| 0 <= j < k ==> a[j] == b[j]
}

/// `a` comes strictly before `b` in lexicographic order by code point, the
/// order in which `str`'s comparison puts them (UTF-8 keeps code-point order).
pub open spec fn text_less(a: Seq<char>, b: Seq<char>) -> bool {
    exists|k: int|
        #![trigger agree_up_to(a, b, k)]
        agree_up_to(a, b, k) && ((k == a.len() && k < b.len()) || (k < a.len() && k < b.len() && (a[k] as int) < (b[k] as int)))
}

pub proof fn lemma_text_less_irreflexive(a: Seq<char>)
    ensures
        !text_less(a, a),
{
}

pub proof fn lemma_text_less_transitive(a: Seq<char>, b: Seq<char>, c: Seq<char>)
    requires
        text_less(a, b),
        text_less(b, c),
    ensures
        text_less(a, c),
{
    let k1 = choose|k: int|
        #![trigger agree_up_to(a, b, k)]
        agree_up_to(a, b, k) && ((k == a.len() && k < b.len()) || (k < a.len() && k < b.len() && (a[k] as int) < (b[k] as int)));
    let k2 = choose|k: int|
        #![trigger agree_up_to(b, c, k)]
        agree_up_to(b, c, k) && ((k == b.len() && k < c.len()) || (k < b.len() && k < c.len() && (b[k] as int) < (c[k] as int)));
    let k = if k1 <= k2 { k1 } else { k2 };
    assert(agree_up_to(a, c, k));
}

pub proof fn lemma_text_less_total(a: Seq<char>, b: Seq<char>)
    ensures
        text_less(a, b) || a == b || text_less(b, a),
    decreases a.len(),
{
    if a.len() == 0 || b.len() == 0 {
        assert(agree_up_to(a, b, 0));
        assert(agree_up_to(b, a, 0));
        if a.len() == 0 && b.len() == 0 {
            assert(a =~= b);
        }
    } else if a[0] != b[0] {
        assert(agree_up_to(a, b, 0));
        assert(agree_up_to(b, a, 0));
        assert((a[0] as int) != (b[0] as int));
        assert(text_less(a, b) || text_less(b, a));
    } else {
        let a1 = a.drop_first();
        let b1 = b.drop_first();
        lemma_text_less_total(a1, b1);
        if text_less(a1, b1) {
            let k = choose|k: int|
                #![trigger agree_up_to(a1, b1, k)]
                agree_up_to(a1, b1, k) && ((k == a1.len() && k < b1.len()) || (k < a1.len() && k < b1.len() && (a1[k] as int) < (b1[k] as int)));
            assert forall|j: int| 0 <= j < k + 1 implies a[j] == b[j] by {
                if j > 0 {
                    assert(a[j] == a1[j - 1] && b[j] == b1[j - 1]);
                }
            }
            assert(agree_up_to(a, b, k + 1));
        } else if text_less(b1, a1) {
            let k = choose|k: int|
                #![trigger agree_up_to(b1, a1, k)]
                agree_up_to(b1, a1, k) && ((k == b1.len() && k < a1.len()) || (k < b1.len() && k < a1.len() && (b1[k] as int) < (a1[k] as int)));
            assert forall|j: int| 0 <= j < k + 1 implies b[j] == a[j] by {
                if j > 0 {
                    assert(a[j] == a1[j - 1] && b[j] == b1[j - 1]);
                }
            }
            assert(agree_up_to(b, a, k + 1));
        } else {
            assert forall|j: int| 0 <= j < a.len() implies a[j] == b[j] by {
                if j > 0 {
                    assert(a[j] == a1[j - 1] && b[j] == b1[j - 1]);
                }
            }
            assert(a =~= b);
        }
    }
}

/// Whether `a` comes strictly before `b` (`a < b` on `str`).
pub fn str_less(a: &str, b: &str) -> (r: bool)
    ensures
        r == text_less(a@, b@),
{
    let na = a.unicode_len();
    let nb = b.unicode_len();
    let mut i: usize = 0;
    while i < na && i < nb
        invariant
            na == a@.len(),
            nb == b@.len(),
            agree_up_to(a@, b@, i as int),
        decreases na - i,
    {
        let ca = a.get_char(i);
        let cb = b.get_char(i);
        if ca != cb {
            if (ca as u32) < (cb as u32) {
                return true;
            } else {
                proof {
                    assert(agree_up_to(b@, a@, i as int));
                    lemma_text_less_total(a@, b@);
                    lemma_text_less_asymmetric(b@, a@);
                }
                return false;
            }
        }
        i = i + 1;
    }
    if i == na && i < nb {
        true
    } else {
        proof {
            if i == nb {
                assert(agree_up_to(b@, a@, i as int));
                if na == nb {
                    assert(a@ =~= b@);
                    lemma_text_less_irreflexive(a@);
                } else {
                    lemma_text_less_asymmetric(b@, a@);
                }
            }
        }
        false
    }
}

pub proof fn lemma_text_less_asymmetric(a: Seq<char>, b: Seq<char>)
    requires
        text_less(a, b),
    ensures
        !text_less(b, a),
{
    if text_less(b, a) {
        lemma_text_less_transitive(a, b, a);
        lemma_text_less_irreflexive(a);
    }
}

} // verus!
