//! Identifier sanitization: the character-level rules that turn a host name
//! (or a raw URL) into a package-safe identifier.

use vstd::prelude::*;
use vstd::string::*;

verus! {

/// Lower-cases one ASCII letter; every other character is left unchanged.
pub open spec fn lower_char(c: char) -> char {
    if 'A' <= c && c <= 'Z' {
        ((c as u8) + 32) as char
    } else {
        c
    }
}

/// A character that the sanitizer keeps unchanged (after lower-casing):
/// the letters `a` up to but excluding `z`, and the decimal digits.
pub open spec fn kept_char(c: char) -> bool {
    ('a' <= c && c < 'z') || ('0' <= c && c <= '9')
}

/// What one input character contributes to the sanitized identifier:
/// `.` and `_` become `-`, kept characters stay, everything else is dropped.
pub open spec fn sanitize_char(c: char) -> Seq<char> {
    let l = lower_char(c);
    if l == '.' || l == '_' {
        seq!['-']
    } else if kept_char(l) {
        seq![l]
    } else {
        Seq::empty()
    }
}

/// The sanitized form of a whole string: each character lower-cased, then
/// mapped or dropped by `sanitize_char`, in order.
pub open spec fn sanitize(s: Seq<char>) -> Seq<char>
    decreases s.len(),
{
    if s.len() == 0 {
        Seq::empty()
    } else {
        sanitize_char(s[0]) + sanitize(s.drop_first())
    }
}

/// Sanitizing a string one character longer extends the sanitized result by
/// that character's contribution.
pub proof fn lemma_sanitize_snoc(s: Seq<char>, c: char)
    ensures
        sanitize(s.push(c)) == sanitize(s) + sanitize_char(c),
    decreases s.len(),
{
    if s.len() == 0 {
        let p = s.push(c);
        assert(p.len() == 1);
        assert(p[0] == c);
        assert(p.drop_first() =~= Seq::<char>::empty());
        assert(sanitize(p.drop_first()) =~= Seq::<char>::empty());
        assert(sanitize(p) =~= sanitize_char(c) + sanitize(p.drop_first()));
        assert(sanitize(p) =~= sanitize_char(c));
        assert(sanitize(s) + sanitize_char(c) =~= sanitize_char(c));
    } else {
        assert(s.push(c).drop_first() =~= s.drop_first().push(c));
        lemma_sanitize_snoc(s.drop_first(), c);
        assert(sanitize(s.push(c)) =~= sanitize(s) + sanitize_char(c));
    }
}

/// Every character of a sanitized string is a lowercase letter, a digit, or
/// a hyphen.
pub proof fn lemma_sanitize_chars_allowed(s: Seq<char>)
    ensures
        forall|i: int|
            0 <= i < sanitize(s).len() ==> #[trigger] allowed_ident_char(sanitize(s)[i]),
    decreases s.len(),
{
    if s.len() > 0 {
        lemma_sanitize_chars_allowed(s.drop_first());
        let h = sanitize_char(s[0]);
        let t = sanitize(s.drop_first());
        assert(sanitize(s) == h + t);
        assert forall|i: int| 0 <= i < sanitize(s).len() implies #[trigger] allowed_ident_char(
            sanitize(s)[i],
        ) by {
            if i < h.len() {
                assert(sanitize(s)[i] == h[i]);
                assert(allowed_ident_char(h[i]));
            } else {
                assert(sanitize(s)[i] == t[i - h.len()]);
                assert(allowed_ident_char(t[i - h.len()]));
            }
        }
    }
}

/// A character that may appear in a sanitized identifier after the prefix:
/// a lowercase letter, a digit, or a hyphen.
pub open spec fn allowed_ident_char(c: char) -> bool {
    ('a' <= c && c <= 'z') || ('0' <= c && c <= '9') || c == '-'
}

/// Every character of a sanitized string is either a hyphen or a character
/// the sanitizer keeps unchanged.
pub proof fn lemma_sanitize_output_chars(s: Seq<char>)
    ensures
        forall|i: int|
            0 <= i < sanitize(s).len() ==> (#[trigger] sanitize(s)[i] == '-' || kept_char(
                sanitize(s)[i],
            )),
    decreases s.len(),
{
    if s.len() > 0 {
        lemma_sanitize_output_chars(s.drop_first());
        let h = sanitize_char(s[0]);
        let t = sanitize(s.drop_first());
        assert(sanitize(s) == h + t);
        assert forall|i: int| 0 <= i < sanitize(s).len() implies (#[trigger] sanitize(s)[i] == '-'
            || kept_char(sanitize(s)[i])) by {
            if i < h.len() {
                assert(sanitize(s)[i] == h[i]);
            } else {
                assert(sanitize(s)[i] == t[i - h.len()]);
                assert(t[i - h.len()] == '-' || kept_char(t[i - h.len()]));
            }
        }
    }
}

/// The sanitizer leaves a string of kept characters as it is.
pub proof fn lemma_sanitize_kept_identity(t: Seq<char>)
    requires
        forall|i: int| 0 <= i < t.len() ==> kept_char(#[trigger] t[i]),
    ensures
        sanitize(t) == t,
    decreases t.len(),
{
    if t.len() > 0 {
        assert(kept_char(t[0]));
        assert(lower_char(t[0]) == t[0]);
        assert(sanitize_char(t[0]) =~= seq![t[0]]);
        lemma_sanitize_kept_identity(t.drop_first());
        assert(sanitize(t) =~= seq![t[0]] + t.drop_first());
        assert(seq![t[0]] + t.drop_first() =~= t);
    }
}

/// Where sanitizing introduced no hyphen, the sanitizer is idempotent:
/// running it again over its own output changes nothing. (A hyphen in the
/// output comes only from `.` or `_`, and another round would drop it, so
/// idempotence holds exactly of hyphen-free output.)
pub proof fn lemma_sanitize_idempotent_on_hyphen_free(s: Seq<char>)
    requires
        forall|i: int| 0 <= i < sanitize(s).len() ==> #[trigger] sanitize(s)[i] != '-',
    ensures
        sanitize(sanitize(s)) == sanitize(s),
{
    lemma_sanitize_output_chars(s);
    assert forall|i: int| 0 <= i < sanitize(s).len() implies kept_char(
        #[trigger] sanitize(s)[i],
    ) by {
        assert(sanitize(s)[i] == '-' || kept_char(sanitize(s)[i]));
    }
    lemma_sanitize_kept_identity(sanitize(s));
}

/// Computes the sanitized identifier characters of `base` as ASCII bytes.
fn sanitize_bytes(base: &str) -> (r: Vec<u8>)
    ensures
        r@.map_values(|b: u8| b as char) == sanitize(base@),
        forall|i: int| 0 <= i < r@.len() ==> r@[i] < 128,
{
    let n: usize = base.unicode_len();
    let mut r: Vec<u8> = Vec::new();
    let mut i: usize = 0;
    while i < n
        invariant
            n == base@.len(),
            i <= n,
            r@.map_values(|b: u8| b as char) == sanitize(base@.subrange(0, i as int)),
            forall|j: int| 0 <= j < r@.len() ==> r@[j] < 128,
        decreases n - i,
    {
        let c = base.get_char(i);
        let code: u32 = c as u32;
        let lc: u32 = if 65 <= code && code <= 90 {
            code + 32
        } else {
            code
        };
        proof {
            assert(lower_char(c) as u32 == lc);
        }
        let ghost prev = r@;
        if lc == 46 || lc == 95 {
            r.push(45u8);
            proof {
                assert(prev.push(45u8).map_values(|b: u8| b as char) =~= prev.map_values(
                    |b: u8| b as char,
                ).push('-'));
            }
        } else if (97 <= lc && lc < 122) || (48 <= lc && lc <= 57) {
            r.push(lc as u8);
            proof {
                assert(prev.push(lc as u8).map_values(|b: u8| b as char) =~= prev.map_values(
                    |b: u8| b as char,
                ).push(lower_char(c)));
            }
        }
        proof {
            assert(base@.subrange(0, i as int).push(c) =~= base@.subrange(0, i + 1));
            lemma_sanitize_snoc(base@.subrange(0, i as int), c);
            assert(r@.map_values(|b: u8| b as char) =~= sanitize(base@.subrange(0, i + 1)));
        }
        i = i + 1;
    }
    proof {
        assert(base@.subrange(0, n as int) =~= base@);
    }
    r
}

/// Relies on `String::from_utf8`: a sequence of ASCII bytes decodes to the
/// string whose characters carry exactly those codes.
#[verifier::external_body]
fn ascii_string(bytes: &Vec<u8>) -> (r: String)
    requires
        forall|i: int| 0 <= i < bytes@.len() ==> bytes@[i] < 128,
    ensures
        r@ == bytes@.map_values(|b: u8| b as char),
{
    String::from_utf8(bytes.clone()).unwrap()
}

/// Builds `webapp-` followed by the sanitized form of `base`.
pub fn sanitized_ident(base: &str) -> (r: String)
    ensures
        r@ == "webapp-"@ + sanitize(base@),
{
    let bytes = sanitize_bytes(base);
    let tail = ascii_string(&bytes);
    let mut r = "webapp-".to_owned();
    r.append(tail.as_str());
    r
}

} // verus!
