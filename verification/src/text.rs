//! Verified text helpers: character-wise string equality, ASCII case
//! folding, and Unicode-aware capitalization of a first letter.

use vstd::prelude::*;

verus! {

/// Character-wise equality of two string slices.
pub fn str_eq(a: &str, b: &str) -> (r: bool)
    ensures
        r <==> a@ == b@,
{
    let alen = a.unicode_len();
    let blen = b.unicode_len();
    if alen != blen {
        return false;
    }
    let mut i: usize = 0;
    while i < alen
        invariant
            alen == a@.len(),
            blen == b@.len(),
            alen == blen,
            i <= alen,
            forall|k: int| 0 <= k < i ==> a@[k] == b@[k],
        decreases alen - i,
    {
        let ca = a.get_char(i);
        let cb = b.get_char(i);
        if ca != cb {
            return false;
        }
        i += 1;
    }
    proof {
        assert(a@ =~= b@);
    }
    true
}

/// ASCII lower-casing of one character; characters outside `A..=Z` are kept.
pub open spec fn spec_lower_char(c: char) -> char {
    if 'A' <= c && c <= 'Z' {
        (((c as u8) + 32) as char)
    } else {
        c
    }
}

/// Lower-cases one ASCII letter; other characters pass through unchanged.
pub fn lower_ascii_char(c: char) -> (r: char)
    ensures
        r == spec_lower_char(c),
{
    if c >= 'A' && c <= 'Z' {
        ((c as u8) + 32) as char
    } else {
        c
    }
}

/// A string, lower-cased character by character under the ASCII rule.
pub open spec fn spec_lower_ascii(s: Seq<char>) -> Seq<char> {
    s.map_values(|c: char| spec_lower_char(c))
}

/// Whether a file extension names a supported palette image format,
/// compared without regard to ASCII case.
pub open spec fn spec_is_image_extension(s: Seq<char>) -> bool {
    ||| spec_lower_ascii(s) == "png"@
    ||| spec_lower_ascii(s) == "jpg"@
    ||| spec_lower_ascii(s) == "jpeg"@
    ||| spec_lower_ascii(s) == "webp"@
}

/// Compares two string slices for equality under the ASCII lower-casing rule.
pub fn eq_ignore_ascii_case(a: &str, b: &str) -> (r: bool)
    ensures
        r <==> spec_lower_ascii(a@) == spec_lower_ascii(b@),
{
    let alen = a.unicode_len();
    let blen = b.unicode_len();
    if alen != blen {
        proof {
            assert(spec_lower_ascii(a@).len() != spec_lower_ascii(b@).len());
        }
        return false;
    }
    let mut i: usize = 0;
    while i < alen
        invariant
            alen == a@.len(),
            blen == b@.len(),
            alen == blen,
            i <= alen,
            forall|k: int|
                0 <= k < i ==> spec_lower_ascii(a@)[k] == spec_lower_ascii(b@)[k],
        decreases alen - i,
    {
        let ca = lower_ascii_char(a.get_char(i));
        let cb = lower_ascii_char(b.get_char(i));
        if ca != cb {
            proof {
                assert(spec_lower_ascii(a@)[i as int] != spec_lower_ascii(b@)[i as int]);
            }
            return false;
        }
        i += 1;
    }
    proof {
        assert(spec_lower_ascii(a@) =~= spec_lower_ascii(b@));
    }
    true
}

/// Lexicographic order on strings by Unicode code point — the order in
/// which UTF-8 byte comparison also sorts them.
pub open spec fn spec_str_lt(a: Seq<char>, b: Seq<char>) -> bool
    decreases a.len(),
{
    if b.len() == 0 {
        false
    } else if a.len() == 0 {
        true
    } else if a[0] != b[0] {
        (a[0] as u32) < (b[0] as u32)
    } else {
        spec_str_lt(a.drop_first(), b.drop_first())
    }
}

/// The order is irreflexive and total: two strings neither of which is
/// less than the other are equal.
pub proof fn lemma_str_lt_total(a: Seq<char>, b: Seq<char>)
    requires
        !spec_str_lt(a, b),
        !spec_str_lt(b, a),
    ensures
        a == b,
    decreases a.len(),
{
    if b.len() == 0 {
        assert(a.len() == 0);
        assert(a =~= b);
    } else {
        assert(a.len() > 0);
        if a[0] != b[0] {
            vstd::utf8::char_u32_cast(a[0], a[0] as u32);
            vstd::utf8::char_u32_cast(b[0], b[0] as u32);
            assert((a[0] as u32) == (b[0] as u32));
            assert(false);
        }
        lemma_str_lt_total(a.drop_first(), b.drop_first());
        assert(a.len() == b.len());
        assert forall|i: int| 0 <= i < a.len() implies a[i] == b[i] by {
            if i > 0 {
                assert(a[i] == a.drop_first()[i - 1]);
                assert(b[i] == b.drop_first()[i - 1]);
            }
        }
        assert(a =~= b);
    }
}

/// The order is transitive.
pub proof fn lemma_str_lt_trans(a: Seq<char>, b: Seq<char>, c: Seq<char>)
    requires
        spec_str_lt(a, b),
        spec_str_lt(b, c),
    ensures
        spec_str_lt(a, c),
    decreases a.len(),
{
    if a.len() == 0 {
        assert(b.len() > 0);
        assert(c.len() > 0);
    } else {
        assert(b.len() > 0);
        assert(c.len() > 0);
        if a[0] == b[0] && b[0] == c[0] {
            lemma_str_lt_trans(a.drop_first(), b.drop_first(), c.drop_first());
        }
    }
}

/// A string is never less than itself.
pub proof fn lemma_str_lt_irrefl(a: Seq<char>)
    ensures
        !spec_str_lt(a, a),
    decreases a.len(),
{
    if a.len() > 0 {
        lemma_str_lt_irrefl(a.drop_first());
    }
}

/// Nothing below or equal to a string in the order is also above it.
pub proof fn lemma_str_le_not_gt(a: Seq<char>, b: Seq<char>)
    requires
        spec_str_lt(a, b) || a == b,
    ensures
        !spec_str_lt(b, a),
{
    if a == b {
        lemma_str_lt_irrefl(a);
    } else if spec_str_lt(b, a) {
        lemma_str_lt_trans(a, b, a);
        lemma_str_lt_irrefl(a);
    }
}

/// Not-above is transitive: whatever is not above `b` is not above
/// anything `b` is not above.
pub proof fn lemma_str_le_trans(a: Seq<char>, b: Seq<char>, c: Seq<char>)
    requires
        !spec_str_lt(b, a),
        !spec_str_lt(c, b),
    ensures
        !spec_str_lt(c, a),
{
    if spec_str_lt(c, a) {
        if !spec_str_lt(a, b) {
            lemma_str_lt_total(a, b);
        }
        if a == b {
            assert(false);
        } else {
            lemma_str_lt_trans(c, a, b);
        }
    }
}

/// Compares two string slices in the code-point lexicographic order.
pub fn str_lt(a: &str, b: &str) -> (r: bool)
    ensures
        r == spec_str_lt(a@, b@),
{
    let alen = a.unicode_len();
    let blen = b.unicode_len();
    let mut i: usize = 0;
    proof {
        assert(a@.skip(0) =~= a@);
        assert(b@.skip(0) =~= b@);
    }
    loop
        invariant
            alen == a@.len(),
            blen == b@.len(),
            i <= alen,
            i <= blen,
            spec_str_lt(a@, b@) == spec_str_lt(a@.skip(i as int), b@.skip(i as int)),
        decreases alen - i,
    {
        if i == blen {
            proof {
                assert(b@.skip(i as int) =~= Seq::<char>::empty());
            }
            return false;
        }
        if i == alen {
            proof {
                assert(a@.skip(i as int) =~= Seq::<char>::empty());
                assert(b@.skip(i as int).len() > 0);
            }
            return true;
        }
        let ca = a.get_char(i);
        let cb = b.get_char(i);
        proof {
            assert(a@.skip(i as int)[0] == a@[i as int]);
            assert(b@.skip(i as int)[0] == b@[i as int]);
        }
        if ca != cb {
            return (ca as u32) < (cb as u32);
        }
        proof {
            assert(a@.skip(i as int).drop_first() =~= a@.skip(i + 1));
            assert(b@.skip(i as int).drop_first() =~= b@.skip(i + 1));
        }
        i += 1;
    }
}

/// The Unicode uppercase mapping of one character, as `char::to_uppercase`
/// yields it. The mapping depends on the character alone.
pub uninterp spec fn char_upper(c: char) -> Seq<char>;

/// Relies on `char::to_uppercase`: yields the Unicode uppercase mapping of
/// the character, which is a function of the character alone.
#[verifier::external_body]
fn char_to_uppercase(c: char) -> (r: String)
    ensures
        r@ == char_upper(c),
{
    c.to_uppercase().collect::<String>()
}

/// A string with its first character replaced by that character's Unicode
/// uppercase mapping; the empty string stays empty.
pub open spec fn spec_capitalize_first(s: Seq<char>) -> Seq<char> {
    if s.len() == 0 {
        Seq::empty()
    } else {
        char_upper(s[0]) + s.drop_first()
    }
}

/// Capitalizes the first character of a string, as a category label.
pub fn capitalize_first(s: &str) -> (r: String)
    ensures
        r@ == spec_capitalize_first(s@),
{
    let n = s.unicode_len();
    if n == 0 {
        proof {
            assert(s@ =~= Seq::<char>::empty());
        }
        String::new()
    } else {
        let first = s.get_char(0);
        let rest = s.substring_char(1, n);
        let r = char_to_uppercase(first).concat(rest);
        proof {
            assert(s@.subrange(1, n as int) =~= s@.drop_first());
        }
        r
    }
}

} // verus!
