//! Text helpers shared by the template engine and the token stream decoder:
//! leading white space, and how a string's characters relate to its bytes.

use vstd::prelude::*;
use vstd::std_specs::iter::IteratorSpec;
use vstd::string::*;
use vstd::utf8::*;

verus! {

/// The characters with the Unicode property `White_Space`.
pub open spec fn is_white_space(c: char) -> bool {
    let u = c as u32;
    ||| 0x09 <= u <= 0x0d
    ||| u == 0x20
    ||| u == 0x85
    ||| u == 0xa0
    ||| u == 0x1680
    ||| 0x2000 <= u <= 0x200a
    ||| u == 0x2028
    ||| u == 0x2029
    ||| u == 0x202f
    ||| u == 0x205f
    ||| u == 0x3000
}

/// How many white-space characters `s` begins with.
pub open spec fn leading_white_space(s: Seq<char>) -> nat
    decreases s.len(),
{
    if s.len() > 0 && is_white_space(s[0]) {
        1 + leading_white_space(s.drop_first())
    } else {
        0
    }
}

/// `s` without the white space it begins with; what follows is kept as it is.
pub open spec fn trim_leading(s: Seq<char>) -> Seq<char> {
    s.subrange(leading_white_space(s) as int, s.len() as int)
}

/// The leading white space of `s` is a prefix of `s` made of white space only,
/// and the character after it, if there is one, is not white space.
pub proof fn lemma_leading_white_space(s: Seq<char>)
    ensures
        leading_white_space(s) <= s.len(),
        forall|i: int| 0 <= i < leading_white_space(s) ==> is_white_space(#[trigger] s[i]),
        leading_white_space(s) < s.len() ==> !is_white_space(s[leading_white_space(s) as int]),
    decreases s.len(),
{
    if s.len() > 0 && is_white_space(s[0]) {
        let rest = s.drop_first();
        lemma_leading_white_space(rest);
        assert forall|i: int| 0 <= i < leading_white_space(s) implies is_white_space(
            #[trigger] s[i],
        ) by {
            if i > 0 {
                assert(s[i] == rest[i - 1]);
            }
        }
    }
}

/// The part of `text` that lies behind its first `encode_utf8(shown).len()`
/// bytes: `None` unless `text` has more bytes than `shown` and that many
/// bytes end on a character boundary of `text`.
pub open spec fn text_beyond(shown: Seq<char>, text: Seq<char>) -> Option<Seq<char>> {
    let done = encode_utf8(shown).len() as int;
    let bytes = encode_utf8(text);
    if bytes.len() > done && is_char_boundary(bytes, done) {
        Some(decode_utf8(bytes.subrange(done, bytes.len() as int)))
    } else {
        None
    }
}

/// The bytes of a concatenation are the bytes of its parts, one after the other.
pub proof fn lemma_encode_concat(a: Seq<char>, b: Seq<char>)
    ensures
        encode_utf8(a + b) == encode_utf8(a) + encode_utf8(b),
    decreases a.len(),
{
    if a.len() > 0 {
        lemma_encode_concat(a.drop_first(), b);
        assert((a + b).drop_first() =~= a.drop_first() + b);
    }
}

/// In the bytes of a concatenation the first part ends on a character boundary.
pub proof fn lemma_boundary_concat(a: Seq<char>, b: Seq<char>)
    ensures
        is_char_boundary(encode_utf8(a + b), encode_utf8(a).len() as int),
    decreases a.len(),
{
    broadcast use encode_utf8_valid_utf8;

    if a.len() > 0 {
        lemma_boundary_concat(a.drop_first(), b);
        assert((a + b).drop_first() =~= a.drop_first() + b);
        encode_utf8_first_scalar(a + b);
        assert(pop_first_scalar(encode_utf8(a + b)) =~= encode_utf8((a + b).drop_first()));
    }
}

/// What lies beyond `shown` in `shown + more` is `more`, unless `more` is empty.
pub proof fn lemma_text_beyond_concat(shown: Seq<char>, more: Seq<char>)
    ensures
        text_beyond(shown, shown + more) == if more.len() > 0 {
            Some(more)
        } else {
            None
        },
{
    broadcast use encode_utf8_decode_utf8;

    lemma_encode_concat(shown, more);
    lemma_boundary_concat(shown, more);
    let done = encode_utf8(shown).len() as int;
    let bytes = encode_utf8(shown + more);
    assert(bytes.subrange(done, bytes.len() as int) =~= encode_utf8(more));
    if more.len() > 0 {
        encode_utf8_first_scalar(more);
    }
}

/// What lies beyond `shown` in a text is never empty, and it is the end of
/// the text in whole characters: the characters before it take as many
/// bytes as `shown` does.
pub proof fn lemma_text_beyond_is_tail(shown: Seq<char>, text: Seq<char>)
    requires
        text_beyond(shown, text) is Some,
    ensures
        ({
            let fresh = text_beyond(shown, text)->0;
            let kept = text.len() - fresh.len();
            &&& fresh.len() > 0
            &&& 0 <= kept
            &&& text.subrange(kept, text.len() as int) == fresh
            &&& encode_utf8(text.subrange(0, kept)).len() == encode_utf8(shown).len()
        }),
{
    broadcast use encode_utf8_valid_utf8, encode_utf8_decode_utf8;

    let done = encode_utf8(shown).len() as int;
    let bytes = encode_utf8(text);
    let head = decode_utf8(bytes.subrange(0, done));
    let fresh = decode_utf8(bytes.subrange(done, bytes.len() as int));
    valid_utf8_split(bytes, done);
    decode_utf8_split(bytes, done);
    decode_utf8_encode_utf8(bytes.subrange(0, done));
    decode_utf8_encode_utf8(bytes.subrange(done, bytes.len() as int));
    assert(text == head + fresh);
    assert(text.subrange(head.len() as int, text.len() as int) =~= fresh);
    assert(text.subrange(0, head.len() as int) =~= head);
}

/// The part of `text` behind as many bytes as `shown` has, if `text` is
/// longer and can be cut there.
pub fn beyond<'a>(shown: &str, text: &'a str) -> (r: Option<&'a str>)
    ensures
        match text_beyond(shown@, text@) {
            Some(fresh) => r matches Some(s) && s@ == fresh,
            None => r is None,
        },
{
    let done = shown.as_bytes().len();
    if text.as_bytes().len() > done && text.is_char_boundary(done) {
        let (_, fresh) = text.split_at(done);
        proof {
            broadcast use encode_utf8_decode_utf8;

        }
        Some(fresh)
    } else {
        None
    }
}

/// The last character of a text that is not empty.
pub fn last_char(text: &str) -> (c: Option<char>)
    ensures
        c == if text@.len() > 0 {
            Some(text@.last())
        } else {
            None
        },
{
    let count = text.unicode_len();
    if count > 0 {
        Some(text.get_char(count - 1))
    } else {
        None
    }
}

/// Whether a character has the Unicode property `White_Space`.
pub fn is_white(c: char) -> (r: bool)
    ensures
        r == is_white_space(c),
{
    let u = c as u32;
    (0x09 <= u && u <= 0x0d) || u == 0x20 || u == 0x85 || u == 0xa0 || u == 0x1680 || (0x2000 <= u
        && u <= 0x200a) || u == 0x2028 || u == 0x2029 || u == 0x202f || u == 0x205f || u == 0x3000
}

/// The text without the white space it begins with; the rest is untouched.
pub fn trim_start(s: &str) -> (r: &str)
    ensures
        r@ == trim_leading(s@),
{
    broadcast use {axiom_spec_iter, next_postcondition};

    let n = s.unicode_len();
    let mut rest = s.chars();
    let mut count: usize = 0;
    assert(s@.subrange(0, n as int) =~= s@);
    loop
        invariant_except_break
            rest.remaining() == s@.subrange(count as int, n as int),
        invariant
            n == s@.len(),
            count <= n,
            leading_white_space(s@) == count + leading_white_space(
                s@.subrange(count as int, n as int),
            ),
        ensures
            leading_white_space(s@) == count,
        decreases n - count,
    {
        let ghost before = s@.subrange(count as int, n as int);
        match rest.next() {
            Some(c) => {
                if is_white(c) {
                    assert(before.drop_first() =~= s@.subrange(count + 1, n as int));
                    count = count + 1;
                } else {
                    break ;
                }
            },
            None => {
                break ;
            },
        }
    }
    s.substring_char(count, n)
}

} // verus!
