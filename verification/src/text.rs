//! Decoding of the text properties of a window.

use crate::error::MonitorError;
use vstd::prelude::*;
use vstd::string::StrSliceExecFns;
use vstd::string::StringExecFns;
use vstd::string::StringSliceAdditionalSpecFns;
use vstd::utf8::decode_utf8;
use vstd::utf8::encode_utf8;
use vstd::utf8::encode_utf8_decode_utf8;
use vstd::utf8::encode_utf8_valid_utf8;
use vstd::utf8::valid_utf8;

verus! {

/// The separator of the fields of a class property.
pub const NUL: char = '\0';

/// The number of characters of `s` before its first NUL, or the length of
/// `s` if it holds none.
pub open spec fn field_len(s: Seq<char>) -> nat
    decreases s.len(),
{
    if s.len() == 0 || s[0] == NUL {
        0
    } else {
        1 + field_len(s.drop_first())
    }
}

/// The text of `s` before its first NUL, or all of `s` if it holds none.
pub open spec fn first_field(s: Seq<char>) -> Seq<char> {
    s.take(field_len(s) as int)
}

/// The first two fields of `s`, each of them ended by a NUL. A text with
/// fewer than two NULs has no two such fields: what stands after its last
/// NUL is not a field. What follows the second field is ignored.
pub open spec fn class_fields(s: Seq<char>) -> Option<(Seq<char>, Seq<char>)> {
    if field_len(s) == s.len() {
        None
    } else {
        let rest = s.skip(field_len(s) as int + 1);
        if field_len(rest) == rest.len() {
            None
        } else {
            Some((first_field(s), first_field(rest)))
        }
    }
}

/// `field_len(s)` is where the first NUL of `s` stands.
pub proof fn lemma_field_len(s: Seq<char>)
    ensures
        field_len(s) <= s.len(),
        forall|k: int| 0 <= k < field_len(s) ==> s[k] != NUL,
        field_len(s) < s.len() ==> s[field_len(s) as int] == NUL,
    decreases s.len(),
{
    if s.len() == 0 || s[0] == NUL {
    } else {
        let rest = s.drop_first();
        lemma_field_len(rest);
        assert forall|k: int| 0 <= k < field_len(s) implies s[k] != NUL by {
            if k > 0 {
                assert(s[k] == rest[k - 1]);
            }
        }
    }
}

/// A position that follows only non-NUL characters, and is the end of `s` or
/// holds a NUL, is `field_len(s)`.
pub proof fn lemma_field_len_is(s: Seq<char>, n: int)
    requires
        0 <= n <= s.len(),
        forall|k: int| 0 <= k < n ==> s[k] != NUL,
        n < s.len() ==> s[n] == NUL,
    ensures
        field_len(s) == n,
{
    lemma_field_len(s);
}

/// A text that begins with a field `a`, a NUL, a field `b` and a NUL, where
/// neither field holds a NUL, has the two fields `a` and `b`, whatever
/// follows the second NUL.
pub proof fn lemma_class_fields_of_two(a: Seq<char>, b: Seq<char>, rest: Seq<char>)
    requires
        !a.contains(NUL),
        !b.contains(NUL),
    ensures
        class_fields(a + seq![NUL] + b + seq![NUL] + rest) == Some((a, b)),
{
    let s = a + seq![NUL] + b + seq![NUL] + rest;
    let after = s.skip(a.len() as int + 1);
    assert forall|k: int| 0 <= k < a.len() implies s[k] != NUL by {
        assert(a.contains(s[k]));
    }
    lemma_field_len_is(s, a.len() as int);
    assert forall|k: int| 0 <= k < b.len() implies after[k] != NUL by {
        assert(b.contains(after[k]));
    }
    lemma_field_len_is(after, b.len() as int);
}

/// A text has two fields exactly when it holds two NULs: with one NUL or
/// none there is nothing, and no field is made up.
pub proof fn lemma_class_fields_need_two_nuls(s: Seq<char>)
    ensures
        class_fields(s) is Some <==> exists|i: int, j: int|
            #![trigger s[i], s[j]]
            0 <= i < j < s.len() && s[i] == NUL && s[j] == NUL,
{
    lemma_field_len(s);
    let f = field_len(s) as int;
    if f < s.len() {
        let after = s.skip(f + 1);
        lemma_field_len(after);
        if exists|i: int, j: int|
            #![trigger s[i], s[j]]
            0 <= i < j < s.len() && s[i] == NUL && s[j] == NUL {
            let (i, j) = choose|i: int, j: int|
                #![trigger s[i], s[j]]
                0 <= i < j < s.len() && s[i] == NUL && s[j] == NUL;
            assert(after[j - f - 1] == s[j]);
        }
    }
}

/// A text of one field has no two: a field alone, a field with its NUL, or
/// a field with its NUL and a name after it that no NUL ends.
pub proof fn lemma_class_fields_of_one(a: Seq<char>, b: Seq<char>)
    requires
        !a.contains(NUL),
        !b.contains(NUL),
    ensures
        class_fields(a) is None,
        class_fields(a + seq![NUL]) is None,
        class_fields(a + seq![NUL] + b) is None,
{
    lemma_class_fields_need_two_nuls(a);
    lemma_class_fields_need_two_nuls(a + seq![NUL]);
    lemma_class_fields_need_two_nuls(a + seq![NUL] + b);
    let one = a + seq![NUL];
    let two = a + seq![NUL] + b;
    assert forall|i: int, j: int|
        #![trigger a[i], a[j]]
        0 <= i < j < a.len() implies !(a[i] == NUL && a[j] == NUL) by {
        assert(a.contains(a[i]));
    }
    assert forall|i: int, j: int|
        #![trigger one[i], one[j]]
        0 <= i < j < one.len() implies !(one[i] == NUL && one[j] == NUL) by {
        assert(a.contains(one[i]));
    }
    assert forall|i: int, j: int|
        #![trigger two[i], two[j]]
        0 <= i < j < two.len() implies !(two[i] == NUL && two[j] == NUL) by {
        if i < a.len() {
            assert(a.contains(two[i]));
        } else {
            assert(b.contains(two[j]));
        }
    }
}

/// The same of a raw buffer: the bytes that encode `a`, a NUL, `b`, a NUL
/// and `rest` are valid UTF-8, and the two fields of their text are `a` and
/// `b`.
pub proof fn lemma_class_fields_of_encoded(a: Seq<char>, b: Seq<char>, rest: Seq<char>)
    requires
        !a.contains(NUL),
        !b.contains(NUL),
    ensures
        valid_utf8(encode_utf8(a + seq![NUL] + b + seq![NUL] + rest)),
        class_fields(decode_utf8(encode_utf8(a + seq![NUL] + b + seq![NUL] + rest))) == Some(
            (a, b),
        ),
{
    let text = a + seq![NUL] + b + seq![NUL] + rest;
    encode_utf8_valid_utf8(text);
    encode_utf8_decode_utf8(text);
    lemma_class_fields_of_two(a, b, rest);
}

/// The text of a byte buffer: `core::str::from_utf8`, which accepts exactly
/// the buffers that are valid UTF-8 and hands back the same bytes as text.
#[verifier::external_body]
fn utf8_text(raw: &[u8]) -> (text: Option<&str>)
    ensures
        text is Some <==> valid_utf8(raw@),
        text matches Some(s) ==> s.spec_bytes() == raw@,
{
    match core::str::from_utf8(raw) {
        Ok(s) => Some(s),
        Err(_) => None,
    }
}

/// Decodes the name property of a window.
///
/// The title is the text that `raw` encodes; a buffer that is not valid UTF-8
/// has none.
pub fn get_window_title(raw: &[u8]) -> (title: Result<String, MonitorError>)
    ensures
        match title {
            Ok(t) => valid_utf8(raw@) && t@ == decode_utf8(raw@),
            Err(e) => !valid_utf8(raw@) && e == MonitorError::TitleNotUtf8,
        },
{
    match utf8_text(raw) {
        Some(text) => {
            proof {
                encode_utf8_decode_utf8(text@);
            }
            Ok(String::from_str(text))
        },
        None => Err(MonitorError::TitleNotUtf8),
    }
}

/// Decodes the class property of a window into the instance name and the
/// class name.
///
/// A buffer that is not valid UTF-8 is refused first; then a text with
/// fewer than two NULs, which holds one field at most.
pub fn get_window_class(raw: &[u8]) -> (class: Result<(String, String), MonitorError>)
    ensures
        match class {
            Ok((instance, name)) => valid_utf8(raw@) && class_fields(decode_utf8(raw@)) == Some(
                (instance@, name@),
            ),
            Err(e) => if valid_utf8(raw@) {
                class_fields(decode_utf8(raw@)) is None && e == MonitorError::ClassFormat
            } else {
                e == MonitorError::ClassNotUtf8
            },
        },
{
    match utf8_text(raw) {
        Some(text) => {
            proof {
                encode_utf8_decode_utf8(text@);
            }
            match parse_window_class(text) {
                Some((instance, name)) => Ok((String::from_str(instance), String::from_str(name))),
                None => Err(MonitorError::ClassFormat),
            }
        },
        None => Err(MonitorError::ClassNotUtf8),
    }
}

/// Splits a class property into the instance name and the class name.
///
/// The two names are the text before the first NUL and the text between the
/// first NUL and the second. A text with fewer than two NULs does not hold
/// two fields, and nothing is returned: a name that no NUL ends is not
/// taken for a field, and a missing name is not made up as an empty one.
pub fn parse_window_class(class: &str) -> (parsed: Option<(&str, &str)>)
    ensures
        match parsed {
            Some((instance, name)) => class_fields(class@) == Some((instance@, name@)),
            None => class_fields(class@) is None,
        },
{
    let ghost s = class@;
    let len: usize = class.unicode_len();
    let mut index: usize = 0;
    let mut first: Option<usize> = None;
    let mut second: Option<usize> = None;
    let chars = class.chars();
    for c in it: chars
        invariant
            it.seq() == s,
            s.len() == len,
            index == it.index(),
            match first {
                Some(f) => f < index && s[f as int] == NUL && forall|k: int|
                    0 <= k < f ==> s[k] != NUL,
                None => second is None && forall|k: int| 0 <= k < index ==> s[k] != NUL,
            },
            match (first, second) {
                (Some(f), Some(g)) => f < g < index && s[g as int] == NUL && forall|k: int|
                    f < k < g ==> s[k] != NUL,
                (Some(f), None) => forall|k: int| f < k < index ==> s[k] != NUL,
                _ => true,
            },
    {
        if c == NUL {
            if first.is_none() {
                first = Some(index);
            } else if second.is_none() {
                second = Some(index);
            }
        }
        index = index + 1;
    }
    match (first, second) {
        (Some(f), Some(g)) => {
            let instance = class.substring_char(0, f);
            let name = class.substring_char(f + 1, g);
            proof {
                let rest = s.skip(f as int + 1);
                lemma_field_len_is(s, f as int);
                lemma_field_len_is(rest, g as int - f as int - 1);
            }
            Some((instance, name))
        },
        (Some(f), None) => {
            proof {
                let rest = s.skip(f as int + 1);
                lemma_field_len_is(s, f as int);
                lemma_field_len_is(rest, rest.len() as int);
            }
            None
        },
        _ => {
            proof {
                lemma_field_len_is(s, len as int);
            }
            None
        },
    }
}

} // verus!
