//! The request side: reading the subscriber id of a dispatch request, and
//! settling the replies of the two dispatch calls it makes.

use crate::pool::BatchRequest;
use vstd::prelude::*;

verus! {

/// actix's error for a message whose mailbox closed or whose reply timed out.
#[verifier::external_type_specification]
#[verifier::external_body]
pub struct ExMailboxError(actix::MailboxError);

/// The number of jobs each dispatch call asks for.
pub const DISPATCH_COUNT: i32 = 10;

/// Whether `c` is an ASCII decimal digit.
pub open spec fn is_digit(c: char) -> bool {
    48 <= c as u32 <= 57
}

/// The value of an ASCII decimal digit.
pub open spec fn digit_value(c: char) -> int {
    c as u32 - 48
}

/// The value of a string of decimal digits, most significant first; zero for
/// the empty string.
pub open spec fn digits_value(s: Seq<char>) -> int
    decreases s.len(),
{
    if s.len() == 0 {
        0
    } else {
        10 * digits_value(s.drop_last()) + digit_value(s.last())
    }
}

/// The digits of an unsigned number's text: what follows a leading `+`, if any.
pub open spec fn unsigned_digits(s: Seq<char>) -> Seq<char> {
    if s.len() > 0 && s[0] == '+' {
        s.drop_first()
    } else {
        s
    }
}

/// The `u64` that `s` spells in decimal, with an optional leading `+`; `None`
/// where `s` has no digits, holds anything but digits, or spells a number
/// larger than `u64::MAX`.
pub open spec fn parsed_u64(s: Seq<char>) -> Option<u64> {
    let d = unsigned_digits(s);
    if d.len() > 0 && (forall|i: int| 0 <= i < d.len() ==> is_digit(#[trigger] d[i]))
        && digits_value(d) <= u64::MAX {
        Some(digits_value(d) as u64)
    } else {
        None
    }
}

/// A string of digits is worth at least any of its prefixes.
proof fn lemma_digits_prefix_le(s: Seq<char>, j: int)
    requires
        0 <= j <= s.len(),
        forall|i: int| 0 <= i < s.len() ==> is_digit(#[trigger] s[i]),
    ensures
        0 <= digits_value(s.take(j)) <= digits_value(s),
    decreases s.len(),
{
    if j == s.len() {
        assert(s.take(j) =~= s);
        if s.len() > 0 {
            lemma_digits_prefix_le(s.drop_last(), j - 1);
        }
    } else {
        let t = s.drop_last();
        lemma_digits_prefix_le(t, j);
        assert(t.take(j) =~= s.take(j));
        assert(is_digit(s[s.len() - 1]));
    }
}

/// Reads a subscriber id written as a `u64` in decimal, with an optional
/// leading `+`; `None` for any other text.
pub fn parse_subscriber_id(text: &str) -> (r: Option<u64>)
    ensures
        r == parsed_u64(text@),
{
    let n = text.unicode_len();
    let mut start: usize = 0;
    if n > 0 && text.get_char(0) == '+' {
        start = 1;
    }
    let ghost d = unsigned_digits(text@);
    assert(d =~= text@.subrange(start as int, n as int));
    if start == n {
        return None;
    }
    let mut value: u64 = 0;
    let mut j: usize = start;
    while j < n
        invariant
            start <= j <= n,
            n == text@.len(),
            d == text@.subrange(start as int, n as int),
            d == unsigned_digits(text@),
            forall|i: int| 0 <= i < j - start ==> is_digit(#[trigger] d[i]),
            value as int == digits_value(d.take(j - start)),
        decreases n - j,
    {
        let c = text.get_char(j) as u32;
        if !(48 <= c && c <= 57) {
            assert(!is_digit(d[j - start]));
            return None;
        }
        let dv: u64 = (c - 48) as u64;
        let ghost k = (j - start) as int;
        assert(d.take(k + 1).drop_last() =~= d.take(k));
        assert(digits_value(d.take(k + 1)) == 10 * value + dv);
        match value.checked_mul(10) {
            None => {
                proof {
                    lemma_after_prefix(d, k + 1);
                }
                return None;
            },
            Some(tens) => match tens.checked_add(dv) {
                None => {
                    proof {
                        lemma_after_prefix(d, k + 1);
                    }
                    return None;
                },
                Some(v) => {
                    value = v;
                },
            },
        }
        j = j + 1;
    }
    assert(d.take(d.len() as int) =~= d);
    Some(value)
}

/// Where a prefix of digits is worth more than `u64::MAX`, the text does not
/// spell a `u64`, whatever follows.
proof fn lemma_after_prefix(d: Seq<char>, k: int)
    requires
        0 < k <= d.len(),
        forall|i: int| 0 <= i < k ==> is_digit(#[trigger] d[i]),
        digits_value(d.take(k)) > u64::MAX,
    ensures
        !(d.len() > 0 && (forall|i: int| 0 <= i < d.len() ==> is_digit(#[trigger] d[i]))
            && digits_value(d) <= u64::MAX),
{
    if forall|i: int| 0 <= i < d.len() ==> is_digit(#[trigger] d[i]) {
        lemma_digits_prefix_le(d, k);
    }
}

/// The batch a dispatch request asks for: `DISPATCH_COUNT` jobs, reported to
/// the subscriber named by the request's `id` value where it spells one.
pub fn request_for(id_text: Option<&str>) -> (r: BatchRequest)
    ensures
        r.count == DISPATCH_COUNT,
        r.subscriber_id == match id_text {
            Some(t) => parsed_u64(t@),
            None => None,
        },
{
    let subscriber_id = match id_text {
        Some(t) => parse_subscriber_id(t),
        None => None,
    };
    BatchRequest::new(DISPATCH_COUNT, subscriber_id)
}

/// The body of the reply that acknowledges a dispatch request.
pub open spec fn ack_text() -> Seq<char> {
    seq!['I', 't', ' ', 'w', 'o', 'r', 'k', 's', ' ', '!']
}

/// The reply of one dispatch call, where a failed delivery counts as the
/// `neutral` value instead of an error.
pub fn settle<T>(reply: Result<T, actix::MailboxError>, neutral: T) -> (r: T)
    ensures
        match reply {
            Ok(v) => r == v,
            Err(_) => r == neutral,
        },
{
    match reply {
        Ok(v) => v,
        Err(_) => neutral,
    }
}

/// The acknowledgment of a dispatch request, sent once both dispatch calls
/// have answered, whether they were delivered or not.
pub fn acknowledge(direct: Result<(), actix::MailboxError>, nested: Result<(), actix::MailboxError>) -> (r: String)
    ensures
        r@ == ack_text(),
{
    settle(direct, ());
    settle(nested, ());
    proof {
        reveal_strlit("It works !");
    }
    String::from_str("It works !")
}

} // verus!
