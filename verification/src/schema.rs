use vstd::prelude::*;

verus! {

/// Request body for submitting an application to a job posting.
#[derive(Clone, Debug)]
pub struct CreateApplication {
    pub job_id: String,
}

/// Request body for creating a job posting.
#[derive(Clone, Debug)]
pub struct CreateJobPosting {
    pub title: String,
    pub company_name: String,
    pub city: String,
    pub country: String,
    pub salary: String,
    pub description: String,
}

/// One row of the application listings: an application joined with the
/// applicant's name. Identifiers travel as their string form and the
/// creation moment as unix seconds, if the store recorded one.
#[derive(Clone, Debug)]
pub struct FetchApplication {
    pub id: String,
    pub job_id: String,
    pub first_name: String,
    pub last_name: String,
    pub created_at: Option<i64>,
    pub applicant_id: String,
}

/// Query parameters accepted by the listing endpoints.
#[derive(Clone, Debug)]
pub struct QueryParam {
    pub page: Option<String>,
    pub search_query: Option<String>,
}

pub open spec fn spec_is_digit(c: char) -> bool {
    48 <= c as int && c as int <= 57
}

pub open spec fn digit_seq(s: Seq<char>) -> bool {
    forall|i: int| 0 <= i < s.len() ==> spec_is_digit(#[trigger] s[i])
}

/// The value of a sequence of decimal digits, most significant first.
pub open spec fn decimal_value(s: Seq<char>) -> int
    decreases s.len(),
{
    if s.len() == 0 {
        0
    } else {
        decimal_value(s.drop_last()) * 10 + (s.last() as int - 48)
    }
}

proof fn lemma_decimal_value_nonneg(s: Seq<char>)
    requires
        digit_seq(s),
    ensures
        decimal_value(s) >= 0,
    decreases s.len(),
{
    if s.len() > 0 {
        assert(digit_seq(s.drop_last()));
        lemma_decimal_value_nonneg(s.drop_last());
    }
}

/// Every prefix of a digit string has a value no larger than the whole.
proof fn lemma_decimal_prefix_le(s: Seq<char>, i: int)
    requires
        digit_seq(s),
        0 <= i <= s.len(),
    ensures
        decimal_value(s.subrange(0, i)) <= decimal_value(s),
    decreases s.len() - i,
{
    if i < s.len() {
        let p = s.subrange(0, i + 1);
        assert(p.drop_last() =~= s.subrange(0, i));
        assert(digit_seq(s.subrange(0, i)));
        lemma_decimal_value_nonneg(s.subrange(0, i));
        lemma_decimal_prefix_le(s, i + 1);
    } else {
        assert(s.subrange(0, i) =~= s);
    }
}

/// Parses a non-empty string of decimal digits into a `u32`. Returns `None`
/// exactly when the string is empty, holds a non-digit, or names a value
/// above `u32::MAX`; it never panics, whatever the input.
pub fn parse_u32(s: &str) -> (r: Option<u32>)
    ensures
        (r is Some) <==> (s@.len() > 0 && digit_seq(s@) && decimal_value(s@) <= u32::MAX),
        r matches Some(v) ==> v as int == decimal_value(s@),
{
    let n = s.unicode_len();
    if n == 0 {
        return None;
    }
    let mut acc: u32 = 0;
    let mut i: usize = 0;
    while i < n
        invariant
            i <= n,
            n == s@.len(),
            digit_seq(s@.subrange(0, i as int)),
            acc as int == decimal_value(s@.subrange(0, i as int)),
        decreases n - i,
    {
        let c = s.get_char(i);
        let code = c as u32;
        if code < 48 || code > 57 {
            proof {
                assert(!spec_is_digit(s@[i as int]));
            }
            return None;
        }
        let d = code - 48;
        proof {
            let p = s@.subrange(0, i as int + 1);
            assert(p.drop_last() =~= s@.subrange(0, i as int));
            assert(p.last() == s@[i as int]);
        }
        if acc > 429496729 || (acc == 429496729 && d > 5) {
            proof {
                assert(decimal_value(s@.subrange(0, i as int + 1)) > u32::MAX);
                assert(digit_seq(s@) ==> decimal_value(s@) > u32::MAX) by {
                    if digit_seq(s@) {
                        lemma_decimal_prefix_le(s@, i as int + 1);
                    }
                }
            }
            return None;
        }
        acc = acc * 10 + d;
        i += 1;
    }
    proof {
        assert(s@.subrange(0, n as int) =~= s@);
    }
    Some(acc)
}

/// The page offset that a listing request asks for: pages are ten entries
/// wide, a missing parameter means the first page, and a parameter that is
/// not a number (or would overflow) is rejected rather than trusted.
pub open spec fn page_offset_spec(page: Option<Seq<char>>) -> Option<u32> {
    match page {
        Option::None => Option::Some(0u32),
        Option::Some(s) => {
            if s.len() > 0 && digit_seq(s) && 10 * decimal_value(s) <= u32::MAX {
                Option::Some((10 * decimal_value(s)) as u32)
            } else {
                Option::None
            }
        },
    }
}

/// Turns the optional `page` query parameter into a row offset.
pub fn page_offset(page: &Option<String>) -> (r: Option<u32>)
    ensures
        r == page_offset_spec(match *page {
            Option::Some(s) => Option::Some(s@),
            Option::None => Option::None,
        }),
{
    match page {
        None => Some(0),
        Some(s) => {
            match parse_u32(s.as_str()) {
                None => {
                    proof {
                        if s@.len() > 0 && digit_seq(s@) && 10 * decimal_value(s@) <= u32::MAX {
                            lemma_decimal_value_nonneg(s@);
                        }
                    }
                    None
                },
                Some(v) => {
                    if v > 429496729 {
                        None
                    } else {
                        Some(v * 10)
                    }
                },
            }
        },
    }
}

} // verus!
