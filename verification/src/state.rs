//! Keys of the search and page caches, and what goes in and out of them.

use vstd::prelude::*;
use crate::strings::{decimal, digit_char, decimal_chars, chars_of, extend_chars, string_of};

verus! {

/// The cache key of a search: the query, a NUL character, and the number of
/// results in decimal.
pub open spec fn search_key(query: Seq<char>, max_results: nat) -> Seq<char> {
    query + seq!['\0'] + decimal(max_results)
}

/// The cache key under which the response to `query` with `max_results`
/// results is kept.
pub fn search_cache_key(query: &str, max_results: usize) -> (r: String)
    ensures
        r@ == search_key(query@, max_results as nat),
{
    let mut v = chars_of(query);
    v.push('\0');
    let d = decimal_chars(max_results as u64);
    extend_chars(&mut v, &d);
    string_of(&v)
}

/// Whether a request is answered from the cache: exactly when the lookup
/// found an entry, which is then returned as it was kept.
pub fn answer_from_cache<T>(cached: &Option<T>) -> (r: bool)
    ensures
        r == cached is Some,
{
    cached.is_some()
}

/// Whether the outcome of a request is kept in the cache: a success is, a
/// failure is not, so a failure is retried on the next request.
pub fn keep_in_cache<T, E>(outcome: &Result<T, E>) -> (r: bool)
    ensures
        r == outcome is Ok,
{
    outcome.is_ok()
}

proof fn lemma_decimal_digits(n: nat)
    ensures
        decimal(n).len() >= 1,
        forall|i: int| 0 <= i < decimal(n).len() ==> '0' <= #[trigger] decimal(n)[i] <= '9',
    decreases n,
{
    if n >= 10 {
        lemma_decimal_digits(n / 10);
    }
}

proof fn lemma_decimal_injective(a: nat, b: nat)
    requires
        decimal(a) == decimal(b),
    ensures
        a == b,
    decreases a,
{
    lemma_decimal_digits(a / 10);
    lemma_decimal_digits(b / 10);
    if a < 10 && b < 10 {
        assert(decimal(a) =~= seq![digit_char(a)]);
        assert(decimal(b) =~= seq![digit_char(b)]);
        assert(decimal(a)[0] == digit_char(a));
        assert(decimal(b)[0] == digit_char(b));
        assert(decimal(a)[0] == decimal(b)[0]);
        assert(digit_char(a) == digit_char(b));
        assert(a == b);
        assert(digit_char(a) as int == 48 + a);
        assert(digit_char(b) as int == 48 + b);
    } else if a >= 10 && b >= 10 {
        assert(decimal(a).drop_last() =~= decimal(a / 10));
        assert(decimal(b).drop_last() =~= decimal(b / 10));
        lemma_decimal_injective(a / 10, b / 10);
        assert(decimal(a) == decimal(a / 10).push(digit_char(a % 10)));
        assert(decimal(b) == decimal(b / 10).push(digit_char(b % 10)));
        assert(decimal(a).last() == digit_char(a % 10));
        assert(decimal(b).last() == digit_char(b % 10));
        assert(decimal(a).last() == decimal(b).last());
        assert(digit_char(a % 10) as int == 48 + a % 10);
        assert(digit_char(b % 10) as int == 48 + b % 10);
        assert(a == (a / 10) * 10 + a % 10);
        assert(b == (b / 10) * 10 + b % 10);
        assert(a / 10 == b / 10);
        assert(digit_char(a % 10) == digit_char(b % 10));
        assert(a % 10 == b % 10);
    } else {
        assert(decimal(a).len() != decimal(b).len());
    }
}

/// Two searches share a cache key only when they have the same query and the
/// same number of results, so a cached response is never served for another
/// search.
pub proof fn lemma_search_key_injective(q1: Seq<char>, m1: nat, q2: Seq<char>, m2: nat)
    requires
        search_key(q1, m1) == search_key(q2, m2),
    ensures
        q1 == q2,
        m1 == m2,
{
    let k = search_key(q1, m1);
    let d1 = decimal(m1);
    let d2 = decimal(m2);
    lemma_decimal_digits(m1);
    lemma_decimal_digits(m2);
    if d1.len() < d2.len() {
        let i = k.len() - d1.len() - 1;
        assert(search_key(q1, m1)[i] == '\0');
        assert(search_key(q2, m2)[i] == d2[i - q2.len() - 1]);
    } else if d2.len() < d1.len() {
        let i = k.len() - d2.len() - 1;
        assert(search_key(q2, m2)[i] == '\0');
        assert(search_key(q1, m1)[i] == d1[i - q1.len() - 1]);
    } else {
        assert(k.len() == q1.len() + 1 + d1.len());
        assert(search_key(q2, m2).len() == q2.len() + 1 + d2.len());
        assert(q1.len() == q2.len());
        assert(q1 =~= k.take(q1.len() as int));
        assert(q2 =~= k.take(q2.len() as int));
        assert(d1 =~= k.skip(q1.len() as int + 1));
        assert(d2 =~= k.skip(q2.len() as int + 1));
        lemma_decimal_injective(m1, m2);
    }
}

} // verus!
