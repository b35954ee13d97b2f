//! Query strings: pairs of a name and a value, written one after the other
//! with `&` between them. How a pair is escaped is the work of `serde_qs`.

use vstd::prelude::*;
use crate::errors::MastodonError;

verus! {

/// The pair of `key` and `value` as it stands in a query string, or `None`
/// where the pair cannot be written.
pub uninterp spec fn qs_pair(key: Seq<char>, value: Seq<char>) -> Option<Seq<char>>;

/// Calls `serde_qs::to_string` on a map that holds the one pair of `key` and
/// `value`: the pair as it stands in a query string, with whatever escaping
/// the value needs, which depends on the two inputs alone.
#[verifier::external_body]
pub(crate) fn encode_pair(key: &str, value: &str) -> (r: Result<String, serde_qs::Error>)
    ensures
        match r {
            Ok(pair) => qs_pair(key@, value@) == Some(pair@),
            Err(_) => qs_pair(key@, value@) is None,
        },
{
    serde_qs::to_string(&std::collections::BTreeMap::from([(key, value)]))
}

/// The digit that stands for a number below ten.
pub open spec fn digit_char(d: nat) -> char {
    if d == 0 {
        '0'
    } else if d == 1 {
        '1'
    } else if d == 2 {
        '2'
    } else if d == 3 {
        '3'
    } else if d == 4 {
        '4'
    } else if d == 5 {
        '5'
    } else if d == 6 {
        '6'
    } else if d == 7 {
        '7'
    } else if d == 8 {
        '8'
    } else {
        '9'
    }
}

/// A number in decimal digits, without leading zeros.
pub open spec fn decimal_spec(n: nat) -> Seq<char>
    decreases n,
{
    if n < 10 {
        seq![digit_char(n)]
    } else {
        decimal_spec(n / 10).push(digit_char(n % 10))
    }
}

fn digit(d: usize) -> (r: &'static str)
    requires
        d < 10,
    ensures
        r@ == seq![digit_char(d as nat)],
{
    proof {
        reveal_strlit("0");
        reveal_strlit("1");
        reveal_strlit("2");
        reveal_strlit("3");
        reveal_strlit("4");
        reveal_strlit("5");
        reveal_strlit("6");
        reveal_strlit("7");
        reveal_strlit("8");
        reveal_strlit("9");
    }
    let r = if d == 0 {
        "0"
    } else if d == 1 {
        "1"
    } else if d == 2 {
        "2"
    } else if d == 3 {
        "3"
    } else if d == 4 {
        "4"
    } else if d == 5 {
        "5"
    } else if d == 6 {
        "6"
    } else if d == 7 {
        "7"
    } else if d == 8 {
        "8"
    } else {
        "9"
    };
    proof {
        assert(r@ =~= seq![digit_char(d as nat)]);
    }
    r
}

/// `n` in decimal digits.
pub fn decimal(n: usize) -> (r: String)
    ensures
        r@ == decimal_spec(n as nat),
    decreases n,
{
    if n < 10 {
        String::from_str(digit(n))
    } else {
        let mut r = decimal(n / 10);
        r.append(digit(n % 10));
        proof {
            assert(r@ =~= decimal_spec((n / 10) as nat).push(digit_char((n % 10) as nat)));
        }
        r
    }
}

/// One pair of a query: a name and a value.
#[derive(Clone, Debug, PartialEq, Eq)]
pub struct Pair {
    pub key: String,
    pub value: String,
}

impl View for Pair {
    type V = (Seq<char>, Seq<char>);

    open spec fn view(&self) -> (Seq<char>, Seq<char>) {
        (self.key@, self.value@)
    }
}

/// What a list of pairs stands for.
pub open spec fn pairs_view(pairs: Seq<Pair>) -> Seq<(Seq<char>, Seq<char>)> {
    pairs.map_values(|p: Pair| p@)
}

/// The query of a list of pairs: the pairs in their order with `&` between
/// two of them. `None` where a pair cannot be written.
pub open spec fn query_of(pairs: Seq<(Seq<char>, Seq<char>)>) -> Option<Seq<char>>
    decreases pairs.len(),
{
    if pairs.len() == 0 {
        Some(Seq::empty())
    } else {
        match query_of(pairs.drop_last()) {
            None => None,
            Some(before) => match qs_pair(pairs.last().0, pairs.last().1) {
                None => None,
                Some(pair) => Some(
                    if pairs.len() == 1 {
                        pair
                    } else {
                        before + "&"@ + pair
                    },
                ),
            },
        }
    }
}

/// The pair of `key` and `value`.
pub fn pair(key: &str, value: &str) -> (r: Pair)
    ensures
        r@ == (key@, value@),
{
    Pair { key: String::from_str(key), value: String::from_str(value) }
}

/// Adds one written pair to a query: behind `&` where the query holds a pair
/// already.
pub fn add_pair(query: String, first: bool, written: Result<String, serde_qs::Error>) -> (r: Result<
    String,
    MastodonError,
>)
    ensures
        match written {
            Err(e) => r == Err::<String, MastodonError>(MastodonError::QueryString(e)),
            Ok(p) => r matches Ok(q) && q@ == if first {
                p@
            } else {
                query@ + "&"@ + p@
            },
        },
{
    match written {
        Err(e) => Err(MastodonError::QueryString(e)),
        Ok(p) => {
            if first {
                Ok(p)
            } else {
                let mut q = query;
                q.append("&");
                q.append(p.as_str());
                Ok(q)
            }
        },
    }
}

/// The query of `pairs`.
pub fn to_query(pairs: &Vec<Pair>) -> (r: Result<String, MastodonError>)
    ensures
        match query_of(pairs_view(pairs@)) {
            Some(q) => r matches Ok(text) && text@ == q,
            None => r matches Err(MastodonError::QueryString(_)),
        },
{
    let ghost all = pairs_view(pairs@);
    let mut query = String::new();
    let mut i: usize = 0;
    proof {
        assert(all.take(0) =~= Seq::empty());
    }
    while i < pairs.len()
        invariant
            i <= pairs.len(),
            all == pairs_view(pairs@),
            query_of(all.take(i as int)) == Some(query@),
        decreases pairs.len() - i,
    {
        proof {
            assert(all.take(i + 1).drop_last() =~= all.take(i as int));
            assert(all.take(i + 1).last() == pairs@[i as int]@);
        }
        let written = encode_pair(pairs[i].key.as_str(), pairs[i].value.as_str());
        match add_pair(query, i == 0, written) {
            Ok(q) => {
                query = q;
            },
            Err(e) => {
                proof {
                    lemma_query_fails_on(all, i + 1);
                }
                return Err(e);
            },
        }
        i += 1;
    }
    proof {
        assert(all.take(pairs.len() as int) =~= all);
    }
    Ok(query)
}

/// Once the first `n` pairs cannot be written, no longer list of them can.
pub proof fn lemma_query_fails_on(pairs: Seq<(Seq<char>, Seq<char>)>, n: int)
    requires
        0 <= n <= pairs.len(),
        query_of(pairs.take(n)) is None,
    ensures
        query_of(pairs) is None,
    decreases pairs.len() - n,
{
    if n < pairs.len() {
        assert(pairs.take(n + 1).drop_last() =~= pairs.take(n));
        lemma_query_fails_on(pairs, n + 1);
    } else {
        assert(pairs.take(n) =~= pairs);
    }
}

/// `list` with the pair of `key` and `1` behind it where the flag is on.
pub open spec fn with_flag(list: Seq<(Seq<char>, Seq<char>)>, key: Seq<char>, on: bool) -> Seq<
    (Seq<char>, Seq<char>),
> {
    if on {
        list.push((key, "1"@))
    } else {
        list
    }
}

/// `list` with the pair of `key` and the text behind it where there is a text.
pub open spec fn with_text(
    list: Seq<(Seq<char>, Seq<char>)>,
    key: Seq<char>,
    value: Option<Seq<char>>,
) -> Seq<(Seq<char>, Seq<char>)> {
    match value {
        Some(text) => list.push((key, text)),
        None => list,
    }
}

/// `list` with the pair of `key` and the number, in decimal digits, behind it
/// where there is a number.
pub open spec fn with_number(
    list: Seq<(Seq<char>, Seq<char>)>,
    key: Seq<char>,
    value: Option<usize>,
) -> Seq<(Seq<char>, Seq<char>)> {
    match value {
        Some(n) => list.push((key, decimal_spec(n as nat))),
        None => list,
    }
}

/// Adds the pair of `key` and `1` where the flag is on.
pub fn push_flag(list: &mut Vec<Pair>, key: &str, on: bool)
    ensures
        pairs_view(final(list)@) == with_flag(pairs_view(old(list)@), key@, on),
{
    if on {
        list.push(pair(key, "1"));
        proof {
            assert(pairs_view(list@) =~= pairs_view(old(list)@).push((key@, "1"@)));
        }
    }
}

/// Adds the pair of `key` and the text where there is a text.
pub fn push_text(list: &mut Vec<Pair>, key: &str, value: &Option<String>)
    ensures
        pairs_view(final(list)@) == with_text(
            pairs_view(old(list)@),
            key@,
            crate::text::opt_text(*value),
        ),
{
    match value {
        Some(text) => {
            list.push(pair(key, text.as_str()));
            proof {
                assert(pairs_view(list@) =~= pairs_view(old(list)@).push((key@, text@)));
            }
        },
        None => {},
    }
}

/// Adds the pair of `key` and the number where there is a number.
pub fn push_number(list: &mut Vec<Pair>, key: &str, value: Option<usize>)
    ensures
        pairs_view(final(list)@) == with_number(pairs_view(old(list)@), key@, value),
{
    match value {
        Some(n) => {
            let digits = decimal(n);
            list.push(pair(key, digits.as_str()));
            proof {
                assert(pairs_view(list@) =~= pairs_view(old(list)@).push(
                    (key@, decimal_spec(n as nat)),
                ));
            }
        },
        None => {},
    }
}

} // verus!
