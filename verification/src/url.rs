//! The absolute URL of a call: the address, the path, and the query.

use vstd::prelude::*;

use crate::encoding::{encode, percent_encode_text};
use crate::text::push_char;

verus! {

/// The text with every trailing `/` taken off, as many as there are.
pub open spec fn trim_trailing_slashes(text: Seq<char>) -> Seq<char>
    decreases text.len(),
{
    if text.len() > 0 && text.last() == '/' {
        trim_trailing_slashes(text.drop_last())
    } else {
        text
    }
}

/// One `key=value` pair, the value percent-encoded.
pub open spec fn query_pair(pair: (Seq<char>, Seq<char>)) -> Seq<char> {
    pair.0 + seq!['='] + percent_encode_text(pair.1)
}

/// The query string: `?` before the first pair, `&` before each other one,
/// nothing at all when there are no pairs.
pub open spec fn query_string(pairs: Seq<(Seq<char>, Seq<char>)>) -> Seq<char>
    decreases pairs.len(),
{
    if pairs.len() == 0 {
        Seq::empty()
    } else {
        let separator = if pairs.len() == 1 {
            '?'
        } else {
            '&'
        };
        query_string(pairs.drop_last()) + seq![separator] + query_pair(pairs.last())
    }
}

/// The views of the query's pairs.
pub open spec fn pairs_view(query: Seq<(&str, &str)>) -> Seq<(Seq<char>, Seq<char>)> {
    query.map_values(|pair: (&str, &str)| (pair.0@, pair.1@))
}

/// The absolute URL of a path on an address, query and all.
pub open spec fn url_of(
    base: Seq<char>,
    path: Seq<char>,
    pairs: Seq<(Seq<char>, Seq<char>)>,
) -> Seq<char> {
    base + path + query_string(pairs)
}

proof fn lemma_trim_prefix(text: Seq<char>, end: int)
    requires
        0 <= end <= text.len(),
        forall|i: int| end <= i < text.len() ==> text[i] == '/',
        end == 0 || text[end - 1] != '/',
    ensures
        trim_trailing_slashes(text) == text.take(end),
    decreases text.len(),
{
    if text.len() > end {
        assert(text.last() == '/');
        let front = text.drop_last();
        assert forall|i: int| end <= i < front.len() implies front[i] == '/' by {
            assert(front[i] == text[i]);
        }
        if end > 0 {
            assert(front[end - 1] == text[end - 1]);
        }
        lemma_trim_prefix(front, end);
        assert(front.take(end) =~= text.take(end));
    } else {
        assert(text.take(end) =~= text);
    }
}

/// The address with its trailing slashes taken off, so a path that starts with
/// `/` never doubles it.
pub fn trim_trailing_slash(text: &str) -> (trimmed: String)
    ensures
        trimmed@ == trim_trailing_slashes(text@),
{
    let n = text.unicode_len();
    let mut end: usize = n;
    while end > 0 && text.get_char(end - 1) == '/'
        invariant
            end <= n,
            n == text@.len(),
            forall|i: int| end <= i < n ==> text@[i] == '/',
        decreases end,
    {
        end = end - 1;
    }
    proof {
        lemma_trim_prefix(text@, end as int);
        assert(text@.subrange(0, end as int) =~= text@.take(end as int));
    }
    text.substring_char(0, end).to_owned()
}

/// The absolute URL of a path: the address, the path, then each pair with its
/// value percent-encoded.
pub fn build_url(base: &str, path: &str, query: &[(&str, &str)]) -> (url: String)
    ensures
        url@ == url_of(base@, path@, pairs_view(query@)),
{
    let mut url = String::from_str(base);
    url.append(path);
    let mut index: usize = 0;
    while index < query.len()
        invariant
            index <= query@.len(),
            url@ == base@ + path@ + query_string(pairs_view(query@.take(index as int))),
        decreases query@.len() - index,
    {
        let (key, value) = query[index];
        push_char(&mut url, if index == 0 { '?' } else { '&' });
        url.append(key);
        push_char(&mut url, '=');
        let encoded = encode(value);
        url.append(encoded.as_str());
        proof {
            let done = pairs_view(query@.take(index + 1));
            assert(done.drop_last() =~= pairs_view(query@.take(index as int)));
            assert(done.last() == (key@, value@));
            assert(done.len() == index + 1);
            assert(url@ =~= base@ + path@ + query_string(done));
        }
        index = index + 1;
    }
    proof {
        assert(query@.take(query@.len() as int) =~= query@);
    }
    url
}

} // verus!
