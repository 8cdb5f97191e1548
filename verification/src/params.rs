//! Query parameters, and how they are appended to a URL.

use crate::urls::{byte_len, url_str, url_text};
use url::Url;
use vstd::prelude::*;

verus! {

/// The text of the URL whose text was `text`, once `pairs` are appended to
/// its query in order, form-urlencoded, as
/// `url.query_pairs_mut().extend_pairs(pairs)` leaves it.
pub uninterp spec fn with_query_pairs(text: Seq<char>, pairs: Seq<(Seq<char>, Seq<char>)>) -> Seq<
    char,
>;

/// `Url::query_pairs_mut` followed by `extend_pairs`: the pairs are appended
/// to the query of the URL, in order. The `url` crate counts positions in
/// 32 bits and stops the program where the text outgrows them; the text
/// grows by one byte for `?`, and for each pair by at most three bytes per
/// byte of the pair and two bytes for `&` and `=`.
#[verifier::external_body]
fn extend_query(url: &mut Url, pairs: &Vec<(String, String)>)
    requires
        query_fits(url_text(*old(url)), pairs_view(pairs@)),
    ensures
        url_text(*final(url)) == with_query_pairs(url_text(*old(url)), pairs_view(pairs@)),
{
    url.query_pairs_mut().extend_pairs(pairs.iter());
}

/// The pairs as mathematical text.
pub open spec fn pairs_view(pairs: Seq<(String, String)>) -> Seq<(Seq<char>, Seq<char>)> {
    Seq::new(pairs.len(), |i: int| (pairs[i].0@, pairs[i].1@))
}

/// An upper bound on the bytes that `pairs` add to a query: every byte of a
/// name or a value may become three, and each pair brings two separators.
pub open spec fn encoded_bound(pairs: Seq<(Seq<char>, Seq<char>)>) -> nat
    decreases pairs.len(),
{
    if pairs.len() == 0 {
        0
    } else {
        encoded_bound(pairs.drop_last()) + 3 * byte_len(pairs.last().0) + 3 * byte_len(
            pairs.last().1,
        ) + 2
    }
}

/// Whether a URL with the text `text` surely has room for `pairs`.
pub open spec fn query_fits(text: Seq<char>, pairs: Seq<(Seq<char>, Seq<char>)>) -> bool {
    byte_len(text) + 1 + encoded_bound(pairs) <= u32::MAX
}

/// The bound of a prefix is at most the bound of the whole.
pub proof fn lemma_encoded_bound_prefix(pairs: Seq<(Seq<char>, Seq<char>)>, n: int)
    requires
        0 <= n <= pairs.len(),
    ensures
        encoded_bound(pairs.take(n)) <= encoded_bound(pairs),
    decreases pairs.len() - n,
{
    if n == pairs.len() {
        assert(pairs.take(n) == pairs);
    } else {
        lemma_encoded_bound_prefix(pairs, n + 1);
        assert(pairs.take(n + 1).drop_last() == pairs.take(n));
    }
}

/// Query parameters for an endpoint: names and values, in the order in which
/// they were added.
#[derive(Debug, Clone)]
pub struct QueryParams {
    pairs: Vec<(String, String)>,
}

impl View for QueryParams {
    type V = Seq<(Seq<char>, Seq<char>)>;

    closed spec fn view(&self) -> Self::V {
        pairs_view(self.pairs@)
    }
}

impl Default for QueryParams {
    fn default() -> (r: Self)
        ensures
            r@ == Seq::<(Seq<char>, Seq<char>)>::empty(),
    {
        QueryParams { pairs: Vec::new() }
    }
}

impl QueryParams {
    /// No parameters.
    pub fn new() -> (r: Self)
        ensures
            r@ == Seq::<(Seq<char>, Seq<char>)>::empty(),
    {
        QueryParams { pairs: Vec::new() }
    }

    /// Add the parameter `key` with the value `value`, after those that are there.
    pub fn push(&mut self, key: &str, value: &str)
        ensures
            final(self)@ == old(self)@.push((key@, value@)),
    {
        self.pairs.push((key.to_owned(), value.to_owned()));
    }

    /// The number of parameters.
    pub fn len(&self) -> (n: usize)
        ensures
            n == self@.len(),
    {
        self.pairs.len()
    }

    /// Whether `url` surely has room for the parameters.
    pub fn fits(&self, url: &Url) -> (b: bool)
        ensures
            b == query_fits(url_text(*url), self@),
    {
        let limit: u64 = 0xffff_ffff;
        let text_len: usize = url_str(url).as_bytes().len();
        if text_len as u64 >= limit {
            return false;
        }
        let mut total: u64 = text_len as u64 + 1;
        let mut i: usize = 0;
        assert(self@.take(0).len() == 0);
        while i < self.pairs.len()
            invariant
                0 <= i <= self.pairs.len(),
                limit == u32::MAX,
                total == byte_len(url_text(*url)) + 1 + encoded_bound(self@.take(i as int)),
                total <= limit,
            decreases self.pairs.len() - i,
        {
            let key_len: usize = self.pairs[i].0.as_str().as_bytes().len();
            let value_len: usize = self.pairs[i].1.as_str().as_bytes().len();
            proof {
                assert(self@.take(i + 1).drop_last() == self@.take(i as int));
                assert(self@.take(i + 1).last() == self@[i as int]);
                lemma_encoded_bound_prefix(self@, i + 1);
            }
            if key_len as u64 > limit || value_len as u64 > limit {
                return false;
            }
            let more: u64 = 3 * (key_len as u64) + 3 * (value_len as u64) + 2;
            if more > limit - total {
                return false;
            }
            total = total + more;
            i = i + 1;
        }
        proof {
            assert(self@.take(i as int) == self@);
        }
        true
    }

    /// Append the parameters to the query of `url`, in order.
    ///
    /// The query of `url` is there afterwards even where no parameter was added.
    pub fn add_to_url(&self, url: &mut Url)
        requires
            query_fits(url_text(*old(url)), self@),
        ensures
            url_text(*final(url)) == with_query_pairs(url_text(*old(url)), self@),
    {
        extend_query(url, &self.pairs);
    }
}

} // verus!
