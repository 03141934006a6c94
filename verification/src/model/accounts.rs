//! Values for the accounts API: the optional filters of a transaction query.

use crate::query::decimal;
use crate::query::decimal_value;
use crate::query::encode_pair;
use crate::query::encode_text;
use crate::query::is_plain;
use crate::query::parse_query;
use crate::query::query_string;
use crate::query::round_trip::lemma_decimal_value;
use crate::query::round_trip::lemma_encoded_pair_has_no_ampersand;
use crate::query::round_trip::lemma_parse_query_string;
use crate::query::round_trip::lemma_plain_text_is_unchanged;
use crate::query::to_decimal;
use crate::query::to_query_string;
use crate::timestamp::rfc3339;
use crate::timestamp::Instant;
use crate::timestamp::Timestamp;
use vstd::prelude::*;

verus! {

/// Name of the query parameter that carries the earliest booking time.
pub const FROM_BOOKING_DATETIME: &'static str = "fromBookingDateTime";

/// Name of the query parameter that carries the latest booking time.
pub const TO_BOOKING_DATETIME: &'static str = "toBookingDateTime";

/// Name of the query parameter that carries the page size.
pub const PAGE_SIZE: &'static str = "pageSize";

/// Name of the query parameter that carries the paging token.
pub const FORWARD_PAGING_TOKEN: &'static str = "forwardPagingToken";

/// Optional parameters of a transaction query.
///
/// A parameter that is `None` is left out of the request altogether. The
/// paging token is the server's own: it is sent back exactly as it came and
/// is never looked into.
#[derive(Debug)]
pub struct TransactionParams {
    /// Earliest booking time of the transactions asked for.
    pub from_booking_datetime: Option<Timestamp>,
    /// Latest booking time of the transactions asked for.
    pub to_booking_datetime: Option<Timestamp>,
    /// Number of transactions in each page.
    pub page_size: Option<u32>,
    /// Token of the page asked for, as the links of the page before gave it.
    pub forward_paging_token: Option<String>,
}

/// Mathematical model of [`TransactionParams`].
pub ghost struct TransactionParamsView {
    pub from_booking_datetime: Option<Instant>,
    pub to_booking_datetime: Option<Instant>,
    pub page_size: Option<nat>,
    pub forward_paging_token: Option<Seq<char>>,
}

/// The pair of a parameter that is present, and nothing for one that is not.
pub open spec fn optional_pair(name: Seq<char>, value: Option<Seq<char>>) -> Seq<
    (Seq<char>, Seq<char>),
> {
    match value {
        Some(text) => seq![(name, text)],
        None => Seq::empty(),
    }
}

/// The text that a time filter is sent as.
pub open spec fn instant_text(instant: Option<Instant>) -> Option<Seq<char>> {
    match instant {
        Some(i) => Some(rfc3339(i.secs, i.nanos)),
        None => None,
    }
}

/// The text that a page size is sent as.
pub open spec fn page_size_text(page_size: Option<nat>) -> Option<Seq<char>> {
    match page_size {
        Some(n) => Some(decimal(n)),
        None => None,
    }
}

impl TransactionParamsView {
    /// The parameters with nothing set.
    pub open spec fn empty() -> TransactionParamsView {
        TransactionParamsView {
            from_booking_datetime: None,
            to_booking_datetime: None,
            page_size: None,
            forward_paging_token: None,
        }
    }

    /// The name and the text of each parameter that is present, in the
    /// order: earliest time, latest time, page size, paging token.
    pub open spec fn query_pairs(self) -> Seq<(Seq<char>, Seq<char>)> {
        optional_pair(FROM_BOOKING_DATETIME@, instant_text(self.from_booking_datetime))
            + optional_pair(TO_BOOKING_DATETIME@, instant_text(self.to_booking_datetime))
            + optional_pair(PAGE_SIZE@, page_size_text(self.page_size)) + optional_pair(
            FORWARD_PAGING_TOKEN@,
            self.forward_paging_token,
        )
    }
}

impl View for TransactionParams {
    type V = TransactionParamsView;

    open spec fn view(&self) -> TransactionParamsView {
        TransactionParamsView {
            from_booking_datetime: match self.from_booking_datetime {
                Some(t) => Some(t@),
                None => None,
            },
            to_booking_datetime: match self.to_booking_datetime {
                Some(t) => Some(t@),
                None => None,
            },
            page_size: match self.page_size {
                Some(n) => Some(n as nat),
                None => None,
            },
            forward_paging_token: match self.forward_paging_token {
                Some(t) => Some(t@),
                None => None,
            },
        }
    }
}

impl Default for TransactionParams {
    /// The parameters with nothing set.
    fn default() -> (r: TransactionParams)
        ensures
            r@ == TransactionParamsView::empty(),
    {
        TransactionParams {
            from_booking_datetime: None,
            to_booking_datetime: None,
            page_size: None,
            forward_paging_token: None,
        }
    }
}

impl Clone for TransactionParams {
    fn clone(&self) -> (r: TransactionParams)
        ensures
            r@ == self@,
    {
        TransactionParams {
            from_booking_datetime: self.from_booking_datetime,
            to_booking_datetime: self.to_booking_datetime,
            page_size: self.page_size,
            forward_paging_token: match &self.forward_paging_token {
                Some(token) => Some(token.clone()),
                None => None,
            },
        }
    }
}

impl TransactionParams {
    /// Sets the earliest booking time.
    pub fn with_from_booking_datetime(self, datetime: Timestamp) -> (r: TransactionParams)
        ensures
            r@ == (TransactionParamsView { from_booking_datetime: Some(datetime@), ..self@ }),
    {
        let mut params = self;
        params.from_booking_datetime = Some(datetime);
        params
    }

    /// Sets the latest booking time.
    pub fn with_to_booking_datetime(self, datetime: Timestamp) -> (r: TransactionParams)
        ensures
            r@ == (TransactionParamsView { to_booking_datetime: Some(datetime@), ..self@ }),
    {
        let mut params = self;
        params.to_booking_datetime = Some(datetime);
        params
    }

    /// Sets the page size.
    pub fn with_page_size(self, page_size: u32) -> (r: TransactionParams)
        ensures
            r@ == (TransactionParamsView { page_size: Some(page_size as nat), ..self@ }),
    {
        let mut params = self;
        params.page_size = Some(page_size);
        params
    }

    /// Sets the paging token.
    pub fn with_forward_paging_token(self, token: String) -> (r: TransactionParams)
        ensures
            r@ == (TransactionParamsView { forward_paging_token: Some(token@), ..self@ }),
    {
        let mut params = self;
        params.forward_paging_token = Some(token);
        params
    }

    /// The name and the text of each parameter that is present.
    pub fn query_pairs(&self) -> (r: Vec<(String, String)>)
        ensures
            r.deep_view() == self@.query_pairs(),
    {
        let mut pairs: Vec<(String, String)> = Vec::new();
        assert(pairs.deep_view() == Seq::<(Seq<char>, Seq<char>)>::empty());
        if let Some(from) = &self.from_booking_datetime {
            let ghost before = pairs.deep_view();
            let text = from.to_rfc3339();
            pairs.push((FROM_BOOKING_DATETIME.to_owned(), text));
            assert(pairs.deep_view() == before.push((FROM_BOOKING_DATETIME@, text@)));
        }
        if let Some(to) = &self.to_booking_datetime {
            let ghost before = pairs.deep_view();
            let text = to.to_rfc3339();
            pairs.push((TO_BOOKING_DATETIME.to_owned(), text));
            assert(pairs.deep_view() == before.push((TO_BOOKING_DATETIME@, text@)));
        }
        if let Some(page_size) = self.page_size {
            let ghost before = pairs.deep_view();
            let text = to_decimal(page_size);
            pairs.push((PAGE_SIZE.to_owned(), text));
            assert(pairs.deep_view() == before.push((PAGE_SIZE@, text@)));
        }
        if let Some(token) = &self.forward_paging_token {
            let ghost before = pairs.deep_view();
            let text = token.clone();
            pairs.push((FORWARD_PAGING_TOKEN.to_owned(), text));
            assert(pairs.deep_view() == before.push((FORWARD_PAGING_TOKEN@, text@)));
        }
        pairs
    }

    /// The query string of the parameters: empty where none is present.
    pub fn query_string(&self) -> (r: String)
        ensures
            r@ == query_string(self@.query_pairs()),
            self@ == TransactionParamsView::empty() <==> r@.len() == 0,
    {
        proof {
            lemma_query_is_empty_without_parameters(self@);
        }
        to_query_string(&self.query_pairs())
    }
}

/// The names of the four parameters are written as they are, and no two of
/// them are the same.
pub proof fn lemma_parameter_names()
    ensures
        encode_text(FROM_BOOKING_DATETIME@) == FROM_BOOKING_DATETIME@,
        encode_text(TO_BOOKING_DATETIME@) == TO_BOOKING_DATETIME@,
        encode_text(PAGE_SIZE@) == PAGE_SIZE@,
        encode_text(FORWARD_PAGING_TOKEN@) == FORWARD_PAGING_TOKEN@,
        FROM_BOOKING_DATETIME@.len() == 19,
        TO_BOOKING_DATETIME@.len() == 17,
        PAGE_SIZE@.len() == 8,
        FORWARD_PAGING_TOKEN@.len() == 18,
{
    reveal_strlit("fromBookingDateTime");
    reveal_strlit("toBookingDateTime");
    reveal_strlit("pageSize");
    reveal_strlit("forwardPagingToken");
    assert(is_plain(FROM_BOOKING_DATETIME@));
    assert(is_plain(TO_BOOKING_DATETIME@));
    assert(is_plain(PAGE_SIZE@));
    assert(is_plain(FORWARD_PAGING_TOKEN@));
    lemma_plain_text_is_unchanged(FROM_BOOKING_DATETIME@);
    lemma_plain_text_is_unchanged(TO_BOOKING_DATETIME@);
    lemma_plain_text_is_unchanged(PAGE_SIZE@);
    lemma_plain_text_is_unchanged(FORWARD_PAGING_TOKEN@);
}

/// The query string is empty exactly where no parameter is present: a
/// parameter that is absent leaves no trace, not even its name.
pub proof fn lemma_query_is_empty_without_parameters(params: TransactionParamsView)
    ensures
        params == TransactionParamsView::empty() <==> query_string(params.query_pairs()).len()
            == 0,
        params == TransactionParamsView::empty() <==> params.query_pairs().len() == 0,
{
    let pairs = params.query_pairs();
    if pairs.len() > 0 {
        lemma_encoded_pair_has_no_ampersand(pairs.last());
    }
}

/// Whatever the parameters are, reading their query string gives back the
/// name and the text of each parameter that is present, in their order.
pub proof fn lemma_query_round_trip(params: TransactionParamsView)
    ensures
        parse_query(query_string(params.query_pairs())) == params.query_pairs(),
{
    lemma_parse_query_string(params.query_pairs());
}

/// With the paging token alone, the query string is the name of the token,
/// `=` and the encoded token, and nothing else. A token that the encoding
/// leaves as it is stands there unchanged.
pub proof fn lemma_query_of_paging_token_alone(token: Seq<char>)
    ensures
        ({
            let params = TransactionParamsView {
                forward_paging_token: Some(token),
                ..TransactionParamsView::empty()
            };
            &&& params.query_pairs() == seq![(FORWARD_PAGING_TOKEN@, token)]
            &&& query_string(params.query_pairs()) == FORWARD_PAGING_TOKEN@.push('=')
                + encode_text(token)
            &&& is_plain(token) ==> query_string(params.query_pairs())
                == FORWARD_PAGING_TOKEN@.push('=') + token
        }),
{
    let params = TransactionParamsView {
        forward_paging_token: Some(token),
        ..TransactionParamsView::empty()
    };
    let pairs = params.query_pairs();
    assert(pairs == seq![(FORWARD_PAGING_TOKEN@, token)]);
    assert(pairs.last() == (FORWARD_PAGING_TOKEN@, token));
    lemma_parameter_names();
    if is_plain(token) {
        lemma_plain_text_is_unchanged(token);
    }
}

/// With the page size alone, the query string is `pageSize=` and the
/// decimal form of the size. Read back, it gives that one pair, and the
/// digits stand for the size.
pub proof fn lemma_page_size_round_trip(page_size: nat)
    ensures
        ({
            let params = TransactionParamsView {
                page_size: Some(page_size),
                ..TransactionParamsView::empty()
            };
            &&& query_string(params.query_pairs()) == PAGE_SIZE@.push('=') + decimal(page_size)
            &&& parse_query(query_string(params.query_pairs())) == seq![
                (PAGE_SIZE@, decimal(page_size)),
            ]
            &&& decimal_value(decimal(page_size)) == page_size
        }),
{
    let params = TransactionParamsView {
        page_size: Some(page_size),
        ..TransactionParamsView::empty()
    };
    let pairs = params.query_pairs();
    assert(pairs == seq![(PAGE_SIZE@, decimal(page_size))]);
    assert(pairs.last() == (PAGE_SIZE@, decimal(page_size)));
    lemma_parameter_names();
    lemma_decimal_value(page_size);
    assert(is_plain(decimal(page_size))) by {
        assert forall|i: int| 0 <= i < decimal(page_size).len() implies {
            let c = #[trigger] decimal(page_size)[i];
            c == '*' || c == '-' || c == '.' || '0' <= c <= '9' || 'A' <= c <= 'Z' || c == '_'
                || 'a' <= c <= 'z'
        } by {
            assert('0' <= decimal(page_size)[i] <= '9');
        }
    }
    lemma_plain_text_is_unchanged(decimal(page_size));
    lemma_parse_query_string(pairs);
}

/// Whatever the other parameters are, a paging token is the last pair of
/// the query, under its own name and with the token as it was given; no
/// other pair has that name; and what is read back from the query string
/// is that token, character for character.
pub proof fn lemma_paging_token_is_sent_as_given(params: TransactionParamsView, token: Seq<char>)
    ensures
        ({
            let pairs = (TransactionParamsView {
                forward_paging_token: Some(token),
                ..params
            }).query_pairs();
            &&& pairs.len() > 0
            &&& pairs.last() == (FORWARD_PAGING_TOKEN@, token)
            &&& forall|i: int|
                0 <= i < pairs.len() - 1 ==> (#[trigger] pairs[i]).0 != FORWARD_PAGING_TOKEN@
            &&& parse_query(query_string(pairs)) == pairs
            &&& pairs.len() == 1 ==> query_string(pairs) == encode_pair(
                (FORWARD_PAGING_TOKEN@, token),
            )
            &&& pairs.len() > 1 ==> query_string(pairs) == query_string(pairs.drop_last()).push(
                '&',
            ) + encode_pair((FORWARD_PAGING_TOKEN@, token))
        }),
{
    let pairs = (TransactionParamsView { forward_paging_token: Some(token), ..params }).query_pairs();
    lemma_parameter_names();
    lemma_parse_query_string(pairs);
}

} // verus!
