//! The Zerion history adapter's data shapes and its paginator.
//!
//! Zerion serves transaction history over a REST endpoint with link-based
//! pagination. The paginator here translates between the opaque cursor shown
//! to callers and the `page[after]` query parameter embedded in the
//! upstream's own "next page" URL. The HTTP layer does the transport and the
//! JSON decoding; the cursor logic and the response mapping are verified.

use vstd::prelude::*;
use crate::error::RpcError;
use crate::handlers::{
    HistoryQueryParams,
    HistoryResponseBody,
    HistoryTransaction,
    HistoryTransactionMetadata,
};
use vstd::string::StringExecFns;

verus! {

/// The Zerion integration. The connection handle lives with the HTTP layer;
/// the core keeps what it templates into requests.
#[derive(Debug)]
pub struct ZerionProvider {
    pub api_key: String,
}

impl ZerionProvider {
    pub fn new(api_key: String) -> (r: Self)
        ensures
            r.api_key == api_key,
    {
        ZerionProvider { api_key }
    }
}

/// Top level of a Zerion transactions response.
#[derive(PartialEq, Eq, Debug)]
pub struct ZerionResponseBody {
    pub links: ZerionResponseLinks,
    pub data: Vec<ZerionTransactionsReponseBody>,
}

/// Pagination links of a Zerion response. `next` is absent on the last page.
#[derive(PartialEq, Eq, Debug)]
pub struct ZerionResponseLinks {
    pub self_id: String,
    pub next: Option<String>,
}

/// One transaction record as Zerion returns it.
#[derive(PartialEq, Eq, Debug)]
pub struct ZerionTransactionsReponseBody {
    pub transaction_type: String,
    pub id: String,
    pub attributes: ZerionTransactionAttributes,
}

/// The attributes Zerion nests inside one transaction record.
#[derive(PartialEq, Eq, Debug)]
pub struct ZerionTransactionAttributes {
    pub operation_type: String,
    pub hash: String,
    pub mined_at_block: usize,
    pub mined_at: String,
    pub sent_from: String,
    pub sent_to: String,
    pub status: String,
    pub nonce: usize,
    pub transfers: Vec<ZerionTransactionTransfer>,
}

/// One asset transfer within a transaction. The quoted value and unit price
/// are carried as the bit patterns of the upstream's binary64 numbers, so the
/// pass-through loses nothing while the core stays on plain values.
#[derive(PartialEq, Eq, Debug)]
pub struct ZerionTransactionTransfer {
    pub fungible_info: Option<ZerionTransactionFungibleInfo>,
    pub nft_info: Option<ZerionTransactionNFTInfo>,
    pub direction: String,
    pub quantity: ZerionTransactionTransferQuantity,
    pub value_bits: Option<u64>,
    pub price_bits: Option<u64>,
}

/// Transferred amount, as the upstream's decimal string.
#[derive(PartialEq, Eq, Debug)]
pub struct ZerionTransactionTransferQuantity {
    pub numeric: String,
}

/// Descriptor of a fungible asset.
#[derive(PartialEq, Eq, Debug)]
pub struct ZerionTransactionFungibleInfo {
    pub name: Option<String>,
    pub symbol: Option<String>,
    pub icon: Option<ZerionTransactionURLItem>,
}

/// A bare URL value.
#[derive(PartialEq, Eq, Debug)]
pub struct ZerionTransactionURLItem {
    pub url: String,
}

/// A URL with its content type, when the upstream knows it.
#[derive(PartialEq, Eq, Debug)]
pub struct ZerionTransactionURLandContentTypeItem {
    pub url: String,
    pub content_type: Option<String>,
}

/// Preview and detail renditions of an NFT.
#[derive(PartialEq, Eq, Debug)]
pub struct ZerionTransactionNFTContent {
    pub preview: Option<ZerionTransactionURLandContentTypeItem>,
    pub detail: Option<ZerionTransactionURLandContentTypeItem>,
}

/// Descriptor of an NFT.
#[derive(PartialEq, Eq, Debug)]
pub struct ZerionTransactionNFTInfo {
    pub name: Option<String>,
    pub content: Option<ZerionTransactionNFTContent>,
    pub flags: ZerionTransactionNFTInfoFlags,
}

/// Moderation flags of an NFT.
#[derive(PartialEq, Eq, Debug)]
pub struct ZerionTransactionNFTInfoFlags {
    pub is_spam: bool,
}

/// The decoded query pairs of an absolute URL, or nothing when the string is
/// not one. Which pairs a given string holds depends on the string alone.
pub uninterp spec fn url_query_pairs(s: Seq<char>) -> Option<Seq<(Seq<char>, Seq<char>)>>;

/// Relies on `url::Url::parse` and `url::Url::query_pairs`: parsing a string
/// as an absolute URL and decoding its query string into key/value pairs, in
/// order, is a function of the string alone.
#[verifier::external_body]
fn parse_query_pairs(s: &str) -> (r: Option<Vec<(String, String)>>)
    ensures
        match r {
            Some(v) => url_query_pairs(s@) == Some(
                v@.map_values(|p: (String, String)| (p.0@, p.1@)),
            ),
            None => url_query_pairs(s@) is None,
        },
{
    match url::Url::parse(s) {
        Ok(u) => Some(u.query_pairs().map(|(k, v)| (k.into_owned(), v.into_owned())).collect()),
        Err(_) => None,
    }
}

/// The upstream pagination parameter whose value is the opaque cursor.
pub open spec fn spec_cursor_key() -> Seq<char> {
    "page[after]"@
}

/// The value of the first pair keyed by the cursor parameter, from `i` on.
pub open spec fn spec_cursor_at(pairs: Seq<(Seq<char>, Seq<char>)>, i: int) -> Option<Seq<char>>
    decreases pairs.len() - i,
{
    if i < 0 || i >= pairs.len() {
        None
    } else if pairs[i].0 == spec_cursor_key() {
        Some(pairs[i].1)
    } else {
        spec_cursor_at(pairs, i + 1)
    }
}

/// The opaque cursor carried by a decoded query: the value of its first
/// cursor-key pair, if any.
pub open spec fn spec_cursor_from_pairs(pairs: Seq<(Seq<char>, Seq<char>)>) -> Option<Seq<char>> {
    spec_cursor_at(pairs, 0)
}

/// Extracts the opaque cursor from decoded query pairs: the value of the
/// first `page[after]` pair, or nothing when no such pair exists.
pub fn cursor_from_pairs(pairs: &Vec<(String, String)>) -> (r: Option<String>)
    ensures
        ({
            let ps = pairs@.map_values(|p: (String, String)| (p.0@, p.1@));
            match r {
                Some(s) => spec_cursor_from_pairs(ps) == Some(s@),
                None => spec_cursor_from_pairs(ps) is None,
            }
        }),
{
    let ghost ps = pairs@.map_values(|p: (String, String)| (p.0@, p.1@));
    let key: String = String::from_str("page[after]");
    let n = pairs.len();
    let mut i: usize = 0;
    while i < n
        invariant
            n == pairs@.len(),
            ps == pairs@.map_values(|p: (String, String)| (p.0@, p.1@)),
            key@ == spec_cursor_key(),
            i <= n,
            spec_cursor_at(ps, 0) == spec_cursor_at(ps, i as int),
            forall|k: int| 0 <= k < i ==> ps[k].0 != spec_cursor_key(),
        decreases n - i,
    {
        if pairs[i].0 == key {
            proof {
                assert(ps[i as int].0 == pairs@[i as int].0@);
                assert(spec_cursor_at(ps, i as int) == Some(ps[i as int].1));
            }
            return Some(pairs[i].1.clone());
        }
        proof {
            assert(ps[i as int].0 == pairs@[i as int].0@);
            assert(spec_cursor_at(ps, i as int) == spec_cursor_at(ps, i as int + 1));
        }
        i = i + 1;
    }
    None
}

/// Translates the upstream's "next page" link into the opaque cursor handed
/// to the caller. A missing link means the last page. A link that is not a
/// well-formed URL is a cursor parse failure: terminal, non-retryable,
/// distinct from provider failures. A well-formed link without the cursor
/// parameter yields no cursor.
pub fn from_upstream_next_link(next_link: &Option<String>) -> (r: Result<Option<String>, RpcError>)
    ensures
        match *next_link {
            None => r == Ok::<Option<String>, RpcError>(None),
            Some(u) => match url_query_pairs(u@) {
                None => r == Err::<Option<String>, RpcError>(RpcError::CursorParseError),
                Some(pairs) => match r {
                    Ok(c) => match (c, spec_cursor_from_pairs(pairs)) {
                        (Some(s), Some(t)) => s@ == t,
                        (None, None) => true,
                        _ => false,
                    },
                    Err(_) => false,
                },
            },
        },
{
    match next_link {
        None => Ok(None),
        Some(u) => match parse_query_pairs(u.as_str()) {
            None => Err(RpcError::CursorParseError),
            Some(pairs) => Ok(cursor_from_pairs(&pairs)),
        },
    }
}

/// Query parameters for the upstream history endpoint: the requested
/// currency (usd when the caller named none), then the upstream pagination
/// parameter when the caller resumes from a cursor.
pub fn to_upstream_query(params: &HistoryQueryParams) -> (r: Vec<(String, String)>)
    ensures
        r@.len() == (if params.cursor is Some {
            2int
        } else {
            1int
        }),
        r@[0].0@ == "currency"@,
        match params.currency {
            Some(c) => r@[0].1@ == c@,
            None => r@[0].1@ == "usd"@,
        },
        params.cursor matches Some(cur) ==> r@[1].0@ == spec_cursor_key() && r@[1].1@ == cur@,
{
    let mut r: Vec<(String, String)> = Vec::new();
    let currency: String = match &params.currency {
        Some(c) => c.clone(),
        None => String::from_str("usd"),
    };
    r.push((String::from_str("currency"), currency));
    match &params.cursor {
        Some(cur) => {
            r.push((String::from_str("page[after]"), cur.clone()));
        },
        None => {},
    }
    r
}

/// The upstream wallet-transactions endpoint for an address.
pub fn zerion_history_base_url(address: &str) -> (r: String)
    ensures
        r@ == "https://api.zerion.io/v1/wallets/"@ + address@ + "/transactions/?"@,
{
    let head: String = String::from_str("https://api.zerion.io/v1/wallets/");
    head.concat(address).concat("/transactions/?")
}

/// How one Zerion record becomes one normalized history transaction: the
/// attributes are regrouped into metadata and the transfers pass through.
pub open spec fn spec_map_transaction(z: ZerionTransactionsReponseBody) -> HistoryTransaction {
    HistoryTransaction {
        id: z.id,
        metadata: HistoryTransactionMetadata {
            operation_type: z.attributes.operation_type,
            hash: z.attributes.hash,
            mined_at: z.attributes.mined_at,
            nonce: z.attributes.nonce,
            sent_from: z.attributes.sent_from,
            sent_to: z.attributes.sent_to,
            status: z.attributes.status,
        },
        transfers: z.attributes.transfers,
    }
}

/// Executable twin of [`spec_map_transaction`].
pub fn map_transaction(z: ZerionTransactionsReponseBody) -> (r: HistoryTransaction)
    ensures
        r == spec_map_transaction(z),
{
    HistoryTransaction {
        id: z.id,
        metadata: HistoryTransactionMetadata {
            operation_type: z.attributes.operation_type,
            hash: z.attributes.hash,
            mined_at: z.attributes.mined_at,
            nonce: z.attributes.nonce,
            sent_from: z.attributes.sent_from,
            sent_to: z.attributes.sent_to,
            status: z.attributes.status,
        },
        transfers: z.attributes.transfers,
    }
}

/// Normalizes one decoded Zerion transactions response: every record is
/// mapped in order, and the next-page link becomes the caller's opaque
/// cursor. The one failure is a present but unparseable next link.
pub fn process_transactions_response(body: ZerionResponseBody) -> (r: Result<
    HistoryResponseBody,
    RpcError,
>)
    ensures
        match r {
            Ok(h) => {
                &&& h.data@ == body.data@.map_values(
                    |z: ZerionTransactionsReponseBody| spec_map_transaction(z),
                )
                &&& match body.links.next {
                    None => h.next is None,
                    Some(u) => match url_query_pairs(u@) {
                        Some(pairs) => match (h.next, spec_cursor_from_pairs(pairs)) {
                            (Some(s), Some(t)) => s@ == t,
                            (None, None) => true,
                            _ => false,
                        },
                        None => false,
                    },
                }
            },
            Err(e) => {
                &&& e == RpcError::CursorParseError
                &&& (body.links.next matches Some(u) && url_query_pairs(u@) is None)
            },
        },
{
    let next = match from_upstream_next_link(&body.links.next) {
        Ok(n) => n,
        Err(e) => {
            return Err(e);
        },
    };
    let ghost orig = body.data@;
    let mut data = body.data;
    let mut out: Vec<HistoryTransaction> = Vec::new();
    while data.len() > 0
        invariant
            out@.len() + data@.len() == orig.len(),
            out@ == orig.take(out@.len() as int).map_values(
                |z: ZerionTransactionsReponseBody| spec_map_transaction(z),
            ),
            data@ == orig.skip(out@.len() as int),
        decreases data@.len(),
    {
        let ghost done = out@.len() as int;
        let z = data.remove(0);
        proof {
            assert(z == orig[done]);
            assert(data@ =~= orig.skip(done + 1));
            assert(orig.take(done + 1) =~= orig.take(done).push(orig[done]));
            assert(orig.take(done + 1).map_values(
                |z: ZerionTransactionsReponseBody| spec_map_transaction(z),
            ) =~= orig.take(done).map_values(
                |z: ZerionTransactionsReponseBody| spec_map_transaction(z),
            ).push(spec_map_transaction(orig[done])));
        }
        out.push(map_transaction(z));
    }
    proof {
        assert(orig.take(orig.len() as int) =~= orig);
    }
    Ok(HistoryResponseBody { data: out, next })
}

} // verus!
