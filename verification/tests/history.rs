use rpc_gateway::error::RpcError;
use rpc_gateway::handlers::HistoryQueryParams;
use rpc_gateway::providers::zerion::{
    cursor_from_pairs, from_upstream_next_link, process_transactions_response, to_upstream_query,
    zerion_history_base_url, ZerionProvider, ZerionResponseBody, ZerionResponseLinks,
    ZerionTransactionAttributes, ZerionTransactionTransfer, ZerionTransactionTransferQuantity,
    ZerionTransactionsReponseBody,
};

#[test]
fn next_link_with_cursor_parameter() {
    let link = Some(
        "https://api.zerion.io/v1/wallets/0xabc/transactions/?currency=usd&page[after]=abc123"
            .to_string(),
    );
    assert_eq!(from_upstream_next_link(&link), Ok(Some("abc123".to_string())));
}

#[test]
fn next_link_without_cursor_parameter() {
    let link = Some("https://api.zerion.io/v1/wallets/0xabc/transactions/?currency=usd".to_string());
    assert_eq!(from_upstream_next_link(&link), Ok(None));
}

#[test]
fn unparseable_next_link_is_a_cursor_parse_error() {
    let link = Some("not a url".to_string());
    assert_eq!(from_upstream_next_link(&link), Err(RpcError::CursorParseError));
}

#[test]
fn absent_next_link_means_last_page() {
    assert_eq!(from_upstream_next_link(&None), Ok(None));
}

#[test]
fn cursor_is_the_first_matching_pair() {
    let pairs = vec![
        ("currency".to_string(), "usd".to_string()),
        ("page[after]".to_string(), "xyz".to_string()),
        ("page[after]".to_string(), "later".to_string()),
    ];
    assert_eq!(cursor_from_pairs(&pairs), Some("xyz".to_string()));
    let no_cursor = vec![("currency".to_string(), "usd".to_string())];
    assert_eq!(cursor_from_pairs(&no_cursor), None);
}

#[test]
fn upstream_query_defaults_the_currency() {
    let params = HistoryQueryParams {
        currency: None,
        cursor: None,
    };
    let q = to_upstream_query(&params);
    assert_eq!(q, vec![("currency".to_string(), "usd".to_string())]);
}

#[test]
fn upstream_query_carries_currency_and_cursor() {
    let params = HistoryQueryParams {
        currency: Some("eur".to_string()),
        cursor: Some("abc123".to_string()),
    };
    let q = to_upstream_query(&params);
    assert_eq!(
        q,
        vec![
            ("currency".to_string(), "eur".to_string()),
            ("page[after]".to_string(), "abc123".to_string()),
        ]
    );
}

#[test]
fn history_base_url_templates_the_address() {
    assert_eq!(
        zerion_history_base_url("0xabc"),
        "https://api.zerion.io/v1/wallets/0xabc/transactions/?"
    );
}

#[test]
fn provider_keeps_its_api_key() {
    let p = ZerionProvider::new("zerion-api-key".to_string());
    assert_eq!(p.api_key, "zerion-api-key");
}

fn sample_record(id: &str, hash: &str) -> ZerionTransactionsReponseBody {
    ZerionTransactionsReponseBody {
        transaction_type: "transaction".to_string(),
        id: id.to_string(),
        attributes: ZerionTransactionAttributes {
            operation_type: "send".to_string(),
            hash: hash.to_string(),
            mined_at_block: 17,
            mined_at: "2023-01-01T00:00:00Z".to_string(),
            sent_from: "0xfrom".to_string(),
            sent_to: "0xto".to_string(),
            status: "confirmed".to_string(),
            nonce: 3,
            transfers: vec![ZerionTransactionTransfer {
                fungible_info: None,
                nft_info: None,
                direction: "out".to_string(),
                quantity: ZerionTransactionTransferQuantity {
                    numeric: "1.5".to_string(),
                },
                value_bits: Some(1.5f64.to_bits()),
                price_bits: None,
            }],
        },
    }
}

#[test]
fn transactions_response_is_normalized() {
    let body = ZerionResponseBody {
        links: ZerionResponseLinks {
            self_id: "https://api.zerion.io/v1/wallets/0xabc/transactions/?currency=usd"
                .to_string(),
            next: Some(
                "https://api.zerion.io/v1/wallets/0xabc/transactions/?currency=usd&page[after]=cur2"
                    .to_string(),
            ),
        },
        data: vec![sample_record("tx1", "0xh1"), sample_record("tx2", "0xh2")],
    };
    let out = process_transactions_response(body).expect("well-formed response");
    assert_eq!(out.next, Some("cur2".to_string()));
    assert_eq!(out.data.len(), 2);
    assert_eq!(out.data[0].id, "tx1");
    assert_eq!(out.data[0].metadata.hash, "0xh1");
    assert_eq!(out.data[0].metadata.operation_type, "send");
    assert_eq!(out.data[0].metadata.nonce, 3);
    assert_eq!(out.data[0].metadata.sent_from, "0xfrom");
    assert_eq!(out.data[0].metadata.sent_to, "0xto");
    assert_eq!(out.data[0].metadata.status, "confirmed");
    assert_eq!(out.data[0].metadata.mined_at, "2023-01-01T00:00:00Z");
    assert_eq!(out.data[0].transfers.len(), 1);
    assert_eq!(out.data[0].transfers[0].value_bits, Some(1.5f64.to_bits()));
    assert_eq!(out.data[1].id, "tx2");
    assert_eq!(out.data[1].metadata.hash, "0xh2");
}

#[test]
fn bad_next_link_fails_the_whole_response() {
    let body = ZerionResponseBody {
        links: ZerionResponseLinks {
            self_id: "https://api.zerion.io/v1/wallets/0xabc/transactions/".to_string(),
            next: Some("::: not a url :::".to_string()),
        },
        data: vec![],
    };
    assert_eq!(
        process_transactions_response(body),
        Err(RpcError::CursorParseError)
    );
}

#[test]
fn last_page_has_no_cursor() {
    let body = ZerionResponseBody {
        links: ZerionResponseLinks {
            self_id: "https://api.zerion.io/v1/wallets/0xabc/transactions/".to_string(),
            next: None,
        },
        data: vec![sample_record("tx1", "0xh1")],
    };
    let out = process_transactions_response(body).unwrap();
    assert_eq!(out.next, None);
    assert_eq!(out.data.len(), 1);
}
