use ssri_server::client::{check_response, ChainClient};
use ssri_server::error::Error;
use ssri_server::types::{Order, OutPoint, ScriptHashType, ScriptKey, ScriptType, SearchKey, SearchMode};

#[test]
fn live_cell_request_text() {
    let mut c = ChainClient::new();
    let op = OutPoint { tx_hash: vec![0xab, 0x01], index: 26 };
    let (id, text) = c.get_live_cell_request(&op, true).unwrap();
    assert_eq!(id, 0);
    assert_eq!(
        text,
        "{\"jsonrpc\":\"2.0\",\"method\":\"get_live_cell\",\"params\":[{\"index\":\"0x1a\",\"tx_hash\":\"0xab01\"},true],\"id\":0}"
    );
    let (id, text) = c.get_live_cell_request(&OutPoint { tx_hash: vec![], index: 0 }, false).unwrap();
    assert_eq!(id, 1);
    assert!(text.contains("\"index\":\"0x0\""));
    assert!(text.ends_with("false],\"id\":1}"));
}

#[test]
fn transaction_request_text() {
    let mut c = ChainClient { next_id: 1234 };
    let (id, text) = c.get_transaction_request(&vec![0xff; 2]).unwrap();
    assert_eq!(id, 1234);
    assert_eq!(
        text,
        "{\"jsonrpc\":\"2.0\",\"method\":\"get_transaction\",\"params\":[\"0xffff\"],\"id\":1234}"
    );
    assert_eq!(c.next_id, 1235);
}

#[test]
fn ids_run_out_at_the_top() {
    let mut c = ChainClient { next_id: u64::MAX - 1 };
    assert_eq!(c.next_request_id(), Some(u64::MAX - 1));
    assert_eq!(c.next_request_id(), None);
    assert!(c.get_transaction_request(&vec![1]).is_none());
    assert_eq!(c.next_id, u64::MAX);
}

#[test]
fn responses_must_answer_the_request() {
    assert!(check_response(3, Some(3), true).is_ok());
    assert!(matches!(check_response(3, Some(4), true), Err(Error::ChainUnavailable)));
    assert!(matches!(check_response(3, None, true), Err(Error::ChainUnavailable)));
    assert!(matches!(check_response(3, Some(3), false), Err(Error::ChainUnavailable)));
}

#[test]
fn error_messages() {
    assert_eq!(Error::Script(7).message(), "Script returns 7");
    assert_eq!(Error::Script(0).message(), "Script returns 0");
    assert_eq!(Error::Script(127).message(), "Script returns 127");
    assert_eq!(Error::Script(-128).message(), "Script returns -128");
    assert_eq!(Error::Script(-10).message(), "Script returns -10");
    assert_eq!(Error::InvalidRequest("Cell not found").message(), "Cell not found");
    assert_eq!(Error::Vm("trap".to_string()).message(), "trap");
    assert_eq!(Error::JsonRpcRequestError.message(), "");
    assert_eq!(Error::ChainUnavailable.message(), "Chain data source unavailable");
}

#[test]
fn cells_request_text() {
    let key = SearchKey {
        script: ScriptKey { code_hash: vec![0x12, 0x34], hash_type: ScriptHashType::Type, args: vec![] },
        script_type: ScriptType::Lock,
        script_search_mode: Some(SearchMode::Exact),
        with_data: Some(false),
    };
    let mut c = ChainClient { next_id: 9 };
    let (id, text) = c.get_cells_request(&key, Order::Asc, 100, &None).unwrap();
    assert_eq!(id, 9);
    assert_eq!(
        text,
        "{\"jsonrpc\":\"2.0\",\"method\":\"get_cells\",\"params\":[{\"script\":{\"code_hash\":\"0x1234\",\"hash_type\":\"type\",\"args\":\"0x\"},\"script_type\":\"lock\",\"script_search_mode\":\"exact\",\"with_data\":false},\"asc\",\"0x64\",null],\"id\":9}"
    );
    let bare = SearchKey { script_search_mode: None, with_data: None, ..key };
    let (_, text) = c.get_cells_request(&bare, Order::Desc, 0, &Some(vec![0xab])).unwrap();
    assert!(text.contains("\"script_type\":\"lock\"},\"desc\",\"0x0\",\"0xab\"]"));
}

#[test]
fn enum_wire_names() {
    assert_eq!(SearchMode::Prefix.name(), "prefix");
    assert_eq!(SearchMode::Partial.name(), "partial");
    assert_eq!(ScriptType::Type.name(), "type");
    assert_eq!(Order::Desc.name(), "desc");
    assert_eq!(ScriptHashType::Data1.name(), "data1");
    assert_eq!(ScriptHashType::Data2.name(), "data2");
}
