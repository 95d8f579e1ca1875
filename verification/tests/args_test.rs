use secretcli::args::{
    account_address_args, compute_hash_args, create_permit_args, execute_contract_args,
    instantiate_contract_args, list_code_args, list_contracts_by_code_args, query_contract_args,
    query_hash_args, sign_doc_filename, store_contract_args, vec_str_to_vec_string,
    with_output_json,
};
use secretcli::types::NetContract;

fn owned(v: Vec<&str>) -> Vec<String> {
    v.into_iter().map(|s| s.to_string()).collect()
}

fn sample_contract() -> NetContract {
    NetContract {
        label: "counter".to_string(),
        id: "7".to_string(),
        address: "secret1contractaddr".to_string(),
        code_hash: "deadbeef".to_string(),
    }
}

#[test]
fn store_args_all_defaults() {
    let args = store_contract_args("contract.wasm.gz", None, None, None);
    assert_eq!(
        args,
        owned(vec![
            "tx",
            "compute",
            "store",
            "contract.wasm.gz",
            "--from",
            "a",
            "--gas",
            "10000000",
            "-y",
        ])
    );
}

#[test]
fn store_args_explicit_gas_follows_flag() {
    let args = store_contract_args("contract.wasm.gz", Some("b"), Some("500"), None);
    assert_eq!(
        args,
        owned(vec![
            "tx",
            "compute",
            "store",
            "contract.wasm.gz",
            "--from",
            "b",
            "--gas",
            "500",
            "-y",
        ])
    );
}

#[test]
fn store_args_backend_pair_present_only_when_given() {
    let with_backend = store_contract_args("c.wasm", None, None, Some("test"));
    assert_eq!(
        with_backend,
        owned(vec![
            "tx",
            "compute",
            "store",
            "c.wasm",
            "--from",
            "a",
            "--gas",
            "10000000",
            "--keyring-backend",
            "test",
            "-y",
        ])
    );
    let without_backend = store_contract_args("c.wasm", None, None, None);
    assert!(!without_backend.iter().any(|a| a == "--keyring-backend"));
}

#[test]
fn instantiate_args_default_gas() {
    let c = sample_contract();
    let args = instantiate_contract_args(&c, "{\"count\":0}", "counter", "a", None, None);
    assert_eq!(
        args,
        owned(vec![
            "tx",
            "compute",
            "instantiate",
            "7",
            "{\"count\":0}",
            "--from",
            "a",
            "--label",
            "counter",
            "--gas",
            "10000000",
            "-y",
        ])
    );
}

#[test]
fn instantiate_args_backend_before_confirm_flag() {
    let c = sample_contract();
    let args = instantiate_contract_args(&c, "{}", "lbl", "b", Some("900"), Some("test"));
    assert_eq!(
        args,
        owned(vec![
            "tx",
            "compute",
            "instantiate",
            "7",
            "{}",
            "--from",
            "b",
            "--label",
            "lbl",
            "--gas",
            "900",
            "--keyring-backend",
            "test",
            "-y",
        ])
    );
}

#[test]
fn execute_args_default_gas_no_amount() {
    let c = sample_contract();
    let args = execute_contract_args(&c, "{\"incr\":{}}", "a", None, None, None);
    assert_eq!(
        args,
        owned(vec![
            "tx",
            "compute",
            "execute",
            "secret1contractaddr",
            "{\"incr\":{}}",
            "--from",
            "a",
            "--gas",
            "800000",
            "-y",
        ])
    );
}

#[test]
fn execute_args_amount_pair_after_backend() {
    let c = sample_contract();
    let args = execute_contract_args(&c, "{}", "a", Some("500"), Some("test"), Some("1000uscrt"));
    assert_eq!(
        args,
        owned(vec![
            "tx",
            "compute",
            "execute",
            "secret1contractaddr",
            "{}",
            "--from",
            "a",
            "--gas",
            "500",
            "--keyring-backend",
            "test",
            "--amount",
            "1000uscrt",
            "-y",
        ])
    );
}

#[test]
fn query_contract_args_shape() {
    let c = sample_contract();
    let args = query_contract_args(&c, "{\"get_count\":{}}");
    assert_eq!(
        args,
        owned(vec![
            "query",
            "compute",
            "query",
            "secret1contractaddr",
            "{\"get_count\":{}}",
        ])
    );
}

#[test]
fn hash_and_listing_args_shapes() {
    assert_eq!(query_hash_args("ABC123"), owned(vec!["q", "tx", "ABC123"]));
    assert_eq!(
        compute_hash_args("ABC123"),
        owned(vec!["q", "compute", "tx", "ABC123"])
    );
    assert_eq!(
        list_code_args(),
        owned(vec!["query", "compute", "list-code"])
    );
    assert_eq!(
        list_contracts_by_code_args("7"),
        owned(vec!["query", "compute", "list-contract-by-code", "7"])
    );
}

#[test]
fn account_address_args_shape() {
    assert_eq!(
        account_address_args("a"),
        owned(vec!["keys", "show", "-a", "a"])
    );
}

#[test]
fn create_permit_args_shape() {
    assert_eq!(sign_doc_filename(), "tx_to_sign");
    assert_eq!(
        create_permit_args("sign-test"),
        owned(vec!["tx", "sign-doc", "tx_to_sign", "--from", "sign-test"])
    );
}

#[test]
fn output_json_flag_is_appended() {
    let args = with_output_json(owned(vec!["q", "tx", "h"]));
    assert_eq!(args, owned(vec!["q", "tx", "h", "--output", "json"]));
}

#[test]
fn vec_str_to_vec_string_keeps_order_and_contents() {
    let out = vec_str_to_vec_string(vec!["a", "b", "c"]);
    assert_eq!(out, owned(vec!["a", "b", "c"]));
    let empty = vec_str_to_vec_string(vec![]);
    assert!(empty.is_empty());
}
