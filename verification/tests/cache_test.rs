use secretcli::cache::{cache_file_path, check_cache, contract_cache_dir, CacheDecision, ContractCache};
use secretcli::types::{CacheError, NetContract};

fn contract(label: &str, id: &str) -> NetContract {
    NetContract {
        label: label.to_string(),
        id: id.to_string(),
        address: format!("secret1{}", label),
        code_hash: "hash".to_string(),
    }
}

#[test]
fn round_trip_by_same_name() {
    let mut cache = ContractCache::new();
    let c = contract("counter", "7");
    cache.save("counter", &c);
    let loaded = cache.load(Some("counter")).unwrap();
    assert_eq!(loaded, c);
}

#[test]
fn load_without_name_fails_with_no_cached_contract() {
    let cache = ContractCache::new();
    assert_eq!(cache.load(None), Err(CacheError::NoCachedContract));
    let mut cache = ContractCache::new();
    cache.save("counter", &contract("counter", "7"));
    assert_eq!(cache.load(None), Err(CacheError::NoCachedContract));
}

#[test]
fn load_of_absent_name_is_a_cache_miss() {
    let mut cache = ContractCache::new();
    cache.save("counter", &contract("counter", "7"));
    assert_eq!(cache.load(Some("other")), Err(CacheError::CacheMiss));
}

#[test]
fn save_overwrites_and_leaves_others_alone() {
    let mut cache = ContractCache::new();
    let first = contract("counter", "7");
    let second = contract("counter", "8");
    let other = contract("token", "9");
    cache.save("counter", &first);
    cache.save("token", &other);
    cache.save("counter", &second);
    assert_eq!(cache.load(Some("counter")).unwrap(), second);
    assert_eq!(cache.load(Some("token")).unwrap(), other);
}

#[test]
fn second_deploy_with_same_name_is_a_cache_hit() {
    let mut cache = ContractCache::new();
    match check_cache(&cache, Some("counter")) {
        CacheDecision::Deploy => {}
        CacheDecision::Hit(_) => panic!("empty cache must force a deployment"),
    }
    let c = contract("counter", "7");
    cache.save("counter", &c);
    match check_cache(&cache, Some("counter")) {
        CacheDecision::Hit(hit) => assert_eq!(hit, c),
        CacheDecision::Deploy => panic!("saved name must be served from the cache"),
    }
}

#[test]
fn deploy_without_name_never_hits() {
    let mut cache = ContractCache::new();
    cache.save("counter", &contract("counter", "7"));
    match check_cache(&cache, None) {
        CacheDecision::Deploy => {}
        CacheDecision::Hit(_) => panic!("a nameless deployment cannot hit the cache"),
    }
}

#[test]
fn cache_paths_concatenate_directory_and_name() {
    assert_eq!(contract_cache_dir(), "../cached_contracts/");
    assert_eq!(cache_file_path("counter"), "../cached_contracts/counter");
}
