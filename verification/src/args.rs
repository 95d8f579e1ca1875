//! The exact argument lists handed to the chain daemon.
//!
//! Every daemon invocation is described by one builder here. Each builder's
//! contract pins the resulting argument sequence down as a deterministic,
//! order-preserving function of its inputs, so that a caller knows exactly
//! which command line the daemon will see: optional arguments are either
//! omitted entirely or contribute their flag/value pair in a fixed position,
//! and defaults are spelled out.

use vstd::prelude::*;
use crate::types::NetContract;

verus! {

/// The view of an optional string argument.
pub open spec fn opt_view(o: Option<&str>) -> Option<Seq<char>> {
    match o {
        Some(s) => Some(s@),
        None => None,
    }
}

/// An optional argument, or its documented default.
pub open spec fn or_default(v: Option<Seq<char>>, default: Seq<char>) -> Seq<char> {
    match v {
        Some(s) => s,
        None => default,
    }
}

/// The pair contributed by an optional keyring backend: nothing when it is
/// omitted, the flag and its value when it is given.
pub open spec fn keyring_backend_args(backend: Option<Seq<char>>) -> Seq<Seq<char>> {
    match backend {
        Some(b) => seq!["--keyring-backend"@, b],
        None => Seq::<Seq<char>>::empty(),
    }
}

/// The pair contributed by an optional amount of attached tokens.
pub open spec fn amount_args(amount: Option<Seq<char>>) -> Seq<Seq<char>> {
    match amount {
        Some(a) => seq!["--amount"@, a],
        None => Seq::<Seq<char>>::empty(),
    }
}

/// Pushes either the given argument or a default onto the command line.
fn push_or_default(args: &mut Vec<String>, v: Option<&str>, default: &str)
    ensures
        final(args)@.len() == old(args)@.len() + 1,
        forall|j: int| 0 <= j < old(args)@.len() ==> final(args)@[j] == old(args)@[j],
        final(args)@[old(args)@.len() as int]@ == or_default(opt_view(v), default@),
{
    match v {
        Some(s) => args.push(s.to_owned()),
        None => args.push(default.to_owned()),
    }
}

/// Converts a list of borrowed strings into owned ones, keeping order and
/// contents.
pub fn vec_str_to_vec_string(str_in: Vec<&str>) -> (str_out: Vec<String>)
    ensures
        str_out.deep_view() == str_in.deep_view(),
{
    let mut str_out: Vec<String> = Vec::new();
    let mut i: usize = 0;
    while i < str_in.len()
        invariant
            i <= str_in@.len(),
            str_out@.len() == i,
            forall|j: int| 0 <= j < i ==> str_out@[j]@ == str_in@[j]@,
        decreases str_in@.len() - i,
    {
        str_out.push(str_in[i].to_owned());
        i = i + 1;
    }
    proof {
        assert(str_out.deep_view() =~~= str_in.deep_view());
    }
    str_out
}

/// The command that stores a contract's code on chain:
/// `tx compute store <path> --from <user> --gas <gas>
/// [--keyring-backend <backend>] -y`,
/// with user defaulting to `a` and gas to `10000000`.
pub open spec fn store_contract_args_spec(
    contract: Seq<char>,
    user: Option<Seq<char>>,
    gas: Option<Seq<char>>,
    backend: Option<Seq<char>>,
) -> Seq<Seq<char>> {
    seq![
        "tx"@,
        "compute"@,
        "store"@,
        contract,
        "--from"@,
        or_default(user, "a"@),
        "--gas"@,
        or_default(gas, "10000000"@),
    ] + keyring_backend_args(backend) + seq!["-y"@]
}

/// Builds the argument list that stores the contract at the given path.
pub fn store_contract_args(
    contract: &str,
    user: Option<&str>,
    gas: Option<&str>,
    backend: Option<&str>,
) -> (r: Vec<String>)
    ensures
        r.deep_view() == store_contract_args_spec(
            contract@,
            opt_view(user),
            opt_view(gas),
            opt_view(backend),
        ),
{
    let mut r: Vec<String> = Vec::new();
    r.push("tx".to_owned());
    r.push("compute".to_owned());
    r.push("store".to_owned());
    r.push(contract.to_owned());
    r.push("--from".to_owned());
    push_or_default(&mut r, user, "a");
    r.push("--gas".to_owned());
    push_or_default(&mut r, gas, "10000000");
    if let Some(b) = backend {
        r.push("--keyring-backend".to_owned());
        r.push(b.to_owned());
    }
    r.push("-y".to_owned());
    proof {
        assert(r.deep_view() =~~= store_contract_args_spec(
            contract@,
            opt_view(user),
            opt_view(gas),
            opt_view(backend),
        ));
    }
    r
}

/// The fixed flag pair the runner appends to every JSON-producing
/// invocation, asking the daemon for JSON-formatted output.
pub open spec fn output_json_args() -> Seq<Seq<char>> {
    seq!["--output"@, "json"@]
}

/// Appends the fixed output-format flag pair to a command, leaving the
/// command itself untouched. Every daemon invocation except the raw
/// account-address path goes through this.
pub fn with_output_json(command: Vec<String>) -> (r: Vec<String>)
    ensures
        r.deep_view() == command.deep_view() + output_json_args(),
{
    let mut r = command;
    r.push("--output".to_owned());
    r.push("json".to_owned());
    proof {
        assert(r.deep_view() =~~= command.deep_view() + output_json_args());
    }
    r
}

/// The command that instantiates a stored contract:
/// `tx compute instantiate <code_id> <json> --from <sender> --label <label>
/// --gas <gas> [--keyring-backend <backend>] -y`,
/// with gas defaulting to `10000000`.
pub open spec fn instantiate_contract_args_spec(
    code_id: Seq<char>,
    msg: Seq<char>,
    label: Seq<char>,
    sender: Seq<char>,
    gas: Option<Seq<char>>,
    backend: Option<Seq<char>>,
) -> Seq<Seq<char>> {
    seq![
        "tx"@,
        "compute"@,
        "instantiate"@,
        code_id,
        msg,
        "--from"@,
        sender,
        "--label"@,
        label,
        "--gas"@,
        or_default(gas, "10000000"@),
    ] + keyring_backend_args(backend) + seq!["-y"@]
}

/// Builds the argument list that instantiates the given contract's stored
/// code with an already-serialized init message.
pub fn instantiate_contract_args(
    contract: &NetContract,
    msg: &str,
    label: &str,
    sender: &str,
    gas: Option<&str>,
    backend: Option<&str>,
) -> (r: Vec<String>)
    ensures
        r.deep_view() == instantiate_contract_args_spec(
            contract.id@,
            msg@,
            label@,
            sender@,
            opt_view(gas),
            opt_view(backend),
        ),
{
    let mut r: Vec<String> = Vec::new();
    r.push("tx".to_owned());
    r.push("compute".to_owned());
    r.push("instantiate".to_owned());
    r.push(contract.id.clone());
    r.push(msg.to_owned());
    r.push("--from".to_owned());
    r.push(sender.to_owned());
    r.push("--label".to_owned());
    r.push(label.to_owned());
    r.push("--gas".to_owned());
    push_or_default(&mut r, gas, "10000000");
    if let Some(b) = backend {
        r.push("--keyring-backend".to_owned());
        r.push(b.to_owned());
    }
    r.push("-y".to_owned());
    proof {
        assert(r.deep_view() =~~= instantiate_contract_args_spec(
            contract.id@,
            msg@,
            label@,
            sender@,
            opt_view(gas),
            opt_view(backend),
        ));
    }
    r
}

/// The command that executes a message on an instantiated contract:
/// `tx compute execute <address> <json> --from <sender> --gas <gas>
/// [--keyring-backend <backend>] [--amount <amount>] -y`,
/// with gas defaulting to `800000`.
pub open spec fn execute_contract_args_spec(
    address: Seq<char>,
    msg: Seq<char>,
    sender: Seq<char>,
    gas: Option<Seq<char>>,
    backend: Option<Seq<char>>,
    amount: Option<Seq<char>>,
) -> Seq<Seq<char>> {
    seq![
        "tx"@,
        "compute"@,
        "execute"@,
        address,
        msg,
        "--from"@,
        sender,
        "--gas"@,
        or_default(gas, "800000"@),
    ] + keyring_backend_args(backend) + amount_args(amount) + seq!["-y"@]
}

/// Builds the argument list that executes an already-serialized message on
/// the given contract.
pub fn execute_contract_args(
    contract: &NetContract,
    msg: &str,
    sender: &str,
    gas: Option<&str>,
    backend: Option<&str>,
    amount: Option<&str>,
) -> (r: Vec<String>)
    ensures
        r.deep_view() == execute_contract_args_spec(
            contract.address@,
            msg@,
            sender@,
            opt_view(gas),
            opt_view(backend),
            opt_view(amount),
        ),
{
    let mut r: Vec<String> = Vec::new();
    r.push("tx".to_owned());
    r.push("compute".to_owned());
    r.push("execute".to_owned());
    r.push(contract.address.clone());
    r.push(msg.to_owned());
    r.push("--from".to_owned());
    r.push(sender.to_owned());
    r.push("--gas".to_owned());
    push_or_default(&mut r, gas, "800000");
    if let Some(b) = backend {
        r.push("--keyring-backend".to_owned());
        r.push(b.to_owned());
    }
    if let Some(a) = amount {
        r.push("--amount".to_owned());
        r.push(a.to_owned());
    }
    r.push("-y".to_owned());
    proof {
        assert(r.deep_view() =~~= execute_contract_args_spec(
            contract.address@,
            msg@,
            sender@,
            opt_view(gas),
            opt_view(backend),
            opt_view(amount),
        ));
    }
    r
}

/// The command that queries a contract:
/// `query compute query <address> <json>`.
pub open spec fn query_contract_args_spec(address: Seq<char>, msg: Seq<char>) -> Seq<Seq<char>> {
    seq!["query"@, "compute"@, "query"@, address, msg]
}

/// Builds the argument list that runs an already-serialized query message
/// against the given contract.
pub fn query_contract_args(contract: &NetContract, msg: &str) -> (r: Vec<String>)
    ensures
        r.deep_view() == query_contract_args_spec(contract.address@, msg@),
{
    let mut r: Vec<String> = Vec::new();
    r.push("query".to_owned());
    r.push("compute".to_owned());
    r.push("query".to_owned());
    r.push(contract.address.clone());
    r.push(msg.to_owned());
    proof {
        assert(r.deep_view() =~~= query_contract_args_spec(contract.address@, msg@));
    }
    r
}

/// The command that fetches a transaction's full on-chain result:
/// `q tx <hash>`.
pub open spec fn query_hash_args_spec(hash: Seq<char>) -> Seq<Seq<char>> {
    seq!["q"@, "tx"@, hash]
}

/// Builds the argument list that fetches the full result of the transaction
/// with the given hash.
pub fn query_hash_args(hash: &str) -> (r: Vec<String>)
    ensures
        r.deep_view() == query_hash_args_spec(hash@),
{
    let mut r: Vec<String> = Vec::new();
    r.push("q".to_owned());
    r.push("tx".to_owned());
    r.push(hash.to_owned());
    proof {
        assert(r.deep_view() =~~= query_hash_args_spec(hash@));
    }
    r
}

/// The command that fetches a transaction's compute result:
/// `q compute tx <hash>`.
pub open spec fn compute_hash_args_spec(hash: Seq<char>) -> Seq<Seq<char>> {
    seq!["q"@, "compute"@, "tx"@, hash]
}

/// Builds the argument list that fetches the compute result of the
/// transaction with the given hash.
pub fn compute_hash_args(hash: &str) -> (r: Vec<String>)
    ensures
        r.deep_view() == compute_hash_args_spec(hash@),
{
    let mut r: Vec<String> = Vec::new();
    r.push("q".to_owned());
    r.push("compute".to_owned());
    r.push("tx".to_owned());
    r.push(hash.to_owned());
    proof {
        assert(r.deep_view() =~~= compute_hash_args_spec(hash@));
    }
    r
}

/// The command that lists all stored contract codes:
/// `query compute list-code`.
pub open spec fn list_code_args_spec() -> Seq<Seq<char>> {
    seq!["query"@, "compute"@, "list-code"@]
}

/// Builds the argument list that lists all stored contract codes.
pub fn list_code_args() -> (r: Vec<String>)
    ensures
        r.deep_view() == list_code_args_spec(),
{
    let mut r: Vec<String> = Vec::new();
    r.push("query".to_owned());
    r.push("compute".to_owned());
    r.push("list-code".to_owned());
    proof {
        assert(r.deep_view() =~~= list_code_args_spec());
    }
    r
}

/// The command that lists the contracts instantiated from a code id:
/// `query compute list-contract-by-code <code_id>`.
pub open spec fn list_contracts_by_code_args_spec(code: Seq<char>) -> Seq<Seq<char>> {
    seq!["query"@, "compute"@, "list-contract-by-code"@, code]
}

/// Builds the argument list that lists the contracts instantiated from the
/// given code id.
pub fn list_contracts_by_code_args(code: &str) -> (r: Vec<String>)
    ensures
        r.deep_view() == list_contracts_by_code_args_spec(code@),
{
    let mut r: Vec<String> = Vec::new();
    r.push("query".to_owned());
    r.push("compute".to_owned());
    r.push("list-contract-by-code".to_owned());
    r.push(code.to_owned());
    proof {
        assert(r.deep_view() =~~= list_contracts_by_code_args_spec(code@));
    }
    r
}

/// The command that resolves a key name to its account address:
/// `keys show -a <key_name>`. This is the one invocation that is *not*
/// followed by the output-format flag: its stdout is a raw string, not JSON.
pub open spec fn account_address_args_spec(acc: Seq<char>) -> Seq<Seq<char>> {
    seq!["keys"@, "show"@, "-a"@, acc]
}

/// Builds the argument list that resolves the given key name to an address.
pub fn account_address_args(acc: &str) -> (r: Vec<String>)
    ensures
        r.deep_view() == account_address_args_spec(acc@),
{
    let mut r: Vec<String> = Vec::new();
    r.push("keys".to_owned());
    r.push("show".to_owned());
    r.push("-a".to_owned());
    r.push(acc.to_owned());
    proof {
        assert(r.deep_view() =~~= account_address_args_spec(acc@));
    }
    r
}

/// The well-known name of the file the document to sign is written to before
/// the signing command runs.
pub fn sign_doc_filename() -> (r: &'static str)
    ensures
        r@ == "tx_to_sign"@,
{
    "tx_to_sign"
}

/// The command that signs the document previously written to the well-known
/// signing file: `tx sign-doc tx_to_sign --from <signer>`.
pub open spec fn create_permit_args_spec(signer: Seq<char>) -> Seq<Seq<char>> {
    seq!["tx"@, "sign-doc"@, "tx_to_sign"@, "--from"@, signer]
}

/// Builds the argument list that signs the document in the well-known
/// signing file with the given signer key.
pub fn create_permit_args(signer: &str) -> (r: Vec<String>)
    ensures
        r.deep_view() == create_permit_args_spec(signer@),
{
    let mut r: Vec<String> = Vec::new();
    r.push("tx".to_owned());
    r.push("sign-doc".to_owned());
    r.push(sign_doc_filename().to_owned());
    r.push("--from".to_owned());
    r.push(signer.to_owned());
    proof {
        assert(r.deep_view() =~~= create_permit_args_spec(signer@));
    }
    r
}

} // verus!
