//! The driver's own decisions: what is sent to the virtual machine to deploy
//! or call a contract, and what its answer means.

use crate::bootstrap::{bootstrap_code, bootstrap_spec, MAX_CODE_LEN};
use crate::decimal::{decimal_string, decimal_text};
use crate::hex::{decode, encode, has_hex_prefix, hex_bytes, hex_text, is_hex_text};
use vstd::prelude::*;

verus! {

/// The chain that every transaction names.
pub const CHAIN_ID: u64 = 1;

/// What the machine charges for any transaction before it runs a single
/// instruction; a test is charged only for what it ran.
pub const BASE_TX_GAS: u64 = 21000;

/// The 32-byte word whose bytes are all `byte`: zero for `0`, the largest
/// number that a word can hold for `0xff`.
pub open spec fn word_of(byte: u8) -> Seq<u8> {
    Seq::new(32, |i: int| byte)
}

/// The address whose bytes are all zero, from which the harness deploys and
/// calls.
pub open spec fn zero_address() -> Seq<u8> {
    Seq::new(20, |i: int| 0u8)
}

/// Where a transaction goes: to a contract, or into the creation of one.
#[derive(Debug)]
pub enum TransactTo {
    Call([u8; 20]),
    Create,
}

/// A transaction as the machine takes it. Words are big-endian.
#[derive(Debug)]
pub struct Env {
    pub chain_id: u64,
    pub basefee: [u8; 32],
    pub gas_limit: [u8; 32],
    pub caller: [u8; 20],
    pub transact_to: TransactTo,
    pub data: Vec<u8>,
    pub value: [u8; 32],
}

/// Whether `env` is the transaction from `caller` to `to` with `data` and
/// `value`: on the fixed chain, with no base fee and no limit on gas.
pub open spec fn is_env_of(
    env: Env,
    caller: Seq<u8>,
    to: TransactTo,
    data: Seq<u8>,
    value: Seq<u8>,
) -> bool {
    &&& env.chain_id == CHAIN_ID
    &&& env.basefee@ == word_of(0)
    &&& env.gas_limit@ == word_of(0xff)
    &&& env.caller@ == caller
    &&& env.transact_to == to
    &&& env.data@ == data
    &&& env.value@ == value
}

/// Builds the transaction from `caller` to `to` with `data` and `value`.
pub fn build_env(caller: [u8; 20], to: TransactTo, data: Vec<u8>, value: [u8; 32]) -> (env: Env)
    ensures
        is_env_of(env, caller@, to, data@, value@),
{
    let basefee: [u8; 32] = [0u8; 32];
    let gas_limit: [u8; 32] = [0xffu8; 32];
    proof {
        assert(basefee@ =~= word_of(0));
        assert(gas_limit@ =~= word_of(0xff));
    }
    Env { chain_id: CHAIN_ID, basefee, gas_limit, caller, transact_to: to, data, value }
}

/// The balance that a sender is given before its transaction: the largest
/// that a word can hold.
pub fn max_balance() -> (amount: [u8; 32])
    ensures
        amount@ == word_of(0xff),
{
    let amount: [u8; 32] = [0xffu8; 32];
    proof {
        assert(amount@ =~= word_of(0xff));
    }
    amount
}

/// What the account store keeps of an account. `C` is the form in which the
/// store holds code.
#[derive(Debug)]
pub struct AccountInfo<C> {
    pub balance: [u8; 32],
    pub nonce: u64,
    pub code_hash: [u8; 32],
    pub code: Option<C>,
}

/// The account `existing`, or `not_existing` where there is none, with
/// nothing but the balance overwritten by `amount`.
pub open spec fn with_balance<C>(
    existing: Option<AccountInfo<C>>,
    not_existing: AccountInfo<C>,
    amount: [u8; 32],
) -> AccountInfo<C> {
    let before = match existing {
        Some(info) => info,
        None => not_existing,
    };
    AccountInfo {
        balance: amount,
        nonce: before.nonce,
        code_hash: before.code_hash,
        code: before.code,
    }
}

/// The account to write back so that its balance is `amount`: the account
/// as the store has it, or `not_existing` where it has none, with nothing
/// but the balance overwritten.
pub fn set_balance<C>(
    existing: Option<AccountInfo<C>>,
    not_existing: AccountInfo<C>,
    amount: [u8; 32],
) -> (account: AccountInfo<C>)
    ensures
        account == with_balance(existing, not_existing, amount),
{
    let mut account = match existing {
        Some(info) => info,
        None => not_existing,
    };
    account.balance = amount;
    account
}

/// Setting a balance on an account that was just given it changes nothing,
/// and the account that comes of two settings in a row is that of the
/// second alone.
pub proof fn lemma_set_balance_idempotent<C>(
    existing: Option<AccountInfo<C>>,
    not_existing: AccountInfo<C>,
    first: [u8; 32],
    amount: [u8; 32],
)
    ensures
        with_balance(Some(with_balance(existing, not_existing, amount)), not_existing, amount)
            == with_balance(existing, not_existing, amount),
        with_balance(Some(with_balance(existing, not_existing, first)), not_existing, amount)
            == with_balance(existing, not_existing, amount),
{
}

/// Whether `code` can be deployed: an even number of hexadecimal digits with
/// no marker in front, for at most as many bytes as a two-byte push can
/// count.
pub open spec fn is_deployable(code: Seq<char>) -> bool {
    &&& is_hex_text(code)
    &&& !has_hex_prefix(code)
    &&& code.len() / 2 <= MAX_CODE_LEN
}

/// The transaction that deploys the runtime code that `code` spells: a
/// creation from the zero address, without value, whose data is the
/// bootstrap code for it. There is none where `code` cannot be deployed.
pub fn deploy_env(code: &str) -> (env: Option<Env>)
    ensures
        env is Some <==> is_deployable(code@),
        env matches Some(e) ==> is_env_of(
            e,
            zero_address(),
            TransactTo::Create,
            bootstrap_spec(hex_bytes(code@)),
            word_of(0),
        ),
{
    let n: usize = code.unicode_len();
    if n >= 2 && code.get_char(0) == '0' && (code.get_char(1) == 'x' || code.get_char(1) == 'X') {
        return None;
    }
    match decode(code) {
        Some(runtime) => {
            if runtime.len() > MAX_CODE_LEN {
                return None;
            }
            let caller: [u8; 20] = [0u8; 20];
            let value: [u8; 32] = [0u8; 32];
            proof {
                assert(caller@ =~= zero_address());
                assert(value@ =~= word_of(0));
            }
            Some(build_env(caller, TransactTo::Create, bootstrap_code(runtime.as_slice()), value))
        },
        None => None,
    }
}

/// The transaction that calls the contract at `address` from `caller` with
/// the calldata that `data` spells. There is none where `data` is no
/// hexadecimal text.
pub fn call_env(caller: [u8; 20], address: [u8; 20], value: [u8; 32], data: &str) -> (env: Option<
    Env,
>)
    ensures
        env is Some <==> is_hex_text(data@),
        env matches Some(e) ==> is_env_of(
            e,
            caller@,
            TransactTo::Call(address),
            hex_bytes(data@),
            value@,
        ),
{
    match decode(data) {
        Some(calldata) => Some(build_env(caller, TransactTo::Call(address), calldata, value)),
        None => None,
    }
}

/// What a transaction that succeeded gave back.
#[derive(Debug)]
pub enum Output {
    /// The data that a call returned.
    Call(Vec<u8>),
    /// The code of a created contract and, where one was made, its address.
    Create(Vec<u8>, Option<[u8; 20]>),
}

/// The machine's answer to one transaction.
#[derive(Debug)]
#[allow(inconsistent_fields)]
pub enum ExecutionResult {
    Success { output: Output, gas_used: u64 },
    Revert { gas_used: u64, output: Vec<u8> },
    Halt { reason: String, gas_used: u64 },
}

/// Whether a test ran to its end or reverted.
#[derive(Clone, Copy, Debug, PartialEq, Eq)]
pub enum TestStatus {
    Success,
    Revert,
}

/// What one test did.
#[derive(Debug)]
pub struct TestResult {
    pub name: String,
    pub return_data: Option<String>,
    pub gas: u64,
    pub status: TestStatus,
    pub logs: Vec<(u32, String)>,
}

/// Why the runner gave up, in words.
#[derive(Debug)]
pub struct RunnerError(pub String);

pub open spec fn deploy_reverted_text(gas_used: u64, output: Seq<u8>) -> Seq<char> {
    "deployment reverted, gas_used="@ + decimal_text(gas_used as nat) + ", output=0x"@ + hex_text(
        output,
    )
}

pub open spec fn deploy_halted_text(gas_used: u64, reason: Seq<char>) -> Seq<char> {
    "deployment halted, gas_used="@ + decimal_text(gas_used as nat) + ", reason="@ + reason
}

pub open spec fn unexpected_status_text() -> Seq<char> {
    "unexpected transaction status"@
}

pub open spec fn unexpected_kind_text() -> Seq<char> {
    "unexpected transaction kind"@
}

/// The address of the contract that a deployment made, or why it made none:
/// only a success that names a created address is one.
pub fn deploy_result(er: ExecutionResult) -> (result: Result<[u8; 20], RunnerError>)
    ensures
        match er {
            ExecutionResult::Success { output: Output::Create(_, Some(addr)), .. } => {
                result matches Ok(made) && made == addr
            },
            ExecutionResult::Success { .. } => {
                result matches Err(e) && e.0@ == unexpected_status_text()
            },
            ExecutionResult::Revert { gas_used, output } => {
                result matches Err(e) && e.0@ == deploy_reverted_text(gas_used, output@)
            },
            ExecutionResult::Halt { reason, gas_used } => {
                result matches Err(e) && e.0@ == deploy_halted_text(gas_used, reason@)
            },
        },
{
    match er {
        ExecutionResult::Success { output: Output::Create(_, Some(addr)), .. } => Ok(addr),
        ExecutionResult::Revert { gas_used, output } => {
            let mut text = String::from_str("deployment reverted, gas_used=");
            text.append(decimal_string(gas_used).as_str());
            text.append(", output=0x");
            text.append(encode(output.as_slice()).as_str());
            Err(RunnerError(text))
        },
        ExecutionResult::Halt { reason, gas_used } => {
            let mut text = String::from_str("deployment halted, gas_used=");
            text.append(decimal_string(gas_used).as_str());
            text.append(", reason=");
            text.append(reason.as_str());
            Err(RunnerError(text))
        },
        _ => Err(RunnerError(String::from_str("unexpected transaction status"))),
    }
}

/// The text of returned data: none where nothing was returned.
pub open spec fn return_text(output: Seq<u8>) -> Option<Seq<char>> {
    if output.len() == 0 {
        None
    } else {
        Some(hex_text(output))
    }
}

/// The text of returned data: none where nothing was returned.
pub fn return_data(output: &[u8]) -> (text: Option<String>)
    ensures
        text is Some <==> return_text(output@) is Some,
        text matches Some(t) ==> t@ == return_text(output@).unwrap(),
{
    if output.len() == 0 {
        None
    } else {
        Some(encode(output))
    }
}

/// Whether the machine's answer to a call is one that a test result can be
/// made of: the call returned, or it reverted.
pub open spec fn call_completed(er: ExecutionResult) -> bool {
    match er {
        ExecutionResult::Success { output: Output::Call(_), .. } => true,
        ExecutionResult::Revert { .. } => true,
        _ => false,
    }
}

/// The gas that the machine says a transaction used.
pub open spec fn gas_used_of(er: ExecutionResult) -> u64 {
    match er {
        ExecutionResult::Success { gas_used, .. } => gas_used,
        ExecutionResult::Revert { gas_used, .. } => gas_used,
        ExecutionResult::Halt { gas_used, .. } => gas_used,
    }
}

/// The data that a completed call gave back.
pub open spec fn output_of(er: ExecutionResult) -> Seq<u8> {
    match er {
        ExecutionResult::Success { output: Output::Call(data), .. } => data@,
        ExecutionResult::Success { output: Output::Create(code, _), .. } => code@,
        ExecutionResult::Revert { output, .. } => output@,
        ExecutionResult::Halt { .. } => Seq::empty(),
    }
}

/// The result of the test `name` from the machine's answer to its call and
/// the log that the inspector kept. The gas is what the machine used less the
/// base cost of a transaction.
pub fn call_result(name: String, er: ExecutionResult, logs: Vec<(u32, String)>) -> (result: Result<
    TestResult,
    RunnerError,
>)
    requires
        call_completed(er) ==> gas_used_of(er) >= BASE_TX_GAS,
    ensures
        call_completed(er) <==> result is Ok,
        result matches Ok(test) ==> {
            &&& test.name == name
            &&& test.gas == gas_used_of(er) - BASE_TX_GAS
            &&& test.status == (if er is Success {
                TestStatus::Success
            } else {
                TestStatus::Revert
            })
            &&& test.return_data is Some <==> return_text(output_of(er)) is Some
            &&& test.return_data matches Some(t) ==> t@ == hex_text(output_of(er))
            &&& test.logs == logs
        },
        result matches Err(e) ==> e.0@ == (if er is Success {
            unexpected_kind_text()
        } else {
            unexpected_status_text()
        }),
{
    match er {
        ExecutionResult::Success { output: Output::Call(data), gas_used } => Ok(
            TestResult {
                name,
                return_data: return_data(data.as_slice()),
                gas: gas_used - BASE_TX_GAS,
                status: TestStatus::Success,
                logs,
            },
        ),
        ExecutionResult::Success { .. } => Err(
            RunnerError(String::from_str("unexpected transaction kind")),
        ),
        ExecutionResult::Revert { gas_used, output } => Ok(
            TestResult {
                name,
                return_data: return_data(output.as_slice()),
                gas: gas_used - BASE_TX_GAS,
                status: TestStatus::Revert,
                logs,
            },
        ),
        ExecutionResult::Halt { .. } => Err(
            RunnerError(String::from_str("unexpected transaction status")),
        ),
    }
}

} // verus!
