//! The observer of completed calls: it decodes the cheat protocol spoken to
//! the reserved address, keeps the log entries, and turns a malformed log
//! call into a revert.

use crate::cheats::{standard_registry, CheatRegistry, HuffCheatCode};
use crate::hex::{encode, hex_text};
use vstd::prelude::*;
use vstd::slice::slice_subrange;

verus! {

/// Length of the two words, key and program counter, that every cheat call
/// starts with.
pub const CHEAT_HEADER_LEN: usize = 64;

/// Length of a well-formed log call: the header and one word of data.
pub const LOG_CALL_LEN: usize = 96;

/// Byte `i` of the reserved address, `0x…beefbabe`.
pub open spec fn cheats_addr_byte(i: int) -> u8 {
    if i == 16 {
        0xbe
    } else if i == 17 {
        0xef
    } else if i == 18 {
        0xba
    } else if i == 19 {
        0xbe
    } else {
        0
    }
}

/// The reserved address that cheat calls come from.
pub open spec fn cheats_addr_spec() -> Seq<u8> {
    Seq::new(20, |i: int| cheats_addr_byte(i))
}

/// The reserved address that cheat calls come from.
pub fn cheats_addr() -> (addr: [u8; 20])
    ensures
        addr@ == cheats_addr_spec(),
{
    let addr: [u8; 20] = [0, 0, 0, 0, 0, 0, 0, 0, 0, 0, 0, 0, 0, 0, 0, 0, 0xbe, 0xef, 0xba, 0xbe];
    assert(addr@ =~= cheats_addr_spec());
    addr
}

/// Whether `addr` is the reserved address.
pub fn is_cheats_addr(addr: &[u8; 20]) -> (same: bool)
    ensures
        same == (addr@ == cheats_addr_spec()),
{
    let reserved = cheats_addr();
    let mut i: usize = 0;
    while i < 20
        invariant
            i <= 20,
            reserved@ == cheats_addr_spec(),
            forall|j: int| 0 <= j < i ==> addr@[j] == reserved@[j],
        decreases 20 - i,
    {
        if addr[i] != reserved[i] {
            return false;
        }
        i = i + 1;
    }
    assert(addr@ =~= reserved@);
    true
}

/// The number that `bytes` spell, most significant byte first.
pub open spec fn be_value(bytes: Seq<u8>) -> nat
    decreases bytes.len(),
{
    if bytes.len() == 0 {
        0
    } else {
        be_value(bytes.drop_last()) * 256 + bytes.last() as nat
    }
}

/// The number that `bytes` spell where it fits in 32 bits, and 0 where it
/// does not.
pub open spec fn word_to_u32(bytes: Seq<u8>) -> u32 {
    if be_value(bytes) <= u32::MAX {
        be_value(bytes) as u32
    } else {
        0
    }
}

/// Decodes a big-endian word; one that does not fit in 32 bits decodes to 0.
pub fn bytes_to_u32(b: &[u8]) -> (value: u32)
    ensures
        value == word_to_u32(b@),
{
    let mut acc: u64 = 0;
    let mut over: bool = false;
    let mut i: usize = 0;
    while i < b.len()
        invariant
            i <= b@.len(),
            over <==> be_value(b@.take(i as int)) > u32::MAX,
            !over ==> acc == be_value(b@.take(i as int)),
            acc <= u32::MAX,
        decreases b@.len() - i,
    {
        proof {
            let next = b@.take(i as int + 1);
            assert(next.drop_last() =~= b@.take(i as int));
            assert(next.last() == b@[i as int]);
        }
        if !over {
            acc = acc * 256 + b[i] as u64;
            if acc > 0xffff_ffff {
                over = true;
                acc = 0;
            }
        }
        i = i + 1;
    }
    proof {
        assert(b@.take(i as int) =~= b@);
    }
    if over {
        0
    } else {
        acc as u32
    }
}

/// How a call ended, as far as the observer cares: in a revert, or in
/// whatever else the machine reported.
#[derive(Debug)]
pub enum CallStatus<R> {
    Revert,
    Other(R),
}

/// The outcome of one call: how it ended, what it returned, the state of its
/// gas, and where in the caller's memory the output goes.
#[derive(Debug)]
pub struct CallOutcome<R, G> {
    pub result: CallStatus<R>,
    pub output: Vec<u8>,
    pub gas: G,
    pub memory_offset: (usize, usize),
}

/// `outcome` turned into a revert: same output, gas and memory offset.
pub open spec fn reverted<R, G>(outcome: CallOutcome<R, G>) -> CallOutcome<R, G> {
    CallOutcome {
        result: CallStatus::Revert,
        output: outcome.output,
        gas: outcome.gas,
        memory_offset: outcome.memory_offset,
    }
}

/// Whether a call speaks the cheat protocol: it comes from the reserved
/// address and carries at least the two header words.
pub open spec fn is_cheat_call(caller: Seq<u8>, input: Seq<u8>) -> bool {
    caller == cheats_addr_spec() && input.len() >= CHEAT_HEADER_LEN
}

/// The key in the first word of a cheat call.
pub open spec fn cheat_key(input: Seq<u8>) -> u32 {
    word_to_u32(input.subrange(0, 32))
}

/// The program counter in the second word of a cheat call.
pub open spec fn cheat_pc(input: Seq<u8>) -> u32 {
    word_to_u32(input.subrange(32, 64))
}

/// Whether a call is a cheat call whose key the registry knows as `Log`.
pub open spec fn asks_log(
    registry: Map<u32, HuffCheatCode>,
    caller: Seq<u8>,
    input: Seq<u8>,
) -> bool {
    &&& is_cheat_call(caller, input)
    &&& registry.contains_key(cheat_key(input))
    &&& registry[cheat_key(input)] is Log
}

/// The log entry that a well-formed log call carries.
pub open spec fn log_entry(input: Seq<u8>) -> (u32, Seq<char>) {
    (cheat_pc(input), hex_text(input.subrange(64, 96)))
}

/// Whether `after` is the log `before` with one more entry at its end, of
/// the program counter and payload text of `entry`.
pub open spec fn is_appended(
    before: Seq<(u32, String)>,
    after: Seq<(u32, String)>,
    entry: (u32, Seq<char>),
) -> bool {
    &&& after.len() == before.len() + 1
    &&& after.drop_last() == before
    &&& after.last().0 == entry.0
    &&& after.last().1@ == entry.1
}

/// Observes the calls of one execution and keeps what they logged.
#[derive(Debug)]
pub struct CheatsInspector {
    pub logs: Vec<(u32, String)>,
    pub registry: CheatRegistry,
}

impl Default for CheatsInspector {
    /// An inspector with the standard registry and no log entry.
    fn default() -> (inspector: Self)
        ensures
            inspector.logs@.len() == 0,
            inspector.registry() == standard_registry(),
    {
        CheatsInspector::new(CheatRegistry::standard())
    }
}

impl CheatsInspector {
    /// The mapping from keys to cheat codes that this inspector goes by.
    pub open spec fn registry(&self) -> Map<u32, HuffCheatCode> {
        self.registry@
    }

    /// An inspector that goes by `registry` and has no log entry yet.
    pub fn new(registry: CheatRegistry) -> (inspector: Self)
        ensures
            inspector.logs@.len() == 0,
            inspector.registry() == registry@,
    {
        CheatsInspector { logs: Vec::new(), registry }
    }

    /// Before a call: the inspector never answers in the machine's place.
    pub fn call<R, G>(&mut self) -> (answer: Option<CallOutcome<R, G>>)
        ensures
            answer is None,
            *final(self) == *old(self),
    {
        None
    }

    /// After a call from `caller` with calldata `input`. A log call of
    /// exactly 96 bytes appends its entry and leaves the outcome alone; a
    /// log call of any other length appends nothing and turns the outcome
    /// into a revert; every other call changes nothing.
    pub fn call_end<R, G>(
        &mut self,
        caller: &[u8; 20],
        input: &[u8],
        outcome: CallOutcome<R, G>,
    ) -> (after: CallOutcome<R, G>)
        ensures
            final(self).registry == old(self).registry,
            after == (if asks_log(old(self).registry(), caller@, input@) && input@.len()
                != LOG_CALL_LEN {
                reverted(outcome)
            } else {
                outcome
            }),
            asks_log(old(self).registry(), caller@, input@) && input@.len() == LOG_CALL_LEN
                ==> is_appended(old(self).logs@, final(self).logs@, log_entry(input@)),
            !(asks_log(old(self).registry(), caller@, input@) && input@.len() == LOG_CALL_LEN)
                ==> final(self).logs == old(self).logs,
    {
        if is_cheats_addr(caller) && input.len() >= CHEAT_HEADER_LEN {
            let cheat_key: u32 = bytes_to_u32(slice_subrange(input, 0, 32));
            let pc: u32 = bytes_to_u32(slice_subrange(input, 32, 64));
            match self.registry.get(cheat_key) {
                Some(HuffCheatCode::Log) => {
                    if input.len() != LOG_CALL_LEN {
                        return CallOutcome {
                            result: CallStatus::Revert,
                            output: outcome.output,
                            gas: outcome.gas,
                            memory_offset: outcome.memory_offset,
                        };
                    }
                    let log_item: String = encode(slice_subrange(input, 64, 96));
                    self.logs.push((pc, log_item));
                    proof {
                        assert(self.logs@.drop_last() =~= old(self).logs@);
                    }
                },
                None => {},
            }
        }
        outcome
    }

    /// After a contract creation: the outcome passes through, and nothing is
    /// logged.
    pub fn create_end<T>(&mut self, outcome: T) -> (after: T)
        ensures
            after == outcome,
            *final(self) == *old(self),
    {
        outcome
    }
}

} // verus!
