//! A test macro's decorator: the flags that say with which calldata and
//! value the test is called. Flags are read in order, and a later flag
//! overrides an earlier one of its kind.

use vstd::prelude::*;

verus! {

/// One flag of a decorator.
#[derive(Debug)]
pub enum DecoratorFlag {
    /// The calldata of the call, as hexadecimal text with or without `0x`.
    Calldata(String),
    /// The value sent with the call, as a big-endian word.
    Value([u8; 32]),
}

/// The flags that a test macro carries, in the order in which they were
/// written.
#[derive(Debug)]
pub struct Decorator {
    pub flags: Vec<DecoratorFlag>,
}

/// With what a test is called.
#[derive(Debug)]
pub struct CallConfig {
    pub data: String,
    pub value: [u8; 32],
}

/// `text` without a leading `0x`, where it has one.
pub open spec fn strip_0x(text: Seq<char>) -> Seq<char> {
    if text.len() >= 2 && text[0] == '0' && text[1] == 'x' {
        text.skip(2)
    } else {
        text
    }
}

/// The calldata that `flags` ask for: that of the last `Calldata` flag,
/// without its `0x`; empty where there is none.
pub open spec fn resolved_data(flags: Seq<DecoratorFlag>) -> Seq<char>
    decreases flags.len(),
{
    if flags.len() == 0 {
        Seq::empty()
    } else {
        match flags.last() {
            DecoratorFlag::Calldata(text) => strip_0x(text@),
            DecoratorFlag::Value(_) => resolved_data(flags.drop_last()),
        }
    }
}

/// The value that `flags` ask for: that of the last `Value` flag; zero
/// where there is none.
pub open spec fn resolved_value(flags: Seq<DecoratorFlag>) -> Seq<u8>
    decreases flags.len(),
{
    if flags.len() == 0 {
        Seq::new(32, |i: int| 0u8)
    } else {
        match flags.last() {
            DecoratorFlag::Value(word) => word@,
            DecoratorFlag::Calldata(_) => resolved_value(flags.drop_last()),
        }
    }
}

/// The flags of a decorator that may be absent: none where it is.
pub open spec fn flags_of(decorator: Option<Decorator>) -> Seq<DecoratorFlag> {
    match decorator {
        Some(d) => d.flags@,
        None => Seq::empty(),
    }
}

/// `text` without a leading `0x`, where it has one.
pub fn strip_prefix(text: &str) -> (rest: String)
    ensures
        rest@ == strip_0x(text@),
{
    let n: usize = text.unicode_len();
    if n >= 2 && text.get_char(0) == '0' && text.get_char(1) == 'x' {
        let rest = String::from_str(text.substring_char(2, n));
        assert(text@.subrange(2, n as int) =~= text@.skip(2));
        rest
    } else {
        String::from_str(text)
    }
}

/// With what the test is called: the calldata of the last `Calldata` flag
/// and the value of the last `Value` flag; empty calldata and no value
/// where the decorator, or a flag of that kind, is missing.
pub fn resolve_call_config(decorator: &Option<Decorator>) -> (config: CallConfig)
    ensures
        config.data@ == resolved_data(flags_of(*decorator)),
        config.value@ == resolved_value(flags_of(*decorator)),
{
    let mut data = String::new();
    let mut value: [u8; 32] = [0u8; 32];
    proof {
        assert(value@ =~= resolved_value(Seq::empty()));
    }
    if let Some(d) = decorator {
        let mut i: usize = 0;
        while i < d.flags.len()
            invariant
                i <= d.flags@.len(),
                data@ == resolved_data(d.flags@.take(i as int)),
                value@ == resolved_value(d.flags@.take(i as int)),
            decreases d.flags@.len() - i,
        {
            proof {
                let next = d.flags@.take(i as int + 1);
                assert(next.drop_last() =~= d.flags@.take(i as int));
                assert(next.last() == d.flags@[i as int]);
            }
            match &d.flags[i] {
                DecoratorFlag::Calldata(text) => {
                    data = strip_prefix(text.as_str());
                },
                DecoratorFlag::Value(word) => {
                    value = *word;
                },
            }
            i = i + 1;
        }
        proof {
            assert(d.flags@.take(i as int) =~= d.flags@);
        }
    }
    CallConfig { data, value }
}

/// A `Value` flag written last decides the value, whatever stands before
/// it, and leaves the calldata as it was.
pub proof fn lemma_last_value_wins(flags: Seq<DecoratorFlag>, word: [u8; 32])
    ensures
        resolved_value(flags.push(DecoratorFlag::Value(word))) == word@,
        resolved_data(flags.push(DecoratorFlag::Value(word))) == resolved_data(flags),
{
    let longer = flags.push(DecoratorFlag::Value(word));
    assert(longer.drop_last() =~= flags);
}

/// A `Calldata` flag written last decides the calldata, whatever stands
/// before it, and leaves the value as it was.
pub proof fn lemma_last_calldata_wins(flags: Seq<DecoratorFlag>, text: String)
    ensures
        resolved_data(flags.push(DecoratorFlag::Calldata(text))) == strip_0x(text@),
        resolved_value(flags.push(DecoratorFlag::Calldata(text))) == resolved_value(flags),
{
    let longer = flags.push(DecoratorFlag::Calldata(text));
    assert(longer.drop_last() =~= flags);
}

} // verus!
