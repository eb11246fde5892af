//! Bootstrap code: a short header that copies the runtime code that follows
//! it into memory and returns it as the body of the new contract.

use vstd::prelude::*;

verus! {

/// Largest runtime code length that a two-byte push can carry.
pub const MAX_CODE_LEN: usize = 0xffff;

/// Header length when both pushes carry one byte.
pub const BASE_HEADER_LEN: usize = 9;

pub const OP_PUSH1: u8 = 0x60;

pub const OP_PUSH2: u8 = 0x61;

pub const OP_DUP1: u8 = 0x80;

pub const OP_RETURNDATASIZE: u8 = 0x3d;

pub const OP_CODECOPY: u8 = 0x39;

pub const OP_RETURN: u8 = 0xf3;

/// Whether `value` needs the two-byte push.
pub open spec fn is_wide(value: nat) -> bool {
    value >= 256
}

/// The push instruction that carries `value`: one immediate byte below 256,
/// two big-endian bytes from there on.
pub open spec fn push_bytes(value: nat) -> Seq<u8>
    recommends
        value <= 0xffff,
{
    if !is_wide(value) {
        seq![OP_PUSH1, value as u8]
    } else {
        seq![OP_PUSH2, (value / 256) as u8, (value % 256) as u8]
    }
}

/// The number that a push instruction carries.
pub open spec fn push_value(push: Seq<u8>) -> nat
    recommends
        push.len() == 2 || push.len() == 3,
{
    if push.len() == 2 {
        push[1] as nat
    } else {
        (push[1] as nat) * 256 + push[2] as nat
    }
}

/// Header length once the push of the code length has its width.
pub open spec fn header_len_after_length(code_len: nat) -> nat {
    if is_wide(code_len) {
        (BASE_HEADER_LEN + 1) as nat
    } else {
        BASE_HEADER_LEN as nat
    }
}

/// The offset at which the runtime code starts: the header length once the
/// push of the offset has its width too.
pub open spec fn code_offset(code_len: nat) -> nat {
    let so_far = header_len_after_length(code_len);
    if is_wide(so_far) {
        so_far + 1
    } else {
        so_far
    }
}

/// The instructions that copy the code behind the header and return it.
pub open spec fn copy_trailer() -> Seq<u8> {
    seq![OP_RETURNDATASIZE, OP_CODECOPY, OP_RETURNDATASIZE, OP_RETURN]
}

/// The header for runtime code of `code_len` bytes: push the length,
/// duplicate it, push the offset, copy and return.
pub open spec fn bootstrap_header(code_len: nat) -> Seq<u8>
    recommends
        code_len <= MAX_CODE_LEN,
{
    push_bytes(code_len) + seq![OP_DUP1] + push_bytes(code_offset(code_len)) + copy_trailer()
}

/// Deployable initialization code for `code`.
pub open spec fn bootstrap_spec(code: Seq<u8>) -> Seq<u8>
    recommends
        code.len() <= MAX_CODE_LEN,
{
    bootstrap_header(code.len()) + code
}

/// Appends the push of `value` to `out` and says whether it took the wide
/// form.
pub fn push_immediate(out: &mut Vec<u8>, value: usize) -> (wide: bool)
    requires
        value <= MAX_CODE_LEN,
    ensures
        final(out)@ == old(out)@ + push_bytes(value as nat),
        wide == is_wide(value as nat),
{
    if value < 256 {
        out.push(OP_PUSH1);
        out.push(value as u8);
        assert(out@ =~= old(out)@ + push_bytes(value as nat));
        false
    } else {
        out.push(OP_PUSH2);
        out.push((value / 256) as u8);
        out.push((value % 256) as u8);
        assert(out@ =~= old(out)@ + push_bytes(value as nat));
        true
    }
}

/// Wraps runtime `code` in its bootstrap header.
pub fn bootstrap_code(code: &[u8]) -> (init: Vec<u8>)
    requires
        code@.len() <= MAX_CODE_LEN,
    ensures
        init@ == bootstrap_spec(code@),
{
    let contract_length: usize = code.len();
    let mut header_size: usize = BASE_HEADER_LEN;
    let mut init: Vec<u8> = Vec::new();
    if push_immediate(&mut init, contract_length) {
        header_size = header_size + 1;
    }
    init.push(OP_DUP1);
    // A wide push of the offset makes the header one byte longer.
    if header_size >= 256 {
        header_size = header_size + 1;
    }
    push_immediate(&mut init, header_size);
    init.push(OP_RETURNDATASIZE);
    init.push(OP_CODECOPY);
    init.push(OP_RETURNDATASIZE);
    init.push(OP_RETURN);
    proof {
        assert(init@ =~= bootstrap_header(code@.len()));
    }
    let mut i: usize = 0;
    while i < code.len()
        invariant
            i <= code@.len(),
            init@ == bootstrap_header(code@.len()) + code@.take(i as int),
        decreases code@.len() - i,
    {
        init.push(code[i]);
        proof {
            assert(code@.take(i as int + 1) =~= code@.take(i as int).push(code@[i as int]));
            assert(init@ =~= bootstrap_header(code@.len()) + code@.take(i as int + 1));
        }
        i = i + 1;
    }
    proof {
        assert(code@.take(i as int) =~= code@);
    }
    init
}

/// A push carries its value back out, in the narrow form below 256 and in
/// the wide form from there on.
pub proof fn lemma_push_carries_value(value: nat)
    requires
        value <= MAX_CODE_LEN,
    ensures
        push_value(push_bytes(value)) == value,
        value < 256 ==> push_bytes(value).len() == 2 && push_bytes(value)[0] == OP_PUSH1,
        value >= 256 ==> push_bytes(value).len() == 3 && push_bytes(value)[0] == OP_PUSH2,
{
    if value >= 256 {
        assert(((value / 256) as u8) as nat == value / 256);
        assert(((value % 256) as u8) as nat == value % 256);
        assert((value / 256) * 256 + value % 256 == value);
    }
}

/// The offset that the header pushes is the header's own length, whatever
/// the length of the code: the header is the push of the code length, one
/// duplication, the push of that offset, and the copy instructions.
pub proof fn lemma_offset_is_header_length(code_len: nat)
    requires
        code_len <= MAX_CODE_LEN,
    ensures
        bootstrap_header(code_len).len() == code_offset(code_len),
        push_value(push_bytes(code_offset(code_len))) == bootstrap_header(code_len).len(),
        bootstrap_header(code_len).subrange(
            push_bytes(code_len).len() as int + 1,
            push_bytes(code_len).len() as int + 1 + push_bytes(code_offset(code_len)).len(),
        ) == push_bytes(code_offset(code_len)),
        bootstrap_header(code_len).subrange(0, push_bytes(code_len).len() as int) == push_bytes(
            code_len,
        ),
{
    lemma_push_carries_value(code_len);
    lemma_push_carries_value(code_offset(code_len));
    let header = bootstrap_header(code_len);
    let start = push_bytes(code_len).len() as int + 1;
    let width = push_bytes(code_offset(code_len)).len() as int;
    assert(header.subrange(start, start + width) =~= push_bytes(code_offset(code_len)));
    assert(header.subrange(0, push_bytes(code_len).len() as int) =~= push_bytes(code_len));
}

/// The bytes that the header tells the machine to copy, from the pushed
/// offset and of the pushed length, are the runtime code itself.
pub proof fn lemma_bootstrap_embeds_code(code: Seq<u8>)
    requires
        code.len() <= MAX_CODE_LEN,
    ensures
        bootstrap_spec(code).len() == code_offset(code.len()) + code.len(),
        bootstrap_spec(code).subrange(
            push_value(push_bytes(code_offset(code.len()))) as int,
            push_value(push_bytes(code_offset(code.len()))) as int + push_value(
                push_bytes(code.len()),
            ),
        ) == code,
{
    lemma_offset_is_header_length(code.len());
    lemma_push_carries_value(code.len());
    let offset = code_offset(code.len()) as int;
    assert(bootstrap_spec(code).subrange(offset, offset + code.len()) =~= code);
}

} // verus!
