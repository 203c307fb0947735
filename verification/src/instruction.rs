//! The requests a caller can submit, and their wire format: one tag byte,
//! then the payload of the request, with no length prefix.
//!
//! | tag | request          | payload                                   |
//! |-----|------------------|-------------------------------------------|
//! | 0   | InitRngesus      | initial commitment (32)                   |
//! | 1   | IncrementPass    | claimed next commitment (32), secret (32) |
//! | 2   | BumpPointer      | none                                      |
//! | 3   | RegisterCallback | callback address (32)                     |

use vstd::prelude::*;
use vstd::slice::slice_subrange;
use crate::bytes::{read_key, KEY_LEN};
use crate::error::{custom, result_view, ProgramError, RngesusError};

verus! {

/// A request to the program.
#[derive(PartialEq, Eq, Debug, Clone, Copy)]
pub enum RngesusInstruction {
    /// Sets up the record of a storage slot with its first commitment.
    InitRngesus {
        /// the first commitment of the chain
        initial_key: [u8; 32],
    },
    /// Moves the chain to its next commitment. The caller need not sign:
    /// the secret proves control.
    IncrementPass {
        /// the commitment that becomes the head of the chain
        new_key: [u8; 32],
        /// the secret that links it to the current head
        secret: [u8; 32],
    },
    /// Advances the sequence counter without a secret. Reserved to the
    /// controlling authority.
    BumpPointer,
    /// Records a program as interested in advances of the chain.
    RegisterCallback {
        /// the address of the program to be notified
        program_address: [u8; 32],
    },
}

/// What a [`RngesusInstruction`] holds.
pub enum InstructionView {
    InitRngesus { initial_key: Seq<u8> },
    IncrementPass { new_key: Seq<u8>, secret: Seq<u8> },
    BumpPointer,
    RegisterCallback { program_address: Seq<u8> },
}

impl View for RngesusInstruction {
    type V = InstructionView;

    open spec fn view(&self) -> InstructionView {
        match *self {
            RngesusInstruction::InitRngesus { initial_key } => InstructionView::InitRngesus {
                initial_key: initial_key@,
            },
            RngesusInstruction::IncrementPass { new_key, secret } => InstructionView::IncrementPass {
                new_key: new_key@,
                secret: secret@,
            },
            RngesusInstruction::BumpPointer => InstructionView::BumpPointer,
            RngesusInstruction::RegisterCallback {
                program_address,
            } => InstructionView::RegisterCallback { program_address: program_address@ },
        }
    }
}

impl InstructionView {
    /// Every key of the payload has the length of a key.
    pub open spec fn wf(self) -> bool {
        match self {
            InstructionView::InitRngesus { initial_key } => initial_key.len() == KEY_LEN,
            InstructionView::IncrementPass { new_key, secret } => new_key.len() == KEY_LEN
                && secret.len() == KEY_LEN,
            InstructionView::BumpPointer => true,
            InstructionView::RegisterCallback { program_address } => program_address.len()
                == KEY_LEN,
        }
    }
}

/// Appends the bytes of `key` to `out`.
fn push_key(out: &mut Vec<u8>, key: &[u8; 32])
    ensures
        final(out)@ == old(out)@ + key@,
{
    let mut i: usize = 0;
    while i < KEY_LEN
        invariant
            i <= KEY_LEN,
            out@ == old(out)@ + key@.subrange(0, i as int),
        decreases KEY_LEN - i,
    {
        out.push(key[i]);
        i += 1;
        assert(out@ =~= old(out)@ + key@.subrange(0, i as int));
    }
    assert(key@.subrange(0, KEY_LEN as int) =~= key@);
}

impl RngesusInstruction {
    /// The key at the start of a payload, if the payload is long enough.
    pub open spec fn spec_first_key(rest: Seq<u8>) -> Result<Seq<u8>, ProgramError> {
        if rest.len() >= KEY_LEN {
            Ok(rest.subrange(0, KEY_LEN as int))
        } else {
            Err(custom(RngesusError::InvalidInstruction))
        }
    }

    /// The request that `input` spells. Bytes behind the payload are not
    /// looked at.
    pub open spec fn spec_unpack(input: Seq<u8>) -> Result<InstructionView, ProgramError> {
        if input.len() == 0 {
            Err(custom(RngesusError::InvalidInstruction))
        } else if input[0] == 0 && input.len() >= 1 + KEY_LEN {
            Ok(InstructionView::InitRngesus { initial_key: input.subrange(1, 33) })
        } else if input[0] == 1 && input.len() >= 1 + 2 * KEY_LEN {
            Ok(
                InstructionView::IncrementPass {
                    new_key: input.subrange(1, 33),
                    secret: input.subrange(33, 65),
                },
            )
        } else if input[0] == 2 {
            Ok(InstructionView::BumpPointer)
        } else if input[0] == 3 && input.len() >= 1 + KEY_LEN {
            Ok(InstructionView::RegisterCallback { program_address: input.subrange(1, 33) })
        } else {
            Err(custom(RngesusError::InvalidInstruction))
        }
    }

    /// The bytes that spell `instruction`.
    pub open spec fn spec_pack(instruction: InstructionView) -> Seq<u8> {
        match instruction {
            InstructionView::InitRngesus { initial_key } => seq![0u8] + initial_key,
            InstructionView::IncrementPass { new_key, secret } => seq![1u8] + new_key + secret,
            InstructionView::BumpPointer => seq![2u8],
            InstructionView::RegisterCallback { program_address } => seq![3u8] + program_address,
        }
    }

    /// Reads a request from its wire format. An empty buffer, an unknown tag
    /// and a payload that is too short are refused; nothing else is checked.
    pub fn unpack(input: &[u8]) -> (res: Result<RngesusInstruction, ProgramError>)
        ensures
            result_view(res) == RngesusInstruction::spec_unpack(input@),
    {
        if input.len() == 0 {
            return Err(ProgramError::from(RngesusError::InvalidInstruction));
        }
        let tag: u8 = input[0];
        let rest: &[u8] = slice_subrange(input, 1, input.len());
        if tag == 0 {
            match RngesusInstruction::unpack_first_key(rest) {
                Ok(initial_key) => {
                    assert(initial_key@ =~= input@.subrange(1, 33));
                    Ok(RngesusInstruction::InitRngesus { initial_key })
                },
                Err(e) => Err(e),
            }
        } else if tag == 1 {
            match RngesusInstruction::unpack_first_key(rest) {
                Ok(new_key) => {
                    if rest.len() < 2 * KEY_LEN {
                        return Err(ProgramError::from(RngesusError::InvalidInstruction));
                    }
                    let secret: [u8; 32] = read_key(rest, KEY_LEN);
                    assert(new_key@ =~= input@.subrange(1, 33));
                    assert(secret@ =~= input@.subrange(33, 65));
                    Ok(RngesusInstruction::IncrementPass { new_key, secret })
                },
                Err(e) => Err(e),
            }
        } else if tag == 2 {
            Ok(RngesusInstruction::BumpPointer)
        } else if tag == 3 {
            match RngesusInstruction::unpack_first_key(rest) {
                Ok(program_address) => {
                    assert(program_address@ =~= input@.subrange(1, 33));
                    Ok(RngesusInstruction::RegisterCallback { program_address })
                },
                Err(e) => Err(e),
            }
        } else {
            Err(ProgramError::from(RngesusError::InvalidInstruction))
        }
    }

    /// Reads the key at the start of a payload.
    fn unpack_first_key(input: &[u8]) -> (res: Result<[u8; 32], ProgramError>)
        ensures
            result_view(res) == RngesusInstruction::spec_first_key(input@),
    {
        if input.len() < KEY_LEN {
            return Err(ProgramError::from(RngesusError::InvalidInstruction));
        }
        Ok(read_key(input, 0))
    }

    /// Writes a request in its wire format. Every request can be written.
    pub fn pack(&self) -> (res: Result<Vec<u8>, ProgramError>)
        ensures
            res matches Ok(bytes) && bytes@ == RngesusInstruction::spec_pack(self@),
    {
        let mut ret: Vec<u8> = Vec::new();
        match self {
            RngesusInstruction::InitRngesus { initial_key } => {
                ret.push(0);
                push_key(&mut ret, initial_key);
            },
            RngesusInstruction::IncrementPass { new_key, secret } => {
                ret.push(1);
                push_key(&mut ret, new_key);
                push_key(&mut ret, secret);
            },
            RngesusInstruction::BumpPointer => {
                ret.push(2);
            },
            RngesusInstruction::RegisterCallback { program_address } => {
                ret.push(3);
                push_key(&mut ret, program_address);
            },
        }
        assert(ret@ =~= RngesusInstruction::spec_pack(self@));
        Ok(ret)
    }
}

/// Reading back a written request gives the request, also where other bytes
/// follow it.
pub proof fn lemma_instruction_roundtrip(instruction: InstructionView, trailing: Seq<u8>)
    requires
        instruction.wf(),
    ensures
        RngesusInstruction::spec_unpack(RngesusInstruction::spec_pack(instruction) + trailing)
            == Ok::<InstructionView, ProgramError>(instruction),
{
    let bytes = RngesusInstruction::spec_pack(instruction) + trailing;
    match instruction {
        InstructionView::InitRngesus { initial_key } => {
            assert(bytes.subrange(1, 33) =~= initial_key);
        },
        InstructionView::IncrementPass { new_key, secret } => {
            assert(bytes.subrange(1, 33) =~= new_key);
            assert(bytes.subrange(33, 65) =~= secret);
        },
        InstructionView::BumpPointer => {},
        InstructionView::RegisterCallback { program_address } => {
            assert(bytes.subrange(1, 33) =~= program_address);
        },
    }
}

/// A buffer is refused exactly when it is empty, its tag is unknown, or it
/// is too short for the payload of its tag.
pub proof fn lemma_unpack_refusals(input: Seq<u8>)
    ensures
        RngesusInstruction::spec_unpack(input) is Err <==> (input.len() == 0 || input[0] > 3 || (
        input[0] != 2 && input.len() < 1 + KEY_LEN) || (input[0] == 1 && input.len() < 1 + 2
            * KEY_LEN)),
        RngesusInstruction::spec_unpack(input) matches Err(e) ==> e == custom(
            RngesusError::InvalidInstruction,
        ),
        RngesusInstruction::spec_unpack(input) matches Ok(instruction) ==> instruction.wf(),
{
}

} // verus!
