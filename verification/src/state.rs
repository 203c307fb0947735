//! The persistent records and their fixed-size binary layout.
//!
//! Layout of a chain record, integers little-endian:
//!
//! | offset | length | field                                   |
//! |--------|--------|-----------------------------------------|
//! | 0      | 1      | initialized flag, 1 when set            |
//! | 1      | 32     | commitment, the head of the hash chain  |
//! | 33     | 4      | pointer, the sequence counter           |
//! | 37     | 4      | number of callbacks                     |
//! | 41     | 3200   | callback slots of 32 bytes, left to right |
//!
//! Layout of a callback entry:
//!
//! | offset | length | field              |
//! |--------|--------|--------------------|
//! | 0      | 1      | initialized flag   |
//! | 1      | 1      | enabled flag       |
//! | 2      | 32     | program address    |
//! | 34     | 4      | number of invokes  |
//! | 38     | 1      | last error         |

use vstd::prelude::*;
use crate::bytes::{
    flag_byte, le_u32, lemma_u32_le_roundtrip, read_key, read_u32, u32_le, write_flag, write_key,
    write_u32, KEY_LEN,
};
use crate::error::{custom, result_view, ProgramError, RngesusError};

verus! {

/// Number of callback slots in a chain record.
pub const MAX_CALLBACKS: usize = 100;

/// Size of the callback region of a chain record.
pub const CALLBACK_BYTES: usize = MAX_CALLBACKS * 32;

/// A callback with its bookkeeping, as a record of its own.
#[derive(PartialEq, Eq, Debug, Clone)]
pub struct Callback {
    pub is_initialized: bool,
    pub is_enabled: bool,
    pub program_pubkey: [u8; 32],
    pub invokes: u32,
    pub error: u8,
}

/// What a [`Callback`] holds.
pub struct CallbackView {
    pub is_initialized: bool,
    pub is_enabled: bool,
    pub program_pubkey: Seq<u8>,
    pub invokes: u32,
    pub error: u8,
}

impl View for Callback {
    type V = CallbackView;

    open spec fn view(&self) -> CallbackView {
        CallbackView {
            is_initialized: self.is_initialized,
            is_enabled: self.is_enabled,
            program_pubkey: self.program_pubkey@,
            invokes: self.invokes,
            error: self.error,
        }
    }
}

impl CallbackView {
    /// The address has the length of a key.
    pub open spec fn wf(self) -> bool {
        self.program_pubkey.len() == KEY_LEN
    }
}

impl Callback {
    /// Size of a packed callback entry.
    pub const LEN: usize = 39;

    /// The entry that `src` spells.
    pub open spec fn spec_unpack(src: Seq<u8>) -> CallbackView
        recommends
            src.len() == Callback::LEN,
    {
        CallbackView {
            is_initialized: src[0] == 1,
            is_enabled: src[1] == 1,
            program_pubkey: src.subrange(2, 34),
            invokes: le_u32(src.subrange(34, 38)),
            error: src[38],
        }
    }

    /// The bytes that spell `entry`.
    pub open spec fn spec_pack(entry: CallbackView) -> Seq<u8>
        recommends
            entry.wf(),
    {
        seq![flag_byte(entry.is_initialized), flag_byte(entry.is_enabled)] + entry.program_pubkey
            + u32_le(entry.invokes) + seq![entry.error]
    }

    /// Reads an entry from exactly [`Callback::LEN`] bytes. Every such buffer
    /// spells an entry.
    pub fn unpack_from_slice(src: &[u8]) -> (res: Result<Callback, ProgramError>)
        requires
            src@.len() == Callback::LEN,
        ensures
            res matches Ok(entry) && entry@ == Callback::spec_unpack(src@),
    {
        let invokes: u32 = read_u32(src, 34);
        Ok(
            Callback {
                is_initialized: src[0] == 1,
                is_enabled: src[1] == 1,
                program_pubkey: read_key(src, 2),
                invokes,
                error: src[38],
            },
        )
    }

    /// Writes the entry over exactly [`Callback::LEN`] bytes.
    pub fn pack_into_slice(&self, dst: &mut [u8])
        requires
            old(dst)@.len() == Callback::LEN,
        ensures
            final(dst)@ == Callback::spec_pack(self@),
    {
        write_flag(dst, 0, self.is_initialized);
        write_flag(dst, 1, self.is_enabled);
        write_key(dst, 2, &self.program_pubkey);
        write_u32(dst, 34, self.invokes);
        dst[38] = self.error;
        assert(dst@ =~= Callback::spec_pack(self@));
    }

    /// Whether the entry has been set up.
    pub fn is_initialized(&self) -> (b: bool)
        ensures
            b == self.is_initialized,
    {
        self.is_initialized
    }

    /// What reading an entry from a buffer of any length gives: one of another
    /// length than [`Callback::LEN`] is refused.
    pub open spec fn spec_unpack_unchecked(input: Seq<u8>) -> Result<CallbackView, ProgramError> {
        if input.len() != Callback::LEN {
            Err(ProgramError::InvalidAccountData)
        } else {
            Ok(Callback::spec_unpack(input))
        }
    }

    /// What reading an entry that must have been set up gives.
    pub open spec fn spec_unpack_initialized(input: Seq<u8>) -> Result<
        CallbackView,
        ProgramError,
    > {
        match Callback::spec_unpack_unchecked(input) {
            Ok(entry) => if entry.is_initialized {
                Ok(entry)
            } else {
                Err(ProgramError::UninitializedAccount)
            },
            Err(e) => Err(e),
        }
    }

    /// Reads an entry from a buffer of any length.
    pub fn unpack_unchecked(input: &[u8]) -> (res: Result<Callback, ProgramError>)
        ensures
            result_view(res) == Callback::spec_unpack_unchecked(input@),
    {
        if input.len() != Callback::LEN {
            return Err(ProgramError::InvalidAccountData);
        }
        Callback::unpack_from_slice(input)
    }

    /// Reads an entry and refuses one that has not been set up.
    pub fn unpack(input: &[u8]) -> (res: Result<Callback, ProgramError>)
        ensures
            result_view(res) == Callback::spec_unpack_initialized(input@),
    {
        match Callback::unpack_unchecked(input) {
            Ok(entry) => {
                if entry.is_initialized() {
                    Ok(entry)
                } else {
                    Err(ProgramError::UninitializedAccount)
                }
            },
            Err(e) => Err(e),
        }
    }

    /// Writes the entry into a buffer of any length: one of another length
    /// than [`Callback::LEN`] is refused and left as it is.
    pub fn pack(src: Callback, dst: &mut [u8]) -> (res: Result<(), ProgramError>)
        ensures
            old(dst)@.len() != Callback::LEN ==> res == Err::<(), ProgramError>(
                ProgramError::InvalidAccountData,
            ) && final(dst)@ == old(dst)@,
            old(dst)@.len() == Callback::LEN ==> res is Ok && final(dst)@ == Callback::spec_pack(
                src@,
            ),
    {
        if dst.len() != Callback::LEN {
            return Err(ProgramError::InvalidAccountData);
        }
        src.pack_into_slice(dst);
        Ok(())
    }
}

/// Reading back a packed callback entry gives the entry.
pub proof fn lemma_callback_roundtrip(entry: CallbackView)
    requires
        entry.wf(),
    ensures
        Callback::spec_pack(entry).len() == Callback::LEN,
        Callback::spec_unpack(Callback::spec_pack(entry)) == entry,
{
    let bytes = Callback::spec_pack(entry);
    assert(bytes.subrange(2, 34) =~= entry.program_pubkey);
    assert(bytes.subrange(34, 38) =~= u32_le(entry.invokes));
    lemma_u32_le_roundtrip(entry.invokes);
}

/// The chain record: the head of the hash chain, its sequence counter and
/// the registry of callbacks.
#[derive(PartialEq, Eq, Debug, Clone)]
pub struct Rngesus {
    pub is_initialized: bool,
    pub prev_hash: [u8; 32],
    pub ptr: u32,
    pub num_callbacks: u32,
    pub callbacks: Vec<[u8; 32]>,
}

/// What a [`Rngesus`] holds.
pub struct RngesusView {
    pub is_initialized: bool,
    pub prev_hash: Seq<u8>,
    pub ptr: u32,
    pub num_callbacks: u32,
    pub callbacks: Seq<Seq<u8>>,
}

impl View for Rngesus {
    type V = RngesusView;

    open spec fn view(&self) -> RngesusView {
        RngesusView {
            is_initialized: self.is_initialized,
            prev_hash: self.prev_hash@,
            ptr: self.ptr,
            num_callbacks: self.num_callbacks,
            callbacks: Seq::new(self.callbacks@.len(), |i: int| self.callbacks@[i]@),
        }
    }
}

impl RngesusView {
    /// Every key has the length of a key, and the count is the number of
    /// callbacks, which fit into the record.
    pub open spec fn wf(self) -> bool {
        &&& self.prev_hash.len() == KEY_LEN
        &&& self.num_callbacks == self.callbacks.len()
        &&& self.callbacks.len() <= MAX_CALLBACKS
        &&& forall|i: int| 0 <= i < self.callbacks.len() ==> (#[trigger] self.callbacks[i]).len()
            == KEY_LEN
    }
}

/// Reads the first `count` callback slots of a record.
fn callbacks_from_slice(src: &[u8], count: u32) -> (pks: Vec<[u8; 32]>)
    requires
        src@.len() == Rngesus::LEN,
        count <= MAX_CALLBACKS,
    ensures
        pks@.len() == count,
        forall|i: int| 0 <= i < count ==> (#[trigger] pks@[i])@ == Rngesus::spec_slot(src@, i),
{
    let mut pks: Vec<[u8; 32]> = Vec::new();
    let mut i: usize = 0;
    while i < count as usize
        invariant
            src@.len() == Rngesus::LEN,
            count <= MAX_CALLBACKS,
            i <= count,
            pks@.len() == i,
            forall|j: int| 0 <= j < i ==> (#[trigger] pks@[j])@ == Rngesus::spec_slot(src@, j),
        decreases count - i,
    {
        pks.push(read_key(src, 41 + 32 * i));
        i += 1;
    }
    pks
}

/// Writes the callbacks into the slots of a record, left to right.
fn callbacks_into_slice(callbacks: &Vec<[u8; 32]>, dst: &mut [u8])
    requires
        old(dst)@.len() == Rngesus::LEN,
        callbacks@.len() <= MAX_CALLBACKS,
    ensures
        final(dst)@.len() == Rngesus::LEN,
        forall|j: int|
            0 <= j < Rngesus::LEN ==> #[trigger] final(dst)@[j] == if 41 <= j < 41 + 32
                * callbacks@.len() {
                callbacks@[(j - 41) / 32]@[(j - 41) % 32]
            } else {
                old(dst)@[j]
            },
{
    let mut i: usize = 0;
    while i < callbacks.len()
        invariant
            dst@.len() == Rngesus::LEN,
            callbacks@.len() <= MAX_CALLBACKS,
            i <= callbacks@.len(),
            forall|j: int|
                0 <= j < Rngesus::LEN ==> #[trigger] dst@[j] == if 41 <= j < 41 + 32 * i {
                    callbacks@[(j - 41) / 32]@[(j - 41) % 32]
                } else {
                    old(dst)@[j]
                },
        decreases callbacks@.len() - i,
    {
        let ghost before = dst@;
        write_key(dst, 41 + 32 * i, &callbacks[i]);
        assert forall|j: int| 0 <= j < Rngesus::LEN implies #[trigger] dst@[j] == if 41 <= j < 41
            + 32 * (i + 1) {
            callbacks@[(j - 41) / 32]@[(j - 41) % 32]
        } else {
            old(dst)@[j]
        } by {
            if 41 + 32 * i <= j < 41 + 32 * (i + 1) {
                assert((j - 41) / 32 == i && (j - 41) % 32 == j - 41 - 32 * i);
            } else {
                assert(dst@[j] == before[j]);
            }
        }
        i += 1;
    }
}

impl Rngesus {
    /// Size of a packed chain record.
    pub const LEN: usize = 3241;

    /// The key in callback slot `i` of a packed record.
    pub open spec fn spec_slot(src: Seq<u8>, i: int) -> Seq<u8> {
        src.subrange(41 + 32 * i, 73 + 32 * i)
    }

    /// The number of callbacks that a packed record declares.
    pub open spec fn spec_count(src: Seq<u8>) -> u32 {
        le_u32(src.subrange(37, 41))
    }

    /// The record that `src` spells, unless it declares more callbacks than
    /// a record has room for.
    pub open spec fn spec_unpack(src: Seq<u8>) -> Result<RngesusView, ProgramError>
        recommends
            src.len() == Rngesus::LEN,
    {
        if Rngesus::spec_count(src) > MAX_CALLBACKS {
            Err(custom(RngesusError::TooManyCallbacks))
        } else {
            Ok(
                RngesusView {
                    is_initialized: src[0] == 1,
                    prev_hash: src.subrange(1, 33),
                    ptr: le_u32(src.subrange(33, 37)),
                    num_callbacks: Rngesus::spec_count(src),
                    callbacks: Seq::new(
                        Rngesus::spec_count(src) as nat,
                        |i: int| Rngesus::spec_slot(src, i),
                    ),
                },
            )
        }
    }

    /// `dst` with `record` written over it: every field at its offset, the
    /// callbacks in the first slots, and the slots behind them as `dst` had them.
    pub open spec fn spec_pack(record: RngesusView, dst: Seq<u8>) -> Seq<u8>
        recommends
            dst.len() == Rngesus::LEN,
            record.callbacks.len() <= MAX_CALLBACKS,
    {
        Seq::new(
            dst.len(),
            |j: int|
                if j == 0 {
                    flag_byte(record.is_initialized)
                } else if j < 33 {
                    record.prev_hash[j - 1]
                } else if j < 37 {
                    u32_le(record.ptr)[j - 33]
                } else if j < 41 {
                    u32_le(record.num_callbacks)[j - 37]
                } else if j < 41 + 32 * record.callbacks.len() {
                    record.callbacks[(j - 41) / 32][(j - 41) % 32]
                } else {
                    dst[j]
                },
        )
    }

    /// The count is the number of callbacks, and they fit into a record.
    pub open spec fn wf(&self) -> bool {
        self.num_callbacks == self.callbacks@.len() <= MAX_CALLBACKS
    }

    /// Reads a record from exactly [`Rngesus::LEN`] bytes. The declared
    /// number of callbacks is held against the room there is before any
    /// slot is read.
    pub fn unpack_from_slice(src: &[u8]) -> (res: Result<Rngesus, ProgramError>)
        requires
            src@.len() == Rngesus::LEN,
        ensures
            result_view(res) == Rngesus::spec_unpack(src@),
            res matches Ok(record) ==> record.wf(),
    {
        let num_callbacks: u32 = read_u32(src, 37);
        if num_callbacks > MAX_CALLBACKS as u32 {
            return Err(ProgramError::from(RngesusError::TooManyCallbacks));
        }
        let callbacks: Vec<[u8; 32]> = callbacks_from_slice(src, num_callbacks);
        let record = Rngesus {
            is_initialized: src[0] == 1,
            prev_hash: read_key(src, 1),
            ptr: read_u32(src, 33),
            num_callbacks,
            callbacks,
        };
        assert(record@.callbacks =~= Rngesus::spec_unpack(src@)->Ok_0.callbacks);
        Ok(record)
    }

    /// Writes the record over exactly [`Rngesus::LEN`] bytes. Slots behind
    /// the last callback keep what they held.
    pub fn pack_into_slice(&self, dst: &mut [u8])
        requires
            old(dst)@.len() == Rngesus::LEN,
            self.callbacks@.len() <= MAX_CALLBACKS,
        ensures
            final(dst)@ == Rngesus::spec_pack(self@, old(dst)@),
    {
        write_flag(dst, 0, self.is_initialized);
        write_key(dst, 1, &self.prev_hash);
        write_u32(dst, 33, self.ptr);
        write_u32(dst, 37, self.num_callbacks);
        callbacks_into_slice(&self.callbacks, dst);
        assert(dst@ =~= Rngesus::spec_pack(self@, old(dst)@));
    }

    /// Whether the record has been set up.
    pub fn is_initialized(&self) -> (b: bool)
        ensures
            b == self.is_initialized,
    {
        self.is_initialized
    }

    /// What reading a record from a buffer of any length gives: one of
    /// another length than [`Rngesus::LEN`] is refused.
    pub open spec fn spec_unpack_unchecked(input: Seq<u8>) -> Result<RngesusView, ProgramError> {
        if input.len() != Rngesus::LEN {
            Err(ProgramError::InvalidAccountData)
        } else {
            Rngesus::spec_unpack(input)
        }
    }

    /// What reading a record that must have been set up gives.
    pub open spec fn spec_unpack_initialized(input: Seq<u8>) -> Result<
        RngesusView,
        ProgramError,
    > {
        match Rngesus::spec_unpack_unchecked(input) {
            Ok(record) => if record.is_initialized {
                Ok(record)
            } else {
                Err(ProgramError::UninitializedAccount)
            },
            Err(e) => Err(e),
        }
    }

    /// What writing a record into a buffer of any length leaves there: one
    /// of another length than [`Rngesus::LEN`] stays as it is.
    pub open spec fn spec_pack_checked(record: RngesusView, dst: Seq<u8>) -> Seq<u8> {
        if dst.len() != Rngesus::LEN {
            dst
        } else {
            Rngesus::spec_pack(record, dst)
        }
    }

    /// Reads a record from a buffer of any length.
    pub fn unpack_unchecked(input: &[u8]) -> (res: Result<Rngesus, ProgramError>)
        ensures
            result_view(res) == Rngesus::spec_unpack_unchecked(input@),
            res matches Ok(record) ==> record.wf(),
    {
        if input.len() != Rngesus::LEN {
            return Err(ProgramError::InvalidAccountData);
        }
        Rngesus::unpack_from_slice(input)
    }

    /// Reads a record and refuses one that has not been set up.
    pub fn unpack(input: &[u8]) -> (res: Result<Rngesus, ProgramError>)
        ensures
            result_view(res) == Rngesus::spec_unpack_initialized(input@),
            res matches Ok(record) ==> record.wf(),
    {
        match Rngesus::unpack_unchecked(input) {
            Ok(record) => {
                if record.is_initialized() {
                    Ok(record)
                } else {
                    Err(ProgramError::UninitializedAccount)
                }
            },
            Err(e) => Err(e),
        }
    }

    /// Writes the record into a buffer of any length: one of another length
    /// than [`Rngesus::LEN`] is refused and left as it is.
    pub fn pack(src: Rngesus, dst: &mut [u8]) -> (res: Result<(), ProgramError>)
        requires
            src.callbacks@.len() <= MAX_CALLBACKS,
        ensures
            res == if old(dst)@.len() == Rngesus::LEN {
                Ok::<(), ProgramError>(())
            } else {
                Err::<(), ProgramError>(ProgramError::InvalidAccountData)
            },
            final(dst)@ == Rngesus::spec_pack_checked(src@, old(dst)@),
    {
        if dst.len() != Rngesus::LEN {
            return Err(ProgramError::InvalidAccountData);
        }
        src.pack_into_slice(dst);
        Ok(())
    }
}

/// Reading back a packed chain record gives the record, whatever the buffer
/// held before.
pub proof fn lemma_rngesus_roundtrip(record: RngesusView, dst: Seq<u8>)
    requires
        record.wf(),
        dst.len() == Rngesus::LEN,
    ensures
        Rngesus::spec_pack(record, dst).len() == Rngesus::LEN,
        Rngesus::spec_unpack(Rngesus::spec_pack(record, dst)) == Ok::<RngesusView, ProgramError>(
            record,
        ),
{
    let bytes = Rngesus::spec_pack(record, dst);
    assert(bytes.subrange(1, 33) =~= record.prev_hash);
    assert(bytes.subrange(33, 37) =~= u32_le(record.ptr));
    assert(bytes.subrange(37, 41) =~= u32_le(record.num_callbacks));
    lemma_u32_le_roundtrip(record.ptr);
    lemma_u32_le_roundtrip(record.num_callbacks);
    let read = Rngesus::spec_unpack(bytes)->Ok_0;
    assert forall|i: int| 0 <= i < record.callbacks.len() implies #[trigger] read.callbacks[i]
        == record.callbacks[i] by {
        assert forall|k: int| 0 <= k < 32 implies Rngesus::spec_slot(bytes, i)[k]
            == record.callbacks[i][k] by {
            assert((32 * i + k) / 32 == i && (32 * i + k) % 32 == k);
        }
        assert(Rngesus::spec_slot(bytes, i) =~= record.callbacks[i]);
    }
    assert(read.callbacks =~= record.callbacks);
}

/// Every record read from a buffer of the right length is well formed.
pub proof fn lemma_unpack_wf(src: Seq<u8>)
    requires
        src.len() == Rngesus::LEN,
    ensures
        Rngesus::spec_unpack(src) matches Ok(record) ==> record.wf(),
{
}

/// A buffer that declares more callbacks than a record has room for spells
/// no record, whatever its other bytes hold.
pub proof fn lemma_excess_count_rejected(src: Seq<u8>)
    requires
        Rngesus::spec_count(src) > MAX_CALLBACKS,
    ensures
        Rngesus::spec_unpack(src) == Err::<RngesusView, ProgramError>(
            custom(RngesusError::TooManyCallbacks),
        ),
{
}

/// A buffer of zeros spells a record that has not been set up.
pub proof fn lemma_zeros_unpack(src: Seq<u8>)
    requires
        src.len() == Rngesus::LEN,
        forall|j: int| 0 <= j < src.len() ==> src[j] == 0,
    ensures
        Rngesus::spec_unpack(src) matches Ok(record) && !record.is_initialized && record.ptr == 0
            && record.num_callbacks == 0,
{
}

} // verus!
