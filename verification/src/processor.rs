//! The state machine of a storage slot.
//!
//! A slot starts out without a record and is set up once; from then on its
//! record is advanced by revealed secrets, bumped by the controlling
//! authority, and takes on callbacks. Every request decodes the whole record,
//! checks each of its preconditions in turn, computes the next record and
//! only then writes it back: a request that is rejected writes nothing.

use vstd::prelude::*;
use crate::authority::{
    require_controlling_authority, require_owner, require_rent_exempt, require_signer, Accounts,
};
use crate::bytes::KEY_LEN;
use crate::error::{custom, result_view, ProgramError, RngesusError};
use crate::hash_link::{hash_link_holds, verify_hash_link};
use crate::instruction::{InstructionView, RngesusInstruction};
use crate::state::{
    lemma_rngesus_roundtrip, lemma_unpack_wf, Rngesus, RngesusView, MAX_CALLBACKS,
};

verus! {

impl RngesusView {
    /// The record right after it was set up with the commitment `initial_key`.
    pub open spec fn set_up(self, initial_key: Seq<u8>) -> RngesusView {
        RngesusView {
            is_initialized: true,
            prev_hash: initial_key,
            ptr: 1,
            num_callbacks: 0,
            callbacks: Seq::empty(),
        }
    }

    /// The record with its sequence counter advanced by one.
    pub open spec fn bumped(self) -> RngesusView
        recommends
            self.ptr < u32::MAX,
    {
        RngesusView { ptr: (self.ptr + 1) as u32, ..self }
    }

    /// The record moved on to the commitment `new_key`.
    pub open spec fn advanced(self, new_key: Seq<u8>) -> RngesusView
        recommends
            self.ptr < u32::MAX,
    {
        RngesusView { prev_hash: new_key, ptr: (self.ptr + 1) as u32, ..self }
    }

    /// The record with `program_address` behind its callbacks.
    pub open spec fn registered(self, program_address: Seq<u8>) -> RngesusView
        recommends
            self.callbacks.len() < MAX_CALLBACKS,
    {
        RngesusView {
            num_callbacks: (self.num_callbacks + 1) as u32,
            callbacks: self.callbacks.push(program_address),
            ..self
        }
    }
}

/// The handler of requests.
pub struct Processor;

impl Processor {
    /// What setting up demands: the caller signed, the slot holds no record
    /// yet, belongs to the program and is exempt from rent, and the caller is
    /// the controlling authority. The first demand that is not met decides.
    pub open spec fn spec_init_rngesus_checks(
        record: RngesusView,
        accounts: Accounts,
        program_id: Seq<u8>,
    ) -> Result<(), ProgramError> {
        if !accounts.caller_is_signer {
            Err(ProgramError::MissingRequiredSignature)
        } else if record.is_initialized {
            Err(ProgramError::AccountAlreadyInitialized)
        } else if !accounts.owned_by(program_id) {
            Err(ProgramError::IncorrectProgramId)
        } else if !accounts.rent_exempt {
            Err(ProgramError::AccountNotRentExempt)
        } else if !accounts.is_authority() {
            Err(ProgramError::MissingRequiredSignature)
        } else {
            Ok(())
        }
    }

    /// What advancing demands: the slot holds a record and belongs to the
    /// program, and the hash link from its commitment to the claimed one was
    /// accepted. Nobody needs to sign.
    pub open spec fn spec_increment_pass_checks(
        record: RngesusView,
        accepted: bool,
        accounts: Accounts,
        program_id: Seq<u8>,
    ) -> Result<(), ProgramError> {
        if !record.is_initialized {
            Err(ProgramError::UninitializedAccount)
        } else if !accounts.owned_by(program_id) {
            Err(ProgramError::IncorrectProgramId)
        } else if !accepted {
            Err(custom(RngesusError::IncorrectSecretOrHash))
        } else {
            Ok(())
        }
    }

    /// What bumping demands: the caller signed and is the controlling
    /// authority, and the slot holds a record and belongs to the program.
    pub open spec fn spec_bump_pointer_checks(
        record: RngesusView,
        accounts: Accounts,
        program_id: Seq<u8>,
    ) -> Result<(), ProgramError> {
        if !accounts.caller_is_signer {
            Err(ProgramError::MissingRequiredSignature)
        } else if !accounts.is_authority() {
            Err(ProgramError::MissingRequiredSignature)
        } else if !record.is_initialized {
            Err(ProgramError::UninitializedAccount)
        } else if !accounts.owned_by(program_id) {
            Err(ProgramError::IncorrectProgramId)
        } else {
            Ok(())
        }
    }

    /// What registering demands: the slot holds a record and belongs to the
    /// program, and the record has a free callback slot.
    pub open spec fn spec_register_callback_checks(
        record: RngesusView,
        accounts: Accounts,
        program_id: Seq<u8>,
    ) -> Result<(), ProgramError> {
        if !record.is_initialized {
            Err(ProgramError::UninitializedAccount)
        } else if !accounts.owned_by(program_id) {
            Err(ProgramError::IncorrectProgramId)
        } else if record.num_callbacks >= MAX_CALLBACKS {
            Err(custom(RngesusError::TooManyCallbacks))
        } else {
            Ok(())
        }
    }

    /// Setting up a record with the commitment `initial_key`.
    pub open spec fn spec_init_rngesus(
        record: RngesusView,
        initial_key: Seq<u8>,
        accounts: Accounts,
        program_id: Seq<u8>,
    ) -> Result<RngesusView, ProgramError> {
        match Processor::spec_init_rngesus_checks(record, accounts, program_id) {
            Err(e) => Err(e),
            Ok(_) => Ok(record.set_up(initial_key)),
        }
    }

    /// Advancing a record to the commitment `new_key`, where `accepted` says
    /// that the hash link holds.
    pub open spec fn spec_increment_pass(
        record: RngesusView,
        new_key: Seq<u8>,
        accepted: bool,
        accounts: Accounts,
        program_id: Seq<u8>,
    ) -> Result<RngesusView, ProgramError> {
        match Processor::spec_increment_pass_checks(record, accepted, accounts, program_id) {
            Err(e) => Err(e),
            Ok(_) => Ok(record.advanced(new_key)),
        }
    }

    /// Bumping the sequence counter of a record.
    pub open spec fn spec_bump_pointer(
        record: RngesusView,
        accounts: Accounts,
        program_id: Seq<u8>,
    ) -> Result<RngesusView, ProgramError> {
        match Processor::spec_bump_pointer_checks(record, accounts, program_id) {
            Err(e) => Err(e),
            Ok(_) => Ok(record.bumped()),
        }
    }

    /// Registering the callback `program_address` with a record.
    pub open spec fn spec_register_callback(
        record: RngesusView,
        program_address: Seq<u8>,
        accounts: Accounts,
        program_id: Seq<u8>,
    ) -> Result<RngesusView, ProgramError> {
        match Processor::spec_register_callback_checks(record, accounts, program_id) {
            Err(e) => Err(e),
            Ok(_) => Ok(record.registered(program_address)),
        }
    }

    /// The record that follows `record` under `instruction`, or the reason
    /// for which the request is rejected.
    pub open spec fn spec_apply(
        record: RngesusView,
        instruction: InstructionView,
        accounts: Accounts,
        program_id: Seq<u8>,
    ) -> Result<RngesusView, ProgramError> {
        match instruction {
            InstructionView::InitRngesus { initial_key } => Processor::spec_init_rngesus(
                record,
                initial_key,
                accounts,
                program_id,
            ),
            InstructionView::IncrementPass { new_key, secret } => Processor::spec_increment_pass(
                record,
                new_key,
                hash_link_holds(record.prev_hash, new_key, secret),
                accounts,
                program_id,
            ),
            InstructionView::BumpPointer => Processor::spec_bump_pointer(
                record,
                accounts,
                program_id,
            ),
            InstructionView::RegisterCallback {
                program_address,
            } => Processor::spec_register_callback(record, program_address, accounts, program_id),
        }
    }

    /// What a decoded request does to the bytes of a storage slot: the
    /// bytes that it leaves there, or the reason for which it is rejected.
    pub open spec fn spec_on_slot(
        program_id: Seq<u8>,
        accounts: Accounts,
        data: Seq<u8>,
        instruction: InstructionView,
    ) -> Result<Seq<u8>, ProgramError> {
        match Rngesus::spec_unpack_unchecked(data) {
            Err(e) => Err(e),
            Ok(record) => match Processor::spec_apply(record, instruction, accounts, program_id) {
                Err(e) => Err(e),
                Ok(next) => Ok(Rngesus::spec_pack(next, data)),
            },
        }
    }

    /// What a request does to the bytes of a storage slot. The request is
    /// decoded first, then the record.
    pub open spec fn spec_process(
        program_id: Seq<u8>,
        accounts: Accounts,
        data: Seq<u8>,
        instruction_data: Seq<u8>,
    ) -> Result<Seq<u8>, ProgramError> {
        match RngesusInstruction::spec_unpack(instruction_data) {
            Err(e) => Err(e),
            Ok(instruction) => Processor::spec_on_slot(program_id, accounts, data, instruction),
        }
    }

    /// The sequence counter of `record` can take the step that `instruction`
    /// asks for: where the request passes every check and advances the
    /// counter, the counter is not at its last value.
    pub open spec fn spec_has_room(
        record: RngesusView,
        instruction: InstructionView,
        accounts: Accounts,
        program_id: Seq<u8>,
    ) -> bool {
        match instruction {
            InstructionView::IncrementPass { .. } | InstructionView::BumpPointer => {
                Processor::spec_apply(record, instruction, accounts, program_id) is Ok
                    ==> record.ptr < u32::MAX
            },
            _ => true,
        }
    }

    /// The sequence counter stored in `data` can take the step that the
    /// request asks for.
    pub open spec fn spec_pointer_has_room(
        program_id: Seq<u8>,
        accounts: Accounts,
        data: Seq<u8>,
        instruction_data: Seq<u8>,
    ) -> bool {
        match (
            RngesusInstruction::spec_unpack(instruction_data),
            Rngesus::spec_unpack_unchecked(data),
        ) {
            (Ok(instruction), Ok(record)) => Processor::spec_has_room(
                record,
                instruction,
                accounts,
                program_id,
            ),
            _ => true,
        }
    }

    /// The result that a request with the outcome `expected` returns.
    pub open spec fn spec_verdict(expected: Result<Seq<u8>, ProgramError>) -> Result<
        (),
        ProgramError,
    > {
        match expected {
            Ok(_) => Ok(()),
            Err(e) => Err(e),
        }
    }

    /// The bytes that a request with the outcome `expected` leaves in a slot
    /// that held `data`: a rejected request leaves them as they were.
    pub open spec fn spec_written(data: Seq<u8>, expected: Result<Seq<u8>, ProgramError>) -> Seq<
        u8,
    > {
        match expected {
            Ok(bytes) => bytes,
            Err(_) => data,
        }
    }

    /// Handles one request on a storage slot: decodes the request and the
    /// record in `data`, checks what the request demands, and writes the next
    /// record back. A rejected request leaves `data` untouched.
    ///
    /// The sequence counter must have room for the step that the request
    /// takes; [`Processor::try_process`] asks for nothing.
    pub fn process(
        program_id: &[u8; 32],
        accounts: &Accounts,
        data: &mut [u8],
        instruction_data: &[u8],
    ) -> (res: Result<(), ProgramError>)
        requires
            Processor::spec_pointer_has_room(
                program_id@,
                *accounts,
                old(data)@,
                instruction_data@,
            ),
        ensures
            res == Processor::spec_verdict(
                Processor::spec_process(program_id@, *accounts, old(data)@, instruction_data@),
            ),
            final(data)@ == Processor::spec_written(
                old(data)@,
                Processor::spec_process(program_id@, *accounts, old(data)@, instruction_data@),
            ),
    {
        let instruction = match RngesusInstruction::unpack(instruction_data) {
            Ok(instruction) => instruction,
            Err(e) => {
                return Err(e);
            },
        };
        match instruction {
            RngesusInstruction::InitRngesus { initial_key } => {
                Self::process_init_rngesus(accounts, data, &initial_key, program_id)
            },
            RngesusInstruction::IncrementPass { new_key, secret } => {
                Self::process_increment_pass(accounts, data, &new_key, &secret, program_id)
            },
            RngesusInstruction::BumpPointer => {
                Self::process_bump_pointer(accounts, data, program_id)
            },
            RngesusInstruction::RegisterCallback { program_address } => {
                Self::process_register_callback(accounts, data, &program_address, program_id)
            },
        }
    }

    /// Handles one request on a storage slot as [`Processor::process`] does,
    /// where the sequence counter has room for the step that the request
    /// takes. Where it has none, nothing is handled and `data` stays as it is.
    pub fn try_process(
        program_id: &[u8; 32],
        accounts: &Accounts,
        data: &mut [u8],
        instruction_data: &[u8],
    ) -> (res: Option<Result<(), ProgramError>>)
        ensures
            res is Some <==> Processor::spec_pointer_has_room(
                program_id@,
                *accounts,
                old(data)@,
                instruction_data@,
            ),
            res matches Some(verdict) ==> verdict == Processor::spec_verdict(
                Processor::spec_process(program_id@, *accounts, old(data)@, instruction_data@),
            ) && final(data)@ == Processor::spec_written(
                old(data)@,
                Processor::spec_process(program_id@, *accounts, old(data)@, instruction_data@),
            ),
            res is None ==> final(data)@ == old(data)@,
    {
        if Self::pointer_has_room(program_id, accounts, data, instruction_data) {
            Some(Self::process(program_id, accounts, data, instruction_data))
        } else {
            None
        }
    }

    /// Whether the sequence counter stored in `data` has room for the step
    /// that the request takes.
    pub fn pointer_has_room(
        program_id: &[u8; 32],
        accounts: &Accounts,
        data: &[u8],
        instruction_data: &[u8],
    ) -> (room: bool)
        ensures
            room == Processor::spec_pointer_has_room(
                program_id@,
                *accounts,
                data@,
                instruction_data@,
            ),
    {
        let instruction = match RngesusInstruction::unpack(instruction_data) {
            Ok(instruction) => instruction,
            Err(_) => {
                return true;
            },
        };
        let record = match Rngesus::unpack_unchecked(data) {
            Ok(record) => record,
            Err(_) => {
                return true;
            },
        };
        if record.ptr < u32::MAX {
            return true;
        }
        match instruction {
            RngesusInstruction::IncrementPass { new_key, secret } => {
                let accepted: bool = verify_hash_link(&record.prev_hash, &new_key, &secret);
                Self::increment_pass_checks(&record, accepted, accounts, program_id).is_err()
            },
            RngesusInstruction::BumpPointer => {
                Self::bump_pointer_checks(&record, accounts, program_id).is_err()
            },
            _ => true,
        }
    }

    /// Advances the record in `data` to `new_key`, if `secret` links the two.
    fn process_increment_pass(
        accounts: &Accounts,
        data: &mut [u8],
        new_key: &[u8; 32],
        secret: &[u8; 32],
        program_id: &[u8; 32],
    ) -> (res: Result<(), ProgramError>)
        requires
            Rngesus::spec_unpack_unchecked(old(data)@) matches Ok(record)
                ==> Processor::spec_has_room(
                record,
                InstructionView::IncrementPass { new_key: new_key@, secret: secret@ },
                *accounts,
                program_id@,
            ),
        ensures
            res == Processor::spec_verdict(
                Processor::spec_on_slot(
                    program_id@,
                    *accounts,
                    old(data)@,
                    InstructionView::IncrementPass { new_key: new_key@, secret: secret@ },
                ),
            ),
            final(data)@ == Processor::spec_written(
                old(data)@,
                Processor::spec_on_slot(
                    program_id@,
                    *accounts,
                    old(data)@,
                    InstructionView::IncrementPass { new_key: new_key@, secret: secret@ },
                ),
            ),
    {
        let rngesus_data = Rngesus::unpack_unchecked(data)?;
        let accepted: bool = verify_hash_link(&rngesus_data.prev_hash, new_key, secret);
        let next = Self::increment_pass(rngesus_data, new_key, accepted, accounts, program_id)?;
        Rngesus::pack(next, data)
    }

    /// Sets up the record in `data` with `initial_key`.
    fn process_init_rngesus(
        accounts: &Accounts,
        data: &mut [u8],
        initial_key: &[u8; 32],
        program_id: &[u8; 32],
    ) -> (res: Result<(), ProgramError>)
        ensures
            res == Processor::spec_verdict(
                Processor::spec_on_slot(
                    program_id@,
                    *accounts,
                    old(data)@,
                    InstructionView::InitRngesus { initial_key: initial_key@ },
                ),
            ),
            final(data)@ == Processor::spec_written(
                old(data)@,
                Processor::spec_on_slot(
                    program_id@,
                    *accounts,
                    old(data)@,
                    InstructionView::InitRngesus { initial_key: initial_key@ },
                ),
            ),
    {
        let rngesus_data = Rngesus::unpack_unchecked(data)?;
        let next = Self::init_rngesus(rngesus_data, initial_key, accounts, program_id)?;
        Rngesus::pack(next, data)
    }

    /// Bumps the sequence counter of the record in `data`.
    fn process_bump_pointer(accounts: &Accounts, data: &mut [u8], program_id: &[u8; 32]) -> (res:
        Result<(), ProgramError>)
        requires
            Rngesus::spec_unpack_unchecked(old(data)@) matches Ok(record)
                ==> Processor::spec_has_room(
                record,
                InstructionView::BumpPointer,
                *accounts,
                program_id@,
            ),
        ensures
            res == Processor::spec_verdict(
                Processor::spec_on_slot(
                    program_id@,
                    *accounts,
                    old(data)@,
                    InstructionView::BumpPointer,
                ),
            ),
            final(data)@ == Processor::spec_written(
                old(data)@,
                Processor::spec_on_slot(
                    program_id@,
                    *accounts,
                    old(data)@,
                    InstructionView::BumpPointer,
                ),
            ),
    {
        let rngesus_data = Rngesus::unpack_unchecked(data)?;
        let next = Self::bump_pointer(rngesus_data, accounts, program_id)?;
        Rngesus::pack(next, data)
    }

    /// Registers `program_address` with the record in `data`.
    fn process_register_callback(
        accounts: &Accounts,
        data: &mut [u8],
        program_address: &[u8; 32],
        program_id: &[u8; 32],
    ) -> (res: Result<(), ProgramError>)
        ensures
            res == Processor::spec_verdict(
                Processor::spec_on_slot(
                    program_id@,
                    *accounts,
                    old(data)@,
                    InstructionView::RegisterCallback { program_address: program_address@ },
                ),
            ),
            final(data)@ == Processor::spec_written(
                old(data)@,
                Processor::spec_on_slot(
                    program_id@,
                    *accounts,
                    old(data)@,
                    InstructionView::RegisterCallback { program_address: program_address@ },
                ),
            ),
    {
        let rngesus_data = Rngesus::unpack_unchecked(data)?;
        let next = Self::register_callback(rngesus_data, program_address, accounts, program_id)?;
        Rngesus::pack(next, data)
    }

    /// Checks what setting up demands.
    fn init_rngesus_checks(record: &Rngesus, accounts: &Accounts, program_id: &[u8; 32]) -> (res:
        Result<(), ProgramError>)
        ensures
            res == Processor::spec_init_rngesus_checks(record@, *accounts, program_id@),
    {
        require_signer(accounts.caller_is_signer)?;
        if record.is_initialized() {
            return Err(ProgramError::AccountAlreadyInitialized);
        }
        require_owner(&accounts.owner, program_id)?;
        require_rent_exempt(accounts.rent_exempt)?;
        require_controlling_authority(&accounts.caller, &accounts.authority)
    }

    /// Checks what advancing demands.
    fn increment_pass_checks(
        record: &Rngesus,
        accepted: bool,
        accounts: &Accounts,
        program_id: &[u8; 32],
    ) -> (res: Result<(), ProgramError>)
        ensures
            res == Processor::spec_increment_pass_checks(
                record@,
                accepted,
                *accounts,
                program_id@,
            ),
    {
        if !record.is_initialized() {
            return Err(ProgramError::UninitializedAccount);
        }
        require_owner(&accounts.owner, program_id)?;
        if !accepted {
            return Err(ProgramError::from(RngesusError::IncorrectSecretOrHash));
        }
        Ok(())
    }

    /// Checks what bumping demands.
    fn bump_pointer_checks(record: &Rngesus, accounts: &Accounts, program_id: &[u8; 32]) -> (res:
        Result<(), ProgramError>)
        ensures
            res == Processor::spec_bump_pointer_checks(record@, *accounts, program_id@),
    {
        require_signer(accounts.caller_is_signer)?;
        require_controlling_authority(&accounts.caller, &accounts.authority)?;
        if !record.is_initialized() {
            return Err(ProgramError::UninitializedAccount);
        }
        require_owner(&accounts.owner, program_id)
    }

    /// Checks what registering demands.
    fn register_callback_checks(
        record: &Rngesus,
        accounts: &Accounts,
        program_id: &[u8; 32],
    ) -> (res: Result<(), ProgramError>)
        ensures
            res == Processor::spec_register_callback_checks(record@, *accounts, program_id@),
    {
        if !record.is_initialized() {
            return Err(ProgramError::UninitializedAccount);
        }
        require_owner(&accounts.owner, program_id)?;
        if record.num_callbacks >= MAX_CALLBACKS as u32 {
            return Err(ProgramError::from(RngesusError::TooManyCallbacks));
        }
        Ok(())
    }

    /// Sets up a record with the commitment `initial_key`: the sequence
    /// counter starts at 1 and there are no callbacks.
    pub fn init_rngesus(
        record: Rngesus,
        initial_key: &[u8; 32],
        accounts: &Accounts,
        program_id: &[u8; 32],
    ) -> (res: Result<Rngesus, ProgramError>)
        ensures
            result_view(res) == Processor::spec_init_rngesus(
                record@,
                initial_key@,
                *accounts,
                program_id@,
            ),
            res matches Ok(next) ==> next.wf(),
    {
        Self::init_rngesus_checks(&record, accounts, program_id)?;
        let mut next = record;
        next.is_initialized = true;
        next.prev_hash = *initial_key;
        next.ptr = 1;
        next.num_callbacks = 0;
        next.callbacks = Vec::new();
        assert(next@.callbacks =~= Seq::<Seq<u8>>::empty());
        Ok(next)
    }

    /// Moves a record on to the commitment `new_key`, where `accepted` says
    /// that the hash link from its commitment to `new_key` holds. The
    /// sequence counter advances by one; the callbacks stay.
    pub fn increment_pass(
        record: Rngesus,
        new_key: &[u8; 32],
        accepted: bool,
        accounts: &Accounts,
        program_id: &[u8; 32],
    ) -> (res: Result<Rngesus, ProgramError>)
        requires
            record.wf(),
            Processor::spec_increment_pass_checks(record@, accepted, *accounts, program_id@)
                is Ok ==> record.ptr < u32::MAX,
        ensures
            result_view(res) == Processor::spec_increment_pass(
                record@,
                new_key@,
                accepted,
                *accounts,
                program_id@,
            ),
            res matches Ok(next) ==> next.wf(),
    {
        Self::increment_pass_checks(&record, accepted, accounts, program_id)?;
        let mut next = record;
        next.prev_hash = *new_key;
        next.ptr = next.ptr + 1;
        assert(next@.callbacks =~= record@.callbacks);
        Ok(next)
    }

    /// Advances the sequence counter of a record by one on behalf of the
    /// controlling authority. Nothing else changes.
    pub fn bump_pointer(record: Rngesus, accounts: &Accounts, program_id: &[u8; 32]) -> (res:
        Result<Rngesus, ProgramError>)
        requires
            record.wf(),
            Processor::spec_bump_pointer_checks(record@, *accounts, program_id@) is Ok
                ==> record.ptr < u32::MAX,
        ensures
            result_view(res) == Processor::spec_bump_pointer(record@, *accounts, program_id@),
            res matches Ok(next) ==> next.wf(),
    {
        Self::bump_pointer_checks(&record, accounts, program_id)?;
        let mut next = record;
        next.ptr = next.ptr + 1;
        assert(next@.callbacks =~= record@.callbacks);
        Ok(next)
    }

    /// Puts `program_address` behind the callbacks of a record and counts it.
    pub fn register_callback(
        record: Rngesus,
        program_address: &[u8; 32],
        accounts: &Accounts,
        program_id: &[u8; 32],
    ) -> (res: Result<Rngesus, ProgramError>)
        requires
            record.wf(),
        ensures
            result_view(res) == Processor::spec_register_callback(
                record@,
                program_address@,
                *accounts,
                program_id@,
            ),
            res matches Ok(next) ==> next.wf(),
    {
        Self::register_callback_checks(&record, accounts, program_id)?;
        let mut next = record;
        next.callbacks.push(*program_address);
        next.num_callbacks = next.num_callbacks + 1;
        assert(next@.callbacks =~= record@.callbacks.push(program_address@));
        Ok(next)
    }
}

/// The bytes of a slot after a request to register each of `addresses`, in
/// turn, was handled on it.
pub open spec fn spec_register_each(
    program_id: Seq<u8>,
    accounts: Accounts,
    data: Seq<u8>,
    addresses: Seq<Seq<u8>>,
) -> Seq<u8>
    decreases addresses.len(),
{
    if addresses.len() == 0 {
        data
    } else {
        let before = spec_register_each(program_id, accounts, data, addresses.drop_last());
        Processor::spec_written(
            before,
            Processor::spec_on_slot(
                program_id,
                accounts,
                before,
                InstructionView::RegisterCallback { program_address: addresses.last() },
            ),
        )
    }
}

/// Every step of the state machine leaves a record that is well formed and
/// set up, with a sequence counter of at least 1, and never moves the counter
/// of a record that was set up back.
pub proof fn lemma_apply_keeps_record_valid(
    record: RngesusView,
    instruction: InstructionView,
    accounts: Accounts,
    program_id: Seq<u8>,
)
    requires
        record.wf(),
        record.is_initialized ==> record.ptr >= 1,
        instruction.wf(),
        Processor::spec_has_room(record, instruction, accounts, program_id),
    ensures
        Processor::spec_apply(record, instruction, accounts, program_id) matches Ok(next) ==> {
            &&& next.wf()
            &&& next.is_initialized
            &&& next.ptr >= 1
            &&& record.is_initialized ==> next.ptr >= record.ptr
        },
{
}

/// Where the hash link holds, advancing a slot that holds a record of this
/// program puts the claimed commitment at the head of the chain, moves the
/// sequence counter on by one, and leaves the callbacks and their number as
/// they were.
pub proof fn lemma_advance_accepted(
    program_id: Seq<u8>,
    accounts: Accounts,
    data: Seq<u8>,
    request: Seq<u8>,
)
    requires
        accounts.owned_by(program_id),
        RngesusInstruction::spec_unpack(request) matches Ok(
            InstructionView::IncrementPass { new_key, secret },
        ) && Rngesus::spec_unpack_unchecked(data) matches Ok(record) && record.is_initialized
            && hash_link_holds(record.prev_hash, new_key, secret),
    ensures
        ({
            let new_key = RngesusInstruction::spec_unpack(request)->Ok_0->new_key;
            let record = Rngesus::spec_unpack_unchecked(data)->Ok_0;
            &&& Processor::spec_process(program_id, accounts, data, request) matches Ok(bytes)
                && Rngesus::spec_unpack_unchecked(bytes) matches Ok(next) && {
                &&& next.is_initialized
                &&& next.prev_hash == new_key
                &&& next.callbacks == record.callbacks
                &&& next.num_callbacks == record.num_callbacks
                &&& record.ptr < u32::MAX ==> next.ptr == record.ptr + 1
            }
        }),
{
    let new_key = RngesusInstruction::spec_unpack(request)->Ok_0->new_key;
    let record = Rngesus::spec_unpack_unchecked(data)->Ok_0;
    lemma_unpack_wf(data);
    lemma_rngesus_roundtrip(record.advanced(new_key), data);
}

/// Where the hash link does not hold, advancing a slot that holds a record
/// of this program is rejected and leaves every byte of the slot as it was.
pub proof fn lemma_advance_rejected(
    program_id: Seq<u8>,
    accounts: Accounts,
    data: Seq<u8>,
    request: Seq<u8>,
)
    requires
        accounts.owned_by(program_id),
        RngesusInstruction::spec_unpack(request) matches Ok(
            InstructionView::IncrementPass { new_key, secret },
        ) && Rngesus::spec_unpack_unchecked(data) matches Ok(record) && record.is_initialized
            && !hash_link_holds(record.prev_hash, new_key, secret),
    ensures
        ({
            let outcome = Processor::spec_process(program_id, accounts, data, request);
            &&& outcome == Err::<Seq<u8>, ProgramError>(
                custom(RngesusError::IncorrectSecretOrHash),
            )
            &&& Processor::spec_written(data, outcome) == data
        }),
{
}

/// Bumping is out of reach for everybody but the signing authority, whatever
/// the slot holds: a request of anybody else is rejected and changes nothing.
pub proof fn lemma_bump_reserved(
    program_id: Seq<u8>,
    accounts: Accounts,
    data: Seq<u8>,
    request: Seq<u8>,
)
    requires
        !(accounts.caller_is_signer && accounts.is_authority()),
        RngesusInstruction::spec_unpack(request) == Ok::<InstructionView, ProgramError>(
            InstructionView::BumpPointer,
        ),
        Rngesus::spec_unpack_unchecked(data) is Ok,
    ensures
        ({
            let outcome = Processor::spec_process(program_id, accounts, data, request);
            &&& outcome == Err::<Seq<u8>, ProgramError>(ProgramError::MissingRequiredSignature)
            &&& Processor::spec_written(data, outcome) == data
        }),
{
}

/// Setting up a slot that already holds a record is rejected as such for
/// every signed request, whoever the caller is and whatever the other facts
/// about the slot are.
pub proof fn lemma_init_guard(
    program_id: Seq<u8>,
    accounts: Accounts,
    data: Seq<u8>,
    request: Seq<u8>,
)
    requires
        accounts.caller_is_signer,
        RngesusInstruction::spec_unpack(request) matches Ok(InstructionView::InitRngesus { .. }),
        Rngesus::spec_unpack_unchecked(data) matches Ok(record) && record.is_initialized,
    ensures
        ({
            let outcome = Processor::spec_process(program_id, accounts, data, request);
            &&& outcome == Err::<Seq<u8>, ProgramError>(ProgramError::AccountAlreadyInitialized)
            &&& Processor::spec_written(data, outcome) == data
        }),
{
}

/// A slot without a record is set up by a request of the signing authority,
/// if it belongs to the program and is exempt from rent: its record then
/// holds the given commitment, a sequence counter of 1 and no callbacks.
pub proof fn lemma_init_sets_up(
    program_id: Seq<u8>,
    accounts: Accounts,
    data: Seq<u8>,
    request: Seq<u8>,
)
    requires
        accounts.caller_is_signer,
        accounts.is_authority(),
        accounts.owned_by(program_id),
        accounts.rent_exempt,
        RngesusInstruction::spec_unpack(request) matches Ok(InstructionView::InitRngesus { .. }),
        Rngesus::spec_unpack_unchecked(data) matches Ok(record) && !record.is_initialized,
    ensures
        ({
            let initial_key = RngesusInstruction::spec_unpack(request)->Ok_0->initial_key;
            Processor::spec_process(program_id, accounts, data, request) matches Ok(bytes)
                && Rngesus::spec_unpack_unchecked(bytes) == Ok::<RngesusView, ProgramError>(
                RngesusView {
                    is_initialized: true,
                    prev_hash: initial_key,
                    ptr: 1,
                    num_callbacks: 0,
                    callbacks: Seq::empty(),
                },
            )
        }),
{
    let initial_key = RngesusInstruction::spec_unpack(request)->Ok_0->initial_key;
    let record = Rngesus::spec_unpack_unchecked(data)->Ok_0;
    lemma_rngesus_roundtrip(record.set_up(initial_key), data);
}

/// A slot that holds a record of this program takes on callbacks, one
/// request each, as long as the record has room: they are appended in the
/// order of the requests and counted, and nothing else changes.
pub proof fn lemma_register_within_capacity(
    program_id: Seq<u8>,
    accounts: Accounts,
    data: Seq<u8>,
    addresses: Seq<Seq<u8>>,
)
    requires
        accounts.owned_by(program_id),
        forall|i: int| 0 <= i < addresses.len() ==> (#[trigger] addresses[i]).len() == KEY_LEN,
        Rngesus::spec_unpack_unchecked(data) matches Ok(record) && record.is_initialized
            && record.num_callbacks + addresses.len() <= MAX_CALLBACKS,
    ensures
        ({
            let record = Rngesus::spec_unpack_unchecked(data)->Ok_0;
            Rngesus::spec_unpack_unchecked(
                spec_register_each(program_id, accounts, data, addresses),
            ) == Ok::<RngesusView, ProgramError>(
                RngesusView {
                    num_callbacks: (record.num_callbacks + addresses.len()) as u32,
                    callbacks: record.callbacks + addresses,
                    ..record
                },
            )
        }),
    decreases addresses.len(),
{
    let record = Rngesus::spec_unpack_unchecked(data)->Ok_0;
    lemma_unpack_wf(data);
    if addresses.len() == 0 {
        assert(record.callbacks + addresses =~= record.callbacks);
    } else {
        let front = addresses.drop_last();
        lemma_register_within_capacity(program_id, accounts, data, front);
        let before = spec_register_each(program_id, accounts, data, front);
        let held = Rngesus::spec_unpack_unchecked(before)->Ok_0;
        let next = held.registered(addresses.last());
        assert(next.callbacks =~= record.callbacks + addresses);
        assert(next.wf());
        lemma_rngesus_roundtrip(next, before);
    }
}

/// A full record takes no further callback: the request is rejected and
/// leaves every byte of the slot, the registered callbacks among them, as it
/// was.
pub proof fn lemma_register_at_capacity(
    program_id: Seq<u8>,
    accounts: Accounts,
    data: Seq<u8>,
    program_address: Seq<u8>,
)
    requires
        accounts.owned_by(program_id),
        Rngesus::spec_unpack_unchecked(data) matches Ok(record) && record.is_initialized
            && record.num_callbacks == MAX_CALLBACKS,
    ensures
        ({
            let outcome = Processor::spec_on_slot(
                program_id,
                accounts,
                data,
                InstructionView::RegisterCallback { program_address },
            );
            &&& outcome == Err::<Seq<u8>, ProgramError>(custom(RngesusError::TooManyCallbacks))
            &&& Processor::spec_written(data, outcome) == data
        }),
{
}

/// A record that was just set up takes exactly as many callbacks as it has
/// slots: after one request for each of them it holds them all, in order,
/// and the request after that is rejected and changes nothing.
pub proof fn lemma_capacity(
    program_id: Seq<u8>,
    accounts: Accounts,
    data: Seq<u8>,
    addresses: Seq<Seq<u8>>,
    one_more: Seq<u8>,
)
    requires
        accounts.owned_by(program_id),
        addresses.len() == MAX_CALLBACKS,
        forall|i: int| 0 <= i < addresses.len() ==> (#[trigger] addresses[i]).len() == KEY_LEN,
        Rngesus::spec_unpack_unchecked(data) matches Ok(record) && record.is_initialized
            && record.num_callbacks == 0,
    ensures
        ({
            let full = spec_register_each(program_id, accounts, data, addresses);
            let outcome = Processor::spec_on_slot(
                program_id,
                accounts,
                full,
                InstructionView::RegisterCallback { program_address: one_more },
            );
            &&& Rngesus::spec_unpack_unchecked(full) matches Ok(record) && record.num_callbacks
                == MAX_CALLBACKS && record.callbacks == addresses
            &&& outcome == Err::<Seq<u8>, ProgramError>(custom(RngesusError::TooManyCallbacks))
            &&& Processor::spec_written(full, outcome) == full
        }),
{
    let record = Rngesus::spec_unpack_unchecked(data)->Ok_0;
    lemma_unpack_wf(data);
    lemma_register_within_capacity(program_id, accounts, data, addresses);
    assert(record.callbacks + addresses =~= addresses);
    let full = spec_register_each(program_id, accounts, data, addresses);
    lemma_register_at_capacity(program_id, accounts, full, one_more);
}

} // verus!
