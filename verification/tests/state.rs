use rngesus::error::ProgramError;
use rngesus::state::{Callback, Rngesus, CALLBACK_BYTES, MAX_CALLBACKS};

fn key(tail: &[u8]) -> [u8; 32] {
    let mut k = [b'0'; 32];
    k[32 - tail.len()..].copy_from_slice(tail);
    k
}

#[test]
fn rng_pack_unpack() {
    let prev_hash = *b"00000000000000000000000prev_hash";
    let callback1 = *b"00000000000000000000000callback1";
    let callback2 = *b"00000000000000000000000callback2";
    let base = Rngesus {
        is_initialized: true,
        prev_hash: prev_hash,
        ptr: 69,
        num_callbacks: 2,
        callbacks: [callback1, callback2].to_vec(),
    };

    let buffer: &mut [u8] = &mut [0; Rngesus::LEN];
    Rngesus::pack_into_slice(&base, buffer);
    let unpacked = Rngesus::unpack(buffer).unwrap();
    assert_eq!(base, unpacked);
}

#[test]
fn callback_pack_unpack() {
    let base = Callback {
        is_initialized: true,
        is_enabled: true,
        program_pubkey: *b"00000000000000000000000call_back",
        invokes: 420,
        error: 69,
    };

    let buffer: &mut [u8] = &mut [0; Callback::LEN];
    Callback::pack_into_slice(&base, buffer);
    let unpacked = Callback::unpack(buffer).unwrap();
    assert_eq!(base, unpacked);
}

#[test]
fn sizes_are_fixed() {
    assert_eq!(Rngesus::LEN, 3241);
    assert_eq!(Rngesus::LEN, 1 + 32 + 4 + 4 + 100 * 32);
    assert_eq!(Callback::LEN, 39);
    assert_eq!(MAX_CALLBACKS, 100);
    assert_eq!(CALLBACK_BYTES, 3200);
}

#[test]
fn record_layout_is_exact() {
    let record = Rngesus {
        is_initialized: true,
        prev_hash: key(b"prev_hash"),
        ptr: 0x0102_0304,
        num_callbacks: 2,
        callbacks: vec![key(b"callback1"), key(b"callback2")],
    };
    let mut buffer = vec![0xEEu8; Rngesus::LEN];
    record.pack_into_slice(&mut buffer);
    assert_eq!(buffer[0], 1);
    assert_eq!(&buffer[1..33], &key(b"prev_hash")[..]);
    assert_eq!(&buffer[33..37], &[4, 3, 2, 1]);
    assert_eq!(&buffer[37..41], &[2, 0, 0, 0]);
    assert_eq!(&buffer[41..73], &key(b"callback1")[..]);
    assert_eq!(&buffer[73..105], &key(b"callback2")[..]);
    assert!(buffer[105..].iter().all(|b| *b == 0xEE));
}

#[test]
fn uninitialized_flag_is_written_as_zero() {
    let record = Rngesus {
        is_initialized: false,
        prev_hash: [7; 32],
        ptr: 0,
        num_callbacks: 0,
        callbacks: vec![],
    };
    let mut buffer = vec![0xFFu8; Rngesus::LEN];
    record.pack_into_slice(&mut buffer);
    assert_eq!(buffer[0], 0);
    assert_eq!(&buffer[33..41], &[0u8; 8]);
    assert!(buffer[41..].iter().all(|b| *b == 0xFF));
}

#[test]
fn callback_layout_is_exact() {
    let entry = Callback {
        is_initialized: true,
        is_enabled: false,
        program_pubkey: key(b"call_back"),
        invokes: 420,
        error: 69,
    };
    let mut buffer = [0xAAu8; Callback::LEN];
    entry.pack_into_slice(&mut buffer);
    assert_eq!(buffer[0], 1);
    assert_eq!(buffer[1], 0);
    assert_eq!(&buffer[2..34], &key(b"call_back")[..]);
    assert_eq!(&buffer[34..38], &[0xA4, 0x01, 0, 0]);
    assert_eq!(buffer[38], 69);
}

#[test]
fn integers_are_little_endian_on_read() {
    let mut buffer = vec![0u8; Rngesus::LEN];
    buffer[33..37].copy_from_slice(&[0x78, 0x56, 0x34, 0x12]);
    buffer[37..41].copy_from_slice(&[1, 0, 0, 0]);
    buffer[41..73].copy_from_slice(&[9u8; 32]);
    let record = Rngesus::unpack_from_slice(&buffer).unwrap();
    assert_eq!(record.ptr, 0x1234_5678);
    assert_eq!(record.num_callbacks, 1);
    assert_eq!(record.callbacks, vec![[9u8; 32]]);
    assert_eq!(record.ptr, u32::from_le_bytes([0x78, 0x56, 0x34, 0x12]));
}

#[test]
fn largest_pointer_round_trips() {
    let record = Rngesus {
        is_initialized: true,
        prev_hash: [0xAB; 32],
        ptr: u32::MAX,
        num_callbacks: 0,
        callbacks: vec![],
    };
    let mut buffer = vec![0u8; Rngesus::LEN];
    record.pack_into_slice(&mut buffer);
    assert_eq!(&buffer[33..37], &[0xFF; 4]);
    assert_eq!(Rngesus::unpack_from_slice(&buffer), Ok(record));
}

#[test]
fn zeroed_buffer_is_an_uninitialized_record() {
    let buffer = vec![0u8; Rngesus::LEN];
    let record = Rngesus::unpack_from_slice(&buffer).unwrap();
    assert!(!record.is_initialized());
    assert_eq!(record.prev_hash, [0u8; 32]);
    assert_eq!(record.ptr, 0);
    assert_eq!(record.num_callbacks, 0);
    assert!(record.callbacks.is_empty());
    assert_eq!(Rngesus::unpack_unchecked(&buffer), Ok(record));
    assert_eq!(Rngesus::unpack(&buffer), Err(ProgramError::UninitializedAccount));
}

#[test]
fn flag_is_set_only_by_one() {
    let mut buffer = vec![0u8; Rngesus::LEN];
    buffer[0] = 2;
    assert!(!Rngesus::unpack_from_slice(&buffer).unwrap().is_initialized);
    buffer[0] = 1;
    assert!(Rngesus::unpack_from_slice(&buffer).unwrap().is_initialized);
}

#[test]
fn excess_callback_count_is_refused() {
    let mut buffer = vec![0u8; Rngesus::LEN];
    buffer[0] = 1;
    buffer[37..41].copy_from_slice(&101u32.to_le_bytes());
    assert_eq!(Rngesus::unpack_from_slice(&buffer), Err(ProgramError::Custom(1)));
    assert_eq!(Rngesus::unpack_unchecked(&buffer), Err(ProgramError::Custom(1)));
    assert_eq!(Rngesus::unpack(&buffer), Err(ProgramError::Custom(1)));
}

#[test]
fn excess_callback_count_is_refused_whatever_else_the_buffer_holds() {
    for fill in [0u8, 1, 0x5A, 0xFF] {
        let mut buffer = vec![fill; Rngesus::LEN];
        buffer[37..41].copy_from_slice(&101u32.to_le_bytes());
        assert_eq!(Rngesus::unpack_from_slice(&buffer), Err(ProgramError::Custom(1)));
        buffer[37..41].copy_from_slice(&u32::MAX.to_le_bytes());
        assert_eq!(Rngesus::unpack_from_slice(&buffer), Err(ProgramError::Custom(1)));
    }
}

#[test]
fn callback_count_whose_byte_size_wraps_is_refused() {
    // 2^27 slots of 32 bytes are 2^32 bytes: a multiple of what a u32 holds
    let mut buffer = vec![0u8; Rngesus::LEN];
    buffer[37..41].copy_from_slice(&(1u32 << 27).to_le_bytes());
    assert_eq!(Rngesus::unpack_from_slice(&buffer), Err(ProgramError::Custom(1)));
    buffer[37..41].copy_from_slice(&((1u32 << 27) + 1).to_le_bytes());
    assert_eq!(Rngesus::unpack_from_slice(&buffer), Err(ProgramError::Custom(1)));
}

#[test]
fn full_record_round_trips() {
    let callbacks: Vec<[u8; 32]> = (0..100u8).map(|i| [i; 32]).collect();
    let record = Rngesus {
        is_initialized: true,
        prev_hash: [0xC3; 32],
        ptr: 7,
        num_callbacks: 100,
        callbacks,
    };
    let mut buffer = vec![0u8; Rngesus::LEN];
    record.pack_into_slice(&mut buffer);
    assert_eq!(&buffer[41 + 99 * 32..], &[99u8; 32][..]);
    assert_eq!(Rngesus::unpack(&buffer), Ok(record));
}

#[test]
fn round_trip_does_not_depend_on_what_the_buffer_held() {
    let record = Rngesus {
        is_initialized: true,
        prev_hash: key(b"head"),
        ptr: 3,
        num_callbacks: 1,
        callbacks: vec![key(b"one")],
    };
    for fill in [0u8, 0x11, 0xFF] {
        let mut buffer = vec![fill; Rngesus::LEN];
        record.pack_into_slice(&mut buffer);
        assert_eq!(Rngesus::unpack_from_slice(&buffer), Ok(record.clone()));
    }
}

#[test]
fn record_of_another_length_is_refused() {
    assert_eq!(Rngesus::unpack_unchecked(&[]), Err(ProgramError::InvalidAccountData));
    assert_eq!(
        Rngesus::unpack_unchecked(&vec![0u8; Rngesus::LEN - 1]),
        Err(ProgramError::InvalidAccountData)
    );
    assert_eq!(
        Rngesus::unpack_unchecked(&vec![0u8; Rngesus::LEN + 1]),
        Err(ProgramError::InvalidAccountData)
    );
    assert_eq!(Rngesus::unpack(&vec![1u8; 40]), Err(ProgramError::InvalidAccountData));
}

#[test]
fn pack_refuses_a_buffer_of_another_length_and_leaves_it() {
    let record = Rngesus {
        is_initialized: true,
        prev_hash: [1; 32],
        ptr: 1,
        num_callbacks: 0,
        callbacks: vec![],
    };
    let mut short = vec![0x42u8; Rngesus::LEN - 1];
    assert_eq!(Rngesus::pack(record.clone(), &mut short), Err(ProgramError::InvalidAccountData));
    assert!(short.iter().all(|b| *b == 0x42));
    let mut long = vec![0x42u8; Rngesus::LEN + 1];
    assert_eq!(Rngesus::pack(record.clone(), &mut long), Err(ProgramError::InvalidAccountData));
    assert!(long.iter().all(|b| *b == 0x42));
    let mut exact = vec![0x42u8; Rngesus::LEN];
    assert_eq!(Rngesus::pack(record.clone(), &mut exact), Ok(()));
    assert_eq!(Rngesus::unpack(&exact), Ok(record));
}

#[test]
fn callback_entry_checks() {
    let zeros = [0u8; Callback::LEN];
    let entry = Callback::unpack_unchecked(&zeros).unwrap();
    assert!(!entry.is_initialized());
    assert!(!entry.is_enabled);
    assert_eq!(entry.invokes, 0);
    assert_eq!(entry.error, 0);
    assert_eq!(Callback::unpack(&zeros), Err(ProgramError::UninitializedAccount));
    assert_eq!(Callback::unpack_unchecked(&[0u8; 38]), Err(ProgramError::InvalidAccountData));
    assert_eq!(Callback::unpack(&[1u8; 40]), Err(ProgramError::InvalidAccountData));

    let mut short = [7u8; 38];
    let base = Callback {
        is_initialized: true,
        is_enabled: true,
        program_pubkey: [3; 32],
        invokes: u32::MAX,
        error: 255,
    };
    assert_eq!(Callback::pack(base.clone(), &mut short), Err(ProgramError::InvalidAccountData));
    assert_eq!(short, [7u8; 38]);
    let mut exact = [7u8; Callback::LEN];
    assert_eq!(Callback::pack(base.clone(), &mut exact), Ok(()));
    assert_eq!(Callback::unpack(&exact), Ok(base));
}
