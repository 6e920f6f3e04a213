use gmsol::error::CoreError;
use gmsol::pubkey::{is_default, optional_address, same_key, Pubkey};
use gmsol::timelock::{
    load_and_init_instruction, load_instruction, AccountMeta, InstructionAccount,
    InstructionHeader, InstructionLayout, ACCOUNT_SPACE, HEADER_SPACE,
};

fn key(seed: u8) -> Pubkey {
    let mut key = [0u8; 32];
    key[0] = seed;
    key
}

fn header() -> InstructionHeader {
    InstructionHeader {
        version: 0,
        is_approved: false,
        wallet_bump: 255,
        approved_at: 0,
        executor: key(1),
        program_id: key(2),
        num_accounts: 3,
        data_len: 40,
        rent_receiver: key(3),
        approver: [0; 32],
    }
}

#[test]
fn an_instruction_is_approved_once() {
    let mut header = header();
    assert!(!header.is_approved());
    assert_eq!(header.approved_at(), None);
    assert_eq!(header.apporver(), None);
    assert_eq!(header.approve([0; 32], 100), Err(CoreError::InvalidArgument));
    assert_eq!(header.approve(key(9), 100), Ok(()));
    assert!(header.is_approved());
    assert_eq!(header.approved_at(), Some(100));
    assert_eq!(header.apporver(), Some(&key(9)));
    assert_eq!(header.approve(key(8), 200), Err(CoreError::PreconditionsAreNotMet));
    assert_eq!(header.approved_at(), Some(100));
    assert_eq!(header.executor(), &key(1));
    assert_eq!(header.rent_receiver(), &key(3));

    // A header that names an approver without being approved cannot be approved either.
    let mut named = self::header();
    named.approver = key(7);
    assert_eq!(named.approve(key(9), 100), Err(CoreError::PreconditionsAreNotMet));
    assert_eq!(named.approver, key(7));
}

#[test]
fn an_instruction_is_executable_after_its_delay() {
    let mut header = header();
    assert_eq!(header.is_executable(0, i64::MAX), Ok(false));
    header.approve(key(9), 100).unwrap();
    assert_eq!(header.is_executable(60, 159), Ok(false));
    assert_eq!(header.is_executable(60, 160), Ok(true));
    assert_eq!(header.is_executable(0, 100), Ok(true));
    assert_eq!(header.is_executable(0, 99), Ok(false));
    header.approved_at = i64::MAX - 5;
    assert_eq!(header.is_executable(60, i64::MAX - 1), Ok(false));
    assert_eq!(header.is_executable(60, i64::MAX), Ok(true));
    header.approved_at = -100;
    assert_eq!(header.is_executable(60, -40), Ok(true));
    assert_eq!(header.is_executable(60, -41), Ok(false));
}

#[test]
fn the_space_of_a_buffer_grows_with_its_contents() {
    assert_eq!(InstructionHeader::init_space(0, 0), 224);
    assert_eq!(InstructionHeader::init_space(3, 40), 224 + 40 + 99);
    assert_eq!(
        InstructionHeader::init_space(u16::MAX, u16::MAX),
        HEADER_SPACE + 65_535 + 65_535 * ACCOUNT_SPACE
    );
}

#[test]
fn the_default_address_stands_for_no_address() {
    assert!(is_default(&[0; 32]));
    let mut last = [0u8; 32];
    last[31] = 1;
    assert!(!is_default(&last));
    assert!(!is_default(&key(1)));
    assert_eq!(optional_address(&[0; 32]), None);
    assert_eq!(optional_address(&last), Some(&last));
    assert!(same_key(&key(1), &key(1)));
    assert!(!same_key(&key(1), &key(2)));
    assert!(!same_key(&last, &[0; 32]));
}

#[test]
fn the_parts_of_an_instruction_lie_behind_each_other() {
    let header = header();
    let len = 8 + 224 + 40 + 3 * 33;
    assert_eq!(
        load_instruction(len, &header),
        Ok(InstructionLayout { header_start: 8, data_start: 232, accounts_start: 272, end: len })
    );
    assert!(load_instruction(len + 10, &header).is_ok());
    assert_eq!(load_instruction(len - 1, &header), Err(CoreError::Internal));
    assert_eq!(load_instruction(8 + 224 + 40, &header), Err(CoreError::Internal));
}

#[test]
fn only_the_wallet_signs_a_buffered_instruction() {
    let wallet = key(5);
    let accounts = vec![
        AccountMeta { pubkey: key(6), is_writable: true },
        AccountMeta { pubkey: wallet, is_writable: false },
        AccountMeta { pubkey: key(7), is_writable: false },
    ];
    let (header, buffered) =
        load_and_init_instruction(key(1), 254, key(3), key(2), &wallet, 40, &accounts, &vec![1])
            .unwrap();
    assert_eq!(header.executor, key(1));
    assert_eq!(header.wallet_bump, 254);
    assert_eq!(header.rent_receiver, key(3));
    assert_eq!(header.program_id, key(2));
    assert_eq!((header.num_accounts, header.data_len), (3, 40));
    assert!(!header.is_approved());
    assert_eq!(header.apporver(), None);
    assert_eq!(
        buffered,
        vec![
            InstructionAccount { pubkey: key(6), is_signer: false, is_writable: true },
            InstructionAccount { pubkey: wallet, is_signer: true, is_writable: false },
            InstructionAccount { pubkey: key(7), is_signer: false, is_writable: false },
        ]
    );
    // Another signer than the wallet is refused.
    assert_eq!(
        load_and_init_instruction(key(1), 254, key(3), key(2), &wallet, 40, &accounts, &vec![1, 2])
            .err(),
        Some(CoreError::InvalidArgument)
    );
    // A signer that is no account does not matter.
    assert!(
        load_and_init_instruction(key(1), 254, key(3), key(2), &wallet, 40, &accounts, &vec![9])
            .is_ok()
    );
    assert_eq!(
        load_and_init_instruction(key(1), 254, key(3), key(2), &wallet, 65_536, &accounts, &vec![])
            .err(),
        Some(CoreError::InvalidArgument)
    );
    let many = vec![AccountMeta { pubkey: key(6), is_writable: true }; 65_536];
    assert_eq!(
        load_and_init_instruction(key(1), 254, key(3), key(2), &wallet, 0, &many, &vec![]).err(),
        Some(CoreError::InvalidArgument)
    );
    let (header, buffered) =
        load_and_init_instruction(key(1), 254, key(3), key(2), &wallet, 65_535, &vec![], &vec![])
            .unwrap();
    assert_eq!((header.num_accounts, header.data_len), (0, 65_535));
    assert!(buffered.is_empty());
}
