use arb_bot::bot::ArbitrageBot;
use arb_bot::bundle::{
    ack_missing, bundle_for, bundle_outcome, bundle_request, encode_transaction, BundleResult,
    RelayResponse,
};
use arb_bot::cycle::{CycleAction, CycleEvent, CycleState};
use arb_bot::instruction::{AccountMeta, Instruction};
use arb_bot::lookup::{
    collect_keys, join_tables, lookup_table_keys, resolve_all, resolve_table, FetchedAccount,
    LookupTable, Resolution,
};
use arb_bot::transaction::{address_text, build_outcome, build_transaction, payer_address};
use arb_bot::types::{AccountData, BotError, InstructionData, QuoteResponse, SwapInstructionResponse};
use solana_sdk::address_lookup_table::state::{AddressLookupTable, LookupTableMeta};
use solana_sdk::message::VersionedMessage;
use solana_sdk::pubkey::Pubkey;
use solana_sdk::signer::keypair::keypair_from_seed;
use solana_sdk::signer::Signer;
use solana_sdk::transaction::VersionedTransaction;
use std::borrow::Cow;

fn signing_key() -> Vec<u8> {
    keypair_from_seed(&[7u8; 32]).unwrap().to_bytes().to_vec()
}

fn table_data(addresses: &[[u8; 32]]) -> Vec<u8> {
    let keys: Vec<Pubkey> = addresses.iter().map(|a| Pubkey::from(*a)).collect();
    let table = AddressLookupTable { meta: LookupTableMeta::default(), addresses: Cow::Owned(keys) };
    table.serialize_for_tests().unwrap()
}

fn fetched(lamports: u64, addresses: &[[u8; 32]]) -> Option<FetchedAccount> {
    Some(FetchedAccount { lamports, data: table_data(addresses) })
}

#[test]
fn table_addresses_must_all_parse() {
    let good = vec![
        "So11111111111111111111111111111111111111112".to_string(),
        "11111111111111111111111111111111".to_string(),
    ];
    let keys = lookup_table_keys(&good).unwrap();
    assert_eq!(keys.len(), 2);
    assert_eq!(keys[1], [0u8; 32]);
    assert_eq!(keys[0][31], 1);
    let bad = vec![good[0].clone(), "nope".to_string(), good[1].clone()];
    assert_eq!(lookup_table_keys(&bad), Err(BotError::InvalidAddress));
    assert_eq!(lookup_table_keys(&vec![]), Ok(vec![]));
}

#[test]
fn parsed_keys_are_kept_or_refused() {
    assert_eq!(collect_keys(&vec![Some([1u8; 32]), Some([2u8; 32])]), Ok(vec![[1u8; 32], [2u8; 32]]));
    assert_eq!(collect_keys(&vec![Some([1u8; 32]), None]), Err(BotError::InvalidAddress));
}

#[test]
fn one_fetch_resolves_to_a_table() {
    let table = resolve_table(&[1u8; 32], &fetched(55, &[[3u8; 32], [4u8; 32]])).unwrap();
    assert_eq!(table.key, [1u8; 32]);
    assert_eq!(table.lamports, 55);
    assert_eq!(table.data, table_data(&[[3u8; 32], [4u8; 32]]));
    assert_eq!(table.addresses, vec![[3u8; 32], [4u8; 32]]);
    assert_eq!(resolve_table(&[1u8; 32], &None), None);
    let junk = Some(FetchedAccount { lamports: 1, data: vec![9, 9, 9] });
    assert_eq!(resolve_table(&[1u8; 32], &junk), None);
}

#[test]
fn second_of_three_fetches_failing_fails_the_resolution() {
    let keys = vec![[1u8; 32], [2u8; 32], [3u8; 32]];
    let results = vec![fetched(1, &[[9u8; 32]]), None, fetched(3, &[[8u8; 32]])];
    assert_eq!(resolve_all(&keys, &results), Err(BotError::LookupTableMissing { address: [2u8; 32] }));
}

#[test]
fn first_failure_is_the_one_reported() {
    let keys = vec![[1u8; 32], [2u8; 32], [3u8; 32]];
    let junk = Some(FetchedAccount { lamports: 1, data: vec![0; 10] });
    let results = vec![junk, None, None];
    assert_eq!(resolve_all(&keys, &results), Err(BotError::LookupTableMissing { address: [1u8; 32] }));
    let results = vec![fetched(1, &[]), fetched(2, &[])];
    assert_eq!(resolve_all(&keys, &results), Err(BotError::LookupTableMissing { address: [3u8; 32] }));
}

#[test]
fn all_fetches_resolve_in_address_order() {
    let keys = vec![[1u8; 32], [2u8; 32]];
    let results = vec![fetched(10, &[[9u8; 32]]), fetched(20, &[[8u8; 32], [7u8; 32]])];
    let tables = resolve_all(&keys, &results).unwrap();
    assert_eq!(tables.len(), 2);
    assert_eq!(tables[0].key, [1u8; 32]);
    assert_eq!(tables[0].lamports, 10);
    assert_eq!(tables[0].addresses, vec![[9u8; 32]]);
    assert_eq!(tables[1].key, [2u8; 32]);
    assert_eq!(tables[1].addresses, vec![[8u8; 32], [7u8; 32]]);
    assert_eq!(resolve_all(&vec![], &vec![]), Ok(vec![]));
}

#[test]
fn join_keeps_all_or_none() {
    let table = |tag: u8| LookupTable { key: [tag; 32], lamports: 1, data: vec![tag], addresses: vec![] };
    let found = |tag: u8| Resolution { key: [tag; 32], table: Some(table(tag)) };
    let lost = |tag: u8| Resolution { key: [tag; 32], table: None };
    assert_eq!(join_tables(&vec![found(1), found(2)]), Ok(vec![table(1), table(2)]));
    assert_eq!(
        join_tables(&vec![found(1), lost(2), lost(3)]),
        Err(BotError::LookupTableMissing { address: [2u8; 32] })
    );
    assert_eq!(join_tables(&vec![]), Ok(vec![]));
}

#[test]
fn build_outcome_names_the_step_that_failed() {
    assert_eq!(build_outcome(None, None, None), Err(BotError::SigningError));
    assert_eq!(build_outcome(Some([1u8; 32]), None, None), Err(BotError::CompilationError));
    assert_eq!(build_outcome(Some([1u8; 32]), Some(vec![1]), None), Err(BotError::SigningError));
    assert_eq!(build_outcome(Some([1u8; 32]), Some(vec![1]), Some(vec![2, 3])), Ok(vec![2, 3]));
    assert_eq!(
        build_outcome(Some([1u8; 32]), Some(vec![1]), Some(vec![0; 1232])),
        Ok(vec![0; 1232])
    );
    assert_eq!(
        build_outcome(Some([1u8; 32]), Some(vec![1]), Some(vec![0; 1233])),
        Err(BotError::CompilationError)
    );
}

#[test]
fn oversized_transaction_is_a_compilation_error() {
    let key = signing_key();
    let ixs = vec![Instruction { program_id: [5u8; 32], accounts: vec![], data: vec![1; 2_000] }];
    assert_eq!(build_transaction(&ixs, &vec![], &[3u8; 32], &key), Err(BotError::CompilationError));
    let ixs = vec![Instruction { program_id: [5u8; 32], accounts: vec![], data: vec![1; 70_000] }];
    assert_eq!(build_transaction(&ixs, &vec![], &[3u8; 32], &key), Err(BotError::CompilationError));
    let ixs = vec![Instruction { program_id: [5u8; 32], accounts: vec![], data: vec![1; 1_000] }];
    assert!(build_transaction(&ixs, &vec![], &[3u8; 32], &key).unwrap().len() <= 1232);
}

#[test]
fn key_must_be_exactly_one_keypair() {
    let mut long = signing_key();
    long.push(0);
    assert_eq!(payer_address(&long), Err(BotError::SigningError));
    assert_eq!(payer_address(&signing_key()[..63].to_vec()), Err(BotError::SigningError));
}

#[test]
fn payer_is_the_public_half_of_the_key() {
    let key = signing_key();
    let payer = payer_address(&key).unwrap();
    assert_eq!(payer.to_vec(), key[32..64].to_vec());
    assert_eq!(payer, keypair_from_seed(&[7u8; 32]).unwrap().pubkey().to_bytes());
    assert_eq!(payer_address(&vec![1, 2, 3]), Err(BotError::SigningError));
    assert_eq!(payer_address(&vec![]), Err(BotError::SigningError));
}

#[test]
fn address_text_is_base58() {
    assert_eq!(address_text(&[0u8; 32]), "11111111111111111111111111111111");
    let payer = keypair_from_seed(&[7u8; 32]).unwrap().pubkey();
    assert_eq!(address_text(&payer.to_bytes()), payer.to_string());
}

#[test]
fn unusable_key_is_a_signing_error() {
    let ixs = vec![Instruction { program_id: [5u8; 32], accounts: vec![], data: vec![1] }];
    assert_eq!(build_transaction(&ixs, &vec![], &[0u8; 32], &vec![0u8; 10]), Err(BotError::SigningError));
}

#[test]
fn second_signer_is_a_signing_error() {
    let ixs = vec![Instruction {
        program_id: [5u8; 32],
        accounts: vec![AccountMeta { pubkey: [6u8; 32], is_signer: true, is_writable: false }],
        data: vec![1],
    }];
    assert_eq!(build_transaction(&ixs, &vec![], &[0u8; 32], &signing_key()), Err(BotError::SigningError));
}

#[test]
fn too_many_accounts_is_a_compilation_error() {
    let mut accounts = Vec::new();
    for i in 0..300u32 {
        let mut pubkey = [0u8; 32];
        pubkey[0] = (i % 256) as u8;
        pubkey[1] = (i / 256) as u8;
        pubkey[2] = 1;
        accounts.push(AccountMeta { pubkey, is_signer: false, is_writable: false });
    }
    let ixs = vec![Instruction { program_id: [5u8; 32], accounts, data: vec![1] }];
    assert_eq!(
        build_transaction(&ixs, &vec![], &[0u8; 32], &signing_key()),
        Err(BotError::CompilationError)
    );
}

#[test]
fn built_transaction_decodes_to_the_same_instructions() {
    let key = signing_key();
    let payer = payer_address(&key).unwrap();
    let in_table = [21u8; 32];
    let table = LookupTable {
        key: [20u8; 32],
        lamports: 1,
        data: table_data(&[[22u8; 32], in_table]),
        addresses: vec![[22u8; 32], in_table],
    };
    let ixs = vec![
        Instruction { program_id: [5u8; 32], accounts: vec![], data: vec![2, 1, 0, 0, 0] },
        Instruction {
            program_id: [6u8; 32],
            accounts: vec![
                AccountMeta { pubkey: payer, is_signer: true, is_writable: true },
                AccountMeta { pubkey: in_table, is_signer: false, is_writable: true },
                AccountMeta { pubkey: [9u8; 32], is_signer: false, is_writable: false },
            ],
            data: vec![7, 8, 9],
        },
    ];
    let blockhash = [3u8; 32];
    let bytes = build_transaction(&ixs, &vec![table], &blockhash, &key).unwrap();
    let tx: VersionedTransaction = bincode::deserialize(&bytes).unwrap();
    assert_eq!(tx.signatures.len(), 1);
    assert!(tx.verify_with_results().iter().all(|ok| *ok));
    let message = match &tx.message {
        VersionedMessage::V0(message) => message.clone(),
        VersionedMessage::Legacy(_) => panic!("legacy message"),
    };
    assert_eq!(message.recent_blockhash.to_bytes(), blockhash);
    assert_eq!(message.account_keys[0].to_bytes(), payer);
    assert_eq!(message.header.num_required_signatures, 1);
    assert_eq!(message.address_table_lookups.len(), 1);
    assert_eq!(message.address_table_lookups[0].account_key.to_bytes(), [20u8; 32]);
    assert_eq!(message.address_table_lookups[0].writable_indexes, vec![1u8]);
    let mut all_keys: Vec<[u8; 32]> = message.account_keys.iter().map(|k| k.to_bytes()).collect();
    all_keys.push(in_table);
    assert_eq!(message.instructions.len(), ixs.len());
    for (compiled, given) in message.instructions.iter().zip(ixs.iter()) {
        assert_eq!(all_keys[compiled.program_id_index as usize], given.program_id);
        assert_eq!(compiled.data, given.data);
        assert_eq!(compiled.accounts.len(), given.accounts.len());
        for (index, meta) in compiled.accounts.iter().zip(given.accounts.iter()) {
            assert_eq!(all_keys[*index as usize], meta.pubkey);
            assert_eq!(tx.message.is_signer(*index as usize), meta.is_signer);
            assert_eq!(tx.message.is_maybe_writable(*index as usize), meta.is_writable);
        }
    }
    assert_eq!(bincode::serialize(&tx).unwrap(), bytes);
    assert_eq!(bytes[0], 1);
    assert_eq!(bytes.len(), 1 + 64 + tx.message.serialize().len());
    assert_eq!(bytes[65..].to_vec(), tx.message.serialize());
}

#[test]
fn building_twice_gives_the_same_bytes() {
    let key = signing_key();
    let ixs = vec![Instruction { program_id: [5u8; 32], accounts: vec![], data: vec![1, 2] }];
    let first = build_transaction(&ixs, &vec![], &[3u8; 32], &key).unwrap();
    let second = build_transaction(&ixs, &vec![], &[3u8; 32], &key).unwrap();
    assert_eq!(first, second);
    assert_ne!(first, build_transaction(&ixs, &vec![], &[4u8; 32], &key).unwrap());
}

#[test]
fn transaction_is_encoded_in_base58() {
    assert_eq!(encode_transaction(&vec![1, 2, 3]), "Ldp");
    assert_eq!(encode_transaction(&vec![0, 0, 1]), "112");
    assert_eq!(encode_transaction(&vec![]), "");
}

#[test]
fn bundle_request_holds_one_transaction() {
    let request = bundle_request("abc".to_string());
    assert_eq!(request.jsonrpc, "2.0");
    assert_eq!(request.id, 1);
    assert_eq!(request.method, "sendBundle");
    assert_eq!(request.params, vec![vec!["abc".to_string()]]);
    assert_eq!(bundle_for(&vec![1, 2, 3]), bundle_request("Ldp".to_string()));
}

#[test]
fn relay_answers_are_classified() {
    assert_eq!(bundle_outcome(RelayResponse::TransportFailed), Err(BotError::BundleSubmitFailed));
    let with_id = bundle_outcome(RelayResponse::Answered { result: Some("id-1".to_string()) });
    assert_eq!(with_id, Ok(BundleResult { submitted: true, bundle_id: Some("id-1".to_string()) }));
    assert_eq!(ack_missing(&with_id.unwrap()), None);
    let without = bundle_outcome(RelayResponse::Answered { result: None });
    assert_eq!(without, Ok(BundleResult { submitted: true, bundle_id: None }));
    assert_eq!(ack_missing(&without.unwrap()), Some(BotError::BundleAckMissing));
}

#[test]
fn bot_refuses_an_unusable_key() {
    assert!(matches!(ArbitrageBot::new(vec![1, 2, 3]), Err(BotError::SigningError)));
    let mut wrong_pair = signing_key();
    wrong_pair[40] ^= 1;
    assert!(matches!(ArbitrageBot::new(wrong_pair), Err(BotError::SigningError)));
}

#[test]
fn bot_runs_a_cycle() {
    let mut bot = ArbitrageBot::new(signing_key()).ok().unwrap();
    assert_eq!(bot.payer_address().to_vec(), signing_key()[32..].to_vec());
    assert_eq!(bot.cycle_state(), CycleState::Idle);
    assert_eq!(bot.run(CycleEvent::Tick), CycleAction::RequestQuote { leg: 0, amount: 10_000_000 });
    assert_eq!(
        bot.run(CycleEvent::QuoteReceived { out_amount: 1_000_000 }),
        CycleAction::RequestQuote { leg: 1, amount: 1_000_000 }
    );
    assert_eq!(bot.run(CycleEvent::QuoteReceived { out_amount: 10_004_000 }), CycleAction::Decide);
    assert_eq!(bot.run(CycleEvent::Proceed), CycleAction::Execute { tip: 2_000 });
    assert_eq!(bot.cycle_state(), CycleState::Executing { tip: 2_000 });
    assert_eq!(bot.run(CycleEvent::Failed), CycleAction::Sleep);
    assert_eq!(bot.cycle_state(), CycleState::Idle);
}

#[test]
fn bot_skips_an_unprofitable_round_trip() {
    let mut bot = ArbitrageBot::new(signing_key()).ok().unwrap();
    bot.run(CycleEvent::Tick);
    bot.run(CycleEvent::QuoteReceived { out_amount: 1_000_000 });
    bot.run(CycleEvent::QuoteReceived { out_amount: 10_002_500 });
    assert_eq!(bot.run(CycleEvent::Proceed), CycleAction::Sleep);
    assert_eq!(bot.cycle_state(), CycleState::Idle);
}

#[test]
fn bot_executes_a_round_trip() {
    let bot = ArbitrageBot::new(signing_key()).ok().unwrap();
    let response = SwapInstructionResponse {
        compute_unit_limit: 300_000,
        setup_instructions: vec![InstructionData {
            program_id: "11111111111111111111111111111111".to_string(),
            accounts: vec![AccountData {
                pubkey: "So11111111111111111111111111111111111111112".to_string(),
                is_signer: false,
                is_writable: true,
            }],
            data: "2VfUX".to_string(),
        }],
        swap_instruction: InstructionData {
            program_id: "EPjFWdd5AufqSSqeM2qN1xzybapC8G4wEGGkZwyTDt1v".to_string(),
            accounts: vec![],
            data: "Cn8eVZg".to_string(),
        },
        address_lookup_table_addresses: vec!["So11111111111111111111111111111111111111112".to_string()],
    };
    let ixs = bot.instructions(&response, 2_000).unwrap();
    assert_eq!(ixs.len(), 4);
    let keys = lookup_table_keys(&response.address_lookup_table_addresses).unwrap();
    let blockhash = [3u8; 32];
    let missing = bot.execute_arbitrage(&ixs, &keys, &vec![None], &blockhash);
    assert_eq!(missing, Err(BotError::LookupTableMissing { address: keys[0] }));
    let results = vec![fetched(1, &[[9u8; 32]])];
    let request = bot.execute_arbitrage(&ixs, &keys, &results, &blockhash).unwrap();
    let tables = resolve_all(&keys, &results).unwrap();
    let bytes = build_transaction(&ixs, &tables, &blockhash, &signing_key()).unwrap();
    assert_eq!(request, bundle_for(&bytes));
    let decoded = solana_sdk::bs58::decode(&request.params[0][0]).into_vec().unwrap();
    assert_eq!(decoded, bytes);
    let tx: VersionedTransaction = bincode::deserialize(&decoded).unwrap();
    assert_eq!(tx.message.instructions().len(), 4);
    assert_eq!(tx.message.instructions()[3].data, vec![2u8, 0, 0, 0, 0xd0, 0x07, 0, 0, 0, 0, 0, 0]);
}

#[test]
fn swap_request_is_made_in_the_payers_name() {
    let bot = ArbitrageBot::new(signing_key()).ok().unwrap();
    let quote = |out: u64, hops: usize| QuoteResponse {
        input_mint: "a".to_string(),
        in_amount: 10_000_000,
        output_mint: "b".to_string(),
        out_amount: out,
        other_amount_threshold: out,
        price_impact_pct: "0".to_string(),
        route_plan: vec![serde_json::Value::Bool(true); hops],
        context_slot: 9,
    };
    let data = bot.swap_request(quote(1_000_000, 2), quote(10_004_000, 3));
    assert_eq!(data.user_public_key, keypair_from_seed(&[7u8; 32]).unwrap().pubkey().to_string());
    assert_eq!(data.quote_response.route_plan.len(), 5);
    assert_eq!(data.quote_response.out_amount, 10_004_000);
    assert_eq!(data.quote_response.other_amount_threshold, 1_000_000);
}
