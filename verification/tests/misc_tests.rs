use dashbook::api::governance::{object_selected, type_selected};
use dashbook::config::{Config, RpcConfig, ServerConfig, Settings};
use dashbook::models::governance::{
    order_newest_first, GovernanceInfo, Proposal, PROPOSAL_OBJECT_TYPE,
};
use dashbook::models::transaction::{
    choose_payload, has_coinbase_input, is_coinbase, tx_type_label, PayloadPresence,
    SpecialPayload,
};
use dashbook::rpc::types::{
    BlockTxs, NodeNumber, RpcBlock, RpcGovernanceInfo, RpcGovernanceObject, RpcProposalData,
    RpcTransaction, RpcTxInput,
};
use dashbook::text::{
    char_width, chars_of, excerpt, i64_text, is_space, u64_text, only_digits, only_hex, parse_i32, parse_u32, parse_u64, same_text,
    split_fields, trim,
};

fn gobject(object_type: u32) -> RpcGovernanceObject {
    RpcGovernanceObject {
        data_hex: "7b7d".to_string(),
        data_string: "{}".to_string(),
        hash: "gh".to_string(),
        collateral_hash: "ch".to_string(),
        object_type,
        creation_time: 1_700_000_000,
        f_blockchain_validity: true,
        is_valid_reason: String::new(),
        f_cached_valid: true,
        f_cached_funding: false,
        f_cached_delete: false,
        f_cached_endorsed: false,
        absolute_yes_count: 90,
        yes_count: 100,
        no_count: 10,
        abstain_count: 2,
    }
}

fn proposal_data() -> RpcProposalData {
    RpcProposalData {
        end_epoch: 2,
        name: "fund-x".to_string(),
        payment_address: "yPay".to_string(),
        payment_amount: NodeNumber { bits: 12.5f64.to_bits() },
        start_epoch: 1,
        proposal_type: 1,
        url: "https://example.org".to_string(),
    }
}

#[test]
fn transaction_types_have_names() {
    let named = [
        (0, "Standard"),
        (1, "ProRegTx"),
        (2, "ProUpServTx"),
        (3, "ProUpRegTx"),
        (4, "ProUpRevTx"),
        (5, "CoinBase"),
        (6, "QuorumCommitment"),
        (8, "AssetLock"),
        (9, "AssetUnlock"),
    ];
    for (t, name) in named {
        assert_eq!(tx_type_label(t), name);
    }
    assert_eq!(tx_type_label(7), "Type 7");
    assert_eq!(tx_type_label(10), "Type 10");
    assert_eq!(tx_type_label(u32::MAX), "Type 4294967295");
}

#[test]
fn unset_settings_get_their_defaults() {
    let none = Settings {
        bind_address: None,
        static_dir: None,
        rpc_url: None,
        rpc_username: None,
        rpc_password: None,
    };
    assert_eq!(
        Config::from_settings(none),
        Config {
            server: ServerConfig {
                bind_address: "0.0.0.0:3000".to_string(),
                static_dir: "./static".to_string(),
            },
            rpc: RpcConfig {
                url: "http://127.0.0.1:19998/".to_string(),
                username: "dashrpc".to_string(),
                password: "password".to_string(),
            },
        }
    );
}

#[test]
fn set_settings_are_taken_as_they_are() {
    let all = Settings {
        bind_address: Some("127.0.0.1:8080".to_string()),
        static_dir: Some("/srv".to_string()),
        rpc_url: Some("http://node:9998/".to_string()),
        rpc_username: Some(String::new()),
        rpc_password: Some("s3".to_string()),
    };
    let c = Config::from_settings(all);
    assert_eq!(c.server.bind_address, "127.0.0.1:8080");
    assert_eq!(c.server.static_dir, "/srv");
    assert_eq!(c.rpc.url, "http://node:9998/");
    assert_eq!(c.rpc.username, "");
    assert_eq!(c.rpc.password, "s3");
}

#[test]
fn objects_are_selected_by_the_type_in_their_data() {
    assert!(object_selected("proposal", "{\"type\":1,\"name\":\"x\"}"));
    assert!(!object_selected("proposal", "{\"type\":2}"));
    assert!(object_selected("trigger", "{\"type\":2}"));
    assert!(!object_selected("trigger", "{\"type\":1}"));
    assert!(!object_selected("proposal", "{\"type\":\"1\"}"));
    assert!(!object_selected("proposal", "{\"type\":-1}"));
    assert!(!object_selected("proposal", "{}"));
    assert!(!object_selected("proposal", "not json"));
    assert!(!object_selected("trigger", "[[\"trigger\",{\"type\":2}]]"));
    assert!(object_selected("anything", "not json"));
    assert!(object_selected("Proposal", "{\"type\":2}"));
}

#[test]
fn kinds_select_by_type() {
    assert!(type_selected("proposal", Some(1)));
    assert!(!type_selected("proposal", Some(2)));
    assert!(!type_selected("proposal", None));
    assert!(type_selected("trigger", Some(2)));
    assert!(!type_selected("trigger", None));
    assert!(type_selected("", None));
    assert!(type_selected("other", Some(9)));
}

#[test]
fn only_objects_of_the_proposal_type_with_readable_data_are_proposals() {
    assert_eq!(PROPOSAL_OBJECT_TYPE, 1);
    let hash = "key".to_string();
    assert_eq!(Proposal::from_rpc(&hash, &gobject(2), Some(proposal_data())), None);
    assert_eq!(Proposal::from_rpc(&hash, &gobject(1), None), None);
    assert_eq!(
        Proposal::from_rpc(&hash, &gobject(1), Some(proposal_data())),
        Some(Proposal {
            hash: "key".to_string(),
            name: "fund-x".to_string(),
            url: "https://example.org".to_string(),
            payment_address: "yPay".to_string(),
            payment_amount: NodeNumber { bits: 12.5f64.to_bits() },
            start_epoch: 1,
            end_epoch: 2,
            creation_time: 1_700_000_000,
            yes_count: 100,
            no_count: 10,
            abstain_count: 2,
            absolute_yes_count: 90,
            is_funded: false,
            is_valid: true,
            collateral_hash: "ch".to_string(),
        })
    );
}

#[test]
fn governance_figures_are_taken_over() {
    let rpc = RpcGovernanceInfo {
        governanceminquorum: 10,
        proposalfee: NodeNumber { bits: 1 },
        superblockcycle: 16616,
        superblockmaturitywindow: 1662,
        lastsuperblock: 100,
        nextsuperblock: 200,
        fundingthreshold: 300,
        governancebudget: NodeNumber { bits: 2 },
    };
    assert_eq!(
        GovernanceInfo::from_rpc(&rpc),
        GovernanceInfo {
            governance_min_quorum: 10,
            proposal_fee: NodeNumber { bits: 1 },
            superblock_cycle: 16616,
            last_superblock: 100,
            next_superblock: 200,
            funding_threshold: 300,
            governance_budget: NodeNumber { bits: 2 },
        }
    );
}

#[test]
fn a_block_hands_out_the_transactions_it_was_read_with() {
    let mut block = RpcBlock {
        hash: "h".to_string(),
        confirmations: 9,
        height: 1,
        version: 1,
        version_hex: None,
        merkleroot: String::new(),
        time: 0,
        mediantime: 0,
        nonce: 0,
        bits: String::new(),
        difficulty: NodeNumber { bits: 0 },
        chainwork: String::new(),
        n_tx: 0,
        previous_block_hash: None,
        next_block_hash: None,
        chainlock: false,
        size: None,
        cb_tx: None,
        tx: BlockTxs::Absent,
    };
    assert_eq!(block.transactions(), None);
    assert_eq!(block.txids(), None);
    block.tx = BlockTxs::Ids(vec!["a".to_string()]);
    assert_eq!(block.txids(), Some(&vec!["a".to_string()]));
    assert_eq!(block.transactions(), None);
    let full = vec![RpcTransaction {
        txid: "a".to_string(),
        tx_type: 5,
        vin: Vec::new(),
        vout: Vec::new(),
        height: Some(1),
        confirmations: Some(9),
    }];
    block.tx = BlockTxs::Full(full.clone());
    assert_eq!(block.transactions(), Some(&full));
    assert_eq!(block.txids(), None);
}

#[test]
fn text_is_read_character_by_character() {
    assert_eq!(chars_of("aé漢"), vec!['a', 'é', '漢']);
    assert_eq!(chars_of(""), Vec::<char>::new());
    assert!(same_text("abc", "abc"));
    assert!(!same_text("abc", "abd"));
    assert!(!same_text("abc", "ab"));
}

#[test]
fn white_space_is_trimmed_at_both_ends_only() {
    assert_eq!(trim("  a b \t\n"), "a b");
    assert_eq!(trim("\u{3000}x\u{a0}"), "x");
    assert_eq!(trim("   "), "");
    assert_eq!(trim(""), "");
    assert_eq!(trim("x"), "x");
    assert_eq!(trim("\u{200b}x"), "\u{200b}x");
}

#[test]
fn digits_and_hex_digits_are_ascii() {
    assert!(only_digits(&chars_of("0123456789")));
    assert!(only_digits(&chars_of("")));
    assert!(!only_digits(&chars_of("12a")));
    assert!(!only_digits(&chars_of("١٢٣")));
    assert!(only_hex(&chars_of("0123456789abcdefABCDEF")));
    assert!(!only_hex(&chars_of("g")));
    assert!(!only_hex(&chars_of("/")));
    assert!(!only_hex(&chars_of(":")));
    assert!(!only_hex(&chars_of("@")));
    assert!(!only_hex(&chars_of("G")));
    assert!(!only_hex(&chars_of("`")));
}

#[test]
fn numbers_are_read_with_range_checks() {
    assert_eq!(parse_u64(&chars_of("0")), Some(0));
    assert_eq!(parse_u64(&chars_of("18446744073709551615")), Some(u64::MAX));
    assert_eq!(parse_u64(&chars_of("18446744073709551616")), None);
    assert_eq!(parse_u64(&chars_of("00000000000000000000000000042")), Some(42));
    assert_eq!(parse_u64(&chars_of("")), None);
    assert_eq!(parse_u64(&chars_of("+1")), None);
    assert_eq!(parse_i32("2147483647"), Some(i32::MAX));
    assert_eq!(parse_i32("2147483648"), None);
    assert_eq!(parse_i32("-2147483648"), Some(i32::MIN));
    assert_eq!(parse_i32("-2147483649"), None);
    assert_eq!(parse_i32("+17"), Some(17));
    assert_eq!(parse_i32("-0"), Some(0));
    assert_eq!(parse_i32(""), None);
    assert_eq!(parse_i32("-"), None);
    assert_eq!(parse_i32("+"), None);
    assert_eq!(parse_i32("1 "), None);
    assert_eq!(parse_i32("--1"), None);
    assert_eq!(parse_i32("99999999999999999999999"), None);
    assert_eq!(parse_u32("4294967295"), Some(u32::MAX));
    assert_eq!(parse_u32("4294967296"), None);
    assert_eq!(parse_u32("+5"), Some(5));
    assert_eq!(parse_u32("-5"), None);
    assert_eq!(parse_u32("-0"), None);
    assert_eq!(parse_u32(""), None);
}

#[test]
fn the_readers_agree_with_the_standard_library() {
    for s in ["0", "7", "-7", "+7", "", "-", "+", "007", "2147483648", "-2147483649", "1e3", " 1"] {
        assert_eq!(parse_i32(s), s.parse::<i32>().ok());
        assert_eq!(parse_u32(s), s.parse::<u32>().ok());
        assert_eq!(parse_u64(&chars_of(s)), if s.starts_with('+') { None } else { s.parse::<u64>().ok() });
    }
}

#[test]
fn fields_are_split_at_every_separator() {
    assert_eq!(split_fields("a-b-c", '-'), vec!["a", "b", "c"]);
    assert_eq!(split_fields("", '-'), vec![""]);
    assert_eq!(split_fields("-", '-'), vec!["", ""]);
    assert_eq!(split_fields("a--b", '-'), vec!["a", "", "b"]);
    assert_eq!(split_fields("abc", ','), vec!["abc"]);
    assert_eq!(split_fields("é,漢,", ','), vec!["é", "漢", ""]);
}

#[test]
fn excerpts_keep_whole_characters() {
    assert_eq!(excerpt("漢字漢字", 3), "漢");
    assert_eq!(excerpt("漢字漢字", 5), "漢");
    assert_eq!(excerpt("漢字漢字", 6), "漢字");
    assert_eq!(excerpt("漢字漢字", 2), "");
    assert_eq!(excerpt("😀a", 3), "");
    assert_eq!(excerpt("😀a", 4), "😀");
    assert_eq!(excerpt("😀a", 5), "😀a");
    assert_eq!(excerpt("a😀", 4), "a");
}

#[test]
fn characters_take_one_to_four_bytes() {
    for c in ['\0', 'a', '\u{7f}', '\u{80}', 'é', '\u{7ff}', '\u{800}', '漢', '\u{d7ff}', '\u{e000}',
        '\u{ffff}', '\u{10000}', '😀', '\u{10ffff}']
    {
        assert_eq!(char_width(c), c.len_utf8());
    }
}

#[test]
fn the_first_payload_carried_is_the_one_shown() {
    let none = PayloadPresence {
        pro_reg_tx: false,
        pro_up_serv_tx: false,
        pro_up_reg_tx: false,
        pro_up_rev_tx: false,
        cb_tx: false,
        qc_tx: false,
        asset_unlock_tx: false,
    };
    assert_eq!(choose_payload(&none), None);
    let all = PayloadPresence {
        pro_reg_tx: true,
        pro_up_serv_tx: true,
        pro_up_reg_tx: true,
        pro_up_rev_tx: true,
        cb_tx: true,
        qc_tx: true,
        asset_unlock_tx: true,
    };
    assert_eq!(choose_payload(&all), Some(SpecialPayload::ProRegTx));
    assert_eq!(
        choose_payload(&PayloadPresence { pro_reg_tx: false, ..all }),
        Some(SpecialPayload::ProUpServTx)
    );
    assert_eq!(
        choose_payload(&PayloadPresence { cb_tx: true, qc_tx: true, ..none }),
        Some(SpecialPayload::CbTx)
    );
    assert_eq!(
        choose_payload(&PayloadPresence { asset_unlock_tx: true, ..none }),
        Some(SpecialPayload::AssetUnlockTx)
    );
    assert_eq!(
        choose_payload(&PayloadPresence { pro_up_rev_tx: true, qc_tx: true, ..none }),
        Some(SpecialPayload::ProUpRevTx)
    );
    assert_eq!(
        choose_payload(&PayloadPresence { pro_up_reg_tx: true, asset_unlock_tx: true, ..none }),
        Some(SpecialPayload::ProUpRegTx)
    );
    assert_eq!(choose_payload(&PayloadPresence { qc_tx: true, ..none }), Some(SpecialPayload::QcTx));
}

#[test]
fn payloads_have_names() {
    let named = [
        (SpecialPayload::ProRegTx, "ProRegTx"),
        (SpecialPayload::ProUpServTx, "ProUpServTx"),
        (SpecialPayload::ProUpRegTx, "ProUpRegTx"),
        (SpecialPayload::ProUpRevTx, "ProUpRevTx"),
        (SpecialPayload::CbTx, "CbTx"),
        (SpecialPayload::QcTx, "QcTx"),
        (SpecialPayload::AssetUnlockTx, "AssetUnlockTx"),
    ];
    for (payload, name) in named {
        assert_eq!(payload.label(), name);
    }
}

#[test]
fn coinbase_inputs_are_recognised() {
    let input = |coinbase: Option<&str>| RpcTxInput {
        txid: None,
        vout: None,
        coinbase: coinbase.map(|c| c.to_string()),
        script_sig: None,
        value_sat: None,
        address: None,
        sequence: 0,
    };
    assert!(!has_coinbase_input(&Vec::new()));
    assert!(!is_coinbase(&Vec::new()));
    let plain = vec![input(None), input(None)];
    assert!(!has_coinbase_input(&plain));
    assert!(!is_coinbase(&plain));
    let first = vec![input(Some("03")), input(None)];
    assert!(has_coinbase_input(&first));
    assert!(is_coinbase(&first));
    let later = vec![input(None), input(Some("03"))];
    assert!(has_coinbase_input(&later));
    assert!(!is_coinbase(&later));
}

#[test]
fn proposals_are_ordered_newest_first_and_ties_keep_their_order() {
    let at = |name: &str, creation_time: u64| {
        let mut obj = gobject(1);
        obj.creation_time = creation_time;
        Proposal::from_rpc(&name.to_string(), &obj, Some(proposal_data())).unwrap()
    };
    let given = vec![at("a", 5), at("b", 9), at("c", 5), at("d", 1), at("e", 9), at("f", 7)];
    let names: Vec<String> = order_newest_first(given).into_iter().map(|p| p.hash).collect();
    assert_eq!(names, vec!["b", "e", "f", "a", "c", "d"]);
    assert_eq!(order_newest_first(Vec::new()), Vec::<Proposal>::new());
    assert_eq!(order_newest_first(vec![at("x", 3)]), vec![at("x", 3)]);
}

#[test]
fn white_space_is_what_the_standard_library_takes_for_it() {
    let mut count = 0;
    for v in 0..=0x10ffffu32 {
        if let Some(c) = char::from_u32(v) {
            assert_eq!(is_space(c), c.is_whitespace());
            if is_space(c) {
                count += 1;
            }
        }
    }
    assert_eq!(count, 25);
    assert!(is_space(' '));
    assert!(is_space('\u{3000}'));
    assert!(!is_space('\u{200b}'));
    assert!(!is_space('\u{180e}'));
    assert!(!is_space('a'));
}

#[test]
fn integers_are_written_in_decimal() {
    assert_eq!(u64_text(0), "0");
    assert_eq!(u64_text(9), "9");
    assert_eq!(u64_text(10), "10");
    assert_eq!(u64_text(1_000_000), "1000000");
    assert_eq!(u64_text(u64::MAX), "18446744073709551615");
    assert_eq!(i64_text(0), "0");
    assert_eq!(i64_text(-1), "-1");
    assert_eq!(i64_text(-10), "-10");
    assert_eq!(i64_text(i64::MAX), "9223372036854775807");
    assert_eq!(i64_text(i64::MIN), "-9223372036854775808");
    for v in [0u64, 1, 9, 10, 11, 99, 100, 101, 12_345, 999_999_999, u64::MAX - 1, u64::MAX] {
        assert_eq!(u64_text(v), v.to_string());
    }
    for v in [0i64, 1, -1, 9, -9, 10, -10, 12_345, -12_345, i64::MAX, i64::MIN, i64::MIN + 1] {
        assert_eq!(i64_text(v), v.to_string());
    }
}
