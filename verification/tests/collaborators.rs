use auth_core::business_cards::{BusinessCardData, BusinessCardStore};
use auth_core::chatbot::{ChatAction, ChatbotService};
use auth_core::coder::{AutonomousCoderEngine, CodeSpec};
use auth_core::gateway::forward_target;
use auth_core::swap::{build_swap_receipt, supported_tokens, u128_to_hex, usd_rate, SwapService};
use auth_core::transactions::{
    CreateTransactionRequest, TransactionStatus, TransactionStore,
};
use auth_core::wallet::{RegisterWalletRequest, WalletStore};

fn card(name: &str) -> BusinessCardData {
    BusinessCardData {
        name: name.to_string(),
        title: "Engineer".to_string(),
        company: "Acme".to_string(),
        email: "card@example.com".to_string(),
    }
}

#[test]
fn forward_target_assembles_upstream_url() {
    assert_eq!(
        forward_target("http://localhost:8001/", "auth", "google/login", None),
        "http://localhost:8001/auth/google/login"
    );
    assert_eq!(
        forward_target("http://localhost:8002", "/transactions/", "", Some("user=7")),
        "http://localhost:8002/transactions?user=7"
    );
    assert_eq!(
        forward_target("http://svc///", "chat", "message", Some("a=1&b=2")),
        "http://svc/chat/message?a=1&b=2"
    );
}

#[test]
fn transaction_status_codes_round_trip() {
    assert_eq!(TransactionStatus::Pending.as_str(), "pending");
    assert_eq!(TransactionStatus::Confirmed.as_str(), "confirmed");
    assert_eq!(TransactionStatus::Failed.as_str(), "failed");
    assert_eq!(
        TransactionStatus::from_str("confirmed"),
        TransactionStatus::Confirmed
    );
    assert_eq!(TransactionStatus::from_str("failed"), TransactionStatus::Failed);
    assert_eq!(TransactionStatus::from_str("pending"), TransactionStatus::Pending);
    assert_eq!(
        TransactionStatus::from_str("anything-else"),
        TransactionStatus::Pending
    );
    for status in [
        TransactionStatus::Pending,
        TransactionStatus::Confirmed,
        TransactionStatus::Failed,
    ] {
        assert_eq!(TransactionStatus::from_str(status.as_str()), status);
    }
}

#[test]
fn transaction_store_records_updates_and_lists() {
    let mut store = TransactionStore::new();
    let now = 1_700_000_000;
    let rec = store.record_transaction(
        CreateTransactionRequest {
            user_id: 7,
            amount: "1.5".to_string(),
            to_address: "0xabc".to_string(),
        },
        100,
        now,
    );
    assert_eq!(rec.id, 100);
    assert_eq!(rec.status, TransactionStatus::Pending);
    assert_eq!(rec.created_at, now);
    store.record_transaction(
        CreateTransactionRequest {
            user_id: 8,
            amount: "2".to_string(),
            to_address: "0xdef".to_string(),
        },
        101,
        now,
    );

    let updated = store
        .update_status(100, TransactionStatus::Confirmed, now + 5)
        .expect("update");
    assert_eq!(updated.status, TransactionStatus::Confirmed);
    assert_eq!(updated.updated_at, now + 5);
    assert_eq!(updated.created_at, now);
    assert!(store.update_status(999, TransactionStatus::Failed, now).is_none());

    let mine = store.list_by_user(7);
    assert_eq!(mine.len(), 1);
    assert_eq!(mine[0].id, 100);
    assert_eq!(mine[0].status, TransactionStatus::Confirmed);
    assert!(store.list_by_user(9).is_empty());
}

#[test]
fn chatbot_recognizes_swap_intent_with_pair_and_amount() {
    let bot = ChatbotService::new();
    let r = bot.process_message("Please swap 0.5 ETH to USDC now");
    assert_eq!(
        r.response,
        "I'll help you swap 0.5 ETH to USDC. Let me take you to the swap page where you can review the details and confirm the transaction."
    );
    match r.action {
        Some(ChatAction::NavigateToSwap {
            from_token,
            to_token,
            amount,
        }) => {
            assert_eq!(from_token.as_deref(), Some("ETH"));
            assert_eq!(to_token.as_deref(), Some("USDC"));
            assert_eq!(amount.as_deref(), Some("0.5"));
        }
        _ => panic!("expected a swap navigation"),
    }
}

#[test]
fn chatbot_normalizes_amount_words() {
    let bot = ChatbotService::new();
    let padded = bot.process_message("swap 007 eth to usdc");
    match padded.action {
        Some(ChatAction::NavigateToSwap { amount, .. }) => {
            assert_eq!(amount.as_deref(), Some("7"));
        }
        _ => panic!("expected a swap navigation"),
    }
    let fraction = bot.process_message("swap 0.10 eth to usdc");
    match fraction.action {
        Some(ChatAction::NavigateToSwap { amount, .. }) => {
            assert_eq!(amount.as_deref(), Some("0.1"));
        }
        _ => panic!("expected a swap navigation"),
    }
    let bare_dot = bot.process_message("swap .5 eth to usdc");
    match bare_dot.action {
        Some(ChatAction::NavigateToSwap { amount, .. }) => {
            assert_eq!(amount.as_deref(), Some("0.5"));
        }
        _ => panic!("expected a swap navigation"),
    }
    let whole = bot.process_message("swap 2.000 eth to usdc");
    match whole.action {
        Some(ChatAction::NavigateToSwap { amount, .. }) => {
            assert_eq!(amount.as_deref(), Some("2"));
        }
        _ => panic!("expected a swap navigation"),
    }
}

#[test]
fn chatbot_swap_intent_without_pair_invites_to_page() {
    let bot = ChatbotService::new();
    let r = bot.process_message("I want to swap now");
    assert_eq!(
        r.response,
        "I'll take you to the swap page where you can select tokens and enter the amount you'd like to swap."
    );
    match r.action {
        Some(ChatAction::NavigateToSwap {
            from_token,
            to_token,
            amount,
        }) => {
            assert!(from_token.is_none());
            assert!(to_token.is_none());
            assert!(amount.is_none());
        }
        _ => panic!("expected a swap navigation"),
    }
}

#[test]
fn chatbot_matches_remaining_intents_in_order() {
    let bot = ChatbotService::new();

    let tx = bot.process_message("Show my TRANSACTION history");
    assert!(matches!(tx.action, Some(ChatAction::ViewTransactions)));

    let balance = bot.process_message("what is my balance?");
    assert!(matches!(balance.action, Some(ChatAction::ShowBalance)));

    let help = bot.process_message("help me out");
    assert!(help.action.is_none());
    assert!(help.response.starts_with("I can help you with:"));

    let fallback = bot.process_message("good morning");
    assert!(fallback.action.is_none());
    assert!(fallback.response.starts_with("I'm here to help!"));

    let empty = bot.process_message("");
    assert!(empty.action.is_none());
    assert!(empty.response.starts_with("I'm here to help!"));
}

#[test]
fn wallet_store_registers_and_looks_up() {
    let mut store = WalletStore::new();
    let now = 1_700_000_000;
    let w = store.register_wallet(
        RegisterWalletRequest {
            address: "0xabc".to_string(),
            public_key: "pk-1".to_string(),
        },
        now,
    );
    assert_eq!(w.address, "0xabc");
    assert_eq!(w.created_at, now);
    let found = store.get_wallet("0xabc").expect("wallet exists");
    assert_eq!(found.public_key, "pk-1");
    assert!(store.get_wallet("0xmissing").is_none());

    let overwritten = store.register_wallet(
        RegisterWalletRequest {
            address: "0xabc".to_string(),
            public_key: "pk-2".to_string(),
        },
        now + 1,
    );
    assert_eq!(overwritten.public_key, "pk-2");
    assert_eq!(store.get_wallet("0xabc").unwrap().public_key, "pk-2");
}

#[test]
fn business_card_versions_count_up_from_one() {
    let mut store = BusinessCardStore::new();
    let now = 1_700_000_000;
    let v1 = store.create_card(card("Ada"), 1, 10, now);
    assert_eq!(v1.version, 1);
    let v2 = store
        .update_card(1, card("Ada Lovelace"), 11, now + 1)
        .expect("update");
    assert_eq!(v2.version, 2);
    assert_eq!(v2.card_id, 1);

    let history = store.history(1);
    assert_eq!(history.len(), 2);
    assert_eq!(history[0].version, 1);
    assert_eq!(history[0].data.name, "Ada");
    assert_eq!(history[1].version, 2);
    assert_eq!(history[1].data.name, "Ada Lovelace");

    assert!(store.update_card(2, card("Nobody"), 12, now).is_none());
    assert!(store.history(2).is_empty());
}

#[test]
fn swap_catalogue_and_rates_are_fixed() {
    let tokens = supported_tokens();
    assert_eq!(tokens.len(), 5);
    let symbols: Vec<&str> = tokens.iter().map(|t| t.symbol.as_str()).collect();
    assert_eq!(symbols, ["ETH", "USDC", "USDT", "DAI", "WBTC"]);
    assert_eq!(tokens[0].decimals, 18);

    assert_eq!(usd_rate("ETH"), Some(3000));
    assert_eq!(usd_rate("USDC"), Some(1));
    assert_eq!(usd_rate("USDT"), Some(1));
    assert_eq!(usd_rate("DAI"), Some(1));
    assert_eq!(usd_rate("WBTC"), Some(45000));
    assert_eq!(usd_rate("DOGE"), None);
}

#[test]
fn swap_service_exposes_catalogue_rates_and_receipts() {
    let service = SwapService::new();
    let tokens = service.get_supported_tokens();
    assert_eq!(tokens.len(), 5);
    assert_eq!(tokens[4].symbol, "WBTC");
    assert_eq!(service.rate_of("WBTC"), Some(45000));
    assert_eq!(service.rate_of("PEPE"), None);
    let receipt = service.execute_swap("tid-9".to_string(), 16);
    assert_eq!(receipt.tx_hash, "0x10");
}

#[test]
fn transaction_point_lookup_finds_live_record() {
    let mut store = TransactionStore::new();
    let now = 1_700_000_000;
    store.record_transaction(
        CreateTransactionRequest {
            user_id: 7,
            amount: "1".to_string(),
            to_address: "0xabc".to_string(),
        },
        100,
        now,
    );
    store.update_status(100, TransactionStatus::Failed, now + 1);
    let found = store.get_transaction(100).expect("present");
    assert_eq!(found.status, TransactionStatus::Failed);
    assert!(store.get_transaction(101).is_none());
}

#[test]
fn swap_receipt_renders_hash_in_hex() {
    assert_eq!(u128_to_hex(255), "ff");
    assert_eq!(u128_to_hex(0), "0");
    assert_eq!(u128_to_hex(0xdeadbeef), "deadbeef");
    let receipt = build_swap_receipt("tid-1".to_string(), 0xdead_beef);
    assert_eq!(receipt.transaction_id, "tid-1");
    assert_eq!(receipt.tx_hash, "0xdeadbeef");
}

#[test]
fn coder_generates_stub_and_screens_destructive_phrases() {
    let engine = AutonomousCoderEngine;
    let ok = engine.generate(
        CodeSpec {
            description: "add two numbers".to_string(),
            auto_mode: true,
        },
        5,
    );
    assert_eq!(ok.id, 5);
    assert_eq!(ok.code, "// Code stub\n// add two numbers\n");
    assert!(ok.tests_passed);
    assert!(ok.security_passed);

    let destructive = engine.generate(
        CodeSpec {
            description: "run rm -rf on the host".to_string(),
            auto_mode: true,
        },
        6,
    );
    assert!(!destructive.security_passed);

    let manual = engine.generate(
        CodeSpec {
            description: "add two numbers".to_string(),
            auto_mode: false,
        },
        7,
    );
    assert!(!manual.security_passed);
}
