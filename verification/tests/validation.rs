use ln_shell::cmd::Command;
use ln_shell::lex::split_line;
use ln_shell::valid::{dispatch_tokens, validate, Action, CmdError, Outcome};

const GOOD_NODE_ID: &str = "0279be667ef9dcbbac55a06295ce870b07029bfcdb2dce28d959f2815b16f81798";
const TESTNET_ADDR: &str = "tb1qrp33g0q5c5txsp9arysrx4k6zdkfs4nce4xj0gdcccefvpysxf3q0sl5k7";
const MAINNET_ADDR: &str = "bc1qw508d6qejxtdg4y5r3zarvary0c5xw7kv8f3t4";

fn dispatched(line: &str) -> Outcome {
    dispatch_tokens(&split_line(line))
}

#[test]
fn openchannel_bad_node_id_fails_validation() {
    match dispatched("openchannel abc 1.2.3.4:9000 50000") {
        Outcome::Fail(e) => assert_eq!(e, CmdError::BadNodeId),
        _ => panic!("expected validation to refuse the node id"),
    }
}

#[test]
fn openchannel_bad_net_address_fails_validation() {
    let line = format!("openchannel {} ://nope 50000", GOOD_NODE_ID);
    match dispatched(&line) {
        Outcome::Fail(e) => assert_eq!(e, CmdError::BadNetAddress),
        _ => panic!("expected validation to refuse the network address"),
    }
}

#[test]
fn openchannel_valid_arguments_become_an_action() {
    let line = format!("openchannel {} 1.2.3.4:9000 50000", GOOD_NODE_ID);
    match dispatched(&line) {
        Outcome::Do(Action::OpenChannel { node_id, net_addr, amount_sats }) => {
            assert_eq!(node_id, GOOD_NODE_ID);
            assert_eq!(net_addr, "1.2.3.4:9000");
            assert_eq!(amount_sats, 50000);
        },
        _ => panic!("expected an open-channel action"),
    }
}

#[test]
fn openchannel_bad_amount_fails_validation() {
    let line = format!("openchannel {} 1.2.3.4:9000 many", GOOD_NODE_ID);
    match dispatched(&line) {
        Outcome::Fail(e) => assert_eq!(e, CmdError::BadAmount),
        _ => panic!("expected validation to refuse the amount"),
    }
}

#[test]
fn sendtoaddress_garbage_address_fails_validation() {
    match dispatched("sendtoaddress notanaddress 1000") {
        Outcome::Fail(e) => assert_eq!(e, CmdError::BadAddress),
        _ => panic!("expected validation to refuse the address"),
    }
}

#[test]
fn sendtoaddress_wrong_network_fails_validation() {
    let line = format!("sendtoaddress {} 1000", MAINNET_ADDR);
    match dispatched(&line) {
        Outcome::Fail(e) => assert_eq!(e, CmdError::AddressWrongNetwork),
        _ => panic!("expected validation to refuse the network"),
    }
}

#[test]
fn sendtoaddress_testnet_address_is_accepted_for_signet() {
    let line = format!("sendtoaddress {} 1000", TESTNET_ADDR);
    match dispatched(&line) {
        Outcome::Do(Action::SendToAddress { addr, amount_sats }) => {
            assert_eq!(addr, TESTNET_ADDR);
            assert_eq!(amount_sats, 1000);
        },
        _ => panic!("expected a send action"),
    }
}

#[test]
fn paykeysend_checks_amount_before_node_id() {
    match dispatched("paykeysend abc abc") {
        Outcome::Fail(e) => assert_eq!(e, CmdError::BadAmount),
        _ => panic!("expected validation to refuse the amount"),
    }
    match dispatched("paykeysend 1000 abc") {
        Outcome::Fail(e) => assert_eq!(e, CmdError::BadNodeId),
        _ => panic!("expected validation to refuse the node id"),
    }
    let line = format!("paykeysend 1000 {}", GOOD_NODE_ID);
    match dispatched(&line) {
        Outcome::Do(Action::PayKeysend { amount_msat, node_id }) => {
            assert_eq!(amount_msat, 1000);
            assert_eq!(node_id, GOOD_NODE_ID);
        },
        _ => panic!("expected a keysend action"),
    }
}

#[test]
fn createinvoice_without_amount_is_variable() {
    match dispatched("createinvoice") {
        Outcome::Do(Action::CreateInvoice { amount_msat, description }) => {
            assert!(amount_msat.is_none());
            assert_eq!(description, "Lightning invoice");
        },
        _ => panic!("expected an invoice action"),
    }
}

#[test]
fn createinvoice_with_amount_is_exact() {
    match dispatched("createinvoice 2500") {
        Outcome::Do(Action::CreateInvoice { amount_msat, description }) => {
            assert_eq!(amount_msat, Some(2500));
            assert_eq!(description, "Lightning invoice");
        },
        _ => panic!("expected an invoice action"),
    }
    match dispatched("createinvoice 2500 coffee") {
        Outcome::Do(Action::CreateInvoice { amount_msat, description }) => {
            assert_eq!(amount_msat, Some(2500));
            assert_eq!(description, "coffee");
        },
        _ => panic!("expected an invoice action"),
    }
}

#[test]
fn createinvoice_non_numeric_amount_fails_validation() {
    match dispatched("createinvoice lots") {
        Outcome::Fail(e) => assert_eq!(e, CmdError::BadAmount),
        _ => panic!("expected validation to refuse the amount"),
    }
    match dispatched("createinvoice 12a coffee") {
        Outcome::Fail(e) => assert_eq!(e, CmdError::BadAmount),
        _ => panic!("expected validation to refuse the amount"),
    }
}

#[test]
fn amounts_accept_a_leading_plus_sign() {
    match dispatched("createinvoice +5") {
        Outcome::Do(Action::CreateInvoice { amount_msat, description }) => {
            assert_eq!(amount_msat, Some(5));
            assert_eq!(description, "Lightning invoice");
        },
        _ => panic!("expected an invoice action"),
    }
    let line = format!("openchannel {} 1.2.3.4:9000 +50000", GOOD_NODE_ID);
    match dispatched(&line) {
        Outcome::Do(Action::OpenChannel { amount_sats, .. }) => assert_eq!(amount_sats, 50000),
        _ => panic!("expected an open-channel action"),
    }
}

#[test]
fn createinvoice_overlong_description_fails_validation() {
    let long = "a".repeat(640);
    let line = format!("createinvoice 2500 {}", long);
    match dispatched(&line) {
        Outcome::Fail(e) => assert_eq!(e, CmdError::BadDescription),
        _ => panic!("expected validation to refuse the description"),
    }
    let ok = "a".repeat(639);
    let line = format!("createinvoice 2500 {}", ok);
    match dispatched(&line) {
        Outcome::Do(Action::CreateInvoice { amount_msat, description }) => {
            assert_eq!(amount_msat, Some(2500));
            assert_eq!(description, ok);
        },
        _ => panic!("expected an invoice action"),
    }
}

#[test]
fn replies_do_not_reach_validation() {
    match dispatched("") {
        Outcome::Reply(m) => assert_eq!(m, "Invalid command"),
        _ => panic!("expected a reply"),
    }
    match dispatched("openchannel") {
        Outcome::Reply(m) => {
            assert_eq!(m, "Please provide the node ID, network address, and channel amount")
        },
        _ => panic!("expected a reply"),
    }
}

#[test]
fn listbalances_is_a_query_action() {
    assert!(matches!(dispatched("listbalances"), Outcome::Do(Action::ListBalances)));
    assert!(matches!(dispatched("listpeers"), Outcome::Do(Action::ListPeers)));
    assert!(matches!(dispatched("listchannels"), Outcome::Do(Action::ListChannels)));
    assert!(matches!(
        dispatched("getnewfundingaddress"),
        Outcome::Do(Action::GetNewFundingAddress)
    ));
}

#[test]
fn validate_accepts_commands_directly() {
    let r = validate(Command::PayKeysend {
        amount: "7".to_string(),
        node_id: GOOD_NODE_ID.to_string(),
    });
    match r {
        Ok(Action::PayKeysend { amount_msat, .. }) => assert_eq!(amount_msat, 7),
        _ => panic!("expected a keysend action"),
    }
}

#[test]
fn each_error_has_its_diagnostic() {
    assert_eq!(CmdError::BadAmount.message(), "the amount must be a non-negative integer");
    assert_eq!(CmdError::BadNodeId.message(), "the node id is not a valid public key");
    assert_eq!(CmdError::BadNetAddress.message(), "the network address could not be parsed");
    assert_eq!(CmdError::BadAddress.message(), "the address could not be parsed");
    assert_eq!(CmdError::AddressWrongNetwork.message(), "the address is not usable on signet");
    assert_eq!(CmdError::BadDescription.message(), "the invoice description is too long");
}
