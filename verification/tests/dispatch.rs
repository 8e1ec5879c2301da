use ln_shell::cmd::{parse_command, Command, Parsed};
use ln_shell::lex::split_line;

fn words(line: &str) -> Vec<String> {
    split_line(line)
}

#[test]
fn empty_line_is_invalid() {
    assert!(matches!(parse_command(&words("")), Parsed::Invalid));
    assert!(matches!(parse_command(&words("   \t  ")), Parsed::Invalid));
}

#[test]
fn unknown_word_is_invalid() {
    assert!(matches!(parse_command(&words("frobnicate")), Parsed::Invalid));
    assert!(matches!(parse_command(&words("ListPeers")), Parsed::Invalid));
    assert!(matches!(parse_command(&words("listpeers!")), Parsed::Invalid));
}

#[test]
fn zero_argument_commands_parse() {
    assert!(matches!(parse_command(&words("listpeers")), Parsed::Cmd(Command::ListPeers)));
    assert!(matches!(parse_command(&words("listchannels")), Parsed::Cmd(Command::ListChannels)));
    assert!(matches!(
        parse_command(&words("getnewfundingaddress")),
        Parsed::Cmd(Command::GetNewFundingAddress)
    ));
    assert!(matches!(parse_command(&words("listbalances")), Parsed::Cmd(Command::ListBalances)));
}

#[test]
fn openchannel_missing_arguments_prompt() {
    match parse_command(&words("openchannel")) {
        Parsed::Usage(m) => assert_eq!(
            m,
            "Please provide the node ID, network address, and channel amount"
        ),
        _ => panic!("expected a usage prompt"),
    }
    match parse_command(&words("openchannel abc")) {
        Parsed::Usage(m) => assert_eq!(m, "Please provide the network address and channel amount"),
        _ => panic!("expected a usage prompt"),
    }
    match parse_command(&words("openchannel abc 1.2.3.4:9000")) {
        Parsed::Usage(m) => assert_eq!(m, "Please provide the channel amount"),
        _ => panic!("expected a usage prompt"),
    }
}

#[test]
fn openchannel_full_parses() {
    match parse_command(&words("openchannel abc 1.2.3.4:9000 50000")) {
        Parsed::Cmd(Command::OpenChannel { node_id, net_addr, amount }) => {
            assert_eq!(node_id, "abc");
            assert_eq!(net_addr, "1.2.3.4:9000");
            assert_eq!(amount, "50000");
        },
        _ => panic!("expected a complete command"),
    }
}

#[test]
fn sendtoaddress_missing_arguments_prompt() {
    match parse_command(&words("sendtoaddress")) {
        Parsed::Usage(m) => assert_eq!(m, "Please provide the address and sats amount"),
        _ => panic!("expected a usage prompt"),
    }
    match parse_command(&words("sendtoaddress tb1qabc")) {
        Parsed::Usage(m) => assert_eq!(m, "Please provide the sats amount"),
        _ => panic!("expected a usage prompt"),
    }
}

#[test]
fn paykeysend_missing_arguments_prompt() {
    match parse_command(&words("paykeysend")) {
        Parsed::Usage(m) => assert_eq!(m, "Please provide the msat amount"),
        _ => panic!("expected a usage prompt"),
    }
    match parse_command(&words("paykeysend 1000")) {
        Parsed::Usage(m) => assert_eq!(m, "Please provide the node id"),
        _ => panic!("expected a usage prompt"),
    }
}

#[test]
fn createinvoice_argument_shapes() {
    match parse_command(&words("createinvoice")) {
        Parsed::Cmd(Command::CreateInvoice { amount, description }) => {
            assert!(amount.is_none());
            assert!(description.is_none());
        },
        _ => panic!("expected a complete command"),
    }
    match parse_command(&words("createinvoice 2500")) {
        Parsed::Cmd(Command::CreateInvoice { amount, description }) => {
            assert_eq!(amount.as_deref(), Some("2500"));
            assert!(description.is_none());
        },
        _ => panic!("expected a complete command"),
    }
    match parse_command(&words("createinvoice 2500 coffee")) {
        Parsed::Cmd(Command::CreateInvoice { amount, description }) => {
            assert_eq!(amount.as_deref(), Some("2500"));
            assert_eq!(description.as_deref(), Some("coffee"));
        },
        _ => panic!("expected a complete command"),
    }
}

#[test]
fn tokenizing_collapses_whitespace() {
    assert_eq!(words("  listpeers  "), vec!["listpeers".to_string()]);
    assert_eq!(
        words("openchannel\tabc  1.2.3.4:9000\t\t50000"),
        vec![
            "openchannel".to_string(),
            "abc".to_string(),
            "1.2.3.4:9000".to_string(),
            "50000".to_string()
        ]
    );
    assert_eq!(words("\u{a0}a\u{2003}b\u{3000}"), vec!["a".to_string(), "b".to_string()]);
}
