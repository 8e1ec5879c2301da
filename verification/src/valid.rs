//! The command dispatcher's second stage: argument validation.
//!
//! A complete [`Command`] still carries raw token text. This stage checks
//! every argument before any node operation is chosen: amounts must be
//! non-negative integers, node identifiers must decode as public keys,
//! network addresses must parse, on-chain addresses must parse and belong to
//! the signet network the shell runs on, and invoice descriptions must be
//! short enough to encode. Only a command whose arguments all pass turns
//! into an [`Action`], the one node operation the front end is to perform.
//! The checks themselves are the node library's own parsers, reached through
//! the trusted items below; everything around them is pinned to
//! [`spec_validate`].

use vstd::prelude::*;

use crate::cmd::{Command, GCommand, GParsed, Parsed, invalid_command_message, parse_command,
    spec_parse};
use crate::num::{amount_value, parse_u64, parses_u64};
use vstd::utf8::encode_utf8;

verus! {

/// Whether secp256k1 accepts the text as a public key; a property of the
/// text alone.
pub uninterp spec fn node_id_ok(s: Seq<char>) -> bool;

/// Whether the text parses as a peer network address; a property of the
/// text alone.
pub uninterp spec fn net_address_ok(s: Seq<char>) -> bool;

/// Whether the text parses as a Bitcoin address of any network; a property
/// of the text alone.
pub uninterp spec fn chain_address_parses(s: Seq<char>) -> bool;

/// Whether the text, besides parsing, is usable on the signet network; a
/// property of the text alone.
pub uninterp spec fn chain_address_on_signet(s: Seq<char>) -> bool;

/// Whether the text is acceptable as a BOLT11 invoice description: its
/// UTF-8 encoding must be at most 639 bytes, the most the field can carry.
pub open spec fn invoice_description_ok(s: Seq<char>) -> bool {
    encode_utf8(s).len() <= 639
}

/// A character encodes to at most four bytes, so a sequence encodes to at
/// most four bytes per character.
proof fn lemma_encode_utf8_len_le(s: Seq<char>)
    ensures
        encode_utf8(s).len() <= 4 * s.len(),
    decreases s.len(),
{
    if s.len() > 0 {
        assert(vstd::utf8::encode_scalar(s[0] as u32).len() <= 4);
        lemma_encode_utf8_len_le(s.drop_first());
    }
}

/// The default description is itself acceptable, so `createinvoice` without
/// one is never refused on its account.
pub proof fn lemma_default_description_ok()
    ensures
        invoice_description_ok(spec_default_description()),
{
    reveal_strlit("Lightning invoice");
    assert(spec_default_description().len() == 17);
    lemma_encode_utf8_len_le(spec_default_description());
}

/// Relies on secp256k1's `PublicKey::from_str` (reached through the node
/// library's re-export): whether a string decodes as a compressed or
/// uncompressed public key depends on the string alone.
#[verifier::external_body]
fn check_node_id(s: &str) -> (r: bool)
    ensures
        r == node_id_ok(s@),
{
    <ldk_node::bitcoin::secp256k1::PublicKey as std::str::FromStr>::from_str(s).is_ok()
}

/// Relies on the lightning crate's `SocketAddress::from_str`: whether a
/// string parses as a peer network address depends on the string alone.
#[verifier::external_body]
fn check_net_address(s: &str) -> (r: bool)
    ensures
        r == net_address_ok(s@),
{
    <ldk_node::lightning::ln::msgs::SocketAddress as std::str::FromStr>::from_str(s).is_ok()
}

/// The two ways an on-chain address argument can be refused.
enum AddrCheck {
    /// Not an address at all.
    Unparsable,
    /// An address, but of some other network than signet.
    WrongNetwork,
    /// An address usable on signet.
    Usable,
}

/// Relies on the bitcoin crate's `Address::from_str`, then
/// `Address::require_network(Network::Signet)`, the network this shell is
/// fixed to: both verdicts depend on the string alone.
#[verifier::external_body]
fn check_chain_address(s: &str) -> (r: AddrCheck)
    ensures
        (r is Unparsable) == !chain_address_parses(s@),
        (r is WrongNetwork) == (chain_address_parses(s@) && !chain_address_on_signet(s@)),
        (r is Usable) == (chain_address_parses(s@) && chain_address_on_signet(s@)),
{
    match <ldk_node::bitcoin::Address<_> as std::str::FromStr>::from_str(s) {
        Err(_) => AddrCheck::Unparsable,
        Ok(a) => match a.require_network(ldk_node::bitcoin::Network::Signet) {
            Err(_) => AddrCheck::WrongNetwork,
            Ok(_) => AddrCheck::Usable,
        },
    }
}

/// Relies on lightning-invoice's `Description::new`: it accepts a
/// description exactly when its UTF-8 encoding is at most 639 bytes.
#[verifier::external_body]
fn check_invoice_description(s: &str) -> (r: bool)
    ensures
        r == invoice_description_ok(s@),
{
    ldk_node::lightning_invoice::Description::new(s.to_owned()).is_ok()
}

/// One fully validated node operation, ready to be performed.
pub enum Action {
    ListPeers,
    ListChannels,
    GetNewFundingAddress,
    ListBalances,
    OpenChannel { node_id: String, net_addr: String, amount_sats: u64 },
    SendToAddress { addr: String, amount_sats: u64 },
    PayKeysend { amount_msat: u64, node_id: String },
    CreateInvoice { amount_msat: Option<u64>, description: String },
}

/// The mathematical image of an [`Action`].
pub enum GAction {
    ListPeers,
    ListChannels,
    GetNewFundingAddress,
    ListBalances,
    OpenChannel { node_id: Seq<char>, net_addr: Seq<char>, amount_sats: u64 },
    SendToAddress { addr: Seq<char>, amount_sats: u64 },
    PayKeysend { amount_msat: u64, node_id: Seq<char> },
    CreateInvoice { amount_msat: Option<u64>, description: Seq<char> },
}

impl View for Action {
    type V = GAction;

    open spec fn view(&self) -> GAction {
        match self {
            Action::ListPeers => GAction::ListPeers,
            Action::ListChannels => GAction::ListChannels,
            Action::GetNewFundingAddress => GAction::GetNewFundingAddress,
            Action::ListBalances => GAction::ListBalances,
            Action::OpenChannel { node_id, net_addr, amount_sats } => GAction::OpenChannel {
                node_id: node_id@,
                net_addr: net_addr@,
                amount_sats: *amount_sats,
            },
            Action::SendToAddress { addr, amount_sats } => GAction::SendToAddress {
                addr: addr@,
                amount_sats: *amount_sats,
            },
            Action::PayKeysend { amount_msat, node_id } => GAction::PayKeysend {
                amount_msat: *amount_msat,
                node_id: node_id@,
            },
            Action::CreateInvoice { amount_msat, description } => GAction::CreateInvoice {
                amount_msat: *amount_msat,
                description: description@,
            },
        }
    }
}

/// Why a complete command was nevertheless refused. Any of these ends the
/// read loop, as a malformed argument does in the original design.
#[derive(Clone, Copy, PartialEq, Eq, Structural, Debug)]
pub enum CmdError {
    BadAmount,
    BadNodeId,
    BadNetAddress,
    BadAddress,
    AddressWrongNetwork,
    BadDescription,
}

/// The diagnostic for each way a command is refused.
pub open spec fn spec_message(e: CmdError) -> Seq<char> {
    match e {
        CmdError::BadAmount => "the amount must be a non-negative integer"@,
        CmdError::BadNodeId => "the node id is not a valid public key"@,
        CmdError::BadNetAddress => "the network address could not be parsed"@,
        CmdError::BadAddress => "the address could not be parsed"@,
        CmdError::AddressWrongNetwork => "the address is not usable on signet"@,
        CmdError::BadDescription => "the invoice description is too long"@,
    }
}

impl CmdError {
    /// The diagnostic shown when this error ends the read loop.
    pub fn message(&self) -> (r: String)
        ensures
            r@ == spec_message(*self),
    {
        match self {
            CmdError::BadAmount => String::from_str("the amount must be a non-negative integer"),
            CmdError::BadNodeId => String::from_str("the node id is not a valid public key"),
            CmdError::BadNetAddress => String::from_str(
                "the network address could not be parsed",
            ),
            CmdError::BadAddress => String::from_str("the address could not be parsed"),
            CmdError::AddressWrongNetwork => String::from_str(
                "the address is not usable on signet",
            ),
            CmdError::BadDescription => String::from_str("the invoice description is too long"),
        }
    }
}

/// The description used when `createinvoice` is given none.
pub open spec fn spec_default_description() -> Seq<char> {
    "Lightning invoice"@
}

/// What validation makes of each complete command.
pub open spec fn spec_validate(c: GCommand) -> Result<GAction, CmdError> {
    match c {
        GCommand::ListPeers => Ok(GAction::ListPeers),
        GCommand::ListChannels => Ok(GAction::ListChannels),
        GCommand::GetNewFundingAddress => Ok(GAction::GetNewFundingAddress),
        GCommand::ListBalances => Ok(GAction::ListBalances),
        GCommand::OpenChannel { node_id, net_addr, amount } => {
            if !node_id_ok(node_id) {
                Err(CmdError::BadNodeId)
            } else if !net_address_ok(net_addr) {
                Err(CmdError::BadNetAddress)
            } else if !parses_u64(amount) {
                Err(CmdError::BadAmount)
            } else {
                Ok(
                    GAction::OpenChannel {
                        node_id,
                        net_addr,
                        amount_sats: amount_value(amount) as u64,
                    },
                )
            }
        },
        GCommand::SendToAddress { addr, amount } => {
            if !chain_address_parses(addr) {
                Err(CmdError::BadAddress)
            } else if !chain_address_on_signet(addr) {
                Err(CmdError::AddressWrongNetwork)
            } else if !parses_u64(amount) {
                Err(CmdError::BadAmount)
            } else {
                Ok(GAction::SendToAddress { addr, amount_sats: amount_value(amount) as u64 })
            }
        },
        GCommand::PayKeysend { amount, node_id } => {
            if !parses_u64(amount) {
                Err(CmdError::BadAmount)
            } else if !node_id_ok(node_id) {
                Err(CmdError::BadNodeId)
            } else {
                Ok(GAction::PayKeysend { amount_msat: amount_value(amount) as u64, node_id })
            }
        },
        GCommand::CreateInvoice { amount, description } => {
            let desc = match description {
                Option::Some(d) => d,
                Option::None => spec_default_description(),
            };
            if !invoice_description_ok(desc) {
                Err(CmdError::BadDescription)
            } else {
                match amount {
                    Option::Some(a) => if parses_u64(a) {
                        Ok(
                            GAction::CreateInvoice {
                                amount_msat: Option::Some(amount_value(a) as u64),
                                description: desc,
                            },
                        )
                    } else {
                        Err(CmdError::BadAmount)
                    },
                    Option::None => Ok(
                        GAction::CreateInvoice { amount_msat: Option::None, description: desc },
                    ),
                }
            }
        },
    }
}

/// The image of a validation result.
pub open spec fn res_view(r: Result<Action, CmdError>) -> Result<GAction, CmdError> {
    match r {
        Ok(a) => Ok(a@),
        Err(e) => Err(e),
    }
}

/// The second dispatch stage: every argument is checked here, before any
/// node operation is chosen; a failure names the first bad argument in the
/// order the original checks them.
pub fn validate(c: Command) -> (r: Result<Action, CmdError>)
    ensures
        res_view(r) == spec_validate(c@),
{
    match c {
        Command::ListPeers => Ok(Action::ListPeers),
        Command::ListChannels => Ok(Action::ListChannels),
        Command::GetNewFundingAddress => Ok(Action::GetNewFundingAddress),
        Command::ListBalances => Ok(Action::ListBalances),
        Command::OpenChannel { node_id, net_addr, amount } => {
            if !check_node_id(node_id.as_str()) {
                Err(CmdError::BadNodeId)
            } else if !check_net_address(net_addr.as_str()) {
                Err(CmdError::BadNetAddress)
            } else {
                match parse_u64(amount.as_str()) {
                    Option::None => Err(CmdError::BadAmount),
                    Option::Some(amount_sats) => Ok(
                        Action::OpenChannel { node_id, net_addr, amount_sats },
                    ),
                }
            }
        },
        Command::SendToAddress { addr, amount } => {
            match check_chain_address(addr.as_str()) {
                AddrCheck::Unparsable => Err(CmdError::BadAddress),
                AddrCheck::WrongNetwork => Err(CmdError::AddressWrongNetwork),
                AddrCheck::Usable => match parse_u64(amount.as_str()) {
                    Option::None => Err(CmdError::BadAmount),
                    Option::Some(amount_sats) => Ok(Action::SendToAddress { addr, amount_sats }),
                },
            }
        },
        Command::PayKeysend { amount, node_id } => {
            match parse_u64(amount.as_str()) {
                Option::None => Err(CmdError::BadAmount),
                Option::Some(amount_msat) => {
                    if !check_node_id(node_id.as_str()) {
                        Err(CmdError::BadNodeId)
                    } else {
                        Ok(Action::PayKeysend { amount_msat, node_id })
                    }
                },
            }
        },
        Command::CreateInvoice { amount, description } => {
            let desc = match description {
                Option::Some(d) => d,
                Option::None => String::from_str("Lightning invoice"),
            };
            if !check_invoice_description(desc.as_str()) {
                Err(CmdError::BadDescription)
            } else {
                match amount {
                    Option::Some(a) => match parse_u64(a.as_str()) {
                        Option::Some(v) => Ok(
                            Action::CreateInvoice {
                                amount_msat: Option::Some(v),
                                description: desc,
                            },
                        ),
                        Option::None => Err(CmdError::BadAmount),
                    },
                    Option::None => Ok(
                        Action::CreateInvoice { amount_msat: Option::None, description: desc },
                    ),
                }
            }
        },
    }
}

/// What the whole dispatcher makes of a line: a reply to print, an action
/// to perform, or an error that ends the read loop.
pub enum Outcome {
    Reply(String),
    Do(Action),
    Fail(CmdError),
}

/// The mathematical image of an [`Outcome`].
pub enum GOutcome {
    Reply(Seq<char>),
    Do(GAction),
    Fail(CmdError),
}

impl View for Outcome {
    type V = GOutcome;

    open spec fn view(&self) -> GOutcome {
        match self {
            Outcome::Reply(m) => GOutcome::Reply(m@),
            Outcome::Do(a) => GOutcome::Do(a@),
            Outcome::Fail(e) => GOutcome::Fail(*e),
        }
    }
}

/// Both dispatcher stages composed over one token sequence.
pub open spec fn spec_dispatch(t: Seq<Seq<char>>) -> GOutcome {
    match spec_parse(t) {
        GParsed::Invalid => GOutcome::Reply("Invalid command"@),
        GParsed::Usage(m) => GOutcome::Reply(m),
        GParsed::Cmd(c) => match spec_validate(c) {
            Ok(a) => GOutcome::Do(a),
            Err(e) => GOutcome::Fail(e),
        },
    }
}

/// Turns one tokenized line into exactly one reply, action, or error.
pub fn dispatch_tokens(words: &Vec<String>) -> (r: Outcome)
    ensures
        r@ == spec_dispatch(words.deep_view()),
{
    match parse_command(words) {
        Parsed::Invalid => Outcome::Reply(invalid_command_message()),
        Parsed::Usage(m) => Outcome::Reply(m),
        Parsed::Cmd(c) => match validate(c) {
            Ok(a) => Outcome::Do(a),
            Err(e) => Outcome::Fail(e),
        },
    }
}

} // verus!
