//! The command dispatcher's first stage: from a tokenized line to a command.
//!
//! A line is a sequence of whitespace-separated tokens; the first token picks
//! the command and the rest are its positional arguments. This stage checks
//! only the shape of the line: an empty or unrecognized line is refused
//! outright, a recognized command with too few arguments earns a prompt that
//! names what is missing, and only a complete command is handed on to
//! argument validation. The whole stage is pinned to the model function
//! [`spec_parse`].

use vstd::prelude::*;

verus! {

/// A complete command, with its arguments still as raw token text.
pub enum Command {
    ListPeers,
    ListChannels,
    GetNewFundingAddress,
    ListBalances,
    OpenChannel { node_id: String, net_addr: String, amount: String },
    SendToAddress { addr: String, amount: String },
    PayKeysend { amount: String, node_id: String },
    CreateInvoice { amount: Option<String>, description: Option<String> },
}

/// The mathematical image of a [`Command`]: tokens as character sequences.
pub enum GCommand {
    ListPeers,
    ListChannels,
    GetNewFundingAddress,
    ListBalances,
    OpenChannel { node_id: Seq<char>, net_addr: Seq<char>, amount: Seq<char> },
    SendToAddress { addr: Seq<char>, amount: Seq<char> },
    PayKeysend { amount: Seq<char>, node_id: Seq<char> },
    CreateInvoice { amount: Option<Seq<char>>, description: Option<Seq<char>> },
}

impl View for Command {
    type V = GCommand;

    open spec fn view(&self) -> GCommand {
        match self {
            Command::ListPeers => GCommand::ListPeers,
            Command::ListChannels => GCommand::ListChannels,
            Command::GetNewFundingAddress => GCommand::GetNewFundingAddress,
            Command::ListBalances => GCommand::ListBalances,
            Command::OpenChannel { node_id, net_addr, amount } => GCommand::OpenChannel {
                node_id: node_id@,
                net_addr: net_addr@,
                amount: amount@,
            },
            Command::SendToAddress { addr, amount } => GCommand::SendToAddress {
                addr: addr@,
                amount: amount@,
            },
            Command::PayKeysend { amount, node_id } => GCommand::PayKeysend {
                amount: amount@,
                node_id: node_id@,
            },
            Command::CreateInvoice { amount, description } => GCommand::CreateInvoice {
                amount: amount.deep_view(),
                description: description.deep_view(),
            },
        }
    }
}

/// What the first stage makes of a line.
pub enum Parsed {
    /// Empty line or unknown command word: report, change nothing.
    Invalid,
    /// Known command, too few arguments: prompt for what is missing.
    Usage(String),
    /// A complete command, ready for argument validation.
    Cmd(Command),
}

/// The mathematical image of a [`Parsed`].
pub enum GParsed {
    Invalid,
    Usage(Seq<char>),
    Cmd(GCommand),
}

impl View for Parsed {
    type V = GParsed;

    open spec fn view(&self) -> GParsed {
        match self {
            Parsed::Invalid => GParsed::Invalid,
            Parsed::Usage(m) => GParsed::Usage(m@),
            Parsed::Cmd(c) => GParsed::Cmd(c@),
        }
    }
}

/// What the dispatcher makes of each possible token sequence.
pub open spec fn spec_parse(t: Seq<Seq<char>>) -> GParsed {
    if t.len() == 0 {
        GParsed::Invalid
    } else if t[0] == "listpeers"@ {
        GParsed::Cmd(GCommand::ListPeers)
    } else if t[0] == "listchannels"@ {
        GParsed::Cmd(GCommand::ListChannels)
    } else if t[0] == "getnewfundingaddress"@ {
        GParsed::Cmd(GCommand::GetNewFundingAddress)
    } else if t[0] == "openchannel"@ {
        if t.len() < 2 {
            GParsed::Usage("Please provide the node ID, network address, and channel amount"@)
        } else if t.len() < 3 {
            GParsed::Usage("Please provide the network address and channel amount"@)
        } else if t.len() < 4 {
            GParsed::Usage("Please provide the channel amount"@)
        } else {
            GParsed::Cmd(GCommand::OpenChannel { node_id: t[1], net_addr: t[2], amount: t[3] })
        }
    } else if t[0] == "sendtoaddress"@ {
        if t.len() < 2 {
            GParsed::Usage("Please provide the address and sats amount"@)
        } else if t.len() < 3 {
            GParsed::Usage("Please provide the sats amount"@)
        } else {
            GParsed::Cmd(GCommand::SendToAddress { addr: t[1], amount: t[2] })
        }
    } else if t[0] == "listbalances"@ {
        GParsed::Cmd(GCommand::ListBalances)
    } else if t[0] == "paykeysend"@ {
        if t.len() < 2 {
            GParsed::Usage("Please provide the msat amount"@)
        } else if t.len() < 3 {
            GParsed::Usage("Please provide the node id"@)
        } else {
            GParsed::Cmd(GCommand::PayKeysend { amount: t[1], node_id: t[2] })
        }
    } else if t[0] == "createinvoice"@ {
        GParsed::Cmd(GCommand::CreateInvoice {
            amount: if t.len() >= 2 {
                Option::Some(t[1])
            } else {
                Option::None
            },
            description: if t.len() >= 3 {
                Option::Some(t[2])
            } else {
                Option::None
            },
        })
    } else {
        GParsed::Invalid
    }
}

/// Whether `t[0]` equals `w` as text.
fn token_is(t: &String, w: &str) -> (r: bool)
    ensures
        r == (t@ == w@),
{
    let lw = String::from_str(w);
    t.eq(&lw)
}

/// The first dispatch stage: token shape only, no argument is interpreted.
pub fn parse_command(words: &Vec<String>) -> (r: Parsed)
    ensures
        r@ == spec_parse(words.deep_view()),
{
    let ghost t = words.deep_view();
    proof {
        assert(t.len() == words@.len());
        assert(forall|i: int| 0 <= i < t.len() ==> t[i] == words@[i]@);
    }
    if words.len() == 0 {
        return Parsed::Invalid;
    }
    let head = &words[0];
    if token_is(head, "listpeers") {
        Parsed::Cmd(Command::ListPeers)
    } else if token_is(head, "listchannels") {
        Parsed::Cmd(Command::ListChannels)
    } else if token_is(head, "getnewfundingaddress") {
        Parsed::Cmd(Command::GetNewFundingAddress)
    } else if token_is(head, "openchannel") {
        if words.len() < 2 {
            Parsed::Usage(
                String::from_str("Please provide the node ID, network address, and channel amount"),
            )
        } else if words.len() < 3 {
            Parsed::Usage(String::from_str("Please provide the network address and channel amount"))
        } else if words.len() < 4 {
            Parsed::Usage(String::from_str("Please provide the channel amount"))
        } else {
            Parsed::Cmd(
                Command::OpenChannel {
                    node_id: words[1].clone(),
                    net_addr: words[2].clone(),
                    amount: words[3].clone(),
                },
            )
        }
    } else if token_is(head, "sendtoaddress") {
        if words.len() < 2 {
            Parsed::Usage(String::from_str("Please provide the address and sats amount"))
        } else if words.len() < 3 {
            Parsed::Usage(String::from_str("Please provide the sats amount"))
        } else {
            Parsed::Cmd(
                Command::SendToAddress { addr: words[1].clone(), amount: words[2].clone() },
            )
        }
    } else if token_is(head, "listbalances") {
        Parsed::Cmd(Command::ListBalances)
    } else if token_is(head, "paykeysend") {
        if words.len() < 2 {
            Parsed::Usage(String::from_str("Please provide the msat amount"))
        } else if words.len() < 3 {
            Parsed::Usage(String::from_str("Please provide the node id"))
        } else {
            Parsed::Cmd(Command::PayKeysend { amount: words[1].clone(), node_id: words[2].clone() })
        }
    } else if token_is(head, "createinvoice") {
        let amount = if words.len() >= 2 {
            Option::Some(words[1].clone())
        } else {
            Option::None
        };
        let description = if words.len() >= 3 {
            Option::Some(words[2].clone())
        } else {
            Option::None
        };
        Parsed::Cmd(Command::CreateInvoice { amount, description })
    } else {
        Parsed::Invalid
    }
}

/// The message shown for an empty or unrecognized line.
pub fn invalid_command_message() -> (r: String)
    ensures
        r@ == "Invalid command"@,
{
    String::from_str("Invalid command")
}

} // verus!
