//! Rendering of the shell's replies.
//!
//! Every line the shell prints about a node operation is assembled here,
//! pinned to a model of the exact text, so the front end only writes
//! strings out. Values that only the node can produce — an address, a
//! transaction id, an event — arrive already rendered as plain text.

use vstd::prelude::*;

use crate::num::{dec_chars, format_u128, format_u64};

verus! {

/// The three balance totals, one per line, as the `listbalances` reply.
pub open spec fn spec_balances_report(total: nat, spendable: nat, lightning: nat) -> Seq<char> {
    "Total onchain balance: "@ + dec_chars(total) + " sats\nSpendable onchain balance "@
        + dec_chars(spendable) + " sats\nTotal lightning balance "@ + dec_chars(lightning)
        + " sats"@
}

/// Renders the `listbalances` reply.
pub fn balances_report(total_sats: u64, spendable_sats: u64, lightning_sats: u64) -> (r: String)
    ensures
        r@ == spec_balances_report(total_sats as nat, spendable_sats as nat, lightning_sats as nat),
{
    let mut out = String::from_str("Total onchain balance: ");
    out.append(format_u64(total_sats).as_str());
    out.append(" sats\nSpendable onchain balance ");
    out.append(format_u64(spendable_sats).as_str());
    out.append(" sats\nTotal lightning balance ");
    out.append(format_u64(lightning_sats).as_str());
    out.append(" sats");
    proof {
        assert(out@ =~= spec_balances_report(
            total_sats as nat,
            spendable_sats as nat,
            lightning_sats as nat,
        ));
    }
    out
}

/// The `getnewfundingaddress` reply around an already-rendered address.
pub open spec fn spec_funding_address_report(addr: Seq<char>) -> Seq<char> {
    "New funding address: "@ + addr
}

/// Renders the `getnewfundingaddress` reply.
pub fn funding_address_report(addr: &String) -> (r: String)
    ensures
        r@ == spec_funding_address_report(addr@),
{
    let mut out = String::from_str("New funding address: ");
    out.append(addr.as_str());
    out
}

/// The `openchannel` reply for an assigned channel identifier.
pub open spec fn spec_channel_id_report(id: nat) -> Seq<char> {
    "User channel ID: "@ + dec_chars(id)
}

/// Renders the `openchannel` reply.
pub fn channel_id_report(id: u128) -> (r: String)
    ensures
        r@ == spec_channel_id_report(id as nat),
{
    let mut out = String::from_str("User channel ID: ");
    out.append(format_u128(id).as_str());
    out
}

/// The `sendtoaddress` reply around the amount and the already-rendered
/// address and transaction id.
pub open spec fn spec_send_report(amount: nat, addr: Seq<char>, txid: Seq<char>) -> Seq<char> {
    "Sending "@ + dec_chars(amount) + " sats to "@ + addr + " onchain via "@ + txid
}

/// Renders the `sendtoaddress` reply.
pub fn send_report(amount_sats: u64, addr: &String, txid: &String) -> (r: String)
    ensures
        r@ == spec_send_report(amount_sats as nat, addr@, txid@),
{
    let mut out = String::from_str("Sending ");
    out.append(format_u64(amount_sats).as_str());
    out.append(" sats to ");
    out.append(addr.as_str());
    out.append(" onchain via ");
    out.append(txid.as_str());
    proof {
        assert(out@ =~= spec_send_report(amount_sats as nat, addr@, txid@));
    }
    out
}

/// A listing reply: the given lines, or the given notice when there is
/// nothing to list.
pub fn report_lines(lines: Vec<String>, empty_notice: String) -> (r: Vec<String>)
    ensures
        lines@.len() == 0 ==> r.deep_view() =~= seq![empty_notice@],
        lines@.len() > 0 ==> r.deep_view() == lines.deep_view(),
{
    if lines.len() == 0 {
        let mut out: Vec<String> = Vec::new();
        out.push(empty_notice);
        proof {
            assert(out.deep_view() =~= seq![empty_notice@]);
        }
        out
    } else {
        lines
    }
}

/// The notice shown by `listpeers` when no peer is connected.
pub fn no_peers_notice() -> (r: String)
    ensures
        r@ == "No connected peers"@,
{
    String::from_str("No connected peers")
}

/// The notice shown by `listchannels` when no channel is known.
pub fn no_channels_notice() -> (r: String)
    ensures
        r@ == "No known channels"@,
{
    String::from_str("No known channels")
}

} // verus!
