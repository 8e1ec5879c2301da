//! The dispatcher's stated guarantees, proved once over all inputs.

use vstd::prelude::*;

use crate::cmd::spec_parse;
use crate::num::{amount_value, parses_u64};
use crate::valid::{CmdError, GAction, GOutcome, invoice_description_ok,
    lemma_default_description_ok, spec_default_description, spec_dispatch};

verus! {

/// The words the dispatcher recognizes.
pub open spec fn known_command(w: Seq<char>) -> bool {
    w == "listpeers"@ || w == "listchannels"@ || w == "getnewfundingaddress"@
        || w == "openchannel"@ || w == "sendtoaddress"@ || w == "listbalances"@
        || w == "paykeysend"@ || w == "createinvoice"@
}

/// How many positional arguments a command requires; optional arguments do
/// not count.
pub open spec fn required_args(w: Seq<char>) -> nat {
    if w == "openchannel"@ {
        3
    } else if w == "sendtoaddress"@ {
        2
    } else if w == "paykeysend"@ {
        2
    } else {
        0
    }
}

proof fn reveal_command_words()
    ensures
        "listpeers"@.len() == 9,
        "listchannels"@.len() == 12,
        "getnewfundingaddress"@.len() == 20,
        "openchannel"@.len() == 11,
        "sendtoaddress"@.len() == 13,
        "listbalances"@.len() == 12,
        "paykeysend"@.len() == 10,
        "createinvoice"@.len() == 13,
        "listchannels"@ != "listbalances"@,
        "sendtoaddress"@ != "createinvoice"@,
{
    reveal_strlit("listpeers");
    reveal_strlit("listchannels");
    reveal_strlit("getnewfundingaddress");
    reveal_strlit("openchannel");
    reveal_strlit("sendtoaddress");
    reveal_strlit("listbalances");
    reveal_strlit("paykeysend");
    reveal_strlit("createinvoice");
    assert("listchannels"@[4] != "listbalances"@[4]);
    assert("sendtoaddress"@[0] != "createinvoice"@[0]);
}

/// A known command given fewer arguments than it requires is answered with
/// a prompt for the missing ones: no node operation is chosen, no error
/// ends the loop.
pub proof fn lemma_short_args_prompt(t: Seq<Seq<char>>)
    requires
        t.len() > 0,
        known_command(t[0]),
        t.len() <= required_args(t[0]),
    ensures
        spec_parse(t) is Usage,
        spec_dispatch(t) is Reply,
{
    reveal_command_words();
}

/// An empty line is answered with the invalid-command notice: no node
/// operation is chosen, no error ends the loop.
pub proof fn lemma_empty_line_is_inert(t: Seq<Seq<char>>)
    requires
        t.len() == 0,
    ensures
        spec_parse(t) is Invalid,
        spec_dispatch(t) == GOutcome::Reply("Invalid command"@),
{
}

/// A line whose first word is recognized by nothing is likewise inert.
pub proof fn lemma_unknown_word_is_inert(t: Seq<Seq<char>>)
    requires
        t.len() > 0,
        !known_command(t[0]),
    ensures
        spec_parse(t) is Invalid,
        spec_dispatch(t) == GOutcome::Reply("Invalid command"@),
{
}

/// `createinvoice` with no arguments asks for a variable-amount invoice
/// with the default description.
pub proof fn lemma_createinvoice_variable_amount(t: Seq<Seq<char>>)
    requires
        t.len() == 1,
        t[0] == "createinvoice"@,
    ensures
        spec_dispatch(t) == GOutcome::Do(
            GAction::CreateInvoice {
                amount_msat: Option::None,
                description: spec_default_description(),
            },
        ),
{
    reveal_command_words();
    lemma_default_description_ok();
}

/// `createinvoice` with a numeric first argument asks for an invoice of
/// exactly that amount, in millisatoshis; only an unacceptable description
/// of its own can still refuse it.
pub proof fn lemma_createinvoice_exact_amount(t: Seq<Seq<char>>)
    requires
        t.len() >= 2,
        t[0] == "createinvoice"@,
        parses_u64(t[1]),
    ensures
        spec_dispatch(t) matches GOutcome::Do(a) ==> a == (GAction::CreateInvoice {
            amount_msat: Option::Some(amount_value(t[1]) as u64),
            description: if t.len() >= 3 {
                t[2]
            } else {
                spec_default_description()
            },
        }),
        !(spec_dispatch(t) is Do) ==> spec_dispatch(t) == GOutcome::Fail(CmdError::BadDescription),
        t.len() == 2 ==> spec_dispatch(t) is Do,
{
    reveal_command_words();
    lemma_default_description_ok();
}

/// `createinvoice` with a first argument that does not parse as an amount
/// produces no invoice: the malformed amount propagates as an error, unless
/// the description was already refused first.
pub proof fn lemma_createinvoice_bad_amount(t: Seq<Seq<char>>)
    requires
        t.len() >= 2,
        t[0] == "createinvoice"@,
        !parses_u64(t[1]),
    ensures
        spec_dispatch(t) is Fail,
        spec_dispatch(t) == if invoice_description_ok(
            if t.len() >= 3 {
                t[2]
            } else {
                spec_default_description()
            },
        ) {
            GOutcome::Fail(CmdError::BadAmount)
        } else {
            GOutcome::Fail(CmdError::BadDescription)
        },
{
    reveal_command_words();
    lemma_default_description_ok();
}

} // verus!
