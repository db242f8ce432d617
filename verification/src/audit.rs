//! The audit record of each call: the line that is logged once the call has
//! succeeded.

use vstd::prelude::*;
use vstd::string::*;

use crate::error::{decimal, decimal_text};
use crate::fee::Balance;
use crate::payment::AccountId;

verus! {

/// The record of a request: the payment's identifier, the order, the account
/// that is asked to pay, the fee and the message.
pub open spec fn request_record(
    pay_id: u128,
    order_id: u128,
    user_id: Seq<char>,
    fee: u128,
    msg: Seq<char>,
) -> Seq<char> {
    "Request payment: payment_id: "@ + decimal(pay_id as nat) + ", order_id: "@ + decimal(
        order_id as nat,
    ) + ", account: "@ + user_id + ", fee: "@ + decimal(fee as nat) + ", data: "@ + msg
}

/// The record of a payment being paid.
pub open spec fn pay_record(pay_id: u128) -> Seq<char> {
    "Pay: payment_id: "@ + decimal(pay_id as nat)
}

/// The record of a payment being confirmed.
pub open spec fn confirm_record(pay_id: u128) -> Seq<char> {
    "Confirm: payment_id: "@ + decimal(pay_id as nat)
}

/// The record of a claim: the payment and what is paid out to the shop.
pub open spec fn claim_record(pay_id: u128, amount: u128) -> Seq<char> {
    "Shop claim: payment_id: "@ + decimal(pay_id as nat) + ", amount "@ + decimal(amount as nat)
}

/// The record of a withdrawal: what is handed to the owner.
pub open spec fn withdraw_record(amount: u128) -> Seq<char> {
    "Withdraw: amount "@ + decimal(amount as nat)
}

/// The record of a new fee rate.
pub open spec fn payment_fee_record(payment_fee_percent: u128) -> Seq<char> {
    "Set payment fee: "@ + decimal(payment_fee_percent as nat)
}

/// `label` followed by `n` in base ten.
fn labelled(label: &str, n: u128) -> (text: String)
    ensures
        text@ == label@ + decimal(n as nat),
{
    let mut text = String::from_str(label);
    let number = decimal_text(n);
    text.append(number.as_str());
    text
}

/// Adds `label` and then `n` in base ten to `text`.
fn append_labelled(text: &mut String, label: &str, n: u128)
    ensures
        final(text)@ == old(text)@ + label@ + decimal(n as nat),
{
    text.append(label);
    let number = decimal_text(n);
    text.append(number.as_str());
}

/// The line to log for the request that made the payment `pay_id`.
pub fn request_log(
    pay_id: u128,
    order_id: u128,
    user_id: &AccountId,
    fee: Balance,
    msg: &String,
) -> (text: String)
    ensures
        text@ == request_record(pay_id, order_id, user_id@, fee, msg@),
{
    let mut text = labelled("Request payment: payment_id: ", pay_id);
    append_labelled(&mut text, ", order_id: ", order_id);
    text.append(", account: ");
    text.append(user_id.as_str());
    append_labelled(&mut text, ", fee: ", fee);
    text.append(", data: ");
    text.append(msg.as_str());
    text
}

/// The line to log when the payment `pay_id` was paid.
pub fn pay_log(pay_id: u128) -> (text: String)
    ensures
        text@ == pay_record(pay_id),
{
    labelled("Pay: payment_id: ", pay_id)
}

/// The line to log when the payment `pay_id` was confirmed.
pub fn confirm_log(pay_id: u128) -> (text: String)
    ensures
        text@ == confirm_record(pay_id),
{
    labelled("Confirm: payment_id: ", pay_id)
}

/// The line to log when the payment `pay_id` was claimed and `amount` is paid
/// out to the shop.
pub fn claim_log(pay_id: u128, amount: Balance) -> (text: String)
    ensures
        text@ == claim_record(pay_id, amount),
{
    let mut text = labelled("Shop claim: payment_id: ", pay_id);
    append_labelled(&mut text, ", amount ", amount);
    text
}

/// The line to log when `amount` was withdrawn.
pub fn withdraw_log(amount: Balance) -> (text: String)
    ensures
        text@ == withdraw_record(amount),
{
    labelled("Withdraw: amount ", amount)
}

/// The line to log when the fee rate was set to `payment_fee_percent`.
pub fn payment_fee_log(payment_fee_percent: u128) -> (text: String)
    ensures
        text@ == payment_fee_record(payment_fee_percent),
{
    labelled("Set payment fee: ", payment_fee_percent)
}

} // verus!
