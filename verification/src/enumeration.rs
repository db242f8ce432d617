//! What can be asked of the mediator without changing it.

use vstd::prelude::*;

use crate::payment::{Payment, PaymentJson, PaymentJsonView, PaymentView};
use crate::shop::PaymentShop;

verus! {

/// The mediator in short, as a query shows it.
#[derive(Debug, Clone, Copy, PartialEq, Eq, Structural)]
pub struct PaymentShopJson {
    pub pay_id: u128,
    pub payment_fee_percent: u128,
    pub total_payment: u128,
}

impl PaymentShop {
    /// The payment stored under `pay_id`; where there is none, the empty
    /// payment. Either is shown under the identifier that was asked for.
    pub fn get_payment_info(&self, pay_id: u128) -> (res: PaymentJson)
        ensures
            res@ == PaymentJsonView::of(
                pay_id,
                if self@.payments.contains_key(pay_id) {
                    self@.payments[pay_id]
                } else {
                    PaymentView::empty()
                },
            ),
    {
        let upgradable_payment = self.payments.get(&pay_id);
        let payment = match upgradable_payment {
            Some(item) => Payment::from(item.clone()),
            None => Payment::default(),
        };
        PaymentJson::from(pay_id, payment)
    }

    /// The identifier that was given out last, the fee rate, and the fees
    /// that have come in.
    pub fn get_payment_shop_info(&self) -> (res: PaymentShopJson)
        ensures
            res == (PaymentShopJson {
                pay_id: self@.pay_id,
                payment_fee_percent: self@.payment_fee_percent,
                total_payment: self@.total_payment,
            }),
    {
        PaymentShopJson {
            pay_id: self.pay_id,
            payment_fee_percent: self.payment_fee_percent,
            total_payment: self.total_payment,
        }
    }

    /// The identifier of the payment that the order `order_id` is bound to,
    /// and 0, which no payment has, where it is bound to none.
    pub fn get_payid_from_orderid(&self, order_id: u128) -> (res: u128)
        ensures
            res == if self@.order_ids.contains_key(order_id) {
                self@.order_ids[order_id]
            } else {
                0
            },
    {
        match self.order_ids.get(&order_id) {
            Some(value) => *value,
            None => 0,
        }
    }
}

} // verus!
