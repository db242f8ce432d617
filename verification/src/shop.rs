//! The mediator: the payments it holds, the fees it has taken, and the calls
//! that move a payment from request to claim.

use std::collections::HashMap;
use vstd::prelude::*;

use crate::error::ShopError;
use crate::fee::{payment_fee_amount, Balance};
use crate::model::{lemma_call_keeps_well_formed, Call, ShopView, ONE_YOCTO};
use crate::payment::{AccountId, Payment, PaymentView, Status, UpgradePayment};

verus! {

/// The mediator. Every call that changes it names the caller and the deposit
/// attached to the call; a call that is turned down changes nothing.
pub struct PaymentShop {
    pub owner_id: AccountId,
    pub pay_id: u128,
    pub payment_fee_percent: u128,
    pub total_payment: Balance,
    pub total_payment_withdraw: Balance,
    pub payments: HashMap<u128, UpgradePayment>,
    pub order_ids: HashMap<u128, u128>,
}

/// An amount that a call has made due to an account. The mediator only says
/// what is owed; to move the value is left to the one who made the call.
#[derive(Debug, PartialEq, Eq)]
pub struct Transfer {
    pub receiver_id: AccountId,
    pub amount: Balance,
}

/// What a [`Transfer`] holds, with the account as the sequence of its
/// characters.
#[verifier::ext_equal]
pub struct TransferView {
    pub receiver_id: Seq<char>,
    pub amount: u128,
}

impl View for Transfer {
    type V = TransferView;

    open spec fn view(&self) -> TransferView {
        TransferView { receiver_id: self.receiver_id@, amount: self.amount }
    }
}

/// The payments of a store, each in the present layout and as its view.
pub open spec fn stored_payments(payments: Map<u128, UpgradePayment>) -> Map<u128, PaymentView> {
    payments.map_values(|stored: UpgradePayment| stored@)
}

/// Storing a payment adds its view to the views of the store.
proof fn lemma_stored_payments_insert(
    payments: Map<u128, UpgradePayment>,
    pay_id: u128,
    stored: UpgradePayment,
)
    ensures
        stored_payments(payments.insert(pay_id, stored)) == stored_payments(payments).insert(
            pay_id,
            stored@,
        ),
{
    assert(stored_payments(payments.insert(pay_id, stored)) =~= stored_payments(payments).insert(
        pay_id,
        stored@,
    ));
}

impl View for PaymentShop {
    type V = ShopView;

    open spec fn view(&self) -> ShopView {
        ShopView {
            owner_id: self.owner_id@,
            pay_id: self.pay_id,
            payment_fee_percent: self.payment_fee_percent,
            total_payment: self.total_payment,
            total_payment_withdraw: self.total_payment_withdraw,
            payments: stored_payments(self.payments@),
            order_ids: self.order_ids@,
        }
    }
}

impl PaymentShop {
    /// A mediator owned by `owner_id` that keeps `payment_fee_percent` of
    /// every [`crate::fee::DECIMALS`] claimed, with no payment yet.
    pub fn new(owner_id: AccountId, payment_fee_percent: u128) -> (shop: Self)
        requires
            payment_fee_percent > 0,
        ensures
            shop@ == ShopView::init(owner_id@, payment_fee_percent),
            shop@.wf(),
    {
        let shop = PaymentShop {
            owner_id,
            pay_id: 0,
            payment_fee_percent,
            total_payment: 0,
            total_payment_withdraw: 0,
            payments: HashMap::new(),
            order_ids: HashMap::new(),
        };
        assert(shop@.payments =~= Map::empty());
        shop
    }

    /// The payment stored under `pay_id`, in the present layout.
    fn load(&self, pay_id: u128) -> (res: Option<Payment>)
        ensures
            res is Some <==> self@.payments.contains_key(pay_id),
            res matches Some(payment) ==> payment@ == self@.payments[pay_id],
    {
        match self.payments.get(&pay_id) {
            Some(stored) => Some(Payment::from(stored.clone())),
            None => None,
        }
    }

    /// Puts `payment` in the place of what is stored under `pay_id`.
    fn store(&mut self, pay_id: u128, payment: Payment)
        ensures
            final(self)@ == (ShopView {
                payments: old(self)@.payments.insert(pay_id, payment@),
                ..old(self)@
            }),
    {
        proof {
            lemma_stored_payments_insert(self.payments@, pay_id, UpgradePayment::Current(payment));
        }
        self.payments.insert(pay_id, UpgradePayment::from(payment));
    }

    /// The caller, a shop, asks `user_id` to pay `fee` for its order
    /// `order_id`, and gets the identifier of the new payment. The call is
    /// turned down where the order is already bound to a payment, and where
    /// it carries no deposit.
    pub fn req_payment(
        &mut self,
        caller: AccountId,
        attached_deposit: Balance,
        order_id: u128,
        user_id: AccountId,
        msg: String,
        fee: Balance,
    ) -> (res: Result<u128, ShopError>)
        ensures
            match old(self)@.req_payment(caller@, attached_deposit, order_id, user_id@, msg@, fee) {
                Ok(next) => res == Ok::<u128, ShopError>(next.pay_id) && final(self)@ == next,
                Err(error) => res == Err::<u128, ShopError>(error) && final(self)@ == old(self)@,
            },
            old(self)@.wf() ==> final(self)@.wf(),
    {
        proof {
            if self@.wf() {
                lemma_call_keeps_well_formed(
                    self@,
                    caller@,
                    attached_deposit,
                    (Call::ReqPayment { order_id, user_id: user_id@, msg: msg@, fee }),
                );
            }
        }
        let pay_id_for_order = self.order_ids.get(&order_id);
        if pay_id_for_order.is_some() {
            return Err(ShopError::DuplicateOrder);
        }
        if attached_deposit < ONE_YOCTO {
            return Err(ShopError::InsufficientFunds { required: ONE_YOCTO });
        }
        if self.pay_id == u128::MAX {
            return Err(ShopError::Overflow);
        }
        let pay_id: u128 = self.pay_id + 1;
        let payment = Payment {
            payment_id: pay_id,
            order_id,
            shop: caller,
            user: user_id,
            msg,
            fee,
            status: Status::REQUESTING,
        };
        self.store(pay_id, payment);
        self.order_ids.insert(order_id, pay_id);
        self.pay_id = pay_id;
        Ok(pay_id)
    }

    /// The caller pays the payment `pay_id`, which it was asked for and has
    /// not paid yet. The deposit must cover the fee; the mediator keeps all
    /// of it, also what is above the fee.
    pub fn pay(&mut self, caller: AccountId, attached_deposit: Balance, pay_id: u128) -> (res:
        Result<(), ShopError>)
        ensures
            match old(self)@.pay(caller@, attached_deposit, pay_id) {
                Ok(next) => res is Ok && final(self)@ == next,
                Err(error) => res == Err::<(), ShopError>(error) && final(self)@ == old(self)@,
            },
            old(self)@.wf() ==> final(self)@.wf(),
    {
        proof {
            if self@.wf() {
                lemma_call_keeps_well_formed(self@, caller@, attached_deposit, (Call::Pay { pay_id }));
            }
        }
        let mut payment = match self.load(pay_id) {
            Some(payment) => payment,
            None => {
                return Err(ShopError::NotFound);
            },
        };
        if payment.status != Status::REQUESTING {
            return Err(ShopError::InvalidState);
        }
        if attached_deposit < payment.fee {
            return Err(ShopError::InsufficientFunds { required: payment.fee });
        }
        if caller != payment.user {
            return Err(ShopError::AccessDenied);
        }
        payment.status = Status::PAID;
        self.store(pay_id, payment);
        Ok(())
    }

    /// The caller confirms the payment `pay_id`, which has been paid. Only
    /// the user who paid and the owner of the mediator may do so.
    pub fn confirm(&mut self, caller: AccountId, attached_deposit: Balance, pay_id: u128) -> (res:
        Result<(), ShopError>)
        ensures
            match old(self)@.confirm(caller@, attached_deposit, pay_id) {
                Ok(next) => res is Ok && final(self)@ == next,
                Err(error) => res == Err::<(), ShopError>(error) && final(self)@ == old(self)@,
            },
            old(self)@.wf() ==> final(self)@.wf(),
    {
        proof {
            if self@.wf() {
                lemma_call_keeps_well_formed(self@, caller@, attached_deposit, (Call::Confirm { pay_id }));
            }
        }
        if attached_deposit < ONE_YOCTO {
            return Err(ShopError::InsufficientFunds { required: ONE_YOCTO });
        }
        let mut payment = match self.load(pay_id) {
            Some(payment) => payment,
            None => {
                return Err(ShopError::NotFound);
            },
        };
        if payment.status != Status::PAID {
            return Err(ShopError::InvalidState);
        }
        if caller != payment.user && caller != self.owner_id {
            return Err(ShopError::AccessDenied);
        }
        payment.status = Status::CONFIRMED;
        self.store(pay_id, payment);
        Ok(())
    }

    /// The caller, the shop that asked for the payment `pay_id`, claims it
    /// once it is confirmed. The mediator books its share at the present rate
    /// and the shop is owed the rest, which is handed back as a transfer to
    /// make. Nothing here undoes the claim should that transfer fail later.
    pub fn claim(&mut self, caller: AccountId, attached_deposit: Balance, pay_id: u128) -> (res:
        Result<Transfer, ShopError>)
        ensures
            match old(self)@.claim(caller@, attached_deposit, pay_id) {
                Ok(next) => {
                    &&& final(self)@ == next
                    &&& res matches Ok(transfer)
                    &&& transfer@ == (TransferView {
                        receiver_id: old(self)@.payments[pay_id].shop,
                        amount: old(self)@.payout(pay_id) as u128,
                    })
                    &&& transfer.amount + (final(self).total_payment - old(self).total_payment)
                        == old(self)@.payments[pay_id].fee
                },
                Err(error) => res == Err::<Transfer, ShopError>(error) && final(self)@ == old(
                    self,
                )@,
            },
            old(self)@.wf() ==> final(self)@.wf(),
    {
        proof {
            if self@.wf() {
                lemma_call_keeps_well_formed(self@, caller@, attached_deposit, (Call::Claim { pay_id }));
            }
        }
        if attached_deposit < ONE_YOCTO {
            return Err(ShopError::InsufficientFunds { required: ONE_YOCTO });
        }
        let mut payment = match self.load(pay_id) {
            Some(payment) => payment,
            None => {
                return Err(ShopError::NotFound);
            },
        };
        if payment.status != Status::CONFIRMED {
            return Err(ShopError::InvalidState);
        }
        if caller != payment.shop {
            return Err(ShopError::AccessDenied);
        }
        let payment_fee_amount = match payment_fee_amount(payment.fee, self.payment_fee_percent) {
            Some(amount) => amount,
            None => {
                return Err(ShopError::Overflow);
            },
        };
        let total_payment = match self.total_payment.checked_add(payment_fee_amount) {
            Some(total) => total,
            None => {
                return Err(ShopError::Overflow);
            },
        };
        let payment_receiver: Balance = payment.fee - payment_fee_amount;
        payment.status = Status::CLAIMED;
        self.store(pay_id, payment);
        self.total_payment = total_payment;
        Ok(Transfer { receiver_id: caller, amount: payment_receiver })
    }

    /// The caller, the owner, withdraws the fees that have come in since the
    /// last withdrawal, which are handed back as a transfer to make. Once any
    /// fee has come in, a withdrawal succeeds also where nothing is left to
    /// withdraw: the transfer is then of nothing.
    pub fn withdraw(&mut self, caller: AccountId, attached_deposit: Balance) -> (res: Result<
        Transfer,
        ShopError,
    >)
        ensures
            match old(self)@.withdraw(caller@, attached_deposit) {
                Ok(next) => {
                    &&& final(self)@ == next
                    &&& res matches Ok(transfer)
                    &&& transfer@ == (TransferView {
                        receiver_id: old(self)@.owner_id,
                        amount: old(self)@.withdrawable() as u128,
                    })
                },
                Err(error) => res == Err::<Transfer, ShopError>(error) && final(self)@ == old(
                    self,
                )@,
            },
            old(self)@.wf() ==> final(self)@.wf(),
    {
        proof {
            if self@.wf() {
                lemma_call_keeps_well_formed(self@, caller@, attached_deposit, Call::Withdraw);
            }
        }
        if attached_deposit < ONE_YOCTO {
            return Err(ShopError::InsufficientFunds { required: ONE_YOCTO });
        }
        if caller != self.owner_id {
            return Err(ShopError::Unauthorized);
        }
        if self.total_payment == 0 {
            return Err(ShopError::InvalidState);
        }
        if self.total_payment < self.total_payment_withdraw {
            return Err(ShopError::Overflow);
        }
        let payment_withdraw: Balance = self.total_payment - self.total_payment_withdraw;
        self.total_payment_withdraw = self.total_payment;
        Ok(Transfer { receiver_id: caller, amount: payment_withdraw })
    }

    /// The caller, the owner, sets the fee rate to `payment_fee_percent` of
    /// every [`crate::fee::DECIMALS`]. Claims made from now on use it, also
    /// for payments that were asked for before.
    pub fn set_payment_fee(
        &mut self,
        caller: AccountId,
        attached_deposit: Balance,
        payment_fee_percent: u128,
    ) -> (res: Result<(), ShopError>)
        ensures
            match old(self)@.set_payment_fee(caller@, attached_deposit, payment_fee_percent) {
                Ok(next) => res is Ok && final(self)@ == next,
                Err(error) => res == Err::<(), ShopError>(error) && final(self)@ == old(self)@,
            },
            old(self)@.wf() ==> final(self)@.wf(),
    {
        proof {
            if self@.wf() {
                lemma_call_keeps_well_formed(
                    self@,
                    caller@,
                    attached_deposit,
                    (Call::SetPaymentFee { payment_fee_percent }),
                );
            }
        }
        if attached_deposit < ONE_YOCTO {
            return Err(ShopError::InsufficientFunds { required: ONE_YOCTO });
        }
        if caller != self.owner_id {
            return Err(ShopError::Unauthorized);
        }
        if payment_fee_percent == 0 {
            return Err(ShopError::InvalidParameter);
        }
        self.payment_fee_percent = payment_fee_percent;
        Ok(())
    }
}

} // verus!
