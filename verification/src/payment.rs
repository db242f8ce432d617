//! A payment, its status, and the forms in which it is stored and shown.

use vstd::prelude::*;

use crate::fee::Balance;

verus! {

/// The name of an account on the ledger.
pub type AccountId = String;

/// How far a payment has come. A payment is requested by the shop, paid and
/// then confirmed by the user, and at last claimed by the shop.
#[allow(non_camel_case_types)]
#[derive(Debug, Clone, Copy, PartialEq, Eq, Structural)]
pub enum Status {
    REQUESTING,
    PAID,
    CONFIRMED,
    CLAIMED,
}

impl Status {
    /// The place of a status in the order in which a payment passes through
    /// them.
    pub open spec fn rank(self) -> nat {
        match self {
            Status::REQUESTING => 0,
            Status::PAID => 1,
            Status::CONFIRMED => 2,
            Status::CLAIMED => 3,
        }
    }
}

/// One payment that a shop has asked of a user.
#[derive(Debug, PartialEq, Eq)]
pub struct Payment {
    pub payment_id: u128,
    pub order_id: u128,
    pub shop: AccountId,
    pub user: AccountId,
    pub msg: String,
    pub fee: Balance,
    pub status: Status,
}

/// What a [`Payment`] holds, with each string as the sequence of its characters.
#[verifier::ext_equal]
pub struct PaymentView {
    pub payment_id: u128,
    pub order_id: u128,
    pub shop: Seq<char>,
    pub user: Seq<char>,
    pub msg: Seq<char>,
    pub fee: u128,
    pub status: Status,
}

impl PaymentView {
    /// The payment that stands for one that is not there: no identifiers, no
    /// parties, no message, nothing to pay.
    pub open spec fn empty() -> PaymentView {
        PaymentView {
            payment_id: 0,
            order_id: 0,
            shop: Seq::empty(),
            user: Seq::empty(),
            msg: Seq::empty(),
            fee: 0,
            status: Status::REQUESTING,
        }
    }

    /// The same payment at another status.
    pub open spec fn with_status(self, status: Status) -> PaymentView {
        PaymentView { status, ..self }
    }
}

impl View for Payment {
    type V = PaymentView;

    open spec fn view(&self) -> PaymentView {
        PaymentView {
            payment_id: self.payment_id,
            order_id: self.order_id,
            shop: self.shop@,
            user: self.user@,
            msg: self.msg@,
            fee: self.fee,
            status: self.status,
        }
    }
}

impl Clone for Payment {
    fn clone(&self) -> (res: Self)
        ensures
            res == *self,
    {
        Payment {
            payment_id: self.payment_id,
            order_id: self.order_id,
            shop: self.shop.clone(),
            user: self.user.clone(),
            msg: self.msg.clone(),
            fee: self.fee,
            status: self.status,
        }
    }
}

impl Default for Payment {
    fn default() -> (res: Self)
        ensures
            res@ == PaymentView::empty(),
    {
        Payment {
            payment_id: 0,
            order_id: 0,
            shop: String::new(),
            user: String::new(),
            msg: String::new(),
            fee: 0,
            status: Status::REQUESTING,
        }
    }
}

/// A payment as it is stored. Each layout that a stored payment has ever had
/// is a variant of its own, so that what was stored under an earlier layout
/// can still be read, and is brought to the present one when it is.
#[derive(Debug, PartialEq, Eq)]
pub enum UpgradePayment {
    Current(Payment),
}

impl UpgradePayment {
    /// The payment that is stored, in the present layout.
    pub open spec fn payment(self) -> Payment {
        match self {
            UpgradePayment::Current(payment) => payment,
        }
    }
}

impl Clone for UpgradePayment {
    fn clone(&self) -> (res: Self)
        ensures
            res == *self,
    {
        match self {
            UpgradePayment::Current(payment) => UpgradePayment::Current(payment.clone()),
        }
    }
}

impl View for UpgradePayment {
    type V = PaymentView;

    open spec fn view(&self) -> PaymentView {
        self.payment()@
    }
}

impl From<UpgradePayment> for Payment {
    fn from(upgradable_payment: UpgradePayment) -> (res: Self) {
        match upgradable_payment {
            UpgradePayment::Current(payment) => payment,
        }
    }
}

impl vstd::std_specs::convert::FromSpecImpl<UpgradePayment> for Payment {
    open spec fn obeys_from_spec() -> bool {
        true
    }

    open spec fn from_spec(upgradable_payment: UpgradePayment) -> Payment {
        upgradable_payment.payment()
    }
}

impl From<Payment> for UpgradePayment {
    fn from(payment: Payment) -> (res: Self) {
        UpgradePayment::Current(payment)
    }
}

impl vstd::std_specs::convert::FromSpecImpl<Payment> for UpgradePayment {
    open spec fn obeys_from_spec() -> bool {
        true
    }

    open spec fn from_spec(payment: Payment) -> UpgradePayment {
        UpgradePayment::Current(payment)
    }
}

/// A payment as a query shows it.
#[derive(Debug, PartialEq, Eq)]
pub struct PaymentJson {
    pub payment_id: u128,
    pub shop: AccountId,
    pub user: AccountId,
    pub msg: String,
    pub fee: Balance,
    pub status: Status,
}

/// What a [`PaymentJson`] holds, with each string as the sequence of its
/// characters.
#[verifier::ext_equal]
pub struct PaymentJsonView {
    pub payment_id: u128,
    pub shop: Seq<char>,
    pub user: Seq<char>,
    pub msg: Seq<char>,
    pub fee: u128,
    pub status: Status,
}

impl PaymentJsonView {
    /// How `payment` is shown to one who asked for the identifier `payment_id`.
    pub open spec fn of(payment_id: u128, payment: PaymentView) -> PaymentJsonView {
        PaymentJsonView {
            payment_id,
            shop: payment.shop,
            user: payment.user,
            msg: payment.msg,
            fee: payment.fee,
            status: payment.status,
        }
    }
}

impl View for PaymentJson {
    type V = PaymentJsonView;

    open spec fn view(&self) -> PaymentJsonView {
        PaymentJsonView {
            payment_id: self.payment_id,
            shop: self.shop@,
            user: self.user@,
            msg: self.msg@,
            fee: self.fee,
            status: self.status,
        }
    }
}

impl PaymentJson {
    /// Shows `payment` under the identifier `payment_id`, which is the one
    /// that was asked for and need not be the payment's own.
    pub fn from(payment_id: u128, payment: Payment) -> (res: Self)
        ensures
            res@ == PaymentJsonView::of(payment_id, payment@),
    {
        PaymentJson {
            payment_id,
            shop: payment.shop,
            user: payment.user,
            msg: payment.msg,
            fee: payment.fee,
            status: payment.status,
        }
    }
}

} // verus!
