//! The mediator as a mathematical state machine.
//!
//! [`ShopView`] is what a mediator holds, and each call on the mediator is a
//! function from one such state, the caller and the deposit to the next state
//! or to the error that turns the call down. The executable mediator is
//! specified against these functions, and what holds of every run of a
//! mediator is proved of them here.

use vstd::prelude::*;

use crate::error::ShopError;
use crate::fee::{fee_share, Balance};
use crate::payment::{PaymentView, Status};

verus! {

/// The deposit that a call has to carry to show that its caller signed it.
pub const ONE_YOCTO: Balance = 1;

/// What a mediator holds.
#[verifier::ext_equal]
pub struct ShopView {
    /// The account that may withdraw the fees and set their rate.
    pub owner_id: Seq<char>,
    /// The identifier that was given out last; 0 before the first request.
    pub pay_id: u128,
    /// The numerator of the fee rate over [`crate::fee::DECIMALS`].
    pub payment_fee_percent: u128,
    /// All fees that claims have ever brought in.
    pub total_payment: u128,
    /// What the owner has withdrawn of them.
    pub total_payment_withdraw: u128,
    /// The payments, by identifier.
    pub payments: Map<u128, PaymentView>,
    /// The identifier of the payment that each order is bound to.
    pub order_ids: Map<u128, u128>,
}

/// A call on the mediator with its arguments.
pub enum Call {
    ReqPayment { order_id: u128, user_id: Seq<char>, msg: Seq<char>, fee: u128 },
    Pay { pay_id: u128 },
    Confirm { pay_id: u128 },
    Claim { pay_id: u128 },
    Withdraw,
    SetPaymentFee { payment_fee_percent: u128 },
}

impl ShopView {
    /// A mediator that has seen no call yet.
    pub open spec fn init(owner_id: Seq<char>, payment_fee_percent: u128) -> ShopView {
        ShopView {
            owner_id,
            pay_id: 0,
            payment_fee_percent,
            total_payment: 0,
            total_payment_withdraw: 0,
            payments: Map::empty(),
            order_ids: Map::empty(),
        }
    }

    /// What holds of a mediator at every moment of its life: the fee rate is
    /// positive, no more was withdrawn than came in, the payments are those
    /// with the identifiers from 1 to the last one given out, each stored
    /// under its own, and orders and payments are bound one to one.
    pub open spec fn wf(self) -> bool {
        &&& self.payment_fee_percent > 0
        &&& self.total_payment_withdraw <= self.total_payment
        &&& forall|id: u128| #[trigger]
            self.payments.contains_key(id) <==> 1 <= id <= self.pay_id
        &&& forall|id: u128| #[trigger]
            self.payments.contains_key(id) ==> self.payments[id].payment_id == id
        &&& forall|id: u128| #[trigger]
            self.payments.contains_key(id) ==> self.binds(self.payments[id].order_id, id)
        &&& forall|order_id: u128| #[trigger]
            self.order_ids.contains_key(order_id) ==> self.payments.contains_key(
                self.order_ids[order_id],
            ) && self.payments[self.order_ids[order_id]].order_id == order_id
    }

    /// The order `order_id` is bound to the payment `pay_id`.
    pub open spec fn binds(self, order_id: u128, pay_id: u128) -> bool {
        self.order_ids.contains_key(order_id) && self.order_ids[order_id] == pay_id
    }

    /// The same mediator with the payment `pay_id` at another status.
    pub open spec fn with_status(self, pay_id: u128, status: Status) -> ShopView {
        ShopView {
            payments: self.payments.insert(pay_id, self.payments[pay_id].with_status(status)),
            ..self
        }
    }

    /// A shop, the caller, asks `user_id` to pay `fee` for the order
    /// `order_id`. The order must not be bound yet and the call must carry a
    /// deposit. The payment gets the next identifier and waits to be paid.
    pub open spec fn req_payment(
        self,
        caller: Seq<char>,
        attached_deposit: u128,
        order_id: u128,
        user_id: Seq<char>,
        msg: Seq<char>,
        fee: u128,
    ) -> Result<ShopView, ShopError> {
        if self.order_ids.contains_key(order_id) {
            Err(ShopError::DuplicateOrder)
        } else if attached_deposit < ONE_YOCTO {
            Err(ShopError::InsufficientFunds { required: ONE_YOCTO })
        } else if self.pay_id == u128::MAX {
            Err(ShopError::Overflow)
        } else {
            let pay_id = (self.pay_id + 1) as u128;
            Ok(
                ShopView {
                    pay_id,
                    payments: self.payments.insert(
                        pay_id,
                        PaymentView {
                            payment_id: pay_id,
                            order_id,
                            shop: caller,
                            user: user_id,
                            msg,
                            fee,
                            status: Status::REQUESTING,
                        },
                    ),
                    order_ids: self.order_ids.insert(order_id, pay_id),
                    ..self
                },
            )
        }
    }

    /// The user pays a requested payment: the deposit must cover the fee, and
    /// all of it stays with the mediator.
    pub open spec fn pay(self, caller: Seq<char>, attached_deposit: u128, pay_id: u128) -> Result<
        ShopView,
        ShopError,
    > {
        if !self.payments.contains_key(pay_id) {
            Err(ShopError::NotFound)
        } else if self.payments[pay_id].status != Status::REQUESTING {
            Err(ShopError::InvalidState)
        } else if attached_deposit < self.payments[pay_id].fee {
            Err(ShopError::InsufficientFunds { required: self.payments[pay_id].fee })
        } else if caller != self.payments[pay_id].user {
            Err(ShopError::AccessDenied)
        } else {
            Ok(self.with_status(pay_id, Status::PAID))
        }
    }

    /// The user, or the owner in the user's place, confirms a paid payment.
    pub open spec fn confirm(
        self,
        caller: Seq<char>,
        attached_deposit: u128,
        pay_id: u128,
    ) -> Result<ShopView, ShopError> {
        if attached_deposit < ONE_YOCTO {
            Err(ShopError::InsufficientFunds { required: ONE_YOCTO })
        } else if !self.payments.contains_key(pay_id) {
            Err(ShopError::NotFound)
        } else if self.payments[pay_id].status != Status::PAID {
            Err(ShopError::InvalidState)
        } else if caller != self.payments[pay_id].user && caller != self.owner_id {
            Err(ShopError::AccessDenied)
        } else {
            Ok(self.with_status(pay_id, Status::CONFIRMED))
        }
    }

    /// The mediator's share of the payment `pay_id` at the present rate.
    pub open spec fn fee_amount(self, pay_id: u128) -> nat {
        fee_share(self.payments[pay_id].fee as nat, self.payment_fee_percent as nat)
    }

    /// What a claim of the payment `pay_id` pays out to the shop: the fee less
    /// the mediator's share.
    pub open spec fn payout(self, pay_id: u128) -> nat {
        (self.payments[pay_id].fee - self.fee_amount(pay_id)) as nat
    }

    /// The shop claims a confirmed payment. The mediator keeps its share at
    /// the rate of this moment and the shop is owed the rest. The claim is
    /// turned down where the share is more than the fee or the fees that have
    /// come in would leave the range of 128 bits.
    pub open spec fn claim(self, caller: Seq<char>, attached_deposit: u128, pay_id: u128) -> Result<
        ShopView,
        ShopError,
    > {
        if attached_deposit < ONE_YOCTO {
            Err(ShopError::InsufficientFunds { required: ONE_YOCTO })
        } else if !self.payments.contains_key(pay_id) {
            Err(ShopError::NotFound)
        } else if self.payments[pay_id].status != Status::CONFIRMED {
            Err(ShopError::InvalidState)
        } else if caller != self.payments[pay_id].shop {
            Err(ShopError::AccessDenied)
        } else if self.fee_amount(pay_id) > self.payments[pay_id].fee {
            Err(ShopError::Overflow)
        } else if self.total_payment + self.fee_amount(pay_id) > u128::MAX {
            Err(ShopError::Overflow)
        } else {
            Ok(
                ShopView {
                    total_payment: (self.total_payment + self.fee_amount(pay_id)) as u128,
                    ..self.with_status(pay_id, Status::CLAIMED)
                },
            )
        }
    }

    /// What a withdrawal hands to the owner: the fees that have come in and
    /// were not withdrawn before.
    pub open spec fn withdrawable(self) -> nat {
        (self.total_payment - self.total_payment_withdraw) as nat
    }

    /// The owner withdraws the fees. Once any fee has come in this succeeds
    /// however little is left to withdraw.
    pub open spec fn withdraw(self, caller: Seq<char>, attached_deposit: u128) -> Result<
        ShopView,
        ShopError,
    > {
        if attached_deposit < ONE_YOCTO {
            Err(ShopError::InsufficientFunds { required: ONE_YOCTO })
        } else if caller != self.owner_id {
            Err(ShopError::Unauthorized)
        } else if self.total_payment == 0 {
            Err(ShopError::InvalidState)
        } else if self.total_payment < self.total_payment_withdraw {
            Err(ShopError::Overflow)
        } else {
            Ok(ShopView { total_payment_withdraw: self.total_payment, ..self })
        }
    }

    /// The owner sets the fee rate, which claims use from then on.
    pub open spec fn set_payment_fee(
        self,
        caller: Seq<char>,
        attached_deposit: u128,
        payment_fee_percent: u128,
    ) -> Result<ShopView, ShopError> {
        if attached_deposit < ONE_YOCTO {
            Err(ShopError::InsufficientFunds { required: ONE_YOCTO })
        } else if caller != self.owner_id {
            Err(ShopError::Unauthorized)
        } else if payment_fee_percent == 0 {
            Err(ShopError::InvalidParameter)
        } else {
            Ok(ShopView { payment_fee_percent, ..self })
        }
    }

    /// What `call` gives when `caller` makes it with `attached_deposit`.
    pub open spec fn call(self, caller: Seq<char>, attached_deposit: u128, call: Call) -> Result<
        ShopView,
        ShopError,
    > {
        match call {
            Call::ReqPayment { order_id, user_id, msg, fee } => self.req_payment(
                caller,
                attached_deposit,
                order_id,
                user_id,
                msg,
                fee,
            ),
            Call::Pay { pay_id } => self.pay(caller, attached_deposit, pay_id),
            Call::Confirm { pay_id } => self.confirm(caller, attached_deposit, pay_id),
            Call::Claim { pay_id } => self.claim(caller, attached_deposit, pay_id),
            Call::Withdraw => self.withdraw(caller, attached_deposit),
            Call::SetPaymentFee { payment_fee_percent } => self.set_payment_fee(
                caller,
                attached_deposit,
                payment_fee_percent,
            ),
        }
    }

    /// The mediator after `call`: the next state where the call succeeds, the
    /// same state where it is turned down.
    pub open spec fn after(self, caller: Seq<char>, attached_deposit: u128, call: Call) -> ShopView {
        match self.call(caller, attached_deposit, call) {
            Ok(next) => next,
            Err(_) => self,
        }
    }
}

/// A new mediator with a positive fee rate is well formed.
pub proof fn lemma_init_is_well_formed(owner_id: Seq<char>, payment_fee_percent: u128)
    requires
        payment_fee_percent > 0,
    ensures
        ShopView::init(owner_id, payment_fee_percent).wf(),
{
}

/// No call, whether it succeeds or not, takes a well-formed mediator to one
/// that is not.
pub proof fn lemma_call_keeps_well_formed(
    shop: ShopView,
    caller: Seq<char>,
    attached_deposit: u128,
    call: Call,
)
    requires
        shop.wf(),
    ensures
        shop.after(caller, attached_deposit, call).wf(),
{
}

/// Whatever is called on a well-formed mediator, a payment that is there
/// stays there, and of all that it holds only its status can change: it stays
/// where it was or moves to the status that comes next, never back and never
/// past one.
pub proof fn lemma_status_moves_forward(
    shop: ShopView,
    caller: Seq<char>,
    attached_deposit: u128,
    call: Call,
    pay_id: u128,
)
    requires
        shop.wf(),
        shop.payments.contains_key(pay_id),
    ensures
        ({
            let next = shop.after(caller, attached_deposit, call);
            let before = shop.payments[pay_id];
            let after = next.payments[pay_id];
            &&& next.payments.contains_key(pay_id)
            &&& after == before.with_status(after.status)
            &&& before.status.rank() <= after.status.rank() <= before.status.rank() + 1
        }),
{
}

/// Whatever is called, the owner stays the same and the identifier that was
/// given out last never goes down.
pub proof fn lemma_owner_and_identifiers_are_kept(
    shop: ShopView,
    caller: Seq<char>,
    attached_deposit: u128,
    call: Call,
)
    ensures
        shop.after(caller, attached_deposit, call).owner_id == shop.owner_id,
        shop.after(caller, attached_deposit, call).pay_id >= shop.pay_id,
{
}

/// An order that is bound to a payment stays bound to that payment whatever
/// is called.
pub proof fn lemma_order_binding_is_permanent(
    shop: ShopView,
    caller: Seq<char>,
    attached_deposit: u128,
    call: Call,
    order_id: u128,
)
    requires
        shop.order_ids.contains_key(order_id),
    ensures
        shop.after(caller, attached_deposit, call).binds(order_id, shop.order_ids[order_id]),
{
}

/// In a well-formed mediator two payments for the same order are one payment.
pub proof fn lemma_order_names_one_payment(shop: ShopView, first: u128, second: u128)
    requires
        shop.wf(),
        shop.payments.contains_key(first),
        shop.payments.contains_key(second),
        shop.payments[first].order_id == shop.payments[second].order_id,
    ensures
        first == second,
{
    assert(shop.binds(shop.payments[first].order_id, first));
    assert(shop.binds(shop.payments[second].order_id, second));
}

/// A claim that succeeds neither makes nor loses value: what the mediator
/// books as its fee and what the shop is paid add up to the payment.
pub proof fn lemma_claim_conserves_value(
    shop: ShopView,
    caller: Seq<char>,
    attached_deposit: u128,
    pay_id: u128,
)
    requires
        shop.claim(caller, attached_deposit, pay_id) is Ok,
    ensures
        ({
            let next = shop.claim(caller, attached_deposit, pay_id)->Ok_0;
            &&& next.total_payment - shop.total_payment == shop.fee_amount(pay_id)
            &&& shop.fee_amount(pay_id) + shop.payout(pay_id) == shop.payments[pay_id].fee
        }),
{
}

/// Whatever is called, the fees that came in and the fees withdrawn never go
/// down, and where no more was withdrawn than came in before the call, no
/// more is afterwards.
pub proof fn lemma_withdrawn_stays_within_accrued(
    shop: ShopView,
    caller: Seq<char>,
    attached_deposit: u128,
    call: Call,
)
    requires
        shop.total_payment_withdraw <= shop.total_payment,
    ensures
        ({
            let next = shop.after(caller, attached_deposit, call);
            &&& next.total_payment_withdraw <= next.total_payment
            &&& shop.total_payment <= next.total_payment
            &&& shop.total_payment_withdraw <= next.total_payment_withdraw
        }),
{
}

} // verus!
