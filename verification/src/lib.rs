//! An escrow-style payment mediator.
//!
//! A shop asks a user for a payment, the user pays and later confirms, and the
//! shop claims the money. The mediator keeps a share of every claimed payment,
//! which its owner may withdraw.
//!
//! The mediator is a plain value, [`PaymentShop`]. Every call names the
//! caller and the deposit attached to the call, and hands back what has to be
//! transferred: the mediator itself moves no value and reads nothing but its
//! arguments. [`model`] holds the state machine that the mediator follows and
//! what is proved of it.

pub mod audit;
pub mod enumeration;
pub mod error;
pub mod fee;
pub mod model;
pub mod payment;
pub mod shop;

pub use crate::enumeration::PaymentShopJson;
pub use crate::error::ShopError;
pub use crate::fee::{payment_fee_amount, refund_deposit, Balance, DECIMALS};
pub use crate::payment::{AccountId, Payment, PaymentJson, Status, UpgradePayment};
pub use crate::shop::{PaymentShop, Transfer};
