//! The ways in which a call on the mediator can fail.

use vstd::prelude::*;
use vstd::string::*;

verus! {

/// Why a call was turned down. A call that fails leaves the mediator as it was.
#[derive(Debug, Clone, Copy, PartialEq, Eq, Structural)]
pub enum ShopError {
    /// No payment is stored under the given identifier.
    NotFound,
    /// The payment is not in the status that the call needs.
    InvalidState,
    /// The caller is not the party that may make this call on the payment.
    AccessDenied,
    /// The deposit attached to the call is below `required`.
    InsufficientFunds { required: u128 },
    /// The order identifier is already bound to a payment.
    DuplicateOrder,
    /// The caller is not the owner of the mediator.
    Unauthorized,
    /// An argument of the call is out of its range.
    InvalidParameter,
    /// An amount or an identifier would leave the range of 128 bits.
    Overflow,
}

/// The character that stands for a number below ten.
pub open spec fn digit(d: nat) -> char {
    if d == 0 {
        '0'
    } else if d == 1 {
        '1'
    } else if d == 2 {
        '2'
    } else if d == 3 {
        '3'
    } else if d == 4 {
        '4'
    } else if d == 5 {
        '5'
    } else if d == 6 {
        '6'
    } else if d == 7 {
        '7'
    } else if d == 8 {
        '8'
    } else {
        '9'
    }
}

/// A number written in base ten, without leading zeros.
pub open spec fn decimal(n: nat) -> Seq<char>
    decreases n,
{
    if n < 10 {
        seq![digit(n)]
    } else {
        decimal(n / 10).push(digit(n % 10))
    }
}

fn digit_text(d: u128) -> (res: &'static str)
    requires
        d < 10,
    ensures
        res@ == seq![digit(d as nat)],
{
    proof {
        reveal_strlit("0");
        reveal_strlit("1");
        reveal_strlit("2");
        reveal_strlit("3");
        reveal_strlit("4");
        reveal_strlit("5");
        reveal_strlit("6");
        reveal_strlit("7");
        reveal_strlit("8");
        reveal_strlit("9");
    }
    let res = if d == 0 {
        "0"
    } else if d == 1 {
        "1"
    } else if d == 2 {
        "2"
    } else if d == 3 {
        "3"
    } else if d == 4 {
        "4"
    } else if d == 5 {
        "5"
    } else if d == 6 {
        "6"
    } else if d == 7 {
        "7"
    } else if d == 8 {
        "8"
    } else {
        "9"
    };
    assert(res@ =~= seq![digit(d as nat)]);
    res
}

/// Writes `n` in base ten.
pub fn decimal_text(n: u128) -> (res: String)
    ensures
        res@ == decimal(n as nat),
    decreases n,
{
    if n < 10 {
        String::from_str(digit_text(n))
    } else {
        let mut text = decimal_text(n / 10);
        text.append(digit_text(n % 10));
        assert(text@ =~= decimal((n / 10) as nat).push(digit((n % 10) as nat)));
        text
    }
}

impl ShopError {
    /// What the caller is told about the error.
    pub open spec fn message_text(self) -> Seq<char> {
        match self {
            ShopError::NotFound => "ERR_PAYMENT_NOT_FOUND"@,
            ShopError::InvalidState => "Invalid status"@,
            ShopError::AccessDenied => "Access deny"@,
            ShopError::InsufficientFunds { required } => "Required FEE deposit of at least "@
                + decimal(required as nat) + " yoctoNEAR"@,
            ShopError::DuplicateOrder => "Order ID is set"@,
            ShopError::Unauthorized => "Not admin or owner"@,
            ShopError::InvalidParameter => "Invalid payment fee"@,
            ShopError::Overflow => "Amount out of range"@,
        }
    }

    /// What the caller is told about the error. Where the deposit was too
    /// small the message names the least deposit that would do.
    pub fn message(&self) -> (res: String)
        ensures
            res@ == self.message_text(),
    {
        match self {
            ShopError::NotFound => String::from_str("ERR_PAYMENT_NOT_FOUND"),
            ShopError::InvalidState => String::from_str("Invalid status"),
            ShopError::AccessDenied => String::from_str("Access deny"),
            ShopError::InsufficientFunds { required } => {
                let mut text = String::from_str("Required FEE deposit of at least ");
                let amount = decimal_text(*required);
                text.append(amount.as_str());
                text.append(" yoctoNEAR");
                text
            },
            ShopError::DuplicateOrder => String::from_str("Order ID is set"),
            ShopError::Unauthorized => String::from_str("Not admin or owner"),
            ShopError::InvalidParameter => String::from_str("Invalid payment fee"),
            ShopError::Overflow => String::from_str("Amount out of range"),
        }
    }
}

} // verus!
