use payment_shop::{PaymentShop, PaymentShopJson, ShopError, Status};

const FEE_CONTRACT_PERCENT: u128 = 20000; // 20%
const BOD_FEE_AMOUNT: u128 = 10000000000000000000000000; // 10 NEAR
const ONE_HUNDREDTH_NEAR: u128 = 10000000000000000000000; // 0.01 NEAR

fn alice() -> String {
    "alice".to_string()
}

fn bod() -> String {
    "bod".to_string()
}

fn init() -> PaymentShop {
    PaymentShop::new(alice(), FEE_CONTRACT_PERCENT)
}

fn request(shop: &mut PaymentShop) -> Result<u128, ShopError> {
    shop.req_payment(alice(), ONE_HUNDREDTH_NEAR, 1, bod(), "Hello".to_string(), BOD_FEE_AMOUNT)
}

#[test]
pub fn test_req_payment() {
    let mut shop = init();

    assert_eq!(request(&mut shop), Ok(1));

    let order_id = shop.get_payid_from_orderid(1);
    assert_eq!(order_id, 1);

    let payment_json = shop.get_payment_info(1);
    assert_eq!(payment_json.payment_id, 1);
    assert_eq!(payment_json.shop, alice());
    assert_eq!(payment_json.user, bod());
    assert_eq!(payment_json.msg, "Hello");
    assert_eq!(payment_json.fee, 10000000000000000000000000);
    assert_eq!(payment_json.status, Status::REQUESTING);

    let outcome_req = request(&mut shop);
    if let Err(error) = outcome_req {
        println!("Excute error: {}", error.message());
        assert!(error.message().contains("Order ID is set"));
    } else {
        unreachable!()
    }
}

#[test]
pub fn test_pay() {
    let mut shop = init();

    assert_eq!(request(&mut shop), Ok(1));
    assert_eq!(shop.pay(bod(), BOD_FEE_AMOUNT, 1), Ok(()));

    let payment_json = shop.get_payment_info(1);
    assert_eq!(payment_json.payment_id, 1);
    assert_eq!(payment_json.shop, alice());
    assert_eq!(payment_json.user, bod());
    assert_eq!(payment_json.msg, "Hello");
    assert_eq!(payment_json.fee, 10000000000000000000000000);
    assert_eq!(payment_json.status, Status::PAID);
}

#[test]
pub fn test_confirm() {
    let mut shop = init();

    assert_eq!(request(&mut shop), Ok(1));

    let mut outcome = shop.pay(alice(), ONE_HUNDREDTH_NEAR, 1);
    assert!(outcome.is_err());
    if let Err(error) = outcome {
        println!("Excute error: {}", error.message());
        assert!(error.message().contains(
            "Required FEE deposit of at least 10000000000000000000000000 yoctoNEAR"
        ));
    } else {
        unreachable!()
    }

    outcome = shop.pay(alice(), BOD_FEE_AMOUNT, 1);
    assert!(outcome.is_err());
    if let Err(error) = outcome {
        println!("Excute error: {}", error.message());
        assert!(error.message().contains("Access deny"));
    } else {
        unreachable!()
    }

    assert_eq!(shop.pay(bod(), BOD_FEE_AMOUNT, 1), Ok(()));
    assert_eq!(shop.confirm(bod(), 1, 1), Ok(()));

    let payment_json = shop.get_payment_info(1);
    assert_eq!(payment_json.payment_id, 1);
    assert_eq!(payment_json.shop, alice());
    assert_eq!(payment_json.user, bod());
    assert_eq!(payment_json.msg, "Hello");
    assert_eq!(payment_json.fee, 10000000000000000000000000);
    assert_eq!(payment_json.status, Status::CONFIRMED);
}

#[test]
pub fn test_claim() {
    let mut shop = init();

    assert_eq!(request(&mut shop), Ok(1));
    assert_eq!(shop.pay(bod(), BOD_FEE_AMOUNT, 1), Ok(()));
    assert_eq!(shop.confirm(bod(), 1, 1), Ok(()));

    let mut outcome = shop.claim(bod(), 1, 1);
    assert!(outcome.is_err());
    if let Err(error) = outcome {
        println!("Excute error: {}", error.message());
        assert!(error.message().contains("Access deny"));
    } else {
        unreachable!()
    }

    outcome = shop.claim(alice(), 1, 2);
    assert!(outcome.is_err());
    if let Err(error) = outcome {
        println!("Excute error: {}", error.message());
        assert!(error.message().contains("ERR_PAYMENT_NOT_FOUND"));
    } else {
        unreachable!()
    }

    outcome = shop.claim(alice(), 1, 1);
    assert!(outcome.is_ok());

    let mut payment_json = shop.get_payment_info(1);
    assert_eq!(payment_json.payment_id, 1);
    assert_eq!(payment_json.shop, alice());
    assert_eq!(payment_json.user, bod());
    assert_eq!(payment_json.msg, "Hello");
    assert_eq!(payment_json.fee, 10000000000000000000000000);
    assert_eq!(payment_json.status, Status::CLAIMED);

    let payment_shop_json: PaymentShopJson = shop.get_payment_shop_info();
    assert_eq!(payment_shop_json.pay_id, 1);
    assert_eq!(payment_shop_json.payment_fee_percent, 20000);
    assert_eq!(payment_shop_json.total_payment, 10000000000000000000000000 * 20000 / 100000);

    payment_json = shop.get_payment_info(10);
    println!("payment_json {:#?}", payment_json)
}

#[test]
pub fn test_set_payment_fee() {
    let mut shop = init();

    let mut outcome = shop.set_payment_fee(bod(), 1, 30000);
    assert!(outcome.is_err());
    if let Err(error) = outcome {
        println!("Excute error: {}", error.message());
        assert!(error.message().contains("Not admin or owner"));
    } else {
        unreachable!()
    }

    outcome = shop.set_payment_fee(alice(), 1, 0);
    assert!(outcome.is_err());
    if let Err(error) = outcome {
        println!("Excute error: {}", error.message());
        assert!(error.message().contains("Invalid payment fee"));
    } else {
        unreachable!()
    }

    assert_eq!(shop.set_payment_fee(alice(), 1, 30000), Ok(()));

    let payment_shop_json: PaymentShopJson = shop.get_payment_shop_info();
    assert_eq!(payment_shop_json.pay_id, 0);
    assert_eq!(payment_shop_json.payment_fee_percent, 30000);
}
