use order_domain::fruit::{AppleVariety, BananaVariety, CherryVariety, FruitSnack};
use order_domain::payment::{
    pay_invoice, CardNumber, CardType, CheckNumber, CreditCardInfo, Currency, Payment,
    PaymentAmount, PaymentError, PaymentMethod, ProviderAnswer, UnpaidInvoice,
};
use order_domain::person::{Person, PersonalName};
use order_domain::quantity::{
    decimal_text, format_kilograms, format_quantity, Kilograms, OrderQuantity, ProductCode,
};

fn answer(visa: bool, mastercard: bool, reachable: bool, approved: bool) -> ProviderAnswer {
    ProviderAnswer { accepts_visa: visa, accepts_mastercard: mastercard, reachable, approved }
}

fn card_payment(card_type: CardType) -> Payment {
    let info = CreditCardInfo { card_type, card_number: CardNumber("4111".to_string()) };
    Payment::new(PaymentAmount(1999), Currency::EUR, PaymentMethod::Card(info))
}

#[test]
fn unit_quantity_text() {
    assert_eq!(format_quantity(&OrderQuantity::UnitQuantity(10)), "10 units");
}

#[test]
fn kilogram_quantity_text() {
    let q = OrderQuantity::KilogramQuantity(Kilograms::from_grams(2500));
    assert_eq!(format_quantity(&q), "2.5 kg");
}

#[test]
fn zero_quantities_text() {
    assert_eq!(format_quantity(&OrderQuantity::UnitQuantity(0)), "0 units");
    let q = OrderQuantity::KilogramQuantity(Kilograms::from_grams(0));
    assert_eq!(format_quantity(&q), "0 kg");
}

#[test]
fn kilogram_fractions_drop_trailing_zeros() {
    assert_eq!(format_kilograms(Kilograms::from_grams(3000)), "3");
    assert_eq!(format_kilograms(Kilograms::from_grams(1250)), "1.25");
    assert_eq!(format_kilograms(Kilograms::from_grams(1005)), "1.005");
    assert_eq!(format_kilograms(Kilograms::from_grams(40)), "0.04");
}

#[test]
fn decimal_text_of_extremes() {
    assert_eq!(decimal_text(7), "7");
    assert_eq!(decimal_text(1020), "1020");
    assert_eq!(decimal_text(u64::MAX), u64::MAX.to_string());
    let q = OrderQuantity::UnitQuantity(usize::MAX);
    assert_eq!(format_quantity(&q), format!("{} units", usize::MAX));
}

#[test]
fn quantity_is_one_form_at_a_time() {
    let q = OrderQuantity::UnitQuantity(3);
    assert!(matches!(q, OrderQuantity::UnitQuantity(3)));
    assert!(!matches!(q, OrderQuantity::KilogramQuantity(_)));
}

#[test]
fn absent_and_empty_middle_names_differ() {
    let a = PersonalName::new("Ann".to_string(), None, "Lee".to_string());
    let b = PersonalName::new("Ann".to_string(), Some(String::new()), "Lee".to_string());
    assert!(!a.has_middle_name());
    assert!(b.has_middle_name());
    assert_ne!(a.middle_name, b.middle_name);
}

#[test]
fn person_round_trip() {
    let a_person = Person::new("Alex".to_string(), "Adams".to_string());
    assert_eq!(a_person.first, "Alex");
    assert_eq!(a_person.last, "Adams");
    let Person { first, last } = a_person;
    assert_eq!(first, "Alex");
    assert_eq!(last, "Adams");
    let (first, last) = Person::new(first, last).into_parts();
    assert_eq!(first, "Alex");
    assert_eq!(last, "Adams");
}

#[test]
fn unsupported_card_is_not_recognized() {
    let r = pay_invoice(UnpaidInvoice, card_payment(CardType::Visa), &answer(false, true, true, true));
    assert!(matches!(r, Err(PaymentError::CardTypeNotRecognized)));
    let r = pay_invoice(UnpaidInvoice, card_payment(CardType::Mastercard), &answer(true, false, false, false));
    assert!(matches!(r, Err(PaymentError::CardTypeNotRecognized)));
}

#[test]
fn offline_provider_fails_payment() {
    let r = pay_invoice(UnpaidInvoice, card_payment(CardType::Visa), &answer(true, true, false, true));
    assert!(matches!(r, Err(PaymentError::PaymentProviderOffline)));
}

#[test]
fn refused_payment_is_rejected() {
    let cash = Payment::new(PaymentAmount(500), Currency::USD, PaymentMethod::Cash);
    let r = pay_invoice(UnpaidInvoice, cash, &answer(false, false, true, false));
    assert!(matches!(r, Err(PaymentError::PaymentRejected)));
}

#[test]
fn approved_payments_are_paid() {
    let check = Payment::new(PaymentAmount(500), Currency::USD, PaymentMethod::Check(CheckNumber(42)));
    assert!(pay_invoice(UnpaidInvoice, check, &answer(false, false, true, true)).is_ok());
    let r = pay_invoice(UnpaidInvoice, card_payment(CardType::Mastercard), &answer(false, true, true, true));
    assert!(r.is_ok());
}

#[test]
fn payment_keeps_its_parts() {
    let p = Payment::new(PaymentAmount(250), Currency::EUR, PaymentMethod::Check(CheckNumber(7)));
    assert_eq!(p.amount, PaymentAmount(250));
    assert_eq!(p.currency, Currency::EUR);
    assert!(matches!(p.method, PaymentMethod::Check(CheckNumber(7))));
}

#[test]
fn fruit_snack_and_product_code() {
    let s = FruitSnack::new(AppleVariety::GoldenDelicious, BananaVariety::Manzano, CherryVariety::Montmorency);
    assert_eq!(s.apple, AppleVariety::GoldenDelicious);
    assert_eq!(s.banana, BananaVariety::Manzano);
    assert_eq!(s.cherry, CherryVariety::Montmorency);
    assert_eq!(ProductCode::new("1234".to_string()).0, "1234");
}
