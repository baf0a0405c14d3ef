use vstd::prelude::*;

verus! {

/// The number of a check.
#[derive(Clone, Copy, Debug, PartialEq, Eq, Structural)]
pub struct CheckNumber(pub usize);

/// The number of a card, kept as text.
pub struct CardNumber(pub String);

#[derive(Clone, Copy, Debug, PartialEq, Eq, Structural)]
pub enum CardType {
    Visa,
    Mastercard,
}

pub struct CreditCardInfo {
    pub card_type: CardType,
    pub card_number: CardNumber,
}

/// How a payment is settled: exactly one of these.
pub enum PaymentMethod {
    Cash,
    Check(CheckNumber),
    Card(CreditCardInfo),
}

/// An amount of money in the smallest unit of its currency (cents).
#[derive(Clone, Copy, Debug, PartialEq, Eq, Structural)]
pub struct PaymentAmount(pub u64);

#[derive(Clone, Copy, Debug, PartialEq, Eq, Structural)]
pub enum Currency {
    EUR,
    USD,
}

/// A payment: an amount in one currency, settled by one method.
pub struct Payment {
    pub amount: PaymentAmount,
    pub currency: Currency,
    pub method: PaymentMethod,
}

impl Payment {
    pub fn new(amount: PaymentAmount, currency: Currency, method: PaymentMethod) -> (r: Payment)
        ensures
            r.amount == amount,
            r.currency == currency,
            r.method == method,
    {
        Payment { amount, currency, method }
    }
}

/// A payment has exactly one method.
pub proof fn payment_has_one_method(p: Payment)
    ensures
        (p.method is Cash) as int + (p.method is Check) as int + (p.method is Card) as int == 1,
{
}

/// Why an attempt to pay an invoice failed. Each is final for that attempt.
#[derive(Clone, Copy, Debug, PartialEq, Eq, Structural)]
pub enum PaymentError {
    CardTypeNotRecognized,
    PaymentRejected,
    PaymentProviderOffline,
}

/// An invoice that has not been paid yet.
pub struct UnpaidInvoice;

/// An invoice that has been paid. Its private field leaves `pay_invoice` as
/// the only way to make one.
pub struct PaidInvoice {
    sealed: (),
}

/// A customer; its shape is not modelled here.
pub struct Customer;

/// What the payment provider answered to one attempt: which card types it
/// takes, whether it could be reached, and whether it approved the payment.
#[derive(Clone, Copy, Debug, PartialEq, Eq, Structural)]
pub struct ProviderAnswer {
    pub accepts_visa: bool,
    pub accepts_mastercard: bool,
    pub reachable: bool,
    pub approved: bool,
}

/// Whether the provider takes cards of this type.
pub open spec fn card_accepted(card_type: CardType, answer: ProviderAnswer) -> bool {
    match card_type {
        CardType::Visa => answer.accepts_visa,
        CardType::Mastercard => answer.accepts_mastercard,
    }
}

/// The outcome of paying with `method` when the provider answers `answer`:
/// a card of a type the provider does not take is not recognized; otherwise
/// an unreachable provider fails the attempt, then a refusal rejects it.
pub open spec fn payment_outcome(method: PaymentMethod, answer: ProviderAnswer) -> Result<(), PaymentError> {
    if method is Card && !card_accepted(method->Card_0.card_type, answer) {
        Err(PaymentError::CardTypeNotRecognized)
    } else if !answer.reachable {
        Err(PaymentError::PaymentProviderOffline)
    } else if !answer.approved {
        Err(PaymentError::PaymentRejected)
    } else {
        Ok(())
    }
}

fn card_type_accepted(card_type: CardType, answer: &ProviderAnswer) -> (r: bool)
    ensures
        r == card_accepted(card_type, *answer),
{
    match card_type {
        CardType::Visa => answer.accepts_visa,
        CardType::Mastercard => answer.accepts_mastercard,
    }
}

/// Pays an unpaid invoice: one attempt, which turns it into a paid invoice
/// or fails with the error that `payment_outcome` names.
pub fn pay_invoice(unpaid_invoice: UnpaidInvoice, payment: Payment, answer: &ProviderAnswer) -> (r: Result<PaidInvoice, PaymentError>)
    ensures
        r is Ok <==> payment_outcome(payment.method, *answer) is Ok,
        r is Err ==> payment_outcome(payment.method, *answer) == Err::<(), PaymentError>(r->Err_0),
{
    let recognized = match &payment.method {
        PaymentMethod::Card(info) => card_type_accepted(info.card_type, answer),
        _ => true,
    };
    if !recognized {
        Err(PaymentError::CardTypeNotRecognized)
    } else if !answer.reachable {
        Err(PaymentError::PaymentProviderOffline)
    } else if !answer.approved {
        Err(PaymentError::PaymentRejected)
    } else {
        let UnpaidInvoice = unpaid_invoice;
        Ok(PaidInvoice { sealed: () })
    }
}

} // verus!
