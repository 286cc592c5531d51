//! The flat statement message model: header fields, two mandatory balance
//! fields, an optional closing-available balance, and the ordered statement
//! lines with their narrative. Dates are held as plain calendar dates and
//! amounts as integer counts of minor units (hundredths), so that the
//! transcoders' arithmetic and formatting are exact.

use vstd::prelude::*;

use crate::amounts::AMOUNT_LIMIT;
use crate::dates::Date;
use crate::dates::date_wf;

verus! {

/// One balance field of the message: value date, single-character
/// credit/debit mark, currency, and amount in minor units.
#[derive(Debug)]
pub struct MtBalance {
    pub value_date: Date,
    pub debit_credit_mark: String,
    pub currency: String,
    pub amount: i64,
}

/// One statement line: a transaction record with its optional narrative.
#[derive(Debug)]
pub struct MtStatementLine {
    pub value_date: Date,
    pub entry_date: Option<String>,
    pub debit_credit_mark: String,
    pub amount: i64,
    pub transaction_type: String,
    pub customer_reference: String,
    pub bank_reference: Option<String>,
    pub narrative: Option<Vec<String>>,
}

/// The whole statement message.
#[derive(Debug)]
pub struct Mt940Message {
    pub reference: String,
    pub related_reference: Option<String>,
    pub account_id: String,
    pub statement_number: u32,
    pub sequence_number: Option<u32>,
    pub opening_balance: MtBalance,
    pub statement_lines: Vec<MtStatementLine>,
    pub closing_balance: MtBalance,
    pub closing_available_balance: Option<MtBalance>,
}

/// A balance field is well formed when its date names a real day that fits
/// the ten-character rendering and its amount is within the parsing bound.
pub open spec fn balance_wf(b: MtBalance) -> bool {
    &&& date_wf(b.value_date)
    &&& -AMOUNT_LIMIT <= b.amount <= AMOUNT_LIMIT
}

pub open spec fn line_wf(l: MtStatementLine) -> bool {
    &&& date_wf(l.value_date)
    &&& -AMOUNT_LIMIT <= l.amount <= AMOUNT_LIMIT
}

/// Well-formedness of a whole message: every date real, every amount within
/// the bound under which sums over the lines cannot overflow.
pub open spec fn message_wf(m: Mt940Message) -> bool {
    &&& balance_wf(m.opening_balance)
    &&& balance_wf(m.closing_balance)
    &&& (m.closing_available_balance matches Some(b) ==> balance_wf(b))
    &&& forall|i: int|
        0 <= i < m.statement_lines@.len() ==> line_wf(#[trigger] m.statement_lines@[i])
}

} // verus!
