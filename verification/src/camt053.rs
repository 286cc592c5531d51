//! Statement-to-message transcoding: projects a structured statement
//! document onto the flat message schema, resolving the opening and closing
//! balances by type preference, translating indicators and transaction
//! families, and packing the structured sub-details into narrative lines.

use vstd::prelude::*;

use crate::amounts::parse_amount;
use crate::amounts::spec_parse_amount;
use crate::cam_struct::Bal;
use crate::cam_struct::BkTxCd;
use crate::cam_struct::Document;
use crate::cam_struct::Ntry;
use crate::cam_struct::Stmt;
use crate::dates::mmdd_spec;
use crate::dates::mmdd_string;
use crate::dates::parse_date;
use crate::dates::spec_parse_date;
use crate::error::ParsingError;
use crate::indicators::spec_ind_to_mark;
use crate::mt_struct::Mt940Message;
use crate::mt_struct::MtBalance;
use crate::mt_struct::MtStatementLine;
use crate::mt_struct::balance_wf;
use crate::mt_struct::line_wf;
use crate::mt_struct::message_wf;
use crate::strutil::i64_to_string;
use crate::strutil::int_str_spec;
use crate::strutil::str_eq;

verus! {

/// First balance in the list whose type code equals `code`.
pub open spec fn spec_find_balance(bals: Seq<Bal>, code: Seq<char>) -> Option<Bal>
    decreases bals.len(),
{
    if bals.len() == 0 {
        None
    } else if bals[0].tp.cd_or_prtry.cd@ == code {
        Some(bals[0])
    } else {
        spec_find_balance(bals.drop_first(), code)
    }
}

/// The opening balance of a statement: the booked form is preferred, the
/// available form is the fallback.
pub open spec fn spec_opening_balance(s: Stmt) -> Option<Bal> {
    match spec_find_balance(s.balances@, "OPBD"@) {
        Some(b) => Some(b),
        None => spec_find_balance(s.balances@, "OPAV"@),
    }
}

/// The closing balance of a statement: booked preferred, available fallback.
pub open spec fn spec_closing_balance(s: Stmt) -> Option<Bal> {
    match spec_find_balance(s.balances@, "CLBD"@) {
        Some(b) => Some(b),
        None => spec_find_balance(s.balances@, "CLAV"@),
    }
}

/// The closing-available balance, resolved from its own type only.
pub open spec fn spec_clav_balance(s: Stmt) -> Option<Bal> {
    spec_find_balance(s.balances@, "CLAV"@)
}

pub open spec fn bal_date_ok(b: Bal) -> bool {
    spec_parse_date(b.dt.dt@) is Some
}

pub open spec fn bal_ind_ok(b: Bal) -> bool {
    spec_ind_to_mark(b.cdt_dbt_ind@) is Some
}

pub open spec fn bal_amt_ok(b: Bal) -> bool {
    spec_parse_amount(b.amt.value@) is Some
}

/// A balance record converts when its date, indicator and amount all do.
pub open spec fn bal_ok(b: Bal) -> bool {
    bal_date_ok(b) && bal_ind_ok(b) && bal_amt_ok(b)
}

/// The message balance field that a document balance record converts to.
pub open spec fn mt_balance_matches(f: MtBalance, b: Bal) -> bool {
    &&& Some(f.value_date) == spec_parse_date(b.dt.dt@)
    &&& Some(f.debit_credit_mark@) == spec_ind_to_mark(b.cdt_dbt_ind@)
    &&& f.currency@ == b.amt.ccy@
    &&& Some(f.amount as int) == spec_parse_amount(b.amt.value@)
}

/// The error a failing balance conversion raises: the date is normalized
/// first, the indicator second, the amount last.
pub open spec fn bal_err_matches(e: ParsingError, b: Bal) -> bool {
    if !bal_date_ok(b) {
        e matches ParsingError::ParseDateError(m) && m@ == "Invalid date format: "@ + b.dt.dt@
    } else if !bal_ind_ok(b) {
        e matches ParsingError::InvalidIndicator(m) && m@ == "Invalid debit/credit indicator: "@
            + b.cdt_dbt_ind@
    } else {
        e matches ParsingError::InvalidAmount(m) && m@ == b.amt.value@
    }
}

/// The four-letter message transaction type derived from a bank-transaction
/// family code; unrecognized families fall back to the generic transfer type.
pub open spec fn spec_tx_type(fmly: Seq<char>) -> Seq<char> {
    if fmly == "RCDT"@ {
        "CRED"@
    } else if fmly == "ICDT"@ {
        "DEBT"@
    } else if fmly == "MCRD"@ {
        "CARD"@
    } else {
        "NTRF"@
    }
}

/// The narrative lines contributed by the first transaction detail record:
/// a tagged end-to-end id line (skipped for the fixed placeholder), a tagged
/// creditor line, and a tagged acceptance line, in that order.
pub open spec fn spec_detail_narrative(n: Ntry) -> Seq<Seq<char>> {
    let td = n.ntry_dtls.tx_dtls@[0];
    (match td.refs {
        Some(refs) => match refs.end_to_end_id {
            Some(id) => if id@ != "NOTPROVIDED"@ {
                seq!["EndToEndId: "@ + id@]
            } else {
                Seq::<Seq<char>>::empty()
            },
            None => Seq::<Seq<char>>::empty(),
        },
        None => Seq::<Seq<char>>::empty(),
    }) + (match td.rltd_pties {
        Some(rp) => match rp.cdtr_acct {
            Some(ca) => match ca.id.othr {
                Some(o) => match o.id {
                    Some(i) => seq!["Creditor: "@ + int_str_spec(i as int)],
                    None => Seq::<Seq<char>>::empty(),
                },
                None => Seq::<Seq<char>>::empty(),
            },
            None => Seq::<Seq<char>>::empty(),
        },
        None => Seq::<Seq<char>>::empty(),
    }) + (match td.rltd_dts {
        Some(rd) => seq!["Acceptance: "@ + rd.accptnc_dt_tm@],
        None => Seq::<Seq<char>>::empty(),
    })
}

/// The narrative of an entry, in fixed order: the proprietary transaction
/// code first, the tagged detail lines next, the status line always last.
pub open spec fn spec_narrative(n: Ntry) -> Seq<Seq<char>> {
    seq![n.bk_tx_cd.prtry.cd@] + (if n.ntry_dtls.tx_dtls@.len() > 0 {
        spec_detail_narrative(n)
    } else {
        Seq::<Seq<char>>::empty()
    }) + seq!["Status: "@ + n.sts@]
}

pub open spec fn entry_date_ok(n: Ntry) -> bool {
    spec_parse_date(n.val_dt.dt@) is Some
}

pub open spec fn entry_ind_ok(n: Ntry) -> bool {
    spec_ind_to_mark(n.cdt_dbt_ind@) is Some
}

pub open spec fn entry_amt_ok(n: Ntry) -> bool {
    spec_parse_amount(n.amt.value@) is Some
}

/// An entry converts when its value date, indicator and amount all do; the
/// booking date is advisory and cannot fail the entry.
pub open spec fn entry_ok(n: Ntry) -> bool {
    entry_date_ok(n) && entry_ind_ok(n) && entry_amt_ok(n)
}

/// The error a failing entry conversion raises: value date first, indicator
/// second, amount last.
pub open spec fn entry_err_matches(e: ParsingError, n: Ntry) -> bool {
    if !entry_date_ok(n) {
        e matches ParsingError::ParseDateError(m) && m@ == "Invalid date format: "@ + n.val_dt.dt@
    } else if !entry_ind_ok(n) {
        e matches ParsingError::InvalidIndicator(m) && m@ == "Invalid debit/credit indicator: "@
            + n.cdt_dbt_ind@
    } else {
        e matches ParsingError::InvalidAmount(m) && m@ == n.amt.value@
    }
}

/// The statement line that a document entry converts to.
pub open spec fn line_matches_entry(l: MtStatementLine, n: Ntry) -> bool {
    &&& Some(l.value_date) == spec_parse_date(n.val_dt.dt@)
    &&& (match spec_parse_date(n.bookg_dt.dt@) {
        Some(d) => l.entry_date matches Some(t) && t@ == mmdd_spec(d),
        None => l.entry_date is None,
    })
    &&& Some(l.debit_credit_mark@) == spec_ind_to_mark(n.cdt_dbt_ind@)
    &&& Some(l.amount as int) == spec_parse_amount(n.amt.value@)
    &&& l.transaction_type@ == spec_tx_type(n.bk_tx_cd.domn.fmly.cd@)
    &&& l.customer_reference@ == n.acct_svcr_ref@
    &&& l.bank_reference matches Some(r) && r@ == n.ntry_ref@
    &&& l.narrative matches Some(v) && v.deep_view() == spec_narrative(n)
}

/// The header part of the conversion succeeds when the account has an IBAN,
/// an opening and a closing balance resolve and convert, and the
/// closing-available balance converts where present.
pub open spec fn balances_ok(d: Document) -> bool {
    let s = d.bk_to_cstmr_stmt.stmt;
    &&& s.acct.id.iban is Some
    &&& spec_opening_balance(s) is Some
    &&& spec_closing_balance(s) is Some
    &&& bal_ok(spec_opening_balance(s).unwrap())
    &&& bal_ok(spec_closing_balance(s).unwrap())
    &&& (spec_clav_balance(s) matches Some(b) ==> bal_ok(b))
}

/// The whole conversion succeeds when the header part does and every entry
/// converts.
pub open spec fn to_mt940_ok(d: Document) -> bool {
    let s = d.bk_to_cstmr_stmt.stmt;
    &&& balances_ok(d)
    &&& forall|i: int| 0 <= i < s.entries@.len() ==> entry_ok(#[trigger] s.entries@[i])
}

/// Field-by-field statement of the message a document projects to.
pub open spec fn message_matches_doc(m: Mt940Message, d: Document) -> bool {
    let s = d.bk_to_cstmr_stmt.stmt;
    &&& m.reference@ == s.id@
    &&& m.related_reference is None
    &&& (s.acct.id.iban matches Some(i) && m.account_id@ == i@)
    &&& m.statement_number == s.elctrnc_seq_nb as u32
    &&& m.sequence_number matches Some(q) && q == s.lgl_seq_nb as u32
    &&& (spec_opening_balance(s) matches Some(b) && mt_balance_matches(m.opening_balance, b))
    &&& (spec_closing_balance(s) matches Some(b) && mt_balance_matches(m.closing_balance, b))
    &&& (match spec_clav_balance(s) {
        Some(b) => m.closing_available_balance matches Some(f) && mt_balance_matches(f, b),
        None => m.closing_available_balance is None,
    })
    &&& m.statement_lines@.len() == s.entries@.len()
    &&& forall|i: int|
        0 <= i < s.entries@.len() ==> line_matches_entry(
            #[trigger] m.statement_lines@[i],
            s.entries@[i],
        )
}

/// The error of a first failing entry, scanning in source order.
pub open spec fn first_bad_entry_err(e: ParsingError, entries: Seq<Ntry>) -> bool {
    exists|k: int|
        {
            &&& 0 <= k < entries.len()
            &&& !entry_ok(#[trigger] entries[k])
            &&& (forall|j: int| 0 <= j < k ==> entry_ok(#[trigger] entries[j]))
            &&& entry_err_matches(e, entries[k])
        }
}

/// The error a failing conversion raises, following the order in which the
/// conversion consults the document: the IBAN, then balance resolution, then
/// balance conversion, then the entries in source order.
pub open spec fn to_mt940_err_matches(e: ParsingError, d: Document) -> bool {
    let s = d.bk_to_cstmr_stmt.stmt;
    if s.acct.id.iban is None {
        e matches ParsingError::MissingField(m) && m@ == "IBAN is required for MT940 conversion"@
    } else if spec_opening_balance(s) is None {
        e matches ParsingError::MissingField(m) && m@ == "No opening balance found"@
    } else if spec_closing_balance(s) is None {
        e matches ParsingError::MissingField(m) && m@ == "No closing balance found"@
    } else if !bal_ok(spec_opening_balance(s).unwrap()) {
        bal_err_matches(e, spec_opening_balance(s).unwrap())
    } else if !bal_ok(spec_closing_balance(s).unwrap()) {
        bal_err_matches(e, spec_closing_balance(s).unwrap())
    } else {
        match spec_clav_balance(s) {
            Some(b) => if !bal_ok(b) {
                bal_err_matches(e, b)
            } else {
                first_bad_entry_err(e, s.entries@)
            },
            None => first_bad_entry_err(e, s.entries@),
        }
    }
}

/// Translates a domain credit/debit indicator into the single-character
/// statement mark, failing closed on any other input.
fn ind_to_mark(ind: &str) -> (r: Result<String, ParsingError>)
    ensures
        match r {
            Ok(m) => spec_ind_to_mark(ind@) == Some(m@),
            Err(e) => {
                &&& spec_ind_to_mark(ind@) is None
                &&& e matches ParsingError::InvalidIndicator(m) && m@
                    == "Invalid debit/credit indicator: "@ + ind@
            },
        },
{
    if str_eq(ind, "DBIT") {
        Ok(String::from_str("D"))
    } else if str_eq(ind, "CRDT") {
        Ok(String::from_str("C"))
    } else {
        Err(
            ParsingError::InvalidIndicator(
                String::from_str("Invalid debit/credit indicator: ").concat(ind),
            ),
        )
    }
}

/// Converts one balance record to a message balance field, strictly: any
/// failing sub-field fails the record.
fn convert_balance(b: &Bal) -> (r: Result<MtBalance, ParsingError>)
    ensures
        match r {
            Ok(f) => bal_ok(*b) && mt_balance_matches(f, *b) && balance_wf(f),
            Err(e) => !bal_ok(*b) && bal_err_matches(e, *b),
        },
{
    let value_date = match parse_date(b.dt.dt.as_str()) {
        Ok(d) => d,
        Err(e) => {
            return Err(e);
        },
    };
    let debit_credit_mark = match ind_to_mark(b.cdt_dbt_ind.as_str()) {
        Ok(m) => m,
        Err(e) => {
            return Err(e);
        },
    };
    let amount = match parse_amount(b.amt.value.as_str()) {
        Ok(v) => v,
        Err(e) => {
            return Err(e);
        },
    };
    Ok(
        MtBalance {
            value_date,
            debit_credit_mark,
            currency: b.amt.ccy.clone(),
            amount,
        },
    )
}

impl Document {
    /// First balance of the statement whose type code equals `balance_type`.
    pub fn find_balance_by_type<'a>(&'a self, balance_type: &str) -> (r: Option<&'a Bal>)
        ensures
            match r {
                Some(b) => spec_find_balance(
                    self.bk_to_cstmr_stmt.stmt.balances@,
                    balance_type@,
                ) == Some(*b),
                None => spec_find_balance(self.bk_to_cstmr_stmt.stmt.balances@, balance_type@)
                    is None,
            },
    {
        let bals = &self.bk_to_cstmr_stmt.stmt.balances;
        let ghost full = bals@;
        proof {
            assert(full.skip(0) =~= full);
        }
        let mut i: usize = 0;
        while i < bals.len()
            invariant
                bals@ == full,
                full == self.bk_to_cstmr_stmt.stmt.balances@,
                0 <= i <= full.len(),
                spec_find_balance(full, balance_type@) == spec_find_balance(
                    full.skip(i as int),
                    balance_type@,
                ),
            decreases full.len() - i,
        {
            proof {
                assert(full.skip(i as int)[0] == full[i as int]);
            }
            if str_eq(bals[i].tp.cd_or_prtry.cd.as_str(), balance_type) {
                proof {
                    assert(spec_find_balance(full.skip(i as int), balance_type@) == Some(
                        full[i as int],
                    ));
                    assert(full == self.bk_to_cstmr_stmt.stmt.balances@);
                }
                let rb = &bals[i];
                proof {
                    assert(*rb == full[i as int]);
                }
                return Some(rb);
            }
            proof {
                assert(full.skip(i as int).drop_first() =~= full.skip(i as int + 1));
            }
            i += 1;
        }
        proof {
            assert(full.skip(i as int).len() == 0);
        }
        None
    }

    /// Translates a document credit/debit indicator (`DBIT`/`CRDT`) into the
    /// message mark (`D`/`C`), failing closed on any other input.
    pub fn convert_debit_credit(&self, indicator: &str) -> (r: Result<String, ParsingError>)
        ensures
            match r {
                Ok(m) => spec_ind_to_mark(indicator@) == Some(m@),
                Err(e) => {
                    &&& spec_ind_to_mark(indicator@) is None
                    &&& e matches ParsingError::InvalidIndicator(m) && m@
                        == "Invalid debit/credit indicator: "@ + indicator@
                },
            },
    {
        ind_to_mark(indicator)
    }

    /// Builds the narrative lines of an entry in their fixed order: the
    /// proprietary transaction code, the tagged sub-field lines of the first
    /// transaction detail record, and the status line last.
    pub fn build_narrative(&self, entry: &Ntry) -> (r: Result<Vec<String>, ParsingError>)
        ensures
            r matches Ok(v) && v.deep_view() == spec_narrative(*entry),
    {
        let mut narrative: Vec<String> = Vec::new();
        narrative.push(entry.bk_tx_cd.prtry.cd.clone());
        if entry.ntry_dtls.tx_dtls.len() > 0 {
            let td = &entry.ntry_dtls.tx_dtls[0];
            match &td.refs {
                Some(refs) => match &refs.end_to_end_id {
                    Some(id) => {
                        if !str_eq(id.as_str(), "NOTPROVIDED") {
                            narrative.push(
                                String::from_str("EndToEndId: ").concat(id.as_str()),
                            );
                        }
                    },
                    None => {},
                },
                None => {},
            }
            match &td.rltd_pties {
                Some(rp) => match &rp.cdtr_acct {
                    Some(ca) => match &ca.id.othr {
                        Some(o) => match o.id {
                            Some(cid) => {
                                let t = i64_to_string(cid as i64);
                                narrative.push(
                                    String::from_str("Creditor: ").concat(t.as_str()),
                                );
                            },
                            None => {},
                        },
                        None => {},
                    },
                    None => {},
                },
                None => {},
            }
            match &td.rltd_dts {
                Some(rd) => {
                    narrative.push(
                        String::from_str("Acceptance: ").concat(rd.accptnc_dt_tm.as_str()),
                    );
                },
                None => {},
            }
        }
        narrative.push(String::from_str("Status: ").concat(entry.sts.as_str()));
        proof {
            assert(narrative.deep_view() =~~= spec_narrative(*entry));
        }
        Ok(narrative)
    }

    /// Converts one entry to one statement line, strictly in every sub-field
    /// but the advisory entry date, which is omitted when the booking date
    /// does not parse.
    fn convert_entry_to_statement_line(&self, entry: &Ntry) -> (r: Result<
        MtStatementLine,
        ParsingError,
    >)
        ensures
            match r {
                Ok(l) => entry_ok(*entry) && line_matches_entry(l, *entry) && line_wf(l),
                Err(e) => !entry_ok(*entry) && entry_err_matches(e, *entry),
            },
    {
        let value_date = match parse_date(entry.val_dt.dt.as_str()) {
            Ok(d) => d,
            Err(e) => {
                return Err(e);
            },
        };
        let entry_date: Option<String> = match parse_date(entry.bookg_dt.dt.as_str()) {
            Ok(d) => Some(mmdd_string(&d)),
            Err(_) => None,
        };
        let debit_credit_mark = match ind_to_mark(entry.cdt_dbt_ind.as_str()) {
            Ok(m) => m,
            Err(e) => {
                return Err(e);
            },
        };
        let amount = match parse_amount(entry.amt.value.as_str()) {
            Ok(v) => v,
            Err(e) => {
                return Err(e);
            },
        };
        let transaction_type = match self.determine_transaction_type(&entry.bk_tx_cd) {
            Ok(t) => t,
            Err(e) => {
                return Err(e);
            },
        };
        let narrative = match self.build_narrative(entry) {
            Ok(v) => v,
            Err(e) => {
                return Err(e);
            },
        };
        let field_86: Option<Vec<String>> = if narrative.len() > 0 {
            Some(narrative)
        } else {
            proof {
                assert(spec_narrative(*entry).len() >= 1);
                assert(false);
            }
            None
        };
        Ok(
            MtStatementLine {
                value_date,
                entry_date,
                debit_credit_mark,
                amount,
                transaction_type,
                customer_reference: entry.acct_svcr_ref.clone(),
                bank_reference: Some(entry.ntry_ref.clone()),
                narrative: field_86,
            },
        )
    }

    /// Projects the document onto the flat message schema: the whole
    /// statement-to-message transcoding step.
    #[verifier::loop_isolation(false)]
    pub fn to_mt940(&self) -> (r: Result<Mt940Message, ParsingError>)
        ensures
            match r {
                Ok(m) => to_mt940_ok(*self) && message_matches_doc(m, *self) && message_wf(m),
                Err(e) => !to_mt940_ok(*self) && to_mt940_err_matches(e, *self),
            },
    {
        let stmt = &self.bk_to_cstmr_stmt.stmt;
        let reference = stmt.id.clone();
        let iban: String = match &stmt.acct.id.iban {
            Some(i) => i.clone(),
            None => {
                return Err(
                    ParsingError::MissingField(
                        String::from_str("IBAN is required for MT940 conversion"),
                    ),
                );
            },
        };
        let statement_number = stmt.elctrnc_seq_nb as u32;
        let sequence_number: Option<u32> = Some(stmt.lgl_seq_nb as u32);
        let opening = match self.find_balance_by_type("OPBD") {
            Some(b) => b,
            None => match self.find_balance_by_type("OPAV") {
                Some(b) => b,
                None => {
                    return Err(
                        ParsingError::MissingField(String::from_str("No opening balance found")),
                    );
                },
            },
        };
        let closing = match self.find_balance_by_type("CLBD") {
            Some(b) => b,
            None => match self.find_balance_by_type("CLAV") {
                Some(b) => b,
                None => {
                    return Err(
                        ParsingError::MissingField(String::from_str("No closing balance found")),
                    );
                },
            },
        };
        let field_60f = match convert_balance(opening) {
            Ok(f) => f,
            Err(e) => {
                return Err(e);
            },
        };
        let field_62f = match convert_balance(closing) {
            Ok(f) => f,
            Err(e) => {
                return Err(e);
            },
        };
        let field_64: Option<MtBalance> = match self.find_balance_by_type("CLAV") {
            Some(b) => match convert_balance(b) {
                Ok(f) => Some(f),
                Err(e) => {
                    return Err(e);
                },
            },
            None => None,
        };
        let mut statement_lines: Vec<MtStatementLine> = Vec::new();
        let mut idx: usize = 0;
        while idx < stmt.entries.len()
            invariant
                0 <= idx <= stmt.entries@.len(),
                statement_lines@.len() == idx,
                forall|j: int| 0 <= j < idx ==> entry_ok(#[trigger] stmt.entries@[j]),
                forall|j: int|
                    0 <= j < idx ==> line_matches_entry(
                        #[trigger] statement_lines@[j],
                        stmt.entries@[j],
                    ),
                forall|j: int| 0 <= j < idx ==> line_wf(#[trigger] statement_lines@[j]),
            decreases stmt.entries@.len() - idx,
        {
            match self.convert_entry_to_statement_line(&stmt.entries[idx]) {
                Ok(line) => statement_lines.push(line),
                Err(e) => {
                    return Err(e);
                },
            }
            idx += 1;
        }
        Ok(
            Mt940Message {
                reference,
                related_reference: None,
                account_id: iban,
                statement_number,
                sequence_number,
                opening_balance: field_60f,
                statement_lines,
                closing_balance: field_62f,
                closing_available_balance: field_64,
            },
        )
    }

    /// Derives the message transaction type from the bank-transaction family
    /// code; unrecognized families become the generic transfer type.
    pub fn determine_transaction_type(&self, bk_tx_cd: &BkTxCd) -> (r: Result<
        String,
        ParsingError,
    >)
        ensures
            r matches Ok(t) && t@ == spec_tx_type(bk_tx_cd.domn.fmly.cd@),
    {
        let fmly = bk_tx_cd.domn.fmly.cd.as_str();
        if str_eq(fmly, "RCDT") {
            Ok(String::from_str("CRED"))
        } else if str_eq(fmly, "ICDT") {
            Ok(String::from_str("DEBT"))
        } else if str_eq(fmly, "MCRD") {
            Ok(String::from_str("CARD"))
        } else {
            Ok(String::from_str("NTRF"))
        }
    }
}

} // verus!
