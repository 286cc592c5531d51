//! Message-to-statement transcoding: expands a flat statement message into
//! the richer structured document schema, synthesizing required-but-absent
//! structural fields with fixed placeholders, deriving the transaction
//! summary, and recovering the end-to-end id from the narrative side
//! channel.

use vstd::prelude::*;

use crate::amounts::AMOUNT_LIMIT;
use crate::amounts::amount_str_spec;
use crate::amounts::amount_to_string;
use crate::cam_struct::Acct;
use crate::cam_struct::AccountId;
use crate::cam_struct::Amount;
use crate::cam_struct::AmtDtls;
use crate::cam_struct::Bal;
use crate::cam_struct::BalDt;
use crate::cam_struct::BalTp;
use crate::cam_struct::BkToCstmrStmt;
use crate::cam_struct::BkTxCd;
use crate::cam_struct::BookgDt;
use crate::cam_struct::CdOrPrtry;
use crate::cam_struct::Document;
use crate::cam_struct::Domn;
use crate::cam_struct::FinInstnId;
use crate::cam_struct::Fmly;
use crate::cam_struct::FrToDt;
use crate::cam_struct::GrpHdr;
use crate::cam_struct::Ntry;
use crate::cam_struct::NtryDtls;
use crate::cam_struct::OrgId;
use crate::cam_struct::Othr;
use crate::cam_struct::Ownr;
use crate::cam_struct::OwnrId;
use crate::cam_struct::Prtry;
use crate::cam_struct::PstlAdr;
use crate::cam_struct::Refs;
use crate::cam_struct::RltdDts;
use crate::cam_struct::SchmeNm;
use crate::cam_struct::Stmt;
use crate::cam_struct::Svcr;
use crate::cam_struct::TtlCdtNtries;
use crate::cam_struct::TtlDbtNtries;
use crate::cam_struct::TtlNtries;
use crate::cam_struct::TxAmt;
use crate::cam_struct::TxDtls;
use crate::cam_struct::TxsSummry;
use crate::cam_struct::ValDt;
use crate::clock::now_timestamp;
use crate::dates::date_str_spec;
use crate::dates::date_to_string;
use crate::error::ParsingError;
use crate::indicators::spec_mark_to_ind;
use crate::mt_struct::Mt940Message;
use crate::mt_struct::MtBalance;
use crate::mt_struct::MtStatementLine;
use crate::mt_struct::line_wf;
use crate::mt_struct::message_wf;
use crate::strutil::contains_seq;
use crate::strutil::dec_digits;
use crate::strutil::find_from;
use crate::strutil::find_str;
use crate::strutil::lemma_find_from_in_range;
use crate::strutil::opt_str_matches;
use crate::strutil::str_eq;
use crate::strutil::trim_spec;
use crate::strutil::trim_str;
use crate::strutil::usize_to_string;

verus! {

/// The family code reverse-mapped from a four-letter transaction type;
/// unrecognized types fall back to the generic payment family.
pub open spec fn spec_family_code(tx_type: Seq<char>) -> Seq<char> {
    if tx_type == "CRED"@ {
        "RCDT"@
    } else if tx_type == "DEBT"@ {
        "ICDT"@
    } else if tx_type == "CARD"@ {
        "MCRD"@
    } else {
        "PMNT"@
    }
}

/// Number of statement lines whose mark is exactly `C`.
pub open spec fn credit_count(lines: Seq<MtStatementLine>) -> int
    decreases lines.len(),
{
    if lines.len() == 0 {
        0
    } else {
        credit_count(lines.drop_last()) + if lines.last().debit_credit_mark@ == "C"@ {
            1int
        } else {
            0int
        }
    }
}

/// Sum, in minor units, of the amounts of the lines whose mark is `C`.
pub open spec fn credit_sum(lines: Seq<MtStatementLine>) -> int
    decreases lines.len(),
{
    if lines.len() == 0 {
        0
    } else {
        credit_sum(lines.drop_last()) + if lines.last().debit_credit_mark@ == "C"@ {
            lines.last().amount as int
        } else {
            0int
        }
    }
}

/// Number of statement lines whose mark is exactly `D`.
pub open spec fn debit_count(lines: Seq<MtStatementLine>) -> int
    decreases lines.len(),
{
    if lines.len() == 0 {
        0
    } else {
        debit_count(lines.drop_last()) + if lines.last().debit_credit_mark@ == "D"@ {
            1int
        } else {
            0int
        }
    }
}

/// Sum, in minor units, of the amounts of the lines whose mark is `D`.
pub open spec fn debit_sum(lines: Seq<MtStatementLine>) -> int
    decreases lines.len(),
{
    if lines.len() == 0 {
        0
    } else {
        debit_sum(lines.drop_last()) + if lines.last().debit_credit_mark@ == "D"@ {
            lines.last().amount as int
        } else {
            0int
        }
    }
}

/// The text after the first occurrence of `pat`, trimmed of surrounding
/// whitespace; meaningful only when `pat` occurs in `line`.
pub open spec fn after_first(line: Seq<char>, pat: Seq<char>) -> Seq<char> {
    match find_from(line, pat, 0) {
        Some(i) => trim_spec(line.subrange(i + pat.len(), line.len() as int)),
        None => line,
    }
}

/// Scan of the narrative lines for a tagged end-to-end id, last match wins;
/// `init` is the value standing before the scan.
pub open spec fn spec_scan_e2e(lines: Seq<Seq<char>>, init: Option<Seq<char>>) -> Option<
    Seq<char>,
>
    decreases lines.len(),
{
    if lines.len() == 0 {
        init
    } else if contains_seq(lines.last(), "EndToEndId:"@) {
        Some(after_first(lines.last(), "EndToEndId:"@))
    } else {
        spec_scan_e2e(lines.drop_last(), init)
    }
}

/// The end-to-end id a statement line expands to: the bank reference,
/// overwritten by the last narrative line carrying the tag.
pub open spec fn spec_e2e_of_line(l: MtStatementLine) -> Option<Seq<char>> {
    let init = match l.bank_reference {
        Some(r) => Some(r@),
        None => None,
    };
    match l.narrative {
        Some(v) => spec_scan_e2e(v.deep_view(), init),
        None => init,
    }
}

/// The transaction detail record an entry carries: the recovered end-to-end
/// id, the sub-amount with its fixed `EUR` currency, and the acceptance
/// timestamp synthesized from the value date.
pub open spec fn tx_detail_matches(td: TxDtls, l: MtStatementLine) -> bool {
    &&& (td.refs matches Some(r) && opt_str_matches(r.end_to_end_id, spec_e2e_of_line(l)))
    &&& (td.amt_dtls matches Some(ad) && ad.tx_amt.amt.ccy@ == "EUR"@ && ad.tx_amt.amt.value@
        == amount_str_spec(l.amount as int))
    &&& td.rltd_pties is None
    &&& (td.rltd_dts matches Some(rd) && rd.accptnc_dt_tm@ == date_str_spec(l.value_date)
        + "T00:00:00"@)
}

/// The document entry a statement line expands to, with its one-based
/// sequential synthetic reference.
pub open spec fn doc_entry_matches(
    n: Ntry,
    l: MtStatementLine,
    idx: int,
    opening_ccy: Seq<char>,
) -> bool {
    &&& n.ntry_ref@ == dec_digits(idx + 1)
    &&& n.amt.ccy@ == opening_ccy
    &&& n.amt.value@ == amount_str_spec(l.amount as int)
    &&& Some(n.cdt_dbt_ind@) == spec_mark_to_ind(l.debit_credit_mark@)
    &&& n.sts@ == "BOOK"@
    &&& n.bookg_dt.dt@ == date_str_spec(l.value_date)
    &&& n.val_dt.dt@ == date_str_spec(l.value_date)
    &&& n.acct_svcr_ref@ == l.customer_reference@
    &&& n.bk_tx_cd.domn.cd@ == "PMNT"@
    &&& n.bk_tx_cd.domn.fmly.cd@ == spec_family_code(l.transaction_type@)
    &&& n.bk_tx_cd.domn.fmly.sub_fmly_cd@ == "STDO"@
    &&& n.bk_tx_cd.prtry.cd@ == l.transaction_type@
    &&& n.bk_tx_cd.prtry.issr@ == "BANK"@
    &&& n.ntry_dtls.tx_dtls@.len() == 1
    &&& tx_detail_matches(n.ntry_dtls.tx_dtls@[0], l)
}

/// The document balance record a message balance field expands to, under the
/// given type code.
pub open spec fn doc_bal_matches(b: Bal, code: Seq<char>, f: MtBalance) -> bool {
    &&& b.tp.cd_or_prtry.cd@ == code
    &&& b.amt.ccy@ == f.currency@
    &&& b.amt.value@ == amount_str_spec(f.amount as int)
    &&& Some(b.cdt_dbt_ind@) == spec_mark_to_ind(f.debit_credit_mark@)
    &&& b.dt.dt@ == date_str_spec(f.value_date)
}

/// The transaction summary derived from the statement lines: total count,
/// credit and debit counts and sums, and the net amount with its indicator.
pub open spec fn summary_matches(t: TxsSummry, lines: Seq<MtStatementLine>) -> bool {
    let cs = credit_sum(lines);
    let ds = debit_sum(lines);
    let net = cs - ds;
    &&& t.ttl_ntries.nb_of_ntries@ == dec_digits(lines.len() as int)
    &&& t.ttl_ntries.ttl_net_ntry_amt@ == amount_str_spec(
        if net < 0 {
            -net
        } else {
            net
        },
    )
    &&& t.ttl_ntries.cdt_dbt_ind@ == (if net >= 0 {
        "CRDT"@
    } else {
        "DBIT"@
    })
    &&& t.ttl_cdt_ntries.nb_of_ntries@ == dec_digits(credit_count(lines))
    &&& t.ttl_cdt_ntries.sum@ == amount_str_spec(cs)
    &&& t.ttl_dbt_ntries.nb_of_ntries@ == dec_digits(debit_count(lines))
    &&& t.ttl_dbt_ntries.sum@ == amount_str_spec(ds)
}

pub open spec fn line_mark_ok(l: MtStatementLine) -> bool {
    spec_mark_to_ind(l.debit_credit_mark@) is Some
}

/// The whole expansion succeeds when every credit/debit mark in the message
/// is one of the two accepted characters.
pub open spec fn to_camt053_ok(m: Mt940Message) -> bool {
    &&& spec_mark_to_ind(m.opening_balance.debit_credit_mark@) is Some
    &&& spec_mark_to_ind(m.closing_balance.debit_credit_mark@) is Some
    &&& (m.closing_available_balance matches Some(b) ==> spec_mark_to_ind(
        b.debit_credit_mark@,
    ) is Some)
    &&& forall|i: int|
        0 <= i < m.statement_lines@.len() ==> line_mark_ok(#[trigger] m.statement_lines@[i])
}

pub open spec fn mark_err_matches(e: ParsingError, mark: Seq<char>) -> bool {
    e matches ParsingError::InvalidIndicator(m) && m@ == "Invalid MT940 debit/credit indicator: "@
        + mark
}

/// The error of a first failing statement line, scanning in source order.
pub open spec fn first_bad_line_err(e: ParsingError, lines: Seq<MtStatementLine>) -> bool {
    exists|k: int|
        {
            &&& 0 <= k < lines.len()
            &&& !line_mark_ok(#[trigger] lines[k])
            &&& (forall|j: int| 0 <= j < k ==> line_mark_ok(#[trigger] lines[j]))
            &&& mark_err_matches(e, lines[k].debit_credit_mark@)
        }
}

/// The error a failing expansion raises, following the order in which the
/// expansion consults the message: the three balance fields first, then the
/// statement lines in source order.
pub open spec fn to_camt053_err_matches(e: ParsingError, m: Mt940Message) -> bool {
    if spec_mark_to_ind(m.opening_balance.debit_credit_mark@) is None {
        mark_err_matches(e, m.opening_balance.debit_credit_mark@)
    } else if spec_mark_to_ind(m.closing_balance.debit_credit_mark@) is None {
        mark_err_matches(e, m.closing_balance.debit_credit_mark@)
    } else {
        match m.closing_available_balance {
            Some(b) => if spec_mark_to_ind(b.debit_credit_mark@) is None {
                mark_err_matches(e, b.debit_credit_mark@)
            } else {
                first_bad_line_err(e, m.statement_lines@)
            },
            None => first_bad_line_err(e, m.statement_lines@),
        }
    }
}

/// The fixed placeholder identity filled into the account, owner and
/// servicer sub-fields that the message format does not carry.
pub open spec fn acct_placeholder_matches(a: Acct) -> bool {
    &&& a.nm@ == "Account Holder"@
    &&& a.ownr.nm@ == "Account Owner"@
    &&& (a.ownr.pstl_adr.strt_nm matches Some(v) && v@ == "Street"@)
    &&& (a.ownr.pstl_adr.bldg_nb matches Some(v) && v@ == "123"@)
    &&& (a.ownr.pstl_adr.pst_cd matches Some(v) && v@ == "12345"@)
    &&& (a.ownr.pstl_adr.twn_nm matches Some(v) && v@ == "City"@)
    &&& (a.ownr.pstl_adr.ctry matches Some(v) && v@ == "XX"@)
    &&& a.ownr.pstl_adr.adr_line is None
    &&& a.ownr.id.org_id.othr.id@ == "1234567890"@
    &&& a.ownr.id.org_id.othr.schme_nm.cd@ == "CUST"@
    &&& (a.svcr.fin_instn_id.bic matches Some(v) && v@ == "XXXXXXXXXXX"@)
    &&& (a.svcr.fin_instn_id.nm matches Some(v) && v@ == "Bank Name"@)
    &&& a.svcr.fin_instn_id.pstl_adr is None
}

/// Field-by-field statement of the document a message expands to, given the
/// creation timestamp `now` stamped into both headers.
pub open spec fn doc_matches_message(d: Document, m: Mt940Message, now: Seq<char>) -> bool {
    let s = d.bk_to_cstmr_stmt.stmt;
    &&& d.bk_to_cstmr_stmt.grp_hdr.msg_id@ == m.reference@
    &&& d.bk_to_cstmr_stmt.grp_hdr.cre_dt_tm@ == now
    &&& s.id@ == m.reference@
    &&& s.elctrnc_seq_nb == m.statement_number as i32
    &&& s.lgl_seq_nb == (match m.sequence_number {
        Some(q) => q,
        None => 1u32,
    }) as i32
    &&& s.cre_dt_tm@ == now
    &&& s.fr_to_dt.fr_dt_tm@ == date_str_spec(m.opening_balance.value_date) + "T00:00:00"@
    &&& s.fr_to_dt.to_dt_tm@ == date_str_spec(m.closing_balance.value_date) + "T23:59:59"@
    &&& (s.acct.id.iban matches Some(i) && i@ == m.account_id@)
    &&& s.acct.ccy@ == m.opening_balance.currency@
    &&& acct_placeholder_matches(s.acct)
    &&& s.balances@.len() == (if m.closing_available_balance is Some {
        3int
    } else {
        2int
    })
    &&& doc_bal_matches(s.balances@[0], "OPBD"@, m.opening_balance)
    &&& doc_bal_matches(s.balances@[1], "CLBD"@, m.closing_balance)
    &&& (m.closing_available_balance matches Some(f) ==> doc_bal_matches(
        s.balances@[2],
        "CLAV"@,
        f,
    ))
    &&& (s.txs_summry matches Some(t) && summary_matches(t, m.statement_lines@))
    &&& s.entries@.len() == m.statement_lines@.len()
    &&& forall|i: int|
        0 <= i < s.entries@.len() ==> doc_entry_matches(
            #[trigger] s.entries@[i],
            m.statement_lines@[i],
            i,
            m.opening_balance.currency@,
        )
}

/// Builds the transaction detail sub-record of one entry: the end-to-end id
/// starts as the line's bank reference and is overwritten by the trailing
/// text of each narrative line carrying the tag, so the last match wins.
fn create_transaction_details(l: &MtStatementLine) -> (r: TxDtls)
    requires
        line_wf(*l),
    ensures
        tx_detail_matches(r, *l),
{
    let ghost init: Option<Seq<char>> = match &l.bank_reference {
        Some(rf) => Some(rf@),
        None => None,
    };
    let mut e2e: Option<String> = match &l.bank_reference {
        Some(rf) => Some(rf.clone()),
        None => None,
    };
    match &l.narrative {
        Some(nar) => {
            let mut i: usize = 0;
            proof {
                reveal_strlit("EndToEndId:");
                assert(nar.deep_view().take(0) =~~= Seq::<Seq<char>>::empty());
            }
            while i < nar.len()
                invariant
                    0 <= i <= nar@.len(),
                    opt_str_matches(e2e, spec_scan_e2e(nar.deep_view().take(i as int), init)),
                decreases nar@.len() - i,
            {
                let ghost pre = nar.deep_view().take(i as int);
                let ghost post = nar.deep_view().take(i as int + 1);
                proof {
                    reveal_strlit("EndToEndId:");
                    assert(post.drop_last() =~~= pre);
                    assert(post.last() == nar.deep_view()[i as int]);
                    assert(nar.deep_view()[i as int] == nar@[i as int]@);
                }
                let line = &nar[i];
                match find_str(line.as_str(), "EndToEndId:") {
                    Some(pos) => {
                        proof {
                            lemma_find_from_in_range(line@, "EndToEndId:"@, 0, pos as int);
                        }
                        let plen = "EndToEndId:".unicode_len();
                        let llen = line.as_str().unicode_len();
                        let tail = line.as_str().substring_char(pos + plen, llen);
                        e2e = Some(trim_str(tail));
                        proof {
                            assert(contains_seq(line@, "EndToEndId:"@));
                            assert(tail@ == line@.subrange(
                                pos + "EndToEndId:"@.len(),
                                line@.len() as int,
                            ));
                        }
                    },
                    None => {
                        proof {
                            assert(!contains_seq(line@, "EndToEndId:"@));
                        }
                    },
                }
                i += 1;
            }
            proof {
                assert(nar.deep_view().take(nar@.len() as int) =~~= nar.deep_view());
            }
        },
        None => {},
    }
    TxDtls {
        refs: Some(Refs { end_to_end_id: e2e }),
        amt_dtls: Some(
            AmtDtls {
                tx_amt: TxAmt {
                    amt: Amount {
                        ccy: String::from_str("EUR"),
                        value: amount_to_string(l.amount as i128),
                    },
                },
            },
        ),
        rltd_pties: None,
        rltd_dts: Some(
            RltdDts {
                accptnc_dt_tm: date_to_string(&l.value_date).concat("T00:00:00"),
            },
        ),
    }
}

/// Translates a message mark (`D`/`C`) into the document credit/debit
/// indicator (`DBIT`/`CRDT`), failing closed on any other input.
fn mark_to_ind(mark: &str) -> (r: Result<String, ParsingError>)
    ensures
        match r {
            Ok(m) => spec_mark_to_ind(mark@) == Some(m@),
            Err(e) => {
                &&& spec_mark_to_ind(mark@) is None
                &&& mark_err_matches(e, mark@)
            },
        },
{
    if str_eq(mark, "D") {
        Ok(String::from_str("DBIT"))
    } else if str_eq(mark, "C") {
        Ok(String::from_str("CRDT"))
    } else {
        Err(
            ParsingError::InvalidIndicator(
                String::from_str("Invalid MT940 debit/credit indicator: ").concat(mark),
            ),
        )
    }
}

impl Mt940Message {
    /// Count and sum, in minor units, of the statement lines whose mark is
    /// `C`; lines with any other mark are counted in neither direction.
    #[verifier::loop_isolation(false)]
    fn calculate_credit_transactions(&self) -> (r: (usize, i128))
        requires
            message_wf(*self),
        ensures
            r.0 as int == credit_count(self.statement_lines@),
            r.1 as int == credit_sum(self.statement_lines@),
            -(self.statement_lines@.len() * AMOUNT_LIMIT) <= r.1 as int <= self.statement_lines@.len() * AMOUNT_LIMIT,
    {
        let lines = &self.statement_lines;
        let mut count: usize = 0;
        let mut sum: i128 = 0;
        let mut i: usize = 0;
        proof {
            assert(lines@.take(0) =~= Seq::<MtStatementLine>::empty());
        }
        while i < lines.len()
            invariant
                0 <= i <= lines@.len(),
                count <= i,
                count as int == credit_count(lines@.take(i as int)),
                sum as int == credit_sum(lines@.take(i as int)),
                -(i as int * AMOUNT_LIMIT) <= sum as int <= i as int * AMOUNT_LIMIT,
            decreases lines@.len() - i,
        {
            let ghost pre = lines@.take(i as int);
            let ghost post = lines@.take(i as int + 1);
            proof {
                assert(post.drop_last() =~= pre);
                assert(post.last() == lines@[i as int]);
                assert(line_wf(lines@[i as int]));
            }
            if str_eq(lines[i].debit_credit_mark.as_str(), "C") {
                count = count + 1;
                sum = sum + lines[i].amount as i128;
            }
            i += 1;
        }
        proof {
            assert(lines@.take(lines@.len() as int) =~= lines@);
        }
        (count, sum)
    }

    /// Count and sum, in minor units, of the statement lines whose mark is
    /// `D`.
    #[verifier::loop_isolation(false)]
    fn calculate_debit_transactions(&self) -> (r: (usize, i128))
        requires
            message_wf(*self),
        ensures
            r.0 as int == debit_count(self.statement_lines@),
            r.1 as int == debit_sum(self.statement_lines@),
            -(self.statement_lines@.len() * AMOUNT_LIMIT) <= r.1 as int <= self.statement_lines@.len() * AMOUNT_LIMIT,
    {
        let lines = &self.statement_lines;
        let mut count: usize = 0;
        let mut sum: i128 = 0;
        let mut i: usize = 0;
        proof {
            assert(lines@.take(0) =~= Seq::<MtStatementLine>::empty());
        }
        while i < lines.len()
            invariant
                0 <= i <= lines@.len(),
                count <= i,
                count as int == debit_count(lines@.take(i as int)),
                sum as int == debit_sum(lines@.take(i as int)),
                -(i as int * AMOUNT_LIMIT) <= sum as int <= i as int * AMOUNT_LIMIT,
            decreases lines@.len() - i,
        {
            let ghost pre = lines@.take(i as int);
            let ghost post = lines@.take(i as int + 1);
            proof {
                assert(post.drop_last() =~= pre);
                assert(post.last() == lines@[i as int]);
                assert(line_wf(lines@[i as int]));
            }
            if str_eq(lines[i].debit_credit_mark.as_str(), "D") {
                count = count + 1;
                sum = sum + lines[i].amount as i128;
            }
            i += 1;
        }
        proof {
            assert(lines@.take(lines@.len() as int) =~= lines@);
        }
        (count, sum)
    }

    /// Reverse-maps a four-letter transaction type onto a bank-transaction
    /// family code; unrecognized types become the generic payment family.
    fn determine_family_code(&self, transaction_type: &str) -> (r: Result<String, ParsingError>)
        ensures
            r matches Ok(t) && t@ == spec_family_code(transaction_type@),
    {
        if str_eq(transaction_type, "CRED") {
            Ok(String::from_str("RCDT"))
        } else if str_eq(transaction_type, "DEBT") {
            Ok(String::from_str("ICDT"))
        } else if str_eq(transaction_type, "CARD") {
            Ok(String::from_str("MCRD"))
        } else {
            Ok(String::from_str("PMNT"))
        }
    }

    /// Derives the transaction summary: total entry count, credit and debit
    /// counts and sums, and the net amount reported as a magnitude with its
    /// own credit/debit indicator.
    fn create_transaction_summary(&self) -> (r: TxsSummry)
        requires
            message_wf(*self),
        ensures
            summary_matches(r, self.statement_lines@),
    {
        let total = self.statement_lines.len();
        let (credit_n, credit_s) = self.calculate_credit_transactions();
        let (debit_n, debit_s) = self.calculate_debit_transactions();
        let net: i128 = credit_s - debit_s;
        let net_ind = if net >= 0 {
            String::from_str("CRDT")
        } else {
            String::from_str("DBIT")
        };
        let net_abs: i128 = if net < 0 {
            -net
        } else {
            net
        };
        TxsSummry {
            ttl_ntries: TtlNtries {
                nb_of_ntries: usize_to_string(total),
                ttl_net_ntry_amt: amount_to_string(net_abs),
                cdt_dbt_ind: net_ind,
            },
            ttl_cdt_ntries: TtlCdtNtries {
                nb_of_ntries: usize_to_string(credit_n),
                sum: amount_to_string(credit_s),
            },
            ttl_dbt_ntries: TtlDbtNtries {
                nb_of_ntries: usize_to_string(debit_n),
                sum: amount_to_string(debit_s),
            },
        }
    }

    /// Expands the three message balance fields into document balance
    /// records, in the fixed order opening-booked, closing-booked, and,
    /// where present, closing-available.
    fn create_balances(&self) -> (r: Result<Vec<Bal>, ParsingError>)
        requires
            message_wf(*self),
        ensures
            match r {
                Ok(v) => {
                    &&& spec_mark_to_ind(self.opening_balance.debit_credit_mark@) is Some
                    &&& spec_mark_to_ind(self.closing_balance.debit_credit_mark@) is Some
                    &&& (self.closing_available_balance matches Some(b) ==> spec_mark_to_ind(
                        b.debit_credit_mark@,
                    ) is Some)
                    &&& v@.len() == (if self.closing_available_balance is Some {
                        3int
                    } else {
                        2int
                    })
                    &&& doc_bal_matches(v@[0], "OPBD"@, self.opening_balance)
                    &&& doc_bal_matches(v@[1], "CLBD"@, self.closing_balance)
                    &&& (self.closing_available_balance matches Some(f) ==> doc_bal_matches(
                        v@[2],
                        "CLAV"@,
                        f,
                    ))
                },
                Err(e) => {
                    &&& !to_camt053_ok(*self)
                    &&& to_camt053_err_matches(e, *self)
                },
            },
    {
        let mut balances: Vec<Bal> = Vec::new();
        let op_ind = match mark_to_ind(self.opening_balance.debit_credit_mark.as_str()) {
            Ok(x) => x,
            Err(e) => {
                return Err(e);
            },
        };
        balances.push(
            Bal {
                tp: BalTp { cd_or_prtry: CdOrPrtry { cd: String::from_str("OPBD") } },
                amt: Amount {
                    ccy: self.opening_balance.currency.clone(),
                    value: amount_to_string(self.opening_balance.amount as i128),
                },
                cdt_dbt_ind: op_ind,
                dt: BalDt { dt: date_to_string(&self.opening_balance.value_date) },
            },
        );
        let cl_ind = match mark_to_ind(self.closing_balance.debit_credit_mark.as_str()) {
            Ok(x) => x,
            Err(e) => {
                return Err(e);
            },
        };
        balances.push(
            Bal {
                tp: BalTp { cd_or_prtry: CdOrPrtry { cd: String::from_str("CLBD") } },
                amt: Amount {
                    ccy: self.closing_balance.currency.clone(),
                    value: amount_to_string(self.closing_balance.amount as i128),
                },
                cdt_dbt_ind: cl_ind,
                dt: BalDt { dt: date_to_string(&self.closing_balance.value_date) },
            },
        );
        match &self.closing_available_balance {
            Some(f) => {
                let av_ind = match mark_to_ind(f.debit_credit_mark.as_str()) {
                    Ok(x) => x,
                    Err(e) => {
                        return Err(e);
                    },
                };
                balances.push(
                    Bal {
                        tp: BalTp { cd_or_prtry: CdOrPrtry { cd: String::from_str("CLAV") } },
                        amt: Amount {
                            ccy: f.currency.clone(),
                            value: amount_to_string(f.amount as i128),
                        },
                        cdt_dbt_ind: av_ind,
                        dt: BalDt { dt: date_to_string(&f.value_date) },
                    },
                );
            },
            None => {},
        }
        Ok(balances)
    }

    /// Expands the statement lines into document entries, one per line in
    /// source order, each with a one-based sequential synthetic reference.
    #[verifier::loop_isolation(false)]
    fn create_entries(&self) -> (r: Result<Vec<Ntry>, ParsingError>)
        requires
            message_wf(*self),
        ensures
            match r {
                Ok(v) => {
                    &&& (forall|i: int|
                        0 <= i < self.statement_lines@.len() ==> line_mark_ok(
                            #[trigger] self.statement_lines@[i],
                        ))
                    &&& v@.len() == self.statement_lines@.len()
                    &&& forall|i: int|
                        0 <= i < v@.len() ==> doc_entry_matches(
                            #[trigger] v@[i],
                            self.statement_lines@[i],
                            i,
                            self.opening_balance.currency@,
                        )
                },
                Err(e) => first_bad_line_err(e, self.statement_lines@),
            },
    {
        let lines = &self.statement_lines;
        let mut entries: Vec<Ntry> = Vec::new();
        let mut i: usize = 0;
        while i < lines.len()
            invariant
                0 <= i <= lines@.len(),
                entries@.len() == i,
                forall|j: int| 0 <= j < i ==> line_mark_ok(#[trigger] lines@[j]),
                forall|j: int|
                    0 <= j < i ==> doc_entry_matches(
                        #[trigger] entries@[j],
                        lines@[j],
                        j,
                        self.opening_balance.currency@,
                    ),
            decreases lines@.len() - i,
        {
            let line = &lines[i];
            proof {
                assert(line_wf(lines@[i as int]));
            }
            let ind = match mark_to_ind(line.debit_credit_mark.as_str()) {
                Ok(x) => x,
                Err(e) => {
                    return Err(e);
                },
            };
            let family = match self.determine_family_code(line.transaction_type.as_str()) {
                Ok(t) => t,
                Err(e) => {
                    return Err(e);
                },
            };
            let mut tx_dtls: Vec<TxDtls> = Vec::new();
            tx_dtls.push(create_transaction_details(line));
            let entry = Ntry {
                ntry_ref: usize_to_string(i + 1),
                amt: Amount {
                    ccy: self.opening_balance.currency.clone(),
                    value: amount_to_string(line.amount as i128),
                },
                cdt_dbt_ind: ind,
                sts: String::from_str("BOOK"),
                bookg_dt: BookgDt { dt: date_to_string(&line.value_date) },
                val_dt: ValDt { dt: date_to_string(&line.value_date) },
                acct_svcr_ref: line.customer_reference.clone(),
                bk_tx_cd: BkTxCd {
                    domn: Domn {
                        cd: String::from_str("PMNT"),
                        fmly: Fmly {
                            cd: family,
                            sub_fmly_cd: String::from_str("STDO"),
                        },
                    },
                    prtry: Prtry {
                        cd: line.transaction_type.clone(),
                        issr: String::from_str("BANK"),
                    },
                },
                ntry_dtls: NtryDtls { tx_dtls },
            };
            entries.push(entry);
            i += 1;
        }
        Ok(entries)
    }

    /// Expands the message into a structured statement document, stamping
    /// the given creation timestamp into both headers: the whole
    /// message-to-statement transcoding step for an injected clock reading.
    pub fn to_camt053_at(&self, now: &str) -> (r: Result<Document, ParsingError>)
        requires
            message_wf(*self),
        ensures
            match r {
                Ok(d) => to_camt053_ok(*self) && doc_matches_message(d, *self, now@),
                Err(e) => !to_camt053_ok(*self) && to_camt053_err_matches(e, *self),
            },
    {
        let balances = match self.create_balances() {
            Ok(v) => v,
            Err(e) => {
                return Err(e);
            },
        };
        let summary = self.create_transaction_summary();
        let entries = match self.create_entries() {
            Ok(v) => v,
            Err(e) => {
                return Err(e);
            },
        };
        let document = Document {
            bk_to_cstmr_stmt: BkToCstmrStmt {
                grp_hdr: GrpHdr {
                    msg_id: self.reference.clone(),
                    cre_dt_tm: String::from_str(now),
                },
                stmt: Stmt {
                    id: self.reference.clone(),
                    elctrnc_seq_nb: self.statement_number as i32,
                    lgl_seq_nb: (match self.sequence_number {
                        Some(q) => q,
                        None => 1,
                    }) as i32,
                    cre_dt_tm: String::from_str(now),
                    fr_to_dt: FrToDt {
                        fr_dt_tm: date_to_string(&self.opening_balance.value_date).concat(
                            "T00:00:00",
                        ),
                        to_dt_tm: date_to_string(&self.closing_balance.value_date).concat(
                            "T23:59:59",
                        ),
                    },
                    acct: Acct {
                        id: AccountId { iban: Some(self.account_id.clone()) },
                        ccy: self.opening_balance.currency.clone(),
                        nm: String::from_str("Account Holder"),
                        ownr: Ownr {
                            nm: String::from_str("Account Owner"),
                            pstl_adr: PstlAdr {
                                strt_nm: Some(String::from_str("Street")),
                                bldg_nb: Some(String::from_str("123")),
                                pst_cd: Some(String::from_str("12345")),
                                twn_nm: Some(String::from_str("City")),
                                ctry: Some(String::from_str("XX")),
                                adr_line: None,
                            },
                            id: OwnrId {
                                org_id: OrgId {
                                    othr: Othr {
                                        id: String::from_str("1234567890"),
                                        schme_nm: SchmeNm { cd: String::from_str("CUST") },
                                    },
                                },
                            },
                        },
                        svcr: Svcr {
                            fin_instn_id: FinInstnId {
                                bic: Some(String::from_str("XXXXXXXXXXX")),
                                nm: Some(String::from_str("Bank Name")),
                                pstl_adr: None,
                            },
                        },
                    },
                    balances,
                    txs_summry: Some(summary),
                    entries,
                },
            },
        };
        Ok(document)
    }

    /// Expands the message into a structured statement document, reading the
    /// wall clock for the creation timestamp. Everything but that timestamp
    /// is pinned down; the timestamp is whatever the clock returned, stamped
    /// identically into both headers.
    pub fn to_camt053(&self) -> (r: Result<Document, ParsingError>)
        requires
            message_wf(*self),
        ensures
            match r {
                Ok(d) => to_camt053_ok(*self) && doc_matches_message(
                    d,
                    *self,
                    d.bk_to_cstmr_stmt.grp_hdr.cre_dt_tm@,
                ),
                Err(e) => !to_camt053_ok(*self) && to_camt053_err_matches(e, *self),
            },
    {
        let now = now_timestamp();
        self.to_camt053_at(now.as_str())
    }
}

} // verus!
