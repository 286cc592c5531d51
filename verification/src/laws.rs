//! Laws of the two transcoders: statements that span several functions or
//! all inputs, proved once here against the same spec functions the
//! functions' own contracts use.

use vstd::prelude::*;

use crate::cam_struct::Document;
use crate::cam_struct::Ntry;
use crate::camt053::bal_ok;
use crate::camt053::entry_ok;
use crate::camt053::spec_clav_balance;
use crate::camt053::spec_closing_balance;
use crate::camt053::spec_find_balance;
use crate::camt053::spec_detail_narrative;
use crate::camt053::spec_narrative;
use crate::camt053::spec_opening_balance;
use crate::camt053::to_mt940_err_matches;
use crate::camt053::to_mt940_ok;
use crate::error::ParsingError;
use crate::indicators::spec_ind_to_mark;
use crate::indicators::spec_mark_to_ind;
use crate::mt_struct::MtStatementLine;
use crate::mt940_parsing::after_first;
use crate::mt940_parsing::credit_count;
use crate::mt940_parsing::debit_count;
use crate::mt940_parsing::spec_scan_e2e;
use crate::strutil::contains_seq;
use crate::strutil::dec_digits;
use crate::strutil::find_from;
use crate::strutil::int_str_spec;
use crate::strutil::is_digit_char;
use crate::strutil::lemma_dec_digits_chars;
use crate::strutil::lemma_find_from_in_range;
use crate::strutil::lemma_match_implies_found;
use crate::strutil::trim_spec;

verus! {

/// A document whose account carries an IBAN, whose opening and closing
/// balances resolve and convert, whose closing-available balance converts
/// where present, and whose entries all convert, is accepted by the
/// statement-to-message conversion; by `to_mt940`'s contract the call then
/// returns a message whose reference equals the document's statement id.
pub proof fn lemma_to_message_succeeds(d: Document)
    requires
        d.bk_to_cstmr_stmt.stmt.acct.id.iban is Some,
        spec_opening_balance(d.bk_to_cstmr_stmt.stmt) is Some,
        spec_closing_balance(d.bk_to_cstmr_stmt.stmt) is Some,
        bal_ok(spec_opening_balance(d.bk_to_cstmr_stmt.stmt).unwrap()),
        bal_ok(spec_closing_balance(d.bk_to_cstmr_stmt.stmt).unwrap()),
        spec_clav_balance(d.bk_to_cstmr_stmt.stmt) matches Some(b) ==> bal_ok(b),
        forall|i: int|
            0 <= i < d.bk_to_cstmr_stmt.stmt.entries@.len() ==> entry_ok(
                #[trigger] d.bk_to_cstmr_stmt.stmt.entries@[i],
            ),
    ensures
        to_mt940_ok(d),
{
}

/// A document that resolves no opening balance, neither booked nor
/// available, is rejected, and whatever error the conversion raises is a
/// missing-field error.
pub proof fn lemma_missing_opening_balance(d: Document, e: ParsingError)
    requires
        spec_find_balance(d.bk_to_cstmr_stmt.stmt.balances@, "OPBD"@) is None,
        spec_find_balance(d.bk_to_cstmr_stmt.stmt.balances@, "OPAV"@) is None,
        to_mt940_err_matches(e, d),
    ensures
        !to_mt940_ok(d),
        e is MissingField,
{
}

/// A document whose account carries no IBAN is rejected, and the error the
/// conversion raises is a missing-field error.
pub proof fn lemma_missing_iban(d: Document, e: ParsingError)
    requires
        d.bk_to_cstmr_stmt.stmt.acct.id.iban is None,
        to_mt940_err_matches(e, d),
    ensures
        !to_mt940_ok(d),
        e is MissingField,
{
}

/// The two indicator translations are mutual inverses on their accepted
/// vocabularies, and each rejects exactly the inputs outside its vocabulary.
pub proof fn lemma_indicator_round_trip(x: Seq<char>, y: Seq<char>)
    ensures
        spec_ind_to_mark(x) matches Some(m) ==> spec_mark_to_ind(m) == Some(x),
        spec_mark_to_ind(y) matches Some(c) ==> spec_ind_to_mark(c) == Some(y),
        spec_ind_to_mark(x) is None <==> (x != "DBIT"@ && x != "CRDT"@),
        spec_mark_to_ind(y) is None <==> (y != "D"@ && y != "C"@),
{
    reveal_strlit("D");
    reveal_strlit("C");
    reveal_strlit("DBIT");
    reveal_strlit("CRDT");
    assert("D"@[0] == 'D' && "C"@[0] == 'C');
    assert("DBIT"@[0] == 'D' && "CRDT"@[0] == 'C');
    if x == "DBIT"@ {
        assert(spec_ind_to_mark(x) == Some("D"@));
        assert(spec_mark_to_ind("D"@) == Some("DBIT"@));
    } else if x == "CRDT"@ {
        assert(spec_ind_to_mark(x) == Some("C"@));
        assert(spec_mark_to_ind("C"@) == Some("CRDT"@));
    } else {
        assert(spec_ind_to_mark(x) is None);
    }
    if y == "D"@ {
        assert(spec_mark_to_ind(y) == Some("DBIT"@));
        assert(spec_ind_to_mark("DBIT"@) == Some("D"@));
    } else if y == "C"@ {
        assert(spec_mark_to_ind(y) == Some("CRDT"@));
        assert(spec_ind_to_mark("CRDT"@) == Some("C"@));
    } else {
        assert(spec_mark_to_ind(y) is None);
    }
}

/// In any transaction summary, the credit count plus the debit count never
/// exceeds the number of statement lines, with equality exactly when every
/// line's mark is strictly `C` or `D`.
pub proof fn lemma_summary_counts(lines: Seq<MtStatementLine>)
    ensures
        0 <= credit_count(lines),
        0 <= debit_count(lines),
        credit_count(lines) + debit_count(lines) <= lines.len(),
        (credit_count(lines) + debit_count(lines) == lines.len()) <==> (forall|i: int|
            0 <= i < lines.len() ==> ((#[trigger] lines[i]).debit_credit_mark@ == "C"@
                || lines[i].debit_credit_mark@ == "D"@)),
    decreases lines.len(),
{
    reveal_strlit("C");
    reveal_strlit("D");
    assert("C"@[0] == 'C' && "D"@[0] == 'D');
    assert("C"@ != "D"@);
    if lines.len() > 0 {
        let pre = lines.drop_last();
        lemma_summary_counts(pre);
        assert(forall|i: int| 0 <= i < pre.len() ==> pre[i] == lines[i]);
        let ic: int = if lines.last().debit_credit_mark@ == "C"@ {
            1
        } else {
            0
        };
        let dc: int = if lines.last().debit_credit_mark@ == "D"@ {
            1
        } else {
            0
        };
        assert(credit_count(lines) == credit_count(pre) + ic);
        assert(debit_count(lines) == debit_count(pre) + dc);
        assert(ic + dc <= 1);
        if credit_count(lines) + debit_count(lines) == lines.len() {
            assert(credit_count(pre) + debit_count(pre) == pre.len());
            assert(ic + dc == 1);
            assert forall|i: int|
                0 <= i < lines.len() implies ((#[trigger] lines[i]).debit_credit_mark@ == "C"@
                || lines[i].debit_credit_mark@ == "D"@) by {
                if i < pre.len() {
                    assert(pre[i] == lines[i]);
                } else {
                    assert(lines[i] == lines.last());
                }
            }
        }
        if forall|i: int|
            0 <= i < lines.len() ==> ((#[trigger] lines[i]).debit_credit_mark@ == "C"@
                || lines[i].debit_credit_mark@ == "D"@) {
            assert forall|i: int|
                0 <= i < pre.len() implies ((#[trigger] pre[i]).debit_credit_mark@ == "C"@
                || pre[i].debit_credit_mark@ == "D"@) by {
                assert(pre[i] == lines[i]);
                assert(lines[i].debit_credit_mark@ == "C"@ || lines[i].debit_credit_mark@
                    == "D"@);
            }
            assert(credit_count(pre) + debit_count(pre) == pre.len());
            assert(lines.last().debit_credit_mark@ == "C"@ || lines.last().debit_credit_mark@
                == "D"@);
            assert(ic + dc == 1);
        }
    }
}

/// A string none of whose characters equals the pattern's first character
/// cannot contain the pattern.
proof fn lemma_no_letter_no_match(s: Seq<char>, pat: Seq<char>)
    requires
        pat.len() > 0,
        forall|p: int| 0 <= p < s.len() ==> #[trigger] s[p] != pat[0],
    ensures
        !contains_seq(s, pat),
{
    let fo = find_from(s, pat, 0);
    if fo is Some {
        let i = fo.unwrap();
        lemma_find_from_in_range(s, pat, 0, i);
        assert(s.subrange(i, i + pat.len() as int)[0] == pat[0]);
        assert(s[i] == pat[0]);
        assert(false);
    }
}

/// Prepending text free of the pattern's first character to a string that
/// does not contain the pattern yields a string that does not contain it.
proof fn lemma_prefix_no_match(pre: Seq<char>, text: Seq<char>, pat: Seq<char>)
    requires
        pat.len() > 0,
        forall|p: int| 0 <= p < pre.len() ==> #[trigger] pre[p] != pat[0],
        !contains_seq(text, pat),
    ensures
        !contains_seq(pre + text, pat),
{
    let line = pre + text;
    let fo = find_from(line, pat, 0);
    if fo is Some {
        let i = fo.unwrap();
        lemma_find_from_in_range(line, pat, 0, i);
        assert(line.subrange(i, i + pat.len() as int)[0] == pat[0]);
        assert(line[i] == pat[0]);
        if i < pre.len() {
            assert(pre[i] == pat[0]);
            assert(false);
        } else {
            let k = i - pre.len();
            assert(text.subrange(k, k + pat.len() as int) =~= line.subrange(
                i,
                i + pat.len() as int,
            ));
            lemma_match_implies_found(text, pat, 0, k);
            assert(false);
        }
    }
}

/// Narrative round trip: for an entry whose first transaction detail
/// carries a non-placeholder end-to-end id without surrounding whitespace,
/// and whose acceptance timestamp and status texts do not themselves carry
/// the end-to-end tag, the narrative that the statement-to-message side
/// builds hands the same id back through the message-to-statement side's
/// narrative scan, whatever value the scan started from.
pub proof fn lemma_narrative_round_trip(n: Ntry, init: Option<Seq<char>>)
    requires
        n.ntry_dtls.tx_dtls@.len() > 0,
        n.ntry_dtls.tx_dtls@[0].refs matches Some(r) && r.end_to_end_id matches Some(id) && id@
            != "NOTPROVIDED"@ && trim_spec(id@) == id@,
        n.ntry_dtls.tx_dtls@[0].rltd_dts matches Some(rd) ==> !contains_seq(
            rd.accptnc_dt_tm@,
            "EndToEndId:"@,
        ),
        !contains_seq(n.sts@, "EndToEndId:"@),
    ensures
        n.ntry_dtls.tx_dtls@[0].refs matches Some(r) && r.end_to_end_id matches Some(id)
            && spec_scan_e2e(spec_narrative(n), init) == Some(id@),
{
    reveal_strlit("EndToEndId:");
    reveal_strlit("EndToEndId: ");
    reveal_strlit("Status: ");
    reveal_strlit("Acceptance: ");
    reveal_strlit("Creditor: ");
    let tok = "EndToEndId:"@;
    let td = n.ntry_dtls.tx_dtls@[0];
    let id = td.refs.unwrap().end_to_end_id.unwrap();
    let e2e_line = "EndToEndId: "@ + id@;
    let nar = spec_narrative(n);
    let detail = spec_detail_narrative(n);
    let status_line = "Status: "@ + n.sts@;
    assert(tok[0] == 'E');

    // The status line, last in the narrative, does not carry the tag.
    assert(forall|p: int| 0 <= p < "Status: "@.len() ==> #[trigger] "Status: "@[p] != 'E');
    lemma_prefix_no_match("Status: "@, n.sts@, tok);
    assert(nar.len() == 1 + detail.len() + 1);
    assert(nar.last() == status_line);
    assert(!contains_seq(nar.last(), tok));
    let rest1 = nar.drop_last();
    assert(spec_scan_e2e(nar, init) == spec_scan_e2e(rest1, init));
    assert(rest1 =~~= seq![n.bk_tx_cd.prtry.cd@] + detail);

    // The acceptance line, when present, does not carry the tag either.
    let rest2: Seq<Seq<char>> = match td.rltd_dts {
        Some(rd) => {
            let acc_line = "Acceptance: "@ + rd.accptnc_dt_tm@;
            assert(forall|p: int|
                0 <= p < "Acceptance: "@.len() ==> #[trigger] "Acceptance: "@[p] != 'E');
            lemma_prefix_no_match("Acceptance: "@, rd.accptnc_dt_tm@, tok);
            assert(rest1.last() == acc_line);
            assert(spec_scan_e2e(rest1, init) == spec_scan_e2e(rest1.drop_last(), init));
            rest1.drop_last()
        },
        None => rest1,
    };

    // Nor does the creditor line: it is the tag-free label followed by a
    // decimal integer, and no character of either is the tag's first letter.
    let rest3: Seq<Seq<char>> = match td.rltd_pties {
        Some(rp) => match rp.cdtr_acct {
            Some(ca) => match ca.id.othr {
                Some(o) => match o.id {
                    Some(cid) => {
                        let ci: int = cid as int;
                        let cline = "Creditor: "@ + int_str_spec(ci);
                        let mag: int = if ci < 0 {
                            -ci
                        } else {
                            ci
                        };
                        lemma_dec_digits_chars(mag);
                        assert(forall|p: int|
                            0 <= p < "Creditor: "@.len() ==> #[trigger] "Creditor: "@[p] != 'E');
                        assert forall|p: int|
                            0 <= p < int_str_spec(ci).len() implies #[trigger] int_str_spec(
                            ci,
                        )[p] != 'E' by {
                            if ci < 0 {
                                if p > 0 {
                                    assert(int_str_spec(ci)[p] == dec_digits(mag)[p - 1]);
                                    assert(is_digit_char(dec_digits(mag)[p - 1]));
                                }
                            } else {
                                assert(int_str_spec(ci)[p] == dec_digits(mag)[p]);
                                assert(is_digit_char(dec_digits(mag)[p]));
                            }
                        }
                        lemma_no_letter_no_match(int_str_spec(ci), tok);
                        lemma_prefix_no_match("Creditor: "@, int_str_spec(ci), tok);
                        assert(rest2.last() == cline);
                        assert(spec_scan_e2e(rest2, init) == spec_scan_e2e(
                            rest2.drop_last(),
                            init,
                        ));
                        rest2.drop_last()
                    },
                    None => rest2,
                },
                None => rest2,
            },
            None => rest2,
        },
        None => rest2,
    };
    assert(rest3 =~~= seq![n.bk_tx_cd.prtry.cd@] + seq![e2e_line]);

    // The end-to-end line itself carries the tag at its head, so the scan
    // stops there, and what stands after the tag trims back to the id.
    assert(e2e_line.subrange(0, 11) =~= tok);
    assert(e2e_line.len() >= 12);
    assert(find_from(e2e_line, tok, 0) == Some(0int));
    assert(contains_seq(e2e_line, tok));
    assert(rest3.last() == e2e_line);
    assert(spec_scan_e2e(rest3, init) == Some(
        after_first(e2e_line, tok),
    ));
    let after = e2e_line.subrange(tok.len() as int, e2e_line.len() as int);
    assert(after =~= seq![' '] + id@);
    assert((seq![' '] + id@).drop_first() =~= id@);
    assert(trim_spec(after) == trim_spec(id@));
    assert(after_first(e2e_line, tok) == id@);
}

} // verus!
