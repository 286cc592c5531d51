use parsing::ParsingError;
use parsing::cam_struct::Acct;
use parsing::cam_struct::AccountId;
use parsing::cam_struct::AccountIdSecond;
use parsing::cam_struct::AccountPties;
use parsing::cam_struct::Amount;
use parsing::cam_struct::Bal;
use parsing::cam_struct::BalDt;
use parsing::cam_struct::BalTp;
use parsing::cam_struct::BkToCstmrStmt;
use parsing::cam_struct::BkTxCd;
use parsing::cam_struct::BookgDt;
use parsing::cam_struct::CdOrPrtry;
use parsing::cam_struct::Document;
use parsing::cam_struct::Domn;
use parsing::cam_struct::FinInstnId;
use parsing::cam_struct::Fmly;
use parsing::cam_struct::FrToDt;
use parsing::cam_struct::GrpHdr;
use parsing::cam_struct::Id;
use parsing::cam_struct::Ntry;
use parsing::cam_struct::NtryDtls;
use parsing::cam_struct::OrgId;
use parsing::cam_struct::Othr;
use parsing::cam_struct::Ownr;
use parsing::cam_struct::OwnrId;
use parsing::cam_struct::Prtry;
use parsing::cam_struct::PstlAdr;
use parsing::cam_struct::Refs;
use parsing::cam_struct::RltdDts;
use parsing::cam_struct::RltdPties;
use parsing::cam_struct::SchmeNm;
use parsing::cam_struct::Stmt;
use parsing::cam_struct::Svcr;
use parsing::cam_struct::TxDtls;
use parsing::cam_struct::ValDt;
use parsing::dates::Date;
use parsing::mt_struct::Mt940Message;
use parsing::mt_struct::MtBalance;
use parsing::mt_struct::MtStatementLine;

fn bal(code: &str, ccy: &str, value: &str, ind: &str, date: &str) -> Bal {
    Bal {
        tp: BalTp { cd_or_prtry: CdOrPrtry { cd: code.to_string() } },
        amt: Amount { ccy: ccy.to_string(), value: value.to_string() },
        cdt_dbt_ind: ind.to_string(),
        dt: BalDt { dt: date.to_string() },
    }
}

fn entry(ind: &str, value: &str, family: &str, details: Vec<TxDtls>) -> Ntry {
    Ntry {
        ntry_ref: "ENTRYREF1".to_string(),
        amt: Amount { ccy: "DKK".to_string(), value: value.to_string() },
        cdt_dbt_ind: ind.to_string(),
        sts: "BOOK".to_string(),
        bookg_dt: BookgDt { dt: "2023-04-05".to_string() },
        val_dt: ValDt { dt: "2023-04-06".to_string() },
        acct_svcr_ref: "SVCRREF".to_string(),
        bk_tx_cd: BkTxCd {
            domn: Domn {
                cd: "PMNT".to_string(),
                fmly: Fmly { cd: family.to_string(), sub_fmly_cd: "STDO".to_string() },
            },
            prtry: Prtry { cd: "PROP".to_string(), issr: "BANK".to_string() },
        },
        ntry_dtls: NtryDtls { tx_dtls: details },
    }
}


fn doc(iban: Option<String>, balances: Vec<Bal>, entries: Vec<Ntry>) -> Document {
    Document {
        bk_to_cstmr_stmt: BkToCstmrStmt {
            grp_hdr: GrpHdr {
                msg_id: "MSG0001".to_string(),
                cre_dt_tm: "2023-04-20T23:24:31".to_string(),
            },
            stmt: Stmt {
                id: "STMT0001".to_string(),
                elctrnc_seq_nb: 17,
                lgl_seq_nb: 4,
                cre_dt_tm: "2023-04-20T23:24:31".to_string(),
                fr_to_dt: FrToDt {
                    fr_dt_tm: "2023-04-01T00:00:00".to_string(),
                    to_dt_tm: "2023-04-30T23:59:59".to_string(),
                },
                acct: Acct {
                    id: AccountId { iban },
                    ccy: "DKK".to_string(),
                    nm: "Some Account".to_string(),
                    ownr: Ownr {
                        nm: "Some Owner".to_string(),
                        pstl_adr: PstlAdr {
                            strt_nm: None,
                            bldg_nb: None,
                            pst_cd: None,
                            twn_nm: None,
                            ctry: None,
                            adr_line: None,
                        },
                        id: OwnrId {
                            org_id: OrgId {
                                othr: Othr {
                                    id: "OWNER1".to_string(),
                                    schme_nm: SchmeNm { cd: "CUST".to_string() },
                                },
                            },
                        },
                    },
                    svcr: Svcr {
                        fin_instn_id: FinInstnId { bic: None, nm: None, pstl_adr: None },
                    },
                },
                balances,
                txs_summry: None,
                entries,
            },
        },
    }
}

fn mt_balance(mark: &str, ccy: &str, minor: i64, y: u16, mo: u8, d: u8) -> MtBalance {
    MtBalance {
        value_date: Date { year: y, month: mo, day: d },
        debit_credit_mark: mark.to_string(),
        currency: ccy.to_string(),
        amount: minor,
    }
}

fn mt_line(mark: &str, minor: i64, narrative: Option<Vec<String>>) -> MtStatementLine {
    MtStatementLine {
        value_date: Date { year: 2024, month: 10, day: 1 },
        entry_date: Some("1001".to_string()),
        debit_credit_mark: mark.to_string(),
        amount: minor,
        transaction_type: "NTRF".to_string(),
        customer_reference: "NONREF".to_string(),
        bank_reference: Some("BANKREF".to_string()),
        narrative,
    }
}

fn msg(lines: Vec<MtStatementLine>) -> Mt940Message {
    Mt940Message {
        reference: "123456789".to_string(),
        related_reference: None,
        account_id: "123456789/12345678".to_string(),
        statement_number: 1,
        sequence_number: Some(1),
        opening_balance: mt_balance("C", "EUR", 1_234_567, 2024, 9, 30),
        statement_lines: lines,
        closing_balance: mt_balance("C", "EUR", 1_267_900, 2024, 10, 2),
        closing_available_balance: None,
    }
}

#[test]
fn doc_to_message_scenario() {
    let d = doc(
        Some("DK8030000001234567".to_string()),
        vec![
            bal("OPAV", "DKK", "1000.00", "CRDT", "2023-04-01"),
            bal("CLBD", "DKK", "1200.50", "CRDT", "2023-04-30"),
        ],
        vec![entry("DBIT", "50.00", "ICDT", vec![])],
    );
    let m = d.to_mt940().unwrap();
    assert_eq!(m.reference, "STMT0001");
    assert_eq!(m.account_id, "DK8030000001234567");
    assert_eq!(m.statement_number, 17);
    assert_eq!(m.sequence_number, Some(4));
    assert_eq!(m.opening_balance.debit_credit_mark, "C");
    assert_eq!(m.opening_balance.amount, 100_000);
    assert_eq!(m.opening_balance.currency, "DKK");
    assert_eq!(m.opening_balance.value_date, Date { year: 2023, month: 4, day: 1 });
    assert_eq!(m.closing_balance.debit_credit_mark, "C");
    assert_eq!(m.closing_balance.amount, 120_050);
    assert!(m.closing_available_balance.is_none());
    assert_eq!(m.statement_lines.len(), 1);
    let line = &m.statement_lines[0];
    assert_eq!(line.debit_credit_mark, "D");
    assert_eq!(line.amount, 5_000);
    assert_eq!(line.transaction_type, "DEBT");
    assert_eq!(line.customer_reference, "SVCRREF");
    assert_eq!(line.bank_reference.as_deref(), Some("ENTRYREF1"));
    assert_eq!(line.value_date, Date { year: 2023, month: 4, day: 6 });
    assert_eq!(line.entry_date.as_deref(), Some("0405"));
}

#[test]
fn opening_balance_prefers_booked_over_available() {
    let d = doc(
        Some("DK8030000001234567".to_string()),
        vec![
            bal("OPAV", "DKK", "111.00", "CRDT", "2023-04-01"),
            bal("OPBD", "DKK", "222.00", "CRDT", "2023-04-01"),
            bal("CLBD", "DKK", "333.00", "CRDT", "2023-04-30"),
        ],
        vec![],
    );
    let m = d.to_mt940().unwrap();
    assert_eq!(m.opening_balance.amount, 22_200);
}

#[test]
fn closing_balance_falls_back_to_available() {
    let d = doc(
        Some("DK8030000001234567".to_string()),
        vec![
            bal("OPBD", "DKK", "100.00", "CRDT", "2023-04-01"),
            bal("CLAV", "DKK", "400.00", "DBIT", "2023-04-30"),
        ],
        vec![],
    );
    let m = d.to_mt940().unwrap();
    assert_eq!(m.closing_balance.amount, 40_000);
    assert_eq!(m.closing_balance.debit_credit_mark, "D");
    // the same record also fills the optional closing-available field
    let av = m.closing_available_balance.unwrap();
    assert_eq!(av.amount, 40_000);
}

#[test]
fn missing_iban_is_missing_field() {
    let d = doc(
        None,
        vec![
            bal("OPBD", "DKK", "100.00", "CRDT", "2023-04-01"),
            bal("CLBD", "DKK", "100.00", "CRDT", "2023-04-30"),
        ],
        vec![],
    );
    assert!(matches!(d.to_mt940(), Err(ParsingError::MissingField(_))));
}

#[test]
fn missing_opening_balance_is_missing_field() {
    let d = doc(
        Some("DK8030000001234567".to_string()),
        vec![bal("CLBD", "DKK", "100.00", "CRDT", "2023-04-30")],
        vec![],
    );
    assert!(matches!(d.to_mt940(), Err(ParsingError::MissingField(_))));
}

#[test]
fn missing_closing_balance_is_missing_field() {
    let d = doc(
        Some("DK8030000001234567".to_string()),
        vec![bal("OPBD", "DKK", "100.00", "CRDT", "2023-04-01")],
        vec![],
    );
    assert!(matches!(d.to_mt940(), Err(ParsingError::MissingField(_))));
}

#[test]
fn malformed_balance_fails_strictly() {
    let base = |value: &str, ind: &str, date: &str| {
        doc(
            Some("DK8030000001234567".to_string()),
            vec![
                bal("OPBD", "DKK", value, ind, date),
                bal("CLBD", "DKK", "100.00", "CRDT", "2023-04-30"),
            ],
            vec![],
        )
    };
    assert!(matches!(
        base("100.00", "CRDT", "not-a-date").to_mt940(),
        Err(ParsingError::ParseDateError(_))
    ));
    assert!(matches!(
        base("100.00", "CREDIT", "2023-04-01").to_mt940(),
        Err(ParsingError::InvalidIndicator(_))
    ));
    assert!(matches!(
        base("one hundred", "CRDT", "2023-04-01").to_mt940(),
        Err(ParsingError::InvalidAmount(_))
    ));
}

#[test]
fn malformed_closing_available_is_a_hard_failure() {
    let d = doc(
        Some("DK8030000001234567".to_string()),
        vec![
            bal("OPBD", "DKK", "100.00", "CRDT", "2023-04-01"),
            bal("CLBD", "DKK", "100.00", "CRDT", "2023-04-30"),
            bal("CLAV", "DKK", "broken", "CRDT", "2023-04-30"),
        ],
        vec![],
    );
    assert!(matches!(d.to_mt940(), Err(ParsingError::InvalidAmount(_))));
}

#[test]
fn entry_date_degrades_softly_on_bad_booking_date() {
    let mut e = entry("CRDT", "10.00", "RCDT", vec![]);
    e.bookg_dt.dt = "garbled".to_string();
    let d = doc(
        Some("DK8030000001234567".to_string()),
        vec![
            bal("OPBD", "DKK", "100.00", "CRDT", "2023-04-01"),
            bal("CLBD", "DKK", "110.00", "CRDT", "2023-04-30"),
        ],
        vec![e],
    );
    let m = d.to_mt940().unwrap();
    assert_eq!(m.statement_lines[0].entry_date, None);
    assert_eq!(m.statement_lines[0].transaction_type, "CRED");
}

#[test]
fn transaction_type_mapping() {
    let d = doc(Some("DK8030000001234567".to_string()), vec![], vec![]);
    let code = |family: &str| BkTxCd {
        domn: Domn {
            cd: "PMNT".to_string(),
            fmly: Fmly { cd: family.to_string(), sub_fmly_cd: "STDO".to_string() },
        },
        prtry: Prtry { cd: "PROP".to_string(), issr: "BANK".to_string() },
    };
    assert_eq!(d.determine_transaction_type(&code("RCDT")).unwrap(), "CRED");
    assert_eq!(d.determine_transaction_type(&code("ICDT")).unwrap(), "DEBT");
    assert_eq!(d.determine_transaction_type(&code("MCRD")).unwrap(), "CARD");
    assert_eq!(d.determine_transaction_type(&code("XXXX")).unwrap(), "NTRF");
}

#[test]
fn indicator_translation_and_round_trip() {
    let d = doc(Some("DK8030000001234567".to_string()), vec![], vec![]);
    assert_eq!(d.convert_debit_credit("DBIT").unwrap(), "D");
    assert_eq!(d.convert_debit_credit("CRDT").unwrap(), "C");
    assert!(matches!(
        d.convert_debit_credit("debit"),
        Err(ParsingError::InvalidIndicator(_))
    ));
    assert!(matches!(
        d.convert_debit_credit(""),
        Err(ParsingError::InvalidIndicator(_))
    ));
    // the reverse direction, through the message-to-statement expansion
    let m = msg(vec![mt_line("D", 1_000, None), mt_line("C", 2_000, None)]);
    let out = m.to_camt053_at("2024-01-01T00:00:00").unwrap();
    let entries = &out.bk_to_cstmr_stmt.stmt.entries;
    assert_eq!(entries[0].cdt_dbt_ind, "DBIT");
    assert_eq!(entries[1].cdt_dbt_ind, "CRDT");
}

#[test]
fn narrative_lines_fixed_order() {
    let details = vec![TxDtls {
        refs: Some(Refs { end_to_end_id: Some("E2E42".to_string()) }),
        amt_dtls: None,
        rltd_pties: Some(RltdPties {
            cdtr_acct: Some(AccountPties {
                id: AccountIdSecond { othr: Some(Id { id: Some(77) }) },
            }),
        }),
        rltd_dts: Some(RltdDts { accptnc_dt_tm: "2023-04-06T00:00:00".to_string() }),
    }];
    let e = entry("DBIT", "50.00", "ICDT", details);
    let d = doc(Some("DK8030000001234567".to_string()), vec![], vec![]);
    let narrative = d.build_narrative(&e).unwrap();
    assert_eq!(
        narrative,
        vec![
            "PROP".to_string(),
            "EndToEndId: E2E42".to_string(),
            "Creditor: 77".to_string(),
            "Acceptance: 2023-04-06T00:00:00".to_string(),
            "Status: BOOK".to_string(),
        ]
    );
}

#[test]
fn narrative_skips_placeholder_end_to_end_id() {
    let details = vec![TxDtls {
        refs: Some(Refs { end_to_end_id: Some("NOTPROVIDED".to_string()) }),
        amt_dtls: None,
        rltd_pties: None,
        rltd_dts: None,
    }];
    let e = entry("DBIT", "50.00", "ICDT", details);
    let d = doc(Some("DK8030000001234567".to_string()), vec![], vec![]);
    let narrative = d.build_narrative(&e).unwrap();
    assert_eq!(narrative, vec!["PROP".to_string(), "Status: BOOK".to_string()]);
}

#[test]
fn narrative_round_trip_recovers_end_to_end_id() {
    // statement side: an entry with a non-placeholder end-to-end id
    let details = vec![TxDtls {
        refs: Some(Refs { end_to_end_id: Some("E2E42".to_string()) }),
        amt_dtls: None,
        rltd_pties: None,
        rltd_dts: None,
    }];
    let d = doc(
        Some("DK8030000001234567".to_string()),
        vec![
            bal("OPBD", "DKK", "100.00", "CRDT", "2023-04-01"),
            bal("CLBD", "DKK", "50.00", "CRDT", "2023-04-30"),
        ],
        vec![entry("DBIT", "50.00", "ICDT", details)],
    );
    let m = d.to_mt940().unwrap();
    let narrative = m.statement_lines[0].narrative.clone();
    assert!(narrative.is_some());
    // message side: feed those narrative lines into the expansion
    let back = msg(vec![mt_line("D", 5_000, narrative)]);
    let out = back.to_camt053_at("2024-01-01T00:00:00").unwrap();
    let refs = out.bk_to_cstmr_stmt.stmt.entries[0]
        .ntry_dtls
        .tx_dtls[0]
        .refs
        .as_ref()
        .unwrap();
    assert_eq!(refs.end_to_end_id.as_deref(), Some("E2E42"));
}

#[test]
fn end_to_end_id_defaults_to_bank_reference() {
    let m = msg(vec![mt_line("D", 5_000, Some(vec!["no tag here".to_string()]))]);
    let out = m.to_camt053_at("2024-01-01T00:00:00").unwrap();
    let refs = out.bk_to_cstmr_stmt.stmt.entries[0]
        .ntry_dtls
        .tx_dtls[0]
        .refs
        .as_ref()
        .unwrap();
    assert_eq!(refs.end_to_end_id.as_deref(), Some("BANKREF"));
}

#[test]
fn end_to_end_id_last_match_wins() {
    let narrative = vec![
        "EndToEndId: FIRST".to_string(),
        "middle".to_string(),
        "EndToEndId:   SECOND  ".to_string(),
    ];
    let m = msg(vec![mt_line("D", 5_000, Some(narrative))]);
    let out = m.to_camt053_at("2024-01-01T00:00:00").unwrap();
    let refs = out.bk_to_cstmr_stmt.stmt.entries[0]
        .ntry_dtls
        .tx_dtls[0]
        .refs
        .as_ref()
        .unwrap();
    assert_eq!(refs.end_to_end_id.as_deref(), Some("SECOND"));
}

#[test]
fn message_to_document_summary_scenario() {
    let m = msg(vec![mt_line("D", 12_345, None), mt_line("C", 45_678, None)]);
    let out = m.to_camt053_at("2024-01-01T00:00:00").unwrap();
    let summary = out.bk_to_cstmr_stmt.stmt.txs_summry.unwrap();
    assert_eq!(summary.ttl_ntries.nb_of_ntries, "2");
    assert_eq!(summary.ttl_cdt_ntries.nb_of_ntries, "1");
    assert_eq!(summary.ttl_cdt_ntries.sum, "456.78");
    assert_eq!(summary.ttl_dbt_ntries.nb_of_ntries, "1");
    assert_eq!(summary.ttl_dbt_ntries.sum, "123.45");
    assert_eq!(summary.ttl_ntries.cdt_dbt_ind, "CRDT");
    assert_eq!(summary.ttl_ntries.ttl_net_ntry_amt, "333.33");
}

#[test]
fn net_debit_summary_reports_magnitude() {
    let m = msg(vec![mt_line("D", 50_000, None), mt_line("C", 20_000, None)]);
    let out = m.to_camt053_at("2024-01-01T00:00:00").unwrap();
    let summary = out.bk_to_cstmr_stmt.stmt.txs_summry.unwrap();
    assert_eq!(summary.ttl_ntries.cdt_dbt_ind, "DBIT");
    assert_eq!(summary.ttl_ntries.ttl_net_ntry_amt, "300.00");
}

#[test]
fn unmarked_lines_count_in_neither_direction() {
    let m = msg(vec![mt_line("D", 1_000, None)]);
    // a line with an unknown mark fails the whole expansion
    let mut bad = msg(vec![mt_line("X", 1_000, None)]);
    bad.statement_lines[0].debit_credit_mark = "X".to_string();
    assert!(matches!(
        bad.to_camt053_at("2024-01-01T00:00:00"),
        Err(ParsingError::InvalidIndicator(_))
    ));
    assert!(m.to_camt053_at("2024-01-01T00:00:00").is_ok());
}

#[test]
fn bad_balance_mark_fails_expansion() {
    let mut m = msg(vec![]);
    m.opening_balance.debit_credit_mark = "Z".to_string();
    assert!(matches!(
        m.to_camt053_at("2024-01-01T00:00:00"),
        Err(ParsingError::InvalidIndicator(_))
    ));
}

#[test]
fn document_structure_from_message() {
    let m = msg(vec![mt_line("D", 12_345, None), mt_line("C", 45_678, None)]);
    let out = m.to_camt053_at("2024-05-06T07:08:09").unwrap();
    let bk = &out.bk_to_cstmr_stmt;
    assert_eq!(bk.grp_hdr.msg_id, "123456789");
    assert_eq!(bk.grp_hdr.cre_dt_tm, "2024-05-06T07:08:09");
    let s = &bk.stmt;
    assert_eq!(s.id, "123456789");
    assert_eq!(s.elctrnc_seq_nb, 1);
    assert_eq!(s.lgl_seq_nb, 1);
    assert_eq!(s.cre_dt_tm, "2024-05-06T07:08:09");
    assert_eq!(s.fr_to_dt.fr_dt_tm, "2024-09-30T00:00:00");
    assert_eq!(s.fr_to_dt.to_dt_tm, "2024-10-02T23:59:59");
    assert_eq!(s.acct.id.iban.as_deref(), Some("123456789/12345678"));
    assert_eq!(s.acct.ccy, "EUR");
    assert_eq!(s.acct.nm, "Account Holder");
    assert_eq!(s.acct.ownr.nm, "Account Owner");
    assert_eq!(s.acct.svcr.fin_instn_id.bic.as_deref(), Some("XXXXXXXXXXX"));
    // balances: opening booked and closing booked, no closing available
    assert_eq!(s.balances.len(), 2);
    assert_eq!(s.balances[0].tp.cd_or_prtry.cd, "OPBD");
    assert_eq!(s.balances[0].amt.value, "12345.67");
    assert_eq!(s.balances[0].cdt_dbt_ind, "CRDT");
    assert_eq!(s.balances[0].dt.dt, "2024-09-30");
    assert_eq!(s.balances[1].tp.cd_or_prtry.cd, "CLBD");
    assert_eq!(s.balances[1].amt.value, "12679.00");
    // entries: one per line, in order, with sequential references
    assert_eq!(s.entries.len(), 2);
    assert_eq!(s.entries[0].ntry_ref, "1");
    assert_eq!(s.entries[1].ntry_ref, "2");
    assert_eq!(s.entries[0].amt.value, "123.45");
    assert_eq!(s.entries[1].amt.value, "456.78");
    assert_eq!(s.entries[0].sts, "BOOK");
    assert_eq!(s.entries[0].bookg_dt.dt, "2024-10-01");
    assert_eq!(s.entries[0].val_dt.dt, "2024-10-01");
    assert_eq!(s.entries[0].bk_tx_cd.domn.cd, "PMNT");
    assert_eq!(s.entries[0].bk_tx_cd.domn.fmly.cd, "PMNT");
    assert_eq!(s.entries[0].bk_tx_cd.prtry.cd, "NTRF");
    assert_eq!(s.entries[0].bk_tx_cd.prtry.issr, "BANK");
}

#[test]
fn closing_available_balance_expands_to_third_record() {
    let mut m = msg(vec![]);
    m.closing_available_balance = Some(mt_balance("D", "EUR", 7_700, 2024, 10, 2));
    let out = m.to_camt053_at("2024-01-01T00:00:00").unwrap();
    let balances = &out.bk_to_cstmr_stmt.stmt.balances;
    assert_eq!(balances.len(), 3);
    assert_eq!(balances[2].tp.cd_or_prtry.cd, "CLAV");
    assert_eq!(balances[2].amt.value, "77.00");
    assert_eq!(balances[2].cdt_dbt_ind, "DBIT");
}

#[test]
fn detail_amount_currency_is_fixed_eur() {
    // the declared defect: the statement currency is DKK, yet the detail
    // sub-amount carries EUR
    let m = Mt940Message {
        opening_balance: mt_balance("C", "DKK", 10_000, 2024, 9, 30),
        closing_balance: mt_balance("C", "DKK", 10_000, 2024, 10, 2),
        ..msg(vec![mt_line("D", 5_000, None)])
    };
    let out = m.to_camt053_at("2024-01-01T00:00:00").unwrap();
    let e = &out.bk_to_cstmr_stmt.stmt.entries[0];
    assert_eq!(e.amt.ccy, "DKK");
    let ad = e.ntry_dtls.tx_dtls[0].amt_dtls.as_ref().unwrap();
    assert_eq!(ad.tx_amt.amt.ccy, "EUR");
    assert_eq!(ad.tx_amt.amt.value, "50.00");
    let rd = e.ntry_dtls.tx_dtls[0].rltd_dts.as_ref().unwrap();
    assert_eq!(rd.accptnc_dt_tm, "2024-10-01T00:00:00");
}

#[test]
fn wall_clock_expansion_stamps_both_headers() {
    let m = msg(vec![mt_line("C", 1_000, None)]);
    let out = m.to_camt053().unwrap();
    let stamp = out.bk_to_cstmr_stmt.grp_hdr.cre_dt_tm.clone();
    assert_eq!(out.bk_to_cstmr_stmt.stmt.cre_dt_tm, stamp);
    assert_eq!(stamp.len(), 19);
    assert_eq!(&stamp[10..11], "T");
}
