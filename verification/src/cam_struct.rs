//! The structured statement document model: one statement period for one
//! account, shaped after the camt.053 element hierarchy. Pure data; the
//! transcoders give it its behaviour.

use vstd::prelude::*;

verus! {

#[derive(Debug)]
pub struct Document {
    pub bk_to_cstmr_stmt: BkToCstmrStmt,
}

#[derive(Debug)]
pub struct BkToCstmrStmt {
    pub grp_hdr: GrpHdr,
    pub stmt: Stmt,
}

#[derive(Debug)]
pub struct GrpHdr {
    pub msg_id: String,
    pub cre_dt_tm: String,
}

#[derive(Debug)]
pub struct Stmt {
    pub id: String,
    pub elctrnc_seq_nb: i32,
    pub lgl_seq_nb: i32,
    pub cre_dt_tm: String,
    pub fr_to_dt: FrToDt,
    pub acct: Acct,
    pub balances: Vec<Bal>,
    pub txs_summry: Option<TxsSummry>,
    pub entries: Vec<Ntry>,
}

#[derive(Debug)]
pub struct TxsSummry {
    pub ttl_ntries: TtlNtries,
    pub ttl_cdt_ntries: TtlCdtNtries,
    pub ttl_dbt_ntries: TtlDbtNtries,
}

#[derive(Debug)]
pub struct TtlNtries {
    pub nb_of_ntries: String,
    pub ttl_net_ntry_amt: String,
    pub cdt_dbt_ind: String,
}

#[derive(Debug)]
pub struct TtlCdtNtries {
    pub nb_of_ntries: String,
    pub sum: String,
}

#[derive(Debug)]
pub struct TtlDbtNtries {
    pub nb_of_ntries: String,
    pub sum: String,
}

#[derive(Debug)]
pub struct FrToDt {
    pub fr_dt_tm: String,
    pub to_dt_tm: String,
}

#[derive(Debug)]
pub struct Acct {
    pub id: AccountId,
    pub ccy: String,
    pub nm: String,
    pub ownr: Ownr,
    pub svcr: Svcr,
}

#[derive(Debug)]
pub struct Ownr {
    pub nm: String,
    pub pstl_adr: PstlAdr,
    pub id: OwnrId,
}

#[derive(Debug)]
pub struct PstlAdr {
    pub strt_nm: Option<String>,
    pub bldg_nb: Option<String>,
    pub pst_cd: Option<String>,
    pub twn_nm: Option<String>,
    pub ctry: Option<String>,
    pub adr_line: Option<Vec<String>>,
}

#[derive(Debug)]
pub struct OwnrId {
    pub org_id: OrgId,
}

#[derive(Debug)]
pub struct OrgId {
    pub othr: Othr,
}

#[derive(Debug)]
pub struct Othr {
    pub id: String,
    pub schme_nm: SchmeNm,
}

#[derive(Debug)]
pub struct SchmeNm {
    pub cd: String,
}

#[derive(Debug)]
pub struct Svcr {
    pub fin_instn_id: FinInstnId,
}

#[derive(Debug)]
pub struct FinInstnId {
    pub bic: Option<String>,
    pub nm: Option<String>,
    pub pstl_adr: Option<PstlAdr>,
}

#[derive(Debug)]
pub struct AccountId {
    pub iban: Option<String>,
}

#[derive(Debug)]
pub struct AccountIdSecond {
    pub othr: Option<Id>,
}

#[derive(Debug)]
pub struct Id {
    pub id: Option<i32>,
}

#[derive(Debug)]
pub struct Bal {
    pub tp: BalTp,
    pub amt: Amount,
    pub cdt_dbt_ind: String,
    pub dt: BalDt,
}

#[derive(Debug)]
pub struct BalTp {
    pub cd_or_prtry: CdOrPrtry,
}

#[derive(Debug)]
pub struct CdOrPrtry {
    pub cd: String,
}

/// A currency code together with a decimal amount literal.
#[derive(Debug)]
pub struct Amount {
    pub ccy: String,
    pub value: String,
}

#[derive(Debug)]
pub struct BalDt {
    pub dt: String,
}

#[derive(Debug)]
pub struct Ntry {
    pub ntry_ref: String,
    pub amt: Amount,
    pub cdt_dbt_ind: String,
    pub sts: String,
    pub bookg_dt: BookgDt,
    pub val_dt: ValDt,
    pub acct_svcr_ref: String,
    pub bk_tx_cd: BkTxCd,
    pub ntry_dtls: NtryDtls,
}

#[derive(Debug)]
pub struct AddtlInfInd {
    pub msg_nm_id: String,
}

#[derive(Debug)]
pub struct BookgDt {
    pub dt: String,
}

#[derive(Debug)]
pub struct ValDt {
    pub dt: String,
}

#[derive(Debug)]
pub struct BkTxCd {
    pub domn: Domn,
    pub prtry: Prtry,
}

#[derive(Debug)]
pub struct Domn {
    pub cd: String,
    pub fmly: Fmly,
}

#[derive(Debug)]
pub struct Fmly {
    pub cd: String,
    pub sub_fmly_cd: String,
}

#[derive(Debug)]
pub struct Prtry {
    pub cd: String,
    pub issr: String,
}

#[derive(Debug)]
pub struct NtryDtls {
    pub tx_dtls: Vec<TxDtls>,
}

#[derive(Debug)]
pub struct TxDtls {
    pub refs: Option<Refs>,
    pub amt_dtls: Option<AmtDtls>,
    pub rltd_pties: Option<RltdPties>,
    pub rltd_dts: Option<RltdDts>,
}

#[derive(Debug)]
pub struct Refs {
    pub end_to_end_id: Option<String>,
}

#[derive(Debug)]
pub struct AmtDtls {
    pub tx_amt: TxAmt,
}

#[derive(Debug)]
pub struct TxAmt {
    pub amt: Amount,
}

#[derive(Debug)]
pub struct RltdPties {
    pub cdtr_acct: Option<AccountPties>,
}

#[derive(Debug)]
pub struct RltdDts {
    pub accptnc_dt_tm: String,
}

#[derive(Debug)]
pub struct Account {
    pub id: AccountId,
}

#[derive(Debug)]
pub struct AccountPties {
    pub id: AccountIdSecond,
}

#[derive(Debug)]
pub struct OtherAccountId {
    pub id: String,
}

} // verus!
