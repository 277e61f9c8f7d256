//! Claim processing: dispatch a claim to its payer and fold the remittance
//! into an accounts-receivable record.

use vstd::prelude::*;
use vstd::string::*;
use crate::intake::{PayerClaim, PayerId};
use crate::insurance::{
    all_billable, all_zero, amounts, answers, is_do_not_bill, priced_under, spec_policy, submitted,
    Anthem, Insurance, Medicare, Remittance, ServiceLine, UnitedHealthGroup,
};
use crate::validation::{claim_error, error_message};
pub use crate::validation::validate_claim;

verus! {

/// An accounts-receivable record: a remittance with its six amount
/// categories summed over its service lines.
#[derive(Debug, Clone)]
pub struct ARData {
    pub claim_id: String,
    pub remittance_id: String,
    pub payer_id: String,
    pub payee_npi: String,
    pub patient_id: String,
    pub initial_claim_ts: i64,
    pub total_billed_amount: u64,
    pub total_payer_paid_amount: u64,
    pub total_coinsurance_amount: u64,
    pub total_copay_amount: u64,
    pub total_deductible_amount: u64,
    pub total_not_allowed_amount: u64,
    pub service_lines: Vec<ServiceLine>,
}

/// Amount category `k` of a priced line: 0 billed, 1 payer paid,
/// 2 coinsurance, 3 copay, 4 deductible, 5 not allowed.
pub open spec fn category(l: ServiceLine, k: int) -> int {
    if k == 0 {
        l.billed_amount as int
    } else if k == 1 {
        l.payer_paid_amount as int
    } else if k == 2 {
        l.coinsurance_amount as int
    } else if k == 3 {
        l.copay_amount as int
    } else if k == 4 {
        l.deductible_amount as int
    } else {
        l.not_allowed_amount as int
    }
}

/// Category `k` summed over `lines`.
pub open spec fn line_total(lines: Seq<ServiceLine>, k: int) -> int
    decreases lines.len(),
{
    if lines.len() == 0 {
        0
    } else {
        line_total(lines.drop_last(), k) + category(lines.last(), k)
    }
}

/// Category `k` of an AR record's totals, numbered as in `category`.
pub open spec fn ar_total(ar: ARData, k: int) -> int {
    if k == 0 {
        ar.total_billed_amount as int
    } else if k == 1 {
        ar.total_payer_paid_amount as int
    } else if k == 2 {
        ar.total_coinsurance_amount as int
    } else if k == 3 {
        ar.total_copay_amount as int
    } else if k == 4 {
        ar.total_deductible_amount as int
    } else {
        ar.total_not_allowed_amount as int
    }
}

/// Every category total of `lines` fits in a `u64`.
pub open spec fn totals_fit(lines: Seq<ServiceLine>) -> bool {
    forall|k: int| 0 <= k < 6 ==> #[trigger] line_total(lines, k) <= u64::MAX
}

/// Each of the record's six totals is the sum of that category over its lines.
pub open spec fn totals_consistent(ar: ARData) -> bool {
    forall|k: int| 0 <= k < 6 ==> #[trigger] ar_total(ar, k) == line_total(ar.service_lines@, k)
}

/// `ar` is `rem` folded: identifiers and time copied, lines kept, totals summed.
pub open spec fn folds(ar: ARData, rem: Remittance) -> bool {
    &&& ar.claim_id@ == rem.claim_id@
    &&& ar.remittance_id@ == rem.remittance_id@
    &&& ar.payer_id@ == rem.payer_id@
    &&& ar.payee_npi@ == rem.payee_npi@
    &&& ar.patient_id@ == rem.patient_id@
    &&& ar.initial_claim_ts == rem.initial_claim_ts
    &&& same_lines(ar.service_lines@, rem.service_lines@)
    &&& forall|k: int| 0 <= k < 6 ==> #[trigger] ar_total(ar, k) == line_total(rem.service_lines@, k)
    &&& totals_consistent(ar)
}

/// Two priced lines with the same identifiers, amounts and remark codes.
pub open spec fn same_line(a: ServiceLine, b: ServiceLine) -> bool {
    &&& a.service_line_id@ == b.service_line_id@
    &&& a.procedure_code@ == b.procedure_code@
    &&& amounts(a) == amounts(b)
    &&& (a.remark_codes is Some <==> b.remark_codes is Some)
    &&& a.remark_codes is Some ==> a.remark_codes->0@ == b.remark_codes->0@
}

pub open spec fn same_lines(a: Seq<ServiceLine>, b: Seq<ServiceLine>) -> bool {
    &&& a.len() == b.len()
    &&& forall|i: int| 0 <= i < a.len() ==> same_line(#[trigger] a[i], b[i])
}

proof fn lemma_line_total_same(a: Seq<ServiceLine>, b: Seq<ServiceLine>, k: int)
    requires
        same_lines(a, b),
    ensures
        line_total(a, k) == line_total(b, k),
    decreases a.len(),
{
    if a.len() > 0 {
        assert(same_line(a[a.len() - 1], b[b.len() - 1]));
        lemma_line_total_same(a.drop_last(), b.drop_last(), k);
    }
}

proof fn lemma_line_total_prefix(lines: Seq<ServiceLine>, i: int, k: int)
    requires
        0 <= i <= lines.len(),
    ensures
        line_total(lines.subrange(0, i), k) <= line_total(lines, k),
    decreases lines.len() - i,
{
    if i < lines.len() {
        lemma_line_total_prefix(lines, i + 1, k);
        assert(lines.subrange(0, i + 1).drop_last() =~= lines.subrange(0, i));
    } else {
        assert(lines.subrange(0, i) =~= lines);
    }
}

/// Add `x` to the running total unless the sum leaves `u64`.
fn add_amount(acc: u64, x: u64) -> (r: Option<u64>)
    ensures
        r == (if acc + x <= u64::MAX { Some((acc + x) as u64) } else { None::<u64> }),
{
    acc.checked_add(x)
}

fn copy_strings(v: &Vec<String>) -> (r: Vec<String>)
    ensures
        r@ == v@,
{
    let mut r: Vec<String> = Vec::new();
    let mut i: usize = 0;
    while i < v.len()
        invariant
            i <= v.len(),
            r@ == v@.subrange(0, i as int),
        decreases v.len() - i,
    {
        r.push(v[i].clone());
        assert(r@ =~= v@.subrange(0, i + 1));
        i = i + 1;
    }
    assert(r@ =~= v@);
    r
}

fn copy_line(l: &ServiceLine) -> (r: ServiceLine)
    ensures
        same_line(r, *l),
{
    ServiceLine {
        service_line_id: l.service_line_id.clone(),
        procedure_code: l.procedure_code.clone(),
        billed_amount: l.billed_amount,
        payer_paid_amount: l.payer_paid_amount,
        coinsurance_amount: l.coinsurance_amount,
        copay_amount: l.copay_amount,
        deductible_amount: l.deductible_amount,
        not_allowed_amount: l.not_allowed_amount,
        remark_codes: match &l.remark_codes {
            Some(v) => Some(copy_strings(v)),
            None => None,
        },
    }
}

fn copy_lines(v: &Vec<ServiceLine>) -> (r: Vec<ServiceLine>)
    ensures
        same_lines(r@, v@),
{
    let mut r: Vec<ServiceLine> = Vec::new();
    let mut i: usize = 0;
    while i < v.len()
        invariant
            i <= v.len(),
            same_lines(r@, v@.subrange(0, i as int)),
        decreases v.len() - i,
    {
        r.push(copy_line(&v[i]));
        i = i + 1;
    }
    r
}

/// Fold a remittance into an AR record: `Err` exactly when some category
/// total does not fit in a `u64`.
pub fn submit_remittance_to_submitter(remittance: &Remittance) -> (r: Result<ARData, String>)
    ensures
        r is Ok <==> totals_fit(remittance.service_lines@),
        r matches Ok(ar) ==> folds(ar, *remittance),
{
    let lines = &remittance.service_lines;
    let mut t: [u64; 6] = [0, 0, 0, 0, 0, 0];
    let mut i: usize = 0;
    while i < lines.len()
        invariant
            i <= lines.len(),
            lines@ == remittance.service_lines@,
            forall|k: int| 0 <= k < 6 ==> t@[k] == line_total(#[trigger] lines@.subrange(0, i as int), k),
        decreases lines.len() - i,
    {
        let l = &lines[i];
        let xs: [u64; 6] = [
            l.billed_amount,
            l.payer_paid_amount,
            l.coinsurance_amount,
            l.copay_amount,
            l.deductible_amount,
            l.not_allowed_amount,
        ];
        assert(lines@.subrange(0, i + 1).drop_last() =~= lines@.subrange(0, i as int));
        assert(lines@.subrange(0, i + 1).last() == lines@[i as int]);
        assert forall|k: int| 0 <= k < 6 implies xs@[k] == category(lines@[i as int], k) by {}
        assert forall|j: int| 0 <= j < 6 implies #[trigger] line_total(lines@.subrange(0, i + 1), j)
            == line_total(lines@.subrange(0, i as int), j) + category(lines@[i as int], j) by {}
        let mut k: usize = 0;
        while k < 6
            invariant
                0 <= k <= 6,
                i < lines.len(),
                lines@ == remittance.service_lines@,
                forall|j: int| 0 <= j < 6 ==> xs@[j] == category(lines@[i as int], j),
                forall|j: int|
                    0 <= j < 6 ==> #[trigger] line_total(lines@.subrange(0, i + 1), j) == line_total(
                        lines@.subrange(0, i as int),
                        j,
                    ) + category(lines@[i as int], j),
                forall|j: int|
                    0 <= j < k ==> t@[j] == line_total(lines@.subrange(0, i + 1), j),
                forall|j: int|
                    k <= j < 6 ==> t@[j] == line_total(lines@.subrange(0, i as int), j),
            decreases 6 - k,
        {
            match add_amount(t[k], xs[k]) {
                Some(s) => {
                    t[k] = s;
                },
                None => {
                    proof {
                        lemma_line_total_prefix(lines@, i + 1, k as int);
                        assert(line_total(lines@.subrange(0, i + 1), k as int) > u64::MAX);
                        assert(!totals_fit(lines@)) by {
                            assert(line_total(lines@, k as int) > u64::MAX);
                        }
                    }
                    return Err(String::from_str("AR total exceeds the largest amount"));
                },
            }
            k = k + 1;
        }
        i = i + 1;
    }
    assert(lines@.subrange(0, lines@.len() as int) =~= lines@);
    let ar = ARData {
        claim_id: remittance.claim_id.clone(),
        remittance_id: remittance.remittance_id.clone(),
        payer_id: remittance.payer_id.clone(),
        payee_npi: remittance.payee_npi.clone(),
        patient_id: remittance.patient_id.clone(),
        initial_claim_ts: remittance.initial_claim_ts,
        total_billed_amount: t[0],
        total_payer_paid_amount: t[1],
        total_coinsurance_amount: t[2],
        total_copay_amount: t[3],
        total_deductible_amount: t[4],
        total_not_allowed_amount: t[5],
        service_lines: copy_lines(lines),
    };
    assert(totals_consistent(ar)) by {
        assert forall|k: int| 0 <= k < 6 implies #[trigger] ar_total(ar, k) == line_total(
            ar.service_lines@,
            k,
        ) by {
            assert(t@[k] == line_total(lines@.subrange(0, lines@.len() as int), k));
            assert(t@[k] == line_total(lines@, k));
            lemma_line_total_same(ar.service_lines@, lines@, k);
        }
    }
    Ok(ar)
}


/// Send a claim to the payer its insurance names.
pub fn submit_claim_to_payer(claim: &PayerClaim) -> (r: Result<Remittance, String>)
    ensures
        submitted(*claim, spec_policy(claim.insurance.payer_id), r),
{
    match claim.insurance.payer_id {
        PayerId::Medicare => {
            let insurance = Medicare::new();
            insurance.submit_claim(claim)
        },
        PayerId::UnitedHealthGroup => {
            let insurance = UnitedHealthGroup::new();
            insurance.submit_claim(claim)
        },
        PayerId::Anthem => {
            let insurance = Anthem::new();
            insurance.submit_claim(claim)
        },
    }
}

/// What processing `claim` gives: a validation failure when a field rule
/// is broken; otherwise a failure exactly when the payer cannot price it or
/// a total overflows; otherwise an AR record that answers the claim, with
/// each line priced under the payer's policy and the totals summed.
pub open spec fn processed(claim: PayerClaim, r: Result<ARData, String>) -> bool {
    if claim_error(claim) is Some {
        r matches Err(m) && m@ == "Validation failed: "@ + error_message(claim_error(claim)->0)
    } else if !all_billable(claim.service_lines@) {
        r is Err
    } else {
        &&& r is Err ==> exists|rem: Remittance|
            answers(rem, claim) && priced_under(
                rem.service_lines@,
                claim.service_lines@,
                spec_policy(claim.insurance.payer_id),
            ) && !totals_fit(#[trigger] rem.service_lines@)
        &&& r matches Ok(ar) ==> exists|rem: Remittance|
            answers(rem, claim) && priced_under(
                rem.service_lines@,
                claim.service_lines@,
                spec_policy(claim.insurance.payer_id),
            ) && #[trigger] folds(ar, rem)
    }
}

/// Validate a claim, have its payer price it, and fold the remittance into
/// an AR record.
pub fn process_claim(claim: &PayerClaim) -> (r: Result<ARData, String>)
    ensures
        processed(*claim, r),
{
    match validate_claim(claim) {
        Ok(()) => {},
        Err(e) => {
            let mut m = String::from_str("Validation failed: ");
            m.append(e.as_str());
            return Err(m);
        },
    }
    let remittance = submit_claim_to_payer(claim)?;
    let r = submit_remittance_to_submitter(&remittance);
    proof {
        if r is Ok {
            assert(folds(r->Ok_0, remittance));
        } else {
            assert(!totals_fit(remittance.service_lines@));
        }
    }
    r
}

/// Every service line of the claim is marked do-not-bill.
pub open spec fn all_do_not_bill(claim: PayerClaim) -> bool {
    forall|k: int| 0 <= k < claim.service_lines@.len() ==> is_do_not_bill(
        #[trigger] claim.service_lines@[k],
    )
}

proof fn lemma_zero_lines_total(lines: Seq<ServiceLine>, k: int)
    requires
        forall|i: int| 0 <= i < lines.len() ==> all_zero(#[trigger] lines[i]),
    ensures
        line_total(lines, k) == 0,
    decreases lines.len(),
{
    if lines.len() > 0 {
        assert(all_zero(lines[lines.len() - 1]));
        lemma_zero_lines_total(lines.drop_last(), k);
    }
}

/// A claim whose service lines are all marked do-not-bill yields, when it
/// is processed successfully, an AR record whose six totals are all zero.
pub proof fn lemma_do_not_bill_totals_zero(claim: PayerClaim, ar: ARData)
    requires
        all_do_not_bill(claim),
        processed(claim, Ok(ar)),
    ensures
        forall|k: int| 0 <= k < 6 ==> #[trigger] ar_total(ar, k) == 0,
{
    let rem = choose|rem: Remittance|
        answers(rem, claim) && priced_under(
            rem.service_lines@,
            claim.service_lines@,
            spec_policy(claim.insurance.payer_id),
        ) && #[trigger] folds(ar, rem);
    let lines = rem.service_lines@;
    assert forall|i: int| 0 <= i < lines.len() implies all_zero(#[trigger] lines[i]) by {
        assert(is_do_not_bill(claim.service_lines@[i]));
        let d = choose|d: crate::insurance::PricingDraws|
            crate::insurance::draws_within(spec_policy(claim.insurance.payer_id), d)
                && crate::insurance::priced_as(lines[i], claim.service_lines@[i], d);
    }
    assert forall|k: int| 0 <= k < 6 implies #[trigger] ar_total(ar, k) == 0 by {
        lemma_zero_lines_total(lines, k);
    }
}

} // verus!
