//! Payer simulation: price each service line of a claim under the payer's
//! policy and answer with a remittance. Amounts are in cents and rates in
//! basis points (hundredths of a percent).

use vstd::prelude::*;
use vstd::string::*;
use crate::intake::{PayerClaim, PayerId};

verus! {

/// Basis points in a whole.
pub const WHOLE_BP: u64 = 10000;

/// A priced service line, as a payer returns it.
#[derive(Debug, Clone)]
pub struct ServiceLine {
    pub service_line_id: String,
    pub procedure_code: String,
    pub billed_amount: u64,
    pub payer_paid_amount: u64,
    pub coinsurance_amount: u64,
    pub copay_amount: u64,
    pub deductible_amount: u64,
    pub not_allowed_amount: u64,
    pub remark_codes: Option<Vec<String>>,
}

/// A payer's answer to a claim.
#[derive(Debug, Clone)]
pub struct Remittance {
    pub remittance_id: String,
    pub claim_id: String,
    pub payer_id: String,
    pub payee_npi: String,
    pub patient_id: String,
    pub service_lines: Vec<ServiceLine>,
    pub initial_claim_ts: i64,
}

/// A line that the do-not-bill flag marks.
pub open spec fn is_do_not_bill(line: crate::intake::ServiceLine) -> bool {
    line.do_not_bill == Some(true)
}

/// The six amounts of a priced line, in the order billed, payer paid,
/// coinsurance, copay, deductible, not allowed.
pub open spec fn amounts(l: ServiceLine) -> (u64, u64, u64, u64, u64, u64) {
    (
        l.billed_amount,
        l.payer_paid_amount,
        l.coinsurance_amount,
        l.copay_amount,
        l.deductible_amount,
        l.not_allowed_amount,
    )
}

/// The priced line echoes the claim line's identifiers and carries no remark codes.
pub open spec fn echoes_line(p: ServiceLine, line: crate::intake::ServiceLine) -> bool {
    &&& p.service_line_id@ == line.service_line_id@
    &&& p.procedure_code@ == line.procedure_code@
    &&& p.remark_codes is None
}

impl ServiceLine {
    /// A priced line for `line` with the given amounts, or all amounts zero
    /// when the line is marked do-not-bill.
    pub fn new(
        line: &crate::intake::ServiceLine,
        billed_amount: u64,
        payer_paid_amount: u64,
        coinsurance_amount: u64,
        copay_amount: u64,
        deductible_amount: u64,
        not_allowed_amount: u64,
    ) -> (r: Result<ServiceLine, String>)
        ensures
            r matches Ok(p) && echoes_line(p, *line) && amounts(p) == (if is_do_not_bill(*line) {
                (0u64, 0u64, 0u64, 0u64, 0u64, 0u64)
            } else {
                (
                    billed_amount,
                    payer_paid_amount,
                    coinsurance_amount,
                    copay_amount,
                    deductible_amount,
                    not_allowed_amount,
                )
            }),
    {
        let do_not_bill = match line.do_not_bill {
            Some(b) => b,
            None => false,
        };
        let service_line_id = line.service_line_id.clone();
        let procedure_code = line.procedure_code.clone();
        if do_not_bill {
            return Ok(
                ServiceLine {
                    service_line_id,
                    procedure_code,
                    billed_amount: 0,
                    payer_paid_amount: 0,
                    coinsurance_amount: 0,
                    copay_amount: 0,
                    deductible_amount: 0,
                    not_allowed_amount: 0,
                    remark_codes: None,
                },
            );
        }
        Ok(
            ServiceLine {
                service_line_id,
                procedure_code,
                billed_amount,
                payer_paid_amount,
                coinsurance_amount,
                copay_amount,
                deductible_amount,
                not_allowed_amount,
                remark_codes: None,
            },
        )
    }
}

/// The random quantities that price one line: the denial rate, the
/// deductible cap, the copay and the coverage rate.
#[derive(Debug, Clone, Copy)]
pub struct PricingDraws {
    pub denial_bp: u64,
    pub deductible_cap: u64,
    pub copay: u64,
    pub coverage_bp: u64,
}

/// A payer's policy: the inclusive range of each drawn quantity.
#[derive(Debug, Clone, Copy)]
pub struct PayerPolicy {
    pub denial_bp_min: u64,
    pub denial_bp_max: u64,
    pub deductible_cap_min: u64,
    pub deductible_cap_max: u64,
    pub copay_min: u64,
    pub copay_max: u64,
    pub coverage_bp_min: u64,
    pub coverage_bp_max: u64,
}

/// Each payer's policy. Medicare: 5-10% denied, deductible up to $257, no
/// copay, 80% coverage. UnitedHealthGroup: 3-7% denied, deductible up to
/// $1800, copay $25-35, 70-80% coverage. Anthem: 5-8% denied, deductible up
/// to a cap in $1650-2000, copay $20-30, 70% coverage.
pub open spec fn spec_policy(payer: PayerId) -> PayerPolicy {
    match payer {
        PayerId::Medicare => PayerPolicy {
            denial_bp_min: 500,
            denial_bp_max: 1000,
            deductible_cap_min: 25700,
            deductible_cap_max: 25700,
            copay_min: 0,
            copay_max: 0,
            coverage_bp_min: 8000,
            coverage_bp_max: 8000,
        },
        PayerId::UnitedHealthGroup => PayerPolicy {
            denial_bp_min: 300,
            denial_bp_max: 700,
            deductible_cap_min: 180000,
            deductible_cap_max: 180000,
            copay_min: 2500,
            copay_max: 3500,
            coverage_bp_min: 7000,
            coverage_bp_max: 8000,
        },
        PayerId::Anthem => PayerPolicy {
            denial_bp_min: 500,
            denial_bp_max: 800,
            deductible_cap_min: 165000,
            deductible_cap_max: 200000,
            copay_min: 2000,
            copay_max: 3000,
            coverage_bp_min: 7000,
            coverage_bp_max: 7000,
        },
    }
}

/// Rates are at most a whole and every range is non-empty.
pub open spec fn policy_wf(p: PayerPolicy) -> bool {
    &&& p.denial_bp_min <= p.denial_bp_max <= WHOLE_BP
    &&& p.deductible_cap_min <= p.deductible_cap_max
    &&& p.copay_min <= p.copay_max
    &&& p.coverage_bp_min <= p.coverage_bp_max <= WHOLE_BP
}

/// Each drawn quantity lies in the policy's range.
pub open spec fn draws_within(p: PayerPolicy, d: PricingDraws) -> bool {
    &&& p.denial_bp_min <= d.denial_bp <= p.denial_bp_max
    &&& p.deductible_cap_min <= d.deductible_cap <= p.deductible_cap_max
    &&& p.copay_min <= d.copay <= p.copay_max
    &&& p.coverage_bp_min <= d.coverage_bp <= p.coverage_bp_max
}

pub fn policy(payer: PayerId) -> (r: PayerPolicy)
    ensures
        r == spec_policy(payer),
        policy_wf(r),
{
    match payer {
        PayerId::Medicare => PayerPolicy {
            denial_bp_min: 500,
            denial_bp_max: 1000,
            deductible_cap_min: 25700,
            deductible_cap_max: 25700,
            copay_min: 0,
            copay_max: 0,
            coverage_bp_min: 8000,
            coverage_bp_max: 8000,
        },
        PayerId::UnitedHealthGroup => PayerPolicy {
            denial_bp_min: 300,
            denial_bp_max: 700,
            deductible_cap_min: 180000,
            deductible_cap_max: 180000,
            copay_min: 2500,
            copay_max: 3500,
            coverage_bp_min: 7000,
            coverage_bp_max: 8000,
        },
        PayerId::Anthem => PayerPolicy {
            denial_bp_min: 500,
            denial_bp_max: 800,
            deductible_cap_min: 165000,
            deductible_cap_max: 200000,
            copay_min: 2000,
            copay_max: 3000,
            coverage_bp_min: 7000,
            coverage_bp_max: 7000,
        },
    }
}

/// Relies on `rand::random_range` over an inclusive range of `u64`: a value
/// inside the range (it panics only on an empty range).
#[verifier::external_body]
fn random_between(lo: u64, hi: u64) -> (r: u64)
    requires
        lo <= hi,
    ensures
        lo <= r <= hi,
{
    rand::random_range(lo..=hi)
}

/// Draw each quantity of a policy.
pub fn draw(p: &PayerPolicy) -> (d: PricingDraws)
    requires
        policy_wf(*p),
    ensures
        draws_within(*p, d),
{
    PricingDraws {
        denial_bp: random_between(p.denial_bp_min, p.denial_bp_max),
        deductible_cap: random_between(p.deductible_cap_min, p.deductible_cap_max),
        copay: random_between(p.copay_min, p.copay_max),
        coverage_bp: random_between(p.coverage_bp_min, p.coverage_bp_max),
    }
}

/// A payer's simulated response time in whole seconds, inside `[min_secs, max_secs]`.
pub fn response_delay_secs(min_secs: u64, max_secs: u64) -> (r: u64)
    requires
        min_secs <= max_secs,
    ensures
        min_secs <= r <= max_secs,
{
    random_between(min_secs, max_secs)
}

/// The amount billed for a line: unit amount times units.
pub open spec fn billed_of(line: crate::intake::ServiceLine) -> int {
    line.unit_charge_amount * line.units
}

/// A line can be priced: it is marked do-not-bill, or its billed amount is
/// a non-negative number of cents that fits in a `u64`.
pub open spec fn billable(line: crate::intake::ServiceLine) -> bool {
    is_do_not_bill(line) || (0 <= billed_of(line) <= u64::MAX)
}

pub open spec fn not_allowed_of(billed: int, d: PricingDraws) -> int {
    billed * d.denial_bp / 10000
}

pub open spec fn deductible_of(billed: int, d: PricingDraws) -> int {
    let allowed = billed - not_allowed_of(billed, d);
    if allowed < d.deductible_cap { allowed } else { d.deductible_cap as int }
}

/// What is left after denial and deductible.
pub open spec fn after_deductible(billed: int, d: PricingDraws) -> int {
    billed - not_allowed_of(billed, d) - deductible_of(billed, d)
}

/// The copay is charged only when the remainder exceeds it.
pub open spec fn copay_of(billed: int, d: PricingDraws) -> int {
    if after_deductible(billed, d) > d.copay { d.copay as int } else { 0 }
}

pub open spec fn after_copay(billed: int, d: PricingDraws) -> int {
    after_deductible(billed, d) - copay_of(billed, d)
}

pub open spec fn payer_paid_of(billed: int, d: PricingDraws) -> int {
    after_copay(billed, d) * d.coverage_bp / 10000
}

pub open spec fn coinsurance_of(billed: int, d: PricingDraws) -> int {
    after_copay(billed, d) - payer_paid_of(billed, d)
}

/// The priced amounts of a line of `billed` cents under `d`.
pub open spec fn priced_amounts(billed: int, d: PricingDraws) -> (u64, u64, u64, u64, u64, u64) {
    (
        billed as u64,
        payer_paid_of(billed, d) as u64,
        coinsurance_of(billed, d) as u64,
        copay_of(billed, d) as u64,
        deductible_of(billed, d) as u64,
        not_allowed_of(billed, d) as u64,
    )
}

/// `p` is `line` priced under `d`: all zero when do-not-bill is set,
/// otherwise the policy's formulas.
pub open spec fn priced_as(
    p: ServiceLine,
    line: crate::intake::ServiceLine,
    d: PricingDraws,
) -> bool {
    &&& echoes_line(p, line)
    &&& amounts(p) == (if is_do_not_bill(line) {
        (0u64, 0u64, 0u64, 0u64, 0u64, 0u64)
    } else {
        priced_amounts(billed_of(line), d)
    })
}

/// The five parts of a priced line add up to what was billed.
pub open spec fn conserves(p: ServiceLine) -> bool {
    p.billed_amount == p.payer_paid_amount + p.coinsurance_amount + p.copay_amount
        + p.deductible_amount + p.not_allowed_amount
}

/// Every amount of a priced line is zero.
pub open spec fn all_zero(p: ServiceLine) -> bool {
    amounts(p) == (0u64, 0u64, 0u64, 0u64, 0u64, 0u64)
}

/// Price one line under `d`: `Err` exactly when the line is not billable.
/// The five parts add up to the billed amount exactly.
pub fn price_line(line: &crate::intake::ServiceLine, d: &PricingDraws) -> (r: Result<
    ServiceLine,
    String,
>)
    requires
        d.denial_bp <= WHOLE_BP,
        d.coverage_bp <= WHOLE_BP,
    ensures
        r is Ok <==> billable(*line),
        r matches Ok(p) ==> priced_as(p, *line, *d) && conserves(p),
{
    let do_not_bill = match line.do_not_bill {
        Some(b) => b,
        None => false,
    };
    if do_not_bill {
        return ServiceLine::new(line, 0, 0, 0, 0, 0, 0);
    }
    let amount: i128 = line.unit_charge_amount as i128;
    let units: i128 = line.units as i128;
    assert(-0x8000_0000_0000_0000_0000_0000 <= amount * units <= 0x8000_0000_0000_0000_0000_0000)
        by (nonlinear_arith)
        requires
            -0x8000_0000_0000_0000 <= amount <= 0x8000_0000_0000_0000,
            -0x8000_0000 <= units <= 0x8000_0000,
    ;
    let product: i128 = amount * units;
    if product < 0 || product > u64::MAX as i128 {
        return Err(String::from_str("service line amount is negative or too large to bill"));
    }
    let billed: u64 = product as u64;
    assert(billed * d.denial_bp <= billed * WHOLE_BP) by (nonlinear_arith)
        requires
            d.denial_bp <= WHOLE_BP,
    ;
    let not_allowed: u64 = ((billed as u128 * d.denial_bp as u128) / 10000) as u64;
    assert(not_allowed <= billed) by (nonlinear_arith)
        requires
            not_allowed == (billed * d.denial_bp) / 10000,
            billed * d.denial_bp <= billed * 10000,
            billed >= 0,
    ;
    let allowed: u64 = billed - not_allowed;
    let deductible: u64 = if allowed < d.deductible_cap { allowed } else { d.deductible_cap };
    let remaining: u64 = allowed - deductible;
    let copay: u64 = if remaining > d.copay { d.copay } else { 0 };
    let after_copay: u64 = remaining - copay;
    assert(after_copay * d.coverage_bp <= after_copay * WHOLE_BP) by (nonlinear_arith)
        requires
            d.coverage_bp <= WHOLE_BP,
    ;
    let payer_paid: u64 = ((after_copay as u128 * d.coverage_bp as u128) / 10000) as u64;
    assert(payer_paid <= after_copay) by (nonlinear_arith)
        requires
            payer_paid == (after_copay * d.coverage_bp) / 10000,
            after_copay * d.coverage_bp <= after_copay * 10000,
            after_copay >= 0,
    ;
    let coinsurance: u64 = after_copay - payer_paid;
    ServiceLine::new(line, billed, payer_paid, coinsurance, copay, deductible, not_allowed)
}


/// Every line of `lines` can be priced.
pub open spec fn all_billable(lines: Seq<crate::intake::ServiceLine>) -> bool {
    forall|k: int| 0 <= k < lines.len() ==> billable(#[trigger] lines[k])
}

/// `priced` prices `lines` one for one under some draws within `p`, and
/// each priced line adds up.
pub open spec fn priced_under(
    priced: Seq<ServiceLine>,
    lines: Seq<crate::intake::ServiceLine>,
    p: PayerPolicy,
) -> bool {
    &&& priced.len() == lines.len()
    &&& forall|k: int|
        0 <= k < lines.len() ==> conserves(#[trigger] priced[k]) && exists|d: PricingDraws|
            draws_within(p, d) && priced_as(priced[k], lines[k], d)
}

/// Price each line of a claim under `payer`'s policy, drawing fresh
/// quantities for each line: `Err` exactly when some line is not billable.
pub fn price_claim(claim: &PayerClaim, payer: PayerId) -> (r: Result<Vec<ServiceLine>, String>)
    ensures
        r is Ok <==> all_billable(claim.service_lines@),
        r matches Ok(priced) ==> priced_under(priced@, claim.service_lines@, spec_policy(payer)),
{
    let p = policy(payer);
    let lines = &claim.service_lines;
    let mut priced: Vec<ServiceLine> = Vec::new();
    let mut i: usize = 0;
    while i < lines.len()
        invariant
            i <= lines.len(),
            lines@ == claim.service_lines@,
            p == spec_policy(payer),
            policy_wf(p),
            all_billable(lines@.subrange(0, i as int)),
            priced_under(priced@, lines@.subrange(0, i as int), p),
        decreases lines.len() - i,
    {
        let d = draw(&p);
        match price_line(&lines[i], &d) {
            Ok(line) => {
                priced.push(line);
                assert(lines@.subrange(0, i + 1) =~= lines@.subrange(0, i as int).push(lines@[i as int]));
                assert(draws_within(p, d) && priced_as(priced@[i as int], lines@[i as int], d));
            },
            Err(e) => {
                assert(!billable(lines@[i as int]));
                return Err(e);
            },
        }
        i = i + 1;
    }
    assert(lines@.subrange(0, lines@.len() as int) =~= lines@);
    Ok(priced)
}

/// The name a payer goes by in a remittance.
pub open spec fn payer_name(payer: PayerId) -> Seq<char> {
    match payer {
        PayerId::Medicare => "Medicare"@,
        PayerId::UnitedHealthGroup => "UnitedHealthGroup"@,
        PayerId::Anthem => "Anthem"@,
    }
}

/// A patient's identity across claims: `<payer name>-<member id>`.
pub open spec fn composite_patient_id(claim: PayerClaim) -> Seq<char> {
    payer_name(claim.insurance.payer_id) + "-"@ + claim.insurance.patient_member_id@
}

/// The payee: the organization's billing identifier, or empty.
pub open spec fn payee_of(claim: PayerClaim) -> Seq<char> {
    match claim.organization.billing_npi {
        Some(npi) => npi@,
        None => Seq::empty(),
    }
}

/// `r` answers `claim`: identifiers copied or derived from it, a fresh
/// 36-character remittance id, and the ingestion time carried through.
pub open spec fn answers(r: Remittance, claim: PayerClaim) -> bool {
    &&& r.claim_id@ == claim.claim_id@
    &&& r.payer_id@ == payer_name(claim.insurance.payer_id)
    &&& r.patient_id@ == composite_patient_id(claim)
    &&& r.payee_npi@ == payee_of(claim)
    &&& r.initial_claim_ts == claim.initial_claim_ts
    &&& r.remittance_id@.len() == 36
}

/// A fresh remittance identifier.
/// Relies on `uuid::Uuid::new_v4` and its `Display`, which writes the
/// hyphenated form of 36 characters.
#[verifier::external_body]
fn new_remittance_id() -> (r: String)
    ensures
        r@.len() == 36,
{
    uuid::Uuid::new_v4().to_string()
}

fn payer_name_str(payer: PayerId) -> (r: &'static str)
    ensures
        r@ == payer_name(payer),
{
    match payer {
        PayerId::Medicare => "Medicare",
        PayerId::UnitedHealthGroup => "UnitedHealthGroup",
        PayerId::Anthem => "Anthem",
    }
}

/// Wrap priced lines into the remittance that answers `claim`.
pub fn create_remittance(service_lines: Vec<ServiceLine>, claim: &PayerClaim) -> (r: Remittance)
    ensures
        answers(r, *claim),
        r.service_lines@ == service_lines@,
{
    let claim_id = claim.claim_id.clone();
    let name = payer_name_str(claim.insurance.payer_id);
    let payer_id = String::from_str(name);
    let mut patient_id = String::from_str(name);
    patient_id.append("-");
    patient_id.append(claim.insurance.patient_member_id.as_str());
    let payee_npi = match &claim.organization.billing_npi {
        Some(npi) => npi.clone(),
        None => String::new(),
    };
    let remittance_id = new_remittance_id();
    Remittance {
        remittance_id,
        claim_id,
        payer_id,
        payee_npi,
        patient_id,
        service_lines,
        initial_claim_ts: claim.initial_claim_ts,
    }
}

/// What every payer's answer to `claim` satisfies under policy `p`: it
/// succeeds exactly when every line is billable, and then answers the claim
/// with each line priced under `p`.
pub open spec fn submitted(claim: PayerClaim, p: PayerPolicy, r: Result<Remittance, String>) -> bool {
    &&& r is Ok <==> all_billable(claim.service_lines@)
    &&& r matches Ok(rem) ==> answers(rem, claim) && priced_under(
        rem.service_lines@,
        claim.service_lines@,
        p,
    )
}

/// A payer that prices claims.
pub trait Insurance {
    /// The policy this payer prices under.
    spec fn pricing_policy(&self) -> PayerPolicy;

    /// Price the claim and answer with a remittance. The simulated response
    /// time is not spent here: see `response_delay_secs`.
    fn submit_claim(&self, claim: &PayerClaim) -> (r: Result<Remittance, String>)
        ensures
            submitted(*claim, self.pricing_policy(), r),
    ;
}

pub struct Medicare {
    pub min_response_time_secs: u64,
    pub max_response_time_secs: u64,
}

pub struct UnitedHealthGroup {
    pub min_response_time_secs: u64,
    pub max_response_time_secs: u64,
}

pub struct Anthem {
    pub min_response_time_secs: u64,
    pub max_response_time_secs: u64,
}

impl Medicare {
    pub fn new() -> (r: Self)
        ensures
            r.min_response_time_secs == 10,
            r.max_response_time_secs == 30,
    {
        Self { min_response_time_secs: 10, max_response_time_secs: 30 }
    }
}

impl UnitedHealthGroup {
    pub fn new() -> (r: Self)
        ensures
            r.min_response_time_secs == 10,
            r.max_response_time_secs == 30,
    {
        Self { min_response_time_secs: 10, max_response_time_secs: 30 }
    }
}

impl Anthem {
    pub fn new() -> (r: Self)
        ensures
            r.min_response_time_secs == 10,
            r.max_response_time_secs == 30,
    {
        Self { min_response_time_secs: 10, max_response_time_secs: 30 }
    }
}

impl Insurance for Medicare {
    open spec fn pricing_policy(&self) -> PayerPolicy {
        spec_policy(PayerId::Medicare)
    }

    fn submit_claim(&self, claim: &PayerClaim) -> (r: Result<Remittance, String>) {
        let lines = price_claim(claim, PayerId::Medicare)?;
        Ok(create_remittance(lines, claim))
    }
}

impl Insurance for UnitedHealthGroup {
    open spec fn pricing_policy(&self) -> PayerPolicy {
        spec_policy(PayerId::UnitedHealthGroup)
    }

    fn submit_claim(&self, claim: &PayerClaim) -> (r: Result<Remittance, String>) {
        let lines = price_claim(claim, PayerId::UnitedHealthGroup)?;
        Ok(create_remittance(lines, claim))
    }
}

impl Insurance for Anthem {
    open spec fn pricing_policy(&self) -> PayerPolicy {
        spec_policy(PayerId::Anthem)
    }

    fn submit_claim(&self, claim: &PayerClaim) -> (r: Result<Remittance, String>) {
        let lines = price_claim(claim, PayerId::Anthem)?;
        Ok(create_remittance(lines, claim))
    }
}

} // verus!
