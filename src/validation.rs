//! Static field rules on a claim: required fields, formats, then business
//! rules, with the first failure reported.

use vstd::prelude::*;
use vstd::string::*;
use crate::intake::{PayerClaim, ServiceLine};
use crate::text::{
    append_decimal, blank, currency_format, decimal, ein_format, is_blank, is_currency_code,
    is_ein, is_npi, is_zip, npi_format, zip_format,
};

verus! {

/// A required field of the claim outside its service lines.
#[derive(Debug, Clone, Copy, PartialEq, Eq, Structural)]
pub enum ClaimField {
    ClaimId,
    PatientFirstName,
    PatientLastName,
    PatientDob,
    OrganizationName,
    ProviderFirstName,
    ProviderLastName,
    ProviderNpi,
    PatientMemberId,
}

/// A required field of a service line.
#[derive(Debug, Clone, Copy, PartialEq, Eq, Structural)]
pub enum LineField {
    ServiceLineId,
    ProcedureCode,
    Details,
    Currency,
}

/// The rule that a claim breaks.
#[derive(Debug, Clone)]
pub enum ClaimError {
    EmptyField(ClaimField),
    EmptyLineField(usize, LineField),
    ProviderNpiFormat,
    BillingNpiFormat,
    EinFormat,
    ZipFormat,
    CurrencyFormat(usize),
    PlaceOfService,
    NoServiceLines,
    DuplicateServiceLineId(String),
    UnitsBelowOne(usize),
    AmountNotPositive(usize),
    MixedCurrency,
    ProviderNpiIsBillingNpi,
}

pub open spec fn claim_field_name(f: ClaimField) -> Seq<char> {
    match f {
        ClaimField::ClaimId => "claim_id"@,
        ClaimField::PatientFirstName => "patient.first_name"@,
        ClaimField::PatientLastName => "patient.last_name"@,
        ClaimField::PatientDob => "patient.dob"@,
        ClaimField::OrganizationName => "organization.name"@,
        ClaimField::ProviderFirstName => "rendering_provider.first_name"@,
        ClaimField::ProviderLastName => "rendering_provider.last_name"@,
        ClaimField::ProviderNpi => "rendering_provider.npi"@,
        ClaimField::PatientMemberId => "insurance.patient_member_id"@,
    }
}

pub open spec fn line_field_name(f: LineField) -> Seq<char> {
    match f {
        LineField::ServiceLineId => "service_line_id"@,
        LineField::ProcedureCode => "procedure_code"@,
        LineField::Details => "details"@,
        LineField::Currency => "unit_charge_currency"@,
    }
}

/// `service_lines[i]`
pub open spec fn line_ref(i: usize) -> Seq<char> {
    "service_lines["@ + decimal(i as nat) + "]"@
}

/// The human-readable text of an error; it names the field or the rule.
pub open spec fn error_message(e: ClaimError) -> Seq<char> {
    match e {
        ClaimError::EmptyField(f) => claim_field_name(f) + " cannot be empty"@,
        ClaimError::EmptyLineField(i, f) => line_ref(i) + "."@ + line_field_name(f)
            + " cannot be empty"@,
        ClaimError::ProviderNpiFormat => "rendering_provider.npi must be exactly 10 digits"@,
        ClaimError::BillingNpiFormat => "organization.billing_npi must be exactly 10 digits"@,
        ClaimError::EinFormat => "organization.ein must match format XX-XXXXXXX"@,
        ClaimError::ZipFormat => "patient.address.zip must be XXXXX or XXXXX-XXXX format"@,
        ClaimError::CurrencyFormat(i) => line_ref(i)
            + ".unit_charge_currency must be 3 uppercase letters"@,
        ClaimError::PlaceOfService => "place_of_service_code must be between 1-99"@,
        ClaimError::NoServiceLines => "service_lines must contain at least one item"@,
        ClaimError::DuplicateServiceLineId(id) => "Duplicate service_line_id: "@ + id@,
        ClaimError::UnitsBelowOne(i) => line_ref(i) + ".units must be at least 1"@,
        ClaimError::AmountNotPositive(i) => line_ref(i) + ".unit_charge_amount must be positive"@,
        ClaimError::MixedCurrency => "All service lines must use the same currency"@,
        ClaimError::ProviderNpiIsBillingNpi =>
            "rendering_provider.npi cannot equal organization.billing_npi"@,
    }
}

pub open spec fn line_field_text(l: ServiceLine, f: LineField) -> Seq<char> {
    match f {
        LineField::ServiceLineId => l.service_line_id@,
        LineField::ProcedureCode => l.procedure_code@,
        LineField::Details => l.details@,
        LineField::Currency => l.unit_charge_currency@,
    }
}

/// The first blank required field of the lines from `i` on, line by line in
/// the order id, procedure code, details, currency.
pub open spec fn blank_line_field_from(lines: Seq<ServiceLine>, i: int) -> Option<ClaimError>
    decreases lines.len() - i,
{
    if i < 0 || i >= lines.len() {
        None
    } else if is_blank(lines[i].service_line_id@) {
        Some(ClaimError::EmptyLineField(i as usize, LineField::ServiceLineId))
    } else if is_blank(lines[i].procedure_code@) {
        Some(ClaimError::EmptyLineField(i as usize, LineField::ProcedureCode))
    } else if is_blank(lines[i].details@) {
        Some(ClaimError::EmptyLineField(i as usize, LineField::Details))
    } else if is_blank(lines[i].unit_charge_currency@) {
        Some(ClaimError::EmptyLineField(i as usize, LineField::Currency))
    } else {
        blank_line_field_from(lines, i + 1)
    }
}

/// The first required field that is blank, if any.
pub open spec fn blank_field_error(c: PayerClaim) -> Option<ClaimError> {
    if is_blank(c.claim_id@) {
        Some(ClaimError::EmptyField(ClaimField::ClaimId))
    } else if is_blank(c.patient.first_name@) {
        Some(ClaimError::EmptyField(ClaimField::PatientFirstName))
    } else if is_blank(c.patient.last_name@) {
        Some(ClaimError::EmptyField(ClaimField::PatientLastName))
    } else if is_blank(c.patient.dob@) {
        Some(ClaimError::EmptyField(ClaimField::PatientDob))
    } else if is_blank(c.organization.name@) {
        Some(ClaimError::EmptyField(ClaimField::OrganizationName))
    } else if is_blank(c.rendering_provider.first_name@) {
        Some(ClaimError::EmptyField(ClaimField::ProviderFirstName))
    } else if is_blank(c.rendering_provider.last_name@) {
        Some(ClaimError::EmptyField(ClaimField::ProviderLastName))
    } else if is_blank(c.rendering_provider.npi@) {
        Some(ClaimError::EmptyField(ClaimField::ProviderNpi))
    } else if is_blank(c.insurance.patient_member_id@) {
        Some(ClaimError::EmptyField(ClaimField::PatientMemberId))
    } else {
        blank_line_field_from(c.service_lines@, 0)
    }
}

/// The first line from `i` on whose currency is not a currency code.
pub open spec fn currency_error_from(lines: Seq<ServiceLine>, i: int) -> Option<ClaimError>
    decreases lines.len() - i,
{
    if i < 0 || i >= lines.len() {
        None
    } else if !is_currency_code(lines[i].unit_charge_currency@) {
        Some(ClaimError::CurrencyFormat(i as usize))
    } else {
        currency_error_from(lines, i + 1)
    }
}

/// The first format rule that the claim breaks, if any.
pub open spec fn format_error(c: PayerClaim) -> Option<ClaimError> {
    if !is_npi(c.rendering_provider.npi@) {
        Some(ClaimError::ProviderNpiFormat)
    } else if c.organization.billing_npi is Some && !is_npi(c.organization.billing_npi->0@) {
        Some(ClaimError::BillingNpiFormat)
    } else if c.organization.ein is Some && !is_ein(c.organization.ein->0@) {
        Some(ClaimError::EinFormat)
    } else if c.patient.address is Some && c.patient.address->0.zip is Some && !is_zip(
        c.patient.address->0.zip->0@,
    ) {
        Some(ClaimError::ZipFormat)
    } else {
        currency_error_from(c.service_lines@, 0)
    }
}

/// Line `i`'s id also stands on an earlier line.
pub open spec fn id_seen_before(lines: Seq<ServiceLine>, i: int) -> bool {
    exists|j: int| 0 <= j < i && #[trigger] lines[j].service_line_id@ == lines[i].service_line_id@
}

/// The first business rule that a line from `i` on breaks, line by line in
/// the order unique id, units, amount, currency of the first line.
pub open spec fn line_rule_error_from(lines: Seq<ServiceLine>, i: int) -> Option<ClaimError>
    decreases lines.len() - i,
{
    if i < 0 || i >= lines.len() || lines.len() == 0 {
        None
    } else if id_seen_before(lines, i) {
        Some(ClaimError::DuplicateServiceLineId(lines[i].service_line_id))
    } else if lines[i].units < 1 {
        Some(ClaimError::UnitsBelowOne(i as usize))
    } else if lines[i].unit_charge_amount <= 0 {
        Some(ClaimError::AmountNotPositive(i as usize))
    } else if lines[i].unit_charge_currency@ != lines[0].unit_charge_currency@ {
        Some(ClaimError::MixedCurrency)
    } else {
        line_rule_error_from(lines, i + 1)
    }
}

/// The first business rule that the claim breaks, if any.
pub open spec fn business_error(c: PayerClaim) -> Option<ClaimError> {
    if c.place_of_service_code < 1 || c.place_of_service_code > 99 {
        Some(ClaimError::PlaceOfService)
    } else if c.service_lines@.len() == 0 {
        Some(ClaimError::NoServiceLines)
    } else if line_rule_error_from(c.service_lines@, 0) is Some {
        line_rule_error_from(c.service_lines@, 0)
    } else if c.organization.billing_npi is Some && c.rendering_provider.npi@
        == c.organization.billing_npi->0@ {
        Some(ClaimError::ProviderNpiIsBillingNpi)
    } else {
        None
    }
}

/// The first rule that the claim breaks: required fields, then formats,
/// then business rules.
pub open spec fn claim_error(c: PayerClaim) -> Option<ClaimError> {
    if blank_field_error(c) is Some {
        blank_field_error(c)
    } else if format_error(c) is Some {
        format_error(c)
    } else {
        business_error(c)
    }
}

pub open spec fn error_of(r: Result<(), ClaimError>) -> Option<ClaimError> {
    match r {
        Ok(_) => None,
        Err(e) => Some(e),
    }
}


fn claim_field_str(f: ClaimField) -> (r: &'static str)
    ensures
        r@ == claim_field_name(f),
{
    match f {
        ClaimField::ClaimId => "claim_id",
        ClaimField::PatientFirstName => "patient.first_name",
        ClaimField::PatientLastName => "patient.last_name",
        ClaimField::PatientDob => "patient.dob",
        ClaimField::OrganizationName => "organization.name",
        ClaimField::ProviderFirstName => "rendering_provider.first_name",
        ClaimField::ProviderLastName => "rendering_provider.last_name",
        ClaimField::ProviderNpi => "rendering_provider.npi",
        ClaimField::PatientMemberId => "insurance.patient_member_id",
    }
}

fn line_field_str(f: LineField) -> (r: &'static str)
    ensures
        r@ == line_field_name(f),
{
    match f {
        LineField::ServiceLineId => "service_line_id",
        LineField::ProcedureCode => "procedure_code",
        LineField::Details => "details",
        LineField::Currency => "unit_charge_currency",
    }
}

fn line_ref_string(i: usize) -> (r: String)
    ensures
        r@ == line_ref(i),
{
    let mut s = String::from_str("service_lines[");
    append_decimal(&mut s, i as u64);
    s.append("]");
    s
}

impl ClaimError {
    /// The error as text.
    pub fn message(&self) -> (r: String)
        ensures
            r@ == error_message(*self),
    {
        match self {
            ClaimError::EmptyField(f) => {
                let mut s = String::from_str(claim_field_str(*f));
                s.append(" cannot be empty");
                s
            },
            ClaimError::EmptyLineField(i, f) => {
                let mut s = line_ref_string(*i);
                s.append(".");
                s.append(line_field_str(*f));
                s.append(" cannot be empty");
                s
            },
            ClaimError::ProviderNpiFormat => String::from_str(
                "rendering_provider.npi must be exactly 10 digits",
            ),
            ClaimError::BillingNpiFormat => String::from_str(
                "organization.billing_npi must be exactly 10 digits",
            ),
            ClaimError::EinFormat => String::from_str("organization.ein must match format XX-XXXXXXX"),
            ClaimError::ZipFormat => String::from_str(
                "patient.address.zip must be XXXXX or XXXXX-XXXX format",
            ),
            ClaimError::CurrencyFormat(i) => {
                let mut s = line_ref_string(*i);
                s.append(".unit_charge_currency must be 3 uppercase letters");
                s
            },
            ClaimError::PlaceOfService => String::from_str(
                "place_of_service_code must be between 1-99",
            ),
            ClaimError::NoServiceLines => String::from_str(
                "service_lines must contain at least one item",
            ),
            ClaimError::DuplicateServiceLineId(id) => {
                let mut s = String::from_str("Duplicate service_line_id: ");
                s.append(id.as_str());
                s
            },
            ClaimError::UnitsBelowOne(i) => {
                let mut s = line_ref_string(*i);
                s.append(".units must be at least 1");
                s
            },
            ClaimError::AmountNotPositive(i) => {
                let mut s = line_ref_string(*i);
                s.append(".unit_charge_amount must be positive");
                s
            },
            ClaimError::MixedCurrency => String::from_str(
                "All service lines must use the same currency",
            ),
            ClaimError::ProviderNpiIsBillingNpi => String::from_str(
                "rendering_provider.npi cannot equal organization.billing_npi",
            ),
        }
    }
}

fn require_text(s: &String, f: ClaimField) -> (r: Result<(), ClaimError>)
    ensures
        error_of(r) == (if is_blank(s@) {
            Some(ClaimError::EmptyField(f))
        } else {
            None::<ClaimError>
        }),
{
    if blank(s.as_str()) {
        Err(ClaimError::EmptyField(f))
    } else {
        Ok(())
    }
}

fn validate_non_empty_fields(claim: &PayerClaim) -> (r: Result<(), ClaimError>)
    ensures
        error_of(r) == blank_field_error(*claim),
{
    require_text(&claim.claim_id, ClaimField::ClaimId)?;
    require_text(&claim.patient.first_name, ClaimField::PatientFirstName)?;
    require_text(&claim.patient.last_name, ClaimField::PatientLastName)?;
    require_text(&claim.patient.dob, ClaimField::PatientDob)?;
    require_text(&claim.organization.name, ClaimField::OrganizationName)?;
    require_text(&claim.rendering_provider.first_name, ClaimField::ProviderFirstName)?;
    require_text(&claim.rendering_provider.last_name, ClaimField::ProviderLastName)?;
    require_text(&claim.rendering_provider.npi, ClaimField::ProviderNpi)?;
    require_text(&claim.insurance.patient_member_id, ClaimField::PatientMemberId)?;
    let lines = &claim.service_lines;
    let mut i: usize = 0;
    while i < lines.len()
        invariant
            i <= lines.len(),
            blank_field_error(*claim) == blank_line_field_from(lines@, i as int),
        decreases lines.len() - i,
    {
        let line = &lines[i];
        if blank(line.service_line_id.as_str()) {
            return Err(ClaimError::EmptyLineField(i, LineField::ServiceLineId));
        }
        if blank(line.procedure_code.as_str()) {
            return Err(ClaimError::EmptyLineField(i, LineField::ProcedureCode));
        }
        if blank(line.details.as_str()) {
            return Err(ClaimError::EmptyLineField(i, LineField::Details));
        }
        if blank(line.unit_charge_currency.as_str()) {
            return Err(ClaimError::EmptyLineField(i, LineField::Currency));
        }
        i = i + 1;
    }
    Ok(())
}

fn validate_formats(claim: &PayerClaim) -> (r: Result<(), ClaimError>)
    ensures
        error_of(r) == format_error(*claim),
{
    if !npi_format(claim.rendering_provider.npi.as_str()) {
        return Err(ClaimError::ProviderNpiFormat);
    }
    if let Some(npi) = &claim.organization.billing_npi {
        if !npi_format(npi.as_str()) {
            return Err(ClaimError::BillingNpiFormat);
        }
    }
    if let Some(ein) = &claim.organization.ein {
        if !ein_format(ein.as_str()) {
            return Err(ClaimError::EinFormat);
        }
    }
    if let Some(address) = &claim.patient.address {
        if let Some(zip) = &address.zip {
            if !zip_format(zip.as_str()) {
                return Err(ClaimError::ZipFormat);
            }
        }
    }
    let lines = &claim.service_lines;
    let mut i: usize = 0;
    while i < lines.len()
        invariant
            i <= lines.len(),
            format_error(*claim) == currency_error_from(lines@, i as int),
        decreases lines.len() - i,
    {
        if !currency_format(lines[i].unit_charge_currency.as_str()) {
            return Err(ClaimError::CurrencyFormat(i));
        }
        i = i + 1;
    }
    Ok(())
}

/// Whether line `i`'s id stands on an earlier line.
fn id_repeats(lines: &Vec<ServiceLine>, i: usize) -> (r: bool)
    requires
        i < lines.len(),
    ensures
        r == id_seen_before(lines@, i as int),
{
    let mut j: usize = 0;
    while j < i
        invariant
            j <= i < lines.len(),
            forall|k: int|
                0 <= k < j ==> #[trigger] lines@[k].service_line_id@ != lines@[i as int].service_line_id@,
        decreases i - j,
    {
        if lines[j].service_line_id == lines[i].service_line_id {
            return true;
        }
        j = j + 1;
    }
    false
}

fn validate_business_rules(claim: &PayerClaim) -> (r: Result<(), ClaimError>)
    ensures
        error_of(r) == business_error(*claim),
{
    if claim.place_of_service_code < 1 || claim.place_of_service_code > 99 {
        return Err(ClaimError::PlaceOfService);
    }
    let lines = &claim.service_lines;
    if lines.len() == 0 {
        return Err(ClaimError::NoServiceLines);
    }
    let first_currency = &lines[0].unit_charge_currency;
    let mut i: usize = 0;
    while i < lines.len()
        invariant
            0 < lines.len(),
            i <= lines.len(),
            1 <= claim.place_of_service_code <= 99,
            lines@ == claim.service_lines@,
            first_currency@ == lines@[0].unit_charge_currency@,
            line_rule_error_from(lines@, 0) == line_rule_error_from(lines@, i as int),
        decreases lines.len() - i,
    {
        let line = &lines[i];
        if id_repeats(lines, i) {
            return Err(ClaimError::DuplicateServiceLineId(line.service_line_id.clone()));
        }
        if line.units < 1 {
            return Err(ClaimError::UnitsBelowOne(i));
        }
        if line.unit_charge_amount <= 0 {
            return Err(ClaimError::AmountNotPositive(i));
        }
        if !(line.unit_charge_currency == *first_currency) {
            return Err(ClaimError::MixedCurrency);
        }
        i = i + 1;
    }
    if let Some(billing) = &claim.organization.billing_npi {
        if claim.rendering_provider.npi == *billing {
            return Err(ClaimError::ProviderNpiIsBillingNpi);
        }
    }
    Ok(())
}

/// Check a claim against the field rules: `Ok` exactly when it breaks none,
/// otherwise the first rule it breaks.
pub fn check_claim(claim: &PayerClaim) -> (r: Result<(), ClaimError>)
    ensures
        error_of(r) == claim_error(*claim),
{
    validate_non_empty_fields(claim)?;
    validate_formats(claim)?;
    validate_business_rules(claim)?;
    Ok(())
}

/// Check a claim against the field rules: `Ok` exactly when it breaks none,
/// otherwise the text of the first rule it breaks.
pub fn validate_claim(claim: &PayerClaim) -> (r: Result<(), String>)
    ensures
        r is Ok <==> claim_error(*claim) is None,
        r matches Err(m) ==> m@ == error_message(claim_error(*claim)->0),
{
    match check_claim(claim) {
        Ok(()) => Ok(()),
        Err(e) => Err(e.message()),
    }
}

} // verus!
