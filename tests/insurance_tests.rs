use claims::insurance::{
    create_remittance, price_line, Anthem, Insurance, Medicare, PricingDraws, ServiceLine,
    UnitedHealthGroup,
};
use claims::intake::{Gender, Organization, Patient, PayerClaim, PayerId, RenderingProvider};

fn cents(d: f64) -> i64 {
    (d * 100.0).round() as i64
}

fn cents_u(d: f64) -> u64 {
    (d * 100.0).round() as u64
}

fn dollars(c: u64) -> f64 {
    c as f64 / 100.0
}

fn create_test_claim(payer_id: PayerId, service_lines: Vec<claims::intake::ServiceLine>) -> PayerClaim {
    PayerClaim {
        claim_id: "TEST001".to_string(),
        place_of_service_code: 11,
        insurance: claims::intake::Insurance { payer_id, patient_member_id: "PAT123".to_string() },
        patient: Patient {
            first_name: "John".to_string(),
            last_name: "Doe".to_string(),
            gender: Gender::Male,
            dob: "1980-01-15".to_string(),
            email: Some("john.doe@test.com".to_string()),
            address: None,
        },
        organization: Organization {
            name: "Test Clinic".to_string(),
            billing_npi: Some("1234567890".to_string()),
            ein: Some("12-3456789".to_string()),
            contact: None,
            address: None,
        },
        rendering_provider: RenderingProvider {
            first_name: "Dr. Jane".to_string(),
            last_name: "Smith".to_string(),
            npi: "9876543210".to_string(),
        },
        service_lines,
        initial_claim_ts: 1640995200000,
    }
}

fn create_test_service_line(
    id: &str,
    procedure_code: &str,
    units: i32,
    unit_charge: f64,
    do_not_bill: Option<bool>,
) -> claims::intake::ServiceLine {
    claims::intake::ServiceLine {
        service_line_id: id.to_string(),
        procedure_code: procedure_code.to_string(),
        modifiers: None,
        units,
        details: "Test service".to_string(),
        unit_charge_currency: "USD".to_string(),
        unit_charge_amount: cents(unit_charge),
        do_not_bill,
    }
}

fn parts_total(l: &ServiceLine) -> f64 {
    dollars(l.payer_paid_amount)
        + dollars(l.coinsurance_amount)
        + dollars(l.copay_amount)
        + dollars(l.deductible_amount)
        + dollars(l.not_allowed_amount)
}

#[test]
fn test_medicare_new() {
    let medicare = Medicare::new();
    assert_eq!(medicare.min_response_time_secs, 10);
    assert_eq!(medicare.max_response_time_secs, 30);
}

#[test]
fn test_united_health_group_new() {
    let uhg = UnitedHealthGroup::new();
    assert_eq!(uhg.min_response_time_secs, 10);
    assert_eq!(uhg.max_response_time_secs, 30);
}

#[test]
fn test_anthem_new() {
    let anthem = Anthem::new();
    assert_eq!(anthem.min_response_time_secs, 10);
    assert_eq!(anthem.max_response_time_secs, 30);
}

#[test]
fn test_medicare_submit_claim_single_service_line() {
    let medicare = Medicare::new();
    let service_line = create_test_service_line("SL001", "99213", 1, 100.0, None);
    let claim = create_test_claim(PayerId::Medicare, vec![service_line]);

    let result = medicare.submit_claim(&claim);

    assert!(result.is_ok());
    let remittance = result.unwrap();
    assert_eq!(remittance.claim_id, "TEST001");
    assert_eq!(remittance.payer_id, "Medicare");
    assert_eq!(remittance.patient_id, "Medicare-PAT123");
    assert_eq!(remittance.payee_npi, "1234567890");
    assert_eq!(remittance.service_lines.len(), 1);
    assert_eq!(remittance.initial_claim_ts, 1640995200000);

    let service_line = &remittance.service_lines[0];
    assert_eq!(service_line.service_line_id, "SL001");
    assert_eq!(service_line.procedure_code, "99213");
    assert_eq!(dollars(service_line.billed_amount), 100.0);
    assert!(dollars(service_line.deductible_amount) > 0.0);
    assert!(dollars(service_line.coinsurance_amount) >= 0.0);
    assert_eq!(dollars(service_line.copay_amount), 0.0);
    assert!(dollars(service_line.not_allowed_amount) >= 0.0);
    let total = parts_total(service_line);
    assert!((total - dollars(service_line.billed_amount)).abs() < 0.01);
    assert_eq!(service_line.remark_codes, None);
}

#[test]
fn test_united_health_group_submit_claim() {
    let uhg = UnitedHealthGroup { min_response_time_secs: 1, max_response_time_secs: 2 };
    let service_line = create_test_service_line("SL002", "99214", 2, 75.0, None);
    let claim = create_test_claim(PayerId::UnitedHealthGroup, vec![service_line]);

    let result = uhg.submit_claim(&claim);
    assert!(result.is_ok());

    let remittance = result.unwrap();
    assert_eq!(remittance.payer_id, "UnitedHealthGroup");
    assert_eq!(remittance.patient_id, "UnitedHealthGroup-PAT123");

    let service_line = &remittance.service_lines[0];
    assert_eq!(dollars(service_line.billed_amount), 150.0);
    assert!(dollars(service_line.deductible_amount) > 0.0);
    assert!(dollars(service_line.coinsurance_amount) >= 0.0);
    assert!(dollars(service_line.copay_amount) >= 0.0);
    assert!(dollars(service_line.not_allowed_amount) >= 0.0);
    let total = parts_total(service_line);
    assert!((total - dollars(service_line.billed_amount)).abs() < 0.01);
}

#[test]
fn test_anthem_submit_claim() {
    let anthem = Anthem { min_response_time_secs: 1, max_response_time_secs: 2 };
    let service_line = create_test_service_line("SL003", "99215", 1, 200.0, None);
    let claim = create_test_claim(PayerId::Anthem, vec![service_line]);

    let result = anthem.submit_claim(&claim);
    assert!(result.is_ok());

    let remittance = result.unwrap();
    assert_eq!(remittance.payer_id, "Anthem");
    assert_eq!(remittance.patient_id, "Anthem-PAT123");

    let service_line = &remittance.service_lines[0];
    assert_eq!(dollars(service_line.billed_amount), 200.0);
    assert!(dollars(service_line.deductible_amount) > 0.0);
    assert!(dollars(service_line.coinsurance_amount) >= 0.0);
    assert!(dollars(service_line.copay_amount) >= 0.0);
    assert!(dollars(service_line.not_allowed_amount) >= 0.0);
    let total = parts_total(service_line);
    assert!((total - dollars(service_line.billed_amount)).abs() < 0.01);
}

#[test]
fn test_multiple_service_lines() {
    let medicare = Medicare { min_response_time_secs: 1, max_response_time_secs: 2 };
    let service_lines = vec![
        create_test_service_line("SL001", "99213", 1, 100.0, None),
        create_test_service_line("SL002", "99214", 2, 150.0, None),
        create_test_service_line("SL003", "99215", 1, 250.0, None),
    ];
    let claim = create_test_claim(PayerId::Medicare, service_lines);

    let result = medicare.submit_claim(&claim);
    assert!(result.is_ok());

    let remittance = result.unwrap();
    assert_eq!(remittance.service_lines.len(), 3);
    assert_eq!(dollars(remittance.service_lines[0].billed_amount), 100.0);
    assert_eq!(dollars(remittance.service_lines[1].billed_amount), 300.0);
    assert_eq!(dollars(remittance.service_lines[2].billed_amount), 250.0);
}

#[test]
fn test_do_not_bill_true() {
    let medicare = Medicare { min_response_time_secs: 1, max_response_time_secs: 2 };
    let service_line = create_test_service_line("SL001", "99213", 1, 100.0, Some(true));
    let claim = create_test_claim(PayerId::Medicare, vec![service_line]);

    let result = medicare.submit_claim(&claim);
    assert!(result.is_ok());

    let remittance = result.unwrap();
    let service_line = &remittance.service_lines[0];
    assert_eq!(dollars(service_line.billed_amount), 0.0);
    assert_eq!(dollars(service_line.payer_paid_amount), 0.0);
    assert_eq!(dollars(service_line.coinsurance_amount), 0.0);
    assert_eq!(dollars(service_line.copay_amount), 0.0);
    assert_eq!(dollars(service_line.deductible_amount), 0.0);
    assert_eq!(dollars(service_line.not_allowed_amount), 0.0);
}

#[test]
fn test_do_not_bill_false() {
    let medicare = Medicare { min_response_time_secs: 1, max_response_time_secs: 2 };
    let service_line = create_test_service_line("SL001", "99213", 1, 100.0, Some(false));
    let claim = create_test_claim(PayerId::Medicare, vec![service_line]);

    let result = medicare.submit_claim(&claim);
    assert!(result.is_ok());

    let remittance = result.unwrap();
    let service_line = &remittance.service_lines[0];
    assert_eq!(dollars(service_line.billed_amount), 100.0);
    let total = parts_total(service_line);
    assert!((total - dollars(service_line.billed_amount)).abs() < 0.01);
}

#[test]
fn test_do_not_bill_none() {
    let medicare = Medicare { min_response_time_secs: 1, max_response_time_secs: 2 };
    let service_line = create_test_service_line("SL001", "99213", 1, 100.0, None);
    let claim = create_test_claim(PayerId::Medicare, vec![service_line]);

    let result = medicare.submit_claim(&claim);
    assert!(result.is_ok());

    let remittance = result.unwrap();
    let service_line = &remittance.service_lines[0];
    assert_eq!(dollars(service_line.billed_amount), 100.0);
    let total = parts_total(service_line);
    assert!((total - dollars(service_line.billed_amount)).abs() < 0.01);
}

#[test]
fn test_mixed_do_not_bill_service_lines() {
    let medicare = Medicare { min_response_time_secs: 1, max_response_time_secs: 2 };
    let service_lines = vec![
        create_test_service_line("SL001", "99213", 1, 100.0, Some(true)),
        create_test_service_line("SL002", "99214", 1, 150.0, Some(false)),
        create_test_service_line("SL003", "99215", 1, 200.0, None),
    ];
    let claim = create_test_claim(PayerId::Medicare, service_lines);

    let result = medicare.submit_claim(&claim);
    assert!(result.is_ok());

    let remittance = result.unwrap();
    assert_eq!(dollars(remittance.service_lines[0].billed_amount), 0.0);
    assert_eq!(dollars(remittance.service_lines[0].payer_paid_amount), 0.0);
    assert_eq!(dollars(remittance.service_lines[1].billed_amount), 150.0);
    let total_sl2 = parts_total(&remittance.service_lines[1]);
    assert!((total_sl2 - 150.0).abs() < 0.01);
    assert_eq!(dollars(remittance.service_lines[2].billed_amount), 200.0);
    let total_sl3 = parts_total(&remittance.service_lines[2]);
    assert!((total_sl3 - 200.0).abs() < 0.01);
}

#[test]
fn test_zero_unit_charge_amount() {
    let medicare = Medicare { min_response_time_secs: 1, max_response_time_secs: 2 };
    let service_line = create_test_service_line("SL001", "99213", 1, 0.0, None);
    let claim = create_test_claim(PayerId::Medicare, vec![service_line]);

    let result = medicare.submit_claim(&claim);
    assert!(result.is_ok());

    let remittance = result.unwrap();
    let service_line = &remittance.service_lines[0];
    assert_eq!(dollars(service_line.billed_amount), 0.0);
    assert_eq!(dollars(service_line.payer_paid_amount), 0.0);
    assert_eq!(dollars(service_line.coinsurance_amount), 0.0);
    assert_eq!(dollars(service_line.copay_amount), 0.0);
    assert_eq!(dollars(service_line.deductible_amount), 0.0);
    assert_eq!(dollars(service_line.not_allowed_amount), 0.0);
}

#[test]
fn test_large_amounts() {
    let medicare = Medicare { min_response_time_secs: 1, max_response_time_secs: 2 };
    let service_line = create_test_service_line("SL001", "99213", 100, 999.99, None);
    let claim = create_test_claim(PayerId::Medicare, vec![service_line]);

    let result = medicare.submit_claim(&claim);
    assert!(result.is_ok());

    let remittance = result.unwrap();
    let service_line = &remittance.service_lines[0];
    assert!((dollars(service_line.billed_amount) - 99999.0).abs() < 0.01);
    assert!(dollars(service_line.deductible_amount) <= 257.0);
    assert!(dollars(service_line.payer_paid_amount) > 70000.0);
    assert!(dollars(service_line.coinsurance_amount) > 15000.0);
    assert_eq!(dollars(service_line.copay_amount), 0.0);
    assert!(dollars(service_line.not_allowed_amount) > 0.0);
    let total = parts_total(service_line);
    assert!((total - dollars(service_line.billed_amount)).abs() < 0.01);
}

#[test]
fn test_missing_billing_npi() {
    let medicare = Medicare { min_response_time_secs: 1, max_response_time_secs: 2 };
    let service_line = create_test_service_line("SL001", "99213", 1, 100.0, None);
    let mut claim = create_test_claim(PayerId::Medicare, vec![service_line]);
    claim.organization.billing_npi = None;

    let result = medicare.submit_claim(&claim);
    assert!(result.is_ok());

    let remittance = result.unwrap();
    assert_eq!(remittance.payee_npi, "");
}

#[test]
fn test_remittance_id_uniqueness() {
    let medicare = Medicare { min_response_time_secs: 1, max_response_time_secs: 2 };
    let service_line = create_test_service_line("SL001", "99213", 1, 100.0, None);
    let claim = create_test_claim(PayerId::Medicare, vec![service_line]);

    let remittance1 = medicare.submit_claim(&claim).unwrap();
    let remittance2 = medicare.submit_claim(&claim).unwrap();

    assert_ne!(remittance1.remittance_id, remittance2.remittance_id);
    assert!(remittance1.remittance_id.len() > 0);
    assert!(remittance2.remittance_id.len() > 0);
}

#[test]
fn test_create_remittance_function() {
    let service_line = create_test_service_line("SL001", "99213", 1, 100.0, None);
    let claim = create_test_claim(PayerId::Medicare, vec![service_line.clone()]);

    let remittance_service_line = ServiceLine::new(
        &service_line,
        cents_u(100.0),
        cents_u(80.0),
        cents_u(10.0),
        cents_u(5.0),
        cents_u(5.0),
        cents_u(5.0),
    )
    .unwrap();

    let remittance = create_remittance(vec![remittance_service_line], &claim);

    assert_eq!(remittance.claim_id, "TEST001");
    assert_eq!(remittance.payer_id, "Medicare");
    assert_eq!(remittance.patient_id, "Medicare-PAT123");
    assert_eq!(remittance.payee_npi, "1234567890");
    assert_eq!(remittance.service_lines.len(), 1);
    assert_eq!(remittance.initial_claim_ts, 1640995200000);
    assert!(remittance.remittance_id.len() > 0);
}

#[test]
fn test_service_line_new_success() {
    let intake_service_line = create_test_service_line("SL001", "99213", 1, 100.0, None);

    let result = ServiceLine::new(
        &intake_service_line,
        cents_u(100.0),
        cents_u(80.0),
        cents_u(10.0),
        cents_u(5.0),
        cents_u(5.0),
        cents_u(5.0),
    );

    assert!(result.is_ok());
    let service_line = result.unwrap();
    assert_eq!(service_line.service_line_id, "SL001");
    assert_eq!(service_line.procedure_code, "99213");
    assert_eq!(dollars(service_line.billed_amount), 100.0);
    assert_eq!(dollars(service_line.payer_paid_amount), 80.0);
    assert_eq!(dollars(service_line.coinsurance_amount), 10.0);
    assert_eq!(dollars(service_line.copay_amount), 5.0);
    assert_eq!(dollars(service_line.deductible_amount), 5.0);
    assert_eq!(dollars(service_line.not_allowed_amount), 5.0);
    assert_eq!(service_line.remark_codes, None);
}

#[test]
fn test_service_line_new_do_not_bill() {
    let intake_service_line = create_test_service_line("SL001", "99213", 1, 100.0, Some(true));

    let result = ServiceLine::new(
        &intake_service_line,
        cents_u(100.0),
        cents_u(80.0),
        cents_u(10.0),
        cents_u(5.0),
        cents_u(5.0),
        cents_u(5.0),
    );

    assert!(result.is_ok());
    let service_line = result.unwrap();
    assert_eq!(service_line.service_line_id, "SL001");
    assert_eq!(service_line.procedure_code, "99213");
    assert_eq!(dollars(service_line.billed_amount), 0.0);
    assert_eq!(dollars(service_line.payer_paid_amount), 0.0);
    assert_eq!(dollars(service_line.coinsurance_amount), 0.0);
    assert_eq!(dollars(service_line.copay_amount), 0.0);
    assert_eq!(dollars(service_line.deductible_amount), 0.0);
    assert_eq!(dollars(service_line.not_allowed_amount), 0.0);
    assert_eq!(service_line.remark_codes, None);
}

// Exact pricing under fixed draws.

#[test]
fn price_line_medicare_formula() {
    let line = create_test_service_line("SL001", "99213", 1, 1000.0, None);
    let draws = PricingDraws { denial_bp: 1000, deductible_cap: 25700, copay: 0, coverage_bp: 8000 };
    let p = price_line(&line, &draws).unwrap();
    // 100000 billed, 10000 denied, 25700 deductible, 64300 split 80/20
    assert_eq!(p.billed_amount, 100000);
    assert_eq!(p.not_allowed_amount, 10000);
    assert_eq!(p.deductible_amount, 25700);
    assert_eq!(p.copay_amount, 0);
    assert_eq!(p.payer_paid_amount, 51440);
    assert_eq!(p.coinsurance_amount, 12860);
}

#[test]
fn price_line_copay_only_when_remainder_exceeds_it() {
    let draws = PricingDraws { denial_bp: 0, deductible_cap: 1000, copay: 3000, coverage_bp: 7000 };
    // 4000 billed: 1000 deductible leaves 3000, which does not exceed the copay
    let small = create_test_service_line("SL001", "99213", 1, 40.0, None);
    let p = price_line(&small, &draws).unwrap();
    assert_eq!(p.copay_amount, 0);
    assert_eq!(p.payer_paid_amount, 2100);
    assert_eq!(p.coinsurance_amount, 900);
    // 5000 billed: 4000 remains, copay 3000 taken, 1000 split 70/30
    let larger = create_test_service_line("SL002", "99213", 1, 50.0, None);
    let q = price_line(&larger, &draws).unwrap();
    assert_eq!(q.copay_amount, 3000);
    assert_eq!(q.payer_paid_amount, 700);
    assert_eq!(q.coinsurance_amount, 300);
}

#[test]
fn price_line_rejects_negative_billed_amount() {
    let draws = PricingDraws { denial_bp: 500, deductible_cap: 25700, copay: 0, coverage_bp: 8000 };
    let line = create_test_service_line("SL001", "99213", 1, -5.0, None);
    assert!(price_line(&line, &draws).is_err());
    let skipped = create_test_service_line("SL002", "99213", 1, -5.0, Some(true));
    assert_eq!(price_line(&skipped, &draws).unwrap().billed_amount, 0);
}

#[test]
fn submit_claim_fails_on_unbillable_line() {
    let medicare = Medicare::new();
    let claim = create_test_claim(
        PayerId::Medicare,
        vec![create_test_service_line("SL001", "99213", -2, 10.0, None)],
    );
    assert!(medicare.submit_claim(&claim).is_err());
}

#[test]
fn remittance_id_is_hyphenated_uuid() {
    let claim = create_test_claim(PayerId::Anthem, vec![]);
    let r = create_remittance(vec![], &claim);
    assert_eq!(r.remittance_id.len(), 36);
    assert_eq!(r.remittance_id.matches('-').count(), 4);
    assert_eq!(r.patient_id, "Anthem-PAT123");
}

#[test]
fn response_delay_stays_in_window() {
    for _ in 0..50 {
        let d = claims::insurance::response_delay_secs(10, 30);
        assert!((10..=30).contains(&d));
    }
    assert_eq!(claims::insurance::response_delay_secs(7, 7), 7);
}

#[test]
fn draws_stay_within_each_payer_policy() {
    for payer in [PayerId::Medicare, PayerId::UnitedHealthGroup, PayerId::Anthem] {
        let p = claims::insurance::policy(payer);
        for _ in 0..50 {
            let d = claims::insurance::draw(&p);
            assert!(p.denial_bp_min <= d.denial_bp && d.denial_bp <= p.denial_bp_max);
            assert!(p.deductible_cap_min <= d.deductible_cap && d.deductible_cap <= p.deductible_cap_max);
            assert!(p.copay_min <= d.copay && d.copay <= p.copay_max);
            assert!(p.coverage_bp_min <= d.coverage_bp && d.coverage_bp <= p.coverage_bp_max);
        }
    }
    let anthem = claims::insurance::policy(PayerId::Anthem);
    assert_eq!((anthem.deductible_cap_min, anthem.deductible_cap_max), (165000, 200000));
}
