use pratyaksh_ai::models::{count_with_status, select_with_status, DashboardTab, PaymentRequest};

fn request(user_id: &str, status: &str) -> PaymentRequest {
    PaymentRequest {
        user_id: user_id.to_string(),
        email: format!("{}@example.com", user_id),
        amount: "19,999".to_string(),
        plan: "pro".to_string(),
        status: status.to_string(),
        txn_id: format!("txn-{}", user_id),
        device: "desktop".to_string(),
        doc_path: format!("payments/{}", user_id),
    }
}

fn sample() -> Vec<PaymentRequest> {
    vec![
        request("a", "pending"),
        request("b", "approved"),
        request("c", "pending"),
        request("d", "denied"),
        request("e", "approved"),
        request("f", "Pending"),
    ]
}

#[test]
fn selects_requests_with_a_status_in_order() {
    let pending = select_with_status(&sample(), "pending");
    let ids: Vec<&str> = pending.iter().map(|r| r.user_id.as_str()).collect();
    assert_eq!(ids, vec!["a", "c"]);
    assert_eq!(pending[1].doc_path, "payments/c");
    assert!(select_with_status(&sample(), "refunded").is_empty());
    assert!(select_with_status(&Vec::new(), "pending").is_empty());
}

#[test]
fn counts_requests_with_a_status() {
    let all = sample();
    assert_eq!(count_with_status(&all, "pending"), 2);
    assert_eq!(count_with_status(&all, "approved"), 2);
    assert_eq!(count_with_status(&all, "denied"), 1);
    assert_eq!(count_with_status(&all, ""), 0);
    assert_eq!(count_with_status(&Vec::new(), "pending"), 0);
}

#[test]
fn clone_keeps_every_field() {
    let r = request("z", "pending");
    let c = r.clone();
    assert_eq!(c.user_id, r.user_id);
    assert_eq!(c.email, r.email);
    assert_eq!(c.status, r.status);
    assert_eq!(c.doc_path, r.doc_path);
}

#[test]
fn tabs_compare_by_variant() {
    assert_eq!(DashboardTab::Pending, DashboardTab::Pending);
    assert_ne!(DashboardTab::Pending, DashboardTab::Statistics);
}
