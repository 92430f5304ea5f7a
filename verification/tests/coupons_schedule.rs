use tora_backend::schedule::{next_weekday_time, Weekday};
use tora_backend::swc::{
    initialize_name_mapping, localize_coupon, prepare_coupons, resource_label, sanitize_coupons,
    Coupon, Created, LocalizedCoupon, LocalizedResource, Payload, Resource, SwResource,
};

fn sw_resource(label_i18n: &str) -> SwResource {
    SwResource {
        category: String::new(),
        code: String::new(),
        label: String::new(),
        label_i18n: label_i18n.to_string(),
        priority: String::new(),
        usable_in_coupon: String::new(),
        visible: String::new(),
    }
}

fn coupon(label: &str, created: &str, status: &str, resources: Vec<Resource>) -> Coupon {
    Coupon {
        created: Created { full: created.to_string() },
        label: label.to_string(),
        resources,
        score: String::new(),
        status: status.to_string(),
    }
}

fn localized(code: &str) -> LocalizedCoupon {
    LocalizedCoupon { coupon_code: code.to_string(), resources: Vec::new() }
}

#[test]
fn the_name_mapping_localises_known_resources() {
    let mapping = initialize_name_mapping();
    assert_eq!(mapping.len(), 10);
    assert_eq!(resource_label(&mapping, "Energy"), "能量");
    assert_eq!(resource_label(&mapping, "Rune"), "符文");
    assert_eq!(resource_label(&mapping, "Unknown thing"), "");
}

#[test]
fn a_coupon_is_localised_resource_by_resource() {
    let mapping = initialize_name_mapping();
    let c = coupon(
        "CODE123",
        "1700000000",
        "verified",
        vec![
            Resource { quantity: "100".to_string(), sw_resource: sw_resource("Energy") },
            Resource { quantity: "junk".to_string(), sw_resource: sw_resource("Nothing") },
        ],
    );
    let lc = localize_coupon(&c, &mapping);
    assert_eq!(lc.coupon_code, "CODE123");
    assert_eq!(lc.resources.len(), 2);
    assert_eq!(lc.resources[0].quantity, 100);
    assert_eq!(lc.resources[0].label, "能量");
    assert_eq!(lc.resources[1].quantity, 0);
    assert_eq!(lc.resources[1].label, "");
}

#[test]
fn only_verified_coupons_go_out_oldest_first() {
    let mapping = initialize_name_mapping();
    let payload = Payload {
        data: vec![
            coupon("NEW", "200", "verified", Vec::new()),
            coupon("PENDING", "150", "pending", Vec::new()),
            coupon("OLD", "100", "verified", Vec::new()),
        ],
    };
    let out = prepare_coupons(payload, &mapping);
    let codes: Vec<&str> = out.iter().map(|c| c.coupon_code.as_str()).collect();
    assert_eq!(codes, vec!["OLD", "NEW"]);
}

#[test]
fn unreadable_stamps_sort_first() {
    let mapping = initialize_name_mapping();
    let payload = Payload {
        data: vec![
            coupon("DATED", "5", "verified", Vec::new()),
            coupon("BROKEN", "x", "verified", Vec::new()),
        ],
    };
    let out = prepare_coupons(payload, &mapping);
    let codes: Vec<&str> = out.iter().map(|c| c.coupon_code.as_str()).collect();
    assert_eq!(codes, vec!["BROKEN", "DATED"]);
}

#[test]
fn sanitising_drops_already_published_codes() {
    let mut published = vec![localized("A"), localized("B")];
    let incoming = vec![localized("B"), localized("C"), localized("D")];
    let fresh = sanitize_coupons(&mut published, incoming);
    let codes: Vec<&str> = fresh.iter().map(|c| c.coupon_code.as_str()).collect();
    assert_eq!(codes, vec!["C", "D"]);
    let republished: Vec<&str> = published.iter().map(|c| c.coupon_code.as_str()).collect();
    assert_eq!(republished, vec!["C", "D"]);
}

#[test]
fn sanitising_with_nothing_published_passes_everything() {
    let mut published: Vec<LocalizedCoupon> = Vec::new();
    let incoming = vec![LocalizedCoupon {
        coupon_code: "A".to_string(),
        resources: vec![LocalizedResource { quantity: 3, label: "能量".to_string() }],
    }];
    let fresh = sanitize_coupons(&mut published, incoming);
    assert_eq!(fresh.len(), 1);
    assert_eq!(published.len(), 1);
    assert_eq!(published[0].resources[0].quantity, 3);
}

#[test]
fn the_epoch_day_was_a_thursday() {
    // At the epoch itself, a Thursday reminder at 22:00 fires the same day.
    assert_eq!(next_weekday_time(0, 22, Weekday::Thursday), 22 * 3600);
    // A Friday reminder fires the next day.
    assert_eq!(next_weekday_time(0, 22, Weekday::Friday), 86400 + 22 * 3600);
    // A Wednesday reminder waits six days.
    assert_eq!(next_weekday_time(0, 22, Weekday::Wednesday), 6 * 86400 + 22 * 3600);
}

#[test]
fn reminder_instants_agree_with_the_calendar() {
    let now = 1_700_000_000;  // 2023-11-14, a Tuesday
    let tartarus = next_weekday_time(now, 22, Weekday::Friday);
    let t = time::OffsetDateTime::from_unix_timestamp(tartarus).unwrap();
    assert_eq!(t.weekday(), time::Weekday::Friday);
    assert_eq!(t.hour(), 22);
    assert_eq!(t.minute(), 0);
    let slime = next_weekday_time(now, 16, Weekday::Thursday);
    let s = time::OffsetDateTime::from_unix_timestamp(slime).unwrap();
    assert_eq!(s.weekday(), time::Weekday::Thursday);
    assert_eq!(s.hour(), 16);
    assert!(slime > now);
    assert!(slime < now + 7 * 86400);
}

#[test]
fn a_reminder_on_the_current_weekday_keeps_the_day() {
    // 1970-01-01 is a Thursday; late that evening the Thursday reminder
    // still points at that day's instant, already in the past.
    let now = 23 * 3600;
    assert_eq!(next_weekday_time(now, 16, Weekday::Thursday), 16 * 3600);
}
