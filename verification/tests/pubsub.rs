use bpfcontain::pubsub::{selects, AuditFilter, PubSubImpl, Session, SubscriptionId};
use bpfcontain::text::{same_text, to_decimal};

fn filter(policy_name: &str) -> Option<AuditFilter> {
    Some(AuditFilter { policy_name: Some(policy_name.to_string()) })
}

fn subscribe_over(
    api: &mut PubSubImpl<&'static str>,
    session: &mut Session,
    sink: &'static str,
    filter: Option<AuditFilter>,
) -> u64 {
    let id = api.assign_id();
    let number = id.number();
    api.audit_subscribe(session, id, sink, filter);
    number
}

fn subscribe(api: &mut PubSubImpl<&'static str>, sink: &'static str) -> u64 {
    subscribe_over(api, &mut Session::new(), sink, None)
}

#[test]
fn nobody_is_subscribed_at_first() {
    let api: PubSubImpl<&str> = PubSubImpl::default();
    assert!(api.audit_subscribers().is_empty());
}

#[test]
fn ids_are_counted_from_zero() {
    let mut api: PubSubImpl<&str> = PubSubImpl::default();
    assert!(matches!(api.assign_id(), SubscriptionId::Number(0)));
    assert!(matches!(api.assign_id(), SubscriptionId::Number(1)));
    assert!(matches!(api.assign_id(), SubscriptionId::Number(2)));
    assert!(api.audit_subscribers().is_empty());
}

#[test]
fn subscribers_are_under_numbers_that_were_given_out_for_them() {
    let mut api = PubSubImpl::default();
    let mut session = Session::new();
    let ids: Vec<SubscriptionId> = (0..5).map(|_| api.assign_id()).collect();
    for id in ids.into_iter().rev() {
        let number = id.number();
        assert!(!api.audit_subscribers().contains_key(&number));
        if number != 3 {
            api.audit_subscribe(&mut session, id, number, None);
        }
    }
    assert_eq!(api.audit_subscribers().len(), 4);
    assert!(api.audit_subscribers().iter().all(|(number, sink)| *number < 5 && number == sink));
    assert_eq!(api.session_dropped(session).len(), 4);
    assert!(api.audit_subscribers().is_empty());
}

#[test]
fn each_subscriber_has_its_own_sink() {
    let mut api = PubSubImpl::default();
    let first = subscribe(&mut api, "first");
    let second = subscribe(&mut api, "second");
    assert_ne!(first, second);
    assert_eq!(api.audit_subscribers().get(&first), Some(&"first"));
    assert_eq!(api.audit_subscribers().get(&second), Some(&"second"));
}

#[test]
fn a_filter_selects_by_policy_name() {
    assert!(selects(&filter("web"), "web"));
    assert!(!selects(&filter("web"), "webs"));
    assert!(!selects(&filter("web"), ""));
    assert!(selects(&filter(""), ""));
}

#[test]
fn no_filter_selects_everything() {
    assert!(selects(&None, "web"));
    assert!(selects(&None, ""));
    assert!(selects(&Some(AuditFilter { policy_name: None }), "web"));
}

#[test]
fn a_subscriber_is_sent_what_its_filter_selects() {
    let mut api = PubSubImpl::default();
    let mut session = Session::new();
    let web = subscribe_over(&mut api, &mut session, "web sink", filter("web"));
    let all = subscribe_over(&mut api, &mut session, "all sink", None);
    assert!(api.receives(web, "web"));
    assert!(!api.receives(web, "db"));
    assert!(api.receives(all, "web"));
    assert!(api.receives(all, "db"));
    assert!(!api.receives(99, "web"));
    assert_eq!(api.audit_subscribers().get(&web), Some(&"web sink"));
}

#[test]
fn an_ended_subscription_keeps_no_filter() {
    let mut api = PubSubImpl::default();
    let mut session = Session::new();
    let web = subscribe_over(&mut api, &mut session, "sink", filter("web"));
    api.connection_lost(&SubscriptionId::Number(web));
    assert!(!api.receives(web, "web"));
    api.audit_subscribe(&mut session, SubscriptionId::Number(web), "sink", None);
    assert!(api.receives(web, "db"));
    assert!(api.audit_unsubscribe(None::<()>, SubscriptionId::Number(web)).is_ok());
    assert!(!api.receives(web, "db"));
}

#[test]
fn a_lost_connection_ends_its_subscription_only() {
    let mut api = PubSubImpl::default();
    let first = subscribe(&mut api, "first");
    let second = subscribe(&mut api, "second");
    let warning = api.connection_lost(&SubscriptionId::Number(first));
    assert_eq!(warning, "Lost connection with subscriber 0, dropping subscription!");
    assert_eq!(api.audit_subscribers().get(&first), None);
    assert_eq!(api.audit_subscribers().get(&second), Some(&"second"));
    api.connection_lost(&SubscriptionId::Number(first));
    assert_eq!(api.audit_subscribers().len(), 1);
    assert_eq!(subscribe(&mut api, "third"), 2);
}

#[test]
fn a_dropped_session_ends_all_of_its_subscriptions() {
    let mut api = PubSubImpl::default();
    let mut session = Session::new();
    let mut other = Session::new();
    let first = subscribe_over(&mut api, &mut session, "first", None);
    let second = subscribe_over(&mut api, &mut other, "second", filter("web"));
    let third = subscribe_over(&mut api, &mut session, "third", filter("db"));
    assert_eq!(
        api.session_dropped(session),
        vec![
            "Lost connection with subscriber 0, dropping subscription!",
            "Lost connection with subscriber 2, dropping subscription!",
        ]
    );
    assert_eq!(api.audit_subscribers().get(&first), None);
    assert_eq!(api.audit_subscribers().get(&third), None);
    assert!(!api.receives(third, "db"));
    assert_eq!(api.audit_subscribers().get(&second), Some(&"second"));
    assert!(api.receives(second, "web"));
    assert_eq!(
        api.session_dropped(other),
        vec!["Lost connection with subscriber 1, dropping subscription!"]
    );
    assert!(api.audit_subscribers().is_empty());
}

#[test]
fn a_handler_outlives_its_subscription() {
    let mut api = PubSubImpl::default();
    let mut session = Session::new();
    let first = subscribe_over(&mut api, &mut session, "first", None);
    assert!(api.audit_unsubscribe(None::<()>, SubscriptionId::Number(first)).is_ok());
    assert_eq!(api.session_dropped(session).len(), 1);
    assert!(api.session_dropped(Session::new()).is_empty());
}

#[test]
fn numbers_are_written_in_decimal() {
    assert_eq!(to_decimal(0), "0");
    assert_eq!(to_decimal(9), "9");
    assert_eq!(to_decimal(10), "10");
    assert_eq!(to_decimal(1203456789), "1203456789");
    assert_eq!(to_decimal(u64::MAX), u64::MAX.to_string());
}

#[test]
fn texts_are_the_same_character_for_character() {
    assert!(same_text("", ""));
    assert!(same_text("main.main", "main.main"));
    assert!(!same_text("main.main", "main.mai"));
    assert!(!same_text("a", "A"));
}

#[test]
fn unsubscribing_ends_the_subscription() {
    let mut api = PubSubImpl::default();
    let first = subscribe(&mut api, "first");
    let second = subscribe(&mut api, "second");
    assert!(api.audit_unsubscribe(Some(()), SubscriptionId::Number(second)).is_ok());
    assert_eq!(api.audit_subscribers().get(&first), Some(&"first"));
    assert_eq!(api.audit_subscribers().get(&second), None);
}

#[test]
fn unsubscribing_a_stranger_changes_nothing() {
    let mut api = PubSubImpl::default();
    let first = subscribe(&mut api, "first");
    assert!(api.audit_unsubscribe(None::<()>, SubscriptionId::Number(99)).is_ok());
    let hash = SubscriptionId::String("hash".to_string());
    assert!(api.audit_unsubscribe(None::<()>, hash).is_ok());
    assert_eq!(api.audit_subscribers().len(), 1);
    assert_eq!(api.audit_subscribers().get(&first), Some(&"first"));
}
