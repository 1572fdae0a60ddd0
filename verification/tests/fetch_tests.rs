use ib_async_dx::fetch::StartupFetch;

#[test]
fn startup_flags_have_ib_asyncs_values() {
    assert_eq!(StartupFetch::positions().value(), 1);
    assert_eq!(StartupFetch::orders_open().value(), 2);
    assert_eq!(StartupFetch::orders_complete().value(), 4);
    assert_eq!(StartupFetch::account_updates().value(), 8);
    assert_eq!(StartupFetch::sub_account_updates().value(), 16);
    assert_eq!(StartupFetch::executions().value(), 32);
    assert_eq!(StartupFetch::all().value(), 63);
    assert_eq!(StartupFetch::none().value(), 0);
}

#[test]
fn startup_flags_combine_as_sets() {
    let p = StartupFetch::positions();
    let o = StartupFetch::orders_open();
    let both = p | o;
    assert_eq!(both.value(), 3);
    assert!(both.contains(p));
    assert!(both.contains(o));
    assert!(!p.contains(both));
    assert!(p.contains(StartupFetch::none()));
    assert!(StartupFetch::all().contains(both));
    assert_eq!((both & o).value(), 2);
    assert_eq!((both ^ o).value(), 1);
    assert_eq!((!both).value(), 60);
    assert_eq!((!StartupFetch::all()).value(), 0);
    assert_eq!((!StartupFetch::none()), StartupFetch::all());
    assert_eq!(!!both, both);
    assert_eq!((both | !both), StartupFetch::all());
    assert_eq!((both & !both), StartupFetch::none());
}

#[test]
fn connect_options_default_to_ib_asyncs() {
    let o = ib_async_dx::fetch::ConnectOptions::default();
    assert_eq!(o.client_id, 1);
    assert_eq!(o.timeout, Some(4_000_000_000));
    assert_eq!(o.logon_timeout, None);
    assert_eq!(o.account, "");
    assert!(!o.raise_sync_errors);
    assert_eq!(o.fetch_fields, StartupFetch::all());
}

#[test]
fn the_account_falls_back_to_the_username_and_a_zero_timeout_is_none() {
    let mut o = ib_async_dx::fetch::ConnectOptions::default();
    assert_eq!(o.account_named("alice"), "alice");
    o.account = "DU123".to_owned();
    assert_eq!(o.account_named("alice"), "DU123");
    assert_eq!(o.wait_bound(), Some(4_000_000_000));
    o.timeout = Some(0);
    assert_eq!(o.wait_bound(), None);
    o.timeout = None;
    assert_eq!(o.wait_bound(), None);
}
