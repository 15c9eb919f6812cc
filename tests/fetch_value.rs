use fetchvalue::{Effect, FetchValue, Observed};

const SECOND: u64 = 1_000_000_000;

#[derive(Debug, Default, Clone, PartialEq)]
struct CatFact {
    fact: String,
    length: usize,
}

fn fact(text: &str, length: usize) -> CatFact {
    CatFact { fact: text.to_string(), length }
}

fn placeholder() -> CatFact {
    fact("placeholder", 4)
}

#[test]
fn new_starts_from_default_without_limit() {
    let mut f: FetchValue<CatFact> = FetchValue::new("https://catfact.ninja/fact");
    assert_eq!(f.url(), "https://catfact.ninja/fact");
    assert_eq!(f.last_update(), None);
    let (v, e) = f.value(0, Observed::NotReady);
    assert_eq!(v, CatFact::default());
    assert!(matches!(e, Effect::StartFetch));
}

#[test]
fn scenario_rate_limited_refresh() {
    let mut f = FetchValue::new("https://catfact.ninja/fact")
        .starting_value(placeholder())
        .max_rate(3 * SECOND);
    let (v, e) = f.value(0, Observed::NotReady);
    assert_eq!(v, placeholder());
    assert!(matches!(e, Effect::StartFetch));
    assert_eq!(f.last_update(), None);

    let delay = 10;
    let (v, e) = f.value(delay, Observed::Fetched(fact("cats are great", 15)));
    assert_eq!(v, fact("cats are great", 15));
    assert!(matches!(e, Effect::TookValue));
    assert_eq!(f.last_update(), Some(delay));

    let (v, e) = f.value(delay + SECOND, Observed::NotReady);
    assert_eq!(v, fact("cats are great", 15));
    assert!(matches!(e, Effect::Idle));

    let (v, e) = f.value(delay + SECOND + 3 * SECOND, Observed::NotReady);
    assert_eq!(v, fact("cats are great", 15));
    assert!(matches!(e, Effect::StartFetch));
}

#[test]
fn scenario_network_down_keeps_value() {
    let mut f = FetchValue::new_rate_limited("https://catfact.ninja/fact", SECOND)
        .starting_value(fact("prior", 5));
    let (_, e) = f.value(100, Observed::NotReady);
    assert!(matches!(e, Effect::StartFetch));
    let (v, e) = f.value(200, Observed::Failed("network down".to_string()));
    assert_eq!(v, fact("prior", 5));
    match e {
        Effect::ReportError(msg) => assert_eq!(msg, "network down"),
        _ => panic!("the failure was not reported"),
    }
    assert_eq!(f.last_update(), Some(200));
    let (v, e) = f.value(300, Observed::NotReady);
    assert_eq!(v, fact("prior", 5));
    assert!(matches!(e, Effect::Idle));
}

#[test]
fn only_failure_keeps_starting_value() {
    let mut f = FetchValue::new("u").starting_value(placeholder());
    f.value(0, Observed::NotReady);
    let (v, _) = f.value(1, Observed::Failed("bad json".to_string()));
    assert_eq!(v, placeholder());
    let (v, e) = f.value(2, Observed::NotReady);
    assert_eq!(v, placeholder());
    assert!(matches!(e, Effect::StartFetch));
}

#[test]
fn no_second_fetch_while_one_is_in_flight() {
    let mut f: FetchValue<u64> = FetchValue::new("u");
    let (_, e) = f.value(0, Observed::NotReady);
    assert!(matches!(e, Effect::StartFetch));
    for t in 1..50u64 {
        let (v, e) = f.value(t * SECOND, Observed::NotReady);
        assert_eq!(v, 0);
        assert!(matches!(e, Effect::Idle));
    }
    let (v, e) = f.value(60 * SECOND, Observed::Fetched(7));
    assert_eq!(v, 7);
    assert!(matches!(e, Effect::TookValue));
    let (_, e) = f.value(60 * SECOND, Observed::NotReady);
    assert!(matches!(e, Effect::StartFetch));
}

#[test]
fn exactly_the_limit_is_not_enough() {
    let mut f: FetchValue<u64> = FetchValue::new_rate_limited("u", 3 * SECOND);
    f.value(0, Observed::NotReady);
    f.value(SECOND, Observed::Fetched(1));
    let (_, e) = f.value(4 * SECOND, Observed::NotReady);
    assert!(matches!(e, Effect::Idle));
    let (_, e) = f.value(4 * SECOND + 1, Observed::NotReady);
    assert!(matches!(e, Effect::StartFetch));
}

#[test]
fn earlier_clock_reading_counts_as_no_time() {
    let mut f: FetchValue<u64> = FetchValue::new_rate_limited("u", 0);
    f.value(10, Observed::NotReady);
    f.value(10, Observed::Fetched(1));
    let (_, e) = f.value(5, Observed::NotReady);
    assert!(matches!(e, Effect::Idle));
    let (_, e) = f.value(10, Observed::NotReady);
    assert!(matches!(e, Effect::Idle));
    let (_, e) = f.value(11, Observed::NotReady);
    assert!(matches!(e, Effect::StartFetch));
}

#[test]
fn outcome_is_ignored_without_fetch_in_flight() {
    let mut f: FetchValue<u64> = FetchValue::new_rate_limited("u", SECOND).starting_value(3);
    f.value(0, Observed::NotReady);
    f.value(1, Observed::Fetched(4));
    let (v, e) = f.value(2, Observed::Fetched(99));
    assert_eq!(v, 4);
    assert!(matches!(e, Effect::Idle));
    assert_eq!(f.last_update(), Some(1));
}

#[test]
fn latest_payload_replaces_older_ones() {
    let mut f: FetchValue<u64> = FetchValue::new("u");
    let mut now = 0;
    for payload in [5u64, 9, 2] {
        f.value(now, Observed::NotReady);
        let (v, _) = f.value(now + 1, Observed::Fetched(payload));
        assert_eq!(v, payload);
        now += 2;
    }
    let (_, e) = f.value(now, Observed::NotReady);
    assert!(matches!(e, Effect::StartFetch));
    let (v, _) = f.value(now + 1, Observed::Failed("timeout".to_string()));
    assert_eq!(v, 2);
}

#[test]
fn rate_limit_bounds_fetch_starts() {
    let d = 3 * SECOND;
    let k = 4;
    let mut f: FetchValue<u64> = FetchValue::new_rate_limited("u", d);
    let mut fetches = 0;
    let mut t = 0;
    let step = SECOND / 10;
    let mut in_flight = false;
    while t <= k * d {
        let seen = if in_flight { Observed::Fetched(t) } else { Observed::NotReady };
        let (_, e) = f.value(t, seen);
        match e {
            Effect::StartFetch => {
                fetches += 1;
                in_flight = true;
            }
            Effect::TookValue | Effect::ReportError(_) => in_flight = false,
            Effect::Idle => {}
        }
        t += step;
    }
    assert!(fetches <= k + 1);
    assert!(fetches >= k - 1);
}

#[test]
fn start_now_starts_the_first_fetch() {
    let (mut f, e) = FetchValue::new_rate_limited("u", SECOND)
        .starting_value(1u64)
        .start_now(0, Observed::NotReady);
    assert!(matches!(e, Effect::StartFetch));
    let (v, e) = f.value(1, Observed::NotReady);
    assert_eq!(v, 1);
    assert!(matches!(e, Effect::Idle));
    let (v, e) = f.value(2, Observed::Fetched(8));
    assert_eq!(v, 8);
    assert!(matches!(e, Effect::TookValue));
}

#[test]
fn max_rate_replaces_the_limit() {
    let mut f: FetchValue<u64> = FetchValue::new_rate_limited("u", 100).max_rate(5);
    f.value(0, Observed::NotReady);
    f.value(0, Observed::Fetched(1));
    let (_, e) = f.value(6, Observed::NotReady);
    assert!(matches!(e, Effect::StartFetch));
}
