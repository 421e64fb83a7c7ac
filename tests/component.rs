use ga_component::{
    Campaign, Client, Consent, Context, Data, EdgeeRequest, Event, EventType, GaComponent,
    GaError, HttpMethod, PageData, Session, TrackData, UserData,
};
use uuid::Uuid;

fn sample_user_data(edgee_id: String) -> UserData {
    UserData {
        user_id: "123".to_string(),
        anonymous_id: "456".to_string(),
        edgee_id,
        properties: vec![
            ("prop1".to_string(), "value1".to_string()),
            ("prop2".to_string(), "10".to_string()),
        ],
    }
}

fn sample_context(edgee_id: String, locale: String, session_start: bool) -> Context {
    Context {
        page: sample_page_data(),
        user: sample_user_data(edgee_id),
        client: Client {
            city: "Paris".to_string(),
            ip: "192.168.0.1".to_string(),
            locale,
            timezone: "CET".to_string(),
            user_agent: "Chrome".to_string(),
            user_agent_architecture: "fuck knows".to_string(),
            user_agent_bitness: "64".to_string(),
            user_agent_full_version_list: "abc".to_string(),
            user_agent_version_list: "abc".to_string(),
            user_agent_mobile: "mobile".to_string(),
            user_agent_model: "don't know".to_string(),
            os_name: "MacOS".to_string(),
            os_version: "latest".to_string(),
            screen_width: 1024,
            screen_height: 768,
            continent: "Europe".to_string(),
            country_code: "FR".to_string(),
            country_name: "France".to_string(),
            region: "West Europe".to_string(),
        },
        campaign: Campaign {
            name: "random".to_string(),
            source: "random".to_string(),
            medium: "random".to_string(),
            term: "random".to_string(),
            content: "random".to_string(),
            creative_format: "random".to_string(),
            marketing_tactic: "random".to_string(),
        },
        session: Session {
            session_id: "random".to_string(),
            previous_session_id: "random".to_string(),
            session_count: 2,
            session_start,
            first_seen: 123,
            last_seen: 123,
        },
    }
}

fn sample_page_data() -> PageData {
    PageData {
        name: "page name".to_string(),
        category: "category".to_string(),
        keywords: vec!["value1".to_string(), "value2".into()],
        title: "page title".to_string(),
        url: "https://example.com/full-url?test=1".to_string(),
        path: "/full-path".to_string(),
        search: "?test=1".to_string(),
        referrer: "https://example.com/another-page".to_string(),
        properties: vec![
            ("prop1".to_string(), "value1".to_string()),
            ("prop2".to_string(), "10".to_string()),
            ("currency".to_string(), "USD".to_string()),
        ],
    }
}

fn sample_page_event(
    consent: Option<Consent>,
    edgee_id: String,
    locale: String,
    session_start: bool,
) -> Event {
    Event {
        uuid: Uuid::new_v4().to_string(),
        timestamp: 123,
        timestamp_millis: 123,
        timestamp_micros: 123,
        event_type: EventType::Page,
        data: Data::Page(sample_page_data()),
        context: sample_context(edgee_id, locale, session_start),
        consent,
    }
}

fn sample_track_data(event_name: String) -> TrackData {
    TrackData {
        name: event_name,
        products: vec![
            vec![("sku".to_string(), "SKU_12345".to_string())],
            vec![("name".to_string(), "Stan and Friends Tee".to_string())],
            vec![(
                "affiliation".to_string(),
                "Google Merchandise Store".to_string(),
            )],
            vec![("coupon".to_string(), "SUMMER_FUN".to_string())],
            vec![("discount".to_string(), "2.22".to_string())],
            vec![("index".to_string(), "0".to_string())],
            vec![("brand".to_string(), "Google".to_string())],
            vec![("category".to_string(), "Apparel".to_string())],
            vec![("category2".to_string(), "Adult".to_string())],
            vec![("category3".to_string(), "Shirts".to_string())],
            vec![("category4".to_string(), "Crew".to_string())],
            vec![("category5".to_string(), "Short sleeve".to_string())],
            vec![("list_id".to_string(), "related_products".to_string())],
            vec![("list_name".to_string(), "Related Products".to_string())],
            vec![("variant".to_string(), "green".to_string())],
            vec![(
                "location_id".to_string(),
                "ChIJIQBpAG2ahYAR_6128GcTUEo".to_string(),
            )],
            vec![("price".to_string(), "10.1".to_string())],
            vec![("quantity".to_string(), "3".to_string())],
            vec![("custom-property".to_string(), "whatever".to_string())],
        ],
        properties: vec![
            ("prop1".to_string(), "value1".to_string()),
            ("prop2".to_string(), "10".to_string()),
            ("currency".to_string(), "USD".to_string()),
        ],
    }
}

fn sample_track_event(
    event_name: String,
    consent: Option<Consent>,
    edgee_id: String,
    locale: String,
    session_start: bool,
) -> Event {
    Event {
        uuid: Uuid::new_v4().to_string(),
        timestamp: 123,
        timestamp_millis: 123,
        timestamp_micros: 123,
        event_type: EventType::Track,
        data: Data::Track(sample_track_data(event_name)),
        context: sample_context(edgee_id, locale, session_start),
        consent,
    }
}

fn sample_user_event(
    consent: Option<Consent>,
    edgee_id: String,
    locale: String,
    session_start: bool,
) -> Event {
    Event {
        uuid: Uuid::new_v4().to_string(),
        timestamp: 123,
        timestamp_millis: 123,
        timestamp_micros: 123,
        event_type: EventType::User,
        data: Data::User(sample_user_data(edgee_id.clone())),
        context: sample_context(edgee_id, locale, session_start),
        consent,
    }
}

fn sample_settings() -> Vec<(String, String)> {
    vec![("ga_measurement_id".to_string(), "abc".to_string())]
}

fn query_of(req: &EdgeeRequest) -> String {
    req.url
        .strip_prefix("https://www.google-analytics.com/g/collect?")
        .unwrap()
        .to_string()
}

#[test]
fn page_with_consent() {
    let event = sample_page_event(
        Some(Consent::Granted),
        "abc".to_string(),
        "fr".to_string(),
        true,
    );
    let settings = sample_settings();
    let result = GaComponent::page(event, settings);

    assert_eq!(result.is_err(), false);
    let edgee_request = result.unwrap();
    assert_eq!(edgee_request.method, HttpMethod::Post);
    assert_eq!(edgee_request.body.len(), 0);
    assert_eq!(
        edgee_request
            .url
            .starts_with("https://www.google-analytics.com"),
        true
    );
}

#[test]
fn page_without_consent() {
    let event = sample_page_event(None, "abc".to_string(), "fr".to_string(), true);
    let settings = sample_settings();
    let result = GaComponent::page(event, settings);

    assert_eq!(result.is_err(), false);
    let edgee_request = result.unwrap();
    assert_eq!(edgee_request.method, HttpMethod::Post);
    assert_eq!(edgee_request.body.len(), 0);
}

#[test]
fn page_with_edgee_id_uuid() {
    let event = sample_page_event(None, Uuid::new_v4().to_string(), "fr".to_string(), true);
    let settings = sample_settings();
    let result = GaComponent::page(event, settings);

    assert_eq!(result.is_err(), false);
    let edgee_request = result.unwrap();
    assert_eq!(edgee_request.method, HttpMethod::Post);
    assert_eq!(edgee_request.body.len(), 0);
}

#[test]
fn page_with_empty_locale() {
    let event = sample_page_event(None, Uuid::new_v4().to_string(), "".to_string(), true);

    let settings = sample_settings();
    let result = GaComponent::page(event, settings);

    assert_eq!(result.is_err(), false);
    let edgee_request = result.unwrap();
    assert_eq!(edgee_request.method, HttpMethod::Post);
    assert_eq!(edgee_request.body.len(), 0);
}

#[test]
fn page_not_session_start() {
    let event = sample_page_event(None, Uuid::new_v4().to_string(), "".to_string(), false);
    let settings = sample_settings();
    let result = GaComponent::page(event, settings);

    assert_eq!(result.is_err(), false);
    let edgee_request = result.unwrap();
    assert_eq!(edgee_request.method, HttpMethod::Post);
    assert_eq!(edgee_request.body.len(), 0);
}

#[test]
fn page_without_measurement_id_fails() {
    let event = sample_page_event(None, "abc".to_string(), "fr".to_string(), true);
    let settings: Vec<(String, String)> = vec![];
    let result = GaComponent::page(event, settings);
    assert_eq!(result.is_err(), true);
}

#[test]
fn track_with_consent() {
    let event = sample_track_event(
        "event-name".to_string(),
        Some(Consent::Granted),
        "abc".to_string(),
        "fr".to_string(),
        true,
    );
    let settings = sample_settings();
    let result = GaComponent::track(event, settings);
    assert_eq!(result.clone().is_err(), false);
    let edgee_request = result.unwrap();
    assert_eq!(edgee_request.method, HttpMethod::Post);
    assert_eq!(edgee_request.body.len(), 0);
}

#[test]
fn track_with_empty_name_fails() {
    let event = sample_track_event(
        "".to_string(),
        Some(Consent::Granted),
        "abc".to_string(),
        "fr".to_string(),
        true,
    );
    let settings = sample_settings();
    let result = GaComponent::track(event, settings);
    assert_eq!(result.is_err(), true);
}

#[test]
fn user_event() {
    let event = sample_user_event(
        Some(Consent::Granted),
        "abc".to_string(),
        "fr".to_string(),
        true,
    );
    let settings = sample_settings();
    let result = GaComponent::user(event, settings);

    assert_eq!(result.clone().is_err(), true);
    assert_eq!(
        result
            .clone()
            .err()
            .unwrap()
            .message()
            .contains("not mapped"),
        true
    );
}

#[test]
fn track_event_without_user_context_properties_and_empty_user_id() {
    let mut event = sample_track_event(
        "event-name".to_string(),
        Some(Consent::Granted),
        "abc".to_string(),
        "fr".to_string(),
        true,
    );
    event.context.user.properties = vec![];
    event.context.user.user_id = "".to_string();
    let settings = sample_settings();
    let result = GaComponent::track(event, settings);
    assert_eq!(result.clone().is_err(), false);
}

#[test]
fn page_query_has_expected_parameters() {
    let mut event = sample_page_event(
        Some(Consent::Granted),
        "abc".to_string(),
        "fr".to_string(),
        true,
    );
    event.uuid = "e1".to_string();
    let req = GaComponent::page_with_nonce(event, sample_settings(), 42).unwrap();
    let q = query_of(&req);
    assert!(q.starts_with("v=2&tid=abc&_p=42&sr=1024x768&ul=fr&cid=abc&_s=1&"));
    assert!(q.contains("&dl=https%3A%2F%2Fexample.com%2Ffull-url%3Ftest%3D1%3Ftest%3D1&"));
    assert!(q.contains("&dt=page+title&"));
    assert!(q.contains("&en=page_view&"));
    assert!(q.contains("&ep.event_id=e1&ep.page_name=page+name&ep.page_category=category&ep.page_keywords=value1%2Cvalue2&ep.page_search=%3Ftest%3D1&ep.prop1=value1&epn.prop2=10&"));
    assert!(q.contains("&_ee=1&uid=123&sid=random&sct=2&seg=0&up.anonymous_id=456&up.prop1=value1&upn.prop2=10&_fv=1&_ss=1&_nsi=1&_uc=FR&"));
    assert!(q.contains("&gcs=G111&gcd=13t3t3t2t5l1&npa=0&dma_cps=syphamo&dma=1&pscdl=noapi&cu=USD&_uip=192.168.0.1"));
    assert_eq!(req.headers, vec![("content-length".to_string(), "0".to_string())]);
    assert!(req.forward_client_headers);
}

#[test]
fn page_query_has_no_bracket_keys() {
    let mut event = sample_page_event(None, "abc".to_string(), "fr".to_string(), true);
    if let Data::Page(ref mut p) = event.data {
        p.properties.push(("odd [key]".to_string(), "x]y[z".to_string()));
    }
    let req = GaComponent::page(event, sample_settings()).unwrap();
    let q = query_of(&req);
    assert!(!q.contains('['));
    assert!(!q.contains(']'));
    assert!(q.contains("&ep.odd_%5Bkey%5D=x%5Dy%5Bz&"));
    assert!(q
        .chars()
        .all(|c| c.is_ascii_alphanumeric() || "*-._~+%&=".contains(c)));
}

#[test]
fn page_without_consent_uses_restricted_values() {
    let event = sample_page_event(Some(Consent::Denied), "abc".to_string(), "".to_string(), false);
    let req = GaComponent::page(event, sample_settings()).unwrap();
    let q = query_of(&req);
    assert!(q.contains("&gcs=G101&gcd=13p3t3p2p5l1&npa=1&dma_cps=-&dma=1&pscdl=denied&"));
    assert!(q.contains("&ul=en&"));
    assert!(q.contains("&seg=1&"));
    assert!(!q.contains("_ss="));
}

#[test]
fn every_entry_point_needs_the_measurement_id() {
    let page = GaComponent::page(
        sample_page_event(None, "abc".to_string(), "fr".to_string(), true),
        vec![],
    );
    let track = GaComponent::track(
        sample_track_event("".to_string(), None, "abc".to_string(), "fr".to_string(), true),
        vec![("other".to_string(), "x".to_string())],
    );
    let user = GaComponent::user(
        sample_user_event(None, "abc".to_string(), "fr".to_string(), true),
        vec![],
    );
    assert!(matches!(page, Err(GaError::Config(_))));
    assert!(matches!(track, Err(GaError::Config(_))));
    assert!(matches!(user, Err(GaError::Config(_))));
}

#[test]
fn track_with_empty_name_is_a_validation_error() {
    let event = sample_track_event("".to_string(), None, "abc".to_string(), "fr".to_string(), true);
    let result = GaComponent::track(event, sample_settings());
    assert!(matches!(result, Err(GaError::Validation(_))));
}

#[test]
fn wrong_data_kind_is_a_validation_error() {
    let event = sample_user_event(None, "abc".to_string(), "fr".to_string(), true);
    let result = GaComponent::page(event.clone(), sample_settings());
    assert!(matches!(result, Err(GaError::Validation(_))));
    let result = GaComponent::track(event, sample_settings());
    assert!(matches!(result, Err(GaError::Validation(_))));
}

#[test]
fn track_items_are_numbered_in_order() {
    let mut event = sample_track_event("buy".to_string(), None, "abc".to_string(), "fr".to_string(), true);
    if let Data::Track(ref mut t) = event.data {
        t.products = vec![
            vec![("sku".to_string(), "A".to_string()), ("in stock".to_string(), "yes".to_string())],
            vec![("name".to_string(), "Stan and Friends Tee".to_string()), ("price".to_string(), "10.1".to_string())],
            vec![("brand".to_string(), "G".to_string()), ("sku".to_string(), "C".to_string())],
        ];
    }
    let req = GaComponent::track(event, sample_settings()).unwrap();
    let q = query_of(&req);
    let tail = q.split_once("&pr1=").unwrap().1;
    assert_eq!(
        format!("&pr1={}", tail),
        "&pr1=idA~k0in_stock~v0yes&pr2=nmStan%20and%20Friends%20Tee~pr10.1&pr3=idC~brG"
    );
}

#[test]
fn track_items_beyond_two_hundred_are_dropped() {
    let mut event = sample_track_event("buy".to_string(), None, "abc".to_string(), "fr".to_string(), true);
    if let Data::Track(ref mut t) = event.data {
        t.products = (0..201)
            .map(|i| vec![("sku".to_string(), format!("S{}", i))])
            .collect();
    }
    let req = GaComponent::track(event, sample_settings()).unwrap();
    let q = query_of(&req);
    assert!(q.contains("&pr1=idS0"));
    assert!(q.contains("&pr200=idS199"));
    assert!(!q.contains("&pr201="));
    assert!(!q.contains("idS200"));
}

#[test]
fn track_currency_goes_to_its_own_field() {
    let mut event = sample_track_event("buy".to_string(), None, "abc".to_string(), "fr".to_string(), true);
    if let Data::Track(ref mut t) = event.data {
        t.properties = vec![
            ("currency".to_string(), "EUR".to_string()),
            ("value".to_string(), "12.5".to_string()),
        ];
        t.products = vec![];
    }
    let req = GaComponent::track(event, sample_settings()).unwrap();
    let q = query_of(&req);
    assert!(q.contains("&cu=EUR"));
    assert!(q.contains("&epn.value=12.5&"));
    assert!(!q.contains("ep.currency"));
    assert!(!q.contains("&pr1="));
}

#[test]
fn user_properties_keep_last_kind_only() {
    let mut event = sample_page_event(None, "abc".to_string(), "fr".to_string(), true);
    event.context.user.properties = vec![
        ("a".to_string(), "1".to_string()),
        ("a".to_string(), "x".to_string()),
    ];
    let req = GaComponent::page(event, sample_settings()).unwrap();
    let q = query_of(&req);
    assert!(q.contains("&up.a=x"));
    assert!(!q.contains("upn.a="));
}

#[test]
fn user_event_message_is_stated() {
    let event = sample_user_event(None, "abc".to_string(), "fr".to_string(), true);
    let err = GaComponent::user(event, sample_settings()).unwrap_err();
    assert_eq!(err.message(), "User event is not mapped to any Google Analytics event");
}
