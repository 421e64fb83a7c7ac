//! The three entry points: page, track and user events.

use crate::error::GaError;
use crate::escape::{join_strings, join_with};
use crate::event::{Data, Dict, EdgeeRequest, Event, HttpMethod, PageData, TrackData};
use crate::ids::{random_draw, NONCE_MAX};
use crate::items::{product_from_properties, product_of, products_view, Product, ProductView};
use crate::payload::{base_view, location_of, measurement_id_of, GaPayload, GaPayloadView};
use crate::properties::{
    classify, classify_into, lemma_classify_well_formed, pairs_view, well_formed_maps, Classified,
    PairsView,
};
use crate::wire::{build_edgee_request, request_query, COLLECT_URL};
use vstd::prelude::*;

verus! {

/// Why a user event yields no request.
pub const USER_NOT_MAPPED: &'static str = "User event is not mapped to any Google Analytics event";

/// The component that maps events onto collection requests.
pub struct GaComponent;

/// The event parameters a page view starts from, before its properties.
pub open spec fn page_seed(e: Event, pg: PageData) -> PairsView {
    let m0 = seq![("event_id"@, e.uuid@)];
    let m1 = if pg.name@.len() > 0 {
        m0.push(("page_name"@, pg.name@))
    } else {
        m0
    };
    let m2 = if pg.category@.len() > 0 {
        m1.push(("page_category"@, pg.category@))
    } else {
        m1
    };
    let m3 = if pg.keywords@.len() > 0 {
        m2.push(("page_keywords"@, join_with(pg.keywords@.map_values(|k: String| k@), ',')))
    } else {
        m2
    };
    if pg.search@.len() > 0 {
        m3.push(("page_search"@, pg.search@))
    } else {
        m3
    }
}

/// Event properties classified on top of `seed`, the currency taken out.
pub open spec fn event_classes(seed: PairsView, props: Dict) -> Classified {
    classify(
        Classified { text: seed, numbers: Seq::empty(), currency: None },
        pairs_view(props@),
        true,
    )
}

pub open spec fn currency_of(c: Classified) -> Seq<char> {
    match c.currency {
        Some(v) => v,
        None => Seq::empty(),
    }
}

/// The payload of a page view.
pub open spec fn page_view_of(e: Event, pg: PageData, tid: Seq<char>, nonce: u32) -> GaPayloadView {
    let b = base_view(e, tid, "page_view"@, nonce);
    let cls = event_classes(page_seed(e, pg), pg.properties);
    GaPayloadView {
        document_location: location_of(pg),
        document_title: pg.title@,
        document_referrer: pg.referrer@,
        event_parameter_string: cls.text,
        event_parameter_number: cls.numbers,
        currency_code: currency_of(cls),
        ..b
    }
}

/// The payload of a track event.
pub open spec fn track_view_of(e: Event, td: TrackData, tid: Seq<char>, nonce: u32) -> GaPayloadView {
    let b = base_view(e, tid, td.name@, nonce);
    let cls = event_classes(seq![("event_id"@, e.uuid@)], td.properties);
    GaPayloadView {
        event_parameter_string: cls.text,
        event_parameter_number: cls.numbers,
        currency_code: currency_of(cls),
        ..b
    }
}

/// The items of a track event, one per property bag.
pub open spec fn track_items_of(td: TrackData) -> Seq<ProductView> {
    td.products@.map_values(|b: Dict| product_of(pairs_view(b@)))
}

/// `req` is the request that carries payload `p` and items `items`.
pub open spec fn carries(req: EdgeeRequest, p: GaPayloadView, items: Seq<ProductView>) -> bool {
    &&& req.method == HttpMethod::Post
    &&& req.url@ == COLLECT_URL@ + request_query(p, items)
    &&& pairs_view(req.headers@) == seq![("content-length"@, "0"@)]
    &&& req.forward_client_headers
    &&& req.body@.len() == 0
}

/// The outcome of a page call: a configuration error without a measurement
/// id, a validation error for data of another kind, else the request of the
/// page view.
pub open spec fn page_outcome(e: Event, settings: Dict, nonce: u32, r: Result<EdgeeRequest, GaError>) -> bool {
    match measurement_id_of(settings) {
        None => r matches Err(err) && err is Config,
        Some(tid) => match e.data {
            Data::Page(pg) => r matches Ok(req) && carries(req, page_view_of(e, pg, tid, nonce), Seq::empty()),
            _ => r matches Err(err) && err is Validation,
        },
    }
}

/// The outcome of a track call: a configuration error without a measurement
/// id, a validation error for data of another kind or an empty event name,
/// else the request of the track event and its items.
pub open spec fn track_outcome(e: Event, settings: Dict, nonce: u32, r: Result<EdgeeRequest, GaError>) -> bool {
    match measurement_id_of(settings) {
        None => r matches Err(err) && err is Config,
        Some(tid) => match e.data {
            Data::Track(td) => if td.name@.len() == 0 {
                r matches Err(err) && err is Validation
            } else {
                r matches Ok(req) && carries(req, track_view_of(e, td, tid, nonce), track_items_of(td))
            },
            _ => r matches Err(err) && err is Validation,
        },
    }
}

fn page_event_parameters(e: &Event, data: &PageData) -> (r: Dict)
    ensures
        pairs_view(r@) == page_seed(*e, *data),
{
    let mut m: Dict = Vec::new();
    m.push(("event_id".to_string(), e.uuid.clone()));
    proof {
        assert(pairs_view(m@) =~= seq![("event_id"@, e.uuid@)]);
    }
    let ghost m0 = pairs_view(m@);
    if !data.name.as_str().is_empty() {
        m.push(("page_name".to_string(), data.name.clone()));
    }
    proof {
        assert(pairs_view(m@) =~= if data.name@.len() > 0 { m0.push(("page_name"@, data.name@)) } else { m0 });
    }
    let ghost m1 = pairs_view(m@);
    if !data.category.as_str().is_empty() {
        m.push(("page_category".to_string(), data.category.clone()));
    }
    proof {
        assert(pairs_view(m@) =~= if data.category@.len() > 0 { m1.push(("page_category"@, data.category@)) } else { m1 });
    }
    let ghost m2 = pairs_view(m@);
    if data.keywords.len() > 0 {
        m.push(("page_keywords".to_string(), join_strings(&data.keywords, ',')));
    }
    proof {
        assert(pairs_view(m@) =~= if data.keywords@.len() > 0 {
            m2.push(("page_keywords"@, join_with(data.keywords@.map_values(|k: String| k@), ',')))
        } else {
            m2
        });
    }
    let ghost m3 = pairs_view(m@);
    if !data.search.as_str().is_empty() {
        m.push(("page_search".to_string(), data.search.clone()));
    }
    proof {
        assert(pairs_view(m@) =~= if data.search@.len() > 0 { m3.push(("page_search"@, data.search@)) } else { m3 });
    }
    m
}

impl GaComponent {
    /// A page view with the given nonce.
    pub fn page_with_nonce(edgee_event: Event, settings: Dict, nonce: u32) -> (r: Result<
        EdgeeRequest,
        GaError,
    >)
        requires
            nonce <= NONCE_MAX,
        ensures
            page_outcome(edgee_event, settings, nonce, r),
    {
        let mut ga = match GaPayload::new(&edgee_event, &settings, "page_view".to_string(), nonce) {
            Ok(p) => p,
            Err(e) => {
                return Err(e);
            },
        };
        let data = match &edgee_event.data {
            Data::Page(d) => d,
            _ => {
                return Err(GaError::Validation("Missing page data".to_string()));
            },
        };
        if !data.url.as_str().is_empty() {
            let mut location = data.url.clone();
            location.append(data.search.as_str());
            ga.document_location = location;
        } else {
            ga.document_location = String::new();
        }
        ga.document_title = data.title.clone();
        ga.document_referrer = data.referrer.clone();
        let mut text = page_event_parameters(&edgee_event, data);
        let mut numbers: Dict = Vec::new();
        let mut currency: Option<String> = None;
        proof {
            assert(pairs_view(numbers@) =~= Seq::empty());
        }
        classify_into(&data.properties, &mut text, &mut numbers, &mut currency, true);
        ga.event_parameter_string = text;
        ga.event_parameter_number = numbers;
        if let Some(c) = currency {
            ga.currency_code = c;
        }
        let ghost tid = measurement_id_of(settings)->0;
        proof {
            assert(ga@ == page_view_of(edgee_event, *data, tid, nonce));
            assert(products_view(Seq::<Product>::empty()) =~= Seq::empty());
        }
        build_edgee_request(ga, Vec::new())
    }

    /// Maps a page view onto a collection request. Fails with a
    /// configuration error when the settings lack the measurement id, and
    /// with a validation error when the event holds no page data.
    pub fn page(edgee_event: Event, settings: Dict) -> (r: Result<EdgeeRequest, GaError>)
        ensures
            exists|n: u32| n <= NONCE_MAX && page_outcome(edgee_event, settings, n, r),
            measurement_id_of(settings) is None ==> (r matches Err(e) && e is Config),
            measurement_id_of(settings) is Some && edgee_event.data is Page ==> r is Ok,
    {
        let n = random_draw();
        GaComponent::page_with_nonce(edgee_event, settings, n)
    }

    /// A track event with the given nonce.
    pub fn track_with_nonce(edgee_event: Event, settings: Dict, nonce: u32) -> (r: Result<
        EdgeeRequest,
        GaError,
    >)
        requires
            nonce <= NONCE_MAX,
        ensures
            track_outcome(edgee_event, settings, nonce, r),
    {
        let data = match &edgee_event.data {
            Data::Track(d) => Some(d),
            _ => None,
        };
        let name = match data {
            Some(d) => d.name.clone(),
            None => String::new(),
        };
        let mut ga = match GaPayload::new(&edgee_event, &settings, name, nonce) {
            Ok(p) => p,
            Err(e) => {
                return Err(e);
            },
        };
        let data = match data {
            Some(d) => d,
            None => {
                return Err(GaError::Validation("Missing track data".to_string()));
            },
        };
        if data.name.as_str().is_empty() {
            return Err(GaError::Validation("Track is not set".to_string()));
        }
        let mut text: Dict = Vec::new();
        text.push(("event_id".to_string(), edgee_event.uuid.clone()));
        let mut numbers: Dict = Vec::new();
        let mut currency: Option<String> = None;
        proof {
            assert(pairs_view(text@) =~= seq![("event_id"@, edgee_event.uuid@)]);
            assert(pairs_view(numbers@) =~= Seq::empty());
        }
        classify_into(&data.properties, &mut text, &mut numbers, &mut currency, true);
        ga.event_parameter_string = text;
        ga.event_parameter_number = numbers;
        if let Some(c) = currency {
            ga.currency_code = c;
        }
        let mut items: Vec<Product> = Vec::new();
        let mut i: usize = 0;
        while i < data.products.len()
            invariant
                i <= data.products@.len(),
                products_view(items@) == track_items_of(*data).take(i as int),
            decreases data.products@.len() - i,
        {
            let p = product_from_properties(&data.products[i]);
            let ghost before = products_view(items@);
            let ghost pv = p@;
            items.push(p);
            proof {
                assert(products_view(items@) =~= before.push(pv));
                assert(track_items_of(*data)[i as int] == pv);
                assert(products_view(items@) =~= track_items_of(*data).take(i + 1));
            }
            i = i + 1;
        }
        let ghost tid = measurement_id_of(settings)->0;
        proof {
            assert(products_view(items@) =~= track_items_of(*data));
            assert(ga@ == track_view_of(edgee_event, *data, tid, nonce));
        }
        build_edgee_request(ga, items)
    }

    /// Maps a track event onto a collection request with one parameter per
    /// item. Fails with a configuration error when the settings lack the
    /// measurement id, and with a validation error when the event holds no
    /// track data or its name is empty.
    pub fn track(edgee_event: Event, settings: Dict) -> (r: Result<EdgeeRequest, GaError>)
        ensures
            exists|n: u32| n <= NONCE_MAX && track_outcome(edgee_event, settings, n, r),
            measurement_id_of(settings) is None ==> (r matches Err(e) && e is Config),
            measurement_id_of(settings) is Some && (edgee_event.data matches Data::Track(td)
                && td.name@.len() == 0) ==> (r matches Err(e) && e is Validation),
            measurement_id_of(settings) is Some && (edgee_event.data matches Data::Track(td)
                && td.name@.len() > 0) ==> r is Ok,
    {
        let n = random_draw();
        GaComponent::track_with_nonce(edgee_event, settings, n)
    }

    /// User events have no collector counterpart: the call fails with a
    /// configuration error when the settings lack the measurement id, and
    /// with a validation error otherwise.
    pub fn user(edgee_event: Event, settings: Dict) -> (r: Result<EdgeeRequest, GaError>)
        ensures
            measurement_id_of(settings) is None ==> (r matches Err(e) && e is Config),
            measurement_id_of(settings) is Some ==> (r matches Err(e) && e is Validation
                && e.message_view() == USER_NOT_MAPPED@),
    {
        match crate::payload::setting_value(&settings, crate::payload::MEASUREMENT_ID_KEY) {
            None => Err(GaError::Config("Missing GA Measurement ID".to_string())),
            Some(_) => Err(
                GaError::Validation(USER_NOT_MAPPED.to_string()),
            ),
        }
    }
}

/// The event parameter maps of a track event are disjoint and free of
/// repeated keys: a property key lands in one of them only, with its last
/// value.
pub proof fn lemma_track_maps_disjoint(e: Event, td: TrackData)
    ensures
        well_formed_maps(event_classes(seq![("event_id"@, e.uuid@)], td.properties)),
{
    let st = Classified { text: seq![("event_id"@, e.uuid@)], numbers: Seq::empty(), currency: None };
    assert(well_formed_maps(st));
    lemma_classify_well_formed(st, pairs_view(td.properties@), true);
}

/// The event parameter maps of a page view are disjoint and free of repeated
/// keys: a property key lands in one of them only, with its last value.
pub proof fn lemma_page_maps_disjoint(e: Event, pg: PageData)
    ensures
        well_formed_maps(event_classes(page_seed(e, pg), pg.properties)),
{
    reveal_strlit("event_id");
    reveal_strlit("page_name");
    reveal_strlit("page_category");
    reveal_strlit("page_keywords");
    reveal_strlit("page_search");
    let seed = page_seed(e, pg);
    assert forall|i: int, j: int| 0 <= i < j < seed.len() implies #[trigger] seed[i].0
        != #[trigger] seed[j].0 by {
        assert(seed[i].0.len() != seed[j].0.len() || seed[i].0[5] != seed[j].0[5]);
    }
    let st = Classified { text: seed, numbers: Seq::empty(), currency: None };
    assert(well_formed_maps(st));
    lemma_classify_well_formed(st, pairs_view(pg.properties@), true);
}

} // verus!
