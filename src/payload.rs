//! The payload record: one field per protocol parameter, the four nested
//! property maps, and the prelude shared by every event kind.

use crate::consent::{consent_view_of, encode_consent};
use crate::error::GaError;
use crate::event::{Client, Dict, Event, PageData, UserData};
use crate::ids::{client_id, client_id_of};
use crate::properties::{
    classify, classify_into, key_index, lemma_classify_well_formed, pairs_view, well_formed_maps,
    Classified, PairsView,
};
use crate::text::{append_decimal, decimal, decimal_string, push_char, str_eq};
use vstd::prelude::*;

verus! {

/// Key of the measurement id in the settings.
pub const MEASUREMENT_ID_KEY: &'static str = "ga_measurement_id";

/// One hit of the measurement protocol. A scalar field holds its value, or
/// is empty when the parameter is absent; the maps hold entries with distinct
/// keys in insertion order.
pub struct GaPayload {
    /// Parameter `v`.
    pub protocol_version: String,
    /// Parameter `tid`.
    pub tracking_id: String,
    /// Parameter `gtm`.
    pub gtm_hash_info: String,
    /// Parameter `_p`.
    pub random_page_load_hash: String,
    /// Parameter `sr`.
    pub screen_resolution: String,
    /// Parameter `ul`.
    pub user_language: String,
    /// Parameter `dh`.
    pub document_hostname: String,
    /// Parameter `cid`.
    pub client_id: String,
    /// Parameter `_s`.
    pub hit_counter: String,
    /// Parameter `richsstsse`.
    pub richsstsse: String,
    /// Parameter `uaa`.
    pub user_agent_architecture: String,
    /// Parameter `uab`.
    pub user_agent_bitness: String,
    /// Parameter `uafvl`.
    pub user_agent_full_version_list: String,
    /// Parameter `uamb`.
    pub user_agent_mobile: String,
    /// Parameter `uam`.
    pub user_agent_model: String,
    /// Parameter `uap`.
    pub user_agent_platform: String,
    /// Parameter `uapv`.
    pub user_agent_platform_version: String,
    /// Parameter `uaw`.
    pub user_agent_wow64: String,
    /// Parameter `dl`.
    pub document_location: String,
    /// Parameter `dt`.
    pub document_title: String,
    /// Parameter `dr`.
    pub document_referrer: String,
    /// Parameter `_z`.
    pub z: String,
    /// Parameter `_eu`.
    pub event_usage: String,
    /// Parameter `edid`.
    pub event_debug_id: String,
    /// Parameter `_dbg`.
    pub is_debug: String,
    /// Parameter `ir`.
    pub ignore_referrer: String,
    /// Parameter `tt`.
    pub traffic_type: String,
    /// Parameter `_glv`.
    pub is_google_linker_valid: String,
    /// Parameter `cm`.
    pub campaign_medium: String,
    /// Parameter `cs`.
    pub campaign_source: String,
    /// Parameter `cn`.
    pub campaign_name: String,
    /// Parameter `cc`.
    pub campaign_content: String,
    /// Parameter `ck`.
    pub campaign_term: String,
    /// Parameter `ccf`.
    pub campaign_creative_format: String,
    /// Parameter `cmt`.
    pub campaign_marketing_tactic: String,
    /// Parameter `_rnd`.
    pub gclid_deduper: String,
    /// Parameter `en`.
    pub event_name: String,
    /// Parameter `_et`.
    pub engagement_time: String,
    /// Text event parameters, sent as `ep.key`.
    pub event_parameter_string: Dict,
    /// Numeric event parameters, sent as `epn.key`.
    pub event_parameter_number: Dict,
    /// Parameter `_c`.
    pub is_conversion: String,
    /// Parameter `_ee`.
    pub external_event: String,
    /// Parameter `uid`.
    pub user_id: String,
    /// Parameter `_fid`.
    pub firebase_id: String,
    /// Parameter `sid`.
    pub session_id: String,
    /// Parameter `sct`.
    pub session_count: String,
    /// Parameter `seg`.
    pub session_engagement: String,
    /// Text user properties, sent as `up.key`.
    pub user_property_string: Dict,
    /// Numeric user properties, sent as `upn.key`.
    pub user_property_number: Dict,
    /// Parameter `_fv`.
    pub first_visit: String,
    /// Parameter `_ss`.
    pub session_start: String,
    /// Parameter `_fplc`.
    pub first_party_linker_cookie: String,
    /// Parameter `_nsi`.
    pub new_session_id: String,
    /// Parameter `_gdid`.
    pub google_developer_id: String,
    /// Parameter `_uc`.
    pub user_country: String,
    /// Parameter `gcs`.
    pub google_consent_status: String,
    /// Parameter `gcu`.
    pub google_consent_update: String,
    /// Parameter `gcut`.
    pub google_consent_update_type: String,
    /// Parameter `gcd`.
    pub gcd: String,
    /// Parameter `npa`.
    pub npa: String,
    /// Parameter `dma_cps`.
    pub dma_cps: String,
    /// Parameter `dma`.
    pub dma: String,
    /// Parameter `pscdl`.
    pub pscdl: String,
    /// Parameter `tag_exp`.
    pub tag_exp: String,
    /// Parameter `are`.
    pub are: String,
    /// Parameter `pae`.
    pub pae: String,
    /// Parameter `frm`.
    pub frm: String,
    /// Parameter `ec_mode`.
    pub ec_mode: String,
    /// Parameter `tfd`.
    pub tfd: String,
    /// Parameter `cu`.
    pub currency_code: String,
    /// Parameter `_uip`.
    pub ip_override: String,
}

pub struct GaPayloadView {
    pub protocol_version: Seq<char>,
    pub tracking_id: Seq<char>,
    pub gtm_hash_info: Seq<char>,
    pub random_page_load_hash: Seq<char>,
    pub screen_resolution: Seq<char>,
    pub user_language: Seq<char>,
    pub document_hostname: Seq<char>,
    pub client_id: Seq<char>,
    pub hit_counter: Seq<char>,
    pub richsstsse: Seq<char>,
    pub user_agent_architecture: Seq<char>,
    pub user_agent_bitness: Seq<char>,
    pub user_agent_full_version_list: Seq<char>,
    pub user_agent_mobile: Seq<char>,
    pub user_agent_model: Seq<char>,
    pub user_agent_platform: Seq<char>,
    pub user_agent_platform_version: Seq<char>,
    pub user_agent_wow64: Seq<char>,
    pub document_location: Seq<char>,
    pub document_title: Seq<char>,
    pub document_referrer: Seq<char>,
    pub z: Seq<char>,
    pub event_usage: Seq<char>,
    pub event_debug_id: Seq<char>,
    pub is_debug: Seq<char>,
    pub ignore_referrer: Seq<char>,
    pub traffic_type: Seq<char>,
    pub is_google_linker_valid: Seq<char>,
    pub campaign_medium: Seq<char>,
    pub campaign_source: Seq<char>,
    pub campaign_name: Seq<char>,
    pub campaign_content: Seq<char>,
    pub campaign_term: Seq<char>,
    pub campaign_creative_format: Seq<char>,
    pub campaign_marketing_tactic: Seq<char>,
    pub gclid_deduper: Seq<char>,
    pub event_name: Seq<char>,
    pub engagement_time: Seq<char>,
    pub event_parameter_string: PairsView,
    pub event_parameter_number: PairsView,
    pub is_conversion: Seq<char>,
    pub external_event: Seq<char>,
    pub user_id: Seq<char>,
    pub firebase_id: Seq<char>,
    pub session_id: Seq<char>,
    pub session_count: Seq<char>,
    pub session_engagement: Seq<char>,
    pub user_property_string: PairsView,
    pub user_property_number: PairsView,
    pub first_visit: Seq<char>,
    pub session_start: Seq<char>,
    pub first_party_linker_cookie: Seq<char>,
    pub new_session_id: Seq<char>,
    pub google_developer_id: Seq<char>,
    pub user_country: Seq<char>,
    pub google_consent_status: Seq<char>,
    pub google_consent_update: Seq<char>,
    pub google_consent_update_type: Seq<char>,
    pub gcd: Seq<char>,
    pub npa: Seq<char>,
    pub dma_cps: Seq<char>,
    pub dma: Seq<char>,
    pub pscdl: Seq<char>,
    pub tag_exp: Seq<char>,
    pub are: Seq<char>,
    pub pae: Seq<char>,
    pub frm: Seq<char>,
    pub ec_mode: Seq<char>,
    pub tfd: Seq<char>,
    pub currency_code: Seq<char>,
    pub ip_override: Seq<char>,
}

impl View for GaPayload {
    type V = GaPayloadView;

    open spec fn view(&self) -> GaPayloadView {
        GaPayloadView {
            protocol_version: self.protocol_version@,
            tracking_id: self.tracking_id@,
            gtm_hash_info: self.gtm_hash_info@,
            random_page_load_hash: self.random_page_load_hash@,
            screen_resolution: self.screen_resolution@,
            user_language: self.user_language@,
            document_hostname: self.document_hostname@,
            client_id: self.client_id@,
            hit_counter: self.hit_counter@,
            richsstsse: self.richsstsse@,
            user_agent_architecture: self.user_agent_architecture@,
            user_agent_bitness: self.user_agent_bitness@,
            user_agent_full_version_list: self.user_agent_full_version_list@,
            user_agent_mobile: self.user_agent_mobile@,
            user_agent_model: self.user_agent_model@,
            user_agent_platform: self.user_agent_platform@,
            user_agent_platform_version: self.user_agent_platform_version@,
            user_agent_wow64: self.user_agent_wow64@,
            document_location: self.document_location@,
            document_title: self.document_title@,
            document_referrer: self.document_referrer@,
            z: self.z@,
            event_usage: self.event_usage@,
            event_debug_id: self.event_debug_id@,
            is_debug: self.is_debug@,
            ignore_referrer: self.ignore_referrer@,
            traffic_type: self.traffic_type@,
            is_google_linker_valid: self.is_google_linker_valid@,
            campaign_medium: self.campaign_medium@,
            campaign_source: self.campaign_source@,
            campaign_name: self.campaign_name@,
            campaign_content: self.campaign_content@,
            campaign_term: self.campaign_term@,
            campaign_creative_format: self.campaign_creative_format@,
            campaign_marketing_tactic: self.campaign_marketing_tactic@,
            gclid_deduper: self.gclid_deduper@,
            event_name: self.event_name@,
            engagement_time: self.engagement_time@,
            is_conversion: self.is_conversion@,
            external_event: self.external_event@,
            user_id: self.user_id@,
            firebase_id: self.firebase_id@,
            session_id: self.session_id@,
            session_count: self.session_count@,
            session_engagement: self.session_engagement@,
            first_visit: self.first_visit@,
            session_start: self.session_start@,
            first_party_linker_cookie: self.first_party_linker_cookie@,
            new_session_id: self.new_session_id@,
            google_developer_id: self.google_developer_id@,
            user_country: self.user_country@,
            google_consent_status: self.google_consent_status@,
            google_consent_update: self.google_consent_update@,
            google_consent_update_type: self.google_consent_update_type@,
            gcd: self.gcd@,
            npa: self.npa@,
            dma_cps: self.dma_cps@,
            dma: self.dma@,
            pscdl: self.pscdl@,
            tag_exp: self.tag_exp@,
            are: self.are@,
            pae: self.pae@,
            frm: self.frm@,
            ec_mode: self.ec_mode@,
            tfd: self.tfd@,
            currency_code: self.currency_code@,
            ip_override: self.ip_override@,
            event_parameter_string: pairs_view(self.event_parameter_string@),
            event_parameter_number: pairs_view(self.event_parameter_number@),
            user_property_string: pairs_view(self.user_property_string@),
            user_property_number: pairs_view(self.user_property_number@),
        }
    }
}

pub open spec fn fields_view(v: Seq<(&'static str, String)>) -> PairsView {
    v.map_values(|e: (&'static str, String)| (e.0@, e.1@))
}

/// The scalar parameters before the event maps, in wire order.
pub open spec fn head_fields(p: GaPayloadView) -> PairsView {
    seq![
        ("v"@, p.protocol_version),
        ("tid"@, p.tracking_id),
        ("gtm"@, p.gtm_hash_info),
        ("_p"@, p.random_page_load_hash),
        ("sr"@, p.screen_resolution),
        ("ul"@, p.user_language),
        ("dh"@, p.document_hostname),
        ("cid"@, p.client_id),
        ("_s"@, p.hit_counter),
        ("richsstsse"@, p.richsstsse),
        ("uaa"@, p.user_agent_architecture),
        ("uab"@, p.user_agent_bitness),
        ("uafvl"@, p.user_agent_full_version_list),
        ("uamb"@, p.user_agent_mobile),
        ("uam"@, p.user_agent_model),
        ("uap"@, p.user_agent_platform),
        ("uapv"@, p.user_agent_platform_version),
        ("uaw"@, p.user_agent_wow64),
        ("dl"@, p.document_location),
        ("dt"@, p.document_title),
        ("dr"@, p.document_referrer),
        ("_z"@, p.z),
        ("_eu"@, p.event_usage),
        ("edid"@, p.event_debug_id),
        ("_dbg"@, p.is_debug),
        ("ir"@, p.ignore_referrer),
        ("tt"@, p.traffic_type),
        ("_glv"@, p.is_google_linker_valid),
        ("cm"@, p.campaign_medium),
        ("cs"@, p.campaign_source),
        ("cn"@, p.campaign_name),
        ("cc"@, p.campaign_content),
        ("ck"@, p.campaign_term),
        ("ccf"@, p.campaign_creative_format),
        ("cmt"@, p.campaign_marketing_tactic),
        ("_rnd"@, p.gclid_deduper),
        ("en"@, p.event_name),
        ("_et"@, p.engagement_time),
    ]
}

/// The scalar parameters between the event maps and the user maps.
pub open spec fn mid_fields(p: GaPayloadView) -> PairsView {
    seq![
        ("_c"@, p.is_conversion),
        ("_ee"@, p.external_event),
        ("uid"@, p.user_id),
        ("_fid"@, p.firebase_id),
        ("sid"@, p.session_id),
        ("sct"@, p.session_count),
        ("seg"@, p.session_engagement),
    ]
}

/// The scalar parameters after the user maps.
pub open spec fn tail_fields(p: GaPayloadView) -> PairsView {
    seq![
        ("_fv"@, p.first_visit),
        ("_ss"@, p.session_start),
        ("_fplc"@, p.first_party_linker_cookie),
        ("_nsi"@, p.new_session_id),
        ("_gdid"@, p.google_developer_id),
        ("_uc"@, p.user_country),
        ("gcs"@, p.google_consent_status),
        ("gcu"@, p.google_consent_update),
        ("gcut"@, p.google_consent_update_type),
        ("gcd"@, p.gcd),
        ("npa"@, p.npa),
        ("dma_cps"@, p.dma_cps),
        ("dma"@, p.dma),
        ("pscdl"@, p.pscdl),
        ("tag_exp"@, p.tag_exp),
        ("are"@, p.are),
        ("pae"@, p.pae),
        ("frm"@, p.frm),
        ("ec_mode"@, p.ec_mode),
        ("tfd"@, p.tfd),
        ("cu"@, p.currency_code),
        ("_uip"@, p.ip_override),
    ]
}

pub fn head_fields_exec(p: &GaPayload) -> (r: Vec<(&'static str, String)>)
    ensures
        fields_view(r@) == head_fields(p@),
{
    let mut v: Vec<(&'static str, String)> = Vec::new();
    v.push(("v", p.protocol_version.clone()));
    v.push(("tid", p.tracking_id.clone()));
    v.push(("gtm", p.gtm_hash_info.clone()));
    v.push(("_p", p.random_page_load_hash.clone()));
    v.push(("sr", p.screen_resolution.clone()));
    v.push(("ul", p.user_language.clone()));
    v.push(("dh", p.document_hostname.clone()));
    v.push(("cid", p.client_id.clone()));
    v.push(("_s", p.hit_counter.clone()));
    v.push(("richsstsse", p.richsstsse.clone()));
    v.push(("uaa", p.user_agent_architecture.clone()));
    v.push(("uab", p.user_agent_bitness.clone()));
    v.push(("uafvl", p.user_agent_full_version_list.clone()));
    v.push(("uamb", p.user_agent_mobile.clone()));
    v.push(("uam", p.user_agent_model.clone()));
    v.push(("uap", p.user_agent_platform.clone()));
    v.push(("uapv", p.user_agent_platform_version.clone()));
    v.push(("uaw", p.user_agent_wow64.clone()));
    v.push(("dl", p.document_location.clone()));
    v.push(("dt", p.document_title.clone()));
    v.push(("dr", p.document_referrer.clone()));
    v.push(("_z", p.z.clone()));
    v.push(("_eu", p.event_usage.clone()));
    v.push(("edid", p.event_debug_id.clone()));
    v.push(("_dbg", p.is_debug.clone()));
    v.push(("ir", p.ignore_referrer.clone()));
    v.push(("tt", p.traffic_type.clone()));
    v.push(("_glv", p.is_google_linker_valid.clone()));
    v.push(("cm", p.campaign_medium.clone()));
    v.push(("cs", p.campaign_source.clone()));
    v.push(("cn", p.campaign_name.clone()));
    v.push(("cc", p.campaign_content.clone()));
    v.push(("ck", p.campaign_term.clone()));
    v.push(("ccf", p.campaign_creative_format.clone()));
    v.push(("cmt", p.campaign_marketing_tactic.clone()));
    v.push(("_rnd", p.gclid_deduper.clone()));
    v.push(("en", p.event_name.clone()));
    v.push(("_et", p.engagement_time.clone()));
    proof {
        assert(fields_view(v@) =~= head_fields(p@));
    }
    v
}

pub fn mid_fields_exec(p: &GaPayload) -> (r: Vec<(&'static str, String)>)
    ensures
        fields_view(r@) == mid_fields(p@),
{
    let mut v: Vec<(&'static str, String)> = Vec::new();
    v.push(("_c", p.is_conversion.clone()));
    v.push(("_ee", p.external_event.clone()));
    v.push(("uid", p.user_id.clone()));
    v.push(("_fid", p.firebase_id.clone()));
    v.push(("sid", p.session_id.clone()));
    v.push(("sct", p.session_count.clone()));
    v.push(("seg", p.session_engagement.clone()));
    proof {
        assert(fields_view(v@) =~= mid_fields(p@));
    }
    v
}

pub fn tail_fields_exec(p: &GaPayload) -> (r: Vec<(&'static str, String)>)
    ensures
        fields_view(r@) == tail_fields(p@),
{
    let mut v: Vec<(&'static str, String)> = Vec::new();
    v.push(("_fv", p.first_visit.clone()));
    v.push(("_ss", p.session_start.clone()));
    v.push(("_fplc", p.first_party_linker_cookie.clone()));
    v.push(("_nsi", p.new_session_id.clone()));
    v.push(("_gdid", p.google_developer_id.clone()));
    v.push(("_uc", p.user_country.clone()));
    v.push(("gcs", p.google_consent_status.clone()));
    v.push(("gcu", p.google_consent_update.clone()));
    v.push(("gcut", p.google_consent_update_type.clone()));
    v.push(("gcd", p.gcd.clone()));
    v.push(("npa", p.npa.clone()));
    v.push(("dma_cps", p.dma_cps.clone()));
    v.push(("dma", p.dma.clone()));
    v.push(("pscdl", p.pscdl.clone()));
    v.push(("tag_exp", p.tag_exp.clone()));
    v.push(("are", p.are.clone()));
    v.push(("pae", p.pae.clone()));
    v.push(("frm", p.frm.clone()));
    v.push(("ec_mode", p.ec_mode.clone()));
    v.push(("tfd", p.tfd.clone()));
    v.push(("cu", p.currency_code.clone()));
    v.push(("_uip", p.ip_override.clone()));
    proof {
        assert(fields_view(v@) =~= tail_fields(p@));
    }
    v
}

pub open spec fn flag(b: bool, v: Seq<char>) -> Seq<char> {
    if b {
        v
    } else {
        Seq::empty()
    }
}

/// `{width}x{height}` when both are positive.
pub open spec fn screen_resolution_of(c: Client) -> Seq<char> {
    if c.screen_width > 0 && c.screen_height > 0 {
        decimal(c.screen_width as nat) + seq!['x'] + decimal(c.screen_height as nat)
    } else {
        Seq::empty()
    }
}

/// The client's locale, `en` when it has none.
pub open spec fn user_language_of(c: Client) -> Seq<char> {
    if c.locale@.len() == 0 {
        "en"@
    } else {
        c.locale@
    }
}

/// The page URL followed by its query string, when the URL is known.
pub open spec fn location_of(pg: PageData) -> Seq<char> {
    if pg.url@.len() > 0 {
        pg.url@ + pg.search@
    } else {
        Seq::empty()
    }
}

/// The user id when there is one, else the anonymous id.
pub open spec fn user_id_of(u: UserData) -> Seq<char> {
    if u.user_id@.len() > 0 {
        u.user_id@
    } else {
        u.anonymous_id@
    }
}

/// The user properties before classification: the anonymous id, kept when
/// the user id took its place.
pub open spec fn user_seed(u: UserData) -> PairsView {
    if u.user_id@.len() > 0 && u.anonymous_id@.len() > 0 {
        seq![("anonymous_id"@, u.anonymous_id@)]
    } else {
        Seq::empty()
    }
}

/// The user properties classified, with no currency taken out.
pub open spec fn user_classes(u: UserData) -> Classified {
    classify(
        Classified { text: user_seed(u), numbers: Seq::empty(), currency: None },
        pairs_view(u.properties@),
        false,
    )
}

/// The measurement id: the value of the last setting with its key.
pub open spec fn measurement_id_of(settings: Dict) -> Option<Seq<char>> {
    let sv = pairs_view(settings@);
    let i = key_index(sv, MEASUREMENT_ID_KEY@);
    if i >= 0 {
        Some(sv[i].1)
    } else {
        None
    }
}

/// The payload every event kind starts from.
pub open spec fn base_view(e: Event, tid: Seq<char>, name: Seq<char>, nonce: u32) -> GaPayloadView {
    let c = e.context.client;
    let u = e.context.user;
    let s = e.context.session;
    let cv = consent_view_of(e.consent);
    GaPayloadView {
        protocol_version: "2"@,
        tracking_id: tid,
        gtm_hash_info: Seq::empty(),
        random_page_load_hash: decimal(nonce as nat),
        screen_resolution: screen_resolution_of(c),
        user_language: user_language_of(c),
        document_hostname: Seq::empty(),
        client_id: client_id_of(u.edgee_id@, s.first_seen as int),
        hit_counter: "1"@,
        richsstsse: Seq::empty(),
        user_agent_architecture: c.user_agent_architecture@,
        user_agent_bitness: c.user_agent_bitness@,
        user_agent_full_version_list: c.user_agent_full_version_list@,
        user_agent_mobile: c.user_agent_mobile@,
        user_agent_model: c.user_agent_model@,
        user_agent_platform: c.os_name@,
        user_agent_platform_version: c.os_version@,
        user_agent_wow64: Seq::empty(),
        document_location: location_of(e.context.page),
        document_title: e.context.page.title@,
        document_referrer: e.context.page.referrer@,
        z: Seq::empty(),
        event_usage: Seq::empty(),
        event_debug_id: Seq::empty(),
        is_debug: Seq::empty(),
        ignore_referrer: Seq::empty(),
        traffic_type: Seq::empty(),
        is_google_linker_valid: Seq::empty(),
        campaign_medium: e.context.campaign.medium@,
        campaign_source: e.context.campaign.source@,
        campaign_name: e.context.campaign.name@,
        campaign_content: e.context.campaign.content@,
        campaign_term: e.context.campaign.term@,
        campaign_creative_format: Seq::empty(),
        campaign_marketing_tactic: Seq::empty(),
        gclid_deduper: Seq::empty(),
        event_name: name,
        engagement_time: Seq::empty(),
        is_conversion: Seq::empty(),
        external_event: "1"@,
        user_id: user_id_of(u),
        firebase_id: Seq::empty(),
        session_id: s.session_id@,
        session_count: decimal(s.session_count as nat),
        session_engagement: if s.session_start { "0"@ } else { "1"@ },
        first_visit: flag(s.first_seen == s.last_seen, "1"@),
        session_start: flag(s.session_start, "1"@),
        first_party_linker_cookie: Seq::empty(),
        new_session_id: flag(s.first_seen == s.last_seen, "1"@),
        google_developer_id: Seq::empty(),
        user_country: c.country_code@,
        google_consent_status: cv.status,
        google_consent_update: Seq::empty(),
        google_consent_update_type: Seq::empty(),
        gcd: cv.detail,
        npa: cv.npa,
        dma_cps: cv.dma_cps,
        dma: cv.dma,
        pscdl: cv.pscdl,
        tag_exp: Seq::empty(),
        are: Seq::empty(),
        pae: Seq::empty(),
        frm: Seq::empty(),
        ec_mode: Seq::empty(),
        tfd: Seq::empty(),
        currency_code: Seq::empty(),
        ip_override: c.ip@,
        event_parameter_string: Seq::empty(),
        event_parameter_number: Seq::empty(),
        user_property_string: user_classes(u).text,
        user_property_number: user_classes(u).numbers,
    }
}

/// The value of the last setting whose key is `key`.
pub fn setting_value(settings: &Dict, key: &str) -> (r: Option<String>)
    ensures
        ({
            let sv = pairs_view(settings@);
            let i = key_index(sv, key@);
            &&& r is Some <==> i >= 0
            &&& r matches Some(v) ==> v@ == sv[i].1
        }),
{
    let ghost sv = pairs_view(settings@);
    let mut found: Option<usize> = None;
    let mut i: usize = 0;
    while i < settings.len()
        invariant
            sv == pairs_view(settings@),
            i <= settings@.len(),
            match found {
                Some(f) => f < i && key_index(sv.take(i as int), key@) == f,
                None => key_index(sv.take(i as int), key@) == -1,
            },
        decreases settings@.len() - i,
    {
        proof {
            assert(sv.take(i + 1).drop_last() =~= sv.take(i as int));
        }
        if str_eq(settings[i].0.as_str(), key) {
            found = Some(i);
        }
        i = i + 1;
    }
    proof {
        assert(sv.take(i as int) =~= sv);
    }
    match found {
        Some(f) => Some(settings[f].1.clone()),
        None => None,
    }
}

fn screen_resolution(c: &Client) -> (r: String)
    ensures
        r@ == screen_resolution_of(*c),
{
    if c.screen_width > 0 && c.screen_height > 0 {
        let mut out = decimal_string(c.screen_width as u64);
        push_char(&mut out, 'x');
        append_decimal(&mut out, c.screen_height as u64);
        out
    } else {
        String::new()
    }
}

fn one_if(b: bool) -> (r: String)
    ensures
        r@ == flag(b, "1"@),
{
    if b {
        "1".to_string()
    } else {
        String::new()
    }
}

impl GaPayload {
    /// The payload every event kind starts from: the measurement id from the
    /// settings, the nonce, consent, client id, device, campaign and session
    /// fields, and the user properties. Fails with a configuration error when
    /// the settings lack the measurement id.
    pub fn new(edgee_event: &Event, settings: &Dict, event_name: String, nonce: u32) -> (r: Result<
        GaPayload,
        GaError,
    >)
        ensures
            r is Err <==> measurement_id_of(*settings) is None,
            r matches Err(e) ==> e is Config,
            r matches Ok(p) ==> p@ == base_view(
                *edgee_event,
                measurement_id_of(*settings)->0,
                event_name@,
                nonce,
            ),
    {
        let tid = match setting_value(settings, MEASUREMENT_ID_KEY) {
            Some(v) => v,
            None => {
                return Err(GaError::Config("Missing GA Measurement ID".to_string()));
            },
        };
        let e = edgee_event;
        let c = &e.context.client;
        let u = &e.context.user;
        let s = &e.context.session;
        let cf = encode_consent(e.consent);
        let document_location = if !e.context.page.url.as_str().is_empty() {
            let mut l = e.context.page.url.clone();
            l.append(e.context.page.search.as_str());
            l
        } else {
            String::new()
        };
        let user_language = if c.locale.as_str().is_empty() {
            "en".to_string()
        } else {
            c.locale.clone()
        };
        let user_id = if !u.user_id.as_str().is_empty() {
            u.user_id.clone()
        } else {
            u.anonymous_id.clone()
        };
        let mut up: Dict = Vec::new();
        if !u.user_id.as_str().is_empty() && !u.anonymous_id.as_str().is_empty() {
            up.push(("anonymous_id".to_string(), u.anonymous_id.clone()));
        }
        let mut upn: Dict = Vec::new();
        let mut no_currency: Option<String> = None;
        proof {
            assert(pairs_view(up@) =~= user_seed(*u));
            assert(pairs_view(upn@) =~= Seq::empty());
        }
        classify_into(&u.properties, &mut up, &mut upn, &mut no_currency, false);
        let session_engagement = if s.session_start {
            "0".to_string()
        } else {
            "1".to_string()
        };
        let first_visit = s.first_seen == s.last_seen;
        let p = GaPayload {
            protocol_version: "2".to_string(),
            tracking_id: tid,
            gtm_hash_info: String::new(),
            random_page_load_hash: decimal_string(nonce as u64),
            screen_resolution: screen_resolution(c),
            user_language: user_language,
            document_hostname: String::new(),
            client_id: client_id(u.edgee_id.as_str(), s.first_seen),
            hit_counter: "1".to_string(),
            richsstsse: String::new(),
            user_agent_architecture: c.user_agent_architecture.clone(),
            user_agent_bitness: c.user_agent_bitness.clone(),
            user_agent_full_version_list: c.user_agent_full_version_list.clone(),
            user_agent_mobile: c.user_agent_mobile.clone(),
            user_agent_model: c.user_agent_model.clone(),
            user_agent_platform: c.os_name.clone(),
            user_agent_platform_version: c.os_version.clone(),
            user_agent_wow64: String::new(),
            document_location: document_location,
            document_title: e.context.page.title.clone(),
            document_referrer: e.context.page.referrer.clone(),
            z: String::new(),
            event_usage: String::new(),
            event_debug_id: String::new(),
            is_debug: String::new(),
            ignore_referrer: String::new(),
            traffic_type: String::new(),
            is_google_linker_valid: String::new(),
            campaign_medium: e.context.campaign.medium.clone(),
            campaign_source: e.context.campaign.source.clone(),
            campaign_name: e.context.campaign.name.clone(),
            campaign_content: e.context.campaign.content.clone(),
            campaign_term: e.context.campaign.term.clone(),
            campaign_creative_format: String::new(),
            campaign_marketing_tactic: String::new(),
            gclid_deduper: String::new(),
            event_name: event_name,
            engagement_time: String::new(),
            is_conversion: String::new(),
            external_event: "1".to_string(),
            user_id: user_id,
            firebase_id: String::new(),
            session_id: s.session_id.clone(),
            session_count: decimal_string(s.session_count as u64),
            session_engagement: session_engagement,
            first_visit: one_if(first_visit),
            session_start: one_if(s.session_start),
            first_party_linker_cookie: String::new(),
            new_session_id: one_if(first_visit),
            google_developer_id: String::new(),
            user_country: c.country_code.clone(),
            google_consent_status: cf.status,
            google_consent_update: String::new(),
            google_consent_update_type: String::new(),
            gcd: cf.detail,
            npa: cf.npa,
            dma_cps: cf.dma_cps,
            dma: cf.dma,
            pscdl: cf.pscdl,
            tag_exp: String::new(),
            are: String::new(),
            pae: String::new(),
            frm: String::new(),
            ec_mode: String::new(),
            tfd: String::new(),
            currency_code: String::new(),
            ip_override: c.ip.clone(),
            event_parameter_string: Vec::new(),
            event_parameter_number: Vec::new(),
            user_property_string: up,
            user_property_number: upn,
        };
        proof {
            assert(p@.event_parameter_string =~= Seq::empty());
            assert(p@.event_parameter_number =~= Seq::empty());
            assert(p@ == base_view(*edgee_event, tid@, event_name@, nonce));
        }
        Ok(p)
    }
}

/// The session flags of every payload agree: a session start (`_ss=1`) comes
/// with `seg=0`, and without a session start `seg` is 1.
pub proof fn lemma_session_flags_consistent(e: Event, tid: Seq<char>, name: Seq<char>, nonce: u32)
    ensures
        ({
            let p = base_view(e, tid, name, nonce);
            &&& p.session_start == "1"@ ==> p.session_engagement == "0"@
            &&& p.session_start.len() == 0 ==> p.session_engagement == "1"@
        }),
{
    reveal_strlit("1");
    reveal_strlit("0");
}

/// The user property maps of every payload are disjoint and free of repeated
/// keys: a property key lands in one of them only, with its last value.
pub proof fn lemma_user_maps_disjoint(u: UserData)
    ensures
        well_formed_maps(user_classes(u)),
{
    let st = Classified { text: user_seed(u), numbers: Seq::empty(), currency: None };
    assert(well_formed_maps(st));
    lemma_classify_well_formed(st, pairs_view(u.properties@), false);
}

} // verus!
