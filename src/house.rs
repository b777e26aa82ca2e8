//! The per-listing enrichment pipeline: inclusion checks in cheapest-first
//! order, the fetches each stage needs, and the report record of an
//! included house.
//!
//! The pipeline is a state machine. `House::step` names what happens next:
//! a fetch, which the caller performs and hands back through a setter, or a
//! verdict. Each fetched value is kept, so nothing is fetched twice.
use vstd::prelude::*;
use crate::internet::{meets_speed, Internet};
use crate::pattern::{bad_floors, capture_of, compiles_of, floors, floors_of, found_in, free_text, postal_code, DetailError, FLOORS_PATTERN, POSTAL_CODE_PATTERN, TEXT_PATTERN};
use crate::text::{contains, lower_of, lowercase, occurs_in};

verus! {

/// What is known of a listing before anything is fetched for it.
pub struct Listing {
    pub url: String,
    pub square_meters_house: Option<u16>,
    pub square_meters_total: Option<u16>,
    pub euros: Option<u32>,
    pub street_address: String,
    pub year: Option<u16>,
    /// Straight-line distance to the reference point, in metres rounded up;
    /// `None` where either end has no coordinates.
    pub meters_to_location_straight: Option<u32>,
}

/// What the pipeline asks for next, or its verdict.
#[derive(Clone, Copy, PartialEq, Eq, Structural, Debug)]
pub enum Step {
    /// The listing fails a check.
    Excluded,
    /// The cycling distance to the reference point is needed.
    FetchBiking,
    /// The listing's detail page is needed.
    FetchDetail,
    /// The broadband offers at the listing's address are needed.
    FetchOffers,
    /// The listing passes every check and all its facts are at hand.
    Included,
}

/// A listing under enrichment, with the criteria it is held to and what has
/// been fetched for it so far.
pub struct House {
    pub listing: Listing,
    /// A cycling distance can be asked for: both ends have coordinates and
    /// the routing provider can be used.
    pub routable: bool,
    pub house_min_square_meters: Option<u16>,
    pub max_distance_km: Option<u16>,
    pub min_mbps: Option<u32>,
    /// Lower-case terms whose presence in the free text excludes a house.
    pub exclude_texts: Vec<String>,
    /// Cycling distance in metres rounded up, once fetched.
    pub biking_meters: Option<u32>,
    /// The detail page, once fetched.
    pub detail: Option<String>,
    /// The broadband offers at the address, once fetched.
    pub offers: Option<Vec<Internet>>,
}

/// Whole kilometres in `meters`, rounded up and capped at `u16::MAX`.
pub open spec fn km_of(meters: u32) -> u16 {
    let k = (meters as int + 999) / 1000;
    if k > u16::MAX as int {
        u16::MAX
    } else {
        k as u16
    }
}

/// The house area, or failing that the total area, is below the minimum.
pub open spec fn area_excluded(h: House) -> bool {
    match h.house_min_square_meters {
        Some(min) => match h.listing.square_meters_house {
            Some(area) => area < min,
            None => match h.listing.square_meters_total {
                Some(total) => total < min,
                None => false,
            },
        },
        None => false,
    }
}

/// A distance in metres exceeds the maximum in kilometres.
pub open spec fn too_far(h: House, meters: Option<u32>) -> bool {
    match h.max_distance_km {
        Some(max) => match meters {
            Some(m) => max < km_of(m),
            None => false,
        },
        None => false,
    }
}

/// The distance check needs a cycling distance not fetched yet.
pub open spec fn biking_pending(h: House) -> bool {
    h.max_distance_km is Some && h.routable && h.biking_meters is None
}

/// The lower-cased free text holds one of the excluded terms.
pub open spec fn text_excluded(h: House, text: Seq<char>) -> bool {
    exists|i: int| 0 <= i < h.exclude_texts@.len() && occurs_in(lower_of(text), #[trigger] h.exclude_texts@[i]@)
}

/// The checks before the text check pass and nothing is pending for them.
pub open spec fn passes_before_text(h: House) -> bool {
    !area_excluded(h) && !too_far(h, h.listing.meters_to_location_straight) && !biking_pending(h)
        && !too_far(h, h.biking_meters)
}

/// The text check is due and its page is at hand: its outcome rests on the
/// free text found there.
pub open spec fn text_stage(h: House) -> bool {
    passes_before_text(h) && h.exclude_texts@.len() > 0 && h.detail is Some
}

/// The free text of the detail page, where the page holds one.
pub open spec fn detail_text(h: House) -> Seq<char> {
    capture_of(TEXT_PATTERN@, h.detail.unwrap()@).unwrap()
}

/// The next step: the area check, the straight and then the cycling
/// distance check, the text check, then the fetches an included house
/// still needs.
pub open spec fn decision(h: House) -> Step {
    if area_excluded(h) {
        Step::Excluded
    } else if too_far(h, h.listing.meters_to_location_straight) {
        Step::Excluded
    } else if biking_pending(h) {
        Step::FetchBiking
    } else if too_far(h, h.biking_meters) {
        Step::Excluded
    } else if h.exclude_texts@.len() > 0 && h.detail is None {
        Step::FetchDetail
    } else if h.exclude_texts@.len() > 0 && text_excluded(h, detail_text(h)) {
        Step::Excluded
    } else if h.detail is None {
        Step::FetchDetail
    } else if h.routable && h.biking_meters is None {
        Step::FetchBiking
    } else if h.offers is None {
        Step::FetchOffers
    } else {
        Step::Included
    }
}

/// Price per area, where both are known and the area is not zero.
pub open spec fn per_area(euros: Option<u32>, area: Option<u16>) -> Option<u32> {
    match euros {
        Some(e) => match area {
            Some(a) => if a > 0 {
                Some((e / a as u32) as u32)
            } else {
                None
            },
            None => None,
        },
        None => None,
    }
}

/// A distance in whole kilometres, where it is known.
pub open spec fn km_opt(meters: Option<u32>) -> Option<u16> {
    match meters {
        Some(m) => Some(km_of(m)),
        None => None,
    }
}

/// The summaries of the offers that meet the minimum speed, in order.
pub open spec fn offer_lines(offers: Seq<Internet>, min_mbps: Option<u32>) -> Seq<Seq<char>>
    decreases offers.len(),
{
    if offers.len() == 0 {
        Seq::empty()
    } else {
        let rest = offer_lines(offers.drop_last(), min_mbps);
        if meets_speed(offers.last(), min_mbps) {
            rest.push(offers.last().summary_of())
        } else {
            rest
        }
    }
}

/// Whether the lower-cased free text `lower` holds one of the excluded
/// terms.
pub fn excluded_by(lower: &str, terms: &Vec<String>) -> (r: bool)
    ensures
        r == exists|i: int| 0 <= i < terms@.len() && occurs_in(lower@, #[trigger] terms@[i]@),
{
    let mut i: usize = 0;
    while i < terms.len()
        invariant
            i <= terms@.len(),
            forall|k: int| 0 <= k < i ==> !occurs_in(lower@, #[trigger] terms@[k]@),
        decreases terms@.len() - i,
    {
        if contains(lower, terms[i].as_str()) {
            return true;
        }
        i = i + 1;
    }
    false
}

/// Each term lower-cased.
pub open spec fn lowered(texts: Seq<String>) -> Seq<Seq<char>> {
    texts.map_values(|t: String| lower_of(t@))
}

/// Each term of `texts` lower-cased, in order.
pub fn lowercase_all(texts: &Vec<String>) -> (r: Vec<String>)
    ensures
        r@.map_values(|t: String| t@) == lowered(texts@),
{
    let mut r: Vec<String> = Vec::new();
    let mut i: usize = 0;
    while i < texts.len()
        invariant
            i <= texts@.len(),
            r@.len() == i,
            forall|k: int| 0 <= k < i ==> #[trigger] r@[k]@ == lower_of(texts@[k]@),
        decreases texts@.len() - i,
    {
        r.push(lowercase(texts[i].as_str()));
        i = i + 1;
    }
    assert(r@.map_values(|t: String| t@) =~= lowered(texts@));
    r
}

/// The summaries of the offers that meet the minimum speed.
pub fn offer_summaries(offers: &Vec<Internet>, min_mbps: Option<u32>) -> (r: Vec<String>)
    ensures
        r@.map_values(|s: String| s@) == offer_lines(offers@, min_mbps),
{
    let mut r: Vec<String> = Vec::new();
    let mut i: usize = 0;
    while i < offers.len()
        invariant
            i <= offers@.len(),
            r@.map_values(|s: String| s@) == offer_lines(offers@.subrange(0, i as int), min_mbps),
        decreases offers@.len() - i,
    {
        let ghost before = r@;
        if offers[i].check_mbps(min_mbps) {
            r.push(offers[i].to_str());
        }
        let ghost next = offers@.subrange(0, i + 1);
        assert(next.drop_last() =~= offers@.subrange(0, i as int));
        assert(r@.map_values(|s: String| s@) =~= offer_lines(next, min_mbps));
        i = i + 1;
    }
    assert(offers@.subrange(0, offers@.len() as int) =~= offers@);
    r
}

/// Whole kilometres in `meters`, rounded up and capped at `u16::MAX`.
pub fn km(meters: u32) -> (r: u16)
    ensures
        r == km_of(meters),
{
    let k: u32 = meters / 1000 + if meters % 1000 > 0 { 1 } else { 0 };
    assert(k as int == (meters as int + 999) / 1000);
    if k > u16::MAX as u32 {
        u16::MAX
    } else {
        k as u16
    }
}

fn km_option(meters: Option<u32>) -> (r: Option<u16>)
    ensures
        r == km_opt(meters),
{
    match meters {
        Some(m) => Some(km(m)),
        None => None,
    }
}

fn price_per_area(euros: Option<u32>, area: Option<u16>) -> (r: Option<u32>)
    ensures
        r == per_area(euros, area),
{
    match euros {
        Some(e) => match area {
            Some(a) => if a > 0 {
                Some(e / a as u32)
            } else {
                None
            },
            None => None,
        },
        None => None,
    }
}

impl House {
    /// A listing to enrich, held to the given criteria, with nothing fetched
    /// yet. `exclude_texts` are expected in lower case.
    pub fn new(
        listing: Listing,
        routable: bool,
        house_min_square_meters: Option<u16>,
        max_distance_km: Option<u16>,
        min_mbps: Option<u32>,
        exclude_texts: Vec<String>,
    ) -> (r: Self)
        ensures
            r == (House {
                listing,
                routable,
                house_min_square_meters,
                max_distance_km,
                min_mbps,
                exclude_texts,
                biking_meters: None,
                detail: None,
                offers: None,
            }),
    {
        House {
            listing,
            routable,
            house_min_square_meters,
            max_distance_km,
            min_mbps,
            exclude_texts,
            biking_meters: None,
            detail: None,
            offers: None,
        }
    }

    fn check_area(&self) -> (r: bool)
        ensures
            r == area_excluded(*self),
    {
        match self.house_min_square_meters {
            Some(min) => match self.listing.square_meters_house {
                Some(area) => area < min,
                None => match self.listing.square_meters_total {
                    Some(total) => total < min,
                    None => false,
                },
            },
            None => false,
        }
    }

    fn check_distance(&self, meters: Option<u32>) -> (r: bool)
        ensures
            r == too_far(*self, meters),
    {
        match self.max_distance_km {
            Some(max) => match meters {
                Some(m) => max < km(m),
                None => false,
            },
            None => false,
        }
    }

    /// Whether the free text of `html` holds an excluded term.
    fn check_text(&self, html: &String) -> (r: Result<bool, DetailError>)
        ensures
            r matches Ok(b) ==> (capture_of(TEXT_PATTERN@, html@) is Some && b == text_excluded(
                *self,
                capture_of(TEXT_PATTERN@, html@).unwrap(),
            )),
            r is Ok <==> found_in(TEXT_PATTERN@, html@),
            r matches Err(e) ==> if compiles_of(TEXT_PATTERN@) {
                e is NoText
            } else {
                e is Pattern
            },
    {
        let found: String = free_text(html.as_str())?;
        let lower: String = lowercase(found.as_str());
        Ok(excluded_by(lower.as_str(), &self.exclude_texts))
    }

    /// What happens next to the listing. An error comes only from the text
    /// check, where the detail page holds no free text, or where the text
    /// pattern does not compile.
    pub fn step(&self) -> (r: Result<Step, DetailError>)
        ensures
            r matches Ok(s) ==> s == decision(*self),
            r is Err <==> (text_stage(*self) && !found_in(TEXT_PATTERN@, self.detail.unwrap()@)),
            r matches Err(e) ==> if compiles_of(TEXT_PATTERN@) {
                e is NoText
            } else {
                e is Pattern
            },
    {
        if self.check_area() {
            return Ok(Step::Excluded);
        }
        if self.check_distance(self.listing.meters_to_location_straight) {
            return Ok(Step::Excluded);
        }
        if self.max_distance_km.is_some() && self.routable && self.biking_meters.is_none() {
            return Ok(Step::FetchBiking);
        }
        if self.check_distance(self.biking_meters) {
            return Ok(Step::Excluded);
        }
        if self.exclude_texts.len() > 0 {
            match &self.detail {
                None => {
                    return Ok(Step::FetchDetail);
                },
                Some(html) => {
                    if self.check_text(html)? {
                        return Ok(Step::Excluded);
                    }
                },
            }
        }
        if self.detail.is_none() {
            Ok(Step::FetchDetail)
        } else if self.routable && self.biking_meters.is_none() {
            Ok(Step::FetchBiking)
        } else if self.offers.is_none() {
            Ok(Step::FetchOffers)
        } else {
            Ok(Step::Included)
        }
    }

    /// Keeps the fetched cycling distance, in metres rounded up.
    pub fn set_biking_meters(&mut self, meters: u32)
        ensures
            *final(self) == (House { biking_meters: Some(meters), ..*old(self) }),
    {
        self.biking_meters = Some(meters);
    }

    /// Keeps the fetched detail page.
    pub fn set_detail(&mut self, html: String)
        ensures
            *final(self) == (House { detail: Some(html), ..*old(self) }),
    {
        self.detail = Some(html);
    }

    /// Keeps the fetched broadband offers.
    pub fn set_offers(&mut self, offers: Vec<Internet>)
        ensures
            *final(self) == (House { offers: Some(offers), ..*old(self) }),
    {
        self.offers = Some(offers);
    }

    /// The postal code on the fetched detail page, which the broadband
    /// offers are looked up by.
    pub fn postal_code(&self) -> (r: Result<String, DetailError>)
        requires
            self.detail is Some,
        ensures
            r matches Ok(s) ==> capture_of(POSTAL_CODE_PATTERN@, self.detail.unwrap()@) == Some(s@),
            r is Ok <==> found_in(POSTAL_CODE_PATTERN@, self.detail.unwrap()@),
            r matches Err(e) ==> if compiles_of(POSTAL_CODE_PATTERN@) {
                e is NoPostalCode
            } else {
                e is Pattern
            },
    {
        match &self.detail {
            Some(html) => postal_code(html.as_str()),
            None => Err(DetailError::NoPostalCode),
        }
    }

    /// The report record of an included house, once `step` has answered
    /// `Included`: price in thousands, floors, areas and
    /// prices per area, distances in whole kilometres, year, and the
    /// offers that meet the minimum speed. An error comes only from reading
    /// the floor count: one that is not a single digit, or a floor pattern
    /// that does not compile.
    pub fn record(&self) -> (r: Result<crate::result::Result, DetailError>)
        requires
            self.detail is Some,
            self.offers is Some,
        ensures
            r matches Ok(rec) ==> {
                &&& rec.url@ == self.listing.url@
                &&& rec.thousands_of_euros == match self.listing.euros {
                    Some(e) => Some((e / 1000) as u32),
                    None => None,
                }
                &&& rec.floors == match capture_of(FLOORS_PATTERN@, self.detail.unwrap()@) {
                    Some(c) => floors_of(c),
                    None => None,
                }
                &&& rec.square_meters_house == self.listing.square_meters_house
                &&& rec.euros_per_square_meter_house == per_area(
                    self.listing.euros,
                    self.listing.square_meters_house,
                )
                &&& rec.square_meters_total == self.listing.square_meters_total
                &&& rec.euros_per_square_meter_total == per_area(
                    self.listing.euros,
                    self.listing.square_meters_total,
                )
                &&& rec.km_to_location_straight == km_opt(self.listing.meters_to_location_straight)
                &&& rec.km_to_location_biking == km_opt(self.biking_meters)
                &&& rec.year == self.listing.year
                &&& rec.internet_strings@.map_values(|s: String| s@) == offer_lines(
                    self.offers.unwrap()@,
                    self.min_mbps,
                )
            },
            r is Ok <==> (compiles_of(FLOORS_PATTERN@) && !bad_floors(self.detail.unwrap()@)),
            r matches Err(e) ==> if compiles_of(FLOORS_PATTERN@) {
                e is BadFloors
            } else {
                e is Pattern
            },
    {
        let html: &String = match &self.detail {
            Some(h) => h,
            None => {
                return Err(DetailError::NoText);
            },
        };
        let floor_count: Option<u8> = floors(html.as_str())?;
        let offers: &Vec<Internet> = match &self.offers {
            Some(o) => o,
            None => {
                return Err(DetailError::NoText);
            },
        };
        let thousands: Option<u32> = match self.listing.euros {
            Some(e) => Some(e / 1000),
            None => None,
        };
        Ok(
            crate::result::Result::new(
                self.listing.url.clone(),
                thousands,
                floor_count,
                self.listing.square_meters_house,
                price_per_area(self.listing.euros, self.listing.square_meters_house),
                self.listing.square_meters_total,
                price_per_area(self.listing.euros, self.listing.square_meters_total),
                km_option(self.listing.meters_to_location_straight),
                km_option(self.biking_meters),
                self.listing.year,
                offer_summaries(offers, self.min_mbps),
            ),
        )
    }
}

/// A listing that fails the area check is excluded at once, whatever has
/// been fetched for it: it never asks for a cycling distance, a detail page
/// or broadband offers.
pub proof fn lemma_area_exclusion_first(h: House)
    requires
        area_excluded(h),
    ensures
        decision(h) == Step::Excluded,
        !text_stage(h),
{
}

/// Broadband offers are asked for, and a house is included, only once every
/// inclusion check has passed: area, straight and cycling distance, and
/// the excluded terms against the free text.
pub proof fn lemma_offers_after_checks(h: House)
    requires
        decision(h) == Step::FetchOffers || decision(h) == Step::Included,
    ensures
        !area_excluded(h),
        !too_far(h, h.listing.meters_to_location_straight),
        !too_far(h, h.biking_meters),
        !biking_pending(h),
        h.detail is Some,
        h.exclude_texts@.len() > 0 ==> !text_excluded(h, detail_text(h)),
{
}

} // verus!
