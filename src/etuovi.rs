//! The listing search: its criteria, the address of a listing's page, and
//! the paging of search results.
use vstd::prelude::*;
use vstd::string::StringExecFns;

verus! {

/// Results asked for on each page of a search.
pub const PAGE_SIZE: u32 = 30;

/// The search criteria and whether search results are cached.
pub struct Etuovi {
    pub cache: bool,
    pub publishing_time_search_criteria: String,
    pub price_max: Option<u32>,
    pub cities: Vec<String>,
}

impl Etuovi {
    /// A search of the given criteria.
    pub fn new(
        cache: bool,
        publishing_time_search_criteria: &str,
        price_max: Option<u32>,
        cities: Vec<String>,
    ) -> (r: Self)
        ensures
            r.cache == cache,
            r.publishing_time_search_criteria@ == publishing_time_search_criteria@,
            r.price_max == price_max,
            r.cities == cities,
    {
        Etuovi {
            cache,
            publishing_time_search_criteria: String::from_str(publishing_time_search_criteria),
            price_max,
            cities,
        }
    }
}

/// The address of the page of the listing with `friendly_id`.
pub fn listing_url(friendly_id: &str) -> (r: String)
    ensures
        r@ == "https://www.etuovi.com/kohde/"@ + friendly_id@,
{
    String::from_str("https://www.etuovi.com/kohde/").concat(friendly_id)
}

/// Where the paging of a search stands: the page to ask for next and how
/// many listings have come so far.
pub struct Pages {
    pub page: u16,
    pub collected: usize,
}

impl Pages {
    /// Pages numbered from one can still be asked for without overflow.
    pub open spec fn wf(self) -> bool {
        1 <= self.page <= self.collected + 1
    }

    /// Paging before the first page.
    pub fn new() -> (r: Self)
        ensures
            r.page == 1,
            r.collected == 0,
            r.wf(),
    {
        Pages { page: 1, collected: 0 }
    }

    /// Index of the first result of the page to ask for.
    pub fn first_result(&self) -> (r: u32)
        requires
            self.wf(),
        ensures
            r == PAGE_SIZE * (self.page - 1),
    {
        PAGE_SIZE * (self.page as u32 - 1)
    }

    /// Counts a page that brought `added` listings, of `count_of_all_results`
    /// that the search reports in all, and says whether to ask for the next
    /// page: paging stops at a page that brings nothing, or once every
    /// reported result has come.
    pub fn after_page(&mut self, added: usize, count_of_all_results: u16) -> (more: bool)
        requires
            old(self).wf(),
            old(self).collected + added <= usize::MAX,
        ensures
            more == (added > 0 && final(self).collected < count_of_all_results),
            final(self).collected == old(self).collected + added,
            final(self).page == old(self).page + if more { 1int } else { 0int },
            final(self).wf(),
    {
        self.collected = self.collected + added;
        if added == 0 || count_of_all_results as usize <= self.collected {
            false
        } else {
            self.page = self.page + 1;
            true
        }
    }
}

} // verus!
