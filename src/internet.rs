//! Broadband offers at an address and the minimum-speed rule.
use vstd::prelude::*;
use vstd::string::StringExecFns;
use crate::text::{cents_of, cents_text, decimal, decimal_of};

verus! {

/// A broadband product as the provider lists it; the monthly price is in
/// cents.
pub struct Product {
    pub name: String,
    pub product_type: String,
    pub price_cents: u32,
    pub data_speed_in_kbps: u32,
    pub delivery_date: String,
}

/// A broadband offer.
pub struct Internet {
    pub product: Product,
}

/// Products of this type are mobile, not fixed, broadband.
pub open spec fn mobile_type() -> Seq<char> {
    "fixedWirelessBroadband"@
}

/// Speed of an offer in megabits per second.
pub open spec fn mbps_of(i: Internet) -> u32 {
    (i.product.data_speed_in_kbps / 1000) as u32
}

/// An offer meets the optional minimum speed; an offer of speed zero, whose
/// speed is unlimited, always does.
pub open spec fn meets_speed(i: Internet, min_mbps: Option<u32>) -> bool {
    match min_mbps {
        Some(min) => mbps_of(i) == 0 || min <= mbps_of(i),
        None => true,
    }
}

/// The offers made of `products`, the mobile ones left out, in order.
pub open spec fn fixed_offers(products: Seq<Product>) -> Seq<Internet>
    decreases products.len(),
{
    if products.len() == 0 {
        Seq::empty()
    } else {
        let rest = fixed_offers(products.drop_last());
        if products.last().product_type@ == mobile_type() {
            rest
        } else {
            rest.push(Internet { product: products.last() })
        }
    }
}

impl Internet {
    /// Name of the offer: the product's name and type.
    pub open spec fn name_of(self) -> Seq<char> {
        self.product.name@ + " ("@ + self.product.product_type@ + ")"@
    }

    /// One-line summary of the offer.
    pub open spec fn summary_of(self) -> Seq<char> {
        self.name_of() + " ("@ + self.product.delivery_date@ + "-): "@ + cents_of(
            self.product.price_cents as nat,
        ) + " €/kk, "@ + decimal_of(mbps_of(self) as nat) + " Mbit/s"@
    }

    /// The offer of `product`.
    pub fn new(product: Product) -> (r: Self)
        ensures
            r.product == product,
    {
        Internet { product }
    }

    /// Whether the offer is fixed broadband, not mobile.
    pub fn is_fixed(&self) -> (r: bool)
        ensures
            r == (self.product.product_type@ != mobile_type()),
    {
        let mobile: String = String::from_str("fixedWirelessBroadband");
        !(self.product.product_type == mobile)
    }

    /// Name of the offer: the product's name and type.
    pub fn name(&self) -> (r: String)
        ensures
            r@ == self.name_of(),
    {
        let r = self.product.name.clone().concat(" (").concat(self.product.product_type.as_str()).concat(")");
        assert(r@ =~= self.name_of());
        r
    }

    /// Monthly price in cents.
    pub fn cents_per_month(&self) -> (r: u32)
        ensures
            r == self.product.price_cents,
    {
        self.product.price_cents
    }

    /// Speed in megabits per second.
    pub fn mbps(&self) -> (r: u32)
        ensures
            r == mbps_of(*self),
    {
        self.product.data_speed_in_kbps / 1000
    }

    /// When the offer can be delivered.
    pub fn delivery_date(&self) -> (r: String)
        ensures
            r@ == self.product.delivery_date@,
    {
        self.product.delivery_date.clone()
    }

    /// Whether the offer meets the optional minimum speed; speed zero always
    /// does.
    pub fn check_mbps(&self, min_mbps: Option<u32>) -> (r: bool)
        ensures
            r == meets_speed(*self, min_mbps),
    {
        match min_mbps {
            Some(min) => {
                let mbps: u32 = self.mbps();
                mbps == 0 || min <= mbps
            },
            None => true,
        }
    }

    /// One-line summary of the offer: name, delivery date, monthly price and
    /// speed.
    pub fn to_str(&self) -> (r: String)
        ensures
            r@ == self.summary_of(),
    {
        let r = self.name().concat(" (").concat(self.product.delivery_date.as_str()).concat("-): ").concat(
            cents_text(self.product.price_cents as u64).as_str(),
        ).concat(" €/kk, ").concat(decimal(self.mbps() as u64).as_str()).concat(" Mbit/s");
        assert(r@ =~= self.summary_of());
        r
    }
}

/// The fixed-broadband offers at one address.
pub struct Elisa {
    pub internets: Vec<Internet>,
}

impl Elisa {
    /// The offers made of the products listed at an address, the mobile
    /// ones left out.
    pub fn new(products: Vec<Product>) -> (r: Self)
        ensures
            r.internets@ == fixed_offers(products@),
    {
        let mut rest: Vec<Product> = products;
        let ghost all = rest@;
        let mut reversed: Vec<Product> = Vec::new();
        while rest.len() > 0
            invariant
                reversed@.len() + rest@.len() == all.len(),
                rest@ == all.subrange(0, rest@.len() as int),
                forall|k: int| 0 <= k < reversed@.len() ==> #[trigger] reversed@[k] == all[all.len() - 1 - k],
            decreases rest@.len(),
        {
            let p: Product = rest.pop().unwrap();
            reversed.push(p);
        }
        let ghost mut taken: Seq<Product> = Seq::empty();
        let mut internets: Vec<Internet> = Vec::new();
        while reversed.len() > 0
            invariant
                taken.len() + reversed@.len() == all.len(),
                forall|k: int| 0 <= k < reversed@.len() ==> #[trigger] reversed@[k] == all[all.len() - 1 - k],
                taken == all.subrange(0, taken.len() as int),
                internets@ == fixed_offers(taken),
            decreases reversed@.len(),
        {
            let p: Product = reversed.pop().unwrap();
            let ghost before = taken;
            let ghost product = p;
            let internet: Internet = Internet::new(p);
            if internet.is_fixed() {
                internets.push(internet);
            }
            proof {
                taken = before.push(product);
                assert(taken.drop_last() =~= before);
                assert(taken =~= all.subrange(0, taken.len() as int));
            }
        }
        assert(taken =~= all);
        Elisa { internets }
    }

    /// The offers.
    pub fn internets(&self) -> (r: &Vec<Internet>)
        ensures
            r@ == self.internets@,
    {
        &self.internets
    }
}

/// The address search URL of a street address in a postal code area.
pub fn address_search_url(postal_code: &str, street_address: &str) -> (r: String)
    ensures
        r@ == "https://elisa.fi/kauppa/rest/address/search/"@ + postal_code@ + "/"@ + street_address@,
{
    String::from_str("https://elisa.fi/kauppa/rest/address/search/").concat(postal_code).concat("/").concat(street_address)
}

/// The URL of the fixed-broadband products at an address.
pub fn products_url(postal_code: &str, address_id: u64) -> (r: String)
    ensures
        r@ == "https://elisa.fi/kauppa/rest/products/fixedBroadbandProducts/"@ + postal_code@ + "/"@
            + decimal_of(address_id as nat),
{
    String::from_str("https://elisa.fi/kauppa/rest/products/fixedBroadbandProducts/").concat(postal_code).concat("/").concat(
        decimal(address_id).as_str(),
    )
}

} // verus!
