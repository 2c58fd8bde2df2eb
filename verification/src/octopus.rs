//! Addresses of the public Octopus Energy interface.
use crate::utc::{instant_in_query, UtcTime};
use vstd::prelude::*;

verus! {

/// Seconds after which a request is given up.
pub const REQUEST_TIMEOUT_SECS: u64 = 5;

/// The address below which all others lie.
pub open spec fn api_base() -> Seq<char> {
    "https://api.octopus.energy/v1"@
}

/// The address below which all others lie.
pub fn api_base_text() -> (r: &'static str)
    ensures
        r@ == api_base(),
{
    "https://api.octopus.energy/v1"
}

/// The address of a tariff's unit rates, with the ends of the range as a query writes them.
pub open spec fn rates_query(
    product: Seq<char>,
    tariff: Seq<char>,
    from: Seq<char>,
    to: Seq<char>,
) -> Seq<char> {
    api_base() + "/products/"@ + product + "/electricity-tariffs/"@ + tariff
        + "/standard-unit-rates/?period_from="@ + from + "&period_to="@ + to + "&page_size=100"@
}

/// The address of a tariff's unit rates, with the ends of the range as a query writes them.
pub fn rates_query_text(product: &str, tariff: &str, from: &str, to: &str) -> (r: String)
    ensures
        r@ == rates_query(product@, tariff@, from@, to@),
{
    let mut url = api_base_text().to_owned();
    url.append("/products/");
    url.append(product);
    url.append("/electricity-tariffs/");
    url.append(tariff);
    url.append("/standard-unit-rates/?period_from=");
    url.append(from);
    url.append("&period_to=");
    url.append(to);
    url.append("&page_size=100");
    url
}

/// The address of a tariff's unit rates between two instants.
pub open spec fn rates_address(
    product: Seq<char>,
    tariff: Seq<char>,
    from: UtcTime,
    to: UtcTime,
) -> Seq<char> {
    rates_query(
        product,
        tariff,
        instant_in_query(from.secs(), from.nanos()),
        instant_in_query(to.secs(), to.nanos()),
    )
}

/// The address of a tariff's unit rates between two instants.
pub fn rates_url(product: &str, tariff: &str, from: UtcTime, to: UtcTime) -> (r: String)
    ensures
        r@ == rates_address(product@, tariff@, from, to),
{
    rates_query_text(product, tariff, from.query_text().as_str(), to.query_text().as_str())
}

/// The address of the first page of the variable products on sale at an instant, which
/// stands as a query writes it.
pub open spec fn products_query(at: Seq<char>) -> Seq<char> {
    api_base()
        + "/products/?brand=OCTOPUS_ENERGY&is_business=false&is_prepay=false&is_variable=true&available_at="@
        + at + "&page_size=100"@
}

/// The address of the first page of the variable products on sale at an instant, which
/// stands as a query writes it.
pub fn products_query_text(at: &str) -> (r: String)
    ensures
        r@ == products_query(at@),
{
    let mut url = api_base_text().to_owned();
    url.append(
        "/products/?brand=OCTOPUS_ENERGY&is_business=false&is_prepay=false&is_variable=true&available_at=",
    );
    url.append(at);
    url.append("&page_size=100");
    url
}

/// The address of the first page of the variable products on sale at an instant.
pub open spec fn products_address(at: UtcTime) -> Seq<char> {
    products_query(instant_in_query(at.secs(), at.nanos()))
}

/// The address of the first page of the variable products on sale at an instant.
pub fn products_url(at: UtcTime) -> (r: String)
    ensures
        r@ == products_address(at),
{
    products_query_text(at.query_text().as_str())
}

} // verus!
