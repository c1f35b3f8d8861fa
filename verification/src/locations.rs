//! The normalized US location directory: country filtering and zip-code
//! normalization of the raw restaurant-service response, and the
//! classification of a directory fetch outcome into a directory or a typed
//! error.

use vstd::prelude::*;

use crate::api_interfaces;
use crate::api_interfaces::Address;
use crate::api_interfaces::Response;
use crate::error::GetError;
use crate::text::str_eq;

verus! {

/// The view of a normalized location: its id and zip-code characters.
pub ghost struct LocationView {
    pub id: i32,
    pub zip_code: Seq<char>,
}

/// Key identifying information for one store: its id and its zip code,
/// normalized to at most five characters.
#[derive(Debug, Eq)]
pub struct Location {
    pub id: i32,
    pub zip_code: String,
}

impl View for Location {
    type V = LocationView;

    open spec fn view(&self) -> LocationView {
        LocationView { id: self.id, zip_code: self.zip_code@ }
    }
}

impl DeepView for Location {
    type V = LocationView;

    open spec fn deep_view(&self) -> LocationView {
        self@
    }
}

impl PartialEq for Location {
    fn eq(&self, other: &Self) -> bool {
        self.id == other.id && self.zip_code == other.zip_code
    }
}

impl vstd::std_specs::cmp::PartialEqSpecImpl for Location {
    open spec fn obeys_eq_spec() -> bool {
        true
    }

    open spec fn eq_spec(&self, other: &Location) -> bool {
        self@ == other@
    }
}

impl Location {
    /// A copy of the location with the same view.
    pub fn duplicate(&self) -> (r: Self)
        ensures
            r == *self,
    {
        Location { id: self.id, zip_code: self.zip_code.clone() }
    }
}

/// The static zip override table: the zip to use for location ids whose
/// address-supplied postal code is known bad.
pub open spec fn spec_zip_override(id: i32) -> Option<Seq<char>> {
    if id == 3065 {
        Some("75235"@)
    } else {
        None
    }
}

/// The override entry for one location id, if any.
pub fn zip_override(id: i32) -> (r: Option<&'static str>)
    ensures
        match r {
            Some(z) => spec_zip_override(id) == Some(z@),
            None => spec_zip_override(id) is None,
        },
{
    if id == 3065 {
        Some("75235")
    } else {
        None
    }
}

/// A zip code can be determined for the record: an override exists or the
/// address carries a postal code.
pub open spec fn spec_has_zip_source(id: i32, address: Address) -> bool {
    spec_zip_override(id) is Some || address.postal_code is Some
}

/// The zip code of one record: the override takes precedence over the
/// address's postal code, and the result is truncated to its first five
/// characters when longer.
pub open spec fn spec_zip_code(id: i32, address: Address) -> Seq<char>
    recommends
        spec_has_zip_source(id, address),
{
    let base = match spec_zip_override(id) {
        Some(z) => z,
        None => address.postal_code->0@,
    };
    if base.len() > 5 {
        base.take(5)
    } else {
        base
    }
}

/// Computes the zip code of one record, as `spec_zip_code` states it.
pub fn get_zip_code(location_id: &i32, address: &Address) -> (r: String)
    requires
        spec_has_zip_source(*location_id, *address),
    ensures
        r@ == spec_zip_code(*location_id, *address),
{
    let base: String = match zip_override(*location_id) {
        Some(z) => z.to_owned(),
        None => address.postal_code.as_ref().unwrap().clone(),
    };
    let len = base.as_str().unicode_len();
    if len > 5 {
        let truncated = base.as_str().substring_char(0, 5);
        proof {
            assert(truncated@ =~= spec_zip_code(*location_id, *address));
        }
        truncated.to_owned()
    } else {
        base
    }
}

/// A record the directory keeps: it has at least one address, and that first
/// address is in the US.
pub open spec fn spec_qualifying(rec: api_interfaces::Location) -> bool {
    rec.addresses@.len() > 0 && rec.addresses@[0].country_code@ == "US"@
}

/// Every qualifying record of the list has a zip source.
pub open spec fn spec_all_zips_known(records: Seq<api_interfaces::Location>) -> bool {
    forall|i: int|
        0 <= i < records.len() ==> (spec_qualifying(#[trigger] records[i]) ==> spec_has_zip_source(
            records[i].id,
            records[i].addresses@[0],
        ))
}

/// The normalized US directory of a raw record list: qualifying records, in
/// order, each mapped to its id and zip code. Records without an address and
/// records outside the US are dropped, never fatal.
pub open spec fn spec_us_locations(records: Seq<api_interfaces::Location>) -> Seq<LocationView>
    decreases records.len(),
{
    if records.len() == 0 {
        Seq::<LocationView>::empty()
    } else {
        let rest = spec_us_locations(records.drop_last());
        let rec = records.last();
        if spec_qualifying(rec) {
            rest + seq![
                LocationView { id: rec.id, zip_code: spec_zip_code(rec.id, rec.addresses@[0]) },
            ]
        } else {
            rest
        }
    }
}

/// Can a zip be determined for every qualifying record of the response? The
/// application checks this before handing a parsed response to the directory,
/// and fails the fetch if it does not hold.
pub fn has_zip_sources(data: &Response) -> (r: bool)
    ensures
        r == spec_all_zips_known(data.data@),
{
    let n = data.data.len();
    let mut i: usize = 0;
    while i < n
        invariant
            n == data.data@.len(),
            0 <= i <= n,
            forall|j: int|
                0 <= j < i ==> (spec_qualifying(#[trigger] data.data@[j])
                    ==> spec_has_zip_source(data.data@[j].id, data.data@[j].addresses@[0])),
        decreases n - i,
    {
        let rec = &data.data[i];
        if rec.addresses.len() > 0 {
            let addr = &rec.addresses[0];
            if str_eq(addr.country_code.as_str(), "US") {
                if zip_override(rec.id).is_none() && addr.postal_code.is_none() {
                    assert(spec_qualifying(data.data@[i as int]));
                    assert(!spec_has_zip_source(
                        data.data@[i as int].id,
                        data.data@[i as int].addresses@[0],
                    ));
                    return false;
                }
            }
        }
        i += 1;
    }
    true
}

/// Normalizes a raw response into the US directory: keeps records whose first
/// address is in the US, drops the rest, and maps each kept record to its id
/// and normalized zip code, in order.
pub fn get_us_locations(data: Response) -> (r: Vec<Location>)
    requires
        spec_all_zips_known(data.data@),
    ensures
        r.deep_view() == spec_us_locations(data.data@),
{
    let records = data.data;
    let n = records.len();
    let mut out: Vec<Location> = Vec::new();
    let mut i: usize = 0;
    proof {
        assert(records@.take(0) =~= Seq::<api_interfaces::Location>::empty());
        assert(out.deep_view() =~= Seq::<LocationView>::empty());
    }
    while i < n
        invariant
            n == records@.len(),
            0 <= i <= n,
            records@ == data.data@,
            spec_all_zips_known(records@),
            out.deep_view() == spec_us_locations(records@.take(i as int)),
        decreases n - i,
    {
        let ghost prev = out.deep_view();
        let rec = &records[i];
        if rec.addresses.len() > 0 {
            let addr = &rec.addresses[0];
            if str_eq(addr.country_code.as_str(), "US") {
                proof {
                    assert(spec_qualifying(records@[i as int]));
                }
                let zip = get_zip_code(&rec.id, addr);
                out.push(Location { id: rec.id, zip_code: zip });
                proof {
                    assert(out.deep_view() =~= prev + seq![
                        LocationView {
                            id: rec.id,
                            zip_code: spec_zip_code(rec.id, records@[i as int].addresses@[0]),
                        },
                    ]);
                }
            }
        }
        proof {
            assert(records@.take(i + 1).drop_last() =~= records@.take(i as int));
            assert(records@.take(i + 1).last() == records@[i as int]);
            assert(out.deep_view() =~= spec_us_locations(records@.take(i + 1)));
        }
        i += 1;
    }
    proof {
        assert(records@.take(n as int) =~= records@);
    }
    out
}

/// Every zip code the directory computes has at most five characters,
/// whether it came from the override table or from the address.
pub proof fn lemma_zip_code_len(id: i32, address: Address)
    ensures
        spec_zip_code(id, address).len() <= 5,
{
    reveal_strlit("75235");
}

/// Every location the directory emits carries a zip code of at most five
/// characters.
pub proof fn lemma_us_locations_zip_len(records: Seq<api_interfaces::Location>)
    ensures
        forall|i: int|
            0 <= i < spec_us_locations(records).len()
                ==> (#[trigger] spec_us_locations(records)[i]).zip_code.len() <= 5,
    decreases records.len(),
{
    if records.len() > 0 {
        lemma_us_locations_zip_len(records.drop_last());
        let rec = records.last();
        if spec_qualifying(rec) {
            lemma_zip_code_len(rec.id, rec.addresses@[0]);
        }
        let all = spec_us_locations(records);
        let rest = spec_us_locations(records.drop_last());
        assert forall|i: int| 0 <= i < all.len() implies (#[trigger] all[i]).zip_code.len()
            <= 5 by {
            if i < rest.len() {
                assert(all[i] == rest[i]);
            }
        }
    }
}

/// The normalized US location directory.
#[derive(Debug)]
pub struct Locations(pub Vec<Location>);

/// What one attempt to fetch the location directory came to. The application
/// performs the POST and reports back: it reads the body only on a success
/// status, decodes it, and checks `has_zip_sources` on the decoded response.
pub enum LocationsFetchEvent {
    /// The request failed in the transport; no response arrived.
    TransportFailed(String),
    /// A response arrived with a non-success status; the body was not read.
    StatusOnly(u16),
    /// A response arrived with a success status but its body was unreadable.
    BodyUnreadable(String),
    /// The body was read but was not valid JSON of the expected shape.
    Unparsable(String),
    /// The body decoded into this raw response.
    Parsed(Response),
}

/// Classifies one directory fetch: any transport, status, body or decode
/// failure aborts the whole fetch with its own error; a decoded response is
/// normalized into the directory.
pub fn locations_from_fetch(event: LocationsFetchEvent) -> (r: Result<Locations, GetError>)
    requires
        event matches LocationsFetchEvent::Parsed(data) ==> spec_all_zips_known(data.data@),
    ensures
        match event {
            LocationsFetchEvent::TransportFailed(m) => r == Err::<Locations, GetError>(
                GetError::RequestError(m),
            ),
            LocationsFetchEvent::StatusOnly(status) => r == Err::<Locations, GetError>(
                GetError::ResponseError(status),
            ),
            LocationsFetchEvent::BodyUnreadable(m) => r == Err::<Locations, GetError>(
                GetError::ResponseBodyError(m),
            ),
            LocationsFetchEvent::Unparsable(m) => r == Err::<Locations, GetError>(
                GetError::ParseError(m),
            ),
            LocationsFetchEvent::Parsed(data) => r matches Ok(locs) && locs.0.deep_view()
                == spec_us_locations(data.data@),
        },
{
    match event {
        LocationsFetchEvent::TransportFailed(m) => Err(GetError::RequestError(m)),
        LocationsFetchEvent::StatusOnly(status) => Err(GetError::ResponseError(status)),
        LocationsFetchEvent::BodyUnreadable(m) => Err(GetError::ResponseBodyError(m)),
        LocationsFetchEvent::Unparsable(m) => Err(GetError::ParseError(m)),
        LocationsFetchEvent::Parsed(data) => Ok(Locations(get_us_locations(data))),
    }
}

} // verus!
