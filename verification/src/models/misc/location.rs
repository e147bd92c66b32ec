//! Where an office or a participant is.
use vstd::prelude::*;
use crate::ambient::{fresh_id, is_random_id};
use crate::models::misc::timestamp::Timestamp;
use crate::utils::HasId;

verus! {

/// What a location says.
pub ghost struct LocationView {
    pub id: u128,
    pub country: Seq<char>,
    pub region: Seq<char>,
    pub city: Seq<char>,
    pub timezone: Timestamp,
}

/// A place: country, region and city, with the time that stands for its
/// zone.
#[derive(Eq, PartialEq, PartialOrd, Ord, Debug, Hash)]
pub struct Location {
    id: u128,
    country: String,
    region: String,
    city: String,
    timezone: Timestamp,
}

impl View for Location {
    type V = LocationView;

    closed spec fn view(&self) -> LocationView {
        LocationView {
            id: self.id,
            country: self.country@,
            region: self.region@,
            city: self.city@,
            timezone: self.timezone,
        }
    }
}

impl Clone for Location {
    fn clone(&self) -> (r: Self)
        ensures
            r == *self,
    {
        Location {
            id: self.id,
            country: self.country.clone(),
            region: self.region.clone(),
            city: self.city.clone(),
            timezone: self.timezone,
        }
    }
}

impl Default for Location {
    /// Nowhere: identifier zero, empty names, the epoch.
    fn default() -> (r: Self)
        ensures
            r@ == (LocationView {
                id: 0,
                country: Seq::empty(),
                region: Seq::empty(),
                city: Seq::empty(),
                timezone: Timestamp::epoch(),
            }),
    {
        Location {
            id: 0,
            country: String::new(),
            region: String::new(),
            city: String::new(),
            timezone: Timestamp { secs: 0, nanos: 0 },
        }
    }
}

impl Location {
    /// A location under a fresh random identifier.
    pub fn new(country: &str, region: &str, city: &str, timezone: Timestamp) -> (r: Self)
        ensures
            is_random_id(r@.id),
            r@ == (LocationView {
                id: r@.id,
                country: country@,
                region: region@,
                city: city@,
                timezone,
            }),
    {
        Self::load(fresh_id(), country, region, city, timezone)
    }

    /// A location under a given identifier.
    pub fn load(id: u128, country: &str, region: &str, city: &str, timezone: Timestamp) -> (r:
        Self)
        ensures
            r@ == (LocationView { id, country: country@, region: region@, city: city@, timezone }),
    {
        Location {
            id,
            country: country.to_owned(),
            region: region.to_owned(),
            city: city.to_owned(),
            timezone,
        }
    }

    pub fn id(&self) -> (r: u128)
        ensures
            r == self@.id,
    {
        self.id
    }

    pub fn country_ref(&self) -> (r: &str)
        ensures
            r@ == self@.country,
    {
        self.country.as_str()
    }

    pub fn region_ref(&self) -> (r: &str)
        ensures
            r@ == self@.region,
    {
        self.region.as_str()
    }

    pub fn city_ref(&self) -> (r: &str)
        ensures
            r@ == self@.city,
    {
        self.city.as_str()
    }

    pub fn timezone(&self) -> (r: Timestamp)
        ensures
            r == self@.timezone,
    {
        self.timezone
    }

    pub fn set_id(&mut self, value: u128)
        ensures
            final(self)@ == (LocationView { id: value, ..old(self)@ }),
    {
        self.id = value;
    }

    pub fn set_country(&mut self, value: &str)
        ensures
            final(self)@ == (LocationView { country: value@, ..old(self)@ }),
    {
        self.country = value.to_owned();
    }

    pub fn set_region(&mut self, value: &str)
        ensures
            final(self)@ == (LocationView { region: value@, ..old(self)@ }),
    {
        self.region = value.to_owned();
    }

    pub fn set_city(&mut self, value: &str)
        ensures
            final(self)@ == (LocationView { city: value@, ..old(self)@ }),
    {
        self.city = value.to_owned();
    }
}

impl HasId for Location {
    open spec fn spec_id(&self) -> u128 {
        self@.id
    }

    open spec fn same_but_id(&self, other: &Self) -> bool {
        self@ == (LocationView { id: self@.id, ..other@ })
    }

    fn id(&mut self) -> (r: &mut u128) {
        &mut self.id
    }
}

} // verus!
