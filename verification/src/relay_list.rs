//! The list of relays the daemon knows, and the selection of those that
//! can serve as bridges.

use vstd::prelude::*;

use crate::relay_constraints::ShadowsocksProxySettings;
use crate::text::{natural_cmp, natord_compare_ignore_case};

verus! {

/// Bridge endpoints one relay offers.
#[derive(Debug, PartialEq)]
pub struct RelayBridges {
    pub shadowsocks: Vec<ShadowsocksProxySettings>,
}

/// One relay server.
#[derive(Debug, PartialEq)]
pub struct Relay {
    pub hostname: String,
    pub ipv4_addr_in: String,
    pub active: bool,
    pub bridges: Option<RelayBridges>,
}

/// Mathematical model of a [`Relay`].
pub struct RelayView {
    pub hostname: Seq<char>,
    pub ipv4_addr_in: Seq<char>,
    pub active: bool,
    pub shadowsocks_bridges: Option<nat>,
}

impl View for Relay {
    type V = RelayView;

    open spec fn view(&self) -> RelayView {
        RelayView {
            hostname: self.hostname@,
            ipv4_addr_in: self.ipv4_addr_in@,
            active: self.active,
            shadowsocks_bridges: match self.bridges {
                Some(bridges) => Some(bridges.shadowsocks@.len()),
                None => None,
            },
        }
    }
}

impl DeepView for Relay {
    type V = RelayView;

    open spec fn deep_view(&self) -> RelayView {
        self.view()
    }
}

/// One city with its relays.
#[derive(Debug, PartialEq)]
pub struct RelayListCity {
    pub name: String,
    pub code: String,
    pub relays: Vec<Relay>,
}

/// Mathematical model of a [`RelayListCity`].
pub struct RelayListCityView {
    pub name: Seq<char>,
    pub code: Seq<char>,
    pub relays: Seq<RelayView>,
}

impl View for RelayListCity {
    type V = RelayListCityView;

    open spec fn view(&self) -> RelayListCityView {
        RelayListCityView { name: self.name@, code: self.code@, relays: self.relays.deep_view() }
    }
}

impl DeepView for RelayListCity {
    type V = RelayListCityView;

    open spec fn deep_view(&self) -> RelayListCityView {
        self.view()
    }
}

/// One country with its cities.
#[derive(Debug, PartialEq)]
pub struct RelayListCountry {
    pub name: String,
    pub code: String,
    pub cities: Vec<RelayListCity>,
}

/// Mathematical model of a [`RelayListCountry`].
pub struct RelayListCountryView {
    pub name: Seq<char>,
    pub code: Seq<char>,
    pub cities: Seq<RelayListCityView>,
}

impl View for RelayListCountry {
    type V = RelayListCountryView;

    open spec fn view(&self) -> RelayListCountryView {
        RelayListCountryView { name: self.name@, code: self.code@, cities: self.cities.deep_view() }
    }
}

impl DeepView for RelayListCountry {
    type V = RelayListCountryView;

    open spec fn deep_view(&self) -> RelayListCountryView {
        self.view()
    }
}

/// All relays, grouped by country and city.
#[derive(Debug, PartialEq)]
pub struct RelayList {
    pub countries: Vec<RelayListCountry>,
}

impl View for RelayList {
    type V = Seq<RelayListCountryView>;

    open spec fn view(&self) -> Seq<RelayListCountryView> {
        self.countries.deep_view()
    }
}

/// Whether one relay can serve as a bridge: it is active and offers at
/// least one Shadowsocks endpoint.
pub open spec fn spec_is_bridge_relay(relay: RelayView) -> bool {
    relay.active && match relay.shadowsocks_bridges {
        Some(count) => count > 0,
        None => false,
    }
}

/// Executable mirror of [`spec_is_bridge_relay`].
pub fn is_bridge_relay(relay: &Relay) -> (r: bool)
    ensures
        r == spec_is_bridge_relay(relay@),
{
    relay.active && match &relay.bridges {
        Some(bridges) => bridges.shadowsocks.len() > 0,
        None => false,
    }
}


/// The views of a sequence of relays, in order.
pub open spec fn relay_views(relays: Seq<Relay>) -> Seq<RelayView> {
    Seq::new(relays.len(), |i: int| relays[i]@)
}

/// The views of a sequence of cities, in order.
pub open spec fn city_views(cities: Seq<RelayListCity>) -> Seq<RelayListCityView> {
    Seq::new(cities.len(), |i: int| cities[i]@)
}

/// The views of a sequence of countries, in order.
pub open spec fn country_views(countries: Seq<RelayListCountry>) -> Seq<RelayListCountryView> {
    Seq::new(countries.len(), |i: int| countries[i]@)
}

/// The relays of a list that can serve as bridges, in order.
pub open spec fn spec_bridge_relay_views(relays: Seq<RelayView>) -> Seq<RelayView>
    decreases relays.len(),
{
    if relays.len() == 0 {
        Seq::<RelayView>::empty()
    } else {
        let rest = spec_bridge_relay_views(relays.drop_last());
        if spec_is_bridge_relay(relays.last()) {
            rest.push(relays.last())
        } else {
            rest
        }
    }
}

/// A city after pruning: the same city, keeping only its bridge relays.
pub open spec fn spec_city_pruned(city: RelayListCityView) -> RelayListCityView {
    RelayListCityView { relays: spec_bridge_relay_views(city.relays), ..city }
}

/// The cities that still hold a bridge relay after pruning, pruned, in
/// order.
pub open spec fn spec_bridge_city_views(cities: Seq<RelayListCityView>) -> Seq<
    RelayListCityView,
>
    decreases cities.len(),
{
    if cities.len() == 0 {
        Seq::<RelayListCityView>::empty()
    } else {
        let rest = spec_bridge_city_views(cities.drop_last());
        let pruned = spec_city_pruned(cities.last());
        if pruned.relays.len() > 0 {
            rest.push(pruned)
        } else {
            rest
        }
    }
}

/// A country after pruning: the same country, keeping only cities that
/// still hold a bridge relay.
pub open spec fn spec_country_pruned(country: RelayListCountryView) -> RelayListCountryView {
    RelayListCountryView { cities: spec_bridge_city_views(country.cities), ..country }
}

/// The countries that still hold a usable city after pruning, pruned, in
/// order.
pub open spec fn spec_bridge_country_views(countries: Seq<RelayListCountryView>) -> Seq<
    RelayListCountryView,
>
    decreases countries.len(),
{
    if countries.len() == 0 {
        Seq::<RelayListCountryView>::empty()
    } else {
        let rest = spec_bridge_country_views(countries.drop_last());
        let pruned = spec_country_pruned(countries.last());
        if pruned.cities.len() > 0 {
            rest.push(pruned)
        } else {
            rest
        }
    }
}

/// Keeps only the relays of this city that can serve as bridges.
#[verifier::loop_isolation(false)]
pub fn retain_bridge_relays(city: &mut RelayListCity)
    ensures
        final(city)@ == spec_city_pruned(old(city)@),
{
    let mut taken: Vec<Relay> = Vec::new();
    core::mem::swap(&mut taken, &mut city.relays);
    let ghost orig_vals = taken@;
    proof {
        assert(old(city)@.relays =~= relay_views(orig_vals));
        assert(relay_views(orig_vals.subrange(0, 0)) =~= Seq::<RelayView>::empty());
        assert(relay_views(city.relays@) =~= Seq::<RelayView>::empty());
    }
    while taken.len() > 0
        invariant
            taken@.len() <= orig_vals.len(),
            taken@ == orig_vals.skip(orig_vals.len() - taken@.len()),
            city.name == old(city).name,
            city.code == old(city).code,
            relay_views(city.relays@) == spec_bridge_relay_views(
                relay_views(orig_vals.subrange(0, orig_vals.len() - taken@.len())),
            ),
        decreases taken@.len(),
    {
        let ghost k = orig_vals.len() - taken@.len();
        let relay = taken.remove(0);
        proof {
            assert(relay == orig_vals[k]);
            assert(taken@ =~= orig_vals.skip(k + 1));
            assert(relay_views(orig_vals.subrange(0, k + 1)).drop_last() =~= relay_views(
                orig_vals.subrange(0, k),
            ));
            assert(relay_views(orig_vals.subrange(0, k + 1)).last() == orig_vals[k]@);
        }
        let keep = is_bridge_relay(&relay);
        if keep {
            let ghost before = city.relays@;
            city.relays.push(relay);
            proof {
                assert(relay_views(city.relays@) =~= relay_views(before).push(orig_vals[k]@));
            }
        }
        proof {
            assert(relay_views(city.relays@) == spec_bridge_relay_views(
                relay_views(orig_vals.subrange(0, k + 1)),
            ));
        }
    }
    proof {
        assert(orig_vals.subrange(0, orig_vals.len() as int) =~= orig_vals);
        assert(final(city)@.relays =~= relay_views(city.relays@));
    }
}

/// Keeps only the countries, cities and relays that can serve bridge
/// connections: a relay must be active and offer Shadowsocks endpoints,
/// and empty cities and countries drop out.
#[verifier::loop_isolation(false)]
pub fn filter_bridge_relays(relay_list: RelayList) -> (r: RelayList)
    ensures
        r@ == spec_bridge_country_views(relay_list@),
{
    let RelayList { countries: mut remaining } = relay_list;
    let ghost orig_vals = remaining@;
    proof {
        assert(relay_list@ =~= country_views(orig_vals));
    }
    let mut kept: Vec<RelayListCountry> = Vec::new();
    proof {
        assert(country_views(orig_vals.subrange(0, 0)) =~= Seq::<RelayListCountryView>::empty());
        assert(country_views(kept@) =~= Seq::<RelayListCountryView>::empty());
    }
    while remaining.len() > 0
        invariant
            remaining@.len() <= orig_vals.len(),
            remaining@ == orig_vals.skip(orig_vals.len() - remaining@.len()),
            country_views(kept@) == spec_bridge_country_views(
                country_views(orig_vals.subrange(0, orig_vals.len() - remaining@.len())),
            ),
        decreases remaining@.len(),
    {
        let ghost k = orig_vals.len() - remaining@.len();
        let mut country = remaining.remove(0);
        proof {
            assert(country == orig_vals[k]);
            assert(remaining@ =~= orig_vals.skip(k + 1));
            assert(country_views(orig_vals.subrange(0, k + 1)).drop_last() =~= country_views(
                orig_vals.subrange(0, k),
            ));
            assert(country_views(orig_vals.subrange(0, k + 1)).last() == orig_vals[k]@);
        }
        let mut cities: Vec<RelayListCity> = Vec::new();
        core::mem::swap(&mut cities, &mut country.cities);
        let ghost orig_cities = cities@;
        proof {
            assert(orig_vals[k]@.cities =~= city_views(orig_cities));
        }
        let mut kept_cities: Vec<RelayListCity> = Vec::new();
        proof {
            assert(city_views(orig_cities.subrange(0, 0)) =~= Seq::<RelayListCityView>::empty());
            assert(city_views(kept_cities@) =~= Seq::<RelayListCityView>::empty());
        }
        while cities.len() > 0
            invariant
                cities@.len() <= orig_cities.len(),
                cities@ == orig_cities.skip(orig_cities.len() - cities@.len()),
                city_views(kept_cities@) == spec_bridge_city_views(
                    city_views(orig_cities.subrange(0, orig_cities.len() - cities@.len())),
                ),
            decreases cities@.len(),
        {
            let ghost j = orig_cities.len() - cities@.len();
            let mut city = cities.remove(0);
            proof {
                assert(city == orig_cities[j]);
                assert(cities@ =~= orig_cities.skip(j + 1));
                assert(city_views(orig_cities.subrange(0, j + 1)).drop_last() =~= city_views(
                    orig_cities.subrange(0, j),
                ));
                assert(city_views(orig_cities.subrange(0, j + 1)).last() == orig_cities[j]@);
            }
            retain_bridge_relays(&mut city);
            let keep = city.relays.len() > 0;
            if keep {
                let ghost before = kept_cities@;
                proof {
                    assert(city@.relays =~= relay_views(city.relays@));
                    assert(city@.relays.len() == city.relays@.len());
                }
                kept_cities.push(city);
                proof {
                    assert(city_views(kept_cities@) =~= city_views(before).push(
                        spec_city_pruned(orig_cities[j]@),
                    ));
                }
            } else {
                proof {
                    assert(city@.relays =~= relay_views(city.relays@));
                    assert(spec_city_pruned(orig_cities[j]@).relays.len() == 0);
                }
            }
            proof {
                assert(city_views(kept_cities@) == spec_bridge_city_views(
                    city_views(orig_cities.subrange(0, j + 1)),
                ));
            }
        }
        proof {
            assert(orig_cities.subrange(0, orig_cities.len() as int) =~= orig_cities);
        }
        country.cities = kept_cities;
        let keep_country = country.cities.len() > 0;
        if keep_country {
            let ghost before = kept@;
            proof {
                assert(country@.cities =~= city_views(country.cities@));
            }
            kept.push(country);
            proof {
                assert(country@ == spec_country_pruned(orig_vals[k]@));
                assert(country_views(kept@) =~= country_views(before).push(
                    spec_country_pruned(orig_vals[k]@),
                ));
            }
        } else {
            proof {
                assert(country@.cities =~= city_views(country.cities@));
                assert(spec_country_pruned(orig_vals[k]@).cities.len() == 0);
            }
        }
        proof {
            assert(country_views(kept@) == spec_bridge_country_views(
                country_views(orig_vals.subrange(0, k + 1)),
            ));
        }
    }
    proof {
        assert(orig_vals.subrange(0, orig_vals.len() as int) =~= orig_vals);
    }
    let result = RelayList { countries: kept };
    proof {
        assert(result@ =~= country_views(kept@));
    }
    result
}


/// `a` comes no later than `b` in case-insensitive natural order.
pub open spec fn natural_le(a: Seq<char>, b: Seq<char>) -> bool {
    natural_cmp(a, b) <= 0
}

/// What sorting relies on of the outside comparison: any two strings
/// compare one way or the other, and the order carries over chains.
/// Nothing here states that this holds; a caller that wants the result
/// sorted brings it as a hypothesis about the comparison.
pub open spec fn natural_order_is_total() -> bool {
    &&& forall|a: Seq<char>, b: Seq<char>| #[trigger] natural_le(a, b) || #[trigger] natural_le(b, a)
    &&& forall|a: Seq<char>, b: Seq<char>, c: Seq<char>|
        #[trigger] natural_le(a, b) && #[trigger] natural_le(b, c) ==> natural_le(a, c)
}

/// The countries stand in case-insensitive natural order of their names.
pub open spec fn countries_sorted_by_name(countries: Seq<RelayListCountryView>) -> bool {
    forall|i: int, j: int|
        0 <= i < j < countries.len() ==> natural_le(
            #[trigger] countries[i].name,
            #[trigger] countries[j].name,
        )
}

/// Sorts the countries by name in case-insensitive natural order, by
/// insertion. The comparison is the natord crate's; the result holds
/// exactly the same countries, and stands sorted provided that
/// comparison is a total preorder.
#[verifier::loop_isolation(false)]
pub fn sort_countries_by_name(countries: &mut Vec<RelayListCountry>)
    ensures
        final(countries)@.to_multiset() == old(countries)@.to_multiset(),
        natural_order_is_total() ==> countries_sorted_by_name(country_views(final(countries)@)),
{
    broadcast use vstd::seq_lib::group_to_multiset_ensures;
    broadcast use vstd::seq_lib::to_multiset_insert;

    let mut i: usize = 1;
    while i < countries.len()
        invariant
            i >= 1,
            countries@.to_multiset() == old(countries)@.to_multiset(),
            natural_order_is_total() ==> forall|a: int, b: int|
                0 <= a < b < i ==> natural_le(
                    #[trigger] countries@[a]@.name,
                    #[trigger] countries@[b]@.name,
                ),
        decreases countries@.len() - i,
    {
        let ghost pre = countries@;
        let mut j: usize = i;
        while j > 0 && natord_compare_ignore_case(
            countries[j - 1].name.as_str(),
            countries[i].name.as_str(),
        ) > 0
            invariant
                j <= i,
                countries@ == pre,
                forall|k: int|
                    j <= k < i ==> natural_cmp((#[trigger] pre[k])@.name, pre[i as int]@.name)
                        > 0,
            decreases j,
        {
            j = j - 1;
        }
        if j < i {
            let moved = countries.remove(i);
            countries.insert(j, moved);
            proof {
                let post = countries@;
                assert(post == pre.remove(i as int).insert(j as int, pre[i as int]));
                assert forall|a: int| 0 <= a < post.len() implies #[trigger] post[a] == (
                if a < j {
                    pre[a]
                } else if a == j {
                    pre[i as int]
                } else if a <= i {
                    pre[a - 1]
                } else {
                    pre[a]
                }) by {}
                assert(pre.contains(pre[i as int]));
                assert(post.to_multiset() =~= pre.to_multiset());
                if natural_order_is_total() {
                    assert forall|a: int, b: int| 0 <= a < b < i + 1 implies natural_le(
                        #[trigger] post[a]@.name,
                        #[trigger] post[b]@.name,
                    ) by {
                        if a == j {
                            assert(natural_cmp(post[b]@.name, post[a]@.name) > 0 || b > i);
                            assert(natural_le(post[a]@.name, post[b]@.name) || natural_le(
                                post[b]@.name,
                                post[a]@.name,
                            ));
                        } else if b == j {
                            assert(a < j);
                            if j > 0 {
                                assert(natural_le(pre[j - 1]@.name, pre[i as int]@.name));
                                if a < j - 1 {
                                    assert(natural_le(pre[a]@.name, pre[j - 1]@.name));
                                }
                            }
                        }
                    }
                }
            }
        } else {
            proof {
                if natural_order_is_total() {
                    assert forall|a: int, b: int| 0 <= a < b < i + 1 implies natural_le(
                        #[trigger] pre[a]@.name,
                        #[trigger] pre[b]@.name,
                    ) by {
                        if b == i {
                            assert(natural_cmp(pre[i - 1]@.name, pre[i as int]@.name) <= 0);
                            assert(natural_le(pre[i - 1]@.name, pre[i as int]@.name));
                            if a < i - 1 {
                                assert(natural_le(pre[a]@.name, pre[i - 1]@.name));
                            }
                        }
                    }
                }
            }
        }
        i = i + 1;
    }
}


/// The cities stand in case-insensitive natural order of their names.
pub open spec fn cities_sorted_by_name(cities: Seq<RelayListCityView>) -> bool {
    forall|i: int, j: int|
        0 <= i < j < cities.len() ==> natural_le(
            #[trigger] cities[i].name,
            #[trigger] cities[j].name,
        )
}

/// Sorts the cities of one country by name in case-insensitive natural
/// order, by insertion, exactly as the countries are sorted: the same
/// cities, and sorted provided the comparison is a total preorder.
#[verifier::loop_isolation(false)]
pub fn sort_cities_by_name(cities: &mut Vec<RelayListCity>)
    ensures
        final(cities)@.to_multiset() == old(cities)@.to_multiset(),
        natural_order_is_total() ==> cities_sorted_by_name(city_views(final(cities)@)),
{
    broadcast use vstd::seq_lib::group_to_multiset_ensures;
    broadcast use vstd::seq_lib::to_multiset_insert;

    let mut i: usize = 1;
    while i < cities.len()
        invariant
            i >= 1,
            cities@.to_multiset() == old(cities)@.to_multiset(),
            natural_order_is_total() ==> forall|a: int, b: int|
                0 <= a < b < i ==> natural_le(
                    #[trigger] cities@[a]@.name,
                    #[trigger] cities@[b]@.name,
                ),
        decreases cities@.len() - i,
    {
        let ghost pre = cities@;
        let mut j: usize = i;
        while j > 0 && natord_compare_ignore_case(
            cities[j - 1].name.as_str(),
            cities[i].name.as_str(),
        ) > 0
            invariant
                j <= i,
                cities@ == pre,
                forall|k: int|
                    j <= k < i ==> natural_cmp((#[trigger] pre[k])@.name, pre[i as int]@.name)
                        > 0,
            decreases j,
        {
            j = j - 1;
        }
        if j < i {
            let moved = cities.remove(i);
            cities.insert(j, moved);
            proof {
                let post = cities@;
                assert(post == pre.remove(i as int).insert(j as int, pre[i as int]));
                assert forall|a: int| 0 <= a < post.len() implies #[trigger] post[a] == (
                if a < j {
                    pre[a]
                } else if a == j {
                    pre[i as int]
                } else if a <= i {
                    pre[a - 1]
                } else {
                    pre[a]
                }) by {}
                assert(pre.contains(pre[i as int]));
                assert(post.to_multiset() =~= pre.to_multiset());
                if natural_order_is_total() {
                    assert forall|a: int, b: int| 0 <= a < b < i + 1 implies natural_le(
                        #[trigger] post[a]@.name,
                        #[trigger] post[b]@.name,
                    ) by {
                        if a == j {
                            assert(natural_cmp(post[b]@.name, post[a]@.name) > 0 || b > i);
                            assert(natural_le(post[a]@.name, post[b]@.name) || natural_le(
                                post[b]@.name,
                                post[a]@.name,
                            ));
                        } else if b == j {
                            assert(a < j);
                            if j > 0 {
                                assert(natural_le(pre[j - 1]@.name, pre[i as int]@.name));
                                if a < j - 1 {
                                    assert(natural_le(pre[a]@.name, pre[j - 1]@.name));
                                }
                            }
                        }
                    }
                }
            }
        } else {
            proof {
                if natural_order_is_total() {
                    assert forall|a: int, b: int| 0 <= a < b < i + 1 implies natural_le(
                        #[trigger] pre[a]@.name,
                        #[trigger] pre[b]@.name,
                    ) by {
                        if b == i {
                            assert(natural_cmp(pre[i - 1]@.name, pre[i as int]@.name) <= 0);
                            assert(natural_le(pre[i - 1]@.name, pre[i as int]@.name));
                            if a < i - 1 {
                                assert(natural_le(pre[a]@.name, pre[i - 1]@.name));
                            }
                        }
                    }
                }
            }
        }
        i = i + 1;
    }
}


/// The relays stand in case-insensitive natural order of their hostnames.
pub open spec fn relays_sorted_by_hostname(relays: Seq<RelayView>) -> bool {
    forall|i: int, j: int|
        0 <= i < j < relays.len() ==> natural_le(
            #[trigger] relays[i].hostname,
            #[trigger] relays[j].hostname,
        )
}

/// Sorts the relays of one city by hostname in case-insensitive natural
/// order, by insertion, exactly as the countries are sorted: the same
/// relays, and sorted provided the comparison is a total preorder.
#[verifier::loop_isolation(false)]
pub fn sort_relays_by_hostname(relays: &mut Vec<Relay>)
    ensures
        final(relays)@.to_multiset() == old(relays)@.to_multiset(),
        natural_order_is_total() ==> relays_sorted_by_hostname(relay_views(final(relays)@)),
{
    broadcast use vstd::seq_lib::group_to_multiset_ensures;
    broadcast use vstd::seq_lib::to_multiset_insert;

    let mut i: usize = 1;
    while i < relays.len()
        invariant
            i >= 1,
            relays@.to_multiset() == old(relays)@.to_multiset(),
            natural_order_is_total() ==> forall|a: int, b: int|
                0 <= a < b < i ==> natural_le(
                    #[trigger] relays@[a]@.hostname,
                    #[trigger] relays@[b]@.hostname,
                ),
        decreases relays@.len() - i,
    {
        let ghost pre = relays@;
        let mut j: usize = i;
        while j > 0 && natord_compare_ignore_case(
            relays[j - 1].hostname.as_str(),
            relays[i].hostname.as_str(),
        ) > 0
            invariant
                j <= i,
                relays@ == pre,
                forall|k: int|
                    j <= k < i ==> natural_cmp((#[trigger] pre[k])@.hostname, pre[i as int]@.hostname)
                        > 0,
            decreases j,
        {
            j = j - 1;
        }
        if j < i {
            let moved = relays.remove(i);
            relays.insert(j, moved);
            proof {
                let post = relays@;
                assert(post == pre.remove(i as int).insert(j as int, pre[i as int]));
                assert forall|a: int| 0 <= a < post.len() implies #[trigger] post[a] == (
                if a < j {
                    pre[a]
                } else if a == j {
                    pre[i as int]
                } else if a <= i {
                    pre[a - 1]
                } else {
                    pre[a]
                }) by {}
                assert(pre.contains(pre[i as int]));
                assert(post.to_multiset() =~= pre.to_multiset());
                if natural_order_is_total() {
                    assert forall|a: int, b: int| 0 <= a < b < i + 1 implies natural_le(
                        #[trigger] post[a]@.hostname,
                        #[trigger] post[b]@.hostname,
                    ) by {
                        if a == j {
                            assert(natural_cmp(post[b]@.hostname, post[a]@.hostname) > 0 || b > i);
                            assert(natural_le(post[a]@.hostname, post[b]@.hostname) || natural_le(
                                post[b]@.hostname,
                                post[a]@.hostname,
                            ));
                        } else if b == j {
                            assert(a < j);
                            if j > 0 {
                                assert(natural_le(pre[j - 1]@.hostname, pre[i as int]@.hostname));
                                if a < j - 1 {
                                    assert(natural_le(pre[a]@.hostname, pre[j - 1]@.hostname));
                                }
                            }
                        }
                    }
                }
            }
        } else {
            proof {
                if natural_order_is_total() {
                    assert forall|a: int, b: int| 0 <= a < b < i + 1 implies natural_le(
                        #[trigger] pre[a]@.hostname,
                        #[trigger] pre[b]@.hostname,
                    ) by {
                        if b == i {
                            assert(natural_cmp(pre[i - 1]@.hostname, pre[i as int]@.hostname) <= 0);
                            assert(natural_le(pre[i - 1]@.hostname, pre[i as int]@.hostname));
                            if a < i - 1 {
                                assert(natural_le(pre[a]@.hostname, pre[i - 1]@.hostname));
                            }
                        }
                    }
                }
            }
        }
        i = i + 1;
    }
}


} // verus!
