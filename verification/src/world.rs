use vstd::prelude::*;
use vstd::string::StringExecFns;
use crate::text::{chars_of, string_of, parsed_u64, parse_u64, push_char};
use crate::stats::without_char;

verus! {

/// Most roads that may start or end at the two places of a new road: a
/// travel menu offers at most this many choices.
pub const ROAD_LIMIT: u64 = 25;

/// A road between two places, as stored for a universe.
pub struct Road {
    /// Object id of the record (its twelve bytes, big-endian).
    pub file_id: u128,
    /// The road's channel.
    pub road_id: u64,
    /// The role that lets a traveller see the road.
    pub role_id: u64,
    /// Items that can be found on the road, each with its details.
    pub collectables: Vec<(String, Vec<String>)>,
    pub collectables_delay: u64,
    pub delay_before_recollect: u64,
    pub timestamp_before_recollect: u64,
    pub distance: u64,
    /// The categories of the two places that the road joins.
    pub place_1: u64,
    pub place_2: u64,
    /// A secret road is not offered in travel menus.
    pub is_secret: bool,
    pub server_id: u64,
    /// Object id of the universe (its twelve bytes, big-endian).
    pub universe_id: u128,
    pub privileges: Vec<u64>,
}

/// A place: a category of a server, with its role and default channel.
pub struct Place {
    /// Object id of the record (its twelve bytes, big-endian).
    pub file_id: u128,
    pub place_id: u64,
    pub server_id: u64,
    /// Object id of the universe (its twelve bytes, big-endian).
    pub universe_id: u128,
    pub collectables: Vec<(String, Vec<String>)>,
    pub collectables_delay: u64,
    pub delay_before_recollect: u64,
    pub timestamp_before_recollect: u64,
    pub default_channel_id: u64,
    pub role_id: u64,
}

/// The end of a road that is not `here`: the second place where `here` is
/// the first, the first place otherwise.
pub open spec fn other_end_of(place_1: u64, place_2: u64, here: u64) -> u64 {
    if place_1 == here {
        place_2
    } else {
        place_1
    }
}

impl Road {
    /// The place at the other end of the road, seen from `here`.
    pub fn other_end(&self, here: u64) -> (there: u64)
        ensures
            there == other_end_of(self.place_1, self.place_2, here),
    {
        if self.place_1 == here {
            self.place_2
        } else {
            self.place_1
        }
    }
}

/// Crossing a road twice leads back: from either end, the other end of the
/// other end is where one started.
pub proof fn law_other_end_returns(place_1: u64, place_2: u64, here: u64)
    requires
        here == place_1 || here == place_2,
    ensures
        other_end_of(place_1, place_2, other_end_of(place_1, place_2, here)) == here,
        other_end_of(place_1, place_2, here) == place_1 || other_end_of(place_1, place_2, here)
            == place_2,
{
}

/// A new road record: the given ids, ends, distance and secrecy, with no
/// collectables, no privileges and no delays.
pub fn new_road(
    file_id: u128,
    universe_id: u128,
    server_id: u64,
    road_id: u64,
    place_1: u64,
    place_2: u64,
    distance: u64,
    is_secret: bool,
    role_id: u64,
) -> (road: Road)
    ensures
        road.file_id == file_id,
        road.universe_id == universe_id,
        road.server_id == server_id,
        road.road_id == road_id,
        road.place_1 == place_1,
        road.place_2 == place_2,
        road.distance == distance,
        road.is_secret == is_secret,
        road.role_id == role_id,
        road.collectables@.len() == 0,
        road.collectables_delay == 0,
        road.delay_before_recollect == 0,
        road.timestamp_before_recollect == 0,
        road.privileges@.len() == 0,
{
    Road {
        file_id,
        road_id,
        role_id,
        collectables: Vec::new(),
        collectables_delay: 0,
        delay_before_recollect: 0,
        timestamp_before_recollect: 0,
        distance,
        place_1,
        place_2,
        is_secret,
        server_id,
        universe_id,
        privileges: Vec::new(),
    }
}

/// A new place record: the given ids, with no collectables and no delays.
pub fn new_place(
    file_id: u128,
    server_id: u64,
    universe_id: u128,
    role_id: u64,
    place_id: u64,
    default_channel_id: u64,
) -> (place: Place)
    ensures
        place.file_id == file_id,
        place.server_id == server_id,
        place.universe_id == universe_id,
        place.role_id == role_id,
        place.place_id == place_id,
        place.default_channel_id == default_channel_id,
        place.collectables@.len() == 0,
        place.collectables_delay == 0,
        place.delay_before_recollect == 0,
        place.timestamp_before_recollect == 0,
{
    Place {
        file_id,
        place_id,
        server_id,
        universe_id,
        collectables: Vec::new(),
        collectables_delay: 0,
        delay_before_recollect: 0,
        timestamp_before_recollect: 0,
        default_channel_id,
        role_id,
    }
}

/// Whether a road joins the two places, in either direction.
pub open spec fn joins(r: Road, a: u64, b: u64) -> bool {
    (r.place_1 == a && r.place_2 == b) || (r.place_1 == b && r.place_2 == a)
}

/// The roads that join the two places, in either direction.
pub open spec fn joining(a: u64, b: u64) -> spec_fn(Road) -> bool {
    |r: Road| joins(r, a, b)
}

/// The road between two places: the one road among `roads` that joins them,
/// or `None` where there is none or more than one.
pub open spec fn road_between(roads: Seq<Road>, a: u64, b: u64) -> Option<Road> {
    if roads.filter(joining(a, b)).len() == 1 {
        Some(roads.filter(joining(a, b))[0])
    } else {
        None
    }
}

/// The road between two places, among the roads given: `Some` exactly when
/// one road joins them, in either direction.
pub fn get_road_from_places(roads: Vec<Road>, place_1: u64, place_2: u64) -> (r: Option<Road>)
    ensures
        r == road_between(roads@, place_1, place_2),
{
    let ghost p = joining(place_1, place_2);
    let mut roads = roads;
    let mut count: usize = 0;
    let mut first: usize = 0;
    let mut i: usize = 0;
    proof {
        assert(roads@.take(0) =~= Seq::<Road>::empty());
    }
    while i < roads.len()
        invariant
            p == joining(place_1, place_2),
            i <= roads@.len(),
            count == roads@.take(i as int).filter(p).len(),
            count > 0 ==> first < i && roads@.take(i as int).filter(p)[0] == roads@[first as int],
        decreases roads.len() - i,
    {
        let ghost before = roads@.take(i as int);
        proof {
            assert(roads@.take(i + 1) =~= before.push(roads@[i as int]));
            before.lemma_filter_push(roads@[i as int], p);
        }
        let r = &roads[i];
        if (r.place_1 == place_1 && r.place_2 == place_2) || (r.place_1 == place_2 && r.place_2
            == place_1) {
            if count == 0 {
                first = i;
            }
            count = count + 1;
        }
        i += 1;
    }
    proof {
        assert(roads@.take(roads@.len() as int) =~= roads@);
    }
    if count == 1 {
        Some(roads.remove(first))
    } else {
        None
    }
}

/// Looking up the road between two places gives the same answer in either
/// order of the places.
pub proof fn law_road_between_symmetric(roads: Seq<Road>, a: u64, b: u64)
    ensures
        road_between(roads, a, b) == road_between(roads, b, a),
{
    assert(joining(a, b) =~= joining(b, a));
}

/// Whether a road, given by its two ends, touches a place.
pub open spec fn touches(ends: (u64, u64), x: u64) -> bool {
    ends.0 == x || ends.1 == x
}

/// The roads that touch a place.
pub open spec fn touching(x: u64) -> spec_fn((u64, u64)) -> bool {
    |e: (u64, u64)| touches(e, x)
}

/// The roads that touch either of two places.
pub open spec fn touching_either(a: u64, b: u64) -> spec_fn((u64, u64)) -> bool {
    |e: (u64, u64)| touches(e, a) || touches(e, b)
}

/// The roads, given by their ends, that join two places in either direction.
pub open spec fn joining_ends(a: u64, b: u64) -> spec_fn((u64, u64)) -> bool {
    |e: (u64, u64)| (e.0 == a && e.1 == b) || (e.0 == b && e.1 == a)
}

/// How many roads touch a place.
pub open spec fn road_count(roads: Seq<(u64, u64)>, x: u64) -> nat {
    roads.filter(touching(x)).len()
}

/// What a request to create a road between two places leads to.
#[derive(Clone, Copy, Debug, PartialEq, Eq, Structural)]
pub enum RoadRequest {
    /// The places named are not known places.
    BadPlaceInput,
    /// A road already joins the two places.
    AlreadyExists,
    /// The two places already have as many roads as a travel menu can offer.
    MaximumHit,
    /// The two places belong to different universes.
    DifferentUniverse,
    /// Create the road.
    Create,
}

/// The decision on a request for a road between `a` and `b`, given the
/// universe of each place record found for the two ids and the stored roads
/// by their ends (at least every road that touches `a` or `b`). The checks
/// come in this order: known places, no road between them yet, fewer than
/// `ROAD_LIMIT` roads touching either place, one universe.
pub open spec fn road_request_of(a: u64, b: u64, universes: Seq<u128>, roads: Seq<(u64, u64)>) -> RoadRequest {
    if !(universes.len() == 2 || (a == b && universes.len() == 1)) {
        RoadRequest::BadPlaceInput
    } else if roads.filter(joining_ends(a, b)).len() > 0 {
        RoadRequest::AlreadyExists
    } else if roads.filter(touching_either(a, b)).len() >= ROAD_LIMIT {
        RoadRequest::MaximumHit
    } else if universes.len() == 2 && universes[0] != universes[1] {
        RoadRequest::DifferentUniverse
    } else {
        RoadRequest::Create
    }
}

/// Decides a request for a road between two places, as `road_request_of`
/// says.
pub fn road_request(place_1: u64, place_2: u64, universes: &Vec<u128>, roads: &Vec<(u64, u64)>) -> (r: RoadRequest)
    ensures
        r == road_request_of(place_1, place_2, universes@, roads@),
{
    let found = universes.len() as u64;
    if !road_places_valid(place_1, place_2, found) {
        return RoadRequest::BadPlaceInput;
    }
    let ghost pj = joining_ends(place_1, place_2);
    let ghost pt = touching_either(place_1, place_2);
    let mut between: u64 = 0;
    let mut touching_count: u64 = 0;
    let mut i: usize = 0;
    proof {
        assert(roads@.take(0) =~= Seq::<(u64, u64)>::empty());
    }
    while i < roads.len()
        invariant
            pj == joining_ends(place_1, place_2),
            pt == touching_either(place_1, place_2),
            i <= roads@.len(),
            between == roads@.take(i as int).filter(pj).len(),
            touching_count == roads@.take(i as int).filter(pt).len(),
            between <= i,
            touching_count <= i,
        decreases roads.len() - i,
    {
        let ghost before = roads@.take(i as int);
        let e = roads[i];
        proof {
            assert(roads@.take(i + 1) =~= before.push(e));
            before.lemma_filter_push(e, pj);
            before.lemma_filter_push(e, pt);
        }
        if (e.0 == place_1 && e.1 == place_2) || (e.0 == place_2 && e.1 == place_1) {
            between = between + 1;
        }
        if e.0 == place_1 || e.1 == place_1 || e.0 == place_2 || e.1 == place_2 {
            touching_count = touching_count + 1;
        }
        i += 1;
    }
    proof {
        assert(roads@.take(roads@.len() as int) =~= roads@);
    }
    if between > 0 {
        RoadRequest::AlreadyExists
    } else if road_limit_reached(touching_count) {
        RoadRequest::MaximumHit
    } else if universes.len() == 2 && universes[0] != universes[1] {
        RoadRequest::DifferentUniverse
    } else {
        RoadRequest::Create
    }
}

/// A granted road request joins two known places of one universe, with no
/// road between them yet and fewer than `ROAD_LIMIT` roads touching them:
/// whatever roads are stored, a request for two places of different
/// universes is never granted.
pub proof fn law_granted_road_is_sound(
    place_1: u64,
    place_2: u64,
    universes: Seq<u128>,
    roads: Seq<(u64, u64)>,
)
    requires
        road_request_of(place_1, place_2, universes, roads) == RoadRequest::Create,
    ensures
        universes.len() == 2 || (place_1 == place_2 && universes.len() == 1),
        universes.len() == 2 ==> universes[0] == universes[1],
        forall|i: int|
            0 <= i < roads.len() ==> !((#[trigger] roads[i]).0 == place_1 && roads[i].1 == place_2)
                && !(roads[i].0 == place_2 && roads[i].1 == place_1),
        roads.filter(touching_either(place_1, place_2)).len() < ROAD_LIMIT,
{
    let p = joining_ends(place_1, place_2);
    assert forall|i: int| 0 <= i < roads.len() implies !((#[trigger] roads[i]).0 == place_1
        && roads[i].1 == place_2) && !(roads[i].0 == place_2 && roads[i].1 == place_1) by {
        if p(roads[i]) {
            lemma_in_filter(roads, p, i);
        }
    }
}

proof fn lemma_in_filter(s: Seq<(u64, u64)>, p: spec_fn((u64, u64)) -> bool, i: int)
    requires
        0 <= i < s.len(),
        p(s[i]),
    ensures
        s.filter(p).len() > 0,
    decreases s.len(),
{
    let t = s.drop_last();
    assert(t.push(s.last()) =~= s);
    t.lemma_filter_push(s.last(), p);
    if i < s.len() - 1 {
        assert(t[i] == s[i]);
        lemma_in_filter(t, p, i);
    }
}

proof fn lemma_filter_len_mono(s: Seq<(u64, u64)>, p: spec_fn((u64, u64)) -> bool, q: spec_fn((u64, u64)) -> bool)
    requires
        forall|e: (u64, u64)| #[trigger] p(e) ==> q(e),
    ensures
        s.filter(p).len() <= s.filter(q).len(),
    decreases s.len(),
{
    if s.len() > 0 {
        let t = s.drop_last();
        lemma_filter_len_mono(t, p, q);
        assert(t.push(s.last()) =~= s);
        t.lemma_filter_push(s.last(), p);
        t.lemma_filter_push(s.last(), q);
    }
}

/// Creating a road keeps every place within `ROAD_LIMIT` roads: where no
/// place had more before, and the request is granted, no place has more
/// once the road is stored.
pub proof fn law_road_limit_kept(
    place_1: u64,
    place_2: u64,
    universes: Seq<u128>,
    roads: Seq<(u64, u64)>,
)
    requires
        forall|x: u64| #[trigger] road_count(roads, x) <= ROAD_LIMIT,
        road_request_of(place_1, place_2, universes, roads) == RoadRequest::Create,
    ensures
        forall|x: u64| #[trigger] road_count(roads.push((place_1, place_2)), x) <= ROAD_LIMIT,
{
    let e = (place_1, place_2);
    assert forall|x: u64| #[trigger] road_count(roads.push(e), x) <= ROAD_LIMIT by {
        roads.lemma_filter_push(e, touching(x));
        assert(road_count(roads, x) <= ROAD_LIMIT);
        if touches(e, x) {
            let pe = touching_either(place_1, place_2);
            assert forall|f: (u64, u64)| #[trigger] touching(x)(f) implies pe(f) by {}
            lemma_filter_len_mono(roads, touching(x), pe);
        }
    }
}

/// The places offered by a travel menu from `here`: the far end of each road
/// that is not secret, the last road's first.
pub open spec fn menu_places(roads: Seq<Road>, here: u64) -> Seq<u64>
    decreases roads.len(),
{
    if roads.len() == 0 {
        Seq::empty()
    } else {
        let rest = menu_places(roads.drop_last(), here);
        let r = roads.last();
        if r.is_secret {
            rest
        } else {
            seq![other_end_of(r.place_1, r.place_2, here)] + rest
        }
    }
}

/// The destinations of a travel menu opened in the place `here`, given the
/// roads that touch it.
pub fn menu_destinations(roads: &Vec<Road>, here: u64) -> (ids: Vec<u64>)
    ensures
        ids@ == menu_places(roads@, here),
{
    let mut ids: Vec<u64> = Vec::new();
    let mut i: usize = 0;
    proof {
        assert(roads@.take(0) =~= Seq::<Road>::empty());
    }
    while i < roads.len()
        invariant
            i <= roads@.len(),
            ids@ == menu_places(roads@.take(i as int), here),
        decreases roads.len() - i,
    {
        proof {
            assert(roads@.take(i + 1).drop_last() =~= roads@.take(i as int));
            assert(roads@.take(i + 1).last() == roads@[i as int]);
        }
        if !roads[i].is_secret {
            let id = roads[i].other_end(here);
            let ghost before = ids@;
            ids.insert(0, id);
            proof {
                assert(ids@ =~= seq![id] + before);
            }
        }
        i += 1;
    }
    proof {
        assert(roads@.take(roads.len() as int) =~= roads@);
    }
    ids
}

/// Whether a road may be offered in a travel menu.
pub open spec fn is_open_road() -> spec_fn(Road) -> bool {
    |r: Road| !r.is_secret
}

/// The place at the far end of a road, seen from `here`.
pub open spec fn far_end(here: u64) -> spec_fn(Road) -> u64 {
    |r: Road| other_end_of(r.place_1, r.place_2, here)
}

/// A travel menu offers exactly the far ends of the roads that are not
/// secret, one per road, the last road's first: no secret road is offered
/// and no open road is left out.
pub proof fn law_menu_offers_open_roads(roads: Seq<Road>, here: u64)
    ensures
        menu_places(roads, here) == roads.filter(is_open_road()).map_values(far_end(here)).reverse(),
    decreases roads.len(),
{
    if roads.len() == 0 {
        assert(roads.filter(is_open_road()) =~= Seq::<Road>::empty());
        assert(roads.filter(is_open_road()).map_values(far_end(here)).reverse() =~= Seq::<u64>::empty());
    } else {
        let t = roads.drop_last();
        law_menu_offers_open_roads(t, here);
        assert(t.push(roads.last()) =~= roads);
        t.lemma_filter_push(roads.last(), is_open_road());
        if !roads.last().is_secret {
            let m = t.filter(is_open_road()).map_values(far_end(here));
            assert(t.filter(is_open_road()).push(roads.last()).map_values(far_end(here)) =~= m.push(
                far_end(here)(roads.last()),
            ));
            assert(m.push(far_end(here)(roads.last())).reverse() =~= seq![far_end(here)(roads.last())]
                + m.reverse());
        }
    }
}

/// A travel menu never offers more places than there are roads.
pub proof fn law_menu_bounded(roads: Seq<Road>, here: u64)
    ensures
        menu_places(roads, here).len() <= roads.len(),
    decreases roads.len(),
{
    if roads.len() > 0 {
        law_menu_bounded(roads.drop_last(), here);
    }
}

/// Whether the places named for a new road are known places: both found, or
/// one found where both names are the same place.
pub fn road_places_valid(place_1: u64, place_2: u64, places_found: u64) -> (ok: bool)
    ensures
        ok == (places_found == 2 || (place_1 == place_2 && places_found == 1)),
{
    places_found == 2 || (place_1 == place_2 && places_found == 1)
}

/// Whether the places of a new road already have as many roads as a travel
/// menu can offer.
pub fn road_limit_reached(roads_at_places: u64) -> (full: bool)
    ensures
        full == (roads_at_places >= ROAD_LIMIT),
{
    roads_at_places >= ROAD_LIMIT
}

/// The name of a road's channel and role: the two places' names joined by `-`.
pub fn road_name(name_1: &str, name_2: &str) -> (name: String)
    ensures
        name@ == name_1@ + seq!['-'] + name_2@,
{
    let mut name = name_1.to_string();
    push_char(&mut name, '-');
    name.append(name_2);
    name
}

/// Reads a place id given as a command option: quotes are dropped, then the
/// text is read as a `u64`.
pub fn parse_place_option(text: &str) -> (id: Option<u64>)
    ensures
        id == parsed_u64(without_char(text@, '"')),
{
    let chars = chars_of(text);
    let mut kept: Vec<char> = Vec::new();
    let mut i: usize = 0;
    proof {
        assert(chars@.take(0) =~= Seq::<char>::empty());
    }
    while i < chars.len()
        invariant
            i <= chars.len(),
            kept@ == without_char(chars@.take(i as int), '"'),
        decreases chars.len() - i,
    {
        proof {
            assert(chars@.take(i + 1).drop_last() =~= chars@.take(i as int));
            assert(chars@.take(i + 1).last() == chars@[i as int]);
        }
        if chars[i] != '"' {
            kept.push(chars[i]);
        }
        i += 1;
    }
    proof {
        assert(chars@.take(chars.len() as int) =~= chars@);
    }
    let cleaned = string_of(&kept);
    parse_u64(cleaned.as_str())
}

/// The roles of a traveller who reaches a destination on the road's own
/// server: the road's role is dropped, the destination's role is added.
pub fn roles_after_arrival(roles: &Vec<u64>, road_role_id: u64, destination_role_id: u64) -> (new_roles: Vec<u64>)
    ensures
        new_roles@ == roles@.filter(|r: u64| r != road_role_id).push(destination_role_id),
{
    let ghost keep = |r: u64| r != road_role_id;
    let mut kept: Vec<u64> = Vec::new();
    let mut i: usize = 0;
    proof {
        assert(roles@.take(0) =~= Seq::<u64>::empty());
    }
    while i < roles.len()
        invariant
            i <= roles.len(),
            keep == (|r: u64| r != road_role_id),
            kept@ == roles@.take(i as int).filter(keep),
        decreases roles.len() - i,
    {
        proof {
            assert(roles@.take(i + 1) =~= roles@.take(i as int).push(roles@[i as int]));
            roles@.take(i as int).lemma_filter_push(roles@[i as int], keep);
        }
        if roles[i] != road_role_id {
            kept.push(roles[i]);
        }
        i += 1;
    }
    proof {
        assert(roles@.take(roles.len() as int) =~= roles@);
    }
    kept.push(destination_role_id);
    kept
}

/// After arriving, a traveller holds the destination's role and, unless the
/// road and the destination share a role, no longer holds the road's role.
pub proof fn law_arrival_roles(roles: Seq<u64>, road_role_id: u64, destination_role_id: u64)
    ensures
        roles.filter(|r: u64| r != road_role_id).push(destination_role_id).contains(destination_role_id),
        road_role_id != destination_role_id ==> !roles.filter(|r: u64| r != road_role_id).push(
            destination_role_id,
        ).contains(road_role_id),
{
    let f = roles.filter(|r: u64| r != road_role_id);
    let out = f.push(destination_role_id);
    assert(out[f.len() as int] == destination_role_id);
    if road_role_id != destination_role_id && out.contains(road_role_id) {
        let k = choose|k: int| 0 <= k < out.len() && out[k] == road_role_id;
        assert(k < f.len());
        roles.lemma_filter_pred(|r: u64| r != road_role_id, k);
    }
}

/// Place ids stored signed, read back as unsigned.
pub fn destination_ids(places: &Vec<i64>) -> (ids: Vec<u64>)
    ensures
        ids@.len() == places@.len(),
        forall|i: int| 0 <= i < ids@.len() ==> ids@[i] == #[trigger] places@[i] as u64,
{
    let mut ids: Vec<u64> = Vec::new();
    let mut i: usize = 0;
    while i < places.len()
        invariant
            i <= places.len(),
            ids@.len() == i,
            forall|j: int| 0 <= j < i ==> ids@[j] == #[trigger] places@[j] as u64,
        decreases places.len() - i,
    {
        ids.push(places[i] as u64);
        i += 1;
    }
    ids
}

/// What happens when a traveller's move ends.
#[derive(Clone, Copy, Debug, PartialEq, Eq, Structural)]
pub enum ArrivalStep {
    /// The traveller is not on the destination's server: send an invite.
    InviteToDestination,
    /// Road and destination share a server: swap the roles in one edit.
    SwapRolesOnOneServer,
    /// Road and destination are on different servers: drop the road's role
    /// on one and add the destination's role on the other.
    SwapRolesAcrossServers,
}

/// Decides how a finished move is completed.
pub fn arrival_step(member_on_destination: bool, road_server_id: u64, destination_server_id: u64) -> (step: ArrivalStep)
    ensures
        !member_on_destination ==> step == ArrivalStep::InviteToDestination,
        member_on_destination && road_server_id == destination_server_id ==> step
            == ArrivalStep::SwapRolesOnOneServer,
        member_on_destination && road_server_id != destination_server_id ==> step
            == ArrivalStep::SwapRolesAcrossServers,
{
    if !member_on_destination {
        ArrivalStep::InviteToDestination
    } else if road_server_id == destination_server_id {
        ArrivalStep::SwapRolesOnOneServer
    } else {
        ArrivalStep::SwapRolesAcrossServers
    }
}

/// How a swap of roles across two servers ends.
#[derive(Clone, Copy, Debug, PartialEq, Eq, Structural)]
pub enum CrossServerArrival {
    /// Both role changes went through: the move is over.
    Finish,
    /// A role change failed: the roles are put back as they were.
    Restore,
}

/// A swap across servers finishes only when both role changes went through.
pub fn cross_server_arrival(road_role_removed: bool, destination_role_added: bool) -> (r: CrossServerArrival)
    ensures
        r == if road_role_removed && destination_role_added {
            CrossServerArrival::Finish
        } else {
            CrossServerArrival::Restore
        },
{
    if road_role_removed && destination_role_added {
        CrossServerArrival::Finish
    } else {
        CrossServerArrival::Restore
    }
}

} // verus!
