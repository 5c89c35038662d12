//! The states of the second mission, and what the mission remembers of the
//! markers and apertures that it has seen.

use std::collections::HashMap;
use vstd::prelude::*;
use vstd::string::{StrSliceExecFns, StringExecFns};
use crate::geometry::{
    are_points_within_distance, get_squared_distance_between_points, squared_distance,
};
use crate::msgs::{DetectedObject, DroneStatus, Point};
use crate::task_manager::Task2Options;

verus! {

/// A marker that perception has read.
#[derive(Debug, PartialEq, Eq)]
pub struct Qr {
    /// Where the marker is, in the map frame.
    pub position: Point,
    /// What the marker says.
    pub content: String,
    /// Whether the marker lies on the floor, and not on a wall.
    pub is_on_floor: bool,
}

impl Clone for Qr {
    fn clone(&self) -> (copy: Qr)
        ensures
            copy == *self,
    {
        Qr {
            position: self.position,
            content: self.content.clone(),
            is_on_floor: self.is_on_floor,
        }
    }
}

impl Qr {
    /// The marker at `position` that says `content`. It lies on the floor
    /// exactly when it is lower than the configured height.
    pub fn new(position: Point, content: String, options: &Task2Options) -> (qr: Qr)
        ensures
            qr.position == position,
            qr.content == content,
            qr.is_on_floor == (position.z < options.max_floor_z),
    {
        let z = position.z;
        Qr { position, content, is_on_floor: z < options.max_floor_z }
    }

    /// Whether this marker lies on the floor and says `content`.
    pub open spec fn is_floor_copy_of(self, content: Seq<char>) -> bool {
        self.is_on_floor && self.content@ == content
    }
}

/// What the second mission remembers.
#[derive(Debug)]
pub struct CorrelationStore {
    pub options: Task2Options,
    /// The markers read in the room at hand, in the order of their reading.
    pub detected_qr_codes: Vec<Qr>,
    /// The apertures that perception has reported last.
    pub detected_holes: Vec<DetectedObject>,
    /// Which marker belongs to which aperture: the index of the marker, under
    /// the identifier of the aperture.
    pub detected_hole_qr_connections: HashMap<usize, usize>,
    /// The same the other way round: the identifier of the aperture, under
    /// the index of the marker.
    pub detected_qr_hole_connections: HashMap<usize, usize>,
    /// What the floor markers of the rooms passed so far say, in the order of
    /// passing.
    pub passed_rooms_numbers: Vec<String>,
}

/// What `key` stands for in `map`, if it stands for anything.
pub open spec fn looked_up(map: Map<usize, usize>, key: usize) -> Option<usize> {
    if map.contains_key(key) {
        Some(map[key])
    } else {
        None
    }
}

/// `map` without the key that `dropped` names, if it names one.
pub open spec fn without(map: Map<usize, usize>, dropped: Option<usize>) -> Map<usize, usize> {
    match dropped {
        Some(key) => map.remove(key),
        None => map,
    }
}

/// The index of the first element of `items` that `wanted` holds of.
pub open spec fn first_index_where<T>(items: Seq<T>, wanted: spec_fn(T) -> bool) -> Option<int>
    decreases items.len(),
{
    if items.len() == 0 {
        None
    } else {
        match first_index_where(items.drop_last(), wanted) {
            Some(index) => Some(index),
            None => if wanted(items.last()) {
                Some(items.len() - 1)
            } else {
                None
            },
        }
    }
}

/// What is found among the first elements of a sequence is what is found in
/// the whole sequence.
pub proof fn lemma_first_index_found_early<T>(
    items: Seq<T>,
    wanted: spec_fn(T) -> bool, checked: int,
)
    requires
        0 <= checked <= items.len(),
        first_index_where(items.take(checked), wanted) is Some,
    ensures
        first_index_where(items, wanted) == first_index_where(items.take(checked), wanted),
    decreases items.len() - checked,
{
    if checked < items.len() {
        assert(items.take(checked + 1).drop_last() == items.take(checked));
        lemma_first_index_found_early(items, wanted, checked + 1);
    } else {
        assert(items.take(checked) == items);
    }
}

/// The index of the point of `points` that is nearest to `target`, if it is
/// no farther from it than `tolerance`: the first such index where several
/// points are equally near.
pub open spec fn nearest_index_within(
    points: Seq<Point>,
    target: Point,
    tolerance: int,
) -> Option<int>
    decreases points.len(),
{
    if points.len() == 0 {
        None
    } else {
        let last = points.len() - 1;
        let is_near = squared_distance(points[last], target) <= tolerance * tolerance;
        match nearest_index_within(points.drop_last(), target, tolerance) {
            Some(index) => if squared_distance(points[last], target) < squared_distance(
                points[index],
                target,
            ) {
                Some(last)
            } else {
                Some(index)
            },
            None => if is_near {
                Some(last)
            } else {
                None
            },
        }
    }
}

/// What `nearest_index_within` finds: the index of a point within the
/// tolerance that no point is nearer than and no earlier point is as near
/// as; and nothing exactly when no point is within the tolerance.
pub proof fn lemma_nearest_index_within(points: Seq<Point>, target: Point, tolerance: int)
    ensures
        match nearest_index_within(points, target, tolerance) {
            Some(index) => {
                &&& 0 <= index < points.len()
                &&& squared_distance(points[index], target) <= tolerance * tolerance
                &&& forall|i: int|
                    0 <= i < points.len() ==> squared_distance(points[index], target)
                        <= squared_distance(#[trigger] points[i], target)
                &&& forall|i: int|
                    0 <= i < index ==> squared_distance(points[index], target) < squared_distance(
                        #[trigger] points[i],
                        target,
                    )
            },
            None => forall|i: int|
                0 <= i < points.len() ==> squared_distance(#[trigger] points[i], target) > tolerance
                    * tolerance,
        },
    decreases points.len(),
{
    if points.len() > 0 {
        lemma_nearest_index_within(points.drop_last(), target, tolerance);
        assert(forall|i: int| 0 <= i < points.len() - 1 ==> points.drop_last()[i] == points[i]);
    }
}

/// The positions of the given markers.
pub open spec fn qr_positions(codes: Seq<Qr>) -> Seq<Point> {
    codes.map_values(|qr: Qr| qr.position)
}

/// The centres of the given apertures.
pub open spec fn hole_positions(holes: Seq<DetectedObject>) -> Seq<Point> {
    holes.map_values(|hole: DetectedObject| hole.pose.position)
}

/// What the given labels say when read one after the other.
pub open spec fn concatenated(labels: Seq<String>) -> Seq<char>
    decreases labels.len(),
{
    if labels.len() == 0 {
        Seq::empty()
    } else {
        concatenated(labels.drop_last()) + labels.last()@
    }
}

/// Whether `qr` has been seen before, going by the markers `codes` read so
/// far. A marker on the floor that says more than two characters counts as
/// seen; a shorter one has been seen if a marker on the floor says the same.
/// A marker on a wall has been seen if a marker was read no farther than
/// `tolerance` from it.
pub open spec fn already_detected(codes: Seq<Qr>, qr: Qr, tolerance: int) -> bool {
    if qr.is_on_floor {
        qr.content@.len() > 2 || exists|i: int|
            0 <= i < codes.len() && (#[trigger] codes[i]).is_floor_copy_of(qr.content@)
    } else {
        exists|i: int|
            0 <= i < codes.len() && squared_distance((#[trigger] codes[i]).position, qr.position)
                <= tolerance * tolerance
    }
}

impl CorrelationStore {
    /// The memory of a mission that has seen nothing yet.
    pub fn new(options: Task2Options) -> (store: CorrelationStore)
        ensures
            store.options == options,
            store.detected_qr_codes@.len() == 0,
            store.detected_holes@.len() == 0,
            store.detected_hole_qr_connections@ == Map::<usize, usize>::empty(),
            store.detected_qr_hole_connections@ == Map::<usize, usize>::empty(),
            store.passed_rooms_numbers@.len() == 0,
            store.well_formed(),
    {
        CorrelationStore {
            options,
            detected_qr_codes: Vec::new(),
            detected_holes: Vec::new(),
            detected_hole_qr_connections: HashMap::new(),
            detected_qr_hole_connections: HashMap::new(),
            passed_rooms_numbers: Vec::new(),
        }
    }

    /// The two records of the connections say the same: an aperture has a
    /// marker exactly when that marker has that aperture. So no marker
    /// belongs to two apertures, and no aperture has two markers.
    pub open spec fn well_formed(self) -> bool {
        &&& forall|hole_id: usize| #[trigger]
            self.detected_hole_qr_connections@.contains_key(hole_id) ==> looked_up(
                self.detected_qr_hole_connections@,
                self.detected_hole_qr_connections@[hole_id],
            ) == Some(hole_id)
        &&& forall|qr_index: usize| #[trigger]
            self.detected_qr_hole_connections@.contains_key(qr_index) ==> looked_up(
                self.detected_hole_qr_connections@,
                self.detected_qr_hole_connections@[qr_index],
            ) == Some(qr_index)
    }

    /// The identifier of the aperture that the marker `qr_index` belongs to.
    pub open spec fn hole_id_of(self, qr_index: usize) -> Option<usize> {
        looked_up(self.detected_qr_hole_connections@, qr_index)
    }

    /// The index of the marker that belongs to the aperture `hole_id`.
    pub open spec fn qr_index_of(self, hole_id: usize) -> Option<usize> {
        looked_up(self.detected_hole_qr_connections@, hole_id)
    }

    /// The aperture with the identifier `hole_id`, as last reported.
    pub open spec fn hole_with_id(self, hole_id: int) -> Option<DetectedObject> {
        match first_index_where(
            self.detected_holes@,
            |hole: DetectedObject| hole.id == hole_id,
        ) {
            Some(index) => Some(self.detected_holes@[index]),
            None => None,
        }
    }

    /// The aperture that the marker `qr_index` belongs to, if it belongs to
    /// one that perception has reported.
    pub open spec fn hole_of_qr(self, qr_index: usize) -> Option<DetectedObject> {
        match self.hole_id_of(qr_index) {
            Some(hole_id) => self.hole_with_id(hole_id as int),
            None => None,
        }
    }

    /// The index of the first marker on the floor that says what the marker
    /// `qr_index` says.
    pub open spec fn floor_qr_like(self, qr_index: int) -> Option<int> {
        if 0 <= qr_index < self.detected_qr_codes@.len() {
            first_index_where(
                self.detected_qr_codes@,
                |qr: Qr| qr.is_floor_copy_of(self.detected_qr_codes@[qr_index].content@),
            )
        } else {
            None
        }
    }

    /// The index of the first marker on the floor that says what the marker
    /// of the aperture `hole_id` says.
    pub open spec fn floor_qr_of_hole(self, hole_id: usize) -> Option<int> {
        match self.qr_index_of(hole_id) {
            Some(qr_index) => self.floor_qr_like(qr_index as int),
            None => None,
        }
    }

    /// Whether the marker `qr_index` says what the floor markers of the rooms
    /// passed so far say, read one after the other: whether it marks the way
    /// back rather than a new room.
    pub open spec fn names_passed_rooms(self, qr_index: int) -> bool {
        0 <= qr_index < self.detected_qr_codes@.len() && self.detected_qr_codes@[qr_index].content@
            == concatenated(self.passed_rooms_numbers@)
    }

    /// The markers of the apertures after the marker `qr_index` has been
    /// tied to the aperture `hole_id`: the aperture that the marker
    /// belonged to before has none now.
    pub open spec fn qrs_of_holes_with(self, hole_id: usize, qr_index: usize) -> Map<usize, usize> {
        without(self.detected_hole_qr_connections@, self.hole_id_of(qr_index)).insert(
            hole_id,
            qr_index,
        )
    }

    /// The apertures of the markers after the marker `qr_index` has been
    /// tied to the aperture `hole_id`: the marker that the aperture had
    /// before has none now.
    pub open spec fn holes_of_qrs_with(self, hole_id: usize, qr_index: usize) -> Map<usize, usize> {
        without(self.detected_qr_hole_connections@, self.qr_index_of(hole_id)).insert(
            qr_index,
            hole_id,
        )
    }
}

/// Whether `qr` has been seen before, going by what `store` remembers.
fn is_known(store: &CorrelationStore, qr: &Qr) -> (known: bool)
    ensures
        known == already_detected(
            store.detected_qr_codes@,
            *qr,
            store.options.max_qr_distance_tolerance as int,
        ),
{
    let codes = &store.detected_qr_codes;
    let mut index: usize = 0;
    if qr.is_on_floor {
        if qr.content.as_str().unicode_len() > 2 {
            return true;
        }
        while index < codes.len()
            invariant
                index <= codes.len(),
                qr.is_on_floor,
                qr.content@.len() <= 2,
                codes@ == store.detected_qr_codes@,
                forall|i: int| 0 <= i < index ==> !(#[trigger] codes[i]).is_floor_copy_of(qr.content@),
            decreases codes.len() - index,
        {
            if codes[index].is_on_floor && codes[index].content == qr.content {
                return true;
            }
            index += 1;
        }
        false
    } else {
        let tolerance = store.options.max_qr_distance_tolerance;
        while index < codes.len()
            invariant
                index <= codes.len(),
                !qr.is_on_floor,
                codes@ == store.detected_qr_codes@,
                tolerance == store.options.max_qr_distance_tolerance,
                forall|i: int|
                    0 <= i < index ==> squared_distance((#[trigger] codes[i]).position, qr.position)
                        > tolerance * tolerance,
            decreases codes.len() - index,
        {
            if are_points_within_distance(&codes[index].position, &qr.position, tolerance) {
                return true;
            }
            index += 1;
        }
        false
    }
}

/// Remembers `qr` as the latest marker read, and says which index it has
/// from now on.
pub fn add_qr(store: &mut CorrelationStore, qr: Qr) -> (index: usize)
    ensures
        index == old(store).detected_qr_codes@.len(),
        final(store).detected_qr_codes@ == old(store).detected_qr_codes@.push(qr),
        final(store).options == old(store).options,
        final(store).detected_holes == old(store).detected_holes,
        final(store).detected_hole_qr_connections == old(store).detected_hole_qr_connections,
        final(store).detected_qr_hole_connections == old(store).detected_qr_hole_connections,
        final(store).passed_rooms_numbers == old(store).passed_rooms_numbers,
{
    store.detected_qr_codes.push(qr);
    store.detected_qr_codes.len() - 1
}

/// Whether `qr` has been seen before. A marker that has not is remembered
/// as the latest marker read, so that it has been seen from now on: asked
/// twice about one marker that is new, the answer is no and then yes.
pub fn is_qr_already_detected(store: &mut CorrelationStore, qr: &Qr) -> (detected: bool)
    ensures
        detected == already_detected(
            old(store).detected_qr_codes@,
            *qr,
            old(store).options.max_qr_distance_tolerance as int,
        ),
        detected ==> *final(store) == *old(store),
        !detected ==> final(store).detected_qr_codes@ == old(store).detected_qr_codes@.push(*qr),
        already_detected(
            final(store).detected_qr_codes@,
            *qr,
            final(store).options.max_qr_distance_tolerance as int,
        ),
        final(store).options == old(store).options,
        final(store).detected_holes == old(store).detected_holes,
        final(store).detected_hole_qr_connections == old(store).detected_hole_qr_connections,
        final(store).detected_qr_hole_connections == old(store).detected_qr_hole_connections,
        final(store).passed_rooms_numbers == old(store).passed_rooms_numbers,
{
    let detected = is_known(store, qr);
    if !detected {
        proof {
            lemma_remembered_qr_is_detected(
                store.detected_qr_codes@,
                *qr,
                store.options.max_qr_distance_tolerance as int,
            );
        }
        add_qr(store, qr.clone());
    }
    detected
}

/// What `key` stands for in `map`, if it stands for anything.
fn look_up(map: &HashMap<usize, usize>, key: usize) -> (found: Option<usize>)
    ensures
        found == looked_up(map@, key),
{
    broadcast use vstd::std_specs::hash::group_hash_axioms;

    match map.get(&key) {
        Some(value) => Some(*value),
        None => None,
    }
}

/// Remembers that the marker `qr_index` belongs to the aperture `hole_id`.
/// What tied either of them before is forgotten, so that no marker belongs
/// to two apertures and no aperture has two markers.
pub fn add_hole_qr_connection(store: &mut CorrelationStore, hole_id: usize, qr_index: usize)
    ensures
        final(store).detected_hole_qr_connections@ == old(store).qrs_of_holes_with(
            hole_id,
            qr_index,
        ),
        final(store).detected_qr_hole_connections@ == old(store).holes_of_qrs_with(
            hole_id,
            qr_index,
        ),
        final(store).qr_index_of(hole_id) == Some(qr_index),
        final(store).hole_id_of(qr_index) == Some(hole_id),
        old(store).well_formed() ==> final(store).well_formed(),
        final(store).options == old(store).options,
        final(store).detected_qr_codes == old(store).detected_qr_codes,
        final(store).detected_holes == old(store).detected_holes,
        final(store).passed_rooms_numbers == old(store).passed_rooms_numbers,
{
    broadcast use vstd::std_specs::hash::group_hash_axioms;

    let earlier_qr = look_up(&store.detected_hole_qr_connections, hole_id);
    let earlier_hole = look_up(&store.detected_qr_hole_connections, qr_index);
    if let Some(earlier_qr) = earlier_qr {
        store.detected_qr_hole_connections.remove(&earlier_qr);
    }
    if let Some(earlier_hole) = earlier_hole {
        store.detected_hole_qr_connections.remove(&earlier_hole);
    }
    store.detected_hole_qr_connections.insert(hole_id, qr_index);
    store.detected_qr_hole_connections.insert(qr_index, hole_id);
}

/// The index of the point of `points` that is nearest to `target`, if it is
/// no farther from it than `tolerance`; the first of several that are
/// equally near.
fn find_nearest_within(points: &Vec<Point>, target: &Point, tolerance: u32) -> (nearest: Option<usize>)
    ensures
        match nearest {
            Some(index) => nearest_index_within(points@, *target, tolerance as int) == Some(
                index as int,
            ) && index < points.len(),
            None => nearest_index_within(points@, *target, tolerance as int).is_none(),
        },
{
    let mut nearest: Option<usize> = None;
    let mut nearest_distance: u128 = 0;
    let mut index: usize = 0;
    while index < points.len()
        invariant
            index <= points.len(),
            match nearest_index_within(points@.take(index as int), *target, tolerance as int) {
                Some(found) => nearest == Some(found as usize) && 0 <= found < index
                    && nearest_distance == squared_distance(points[found], *target),
                None => nearest.is_none(),
            },
        decreases points.len() - index,
    {
        let distance = get_squared_distance_between_points(&points[index], target);
        proof {
            assert(points@.take(index + 1).drop_last() == points@.take(index as int));
            lemma_nearest_index_within(points@.take(index as int), *target, tolerance as int);
            assert((tolerance as int) * (tolerance as int) <= 0x1_0000_0000 * 0x1_0000_0000)
                by (nonlinear_arith)
                requires
                    0 <= tolerance <= 0xFFFF_FFFF,
            ;
        }
        match nearest {
            Some(_) => {
                if distance < nearest_distance {
                    nearest = Some(index);
                    nearest_distance = distance;
                }
            },
            None => {
                if distance <= (tolerance as u128) * (tolerance as u128) {
                    nearest = Some(index);
                    nearest_distance = distance;
                }
            },
        }
        index += 1;
    }
    assert(points@.take(index as int) == points@);
    nearest
}

/// The aperture that `qr` belongs to: the one, of those that perception has
/// reported last, whose centre is nearest to the marker, if it is within the
/// configured distance; the earliest reported of several that are equally
/// near.
pub fn find_connected_hole(store: &CorrelationStore, qr: &Qr) -> (connected: Option<DetectedObject>)
    ensures
        connected == match nearest_index_within(
            hole_positions(store.detected_holes@),
            qr.position,
            store.options.max_association_distance as int,
        ) {
            Some(index) => Some(store.detected_holes@[index]),
            None => None,
        },
{
    let holes = &store.detected_holes;
    let mut centres: Vec<Point> = Vec::new();
    let mut index: usize = 0;
    while index < holes.len()
        invariant
            index <= holes.len(),
            centres@ == hole_positions(holes@.take(index as int)),
        decreases holes.len() - index,
    {
        centres.push(holes[index].pose.position);
        index += 1;
        assert(centres@ == hole_positions(holes@.take(index as int)));
    }
    assert(holes@.take(index as int) == holes@);
    match find_nearest_within(&centres, &qr.position, store.options.max_association_distance) {
        Some(found) => Some(holes[found]),
        None => None,
    }
}

/// The index of the marker that `hole` belongs to: the one, of those read in
/// the room at hand, that is nearest to the centre of the aperture, if it is
/// within the configured distance; the earliest read of several that are
/// equally near.
pub fn find_connected_qr(store: &CorrelationStore, hole: &DetectedObject) -> (connected: Option<usize>)
    ensures
        match connected {
            Some(index) => nearest_index_within(
                qr_positions(store.detected_qr_codes@),
                hole.pose.position,
                store.options.max_association_distance as int,
            ) == Some(index as int),
            None => nearest_index_within(
                qr_positions(store.detected_qr_codes@),
                hole.pose.position,
                store.options.max_association_distance as int,
            ).is_none(),
        },
{
    let codes = &store.detected_qr_codes;
    let mut places: Vec<Point> = Vec::new();
    let mut index: usize = 0;
    while index < codes.len()
        invariant
            index <= codes.len(),
            places@ == qr_positions(codes@.take(index as int)),
        decreases codes.len() - index,
    {
        places.push(codes[index].position);
        index += 1;
        assert(places@ == qr_positions(codes@.take(index as int)));
    }
    assert(codes@.take(index as int) == codes@);
    find_nearest_within(&places, &hole.pose.position, store.options.max_association_distance)
}

/// The aperture with the identifier `hole_id`, as last reported.
fn get_hole_with_id(store: &CorrelationStore, hole_id: usize) -> (hole: Option<DetectedObject>)
    ensures
        hole == store.hole_with_id(hole_id as int),
{
    let holes = &store.detected_holes;
    let ghost wanted = |hole: DetectedObject| hole.id == hole_id as int;
    let mut index: usize = 0;
    while index < holes.len()
        invariant
            index <= holes.len(),
            holes@ == store.detected_holes@,
            wanted == |hole: DetectedObject| hole.id == hole_id as int,
            first_index_where(holes@.take(index as int), wanted) is None,
        decreases holes.len() - index,
    {
        proof {
            assert(holes@.take(index + 1).drop_last() == holes@.take(index as int));
        }
        if holes[index].id == hole_id {
            proof {
                lemma_first_index_found_early(holes@, wanted, index + 1);
            }
            return Some(holes[index]);
        }
        index += 1;
    }
    assert(holes@.take(index as int) == holes@);
    None
}

/// The aperture that the marker `qr_index` belongs to, if it belongs to one
/// that perception has reported.
pub fn match_qr_index_with_hole(
    store: &CorrelationStore,
    qr_index: usize,
) -> (hole: Option<DetectedObject>)
    ensures
        hole == store.hole_of_qr(qr_index),
{
    match look_up(&store.detected_qr_hole_connections, qr_index) {
        Some(hole_id) => get_hole_with_id(store, hole_id),
        None => None,
    }
}

/// What the given labels say when read one after the other.
fn join(labels: &Vec<String>) -> (joined: String)
    ensures
        joined@ == concatenated(labels@),
{
    let mut joined = String::new();
    let mut index: usize = 0;
    while index < labels.len()
        invariant
            index <= labels.len(),
            joined@ == concatenated(labels@.take(index as int)),
        decreases labels.len() - index,
    {
        proof {
            assert(labels@.take(index + 1).drop_last() == labels@.take(index as int));
        }
        joined.append(labels[index].as_str());
        index += 1;
    }
    assert(labels@.take(index as int) == labels@);
    joined
}

/// The marker `qr_index`, if it says what the floor markers of the rooms
/// passed so far say, read one after the other; and nothing otherwise, or
/// where there is no such marker.
pub fn match_qr_index_with_passed_rooms(
    store: &CorrelationStore,
    qr_index: usize,
) -> (way_back: Option<Qr>)
    ensures
        store.names_passed_rooms(qr_index as int) ==> way_back == Some(
            store.detected_qr_codes@[qr_index as int],
        ),
        !store.names_passed_rooms(qr_index as int) ==> way_back.is_none(),
{
    if qr_index >= store.detected_qr_codes.len() {
        return None;
    }
    let qr = &store.detected_qr_codes[qr_index];
    let passed_rooms_number = join(&store.passed_rooms_numbers);
    if qr.content == passed_rooms_number {
        Some(qr.clone())
    } else {
        None
    }
}

/// The index of the first marker on the floor that says what the marker
/// `qr_index` says; and nothing where there is none, or no marker
/// `qr_index`.
pub fn match_qr_index_with_qr_on_floor(
    store: &CorrelationStore,
    qr_index: usize,
) -> (on_floor: Option<usize>)
    ensures
        match on_floor {
            Some(index) => store.floor_qr_like(qr_index as int) == Some(index as int),
            None => store.floor_qr_like(qr_index as int).is_none(),
        },
{
    let codes = &store.detected_qr_codes;
    if qr_index >= codes.len() {
        return None;
    }
    let qr_content = &codes[qr_index].content;
    let ghost wanted = |qr: Qr| qr.is_floor_copy_of(codes@[qr_index as int].content@);
    let mut index: usize = 0;
    while index < codes.len()
        invariant
            index <= codes.len(),
            qr_index < codes.len(),
            codes@ == store.detected_qr_codes@,
            qr_content@ == codes@[qr_index as int].content@,
            wanted == |qr: Qr| qr.is_floor_copy_of(codes@[qr_index as int].content@),
            first_index_where(codes@.take(index as int), wanted) is None,
        decreases codes.len() - index,
    {
        proof {
            assert(codes@.take(index + 1).drop_last() == codes@.take(index as int));
        }
        if codes[index].is_on_floor && codes[index].content == *qr_content {
            proof {
                lemma_first_index_found_early(codes@, wanted, index + 1);
            }
            return Some(index);
        }
        index += 1;
    }
    assert(codes@.take(index as int) == codes@);
    None
}

/// The index of the first marker on the floor that says what the marker of
/// the aperture `hole_id` says; and nothing where the aperture has no marker
/// or no marker on the floor says the same.
pub fn match_hole_id_with_qr_on_floor(
    store: &CorrelationStore,
    hole_id: usize,
) -> (on_floor: Option<usize>)
    ensures
        match on_floor {
            Some(index) => store.floor_qr_of_hole(hole_id) == Some(index as int),
            None => store.floor_qr_of_hole(hole_id).is_none(),
        },
{
    match look_up(&store.detected_hole_qr_connections, hole_id) {
        Some(qr_index) => match_qr_index_with_qr_on_floor(store, qr_index),
        None => None,
    }
}

/// A marker that was not seen before is seen once it is remembered.
pub proof fn lemma_remembered_qr_is_detected(codes: Seq<Qr>, qr: Qr, tolerance: int)
    requires
        !already_detected(codes, qr, tolerance),
    ensures
        already_detected(codes.push(qr), qr, tolerance),
{
    // The marker itself is the witness: it is the last of those remembered.
    assert(codes.push(qr)[codes.len() as int] == qr);
    assert(tolerance * tolerance >= 0) by (nonlinear_arith);
}

/// On the ground, before the mission.
#[derive(Clone, Copy, Debug, PartialEq, Eq, Structural)]
pub struct WaitingForCommand {}

/// Looking around the room at hand.
#[derive(Clone, Copy, Debug, PartialEq, Eq, Structural)]
pub struct Exploring {}

/// On the way through an aperture into the next room.
#[derive(Clone, Copy, Debug, PartialEq, Eq, Structural)]
pub struct FlyingIntoHole {}

/// On the way to the place to land on.
#[derive(Clone, Copy, Debug, PartialEq, Eq, Structural)]
pub struct FlyingToLandingPoint {}

/// Coming down.
#[derive(Clone, Copy, Debug, PartialEq, Eq, Structural)]
pub struct Landing {}

/// The state of the second mission. `Error` is entered by an event that the
/// state at hand has no transition for, and is never left.
#[derive(Clone, Copy, Debug, PartialEq, Eq, Structural)]
pub enum Task2DroneState {
    Error,
    WaitingForCommand(WaitingForCommand),
    Exploring(Exploring),
    FlyingIntoHole(FlyingIntoHole),
    FlyingToLandingPoint(FlyingToLandingPoint),
    Landing(Landing),
}

impl Task2DroneState {
    /// The state after a wrong transition.
    pub fn error() -> (state: Task2DroneState)
        ensures
            state == Task2DroneState::Error,
    {
        Task2DroneState::Error
    }

    /// The state `WaitingForCommand`.
    pub fn waiting_for_command() -> (state: Task2DroneState)
        ensures
            state == Task2DroneState::WaitingForCommand(WaitingForCommand {  }),
    {
        Task2DroneState::WaitingForCommand(WaitingForCommand {  })
    }

    /// The state `Exploring`.
    pub fn exploring() -> (state: Task2DroneState)
        ensures
            state == Task2DroneState::Exploring(Exploring {  }),
    {
        Task2DroneState::Exploring(Exploring {  })
    }

    /// The state `FlyingIntoHole`.
    pub fn flying_into_hole() -> (state: Task2DroneState)
        ensures
            state == Task2DroneState::FlyingIntoHole(FlyingIntoHole {  }),
    {
        Task2DroneState::FlyingIntoHole(FlyingIntoHole {  })
    }

    /// The state `FlyingToLandingPoint`.
    pub fn flying_to_landing_point() -> (state: Task2DroneState)
        ensures
            state == Task2DroneState::FlyingToLandingPoint(FlyingToLandingPoint {  }),
    {
        Task2DroneState::FlyingToLandingPoint(FlyingToLandingPoint {  })
    }

    /// The state `Landing`.
    pub fn landing() -> (state: Task2DroneState)
        ensures
            state == Task2DroneState::Landing(Landing {  }),
    {
        Task2DroneState::Landing(Landing {  })
    }

    /// Whether the vehicle is looking around a room.
    pub fn is_exploring(&self) -> (exploring: bool)
        ensures
            exploring == (self is Exploring),
    {
        match self {
            Task2DroneState::Exploring(_) => true,
            _ => false,
        }
    }

    /// What an observer is told of the state.
    pub open spec fn description(self) -> Seq<char> {
        match self {
            Task2DroneState::FlyingIntoHole(_) => "Drone is flying into the hole..."@,
            Task2DroneState::FlyingToLandingPoint(_) => "Drone is flying to landing point..."@,
            Task2DroneState::Error => "Drone state is invalid due to wrong transition!"@,
            Task2DroneState::WaitingForCommand(_) => "Drone is waiting for commands..."@,
            Task2DroneState::Landing(_) => "Drone is landing..."@,
            Task2DroneState::Exploring(_) => "Drone is exploring..."@,
        }
    }

    /// What to tell an observer of the state: its description, marked as an
    /// error exactly for `Error`.
    pub fn status(&self) -> (status: DroneStatus)
        ensures
            status.state@ == self.description(),
            status.is_error == (self is Error),
    {
        let state = match self {
            Task2DroneState::FlyingIntoHole(_) => "Drone is flying into the hole...",
            Task2DroneState::FlyingToLandingPoint(_) => "Drone is flying to landing point...",
            Task2DroneState::Error => "Drone state is invalid due to wrong transition!",
            Task2DroneState::WaitingForCommand(_) => "Drone is waiting for commands...",
            Task2DroneState::Landing(_) => "Drone is landing...",
            Task2DroneState::Exploring(_) => "Drone is exploring...",
        };
        let is_error = match self {
            Task2DroneState::Error => true,
            _ => false,
        };
        DroneStatus { state: String::from_str(state), is_error }
    }
}

/// Puts the mission into `state`, and says what to tell an observer: the
/// description of the new state, marked as an error exactly for `Error`.
pub fn set_drone_state(
    current: &mut Task2DroneState,
    state: Task2DroneState,
) -> (status: DroneStatus)
    ensures
        *final(current) == state,
        status.state@ == state.description(),
        status.is_error == (state is Error),
{
    *current = state;
    state.status()
}

/// The state that the mission is in.
pub fn get_drone_state(current: &Task2DroneState) -> (state: Task2DroneState)
    ensures
        state == *current,
{
    *current
}

} // verus!
