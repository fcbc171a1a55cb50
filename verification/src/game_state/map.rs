//! The world map: areas grouped into regions and linked by sea routes,
//! and the ship's position on it.

use iter_tools::Itertools;

use vstd::prelude::*;

use crate::error::GameError;
use crate::game_state::storybook::{Storybook, StoryModel};

verus! {

/// The mathematical content of one area.
#[verifier::ext_equal]
pub ghost struct AreaModel {
    pub region: u32,
    pub ports: Seq<u32>,
}

/// One area of the map: the region it belongs to and the ports it holds.
pub struct Area {
    pub region: u32,
    pub ports: Vec<u32>,
}

impl View for Area {
    type V = AreaModel;

    open spec fn view(&self) -> AreaModel {
        AreaModel { region: self.region, ports: self.ports@ }
    }
}

impl DeepView for Area {
    type V = AreaModel;

    open spec fn deep_view(&self) -> AreaModel {
        self.view()
    }
}

impl Clone for Area {
    fn clone(&self) -> (r: Self)
        ensures
            r@ == self@,
    {
        Area { region: self.region, ports: self.ports.clone() }
    }
}

/// The mathematical content of the map data.
#[verifier::ext_equal]
pub ghost struct MapDataModel {
    pub areas: Seq<(u32, AreaModel)>,
    pub area_graph: Seq<(u32, Seq<u32>)>,
}

/// The static map data: the areas by index, and which areas are
/// adjacent to which.
pub struct MapData {
    pub areas: Vec<(u32, Area)>,
    pub area_graph: Vec<(u32, Vec<u32>)>,
}

impl View for MapData {
    type V = MapDataModel;

    open spec fn view(&self) -> MapDataModel {
        MapDataModel { areas: self.areas.deep_view(), area_graph: self.area_graph.deep_view() }
    }
}

impl DeepView for MapData {
    type V = MapDataModel;

    open spec fn deep_view(&self) -> MapDataModel {
        self.view()
    }
}

/// Looks an area index up among the entries, front to back.
pub open spec fn spec_lookup_area(areas: Seq<(u32, AreaModel)>, ix: u32) -> Option<AreaModel>
    decreases areas.len(),
{
    if areas.len() == 0 {
        None
    } else if areas.first().0 == ix {
        Some(areas.first().1)
    } else {
        spec_lookup_area(areas.drop_first(), ix)
    }
}

/// Looks an area index up in the adjacency entries, front to back.
pub open spec fn spec_lookup_graph(graph: Seq<(u32, Seq<u32>)>, ix: u32) -> Option<Seq<u32>>
    decreases graph.len(),
{
    if graph.len() == 0 {
        None
    } else if graph.first().0 == ix {
        Some(graph.first().1)
    } else {
        spec_lookup_graph(graph.drop_first(), ix)
    }
}

/// The indices of the areas lying in `region`, in entry order.
pub open spec fn spec_areas_in_region(areas: Seq<(u32, AreaModel)>, region: u32) -> Seq<u32>
    decreases areas.len(),
{
    if areas.len() == 0 {
        Seq::empty()
    } else {
        let rest = spec_areas_in_region(areas.drop_first(), region);
        if areas.first().1.region == region {
            seq![areas.first().0] + rest
        } else {
            rest
        }
    }
}

/// The concatenation of the adjacency lists of `ixs`, in order, or
/// `None` when some index has no adjacency entry.
pub open spec fn spec_adjacent_concat(graph: Seq<(u32, Seq<u32>)>, ixs: Seq<u32>) -> Option<
    Seq<u32>,
>
    decreases ixs.len(),
{
    if ixs.len() == 0 {
        Some(Seq::empty())
    } else {
        match (spec_lookup_graph(graph, ixs.first()), spec_adjacent_concat(
            graph,
            ixs.drop_first(),
        )) {
            (Some(adjacent), Some(rest)) => Some(adjacent + rest),
            _ => None,
        }
    }
}

/// The concatenation of the port lists of the areas at `ixs`, in order,
/// or `None` when some index has no area entry.
pub open spec fn spec_ports_concat(areas: Seq<(u32, AreaModel)>, ixs: Seq<u32>) -> Option<Seq<u32>>
    decreases ixs.len(),
{
    if ixs.len() == 0 {
        Some(Seq::empty())
    } else {
        match (spec_lookup_area(areas, ixs.first()), spec_ports_concat(areas, ixs.drop_first())) {
            (Some(area), Some(rest)) => Some(area.ports + rest),
            _ => None,
        }
    }
}

/// The sequence with later repetitions removed: each value keeps its
/// first occurrence, in order.
pub open spec fn dedup_first(s: Seq<u32>) -> Seq<u32>
    decreases s.len(),
{
    if s.len() == 0 {
        Seq::empty()
    } else {
        let front = dedup_first(s.drop_last());
        if front.contains(s.last()) {
            front
        } else {
            front.push(s.last())
        }
    }
}

/// Relies on iter_tools' `Itertools::unique` (a re-export of itertools):
/// it yields each value once, keeping the first occurrence of each, in
/// the order they occur in the input.
#[verifier::external_body]
fn unique_u32(v: &Vec<u32>) -> (r: Vec<u32>)
    ensures
        r@ == dedup_first(v@),
{
    v.iter().cloned().unique().collect()
}

impl MapData {
    /// Looks an area up by its index.
    pub fn lookup_area(&self, ix: u32) -> (r: Option<&Area>)
        ensures
            match r {
                Some(area) => spec_lookup_area(self@.areas, ix) == Some(area@),
                None => spec_lookup_area(self@.areas, ix) is None,
            },
    {
        proof {
            assert(self@.areas.skip(0) =~= self@.areas);
        }
        let mut i: usize = 0;
        while i < self.areas.len()
            invariant
                i <= self.areas@.len(),
                self@.areas.len() == self.areas@.len(),
                spec_lookup_area(self@.areas, ix) == spec_lookup_area(
                    self@.areas.skip(i as int),
                    ix,
                ),
            decreases self.areas@.len() - i,
        {
            proof {
                assert(self@.areas.skip(i as int).first() == self@.areas[i as int]);
                assert(self@.areas.skip(i as int).drop_first() =~= self@.areas.skip(i as int + 1));
            }
            if self.areas[i].0 == ix {
                return Some(&self.areas[i].1);
            }
            i += 1;
        }
        proof {
            assert(self@.areas.skip(i as int).len() == 0);
        }
        None
    }

    /// The indices of the areas lying in `region`, in entry order.
    pub fn areas_in_region(&self, region: u32) -> (r: Vec<u32>)
        ensures
            r@ == spec_areas_in_region(self@.areas, region),
    {
        proof {
            assert(self@.areas.skip(0) =~= self@.areas);
        }
        let mut acc: Vec<u32> = Vec::new();
        let mut i: usize = 0;
        while i < self.areas.len()
            invariant
                i <= self.areas@.len(),
                self@.areas.len() == self.areas@.len(),
                spec_areas_in_region(self@.areas, region) == acc@ + spec_areas_in_region(
                    self@.areas.skip(i as int),
                    region,
                ),
            decreases self.areas@.len() - i,
        {
            proof {
                assert(self@.areas.skip(i as int).first() == self@.areas[i as int]);
                assert(self@.areas.skip(i as int).drop_first() =~= self@.areas.skip(i as int + 1));
            }
            let ghost prev = acc@;
            if self.areas[i].1.region == region {
                acc.push(self.areas[i].0);
                proof {
                    assert(acc@ + spec_areas_in_region(self@.areas.skip(i as int + 1), region)
                        =~= prev + (seq![self@.areas[i as int].0] + spec_areas_in_region(
                        self@.areas.skip(i as int + 1),
                        region,
                    )));
                }
            }
            i += 1;
        }
        proof {
            assert(spec_areas_in_region(self@.areas.skip(i as int), region) =~= Seq::<u32>::empty());
            assert(acc@ + Seq::<u32>::empty() =~= acc@);
        }
        acc
    }

    /// The adjacency list of an area, or an error when the area has no
    /// entry in the route graph.
    pub fn adjacent_areas(&self, area: u32) -> (r: Result<Vec<u32>, GameError>)
        ensures
            match r {
                Ok(adjacent) => spec_lookup_graph(self@.area_graph, area) == Some(adjacent@),
                Err(e) => e == GameError::AreaNotFound && spec_lookup_graph(
                    self@.area_graph,
                    area,
                ) is None,
            },
    {
        proof {
            assert(self@.area_graph.skip(0) =~= self@.area_graph);
        }
        let mut i: usize = 0;
        while i < self.area_graph.len()
            invariant
                i <= self.area_graph@.len(),
                self@.area_graph.len() == self.area_graph@.len(),
                spec_lookup_graph(self@.area_graph, area) == spec_lookup_graph(
                    self@.area_graph.skip(i as int),
                    area,
                ),
            decreases self.area_graph@.len() - i,
        {
            proof {
                assert(self@.area_graph.skip(i as int).first() == self@.area_graph[i as int]);
                assert(self@.area_graph.skip(i as int).drop_first() =~= self@.area_graph.skip(
                    i as int + 1,
                ));
            }
            if self.area_graph[i].0 == area {
                return Ok(self.area_graph[i].1.clone());
            }
            i += 1;
        }
        proof {
            assert(self@.area_graph.skip(i as int).len() == 0);
        }
        Err(GameError::AreaNotFound)
    }
}

impl Clone for MapData {
    fn clone(&self) -> (r: Self)
        ensures
            r@ == self@,
    {
        let mut areas: Vec<(u32, Area)> = Vec::new();
        let mut i: usize = 0;
        while i < self.areas.len()
            invariant
                i <= self.areas@.len(),
                areas@.len() == i,
                forall|j: int|
                    0 <= j < i ==> (#[trigger] areas@[j]).deep_view() == self.areas@[j].deep_view(),
            decreases self.areas@.len() - i,
        {
            let entry = &self.areas[i];
            areas.push((entry.0, entry.1.clone()));
            i += 1;
        }
        let mut area_graph: Vec<(u32, Vec<u32>)> = Vec::new();
        let mut i: usize = 0;
        while i < self.area_graph.len()
            invariant
                i <= self.area_graph@.len(),
                area_graph@.len() == i,
                forall|j: int|
                    0 <= j < i ==> (#[trigger] area_graph@[j]).deep_view()
                        == self.area_graph@[j].deep_view(),
            decreases self.area_graph@.len() - i,
        {
            let entry = &self.area_graph[i];
            area_graph.push((entry.0, entry.1.clone()));
            i += 1;
        }
        let r = MapData { areas, area_graph };
        proof {
            assert(r.areas.deep_view() =~= self.areas.deep_view());
            assert(r.area_graph.deep_view() =~= self.area_graph.deep_view());
            assert(r@ =~= self@);
        }
        r
    }
}

/// The mathematical content of the whole map.
#[verifier::ext_equal]
pub ghost struct GameMapModel {
    pub ship_area: u32,
    pub map_data: MapDataModel,
    pub storybook: Seq<(u32, StoryModel)>,
}

/// The world map plus the ship's position and the storybook the ports
/// lead into.
pub struct GameMap {
    pub ship_area: u32,
    pub map_data: MapData,
    pub storybook: Storybook,
}

impl View for GameMap {
    type V = GameMapModel;

    open spec fn view(&self) -> GameMapModel {
        GameMapModel {
            ship_area: self.ship_area,
            map_data: self.map_data@,
            storybook: self.storybook@,
        }
    }
}

impl DeepView for GameMap {
    type V = GameMapModel;

    open spec fn deep_view(&self) -> GameMapModel {
        self.view()
    }
}

impl Clone for GameMap {
    fn clone(&self) -> (r: Self)
        ensures
            r@ == self@,
    {
        GameMap {
            ship_area: self.ship_area,
            map_data: self.map_data.clone(),
            storybook: self.storybook.clone(),
        }
    }
}

impl GameMap {
    /// The region the ship currently lies in, or an error when the
    /// ship's area has no entry (an incomplete map is reported, not
    /// trusted).
    pub fn current_region(&self) -> (r: Result<u32, GameError>)
        ensures
            match r {
                Ok(region) => spec_lookup_area(self@.map_data.areas, self.ship_area)
                    matches Some(area) && area.region == region,
                Err(e) => e == GameError::AreaNotFound && spec_lookup_area(
                    self@.map_data.areas,
                    self.ship_area,
                ) is None,
            },
    {
        match self.map_data.lookup_area(self.ship_area) {
            Some(area) => Ok(area.region),
            None => Err(GameError::AreaNotFound),
        }
    }
}

/// The mathematical content of the client's view of the map.
#[verifier::ext_equal]
pub ghost struct SerialMapModel {
    pub ship_area: u32,
    pub adjacent_areas: Seq<u32>,
    pub adjacent_ports: Seq<u32>,
    pub visible_areas: Seq<u32>,
    pub visible_ports: Seq<u32>,
    pub current_region: u32,
}

/// The map as presented to the client: the ship's position, what lies
/// next to it, and what is visible from the current region.
pub struct SerialMap {
    pub ship_area: u32,
    pub adjacent_areas: Vec<u32>,
    pub adjacent_ports: Vec<u32>,
    pub visible_areas: Vec<u32>,
    pub visible_ports: Vec<u32>,
    pub current_region: u32,
}

impl View for SerialMap {
    type V = SerialMapModel;

    open spec fn view(&self) -> SerialMapModel {
        SerialMapModel {
            ship_area: self.ship_area,
            adjacent_areas: self.adjacent_areas@,
            adjacent_ports: self.adjacent_ports@,
            visible_areas: self.visible_areas@,
            visible_ports: self.visible_ports@,
            current_region: self.current_region,
        }
    }
}

impl DeepView for SerialMap {
    type V = SerialMapModel;

    open spec fn deep_view(&self) -> SerialMapModel {
        self.view()
    }
}

/// The client's view of a map: the areas visible are those of the
/// ship's region plus every area adjacent to one of them, each listed
/// once; the ports visible are those of the region's areas.
pub open spec fn spec_serial_map(m: GameMapModel) -> Option<SerialMapModel> {
    match (spec_lookup_area(m.map_data.areas, m.ship_area), spec_lookup_graph(
        m.map_data.area_graph,
        m.ship_area,
    )) {
        (Some(ship_area_data), Some(adjacent_areas)) => {
            let area_ixs = spec_areas_in_region(m.map_data.areas, ship_area_data.region);
            match (spec_adjacent_concat(m.map_data.area_graph, area_ixs), spec_ports_concat(
                m.map_data.areas,
                area_ixs,
            )) {
                (Some(all_adjacent), Some(visible_ports)) => Some(
                    SerialMapModel {
                        ship_area: m.ship_area,
                        adjacent_areas,
                        adjacent_ports: ship_area_data.ports,
                        visible_areas: dedup_first(area_ixs + all_adjacent),
                        visible_ports,
                        current_region: ship_area_data.region,
                    },
                ),
                _ => None,
            }
        },
        _ => None,
    }
}

impl SerialMap {
    /// Projects the client's view out of the map, or reports an
    /// incomplete map.
    #[verifier::loop_isolation(false)]
    pub fn from_map(map: &GameMap) -> (r: Result<SerialMap, GameError>)
        ensures
            match r {
                Ok(sm) => spec_serial_map(map@) == Some(sm@),
                Err(e) => e == GameError::AreaNotFound && spec_serial_map(map@) is None,
            },
    {
        let ship_area_data = match map.map_data.lookup_area(map.ship_area) {
            Some(area) => area,
            None => {
                return Err(GameError::AreaNotFound);
            },
        };
        let adjacent_areas = match map.map_data.adjacent_areas(map.ship_area) {
            Ok(adjacent) => adjacent,
            Err(e) => {
                return Err(e);
            },
        };
        let current_region = ship_area_data.region;
        let adjacent_ports = ship_area_data.ports.clone();
        let area_ixs = map.map_data.areas_in_region(current_region);

        // Concatenate the adjacency lists of every area in the region.
        let ghost graph = map@.map_data.area_graph;
        let mut all_adjacent: Vec<u32> = Vec::new();
        let mut i: usize = 0;
        proof {
            assert(area_ixs@.skip(0) =~= area_ixs@);
            assert(Seq::<u32>::empty() + spec_adjacent_concat(graph, area_ixs@).unwrap()
                =~= spec_adjacent_concat(graph, area_ixs@).unwrap());
        }
        while i < area_ixs.len()
            invariant
                i <= area_ixs@.len(),
                match spec_adjacent_concat(graph, area_ixs@.skip(i as int)) {
                    Some(rest) => spec_adjacent_concat(graph, area_ixs@) == Some(
                        all_adjacent@ + rest,
                    ),
                    None => spec_adjacent_concat(graph, area_ixs@) is None,
                },
                graph == map@.map_data.area_graph,
            decreases area_ixs@.len() - i,
        {
            proof {
                assert(area_ixs@.skip(i as int).first() == area_ixs@[i as int]);
                assert(area_ixs@.skip(i as int).drop_first() =~= area_ixs@.skip(i as int + 1));
            }
            match map.map_data.adjacent_areas(area_ixs[i]) {
                Ok(adjacent) => {
                    let ghost prev = all_adjacent@;
                    let mut j: usize = 0;
                    while j < adjacent.len()
                        invariant
                            j <= adjacent@.len(),
                            all_adjacent@ == prev + adjacent@.take(j as int),
                        decreases adjacent@.len() - j,
                    {
                        all_adjacent.push(adjacent[j]);
                        proof {
                            assert(prev + adjacent@.take(j as int + 1) =~= (prev + adjacent@.take(
                                j as int,
                            )).push(adjacent@[j as int]));
                        }
                        j += 1;
                    }
                    proof {
                        assert(adjacent@.take(adjacent@.len() as int) =~= adjacent@);
                        assert(match spec_adjacent_concat(graph, area_ixs@.skip(i as int + 1)) {
                            Some(rest) => (prev + adjacent@) + rest =~= prev + (adjacent@ + rest),
                            None => true,
                        });
                    }
                },
                Err(e) => {
                    proof {
                        assert(spec_adjacent_concat(graph, area_ixs@.skip(i as int)) is None);
                        assert(spec_serial_map(map@) is None);
                    }
                    return Err(e);
                },
            }
            i += 1;
        }
        proof {
            assert(area_ixs@.skip(area_ixs@.len() as int).len() == 0);
            assert(all_adjacent@ + Seq::<u32>::empty() =~= all_adjacent@);
        }

        // The ports of every area in the region.
        let ghost areas = map@.map_data.areas;
        let mut visible_ports: Vec<u32> = Vec::new();
        let mut i: usize = 0;
        proof {
            assert(area_ixs@.skip(0) =~= area_ixs@);
            assert(Seq::<u32>::empty() + spec_ports_concat(areas, area_ixs@).unwrap()
                =~= spec_ports_concat(areas, area_ixs@).unwrap());
        }
        while i < area_ixs.len()
            invariant
                i <= area_ixs@.len(),
                match spec_ports_concat(areas, area_ixs@.skip(i as int)) {
                    Some(rest) => spec_ports_concat(areas, area_ixs@) == Some(
                        visible_ports@ + rest,
                    ),
                    None => spec_ports_concat(areas, area_ixs@) is None,
                },
                areas == map@.map_data.areas,
            decreases area_ixs@.len() - i,
        {
            proof {
                assert(area_ixs@.skip(i as int).first() == area_ixs@[i as int]);
                assert(area_ixs@.skip(i as int).drop_first() =~= area_ixs@.skip(i as int + 1));
            }
            match map.map_data.lookup_area(area_ixs[i]) {
                Some(area) => {
                    let ghost prev = visible_ports@;
                    let mut j: usize = 0;
                    while j < area.ports.len()
                        invariant
                            j <= area.ports@.len(),
                            visible_ports@ == prev + area.ports@.take(j as int),
                        decreases area.ports@.len() - j,
                    {
                        visible_ports.push(area.ports[j]);
                        proof {
                            assert(prev + area.ports@.take(j as int + 1) =~= (prev
                                + area.ports@.take(j as int)).push(area.ports@[j as int]));
                        }
                        j += 1;
                    }
                    proof {
                        assert(area.ports@.take(area.ports@.len() as int) =~= area.ports@);
                        assert(match spec_ports_concat(areas, area_ixs@.skip(i as int + 1)) {
                            Some(rest) => (prev + area.ports@) + rest =~= prev + (area.ports@
                                + rest),
                            None => true,
                        });
                    }
                },
                None => {
                    proof {
                        assert(spec_ports_concat(areas, area_ixs@.skip(i as int)) is None);
                        assert(spec_serial_map(map@) is None);
                    }
                    return Err(GameError::AreaNotFound);
                },
            }
            i += 1;
        }
        proof {
            assert(area_ixs@.skip(area_ixs@.len() as int).len() == 0);
            assert(visible_ports@ + Seq::<u32>::empty() =~= visible_ports@);
        }

        // The areas visible: the region's areas plus everything adjacent,
        // each listed once.
        let mut chained: Vec<u32> = Vec::new();
        let mut i: usize = 0;
        while i < area_ixs.len()
            invariant
                i <= area_ixs@.len(),
                chained@ == area_ixs@.take(i as int),
            decreases area_ixs@.len() - i,
        {
            chained.push(area_ixs[i]);
            proof {
                assert(area_ixs@.take(i as int + 1) =~= area_ixs@.take(i as int).push(
                    area_ixs@[i as int],
                ));
            }
            i += 1;
        }
        let ghost first_part = chained@;
        let mut i: usize = 0;
        while i < all_adjacent.len()
            invariant
                i <= all_adjacent@.len(),
                chained@ == first_part + all_adjacent@.take(i as int),
            decreases all_adjacent@.len() - i,
        {
            chained.push(all_adjacent[i]);
            proof {
                assert(first_part + all_adjacent@.take(i as int + 1) =~= (first_part
                    + all_adjacent@.take(i as int)).push(all_adjacent@[i as int]));
            }
            i += 1;
        }
        proof {
            assert(area_ixs@.take(area_ixs@.len() as int) =~= area_ixs@);
            assert(all_adjacent@.take(all_adjacent@.len() as int) =~= all_adjacent@);
            assert(chained@ =~= area_ixs@ + all_adjacent@);
        }
        let visible_areas = unique_u32(&chained);

        let r = SerialMap {
            ship_area: map.ship_area,
            adjacent_areas,
            adjacent_ports,
            visible_areas,
            visible_ports,
            current_region,
        };
        proof {
            assert(spec_serial_map(map@) == Some(r@)) by {
                assert(spec_serial_map(map@) matches Some(sm) && sm =~= r@);
            }
        }
        Ok(r)
    }
}

/// The map data the game starts with.
pub open spec fn spec_default_map_data() -> MapDataModel {
    MapDataModel {
        areas: seq![
            (1u32, AreaModel { region: 1, ports: seq![2u32, 174] }),
            (2u32, AreaModel { region: 1, ports: seq![18u32, 34, 186] }),
            (3u32, AreaModel { region: 1, ports: seq![7u32, 30, 216] }),
            (4u32, AreaModel { region: 1, ports: seq![130u32] }),
            (6u32, AreaModel { region: 2, ports: Seq::empty() }),
            (7u32, AreaModel { region: 2, ports: Seq::empty() }),
        ],
        area_graph: seq![
            (1u32, seq![2u32, 4, 6]),
            (2u32, seq![1u32, 3]),
            (3u32, seq![2u32, 4]),
            (4u32, seq![3u32, 1]),
            (6u32, seq![1u32, 7]),
            (7u32, seq![6u32]),
        ],
    }
}

impl Default for MapData {
    /// The map data the game starts with.
    fn default() -> (r: Self)
        ensures
            r@ == spec_default_map_data(),
    {
        let mut areas: Vec<(u32, Area)> = Vec::new();
        areas.push((1, Area { region: 1, ports: two_ports(2, 174) }));
        areas.push((2, Area { region: 1, ports: three_ports(18, 34, 186) }));
        areas.push((3, Area { region: 1, ports: three_ports(7, 30, 216) }));
        areas.push((4, Area { region: 1, ports: one_port(130) }));
        areas.push((6, Area { region: 2, ports: Vec::new() }));
        areas.push((7, Area { region: 2, ports: Vec::new() }));

        let mut area_graph: Vec<(u32, Vec<u32>)> = Vec::new();
        area_graph.push((1, three_ports(2, 4, 6)));
        area_graph.push((2, two_ports(1, 3)));
        area_graph.push((3, two_ports(2, 4)));
        area_graph.push((4, two_ports(3, 1)));
        area_graph.push((6, two_ports(1, 7)));
        area_graph.push((7, one_port(6)));

        let r = MapData { areas, area_graph };
        proof {
            assert(r@ =~~= spec_default_map_data());
        }
        r
    }
}

/// A list of one area or port index.
fn one_port(a: u32) -> (r: Vec<u32>)
    ensures
        r@ == seq![a],
{
    let mut r: Vec<u32> = Vec::new();
    r.push(a);
    proof {
        assert(r@ =~= seq![a]);
    }
    r
}

/// A list of two area or port indices.
fn two_ports(a: u32, b: u32) -> (r: Vec<u32>)
    ensures
        r@ == seq![a, b],
{
    let mut r: Vec<u32> = Vec::new();
    r.push(a);
    r.push(b);
    proof {
        assert(r@ =~= seq![a, b]);
    }
    r
}

/// A list of three area or port indices.
fn three_ports(a: u32, b: u32, c: u32) -> (r: Vec<u32>)
    ensures
        r@ == seq![a, b, c],
{
    let mut r: Vec<u32> = Vec::new();
    r.push(a);
    r.push(b);
    r.push(c);
    proof {
        assert(r@ =~= seq![a, b, c]);
    }
    r
}

} // verus!
