//! Random-map generation parameters.
//!
//! The stream holds a 32-bit map count and an unused pointer, then one
//! header record per map, then one body per map.  The headers repeat what
//! the bodies hold; their only purpose here is occupying their exact byte
//! footprint, so the table decoder consumes them and discards the values.
//! Each body carries base-zone, terrain and unit sub-arrays, each preceded
//! by its count and an unused pointer, and ends with an unknown trailing
//! block that is skipped by exact byte count.

use vstd::prelude::*;

use crate::ident::optional_id;
use crate::reader::{decoded, failed, fits, le32_at, signed32, DecodeError, Reader};

verus! {

/// Width of the first unknown region inside a base-zone record.  Its
/// format is unknown; the width was fixed empirically, and decoding the
/// zones that follow depends on skipping exactly this much.
pub const BASE_ZONE_UNKNOWN_1_WIDTH: usize = 20;

/// Width of the second unknown region inside a base-zone record.
pub const BASE_ZONE_UNKNOWN_2_WIDTH: usize = 8;

/// Stride of one record of the unknown trailing block of a map body.  Its
/// structure is not understood, but its size is, and skipping it exactly
/// keeps the cursor aligned for the next map body.
pub const UNKNOWN_BLOCK_STRIDE: u64 = 24;

/// One header record, decoded only to advance the cursor; the table
/// decoder throws it away.
#[derive(Clone, Copy, PartialEq, Eq, Debug)]
pub struct RandomMapHeader {
    pub script_id: i32,
    pub border_sw: i32,
    pub border_nw: i32,
    pub border_ne: i32,
    pub border_se: i32,
    pub border_usage: i32,
    pub water_shape: i32,
    pub non_base_terrain_id: i32,
    pub base_zone_coverage: i32,
    pub base_zone_count: u32,
    pub terrain_count: u32,
    pub unit_count: u32,
}

/// A starting-zone record.
#[derive(Clone, Copy, PartialEq, Eq, Debug)]
pub struct BaseZone {
    pub base_terrain_id: i32,
    pub space_between_players: i32,
    pub start_area_radius: i32,
}

impl DeepView for BaseZone {
    type V = BaseZone;

    open spec fn deep_view(&self) -> BaseZone {
        *self
    }
}

/// A terrain-placement record.
#[derive(Clone, Copy, PartialEq, Eq, Debug)]
pub struct MapTerrain {
    pub proportion: i32,
    pub terrain_id: i32,
    pub clump_count: i32,
    pub spacing_to_other_terrains: i32,
    pub placement_zone: i32,
}

impl DeepView for MapTerrain {
    type V = MapTerrain;

    open spec fn deep_view(&self) -> MapTerrain {
        *self
    }
}

/// A unit-placement record.
#[derive(Clone, Copy, PartialEq, Eq, Debug)]
pub struct MapUnit {
    pub unit_id: i32,
    pub host_terrain_id: Option<i32>,
    pub objects_per_group: i32,
    pub fluctuation: i32,
    pub groups_per_player: i32,
    pub group_radius: i32,
    pub own_at_start: i32,
    pub set_place_for_all_players: i32,
    pub min_distance_to_players: i32,
    pub max_distance_to_players: i32,
}

impl DeepView for MapUnit {
    type V = MapUnit;

    open spec fn deep_view(&self) -> MapUnit {
        *self
    }
}

/// One decoded random-map body.
#[derive(Clone, PartialEq, Eq, Debug)]
pub struct RandomMap {
    pub border_sw: i32,
    pub border_nw: i32,
    pub border_ne: i32,
    pub border_se: i32,
    pub border_usage: i32,
    pub water_shape: i32,
    pub non_base_terrain_id: i32,
    pub base_zone_coverage: i32,
    pub base_zones: Vec<BaseZone>,
    pub terrains: Vec<MapTerrain>,
    pub units: Vec<MapUnit>,
}

/// The mathematical shadow of [`RandomMap`].
pub struct RandomMapView {
    pub border_sw: i32,
    pub border_nw: i32,
    pub border_ne: i32,
    pub border_se: i32,
    pub border_usage: i32,
    pub water_shape: i32,
    pub non_base_terrain_id: i32,
    pub base_zone_coverage: i32,
    pub base_zones: Seq<BaseZone>,
    pub terrains: Seq<MapTerrain>,
    pub units: Seq<MapUnit>,
}

impl View for RandomMap {
    type V = RandomMapView;

    open spec fn view(&self) -> RandomMapView {
        RandomMapView {
            border_sw: self.border_sw,
            border_nw: self.border_nw,
            border_ne: self.border_ne,
            border_se: self.border_se,
            border_usage: self.border_usage,
            water_shape: self.water_shape,
            non_base_terrain_id: self.non_base_terrain_id,
            base_zone_coverage: self.base_zone_coverage,
            base_zones: self.base_zones@,
            terrains: self.terrains@,
            units: self.units@,
        }
    }
}

impl DeepView for RandomMap {
    type V = RandomMapView;

    open spec fn deep_view(&self) -> RandomMapView {
        self@
    }
}

/// One 72-byte header record: the position after it.  Its required
/// identifiers are still checked, but no value survives.
pub open spec fn spec_read_random_map_header(data: Seq<u8>, pos: int) -> Result<int, DecodeError> {
    if !fits(data, pos, 4) {
        Err(DecodeError::Truncated)
    } else if signed32(le32_at(data, pos)) == -1 {
        Err(DecodeError::AbsentRequiredId)
    } else if !fits(data, pos, 32) {
        Err(DecodeError::Truncated)
    } else if signed32(le32_at(data, pos + 28)) == -1 {
        Err(DecodeError::AbsentRequiredId)
    } else if !fits(data, pos, 72) {
        Err(DecodeError::Truncated)
    } else {
        Ok(pos + 72)
    }
}

/// `n` consecutive header records, all discarded.
pub open spec fn spec_skip_header_seq(data: Seq<u8>, pos: int, n: nat) -> Result<int, DecodeError>
    decreases n,
{
    if n == 0 {
        Ok(pos)
    } else {
        match spec_read_random_map_header(data, pos) {
            Err(e) => Err(e),
            Ok(p) => spec_skip_header_seq(data, p, (n - 1) as nat),
        }
    }
}

/// One 44-byte base-zone record: an unknown field, the required terrain,
/// the player spacing, 20 unknown bytes, the radius, 8 unknown bytes.
pub open spec fn spec_read_base_zone(data: Seq<u8>, pos: int) -> Result<
    (BaseZone, int),
    DecodeError,
> {
    if !fits(data, pos, 8) {
        Err(DecodeError::Truncated)
    } else if signed32(le32_at(data, pos + 4)) == -1 {
        Err(DecodeError::AbsentRequiredId)
    } else if !fits(data, pos, 44) {
        Err(DecodeError::Truncated)
    } else {
        Ok(
            (
                BaseZone {
                    base_terrain_id: signed32(le32_at(data, pos + 4)) as i32,
                    space_between_players: signed32(le32_at(data, pos + 8)) as i32,
                    start_area_radius: signed32(le32_at(data, pos + 32)) as i32,
                },
                pos + 44,
            ),
        )
    }
}

pub open spec fn spec_read_base_zone_seq(data: Seq<u8>, pos: int, n: nat) -> Result<
    (Seq<BaseZone>, int),
    DecodeError,
>
    decreases n,
{
    if n == 0 {
        Ok((Seq::empty(), pos))
    } else {
        match spec_read_base_zone(data, pos) {
            Err(e) => Err(e),
            Ok((z, p)) => match spec_read_base_zone_seq(data, p, (n - 1) as nat) {
                Err(e) => Err(e),
                Ok((rest, p2)) => Ok((seq![z] + rest, p2)),
            },
        }
    }
}

/// One 24-byte map-terrain record, its trailing unknown field consumed.
pub open spec fn spec_read_map_terrain(data: Seq<u8>, pos: int) -> Result<
    (MapTerrain, int),
    DecodeError,
> {
    if !fits(data, pos, 8) {
        Err(DecodeError::Truncated)
    } else if signed32(le32_at(data, pos + 4)) == -1 {
        Err(DecodeError::AbsentRequiredId)
    } else if !fits(data, pos, 24) {
        Err(DecodeError::Truncated)
    } else {
        Ok(
            (
                MapTerrain {
                    proportion: signed32(le32_at(data, pos)) as i32,
                    terrain_id: signed32(le32_at(data, pos + 4)) as i32,
                    clump_count: signed32(le32_at(data, pos + 8)) as i32,
                    spacing_to_other_terrains: signed32(le32_at(data, pos + 12)) as i32,
                    placement_zone: signed32(le32_at(data, pos + 16)) as i32,
                },
                pos + 24,
            ),
        )
    }
}

pub open spec fn spec_read_map_terrain_seq(data: Seq<u8>, pos: int, n: nat) -> Result<
    (Seq<MapTerrain>, int),
    DecodeError,
>
    decreases n,
{
    if n == 0 {
        Ok((Seq::empty(), pos))
    } else {
        match spec_read_map_terrain(data, pos) {
            Err(e) => Err(e),
            Ok((t, p)) => match spec_read_map_terrain_seq(data, p, (n - 1) as nat) {
                Err(e) => Err(e),
                Ok((rest, p2)) => Ok((seq![t] + rest, p2)),
            },
        }
    }
}

/// One 44-byte map-unit record: a required unit, an optional host terrain,
/// an unknown field, and eight placement parameters.
pub open spec fn spec_read_map_unit(data: Seq<u8>, pos: int) -> Result<
    (MapUnit, int),
    DecodeError,
> {
    if !fits(data, pos, 4) {
        Err(DecodeError::Truncated)
    } else if signed32(le32_at(data, pos)) == -1 {
        Err(DecodeError::AbsentRequiredId)
    } else if !fits(data, pos, 44) {
        Err(DecodeError::Truncated)
    } else {
        Ok(
            (
                MapUnit {
                    unit_id: signed32(le32_at(data, pos)) as i32,
                    host_terrain_id: crate::ident::opt_id(signed32(le32_at(data, pos + 4))),
                    objects_per_group: signed32(le32_at(data, pos + 12)) as i32,
                    fluctuation: signed32(le32_at(data, pos + 16)) as i32,
                    groups_per_player: signed32(le32_at(data, pos + 20)) as i32,
                    group_radius: signed32(le32_at(data, pos + 24)) as i32,
                    own_at_start: signed32(le32_at(data, pos + 28)) as i32,
                    set_place_for_all_players: signed32(le32_at(data, pos + 32)) as i32,
                    min_distance_to_players: signed32(le32_at(data, pos + 36)) as i32,
                    max_distance_to_players: signed32(le32_at(data, pos + 40)) as i32,
                },
                pos + 44,
            ),
        )
    }
}

pub open spec fn spec_read_map_unit_seq(data: Seq<u8>, pos: int, n: nat) -> Result<
    (Seq<MapUnit>, int),
    DecodeError,
>
    decreases n,
{
    if n == 0 {
        Ok((Seq::empty(), pos))
    } else {
        match spec_read_map_unit(data, pos) {
            Err(e) => Err(e),
            Ok((u, p)) => match spec_read_map_unit_seq(data, p, (n - 1) as nat) {
                Err(e) => Err(e),
                Ok((rest, p2)) => Ok((seq![u] + rest, p2)),
            },
        }
    }
}

/// One map body: the 36-byte fixed prefix, three counted sub-arrays each
/// with an unused pointer, and the skipped unknown trailing block.
pub open spec fn spec_read_random_map(data: Seq<u8>, pos: int) -> Result<
    (RandomMapView, int),
    DecodeError,
> {
    if !fits(data, pos, 28) {
        Err(DecodeError::Truncated)
    } else if signed32(le32_at(data, pos + 24)) == -1 {
        Err(DecodeError::AbsentRequiredId)
    } else if !fits(data, pos, 44) {
        Err(DecodeError::Truncated)
    } else {
        match spec_read_base_zone_seq(data, pos + 44, le32_at(data, pos + 36) as nat) {
            Err(e) => Err(e),
            Ok((zones, p1)) => {
                if !fits(data, p1, 8) {
                    Err(DecodeError::Truncated)
                } else {
                    match spec_read_map_terrain_seq(data, p1 + 8, le32_at(data, p1) as nat) {
                        Err(e) => Err(e),
                        Ok((terrains, p2)) => {
                            if !fits(data, p2, 8) {
                                Err(DecodeError::Truncated)
                            } else {
                                match spec_read_map_unit_seq(
                                    data,
                                    p2 + 8,
                                    le32_at(data, p2) as nat,
                                ) {
                                    Err(e) => Err(e),
                                    Ok((units, p3)) => {
                                        if !fits(data, p3, 8) {
                                            Err(DecodeError::Truncated)
                                        } else if !fits(
                                            data,
                                            p3 + 8,
                                            24 * le32_at(data, p3),
                                        ) {
                                            Err(DecodeError::Truncated)
                                        } else {
                                            Ok(
                                                (
                                                    RandomMapView {
                                                        border_sw: signed32(
                                                            le32_at(data, pos),
                                                        ) as i32,
                                                        border_nw: signed32(
                                                            le32_at(data, pos + 4),
                                                        ) as i32,
                                                        border_ne: signed32(
                                                            le32_at(data, pos + 8),
                                                        ) as i32,
                                                        border_se: signed32(
                                                            le32_at(data, pos + 12),
                                                        ) as i32,
                                                        border_usage: signed32(
                                                            le32_at(data, pos + 16),
                                                        ) as i32,
                                                        water_shape: signed32(
                                                            le32_at(data, pos + 20),
                                                        ) as i32,
                                                        non_base_terrain_id: signed32(
                                                            le32_at(data, pos + 24),
                                                        ) as i32,
                                                        base_zone_coverage: signed32(
                                                            le32_at(data, pos + 28),
                                                        ) as i32,
                                                        base_zones: zones,
                                                        terrains,
                                                        units,
                                                    },
                                                    p3 + 8 + 24 * le32_at(data, p3),
                                                ),
                                            )
                                        }
                                    }
                                }
                            }
                        }
                    }
                }
            }
        }
    }
}

pub open spec fn spec_read_random_map_seq(data: Seq<u8>, pos: int, n: nat) -> Result<
    (Seq<RandomMapView>, int),
    DecodeError,
>
    decreases n,
{
    if n == 0 {
        Ok((Seq::empty(), pos))
    } else {
        match spec_read_random_map(data, pos) {
            Err(e) => Err(e),
            Ok((m, p)) => match spec_read_random_map_seq(data, p, (n - 1) as nat) {
                Err(e) => Err(e),
                Ok((rest, p2)) => Ok((seq![m] + rest, p2)),
            },
        }
    }
}

/// The whole table: a 32-bit map count and an unused pointer, `n` headers
/// consumed and discarded, then `n` map bodies.
pub open spec fn spec_read_random_maps(data: Seq<u8>, pos: int) -> Result<
    (Seq<RandomMapView>, int),
    DecodeError,
> {
    if !fits(data, pos, 8) {
        Err(DecodeError::Truncated)
    } else {
        match spec_skip_header_seq(data, pos + 8, le32_at(data, pos) as nat) {
            Err(e) => Err(e),
            Ok(p) => spec_read_random_map_seq(data, p, le32_at(data, pos) as nat),
        }
    }
}

/// Decode one header record at the cursor.  The caller of the table
/// decoder never sees these values; they are exposed here so the header's
/// exact footprint stays checkable on its own.
pub fn read_random_map_header(stream: &mut Reader) -> (r: Result<RandomMapHeader, DecodeError>)
    requires
        old(stream).wf(),
    ensures
        final(stream).wf(),
        final(stream).data() == old(stream).data(),
        match r {
            Ok(v) => spec_read_random_map_header(old(stream).data(), old(stream).cursor())
                == Ok::<int, DecodeError>(final(stream).cursor()) && final(stream).cursor() == old(
                stream,
            ).cursor() + 72,
            Err(e) => spec_read_random_map_header(old(stream).data(), old(stream).cursor())
                == Err::<int, DecodeError>(e),
        },
    {
    let script_id = match stream.read_i32() {
        Ok(v) => v,
        Err(e) => return Err(e),
    };
    if script_id == -1 {
        return Err(DecodeError::AbsentRequiredId);
    }
    let border_sw = match stream.read_i32() {
        Ok(v) => v,
        Err(e) => return Err(e),
    };
    let border_nw = match stream.read_i32() {
        Ok(v) => v,
        Err(e) => return Err(e),
    };
    let border_ne = match stream.read_i32() {
        Ok(v) => v,
        Err(e) => return Err(e),
    };
    let border_se = match stream.read_i32() {
        Ok(v) => v,
        Err(e) => return Err(e),
    };
    let border_usage = match stream.read_i32() {
        Ok(v) => v,
        Err(e) => return Err(e),
    };
    let water_shape = match stream.read_i32() {
        Ok(v) => v,
        Err(e) => return Err(e),
    };
    let non_base_terrain_id = match stream.read_i32() {
        Ok(v) => v,
        Err(e) => return Err(e),
    };
    if non_base_terrain_id == -1 {
        return Err(DecodeError::AbsentRequiredId);
    }
    let base_zone_coverage = match stream.read_i32() {
        Ok(v) => v,
        Err(e) => return Err(e),
    };
    match stream.read_i32() {
        Ok(_) => (),
        Err(e) => return Err(e),
    };
    let base_zone_count = match stream.read_u32() {
        Ok(v) => v,
        Err(e) => return Err(e),
    };
    match stream.read_i32() {
        Ok(_) => (),
        Err(e) => return Err(e),
    };
    let terrain_count = match stream.read_u32() {
        Ok(v) => v,
        Err(e) => return Err(e),
    };
    match stream.read_i32() {
        Ok(_) => (),
        Err(e) => return Err(e),
    };
    let unit_count = match stream.read_u32() {
        Ok(v) => v,
        Err(e) => return Err(e),
    };
    match stream.read_i32() {
        Ok(_) => (),
        Err(e) => return Err(e),
    };
    match stream.read_i32() {
        Ok(_) => (),
        Err(e) => return Err(e),
    };
    match stream.read_i32() {
        Ok(_) => (),
        Err(e) => return Err(e),
    };
    Ok(RandomMapHeader {
        script_id,
        border_sw,
        border_nw,
        border_ne,
        border_se,
        border_usage,
        water_shape,
        non_base_terrain_id,
        base_zone_coverage,
        base_zone_count,
        terrain_count,
        unit_count,
    })
}

/// Decode one base-zone record at the cursor.
pub fn read_base_zone(stream: &mut Reader) -> (r: Result<BaseZone, DecodeError>)
    requires
        old(stream).wf(),
    ensures
        final(stream).wf(),
        final(stream).data() == old(stream).data(),
        match r {
            Ok(v) => spec_read_base_zone(old(stream).data(), old(stream).cursor()) == decoded(
                v,
                final(stream).cursor(),
            ),
            Err(e) => spec_read_base_zone(old(stream).data(), old(stream).cursor()) == failed::<
                BaseZone,
            >(e),
        },
    {
    match stream.read_u32() {
        Ok(_) => (),
        Err(e) => return Err(e),
    };
    let base_terrain_id = match stream.read_i32() {
        Ok(v) => v,
        Err(e) => return Err(e),
    };
    if base_terrain_id == -1 {
        return Err(DecodeError::AbsentRequiredId);
    }
    let space_between_players = match stream.read_i32() {
        Ok(v) => v,
        Err(e) => return Err(e),
    };
    match stream.skip(BASE_ZONE_UNKNOWN_1_WIDTH) {
        Ok(_) => (),
        Err(e) => return Err(e),
    };
    let start_area_radius = match stream.read_i32() {
        Ok(v) => v,
        Err(e) => return Err(e),
    };
    match stream.skip(BASE_ZONE_UNKNOWN_2_WIDTH) {
        Ok(_) => (),
        Err(e) => return Err(e),
    };
    Ok(BaseZone { base_terrain_id, space_between_players, start_area_radius })
}

/// Decode one map-terrain record at the cursor.
pub fn read_map_terrain(stream: &mut Reader) -> (r: Result<MapTerrain, DecodeError>)
    requires
        old(stream).wf(),
    ensures
        final(stream).wf(),
        final(stream).data() == old(stream).data(),
        match r {
            Ok(v) => spec_read_map_terrain(old(stream).data(), old(stream).cursor()) == decoded(
                v,
                final(stream).cursor(),
            ),
            Err(e) => spec_read_map_terrain(old(stream).data(), old(stream).cursor()) == failed::<
                MapTerrain,
            >(e),
        },
    {
    let proportion = match stream.read_i32() {
        Ok(v) => v,
        Err(e) => return Err(e),
    };
    let terrain_id = match stream.read_i32() {
        Ok(v) => v,
        Err(e) => return Err(e),
    };
    if terrain_id == -1 {
        return Err(DecodeError::AbsentRequiredId);
    }
    let clump_count = match stream.read_i32() {
        Ok(v) => v,
        Err(e) => return Err(e),
    };
    let spacing_to_other_terrains = match stream.read_i32() {
        Ok(v) => v,
        Err(e) => return Err(e),
    };
    let placement_zone = match stream.read_i32() {
        Ok(v) => v,
        Err(e) => return Err(e),
    };
    match stream.read_i32() {
        Ok(_) => (),
        Err(e) => return Err(e),
    };
    Ok(MapTerrain {
        proportion,
        terrain_id,
        clump_count,
        spacing_to_other_terrains,
        placement_zone,
    })
}

/// Decode one map-unit record at the cursor.
pub fn read_map_unit(stream: &mut Reader) -> (r: Result<MapUnit, DecodeError>)
    requires
        old(stream).wf(),
    ensures
        final(stream).wf(),
        final(stream).data() == old(stream).data(),
        match r {
            Ok(v) => spec_read_map_unit(old(stream).data(), old(stream).cursor()) == decoded(
                v,
                final(stream).cursor(),
            ),
            Err(e) => spec_read_map_unit(old(stream).data(), old(stream).cursor()) == failed::<
                MapUnit,
            >(e),
        },
    {
    let unit_id = match stream.read_i32() {
        Ok(v) => v,
        Err(e) => return Err(e),
    };
    if unit_id == -1 {
        return Err(DecodeError::AbsentRequiredId);
    }
    let host_raw = match stream.read_i32() {
        Ok(v) => v,
        Err(e) => return Err(e),
    };
    match stream.read_i32() {
        Ok(_) => (),
        Err(e) => return Err(e),
    };
    let objects_per_group = match stream.read_i32() {
        Ok(v) => v,
        Err(e) => return Err(e),
    };
    let fluctuation = match stream.read_i32() {
        Ok(v) => v,
        Err(e) => return Err(e),
    };
    let groups_per_player = match stream.read_i32() {
        Ok(v) => v,
        Err(e) => return Err(e),
    };
    let group_radius = match stream.read_i32() {
        Ok(v) => v,
        Err(e) => return Err(e),
    };
    let own_at_start = match stream.read_i32() {
        Ok(v) => v,
        Err(e) => return Err(e),
    };
    let set_place_for_all_players = match stream.read_i32() {
        Ok(v) => v,
        Err(e) => return Err(e),
    };
    let min_distance_to_players = match stream.read_i32() {
        Ok(v) => v,
        Err(e) => return Err(e),
    };
    let max_distance_to_players = match stream.read_i32() {
        Ok(v) => v,
        Err(e) => return Err(e),
    };
    Ok(MapUnit {
        unit_id,
        host_terrain_id: optional_id(host_raw),
        objects_per_group,
        fluctuation,
        groups_per_player,
        group_radius,
        own_at_start,
        set_place_for_all_players,
        min_distance_to_players,
        max_distance_to_players,
    })
}

/// Decode `n` base-zone records at the cursor.
fn read_base_zone_array(stream: &mut Reader, n: usize) -> (r: Result<Vec<BaseZone>, DecodeError>)
    requires
        old(stream).wf(),
    ensures
        final(stream).wf(),
        final(stream).data() == old(stream).data(),
        match r {
            Ok(v) => spec_read_base_zone_seq(old(stream).data(), old(stream).cursor(), n as nat)
                == decoded(v@, final(stream).cursor()),
            Err(e) => spec_read_base_zone_seq(old(stream).data(), old(stream).cursor(), n as nat)
                == failed::<Seq<BaseZone>>(e),
        },
    {
    let ghost d = old(stream).data();
    let ghost start = old(stream).cursor();
    let mut out: Vec<BaseZone> = Vec::new();
    let mut i: usize = 0;
    #[verifier::loop_isolation(false)]
    while i < n
        invariant
            stream.wf(),
            stream.data() == d,
            i <= n,
            match spec_read_base_zone_seq(d, stream.cursor(), (n - i) as nat) {
                Ok((rest, p)) => spec_read_base_zone_seq(d, start, n as nat) == decoded(
                    out@ + rest,
                    p,
                ),
                Err(e) => spec_read_base_zone_seq(d, start, n as nat) == failed::<Seq<BaseZone>>(
                    e,
                ),
            },
        decreases n - i,
    {
        let z = match read_base_zone(stream) {
            Ok(v) => v,
            Err(e) => return Err(e),
        };
        let ghost out_old = out@;
        out.push(z);
        i = i + 1;
        proof {
            assert(out@ =~= out_old + seq![z]);
            match spec_read_base_zone_seq(d, stream.cursor(), (n - i) as nat) {
                Ok(pr) => {
                    assert(out_old + (seq![z] + pr.0) =~= out@ + pr.0);
                }
                Err(_) => {}
            }
        }
    }
    proof {
        assert(out@ + Seq::<BaseZone>::empty() =~= out@);
    }
    Ok(out)
}

/// Decode `n` map-terrain records at the cursor.
fn read_map_terrain_array(stream: &mut Reader, n: usize) -> (r: Result<
    Vec<MapTerrain>,
    DecodeError,
>)
    requires
        old(stream).wf(),
    ensures
        final(stream).wf(),
        final(stream).data() == old(stream).data(),
        match r {
            Ok(v) => spec_read_map_terrain_seq(old(stream).data(), old(stream).cursor(), n as nat)
                == decoded(v@, final(stream).cursor()),
            Err(e) => spec_read_map_terrain_seq(old(stream).data(), old(stream).cursor(), n as nat)
                == failed::<Seq<MapTerrain>>(e),
        },
    {
    let ghost d = old(stream).data();
    let ghost start = old(stream).cursor();
    let mut out: Vec<MapTerrain> = Vec::new();
    let mut i: usize = 0;
    #[verifier::loop_isolation(false)]
    while i < n
        invariant
            stream.wf(),
            stream.data() == d,
            i <= n,
            match spec_read_map_terrain_seq(d, stream.cursor(), (n - i) as nat) {
                Ok((rest, p)) => spec_read_map_terrain_seq(d, start, n as nat) == decoded(
                    out@ + rest,
                    p,
                ),
                Err(e) => spec_read_map_terrain_seq(d, start, n as nat) == failed::<
                    Seq<MapTerrain>,
                >(e),
            },
        decreases n - i,
    {
        let t = match read_map_terrain(stream) {
            Ok(v) => v,
            Err(e) => return Err(e),
        };
        let ghost out_old = out@;
        out.push(t);
        i = i + 1;
        proof {
            assert(out@ =~= out_old + seq![t]);
            match spec_read_map_terrain_seq(d, stream.cursor(), (n - i) as nat) {
                Ok(pr) => {
                    assert(out_old + (seq![t] + pr.0) =~= out@ + pr.0);
                }
                Err(_) => {}
            }
        }
    }
    proof {
        assert(out@ + Seq::<MapTerrain>::empty() =~= out@);
    }
    Ok(out)
}

/// Decode `n` map-unit records at the cursor.
fn read_map_unit_array(stream: &mut Reader, n: usize) -> (r: Result<Vec<MapUnit>, DecodeError>)
    requires
        old(stream).wf(),
    ensures
        final(stream).wf(),
        final(stream).data() == old(stream).data(),
        match r {
            Ok(v) => spec_read_map_unit_seq(old(stream).data(), old(stream).cursor(), n as nat)
                == decoded(v@, final(stream).cursor()),
            Err(e) => spec_read_map_unit_seq(old(stream).data(), old(stream).cursor(), n as nat)
                == failed::<Seq<MapUnit>>(e),
        },
    {
    let ghost d = old(stream).data();
    let ghost start = old(stream).cursor();
    let mut out: Vec<MapUnit> = Vec::new();
    let mut i: usize = 0;
    #[verifier::loop_isolation(false)]
    while i < n
        invariant
            stream.wf(),
            stream.data() == d,
            i <= n,
            match spec_read_map_unit_seq(d, stream.cursor(), (n - i) as nat) {
                Ok((rest, p)) => spec_read_map_unit_seq(d, start, n as nat) == decoded(
                    out@ + rest,
                    p,
                ),
                Err(e) => spec_read_map_unit_seq(d, start, n as nat) == failed::<Seq<MapUnit>>(e),
            },
        decreases n - i,
    {
        let u = match read_map_unit(stream) {
            Ok(v) => v,
            Err(e) => return Err(e),
        };
        let ghost out_old = out@;
        out.push(u);
        i = i + 1;
        proof {
            assert(out@ =~= out_old + seq![u]);
            match spec_read_map_unit_seq(d, stream.cursor(), (n - i) as nat) {
                Ok(pr) => {
                    assert(out_old + (seq![u] + pr.0) =~= out@ + pr.0);
                }
                Err(_) => {}
            }
        }
    }
    proof {
        assert(out@ + Seq::<MapUnit>::empty() =~= out@);
    }
    Ok(out)
}

/// Decode one map body at the cursor.
#[verifier::rlimit(100)]
pub fn read_random_map(stream: &mut Reader) -> (r: Result<RandomMap, DecodeError>)
    requires
        old(stream).wf(),
    ensures
        final(stream).wf(),
        final(stream).data() == old(stream).data(),
        match r {
            Ok(v) => spec_read_random_map(old(stream).data(), old(stream).cursor()) == decoded(
                v@,
                final(stream).cursor(),
            ),
            Err(e) => spec_read_random_map(old(stream).data(), old(stream).cursor()) == failed::<
                RandomMapView,
            >(e),
        },
    {
    let border_sw = match stream.read_i32() {
        Ok(v) => v,
        Err(e) => return Err(e),
    };
    let border_nw = match stream.read_i32() {
        Ok(v) => v,
        Err(e) => return Err(e),
    };
    let border_ne = match stream.read_i32() {
        Ok(v) => v,
        Err(e) => return Err(e),
    };
    let border_se = match stream.read_i32() {
        Ok(v) => v,
        Err(e) => return Err(e),
    };
    let border_usage = match stream.read_i32() {
        Ok(v) => v,
        Err(e) => return Err(e),
    };
    let water_shape = match stream.read_i32() {
        Ok(v) => v,
        Err(e) => return Err(e),
    };
    let non_base_terrain_id = match stream.read_i32() {
        Ok(v) => v,
        Err(e) => return Err(e),
    };
    if non_base_terrain_id == -1 {
        return Err(DecodeError::AbsentRequiredId);
    }
    let base_zone_coverage = match stream.read_i32() {
        Ok(v) => v,
        Err(e) => return Err(e),
    };
    match stream.read_i32() {
        Ok(_) => (),
        Err(e) => return Err(e),
    };

    let base_zone_count = match stream.read_u32() {
        Ok(v) => v,
        Err(e) => return Err(e),
    };
    match stream.read_u32() {
        Ok(_) => (),
        Err(e) => return Err(e),
    };
    let base_zones = match read_base_zone_array(stream, base_zone_count as usize) {
        Ok(v) => v,
        Err(e) => return Err(e),
    };

    let terrain_count = match stream.read_u32() {
        Ok(v) => v,
        Err(e) => return Err(e),
    };
    match stream.read_u32() {
        Ok(_) => (),
        Err(e) => return Err(e),
    };
    let terrains = match read_map_terrain_array(stream, terrain_count as usize) {
        Ok(v) => v,
        Err(e) => return Err(e),
    };

    let unit_count = match stream.read_u32() {
        Ok(v) => v,
        Err(e) => return Err(e),
    };
    match stream.read_u32() {
        Ok(_) => (),
        Err(e) => return Err(e),
    };
    let units = match read_map_unit_array(stream, unit_count as usize) {
        Ok(v) => v,
        Err(e) => return Err(e),
    };

    let unknown_count = match stream.read_u32() {
        Ok(v) => v,
        Err(e) => return Err(e),
    };
    match stream.read_u32() {
        Ok(_) => (),
        Err(e) => return Err(e),
    };
    let skip_width: u64 = UNKNOWN_BLOCK_STRIDE * (unknown_count as u64);
    let available: u64 = stream.remaining() as u64;
    if skip_width > available {
        return Err(DecodeError::Truncated);
    }
    match stream.skip(skip_width as usize) {
        Ok(_) => (),
        Err(e) => return Err(e),
    };

    Ok(RandomMap {
        border_sw,
        border_nw,
        border_ne,
        border_se,
        border_usage,
        water_shape,
        non_base_terrain_id,
        base_zone_coverage,
        base_zones,
        terrains,
        units,
    })
}

/// Decode the whole random-map table: the count, `n` discarded headers,
/// `n` map bodies.
pub fn read_random_maps(stream: &mut Reader) -> (r: Result<Vec<RandomMap>, DecodeError>)
    requires
        old(stream).wf(),
    ensures
        final(stream).wf(),
        final(stream).data() == old(stream).data(),
        match r {
            Ok(v) => spec_read_random_maps(old(stream).data(), old(stream).cursor()) == decoded(
                v.deep_view(),
                final(stream).cursor(),
            ),
            Err(e) => spec_read_random_maps(old(stream).data(), old(stream).cursor()) == failed::<
                Seq<RandomMapView>,
            >(e),
        },
    {
    let ghost d = old(stream).data();
    let random_map_count = match stream.read_u32() {
        Ok(v) => v,
        Err(e) => return Err(e),
    };
    match stream.read_u32() {
        Ok(_) => (),
        Err(e) => return Err(e),
    };
    let n = random_map_count as usize;

    let mut i: usize = 0;
    let ghost hstart = stream.cursor();
    #[verifier::loop_isolation(false)]
    while i < n
        invariant
            stream.wf(),
            stream.data() == d,
            i <= n,
            spec_skip_header_seq(d, hstart, n as nat) == spec_skip_header_seq(
                d,
                stream.cursor(),
                (n - i) as nat,
            ),
        decreases n - i,
    {
        match read_random_map_header(stream) {
            Ok(_) => (),
            Err(e) => return Err(e),
        };
        i = i + 1;
    }

    let mut random_maps: Vec<RandomMap> = Vec::new();
    let mut j: usize = 0;
    let ghost bstart = stream.cursor();
    #[verifier::loop_isolation(false)]
    while j < n
        invariant
            stream.wf(),
            stream.data() == d,
            j <= n,
            match spec_read_random_map_seq(d, stream.cursor(), (n - j) as nat) {
                Ok((rest, p)) => spec_read_random_map_seq(d, bstart, n as nat) == decoded(
                    random_maps.deep_view() + rest,
                    p,
                ),
                Err(e) => spec_read_random_map_seq(d, bstart, n as nat) == failed::<
                    Seq<RandomMapView>,
                >(e),
            },
        decreases n - j,
    {
        let m = match read_random_map(stream) {
            Ok(v) => v,
            Err(e) => return Err(e),
        };
        let ghost ms_old = random_maps.deep_view();
        random_maps.push(m);
        j = j + 1;
        proof {
            assert(random_maps.deep_view() =~= ms_old + seq![m@]);
            match spec_read_random_map_seq(d, stream.cursor(), (n - j) as nat) {
                Ok(pr) => {
                    assert(ms_old + (seq![m@] + pr.0) =~= random_maps.deep_view() + pr.0);
                }
                Err(_) => {}
            }
        }
    }
    proof {
        assert(random_maps.deep_view() + Seq::<RandomMapView>::empty()
            =~= random_maps.deep_view());
    }
    Ok(random_maps)
}

/// Decoding the random-map table is a function of the byte buffer and
/// start position alone: two decodes of the same buffer yield equal trees.
pub proof fn lemma_read_random_maps_deterministic(
    data: Seq<u8>,
    pos: int,
    r1: Result<(Seq<RandomMapView>, int), DecodeError>,
    r2: Result<(Seq<RandomMapView>, int), DecodeError>,
)
    requires
        r1 == spec_read_random_maps(data, pos),
        r2 == spec_read_random_maps(data, pos),
    ensures
        r1 == r2,
{
}

/// A map-body run decodes exactly as many bodies as its count says,
/// whatever each body's own size turned out to be.
pub proof fn lemma_random_map_seq_count(data: Seq<u8>, pos: int, n: nat)
    ensures
        spec_read_random_map_seq(data, pos, n) matches Ok((ms, end)) ==> ms.len() == n,
    decreases n,
{
    if n > 0 {
        match spec_read_random_map(data, pos) {
            Ok(pr) => {
                lemma_random_map_seq_count(data, pr.1, (n - 1) as nat);
            }
            Err(_) => {}
        }
    }
}

/// Header records are fully consumed even though none of their values
/// appear in any output: a run of `n` headers moves the cursor by exactly
/// `72 * n` bytes and contributes nothing else to the decode.
pub proof fn lemma_header_seq_consumes(data: Seq<u8>, pos: int, n: nat)
    ensures
        spec_skip_header_seq(data, pos, n) matches Ok(end) ==> end == pos + 72 * n,
    decreases n,
{
    if n > 0 {
        match spec_read_random_map_header(data, pos) {
            Ok(p) => {
                lemma_header_seq_consumes(data, p, (n - 1) as nat);
            }
            Err(_) => {}
        }
    }
}

/// Base-zone records are fixed-width: `n` of them consume exactly `44 * n`
/// bytes, the interleaved unknown regions included, and yield `n` records.
pub proof fn lemma_base_zone_seq_consumes(data: Seq<u8>, pos: int, n: nat)
    ensures
        spec_read_base_zone_seq(data, pos, n) matches Ok((zs, end)) ==> zs.len() == n && end == pos
            + 44 * n,
    decreases n,
{
    if n > 0 {
        match spec_read_base_zone(data, pos) {
            Ok(pr) => {
                lemma_base_zone_seq_consumes(data, pr.1, (n - 1) as nat);
            }
            Err(_) => {}
        }
    }
}

/// Map-terrain records are fixed-width: `n` of them consume exactly
/// `24 * n` bytes and yield `n` records.
pub proof fn lemma_map_terrain_seq_consumes(data: Seq<u8>, pos: int, n: nat)
    ensures
        spec_read_map_terrain_seq(data, pos, n) matches Ok((ts, end)) ==> ts.len() == n && end
            == pos + 24 * n,
    decreases n,
{
    if n > 0 {
        match spec_read_map_terrain(data, pos) {
            Ok(pr) => {
                lemma_map_terrain_seq_consumes(data, pr.1, (n - 1) as nat);
            }
            Err(_) => {}
        }
    }
}

/// Map-unit records are fixed-width: `n` of them consume exactly `44 * n`
/// bytes and yield `n` records.
pub proof fn lemma_map_unit_seq_consumes(data: Seq<u8>, pos: int, n: nat)
    ensures
        spec_read_map_unit_seq(data, pos, n) matches Ok((us, end)) ==> us.len() == n && end == pos
            + 44 * n,
    decreases n,
{
    if n > 0 {
        match spec_read_map_unit(data, pos) {
            Ok(pr) => {
                lemma_map_unit_seq_consumes(data, pr.1, (n - 1) as nat);
            }
            Err(_) => {}
        }
    }
}

} // verus!
