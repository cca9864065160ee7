use chariot_formats::random_map::{
    read_base_zone, read_map_terrain, read_map_unit, read_random_map_header, read_random_maps,
};
use chariot_formats::reader::{DecodeError, Reader};

fn push_i32(v: &mut Vec<u8>, x: i32) {
    v.extend_from_slice(&x.to_le_bytes());
}

fn push_u32(v: &mut Vec<u8>, x: u32) {
    v.extend_from_slice(&x.to_le_bytes());
}

fn header_bytes(script_id: i32, non_base_terrain_id: i32) -> Vec<u8> {
    let mut v = Vec::new();
    push_i32(&mut v, script_id);
    for b in [901, 902, 903, 904, 905, 906] {
        push_i32(&mut v, b); // borders, usage, water shape
    }
    push_i32(&mut v, non_base_terrain_id);
    push_i32(&mut v, 907); // coverage
    push_i32(&mut v, 908); // unknown
    for _ in 0..3 {
        push_u32(&mut v, 909); // count
        push_i32(&mut v, 910); // pointer
    }
    push_i32(&mut v, 911); // unknown count
    push_i32(&mut v, 912); // unknown pointer
    assert_eq!(v.len(), 72);
    v
}

fn base_zone_bytes(terrain: i32, spacing: i32, radius: i32) -> Vec<u8> {
    let mut v = Vec::new();
    push_u32(&mut v, 0xDEAD); // unknown
    push_i32(&mut v, terrain);
    push_i32(&mut v, spacing);
    v.extend_from_slice(&[0u8; 20]);
    push_i32(&mut v, radius);
    v.extend_from_slice(&[0u8; 8]);
    assert_eq!(v.len(), 44);
    v
}

fn map_terrain_bytes(terrain: i32) -> Vec<u8> {
    let mut v = Vec::new();
    push_i32(&mut v, 30); // proportion
    push_i32(&mut v, terrain);
    push_i32(&mut v, 5); // clump count
    push_i32(&mut v, 2); // spacing
    push_i32(&mut v, 1); // placement zone
    push_i32(&mut v, 0); // unknown
    assert_eq!(v.len(), 24);
    v
}

fn map_unit_bytes(unit: i32, host: i32) -> Vec<u8> {
    let mut v = Vec::new();
    push_i32(&mut v, unit);
    push_i32(&mut v, host);
    push_i32(&mut v, 0); // unknown
    for x in [4, 5, 6, 7, 8, 9, 10, 11] {
        push_i32(&mut v, x);
    }
    assert_eq!(v.len(), 44);
    v
}

struct BodyCounts {
    zones: Vec<Vec<u8>>,
    terrains: Vec<Vec<u8>>,
    units: Vec<Vec<u8>>,
    unknown_count: u32,
}

fn body_bytes(counts: &BodyCounts) -> Vec<u8> {
    let mut v = Vec::new();
    for b in [101, 102, 103, 104, 105, 106] {
        push_i32(&mut v, b); // borders, usage, water shape
    }
    push_i32(&mut v, 17); // non-base terrain
    push_i32(&mut v, 66); // coverage
    push_i32(&mut v, 0); // unknown
    push_u32(&mut v, counts.zones.len() as u32);
    push_u32(&mut v, 0); // pointer
    for z in &counts.zones {
        v.extend_from_slice(z);
    }
    push_u32(&mut v, counts.terrains.len() as u32);
    push_u32(&mut v, 0);
    for t in &counts.terrains {
        v.extend_from_slice(t);
    }
    push_u32(&mut v, counts.units.len() as u32);
    push_u32(&mut v, 0);
    for u in &counts.units {
        v.extend_from_slice(u);
    }
    push_u32(&mut v, counts.unknown_count);
    push_u32(&mut v, 0);
    v.extend_from_slice(&vec![0u8; 24 * counts.unknown_count as usize]);
    v
}

fn table_bytes(headers: &[Vec<u8>], bodies: &[Vec<u8>]) -> Vec<u8> {
    let mut v = Vec::new();
    push_u32(&mut v, bodies.len() as u32);
    push_u32(&mut v, 0); // unused pointer
    for h in headers {
        v.extend_from_slice(h);
    }
    for b in bodies {
        v.extend_from_slice(b);
    }
    v
}

#[test]
fn header_fields_are_consumed_but_never_surface() {
    let body = body_bytes(&BodyCounts {
        zones: vec![],
        terrains: vec![],
        units: vec![],
        unknown_count: 0,
    });
    let v = table_bytes(&[header_bytes(1, 2)], &[body]);
    let total = v.len();
    assert_eq!(total, 8 + 72 + 36 + 4 * 8);
    let mut r = Reader::new(v);
    let maps = read_random_maps(&mut r).unwrap();
    assert_eq!(r.position(), total);
    assert_eq!(maps.len(), 1);
    // Every output field comes from the body, none from the header's 9xx values.
    let m = &maps[0];
    assert_eq!(m.border_sw, 101);
    assert_eq!(m.border_nw, 102);
    assert_eq!(m.border_ne, 103);
    assert_eq!(m.border_se, 104);
    assert_eq!(m.border_usage, 105);
    assert_eq!(m.water_shape, 106);
    assert_eq!(m.non_base_terrain_id, 17);
    assert_eq!(m.base_zone_coverage, 66);
}

#[test]
fn nested_arrays_decode_in_order() {
    let body = body_bytes(&BodyCounts {
        zones: vec![base_zone_bytes(7, 3, 12)],
        terrains: vec![map_terrain_bytes(4), map_terrain_bytes(5)],
        units: vec![map_unit_bytes(70, -1)],
        unknown_count: 0,
    });
    let v = table_bytes(&[header_bytes(1, 2)], &[body]);
    let total = v.len();
    let mut r = Reader::new(v);
    let maps = read_random_maps(&mut r).unwrap();
    let m = &maps[0];
    assert_eq!(m.base_zones.len(), 1);
    assert_eq!(m.base_zones[0].base_terrain_id, 7);
    assert_eq!(m.base_zones[0].space_between_players, 3);
    assert_eq!(m.base_zones[0].start_area_radius, 12);
    assert_eq!(m.terrains.len(), 2);
    assert_eq!(m.terrains[0].terrain_id, 4);
    assert_eq!(m.terrains[1].terrain_id, 5);
    assert_eq!(m.units.len(), 1);
    assert_eq!(m.units[0].unit_id, 70);
    assert_eq!(m.units[0].host_terrain_id, None);
    assert_eq!(r.position(), total);
}

#[test]
fn unknown_trailing_block_is_skipped_by_stride() {
    let body = body_bytes(&BodyCounts {
        zones: vec![],
        terrains: vec![],
        units: vec![],
        unknown_count: 2,
    });
    let v = table_bytes(&[header_bytes(1, 2)], &[body]);
    let total = v.len();
    assert_eq!(total, 8 + 72 + 36 + 4 * 8 + 48);
    let mut r = Reader::new(v);
    read_random_maps(&mut r).unwrap();
    assert_eq!(r.position(), total);
}

#[test]
fn truncated_trailing_block_fails() {
    let body = body_bytes(&BodyCounts {
        zones: vec![],
        terrains: vec![],
        units: vec![],
        unknown_count: 2,
    });
    let mut v = table_bytes(&[header_bytes(1, 2)], &[body]);
    v.truncate(v.len() - 1);
    assert_eq!(read_random_maps(&mut Reader::new(v)), Err(DecodeError::Truncated));
}

#[test]
fn header_with_absent_script_id_fails() {
    let body = body_bytes(&BodyCounts {
        zones: vec![],
        terrains: vec![],
        units: vec![],
        unknown_count: 0,
    });
    let v = table_bytes(&[header_bytes(-1, 2)], &[body]);
    assert_eq!(read_random_maps(&mut Reader::new(v)), Err(DecodeError::AbsentRequiredId));
}

#[test]
fn read_random_map_header_consumes_exactly_72_bytes() {
    let mut r = Reader::new(header_bytes(31, 44));
    let h = read_random_map_header(&mut r).unwrap();
    assert_eq!(r.position(), 72);
    assert_eq!(h.script_id, 31);
    assert_eq!(h.non_base_terrain_id, 44);
    assert_eq!(h.border_sw, 901);
}

#[test]
fn read_base_zone_consumes_exactly_44_bytes() {
    let mut r = Reader::new(base_zone_bytes(9, 8, 7));
    let z = read_base_zone(&mut r).unwrap();
    assert_eq!(r.position(), 44);
    assert_eq!(z.base_terrain_id, 9);
    let mut r = Reader::new(base_zone_bytes(-1, 8, 7));
    assert_eq!(read_base_zone(&mut r), Err(DecodeError::AbsentRequiredId));
}

#[test]
fn read_map_terrain_requires_its_terrain_id() {
    let mut r = Reader::new(map_terrain_bytes(3));
    let t = read_map_terrain(&mut r).unwrap();
    assert_eq!(r.position(), 24);
    assert_eq!(t.proportion, 30);
    assert_eq!(t.terrain_id, 3);
    let mut r = Reader::new(map_terrain_bytes(-1));
    assert_eq!(read_map_terrain(&mut r), Err(DecodeError::AbsentRequiredId));
}

#[test]
fn read_map_unit_keeps_optional_host_terrain() {
    let mut r = Reader::new(map_unit_bytes(5, 6));
    let u = read_map_unit(&mut r).unwrap();
    assert_eq!(r.position(), 44);
    assert_eq!(u.unit_id, 5);
    assert_eq!(u.host_terrain_id, Some(6));
    assert_eq!(u.max_distance_to_players, 11);
    let mut r = Reader::new(map_unit_bytes(-1, 6));
    assert_eq!(read_map_unit(&mut r), Err(DecodeError::AbsentRequiredId));
}

#[test]
fn read_random_maps_twice_gives_equal_trees() {
    let body = body_bytes(&BodyCounts {
        zones: vec![base_zone_bytes(7, 3, 12)],
        terrains: vec![],
        units: vec![map_unit_bytes(70, 4)],
        unknown_count: 1,
    });
    let v = table_bytes(&[header_bytes(1, 2)], &[body]);
    let m1 = read_random_maps(&mut Reader::new(v.clone())).unwrap();
    let m2 = read_random_maps(&mut Reader::new(v)).unwrap();
    assert_eq!(m1, m2);
}
