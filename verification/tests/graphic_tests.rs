use chariot_formats::graphic::{
    read_attack_sound, read_delta, read_graphics, GraphicAttackSound, GraphicDelta,
};
use chariot_formats::reader::{DecodeError, Reader};

fn delta_bytes(graphic_id: i16, dx: i16, dy: i16, angle: i16) -> Vec<u8> {
    let mut v = graphic_id.to_le_bytes().to_vec();
    v.extend_from_slice(&[0u8; 6]);
    v.extend_from_slice(&dx.to_le_bytes());
    v.extend_from_slice(&dy.to_le_bytes());
    v.extend_from_slice(&angle.to_le_bytes());
    v.extend_from_slice(&[0u8; 2]);
    v
}

fn attack_sound_bytes(delay: i16, sound_group_id: i16) -> Vec<u8> {
    let mut v = delay.to_le_bytes().to_vec();
    v.extend_from_slice(&sound_group_id.to_le_bytes());
    v
}

struct BodyParams {
    id: i16,
    delta_count: u16,
    attack_sound_used: u8,
    angle_count: u16,
}

fn body_bytes(p: &BodyParams) -> Vec<u8> {
    let mut v = vec![0u8; 21];
    v[..4].copy_from_slice(b"name");
    let mut short = vec![0u8; 13];
    short[..2].copy_from_slice(b"sh");
    v.extend_from_slice(&short);
    v.extend_from_slice(&(9i32).to_le_bytes()); // slp id
    v.extend_from_slice(&[0u8; 2]); // unknown
    v.push(2); // layer
    v.push(1u8); // player color id
    v.push((-1i8) as u8); // second player color absent
    v.push(1); // replay
    for c in [10u16, 11, 12, 13] {
        v.extend_from_slice(&c.to_le_bytes());
    }
    v.extend_from_slice(&p.delta_count.to_le_bytes());
    v.extend_from_slice(&(-1i16).to_le_bytes()); // sound group absent
    v.push(p.attack_sound_used);
    v.extend_from_slice(&(6u16).to_le_bytes()); // frame count
    v.extend_from_slice(&p.angle_count.to_le_bytes());
    v.extend_from_slice(&1.5f32.to_bits().to_le_bytes()); // new speed
    v.extend_from_slice(&2.5f32.to_bits().to_le_bytes()); // frame rate
    v.extend_from_slice(&3.5f32.to_bits().to_le_bytes()); // replay delay
    v.push(4); // sequence type
    v.extend_from_slice(&p.id.to_le_bytes());
    v.push(7); // mirror mode
    assert_eq!(v.len(), 77);
    v
}

fn table_bytes(markers: &[u32], bodies: &[Vec<u8>]) -> Vec<u8> {
    let mut v = (markers.len() as u16).to_le_bytes().to_vec();
    for m in markers {
        v.extend_from_slice(&m.to_le_bytes());
    }
    for b in bodies {
        v.extend_from_slice(b);
    }
    v
}

#[test]
fn zero_markers_skip_slots_without_consuming_bodies() {
    let body = body_bytes(&BodyParams { id: 55, delta_count: 0, attack_sound_used: 0, angle_count: 2 });
    let v = table_bytes(&[0, 123, 0], &[body]);
    let total = v.len();
    let mut r = Reader::new(v);
    let graphics = read_graphics(&mut r).unwrap();
    assert_eq!(graphics.len(), 1);
    assert_eq!(graphics[0].id, 55);
    assert_eq!(r.position(), total);
    assert_eq!(total, 2 + 3 * 4 + 77);
}

#[test]
fn decoded_body_fields_are_literal() {
    let body = body_bytes(&BodyParams { id: 3, delta_count: 0, attack_sound_used: 0, angle_count: 2 });
    let v = table_bytes(&[1], &[body]);
    let mut r = Reader::new(v);
    let g = &read_graphics(&mut r).unwrap()[0];
    assert_eq!(g.name, b"name".to_vec());
    assert_eq!(g.short_name, b"sh".to_vec());
    assert_eq!(g.slp_id, Some(9));
    assert_eq!(g.layer, 2);
    assert_eq!(g.player_color_id, Some(1));
    assert_eq!(g.second_player_color_id, None);
    assert!(g.replay);
    assert_eq!(g.coordinates, vec![10, 11, 12, 13]);
    assert_eq!(g.sound_group_id, None);
    assert_eq!(g.frame_count, 6);
    assert_eq!(g.angle_count, 2);
    assert_eq!(g.new_speed.0, 1.5f32.to_bits());
    assert_eq!(g.sequence_type, 4);
    assert_eq!(g.mirror_mode, 7);
    assert!(g.deltas.is_empty());
    assert!(g.attack_sounds.is_empty());
}

#[test]
fn absent_delta_references_are_filtered_but_consumed() {
    let body = body_bytes(&BodyParams { id: 3, delta_count: 2, attack_sound_used: 0, angle_count: 0 });
    let mut v = table_bytes(&[1], &[body]);
    v.extend_from_slice(&delta_bytes(-1, 1, 2, 3));
    v.extend_from_slice(&delta_bytes(44, 5, 6, 7));
    let total = v.len();
    let mut r = Reader::new(v);
    let g = &read_graphics(&mut r).unwrap()[0];
    assert_eq!(g.deltas.len(), 1);
    assert_eq!(g.deltas[0].graphic_id, 44);
    assert_eq!(g.deltas[0].offset_x, 5);
    assert_eq!(g.deltas[0].offset_y, 6);
    assert_eq!(r.position(), total);
}

#[test]
fn attack_sounds_are_three_per_angle_and_filtered() {
    let body = body_bytes(&BodyParams { id: 3, delta_count: 0, attack_sound_used: 1, angle_count: 1 });
    let mut v = table_bytes(&[7], &[body]);
    v.extend_from_slice(&attack_sound_bytes(10, 100));
    v.extend_from_slice(&attack_sound_bytes(20, -1));
    v.extend_from_slice(&attack_sound_bytes(30, 300));
    let total = v.len();
    let mut r = Reader::new(v);
    let g = &read_graphics(&mut r).unwrap()[0];
    assert_eq!(
        g.attack_sounds,
        vec![
            GraphicAttackSound { sound_delay: 10, sound_group_id: 100 },
            GraphicAttackSound { sound_delay: 30, sound_group_id: 300 },
        ]
    );
    assert_eq!(r.position(), total);
}

#[test]
fn zero_attack_sound_flag_reads_no_sound_records() {
    let body = body_bytes(&BodyParams { id: 3, delta_count: 0, attack_sound_used: 0, angle_count: 5 });
    let v = table_bytes(&[1], &[body]);
    let total = v.len();
    let mut r = Reader::new(v);
    let g = &read_graphics(&mut r).unwrap()[0];
    assert!(g.attack_sounds.is_empty());
    assert_eq!(r.position(), total);
}

#[test]
fn absent_required_graphic_id_is_an_error() {
    let body = body_bytes(&BodyParams { id: -1, delta_count: 0, attack_sound_used: 0, angle_count: 0 });
    let v = table_bytes(&[1], &[body]);
    assert_eq!(read_graphics(&mut Reader::new(v)), Err(DecodeError::AbsentRequiredId));
}

#[test]
fn truncated_marker_table_fails() {
    let v = vec![2, 0, 1, 0, 0]; // count says 2 markers, only 1¼ present
    assert_eq!(read_graphics(&mut Reader::new(v)), Err(DecodeError::Truncated));
}

#[test]
fn read_delta_consumes_sixteen_bytes_either_way() {
    let mut r = Reader::new(delta_bytes(-1, 1, 2, 3));
    assert_eq!(read_delta(&mut r).unwrap(), None);
    assert_eq!(r.position(), 16);
    let mut r = Reader::new(delta_bytes(9, -4, 5, 6));
    assert_eq!(
        read_delta(&mut r).unwrap(),
        Some(GraphicDelta { graphic_id: 9, offset_x: -4, offset_y: 5, display_angle: 6 })
    );
    assert_eq!(r.position(), 16);
}

#[test]
fn read_attack_sound_consumes_four_bytes_either_way() {
    let mut r = Reader::new(attack_sound_bytes(5, -1));
    assert_eq!(read_attack_sound(&mut r).unwrap(), None);
    assert_eq!(r.position(), 4);
    let mut r = Reader::new(attack_sound_bytes(5, 77));
    assert_eq!(
        read_attack_sound(&mut r).unwrap(),
        Some(GraphicAttackSound { sound_delay: 5, sound_group_id: 77 })
    );
    assert_eq!(r.position(), 4);
}

#[test]
fn read_graphics_twice_gives_equal_trees() {
    let body = body_bytes(&BodyParams { id: 1, delta_count: 1, attack_sound_used: 0, angle_count: 0 });
    let mut v = table_bytes(&[0, 5], &[body]);
    v.extend_from_slice(&delta_bytes(2, 3, 4, 5));
    let g1 = read_graphics(&mut Reader::new(v.clone())).unwrap();
    let g2 = read_graphics(&mut Reader::new(v)).unwrap();
    assert_eq!(g1, g2);
}
