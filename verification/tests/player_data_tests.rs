use chariot_formats::player_data::{
    read_ai_script_config, read_civilization, read_diplomacy, read_pascal_string,
    read_player_starting_resources, read_preview_thumbnail, read_victory_conditions, PlayerData,
};
use chariot_formats::reader::{DecodeError, Reader};

fn push_u16(v: &mut Vec<u8>, x: u16) {
    v.extend_from_slice(&x.to_le_bytes());
}

fn push_u32(v: &mut Vec<u8>, x: u32) {
    v.extend_from_slice(&x.to_le_bytes());
}

fn push_i32(v: &mut Vec<u8>, x: i32) {
    v.extend_from_slice(&x.to_le_bytes());
}

fn push_pascal(v: &mut Vec<u8>, s: &[u8]) {
    push_u16(v, s.len() as u16);
    v.extend_from_slice(s);
}

fn push_sized(v: &mut Vec<u8>, s: &[u8], w: usize) {
    let mut field = vec![0u8; w];
    field[..s.len()].copy_from_slice(s);
    v.extend_from_slice(&field);
}

#[test]
fn pascal_string_reads_its_length_prefix() {
    let mut v = Vec::new();
    push_pascal(&mut v, b"hello");
    v.push(9);
    let mut r = Reader::new(v);
    assert_eq!(read_pascal_string(&mut r).unwrap(), b"hello".to_vec());
    assert_eq!(r.position(), 7);
}

#[test]
fn empty_pascal_string_consumes_only_the_prefix() {
    let mut v = Vec::new();
    push_pascal(&mut v, b"");
    let mut r = Reader::new(v);
    assert_eq!(read_pascal_string(&mut r).unwrap(), Vec::<u8>::new());
    assert_eq!(r.position(), 2);
}

#[test]
fn pascal_string_shorter_than_its_prefix_fails() {
    let mut r = Reader::new(vec![5, 0, b'a', b'b']);
    assert_eq!(read_pascal_string(&mut r), Err(DecodeError::Truncated));
}

#[test]
fn absent_thumbnail_consumes_fourteen_bytes_with_empty_pixels() {
    let mut v = Vec::new();
    push_u32(&mut v, 0); // inclusion flag
    push_u32(&mut v, 320);
    push_u32(&mut v, 200);
    v.extend_from_slice(&[0xAA, 0xBB]);
    v.push(77);
    let mut r = Reader::new(v);
    let t = read_preview_thumbnail(&mut r).unwrap();
    assert_eq!(r.position(), 14);
    assert!(!t.included);
    assert_eq!(t.width, 320);
    assert_eq!(t.height, 200);
    assert_eq!(t.unknown1, vec![0xAA, 0xBB]);
    assert!(t.pixel_data.is_empty());
    assert_eq!(t.pixel_data_length, 0);
}

#[test]
fn included_thumbnail_reads_declared_length_minus_forty() {
    let mut v = Vec::new();
    push_u32(&mut v, 1); // inclusion flag
    push_u32(&mut v, 4);
    push_u32(&mut v, 2);
    v.extend_from_slice(&[1u8; 22]);
    push_u32(&mut v, 45); // declared pixel length, 40-byte header included
    v.extend_from_slice(&[2u8; 16]);
    v.extend_from_slice(&[7, 8, 9, 10, 11]);
    let total = v.len();
    let mut r = Reader::new(v);
    let t = read_preview_thumbnail(&mut r).unwrap();
    assert_eq!(r.position(), total);
    assert_eq!(total, 4 + 4 + 4 + 22 + 4 + 16 + 5);
    assert!(t.included);
    assert_eq!(t.pixel_data_length, 5);
    assert_eq!(t.pixel_data, vec![7, 8, 9, 10, 11]);
    assert_eq!(t.unknown1, vec![1u8; 22]);
    assert_eq!(t.unknown2, vec![2u8; 16]);
}

#[test]
fn declared_pixel_length_under_the_header_size_fails() {
    let mut v = Vec::new();
    push_u32(&mut v, 1);
    push_u32(&mut v, 4);
    push_u32(&mut v, 2);
    v.extend_from_slice(&[0u8; 22]);
    push_u32(&mut v, 39);
    v.extend_from_slice(&[0u8; 16]);
    assert_eq!(read_preview_thumbnail(&mut Reader::new(v)), Err(DecodeError::BadLength));
}

#[test]
fn ai_script_config_reads_three_counted_strings() {
    let mut v = Vec::new();
    push_u32(&mut v, 3);
    push_u32(&mut v, 4);
    push_u32(&mut v, 0);
    v.extend_from_slice(b"abc");
    v.extend_from_slice(b"defg");
    let total = v.len();
    let mut r = Reader::new(v);
    let c = read_ai_script_config(&mut r).unwrap();
    assert_eq!(r.position(), total);
    assert_eq!(c.ai_file_name, b"abc".to_vec());
    assert_eq!(c.city_file_name, b"defg".to_vec());
    assert_eq!(c.personality_file_name, Vec::<u8>::new());
}

#[test]
fn civilization_record_requires_its_id() {
    let mut v = Vec::new();
    push_u32(&mut v, 1);
    push_u32(&mut v, 2);
    push_i32(&mut v, 6);
    push_u32(&mut v, 4);
    let mut r = Reader::new(v);
    let c = read_civilization(&mut r).unwrap();
    assert_eq!(r.position(), 16);
    assert_eq!(c.state, 1);
    assert_eq!(c.type_id, 2);
    assert_eq!(c.civilization_id, 6);
    assert_eq!(c.unknown1, 4);

    let mut v = Vec::new();
    push_u32(&mut v, 1);
    push_u32(&mut v, 2);
    push_i32(&mut v, -1);
    push_u32(&mut v, 4);
    assert_eq!(read_civilization(&mut Reader::new(v)), Err(DecodeError::AbsentRequiredId));
}

#[test]
fn starting_resources_read_in_gold_wood_food_stone_order() {
    let mut v = Vec::new();
    for x in [100u32, 200, 300, 400] {
        push_u32(&mut v, x);
    }
    let mut r = Reader::new(v);
    let s = read_player_starting_resources(&mut r).unwrap();
    assert_eq!(r.position(), 16);
    assert_eq!(s.gold, 100);
    assert_eq!(s.wood, 200);
    assert_eq!(s.food, 300);
    assert_eq!(s.stone, 400);
}

#[test]
fn victory_conditions_decode_their_ten_fields() {
    let mut v = Vec::new();
    for x in [1u32, 10, 2, 20, 75, 30, 0, 3, 9000, 600] {
        push_u32(&mut v, x);
    }
    let mut r = Reader::new(v);
    let vc = read_victory_conditions(&mut r).unwrap();
    assert_eq!(r.position(), 40);
    assert!(vc.conquest_required);
    assert_eq!(vc.required_relic_count, 2);
    assert_eq!(vc.required_exploration_percent, 75);
    assert!(!vc.all_conditions_required);
    assert_eq!(vc.victory_mode, 3);
    assert_eq!(vc.score_required, 9000);
    assert_eq!(vc.timed_game_time, 600);
}

#[test]
fn diplomacy_reads_both_matrices() {
    let mut v = Vec::new();
    for i in 0..16 {
        for j in 0..16 {
            push_u32(&mut v, (i * 100 + j) as u32);
        }
    }
    for i in 0..16 {
        for j in 0..180 {
            push_u32(&mut v, (i * 1000 + j) as u32);
        }
    }
    let total = v.len();
    let mut r = Reader::new(v);
    let d = read_diplomacy(&mut r).unwrap();
    assert_eq!(r.position(), total);
    assert_eq!(d.stances.len(), 16);
    assert_eq!(d.stances[3].len(), 16);
    assert_eq!(d.stances[3][5], 305);
    assert_eq!(d.individual_victory.len(), 16);
    assert_eq!(d.individual_victory[15].len(), 180);
    assert_eq!(d.individual_victory[2][179], 2179);
}

fn whole_block_bytes() -> Vec<u8> {
    let mut v = Vec::new();
    push_u32(&mut v, 1.21f32.to_bits()); // version
    for i in 0..16 {
        push_sized(&mut v, format!("player{}", i).as_bytes(), 256);
    }
    for i in 0..16 {
        push_u32(&mut v, 1); // state
        push_u32(&mut v, 0); // type
        push_i32(&mut v, i + 1); // civilization id
        push_u32(&mut v, 0); // unknown
    }
    v.push(1); // conquest victory
    v.extend_from_slice(&[9u8; 8]); // unknown region
    push_pascal(&mut v, b"orig.scn");
    push_pascal(&mut v, b"do things");
    push_pascal(&mut v, b"a hint");
    push_pascal(&mut v, b"you won");
    push_pascal(&mut v, b"you lost");
    push_pascal(&mut v, b"long ago");
    push_pascal(&mut v, b"pre.avi");
    push_pascal(&mut v, b"win.avi");
    push_pascal(&mut v, b"lose.avi");
    push_pascal(&mut v, b"back.bmp");
    // absent thumbnail
    push_u32(&mut v, 0);
    push_u32(&mut v, 0);
    push_u32(&mut v, 0);
    v.extend_from_slice(&[0, 0]);
    for i in 0..16 {
        push_pascal(&mut v, format!("ai{}", i).as_bytes());
    }
    for i in 0..16 {
        push_pascal(&mut v, format!("city{}", i).as_bytes());
    }
    for i in 0..16 {
        push_pascal(&mut v, format!("per{}", i).as_bytes());
    }
    for _ in 0..16 {
        push_u32(&mut v, 2);
        push_u32(&mut v, 0);
        push_u32(&mut v, 3);
        v.extend_from_slice(b"ai");
        v.extend_from_slice(b"per");
    }
    v.extend_from_slice(&[1, 2, 3, 4]); // ai types
    for i in 0..16u32 {
        push_u32(&mut v, i);
        push_u32(&mut v, i + 100);
        push_u32(&mut v, i + 200);
        push_u32(&mut v, i + 300);
    }
    push_i32(&mut v, -1); // separator
    for x in [0u32, 0, 4, 0, 50, 0, 1, 2, 700, 0] {
        push_u32(&mut v, x); // victory conditions
    }
    for _ in 0..(16 * 16) {
        push_u32(&mut v, 3); // stances
    }
    for _ in 0..(16 * 180) {
        push_u32(&mut v, 0); // individual victory
    }
    push_i32(&mut v, -1); // separator
    for i in 0..16u32 {
        push_u32(&mut v, i % 2); // allied victory
    }
    for i in 0..16u32 {
        for j in 0..20u32 {
            push_u32(&mut v, i * 20 + j); // disabled research ids
        }
    }
    push_u32(&mut v, 111); // unused
    push_u32(&mut v, 222); // unused
    push_u32(&mut v, 1); // all techs
    for _ in 0..16 {
        push_u32(&mut v, 2); // starting ages
    }
    push_i32(&mut v, -1); // separator
    v
}

#[test]
fn whole_player_data_block_decodes_field_by_field() {
    let v = whole_block_bytes();
    let total = v.len();
    let mut r = Reader::new(v);
    let d = PlayerData::read_from_stream(&mut r).unwrap();
    assert_eq!(r.position(), total);
    assert_eq!(d.version.0, 1.21f32.to_bits());
    assert_eq!(d.player_names.len(), 16);
    assert_eq!(d.player_names[0], b"player0".to_vec());
    assert_eq!(d.player_names[15], b"player15".to_vec());
    assert_eq!(d.player_civs.len(), 16);
    assert_eq!(d.player_civs[2].civilization_id, 3);
    assert!(d.conquest_victory);
    assert_eq!(d.unknown1, vec![9u8; 8]);
    assert_eq!(d.original_file_name, b"orig.scn".to_vec());
    assert_eq!(d.instructions, b"do things".to_vec());
    assert_eq!(d.hints, b"a hint".to_vec());
    assert_eq!(d.victory, b"you won".to_vec());
    assert_eq!(d.loss, b"you lost".to_vec());
    assert_eq!(d.history, b"long ago".to_vec());
    assert_eq!(d.pre_game_cinematic_file_name, b"pre.avi".to_vec());
    assert_eq!(d.victory_cinematic_file_name, b"win.avi".to_vec());
    assert_eq!(d.loss_cinematic_file_name, b"lose.avi".to_vec());
    assert_eq!(d.background_file_name, b"back.bmp".to_vec());
    assert!(!d.preview_thumbnail.included);
    assert_eq!(d.ai_names[3], b"ai3".to_vec());
    assert_eq!(d.city_names[10], b"city10".to_vec());
    assert_eq!(d.personality_names[15], b"per15".to_vec());
    assert_eq!(d.ai_script_configs.len(), 16);
    assert_eq!(d.ai_script_configs[0].ai_file_name, b"ai".to_vec());
    assert_eq!(d.ai_script_configs[0].city_file_name, Vec::<u8>::new());
    assert_eq!(d.ai_script_configs[0].personality_file_name, b"per".to_vec());
    assert_eq!(d.ai_types, vec![1, 2, 3, 4]);
    assert_eq!(d.player_starting_resources.len(), 16);
    assert_eq!(d.player_starting_resources[5].gold, 5);
    assert_eq!(d.player_starting_resources[5].stone, 305);
    assert_eq!(d.victory_conditions.required_relic_count, 4);
    assert_eq!(d.victory_conditions.timed_game_time, 0);
    assert_eq!(d.diplomacy.stances[0][0], 3);
    assert_eq!(d.allied_victory.len(), 16);
    assert_eq!(d.allied_victory[1], 1);
    assert_eq!(d.disabled_research_ids[3][19], 79);
    assert_eq!(d.unused1, 111);
    assert_eq!(d.unused2, 222);
    assert!(d.all_techs);
    assert_eq!(d.starting_ages, vec![2u32; 16]);
}

#[test]
fn whole_player_data_block_decodes_identically_twice() {
    let v = whole_block_bytes();
    let d1 = PlayerData::read_from_stream(&mut Reader::new(v.clone())).unwrap();
    let d2 = PlayerData::read_from_stream(&mut Reader::new(v)).unwrap();
    assert_eq!(d1, d2);
}

#[test]
fn truncated_player_data_block_fails() {
    let mut v = whole_block_bytes();
    v.truncate(v.len() - 1);
    assert_eq!(
        PlayerData::read_from_stream(&mut Reader::new(v)),
        Err(DecodeError::Truncated)
    );
}
