use chariot_formats::age::{
    read_age, read_age_effect, read_ages, ResearchEffect, ResearchEffectValue, UnitAttributeId,
};
use chariot_formats::float_bits::FloatBits;
use chariot_formats::reader::{DecodeError, Reader};

fn effect_bytes(type_id: i8, a: i16, b: i16, c: i16, d: f32) -> Vec<u8> {
    let mut v = vec![type_id as u8];
    v.extend_from_slice(&a.to_le_bytes());
    v.extend_from_slice(&b.to_le_bytes());
    v.extend_from_slice(&c.to_le_bytes());
    v.extend_from_slice(&d.to_bits().to_le_bytes());
    v
}

fn bits(f: f32) -> FloatBits {
    FloatBits(f.to_bits())
}

#[test]
fn unit_attribute_effect_decodes_literally() {
    let mut r = Reader::new(effect_bytes(0, 5, -1, 0, 100.0));
    let e = read_age_effect(&mut r).unwrap();
    assert_eq!(
        e,
        ResearchEffect::UnitAttribute {
            target_unit_id: Some(5),
            target_unit_class_id: None,
            attribute_id: UnitAttributeId::HitPoints,
            effect: ResearchEffectValue::SetTo(bits(100.0)),
        }
    );
    assert_eq!(r.position(), 11);
}

#[test]
fn unit_attribute_discriminants_pick_the_operation() {
    let mut r = Reader::new(effect_bytes(4, 2, 3, 5, 1.5));
    match read_age_effect(&mut r).unwrap() {
        ResearchEffect::UnitAttribute { attribute_id, effect, .. } => {
            assert_eq!(attribute_id, UnitAttributeId::Speed);
            assert_eq!(effect, ResearchEffectValue::Add(bits(1.5)));
        }
        other => panic!("wrong variant: {:?}", other),
    }
    let mut r = Reader::new(effect_bytes(5, 2, 3, 100, 2.0));
    match read_age_effect(&mut r).unwrap() {
        ResearchEffect::UnitAttribute { attribute_id, effect, .. } => {
            assert_eq!(attribute_id, UnitAttributeId::ResourceCost);
            assert_eq!(effect, ResearchEffectValue::MultiplyBy(bits(2.0)));
        }
        other => panic!("wrong variant: {:?}", other),
    }
}

#[test]
fn guarded_civ_header_falls_through_to_unknown() {
    let mut r = Reader::new(effect_bytes(1, 4, 7, 9, 3.0));
    let e = read_age_effect(&mut r).unwrap();
    assert_eq!(
        e,
        ResearchEffect::Unknown {
            type_id: 1,
            param_a: 4,
            param_b: 7,
            param_c: 9,
            param_d: bits(3.0),
        }
    );
    assert_eq!(r.position(), 11);
}

#[test]
fn civ_header_guard_accepts_zero_and_one() {
    let mut r = Reader::new(effect_bytes(1, 4, 0, 9, 3.0));
    assert_eq!(
        read_age_effect(&mut r).unwrap(),
        ResearchEffect::CivHeader {
            target_civ_header_id: 4,
            effect: ResearchEffectValue::SetTo(bits(3.0)),
        }
    );
    let mut r = Reader::new(effect_bytes(1, 4, 1, 9, 3.0));
    assert_eq!(
        read_age_effect(&mut r).unwrap(),
        ResearchEffect::CivHeader {
            target_civ_header_id: 4,
            effect: ResearchEffectValue::Add(bits(3.0)),
        }
    );
    let mut r = Reader::new(effect_bytes(6, 4, 7, 9, 3.0));
    assert_eq!(
        read_age_effect(&mut r).unwrap(),
        ResearchEffect::CivHeader {
            target_civ_header_id: 4,
            effect: ResearchEffectValue::MultiplyBy(bits(3.0)),
        }
    );
}

#[test]
fn set_unit_enabled_tests_param_b_for_one() {
    let mut r = Reader::new(effect_bytes(2, 8, 1, 0, 0.0));
    assert_eq!(
        read_age_effect(&mut r).unwrap(),
        ResearchEffect::SetUnitEnabled { target_unit_id: Some(8), enabled: true }
    );
    let mut r = Reader::new(effect_bytes(2, -1, 2, 0, 0.0));
    assert_eq!(
        read_age_effect(&mut r).unwrap(),
        ResearchEffect::SetUnitEnabled { target_unit_id: None, enabled: false }
    );
}

#[test]
fn upgrade_unit_requires_both_ids() {
    let mut r = Reader::new(effect_bytes(3, 10, 11, 0, 0.0));
    assert_eq!(
        read_age_effect(&mut r).unwrap(),
        ResearchEffect::UpgradeUnit { source_unit_id: 10, target_unit_id: 11 }
    );
    let mut r = Reader::new(effect_bytes(3, -1, 11, 0, 0.0));
    assert_eq!(read_age_effect(&mut r), Err(DecodeError::AbsentRequiredId));
    let mut r = Reader::new(effect_bytes(3, 10, -1, 0, 0.0));
    assert_eq!(read_age_effect(&mut r), Err(DecodeError::AbsentRequiredId));
}

#[test]
fn research_cost_guard_on_param_c() {
    let mut r = Reader::new(effect_bytes(101, 12, 3, 0, 9.0));
    assert_eq!(
        read_age_effect(&mut r).unwrap(),
        ResearchEffect::ResearchCost {
            research_id: 12,
            resource_type: 3,
            effect: ResearchEffectValue::SetTo(bits(9.0)),
        }
    );
    let mut r = Reader::new(effect_bytes(101, 12, 3, 1, 9.0));
    assert_eq!(
        read_age_effect(&mut r).unwrap(),
        ResearchEffect::ResearchCost {
            research_id: 12,
            resource_type: 3,
            effect: ResearchEffectValue::Add(bits(9.0)),
        }
    );
    let mut r = Reader::new(effect_bytes(101, 12, 3, 2, 9.0));
    match read_age_effect(&mut r).unwrap() {
        ResearchEffect::Unknown { type_id: 101, .. } => {}
        other => panic!("wrong variant: {:?}", other),
    }
    let mut r = Reader::new(effect_bytes(101, -1, 3, 0, 9.0));
    assert_eq!(read_age_effect(&mut r), Err(DecodeError::AbsentRequiredId));
}

#[test]
fn disable_research_truncates_the_float_parameter() {
    let mut r = Reader::new(effect_bytes(102, 0, 0, 0, 33.9));
    assert_eq!(
        read_age_effect(&mut r).unwrap(),
        ResearchEffect::DisableResearch { research_id: 33 }
    );
    let mut r = Reader::new(effect_bytes(102, 0, 0, 0, -1.0));
    assert_eq!(read_age_effect(&mut r), Err(DecodeError::AbsentRequiredId));
}

#[test]
fn gain_research_comes_from_param_a() {
    let mut r = Reader::new(effect_bytes(103, 77, 0, 0, 0.0));
    assert_eq!(read_age_effect(&mut r).unwrap(), ResearchEffect::GainResearch { research_id: 77 });
    let mut r = Reader::new(effect_bytes(103, -1, 0, 0, 0.0));
    assert_eq!(read_age_effect(&mut r), Err(DecodeError::AbsentRequiredId));
}

#[test]
fn unrecognized_discriminant_keeps_all_raw_fields() {
    let mut r = Reader::new(effect_bytes(42, 1, 2, 3, 4.0));
    assert_eq!(
        read_age_effect(&mut r).unwrap(),
        ResearchEffect::Unknown {
            type_id: 42,
            param_a: 1,
            param_b: 2,
            param_c: 3,
            param_d: bits(4.0),
        }
    );
}

#[test]
fn truncated_effect_record_fails() {
    let mut r = Reader::new(effect_bytes(0, 5, -1, 0, 100.0)[..10].to_vec());
    assert_eq!(read_age_effect(&mut r), Err(DecodeError::Truncated));
}

#[test]
fn attribute_table_matches_the_known_codes() {
    let cases: Vec<(i16, UnitAttributeId)> = vec![
        (0, UnitAttributeId::HitPoints),
        (1, UnitAttributeId::LineOfSight),
        (3, UnitAttributeId::SizeRadius1),
        (4, UnitAttributeId::SizeRadius2),
        (5, UnitAttributeId::Speed),
        (8, UnitAttributeId::ArmorStrength),
        (9, UnitAttributeId::AttackStrength),
        (10, UnitAttributeId::ReloadTime),
        (11, UnitAttributeId::AttackAccuracy),
        (12, UnitAttributeId::AttackRange),
        (13, UnitAttributeId::WorkRate),
        (14, UnitAttributeId::ResourceCarryCapacity),
        (16, UnitAttributeId::MissileUnitId),
        (17, UnitAttributeId::BuildingUpgradeLevel),
        (19, UnitAttributeId::MissileAccuracyMode),
        (100, UnitAttributeId::ResourceCost),
        (2, UnitAttributeId::Unknown(2)),
        (-7, UnitAttributeId::Unknown(-7)),
    ];
    for (code, expected) in cases {
        assert_eq!(UnitAttributeId::from_i16(code), expected);
    }
}

#[test]
fn default_effect_is_the_all_sentinel_unknown() {
    assert_eq!(
        ResearchEffect::default(),
        ResearchEffect::Unknown {
            type_id: -1,
            param_a: -1,
            param_b: -1,
            param_c: -1,
            param_d: FloatBits((-1.0f32).to_bits()),
        }
    );
}

fn age_bytes(name: &[u8], effects: &[Vec<u8>]) -> Vec<u8> {
    let mut v = vec![0u8; 31];
    v[..name.len()].copy_from_slice(name);
    v.extend_from_slice(&(effects.len() as u16).to_le_bytes());
    for e in effects {
        v.extend_from_slice(e);
    }
    v
}

#[test]
fn read_age_decodes_name_and_effects() {
    let mut r = Reader::new(age_bytes(b"stone age", &[effect_bytes(103, 7, 0, 0, 0.0)]));
    let g = read_age(&mut r).unwrap();
    assert_eq!(g.id, 0);
    assert_eq!(g.name, b"stone age".to_vec());
    assert_eq!(g.effects, vec![ResearchEffect::GainResearch { research_id: 7 }]);
    assert_eq!(r.position(), 31 + 2 + 11);
}

#[test]
fn read_ages_assigns_position_ids_and_consumes_exactly() {
    let mut v = (2u32).to_le_bytes().to_vec();
    v.extend_from_slice(&age_bytes(b"first", &[effect_bytes(103, 1, 0, 0, 0.0)]));
    v.extend_from_slice(&age_bytes(b"second", &[]));
    let total = v.len();
    let mut r = Reader::new(v);
    let ages = read_ages(&mut r).unwrap();
    assert_eq!(ages.len(), 2);
    assert_eq!(ages[0].id, 0);
    assert_eq!(ages[0].name, b"first".to_vec());
    assert_eq!(ages[1].id, 1);
    assert_eq!(ages[1].name, b"second".to_vec());
    assert!(ages[1].effects.is_empty());
    assert_eq!(r.position(), total);
}

#[test]
fn read_ages_twice_gives_equal_trees() {
    let mut v = (1u32).to_le_bytes().to_vec();
    v.extend_from_slice(&age_bytes(b"age", &[effect_bytes(0, 5, -1, 0, 100.0)]));
    let a1 = read_ages(&mut Reader::new(v.clone())).unwrap();
    let a2 = read_ages(&mut Reader::new(v)).unwrap();
    assert_eq!(a1, a2);
}

#[test]
fn truncated_group_table_fails() {
    let mut v = (2u32).to_le_bytes().to_vec();
    v.extend_from_slice(&age_bytes(b"only one", &[]));
    assert_eq!(read_ages(&mut Reader::new(v)), Err(DecodeError::Truncated));
}

#[test]
fn float_truncation_matches_the_native_cast() {
    let samples: Vec<f32> = vec![
        0.0,
        -0.0,
        0.5,
        -0.5,
        1.0,
        -1.0,
        1.9,
        -1.9,
        100.0,
        33.9,
        -33.9,
        8388608.5,
        -8388608.5,
        123456789.0,
        1.0e10,
        -1.0e10,
        2147483520.0,
        -2147483520.0,
        2147483648.0,
        -2147483648.0,
        f32::MAX,
        f32::MIN,
        f32::INFINITY,
        f32::NEG_INFINITY,
        f32::NAN,
        f32::MIN_POSITIVE,
        -f32::MIN_POSITIVE,
        1.0e-40,
    ];
    for f in samples {
        assert_eq!(FloatBits(f.to_bits()).to_i32_trunc(), f as i32, "for {}", f);
    }
}
