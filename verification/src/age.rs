//! Age / technology-effect tables.
//!
//! The stream holds a 32-bit group count, then that many effect groups.  A
//! group is a 31-byte name field, a 16-bit effect count, and that many
//! 11-byte effect records.  An effect record always consumes its five header
//! fields before dispatch, so unrecognized discriminants lose nothing and
//! decode to `Unknown`.

use vstd::prelude::*;

use crate::float_bits::{FloatBits, trunc_to_i32};
use crate::ident::{opt_id, optional_id};
use crate::reader::{
    byte_at, decoded, failed, fits, le16_at, le32_at, nul_trimmed, signed16, signed8, DecodeError,
    Reader,
};

verus! {

/// The unit attribute an effect targets, decoded from a fixed table of
/// 16-bit codes; codes outside the table are carried as `Unknown`.
#[derive(Clone, Copy, PartialEq, Eq, Debug)]
pub enum UnitAttributeId {
    HitPoints,
    LineOfSight,
    SizeRadius1,
    SizeRadius2,
    Speed,
    ArmorStrength,
    AttackStrength,
    ReloadTime,
    AttackAccuracy,
    AttackRange,
    WorkRate,
    ResourceCarryCapacity,
    MissileUnitId,
    BuildingUpgradeLevel,
    MissileAccuracyMode,
    ResourceCost,
    Unknown(i16),
}

impl UnitAttributeId {
    /// The attribute-code table.
    pub open spec fn spec_from_i16(val: i16) -> UnitAttributeId {
        if val == 0 {
            UnitAttributeId::HitPoints
        } else if val == 1 {
            UnitAttributeId::LineOfSight
        } else if val == 3 {
            UnitAttributeId::SizeRadius1
        } else if val == 4 {
            UnitAttributeId::SizeRadius2
        } else if val == 5 {
            UnitAttributeId::Speed
        } else if val == 8 {
            UnitAttributeId::ArmorStrength
        } else if val == 9 {
            UnitAttributeId::AttackStrength
        } else if val == 10 {
            UnitAttributeId::ReloadTime
        } else if val == 11 {
            UnitAttributeId::AttackAccuracy
        } else if val == 12 {
            UnitAttributeId::AttackRange
        } else if val == 13 {
            UnitAttributeId::WorkRate
        } else if val == 14 {
            UnitAttributeId::ResourceCarryCapacity
        } else if val == 16 {
            UnitAttributeId::MissileUnitId
        } else if val == 17 {
            UnitAttributeId::BuildingUpgradeLevel
        } else if val == 19 {
            UnitAttributeId::MissileAccuracyMode
        } else if val == 100 {
            UnitAttributeId::ResourceCost
        } else {
            UnitAttributeId::Unknown(val)
        }
    }

    pub fn from_i16(val: i16) -> (r: UnitAttributeId)
        ensures
            r == UnitAttributeId::spec_from_i16(val),
    {
        match val {
            0 => UnitAttributeId::HitPoints,
            1 => UnitAttributeId::LineOfSight,
            3 => UnitAttributeId::SizeRadius1,
            4 => UnitAttributeId::SizeRadius2,
            5 => UnitAttributeId::Speed,
            8 => UnitAttributeId::ArmorStrength,
            9 => UnitAttributeId::AttackStrength,
            10 => UnitAttributeId::ReloadTime,
            11 => UnitAttributeId::AttackAccuracy,
            12 => UnitAttributeId::AttackRange,
            13 => UnitAttributeId::WorkRate,
            14 => UnitAttributeId::ResourceCarryCapacity,
            16 => UnitAttributeId::MissileUnitId,
            17 => UnitAttributeId::BuildingUpgradeLevel,
            19 => UnitAttributeId::MissileAccuracyMode,
            100 => UnitAttributeId::ResourceCost,
            _ => UnitAttributeId::Unknown(val),
        }
    }
}

/// The arithmetic operation an effect applies to its target attribute.  The
/// operand is a raw 32-bit float field.
#[derive(Clone, Copy, PartialEq, Eq, Debug)]
pub enum ResearchEffectValue {
    SetTo(FloatBits),
    Add(FloatBits),
    MultiplyBy(FloatBits),
}

/// One decoded effect record: a closed tagged union.  Unrecognized
/// discriminants, and guarded discriminants whose guard fails, decode to
/// `Unknown` with all five raw header fields preserved.
#[derive(Clone, Copy, PartialEq, Eq, Debug)]
pub enum ResearchEffect {
    UnitAttribute {
        target_unit_id: Option<i32>,
        target_unit_class_id: Option<i32>,
        attribute_id: UnitAttributeId,
        effect: ResearchEffectValue,
    },
    CivHeader {
        target_civ_header_id: i16,
        effect: ResearchEffectValue,
    },
    SetUnitEnabled {
        target_unit_id: Option<i32>,
        enabled: bool,
    },
    UpgradeUnit {
        source_unit_id: i32,
        target_unit_id: i32,
    },
    ResearchCost {
        research_id: i32,
        resource_type: i16,
        effect: ResearchEffectValue,
    },
    DisableResearch {
        research_id: i32,
    },
    GainResearch {
        research_id: i32,
    },
    Unknown {
        type_id: i8,
        param_a: i16,
        param_b: i16,
        param_c: i16,
        param_d: FloatBits,
    },
}

impl Default for ResearchEffect {
    fn default() -> (r: ResearchEffect)
        ensures
            r == (ResearchEffect::Unknown {
                type_id: -1i8,
                param_a: -1i16,
                param_b: -1i16,
                param_c: -1i16,
                param_d: FloatBits(0xBF80_0000),
            }),
    {
        ResearchEffect::Unknown {
            type_id: -1,
            param_a: -1,
            param_b: -1,
            param_c: -1,
            param_d: FloatBits(0xBF80_0000),
        }
    }
}

impl DeepView for ResearchEffect {
    type V = ResearchEffect;

    open spec fn deep_view(&self) -> ResearchEffect {
        *self
    }
}

/// A decoded effect group ("age"): its position-assigned id, its name, and
/// its effect records in stream order.
#[derive(Clone, PartialEq, Eq, Debug)]
pub struct ResearchEffectGroup {
    /// The zero-based position of the group in the decoded sequence.  The
    /// stream order is authoritative; no stored id is consulted.
    pub id: u32,
    pub name: Vec<u8>,
    pub effects: Vec<ResearchEffect>,
}

/// The mathematical shadow of [`ResearchEffectGroup`].
pub struct ResearchEffectGroupView {
    pub id: int,
    pub name: Seq<u8>,
    pub effects: Seq<ResearchEffect>,
}

impl View for ResearchEffectGroup {
    type V = ResearchEffectGroupView;

    open spec fn view(&self) -> ResearchEffectGroupView {
        ResearchEffectGroupView { id: self.id as int, name: self.name@, effects: self.effects@ }
    }
}

impl DeepView for ResearchEffectGroup {
    type V = ResearchEffectGroupView;

    open spec fn deep_view(&self) -> ResearchEffectGroupView {
        self@
    }
}

/// The dispatch table: what the five header fields decode to, or `None`
/// where a required identifier holds the absence sentinel.
pub open spec fn effect_of(
    type_id: i8,
    a: i16,
    b: i16,
    c: i16,
    d: FloatBits,
) -> Option<ResearchEffect> {
    if type_id == 0 || type_id == 4 || type_id == 5 {
        Some(ResearchEffect::UnitAttribute {
            target_unit_id: opt_id(a as int),
            target_unit_class_id: opt_id(b as int),
            attribute_id: UnitAttributeId::spec_from_i16(c),
            effect: if type_id == 0 {
                ResearchEffectValue::SetTo(d)
            } else if type_id == 4 {
                ResearchEffectValue::Add(d)
            } else {
                ResearchEffectValue::MultiplyBy(d)
            },
        })
    } else if type_id == 1 && (b == 0 || b == 1) {
        Some(ResearchEffect::CivHeader {
            target_civ_header_id: a,
            effect: if b == 0 {
                ResearchEffectValue::SetTo(d)
            } else {
                ResearchEffectValue::Add(d)
            },
        })
    } else if type_id == 6 {
        Some(ResearchEffect::CivHeader {
            target_civ_header_id: a,
            effect: ResearchEffectValue::MultiplyBy(d),
        })
    } else if type_id == 2 {
        Some(ResearchEffect::SetUnitEnabled { target_unit_id: opt_id(a as int), enabled: b == 1 })
    } else if type_id == 3 {
        if a == -1 || b == -1 {
            None
        } else {
            Some(ResearchEffect::UpgradeUnit { source_unit_id: a as i32, target_unit_id: b as i32 })
        }
    } else if type_id == 101 && (c == 0 || c == 1) {
        if a == -1 {
            None
        } else {
            Some(ResearchEffect::ResearchCost {
                research_id: a as i32,
                resource_type: b,
                effect: if c == 0 {
                    ResearchEffectValue::SetTo(d)
                } else {
                    ResearchEffectValue::Add(d)
                },
            })
        }
    } else if type_id == 102 {
        if trunc_to_i32(d.0) == -1 {
            None
        } else {
            Some(ResearchEffect::DisableResearch { research_id: trunc_to_i32(d.0) as i32 })
        }
    } else if type_id == 103 {
        if a == -1 {
            None
        } else {
            Some(ResearchEffect::GainResearch { research_id: a as i32 })
        }
    } else {
        Some(ResearchEffect::Unknown { type_id, param_a: a, param_b: b, param_c: c, param_d: d })
    }
}

/// One effect record: 1-byte discriminant, three signed 16-bit parameters,
/// one 32-bit float parameter — 11 bytes, always fully consumed.
pub open spec fn spec_read_effect(data: Seq<u8>, pos: int) -> Result<
    (ResearchEffect, int),
    DecodeError,
> {
    if !fits(data, pos, 11) {
        Err(DecodeError::Truncated)
    } else {
        let t = signed8(byte_at(data, pos)) as i8;
        let a = signed16(le16_at(data, pos + 1)) as i16;
        let b = signed16(le16_at(data, pos + 3)) as i16;
        let c = signed16(le16_at(data, pos + 5)) as i16;
        let d = FloatBits(le32_at(data, pos + 7) as u32);
        match effect_of(t, a, b, c, d) {
            Some(e) => Ok((e, pos + 11)),
            None => Err(DecodeError::AbsentRequiredId),
        }
    }
}

/// `n` consecutive effect records.
pub open spec fn spec_read_effect_seq(data: Seq<u8>, pos: int, n: nat) -> Result<
    (Seq<ResearchEffect>, int),
    DecodeError,
>
    decreases n,
{
    if n == 0 {
        Ok((Seq::empty(), pos))
    } else {
        match spec_read_effect(data, pos) {
            Err(e) => Err(e),
            Ok((eff, p)) => match spec_read_effect_seq(data, p, (n - 1) as nat) {
                Err(e) => Err(e),
                Ok((rest, p2)) => Ok((seq![eff] + rest, p2)),
            },
        }
    }
}

/// One group: a 31-byte name, a 16-bit effect count, then that many effect
/// records.  The group id is left at zero; the caller assigns positions.
pub open spec fn spec_read_age(data: Seq<u8>, pos: int) -> Result<
    (ResearchEffectGroupView, int),
    DecodeError,
> {
    if !fits(data, pos, 33) {
        Err(DecodeError::Truncated)
    } else {
        match spec_read_effect_seq(data, pos + 33, le16_at(data, pos + 31) as nat) {
            Err(e) => Err(e),
            Ok((effs, p)) => Ok((
                ResearchEffectGroupView {
                    id: 0,
                    name: nul_trimmed(data.subrange(pos, pos + 31)),
                    effects: effs,
                },
                p,
            )),
        }
    }
}

/// `n` consecutive groups, ids still zero.
pub open spec fn spec_read_age_seq(data: Seq<u8>, pos: int, n: nat) -> Result<
    (Seq<ResearchEffectGroupView>, int),
    DecodeError,
>
    decreases n,
{
    if n == 0 {
        Ok((Seq::empty(), pos))
    } else {
        match spec_read_age(data, pos) {
            Err(e) => Err(e),
            Ok((g, p)) => match spec_read_age_seq(data, p, (n - 1) as nat) {
                Err(e) => Err(e),
                Ok((rest, p2)) => Ok((seq![g] + rest, p2)),
            },
        }
    }
}

/// Overwrite each group's id with its zero-based position.
pub open spec fn assign_ids(s: Seq<ResearchEffectGroupView>) -> Seq<ResearchEffectGroupView> {
    s.map(
        |i: int, g: ResearchEffectGroupView|
            ResearchEffectGroupView { id: i, name: g.name, effects: g.effects },
    )
}

/// The whole table: a 32-bit group count, the groups, ids assigned by
/// position.
pub open spec fn spec_read_ages(data: Seq<u8>, pos: int) -> Result<
    (Seq<ResearchEffectGroupView>, int),
    DecodeError,
> {
    if !fits(data, pos, 4) {
        Err(DecodeError::Truncated)
    } else {
        match spec_read_age_seq(data, pos + 4, le32_at(data, pos) as nat) {
            Err(e) => Err(e),
            Ok((gs, p)) => Ok((assign_ids(gs), p)),
        }
    }
}

/// Decode one effect record at the cursor.
pub fn read_age_effect(stream: &mut Reader) -> (r: Result<ResearchEffect, DecodeError>)
    requires
        old(stream).wf(),
    ensures
        final(stream).wf(),
        final(stream).data() == old(stream).data(),
        match r {
            Ok(v) => spec_read_effect(old(stream).data(), old(stream).cursor()) == decoded(
                v,
                final(stream).cursor(),
            ),
            Err(e) => spec_read_effect(old(stream).data(), old(stream).cursor())
                == failed::<ResearchEffect>(e)
                && (e == DecodeError::Truncated ==> final(stream).cursor() <= old(stream).cursor()
                    + 11),
        },
    {
    let type_id = match stream.read_i8() {
        Ok(v) => v,
        Err(e) => return Err(e),
    };
    let param_a = match stream.read_i16() {
        Ok(v) => v,
        Err(e) => return Err(e),
    };
    let param_b = match stream.read_i16() {
        Ok(v) => v,
        Err(e) => return Err(e),
    };
    let param_c = match stream.read_i16() {
        Ok(v) => v,
        Err(e) => return Err(e),
    };
    let param_d = match stream.read_u32() {
        Ok(v) => FloatBits(v),
        Err(e) => return Err(e),
    };
    let result = match type_id {
        0 | 4 | 5 => ResearchEffect::UnitAttribute {
            target_unit_id: optional_id(param_a as i32),
            target_unit_class_id: optional_id(param_b as i32),
            attribute_id: UnitAttributeId::from_i16(param_c),
            effect: match type_id {
                0 => ResearchEffectValue::SetTo(param_d),
                4 => ResearchEffectValue::Add(param_d),
                _ => ResearchEffectValue::MultiplyBy(param_d),
            },
        },
        1 if param_b == 0 || param_b == 1 => ResearchEffect::CivHeader {
            target_civ_header_id: param_a,
            effect: if param_b == 0 {
                ResearchEffectValue::SetTo(param_d)
            } else {
                ResearchEffectValue::Add(param_d)
            },
        },
        6 => ResearchEffect::CivHeader {
            target_civ_header_id: param_a,
            effect: ResearchEffectValue::MultiplyBy(param_d),
        },
        2 => ResearchEffect::SetUnitEnabled {
            target_unit_id: optional_id(param_a as i32),
            enabled: param_b == 1,
        },
        3 => {
            if param_a == -1 || param_b == -1 {
                return Err(DecodeError::AbsentRequiredId);
            }
            ResearchEffect::UpgradeUnit {
                source_unit_id: param_a as i32,
                target_unit_id: param_b as i32,
            }
        }
        101 if param_c == 0 || param_c == 1 => {
            if param_a == -1 {
                return Err(DecodeError::AbsentRequiredId);
            }
            ResearchEffect::ResearchCost {
                research_id: param_a as i32,
                resource_type: param_b,
                effect: if param_c == 0 {
                    ResearchEffectValue::SetTo(param_d)
                } else {
                    ResearchEffectValue::Add(param_d)
                },
            }
        }
        102 => {
            let research_id = param_d.to_i32_trunc();
            if research_id == -1 {
                return Err(DecodeError::AbsentRequiredId);
            }
            ResearchEffect::DisableResearch { research_id }
        }
        103 => {
            if param_a == -1 {
                return Err(DecodeError::AbsentRequiredId);
            }
            ResearchEffect::GainResearch { research_id: param_a as i32 }
        }
        _ => ResearchEffect::Unknown {
            type_id,
            param_a,
            param_b,
            param_c,
            param_d,
        },
    };
    Ok(result)
}

/// Decode one effect group at the cursor; its id is left at zero.
pub fn read_age(stream: &mut Reader) -> (r: Result<ResearchEffectGroup, DecodeError>)
    requires
        old(stream).wf(),
    ensures
        final(stream).wf(),
        final(stream).data() == old(stream).data(),
        match r {
            Ok(v) => spec_read_age(old(stream).data(), old(stream).cursor()) == decoded(
                v@,
                final(stream).cursor(),
            ),
            Err(e) => spec_read_age(old(stream).data(), old(stream).cursor())
                == failed::<ResearchEffectGroupView>(e),
        },
    {
    let ghost d = old(stream).data();
    let name = match stream.read_sized_str(31) {
        Ok(v) => v,
        Err(e) => return Err(e),
    };
    let effect_count = match stream.read_u16() {
        Ok(v) => v,
        Err(e) => return Err(e),
    };
    let n = effect_count as usize;
    let mut effects: Vec<ResearchEffect> = Vec::new();
    let mut i: usize = 0;
    let ghost body0 = stream.cursor();
    #[verifier::loop_isolation(false)]
    while i < n
        invariant
            stream.wf(),
            stream.data() == d,
            i <= n,
            effects@.len() == i,
            match spec_read_effect_seq(d, stream.cursor(), (n - i) as nat) {
                Ok((rest, p)) => spec_read_effect_seq(d, body0, n as nat) == decoded(
                    effects@ + rest,
                    p,
                ),
                Err(e) => spec_read_effect_seq(d, body0, n as nat) == failed::<
                    Seq<ResearchEffect>,
                >(e),
            },
        decreases n - i,
    {
        let eff = match read_age_effect(stream) {
            Ok(v) => v,
            Err(e) => return Err(e),
        };
        let ghost effs_old = effects@;
        effects.push(eff);
        i = i + 1;
        proof {
            assert(effects@ =~= effs_old + seq![eff]);
            match spec_read_effect_seq(d, stream.cursor(), (n - i) as nat) {
                Ok(pr) => {
                    assert(effs_old + (seq![eff] + pr.0) =~= effects@ + pr.0);
                }
                Err(_) => {}
            }
        }
    }
    proof {
        assert(effects@ + Seq::<ResearchEffect>::empty() =~= effects@);
    }
    Ok(ResearchEffectGroup { id: 0, name, effects })
}

/// Decode the whole effect-group table at the cursor.  Group ids are the
/// zero-based decode positions; whatever the stream stored is overwritten.
pub fn read_ages(stream: &mut Reader) -> (r: Result<Vec<ResearchEffectGroup>, DecodeError>)
    requires
        old(stream).wf(),
    ensures
        final(stream).wf(),
        final(stream).data() == old(stream).data(),
        match r {
            Ok(v) => spec_read_ages(old(stream).data(), old(stream).cursor()) == decoded(
                v.deep_view(),
                final(stream).cursor(),
            ),
            Err(e) => spec_read_ages(old(stream).data(), old(stream).cursor())
                == failed::<Seq<ResearchEffectGroupView>>(e),
        },
    {
    let ghost d = old(stream).data();
    let age_count = match stream.read_u32() {
        Ok(v) => v,
        Err(e) => return Err(e),
    };
    let n = age_count as usize;
    let mut ages: Vec<ResearchEffectGroup> = Vec::new();
    let mut i: usize = 0;
    let ghost body0 = stream.cursor();
    let ghost mut pre: Seq<ResearchEffectGroupView> = Seq::empty();
    #[verifier::loop_isolation(false)]
    while i < n
        invariant
            stream.wf(),
            stream.data() == d,
            i <= n,
            pre.len() == i,
            ages.deep_view() == assign_ids(pre),
            match spec_read_age_seq(d, stream.cursor(), (n - i) as nat) {
                Ok((rest, p)) => spec_read_age_seq(d, body0, n as nat) == decoded(pre + rest, p),
                Err(e) => spec_read_age_seq(d, body0, n as nat) == failed::<
                    Seq<ResearchEffectGroupView>,
                >(e),
            },
        decreases n - i,
    {
        let mut age = match read_age(stream) {
            Ok(v) => v,
            Err(e) => return Err(e),
        };
        let ghost g0 = age@;
        age.id = i as u32;
        let ghost ages_old = ages.deep_view();
        ages.push(age);
        i = i + 1;
        proof {
            let pre_old = pre;
            pre = pre + seq![g0];
            assert(ages.deep_view() =~= ages_old.push(
                ResearchEffectGroupView { id: i - 1, name: g0.name, effects: g0.effects },
            ));
            assert(ages.deep_view() =~= assign_ids(pre));
            match spec_read_age_seq(d, stream.cursor(), (n - i) as nat) {
                Ok(pr) => {
                    assert(pre_old + (seq![g0] + pr.0) =~= pre + pr.0);
                }
                Err(_) => {}
            }
        }
    }
    proof {
        assert(pre + Seq::<ResearchEffectGroupView>::empty() =~= pre);
    }
    Ok(ages)
}

/// Decoding is a function of the byte buffer and start position alone: two
/// decodes of the same buffer yield structurally equal group trees.
pub proof fn lemma_read_ages_deterministic(
    data: Seq<u8>,
    pos: int,
    r1: Result<(Seq<ResearchEffectGroupView>, int), DecodeError>,
    r2: Result<(Seq<ResearchEffectGroupView>, int), DecodeError>,
)
    requires
        r1 == spec_read_ages(data, pos),
        r2 == spec_read_ages(data, pos),
    ensures
        r1 == r2,
{
}

/// A group run decodes exactly as many groups as its count says, whatever
/// each group's own size turned out to be.
pub proof fn lemma_age_seq_count(data: Seq<u8>, pos: int, n: nat)
    ensures
        spec_read_age_seq(data, pos, n) matches Ok((gs, end)) ==> gs.len() == n,
    decreases n,
{
    if n > 0 {
        match spec_read_age(data, pos) {
            Ok(pr) => {
                lemma_age_seq_count(data, pr.1, (n - 1) as nat);
            }
            Err(_) => {}
        }
    }
}

/// Effect records are fixed-width: a run of `n` of them consumes exactly
/// `11 * n` bytes and yields exactly `n` records.
pub proof fn lemma_effect_seq_consumes(data: Seq<u8>, pos: int, n: nat)
    ensures
        spec_read_effect_seq(data, pos, n) matches Ok((effs, end)) ==> effs.len() == n && end
            == pos + 11 * n,
    decreases n,
{
    if n > 0 {
        match spec_read_effect(data, pos) {
            Ok(pr) => {
                lemma_effect_seq_consumes(data, pr.1, (n - 1) as nat);
            }
            Err(_) => {}
        }
    }
}

} // verus!
