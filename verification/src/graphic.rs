//! Graphic (sprite animation) definitions.
//!
//! The stream holds a 16-bit slot count and then one 32-bit presence marker
//! per slot.  A marker's magnitude means nothing: zero means the slot has no
//! record and consumes no further bytes, nonzero means one fixed-layout
//! record body follows in slot order.  Record bodies carry delta and
//! attack-sound sub-records whose full fixed widths are always consumed,
//! while sub-records with an absent identifier are dropped from the output.

use vstd::prelude::*;

use crate::float_bits::FloatBits;
use crate::ident::optional_id;
use crate::reader::{
    byte_at, decoded, failed, fits, le16_at, le32_at, nul_trimmed, signed16, signed32, signed8,
    DecodeError, Reader,
};

verus! {

/// A sound to play for one attack frame; dropped when its sound-group
/// reference is absent.
#[derive(Clone, Copy, PartialEq, Eq, Debug)]
pub struct GraphicAttackSound {
    pub sound_delay: i16,
    pub sound_group_id: i32,
}

impl DeepView for GraphicAttackSound {
    type V = GraphicAttackSound;

    open spec fn deep_view(&self) -> GraphicAttackSound {
        *self
    }
}

/// Additional graphic drawn with a graphic; dropped when its graphic
/// reference is absent.
#[derive(Clone, Copy, PartialEq, Eq, Debug)]
pub struct GraphicDelta {
    /// Graphic to draw.
    pub graphic_id: i32,
    /// X offset from the parent graphic.
    pub offset_x: i16,
    /// Y offset from the parent graphic.
    pub offset_y: i16,
    /// Read for layout; not consulted by anything downstream.
    pub display_angle: i16,
}

impl DeepView for GraphicDelta {
    type V = GraphicDelta;

    open spec fn deep_view(&self) -> GraphicDelta {
        *self
    }
}

/// One decoded animation/graphic record.
#[derive(Clone, PartialEq, Eq, Debug)]
pub struct Graphic {
    pub id: i32,
    pub name: Vec<u8>,
    pub short_name: Vec<u8>,
    pub slp_id: Option<i32>,
    pub layer: u8,
    pub player_color_id: Option<i32>,
    pub second_player_color_id: Option<i32>,
    /// Whether to replay at the end of the animation.
    pub replay: bool,
    pub coordinates: Vec<u16>,
    /// Sound played while the graphic is on screen.
    pub sound_group_id: Option<i32>,
    pub frame_count: u16,
    pub angle_count: u16,
    pub new_speed: FloatBits,
    pub frame_rate: FloatBits,
    pub replay_delay: FloatBits,
    pub sequence_type: u8,
    pub mirror_mode: u8,
    /// Deltas this graphic would create, absent references dropped.
    pub deltas: Vec<GraphicDelta>,
    pub attack_sounds: Vec<GraphicAttackSound>,
}

/// The mathematical shadow of [`Graphic`].
pub struct GraphicView {
    pub id: i32,
    pub name: Seq<u8>,
    pub short_name: Seq<u8>,
    pub slp_id: Option<i32>,
    pub layer: u8,
    pub player_color_id: Option<i32>,
    pub second_player_color_id: Option<i32>,
    pub replay: bool,
    pub coordinates: Seq<u16>,
    pub sound_group_id: Option<i32>,
    pub frame_count: u16,
    pub angle_count: u16,
    pub new_speed: FloatBits,
    pub frame_rate: FloatBits,
    pub replay_delay: FloatBits,
    pub sequence_type: u8,
    pub mirror_mode: u8,
    pub deltas: Seq<GraphicDelta>,
    pub attack_sounds: Seq<GraphicAttackSound>,
}

impl View for Graphic {
    type V = GraphicView;

    open spec fn view(&self) -> GraphicView {
        GraphicView {
            id: self.id,
            name: self.name@,
            short_name: self.short_name@,
            slp_id: self.slp_id,
            layer: self.layer,
            player_color_id: self.player_color_id,
            second_player_color_id: self.second_player_color_id,
            replay: self.replay,
            coordinates: self.coordinates@,
            sound_group_id: self.sound_group_id,
            frame_count: self.frame_count,
            angle_count: self.angle_count,
            new_speed: self.new_speed,
            frame_rate: self.frame_rate,
            replay_delay: self.replay_delay,
            sequence_type: self.sequence_type,
            mirror_mode: self.mirror_mode,
            deltas: self.deltas@,
            attack_sounds: self.attack_sounds@,
        }
    }
}

impl DeepView for Graphic {
    type V = GraphicView;

    open spec fn deep_view(&self) -> GraphicView {
        self@
    }
}

/// One 16-byte delta sub-record: optional graphic reference, six unknown
/// bytes, three offsets, two unknown bytes.  `None` when the reference is
/// absent; the full width is consumed either way.
pub open spec fn spec_read_delta(data: Seq<u8>, pos: int) -> Result<
    (Option<GraphicDelta>, int),
    DecodeError,
> {
    if !fits(data, pos, 16) {
        Err(DecodeError::Truncated)
    } else {
        let gid = signed16(le16_at(data, pos));
        let v = if gid == -1 {
            None
        } else {
            Some(GraphicDelta {
                graphic_id: gid as i32,
                offset_x: signed16(le16_at(data, pos + 8)) as i16,
                offset_y: signed16(le16_at(data, pos + 10)) as i16,
                display_angle: signed16(le16_at(data, pos + 12)) as i16,
            })
        };
        Ok((v, pos + 16))
    }
}

/// `n` delta sub-records; absent ones dropped from the output but their
/// bytes consumed.
pub open spec fn spec_read_delta_seq(data: Seq<u8>, pos: int, n: nat) -> Result<
    (Seq<GraphicDelta>, int),
    DecodeError,
>
    decreases n,
{
    if n == 0 {
        Ok((Seq::empty(), pos))
    } else {
        match spec_read_delta(data, pos) {
            Err(e) => Err(e),
            Ok((od, p)) => match spec_read_delta_seq(data, p, (n - 1) as nat) {
                Err(e) => Err(e),
                Ok((rest, p2)) => Ok(
                    (
                        match od {
                            Some(dd) => seq![dd] + rest,
                            None => rest,
                        },
                        p2,
                    ),
                ),
            },
        }
    }
}

/// One 4-byte attack-sound sub-record: delay, optional sound-group
/// reference; `None` when the reference is absent.
pub open spec fn spec_read_attack_sound(data: Seq<u8>, pos: int) -> Result<
    (Option<GraphicAttackSound>, int),
    DecodeError,
> {
    if !fits(data, pos, 4) {
        Err(DecodeError::Truncated)
    } else {
        let sid = signed16(le16_at(data, pos + 2));
        let v = if sid == -1 {
            None
        } else {
            Some(GraphicAttackSound {
                sound_delay: signed16(le16_at(data, pos)) as i16,
                sound_group_id: sid as i32,
            })
        };
        Ok((v, pos + 4))
    }
}

/// `n` attack-sound sub-records, absent ones dropped.
pub open spec fn spec_read_attack_sound_seq(data: Seq<u8>, pos: int, n: nat) -> Result<
    (Seq<GraphicAttackSound>, int),
    DecodeError,
>
    decreases n,
{
    if n == 0 {
        Ok((Seq::empty(), pos))
    } else {
        match spec_read_attack_sound(data, pos) {
            Err(e) => Err(e),
            Ok((oa, p)) => match spec_read_attack_sound_seq(data, p, (n - 1) as nat) {
                Err(e) => Err(e),
                Ok((rest, p2)) => Ok(
                    (
                        match oa {
                            Some(a) => seq![a] + rest,
                            None => rest,
                        },
                        p2,
                    ),
                ),
            },
        }
    }
}

/// `n` 32-bit presence markers.
pub open spec fn spec_read_marker_seq(data: Seq<u8>, pos: int, n: nat) -> Result<
    (Seq<u32>, int),
    DecodeError,
>
    decreases n,
{
    if n == 0 {
        Ok((Seq::empty(), pos))
    } else if !fits(data, pos, 4) {
        Err(DecodeError::Truncated)
    } else {
        match spec_read_marker_seq(data, pos + 4, (n - 1) as nat) {
            Err(e) => Err(e),
            Ok((rest, p)) => Ok((seq![le32_at(data, pos) as u32] + rest, p)),
        }
    }
}

/// The 77-byte fixed part of a graphic record body, its sub-arrays still
/// empty.
pub open spec fn spec_read_graphic_fixed(data: Seq<u8>, pos: int) -> Result<
    (GraphicView, int),
    DecodeError,
> {
    if !fits(data, pos, 76) {
        Err(DecodeError::Truncated)
    } else if signed16(le16_at(data, pos + 74)) == -1 {
        Err(DecodeError::AbsentRequiredId)
    } else if !fits(data, pos, 77) {
        Err(DecodeError::Truncated)
    } else {
        Ok(
            (
                GraphicView {
                    id: signed16(le16_at(data, pos + 74)) as i32,
                    name: nul_trimmed(data.subrange(pos, pos + 21)),
                    short_name: nul_trimmed(data.subrange(pos + 21, pos + 34)),
                    slp_id: crate::ident::opt_id(signed32(le32_at(data, pos + 34))),
                    layer: byte_at(data, pos + 40) as u8,
                    player_color_id: crate::ident::opt_id(signed8(byte_at(data, pos + 41))),
                    second_player_color_id: crate::ident::opt_id(signed8(byte_at(data, pos + 42))),
                    replay: byte_at(data, pos + 43) != 0,
                    coordinates: seq![
                        le16_at(data, pos + 44) as u16,
                        le16_at(data, pos + 46) as u16,
                        le16_at(data, pos + 48) as u16,
                        le16_at(data, pos + 50) as u16,
                    ],
                    sound_group_id: crate::ident::opt_id(signed16(le16_at(data, pos + 54))),
                    frame_count: le16_at(data, pos + 57) as u16,
                    angle_count: le16_at(data, pos + 59) as u16,
                    new_speed: FloatBits(le32_at(data, pos + 61) as u32),
                    frame_rate: FloatBits(le32_at(data, pos + 65) as u32),
                    replay_delay: FloatBits(le32_at(data, pos + 69) as u32),
                    sequence_type: byte_at(data, pos + 73) as u8,
                    mirror_mode: byte_at(data, pos + 76) as u8,
                    deltas: Seq::empty(),
                    attack_sounds: Seq::empty(),
                },
                pos + 77,
            ),
        )
    }
}

/// One graphic record body: the 77-byte fixed part, then the delta
/// sub-array, then — only when the attack-sound flag is nonzero — three
/// attack-sound sub-records per facing angle.
pub open spec fn spec_read_graphic(data: Seq<u8>, pos: int) -> Result<
    (GraphicView, int),
    DecodeError,
> {
    match spec_read_graphic_fixed(data, pos) {
        Err(e) => Err(e),
        Ok((g, p0)) => {
            let delta_count = le16_at(data, pos + 52) as nat;
            let attack_sound_used = byte_at(data, pos + 56);
            let angle_count = le16_at(data, pos + 59) as nat;
            match spec_read_delta_seq(data, p0, delta_count) {
                Err(e) => Err(e),
                Ok((deltas, p)) => {
                    let sounds_res = if attack_sound_used != 0 {
                        spec_read_attack_sound_seq(data, p, 3 * angle_count)
                    } else {
                        Ok((Seq::empty(), p))
                    };
                    match sounds_res {
                        Err(e) => Err(e),
                        Ok((sounds, p2)) => Ok(
                            (GraphicView { deltas, attack_sounds: sounds, ..g }, p2),
                        ),
                    }
                }
            }
        }
    }
}

/// The record bodies for a marker sequence: a zero marker contributes
/// nothing and consumes nothing; a nonzero marker contributes one record.
pub open spec fn spec_read_graphic_bodies(data: Seq<u8>, pos: int, markers: Seq<u32>) -> Result<
    (Seq<GraphicView>, int),
    DecodeError,
>
    decreases markers.len(),
{
    if markers.len() == 0 {
        Ok((Seq::empty(), pos))
    } else if markers[0] == 0 {
        spec_read_graphic_bodies(data, pos, markers.subrange(1, markers.len() as int))
    } else {
        match spec_read_graphic(data, pos) {
            Err(e) => Err(e),
            Ok((g, p)) => match spec_read_graphic_bodies(
                data,
                p,
                markers.subrange(1, markers.len() as int),
            ) {
                Err(e) => Err(e),
                Ok((rest, p2)) => Ok((seq![g] + rest, p2)),
            },
        }
    }
}

/// The whole graphic table: a 16-bit slot count, one 32-bit presence marker
/// per slot, then one record body per nonzero marker.
pub open spec fn spec_read_graphics(data: Seq<u8>, pos: int) -> Result<
    (Seq<GraphicView>, int),
    DecodeError,
> {
    if !fits(data, pos, 2) {
        Err(DecodeError::Truncated)
    } else {
        match spec_read_marker_seq(data, pos + 2, le16_at(data, pos) as nat) {
            Err(e) => Err(e),
            Ok((markers, p)) => spec_read_graphic_bodies(data, p, markers),
        }
    }
}

/// Decode the 77-byte fixed part of a graphic record body; the record's
/// sub-arrays stay empty.  Also hands back the raw delta count and
/// attack-sound flag, which govern the sub-arrays but are no record fields.
#[verifier::rlimit(100)]
fn read_graphic_fixed(stream: &mut Reader) -> (r: Result<(Graphic, u16, u8), DecodeError>)
    requires
        old(stream).wf(),
    ensures
        final(stream).wf(),
        final(stream).data() == old(stream).data(),
        match r {
            Ok((v, delta_count, attack_sound_used)) => spec_read_graphic_fixed(
                old(stream).data(),
                old(stream).cursor(),
            ) == decoded(v@, final(stream).cursor()) && delta_count as int == le16_at(
                old(stream).data(),
                old(stream).cursor() + 52,
            ) && attack_sound_used as int == byte_at(old(stream).data(), old(stream).cursor() + 56)
                && v.deltas@.len() == 0 && v.attack_sounds@.len() == 0,
            Err(e) => spec_read_graphic_fixed(old(stream).data(), old(stream).cursor())
                == failed::<GraphicView>(e),
        },
    {
    let name = match stream.read_sized_str(21) {
        Ok(v) => v,
        Err(e) => return Err(e),
    };
    let short_name = match stream.read_sized_str(13) {
        Ok(v) => v,
        Err(e) => return Err(e),
    };
    let slp_raw = match stream.read_i32() {
        Ok(v) => v,
        Err(e) => return Err(e),
    };
    match stream.skip(2) {
        Ok(_) => (),
        Err(e) => return Err(e),
    };
    let layer = match stream.read_u8() {
        Ok(v) => v,
        Err(e) => return Err(e),
    };
    let pc_raw = match stream.read_i8() {
        Ok(v) => v,
        Err(e) => return Err(e),
    };
    let pc2_raw = match stream.read_i8() {
        Ok(v) => v,
        Err(e) => return Err(e),
    };
    let replay_raw = match stream.read_u8() {
        Ok(v) => v,
        Err(e) => return Err(e),
    };
    let mut coordinates: Vec<u16> = Vec::new();
    let c0 = match stream.read_u16() {
        Ok(v) => v,
        Err(e) => return Err(e),
    };
    let c1 = match stream.read_u16() {
        Ok(v) => v,
        Err(e) => return Err(e),
    };
    let c2 = match stream.read_u16() {
        Ok(v) => v,
        Err(e) => return Err(e),
    };
    let c3 = match stream.read_u16() {
        Ok(v) => v,
        Err(e) => return Err(e),
    };
    coordinates.push(c0);
    coordinates.push(c1);
    coordinates.push(c2);
    coordinates.push(c3);
    let delta_count = match stream.read_u16() {
        Ok(v) => v,
        Err(e) => return Err(e),
    };
    let sound_raw = match stream.read_i16() {
        Ok(v) => v,
        Err(e) => return Err(e),
    };
    let attack_sound_used = match stream.read_u8() {
        Ok(v) => v,
        Err(e) => return Err(e),
    };
    let frame_count = match stream.read_u16() {
        Ok(v) => v,
        Err(e) => return Err(e),
    };
    let angle_count = match stream.read_u16() {
        Ok(v) => v,
        Err(e) => return Err(e),
    };
    let new_speed = match stream.read_u32() {
        Ok(v) => FloatBits(v),
        Err(e) => return Err(e),
    };
    let frame_rate = match stream.read_u32() {
        Ok(v) => FloatBits(v),
        Err(e) => return Err(e),
    };
    let replay_delay = match stream.read_u32() {
        Ok(v) => FloatBits(v),
        Err(e) => return Err(e),
    };
    let sequence_type = match stream.read_u8() {
        Ok(v) => v,
        Err(e) => return Err(e),
    };
    let id_raw = match stream.read_i16() {
        Ok(v) => v,
        Err(e) => return Err(e),
    };
    if id_raw == -1 {
        return Err(DecodeError::AbsentRequiredId);
    }
    let mirror_mode = match stream.read_u8() {
        Ok(v) => v,
        Err(e) => return Err(e),
    };
    proof {
        assert(coordinates@ =~= seq![c0, c1, c2, c3]);
    }
    let g = Graphic {
        id: id_raw as i32,
        name,
        short_name,
        slp_id: optional_id(slp_raw),
        layer,
        player_color_id: optional_id(pc_raw as i32),
        second_player_color_id: optional_id(pc2_raw as i32),
        replay: replay_raw != 0,
        coordinates,
        sound_group_id: optional_id(sound_raw as i32),
        frame_count,
        angle_count,
        new_speed,
        frame_rate,
        replay_delay,
        sequence_type,
        mirror_mode,
        deltas: Vec::new(),
        attack_sounds: Vec::new(),
    };
    Ok((g, delta_count, attack_sound_used))
}

/// Decode one graphic record body at the cursor.
#[verifier::rlimit(100)]
pub fn read_graphic(stream: &mut Reader) -> (r: Result<Graphic, DecodeError>)
    requires
        old(stream).wf(),
    ensures
        final(stream).wf(),
        final(stream).data() == old(stream).data(),
        match r {
            Ok(v) => spec_read_graphic(old(stream).data(), old(stream).cursor()) == decoded(
                v@,
                final(stream).cursor(),
            ),
            Err(e) => spec_read_graphic(old(stream).data(), old(stream).cursor()) == failed::<
                GraphicView,
            >(e),
        },
    {
    let ghost d = old(stream).data();
    let (mut graphic, delta_count, attack_sound_used) = match read_graphic_fixed(stream) {
        Ok(v) => v,
        Err(e) => return Err(e),
    };
    let angle_count = graphic.angle_count;

    let dn = delta_count as usize;
    let mut deltas: Vec<GraphicDelta> = Vec::new();
    let mut i: usize = 0;
    let ghost dstart = stream.cursor();
    #[verifier::loop_isolation(false)]
    while i < dn
        invariant
            stream.wf(),
            stream.data() == d,
            i <= dn,
            match spec_read_delta_seq(d, stream.cursor(), (dn - i) as nat) {
                Ok((rest, p)) => spec_read_delta_seq(d, dstart, dn as nat) == decoded(
                    deltas.deep_view() + rest,
                    p,
                ),
                Err(e) => spec_read_delta_seq(d, dstart, dn as nat) == failed::<
                    Seq<GraphicDelta>,
                >(e),
            },
        decreases dn - i,
    {
        let od = match read_delta(stream) {
            Ok(v) => v,
            Err(e) => return Err(e),
        };
        let ghost ds_old = deltas.deep_view();
        match od {
            Some(dd) => {
                deltas.push(dd);
            }
            None => (),
        }
        i = i + 1;
        proof {
            match spec_read_delta_seq(d, stream.cursor(), (dn - i) as nat) {
                Ok(pr) => {
                    match od {
                        Some(dd) => {
                            assert(deltas.deep_view() =~= ds_old + seq![dd]);
                            assert(ds_old + (seq![dd] + pr.0) =~= deltas.deep_view() + pr.0);
                        }
                        None => {}
                    }
                }
                Err(_) => {}
            }
        }
    }

    let mut attack_sounds: Vec<GraphicAttackSound> = Vec::new();
    if attack_sound_used != 0 {
        let sn = 3 * (angle_count as usize);
        let mut k: usize = 0;
        let ghost sstart = stream.cursor();
        #[verifier::loop_isolation(false)]
        while k < sn
            invariant
                stream.wf(),
                stream.data() == d,
                k <= sn,
                match spec_read_attack_sound_seq(d, stream.cursor(), (sn - k) as nat) {
                    Ok((rest, p)) => spec_read_attack_sound_seq(d, sstart, sn as nat) == decoded(
                        attack_sounds.deep_view() + rest,
                        p,
                    ),
                    Err(e) => spec_read_attack_sound_seq(d, sstart, sn as nat) == failed::<
                        Seq<GraphicAttackSound>,
                    >(e),
                },
            decreases sn - k,
        {
            let oa = match read_attack_sound(stream) {
                Ok(v) => v,
                Err(e) => return Err(e),
            };
            let ghost as_old = attack_sounds.deep_view();
            match oa {
                Some(a) => {
                    attack_sounds.push(a);
                }
                None => (),
            }
            k = k + 1;
            proof {
                match spec_read_attack_sound_seq(d, stream.cursor(), (sn - k) as nat) {
                    Ok(pr) => {
                        match oa {
                            Some(a) => {
                                assert(attack_sounds.deep_view() =~= as_old + seq![a]);
                                assert(as_old + (seq![a] + pr.0) =~= attack_sounds.deep_view()
                                    + pr.0);
                            }
                            None => {}
                        }
                    }
                    Err(_) => {}
                }
            }
        }
    }
    proof {
        assert(deltas.deep_view() + Seq::<GraphicDelta>::empty() =~= deltas.deep_view());
        assert(attack_sounds.deep_view() + Seq::<GraphicAttackSound>::empty()
            =~= attack_sounds.deep_view());
        assert(deltas.deep_view() =~= deltas@);
        assert(attack_sounds.deep_view() =~= attack_sounds@);
    }
    graphic.deltas = deltas;
    graphic.attack_sounds = attack_sounds;
    Ok(graphic)
}

/// Decode the whole graphic table at the cursor.
#[verifier::rlimit(100)]
pub fn read_graphics(stream: &mut Reader) -> (r: Result<Vec<Graphic>, DecodeError>)
    requires
        old(stream).wf(),
    ensures
        final(stream).wf(),
        final(stream).data() == old(stream).data(),
        match r {
            Ok(v) => spec_read_graphics(old(stream).data(), old(stream).cursor()) == decoded(
                v.deep_view(),
                final(stream).cursor(),
            ),
            Err(e) => spec_read_graphics(old(stream).data(), old(stream).cursor()) == failed::<
                Seq<GraphicView>,
            >(e),
        },
    {
    let ghost d = old(stream).data();
    let graphic_count = match stream.read_u16() {
        Ok(v) => v,
        Err(e) => return Err(e),
    };
    let n = graphic_count as usize;

    let mut graphic_pointers: Vec<u32> = Vec::new();
    let mut i: usize = 0;
    let ghost mstart = stream.cursor();
    #[verifier::loop_isolation(false)]
    while i < n
        invariant
            stream.wf(),
            stream.data() == d,
            i <= n,
            graphic_pointers@.len() == i,
            match spec_read_marker_seq(d, stream.cursor(), (n - i) as nat) {
                Ok((rest, p)) => spec_read_marker_seq(d, mstart, n as nat) == decoded(
                    graphic_pointers@ + rest,
                    p,
                ),
                Err(e) => spec_read_marker_seq(d, mstart, n as nat) == failed::<Seq<u32>>(e),
            },
        decreases n - i,
    {
        let m = match stream.read_u32() {
            Ok(v) => v,
            Err(e) => return Err(e),
        };
        let ghost ms_old = graphic_pointers@;
        graphic_pointers.push(m);
        i = i + 1;
        proof {
            assert(graphic_pointers@ =~= ms_old + seq![m]);
            match spec_read_marker_seq(d, stream.cursor(), (n - i) as nat) {
                Ok(pr) => {
                    assert(ms_old + (seq![m] + pr.0) =~= graphic_pointers@ + pr.0);
                }
                Err(_) => {}
            }
        }
    }

    let ghost markers = graphic_pointers@;
    let ghost bstart = stream.cursor();
    let mut graphics: Vec<Graphic> = Vec::new();
    let mut j: usize = 0;
    proof {
        assert(markers.skip(0) =~= markers);
        assert(graphics.deep_view() + Seq::<GraphicView>::empty() =~= graphics.deep_view());
    }
    #[verifier::loop_isolation(false)]
    while j < n
        invariant
            stream.wf(),
            stream.data() == d,
            j <= n,
            graphic_pointers@ == markers,
            markers.len() == n,
            match spec_read_graphic_bodies(d, stream.cursor(), markers.skip(j as int)) {
                Ok((rest, p)) => spec_read_graphic_bodies(d, bstart, markers) == decoded(
                    graphics.deep_view() + rest,
                    p,
                ),
                Err(e) => spec_read_graphic_bodies(d, bstart, markers) == failed::<
                    Seq<GraphicView>,
                >(e),
            },
        decreases n - j,
    {
        proof {
            assert(markers.skip(j as int).len() == n - j);
            assert(markers.skip(j as int)[0] == markers[j as int]);
            assert(markers.skip(j as int).subrange(1, (n - j) as int) =~= markers.skip(j + 1));
        }
        if graphic_pointers[j] != 0 {
            let g = match read_graphic(stream) {
                Ok(v) => v,
                Err(e) => return Err(e),
            };
            let ghost gs_old = graphics.deep_view();
            graphics.push(g);
            proof {
                assert(graphics.deep_view() =~= gs_old + seq![g@]);
                match spec_read_graphic_bodies(d, stream.cursor(), markers.skip(j + 1)) {
                    Ok(pr) => {
                        assert(gs_old + (seq![g@] + pr.0) =~= graphics.deep_view() + pr.0);
                    }
                    Err(_) => {}
                }
            }
        }
        j = j + 1;
    }
    proof {
        assert(markers.skip(n as int) =~= Seq::<u32>::empty());
        assert(graphics.deep_view() + Seq::<GraphicView>::empty() =~= graphics.deep_view());
    }
    Ok(graphics)
}

/// Decode one delta sub-record at the cursor.
pub fn read_delta(stream: &mut Reader) -> (r: Result<Option<GraphicDelta>, DecodeError>)
    requires
        old(stream).wf(),
    ensures
        final(stream).wf(),
        final(stream).data() == old(stream).data(),
        match r {
            Ok(v) => spec_read_delta(old(stream).data(), old(stream).cursor()) == decoded(
                v,
                final(stream).cursor(),
            ),
            Err(e) => spec_read_delta(old(stream).data(), old(stream).cursor()) == failed::<
                Option<GraphicDelta>,
            >(e),
        },
    {
    let graphic_raw = match stream.read_i16() {
        Ok(v) => v,
        Err(e) => return Err(e),
    };
    match stream.skip(6) {
        Ok(_) => (),
        Err(e) => return Err(e),
    };
    let offset_x = match stream.read_i16() {
        Ok(v) => v,
        Err(e) => return Err(e),
    };
    let offset_y = match stream.read_i16() {
        Ok(v) => v,
        Err(e) => return Err(e),
    };
    let display_angle = match stream.read_i16() {
        Ok(v) => v,
        Err(e) => return Err(e),
    };
    match stream.skip(2) {
        Ok(_) => (),
        Err(e) => return Err(e),
    };
    if graphic_raw == -1 {
        Ok(None)
    } else {
        Ok(Some(GraphicDelta { graphic_id: graphic_raw as i32, offset_x, offset_y, display_angle }))
    }
}

/// Decode one attack-sound sub-record at the cursor.
pub fn read_attack_sound(stream: &mut Reader) -> (r: Result<
    Option<GraphicAttackSound>,
    DecodeError,
>)
    requires
        old(stream).wf(),
    ensures
        final(stream).wf(),
        final(stream).data() == old(stream).data(),
        match r {
            Ok(v) => spec_read_attack_sound(old(stream).data(), old(stream).cursor()) == decoded(
                v,
                final(stream).cursor(),
            ),
            Err(e) => spec_read_attack_sound(old(stream).data(), old(stream).cursor()) == failed::<
                Option<GraphicAttackSound>,
            >(e),
        },
    {
    let sound_delay = match stream.read_i16() {
        Ok(v) => v,
        Err(e) => return Err(e),
    };
    let sound_raw = match stream.read_i16() {
        Ok(v) => v,
        Err(e) => return Err(e),
    };
    if sound_raw == -1 {
        Ok(None)
    } else {
        Ok(Some(GraphicAttackSound { sound_delay, sound_group_id: sound_raw as i32 }))
    }
}

/// Decoding the graphic table is a function of the byte buffer and start
/// position alone: two decodes of the same buffer yield equal record trees.
pub proof fn lemma_read_graphics_deterministic(
    data: Seq<u8>,
    pos: int,
    r1: Result<(Seq<GraphicView>, int), DecodeError>,
    r2: Result<(Seq<GraphicView>, int), DecodeError>,
)
    requires
        r1 == spec_read_graphics(data, pos),
        r2 == spec_read_graphics(data, pos),
    ensures
        r1 == r2,
{
}

/// Delta sub-records are fixed-width: a run of `n` consumes exactly
/// `16 * n` bytes, and dropping absent references can only shorten the
/// output relative to the raw count.
pub proof fn lemma_delta_seq_consumes(data: Seq<u8>, pos: int, n: nat)
    ensures
        spec_read_delta_seq(data, pos, n) matches Ok((kept, end)) ==> kept.len() <= n && end == pos
            + 16 * n,
    decreases n,
{
    if n > 0 {
        match spec_read_delta(data, pos) {
            Ok(pr) => {
                lemma_delta_seq_consumes(data, pr.1, (n - 1) as nat);
            }
            Err(_) => {}
        }
    }
}

/// Attack-sound sub-records are fixed-width: a run of `n` consumes exactly
/// `4 * n` bytes and keeps at most `n` records.
pub proof fn lemma_attack_sound_seq_consumes(data: Seq<u8>, pos: int, n: nat)
    ensures
        spec_read_attack_sound_seq(data, pos, n) matches Ok((kept, end)) ==> kept.len() <= n && end
            == pos + 4 * n,
    decreases n,
{
    if n > 0 {
        match spec_read_attack_sound(data, pos) {
            Ok(pr) => {
                lemma_attack_sound_seq_consumes(data, pr.1, (n - 1) as nat);
            }
            Err(_) => {}
        }
    }
}

/// Presence markers are fixed-width: `n` of them consume exactly `4 * n`
/// bytes and yield exactly `n` markers.
pub proof fn lemma_marker_seq_consumes(data: Seq<u8>, pos: int, n: nat)
    ensures
        spec_read_marker_seq(data, pos, n) matches Ok((ms, end)) ==> ms.len() == n && end == pos
            + 4 * n,
    decreases n,
{
    if n > 0 {
        lemma_marker_seq_consumes(data, pos + 4, (n - 1) as nat);
    }
}

/// How many of a marker sequence's slots hold a record.
pub open spec fn present_slot_count(markers: Seq<u32>) -> nat
    decreases markers.len(),
{
    if markers.len() == 0 {
        0
    } else {
        (if markers[0] != 0 {
            1nat
        } else {
            0nat
        }) + present_slot_count(markers.subrange(1, markers.len() as int))
    }
}

/// The decoder yields exactly one graphic per nonzero presence marker:
/// fewer records than slots whenever any marker is zero, and no placeholder
/// for a zero marker.
pub proof fn lemma_one_graphic_per_present_slot(data: Seq<u8>, pos: int, markers: Seq<u32>)
    ensures
        spec_read_graphic_bodies(data, pos, markers) matches Ok((gs, end)) ==> gs.len()
            == present_slot_count(markers),
    decreases markers.len(),
{
    if markers.len() > 0 {
        let rest = markers.subrange(1, markers.len() as int);
        if markers[0] == 0 {
            lemma_one_graphic_per_present_slot(data, pos, rest);
        } else {
            match spec_read_graphic(data, pos) {
                Ok(pr) => {
                    lemma_one_graphic_per_present_slot(data, pr.1, rest);
                }
                Err(_) => {}
            }
        }
    }
}

/// A slot whose presence marker is zero consumes no record bytes and emits
/// no record: over a run of all-zero markers the cursor does not move and
/// the output is empty.
pub proof fn lemma_absent_markers_consume_nothing(data: Seq<u8>, pos: int, markers: Seq<u32>)
    requires
        forall|i: int| 0 <= i < markers.len() ==> markers[i] == 0,
    ensures
        spec_read_graphic_bodies(data, pos, markers) == decoded(Seq::<GraphicView>::empty(), pos),
    decreases markers.len(),
{
    if markers.len() > 0 {
        lemma_absent_markers_consume_nothing(data, pos, markers.subrange(1, markers.len() as int));
    }
}

} // verus!
