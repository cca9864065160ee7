//! Scenario player-data blocks.
//!
//! One large composite record: a format version, sixteen fixed-capacity
//! player slots (names, civilizations, AI configuration, starting
//! resources, research lists, starting ages), ten pascal-style text fields,
//! a conditionally-shaped embedded thumbnail, victory and diplomacy
//! sub-records, and several separator fields that are consumed but not
//! validated.  Every field's offset depends on every prior field, so the
//! decode order itself is part of the format.

use vstd::prelude::*;

use crate::float_bits::FloatBits;
use crate::reader::{
    byte_at, decoded, failed, fits, le16_at, le32_at, nul_trimmed, signed32, DecodeError, Reader,
};

verus! {

/// Width of the unknown region after the conquest-victory flag.
pub const PLAYER_DATA_UNKNOWN_1_LENGTH: usize = 8;

/// Width of the unknown region after a thumbnail's height field.
pub const THUMBNAIL_UNKNOWN_1_LENGTH: usize = 22;

/// Width of the unknown region after a thumbnail's declared pixel length.
pub const THUMBNAIL_UNKNOWN_2_LENGTH: usize = 16;

/// Width of the unknown region of a thumbnail whose inclusion flag is zero.
pub const THUMBNAIL_ABSENT_PADDING: usize = 2;

/// The fixed correction subtracted from a thumbnail's declared pixel-data
/// length: the declared value counts a 40-byte header that is not part of
/// the pixel buffer.
pub const THUMBNAIL_HEADER_CORRECTION: u32 = 40;

/// One player-slot civilization record.
#[derive(Clone, Copy, PartialEq, Eq, Debug)]
pub struct PlayerCivilization {
    pub state: u32,
    pub type_id: u32,
    pub civilization_id: i32,
    pub unknown1: u32,
}

impl DeepView for PlayerCivilization {
    type V = PlayerCivilization;

    open spec fn deep_view(&self) -> PlayerCivilization {
        *self
    }
}

/// One player slot's starting resources.
#[derive(Clone, Copy, PartialEq, Eq, Debug)]
pub struct PlayerStartingResources {
    pub gold: u32,
    pub wood: u32,
    pub food: u32,
    pub stone: u32,
}

impl DeepView for PlayerStartingResources {
    type V = PlayerStartingResources;

    open spec fn deep_view(&self) -> PlayerStartingResources {
        *self
    }
}

/// The embedded preview thumbnail.  Its pixel buffer and two padding
/// regions exist only when the inclusion flag is nonzero; when absent only
/// a two-byte padding region follows the height field.
#[derive(Clone, PartialEq, Eq, Debug)]
pub struct PreviewThumbnail {
    pub included: bool,
    pub width: u32,
    pub height: u32,
    pub unknown1: Vec<u8>,
    pub pixel_data_length: u32,
    pub unknown2: Vec<u8>,
    pub pixel_data: Vec<u8>,
}

/// The mathematical shadow of [`PreviewThumbnail`].
pub struct PreviewThumbnailView {
    pub included: bool,
    pub width: u32,
    pub height: u32,
    pub unknown1: Seq<u8>,
    pub pixel_data_length: u32,
    pub unknown2: Seq<u8>,
    pub pixel_data: Seq<u8>,
}

impl View for PreviewThumbnail {
    type V = PreviewThumbnailView;

    open spec fn view(&self) -> PreviewThumbnailView {
        PreviewThumbnailView {
            included: self.included,
            width: self.width,
            height: self.height,
            unknown1: self.unknown1@,
            pixel_data_length: self.pixel_data_length,
            unknown2: self.unknown2@,
            pixel_data: self.pixel_data@,
        }
    }
}

impl DeepView for PreviewThumbnail {
    type V = PreviewThumbnailView;

    open spec fn deep_view(&self) -> PreviewThumbnailView {
        self@
    }
}

/// One player slot's AI script configuration: three counted strings whose
/// three lengths are read together before the strings.
#[derive(Clone, PartialEq, Eq, Debug)]
pub struct AiScriptConfig {
    pub ai_file_name: Vec<u8>,
    pub city_file_name: Vec<u8>,
    pub personality_file_name: Vec<u8>,
}

/// The mathematical shadow of [`AiScriptConfig`].
pub struct AiScriptConfigView {
    pub ai_file_name: Seq<u8>,
    pub city_file_name: Seq<u8>,
    pub personality_file_name: Seq<u8>,
}

impl View for AiScriptConfig {
    type V = AiScriptConfigView;

    open spec fn view(&self) -> AiScriptConfigView {
        AiScriptConfigView {
            ai_file_name: self.ai_file_name@,
            city_file_name: self.city_file_name@,
            personality_file_name: self.personality_file_name@,
        }
    }
}

impl DeepView for AiScriptConfig {
    type V = AiScriptConfigView;

    open spec fn deep_view(&self) -> AiScriptConfigView {
        self@
    }
}

/// The scenario's victory conditions: ten scalar fields.
#[derive(Clone, Copy, PartialEq, Eq, Debug)]
pub struct VictoryConditions {
    pub conquest_required: bool,
    pub unused1: u32,
    pub required_relic_count: u32,
    pub unused2: u32,
    pub required_exploration_percent: u32,
    pub unused3: u32,
    pub all_conditions_required: bool,
    pub victory_mode: u32,
    pub score_required: u32,
    pub timed_game_time: u32,
}

impl DeepView for VictoryConditions {
    type V = VictoryConditions;

    open spec fn deep_view(&self) -> VictoryConditions {
        *self
    }
}

/// The diplomacy matrices: a 16 by 16 stance matrix and a 16 by 180
/// individual-victory matrix.
#[derive(Clone, PartialEq, Eq, Debug)]
pub struct Diplomacy {
    pub stances: Vec<Vec<u32>>,
    pub individual_victory: Vec<Vec<u32>>,
}

/// The mathematical shadow of [`Diplomacy`].
pub struct DiplomacyView {
    pub stances: Seq<Seq<u32>>,
    pub individual_victory: Seq<Seq<u32>>,
}

impl View for Diplomacy {
    type V = DiplomacyView;

    open spec fn view(&self) -> DiplomacyView {
        DiplomacyView {
            stances: self.stances.deep_view(),
            individual_victory: self.individual_victory.deep_view(),
        }
    }
}

impl DeepView for Diplomacy {
    type V = DiplomacyView;

    open spec fn deep_view(&self) -> DiplomacyView {
        self@
    }
}

/// The whole decoded player-data block.
#[derive(Clone, PartialEq, Eq, Debug)]
pub struct PlayerData {
    pub version: FloatBits,
    pub player_names: Vec<Vec<u8>>,
    pub player_civs: Vec<PlayerCivilization>,
    pub conquest_victory: bool,
    pub unknown1: Vec<u8>,
    pub original_file_name: Vec<u8>,
    pub instructions: Vec<u8>,
    pub hints: Vec<u8>,
    pub victory: Vec<u8>,
    pub loss: Vec<u8>,
    pub history: Vec<u8>,
    pub pre_game_cinematic_file_name: Vec<u8>,
    pub victory_cinematic_file_name: Vec<u8>,
    pub loss_cinematic_file_name: Vec<u8>,
    pub background_file_name: Vec<u8>,
    pub preview_thumbnail: PreviewThumbnail,
    pub ai_names: Vec<Vec<u8>>,
    pub city_names: Vec<Vec<u8>>,
    pub personality_names: Vec<Vec<u8>>,
    pub ai_script_configs: Vec<AiScriptConfig>,
    pub ai_types: Vec<u8>,
    pub player_starting_resources: Vec<PlayerStartingResources>,
    pub victory_conditions: VictoryConditions,
    pub diplomacy: Diplomacy,
    pub allied_victory: Vec<u32>,
    pub disabled_research_ids: Vec<Vec<u32>>,
    pub unused1: u32,
    pub unused2: u32,
    pub all_techs: bool,
    pub starting_ages: Vec<u32>,
}

/// The mathematical shadow of [`PlayerData`].
pub struct PlayerDataView {
    pub version: FloatBits,
    pub player_names: Seq<Seq<u8>>,
    pub player_civs: Seq<PlayerCivilization>,
    pub conquest_victory: bool,
    pub unknown1: Seq<u8>,
    pub original_file_name: Seq<u8>,
    pub instructions: Seq<u8>,
    pub hints: Seq<u8>,
    pub victory: Seq<u8>,
    pub loss: Seq<u8>,
    pub history: Seq<u8>,
    pub pre_game_cinematic_file_name: Seq<u8>,
    pub victory_cinematic_file_name: Seq<u8>,
    pub loss_cinematic_file_name: Seq<u8>,
    pub background_file_name: Seq<u8>,
    pub preview_thumbnail: PreviewThumbnailView,
    pub ai_names: Seq<Seq<u8>>,
    pub city_names: Seq<Seq<u8>>,
    pub personality_names: Seq<Seq<u8>>,
    pub ai_script_configs: Seq<AiScriptConfigView>,
    pub ai_types: Seq<u8>,
    pub player_starting_resources: Seq<PlayerStartingResources>,
    pub victory_conditions: VictoryConditions,
    pub diplomacy: DiplomacyView,
    pub allied_victory: Seq<u32>,
    pub disabled_research_ids: Seq<Seq<u32>>,
    pub unused1: u32,
    pub unused2: u32,
    pub all_techs: bool,
    pub starting_ages: Seq<u32>,
}

impl View for PlayerData {
    type V = PlayerDataView;

    open spec fn view(&self) -> PlayerDataView {
        PlayerDataView {
            version: self.version,
            player_names: self.player_names.deep_view(),
            player_civs: self.player_civs@,
            conquest_victory: self.conquest_victory,
            unknown1: self.unknown1@,
            original_file_name: self.original_file_name@,
            instructions: self.instructions@,
            hints: self.hints@,
            victory: self.victory@,
            loss: self.loss@,
            history: self.history@,
            pre_game_cinematic_file_name: self.pre_game_cinematic_file_name@,
            victory_cinematic_file_name: self.victory_cinematic_file_name@,
            loss_cinematic_file_name: self.loss_cinematic_file_name@,
            background_file_name: self.background_file_name@,
            preview_thumbnail: self.preview_thumbnail@,
            ai_names: self.ai_names.deep_view(),
            city_names: self.city_names.deep_view(),
            personality_names: self.personality_names.deep_view(),
            ai_script_configs: self.ai_script_configs.deep_view(),
            ai_types: self.ai_types@,
            player_starting_resources: self.player_starting_resources@,
            victory_conditions: self.victory_conditions,
            diplomacy: self.diplomacy@,
            allied_victory: self.allied_victory@,
            disabled_research_ids: self.disabled_research_ids.deep_view(),
            unused1: self.unused1,
            unused2: self.unused2,
            all_techs: self.all_techs,
            starting_ages: self.starting_ages@,
        }
    }
}

impl DeepView for PlayerData {
    type V = PlayerDataView;

    open spec fn deep_view(&self) -> PlayerDataView {
        self@
    }
}

/// A pascal string: a 16-bit length prefix, then that many bytes.
pub open spec fn spec_read_pascal_string(data: Seq<u8>, pos: int) -> Result<
    (Seq<u8>, int),
    DecodeError,
> {
    if !fits(data, pos, 2) {
        Err(DecodeError::Truncated)
    } else if !fits(data, pos + 2, le16_at(data, pos)) {
        Err(DecodeError::Truncated)
    } else {
        Ok(
            (
                nul_trimmed(data.subrange(pos + 2, pos + 2 + le16_at(data, pos))),
                pos + 2 + le16_at(data, pos),
            ),
        )
    }
}

/// `n` consecutive pascal strings.
pub open spec fn spec_read_pascal_seq(data: Seq<u8>, pos: int, n: nat) -> Result<
    (Seq<Seq<u8>>, int),
    DecodeError,
>
    decreases n,
{
    if n == 0 {
        Ok((Seq::empty(), pos))
    } else {
        match spec_read_pascal_string(data, pos) {
            Err(e) => Err(e),
            Ok((s, p)) => match spec_read_pascal_seq(data, p, (n - 1) as nat) {
                Err(e) => Err(e),
                Ok((rest, p2)) => Ok((seq![s] + rest, p2)),
            },
        }
    }
}

/// `n` consecutive fixed-size string fields of `w` bytes each.
pub open spec fn spec_read_sized_str_seq(data: Seq<u8>, pos: int, n: nat, w: int) -> Result<
    (Seq<Seq<u8>>, int),
    DecodeError,
>
    decreases n,
{
    if n == 0 {
        Ok((Seq::empty(), pos))
    } else if !fits(data, pos, w) {
        Err(DecodeError::Truncated)
    } else {
        match spec_read_sized_str_seq(data, pos + w, (n - 1) as nat, w) {
            Err(e) => Err(e),
            Ok((rest, p)) => Ok((seq![nul_trimmed(data.subrange(pos, pos + w))] + rest, p)),
        }
    }
}

/// One 16-byte civilization record; its civilization id is required.
pub open spec fn spec_read_civilization(data: Seq<u8>, pos: int) -> Result<
    (PlayerCivilization, int),
    DecodeError,
> {
    if !fits(data, pos, 12) {
        Err(DecodeError::Truncated)
    } else if signed32(le32_at(data, pos + 8)) == -1 {
        Err(DecodeError::AbsentRequiredId)
    } else if !fits(data, pos, 16) {
        Err(DecodeError::Truncated)
    } else {
        Ok(
            (
                PlayerCivilization {
                    state: le32_at(data, pos) as u32,
                    type_id: le32_at(data, pos + 4) as u32,
                    civilization_id: signed32(le32_at(data, pos + 8)) as i32,
                    unknown1: le32_at(data, pos + 12) as u32,
                },
                pos + 16,
            ),
        )
    }
}

pub open spec fn spec_read_civilization_seq(data: Seq<u8>, pos: int, n: nat) -> Result<
    (Seq<PlayerCivilization>, int),
    DecodeError,
>
    decreases n,
{
    if n == 0 {
        Ok((Seq::empty(), pos))
    } else {
        match spec_read_civilization(data, pos) {
            Err(e) => Err(e),
            Ok((c, p)) => match spec_read_civilization_seq(data, p, (n - 1) as nat) {
                Err(e) => Err(e),
                Ok((rest, p2)) => Ok((seq![c] + rest, p2)),
            },
        }
    }
}

/// One 16-byte starting-resources record.
pub open spec fn spec_read_player_starting_resources(data: Seq<u8>, pos: int) -> Result<
    (PlayerStartingResources, int),
    DecodeError,
> {
    if !fits(data, pos, 16) {
        Err(DecodeError::Truncated)
    } else {
        Ok(
            (
                PlayerStartingResources {
                    gold: le32_at(data, pos) as u32,
                    wood: le32_at(data, pos + 4) as u32,
                    food: le32_at(data, pos + 8) as u32,
                    stone: le32_at(data, pos + 12) as u32,
                },
                pos + 16,
            ),
        )
    }
}

pub open spec fn spec_read_resources_seq(data: Seq<u8>, pos: int, n: nat) -> Result<
    (Seq<PlayerStartingResources>, int),
    DecodeError,
>
    decreases n,
{
    if n == 0 {
        Ok((Seq::empty(), pos))
    } else {
        match spec_read_player_starting_resources(data, pos) {
            Err(e) => Err(e),
            Ok((v, p)) => match spec_read_resources_seq(data, p, (n - 1) as nat) {
                Err(e) => Err(e),
                Ok((rest, p2)) => Ok((seq![v] + rest, p2)),
            },
        }
    }
}

/// One AI script configuration: three 32-bit lengths, then three strings
/// of those lengths in order.
pub open spec fn spec_read_ai_script_config(data: Seq<u8>, pos: int) -> Result<
    (AiScriptConfigView, int),
    DecodeError,
> {
    if !fits(data, pos, 12) {
        Err(DecodeError::Truncated)
    } else {
        let l1 = le32_at(data, pos);
        let l2 = le32_at(data, pos + 4);
        let l3 = le32_at(data, pos + 8);
        if !fits(data, pos + 12, l1) {
            Err(DecodeError::Truncated)
        } else if !fits(data, pos + 12 + l1, l2) {
            Err(DecodeError::Truncated)
        } else if !fits(data, pos + 12 + l1 + l2, l3) {
            Err(DecodeError::Truncated)
        } else {
            Ok(
                (
                    AiScriptConfigView {
                        ai_file_name: nul_trimmed(data.subrange(pos + 12, pos + 12 + l1)),
                        city_file_name: nul_trimmed(
                            data.subrange(pos + 12 + l1, pos + 12 + l1 + l2),
                        ),
                        personality_file_name: nul_trimmed(
                            data.subrange(pos + 12 + l1 + l2, pos + 12 + l1 + l2 + l3),
                        ),
                    },
                    pos + 12 + l1 + l2 + l3,
                ),
            )
        }
    }
}

pub open spec fn spec_read_ai_script_config_seq(data: Seq<u8>, pos: int, n: nat) -> Result<
    (Seq<AiScriptConfigView>, int),
    DecodeError,
>
    decreases n,
{
    if n == 0 {
        Ok((Seq::empty(), pos))
    } else {
        match spec_read_ai_script_config(data, pos) {
            Err(e) => Err(e),
            Ok((c, p)) => match spec_read_ai_script_config_seq(data, p, (n - 1) as nat) {
                Err(e) => Err(e),
                Ok((rest, p2)) => Ok((seq![c] + rest, p2)),
            },
        }
    }
}

/// `n` consecutive 32-bit values.
pub open spec fn spec_read_u32_seq(data: Seq<u8>, pos: int, n: nat) -> Result<
    (Seq<u32>, int),
    DecodeError,
>
    decreases n,
{
    if n == 0 {
        Ok((Seq::empty(), pos))
    } else if !fits(data, pos, 4) {
        Err(DecodeError::Truncated)
    } else {
        match spec_read_u32_seq(data, pos + 4, (n - 1) as nat) {
            Err(e) => Err(e),
            Ok((rest, p)) => Ok((seq![le32_at(data, pos) as u32] + rest, p)),
        }
    }
}

/// A `rows` by `cols` matrix of 32-bit values, row by row.
pub open spec fn spec_read_u32_grid(data: Seq<u8>, pos: int, rows: nat, cols: nat) -> Result<
    (Seq<Seq<u32>>, int),
    DecodeError,
>
    decreases rows,
{
    if rows == 0 {
        Ok((Seq::empty(), pos))
    } else {
        match spec_read_u32_seq(data, pos, cols) {
            Err(e) => Err(e),
            Ok((row, p)) => match spec_read_u32_grid(data, p, (rows - 1) as nat, cols) {
                Err(e) => Err(e),
                Ok((rest, p2)) => Ok((seq![row] + rest, p2)),
            },
        }
    }
}

/// The 40-byte victory-conditions record.
pub open spec fn spec_read_victory_conditions(data: Seq<u8>, pos: int) -> Result<
    (VictoryConditions, int),
    DecodeError,
> {
    if !fits(data, pos, 40) {
        Err(DecodeError::Truncated)
    } else {
        Ok(
            (
                VictoryConditions {
                    conquest_required: le32_at(data, pos) != 0,
                    unused1: le32_at(data, pos + 4) as u32,
                    required_relic_count: le32_at(data, pos + 8) as u32,
                    unused2: le32_at(data, pos + 12) as u32,
                    required_exploration_percent: le32_at(data, pos + 16) as u32,
                    unused3: le32_at(data, pos + 20) as u32,
                    all_conditions_required: le32_at(data, pos + 24) != 0,
                    victory_mode: le32_at(data, pos + 28) as u32,
                    score_required: le32_at(data, pos + 32) as u32,
                    timed_game_time: le32_at(data, pos + 36) as u32,
                },
                pos + 40,
            ),
        )
    }
}

/// The diplomacy record: the stance matrix then the individual-victory
/// matrix.
pub open spec fn spec_read_diplomacy(data: Seq<u8>, pos: int) -> Result<
    (DiplomacyView, int),
    DecodeError,
> {
    match spec_read_u32_grid(data, pos, 16, 16) {
        Err(e) => Err(e),
        Ok((stances, p)) => match spec_read_u32_grid(data, p, 16, 180) {
            Err(e) => Err(e),
            Ok((ind, p2)) => Ok((DiplomacyView { stances, individual_victory: ind }, p2)),
        },
    }
}

/// The thumbnail record.  The inclusion flag decides the shape: zero means
/// only a two-byte padding region follows the height; nonzero means a
/// 22-byte unknown region, the declared pixel length (corrected by the
/// fixed 40-byte header), a 16-byte unknown region, and the pixel bytes.
pub open spec fn spec_read_preview_thumbnail(data: Seq<u8>, pos: int) -> Result<
    (PreviewThumbnailView, int),
    DecodeError,
> {
    if !fits(data, pos, 12) {
        Err(DecodeError::Truncated)
    } else {
        let flag = le32_at(data, pos);
        let width = le32_at(data, pos + 4) as u32;
        let height = le32_at(data, pos + 8) as u32;
        if flag != 0 {
            if !fits(data, pos + 12, 22) {
                Err(DecodeError::Truncated)
            } else if !fits(data, pos + 34, 4) {
                Err(DecodeError::Truncated)
            } else if le32_at(data, pos + 34) < 40 {
                Err(DecodeError::BadLength)
            } else {
                let plen = le32_at(data, pos + 34) - 40;
                if !fits(data, pos + 38, 16) {
                    Err(DecodeError::Truncated)
                } else if !fits(data, pos + 54, plen) {
                    Err(DecodeError::Truncated)
                } else {
                    Ok(
                        (
                            PreviewThumbnailView {
                                included: true,
                                width,
                                height,
                                unknown1: data.subrange(pos + 12, pos + 34),
                                pixel_data_length: plen as u32,
                                unknown2: data.subrange(pos + 38, pos + 54),
                                pixel_data: data.subrange(pos + 54, pos + 54 + plen),
                            },
                            pos + 54 + plen,
                        ),
                    )
                }
            }
        } else {
            if !fits(data, pos + 12, 2) {
                Err(DecodeError::Truncated)
            } else {
                Ok(
                    (
                        PreviewThumbnailView {
                            included: false,
                            width,
                            height,
                            unknown1: data.subrange(pos + 12, pos + 14),
                            pixel_data_length: 0,
                            unknown2: Seq::empty(),
                            pixel_data: Seq::empty(),
                        },
                        pos + 14,
                    ),
                )
            }
        }
    }
}

/// The opening section: version, sixteen player names, sixteen
/// civilization records, the conquest-victory flag, the unknown region.
pub open spec fn spec_read_pd_intro(data: Seq<u8>, pos: int) -> Result<
    ((FloatBits, Seq<Seq<u8>>, Seq<PlayerCivilization>, bool, Seq<u8>), int),
    DecodeError,
> {
    if !fits(data, pos, 4) {
        Err(DecodeError::Truncated)
    } else {
        match spec_read_sized_str_seq(data, pos + 4, 16, 256) {
            Err(e) => Err(e),
            Ok((names, p1)) => match spec_read_civilization_seq(data, p1, 16) {
                Err(e) => Err(e),
                Ok((civs, p2)) => {
                    if !fits(data, p2, 1) {
                        Err(DecodeError::Truncated)
                    } else if !fits(data, p2 + 1, 8) {
                        Err(DecodeError::Truncated)
                    } else {
                        Ok(
                            (
                                (
                                    FloatBits(le32_at(data, pos) as u32),
                                    names,
                                    civs,
                                    byte_at(data, p2) != 0,
                                    data.subrange(p2 + 1, p2 + 9),
                                ),
                                p2 + 9,
                            ),
                        )
                    }
                }
            },
        }
    }
}

/// The AI section: three sixteen-entry pascal-string tables, sixteen AI
/// script configurations, four raw AI-type bytes.
pub open spec fn spec_read_pd_ai(data: Seq<u8>, pos: int) -> Result<
    ((Seq<Seq<u8>>, Seq<Seq<u8>>, Seq<Seq<u8>>, Seq<AiScriptConfigView>, Seq<u8>), int),
    DecodeError,
> {
    match spec_read_pascal_seq(data, pos, 16) {
        Err(e) => Err(e),
        Ok((ai_names, p1)) => match spec_read_pascal_seq(data, p1, 16) {
            Err(e) => Err(e),
            Ok((city_names, p2)) => match spec_read_pascal_seq(data, p2, 16) {
                Err(e) => Err(e),
                Ok((personality_names, p3)) => match spec_read_ai_script_config_seq(
                    data,
                    p3,
                    16,
                ) {
                    Err(e) => Err(e),
                    Ok((configs, p4)) => {
                        if !fits(data, p4, 4) {
                            Err(DecodeError::Truncated)
                        } else {
                            Ok(
                                (
                                    (
                                        ai_names,
                                        city_names,
                                        personality_names,
                                        configs,
                                        data.subrange(p4, p4 + 4),
                                    ),
                                    p4 + 4,
                                ),
                            )
                        }
                    }
                },
            },
        },
    }
}

/// The closing section: starting resources, a separator, the victory
/// conditions, the diplomacy matrices, a separator, the allied-victory
/// table, the disabled-research matrix, two unused fields, the all-techs
/// flag, the starting ages, and the final separator.  Separators are
/// consumed positionally and not validated.
pub open spec fn spec_read_pd_tail(data: Seq<u8>, pos: int) -> Result<
    (
        (
            Seq<PlayerStartingResources>,
            VictoryConditions,
            DiplomacyView,
            Seq<u32>,
            Seq<Seq<u32>>,
            u32,
            u32,
            bool,
            Seq<u32>,
        ),
        int,
    ),
    DecodeError,
> {
    match spec_read_resources_seq(data, pos, 16) {
        Err(e) => Err(e),
        Ok((resources, p1)) => {
            if !fits(data, p1, 4) {
                Err(DecodeError::Truncated)
            } else {
                match spec_read_victory_conditions(data, p1 + 4) {
                    Err(e) => Err(e),
                    Ok((vc, p2)) => match spec_read_diplomacy(data, p2) {
                        Err(e) => Err(e),
                        Ok((dip, p3)) => {
                            if !fits(data, p3, 4) {
                                Err(DecodeError::Truncated)
                            } else {
                                match spec_read_u32_seq(data, p3 + 4, 16) {
                                    Err(e) => Err(e),
                                    Ok((allied, p4)) => match spec_read_u32_grid(
                                        data,
                                        p4,
                                        16,
                                        20,
                                    ) {
                                        Err(e) => Err(e),
                                        Ok((disabled, p5)) => {
                                            if !fits(data, p5, 12) {
                                                Err(DecodeError::Truncated)
                                            } else {
                                                match spec_read_u32_seq(data, p5 + 12, 16) {
                                                    Err(e) => Err(e),
                                                    Ok((ages, p6)) => {
                                                        if !fits(data, p6, 4) {
                                                            Err(DecodeError::Truncated)
                                                        } else {
                                                            Ok(
                                                                (
                                                                    (
                                                                        resources,
                                                                        vc,
                                                                        dip,
                                                                        allied,
                                                                        disabled,
                                                                        le32_at(data, p5) as u32,
                                                                        le32_at(
                                                                            data,
                                                                            p5 + 4,
                                                                        ) as u32,
                                                                        le32_at(data, p5 + 8)
                                                                            != 0,
                                                                        ages,
                                                                    ),
                                                                    p6 + 4,
                                                                ),
                                                            )
                                                        }
                                                    }
                                                }
                                            }
                                        }
                                    },
                                }
                            }
                        }
                    },
                }
            }
        }
    }
}

/// The whole player-data block in decode order: the opening section, ten
/// pascal-style text fields, the thumbnail, the AI section, the closing
/// section.
pub open spec fn spec_read_player_data(data: Seq<u8>, pos: int) -> Result<
    (PlayerDataView, int),
    DecodeError,
> {
    match spec_read_pd_intro(data, pos) {
        Err(e) => Err(e),
        Ok((intro, p1)) => match spec_read_pascal_seq(data, p1, 10) {
            Err(e) => Err(e),
            Ok((texts, p2)) => match spec_read_preview_thumbnail(data, p2) {
                Err(e) => Err(e),
                Ok((thumb, p3)) => match spec_read_pd_ai(data, p3) {
                    Err(e) => Err(e),
                    Ok((ai, p4)) => match spec_read_pd_tail(data, p4) {
                        Err(e) => Err(e),
                        Ok((tail, p5)) => Ok(
                            (
                                PlayerDataView {
                                    version: intro.0,
                                    player_names: intro.1,
                                    player_civs: intro.2,
                                    conquest_victory: intro.3,
                                    unknown1: intro.4,
                                    original_file_name: texts[0],
                                    instructions: texts[1],
                                    hints: texts[2],
                                    victory: texts[3],
                                    loss: texts[4],
                                    history: texts[5],
                                    pre_game_cinematic_file_name: texts[6],
                                    victory_cinematic_file_name: texts[7],
                                    loss_cinematic_file_name: texts[8],
                                    background_file_name: texts[9],
                                    preview_thumbnail: thumb,
                                    ai_names: ai.0,
                                    city_names: ai.1,
                                    personality_names: ai.2,
                                    ai_script_configs: ai.3,
                                    ai_types: ai.4,
                                    player_starting_resources: tail.0,
                                    victory_conditions: tail.1,
                                    diplomacy: tail.2,
                                    allied_victory: tail.3,
                                    disabled_research_ids: tail.4,
                                    unused1: tail.5,
                                    unused2: tail.6,
                                    all_techs: tail.7,
                                    starting_ages: tail.8,
                                },
                                p5,
                            ),
                        ),
                    },
                },
            },
        },
    }
}

/// Decode one pascal string at the cursor.
pub fn read_pascal_string(stream: &mut Reader) -> (r: Result<Vec<u8>, DecodeError>)
    requires
        old(stream).wf(),
    ensures
        final(stream).wf(),
        final(stream).data() == old(stream).data(),
        match r {
            Ok(v) => spec_read_pascal_string(old(stream).data(), old(stream).cursor()) == decoded(
                v@,
                final(stream).cursor(),
            ),
            Err(e) => spec_read_pascal_string(old(stream).data(), old(stream).cursor())
                == failed::<Seq<u8>>(e),
        },
    {
    let length = match stream.read_u16() {
        Ok(v) => v,
        Err(e) => return Err(e),
    };
    match stream.read_sized_str(length as usize) {
        Ok(v) => Ok(v),
        Err(e) => Err(e),
    }
}

/// Decode one civilization record at the cursor.
pub fn read_civilization(stream: &mut Reader) -> (r: Result<PlayerCivilization, DecodeError>)
    requires
        old(stream).wf(),
    ensures
        final(stream).wf(),
        final(stream).data() == old(stream).data(),
        match r {
            Ok(v) => spec_read_civilization(old(stream).data(), old(stream).cursor()) == decoded(
                v,
                final(stream).cursor(),
            ),
            Err(e) => spec_read_civilization(old(stream).data(), old(stream).cursor())
                == failed::<PlayerCivilization>(e),
        },
    {
    let state = match stream.read_u32() {
        Ok(v) => v,
        Err(e) => return Err(e),
    };
    let type_id = match stream.read_u32() {
        Ok(v) => v,
        Err(e) => return Err(e),
    };
    let civilization_id = match stream.read_i32() {
        Ok(v) => v,
        Err(e) => return Err(e),
    };
    if civilization_id == -1 {
        return Err(DecodeError::AbsentRequiredId);
    }
    let unknown1 = match stream.read_u32() {
        Ok(v) => v,
        Err(e) => return Err(e),
    };
    Ok(PlayerCivilization { state, type_id, civilization_id, unknown1 })
}

/// Decode one starting-resources record at the cursor.
pub fn read_player_starting_resources(stream: &mut Reader) -> (r: Result<
    PlayerStartingResources,
    DecodeError,
>)
    requires
        old(stream).wf(),
    ensures
        final(stream).wf(),
        final(stream).data() == old(stream).data(),
        match r {
            Ok(v) => spec_read_player_starting_resources(old(stream).data(), old(stream).cursor())
                == decoded(v, final(stream).cursor()),
            Err(e) => spec_read_player_starting_resources(
                old(stream).data(),
                old(stream).cursor(),
            ) == failed::<PlayerStartingResources>(e),
        },
    {
    let gold = match stream.read_u32() {
        Ok(v) => v,
        Err(e) => return Err(e),
    };
    let wood = match stream.read_u32() {
        Ok(v) => v,
        Err(e) => return Err(e),
    };
    let food = match stream.read_u32() {
        Ok(v) => v,
        Err(e) => return Err(e),
    };
    let stone = match stream.read_u32() {
        Ok(v) => v,
        Err(e) => return Err(e),
    };
    Ok(PlayerStartingResources { gold, wood, food, stone })
}

/// Decode one AI script configuration at the cursor.
pub fn read_ai_script_config(stream: &mut Reader) -> (r: Result<AiScriptConfig, DecodeError>)
    requires
        old(stream).wf(),
    ensures
        final(stream).wf(),
        final(stream).data() == old(stream).data(),
        match r {
            Ok(v) => spec_read_ai_script_config(old(stream).data(), old(stream).cursor())
                == decoded(v@, final(stream).cursor()),
            Err(e) => spec_read_ai_script_config(old(stream).data(), old(stream).cursor())
                == failed::<AiScriptConfigView>(e),
        },
    {
    let ai_len = match stream.read_u32() {
        Ok(v) => v,
        Err(e) => return Err(e),
    };
    let city_len = match stream.read_u32() {
        Ok(v) => v,
        Err(e) => return Err(e),
    };
    let per_len = match stream.read_u32() {
        Ok(v) => v,
        Err(e) => return Err(e),
    };
    let ai_file_name = match stream.read_sized_str(ai_len as usize) {
        Ok(v) => v,
        Err(e) => return Err(e),
    };
    let city_file_name = match stream.read_sized_str(city_len as usize) {
        Ok(v) => v,
        Err(e) => return Err(e),
    };
    let personality_file_name = match stream.read_sized_str(per_len as usize) {
        Ok(v) => v,
        Err(e) => return Err(e),
    };
    Ok(AiScriptConfig { ai_file_name, city_file_name, personality_file_name })
}

/// Decode the victory-conditions record at the cursor.
pub fn read_victory_conditions(stream: &mut Reader) -> (r: Result<VictoryConditions, DecodeError>)
    requires
        old(stream).wf(),
    ensures
        final(stream).wf(),
        final(stream).data() == old(stream).data(),
        match r {
            Ok(v) => spec_read_victory_conditions(old(stream).data(), old(stream).cursor())
                == decoded(v, final(stream).cursor()),
            Err(e) => spec_read_victory_conditions(old(stream).data(), old(stream).cursor())
                == failed::<VictoryConditions>(e),
        },
    {
    let conquest_raw = match stream.read_u32() {
        Ok(v) => v,
        Err(e) => return Err(e),
    };
    let unused1 = match stream.read_u32() {
        Ok(v) => v,
        Err(e) => return Err(e),
    };
    let required_relic_count = match stream.read_u32() {
        Ok(v) => v,
        Err(e) => return Err(e),
    };
    let unused2 = match stream.read_u32() {
        Ok(v) => v,
        Err(e) => return Err(e),
    };
    let required_exploration_percent = match stream.read_u32() {
        Ok(v) => v,
        Err(e) => return Err(e),
    };
    let unused3 = match stream.read_u32() {
        Ok(v) => v,
        Err(e) => return Err(e),
    };
    let all_raw = match stream.read_u32() {
        Ok(v) => v,
        Err(e) => return Err(e),
    };
    let victory_mode = match stream.read_u32() {
        Ok(v) => v,
        Err(e) => return Err(e),
    };
    let score_required = match stream.read_u32() {
        Ok(v) => v,
        Err(e) => return Err(e),
    };
    let timed_game_time = match stream.read_u32() {
        Ok(v) => v,
        Err(e) => return Err(e),
    };
    Ok(VictoryConditions {
        conquest_required: conquest_raw != 0,
        unused1,
        required_relic_count,
        unused2,
        required_exploration_percent,
        unused3,
        all_conditions_required: all_raw != 0,
        victory_mode,
        score_required,
        timed_game_time,
    })
}

/// Decode `n` 32-bit values at the cursor.
fn read_u32_array(stream: &mut Reader, n: usize) -> (r: Result<Vec<u32>, DecodeError>)
    requires
        old(stream).wf(),
    ensures
        final(stream).wf(),
        final(stream).data() == old(stream).data(),
        match r {
            Ok(v) => spec_read_u32_seq(old(stream).data(), old(stream).cursor(), n as nat)
                == decoded(v@, final(stream).cursor()),
            Err(e) => spec_read_u32_seq(old(stream).data(), old(stream).cursor(), n as nat)
                == failed::<Seq<u32>>(e),
        },
    {
    let ghost d = old(stream).data();
    let ghost start = old(stream).cursor();
    let mut out: Vec<u32> = Vec::new();
    let mut i: usize = 0;
    #[verifier::loop_isolation(false)]
    while i < n
        invariant
            stream.wf(),
            stream.data() == d,
            i <= n,
            match spec_read_u32_seq(d, stream.cursor(), (n - i) as nat) {
                Ok((rest, p)) => spec_read_u32_seq(d, start, n as nat) == decoded(out@ + rest, p),
                Err(e) => spec_read_u32_seq(d, start, n as nat) == failed::<Seq<u32>>(e),
            },
        decreases n - i,
    {
        let v = match stream.read_u32() {
            Ok(v) => v,
            Err(e) => return Err(e),
        };
        let ghost out_old = out@;
        out.push(v);
        i = i + 1;
        proof {
            assert(out@ =~= out_old + seq![v]);
            match spec_read_u32_seq(d, stream.cursor(), (n - i) as nat) {
                Ok(pr) => {
                    assert(out_old + (seq![v] + pr.0) =~= out@ + pr.0);
                }
                Err(_) => {}
            }
        }
    }
    proof {
        assert(out@ + Seq::<u32>::empty() =~= out@);
    }
    Ok(out)
}

/// Decode a `rows` by `cols` matrix of 32-bit values at the cursor.
fn read_u32_grid(stream: &mut Reader, rows: usize, cols: usize) -> (r: Result<
    Vec<Vec<u32>>,
    DecodeError,
>)
    requires
        old(stream).wf(),
    ensures
        final(stream).wf(),
        final(stream).data() == old(stream).data(),
        match r {
            Ok(v) => spec_read_u32_grid(
                old(stream).data(),
                old(stream).cursor(),
                rows as nat,
                cols as nat,
            ) == decoded(v.deep_view(), final(stream).cursor()),
            Err(e) => spec_read_u32_grid(
                old(stream).data(),
                old(stream).cursor(),
                rows as nat,
                cols as nat,
            ) == failed::<Seq<Seq<u32>>>(e),
        },
    {
    let ghost d = old(stream).data();
    let ghost start = old(stream).cursor();
    let mut out: Vec<Vec<u32>> = Vec::new();
    let mut i: usize = 0;
    proof {
        assert(out.deep_view() =~= Seq::<Seq<u32>>::empty());
    }
    #[verifier::loop_isolation(false)]
    while i < rows
        invariant
            stream.wf(),
            stream.data() == d,
            i <= rows,
            match spec_read_u32_grid(d, stream.cursor(), (rows - i) as nat, cols as nat) {
                Ok((rest, p)) => spec_read_u32_grid(d, start, rows as nat, cols as nat) == decoded(
                    out.deep_view() + rest,
                    p,
                ),
                Err(e) => spec_read_u32_grid(d, start, rows as nat, cols as nat) == failed::<
                    Seq<Seq<u32>>,
                >(e),
            },
        decreases rows - i,
    {
        let row = match read_u32_array(stream, cols) {
            Ok(v) => v,
            Err(e) => return Err(e),
        };
        let ghost out_old = out.deep_view();
        out.push(row);
        i = i + 1;
        proof {
            assert(out.deep_view() =~~= out_old + seq![row@]);
            match spec_read_u32_grid(d, stream.cursor(), (rows - i) as nat, cols as nat) {
                Ok(pr) => {
                    assert(out_old + (seq![row@] + pr.0) =~~= out.deep_view() + pr.0);
                }
                Err(_) => {}
            }
        }
    }
    proof {
        assert(out.deep_view() + Seq::<Seq<u32>>::empty() =~= out.deep_view());
    }
    Ok(out)
}

/// Decode the diplomacy record at the cursor.
pub fn read_diplomacy(stream: &mut Reader) -> (r: Result<Diplomacy, DecodeError>)
    requires
        old(stream).wf(),
    ensures
        final(stream).wf(),
        final(stream).data() == old(stream).data(),
        match r {
            Ok(v) => spec_read_diplomacy(old(stream).data(), old(stream).cursor()) == decoded(
                v@,
                final(stream).cursor(),
            ),
            Err(e) => spec_read_diplomacy(old(stream).data(), old(stream).cursor()) == failed::<
                DiplomacyView,
            >(e),
        },
    {
    let stances = match read_u32_grid(stream, 16, 16) {
        Ok(v) => v,
        Err(e) => return Err(e),
    };
    let individual_victory = match read_u32_grid(stream, 16, 180) {
        Ok(v) => v,
        Err(e) => return Err(e),
    };
    Ok(Diplomacy { stances, individual_victory })
}

/// Decode the thumbnail record at the cursor.
pub fn read_preview_thumbnail(stream: &mut Reader) -> (r: Result<PreviewThumbnail, DecodeError>)
    requires
        old(stream).wf(),
    ensures
        final(stream).wf(),
        final(stream).data() == old(stream).data(),
        match r {
            Ok(v) => spec_read_preview_thumbnail(old(stream).data(), old(stream).cursor())
                == decoded(v@, final(stream).cursor()),
            Err(e) => spec_read_preview_thumbnail(old(stream).data(), old(stream).cursor())
                == failed::<PreviewThumbnailView>(e),
        },
    {
    let flag = match stream.read_u32() {
        Ok(v) => v,
        Err(e) => return Err(e),
    };
    let width = match stream.read_u32() {
        Ok(v) => v,
        Err(e) => return Err(e),
    };
    let height = match stream.read_u32() {
        Ok(v) => v,
        Err(e) => return Err(e),
    };
    if flag != 0 {
        let unknown1 = match stream.read_bytes(THUMBNAIL_UNKNOWN_1_LENGTH) {
            Ok(v) => v,
            Err(e) => return Err(e),
        };
        let declared = match stream.read_u32() {
            Ok(v) => v,
            Err(e) => return Err(e),
        };
        if declared < THUMBNAIL_HEADER_CORRECTION {
            return Err(DecodeError::BadLength);
        }
        let pixel_data_length = declared - THUMBNAIL_HEADER_CORRECTION;
        let unknown2 = match stream.read_bytes(THUMBNAIL_UNKNOWN_2_LENGTH) {
            Ok(v) => v,
            Err(e) => return Err(e),
        };
        let pixel_data = match stream.read_bytes(pixel_data_length as usize) {
            Ok(v) => v,
            Err(e) => return Err(e),
        };
        Ok(PreviewThumbnail {
            included: true,
            width,
            height,
            unknown1,
            pixel_data_length,
            unknown2,
            pixel_data,
        })
    } else {
        let unknown1 = match stream.read_bytes(THUMBNAIL_ABSENT_PADDING) {
            Ok(v) => v,
            Err(e) => return Err(e),
        };
        Ok(PreviewThumbnail {
            included: false,
            width,
            height,
            unknown1,
            pixel_data_length: 0,
            unknown2: Vec::new(),
            pixel_data: Vec::new(),
        })
    }
}

/// Decode `n` fixed-size string fields of `w` bytes each.
fn read_sized_str_array(stream: &mut Reader, n: usize, w: usize) -> (r: Result<
    Vec<Vec<u8>>,
    DecodeError,
>)
    requires
        old(stream).wf(),
    ensures
        final(stream).wf(),
        final(stream).data() == old(stream).data(),
        match r {
            Ok(v) => spec_read_sized_str_seq(
                old(stream).data(),
                old(stream).cursor(),
                n as nat,
                w as int,
            ) == decoded(v.deep_view(), final(stream).cursor()),
            Err(e) => spec_read_sized_str_seq(
                old(stream).data(),
                old(stream).cursor(),
                n as nat,
                w as int,
            ) == failed::<Seq<Seq<u8>>>(e),
        },
    {
    let ghost d = old(stream).data();
    let ghost start = old(stream).cursor();
    let mut out: Vec<Vec<u8>> = Vec::new();
    let mut i: usize = 0;
    proof {
        assert(out.deep_view() =~= Seq::<Seq<u8>>::empty());
    }
    #[verifier::loop_isolation(false)]
    while i < n
        invariant
            stream.wf(),
            stream.data() == d,
            i <= n,
            match spec_read_sized_str_seq(d, stream.cursor(), (n - i) as nat, w as int) {
                Ok((rest, p)) => spec_read_sized_str_seq(d, start, n as nat, w as int) == decoded(
                    out.deep_view() + rest,
                    p,
                ),
                Err(e) => spec_read_sized_str_seq(d, start, n as nat, w as int) == failed::<
                    Seq<Seq<u8>>,
                >(e),
            },
        decreases n - i,
    {
        let s = match stream.read_sized_str(w) {
            Ok(v) => v,
            Err(e) => return Err(e),
        };
        let ghost out_old = out.deep_view();
        out.push(s);
        i = i + 1;
        proof {
            assert(out.deep_view() =~~= out_old + seq![s@]);
            match spec_read_sized_str_seq(d, stream.cursor(), (n - i) as nat, w as int) {
                Ok(pr) => {
                    assert(out_old + (seq![s@] + pr.0) =~~= out.deep_view() + pr.0);
                }
                Err(_) => {}
            }
        }
    }
    proof {
        assert(out.deep_view() + Seq::<Seq<u8>>::empty() =~= out.deep_view());
    }
    Ok(out)
}

/// Decode `n` pascal strings.
fn read_pascal_array(stream: &mut Reader, n: usize) -> (r: Result<Vec<Vec<u8>>, DecodeError>)
    requires
        old(stream).wf(),
    ensures
        final(stream).wf(),
        final(stream).data() == old(stream).data(),
        match r {
            Ok(v) => spec_read_pascal_seq(old(stream).data(), old(stream).cursor(), n as nat)
                == decoded(v.deep_view(), final(stream).cursor()) && v@.len() == n,
            Err(e) => spec_read_pascal_seq(old(stream).data(), old(stream).cursor(), n as nat)
                == failed::<Seq<Seq<u8>>>(e),
        },
    {
    let ghost d = old(stream).data();
    let ghost start = old(stream).cursor();
    let mut out: Vec<Vec<u8>> = Vec::new();
    let mut i: usize = 0;
    proof {
        assert(out.deep_view() =~= Seq::<Seq<u8>>::empty());
    }
    #[verifier::loop_isolation(false)]
    while i < n
        invariant
            stream.wf(),
            stream.data() == d,
            i <= n,
            out@.len() == i,
            match spec_read_pascal_seq(d, stream.cursor(), (n - i) as nat) {
                Ok((rest, p)) => spec_read_pascal_seq(d, start, n as nat) == decoded(
                    out.deep_view() + rest,
                    p,
                ),
                Err(e) => spec_read_pascal_seq(d, start, n as nat) == failed::<Seq<Seq<u8>>>(e),
            },
        decreases n - i,
    {
        let s = match read_pascal_string(stream) {
            Ok(v) => v,
            Err(e) => return Err(e),
        };
        let ghost out_old = out.deep_view();
        out.push(s);
        i = i + 1;
        proof {
            assert(out.deep_view() =~~= out_old + seq![s@]);
            match spec_read_pascal_seq(d, stream.cursor(), (n - i) as nat) {
                Ok(pr) => {
                    assert(out_old + (seq![s@] + pr.0) =~~= out.deep_view() + pr.0);
                }
                Err(_) => {}
            }
        }
    }
    proof {
        assert(out.deep_view() + Seq::<Seq<u8>>::empty() =~= out.deep_view());
    }
    Ok(out)
}

/// Decode `n` civilization records.
fn read_civilization_array(stream: &mut Reader, n: usize) -> (r: Result<
    Vec<PlayerCivilization>,
    DecodeError,
>)
    requires
        old(stream).wf(),
    ensures
        final(stream).wf(),
        final(stream).data() == old(stream).data(),
        match r {
            Ok(v) => spec_read_civilization_seq(old(stream).data(), old(stream).cursor(), n as nat)
                == decoded(v@, final(stream).cursor()),
            Err(e) => spec_read_civilization_seq(
                old(stream).data(),
                old(stream).cursor(),
                n as nat,
            ) == failed::<Seq<PlayerCivilization>>(e),
        },
    {
    let ghost d = old(stream).data();
    let ghost start = old(stream).cursor();
    let mut out: Vec<PlayerCivilization> = Vec::new();
    let mut i: usize = 0;
    #[verifier::loop_isolation(false)]
    while i < n
        invariant
            stream.wf(),
            stream.data() == d,
            i <= n,
            match spec_read_civilization_seq(d, stream.cursor(), (n - i) as nat) {
                Ok((rest, p)) => spec_read_civilization_seq(d, start, n as nat) == decoded(
                    out@ + rest,
                    p,
                ),
                Err(e) => spec_read_civilization_seq(d, start, n as nat) == failed::<
                    Seq<PlayerCivilization>,
                >(e),
            },
        decreases n - i,
    {
        let c = match read_civilization(stream) {
            Ok(v) => v,
            Err(e) => return Err(e),
        };
        let ghost out_old = out@;
        out.push(c);
        i = i + 1;
        proof {
            assert(out@ =~= out_old + seq![c]);
            match spec_read_civilization_seq(d, stream.cursor(), (n - i) as nat) {
                Ok(pr) => {
                    assert(out_old + (seq![c] + pr.0) =~= out@ + pr.0);
                }
                Err(_) => {}
            }
        }
    }
    proof {
        assert(out@ + Seq::<PlayerCivilization>::empty() =~= out@);
    }
    Ok(out)
}

/// Decode `n` AI script configurations.
fn read_ai_script_config_array(stream: &mut Reader, n: usize) -> (r: Result<
    Vec<AiScriptConfig>,
    DecodeError,
>)
    requires
        old(stream).wf(),
    ensures
        final(stream).wf(),
        final(stream).data() == old(stream).data(),
        match r {
            Ok(v) => spec_read_ai_script_config_seq(
                old(stream).data(),
                old(stream).cursor(),
                n as nat,
            ) == decoded(v.deep_view(), final(stream).cursor()),
            Err(e) => spec_read_ai_script_config_seq(
                old(stream).data(),
                old(stream).cursor(),
                n as nat,
            ) == failed::<Seq<AiScriptConfigView>>(e),
        },
    {
    let ghost d = old(stream).data();
    let ghost start = old(stream).cursor();
    let mut out: Vec<AiScriptConfig> = Vec::new();
    let mut i: usize = 0;
    proof {
        assert(out.deep_view() =~= Seq::<AiScriptConfigView>::empty());
    }
    #[verifier::loop_isolation(false)]
    while i < n
        invariant
            stream.wf(),
            stream.data() == d,
            i <= n,
            match spec_read_ai_script_config_seq(d, stream.cursor(), (n - i) as nat) {
                Ok((rest, p)) => spec_read_ai_script_config_seq(d, start, n as nat) == decoded(
                    out.deep_view() + rest,
                    p,
                ),
                Err(e) => spec_read_ai_script_config_seq(d, start, n as nat) == failed::<
                    Seq<AiScriptConfigView>,
                >(e),
            },
        decreases n - i,
    {
        let c = match read_ai_script_config(stream) {
            Ok(v) => v,
            Err(e) => return Err(e),
        };
        let ghost out_old = out.deep_view();
        out.push(c);
        i = i + 1;
        proof {
            assert(out.deep_view() =~= out_old + seq![c@]);
            match spec_read_ai_script_config_seq(d, stream.cursor(), (n - i) as nat) {
                Ok(pr) => {
                    assert(out_old + (seq![c@] + pr.0) =~= out.deep_view() + pr.0);
                }
                Err(_) => {}
            }
        }
    }
    proof {
        assert(out.deep_view() + Seq::<AiScriptConfigView>::empty() =~= out.deep_view());
    }
    Ok(out)
}

/// Decode `n` starting-resources records.
fn read_resources_array(stream: &mut Reader, n: usize) -> (r: Result<
    Vec<PlayerStartingResources>,
    DecodeError,
>)
    requires
        old(stream).wf(),
    ensures
        final(stream).wf(),
        final(stream).data() == old(stream).data(),
        match r {
            Ok(v) => spec_read_resources_seq(old(stream).data(), old(stream).cursor(), n as nat)
                == decoded(v@, final(stream).cursor()),
            Err(e) => spec_read_resources_seq(old(stream).data(), old(stream).cursor(), n as nat)
                == failed::<Seq<PlayerStartingResources>>(e),
        },
    {
    let ghost d = old(stream).data();
    let ghost start = old(stream).cursor();
    let mut out: Vec<PlayerStartingResources> = Vec::new();
    let mut i: usize = 0;
    #[verifier::loop_isolation(false)]
    while i < n
        invariant
            stream.wf(),
            stream.data() == d,
            i <= n,
            match spec_read_resources_seq(d, stream.cursor(), (n - i) as nat) {
                Ok((rest, p)) => spec_read_resources_seq(d, start, n as nat) == decoded(
                    out@ + rest,
                    p,
                ),
                Err(e) => spec_read_resources_seq(d, start, n as nat) == failed::<
                    Seq<PlayerStartingResources>,
                >(e),
            },
        decreases n - i,
    {
        let v = match read_player_starting_resources(stream) {
            Ok(v) => v,
            Err(e) => return Err(e),
        };
        let ghost out_old = out@;
        out.push(v);
        i = i + 1;
        proof {
            assert(out@ =~= out_old + seq![v]);
            match spec_read_resources_seq(d, stream.cursor(), (n - i) as nat) {
                Ok(pr) => {
                    assert(out_old + (seq![v] + pr.0) =~= out@ + pr.0);
                }
                Err(_) => {}
            }
        }
    }
    proof {
        assert(out@ + Seq::<PlayerStartingResources>::empty() =~= out@);
    }
    Ok(out)
}

/// Decode the opening section.
fn read_pd_intro(stream: &mut Reader) -> (r: Result<
    (FloatBits, Vec<Vec<u8>>, Vec<PlayerCivilization>, bool, Vec<u8>),
    DecodeError,
>)
    requires
        old(stream).wf(),
    ensures
        final(stream).wf(),
        final(stream).data() == old(stream).data(),
        match r {
            Ok(v) => spec_read_pd_intro(old(stream).data(), old(stream).cursor()) == decoded(
                (v.0, v.1.deep_view(), v.2@, v.3, v.4@),
                final(stream).cursor(),
            ),
            Err(e) => spec_read_pd_intro(old(stream).data(), old(stream).cursor()) == failed::<
                (FloatBits, Seq<Seq<u8>>, Seq<PlayerCivilization>, bool, Seq<u8>),
            >(e),
        },
    {
    let version = match stream.read_u32() {
        Ok(v) => FloatBits(v),
        Err(e) => return Err(e),
    };
    let player_names = match read_sized_str_array(stream, 16, 256) {
        Ok(v) => v,
        Err(e) => return Err(e),
    };
    let player_civs = match read_civilization_array(stream, 16) {
        Ok(v) => v,
        Err(e) => return Err(e),
    };
    let conquest_raw = match stream.read_u8() {
        Ok(v) => v,
        Err(e) => return Err(e),
    };
    let unknown1 = match stream.read_bytes(PLAYER_DATA_UNKNOWN_1_LENGTH) {
        Ok(v) => v,
        Err(e) => return Err(e),
    };
    Ok((version, player_names, player_civs, conquest_raw != 0, unknown1))
}

/// Decode the AI section.
fn read_pd_ai(stream: &mut Reader) -> (r: Result<
    (Vec<Vec<u8>>, Vec<Vec<u8>>, Vec<Vec<u8>>, Vec<AiScriptConfig>, Vec<u8>),
    DecodeError,
>)
    requires
        old(stream).wf(),
    ensures
        final(stream).wf(),
        final(stream).data() == old(stream).data(),
        match r {
            Ok(v) => spec_read_pd_ai(old(stream).data(), old(stream).cursor()) == decoded(
                (v.0.deep_view(), v.1.deep_view(), v.2.deep_view(), v.3.deep_view(), v.4@),
                final(stream).cursor(),
            ),
            Err(e) => spec_read_pd_ai(old(stream).data(), old(stream).cursor()) == failed::<
                (Seq<Seq<u8>>, Seq<Seq<u8>>, Seq<Seq<u8>>, Seq<AiScriptConfigView>, Seq<u8>),
            >(e),
        },
    {
    let ai_names = match read_pascal_array(stream, 16) {
        Ok(v) => v,
        Err(e) => return Err(e),
    };
    let city_names = match read_pascal_array(stream, 16) {
        Ok(v) => v,
        Err(e) => return Err(e),
    };
    let personality_names = match read_pascal_array(stream, 16) {
        Ok(v) => v,
        Err(e) => return Err(e),
    };
    let ai_script_configs = match read_ai_script_config_array(stream, 16) {
        Ok(v) => v,
        Err(e) => return Err(e),
    };
    let ai_types = match stream.read_bytes(4) {
        Ok(v) => v,
        Err(e) => return Err(e),
    };
    Ok((ai_names, city_names, personality_names, ai_script_configs, ai_types))
}

/// Decode the closing section.
fn read_pd_tail(stream: &mut Reader) -> (r: Result<
    (
        Vec<PlayerStartingResources>,
        VictoryConditions,
        Diplomacy,
        Vec<u32>,
        Vec<Vec<u32>>,
        u32,
        u32,
        bool,
        Vec<u32>,
    ),
    DecodeError,
>)
    requires
        old(stream).wf(),
    ensures
        final(stream).wf(),
        final(stream).data() == old(stream).data(),
        match r {
            Ok(v) => spec_read_pd_tail(old(stream).data(), old(stream).cursor()) == decoded(
                (
                    v.0@,
                    v.1,
                    v.2@,
                    v.3@,
                    v.4.deep_view(),
                    v.5,
                    v.6,
                    v.7,
                    v.8@,
                ),
                final(stream).cursor(),
            ),
            Err(e) => spec_read_pd_tail(old(stream).data(), old(stream).cursor()) == failed::<
                (
                    Seq<PlayerStartingResources>,
                    VictoryConditions,
                    DiplomacyView,
                    Seq<u32>,
                    Seq<Seq<u32>>,
                    u32,
                    u32,
                    bool,
                    Seq<u32>,
                ),
            >(e),
        },
    {
    let player_starting_resources = match read_resources_array(stream, 16) {
        Ok(v) => v,
        Err(e) => return Err(e),
    };
    match stream.read_i32() {
        Ok(_) => (),
        Err(e) => return Err(e),
    };
    let victory_conditions = match read_victory_conditions(stream) {
        Ok(v) => v,
        Err(e) => return Err(e),
    };
    let diplomacy = match read_diplomacy(stream) {
        Ok(v) => v,
        Err(e) => return Err(e),
    };
    match stream.read_i32() {
        Ok(_) => (),
        Err(e) => return Err(e),
    };
    let allied_victory = match read_u32_array(stream, 16) {
        Ok(v) => v,
        Err(e) => return Err(e),
    };
    let disabled_research_ids = match read_u32_grid(stream, 16, 20) {
        Ok(v) => v,
        Err(e) => return Err(e),
    };
    let unused1 = match stream.read_u32() {
        Ok(v) => v,
        Err(e) => return Err(e),
    };
    let unused2 = match stream.read_u32() {
        Ok(v) => v,
        Err(e) => return Err(e),
    };
    let all_techs_raw = match stream.read_u32() {
        Ok(v) => v,
        Err(e) => return Err(e),
    };
    let starting_ages = match read_u32_array(stream, 16) {
        Ok(v) => v,
        Err(e) => return Err(e),
    };
    match stream.read_i32() {
        Ok(_) => (),
        Err(e) => return Err(e),
    };
    Ok((
        player_starting_resources,
        victory_conditions,
        diplomacy,
        allied_victory,
        disabled_research_ids,
        unused1,
        unused2,
        all_techs_raw != 0,
        starting_ages,
    ))
}

impl PlayerData {
    /// Decode the whole player-data block at the cursor.
    #[verifier::rlimit(100)]
    pub fn read_from_stream(stream: &mut Reader) -> (r: Result<PlayerData, DecodeError>)
        requires
            old(stream).wf(),
        ensures
            final(stream).wf(),
            final(stream).data() == old(stream).data(),
            match r {
                Ok(v) => spec_read_player_data(old(stream).data(), old(stream).cursor())
                    == decoded(v@, final(stream).cursor()),
                Err(e) => spec_read_player_data(old(stream).data(), old(stream).cursor())
                    == failed::<PlayerDataView>(e),
            },
    {
        let (version, player_names, player_civs, conquest_victory, unknown1) =
            match read_pd_intro(stream) {
            Ok(v) => v,
            Err(e) => return Err(e),
        };
        let mut texts = match read_pascal_array(stream, 10) {
            Ok(v) => v,
            Err(e) => return Err(e),
        };
        let ghost texts0 = texts.deep_view();
        let background_file_name = texts.pop().unwrap();
        let loss_cinematic_file_name = texts.pop().unwrap();
        let victory_cinematic_file_name = texts.pop().unwrap();
        let pre_game_cinematic_file_name = texts.pop().unwrap();
        let history = texts.pop().unwrap();
        let loss = texts.pop().unwrap();
        let victory = texts.pop().unwrap();
        let hints = texts.pop().unwrap();
        let instructions = texts.pop().unwrap();
        let original_file_name = texts.pop().unwrap();
        proof {
            assert(original_file_name@ == texts0[0]);
            assert(instructions@ == texts0[1]);
            assert(hints@ == texts0[2]);
            assert(victory@ == texts0[3]);
            assert(loss@ == texts0[4]);
            assert(history@ == texts0[5]);
            assert(pre_game_cinematic_file_name@ == texts0[6]);
            assert(victory_cinematic_file_name@ == texts0[7]);
            assert(loss_cinematic_file_name@ == texts0[8]);
            assert(background_file_name@ == texts0[9]);
        }
        let preview_thumbnail = match read_preview_thumbnail(stream) {
            Ok(v) => v,
            Err(e) => return Err(e),
        };
        let (ai_names, city_names, personality_names, ai_script_configs, ai_types) =
            match read_pd_ai(stream) {
            Ok(v) => v,
            Err(e) => return Err(e),
        };
        let (
            player_starting_resources,
            victory_conditions,
            diplomacy,
            allied_victory,
            disabled_research_ids,
            unused1,
            unused2,
            all_techs,
            starting_ages,
        ) = match read_pd_tail(stream) {
            Ok(v) => v,
            Err(e) => return Err(e),
        };
        Ok(PlayerData {
            version,
            player_names,
            player_civs,
            conquest_victory,
            unknown1,
            original_file_name,
            instructions,
            hints,
            victory,
            loss,
            history,
            pre_game_cinematic_file_name,
            victory_cinematic_file_name,
            loss_cinematic_file_name,
            background_file_name,
            preview_thumbnail,
            ai_names,
            city_names,
            personality_names,
            ai_script_configs,
            ai_types,
            player_starting_resources,
            victory_conditions,
            diplomacy,
            allied_victory,
            disabled_research_ids,
            unused1,
            unused2,
            all_techs,
            starting_ages,
        })
    }
}

/// Decoding the player-data block is a function of the byte buffer and
/// start position alone: two decodes of the same buffer yield equal trees.
pub proof fn lemma_read_player_data_deterministic(
    data: Seq<u8>,
    pos: int,
    r1: Result<(PlayerDataView, int), DecodeError>,
    r2: Result<(PlayerDataView, int), DecodeError>,
)
    requires
        r1 == spec_read_player_data(data, pos),
        r2 == spec_read_player_data(data, pos),
    ensures
        r1 == r2,
{
}

/// Pascal-string runs decode exactly as many strings as their count says.
pub proof fn lemma_pascal_seq_len(data: Seq<u8>, pos: int, n: nat)
    ensures
        spec_read_pascal_seq(data, pos, n) matches Ok((ss, end)) ==> ss.len() == n,
    decreases n,
{
    if n > 0 {
        match spec_read_pascal_string(data, pos) {
            Ok(pr) => {
                lemma_pascal_seq_len(data, pr.1, (n - 1) as nat);
            }
            Err(_) => {}
        }
    }
}

/// Civilization records are fixed-width: `n` of them consume exactly
/// `16 * n` bytes and yield `n` records.
pub proof fn lemma_civilization_seq_consumes(data: Seq<u8>, pos: int, n: nat)
    ensures
        spec_read_civilization_seq(data, pos, n) matches Ok((cs, end)) ==> cs.len() == n && end
            == pos + 16 * n,
    decreases n,
{
    if n > 0 {
        match spec_read_civilization(data, pos) {
            Ok(pr) => {
                lemma_civilization_seq_consumes(data, pr.1, (n - 1) as nat);
            }
            Err(_) => {}
        }
    }
}

/// Starting-resources records are fixed-width: `n` of them consume exactly
/// `16 * n` bytes and yield `n` records.
pub proof fn lemma_resources_seq_consumes(data: Seq<u8>, pos: int, n: nat)
    ensures
        spec_read_resources_seq(data, pos, n) matches Ok((rs, end)) ==> rs.len() == n && end == pos
            + 16 * n,
    decreases n,
{
    if n > 0 {
        match spec_read_player_starting_resources(data, pos) {
            Ok(pr) => {
                lemma_resources_seq_consumes(data, pr.1, (n - 1) as nat);
            }
            Err(_) => {}
        }
    }
}

/// An AI-script-configuration run decodes exactly as many records as its
/// count says, whatever each record's three string lengths turned out to
/// be.
pub proof fn lemma_ai_script_config_seq_count(data: Seq<u8>, pos: int, n: nat)
    ensures
        spec_read_ai_script_config_seq(data, pos, n) matches Ok((cs, end)) ==> cs.len() == n,
    decreases n,
{
    if n > 0 {
        match spec_read_ai_script_config(data, pos) {
            Ok(pr) => {
                lemma_ai_script_config_seq_count(data, pr.1, (n - 1) as nat);
            }
            Err(_) => {}
        }
    }
}

/// Fixed-size string fields are fixed-width: `n` fields of `w` bytes
/// consume exactly `w * n` bytes and yield `n` strings.
pub proof fn lemma_sized_str_seq_consumes(data: Seq<u8>, pos: int, n: nat, w: int)
    requires
        w >= 0,
    ensures
        spec_read_sized_str_seq(data, pos, n, w) matches Ok((ss, end)) ==> ss.len() == n && end
            == pos + w * n,
    decreases n,
{
    if n > 0 {
        lemma_sized_str_seq_consumes(data, pos + w, (n - 1) as nat, w);
        assert(w * n == w + w * (n - 1)) by (nonlinear_arith);
    } else {
        assert(w * n == 0) by (nonlinear_arith)
            requires
                n == 0;
    }
}

/// 32-bit runs are fixed-width: `n` values consume exactly `4 * n` bytes
/// and yield `n` values.
pub proof fn lemma_u32_seq_consumes(data: Seq<u8>, pos: int, n: nat)
    ensures
        spec_read_u32_seq(data, pos, n) matches Ok((vs, end)) ==> vs.len() == n && end == pos + 4
            * n,
    decreases n,
{
    if n > 0 {
        lemma_u32_seq_consumes(data, pos + 4, (n - 1) as nat);
    }
}

/// A matrix decode yields exactly `rows` rows of exactly `cols` values and
/// consumes exactly `4 * cols` bytes per row.
pub proof fn lemma_u32_grid_consumes(data: Seq<u8>, pos: int, rows: nat, cols: nat)
    ensures
        spec_read_u32_grid(data, pos, rows, cols) matches Ok((g, end)) ==> g.len() == rows && end
            == pos + 4 * cols * rows && (forall|i: int| 0 <= i < rows ==> g[i].len() == cols),
    decreases rows,
{
    if rows > 0 {
        lemma_u32_seq_consumes(data, pos, cols);
        match spec_read_u32_seq(data, pos, cols) {
            Ok(pr) => {
                lemma_u32_grid_consumes(data, pr.1, (rows - 1) as nat, cols);
                assert(4 * cols * rows == 4 * cols + 4 * cols * (rows - 1)) by (nonlinear_arith);
            }
            Err(_) => {}
        }
    } else {
        assert(4 * cols * rows == 0) by (nonlinear_arith)
            requires
                rows == 0;
    }
}

/// The thumbnail's conditional shape, exactly: with inclusion flag zero the
/// record consumes the flag, width, height and two padding bytes — 14
/// bytes — and its pixel buffer is empty; with a nonzero flag it consumes
/// the long form and the pixel buffer holds declared-length-minus-40 bytes.
pub proof fn lemma_thumbnail_shape(data: Seq<u8>, pos: int)
    ensures
        le32_at(data, pos) == 0 ==> (spec_read_preview_thumbnail(data, pos) matches Ok((t, end))
            ==> end == pos + 14 && t.pixel_data.len() == 0 && !t.included),
        le32_at(data, pos) != 0 ==> (spec_read_preview_thumbnail(data, pos) matches Ok((t, end))
            ==> end == pos + 54 + (le32_at(data, pos + 34) - 40) && t.pixel_data.len() == le32_at(
            data,
            pos + 34,
        ) - 40 && t.included),
{
}

} // verus!
