//! The settings record that outlives a restart, and how it is kept in flash.

use crate::bytes;
use crate::partition::PartitionLayout;
use vstd::prelude::*;

verus! {

pub const SOC_SETTINGS_MAGIC: u32 = 0x534f_4331;

pub const SOC_SETTINGS_VERSION: u16 = 1;

pub const SOC_SETTINGS_LEN: usize = 20;

/// The start of the settings region of the flash layout.
pub const SOC_SETTINGS_OFFSET: u32 = 0x000e_0000;

#[derive(Clone, Copy, Debug, PartialEq, Eq, Structural)]
pub struct SocSettings {
    pub autocal_complete: bool,
    pub last_battery_percent: u8,
    pub best_resistance_mohm: u32,
    pub window_calibrated: bool,
    pub window_closed_baseline_mt_x10: u16,
}

impl Default for SocSettings {
    fn default() -> (settings: Self)
        ensures
            settings == SocSettings::factory(),
    {
        SocSettings {
            autocal_complete: false,
            last_battery_percent: 100,
            best_resistance_mohm: 0,
            window_calibrated: false,
            window_closed_baseline_mt_x10: 0,
        }
    }
}

/// A truth value as the lowest bit of a word.
pub open spec fn bit(value: bool) -> u32 {
    if value {
        1
    } else {
        0
    }
}

/// `value` with its bits moved `count` places up, those that leave at the top coming back at the
/// bottom.
pub open spec fn rotated_left(value: u32, count: u32) -> u32 {
    (value << count) | (value >> ((32 - count) as u32))
}

fn rotate_left(value: u32, count: u32) -> (rotated: u32)
    requires
        0 < count < 32,
    ensures
        rotated == rotated_left(value, count),
{
    (value << count) | (value >> (32 - count))
}

impl SocSettings {
    /// The settings of a device that has none stored.
    pub open spec fn factory() -> SocSettings {
        SocSettings {
            autocal_complete: false,
            last_battery_percent: 100,
            best_resistance_mohm: 0,
            window_calibrated: false,
            window_closed_baseline_mt_x10: 0,
        }
    }

    /// The byte that holds the two truth values.
    pub open spec fn flags(self) -> u8 {
        match (self.autocal_complete, self.window_calibrated) {
            (false, false) => 0,
            (true, false) => 1,
            (false, true) => 2,
            (true, true) => 3,
        }
    }

    /// The word that guards the record.
    pub open spec fn guard(self) -> u32 {
        bit(self.autocal_complete) ^ rotated_left(bit(self.window_calibrated), 3)
            ^ self.last_battery_percent as u32 ^ rotated_left(self.best_resistance_mohm, 7)
            ^ rotated_left(self.window_closed_baseline_mt_x10 as u32, 11) ^ SOC_SETTINGS_MAGIC
            ^ SOC_SETTINGS_VERSION as u32
    }

    /// The record: magic, version, flags, charge, resistance, baseline, two unused bytes, guard.
    pub open spec fn record(self) -> Seq<u8> {
        bytes::le32(SOC_SETTINGS_MAGIC) + bytes::le16(SOC_SETTINGS_VERSION) + seq![
            self.flags(),
            self.last_battery_percent,
        ] + bytes::le32(self.best_resistance_mohm) + bytes::le16(
            self.window_closed_baseline_mt_x10,
        ) + seq![0xffu8, 0xffu8] + bytes::le32(self.guard())
    }

    /// The closed-window baseline in tenths of a millitesla, once the window is calibrated.
    pub fn window_closed_baseline_mt_x10(self) -> (baseline: Option<u16>)
        ensures
            baseline == if self.window_calibrated {
                Some(self.window_closed_baseline_mt_x10)
            } else {
                None
            },
    {
        if self.window_calibrated {
            Some(self.window_closed_baseline_mt_x10)
        } else {
            None
        }
    }

    pub fn encode(self) -> (encoded: [u8; SOC_SETTINGS_LEN])
        ensures
            encoded@ == self.record(),
    {
        let magic = bytes::u32_to_le(SOC_SETTINGS_MAGIC);
        let version = bytes::u16_to_le(SOC_SETTINGS_VERSION);
        let flags: u8 = match (self.autocal_complete, self.window_calibrated) {
            (false, false) => 0,
            (true, false) => 1,
            (false, true) => 2,
            (true, true) => 3,
        };
        let resistance = bytes::u32_to_le(self.best_resistance_mohm);
        let closed_baseline = bytes::u16_to_le(self.window_closed_baseline_mt_x10);
        let guard = bytes::u32_to_le(checksum(self));
        [
            magic[0],
            magic[1],
            magic[2],
            magic[3],
            version[0],
            version[1],
            flags,
            self.last_battery_percent,
            resistance[0],
            resistance[1],
            resistance[2],
            resistance[3],
            closed_baseline[0],
            closed_baseline[1],
            0xff,
            0xff,
            guard[0],
            guard[1],
            guard[2],
            guard[3],
        ]
    }

    /// What the fields of a record say, whatever its magic, version and guard are. The two
    /// lowest bits of the flags count; the others and the unused bytes do not.
    pub open spec fn said_by(record: Seq<u8>) -> SocSettings {
        SocSettings {
            autocal_complete: record[6] % 2 == 1,
            window_calibrated: record[6] / 2 % 2 == 1,
            last_battery_percent: record[7],
            best_resistance_mohm: bytes::from_le32(
                record[8],
                record[9],
                record[10],
                record[11],
            ) as u32,
            window_closed_baseline_mt_x10: bytes::from_le16(record[12], record[13]) as u16,
        }
    }

    /// Whether `record` starts with a record of this version whose guard is right.
    pub open spec fn is_record(record: Seq<u8>) -> bool {
        &&& record.len() >= SOC_SETTINGS_LEN
        &&& bytes::from_le32(record[0], record[1], record[2], record[3]) == SOC_SETTINGS_MAGIC
        &&& bytes::from_le16(record[4], record[5]) == SOC_SETTINGS_VERSION
        &&& bytes::from_le32(record[16], record[17], record[18], record[19])
            == SocSettings::said_by(record).guard()
    }

    /// The settings in `record`, if there is a record.
    pub open spec fn decoded(record: Seq<u8>) -> Option<SocSettings> {
        if SocSettings::is_record(record) {
            Some(SocSettings::said_by(record))
        } else {
            None
        }
    }

    pub fn decode(bytes: &[u8]) -> (settings: Option<Self>)
        ensures
            settings == SocSettings::decoded(bytes@),
    {
        if bytes.len() < SOC_SETTINGS_LEN {
            return None;
        }
        let magic: u32 = bytes::u32_from_le(bytes[0], bytes[1], bytes[2], bytes[3]);
        let version: u16 = bytes::u16_from_le(bytes[4], bytes[5]);
        if magic != SOC_SETTINGS_MAGIC || version != SOC_SETTINGS_VERSION {
            return None;
        }
        let settings = SocSettings {
            autocal_complete: bytes[6] % 2 == 1,
            window_calibrated: bytes[6] / 2 % 2 == 1,
            last_battery_percent: bytes[7],
            best_resistance_mohm: bytes::u32_from_le(bytes[8], bytes[9], bytes[10], bytes[11]),
            window_closed_baseline_mt_x10: bytes::u16_from_le(bytes[12], bytes[13]),
        };
        let stored_checksum: u32 = bytes::u32_from_le(bytes[16], bytes[17], bytes[18], bytes[19]);
        if stored_checksum == checksum(settings) {
            Some(settings)
        } else {
            None
        }
    }
}

pub fn checksum(settings: SocSettings) -> (guard: u32)
    ensures
        guard == settings.guard(),
{
    let autocal: u32 = if settings.autocal_complete {
        1
    } else {
        0
    };
    let calibrated: u32 = if settings.window_calibrated {
        1
    } else {
        0
    };
    autocal ^ rotate_left(calibrated, 3) ^ settings.last_battery_percent as u32 ^ rotate_left(
        settings.best_resistance_mohm,
        7,
    ) ^ rotate_left(settings.window_closed_baseline_mt_x10 as u32, 11) ^ SOC_SETTINGS_MAGIC
        ^ SOC_SETTINGS_VERSION as u32
}

/// The settings in flash, given what reading the [`SOC_SETTINGS_LEN`] bytes at
/// [`SOC_SETTINGS_OFFSET`] came to.
pub fn load_soc_settings<E>(read: Result<[u8; SOC_SETTINGS_LEN], E>) -> (settings: Option<
    SocSettings,
>)
    ensures
        settings == match read {
            Ok(record) => SocSettings::decoded(record@),
            Err(_) => None,
        },
{
    match read {
        Ok(record) => SocSettings::decode(&record),
        Err(_) => None,
    }
}

/// The settings to work with, given what reading the record from flash came to: those stored, or
/// those of a new device.
pub fn load_settings<E>(read: Result<[u8; SOC_SETTINGS_LEN], E>) -> (settings: SocSettings)
    ensures
        settings == match read {
            Ok(record) if SocSettings::is_record(record@) => SocSettings::said_by(record@),
            _ => SocSettings::factory(),
        },
{
    match load_soc_settings(read) {
        Some(settings) => settings,
        None => SocSettings::default(),
    }
}

/// What has become of the flash operation last asked for while settings are saved.
#[derive(Debug, PartialEq, Eq)]
pub enum SaveEvent<E> {
    Started,
    Read(Result<[u8; SOC_SETTINGS_LEN], E>),
    Erased(Result<(), E>),
    Written(Result<(), E>),
}

/// The flash operation to perform next while settings are saved.
#[derive(Debug, PartialEq, Eq)]
pub enum SaveAction<E> {
    Read { offset: u32 },
    Erase { from: u32, to: u32 },
    Write { offset: u32, record: [u8; SOC_SETTINGS_LEN] },
    Finish(Result<(), E>),
}

/// Whether settings that are to be saved are in flash already, as far as could be read.
pub open spec fn already_stored<E>(
    settings: SocSettings,
    read: Result<[u8; SOC_SETTINGS_LEN], E>,
) -> bool {
    read is Ok && SocSettings::decoded(read->Ok_0@) == Some(settings)
}

/// Whether `action` is what saving settings asks for after `event`.
pub open spec fn follows<E>(
    settings: SocSettings,
    erase_size: u32,
    event: SaveEvent<E>,
    action: SaveAction<E>,
) -> bool {
    match event {
        SaveEvent::Started => action == (SaveAction::<E>::Read { offset: SOC_SETTINGS_OFFSET }),
        SaveEvent::Read(read) => if already_stored(settings, read) {
            action == SaveAction::<E>::Finish(Ok(()))
        } else {
            action == (SaveAction::<E>::Erase {
                from: SOC_SETTINGS_OFFSET,
                to: (SOC_SETTINGS_OFFSET + erase_size) as u32,
            })
        },
        SaveEvent::Erased(Ok(_)) => {
            &&& action is Write
            &&& action->Write_offset == SOC_SETTINGS_OFFSET
            &&& action->record@ == settings.record()
        },
        SaveEvent::Erased(Err(error)) => action == SaveAction::<E>::Finish(Err(error)),
        SaveEvent::Written(outcome) => action == SaveAction::<E>::Finish(outcome),
    }
}

/// Saves settings step by step: they are read back first, and only if they are not there already
/// is the page at [`SOC_SETTINGS_OFFSET`] erased and then written. The first erase or write that
/// fails ends it with that error; a read that fails does not.
pub fn save_soc_settings<E>(
    settings: SocSettings,
    erase_size: u32,
    event: SaveEvent<E>,
) -> (action: SaveAction<E>)
    requires
        SOC_SETTINGS_OFFSET + erase_size <= u32::MAX,
    ensures
        follows(settings, erase_size, event, action),
{
    match event {
        SaveEvent::Started => SaveAction::Read { offset: SOC_SETTINGS_OFFSET },
        SaveEvent::Read(read) => {
            let unchanged = match load_soc_settings(read) {
                Some(stored) => stored == settings,
                None => false,
            };
            if unchanged {
                SaveAction::Finish(Ok(()))
            } else {
                SaveAction::Erase {
                    from: SOC_SETTINGS_OFFSET,
                    to: SOC_SETTINGS_OFFSET + erase_size,
                }
            }
        },
        SaveEvent::Erased(Ok(())) => SaveAction::Write {
            offset: SOC_SETTINGS_OFFSET,
            record: settings.encode(),
        },
        SaveEvent::Erased(Err(error)) => SaveAction::Finish(Err(error)),
        SaveEvent::Written(outcome) => SaveAction::Finish(outcome),
    }
}

/// The record is kept at the start of the settings region of the flash layout, and the whole
/// record lies in it.
pub proof fn record_lies_in_settings_region(settings: SocSettings)
    ensures
        SOC_SETTINGS_OFFSET == PartitionLayout::mcuboot().settings_start,
        SOC_SETTINGS_OFFSET + settings.record().len() <= PartitionLayout::mcuboot().settings_start
            + PartitionLayout::mcuboot().settings_size,
        settings.record().len() == SOC_SETTINGS_LEN,
{
}

/// Decoding the record of any settings gives the settings back.
pub proof fn records_read_back(settings: SocSettings)
    ensures
        SocSettings::decoded(settings.record()) == Some(settings),
{
    let record = settings.record();
    bytes::le_round_trip(SOC_SETTINGS_VERSION, SOC_SETTINGS_MAGIC, 0);
    bytes::le_round_trip(
        settings.window_closed_baseline_mt_x10,
        settings.best_resistance_mohm,
        0,
    );
    bytes::le_round_trip(0, settings.guard(), 0);
    assert(SocSettings::said_by(record) == settings);
}

/// A record that is too short, or has another magic, version or guard than its fields call for,
/// is rejected.
pub proof fn damaged_records_are_rejected(record: Seq<u8>)
    ensures
        record.len() < SOC_SETTINGS_LEN ==> SocSettings::decoded(record) is None,
        bytes::from_le32(record[0], record[1], record[2], record[3]) != SOC_SETTINGS_MAGIC
            ==> SocSettings::decoded(record) is None,
        bytes::from_le16(record[4], record[5]) != SOC_SETTINGS_VERSION ==> SocSettings::decoded(
            record,
        ) is None,
        bytes::from_le32(record[16], record[17], record[18], record[19]) != SocSettings::said_by(
            record,
        ).guard() ==> SocSettings::decoded(record) is None,
{
}

/// Whether two settings differ in exactly one of their fields.
pub open spec fn differ_in_one_field(one: SocSettings, other: SocSettings) -> bool {
    let changed = bit(one.autocal_complete != other.autocal_complete) + bit(
        one.window_calibrated != other.window_calibrated,
    ) + bit(one.last_battery_percent != other.last_battery_percent) + bit(
        one.best_resistance_mohm != other.best_resistance_mohm,
    ) + bit(one.window_closed_baseline_mt_x10 != other.window_closed_baseline_mt_x10);
    changed == 1
}

/// A record in which one field was overwritten, whatever with, no longer matches its guard.
pub proof fn one_changed_field_is_noticed(one: SocSettings, other: SocSettings)
    requires
        differ_in_one_field(one, other),
    ensures
        one.guard() != other.guard(),
{
    let (a, b, c, d, e) = (
        bit(one.autocal_complete),
        rotated_left(bit(one.window_calibrated), 3),
        one.last_battery_percent as u32,
        rotated_left(one.best_resistance_mohm, 7),
        rotated_left(one.window_closed_baseline_mt_x10 as u32, 11),
    );
    let (a2, b2, c2, d2, e2) = (
        bit(other.autocal_complete),
        rotated_left(bit(other.window_calibrated), 3),
        other.last_battery_percent as u32,
        rotated_left(other.best_resistance_mohm, 7),
        rotated_left(other.window_closed_baseline_mt_x10 as u32, 11),
    );
    let magic = SOC_SETTINGS_MAGIC;
    let version = SOC_SETTINGS_VERSION as u32;
    lemma_rotations_are_injective(bit(one.window_calibrated), bit(other.window_calibrated));
    lemma_rotations_are_injective(one.best_resistance_mohm, other.best_resistance_mohm);
    lemma_rotations_are_injective(
        one.window_closed_baseline_mt_x10 as u32,
        other.window_closed_baseline_mt_x10 as u32,
    );
    assert(a ^ b ^ c ^ d ^ e ^ magic ^ version == a2 ^ b2 ^ c2 ^ d2 ^ e2 ^ magic ^ version ==> (
    b == b2 && c == c2 && d == d2 && e == e2 ==> a == a2) && (a == a2 && c == c2 && d == d2 && e
        == e2 ==> b == b2) && (a == a2 && b == b2 && d == d2 && e == e2 ==> c == c2) && (a == a2
        && b == b2 && c == c2 && e == e2 ==> d == d2) && (a == a2 && b == b2 && c == c2 && d == d2
        ==> e == e2)) by (bit_vector);
}

proof fn lemma_rotations_are_injective(one: u32, other: u32)
    ensures
        rotated_left(one, 3) == rotated_left(other, 3) ==> one == other,
        rotated_left(one, 7) == rotated_left(other, 7) ==> one == other,
        rotated_left(one, 11) == rotated_left(other, 11) ==> one == other,
{
    assert((one << 3u32) | (one >> 29u32) == (other << 3u32) | (other >> 29u32) ==> one == other)
        by (bit_vector);
    assert((one << 7u32) | (one >> 25u32) == (other << 7u32) | (other >> 25u32) ==> one == other)
        by (bit_vector);
    assert((one << 11u32) | (one >> 21u32) == (other << 11u32) | (other >> 21u32) ==> one
        == other) by (bit_vector);
}

/// NOR flash, as the sequence of its bytes, after an operation that went well: erasing sets all
/// bits, writing can only clear bits.
pub open spec fn performed<E>(flash: Seq<u8>, action: SaveAction<E>) -> Seq<u8> {
    match action {
        SaveAction::Erase { from, to } => Seq::new(
            flash.len(),
            |i: int|
                if from <= i < to {
                    0xff
                } else {
                    flash[i]
                },
        ),
        SaveAction::Write { offset, record } => Seq::new(
            flash.len(),
            |i: int|
                if offset <= i < offset + record@.len() {
                    flash[i] & record@[i - offset]
                } else {
                    flash[i]
                },
        ),
        _ => flash,
    }
}

/// The record as it would be read out of the flash.
pub open spec fn stored(flash: Seq<u8>) -> Seq<u8> {
    flash.subrange(SOC_SETTINGS_OFFSET as int, SOC_SETTINGS_OFFSET + SOC_SETTINGS_LEN)
}

/// Once settings have been saved, loading gives them back, whatever the flash held before and
/// even if it could not be read. Settings that are in flash already cost no erase and no write,
/// and nothing outside the erased page changes.
pub proof fn saved_settings_load<E>(
    flash: Seq<u8>,
    settings: SocSettings,
    erase_size: u32,
    read: Result<[u8; SOC_SETTINGS_LEN], E>,
    first: SaveAction<E>,
    second: SaveAction<E>,
)
    requires
        SOC_SETTINGS_OFFSET + erase_size <= u32::MAX,
        SOC_SETTINGS_LEN <= erase_size,
        SOC_SETTINGS_OFFSET + erase_size <= flash.len(),
        read is Ok ==> read->Ok_0@ == stored(flash),
        follows(settings, erase_size, SaveEvent::Read(read), first),
        follows(settings, erase_size, SaveEvent::Erased(Ok::<(), E>(())), second),
    ensures
        first is Finish || first is Erase,
        first is Finish ==> SocSettings::decoded(stored(flash)) == Some(settings),
        read is Ok && SocSettings::decoded(stored(flash)) == Some(settings) ==> first is Finish,
        first is Erase ==> {
            let after = performed(performed(flash, first), second);
            &&& SocSettings::decoded(stored(after)) == Some(settings)
            &&& after.len() == flash.len()
            &&& forall|i: int|
                0 <= i < flash.len() && !(SOC_SETTINGS_OFFSET <= i < SOC_SETTINGS_OFFSET
                    + erase_size) ==> after[i] == flash[i]
        },
{
    if first is Erase {
        let record = settings.record();
        let after = performed(performed(flash, first), second);
        record_lies_in_settings_region(settings);
        records_read_back(settings);
        assert forall|i: int| 0 <= i < SOC_SETTINGS_LEN implies #[trigger] stored(after)[i]
            == record[i] by {
            let byte = record[i];
            assert(0xffu8 & byte == byte) by (bit_vector);
        }
        assert(stored(after) == record);
    }
}

/// The guard is the exclusive or of the two truth values at bits 0 and 3, the charge, the
/// resistance turned left by seven bits, the baseline moved up by eleven, and a fixed word.
pub proof fn guard_mixes_every_field(settings: SocSettings)
    ensures
        settings.guard() == (if settings.autocal_complete {
            1u32
        } else {
            0u32
        }) ^ (if settings.window_calibrated {
            8u32
        } else {
            0u32
        }) ^ (settings.last_battery_percent as u32) ^ ((settings.best_resistance_mohm << 7u32) | (
        settings.best_resistance_mohm >> 25u32)) ^ ((settings.window_closed_baseline_mt_x10 as u32)
            << 11u32) ^ 0x534f_4330u32,
{
    let a = bit(settings.autocal_complete);
    let c = settings.last_battery_percent as u32;
    let r = settings.best_resistance_mohm;
    let d = (r << 7u32) | (r >> 25u32);
    let short = settings.window_closed_baseline_mt_x10;
    let e = short as u32;
    assert((1u32 << 3u32) | (1u32 >> 29u32) == 8u32) by (bit_vector);
    assert((0u32 << 3u32) | (0u32 >> 29u32) == 0u32) by (bit_vector);
    assert((e << 11u32) | (e >> 21u32) == e << 11u32) by (bit_vector)
        requires
            e <= 0xffff,
    ;
    let b = rotated_left(bit(settings.window_calibrated), 3);
    let m = e << 11u32;
    assert(a ^ b ^ c ^ d ^ m ^ 0x534f_4331u32 ^ 1u32 == a ^ b ^ c ^ d ^ m ^ 0x534f_4330u32)
        by (bit_vector);
}

/// Where each field of a record stands, and what a record says of it. The upper bits of the flags
/// and the two unused bytes say nothing.
pub proof fn records_have_a_fixed_layout(settings: SocSettings, record: Seq<u8>)
    requires
        record.len() >= 20,
    ensures
        ({
            let encoded = settings.record();
            &&& encoded.len() == 20
            &&& encoded[0] + 256 * encoded[1] + 65_536 * encoded[2] + 16_777_216 * encoded[3]
                == 0x534f_4331
            &&& encoded[4] == 1 && encoded[5] == 0
            &&& encoded[6] % 2 == 1 <==> settings.autocal_complete
            &&& encoded[6] / 2 == 1 <==> settings.window_calibrated
            &&& encoded[6] < 4
            &&& encoded[7] == settings.last_battery_percent
            &&& encoded[8] + 256 * encoded[9] + 65_536 * encoded[10] + 16_777_216 * encoded[11]
                == settings.best_resistance_mohm
            &&& encoded[12] + 256 * encoded[13] == settings.window_closed_baseline_mt_x10
            &&& encoded[14] == 255 && encoded[15] == 255
            &&& encoded[16] + 256 * encoded[17] + 65_536 * encoded[18] + 16_777_216 * encoded[19]
                == settings.guard()
        }),
        SocSettings::decoded(record) is Some <==> {
            &&& record[0] == 0x31 && record[1] == 0x43 && record[2] == 0x4f && record[3] == 0x53
            &&& record[4] == 1 && record[5] == 0
            &&& record[16] + 256 * record[17] + 65_536 * record[18] + 16_777_216 * record[19]
                == SocSettings::said_by(record).guard()
        },
        SocSettings::decoded(record) matches Some(found) ==> {
            &&& found.autocal_complete <==> record[6] % 2 == 1
            &&& found.window_calibrated <==> record[6] / 2 % 2 == 1
            &&& found.last_battery_percent == record[7]
            &&& found.best_resistance_mohm == record[8] + 256 * record[9] + 65_536 * record[10]
                + 16_777_216 * record[11]
            &&& found.window_closed_baseline_mt_x10 == record[12] + 256 * record[13]
        },
{
    bytes::le_round_trip(SOC_SETTINGS_VERSION, SOC_SETTINGS_MAGIC, 0);
    bytes::le_round_trip(settings.window_closed_baseline_mt_x10, settings.best_resistance_mohm, 0);
    bytes::le_round_trip(0, settings.guard(), 0);
}

/// Saving starts by reading the record at its place; an erase that fails ends it with that error
/// and is followed by no write; a write ends it with its own outcome; the page that is erased
/// starts where the record does and is one erase unit long.
pub proof fn failures_end_saving<E>(
    settings: SocSettings,
    erase_size: u32,
    event: SaveEvent<E>,
    action: SaveAction<E>,
)
    requires
        0xe_0000 + erase_size <= u32::MAX,
        follows(settings, erase_size, event, action),
    ensures
        event is Started ==> action is Read && action->Read_offset == 0xe_0000,
        event matches SaveEvent::Erased(Err(error)) ==> action is Finish && action->Finish_0
            == Err::<(), E>(error),
        event matches SaveEvent::Erased(Ok(_)) ==> action is Write && action->Write_offset
            == 0xe_0000 && SocSettings::decoded(action->record@) == Some(settings),
        event matches SaveEvent::Written(outcome) ==> action is Finish && action->Finish_0
            == outcome,
        event matches SaveEvent::Read(Err(_)) ==> action is Erase,
        event matches SaveEvent::Read(Ok(record)) ==> (action is Finish <==> SocSettings::decoded(
            record@,
        ) == Some(settings)),
        event is Read ==> action is Erase || (action is Finish && action->Finish_0 is Ok),
        action is Erase ==> action->from == 0xe_0000 && action->to - action->from == erase_size,
{
    records_read_back(settings);
}

/// A new device has an empty record: nothing calibrated, a full battery, no resistance seen.
pub proof fn new_devices_start_full()
    ensures
        !SocSettings::factory().autocal_complete,
        !SocSettings::factory().window_calibrated,
        SocSettings::factory().last_battery_percent == 100,
        SocSettings::factory().best_resistance_mohm == 0,
        SocSettings::factory().window_closed_baseline_mt_x10 == 0,
{
}

} // verus!
