use embedded_storage::nor_flash::{
    ErrorType, NorFlash, NorFlashError, NorFlashErrorKind, ReadNorFlash,
};
use window_sensor::settings::{
    load_soc_settings, save_soc_settings, SaveAction, SaveEvent, SocSettings, SOC_SETTINGS_LEN,
    SOC_SETTINGS_OFFSET,
};

fn read(flash: &mut MockFlash) -> Result<[u8; SOC_SETTINGS_LEN], MockError> {
    let mut bytes = [0xff; SOC_SETTINGS_LEN];
    flash.read(SOC_SETTINGS_OFFSET, &mut bytes)?;
    Ok(bytes)
}

/// Performs on `flash` what saving asks for.
fn save(flash: &mut MockFlash, settings: SocSettings) -> Result<(), MockError> {
    let mut event = SaveEvent::Started;
    loop {
        event = match save_soc_settings(settings, MockFlash::ERASE_SIZE as u32, event) {
            SaveAction::Read { offset } => {
                assert_eq!(offset, SOC_SETTINGS_OFFSET);
                SaveEvent::Read(read(flash))
            }
            SaveAction::Erase { from, to } => SaveEvent::Erased(flash.erase(from, to)),
            SaveAction::Write { offset, record } => {
                SaveEvent::Written(flash.write(offset, &record))
            }
            SaveAction::Finish(outcome) => return outcome,
        };
    }
}

#[derive(Debug, Clone, Copy, PartialEq, Eq)]
enum MockError {
    OutOfBounds,
    Unaligned,
}

impl NorFlashError for MockError {
    fn kind(&self) -> NorFlashErrorKind {
        match self {
            Self::OutOfBounds => NorFlashErrorKind::OutOfBounds,
            Self::Unaligned => NorFlashErrorKind::NotAligned,
        }
    }
}

struct MockFlash {
    bytes: [u8; 4096],
}

impl MockFlash {
    fn new() -> Self {
        Self {
            bytes: [0xff; 4096],
        }
    }
}

impl ErrorType for MockFlash {
    type Error = MockError;
}

impl ReadNorFlash for MockFlash {
    const READ_SIZE: usize = 1;

    fn read(&mut self, offset: u32, bytes: &mut [u8]) -> Result<(), Self::Error> {
        let offset = offset as usize - SOC_SETTINGS_OFFSET as usize;
        let end = offset + bytes.len();
        if end > self.bytes.len() {
            return Err(MockError::OutOfBounds);
        }

        bytes.copy_from_slice(&self.bytes[offset..end]);
        Ok(())
    }

    fn capacity(&self) -> usize {
        self.bytes.len()
    }
}

impl NorFlash for MockFlash {
    const WRITE_SIZE: usize = SOC_SETTINGS_LEN;
    const ERASE_SIZE: usize = 4096;

    fn erase(&mut self, from: u32, to: u32) -> Result<(), Self::Error> {
        if from != SOC_SETTINGS_OFFSET || to != SOC_SETTINGS_OFFSET + Self::ERASE_SIZE as u32 {
            return Err(MockError::Unaligned);
        }

        self.bytes.fill(0xff);
        Ok(())
    }

    fn write(&mut self, offset: u32, bytes: &[u8]) -> Result<(), Self::Error> {
        if offset != SOC_SETTINGS_OFFSET || bytes.len() != Self::WRITE_SIZE {
            return Err(MockError::Unaligned);
        }

        self.bytes[..bytes.len()].copy_from_slice(bytes);
        Ok(())
    }
}

#[test]
fn soc_settings_round_trip() {
    let settings = SocSettings {
        autocal_complete: true,
        last_battery_percent: 91,
        best_resistance_mohm: 12_345,
        window_calibrated: true,
        window_closed_baseline_mt_x10: 512,
    };

    assert_eq!(SocSettings::decode(&settings.encode()), Some(settings));
}

#[test]
fn soc_settings_rejects_bad_magic() {
    let mut bytes = SocSettings::default().encode();
    bytes[0] = 0;

    assert_eq!(SocSettings::decode(&bytes), None);
}

#[test]
fn soc_settings_rejects_bad_checksum() {
    let mut bytes = SocSettings {
        autocal_complete: true,
        last_battery_percent: 80,
        best_resistance_mohm: 9_000,
        window_calibrated: true,
        window_closed_baseline_mt_x10: 480,
    }
    .encode();
    bytes[16] ^= 0x01;

    assert_eq!(SocSettings::decode(&bytes), None);
}

#[test]
fn save_and_load_soc_settings_round_trip() {
    let mut flash = MockFlash::new();
    let settings = SocSettings {
        autocal_complete: true,
        last_battery_percent: 87,
        best_resistance_mohm: 8_765,
        window_calibrated: true,
        window_closed_baseline_mt_x10: 505,
    };

    save(&mut flash, settings).unwrap();
    assert_eq!(load_soc_settings(read(&mut flash)), Some(settings));
}

fn some_settings() -> SocSettings {
    SocSettings {
        autocal_complete: true,
        last_battery_percent: 61,
        best_resistance_mohm: 0x1234_5678,
        window_calibrated: false,
        window_closed_baseline_mt_x10: 0xabcd,
    }
}

#[test]
fn the_record_has_a_fixed_layout() {
    let record = some_settings().encode();
    assert_eq!(
        record[..16],
        [
            0x31, 0x43, 0x4f, 0x53, 0x01, 0x00, 0x01, 61, 0x78, 0x56, 0x34, 0x12, 0xcd, 0xab,
            0xff, 0xff
        ]
    );
    let guard = 1u32
        ^ 61
        ^ 0x1234_5678u32.rotate_left(7)
        ^ 0xabcdu32.rotate_left(11)
        ^ 0x534f_4331
        ^ 1;
    assert_eq!(window_sensor::settings::checksum(some_settings()), guard);
    assert_eq!(record[16..], guard.to_le_bytes());
}

#[test]
fn every_single_byte_of_the_fields_is_guarded() {
    let record = some_settings().encode();
    for index in (0..14).chain(16..20) {
        let mut damaged = record;
        damaged[index] ^= 0x01;
        assert_eq!(SocSettings::decode(&damaged), None, "byte {}", index);
    }
    assert_eq!(SocSettings::decode(&record[..19]), None);
    let mut longer = record.to_vec();
    longer.push(0);
    assert_eq!(SocSettings::decode(&longer), Some(some_settings()));
}

#[test]
fn settings_in_flash_already_are_not_written_again() {
    let read = SaveEvent::<()>::Read(Ok(some_settings().encode()));
    assert_eq!(
        save_soc_settings(some_settings(), 4096, read),
        SaveAction::Finish(Ok(()))
    );
    let other = SaveEvent::<()>::Read(Ok(SocSettings::default().encode()));
    assert_eq!(
        save_soc_settings(some_settings(), 4096, other),
        SaveAction::Erase {
            from: 0xe0000,
            to: 0xe1000
        }
    );
}

#[test]
fn a_failing_erase_or_write_ends_saving() {
    assert!(matches!(
        save_soc_settings(some_settings(), 4096, SaveEvent::Read(Err(7))),
        SaveAction::Erase { .. }
    ));
    assert_eq!(
        save_soc_settings(some_settings(), 4096, SaveEvent::Erased(Err(8))),
        SaveAction::Finish(Err(8))
    );
    assert_eq!(
        save_soc_settings(some_settings(), 4096, SaveEvent::Written(Err(9))),
        SaveAction::Finish(Err(9))
    );
    assert_eq!(load_soc_settings(Err::<[u8; 20], u8>(1)), None);
    assert_eq!(
        window_sensor::settings::load_settings(Err::<[u8; 20], u8>(1)),
        SocSettings::default()
    );
}

#[test]
fn the_baseline_counts_only_once_calibrated() {
    let mut settings = some_settings();
    assert_eq!(settings.window_closed_baseline_mt_x10(), None);
    settings.window_calibrated = true;
    assert_eq!(settings.window_closed_baseline_mt_x10(), Some(0xabcd));
}

#[test]
fn the_record_starts_the_settings_region() {
    let region = window_sensor::partition::PartitionLayout::mcuboot_default().settings_region();
    assert_eq!(region.start, SOC_SETTINGS_OFFSET);
}
