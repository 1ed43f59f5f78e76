use devp2p_disk::{
    finish_load, load_value, DecodeError, DiskEntity, LoadError, SaveError, SaveProgress,
    SaveReport, SaveStep, Secret, Severity,
};

fn pattern_bytes(seed: u8) -> [u8; 32] {
    let mut b = [0u8; 32];
    for i in 0..32 {
        b[i] = seed.wrapping_mul(31).wrapping_add((i as u8).wrapping_mul(73));
    }
    b
}

fn run_save(outcomes: &[bool]) -> (Vec<SaveStep>, Option<SaveReport>) {
    let mut progress = SaveProgress::new();
    let mut steps = Vec::new();
    for &ok in outcomes {
        steps.push(progress.step);
        if let Some(report) = progress.advance(ok) {
            return (steps, Some(report));
        }
    }
    (steps, None)
}

#[test]
fn key_save_load() {
    let key = Secret::from_bytes(pattern_bytes(7));
    let text = key.to_repr();
    let r: Option<Secret> = load_value(Ok(text));
    assert_eq!(key, r.unwrap());
}

#[test]
fn secret_file_name_is_key() {
    assert_eq!(<Secret as DiskEntity>::FILENAME, "key");
    assert_eq!(<Secret as DiskEntity>::DESCRIPTION, "key file");
}

#[test]
fn secret_text_is_lowercase_hex() {
    let mut b = [0u8; 32];
    b[0] = 0xab;
    b[1] = 0x01;
    b[30] = 0xf0;
    b[31] = 0xcd;
    let key = Secret::from_bytes(b);
    let expected = format!("ab01{}f0cd", "00".repeat(28));
    assert_eq!(key.to_hex(), expected);
    assert_eq!(key.to_repr(), expected);
    assert_eq!(key.to_repr().len(), 64);
}

#[test]
fn secret_round_trips_through_text() {
    for seed in 0..20u8 {
        let key = Secret::from_bytes(pattern_bytes(seed));
        let back = Secret::from_repr(&key.to_repr()).unwrap();
        assert_eq!(back, key);
        assert_eq!(back.to_bytes(), pattern_bytes(seed));
    }
    let zero = Secret::from_bytes([0u8; 32]);
    assert_eq!(Secret::from_repr(&zero.to_repr()), Ok(zero));
    let full = Secret::from_bytes([0xffu8; 32]);
    assert_eq!(Secret::from_repr(&full.to_repr()), Ok(full));
}

#[test]
fn saving_twice_writes_the_same_text() {
    let key = Secret::from_bytes(pattern_bytes(3));
    let first = key.to_repr();
    let second = key.clone().to_repr();
    assert_eq!(first, second);
    let loaded: Option<Secret> = load_value(Ok(second));
    assert_eq!(loaded, Some(key));
}

#[test]
fn from_hex_accepts_what_the_parser_accepts() {
    let lower = "00112233445566778899aabbccddeeff00112233445566778899aabbccddeeff";
    let upper = "00112233445566778899AABBCCDDEEFF00112233445566778899AABBCCDDEEFF";
    let key = Secret::from_hex(lower).unwrap();
    assert_eq!(key.to_hex(), lower);
    assert_eq!(Secret::from_hex(upper), Ok(key.clone()));
    assert_eq!(Secret::from_hex(&format!("0x{}", lower)), Ok(key.clone()));
    assert_eq!(Secret::from_hex(&format!("{}\n", lower)), Ok(key.clone()));
    let spaced = "0011 2233445566778899aabbccddeeff00112233445566778899aabbccddeeff";
    assert_eq!(Secret::from_hex(spaced), Ok(key));
}

#[test]
fn from_hex_rejects_malformed_text() {
    let lower = "00112233445566778899aabbccddeeff00112233445566778899aabbccddeeff";
    assert_eq!(Secret::from_hex(&lower[1..]), Err(DecodeError::Malformed));
    assert_eq!(Secret::from_hex(&format!("{}00", lower)), Err(DecodeError::Malformed));
    assert_eq!(Secret::from_hex(&format!("0X{}", lower)), Err(DecodeError::Malformed));
    assert_eq!(Secret::from_hex(&lower.replace('a', "g")), Err(DecodeError::Malformed));
    assert_eq!(Secret::from_hex(""), Err(DecodeError::Malformed));
    assert_eq!(Secret::from_repr("not a key"), Err(DecodeError::Malformed));
}

#[test]
fn missing_file_loads_nothing_quietly() {
    let r: Result<Secret, LoadError> = finish_load(Err(LoadError::Open));
    assert_eq!(r, Err(LoadError::Open));
    assert_eq!(LoadError::Open.severity(), Severity::Debug);
    let v: Option<Secret> = load_value(Err(LoadError::Open));
    assert_eq!(v, None);
}

#[test]
fn unreadable_file_loads_nothing_with_warning() {
    let r: Result<Secret, LoadError> = finish_load(Err(LoadError::Read));
    assert_eq!(r, Err(LoadError::Read));
    assert_eq!(LoadError::Read.severity(), Severity::Warning);
    let v: Option<Secret> = load_value(Err(LoadError::Read));
    assert_eq!(v, None);
}

#[test]
fn corrupt_file_loads_nothing_with_warning() {
    let r: Result<Secret, LoadError> = finish_load(Ok("zz".repeat(32)));
    assert_eq!(r, Err(LoadError::Decode(DecodeError::Malformed)));
    assert_eq!(
        LoadError::Decode(DecodeError::Malformed).severity(),
        Severity::Warning
    );
    let v: Option<Secret> = load_value(Ok("0123".to_string()));
    assert_eq!(v, None);
}

#[test]
fn save_takes_every_step_in_order() {
    let (steps, report) = run_save(&[true, true, true, true]);
    assert_eq!(
        steps,
        vec![
            SaveStep::CreateDir,
            SaveStep::CreateFile,
            SaveStep::RestrictPermissions,
            SaveStep::Write
        ]
    );
    assert_eq!(
        report,
        Some(SaveReport { result: Ok(()), permissions_restricted: true })
    );
}

#[test]
fn save_stops_when_directory_fails() {
    let (steps, report) = run_save(&[false, true, true, true]);
    assert_eq!(steps, vec![SaveStep::CreateDir]);
    assert_eq!(
        report,
        Some(SaveReport { result: Err(SaveError::CreateDir), permissions_restricted: false })
    );
    assert_eq!(SaveError::CreateDir.severity(), Severity::Warning);
}

#[test]
fn save_stops_when_file_fails() {
    let (steps, report) = run_save(&[true, false, true, true]);
    assert_eq!(steps, vec![SaveStep::CreateDir, SaveStep::CreateFile]);
    assert_eq!(
        report,
        Some(SaveReport { result: Err(SaveError::CreateFile), permissions_restricted: false })
    );
}

#[test]
fn save_writes_even_when_permissions_fail() {
    let (steps, report) = run_save(&[true, true, false, true]);
    assert_eq!(steps.len(), 4);
    assert_eq!(steps[3], SaveStep::Write);
    assert_eq!(
        report,
        Some(SaveReport { result: Ok(()), permissions_restricted: false })
    );
}

#[test]
fn save_reports_failed_write() {
    let (_, report) = run_save(&[true, true, true, false]);
    assert_eq!(
        report,
        Some(SaveReport { result: Err(SaveError::Write), permissions_restricted: true })
    );
    assert_eq!(SaveError::Write.severity(), Severity::Warning);
}
