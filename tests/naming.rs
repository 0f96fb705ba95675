use actura::naming::{output_dir_parts, recording_file_name, web_audio_file_name};

#[test]
fn recording_names_carry_the_millis() {
    assert_eq!(recording_file_name(1700000000123, "wav"), "recording_1700000000123.wav");
    assert_eq!(recording_file_name(0, "wav"), "recording_0.wav");
    assert_eq!(recording_file_name(10, "webm"), "recording_10.webm");
    assert_eq!(recording_file_name(u64::MAX, "wav"), "recording_18446744073709551615.wav");
}

#[test]
fn web_audio_names_default_to_webm() {
    assert_eq!(web_audio_file_name(Some("take.webm".to_string()), 5), "take.webm");
    assert_eq!(web_audio_file_name(None, 42), "recording_42.webm");
}

#[test]
fn output_dir_prefers_home() {
    let p = output_dir_parts(Some("/home/u".to_string()), Some("C:\\Users\\u".to_string()), "/tmp".to_string());
    assert_eq!(p, vec!["/home/u", "Desktop", "Actura"]);
    let p = output_dir_parts(None, Some("C:\\Users\\u".to_string()), "/tmp".to_string());
    assert_eq!(p, vec!["C:\\Users\\u", "Desktop", "Actura"]);
}

#[test]
fn output_dir_falls_back_to_temp() {
    let p = output_dir_parts(None, None, "/tmp".to_string());
    assert_eq!(p, vec!["/tmp", "Actura"]);
}
