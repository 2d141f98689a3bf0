use image_trainer::messages::chat_line;
use image_trainer::metrics::{
    checked_system_update_line, ram_used_gb, system_report, system_update_line, TrainingMetrics,
    UPDATE_SECONDS,
};
use serde_json::Value;

#[test]
fn metrics_start_at_zero_and_follow_updates() {
    let mut metrics = TrainingMetrics::<f64>::default();
    assert_eq!((metrics.epoch, metrics.loss, metrics.accuracy), (0, 0.0, 0.0));
    metrics.update_training_metrics(3, 0.25, 0.5);
    assert_eq!((metrics.epoch, metrics.loss, metrics.accuracy), (3, 0.25, 0.5));
    metrics.update_training_metrics(4, 0.125, 0.75);
    assert_eq!((metrics.epoch, metrics.loss, metrics.accuracy), (4, 0.125, 0.75));
    assert_eq!(UPDATE_SECONDS, 15);
}

#[test]
fn update_is_one_line_with_every_figure() {
    let expected = "{\"accuracy\":0.5,\"epoch\":3,\"loss\":0.25,\"ram_mb\":2048,\
                    \"type\":\"system_update\",\"vram_mb\":0,\"vram_total_mb\":0}\n";
    assert_eq!(system_update_line(3, Value::from(0.25), Value::from(0.5), 2048), expected);
    assert_eq!(
        checked_system_update_line(3, Value::from(0.25), Value::from(0.5), 2048),
        Some(expected.to_string())
    );
}

#[test]
fn measurement_that_is_not_finite_is_null() {
    assert_eq!(
        checked_system_update_line(0, Value::from(f64::NAN), Value::from(1), u64::MAX),
        Some(
            "{\"accuracy\":1,\"epoch\":0,\"loss\":null,\"ram_mb\":18446744073709551615,\
             \"type\":\"system_update\",\"vram_mb\":0,\"vram_total_mb\":0}\n"
                .to_string()
        )
    );
}

#[test]
fn values_that_are_no_measurements_are_refused() {
    assert_eq!(checked_system_update_line(1, Value::from("x"), Value::from(0.5), 1), None);
    assert_eq!(checked_system_update_line(1, Value::from(0.5), Value::from(true), 1), None);
    assert_eq!(
        checked_system_update_line(1, Value::from(0.5), Value::from(vec![1, 2]), 1),
        None
    );
}

#[test]
fn report_is_read_from_a_successful_run() {
    let text = b"{\"hardware\": {\"ram_used_gb\": 7.5}, \"torch\": {\"cuda_available\": true}}\n";
    let report = system_report(true, text).unwrap();
    assert_eq!(ram_used_gb(&report), Some(&Value::from(7.5)));
    assert!(system_report(false, text).is_none());
    assert!(system_report(true, b"Traceback").is_none());
    assert!(system_report(true, b"").is_none());
}

#[test]
fn invalid_bytes_in_a_report_are_replaced() {
    let report = system_report(true, b"{\"hardware\": {\"ram_used_gb\": \"\xff\"}}").unwrap();
    assert_eq!(ram_used_gb(&report), Some(&Value::from("\u{fffd}")));
}

#[test]
fn report_may_lack_the_memory() {
    for text in ["{}", "{\"hardware\": 5}", "{\"hardware\": {}}", "[]", "null"] {
        let report = system_report(true, text.as_bytes()).unwrap();
        assert_eq!(ram_used_gb(&report), None);
    }
}

#[test]
fn chat_is_one_line_that_reads_back() {
    assert_eq!(chat_line("hi"), "{\"message\":\"hi\",\"type\":\"user_chat\"}\n");
    for message in ["", "two\nlines\r\n", "\"quoted\" \\ \u{1}\u{7f}", "\u{1F600}\u{2028}"] {
        let line = chat_line(message);
        assert_eq!(line.matches('\n').count(), 1);
        assert!(line.ends_with('\n'));
        let value: Value = serde_json::from_str(line.trim_end_matches('\n')).unwrap();
        assert_eq!(value["message"], message);
        assert_eq!(value["type"], "user_chat");
        assert_eq!(value.as_object().unwrap().len(), 2);
    }
}

#[test]
fn doubles_are_read_back_as_doubles() {
    let limit = f64::from_bits(0x7fdf_ffff_ffff_ffff);
    for loss in [0.0, -0.0, 1.0, 0.1, 5e-324, 1e16, -2.5e-7, limit, -limit] {
        let line = system_update_line(1, Value::from(loss), Value::from(1e300), 4);
        let value: Value = serde_json::from_str(line.trim_end_matches('\n')).unwrap();
        assert!(value["loss"].is_f64() && value["accuracy"].is_f64(), "{}", line);
        assert_eq!((&value["epoch"], &value["ram_mb"]), (&Value::from(1), &Value::from(4)));
        assert_eq!(value.as_object().unwrap().len(), 7);
    }
}
