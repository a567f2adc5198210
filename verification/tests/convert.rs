use ironcalc::base::Model;
use ironcalc::export::save_xlsx_to_writer;
use ironcalc::import::load_from_xlsx_bytes;
use sheetfetch::convert::{internal_name, MODEL_LANGUAGE, WORKBOOK_LOCALE, WORKBOOK_TIMEZONE};
use sheetfetch::pipeline::{on_decode_outcome, DecodeOutcome, PipelineStep};
use sheetfetch::PipelineError;
use std::io::Cursor;

fn sample_xlsx_bytes() -> Vec<u8> {
    let model = Model::new_empty("sample", "en", "UTC", "en").unwrap();
    let cursor = save_xlsx_to_writer(&model, Cursor::new(Vec::new())).unwrap();
    cursor.into_inner()
}

fn decode_like_the_runner(bytes: &[u8], name: &str) -> DecodeOutcome {
    match load_from_xlsx_bytes(bytes, name, WORKBOOK_LOCALE, WORKBOOK_TIMEZONE) {
        Err(_) => DecodeOutcome::Refused,
        Ok(workbook) => match Model::from_workbook(workbook, MODEL_LANGUAGE) {
            Err(_) => DecodeOutcome::Refused,
            Ok(model) => DecodeOutcome::Serialized(model.to_bytes()),
        },
    }
}

#[test]
fn internal_name_strips_suffix() {
    assert_eq!(internal_name("report.xlsx"), "report");
    assert_eq!(internal_name("a.xlsx"), "a");
    assert_eq!(internal_name(".xlsx"), "");
}

#[test]
fn internal_name_keeps_other_names() {
    assert_eq!(internal_name("report"), "report");
    assert_eq!(internal_name("data.csv"), "data.csv");
    assert_eq!(internal_name("report.XLSX"), "report.XLSX");
    assert_eq!(internal_name(""), "");
    assert_eq!(internal_name("xlsx"), "xlsx");
}

#[test]
fn internal_name_strips_one_suffix_only() {
    assert_eq!(internal_name("a.xlsx.xlsx"), "a.xlsx");
}

#[test]
fn valid_workbook_round_trips() {
    let bytes = sample_xlsx_bytes();
    let outcome = decode_like_the_runner(&bytes, "sample");
    let serialized = match outcome {
        DecodeOutcome::Serialized(serialized) => serialized,
        DecodeOutcome::Refused => panic!("the decoder must accept its own export"),
    };
    assert!(!serialized.is_empty());
    let reloaded = Model::from_bytes(&serialized, "en").unwrap();
    assert_eq!(reloaded.to_bytes(), serialized);
    match on_decode_outcome(DecodeOutcome::Serialized(serialized.clone())) {
        PipelineStep::Finished { workbook } => assert_eq!(workbook, serialized),
        _ => panic!("serialized bytes must finish the run"),
    }
}

#[test]
fn invalid_bytes_fail_decoding() {
    let bytes = b"definitely not a spreadsheet".to_vec();
    let outcome = decode_like_the_runner(&bytes, "junk");
    assert!(matches!(outcome, DecodeOutcome::Refused));
    match on_decode_outcome(outcome) {
        PipelineStep::Failed { error } => assert_eq!(error, PipelineError::DecodeFailure),
        _ => panic!("a refusal must be terminal"),
    }
}

#[test]
fn empty_bytes_fail_decoding() {
    let outcome = decode_like_the_runner(&[], "empty");
    assert!(matches!(outcome, DecodeOutcome::Refused));
    match on_decode_outcome(outcome) {
        PipelineStep::Failed { error } => assert_eq!(error, PipelineError::DecodeFailure),
        _ => panic!("a refusal must be terminal"),
    }
}
