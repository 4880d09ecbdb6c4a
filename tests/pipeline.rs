use iso2god_gui::chain::{ChainStep, Digest};
use iso2god_gui::header::{assemble_header, resolve_title, title_override_from_input, white_space};
use iso2god_gui::pipeline::Conversion;
use iso2god_gui::sizing::{compute_sizing, SizeError, TrimMode, PART_BYTES};
use iso2god_gui::status::{ConversionStatus, Stage};

fn digest_of(tag: u8) -> Digest {
    [tag; 20]
}

#[test]
fn default_status_is_idle() {
    let s = ConversionStatus::default();
    assert!(!s.is_running);
    assert_eq!(s.stage, Stage::Idle);
    assert_eq!(s.stage.label(), "Idle");
    assert_eq!(s.progress_current, 0);
    assert_eq!(s.progress_total, 0);
    assert_eq!(s.error, None);
    assert!(!s.success);
}

#[test]
fn title_override_wins() {
    assert_eq!(
        resolve_title(Some("Mine".to_string()), Some("Listed".to_string())),
        Some("Mine".to_string())
    );
    assert_eq!(resolve_title(Some("Mine".to_string()), None), Some("Mine".to_string()));
}

#[test]
fn title_from_database_without_override() {
    assert_eq!(resolve_title(None, Some("Listed".to_string())), Some("Listed".to_string()));
}

#[test]
fn no_title_without_sources() {
    assert_eq!(resolve_title(None, None), None);
}

#[test]
fn header_fields_from_sizing() {
    let s = compute_sizing(2 * PART_BYTES + 100).unwrap();
    let h = assemble_header(&s, 5000, digest_of(4), None, Some("Listed".to_string())).unwrap();
    assert_eq!(h.block_count as u64, s.block_count);
    assert_eq!(h.part_count, 3);
    assert_eq!(h.data_parts_size, 5000 + 2 * 4096 * 0xa290);
    assert_eq!(h.root_digest, digest_of(4));
    assert_eq!(h.title, Some("Listed".to_string()));
}

#[test]
fn header_refuses_oversized_payload() {
    let s = compute_sizing(2 * PART_BYTES).unwrap();
    assert_eq!(assemble_header(&s, u64::MAX, digest_of(1), None, None), Err(SizeError::TooLarge));
    let huge = compute_sizing(u64::MAX).unwrap();
    assert_eq!(assemble_header(&huge, 1, digest_of(1), None, None), Err(SizeError::TooLarge));
}

/// Drives a whole run over `part_count` parts with scripted digests and
/// returns the finished run and its header.
fn full_run(data_size: u64, title: Option<String>) -> (Conversion, iso2god_gui::header::HeaderFields) {
    let mut c = Conversion::start(TrimMode::FromEnd, title);
    c.begin_metadata();
    let sizing = c.image_read(data_size, data_size + 0x10000, 0x10000).unwrap();
    let parts = c.directory_cleared();
    assert_eq!(parts, sizing.part_count);
    for done in 1..=parts {
        c.publish_progress(done);
    }
    let mut chain = c.parts_written();
    let mut step = chain.report_digest(digest_of(parts as u8 - 1));
    while let ChainStep::Link { part_index, .. } = step {
        step = chain.report_digest(digest_of(part_index as u8));
    }
    let header = c.chain_finished(&chain, 1234, Some("Listed".to_string())).unwrap();
    c.header_written();
    (c, header)
}

#[test]
fn three_part_run_end_to_end() {
    let (c, header) = full_run(2 * PART_BYTES + 100, None);
    let s = c.status();
    assert!(!s.is_running);
    assert!(s.success);
    assert_eq!(s.stage, Stage::Complete);
    assert_eq!(s.progress_current, 3);
    assert_eq!(s.progress_total, 3);
    assert_eq!(header.part_count, 3);
    assert_eq!(header.root_digest, digest_of(0));
    assert_eq!(header.title, Some("Listed".to_string()));
}

#[test]
fn three_part_chain_scenario() {
    let mut c = Conversion::start(TrimMode::NoTrim, Some("Mine".to_string()));
    c.begin_metadata();
    let s = c.image_read(0, 0x400 + 2 * PART_BYTES + 1, 0x400).unwrap();
    assert_eq!(s.part_count, 3);
    assert_eq!(c.directory_cleared(), 3);
    let mut chain = c.parts_written();
    assert_eq!(c.status().stage, Stage::CalculatingHashChain);
    assert_eq!(chain.terminus(), 2);
    assert_eq!(
        chain.report_digest(digest_of(20)),
        ChainStep::Link { part_index: 1, digest: digest_of(20) }
    );
    assert_eq!(
        chain.report_digest(digest_of(21)),
        ChainStep::Link { part_index: 0, digest: digest_of(21) }
    );
    assert_eq!(
        chain.report_digest(digest_of(22)),
        ChainStep::Finished { root_digest: digest_of(22) }
    );
    let h = c.chain_finished(&chain, 99, Some("Listed".to_string())).unwrap();
    assert_eq!(h.root_digest, digest_of(22));
    assert_eq!(h.title, Some("Mine".to_string()));
    assert_eq!(c.status().stage, Stage::WritingHeader);
}

#[test]
fn failed_part_write_stops_the_run() {
    let mut c = Conversion::start(TrimMode::FromEnd, None);
    c.begin_metadata();
    c.image_read(4 * PART_BYTES + 1, 0, 0).unwrap();
    assert_eq!(c.directory_cleared(), 5);
    // part 0 finished, part 1 failed
    c.publish_progress(1);
    c.fail("error writing part file".to_string());
    let s = c.status();
    assert!(!s.is_running);
    assert!(!s.success);
    assert_eq!(s.stage, Stage::Error);
    assert_eq!(s.error, Some("error writing part file".to_string()));
    assert!(s.progress_current < 5);
    assert_eq!(s.progress_total, 5);
}

#[test]
fn empty_image_fails_at_metadata() {
    let mut c = Conversion::start(TrimMode::FromEnd, None);
    c.begin_metadata();
    assert_eq!(c.image_read(0, 100, 0), Err(SizeError::EmptyImage));
    assert_eq!(c.status().stage, Stage::Error);
    assert!(!c.status().is_running);
    assert!(c.status().error.is_some());
}

#[test]
fn root_offset_past_end_fails_at_metadata() {
    let mut c = Conversion::start(TrimMode::NoTrim, None);
    c.begin_metadata();
    assert_eq!(c.image_read(50, 100, 101), Err(SizeError::RootOffsetPastEnd));
    assert_eq!(c.status().stage, Stage::Error);
}

#[test]
fn oversized_header_fails_the_run() {
    let mut c = Conversion::start(TrimMode::FromEnd, None);
    c.begin_metadata();
    c.image_read(2 * PART_BYTES, 0, 0).unwrap();
    c.directory_cleared();
    let mut chain = c.parts_written();
    chain.report_digest(digest_of(1));
    chain.report_digest(digest_of(0));
    assert_eq!(c.chain_finished(&chain, u64::MAX, None), Err(SizeError::TooLarge));
    assert_eq!(c.status().stage, Stage::Error);
    assert!(!c.status().is_running);
}

#[test]
fn progress_above_total_is_ignored() {
    let mut c = Conversion::start(TrimMode::FromEnd, None);
    c.begin_metadata();
    c.image_read(PART_BYTES + 1, 0, 0).unwrap();
    c.directory_cleared();
    c.publish_progress(1);
    c.publish_progress(7);
    assert_eq!(c.status().progress_current, 1);
    c.parts_written();
    assert_eq!(c.status().progress_current, 2);
}

#[test]
fn repeated_runs_give_identical_headers() {
    let (_, first) = full_run(3 * PART_BYTES + 17, Some("T".to_string()));
    let (_, second) = full_run(3 * PART_BYTES + 17, Some("T".to_string()));
    assert_eq!(first, second);
}

#[test]
fn blank_title_input_gives_no_override() {
    assert_eq!(title_override_from_input(String::new()), None);
    assert_eq!(title_override_from_input("  \t\n".to_string()), None);
    assert_eq!(title_override_from_input("\u{3000}\u{a0}".to_string()), None);
    assert_eq!(title_override_from_input(" Halo ".to_string()), Some(" Halo ".to_string()));
    assert_eq!(title_override_from_input("x".to_string()), Some("x".to_string()));
}

#[test]
fn white_space_matches_std() {
    for u in 0u32..0x3100 {
        if let Some(c) = char::from_u32(u) {
            assert_eq!(white_space(c), c.is_whitespace(), "{:x}", u);
        }
    }
}

#[test]
fn stage_labels() {
    assert_eq!(Stage::Starting.label(), "Starting...");
    assert_eq!(Stage::ExtractingMetadata.label(), "Extracting ISO metadata...");
    assert_eq!(Stage::ClearingDirectory.label(), "Clearing data directory...");
    assert_eq!(Stage::WritingParts.label(), "Writing parts...");
    assert_eq!(Stage::CalculatingHashChain.label(), "Calculating MHT hash chain...");
    assert_eq!(Stage::WritingHeader.label(), "Writing CON header...");
    assert_eq!(Stage::Complete.label(), "Conversion Complete!");
    assert_eq!(Stage::Error.label(), "Error");
}

#[test]
fn failure_message_and_progress_kept() {
    let mut c = Conversion::start(TrimMode::FromEnd, None);
    c.begin_metadata();
    c.image_read(2 * PART_BYTES, 0, 0).unwrap();
    c.directory_cleared();
    let mut chain = c.parts_written();
    chain.report_digest(digest_of(1));
    chain.report_digest(digest_of(0));
    assert!(c.chain_finished(&chain, u64::MAX, None).is_err());
    assert_eq!(c.status().error, Some(SizeError::TooLarge.message()));
    assert_eq!(
        SizeError::TooLarge.message(),
        "the image is too large for the container format"
    );
    assert_eq!(c.status().progress_current, 2);
    assert_eq!(c.status().progress_total, 2);
}
