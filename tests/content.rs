use fake_productivity::advisory::{contains_utf, lang_status, lang_status_lowered, unicode_report, LangStatus};
use fake_productivity::generator::{
    get_timestamp, matrix_category, normal_category, normal_interval_ms, select_normal_categories,
    tick, tick_delay_ms, MatrixCategory, NormalCategory, TickOutput,
};
use fake_productivity::logs::{
    ai_log_line, generate_database_log, generate_hash, generate_processing_log,
    generate_security_log, network_log_line, processing_log_line, progress_bar_line,
    system_log_line,
};
use fake_productivity::matrix::{
    generate_matrix_bar, generate_matrix_code, generate_matrix_hash, generate_matrix_random,
    matrix_neural_line, matrix_system_line,
};
use fake_productivity::startup::{daemon_notice, normal_header, Args};
use fake_productivity::text::{decimal_string, Color, Span, Style};
use rand::rngs::StdRng;
use rand::{Rng, SeedableRng};

fn text(line: &[Span]) -> String {
    line.iter().map(|s| s.text.as_str()).collect()
}

#[test]
fn normal_interval_is_exact() {
    assert_eq!(normal_interval_ms(false), 2000);
    assert_eq!(normal_interval_ms(true), 200);
    let mut rng = StdRng::seed_from_u64(1);
    assert_eq!(tick_delay_ms(&mut rng, false, false), 2000);
    assert_eq!(tick_delay_ms(&mut rng, false, true), 200);
}

#[test]
fn matrix_delay_is_drawn_in_range() {
    let mut rng = StdRng::seed_from_u64(2);
    let mut seen = std::collections::BTreeSet::new();
    for _ in 0..500 {
        let d = tick_delay_ms(&mut rng, true, false);
        assert!((50..300).contains(&d));
        seen.insert(d);
    }
    assert!(seen.len() > 1);
}

#[test]
fn category_tables() {
    let expected = [
        NormalCategory::System,
        NormalCategory::System,
        NormalCategory::System,
        NormalCategory::Database,
        NormalCategory::Database,
        NormalCategory::Network,
        NormalCategory::Network,
        NormalCategory::Ai,
        NormalCategory::Security,
        NormalCategory::Processing,
    ];
    for (d, c) in expected.iter().enumerate() {
        assert_eq!(normal_category(d as u64), *c);
    }
    let m: Vec<MatrixCategory> = (0..15).map(matrix_category).collect();
    assert_eq!(m.iter().filter(|c| **c == MatrixCategory::Code).count(), 4);
    assert_eq!(m.iter().filter(|c| **c == MatrixCategory::System).count(), 3);
    assert_eq!(m.iter().filter(|c| **c == MatrixCategory::Data).count(), 3);
    assert_eq!(m.iter().filter(|c| **c == MatrixCategory::Neural).count(), 3);
    assert_eq!(m.iter().filter(|c| **c == MatrixCategory::Random).count(), 2);
}

fn seeded_categories(seed: u64) -> Vec<NormalCategory> {
    let mut rng = StdRng::seed_from_u64(seed);
    let draws: Vec<u64> = (0..10).map(|_| rng.gen_range(0..10)).collect();
    select_normal_categories(&draws)
}

#[test]
fn seeded_category_sequence_is_reproducible() {
    let a = seeded_categories(42);
    let b = seeded_categories(42);
    assert_eq!(a.len(), 10);
    assert_eq!(a, b);
    let draws: Vec<u64> = vec![0, 3, 5, 7, 8, 9, 2, 4, 6, 1];
    assert_eq!(
        select_normal_categories(&draws),
        vec![
            NormalCategory::System,
            NormalCategory::Database,
            NormalCategory::Network,
            NormalCategory::Ai,
            NormalCategory::Security,
            NormalCategory::Processing,
            NormalCategory::System,
            NormalCategory::Database,
            NormalCategory::Network,
            NormalCategory::System,
        ]
    );
}

#[test]
fn tick_stops_after_exit() {
    let mut rng = StdRng::seed_from_u64(3);
    assert_eq!(tick(&mut rng, true, false), None);
    assert_eq!(tick(&mut rng, true, true), None);
    match tick(&mut rng, false, true) {
        Some(TickOutput::Matrix(_, lines)) => assert!(!lines.is_empty()),
        other => panic!("expected a matrix tick, got {:?}", other),
    }
    match tick(&mut rng, false, false) {
        Some(TickOutput::Normal(_, lines)) => {
            assert!(!lines.is_empty());
            assert!(text(&lines[0]).starts_with('['));
        }
        other => panic!("expected a normal tick, got {:?}", other),
    }
}

#[test]
fn decimal_numerals() {
    assert_eq!(decimal_string(0), "0");
    assert_eq!(decimal_string(7), "7");
    assert_eq!(decimal_string(10), "10");
    assert_eq!(decimal_string(9999), "9999");
    assert_eq!(decimal_string(u64::MAX), u64::MAX.to_string());
}

#[test]
fn system_line_text_and_styles() {
    let line = system_log_line("2024-01-02 03:04:05.678", 0, 5, 42);
    assert_eq!(
        text(&line),
        "[2024-01-02 03:04:05.678] SYS CPU_CORE_MANAGER [ID:42] - CPU affinity updated"
    );
    assert_eq!(line[3].style, Style { color: Color::Yellow, bold: true, dimmed: false, blink: false });
    assert_eq!(line[1].style, Style { color: Color::Default, bold: false, dimmed: true, blink: false });
}

#[test]
fn network_line_text() {
    let line = network_log_line("T", 5, 8080, 4, 3, 2048);
    assert_eq!(text(&line), "[T] NET 8.8.8.8:8080 SSH 100 CONTINUE - 2048 bytes");
}

#[test]
fn ai_accuracy_shows_whole_percent() {
    let line = ai_log_line("T", 2, 2, 9312);
    assert_eq!(text(&line), "[T] AI ML_PREDICTOR - Model convergence achieved (Accuracy: 93%)");
    let line = ai_log_line("T", 0, 0, 8500);
    assert!(text(&line).ends_with("(Accuracy: 85%)"));
}

#[test]
fn processing_counts_done_items() {
    let line = processing_log_line("T", 0, 0, 33, 1000);
    assert_eq!(
        text(&line),
        "[T] PROC DATA_PIPELINE - Processing quantum entanglement calculations [330/1000] (33%)"
    );
    let line = processing_log_line("T", 1, 1, 1, 999998);
    assert!(text(&line).contains("[10000/999998] (1%)"));
}

#[test]
fn progress_bar_cells() {
    let bar = progress_bar_line(33);
    assert_eq!(text(&bar), "    └─ [██████░░░░░░░░░░░░░░]");
    assert_eq!(bar.len(), 22);
    assert_eq!(text(&progress_bar_line(0)), "    └─ [░░░░░░░░░░░░░░░░░░░░]");
    assert_eq!(text(&progress_bar_line(100)), "    └─ [████████████████████]");
}

#[test]
fn matrix_bar_cells() {
    let b = generate_matrix_bar(50, 20);
    assert_eq!(b.text, "██████████░░░░░░░░░░");
    assert_eq!(b.style.color, Color::Green);
    assert_eq!(generate_matrix_bar(0, 4).text, "░░░░");
    assert_eq!(generate_matrix_bar(99, 20).text.chars().filter(|c| *c == '█').count(), 19);
    assert_eq!(generate_matrix_bar(10, 0).text, "");
}

#[test]
fn matrix_lines_text() {
    assert_eq!(text(&matrix_system_line(1, 1, true)), "MATRIX.SYS.PROCESS 0xDEADBEEF >> ACTIVE");
    let breach = matrix_system_line(8, 7, false);
    assert_eq!(text(&breach), "ARCHITECT.CORE.DESIGN 0xB00B1E5 >> BREACH");
    assert!(breach[4].style.blink);
    assert_eq!(
        text(&matrix_neural_line(0, 1234, 50)),
        "NEURAL_NODE_1234:: ██████████░░░░░░░░░░ [50%]"
    );
}

#[test]
fn hashes_are_hex_of_the_right_length() {
    let mut rng = StdRng::seed_from_u64(4);
    let h = generate_hash(&mut rng);
    assert_eq!(h.chars().count(), 64);
    assert!(h.chars().all(|c| "0123456789abcdef".contains(c)));
    assert!(h.chars().collect::<std::collections::BTreeSet<_>>().len() > 1);
    let m = generate_matrix_hash(&mut rng, 8);
    assert_eq!(m.chars().count(), 8);
    assert!(m.chars().all(|c| "0123456789ABCDEF".contains(c)));
    assert_eq!(generate_matrix_hash(&mut rng, 0), "");
}

#[test]
fn generated_lines_have_their_shapes() {
    let mut rng = StdRng::seed_from_u64(5);
    for _ in 0..50 {
        let db = generate_database_log(&mut rng, "T");
        assert_eq!(db.len(), 2);
        assert!(text(&db[0]).starts_with("[T] DB QUERY_ENGINE - "));
        assert!(text(&db[1]).starts_with("    └─ "));
        let sec = generate_security_log(&mut rng, "T");
        assert_eq!(sec.len(), 2);
        assert_eq!(text(&sec[1]).chars().count(), "    └─ Hash: ".chars().count() + 64);
        let p = generate_processing_log(&mut rng, "T");
        assert!(p.len() == 1 || p.len() == 2);
        let code = generate_matrix_code(&mut rng);
        let n = text(&code[0]).chars().count();
        assert!((20..80).contains(&n));
        let r = generate_matrix_random(&mut rng);
        assert_eq!(r.len(), 1);
        let t = text(&r[0]);
        if !r[0][0].style.blink {
            let bytes: Vec<&str> = t.split(' ').collect();
            assert!((30..100).contains(&bytes.len()));
            assert!(bytes.iter().all(|b| b.len() == 2 && u8::from_str_radix(b, 16).is_ok()));
            assert_eq!(t.to_uppercase(), t);
        }
    }
}

#[test]
fn timestamp_has_the_expected_layout() {
    let t = get_timestamp();
    let b = t.as_bytes();
    assert_eq!(t.len(), 23);
    assert_eq!(b[4], b'-');
    assert_eq!(b[7], b'-');
    assert_eq!(b[10], b' ');
    assert_eq!(b[13], b':');
    assert_eq!(b[16], b':');
    assert_eq!(b[19], b'.');
}

#[test]
fn lang_detection() {
    assert!(contains_utf("en_us.utf-8"));
    assert!(!contains_utf("EN_US.UTF-8"));
    assert!(!contains_utf("ut"));
    assert!(!contains_utf(""));
    assert_eq!(lang_status(None), LangStatus::Unset);
    assert_eq!(lang_status(Some("en_US.UTF-8")), LangStatus::Utf8);
    assert_eq!(lang_status(Some("C")), LangStatus::NotUtf8);
    assert_eq!(lang_status(Some("")), LangStatus::NotUtf8);
    assert_eq!(lang_status_lowered(Some("EN_US.UTF-8")), LangStatus::NotUtf8);
    assert_eq!(lang_status_lowered(Some("en_us.utf8")), LangStatus::Utf8);
}

#[test]
fn unicode_report_blocks() {
    let base = unicode_report(Some("en_US.UTF-8"), None);
    assert_eq!(base.len(), 15);
    let unset = unicode_report(None, None);
    assert_eq!(unset.len(), 17);
    assert_eq!(text(&unset[3]), "⚠️  WARNING: LANG environment variable not set");
    let wrong = unicode_report(Some("C"), Some("Ubuntu"));
    assert_eq!(wrong.len(), 20);
    assert_eq!(text(&wrong[4]), "   Current LANG: C");
    assert_eq!(text(&wrong[6]), "🐧 WSL Environment Detected: Ubuntu");
}

#[test]
fn startup_banners() {
    assert_eq!(daemon_notice(Args { matrix: false, quick: false, daemon: false }).len(), 0);
    let d = daemon_notice(Args { matrix: false, quick: false, daemon: true });
    assert_eq!(text(&d[0]), "🔧 Starting in daemon mode...");
    assert_eq!(normal_header(false).len(), 4);
    assert_eq!(normal_header(true).len(), 6);
}
