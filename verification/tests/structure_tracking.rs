use qtss_worker::structure::{
    combined_anchor_plan, derive_update, expected_next_wave_direction, row_kind, select_latest,
    DetectionRow, MotiveViolation, RowKind, StructState, StructureEvidence,
};

fn row(f: &str, s: &str, t: i64) -> DetectionRow {
    DetectionRow { pattern_family: f.to_string(), subkind: s.to_string(), end_time_secs: t }
}

fn no_evidence() -> StructureEvidence {
    StructureEvidence { motive_violation: None, forming_stale: false, nascent_stale: false }
}

#[test]
fn row_kinds() {
    assert_eq!(row_kind("motive", "x"), Some(RowKind::Motive));
    assert_eq!(row_kind("elliott_early", "impulse_forming_bull"), Some(RowKind::ImpulseForming));
    assert_eq!(row_kind("elliott_early", "triangle"), None);
    assert_eq!(row_kind("harmonic", "abc_forming"), None);
}

#[test]
fn latest_rows_prefer_later_then_earlier_on_ties() {
    let g = vec![
        row("motive", "impulse", 100),
        row("motive", "impulse", 300),
        row("abc", "zigzag", 50),
        row("motive", "impulse", 300),
        row("elliott_early", "impulse_nascent_bull", 10),
    ];
    let l = select_latest(&g);
    assert_eq!(l.motive, Some(1));
    assert_eq!(l.abc, Some(2));
    assert_eq!(l.impulse_nascent, Some(4));
    assert_eq!(l.abc_forming, None);
}

#[test]
fn abc_wins_over_everything() {
    let g = vec![row("motive", "impulse", 100), row("abc", "zigzag", 50)];
    let d = derive_update(&select_latest(&g), &no_evidence()).unwrap();
    assert_eq!(d.row, 1);
    assert_eq!(d.state_str(), "completed");
    assert_eq!(d.wave_str(), "C");
    assert_eq!(d.source_str(), "abc");
}

#[test]
fn motive_invalidation_and_stale_forming() {
    let g = vec![row("motive", "impulse", 100), row("elliott_early", "impulse_forming_bear", 200)];
    let ev = StructureEvidence { motive_violation: Some(MotiveViolation::W4OverlapsW1), ..no_evidence() };
    let d = derive_update(&select_latest(&g), &ev).unwrap();
    assert_eq!(d.state, StructState::Invalidated);
    assert_eq!(d.reason_str(), Some("W4 overlaps W1"));
    let g = vec![row("elliott_early", "impulse_forming_bear", 200)];
    let ev = StructureEvidence { forming_stale: true, ..no_evidence() };
    let d = derive_update(&select_latest(&g), &ev).unwrap();
    assert_eq!(d.state_str(), "completed");
    assert_eq!(d.reason_str(), Some("anchor too stale (forming)"));
}

#[test]
fn nascent_is_a_candidate() {
    let g = vec![row("elliott_early", "impulse_nascent_bull", 5)];
    let d = derive_update(&select_latest(&g), &no_evidence()).unwrap();
    assert_eq!(d.state_str(), "candidate");
    assert_eq!(d.wave_str(), "W3");
    assert_eq!(d.stage_str(), "nascent");
    assert!(derive_update(&select_latest(&vec![row("x", "y", 1)]), &no_evidence()).is_none());
}

#[test]
fn anchor_plans() {
    let p = combined_anchor_plan(6, 3, "B");
    assert_eq!(p.len(), 8);
    assert_eq!(p[5].label, "W5");
    assert!(!p[6].from_motive);
    assert_eq!(p[6].index, 1);
    assert_eq!(p[6].label, "A");
    assert_eq!(p[7].label, "B");
    let p = combined_anchor_plan(0, 4, "C");
    assert_eq!(p.len(), 4);
    assert_eq!(p[0].label, "W5");
    assert_eq!(p[3].label, "C");
    let p = combined_anchor_plan(7, 0, "C");
    assert_eq!(p[6].label, "?");
}

#[test]
fn next_wave_directions() {
    assert_eq!(expected_next_wave_direction(1, "W2"), Some(1));
    assert_eq!(expected_next_wave_direction(-1, "W4"), Some(-1));
    assert_eq!(expected_next_wave_direction(1, "B"), Some(-1));
    assert_eq!(expected_next_wave_direction(-1, "B"), Some(1));
    assert_eq!(expected_next_wave_direction(1, "C"), Some(1));
    assert_eq!(expected_next_wave_direction(1, "W5"), None);
}

#[test]
fn fresh_forming_impulse_tracks_w4() {
    let g = vec![row("elliott_early", "impulse_forming_bull", 200)];
    let d = derive_update(&select_latest(&g), &no_evidence()).unwrap();
    assert_eq!(d.state_str(), "tracking");
    assert_eq!(d.wave_str(), "W4");
    assert_eq!(d.stage_str(), "forming");
    assert_eq!(d.reason_str(), None);
}

#[test]
fn partial_corrections_track_b_nascent_and_c_forming() {
    let g = vec![row("elliott_early", "abc_nascent_bear", 10)];
    let d = derive_update(&select_latest(&g), &no_evidence()).unwrap();
    assert_eq!((d.state_str(), d.wave_str(), d.stage_str()), ("tracking", "B", "nascent"));
    let g = vec![row("elliott_early", "abc_forming_bear", 10)];
    let d = derive_update(&select_latest(&g), &no_evidence()).unwrap();
    assert_eq!((d.state_str(), d.wave_str(), d.stage_str()), ("tracking", "C", "forming"));
}
