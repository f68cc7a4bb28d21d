use true_tick::classify::DiagnosticOutcome;
use true_tick::diagnostics::{
    diagnostic_chain_status_text, diagnostic_open_operation_outcome, diagnostic_state_text,
    display_limit_input_decision, DisplayLimitInputDecision,
};
use true_tick::layout::{auto_fit_column_widths, measured_column_width, viewport_column_widths};
use true_tick::surface::TrayStatus;
use true_tick::timing::{OwnershipState, TimingValues};
use true_tick::arith::scale_logical;
use true_tick::decisions::diagnostic_create_failure_result;
use true_tick::diagnostics::{
    diagnostic_auto_fit_once, diagnostic_auto_fit_reason_allows,
    diagnostic_data_snapshot_changed, diagnostic_follow_up_needed,
    diagnostic_grid_refresh_message, diagnostic_hud_field_text,
    diagnostic_loading_summary_is_nonblank, diagnostic_post_redraw_child_targets,
    diagnostic_presentation_message, diagnostic_refresh_is_coalesced,
    diagnostic_summary_is_non_loading, diagnostic_summary_style, diagnostic_transfer_source,
    diagnostic_window_extended_style, diagnostic_window_style, export_format_for_path,
    map_native_action, map_save_dialog_result, search_matches, DiagnosticChildRedrawTarget,
    DiagnosticExportFormat, DiagnosticHudFields, DiagnosticNativeAction, DiagnosticRefreshReason,
    DiagnosticTransferSource, DIAGNOSTIC_LOADING_SUMMARY, DIAGNOSTIC_WINDOW_TITLE,
    LVM_FIRST, LVM_INSERTITEMW, LVM_SETBKCOLOR, LVM_SETITEMTEXTW, LVM_SETTEXTBKCOLOR,
    LVM_SETTEXTCOLOR, SS_ETCHEDHORZ, SS_NOPREFIX, SWP_NOACTIVATE, SWP_NOSENDCHANGING,
    SWP_NOZORDER, WM_APP, WM_COMMAND, WM_DIAGNOSTIC_REFRESH, WM_DPICHANGED, WM_SETREDRAW,
    WM_SETTINGCHANGE, WM_SIZE, WM_SYSCOLORCHANGE, WM_THEMECHANGED, WM_TIMER, WS_CHILD,
    WS_EX_APPWINDOW, WS_EX_TOOLWINDOW, WS_OVERLAPPEDWINDOW, WS_VISIBLE,
};
use true_tick::geometry::{Point, Rect};
use true_tick::layout::{
    diagnostic_layout, diagnostic_layout_guard_allows, diagnostic_layout_stops_on_first_failure,
    diagnostic_min_client_height, diagnostic_toolbar_layout, diagnostic_toolbar_min_width,
    outer_size_from_client, DiagnosticLayoutRect, DIAGNOSTIC_DEFAULT_HEIGHT,
    DIAGNOSTIC_DEFAULT_WIDTH, DIAGNOSTIC_GRID_MIN_HEIGHT, DIAGNOSTIC_HUD_STATE_HEIGHT,
    DIAGNOSTIC_SEPARATOR_HEIGHT, DIAGNOSTIC_SUMMARY_HEIGHT, DIAGNOSTIC_TOOLBAR_HEIGHT,
    DIAGNOSTIC_TOOLBAR_MIN_MESSAGE_WIDTH,
};
use true_tick::surface::{GITHUB_URL, PACKAGE_VERSION};

#[test]
fn clipboard_and_save_dialog_decision_mapping_is_pure() {
    assert_eq!(
        map_native_action(true, 0),
        DiagnosticNativeAction::Completed
    );
    assert_eq!(
        map_native_action(false, 5),
        DiagnosticNativeAction::Failed { raw_error: 5 }
    );
    assert_eq!(
        map_save_dialog_result(1, 0),
        DiagnosticNativeAction::Completed
    );
    assert_eq!(
        map_save_dialog_result(0, 0),
        DiagnosticNativeAction::Cancelled
    );
    assert_eq!(
        map_save_dialog_result(0, 1223),
        DiagnosticNativeAction::Failed { raw_error: 1223 }
    );
}

#[test]
fn export_format_is_csv_by_default_and_tsv_only_for_tsv_extension() {
    assert_eq!(
        export_format_for_path("true-tick-log.csv"),
        DiagnosticExportFormat::Csv
    );
    assert_eq!(
        export_format_for_path("true-tick-log.CSV"),
        DiagnosticExportFormat::Csv
    );
    assert_eq!(
        export_format_for_path("true-tick-log.tsv"),
        DiagnosticExportFormat::Tsv
    );
    assert_eq!(
        export_format_for_path("true-tick-log.TSV"),
        DiagnosticExportFormat::Tsv
    );
    assert_eq!(
        export_format_for_path("true-tick-log"),
        DiagnosticExportFormat::Csv
    );
    assert_eq!(
        export_format_for_path("true-tick-log.txt"),
        DiagnosticExportFormat::Csv
    );
}

#[test]
fn export_format_reads_only_the_last_path_component() {
    assert_eq!(
        export_format_for_path("C:\\logs.tsv\\report"),
        DiagnosticExportFormat::Csv
    );
    assert_eq!(
        export_format_for_path("C:\\exports\\run.TsV"),
        DiagnosticExportFormat::Tsv
    );
    assert_eq!(export_format_for_path(".tsv"), DiagnosticExportFormat::Csv);
    assert_eq!(export_format_for_path("a/.tsv"), DiagnosticExportFormat::Csv);
    assert_eq!(
        export_format_for_path("a.tar.tsv"),
        DiagnosticExportFormat::Tsv
    );
    assert_eq!(DiagnosticExportFormat::Tsv.label(), "TSV");
    assert_eq!(DiagnosticExportFormat::Csv.label(), "CSV");
}

#[test]
fn diagnostic_theme_contract_refreshes_only_presentation_messages() {
    for message in [WM_THEMECHANGED, WM_SYSCOLORCHANGE, WM_SETTINGCHANGE] {
        assert!(diagnostic_presentation_message(message));
    }
    for message in [WM_SIZE, WM_DPICHANGED, WM_TIMER, WM_COMMAND] {
        assert!(!diagnostic_presentation_message(message));
    }
    assert_eq!(LVM_SETBKCOLOR, LVM_FIRST + 1);
    assert_eq!(LVM_SETTEXTCOLOR, LVM_FIRST + 36);
    assert_eq!(LVM_SETTEXTBKCOLOR, LVM_FIRST + 38);
}

#[test]
fn diagnostic_summary_is_a_non_scrolling_read_only_static_contract() {
    let style = diagnostic_summary_style();
    assert_ne!(style & WS_CHILD, 0);
    assert_ne!(style & WS_VISIBLE, 0);
    assert_ne!(style & SS_NOPREFIX, 0);
    assert_eq!(style & (0x0020_0000 | 0x0040 | 0x0004), 0);
    assert_eq!(DIAGNOSTIC_SUMMARY_HEIGHT, 140);
}

#[test]
fn diagnostic_refresh_follow_up_is_bounded_to_one_extra_pass() {
    assert!(diagnostic_follow_up_needed(true, false));
    assert!(!diagnostic_follow_up_needed(true, true));
    assert!(!diagnostic_follow_up_needed(false, false));
}

#[test]
fn diagnostic_create_failure_returns_documented_failure_value() {
    assert_eq!(diagnostic_create_failure_result(), -1);
}

#[test]
fn diagnostic_layout_guards_and_stop_on_first_failure() {
    let good = DiagnosticLayoutRect {
        left: 0,
        top: 0,
        width: 10,
        height: 10,
    };
    let flat = DiagnosticLayoutRect {
        left: 0,
        top: 0,
        width: 0,
        height: 10,
    };
    assert!(diagnostic_layout_guard_allows(good, true));
    assert!(!diagnostic_layout_guard_allows(good, false));
    assert!(!diagnostic_layout_guard_allows(flat, true));
    assert_eq!(
        diagnostic_layout_stops_on_first_failure(&[true, true, true]),
        (3, true)
    );
    assert_eq!(
        diagnostic_layout_stops_on_first_failure(&[true, false, true]),
        (1, false)
    );
    assert_eq!(
        diagnostic_layout_stops_on_first_failure(&[false]),
        (0, false)
    );
    assert_eq!(diagnostic_layout_stops_on_first_failure(&[]), (0, true));
}

#[test]
fn diagnostic_toolbar_layout_is_one_row_and_derived_from_flow() {
    let layout = diagnostic_layout(1_190, 480, 96);
    let toolbar = layout.toolbar;
    let controls = [
        toolbar.display_label,
        toolbar.display_input,
        toolbar.show_all,
        toolbar.category_filter,
        toolbar.search_label,
        toolbar.search_input,
        toolbar.transfer_label,
        toolbar.range_input,
        toolbar.selection_summary,
        toolbar.copy,
        toolbar.export,
        toolbar.export_all,
        toolbar.message,
    ];
    assert!(controls
        .windows(2)
        .all(|pair| pair[0].right() <= pair[1].left));
    assert!(controls
        .iter()
        .all(|control| control.top == toolbar.display_input.top
            && control.height == toolbar.display_input.height));
    assert_eq!(
        toolbar.display_input.left - toolbar.display_label.right(),
        8
    );
    assert_eq!(toolbar.message.width, 140);
    assert_eq!(diagnostic_toolbar_min_width(96), 1_190);
    assert!(toolbar.message.width >= DIAGNOSTIC_TOOLBAR_MIN_MESSAGE_WIDTH);
    let tight = diagnostic_toolbar_layout(400, 0, 36, 96);
    assert_eq!(tight.message.width, DIAGNOSTIC_TOOLBAR_MIN_MESSAGE_WIDTH);
    let tighter = diagnostic_toolbar_layout(0, 0, 36, 96);
    assert_eq!(tighter.message.width, DIAGNOSTIC_TOOLBAR_MIN_MESSAGE_WIDTH);
}

#[test]
fn compact_default_outer_size_keeps_one_row_toolbar_and_grid_usable() {
    assert_eq!(
        (DIAGNOSTIC_DEFAULT_WIDTH, DIAGNOSTIC_DEFAULT_HEIGHT),
        (1_280, 520)
    );
    let frame = Rect {
        left: -8,
        top: -31,
        right: 1_024,
        bottom: 249,
    };
    let minimum = outer_size_from_client(1_190, 240, frame);
    assert_eq!(minimum, Point { x: 1_032, y: 280 });
    assert!(DIAGNOSTIC_DEFAULT_WIDTH >= diagnostic_toolbar_min_width(96));
    assert!(DIAGNOSTIC_DEFAULT_WIDTH >= minimum.x);
    assert!(DIAGNOSTIC_DEFAULT_HEIGHT >= minimum.y);
    let layout = diagnostic_layout(1_280, 480, 96);
    assert!(layout.toolbar.message.width >= DIAGNOSTIC_TOOLBAR_MIN_MESSAGE_WIDTH);
    assert!(layout.list.height >= DIAGNOSTIC_GRID_MIN_HEIGHT);
    assert!(layout.toolbar.display_input.top == layout.toolbar.export.top);
}

#[test]
fn diagnostic_minimum_size_and_dpi_scaling_keep_summary_and_grid_visible() {
    assert_eq!(diagnostic_min_client_height(96), 276);
    assert_eq!(diagnostic_toolbar_min_width(144), 1_785);
    assert_eq!(diagnostic_min_client_height(144), 414);
    let layout = diagnostic_layout(1_600, 414, 144);
    assert_eq!(
        layout.hud_state.height,
        scale_logical(DIAGNOSTIC_HUD_STATE_HEIGHT, 144)
    );
    assert_eq!(
        layout.hud_separator.top,
        scale_logical(DIAGNOSTIC_SUMMARY_HEIGHT, 144)
    );
    assert_eq!(
        layout.list.height,
        scale_logical(DIAGNOSTIC_GRID_MIN_HEIGHT, 144)
    );
    assert!(layout.summary.bottom() <= layout.toolbar.display_input.top);
    assert!(layout.toolbar.display_input.bottom() <= layout.list.top);
    assert_eq!(
        layout.hud_separator.height,
        scale_logical(DIAGNOSTIC_SEPARATOR_HEIGHT, 144)
    );
    assert_eq!(
        layout.toolbar_separator.height,
        scale_logical(DIAGNOSTIC_SEPARATOR_HEIGHT, 144)
    );
}

#[test]
fn minimum_tracking_size_adds_the_native_frame_to_the_client_contract() {
    let frame = Rect {
        left: -8,
        top: -31,
        right: 838,
        bottom: 249,
    };
    assert_eq!(
        outer_size_from_client(830, 240, frame),
        Point { x: 846, y: 280 }
    );
}

#[test]
fn hud_field_formatting_keeps_key_values_and_snapshot_evidence_visible() {
    let text = diagnostic_hud_field_text(DiagnosticHudFields {
        effective: "0.4966 ms (4966 HNS)",
        ownership: "True\u{2122} Tick",
        power: "AC",
        startup: "On",
        running_duration: "4m 12s",
        next_action: "None",
        history: "retained_events=12 retention_cap=512 truncated=true",
        visible: 4,
        retained: 12,
        chain_status: "OK",
        slot: "A",
        root: "C:\\Portable\\TrueTick",
    });
    for field in [
        "Effective: 0.4966 ms (4966 HNS)",
        "Ownership: True\u{2122} Tick",
        "Power: AC",
        "Startup: On",
        "Running: 4m 12s",
        "Next: None",
        "History: retained_events=12 retention_cap=512 truncated=true",
        "Showing 4 of 12 retained rows",
        "Chain: OK",
        "Slot: A",
        "Root: C:\\Portable\\TrueTick",
        "True\u{2122} Tick v",
        "by kaiiuen",
        GITHUB_URL,
    ] {
        assert!(text.contains(field), "missing HUD field: {field}");
    }
    assert!(text.contains(PACKAGE_VERSION));
    assert_eq!(text.lines().count(), 5);
}

#[test]
fn hud_state_and_separators_are_native_control_contracts() {
    assert_ne!(diagnostic_summary_style() & SS_NOPREFIX, 0);
    assert_ne!(WS_CHILD | WS_VISIBLE | SS_ETCHEDHORZ, 0);
    assert_eq!(DIAGNOSTIC_HUD_STATE_HEIGHT, 32);
    assert_eq!(DIAGNOSTIC_SEPARATOR_HEIGHT, 2);
}

#[test]
fn transfer_source_precedence_is_shared_by_ctrl_c_copy_and_export() {
    for action in ["ctrl-c", "copy", "export"] {
        assert_eq!(
            diagnostic_transfer_source(3, 8),
            Some(DiagnosticTransferSource::GridSelection),
            "grid selection must win for {action}"
        );
        assert_eq!(
            diagnostic_transfer_source(0, 8),
            Some(DiagnosticTransferSource::RangeSelection),
            "range fallback must apply for {action}"
        );
    }
    assert_eq!(diagnostic_transfer_source(0, 0), None);
    assert_eq!(DiagnosticTransferSource::GridSelection.label(), "grid-selection");
    assert_eq!(
        DiagnosticTransferSource::RangeSelection.label(),
        "range-selection"
    );
}

#[test]
fn diagnostic_grid_message_contract_uses_correct_native_messages_and_bounded_counts() {
    assert_eq!(LVM_INSERTITEMW, LVM_FIRST + 77);
    assert_eq!(LVM_SETITEMTEXTW, LVM_FIRST + 116);
    assert_eq!(
        diagnostic_grid_refresh_message(12, 11, 11, 1, 2),
        "snapshot_rows=12 inserted_rows=11 item_count=11 insert_failures=1 set_text_failures=2"
    );
    assert_eq!(
        diagnostic_grid_refresh_message(0, 0, -1, 0, 0),
        "snapshot_rows=0 inserted_rows=0 item_count=-1 insert_failures=0 set_text_failures=0"
    );
}

#[test]
fn diagnostic_window_contract_is_normal_and_taskbar_visible() {
    assert_eq!(DIAGNOSTIC_WINDOW_TITLE, "True™ Tick Status and Diagnostics");
    assert_eq!(
        diagnostic_window_style() & WS_OVERLAPPEDWINDOW,
        WS_OVERLAPPEDWINDOW
    );
    assert_eq!(diagnostic_window_style() & WS_CHILD, 0);
    assert_eq!(diagnostic_window_style() & WS_VISIBLE, 0);
    assert_ne!(diagnostic_window_extended_style() & WS_EX_APPWINDOW, 0);
    assert_eq!(diagnostic_window_extended_style() & WS_EX_TOOLWINDOW, 0);
    assert_eq!(diagnostic_toolbar_min_width(96), 1_190);
    assert_eq!(diagnostic_min_client_height(96), 276);
    assert_eq!(DIAGNOSTIC_TOOLBAR_HEIGHT, 36);
}

#[test]
fn diagnostic_initialization_phase_renders_real_data_before_first_show() {
    assert!(diagnostic_loading_summary_is_nonblank());
    assert!(!diagnostic_summary_is_non_loading(DIAGNOSTIC_LOADING_SUMMARY));
    assert!(diagnostic_summary_is_non_loading(
        "Effective: Unknown  |  History: retained_events=4"
    ));
    assert_eq!(diagnostic_window_style() & WS_VISIBLE, 0);
    assert_eq!(WM_DIAGNOSTIC_REFRESH, WM_APP + 2);
}

#[test]
fn diagnostic_auto_fit_is_one_time_per_snapshot_generation() {
    assert!(diagnostic_auto_fit_once(false, false, 0, None));
    assert!(diagnostic_auto_fit_once(true, true, 3, None));
    assert!(!diagnostic_auto_fit_once(true, true, 3, Some(3)));
    assert!(!diagnostic_auto_fit_once(true, false, 4, Some(3)));
}

#[test]
fn diagnostic_auto_fit_is_not_allowed_for_resize_or_scroll() {
    assert!(diagnostic_auto_fit_reason_allows(
        DiagnosticRefreshReason::Initial
    ));
    assert!(diagnostic_auto_fit_reason_allows(
        DiagnosticRefreshReason::Data
    ));
    for reason in [
        DiagnosticRefreshReason::View,
        DiagnosticRefreshReason::Resize,
        DiagnosticRefreshReason::Scroll,
    ] {
        assert!(!diagnostic_auto_fit_reason_allows(reason));
    }
}

#[test]
fn diagnostic_refresh_requests_coalesce_while_pending_or_running() {
    assert!(diagnostic_refresh_is_coalesced(true, false));
    assert!(diagnostic_refresh_is_coalesced(false, true));
    assert!(!diagnostic_refresh_is_coalesced(false, false));
    assert_eq!(WM_SETREDRAW, 0x000B);
    assert_ne!(SWP_NOZORDER | SWP_NOACTIVATE | SWP_NOSENDCHANGING, 0);
}

#[test]
fn diagnostic_post_redraw_invalidation_covers_every_child() {
    assert_eq!(
        diagnostic_post_redraw_child_targets(),
        [
            DiagnosticChildRedrawTarget::HudState,
            DiagnosticChildRedrawTarget::Summary,
            DiagnosticChildRedrawTarget::HudSeparator,
            DiagnosticChildRedrawTarget::ToolbarSeparator,
            DiagnosticChildRedrawTarget::DisplayLabel,
            DiagnosticChildRedrawTarget::DisplayInput,
            DiagnosticChildRedrawTarget::ShowAllButton,
            DiagnosticChildRedrawTarget::CategoryFilter,
            DiagnosticChildRedrawTarget::SearchLabel,
            DiagnosticChildRedrawTarget::SearchInput,
            DiagnosticChildRedrawTarget::ToolbarLabel,
            DiagnosticChildRedrawTarget::SelectionSummary,
            DiagnosticChildRedrawTarget::RangeInput,
            DiagnosticChildRedrawTarget::CopyButton,
            DiagnosticChildRedrawTarget::ExportButton,
            DiagnosticChildRedrawTarget::ExportAllButton,
            DiagnosticChildRedrawTarget::Message,
            DiagnosticChildRedrawTarget::List,
        ]
    );
}

#[test]
fn snapshot_change_compares_length_and_last_sequence() {
    assert!(!diagnostic_data_snapshot_changed(None, None));
    assert!(diagnostic_data_snapshot_changed(None, Some((1, 7))));
    assert!(diagnostic_data_snapshot_changed(Some((1, 7)), Some((1, 8))));
    assert!(!diagnostic_data_snapshot_changed(Some((2, 9)), Some((2, 9))));
}

#[test]
fn search_matches_treats_empty_and_blank_queries_as_match_all() {
    assert!(search_matches("", "timer.tick", "result=ok"));
    assert!(search_matches("   ", "timer.tick", "result=ok"));
}

#[test]
fn search_matches_event_name_case_insensitively() {
    assert!(search_matches("TICK", "timer.tick", "result=ok"));
    assert!(search_matches("timer.T", "Timer.Tick", ""));
}

#[test]
fn search_matches_details_case_insensitively() {
    assert!(search_matches("RAW_STATUS", "native.error", "raw_status=5"));
    assert!(search_matches("hwnd", "diag", "HWND_VALID=1"));
}

#[test]
fn search_matches_rejects_text_absent_from_name_and_details() {
    assert!(!search_matches("clipboard", "timer.tick", "result=ok"));
}

#[test]
fn search_trims_the_query_before_matching() {
    assert!(search_matches("  tick\t", "timer.tick", ""));
    assert!(!search_matches(" timer tick ", "timer.tick", ""));
}

#[test]
fn grid_columns_auto_fit_within_bounds_and_details_take_the_rest() {
    let measured = [10, 500, 70, 70, 70, 70, 70, 70, 70, 100, 300];
    let widths = auto_fit_column_widths(&measured, 1_500, 96);
    assert_eq!(widths, vec![36, 120, 70, 70, 70, 70, 70, 70, 70, 100, 754]);
    let narrow = auto_fit_column_widths(&measured, 100, 96);
    assert_eq!(narrow[10], 300);
    let wide_details = auto_fit_column_widths(
        &[36, 52, 64, 64, 52, 64, 60, 68, 64, 84, 2_000],
        0,
        96,
    );
    assert_eq!(wide_details[10], 640);
}

#[test]
fn grid_columns_fit_the_viewport_after_a_resize() {
    let current = [54, 70, 78, 78, 70, 86, 82, 90, 86, 160, 999];
    let widths = viewport_column_widths(&current, 1_200, 96);
    assert_eq!(widths, vec![54, 70, 78, 78, 70, 86, 82, 90, 86, 160, 346]);
    assert_eq!(viewport_column_widths(&current, 300, 96)[10], 240);
    assert_eq!(viewport_column_widths(&current, 300, 144)[0], 54);
    assert_eq!(viewport_column_widths(&[10; 11], 300, 144)[0], 54);
    assert_eq!(viewport_column_widths(&[500; 11], 300, 144)[0], 126);
    assert_eq!(measured_column_width(-5, 40), 40);
    assert_eq!(measured_column_width(90, 40), 90);
}

#[test]
fn state_chain_and_open_outcome_texts() {
    assert_eq!(
        diagnostic_state_text(
            TrayStatus::Stopping,
            TimingValues {
                handoff_pending: true,
                ..TimingValues::default()
            },
            OwnershipState::Released,
            None,
            None,
            0,
        ),
        "Stopping, handoff"
    );
    assert_eq!(diagnostic_chain_status_text(None), "Verified (SHA-256)");
    assert_eq!(diagnostic_chain_status_text(Some(12)), "TAMPER/ERROR at row 12");
    assert_eq!(
        diagnostic_open_operation_outcome(true),
        DiagnosticOutcome::Completed
    );
    assert_eq!(
        diagnostic_open_operation_outcome(false),
        DiagnosticOutcome::Failed
    );
}

#[test]
fn display_limit_decision_keeps_blank_text_and_follows_the_parsed_count() {
    assert_eq!(
        display_limit_input_decision("", None),
        DisplayLimitInputDecision::PreserveEmpty
    );
    assert_eq!(
        display_limit_input_decision("   ", None),
        DisplayLimitInputDecision::PreserveEmpty
    );
    assert_eq!(
        display_limit_input_decision("\t\r\n", Some(5)),
        DisplayLimitInputDecision::PreserveEmpty
    );
    assert_eq!(
        display_limit_input_decision("abc", None),
        DisplayLimitInputDecision::Invalid
    );
    assert_eq!(
        display_limit_input_decision("0", None),
        DisplayLimitInputDecision::Invalid
    );
    assert_eq!(
        display_limit_input_decision("250", Some(250)),
        DisplayLimitInputDecision::Apply(250)
    );
    assert_eq!(
        display_limit_input_decision(" 200 ", Some(200)),
        DisplayLimitInputDecision::Apply(200)
    );
}

#[test]
fn export_format_reads_the_file_name_past_trailing_separators_dots_and_drives() {
    assert_eq!(export_format_for_path("x.tsv/"), DiagnosticExportFormat::Tsv);
    assert_eq!(export_format_for_path("x.tsv\\\\"), DiagnosticExportFormat::Tsv);
    assert_eq!(export_format_for_path("x.tsv/."), DiagnosticExportFormat::Tsv);
    assert_eq!(export_format_for_path("./x.tsv"), DiagnosticExportFormat::Tsv);
    assert_eq!(export_format_for_path("C:x.tsv"), DiagnosticExportFormat::Tsv);
    assert_eq!(export_format_for_path("C:.tsv"), DiagnosticExportFormat::Csv);
    assert_eq!(export_format_for_path("dir.tsv/.."), DiagnosticExportFormat::Csv);
    assert_eq!(export_format_for_path("run."), DiagnosticExportFormat::Csv);
    assert_eq!(export_format_for_path("\\"), DiagnosticExportFormat::Csv);
    assert_eq!(export_format_for_path(""), DiagnosticExportFormat::Csv);
}

#[test]
fn layout_stacks_bands_and_toolbar_runs_left_to_right_at_150_percent() {
    let s = |v: i32| scale_logical(v, 144);
    let layout = diagnostic_layout(900, 700, 144);
    assert!(layout.hud_separator.top <= s(140));
    assert_eq!(layout.toolbar_separator.top, layout.hud_separator.top + s(2) + s(36));
    assert_eq!(layout.list.top, layout.toolbar_separator.top + s(2));
    assert_eq!(layout.list.width, 900);
    assert_eq!(layout.list.top + layout.list.height, 700);
    assert!(layout.list.height >= s(96));
    let toolbar = diagnostic_toolbar_layout(900, 10, 40, 144);
    let h = s(24).min(40);
    assert_eq!(toolbar.display_label.left, s(8));
    assert_eq!(toolbar.display_input.left, s(8) + s(64) + s(8));
    assert_eq!(toolbar.show_all.left, s(8) + s(64) + s(8) + s(52) + s(8));
    assert_eq!(toolbar.display_input.width, s(52));
    assert_eq!(toolbar.copy.top, 10 + (40 - h) / 2);
    assert_eq!(toolbar.message.height, h);
    assert_eq!(
        toolbar.message.width,
        (900 - toolbar.message.left - s(8)).max(s(140))
    );
}

#[test]
fn export_format_reads_share_device_and_verbatim_prefixes_as_windows_paths_do() {
    assert_eq!(export_format_for_path("\\\\server\\share.tsv"), DiagnosticExportFormat::Csv);
    assert_eq!(export_format_for_path("//server/share.tsv"), DiagnosticExportFormat::Csv);
    assert_eq!(
        export_format_for_path("\\\\server\\share\\log.tsv"),
        DiagnosticExportFormat::Tsv
    );
    assert_eq!(export_format_for_path("\\\\server.tsv"), DiagnosticExportFormat::Tsv);
    assert_eq!(export_format_for_path("\\\\.\\pipe.tsv"), DiagnosticExportFormat::Csv);
    assert_eq!(export_format_for_path("\\\\.\\pipe\\x.tsv"), DiagnosticExportFormat::Tsv);
    assert_eq!(export_format_for_path("\\\\?\\C:\\x.tsv"), DiagnosticExportFormat::Tsv);
    assert_eq!(export_format_for_path("\\\\?\\x.tsv"), DiagnosticExportFormat::Csv);
    assert_eq!(export_format_for_path("\\\\?\\C:\\x.tsv\\."), DiagnosticExportFormat::Csv);
    assert_eq!(export_format_for_path("\\\\?\\C:\\a/b.tsv"), DiagnosticExportFormat::Tsv);
    assert_eq!(
        export_format_for_path("\\\\?\\UNC\\server\\share.tsv"),
        DiagnosticExportFormat::Csv
    );
    assert_eq!(
        export_format_for_path("\\\\?\\UNC\\server\\share\\x.TSV"),
        DiagnosticExportFormat::Tsv
    );
}
