use ctl_tab::windows::{is_blank, is_listed_window, is_vscode_bundle, is_white, reorder_vscode_title};

#[test]
fn reorders_two_segments_file_project() {
    // The real VS Code AXTitle is "file — project" (no trailing app name).
    assert_eq!(reorder_vscode_title("boost.json — backend"), "backend — boost.json");
    assert_eq!(
        reorder_vscode_title("App.tsx (Working Tree) (App.tsx) — ctrl-tab"),
        "ctrl-tab — App.tsx (Working Tree) (App.tsx)"
    );
}

#[test]
fn single_segment_unchanged() {
    // No folder open: title is just the file → fallback, unchanged.
    assert_eq!(reorder_vscode_title("Untitled-1"), "Untitled-1");
}

#[test]
fn reorders_three_segments_swaps_first_two() {
    // Defensive: if a trailing segment ever appears, still file<->project only.
    assert_eq!(reorder_vscode_title("a — b — c"), "b — a — c");
}

#[test]
fn no_separator_unchanged() {
    assert_eq!(reorder_vscode_title("PlainTitle"), "PlainTitle");
}

#[test]
fn unsaved_marker_stays_on_file_segment() {
    // The ● dirty marker rides along with the file segment.
    assert_eq!(reorder_vscode_title("● app.tsx — my-project"), "my-project — ● app.tsx");
}

#[test]
fn recognizes_vscode_bundle_ids() {
    assert!(is_vscode_bundle("com.microsoft.VSCode"));
    assert!(is_vscode_bundle("com.microsoft.VSCodeInsiders"));
    assert!(!is_vscode_bundle("com.jetbrains.PhpStorm"));
    assert!(!is_vscode_bundle(""));
}

#[test]
fn reorder_matches_split_swap_join() {
    let titles = [
        "",
        " — ",
        "a — ",
        " — b",
        "x —  — y",
        "a — b — c — d",
        "p — — q",
        "one—two",
        "a - b",
    ];
    for t in titles {
        let mut parts: Vec<&str> = t.split(" — ").collect();
        let expected = if parts.len() >= 2 {
            parts.swap(0, 1);
            parts.join(" — ")
        } else {
            t.to_string()
        };
        assert_eq!(reorder_vscode_title(t), expected, "title {t:?}");
    }
}

#[test]
fn reorder_twice_restores() {
    for t in ["boost.json — backend", "a — b — c", "Untitled-1", "● app.tsx — my-project"] {
        assert_eq!(reorder_vscode_title(&reorder_vscode_title(t)), t);
    }
}

#[test]
fn listed_windows_are_titled_standard_windows() {
    assert!(is_listed_window(Some("AXWindow"), "Inbox"));
    assert!(!is_listed_window(Some("AXWindow"), "  \t"));
    assert!(!is_listed_window(Some("AXWindow"), ""));
    assert!(!is_listed_window(Some("AXSheet"), "Inbox"));
    assert!(!is_listed_window(None, "Inbox"));
    assert!(is_blank("\u{2003}\n"));
    assert!(!is_blank(" x "));
}

#[test]
fn reorder_twice_differs_when_second_segment_ends_in_dash() {
    // The second segment "a —" fuses with the separator placed after it.
    let once = reorder_vscode_title(" — a —");
    assert_eq!(once, "a — — ");
    assert_ne!(reorder_vscode_title(&once), " — a —");
}

#[test]
fn whitespace_matches_unicode_white_space() {
    for v in 0u32..=0x10FFFF {
        if let Some(c) = char::from_u32(v) {
            assert_eq!(is_white(c), c.is_whitespace(), "char {v:#x}");
        }
    }
}
