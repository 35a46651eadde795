use yawl::dashboard::{
    render_header, render_row, summary, Alignment, Column, Panel, PanelContent, PanelRow,
};
use yawl::markdown::{fit_width, split_chars, strip_ansi, truncate_visible, visible_width};
use yawl::style::UiColor;

#[test]
fn panel_stays_compact_and_centered_for_one_item() {
    let panel = Panel::new(80, 24, 1);
    let rows = [PanelRow { content: "row".into(), selected: true }];
    let frame = panel.render(PanelContent {
        title: "Background terminals",
        summary: "1 running",
        header: "HEADER",
        rows: &rows,
        hint: "Esc close",
        accent: UiColor::white(),
        selection: UiColor::white(),
    });

    assert_eq!(frame.len(), 24);
    assert!(frame.iter().all(|line| visible_width(line) == 80));
    let occupied = frame
        .iter()
        .enumerate()
        .filter(|(_, line)| !strip_ansi(line).trim().is_empty())
        .map(|(index, _)| index)
        .collect::<Vec<_>>();
    assert_eq!(occupied.len(), 9);
    assert!(occupied[0] > 0);
    assert!(occupied[8] < 23);
    assert!(strip_ansi(&frame[occupied[0]]).starts_with("  ╭"));
    let header_index = frame
        .iter()
        .position(|line| strip_ansi(line).contains("HEADER"))
        .expect("the header should be visible");
    let spacer = strip_ansi(&frame[header_index + 1]);
    let spacer = spacer.trim().trim_matches('│');
    assert!(spacer.trim().is_empty());
}

#[test]
fn table_cells_share_header_positions_and_truncate_cleanly() {
    let columns = [
        Column::new("STATUS", 8, Alignment::Left),
        Column::new("TIME", 5, Alignment::Right),
    ];
    let header = strip_ansi(&render_header(&columns, 14));
    let row = strip_ansi(&render_row(
        &columns,
        &["running forever".into(), "2s".into()],
        14,
    ));

    let right_edge = |line: &str, value: &str| {
        let start = line.find(value).expect("fixture value should be visible");
        visible_width(&line[..start]) + visible_width(value)
    };
    assert_eq!(right_edge(&header, "TIME"), right_edge(&row, "2s"));
    assert!(row.contains('…'));
    assert_eq!(visible_width(&row), 14);
}

#[test]
fn summaries_name_what_runs_and_what_is_tracked() {
    assert_eq!(summary(0, 3, "running"), "3 tracked");
    assert_eq!(summary(2, 2, "running"), "2 running");
    assert_eq!(summary(1, 3, "running"), "1 running · 3 tracked");
}

#[test]
fn widths_follow_the_terminal() {
    assert_eq!(visible_width("日本"), 4);
    assert_eq!(visible_width("\u{1b}[1mab\u{1b}[0m"), 2);
    assert_eq!(visible_width("e\u{301}"), 1);
    assert_eq!(fit_width("日本", 3), "日 ");
    assert_eq!(fit_width("ab", 4), "ab  ");
    assert_eq!(split_chars("日本語", 4), ["日本", "語"]);
    assert_eq!(truncate_visible("abcdef", 4), "abc…");
}

#[test]
fn a_panel_has_a_row_at_least() {
    let panel = Panel::new(10, 2, 0);
    assert!(panel.capacity() >= 1);
    assert!(panel.inner_width() >= 1);
}
