use rose_ui::collider_outline::{append_outline, collider_line_index};

#[test]
fn line_index_wraps() {
    assert_eq!(collider_line_index(0, 8), 0);
    assert_eq!(collider_line_index(13, 8), 5);
    assert_eq!(collider_line_index(u32::MAX, 1), 0);
}

#[test]
fn outline_appends_edges_and_separators() {
    let vertices = vec![10, 11, 12, 13];
    let edges = vec![[0u32, 1], [1, 2], [3, 0]];
    let mut lines = vec![99];
    append_outline(&mut lines, &vertices, &edges, -1);
    assert_eq!(lines, vec![99, 10, 11, -1, 11, 12, -1, 13, 10, -1]);
    append_outline(&mut lines, &vertices, &vec![], -1);
    assert_eq!(lines.len(), 10);
}
