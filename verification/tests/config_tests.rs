use gnome_shot::config::{render_save_dir, save_dir_candidates, screenshot_filename};

#[test]
fn finds_every_save_dir_line_in_order() {
    let content = b"# comment\nsave_dir=/home/user/Pictures\nother=1\nsave_dir= /alt/dir \n".to_vec();
    let found = save_dir_candidates(&content);
    assert_eq!(found.len(), 2);
    assert_eq!(found[0], b"/home/user/Pictures".to_vec());
    assert_eq!(found[1], b"/alt/dir".to_vec());
}

#[test]
fn final_line_without_newline_counts() {
    let content = b"save_dir=/tail/dir".to_vec();
    let found = save_dir_candidates(&content);
    assert_eq!(found.len(), 1);
    assert_eq!(found[0], b"/tail/dir".to_vec());
}

#[test]
fn carriage_returns_are_trimmed() {
    let content = b"save_dir=/crlf/dir\r\n".to_vec();
    let found = save_dir_candidates(&content);
    assert_eq!(found.len(), 1);
    assert_eq!(found[0], b"/crlf/dir".to_vec());
}

#[test]
fn unrelated_content_yields_nothing() {
    assert_eq!(save_dir_candidates(&b"".to_vec()).len(), 0);
    assert_eq!(save_dir_candidates(&b"\n\n".to_vec()).len(), 0);
    assert_eq!(save_dir_candidates(&b"save_dir\n=x\nsavedir=/y\n".to_vec()).len(), 0);
}

#[test]
fn empty_value_is_kept_as_empty_candidate() {
    let found = save_dir_candidates(&b"save_dir=   \n".to_vec());
    assert_eq!(found.len(), 1);
    assert_eq!(found[0], Vec::<u8>::new());
}

#[test]
fn rendered_config_line_round_trips() {
    let rendered = render_save_dir(&b"/home/user/Shots".to_vec());
    assert_eq!(rendered, b"save_dir=/home/user/Shots\n".to_vec());
    let found = save_dir_candidates(&rendered);
    assert_eq!(found.len(), 1);
    assert_eq!(found[0], b"/home/user/Shots".to_vec());
}

#[test]
fn filename_is_zero_padded_timestamp() {
    let name = screenshot_filename(2024, 3, 7, 9, 5, 59);
    assert_eq!(name, b"screenshot-20240307-090559.png".to_vec());
    let eve = screenshot_filename(1999, 12, 31, 23, 59, 59);
    assert_eq!(eve, b"screenshot-19991231-235959.png".to_vec());
    let small = screenshot_filename(1, 1, 1, 0, 0, 0);
    assert_eq!(small, b"screenshot-00010101-000000.png".to_vec());
}
