use df_texture_helper::graphics::Graphics;

#[test]
fn read_brackets_keeps_fields_between_brackets() {
    let commented_line = " ignored pre-text \t \t[CREATURE:DWARF] ignored comment text ".to_string();
    let line_vec = Graphics::read_brackets(&commented_line);
    assert_eq!("CREATURE", line_vec[0]);
    assert_eq!("DWARF", line_vec[1]);
    assert_eq!(2, line_vec.len());
}

#[test]
fn read_brackets_without_brackets_is_empty() {
    let empty_line = " Lorem ipsum dolor".to_string();
    assert!(Graphics::read_brackets(&empty_line).is_empty());
}
