use isometric::font::Glyph;

#[test]
fn glyph_from_line() {
    let glyph = Glyph::from_line("7,1,-2,+3,4,5,-6,70");
    assert_eq!(
        glyph,
        Glyph { character: '7', x: 1, y: -2, width: 3, height: 4, xoffset: 5, yoffset: -6, xadvance: 70 }
    );
}

#[test]
fn glyph_line_with_extra_columns() {
    let glyph = Glyph::try_from_line("0,0,0,0,0,0,0,0,anything else");
    assert_eq!(glyph.map(|g| g.character), Some('0'));
}

#[test]
fn glyph_line_refusals() {
    assert_eq!(Glyph::try_from_line(""), None);
    assert_eq!(Glyph::try_from_line("a,1,2,3,4,5,6,7"), None);
    assert_eq!(Glyph::try_from_line("12,1,2,3,4,5,6,7"), None);
    assert_eq!(Glyph::try_from_line("+,1,2,3,4,5,6,7"), None);
    assert_eq!(Glyph::try_from_line("1,1,2,3,4,5,6"), None);
    assert_eq!(Glyph::try_from_line("1,1,2,3,4,5,6,"), None);
    assert_eq!(Glyph::try_from_line("1,1,2,3,4,5,6,-"), None);
    assert_eq!(Glyph::try_from_line("1,1,2,3,4,5,6,1x"), None);
    assert_eq!(Glyph::try_from_line("1,1,2,3,4,5,6, 1"), None);
}

#[test]
fn glyph_values_at_the_ends_of_i32() {
    let glyph = Glyph::try_from_line("3,2147483647,-2147483648,0,0,0,0,0").unwrap();
    assert_eq!(glyph.x, i32::MAX);
    assert_eq!(glyph.y, i32::MIN);
    assert_eq!(Glyph::try_from_line("3,2147483648,0,0,0,0,0,0"), None);
    assert_eq!(Glyph::try_from_line("3,-2147483649,0,0,0,0,0,0"), None);
    assert_eq!(Glyph::try_from_line("3,99999999999999999999,0,0,0,0,0,0"), None);
}

#[test]
fn glyph_table_from_contents() {
    let table = Glyph::from_csv_contents("1,10,11,12,13,14,15,16\n2,20,21,22,23,24,25,26\n1,30,31,32,33,34,35,36");
    assert_eq!(table.len(), 256);
    assert_eq!(table['1' as usize].unwrap().x, 30);
    assert_eq!(table['2' as usize].unwrap().xadvance, 26);
    assert_eq!(table.iter().filter(|g| g.is_some()).count(), 2);
    assert!(table['3' as usize].is_none());
}

#[test]
fn glyph_table_refuses_a_bad_line() {
    assert!(Glyph::try_from_csv_contents("1,10,11,12,13,14,15,16\n").is_none());
    assert!(Glyph::try_from_csv_contents("1,10,11,12,13,14,15,16\nx").is_none());
    assert!(Glyph::try_from_csv_contents("1,10,11,12,13,14,15,16").is_some());
}
