use flappy_core::highscore::{format_highscore, parse_highscore};

#[test]
fn format_writes_plain_decimal() {
    assert_eq!(format_highscore(6), b"6".to_vec());
    assert_eq!(format_highscore(0), b"0".to_vec());
    assert_eq!(format_highscore(12345), b"12345".to_vec());
    assert_eq!(format_highscore(2147483647), b"2147483647".to_vec());
}

#[test]
fn format_writes_negative_decimal() {
    assert_eq!(format_highscore(-42), b"-42".to_vec());
    assert_eq!(format_highscore(-2147483648), b"-2147483648".to_vec());
}

#[test]
fn parse_reads_plain_decimal() {
    assert_eq!(parse_highscore(&b"6".to_vec()), 6);
    assert_eq!(parse_highscore(&b"007".to_vec()), 7);
    assert_eq!(parse_highscore(&b"+7".to_vec()), 7);
    assert_eq!(parse_highscore(&b"-42".to_vec()), -42);
}

#[test]
fn parse_trims_surrounding_whitespace() {
    assert_eq!(parse_highscore(&b"  42\n".to_vec()), 42);
    assert_eq!(parse_highscore(&b"\t-9\r\n".to_vec()), -9);
}

#[test]
fn parse_falls_back_to_zero_on_junk() {
    assert_eq!(parse_highscore(&b"".to_vec()), 0);
    assert_eq!(parse_highscore(&b"   ".to_vec()), 0);
    assert_eq!(parse_highscore(&b"abc".to_vec()), 0);
    assert_eq!(parse_highscore(&b"-".to_vec()), 0);
    assert_eq!(parse_highscore(&b"+".to_vec()), 0);
    assert_eq!(parse_highscore(&b"1 2".to_vec()), 0);
    assert_eq!(parse_highscore(&b"12x".to_vec()), 0);
    assert_eq!(parse_highscore(&b"--5".to_vec()), 0);
}

#[test]
fn parse_falls_back_to_zero_when_out_of_range() {
    assert_eq!(parse_highscore(&b"2147483648".to_vec()), 0);
    assert_eq!(parse_highscore(&b"-2147483649".to_vec()), 0);
    assert_eq!(parse_highscore(&b"99999999999999999999".to_vec()), 0);
}

#[test]
fn parse_accepts_the_whole_range() {
    assert_eq!(parse_highscore(&b"2147483647".to_vec()), 2147483647);
    assert_eq!(parse_highscore(&b"-2147483648".to_vec()), -2147483648);
}

#[test]
fn save_then_load_round_trips() {
    for n in [0, 1, 6, 9, 10, 999999, 2147483647, -1, -2147483648] {
        assert_eq!(parse_highscore(&format_highscore(n)), n);
    }
}
