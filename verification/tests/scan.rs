use tailr::{
    count_lines_bytes, print_bytes, print_lines,
    TakeValue::{PlusZero, TakeNum},
};

const ONE: &[u8] = b"\xc3\x96ne line, four word\xc5\x9b.\n";
const TEN: &[u8] = b"one\ntwo\nthree\nfour\nfive\nsix\nseven\neight\nnine\nten\n";

#[test]
fn test_count_lines_bytes() {
    let res = count_lines_bytes(ONE);
    assert_eq!(res, (1, 24));

    let res = count_lines_bytes(TEN);
    assert_eq!(res, (10, 49));
}

#[test]
fn count_of_special_contents() {
    assert_eq!(count_lines_bytes(b""), (0, 0));
    assert_eq!(count_lines_bytes(b"\n"), (1, 1));
    assert_eq!(count_lines_bytes(b"\n\n\n"), (3, 3));
    assert_eq!(count_lines_bytes(b"abc"), (1, 3));
    assert_eq!(count_lines_bytes(b"a\nb"), (2, 3));
    assert_eq!(count_lines_bytes(b"a\r\nb\r\n"), (2, 6));
    assert_eq!(count_lines_bytes(b"\xff\xfe\n\x00"), (2, 4));
}

#[test]
fn print_lines_selects_the_last_lines() {
    assert_eq!(print_lines(TEN, &TakeNum(-1), 10), b"ten\n");
    assert_eq!(print_lines(TEN, &TakeNum(-3), 10), b"eight\nnine\nten\n");
    assert_eq!(print_lines(TEN, &TakeNum(-10), 10), TEN);
    assert_eq!(print_lines(TEN, &TakeNum(-200), 10), TEN);
}

#[test]
fn print_lines_selects_from_a_line_on() {
    assert_eq!(print_lines(TEN, &TakeNum(1), 10), TEN);
    assert_eq!(print_lines(TEN, &TakeNum(9), 10), b"nine\nten\n");
    assert_eq!(print_lines(TEN, &TakeNum(10), 10), b"ten\n");
    assert_eq!(print_lines(TEN, &TakeNum(11), 10), b"");
    assert_eq!(print_lines(TEN, &PlusZero, 10), TEN);
}

#[test]
fn print_lines_selects_nothing() {
    assert_eq!(print_lines(TEN, &TakeNum(0), 10), b"");
    assert_eq!(print_lines(b"", &PlusZero, 0), b"");
    assert_eq!(print_lines(b"", &TakeNum(-3), 0), b"");
}

#[test]
fn print_lines_keeps_an_unfinished_last_line() {
    let data = b"a\nb\nc";
    assert_eq!(count_lines_bytes(data), (3, 5));
    assert_eq!(print_lines(data, &TakeNum(-1), 3), b"c");
    assert_eq!(print_lines(data, &TakeNum(-2), 3), b"b\nc");
    assert_eq!(print_lines(data, &TakeNum(3), 3), b"c");
}

#[test]
fn print_lines_changes_no_byte() {
    let data = b"\xff\xfe\r\n\r\n\x00\xc3\n\n last";
    let (lines, _) = count_lines_bytes(data);
    assert_eq!(lines, 5);
    assert_eq!(print_lines(data, &TakeNum(-4), lines), b"\r\n\x00\xc3\n\n last");
    assert_eq!(print_lines(data, &TakeNum(-2), lines), b"\n last");
    assert_eq!(print_lines(data, &PlusZero, lines), data);
}

#[test]
fn print_lines_goes_by_the_total_it_is_given() {
    // With a total that is not the file's own, the start follows that total.
    assert_eq!(print_lines(TEN, &TakeNum(-1), 3), b"three\nfour\nfive\nsix\nseven\neight\nnine\nten\n");
    assert_eq!(print_lines(TEN, &TakeNum(-1), 100), b"");
    assert_eq!(print_lines(TEN, &TakeNum(-1), 0), b"");
}

#[test]
fn print_bytes_selects_the_last_bytes() {
    assert_eq!(print_bytes(TEN, &TakeNum(-1), 49), b"\n");
    assert_eq!(print_bytes(TEN, &TakeNum(-4), 49), b"ten\n");
    assert_eq!(print_bytes(TEN, &TakeNum(-49), 49), TEN);
    assert_eq!(print_bytes(TEN, &TakeNum(-50), 49), TEN);
    assert_eq!(print_bytes(ONE, &TakeNum(-24), 24), ONE);
}

#[test]
fn print_bytes_selects_from_a_byte_on() {
    assert_eq!(print_bytes(TEN, &TakeNum(1), 49), TEN);
    assert_eq!(print_bytes(TEN, &TakeNum(46), 49), b"ten\n");
    assert_eq!(print_bytes(TEN, &TakeNum(49), 49), b"\n");
    assert_eq!(print_bytes(TEN, &TakeNum(50), 49), b"");
    assert_eq!(print_bytes(ONE, &TakeNum(25), 24), b"");
    assert_eq!(print_bytes(TEN, &PlusZero, 49), TEN);
}

#[test]
fn print_bytes_may_start_inside_a_character() {
    // The second byte of a character of two bytes comes out as it is.
    assert_eq!(print_bytes(ONE, &TakeNum(2), 24), &ONE[1..]);
    assert_eq!(print_bytes(ONE, &TakeNum(-2), 24), b".\n");
    assert_eq!(print_bytes(ONE, &TakeNum(-3), 24), b"\x9b.\n");
}

#[test]
fn print_bytes_selects_nothing() {
    assert_eq!(print_bytes(TEN, &TakeNum(0), 49), b"");
    assert_eq!(print_bytes(b"", &PlusZero, 0), b"");
    assert_eq!(print_bytes(b"", &TakeNum(-1), 0), b"");
    // A start behind the end of what is there gives nothing.
    assert_eq!(print_bytes(b"abc", &TakeNum(10), 20), b"");
}
