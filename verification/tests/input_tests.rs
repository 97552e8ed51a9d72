use honest_guessing_game::input::{
    chars_of, is_whitespace, parse_byte, parse_guess, trim_bounds, GuessError,
};

#[test]
fn plain_numbers_are_read() {
    assert_eq!(parse_guess("0"), Ok(0));
    assert_eq!(parse_guess("7"), Ok(7));
    assert_eq!(parse_guess("10"), Ok(10));
    assert_eq!(parse_guess("255"), Ok(255));
    assert_eq!(parse_guess("007"), Ok(7));
    assert_eq!(parse_guess("+9"), Ok(9));
    assert_eq!(parse_guess("0000000000000000000000255"), Ok(255));
}

#[test]
fn surrounding_white_space_is_dropped() {
    assert_eq!(parse_guess("5\n"), Ok(5));
    assert_eq!(parse_guess("  5\r\n"), Ok(5));
    assert_eq!(parse_guess("\t 42 \t"), Ok(42));
    assert_eq!(parse_guess("\u{a0}3\u{3000}"), Ok(3));
    assert_eq!(parse_guess("\u{2003}+8\u{85}"), Ok(8));
}

#[test]
fn nothing_there_is_empty() {
    assert_eq!(parse_guess(""), Err(GuessError::Empty));
    assert_eq!(parse_guess("   \n"), Err(GuessError::Empty));
    assert_eq!(parse_guess("\u{2028}\t"), Err(GuessError::Empty));
    assert_eq!(parse_byte(&[]), Err(GuessError::Empty));
}

#[test]
fn what_is_no_digit_is_invalid() {
    assert_eq!(parse_guess("-1"), Err(GuessError::InvalidDigit));
    assert_eq!(parse_guess("-0"), Err(GuessError::InvalidDigit));
    assert_eq!(parse_guess("+"), Err(GuessError::InvalidDigit));
    assert_eq!(parse_guess("-"), Err(GuessError::InvalidDigit));
    assert_eq!(parse_guess("++1"), Err(GuessError::InvalidDigit));
    assert_eq!(parse_guess("1 2"), Err(GuessError::InvalidDigit));
    assert_eq!(parse_guess("1_0"), Err(GuessError::InvalidDigit));
    assert_eq!(parse_guess("0x10"), Err(GuessError::InvalidDigit));
    assert_eq!(parse_guess("five"), Err(GuessError::InvalidDigit));
    assert_eq!(parse_guess("5.0"), Err(GuessError::InvalidDigit));
    assert_eq!(parse_guess("\u{661}"), Err(GuessError::InvalidDigit));
    assert_eq!(parse_guess("25a"), Err(GuessError::InvalidDigit));
    assert_eq!(parse_guess("300a"), Err(GuessError::InvalidDigit));
    assert_eq!(parse_byte(&[' ', '1']), Err(GuessError::InvalidDigit));
}

#[test]
fn what_exceeds_a_byte_is_too_large() {
    assert_eq!(parse_guess("256"), Err(GuessError::TooLarge));
    assert_eq!(parse_guess("+256"), Err(GuessError::TooLarge));
    assert_eq!(parse_guess("1000"), Err(GuessError::TooLarge));
    assert_eq!(parse_guess("2560"), Err(GuessError::TooLarge));
    assert_eq!(parse_guess("99999999999999999999999999"), Err(GuessError::TooLarge));
    assert_eq!(parse_guess("000300"), Err(GuessError::TooLarge));
}

#[test]
fn white_space_is_what_std_calls_so() {
    for code in 0..0x11_0000u32 {
        if let Some(c) = char::from_u32(code) {
            assert_eq!(is_whitespace(c), c.is_whitespace(), "U+{:04X}", code);
        }
    }
}

#[test]
fn trimming_agrees_with_std() {
    let lines = [
        "", " ", "a", " a", "a ", " a ", "  a b  ", "\n\n", "\u{2028}x\u{2029}", "x\u{200b}",
        "\u{feff}x", "\t12\r\n",
    ];
    for line in lines {
        let chars = chars_of(line);
        assert_eq!(chars, line.chars().collect::<Vec<char>>());
        let (start, end) = trim_bounds(&chars);
        let inner: String = chars[start..end].iter().collect();
        assert_eq!(inner, line.trim(), "{:?}", line);
    }
}

#[test]
fn parsing_agrees_with_std() {
    let alphabet = ['0', '1', '2', '5', '9', '+', '-', ' ', 'a', '\n'];
    let mut checked = 0;
    for length in 0..=4usize {
        let mut index = vec![0usize; length];
        loop {
            let line: String = index.iter().map(|i| alphabet[*i]).collect();
            assert_eq!(parse_guess(&line).ok(), line.trim().parse::<u8>().ok(), "{:?}", line);
            let chars: Vec<char> = line.chars().collect();
            assert_eq!(parse_byte(&chars).ok(), line.parse::<u8>().ok(), "{:?}", line);
            checked += 1;
            let mut at = 0;
            while at < length {
                index[at] += 1;
                if index[at] < alphabet.len() {
                    break;
                }
                index[at] = 0;
                at += 1;
            }
            if at == length {
                break;
            }
        }
    }
    assert_eq!(checked, 1 + 10 + 100 + 1000 + 10000);
}

#[test]
fn every_number_up_to_a_thousand() {
    for number in 0..1000u32 {
        let line = format!(" {}\n", number);
        let expected = if number <= 255 { Ok(number as u8) } else { Err(GuessError::TooLarge) };
        assert_eq!(parse_guess(&line), expected);
    }
}
