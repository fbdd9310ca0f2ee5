use tat::numberinput::{TatKeyCode, TatNumberInput, TatNumberInputResult};

#[test]
fn numberinput_test_new() {
    let ni = TatNumberInput::new();
    assert_eq!(ni.cursor_pos(), 0);
    assert!(ni.string().is_empty());
}

#[test]
fn test_key_press_chars() {
    let mut ni = TatNumberInput::new();

    for _char in 0..u8::MAX {
        let char = _char as char;

        if char == 'q' || (char >= '0' && char <= '9') {
            continue;
        }

        let res = ni.key_press(TatKeyCode::Char(char), false);
        assert_eq!(res, TatNumberInputResult::RejectedKey);
    }

    {
        let res = ni.key_press(TatKeyCode::Char('q'), false);
        assert_eq!(res, TatNumberInputResult::Close);
        ni.reset();
    }

    {
        let res = ni.key_press(TatKeyCode::Char('0'), false);
        assert_eq!(res, TatNumberInputResult::AcceptedKey);
        assert!(ni.string().is_empty());
        ni.reset();
    }

    for char in '1'..='9' {
        let res = ni.key_press(TatKeyCode::Char(char), false);
        assert_eq!(res, TatNumberInputResult::AcceptedKey);
        assert_eq!(ni.string(), char.to_string());
        ni.reset();
    }
}

#[test]
fn test_handle_char() {
    let mut ni = TatNumberInput::new();

    ni.handle_char('0');

    assert!(ni.string().is_empty());
    ni.reset();
    ni.handle_char('1');
    ni.handle_char('0');
    ni.handle_char('2');
    assert_eq!(ni.string(), "102");
    ni.reset();

    ni.set_string("1234".to_string());
    ni.set_cursor_pos(2);

    ni.handle_char('0');
    assert_eq!(ni.string(), "12034");
    ni.reset();
}

#[test]
fn test_handle_left() {
    let mut ni = TatNumberInput::new();

    ni.handle_left();
    assert_eq!(ni.cursor_pos(), 0);

    ni.set_cursor_pos(5);

    ni.handle_left();
    assert_eq!(ni.cursor_pos(), 4);
}

#[test]
fn test_handle_right() {
    let mut ni = TatNumberInput::new();
    ni.set_string("12".to_string());
    ni.handle_right();
    assert_eq!(ni.cursor_pos(), 1);
    ni.handle_right();
    assert_eq!(ni.cursor_pos(), 2);
    ni.handle_right();
    assert_eq!(ni.cursor_pos(), 2);
}

#[test]
fn test_handle_backspace() {
    let mut ni = TatNumberInput::new();
    ni.handle_backspace();
    assert!(ni.string().is_empty());

    ni.set_string("123456".to_string());
    ni.handle_backspace();
    assert_eq!(ni.string(), "123456");

    ni.set_cursor_pos(6);
    ni.handle_backspace();
    assert_eq!(ni.string(), "12345");
    assert_eq!(ni.cursor_pos(), 5);

    ni.set_cursor_pos(3);
    ni.handle_backspace();
    assert_eq!(ni.string(), "1245");
    assert_eq!(ni.cursor_pos(), 2);

    ni.handle_backspace();
    assert_eq!(ni.string(), "145");
    assert_eq!(ni.cursor_pos(), 1);

    ni.handle_backspace();
    assert_eq!(ni.string(), "45");
    assert_eq!(ni.cursor_pos(), 0);

    ni.handle_backspace();
    assert_eq!(ni.string(), "45");
    assert_eq!(ni.cursor_pos(), 0);
}

#[test]
fn test_handle_delete() {
    let mut ni = TatNumberInput::new();
    ni.handle_delete();
    assert!(ni.string().is_empty());

    ni.set_string("123456".to_string());
    ni.handle_delete();
    assert_eq!(ni.string(), "23456");
    assert_eq!(ni.cursor_pos(), 0);

    ni.set_cursor_pos(4);
    ni.handle_delete();
    assert_eq!(ni.string(), "2345");
    assert_eq!(ni.cursor_pos(), 4);

    ni.handle_delete();
    assert_eq!(ni.string(), "2345");
    assert_eq!(ni.cursor_pos(), 4);
}

#[test]
fn test_key_press() {
    let mut ni = TatNumberInput::new();

    {
        let res = ni.key_press(TatKeyCode::Esc, false);
        assert_eq!(res, TatNumberInputResult::Close);

        ni.reset();
    }

    {
        ni.set_string("12345".to_string());
        ni.set_cursor_pos(5);
        let res = ni.key_press(TatKeyCode::Left, true);
        assert_eq!(ni.cursor_pos(), 0);
        assert_eq!(res, TatNumberInputResult::AcceptedKey);

        ni.reset();
    }

    {
        ni.set_string("12345".to_string());
        ni.set_cursor_pos(5);
        let res = ni.key_press(TatKeyCode::Home, false);
        assert_eq!(ni.cursor_pos(), 0);
        assert_eq!(res, TatNumberInputResult::AcceptedKey);

        ni.reset();
    }

    {
        ni.set_string("12345".to_string());
        let res = ni.key_press(TatKeyCode::End, false);
        assert_eq!(ni.cursor_pos(), 5);
        assert_eq!(res, TatNumberInputResult::AcceptedKey);

        ni.reset();
    }

    {
        ni.set_string("12345".to_string());
        let res = ni.key_press(TatKeyCode::Right, true);
        assert_eq!(ni.cursor_pos(), 5);
        assert_eq!(res, TatNumberInputResult::AcceptedKey);

        ni.reset();
    }

    {
        ni.set_string("12345".to_string());
        let res = ni.key_press(TatKeyCode::Enter, false);
        assert_eq!(res, TatNumberInputResult::Accept(12345));

        ni.reset();
    }

    {
        ni.set_string("100000000000000000000".to_string());
        let res = ni.key_press(TatKeyCode::Enter, false);
        assert_eq!(res, TatNumberInputResult::Accept(i64::MAX));

        ni.reset();
    }
}

#[test]
fn number_input_enter_on_empty_input_closes() {
    let mut ni = TatNumberInput::new();
    assert_eq!(ni.key_press(TatKeyCode::Enter, false), TatNumberInputResult::Close);
    assert_eq!(ni.result_of(TatKeyCode::Enter), TatNumberInputResult::Close);
}

#[test]
fn number_input_largest_exact_value_is_kept() {
    let mut ni = TatNumberInput::new();
    ni.set_string("9223372036854775807".to_string());
    assert_eq!(ni.key_press(TatKeyCode::Enter, false), TatNumberInputResult::Accept(i64::MAX));
    ni.set_string("9223372036854775806".to_string());
    assert_eq!(ni.key_press(TatKeyCode::Enter, false), TatNumberInputResult::Accept(i64::MAX - 1));
}

#[test]
fn number_input_char_then_backspace_undoes() {
    let mut ni = TatNumberInput::new();
    ni.set_string("1234".to_string());
    ni.set_cursor_pos(2);
    ni.key_press(TatKeyCode::Char('7'), false);
    assert_eq!(ni.string(), "12734");
    ni.key_press(TatKeyCode::Backspace, false);
    assert_eq!(ni.string(), "1234");
    assert_eq!(ni.cursor_pos(), 2);
}

#[test]
fn number_input_other_keys_are_rejected_and_change_nothing() {
    let mut ni = TatNumberInput::new();
    ni.set_string("42".to_string());
    ni.set_cursor_pos(1);
    for key in [TatKeyCode::Up, TatKeyCode::Tab, TatKeyCode::F(1), TatKeyCode::Other] {
        assert_eq!(ni.key_press(key, false), TatNumberInputResult::RejectedKey);
    }
    assert_eq!(ni.string(), "42");
    assert_eq!(ni.cursor_pos(), 1);
}

#[test]
fn number_input_accepts_a_zero_after_the_first_digit_only() {
    let mut ni = TatNumberInput::new();
    ni.key_press(TatKeyCode::Char('5'), false);
    ni.key_press(TatKeyCode::Home, false);
    ni.key_press(TatKeyCode::Char('0'), false);
    assert_eq!(ni.string(), "5");
    ni.key_press(TatKeyCode::End, false);
    ni.key_press(TatKeyCode::Char('0'), false);
    assert_eq!(ni.string(), "50");
    assert_eq!(ni.result_of(TatKeyCode::Enter), TatNumberInputResult::Accept(50));
}

#[test]
fn number_input_zero_is_not_accepted() {
    let mut ni = TatNumberInput::new();
    for k in [TatKeyCode::Char('1'), TatKeyCode::Char('0'), TatKeyCode::Home, TatKeyCode::Delete] {
        ni.key_press(k, false);
    }
    assert_eq!(ni.string(), "0");
    assert_eq!(ni.key_press(TatKeyCode::Enter, false), TatNumberInputResult::Close);
    ni.set_string("000".to_string());
    assert_eq!(ni.key_press(TatKeyCode::Enter, false), TatNumberInputResult::Close);
    ni.set_string("007".to_string());
    assert_eq!(ni.key_press(TatKeyCode::Enter, false), TatNumberInputResult::Accept(7));
}
