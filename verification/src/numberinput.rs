use vstd::prelude::*;
use vstd::string::*;
use vstd::utf8::is_ascii_chars;

use crate::text::string_push;

verus! {

broadcast use vstd::string::group_string_axioms;

/// Result of completing the input dialog
#[derive(Debug, PartialEq, Eq, Structural)]
pub enum TatNumberInputResult {
    RejectedKey,
    AcceptedKey,
    Close,
    Accept(i64),
}

/// The key of a key press, as the widgets of this crate tell keys apart
#[derive(Debug, PartialEq, Eq, Structural, Clone, Copy)]
pub enum TatKeyCode {
    Backspace,
    Enter,
    Left,
    Right,
    Up,
    Down,
    Home,
    End,
    PageUp,
    PageDown,
    Tab,
    BackTab,
    Delete,
    Insert,
    F(u8),
    Char(char),
    Null,
    Esc,
    /// Any other key
    Other,
}

/// Whether a character is one of the decimal digits `0` to `9`
pub open spec fn is_digit(c: char) -> bool {
    '0' <= c <= '9'
}

/// The value of a decimal digit
pub open spec fn digit_value(c: char) -> nat {
    (c as int - '0' as int) as nat
}

/// Whether every character of `s` is a decimal digit
pub open spec fn all_digits(s: Seq<char>) -> bool {
    forall|i: int| 0 <= i < s.len() ==> is_digit(#[trigger] s[i])
}

/// The number a string of decimal digits writes
pub open spec fn decimal_value(s: Seq<char>) -> nat
    decreases s.len(),
{
    if s.len() == 0 {
        0
    } else {
        decimal_value(s.drop_last()) * 10 + digit_value(s.last())
    }
}

/// What pressing Enter gives for a string of digits: the number must be a positive integer, so
/// there is nothing to accept when the digits are empty or write zero; else their value, or the
/// largest `i64` when the value is larger
pub open spec fn parsed_value(s: Seq<char>) -> Option<i64> {
    if s.len() == 0 || decimal_value(s) == 0 {
        None
    } else if decimal_value(s) > i64::MAX {
        Some(i64::MAX)
    } else {
        Some(decimal_value(s) as i64)
    }
}

/// What the dialog holds: the typed digits and the cursor's position in them
pub struct NumberInputState {
    pub string: Seq<char>,
    pub cursor_pos: u16,
}

impl NumberInputState {
    /// Only digits are typed in, and never more than `u16::MAX` of them
    pub open spec fn wf(self) -> bool {
        &&& all_digits(self.string)
        &&& self.string.len() <= u16::MAX
    }

    /// The state after moving the cursor one step left
    pub open spec fn after_left(self) -> NumberInputState {
        if self.cursor_pos > 0 {
            NumberInputState { cursor_pos: (self.cursor_pos - 1) as u16, ..self }
        } else {
            self
        }
    }

    /// The state after moving the cursor one step right
    pub open spec fn after_right(self) -> NumberInputState {
        if self.cursor_pos < self.string.len() {
            NumberInputState { cursor_pos: (self.cursor_pos + 1) as u16, ..self }
        } else {
            self
        }
    }

    /// Backspace or Delete would remove a digit at a position past the end
    pub open spec fn cursor_past_end(self) -> bool {
        self.cursor_pos > self.string.len()
    }

    /// The state after Backspace: the digit before the cursor goes
    pub open spec fn after_backspace(self) -> NumberInputState {
        if self.string.len() == 0 || self.cursor_pos == 0 {
            self
        } else {
            NumberInputState {
                string: self.string.remove(self.cursor_pos - 1),
                cursor_pos: (self.cursor_pos - 1) as u16,
            }
        }
    }

    /// The state after Delete: the digit after the cursor goes
    pub open spec fn after_delete(self) -> NumberInputState {
        if self.string.len() == 0 || self.cursor_pos == self.string.len() {
            self
        } else {
            NumberInputState { string: self.string.remove(self.cursor_pos as int), ..self }
        }
    }

    /// Whether typing a digit changes anything: a number may not start with a zero, and the
    /// input holds at most `u16::MAX - 1` typed digits
    pub open spec fn accepts_digit(self, ch: char) -> bool {
        !(self.cursor_pos == 0 && ch == '0') && self.string.len() < u16::MAX
    }

    /// The state after typing a digit at the cursor
    pub open spec fn after_char(self, ch: char) -> NumberInputState {
        if self.accepts_digit(ch) {
            NumberInputState {
                string: self.string.insert(self.cursor_pos as int, ch),
                cursor_pos: (self.cursor_pos + 1) as u16,
            }
        } else {
            self
        }
    }

    /// Whether a key press would edit the digits at a cursor that is past their end, which is
    /// not possible
    pub open spec fn key_press_out_of_range(self, key: TatKeyCode) -> bool {
        match key {
            TatKeyCode::Backspace => self.string.len() > 0 && self.cursor_pos != 0
                && self.cursor_past_end(),
            TatKeyCode::Delete => self.string.len() > 0 && self.cursor_pos != self.string.len()
                && self.cursor_past_end(),
            TatKeyCode::Char(c) => c != 'q' && is_digit(c) && self.accepts_digit(c)
                && self.cursor_past_end(),
            _ => false,
        }
    }

    /// The state after a key press
    pub open spec fn after_key(self, key: TatKeyCode, ctrl_down: bool) -> NumberInputState {
        match key {
            TatKeyCode::Home => NumberInputState { cursor_pos: 0, ..self },
            TatKeyCode::End => NumberInputState { cursor_pos: self.string.len() as u16, ..self },
            TatKeyCode::Left => if ctrl_down {
                NumberInputState { cursor_pos: 0, ..self }
            } else {
                self.after_left()
            },
            TatKeyCode::Right => if ctrl_down {
                NumberInputState { cursor_pos: self.string.len() as u16, ..self }
            } else {
                self.after_right()
            },
            TatKeyCode::Backspace => self.after_backspace(),
            TatKeyCode::Delete => self.after_delete(),
            TatKeyCode::Char(c) => if c != 'q' && is_digit(c) {
                self.after_char(c)
            } else {
                self
            },
            _ => self,
        }
    }

    /// The result reported for a key press
    pub open spec fn key_result(self, key: TatKeyCode) -> TatNumberInputResult {
        match key {
            TatKeyCode::Char(c) => if c == 'q' {
                TatNumberInputResult::Close
            } else if is_digit(c) {
                TatNumberInputResult::AcceptedKey
            } else {
                TatNumberInputResult::RejectedKey
            },
            TatKeyCode::Esc => TatNumberInputResult::Close,
            TatKeyCode::Home | TatKeyCode::End | TatKeyCode::Left | TatKeyCode::Right
            | TatKeyCode::Backspace | TatKeyCode::Delete => TatNumberInputResult::AcceptedKey,
            TatKeyCode::Enter => match parsed_value(self.string) {
                None => TatNumberInputResult::Close,
                Some(v) => TatNumberInputResult::Accept(v),
            },
            _ => TatNumberInputResult::RejectedKey,
        }
    }
}

/// The cursor never leaves the typed digits: from a state whose cursor is within its digits,
/// every key press can be handled, keeps only digits and leaves the cursor within the digits.
pub proof fn law_cursor_stays_within_digits(s: NumberInputState, key: TatKeyCode, ctrl_down: bool)
    requires
        s.wf(),
        s.cursor_pos <= s.string.len(),
    ensures
        !s.key_press_out_of_range(key),
        s.after_key(key, ctrl_down).wf(),
        s.after_key(key, ctrl_down).cursor_pos <= s.after_key(key, ctrl_down).string.len(),
{
    let t = s.after_key(key, ctrl_down);
    match key {
        TatKeyCode::Backspace => {
            if s.string.len() > 0 && s.cursor_pos > 0 {
                assert forall|i: int| 0 <= i < t.string.len() implies is_digit(
                    #[trigger] t.string[i],
                ) by {
                    if i < s.cursor_pos - 1 {
                        assert(t.string[i] == s.string[i]);
                    } else {
                        assert(t.string[i] == s.string[i + 1]);
                    }
                }
            }
        },
        TatKeyCode::Delete => {
            if s.string.len() > 0 && s.cursor_pos != s.string.len() {
                assert forall|i: int| 0 <= i < t.string.len() implies is_digit(
                    #[trigger] t.string[i],
                ) by {
                    if i < s.cursor_pos {
                        assert(t.string[i] == s.string[i]);
                    } else {
                        assert(t.string[i] == s.string[i + 1]);
                    }
                }
            }
        },
        TatKeyCode::Char(c) => {
            if c != 'q' && is_digit(c) && s.accepts_digit(c) {
                assert forall|i: int| 0 <= i < t.string.len() implies is_digit(
                    #[trigger] t.string[i],
                ) by {
                    if i < s.cursor_pos {
                        assert(t.string[i] == s.string[i]);
                    } else if i == s.cursor_pos {
                        assert(t.string[i] == c);
                    } else {
                        assert(t.string[i] == s.string[i - 1]);
                    }
                }
            }
        },
        _ => {},
    }
}

/// Typing a digit and then pressing Backspace gives back the input as it was, whenever the digit
/// was taken.
pub proof fn law_char_then_backspace_undoes(s: NumberInputState, ch: char)
    requires
        s.wf(),
        s.cursor_pos <= s.string.len(),
        is_digit(ch),
        s.accepts_digit(ch),
    ensures
        s.after_key(TatKeyCode::Char(ch), false).after_key(TatKeyCode::Backspace, false) == s,
{
    let t = s.after_key(TatKeyCode::Char(ch), false);
    assert(t.string == s.string.insert(s.cursor_pos as int, ch));
    assert(t.string.remove(t.cursor_pos - 1) =~= s.string);
}

proof fn lemma_leading_digit_bounds_value(s: Seq<char>)
    requires
        all_digits(s),
        s.len() > 0,
    ensures
        decimal_value(s) >= digit_value(s[0]),
    decreases s.len(),
{
    if s.len() > 1 {
        let p = s.drop_last();
        assert(all_digits(p)) by {
            assert forall|i: int| 0 <= i < p.len() implies is_digit(#[trigger] p[i]) by {
                assert(p[i] == s[i]);
            }
        }
        lemma_leading_digit_bounds_value(p);
        assert(p[0] == s[0]);
    }
}

/// A number input takes positive integers only: every number that Enter accepts is at least
/// one, Enter closes the dialog when the digits are empty or write zero, and digits that do not
/// start with a zero are always accepted.
pub proof fn law_accepted_number_is_positive(s: NumberInputState)
    requires
        s.wf(),
    ensures
        s.key_result(TatKeyCode::Enter) matches TatNumberInputResult::Accept(v) ==> v >= 1,
        decimal_value(s.string) == 0 ==> s.key_result(TatKeyCode::Enter)
            == TatNumberInputResult::Close,
        s.string.len() > 0 && s.string[0] != '0' ==> s.key_result(TatKeyCode::Enter) is Accept,
{
    if s.string.len() > 0 {
        assert(is_digit(s.string[0]));
        lemma_leading_digit_bounds_value(s.string);
    }
}

/// Inserts a character into a string of ASCII characters at the given position (`String::insert`)
#[verifier::external_body]
fn string_insert(s: &mut String, idx: usize, ch: char)
    requires
        is_ascii_chars(old(s)@),
        idx <= old(s)@.len(),
    ensures
        final(s)@ == old(s)@.insert(idx as int, ch),
{
    s.insert(idx, ch)
}

/// Removes the character at the given position from a string of ASCII characters and returns it
/// (`String::remove`)
#[verifier::external_body]
fn string_remove(s: &mut String, idx: usize) -> (ch: char)
    requires
        is_ascii_chars(old(s)@),
        idx < old(s)@.len(),
    ensures
        final(s)@ == old(s)@.remove(idx as int),
        ch == old(s)@[idx as int],
{
    s.remove(idx)
}

proof fn lemma_digits_are_ascii(s: Seq<char>)
    requires
        all_digits(s),
    ensures
        is_ascii_chars(s),
{
    assert forall|i| 0 <= i < s.len() implies '\0' <= #[trigger] s[i] <= '\u{7f}' by {
        assert(is_digit(s[i]));
    }
}

/// A widget for getting a number value from the user. Number must be a positive integer.
#[derive(Debug)]
pub struct TatNumberInput {
    string: String,
    cursor_pos: u16,
}

impl View for TatNumberInput {
    type V = NumberInputState;

    closed spec fn view(&self) -> NumberInputState {
        NumberInputState { string: self.string@, cursor_pos: self.cursor_pos }
    }
}

impl TatNumberInput {
    /// Constructs a new widget.
    pub fn new() -> (ni: Self)
        ensures
            ni@.string.len() == 0,
            ni@.cursor_pos == 0,
            ni@.wf(),
    {
        Self { string: String::new(), cursor_pos: 0 }
    }

    /// The number of typed digits
    fn digit_count(&self) -> (n: usize)
        requires
            self@.wf(),
        ensures
            n == self@.string.len(),
    {
        ascii_len(self.string.as_str())
    }

    /// Handles the incoming key, rejecting any unaccepted keys
    pub fn key_press(&mut self, key: TatKeyCode, ctrl_down: bool) -> (res: TatNumberInputResult)
        requires
            old(self)@.wf(),
            !old(self)@.key_press_out_of_range(key),
        ensures
            final(self)@ == old(self)@.after_key(key, ctrl_down),
            res == old(self)@.key_result(key),
            final(self)@.wf(),
    {
        match key {
            TatKeyCode::Char('q') | TatKeyCode::Esc => TatNumberInputResult::Close,
            TatKeyCode::Home => {
                self.cursor_pos = 0;
                TatNumberInputResult::AcceptedKey
            },
            TatKeyCode::Left if ctrl_down => {
                self.cursor_pos = 0;
                TatNumberInputResult::AcceptedKey
            },
            TatKeyCode::End => {
                self.cursor_pos = self.digit_count() as u16;
                TatNumberInputResult::AcceptedKey
            },
            TatKeyCode::Right if ctrl_down => {
                self.cursor_pos = self.digit_count() as u16;
                TatNumberInputResult::AcceptedKey
            },
            TatKeyCode::Backspace => {
                self.handle_backspace();
                TatNumberInputResult::AcceptedKey
            },
            TatKeyCode::Delete => {
                self.handle_delete();
                TatNumberInputResult::AcceptedKey
            },
            TatKeyCode::Left => {
                self.handle_left();
                TatNumberInputResult::AcceptedKey
            },
            TatKeyCode::Right => {
                self.handle_right();
                TatNumberInputResult::AcceptedKey
            },
            TatKeyCode::Enter => {
                match parse_digits(self.string.as_str()) {
                    None => TatNumberInputResult::Close,
                    Some(value) => TatNumberInputResult::Accept(value),
                }
            },
            TatKeyCode::Char(ch) => {
                if '0' <= ch && ch <= '9' {
                    self.handle_char(ch);
                    TatNumberInputResult::AcceptedKey
                } else {
                    TatNumberInputResult::RejectedKey
                }
            },
            _ => TatNumberInputResult::RejectedKey,
        }
    }

    /// Returns what pressing a key reports, without handling it
    pub fn result_of(&self, key: TatKeyCode) -> (r: TatNumberInputResult)
        requires
            self@.wf(),
        ensures
            r == self@.key_result(key),
    {
        match key {
            TatKeyCode::Char(c) => if c == 'q' {
                TatNumberInputResult::Close
            } else if '0' <= c && c <= '9' {
                TatNumberInputResult::AcceptedKey
            } else {
                TatNumberInputResult::RejectedKey
            },
            TatKeyCode::Esc => TatNumberInputResult::Close,
            TatKeyCode::Home | TatKeyCode::End | TatKeyCode::Left | TatKeyCode::Right
            | TatKeyCode::Backspace | TatKeyCode::Delete => TatNumberInputResult::AcceptedKey,
            TatKeyCode::Enter => match parse_digits(self.string.as_str()) {
                None => TatNumberInputResult::Close,
                Some(value) => TatNumberInputResult::Accept(value),
            },
            _ => TatNumberInputResult::RejectedKey,
        }
    }

    /// Handles when user wants to move the cursor to the left
    pub fn handle_left(&mut self)
        ensures
            final(self)@ == old(self)@.after_left(),
    {
        if self.cursor_pos > 0 {
            self.cursor_pos = self.cursor_pos - 1;
        }
    }

    /// Handles when user wants to move the cursor to the right
    pub fn handle_right(&mut self)
        requires
            old(self)@.wf(),
        ensures
            final(self)@ == old(self)@.after_right(),
    {
        if self.cursor_pos < self.digit_count() as u16 {
            self.cursor_pos = self.cursor_pos + 1;
        }
    }

    /// Handles when user wants to delete the number before the cursor
    pub fn handle_backspace(&mut self)
        requires
            old(self)@.wf(),
            !old(self)@.key_press_out_of_range(TatKeyCode::Backspace),
        ensures
            final(self)@ == old(self)@.after_backspace(),
            final(self)@.wf(),
    {
        if self.digit_count() == 0 || self.cursor_pos == 0 {
            return ;
        }
        proof {
            lemma_digits_are_ascii(self@.string);
        }
        string_remove(&mut self.string, self.cursor_pos as usize - 1);
        self.cursor_pos = self.cursor_pos - 1;
    }

    /// Handles when user wants to delete the number after the cursor
    pub fn handle_delete(&mut self)
        requires
            old(self)@.wf(),
            !old(self)@.key_press_out_of_range(TatKeyCode::Delete),
        ensures
            final(self)@ == old(self)@.after_delete(),
            final(self)@.wf(),
    {
        if self.digit_count() == 0 || self.cursor_pos == self.digit_count() as u16 {
            return ;
        }
        proof {
            lemma_digits_are_ascii(self@.string);
        }
        string_remove(&mut self.string, self.cursor_pos as usize);
    }

    /// Handles when user has typed in a character in 0..9
    pub fn handle_char(&mut self, ch: char)
        requires
            old(self)@.wf(),
            is_digit(ch),
            !old(self)@.key_press_out_of_range(TatKeyCode::Char(ch)),
        ensures
            final(self)@ == old(self)@.after_char(ch),
            final(self)@.wf(),
    {
        if self.cursor_pos == 0 && ch == '0' {
            return ;
        }
        let len = self.digit_count();
        if len >= 65535 {
            return ;
        }
        proof {
            lemma_digits_are_ascii(self@.string);
        }
        if self.cursor_pos == len as u16 {
            string_push(&mut self.string, ch);
        } else {
            string_insert(&mut self.string, self.cursor_pos as usize, ch);
        }
        self.cursor_pos = self.cursor_pos + 1;
        proof {
            assert(self@.string =~= old(self)@.string.insert(old(self)@.cursor_pos as int, ch));
        }
    }

    /// Resets the widget
    pub fn reset(&mut self)
        ensures
            final(self)@.string.len() == 0,
            final(self)@.cursor_pos == 0,
            final(self)@.wf(),
    {
        self.string = String::new();
        self.cursor_pos = 0;
    }

    /// Returns the typed digits
    pub fn string(&self) -> (s: &str)
        ensures
            s@ == self@.string,
    {
        self.string.as_str()
    }

    /// Returns the position of the cursor
    pub fn cursor_pos(&self) -> (c: u16)
        ensures
            c == self@.cursor_pos,
    {
        self.cursor_pos
    }

    /// Replaces the typed digits
    pub fn set_string(&mut self, string: String)
        requires
            all_digits(string@),
            string@.len() <= u16::MAX,
        ensures
            final(self)@ == (NumberInputState { string: string@, ..old(self)@ }),
            final(self)@.wf(),
    {
        self.string = string;
    }

    /// Moves the cursor
    pub fn set_cursor_pos(&mut self, cursor_pos: u16)
        ensures
            final(self)@ == (NumberInputState { cursor_pos, ..old(self)@ }),
    {
        self.cursor_pos = cursor_pos;
    }
}

/// The length of a short ASCII string, which is both its byte count and its character count
fn ascii_len(s: &str) -> (n: usize)
    requires
        all_digits(s@),
        s@.len() <= u16::MAX,
    ensures
        n == s@.len(),
{
    proof {
        lemma_digits_are_ascii(s@);
        assert(vstd::string::is_ascii(s));
        assert(s.spec_bytes().len() == s@.len());
    }
    s.len()
}

/// Reads a string of decimal digits as a positive number: `None` for the empty string and for
/// zero, the largest `i64` for a value that does not fit
fn parse_digits(s: &str) -> (r: Option<i64>)
    requires
        all_digits(s@),
        s@.len() <= u16::MAX,
    ensures
        r == parsed_value(s@),
{
    proof {
        lemma_digits_are_ascii(s@);
    }
    let n = ascii_len(s);
    if n == 0 {
        return None;
    }
    let mut acc: i64 = 0;
    let mut overflow = false;
    let mut i: usize = 0;
    while i < n
        invariant
            n == s@.len(),
            all_digits(s@),
            is_ascii_chars(s@),
            i <= n,
            !overflow ==> acc == decimal_value(s@.take(i as int)),
            overflow ==> decimal_value(s@.take(i as int)) > i64::MAX,
            acc >= 0,
        decreases n - i,
    {
        let b = s.get_ascii(i);
        let ghost c = s@[i as int];
        proof {
            assert(is_digit(c));
            assert(s@.take(i + 1).drop_last() =~= s@.take(i as int));
            assert(s@.take(i + 1).last() == c);
            vstd::utf8::char_u32_cast(c, c as u32);
            assert(b as int == c as int);
        }
        let d: i64 = (b - 48) as i64;
        if !overflow {
            if acc > (i64::MAX - d) / 10 {
                overflow = true;
            } else {
                acc = acc * 10 + d;
            }
        }
        i = i + 1;
    }
    proof {
        assert(s@.take(n as int) =~= s@);
    }
    if overflow {
        Some(i64::MAX)
    } else if acc == 0 {
        None
    } else {
        Some(acc)
    }
}

} // verus!
