//! Error values and the results of WiredTiger return codes.

use vstd::prelude::*;

use crate::text::push_char;

verus! {

/// Return code of a conflict between concurrent operations.
pub const WT_ROLLBACK: i32 = -31800;

/// Return code of an insert of a key that already exists.
pub const WT_DUPLICATE_KEY: i32 = -31801;

/// Return code of a search that found no matching record.
pub const WT_NOTFOUND: i32 = -31803;

/// Return code of an operation refused because the cache is full.
pub const WT_CACHE_FULL: i32 = -31807;

/// Code of the errors that the binding itself reports, before or after a call
/// into the engine.
pub const LOCAL_ERROR_CODE: i32 = -1;

/// The character of a decimal digit.
pub open spec fn digit_char(d: nat) -> char {
    (d + 48) as char
}

/// Decimal digits of a natural number, most significant first, without leading zeros.
pub open spec fn decimal_digits(n: nat) -> Seq<char>
    decreases n,
{
    if n < 10 {
        seq![digit_char(n)]
    } else {
        decimal_digits(n / 10).push(digit_char(n % 10))
    }
}

/// Decimal rendering of an integer, as `{}` formats it.
pub open spec fn decimal(x: int) -> Seq<char> {
    if x < 0 {
        seq!['-'] + decimal_digits((-x) as nat)
    } else {
        decimal_digits(x as nat)
    }
}

fn push_decimal_digits(s: &mut String, n: u64)
    ensures
        final(s)@ == old(s)@ + decimal_digits(n as nat),
    decreases n,
{
    if n >= 10 {
        push_decimal_digits(s, n / 10);
    }
    let d: u8 = (n % 10) as u8;
    let c: char = (48u8 + d) as char;
    push_char(s, c);
    assert(old(s)@ + decimal_digits(n as nat) =~= s@);
}

/// Appends the decimal rendering of `x` to `s`.
pub fn push_decimal(s: &mut String, x: i64)
    ensures
        final(s)@ == old(s)@ + decimal(x as int),
{
    if x < 0 {
        push_char(s, '-');
        let m: u64 = if x == i64::MIN {
            9223372036854775808u64
        } else {
            (-x) as u64
        };
        push_decimal_digits(s, m);
        assert(old(s)@ + decimal(x as int) =~= s@);
    } else {
        push_decimal_digits(s, x as u64);
    }
}

/// What an `Error` holds: its code and its message.
pub struct ErrorView {
    pub code: i32,
    pub message: Seq<char>,
}

/// A WiredTiger error: a return code and a message describing it.
#[derive(Debug)]
pub struct Error {
    code: i32,
    message: String,
}

impl View for Error {
    type V = ErrorView;

    closed spec fn view(&self) -> ErrorView {
        ErrorView { code: self.code, message: self.message@ }
    }
}

impl PartialEq for Error {
    fn eq(&self, other: &Error) -> (r: bool) {
        self.code == other.code && self.message == other.message
    }
}

impl vstd::std_specs::cmp::PartialEqSpecImpl for Error {
    open spec fn obeys_eq_spec() -> bool {
        true
    }

    open spec fn eq_spec(&self, other: &Error) -> bool {
        self@ == other@
    }
}

impl Eq for Error {

}

impl Clone for Error {
    fn clone(&self) -> (e: Error)
        ensures
            e@ == self@,
    {
        Error { code: self.code, message: self.message.clone() }
    }
}

/// The message of an error that the engine describes with `strerror`,
/// or describes with no text.
pub open spec fn code_message(code: i32, strerror: Option<Seq<char>>) -> Seq<char> {
    match strerror {
        Some(m) => m,
        None => "WiredTiger error code "@ + decimal(code as int),
    }
}

impl Error {
    /// An error with the given code and message.
    pub fn new(code: i32, message: &str) -> (e: Error)
        ensures
            e@.code == code,
            e@.message == message@,
    {
        Error { code, message: message.to_owned() }
    }

    /// An error reported by the binding itself, with code `LOCAL_ERROR_CODE`.
    pub fn local(message: &str) -> (e: Error)
        ensures
            e@.code == LOCAL_ERROR_CODE,
            e@.message == message@,
    {
        Error::new(LOCAL_ERROR_CODE, message)
    }

    /// The error for a WiredTiger return code. `strerror` is the engine's
    /// description of the code, `None` where the engine gives none.
    pub fn from_code(code: i32, strerror: Option<&str>) -> (e: Error)
        ensures
            e@.code == code,
            e@.message == code_message(code, match strerror {
                Some(m) => Some(m@),
                None => None,
            }),
    {
        match strerror {
            Some(m) => Error::new(code, m),
            None => {
                let mut message = String::from_str("WiredTiger error code ");
                push_decimal(&mut message, code as i64);
                Error { code, message }
            },
        }
    }

    /// The error code.
    pub fn code(&self) -> (c: i32)
        ensures
            c == self@.code,
    {
        self.code
    }

    /// The error message.
    pub fn message(&self) -> (m: &str)
        ensures
            m@ == self@.message,
    {
        self.message.as_str()
    }

    /// Whether this is a "not found" error.
    pub fn is_not_found(&self) -> (b: bool)
        ensures
            b == (self@.code == WT_NOTFOUND),
    {
        self.code == WT_NOTFOUND
    }

    /// Whether this is a duplicate key error.
    pub fn is_duplicate_key(&self) -> (b: bool)
        ensures
            b == (self@.code == WT_DUPLICATE_KEY),
    {
        self.code == WT_DUPLICATE_KEY
    }

    /// Whether this is a rollback error.
    pub fn is_rollback(&self) -> (b: bool)
        ensures
            b == (self@.code == WT_ROLLBACK),
    {
        self.code == WT_ROLLBACK
    }

    /// The text that displays the error: `WiredTiger error {code}: {message}`.
    pub fn to_display_string(&self) -> (s: String)
        ensures
            s@ == "WiredTiger error "@ + decimal(self@.code as int) + ": "@ + self@.message,
    {
        let mut s = String::from_str("WiredTiger error ");
        push_decimal(&mut s, self.code as i64);
        s.append(": ");
        s.append(self.message.as_str());
        s
    }
}

/// An error is at most one of "not found", "duplicate key" and "rollback".
pub proof fn lemma_error_kinds_exclusive(e: ErrorView)
    ensures
        !(e.code == WT_NOTFOUND && e.code == WT_DUPLICATE_KEY),
        !(e.code == WT_NOTFOUND && e.code == WT_ROLLBACK),
        !(e.code == WT_DUPLICATE_KEY && e.code == WT_ROLLBACK),
{
}

/// The number that a sequence of decimal digits writes.
pub open spec fn digits_value(s: Seq<char>) -> int
    decreases s.len(),
{
    if s.len() == 0 {
        0
    } else {
        digits_value(s.drop_last()) * 10 + ((s.last() as int) - 48)
    }
}

/// The decimal rendering of a natural number consists of the digits `0` to
/// `9`, has no leading zero, and reads back as the number.
pub proof fn lemma_decimal_digits_read_back(n: nat)
    ensures
        decimal_digits(n).len() >= 1,
        forall|i: int|
            0 <= i < decimal_digits(n).len() ==> '0' <= #[trigger] decimal_digits(n)[i] <= '9',
        decimal_digits(n).len() > 1 ==> decimal_digits(n)[0] != '0',
        digits_value(decimal_digits(n)) == n,
    decreases n,
{
    let d = digit_char(n % 10);
    assert(d as int == (n % 10) + 48);
    if n >= 10 {
        lemma_decimal_digits_read_back(n / 10);
        let pre = decimal_digits(n / 10);
        let s = decimal_digits(n);
        assert(s == pre.push(d));
        assert(s.drop_last() =~= pre);
        assert forall|i: int| 0 <= i < s.len() implies '0' <= #[trigger] s[i] <= '9' by {
            if i < pre.len() {
                assert(s[i] == pre[i]);
            }
        }
        if pre.len() == 1 {
            assert(digits_value(pre.drop_last()) == 0);
            assert(pre[0] as int - 48 == n / 10);
        }
        assert(s[0] == pre[0]);
        assert(s.last() == d);
        assert(digits_value(s) == digits_value(pre) * 10 + (d as int - 48));
        assert(n == (n / 10) * 10 + n % 10) by (nonlinear_arith);
    } else {
        let s = decimal_digits(n);
        assert(s.drop_last() =~= Seq::<char>::empty());
        assert(s.last() == d);
        assert(digits_value(s) == digits_value(s.drop_last()) * 10 + (d as int - 48));
    }
}

/// The decimal rendering of an integer is its magnitude's digits, after a
/// minus sign for a negative integer; it reads back as the integer.
pub proof fn lemma_decimal_read_back(x: int)
    ensures
        x < 0 ==> decimal(x)[0] == '-' && decimal(x).skip(1) == decimal_digits((-x) as nat)
            && -digits_value(decimal(x).skip(1)) == x,
        x >= 0 ==> decimal(x) == decimal_digits(x as nat) && digits_value(decimal(x)) == x,
{
    if x < 0 {
        lemma_decimal_digits_read_back((-x) as nat);
        assert(decimal(x).skip(1) =~= decimal_digits((-x) as nat));
    } else {
        lemma_decimal_digits_read_back(x as nat);
    }
}

/// An error that the engine does not describe is described as
/// `WiredTiger error code ` followed by its code; otherwise the engine's
/// description is the message.
pub proof fn lemma_code_message_forms(code: i32, description: Seq<char>)
    ensures
        code_message(code, None) == "WiredTiger error code "@ + decimal(code as int),
        code_message(code, Some(description)) == description,
{
}

/// The outcome of a WiredTiger return code: success for 0, otherwise the
/// error for the code. `strerror` is the engine's description of the code.
pub fn check_error(code: i32, strerror: Option<&str>) -> (r: Result<(), Error>)
    ensures
        r is Ok <==> code == 0,
        r matches Err(e) ==> e@.code == code && e@.message == code_message(code, match strerror {
            Some(m) => Some(m@),
            None => None,
        }),
{
    if code == 0 {
        Ok(())
    } else {
        Err(Error::from_code(code, strerror))
    }
}

} // verus!
