use vstd::prelude::*;
use vstd::string::StringExecFns;

verus! {

/// A cell of a result row, by the type of its column: text, a name, a
/// 4-byte integer, or a type the client does not show.
#[derive(Debug, PartialEq, Eq)]
pub enum PgCell {
    Text(String),
    Name(String),
    Int4(i32),
    Other,
}

/// The character of a decimal digit.
pub open spec fn digit_char(d: nat) -> char {
    if d == 0 {
        '0'
    } else if d == 1 {
        '1'
    } else if d == 2 {
        '2'
    } else if d == 3 {
        '3'
    } else if d == 4 {
        '4'
    } else if d == 5 {
        '5'
    } else if d == 6 {
        '6'
    } else if d == 7 {
        '7'
    } else if d == 8 {
        '8'
    } else {
        '9'
    }
}

/// The decimal digits of `n`, most significant first, without leading zeros.
pub open spec fn digits(n: nat) -> Seq<char>
    decreases n,
{
    if n < 10 {
        seq![digit_char(n)]
    } else {
        digits(n / 10).push(digit_char(n % 10))
    }
}

/// `n` written in decimal, with a minus sign when it is negative.
pub open spec fn decimal(n: int) -> Seq<char> {
    if n < 0 {
        seq!['-'] + digits((-n) as nat)
    } else {
        digits(n as nat)
    }
}

/// The text a cell is shown as: text and names as they are, integers in
/// decimal, cells of other types empty.
pub open spec fn cell_text(c: PgCell) -> Seq<char> {
    match c {
        PgCell::Text(s) => s@,
        PgCell::Name(s) => s@,
        PgCell::Int4(n) => decimal(n as int),
        PgCell::Other => Seq::empty(),
    }
}

/// The decimal digits of a number are digits, at least one, and the first
/// is 0 only for 0.
pub proof fn lemma_digits_shape(n: nat)
    ensures
        digits(n).len() > 0,
        digits(n)[0] == '0' <==> n == 0,
        forall|i: int| 0 <= i < digits(n).len() ==> '0' <= #[trigger] digits(n)[i] <= '9',
    decreases n,
{
    if n >= 10 {
        lemma_digits_shape(n / 10);
        assert(digits(n)[0] == digits(n / 10)[0]);
    }
}

/// The one-character text of a decimal digit.
fn digit_str(d: u32) -> (s: &'static str)
    requires
        d < 10,
    ensures
        s@ == seq![digit_char(d as nat)],
{
    proof {
        reveal_strlit("0");
        reveal_strlit("1");
        reveal_strlit("2");
        reveal_strlit("3");
        reveal_strlit("4");
        reveal_strlit("5");
        reveal_strlit("6");
        reveal_strlit("7");
        reveal_strlit("8");
        reveal_strlit("9");
    }
    if d == 0 {
        "0"
    } else if d == 1 {
        "1"
    } else if d == 2 {
        "2"
    } else if d == 3 {
        "3"
    } else if d == 4 {
        "4"
    } else if d == 5 {
        "5"
    } else if d == 6 {
        "6"
    } else if d == 7 {
        "7"
    } else if d == 8 {
        "8"
    } else {
        "9"
    }
}

/// The decimal digits of `n`.
fn digits_string(n: u32) -> (s: String)
    ensures
        s@ == digits(n as nat),
    decreases n,
{
    if n < 10 {
        String::from_str(digit_str(n))
    } else {
        let mut s = digits_string(n / 10);
        s.append(digit_str(n % 10));
        s
    }
}

/// `n` written in decimal.
pub fn int4_to_string(n: i32) -> (s: String)
    ensures
        s@ == decimal(n as int),
        read_decimal(s@) == n as int,
{
    proof {
        lemma_decimal_reads_back(n as int);
    }
    if n < 0 {
        let magnitude: u32 = (-(n as i64)) as u32;
        proof {
            reveal_strlit("-");
        }
        let mut s = String::from_str("-");
        let d = digits_string(magnitude);
        s.append(d.as_str());
        s
    } else {
        digits_string(n as u32)
    }
}

/// The text a cell is shown as.
pub fn stringify_type_info(cell: &PgCell) -> (s: String)
    ensures
        s@ == cell_text(*cell),
{
    match cell {
        PgCell::Text(t) => t.clone(),
        PgCell::Name(t) => t.clone(),
        PgCell::Int4(n) => int4_to_string(*n),
        PgCell::Other => String::new(),
    }
}

/// The texts a row of cells is shown as, in the order of the columns.
pub fn stringify(row: &Vec<PgCell>) -> (texts: Vec<String>)
    ensures
        texts@.len() == row@.len(),
        forall|i: int| 0 <= i < row@.len() ==> #[trigger] texts@[i]@ == cell_text(row@[i]),
{
    let mut texts: Vec<String> = Vec::new();
    let mut i: usize = 0;
    while i < row.len()
        invariant
            i <= row@.len(),
            texts@.len() == i,
            forall|j: int| 0 <= j < i ==> #[trigger] texts@[j]@ == cell_text(row@[j]),
        decreases row@.len() - i,
    {
        texts.push(stringify_type_info(&row[i]));
        i = i + 1;
    }
    texts
}

/// The number that decimal digits stand for, read most significant first,
/// each digit by its character code less that of '0'.
pub open spec fn read_digits(s: Seq<char>) -> int
    decreases s.len(),
{
    if s.len() == 0 {
        0
    } else {
        read_digits(s.drop_last()) * 10 + (s.last() as int - '0' as int)
    }
}

/// The number that a decimal text stands for: digits, after a minus sign
/// for a negative number.
pub open spec fn read_decimal(s: Seq<char>) -> int {
    if s.len() > 0 && s[0] == '-' {
        -read_digits(s.drop_first())
    } else {
        read_digits(s)
    }
}

/// The character of digit `d` is the one whose code is that of '0' plus
/// `d`, so the ten digits are written with ten different characters.
pub proof fn lemma_digit_char_code(d: nat)
    requires
        d < 10,
    ensures
        digit_char(d) as int == '0' as int + d,
{
}

/// The decimal digits of `n` read back as `n`.
pub proof fn lemma_digits_read_back(n: nat)
    ensures
        read_digits(digits(n)) == n,
    decreases n,
{
    if n < 10 {
        lemma_digit_char_code(n);
        let s = digits(n);
        assert(s.drop_last() =~= Seq::<char>::empty());
        assert(read_digits(s.drop_last()) == 0);
        assert(s.last() == digit_char(n));
    } else {
        lemma_digits_read_back(n / 10);
        lemma_digit_char_code(n % 10);
        let s = digits(n);
        assert(s.drop_last() =~= digits(n / 10));
        assert(s.last() == digit_char(n % 10));
        assert(read_digits(s) == read_digits(digits(n / 10)) * 10 + (digit_char(n % 10) as int - '0' as int));
        assert((n / 10) * 10 + n % 10 == n) by (nonlinear_arith);
    }
}

/// The text of every 4-byte integer reads back as the integer: the sign
/// and the decimal digits that `int4_to_string` writes give `n` again.
pub proof fn lemma_decimal_reads_back(n: int)
    ensures
        read_decimal(decimal(n)) == n,
{
    if n < 0 {
        let m = (-n) as nat;
        lemma_digits_read_back(m);
        let s = decimal(n);
        assert(s[0] == '-');
        assert(s.drop_first() =~= digits(m));
    } else {
        lemma_digits_read_back(n as nat);
        lemma_digits_shape(n as nat);
        assert('0' <= digits(n as nat)[0] <= '9');
    }
}

} // verus!
