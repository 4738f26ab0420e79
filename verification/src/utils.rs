//! Pure, stateless utility functions: string transforms, word counting,
//! number classification, and a weak syntactic address check.
use vstd::prelude::*;

verus! {

/// The error kinds of this library. Both are ordinary recoverable
/// values: `NotFound` signals that a requested identifier is absent
/// from the repository, `InvalidInput` that a caller-supplied value
/// violates an operation's precondition.
#[derive(Debug, Clone, Copy, PartialEq, Eq, Structural)]
pub enum CustomError {
    NotFound,
    InvalidInput,
}

impl CustomError {
    /// The human-readable description of the error, one fixed text per
    /// kind.
    pub fn message(&self) -> (r: String)
        ensures
            *self == CustomError::NotFound ==> r@ == "User not found"@,
            *self == CustomError::InvalidInput ==> r@ == "Invalid input"@,
    {
        match self {
            CustomError::NotFound => String::from_str("User not found"),
            CustomError::InvalidInput => String::from_str("Invalid input"),
        }
    }
}

/// Adds two numbers.
pub fn calculate_sum(a: i32, b: i32) -> (r: i32)
    requires
        i32::MIN <= a + b <= i32::MAX,
    ensures
        r == a + b,
{
    a + b
}

/// Classifies an integer into one of five contiguous ranges. The five
/// cases partition the integers: exactly one clause applies to any `n`.
pub fn describe_number(n: i32) -> (r: String)
    ensures
        n == 0 ==> r@ == "Zero"@,
        1 <= n <= 10 ==> r@ == "Small positive"@,
        11 <= n <= 100 ==> r@ == "Medium positive"@,
        n > 100 ==> r@ == "Large positive"@,
        n < 0 ==> r@ == "Negative"@,
{
    if n == 0 {
        String::from_str("Zero")
    } else if 1 <= n && n <= 10 {
        String::from_str("Small positive")
    } else if 11 <= n && n <= 100 {
        String::from_str("Medium positive")
    } else if n > 100 {
        String::from_str("Large positive")
    } else {
        String::from_str("Negative")
    }
}

/// A deliberately weak syntactic check: an address is plausible when it
/// contains both an `@` and a `.` character, nothing more.
pub fn validate_email(email: &str) -> (r: bool)
    ensures
        r == (email@.contains('@') && email@.contains('.')),
{
    let n = email.unicode_len();
    let mut has_at = false;
    let mut has_dot = false;
    let mut i: usize = 0;
    while i < n
        invariant
            i <= n,
            n == email@.len(),
            has_at == (exists|j: int| 0 <= j < i && email@[j] == '@'),
            has_dot == (exists|j: int| 0 <= j < i && email@[j] == '.'),
        decreases n - i,
    {
        let c = email.get_char(i);
        if c == '@' {
            has_at = true;
        }
        if c == '.' {
            has_dot = true;
        }
        i += 1;
    }
    assert(has_at == email@.contains('@'));
    assert(has_dot == email@.contains('.'));
    has_at && has_dot
}

/// Prefixes every element of a batch with `"Processed: "`. An empty
/// batch is rejected with `InvalidInput`; any non-empty batch succeeds.
pub fn process_data(data: &Vec<String>) -> (r: Result<Vec<String>, CustomError>)
    ensures
        data@.len() == 0 ==> r == Result::<Vec<String>, CustomError>::Err(
            CustomError::InvalidInput,
        ),
        data@.len() > 0 ==> (r matches Ok(out) && out@.len() == data@.len() && forall|i: int|
            0 <= i < data@.len() ==> #[trigger] out@[i]@ == "Processed: "@ + data@[i]@),
{
    if data.len() == 0 {
        return Err(CustomError::InvalidInput);
    }
    let mut out: Vec<String> = Vec::new();
    let mut i: usize = 0;
    while i < data.len()
        invariant
            i <= data@.len(),
            out@.len() == i,
            forall|j: int| 0 <= j < i ==> #[trigger] out@[j]@ == "Processed: "@ + data@[j]@,
        decreases data@.len() - i,
    {
        let mut line = String::from_str("Processed: ");
        line.append(data[i].as_str());
        out.push(line);
        i += 1;
    }
    Ok(out)
}

/// Reverses the order of the user-perceived characters of `input`.
/// Multi-unit characters stay intact because the walk is over chars,
/// not over bytes.
pub fn reverse_string(input: &str) -> (r: String)
    ensures
        r@ == input@.reverse(),
{
    let n = input.unicode_len();
    let mut r = String::new();
    let mut i: usize = 0;
    while i < n
        invariant
            i <= n,
            n == input@.len(),
            r@ == input@.subrange(n - i, n as int).reverse(),
        decreases n - i,
    {
        let piece = input.substring_char(n - 1 - i, n - i);
        r.append(piece);
        proof {
            assert(r@ =~= input@.subrange(n - i - 1, n as int).reverse());
        }
        i += 1;
    }
    proof {
        assert(input@.subrange(0, n as int) =~= input@);
        assert(r@ =~= input@.reverse());
    }
    r
}

/// Whether `c` carries the Unicode `White_Space` property, the notion
/// of whitespace that separates words.
pub open spec fn is_space_char(c: char) -> bool {
    c == ' ' || c == '\t' || c == '\n' || c == '\r' || c == '\u{000B}' || c == '\u{000C}'
        || c == '\u{0085}' || c == '\u{00A0}' || c == '\u{1680}'
        || ('\u{2000}' <= c && c <= '\u{200A}') || c == '\u{2028}' || c == '\u{2029}'
        || c == '\u{202F}' || c == '\u{205F}' || c == '\u{3000}'
}

/// Executable decision procedure for [`is_space_char`].
fn is_space(c: char) -> (r: bool)
    ensures
        r == is_space_char(c),
{
    c == ' ' || c == '\t' || c == '\n' || c == '\r' || c == '\u{000B}' || c == '\u{000C}'
        || c == '\u{0085}' || c == '\u{00A0}' || c == '\u{1680}'
        || ('\u{2000}' <= c && c <= '\u{200A}') || c == '\u{2028}' || c == '\u{2029}'
        || c == '\u{202F}' || c == '\u{205F}' || c == '\u{3000}'
}

/// Position `i` starts a word of `s`: it holds a non-space character
/// that is either at the front or right after a space.
pub open spec fn is_word_start(s: Seq<char>, i: int) -> bool {
    0 <= i < s.len() && !is_space_char(s[i]) && (i == 0 || is_space_char(s[i - 1]))
}

/// The number of word starts among the first `n` positions of `s`.
pub open spec fn word_count_up_to(s: Seq<char>, n: int) -> int
    decreases n,
{
    if n <= 0 {
        0
    } else {
        word_count_up_to(s, n - 1) + if is_word_start(s, n - 1) {
            1int
        } else {
            0int
        }
    }
}

/// The number of maximal runs of non-whitespace characters in `s`.
pub open spec fn word_count(s: Seq<char>) -> int {
    word_count_up_to(s, s.len() as int)
}

/// Counts the maximal non-whitespace runs of `input`. Leading,
/// trailing and consecutive whitespace contribute no empty words.
pub fn count_words(input: &str) -> (r: usize)
    ensures
        r == word_count(input@),
{
    let n = input.unicode_len();
    let mut count: usize = 0;
    let mut prev_space = true;
    let mut i: usize = 0;
    while i < n
        invariant
            i <= n,
            n == input@.len(),
            count <= i,
            count == word_count_up_to(input@, i as int),
            prev_space == (i == 0 || is_space_char(input@[i as int - 1])),
        decreases n - i,
    {
        let c = input.get_char(i);
        let space = is_space(c);
        if !space && prev_space {
            count += 1;
        }
        prev_space = space;
        i += 1;
    }
    count
}

} // verus!
