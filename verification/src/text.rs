//! Text primitives shared by the validator, the token counter and the
//! diagnostic log: whitespace, blank strings, whitespace-delimited tokens and
//! decimal numerals.

use vstd::prelude::*;

verus! {

/// The characters with the Unicode property `White_Space`: the ASCII controls
/// tab to carriage return, the space, next-line, the no-break space, the ogham
/// space mark, the spaces from en quad to hair space, the line and paragraph
/// separators, the narrow no-break space, the medium mathematical space and the
/// ideographic space.
pub open spec fn is_white_space(c: char) -> bool {
    let n = c as u32;
    ||| 0x09 <= n <= 0x0D
    ||| n == 0x20
    ||| n == 0x85
    ||| n == 0xA0
    ||| n == 0x1680
    ||| 0x2000 <= n <= 0x200A
    ||| n == 0x2028
    ||| n == 0x2029
    ||| n == 0x202F
    ||| n == 0x205F
    ||| n == 0x3000
}

/// A text is blank when nothing but whitespace is in it; the empty text is
/// blank. This is when trimming whitespace from both ends leaves nothing.
pub open spec fn is_blank(s: Seq<char>) -> bool {
    forall|i: int| 0 <= i < s.len() ==> is_white_space(#[trigger] s[i])
}

/// A token starts at `i` when `s[i]` is no whitespace and is the first
/// character of the text or follows a whitespace character.
pub open spec fn starts_token(s: Seq<char>, i: int) -> bool {
    &&& 0 <= i < s.len()
    &&& !is_white_space(s[i])
    &&& (i == 0 || is_white_space(s[i - 1]))
}

/// How many tokens start among the first `n` characters of `s`.
pub open spec fn tokens_before(s: Seq<char>, n: int) -> nat
    decreases n,
{
    if n <= 0 {
        0
    } else {
        tokens_before(s, n - 1) + if starts_token(s, n - 1) {
            1nat
        } else {
            0nat
        }
    }
}

/// The number of whitespace-delimited tokens of a text: its maximal runs of
/// characters that are no whitespace.
pub open spec fn token_count(s: Seq<char>) -> nat {
    tokens_before(s, s.len() as int)
}

/// `char::is_whitespace` of the standard library, which is documented to tell
/// whether a character has the Unicode property `White_Space`. The contract
/// claims that its answer is `is_white_space`, the list of those characters.
#[verifier::external_body]
fn char_is_whitespace(c: char) -> (r: bool)
    ensures
        r == is_white_space(c),
{
    c.is_whitespace()
}

/// A blank text holds no token; in particular the empty text holds none.
pub proof fn lemma_blank_has_no_token(s: Seq<char>)
    requires
        is_blank(s),
    ensures
        token_count(s) == 0,
{
    lemma_blank_prefix_has_no_token(s, s.len() as int);
}

proof fn lemma_blank_prefix_has_no_token(s: Seq<char>, n: int)
    requires
        is_blank(s),
        0 <= n <= s.len(),
    ensures
        tokens_before(s, n) == 0,
    decreases n,
{
    if n > 0 {
        lemma_blank_prefix_has_no_token(s, n - 1);
        assert(is_white_space(s[n - 1]));
    }
}

/// A text that is not blank holds at least one token.
pub proof fn lemma_text_has_token(s: Seq<char>)
    requires
        !is_blank(s),
    ensures
        token_count(s) >= 1,
{
    let i = choose|i: int| 0 <= i < s.len() && !is_white_space(#[trigger] s[i]);
    lemma_token_starts_by(s, i);
    lemma_tokens_before_monotonic(s, i + 1, s.len() as int);
}

proof fn lemma_token_starts_by(s: Seq<char>, i: int)
    requires
        0 <= i < s.len(),
        !is_white_space(s[i]),
    ensures
        tokens_before(s, i + 1) >= 1,
    decreases i,
{
    if i > 0 && !is_white_space(s[i - 1]) {
        lemma_token_starts_by(s, i - 1);
    }
}

proof fn lemma_tokens_before_monotonic(s: Seq<char>, m: int, n: int)
    requires
        m <= n,
    ensures
        tokens_before(s, m) <= tokens_before(s, n),
    decreases n - m,
{
    if m < n {
        lemma_tokens_before_monotonic(s, m, n - 1);
    }
}

/// Whether a text is blank.
pub fn is_blank_str(s: &str) -> (r: bool)
    ensures
        r == is_blank(s@),
{
    for c in it: s.chars()
        invariant
            it.seq() == s@,
            forall|i: int| 0 <= i < it.index() ==> is_white_space(#[trigger] s@[i]),
    {
        if !char_is_whitespace(c) {
            return false;
        }
    }
    true
}

/// Counts the whitespace-delimited tokens of `content`.
pub fn count_tokens_str(content: &str) -> (count: usize)
    ensures
        count == token_count(content@),
{
    let length: usize = content.unicode_len();
    let mut count: usize = 0;
    let mut after_space: bool = true;
    for c in it: content.chars()
        invariant
            it.seq() == content@,
            length == content@.len(),
            count == tokens_before(content@, it.index() as int),
            count <= it.index(),
            after_space == (it.index() == 0 || is_white_space(content@[it.index() - 1])),
    {
        let space = char_is_whitespace(c);
        if !space && after_space {
            count = count + 1;
        }
        after_space = space;
    }
    count
}

/// The view of a text that may be missing.
pub open spec fn optional_text(text: Option<&str>) -> Option<Seq<char>> {
    match text {
        Some(t) => Some(t@),
        None => None,
    }
}

/// Whether two texts hold the same characters.
pub fn same_text(a: &str, b: &str) -> (r: bool)
    ensures
        r == (a@ == b@),
{
    a.to_owned() == b.to_owned()
}

/// The decimal digit for `d`, which is below ten.
pub open spec fn digit_char(d: nat) -> char
    recommends
        d < 10,
{
    (0x30 + d) as char
}

/// The decimal numeral of `n`, without sign, padding or separators.
pub open spec fn decimal(n: nat) -> Seq<char>
    decreases n,
{
    if n < 10 {
        seq![digit_char(n)]
    } else {
        decimal(n / 10).push(digit_char(n % 10))
    }
}

fn digit_text(d: usize) -> (text: &'static str)
    requires
        d < 10,
    ensures
        text@ == seq![digit_char(d as nat)],
{
    proof {
        reveal_strlit("0");
        reveal_strlit("1");
        reveal_strlit("2");
        reveal_strlit("3");
        reveal_strlit("4");
        reveal_strlit("5");
        reveal_strlit("6");
        reveal_strlit("7");
        reveal_strlit("8");
        reveal_strlit("9");
    }
    let text = if d == 0 {
        "0"
    } else if d == 1 {
        "1"
    } else if d == 2 {
        "2"
    } else if d == 3 {
        "3"
    } else if d == 4 {
        "4"
    } else if d == 5 {
        "5"
    } else if d == 6 {
        "6"
    } else if d == 7 {
        "7"
    } else if d == 8 {
        "8"
    } else {
        "9"
    };
    assert(text@ =~= seq![digit_char(d as nat)]);
    text
}

/// Writes `n` as a decimal numeral.
pub fn decimal_string(n: usize) -> (numeral: String)
    ensures
        numeral@ == decimal(n as nat),
    decreases n,
{
    if n < 10 {
        digit_text(n).to_owned()
    } else {
        let mut numeral = decimal_string(n / 10);
        numeral.append(digit_text(n % 10));
        assert(numeral@ =~= decimal(n as nat));
        numeral
    }
}

} // verus!
