//! The text of biome formulas.
//!
//! A formula is a number, a name, or an instruction: a name, an opening
//! bracket, arguments separated by commas, and a closing bracket, where
//! each argument is a formula again. This module tells the parts of an
//! instruction apart; what a name or a number stands for is the caller's
//! to say.

use vstd::prelude::*;
use vstd::string::StrSliceExecFns;
use vstd::string::StringExecFns;

verus! {

/// The character is white space: one of the twenty-five characters that
/// Unicode gives the property `White_Space`.
pub open spec fn is_space(c: char) -> bool {
    let code = c as u32;
    ||| 0x0009 <= code <= 0x000D
    ||| code == 0x0020
    ||| code == 0x0085
    ||| code == 0x00A0
    ||| code == 0x1680
    ||| 0x2000 <= code <= 0x200A
    ||| code == 0x2028
    ||| code == 0x2029
    ||| code == 0x202F
    ||| code == 0x205F
    ||| code == 0x3000
}

/// How many characters of white space a text begins with.
pub open spec fn leading_spaces(text: Seq<char>) -> int
    decreases text.len(),
{
    if text.len() == 0 || !is_space(text[0]) {
        0
    } else {
        1 + leading_spaces(text.drop_first())
    }
}

/// How many characters of white space a text ends with.
pub open spec fn trailing_spaces(text: Seq<char>) -> int
    decreases text.len(),
{
    if text.len() == 0 || !is_space(text.last()) {
        0
    } else {
        1 + trailing_spaces(text.drop_last())
    }
}

/// The text without the white space at its two ends.
pub open spec fn trimmed(text: Seq<char>) -> Seq<char> {
    if leading_spaces(text) == text.len() {
        Seq::empty()
    } else {
        text.subrange(leading_spaces(text), text.len() - trailing_spaces(text))
    }
}

/// The depth of brackets after a character, given the depth before it.
pub open spec fn depth_after(depth: int, c: char) -> int {
    if c == '(' {
        depth + 1
    } else if c == ')' {
        depth - 1
    } else {
        depth
    }
}

/// The arguments found from character `i` of the text on, where the brackets
/// opened and not closed before `i` number `depth`, and the argument at hand
/// began at `start`. A comma outside all brackets ends an argument; the
/// bracket that closes more than was opened ends the last one, and what
/// follows it is not looked at. A text that ends before that bracket ends
/// no argument: the one at hand is left out.
pub open spec fn instruction_params_from(text: Seq<char>, i: int, depth: int, start: int) -> Seq<
    Seq<char>,
>
    decreases text.len() - i,
{
    if i < 0 || i >= text.len() {
        Seq::empty()
    } else {
        let after = depth_after(depth, text[i]);
        if after == -1 {
            seq![trimmed(text.subrange(start, i))]
        } else if after == 0 && text[i] == ',' {
            seq![trimmed(text.subrange(start, i))] + instruction_params_from(
                text,
                i + 1,
                0,
                i + 1,
            )
        } else {
            instruction_params_from(text, i + 1, after, start)
        }
    }
}

/// The arguments of an instruction, given the text that follows its
/// opening bracket: each without the white space around it.
pub open spec fn instruction_params(text: Seq<char>) -> Seq<Seq<char>> {
    instruction_params_from(text, 0, 0, 0)
}

/// The place of the first opening bracket of a text, or its length where it
/// has none.
pub open spec fn first_bracket(text: Seq<char>) -> int
    decreases text.len(),
{
    if text.len() == 0 || text[0] == '(' {
        0
    } else {
        1 + first_bracket(text.drop_first())
    }
}

/// What each of a sequence of strings holds.
pub open spec fn texts(strings: Seq<String>) -> Seq<Seq<char>> {
    Seq::new(strings.len(), |k: int| strings[k]@)
}

/// The white space counted at the two ends of a text is white space, and
/// the count stops at the first character that is none.
pub proof fn lemma_spaces_at_the_ends(text: Seq<char>)
    ensures
        0 <= leading_spaces(text) <= text.len(),
        0 <= trailing_spaces(text) <= text.len(),
        forall|k: int| 0 <= k < leading_spaces(text) ==> is_space(#[trigger] text[k]),
        forall|k: int|
            text.len() - trailing_spaces(text) <= k < text.len() ==> is_space(#[trigger] text[k]),
        leading_spaces(text) < text.len() ==> !is_space(text[leading_spaces(text)]),
        trailing_spaces(text) < text.len() ==> !is_space(
            text[text.len() - trailing_spaces(text) - 1],
        ),
    decreases text.len(),
{
    if text.len() > 0 {
        if is_space(text[0]) {
            let rest = text.drop_first();
            lemma_spaces_at_the_ends(rest);
            assert forall|k: int| 0 <= k < leading_spaces(text) implies is_space(
                #[trigger] text[k],
            ) by {
                if k > 0 {
                    assert(text[k] == rest[k - 1]);
                }
            }
            if leading_spaces(text) < text.len() {
                assert(text[leading_spaces(text)] == rest[leading_spaces(rest)]);
            }
        }
        if is_space(text.last()) {
            let rest = text.drop_last();
            lemma_spaces_at_the_ends(rest);
            assert forall|k: int|
                text.len() - trailing_spaces(text) <= k < text.len() implies is_space(
                #[trigger] text[k],
            ) by {
                if k < text.len() - 1 {
                    assert(text[k] == rest[k]);
                }
            }
            if trailing_spaces(text) < text.len() {
                assert(text[text.len() - trailing_spaces(text) - 1] == rest[rest.len()
                    - trailing_spaces(rest) - 1]);
            }
        }
    }
}

/// A trimmed text neither begins nor ends with white space, and it is the
/// text itself where the text does neither.
pub proof fn lemma_trimmed(text: Seq<char>)
    ensures
        trimmed(text).len() <= text.len(),
        trimmed(text).len() > 0 ==> !is_space(trimmed(text)[0]) && !is_space(
            trimmed(text).last(),
        ),
        text.len() > 0 && !is_space(text[0]) && !is_space(text.last()) ==> trimmed(text) == text,
        trimmed(trimmed(text)) == trimmed(text),
{
    lemma_spaces_at_the_ends(text);
    let a = leading_spaces(text);
    let b = text.len() - trailing_spaces(text);
    if a < text.len() {
        // The character at `a` is no white space, so the count from the end stops after it.
        if b <= a {
            assert(is_space(text[a]));
        }
        let inner = trimmed(text);
        assert(inner[0] == text[a]);
        assert(inner.last() == text[b - 1]);
        assert(leading_spaces(inner) == 0);
        assert(trailing_spaces(inner) == 0);
        assert(inner.subrange(0, inner.len() as int) =~= inner);
    }
    if text.len() > 0 && !is_space(text[0]) && !is_space(text.last()) {
        assert(text.subrange(0, text.len() as int) =~= text);
    }
}

/// Whether a character is white space.
pub fn is_whitespace(c: char) -> (r: bool)
    ensures
        r == is_space(c),
{
    let code = c as u32;
    (0x0009 <= code && code <= 0x000D) || code == 0x0020 || code == 0x0085 || code == 0x00A0
        || code == 0x1680 || (0x2000 <= code && code <= 0x200A) || code == 0x2028 || code
        == 0x2029 || code == 0x202F || code == 0x205F || code == 0x3000
}

/// The characters of a text, in order.
fn chars_of(text: &str) -> (r: Vec<char>)
    ensures
        r@ == text@,
{
    let mut chars: Vec<char> = Vec::new();
    for c in it: text.chars()
        invariant
            chars@ == it.seq().take(it.index() as int),
            it.seq() == text@,
    {
        chars.push(c);
    }
    chars
}

/// The bounds of the part of `chars` between `start` and `end` that is left
/// once the white space at its two ends is taken off.
fn trim_bounds(chars: &Vec<char>, start: usize, end: usize) -> (r: (usize, usize))
    requires
        start <= end <= chars@.len(),
    ensures
        start <= r.0 <= r.1 <= end,
        chars@.subrange(r.0 as int, r.1 as int) == trimmed(
            chars@.subrange(start as int, end as int),
        ),
{
    let ghost text = chars@.subrange(start as int, end as int);
    let mut a = start;
    assert(text.subrange(0, text.len() as int) =~= text);
    while a < end && is_whitespace(chars[a])
        invariant
            start <= a <= end <= chars@.len(),
            text == chars@.subrange(start as int, end as int),
            leading_spaces(text) == (a - start) + leading_spaces(
                text.subrange(a - start, text.len() as int),
            ),
        decreases end - a,
    {
        let ghost rest = text.subrange(a - start, text.len() as int);
        assert(rest[0] == chars@[a as int]);
        assert(rest.drop_first() =~= text.subrange(a - start + 1, text.len() as int));
        a += 1;
    }
    proof {
        let rest = text.subrange(a - start, text.len() as int);
        if a < end {
            assert(rest[0] == chars@[a as int]);
        }
        assert(leading_spaces(rest) == 0);
        assert(leading_spaces(text) == a - start);
    }
    if a == end {
        assert(chars@.subrange(a as int, a as int) =~= Seq::<char>::empty());
        return (a, a);
    }
    let mut b = end;
    while is_whitespace(chars[b - 1])
        invariant
            start <= a < b <= end <= chars@.len(),
            !is_space(chars@[a as int]),
            text == chars@.subrange(start as int, end as int),
            trailing_spaces(text) == (end - b) + trailing_spaces(text.subrange(0, b - start)),
        decreases b - a,
    {
        let ghost rest = text.subrange(0, b - start);
        assert(rest.last() == chars@[b - 1]);
        assert(rest.drop_last() =~= text.subrange(0, b - start - 1));
        b -= 1;
    }
    proof {
        let rest = text.subrange(0, b - start);
        assert(rest.last() == chars@[b - 1]);
        assert(trailing_spaces(rest) == 0);
        assert(chars@.subrange(a as int, b as int) =~= text.subrange(
            leading_spaces(text),
            text.len() - trailing_spaces(text),
        ));
    }
    (a, b)
}

/// The part of a text between two places, trimmed, as a string of its own.
fn trimmed_part(string: &str, chars: &Vec<char>, start: usize, end: usize) -> (r: String)
    requires
        chars@ == string@,
        start <= end <= chars@.len(),
    ensures
        r@ == trimmed(string@.subrange(start as int, end as int)),
{
    let (a, b) = trim_bounds(chars, start, end);
    String::from_str(string.substring_char(a, b))
}

/// The arguments of an instruction, given the text that follows its
/// opening bracket.
pub fn get_instruction_params(string: &str) -> (params: Vec<String>)
    ensures
        texts(params@) == instruction_params(string@),
{
    let chars = chars_of(string);
    let mut params: Vec<String> = Vec::new();
    let mut scope_depth: i128 = 0;
    let mut start: usize = 0;
    let mut i: usize = 0;
    assert(texts(params@) =~= Seq::<Seq<char>>::empty());
    while i < chars.len()
        invariant
            chars@ == string@,
            0 <= start <= i <= chars@.len(),
            0 <= scope_depth <= i,
            texts(params@) + instruction_params_from(string@, i as int, scope_depth as int, start as int)
                == instruction_params(string@),
        decreases chars@.len() - i,
    {
        let c = chars[i];
        let ghost before = texts(params@);
        if c == '(' {
            scope_depth += 1;
        }
        if c == ')' {
            scope_depth -= 1;
        }
        if scope_depth == -1 {
            params.push(trimmed_part(string, &chars, start, i));
            assert(texts(params@) =~= before + seq![
                trimmed(string@.subrange(start as int, i as int)),
            ]);
            return params;
        }
        if scope_depth == 0 && c == ',' {
            params.push(trimmed_part(string, &chars, start, i));
            assert(texts(params@) =~= before + seq![
                trimmed(string@.subrange(start as int, i as int)),
            ]);
            start = i + 1;
        }
        i += 1;
    }
    assert(instruction_params_from(string@, i as int, scope_depth as int, start as int)
        =~= Seq::<Seq<char>>::empty());
    params
}

/// The name and the arguments of an instruction: the text before its first
/// opening bracket, as it stands, and the arguments that follow the
/// bracket. A text without an opening bracket is no instruction.
pub fn split_instruction(instruction: &str) -> (r: Option<(String, Vec<String>)>)
    ensures
        r is Some <==> first_bracket(instruction@) < instruction@.len(),
        r matches Some(parts) ==> parts.0@ == instruction@.subrange(
            0,
            first_bracket(instruction@),
        ) && texts(parts.1@) == instruction_params(
            instruction@.subrange(first_bracket(instruction@) + 1, instruction@.len() as int),
        ),
{
    let chars = chars_of(instruction);
    let n = chars.len();
    let mut p: usize = 0;
    assert(instruction@.subrange(0, n as int) =~= instruction@);
    while p < n && chars[p] != '('
        invariant
            p <= n == chars@.len(),
            chars@ == instruction@,
            first_bracket(instruction@) == p + first_bracket(
                instruction@.subrange(p as int, n as int),
            ),
        decreases n - p,
    {
        let ghost rest = instruction@.subrange(p as int, n as int);
        assert(rest[0] == chars@[p as int]);
        assert(rest.drop_first() =~= instruction@.subrange(p + 1, n as int));
        p += 1;
    }
    proof {
        let rest = instruction@.subrange(p as int, n as int);
        if p < n {
            assert(rest[0] == chars@[p as int]);
        }
        assert(first_bracket(rest) == 0);
    }
    if p == n {
        return None;
    }
    let name = String::from_str(instruction.substring_char(0, p));
    let params = get_instruction_params(instruction.substring_char(p + 1, n));
    Some((name, params))
}

} // verus!
