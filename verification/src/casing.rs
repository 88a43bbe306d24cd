//! Identifier case conversion (PascalCase and snake_case) for generated code.

use vstd::prelude::*;
use crate::text::{chars_of, string_from_chars};

verus! {

// ─── Character classes ──────────────────────────────────────────────────────

pub open spec fn is_ascii_char(c: char) -> bool {
    (c as u32) < 128
}

pub open spec fn is_ascii_upper(c: char) -> bool {
    'A' <= c && c <= 'Z'
}

pub open spec fn is_ascii_lower(c: char) -> bool {
    'a' <= c && c <= 'z'
}

pub open spec fn is_ascii_digit(c: char) -> bool {
    '0' <= c && c <= '9'
}

pub open spec fn ascii_to_upper(c: char) -> char {
    if is_ascii_lower(c) {
        ((c as u32) - 32) as char
    } else {
        c
    }
}

pub open spec fn ascii_to_lower(c: char) -> char {
    if is_ascii_upper(c) {
        ((c as u32) + 32) as char
    } else {
        c
    }
}

/// The Unicode uppercase mapping of a character.
pub uninterp spec fn uppercase(c: char) -> Seq<char>;

/// The Unicode lowercase mapping of a character.
pub uninterp spec fn lowercase(c: char) -> Seq<char>;

/// The Unicode `Uppercase` property.
pub uninterp spec fn has_uppercase_property(c: char) -> bool;

/// The Unicode `Lowercase` property.
pub uninterp spec fn has_lowercase_property(c: char) -> bool;

/// The Unicode numeric general categories (Nd, Nl, No).
pub uninterp spec fn is_numeric_char(c: char) -> bool;

/// What `char::to_uppercase` yields: for ASCII, `a`–`z` map to `A`–`Z` and
/// every other character to itself; beyond ASCII, the Unicode mapping.
pub open spec fn char_upper(c: char) -> Seq<char> {
    if is_ascii_char(c) {
        seq![ascii_to_upper(c)]
    } else {
        uppercase(c)
    }
}

/// What `char::to_lowercase` yields: for ASCII, `A`–`Z` map to `a`–`z` and
/// every other character to itself; beyond ASCII, the Unicode mapping.
pub open spec fn char_lower(c: char) -> Seq<char> {
    if is_ascii_char(c) {
        seq![ascii_to_lower(c)]
    } else {
        lowercase(c)
    }
}

/// `char::is_uppercase`: among ASCII characters exactly `A`–`Z`.
pub open spec fn char_is_upper(c: char) -> bool {
    if is_ascii_char(c) {
        is_ascii_upper(c)
    } else {
        has_uppercase_property(c)
    }
}

/// `char::is_lowercase`: among ASCII characters exactly `a`–`z`.
pub open spec fn char_is_lower(c: char) -> bool {
    if is_ascii_char(c) {
        is_ascii_lower(c)
    } else {
        has_lowercase_property(c)
    }
}

/// `char::is_numeric`: among ASCII characters exactly `0`–`9`.
pub open spec fn char_is_digit(c: char) -> bool {
    if is_ascii_char(c) {
        is_ascii_digit(c)
    } else {
        is_numeric_char(c)
    }
}

/// `char::to_uppercase`, collected. The contract states the mapping for
/// ASCII characters (as documented) and names it beyond ASCII.
#[verifier::external_body]
pub(crate) fn to_uppercase_chars(c: char) -> (v: Vec<char>)
    ensures
        is_ascii_char(c) ==> v@ == seq![ascii_to_upper(c)],
        !is_ascii_char(c) ==> v@ == uppercase(c),
{
    c.to_uppercase().collect()
}

/// `char::to_lowercase`, collected; the mapping for ASCII is stated, beyond
/// ASCII it is named.
#[verifier::external_body]
fn to_lowercase_chars(c: char) -> (v: Vec<char>)
    ensures
        is_ascii_char(c) ==> v@ == seq![ascii_to_lower(c)],
        !is_ascii_char(c) ==> v@ == lowercase(c),
{
    c.to_lowercase().collect()
}

/// `char::is_uppercase`: for ASCII the letters `A`–`Z` (as documented);
/// beyond ASCII the Unicode `Uppercase` property, which the contract names.
#[verifier::external_body]
fn char_is_uppercase(c: char) -> (b: bool)
    ensures
        is_ascii_char(c) ==> (b <==> is_ascii_upper(c)),
        !is_ascii_char(c) ==> (b <==> has_uppercase_property(c)),
{
    c.is_uppercase()
}

/// `char::is_lowercase`: for ASCII the letters `a`–`z` (as documented);
/// beyond ASCII the Unicode `Lowercase` property, which the contract names.
#[verifier::external_body]
fn char_is_lowercase(c: char) -> (b: bool)
    ensures
        is_ascii_char(c) ==> (b <==> is_ascii_lower(c)),
        !is_ascii_char(c) ==> (b <==> has_lowercase_property(c)),
{
    c.is_lowercase()
}

/// `char::is_numeric`: for ASCII the digits `0`–`9` (as documented); beyond
/// ASCII the Unicode numeric categories, which the contract names.
#[verifier::external_body]
fn char_is_numeric(c: char) -> (b: bool)
    ensures
        is_ascii_char(c) ==> (b <==> is_ascii_digit(c)),
        !is_ascii_char(c) ==> (b <==> is_numeric_char(c)),
{
    c.is_numeric()
}

/// Word separators: underscore, hyphen and space.
pub open spec fn is_separator(c: char) -> bool {
    c == '_' || c == '-' || c == ' '
}

// ─── PascalCase ─────────────────────────────────────────────────────────────

/// State after a prefix: the output so far and whether the next character
/// starts a word.
pub open spec fn pascal_state(s: Seq<char>) -> (Seq<char>, bool)
    decreases s.len(),
{
    if s.len() == 0 {
        (Seq::empty(), true)
    } else {
        let (out, cap) = pascal_state(s.drop_last());
        let ch = s.last();
        if is_separator(ch) {
            (out, true)
        } else if cap {
            (out + char_upper(ch), false)
        } else {
            (out.push(ch), false)
        }
    }
}

/// Separators are dropped and the first character of every word is
/// uppercased; everything else is kept.
pub open spec fn spec_to_pascal_case(s: Seq<char>) -> Seq<char> {
    pascal_state(s).0
}

/// Converts an identifier in any common casing (snake_case, kebab-case,
/// PascalCase, camelCase, space separated...) to PascalCase. Idempotent on
/// input that is already PascalCase.
pub fn to_pascal_case(input: &str) -> (out: String)
    ensures
        out@ == spec_to_pascal_case(input@),
{
    let chars = chars_of(input);
    let mut out: Vec<char> = Vec::new();
    let mut capitalize_next = true;
    let n = chars.len();
    let mut i: usize = 0;
    while i < n
        invariant
            n == chars@.len(),
            i <= n,
            pascal_state(chars@.take(i as int)) == (out@, capitalize_next),
        decreases n - i,
    {
        let ch = chars[i];
        assert(chars@.take(i + 1).drop_last() =~= chars@.take(i as int));
        if ch == '_' || ch == '-' || ch == ' ' {
            capitalize_next = true;
        } else if capitalize_next {
            let mut up = to_uppercase_chars(ch);
            out.append(&mut up);
            capitalize_next = false;
        } else {
            out.push(ch);
        }
        i = i + 1;
    }
    assert(chars@.take(n as int) =~= chars@);
    string_from_chars(&out)
}

// ─── snake_case ─────────────────────────────────────────────────────────────

/// State after a prefix: the output so far and whether the last character
/// taken was a lowercase letter or a digit.
pub open spec fn snake_state(s: Seq<char>) -> (Seq<char>, bool)
    decreases s.len(),
{
    if s.len() == 0 {
        (Seq::empty(), false)
    } else {
        let (out, prev) = snake_state(s.drop_last());
        let ch = s.last();
        if is_separator(ch) {
            if out.len() > 0 && out.last() != '_' {
                (out.push('_'), false)
            } else {
                (out, false)
            }
        } else if char_is_upper(ch) {
            if prev {
                (out.push('_') + char_lower(ch), false)
            } else {
                (out + char_lower(ch), false)
            }
        } else {
            (out.push(ch), char_is_lower(ch) || char_is_digit(ch))
        }
    }
}

/// Separators become single underscores (none at the start), an uppercase
/// letter that follows a lowercase letter or digit starts a new word, and
/// uppercase letters are lowercased.
pub open spec fn spec_to_snake_case(s: Seq<char>) -> Seq<char> {
    snake_state(s).0
}

/// Converts an identifier in any common casing to snake_case, for use in
/// field, module, and file names.
pub fn to_snake_case(input: &str) -> (out: String)
    ensures
        out@ == spec_to_snake_case(input@),
{
    let v = snake_chars(input);
    string_from_chars(&v)
}

fn snake_chars(input: &str) -> (out: Vec<char>)
    ensures
        out@ == spec_to_snake_case(input@),
{
    let chars = chars_of(input);
    let mut out: Vec<char> = Vec::new();
    let mut prev_was_lower_or_digit = false;
    let n = chars.len();
    let mut i: usize = 0;
    while i < n
        invariant
            n == chars@.len(),
            i <= n,
            snake_state(chars@.take(i as int)) == (out@, prev_was_lower_or_digit),
        decreases n - i,
    {
        let ch = chars[i];
        assert(chars@.take(i + 1).drop_last() =~= chars@.take(i as int));
        if ch == '_' || ch == '-' || ch == ' ' {
            let len = out.len();
            if len > 0 && out[len - 1] != '_' {
                out.push('_');
            }
            prev_was_lower_or_digit = false;
        } else if char_is_uppercase(ch) {
            if prev_was_lower_or_digit {
                out.push('_');
            }
            let mut low = to_lowercase_chars(ch);
            out.append(&mut low);
            prev_was_lower_or_digit = false;
        } else {
            out.push(ch);
            prev_was_lower_or_digit = char_is_lowercase(ch) || char_is_numeric(ch);
        }
        i = i + 1;
    }
    assert(chars@.take(n as int) =~= chars@);
    out
}

// ─── Suffixes ───────────────────────────────────────────────────────────────

pub open spec fn ends_with(s: Seq<char>, suffix: Seq<char>) -> bool {
    suffix.len() <= s.len() && s.subrange(s.len() - suffix.len(), s.len() as int) == suffix
}

/// The snake_case name followed by `_suffix`, unless it already is the
/// suffix or ends with `_suffix`.
pub open spec fn spec_snake_with_suffix(name: Seq<char>, suffix: Seq<char>) -> Seq<char> {
    let snake = spec_to_snake_case(name);
    let marker = seq!['_'] + suffix;
    if snake == suffix || ends_with(snake, marker) {
        snake
    } else {
        snake + marker
    }
}

fn vec_ends_with(s: &Vec<char>, suffix: &Vec<char>) -> (b: bool)
    ensures
        b == ends_with(s@, suffix@),
{
    if suffix.len() > s.len() {
        return false;
    }
    let off = s.len() - suffix.len();
    let mut i: usize = 0;
    while i < suffix.len()
        invariant
            off + suffix@.len() == s@.len(),
            s@.len() == s.len(),
            i <= suffix@.len(),
            forall|j: int| 0 <= j < i ==> s@[off + j] == suffix@[j],
        decreases suffix@.len() - i,
    {
        if s[off + i] != suffix[i] {
            assert(s@.subrange(off as int, s@.len() as int)[i as int] != suffix@[i as int]);
            return false;
        }
        i = i + 1;
    }
    assert(s@.subrange(off as int, s@.len() as int) =~= suffix@);
    true
}

fn vec_eq(a: &Vec<char>, b: &Vec<char>) -> (r: bool)
    ensures
        r == (a@ == b@),
{
    if a.len() != b.len() {
        return false;
    }
    let mut i: usize = 0;
    while i < a.len()
        invariant
            a@.len() == b@.len(),
            i <= a@.len(),
            forall|j: int| 0 <= j < i ==> a@[j] == b@[j],
        decreases a@.len() - i,
    {
        if a[i] != b[i] {
            return false;
        }
        i = i + 1;
    }
    assert(a@ =~= b@);
    true
}

/// snake_cases `name` and appends `_{suffix}` unless it already ends with that
/// suffix, avoiding stutter like `sensor_backend_backend`.
pub fn snake_with_suffix(name: &str, suffix: &str) -> (r: String)
    ensures
        r@ == spec_snake_with_suffix(name@, suffix@),
        r@ == suffix@ || ends_with(r@, seq!['_'] + suffix@),
{
    let mut snake = snake_chars(name);
    let suffix_chars = chars_of(suffix);
    let mut marker: Vec<char> = Vec::new();
    marker.push('_');
    let mut rest = chars_of(suffix);
    marker.append(&mut rest);
    assert(marker@ =~= seq!['_'] + suffix@);
    if vec_eq(&snake, &suffix_chars) || vec_ends_with(&snake, &marker) {
        string_from_chars(&snake)
    } else {
        let ghost before = snake@;
        snake.append(&mut marker);
        assert(snake@.subrange(snake@.len() - (seq!['_'] + suffix@).len(), snake@.len() as int)
            =~= seq!['_'] + suffix@);
        string_from_chars(&snake)
    }
}


// ─── Laws ───────────────────────────────────────────────────────────────────

pub open spec fn all_ascii(s: Seq<char>) -> bool {
    forall|i: int| 0 <= i < s.len() ==> is_ascii_char(#[trigger] s[i])
}

/// Already PascalCase: no separators, and a first character that uppercasing
/// leaves as it is.
pub open spec fn is_pascal_form(s: Seq<char>) -> bool {
    &&& forall|i: int| 0 <= i < s.len() ==> !is_separator(#[trigger] s[i])
    &&& s.len() > 0 ==> char_upper(s[0]) == seq![s[0]]
}

/// Already snake_case: no uppercase letter, no hyphen or space, no leading
/// underscore and no two underscores in a row.
pub open spec fn is_snake_form(s: Seq<char>) -> bool {
    &&& forall|i: int| 0 <= i < s.len() ==> !char_is_upper(#[trigger] s[i]) && s[i] != '-' && s[i] != ' '
    &&& s.len() > 0 ==> s[0] != '_'
    &&& forall|i: int| 1 <= i < s.len() && #[trigger] s[i] == '_' ==> s[i - 1] != '_'
}

proof fn lemma_pascal_fixed(s: Seq<char>)
    requires
        is_pascal_form(s),
    ensures
        pascal_state(s) == (s, s.len() == 0),
    decreases s.len(),
{
    if s.len() > 0 {
        let t = s.drop_last();
        assert forall|i: int| 0 <= i < t.len() implies !is_separator(#[trigger] t[i]) by {
            assert(t[i] == s[i]);
        }
        if t.len() > 0 {
            assert(t[0] == s[0]);
        }
        lemma_pascal_fixed(t);
        assert(!is_separator(s[s.len() - 1]));
        if t.len() == 0 {
            assert(s =~= seq![s[0]]);
        } else {
            assert(s =~= t.push(s.last()));
        }
    }
}

/// PascalCase input comes back unchanged.
pub proof fn lemma_pascal_case_fixes_pascal(s: Seq<char>)
    requires
        is_pascal_form(s),
    ensures
        spec_to_pascal_case(s) == s,
{
    lemma_pascal_fixed(s);
}

proof fn lemma_pascal_output(s: Seq<char>)
    requires
        all_ascii(s),
    ensures
        all_ascii(pascal_state(s).0),
        is_pascal_form(pascal_state(s).0),
        pascal_state(s).0.len() == 0 ==> pascal_state(s).1,
    decreases s.len(),
{
    if s.len() > 0 {
        let t = s.drop_last();
        assert forall|i: int| 0 <= i < t.len() implies is_ascii_char(#[trigger] t[i]) by {
            assert(t[i] == s[i]);
        }
        lemma_pascal_output(t);
        let (out, cap) = pascal_state(t);
        let ch = s.last();
        assert(is_ascii_char(ch));
        let o = pascal_state(s).0;
        if !is_separator(ch) {
            if cap {
                let u = ascii_to_upper(ch);
                assert(is_ascii_char(u) && !is_separator(u));
                assert(o == out + seq![u]);
                assert forall|i: int| 0 <= i < o.len() implies is_ascii_char(#[trigger] o[i]) && !is_separator(o[i]) by {
                    if i < out.len() {
                        assert(o[i] == out[i]);
                    } else {
                        assert(o[i] == u);
                    }
                }
                if out.len() == 0 {
                    assert(o[0] == u);
                    assert(ascii_to_upper(u) == u);
                } else {
                    assert(o[0] == out[0]);
                }
            } else {
                assert(o == out.push(ch));
                assert forall|i: int| 0 <= i < o.len() implies is_ascii_char(#[trigger] o[i]) && !is_separator(o[i]) by {
                    if i < out.len() {
                        assert(o[i] == out[i]);
                    }
                }
                assert(o[0] == out[0]);
            }
        }
    }
}

/// Converting to PascalCase twice gives what converting once gives, for ASCII
/// identifiers.
pub proof fn lemma_pascal_case_idempotent(s: Seq<char>)
    requires
        all_ascii(s),
    ensures
        spec_to_pascal_case(spec_to_pascal_case(s)) == spec_to_pascal_case(s),
{
    lemma_pascal_output(s);
    lemma_pascal_fixed(spec_to_pascal_case(s));
}

proof fn lemma_snake_fixed(s: Seq<char>)
    requires
        is_snake_form(s),
    ensures
        snake_state(s).0 == s,
    decreases s.len(),
{
    if s.len() > 0 {
        let t = s.drop_last();
        assert forall|i: int| 0 <= i < t.len() implies !char_is_upper(#[trigger] t[i]) && t[i] != '-' && t[i] != ' ' by {
            assert(t[i] == s[i]);
        }
        assert forall|i: int| 1 <= i < t.len() && #[trigger] t[i] == '_' implies t[i - 1] != '_' by {
            assert(t[i] == s[i]);
            assert(t[i - 1] == s[i - 1]);
        }
        if t.len() > 0 {
            assert(t[0] == s[0]);
        }
        lemma_snake_fixed(t);
        let ch = s[s.len() - 1];
        assert(!char_is_upper(ch) && ch != '-' && ch != ' ');
        if ch == '_' {
            assert(s.len() > 1);
            assert(t.last() == s[s.len() - 2]);
        }
        assert(s =~= t.push(ch));
    }
}

/// snake_case input comes back unchanged.
pub proof fn lemma_snake_case_fixes_snake(s: Seq<char>)
    requires
        is_snake_form(s),
    ensures
        spec_to_snake_case(s) == s,
{
    lemma_snake_fixed(s);
}

proof fn lemma_snake_output(s: Seq<char>)
    requires
        all_ascii(s),
    ensures
        all_ascii(snake_state(s).0),
        is_snake_form(snake_state(s).0),
        snake_state(s).1 ==> snake_state(s).0.len() > 0 && snake_state(s).0.last() != '_',
    decreases s.len(),
{
    if s.len() > 0 {
        let t = s.drop_last();
        assert forall|i: int| 0 <= i < t.len() implies is_ascii_char(#[trigger] t[i]) by {
            assert(t[i] == s[i]);
        }
        lemma_snake_output(t);
        let (out, prev) = snake_state(t);
        let ch = s.last();
        assert(is_ascii_char(ch));
        let o = snake_state(s).0;
        if is_separator(ch) {
            if out.len() > 0 && out.last() != '_' {
                assert(o == out.push('_'));
                assert forall|i: int| 0 <= i < o.len() implies is_ascii_char(#[trigger] o[i])
                    && !char_is_upper(o[i]) && o[i] != '-' && o[i] != ' ' by {
                    if i < out.len() {
                        assert(o[i] == out[i]);
                    }
                }
                assert forall|i: int| 1 <= i < o.len() && #[trigger] o[i] == '_' implies o[i - 1] != '_' by {
                    if i < out.len() {
                        assert(o[i] == out[i]);
                        assert(o[i - 1] == out[i - 1]);
                    } else {
                        assert(o[i - 1] == out[out.len() - 1]);
                    }
                }
                assert(o[0] == out[0]);
            }
        } else if char_is_upper(ch) {
            let l = ascii_to_lower(ch);
            assert(is_ascii_char(l) && !is_ascii_upper(l) && l != '_' && l != '-' && l != ' ');
            let base = if prev { out.push('_') } else { out };
            assert(o == base + seq![l]);
            assert forall|i: int| 0 <= i < o.len() implies is_ascii_char(#[trigger] o[i])
                && !char_is_upper(o[i]) && o[i] != '-' && o[i] != ' ' by {
                if i < out.len() {
                    assert(o[i] == out[i]);
                } else if i < base.len() {
                    assert(o[i] == '_');
                } else {
                    assert(o[i] == l);
                }
            }
            assert forall|i: int| 1 <= i < o.len() && #[trigger] o[i] == '_' implies o[i - 1] != '_' by {
                if i < out.len() {
                    assert(o[i] == out[i]);
                    assert(o[i - 1] == out[i - 1]);
                } else if i < base.len() {
                    assert(o[i - 1] == out[out.len() - 1]);
                } else {
                    assert(o[i] == l);
                }
            }
            if out.len() > 0 {
                assert(o[0] == out[0]);
            } else if prev {
            } else {
                assert(o[0] == l);
            }
        } else {
            assert(o == out.push(ch));
            assert forall|i: int| 0 <= i < o.len() implies is_ascii_char(#[trigger] o[i])
                && !char_is_upper(o[i]) && o[i] != '-' && o[i] != ' ' by {
                if i < out.len() {
                    assert(o[i] == out[i]);
                }
            }
            assert forall|i: int| 1 <= i < o.len() && #[trigger] o[i] == '_' implies o[i - 1] != '_' by {
                if i < out.len() {
                    assert(o[i] == out[i]);
                    assert(o[i - 1] == out[i - 1]);
                }
            }
            if out.len() > 0 {
                assert(o[0] == out[0]);
            }
        }
    }
}

/// Converting to snake_case twice gives what converting once gives, for ASCII
/// identifiers.
pub proof fn lemma_snake_case_idempotent(s: Seq<char>)
    requires
        all_ascii(s),
    ensures
        spec_to_snake_case(spec_to_snake_case(s)) == spec_to_snake_case(s),
{
    lemma_snake_output(s);
    lemma_snake_fixed(spec_to_snake_case(s));
}

/// Applying `snake_with_suffix` again to its own result, with the same
/// suffix, changes nothing: the suffix never stutters. This holds for ASCII
/// names whose snake_case is non-empty and does not end in an underscore, and
/// for a non-empty ASCII suffix that is already snake_case.
pub proof fn lemma_snake_with_suffix_reapplied(name: Seq<char>, suffix: Seq<char>)
    requires
        all_ascii(name),
        all_ascii(suffix),
        suffix.len() > 0,
        spec_to_snake_case(suffix) == suffix,
        spec_to_snake_case(name).len() > 0,
        spec_to_snake_case(name).last() != '_',
    ensures
        ({
            let r = spec_snake_with_suffix(name, suffix);
            &&& r == suffix || ends_with(r, seq!['_'] + suffix)
            &&& spec_snake_with_suffix(r, suffix) == r
        }),
{
    let snake = spec_to_snake_case(name);
    let marker = seq!['_'] + suffix;
    let r = spec_snake_with_suffix(name, suffix);
    lemma_snake_output(name);
    lemma_snake_output(suffix);
    if snake == suffix || ends_with(snake, marker) {
        lemma_snake_fixed(snake);
    } else {
        let n = snake.len() as int;
        assert(r == snake + marker);
        assert(r.len() == n + 1 + suffix.len());
        assert forall|i: int| 0 <= i < r.len() implies !char_is_upper(#[trigger] r[i]) && r[i]
            != '-' && r[i] != ' ' by {
            if i < n {
                assert(r[i] == snake[i]);
            } else if i == n {
                assert(r[i] == '_');
            } else {
                assert(r[i] == suffix[i - n - 1]);
            }
        }
        assert(r[0] == snake[0]);
        assert forall|i: int| 1 <= i < r.len() && #[trigger] r[i] == '_' implies r[i - 1] != '_' by {
            if i < n {
                assert(r[i] == snake[i]);
                assert(r[i - 1] == snake[i - 1]);
            } else if i == n {
                assert(r[i - 1] == snake[n - 1]);
            } else if i == n + 1 {
                assert(r[i] == suffix[0]);
            } else {
                assert(r[i] == suffix[i - n - 1]);
                assert(r[i - 1] == suffix[i - n - 2]);
            }
        }
        lemma_snake_fixed(r);
        assert(r.subrange(r.len() - marker.len(), r.len() as int) =~= marker);
    }
}

} // verus!
