//! Trimming of the text that a provider returns as its message.

use vstd::prelude::*;

verus! {

/// A set of characters that is stripped from the two ends of a text.
#[derive(Clone, Copy, Debug)]
pub enum CharClass {
    /// The code points with the Unicode property `White_Space`.
    Whitespace,
    /// The double quote and the line feed.
    QuoteOrNewline,
}

/// Whether `c` has the Unicode property `White_Space`.
pub open spec fn is_whitespace(c: char) -> bool {
    let u: u32 = c as u32;
    ||| 0x09 <= u <= 0x0D
    ||| u == 0x20
    ||| u == 0x85
    ||| u == 0xA0
    ||| u == 0x1680
    ||| 0x2000 <= u <= 0x200A
    ||| u == 0x2028
    ||| u == 0x2029
    ||| u == 0x202F
    ||| u == 0x205F
    ||| u == 0x3000
}

/// Whether `c` is a double quote or a line feed.
pub open spec fn is_quote_or_newline(c: char) -> bool {
    c == '"' || c == '\n'
}

impl CharClass {
    /// Membership of `c` in the class.
    pub open spec fn contains(self, c: char) -> bool {
        match self {
            CharClass::Whitespace => is_whitespace(c),
            CharClass::QuoteOrNewline => is_quote_or_newline(c),
        }
    }

    /// Tests membership of `c` in the class.
    pub fn holds(self, c: char) -> (b: bool)
        ensures
            b == self.contains(c),
    {
        match self {
            CharClass::Whitespace => {
                let u: u32 = c as u32;
                (0x09 <= u && u <= 0x0D) || u == 0x20 || u == 0x85 || u == 0xA0 || u == 0x1680
                    || (0x2000 <= u && u <= 0x200A) || u == 0x2028 || u == 0x2029 || u == 0x202F
                    || u == 0x205F || u == 0x3000
            },
            CharClass::QuoteOrNewline => c == '"' || c == '\n',
        }
    }
}

/// `s` without its longest prefix of characters of `class`.
pub open spec fn trim_start(s: Seq<char>, class: CharClass) -> Seq<char>
    decreases s.len(),
{
    if s.len() > 0 && class.contains(s[0]) {
        trim_start(s.drop_first(), class)
    } else {
        s
    }
}

/// `s` without its longest suffix of characters of `class`.
pub open spec fn trim_end(s: Seq<char>, class: CharClass) -> Seq<char>
    decreases s.len(),
{
    if s.len() > 0 && class.contains(s.last()) {
        trim_end(s.drop_last(), class)
    } else {
        s
    }
}

/// `s` with the characters of `class` stripped from both ends.
pub open spec fn trimmed(s: Seq<char>, class: CharClass) -> Seq<char> {
    trim_end(trim_start(s, class), class)
}

/// The commit message that a reply's text stands for: surrounding whitespace
/// is stripped first, then double quotes and line feeds at the two ends.
pub open spec fn cleaned(s: Seq<char>) -> Seq<char> {
    trimmed(trimmed(s, CharClass::Whitespace), CharClass::QuoteOrNewline)
}

/// Whether every character of `s` from `from` up to `to` belongs to `class`.
pub open spec fn all_in_class(s: Seq<char>, class: CharClass, from: int, to: int) -> bool {
    forall|i: int| from <= i < to ==> class.contains(#[trigger] s[i])
}

/// The length of the longest prefix of `s` that lies wholly in `class`.
pub open spec fn leading_run(s: Seq<char>, class: CharClass) -> nat
    decreases s.len(),
{
    if s.len() > 0 && class.contains(s[0]) {
        1 + leading_run(s.drop_first(), class)
    } else {
        0
    }
}

/// Stripping at the start takes the leading run away and nothing else: what
/// is left starts with a character outside the class, or is empty.
pub proof fn lemma_trim_start_is_suffix(s: Seq<char>, class: CharClass)
    ensures
        leading_run(s, class) <= s.len(),
        all_in_class(s, class, 0, leading_run(s, class) as int),
        leading_run(s, class) < s.len() ==> !class.contains(s[leading_run(s, class) as int]),
        trim_start(s, class) == s.subrange(leading_run(s, class) as int, s.len() as int),
    decreases s.len(),
{
    if s.len() > 0 && class.contains(s[0]) {
        let rest = s.drop_first();
        let a = leading_run(rest, class) as int;
        lemma_trim_start_is_suffix(rest, class);
        assert forall|i: int| 0 <= i < a + 1 implies class.contains(#[trigger] s[i]) by {
            if i > 0 {
                assert(s[i] == rest[i - 1]);
            }
        }
        if a < rest.len() {
            assert(s[a + 1] == rest[a]);
        }
        assert(rest.subrange(a, rest.len() as int) =~= s.subrange(a + 1, s.len() as int));
    } else {
        assert(s.subrange(0, s.len() as int) =~= s);
    }
}

/// Stripping at the end takes a suffix that lies wholly in the class: what is
/// left ends with a character outside the class, or is empty.
pub proof fn lemma_trim_end_is_prefix(s: Seq<char>, class: CharClass)
    ensures
        trim_end(s, class).len() <= s.len(),
        trim_end(s, class) == s.subrange(0, trim_end(s, class).len() as int),
        all_in_class(s, class, trim_end(s, class).len() as int, s.len() as int),
        trim_end(s, class).len() > 0 ==> !class.contains(trim_end(s, class).last()),
    decreases s.len(),
{
    if s.len() > 0 && class.contains(s.last()) {
        let rest = s.drop_last();
        let b = trim_end(rest, class).len() as int;
        lemma_trim_end_is_prefix(rest, class);
        assert forall|i: int| b <= i < s.len() implies class.contains(#[trigger] s[i]) by {
            if i < rest.len() {
                assert(s[i] == rest[i]);
            }
        }
        assert(rest.subrange(0, b) =~= s.subrange(0, b));
    } else {
        assert(s.subrange(0, s.len() as int) =~= s);
    }
}

/// Trimming keeps one stretch of the text as it stands, interior included.
/// All that it drops before and after that stretch lies in the class, and the
/// stretch neither starts nor ends with a character of the class.
pub proof fn lemma_trimmed_is_interior(s: Seq<char>, class: CharClass)
    ensures
        leading_run(s, class) + trimmed(s, class).len() <= s.len(),
        trimmed(s, class) == s.subrange(
            leading_run(s, class) as int,
            (leading_run(s, class) + trimmed(s, class).len()) as int,
        ),
        all_in_class(s, class, 0, leading_run(s, class) as int),
        all_in_class(
            s,
            class,
            (leading_run(s, class) + trimmed(s, class).len()) as int,
            s.len() as int,
        ),
        trimmed(s, class).len() > 0 ==> !class.contains(trimmed(s, class)[0]) && !class.contains(
            trimmed(s, class).last(),
        ),
{
    let a = leading_run(s, class) as int;
    let tail = s.subrange(a, s.len() as int);
    lemma_trim_start_is_suffix(s, class);
    lemma_trim_end_is_prefix(tail, class);
    let t = trimmed(s, class);
    let b = a + t.len();
    assert(t =~= s.subrange(a, b));
    assert forall|i: int| b <= i < s.len() implies class.contains(#[trigger] s[i]) by {
        assert(s[i] == tail[i - a]);
    }
    if t.len() > 0 {
        assert(t[0] == s[a]);
    }
}

/// A text whose outermost kept characters stand at `a` and `b - 1` is trimmed
/// to exactly the range from `a` up to `b`.
pub proof fn lemma_trimmed_is_range(s: Seq<char>, class: CharClass, a: int, b: int)
    requires
        0 <= a < b <= s.len(),
        all_in_class(s, class, 0, a),
        all_in_class(s, class, b, s.len() as int),
        !class.contains(s[a]),
        !class.contains(s[b - 1]),
    ensures
        trimmed(s, class) == s.subrange(a, b),
{
    let t = trimmed(s, class);
    let start = leading_run(s, class) as int;
    lemma_trim_start_is_suffix(s, class);
    lemma_trimmed_is_interior(s, class);
    assert(start == a) by {
        if start < a {
            assert(class.contains(s[start]));
        } else if start > a {
            assert(class.contains(s[a]));
        }
    }
    assert(start + t.len() == b) by {
        if start + t.len() < b {
            assert(class.contains(s[b - 1]));
        } else if start + t.len() > b {
            assert(t.last() == s[start + t.len() - 1]);
            assert(class.contains(s[start + t.len() - 1]));
        }
    }
}

/// A text that lies wholly in the class is trimmed to nothing.
pub proof fn lemma_trimmed_all_in_class(s: Seq<char>, class: CharClass)
    requires
        all_in_class(s, class, 0, s.len() as int),
    ensures
        trimmed(s, class) == Seq::<char>::empty(),
{
    let start = leading_run(s, class) as int;
    lemma_trim_start_is_suffix(s, class);
    lemma_trimmed_is_interior(s, class);
    if start < s.len() {
        assert(class.contains(s[start]));
    }
    assert(trimmed(s, class) =~= Seq::<char>::empty());
}

/// The place in `s` at which its cleaned text starts.
pub open spec fn cleaned_start(s: Seq<char>) -> nat {
    leading_run(s, CharClass::Whitespace) + leading_run(
        trimmed(s, CharClass::Whitespace),
        CharClass::QuoteOrNewline,
    )
}

/// Whether cleaning may drop `c` from an end of a text.
pub open spec fn is_strippable(c: char) -> bool {
    is_whitespace(c) || is_quote_or_newline(c)
}

/// Cleaning keeps one stretch of the text as it stands, interior included.
/// All that it drops before and after that stretch is whitespace, double
/// quotes and line feeds, and the stretch neither starts nor ends with a
/// double quote or a line feed.
pub proof fn lemma_cleaned_is_interior(s: Seq<char>)
    ensures
        cleaned_start(s) + cleaned(s).len() <= s.len(),
        cleaned(s) == s.subrange(
            cleaned_start(s) as int,
            (cleaned_start(s) + cleaned(s).len()) as int,
        ),
        forall|i: int| 0 <= i < cleaned_start(s) ==> is_strippable(#[trigger] s[i]),
        forall|i: int|
            cleaned_start(s) + cleaned(s).len() <= i < s.len() ==> is_strippable(#[trigger] s[i]),
        cleaned(s).len() > 0 ==> !is_quote_or_newline(cleaned(s)[0]) && !is_quote_or_newline(
            cleaned(s).last(),
        ),
{
    let a = leading_run(s, CharClass::Whitespace) as int;
    let w = trimmed(s, CharClass::Whitespace);
    let c = cleaned(s);
    let start = cleaned_start(s) as int;
    lemma_trimmed_is_interior(s, CharClass::Whitespace);
    lemma_trimmed_is_interior(w, CharClass::QuoteOrNewline);
    assert(c =~= s.subrange(start, start + c.len()));
    assert forall|i: int| 0 <= i < start implies is_strippable(#[trigger] s[i]) by {
        if i < a {
            assert(CharClass::Whitespace.contains(s[i]));
        } else {
            assert(s[i] == w[i - a]);
            assert(CharClass::QuoteOrNewline.contains(w[i - a]));
        }
    }
    assert forall|i: int| start + c.len() <= i < s.len() implies is_strippable(
        #[trigger] s[i],
    ) by {
        if i < a + w.len() {
            assert(s[i] == w[i - a]);
            assert(CharClass::QuoteOrNewline.contains(w[i - a]));
        } else {
            assert(CharClass::Whitespace.contains(s[i]));
        }
    }
    if c.len() > 0 {
        assert(CharClass::QuoteOrNewline.contains(c[0]) == is_quote_or_newline(c[0]));
        assert(CharClass::QuoteOrNewline.contains(c.last()) == is_quote_or_newline(c.last()));
    }
}

/// Cleaning changes nothing in a text that neither starts nor ends with a
/// character it strips.
pub proof fn lemma_cleaned_keeps_clean_text(s: Seq<char>)
    requires
        s.len() > 0 ==> !is_strippable(s[0]) && !is_strippable(s.last()),
    ensures
        cleaned(s) == s,
{
    if s.len() > 0 {
        assert(!CharClass::Whitespace.contains(s[0]));
        assert(!CharClass::Whitespace.contains(s.last()));
        assert(trimmed(s, CharClass::Whitespace) == s);
        assert(!CharClass::QuoteOrNewline.contains(s[0]));
        assert(!CharClass::QuoteOrNewline.contains(s.last()));
    }
}

/// Strips the characters of `class` from both ends of `text`.
pub fn trim_class<'a>(text: &'a str, class: CharClass) -> (r: &'a str)
    ensures
        r@ == trimmed(text@, class),
{
    let n: usize = text.unicode_len();
    let mut first: usize = n;
    let mut end: usize = 0;
    let mut k: usize = 0;
    for c in it: text.chars()
        invariant
            n == text@.len(),
            it.seq() == text@,
            k == it.index(),
            k <= n,
            first <= n,
            first == n ==> all_in_class(text@, class, 0, k as int),
            first == n ==> end == 0,
            first < n ==> first < end <= k,
            first < n ==> all_in_class(text@, class, 0, first as int),
            first < n ==> all_in_class(text@, class, end as int, k as int),
            first < n ==> !class.contains(text@[first as int]),
            first < n ==> !class.contains(text@[end - 1]),
    {
        if !class.holds(c) {
            if first == n {
                first = k;
            }
            end = k + 1;
        }
        k = k + 1;
    }
    if first == n {
        proof {
            lemma_trimmed_all_in_class(text@, class);
        }
        text.substring_char(0, 0)
    } else {
        proof {
            lemma_trimmed_is_range(text@, class, first as int, end as int);
        }
        text.substring_char(first, end)
    }
}

/// Turns the text of a reply into the commit message it stands for.
pub fn clean_message(text: &str) -> (r: String)
    ensures
        r@ == cleaned(text@),
{
    let inner = trim_class(trim_class(text, CharClass::Whitespace), CharClass::QuoteOrNewline);
    inner.to_owned()
}

} // verus!
