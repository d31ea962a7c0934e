//! Splitting the input text into the words that are shown one at a time.

use vstd::prelude::*;

verus! {

/// `String::push` appends the character to the end of the string.
pub assume_specification[ String::push ](s: &mut String, ch: char)
    ensures
        final(s)@ == old(s)@.push(ch),
;

/// The characters that separate words: those with the Unicode property
/// `White_Space`.
pub open spec fn is_whitespace_char(c: char) -> bool {
    let u = c as u32;
    ||| 0x09 <= u <= 0x0D
    ||| u == 0x20
    ||| u == 0x85
    ||| u == 0xA0
    ||| u == 0x1680
    ||| 0x2000 <= u <= 0x200A
    ||| u == 0x2028
    ||| u == 0x2029
    ||| u == 0x202F
    ||| u == 0x205F
    ||| u == 0x3000
}

/// Whether `c` separates words.
pub fn is_whitespace(c: char) -> (b: bool)
    ensures
        b == is_whitespace_char(c),
{
    let u: u32 = c as u32;
    (0x09 <= u && u <= 0x0D) || u == 0x20 || u == 0x85 || u == 0xA0 || u == 0x1680 || (0x2000 <= u
        && u <= 0x200A) || u == 0x2028 || u == 0x2029 || u == 0x202F || u == 0x205F || u == 0x3000
}

/// Whether every character of `s` is whitespace. The empty text is blank.
pub open spec fn is_blank(s: Seq<char>) -> bool {
    forall|i: int| 0 <= i < s.len() ==> is_whitespace_char(#[trigger] s[i])
}

/// What a left-to-right pass over `s` has found: the words that are
/// complete, and the characters of the word that the end of `s` is still in.
pub open spec fn scan(s: Seq<char>) -> (Seq<Seq<char>>, Seq<char>)
    decreases s.len(),
{
    if s.len() == 0 {
        (Seq::empty(), Seq::empty())
    } else {
        let (done, open) = scan(s.drop_last());
        if is_whitespace_char(s.last()) {
            if open.len() > 0 {
                (done.push(open), Seq::empty())
            } else {
                (done, open)
            }
        } else {
            (done, open.push(s.last()))
        }
    }
}

/// The words of `s`: its maximal runs of characters that are not whitespace,
/// in the order in which they occur.
pub open spec fn tokens(s: Seq<char>) -> Seq<Seq<char>> {
    let (done, open) = scan(s);
    if open.len() > 0 {
        done.push(open)
    } else {
        done
    }
}

/// Whether `w` can be a word: it has a character and none is whitespace.
pub open spec fn is_word(w: Seq<char>) -> bool {
    &&& w.len() > 0
    &&& forall|j: int| 0 <= j < w.len() ==> !is_whitespace_char(#[trigger] w[j])
}

/// The character sequences that a list of strings stands for.
pub open spec fn word_views(words: Seq<String>) -> Seq<Seq<char>> {
    Seq::new(words.len(), |i: int| words[i]@)
}

proof fn lemma_scan_words(s: Seq<char>)
    ensures
        forall|k: int| 0 <= k < scan(s).0.len() ==> is_word(#[trigger] scan(s).0[k]),
        forall|j: int| 0 <= j < scan(s).1.len() ==> !is_whitespace_char(#[trigger] scan(s).1[j]),
    decreases s.len(),
{
    if s.len() > 0 {
        lemma_scan_words(s.drop_last());
        let (done, open) = scan(s.drop_last());
        assert(scan(s).0 == done || scan(s).0 == done.push(open));
    }
}

proof fn lemma_scan_blank(s: Seq<char>)
    ensures
        is_blank(s) <==> (scan(s).0.len() == 0 && scan(s).1.len() == 0),
    decreases s.len(),
{
    if s.len() > 0 {
        let t = s.drop_last();
        lemma_scan_blank(t);
        if is_blank(t) && is_whitespace_char(s.last()) {
            assert forall|i: int| 0 <= i < s.len() implies is_whitespace_char(#[trigger] s[i]) by {
                if i < t.len() {
                    assert(t[i] == s[i]);
                }
            }
        }
    }
}

/// Every word of a text has at least one character and holds no whitespace.
pub proof fn lemma_tokens_are_words(s: Seq<char>)
    ensures
        forall|k: int| 0 <= k < tokens(s).len() ==> is_word(#[trigger] tokens(s)[k]),
{
    lemma_scan_words(s);
}

/// A text has no words exactly when it is empty or all whitespace.
pub proof fn lemma_no_tokens_iff_blank(s: Seq<char>)
    ensures
        tokens(s).len() == 0 <==> is_blank(s),
{
    lemma_scan_blank(s);
}

/// The characters of the words, taken together, are the characters of the
/// text that are not whitespace, in their order.
pub proof fn lemma_tokens_keep_characters(s: Seq<char>)
    ensures
        tokens(s).flatten() == s.filter(|c: char| !is_whitespace_char(c)),
{
    lemma_scan_keeps_characters(s);
    let (done, open) = scan(s);
    if open.len() > 0 {
        lemma_flatten_push(done, open);
    }
}

proof fn lemma_flatten_push(x: Seq<Seq<char>>, w: Seq<char>)
    ensures
        x.push(w).flatten() == x.flatten() + w,
{
    vstd::seq_lib::lemma_flatten_concat(x, seq![w]);
    seq![w].lemma_flatten_one_element();
    assert(x.push(w) == x + seq![w]);
}

proof fn lemma_scan_keeps_characters(s: Seq<char>)
    ensures
        scan(s).0.flatten() + scan(s).1 == s.filter(|c: char| !is_whitespace_char(c)),
    decreases s.len(),
{
    let keep = |c: char| !is_whitespace_char(c);
    if s.len() > 0 {
        let t = s.drop_last();
        lemma_scan_keeps_characters(t);
        let (done, open) = scan(t);
        assert(s == t.push(s.last()));
        t.lemma_filter_push(s.last(), keep);
        if is_whitespace_char(s.last()) && open.len() > 0 {
            lemma_flatten_push(done, open);
        }
    }
}

/// A word is its own and only word.
pub proof fn lemma_tokens_of_word(w: Seq<char>)
    requires
        is_word(w),
    ensures
        tokens(w) == seq![w],
{
    lemma_scan_of_run(w);
}

proof fn lemma_scan_of_run(s: Seq<char>)
    requires
        forall|j: int| 0 <= j < s.len() ==> !is_whitespace_char(#[trigger] s[j]),
    ensures
        scan(s) == (Seq::<Seq<char>>::empty(), s),
    decreases s.len(),
{
    if s.len() > 0 {
        lemma_scan_of_run(s.drop_last());
    }
}

/// A whitespace character parts a text: the words of the whole are the
/// words of what stands before it, followed by the words of what stands
/// after it.
pub proof fn lemma_tokens_split_at_whitespace(a: Seq<char>, c: char, b: Seq<char>)
    requires
        is_whitespace_char(c),
    ensures
        tokens(a + seq![c] + b) == tokens(a) + tokens(b),
{
    lemma_scan_after_whitespace(a, c, b);
}

proof fn lemma_scan_after_whitespace(a: Seq<char>, c: char, b: Seq<char>)
    requires
        is_whitespace_char(c),
    ensures
        scan(a + seq![c] + b) == (tokens(a) + scan(b).0, scan(b).1),
    decreases b.len(),
{
    let whole = a + seq![c] + b;
    if b.len() == 0 {
        assert(whole.drop_last() == a);
    } else {
        let shorter = b.drop_last();
        lemma_scan_after_whitespace(a, c, shorter);
        assert(whole.drop_last() == a + seq![c] + shorter);
    }
}

/// The text held no word.
#[derive(Clone, Copy, Debug, PartialEq, Eq)]
pub struct EmptyInputError;

impl EmptyInputError {
    /// The words in which the failure is reported.
    pub fn message(&self) -> (text: String)
        ensures
            text@ == "No words to display"@,
    {
        "No words to display".to_owned()
    }
}

/// Splits `text` into its words.
///
/// Fails exactly when `text` is empty or all whitespace.
pub fn tokenize(text: &str) -> (result: Result<Vec<String>, EmptyInputError>)
    ensures
        result is Err <==> is_blank(text@),
        result matches Ok(words) ==> words.len() > 0 && word_views(words@) == tokens(text@),
{
    let words = split_words(text);
    proof {
        lemma_no_tokens_iff_blank(text@);
    }
    if words.len() == 0 {
        Err(EmptyInputError)
    } else {
        Ok(words)
    }
}

/// Splits `text` into its words; the result is empty when `text` has none.
pub fn split_words(text: &str) -> (words: Vec<String>)
    ensures
        word_views(words@) == tokens(text@),
{
    let total: usize = text.unicode_len();
    let mut words: Vec<String> = Vec::new();
    let mut open: String = String::new();
    let mut open_len: usize = 0;
    let mut i: usize = 0;
    for c in it: text.chars()
        invariant
            it.seq() == text@,
            i == it.index(),
            total == text@.len(),
            i <= total,
            open_len == open@.len(),
            open_len <= i,
            word_views(words@) == scan(text@.take(i as int)).0,
            open@ == scan(text@.take(i as int)).1,
    {
        assert(text@.take(i as int + 1).drop_last() == text@.take(i as int));
        if is_whitespace(c) {
            if open_len > 0 {
                words.push(open);
                open = String::new();
                open_len = 0;
            }
        } else {
            open.push(c);
            open_len = open_len + 1;
        }
        i = i + 1;
    }
    assert(text@.take(i as int) == text@);
    if open_len > 0 {
        words.push(open);
    }
    words
}

/// A stretch of a line that is drawn in one style.
#[derive(Clone, Debug, PartialEq, Eq)]
pub struct StyledSpan {
    /// The characters of the stretch.
    pub text: String,
    /// Whether the stretch is drawn in the highlight colour.
    pub highlighted: bool,
}

impl View for StyledSpan {
    type V = (Seq<char>, bool);

    open spec fn view(&self) -> (Seq<char>, bool) {
        (self.text@, self.highlighted)
    }
}

/// A line of text, cut into stretches that differ in style.
#[derive(Clone, Debug, PartialEq, Eq)]
pub struct StyledLine {
    /// The stretches, from left to right.
    pub spans: Vec<StyledSpan>,
    /// Whether the line is centred in its region.
    pub centered: bool,
}

impl StyledLine {
    /// The stretches as characters and highlight flags.
    pub open spec fn span_views(&self) -> Seq<(Seq<char>, bool)> {
        Seq::new(self.spans@.len(), |i: int| self.spans@[i]@)
    }
}

/// Where the highlighted stretch of a word of `n` characters begins and
/// ends: the first character of a one-letter word, the second of a word of
/// two or three, and from four on a stretch that begins at the middle.
pub open spec fn highlight_range(n: nat) -> (nat, nat) {
    if n == 0 {
        (0, 0)
    } else if n == 1 {
        (0, 1)
    } else if n <= 3 {
        (1, 2)
    } else {
        let half = n / 2;
        let rest = (n - half) as nat;
        if (rest / 2) % 2 == 0 {
            (half, half + half)
        } else {
            (half, (half + half - 1) as nat)
        }
    }
}

/// The stretches of a word: what stands before the highlight, the highlight,
/// and what follows it. A word of one character is the highlight alone, and
/// a word of two has nothing after it.
pub open spec fn highlighted_spans(s: Seq<char>) -> Seq<(Seq<char>, bool)> {
    let n = s.len();
    let (from, to) = highlight_range(n);
    if n == 0 {
        Seq::empty()
    } else if n == 1 {
        seq![(s, true)]
    } else if n == 2 {
        seq![(s.subrange(0, 1), false), (s.subrange(1, 2), true)]
    } else {
        seq![
            (s.subrange(0, from as int), false),
            (s.subrange(from as int, to as int), true),
            (s.subrange(to as int, n as int), false),
        ]
    }
}

/// The highlight of a word never leaves the word.
pub proof fn lemma_highlight_range_in_word(n: nat)
    ensures
        highlight_range(n).0 <= highlight_range(n).1 <= n,
        n > 0 ==> highlight_range(n).0 < highlight_range(n).1,
{
}

fn span_of(text: &str, from: usize, to: usize, highlighted: bool) -> (span: StyledSpan)
    requires
        from <= to <= text@.len(),
    ensures
        span@ == (text@.subrange(from as int, to as int), highlighted),
{
    StyledSpan { text: text.substring_char(from, to).to_owned(), highlighted }
}

/// Cuts a word into the stretches that show its highlight, and centres the
/// line. The empty text gives a line without stretches that is not centred.
pub fn process_words(text: &str) -> (line: StyledLine)
    ensures
        line.span_views() == highlighted_spans(text@),
        line.centered == (text@.len() > 0),
{
    let n: usize = text.unicode_len();
    let mut spans: Vec<StyledSpan> = Vec::new();
    if n == 0 {
        return StyledLine { spans, centered: false };
    }
    if n == 1 {
        spans.push(span_of(text, 0, 1, true));
        assert(text@.subrange(0, 1) == text@);
    } else if n == 2 {
        spans.push(span_of(text, 0, 1, false));
        spans.push(span_of(text, 1, 2, true));
    } else {
        let half: usize = n / 2;
        let rest: usize = n - half;
        let from: usize = if n == 3 {
            1
        } else {
            half
        };
        let to: usize = if n == 3 {
            2
        } else if (rest / 2) % 2 == 0 {
            half + half
        } else {
            half + half - 1
        };
        spans.push(span_of(text, 0, from, false));
        spans.push(span_of(text, from, to, true));
        spans.push(span_of(text, to, n, false));
    }
    StyledLine { spans, centered: true }
}

} // verus!
