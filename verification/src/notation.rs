//! Notation detection: which notation a submitted text is written in, what
//! part of it is handed to conversion, and how markup is prepared for and
//! taken back from registration.

use crate::text::{
    append_chars, append_str, chars_of, contains_chars, find_char, is_space, is_whitespace,
    lemma_first_index_of, lemma_trimmed_end_is_a_head, lemma_trimmed_is_a_part, matches_at,
    occurs_at, occurs_in, remove_all, replace_char, slice_of, string_of, trim, trim_end, trimmed,
    trimmed_end, with_char_replaced, without,
};
use vstd::prelude::*;

verus! {

/// The placeholder that the input area shows; it is taken out of whatever is
/// submitted.
pub const INPUT_PROMPT: &'static str =
    "Auto-detect format: override using $...$ for TeX, `...` for ASCIIMath, <math>...</math> for MathML\n";

/// What the viewer shows in place of typeset output when the input is not
/// recognized.
pub const UNRECOGNIZED_MESSAGE: &'static str =
    "Unrecognized Math -- use $...$ for TeX, `...` for ASCIIMath, or enter MathML";

/// The opening of the root element of canonical markup.
pub const ROOT_TAG: &'static str = "<math";

/// The attribute that makes the root element a block.
pub const BLOCK_ATTRIBUTE: &'static str = " display='block'";

/// The block attribute as markup may already carry it, with double quotes.
pub const BLOCK_DOUBLE_QUOTED: &'static str = "display=\"block\"";

/// The block attribute as markup may already carry it, with single quotes.
pub const BLOCK_SINGLE_QUOTED: &'static str = "display='block'";

/// A notation that has to be converted to canonical markup.
#[derive(Clone, Copy, Debug, PartialEq, Eq, Structural)]
pub enum Notation {
    /// TeX.
    TeX,
    /// The simplified ASCII notation.
    AsciiMath,
}

impl Notation {
    /// The name by which conversion knows the notation.
    pub open spec fn name_of(self) -> Seq<char> {
        match self {
            Notation::TeX => "TeX"@,
            Notation::AsciiMath => "ASCIIMath"@,
        }
    }

    /// The name by which conversion knows the notation.
    pub fn name(&self) -> (r: &'static str)
        ensures
            r@ == self.name_of(),
    {
        match self {
            Notation::TeX => "TeX",
            Notation::AsciiMath => "ASCIIMath",
        }
    }
}

/// What detection found in a submitted text.
#[derive(Clone, Debug, PartialEq, Eq)]
pub enum Detection {
    /// `text` is written in `notation` and has to be converted.
    Convert { notation: Notation, text: String },
    /// `markup` is markup already: no conversion is made.
    Canonical { markup: String },
}

/// The mathematical value of a `Detection`.
pub enum DetectionView {
    /// `text` is written in `notation` and has to be converted.
    Convert { notation: Notation, text: Seq<char> },
    /// `markup` is markup already.
    Canonical { markup: Seq<char> },
}

impl View for Detection {
    type V = DetectionView;

    open spec fn view(&self) -> DetectionView {
        match self {
            Detection::Convert { notation, text } => DetectionView::Convert {
                notation: *notation,
                text: text@,
            },
            Detection::Canonical { markup } => DetectionView::Canonical { markup: markup@ },
        }
    }
}

/// Registration refused the markup.
#[derive(Clone, Debug, PartialEq, Eq)]
pub struct NoMatch {
    /// What the engine said.
    pub detail: String,
}

/// The submitted text as detection sees it: without the prompt, with each
/// line break turned into a space, and without surrounding white space.
pub open spec fn cleaned(raw: Seq<char>) -> Seq<char> {
    trimmed(with_char_replaced(without(raw, INPUT_PROMPT@), '\n', ' '))
}

/// Whether `s` begins with `open`, ends with `close`, and holds at least one
/// character between the two.
pub open spec fn enclosed_by(s: Seq<char>, open: char, close: char) -> bool {
    s.len() >= 3 && s[0] == open && s.last() == close
}

/// `s` without its first and its last character.
pub open spec fn interior(s: Seq<char>) -> Seq<char> {
    s.subrange(1, s.len() - 1)
}

/// What detection finds in a cleaned text. The three delimiter tests go
/// first, in this order; a text that meets none is taken for TeX where it
/// holds an opening brace, and for the ASCII notation otherwise.
pub open spec fn classified(s: Seq<char>) -> DetectionView {
    if enclosed_by(s, '$', '$') {
        DetectionView::Convert { notation: Notation::TeX, text: interior(s) }
    } else if enclosed_by(s, '`', '`') {
        DetectionView::Convert { notation: Notation::AsciiMath, text: interior(s) }
    } else if enclosed_by(s, '<', '>') {
        DetectionView::Canonical { markup: s }
    } else if s.contains('{') {
        DetectionView::Convert { notation: Notation::TeX, text: s }
    } else {
        DetectionView::Convert { notation: Notation::AsciiMath, text: s }
    }
}

/// Whether the markup carries the block attribute somewhere.
pub open spec fn has_block_display(m: Seq<char>) -> bool {
    occurs_in(m, BLOCK_DOUBLE_QUOTED@) || occurs_in(m, BLOCK_SINGLE_QUOTED@)
}

/// Whether a root element opens at index `i` of `m`: the root tag stands
/// there, followed by what ends a tag name.
pub open spec fn root_opens_at(m: Seq<char>, i: int) -> bool {
    &&& occurs_at(m, ROOT_TAG@, i)
    &&& i + ROOT_TAG@.len() < m.len()
    &&& {
        let next = m[i + ROOT_TAG@.len()];
        next == '>' || next == '/' || is_space(next)
    }
}

/// Whether `i` is the first index of `m` at which a root element opens.
pub open spec fn first_root_at(m: Seq<char>, i: int) -> bool {
    root_opens_at(m, i) && forall|j: int| 0 <= j < i ==> !root_opens_at(m, j)
}

/// The markup with the block attribute on its root element. Markup that
/// carries the attribute already, or that holds no root element, is left as
/// it is; otherwise the attribute goes in right behind the first root tag.
pub open spec fn with_block_display(m: Seq<char>) -> Seq<char> {
    if has_block_display(m) || !(exists|i: int| first_root_at(m, i)) {
        m
    } else {
        let i: int = choose|i: int| first_root_at(m, i);
        let cut: int = i + ROOT_TAG@.len();
        m.subrange(0, cut) + BLOCK_ATTRIBUTE@ + m.subrange(cut, m.len() as int)
    }
}

/// A cleaned text is one line, with no white space at either end: so a
/// delimiter at its start or its end is one at the start or the end of the
/// line.
pub proof fn lemma_cleaned_is_one_trimmed_line(raw: Seq<char>)
    ensures
        !cleaned(raw).contains('\n'),
        cleaned(raw).len() > 0 ==> !is_space(cleaned(raw)[0]) && !is_space(cleaned(raw).last()),
{
    let one_line = with_char_replaced(without(raw, INPUT_PROMPT@), '\n', ' ');
    lemma_trimmed_is_a_part(one_line);
    let (from, to) = choose|from: int, to: int|
        0 <= from <= to <= one_line.len() && trimmed(one_line) == #[trigger] one_line.subrange(
            from,
            to,
        );
    assert forall|i: int| 0 <= i < cleaned(raw).len() implies cleaned(raw)[i] != '\n' by {
        assert(cleaned(raw)[i] == one_line[from + i]);
    }
}

/// Markup that holds a root element carries the block attribute once it
/// went through `with_block_display`, and going through it twice is going
/// through it once.
pub proof fn lemma_block_display_is_forced(m: Seq<char>)
    ensures
        (exists|i: int| root_opens_at(m, i)) ==> has_block_display(with_block_display(m)),
        with_block_display(with_block_display(m)) == with_block_display(m),
{
    reveal_strlit(" display='block'");
    reveal_strlit("display='block'");
    if !has_block_display(m) {
        if exists|i: int| root_opens_at(m, i) {
            lemma_first_root(m);
            let i: int = choose|i: int| first_root_at(m, i);
            let cut: int = i + ROOT_TAG@.len();
            let forced = with_block_display(m);
            assert(forced == m.subrange(0, cut) + BLOCK_ATTRIBUTE@ + m.subrange(
                cut,
                m.len() as int,
            ));
            assert(forced.subrange(cut + 1, cut + 1 + BLOCK_SINGLE_QUOTED@.len())
                == BLOCK_SINGLE_QUOTED@);
            assert(occurs_at(forced, BLOCK_SINGLE_QUOTED@, cut + 1));
        } else {
            assert forall|i: int| !first_root_at(m, i) by {}
        }
    }
}

/// Where a root element opens somewhere, there is a first place at which
/// one opens.
proof fn lemma_first_root(m: Seq<char>)
    requires
        exists|i: int| root_opens_at(m, i),
    ensures
        exists|i: int| first_root_at(m, i),
{
    let some: int = choose|i: int| root_opens_at(m, i);
    lemma_first_root_before(m, some);
}

proof fn lemma_first_root_before(m: Seq<char>, bound: int)
    requires
        root_opens_at(m, bound),
    ensures
        exists|i: int| first_root_at(m, i),
    decreases bound,
{
    if forall|j: int| 0 <= j < bound ==> !root_opens_at(m, j) {
        assert(first_root_at(m, bound));
    } else {
        let earlier: int = choose|j: int| 0 <= j < bound && root_opens_at(m, j);
        lemma_first_root_before(m, earlier);
    }
}

fn classify_chars(v: &Vec<char>) -> (d: Detection)
    ensures
        d@ == classified(v@),
{
    let n: usize = v.len();
    if n >= 3 {
        let first = v[0];
        let last = v[n - 1];
        if first == '$' && last == '$' {
            let inner = slice_of(v, 1, n - 1);
            return Detection::Convert { notation: Notation::TeX, text: string_of(&inner) };
        }
        if first == '`' && last == '`' {
            let inner = slice_of(v, 1, n - 1);
            return Detection::Convert { notation: Notation::AsciiMath, text: string_of(&inner) };
        }
        if first == '<' && last == '>' {
            return Detection::Canonical { markup: string_of(v) };
        }
    }
    let brace: usize = find_char(v, 0, '{');
    proof {
        assert(v@.skip(0) == v@);
        lemma_first_index_of(v@, '{');
    }
    if brace < n {
        Detection::Convert { notation: Notation::TeX, text: string_of(v) }
    } else {
        Detection::Convert { notation: Notation::AsciiMath, text: string_of(v) }
    }
}

fn clean_chars(raw: &Vec<char>) -> (r: Vec<char>)
    ensures
        r@ == cleaned(raw@),
{
    let prompt = chars_of(INPUT_PROMPT);
    let without_prompt = remove_all(raw, &prompt);
    let one_line = replace_char(&without_prompt, '\n', ' ');
    trim(&one_line)
}

/// The submitted text without the prompt, on one line, without surrounding
/// white space.
pub fn clean_input(raw: &str) -> (r: String)
    ensures
        r@ == cleaned(raw@),
{
    let v = chars_of(raw);
    let c = clean_chars(&v);
    string_of(&c)
}

/// Classifies a cleaned text.
pub fn classify(text: &str) -> (d: Detection)
    ensures
        d@ == classified(text@),
{
    let v = chars_of(text);
    classify_chars(&v)
}

/// Cleans a submitted text and classifies what is left.
pub fn detect(raw: &str) -> (d: Detection)
    ensures
        d@ == classified(cleaned(raw@)),
{
    let v = chars_of(raw);
    let c = clean_chars(&v);
    classify_chars(&c)
}

/// Puts the block attribute on the root element of `markup`, unless the
/// markup carries it already or holds no root element.
pub fn ensure_block_display(markup: &str) -> (r: String)
    ensures
        r@ == with_block_display(markup@),
{
    let m = chars_of(markup);
    let double_quoted = chars_of(BLOCK_DOUBLE_QUOTED);
    let single_quoted = chars_of(BLOCK_SINGLE_QUOTED);
    if contains_chars(&m, &double_quoted) || contains_chars(&m, &single_quoted) {
        return string_of(&m);
    }
    let tag = chars_of(ROOT_TAG);
    let mut i: usize = 0;
    while i < m.len()
        invariant
            i <= m.len(),
            m@ == markup@,
            tag@ == ROOT_TAG@,
            !has_block_display(m@),
            forall|j: int| 0 <= j < i ==> !root_opens_at(m@, j),
        decreases m.len() - i,
    {
        if matches_at(&m, &tag, i) {
            let cut: usize = i + tag.len();
            if cut < m.len() {
                let next = m[cut];
                if next == '>' || next == '/' || is_whitespace(next) {
                    let mut out = slice_of(&m, 0, cut);
                    append_str(&mut out, BLOCK_ATTRIBUTE);
                    let rest = slice_of(&m, cut, m.len());
                    append_chars(&mut out, &rest);
                    proof {
                        assert(!has_block_display(m@));
                        assert(first_root_at(m@, i as int));
                        assert(exists|k: int| first_root_at(m@, k));
                        let k: int = choose|k: int| first_root_at(m@, k);
                        assert(first_root_at(m@, k));
                        assert(k == i) by {
                            if k < i {
                                assert(root_opens_at(m@, k));
                            } else if i < k {
                                assert(root_opens_at(m@, i as int));
                            }
                        }
                        assert(out@ == m@.subrange(0, cut as int) + BLOCK_ATTRIBUTE@ + m@.subrange(
                            cut as int,
                            m@.len() as int,
                        ));
                    }
                    return string_of(&out);
                }
            }
        }
        i += 1;
    }
    proof {
        assert forall|k: int| !first_root_at(m@, k) by {
            if root_opens_at(m@, k) {
                assert(0 <= k < m.len());
            }
        }
    }
    string_of(&m)
}

/// Turns registration's answer into the outcome of normalization: the
/// registered markup without trailing white space, so that it ends in no line
/// break, or `NoMatch` with the engine's words.
pub fn finish_registration(answer: Result<String, String>) -> (r: Result<String, NoMatch>)
    ensures
        answer matches Ok(markup) ==> r matches Ok(canonical) && canonical@ == trimmed_end(
            markup@,
        ),
        answer matches Err(detail) ==> r matches Err(refusal) && refusal.detail@ == detail@,
        r matches Ok(canonical) ==> canonical@.len() > 0 ==> !is_space(canonical@.last())
            && canonical@.last() != '\n',
{
    match answer {
        Ok(markup) => {
            let m = chars_of(markup.as_str());
            let t = trim_end(&m);
            proof {
                lemma_trimmed_end_is_a_head(m@);
            }
            Ok(string_of(&t))
        },
        Err(detail) => Err(NoMatch { detail }),
    }
}

/// The markup of what detection found. Text in a notation is handed to
/// `convert`, with its notation, and what `convert` makes of it is the
/// markup; markup is handed back as it is, and `convert` is not called.
pub fn markup_of<F: FnOnce(Notation, String) -> String>(found: Detection, convert: F) -> (r:
    String)
    requires
        forall|notation: Notation, text: String| call_requires(convert, (notation, text)),
    ensures
        (match found {
            Detection::Convert { notation, text } => call_ensures(convert, (notation, text), r),
            Detection::Canonical { markup } => r == markup,
        }),
{
    match found {
        Detection::Convert { notation, text } => convert(notation, text),
        Detection::Canonical { markup } => markup,
    }
}

} // verus!
