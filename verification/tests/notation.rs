use math_session::notation::{
    classify, clean_input, detect, ensure_block_display, finish_registration, markup_of,
    Detection, NoMatch, Notation, INPUT_PROMPT,
};
use regex::Regex;

fn convert(notation: Notation, text: &str) -> Detection {
    Detection::Convert { notation, text: text.to_string() }
}

fn canonical(markup: &str) -> Detection {
    Detection::Canonical { markup: markup.to_string() }
}

#[test]
fn backticks_select_the_ascii_notation() {
    assert_eq!(detect("`2+2`"), convert(Notation::AsciiMath, "2+2"));
}

#[test]
fn dollars_select_tex() {
    assert_eq!(detect("$x^2$"), convert(Notation::TeX, "x^2"));
}

#[test]
fn angle_brackets_are_markup_already() {
    assert_eq!(detect("<math><mn>1</mn></math>"), canonical("<math><mn>1</mn></math>"));
}

#[test]
fn braces_are_taken_for_tex() {
    assert_eq!(detect("\\frac{1}{2}"), convert(Notation::TeX, "\\frac{1}{2}"));
    assert_eq!(detect("x_{1"), convert(Notation::TeX, "x_{1"));
}

#[test]
fn plain_text_is_taken_for_the_ascii_notation() {
    assert_eq!(detect("x^2 + 1"), convert(Notation::AsciiMath, "x^2 + 1"));
    assert_eq!(detect("a}b"), convert(Notation::AsciiMath, "a}b"));
    assert_eq!(detect(""), convert(Notation::AsciiMath, ""));
}

#[test]
fn the_prompt_and_surrounding_white_space_are_taken_out() {
    let raw = format!("{}  $x = {{-b \\pm \\sqrt{{b^2-4ac}} \\over 2a}}$ \n", INPUT_PROMPT);
    assert_eq!(clean_input(&raw), "$x = {-b \\pm \\sqrt{b^2-4ac} \\over 2a}$");
    assert_eq!(detect(&raw), convert(Notation::TeX, "x = {-b \\pm \\sqrt{b^2-4ac} \\over 2a}"));
    assert_eq!(clean_input(INPUT_PROMPT), "");
    assert_eq!(clean_input(&format!("a{}b{}c", INPUT_PROMPT, INPUT_PROMPT)), "abc");
}

#[test]
fn line_breaks_become_spaces() {
    assert_eq!(clean_input("a\nb\n\nc"), "a b  c");
    assert_eq!(clean_input("\n\n`x`\n"), "`x`");
    assert_eq!(detect("<math>\n<mn>1</mn>\n</math>\n"), canonical("<math> <mn>1</mn> </math>"));
}

#[test]
fn white_space_of_every_kind_is_trimmed() {
    assert_eq!(clean_input("\t\u{A0}\u{2003}\u{3000} x \u{2028}\u{85}\r"), "x");
    assert_eq!(clean_input("\u{200B}x"), "\u{200B}x");
}

#[test]
fn delimiters_need_something_between_them() {
    assert_eq!(detect("$$"), convert(Notation::AsciiMath, "$$"));
    assert_eq!(detect("$"), convert(Notation::AsciiMath, "$"));
    assert_eq!(detect("``"), convert(Notation::AsciiMath, "``"));
    assert_eq!(detect("<>"), convert(Notation::AsciiMath, "<>"));
    assert_eq!(detect("$$$"), convert(Notation::TeX, "$"));
    assert_eq!(detect("`a`"), convert(Notation::AsciiMath, "a"));
    assert_eq!(detect("<a>"), canonical("<a>"));
}

#[test]
fn the_outermost_delimiters_count() {
    assert_eq!(detect("$a$b$"), convert(Notation::TeX, "a$b"));
    assert_eq!(detect("$a`"), convert(Notation::AsciiMath, "$a`"));
    assert_eq!(detect("`{x}`"), convert(Notation::AsciiMath, "{x}"));
    assert_eq!(detect("$<x>$"), convert(Notation::TeX, "<x>"));
}

#[test]
fn classify_takes_the_text_as_it_is() {
    assert_eq!(classify(" $x$"), convert(Notation::AsciiMath, " $x$"));
    assert_eq!(classify("$x$"), convert(Notation::TeX, "x"));
    assert_eq!(classify("$\u{1D465}$"), convert(Notation::TeX, "\u{1D465}"));
}

#[test]
fn detection_agrees_with_the_line_anchored_patterns() {
    let tex = Regex::new("(?m)^(?P<start>\\$)(?P<math>.+?)(?P<end>\\$)$").unwrap();
    let ascii = Regex::new("(?m)^(?P<start>`)(?P<math>.+?)(?P<end>`)$").unwrap();
    let markup = Regex::new("(?m)^(?P<start><)(?P<math>.+?)(?P<end>>)$").unwrap();
    let samples = [
        "",
        "$",
        "$$",
        "$$$",
        "$x$",
        "$x$ ",
        " $x$",
        "$x$y",
        "y$x$",
        "$a$b$",
        "`",
        "``",
        "`x`",
        "`x`y`",
        "`x$",
        "$x`",
        "<",
        "<>",
        "<a>",
        "<math><mn>1</mn></math>",
        "<math>\n<mn>1</mn>\n</math>",
        "a<b>",
        "x^2",
        "{",
        "\\frac{1}{2}",
        "$\u{2800}$",
        "`\u{1D465}+\u{E9}`",
        "$x$\n$y$",
        "\n$x$\n",
        "line one\nline two",
        "\t`a b`\r\n",
        "Auto-detect format: override using $...$ for TeX, `...` for ASCIIMath, <math>...</math> for MathML\n$x$",
    ];
    for raw in samples {
        let cleaned = clean_input(raw);
        let expected = if let Some(found) = tex.captures(&cleaned) {
            convert(Notation::TeX, &found["math"])
        } else if let Some(found) = ascii.captures(&cleaned) {
            convert(Notation::AsciiMath, &found["math"])
        } else if markup.is_match(&cleaned) {
            canonical(&cleaned)
        } else if cleaned.contains('{') {
            convert(Notation::TeX, &cleaned)
        } else {
            convert(Notation::AsciiMath, &cleaned)
        };
        assert_eq!(detect(raw), expected, "for {:?}", raw);
    }
}

#[test]
fn cleaning_agrees_with_replace_and_trim() {
    let samples = [
        "",
        " x ",
        "a\nb",
        "Auto-detect format: override using $...$ for TeX, `...` for ASCIIMath, <math>...</math> for MathML\n",
        "Auto-detect format: override using $...$ for TeX, `...` for ASCIIMath, <math>...</math> for MathML\n$x$\n",
        "xAuto-detect format: override using $...$ for TeX, `...` for ASCIIMath, <math>...</math> for MathML\ny",
        "Auto-detect format: override using $...$ for TeX, `...` for ASCIIMath, <math>...</math> for MathML $x$",
        "Auto-detect Auto-detect format: override using $...$ for TeX, `...` for ASCIIMath, <math>...</math> for MathML\n!",
        "\u{3000}\u{1680}z\u{205F}\u{202F}",
    ];
    for raw in samples {
        let expected = raw.replace(INPUT_PROMPT, "").replace("\n", " ").trim().to_string();
        assert_eq!(clean_input(raw), expected, "for {:?}", raw);
    }
}

#[test]
fn the_block_attribute_goes_on_a_bare_root() {
    assert_eq!(
        ensure_block_display("<math><mn>1</mn></math>"),
        "<math display='block'><mn>1</mn></math>"
    );
    assert_eq!(ensure_block_display("<math/>"), "<math display='block'/>");
}

#[test]
fn the_block_attribute_goes_before_other_attributes() {
    assert_eq!(
        ensure_block_display("<math xmlns='http://www.w3.org/1998/Math/MathML'><mi>x</mi></math>"),
        "<math display='block' xmlns='http://www.w3.org/1998/Math/MathML'><mi>x</mi></math>"
    );
    assert_eq!(ensure_block_display("<math\n  id='a'></math>"), "<math display='block'\n  id='a'></math>");
}

#[test]
fn markup_with_the_block_attribute_is_left_alone() {
    let double = "<math display=\"block\"><mn>1</mn></math>";
    let single = "<math display='block'><mn>1</mn></math>";
    assert_eq!(ensure_block_display(double), double);
    assert_eq!(ensure_block_display(single), single);
}

#[test]
fn markup_without_a_root_is_left_alone() {
    assert_eq!(ensure_block_display("<mrow><mn>1</mn></mrow>"), "<mrow><mn>1</mn></mrow>");
    assert_eq!(ensure_block_display("<mathml></mathml>"), "<mathml></mathml>");
    assert_eq!(ensure_block_display("<math"), "<math");
    assert_eq!(ensure_block_display(""), "");
}

#[test]
fn only_the_first_root_gets_the_attribute() {
    assert_eq!(
        ensure_block_display("<p><math></math><math></math></p>"),
        "<p><math display='block'></math><math></math></p>"
    );
    assert_eq!(
        ensure_block_display("<mathx><math display='inline'>"),
        "<mathx><math display='block' display='inline'>"
    );
}

#[test]
fn registered_markup_loses_its_trailing_white_space() {
    assert_eq!(
        finish_registration(Ok("<math>\n <mn>1</mn>\n</math>\n".to_string())),
        Ok("<math>\n <mn>1</mn>\n</math>".to_string())
    );
    assert_eq!(finish_registration(Ok("<math/> \n\t\r\n".to_string())), Ok("<math/>".to_string()));
    assert_eq!(finish_registration(Ok("  <math/>".to_string())), Ok("  <math/>".to_string()));
    assert_eq!(finish_registration(Ok("\n\n".to_string())), Ok(String::new()));
}

#[test]
fn refused_markup_gives_no_match() {
    assert_eq!(
        finish_registration(Err("Invalid MathML input".to_string())),
        Err(NoMatch { detail: "Invalid MathML input".to_string() })
    );
}

#[test]
fn the_ascii_notation_is_handed_to_conversion() {
    let mut calls = Vec::new();
    let markup = markup_of(detect("`2+2`"), |notation, text| {
        calls.push((notation, text));
        "<math><mn>4</mn></math>".to_string()
    });
    assert_eq!(calls, vec![(Notation::AsciiMath, "2+2".to_string())]);
    assert_eq!(markup, "<math><mn>4</mn></math>");
}

#[test]
fn tex_is_handed_to_conversion() {
    let mut calls = Vec::new();
    let markup = markup_of(detect("$x^2$"), |notation, text| {
        calls.push((notation, text));
        "<math><msup><mi>x</mi><mn>2</mn></msup></math>".to_string()
    });
    assert_eq!(calls, vec![(Notation::TeX, "x^2".to_string())]);
    assert_eq!(markup, "<math><msup><mi>x</mi><mn>2</mn></msup></math>");
}

#[test]
fn markup_is_not_handed_to_conversion() {
    let mut calls = Vec::new();
    let markup = markup_of(detect("<math><mn>1</mn></math>"), |notation, text| {
        calls.push((notation, text));
        String::new()
    });
    assert!(calls.is_empty());
    assert_eq!(markup, "<math><mn>1</mn></math>");
}

#[test]
fn conversion_knows_the_notations_by_name() {
    assert_eq!(Notation::TeX.name(), "TeX");
    assert_eq!(Notation::AsciiMath.name(), "ASCIIMath");
}
