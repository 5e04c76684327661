use vstd::prelude::*;
use vstd::utf8::{decode_utf8, encode_utf8, is_char_boundary, valid_utf8};
use vstd::string::StringSliceAdditionalSpecFns;
use crate::styles::{StyledText, StyledTextView, TextColor, fg_style, styled_view, text_color_of};

verus! {

broadcast use {
    vstd::utf8::encode_utf8_valid_utf8,
    vstd::utf8::encode_utf8_decode_utf8,
    vstd::utf8::is_char_boundary_start_end_of_seq,
    vstd::utf8::is_char_boundary_iff_not_is_continuation_byte,
};

/// A grammar of the parsing library.
#[verifier::external_type_specification]
#[verifier::external_body]
pub struct ExLanguage(tree_sitter::Language);

/// A parser of the parsing library.
#[verifier::external_type_specification]
#[verifier::external_body]
pub struct ExParser(tree_sitter::Parser);

/// The error of a grammar that the parsing library cannot load.
#[verifier::external_type_specification]
#[verifier::external_body]
pub struct ExLanguageError(tree_sitter::LanguageError);

/// The error of a query that the parsing library cannot compile.
#[verifier::external_type_specification]
#[verifier::external_body]
pub struct ExQueryError(tree_sitter::QueryError);

/// The highlighting setup of a grammar: its highlight query and the names
/// of the highlights it reports.
#[verifier::external_type_specification]
#[verifier::external_body]
pub struct ExHighlightConfiguration(tree_sitter_highlight::HighlightConfiguration);

/// The reusable state of the highlighter.
#[verifier::external_type_specification]
#[verifier::external_body]
pub struct ExHighlighter(tree_sitter_highlight::Highlighter);

/// The error of a highlighting run.
#[verifier::external_type_specification]
#[verifier::external_body]
pub struct ExHighlightError(tree_sitter_highlight::Error);

/// A step of a highlighting run over some source bytes: a range of bytes to
/// draw, the start of a highlight (by its index among the configured
/// names), or the end of the innermost highlight.
#[derive(Debug, Clone, Copy, PartialEq, Eq, Structural)]
pub enum HighlightEvent {
    Source { start: usize, end: usize },
    HighlightStart(usize),
    HighlightEnd,
}

/// `tree_sitter::Parser::new`: a parser without a grammar.
#[verifier::external_body]
fn parser_new() -> tree_sitter::Parser {
    tree_sitter::Parser::new()
}

/// `tree_sitter::Parser::set_language` with the SQL grammar of
/// `tree_sitter_sequel::LANGUAGE`: succeeds. The call fails only for a
/// grammar whose ABI version lies outside the versions the parser takes
/// (13 to 15 in the source of `set_language`); the SQL grammar is generated
/// with version 14 (`LANGUAGE_VERSION` in its parser source).
#[verifier::external_body]
fn parser_set_sql_language(parser: &mut tree_sitter::Parser) -> (r: Result<(), tree_sitter::LanguageError>)
    ensures
        r is Ok,
{
    parser.set_language(&tree_sitter_sequel::LANGUAGE.into())
}

/// `tree_sitter_highlight::Highlighter::new`.
#[verifier::external_body]
fn highlighter_new() -> tree_sitter_highlight::Highlighter {
    tree_sitter_highlight::Highlighter::new()
}

/// `tree_sitter_highlight::HighlightConfiguration::new` for the SQL grammar
/// and its highlight query `tree_sitter_sequel::HIGHLIGHTS_QUERY`, with no
/// injection query and no locals query: succeeds. The grammar and the query
/// ship together in the grammar's crate, which offers the query for exactly
/// this use; the tests of this library build the configuration. No highlight
/// name is recognized yet: `new` fills the highlight indices with `None`,
/// as `configure` does with no names.
#[verifier::external_body]
fn sql_config_new(name: &str, injection_query: &str, locals_query: &str) -> (r: Result<
    tree_sitter_highlight::HighlightConfiguration,
    tree_sitter::QueryError,
>)
    requires
        injection_query@.len() == 0,
        locals_query@.len() == 0,
    ensures
        r is Ok,
        r matches Ok(config) ==> configured_names(config) == Seq::<Seq<char>>::empty(),
{
    let language = tree_sitter_sequel::LANGUAGE.into();
    tree_sitter_highlight::HighlightConfiguration::new(
        language,
        name,
        tree_sitter_sequel::HIGHLIGHTS_QUERY,
        injection_query,
        locals_query,
    )
}

/// The highlight names a configuration recognizes, in order: a highlight
/// the configuration reports is an index into them.
pub uninterp spec fn configured_names(config: tree_sitter_highlight::HighlightConfiguration) -> Seq<
    Seq<char>,
>;

/// The views of some names.
pub open spec fn name_views(names: Seq<&str>) -> Seq<Seq<char>> {
    names.map_values(|n: &str| n@)
}

/// `tree_sitter_highlight::HighlightConfiguration::configure`: the
/// configuration recognizes `names` from now on (the source rebuilds its
/// highlight indices from `names` alone, each capture of the query mapped
/// to the index of its best-matching name).
#[verifier::external_body]
fn config_configure(config: &mut tree_sitter_highlight::HighlightConfiguration, names: &[&str])
    ensures
        configured_names(*final(config)) == name_views(names@),
{
    config.configure(names)
}

/// The injection callback of a highlighting run: no other language is
/// embedded in the SQL text.
fn no_injection<'a>(_name: &str) -> (r: Option<&'a tree_sitter_highlight::HighlightConfiguration>)
    ensures
        r is None,
{
    None
}

/// The events of highlighting the SQL text whose UTF-8 bytes are `source`
/// with the library's highlighter (the SQL grammar and its highlight query)
/// recognizing the highlight names `names`, in order.
pub uninterp spec fn sql_highlight(names: Seq<Seq<char>>, source: Seq<u8>) -> Seq<HighlightEvent>;

/// Every range of text among `events` holds at least one byte.
pub open spec fn sources_nonempty(events: Seq<HighlightEvent>) -> bool {
    forall|i: int|
        0 <= i < events.len() ==> match #[trigger] events[i] {
            HighlightEvent::Source { start, end } => start < end,
            _ => true,
        }
}

/// Where the ranges of text among `events` have reached: the end of the
/// last one, or 0 when there is none.
pub open spec fn covered_end(events: Seq<HighlightEvent>) -> int
    decreases events.len(),
{
    if events.len() == 0 {
        0
    } else {
        match events.last() {
            HighlightEvent::Source { start: _, end } => end as int,
            _ => covered_end(events.drop_last()),
        }
    }
}

/// Each range of text among `events` starts where the ones before it have
/// reached: the ranges run on from byte 0 with no gap and no overlap.
pub open spec fn sources_contiguous(events: Seq<HighlightEvent>) -> bool
    decreases events.len(),
{
    if events.len() == 0 {
        true
    } else {
        &&& sources_contiguous(events.drop_last())
        &&& match events.last() {
            HighlightEvent::Source { start, end: _ } => start == covered_end(events.drop_last()),
            _ => true,
        }
    }
}

/// `tree_sitter_highlight::Highlighter::highlight` with the parser's
/// configuration, run to the end over `source`, its events collected in
/// order. It succeeds: the run reports an error only when a cancellation
/// flag is set (none is passed, and the parse's progress callback then
/// always goes on) or when the grammar does not load into the parser (the
/// SQL grammar does, see `parser_set_sql_language`); no other language is
/// injected. The events are `sql_highlight` of the configuration's names
/// and the bytes: the configuration is always built from the SQL grammar
/// and its query. The ranges of text run on from byte 0 to the end of
/// `source`: the iterator keeps a byte offset that starts at 0, each range
/// it emits runs from that offset to a node boundary of the parsed source
/// and moves the offset there, a range is emitted only when it holds at
/// least one byte (`emit_event` checks `byte_offset < offset`), and when no
/// highlight is left the last range runs from the offset to
/// `source.len()`. Node boundaries of a text fall between its characters,
/// as the parser reads UTF-8 text a character at a time. The spans and the
/// configuration stay as they are.
#[verifier::external_body]
fn highlight_events(parser: &mut HighlightParser, source: &[u8]) -> (r: Result<
    Vec<HighlightEvent>,
    tree_sitter_highlight::Error,
>)
    ensures
        r is Ok,
        r matches Ok(events) ==> events@ == sql_highlight(old(parser).names_view(), source@),
        r matches Ok(events) ==> sources_nonempty(events@),
        r matches Ok(events) ==> sources_contiguous(events@) && covered_end(events@) == source@.len(),
        r matches Ok(events) ==> (valid_utf8(source@) ==> events_valid(source@, events@)),
        final(parser).spans_view() == old(parser).spans_view(),
        final(parser).names_view() == old(parser).names_view(),
{
    let events = parser.highlighter.highlight(&parser.sql_config, source, None, None, no_injection)?;
    events.map(|e| e.map(|e| match e {
        tree_sitter_highlight::HighlightEvent::Source { start, end } => HighlightEvent::Source { start, end },
        tree_sitter_highlight::HighlightEvent::HighlightStart(h) => HighlightEvent::HighlightStart(h.0),
        tree_sitter_highlight::HighlightEvent::HighlightEnd => HighlightEvent::HighlightEnd,
    })).collect()
}

/// The colour a highlight starts: keywords cyan, operators burnt orange,
/// delimiters magenta, strings, types and variables in their own colours,
/// every other highlight gray.
pub open spec fn color_for_highlight(h: usize) -> TextColor {
    if h == 33 {
        TextColor::BurntOrange
    } else if h == 14 {
        TextColor::Cyan
    } else if h == 38 {
        TextColor::Magenta
    } else if h == 46 {
        TextColor::Blue1
    } else if h == 48 {
        TextColor::Todo
    } else if h == 40 {
        TextColor::Todo2
    } else {
        TextColor::Gray
    }
}

/// The colour a highlight starts.
pub fn highlight_color(h: usize) -> (c: TextColor)
    ensures
        c == color_for_highlight(h),
{
    if h == 33 {
        TextColor::BurntOrange
    } else if h == 14 {
        TextColor::Cyan
    } else if h == 38 {
        TextColor::Magenta
    } else if h == 46 {
        TextColor::Blue1
    } else if h == 48 {
        TextColor::Todo
    } else if h == 40 {
        TextColor::Todo2
    } else {
        TextColor::Gray
    }
}

/// The colour in force after `events`: burnt orange at first, then the
/// colour of the last highlight that started. The end of a highlight does
/// not change it.
pub open spec fn color_after(events: Seq<HighlightEvent>) -> TextColor
    decreases events.len(),
{
    if events.len() == 0 {
        TextColor::BurntOrange
    } else {
        match events.last() {
            HighlightEvent::HighlightStart(h) => color_for_highlight(h),
            _ => color_after(events.drop_last()),
        }
    }
}

/// Whether the range from `start` to `end` is a piece of the text whose
/// UTF-8 bytes are `bytes`.
pub open spec fn valid_range(bytes: Seq<u8>, start: int, end: int) -> bool {
    &&& start <= end
    &&& is_char_boundary(bytes, start)
    &&& is_char_boundary(bytes, end)
}

/// Whether every range of text in `events` is a piece of the text.
pub open spec fn events_valid(bytes: Seq<u8>, events: Seq<HighlightEvent>) -> bool {
    forall|i: int|
        0 <= i < events.len() ==> match #[trigger] events[i] {
            HighlightEvent::Source { start, end } => valid_range(bytes, start as int, end as int),
            _ => true,
        }
}

/// The styled pieces of text that `events` draw: each range of text in the
/// colour in force before it, in order.
pub open spec fn spans_of(bytes: Seq<u8>, events: Seq<HighlightEvent>) -> Seq<StyledTextView>
    decreases events.len(),
{
    if events.len() == 0 {
        Seq::empty()
    } else {
        let prev = spans_of(bytes, events.drop_last());
        match events.last() {
            HighlightEvent::Source { start, end } => prev.push(
                StyledTextView {
                    text: decode_utf8(bytes.subrange(start as int, end as int)),
                    style: fg_style(text_color_of(color_after(events.drop_last()))),
                },
            ),
            _ => prev,
        }
    }
}

/// The number of ranges of text among `events`.
pub open spec fn source_count(events: Seq<HighlightEvent>) -> nat
    decreases events.len(),
{
    if events.len() == 0 {
        0
    } else {
        source_count(events.drop_last()) + (if events.last() is Source { 1nat } else { 0nat })
    }
}

/// The styled pieces of the SQL text `text`, highlighted with the names
/// `names`: the pieces that the highlighter's events over its bytes draw.
pub open spec fn sql_spans(names: Seq<Seq<char>>, text: Seq<char>) -> Seq<StyledTextView> {
    let bytes = encode_utf8(text);
    spans_of(bytes, sql_highlight(names, bytes))
}

/// Every styled piece holds at least one character.
pub open spec fn spans_nonempty(spans: Seq<StyledTextView>) -> bool {
    forall|i: int| 0 <= i < spans.len() ==> #[trigger] spans[i].text.len() > 0
}

/// The text of styled pieces, joined in order.
pub open spec fn spans_text(spans: Seq<StyledTextView>) -> Seq<char>
    decreases spans.len(),
{
    if spans.len() == 0 {
        Seq::empty()
    } else {
        spans_text(spans.drop_last()) + spans.last().text
    }
}

/// Events whose ranges of text are pieces of the text and run on from byte
/// 0 draw, joined, the text up to where they have reached.
pub proof fn lemma_spans_text(bytes: Seq<u8>, events: Seq<HighlightEvent>)
    requires
        valid_utf8(bytes),
        events_valid(bytes, events),
        sources_contiguous(events),
        sources_nonempty(events),
    ensures
        is_char_boundary(bytes, covered_end(events)),
        spans_text(spans_of(bytes, events)) == decode_utf8(bytes.subrange(0, covered_end(events))),
        spans_nonempty(spans_of(bytes, events)),
    decreases events.len(),
{
    if events.len() == 0 {
        assert(bytes.subrange(0, 0) =~= Seq::<u8>::empty());
        assert(decode_utf8(Seq::<u8>::empty()) =~= Seq::<char>::empty());
    } else {
        let prev = events.drop_last();
        assert forall|i: int| 0 <= i < prev.len() implies match #[trigger] prev[i] {
            HighlightEvent::Source { start, end } => valid_range(bytes, start as int, end as int),
            _ => true,
        } by {
            assert(prev[i] == events[i]);
        }
        assert forall|i: int| 0 <= i < prev.len() implies match #[trigger] prev[i] {
            HighlightEvent::Source { start, end } => start < end,
            _ => true,
        } by {
            assert(prev[i] == events[i]);
        }
        lemma_spans_text(bytes, prev);
        let spans = spans_of(bytes, events);
        match events.last() {
            HighlightEvent::Source { start, end } => {
                assert(events[events.len() - 1] == events.last());
                let c = covered_end(prev);
                let e = end as int;
                assert(start == c);
                assert(valid_range(bytes, c, e));
                assert(e <= bytes.len()) by {
                    if e > bytes.len() {
                        assert(!is_char_boundary(bytes, e));
                    }
                }
                let prefix = bytes.subrange(0, e);
                vstd::utf8::valid_utf8_split(bytes, e);
                assert(valid_utf8(prefix));
                assert(is_char_boundary(prefix, c)) by {
                    if c == e {
                        assert(prefix.len() == e);
                        vstd::utf8::is_char_boundary_start_end_of_seq(prefix);
                    } else if c > 0 {
                        assert(prefix[c] == bytes[c]);
                        vstd::utf8::is_char_boundary_iff_not_is_continuation_byte(bytes, c);
                        vstd::utf8::is_char_boundary_iff_not_is_continuation_byte(prefix, c);
                    } else {
                        vstd::utf8::is_char_boundary_start_end_of_seq(prefix);
                    }
                }
                vstd::utf8::decode_utf8_split(prefix, c);
                vstd::utf8::valid_utf8_split(prefix, c);
                assert(prefix.subrange(0, c) =~= bytes.subrange(0, c));
                assert(prefix.subrange(c, prefix.len() as int) =~= bytes.subrange(c, e));
                assert(spans.drop_last() == spans_of(bytes, prev));
                let piece = bytes.subrange(c, e);
                assert(start < end);
                assert(valid_utf8(piece));
                assert(decode_utf8(piece).len() > 0);
                assert forall|i: int| 0 <= i < spans.len() implies #[trigger] spans[i].text.len() > 0 by {
                    if i < spans.len() - 1 {
                        assert(spans[i] == spans_of(bytes, prev)[i]);
                    }
                }
            },
            _ => {
                assert(spans == spans_of(bytes, prev));
            },
        }
    }
}

/// Events whose ranges of text all hold a byte draw nothing of the empty
/// text.
pub proof fn lemma_empty_text_no_spans(bytes: Seq<u8>, events: Seq<HighlightEvent>)
    requires
        bytes.len() == 0,
        events_valid(bytes, events),
        sources_nonempty(events),
    ensures
        spans_of(bytes, events).len() == 0,
    decreases events.len(),
{
    if events.len() > 0 {
        let last = events.len() - 1;
        assert forall|i: int| 0 <= i < events.drop_last().len() implies match #[trigger] events.drop_last()[i] {
            HighlightEvent::Source { start, end } => valid_range(bytes, start as int, end as int),
            _ => true,
        } by {
            assert(events.drop_last()[i] == events[i]);
        }
        assert forall|i: int| 0 <= i < events.drop_last().len() implies match #[trigger] events.drop_last()[i] {
            HighlightEvent::Source { start, end } => start < end,
            _ => true,
        } by {
            assert(events.drop_last()[i] == events[i]);
        }
        lemma_empty_text_no_spans(bytes, events.drop_last());
        match events[last] {
            HighlightEvent::Source { start, end } => {
                assert(valid_range(bytes, start as int, end as int));
                assert(start < end);
                assert(false);
            },
            _ => {},
        }
    }
}

/// Every range of text in the events gives one styled piece, in the
/// foreground colour of one of the highlight colours and no other style.
pub proof fn lemma_spans_shape(bytes: Seq<u8>, events: Seq<HighlightEvent>)
    ensures
        spans_of(bytes, events).len() == source_count(events),
        forall|i: int|
            0 <= i < spans_of(bytes, events).len() ==> exists|c: TextColor| #[trigger] spans_of(
                bytes,
                events,
            )[i].style == fg_style(text_color_of(c)),
    decreases events.len(),
{
    if events.len() > 0 {
        lemma_spans_shape(bytes, events.drop_last());
        let prev = spans_of(bytes, events.drop_last());
        assert forall|i: int| 0 <= i < spans_of(bytes, events).len() implies exists|c: TextColor|
            #[trigger] spans_of(bytes, events)[i].style == fg_style(text_color_of(c)) by {
            if i < prev.len() {
                assert(spans_of(bytes, events)[i] == prev[i]);
            } else {
                let c = color_after(events.drop_last());
                assert(spans_of(bytes, events)[i].style == fg_style(text_color_of(c)));
            }
        }
    }
}

/// The piece of `text` from byte `start` to byte `end`.
fn text_piece(text: &str, start: usize, end: usize) -> (piece: String)
    requires
        valid_range(text.spec_bytes(), start as int, end as int),
    ensures
        piece@ == decode_utf8(text.spec_bytes().subrange(start as int, end as int)),
{
    let ghost bytes = text.spec_bytes();
    let (left, _right) = text.split_at(end);
    let ghost lb = left.spec_bytes();
    assert(lb =~= bytes.subrange(0, end as int));
    proof {
        assert(vstd::utf8::valid_utf8(bytes));
        assert(vstd::utf8::valid_utf8(lb));
        if start == end {
            assert(is_char_boundary(lb, lb.len() as int));
        } else if start > 0 {
            assert(end <= bytes.len()) by {
                if end > bytes.len() {
                    assert(!is_char_boundary(bytes, end as int));
                }
            }
            assert(lb[start as int] == bytes[start as int]);
            assert(is_char_boundary(bytes, start as int) <==> !vstd::utf8::is_continuation_byte(bytes[start as int]));
            assert(is_char_boundary(lb, start as int) <==> !vstd::utf8::is_continuation_byte(lb[start as int]));
        }
    }
    let (_skipped, mid) = left.split_at(start);
    assert(mid.spec_bytes() =~= bytes.subrange(start as int, end as int));
    mid.to_owned()
}

/// The styled pieces of `text` that `events` draw; `None` when a range of
/// text in `events` is not a piece of `text`.
pub fn spans_from_events(text: &str, events: &Vec<HighlightEvent>) -> (r: Option<Vec<StyledText>>)
    ensures
        r is Some <==> events_valid(text.spec_bytes(), events@),
        r matches Some(spans) ==> styled_view(spans@) == spans_of(text.spec_bytes(), events@),
{
    let ghost bytes = text.spec_bytes();
    let mut spans: Vec<StyledText> = Vec::new();
    let mut color = TextColor::BurntOrange;
    let mut i: usize = 0;
    while i < events.len()
        invariant
            i <= events@.len(),
            bytes == text.spec_bytes(),
            events_valid(bytes, events@.take(i as int)),
            color == color_after(events@.take(i as int)),
            styled_view(spans@) == spans_of(bytes, events@.take(i as int)),
        decreases events@.len() - i,
    {
        let ghost pre = events@.take(i as int);
        assert(events@.take(i + 1).drop_last() =~= pre);
        match events[i] {
            HighlightEvent::Source { start, end } => {
                if start <= end && text.is_char_boundary(start) && text.is_char_boundary(end) {
                    let piece = text_piece(text, start, end);
                    let span = color.highlight(piece);
                    spans.push(span);
                    assert(styled_view(spans@) =~= spans_of(bytes, events@.take(i + 1)));
                } else {
                    assert(events@[i as int] == events@.take(i + 1)[i as int]);
                    proof {
                        if events_valid(bytes, events@) {
                            assert(match events@[i as int] {
                                HighlightEvent::Source { start, end } => valid_range(bytes, start as int, end as int),
                                _ => true,
                            });
                        }
                    }
                    return None;
                }
            },
            HighlightEvent::HighlightStart(h) => {
                color = highlight_color(h);
            },
            HighlightEvent::HighlightEnd => {},
        }
        assert forall|k: int| 0 <= k < i + 1 implies match #[trigger] events@.take(i + 1)[k] {
            HighlightEvent::Source { start, end } => valid_range(bytes, start as int, end as int),
            _ => true,
        } by {
            if k < i {
                assert(events@.take(i + 1)[k] == pre[k]);
            }
        }
        i = i + 1;
    }
    assert(events@.take(events@.len() as int) =~= events@);
    Some(spans)
}

/// The highlight names the SQL text is drawn with, in order.
pub open spec fn highlight_name_list() -> Seq<Seq<char>> {
    seq![
        "attribute"@,
        "boolean"@,
        "carriage-return"@,
        "comment"@,
        "comment.documentation"@,
        "constant"@,
        "constant.builtin"@,
        "constructor"@,
        "constructor.builtin"@,
        "embedded"@,
        "error"@,
        "escape"@,
        "function"@,
        "function.builtin"@,
        "keyword"@,
        "markup"@,
        "markup.bold"@,
        "markup.heading"@,
        "markup.italic"@,
        "markup.link"@,
        "markup.link.url"@,
        "markup.list"@,
        "markup.list.checked"@,
        "markup.list.numbered"@,
        "markup.list.unchecked"@,
        "markup.list.unnumbered"@,
        "markup.quote"@,
        "markup.raw"@,
        "markup.raw.block"@,
        "markup.raw.inline"@,
        "markup.strikethrough"@,
        "module"@,
        "number"@,
        "operator"@,
        "property"@,
        "property.builtin"@,
        "punctuation"@,
        "punctuation.bracket"@,
        "punctuation.delimiter"@,
        "punctuation.special"@,
        "string"@,
        "string.escape"@,
        "string.regexp"@,
        "string.special"@,
        "string.special.symbol"@,
        "tag"@,
        "type"@,
        "type.builtin"@,
        "variable"@,
        "variable.builtin"@,
        "variable.member"@,
        "variable.parameter"@,
    ]
}

/// The names of the highlights the SQL text is drawn with; a highlight's
/// index is its place in this list.
pub fn highlight_names() -> (names: Vec<&'static str>)
    ensures
        names@.len() == 52,
        names@[14]@ == "keyword"@,
        names@[33]@ == "operator"@,
        names@[38]@ == "punctuation.delimiter"@,
        names@[40]@ == "string"@,
        names@[46]@ == "type"@,
        names@[48]@ == "variable"@,
        name_views(names@) == highlight_name_list(),
{
    let names = vec![
        "attribute",
        "boolean",
        "carriage-return",
        "comment",
        "comment.documentation",
        "constant",
        "constant.builtin",
        "constructor",
        "constructor.builtin",
        "embedded",
        "error",
        "escape",
        "function",
        "function.builtin",
        "keyword",
        "markup",
        "markup.bold",
        "markup.heading",
        "markup.italic",
        "markup.link",
        "markup.link.url",
        "markup.list",
        "markup.list.checked",
        "markup.list.numbered",
        "markup.list.unchecked",
        "markup.list.unnumbered",
        "markup.quote",
        "markup.raw",
        "markup.raw.block",
        "markup.raw.inline",
        "markup.strikethrough",
        "module",
        "number",
        "operator",
        "property",
        "property.builtin",
        "punctuation",
        "punctuation.bracket",
        "punctuation.delimiter",
        "punctuation.special",
        "string",
        "string.escape",
        "string.regexp",
        "string.special",
        "string.special.symbol",
        "tag",
        "type",
        "type.builtin",
        "variable",
        "variable.builtin",
        "variable.member",
        "variable.parameter",
    ];
    assert(name_views(names@) =~= highlight_name_list());
    names
}

/// The SQL highlighter and the styled pieces of the last text it highlighted.
pub struct HighlightParser {
    highlighter: tree_sitter_highlight::Highlighter,
    sql_config: tree_sitter_highlight::HighlightConfiguration,
    spans: Vec<StyledText>,
}

impl HighlightParser {
    /// The styled pieces of the last text highlighted.
    pub closed spec fn spans_view(&self) -> Seq<StyledTextView> {
        styled_view(self.spans@)
    }

    /// The highlight names the highlighter recognizes: a highlight it reports
    /// is an index into them.
    pub closed spec fn names_view(&self) -> Seq<Seq<char>> {
        configured_names(self.sql_config)
    }

    /// The styled pieces of the last text highlighted.
    pub fn spans(&self) -> (s: &Vec<StyledText>)
        ensures
            styled_view(s@) == self.spans_view(),
    {
        &self.spans
    }

    /// Loads the SQL grammar, compiles its highlight query and configures it
    /// with the names of `highlight_names`; no spans yet.
    pub fn new() -> (p: HighlightParser)
        ensures
            p.spans_view().len() == 0,
            p.names_view() == highlight_name_list(),
    {
        let mut parser = parser_new();
        match parser_set_sql_language(&mut parser) {
            Ok(()) => {},
            Err(_) => {
                return vstd::pervasive::unreached();
            },
        }
        let highlighter = highlighter_new();
        proof {
            reveal_strlit("");
        }
        let mut sql_config = match sql_config_new("sql", "", "") {
            Ok(config) => config,
            Err(_) => {
                return vstd::pervasive::unreached();
            },
        };
        let names = highlight_names();
        config_configure(&mut sql_config, names.as_slice());
        HighlightParser { highlighter, sql_config, spans: Vec::new() }
    }

    /// Highlights `text`: the spans become the pieces of `text` that the
    /// highlighter's events draw, each in the colour in force before it.
    /// The pieces are not empty and, joined, give back the text; the empty
    /// text leaves no spans.
    pub fn highlight(&mut self, text: String)
        ensures
            final(self).spans_view() == sql_spans(old(self).names_view(), text@),
            final(self).names_view() == old(self).names_view(),
            spans_text(final(self).spans_view()) == text@,
            spans_nonempty(final(self).spans_view()),
            text@.len() == 0 ==> final(self).spans_view().len() == 0,
    {
        self.spans.clear();
        let ghost bytes = encode_utf8(text@);
        let events = match highlight_events(self, text.as_str().as_bytes()) {
            Ok(events) => events,
            Err(_) => {
                return vstd::pervasive::unreached();
            },
        };
        proof {
            lemma_spans_text(bytes, events@);
            assert(bytes.subrange(0, bytes.len() as int) =~= bytes);
            if text@.len() == 0 {
                assert(bytes =~= Seq::<u8>::empty());
                lemma_empty_text_no_spans(bytes, events@);
            }
        }
        match spans_from_events(text.as_str(), &events) {
            Some(spans) => {
                self.spans = spans;
            },
            None => {
                vstd::pervasive::unreached::<()>();
            },
        }
    }
}

} // verus!
