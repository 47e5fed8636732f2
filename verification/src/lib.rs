//! Terminal text coloring with ANSI escape sequences, built through a fluent
//! builder.
//!
//! A builder collects color parameters and texts in turn. Each text closes a
//! segment that carries the parameters given since the text before it.
//! Rendering writes, for every segment, one escape sequence and the text, and
//! a single reset sequence at the very end.
pub mod color;
pub mod decimal;
pub mod escape;
pub mod hex;

use vstd::prelude::*;
use crate::color::{param_list, truecolor_code, Color, ColorPair, ColorValue, COLORS};
use crate::escape::{escape, lemma_reset_chars, reset, token_views};
use crate::hex::{hex_value, HexError};

verus! {

/// What a committed segment says: its parameters and its text.
pub struct SegmentView {
    pub params: Seq<Seq<char>>,
    pub text: Seq<char>,
}

/// What a builder holds: the committed segments, and the parameters given
/// since the last text.
pub struct BuilderState {
    pub segments: Seq<SegmentView>,
    pub pending: Seq<Seq<char>>,
}

/// The segments in their order, each as its escape sequence and its text.
pub open spec fn transcript(segments: Seq<SegmentView>) -> Seq<char>
    decreases segments.len(),
{
    if segments.len() == 0 {
        Seq::empty()
    } else {
        transcript(segments.drop_last()) + escape(segments.last().params) + segments.last().text
    }
}

impl BuilderState {
    /// No segment and no pending parameter.
    pub open spec fn empty() -> BuilderState {
        BuilderState { segments: Seq::empty(), pending: Seq::empty() }
    }

    /// The state after a color call that contributes `tokens`.
    pub open spec fn add_params(self, tokens: Seq<Seq<char>>) -> BuilderState {
        BuilderState { segments: self.segments, pending: self.pending + tokens }
    }

    /// The state after `text` is attached: the pending parameters and the text
    /// become a segment, and nothing is pending.
    pub open spec fn add_text(self, text: Seq<char>) -> BuilderState {
        BuilderState {
            segments: self.segments.push(SegmentView { params: self.pending, text }),
            pending: Seq::empty(),
        }
    }

    /// The rendered output: the transcript of the segments, then one reset
    /// sequence. Pending parameters have no part in it.
    pub open spec fn rendered(self) -> Seq<char> {
        transcript(self.segments) + reset()
    }
}

/// A text attached to a fresh builder, with no color call before it, renders
/// as the bare wrapper `ESC [ m`, the text, and the reset sequence.
pub proof fn lemma_plain_text_rendered(text: Seq<char>)
    ensures
        BuilderState::empty().add_text(text).rendered() == seq!['\x1b', '[', 'm'] + text
            + seq!['\x1b', '[', '3', '9', ';', '4', '9', 'm'],
{
    lemma_reset_chars();
    let state = BuilderState::empty().add_text(text);
    assert(transcript(state.segments.drop_last()) =~= Seq::<char>::empty());
}

/// A text closes one segment: the output grows by the escape sequence of the
/// pending parameters and the text, in front of the one reset sequence at the
/// end.
pub proof fn lemma_text_rendered(state: BuilderState, text: Seq<char>)
    ensures
        state.add_text(text).rendered() == transcript(state.segments) + escape(state.pending)
            + text + reset(),
{
    let segments = state.add_text(text).segments;
    assert(segments.drop_last() =~= state.segments);
}

/// Rendering can be repeated: two renderings of one builder are the same
/// text.
pub proof fn lemma_render_repeatable(formatter: OutputFormatter, first: String, second: String)
    requires
        first@ == formatter@.rendered(),
        second@ == formatter@.rendered(),
    ensures
        first@ == second@,
{
}

/// Color calls after the last text do not show: whatever parameters are
/// added to a builder, it renders as it did before.
pub proof fn lemma_pending_not_rendered(state: BuilderState, tokens: Seq<Seq<char>>)
    ensures
        state.add_params(tokens).rendered() == state.rendered(),
{
}

/// A committed unit: parameters to apply, then text to emit.
struct Segment {
    params: Vec<String>,
    text: String,
}

impl View for Segment {
    type V = SegmentView;

    closed spec fn view(&self) -> SegmentView {
        SegmentView { params: token_views(self.params@), text: self.text@ }
    }
}

/// The builder.
///
/// ```text
/// OutputFormatter::new().fg().white().bg().green().text_str("Hi").print()
/// ```
pub struct OutputFormatter {
    segments: Vec<Segment>,
    pending: Vec<String>,
}

impl View for OutputFormatter {
    type V = BuilderState;

    closed spec fn view(&self) -> BuilderState {
        BuilderState {
            segments: Seq::new(self.segments@.len(), |i: int| self.segments@[i]@),
            pending: token_views(self.pending@),
        }
    }
}

/// The channel that a color call speaks of.
#[derive(Debug, Clone, Copy, PartialEq, Eq, Structural)]
pub enum StyleType {
    FG,
    BG,
    Both,
}

/// A builder together with the channel chosen for its next color call. It is
/// made by `OutputFormatter::fg` and `OutputFormatter::bg` only.
pub struct OutputColor {
    formatter: OutputFormatter,
    for_style: StyleType,
}

/// What an `OutputColor` holds.
pub struct ContextView {
    pub builder: BuilderState,
    pub style: StyleType,
}

impl View for OutputColor {
    type V = ContextView;

    closed spec fn view(&self) -> ContextView {
        ContextView { builder: self.formatter@, style: self.for_style }
    }
}

/// The pair that a color call resolves: in the background context the first
/// color goes to the background and the second to the foreground.
pub open spec fn styled_pair(style: StyleType, fg: ColorValue, bg: ColorValue) -> ColorPair {
    match style {
        StyleType::BG => ColorPair { fg: bg, bg: fg },
        _ => ColorPair { fg, bg },
    }
}

/// What a color call makes of a builder: the parameters of the pair are added
/// to those pending, unless a color of the pair is rejected.
pub open spec fn colorized(state: BuilderState, pair: ColorPair) -> Result<
    BuilderState,
    HexError,
> {
    match param_list(pair) {
        Ok(tokens) => Ok(state.add_params(tokens)),
        Err(e) => Err(e),
    }
}

/// The digit that opens a parameter of the chosen channel: `4` for the
/// background, `3` otherwise.
pub open spec fn channel_char(style: StyleType) -> char {
    match style {
        StyleType::BG => '4',
        _ => '3',
    }
}

/// The parameter of a palette color on the chosen channel.
pub open spec fn palette_token(style: StyleType, digit: char) -> Seq<char> {
    seq![channel_char(style), digit]
}

/// The parameter of a 24-bit color on the chosen channel.
pub open spec fn truecolor_token(style: StyleType, value: nat) -> Seq<char> {
    seq![channel_char(style)] + truecolor_code(value)
}

/// What a hex color call makes of a builder: the true-color parameter of the
/// chosen channel is added to those pending, unless the string is rejected.
pub open spec fn with_hex(state: BuilderState, style: StyleType, hex: Seq<char>) -> Result<
    BuilderState,
    HexError,
> {
    match hex_value(hex) {
        Ok(value) => Ok(state.add_params(seq![truecolor_token(style, value)])),
        Err(e) => Err(e),
    }
}

/// A copy of a list of strings.
fn copy_tokens(tokens: &Vec<String>) -> (copy: Vec<String>)
    ensures
        token_views(copy@) == token_views(tokens@),
{
    let mut copy: Vec<String> = Vec::new();
    let mut i: usize = 0;
    while i < tokens.len()
        invariant
            0 <= i <= tokens.len(),
            copy@.len() == i,
            forall|k: int| 0 <= k < i ==> copy@[k]@ == tokens@[k]@,
        decreases tokens.len() - i,
    {
        copy.push(tokens[i].clone());
        i += 1;
    }
    copy
}

impl OutputFormatter {
    /// An empty builder.
    pub fn new() -> (formatter: Self)
        ensures
            formatter@ == BuilderState::empty(),
    {
        let formatter = OutputFormatter { segments: Vec::new(), pending: Vec::new() };
        assert(formatter@.segments =~= Seq::empty());
        assert(formatter@.pending =~= Seq::empty());
        formatter
    }

    /// Chooses the foreground for the next color call.
    pub fn fg(self) -> (context: OutputColor)
        ensures
            context@ == (ContextView { builder: self@, style: StyleType::FG }),
    {
        OutputColor { formatter: self, for_style: StyleType::FG }
    }

    /// Chooses the background for the next color call.
    pub fn bg(self) -> (context: OutputColor)
        ensures
            context@ == (ContextView { builder: self@, style: StyleType::BG }),
    {
        OutputColor { formatter: self, for_style: StyleType::BG }
    }

    /// Sets both channels at once; no context has to be chosen first.
    pub fn custom(self, fg: COLORS, bg: COLORS) -> (r: Result<OutputFormatter, HexError>)
        ensures
            r matches Ok(formatter) ==> colorized(self@, styled_pair(StyleType::Both, fg@, bg@))
                == Ok::<BuilderState, HexError>(formatter@),
            r matches Err(e) ==> colorized(self@, styled_pair(StyleType::Both, fg@, bg@))
                == Err::<BuilderState, HexError>(e),
    {
        let mut custom = OutputColor { formatter: self, for_style: StyleType::Both };
        custom.custom(fg, bg)
    }

    /// Attaches a text: it becomes a segment with the parameters given since
    /// the last text.
    pub fn text(self, message: String) -> (formatter: Self)
        ensures
            formatter@ == self@.add_text(message@),
    {
        let OutputFormatter { mut segments, pending } = self;
        segments.push(Segment { params: pending, text: message });
        let formatter = OutputFormatter { segments, pending: Vec::new() };
        proof {
            assert(formatter@.pending =~= Seq::empty());
            assert(formatter@.segments =~= self@.add_text(message@).segments);
        }
        formatter
    }

    /// Attaches a text given as a string slice.
    pub fn text_str(self, message: &str) -> (formatter: Self)
        ensures
            formatter@ == self@.add_text(message@),
    {
        self.text(String::from_str(message))
    }

    /// Renders the builder: every segment as its escape sequence and text,
    /// then the reset sequence. Parameters still pending are left out.
    pub fn print(&self) -> (out: String)
        ensures
            out@ == self@.rendered(),
    {
        let ghost segments = self@.segments;
        let mut out = String::new();
        let mut i: usize = 0;
        while i < self.segments.len()
            invariant
                0 <= i <= self.segments.len(),
                segments == self@.segments,
                segments.len() == self.segments.len(),
                out@ == transcript(segments.take(i as int)),
            decreases self.segments.len() - i,
        {
            let segment = &self.segments[i];
            proof {
                let seen = segments.take(i + 1);
                assert(seen.drop_last() =~= segments.take(i as int));
            }
            let colors = Color::format(&segment.params);
            out.append(colors.as_str());
            out.append(segment.text.as_str());
            i += 1;
        }
        assert(segments.take(segments.len() as int) =~= segments);
        let clr = Color::new(COLORS::Unset, COLORS::Unset);
        let tail = Color::format(&clr.unapply());
        out.append(tail.as_str());
        out
    }

    /// A copy of the builder.
    fn duplicate(&self) -> (copy: OutputFormatter)
        ensures
            copy@ == self@,
    {
        let mut segments: Vec<Segment> = Vec::new();
        let mut i: usize = 0;
        while i < self.segments.len()
            invariant
                0 <= i <= self.segments.len(),
                segments@.len() == i,
                forall|k: int| 0 <= k < i ==> segments@[k]@ == self.segments@[k]@,
            decreases self.segments.len() - i,
        {
            let segment = &self.segments[i];
            segments.push(
                Segment { params: copy_tokens(&segment.params), text: segment.text.clone() },
            );
            i += 1;
        }
        let copy = OutputFormatter { segments, pending: copy_tokens(&self.pending) };
        assert(copy@.segments =~= self@.segments);
        copy
    }
}

impl OutputColor {
    /// Resolves the pair for the chosen channel, adds its parameters to the
    /// builder, and hands the builder back.
    fn colorize(&mut self, fg: COLORS, bg: COLORS) -> (r: Result<OutputFormatter, HexError>)
        ensures
            final(self)@.style == old(self)@.style,
            r matches Ok(formatter) ==> colorized(
                old(self)@.builder,
                styled_pair(old(self)@.style, fg@, bg@),
            ) == Ok::<BuilderState, HexError>(formatter@) && final(self)@.builder == formatter@,
            r matches Err(e) ==> colorized(
                old(self)@.builder,
                styled_pair(old(self)@.style, fg@, bg@),
            ) == Err::<BuilderState, HexError>(e) && final(self)@ == old(self)@,
    {
        let color = match self.for_style {
            StyleType::FG => Color::new(fg, bg),
            StyleType::BG => Color::new(bg, fg),
            StyleType::Both => Color::new(fg, bg),
        };
        match color.apply() {
            Ok(mut tokens) => {
                let ghost added = token_views(tokens@);
                let ghost before = self.formatter@;
                self.formatter.pending.append(&mut tokens);
                assert(self.formatter@.pending =~= before.pending + added);
                Ok(self.formatter.duplicate())
            },
            Err(e) => Err(e),
        }
    }

    /// Sets the chosen channel to a palette color.
    fn named(&mut self, color: COLORS) -> (formatter: OutputFormatter)
        requires
            color@ is Palette,
        ensures
            formatter@ == old(self)@.builder.add_params(
                seq![palette_token(old(self)@.style, color@->Palette_0)],
            ),
            final(self)@ == (ContextView { builder: formatter@, style: old(self)@.style }),
    {
        proof {
            let pair = styled_pair(self@.style, color@, ColorValue::Unset);
            let code = seq![color@->Palette_0];
            assert(seq![channel_char(self@.style)] + code =~= palette_token(
                self@.style,
                color@->Palette_0,
            ));
            assert(param_list(pair)->Ok_0 =~= seq![
                palette_token(self@.style, color@->Palette_0),
            ]);
        }
        match self.colorize(color, COLORS::Unset) {
            Ok(formatter) => formatter,
            Err(_) => unreached(),
        }
    }

    /// Apply black to the chosen channel.
    pub fn black(&mut self) -> (formatter: OutputFormatter)
        ensures
            formatter@ == old(self)@.builder.add_params(
                seq![palette_token(old(self)@.style, '0')],
            ),
            final(self)@ == (ContextView { builder: formatter@, style: old(self)@.style }),
    {
        self.named(COLORS::Black)
    }

    /// Apply red to the chosen channel.
    pub fn red(&mut self) -> (formatter: OutputFormatter)
        ensures
            formatter@ == old(self)@.builder.add_params(
                seq![palette_token(old(self)@.style, '1')],
            ),
            final(self)@ == (ContextView { builder: formatter@, style: old(self)@.style }),
    {
        self.named(COLORS::Red)
    }

    /// Apply green to the chosen channel.
    pub fn green(&mut self) -> (formatter: OutputFormatter)
        ensures
            formatter@ == old(self)@.builder.add_params(
                seq![palette_token(old(self)@.style, '2')],
            ),
            final(self)@ == (ContextView { builder: formatter@, style: old(self)@.style }),
    {
        self.named(COLORS::Green)
    }

    /// Apply yellow to the chosen channel.
    pub fn yellow(&mut self) -> (formatter: OutputFormatter)
        ensures
            formatter@ == old(self)@.builder.add_params(
                seq![palette_token(old(self)@.style, '3')],
            ),
            final(self)@ == (ContextView { builder: formatter@, style: old(self)@.style }),
    {
        self.named(COLORS::Yellow)
    }

    /// Apply blue to the chosen channel.
    pub fn blue(&mut self) -> (formatter: OutputFormatter)
        ensures
            formatter@ == old(self)@.builder.add_params(
                seq![palette_token(old(self)@.style, '4')],
            ),
            final(self)@ == (ContextView { builder: formatter@, style: old(self)@.style }),
    {
        self.named(COLORS::Blue)
    }

    /// Apply magenta to the chosen channel.
    pub fn magenta(&mut self) -> (formatter: OutputFormatter)
        ensures
            formatter@ == old(self)@.builder.add_params(
                seq![palette_token(old(self)@.style, '5')],
            ),
            final(self)@ == (ContextView { builder: formatter@, style: old(self)@.style }),
    {
        self.named(COLORS::Magenta)
    }

    /// Apply cyan to the chosen channel.
    pub fn cyan(&mut self) -> (formatter: OutputFormatter)
        ensures
            formatter@ == old(self)@.builder.add_params(
                seq![palette_token(old(self)@.style, '6')],
            ),
            final(self)@ == (ContextView { builder: formatter@, style: old(self)@.style }),
    {
        self.named(COLORS::Cyan)
    }

    /// Apply white to the chosen channel.
    pub fn white(&mut self) -> (formatter: OutputFormatter)
        ensures
            formatter@ == old(self)@.builder.add_params(
                seq![palette_token(old(self)@.style, '7')],
            ),
            final(self)@ == (ContextView { builder: formatter@, style: old(self)@.style }),
    {
        self.named(COLORS::White)
    }

    /// Apply a color in hex notation, such as `#fff` or `ab1346`, to the
    /// chosen channel. A string that is no hex color is rejected, and the
    /// builder stays as it was.
    pub fn hex(&mut self, color: &str) -> (r: Result<OutputFormatter, HexError>)
        ensures
            final(self)@.style == old(self)@.style,
            r matches Ok(formatter) ==> with_hex(old(self)@.builder, old(self)@.style, color@)
                == Ok::<BuilderState, HexError>(formatter@) && final(self)@.builder == formatter@,
            r matches Err(e) ==> with_hex(old(self)@.builder, old(self)@.style, color@) == Err::<
                BuilderState,
                HexError,
            >(e) && final(self)@ == old(self)@,
    {
        proof {
            let pair = styled_pair(self@.style, ColorValue::Hex(color@), ColorValue::Unset);
            if hex_value(color@) is Ok {
                assert(param_list(pair)->Ok_0 =~= seq![
                    truecolor_token(self@.style, hex_value(color@)->Ok_0),
                ]);
            }
        }
        self.colorize(COLORS::HEX(String::from_str(color)), COLORS::Unset)
    }

    /// Apply a foreground and a background at once. In the background
    /// context the first color goes to the background and the second to the
    /// foreground.
    pub fn custom(&mut self, fg: COLORS, bg: COLORS) -> (r: Result<OutputFormatter, HexError>)
        ensures
            final(self)@.style == old(self)@.style,
            r matches Ok(formatter) ==> colorized(
                old(self)@.builder,
                styled_pair(old(self)@.style, fg@, bg@),
            ) == Ok::<BuilderState, HexError>(formatter@) && final(self)@.builder == formatter@,
            r matches Err(e) ==> colorized(
                old(self)@.builder,
                styled_pair(old(self)@.style, fg@, bg@),
            ) == Err::<BuilderState, HexError>(e) && final(self)@ == old(self)@,
    {
        self.colorize(fg, bg)
    }
}

} // verus!
